//! Records that the remote service answers with, reduced to the plain
//! fields the client reads.

use vstd::prelude::*;

verus! {

/// The assistant that a session talks to.
#[derive(Debug)]
pub struct CreateAssistantResponse {
    pub id: String,
    pub object: String,
    pub created_at: i64,
    pub name: String,
    pub description: Option<String>,
    pub model: String,
    pub instructions: String,
    pub file_ids: Vec<String>,
}

/// A conversation on the remote side.
#[derive(Debug)]
pub struct Thread {
    pub id: String,
    pub object: String,
    pub created_at: i64,
}

/// The record returned for a message that was just posted.
#[derive(Debug)]
pub struct Message {
    pub id: String,
    pub role: String,
    pub object: String,
    pub created_at: i64,
    pub thread_id: String,
}

/// One execution of the assistant against a thread.
#[derive(Debug)]
pub struct Runs {
    pub id: String,
    pub status: String,
    pub object: String,
    pub created_at: i64,
    pub model: String,
    pub assistant_id: String,
    pub thread_id: String,
}

/// The text of a content block.
#[derive(Debug)]
pub struct Text {
    pub value: String,
}

/// One content block of a message.
#[derive(Debug)]
pub struct Content {
    pub content_type: String,
    pub text: Text,
}

/// A message as it appears in a listing.
#[derive(Debug)]
pub struct Messages {
    pub id: String,
    pub object: String,
    pub created_at: i64,
    pub thread_id: String,
    pub role: String,
    pub content: Vec<Content>,
    pub file_ids: Vec<String>,
    pub assistant_id: Option<String>,
    pub run_id: Option<String>,
}

/// The first page of a thread's messages, newest first.
#[derive(Debug)]
pub struct MessageListResponse {
    pub object: String,
    pub data: Vec<Messages>,
    pub first_id: String,
    pub last_id: String,
    pub has_more: bool,
}

impl Messages {
    /// The text shown for this message: that of its first content block,
    /// or nothing where it has no block at all.
    pub open spec fn shown_text(self) -> Seq<char> {
        if self.content@.len() == 0 {
            Seq::<char>::empty()
        } else {
            self.content@[0].text.value@
        }
    }
}

impl MessageListResponse {
    /// The identifiers of the listed messages, in the order of the listing.
    pub open spec fn ids(self) -> Seq<Seq<char>> {
        Seq::new(self.data@.len(), |i: int| self.data@[i].id@)
    }
}

} // verus!
