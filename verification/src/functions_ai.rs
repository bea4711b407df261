//! The client's operations: the request that each remote call sends, the
//! rule by which a run is polled, and the choice of the messages to show.

use vstd::prelude::*;
use vstd::string::*;
use crate::openai_api_data::{MessageListResponse, Messages};
use crate::seen::SeenMessageIds;
use crate::text::{capitalize_first_letter, capitalized};

verus! {

/// Why a remote call failed. Either failure ends the session.
#[derive(Clone, Copy, Debug, PartialEq, Eq, Structural)]
pub enum ApiError {
    /// The request did not get through, or no answer came back.
    Transport,
    /// An answer came back that is not the expected record.
    Decode,
}

/// The failure to report for a call that did not yield a record, given
/// whether the answer arrived and could not be read.
pub fn classify_failure(answer_unreadable: bool) -> (e: ApiError)
    ensures
        e == (if answer_unreadable {
            ApiError::Decode
        } else {
            ApiError::Transport
        }),
{
    if answer_unreadable {
        ApiError::Decode
    } else {
        ApiError::Transport
    }
}

/// The HTTP method of a request.
#[derive(Clone, Copy, Debug, PartialEq, Eq, Structural)]
pub enum Method {
    Get,
    Post,
}

/// The kind of record that the answer to a request is read as.
#[derive(Clone, Copy, Debug, PartialEq, Eq, Structural)]
pub enum Record {
    Assistant,
    Thread,
    Message,
    Run,
    MessageList,
}

/// The JSON object that a request carries, by its fields.
#[derive(Debug)]
pub enum RequestBody {
    /// No body.
    Empty,
    /// `{model, name, instructions}`
    Assistant { model: String, name: String, instructions: String },
    /// `{role, content}`
    Message { role: String, content: String },
    /// `{assistant_id, instructions}`
    Run { assistant_id: String, instructions: String },
}

/// One request to the remote service, ready to be sent.
#[derive(Debug)]
pub struct ApiRequest {
    pub method: Method,
    pub url: String,
    /// Value of the `Authorization` header.
    pub authorization: String,
    /// Value of the `OpenAI-Beta` header.
    pub beta: String,
    /// Value of the `Content-Type` header.
    pub content_type: String,
    pub body: RequestBody,
    /// What the answer is read as.
    pub expects: Record,
}

impl ApiRequest {
    /// The request goes to `url` by `method` and carries the three headers
    /// that every call has: the bearer credential, the beta marker and the
    /// JSON content type.
    pub open spec fn addressed(self, method: Method, url: Seq<char>, api_key: Seq<char>) -> bool {
        &&& self.method == method
        &&& self.url@ == url
        &&& self.authorization@ == "Bearer "@ + api_key
        &&& self.beta@ == "assistants=v1"@
        &&& self.content_type@ == "application/json"@
    }

    /// The request creates the session's assistant: a fixed model, name
    /// and instruction text.
    pub open spec fn creates_assistant(self, api_key: Seq<char>) -> bool {
        &&& self.addressed(Method::Post, assistants_url(), api_key)
        &&& self.expects == Record::Assistant
        &&& match self.body {
            RequestBody::Assistant { model, name, instructions } => {
                &&& model@ == "gpt-3.5-turbo"@
                &&& name@ == "MiAsistente"@
                &&& instructions@
                    == "Este mi asistente personal. Respuestas breves y concisas."@
            },
            _ => false,
        }
    }

    /// The request opens a conversation thread. It has no body.
    pub open spec fn creates_thread(self, api_key: Seq<char>) -> bool {
        &&& self.addressed(Method::Post, threads_url(), api_key)
        &&& self.expects == Record::Thread
        &&& self.body is Empty
    }

    /// The request posts `text` to the thread in the user's name.
    pub open spec fn posts_message(
        self,
        api_key: Seq<char>,
        thread_id: Seq<char>,
        text: Seq<char>,
    ) -> bool {
        &&& self.addressed(Method::Post, messages_url(thread_id), api_key)
        &&& self.expects == Record::Message
        &&& match self.body {
            RequestBody::Message { role, content } => role@ == "user"@ && content@ == text,
            _ => false,
        }
    }

    /// The request starts a run of the assistant on the thread.
    pub open spec fn starts_run(
        self,
        api_key: Seq<char>,
        thread_id: Seq<char>,
        assistant_id: Seq<char>,
    ) -> bool {
        &&& self.addressed(Method::Post, runs_url(thread_id), api_key)
        &&& self.expects == Record::Run
        &&& match self.body {
            RequestBody::Run { assistant_id: sent, instructions } => {
                &&& sent@ == assistant_id
                &&& instructions@ == "Responde como un experto varios temas."@
            },
            _ => false,
        }
    }

    /// The request lists the thread's messages.
    pub open spec fn lists_messages(self, api_key: Seq<char>, thread_id: Seq<char>) -> bool {
        &&& self.addressed(Method::Get, messages_url(thread_id), api_key)
        &&& self.expects == Record::MessageList
        &&& self.body is Empty
    }

    /// The request reads the present record of a run.
    pub open spec fn reads_run(
        self,
        api_key: Seq<char>,
        thread_id: Seq<char>,
        run_id: Seq<char>,
    ) -> bool {
        &&& self.addressed(Method::Get, run_url(thread_id, run_id), api_key)
        &&& self.expects == Record::Run
        &&& self.body is Empty
    }
}

/// Where assistants are created.
pub open spec fn assistants_url() -> Seq<char> {
    "https://api.openai.com/v1/assistants"@
}

/// Where threads are created.
pub open spec fn threads_url() -> Seq<char> {
    "https://api.openai.com/v1/threads"@
}

/// Where the messages of a thread are posted and listed.
pub open spec fn messages_url(thread_id: Seq<char>) -> Seq<char> {
    "https://api.openai.com/v1/threads/"@ + thread_id + "/messages"@
}

/// Where the runs of a thread are started.
pub open spec fn runs_url(thread_id: Seq<char>) -> Seq<char> {
    "https://api.openai.com/v1/threads/"@ + thread_id + "/runs"@
}

/// Where one run of a thread is read.
pub open spec fn run_url(thread_id: Seq<char>, run_id: Seq<char>) -> Seq<char> {
    "https://api.openai.com/v1/threads/"@ + thread_id + "/runs/"@ + run_id
}

fn request(
    method: Method,
    url: String,
    api_key: &str,
    body: RequestBody,
    expects: Record,
) -> (r: ApiRequest)
    ensures
        r.addressed(method, url@, api_key@),
        r.body == body,
        r.expects == expects,
{
    let mut authorization = String::from_str("Bearer ");
    authorization.append(api_key);
    ApiRequest {
        method,
        url,
        authorization,
        beta: String::from_str("assistants=v1"),
        content_type: String::from_str("application/json"),
        body,
        expects,
    }
}

fn thread_url(thread_id: &str, tail: &str) -> (url: String)
    ensures
        url@ == "https://api.openai.com/v1/threads/"@ + thread_id@ + tail@,
{
    let mut url = String::from_str("https://api.openai.com/v1/threads/");
    url.append(thread_id);
    url.append(tail);
    url
}

/// The request that creates the session's assistant: a fixed model, name
/// and instruction text.
pub fn create_assistant(api_key: &str) -> (r: ApiRequest)
    ensures
        r.creates_assistant(api_key@),
{
    let body = RequestBody::Assistant {
        model: String::from_str("gpt-3.5-turbo"),
        name: String::from_str("MiAsistente"),
        instructions: String::from_str(
            "Este mi asistente personal. Respuestas breves y concisas.",
        ),
    };
    request(
        Method::Post,
        String::from_str("https://api.openai.com/v1/assistants"),
        api_key,
        body,
        Record::Assistant,
    )
}

/// The request that opens a conversation thread. It has no body.
pub fn create_thread(api_key: &str) -> (r: ApiRequest)
    ensures
        r.creates_thread(api_key@),
{
    request(
        Method::Post,
        String::from_str("https://api.openai.com/v1/threads"),
        api_key,
        RequestBody::Empty,
        Record::Thread,
    )
}

/// The request that posts the user's text to a thread. The text goes out
/// as it was given.
pub fn add_message_to_thread(api_key: &str, thread_id: &str, input: &str) -> (r: ApiRequest)
    ensures
        r.posts_message(api_key@, thread_id@, input@),
{
    let body = RequestBody::Message {
        role: String::from_str("user"),
        content: String::from_str(input),
    };
    request(Method::Post, thread_url(thread_id, "/messages"), api_key, body, Record::Message)
}

/// The request that starts a run of the assistant on a thread.
pub fn run_assistant(api_key: &str, thread_id: &str, assistant_id: &str) -> (r: ApiRequest)
    ensures
        r.starts_run(api_key@, thread_id@, assistant_id@),
{
    let body = RequestBody::Run {
        assistant_id: String::from_str(assistant_id),
        instructions: String::from_str("Responde como un experto varios temas."),
    };
    request(Method::Post, thread_url(thread_id, "/runs"), api_key, body, Record::Run)
}

/// The request that lists a thread's messages: the first page, newest
/// first.
pub fn process_messages(api_key: &str, thread_id: &str) -> (r: ApiRequest)
    ensures
        r.lists_messages(api_key@, thread_id@),
{
    request(
        Method::Get,
        thread_url(thread_id, "/messages"),
        api_key,
        RequestBody::Empty,
        Record::MessageList,
    )
}

/// The request that reads a run's present status.
pub fn run_status_request(api_key: &str, thread_id: &str, run_id: &str) -> (r: ApiRequest)
    ensures
        r.reads_run(api_key@, thread_id@, run_id@),
{
    let mut url = thread_url(thread_id, "/runs/");
    url.append(run_id);
    request(Method::Get, url, api_key, RequestBody::Empty, Record::Run)
}

/// Seconds to wait before each reading of a run's status.
pub const POLL_INTERVAL_SECS: u64 = 5;

/// A status at which waiting for a run ends: the run is done, or it asks
/// for an action. Every other status, whatever it is, means waiting on.
pub open spec fn is_resolved(status: Seq<char>) -> bool {
    status == "completed"@ || status == "requires_action"@
}

/// Whether waiting for a run ends at this status.
pub fn status_is_resolved(status: &str) -> (r: bool)
    ensures
        r == is_resolved(status@),
{
    let given = String::from_str(status);
    given == String::from_str("completed") || given == String::from_str("requires_action")
}

/// What the one who waits for a run has just seen.
#[derive(Debug)]
pub enum PollEvent {
    /// Waiting begins.
    Started,
    /// The pause is over.
    Slept,
    /// The run's record was read; this is its status.
    Fetched(String),
    /// The run's record could not be read.
    Failed(ApiError),
}

/// What the one who waits for a run does next.
#[derive(Debug)]
pub enum PollAction {
    /// Pause for this many seconds.
    Sleep(u64),
    /// Send this request, which reads the run.
    Fetch(ApiRequest),
    /// Waiting is over, with this status.
    Return(String),
    /// Waiting is over, with this failure.
    Abort(ApiError),
}

/// One decision of the wait for a run. The wait pauses before every
/// reading, reads the run's status after the pause, and ends at the first
/// status that is `completed` or `requires_action`, which it returns; at
/// any other status it pauses again, without limit. A failed reading ends
/// it with that failure.
pub fn wait_for_completion(api_key: &str, thread_id: &str, run_id: &str, event: PollEvent) -> (action:
    PollAction)
    ensures
        match event {
            PollEvent::Started => action == PollAction::Sleep(POLL_INTERVAL_SECS),
            PollEvent::Slept => match action {
                PollAction::Fetch(r) => r.reads_run(api_key@, thread_id@, run_id@),
                _ => false,
            },
            PollEvent::Fetched(status) => if is_resolved(status@) {
                match action {
                    PollAction::Return(result) => result@ == status@,
                    _ => false,
                }
            } else {
                action == PollAction::Sleep(POLL_INTERVAL_SECS)
            },
            PollEvent::Failed(e) => action == PollAction::Abort(e),
        },
{
    match event {
        PollEvent::Started => PollAction::Sleep(POLL_INTERVAL_SECS),
        PollEvent::Slept => PollAction::Fetch(run_status_request(api_key, thread_id, run_id)),
        PollEvent::Fetched(status) => {
            if status_is_resolved(status.as_str()) {
                PollAction::Return(status)
            } else {
                PollAction::Sleep(POLL_INTERVAL_SECS)
            }
        },
        PollEvent::Failed(e) => PollAction::Abort(e),
    }
}

/// How a wait ends when its successive readings yield `statuses`: the
/// number of readings made and the status returned, which is the first
/// resolved one; `None` where no status of the sequence is resolved, so
/// that the wait would still go on after the last.
pub fn polls_until_resolved(statuses: &Vec<String>) -> (r: Option<(usize, String)>)
    ensures
        match r {
            Some((fetches, result)) => {
                &&& 1 <= fetches <= statuses@.len()
                &&& result@ == statuses@[fetches - 1]@
                &&& is_resolved(result@)
                &&& forall|k: int| 0 <= k < fetches - 1 ==> !is_resolved(#[trigger] statuses@[k]@)
            },
            None => forall|k: int|
                0 <= k < statuses@.len() ==> !is_resolved(#[trigger] statuses@[k]@),
        },
{
    let n: usize = statuses.len();
    let mut i: usize = 0;
    while i < n
        invariant
            n == statuses@.len(),
            i <= n,
            forall|k: int| 0 <= k < i ==> !is_resolved(#[trigger] statuses@[k]@),
        decreases n - i,
    {
        if status_is_resolved(statuses[i].as_str()) {
            return Some((i + 1, statuses[i].clone()));
        }
        i += 1;
    }
    None
}

/// A message's line of dialogue: the speaker's role with a capital
/// letter, a colon and a space, then the text of the first content block.
pub open spec fn rendered(m: Messages) -> Seq<char> {
    capitalized(m.role@) + ": "@ + m.shown_text()
}

/// Writes a message's line of dialogue.
pub fn render_message(m: &Messages) -> (line: String)
    ensures
        line@ == rendered(*m),
{
    let mut line = capitalize_first_letter(m.role.as_str());
    line.append(": ");
    if m.content.len() > 0 {
        line.append(m.content[0].text.value.as_str());
    } else {
        assert(line@ =~= rendered(*m));
    }
    line
}

/// The positions, in a listing that runs from newest to oldest, of the
/// messages to show, in the order of showing, when `seen` holds the
/// identifiers shown before. The listing is walked from its end, the
/// oldest message; an identifier that `seen` holds is passed over; any
/// other is shown and counts as seen from then on.
pub open spec fn unseen(listing: Seq<Seq<char>>, seen: Seq<Seq<char>>) -> Seq<int>
    decreases listing.len(),
{
    if listing.len() == 0 {
        Seq::<int>::empty()
    } else {
        let at = listing.len() - 1;
        if seen.contains(listing[at]) {
            unseen(listing.drop_last(), seen)
        } else {
            seq![at] + unseen(listing.drop_last(), seen.push(listing[at]))
        }
    }
}

/// The identifiers that stand in a listing at the given positions.
pub open spec fn ids_at(listing: Seq<Seq<char>>, positions: Seq<int>) -> Seq<Seq<char>> {
    Seq::new(positions.len(), |k: int| listing[positions[k]])
}

/// The identifiers shown for a listing, in the order of showing.
pub open spec fn shown_ids(listing: Seq<Seq<char>>, seen: Seq<Seq<char>>) -> Seq<Seq<char>> {
    ids_at(listing, unseen(listing, seen))
}

/// Chooses from a listing, newest first, the messages not shown before,
/// oldest first, records their identifiers as seen and returns their lines
/// of dialogue in the order in which they are to be printed.
pub fn print_messages(message_list: &MessageListResponse, arr_message_id: &mut SeenMessageIds) -> (lines:
    Vec<String>)
    requires
        old(arr_message_id).wf(),
    ensures
        final(arr_message_id).wf(),
        final(arr_message_id)@ == old(arr_message_id)@ + shown_ids(
            message_list.ids(),
            old(arr_message_id)@,
        ),
        lines@.len() == unseen(message_list.ids(), old(arr_message_id)@).len(),
        forall|k: int|
            0 <= k < lines@.len() ==> (#[trigger] lines@[k])@ == rendered(
                message_list.data@[unseen(message_list.ids(), old(arr_message_id)@)[k]],
            ),
{
    let n: usize = message_list.data.len();
    let mut lines: Vec<String> = Vec::new();
    let ghost ids = message_list.ids();
    let ghost seen0 = arr_message_id@;
    let ghost mut done: Seq<int> = Seq::<int>::empty();
    let mut i: usize = n;
    proof {
        assert(ids.take(n as int) =~= ids);
        assert(done + unseen(ids, seen0) =~= unseen(ids, seen0));
        assert(seen0 + ids_at(ids, done) =~= seen0);
    }
    while i > 0
        invariant
            i <= n,
            n == message_list.data@.len(),
            ids == message_list.ids(),
            arr_message_id.wf(),
            unseen(ids, seen0) == done + unseen(ids.take(i as int), arr_message_id@),
            arr_message_id@ == seen0 + ids_at(ids, done),
            lines@.len() == done.len(),
            forall|k: int|
                0 <= k < done.len() ==> (#[trigger] lines@[k])@ == rendered(
                    message_list.data@[done[k]],
                ),
        decreases i,
    {
        i -= 1;
        let m = &message_list.data[i];
        let ghost seen_before = arr_message_id@;
        let ghost rest = ids.take(i as int);
        proof {
            assert(ids.take(i + 1).drop_last() =~= rest);
            assert(ids.take(i + 1)[i as int] == m.id@);
        }
        let added = arr_message_id.insert(m.id.as_str());
        if added {
            let line = render_message(m);
            lines.push(line);
            proof {
                let ghost shown = done.push(i as int);
                assert(done + (seq![i as int] + unseen(rest, seen_before.push(m.id@))) =~= shown
                    + unseen(rest, seen_before.push(m.id@)));
                assert(seen_before.push(m.id@) =~= seen0 + ids_at(ids, shown));
                done = shown;
            }
        }
    }
    lines
}

} // verus!
