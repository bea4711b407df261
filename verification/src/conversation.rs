//! The conversation as a state machine: from the phase it is in and what
//! has just happened to the next phase, what to print and what to do.

use vstd::prelude::*;
use vstd::string::*;
use crate::functions_ai::{
    add_message_to_thread, create_assistant, create_thread, print_messages, process_messages,
    rendered, run_assistant, shown_ids, unseen, ApiError, ApiRequest,
};
use crate::openai_api_data::MessageListResponse;
use crate::seen::SeenMessageIds;
use crate::text::{is_exit_command, lowercased, trimmed};

verus! {

/// Where the conversation goes on once the unseen messages are printed.
#[derive(Clone, Copy, Debug, PartialEq, Eq, Structural)]
pub enum Resume {
    /// The user's message was just posted: the run is started next.
    Running,
    /// The run is complete: the user is asked for the next line.
    AwaitingInput,
}

/// The phases of a conversation.
#[derive(Clone, Copy, Debug, PartialEq, Eq, Structural)]
pub enum Phase {
    /// The assistant and the thread are being created.
    Init,
    /// A line of the user is awaited.
    AwaitingInput,
    /// The user's line is being posted.
    Sending,
    /// A run is being started.
    Running,
    /// The run's end is awaited.
    Polling,
    /// The thread's messages are being listed, to print the unseen ones.
    Printing(Resume),
    /// The conversation is over.
    Terminated,
}

/// What has just happened.
#[derive(Debug)]
pub enum Event {
    /// The session begins.
    Started,
    /// The assistant was created; this is its identifier.
    AssistantCreated(String),
    /// The thread was created; this is its identifier.
    ThreadCreated(String),
    /// The user typed this line.
    LineRead(String),
    /// The message was posted; this is its identifier.
    MessagePosted(String),
    /// The thread's messages were listed.
    MessagesListed(MessageListResponse),
    /// A run was started; this is its identifier.
    RunStarted(String),
    /// Waiting for the run ended with this status.
    RunResolved(String),
    /// A remote call failed.
    Failed(ApiError),
}

/// What to tell the user besides the messages.
#[derive(Clone, Copy, Debug, PartialEq, Eq, Structural)]
pub enum Notice {
    /// The greeting, once the session is set up.
    Welcome,
    /// The assistant's reply is complete.
    ReplyComplete,
    /// The run asks for an action, which this client does not perform.
    ActionRequired,
    /// Waiting ended with a status that is neither of the two expected.
    UnknownStatus,
}

/// What the driver does next.
#[derive(Debug)]
pub enum Action {
    /// Send the request and report the record that comes back.
    Send(ApiRequest),
    /// Prompt the user and report the line.
    ReadLine,
    /// Wait for the run with this identifier and report how it ended.
    AwaitRun(String),
    /// End the process with success.
    Exit,
    /// End the process with this failure.
    Abort(ApiError),
    /// The event does not belong to the phase: nothing changed.
    Ignored,
}

/// The answer to one event.
#[derive(Debug)]
pub struct Step {
    /// Lines of dialogue to print, in order.
    pub lines: Vec<String>,
    /// A notice to print after the lines.
    pub notice: Option<Notice>,
    /// What to do next.
    pub action: Action,
}

/// A conversation: its phase, the identifiers of the session and the
/// messages already shown.
#[derive(Debug)]
pub struct Conversation {
    pub phase: Phase,
    pub api_key: String,
    pub assistant_id: String,
    pub thread_id: String,
    pub seen: SeenMessageIds,
}

/// Whether a line asks to end the conversation.
pub open spec fn is_exit(line: Seq<char>) -> bool {
    lowercased(trimmed(line)) == "exit"@
}

/// The phase that follows `phase` on `event`. Any failure ends the
/// conversation; an event that the phase does not expect leaves it.
pub open spec fn next_phase(phase: Phase, event: Event) -> Phase {
    match (phase, event) {
        (Phase::Terminated, _) => Phase::Terminated,
        (_, Event::Failed(_)) => Phase::Terminated,
        (Phase::Init, Event::ThreadCreated(_)) => Phase::AwaitingInput,
        (Phase::AwaitingInput, Event::LineRead(line)) => if is_exit(line@) {
            Phase::Terminated
        } else {
            Phase::Sending
        },
        (Phase::Sending, Event::MessagePosted(_)) => Phase::Printing(Resume::Running),
        (Phase::Printing(Resume::Running), Event::MessagesListed(_)) => Phase::Running,
        (Phase::Running, Event::RunStarted(_)) => Phase::Polling,
        (Phase::Polling, Event::RunResolved(status)) => if status@ == "completed"@ {
            Phase::Printing(Resume::AwaitingInput)
        } else {
            Phase::AwaitingInput
        },
        (Phase::Printing(Resume::AwaitingInput), Event::MessagesListed(_)) => Phase::AwaitingInput,
        _ => phase,
    }
}

/// The notice that `event` brings in `phase`.
pub open spec fn notice_for(phase: Phase, event: Event) -> Option<Notice> {
    match (phase, event) {
        (Phase::Init, Event::ThreadCreated(_)) => Some(Notice::Welcome),
        (Phase::Polling, Event::RunResolved(status)) => if status@ == "completed"@ {
            None
        } else if status@ == "requires_action"@ {
            Some(Notice::ActionRequired)
        } else {
            Some(Notice::UnknownStatus)
        },
        (Phase::Printing(Resume::AwaitingInput), Event::MessagesListed(_)) => Some(
            Notice::ReplyComplete,
        ),
        _ => None,
    }
}

/// The listing whose unseen messages are printed when `event` comes in
/// `phase`, if there is one.
pub open spec fn listing_shown(phase: Phase, event: Event) -> Option<MessageListResponse> {
    match (phase, event) {
        (Phase::Printing(_), Event::MessagesListed(list)) => Some(list),
        _ => None,
    }
}

impl Conversation {
    /// The set of seen identifiers is a set.
    pub open spec fn wf(&self) -> bool {
        self.seen.wf()
    }

    /// Whether `action` is what a conversation in the state `self` does
    /// next on `event`.
    pub open spec fn answers(self, event: Event, action: Action) -> bool {
        match (self.phase, event) {
            (Phase::Terminated, _) => action is Ignored,
            (_, Event::Failed(e)) => action == Action::Abort(e),
            (Phase::Init, Event::Started) => match action {
                Action::Send(r) => r.creates_assistant(self.api_key@),
                _ => false,
            },
            (Phase::Init, Event::AssistantCreated(_)) => match action {
                Action::Send(r) => r.creates_thread(self.api_key@),
                _ => false,
            },
            (Phase::Init, Event::ThreadCreated(_)) => action is ReadLine,
            (Phase::AwaitingInput, Event::LineRead(line)) => if is_exit(line@) {
                action is Exit
            } else {
                match action {
                    Action::Send(r) => r.posts_message(self.api_key@, self.thread_id@, line@),
                    _ => false,
                }
            },
            (Phase::Sending, Event::MessagePosted(_)) => match action {
                Action::Send(r) => r.lists_messages(self.api_key@, self.thread_id@),
                _ => false,
            },
            (Phase::Printing(Resume::Running), Event::MessagesListed(_)) => match action {
                Action::Send(r) => r.starts_run(
                    self.api_key@,
                    self.thread_id@,
                    self.assistant_id@,
                ),
                _ => false,
            },
            (Phase::Running, Event::RunStarted(run_id)) => match action {
                Action::AwaitRun(id) => id@ == run_id@,
                _ => false,
            },
            (Phase::Polling, Event::RunResolved(status)) => if status@ == "completed"@ {
                match action {
                    Action::Send(r) => r.lists_messages(self.api_key@, self.thread_id@),
                    _ => false,
                }
            } else {
                action is ReadLine
            },
            (Phase::Printing(Resume::AwaitingInput), Event::MessagesListed(_)) => action
                is ReadLine,
            _ => action is Ignored,
        }
    }

    /// A conversation about to begin, with nothing seen.
    pub fn new(api_key: String) -> (c: Self)
        ensures
            c.wf(),
            c.phase == Phase::Init,
            c.api_key@ == api_key@,
            c.assistant_id@ == Seq::<char>::empty(),
            c.thread_id@ == Seq::<char>::empty(),
            c.seen@ == Seq::<Seq<char>>::empty(),
    {
        Conversation {
            phase: Phase::Init,
            api_key,
            assistant_id: String::new(),
            thread_id: String::new(),
            seen: SeenMessageIds::new(),
        }
    }

    /// Takes the conversation one step on: moves to the next phase, keeps
    /// the identifiers that the event brings, chooses the unseen messages
    /// of a listing for printing and marks them seen, and says what to do
    /// next.
    pub fn step(&mut self, event: Event) -> (out: Step)
        requires
            old(self).wf(),
        ensures
            final(self).wf(),
            final(self).phase == next_phase(old(self).phase, event),
            final(self).api_key@ == old(self).api_key@,
            final(self).assistant_id@ == (match (old(self).phase, event) {
                (Phase::Init, Event::AssistantCreated(id)) => id@,
                _ => old(self).assistant_id@,
            }),
            final(self).thread_id@ == (match (old(self).phase, event) {
                (Phase::Init, Event::ThreadCreated(id)) => id@,
                _ => old(self).thread_id@,
            }),
            match listing_shown(old(self).phase, event) {
                Some(list) => {
                    &&& final(self).seen@ == old(self).seen@ + shown_ids(
                        list.ids(),
                        old(self).seen@,
                    )
                    &&& out.lines@.len() == unseen(list.ids(), old(self).seen@).len()
                    &&& forall|k: int|
                        0 <= k < out.lines@.len() ==> (#[trigger] out.lines@[k])@ == rendered(
                            list.data@[unseen(list.ids(), old(self).seen@)[k]],
                        )
                },
                None => final(self).seen@ == old(self).seen@ && out.lines@.len() == 0,
            },
            out.notice == notice_for(old(self).phase, event),
            old(self).answers(event, out.action),
    {
        let mut lines: Vec<String> = Vec::new();
        let mut notice: Option<Notice> = None;
        let phase = self.phase;
        let action = match (phase, event) {
            (Phase::Terminated, _) => Action::Ignored,
            (_, Event::Failed(e)) => {
                self.phase = Phase::Terminated;
                Action::Abort(e)
            },
            (Phase::Init, Event::Started) => Action::Send(create_assistant(self.api_key.as_str())),
            (Phase::Init, Event::AssistantCreated(id)) => {
                self.assistant_id = id;
                Action::Send(create_thread(self.api_key.as_str()))
            },
            (Phase::Init, Event::ThreadCreated(id)) => {
                self.thread_id = id;
                self.phase = Phase::AwaitingInput;
                notice = Some(Notice::Welcome);
                Action::ReadLine
            },
            (Phase::AwaitingInput, Event::LineRead(line)) => {
                if is_exit_command(line.as_str()) {
                    self.phase = Phase::Terminated;
                    Action::Exit
                } else {
                    self.phase = Phase::Sending;
                    Action::Send(
                        add_message_to_thread(
                            self.api_key.as_str(),
                            self.thread_id.as_str(),
                            line.as_str(),
                        ),
                    )
                }
            },
            (Phase::Sending, Event::MessagePosted(_)) => {
                self.phase = Phase::Printing(Resume::Running);
                Action::Send(process_messages(self.api_key.as_str(), self.thread_id.as_str()))
            },
            (Phase::Printing(Resume::Running), Event::MessagesListed(list)) => {
                lines = print_messages(&list, &mut self.seen);
                self.phase = Phase::Running;
                Action::Send(
                    run_assistant(
                        self.api_key.as_str(),
                        self.thread_id.as_str(),
                        self.assistant_id.as_str(),
                    ),
                )
            },
            (Phase::Running, Event::RunStarted(run_id)) => {
                self.phase = Phase::Polling;
                Action::AwaitRun(run_id)
            },
            (Phase::Polling, Event::RunResolved(status)) => {
                match after_wait(status.as_str()) {
                    None => {
                        self.phase = Phase::Printing(Resume::AwaitingInput);
                        Action::Send(
                            process_messages(self.api_key.as_str(), self.thread_id.as_str()),
                        )
                    },
                    Some(n) => {
                        notice = Some(n);
                        self.phase = Phase::AwaitingInput;
                        Action::ReadLine
                    },
                }
            },
            (Phase::Printing(Resume::AwaitingInput), Event::MessagesListed(list)) => {
                lines = print_messages(&list, &mut self.seen);
                notice = Some(Notice::ReplyComplete);
                self.phase = Phase::AwaitingInput;
                Action::ReadLine
            },
            _ => Action::Ignored,
        };
        Step { lines, notice, action }
    }
}

/// Once over, a conversation stays over, whatever happens.
pub proof fn terminated_is_final(event: Event)
    ensures
        next_phase(Phase::Terminated, event) == Phase::Terminated,
{
}

/// A failed remote call ends the conversation, in whatever phase it comes.
pub proof fn any_failure_is_fatal(phase: Phase, error: ApiError)
    ensures
        next_phase(phase, Event::Failed(error)) == Phase::Terminated,
{
}

/// Only a listing that arrives while printing has its messages shown: in
/// every other phase, and on every other event, nothing is shown.
pub proof fn shown_only_when_printing(phase: Phase, event: Event)
    ensures
        listing_shown(phase, event) is Some <==> (phase is Printing && event is MessagesListed),
{
}

/// What the end of a wait means for the conversation: nothing to say
/// where the run is complete, since its messages are printed next;
/// otherwise the notice to give before the user is asked again.
pub fn after_wait(status: &str) -> (r: Option<Notice>)
    ensures
        r == (if status@ == "completed"@ {
            None
        } else if status@ == "requires_action"@ {
            Some(Notice::ActionRequired)
        } else {
            Some(Notice::UnknownStatus)
        }),
{
    let given = String::from_str(status);
    if given == String::from_str("completed") {
        None
    } else if given == String::from_str("requires_action") {
        Some(Notice::ActionRequired)
    } else {
        Some(Notice::UnknownStatus)
    }
}

} // verus!
