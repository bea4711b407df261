use assistant_chat::conversation::{after_wait, Action, Conversation, Event, Notice, Phase, Resume};
use assistant_chat::functions_ai::{ApiError, Method, RequestBody};
use assistant_chat::openai_api_data::{Content, MessageListResponse, Messages, Text};

fn message(id: &str, role: &str, text: &str) -> Messages {
    Messages {
        id: id.to_string(),
        object: "thread.message".to_string(),
        created_at: 0,
        thread_id: "t1".to_string(),
        role: role.to_string(),
        content: vec![Content {
            content_type: "text".to_string(),
            text: Text { value: text.to_string() },
        }],
        file_ids: Vec::new(),
        assistant_id: None,
        run_id: None,
    }
}

fn listing(data: Vec<Messages>) -> MessageListResponse {
    MessageListResponse {
        object: "list".to_string(),
        data,
        first_id: String::new(),
        last_id: String::new(),
        has_more: false,
    }
}

fn ready() -> Conversation {
    let mut c = Conversation::new("key".to_string());
    c.step(Event::Started);
    c.step(Event::AssistantCreated("a1".to_string()));
    c.step(Event::ThreadCreated("t1".to_string()));
    c
}

#[test]
fn setup_creates_assistant_then_thread() {
    let mut c = Conversation::new("key".to_string());
    assert_eq!(c.phase, Phase::Init);
    let s = c.step(Event::Started);
    match s.action {
        Action::Send(r) => {
            assert_eq!(r.url, "https://api.openai.com/v1/assistants");
            assert_eq!(r.authorization, "Bearer key");
        }
        other => panic!("unexpected action {:?}", other),
    }
    assert_eq!(c.phase, Phase::Init);
    let s = c.step(Event::AssistantCreated("a1".to_string()));
    match s.action {
        Action::Send(r) => assert_eq!(r.url, "https://api.openai.com/v1/threads"),
        other => panic!("unexpected action {:?}", other),
    }
    assert_eq!(c.assistant_id, "a1");
    let s = c.step(Event::ThreadCreated("t1".to_string()));
    assert!(matches!(s.action, Action::ReadLine));
    assert_eq!(s.notice, Some(Notice::Welcome));
    assert_eq!(c.thread_id, "t1");
    assert_eq!(c.phase, Phase::AwaitingInput);
}

#[test]
fn exit_terminates_identically_in_each_spelling() {
    for line in ["Exit", "EXIT", "  exit  ", "exit\n"] {
        let mut c = ready();
        let s = c.step(Event::LineRead(line.to_string()));
        assert!(matches!(s.action, Action::Exit));
        assert_eq!(s.notice, None);
        assert!(s.lines.is_empty());
        assert_eq!(c.phase, Phase::Terminated);
    }
}

#[test]
fn exitnow_is_sent_as_a_message() {
    let mut c = ready();
    let s = c.step(Event::LineRead("exitnow".to_string()));
    assert_eq!(c.phase, Phase::Sending);
    match s.action {
        Action::Send(r) => match r.body {
            RequestBody::Message { content, .. } => assert_eq!(content, "exitnow"),
            other => panic!("unexpected body {:?}", other),
        },
        other => panic!("unexpected action {:?}", other),
    }
}

#[test]
fn hello_round_prints_new_messages_only() {
    let mut c = ready();
    assert!(c.seen.insert("m1"));
    let s = c.step(Event::LineRead("Hello\n".to_string()));
    match s.action {
        Action::Send(r) => {
            assert_eq!(r.method, Method::Post);
            assert_eq!(r.url, "https://api.openai.com/v1/threads/t1/messages");
            match r.body {
                RequestBody::Message { role, content } => {
                    assert_eq!(role, "user");
                    assert_eq!(content, "Hello\n");
                }
                other => panic!("unexpected body {:?}", other),
            }
        }
        other => panic!("unexpected action {:?}", other),
    }
    let s = c.step(Event::MessagePosted("m2".to_string()));
    assert_eq!(c.phase, Phase::Printing(Resume::Running));
    match s.action {
        Action::Send(r) => {
            assert_eq!(r.method, Method::Get);
            assert_eq!(r.url, "https://api.openai.com/v1/threads/t1/messages");
        }
        other => panic!("unexpected action {:?}", other),
    }
    let s = c.step(Event::MessagesListed(listing(vec![
        message("m2", "user", "Hello"),
        message("m1", "assistant", "Earlier"),
    ])));
    assert_eq!(s.lines, vec!["User: Hello"]);
    assert_eq!(s.notice, None);
    assert_eq!(c.phase, Phase::Running);
    match s.action {
        Action::Send(r) => {
            assert_eq!(r.url, "https://api.openai.com/v1/threads/t1/runs");
            match r.body {
                RequestBody::Run { assistant_id, .. } => assert_eq!(assistant_id, "a1"),
                other => panic!("unexpected body {:?}", other),
            }
        }
        other => panic!("unexpected action {:?}", other),
    }
    let s = c.step(Event::RunStarted("r1".to_string()));
    assert_eq!(c.phase, Phase::Polling);
    match s.action {
        Action::AwaitRun(id) => assert_eq!(id, "r1"),
        other => panic!("unexpected action {:?}", other),
    }
    let s = c.step(Event::RunResolved("completed".to_string()));
    assert_eq!(c.phase, Phase::Printing(Resume::AwaitingInput));
    assert_eq!(s.notice, None);
    assert!(matches!(s.action, Action::Send(_)));
    let s = c.step(Event::MessagesListed(listing(vec![
        message("m3", "assistant", "Hi there"),
        message("m2", "user", "Hello"),
        message("m1", "assistant", "Earlier"),
    ])));
    assert_eq!(s.lines, vec!["Assistant: Hi there"]);
    assert_eq!(s.notice, Some(Notice::ReplyComplete));
    assert!(matches!(s.action, Action::ReadLine));
    assert_eq!(c.phase, Phase::AwaitingInput);
    assert_eq!(c.seen.len(), 3);
    assert_eq!(c.seen.get(0), "m1");
    assert_eq!(c.seen.get(1), "m2");
    assert_eq!(c.seen.get(2), "m3");
}

fn polling() -> Conversation {
    let mut c = ready();
    c.step(Event::LineRead("Hi".to_string()));
    c.step(Event::MessagePosted("m1".to_string()));
    c.step(Event::MessagesListed(listing(vec![message("m1", "user", "Hi")])));
    c.step(Event::RunStarted("r1".to_string()));
    assert_eq!(c.phase, Phase::Polling);
    c
}

#[test]
fn action_required_gives_a_notice_and_asks_again() {
    let mut c = polling();
    let s = c.step(Event::RunResolved("requires_action".to_string()));
    assert_eq!(s.notice, Some(Notice::ActionRequired));
    assert!(matches!(s.action, Action::ReadLine));
    assert!(s.lines.is_empty());
    assert_eq!(c.phase, Phase::AwaitingInput);
}

#[test]
fn unknown_status_gives_a_notice_and_asks_again() {
    let mut c = polling();
    let s = c.step(Event::RunResolved("failed".to_string()));
    assert_eq!(s.notice, Some(Notice::UnknownStatus));
    assert!(matches!(s.action, Action::ReadLine));
    assert_eq!(c.phase, Phase::AwaitingInput);
}

#[test]
fn after_wait_tells_the_three_outcomes_apart() {
    assert_eq!(after_wait("completed"), None);
    assert_eq!(after_wait("requires_action"), Some(Notice::ActionRequired));
    assert_eq!(after_wait("req_action"), Some(Notice::UnknownStatus));
    assert_eq!(after_wait(""), Some(Notice::UnknownStatus));
}

#[test]
fn any_failure_is_fatal() {
    let mut c = Conversation::new("key".to_string());
    let s = c.step(Event::Failed(ApiError::Transport));
    assert!(matches!(s.action, Action::Abort(ApiError::Transport)));
    assert_eq!(c.phase, Phase::Terminated);
    let mut c = polling();
    let s = c.step(Event::Failed(ApiError::Decode));
    assert!(matches!(s.action, Action::Abort(ApiError::Decode)));
    assert_eq!(c.phase, Phase::Terminated);
}

#[test]
fn unexpected_events_change_nothing() {
    let mut c = ready();
    let s = c.step(Event::RunStarted("r9".to_string()));
    assert!(matches!(s.action, Action::Ignored));
    assert_eq!(c.phase, Phase::AwaitingInput);
    assert_eq!(c.thread_id, "t1");
    let s = c.step(Event::MessagesListed(listing(vec![message("m1", "user", "x")])));
    assert!(matches!(s.action, Action::Ignored));
    assert!(s.lines.is_empty());
    assert_eq!(c.seen.len(), 0);
    let mut c = ready();
    c.step(Event::LineRead("exit".to_string()));
    let s = c.step(Event::LineRead("again".to_string()));
    assert!(matches!(s.action, Action::Ignored));
    assert_eq!(c.phase, Phase::Terminated);
    let s = c.step(Event::Failed(ApiError::Transport));
    assert!(matches!(s.action, Action::Ignored));
}
