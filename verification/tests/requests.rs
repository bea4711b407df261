use assistant_chat::functions_ai::{
    add_message_to_thread, classify_failure, create_assistant, create_thread, process_messages,
    run_assistant, run_status_request, ApiError, ApiRequest, Method, Record, RequestBody,
};

fn assert_headers(r: &ApiRequest, key: &str) {
    assert_eq!(r.authorization, format!("Bearer {}", key));
    assert_eq!(r.beta, "assistants=v1");
    assert_eq!(r.content_type, "application/json");
}

#[test]
fn create_assistant_request() {
    let r = create_assistant("sk-test");
    assert_eq!(r.method, Method::Post);
    assert_eq!(r.url, "https://api.openai.com/v1/assistants");
    assert_eq!(r.expects, Record::Assistant);
    assert_headers(&r, "sk-test");
    match r.body {
        RequestBody::Assistant { model, name, instructions } => {
            assert_eq!(model, "gpt-3.5-turbo");
            assert_eq!(name, "MiAsistente");
            assert_eq!(instructions, "Este mi asistente personal. Respuestas breves y concisas.");
        }
        other => panic!("unexpected body {:?}", other),
    }
}

#[test]
fn create_thread_request() {
    let r = create_thread("k");
    assert_eq!(r.method, Method::Post);
    assert_eq!(r.url, "https://api.openai.com/v1/threads");
    assert_eq!(r.expects, Record::Thread);
    assert_headers(&r, "k");
    assert!(matches!(r.body, RequestBody::Empty));
}

#[test]
fn post_message_request() {
    let r = add_message_to_thread("k", "thread_1", "Hello\n");
    assert_eq!(r.method, Method::Post);
    assert_eq!(r.url, "https://api.openai.com/v1/threads/thread_1/messages");
    assert_eq!(r.expects, Record::Message);
    assert_headers(&r, "k");
    match r.body {
        RequestBody::Message { role, content } => {
            assert_eq!(role, "user");
            assert_eq!(content, "Hello\n");
        }
        other => panic!("unexpected body {:?}", other),
    }
}

#[test]
fn start_run_request() {
    let r = run_assistant("k", "thread_1", "asst_9");
    assert_eq!(r.method, Method::Post);
    assert_eq!(r.url, "https://api.openai.com/v1/threads/thread_1/runs");
    assert_eq!(r.expects, Record::Run);
    assert_headers(&r, "k");
    match r.body {
        RequestBody::Run { assistant_id, instructions } => {
            assert_eq!(assistant_id, "asst_9");
            assert_eq!(instructions, "Responde como un experto varios temas.");
        }
        other => panic!("unexpected body {:?}", other),
    }
}

#[test]
fn list_messages_request() {
    let r = process_messages("k", "thread_1");
    assert_eq!(r.method, Method::Get);
    assert_eq!(r.url, "https://api.openai.com/v1/threads/thread_1/messages");
    assert_eq!(r.expects, Record::MessageList);
    assert_headers(&r, "k");
    assert!(matches!(r.body, RequestBody::Empty));
}

#[test]
fn read_run_request() {
    let r = run_status_request("k", "thread_1", "run_7");
    assert_eq!(r.method, Method::Get);
    assert_eq!(r.url, "https://api.openai.com/v1/threads/thread_1/runs/run_7");
    assert_eq!(r.expects, Record::Run);
    assert_headers(&r, "k");
    assert!(matches!(r.body, RequestBody::Empty));
}

#[test]
fn empty_identifiers_leave_the_path_bare() {
    let r = run_status_request("", "", "");
    assert_eq!(r.url, "https://api.openai.com/v1/threads//runs/");
    assert_eq!(r.authorization, "Bearer ");
}

#[test]
fn failures_are_of_two_kinds() {
    assert_eq!(classify_failure(true), ApiError::Decode);
    assert_eq!(classify_failure(false), ApiError::Transport);
}
