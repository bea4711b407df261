use assistant_chat::functions_ai::{
    polls_until_resolved, status_is_resolved, wait_for_completion, ApiError, Method, PollAction,
    PollEvent, POLL_INTERVAL_SECS,
};

fn statuses(list: &[&str]) -> Vec<String> {
    list.iter().map(|s| s.to_string()).collect()
}

/// Runs the wait against readings that yield `list` in turn, and returns
/// what it ended with, the number of readings and the seconds slept.
fn drive(list: &[&str]) -> (Option<String>, usize, u64) {
    let mut fetches = 0usize;
    let mut slept = 0u64;
    let mut event = PollEvent::Started;
    loop {
        match wait_for_completion("key", "t1", "r1", event) {
            PollAction::Sleep(secs) => {
                slept += secs;
                event = PollEvent::Slept;
            }
            PollAction::Fetch(request) => {
                assert_eq!(request.method, Method::Get);
                assert_eq!(request.url, "https://api.openai.com/v1/threads/t1/runs/r1");
                assert_eq!(request.authorization, "Bearer key");
                if fetches == list.len() {
                    return (None, fetches, slept);
                }
                event = PollEvent::Fetched(list[fetches].to_string());
                fetches += 1;
            }
            PollAction::Return(result) => return (Some(result), fetches, slept),
            PollAction::Abort(e) => panic!("unexpected failure {:?}", e),
        }
    }
}

#[test]
fn completes_at_the_third_reading() {
    let (result, fetches, slept) = drive(&["in_progress", "in_progress", "completed"]);
    assert_eq!(result, Some("completed".to_string()));
    assert_eq!(fetches, 3);
    assert_eq!(slept, 15);
    let replay = polls_until_resolved(&statuses(&["in_progress", "in_progress", "completed"]));
    assert_eq!(replay, Some((3, "completed".to_string())));
}

#[test]
fn requires_action_ends_at_once() {
    let (result, fetches, slept) = drive(&["requires_action", "completed"]);
    assert_eq!(result, Some("requires_action".to_string()));
    assert_eq!(fetches, 1);
    assert_eq!(slept, 5);
    let replay = polls_until_resolved(&statuses(&["requires_action", "completed"]));
    assert_eq!(replay, Some((1, "requires_action".to_string())));
}

#[test]
fn other_statuses_keep_the_wait_going() {
    let list = ["queued", "failed", "cancelled", "expired", "", "Completed"];
    let (result, fetches, slept) = drive(&list);
    assert_eq!(result, None);
    assert_eq!(fetches, 6);
    assert_eq!(slept, 35);
    assert_eq!(polls_until_resolved(&statuses(&list)), None);
    assert_eq!(polls_until_resolved(&Vec::new()), None);
}

#[test]
fn the_pause_comes_before_the_first_reading() {
    assert_eq!(POLL_INTERVAL_SECS, 5);
    assert!(matches!(wait_for_completion("k", "t", "r", PollEvent::Started), PollAction::Sleep(5)));
    assert!(matches!(wait_for_completion("k", "t", "r", PollEvent::Slept), PollAction::Fetch(_)));
    assert!(matches!(
        wait_for_completion("k", "t", "r", PollEvent::Fetched("queued".to_string())),
        PollAction::Sleep(5)
    ));
}

#[test]
fn a_failed_reading_ends_the_wait() {
    assert!(matches!(
        wait_for_completion("k", "t", "r", PollEvent::Failed(ApiError::Transport)),
        PollAction::Abort(ApiError::Transport)
    ));
    assert!(matches!(
        wait_for_completion("k", "t", "r", PollEvent::Failed(ApiError::Decode)),
        PollAction::Abort(ApiError::Decode)
    ));
}

#[test]
fn resolved_statuses_are_two() {
    assert!(status_is_resolved("completed"));
    assert!(status_is_resolved("requires_action"));
    assert!(!status_is_resolved("in_progress"));
    assert!(!status_is_resolved("queued"));
    assert!(!status_is_resolved("failed"));
    assert!(!status_is_resolved("req_action"));
}
