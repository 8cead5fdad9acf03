use slave_mcp::web::{get_pending, submit_response, RespondBody};
use slave_mcp::{HumanRequest, PendingState, Wake};

#[test]
fn pending_view_of_empty_slot() {
    let state = PendingState::new();
    let view = get_pending(&state);
    assert!(!view.pending);
    assert_eq!(view.message, None);
}

#[test]
fn pending_view_shows_message() {
    let mut state = PendingState::new();
    let (req, _rx) = HumanRequest::open("Approve the database migration?".to_string());
    state.store(req);
    let view = get_pending(&state);
    assert!(view.pending);
    assert_eq!(view.message, Some("Approve the database migration?".to_string()));
}

#[test]
fn submit_answers_pending_request() {
    let mut state = PendingState::new();
    let (req, rx) = HumanRequest::open("approve?".to_string());
    let mut rx = rx.into_inner();
    state.store(req);
    let (reply, wake, sent) = submit_response(&mut state, RespondBody { response: "  approved  ".to_string() });
    assert!(reply.ok);
    assert_eq!(reply.error, None);
    assert!(matches!(wake, Wake::SlotWaiters));
    assert_eq!(sent.map(|s| s.0), Some(Ok(())));
    assert_eq!(rx.try_recv().unwrap(), "  approved  ");
    assert!(!get_pending(&state).pending);
}

#[test]
fn second_submit_is_refused() {
    let mut state = PendingState::new();
    let (req, _rx) = HumanRequest::open("approve?".to_string());
    state.store(req);
    let (first, _, _) = submit_response(&mut state, RespondBody { response: "yes".to_string() });
    assert!(first.ok);
    let (second, wake, sent) = submit_response(&mut state, RespondBody { response: "no".to_string() });
    assert!(sent.is_none());
    assert!(!second.ok);
    assert_eq!(second.error, Some("No pending request or already answered".to_string()));
    assert!(matches!(wake, Wake::Nobody));
}

#[test]
fn submit_without_request_is_refused() {
    let mut state = PendingState::new();
    let (reply, _, _) = submit_response(&mut state, RespondBody { response: "hello".to_string() });
    assert!(!reply.ok);
    assert_eq!(reply.error, Some("No pending request or already answered".to_string()));
}

#[test]
fn answer_to_departed_asker_comes_back() {
    let mut state = PendingState::new();
    let (req, rx) = HumanRequest::open("still there?".to_string());
    state.store(req);
    drop(rx);
    let (reply, _, sent) = submit_response(&mut state, RespondBody { response: "yes".to_string() });
    assert!(reply.ok);
    assert_eq!(sent.map(|s| s.0), Some(Err("yes".to_string())));
}
