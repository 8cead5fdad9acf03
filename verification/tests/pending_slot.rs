use slave_mcp::{HumanRequest, OfferStep, PendingState, TakeStep, Wake};

fn request(text: &str) -> (HumanRequest, tokio::sync::oneshot::Receiver<String>) {
    let (req, rx) = HumanRequest::open(text.to_string());
    (req, rx.into_inner())
}

#[test]
fn new_slot_is_empty() {
    let state = PendingState::new();
    assert_eq!(state.peek_message(), None);
}

#[test]
fn store_then_peek_gives_message() {
    let mut state = PendingState::new();
    let (req, _rx) = request("What is the Wi-Fi password?");
    let wake = state.store(req);
    assert!(matches!(wake, Wake::RequestWaiters));
    assert_eq!(state.peek_message(), Some("What is the Wi-Fi password?".to_string()));
    // peeking does not take
    assert_eq!(state.peek_message(), Some("What is the Wi-Fi password?".to_string()));
}

#[test]
fn try_take_takes_once() {
    let mut state = PendingState::new();
    let (req, _rx) = request("approve?");
    state.store(req);
    let (taken, wake) = state.try_take();
    assert_eq!(taken.map(|r| r.message), Some("approve?".to_string()));
    assert!(matches!(wake, Wake::SlotWaiters));
    let (again, wake) = state.try_take();
    assert!(again.is_none());
    assert!(matches!(wake, Wake::Nobody));
    assert_eq!(state.peek_message(), None);
}

#[test]
fn wait_and_take_waits_on_empty_slot() {
    let mut state = PendingState::new();
    let (step, wake) = state.wait_and_take();
    assert!(matches!(step, TakeStep::Wait));
    assert!(matches!(wake, Wake::Nobody));
    let (req, _rx) = request("hello");
    state.store(req);
    match state.wait_and_take() {
        (TakeStep::Taken(r), wake) => {
            assert_eq!(r.message, "hello");
            assert!(matches!(wake, Wake::SlotWaiters));
        }
        (TakeStep::Wait, _) => panic!("the pending request was not taken"),
    }
    assert!(matches!(state.wait_and_take().0, TakeStep::Wait));
}

#[test]
fn offer_stores_into_empty_slot() {
    let mut state = PendingState::new();
    let (req, _rx) = request("first");
    assert!(matches!(state.offer(req), OfferStep::Stored));
    assert_eq!(state.peek_message(), Some("first".to_string()));
}

#[test]
fn offer_never_replaces_pending_request() {
    let mut state = PendingState::new();
    let (first, _rx1) = request("first");
    let (second, _rx2) = request("second");
    state.offer(first);
    match state.offer(second) {
        OfferStep::Busy(back) => assert_eq!(back.message, "second"),
        OfferStep::Stored => panic!("a pending request was replaced"),
    }
    assert_eq!(state.peek_message(), Some("first".to_string()));
}

#[test]
fn requests_pass_in_order() {
    let mut state = PendingState::new();
    let mut queue: Vec<HumanRequest> = Vec::new();
    let mut receivers = Vec::new();
    for text in ["one", "two", "three"] {
        let (r, rx) = request(text);
        queue.push(r);
        receivers.push(rx);
    }
    let mut taken = Vec::new();
    let mut queue = std::collections::VecDeque::from(queue);
    while let Some(next) = queue.pop_front() {
        match state.offer(next) {
            OfferStep::Stored => {}
            OfferStep::Busy(back) => {
                queue.push_front(back);
                let (t, _) = state.try_take();
                taken.push(t.unwrap().message);
            }
        }
    }
    let (t, _) = state.try_take();
    taken.push(t.unwrap().message);
    assert_eq!(taken, vec!["one", "two", "three"]);
}

#[test]
fn respond_reaches_the_asker() {
    let (req, mut rx) = request("question");
    assert_eq!(req.respond("answer".to_string()).0, Ok(()));
    assert_eq!(rx.try_recv().unwrap(), "answer");
}

#[test]
fn respond_to_departed_asker_is_not_delivered() {
    let (req, rx) = request("question");
    drop(rx);
    assert_eq!(req.respond("answer".to_string()).0, Err("answer".to_string()));
}

#[test]
fn dropping_a_request_tells_the_asker() {
    let (req, mut rx) = request("question");
    drop(req);
    assert!(rx.try_recv().is_err());
}

#[test]
fn one_of_many_takers_gets_the_request() {
    let mut state = PendingState::new();
    let (req, _rx) = request("only once");
    state.store(req);
    let mut winners = Vec::new();
    for turn in 0..5 {
        let got = if turn % 2 == 0 {
            state.try_take().0
        } else {
            match state.wait_and_take().0 {
                TakeStep::Taken(r) => Some(r),
                TakeStep::Wait => None,
            }
        };
        if let Some(r) = got {
            winners.push((turn, r.message));
        }
    }
    assert_eq!(winners, vec![(0, "only once".to_string())]);
}

#[test]
fn each_asker_gets_its_own_answer() {
    let (first, mut first_rx) = request("first question");
    let (second, mut second_rx) = request("second question");
    assert_eq!(second.respond("second answer".to_string()).0, Ok(()));
    assert_eq!(first.respond("first answer".to_string()).0, Ok(()));
    assert_eq!(first_rx.try_recv().unwrap(), "first answer");
    assert_eq!(second_rx.try_recv().unwrap(), "second answer");
}
