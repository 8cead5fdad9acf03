use vstd::prelude::*;

use crate::channel::Delivery;
use crate::pending::{
    message_of, offer_model, take_model, text_of, wake_after_take, PendingState, Wake,
};
use crate::request::HumanRequest;

verus! {

/// The body of an answer posted from the web page.
pub struct RespondBody {
    pub response: String,
}

/// The web page's view of the slot: whether a request is pending and, if
/// so, its message.
pub struct PendingResponse {
    pub pending: bool,
    pub message: Option<String>,
}

/// The reply to a posted answer: whether it went to a pending request and,
/// if not, why.
pub struct RespondResponse {
    pub ok: bool,
    pub error: Option<String>,
}

/// The error given when an answer is posted and no request is waiting.
pub open spec fn not_pending_text() -> Seq<char> {
    "No pending request or already answered"@
}

/// Whether posting an answer to a slot succeeds: only while a request is pending.
pub open spec fn submit_accepted(slot: Option<HumanRequest>) -> bool {
    slot is Some
}

/// Where a posted `text` goes from a slot, and what goes there: to the answer
/// channel of the pending request, unchanged; nowhere when none is pending.
pub open spec fn answer_destination(slot: Option<HumanRequest>, text: Seq<char>) -> Option<
    (int, Seq<char>),
> {
    match slot {
        Some(r) => Some((r.response_tx.channel(), text)),
        None => None,
    }
}

/// Where an answer was handed, and what was handed, if one was.
pub open spec fn handed_over(sent: Option<(Result<(), String>, Delivery)>) -> Option<
    (int, Seq<char>),
> {
    match sent {
        Some((_, d)) => Some((d.channel(), d.text())),
        None => None,
    }
}

/// What the web page is told about the slot.
pub fn get_pending(state: &PendingState) -> (r: PendingResponse)
    ensures
        r.pending == (state.slot() is Some),
        text_of(r.message) == message_of(state.slot()),
        r.message is Some == state.slot() is Some,
        r.message matches Some(m) ==> m@ == state.slot()->0.message@,
{
    match state.peek_message() {
        Some(message) => PendingResponse { pending: true, message: Some(message) },
        None => PendingResponse { pending: false, message: None },
    }
}

/// Takes the pending request, if any, and hands the posted answer, as
/// posted, to that request's answer channel. The reply says whether there was
/// a request to answer; the slot is empty afterwards, and those waiting for it
/// to clear are to be woken when a request was taken. The third part is what
/// handing the answer over gave, when there was a request to hand it to: an
/// answer that did not reach the agent (it had stopped waiting) comes back in
/// `Err`, and the record says where the answer went.
pub fn submit_response(state: &mut PendingState, body: RespondBody) -> (r: (
    RespondResponse,
    Wake,
    Option<(Result<(), String>, Delivery)>,
))
    ensures
        final(state).slot() == take_model(old(state).slot()).0,
        r.0.ok == submit_accepted(old(state).slot()),
        r.0.ok ==> r.0.error is None,
        !r.0.ok ==> text_of(r.0.error) == Some(not_pending_text()),
        r.1 == wake_after_take(old(state).slot()),
        handed_over(r.2) == answer_destination(old(state).slot(), body.response@),
        r.2 matches Some((Err(back), _)) ==> back@ == body.response@,
        r.0.ok == old(state).slot() is Some,
        r.2 is Some == old(state).slot() is Some,
        r.2 matches Some((_, d)) ==> d.text() == body.response@ && d.channel() == old(
            state,
        ).slot()->0.response_tx.channel(),
        old(state).slot() is Some ==> r.1 == Wake::SlotWaiters,
        old(state).slot() is None ==> r.1 == Wake::Nobody,
{
    let (taken, wake) = state.try_take();
    match taken {
        Some(request) => {
            let sent = request.respond(body.response);
            (RespondResponse { ok: true, error: None }, wake, Some(sent))
        },
        None => {
            let error = String::from_str("No pending request or already answered");
            (RespondResponse { ok: false, error: Some(error) }, wake, None)
        },
    }
}

/// Posting an answer while any request is pending is accepted, whatever the
/// request's message; posting with nothing pending is refused.
pub proof fn law_answer_accepted_while_pending(request: HumanRequest)
    ensures
        submit_accepted(Some(request)),
        !submit_accepted(None),
{
}

/// The posted text goes, unchanged, to the pending request's own answer
/// channel, whatever its length; and what a delivery record reports as handed
/// over is that record's own channel and text.
pub proof fn law_posted_text_handed_over_unchanged(
    request: HumanRequest,
    text: Seq<char>,
    result: Result<(), String>,
    delivery: Delivery,
)
    ensures
        answer_destination(Some(request), text) == Some((request.response_tx.channel(), text)),
        answer_destination(None, text) is None,
        handed_over(Some((result, delivery))) == Some((delivery.channel(), delivery.text())),
        handed_over(None) is None,
{
}

/// An answer is accepted at most once per request: once an answer has been
/// posted, a second one, before a new request arrives, is refused and goes
/// nowhere.
pub proof fn law_second_answer_refused(slot: Option<HumanRequest>, text: Seq<char>)
    ensures
        !submit_accepted(take_model(slot).0),
        answer_destination(take_model(slot).0, text) is None,
{
}

/// A posted answer reaches the agent that asked, unchanged: when the request
/// that `HumanRequest::open` paired with the asker's receiving half has been
/// offered to the empty slot, the text posted next goes to that receiving
/// half's channel, exactly as posted.
pub proof fn law_posted_answer_reaches_asker(
    request: HumanRequest,
    asker: crate::channel::AnswerReceiver,
    text: Seq<char>,
)
    requires
        request.response_tx.channel() == asker.channel(),
    ensures
        answer_destination(offer_model(None, request).0, text) == Some((asker.channel(), text)),
{
}

} // verus!
