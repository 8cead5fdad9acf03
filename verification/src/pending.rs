use vstd::prelude::*;

use crate::request::HumanRequest;

verus! {

/// Which waiting tasks an operation asks its caller to wake.
pub enum Wake {
    /// No one.
    Nobody,
    /// Those waiting for a request to appear in the slot.
    RequestWaiters,
    /// Those waiting for the slot to be cleared.
    SlotWaiters,
}

/// What a taker that may wait learns from the slot.
pub enum TakeStep {
    /// The pending request, now removed; the slot's waiters are to be woken.
    Taken(HumanRequest),
    /// The slot was empty: wait until a request is announced, then ask again.
    Wait,
}

/// What the dispatcher learns when it offers a request to the slot.
pub enum OfferStep {
    /// The request now fills the slot; the request waiters are to be woken.
    Stored,
    /// The slot still holds an earlier request: the offered one comes back,
    /// to be offered again once the slot has been cleared.
    Busy(HumanRequest),
}

impl OfferStep {
    /// The request that an offer hands back, if any.
    pub open spec fn handed_back(self) -> Option<HumanRequest> {
        match self {
            OfferStep::Stored => None,
            OfferStep::Busy(r) => Some(r),
        }
    }
}

impl TakeStep {
    /// The request that a wait-and-take step took, if any.
    pub open spec fn taken(self) -> Option<HumanRequest> {
        match self {
            TakeStep::Taken(r) => Some(r),
            TakeStep::Wait => None,
        }
    }
}

/// The message shown for what a slot holds.
pub open spec fn message_of(slot: Option<HumanRequest>) -> Option<Seq<char>> {
    match slot {
        Some(r) => Some(r.message@),
        None => None,
    }
}

/// The text an optional string holds, as characters.
pub open spec fn text_of(s: Option<String>) -> Option<Seq<char>> {
    match s {
        Some(t) => Some(t@),
        None => None,
    }
}

/// The slot after a request is stored into it.
pub open spec fn store_model(slot: Option<HumanRequest>, request: HumanRequest) -> Option<HumanRequest> {
    Some(request)
}

/// Taking: the slot after, and the request taken.
pub open spec fn take_model(slot: Option<HumanRequest>) -> (Option<HumanRequest>, Option<HumanRequest>) {
    (None, slot)
}

/// Offering: the slot after, and the request handed back to the dispatcher.
pub open spec fn offer_model(slot: Option<HumanRequest>, request: HumanRequest) -> (
    Option<HumanRequest>,
    Option<HumanRequest>,
) {
    match slot {
        None => (Some(request), None),
        Some(p) => (Some(p), Some(request)),
    }
}

/// The wake-up that taking asks for: the slot's waiters when something was taken.
pub open spec fn wake_after_take(taken: Option<HumanRequest>) -> Wake {
    if taken is Some {
        Wake::SlotWaiters
    } else {
        Wake::Nobody
    }
}

/// The slot holding the request that is waiting for the human, shared by
/// every interface through which a human may answer. It holds at most one
/// request: one human, one request at a time.
pub struct PendingState {
    inner: Option<HumanRequest>,
}

impl PendingState {
    /// The request in the slot, if any.
    pub closed spec fn slot(&self) -> Option<HumanRequest> {
        self.inner
    }

    /// An empty slot.
    pub fn new() -> (s: PendingState)
        ensures
            s.slot() is None,
    {
        PendingState { inner: None }
    }

    /// Puts `request` into the empty slot. Those waiting for a request are to
    /// be woken.
    pub fn store(&mut self, request: HumanRequest) -> (w: Wake)
        requires
            old(self).slot() is None,
        ensures
            final(self).slot() == store_model(old(self).slot(), request),
            w == Wake::RequestWaiters,
    {
        self.inner = Some(request);
        Wake::RequestWaiters
    }

    /// Takes the pending request, leaving the slot empty. Returns `None` when
    /// there was none (already taken). When a request was taken, those waiting
    /// for the slot to clear are to be woken.
    pub fn try_take(&mut self) -> (r: (Option<HumanRequest>, Wake))
        ensures
            (final(self).slot(), r.0) == take_model(old(self).slot()),
            r.1 == wake_after_take(r.0),
            r.0 == old(self).slot(),
            final(self).slot() is None,
            r.0 is Some ==> r.1 == Wake::SlotWaiters,
            r.0 is None ==> r.1 == Wake::Nobody,
    {
        let taken = self.inner.take();
        let wake = match taken {
            Some(_) => Wake::SlotWaiters,
            None => Wake::Nobody,
        };
        (taken, wake)
    }

    /// The message of the pending request, without taking it.
    pub fn peek_message(&self) -> (m: Option<String>)
        ensures
            text_of(m) == message_of(self.slot()),
            m is Some == self.slot() is Some,
            m matches Some(s) ==> s@ == self.slot()->0.message@,
    {
        match &self.inner {
            Some(r) => Some(r.message.clone()),
            None => None,
        }
    }

    /// One step of waiting for a request and taking it: takes the pending
    /// request if there is one, and otherwise says to wait for the next
    /// announcement and try again. Like `try_take`, it asks to wake those
    /// waiting for the slot to clear when it took a request.
    pub fn wait_and_take(&mut self) -> (r: (TakeStep, Wake))
        ensures
            (final(self).slot(), r.0.taken()) == take_model(old(self).slot()),
            r.1 == wake_after_take(r.0.taken()),
            r.0.taken() == old(self).slot(),
            final(self).slot() is None,
            r.0 is Taken ==> r.1 == Wake::SlotWaiters,
            r.0 is Wait ==> r.1 == Wake::Nobody,
    {
        let (taken, wake) = self.try_take();
        match taken {
            Some(req) => (TakeStep::Taken(req), wake),
            None => (TakeStep::Wait, wake),
        }
    }

    /// One step of the dispatcher: stores `request` if the slot is empty, and
    /// otherwise hands it back untouched, so that a pending request is never
    /// replaced before someone has taken it.
    pub fn offer(&mut self, request: HumanRequest) -> (step: OfferStep)
        ensures
            (final(self).slot(), step.handed_back()) == offer_model(old(self).slot(), request),
    {
        if self.inner.is_none() {
            self.inner = Some(request);
            OfferStep::Stored
        } else {
            OfferStep::Busy(request)
        }
    }
}

/// An operation on the slot, as the dispatcher and the takers perform them.
pub enum SlotOp {
    /// The dispatcher offers a request.
    Offer(HumanRequest),
    /// An interface takes whatever is pending.
    Take,
}

/// The request a slot holds, as a sequence of zero or one requests.
pub open spec fn slot_seq(slot: Option<HumanRequest>) -> Seq<HumanRequest> {
    match slot {
        Some(r) => seq![r],
        None => Seq::empty(),
    }
}

/// Runs `ops` in order from `slot`: the slot after them, the requests the
/// slot accepted (in order), and the requests taken from it (in order).
pub open spec fn run(slot: Option<HumanRequest>, ops: Seq<SlotOp>) -> (
    Option<HumanRequest>,
    Seq<HumanRequest>,
    Seq<HumanRequest>,
)
    decreases ops.len(),
{
    if ops.len() == 0 {
        (slot, Seq::empty(), Seq::empty())
    } else {
        let before = run(slot, ops.drop_last());
        match ops.last() {
            SlotOp::Offer(r) => {
                let (after, back) = offer_model(before.0, r);
                (after, if back is None { before.1.push(r) } else { before.1 }, before.2)
            },
            SlotOp::Take => {
                let (after, taken) = take_model(before.0);
                (
                    after,
                    before.1,
                    match taken {
                        Some(t) => before.2.push(t),
                        None => before.2,
                    },
                )
            },
        }
    }
}

/// A storing writes what a peek then reads: after `request` is stored, the
/// pending message is its message.
pub proof fn law_peek_after_store(slot: Option<HumanRequest>, request: HumanRequest)
    ensures
        message_of(store_model(slot, request)) == Some(request.message@),
{
}

/// A request offered to an empty slot is the one the next take returns.
pub proof fn law_take_after_offer(request: HumanRequest)
    ensures
        offer_model(None, request).1 is None,
        take_model(offer_model(None, request).0).1 == Some(request),
{
}

/// Whether every operation in `ops` is a take.
pub open spec fn only_takes(ops: Seq<SlotOp>) -> bool {
    forall|i: int| 0 <= i < ops.len() ==> #[trigger] ops[i] is Take
}

/// Any number of takers, of whatever kind (a web answer, a telnet
/// listener's step), racing for one pending request: taken one after another
/// through the slot, the first gets the request and every later one nothing.
/// After one take or more, the requests taken are exactly the one that was
/// pending, and the slot is empty; the slot accepts nothing meanwhile.
pub proof fn law_one_taker_wins(slot: Option<HumanRequest>, ops: Seq<SlotOp>)
    requires
        only_takes(ops),
        ops.len() > 0,
    ensures
        run(slot, ops).2 == slot_seq(slot),
        run(slot, ops).1 == Seq::<HumanRequest>::empty(),
        run(slot, ops).0 is None,
    decreases ops.len(),
{
    let before = run(slot, ops.drop_last());
    assert(ops.last() is Take);
    if ops.len() == 1 {
        assert(ops.drop_last().len() == 0);
        if let Some(r) = slot {
            assert(Seq::<HumanRequest>::empty().push(r) == seq![r]);
        }
    } else {
        assert(only_takes(ops.drop_last())) by {
            assert forall|i: int| 0 <= i < ops.drop_last().len() implies #[trigger] ops.drop_last()[i] is Take by {
                assert(ops.drop_last()[i] == ops[i]);
            }
        }
        law_one_taker_wins(slot, ops.drop_last());
    }
}

/// Taking any request asks to wake those waiting for the slot to clear,
/// whatever the request's message; finding nothing wakes no one.
pub proof fn law_take_wakes_slot_waiters(request: HumanRequest)
    ensures
        wake_after_take(Some(request)) == Wake::SlotWaiters,
        wake_after_take(None) == Wake::Nobody,
{
}

/// Taking gives exactly what was pending, whatever it is, and leaves the
/// slot empty; the wait-and-take step reports the same request.
pub proof fn law_take_returns_pending(slot: Option<HumanRequest>, request: HumanRequest)
    ensures
        take_model(slot).1 == slot,
        take_model(slot).0 is None,
        TakeStep::Taken(request).taken() == Some(request),
        TakeStep::Wait.taken() is None,
{
}

/// An offer into the empty slot stores exactly the offered request and hands
/// nothing back; an offer that is turned away hands back the offered request.
pub proof fn law_offer_into_empty(request: HumanRequest)
    ensures
        offer_model(None, request) == (Some(request), None::<HumanRequest>),
        OfferStep::Stored.handed_back() is None,
        OfferStep::Busy(request).handed_back() == Some(request),
        store_model(None, request) == Some(request),
{
}

/// What is shown of the slot is, character for character, the pending
/// request's message, whatever its length; an optional string's text is the
/// string's own characters.
pub proof fn law_shown_message_is_exact(request: HumanRequest, text: String)
    ensures
        message_of(Some(request)) == Some(request.message@),
        message_of(None) is None,
        text_of(Some(text)) == Some(text@),
        text_of(None) is None,
{
}

/// A request is taken at most once: a take right after a take finds nothing.
pub proof fn law_take_once(slot: Option<HumanRequest>)
    ensures
        take_model(take_model(slot).0).1 is None,
        take_model(take_model(slot).0).0 is None,
{
}

/// An offer never replaces a pending request: it stays, and the offered
/// request comes back unchanged.
pub proof fn law_offer_keeps_pending(pending: HumanRequest, request: HumanRequest)
    ensures
        offer_model(Some(pending), request) == (Some(pending), Some(request)),
{
}

/// Requests pass through the slot one at a time, in order, and none is lost
/// or doubled: starting from an empty slot, after any run of offers and
/// takes, the requests the slot accepted are exactly those taken, in the
/// order taken, followed by the one still pending.
pub proof fn law_requests_pass_in_order(ops: Seq<SlotOp>)
    ensures
        run(None, ops).1 == run(None, ops).2 + slot_seq(run(None, ops).0),
    decreases ops.len(),
{
    if ops.len() > 0 {
        law_requests_pass_in_order(ops.drop_last());
        let before = run(None, ops.drop_last());
        match ops.last() {
            SlotOp::Offer(r) => {
                if before.0 is None {
                    assert(before.2 + seq![r] == before.2.push(r));
                    assert(before.2 + slot_seq(before.0) == before.2);
                }
            },
            SlotOp::Take => {
                if let Some(t) = before.0 {
                    assert(before.2 + seq![t] == before.2.push(t));
                    assert(before.2.push(t) + slot_seq(None) == before.2.push(t));
                } else {
                    assert(before.2 + slot_seq(None) == before.2);
                }
            },
        }
    }
}

} // verus!
