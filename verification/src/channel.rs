use vstd::prelude::*;

use tokio::sync::oneshot::{Receiver, Sender};

verus! {

/// The sending half of a one-shot channel; a value of it is only carried.
#[verifier::external_type_specification]
#[verifier::external_body]
#[verifier::reject_recursive_types(T)]
pub struct ExOneshotSender<T>(tokio::sync::oneshot::Sender<T>);

/// The receiving half of a one-shot channel; a value of it is only carried.
#[verifier::external_type_specification]
#[verifier::external_body]
#[verifier::reject_recursive_types(T)]
pub struct ExOneshotReceiver<T>(tokio::sync::oneshot::Receiver<T>);

/// The error that awaiting the receiving half yields when the sending half
/// was dropped without sending.
#[verifier::external_type_specification]
#[verifier::external_body]
pub struct ExOneshotRecvError(tokio::sync::oneshot::error::RecvError);

/// The half of an answer channel that the human's side sends on.
pub struct AnswerSender {
    tx: Sender<String>,
    channel: Ghost<int>,
}

/// The half of an answer channel on which the asking agent waits.
pub struct AnswerReceiver {
    rx: Receiver<String>,
    channel: Ghost<int>,
}

/// The record of one answer handed to a channel: which channel, and which
/// text. Only handing an answer over makes one.
pub struct Delivery {
    channel: Ghost<int>,
    text: Ghost<Seq<char>>,
}

impl AnswerSender {
    /// The channel this half belongs to.
    pub closed spec fn channel(&self) -> int {
        self.channel@
    }
}

impl AnswerReceiver {
    /// The channel this half belongs to.
    pub closed spec fn channel(&self) -> int {
        self.channel@
    }

    /// The receiving half itself, to be awaited.
    pub fn into_inner(self) -> Receiver<String> {
        self.rx
    }
}

impl Delivery {
    /// The channel the answer was handed to.
    pub closed spec fn channel(&self) -> int {
        self.channel@
    }

    /// The answer that was handed over.
    pub closed spec fn text(&self) -> Seq<char> {
        self.text@
    }
}

/// Calls `tokio::sync::oneshot::channel`, which makes one channel and
/// returns its two halves. Claimed: the two halves belong to the same channel.
#[verifier::external_body]
pub fn answer_channel() -> (r: (AnswerSender, AnswerReceiver))
    ensures
        r.0.channel() == r.1.channel(),
{
    let (tx, rx) = tokio::sync::oneshot::channel();
    (AnswerSender { tx, channel: Ghost(0) }, AnswerReceiver { rx, channel: Ghost(0) })
}

/// Calls `tokio::sync::oneshot::Sender::send`, which puts `value` into the
/// sender's channel. Claimed: the value handed over is `value`, on the
/// sender's channel; when the receiving half is already gone, the same value
/// comes back in `Err`. Whether the send succeeds depends on the other task
/// and is not stated.
#[verifier::external_body]
pub fn send_answer(sender: AnswerSender, value: String) -> (r: (Result<(), String>, Delivery))
    ensures
        r.0 matches Err(back) ==> back@ == value@,
        r.1.channel() == sender.channel(),
        r.1.text() == value@,
{
    let delivery = Delivery { channel: sender.channel, text: Ghost(value@) };
    (sender.tx.send(value), delivery)
}

} // verus!
