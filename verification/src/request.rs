use vstd::prelude::*;

use crate::channel::{answer_channel, send_answer, AnswerReceiver, AnswerSender, Delivery};

verus! {

/// A request from the agent to the human: the text to show, and the channel
/// on which the human's answer goes back to the agent that asked.
pub struct HumanRequest {
    pub message: String,
    pub response_tx: AnswerSender,
}

impl HumanRequest {
    /// Makes a request that shows `message`, together with the receiving
    /// half, of the request's own answer channel, on which the asker waits.
    pub fn open(message: String) -> (r: (HumanRequest, AnswerReceiver))
        ensures
            r.0.message@ == message@,
            r.0.response_tx.channel() == r.1.channel(),
    {
        let (tx, rx) = answer_channel();
        (HumanRequest { message, response_tx: tx }, rx)
    }

    /// Hands `answer`, unchanged, to the channel of the agent that asked. `Ok`
    /// when the agent was still waiting; otherwise the answer comes back
    /// unchanged in `Err`. The record says where the answer went.
    pub fn respond(self, answer: String) -> (sent: (Result<(), String>, Delivery))
        ensures
            sent.0 matches Err(back) ==> back@ == answer@,
            sent.1.channel() == self.response_tx.channel(),
            sent.1.text() == answer@,
    {
        send_answer(self.response_tx, answer)
    }
}

} // verus!
