use vstd::prelude::*;

verus! {

/// How long an `ask_human` call waits for the human's answer, in seconds
/// (five minutes).
pub const RESPONSE_TIMEOUT_SECS: u64 = 300;

/// The arguments of the `ask_human` tool.
pub struct AskHumanParams {
    /// The message or question to send to the human.
    pub message: String,
}

/// How an `ask_human` call ended.
pub enum AskOutcome {
    /// The request could not be handed over: nothing is listening for requests.
    NoListener,
    /// The human answered with this text.
    Answered(String),
    /// The request was dropped without an answer: the human went away.
    Disconnected,
    /// No answer came within `RESPONSE_TIMEOUT_SECS` seconds.
    TimedOut,
}

/// The result of a tool call: its one text content, and whether the call
/// is reported as an error.
pub struct ToolReply {
    pub is_error: bool,
    pub text: String,
}

/// The text of the reply when no listener takes the request.
pub open spec fn no_listener_text() -> Seq<char> {
    "No listener is running. Cannot reach human."@
}

/// The text of the reply when the human left without answering.
pub open spec fn disconnected_text() -> Seq<char> {
    "Human disconnected before providing a response."@
}

/// The text of the reply when the wait ran out.
pub open spec fn timed_out_text() -> Seq<char> {
    "Timed out waiting for human response (5 minute limit)."@
}

/// The instructions the server gives to the agents that connect.
pub open spec fn instructions_text() -> Seq<char> {
    "This server routes your requests to a human operator via telnet or web browser. Use the ask_human tool to ask questions or get help."@
}

/// The reply that an `ask_human` call gives for each way it can end: the
/// human's answer, verbatim, as a success; otherwise an error that says why
/// no answer came.
pub fn tool_reply(outcome: AskOutcome) -> (r: ToolReply)
    ensures
        match outcome {
            AskOutcome::Answered(answer) => !r.is_error && r.text@ == answer@,
            AskOutcome::NoListener => r.is_error && r.text@ == no_listener_text(),
            AskOutcome::Disconnected => r.is_error && r.text@ == disconnected_text(),
            AskOutcome::TimedOut => r.is_error && r.text@ == timed_out_text(),
        },
{
    match outcome {
        AskOutcome::Answered(answer) => ToolReply { is_error: false, text: answer },
        AskOutcome::NoListener => ToolReply {
            is_error: true,
            text: String::from_str("No listener is running. Cannot reach human."),
        },
        AskOutcome::Disconnected => ToolReply {
            is_error: true,
            text: String::from_str("Human disconnected before providing a response."),
        },
        AskOutcome::TimedOut => ToolReply {
            is_error: true,
            text: String::from_str("Timed out waiting for human response (5 minute limit)."),
        },
    }
}

/// The instructions the server gives to the agents that connect.
pub fn server_instructions() -> (s: String)
    ensures
        s@ == instructions_text(),
{
    String::from_str(
        "This server routes your requests to a human operator via telnet or web browser. Use the ask_human tool to ask questions or get help.",
    )
}

} // verus!
