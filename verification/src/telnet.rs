use vstd::prelude::*;

use crate::text::{is_trim_of, trim};

verus! {

/// The text sent to a human when the telnet connection opens.
pub open spec fn greeting_text() -> Seq<char> {
    "=== slave-mcp: connected ===\r\nWaiting for agent requests...\r\n\r\n"@
}

/// The text that comes before a request's message on the terminal.
pub open spec fn frame_head() -> Seq<char> {
    "--- Agent Request ---\r\n"@
}

/// The text that comes after a request's message: a rule and a prompt.
pub open spec fn frame_tail() -> Seq<char> {
    "\r\n---------------------\r\n> "@
}

/// The text sent once the human's answer has been read.
pub open spec fn answer_echo_text() -> Seq<char> {
    "\r\n"@
}

/// What reading one line from the human's connection gave.
pub enum LineRead {
    /// `bytes` bytes were read, making up `line`; none at the end of the stream.
    Read { bytes: usize, line: String },
    /// The read failed.
    Failed,
}

/// What to do with the pending request once a line has been read.
pub enum LineDecision {
    /// Send the echo, then hand this answer to the agent, and wait for the
    /// next request on the same connection.
    Answer(String),
    /// The human is gone: drop the request, so that the agent learns that no
    /// answer will come, and wait for a new connection.
    Hangup,
}

/// The greeting for a new telnet connection.
pub fn greeting() -> (g: String)
    ensures
        g@ == greeting_text(),
{
    String::from_str("=== slave-mcp: connected ===\r\nWaiting for agent requests...\r\n\r\n")
}

/// How a request's message is shown to the human: a header, the message,
/// then a rule and a prompt.
pub fn request_frame(message: &str) -> (f: String)
    ensures
        f@ == frame_head() + message@ + frame_tail(),
{
    let head = String::from_str("--- Agent Request ---\r\n");
    let with_message = head.concat(message);
    with_message.concat("\r\n---------------------\r\n> ")
}

/// The line break written after the human's answer.
pub fn answer_echo() -> (e: String)
    ensures
        e@ == answer_echo_text(),
{
    String::from_str("\r\n")
}

/// Decides what a read line means: the end of the stream or a failed read
/// ends the conversation; any other line is the human's answer, without the
/// white space at its ends.
pub fn decide_line(read: LineRead) -> (d: LineDecision)
    ensures
        match read {
            LineRead::Read { bytes, line } => if bytes == 0 {
                d is Hangup
            } else {
                d matches LineDecision::Answer(a) && is_trim_of(a@, line@)
            },
            LineRead::Failed => d is Hangup,
        },
{
    match read {
        LineRead::Read { bytes, line } => {
            if bytes == 0 {
                LineDecision::Hangup
            } else {
                LineDecision::Answer(trim(line.as_str()))
            }
        },
        LineRead::Failed => LineDecision::Hangup,
    }
}

} // verus!
