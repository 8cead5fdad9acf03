//! The decision logic of a bridge that hands an agent's questions to a human
//! operator and returns the operator's answer: the one-request slot that the
//! operator interfaces share, the framing and trimming of the telnet dialogue,
//! the web interface's replies and the outcome of an `ask_human` call.
pub mod channel;
pub mod mcp;
pub mod pending;
pub mod request;
pub mod telnet;
pub mod text;
pub mod web;

pub use mcp::{AskHumanParams, AskOutcome, ToolReply};
pub use pending::{OfferStep, PendingState, TakeStep, Wake};
pub use request::HumanRequest;
pub use web::RespondBody;
