//! Relay of a single prompt to one of several interchangeable answer backends.
//!
//! The crate holds the decisions of the relay: which transport strategy serves
//! a prompt, what is handed to it, how its outcome is classified, and how an
//! answer is recovered from a streamed event envelope. Running a child process
//! or a network request is left to the caller, who reports the outcome back.

pub mod api;
pub mod bridge;
pub mod config;
pub mod dispatch;
pub mod json;
pub mod number;
pub mod relay;
pub mod sse;
pub mod text;

pub use api::{AskRequest, AskResponse, ErrorResponse, Reply, ReplyBody};
pub use bridge::{BridgeConfig, BridgeError, BridgeKind, Invocation, ProcessOutcome};
pub use config::{AppConfig, AppState, RawSettings};
pub use dispatch::{begin, finish_run, finish_send, Step, Strategy, Work};
pub use relay::{HttpOutcome, RelayError, RelayRequest, ResponseBody};
pub use sse::{extract_text_part, parse_sse_answer};
