//! A client for aria2's JSON-RPC interface over a WebSocket.
//!
//! The library decides and computes: which requests there are and how they read on the wire,
//! which waiting call a response is for, what a result amounts to. It does no input or output
//! of its own; whoever runs it moves the messages and does the waiting.

pub mod call_laws;
pub mod client;
pub mod decode;
pub mod id_map;
pub mod json;
pub mod laws;
pub mod method;
pub mod reader;
pub mod record_laws;
pub mod records;
pub mod request;
pub mod response;
pub mod text;
pub mod text_laws;
pub mod value_laws;

pub use client::{
    awaited_id, call_sent, CallStep, Client, Incoming, ReadAction, ReadFailure, WaitOutcome,
    CALL_TIMEOUT_SECS,
};
pub use decode::DecodeError;
pub use json::JsonValue;
pub use method::Method;
pub use records::{GlobalStat, Status, Version};
pub use request::{new_params, RequestObject};
pub use response::{unwrap_result_for_string, CallError, ErrorObject, ResponseObject};
