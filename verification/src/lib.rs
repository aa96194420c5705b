//! A chat relay's core: the turns of a conversation, the append-only history
//! that holds them, the wire format of the completion service, the protocol of
//! one chat exchange, and the summary of a history.
//!
//! Everything here is a function of plain values. Locks, sockets and the chat
//! platform belong to the program around this library.

pub mod message;
pub mod history;
pub mod chat;
pub mod summary;
pub mod json;
pub mod request;
pub mod response;
pub mod say;
