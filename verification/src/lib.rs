//! Verified core of a live chat moderation console.
//!
//! The crate models the engine of the console: normalized protocol events,
//! the annotated event history, the single-consumer reconciliation state,
//! the worker supervisor decisions, and the moderation command builders.
//! All I/O (the chat connection, the platform API, the window) lives with
//! the caller; the engine exchanges plain values with it.

pub mod chat;
pub mod dispatcher;
pub mod engine;
pub mod events;
pub mod history;
pub mod laws;
pub mod log;
pub mod search;
pub mod tabs;
pub mod text;
