//! Command dispatch and playback-session orchestration for a chat music bot.
//!
//! The pipeline: a chat message is parsed into a typed [`parser::Command`]
//! (or an immediate usage reply), handed through a bounded FIFO
//! [`queue::CommandQueue`], executed against the music catalog
//! ([`catalog`]) and the per-guild playback state machine
//! ([`session::SessionManager`]), and answered with exactly one reply
//! ([`executor`]). All network and gateway I/O lives outside this crate;
//! the functions here are pure decisions over plain values.

pub mod catalog;
pub mod display;
pub mod error;
pub mod executor;
pub mod parser;
pub mod queue;
pub mod session;
pub mod structs;
pub mod text;
