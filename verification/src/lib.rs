//! Verified core of a small reactive chat-room bot.
//!
//! The library holds the stateful message-trigger engine: it classifies an
//! incoming text event, updates per-room counters and the reply-link cache,
//! renders a notification for repeated triggers, and drives the state machine
//! of a delayed, receipt-gated redaction watch. Network I/O, the chat SDK and
//! the async runtime live outside the library and only exchange plain values
//! with it.

pub mod digits;
pub mod engine;
pub mod patterns;
pub mod redaction;
pub mod render;
pub mod template;
pub mod window;
