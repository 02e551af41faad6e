//! A state-storage adapter for a conversational bot's finite-state machine.
//!
//! Each chat session is identified by a signed 64-bit `chat_id` and mapped to
//! the name of its current conversational state, plus an opaque metadata map,
//! in a remote key-value table. The adapter exposes three operations —
//! read the current state, overwrite it, and delete the record — by building
//! plain-value request descriptions and interpreting plain-value responses.
//! The transport layer that actually sends the requests lives outside this
//! crate and hands every response back as plain values.

pub mod decimal;
pub mod error;
pub mod laws;
pub mod store;
