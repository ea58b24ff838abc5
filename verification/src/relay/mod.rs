//! Relay protocol, client state machine and offline queue.

pub mod client;
pub mod protocol;
pub mod queue;
