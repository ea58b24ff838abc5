//! Whisper: end-to-end encrypted messaging core.
//!
//! The verified library holds the relay wire protocol, the relay client's
//! connection state machine, the offline message queue, the cryptographic
//! framing of messages and stored secrets, the storage record types and the
//! small decisions made by the frontend commands.

pub mod crypto;
pub mod relay;
pub mod storage;
pub mod commands;
pub mod system;
pub mod text;
pub mod codec;
pub mod bytes;
