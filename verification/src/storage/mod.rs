//! Storage records: identity, messages, contacts and settings.
//!
//! The database itself is driven by the application; the library holds the
//! records, how their fields are written to and read from text columns, and
//! the sealing of the identity's secret key under a passphrase.

pub mod database;
pub mod identity;
pub mod messages;
pub mod contacts;
pub mod settings;
