//! What the frontend commands decide: parsing what the user hands in and
//! shaping what is shown back. The commands themselves (application state,
//! database and relay calls) run in the application.

pub mod autostart;
pub mod contacts;
pub mod identity;
pub mod messages;
pub mod notifications;
pub mod relay;
pub mod settings;
