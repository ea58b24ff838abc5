//! Application settings.

use vstd::prelude::*;
use vstd::string::*;
use crate::text::joined;

verus! {

/// Settings storage errors.
#[derive(Debug, Clone)]
pub enum SettingsError {
    /// An error of the database, with its message.
    Database(String),
    /// A stored value that is not valid settings JSON, with the message.
    Serialization(String),
}

/// App settings
#[derive(Debug, Clone)]
pub struct Settings {
    /// Theme: "light", "dark", or "system"
    pub theme: String,
    /// Show notifications
    pub notifications: bool,
    /// Notification sound
    pub sound: bool,
    /// Start on login
    pub autostart: bool,
    /// Minimize to tray on close
    pub minimize_to_tray: bool,
    /// Relay URL
    pub relay_url: String,
}

impl Default for Settings {
    fn default() -> (s: Self)
        ensures
            s.theme@ == "system"@,
            s.notifications,
            s.sound,
            !s.autostart,
            s.minimize_to_tray,
            s.relay_url@ == "wss://relay.whisper.dev"@,
    {
        Settings {
            theme: "system".to_owned(),
            notifications: true,
            sound: true,
            autostart: false,
            minimize_to_tray: true,
            relay_url: "wss://relay.whisper.dev".to_owned(),
        }
    }
}

/// The message a settings error is shown with.
pub open spec fn settings_error_text(e: SettingsError) -> Seq<char> {
    match e {
        SettingsError::Database(m) => "Database error: "@ + m@,
        SettingsError::Serialization(m) => "Serialization error: "@ + m@,
    }
}

impl SettingsError {
    /// The message this error is shown with.
    pub fn text(&self) -> (t: String)
        ensures
            t@ == settings_error_text(*self),
    {
        match self {
            SettingsError::Database(m) => joined("Database error: ", m.as_str()),
            SettingsError::Serialization(m) => joined("Serialization error: ", m.as_str()),
        }
    }
}

} // verus!
