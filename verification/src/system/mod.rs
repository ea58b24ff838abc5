//! System integration: notification text and the unread badge.

pub mod notifications;
pub mod tray;
