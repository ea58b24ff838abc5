//! System tray: the unread count shown on the badge and in the window title.

use vstd::prelude::*;
use vstd::string::*;
use crate::text::{decimal_text, i64_to_decimal};

verus! {

/// The unread count shown on the badge.
pub struct UnreadBadge {
    count: i64,
}

/// The window title for an unread count.
pub open spec fn badge_title(count: i64) -> Seq<char> {
    if count > 0 {
        "Whisper ("@ + decimal_text(count as int) + ")"@
    } else {
        "Whisper"@
    }
}

impl UnreadBadge {
    /// The count the badge holds.
    pub closed spec fn count(&self) -> i64 {
        self.count
    }

    /// A badge with no unread messages.
    pub fn new() -> (b: Self)
        ensures
            b.count() == 0,
    {
        UnreadBadge { count: 0 }
    }

    /// Update the unread badge count.
    pub fn update_badge(&mut self, count: i64)
        ensures
            final(self).count() == count,
    {
        self.count = count;
    }

    /// Get the current unread count.
    pub fn get_badge_count(&self) -> (c: i64)
        ensures
            c == self.count(),
    {
        self.count
    }

    /// The main window's title: `Whisper (<count>)` while there are unread
    /// messages, else `Whisper`.
    pub fn window_title(&self) -> (title: String)
        ensures
            title@ == badge_title(self.count()),
    {
        if self.count > 0 {
            let mut title = String::from_str("Whisper (");
            let digits = i64_to_decimal(self.count);
            title.append(digits.as_str());
            title.append(")");
            title
        } else {
            String::from_str("Whisper")
        }
    }
}

/// The window title shows the count, in decimal between `Whisper (` and `)`,
/// for every count above zero, and is `Whisper` alone for zero or less.
pub proof fn law_window_title_shows_every_positive_count(count: i64)
    ensures
        count > 0 ==> badge_title(count) == "Whisper ("@ + decimal_text(count as int) + ")"@,
        count <= 0 ==> badge_title(count) == "Whisper"@,
{
}

} // verus!
