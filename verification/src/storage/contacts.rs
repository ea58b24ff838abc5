//! Contact records.

use vstd::prelude::*;
use vstd::string::*;
use crate::text::joined;
use crate::text::text_eq;

verus! {

/// Contact storage errors.
#[derive(Debug, Clone)]
pub enum ContactError {
    /// An error of the database, with its message.
    Database(String),
    NotFound,
    AlreadyExists,
}

impl ContactError {
    /// The outcome of an update or delete that touched `rows` rows: none
    /// means the contact does not exist.
    pub fn from_rows_affected(rows: u64) -> (r: Result<(), ContactError>)
        ensures
            rows == 0 ==> (r matches Err(ContactError::NotFound)),
            rows != 0 ==> r is Ok,
    {
        if rows == 0 {
            Err(ContactError::NotFound)
        } else {
            Ok(())
        }
    }
}

/// Trust level for a contact.
#[derive(Debug, Clone, Copy, PartialEq, Eq, Structural)]
pub enum TrustLevel {
    Unknown,
    Unverified,
    Verified,
}

/// The text that stands for a trust level in storage.
pub open spec fn trust_level_text(t: TrustLevel) -> Seq<char> {
    match t {
        TrustLevel::Unknown => "unknown"@,
        TrustLevel::Unverified => "unverified"@,
        TrustLevel::Verified => "verified"@,
    }
}

/// The trust level that a stored text stands for; anything unknown reads as
/// `Unknown`.
pub open spec fn trust_level_of(s: Seq<char>) -> TrustLevel {
    if s == "verified"@ {
        TrustLevel::Verified
    } else if s == "unverified"@ {
        TrustLevel::Unverified
    } else {
        TrustLevel::Unknown
    }
}

impl TrustLevel {
    /// The stored text of this trust level.
    pub fn as_str(&self) -> (s: &'static str)
        ensures
            s@ == trust_level_text(*self),
    {
        match self {
            TrustLevel::Unknown => "unknown",
            TrustLevel::Unverified => "unverified",
            TrustLevel::Verified => "verified",
        }
    }

    /// Read a trust level from its stored text.
    pub fn from_str(s: &str) -> (t: TrustLevel)
        ensures
            t == trust_level_of(s@),
    {
        if text_eq(s, "verified") {
            TrustLevel::Verified
        } else if text_eq(s, "unverified") {
            TrustLevel::Unverified
        } else {
            TrustLevel::Unknown
        }
    }
}

/// A trust level that is written and read back is the same trust level.
pub proof fn law_trust_level_roundtrip(t: TrustLevel)
    ensures
        trust_level_of(trust_level_text(t)) == t,
{
    reveal_strlit("unknown");
    reveal_strlit("unverified");
    reveal_strlit("verified");
    assert("unknown"@.len() == 7);
    assert("unverified"@.len() == 10);
    assert("verified"@.len() == 8);
    assert("unknown"@ != "verified"@);
    assert("unknown"@ != "unverified"@);
    assert("unverified"@ != "verified"@);
}

/// A contact entry.
#[derive(Debug, Clone)]
pub struct Contact {
    pub peer_id: String,
    pub alias: String,
    pub public_key: Vec<u8>,
    pub trust_level: TrustLevel,
    pub created_at: i64,
    pub updated_at: i64,
}

/// The message a contact error is shown with.
pub open spec fn contact_error_text(e: ContactError) -> Seq<char> {
    match e {
        ContactError::Database(m) => "Database error: "@ + m@,
        ContactError::NotFound => "Contact not found"@,
        ContactError::AlreadyExists => "Contact already exists"@,
    }
}

impl ContactError {
    /// The message this error is shown with.
    pub fn text(&self) -> (t: String)
        ensures
            t@ == contact_error_text(*self),
    {
        match self {
            ContactError::Database(m) => joined("Database error: ", m.as_str()),
            ContactError::NotFound => String::from_str("Contact not found"),
            ContactError::AlreadyExists => String::from_str("Contact already exists"),
        }
    }
}

} // verus!
