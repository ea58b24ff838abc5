//! Database errors.

use vstd::prelude::*;
use vstd::string::*;
use crate::text::joined;

verus! {

/// Database errors.
#[derive(Debug, Clone)]
pub enum DatabaseError {
    /// An error of the SQL driver, with its message.
    Sqlx(String),
    Migration(String),
    NotInitialized,
}

/// The message a database error is shown with.
pub open spec fn database_error_text(e: DatabaseError) -> Seq<char> {
    match e {
        DatabaseError::Sqlx(m) => "Database error: "@ + m@,
        DatabaseError::Migration(m) => "Migration error: "@ + m@,
        DatabaseError::NotInitialized => "Database not initialized"@,
    }
}

impl DatabaseError {
    /// The message this error is shown with.
    pub fn text(&self) -> (t: String)
        ensures
            t@ == database_error_text(*self),
    {
        match self {
            DatabaseError::Sqlx(m) => joined("Database error: ", m.as_str()),
            DatabaseError::Migration(m) => joined("Migration error: ", m.as_str()),
            DatabaseError::NotInitialized => String::from_str("Database not initialized"),
        }
    }
}

} // verus!
