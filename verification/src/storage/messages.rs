//! Message records.

use vstd::prelude::*;
use vstd::string::*;
use crate::text::joined;
use crate::codec::{hex_encode, hex_text};
use crate::relay::client::random_message_id;
use crate::text::text_eq;

verus! {

/// Message storage errors.
#[derive(Debug, Clone)]
pub enum MessageError {
    /// An error of the database, with its message.
    Database(String),
    NotFound,
}

impl MessageError {
    /// The outcome of a status update that touched `rows` rows: none means
    /// the message does not exist.
    pub fn from_rows_affected(rows: u64) -> (r: Result<(), MessageError>)
        ensures
            rows == 0 ==> (r matches Err(MessageError::NotFound)),
            rows != 0 ==> r is Ok,
    {
        if rows == 0 {
            Err(MessageError::NotFound)
        } else {
            Ok(())
        }
    }
}

/// Message delivery status.
#[derive(Debug, Clone, Copy, PartialEq, Eq, Structural)]
pub enum MessageStatus {
    Pending,
    Sent,
    Delivered,
    Read,
    Failed,
}

/// The text that stands for a status in storage.
pub open spec fn status_text(s: MessageStatus) -> Seq<char> {
    match s {
        MessageStatus::Pending => "pending"@,
        MessageStatus::Sent => "sent"@,
        MessageStatus::Delivered => "delivered"@,
        MessageStatus::Read => "read"@,
        MessageStatus::Failed => "failed"@,
    }
}

/// The status that a stored text stands for; anything unknown reads as
/// `Pending`.
pub open spec fn status_of(s: Seq<char>) -> MessageStatus {
    if s == "sent"@ {
        MessageStatus::Sent
    } else if s == "delivered"@ {
        MessageStatus::Delivered
    } else if s == "read"@ {
        MessageStatus::Read
    } else if s == "failed"@ {
        MessageStatus::Failed
    } else {
        MessageStatus::Pending
    }
}

impl MessageStatus {
    /// The stored text of this status.
    pub fn as_str(&self) -> (s: &'static str)
        ensures
            s@ == status_text(*self),
    {
        match self {
            MessageStatus::Pending => "pending",
            MessageStatus::Sent => "sent",
            MessageStatus::Delivered => "delivered",
            MessageStatus::Read => "read",
            MessageStatus::Failed => "failed",
        }
    }

    /// Read a status from its stored text.
    pub fn from_str(s: &str) -> (t: MessageStatus)
        ensures
            t == status_of(s@),
    {
        if text_eq(s, "sent") {
            MessageStatus::Sent
        } else if text_eq(s, "delivered") {
            MessageStatus::Delivered
        } else if text_eq(s, "read") {
            MessageStatus::Read
        } else if text_eq(s, "failed") {
            MessageStatus::Failed
        } else {
            MessageStatus::Pending
        }
    }
}

/// A status that is written and read back is the same status.
pub proof fn law_status_roundtrip(s: MessageStatus)
    ensures
        status_of(status_text(s)) == s,
{
    reveal_strlit("pending");
    reveal_strlit("sent");
    reveal_strlit("delivered");
    reveal_strlit("read");
    reveal_strlit("failed");
    assert("pending"@.len() == 7);
    assert("sent"@.len() == 4);
    assert("delivered"@.len() == 9);
    assert("read"@.len() == 4);
    assert("failed"@.len() == 6);
    assert("sent"@ != "read"@) by {
        assert("sent"@[0] != "read"@[0]);
    }
}

/// Message direction.
#[derive(Debug, Clone, Copy, PartialEq, Eq, Structural)]
pub enum MessageDirection {
    Incoming,
    Outgoing,
}

/// The text that stands for a direction in storage.
pub open spec fn direction_text(d: MessageDirection) -> Seq<char> {
    match d {
        MessageDirection::Incoming => "incoming"@,
        MessageDirection::Outgoing => "outgoing"@,
    }
}

/// The direction that a stored text stands for; anything unknown reads as
/// `Incoming`.
pub open spec fn direction_of(s: Seq<char>) -> MessageDirection {
    if s == "outgoing"@ {
        MessageDirection::Outgoing
    } else {
        MessageDirection::Incoming
    }
}

impl MessageDirection {
    /// The stored text of this direction.
    pub fn as_str(&self) -> (s: &'static str)
        ensures
            s@ == direction_text(*self),
    {
        match self {
            MessageDirection::Incoming => "incoming",
            MessageDirection::Outgoing => "outgoing",
        }
    }

    /// Read a direction from its stored text.
    pub fn from_str(s: &str) -> (d: MessageDirection)
        ensures
            d == direction_of(s@),
    {
        if text_eq(s, "outgoing") {
            MessageDirection::Outgoing
        } else {
            MessageDirection::Incoming
        }
    }
}

/// A direction that is written and read back is the same direction.
pub proof fn law_direction_roundtrip(d: MessageDirection)
    ensures
        direction_of(direction_text(d)) == d,
{
    reveal_strlit("incoming");
    reveal_strlit("outgoing");
    assert("incoming"@[0] != "outgoing"@[0]);
}

/// A stored message.
#[derive(Debug, Clone)]
pub struct Message {
    pub id: String,
    pub peer_id: String,
    /// Encrypted content
    pub content: Vec<u8>,
    pub timestamp: i64,
    pub status: MessageStatus,
    pub direction: MessageDirection,
}

/// Conversation summary.
#[derive(Debug, Clone)]
pub struct Conversation {
    pub peer_id: String,
    pub last_message: Option<Vec<u8>>,
    pub last_message_at: Option<i64>,
    pub unread_count: i64,
}

/// The id text of a message: the lowercase hex of its 16 id bytes.
pub fn message_id_text(id: &[u8; 16]) -> (text: String)
    ensures
        text@ == hex_text(id@),
{
    hex_encode(id)
}

/// A fresh message id: the hex text of 16 random bytes.
pub fn new_message_id() -> (text: String)
    ensures
        exists|b: Seq<u8>| #![trigger hex_text(b)] b.len() == 16 && text@ == hex_text(b),
{
    let id = random_message_id();
    let text = message_id_text(&id);
    assert(id@.len() == 16);
    text
}

/// The message a message-storage error is shown with.
pub open spec fn message_error_text(e: MessageError) -> Seq<char> {
    match e {
        MessageError::Database(m) => "Database error: "@ + m@,
        MessageError::NotFound => "Message not found"@,
    }
}

impl MessageError {
    /// The message this error is shown with.
    pub fn text(&self) -> (t: String)
        ensures
            t@ == message_error_text(*self),
    {
        match self {
            MessageError::Database(m) => joined("Database error: ", m.as_str()),
            MessageError::NotFound => String::from_str("Message not found"),
        }
    }
}

} // verus!
