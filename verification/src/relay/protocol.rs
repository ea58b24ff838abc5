//! Relay protocol messages, in the binary format that the relay server speaks.
//!
//! A frame is one type byte followed by the fields of the message. Multi-byte
//! integers are big-endian.

use vstd::prelude::*;
use vstd::string::*;
use crate::text::{decimal_text, i64_to_decimal, joined};
use crate::bytes::{append_bytes, copy_array};

verus! {

// ---------------------------------------------------------------------------
// Message types
// ---------------------------------------------------------------------------

/// Message type of a frame, carried in its first byte.
#[derive(Debug, Clone, Copy, PartialEq, Eq, Structural)]
pub enum MessageType {
    AuthChallenge,
    AuthResponse,
    AuthSuccess,
    AuthFailure,
    Send,
    Receive,
    Ack,
    SendAck,
    FetchPending,
    PendingCount,
    Error,
    Ping,
    Pong,
}

/// The byte that stands for a message type on the wire.
pub open spec fn message_type_byte(t: MessageType) -> u8 {
    match t {
        MessageType::AuthChallenge => 0x01,
        MessageType::AuthResponse => 0x02,
        MessageType::AuthSuccess => 0x03,
        MessageType::AuthFailure => 0x04,
        MessageType::Send => 0x10,
        MessageType::Receive => 0x11,
        MessageType::Ack => 0x12,
        MessageType::SendAck => 0x13,
        MessageType::FetchPending => 0x20,
        MessageType::PendingCount => 0x21,
        MessageType::Error => 0xF0,
        MessageType::Ping => 0xFE,
        MessageType::Pong => 0xFF,
    }
}

/// The message type that a byte stands for, if any.
pub open spec fn message_type_of(b: u8) -> Option<MessageType> {
    if b == 0x01 {
        Some(MessageType::AuthChallenge)
    } else if b == 0x02 {
        Some(MessageType::AuthResponse)
    } else if b == 0x03 {
        Some(MessageType::AuthSuccess)
    } else if b == 0x04 {
        Some(MessageType::AuthFailure)
    } else if b == 0x10 {
        Some(MessageType::Send)
    } else if b == 0x11 {
        Some(MessageType::Receive)
    } else if b == 0x12 {
        Some(MessageType::Ack)
    } else if b == 0x13 {
        Some(MessageType::SendAck)
    } else if b == 0x20 {
        Some(MessageType::FetchPending)
    } else if b == 0x21 {
        Some(MessageType::PendingCount)
    } else if b == 0xF0 {
        Some(MessageType::Error)
    } else if b == 0xFE {
        Some(MessageType::Ping)
    } else if b == 0xFF {
        Some(MessageType::Pong)
    } else {
        None
    }
}

impl MessageType {
    /// The wire byte of this message type.
    pub fn as_u8(&self) -> (b: u8)
        ensures
            b == message_type_byte(*self),
    {
        match self {
            MessageType::AuthChallenge => 0x01,
            MessageType::AuthResponse => 0x02,
            MessageType::AuthSuccess => 0x03,
            MessageType::AuthFailure => 0x04,
            MessageType::Send => 0x10,
            MessageType::Receive => 0x11,
            MessageType::Ack => 0x12,
            MessageType::SendAck => 0x13,
            MessageType::FetchPending => 0x20,
            MessageType::PendingCount => 0x21,
            MessageType::Error => 0xF0,
            MessageType::Ping => 0xFE,
            MessageType::Pong => 0xFF,
        }
    }

    /// Parse a message type byte.
    pub fn try_from(value: u8) -> (r: Result<MessageType, ProtocolError>)
        ensures
            r == (match message_type_of(value) {
                Some(t) => Ok(t),
                None => Err(ProtocolError::InvalidMessageType(value)),
            }),
    {
        match value {
            0x01 => Ok(MessageType::AuthChallenge),
            0x02 => Ok(MessageType::AuthResponse),
            0x03 => Ok(MessageType::AuthSuccess),
            0x04 => Ok(MessageType::AuthFailure),
            0x10 => Ok(MessageType::Send),
            0x11 => Ok(MessageType::Receive),
            0x12 => Ok(MessageType::Ack),
            0x13 => Ok(MessageType::SendAck),
            0x20 => Ok(MessageType::FetchPending),
            0x21 => Ok(MessageType::PendingCount),
            0xF0 => Ok(MessageType::Error),
            0xFE => Ok(MessageType::Ping),
            0xFF => Ok(MessageType::Pong),
            _ => Err(ProtocolError::InvalidMessageType(value)),
        }
    }
}

/// Every message type is read back from its own byte, and a byte that reads
/// as a message type is that type's byte.
pub proof fn law_message_type_byte_roundtrip(t: MessageType, b: u8)
    ensures
        message_type_of(message_type_byte(t)) == Some(t),
        message_type_of(b) == Some(t) ==> message_type_byte(t) == b,
{
}

// ---------------------------------------------------------------------------
// Send status
// ---------------------------------------------------------------------------

/// Delivery status that the relay reports for a sent message.
#[derive(Debug, Clone, Copy, PartialEq, Eq, Structural)]
pub enum SendStatus {
    Queued,
    Delivered,
    Rejected,
}

/// The byte that stands for a send status on the wire.
pub open spec fn send_status_byte(s: SendStatus) -> u8 {
    match s {
        SendStatus::Queued => 0x00,
        SendStatus::Delivered => 0x01,
        SendStatus::Rejected => 0x02,
    }
}

/// The send status that a byte stands for, if any.
pub open spec fn send_status_of(b: u8) -> Option<SendStatus> {
    if b == 0x00 {
        Some(SendStatus::Queued)
    } else if b == 0x01 {
        Some(SendStatus::Delivered)
    } else if b == 0x02 {
        Some(SendStatus::Rejected)
    } else {
        None
    }
}

impl SendStatus {
    /// The wire byte of this status.
    pub fn as_u8(&self) -> (b: u8)
        ensures
            b == send_status_byte(*self),
    {
        match self {
            SendStatus::Queued => 0x00,
            SendStatus::Delivered => 0x01,
            SendStatus::Rejected => 0x02,
        }
    }

    /// Parse a send status byte.
    pub fn try_from(value: u8) -> (r: Result<SendStatus, ProtocolError>)
        ensures
            r == (match send_status_of(value) {
                Some(s) => Ok(s),
                None => Err(ProtocolError::InvalidStatus(value)),
            }),
    {
        match value {
            0x00 => Ok(SendStatus::Queued),
            0x01 => Ok(SendStatus::Delivered),
            0x02 => Ok(SendStatus::Rejected),
            _ => Err(ProtocolError::InvalidStatus(value)),
        }
    }
}

/// Every send status is read back from its own byte, and a byte that reads as
/// a status is that status's byte.
pub proof fn law_send_status_byte_roundtrip(s: SendStatus, b: u8)
    ensures
        send_status_of(send_status_byte(s)) == Some(s),
        send_status_of(b) == Some(s) ==> send_status_byte(s) == b,
{
}

// ---------------------------------------------------------------------------
// Errors
// ---------------------------------------------------------------------------

/// Protocol errors.
#[derive(Debug, Clone, Copy, PartialEq, Eq, Structural)]
pub enum ProtocolError {
    EmptyMessage,
    InvalidMessageType(u8),
    InvalidStatus(u8),
    InvalidLength,
    UnexpectedMessage(u8),
}

// ---------------------------------------------------------------------------
// Messages
// ---------------------------------------------------------------------------

/// Protocol messages.
#[derive(Debug, Clone)]
pub enum RelayMessage {
    AuthChallenge { nonce: [u8; 32] },
    AuthResponse { peer_id: [u8; 32], signature: [u8; 64] },
    AuthSuccess,
    AuthFailure { reason: String },
    Send { recipient: [u8; 32], message_id: [u8; 16], payload: Vec<u8> },
    Receive { sender: [u8; 32], message_id: [u8; 16], timestamp: u64, payload: Vec<u8> },
    Ack { message_id: [u8; 16] },
    SendAck { message_id: [u8; 16], status: SendStatus },
    FetchPending,
    PendingCount { count: u32 },
    Error { code: u8, message: String },
    Ping,
    Pong,
}

/// A protocol message as a mathematical value: byte arrays as sequences,
/// strings as sequences of characters.
pub enum MessageView {
    AuthChallenge { nonce: Seq<u8> },
    AuthResponse { peer_id: Seq<u8>, signature: Seq<u8> },
    AuthSuccess,
    AuthFailure { reason: Seq<char> },
    Send { recipient: Seq<u8>, message_id: Seq<u8>, payload: Seq<u8> },
    Receive { sender: Seq<u8>, message_id: Seq<u8>, timestamp: u64, payload: Seq<u8> },
    Ack { message_id: Seq<u8> },
    SendAck { message_id: Seq<u8>, status: SendStatus },
    FetchPending,
    PendingCount { count: u32 },
    Error { code: u8, message: Seq<char> },
    Ping,
    Pong,
}

impl View for RelayMessage {
    type V = MessageView;

    open spec fn view(&self) -> MessageView {
        match self {
            RelayMessage::AuthChallenge { nonce } => MessageView::AuthChallenge { nonce: nonce@ },
            RelayMessage::AuthResponse { peer_id, signature } => MessageView::AuthResponse {
                peer_id: peer_id@,
                signature: signature@,
            },
            RelayMessage::AuthSuccess => MessageView::AuthSuccess,
            RelayMessage::AuthFailure { reason } => MessageView::AuthFailure { reason: reason@ },
            RelayMessage::Send { recipient, message_id, payload } => MessageView::Send {
                recipient: recipient@,
                message_id: message_id@,
                payload: payload@,
            },
            RelayMessage::Receive { sender, message_id, timestamp, payload } => MessageView::Receive {
                sender: sender@,
                message_id: message_id@,
                timestamp: *timestamp,
                payload: payload@,
            },
            RelayMessage::Ack { message_id } => MessageView::Ack { message_id: message_id@ },
            RelayMessage::SendAck { message_id, status } => MessageView::SendAck {
                message_id: message_id@,
                status: *status,
            },
            RelayMessage::FetchPending => MessageView::FetchPending,
            RelayMessage::PendingCount { count } => MessageView::PendingCount { count: *count },
            RelayMessage::Error { code, message } => MessageView::Error {
                code: *code,
                message: message@,
            },
            RelayMessage::Ping => MessageView::Ping,
            RelayMessage::Pong => MessageView::Pong,
        }
    }
}

/// Big-endian encoding of a 32-bit value.
pub open spec fn be_u32_bytes(x: u32) -> Seq<u8> {
    seq![
        (x / 0x100_0000) as u8,
        ((x / 0x1_0000) % 0x100) as u8,
        ((x / 0x100) % 0x100) as u8,
        (x % 0x100) as u8,
    ]
}

/// Value of the four bytes of `b` that start at `i`, read big-endian.
pub open spec fn be_u32_at(b: Seq<u8>, i: int) -> int {
    b[i] * 0x100_0000 + b[i + 1] * 0x1_0000 + b[i + 2] * 0x100 + b[i + 3]
}

/// Value of the eight bytes of `b` that start at `i`, read big-endian.
pub open spec fn be_u64_at(b: Seq<u8>, i: int) -> int {
    be_u32_at(b, i) * 0x1_0000_0000 + be_u32_at(b, i + 4)
}

/// The bytes that the client writes for a message. Messages that only the
/// server sends are written as no bytes at all.
pub open spec fn spec_encode(m: MessageView) -> Seq<u8> {
    match m {
        MessageView::AuthResponse { peer_id, signature } => seq![0x02u8] + peer_id + signature,
        MessageView::Send { recipient, message_id, payload } => seq![0x10u8] + recipient
            + message_id + be_u32_bytes(payload.len() as u32) + payload,
        MessageView::Ack { message_id } => seq![0x12u8] + message_id,
        MessageView::FetchPending => seq![0x20u8],
        MessageView::Ping => seq![0xFEu8],
        MessageView::Pong => seq![0xFFu8],
        _ => Seq::empty(),
    }
}

/// Text of a byte string decoded as UTF-8, each ill-formed sequence replaced
/// by U+FFFD, as `String::from_utf8_lossy` gives it.
pub uninterp spec fn utf8_lossy(bytes: Seq<u8>) -> Seq<char>;

/// Calls `String::from_utf8_lossy` and takes the owned text. Claimed: the
/// result is `utf8_lossy` of the bytes, and well-formed UTF-8 is decoded as
/// it stands. What replaces ill-formed input is left unsaid here.
#[verifier::external_body]
fn string_from_utf8_lossy(bytes: &[u8]) -> (s: String)
    ensures
        s@ == utf8_lossy(bytes@),
        vstd::utf8::valid_utf8(bytes@) ==> s@ == vstd::utf8::decode_utf8(bytes@),
{
    String::from_utf8_lossy(bytes).into_owned()
}

/// What a received frame decodes to.
pub open spec fn spec_decode(data: Seq<u8>) -> Result<MessageView, ProtocolError> {
    if data.len() == 0 {
        Err(ProtocolError::EmptyMessage)
    } else {
        let p = data.subrange(1, data.len() as int);
        match message_type_of(data[0]) {
            None => Err(ProtocolError::InvalidMessageType(data[0])),
            Some(MessageType::AuthChallenge) => if p.len() < 32 {
                Err(ProtocolError::InvalidLength)
            } else {
                Ok(MessageView::AuthChallenge { nonce: p.subrange(0, 32) })
            },
            Some(MessageType::AuthSuccess) => Ok(MessageView::AuthSuccess),
            Some(MessageType::AuthFailure) => Ok(MessageView::AuthFailure { reason: utf8_lossy(p) }),
            Some(MessageType::Receive) => if p.len() < 60 {
                Err(ProtocolError::InvalidLength)
            } else if p.len() < 60 + be_u32_at(p, 56) {
                Err(ProtocolError::InvalidLength)
            } else {
                Ok(MessageView::Receive {
                    sender: p.subrange(0, 32),
                    message_id: p.subrange(32, 48),
                    timestamp: be_u64_at(p, 48) as u64,
                    payload: p.subrange(60, 60 + be_u32_at(p, 56)),
                })
            },
            Some(MessageType::SendAck) => if p.len() < 17 {
                Err(ProtocolError::InvalidLength)
            } else {
                match send_status_of(p[16]) {
                    None => Err(ProtocolError::InvalidStatus(p[16])),
                    Some(status) => Ok(
                        MessageView::SendAck { message_id: p.subrange(0, 16), status },
                    ),
                }
            },
            Some(MessageType::PendingCount) => if p.len() < 4 {
                Err(ProtocolError::InvalidLength)
            } else {
                Ok(MessageView::PendingCount { count: be_u32_at(p, 0) as u32 })
            },
            Some(MessageType::Error) => if p.len() == 0 {
                Err(ProtocolError::InvalidLength)
            } else {
                Ok(
                    MessageView::Error {
                        code: p[0],
                        message: utf8_lossy(p.subrange(1, p.len() as int)),
                    },
                )
            },
            Some(MessageType::Ping) => Ok(MessageView::Ping),
            Some(MessageType::Pong) => Ok(MessageView::Pong),
            Some(_) => Err(ProtocolError::UnexpectedMessage(data[0])),
        }
    }
}

/// The view of a decoding result.
pub open spec fn decoded_view(r: Result<RelayMessage, ProtocolError>) -> Result<
    MessageView,
    ProtocolError,
> {
    match r {
        Ok(m) => Ok(m@),
        Err(e) => Err(e),
    }
}

/// Read four bytes big-endian.
fn read_be_u32(data: &[u8], start: usize) -> (x: u32)
    requires
        start + 4 <= data@.len(),
    ensures
        x as int == be_u32_at(data@, start as int),
{
    (data[start] as u32) * 0x100_0000 + (data[start + 1] as u32) * 0x1_0000 + (data[start + 2]
        as u32) * 0x100 + (data[start + 3] as u32)
}

/// Read eight bytes big-endian.
fn read_be_u64(data: &[u8], start: usize) -> (x: u64)
    requires
        start + 8 <= data@.len(),
    ensures
        x as int == be_u64_at(data@, start as int),
{
    // The slice's length, a usize, bounds `start + 8`.
    let _len = data.len();
    let hi = read_be_u32(data, start) as u64;
    let lo = read_be_u32(data, start + 4) as u64;
    hi * 0x1_0000_0000 + lo
}

impl RelayMessage {
    /// Encode message to binary.
    pub fn encode(&self) -> (buf: Vec<u8>)
        ensures
            buf@ == spec_encode(self@),
    {
        let mut buf: Vec<u8> = Vec::new();
        match self {
            RelayMessage::AuthResponse { peer_id, signature } => {
                buf.push(MessageType::AuthResponse.as_u8());
                append_bytes(&mut buf, peer_id);
                append_bytes(&mut buf, signature);
            },
            RelayMessage::Send { recipient, message_id, payload } => {
                buf.push(MessageType::Send.as_u8());
                append_bytes(&mut buf, recipient);
                append_bytes(&mut buf, message_id);
                #[verifier::truncate]
                let len = payload.len() as u32;
                let len_bytes: [u8; 4] = [
                    (len / 0x100_0000) as u8,
                    ((len / 0x1_0000) % 0x100) as u8,
                    ((len / 0x100) % 0x100) as u8,
                    (len % 0x100) as u8,
                ];
                assert(len_bytes@ =~= be_u32_bytes(len));
                append_bytes(&mut buf, &len_bytes);
                append_bytes(&mut buf, payload.as_slice());
            },
            RelayMessage::Ack { message_id } => {
                buf.push(MessageType::Ack.as_u8());
                append_bytes(&mut buf, message_id);
            },
            RelayMessage::FetchPending => {
                buf.push(MessageType::FetchPending.as_u8());
            },
            RelayMessage::Ping => {
                buf.push(MessageType::Ping.as_u8());
            },
            RelayMessage::Pong => {
                buf.push(MessageType::Pong.as_u8());
            },
            _ => {},
        }
        assert(buf@ =~= spec_encode(self@));
        buf
    }

    /// Decode binary message.
    pub fn decode(data: &[u8]) -> (r: Result<RelayMessage, ProtocolError>)
        ensures
            decoded_view(r) == spec_decode(data@),
    {
        if data.len() == 0 {
            return Err(ProtocolError::EmptyMessage);
        }
        let msg_type = match MessageType::try_from(data[0]) {
            Ok(t) => t,
            Err(e) => return Err(e),
        };
        let payload = &data[1..data.len()];
        let ghost p = data@.subrange(1, data@.len() as int);
        assert(payload@ =~= p);

        match msg_type {
            MessageType::AuthChallenge => {
                if payload.len() < 32 {
                    return Err(ProtocolError::InvalidLength);
                }
                let nonce: [u8; 32] = copy_array(payload, 0);
                Ok(RelayMessage::AuthChallenge { nonce })
            },
            MessageType::AuthSuccess => Ok(RelayMessage::AuthSuccess),
            MessageType::AuthFailure => {
                let reason = string_from_utf8_lossy(payload);
                Ok(RelayMessage::AuthFailure { reason })
            },
            MessageType::Receive => {
                if payload.len() < 32 + 16 + 8 + 4 {
                    return Err(ProtocolError::InvalidLength);
                }
                let sender: [u8; 32] = copy_array(payload, 0);
                let message_id: [u8; 16] = copy_array(payload, 32);
                let timestamp = read_be_u64(payload, 48);
                let len = read_be_u32(payload, 56);
                if (payload.len() as u64) < 60 + (len as u64) {
                    return Err(ProtocolError::InvalidLength);
                }
                let end = 60 + len as usize;
                let body = &payload[60..end];
                let data_out = vstd::slice::slice_to_vec(body);
                assert(data_out@ == p.subrange(60, 60 + be_u32_at(p, 56)));
                Ok(RelayMessage::Receive { sender, message_id, timestamp, payload: data_out })
            },
            MessageType::SendAck => {
                if payload.len() < 17 {
                    return Err(ProtocolError::InvalidLength);
                }
                let message_id: [u8; 16] = copy_array(payload, 0);
                let status = match SendStatus::try_from(payload[16]) {
                    Ok(s) => s,
                    Err(e) => return Err(e),
                };
                Ok(RelayMessage::SendAck { message_id, status })
            },
            MessageType::PendingCount => {
                if payload.len() < 4 {
                    return Err(ProtocolError::InvalidLength);
                }
                let count = read_be_u32(payload, 0);
                Ok(RelayMessage::PendingCount { count })
            },
            MessageType::Error => {
                if payload.len() == 0 {
                    return Err(ProtocolError::InvalidLength);
                }
                let code = payload[0];
                let rest = &payload[1..payload.len()];
                let message = string_from_utf8_lossy(rest);
                Ok(RelayMessage::Error { code, message })
            },
            MessageType::Ping => Ok(RelayMessage::Ping),
            MessageType::Pong => Ok(RelayMessage::Pong),
            _ => Err(ProtocolError::UnexpectedMessage(msg_type.as_u8())),
        }
    }
}

/// A ping or pong that the client writes is read back as the same message.
pub proof fn law_decode_encode_keepalive(m: MessageView)
    requires
        m is Ping || m is Pong,
    ensures
        spec_decode(spec_encode(m)) == Ok::<MessageView, ProtocolError>(m),
{
}

/// Reading four big-endian bytes back gives the value they were written from.
pub proof fn lemma_be_u32_roundtrip(x: u32)
    ensures
        be_u32_bytes(x).len() == 4,
        be_u32_at(be_u32_bytes(x), 0) == x,
{
    let b = be_u32_bytes(x);
    let q0 = x / 0x100_0000;
    assert(0 <= q0 < 0x100) by (nonlinear_arith)
        requires
            q0 == x / 0x100_0000,
            x <= 0xFFFF_FFFF,
    ;
    assert(b[0] == q0);
    assert(b[1] == (x / 0x1_0000) % 0x100);
    assert(b[2] == (x / 0x100) % 0x100);
    assert(b[3] == x % 0x100);
    assert(x == (x / 0x100_0000) * 0x100_0000 + ((x / 0x1_0000) % 0x100) * 0x1_0000 + ((x / 0x100)
        % 0x100) * 0x100 + x % 0x100) by (nonlinear_arith);
}

/// A send acknowledgement frame, `0x13`, the 16-byte message id, then the
/// status byte (0 queued, 1 delivered, 2 rejected), decodes to that id and
/// status; any other status byte is refused with that byte.
pub proof fn law_decode_send_ack(message_id: Seq<u8>, status_byte: u8)
    requires
        message_id.len() == 16,
    ensures
        ({
            let r = spec_decode(seq![0x13u8] + message_id + seq![status_byte]);
            &&& status_byte == 0 ==> r == Ok::<MessageView, ProtocolError>(
                MessageView::SendAck { message_id, status: SendStatus::Queued },
            )
            &&& status_byte == 1 ==> r == Ok::<MessageView, ProtocolError>(
                MessageView::SendAck { message_id, status: SendStatus::Delivered },
            )
            &&& status_byte == 2 ==> r == Ok::<MessageView, ProtocolError>(
                MessageView::SendAck { message_id, status: SendStatus::Rejected },
            )
            &&& status_byte > 2 ==> r == Err::<MessageView, ProtocolError>(
                ProtocolError::InvalidStatus(status_byte),
            )
        }),
{
    let f = seq![0x13u8] + message_id + seq![status_byte];
    let p = f.subrange(1, f.len() as int);
    assert(p =~= message_id + seq![status_byte]);
    assert(p.subrange(0, 16) =~= message_id);
    assert(p[16] == status_byte);
}

/// An authentication challenge frame, `0x01` then at least 32 bytes, decodes
/// to the first 32 of those bytes as the nonce.
pub proof fn law_decode_auth_challenge(nonce: Seq<u8>, rest: Seq<u8>)
    requires
        nonce.len() == 32,
    ensures
        spec_decode(seq![0x01u8] + nonce + rest) == Ok::<MessageView, ProtocolError>(
            MessageView::AuthChallenge { nonce },
        ),
{
    let f = seq![0x01u8] + nonce + rest;
    let p = f.subrange(1, f.len() as int);
    assert(p =~= nonce + rest);
    assert(p.subrange(0, 32) =~= nonce);
}

/// A pending-count frame, `0x21` then the count in four big-endian bytes,
/// decodes to that count.
pub proof fn law_decode_pending_count(count: u32)
    ensures
        spec_decode(seq![0x21u8] + be_u32_bytes(count)) == Ok::<MessageView, ProtocolError>(
            MessageView::PendingCount { count },
        ),
{
    lemma_be_u32_roundtrip(count);
    let f = seq![0x21u8] + be_u32_bytes(count);
    let p = f.subrange(1, f.len() as int);
    assert(p =~= be_u32_bytes(count));
}

/// A received-message frame, `0x11`, the 32-byte sender, the 16-byte id, the
/// timestamp in eight big-endian bytes, the payload length in four, then the
/// payload, decodes to those fields.
pub proof fn law_decode_receive(sender: Seq<u8>, message_id: Seq<u8>, timestamp: u64, payload: Seq<u8>)
    requires
        sender.len() == 32,
        message_id.len() == 16,
        payload.len() <= u32::MAX,
    ensures
        spec_decode(
            seq![0x11u8] + sender + message_id + be_u32_bytes((timestamp / 0x1_0000_0000) as u32)
                + be_u32_bytes((timestamp % 0x1_0000_0000) as u32) + be_u32_bytes(
                payload.len() as u32,
            ) + payload,
        ) == Ok::<MessageView, ProtocolError>(
            MessageView::Receive { sender, message_id, timestamp, payload },
        ),
{
    let hi = (timestamp / 0x1_0000_0000) as u32;
    let lo = (timestamp % 0x1_0000_0000) as u32;
    let n = payload.len() as u32;
    lemma_be_u32_roundtrip(hi);
    lemma_be_u32_roundtrip(lo);
    lemma_be_u32_roundtrip(n);
    let f = seq![0x11u8] + sender + message_id + be_u32_bytes(hi) + be_u32_bytes(lo)
        + be_u32_bytes(n) + payload;
    let p = f.subrange(1, f.len() as int);
    assert(p =~= sender + message_id + be_u32_bytes(hi) + be_u32_bytes(lo) + be_u32_bytes(n)
        + payload);
    assert(p.subrange(0, 32) =~= sender);
    assert(p.subrange(32, 48) =~= message_id);
    assert(p.subrange(48, 52) =~= be_u32_bytes(hi));
    assert(p.subrange(52, 56) =~= be_u32_bytes(lo));
    assert(p.subrange(56, 60) =~= be_u32_bytes(n));
    assert(be_u32_at(p, 48) == be_u32_at(be_u32_bytes(hi), 0));
    assert(be_u32_at(p, 52) == be_u32_at(be_u32_bytes(lo), 0));
    assert(be_u32_at(p, 56) == be_u32_at(be_u32_bytes(n), 0));
    assert(timestamp == hi * 0x1_0000_0000 + lo) by (nonlinear_arith)
        requires
            hi == timestamp / 0x1_0000_0000,
            lo == timestamp % 0x1_0000_0000,
    ;
    assert(p.subrange(60, 60 + be_u32_at(p, 56)) =~= payload);
}

/// An error frame, `0xF0`, the code byte, then the message text, decodes to
/// that code and the text; an authentication failure frame, `0x04` then the
/// reason text, decodes to that reason; the one-byte frames `0x03`, `0xFE`
/// and `0xFF` are the success, ping and pong messages.
pub proof fn law_decode_text_and_bare_frames(code: u8, text: Seq<u8>)
    ensures
        spec_decode(seq![0xF0u8, code] + text) == Ok::<MessageView, ProtocolError>(
            MessageView::Error { code, message: utf8_lossy(text) },
        ),
        spec_decode(seq![0x04u8] + text) == Ok::<MessageView, ProtocolError>(
            MessageView::AuthFailure { reason: utf8_lossy(text) },
        ),
        spec_decode(seq![0x03u8]) == Ok::<MessageView, ProtocolError>(MessageView::AuthSuccess),
        spec_decode(seq![0xFEu8]) == Ok::<MessageView, ProtocolError>(MessageView::Ping),
        spec_decode(seq![0xFFu8]) == Ok::<MessageView, ProtocolError>(MessageView::Pong),
{
    let f = seq![0xF0u8, code] + text;
    let p = f.subrange(1, f.len() as int);
    assert(p =~= seq![code] + text);
    assert(p.subrange(1, p.len() as int) =~= text);
    let g = seq![0x04u8] + text;
    assert(g.subrange(1, g.len() as int) =~= text);
}

/// The frame that sends a payload is `0x10`, the recipient's 32 bytes in
/// order, the 16-byte message id, the payload length in four big-endian
/// bytes, then the payload.
pub proof fn law_send_frame_layout(recipient: Seq<u8>, message_id: Seq<u8>, payload: Seq<u8>)
    requires
        recipient.len() == 32,
        message_id.len() == 16,
        payload.len() <= u32::MAX,
    ensures
        ({
            let f = spec_encode(MessageView::Send { recipient, message_id, payload });
            &&& f.len() == 53 + payload.len()
            &&& f[0] == 0x10
            &&& f.subrange(1, 33) == recipient
            &&& f.subrange(33, 49) == message_id
            &&& be_u32_at(f, 49) == payload.len()
            &&& f.subrange(53, f.len() as int) == payload
        }),
{
    let n = payload.len() as u32;
    lemma_be_u32_roundtrip(n);
    let f = spec_encode(MessageView::Send { recipient, message_id, payload });
    assert(f =~= seq![0x10u8] + recipient + message_id + be_u32_bytes(n) + payload);
    assert(f.subrange(1, 33) =~= recipient);
    assert(f.subrange(33, 49) =~= message_id);
    assert(f.subrange(49, 53) =~= be_u32_bytes(n));
    assert(be_u32_at(f, 49) == be_u32_at(be_u32_bytes(n), 0));
    assert(f.subrange(53, f.len() as int) =~= payload);
}

/// The frame that answers a challenge is `0x02`, the 32-byte peer id, then
/// the signature; the frame that acknowledges a message is `0x12` then its
/// 16-byte id; the request for pending messages is the single byte `0x20`.
pub proof fn law_client_frame_layouts(peer_id: Seq<u8>, signature: Seq<u8>, message_id: Seq<u8>)
    requires
        peer_id.len() == 32,
        message_id.len() == 16,
    ensures
        ({
            let f = spec_encode(MessageView::AuthResponse { peer_id, signature });
            &&& f.len() == 33 + signature.len()
            &&& f[0] == 0x02
            &&& f.subrange(1, 33) == peer_id
            &&& f.subrange(33, f.len() as int) == signature
        }),
        ({
            let f = spec_encode(MessageView::Ack { message_id });
            &&& f.len() == 17
            &&& f[0] == 0x12
            &&& f.subrange(1, 17) == message_id
        }),
        spec_encode(MessageView::FetchPending) == seq![0x20u8],
{
    let f = spec_encode(MessageView::AuthResponse { peer_id, signature });
    assert(f.subrange(1, 33) =~= peer_id);
    assert(f.subrange(33, f.len() as int) =~= signature);
    let g = spec_encode(MessageView::Ack { message_id });
    assert(g.subrange(1, 17) =~= message_id);
}

/// The message a protocol error is shown with.
pub open spec fn protocol_error_text(e: ProtocolError) -> Seq<char> {
    match e {
        ProtocolError::EmptyMessage => "Empty message"@,
        ProtocolError::InvalidMessageType(b) => "Invalid message type: "@ + decimal_text(b as int),
        ProtocolError::InvalidStatus(b) => "Invalid status: "@ + decimal_text(b as int),
        ProtocolError::InvalidLength => "Invalid message length"@,
        ProtocolError::UnexpectedMessage(b) => "Unexpected message type: "@ + decimal_text(
            b as int,
        ),
    }
}

impl ProtocolError {
    /// The message this error is shown with.
    pub fn text(&self) -> (t: String)
        ensures
            t@ == protocol_error_text(*self),
    {
        match self {
            ProtocolError::EmptyMessage => String::from_str("Empty message"),
            ProtocolError::InvalidMessageType(b) => joined(
                "Invalid message type: ",
                i64_to_decimal(*b as i64).as_str(),
            ),
            ProtocolError::InvalidStatus(b) => joined(
                "Invalid status: ",
                i64_to_decimal(*b as i64).as_str(),
            ),
            ProtocolError::InvalidLength => String::from_str("Invalid message length"),
            ProtocolError::UnexpectedMessage(b) => joined(
                "Unexpected message type: ",
                i64_to_decimal(*b as i64).as_str(),
            ),
        }
    }
}

} // verus!
