//! Relay client: the decisions of a connection to the relay.
//!
//! The transport (WebSocket, channels, timers) lives with the caller. This
//! type holds the client's identity and connection state, answers the relay's
//! authentication challenge, reacts to incoming frames and builds the frames
//! that the client sends.

use vstd::prelude::*;
use vstd::string::*;
use crate::relay::protocol::{
    be_u32_bytes, law_decode_receive, law_decode_text_and_bare_frames, protocol_error_text,
    utf8_lossy,
};
use crate::text::joined;
use crate::crypto::keys::{ed25519_public_key, verifying_key};
use crate::crypto::signature::{ed25519_signature, sign};
use crate::relay::protocol::{spec_decode, spec_encode, MessageView, ProtocolError, RelayMessage};
use crate::relay::queue::{backoff, backoff_secs};

verus! {

/// Relay client error
#[derive(Debug, Clone)]
pub enum RelayError {
    Connection(String),
    AuthFailed(String),
    NotConnected,
    Protocol(ProtocolError),
    WebSocket(String),
    SendFailed,
}

/// Connection state
#[derive(Debug, Clone, Copy, PartialEq, Eq, Structural)]
pub enum ConnectionState {
    Disconnected,
    Connecting,
    Authenticating,
    Connected,
    Reconnecting,
}

/// Incoming message from relay
#[derive(Debug, Clone)]
pub struct IncomingMessage {
    pub sender: [u8; 32],
    pub message_id: [u8; 16],
    pub timestamp: u64,
    pub payload: Vec<u8>,
}

/// An incoming message as a mathematical value.
pub struct IncomingView {
    pub sender: Seq<u8>,
    pub message_id: Seq<u8>,
    pub timestamp: u64,
    pub payload: Seq<u8>,
}

impl View for IncomingMessage {
    type V = IncomingView;

    open spec fn view(&self) -> IncomingView {
        IncomingView {
            sender: self.sender@,
            message_id: self.message_id@,
            timestamp: self.timestamp,
            payload: self.payload@,
        }
    }
}

/// The highest power of two that the reconnect delay reaches.
pub const RECONNECT_BACKOFF_CAP: u32 = 6;

/// Relay client for whisper messaging
pub struct RelayClient {
    url: String,
    signing_key: [u8; 32],
    peer_id: [u8; 32],
    state: ConnectionState,
    sender_open: bool,
    challenge_answered: bool,
    reconnect_attempts: u32,
}

/// A relay client as a mathematical value.
pub struct ClientView {
    pub url: Seq<char>,
    pub signing_key: Seq<u8>,
    pub peer_id: Seq<u8>,
    pub state: ConnectionState,
    /// Whether a channel to the relay has been opened and not dropped.
    pub sender_open: bool,
    /// Whether the relay's challenge on the current connection has been
    /// answered (so that the next frame is the authentication result).
    pub challenge_answered: bool,
    pub reconnect_attempts: u32,
}

impl View for RelayClient {
    type V = ClientView;

    closed spec fn view(&self) -> ClientView {
        ClientView {
            url: self.url@,
            signing_key: self.signing_key@,
            peer_id: self.peer_id@,
            state: self.state,
            sender_open: self.sender_open,
            challenge_answered: self.challenge_answered,
            reconnect_attempts: self.reconnect_attempts,
        }
    }
}

/// Whether `e` is an authentication failure with the message `msg`.
pub open spec fn auth_failed_with(e: RelayError, msg: Seq<char>) -> bool {
    e matches RelayError::AuthFailed(s) && s@ == msg
}

/// The frame that answers the relay's challenge `nonce`: the client's peer
/// id and its signature of the nonce.
pub open spec fn challenge_response(c: ClientView, nonce: Seq<u8>) -> Seq<u8> {
    spec_encode(
        MessageView::AuthResponse {
            peer_id: c.peer_id,
            signature: ed25519_signature(c.signing_key, nonce),
        },
    )
}

/// The frames the client writes after reading a frame, and the message it
/// hands on, if any.
pub open spec fn reaction(data: Seq<u8>) -> (Option<Seq<u8>>, Option<IncomingView>) {
    match spec_decode(data) {
        Ok(MessageView::Receive { sender, message_id, timestamp, payload }) => (
            Some(spec_encode(MessageView::Ack { message_id })),
            Some(IncomingView { sender, message_id, timestamp, payload }),
        ),
        Ok(MessageView::Ping) => (Some(spec_encode(MessageView::Pong)), None),
        _ => (None, None),
    }
}

/// The view of an optional frame and an optional incoming message.
pub open spec fn reaction_view(r: (Option<Vec<u8>>, Option<IncomingMessage>)) -> (
    Option<Seq<u8>>,
    Option<IncomingView>,
) {
    (
        match r.0 {
            Some(v) => Some(v@),
            None => None,
        },
        match r.1 {
            Some(m) => Some(m@),
            None => None,
        },
    )
}

/// What the relay's first frame (`None`: no binary frame) is answered
/// with: the signed challenge, or the error that ends the handshake.
pub open spec fn answers_challenge(
    c: ClientView,
    frame: Option<Seq<u8>>,
    r: Result<Seq<u8>, RelayError>,
) -> bool {
    match frame {
        None => r matches Err(e) && auth_failed_with(e, "No challenge received"@),
        Some(d) => match spec_decode(d) {
            Err(pe) => r == Err::<Seq<u8>, RelayError>(RelayError::Protocol(pe)),
            Ok(MessageView::AuthChallenge { nonce }) => r == Ok::<Seq<u8>, RelayError>(
                challenge_response(c, nonce),
            ),
            Ok(_) => r matches Err(e) && auth_failed_with(e, "Expected challenge"@),
        },
    }
}

/// Whether the relay's answer to the client's response (`None`: no binary
/// frame) accepts the client, and the error otherwise.
pub open spec fn auth_outcome(frame: Option<Seq<u8>>, r: Result<(), RelayError>) -> bool {
    match frame {
        None => r matches Err(e) && auth_failed_with(e, "No auth response"@),
        Some(d) => match spec_decode(d) {
            Err(pe) => r == Err::<(), RelayError>(RelayError::Protocol(pe)),
            Ok(MessageView::AuthSuccess) => r is Ok,
            Ok(MessageView::AuthFailure { reason }) => r matches Err(e) && auth_failed_with(
                e,
                reason,
            ),
            Ok(_) => r matches Err(e) && auth_failed_with(e, "Unexpected response"@),
        },
    }
}

/// The bytes of an optional frame.
pub open spec fn frame_view(frame: Option<&[u8]>) -> Option<Seq<u8>> {
    match frame {
        Some(d) => Some(d@),
        None => None,
    }
}

/// What the client does next in the handshake.
#[derive(Debug, Clone)]
pub enum HandshakeAction {
    /// Write this frame (the answer to the challenge) and read the next.
    Reply(Vec<u8>),
    /// The client is connected: write this frame, which asks for pending
    /// messages.
    Connected(Vec<u8>),
}

/// The frame of a handshake step's result.
pub open spec fn step_frame(r: Result<HandshakeAction, RelayError>) -> Result<Seq<u8>, RelayError> {
    match r {
        Ok(HandshakeAction::Reply(b)) => Ok(b@),
        Ok(HandshakeAction::Connected(b)) => Ok(b@),
        Err(e) => Err(e),
    }
}

/// Whether a handshake step succeeded.
pub open spec fn step_unit(r: Result<HandshakeAction, RelayError>) -> Result<(), RelayError> {
    match r {
        Ok(_) => Ok(()),
        Err(e) => Err(e),
    }
}

/// Calls `rand::random` for a fresh message id. Nothing is claimed of it.
#[verifier::external_body]
pub(crate) fn random_message_id() -> (id: [u8; 16]) {
    rand::random()
}

/// Copy a byte vector.
fn copy_bytes(v: &Vec<u8>) -> (c: Vec<u8>)
    ensures
        c@ == v@,
{
    let c = v.clone();
    assert(c@ =~= v@);
    c
}

impl RelayClient {
    /// Create a new relay client for the relay at `url` with the client's
    /// secret key.
    pub fn new(url: &str, signing_key: [u8; 32]) -> (c: Self)
        ensures
            c@ == (ClientView {
                url: url@,
                signing_key: signing_key@,
                peer_id: ed25519_public_key(signing_key@),
                state: ConnectionState::Disconnected,
                sender_open: false,
                challenge_answered: false,
                reconnect_attempts: 0,
            }),
    {
        let peer_id = verifying_key(&signing_key);
        RelayClient {
            url: url.to_owned(),
            signing_key,
            peer_id,
            state: ConnectionState::Disconnected,
            sender_open: false,
            challenge_answered: false,
            reconnect_attempts: 0,
        }
    }

    /// The relay's address.
    pub fn url(&self) -> (u: &str)
        ensures
            u@ == self@.url,
    {
        self.url.as_str()
    }

    /// Get current connection state
    pub fn state(&self) -> (s: ConnectionState)
        ensures
            s == self@.state,
    {
        self.state
    }

    /// Get peer ID
    pub fn peer_id(&self) -> (id: [u8; 32])
        ensures
            id@ == self@.peer_id,
    {
        self.peer_id
    }

    /// How many reconnects have been started since the last successful
    /// handshake.
    pub fn reconnect_attempts(&self) -> (n: u32)
        ensures
            n == self@.reconnect_attempts,
    {
        self.reconnect_attempts
    }

    /// Whether a channel to the relay is open.
    pub fn has_sender(&self) -> (b: bool)
        ensures
            b == self@.sender_open,
    {
        self.sender_open
    }

    /// A connection attempt starts.
    pub fn begin_connect(&mut self)
        ensures
            final(self)@ == (ClientView { state: ConnectionState::Connecting, ..old(self)@ }),
    {
        self.state = ConnectionState::Connecting;
    }

    /// The socket is open and its outgoing channel is set up: the client
    /// waits for the relay's challenge.
    pub fn channel_opened(&mut self)
        ensures
            final(self)@ == (ClientView {
                state: ConnectionState::Authenticating,
                sender_open: true,
                challenge_answered: false,
                ..old(self)@
            }),
    {
        self.sender_open = true;
        self.challenge_answered = false;
        self.state = ConnectionState::Authenticating;
    }

    /// Answer the first frame of the relay (`None` where the socket gave no
    /// binary frame): a challenge is signed and answered with the client's
    /// peer id.
    pub fn answer_challenge(&self, frame: Option<&[u8]>) -> (r: Result<Vec<u8>, RelayError>)
        ensures
            frame is None ==> (r matches Err(e) && auth_failed_with(e, "No challenge received"@)),
            frame matches Some(d) ==> match spec_decode(d@) {
                Err(pe) => r matches Err(e) && e == RelayError::Protocol(pe),
                Ok(MessageView::AuthChallenge { nonce }) => r matches Ok(b) && b@
                    == challenge_response(self@, nonce),
                Ok(_) => r matches Err(e) && auth_failed_with(e, "Expected challenge"@),
            },
    {
        let data = match frame {
            Some(d) => d,
            None => return Err(RelayError::AuthFailed("No challenge received".to_owned())),
        };
        let challenge = match RelayMessage::decode(data) {
            Ok(RelayMessage::AuthChallenge { nonce }) => nonce,
            Ok(_) => return Err(RelayError::AuthFailed("Expected challenge".to_owned())),
            Err(e) => return Err(RelayError::Protocol(e)),
        };
        let signature = sign(&challenge, &self.signing_key);
        let response = RelayMessage::AuthResponse { peer_id: self.peer_id, signature };
        Ok(response.encode())
    }

    /// Read the relay's answer to the client's response (`None` where the
    /// socket gave no binary frame). Success connects the client and resets
    /// its reconnect count; otherwise the state is left as it was.
    pub fn complete_auth(&mut self, frame: Option<&[u8]>) -> (r: Result<(), RelayError>)
        ensures
            frame is None ==> (r matches Err(e) && auth_failed_with(e, "No auth response"@)),
            frame matches Some(d) ==> match spec_decode(d@) {
                Err(pe) => r matches Err(e) && e == RelayError::Protocol(pe),
                Ok(MessageView::AuthSuccess) => r is Ok,
                Ok(MessageView::AuthFailure { reason }) => r matches Err(e) && auth_failed_with(
                    e,
                    reason,
                ),
                Ok(_) => r matches Err(e) && auth_failed_with(e, "Unexpected response"@),
            },
            r is Ok ==> final(self)@ == (ClientView {
                state: ConnectionState::Connected,
                reconnect_attempts: 0,
                ..old(self)@
            }),
            r is Err ==> final(self)@ == old(self)@,
    {
        let data = match frame {
            Some(d) => d,
            None => return Err(RelayError::AuthFailed("No auth response".to_owned())),
        };
        match RelayMessage::decode(data) {
            Ok(RelayMessage::AuthSuccess) => {},
            Ok(RelayMessage::AuthFailure { reason }) => {
                return Err(RelayError::AuthFailed(reason));
            },
            Ok(_) => return Err(RelayError::AuthFailed("Unexpected response".to_owned())),
            Err(e) => return Err(RelayError::Protocol(e)),
        }
        self.state = ConnectionState::Connected;
        self.reconnect_attempts = 0;
        Ok(())
    }

    /// One step of the handshake on an open connection, given the frame the
    /// relay sent (`None`: no binary frame). First the challenge is answered
    /// (`Reply`); then the relay's answer is read, and on success the client
    /// is connected and asks for its pending messages (`Connected`). An error
    /// ends the handshake and leaves the client as it was.
    pub fn handshake_step(&mut self, frame: Option<&[u8]>) -> (r: Result<HandshakeAction, RelayError>)
        requires
            old(self)@.state == ConnectionState::Authenticating,
            old(self)@.sender_open,
        ensures
            r is Err ==> final(self)@ == old(self)@,
            !old(self)@.challenge_answered ==> {
                &&& answers_challenge(old(self)@, frame_view(frame), step_frame(r))
                &&& r is Ok ==> (r matches Ok(HandshakeAction::Reply(_))) && final(self)@ == (
                ClientView { challenge_answered: true, ..old(self)@ })
            },
            old(self)@.challenge_answered ==> {
                &&& auth_outcome(frame_view(frame), step_unit(r))
                &&& r is Ok ==> (r matches Ok(HandshakeAction::Connected(b)) && b@ == spec_encode(
                    MessageView::FetchPending,
                )) && final(self)@ == (ClientView {
                    state: ConnectionState::Connected,
                    reconnect_attempts: 0,
                    ..old(self)@
                })
            },
    {
        if !self.challenge_answered {
            match self.answer_challenge(frame) {
                Ok(response) => {
                    self.challenge_answered = true;
                    Ok(HandshakeAction::Reply(response))
                },
                Err(e) => Err(e),
            }
        } else {
            match self.complete_auth(frame) {
                Ok(()) => {},
                Err(e) => return Err(e),
            }
            match self.fetch_pending() {
                Ok(Some(request)) => Ok(HandshakeAction::Connected(request)),
                _ => Err(RelayError::NotConnected),
            }
        }
    }

    /// React to a frame read from an open connection: a received message is
    /// acknowledged by its id and handed on; a ping is answered with a pong;
    /// anything else is ignored.
    pub fn handle_frame(&self, data: &[u8]) -> (r: (Option<Vec<u8>>, Option<IncomingMessage>))
        ensures
            reaction_view(r) == reaction(data@),
    {
        match RelayMessage::decode(data) {
            Ok(RelayMessage::Receive { sender, message_id, timestamp, payload }) => {
                let ack = RelayMessage::Ack { message_id };
                (
                    Some(ack.encode()),
                    Some(IncomingMessage { sender, message_id, timestamp, payload }),
                )
            },
            Ok(RelayMessage::Ping) => {
                let pong = RelayMessage::Pong;
                (Some(pong.encode()), None)
            },
            _ => (None, None),
        }
    }

    /// The connection's reader or writer has stopped.
    pub fn connection_closed(&mut self)
        ensures
            final(self)@ == (ClientView { state: ConnectionState::Disconnected, ..old(self)@ }),
    {
        self.state = ConnectionState::Disconnected;
    }

    /// The frame that sends `payload` to `recipient` under `message_id`, if
    /// the client is connected.
    pub fn send_frame(&self, recipient: [u8; 32], message_id: [u8; 16], payload: Vec<u8>) -> (r:
        Result<Vec<u8>, RelayError>)
        ensures
            self@.state != ConnectionState::Connected || !self@.sender_open ==> (r matches Err(e)
                && e == RelayError::NotConnected),
            self@.state == ConnectionState::Connected && self@.sender_open ==> (r matches Ok(b) && b@
                == spec_encode(
                MessageView::Send {
                    recipient: recipient@,
                    message_id: message_id@,
                    payload: payload@,
                },
            )),
    {
        if self.state != ConnectionState::Connected {
            return Err(RelayError::NotConnected);
        }
        if !self.sender_open {
            return Err(RelayError::NotConnected);
        }
        let msg = RelayMessage::Send { recipient, message_id, payload };
        Ok(msg.encode())
    }

    /// Send a message to a peer: picks a fresh message id and returns it with
    /// the frame to write, if the client is connected.
    pub fn send(&self, recipient: [u8; 32], payload: Vec<u8>) -> (r: Result<
        ([u8; 16], Vec<u8>),
        RelayError,
    >)
        ensures
            self@.state != ConnectionState::Connected || !self@.sender_open ==> (r matches Err(e)
                && e == RelayError::NotConnected),
            self@.state == ConnectionState::Connected && self@.sender_open ==> (r matches Ok(p) && p.1@
                == spec_encode(
                MessageView::Send {
                    recipient: recipient@,
                    message_id: p.0@,
                    payload: payload@,
                },
            )),
    {
        if self.state != ConnectionState::Connected {
            return Err(RelayError::NotConnected);
        }
        let message_id = random_message_id();
        match self.send_frame(recipient, message_id, payload) {
            Ok(frame) => Ok((message_id, frame)),
            Err(e) => Err(e),
        }
    }

    /// Fetch pending messages: the frame that asks the relay for them, if the
    /// client is connected and has a channel (`None`: connected but nothing
    /// to send on).
    pub fn fetch_pending(&self) -> (r: Result<Option<Vec<u8>>, RelayError>)
        ensures
            self@.state != ConnectionState::Connected ==> (r matches Err(e) && e
                == RelayError::NotConnected),
            self@.state == ConnectionState::Connected && self@.sender_open ==> (r matches Ok(Some(b))
                && b@ == spec_encode(MessageView::FetchPending)),
            self@.state == ConnectionState::Connected && !self@.sender_open ==> (r matches Ok(None)),
    {
        if self.state != ConnectionState::Connected {
            return Err(RelayError::NotConnected);
        }
        if self.sender_open {
            let msg = RelayMessage::FetchPending;
            Ok(Some(msg.encode()))
        } else {
            Ok(None)
        }
    }

    /// Disconnect from relay
    pub fn disconnect(&mut self)
        ensures
            final(self)@ == (ClientView {
                state: ConnectionState::Disconnected,
                sender_open: false,
                ..old(self)@
            }),
    {
        self.sender_open = false;
        self.state = ConnectionState::Disconnected;
    }

    /// Start a reconnect: counts the attempt and returns the delay in
    /// seconds to wait before connecting, `2^min(attempts, 6)`.
    pub fn begin_reconnect(&mut self) -> (delay: u64)
        requires
            old(self)@.reconnect_attempts < u32::MAX,
        ensures
            final(self)@ == (ClientView {
                state: ConnectionState::Reconnecting,
                reconnect_attempts: (old(self)@.reconnect_attempts + 1) as u32,
                ..old(self)@
            }),
            delay == backoff(
                (old(self)@.reconnect_attempts + 1) as nat,
                RECONNECT_BACKOFF_CAP as nat,
            ),
    {
        self.reconnect_attempts = self.reconnect_attempts + 1;
        let delay = backoff_secs(self.reconnect_attempts, RECONNECT_BACKOFF_CAP);
        self.state = ConnectionState::Reconnecting;
        delay
    }
}

/// The message a relay error is shown with.
pub open spec fn relay_error_text(e: RelayError) -> Seq<char> {
    match e {
        RelayError::Connection(m) => "Connection failed: "@ + m@,
        RelayError::AuthFailed(m) => "Authentication failed: "@ + m@,
        RelayError::NotConnected => "Not connected"@,
        RelayError::Protocol(p) => "Protocol error: "@ + protocol_error_text(p),
        RelayError::WebSocket(m) => "WebSocket error: "@ + m@,
        RelayError::SendFailed => "Send failed"@,
    }
}

impl RelayError {
    /// The message this error is shown with.
    pub fn text(&self) -> (t: String)
        ensures
            t@ == relay_error_text(*self),
    {
        match self {
            RelayError::Connection(m) => joined("Connection failed: ", m.as_str()),
            RelayError::AuthFailed(m) => joined("Authentication failed: ", m.as_str()),
            RelayError::NotConnected => String::from_str("Not connected"),
            RelayError::Protocol(p) => joined("Protocol error: ", p.text().as_str()),
            RelayError::WebSocket(m) => joined("WebSocket error: ", m.as_str()),
            RelayError::SendFailed => String::from_str("Send failed"),
        }
    }
}

/// The answer to a challenge frame (`0x01`, the 32-byte nonce, anything
/// after it) is `0x02`, the client's 32-byte peer id, then the Ed25519
/// signature, under the client's secret key, of exactly the nonce the relay
/// sent.
pub proof fn law_challenge_answer_signs_nonce(c: ClientView, nonce: Seq<u8>, rest: Seq<u8>)
    requires
        nonce.len() == 32,
        c.peer_id.len() == 32,
    ensures
        answers_challenge(
            c,
            Some(seq![0x01u8] + nonce + rest),
            Ok(seq![0x02u8] + c.peer_id + ed25519_signature(c.signing_key, nonce)),
        ),
{
    let f = seq![0x01u8] + nonce + rest;
    let p = f.subrange(1, f.len() as int);
    assert(p =~= nonce + rest);
    assert(p.subrange(0, 32) =~= nonce);
    assert(challenge_response(c, nonce) =~= seq![0x02u8] + c.peer_id + ed25519_signature(
        c.signing_key,
        nonce,
    ));
}

/// After its answer, a one-byte `0x03` frame accepts the client, and a
/// `0x04` frame refuses it with the reason it carries; any other message, or
/// no frame, is an authentication failure too.
pub proof fn law_auth_result_frames(reason: Seq<u8>)
    ensures
        auth_outcome(Some(seq![0x03u8]), Ok(())),
        forall|r: Result<(), RelayError>|
            auth_outcome(Some(seq![0x04u8] + reason), r) ==> (r matches Err(
                RelayError::AuthFailed(m),
            ) && m@ == utf8_lossy(reason)),
        forall|r: Result<(), RelayError>| auth_outcome(Some(seq![0xFEu8]), r) ==> r is Err,
        forall|r: Result<(), RelayError>| auth_outcome(None, r) ==> r is Err,
{
    law_decode_text_and_bare_frames(0, reason);
}

/// A received message is acknowledged with `0x12` and its own 16-byte id and
/// handed on with the sender, id, timestamp and payload it came with; a ping
/// (`0xFE`) is answered with a pong (`0xFF`) and hands nothing on.
pub proof fn law_frame_reactions(
    sender: Seq<u8>,
    message_id: Seq<u8>,
    timestamp: u64,
    payload: Seq<u8>,
)
    requires
        sender.len() == 32,
        message_id.len() == 16,
        payload.len() <= u32::MAX,
    ensures
        reaction(
            seq![0x11u8] + sender + message_id + be_u32_bytes((timestamp / 0x1_0000_0000) as u32)
                + be_u32_bytes((timestamp % 0x1_0000_0000) as u32) + be_u32_bytes(
                payload.len() as u32,
            ) + payload,
        ) == (
            Some(seq![0x12u8] + message_id),
            Some(IncomingView { sender, message_id, timestamp, payload }),
        ),
        reaction(seq![0xFEu8]) == (Some(seq![0xFFu8]), None::<IncomingView>),
{
    law_decode_receive(sender, message_id, timestamp, payload);
    law_decode_text_and_bare_frames(0, Seq::empty());
}

} // verus!
