//! Relay commands: the connection status shown to the frontend.

use vstd::prelude::*;
use vstd::string::*;
use crate::crypto::keys::{base58_encoding, derive_peer_id};
use crate::relay::client::{ConnectionState, RelayClient};

verus! {

/// Error wrapper for commands
#[derive(Debug, Clone)]
pub struct CommandError {
    pub message: String,
}

/// Relay connection status.
#[derive(Debug, Clone)]
pub struct RelayStatus {
    pub connected: bool,
    pub state: String,
    pub peer_id: Option<String>,
}

/// The name of a connection state shown to the frontend.
pub open spec fn state_name(s: ConnectionState) -> Seq<char> {
    match s {
        ConnectionState::Disconnected => "disconnected"@,
        ConnectionState::Connecting => "connecting"@,
        ConnectionState::Authenticating => "authenticating"@,
        ConnectionState::Connected => "connected"@,
        ConnectionState::Reconnecting => "reconnecting"@,
    }
}

/// The name of a connection state.
pub fn connection_state_name(s: ConnectionState) -> (name: &'static str)
    ensures
        name@ == state_name(s),
{
    match s {
        ConnectionState::Disconnected => "disconnected",
        ConnectionState::Connecting => "connecting",
        ConnectionState::Authenticating => "authenticating",
        ConnectionState::Connected => "connected",
        ConnectionState::Reconnecting => "reconnecting",
    }
}

/// The relay status of the current client, if there is one.
pub fn relay_status(client: Option<&RelayClient>) -> (status: RelayStatus)
    ensures
        client is None ==> !status.connected && status.state@ == "disconnected"@
            && status.peer_id is None,
        client matches Some(c) ==> {
            &&& status.connected == (c@.state == ConnectionState::Connected)
            &&& status.state@ == state_name(c@.state)
            &&& status.peer_id matches Some(p) && p@ == base58_encoding(c@.peer_id)
        },
{
    match client {
        Some(c) => {
            let conn_state = c.state();
            RelayStatus {
                connected: conn_state == ConnectionState::Connected,
                state: String::from_str(connection_state_name(conn_state)),
                peer_id: Some(derive_peer_id(&c.peer_id())),
            }
        },
        None => RelayStatus {
            connected: false,
            state: String::from_str("disconnected"),
            peer_id: None,
        },
    }
}

} // verus!
