//! Identity commands: what the frontend is shown of the identity, and the
//! link (QR) text that others scan to add it.

use vstd::prelude::*;
use vstd::string::*;
use vstd::utf8::encode_utf8;
use crate::codec::{hex_encode, hex_text, hex_value, law_hex_roundtrip};
use crate::commands::contacts::{is_link, link_text};
use crate::storage::identity::StoredIdentity;

verus! {

/// Identity info returned to frontend
#[derive(Debug, Clone)]
pub struct IdentityInfo {
    pub peer_id: String,
    /// The public key in hex.
    pub public_key: String,
    pub is_locked: bool,
    pub created_at: i64,
}

/// Error wrapper for commands
#[derive(Debug, Clone)]
pub struct CommandError {
    pub message: String,
}

/// What the frontend is shown of a stored identity.
pub fn identity_info(stored: &StoredIdentity, is_locked: bool) -> (info: IdentityInfo)
    ensures
        info.peer_id@ == stored.peer_id@,
        info.public_key@ == hex_text(stored.public_key@),
        info.is_locked == is_locked,
        info.created_at == stored.created_at,
{
    IdentityInfo {
        peer_id: stored.peer_id.clone(),
        public_key: hex_encode(stored.public_key.as_slice()),
        is_locked,
        created_at: stored.created_at,
    }
}

/// Link (QR) text of an identity: `whisper://<peer_id>/<public_key_hex>`.
pub fn link_qr(stored: &StoredIdentity) -> (qr: String)
    ensures
        qr@ == link_text(stored.peer_id@, hex_text(stored.public_key@)),
{
    let mut qr = String::from_str("whisper://");
    qr.append(stored.peer_id.as_str());
    qr.append("/");
    let key_hex = hex_encode(stored.public_key.as_slice());
    qr.append(key_hex.as_str());
    proof {
        reveal_strlit("/");
        assert(qr@ =~= link_text(stored.peer_id@, hex_text(stored.public_key@)));
    }
    qr
}

/// The link text of a peer id without `/` reads back, through
/// `parse_link_qr`, as that peer id and public key.
pub proof fn law_link_qr_roundtrip(peer_id: Seq<char>, public_key: Seq<u8>)
    requires
        !peer_id.contains('/'),
    ensures
        is_link(link_text(peer_id, hex_text(public_key)), peer_id, hex_text(public_key)),
        hex_value(encode_utf8(hex_text(public_key))) == Some(public_key),
{
    law_hex_roundtrip(public_key);
}

} // verus!
