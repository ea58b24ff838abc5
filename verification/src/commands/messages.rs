//! Message commands: the relay address of a peer.

use vstd::prelude::*;
use vstd::string::*;
use vstd::utf8::encode_utf8;
use crate::bytes::copy_array;
use crate::crypto::encryption::{
    encrypt, recipient_x25519, sealed_message, sealed_message_shape, MAX_PLAINTEXT_LEN, NONCE_SIZE, TAG_SIZE,
    X25519_PK_SIZE,
};
use crate::crypto::keys::base58_encoding;

verus! {

/// Error wrapper for commands
#[derive(Debug, Clone)]
pub struct CommandError {
    pub message: String,
}

/// The bytes that Base58 text stands for, or the decoder's error message.
pub uninterp spec fn base58_decoding(text: Seq<char>) -> Result<Seq<u8>, Seq<char>>;

/// The view of a byte-or-message result.
pub open spec fn bytes_or_message(r: Result<Vec<u8>, String>) -> Result<Seq<u8>, Seq<char>> {
    match r {
        Ok(v) => Ok(v@),
        Err(e) => Err(e@),
    }
}

/// Whether a result holds exactly the given bytes.
pub open spec fn bytes_are(r: Result<Vec<u8>, String>, b: Seq<u8>) -> bool {
    r matches Ok(v) && v@ == b
}

/// Calls `bs58::decode(..).into_vec()` and formats its error. Claimed: the
/// result is `base58_decoding` of the text, and the Base58 text of bytes
/// decodes to those bytes.
#[verifier::external_body]
fn bs58_decode(text: &str) -> (r: Result<Vec<u8>, String>)
    ensures
        bytes_or_message(r) == base58_decoding(text@),
        forall|b: Seq<u8>|
            #![trigger base58_encoding(b)]
            text@ == base58_encoding(b) ==> bytes_are(r, b),
{
    match bs58::decode(text).into_vec() {
        Ok(v) => Ok(v),
        Err(e) => Err(e.to_string()),
    }
}

/// The 32-byte relay address (public key) that a peer id stands for.
pub fn recipient_from_peer_id(peer_id: &str) -> (r: Result<[u8; 32], CommandError>)
    ensures
        base58_decoding(peer_id@) matches Err(m) ==> (r matches Err(e) && e.message@
            == "Invalid peer_id: "@ + m),
        base58_decoding(peer_id@) matches Ok(b) ==> if b.len() == 32 {
            r matches Ok(a) && a@ == b
        } else {
            r matches Err(e) && e.message@ == "Invalid peer_id length"@
        },
        forall|k: Seq<u8>|
            #![trigger base58_encoding(k)]
            k.len() == 32 && peer_id@ == base58_encoding(k) ==> (r matches Ok(a) && a@ == k),
{
    let recipient = match bs58_decode(peer_id) {
        Ok(v) => v,
        Err(e) => {
            let mut message = String::from_str("Invalid peer_id: ");
            message.append(e.as_str());
            return Err(CommandError { message });
        },
    };
    if recipient.len() != 32 {
        return Err(CommandError { message: String::from_str("Invalid peer_id length") });
    }
    let recipient_arr: [u8; 32] = copy_array(recipient.as_slice(), 0);
    assert(recipient_arr@ =~= recipient@);
    Ok(recipient_arr)
}

/// Whether `payload` is `plaintext` encrypted (with some ephemeral secret and
/// nonce) for the recipient whose Ed25519 key bytes are `key`.
pub open spec fn sealed_for(payload: Seq<u8>, key: Seq<u8>, plaintext: Seq<u8>) -> bool {
    exists|ephemeral: Seq<u8>, nonce: Seq<u8>|
        #![trigger sealed_message(recipient_x25519(key), ephemeral, nonce, plaintext)]
        sealed_message_shape(recipient_x25519(key), ephemeral, nonce, plaintext) && payload
            == sealed_message(recipient_x25519(key), ephemeral, nonce, plaintext)
}

/// What is sent to a peer for a message: the peer's relay address and the
/// message text encrypted for that peer's key, so that the relay sees only
/// ciphertext.
pub fn outgoing_message(peer_id: &str, content: &str, sender_sk: &[u8; 32]) -> (r: Result<
    ([u8; 32], Vec<u8>),
    CommandError,
>)
    requires
        encode_utf8(content@).len() < MAX_PLAINTEXT_LEN,
        encode_utf8(content@).len() + NONCE_SIZE + X25519_PK_SIZE + TAG_SIZE <= usize::MAX,
    ensures
        base58_decoding(peer_id@) matches Err(m) ==> (r matches Err(e) && e.message@
            == "Invalid peer_id: "@ + m),
        base58_decoding(peer_id@) matches Ok(b) ==> if b.len() != 32 {
            r matches Err(e) && e.message@ == "Invalid peer_id length"@
        } else {
            r matches Ok((recipient, payload)) && recipient@ == b && sealed_for(
                payload@,
                b,
                encode_utf8(content@),
            )
        },
        forall|k: Seq<u8>|
            #![trigger base58_encoding(k)]
            k.len() == 32 && peer_id@ == base58_encoding(k) ==> (r matches Ok((recipient, payload))
                && recipient@ == k && sealed_for(payload@, k, encode_utf8(content@))),
{
    let recipient = match recipient_from_peer_id(peer_id) {
        Ok(k) => k,
        Err(e) => return Err(e),
    };
    assert(content.spec_bytes() == encode_utf8(content@));
    let payload = encrypt(content.as_bytes(), &recipient, sender_sk);
    Ok((recipient, payload))
}

} // verus!
