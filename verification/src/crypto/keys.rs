//! Key generation and management.
//!
//! Keys are held as their byte encodings: a secret key is the 32-byte
//! Ed25519 seed, a public key the 32-byte compressed Edwards point.

use vstd::prelude::*;
use ed25519_dalek::SigningKey;

verus! {

/// The Ed25519 public key (verifying key bytes) of a 32-byte secret key.
pub uninterp spec fn ed25519_public_key(secret: Seq<u8>) -> Seq<u8>;

/// The first half of SHA-512 of an Ed25519 secret key: the unclamped scalar
/// that also serves as the matching X25519 secret.
pub uninterp spec fn ed25519_scalar_bytes(secret: Seq<u8>) -> Seq<u8>;

/// The X25519 (Montgomery u-coordinate) form of an Ed25519 public key, or
/// `None` where the bytes are not a valid compressed Edwards point.
pub uninterp spec fn ed25519_montgomery(public: Seq<u8>) -> Option<Seq<u8>>;

/// The X25519 public key of a 32-byte X25519 secret.
pub uninterp spec fn x25519_public_key(secret: Seq<u8>) -> Seq<u8>;

/// The Base58 (Bitcoin alphabet) text of a byte string.
pub uninterp spec fn base58_encoding(bytes: Seq<u8>) -> Seq<char>;

/// Calls `SigningKey::generate` with the operating system's random source
/// and returns the secret key's bytes. Nothing is claimed of the bytes.
#[verifier::external_body]
fn ed25519_generate_secret() -> (secret: [u8; 32]) {
    SigningKey::generate(&mut rand::rngs::OsRng).to_bytes()
}

/// Calls `SigningKey::from_bytes` and `SigningKey::verifying_key`. Claimed:
/// the result is `ed25519_public_key` of the secret bytes, and, being the
/// compression of a curve point, it has an X25519 form.
#[verifier::external_body]
fn ed25519_verifying_key(secret: &[u8; 32]) -> (public: [u8; 32])
    ensures
        public@ == ed25519_public_key(secret@),
        ed25519_montgomery(public@) is Some,
{
    SigningKey::from_bytes(secret).verifying_key().to_bytes()
}

/// Generate a new Ed25519 keypair: the secret key and its public key.
pub fn generate_keypair() -> (pair: ([u8; 32], [u8; 32]))
    ensures
        pair.1@ == ed25519_public_key(pair.0@),
        ed25519_montgomery(pair.1@) is Some,
{
    let signing_key = ed25519_generate_secret();
    let verifying_key = ed25519_verifying_key(&signing_key);
    (signing_key, verifying_key)
}

/// The public key of a secret key.
pub fn verifying_key(secret: &[u8; 32]) -> (public: [u8; 32])
    ensures
        public@ == ed25519_public_key(secret@),
        ed25519_montgomery(public@) is Some,
{
    ed25519_verifying_key(secret)
}

/// Derive peer ID from public key (Base58 encoded string). Calls
/// `bs58::encode(..).into_string()`; claimed: the text is
/// `base58_encoding` of the key bytes, and it is not empty (every leading
/// zero byte gives a `1`, and any other byte a nonzero digit).
#[verifier::external_body]
pub fn derive_peer_id(public_key: &[u8; 32]) -> (id: String)
    ensures
        id@ == base58_encoding(public_key@),
        id@.len() > 0,
{
    bs58::encode(public_key).into_string()
}

/// Get peer ID as raw bytes (for wire protocol).
pub fn peer_id_bytes(public_key: &[u8; 32]) -> (id: [u8; 32])
    ensures
        id@ == public_key@,
{
    *public_key
}

} // verus!
