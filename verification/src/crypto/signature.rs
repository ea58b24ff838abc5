//! Ed25519 signatures for message authentication.

use vstd::prelude::*;
use ed25519_dalek::{Signature, Signer, SigningKey, Verifier, VerifyingKey};
use crate::crypto::keys::ed25519_public_key;

verus! {

/// The Ed25519 signature of a message under a 32-byte secret key.
pub uninterp spec fn ed25519_signature(secret: Seq<u8>, message: Seq<u8>) -> Seq<u8>;

/// Whether a signature verifies for a message under a public key.
pub uninterp spec fn ed25519_verifies(public: Seq<u8>, message: Seq<u8>, signature: Seq<u8>) -> bool;

/// Sign a message with the secret key. Calls `SigningKey::sign` (Ed25519 is
/// deterministic); claimed: the signature is `ed25519_signature` of the key
/// and message.
#[verifier::external_body]
pub fn sign(message: &[u8], secret: &[u8; 32]) -> (signature: [u8; 64])
    ensures
        signature@ == ed25519_signature(secret@, message@),
{
    SigningKey::from_bytes(secret).sign(message).to_bytes()
}

/// Verify a signature against a message and public key. Calls
/// `VerifyingKey::from_bytes` and `Verifier::verify`; bytes that are not a
/// public key verify nothing. Claimed: the answer is `ed25519_verifies`, and
/// a signature made with a secret key verifies under that key's public key
/// (the correctness of Ed25519). That a wrong key or a changed message fails
/// is a security property and is not claimed.
#[verifier::external_body]
pub fn verify(message: &[u8], signature: &[u8; 64], public: &[u8; 32]) -> (ok: bool)
    ensures
        ok == ed25519_verifies(public@, message@, signature@),
        forall|s: Seq<u8>|
            #![trigger ed25519_signature(s, message@)]
            s.len() == 32 && public@ == ed25519_public_key(s) && signature@ == ed25519_signature(
                s,
                message@,
            ) ==> ok,
{
    match VerifyingKey::from_bytes(public) {
        Ok(key) => key.verify(message, &Signature::from_bytes(signature)).is_ok(),
        Err(_) => false,
    }
}

} // verus!
