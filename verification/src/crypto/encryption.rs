//! Message encryption using XChaCha20-Poly1305.
//!
//! Uses ephemeral keys for forward secrecy:
//! - Sender generates ephemeral X25519 keypair
//! - Shared secret derived via X25519 key exchange with the recipient's
//!   Ed25519 key in its X25519 form
//! - Message encrypted with XChaCha20-Poly1305 under SHA-256 of the secret
//! - Format: [nonce (24)][ephemeral_pk (32)][ciphertext][tag (16)]

use vstd::prelude::*;
use crate::bytes::{append_bytes, copy_array};
use chacha20poly1305::aead::{Aead, AeadCore, KeyInit};
use chacha20poly1305::{Key, XChaCha20Poly1305, XNonce};
use ed25519_dalek::{SigningKey, VerifyingKey};
use rand::RngCore;
use sha2::{Digest, Sha256};
use x25519_dalek::{PublicKey as X25519PublicKey, StaticSecret};
use crate::crypto::keys::{
    ed25519_montgomery, ed25519_public_key, ed25519_scalar_bytes, x25519_public_key,
};

verus! {

/// Nonce size for XChaCha20-Poly1305
pub const NONCE_SIZE: usize = 24;

/// Public key size for X25519
pub const X25519_PK_SIZE: usize = 32;

/// Authentication tag size
pub const TAG_SIZE: usize = 16;

/// Longest plaintext the cipher takes: it refuses a message of
/// `u32::MAX` or more 64-byte blocks.
pub const MAX_PLAINTEXT_LEN: u64 = 274877906880;

// ---------------------------------------------------------------------------
// Names for what the primitives compute
// ---------------------------------------------------------------------------

/// SHA-256 of a byte string.
pub uninterp spec fn sha256(data: Seq<u8>) -> Seq<u8>;

/// The X25519 shared secret of a 32-byte secret and a 32-byte public key.
pub uninterp spec fn x25519_shared_secret(secret: Seq<u8>, public: Seq<u8>) -> Seq<u8>;

/// XChaCha20-Poly1305 encryption (ciphertext with the tag appended) of a
/// plaintext under a 32-byte key and a 24-byte nonce, with no associated data.
pub uninterp spec fn xchacha20poly1305_seal(key: Seq<u8>, nonce: Seq<u8>, plaintext: Seq<u8>) -> Seq<u8>;

/// XChaCha20-Poly1305 decryption, `None` where the tag does not check.
pub uninterp spec fn xchacha20poly1305_open(key: Seq<u8>, nonce: Seq<u8>, ciphertext: Seq<u8>) -> Option<Seq<u8>>;

/// The bytes held by an optional byte vector.
pub open spec fn bytes_option_view(o: Option<Vec<u8>>) -> Option<Seq<u8>> {
    match o {
        Some(v) => Some(v@),
        None => None,
    }
}

/// The bytes held by an optional 32-byte key.
pub open spec fn key_option_view(o: Option<[u8; 32]>) -> Option<Seq<u8>> {
    match o {
        Some(k) => Some(k@),
        None => None,
    }
}

// ---------------------------------------------------------------------------
// Trusted calls
// ---------------------------------------------------------------------------

/// Calls `Sha256::digest`. Claimed: the digest is `sha256` of the data.
#[verifier::external_body]
fn sha256_digest(data: &[u8]) -> (h: [u8; 32])
    ensures
        h@ == sha256(data@),
{
    Sha256::digest(data).into()
}

/// Convert Ed25519 signing key to X25519 static secret. Calls
/// `SigningKey::to_scalar_bytes`. Claimed: the result is
/// `ed25519_scalar_bytes`, and (as ed25519-dalek documents) it is the X25519
/// secret whose public key is the X25519 form of the signing key's own public
/// key.
#[verifier::external_body]
fn ed25519_to_x25519_secret(ed_secret: &[u8; 32]) -> (x: [u8; 32])
    ensures
        x@ == ed25519_scalar_bytes(ed_secret@),
        ed25519_montgomery(ed25519_public_key(ed_secret@)) == Some(x25519_public_key(x@)),
{
    SigningKey::from_bytes(ed_secret).to_scalar_bytes()
}

/// Convert Ed25519 verifying key bytes to X25519 public key. Calls
/// `VerifyingKey::from_bytes` and `VerifyingKey::to_montgomery`. Claimed:
/// the result is `ed25519_montgomery` of the bytes.
#[verifier::external_body]
fn ed25519_pk_to_x25519(ed_pk: &[u8; 32]) -> (u: Option<[u8; 32]>)
    ensures
        key_option_view(u) == ed25519_montgomery(ed_pk@),
{
    match VerifyingKey::from_bytes(ed_pk) {
        Ok(key) => Some(key.to_montgomery().to_bytes()),
        Err(_) => None,
    }
}

/// Calls `PublicKey::from(&StaticSecret)`. Claimed: the result is
/// `x25519_public_key` of the secret.
#[verifier::external_body]
fn x25519_public_from_secret(secret: &[u8; 32]) -> (public: [u8; 32])
    ensures
        public@ == x25519_public_key(secret@),
{
    X25519PublicKey::from(&StaticSecret::from(*secret)).to_bytes()
}

/// Calls `StaticSecret::diffie_hellman`. Claimed: the result is
/// `x25519_shared_secret` of the secret and public key, and both sides of an
/// exchange reach the same secret (the defining property of X25519).
#[verifier::external_body]
fn x25519_diffie_hellman(secret: &[u8; 32], public: &[u8; 32]) -> (shared: [u8; 32])
    ensures
        shared@ == x25519_shared_secret(secret@, public@),
        forall|other: Seq<u8>|
            #![trigger x25519_shared_secret(other, x25519_public_key(secret@))]
            other.len() == 32 && public@ == x25519_public_key(other) ==> shared@
                == x25519_shared_secret(other, x25519_public_key(secret@)),
{
    StaticSecret::from(*secret).diffie_hellman(&X25519PublicKey::from(*public)).to_bytes()
}

/// Fills 32 bytes from the operating system's random source (the secret of an
/// ephemeral X25519 keypair). Nothing is claimed of the bytes.
#[verifier::external_body]
fn random_secret_bytes() -> (bytes: [u8; 32]) {
    let mut bytes = [0u8; 32];
    rand::rngs::OsRng.fill_bytes(&mut bytes);
    bytes
}

/// Calls `XChaCha20Poly1305::generate_nonce` with the operating system's
/// random source. Nothing is claimed of the nonce.
#[verifier::external_body]
fn random_nonce() -> (nonce: [u8; 24]) {
    XChaCha20Poly1305::generate_nonce(&mut rand::rngs::OsRng).into()
}

/// Calls `Aead::encrypt` of XChaCha20-Poly1305. Claimed: the result is
/// `xchacha20poly1305_seal` and is the plaintext's length plus the tag. The
/// cipher refuses only a plaintext of `MAX_PLAINTEXT_LEN` bytes or more,
/// which `requires` leaves out.
#[verifier::external_body]
fn xchacha_seal(key: &[u8; 32], nonce: &[u8; 24], plaintext: &[u8]) -> (c: Vec<u8>)
    requires
        plaintext@.len() < MAX_PLAINTEXT_LEN,
        plaintext@.len() + TAG_SIZE <= usize::MAX,
    ensures
        c@ == xchacha20poly1305_seal(key@, nonce@, plaintext@),
        c@.len() == plaintext@.len() + TAG_SIZE,
{
    XChaCha20Poly1305::new(Key::from_slice(key)).encrypt(XNonce::from_slice(nonce), plaintext).expect(
        "plaintext within the cipher's limit",
    )
}

/// Calls `Aead::decrypt` of XChaCha20-Poly1305. Claimed: the result is
/// `xchacha20poly1305_open`, and an honest encryption under the same key and
/// nonce decrypts to its plaintext (the correctness of the AEAD). That other
/// input fails is a security property and is not claimed.
#[verifier::external_body]
fn xchacha_open(key: &[u8; 32], nonce: &[u8; 24], ciphertext: &[u8]) -> (p: Option<Vec<u8>>)
    ensures
        bytes_option_view(p) == xchacha20poly1305_open(key@, nonce@, ciphertext@),
        forall|m: Seq<u8>|
            #![trigger xchacha20poly1305_seal(key@, nonce@, m)]
            ciphertext@ == xchacha20poly1305_seal(key@, nonce@, m) ==> bytes_option_view(p)
                == Some(m),
{
    match XChaCha20Poly1305::new(Key::from_slice(key)).decrypt(XNonce::from_slice(nonce), ciphertext) {
        Ok(v) => Some(v),
        Err(_) => None,
    }
}

// ---------------------------------------------------------------------------
// Framing
// ---------------------------------------------------------------------------

/// The bytes of a message encrypted for the X25519 public key `recipient`
/// with ephemeral secret `ephemeral` and nonce `nonce`.
pub open spec fn sealed_message(
    recipient: Seq<u8>,
    ephemeral: Seq<u8>,
    nonce: Seq<u8>,
    plaintext: Seq<u8>,
) -> Seq<u8> {
    nonce + x25519_public_key(ephemeral) + xchacha20poly1305_seal(
        sha256(x25519_shared_secret(ephemeral, recipient)),
        nonce,
        plaintext,
    )
}

/// The sizes that the parts of a sealed message have.
pub open spec fn sealed_message_shape(
    recipient: Seq<u8>,
    ephemeral: Seq<u8>,
    nonce: Seq<u8>,
    plaintext: Seq<u8>,
) -> bool {
    &&& ephemeral.len() == 32
    &&& nonce.len() == NONCE_SIZE
    &&& x25519_public_key(ephemeral).len() == X25519_PK_SIZE
    &&& xchacha20poly1305_seal(
        sha256(x25519_shared_secret(ephemeral, recipient)),
        nonce,
        plaintext,
    ).len() == plaintext.len() + TAG_SIZE
}

/// What a message at least `NONCE_SIZE + X25519_PK_SIZE + TAG_SIZE` long
/// decrypts to under an Ed25519 secret key.
pub open spec fn opened_message(ciphertext: Seq<u8>, recipient_secret: Seq<u8>) -> Option<Seq<u8>> {
    xchacha20poly1305_open(
        sha256(
            x25519_shared_secret(
                ed25519_scalar_bytes(recipient_secret),
                ciphertext.subrange(24, 56),
            ),
        ),
        ciphertext.subrange(0, 24),
        ciphertext.subrange(56, ciphertext.len() as int),
    )
}

/// The bytes of a message encrypted under a symmetric key with `nonce`.
pub open spec fn sealed_with_key(key: Seq<u8>, nonce: Seq<u8>, plaintext: Seq<u8>) -> Seq<u8> {
    nonce + xchacha20poly1305_seal(key, nonce, plaintext)
}

/// The sizes that the parts of a symmetrically sealed message have.
pub open spec fn sealed_with_key_shape(key: Seq<u8>, nonce: Seq<u8>, plaintext: Seq<u8>) -> bool {
    &&& nonce.len() == NONCE_SIZE
    &&& xchacha20poly1305_seal(key, nonce, plaintext).len() == plaintext.len() + TAG_SIZE
}

/// The X25519 public key that a message for the Ed25519 public key bytes
/// `pk` is encrypted to: the key's X25519 (Montgomery) form; bytes that are
/// not an Ed25519 point are hashed with SHA-256 into X25519 key bytes, so
/// that every 32 bytes can be encrypted to (no secret key matches those).
pub open spec fn recipient_x25519(pk: Seq<u8>) -> Seq<u8> {
    match ed25519_montgomery(pk) {
        Some(u) => u,
        None => sha256(pk),
    }
}

/// Encrypt a message for a recipient with a given ephemeral X25519 secret
/// and nonce: `[nonce (24)][ephemeral_pk (32)][ciphertext][tag (16)]`.
pub fn encrypt_with(
    plaintext: &[u8],
    recipient_pk: &[u8; 32],
    ephemeral_secret: &[u8; 32],
    nonce: &[u8; 24],
) -> (c: Vec<u8>)
    requires
        plaintext@.len() < MAX_PLAINTEXT_LEN,
        plaintext@.len() + NONCE_SIZE + X25519_PK_SIZE + TAG_SIZE <= usize::MAX,
    ensures
        c@ == sealed_message(recipient_x25519(recipient_pk@), ephemeral_secret@, nonce@, plaintext@),
        sealed_message_shape(recipient_x25519(recipient_pk@), ephemeral_secret@, nonce@, plaintext@),
{
    let recipient_x25519 = match ed25519_pk_to_x25519(recipient_pk) {
        Some(u) => u,
        None => sha256_digest(recipient_pk),
    };
    let ephemeral_public = x25519_public_from_secret(ephemeral_secret);

    // Shared secret and the key derived from it
    let shared_secret = x25519_diffie_hellman(ephemeral_secret, &recipient_x25519);
    let key = sha256_digest(&shared_secret);
    let ciphertext = xchacha_seal(&key, nonce, plaintext);

    let mut output: Vec<u8> = Vec::new();
    append_bytes(&mut output, nonce);
    append_bytes(&mut output, &ephemeral_public);
    append_bytes(&mut output, ciphertext.as_slice());
    assert(output@ =~= sealed_message(
        recipient_x25519@,
        ephemeral_secret@,
        nonce@,
        plaintext@,
    ));
    output
}

/// Encrypt a message for a recipient using ephemeral key exchange: a fresh
/// ephemeral secret and nonce are drawn, then `encrypt_with` frames it.
///
/// Returns: [nonce (24)][ephemeral_pk (32)][ciphertext][tag (16)]
pub fn encrypt(plaintext: &[u8], recipient_pk: &[u8; 32], _sender_sk: &[u8; 32]) -> (c: Vec<u8>)
    requires
        plaintext@.len() < MAX_PLAINTEXT_LEN,
        plaintext@.len() + NONCE_SIZE + X25519_PK_SIZE + TAG_SIZE <= usize::MAX,
    ensures
        exists|ephemeral: Seq<u8>, nonce: Seq<u8>|
            #![trigger sealed_message(recipient_x25519(recipient_pk@), ephemeral, nonce, plaintext@)]
            sealed_message_shape(recipient_x25519(recipient_pk@), ephemeral, nonce, plaintext@)
                && c@ == sealed_message(
                recipient_x25519(recipient_pk@),
                ephemeral,
                nonce,
                plaintext@,
            ),
        c@.len() == plaintext@.len() + NONCE_SIZE + X25519_PK_SIZE + TAG_SIZE,
{
    let ephemeral_secret = random_secret_bytes();
    let nonce = random_nonce();
    encrypt_with(plaintext, recipient_pk, &ephemeral_secret, &nonce)
}

/// Decrypt a message using the recipient's secret key.
///
/// A message that `encrypt` made for the public key of `recipient_sk`
/// decrypts to its plaintext.
pub fn decrypt(ciphertext: &[u8], _sender_pk: &[u8; 32], recipient_sk: &[u8; 32]) -> (r: Result<
    Vec<u8>,
    &'static str,
>)
    ensures
        ciphertext@.len() < NONCE_SIZE + X25519_PK_SIZE + TAG_SIZE ==> (r matches Err(e) && e@
            == "ciphertext too short"@),
        ciphertext@.len() >= NONCE_SIZE + X25519_PK_SIZE + TAG_SIZE ==> match opened_message(
            ciphertext@,
            recipient_sk@,
        ) {
            Some(p) => r matches Ok(v) && v@ == p,
            None => r matches Err(e) && e@ == "decryption failed"@,
        },
        forall|u: Seq<u8>, ephemeral: Seq<u8>, nonce: Seq<u8>, p: Seq<u8>|
            #![trigger sealed_message(u, ephemeral, nonce, p)]
            ed25519_montgomery(ed25519_public_key(recipient_sk@)) == Some(u)
                && sealed_message_shape(u, ephemeral, nonce, p) && ciphertext@ == sealed_message(
                u,
                ephemeral,
                nonce,
                p,
            ) ==> (r matches Ok(v) && v@ == p),
{
    if ciphertext.len() < NONCE_SIZE + X25519_PK_SIZE + TAG_SIZE {
        proof {
            assert forall|u: Seq<u8>, ephemeral: Seq<u8>, nonce: Seq<u8>, p: Seq<u8>|
                sealed_message_shape(u, ephemeral, nonce, p) && ciphertext@ == sealed_message(
                    u,
                    ephemeral,
                    nonce,
                    p,
                ) implies false by {
                assert(sealed_message(u, ephemeral, nonce, p).len() == p.len() + 72);
            }
        }
        return Err("ciphertext too short");
    }
    let nonce: [u8; 24] = copy_array(ciphertext, 0);
    let ephemeral_pk: [u8; 32] = copy_array(ciphertext, NONCE_SIZE);
    let encrypted = &ciphertext[NONCE_SIZE + X25519_PK_SIZE..ciphertext.len()];

    let recipient_x25519 = ed25519_to_x25519_secret(recipient_sk);
    let shared_secret = x25519_diffie_hellman(&recipient_x25519, &ephemeral_pk);
    let key = sha256_digest(&shared_secret);
    let opened = xchacha_open(&key, &nonce, encrypted);

    proof {
        assert forall|u: Seq<u8>, ephemeral: Seq<u8>, n: Seq<u8>, p: Seq<u8>|
            ed25519_montgomery(ed25519_public_key(recipient_sk@)) == Some(u)
                && sealed_message_shape(u, ephemeral, n, p) && ciphertext@ == sealed_message(
                u,
                ephemeral,
                n,
                p,
            ) implies (opened matches Some(v) && v@ == p) by {
            let c = sealed_message(u, ephemeral, n, p);
            let k = sha256(x25519_shared_secret(ephemeral, u));
            assert(c.subrange(0, 24) =~= n);
            assert(c.subrange(24, 56) =~= x25519_public_key(ephemeral));
            assert(c.subrange(56, c.len() as int) =~= xchacha20poly1305_seal(k, n, p));
            assert(ephemeral_pk@ == x25519_public_key(ephemeral));
            assert(u == x25519_public_key(recipient_x25519@));
            assert(shared_secret@ == x25519_shared_secret(ephemeral, x25519_public_key(recipient_x25519@)));
            assert(key@ == k);
            assert(encrypted@ == xchacha20poly1305_seal(key@, nonce@, p));
        }
        assert(nonce@ =~= ciphertext@.subrange(0, 24));
        assert(encrypted@ =~= ciphertext@.subrange(56, ciphertext@.len() as int));
    }
    match opened {
        Some(plaintext) => Ok(plaintext),
        None => Err("decryption failed"),
    }
}

/// Encrypt with a symmetric key under a given nonce:
/// `[nonce (24)][ciphertext][tag (16)]`.
pub fn encrypt_symmetric_with(plaintext: &[u8], key: &[u8; 32], nonce: &[u8; 24]) -> (c: Vec<u8>)
    requires
        plaintext@.len() < MAX_PLAINTEXT_LEN,
        plaintext@.len() + NONCE_SIZE + TAG_SIZE <= usize::MAX,
    ensures
        c@ == sealed_with_key(key@, nonce@, plaintext@),
        sealed_with_key_shape(key@, nonce@, plaintext@),
{
    let ciphertext = xchacha_seal(key, nonce, plaintext);
    let mut output: Vec<u8> = Vec::new();
    append_bytes(&mut output, nonce);
    append_bytes(&mut output, ciphertext.as_slice());
    assert(output@ =~= sealed_with_key(key@, nonce@, plaintext@));
    output
}

/// Encrypt with a symmetric key (for local storage), under a fresh nonce.
///
/// Returns: [nonce (24)][ciphertext][tag (16)].
pub fn encrypt_symmetric(plaintext: &[u8], key: &[u8; 32]) -> (c: Vec<u8>)
    requires
        plaintext@.len() < MAX_PLAINTEXT_LEN,
        plaintext@.len() + NONCE_SIZE + TAG_SIZE <= usize::MAX,
    ensures
        exists|nonce: Seq<u8>|
            #![trigger sealed_with_key(key@, nonce, plaintext@)]
            sealed_with_key_shape(key@, nonce, plaintext@) && c@ == sealed_with_key(
                key@,
                nonce,
                plaintext@,
            ),
        c@.len() == plaintext@.len() + NONCE_SIZE + TAG_SIZE,
{
    let nonce = random_nonce();
    encrypt_symmetric_with(plaintext, key, &nonce)
}

/// Decrypt with a symmetric key.
///
/// What `encrypt_symmetric` made under the same key decrypts to its
/// plaintext.
pub fn decrypt_symmetric(ciphertext: &[u8], key: &[u8; 32]) -> (r: Result<Vec<u8>, &'static str>)
    ensures
        ciphertext@.len() < NONCE_SIZE + TAG_SIZE ==> (r matches Err(e) && e@
            == "ciphertext too short"@),
        ciphertext@.len() >= NONCE_SIZE + TAG_SIZE ==> match xchacha20poly1305_open(
            key@,
            ciphertext@.subrange(0, 24),
            ciphertext@.subrange(24, ciphertext@.len() as int),
        ) {
            Some(p) => r matches Ok(v) && v@ == p,
            None => r matches Err(e) && e@ == "decryption failed"@,
        },
        forall|nonce: Seq<u8>, p: Seq<u8>|
            #![trigger sealed_with_key(key@, nonce, p)]
            sealed_with_key_shape(key@, nonce, p) && ciphertext@ == sealed_with_key(key@, nonce, p)
                ==> (r matches Ok(v) && v@ == p),
{
    if ciphertext.len() < NONCE_SIZE + TAG_SIZE {
        proof {
            assert forall|nonce: Seq<u8>, p: Seq<u8>|
                sealed_with_key_shape(key@, nonce, p) && ciphertext@ == sealed_with_key(
                    key@,
                    nonce,
                    p,
                ) implies false by {
                assert(sealed_with_key(key@, nonce, p).len() == p.len() + 40);
            }
        }
        return Err("ciphertext too short");
    }
    let nonce: [u8; 24] = copy_array(ciphertext, 0);
    let encrypted = &ciphertext[NONCE_SIZE..ciphertext.len()];
    let opened = xchacha_open(key, &nonce, encrypted);
    proof {
        assert forall|n: Seq<u8>, p: Seq<u8>|
            sealed_with_key_shape(key@, n, p) && ciphertext@ == sealed_with_key(
                key@,
                n,
                p,
            ) implies (opened matches Some(v) && v@ == p) by {
            let c = sealed_with_key(key@, n, p);
            assert(c.subrange(0, 24) =~= n);
            assert(c.subrange(24, c.len() as int) =~= xchacha20poly1305_seal(key@, n, p));
            assert(encrypted@ == xchacha20poly1305_seal(key@, nonce@, p));
        }
        assert(nonce@ =~= ciphertext@.subrange(0, 24));
        assert(encrypted@ =~= ciphertext@.subrange(24, ciphertext@.len() as int));
    }
    match opened {
        Some(plaintext) => Ok(plaintext),
        None => Err("decryption failed"),
    }
}

} // verus!
