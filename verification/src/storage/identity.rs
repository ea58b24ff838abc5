//! Identity records and the sealing of the identity's secret key.
//!
//! The secret key is stored encrypted under a key derived from the user's
//! passphrase with Argon2id: the first 32 bytes of the PHC (B64) text of the
//! Argon2 output for the passphrase and a random salt.

use vstd::prelude::*;
use vstd::string::*;
use crate::text::joined;
use vstd::utf8::encode_utf8;
use argon2::password_hash::{PasswordHasher, SaltString};
use argon2::Argon2;
use rand::RngCore;
use crate::crypto::encryption::{
    decrypt_symmetric, encrypt_symmetric, sealed_with_key, sealed_with_key_shape,
    xchacha20poly1305_open, NONCE_SIZE, TAG_SIZE,
};
use crate::crypto::keys::{base58_encoding, derive_peer_id, ed25519_public_key, generate_keypair};

verus! {

/// Identity storage errors.
#[derive(Debug, Clone)]
pub enum IdentityError {
    /// An error of the database, with its message.
    Database(String),
    AlreadyExists,
    NotFound,
    InvalidPassphrase,
    Crypto(String),
}

/// Stored identity data.
#[derive(Debug, Clone)]
pub struct StoredIdentity {
    pub peer_id: String,
    pub public_key: Vec<u8>,
    pub created_at: i64,
}

/// What a new identity stores, and its secret key.
#[derive(Debug)]
pub struct NewIdentity {
    pub secret_key: [u8; 32],
    pub peer_id: String,
    pub public_key: Vec<u8>,
    pub encrypted_secret: Vec<u8>,
    pub salt: String,
}

/// Length of the PHC (unpadded B64) text of a 32-byte Argon2 output.
pub const ARGON2_HASH_TEXT_LEN: usize = 43;

/// The bytes of the B64 text of the Argon2id output (default parameters) of
/// a passphrase under a B64 salt, or the error's message.
pub uninterp spec fn argon2_hash_text(passphrase: Seq<char>, salt: Seq<char>) -> Result<
    Seq<u8>,
    Seq<char>,
>;

/// The view of a byte-or-message result.
pub open spec fn text_result_view(r: Result<Vec<u8>, String>) -> Result<Seq<u8>, Seq<char>> {
    match r {
        Ok(v) => Ok(v@),
        Err(e) => Err(e@),
    }
}

/// The unpadded B64 text (the PHC salt encoding) of a byte string.
pub uninterp spec fn b64_encoding(bytes: Seq<u8>) -> Seq<char>;

/// Longest passphrase, in bytes, that Argon2 takes.
pub const MAX_PASSPHRASE_BYTES: u64 = 0xFFFF_FFFF;

/// Whether a salt is the B64 text of 16 bytes, as `SaltString::generate`
/// makes it.
pub open spec fn is_salt_text(salt: Seq<char>) -> bool {
    exists|b: Seq<u8>| #![trigger b64_encoding(b)] b.len() == 16 && salt == b64_encoding(b)
}

/// Whether Argon2 (default parameters) hashes a passphrase under a salt: the
/// passphrase is within Argon2's limit and the salt is the B64 text of 16
/// bytes, as `SaltString::generate` makes it.
pub open spec fn argon2_accepts(passphrase: Seq<char>, salt: Seq<char>) -> bool {
    &&& encode_utf8(passphrase).len() <= MAX_PASSPHRASE_BYTES
    &&& is_salt_text(salt)
}

/// Calls `SaltString::from_b64`, `Argon2::default().hash_password` and
/// formats the output hash. Claimed: the result is `argon2_hash_text` of the
/// passphrase and salt; the output is 32 bytes, so its text is 43 bytes; and
/// the call succeeds where Argon2 takes the inputs (a valid salt decodes to
/// 16 bytes, at least the 8 Argon2 asks for, and the passphrase is at most
/// `MAX_PWD_LEN` bytes: the only failures `verify_inputs` and the salt
/// parser have for the default parameters).
#[verifier::external_body]
fn argon2_hash(passphrase: &str, salt: &str) -> (r: Result<Vec<u8>, String>)
    ensures
        text_result_view(r) == argon2_hash_text(passphrase@, salt@),
        r matches Ok(h) ==> h@.len() == ARGON2_HASH_TEXT_LEN,
        argon2_accepts(passphrase@, salt@) ==> r is Ok,
        encode_utf8(passphrase@).len() > MAX_PASSPHRASE_BYTES ==> r is Err,
{
    let salt = match SaltString::from_b64(salt) {
        Ok(s) => s,
        Err(e) => return Err(e.to_string()),
    };
    match Argon2::default().hash_password(passphrase.as_bytes(), &salt) {
        Ok(hash) => Ok(hash.hash.expect("argon2 sets the output").to_string().into_bytes()),
        Err(e) => Err(e.to_string()),
    }
}

/// Fills 16 bytes from the operating system's random source (the bytes of
/// a salt). Nothing is claimed of the bytes.
#[verifier::external_body]
fn random_salt_bytes() -> (bytes: [u8; 16]) {
    let mut bytes = [0u8; 16];
    rand::rngs::OsRng.fill_bytes(&mut bytes);
    bytes
}

/// Calls `SaltString::encode_b64` and returns its text. Claimed: the text is
/// `b64_encoding` of the bytes. Sixteen bytes make 22 characters, well within
/// the 64 a salt string holds, so the encoding does not fail.
#[verifier::external_body]
fn salt_from_bytes(bytes: &[u8; 16]) -> (salt: String)
    ensures
        salt@ == b64_encoding(bytes@),
{
    SaltString::encode_b64(bytes).expect("16 bytes fit a salt string").as_str().to_owned()
}

/// A fresh random salt, made as `SaltString::generate` makes one: the B64
/// text of 16 random bytes.
fn generate_salt() -> (salt: String)
    ensures
        is_salt_text(salt@),
{
    let bytes = random_salt_bytes();
    let salt = salt_from_bytes(&bytes);
    assert(bytes@.len() == 16);
    salt
}

/// The key that protects the secret key, derived from a passphrase and salt.
pub open spec fn storage_key(passphrase: Seq<char>, salt: Seq<char>) -> Result<Seq<u8>, Seq<char>> {
    match argon2_hash_text(passphrase, salt) {
        Ok(h) => Ok(h.subrange(0, 32)),
        Err(e) => Err(e),
    }
}

/// Whether `e` is a crypto error with the message `msg`.
pub open spec fn crypto_error_with(e: IdentityError, msg: Seq<char>) -> bool {
    e matches IdentityError::Crypto(m) && m@ == msg
}

/// Derive the storage key from a passphrase and a salt.
fn derive_storage_key(passphrase: &str, salt: &str) -> (r: Result<[u8; 32], IdentityError>)
    ensures
        match storage_key(passphrase@, salt@) {
            Ok(k) => r matches Ok(key) && key@ == k,
            Err(msg) => r matches Err(e) && crypto_error_with(e, msg),
        },
        argon2_accepts(passphrase@, salt@) ==> r is Ok,
        encode_utf8(passphrase@).len() > MAX_PASSPHRASE_BYTES ==> r is Err,
{
    let hash = match argon2_hash(passphrase, salt) {
        Ok(h) => h,
        Err(e) => return Err(IdentityError::Crypto(e)),
    };
    // Use the first 32 bytes of the hash text as the encryption key
    let mut key = [0u8; 32];
    let mut i: usize = 0;
    while i < 32
        invariant
            i <= 32,
            hash@.len() == ARGON2_HASH_TEXT_LEN,
            forall|j: int| 0 <= j < i ==> key@[j] == hash@[j],
        decreases 32 - i,
    {
        key[i] = hash[i];
        i = i + 1;
    }
    assert(key@ =~= hash@.subrange(0, 32));
    Ok(key)
}

/// Seal a secret key under a passphrase and salt.
pub fn seal_secret_key(secret: &[u8; 32], passphrase: &str, salt: &str) -> (r: Result<
    Vec<u8>,
    IdentityError,
>)
    ensures
        match storage_key(passphrase@, salt@) {
            Ok(k) => r matches Ok(blob) && blob@.len() == 32 + NONCE_SIZE + TAG_SIZE && exists|
                nonce: Seq<u8>,
            |
                #![trigger sealed_with_key(k, nonce, secret@)]
                sealed_with_key_shape(k, nonce, secret@) && blob@ == sealed_with_key(
                    k,
                    nonce,
                    secret@,
                ),
            Err(msg) => r matches Err(e) && crypto_error_with(e, msg),
        },
        argon2_accepts(passphrase@, salt@) ==> r is Ok,
        encode_utf8(passphrase@).len() > MAX_PASSPHRASE_BYTES ==> r is Err,
{
    let key = match derive_storage_key(passphrase, salt) {
        Ok(k) => k,
        Err(e) => return Err(e),
    };
    Ok(encrypt_symmetric(secret, &key))
}

/// Open a sealed secret key with a passphrase and the salt it was sealed
/// with: a wrong passphrase gives `InvalidPassphrase`. A key sealed by
/// `seal_secret_key` under the same passphrase and salt opens to itself.
pub fn open_secret_key(encrypted: &[u8], passphrase: &str, salt: &str) -> (r: Result<
    [u8; 32],
    IdentityError,
>)
    ensures
        storage_key(passphrase@, salt@) matches Err(msg) ==> (r matches Err(e) && crypto_error_with(
            e,
            msg,
        )),
        storage_key(passphrase@, salt@) matches Ok(k) ==> {
            &&& encrypted@.len() < NONCE_SIZE + TAG_SIZE ==> (r matches Err(
                IdentityError::InvalidPassphrase,
            ))
            &&& encrypted@.len() >= NONCE_SIZE + TAG_SIZE ==> match xchacha20poly1305_open(
                k,
                encrypted@.subrange(0, 24),
                encrypted@.subrange(24, encrypted@.len() as int),
            ) {
                None => r matches Err(IdentityError::InvalidPassphrase),
                Some(p) => if p.len() == 32 {
                    r matches Ok(s) && s@ == p
                } else {
                    r matches Err(e) && crypto_error_with(e, "Invalid key length"@)
                },
            }
            &&& forall|nonce: Seq<u8>, s: Seq<u8>|
                #![trigger sealed_with_key(k, nonce, s)]
                s.len() == 32 && sealed_with_key_shape(k, nonce, s) && encrypted@
                    == sealed_with_key(k, nonce, s) ==> (r matches Ok(key) && key@ == s)
        },
{
    let key = match derive_storage_key(passphrase, salt) {
        Ok(k) => k,
        Err(e) => return Err(e),
    };
    let secret_bytes = match decrypt_symmetric(encrypted, &key) {
        Ok(b) => b,
        Err(_) => return Err(IdentityError::InvalidPassphrase),
    };
    if secret_bytes.len() != 32 {
        return Err(IdentityError::Crypto("Invalid key length".to_owned()));
    }
    let mut secret = [0u8; 32];
    let mut i: usize = 0;
    while i < 32
        invariant
            i <= 32,
            secret_bytes@.len() == 32,
            forall|j: int| 0 <= j < i ==> secret@[j] == secret_bytes@[j],
        decreases 32 - i,
    {
        secret[i] = secret_bytes[i];
        i = i + 1;
    }
    assert(secret@ =~= secret_bytes@);
    Ok(secret)
}

/// Create the records of a new identity: a fresh keypair, its peer id, and
/// the secret key sealed under the passphrase with a fresh salt, so that
/// `open_secret_key` with the passphrase and salt gives the secret key back.
pub fn new_identity(passphrase: &str) -> (r: Result<NewIdentity, IdentityError>)
    ensures
        encode_utf8(passphrase@).len() <= MAX_PASSPHRASE_BYTES ==> r is Ok,
        encode_utf8(passphrase@).len() > MAX_PASSPHRASE_BYTES ==> (r matches Err(e) && e is Crypto),
        r matches Ok(id) ==> {
            &&& id.public_key@.len() == 32
            &&& id.public_key@ == ed25519_public_key(id.secret_key@)
            &&& id.peer_id@.len() > 0
            &&& id.peer_id@ == base58_encoding(id.public_key@)
            &&& storage_key(passphrase@, id.salt@) matches Ok(k) && exists|nonce: Seq<u8>|
                #![trigger sealed_with_key(k, nonce, id.secret_key@)]
                sealed_with_key_shape(k, nonce, id.secret_key@) && id.encrypted_secret@
                    == sealed_with_key(k, nonce, id.secret_key@)
        },
{
    let (signing_key, verifying_key) = generate_keypair();
    let peer_id = derive_peer_id(&verifying_key);
    let public_key = vstd::slice::slice_to_vec(&verifying_key);
    let salt = generate_salt();
    let encrypted_secret = match seal_secret_key(&signing_key, passphrase, salt.as_str()) {
        Ok(b) => b,
        Err(e) => return Err(e),
    };
    assert(public_key@ == verifying_key@);
    let id = NewIdentity { secret_key: signing_key, peer_id, public_key, encrypted_secret, salt };
    assert(id.peer_id@ == base58_encoding(id.public_key@));
    assert(id.public_key@ == ed25519_public_key(id.secret_key@));
    assert(storage_key(passphrase@, id.salt@) is Ok);
    Ok(id)
}

/// Change the passphrase that seals a secret key: open it with the old
/// passphrase and salt, and seal it under the new passphrase with a fresh
/// salt. Returns the new sealed key and salt, which open to the same secret
/// key under the new passphrase.
pub fn reseal_secret_key(
    encrypted: &[u8],
    salt: &str,
    old_passphrase: &str,
    new_passphrase: &str,
) -> (r: Result<(Vec<u8>, String), IdentityError>)
    ensures
        r matches Ok((blob, new_salt)) ==> exists|s: Seq<u8>|
            {
                &&& s.len() == 32
                &&& storage_key(old_passphrase@, salt@) matches Ok(k_old)
                    && xchacha20poly1305_open(
                    k_old,
                    encrypted@.subrange(0, 24),
                    encrypted@.subrange(24, encrypted@.len() as int),
                ) == Some(s)
                &&& storage_key(new_passphrase@, new_salt@) matches Ok(k) && exists|
                    nonce: Seq<u8>,
                |
                    #![trigger sealed_with_key(k, nonce, s)]
                    sealed_with_key_shape(k, nonce, s) && blob@ == sealed_with_key(k, nonce, s)
            },
        storage_key(old_passphrase@, salt@) is Err ==> r is Err,
        storage_key(old_passphrase@, salt@) matches Ok(k_old) && (encrypted@.len() < NONCE_SIZE
            + TAG_SIZE || xchacha20poly1305_open(
            k_old,
            encrypted@.subrange(0, 24),
            encrypted@.subrange(24, encrypted@.len() as int),
        ) is None) ==> (r matches Err(IdentityError::InvalidPassphrase)),
        storage_key(old_passphrase@, salt@) matches Ok(k_old) ==> (encrypted@.len() >= NONCE_SIZE
            + TAG_SIZE ==> (xchacha20poly1305_open(
            k_old,
            encrypted@.subrange(0, 24),
            encrypted@.subrange(24, encrypted@.len() as int),
        ) matches Some(p) ==> (p.len() != 32 ==> (r matches Err(e) && crypto_error_with(
            e,
            "Invalid key length"@,
        ))))),
        storage_key(old_passphrase@, salt@) matches Ok(k_old) ==> (encrypted@.len() >= NONCE_SIZE
            + TAG_SIZE ==> (xchacha20poly1305_open(
            k_old,
            encrypted@.subrange(0, 24),
            encrypted@.subrange(24, encrypted@.len() as int),
        ) matches Some(p) ==> (p.len() == 32 && encode_utf8(new_passphrase@).len()
            <= MAX_PASSPHRASE_BYTES ==> r is Ok))),
        encode_utf8(new_passphrase@).len() > MAX_PASSPHRASE_BYTES ==> r is Err,
{
    let secret = match open_secret_key(encrypted, old_passphrase, salt) {
        Ok(s) => s,
        Err(e) => return Err(e),
    };
    let new_salt = generate_salt();
    let blob = match seal_secret_key(&secret, new_passphrase, new_salt.as_str()) {
        Ok(b) => b,
        Err(e) => return Err(e),
    };
    Ok((blob, new_salt))
}

/// The message an identity error is shown with.
pub open spec fn identity_error_text(e: IdentityError) -> Seq<char> {
    match e {
        IdentityError::Database(m) => "Database error: "@ + m@,
        IdentityError::AlreadyExists => "Identity already exists"@,
        IdentityError::NotFound => "Identity not found"@,
        IdentityError::InvalidPassphrase => "Invalid passphrase"@,
        IdentityError::Crypto(m) => "Crypto error: "@ + m@,
    }
}

impl IdentityError {
    /// The message this error is shown with.
    pub fn text(&self) -> (t: String)
        ensures
            t@ == identity_error_text(*self),
    {
        match self {
            IdentityError::Database(m) => joined("Database error: ", m.as_str()),
            IdentityError::AlreadyExists => String::from_str("Identity already exists"),
            IdentityError::NotFound => String::from_str("Identity not found"),
            IdentityError::InvalidPassphrase => String::from_str("Invalid passphrase"),
            IdentityError::Crypto(m) => joined("Crypto error: ", m.as_str()),
        }
    }
}

} // verus!
