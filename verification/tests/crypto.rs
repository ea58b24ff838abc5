use sha2::Digest;
use whisper_desktop::crypto::encryption::{
    decrypt, decrypt_symmetric, encrypt, encrypt_symmetric, encrypt_symmetric_with, encrypt_with,
    NONCE_SIZE, TAG_SIZE, X25519_PK_SIZE,
};
use whisper_desktop::crypto::keys::{derive_peer_id, generate_keypair, peer_id_bytes, verifying_key};
use whisper_desktop::crypto::signature::{sign, verify};

#[test]
fn test_encrypt_decrypt_roundtrip() {
    let (sender_sk, _sender_pk) = generate_keypair();
    let (recipient_sk, recipient_pk) = generate_keypair();
    let plaintext = b"hello whisper";

    let ciphertext = encrypt(plaintext, &recipient_pk, &sender_sk);
    let decrypted = decrypt(&ciphertext, &[0u8; 32], &recipient_sk).unwrap();

    assert_eq!(decrypted, plaintext);
}

#[test]
fn test_different_nonces() {
    let (sender_sk, _) = generate_keypair();
    let (_, recipient_pk) = generate_keypair();
    let plaintext = b"same message";

    let ct1 = encrypt(plaintext, &recipient_pk, &sender_sk);
    let ct2 = encrypt(plaintext, &recipient_pk, &sender_sk);

    // Nonces should differ (first 24 bytes)
    assert_ne!(&ct1[..NONCE_SIZE], &ct2[..NONCE_SIZE]);
}

#[test]
fn encryption_test_wrong_key_fails() {
    let (sender_sk, _) = generate_keypair();
    let (_, recipient_pk) = generate_keypair();
    let (wrong_sk, _) = generate_keypair();
    let plaintext = b"secret";

    let ciphertext = encrypt(plaintext, &recipient_pk, &sender_sk);
    let result = decrypt(&ciphertext, &[0u8; 32], &wrong_sk);

    assert!(result.is_err());
}

#[test]
fn test_symmetric_roundtrip() {
    let key = [42u8; 32];
    let plaintext = b"local storage test";

    let ciphertext = encrypt_symmetric(plaintext, &key);
    let decrypted = decrypt_symmetric(&ciphertext, &key).unwrap();

    assert_eq!(decrypted, plaintext);
}

#[test]
fn test_symmetric_wrong_key_fails() {
    let key = [42u8; 32];
    let wrong_key = [43u8; 32];
    let plaintext = b"local storage test";

    let ciphertext = encrypt_symmetric(plaintext, &key);
    let result = decrypt_symmetric(&ciphertext, &wrong_key);

    assert!(result.is_err());
}

#[test]
fn encrypted_message_layout_and_length() {
    let (sender_sk, _) = generate_keypair();
    let (_, recipient_pk) = generate_keypair();
    let ciphertext = encrypt(b"abcde", &recipient_pk, &sender_sk);
    assert_eq!(ciphertext.len(), NONCE_SIZE + X25519_PK_SIZE + 5 + TAG_SIZE);
    let sym = encrypt_symmetric(b"abcde", &[1u8; 32]);
    assert_eq!(sym.len(), NONCE_SIZE + 5 + TAG_SIZE);
}

#[test]
fn decrypt_rejects_short_ciphertexts() {
    let (sk, _) = generate_keypair();
    assert_eq!(decrypt(&[0u8; 71], &[0u8; 32], &sk), Err("ciphertext too short"));
    assert_eq!(decrypt_symmetric(&[0u8; 39], &[0u8; 32]), Err("ciphertext too short"));
}

#[test]
fn decrypt_reports_tampering() {
    let key = [5u8; 32];
    let mut ciphertext = encrypt_symmetric(b"payload", &key);
    let last = ciphertext.len() - 1;
    ciphertext[last] ^= 1;
    assert_eq!(decrypt_symmetric(&ciphertext, &key), Err("decryption failed"));

    let (sender_sk, _) = generate_keypair();
    let (recipient_sk, recipient_pk) = generate_keypair();
    let mut sealed = encrypt(b"payload", &recipient_pk, &sender_sk);
    sealed[60] ^= 1;
    assert_eq!(decrypt(&sealed, &[0u8; 32], &recipient_sk), Err("decryption failed"));
}

#[test]
fn bytes_off_the_curve_are_encrypted_to_their_hash() {
    let (sender_sk, _) = generate_keypair();
    // Find bytes that do not decompress to a curve point.
    let mut not_a_key = [0u8; 32];
    for y in 2u8..=255 {
        not_a_key[0] = y;
        if ed25519_dalek::VerifyingKey::from_bytes(&not_a_key).is_err() {
            break;
        }
    }
    assert!(ed25519_dalek::VerifyingKey::from_bytes(&not_a_key).is_err());
    let ephemeral = [7u8; 32];
    let nonce = [9u8; 24];
    let sealed = encrypt_with(b"hi", &not_a_key, &ephemeral, &nonce);
    assert_eq!(sealed.len(), 24 + 32 + 2 + 16);
    // The shared secret is taken with the SHA-256 of the bytes as the key.
    let hashed: [u8; 32] = sha2::Sha256::digest(not_a_key).into();
    let shared = x25519_dalek::StaticSecret::from(ephemeral)
        .diffie_hellman(&x25519_dalek::PublicKey::from(hashed));
    let key: [u8; 32] = sha2::Sha256::digest(shared.as_bytes()).into();
    assert_eq!(decrypt_symmetric(&[&nonce[..], &sealed[56..]].concat(), &key).unwrap(), b"hi".to_vec());
    assert_eq!(encrypt(b"hi", &not_a_key, &sender_sk).len(), 24 + 32 + 2 + 16);
}

#[test]
fn test_generate_keypair() {
    let (signing, verifying) = generate_keypair();
    assert_eq!(verifying_key(&signing), verifying);
}

#[test]
fn test_peer_id_deterministic() {
    let (_, verifying) = generate_keypair();
    let id1 = derive_peer_id(&verifying);
    let id2 = derive_peer_id(&verifying);
    assert_eq!(id1, id2);
}

#[test]
fn peer_id_is_base58_of_the_key() {
    assert_eq!(derive_peer_id(&[0u8; 32]), "11111111111111111111111111111111");
    let key = [7u8; 32];
    assert_eq!(peer_id_bytes(&key), key);
}

#[test]
fn test_sign_verify_roundtrip() {
    let (signing, verifying) = generate_keypair();
    let message = b"test message";

    let signature = sign(message, &signing);
    assert!(verify(message, &signature, &verifying));
}

#[test]
fn signature_test_wrong_key_fails() {
    let (signing, _) = generate_keypair();
    let (_, other_verifying) = generate_keypair();
    let message = b"test message";

    let signature = sign(message, &signing);
    assert!(!verify(message, &signature, &other_verifying));
}

#[test]
fn test_tampered_message_fails() {
    let (signing, verifying) = generate_keypair();
    let message = b"test message";
    let tampered = b"test messag3";

    let signature = sign(message, &signing);
    assert!(!verify(tampered, &signature, &verifying));
}

#[test]
fn signing_is_deterministic() {
    let secret = [3u8; 32];
    assert_eq!(sign(b"m", &secret), sign(b"m", &secret));
}

#[test]
fn encrypt_with_is_fixed_by_its_ephemeral_secret_and_nonce() {
    let (recipient_sk, recipient_pk) = generate_keypair();
    let ephemeral = [7u8; 32];
    let nonce = [9u8; 24];
    let a = encrypt_with(b"fixed", &recipient_pk, &ephemeral, &nonce);
    let b = encrypt_with(b"fixed", &recipient_pk, &ephemeral, &nonce);
    assert_eq!(a, b);
    assert_eq!(&a[..24], &nonce[..]);
    let ephemeral_public =
        x25519_dalek::PublicKey::from(&x25519_dalek::StaticSecret::from(ephemeral)).to_bytes();
    assert_eq!(&a[24..56], &ephemeral_public[..]);
    assert_eq!(a.len(), 24 + 32 + 5 + 16);
    assert_eq!(decrypt(&a, &[0u8; 32], &recipient_sk).unwrap(), b"fixed".to_vec());
    let other = encrypt_with(b"fixed", &recipient_pk, &ephemeral, &[8u8; 24]);
    assert_ne!(a, other);
}

#[test]
fn encrypt_symmetric_with_puts_the_nonce_first() {
    let key = [3u8; 32];
    let nonce = [4u8; 24];
    let sealed = encrypt_symmetric_with(b"stored", &key, &nonce);
    assert_eq!(sealed, encrypt_symmetric_with(b"stored", &key, &nonce));
    assert_eq!(&sealed[..24], &nonce[..]);
    assert_eq!(sealed.len(), 24 + 6 + 16);
    assert_eq!(decrypt_symmetric(&sealed, &key).unwrap(), b"stored".to_vec());
}
