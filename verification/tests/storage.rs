use whisper_desktop::storage::contacts::{ContactError, TrustLevel};
use whisper_desktop::storage::identity::{
    new_identity, open_secret_key, reseal_secret_key, seal_secret_key, IdentityError,
};
use whisper_desktop::storage::messages::{
    message_id_text, new_message_id, MessageDirection, MessageError, MessageStatus,
};
use whisper_desktop::storage::database::DatabaseError;
use whisper_desktop::storage::settings::{Settings, SettingsError};
use whisper_desktop::crypto::keys::{derive_peer_id, verifying_key};

#[test]
fn trust_levels_read_back() {
    for t in [TrustLevel::Unknown, TrustLevel::Unverified, TrustLevel::Verified] {
        assert_eq!(TrustLevel::from_str(t.as_str()), t);
    }
    assert_eq!(TrustLevel::Verified.as_str(), "verified");
    assert_eq!(TrustLevel::from_str("something else"), TrustLevel::Unknown);
}

#[test]
fn statuses_and_directions_read_back() {
    for s in [
        MessageStatus::Pending,
        MessageStatus::Sent,
        MessageStatus::Delivered,
        MessageStatus::Read,
        MessageStatus::Failed,
    ] {
        assert_eq!(MessageStatus::from_str(s.as_str()), s);
    }
    assert_eq!(MessageStatus::from_str("bogus"), MessageStatus::Pending);
    for d in [MessageDirection::Incoming, MessageDirection::Outgoing] {
        assert_eq!(MessageDirection::from_str(d.as_str()), d);
    }
    assert_eq!(MessageDirection::from_str(""), MessageDirection::Incoming);
    assert_eq!(MessageDirection::Outgoing.as_str(), "outgoing");
}

#[test]
fn rows_affected_decide_not_found() {
    assert!(matches!(ContactError::from_rows_affected(0), Err(ContactError::NotFound)));
    assert!(ContactError::from_rows_affected(1).is_ok());
    assert!(matches!(MessageError::from_rows_affected(0), Err(MessageError::NotFound)));
    assert!(MessageError::from_rows_affected(3).is_ok());
}

#[test]
fn settings_defaults() {
    let settings = Settings::default();
    assert_eq!(settings.theme, "system");
    assert!(settings.notifications);
    assert!(settings.sound);
    assert!(!settings.autostart);
    assert!(settings.minimize_to_tray);
    assert_eq!(settings.relay_url, "wss://relay.whisper.dev");
}

#[test]
fn new_identity_unlocks_with_its_passphrase() {
    let created = new_identity("test123").unwrap();
    assert_eq!(created.public_key, verifying_key(&created.secret_key).to_vec());
    let mut pk = [0u8; 32];
    pk.copy_from_slice(&created.public_key);
    assert_eq!(created.peer_id, derive_peer_id(&pk));
    assert_eq!(created.encrypted_secret.len(), 24 + 32 + 16);
    let secret = open_secret_key(&created.encrypted_secret, "test123", &created.salt).unwrap();
    assert_eq!(secret, created.secret_key);
}

#[test]
fn unlock_with_wrong_passphrase_fails() {
    let created = new_identity("test123").unwrap();
    let result = open_secret_key(&created.encrypted_secret, "wrong", &created.salt);
    assert!(matches!(result, Err(IdentityError::InvalidPassphrase)));
}

#[test]
fn changed_passphrase_opens_the_same_key() {
    let created = new_identity("old_pass").unwrap();
    let (blob, salt) =
        reseal_secret_key(&created.encrypted_secret, &created.salt, "old_pass", "new_pass").unwrap();
    assert!(matches!(
        open_secret_key(&blob, "old_pass", &salt),
        Err(IdentityError::InvalidPassphrase)
    ));
    assert_eq!(open_secret_key(&blob, "new_pass", &salt).unwrap(), created.secret_key);
    assert!(matches!(
        reseal_secret_key(&created.encrypted_secret, &created.salt, "nope", "x"),
        Err(IdentityError::InvalidPassphrase)
    ));
}

#[test]
fn sealing_with_a_bad_salt_is_a_crypto_error() {
    let result = seal_secret_key(&[1u8; 32], "pass", "!");
    assert!(matches!(result, Err(IdentityError::Crypto(_))));
    let sealed = seal_secret_key(&[1u8; 32], "pass", "c2FsdHNhbHRzYWx0").unwrap();
    assert_eq!(open_secret_key(&sealed, "pass", "c2FsdHNhbHRzYWx0").unwrap(), [1u8; 32]);
    assert!(matches!(
        open_secret_key(&sealed[..30], "pass", "c2FsdHNhbHRzYWx0"),
        Err(IdentityError::InvalidPassphrase)
    ));
}

#[test]
fn new_identity_has_a_32_byte_key_and_a_peer_id() {
    let created = new_identity("").unwrap();
    assert_eq!(created.public_key.len(), 32);
    assert!(!created.peer_id.is_empty());
    assert_eq!(created.salt.len(), 22);
    assert_eq!(open_secret_key(&created.encrypted_secret, "", &created.salt).unwrap(), created.secret_key);
}

#[test]
fn message_ids_are_hex_of_16_bytes() {
    let mut id = [0u8; 16];
    id[0] = 0xab;
    id[15] = 0x01;
    assert_eq!(message_id_text(&id), "ab000000000000000000000000000001");
    let fresh = new_message_id();
    assert_eq!(fresh.len(), 32);
    assert!(fresh.chars().all(|c| c.is_ascii_hexdigit() && !c.is_ascii_uppercase()));
    assert_ne!(new_message_id(), fresh);
}

#[test]
fn errors_are_shown_with_their_messages() {
    assert_eq!(IdentityError::InvalidPassphrase.text(), "Invalid passphrase");
    assert_eq!(IdentityError::Crypto("bad salt".to_string()).text(), "Crypto error: bad salt");
    assert_eq!(ContactError::AlreadyExists.text(), "Contact already exists");
    assert_eq!(MessageError::Database("locked".to_string()).text(), "Database error: locked");
    assert_eq!(SettingsError::Serialization("eof".to_string()).text(), "Serialization error: eof");
    assert_eq!(DatabaseError::NotInitialized.text(), "Database not initialized");
}
