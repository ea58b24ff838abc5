use whisper_desktop::commands::contacts::{default_alias, new_contact, parse_link_qr};
use whisper_desktop::commands::identity::{identity_info, link_qr};
use whisper_desktop::commands::messages::{outgoing_message, recipient_from_peer_id};
use whisper_desktop::crypto::encryption::decrypt;
use whisper_desktop::commands::relay::{connection_state_name, relay_status};
use whisper_desktop::crypto::keys::{derive_peer_id, generate_keypair};
use whisper_desktop::relay::client::{ConnectionState, RelayClient};
use whisper_desktop::storage::contacts::TrustLevel;
use whisper_desktop::storage::identity::StoredIdentity;

#[test]
fn link_qr_reads_back() {
    let stored = StoredIdentity {
        peer_id: "peerABC".to_string(),
        public_key: vec![0xde, 0xad, 0xbe, 0xef],
        created_at: 1000,
    };
    let qr = link_qr(&stored);
    assert_eq!(qr, "whisper://peerABC/deadbeef");
    let (peer, key) = parse_link_qr(&qr).unwrap();
    assert_eq!(peer, "peerABC");
    assert_eq!(key, vec![0xde, 0xad, 0xbe, 0xef]);
}

#[test]
fn link_qr_format_errors() {
    for bad in ["", "whisper:/a/b", "http://peer/00", "whisper://peer", "whisper://a/b/c"] {
        match parse_link_qr(bad) {
            Err(e) => assert_eq!(e.message, "Invalid QR format"),
            Ok(_) => panic!("accepted {}", bad),
        }
    }
    match parse_link_qr("whisper://peer/0g") {
        Err(e) => assert!(e.message.starts_with("Invalid public key: ")),
        Ok(_) => panic!("accepted bad hex"),
    }
    let (peer, key) = parse_link_qr("whisper:///AB").unwrap();
    assert_eq!(peer, "");
    assert_eq!(key, vec![0xab]);
}

#[test]
fn identity_info_shows_hex_key() {
    let stored = StoredIdentity {
        peer_id: "p".to_string(),
        public_key: vec![1, 2, 255],
        created_at: 5,
    };
    let info = identity_info(&stored, true);
    assert_eq!(info.peer_id, "p");
    assert_eq!(info.public_key, "0102ff");
    assert!(info.is_locked);
    assert_eq!(info.created_at, 5);
}

#[test]
fn default_alias_is_peer_id_prefix() {
    assert_eq!(default_alias("ABCDEFGHIJK"), "ABCDEFGH");
    assert_eq!(default_alias("abc"), "abc");
    let contact = new_contact("ABCDEFGHIJK".to_string(), None, vec![1, 2], 77);
    assert_eq!(contact.alias, "ABCDEFGH");
    assert_eq!(contact.trust_level, TrustLevel::Unknown);
    assert_eq!(contact.created_at, 77);
    assert_eq!(contact.updated_at, 77);
    let named = new_contact("xyz".to_string(), Some("Alice".to_string()), vec![], 1);
    assert_eq!(named.alias, "Alice");
}

#[test]
fn peer_id_reads_back_as_recipient() {
    let (_, public) = generate_keypair();
    let peer_id = derive_peer_id(&public);
    assert_eq!(recipient_from_peer_id(&peer_id).unwrap(), public);
    match recipient_from_peer_id("abc") {
        Err(e) => assert_eq!(e.message, "Invalid peer_id length"),
        Ok(_) => panic!("short id accepted"),
    }
    match recipient_from_peer_id("0OIl") {
        Err(e) => assert!(e.message.starts_with("Invalid peer_id: ")),
        Ok(_) => panic!("invalid base58 accepted"),
    }
}

#[test]
fn relay_status_reports_state() {
    let none = relay_status(None);
    assert!(!none.connected);
    assert_eq!(none.state, "disconnected");
    assert!(none.peer_id.is_none());

    let (signing, public) = generate_keypair();
    let mut client = RelayClient::new("ws://x", signing);
    client.begin_connect();
    let status = relay_status(Some(&client));
    assert!(!status.connected);
    assert_eq!(status.state, "connecting");
    assert_eq!(status.peer_id, Some(derive_peer_id(&public)));
    assert_eq!(connection_state_name(ConnectionState::Reconnecting), "reconnecting");
    assert_eq!(connection_state_name(ConnectionState::Connected), "connected");
}

#[test]
fn outgoing_messages_are_encrypted_for_the_peer() {
    let (sender_sk, _) = generate_keypair();
    let (recipient_sk, recipient_pk) = generate_keypair();
    let peer_id = derive_peer_id(&recipient_pk);
    let (recipient, payload) = outgoing_message(&peer_id, "hello peer", &sender_sk).unwrap();
    assert_eq!(recipient, recipient_pk);
    assert_eq!(payload.len(), 24 + 32 + 10 + 16);
    assert!(!payload.windows(10).any(|w| w == b"hello peer"));
    assert_eq!(decrypt(&payload, &[0u8; 32], &recipient_sk).unwrap(), b"hello peer".to_vec());
    match outgoing_message("abc", "x", &sender_sk) {
        Err(e) => assert_eq!(e.message, "Invalid peer_id length"),
        Ok(_) => panic!("short id accepted"),
    }
    match outgoing_message("0OIl", "x", &sender_sk) {
        Err(e) => assert!(e.message.starts_with("Invalid peer_id: ")),
        Ok(_) => panic!("invalid base58 accepted"),
    }
}

#[test]
fn outgoing_message_to_a_key_off_the_curve_is_still_sent() {
    let (sender_sk, _) = generate_keypair();
    let mut not_a_key = [0u8; 32];
    for y in 2u8..=255 {
        not_a_key[0] = y;
        if ed25519_dalek::VerifyingKey::from_bytes(&not_a_key).is_err() {
            break;
        }
    }
    let peer_id = derive_peer_id(&not_a_key);
    let (recipient, payload) = outgoing_message(&peer_id, "x", &sender_sk).unwrap();
    assert_eq!(recipient, not_a_key);
    assert_eq!(payload.len(), 24 + 32 + 1 + 16);
}
