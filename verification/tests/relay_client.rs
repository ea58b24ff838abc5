use whisper_desktop::crypto::keys::{generate_keypair, peer_id_bytes};
use whisper_desktop::crypto::signature::verify;
use whisper_desktop::relay::client::{ConnectionState, HandshakeAction, RelayClient, RelayError};

#[test]
fn test_client_creation() {
    let (signing, _) = generate_keypair();
    let client = RelayClient::new("ws://localhost:8080", signing);
    assert_eq!(client.state(), ConnectionState::Disconnected);
}

#[test]
fn test_peer_id_derivation() {
    let (signing, verifying) = generate_keypair();
    let client = RelayClient::new("ws://localhost:8080", signing);
    let expected = peer_id_bytes(&verifying);
    assert_eq!(client.peer_id(), expected);
}

#[test]
fn test_send_without_connection() {
    let (signing, _) = generate_keypair();
    let client = RelayClient::new("ws://localhost:8080", signing);
    let result = client.send([0u8; 32], vec![1, 2, 3]);
    assert!(matches!(result, Err(RelayError::NotConnected)));
}

#[test]
fn test_state_transitions() {
    let (signing, _) = generate_keypair();
    let mut client = RelayClient::new("ws://localhost:8080", signing);
    assert_eq!(client.state(), ConnectionState::Disconnected);

    client.disconnect();
    assert_eq!(client.state(), ConnectionState::Disconnected);
}

fn connected_client() -> (RelayClient, [u8; 32]) {
    let (signing, verifying) = generate_keypair();
    let mut client = RelayClient::new("ws://relay.test", signing);
    client.begin_connect();
    assert_eq!(client.state(), ConnectionState::Connecting);
    client.channel_opened();
    assert_eq!(client.state(), ConnectionState::Authenticating);
    client.complete_auth(Some(&[0x03])).unwrap();
    (client, verifying)
}

#[test]
fn handshake_signs_the_challenge() {
    let (signing, verifying) = generate_keypair();
    let mut client = RelayClient::new("ws://relay.test", signing);
    assert_eq!(client.url(), "ws://relay.test");
    client.begin_connect();
    client.channel_opened();
    let mut challenge = vec![0x01];
    challenge.extend_from_slice(&[9u8; 32]);
    let response = client.answer_challenge(Some(&challenge)).unwrap();
    assert_eq!(response.len(), 1 + 32 + 64);
    assert_eq!(response[0], 0x02);
    assert_eq!(&response[1..33], &verifying[..]);
    let mut signature = [0u8; 64];
    signature.copy_from_slice(&response[33..]);
    assert!(verify(&[9u8; 32], &signature, &verifying));

    client.complete_auth(Some(&[0x03])).unwrap();
    assert_eq!(client.state(), ConnectionState::Connected);
}

#[test]
fn handshake_failures() {
    let (signing, _) = generate_keypair();
    let mut client = RelayClient::new("ws://relay.test", signing);
    client.begin_connect();
    client.channel_opened();
    match client.answer_challenge(None) {
        Err(RelayError::AuthFailed(m)) => assert_eq!(m, "No challenge received"),
        _ => panic!("expected an auth failure"),
    }
    match client.answer_challenge(Some(&[0xFE])) {
        Err(RelayError::AuthFailed(m)) => assert_eq!(m, "Expected challenge"),
        _ => panic!("expected an auth failure"),
    }
    assert!(matches!(client.answer_challenge(Some(&[])), Err(RelayError::Protocol(_))));
    let mut failure = vec![0x04];
    failure.extend_from_slice(b"unknown peer");
    match client.complete_auth(Some(&failure)) {
        Err(RelayError::AuthFailed(m)) => assert_eq!(m, "unknown peer"),
        _ => panic!("expected an auth failure"),
    }
    match client.complete_auth(None) {
        Err(RelayError::AuthFailed(m)) => assert_eq!(m, "No auth response"),
        _ => panic!("expected an auth failure"),
    }
    match client.complete_auth(Some(&[0xFE])) {
        Err(RelayError::AuthFailed(m)) => assert_eq!(m, "Unexpected response"),
        _ => panic!("expected an auth failure"),
    }
    // A failed handshake leaves the client authenticating.
    assert_eq!(client.state(), ConnectionState::Authenticating);
}

#[test]
fn connected_client_sends_and_fetches() {
    let (client, _) = connected_client();
    let (id, frame) = client.send([4u8; 32], vec![1, 2, 3]).unwrap();
    assert_eq!(frame[0], 0x10);
    assert_eq!(&frame[1..33], &[4u8; 32]);
    assert_eq!(&frame[33..49], &id);
    assert_eq!(&frame[49..53], &[0, 0, 0, 3]);
    assert_eq!(&frame[53..], &[1, 2, 3]);
    assert_eq!(client.fetch_pending().unwrap(), Some(vec![0x20]));
    let frame2 = client.send_frame([4u8; 32], [8u8; 16], vec![]).unwrap();
    assert_eq!(frame2.len(), 1 + 32 + 16 + 4);
}

#[test]
fn incoming_frames_are_answered() {
    let (client, _) = connected_client();
    let mut receive = vec![0x11];
    receive.extend_from_slice(&[1u8; 32]);
    receive.extend_from_slice(&[2u8; 16]);
    receive.extend_from_slice(&[0, 0, 0, 0, 0, 0, 0, 7]);
    receive.extend_from_slice(&[0, 0, 0, 1]);
    receive.push(0x55);
    let (reply, incoming) = client.handle_frame(&receive);
    let mut ack = vec![0x12];
    ack.extend_from_slice(&[2u8; 16]);
    assert_eq!(reply, Some(ack));
    let incoming = incoming.unwrap();
    assert_eq!(incoming.sender, [1u8; 32]);
    assert_eq!(incoming.message_id, [2u8; 16]);
    assert_eq!(incoming.timestamp, 7);
    assert_eq!(incoming.payload, vec![0x55]);

    let (pong, none) = client.handle_frame(&[0xFE]);
    assert_eq!(pong, Some(vec![0xFF]));
    assert!(none.is_none());

    let (nothing, none) = client.handle_frame(&[0x21, 0, 0, 0, 1]);
    assert!(nothing.is_none() && none.is_none());
}

#[test]
fn disconnect_and_reconnect_backoff() {
    let (mut client, _) = connected_client();
    client.connection_closed();
    assert_eq!(client.state(), ConnectionState::Disconnected);
    assert!(client.has_sender());
    assert!(matches!(client.fetch_pending(), Err(RelayError::NotConnected)));
    let delays: Vec<u64> = (0..8).map(|_| client.begin_reconnect()).collect();
    assert_eq!(delays, vec![2, 4, 8, 16, 32, 64, 64, 64]);
    assert_eq!(client.state(), ConnectionState::Reconnecting);
    client.disconnect();
    assert!(!client.has_sender());
    assert_eq!(client.state(), ConnectionState::Disconnected);
}

#[test]
fn handshake_steps_answer_then_connect_then_fetch() {
    let (signing, verifying) = generate_keypair();
    let mut client = RelayClient::new("ws://relay.test", signing);
    client.begin_connect();
    client.channel_opened();
    // A bad first frame ends the handshake and changes nothing.
    assert!(matches!(client.handshake_step(Some(&[0x03])), Err(RelayError::AuthFailed(_))));
    let mut challenge = vec![0x01];
    challenge.extend_from_slice(&[5u8; 32]);
    match client.handshake_step(Some(&challenge)) {
        Ok(HandshakeAction::Reply(response)) => {
            assert_eq!(response[0], 0x02);
            assert_eq!(&response[1..33], &verifying[..]);
        }
        _ => panic!("expected the answer to the challenge"),
    }
    assert_eq!(client.state(), ConnectionState::Authenticating);
    // The next frame is the authentication result.
    match client.handshake_step(Some(&[0x03])) {
        Ok(HandshakeAction::Connected(request)) => assert_eq!(request, vec![0x20]),
        _ => panic!("expected to be connected"),
    }
    assert_eq!(client.state(), ConnectionState::Connected);
    assert_eq!(client.reconnect_attempts(), 0);
}
