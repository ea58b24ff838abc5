use whisper_desktop::relay::protocol::{MessageType, ProtocolError, RelayMessage, SendStatus};
use whisper_desktop::relay::client::RelayError;
use whisper_desktop::relay::queue::QueueError;

#[test]
fn test_message_type_roundtrip() {
    assert_eq!(MessageType::try_from(0x01).unwrap(), MessageType::AuthChallenge);
    assert_eq!(MessageType::try_from(0x10).unwrap(), MessageType::Send);
    assert!(MessageType::try_from(0x99).is_err());
}

#[test]
fn test_encode_decode_ping() {
    let msg = RelayMessage::Ping;
    let encoded = msg.encode();
    assert_eq!(encoded, vec![0xFE]);
    let decoded = RelayMessage::decode(&encoded).unwrap();
    assert!(matches!(decoded, RelayMessage::Ping));
}

#[test]
fn test_encode_auth_response() {
    let msg = RelayMessage::AuthResponse {
        peer_id: [1u8; 32],
        signature: [2u8; 64],
    };
    let encoded = msg.encode();
    assert_eq!(encoded.len(), 1 + 32 + 64);
    assert_eq!(encoded[0], MessageType::AuthResponse.as_u8());
}

#[test]
fn test_decode_auth_challenge() {
    let mut data = vec![0x01]; // AuthChallenge
    data.extend_from_slice(&[42u8; 32]);
    let msg = RelayMessage::decode(&data).unwrap();
    match msg {
        RelayMessage::AuthChallenge { nonce } => {
            assert_eq!(nonce, [42u8; 32]);
        }
        _ => panic!("Wrong message type"),
    }
}

#[test]
fn test_decode_send_ack() {
    let mut data = vec![0x13]; // SendAck
    data.extend_from_slice(&[1u8; 16]); // message_id
    data.push(0x01); // Delivered
    let msg = RelayMessage::decode(&data).unwrap();
    match msg {
        RelayMessage::SendAck { message_id, status } => {
            assert_eq!(message_id, [1u8; 16]);
            assert_eq!(status, SendStatus::Delivered);
        }
        _ => panic!("Wrong message type"),
    }
}

#[test]
fn message_type_bytes_roundtrip_for_every_type() {
    let all = [
        MessageType::AuthChallenge,
        MessageType::AuthResponse,
        MessageType::AuthSuccess,
        MessageType::AuthFailure,
        MessageType::Send,
        MessageType::Receive,
        MessageType::Ack,
        MessageType::SendAck,
        MessageType::FetchPending,
        MessageType::PendingCount,
        MessageType::Error,
        MessageType::Ping,
        MessageType::Pong,
    ];
    let bytes = [0x01u8, 0x02, 0x03, 0x04, 0x10, 0x11, 0x12, 0x13, 0x20, 0x21, 0xF0, 0xFE, 0xFF];
    for (t, b) in all.iter().zip(bytes.iter()) {
        assert_eq!(t.as_u8(), *b);
        assert_eq!(MessageType::try_from(*b).unwrap(), *t);
    }
    assert_eq!(MessageType::try_from(0x00).unwrap_err(), ProtocolError::InvalidMessageType(0x00));
}

#[test]
fn send_status_bytes() {
    assert_eq!(SendStatus::try_from(0x00).unwrap(), SendStatus::Queued);
    assert_eq!(SendStatus::try_from(0x02).unwrap(), SendStatus::Rejected);
    assert_eq!(SendStatus::Delivered.as_u8(), 0x01);
    assert_eq!(SendStatus::try_from(0x03).unwrap_err(), ProtocolError::InvalidStatus(0x03));
}

#[test]
fn encode_send_writes_big_endian_length() {
    let msg = RelayMessage::Send {
        recipient: [7u8; 32],
        message_id: [9u8; 16],
        payload: vec![1, 2, 3],
    };
    let encoded = msg.encode();
    let mut expected = vec![0x10];
    expected.extend_from_slice(&[7u8; 32]);
    expected.extend_from_slice(&[9u8; 16]);
    expected.extend_from_slice(&[0, 0, 0, 3]);
    expected.extend_from_slice(&[1, 2, 3]);
    assert_eq!(encoded, expected);
}

#[test]
fn encode_client_only_frames() {
    assert_eq!(RelayMessage::Ack { message_id: [5u8; 16] }.encode()[0], 0x12);
    assert_eq!(RelayMessage::Ack { message_id: [5u8; 16] }.encode().len(), 17);
    assert_eq!(RelayMessage::FetchPending.encode(), vec![0x20]);
    assert_eq!(RelayMessage::Pong.encode(), vec![0xFF]);
    // Messages only the server sends encode to nothing.
    assert!(RelayMessage::AuthSuccess.encode().is_empty());
    assert!(RelayMessage::PendingCount { count: 3 }.encode().is_empty());
}

#[test]
fn decode_receive_frame() {
    let mut data = vec![0x11];
    data.extend_from_slice(&[3u8; 32]);
    data.extend_from_slice(&[4u8; 16]);
    data.extend_from_slice(&[0, 0, 0, 0, 0, 0, 0x01, 0x02]);
    data.extend_from_slice(&[0, 0, 0, 2]);
    data.extend_from_slice(&[0xAA, 0xBB, 0xCC]); // one trailing byte is ignored
    match RelayMessage::decode(&data).unwrap() {
        RelayMessage::Receive { sender, message_id, timestamp, payload } => {
            assert_eq!(sender, [3u8; 32]);
            assert_eq!(message_id, [4u8; 16]);
            assert_eq!(timestamp, 0x0102);
            assert_eq!(payload, vec![0xAA, 0xBB]);
        }
        _ => panic!("Wrong message type"),
    }
}

#[test]
fn decode_receive_with_short_payload_fails() {
    let mut data = vec![0x11];
    data.extend_from_slice(&[0u8; 56]);
    data.extend_from_slice(&[0, 0, 0, 5]);
    data.extend_from_slice(&[1, 2]);
    assert!(matches!(RelayMessage::decode(&data), Err(ProtocolError::InvalidLength)));
}

#[test]
fn decode_errors() {
    assert!(matches!(RelayMessage::decode(&[]), Err(ProtocolError::EmptyMessage)));
    assert!(matches!(RelayMessage::decode(&[0x99]), Err(ProtocolError::InvalidMessageType(0x99))));
    assert!(matches!(RelayMessage::decode(&[0x01, 1, 2]), Err(ProtocolError::InvalidLength)));
    assert!(matches!(RelayMessage::decode(&[0x21, 0, 0]), Err(ProtocolError::InvalidLength)));
    assert!(matches!(RelayMessage::decode(&[0xF0]), Err(ProtocolError::InvalidLength)));
    // Client-to-server types are not expected from the relay.
    assert!(matches!(RelayMessage::decode(&[0x10]), Err(ProtocolError::UnexpectedMessage(0x10))));
    assert!(matches!(RelayMessage::decode(&[0x20]), Err(ProtocolError::UnexpectedMessage(0x20))));
    let mut bad_status = vec![0x13];
    bad_status.extend_from_slice(&[0u8; 16]);
    bad_status.push(0x07);
    assert!(matches!(RelayMessage::decode(&bad_status), Err(ProtocolError::InvalidStatus(0x07))));
}

#[test]
fn decode_text_frames() {
    let mut failure = vec![0x04];
    failure.extend_from_slice(b"bad signature");
    match RelayMessage::decode(&failure).unwrap() {
        RelayMessage::AuthFailure { reason } => assert_eq!(reason, "bad signature"),
        _ => panic!("Wrong message type"),
    }
    let invalid = vec![0x04, b'o', 0xFF, b'k'];
    match RelayMessage::decode(&invalid).unwrap() {
        RelayMessage::AuthFailure { reason } => assert_eq!(reason, "o\u{FFFD}k"),
        _ => panic!("Wrong message type"),
    }
    let mut error = vec![0xF0, 42];
    error.extend_from_slice(b"rate limited");
    match RelayMessage::decode(&error).unwrap() {
        RelayMessage::Error { code, message } => {
            assert_eq!(code, 42);
            assert_eq!(message, "rate limited");
        }
        _ => panic!("Wrong message type"),
    }
    match RelayMessage::decode(&[0x21, 0, 0, 1, 0]).unwrap() {
        RelayMessage::PendingCount { count } => assert_eq!(count, 256),
        _ => panic!("Wrong message type"),
    }
    assert!(matches!(RelayMessage::decode(&[0x03]).unwrap(), RelayMessage::AuthSuccess));
    assert!(matches!(RelayMessage::decode(&[0xFF, 1]).unwrap(), RelayMessage::Pong));
}

#[test]
fn protocol_and_relay_errors_are_shown_with_their_messages() {
    assert_eq!(ProtocolError::InvalidMessageType(153).text(), "Invalid message type: 153");
    assert_eq!(ProtocolError::UnexpectedMessage(2).text(), "Unexpected message type: 2");
    assert_eq!(
        RelayError::Protocol(ProtocolError::InvalidStatus(0)).text(),
        "Protocol error: Invalid status: 0"
    );
    assert_eq!(
        QueueError::Send(RelayError::NotConnected).text(),
        "Send failed: Not connected"
    );
    assert_eq!(QueueError::MaxRetries.text(), "Max retries exceeded");
}
