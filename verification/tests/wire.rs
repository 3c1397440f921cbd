use desk_switch::framing::{encode_frame, frame_len, split_frame, u32_from_be, u32_to_be, FrameError, MAX_PAYLOAD_LEN};
use desk_switch::protocol::{Message, Role, PROTOCOL_VERSION};
use desk_switch::session::{
    bytes_eq, check_ack, check_handshake, display_event, handshake_for, handshake_reply,
    primary_event, AckCheck, DisplayEvent, HandshakeCheck, PrimaryEvent,
};
use desk_switch::config::Config;

#[test]
fn frame_of_small_payload() {
    assert_eq!(encode_frame(b"abc"), vec![0, 0, 0, 3, 97, 98, 99]);
    assert_eq!(encode_frame(&[]), vec![0, 0, 0, 0]);
}

#[test]
fn big_endian_bytes() {
    assert_eq!(u32_to_be(0x01020304), [1, 2, 3, 4]);
    assert_eq!(u32_from_be([1, 2, 3, 4]), 0x01020304);
    assert_eq!(u32_from_be(u32_to_be(4000000000)), 4000000000);
}

#[test]
fn frame_roundtrip_with_trailing_bytes() {
    let payload: Vec<u8> = (0..300u32).map(|i| (i % 251) as u8).collect();
    let mut buf = encode_frame(&payload);
    buf.extend_from_slice(&[9, 9, 9]);
    let (p, n) = split_frame(&buf).unwrap();
    assert_eq!(p, payload);
    assert_eq!(n, 304);
    assert_eq!(encode_frame(&p), buf[..n].to_vec());
}

#[test]
fn frame_truncated() {
    assert_eq!(split_frame(&[0, 0, 0]), Err(FrameError::Truncated));
    assert_eq!(split_frame(&[0, 0, 0, 5, 1, 2]), Err(FrameError::Truncated));
    assert_eq!(FrameError::Truncated.message(), "failed to fill whole buffer");
}

#[test]
fn frame_too_large() {
    let header = u32_to_be(MAX_PAYLOAD_LEN + 1);
    assert_eq!(split_frame(&header), Err(FrameError::TooLarge { len: 10485761 }));
    assert_eq!(frame_len(header), Err(FrameError::TooLarge { len: 10485761 }));
    assert_eq!(frame_len(u32_to_be(MAX_PAYLOAD_LEN)), Ok(10485760));
    assert_eq!(
        FrameError::TooLarge { len: 10485761 }.message(),
        "Message too large: 10485761 bytes"
    );
    // The limit itself is accepted, so a short buffer is merely truncated.
    assert_eq!(split_frame(&u32_to_be(MAX_PAYLOAD_LEN)), Err(FrameError::Truncated));
}

fn config_with_key(key: &str) -> Config {
    Config::with_identity("host-a".to_string(), key.to_string())
}

#[test]
fn handshake_with_same_key_is_accepted() {
    let display = config_with_key("secret");
    let primary = config_with_key("secret");
    let hs = handshake_for(&display);
    match &hs {
        Message::Handshake { version, hostname, auth_hash } => {
            assert_eq!(*version, PROTOCOL_VERSION);
            assert_eq!(hostname, "host-a");
            assert_eq!(auth_hash.len(), 32);
        }
        _ => panic!("not a handshake"),
    }
    let check = check_handshake(&hs, &primary.auth_hash());
    match &check {
        HandshakeCheck::Accepted { hostname, version } => {
            assert_eq!(hostname, "host-a");
            assert_eq!(*version, 1);
        }
        other => panic!("unexpected {:?}", other),
    }
    match handshake_reply(&check) {
        Some(Message::HandshakeAck { accepted }) => assert!(accepted),
        other => panic!("unexpected {:?}", other),
    }
}

#[test]
fn handshake_with_other_key_is_rejected() {
    let hs = handshake_for(&config_with_key("secret"));
    let check = check_handshake(&hs, &config_with_key("other").auth_hash());
    assert!(matches!(check, HandshakeCheck::Rejected { ref hostname } if hostname == "host-a"));
    assert!(matches!(handshake_reply(&check), Some(Message::HandshakeAck { accepted: false })));
}

#[test]
fn first_message_not_a_handshake() {
    let check = check_handshake(&Message::Heartbeat { timestamp_ms: 5 }, &[1, 2]);
    assert!(matches!(check, HandshakeCheck::NotHandshake));
    assert!(handshake_reply(&check).is_none());
}

#[test]
fn acknowledgements() {
    assert_eq!(check_ack(&Message::HandshakeAck { accepted: true }), AckCheck::Accepted);
    assert_eq!(check_ack(&Message::HandshakeAck { accepted: false }), AckCheck::Rejected);
    assert_eq!(check_ack(&Message::RoleSwitch { new_role: 1 }), AckCheck::Unexpected);
}

#[test]
fn primary_sorts_messages() {
    assert_eq!(primary_event(&Message::MouseScroll { dx: 1, dy: 0 }), PrimaryEvent::Simulate);
    assert_eq!(primary_event(&Message::KeyEvent { key_code: 65, pressed: true }), PrimaryEvent::Simulate);
    assert_eq!(
        primary_event(&Message::MouseMove { x_ratio_bits: 0, y_ratio_bits: 0 }),
        PrimaryEvent::Simulate
    );
    assert_eq!(primary_event(&Message::RoleSwitch { new_role: 2 }), PrimaryEvent::SwitchTo(Role::Display));
    assert_eq!(primary_event(&Message::RoleSwitch { new_role: 1 }), PrimaryEvent::SwitchTo(Role::Idle));
    assert_eq!(primary_event(&Message::Heartbeat { timestamp_ms: 1 }), PrimaryEvent::Ignore);
}

#[test]
fn display_sorts_messages() {
    let frame = Message::Frame { width: 2, height: 2, jpeg_data: vec![1] };
    assert_eq!(display_event(&frame), DisplayEvent::Show);
    assert_eq!(display_event(&Message::RoleSwitch { new_role: 1 }), DisplayEvent::SwitchTo(Role::Primary));
    assert_eq!(display_event(&Message::RoleSwitch { new_role: 0 }), DisplayEvent::SwitchTo(Role::Idle));
    assert_eq!(display_event(&Message::Heartbeat { timestamp_ms: 3 }), DisplayEvent::Heartbeat);
    assert_eq!(display_event(&Message::HandshakeAck { accepted: true }), DisplayEvent::Unexpected);
}

#[test]
fn byte_equality() {
    assert!(bytes_eq(&[1, 2, 3], &[1, 2, 3]));
    assert!(!bytes_eq(&[1, 2, 3], &[1, 2]));
    assert!(!bytes_eq(&[1, 2, 3], &[1, 2, 4]));
    assert!(bytes_eq(&[], &[]));
}
