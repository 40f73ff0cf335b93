//! Tests of the game-action wire codec.

use freeciv_nostr::events::{DecodeError, GameAction, FORMAT_TAG, HEADER_LEN};

#[test]
fn game_action_roundtrip_serialization() {
    let action = GameAction {
        turn: 42,
        payload: vec![1, 2, 3, 4],
    };
    let encoded = action.encode();
    let deserialized: GameAction = GameAction::decode(&encoded).expect("deserialize");
    assert_eq!(action, deserialized);
}

#[test]
fn roundtrip_zero_turn_empty_payload() {
    let action = GameAction::new(0, vec![]);
    let encoded = action.encode();
    let decoded = GameAction::decode(&encoded).expect("deserialize");
    assert_eq!(action, decoded);
}

#[test]
fn roundtrip_max_turn_large_payload() {
    let mut payload = Vec::new();
    for i in 0..10_000usize {
        payload.push((i % 251) as u8);
    }
    let action = GameAction::new(u64::MAX, payload);
    let encoded = action.encode();
    let decoded = GameAction::decode(&encoded).expect("deserialize");
    assert_eq!(action, decoded);
}

#[test]
fn encoding_has_exact_bytes() {
    let action = GameAction::new(1, vec![0xAB]);
    let encoded = action.encode();
    assert_eq!(
        encoded,
        vec![
            FORMAT_TAG, // tag
            0, 0, 0, 0, 0, 0, 0, 1, // turn, big-endian
            0, 0, 0, 0, 0, 0, 0, 1, // payload length, big-endian
            0xAB, // payload
        ]
    );
    assert_eq!(encoded.len(), HEADER_LEN + 1);
}

#[test]
fn decode_empty_input_is_truncated() {
    let r = GameAction::decode(&[]);
    assert_eq!(r, Err(DecodeError::Truncated));
}

#[test]
fn decode_missing_turn_field_is_error() {
    // A representation holding only the format tag: the turn field is absent.
    let r = GameAction::decode(&[FORMAT_TAG]);
    assert_eq!(r, Err(DecodeError::Truncated));
}

#[test]
fn decode_header_cut_short_is_truncated() {
    let full = GameAction::new(7, vec![]).encode();
    let r = GameAction::decode(&full[..HEADER_LEN - 1]);
    assert_eq!(r, Err(DecodeError::Truncated));
}

#[test]
fn decode_unknown_tag_is_rejected() {
    let mut encoded = GameAction::new(7, vec![9, 9]).encode();
    encoded[0] = FORMAT_TAG.wrapping_add(1);
    let r = GameAction::decode(&encoded);
    assert_eq!(r, Err(DecodeError::UnknownFormat));
}

#[test]
fn decode_payload_cut_short_is_length_mismatch() {
    let encoded = GameAction::new(3, vec![5, 6, 7]).encode();
    let r = GameAction::decode(&encoded[..encoded.len() - 1]);
    assert_eq!(r, Err(DecodeError::LengthMismatch));
}

#[test]
fn decode_trailing_bytes_are_length_mismatch() {
    let mut encoded = GameAction::new(3, vec![5, 6, 7]).encode();
    encoded.push(0);
    let r = GameAction::decode(&encoded);
    assert_eq!(r, Err(DecodeError::LengthMismatch));
}
