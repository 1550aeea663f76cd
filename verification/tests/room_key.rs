use peersey::{FromHexError, RoomKey, RoomKeyParseError, TopicKey};

#[test]
fn key_round_trips() {
    let key = RoomKey::from_bytes([0xab; 32]);
    assert!(key.to_string().parse::<RoomKey>().unwrap() == key);
}

#[test]
fn debug_redacts_secret() {
    let key = RoomKey::from_bytes([0xab; 32]);
    assert_eq!(key.debug_string(), "RoomKey([REDACTED])");
    assert!(!key.debug_string().contains("ab"));
}

#[test]
fn parser_rejects_wrong_length() {
    assert!(matches!(
        "abcd".parse::<RoomKey>(),
        Err(RoomKeyParseError::InvalidLength(2))
    ));
}

#[test]
fn display_is_fixed_width_lower_hex() {
    let key = TopicKey::from_bytes([0x0f; 32]);
    let text = key.to_string();
    assert_eq!(text.len(), 64);
    assert_eq!(text, "0f".repeat(32));
}

#[test]
fn uppercase_hex_is_accepted_and_normalized() {
    let upper = "AB".repeat(32);
    let key: TopicKey = upper.parse().unwrap();
    assert_eq!(key.to_string(), "ab".repeat(32));
}

#[test]
fn raw_bytes_come_back() {
    let mut bytes = [0u8; 32];
    for (i, byte) in bytes.iter_mut().enumerate() {
        *byte = 255 - 7 * i as u8;
    }
    assert_eq!(RoomKey::from_bytes(bytes).to_bytes(), bytes);
}

#[test]
fn key_text_has_the_high_digit_first() {
    let mut bytes = [0u8; 32];
    bytes[0] = 0x1e;
    bytes[31] = 0xf2;
    let key = RoomKey::from_bytes(bytes);
    assert_eq!(key.to_string(), format!("1e{}f2", "00".repeat(30)));
    assert_eq!(key.to_string().parse::<RoomKey>().unwrap().to_bytes(), bytes);
}

#[test]
fn odd_text_is_no_key() {
    assert!(matches!(
        "abc".parse::<RoomKey>(),
        Err(RoomKeyParseError::InvalidHex(FromHexError::OddLength))
    ));
}

#[test]
fn first_bad_digit_is_named() {
    assert!(matches!(
        "0g1z".parse::<RoomKey>(),
        Err(RoomKeyParseError::InvalidHex(
            FromHexError::InvalidHexCharacter { c: 'g', index: 1 }
        ))
    ));
    assert!(matches!(
        "ab\u{e9}".parse::<RoomKey>(),
        Err(RoomKeyParseError::InvalidHex(
            FromHexError::InvalidHexCharacter {
                c: '\u{c3}',
                index: 2
            }
        ))
    ));
}

#[test]
fn white_space_around_a_key_is_refused() {
    let padded = format!(" {} ", "ab".repeat(32));
    assert!(matches!(
        padded.parse::<RoomKey>(),
        Err(RoomKeyParseError::InvalidHex(
            FromHexError::InvalidHexCharacter { c: ' ', index: 0 }
        ))
    ));
}

#[test]
fn longer_and_empty_keys_are_refused() {
    assert!(matches!(
        "00".repeat(33).parse::<RoomKey>(),
        Err(RoomKeyParseError::InvalidLength(33))
    ));
    assert!(matches!(
        "".parse::<RoomKey>(),
        Err(RoomKeyParseError::InvalidLength(0))
    ));
}

#[test]
fn random_keys_are_distinct() {
    assert!(RoomKey::random() != RoomKey::random());
}
