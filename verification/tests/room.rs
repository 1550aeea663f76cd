use bytes::Bytes;
use iroh::SecretKey;
use peersey::room::coordinates::Coordinates;
use peersey::room::event::{GossipEvent, Reception};
use peersey::{Error, RoomEvent, RoomId, RoomIdParseError, RoomKey};

#[test]
fn named_public_room_is_stable() {
    let id: RoomId = match "community/rust:general".parse() {
        Ok(id) => id,
        Err(error) => panic!("{error:?}"),
    };
    assert_eq!(id.to_string(), "community/rust:general");
}

#[test]
fn random_public_rooms_are_distinct() {
    assert!(RoomId::random() != RoomId::random());
}

#[test]
fn public_room_id_rejects_spaces() {
    assert!(matches!(
        "general chat".parse::<RoomId>(),
        Err(RoomIdParseError::InvalidCharacter { .. })
    ));
}

#[test]
fn empty_public_room_name_fails_before_networking() {
    let result = Coordinates::named("");
    assert!(matches!(result, Err(Error::InvalidRoomName)));
}

#[test]
fn first_white_space_in_a_name_is_named() {
    assert!(matches!(
        " caf\u{e9} \u{3000}b".parse::<RoomId>(),
        Err(RoomIdParseError::InvalidCharacter {
            character: ' ',
            index: 4
        })
    ));
    assert!(matches!(
        "a\u{85}b".parse::<RoomId>(),
        Err(RoomIdParseError::InvalidCharacter {
            character: '\u{85}',
            index: 1
        })
    ));
}

#[test]
fn blank_names_are_empty() {
    assert!(matches!(
        " \t\u{2003}\n".parse::<RoomId>(),
        Err(RoomIdParseError::Empty)
    ));
    assert!(matches!(Coordinates::named(" \n"), Err(Error::InvalidRoomName)));
    assert!(matches!(
        Coordinates::named("general chat"),
        Err(Error::InvalidRoomName)
    ));
}

#[test]
fn every_white_space_character_is_trimmed() {
    for code in 0..=0x10ffffu32 {
        let Some(c) = char::from_u32(code) else {
            continue;
        };
        let padded: String = [c, 'x', c].iter().collect();
        let id = padded.parse::<RoomId>().ok().unwrap().to_string();
        assert_eq!(id == "x", c.is_whitespace());
    }
}

#[test]
fn names_read_back_what_they_show() {
    let id: RoomId = "  general\u{a0}".parse().ok().unwrap();
    assert_eq!(id.to_string(), "general");
    assert!(id.to_string().parse::<RoomId>().ok().unwrap() == id);
    assert!(id.clone() == id);
}

#[test]
fn random_names_are_hexadecimal() {
    assert_eq!(RoomId::from_bytes([0xc4; 32]).to_string(), "c4".repeat(32));
    assert_eq!(RoomId::random().to_string().len(), 64);
}

#[test]
fn private_rooms_meet_by_their_key() {
    let key = RoomKey::from_bytes([0xab; 32]);
    let coordinates = Coordinates::private(&key);
    assert_eq!(coordinates.passphrase(), "ab".repeat(32));
    assert_eq!(coordinates.app_salt(), "peersey/private-room/v1");
    let other = Coordinates::private(&RoomKey::from_bytes([0xac; 32]));
    assert_ne!(coordinates.passphrase(), other.passphrase());
}

#[test]
fn public_rooms_meet_by_their_name() {
    let plain = Coordinates::named("community/rust:general").ok().unwrap();
    let padded = Coordinates::named("\tcommunity/rust:general ").ok().unwrap();
    assert_eq!(plain.passphrase(), "community/rust:general");
    assert_eq!(plain.passphrase(), padded.passphrase());
    assert_eq!(plain.app_salt(), padded.app_salt());
}

#[test]
fn a_public_room_named_like_a_key_is_another_room() {
    let key = RoomKey::from_bytes([0xab; 32]);
    let private = Coordinates::private(&key);
    let public = Coordinates::named(&key.to_string()).ok().unwrap();
    assert_eq!(private.passphrase(), public.passphrase());
    assert_ne!(private.app_salt(), public.app_salt());
}

#[test]
fn receptions_become_room_events() {
    let peer = SecretKey::from_bytes(&[3; 32]).public();
    let event = |gossip| RoomEvent::from_reception(Reception::Event(gossip));
    assert!(matches!(
        event(GossipEvent::NeighborUp(peer)),
        Some(RoomEvent::PeerJoined { peer: joined }) if joined == peer
    ));
    assert!(matches!(
        event(GossipEvent::NeighborDown(peer)),
        Some(RoomEvent::PeerLeft { peer: left }) if left == peer
    ));
    assert!(matches!(
        event(GossipEvent::Received(Bytes::from_static(b"hello"))),
        Some(RoomEvent::Message { content }) if content == "hello"
    ));
    assert!(matches!(event(GossipEvent::Lagged), Some(RoomEvent::Lagged)));
    assert!(matches!(
        RoomEvent::from_reception(Reception::Lagged(5)),
        Some(RoomEvent::Lagged)
    ));
    assert!(RoomEvent::from_reception(Reception::Closed).is_none());
}

#[test]
fn cloned_message_has_the_same_content() {
    let message = RoomEvent::Message {
        content: Bytes::from_static(b"hi"),
    };
    assert!(matches!(message.clone(), RoomEvent::Message { content } if content == "hi"));
}

#[test]
fn a_public_room_is_the_same_by_its_identifier_and_its_text() {
    let id = RoomId::from_bytes([0x5e; 32]);
    let by_id = Coordinates::public(&id);
    let by_text = Coordinates::named(&id.to_string()).ok().unwrap();
    assert_eq!(by_id.passphrase(), by_text.passphrase());
    assert_eq!(by_id.app_salt(), by_text.app_salt());
}

#[test]
fn names_of_different_bytes_differ() {
    assert!(RoomId::from_bytes([1; 32]) == RoomId::from_bytes([1; 32]));
    assert!(RoomId::from_bytes([1; 32]) != RoomId::from_bytes([2; 32]));
}
