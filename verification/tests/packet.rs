use std::time::Duration;

use bytes::Bytes;
use peersey::live::packet::{HEADER_LEN, MAX_PACKET_SIZE};
use peersey::{Error, LivePacket, MediaKind};

#[test]
fn packet_round_trips() {
    let packet = LivePacket {
        kind: MediaKind::Video,
        timestamp: Duration::from_micros(42),
        content: Bytes::from_static(b"frame"),
    };
    assert_eq!(LivePacket::decode(packet.encode()).unwrap(), packet);
}

#[test]
fn malformed_packets_are_rejected() {
    assert!(matches!(
        LivePacket::decode(vec![1, 9]),
        Err(Error::InvalidLivePacket)
    ));
}

#[test]
fn packet_has_this_form_on_the_wire() {
    let packet = LivePacket {
        kind: MediaKind::Data,
        timestamp: Duration::from_micros(0x0102_0304_0506_0708),
        content: Bytes::from_static(b"abc"),
    };
    assert_eq!(
        packet.encode(),
        vec![1, 2, 1, 2, 3, 4, 5, 6, 7, 8, 0, 0, 0, 3, b'a', b'b', b'c']
    );
}

#[test]
fn kinds_have_these_bytes() {
    assert_eq!(MediaKind::Video.as_byte(), 0);
    assert_eq!(MediaKind::Audio.as_byte(), 1);
    assert_eq!(MediaKind::Data.as_byte(), 2);
    for kind in [MediaKind::Video, MediaKind::Audio, MediaKind::Data] {
        assert_eq!(MediaKind::from_byte(kind.as_byte()).unwrap(), kind);
    }
    assert!(matches!(
        MediaKind::from_byte(3),
        Err(Error::InvalidLivePacket)
    ));
}

#[test]
fn timestamps_are_cut_to_microseconds() {
    let packet = LivePacket {
        kind: MediaKind::Audio,
        timestamp: Duration::new(3, 4_999),
        content: Bytes::new(),
    };
    let read = LivePacket::decode(packet.encode()).unwrap();
    assert_eq!(read.timestamp, Duration::from_micros(3_000_004));
    assert!(read != packet);
}

#[test]
fn timestamps_saturate() {
    let packet = LivePacket {
        kind: MediaKind::Audio,
        timestamp: Duration::MAX,
        content: Bytes::new(),
    };
    let read = LivePacket::decode(packet.encode()).unwrap();
    assert_eq!(read.timestamp, Duration::from_micros(u64::MAX));
}

#[test]
fn each_part_of_the_header_counts() {
    let good = LivePacket {
        kind: MediaKind::Video,
        timestamp: Duration::from_micros(7),
        content: Bytes::from_static(b"xy"),
    }
    .encode();
    assert_eq!(good.len(), HEADER_LEN + 2);
    assert_eq!(LivePacket::decode(good.clone()).unwrap().encode(), good);
    for (place, value) in [(0, 2), (1, 3), (10, 1), (13, 1), (13, 3)] {
        let mut bad = good.clone();
        bad[place] = value;
        assert!(matches!(
            LivePacket::decode(bad),
            Err(Error::InvalidLivePacket)
        ));
    }
    let mut short = good.clone();
    short.pop();
    assert!(LivePacket::decode(short).is_err());
    let mut long = good;
    long.push(0);
    assert!(LivePacket::decode(long).is_err());
}

#[test]
fn empty_content_is_a_packet() {
    let packet = LivePacket {
        kind: MediaKind::Data,
        timestamp: Duration::ZERO,
        content: Bytes::new(),
    };
    let bytes = packet.encode();
    assert_eq!(bytes, vec![1, 2, 0, 0, 0, 0, 0, 0, 0, 0, 0, 0, 0, 0]);
    assert!(LivePacket::decode(bytes).unwrap() == packet);
    assert!(LivePacket::decode(vec![]).is_err());
}

#[test]
fn readers_hold_the_limit() {
    let packet = |size: usize| LivePacket {
        kind: MediaKind::Video,
        timestamp: Duration::ZERO,
        content: Bytes::from(vec![5; size]),
    };
    assert_eq!(MAX_PACKET_SIZE, 8 * 1024 * 1024);
    let largest = packet(MAX_PACKET_SIZE);
    assert!(LivePacket::decode(largest.encode()).unwrap() == largest);
    assert!(matches!(
        LivePacket::decode(packet(MAX_PACKET_SIZE + 1).encode()),
        Err(Error::InvalidLivePacket)
    ));
}

#[test]
fn cloned_packet_is_equal() {
    let packet = LivePacket {
        kind: MediaKind::Video,
        timestamp: Duration::from_nanos(1),
        content: Bytes::from_static(b"frame"),
    };
    assert!(packet.clone() == packet);
    let mut other = packet.clone();
    other.content = Bytes::from_static(b"frams");
    assert!(other != packet);
}
