use std::time::Duration;

use bytes::Bytes;
use iroh::{EndpointAddr, SecretKey};
use peersey::content::identity::{choose_identity, load_identity};
use peersey::live::packet::MAX_PACKET_SIZE;
use peersey::live::serve::{ServeEvent, ServeStage};
use peersey::live::watch::{ReceiveEvent, WatchEvent, WatchStage};
use peersey::{Error, LiveHost, LiveLink, LivePacket, LiveReceiver, MediaKind};

fn endpoint() -> EndpointAddr {
    EndpointAddr::new(SecretKey::from_bytes(&[7; 32]).public())
}

/// The answer that a host gives to a request, and the channel that it grants.
fn ask(host: &LiveHost, request: Vec<u8>) -> (ServeStage, u8) {
    let stage = ServeStage::Opening
        .next(host, ServeEvent::Opened)
        .unwrap()
        .next(host, ServeEvent::Requested(request))
        .unwrap();
    let answer = stage.answer().unwrap();
    (stage, answer)
}

/// A viewer that has done every step and got this answer.
fn watch(answer: Vec<u8>) -> WatchStage {
    let mut stage = WatchStage::Connecting;
    for _ in 0..4 {
        stage = stage.next(WatchEvent::Done).unwrap();
    }
    stage.next(WatchEvent::Answered(answer)).unwrap()
}

fn receiver() -> LiveReceiver {
    match watch(vec![1]) {
        WatchStage::Watching(receiver) => receiver,
        _ => panic!("not granted"),
    }
}

#[test]
fn streams_realtime_packets_between_nodes() {
    let mut host = LiveHost::new();
    let (stream, link) = host.create(endpoint());

    let encoded = link.to_string();
    assert!(encoded.parse::<LiveLink>().ok().unwrap() == link);
    assert_eq!(link.debug_string(), "LiveLink([REDACTED])");

    let (stage, answer) = ask(&host, link.token().to_vec());
    assert!(matches!(stage, ServeStage::Granting { channel } if channel == stream.channel()));
    let WatchStage::Watching(receiver) = watch(vec![answer]) else {
        panic!("not granted");
    };
    let stage = stage
        .next(&host, ServeEvent::Answered)
        .unwrap()
        .next(&host, ServeEvent::Finished)
        .unwrap();

    let sent = stream
        .send_video(Duration::from_micros(5), Bytes::from("encoded frame"))
        .unwrap();
    let stage = stage
        .next(&host, ServeEvent::Packet(sent))
        .unwrap()
        .next(&host, ServeEvent::Permitted)
        .unwrap();
    let ServeStage::Sending { channel, bytes } = stage else {
        panic!("nothing to send");
    };
    assert_eq!(channel, stream.channel());
    let packet = receiver
        .recv(ReceiveEvent::Received(bytes.clone()))
        .unwrap()
        .expect("publisher closed early");
    assert_eq!(packet.kind, MediaKind::Video);
    assert_eq!(packet.content, "encoded frame");

    host.remove(&stream);
    let stage = ServeStage::Sending { channel, bytes }
        .next(&host, ServeEvent::Sent)
        .unwrap()
        .next(&host, ServeEvent::Ended)
        .unwrap();
    assert!(matches!(stage, ServeStage::Closed));
    assert!(receiver.recv(ReceiveEvent::Closed).unwrap().is_none());
    assert_eq!(ask(&host, link.token().to_vec()).1, 0);
}

#[test]
fn requests_without_an_offer_are_denied() {
    let mut host = LiveHost::new();
    let (_stream, _) = host.create_with_token(endpoint(), [5; 32]);
    assert_eq!(ask(&host, vec![5; 32]).1, 1);
    for request in [vec![], vec![5; 31], vec![6; 32]] {
        let (stage, answer) = ask(&host, request);
        assert!(matches!(stage, ServeStage::Denying));
        assert_eq!(answer, 0);
        let stage = stage.next(&host, ServeEvent::Answered).unwrap();
        assert!(matches!(stage, ServeStage::Flushing));
        let stage = stage.next(&host, ServeEvent::Flushed).unwrap();
        assert!(matches!(stage, ServeStage::Closed));
    }
    assert!(matches!(
        watch(vec![0]),
        WatchStage::Refused(Error::LiveAccessDenied)
    ));
}

#[test]
fn handshake_failures_end_the_connection() {
    let host = LiveHost::new();
    let after = |stage: ServeStage, event| stage.next(&host, event).unwrap();
    assert!(matches!(
        after(ServeStage::Opening, ServeEvent::OpenTimedOut),
        ServeStage::Closed
    ));
    assert!(matches!(
        after(ServeStage::Opening, ServeEvent::OpenFailed),
        ServeStage::Failed
    ));
    assert!(matches!(
        after(ServeStage::Reading, ServeEvent::RequestFailed),
        ServeStage::Closed
    ));
    assert!(matches!(
        after(ServeStage::Denying, ServeEvent::AnswerFailed),
        ServeStage::Closed
    ));
    assert!(matches!(
        after(ServeStage::Granting { channel: 0 }, ServeEvent::AnswerFailed),
        ServeStage::Closed
    ));
    assert!(matches!(
        after(
            ServeStage::Confirming { channel: 0 },
            ServeEvent::FinishFailed
        ),
        ServeStage::Failed
    ));
}

#[test]
fn slow_viewers_skip_and_the_end_closes() {
    let host = LiveHost::new();
    let stage = ServeStage::Receiving { channel: 4 }
        .next(&host, ServeEvent::Skipped)
        .unwrap();
    assert!(matches!(stage, ServeStage::Receiving { channel: 4 }));
    for event in [ServeEvent::Ended, ServeEvent::ChannelClosed] {
        let stage = ServeStage::Receiving { channel: 4 }
            .next(&host, event)
            .unwrap();
        assert!(matches!(stage, ServeStage::Closed));
    }
    let packet = LivePacket {
        kind: MediaKind::Data,
        timestamp: Duration::ZERO,
        content: Bytes::new(),
    };
    let stage = ServeStage::Admitting { channel: 4, packet }
        .next(&host, ServeEvent::PermitsClosed)
        .unwrap();
    assert!(matches!(stage, ServeStage::Closed));
}

#[test]
fn viewers_who_leave_are_let_go() {
    let host = LiveHost::new();
    let packet = LivePacket {
        kind: MediaKind::Data,
        timestamp: Duration::ZERO,
        content: Bytes::new(),
    };
    for stage in [
        ServeStage::Receiving { channel: 2 },
        ServeStage::Admitting { channel: 2, packet },
    ] {
        let stage = stage.next(&host, ServeEvent::ViewerLeft).unwrap();
        assert!(matches!(stage, ServeStage::Closed));
        assert!(stage.next(&host, ServeEvent::Permitted).is_none());
    }
}

#[test]
fn viewers_get_the_packets_of_their_stream_in_order() {
    let mut host = LiveHost::new();
    let (_other, _) = host.create_with_token(endpoint(), [1; 32]);
    let (stream, link) = host.create_with_token(endpoint(), [2; 32]);
    let mut stage = ask(&host, link.token().to_vec())
        .0
        .next(&host, ServeEvent::Answered)
        .unwrap()
        .next(&host, ServeEvent::Finished)
        .unwrap();
    for content in ["one", "two", "three"] {
        assert!(
            matches!(stage, ServeStage::Receiving { channel } if channel == stream.channel())
        );
        let packet = stream
            .send_audio(Duration::from_micros(9), Bytes::from(content))
            .unwrap();
        let sending = stage
            .next(&host, ServeEvent::Packet(packet.clone()))
            .unwrap()
            .next(&host, ServeEvent::Permitted)
            .unwrap();
        let ServeStage::Sending { channel, bytes } = sending else {
            panic!("nothing to send");
        };
        assert_eq!(bytes, packet.encode());
        stage = ServeStage::Sending { channel, bytes }
            .next(&host, ServeEvent::Sent)
            .unwrap();
    }
}

#[test]
fn events_of_other_stages_are_not_taken() {
    let host = LiveHost::new();
    assert!(ServeStage::Opening.next(&host, ServeEvent::Sent).is_none());
    assert!(ServeStage::Closed.next(&host, ServeEvent::Opened).is_none());
    assert!(ServeStage::Receiving { channel: 0 }.answer().is_none());
    assert!(ServeStage::Opening
        .next(&host, ServeEvent::ViewerLeft)
        .is_none());
    assert!(WatchStage::Connecting.next(WatchEvent::TimedOut).is_none());
    assert!(watch(vec![0]).next(WatchEvent::Done).is_none());
}

#[test]
fn streams_leave_without_taking_others() {
    let mut host = LiveHost::new();
    let (first, _) = host.create_with_token(endpoint(), [1; 32]);
    let (second, _) = host.create_with_token(endpoint(), [2; 32]);
    let (again, _) = host.create_with_token(endpoint(), [1; 32]);
    assert_eq!(first.channel(), 0);
    assert_eq!(host.issued(), 3);
    assert_eq!(host.lookup(&[1; 32]), Some(again.channel()));
    host.remove(&first);
    assert_eq!(host.lookup(&[1; 32]), Some(again.channel()));
    host.remove(&again);
    assert_eq!(host.lookup(&[1; 32]), None);
    assert_eq!(host.lookup(&[2; 32]), Some(second.channel()));
    host.remove(&again);
    host.remove(&second);
    assert_eq!(host.lookup(&[2; 32]), None);
}

#[test]
fn random_tokens_are_distinct() {
    let mut host = LiveHost::new();
    let (_a, first) = host.create(endpoint());
    let (_b, second) = host.create(endpoint());
    assert!(first.token() != second.token());
    assert!(host.lookup(&first.token()).is_some());
    assert!(host.lookup(&second.token()).is_some());
}

#[test]
fn streams_hold_the_limit() {
    let mut host = LiveHost::new();
    let (stream, _) = host.create(endpoint());
    let largest = Bytes::from(vec![0; MAX_PACKET_SIZE]);
    assert!(stream.send_audio(Duration::ZERO, largest).is_ok());
    let over = Bytes::from(vec![0; MAX_PACKET_SIZE + 1]);
    assert!(matches!(
        stream.send_data(Duration::ZERO, over),
        Err(Error::LivePacketTooLarge {
            size: 8388609,
            max: 8388608
        })
    ));
}

#[test]
fn sent_packets_have_their_kind_and_time() {
    let mut host = LiveHost::new();
    let (stream, _) = host.create(endpoint());
    let time = Duration::from_millis(12);
    let audio = stream.send_audio(time, Bytes::from_static(b"opus")).unwrap();
    assert_eq!(audio.kind, MediaKind::Audio);
    assert_eq!(audio.timestamp, time);
    assert_eq!(audio.content, "opus");
    let data = stream.send_data(time, Bytes::from_static(b"cursor")).unwrap();
    assert_eq!(data.kind, MediaKind::Data);
}

#[test]
fn only_one_answer_grants() {
    assert!(matches!(watch(vec![1]), WatchStage::Watching(_)));
    for answer in [vec![], vec![0], vec![2], vec![1, 1]] {
        assert!(matches!(
            watch(answer),
            WatchStage::Refused(Error::LiveAccessDenied)
        ));
    }
}

#[test]
fn viewer_reports_timeouts_and_failures() {
    assert!(matches!(
        WatchStage::Awaiting.next(WatchEvent::TimedOut),
        Some(WatchStage::Refused(Error::LiveHandshakeTimeout))
    ));
    for stage in [
        WatchStage::Connecting,
        WatchStage::Opening,
        WatchStage::Requesting,
        WatchStage::Finishing,
        WatchStage::Awaiting,
    ] {
        assert!(matches!(
            stage.next(WatchEvent::Failed("lost".to_owned())),
            Some(WatchStage::Refused(Error::P2p(words))) if words == "lost"
        ));
    }
}

#[test]
fn receiver_reports_what_came() {
    let receiver = receiver();
    assert!(matches!(
        receiver.recv(ReceiveEvent::Failed("reset".to_owned())),
        Err(Error::P2p(words)) if words == "reset"
    ));
    assert!(matches!(
        receiver.recv(ReceiveEvent::Received(vec![1, 9])),
        Err(Error::InvalidLivePacket)
    ));
}

#[test]
fn identity_survives_a_restart() {
    let first = load_identity("data/identity", None).unwrap();
    assert!(first.is_fresh());
    let stored = first.secret().to_vec();
    let second = load_identity("data/identity", Some(stored)).unwrap();
    assert!(!second.is_fresh());
    assert_eq!(second.secret(), first.secret());
}

#[test]
fn identity_of_another_length_is_refused() {
    for length in [0, 31, 33] {
        assert!(matches!(
            choose_identity("data/identity", Some(vec![1; length]), [0; 32]),
            Err(Error::InvalidIdentity { path, length: found })
                if path == "data/identity" && found == length
        ));
    }
    let fresh = choose_identity("x", None, [8; 32]).unwrap();
    assert_eq!(fresh.secret(), [8; 32]);
}

#[test]
fn later_packets_have_later_timestamps() {
    let mut host = LiveHost::new();
    let (stream, _) = host.create(endpoint());
    let at = |nanos| {
        let packet = stream
            .send_data(Duration::from_nanos(nanos), Bytes::new())
            .unwrap();
        let read = LivePacket::decode(packet.encode()).unwrap();
        (packet.timestamp, read.timestamp)
    };
    let (first, first_read) = at(1_999);
    let (later, later_read) = at(2_000);
    assert!(first < later);
    assert!(first_read < later_read);
    let (latest, latest_read) = at(2_999);
    assert!(later < latest);
    assert_eq!(later_read, latest_read);
}

#[test]
fn channels_are_not_reused() {
    let mut host = LiveHost::new();
    let (first, _) = host.create_with_token(endpoint(), [1; 32]);
    host.remove(&first);
    let (second, _) = host.create_with_token(endpoint(), [1; 32]);
    assert_ne!(first.channel(), second.channel());
    assert!(second.channel() < host.issued());
}
