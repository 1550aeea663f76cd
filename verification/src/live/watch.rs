//! The viewer's side of a live stream.

use std::time::Duration;

use bytes::Bytes;
use vstd::prelude::*;

use super::host::{is_sent, Streams};
use super::packet::{
    duration_nanos, is_packet, packet_bytes, packet_of, wire_micros, LivePacket, MediaKind,
    PacketView, HEADER_LEN, MAX_PACKET_SIZE,
};
use super::serve::{answer_byte, answer_to, ANSWER_LEN, GRANTED};
use crate::error::Error;
use crate::payload::buffer;

verus! {

/// What to do next to watch a stream.
pub enum WatchStage {
    /// Connect to the publisher.
    Connecting,
    /// Open a request.
    Opening,
    /// Write the link's token.
    Requesting,
    /// End the request.
    Finishing,
    /// Read the answer, no longer than [`ANSWER_LEN`], within the handshake's time.
    Awaiting,
    /// Receive packets.
    Watching(LiveReceiver),
    /// Give up, for this reason.
    Refused(Error),
}

/// What came of a stage.
pub enum WatchEvent {
    /// It was done.
    Done,
    /// It failed, with what the network said.
    Failed(String),
    /// The answer did not come in time.
    TimedOut,
    /// The publisher answered with these bytes.
    Answered(Vec<u8>),
}

/// Why watching was given up.
pub enum RefusalView {
    /// The network failed, with these words.
    Failed(Seq<char>),
    /// The answer did not come in time.
    TimedOut,
    /// The publisher refused.
    Denied,
    /// Anything else.
    Other,
}

/// A stage, with what it holds.
pub enum WatchView {
    /// See [`WatchStage::Connecting`].
    Connecting,
    /// See [`WatchStage::Opening`].
    Opening,
    /// See [`WatchStage::Requesting`].
    Requesting,
    /// See [`WatchStage::Finishing`].
    Finishing,
    /// See [`WatchStage::Awaiting`].
    Awaiting,
    /// See [`WatchStage::Watching`].
    Watching,
    /// See [`WatchStage::Refused`].
    Refused(RefusalView),
}

/// An event, with what it holds.
pub enum WatchEventView {
    /// See [`WatchEvent::Done`].
    Done,
    /// See [`WatchEvent::Failed`].
    Failed(Seq<char>),
    /// See [`WatchEvent::TimedOut`].
    TimedOut,
    /// See [`WatchEvent::Answered`].
    Answered(Seq<u8>),
}

impl View for WatchStage {
    type V = WatchView;

    open spec fn view(&self) -> WatchView {
        match self {
            WatchStage::Connecting => WatchView::Connecting,
            WatchStage::Opening => WatchView::Opening,
            WatchStage::Requesting => WatchView::Requesting,
            WatchStage::Finishing => WatchView::Finishing,
            WatchStage::Awaiting => WatchView::Awaiting,
            WatchStage::Watching(_) => WatchView::Watching,
            WatchStage::Refused(error) => WatchView::Refused(
                match error {
                    Error::P2p(words) => RefusalView::Failed(words@),
                    Error::LiveHandshakeTimeout => RefusalView::TimedOut,
                    Error::LiveAccessDenied => RefusalView::Denied,
                    _ => RefusalView::Other,
                },
            ),
        }
    }
}

impl View for WatchEvent {
    type V = WatchEventView;

    open spec fn view(&self) -> WatchEventView {
        match self {
            WatchEvent::Done => WatchEventView::Done,
            WatchEvent::Failed(words) => WatchEventView::Failed(words@),
            WatchEvent::TimedOut => WatchEventView::TimedOut,
            WatchEvent::Answered(bytes) => WatchEventView::Answered(bytes@),
        }
    }
}

/// Whether a stage is part of the handshake.
pub open spec fn in_handshake(stage: WatchView) -> bool {
    !(stage is Watching) && !(stage is Refused)
}

/// The stage that follows a stage and its event; `None` where the event is none of
/// the stage's.
pub open spec fn next_watch(stage: WatchView, event: WatchEventView) -> Option<WatchView> {
    match event {
        WatchEventView::Done => match stage {
            WatchView::Connecting => Some(WatchView::Opening),
            WatchView::Opening => Some(WatchView::Requesting),
            WatchView::Requesting => Some(WatchView::Finishing),
            WatchView::Finishing => Some(WatchView::Awaiting),
            _ => None,
        },
        WatchEventView::Failed(words) => if in_handshake(stage) {
            Some(WatchView::Refused(RefusalView::Failed(words)))
        } else {
            None
        },
        WatchEventView::TimedOut => if stage is Awaiting {
            Some(WatchView::Refused(RefusalView::TimedOut))
        } else {
            None
        },
        WatchEventView::Answered(answer) => if stage is Awaiting {
            if answer == seq![GRANTED] {
                Some(WatchView::Watching)
            } else {
                Some(WatchView::Refused(RefusalView::Denied))
            }
        } else {
            None
        },
    }
}

impl WatchStage {
    /// The stage that follows, or `None` where the event is none of this stage's.
    pub fn next(self, event: WatchEvent) -> (stage: Option<WatchStage>)
        ensures
            match stage {
                Some(stage) => next_watch(self@, event@) == Some(stage@),
                None => next_watch(self@, event@) is None,
            },
            self is Connecting && event is Done ==> stage == Some(WatchStage::Opening),
            self is Opening && event is Done ==> stage == Some(WatchStage::Requesting),
            self is Requesting && event is Done ==> stage == Some(WatchStage::Finishing),
            self is Finishing && event is Done ==> stage == Some(WatchStage::Awaiting),
            event matches WatchEvent::Answered(answer) ==> self is Awaiting ==> {
                if answer@ == seq![1u8] {
                    stage matches Some(WatchStage::Watching(_))
                } else {
                    stage == Some(WatchStage::Refused(Error::LiveAccessDenied))
                }
            },
            self is Awaiting && event is TimedOut ==> stage == Some(
                WatchStage::Refused(Error::LiveHandshakeTimeout),
            ),
            event matches WatchEvent::Failed(words) ==> self is Connecting || self is Opening
                || self is Requesting || self is Finishing || self is Awaiting ==> {
                &&& stage matches Some(WatchStage::Refused(Error::P2p(said)))
                &&& said@ == words@
            },
    {
        match event {
            WatchEvent::Done => match self {
                WatchStage::Connecting => Some(WatchStage::Opening),
                WatchStage::Opening => Some(WatchStage::Requesting),
                WatchStage::Requesting => Some(WatchStage::Finishing),
                WatchStage::Finishing => Some(WatchStage::Awaiting),
                _ => None,
            },
            WatchEvent::Failed(words) => match self {
                WatchStage::Watching(_) => None,
                WatchStage::Refused(_) => None,
                _ => Some(WatchStage::Refused(Error::P2p(words))),
            },
            WatchEvent::TimedOut => match self {
                WatchStage::Awaiting => Some(WatchStage::Refused(Error::LiveHandshakeTimeout)),
                _ => None,
            },
            WatchEvent::Answered(answer) => match self {
                WatchStage::Awaiting => {
                    if answer.len() == ANSWER_LEN && answer[0] == GRANTED {
                        assert(answer@ =~= seq![GRANTED]);
                        Some(WatchStage::Watching(LiveReceiver(())))
                    } else {
                        Some(WatchStage::Refused(Error::LiveAccessDenied))
                    }
                },
                _ => None,
            },
        }
    }
}

/// Viewer connected to a remote live stream.
pub struct LiveReceiver(());

/// What came of waiting for a packet.
pub enum ReceiveEvent {
    /// The publisher closed the connection.
    Closed,
    /// The next packet could not be received, with what the network said.
    Failed(String),
    /// The bytes of the next packet.
    Received(Vec<u8>),
}

impl LiveReceiver {
    /// The next packet, or `None` when the publisher closed.
    pub fn recv(&self, event: ReceiveEvent) -> (packet: Result<Option<LivePacket>, Error>)
        ensures
            match event {
                ReceiveEvent::Closed => packet matches Ok(None),
                ReceiveEvent::Failed(words) => packet matches Err(Error::P2p(said)) && said@
                    == words@,
                ReceiveEvent::Received(bytes) => match packet {
                    Ok(Some(packet)) => is_packet(bytes@) && packet@ == packet_of(bytes@),
                    Ok(None) => false,
                    Err(error) => !is_packet(bytes@) && error is InvalidLivePacket,
                },
            },
    {
        match event {
            ReceiveEvent::Closed => Ok(None),
            ReceiveEvent::Failed(words) => Err(Error::P2p(words)),
            ReceiveEvent::Received(bytes) => match LivePacket::decode(bytes) {
                Ok(packet) => Ok(Some(packet)),
                Err(error) => Err(error),
            },
        }
    }
}

/// The stage that a viewer is at after these events, from the first stage on.
pub open spec fn watch_after(events: Seq<WatchEventView>) -> Option<WatchView>
    decreases events.len(),
{
    if events.len() == 0 {
        Some(WatchView::Connecting)
    } else {
        match watch_after(events.drop_last()) {
            Some(stage) => next_watch(stage, events.last()),
            None => None,
        }
    }
}

/// The handshake that goes through: every step done, and this answer.
pub open spec fn handshake(answer: Seq<u8>) -> Seq<WatchEventView> {
    seq![
        WatchEventView::Done,
        WatchEventView::Done,
        WatchEventView::Done,
        WatchEventView::Done,
        WatchEventView::Answered(answer),
    ]
}

/// A viewer whose steps all went through watches if and only if the stream of its
/// token is on offer at the publisher; else it is told that access was denied.
pub proof fn law_watching_takes_a_token_on_offer(streams: Streams, token: Seq<u8>)
    ensures
        answer_byte(answer_to(streams, token)) is Some,
        watch_after(handshake(seq![answer_byte(answer_to(streams, token))->0])) == Some(
            if streams.dom().contains(token) {
                WatchView::Watching
            } else {
                WatchView::Refused(RefusalView::Denied)
            },
        ),
{
    let answer = seq![answer_byte(answer_to(streams, token))->0];
    lemma_handshake(answer);
    assert(answer[0] == seq![GRANTED][0] <==> answer =~= seq![GRANTED]);
}

/// After every step and an answer, the answer decides.
proof fn lemma_handshake(answer: Seq<u8>)
    ensures
        watch_after(handshake(answer)) == next_watch(
            WatchView::Awaiting,
            WatchEventView::Answered(answer),
        ),
{
    let events = handshake(answer);
    reveal_with_fuel(watch_after, 6);
    let done = WatchEventView::Done;
    assert(events.drop_last() =~= seq![done, done, done, done]);
    assert(seq![done, done, done, done].drop_last() =~= seq![done, done, done]);
    assert(seq![done, done, done].drop_last() =~= seq![done, done]);
    assert(seq![done, done].drop_last() =~= seq![done]);
    assert(seq![done].drop_last() =~= Seq::<WatchEventView>::empty());
}

/// A viewer watches only after every step was done, in order, and the publisher's
/// answer was the one byte that grants.
pub proof fn law_only_a_grant_opens(events: Seq<WatchEventView>)
    requires
        watch_after(events) == Some(WatchView::Watching),
    ensures
        events == handshake(seq![GRANTED]),
{
    let e4 = events.drop_last();
    let e3 = e4.drop_last();
    let e2 = e3.drop_last();
    let e1 = e2.drop_last();
    let e0 = e1.drop_last();
    reveal_with_fuel(watch_after, 6);
    assert(watch_after(e4) == Some(WatchView::Awaiting));
    assert(watch_after(e3) == Some(WatchView::Finishing));
    assert(watch_after(e2) == Some(WatchView::Requesting));
    assert(watch_after(e1) == Some(WatchView::Opening));
    assert(watch_after(e0) == Some(WatchView::Connecting));
    assert(e0.len() == 0);
    assert(events =~= handshake(seq![GRANTED]));
}

/// What a stream sends, its viewers receive: the same kind and content, and the
/// timestamp in whole microseconds. It is never longer than a viewer reads.
pub proof fn law_sent_packet_is_received(
    kind: MediaKind,
    elapsed: Duration,
    content: Bytes,
    packet: LivePacket,
)
    requires
        is_sent(kind, elapsed, content, Ok(packet)),
    ensures
        packet_bytes(packet@).len() <= HEADER_LEN + MAX_PACKET_SIZE,
        is_packet(packet_bytes(packet@)),
        packet_of(packet_bytes(packet@)) == (PacketView {
            kind,
            nanos: wire_micros(duration_nanos(elapsed)) * 1000,
            content: buffer(content),
        }),
{
    super::packet::law_packet_round_trip(packet@);
}

/// Each step that is done leads to the next, and the one byte 1 opens the stream while every
/// other answer is a refusal.
pub proof fn law_steps_lead_to_an_answer(answer: Vec<u8>)
    ensures
        next_watch((WatchStage::Connecting)@, (WatchEvent::Done)@) == Some(
            (WatchStage::Opening)@,
        ),
        next_watch((WatchStage::Opening)@, (WatchEvent::Done)@) == Some((WatchStage::Requesting)@),
        next_watch((WatchStage::Requesting)@, (WatchEvent::Done)@) == Some(
            (WatchStage::Finishing)@,
        ),
        next_watch((WatchStage::Finishing)@, (WatchEvent::Done)@) == Some((WatchStage::Awaiting)@),
        answer@ == seq![1u8] <==> next_watch(
            (WatchStage::Awaiting)@,
            (WatchEvent::Answered(answer))@,
        ) == Some(WatchView::Watching),
        answer@ != seq![1u8] <==> next_watch(
            (WatchStage::Awaiting)@,
            (WatchEvent::Answered(answer))@,
        ) == Some((WatchStage::Refused(Error::LiveAccessDenied))@),
{
}

/// A failure at any step is reported in the network's own words, and an answer that is late
/// as such.
pub proof fn law_failures_are_reported(stage: WatchView, words: String)
    requires
        stage is Connecting || stage is Opening || stage is Requesting || stage is Finishing
            || stage is Awaiting,
    ensures
        next_watch(stage, (WatchEvent::Failed(words))@) == Some(
            (WatchStage::Refused(Error::P2p(words)))@,
        ),
        (WatchStage::Refused(Error::P2p(words)))@ == WatchView::Refused(
            RefusalView::Failed(words@),
        ),
        stage is Awaiting <==> next_watch(stage, (WatchEvent::TimedOut)@) == Some(
            (WatchStage::Refused(Error::LiveHandshakeTimeout))@,
        ),
        (WatchStage::Refused(Error::LiveHandshakeTimeout))@ == WatchView::Refused(
            RefusalView::TimedOut,
        ),
        (WatchStage::Refused(Error::LiveAccessDenied))@ == WatchView::Refused(RefusalView::Denied),
{
}

/// Each stage takes the events that can come of it, and no others: what is done stays done.
pub proof fn law_which_events_watching_takes(stage: WatchView, event: WatchEventView)
    ensures
        next_watch(stage, event) is Some <==> {
            ||| event is Done && (stage is Connecting || stage is Opening || stage is Requesting
                || stage is Finishing)
            ||| event is Failed && (stage is Connecting || stage is Opening || stage is Requesting
                || stage is Finishing || stage is Awaiting)
            ||| (event is TimedOut || event is Answered) && stage is Awaiting
        },
{
}

} // verus!
