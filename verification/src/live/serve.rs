//! How a publisher serves one viewer.
//!
//! A viewer's connection goes through stages. Each stage says what to do next;
//! what came of it is an event, and the stage and the event give the next stage.

use vstd::prelude::*;

use super::host::{without_stream, LiveHost, Streams};
use super::packet::{packet_bytes, LivePacket, PacketView};

verus! {

/// The protocol that live connections are made for.
pub const ALPN: &'static str = "peersey/live/1";

/// Length of a stream's token, and the most that a request may hold.
pub const TOKEN_LEN: usize = 32;

/// Length of an answer, and the most that a viewer reads of one.
pub const ANSWER_LEN: usize = 1;

/// The answer to a viewer whose token is on offer.
pub const GRANTED: u8 = 1;

/// The answer to any other viewer.
pub const DENIED: u8 = 0;

/// Seconds that either side waits for the other in the handshake.
pub const HANDSHAKE_TIMEOUT_SECS: u64 = 10;

/// Seconds that a refused viewer has to take its answer.
pub const DENIAL_FLUSH_TIMEOUT_SECS: u64 = 1;

/// Packets that may be on their way to one viewer at a time.
pub const SEND_CONCURRENCY: usize = 32;

/// What to do next for a viewer.
pub enum ServeStage {
    /// Wait for the viewer to open a request, within the handshake's time.
    Opening,
    /// Read the request, no longer than a token, within the handshake's time.
    Reading,
    /// Answer that the stream is not on offer.
    Denying,
    /// End the answer and give the viewer its time to take it.
    Flushing,
    /// Subscribe to the channel and answer that the stream is on offer.
    Granting {
        /// The channel of the stream.
        channel: u64,
    },
    /// End the answer.
    Confirming {
        /// The channel of the stream.
        channel: u64,
    },
    /// Wait for the channel's next packet, or for the viewer to leave.
    Receiving {
        /// The channel of the stream.
        channel: u64,
    },
    /// Wait until the packet may be sent, or for the viewer to leave.
    Admitting {
        /// The channel of the stream.
        channel: u64,
        /// The packet.
        packet: LivePacket,
    },
    /// Start to send the bytes, on a stream of their own.
    Sending {
        /// The channel of the stream.
        channel: u64,
        /// What to send.
        bytes: Vec<u8>,
    },
    /// Let the connection go.
    Closed,
    /// Let the connection go, and report that it failed.
    Failed,
}

/// What came of a stage.
pub enum ServeEvent {
    /// The viewer opened a request.
    Opened,
    /// The viewer opened no request in time.
    OpenTimedOut,
    /// The connection failed before a request.
    OpenFailed,
    /// The viewer sent this request.
    Requested(Vec<u8>),
    /// The request was too long, failed or was late.
    RequestFailed,
    /// The answer was written.
    Answered,
    /// The answer could not be written.
    AnswerFailed,
    /// The viewer took its refusal, or had its time for it.
    Flushed,
    /// The answer was ended.
    Finished,
    /// The answer could not be ended.
    FinishFailed,
    /// The channel gave a packet.
    Packet(LivePacket),
    /// The publisher ended the stream.
    Ended,
    /// The viewer fell behind and the channel dropped packets.
    Skipped,
    /// The channel is gone.
    ChannelClosed,
    /// The packet may be sent.
    Permitted,
    /// Nothing may be sent any more.
    PermitsClosed,
    /// Sending was started.
    Sent,
    /// The viewer closed the connection, or lost it.
    ViewerLeft,
}

/// A stage, with what it holds.
pub enum StageView {
    /// See [`ServeStage::Opening`].
    Opening,
    /// See [`ServeStage::Reading`].
    Reading,
    /// See [`ServeStage::Denying`].
    Denying,
    /// See [`ServeStage::Flushing`].
    Flushing,
    /// See [`ServeStage::Granting`].
    Granting(u64),
    /// See [`ServeStage::Confirming`].
    Confirming(u64),
    /// See [`ServeStage::Receiving`].
    Receiving(u64),
    /// See [`ServeStage::Admitting`].
    Admitting(u64, PacketView),
    /// See [`ServeStage::Sending`].
    Sending(u64, Seq<u8>),
    /// See [`ServeStage::Closed`].
    Closed,
    /// See [`ServeStage::Failed`].
    Failed,
}

/// An event, with what it holds.
pub enum EventView {
    /// See [`ServeEvent::Opened`].
    Opened,
    /// See [`ServeEvent::OpenTimedOut`].
    OpenTimedOut,
    /// See [`ServeEvent::OpenFailed`].
    OpenFailed,
    /// See [`ServeEvent::Requested`].
    Requested(Seq<u8>),
    /// See [`ServeEvent::RequestFailed`].
    RequestFailed,
    /// See [`ServeEvent::Answered`].
    Answered,
    /// See [`ServeEvent::AnswerFailed`].
    AnswerFailed,
    /// See [`ServeEvent::Flushed`].
    Flushed,
    /// See [`ServeEvent::Finished`].
    Finished,
    /// See [`ServeEvent::FinishFailed`].
    FinishFailed,
    /// See [`ServeEvent::Packet`].
    Packet(PacketView),
    /// See [`ServeEvent::Ended`].
    Ended,
    /// See [`ServeEvent::Skipped`].
    Skipped,
    /// See [`ServeEvent::ChannelClosed`].
    ChannelClosed,
    /// See [`ServeEvent::Permitted`].
    Permitted,
    /// See [`ServeEvent::PermitsClosed`].
    PermitsClosed,
    /// See [`ServeEvent::Sent`].
    Sent,
    /// See [`ServeEvent::ViewerLeft`].
    ViewerLeft,
}

impl View for ServeStage {
    type V = StageView;

    open spec fn view(&self) -> StageView {
        match self {
            ServeStage::Opening => StageView::Opening,
            ServeStage::Reading => StageView::Reading,
            ServeStage::Denying => StageView::Denying,
            ServeStage::Flushing => StageView::Flushing,
            ServeStage::Granting { channel } => StageView::Granting(*channel),
            ServeStage::Confirming { channel } => StageView::Confirming(*channel),
            ServeStage::Receiving { channel } => StageView::Receiving(*channel),
            ServeStage::Admitting { channel, packet } => StageView::Admitting(*channel, packet@),
            ServeStage::Sending { channel, bytes } => StageView::Sending(*channel, bytes@),
            ServeStage::Closed => StageView::Closed,
            ServeStage::Failed => StageView::Failed,
        }
    }
}

impl View for ServeEvent {
    type V = EventView;

    open spec fn view(&self) -> EventView {
        match self {
            ServeEvent::Opened => EventView::Opened,
            ServeEvent::OpenTimedOut => EventView::OpenTimedOut,
            ServeEvent::OpenFailed => EventView::OpenFailed,
            ServeEvent::Requested(request) => EventView::Requested(request@),
            ServeEvent::RequestFailed => EventView::RequestFailed,
            ServeEvent::Answered => EventView::Answered,
            ServeEvent::AnswerFailed => EventView::AnswerFailed,
            ServeEvent::Flushed => EventView::Flushed,
            ServeEvent::Finished => EventView::Finished,
            ServeEvent::FinishFailed => EventView::FinishFailed,
            ServeEvent::Packet(packet) => EventView::Packet(packet@),
            ServeEvent::Ended => EventView::Ended,
            ServeEvent::Skipped => EventView::Skipped,
            ServeEvent::ChannelClosed => EventView::ChannelClosed,
            ServeEvent::Permitted => EventView::Permitted,
            ServeEvent::PermitsClosed => EventView::PermitsClosed,
            ServeEvent::Sent => EventView::Sent,
            ServeEvent::ViewerLeft => EventView::ViewerLeft,
        }
    }
}

/// The stage that answers a request, with the streams on offer when it was read.
pub open spec fn answer_to(streams: Streams, request: Seq<u8>) -> StageView {
    if streams.dom().contains(request) {
        StageView::Granting(streams[request])
    } else {
        StageView::Denying
    }
}

/// The stage that follows a stage and its event, with the streams that are on
/// offer; `None` where the event is none of the stage's.
pub open spec fn next_stage(stage: StageView, streams: Streams, event: EventView) -> Option<
    StageView,
> {
    match (stage, event) {
        (StageView::Opening, EventView::Opened) => Some(StageView::Reading),
        (StageView::Opening, EventView::OpenTimedOut) => Some(StageView::Closed),
        (StageView::Opening, EventView::OpenFailed) => Some(StageView::Failed),
        (StageView::Reading, EventView::Requested(request)) => Some(answer_to(streams, request)),
        (StageView::Reading, EventView::RequestFailed) => Some(StageView::Closed),
        (StageView::Denying, EventView::Answered) => Some(StageView::Flushing),
        (StageView::Denying, EventView::AnswerFailed) => Some(StageView::Closed),
        (StageView::Flushing, EventView::Flushed) => Some(StageView::Closed),
        (StageView::Granting(channel), EventView::Answered) => Some(
            StageView::Confirming(channel),
        ),
        (StageView::Granting(_), EventView::AnswerFailed) => Some(StageView::Closed),
        (StageView::Confirming(channel), EventView::Finished) => Some(
            StageView::Receiving(channel),
        ),
        (StageView::Confirming(_), EventView::FinishFailed) => Some(StageView::Failed),
        (StageView::Receiving(channel), EventView::Packet(packet)) => Some(
            StageView::Admitting(channel, packet),
        ),
        (StageView::Receiving(channel), EventView::Skipped) => Some(StageView::Receiving(channel)),
        (StageView::Receiving(_), EventView::Ended) => Some(StageView::Closed),
        (StageView::Receiving(_), EventView::ChannelClosed) => Some(StageView::Closed),
        (StageView::Receiving(_), EventView::ViewerLeft) => Some(StageView::Closed),
        (StageView::Admitting(channel, packet), EventView::Permitted) => Some(
            StageView::Sending(channel, packet_bytes(packet)),
        ),
        (StageView::Admitting(_, _), EventView::PermitsClosed) => Some(StageView::Closed),
        (StageView::Admitting(_, _), EventView::ViewerLeft) => Some(StageView::Closed),
        (StageView::Sending(channel, _), EventView::Sent) => Some(StageView::Receiving(channel)),
        _ => None,
    }
}

/// The byte that a stage answers the viewer with, if it answers.
pub open spec fn answer_byte(stage: StageView) -> Option<u8> {
    match stage {
        StageView::Denying => Some(DENIED),
        StageView::Granting(_) => Some(GRANTED),
        _ => None,
    }
}

impl ServeStage {
    /// The byte to answer the viewer with, where this stage answers.
    pub fn answer(&self) -> (byte: Option<u8>)
        ensures
            byte == answer_byte(self@),
            byte == Some(1u8) <==> self is Granting,
            byte == Some(0u8) <==> self is Denying,
            byte is Some ==> self is Granting || self is Denying,
    {
        match self {
            ServeStage::Denying => Some(DENIED),
            ServeStage::Granting { .. } => Some(GRANTED),
            _ => None,
        }
    }

    /// The stage that follows, or `None` where the event is none of this stage's.
    pub fn next(self, host: &LiveHost, event: ServeEvent) -> (stage: Option<ServeStage>)
        ensures
            match stage {
                Some(stage) => next_stage(self@, host@, event@) == Some(stage@),
                None => next_stage(self@, host@, event@) is None,
            },
            self is Opening && event is Opened ==> stage == Some(ServeStage::Reading),
            self is Opening && event is OpenTimedOut ==> stage == Some(ServeStage::Closed),
            self is Opening && event is OpenFailed ==> stage == Some(ServeStage::Failed),
            event matches ServeEvent::Requested(request) ==> self is Reading ==> stage == Some(
                if host@.dom().contains(request@) {
                    ServeStage::Granting { channel: host@[request@] }
                } else {
                    ServeStage::Denying
                },
            ),
            self is Reading && event is RequestFailed ==> stage == Some(ServeStage::Closed),
            self is Denying && event is Answered ==> stage == Some(ServeStage::Flushing),
            self is Denying && event is AnswerFailed ==> stage == Some(ServeStage::Closed),
            self is Flushing && event is Flushed ==> stage == Some(ServeStage::Closed),
            self matches ServeStage::Granting { channel } ==> event is Answered ==> stage == Some(
                ServeStage::Confirming { channel },
            ),
            self is Granting && event is AnswerFailed ==> stage == Some(ServeStage::Closed),
            self matches ServeStage::Confirming { channel } ==> event is Finished ==> stage == Some(
                ServeStage::Receiving { channel },
            ),
            self is Confirming && event is FinishFailed ==> stage == Some(ServeStage::Failed),
            self matches ServeStage::Receiving { channel } ==> event matches ServeEvent::Packet(
                packet,
            ) ==> stage == Some(ServeStage::Admitting { channel, packet }),
            self matches ServeStage::Receiving { channel } ==> event is Skipped ==> stage == Some(
                ServeStage::Receiving { channel },
            ),
            self is Receiving && (event is Ended || event is ChannelClosed || event is ViewerLeft)
                ==> stage == Some(ServeStage::Closed),
            self matches ServeStage::Admitting { channel, packet } ==> event is Permitted ==> {
                stage matches Some(ServeStage::Sending { channel: same, bytes }) && same == channel
                    && bytes@ == packet_bytes(packet@)
            },
            self is Admitting && (event is PermitsClosed || event is ViewerLeft) ==> stage == Some(
                ServeStage::Closed,
            ),
            self matches ServeStage::Sending { channel, .. } ==> event is Sent ==> stage == Some(
                ServeStage::Receiving { channel },
            ),
    {
        match (self, event) {
            (ServeStage::Opening, ServeEvent::Opened) => Some(ServeStage::Reading),
            (ServeStage::Opening, ServeEvent::OpenTimedOut) => Some(ServeStage::Closed),
            (ServeStage::Opening, ServeEvent::OpenFailed) => Some(ServeStage::Failed),
            (ServeStage::Reading, ServeEvent::Requested(request)) => {
                match host.lookup(request.as_slice()) {
                    Some(channel) => Some(ServeStage::Granting { channel }),
                    None => Some(ServeStage::Denying),
                }
            },
            (ServeStage::Reading, ServeEvent::RequestFailed) => Some(ServeStage::Closed),
            (ServeStage::Denying, ServeEvent::Answered) => Some(ServeStage::Flushing),
            (ServeStage::Denying, ServeEvent::AnswerFailed) => Some(ServeStage::Closed),
            (ServeStage::Flushing, ServeEvent::Flushed) => Some(ServeStage::Closed),
            (ServeStage::Granting { channel }, ServeEvent::Answered) => Some(
                ServeStage::Confirming { channel },
            ),
            (ServeStage::Granting { .. }, ServeEvent::AnswerFailed) => Some(ServeStage::Closed),
            (ServeStage::Confirming { channel }, ServeEvent::Finished) => Some(
                ServeStage::Receiving { channel },
            ),
            (ServeStage::Confirming { .. }, ServeEvent::FinishFailed) => Some(ServeStage::Failed),
            (ServeStage::Receiving { channel }, ServeEvent::Packet(packet)) => Some(
                ServeStage::Admitting { channel, packet },
            ),
            (ServeStage::Receiving { channel }, ServeEvent::Skipped) => Some(
                ServeStage::Receiving { channel },
            ),
            (ServeStage::Receiving { .. }, ServeEvent::Ended) => Some(ServeStage::Closed),
            (ServeStage::Receiving { .. }, ServeEvent::ChannelClosed) => Some(ServeStage::Closed),
            (ServeStage::Receiving { .. }, ServeEvent::ViewerLeft) => Some(ServeStage::Closed),
            (ServeStage::Admitting { channel, packet }, ServeEvent::Permitted) => Some(
                ServeStage::Sending { channel, bytes: packet.encode() },
            ),
            (ServeStage::Admitting { .. }, ServeEvent::PermitsClosed) => Some(ServeStage::Closed),
            (ServeStage::Admitting { .. }, ServeEvent::ViewerLeft) => Some(ServeStage::Closed),
            (ServeStage::Sending { channel, .. }, ServeEvent::Sent) => Some(
                ServeStage::Receiving { channel },
            ),
            _ => None,
        }
    }
}

/// What happened to one viewer so far: each event, with the streams that were on
/// offer when it came.
pub type Trace = Seq<(Streams, EventView)>;

/// The stage that a viewer is at after what happened, from the first stage on.
pub open spec fn stage_after(trace: Trace) -> Option<StageView>
    decreases trace.len(),
{
    if trace.len() == 0 {
        Some(StageView::Opening)
    } else {
        match stage_after(trace.drop_last()) {
            Some(stage) => next_stage(stage, trace.last().0, trace.last().1),
            None => None,
        }
    }
}

/// The channel that a stage serves, if it serves one: a viewer is subscribed to it and
/// counts as one of the stream's viewers.
pub open spec fn served_channel(stage: StageView) -> Option<u64> {
    match stage {
        StageView::Granting(channel) => Some(channel),
        StageView::Confirming(channel) => Some(channel),
        StageView::Receiving(channel) => Some(channel),
        StageView::Admitting(channel, _) => Some(channel),
        StageView::Sending(channel, _) => Some(channel),
        _ => None,
    }
}

/// Whether the one request that a viewer made was granted, when its stream was on offer
/// with this channel.
pub open spec fn is_granted(trace: Trace, request: Seq<u8>, channel: u64) -> bool {
    &&& trace.len() >= 2
    &&& trace[1].1 == EventView::Requested(request)
    &&& trace[1].0.contains_pair(request, channel)
    &&& stage_after(trace.take(2)) == Some(StageView::Granting(channel))
    &&& forall|i: int|
        0 <= i < trace.len() && (#[trigger] trace[i]).1 is Requested ==> i == 1
}

/// The packets that the channel brought, in order.
pub open spec fn received(trace: Trace) -> Seq<PacketView>
    decreases trace.len(),
{
    if trace.len() == 0 {
        Seq::empty()
    } else {
        match trace.last().1 {
            EventView::Packet(packet) => received(trace.drop_last()).push(packet),
            _ => received(trace.drop_last()),
        }
    }
}

/// What was sent to the viewer, in order: the bytes of each stage that sends. Each goes
/// on a stream of its own.
pub open spec fn sent(trace: Trace) -> Seq<Seq<u8>>
    decreases trace.len(),
{
    if trace.len() == 0 {
        Seq::empty()
    } else {
        match stage_after(trace) {
            Some(StageView::Sending(_, bytes)) => sent(trace.drop_last()).push(bytes),
            _ => sent(trace.drop_last()),
        }
    }
}

/// Whether `packets` are what a subscriber gets who joined a channel when `joined`
/// packets had been published to it: published later, in order, each once, and maybe
/// not all. `places` says where each was published.
pub open spec fn is_subscribed(
    published: Seq<PacketView>,
    joined: int,
    places: Seq<int>,
    packets: Seq<PacketView>,
) -> bool {
    &&& places.len() == packets.len()
    &&& forall|k: int|
        0 <= k < places.len() ==> joined <= #[trigger] places[k] < published.len() && packets[k]
            == published[places[k]]
    &&& forall|j: int, k: int|
        0 <= j < k < places.len() ==> #[trigger] places[j] < #[trigger] places[k]
}

/// A request is granted if and only if its bytes are a token on offer. Every other
/// request that was read is answered with a refusal.
pub proof fn law_request_is_answered(streams: Streams, request: Seq<u8>)
    ensures
        next_stage(StageView::Reading, streams, EventView::Requested(request)) == Some(
            answer_to(streams, request),
        ),
        streams.dom().contains(request) ==> answer_byte(answer_to(streams, request)) == Some(
            GRANTED,
        ),
        !streams.dom().contains(request) ==> answer_byte(answer_to(streams, request)) == Some(
            DENIED,
        ),
{
}

/// A stream's token opens it from the moment it is offered and for as long as it is on
/// offer. Once it has left, the token opens nothing, and what is offered under other
/// tokens opens as before.
pub proof fn law_token_opens_its_stream_while_it_lasts(
    streams: Streams,
    token: Seq<u8>,
    channel: u64,
    other: Seq<u8>,
)
    ensures
        streams.insert(token, channel).contains_pair(token, channel),
        streams.contains_pair(token, channel) ==> {
            &&& answer_to(streams, token) == StageView::Granting(channel)
            &&& without_stream(streams, token, channel) == streams.remove(token)
            &&& answer_to(without_stream(streams, token, channel), token) == StageView::Denying
        },
        other != token ==> answer_to(without_stream(streams, token, channel), other) == answer_to(
            streams,
            other,
        ),
{
}

/// What happened up to a place led to a stage, and the event in that place to the next.
proof fn lemma_step(trace: Trace, i: int)
    requires
        stage_after(trace) is Some,
        0 <= i < trace.len(),
    ensures
        stage_after(trace.take(i)) is Some,
        next_stage(stage_after(trace.take(i))->0, trace[i].0, trace[i].1) is Some,
        stage_after(trace.take(i + 1)) == next_stage(
            stage_after(trace.take(i))->0,
            trace[i].0,
            trace[i].1,
        ),
    decreases trace.len(),
{
    let before = trace.drop_last();
    if i == trace.len() - 1 {
        assert(trace.take(i) =~= before);
        assert(trace.take(i + 1) =~= trace);
    } else {
        lemma_step(before, i);
        assert(before.take(i) =~= trace.take(i));
        assert(before.take(i + 1) =~= trace.take(i + 1));
    }
}

/// A request is read after one event, the opening.
proof fn lemma_reading_is_second(trace: Trace)
    requires
        stage_after(trace) == Some(StageView::Reading),
    ensures
        trace.len() == 1,
{
    let before = trace.drop_last();
    assert(stage_after(before) == Some(StageView::Opening));
    assert(before.len() == 0);
}

/// A viewer makes at most one request, in the second place.
proof fn lemma_one_request(trace: Trace, i: int)
    requires
        stage_after(trace) is Some,
        0 <= i < trace.len(),
        trace[i].1 is Requested,
    ensures
        i == 1,
{
    lemma_step(trace, i);
    lemma_reading_is_second(trace.take(i));
}

/// What is granted stays granted while the viewer goes on.
proof fn lemma_granted_later(trace: Trace, n: int, request: Seq<u8>, channel: u64)
    requires
        stage_after(trace) is Some,
        0 <= n <= trace.len(),
        is_granted(trace.take(n), request, channel),
    ensures
        is_granted(trace, request, channel),
{
    let front = trace.take(n);
    assert(front[1] == trace[1]);
    assert(front.take(2) =~= trace.take(2));
    assert forall|i: int| 0 <= i < trace.len() && (#[trigger] trace[i]).1 is Requested implies i
        == 1 by {
        lemma_one_request(trace, i);
    }
}

/// Whoever is served has made one request, its bytes were a token on offer, and the
/// stream that is served is the one that was on offer under that token.
pub proof fn law_only_holders_are_served(trace: Trace, channel: u64)
    requires
        stage_after(trace) matches Some(stage) && served_channel(stage) == Some(channel),
    ensures
        exists|request: Seq<u8>| is_granted(trace, request, channel),
    decreases trace.len(),
{
    let before = trace.drop_last();
    let stage = stage_after(before)->0;
    if served_channel(stage) is Some {
        law_only_holders_are_served(before, channel);
        let request = choose|request: Seq<u8>| is_granted(before, request, channel);
        assert(before =~= trace.take(trace.len() - 1));
        lemma_granted_later(trace, trace.len() - 1, request, channel);
    } else {
        assert(stage == StageView::Reading);
        lemma_reading_is_second(before);
        assert(trace.take(2) =~= trace);
        let request = trace[1].1->Requested_0;
        assert forall|i: int| 0 <= i < trace.len() && (#[trigger] trace[i]).1 is Requested implies i
            == 1 by {
            lemma_one_request(trace, i);
        }
        assert(is_granted(trace, request, channel));
    }
}

/// Every packet was waited for on the channel of the stream that the viewer's request
/// was granted for, so nothing of another stream reaches the viewer.
pub proof fn law_packets_are_of_the_granted_stream(trace: Trace, i: int)
    requires
        stage_after(trace) is Some,
        0 <= i < trace.len(),
        trace[i].1 is Packet,
    ensures
        exists|request: Seq<u8>, channel: u64| #[trigger]
            is_granted(trace, request, channel) && stage_after(trace.take(i)) == Some(
                StageView::Receiving(channel),
            ),
{
    lemma_step(trace, i);
    let channel = stage_after(trace.take(i))->0->Receiving_0;
    law_only_holders_are_served(trace.take(i), channel);
    let request = choose|request: Seq<u8>| is_granted(trace.take(i), request, channel);
    lemma_granted_later(trace, i, request, channel);
}

/// What is sent is what the channel brought: in order, each packet once, whole, as it is
/// written on the wire. At most the last packet is not sent: it waits, or the viewer was
/// let go while it waited.
pub proof fn law_packets_are_sent_once_in_order(trace: Trace)
    requires
        stage_after(trace) is Some,
    ensures
        sent(trace).len() <= received(trace).len() <= sent(trace).len() + 1,
        forall|k: int|
            0 <= k < sent(trace).len() ==> #[trigger] sent(trace)[k] == packet_bytes(
                received(trace)[k],
            ),
        received(trace).len() > sent(trace).len() ==> stage_after(trace)->0 is Admitting
            || stage_after(trace)->0 is Closed,
        stage_after(trace) matches Some(StageView::Admitting(_, packet)) ==> received(trace).len()
            == sent(trace).len() + 1 && received(trace).last() == packet,
    decreases trace.len(),
{
    if trace.len() > 0 {
        law_packets_are_sent_once_in_order(trace.drop_last());
    }
}

/// A viewer gets packets that were published after it subscribed, as they are written
/// on the wire, in the order in which they were published and none of them twice. What
/// the channel does is taken for granted: that it brings a subscriber such packets.
pub proof fn law_viewer_gets_no_history_and_nothing_twice(
    trace: Trace,
    published: Seq<PacketView>,
    joined: int,
    places: Seq<int>,
)
    requires
        stage_after(trace) is Some,
        is_subscribed(published, joined, places, received(trace)),
    ensures
        sent(trace).len() <= places.len(),
        forall|k: int|
            0 <= k < sent(trace).len() ==> joined <= places[k] < published.len()
                && #[trigger] sent(trace)[k] == packet_bytes(published[places[k]]),
        forall|j: int, k: int|
            0 <= j < k < sent(trace).len() ==> #[trigger] places[j] < #[trigger] places[k],
{
    law_packets_are_sent_once_in_order(trace);
}

/// A viewer who falls behind skips what the channel dropped, and is served on.
pub proof fn law_slow_viewer_skips(trace: Trace, streams: Streams, channel: u64)
    requires
        stage_after(trace) == Some(StageView::Receiving(channel)),
    ensures
        stage_after(trace.push((streams, EventView::Skipped))) == Some(
            StageView::Receiving(channel),
        ),
{
    assert(trace.push((streams, EventView::Skipped)).drop_last() =~= trace);
}

/// After a connection was let go nothing follows, and nothing is sent.
proof fn lemma_nothing_follows(trace: Trace, more: Trace)
    requires
        stage_after(trace) == Some(StageView::Closed),
    ensures
        more.len() > 0 ==> stage_after(trace + more) is None,
        sent(trace + more) == sent(trace),
    decreases more.len(),
{
    if more.len() == 0 {
        assert(trace + more =~= trace);
    } else {
        assert((trace + more).drop_last() =~= trace + more.drop_last());
        lemma_nothing_follows(trace, more.drop_last());
    }
}

/// When the publisher ends the stream the connection is let go, without a failure to
/// report, and nothing more is sent whatever happens.
pub proof fn law_end_closes(trace: Trace, streams: Streams, channel: u64, more: Trace)
    requires
        stage_after(trace) == Some(StageView::Receiving(channel)),
    ensures
        stage_after(trace.push((streams, EventView::Ended))) == Some(StageView::Closed),
        sent(trace.push((streams, EventView::Ended)) + more) == sent(trace),
{
    let ended = trace.push((streams, EventView::Ended));
    assert(ended.drop_last() =~= trace);
    lemma_nothing_follows(ended, more);
}

/// A viewer who leaves while it is served is let go, whether a packet is waited for or
/// waits to be sent: it is subscribed no longer, and is sent nothing more.
pub proof fn law_viewer_who_leaves_is_let_go(trace: Trace, streams: Streams, more: Trace)
    requires
        stage_after(trace) matches Some(stage) && (stage is Receiving || stage is Admitting),
    ensures
        stage_after(trace.push((streams, EventView::ViewerLeft))) == Some(StageView::Closed),
        served_channel(StageView::Closed) is None,
        sent(trace.push((streams, EventView::ViewerLeft)) + more) == sent(trace),
{
    let left = trace.push((streams, EventView::ViewerLeft));
    assert(left.drop_last() =~= trace);
    lemma_nothing_follows(left, more);
}

/// A packet of any kind that the channel brings while a viewer is served is sent, whole, and
/// the viewer is served on by the same channel.
pub proof fn law_every_packet_is_forwarded(
    trace: Trace,
    channel: u64,
    packet: LivePacket,
    streams: Streams,
)
    requires
        stage_after(trace) == Some(StageView::Receiving(channel)),
    ensures
        ({
            let taken = trace.push((streams, (ServeEvent::Packet(packet))@));
            let permitted = taken.push((streams, (ServeEvent::Permitted)@));
            let done = permitted.push((streams, (ServeEvent::Sent)@));
            &&& stage_after(taken) == Some((ServeStage::Admitting { channel, packet })@)
            &&& stage_after(permitted) == Some(
                StageView::Sending(channel, packet_bytes(packet@)),
            )
            &&& stage_after(done) == Some(StageView::Receiving(channel))
            &&& sent(taken) == sent(trace)
            &&& sent(permitted) == sent(trace).push(packet_bytes(packet@))
            &&& sent(done) == sent(trace).push(packet_bytes(packet@))
            &&& received(done) == received(trace).push(packet@)
        }),
{
    let taken = trace.push((streams, EventView::Packet(packet@)));
    let permitted = taken.push((streams, EventView::Permitted));
    law_each_event_adds_one_step(trace, streams, EventView::Packet(packet@));
    law_each_event_adds_one_step(taken, streams, EventView::Permitted);
    law_each_event_adds_one_step(permitted, streams, EventView::Sent);
}

/// A viewer that is served is let go only when the stream ends, its channel or its permits
/// are gone, it leaves, or its answer cannot be given; until then the same channel serves
/// it.
pub proof fn law_viewers_are_let_go_only_for_cause(
    stage: StageView,
    streams: Streams,
    event: EventView,
)
    requires
        next_stage(stage, streams, event) is Some,
    ensures
        served_channel(stage) is Some ==> {
            let next = next_stage(stage, streams, event)->0;
            &&& served_channel(next) is None <==> {
                ||| stage is Granting && event is AnswerFailed
                ||| stage is Confirming && event is FinishFailed
                ||| stage is Receiving && (event is Ended || event is ChannelClosed
                    || event is ViewerLeft)
                ||| stage is Admitting && (event is PermitsClosed || event is ViewerLeft)
            }
            &&& served_channel(next) is Some ==> served_channel(next) == served_channel(stage)
        },
        next_stage(stage, streams, event) == Some(StageView::Failed) <==> {
            ||| stage is Opening && event is OpenFailed
            ||| stage is Confirming && event is FinishFailed
        },
        next_stage(stage, streams, event) == Some(StageView::Closed) <==> {
            ||| stage is Opening && event is OpenTimedOut
            ||| stage is Reading && event is RequestFailed
            ||| stage is Denying && event is AnswerFailed
            ||| stage is Flushing && event is Flushed
            ||| stage is Granting && event is AnswerFailed
            ||| stage is Receiving && (event is Ended || event is ChannelClosed
                || event is ViewerLeft)
            ||| stage is Admitting && (event is PermitsClosed || event is ViewerLeft)
        },
{
}

/// The stages that serve a channel are those from the grant on, until the viewer is let
/// go.
pub proof fn law_which_stages_serve(stage: StageView)
    ensures
        served_channel(stage) is Some <==> stage is Granting || stage is Confirming
            || stage is Receiving || stage is Admitting || stage is Sending,
        stage is Granting ==> served_channel(stage) == Some(stage->Granting_0),
        stage is Confirming ==> served_channel(stage) == Some(stage->Confirming_0),
        stage is Receiving ==> served_channel(stage) == Some(stage->Receiving_0),
        stage is Admitting ==> served_channel(stage) == Some(stage->Admitting_0),
        stage is Sending ==> served_channel(stage) == Some(stage->Sending_0),
{
}

/// Each stage takes the events that can come of it, and no others.
pub proof fn law_which_events_a_stage_takes(stage: StageView, streams: Streams, event: EventView)
    ensures
        next_stage(stage, streams, event) is Some <==> {
            ||| stage is Opening && (event is Opened || event is OpenTimedOut || event is OpenFailed)
            ||| stage is Reading && (event is Requested || event is RequestFailed)
            ||| stage is Denying && (event is Answered || event is AnswerFailed)
            ||| stage is Flushing && event is Flushed
            ||| stage is Granting && (event is Answered || event is AnswerFailed)
            ||| stage is Confirming && (event is Finished || event is FinishFailed)
            ||| stage is Receiving && (event is Packet || event is Skipped || event is Ended
                || event is ChannelClosed || event is ViewerLeft)
            ||| stage is Admitting && (event is Permitted || event is PermitsClosed
                || event is ViewerLeft)
            ||| stage is Sending && event is Sent
        },
{
}

/// A viewer that asks with a token on offer is answered 1 and served by the channel of that
/// token, and by no other.
pub proof fn law_holders_are_served(
    before: Streams,
    streams: Streams,
    after: Streams,
    request: Vec<u8>,
    channel: u64,
)
    requires
        streams.contains_pair(request@, channel),
    ensures
        ({
            let opened = seq![(before, (ServeEvent::Opened)@)];
            let asked = opened.push((streams, (ServeEvent::Requested(request))@));
            let answered = asked.push((after, (ServeEvent::Answered)@));
            let finished = answered.push((after, (ServeEvent::Finished)@));
            &&& stage_after(opened) == Some(StageView::Reading)
            &&& stage_after(asked) == Some(StageView::Granting(channel))
            &&& answer_byte(StageView::Granting(channel)) == Some(1u8)
            &&& stage_after(answered) == Some(StageView::Confirming(channel))
            &&& stage_after(finished) == Some(StageView::Receiving(channel))
            &&& sent(finished).len() == 0
        }),
{
    let nothing = Seq::<(Streams, EventView)>::empty();
    let opened = seq![(before, EventView::Opened)];
    let asked = opened.push((streams, EventView::Requested(request@)));
    let answered = asked.push((after, EventView::Answered));
    assert(opened =~= nothing.push((before, EventView::Opened)));
    law_each_event_adds_one_step(nothing, before, EventView::Opened);
    law_each_event_adds_one_step(opened, streams, EventView::Requested(request@));
    law_each_event_adds_one_step(asked, after, EventView::Answered);
    law_each_event_adds_one_step(answered, after, EventView::Finished);
}

/// A viewer that asks with anything else is answered 0, has its time to take the answer, and
/// is let go; it is sent nothing.
pub proof fn law_others_are_refused(
    before: Streams,
    streams: Streams,
    after: Streams,
    request: Vec<u8>,
)
    requires
        !streams.dom().contains(request@),
    ensures
        ({
            let opened = seq![(before, (ServeEvent::Opened)@)];
            let asked = opened.push((streams, (ServeEvent::Requested(request))@));
            let answered = asked.push((after, (ServeEvent::Answered)@));
            let flushed = answered.push((after, (ServeEvent::Flushed)@));
            &&& stage_after(asked) == Some(StageView::Denying)
            &&& answer_byte(StageView::Denying) == Some(0u8)
            &&& stage_after(answered) == Some(StageView::Flushing)
            &&& stage_after(flushed) == Some(StageView::Closed)
            &&& sent(flushed).len() == 0
        }),
{
    let nothing = Seq::<(Streams, EventView)>::empty();
    let opened = seq![(before, EventView::Opened)];
    let asked = opened.push((streams, EventView::Requested(request@)));
    let answered = asked.push((after, EventView::Answered));
    assert(opened =~= nothing.push((before, EventView::Opened)));
    law_each_event_adds_one_step(nothing, before, EventView::Opened);
    law_each_event_adds_one_step(opened, streams, EventView::Requested(request@));
    law_each_event_adds_one_step(asked, after, EventView::Answered);
    law_each_event_adds_one_step(answered, after, EventView::Flushed);
}

/// What happened begins with nothing and the first stage, and each event adds one step, one
/// packet if it brought one, and one sending if it led to one.
pub proof fn law_each_event_adds_one_step(trace: Trace, streams: Streams, event: EventView)
    ensures
        stage_after(Seq::empty()) == Some(StageView::Opening),
        received(Seq::empty()).len() == 0,
        sent(Seq::empty()).len() == 0,
        stage_after(trace) is None ==> stage_after(trace.push((streams, event))) is None,
        stage_after(trace) matches Some(stage) ==> stage_after(trace.push((streams, event)))
            == next_stage(stage, streams, event),
        event matches EventView::Packet(packet) ==> received(trace.push((streams, event)))
            == received(trace).push(packet),
        !(event is Packet) ==> received(trace.push((streams, event))) == received(trace),
        stage_after(trace.push((streams, event))) matches Some(StageView::Sending(_, bytes)) ==> sent(
            trace.push((streams, event)),
        ) == sent(trace).push(bytes),
        !(stage_after(trace.push((streams, event))) matches Some(StageView::Sending(_, _)))
            ==> sent(trace.push((streams, event))) == sent(trace),
{
    assert(trace.push((streams, event)).drop_last() =~= trace);
}

/// A stage shows as itself, with what it holds.
pub proof fn law_what_stages_show(channel: u64, packet: LivePacket, bytes: Vec<u8>)
    ensures
        (ServeStage::Opening)@ == StageView::Opening,
        (ServeStage::Reading)@ == StageView::Reading,
        (ServeStage::Denying)@ == StageView::Denying,
        (ServeStage::Flushing)@ == StageView::Flushing,
        (ServeStage::Granting { channel })@ == StageView::Granting(channel),
        (ServeStage::Confirming { channel })@ == StageView::Confirming(channel),
        (ServeStage::Receiving { channel })@ == StageView::Receiving(channel),
        (ServeStage::Admitting { channel, packet })@ == StageView::Admitting(channel, packet@),
        (ServeStage::Sending { channel, bytes })@ == StageView::Sending(channel, bytes@),
        (ServeStage::Closed)@ == StageView::Closed,
        (ServeStage::Failed)@ == StageView::Failed,
{
}

/// An event shows as itself, with what it holds.
pub proof fn law_what_events_show(request: Vec<u8>, packet: LivePacket)
    ensures
        (ServeEvent::Opened)@ == EventView::Opened,
        (ServeEvent::OpenTimedOut)@ == EventView::OpenTimedOut,
        (ServeEvent::OpenFailed)@ == EventView::OpenFailed,
        (ServeEvent::Requested(request))@ == EventView::Requested(request@),
        (ServeEvent::RequestFailed)@ == EventView::RequestFailed,
        (ServeEvent::Answered)@ == EventView::Answered,
        (ServeEvent::AnswerFailed)@ == EventView::AnswerFailed,
        (ServeEvent::Flushed)@ == EventView::Flushed,
        (ServeEvent::Finished)@ == EventView::Finished,
        (ServeEvent::FinishFailed)@ == EventView::FinishFailed,
        (ServeEvent::Packet(packet))@ == EventView::Packet(packet@),
        (ServeEvent::Ended)@ == EventView::Ended,
        (ServeEvent::Skipped)@ == EventView::Skipped,
        (ServeEvent::ChannelClosed)@ == EventView::ChannelClosed,
        (ServeEvent::Permitted)@ == EventView::Permitted,
        (ServeEvent::PermitsClosed)@ == EventView::PermitsClosed,
        (ServeEvent::Sent)@ == EventView::Sent,
        (ServeEvent::ViewerLeft)@ == EventView::ViewerLeft,
{
}

/// The numbers of the protocol: what is read and answered, how long each side waits, and how
/// many packets may be on their way.
pub proof fn law_numbers_of_the_protocol()
    ensures
        ALPN@ == "peersey/live/1"@,
        TOKEN_LEN == 32,
        ANSWER_LEN == 1,
        GRANTED == 1,
        DENIED == 0,
        HANDSHAKE_TIMEOUT_SECS == 10,
        DENIAL_FLUSH_TIMEOUT_SECS == 1,
        SEND_CONCURRENCY == 32,
        super::host::CHANNEL_CAPACITY == 64,
        super::packet::HEADER_LEN == 14,
        super::packet::MAX_PACKET_SIZE == 8388608,
{
}

} // verus!
