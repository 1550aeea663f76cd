//! The publisher's side of a live stream: who may watch what.

use std::time::Duration;

use bytes::Bytes;
use iroh::EndpointAddr;
use vstd::prelude::*;

use super::link::{LinkView, LiveLink};
use super::packet::{
    duration_nanos, law_packet_round_trip, packet_bytes, packet_of, LivePacket, MediaKind,
    PacketView, MAX_PACKET_SIZE,
};
use crate::address::endpoint_view;
use crate::chance;
use crate::error::Error;
use crate::payload;
use crate::payload::buffer;

verus! {

/// Packets that a stream keeps for a viewer who falls behind.
pub const CHANNEL_CAPACITY: usize = 64;

/// The streams that a host offers: the channel of each token.
pub type Streams = Map<Seq<u8>, u64>;

/// The streams after a stream leaves: its own entry goes, and an entry that
/// another stream has made under the same token stays.
pub open spec fn without_stream(streams: Streams, token: Seq<u8>, channel: u64) -> Streams {
    if streams.contains_pair(token, channel) {
        streams.remove(token)
    } else {
        streams
    }
}

/// Whether every token on offer is thirty-two bytes long, and every channel is below
/// `issued`.
pub open spec fn are_issued(streams: Streams, issued: int) -> bool {
    forall|token: Seq<u8>| #[trigger]
        streams.dom().contains(token) ==> token.len() == 32 && streams[token] < issued
}

/// Publisher for one audio, video, or generic realtime stream.
///
/// Packets are sent to current viewers only. Slow viewers skip old packets
/// instead of adding unbounded latency.
pub struct LiveStream {
    token: [u8; 32],
    channel: u64,
}

impl LiveStream {
    /// The token under which the stream is offered.
    pub closed spec fn spec_token(&self) -> Seq<u8> {
        self.token@
    }

    /// The channel that the stream's packets go to.
    pub closed spec fn spec_channel(&self) -> u64 {
        self.channel
    }

    /// The channel that the stream's packets go to.
    pub fn channel(&self) -> (channel: u64)
        ensures
            channel == self.spec_channel(),
    {
        self.channel
    }

    /// The packet that sends an encoded video frame or chunk.
    pub fn send_video(&self, elapsed: Duration, content: Bytes) -> (packet: Result<
        LivePacket,
        Error,
    >)
        ensures
            is_sent(MediaKind::Video, elapsed, content, packet),
            packet is Ok <==> buffer(content).len() <= 8388608,
            packet is Ok ==> packet->Ok_0.kind is Video && packet->Ok_0.timestamp == elapsed
                && packet->Ok_0.content == content,
            packet is Err ==> packet->Err_0 == (Error::LivePacketTooLarge {
                size: buffer(content).len() as usize,
                max: 8388608,
            }),
    {
        self.send(MediaKind::Video, elapsed, content)
    }

    /// The packet that sends an encoded audio frame or chunk.
    pub fn send_audio(&self, elapsed: Duration, content: Bytes) -> (packet: Result<
        LivePacket,
        Error,
    >)
        ensures
            is_sent(MediaKind::Audio, elapsed, content, packet),
            packet is Ok <==> buffer(content).len() <= 8388608,
            packet is Ok ==> packet->Ok_0.kind is Audio && packet->Ok_0.timestamp == elapsed
                && packet->Ok_0.content == content,
            packet is Err ==> packet->Err_0 == (Error::LivePacketTooLarge {
                size: buffer(content).len() as usize,
                max: 8388608,
            }),
    {
        self.send(MediaKind::Audio, elapsed, content)
    }

    /// The packet that sends application-defined realtime data.
    pub fn send_data(&self, elapsed: Duration, content: Bytes) -> (packet: Result<
        LivePacket,
        Error,
    >)
        ensures
            is_sent(MediaKind::Data, elapsed, content, packet),
            packet is Ok <==> buffer(content).len() <= 8388608,
            packet is Ok ==> packet->Ok_0.kind is Data && packet->Ok_0.timestamp == elapsed
                && packet->Ok_0.content == content,
            packet is Err ==> packet->Err_0 == (Error::LivePacketTooLarge {
                size: buffer(content).len() as usize,
                max: 8388608,
            }),
    {
        self.send(MediaKind::Data, elapsed, content)
    }

    fn send(&self, kind: MediaKind, elapsed: Duration, content: Bytes) -> (packet: Result<
        LivePacket,
        Error,
    >)
        ensures
            is_sent(kind, elapsed, content, packet),
            packet is Ok <==> buffer(content).len() <= 8388608,
            packet is Ok ==> packet->Ok_0.kind == kind && packet->Ok_0.timestamp == elapsed
                && packet->Ok_0.content == content,
            packet is Err ==> packet->Err_0 == (Error::LivePacketTooLarge {
                size: buffer(content).len() as usize,
                max: 8388608,
            }),
    {
        if content.len() > MAX_PACKET_SIZE {
            return Err(Error::LivePacketTooLarge { size: content.len(), max: MAX_PACKET_SIZE });
        }
        Ok(LivePacket { kind, timestamp: elapsed, content })
    }
}

/// What sending content comes to, that long after the stream was created: its
/// packet, or where the content is over the limit, an error that names both sizes.
pub open spec fn is_sent(
    kind: MediaKind,
    elapsed: Duration,
    content: Bytes,
    packet: Result<LivePacket, Error>,
) -> bool {
    match packet {
        Ok(packet) => {
            &&& buffer(content).len() <= MAX_PACKET_SIZE
            &&& packet@ == PacketView {
                kind,
                nanos: duration_nanos(elapsed),
                content: buffer(content),
            }
        },
        Err(Error::LivePacketTooLarge { size, max }) => {
            &&& buffer(content).len() > MAX_PACKET_SIZE
            &&& size == buffer(content).len()
            &&& max == MAX_PACKET_SIZE
        },
        Err(_) => false,
    }
}

/// One stream on offer.
struct Offer {
    token: [u8; 32],
    channel: u64,
}

/// The streams that one node offers.
pub struct LiveHost {
    offers: Vec<Offer>,
    issued: u64,
}

impl View for LiveHost {
    type V = Streams;

    closed spec fn view(&self) -> Streams {
        Map::new(
            |token: Seq<u8>|
                exists|i: int|
                    0 <= i < self.offers@.len() && (#[trigger] self.offers@[i]).token@ == token,
            |token: Seq<u8>|
                self.offers@[choose|i: int|
                    0 <= i < self.offers@.len() && (#[trigger] self.offers@[i]).token@
                        == token].channel,
        )
    }
}

impl LiveHost {
    /// The channels handed out so far: those below this number.
    pub closed spec fn spec_issued(&self) -> u64 {
        self.issued
    }

    /// No token is on offer twice, and every channel on offer was handed out.
    #[verifier::type_invariant]
    spec fn well_formed(&self) -> bool {
        &&& forall|i: int, j: int|
            0 <= i < j < self.offers@.len() ==> (#[trigger] self.offers@[i]).token@ != (
            #[trigger] self.offers@[j]).token@
        &&& forall|i: int|
            0 <= i < self.offers@.len() ==> (#[trigger] self.offers@[i]).channel < self.issued
    }

    /// An offer is in the view, and nothing else is.
    proof fn lemma_view(&self)
        requires
            self.well_formed(),
        ensures
            forall|i: int|
                0 <= i < self.offers@.len() ==> self@.contains_pair(
                    (#[trigger] self.offers@[i]).token@,
                    self.offers@[i].channel,
                ),
            forall|token: Seq<u8>| #[trigger]
                self@.dom().contains(token) ==> exists|i: int|
                    0 <= i < self.offers@.len() && (#[trigger] self.offers@[i]).token@ == token
                        && self.offers@[i].channel == self@[token],
            are_issued(self@, self.spec_issued() as int),
    {
        assert forall|i: int| 0 <= i < self.offers@.len() implies self@.contains_pair(
            (#[trigger] self.offers@[i]).token@,
            self.offers@[i].channel,
        ) by {
            let token = self.offers@[i].token@;
            let k = choose|k: int|
                0 <= k < self.offers@.len() && (#[trigger] self.offers@[k]).token@ == token;
            assert(k == i);
        }
    }

    /// The view is the map that holds each offer, and nothing else.
    proof fn lemma_view_is(&self, streams: Streams)
        requires
            self.well_formed(),
            forall|i: int|
                0 <= i < self.offers@.len() ==> streams.contains_pair(
                    (#[trigger] self.offers@[i]).token@,
                    self.offers@[i].channel,
                ),
            forall|token: Seq<u8>| #[trigger]
                streams.dom().contains(token) ==> exists|i: int|
                    0 <= i < self.offers@.len() && (#[trigger] self.offers@[i]).token@ == token,
        ensures
            self@ == streams,
    {
        self.lemma_view();
        assert(self@.dom() =~= streams.dom());
        assert forall|token: Seq<u8>| #[trigger] self@.dom().contains(token) implies self@[token]
            == streams[token] by {
            let i = choose|i: int|
                0 <= i < self.offers@.len() && (#[trigger] self.offers@[i]).token@ == token
                    && self.offers@[i].channel == self@[token];
            assert(streams.contains_pair(self.offers@[i].token@, self.offers@[i].channel));
        }
        assert(self@ =~= streams);
    }

    /// A host that offers nothing.
    pub fn new() -> (host: LiveHost)
        ensures
            host@ == Map::<Seq<u8>, u64>::empty(),
            host.spec_issued() == 0,
    {
        let host = LiveHost { offers: Vec::new(), issued: 0 };
        assert(host@ =~= Map::<Seq<u8>, u64>::empty());
        host
    }

    /// The number of channels handed out. Those on offer are below it.
    pub fn issued(&self) -> (issued: u64)
        ensures
            issued == self.spec_issued(),
            are_issued(self@, issued as int),
    {
        proof {
            use_type_invariant(self);
            self.lemma_view();
        }
        self.issued
    }

    /// Where the offer under a token stands.
    fn find(&self, request: &[u8]) -> (place: Option<usize>)
        ensures
            match place {
                Some(place) => place < self.offers@.len() && self.offers@[place as int].token@
                    == request@,
                None => forall|i: int|
                    0 <= i < self.offers@.len() ==> (#[trigger] self.offers@[i]).token@
                        != request@,
            },
    {
        let mut i: usize = 0;
        while i < self.offers.len()
            invariant
                i <= self.offers@.len(),
                forall|j: int| 0 <= j < i ==> (#[trigger] self.offers@[j]).token@ != request@,
            decreases self.offers@.len() - i,
        {
            if payload::same_bytes(&self.offers[i].token, request) {
                return Some(i);
            }
            i += 1;
        }
        None
    }

    /// The channel of the stream that a request asks for, if it is on offer.
    pub fn lookup(&self, request: &[u8]) -> (channel: Option<u64>)
        ensures
            channel == (if self@.dom().contains(request@) {
                Some(self@[request@])
            } else {
                None
            }),
    {
        proof {
            use_type_invariant(self);
            self.lemma_view();
        }
        match self.find(request) {
            Some(place) => Some(self.offers[place].channel),
            None => None,
        }
    }

    /// Offers a new stream under `token`, in place of one offered under it before. Its
    /// channel is none that was on offer.
    pub fn offer(&mut self, token: [u8; 32]) -> (stream: LiveStream)
        requires
            old(self).spec_issued() < u64::MAX,
        ensures
            final(self)@ == old(self)@.insert(token@, stream.spec_channel()),
            final(self).spec_issued() == old(self).spec_issued() + 1,
            stream.spec_token() == token@,
            stream.spec_channel() == old(self).spec_issued(),
            are_issued(old(self)@, stream.spec_channel() as int),
    {
        let channel: u64 = self.issued;
        proof {
            use_type_invariant(&*self);
            self.lemma_view();
        }
        let found: Option<usize> = self.find(&token);
        let mut offers: Vec<Offer> = Vec::new();
        std::mem::swap(&mut offers, &mut self.offers);
        let ghost mut taken: int = offers@.len() as int;
        match found {
            Some(place) => {
                offers.set(place, Offer { token, channel });
                proof {
                    taken = place as int;
                }
            },
            None => {
                offers.push(Offer { token, channel });
            },
        }
        self.issued = channel + 1;
        self.offers = offers;
        proof {
            let streams = old(self)@.insert(token@, channel);
            assert forall|other: Seq<u8>| #[trigger]
                streams.dom().contains(other) implies exists|i: int|
                0 <= i < self.offers@.len() && (#[trigger] self.offers@[i]).token@ == other by {
                if other == token@ {
                    assert(self.offers@[taken].token@ == other);
                } else {
                    assert(old(self)@.dom().contains(other));
                    let i = choose|i: int|
                        0 <= i < old(self).offers@.len() && (#[trigger] old(
                            self,
                        ).offers@[i]).token@ == other;
                    assert(self.offers@[i] == old(self).offers@[i]);
                }
            }
            self.lemma_view_is(streams);
        }
        LiveStream { token, channel }
    }

    /// Creates a stream under a random token, and the link to it.
    pub fn create(&mut self, endpoint: EndpointAddr) -> (created: (LiveStream, LiveLink))
        requires
            old(self).spec_issued() < u64::MAX,
        ensures
            final(self)@ == old(self)@.insert(created.1@.token, created.0.spec_channel()),
            final(self).spec_issued() == old(self).spec_issued() + 1,
            created.0.spec_token() == created.1@.token,
            created.0.spec_channel() == old(self).spec_issued(),
            are_issued(old(self)@, created.0.spec_channel() as int),
            created.1@.endpoint == endpoint_view(endpoint),
    {
        self.create_with_token(endpoint, chance::random_bytes())
    }

    /// Creates a stream under the given token, and the link to it.
    pub fn create_with_token(&mut self, endpoint: EndpointAddr, token: [u8; 32]) -> (created: (
        LiveStream,
        LiveLink,
    ))
        requires
            old(self).spec_issued() < u64::MAX,
        ensures
            final(self)@ == old(self)@.insert(token@, created.0.spec_channel()),
            final(self).spec_issued() == old(self).spec_issued() + 1,
            created.0.spec_token() == token@,
            created.0.spec_channel() == old(self).spec_issued(),
            are_issued(old(self)@, created.0.spec_channel() as int),
            created.1@ == (LinkView { endpoint: endpoint_view(endpoint), token: token@ }),
    {
        let stream: LiveStream = self.offer(token);
        (stream, LiveLink::new(endpoint, token))
    }

    /// Takes a stream's offer back, unless another stream has taken its place.
    pub fn remove(&mut self, stream: &LiveStream)
        ensures
            final(self)@ == without_stream(
                old(self)@,
                stream.spec_token(),
                stream.spec_channel(),
            ),
            final(self).spec_issued() == old(self).spec_issued(),
    {
        proof {
            use_type_invariant(&*self);
            self.lemma_view();
        }
        match self.find(&stream.token) {
            Some(place) => {
                if self.offers[place].channel == stream.channel {
                    let mut offers: Vec<Offer> = Vec::new();
                    std::mem::swap(&mut offers, &mut self.offers);
                    offers.swap_remove(place);
                    self.offers = offers;
                    proof {
                        let streams = old(self)@.remove(stream.token@);
                        let last = old(self).offers@.len() - 1;
                        assert forall|other: Seq<u8>| #[trigger]
                            streams.dom().contains(other) implies exists|i: int|
                            0 <= i < self.offers@.len() && (#[trigger] self.offers@[i]).token@
                                == other by {
                            assert(old(self)@.dom().contains(other));
                            let i = choose|i: int|
                                0 <= i < old(self).offers@.len() && (#[trigger] old(
                                    self,
                                ).offers@[i]).token@ == other;
                            if i == last {
                                assert(self.offers@[place as int] == old(self).offers@[i]);
                            } else {
                                assert(self.offers@[i] == old(self).offers@[i]);
                            }
                        }
                        self.lemma_view_is(streams);
                    }
                }
            },
            None => {},
        }
    }
}

/// A new stream's channel is no other stream's, and neither offering a stream nor
/// taking one back leads to a channel that was not handed out.
pub proof fn law_channels_are_not_reused(
    streams: Streams,
    token: Seq<u8>,
    channel: u64,
    other: Seq<u8>,
    other_channel: u64,
)
    requires
        are_issued(streams, channel as int),
        token.len() == 32,
    ensures
        streams.dom().contains(other) ==> streams[other] != channel,
        are_issued(streams.insert(token, channel), channel + 1),
        are_issued(without_stream(streams, other, other_channel), channel as int),
{
}

/// Packets of a stream keep the order of the times at which they were sent, at the
/// publisher and at its viewers.
pub proof fn law_packets_keep_the_order_of_time(
    first_kind: MediaKind,
    first_elapsed: Duration,
    first_content: Bytes,
    first: LivePacket,
    later_kind: MediaKind,
    later_elapsed: Duration,
    later_content: Bytes,
    later: LivePacket,
)
    requires
        is_sent(first_kind, first_elapsed, first_content, Ok(first)),
        is_sent(later_kind, later_elapsed, later_content, Ok(later)),
        duration_nanos(first_elapsed) <= duration_nanos(later_elapsed),
    ensures
        first@.nanos <= later@.nanos,
        packet_of(packet_bytes(first@)).nanos <= packet_of(packet_bytes(later@)).nanos,
{
    law_packet_round_trip(first@);
    law_packet_round_trip(later@);
}

/// A stream that is offered is found under its token, and what is offered under
/// other tokens stays as it was.
pub proof fn law_offered_stream_is_found(
    streams: Streams,
    token: Seq<u8>,
    channel: u64,
    other: Seq<u8>,
)
    ensures
        streams.insert(token, channel).contains_pair(token, channel),
        other != token ==> streams.insert(token, channel).dom().contains(other)
            == streams.dom().contains(other),
        other != token && streams.dom().contains(other) ==> streams.insert(token, channel)[other]
            == streams[other],
{
}

/// A stream that leaves is no longer found, and takes no other stream with it: not
/// one under another token, and not one that was offered under its token later.
pub proof fn law_leaving_takes_only_its_own(
    streams: Streams,
    token: Seq<u8>,
    channel: u64,
    other_token: Seq<u8>,
    other_channel: u64,
)
    requires
        token != other_token || channel != other_channel,
    ensures
        !without_stream(streams, token, channel).contains_pair(token, channel),
        without_stream(streams, token, channel).contains_pair(other_token, other_channel)
            == streams.contains_pair(other_token, other_channel),
{
}

/// Content of any kind is sent at any time if and only if it is at most 8 MiB long. What
/// is sent says that kind, time and content; what is refused is told both sizes.
pub proof fn law_content_within_the_limit_is_sent(
    kind: MediaKind,
    elapsed: Duration,
    content: Bytes,
    packet: Result<LivePacket, Error>,
)
    requires
        is_sent(kind, elapsed, content, packet),
    ensures
        packet is Ok <==> buffer(content).len() <= 8388608,
        packet is Ok ==> {
            &&& packet->Ok_0.kind == kind
            &&& duration_nanos(packet->Ok_0.timestamp) == duration_nanos(elapsed)
            &&& buffer(packet->Ok_0.content) == buffer(content)
        },
        packet is Err ==> (packet->Err_0 matches Error::LivePacketTooLarge { size, max } && size
            == buffer(content).len() && max == 8388608),
{
}

/// Whether content is sent depends on its length alone, and whatever is shorter than what
/// is sent is sent too.
pub proof fn law_shorter_content_is_sent_too(
    kind: MediaKind,
    elapsed: Duration,
    content: Bytes,
    packet: LivePacket,
    other_kind: MediaKind,
    other_elapsed: Duration,
    other_content: Bytes,
    other: Result<LivePacket, Error>,
)
    requires
        is_sent(kind, elapsed, content, Ok(packet)),
        is_sent(other_kind, other_elapsed, other_content, other),
        buffer(other_content).len() <= buffer(content).len(),
    ensures
        other is Ok,
{
}

/// Where all channels are issued, each token has thirty-two bytes and each channel is below
/// the bound; and whatever has that is issued.
pub proof fn law_what_is_issued(streams: Streams, issued: int)
    ensures
        are_issued(streams, issued) <==> forall|token: Seq<u8>, channel: u64| #[trigger]
            streams.contains_pair(token, channel) ==> token.len() == 32 && channel < issued,
{
    if forall|token: Seq<u8>, channel: u64| #[trigger]
        streams.contains_pair(token, channel) ==> token.len() == 32 && channel < issued {
        assert forall|token: Seq<u8>| #[trigger] streams.dom().contains(token) implies token.len()
            == 32 && streams[token] < issued by {
            assert(streams.contains_pair(token, streams[token]));
        }
    }
}

} // verus!
