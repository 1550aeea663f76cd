//! Packets of a live stream and their wire format.

use std::time::Duration;

use bytes::Bytes;
use vstd::prelude::*;

use crate::error::Error;
use crate::payload;
use crate::payload::buffer;
use crate::wire;
use crate::wire::{be_bytes, be_value};

verus! {

/// Bytes before the content of an encoded packet.
pub const HEADER_LEN: usize = 14;

/// Greatest length of a packet's content: 8 MiB.
pub const MAX_PACKET_SIZE: usize = 8388608;

/// The nanoseconds in a duration, as `Duration::as_nanos` counts them.
pub uninterp spec fn duration_nanos(duration: Duration) -> nat;

/// `Duration::as_nanos` gives the total number of nanoseconds.
pub assume_specification[ Duration::as_nanos ](duration: &Duration) -> (nanos: u128)
    ensures
        nanos == duration_nanos(*duration),
;

/// `Duration::as_micros` gives the total number of whole microseconds.
pub assume_specification[ Duration::as_micros ](duration: &Duration) -> (micros: u128)
    ensures
        micros == duration_nanos(*duration) / 1000,
;

/// `Duration::from_micros` makes a duration of that many microseconds.
pub assume_specification[ Duration::from_micros ](micros: u64) -> (duration: Duration)
    ensures
        duration_nanos(duration) == micros as nat * 1000,
;

/// Kind of data carried by a live packet.
#[derive(Debug, Clone, Copy, PartialEq, Eq, Structural)]
pub enum MediaKind {
    /// Encoded video frame or video chunk.
    Video,
    /// Encoded audio frame or audio chunk.
    Audio,
    /// Application-defined realtime data.
    Data,
}

/// The byte that stands for a kind on the wire.
pub open spec fn kind_byte(kind: MediaKind) -> u8 {
    match kind {
        MediaKind::Video => 0,
        MediaKind::Audio => 1,
        MediaKind::Data => 2,
    }
}

impl MediaKind {
    /// The byte that stands for this kind on the wire.
    pub fn as_byte(self) -> (byte: u8)
        ensures
            byte == kind_byte(self),
            self is Video ==> byte == 0,
            self is Audio ==> byte == 1,
            self is Data ==> byte == 2,
    {
        match self {
            MediaKind::Video => 0,
            MediaKind::Audio => 1,
            MediaKind::Data => 2,
        }
    }

    /// The kind that a byte stands for.
    pub fn from_byte(value: u8) -> (kind: Result<MediaKind, Error>)
        ensures
            match kind {
                Ok(kind) => value == kind_byte(kind),
                Err(error) => error is InvalidLivePacket && value > 2,
            },
            value == 0 <==> kind matches Ok(MediaKind::Video),
            value == 1 <==> kind matches Ok(MediaKind::Audio),
            value == 2 <==> kind matches Ok(MediaKind::Data),
            value > 2 <==> kind is Err,
    {
        match value {
            0 => Ok(MediaKind::Video),
            1 => Ok(MediaKind::Audio),
            2 => Ok(MediaKind::Data),
            _ => Err(Error::InvalidLivePacket),
        }
    }
}

/// One timestamped packet from a live stream.
#[derive(Debug)]
pub struct LivePacket {
    /// Media track carried by this packet.
    pub kind: MediaKind,
    /// Time since the publisher created the stream.
    pub timestamp: Duration,
    /// Encoded media or application bytes.
    pub content: Bytes,
}

/// What a packet says.
pub struct PacketView {
    /// Its media track.
    pub kind: MediaKind,
    /// Its timestamp in nanoseconds.
    pub nanos: nat,
    /// Its content.
    pub content: Seq<u8>,
}

impl View for LivePacket {
    type V = PacketView;

    open spec fn view(&self) -> PacketView {
        PacketView {
            kind: self.kind,
            nanos: duration_nanos(self.timestamp),
            content: buffer(self.content),
        }
    }
}

impl Clone for LivePacket {
    fn clone(&self) -> (copy: LivePacket)
        ensures
            copy@ == self@,
            copy.kind == self.kind,
            duration_nanos(copy.timestamp) == duration_nanos(self.timestamp),
            buffer(copy.content) == buffer(self.content),
    {
        LivePacket {
            kind: self.kind,
            timestamp: self.timestamp,
            content: self.content.clone(),
        }
    }
}

impl PartialEq for LivePacket {
    fn eq(&self, other: &LivePacket) -> (same: bool) {
        self.kind == other.kind && self.timestamp.as_nanos() == other.timestamp.as_nanos()
            && payload::same_bytes(
            payload::as_slice(&self.content),
            payload::as_slice(&other.content),
        )
    }
}

impl vstd::std_specs::cmp::PartialEqSpecImpl for LivePacket {
    open spec fn obeys_eq_spec() -> bool {
        true
    }

    open spec fn eq_spec(&self, other: &LivePacket) -> bool {
        self@ == other@
    }
}

impl Eq for LivePacket {

}

/// The timestamp on the wire: whole microseconds, at most what eight bytes hold.
pub open spec fn wire_micros(nanos: nat) -> nat {
    if nanos / 1000 <= u64::MAX {
        nanos / 1000
    } else {
        u64::MAX as nat
    }
}

/// A packet on the wire: a version byte, the kind, the timestamp in eight bytes,
/// the length of the content in four, and the content.
pub open spec fn packet_bytes(packet: PacketView) -> Seq<u8> {
    seq![1u8, kind_byte(packet.kind)] + be_bytes(wire_micros(packet.nanos), 8) + be_bytes(
        packet.content.len() % 0x1_0000_0000,
        4,
    ) + packet.content
}

/// Whether bytes are a packet: a whole header of this version, a known kind, and
/// as much content as the header says, within the limit.
pub open spec fn is_packet(bytes: Seq<u8>) -> bool {
    &&& bytes.len() >= HEADER_LEN
    &&& bytes[0] == 1
    &&& bytes[1] <= 2
    &&& be_value(bytes.subrange(10, 14)) == bytes.len() - HEADER_LEN
    &&& bytes.len() - HEADER_LEN <= MAX_PACKET_SIZE
}

/// The packet that bytes are.
pub open spec fn packet_of(bytes: Seq<u8>) -> PacketView {
    PacketView {
        kind: if bytes[1] == 0 {
            MediaKind::Video
        } else if bytes[1] == 1 {
            MediaKind::Audio
        } else {
            MediaKind::Data
        },
        nanos: be_value(bytes.subrange(2, 10)) * 1000,
        content: bytes.skip(HEADER_LEN as int),
    }
}

impl LivePacket {
    /// The packet on the wire.
    pub fn encode(&self) -> (bytes: Vec<u8>)
        ensures
            bytes@ == packet_bytes(self@),
            bytes@.len() == 14 + buffer(self.content).len(),
            bytes@[0] == 1,
            bytes@[1] == (match self.kind {
                MediaKind::Video => 0u8,
                MediaKind::Audio => 1,
                MediaKind::Data => 2,
            }),
            bytes@.skip(14) == buffer(self.content),
    {
        proof {
            lemma_packet_layout(self@);
        }
        let mut bytes: Vec<u8> = Vec::new();
        bytes.push(1);
        bytes.push(self.kind.as_byte());
        assert(bytes@ =~= seq![1u8, kind_byte(self.kind)]);
        let micros: u128 = self.timestamp.as_micros();
        let micros: u64 = if micros <= u64::MAX as u128 {
            micros as u64
        } else {
            u64::MAX
        };
        wire::push_be(&mut bytes, micros, 8);
        wire::push_be(&mut bytes, self.content.len() as u64 % 0x1_0000_0000, 4);
        bytes.extend_from_slice(payload::as_slice(&self.content));
        bytes
    }

    /// The packet that bytes are.
    pub fn decode(bytes: Vec<u8>) -> (packet: Result<LivePacket, Error>)
        ensures
            match packet {
                Ok(packet) => is_packet(bytes@) && packet@ == packet_of(bytes@),
                Err(error) => !is_packet(bytes@) && error is InvalidLivePacket,
            },
            packet is Ok <==> {
                &&& 14 <= bytes@.len() <= 14 + 8388608
                &&& bytes@[0] == 1
                &&& bytes@[1] <= 2
                &&& 0x100_0000 * bytes@[10] + 0x1_0000 * bytes@[11] + 0x100 * bytes@[12]
                    + bytes@[13] == bytes@.len() - 14
            },
            packet matches Ok(packet) ==> {
                &&& packet.kind is Video <==> bytes@[1] == 0
                &&& packet.kind is Audio <==> bytes@[1] == 1
                &&& packet.kind is Data <==> bytes@[1] == 2
                &&& duration_nanos(packet.timestamp) == 1000 * (0x1_0000_0000 * (0x100_0000
                    * bytes@[2] + 0x1_0000 * bytes@[3] + 0x100 * bytes@[4] + bytes@[5]) + (
                0x100_0000 * bytes@[6] + 0x1_0000 * bytes@[7] + 0x100 * bytes@[8] + bytes@[9]))
                &&& buffer(packet.content) == bytes@.skip(14)
            },
    {
        proof {
            law_which_bytes_are_a_packet(bytes@);
        }
        if bytes.len() < HEADER_LEN || bytes[0] != 1 {
            return Err(Error::InvalidLivePacket);
        }
        let kind: MediaKind = match MediaKind::from_byte(bytes[1]) {
            Ok(kind) => kind,
            Err(error) => {
                return Err(error);
            },
        };
        let timestamp: u64 = wire::read_be(bytes.as_slice(), 2, 8);
        let length: u64 = wire::read_be(bytes.as_slice(), 10, 4);
        if length > MAX_PACKET_SIZE as u64 || (bytes.len() - HEADER_LEN) as u64 != length {
            return Err(Error::InvalidLivePacket);
        }
        Ok(
            LivePacket {
                kind,
                timestamp: Duration::from_micros(timestamp),
                content: payload::slice_from(&payload::from_vec(bytes), HEADER_LEN),
            },
        )
    }
}

/// No two kinds share a byte, so a kind is read back from its byte.
pub proof fn law_kinds_are_told_apart(a: MediaKind, b: MediaKind)
    ensures
        kind_byte(a) <= 2,
        kind_byte(a) == kind_byte(b) ==> a == b,
{
}

/// Where the parts of an encoded packet lie.
proof fn lemma_packet_layout(packet: PacketView)
    ensures
        packet_bytes(packet).len() == HEADER_LEN + packet.content.len(),
        packet_bytes(packet)[0] == 1,
        packet_bytes(packet)[1] == kind_byte(packet.kind),
        packet_bytes(packet).subrange(2, 10) == be_bytes(wire_micros(packet.nanos), 8),
        packet_bytes(packet).subrange(10, 14) == be_bytes(
            packet.content.len() % 0x1_0000_0000,
            4,
        ),
        packet_bytes(packet).skip(HEADER_LEN as int) == packet.content,
{
    let bytes = packet_bytes(packet);
    let time = be_bytes(wire_micros(packet.nanos), 8);
    let length = be_bytes(packet.content.len() % 0x1_0000_0000, 4);
    wire::lemma_be_bytes_len(wire_micros(packet.nanos), 8);
    wire::lemma_be_bytes_len(packet.content.len() % 0x1_0000_0000, 4);
    assert(bytes.subrange(2, 10) =~= time);
    assert(bytes.subrange(10, 14) =~= length);
    assert(bytes.skip(HEADER_LEN as int) =~= packet.content);
}

/// A packet within the limit is read back as it was written: its kind and its
/// content whole, its timestamp in whole microseconds. One whose timestamp is a
/// number of microseconds that eight bytes hold comes back the same.
pub proof fn law_packet_round_trip(packet: PacketView)
    requires
        packet.content.len() <= MAX_PACKET_SIZE,
    ensures
        is_packet(packet_bytes(packet)),
        packet_of(packet_bytes(packet)) == (PacketView {
            kind: packet.kind,
            nanos: wire_micros(packet.nanos) * 1000,
            content: packet.content,
        }),
        packet.nanos % 1000 == 0 && packet.nanos / 1000 <= u64::MAX ==> packet_of(
            packet_bytes(packet),
        ) == packet,
{
    lemma_packet_layout(packet);
    wire::lemma_be_limits();
    wire::lemma_be_round_trip(wire_micros(packet.nanos), 8);
    wire::lemma_be_round_trip(packet.content.len() % 0x1_0000_0000, 4);
}

/// A packet over the limit is refused by every reader.
pub proof fn law_packet_over_limit_is_refused(packet: PacketView)
    requires
        packet.content.len() > MAX_PACKET_SIZE,
    ensures
        !is_packet(packet_bytes(packet)),
{
    lemma_packet_layout(packet);
}

/// A packet has one form on the wire: bytes that are read as a packet are the
/// bytes that this packet is written as.
pub proof fn law_packet_has_one_form(bytes: Seq<u8>)
    requires
        is_packet(bytes),
    ensures
        packet_bytes(packet_of(bytes)) == bytes,
{
    let packet = packet_of(bytes);
    let time = bytes.subrange(2, 10);
    let length = bytes.subrange(10, 14);
    wire::lemma_be_limits();
    wire::lemma_be_read_write(time);
    wire::lemma_be_read_write(length);
    assert(wire_micros(packet.nanos) == be_value(time));
    assert(packet_bytes(packet) =~= bytes);
}

/// Video is 0, audio 1 and data 2.
pub proof fn law_bytes_of_kinds(kind: MediaKind)
    ensures
        kind is Video <==> kind_byte(kind) == 0,
        kind is Audio <==> kind_byte(kind) == 1,
        kind is Data <==> kind_byte(kind) == 2,
{
}

/// A packet says what its fields hold.
pub proof fn law_what_a_packet_says(packet: LivePacket)
    ensures
        packet@.kind == packet.kind,
        packet@.nanos == duration_nanos(packet.timestamp),
        packet@.content == buffer(packet.content),
{
}

/// Packets are equal if and only if they say the same.
pub proof fn law_equal_packets_say_the_same(a: LivePacket, b: LivePacket)
    ensures
        vstd::std_specs::cmp::PartialEqSpec::eq_spec(&a, &b) <==> a@ == b@,
{
}

/// How a packet lies on the wire: the version, the kind, the whole microseconds as far as
/// eight bytes hold them, the length of the content, and the content.
pub proof fn law_how_a_packet_is_written(packet: PacketView)
    ensures
        packet_bytes(packet).len() == 14 + packet.content.len(),
        packet_bytes(packet)[0] == 1,
        packet.kind is Video <==> packet_bytes(packet)[1] == 0,
        packet.kind is Audio <==> packet_bytes(packet)[1] == 1,
        packet.kind is Data <==> packet_bytes(packet)[1] == 2,
        packet.nanos / 1000 <= u64::MAX ==> be_value(packet_bytes(packet).subrange(2, 10))
            == packet.nanos / 1000,
        packet.nanos / 1000 > u64::MAX ==> be_value(packet_bytes(packet).subrange(2, 10))
            == u64::MAX,
        be_value(packet_bytes(packet).subrange(10, 14)) == packet.content.len() % 0x1_0000_0000,
        packet_bytes(packet).skip(14) == packet.content,
{
    lemma_packet_layout(packet);
    wire::lemma_be_limits();
    wire::lemma_be_round_trip(wire_micros(packet.nanos), 8);
    wire::lemma_be_round_trip(packet.content.len() % 0x1_0000_0000, 4);
}

/// Every run of bytes is a packet that begins with the version 1, has a kind from 0 to 2
/// and as much content as its header says, up to 8 MiB; and nothing else is one. It says
/// what its header and the rest say.
pub proof fn law_which_bytes_are_a_packet(bytes: Seq<u8>)
    ensures
        is_packet(bytes) <==> {
            &&& 14 <= bytes.len() <= 14 + 8388608
            &&& bytes[0] == 1
            &&& bytes[1] <= 2
            &&& 0x100_0000 * bytes[10] + 0x1_0000 * bytes[11] + 0x100 * bytes[12] + bytes[13]
                == bytes.len() - 14
        },
        is_packet(bytes) ==> {
            &&& packet_of(bytes).kind is Video <==> bytes[1] == 0
            &&& packet_of(bytes).kind is Audio <==> bytes[1] == 1
            &&& packet_of(bytes).kind is Data <==> bytes[1] == 2
            &&& packet_of(bytes).nanos == 1000 * (0x1_0000_0000 * (0x100_0000 * bytes[2] + 0x1_0000
                * bytes[3] + 0x100 * bytes[4] + bytes[5]) + (0x100_0000 * bytes[6] + 0x1_0000
                * bytes[7] + 0x100 * bytes[8] + bytes[9]))
            &&& packet_of(bytes).content == bytes.skip(14)
        },
{
    if bytes.len() >= 14 {
        wire::law_value_of_four_bytes(bytes.subrange(10, 14));
        wire::law_value_of_eight_bytes(bytes.subrange(2, 10));
    }
}

} // verus!
