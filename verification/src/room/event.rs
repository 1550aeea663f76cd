//! What happens in a room.

use bytes::Bytes;
use iroh::PublicKey;
use vstd::prelude::*;

use crate::payload::buffer;

verus! {

/// Event received from a room.
#[derive(Debug)]
pub enum RoomEvent {
    /// A direct gossip neighbor connected.
    PeerJoined {
        /// The neighbor.
        peer: PublicKey,
    },
    /// A direct gossip neighbor disconnected.
    PeerLeft {
        /// The neighbor.
        peer: PublicKey,
    },
    /// A message arrived.
    Message {
        /// What it says.
        content: Bytes,
    },
    /// Events were skipped.
    Lagged,
}

/// What the gossip of a room reports.
#[derive(Debug)]
pub enum GossipEvent {
    /// A neighbor came.
    NeighborUp(PublicKey),
    /// A neighbor went.
    NeighborDown(PublicKey),
    /// A message came with this content.
    Received(Bytes),
    /// The gossip itself skipped events.
    Lagged,
}

/// What came of waiting for the next event of a room.
#[derive(Debug)]
pub enum Reception {
    /// The gossip reported an event.
    Event(GossipEvent),
    /// The subscriber fell behind, and this many events were dropped.
    Lagged(u64),
    /// The room is gone.
    Closed,
}

impl Clone for RoomEvent {
    fn clone(&self) -> (copy: RoomEvent)
        ensures
            match self {
                RoomEvent::PeerJoined { peer } => copy == (RoomEvent::PeerJoined { peer: *peer }),
                RoomEvent::PeerLeft { peer } => copy == (RoomEvent::PeerLeft { peer: *peer }),
                RoomEvent::Message { content } => copy matches RoomEvent::Message { content: same }
                    && buffer(same) == buffer(*content),
                RoomEvent::Lagged => copy is Lagged,
            },
    {
        match self {
            RoomEvent::PeerJoined { peer } => RoomEvent::PeerJoined { peer: *peer },
            RoomEvent::PeerLeft { peer } => RoomEvent::PeerLeft { peer: *peer },
            RoomEvent::Message { content } => RoomEvent::Message { content: content.clone() },
            RoomEvent::Lagged => RoomEvent::Lagged,
        }
    }
}

/// The room event that a reception is: `None` when the room is gone. Dropped
/// events, wherever they were dropped, show as one [`RoomEvent::Lagged`].
pub open spec fn room_event(reception: Reception) -> Option<RoomEvent> {
    match reception {
        Reception::Event(GossipEvent::NeighborUp(peer)) => Some(RoomEvent::PeerJoined { peer }),
        Reception::Event(GossipEvent::NeighborDown(peer)) => Some(RoomEvent::PeerLeft { peer }),
        Reception::Event(GossipEvent::Received(content)) => Some(RoomEvent::Message { content }),
        Reception::Event(GossipEvent::Lagged) => Some(RoomEvent::Lagged),
        Reception::Lagged(_) => Some(RoomEvent::Lagged),
        Reception::Closed => None,
    }
}

impl RoomEvent {
    /// The event to hand to a subscriber, or `None` when the room is gone.
    pub fn from_reception(reception: Reception) -> (event: Option<RoomEvent>)
        ensures
            event == room_event(reception),
            reception is Closed <==> event is None,
            reception is Lagged || reception == Reception::Event(GossipEvent::Lagged) <==> event
                == Some(RoomEvent::Lagged),
            reception matches Reception::Event(GossipEvent::NeighborUp(peer)) ==> event == Some(
                RoomEvent::PeerJoined { peer },
            ),
            reception matches Reception::Event(GossipEvent::NeighborDown(peer)) ==> event == Some(
                RoomEvent::PeerLeft { peer },
            ),
            reception matches Reception::Event(GossipEvent::Received(content)) ==> event == Some(
                RoomEvent::Message { content },
            ),
    {
        match reception {
            Reception::Event(GossipEvent::NeighborUp(peer)) => Some(
                RoomEvent::PeerJoined { peer },
            ),
            Reception::Event(GossipEvent::NeighborDown(peer)) => Some(RoomEvent::PeerLeft { peer }),
            Reception::Event(GossipEvent::Received(content)) => Some(
                RoomEvent::Message { content },
            ),
            Reception::Event(GossipEvent::Lagged) => Some(RoomEvent::Lagged),
            Reception::Lagged(_) => Some(RoomEvent::Lagged),
            Reception::Closed => None,
        }
    }
}

/// No message is lost, changed or made up: a message that came, whatever its content, is
/// handed on with the same content, and a message that is handed on came.
pub proof fn law_messages_are_handed_on(reception: Reception)
    ensures
        reception matches Reception::Event(GossipEvent::Received(content)) ==> room_event(reception)
            matches Some(RoomEvent::Message { content: same }) && buffer(same) == buffer(content),
        room_event(reception) matches Some(RoomEvent::Message { content }) ==> reception
            matches Reception::Event(GossipEvent::Received(came)) && buffer(came) == buffer(
            content,
        ),
{
}

/// Every neighbor that came or went is reported, and no other.
pub proof fn law_neighbors_are_reported(reception: Reception, peer: PublicKey)
    ensures
        reception == Reception::Event(GossipEvent::NeighborUp(peer)) <==> room_event(reception)
            == Some(RoomEvent::PeerJoined { peer }),
        reception == Reception::Event(GossipEvent::NeighborDown(peer)) <==> room_event(reception)
            == Some(RoomEvent::PeerLeft { peer }),
{
}

/// A subscriber is told of skipped events if and only if events were skipped, and of the
/// room's end if and only if the room is gone.
pub proof fn law_only_a_lag_shows_as_one(reception: Reception)
    ensures
        room_event(reception) == Some(RoomEvent::Lagged) <==> reception is Lagged || reception
            == Reception::Event(GossipEvent::Lagged),
        room_event(reception) is None <==> reception is Closed,
{
}

} // verus!
