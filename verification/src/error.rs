//! Errors of the library.

use vstd::prelude::*;

verus! {

/// Errors produced by Peersey's rules for identities, rooms, links and packets,
/// and those that networking reports to them.
#[derive(Debug)]
pub enum Error {
    /// Stored endpoint identity has an invalid length.
    InvalidIdentity {
        /// Identity file path.
        path: String,
        /// Actual byte length.
        length: usize,
    },
    /// Underlying P2P operation failed, with what it said.
    P2p(String),
    /// Public room name is empty or holds white space.
    InvalidRoomName,
    /// Text is not a live link.
    InvalidLiveLink,
    /// Bytes are not a live packet.
    InvalidLivePacket,
    /// Packet content is over the limit.
    LivePacketTooLarge {
        /// Length of the content in bytes.
        size: usize,
        /// Greatest length that is accepted.
        max: usize,
    },
    /// Publisher did not answer the handshake in time.
    LiveHandshakeTimeout,
    /// Publisher refused the handshake.
    LiveAccessDenied,
}

} // verus!
