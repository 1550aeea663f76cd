//! The rules of Peersey, a peer-to-peer messaging and content sharing library.
//!
//! This crate decides and computes: what keys, names, links and packets mean,
//! where the members of a room meet, who may watch a live stream, and what either
//! side of a live connection does next. It opens no socket and no file; what it
//! asks for is done around it.
//!
//! The functions carry contracts over mathematical models, which Verus proves. Calls
//! into other crates stand behind small functions whose contracts are taken on trust;
//! their doc comments say what of. Of the random bytes that are drawn nothing is
//! said. The laws that tie the functions together are the proof functions whose names
//! begin with `law_`.

pub mod address;
mod chance;
pub mod content;
pub mod error;
pub mod hexadecimal;
pub mod live;
pub mod payload;
pub mod room;
pub mod text;
pub mod wire;

pub use content::identity::Identity;
pub use content::share::{BlobFormat, ShareLink};
pub use error::Error;
pub use hexadecimal::FromHexError;
pub use live::host::{LiveHost, LiveStream};
pub use live::link::LiveLink;
pub use live::packet::{LivePacket, MediaKind};
pub use live::watch::LiveReceiver;
pub use room::event::RoomEvent;
pub use room::id::{RoomId, RoomIdParseError};
pub use room::key::{RoomKey, RoomKeyParseError, TopicKey};
