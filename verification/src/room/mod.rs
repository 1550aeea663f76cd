//! Rooms: their keys and names, where their members meet, and what happens in them.

pub mod coordinates;
pub mod event;
pub mod id;
pub mod key;
