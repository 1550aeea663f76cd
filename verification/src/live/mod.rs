//! Live streams: links to them, packets, and both sides of a connection.

pub mod host;
pub mod link;
pub mod packet;
pub mod serve;
pub mod watch;
