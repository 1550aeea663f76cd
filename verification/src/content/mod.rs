//! Shared files: who provides them, and the links to them.

pub mod identity;
pub mod share;
