//! A real-time message relay: per-connection sessions and the room registry
//! that fans text messages out to the members of a room.

pub mod ident;
pub mod wire;
pub mod session;
pub mod lobby;
pub mod laws;
