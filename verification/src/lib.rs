//! The protocol core of a block-world game server: the wire format of its
//! packets, the registry of connected players, and the decisions of a
//! connection's life cycle.

pub mod annotate;
pub mod codec;
pub mod fixed;
pub mod heartbeat;
pub mod level;
pub mod networking;
pub mod packets;
pub mod round_trip;
pub mod salt;
mod sealed;
pub mod search;
pub mod server;
pub mod session;
pub mod setup;
pub mod text;
pub mod world;
