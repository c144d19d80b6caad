//! Peers: their handshake and the state of a connection to one.

pub mod handshake;
pub mod peer;
