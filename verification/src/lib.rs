//! Core of a peer-to-peer file-transfer client: the tracker announce protocol
//! over HTTP and UDP, the peer wire codec, the per-peer session state machine
//! and the piece acquisition engine.
//!
//! Nothing in this crate performs I/O. Sockets, clocks and HTTP clients live in
//! the caller, which feeds events to the state machines here and carries out
//! the actions they return.

pub mod client;
pub mod error;
pub mod model;
pub mod peer;
pub mod tracker;
pub mod util;
