//! Helpers that the protocol modules share.

pub mod bytes;
pub mod common;
pub mod text;
