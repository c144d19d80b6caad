//! Plain data shared by every component.

use vstd::prelude::*;

pub mod bitfield;
pub mod message;
pub mod torrent;
pub mod tracker;

verus! {

/// Length in bytes of a SHA-1 digest.
pub const SHA1_HASH_LEN: usize = 20;

/// A SHA-1 digest: the identity of a resource, of a piece, or of a peer.
pub type Sha1Hash = [u8; SHA1_HASH_LEN];

} // verus!
