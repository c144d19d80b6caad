//! Hashing, random numbers and tracker addresses.

use sha1::{Digest, Sha1};
use vstd::prelude::*;
use vstd::string::StrSliceExecFns;

use crate::error::{Error, ErrorKind};
use crate::model::Sha1Hash;

verus! {

/// The SHA-1 digest of a byte string, as the `sha1` crate computes it.
pub uninterp spec fn sha1_digest(bytes: Seq<u8>) -> Seq<u8>;

/// Hashes `bytes` with SHA-1.
///
/// Calls `Sha1::new`, `Digest::update` and `Digest::finalize` of the `sha1`
/// crate. The contract only gives the digest its name: the same bytes always
/// hash to the same twenty bytes.
#[verifier::external_body]
pub fn sha1_hash(bytes: &[u8]) -> (hash: Sha1Hash)
    ensures
        hash@ == sha1_digest(bytes@),
{
    let mut hash = [0u8; 20];
    let mut hasher = Sha1::new();
    hasher.update(bytes);
    let hasher_output = hasher.finalize();
    let result: &[u8] = hasher_output.as_slice();
    hash.copy_from_slice(result);
    hash
}

/// Draws a 32-bit number at random.
///
/// Calls `rand::random`. Nothing is promised of the result: every `u32` can
/// come back, and two calls may differ.
#[verifier::external_body]
pub(crate) fn random_u32() -> u32 {
    rand::random()
}

/// The two transports over which a tracker is reached.
#[derive(Debug, Clone, Copy, PartialEq, Eq, Structural)]
pub enum TrackerTransport {
    Http,
    Udp,
}

/// Whether a text starts with another.
pub open spec fn starts_with(text: Seq<char>, prefix: Seq<char>) -> bool {
    text.len() >= prefix.len() && text.subrange(0, prefix.len() as int) == prefix
}

/// The transport that a tracker address names, if it names one: `udp:` or
/// `http:` at its start.
pub open spec fn transport_of(addr: Seq<char>) -> Option<TrackerTransport> {
    if starts_with(addr, "udp:"@) {
        Some(TrackerTransport::Udp)
    } else if starts_with(addr, "http:"@) {
        Some(TrackerTransport::Http)
    } else {
        None
    }
}

/// What follows the transport in a tracker address: the host and the port.
pub open spec fn host_and_port(addr: Seq<char>) -> Seq<char>
    recommends
        transport_of(addr) is Some,
{
    if starts_with(addr, "udp:"@) {
        addr.subrange(4, addr.len() as int)
    } else {
        addr.subrange(5, addr.len() as int)
    }
}

/// Whether a text starts with the `n` characters of `prefix`.
fn has_prefix(text: &str, prefix: &str, n: usize) -> (has: bool)
    requires
        prefix@.len() == n,
    ensures
        has == starts_with(text@, prefix@),
{
    if text.unicode_len() < n {
        return false;
    }
    let mut i: usize = 0;
    while i < n
        invariant
            i <= n,
            n == prefix@.len(),
            n <= text@.len(),
            forall|k: int| 0 <= k < i ==> text@[k] == prefix@[k],
        decreases n - i,
    {
        if text.get_char(i) != prefix.get_char(i) {
            assert(text@.subrange(0, n as int)[i as int] != prefix@[i as int]);
            return false;
        }
        i += 1;
    }
    assert(text@.subrange(0, n as int) =~= prefix@);
    true
}

/// Splits a tracker address into its transport and what follows it, which
/// is left for the caller to resolve.
///
/// Fails with `InvalidInput` on an address that starts with neither `udp:`
/// nor `http:`.
pub fn split_tracker_address(addr: &str) -> (result: Result<(TrackerTransport, &str), Error>)
    ensures
        match result {
            Ok((transport, rest)) => transport_of(addr@) == Some(transport) && rest@
                == host_and_port(addr@),
            Err(e) => transport_of(addr@) is None && e.kind == ErrorKind::InvalidInput
                && e.context@ == "Address should start with 'udp:' or 'http:'"@,
        },
{
    proof {
        reveal_strlit("udp:");
        reveal_strlit("http:");
    }
    if has_prefix(addr, "udp:", 4) {
        Ok((TrackerTransport::Udp, addr.substring_char(4, addr.unicode_len())))
    } else if has_prefix(addr, "http:", 5) {
        Ok((TrackerTransport::Http, addr.substring_char(5, addr.unicode_len())))
    } else {
        Err(Error::new(ErrorKind::InvalidInput, "Address should start with 'udp:' or 'http:'"))
    }
}

} // verus!
