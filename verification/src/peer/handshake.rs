//! The handshake that opens a peer connection: sixty-eight bytes that name
//! the protocol, the resource and the sender.

use vstd::prelude::*;

use crate::error::{Error, ErrorKind, ErrorView};
use crate::model::Sha1Hash;
use crate::peer::peer::PeerId;
use crate::util::bytes::{array_at, array_from_slice, bytes_eq, push_bytes};
use vstd::slice::slice_subrange;

verus! {

/// Length of a handshake.
pub const HANDSHAKE_LEN: usize = 68;

/// Length of the protocol's name.
pub const PROTOCOL_NAME_LEN: u8 = 19;

/// The protocol's name, in ASCII: `BitTorrent protocol`.
pub const PROTOCOL_NAME: [u8; 19] = [
    66, 105, 116, 84, 111, 114, 114, 101, 110, 116, 32, 112, 114, 111, 116, 111, 99, 111, 108,
];

/// Where the identity hash starts in a handshake.
pub const INFO_HASH_OFFSET: usize = 28;

/// Where the peer id starts in a handshake.
pub const PEER_ID_OFFSET: usize = 48;

/// The eight reserved bytes of a handshake, all zero.
pub open spec fn reserved_bytes() -> Seq<u8> {
    Seq::new(8, |i: int| 0u8)
}

/// The bytes of a handshake: the length of the protocol's name, the name,
/// eight zero bytes, the identity hash and the peer id.
pub open spec fn handshake_bytes(info_hash: Seq<u8>, peer_id: Seq<u8>) -> Seq<u8> {
    seq![PROTOCOL_NAME_LEN] + PROTOCOL_NAME@ + reserved_bytes() + info_hash + peer_id
}

/// What a received handshake means to a side that shares the resource with
/// the given identity: the sender's peer id, or the reason to close.
pub open spec fn handshake_outcome(reply: Seq<u8>, info_hash: Seq<u8>) -> Result<
    Seq<u8>,
    ErrorView,
> {
    if reply.len() != HANDSHAKE_LEN {
        Err(
            ErrorView {
                kind: ErrorKind::MalformedMessage,
                context: "Handshake is not 68 bytes long"@,
            },
        )
    } else if reply.subrange(INFO_HASH_OFFSET as int, PEER_ID_OFFSET as int) != info_hash {
        Err(ErrorView { kind: ErrorKind::ProtocolMismatch, context: "info_hash is not equal"@ })
    } else {
        Ok(reply.subrange(PEER_ID_OFFSET as int, HANDSHAKE_LEN as int))
    }
}

/// Builds the handshake of a peer for a resource.
pub fn make_handshake(info_hash: &Sha1Hash, peer_id: &PeerId) -> (buf: [u8; 68])
    ensures
        buf@ == handshake_bytes(info_hash@, peer_id@),
{
    let mut out: Vec<u8> = Vec::with_capacity(HANDSHAKE_LEN);
    out.push(PROTOCOL_NAME_LEN);
    push_bytes(&mut out, PROTOCOL_NAME.as_slice());
    let mut i: usize = 0;
    while i < 8
        invariant
            i <= 8,
            out@ == seq![PROTOCOL_NAME_LEN] + PROTOCOL_NAME@ + Seq::new(i as nat, |k: int| 0u8),
        decreases 8 - i,
    {
        out.push(0);
        assert(out@ =~= seq![PROTOCOL_NAME_LEN] + PROTOCOL_NAME@ + Seq::new(
            (i + 1) as nat,
            |k: int| 0u8,
        ));
        i += 1;
    }
    push_bytes(&mut out, info_hash.as_slice());
    push_bytes(&mut out, peer_id.as_slice());
    array_from_slice(out.as_slice())
}

/// Reads a received handshake.
///
/// A handshake for another resource is a `ProtocolMismatch`, one of another
/// length a `MalformedMessage`. The protocol's name and the reserved bytes
/// are not looked at.
pub fn read_handshake(reply: &[u8], info_hash: &Sha1Hash) -> (result: Result<PeerId, Error>)
    ensures
        match result {
            Ok(id) => handshake_outcome(reply@, info_hash@) == Ok::<Seq<u8>, ErrorView>(id@),
            Err(e) => handshake_outcome(reply@, info_hash@) == Err::<Seq<u8>, ErrorView>(e@),
        },
{
    if reply.len() != HANDSHAKE_LEN {
        return Err(Error::new(ErrorKind::MalformedMessage, "Handshake is not 68 bytes long"));
    }
    let theirs = slice_subrange(reply, INFO_HASH_OFFSET, PEER_ID_OFFSET);
    if !bytes_eq(theirs, info_hash.as_slice()) {
        return Err(Error::new(ErrorKind::ProtocolMismatch, "info_hash is not equal"));
    }
    Ok(array_at(reply, PEER_ID_OFFSET))
}

/// A handshake is sixty-eight bytes: the first is 19, the next nineteen are
/// the protocol's name, then come eight zero bytes, the identity hash and the
/// peer id. The same hash and id give the same bytes, whenever they are
/// encoded.
pub proof fn lemma_handshake_layout(info_hash: Seq<u8>, peer_id: Seq<u8>)
    requires
        info_hash.len() == 20,
        peer_id.len() == 20,
    ensures
        handshake_bytes(info_hash, peer_id).len() == 68,
        handshake_bytes(info_hash, peer_id)[0] == 19,
        handshake_bytes(info_hash, peer_id).subrange(1, 20) == PROTOCOL_NAME@,
        handshake_bytes(info_hash, peer_id).subrange(20, 28) == reserved_bytes(),
        handshake_bytes(info_hash, peer_id).subrange(28, 48) == info_hash,
        handshake_bytes(info_hash, peer_id).subrange(48, 68) == peer_id,
{
    let bytes = handshake_bytes(info_hash, peer_id);
    assert(PROTOCOL_NAME@.len() == 19);
    assert(bytes.subrange(1, 20) =~= PROTOCOL_NAME@);
    assert(bytes.subrange(20, 28) =~= reserved_bytes());
    assert(bytes.subrange(28, 48) =~= info_hash);
    assert(bytes.subrange(48, 68) =~= peer_id);
}

/// A handshake is accepted by a side that shares its resource, which reads
/// the sender's peer id from it, and by no side that shares another.
pub proof fn lemma_handshake_accepted(info_hash: Seq<u8>, peer_id: Seq<u8>, local: Seq<u8>)
    requires
        info_hash.len() == 20,
        peer_id.len() == 20,
    ensures
        handshake_outcome(handshake_bytes(info_hash, peer_id), info_hash) == Ok::<
            Seq<u8>,
            ErrorView,
        >(peer_id),
        local != info_hash ==> handshake_outcome(handshake_bytes(info_hash, peer_id), local)
            == Err::<Seq<u8>, ErrorView>(
            ErrorView { kind: ErrorKind::ProtocolMismatch, context: "info_hash is not equal"@ },
        ),
{
    lemma_handshake_layout(info_hash, peer_id);
}

} // verus!
