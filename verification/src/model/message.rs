//! The messages that peers exchange, and their frames on the wire.
//!
//! A frame is a four-byte big-endian length, then that many bytes: one byte
//! of message id and the payload. A frame of length zero is a keep-alive.

use bit_vec::BitVec;
use vstd::prelude::*;
use vstd::slice::{slice_subrange, slice_to_vec};

use crate::error::{Error, ErrorKind};
use crate::model::bitfield::{
    bits_from_bytes, bits_to_bytes, bitvec_bits, lemma_unpack_pack, packed_bytes, padded_bits,
    unpacked_bits,
};
use crate::util::bytes::{
    be_u32, lemma_be_u32_decode_encode, push_be_u32, push_bytes, read_be_u32, u32_be,
};

verus! {

pub const CHOKE: u8 = 0;

pub const UNCHOKE: u8 = 1;

pub const INTERESTED: u8 = 2;

pub const NOT_INTERESTED: u8 = 3;

pub const HAVE: u8 = 4;

pub const BITFIELD: u8 = 5;

pub const REQUEST: u8 = 6;

pub const PIECE: u8 = 7;

pub const CANCEL: u8 = 8;

/// Bytes of the length prefix of a frame.
pub const LENGTH_PREFIX_LEN: usize = 4;

/// A message of the peer wire protocol.
#[derive(Debug, PartialEq, Eq)]
pub enum PeerMessage {
    Choke,
    Unchoke,
    Interested,
    NotInterested,
    /// The sender has the piece with this index.
    Have(u32),
    /// The pieces that the sender has: one bit per piece index.
    Bitfield(BitVec),
    Request { index: u32, begin: u32, length: u32 },
    /// A block: the bytes of piece `index` from offset `begin` on.
    Piece { index: u32, begin: u32, piece: Vec<u8> },
    Cancel { index: u32, begin: u32, length: u32 },
    KeepAlive,
}

/// A message as a mathematical value.
pub enum PeerMessageView {
    Choke,
    Unchoke,
    Interested,
    NotInterested,
    Have(u32),
    Bitfield(Seq<bool>),
    Request { index: u32, begin: u32, length: u32 },
    Piece { index: u32, begin: u32, piece: Seq<u8> },
    Cancel { index: u32, begin: u32, length: u32 },
    KeepAlive,
}

impl View for PeerMessage {
    type V = PeerMessageView;

    open spec fn view(&self) -> PeerMessageView {
        match self {
            PeerMessage::Choke => PeerMessageView::Choke,
            PeerMessage::Unchoke => PeerMessageView::Unchoke,
            PeerMessage::Interested => PeerMessageView::Interested,
            PeerMessage::NotInterested => PeerMessageView::NotInterested,
            PeerMessage::Have(index) => PeerMessageView::Have(*index),
            PeerMessage::Bitfield(bits) => PeerMessageView::Bitfield(bitvec_bits(*bits)),
            PeerMessage::Request { index, begin, length } => PeerMessageView::Request {
                index: *index,
                begin: *begin,
                length: *length,
            },
            PeerMessage::Piece { index, begin, piece } => PeerMessageView::Piece {
                index: *index,
                begin: *begin,
                piece: piece@,
            },
            PeerMessage::Cancel { index, begin, length } => PeerMessageView::Cancel {
                index: *index,
                begin: *begin,
                length: *length,
            },
            PeerMessage::KeepAlive => PeerMessageView::KeepAlive,
        }
    }
}

/// The bytes that follow the message id in a message's frame.
pub open spec fn payload(m: PeerMessageView) -> Seq<u8> {
    match m {
        PeerMessageView::Have(index) => u32_be(index),
        PeerMessageView::Bitfield(bits) => packed_bytes(bits),
        PeerMessageView::Request { index, begin, length } => u32_be(index) + u32_be(begin)
            + u32_be(length),
        PeerMessageView::Piece { index, begin, piece } => u32_be(index) + u32_be(begin) + piece,
        PeerMessageView::Cancel { index, begin, length } => u32_be(index) + u32_be(begin) + u32_be(
            length,
        ),
        _ => Seq::empty(),
    }
}

/// The id of a message; a keep-alive has none.
pub open spec fn message_id(m: PeerMessageView) -> u8
    recommends
        !(m is KeepAlive),
{
    match m {
        PeerMessageView::Choke => CHOKE,
        PeerMessageView::Unchoke => UNCHOKE,
        PeerMessageView::Interested => INTERESTED,
        PeerMessageView::NotInterested => NOT_INTERESTED,
        PeerMessageView::Have(_) => HAVE,
        PeerMessageView::Bitfield(_) => BITFIELD,
        PeerMessageView::Request { .. } => REQUEST,
        PeerMessageView::Piece { .. } => PIECE,
        PeerMessageView::Cancel { .. } => CANCEL,
        PeerMessageView::KeepAlive => 0,
    }
}

/// Whether a message has a frame: its id and payload must not be longer than
/// a length prefix can say.
pub open spec fn encodable(m: PeerMessageView) -> bool {
    1 + payload(m).len() <= u32::MAX
}

/// The frame of a message: the length of what follows, then the id and the
/// payload. The frame of a keep-alive is the length zero alone.
pub open spec fn encoded(m: PeerMessageView) -> Seq<u8>
    recommends
        encodable(m),
{
    if m is KeepAlive {
        u32_be(0)
    } else {
        u32_be((1 + payload(m).len()) as u32) + seq![message_id(m)] + payload(m)
    }
}

/// The message that an id, a length and a payload stand for, where the id is
/// known and allows the length. `length` counts the id and the payload.
pub open spec fn message_of(id: u8, length: int, payload: Seq<u8>) -> Option<PeerMessageView> {
    if id == CHOKE && length == 1 {
        Some(PeerMessageView::Choke)
    } else if id == UNCHOKE && length == 1 {
        Some(PeerMessageView::Unchoke)
    } else if id == INTERESTED && length == 1 {
        Some(PeerMessageView::Interested)
    } else if id == NOT_INTERESTED && length == 1 {
        Some(PeerMessageView::NotInterested)
    } else if id == HAVE && length == 5 {
        Some(PeerMessageView::Have(be_u32(payload)))
    } else if id == BITFIELD {
        Some(PeerMessageView::Bitfield(unpacked_bits(payload)))
    } else if id == REQUEST && length == 13 {
        Some(
            PeerMessageView::Request {
                index: be_u32(payload.subrange(0, 4)),
                begin: be_u32(payload.subrange(4, 8)),
                length: be_u32(payload.subrange(8, 12)),
            },
        )
    } else if id == PIECE && length >= 9 {
        Some(
            PeerMessageView::Piece {
                index: be_u32(payload.subrange(0, 4)),
                begin: be_u32(payload.subrange(4, 8)),
                piece: payload.subrange(8, payload.len() as int),
            },
        )
    } else if id == CANCEL && length == 13 {
        Some(
            PeerMessageView::Cancel {
                index: be_u32(payload.subrange(0, 4)),
                begin: be_u32(payload.subrange(4, 8)),
                length: be_u32(payload.subrange(8, 12)),
            },
        )
    } else {
        None
    }
}

/// Whether a byte string is one whole frame: a length prefix and as many
/// bytes after it as the prefix says.
pub open spec fn well_framed(frame: Seq<u8>) -> bool {
    frame.len() >= 4 && frame.len() == 4 + be_u32(frame.subrange(0, 4))
}

/// The message that a byte string is the frame of, if it is the frame of one.
pub open spec fn decoded(frame: Seq<u8>) -> Option<PeerMessageView> {
    if !well_framed(frame) {
        None
    } else if frame.len() == 4 {
        Some(PeerMessageView::KeepAlive)
    } else {
        message_of(frame[4], frame.len() - 4, frame.subrange(5, frame.len() as int))
    }
}

/// Why a byte string is the frame of no message.
pub open spec fn frame_fault(frame: Seq<u8>) -> Seq<char>
    recommends
        decoded(frame) is None,
{
    if !well_framed(frame) {
        "Frame length disagrees with its prefix"@
    } else if frame[4] > CANCEL {
        "Unknown message id"@
    } else {
        "Wrong frame length for message id"@
    }
}

/// What decoding a byte string gives: the message that it is the frame of,
/// or the reason why there is none. A bit field with more bits than a `usize`
/// can count is refused as well.
pub open spec fn decode_outcome(frame: Seq<u8>) -> Result<PeerMessageView, Seq<char>> {
    match decoded(frame) {
        None => Err(frame_fault(frame)),
        Some(m) => if m is Bitfield && 8 * (frame.len() - 5) > usize::MAX {
            Err("Bitfield too large"@)
        } else {
            Ok(m)
        },
    }
}

/// The number of bytes that follow a length prefix.
pub fn frame_length(prefix: &[u8; 4]) -> (length: u32)
    ensures
        length == be_u32(prefix@),
{
    let length = read_be_u32(prefix.as_slice(), 0);
    assert(prefix@.subrange(0, 4) =~= prefix@);
    length
}

/// Starts a frame: the length prefix and the message id.
fn open_frame(id: u8, payload_len: usize) -> (out: Vec<u8>)
    requires
        1 + payload_len <= u32::MAX,
    ensures
        out@ == u32_be((1 + payload_len) as u32) + seq![id],
{
    let mut out: Vec<u8> = Vec::new();
    push_be_u32(&mut out, 1 + (payload_len as u32));
    out.push(id);
    assert(out@ =~= u32_be((1 + payload_len) as u32) + seq![id]);
    out
}

/// A failure to decode or to encode.
fn malformed(context: &str) -> (e: Error)
    ensures
        e.kind == ErrorKind::MalformedMessage,
        e.context@ == context@,
{
    Error::new(ErrorKind::MalformedMessage, context)
}

impl PeerMessage {
    /// Writes the frame of the message.
    ///
    /// Fails, with `MalformedMessage`, only on a block or a bit field too
    /// long for a length prefix.
    pub fn encode(&self) -> (result: Result<Vec<u8>, Error>)
        ensures
            match result {
                Ok(frame) => encodable(self@) && frame@ == encoded(self@),
                Err(e) => !encodable(self@) && e.kind == ErrorKind::MalformedMessage && e.context@
                    == "Payload too long"@,
            },
    {
        match self {
            PeerMessage::KeepAlive => {
                let mut out: Vec<u8> = Vec::new();
                push_be_u32(&mut out, 0);
                Ok(out)
            },
            PeerMessage::Choke => Ok(open_frame(CHOKE, 0)),
            PeerMessage::Unchoke => Ok(open_frame(UNCHOKE, 0)),
            PeerMessage::Interested => Ok(open_frame(INTERESTED, 0)),
            PeerMessage::NotInterested => Ok(open_frame(NOT_INTERESTED, 0)),
            PeerMessage::Have(index) => {
                let mut out = open_frame(HAVE, 4);
                push_be_u32(&mut out, *index);
                Ok(out)
            },
            PeerMessage::Bitfield(bits) => {
                let payload = bits_to_bytes(bits);
                if payload.len() >= 0xFFFF_FFFF {
                    return Err(malformed("Payload too long"));
                }
                let mut out = open_frame(BITFIELD, payload.len());
                push_bytes(&mut out, payload.as_slice());
                Ok(out)
            },
            PeerMessage::Request { index, begin, length } => {
                let mut out = open_frame(REQUEST, 12);
                push_be_u32(&mut out, *index);
                push_be_u32(&mut out, *begin);
                push_be_u32(&mut out, *length);
                assert(out@ =~= encoded(self@));
                Ok(out)
            },
            PeerMessage::Cancel { index, begin, length } => {
                let mut out = open_frame(CANCEL, 12);
                push_be_u32(&mut out, *index);
                push_be_u32(&mut out, *begin);
                push_be_u32(&mut out, *length);
                assert(out@ =~= encoded(self@));
                Ok(out)
            },
            PeerMessage::Piece { index, begin, piece } => {
                if piece.len() >= 0xFFFF_FFFF - 8 {
                    return Err(malformed("Payload too long"));
                }
                let mut out = open_frame(PIECE, 8 + piece.len());
                push_be_u32(&mut out, *index);
                push_be_u32(&mut out, *begin);
                push_bytes(&mut out, piece.as_slice());
                assert(out@ =~= encoded(self@));
                Ok(out)
            },
        }
    }

    /// Reads one whole frame.
    ///
    /// Fails, with `MalformedMessage`, on a byte string that is not one whole
    /// frame, on an unknown message id, and on a length that the id does not
    /// allow; and on a bit field with more bits than a `usize` can count.
    /// Every other frame is decoded.
    pub fn decode(frame: &[u8]) -> (result: Result<PeerMessage, Error>)
        ensures
            match result {
                Ok(m) => decode_outcome(frame@) == Ok::<PeerMessageView, Seq<char>>(m@),
                Err(e) => e.kind == ErrorKind::MalformedMessage && decode_outcome(frame@) == Err::<
                    PeerMessageView,
                    Seq<char>,
                >(e.context@),
            },
    {
        if frame.len() < LENGTH_PREFIX_LEN {
            return Err(malformed("Frame length disagrees with its prefix"));
        }
        let length = read_be_u32(frame, 0);
        if frame.len() - LENGTH_PREFIX_LEN != length as usize {
            return Err(malformed("Frame length disagrees with its prefix"));
        }
        if length == 0 {
            return Ok(PeerMessage::KeepAlive);
        }
        let id = frame[4];
        let payload = slice_subrange(frame, 5, frame.len());
        if id > CANCEL {
            return Err(malformed("Unknown message id"));
        }
        if id == BITFIELD {
            if payload.len() > usize::MAX / 8 {
                return Err(malformed("Bitfield too large"));
            }
            return Ok(PeerMessage::Bitfield(bits_from_bytes(payload)));
        }
        if id == CHOKE && length == 1 {
            Ok(PeerMessage::Choke)
        } else if id == UNCHOKE && length == 1 {
            Ok(PeerMessage::Unchoke)
        } else if id == INTERESTED && length == 1 {
            Ok(PeerMessage::Interested)
        } else if id == NOT_INTERESTED && length == 1 {
            Ok(PeerMessage::NotInterested)
        } else if id == HAVE && length == 5 {
            assert(payload@.subrange(0, 4) =~= payload@);
            Ok(PeerMessage::Have(read_be_u32(payload, 0)))
        } else if (id == REQUEST || id == CANCEL) && length == 13 {
            let index = read_be_u32(payload, 0);
            let begin = read_be_u32(payload, 4);
            let length = read_be_u32(payload, 8);
            if id == REQUEST {
                Ok(PeerMessage::Request { index, begin, length })
            } else {
                Ok(PeerMessage::Cancel { index, begin, length })
            }
        } else if id == PIECE && length >= 9 {
            let index = read_be_u32(payload, 0);
            let begin = read_be_u32(payload, 4);
            let piece = slice_to_vec(slice_subrange(payload, 8, payload.len()));
            Ok(PeerMessage::Piece { index, begin, piece })
        } else {
            Err(malformed("Wrong frame length for message id"))
        }
    }
}

/// A message as it comes back from its own frame: itself, but for a bit
/// field, which comes back filled up with zero bits to a whole number of bytes.
pub open spec fn as_received(m: PeerMessageView) -> PeerMessageView {
    match m {
        PeerMessageView::Bitfield(bits) => PeerMessageView::Bitfield(padded_bits(bits)),
        _ => m,
    }
}

/// Decoding the frame of a message gives the message back: exactly, for every
/// message but a bit field whose number of bits is no multiple of eight, and
/// for such a bit field with the zero bits that filled its last byte.
pub proof fn lemma_decode_encode(m: PeerMessageView)
    requires
        encodable(m),
    ensures
        decoded(encoded(m)) == Some(as_received(m)),
        (m matches PeerMessageView::Bitfield(bits) ==> bits.len() % 8 == 0) ==> decoded(encoded(m))
            == Some(m),
{
    let frame = encoded(m);
    let body = payload(m);
    if m is KeepAlive {
        lemma_be_u32_decode_encode(0);
        assert(frame.subrange(0, 4) =~= u32_be(0));
    } else {
        let length = (1 + body.len()) as u32;
        lemma_be_u32_decode_encode(length);
        assert(frame.subrange(0, 4) =~= u32_be(length));
        assert(frame[4] == message_id(m));
        assert(frame.subrange(5, frame.len() as int) =~= body);
        match m {
            PeerMessageView::Have(index) => {
                lemma_be_u32_decode_encode(index);
            },
            PeerMessageView::Bitfield(bits) => {
                lemma_unpack_pack(bits);
            },
            PeerMessageView::Request { index, begin, length } => {
                lemma_triple(index, begin, length);
            },
            PeerMessageView::Cancel { index, begin, length } => {
                lemma_triple(index, begin, length);
            },
            PeerMessageView::Piece { index, begin, piece } => {
                lemma_be_u32_decode_encode(index);
                lemma_be_u32_decode_encode(begin);
                assert(body.subrange(0, 4) =~= u32_be(index));
                assert(body.subrange(4, 8) =~= u32_be(begin));
                assert(body.subrange(8, body.len() as int) =~= piece);
            },
            _ => {},
        }
    }
}

/// Three integers come back from their twelve bytes.
proof fn lemma_triple(a: u32, b: u32, c: u32)
    ensures
        (u32_be(a) + u32_be(b) + u32_be(c)).len() == 12,
        be_u32((u32_be(a) + u32_be(b) + u32_be(c)).subrange(0, 4)) == a,
        be_u32((u32_be(a) + u32_be(b) + u32_be(c)).subrange(4, 8)) == b,
        be_u32((u32_be(a) + u32_be(b) + u32_be(c)).subrange(8, 12)) == c,
{
    let s = u32_be(a) + u32_be(b) + u32_be(c);
    lemma_be_u32_decode_encode(a);
    lemma_be_u32_decode_encode(b);
    lemma_be_u32_decode_encode(c);
    assert(s.subrange(0, 4) =~= u32_be(a));
    assert(s.subrange(4, 8) =~= u32_be(b));
    assert(s.subrange(8, 12) =~= u32_be(c));
}

/// A frame with the id of `have` and another length than five, and a frame
/// with an id that no message has, are the frame of no message.
pub proof fn lemma_bad_frames_are_rejected(frame: Seq<u8>)
    requires
        frame.len() >= 5,
        (frame[4] == HAVE && be_u32(frame.subrange(0, 4)) != 5) || frame[4] > CANCEL,
    ensures
        decoded(frame) is None,
{
}

} // verus!
