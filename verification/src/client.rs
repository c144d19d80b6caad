//! The client: what it announces, how it shakes hands, and the piece
//! acquisition engine, which takes the pieces of a resource one by one in
//! ascending order, asks for each in blocks, and lets no piece through whose
//! bytes do not hash to the digest that the descriptor records.

use vstd::prelude::*;

use crate::error::{Error, ErrorKind, ErrorView};
use crate::model::torrent::{content_length, Torrent};
use crate::model::Sha1Hash;
use crate::peer::handshake::{handshake_bytes, handshake_outcome, make_handshake, read_handshake};
use crate::peer::peer::{can_request, Block, BlockRequest, BlockView, Peer, PeerId, PeerState};
use crate::tracker::{TrackerAnnounceRequest, TrackerEvent};
use crate::util::bytes::{bytes_eq, push_bytes};
use crate::util::common::{sha1_digest, sha1_hash};

verus! {

/// The port on which a client listens unless told otherwise.
pub const LISTENER_PORT: u16 = 6881;

/// Bytes per block: the unit in which pieces are asked for.
pub const PIECE_BLOCK_SIZE: u32 = 16384;

/// The bytes of the piece numbered `index`: the piece length, but for the
/// last piece, which is as long as what is left. A piece beyond the content
/// has no bytes.
pub open spec fn piece_size(piece_length: nat, total_length: nat, index: nat) -> nat {
    if index * piece_length >= total_length {
        0
    } else if total_length - index * piece_length < piece_length {
        (total_length - index * piece_length) as nat
    } else {
        piece_length
    }
}

/// The bytes of the block that starts at `begin` in a piece of `size` bytes:
/// a whole block, but for the last, which is as long as what is left.
pub open spec fn block_size(size: nat, begin: nat) -> nat {
    if begin >= size {
        0
    } else if size - begin < PIECE_BLOCK_SIZE {
        (size - begin) as nat
    } else {
        PIECE_BLOCK_SIZE as nat
    }
}

/// Computes the bytes of a piece.
pub fn truncated_piece_length(piece_length: u64, total_length: u64, index: u32) -> (size: u64)
    ensures
        size == piece_size(piece_length as nat, total_length as nat, index as nat),
{
    match (index as u64).checked_mul(piece_length) {
        None => 0,
        Some(start) => {
            if start >= total_length {
                0
            } else if total_length - start < piece_length {
                total_length - start
            } else {
                piece_length
            }
        },
    }
}

/// Computes the bytes of a block.
pub fn truncated_block_length(size: u32, begin: u32) -> (length: u32)
    ensures
        length == block_size(size as nat, begin as nat),
{
    if begin >= size {
        0
    } else if size - begin < PIECE_BLOCK_SIZE {
        size - begin
    } else {
        PIECE_BLOCK_SIZE
    }
}

/// A piece that is being acquired.
#[derive(Debug)]
pub struct PieceWorkItem {
    index: u32,
    /// The digest that the descriptor records for the piece.
    expected_hash: Sha1Hash,
    /// The bytes of the piece.
    length: u32,
    /// The blocks received so far, in ascending order of offset.
    buffer: Vec<u8>,
    /// Whether the piece was verified and handed out.
    complete: bool,
}

/// A piece that is being acquired, as a mathematical value.
pub struct PieceView {
    pub index: u32,
    pub expected_hash: Seq<u8>,
    pub length: u32,
    pub buffer: Seq<u8>,
    pub complete: bool,
}

impl View for PieceWorkItem {
    type V = PieceView;

    closed spec fn view(&self) -> PieceView {
        PieceView {
            index: self.index,
            expected_hash: self.expected_hash@,
            length: self.length,
            buffer: self.buffer@,
            complete: self.complete,
        }
    }
}

/// How an attempt to verify a piece ended.
#[derive(Debug, PartialEq, Eq)]
pub enum PieceOutcome {
    /// The piece is not whole yet, or was handed out before.
    Incomplete,
    /// The bytes hash to the recorded digest: here they are.
    Verified(Vec<u8>),
    /// The bytes hash to something else. They were thrown away.
    Rejected(Error),
}

/// An outcome as a mathematical value.
pub enum PieceOutcomeView {
    Incomplete,
    Verified(Seq<u8>),
    Rejected(ErrorView),
}

impl View for PieceOutcome {
    type V = PieceOutcomeView;

    open spec fn view(&self) -> PieceOutcomeView {
        match self {
            PieceOutcome::Incomplete => PieceOutcomeView::Incomplete,
            PieceOutcome::Verified(bytes) => PieceOutcomeView::Verified(bytes@),
            PieceOutcome::Rejected(e) => PieceOutcomeView::Rejected(e@),
        }
    }
}

/// A piece of which nothing was received yet.
pub open spec fn fresh_piece(index: u32, expected_hash: Seq<u8>, length: u32) -> PieceView {
    PieceView { index, expected_hash, length, buffer: Seq::empty(), complete: false }
}

/// The request for the next block of a piece: the block that starts where
/// the received bytes end. A whole piece asks for nothing.
pub open spec fn next_block(p: PieceView) -> Option<BlockRequest> {
    if p.complete || p.buffer.len() >= p.length {
        None
    } else {
        Some(
            BlockRequest {
                index: p.index,
                begin: p.buffer.len() as u32,
                length: block_size(p.length as nat, p.buffer.len()) as u32,
            },
        )
    }
}

/// Whether a block is the next block of a piece: of that piece, from the
/// offset where the received bytes end, and as long as was asked for.
pub open spec fn is_next_block(p: PieceView, b: BlockView) -> bool {
    next_block(p) matches Some(request) && b.index == request.index && b.begin == request.begin
        && b.piece.len() == request.length
}

/// A piece after a block has arrived: the next block is appended, any other
/// block changes nothing.
pub open spec fn after_block(p: PieceView, b: BlockView) -> PieceView {
    if is_next_block(p, b) {
        PieceView { buffer: p.buffer + b.piece, ..p }
    } else {
        p
    }
}

/// Whether all bytes of a piece were received and none were handed out.
pub open spec fn is_whole(p: PieceView) -> bool {
    !p.complete && p.buffer.len() == p.length
}

/// The error of a piece that hashes to another digest than recorded.
pub open spec fn integrity_failure() -> ErrorView {
    ErrorView { kind: ErrorKind::IntegrityFailure, context: "Piece hash mismatch"@ }
}

/// A piece, and what is handed out, once the digest of its bytes is known.
/// Where the digest is the recorded one, the piece is complete and its bytes
/// are handed out. Where it is not, the bytes are thrown away and the piece
/// starts again from nothing. A piece that is not whole stays as it is.
pub open spec fn settled(p: PieceView, digest: Seq<u8>) -> (PieceView, PieceOutcomeView) {
    if !is_whole(p) {
        (p, PieceOutcomeView::Incomplete)
    } else if digest == p.expected_hash {
        (
            PieceView { buffer: Seq::empty(), complete: true, ..p },
            PieceOutcomeView::Verified(p.buffer),
        )
    } else {
        (PieceView { buffer: Seq::empty(), ..p }, PieceOutcomeView::Rejected(integrity_failure()))
    }
}

impl PieceWorkItem {
    /// A piece of which nothing was received yet.
    pub fn new(index: u32, expected_hash: Sha1Hash, length: u32) -> (item: PieceWorkItem)
        ensures
            item@ == fresh_piece(index, expected_hash@, length),
    {
        PieceWorkItem { index, expected_hash, length, buffer: Vec::new(), complete: false }
    }

    /// The index of the piece.
    pub fn index(&self) -> (index: u32)
        ensures
            index == self@.index,
    {
        self.index
    }

    /// The bytes of the piece.
    pub fn length(&self) -> (length: u32)
        ensures
            length == self@.length,
    {
        self.length
    }

    /// The bytes received so far.
    pub fn received(&self) -> (bytes: &[u8])
        ensures
            bytes@ == self@.buffer,
    {
        self.buffer.as_slice()
    }

    /// Whether the piece was verified and handed out.
    pub fn is_complete(&self) -> (complete: bool)
        ensures
            complete == self@.complete,
    {
        self.complete
    }

    /// Whether all bytes were received and none were handed out.
    pub fn is_whole(&self) -> (whole: bool)
        ensures
            whole == is_whole(self@),
    {
        !self.complete && self.buffer.len() == self.length as usize
    }

    /// The request for the next block.
    pub fn next_request(&self) -> (request: Option<BlockRequest>)
        ensures
            request == next_block(self@),
    {
        if self.complete || self.buffer.len() >= self.length as usize {
            None
        } else {
            let begin = self.buffer.len() as u32;
            Some(
                BlockRequest {
                    index: self.index,
                    begin,
                    length: truncated_block_length(self.length, begin),
                },
            )
        }
    }

    /// Takes a block in if it is the next one, and says whether it was.
    pub fn accept(&mut self, block: &Block) -> (accepted: bool)
        ensures
            accepted == is_next_block(old(self)@, block@),
            final(self)@ == after_block(old(self)@, block@),
    {
        match self.next_request() {
            None => false,
            Some(request) => {
                if block.index == request.index && block.begin == request.begin
                    && block.piece.len() == request.length as usize {
                    push_bytes(&mut self.buffer, block.piece.as_slice());
                    true
                } else {
                    false
                }
            },
        }
    }

    /// Settles the piece, given the digest of its bytes.
    pub fn settle(&mut self, digest: &Sha1Hash) -> (outcome: PieceOutcome)
        ensures
            (final(self)@, outcome@) == settled(old(self)@, digest@),
    {
        if !self.is_whole() {
            return PieceOutcome::Incomplete;
        }
        let mut bytes: Vec<u8> = Vec::new();
        core::mem::swap(&mut self.buffer, &mut bytes);
        if bytes_eq(digest.as_slice(), self.expected_hash.as_slice()) {
            self.complete = true;
            PieceOutcome::Verified(bytes)
        } else {
            PieceOutcome::Rejected(Error::new(ErrorKind::IntegrityFailure, "Piece hash mismatch"))
        }
    }

    /// Hashes the bytes of the piece and settles it.
    pub fn verify(&mut self) -> (outcome: PieceOutcome)
        ensures
            (final(self)@, outcome@) == settled(old(self)@, sha1_digest(old(self)@.buffer)),
    {
        let digest = sha1_hash(self.buffer.as_slice());
        self.settle(&digest)
    }
}

/// A piece whose bytes hash to another digest than the recorded one is not
/// handed out: its bytes are thrown away, and the next request asks for it
/// again from offset zero.
pub proof fn lemma_mismatch_restarts_piece(p: PieceView, digest: Seq<u8>)
    requires
        is_whole(p),
        digest != p.expected_hash,
    ensures
        settled(p, digest).1 == PieceOutcomeView::Rejected(integrity_failure()),
        settled(p, digest).0 == fresh_piece(p.index, p.expected_hash, p.length),
        p.length > 0 ==> next_block(settled(p, digest).0) == Some(
            BlockRequest {
                index: p.index,
                begin: 0,
                length: block_size(p.length as nat, 0) as u32,
            },
        ),
{
}

/// Bytes are handed out only as a whole piece, and only where their digest
/// is the recorded one.
pub proof fn lemma_only_verified_bytes_leave(p: PieceView, digest: Seq<u8>)
    ensures
        settled(p, digest).1 matches PieceOutcomeView::Verified(bytes) ==> is_whole(p) && bytes
            == p.buffer && bytes.len() == p.length && digest == p.expected_hash,
{
}

/// Picks the first session that can be asked for a block of a piece: one
/// whose peer serves requests and is known to hold the piece.
pub fn select_peer(peers: &[Peer], index: u32) -> (choice: Option<usize>)
    ensures
        match choice {
            Some(i) => i < peers@.len() && can_request(peers@[i as int]@, index) && forall|k: int|
                0 <= k < i ==> !can_request((#[trigger] peers@[k])@, index),
            None => forall|k: int|
                0 <= k < peers@.len() ==> !can_request((#[trigger] peers@[k])@, index),
        },
{
    let mut i: usize = 0;
    while i < peers.len()
        invariant
            i <= peers@.len(),
            forall|k: int| 0 <= k < i ==> !can_request((#[trigger] peers@[k])@, index),
        decreases peers@.len() - i,
    {
        let peer = &peers[i];
        let serves = match peer.state() {
            PeerState::Requesting => true,
            _ => false,
        };
        if serves && peer.has_piece(index) {
            return Some(i);
        }
        i += 1;
    }
    None
}

/// Whether the engine can acquire a resource: its bytes can be counted, its
/// pieces are not empty and no longer than a block offset can say, and it
/// records one digest for each piece, neither more nor fewer.
pub open spec fn can_acquire(torrent: Torrent) -> bool {
    let total = content_length(torrent.variant);
    let count = torrent.pieces@.len();
    &&& total <= u64::MAX
    &&& 0 < torrent.piece_length <= u32::MAX
    &&& count <= u32::MAX
    &&& count * torrent.piece_length >= total
    &&& count > 0 ==> (count - 1) * torrent.piece_length < total
}

/// What happened to a block that was handed to the engine.
#[derive(Debug, PartialEq, Eq)]
pub enum Progress {
    /// The block was not the next one. It was thrown away.
    Discarded,
    /// The block was taken in; the piece is not whole yet.
    Accepted,
    /// The block made its piece whole and the piece was verified: here are
    /// its bytes, for storage.
    Stored { index: u32, piece: Vec<u8> },
    /// The block made its piece whole and the piece did not hash to the
    /// recorded digest. Its bytes were thrown away; it is acquired again.
    Retry { index: u32, error: Error },
}

/// Progress as a mathematical value.
pub enum ProgressView {
    Discarded,
    Accepted,
    Stored { index: u32, piece: Seq<u8> },
    Retry { index: u32, error: ErrorView },
}

impl View for Progress {
    type V = ProgressView;

    open spec fn view(&self) -> ProgressView {
        match self {
            Progress::Discarded => ProgressView::Discarded,
            Progress::Accepted => ProgressView::Accepted,
            Progress::Stored { index, piece } => ProgressView::Stored {
                index: *index,
                piece: piece@,
            },
            Progress::Retry { index, error } => ProgressView::Retry {
                index: *index,
                error: error@,
            },
        }
    }
}

/// The acquisition of a resource, piece by piece in ascending order.
#[derive(Debug)]
pub struct Download<'a> {
    torrent: &'a Torrent,
    /// The bytes of the resource.
    total_length: u64,
    /// The piece that is being acquired; every piece before it was verified
    /// and handed out.
    current: u32,
    /// The piece that is being acquired, until all are.
    item: Option<PieceWorkItem>,
}

/// An acquisition as a mathematical value.
pub struct DownloadView {
    pub torrent: Torrent,
    pub current: u32,
    pub item: Option<PieceView>,
}

impl<'a> View for Download<'a> {
    type V = DownloadView;

    closed spec fn view(&self) -> DownloadView {
        DownloadView {
            torrent: *self.torrent,
            current: self.current,
            item: match self.item {
                Some(item) => Some(item@),
                None => None,
            },
        }
    }
}

/// The piece numbered `index` of a resource, with nothing received yet; no
/// piece beyond the last.
pub open spec fn piece_of(torrent: Torrent, index: u32) -> Option<PieceView> {
    if index < torrent.pieces@.len() {
        Some(
            fresh_piece(
                index,
                torrent.pieces@[index as int]@,
                piece_size(
                    torrent.piece_length as nat,
                    content_length(torrent.variant),
                    index as nat,
                ) as u32,
            ),
        )
    } else {
        None
    }
}

/// Whether an acquisition is in order: the resource can be acquired, and the
/// piece that is being acquired is the one that the plan gives for the
/// current index, with no more bytes than it has; once every index is done,
/// no piece is being acquired.
pub open spec fn acquiring(d: DownloadView) -> bool {
    &&& can_acquire(d.torrent)
    &&& match d.item {
        Some(p) => {
            &&& piece_of(d.torrent, d.current) matches Some(planned)
            &&& p.index == planned.index
            &&& p.expected_hash == planned.expected_hash
            &&& p.length == planned.length
            &&& !p.complete
            &&& p.buffer.len() <= p.length
        },
        None => d.current == d.torrent.pieces@.len(),
    }
}

/// An acquisition that has not started: the first piece is the current one.
pub open spec fn initial_download(torrent: Torrent) -> DownloadView {
    DownloadView { torrent, current: 0, item: piece_of(torrent, 0) }
}

/// The acquisition, and what became of the block, after a block was handed
/// to it.
///
/// A block that is not the next block of the current piece is thrown away.
/// The next block is appended. Where it makes the piece whole, the piece is
/// hashed: on the recorded digest its bytes are handed out and the piece
/// after it becomes the current one; on any other digest the bytes are thrown
/// away and the piece starts again.
pub open spec fn download_after_block(d: DownloadView, b: BlockView) -> (DownloadView, ProgressView) {
    match d.item {
        None => (d, ProgressView::Discarded),
        Some(p) => {
            if !is_next_block(p, b) {
                (d, ProgressView::Discarded)
            } else {
                let q = after_block(p, b);
                match settled(q, sha1_digest(q.buffer)) {
                    (_, PieceOutcomeView::Verified(bytes)) => (
                        DownloadView {
                            current: (d.current + 1) as u32,
                            item: piece_of(d.torrent, (d.current + 1) as u32),
                            ..d
                        },
                        ProgressView::Stored { index: p.index, piece: bytes },
                    ),
                    (r, PieceOutcomeView::Rejected(error)) => (
                        DownloadView { item: Some(r), ..d },
                        ProgressView::Retry { index: p.index, error },
                    ),
                    (r, PieceOutcomeView::Incomplete) => (
                        DownloadView { item: Some(r), ..d },
                        ProgressView::Accepted,
                    ),
                }
            }
        },
    }
}

impl<'a> Download<'a> {
    #[verifier::type_invariant]
    spec fn inv(self) -> bool {
        self.total_length == content_length(self.torrent.variant) && acquiring(self@)
    }

    /// Starts the acquisition of a resource.
    ///
    /// Fails with `InvalidInput` on a descriptor that the engine cannot
    /// acquire.
    pub fn new(torrent: &'a Torrent) -> (result: Result<Download<'a>, Error>)
        ensures
            match result {
                Ok(download) => can_acquire(*torrent) && download@ == initial_download(*torrent)
                    && acquiring(download@),
                Err(e) => !can_acquire(*torrent) && e.kind == ErrorKind::InvalidInput && e.context@
                    == "Descriptor cannot be acquired"@,
            },
    {
        let total_length = match torrent.total_length() {
            Some(total) => total,
            None => {
                return Err(Error::new(ErrorKind::InvalidInput, "Descriptor cannot be acquired"));
            },
        };
        let count = torrent.pieces.len();
        if torrent.piece_length == 0 || torrent.piece_length > 0xFFFF_FFFF || count > 0xFFFF_FFFF {
            return Err(Error::new(ErrorKind::InvalidInput, "Descriptor cannot be acquired"));
        }
        let piece_length = torrent.piece_length;
        assert(count * piece_length <= 0xFFFF_FFFF * 0xFFFF_FFFF) by (nonlinear_arith)
            requires
                0 <= count <= 0xFFFF_FFFF,
                0 <= piece_length <= 0xFFFF_FFFF,
        ;
        let covered: u64 = (count as u64) * piece_length;
        if covered < total_length {
            return Err(Error::new(ErrorKind::InvalidInput, "Descriptor cannot be acquired"));
        }
        if count > 0 {
            assert((count - 1) * piece_length == covered - piece_length) by (nonlinear_arith)
                requires
                    covered == count * piece_length,
            ;
            if covered - piece_length >= total_length {
                return Err(Error::new(ErrorKind::InvalidInput, "Descriptor cannot be acquired"));
            }
        }
        let item = if count > 0 {
            Some(Self::piece(torrent, total_length, 0))
        } else {
            None
        };
        Ok(Download { torrent, total_length, current: 0, item })
    }

    /// The work item of a piece, with nothing received yet.
    fn piece(torrent: &Torrent, total_length: u64, index: u32) -> (item: PieceWorkItem)
        requires
            can_acquire(*torrent),
            total_length == content_length(torrent.variant),
            index < torrent.pieces@.len(),
        ensures
            Some(item@) == piece_of(*torrent, index),
    {
        let size = truncated_piece_length(torrent.piece_length, total_length, index);
        PieceWorkItem::new(index, torrent.pieces[index as usize], size as u32)
    }

    /// The descriptor of the resource.
    pub fn torrent(&self) -> (torrent: &'a Torrent)
        ensures
            *torrent == self@.torrent,
    {
        self.torrent
    }

    /// The index of the piece that is being acquired: every piece before it
    /// was verified and handed out.
    pub fn current(&self) -> (index: u32)
        ensures
            index == self@.current,
    {
        self.current
    }

    /// Whether every piece was verified and handed out.
    pub fn is_finished(&self) -> (finished: bool)
        ensures
            finished == (self@.item is None),
    {
        self.item.is_none()
    }

    /// Whether the piece with this index was verified and handed out.
    pub fn is_verified(&self, index: u32) -> (verified: bool)
        ensures
            verified == (index < self@.current),
    {
        index < self.current
    }

    /// The request for the block that the engine needs next.
    pub fn next_request(&self) -> (request: Option<BlockRequest>)
        ensures
            request == (match self@.item {
                Some(p) => next_block(p),
                None => None,
            }),
    {
        match &self.item {
            Some(item) => item.next_request(),
            None => None,
        }
    }

    /// Hands a block to the engine, which hands back what it has become and
    /// what became of the block.
    pub fn on_block(self, block: &Block) -> (next: (Download<'a>, Progress))
        ensures
            acquiring(self@),
            acquiring(next.0@),
            (next.0@, next.1@) == download_after_block(self@, block@),
    {
        proof {
            use_type_invariant(&self);
            lemma_download_stays_consistent(self@, block@);
        }
        let Download { torrent, total_length, current, item } = self;
        let mut item = match item {
            None => {
                return (Download { torrent, total_length, current, item: None }, Progress::Discarded);
            },
            Some(item) => item,
        };
        let index = item.index();
        if !item.accept(block) {
            return (
                Download { torrent, total_length, current, item: Some(item) },
                Progress::Discarded,
            );
        }
        match item.verify() {
            PieceOutcome::Incomplete => (
                Download { torrent, total_length, current, item: Some(item) },
                Progress::Accepted,
            ),
            PieceOutcome::Rejected(error) => (
                Download { torrent, total_length, current, item: Some(item) },
                Progress::Retry { index, error },
            ),
            PieceOutcome::Verified(piece) => {
                let following = current + 1;
                let item = if (following as usize) < torrent.pieces.len() {
                    Some(Self::piece(torrent, total_length, following))
                } else {
                    None
                };
                (
                    Download { torrent, total_length, current: following, item },
                    Progress::Stored { index, piece },
                )
            },
        }
    }
}

/// The bytes of a piece of a resource that can be acquired fit a block
/// offset, and no piece is empty.
pub proof fn lemma_piece_size_fits(torrent: Torrent, index: u32)
    requires
        can_acquire(torrent),
        index < torrent.pieces@.len(),
    ensures
        0 < piece_size(
            torrent.piece_length as nat,
            content_length(torrent.variant),
            index as nat,
        ) <= torrent.piece_length,
{
    let count = torrent.pieces@.len() as int;
    let length = torrent.piece_length as int;
    assert(index * length <= (count - 1) * length) by (nonlinear_arith)
        requires
            0 <= index <= count - 1,
            0 <= length,
    ;
}

/// An acquisition in order stays in order, whatever block it is handed.
pub proof fn lemma_download_stays_consistent(d: DownloadView, b: BlockView)
    requires
        acquiring(d),
    ensures
        acquiring(download_after_block(d, b).0),
{
    if d.item is Some && is_next_block(d.item.unwrap(), b) {
        if d.current + 1 < d.torrent.pieces@.len() {
            lemma_piece_size_fits(d.torrent, (d.current + 1) as u32);
        }
    }
}

/// Only verified pieces reach storage, and they reach it in order: the bytes
/// that are handed out are those of the current piece, as many as the piece
/// has, they hash to the digest that the descriptor records for it, and the
/// piece after it becomes the current one.
pub proof fn lemma_stored_piece_is_verified(d: DownloadView, b: BlockView)
    requires
        acquiring(d),
    ensures
        download_after_block(d, b).1 matches ProgressView::Stored { index, piece } ==> {
            &&& index == d.current
            &&& index < d.torrent.pieces@.len()
            &&& sha1_digest(piece) == d.torrent.pieces@[index as int]@
            &&& piece.len() == piece_size(
                d.torrent.piece_length as nat,
                content_length(d.torrent.variant),
                index as nat,
            )
            &&& download_after_block(d, b).0.current == index + 1
        },
{
    if d.item is Some {
        lemma_piece_size_fits(d.torrent, d.current);
    }
}

/// A piece whose bytes hash to another digest than the recorded one does not
/// reach storage: the engine stays at the piece, throws its bytes away, and
/// asks for it again from offset zero.
pub proof fn lemma_rejected_piece_restarts(d: DownloadView, b: BlockView)
    requires
        acquiring(d),
    ensures
        download_after_block(d, b).1 matches ProgressView::Retry { index, error } ==> {
            let next = download_after_block(d, b).0;
            &&& index == d.current
            &&& error.kind == ErrorKind::IntegrityFailure
            &&& next.current == d.current
            &&& next.item == piece_of(d.torrent, d.current)
            &&& next.item matches Some(p) && next_block(p) matches Some(request) && request.index
                == index && request.begin == 0
        },
{
    if d.item is Some {
        lemma_piece_size_fits(d.torrent, d.current);
    }
}

/// A client for one resource.
#[derive(Debug)]
pub struct TorrentClient {
    pub torrent: Torrent,
    pub peer_id: PeerId,
}

/// What a client says when it first announces: nothing was transferred yet,
/// and all of the resource is left. Where the bytes of the resource are more
/// than a `u64` can count, as many as it can count are left.
pub open spec fn first_announce(
    torrent: Torrent,
    peer_id: PeerId,
    listener_port: u16,
    event: TrackerEvent,
) -> TrackerAnnounceRequest {
    TrackerAnnounceRequest {
        url: torrent.announce,
        peer_id,
        info_hash: torrent.info_hash,
        downloaded: 0,
        left: if content_length(torrent.variant) <= u64::MAX {
            content_length(torrent.variant) as u64
        } else {
            u64::MAX
        },
        uploaded: 0,
        event,
        port: listener_port,
    }
}

impl TorrentClient {
    /// A client with the given peer id for a resource.
    pub fn new(torrent: Torrent, peer_id: PeerId) -> (client: TorrentClient)
        ensures
            client.torrent == torrent,
            client.peer_id == peer_id,
    {
        TorrentClient { torrent, peer_id }
    }

    /// The request with which the client asks the resource's tracker for
    /// peers.
    pub fn announce_request(&self, listener_port: u16, event: TrackerEvent) -> (request:
        TrackerAnnounceRequest)
        ensures
            request == first_announce(self.torrent, self.peer_id, listener_port, event),
    {
        let left = match self.torrent.total_length() {
            Some(total) => total,
            None => u64::MAX,
        };
        TrackerAnnounceRequest {
            url: self.torrent.announce.clone(),
            peer_id: self.peer_id,
            info_hash: self.torrent.info_hash,
            downloaded: 0,
            left,
            uploaded: 0,
            event,
            port: listener_port,
        }
    }

    /// The handshake that the client sends to a peer.
    pub fn handshake(&self) -> (buf: [u8; 68])
        ensures
            buf@ == handshake_bytes(self.torrent.info_hash@, self.peer_id@),
    {
        make_handshake(&self.torrent.info_hash, &self.peer_id)
    }

    /// Reads the handshake that a peer sent back: the peer's id, or the
    /// reason to close the connection.
    pub fn read_handshake(&self, reply: &[u8]) -> (result: Result<PeerId, Error>)
        ensures
            match result {
                Ok(id) => handshake_outcome(reply@, self.torrent.info_hash@) == Ok::<
                    Seq<u8>,
                    ErrorView,
                >(id@),
                Err(e) => handshake_outcome(reply@, self.torrent.info_hash@) == Err::<
                    Seq<u8>,
                    ErrorView,
                >(e@),
            },
    {
        read_handshake(reply, &self.torrent.info_hash)
    }
}

} // verus!
