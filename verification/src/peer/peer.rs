//! One peer of the swarm and the state of the connection to it.
//!
//! A session is driven by exactly one owner: whoever holds the `Peer` feeds
//! it what the transport delivered and sends what it hands back.

use bit_vec::BitVec;
use vstd::prelude::*;

use crate::error::{Error, ErrorKind, ErrorView};
use crate::model::bitfield::{bits_get, bits_new, bitvec_bits};
use crate::model::message::{
    decode_outcome, encodable, encoded, payload, PeerMessage, PeerMessageView,
};
use crate::model::Sha1Hash;
use crate::peer::handshake::{handshake_bytes, handshake_outcome, make_handshake, read_handshake};

verus! {

/// The twenty bytes by which a peer identifies itself.
pub type PeerId = [u8; 20];

/// Where a session stands.
#[derive(Debug, Clone, Copy, PartialEq, Eq, Structural)]
pub enum PeerState {
    /// The transport is being connected.
    Connecting,
    /// The local handshake is out; the remote one is awaited.
    Handshaking,
    /// The handshakes matched; the peer may now say what it has.
    AwaitingBitfield,
    /// Nothing is wanted of the peer.
    Idle,
    /// The peer knows that this side is interested, and chokes it.
    Interested,
    /// The peer serves requests.
    Requesting,
    /// The session ended; its error is kept.
    Closed,
}

/// A request for a block: `length` bytes of piece `index` from offset `begin`.
#[derive(Debug, Clone, Copy, PartialEq, Eq, Structural)]
pub struct BlockRequest {
    pub index: u32,
    pub begin: u32,
    pub length: u32,
}

/// A block that a peer delivered.
#[derive(Debug, Clone, PartialEq, Eq)]
pub struct Block {
    pub index: u32,
    pub begin: u32,
    pub piece: Vec<u8>,
}

/// A block as a mathematical value.
pub struct BlockView {
    pub index: u32,
    pub begin: u32,
    pub piece: Seq<u8>,
}

impl View for Block {
    type V = BlockView;

    open spec fn view(&self) -> BlockView {
        BlockView { index: self.index, begin: self.begin, piece: self.piece@ }
    }
}

/// A peer and the session with it.
#[derive(Debug)]
pub struct Peer {
    /// The peer's identity, known once it has shaken hands.
    pub id: PeerId,
    pub ip: u32,
    pub port: u16,
    /// The peer chokes this side.
    choked: bool,
    /// This side chokes the peer.
    choking: bool,
    /// This side has told the peer that it is interested.
    interested: bool,
    /// The peer has said that it is interested.
    remote_interested: bool,
    /// The pieces that the peer has said it holds.
    bitfield: BitVec,
    state: PeerState,
    /// The requests that await their block.
    requests: Vec<BlockRequest>,
    /// Why the session closed.
    error: Option<Error>,
}

/// A peer and its session as a mathematical value.
pub struct PeerView {
    pub id: Seq<u8>,
    pub ip: u32,
    pub port: u16,
    pub choked: bool,
    pub choking: bool,
    pub interested: bool,
    pub remote_interested: bool,
    pub bitfield: Seq<bool>,
    pub state: PeerState,
    pub requests: Seq<BlockRequest>,
    pub error: Option<ErrorView>,
}

impl View for Peer {
    type V = PeerView;

    closed spec fn view(&self) -> PeerView {
        PeerView {
            id: self.id@,
            ip: self.ip,
            port: self.port,
            choked: self.choked,
            choking: self.choking,
            interested: self.interested,
            remote_interested: self.remote_interested,
            bitfield: bitvec_bits(self.bitfield),
            state: self.state,
            requests: self.requests@,
            error: match self.error {
                Some(e) => Some(e@),
                None => None,
            },
        }
    }
}

/// A peer before anything happened: both sides choke, neither is
/// interested, and nothing is known of what the peer has.
pub open spec fn initial_peer(ip: u32, port: u16) -> PeerView {
    PeerView {
        id: Seq::new(20, |i: int| 0u8),
        ip,
        port,
        choked: true,
        choking: true,
        interested: false,
        remote_interested: false,
        bitfield: Seq::empty(),
        state: PeerState::Connecting,
        requests: Seq::empty(),
        error: None,
    }
}

/// Whether messages flow in a state.
pub open spec fn is_live(state: PeerState) -> bool {
    state == PeerState::AwaitingBitfield || state == PeerState::Idle || state
        == PeerState::Interested || state == PeerState::Requesting
}

/// Whether a request for the block at `begin` of piece `index` is in flight.
pub open spec fn has_request(requests: Seq<BlockRequest>, index: u32, begin: u32) -> bool {
    exists|i: int|
        0 <= i < requests.len() && (#[trigger] requests[i]).index == index && requests[i].begin
            == begin
}

/// The requests in flight without those for the block at `begin` of piece
/// `index`.
pub open spec fn without_request(requests: Seq<BlockRequest>, index: u32, begin: u32) -> Seq<
    BlockRequest,
>
    decreases requests.len(),
{
    if requests.len() == 0 {
        requests
    } else {
        let rest = without_request(requests.drop_last(), index, begin);
        if requests.last().index == index && requests.last().begin == begin {
            rest
        } else {
            rest.push(requests.last())
        }
    }
}

/// The requests in flight after one more was sent. There is one request per
/// block: a second one for the same block is not recorded.
pub open spec fn with_request(requests: Seq<BlockRequest>, request: BlockRequest) -> Seq<
    BlockRequest,
> {
    if has_request(requests, request.index, request.begin) {
        requests
    } else {
        requests.push(request)
    }
}

/// Whether the peer is known to hold a piece.
pub open spec fn holds_piece(p: PeerView, index: u32) -> bool {
    index < p.bitfield.len() && p.bitfield[index as int]
}

/// The session closed for a reason. A closed session has no requests in
/// flight.
pub open spec fn closed_with(p: PeerView, e: ErrorView) -> PeerView {
    PeerView { state: PeerState::Closed, error: Some(e), requests: Seq::empty(), ..p }
}

/// The session once the transport is connected: it shakes hands.
pub open spec fn after_connected(p: PeerView) -> PeerView {
    if p.state == PeerState::Connecting {
        PeerView { state: PeerState::Handshaking, ..p }
    } else {
        p
    }
}

/// The session once the peer's handshake has arrived: it waits for the
/// peer's bit field where the handshake is for the same resource, and closes
/// where it is not.
pub open spec fn after_handshake(p: PeerView, reply: Seq<u8>, info_hash: Seq<u8>) -> PeerView {
    if p.state != PeerState::Handshaking {
        p
    } else {
        match handshake_outcome(reply, info_hash) {
            Ok(id) => PeerView { id, state: PeerState::AwaitingBitfield, ..p },
            Err(e) => closed_with(p, e),
        }
    }
}

/// The session after a message of the peer, in a state in which messages
/// flow.
///
/// The first message ends the wait for a bit field: a bit field is stored,
/// and after any other message nothing is known of what the peer has. A
/// choke voids every request in flight and takes a requesting session back to
/// idle; an unchoke takes an interested session on to requesting. A block
/// settles the request for it.
pub open spec fn after_message(p: PeerView, m: PeerMessageView) -> PeerView {
    let q = if p.state == PeerState::AwaitingBitfield {
        PeerView {
            state: PeerState::Idle,
            bitfield: match m {
                PeerMessageView::Bitfield(bits) => bits,
                _ => p.bitfield,
            },
            ..p
        }
    } else {
        p
    };
    match m {
        PeerMessageView::Choke => PeerView {
            choked: true,
            requests: Seq::empty(),
            state: if q.state == PeerState::Requesting {
                PeerState::Idle
            } else {
                q.state
            },
            ..q
        },
        PeerMessageView::Unchoke => PeerView {
            choked: false,
            state: if q.state == PeerState::Interested {
                PeerState::Requesting
            } else {
                q.state
            },
            ..q
        },
        PeerMessageView::Interested => PeerView { remote_interested: true, ..q },
        PeerMessageView::NotInterested => PeerView { remote_interested: false, ..q },
        PeerMessageView::Piece { index, begin, piece } => PeerView {
            requests: without_request(q.requests, index, begin),
            ..q
        },
        _ => q,
    }
}

/// The block that a message delivers to the session's owner: the block of a
/// `piece` message that answers a request in flight. Every other message is
/// consumed by the session.
pub open spec fn delivered(p: PeerView, m: PeerMessageView) -> Option<BlockView> {
    match m {
        PeerMessageView::Piece { index, begin, piece } => if has_request(
            p.requests,
            index,
            begin,
        ) {
            Some(BlockView { index, begin, piece })
        } else {
            None
        },
        _ => None,
    }
}

/// The session after a frame has arrived. In a state in which messages flow,
/// a frame that decodes acts as its message, and one that does not closes the
/// session with a `MalformedMessage`. In any other state nothing changes.
pub open spec fn after_frame(p: PeerView, frame: Seq<u8>) -> PeerView {
    if !is_live(p.state) {
        p
    } else {
        match decode_outcome(frame) {
            Ok(m) => after_message(p, m),
            Err(context) => closed_with(
                p,
                ErrorView { kind: ErrorKind::MalformedMessage, context },
            ),
        }
    }
}

/// What the owner gets for a frame: the block that it delivered, if any, or
/// the error.
pub open spec fn frame_result(p: PeerView, frame: Seq<u8>) -> Result<Option<BlockView>, ErrorView> {
    if !is_live(p.state) {
        Err(ErrorView { kind: ErrorKind::ProtocolMismatch, context: "No message awaited"@ })
    } else {
        match decode_outcome(frame) {
            Ok(m) => Ok(delivered(p, m)),
            Err(context) => Err(ErrorView { kind: ErrorKind::MalformedMessage, context }),
        }
    }
}

/// Whether this side may tell the peer, in a state, that it is interested.
pub open spec fn may_express_interest(state: PeerState) -> bool {
    state == PeerState::AwaitingBitfield || state == PeerState::Idle
}

/// The session after this side has told the peer that it is interested: it
/// waits for the peer to unchoke it, unless the peer has done so already.
/// Where the peer sent no bit field before, nothing is known of what it has.
pub open spec fn after_interest(p: PeerView) -> PeerView {
    if may_express_interest(p.state) {
        PeerView {
            interested: true,
            state: if p.choked {
                PeerState::Interested
            } else {
                PeerState::Requesting
            },
            ..p
        }
    } else {
        p
    }
}

/// Whether the session can ask the peer for a block of a piece: the peer
/// serves requests and is known to hold the piece.
pub open spec fn can_request(p: PeerView, index: u32) -> bool {
    p.state == PeerState::Requesting && holds_piece(p, index)
}

/// The session after a request was sent.
pub open spec fn after_request(p: PeerView, request: BlockRequest) -> PeerView {
    if can_request(p, request.index) {
        PeerView { requests: with_request(p.requests, request), ..p }
    } else {
        p
    }
}

/// The session after the transport failed: closed with a `TransportFailure`.
/// A session that is closed already keeps the error that closed it.
pub open spec fn after_failure(p: PeerView, reason: Seq<char>) -> PeerView {
    if p.state == PeerState::Closed {
        p
    } else {
        closed_with(p, ErrorView { kind: ErrorKind::TransportFailure, context: reason })
    }
}

/// The frame of a request.
pub open spec fn request_frame(request: BlockRequest) -> Seq<u8> {
    encoded(
        PeerMessageView::Request {
            index: request.index,
            begin: request.begin,
            length: request.length,
        },
    )
}

impl Peer {
    /// A peer at an address, not yet connected.
    pub fn new(ip: u32, port: u16) -> (peer: Peer)
        ensures
            peer@ == initial_peer(ip, port),
    {
        let peer = Peer {
            id: [0u8; 20],
            ip,
            port,
            choked: true,
            choking: true,
            interested: false,
            remote_interested: false,
            bitfield: bits_new(),
            state: PeerState::Connecting,
            requests: Vec::new(),
            error: None,
        };
        assert(peer.id@ =~= Seq::new(20, |i: int| 0u8));
        assert(bitvec_bits(peer.bitfield) =~= Seq::<bool>::empty());
        peer
    }

    /// Where the session stands.
    pub fn state(&self) -> (state: PeerState)
        ensures
            state == self@.state,
    {
        self.state
    }

    /// Whether the peer chokes this side.
    pub fn is_choked(&self) -> (choked: bool)
        ensures
            choked == self@.choked,
    {
        self.choked
    }

    /// Whether this side chokes the peer.
    pub fn is_choking(&self) -> (choking: bool)
        ensures
            choking == self@.choking,
    {
        self.choking
    }

    /// Whether this side has told the peer that it is interested.
    pub fn is_interested(&self) -> (interested: bool)
        ensures
            interested == self@.interested,
    {
        self.interested
    }

    /// Whether the peer has said that it is interested.
    pub fn is_remote_interested(&self) -> (interested: bool)
        ensures
            interested == self@.remote_interested,
    {
        self.remote_interested
    }

    /// The requests that await their block.
    pub fn requests(&self) -> (requests: &[BlockRequest])
        ensures
            requests@ == self@.requests,
    {
        self.requests.as_slice()
    }

    /// Why the session closed, once it has.
    pub fn error(&self) -> (error: Option<&Error>)
        ensures
            match error {
                Some(e) => self@.error == Some(e@),
                None => self@.error is None,
            },
    {
        self.error.as_ref()
    }

    /// Whether the peer is known to hold a piece.
    pub fn has_piece(&self, index: u32) -> (has: bool)
        ensures
            has == holds_piece(self@, index),
    {
        match bits_get(&self.bitfield, index as usize) {
            Some(bit) => bit,
            None => false,
        }
    }

    /// Whether a request for a block is in flight.
    pub fn has_request(&self, index: u32, begin: u32) -> (has: bool)
        ensures
            has == has_request(self@.requests, index, begin),
    {
        let mut i: usize = 0;
        while i < self.requests.len()
            invariant
                i <= self.requests@.len(),
                forall|k: int|
                    0 <= k < i ==> !((#[trigger] self.requests@[k]).index == index
                        && self.requests@[k].begin == begin),
            decreases self.requests@.len() - i,
        {
            if self.requests[i].index == index && self.requests[i].begin == begin {
                return true;
            }
            i += 1;
        }
        false
    }

    /// Closes the session and keeps the error.
    fn close(&mut self, e: Error)
        ensures
            final(self)@ == closed_with(old(self)@, e@),
    {
        self.state = PeerState::Closed;
        self.requests = Vec::new();
        self.error = Some(e);
    }

    /// The transport is connected. Hands back the handshake to send; `None`,
    /// and nothing changes, where the session was not connecting.
    pub fn connected(&mut self, info_hash: &Sha1Hash, peer_id: &PeerId) -> (handshake: Option<
        [u8; 68],
    >)
        ensures
            final(self)@ == after_connected(old(self)@),
            match handshake {
                Some(bytes) => old(self)@.state == PeerState::Connecting && bytes@
                    == handshake_bytes(info_hash@, peer_id@),
                None => old(self)@.state != PeerState::Connecting,
            },
    {
        match self.state {
            PeerState::Connecting => {
                self.state = PeerState::Handshaking;
                Some(make_handshake(info_hash, peer_id))
            },
            _ => None,
        }
    }

    /// The peer's handshake has arrived. Where it is for the resource with
    /// this identity, the peer's id is taken from it; where it is not, the
    /// session closes and the error is kept and returned.
    pub fn handshake_received(&mut self, reply: &[u8], info_hash: &Sha1Hash) -> (result: Result<
        (),
        Error,
    >)
        ensures
            final(self)@ == after_handshake(old(self)@, reply@, info_hash@),
            match result {
                Ok(_) => old(self)@.state == PeerState::Handshaking && handshake_outcome(
                    reply@,
                    info_hash@,
                ) is Ok,
                Err(e) => if old(self)@.state == PeerState::Handshaking {
                    handshake_outcome(reply@, info_hash@) == Err::<Seq<u8>, ErrorView>(e@)
                } else {
                    e@ == (ErrorView {
                        kind: ErrorKind::ProtocolMismatch,
                        context: "No handshake awaited"@,
                    })
                },
            },
    {
        match self.state {
            PeerState::Handshaking => match read_handshake(reply, info_hash) {
                Ok(id) => {
                    self.id = id;
                    self.state = PeerState::AwaitingBitfield;
                    Ok(())
                },
                Err(e) => {
                    let kept = Error { kind: e.kind, context: e.context.clone() };
                    self.close(kept);
                    Err(e)
                },
            },
            _ => Err(Error::new(ErrorKind::ProtocolMismatch, "No handshake awaited")),
        }
    }

    /// A frame has arrived. Hands back the block that it delivered, if it is
    /// one that was asked for; every other message is consumed. A frame that
    /// does not decode closes the session; the error is kept and returned.
    pub fn receive(&mut self, frame: &[u8]) -> (result: Result<Option<Block>, Error>)
        ensures
            final(self)@ == after_frame(old(self)@, frame@),
            match result {
                Ok(Some(block)) => frame_result(old(self)@, frame@) == Ok::<
                    Option<BlockView>,
                    ErrorView,
                >(Some(block@)),
                Ok(None) => frame_result(old(self)@, frame@) == Ok::<Option<BlockView>, ErrorView>(
                    None,
                ),
                Err(e) => frame_result(old(self)@, frame@) == Err::<Option<BlockView>, ErrorView>(
                    e@,
                ),
            },
    {
        match self.state {
            PeerState::AwaitingBitfield
            | PeerState::Idle
            | PeerState::Interested
            | PeerState::Requesting => {},
            _ => {
                return Err(Error::new(ErrorKind::ProtocolMismatch, "No message awaited"));
            },
        }
        match PeerMessage::decode(frame) {
            Err(e) => {
                let kept = Error { kind: e.kind, context: e.context.clone() };
                self.close(kept);
                Err(e)
            },
            Ok(message) => Ok(self.apply(message)),
        }
    }

    /// Acts on a message of the peer.
    fn apply(&mut self, message: PeerMessage) -> (block: Option<Block>)
        requires
            is_live(old(self)@.state),
        ensures
            final(self)@ == after_message(old(self)@, message@),
            match block {
                Some(b) => delivered(old(self)@, message@) == Some(b@),
                None => delivered(old(self)@, message@) is None,
            },
    {
        let waited = match self.state {
            PeerState::AwaitingBitfield => true,
            _ => false,
        };
        if waited {
            self.state = PeerState::Idle;
        }
        match message {
            PeerMessage::Bitfield(bits) => {
                if waited {
                    self.bitfield = bits;
                }
                None
            },
            PeerMessage::Choke => {
                self.choked = true;
                self.requests = Vec::new();
                match self.state {
                    PeerState::Requesting => {
                        self.state = PeerState::Idle;
                    },
                    _ => {},
                }
                None
            },
            PeerMessage::Unchoke => {
                self.choked = false;
                match self.state {
                    PeerState::Interested => {
                        self.state = PeerState::Requesting;
                    },
                    _ => {},
                }
                None
            },
            PeerMessage::Interested => {
                self.remote_interested = true;
                None
            },
            PeerMessage::NotInterested => {
                self.remote_interested = false;
                None
            },
            PeerMessage::Piece { index, begin, piece } => {
                if self.has_request(index, begin) {
                    self.settle_request(index, begin);
                    Some(Block { index, begin, piece })
                } else {
                    proof {
                        lemma_without_absent(self.requests@, index, begin);
                    }
                    None
                }
            },
            _ => None,
        }
    }

    /// Takes the requests for a block out of those in flight.
    fn settle_request(&mut self, index: u32, begin: u32)
        ensures
            final(self)@ == (PeerView {
                requests: without_request(old(self)@.requests, index, begin),
                ..old(self)@
            }),
    {
        let mut kept: Vec<BlockRequest> = Vec::new();
        let mut i: usize = 0;
        assert(self.requests@.subrange(0, 0) =~= Seq::<BlockRequest>::empty());
        while i < self.requests.len()
            invariant
                i <= self.requests@.len(),
                kept@ == without_request(self.requests@.subrange(0, i as int), index, begin),
            decreases self.requests@.len() - i,
        {
            let request = self.requests[i];
            assert(self.requests@.subrange(0, i + 1).drop_last() =~= self.requests@.subrange(
                0,
                i as int,
            ));
            if !(request.index == index && request.begin == begin) {
                kept.push(request);
            }
            i += 1;
        }
        assert(self.requests@.subrange(0, self.requests@.len() as int) =~= self.requests@);
        self.requests = kept;
    }

    /// Tells the peer that this side is interested. Hands back the frame to
    /// send; `None`, and nothing changes, in a state in which interest
    /// cannot be expressed.
    pub fn interested(&mut self) -> (frame: Option<Vec<u8>>)
        ensures
            final(self)@ == after_interest(old(self)@),
            match frame {
                Some(bytes) => may_express_interest(old(self)@.state) && bytes@ == encoded(
                    PeerMessageView::Interested,
                ),
                None => !may_express_interest(old(self)@.state),
            },
    {
        match self.state {
            PeerState::AwaitingBitfield | PeerState::Idle => {},
            _ => {
                return None;
            },
        }
        self.interested = true;
        self.state = if self.choked {
            PeerState::Interested
        } else {
            PeerState::Requesting
        };
        let message = PeerMessage::Interested;
        assert(encodable(message@)) by {
            assert(payload(message@).len() == 0);
        }
        match message.encode() {
            Ok(bytes) => Some(bytes),
            Err(_) => None,
        }
    }

    /// Asks the peer for a block. Hands back the frame to send; `None`, and
    /// nothing changes, where the peer does not serve requests or is not
    /// known to hold the piece.
    pub fn request_block(&mut self, request: BlockRequest) -> (frame: Option<Vec<u8>>)
        ensures
            final(self)@ == after_request(old(self)@, request),
            match frame {
                Some(bytes) => can_request(old(self)@, request.index) && bytes@ == request_frame(
                    request,
                ),
                None => !can_request(old(self)@, request.index),
            },
    {
        match self.state {
            PeerState::Requesting => {},
            _ => {
                return None;
            },
        }
        if !self.has_piece(request.index) {
            return None;
        }
        if !self.has_request(request.index, request.begin) {
            self.requests.push(request);
        }
        let message = PeerMessage::Request {
            index: request.index,
            begin: request.begin,
            length: request.length,
        };
        assert(encodable(message@)) by {
            assert(payload(message@).len() == 12);
        }
        match message.encode() {
            Ok(bytes) => Some(bytes),
            Err(_) => None,
        }
    }

    /// The transport failed. The session closes with a `TransportFailure`,
    /// unless it is closed already.
    pub fn failed(&mut self, reason: String)
        ensures
            final(self)@ == after_failure(old(self)@, reason@),
    {
        match self.state {
            PeerState::Closed => {},
            _ => {
                self.close(Error { kind: ErrorKind::TransportFailure, context: reason });
            },
        }
    }
}

/// Taking out the requests for a block changes nothing where none is in
/// flight.
pub proof fn lemma_without_absent(requests: Seq<BlockRequest>, index: u32, begin: u32)
    requires
        !has_request(requests, index, begin),
    ensures
        without_request(requests, index, begin) == requests,
    decreases requests.len(),
{
    if requests.len() > 0 {
        let rest = requests.drop_last();
        assert(rest.len() == requests.len() - 1);
        assert forall|i: int| 0 <= i < rest.len() implies !((#[trigger] rest[i]).index == index
            && rest[i].begin == begin) by {
            assert(rest[i] == requests[i]);
        }
        lemma_without_absent(rest, index, begin);
        assert(!(requests[requests.len() - 1].index == index && requests[requests.len()
            - 1].begin == begin));
        assert(rest.push(requests.last()) =~= requests);
    }
}

/// Taking requests out leaves no more than there were.
pub proof fn lemma_without_shrinks(requests: Seq<BlockRequest>, index: u32, begin: u32)
    ensures
        without_request(requests, index, begin).len() <= requests.len(),
        !has_request(without_request(requests, index, begin), index, begin),
    decreases requests.len(),
{
    if requests.len() > 0 {
        lemma_without_shrinks(requests.drop_last(), index, begin);
    }
}

/// What holds of a session at every moment: a session asks for blocks only
/// while the peer serves requests, which it does only for a side that is
/// interested and not choked; a session that waits to be unchoked is
/// interested and choked; and a session is closed exactly where it keeps an
/// error.
pub open spec fn in_order(p: PeerView) -> bool {
    &&& p.state == PeerState::Requesting ==> p.interested && !p.choked
    &&& p.state == PeerState::Interested ==> p.interested && p.choked
    &&& p.requests.len() > 0 ==> p.state == PeerState::Requesting
    &&& p.state == PeerState::Closed <==> p.error is Some
}

/// A new session is in order, and whatever happens to a session in order
/// leaves it in order.
pub proof fn lemma_session_stays_in_order(
    p: PeerView,
    reply: Seq<u8>,
    info_hash: Seq<u8>,
    frame: Seq<u8>,
    request: BlockRequest,
    reason: Seq<char>,
)
    requires
        in_order(p),
    ensures
        in_order(initial_peer(p.ip, p.port)),
        in_order(after_connected(p)),
        in_order(after_handshake(p, reply, info_hash)),
        in_order(after_frame(p, frame)),
        in_order(after_interest(p)),
        in_order(after_request(p, request)),
        in_order(after_failure(p, reason)),
{
    if is_live(p.state) {
        match decode_outcome(frame) {
            Ok(PeerMessageView::Piece { index, begin, piece }) => {
                lemma_without_shrinks(p.requests, index, begin);
            },
            _ => {},
        }
    }
}

/// Once the peer chokes, no request is in flight any more, and none can be
/// sent before the peer unchokes again.
pub proof fn lemma_choke_voids_requests(p: PeerView, request: BlockRequest)
    requires
        is_live(p.state),
    ensures
        after_message(p, PeerMessageView::Choke).requests.len() == 0,
        after_message(p, PeerMessageView::Choke).state != PeerState::Requesting,
        after_request(after_message(p, PeerMessageView::Choke), request) == after_message(
            p,
            PeerMessageView::Choke,
        ),
{
}

} // verus!
