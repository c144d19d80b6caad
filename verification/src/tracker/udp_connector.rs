//! The UDP tracker protocol: its datagrams and its retry policy.

use vstd::arithmetic::power2::{lemma2_to64, lemma_pow2_strictly_increases, lemma_pow2_unfold, pow2};
use vstd::prelude::*;

use vstd::slice::slice_to_vec;

use crate::error::{Error, ErrorKind, ErrorView};
use crate::model::tracker::{
    compact_peers, parse_compact_peers, TrackerNetworkInfo, TrackerNetworkInfoView,
};
use crate::tracker::TrackerAnnounceRequest;
use crate::util::bytes::{
    array_from_slice, be_u32, be_u64, push_be_u16, push_be_u32, push_be_u64, push_bytes,
    read_be_u32, read_be_u64, u16_be, u32_be, u64_be,
};
use crate::util::common::random_u32;

verus! {

/// Seconds for which a connection id stays valid.
pub const MINUTE_SECONDS: u64 = 60;

/// The magic number that opens every connect request.
pub const CONNECT_REQUEST_PROTOCOL_ID: u64 = 0x41727101980;

/// Length of a connect request.
pub const CONNECT_REQUEST_PACKET_SIZE: usize = 16;

/// Length of an announce request.
pub const ANNOUNCE_REQUEST_PACKET_SIZE: usize = 98;

/// Least length of a connect response.
pub const CONNECT_RESPONSE_MIN_PACKET_SIZE: usize = 16;

/// Least length of an announce response.
pub const ANNOUNCE_RESPONSE_MIN_PACKET_SIZE: usize = 20;

/// Seconds that the first attempt of a phase waits for its answer.
pub const INITIAL_TIMEOUT_SECONDS: u64 = 15;

/// The multiplier of the last attempt: the one after it is not made.
pub const MAX_TIMEOUT_MULTIPLIER: u32 = 8;

/// The `num_want` field of an announce: -1 as four bytes, "as many as you like".
pub const NUM_WANT_DEFAULT: u32 = 0xFFFF_FFFF;

/// The two requests of the protocol.
#[derive(Debug, Clone, Copy, PartialEq, Eq, Structural)]
pub enum Action {
    Connect,
    Announce,
}

impl Action {
    /// The action's number on the wire.
    pub open spec fn spec_code(self) -> u32 {
        match self {
            Action::Connect => 0,
            Action::Announce => 1,
        }
    }

    /// The action's number on the wire.
    #[verifier::when_used_as_spec(spec_code)]
    pub fn code(self) -> (code: u32)
        ensures
            code == self.spec_code(),
    {
        match self {
            Action::Connect => 0,
            Action::Announce => 1,
        }
    }
}

/// The sixteen bytes of a connect request: the protocol id, the action and the
/// transaction id.
pub open spec fn connection_request(transaction_id: u32) -> Seq<u8> {
    u64_be(CONNECT_REQUEST_PROTOCOL_ID) + u32_be(Action::Connect.spec_code()) + u32_be(
        transaction_id,
    )
}

/// The ninety-eight bytes of an announce request. The address field is always
/// zero, so that the tracker takes the sender's address.
pub open spec fn announce_request(
    connection_id: u64,
    transaction_id: u32,
    key: u32,
    request: TrackerAnnounceRequest,
) -> Seq<u8> {
    u64_be(connection_id) + u32_be(Action::Announce.spec_code()) + u32_be(transaction_id)
        + request.info_hash@ + request.peer_id@ + u64_be(request.downloaded) + u64_be(
        request.left,
    ) + u64_be(request.uploaded) + u32_be(request.event.spec_code()) + u32_be(0) + u32_be(key)
        + u32_be(NUM_WANT_DEFAULT) + u16_be(request.port)
}

/// Builds a connect request.
pub fn make_connection_request(transaction_id: u32) -> (buf: [u8; 16])
    ensures
        buf@ == connection_request(transaction_id),
{
    let mut out: Vec<u8> = Vec::with_capacity(CONNECT_REQUEST_PACKET_SIZE);
    push_be_u64(&mut out, CONNECT_REQUEST_PROTOCOL_ID);
    push_be_u32(&mut out, Action::Connect.code());
    push_be_u32(&mut out, transaction_id);
    array_from_slice(out.as_slice())
}

/// Builds an announce request.
pub fn make_announce_request(
    connection_id: u64,
    transaction_id: u32,
    key: u32,
    request: &TrackerAnnounceRequest,
) -> (buf: [u8; 98])
    ensures
        buf@ == announce_request(connection_id, transaction_id, key, *request),
{
    let mut out: Vec<u8> = Vec::with_capacity(ANNOUNCE_REQUEST_PACKET_SIZE);
    push_be_u64(&mut out, connection_id);
    push_be_u32(&mut out, Action::Announce.code());
    push_be_u32(&mut out, transaction_id);
    push_bytes(&mut out, request.info_hash.as_slice());
    push_bytes(&mut out, request.peer_id.as_slice());
    push_be_u64(&mut out, request.downloaded);
    push_be_u64(&mut out, request.left);
    push_be_u64(&mut out, request.uploaded);
    push_be_u32(&mut out, request.event.code());
    push_be_u32(&mut out, 0);
    push_be_u32(&mut out, key);
    push_be_u32(&mut out, NUM_WANT_DEFAULT);
    push_be_u16(&mut out, request.port);
    array_from_slice(out.as_slice())
}

/// What a datagram is, held against the connect request that awaits an answer.
#[derive(Debug, Clone, Copy, PartialEq, Eq, Structural)]
pub enum ConnectReply {
    /// The awaited answer, with the connection id that it grants.
    Connected { connection_id: u64 },
    /// Long enough, but for another action or another transaction.
    Mismatch,
    /// Shorter than any connect response.
    TooShort,
}

/// What a datagram is, held against the announce request that awaits an answer.
#[derive(Debug, Clone, PartialEq, Eq)]
pub enum AnnounceReply {
    /// The awaited answer.
    Announced(TrackerNetworkInfo),
    /// Long enough, but for another action or another transaction.
    Mismatch,
    /// Shorter than any announce response.
    TooShort,
}

/// An announce reply as a mathematical value.
pub enum AnnounceReplyView {
    Announced(TrackerNetworkInfoView),
    Mismatch,
    TooShort,
}

impl View for AnnounceReply {
    type V = AnnounceReplyView;

    open spec fn view(&self) -> AnnounceReplyView {
        match self {
            AnnounceReply::Announced(info) => AnnounceReplyView::Announced(info@),
            AnnounceReply::Mismatch => AnnounceReplyView::Mismatch,
            AnnounceReply::TooShort => AnnounceReplyView::TooShort,
        }
    }
}

/// Whether a datagram opens with the given action and transaction id.
pub open spec fn answers(packet: Seq<u8>, action: Action, transaction_id: u32) -> bool
    recommends
        packet.len() >= 8,
{
    be_u32(packet.subrange(0, 4)) == action.spec_code() && be_u32(packet.subrange(4, 8))
        == transaction_id
}

/// How a datagram reads as the answer to a connect request.
pub open spec fn connect_reply(packet: Seq<u8>, transaction_id: u32) -> ConnectReply {
    if packet.len() < CONNECT_RESPONSE_MIN_PACKET_SIZE {
        ConnectReply::TooShort
    } else if !answers(packet, Action::Connect, transaction_id) {
        ConnectReply::Mismatch
    } else {
        ConnectReply::Connected { connection_id: be_u64(packet.subrange(8, 16)) }
    }
}

/// How a datagram reads as the answer to an announce request: after the action
/// and the transaction id come the interval, the leechers, the seeders and
/// the peers in compact form.
pub open spec fn announce_reply(packet: Seq<u8>, transaction_id: u32) -> AnnounceReplyView {
    if packet.len() < ANNOUNCE_RESPONSE_MIN_PACKET_SIZE {
        AnnounceReplyView::TooShort
    } else if !answers(packet, Action::Announce, transaction_id) {
        AnnounceReplyView::Mismatch
    } else {
        AnnounceReplyView::Announced(
            TrackerNetworkInfoView {
                interval: be_u32(packet.subrange(8, 12)),
                leechers: Some(be_u32(packet.subrange(12, 16))),
                seeders: Some(be_u32(packet.subrange(16, 20))),
                peers: compact_peers(packet.subrange(20, packet.len() as int)),
            },
        )
    }
}

/// Reads a datagram as the answer to the connect request with this
/// transaction id.
pub fn parse_connect_response(packet: &[u8], transaction_id: u32) -> (reply: ConnectReply)
    ensures
        reply == connect_reply(packet@, transaction_id),
{
    if packet.len() < CONNECT_RESPONSE_MIN_PACKET_SIZE {
        return ConnectReply::TooShort;
    }
    let action = read_be_u32(packet, 0);
    let tracker_transaction_id = read_be_u32(packet, 4);
    if action != Action::Connect.code() || tracker_transaction_id != transaction_id {
        return ConnectReply::Mismatch;
    }
    ConnectReply::Connected { connection_id: read_be_u64(packet, 8) }
}

/// Reads a datagram as the answer to the announce request with this
/// transaction id.
pub fn parse_announce_response(packet: &[u8], transaction_id: u32) -> (reply: AnnounceReply)
    ensures
        reply@ == announce_reply(packet@, transaction_id),
{
    if packet.len() < ANNOUNCE_RESPONSE_MIN_PACKET_SIZE {
        return AnnounceReply::TooShort;
    }
    let action = read_be_u32(packet, 0);
    let tracker_transaction_id = read_be_u32(packet, 4);
    if action != Action::Announce.code() || tracker_transaction_id != transaction_id {
        return AnnounceReply::Mismatch;
    }
    let interval = read_be_u32(packet, 8);
    let leechers = read_be_u32(packet, 12);
    let seeders = read_be_u32(packet, 16);
    let (_, tail) = packet.split_at(ANNOUNCE_RESPONSE_MIN_PACKET_SIZE);
    let peers = parse_compact_peers(tail);
    AnnounceReply::Announced(
        TrackerNetworkInfo { interval, leechers: Some(leechers), seeders: Some(seeders), peers },
    )
}

/// Seconds that an attempt waits for its answer: fifteen, doubled once per
/// attempt of the phase that went unanswered before it.
pub open spec fn read_timeout(multiplier: u32) -> u64 {
    if multiplier <= MAX_TIMEOUT_MULTIPLIER {
        (INITIAL_TIMEOUT_SECONDS * pow2(multiplier as nat)) as u64
    } else {
        (INITIAL_TIMEOUT_SECONDS * pow2(MAX_TIMEOUT_MULTIPLIER as nat)) as u64
    }
}

/// Computes the read timeout of an attempt.
pub fn read_timeout_secs(multiplier: u32) -> (secs: u64)
    ensures
        secs == read_timeout(multiplier),
        INITIAL_TIMEOUT_SECONDS <= secs <= 3840,
{
    let steps: u32 = if multiplier <= MAX_TIMEOUT_MULTIPLIER {
        multiplier
    } else {
        MAX_TIMEOUT_MULTIPLIER
    };
    let mut secs: u64 = INITIAL_TIMEOUT_SECONDS;
    let mut i: u32 = 0;
    proof {
        lemma2_to64();
    }
    while i < steps
        invariant
            i <= steps <= 8,
            secs == 15 * pow2(i as nat),
            secs <= 15 * pow2(steps as nat) <= 3840,
        decreases steps - i,
    {
        proof {
            lemma2_to64();
            lemma_pow2_unfold((i + 1) as nat);
            if i + 1 < steps {
                lemma_pow2_strictly_increases(
                    (i + 1) as nat,
                    steps as nat,
                );
            }
        }
        secs = secs * 2;
        i += 1;
    }
    secs
}

/// Where an announce exchange stands.
#[derive(Debug, Clone, Copy, PartialEq, Eq, Structural)]
pub enum UdpPhase {
    /// No exchange was started.
    Idle,
    /// A connect request awaits its answer.
    Connecting,
    /// An announce request awaits its answer.
    Announcing,
    /// The exchange ended, with a result or an error.
    Finished,
}

/// A client's session with one UDP tracker.
///
/// The connector does no I/O and reads no clock. The caller sends what it is
/// told to send, waits as long as it is told to wait, and reports what
/// happened together with the time on a clock of its own that counts seconds
/// and never runs backwards.
#[derive(Debug, Clone, Copy, PartialEq, Eq)]
pub struct UdpTrackerConnector {
    /// Chosen at random once per client, sent in every announce.
    pub key: u32,
    /// The connection id that the tracker granted last.
    pub connection_id: Option<u64>,
    /// When the connection id was received.
    pub last_connect_timestamp: u64,
    pub phase: UdpPhase,
    /// The transaction id of the request that awaits an answer.
    pub transaction_id: u32,
    /// Unanswered connect attempts of the current connect phase.
    pub connect_multiplier: u32,
    /// Unanswered announce attempts of the current exchange.
    pub announce_multiplier: u32,
}

/// What happened since the last action.
#[derive(Debug, Clone, PartialEq, Eq)]
pub enum UdpEvent {
    /// The caller wants to announce.
    Start,
    /// A datagram arrived.
    Received(Vec<u8>),
    /// The read timeout passed without a datagram.
    TimedOut,
    /// Sending or receiving failed.
    TransportFailed(String),
}

/// What the caller is to do next.
#[derive(Debug, Clone, PartialEq, Eq)]
pub enum UdpAction {
    /// Send the datagram, then wait up to so many seconds for a datagram.
    Send { datagram: Vec<u8>, timeout_secs: u64 },
    /// The datagram was not the awaited answer: go on waiting, until the
    /// timeout of the last `Send` has passed since that `Send`.
    KeepWaiting,
    /// The tracker answered the announce.
    Done(TrackerNetworkInfo),
    /// The exchange failed for good.
    Failed(Error),
}

/// An action as a mathematical value.
pub enum UdpActionView {
    Send { datagram: Seq<u8>, timeout_secs: u64 },
    KeepWaiting,
    Done(TrackerNetworkInfoView),
    Failed(ErrorView),
}

impl View for UdpAction {
    type V = UdpActionView;

    open spec fn view(&self) -> UdpActionView {
        match self {
            UdpAction::Send { datagram, timeout_secs } => UdpActionView::Send {
                datagram: datagram@,
                timeout_secs: *timeout_secs,
            },
            UdpAction::KeepWaiting => UdpActionView::KeepWaiting,
            UdpAction::Done(info) => UdpActionView::Done(info@),
            UdpAction::Failed(e) => UdpActionView::Failed(e@),
        }
    }
}

/// A failure of the given kind, as a mathematical action.
pub open spec fn failed(kind: ErrorKind, context: Seq<char>) -> UdpActionView {
    UdpActionView::Failed(ErrorView { kind, context })
}

/// A connector after `new`: no connection id, no exchange.
pub open spec fn fresh_connector(key: u32) -> UdpTrackerConnector {
    UdpTrackerConnector {
        key,
        connection_id: None,
        last_connect_timestamp: 0,
        phase: UdpPhase::Idle,
        transaction_id: 0,
        connect_multiplier: 0,
        announce_multiplier: 0,
    }
}

/// The connection id, if there is one and it is younger than a minute.
pub open spec fn usable_connection(c: UdpTrackerConnector, now: u64) -> Option<u64> {
    if c.connection_id is Some && (now <= c.last_connect_timestamp || now
        - c.last_connect_timestamp < MINUTE_SECONDS) {
        c.connection_id
    } else {
        None
    }
}

/// The step that sends a connect request: a new connect phase begins.
pub open spec fn send_connect(c: UdpTrackerConnector, fresh_id: u32) -> (
    UdpTrackerConnector,
    UdpActionView,
) {
    (
        UdpTrackerConnector {
            phase: UdpPhase::Connecting,
            transaction_id: fresh_id,
            connect_multiplier: 0,
            ..c
        },
        UdpActionView::Send {
            datagram: connection_request(fresh_id),
            timeout_secs: read_timeout(0),
        },
    )
}

/// The step that sends an announce request under a connection id.
pub open spec fn send_announce(
    c: UdpTrackerConnector,
    request: TrackerAnnounceRequest,
    connection_id: u64,
    fresh_id: u32,
) -> (UdpTrackerConnector, UdpActionView) {
    (
        UdpTrackerConnector { phase: UdpPhase::Announcing, transaction_id: fresh_id, ..c },
        UdpActionView::Send {
            datagram: announce_request(connection_id, fresh_id, c.key, request),
            timeout_secs: read_timeout(c.announce_multiplier),
        },
    )
}

/// The step that ends the exchange with an error.
pub open spec fn give_up(c: UdpTrackerConnector, kind: ErrorKind, context: Seq<char>) -> (
    UdpTrackerConnector,
    UdpActionView,
) {
    (UdpTrackerConnector { phase: UdpPhase::Finished, ..c }, failed(kind, context))
}

/// The step on `Start`: a new exchange, which announces at once where a
/// connection id younger than a minute is at hand, and connects first where
/// none is.
pub open spec fn step_start(
    c: UdpTrackerConnector,
    request: TrackerAnnounceRequest,
    now: u64,
    fresh_id: u32,
) -> (UdpTrackerConnector, UdpActionView) {
    let reset = UdpTrackerConnector { connect_multiplier: 0, announce_multiplier: 0, ..c };
    match usable_connection(c, now) {
        Some(connection_id) => send_announce(reset, request, connection_id, fresh_id),
        None => send_connect(reset, fresh_id),
    }
}

/// The step on `TimedOut`: the phase's multiplier goes up by one; beyond the
/// last multiplier the exchange fails with a timeout; otherwise the request is
/// sent again with the timeout doubled. A connect request is repeated as it
/// was. An announce gets a new transaction id, and gives way to a new connect
/// phase where the connection id has meanwhile grown old.
pub open spec fn step_timeout(
    c: UdpTrackerConnector,
    request: TrackerAnnounceRequest,
    now: u64,
    fresh_id: u32,
) -> (UdpTrackerConnector, UdpActionView) {
    match c.phase {
        UdpPhase::Connecting => {
            if c.connect_multiplier >= MAX_TIMEOUT_MULTIPLIER {
                give_up(c, ErrorKind::Timeout, "Connect request timed out"@)
            } else {
                let multiplier = (c.connect_multiplier + 1) as u32;
                (
                    UdpTrackerConnector { connect_multiplier: multiplier, ..c },
                    UdpActionView::Send {
                        datagram: connection_request(c.transaction_id),
                        timeout_secs: read_timeout(multiplier),
                    },
                )
            }
        },
        UdpPhase::Announcing => {
            if c.announce_multiplier >= MAX_TIMEOUT_MULTIPLIER {
                give_up(c, ErrorKind::Timeout, "Announce request timed out"@)
            } else {
                let next = UdpTrackerConnector {
                    announce_multiplier: (c.announce_multiplier + 1) as u32,
                    ..c
                };
                match usable_connection(c, now) {
                    Some(connection_id) => send_announce(next, request, connection_id, fresh_id),
                    None => send_connect(next, fresh_id),
                }
            }
        },
        _ => (c, failed(ErrorKind::ProtocolMismatch, "No exchange in progress"@)),
    }
}

/// The step on `Received`. A datagram too short for the awaited answer ends
/// the exchange. One for another action or transaction changes nothing: the
/// caller goes on waiting. The awaited connect answer stores the connection
/// id with the time and sends the announce; the awaited announce answer ends
/// the exchange with the tracker's data.
pub open spec fn step_received(
    c: UdpTrackerConnector,
    request: TrackerAnnounceRequest,
    packet: Seq<u8>,
    now: u64,
    fresh_id: u32,
) -> (UdpTrackerConnector, UdpActionView) {
    match c.phase {
        UdpPhase::Connecting => match connect_reply(packet, c.transaction_id) {
            ConnectReply::TooShort => give_up(
                c,
                ErrorKind::MalformedMessage,
                "Connect response too short"@,
            ),
            ConnectReply::Mismatch => (c, UdpActionView::KeepWaiting),
            ConnectReply::Connected { connection_id } => send_announce(
                UdpTrackerConnector {
                    connection_id: Some(connection_id),
                    last_connect_timestamp: now,
                    ..c
                },
                request,
                connection_id,
                fresh_id,
            ),
        },
        UdpPhase::Announcing => match announce_reply(packet, c.transaction_id) {
            AnnounceReplyView::TooShort => give_up(
                c,
                ErrorKind::MalformedMessage,
                "Announce response too short"@,
            ),
            AnnounceReplyView::Mismatch => (c, UdpActionView::KeepWaiting),
            AnnounceReplyView::Announced(info) => (
                UdpTrackerConnector { phase: UdpPhase::Finished, ..c },
                UdpActionView::Done(info),
            ),
        },
        _ => (c, failed(ErrorKind::ProtocolMismatch, "No exchange in progress"@)),
    }
}

/// The connector's transition function: the state and the action that follow
/// from a state and an event. `now` is the caller's clock at the event;
/// `fresh_id` is the transaction id for a request that needs a new one.
pub open spec fn udp_step(
    c: UdpTrackerConnector,
    request: TrackerAnnounceRequest,
    event: UdpEvent,
    now: u64,
    fresh_id: u32,
) -> (UdpTrackerConnector, UdpActionView) {
    match event {
        UdpEvent::Start => step_start(c, request, now, fresh_id),
        UdpEvent::Received(packet) => step_received(c, request, packet@, now, fresh_id),
        UdpEvent::TimedOut => step_timeout(c, request, now, fresh_id),
        UdpEvent::TransportFailed(reason) => give_up(c, ErrorKind::TransportFailure, reason@),
    }
}

impl UdpTrackerConnector {
    /// A connector with a key drawn at random.
    pub fn new() -> (c: Self)
        ensures
            c == fresh_connector(c.key),
    {
        Self::with_key(random_u32())
    }

    /// A connector with the given key.
    pub fn with_key(key: u32) -> (c: Self)
        ensures
            c == fresh_connector(key),
    {
        UdpTrackerConnector {
            key,
            connection_id: None,
            last_connect_timestamp: 0,
            phase: UdpPhase::Idle,
            transaction_id: 0,
            connect_multiplier: 0,
            announce_multiplier: 0,
        }
    }

    /// The connection id under which an announce may be sent at `now`.
    pub fn usable_connection(&self, now: u64) -> (id: Option<u64>)
        ensures
            id == usable_connection(*self, now),
    {
        match self.connection_id {
            Some(connection_id) => {
                if now <= self.last_connect_timestamp || now - self.last_connect_timestamp
                    < MINUTE_SECONDS {
                    Some(connection_id)
                } else {
                    None
                }
            },
            None => None,
        }
    }

    /// Takes one step of the exchange, with a transaction id drawn at random
    /// for the request that the step may send.
    pub fn step(&mut self, request: &TrackerAnnounceRequest, event: UdpEvent, now: u64) -> (action:
        UdpAction)
        ensures
            exists|fresh_id: u32|
                (*final(self), action@) == #[trigger] udp_step(
                    *old(self),
                    *request,
                    event,
                    now,
                    fresh_id,
                ),
    {
        let fresh_id = random_u32();
        self.step_with(request, event, now, fresh_id)
    }

    /// Takes one step of the exchange. A request that needs a new transaction
    /// id is sent with `fresh_id`.
    pub fn step_with(
        &mut self,
        request: &TrackerAnnounceRequest,
        event: UdpEvent,
        now: u64,
        fresh_id: u32,
    ) -> (action: UdpAction)
        ensures
            (*final(self), action@) == udp_step(*old(self), *request, event, now, fresh_id),
    {
        match event {
            UdpEvent::Start => {
                self.connect_multiplier = 0;
                self.announce_multiplier = 0;
                self.send_next(request, now, fresh_id)
            },
            UdpEvent::Received(packet) => self.on_received(request, packet.as_slice(), now, fresh_id),
            UdpEvent::TimedOut => self.on_timed_out(request, now, fresh_id),
            UdpEvent::TransportFailed(reason) => {
                self.phase = UdpPhase::Finished;
                UdpAction::Failed(Error { kind: ErrorKind::TransportFailure, context: reason })
            },
        }
    }

    /// Sends the announce where a connection id is usable, a connect request
    /// where none is.
    fn send_next(&mut self, request: &TrackerAnnounceRequest, now: u64, fresh_id: u32) -> (action:
        UdpAction)
        ensures
            (*final(self), action@) == (match usable_connection(*old(self), now) {
                Some(connection_id) => send_announce(*old(self), *request, connection_id, fresh_id),
                None => send_connect(*old(self), fresh_id),
            }),
    {
        match self.usable_connection(now) {
            Some(connection_id) => self.announce_under(request, connection_id, fresh_id),
            None => {
                self.phase = UdpPhase::Connecting;
                self.transaction_id = fresh_id;
                self.connect_multiplier = 0;
                let message = make_connection_request(fresh_id);
                UdpAction::Send {
                    datagram: slice_to_vec(message.as_slice()),
                    timeout_secs: read_timeout_secs(0),
                }
            },
        }
    }

    /// Sends the announce under a connection id.
    fn announce_under(
        &mut self,
        request: &TrackerAnnounceRequest,
        connection_id: u64,
        fresh_id: u32,
    ) -> (action: UdpAction)
        ensures
            (*final(self), action@) == send_announce(*old(self), *request, connection_id, fresh_id),
    {
        self.phase = UdpPhase::Announcing;
        self.transaction_id = fresh_id;
        let message = make_announce_request(connection_id, fresh_id, self.key, request);
        UdpAction::Send {
            datagram: slice_to_vec(message.as_slice()),
            timeout_secs: read_timeout_secs(self.announce_multiplier),
        }
    }

    /// Ends the exchange with an error.
    fn fail(&mut self, kind: ErrorKind, context: &str) -> (action: UdpAction)
        ensures
            (*final(self), action@) == give_up(*old(self), kind, context@),
    {
        self.phase = UdpPhase::Finished;
        UdpAction::Failed(Error::new(kind, context))
    }

    fn on_timed_out(&mut self, request: &TrackerAnnounceRequest, now: u64, fresh_id: u32) -> (action:
        UdpAction)
        ensures
            (*final(self), action@) == step_timeout(*old(self), *request, now, fresh_id),
    {
        match self.phase {
            UdpPhase::Connecting => {
                if self.connect_multiplier >= MAX_TIMEOUT_MULTIPLIER {
                    self.fail(ErrorKind::Timeout, "Connect request timed out")
                } else {
                    self.connect_multiplier = self.connect_multiplier + 1;
                    let message = make_connection_request(self.transaction_id);
                    UdpAction::Send {
                        datagram: slice_to_vec(message.as_slice()),
                        timeout_secs: read_timeout_secs(self.connect_multiplier),
                    }
                }
            },
            UdpPhase::Announcing => {
                if self.announce_multiplier >= MAX_TIMEOUT_MULTIPLIER {
                    self.fail(ErrorKind::Timeout, "Announce request timed out")
                } else {
                    self.announce_multiplier = self.announce_multiplier + 1;
                    self.send_next(request, now, fresh_id)
                }
            },
            _ => UdpAction::Failed(
                Error::new(ErrorKind::ProtocolMismatch, "No exchange in progress"),
            ),
        }
    }

    fn on_received(
        &mut self,
        request: &TrackerAnnounceRequest,
        packet: &[u8],
        now: u64,
        fresh_id: u32,
    ) -> (action: UdpAction)
        ensures
            (*final(self), action@) == step_received(*old(self), *request, packet@, now, fresh_id),
    {
        match self.phase {
            UdpPhase::Connecting => match parse_connect_response(packet, self.transaction_id) {
                ConnectReply::TooShort => self.fail(
                    ErrorKind::MalformedMessage,
                    "Connect response too short",
                ),
                ConnectReply::Mismatch => UdpAction::KeepWaiting,
                ConnectReply::Connected { connection_id } => {
                    self.connection_id = Some(connection_id);
                    self.last_connect_timestamp = now;
                    self.announce_under(request, connection_id, fresh_id)
                },
            },
            UdpPhase::Announcing => match parse_announce_response(packet, self.transaction_id) {
                AnnounceReply::TooShort => self.fail(
                    ErrorKind::MalformedMessage,
                    "Announce response too short",
                ),
                AnnounceReply::Mismatch => UdpAction::KeepWaiting,
                AnnounceReply::Announced(info) => {
                    self.phase = UdpPhase::Finished;
                    UdpAction::Done(info)
                },
            },
            _ => UdpAction::Failed(
                Error::new(ErrorKind::ProtocolMismatch, "No exchange in progress"),
            ),
        }
    }
}

/// A datagram that is long enough for the awaited answer but carries another
/// transaction id is not taken for it: the connector stays as it is, with the
/// connection id it had, and the caller keeps waiting in the window of the
/// request that is in flight.
pub proof fn lemma_foreign_transaction_is_ignored(
    c: UdpTrackerConnector,
    request: TrackerAnnounceRequest,
    event: UdpEvent,
    now: u64,
    fresh_id: u32,
)
    requires
        event matches UdpEvent::Received(packet) && be_u32(packet@.subrange(4, 8))
            != c.transaction_id && ((c.phase == UdpPhase::Connecting && packet@.len()
            >= CONNECT_RESPONSE_MIN_PACKET_SIZE) || (c.phase == UdpPhase::Announcing
            && packet@.len() >= ANNOUNCE_RESPONSE_MIN_PACKET_SIZE)),
    ensures
        udp_step(c, request, event, now, fresh_id) == (c, UdpActionView::KeepWaiting),
{
}

/// The same holds of a datagram that answers another action.
pub proof fn lemma_foreign_action_is_ignored(
    c: UdpTrackerConnector,
    request: TrackerAnnounceRequest,
    event: UdpEvent,
    now: u64,
    fresh_id: u32,
)
    requires
        event matches UdpEvent::Received(packet) && ((c.phase == UdpPhase::Connecting
            && packet@.len() >= CONNECT_RESPONSE_MIN_PACKET_SIZE && be_u32(packet@.subrange(0, 4))
            != Action::Connect.spec_code()) || (c.phase == UdpPhase::Announcing && packet@.len()
            >= ANNOUNCE_RESPONSE_MIN_PACKET_SIZE && be_u32(packet@.subrange(0, 4))
            != Action::Announce.spec_code())),
    ensures
        udp_step(c, request, event, now, fresh_id) == (c, UdpActionView::KeepWaiting),
{
}

/// An upper bound on the timeouts that an exchange can still meet before it
/// ends: ten for each announce attempt that is left, and one for each connect
/// attempt that is left in a connect phase.
pub open spec fn attempts_left(c: UdpTrackerConnector) -> nat {
    let announces = if c.announce_multiplier >= 9 {
        0
    } else {
        9 - c.announce_multiplier
    };
    let connects = if c.connect_multiplier >= 9 {
        0
    } else {
        9 - c.connect_multiplier
    };
    match c.phase {
        UdpPhase::Connecting => (10 * announces + connects) as nat,
        UdpPhase::Announcing => (10 * announces) as nat,
        _ => 0,
    }
}

/// Every timeout either ends the exchange with an error or uses up one of the
/// attempts that are left, of which there are never more than ninety-nine: no
/// exchange waits for ever.
pub proof fn lemma_timeout_uses_up_an_attempt(
    c: UdpTrackerConnector,
    request: TrackerAnnounceRequest,
    now: u64,
    fresh_id: u32,
)
    ensures
        attempts_left(c) <= 99,
        ({
            let (next, action) = udp_step(c, request, UdpEvent::TimedOut, now, fresh_id);
            action is Failed || (action is Send && attempts_left(next) < attempts_left(c))
        }),
{
}

/// No datagram wins back an attempt.
pub proof fn lemma_datagram_wins_no_attempt(
    c: UdpTrackerConnector,
    request: TrackerAnnounceRequest,
    event: UdpEvent,
    now: u64,
    fresh_id: u32,
)
    requires
        event is Received,
    ensures
        attempts_left(udp_step(c, request, event, now, fresh_id).0) <= attempts_left(c),
{
}

/// The state and the last action of an exchange that was started and then met
/// `timeouts` timeouts and nothing else. The event numbered `i` happens at
/// `clock[i]` and may use `ids[i]` as a new transaction id; the start is
/// numbered 0.
pub open spec fn silent_run(
    c: UdpTrackerConnector,
    request: TrackerAnnounceRequest,
    clock: Seq<u64>,
    ids: Seq<u32>,
    timeouts: nat,
) -> (UdpTrackerConnector, UdpActionView)
    decreases timeouts,
{
    if timeouts == 0 {
        udp_step(c, request, UdpEvent::Start, clock[0], ids[0])
    } else {
        udp_step(
            silent_run(c, request, clock, ids, (timeouts - 1) as nat).0,
            request,
            UdpEvent::TimedOut,
            clock[timeouts as int],
            ids[timeouts as int],
        )
    }
}

/// Against a tracker that never answers, an exchange that has to connect
/// first sends its connect request nine times, waiting 15, 30, 60 and so on
/// up to 3840 seconds, and fails with a timeout when the ninth wait has
/// passed.
pub proof fn lemma_silent_tracker_times_out(
    c: UdpTrackerConnector,
    request: TrackerAnnounceRequest,
    clock: Seq<u64>,
    ids: Seq<u32>,
)
    requires
        usable_connection(c, clock[0]) is None,
    ensures
        forall|k: nat|
            k <= 8 ==> (#[trigger] silent_run(c, request, clock, ids, k)).1
                == (UdpActionView::Send {
                datagram: connection_request(ids[0]),
                timeout_secs: (15 * pow2(k)) as u64,
            }),
        silent_run(c, request, clock, ids, 8).1 == (UdpActionView::Send {
            datagram: connection_request(ids[0]),
            timeout_secs: 3840,
        }),
        silent_run(c, request, clock, ids, 9).1 == failed(
            ErrorKind::Timeout,
            "Connect request timed out"@,
        ),
        silent_run(c, request, clock, ids, 9).0.phase == UdpPhase::Finished,
{
    assert forall|k: nat| k <= 8 implies (#[trigger] silent_run(c, request, clock, ids, k)).1
        == (UdpActionView::Send {
        datagram: connection_request(ids[0]),
        timeout_secs: (15 * pow2(k)) as u64,
    }) by {
        lemma_silent_connect_attempts(c, request, clock, ids, k);
    }
    lemma_silent_connect_attempts(c, request, clock, ids, 8);
    lemma2_to64();
}

/// The state after `k` unanswered connect attempts of a silent run.
proof fn lemma_silent_connect_attempts(
    c: UdpTrackerConnector,
    request: TrackerAnnounceRequest,
    clock: Seq<u64>,
    ids: Seq<u32>,
    k: nat,
)
    requires
        usable_connection(c, clock[0]) is None,
        k <= 8,
    ensures
        silent_run(c, request, clock, ids, k) == (
            UdpTrackerConnector {
                phase: UdpPhase::Connecting,
                transaction_id: ids[0],
                connect_multiplier: k as u32,
                announce_multiplier: 0,
                ..c
            },
            UdpActionView::Send {
                datagram: connection_request(ids[0]),
                timeout_secs: (15 * pow2(k)) as u64,
            },
        ),
    decreases k,
{
    lemma2_to64();
    if k > 0 {
        lemma_silent_connect_attempts(c, request, clock, ids, (k - 1) as nat);
    }
}

} // verus!
