//! What a tracker answers: swarm statistics and a list of peers.

use vstd::prelude::*;

use crate::error::{Error, ErrorKind};
use crate::model::Sha1Hash;
use crate::util::bytes::{be_u16, be_u32, read_be_u16, read_be_u32};
use crate::util::text::{decimal, hexadecimal, to_decimal, to_hexadecimal};
use vstd::string::StringExecFns;

verus! {

/// Bytes that one peer takes in a compact peer list: an IPv4 address and a port.
pub const COMPACT_PEER_LEN: usize = 6;

/// An IP address as an integer, most significant byte first on the wire.
#[derive(Debug, Clone, Copy, PartialEq, Eq, Structural)]
pub enum IpAddress {
    V4(u32),
    V6(u128),
}

/// Where a peer listens.
#[derive(Debug, Clone, Copy, PartialEq, Eq, Structural)]
pub struct SocketAddress {
    pub ip: IpAddress,
    pub port: u16,
}

/// One peer of the swarm, as a tracker reports it.
#[derive(Debug, Clone, Copy, PartialEq, Eq, Structural)]
pub struct PeerInfo {
    pub socket_addr: SocketAddress,
}

/// An IPv4 address in text: its four bytes in decimal, with dots between.
pub open spec fn ipv4_text(ip: u32) -> Seq<char> {
    decimal((ip / 0x100_0000) as nat) + "."@ + decimal(((ip / 0x1_0000) % 0x100) as nat) + "."@
        + decimal(((ip / 0x100) % 0x100) as nat) + "."@ + decimal((ip % 0x100) as nat)
}

/// What the first group of sixteen bits of an IPv6 address is a multiple of.
pub const IPV6_GROUP_WEIGHT: u128 = 0x1_0000_0000_0000_0000_0000_0000_0000;

/// The first `groups` groups of sixteen bits of an IPv6 address in text: each
/// in hexadecimal, with colons between, none left out.
pub open spec fn ipv6_groups_text(ip: u128, groups: nat) -> Seq<char>
    decreases groups,
{
    if groups == 0 {
        Seq::empty()
    } else {
        let rest = ((ip % IPV6_GROUP_WEIGHT) * 0x1_0000) as u128;
        hexadecimal((ip / IPV6_GROUP_WEIGHT) as nat) + (if groups == 1 {
            Seq::empty()
        } else {
            ":"@ + ipv6_groups_text(rest, (groups - 1) as nat)
        })
    }
}

/// A socket address in text, as `std::net::SocketAddr` reads it: an IPv4
/// address, or an IPv6 address in square brackets, then a colon and the port.
pub open spec fn socket_address_text(address: SocketAddress) -> Seq<char> {
    match address.ip {
        IpAddress::V4(ip) => ipv4_text(ip) + ":"@ + decimal(address.port as nat),
        IpAddress::V6(ip) => "["@ + ipv6_groups_text(ip, 8) + "]:"@ + decimal(address.port as nat),
    }
}

impl PeerInfo {
    /// The peer's socket address in text.
    pub fn to_socket_addrs(&self) -> (text: String)
        ensures
            text@ == socket_address_text(self.socket_addr),
    {
        let port = to_decimal(self.socket_addr.port as u64);
        match self.socket_addr.ip {
            IpAddress::V4(ip) => {
                let mut text = to_decimal((ip / 0x100_0000) as u64);
                text.append(".");
                text.append(to_decimal(((ip / 0x1_0000) % 0x100) as u64).as_str());
                text.append(".");
                text.append(to_decimal(((ip / 0x100) % 0x100) as u64).as_str());
                text.append(".");
                text.append(to_decimal((ip % 0x100) as u64).as_str());
                text.append(":");
                text.append(port.as_str());
                text
            },
            IpAddress::V6(ip) => {
                let mut text = "[".to_owned();
                let mut rest: u128 = ip;
                let mut left: usize = 8;
                let ghost mut done: Seq<char> = Seq::empty();
                while left > 0
                    invariant
                        text@ == "["@ + done,
                        done + ipv6_groups_text(rest, left as nat) == ipv6_groups_text(ip, 8),
                    decreases left,
                {
                    let group = to_hexadecimal((rest / IPV6_GROUP_WEIGHT) as u64);
                    let ghost before = done;
                    let ghost tail = ipv6_groups_text(rest, left as nat);
                    text.append(group.as_str());
                    rest = (rest % IPV6_GROUP_WEIGHT) * 0x1_0000;
                    left -= 1;
                    if left > 0 {
                        text.append(":");
                        proof {
                            done = before + group@ + ":"@;
                            assert(tail =~= group@ + (":"@ + ipv6_groups_text(rest, left as nat)));
                            assert(done + ipv6_groups_text(rest, left as nat) =~= before + tail);
                        }
                    } else {
                        proof {
                            done = before + group@;
                            assert(tail =~= group@);
                            assert(ipv6_groups_text(rest, 0) =~= Seq::<char>::empty());
                            assert(done + ipv6_groups_text(rest, 0) =~= before + tail);
                        }
                    }
                    assert(text@ =~= "["@ + done);
                }
                assert(done =~= ipv6_groups_text(ip, 8));
                text.append("]:");
                text.append(port.as_str());
                text
            },
        }
    }
}

/// A tracker's answer to an announce.
#[derive(Debug, Clone, PartialEq, Eq)]
pub struct TrackerNetworkInfo {
    /// Seconds to wait before the next announce.
    pub interval: u32,
    pub leechers: Option<u32>,
    pub seeders: Option<u32>,
    pub peers: Vec<PeerInfo>,
}

/// A tracker's answer as a mathematical value.
pub struct TrackerNetworkInfoView {
    pub interval: u32,
    pub leechers: Option<u32>,
    pub seeders: Option<u32>,
    pub peers: Seq<PeerInfo>,
}

impl View for TrackerNetworkInfo {
    type V = TrackerNetworkInfoView;

    open spec fn view(&self) -> TrackerNetworkInfoView {
        TrackerNetworkInfoView {
            interval: self.interval,
            leechers: self.leechers,
            seeders: self.seeders,
            peers: self.peers@,
        }
    }
}

/// The body of an HTTP tracker response, decoded but not yet interpreted.
#[derive(Debug, Clone, PartialEq, Eq)]
pub enum TrackerDiscoveryResponse {
    Error { failure_reason: String },
    Response {
        interval: u32,
        leechers: Option<u32>,
        seeders: Option<u32>,
        peers: TrackersPeersResponse,
    },
}

/// The two forms in which a tracker lists peers.
#[derive(Debug, Clone, PartialEq, Eq)]
pub enum TrackersPeersResponse {
    /// Six bytes per peer: an IPv4 address and a port, both big-endian.
    Compact(Vec<u8>),
    /// One dictionary per peer.
    Legacy(Vec<LegacyPeerInfo>),
}

/// A peer as the dictionary form lists it.
#[derive(Debug, Clone, Copy, PartialEq, Eq)]
pub struct LegacyPeerInfo {
    pub id: Sha1Hash,
    pub ip: IpAddress,
    pub port: u16,
}

/// The peer that one six-byte chunk of a compact list stands for.
pub open spec fn compact_peer(chunk: Seq<u8>) -> PeerInfo
    recommends
        chunk.len() == COMPACT_PEER_LEN,
{
    PeerInfo {
        socket_addr: SocketAddress {
            ip: IpAddress::V4(be_u32(chunk.subrange(0, 4))),
            port: be_u16(chunk.subrange(4, 6)),
        },
    }
}

/// The peers of a compact list: one per complete chunk, in order. Bytes after
/// the last complete chunk stand for nothing.
pub open spec fn compact_peers(bytes: Seq<u8>) -> Seq<PeerInfo> {
    Seq::new(
        (bytes.len() / COMPACT_PEER_LEN as nat) as nat,
        |i: int| compact_peer(bytes.subrange(6 * i, 6 * i + 6)),
    )
}

/// The peer that one dictionary of the legacy form stands for.
pub open spec fn legacy_peer(peer: LegacyPeerInfo) -> PeerInfo {
    PeerInfo { socket_addr: SocketAddress { ip: peer.ip, port: peer.port } }
}

/// The peers of a legacy list, in order.
pub open spec fn legacy_peers(peers: Seq<LegacyPeerInfo>) -> Seq<PeerInfo> {
    Seq::new(peers.len(), |i: int| legacy_peer(peers[i]))
}

/// The peer list that either form stands for.
pub open spec fn normalized_peers(peers: TrackersPeersResponse) -> Seq<PeerInfo> {
    match peers {
        TrackersPeersResponse::Compact(bytes) => compact_peers(bytes@),
        TrackersPeersResponse::Legacy(list) => legacy_peers(list@),
    }
}

/// Decodes a compact peer list.
pub fn parse_compact_peers(bytes: &[u8]) -> (peers: Vec<PeerInfo>)
    ensures
        peers@ == compact_peers(bytes@),
{
    let count: usize = bytes.len() / COMPACT_PEER_LEN;
    let mut peers: Vec<PeerInfo> = Vec::with_capacity(count);
    let mut i: usize = 0;
    while i < count
        invariant
            count == bytes.len() / 6,
            i <= count,
            peers@.len() == i,
            forall|k: int| 0 <= k < i ==> peers@[k] == compact_peers(bytes@)[k],
        decreases count - i,
    {
        let at: usize = i * COMPACT_PEER_LEN;
        let ip: u32 = read_be_u32(bytes, at);
        let port: u16 = read_be_u16(bytes, at + 4);
        proof {
            let chunk = bytes@.subrange(6 * i, 6 * i + 6);
            assert(chunk.subrange(0, 4) =~= bytes@.subrange(at as int, at + 4));
            assert(chunk.subrange(4, 6) =~= bytes@.subrange(at + 4, at + 6));
        }
        peers.push(PeerInfo { socket_addr: SocketAddress { ip: IpAddress::V4(ip), port } });
        i += 1;
    }
    assert(peers@ =~= compact_peers(bytes@));
    peers
}

impl TrackerNetworkInfo {
    /// Interprets a decoded tracker response.
    ///
    /// A failure reason becomes a `TrackerFailure` with the reason, unchanged,
    /// as its context. Otherwise the statistics are taken over and the peer
    /// list is normalized, whichever form it came in.
    pub fn from_bencode(response: TrackerDiscoveryResponse) -> (result: Result<Self, Error>)
        ensures
            match response {
                TrackerDiscoveryResponse::Error { failure_reason } => result matches Err(e)
                    && e.kind == ErrorKind::TrackerFailure && e.context@ == failure_reason@,
                TrackerDiscoveryResponse::Response { interval, leechers, seeders, peers } => {
                    result matches Ok(info) && info.interval == interval && info.leechers
                        == leechers && info.seeders == seeders && info.peers@
                        == normalized_peers(peers)
                },
            },
    {
        match response {
            TrackerDiscoveryResponse::Error { failure_reason } => Err(
                Error { kind: ErrorKind::TrackerFailure, context: failure_reason },
            ),
            TrackerDiscoveryResponse::Response { interval, leechers, seeders, peers } => Ok(
                TrackerNetworkInfo { interval, leechers, seeders, peers: Self::parse_peers(peers) },
            ),
        }
    }

    /// Normalizes a peer list to one representation.
    pub fn parse_peers(peers: TrackersPeersResponse) -> (list: Vec<PeerInfo>)
        ensures
            list@ == normalized_peers(peers),
    {
        match peers {
            TrackersPeersResponse::Legacy(legacy) => {
                let mut list: Vec<PeerInfo> = Vec::with_capacity(legacy.len());
                let mut i: usize = 0;
                while i < legacy.len()
                    invariant
                        i <= legacy@.len(),
                        list@.len() == i,
                        forall|k: int| 0 <= k < i ==> list@[k] == legacy_peer(legacy@[k]),
                    decreases legacy@.len() - i,
                {
                    let peer = &legacy[i];
                    list.push(
                        PeerInfo { socket_addr: SocketAddress { ip: peer.ip, port: peer.port } },
                    );
                    i += 1;
                }
                assert(list@ =~= legacy_peers(legacy@));
                list
            },
            TrackersPeersResponse::Compact(bytes) => parse_compact_peers(bytes.as_slice()),
        }
    }
}

} // verus!
