//! The tracker announce protocol: what a client asks, over either transport.

use vstd::prelude::*;

use crate::error::{Error, ErrorKind};
use crate::model::Sha1Hash;
use crate::peer::peer::PeerId;

pub mod http_connector;
pub mod udp_connector;

verus! {

/// What a client tells a tracker when it announces.
#[derive(Debug, Clone, PartialEq, Eq)]
pub struct TrackerAnnounceRequest {
    /// The tracker's announce URL.
    pub url: String,
    pub peer_id: PeerId,
    pub info_hash: Sha1Hash,
    /// Bytes downloaded so far.
    pub downloaded: u64,
    /// Bytes still missing.
    pub left: u64,
    /// Bytes uploaded so far.
    pub uploaded: u64,
    pub event: TrackerEvent,
    /// The port on which this client accepts peers.
    pub port: u16,
}

/// A request for swarm statistics.
#[derive(Debug, Clone, Copy, PartialEq, Eq, Default)]
pub struct TrackerScrapeRequest {}

/// The answer to a scrape.
#[derive(Debug, Clone, Copy, PartialEq, Eq, Default)]
pub struct TrackerScrapeResponse {}

/// Where in its life a download is when it announces.
#[derive(Debug, Clone, Copy, PartialEq, Eq, Structural)]
pub enum TrackerEvent {
    /// No event: a regular announce.
    Empty,
    Completed,
    Started,
    Stopped,
}

impl TrackerEvent {
    /// The event's number in a UDP announce.
    pub open spec fn spec_code(self) -> u32 {
        match self {
            TrackerEvent::Empty => 0,
            TrackerEvent::Completed => 1,
            TrackerEvent::Started => 2,
            TrackerEvent::Stopped => 3,
        }
    }

    /// The event's number in a UDP announce.
    #[verifier::when_used_as_spec(spec_code)]
    pub fn code(self) -> (code: u32)
        ensures
            code == self.spec_code(),
    {
        match self {
            TrackerEvent::Empty => 0,
            TrackerEvent::Completed => 1,
            TrackerEvent::Started => 2,
            TrackerEvent::Stopped => 3,
        }
    }
}

/// Answers a scrape: always with the error that says that scraping is not
/// offered.
pub fn scrape(request: &TrackerScrapeRequest) -> (result: Result<TrackerScrapeResponse, Error>)
    ensures
        result matches Err(e) && e.kind == ErrorKind::Unsupported && e.context@
            == "scrape is not supported"@,
{
    Err(Error::new(ErrorKind::Unsupported, "scrape is not supported"))
}

} // verus!
