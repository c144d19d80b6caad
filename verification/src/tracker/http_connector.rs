//! The HTTP tracker protocol: the URL of an announce.

use vstd::prelude::*;
use vstd::string::StringExecFns;

use crate::tracker::{TrackerAnnounceRequest, TrackerEvent};
use crate::util::text::{decimal, encode_binary, percent_encoded, to_decimal};

verus! {

/// The name of an event in the query of an announce.
pub open spec fn event_name(event: TrackerEvent) -> Seq<char> {
    match event {
        TrackerEvent::Completed => "completed"@,
        TrackerEvent::Started => "started"@,
        TrackerEvent::Stopped => "stopped"@,
        TrackerEvent::Empty => ""@,
    }
}

/// The name of an event in the query of an announce.
pub fn event_to_string(event: &TrackerEvent) -> (name: &'static str)
    ensures
        name@ == event_name(*event),
{
    match event {
        TrackerEvent::Completed => "completed",
        TrackerEvent::Started => "started",
        TrackerEvent::Stopped => "stopped",
        TrackerEvent::Empty => "",
    }
}

/// The URL of an announce: the tracker's URL, then the query. The identity
/// hash and the peer id go in as their twenty raw bytes, percent-encoded; the
/// numbers in decimal; the peer list is always asked for in compact form.
pub open spec fn announce_url(request: TrackerAnnounceRequest) -> Seq<char> {
    request.url@ + "?info_hash="@ + percent_encoded(request.info_hash@) + "&peer_id="@
        + percent_encoded(request.peer_id@) + "&port="@ + decimal(request.port as nat)
        + "&uploaded="@ + decimal(request.uploaded as nat) + "&downloaded="@ + decimal(
        request.downloaded as nat,
    ) + "&left="@ + decimal(request.left as nat) + "&compact=1"@ + "&event="@ + event_name(
        request.event,
    )
}

/// Builds the URL of an announce.
pub fn make_announce_url(request: &TrackerAnnounceRequest) -> (url: String)
    ensures
        url@ == announce_url(*request),
{
    let mut url = request.url.clone();
    url.append("?info_hash=");
    url.append(encode_binary(request.info_hash.as_slice()).as_str());
    url.append("&peer_id=");
    url.append(encode_binary(request.peer_id.as_slice()).as_str());
    url.append("&port=");
    url.append(to_decimal(request.port as u64).as_str());
    url.append("&uploaded=");
    url.append(to_decimal(request.uploaded).as_str());
    url.append("&downloaded=");
    url.append(to_decimal(request.downloaded).as_str());
    url.append("&left=");
    url.append(to_decimal(request.left).as_str());
    url.append("&compact=1");
    url.append("&event=");
    url.append(event_to_string(&request.event));
    url
}

} // verus!
