use stlib::error::{Error, ErrorKind};
use stlib::model::tracker::{IpAddress, PeerInfo, SocketAddress, TrackerNetworkInfo};
use stlib::tracker::udp_connector::{
    make_announce_request, make_connection_request, parse_announce_response,
    parse_connect_response, read_timeout_secs, Action, AnnounceReply, ConnectReply, UdpAction,
    UdpEvent, UdpPhase, UdpTrackerConnector, CONNECT_REQUEST_PROTOCOL_ID,
};
use stlib::tracker::{TrackerAnnounceRequest, TrackerEvent};

fn request() -> TrackerAnnounceRequest {
    TrackerAnnounceRequest {
        url: String::from("udp:tracker.example.org:6969"),
        peer_id: [0x22; 20],
        info_hash: [0x11; 20],
        downloaded: 1,
        left: 0x0102_0304_0506_0708,
        uploaded: 3,
        event: TrackerEvent::Started,
        port: 6881,
    }
}

fn connect_response(transaction_id: u32, connection_id: u64) -> Vec<u8> {
    let mut packet = vec![0, 0, 0, 0];
    packet.extend_from_slice(&transaction_id.to_be_bytes());
    packet.extend_from_slice(&connection_id.to_be_bytes());
    packet
}

fn announce_response(transaction_id: u32) -> Vec<u8> {
    let mut packet = vec![0, 0, 0, 1];
    packet.extend_from_slice(&transaction_id.to_be_bytes());
    packet.extend_from_slice(&1800u32.to_be_bytes());
    packet.extend_from_slice(&4u32.to_be_bytes());
    packet.extend_from_slice(&9u32.to_be_bytes());
    packet.extend_from_slice(&[165, 232, 33, 77, 0xC9, 0x0B, 10, 0, 0, 1, 0x1A, 0xE1, 7]);
    packet
}

fn connect_request_bytes(transaction_id: u32) -> Vec<u8> {
    let mut bytes = vec![0, 0, 0x04, 0x17, 0x27, 0x10, 0x19, 0x80, 0, 0, 0, 0];
    bytes.extend_from_slice(&transaction_id.to_be_bytes());
    bytes
}

fn timeout_failure(context: &str) -> UdpAction {
    UdpAction::Failed(Error { kind: ErrorKind::Timeout, context: String::from(context) })
}

#[test]
fn test_connect_request_layout() {
    assert_eq!(CONNECT_REQUEST_PROTOCOL_ID, 0x41727101980);
    let packet = make_connection_request(0xDEAD_BEEF);
    assert_eq!(packet.len(), 16);
    assert_eq!(packet.to_vec(), connect_request_bytes(0xDEAD_BEEF));
    assert_eq!(Action::Connect.code(), 0);
    assert_eq!(Action::Announce.code(), 1);
}

#[test]
fn test_announce_request_layout() {
    let packet = make_announce_request(0x0A0B_0C0D_0E0F_1011, 0xDEAD_BEEF, 0xCAFE_F00D, &request());
    assert_eq!(packet.len(), 98);
    let mut expected = vec![0x0A, 0x0B, 0x0C, 0x0D, 0x0E, 0x0F, 0x10, 0x11];
    expected.extend_from_slice(&[0, 0, 0, 1]);
    expected.extend_from_slice(&[0xDE, 0xAD, 0xBE, 0xEF]);
    expected.extend_from_slice(&[0x11; 20]);
    expected.extend_from_slice(&[0x22; 20]);
    expected.extend_from_slice(&[0, 0, 0, 0, 0, 0, 0, 1]);
    expected.extend_from_slice(&[1, 2, 3, 4, 5, 6, 7, 8]);
    expected.extend_from_slice(&[0, 0, 0, 0, 0, 0, 0, 3]);
    expected.extend_from_slice(&[0, 0, 0, 2]);
    expected.extend_from_slice(&[0, 0, 0, 0]);
    expected.extend_from_slice(&[0xCA, 0xFE, 0xF0, 0x0D]);
    expected.extend_from_slice(&[0xFF, 0xFF, 0xFF, 0xFF]);
    expected.extend_from_slice(&[0x1A, 0xE1]);
    assert_eq!(packet.to_vec(), expected);
}

#[test]
fn test_read_timeouts_double_from_fifteen_seconds() {
    let timeouts: Vec<u64> = (0..9).map(read_timeout_secs).collect();
    assert_eq!(timeouts, vec![15, 30, 60, 120, 240, 480, 960, 1920, 3840]);
    assert_eq!(read_timeout_secs(9), 3840);
    assert_eq!(read_timeout_secs(u32::MAX), 3840);
}

#[test]
fn test_connect_response_is_classified() {
    assert_eq!(
        parse_connect_response(&connect_response(7, 0x1122_3344_5566_7788), 7),
        ConnectReply::Connected { connection_id: 0x1122_3344_5566_7788 }
    );
    assert_eq!(parse_connect_response(&connect_response(8, 1), 7), ConnectReply::Mismatch);
    let mut wrong_action = connect_response(7, 1);
    wrong_action[3] = 1;
    assert_eq!(parse_connect_response(&wrong_action, 7), ConnectReply::Mismatch);
    assert_eq!(parse_connect_response(&connect_response(7, 1)[..15], 7), ConnectReply::TooShort);
    assert_eq!(parse_connect_response(&[], 7), ConnectReply::TooShort);
    let mut longer = connect_response(7, 5);
    longer.push(0xFF);
    assert_eq!(parse_connect_response(&longer, 7), ConnectReply::Connected { connection_id: 5 });
}

#[test]
fn test_announce_response_is_classified() {
    let info = TrackerNetworkInfo {
        interval: 1800,
        leechers: Some(4),
        seeders: Some(9),
        peers: vec![
            PeerInfo {
                socket_addr: SocketAddress {
                    ip: IpAddress::V4(u32::from_be_bytes([165, 232, 33, 77])),
                    port: 51467,
                },
            },
            PeerInfo {
                socket_addr: SocketAddress {
                    ip: IpAddress::V4(u32::from_be_bytes([10, 0, 0, 1])),
                    port: 6881,
                },
            },
        ],
    };
    assert_eq!(parse_announce_response(&announce_response(7), 7), AnnounceReply::Announced(info));
    assert_eq!(parse_announce_response(&announce_response(8), 7), AnnounceReply::Mismatch);
    let mut wrong_action = announce_response(7);
    wrong_action[3] = 0;
    assert_eq!(parse_announce_response(&wrong_action, 7), AnnounceReply::Mismatch);
    assert_eq!(parse_announce_response(&announce_response(7)[..19], 7), AnnounceReply::TooShort);
    match parse_announce_response(&announce_response(7)[..20], 7) {
        AnnounceReply::Announced(info) => assert!(info.peers.is_empty()),
        other => panic!("not announced: {:?}", other),
    }
}

#[test]
fn test_new_connector_is_idle_without_connection() {
    let connector = UdpTrackerConnector::new();
    assert_eq!(connector, UdpTrackerConnector::with_key(connector.key));
    assert_eq!(connector.phase, UdpPhase::Idle);
    assert_eq!(connector.connection_id, None);
    assert_eq!(connector.usable_connection(0), None);
}

#[test]
fn test_exchange_with_an_answering_tracker() {
    let mut connector = UdpTrackerConnector::with_key(0xCAFE_F00D);
    let action = connector.step_with(&request(), UdpEvent::Start, 1000, 7);
    assert_eq!(action, UdpAction::Send { datagram: connect_request_bytes(7), timeout_secs: 15 });
    assert_eq!(connector.phase, UdpPhase::Connecting);

    let action =
        connector.step_with(&request(), UdpEvent::Received(connect_response(7, 0x55)), 1002, 8);
    assert_eq!(
        action,
        UdpAction::Send {
            datagram: make_announce_request(0x55, 8, 0xCAFE_F00D, &request()).to_vec(),
            timeout_secs: 15,
        }
    );
    assert_eq!(connector.phase, UdpPhase::Announcing);
    assert_eq!(connector.connection_id, Some(0x55));
    assert_eq!(connector.last_connect_timestamp, 1002);

    let action =
        connector.step_with(&request(), UdpEvent::Received(announce_response(8)), 1003, 9);
    match action {
        UdpAction::Done(info) => {
            assert_eq!(info.interval, 1800);
            assert_eq!(info.leechers, Some(4));
            assert_eq!(info.seeders, Some(9));
            assert_eq!(info.peers.len(), 2);
        }
        other => panic!("not done: {:?}", other),
    }
    assert_eq!(connector.phase, UdpPhase::Finished);
}

#[test]
fn test_connect_response_with_foreign_transaction_id_is_not_accepted() {
    let mut connector = UdpTrackerConnector::with_key(1);
    connector.step_with(&request(), UdpEvent::Start, 0, 7);
    let before = connector;
    let action =
        connector.step_with(&request(), UdpEvent::Received(connect_response(8, 0xBAD)), 3, 9);
    assert_eq!(action, UdpAction::KeepWaiting);
    assert_eq!(connector, before);
    assert_eq!(connector.connection_id, None);
    assert_eq!(connector.phase, UdpPhase::Connecting);

    let action = connector.step_with(&request(), UdpEvent::TimedOut, 15, 10);
    assert_eq!(action, UdpAction::Send { datagram: connect_request_bytes(7), timeout_secs: 30 });
    let action =
        connector.step_with(&request(), UdpEvent::Received(connect_response(7, 0x600D)), 16, 11);
    assert!(matches!(action, UdpAction::Send { timeout_secs: 15, .. }));
    assert_eq!(connector.connection_id, Some(0x600D));
}

#[test]
fn test_announce_response_with_foreign_transaction_id_is_not_accepted() {
    let mut connector = UdpTrackerConnector::with_key(1);
    connector.step_with(&request(), UdpEvent::Start, 0, 7);
    connector.step_with(&request(), UdpEvent::Received(connect_response(7, 5)), 1, 8);
    let before = connector;
    let action = connector.step_with(&request(), UdpEvent::Received(announce_response(9)), 2, 10);
    assert_eq!(action, UdpAction::KeepWaiting);
    assert_eq!(connector, before);
}

#[test]
fn test_silent_tracker_fails_after_nine_attempts() {
    let mut connector = UdpTrackerConnector::with_key(1);
    let mut timeouts = Vec::new();
    let mut now = 0u64;
    let mut action = connector.step_with(&request(), UdpEvent::Start, now, 7);
    let mut events = 0;
    loop {
        match action {
            UdpAction::Send { datagram, timeout_secs } => {
                assert_eq!(datagram, connect_request_bytes(7));
                timeouts.push(timeout_secs);
                now += timeout_secs;
            }
            other => {
                assert_eq!(other, timeout_failure("Connect request timed out"));
                break;
            }
        }
        events += 1;
        assert!(events < 100);
        action = connector.step_with(&request(), UdpEvent::TimedOut, now, 100 + events);
    }
    assert_eq!(timeouts, vec![15, 30, 60, 120, 240, 480, 960, 1920, 3840]);
    assert_eq!(connector.phase, UdpPhase::Finished);
    assert_eq!(connector.connection_id, None);
}

#[test]
fn test_tracker_that_falls_silent_after_connect() {
    let mut connector = UdpTrackerConnector::with_key(1);
    connector.step_with(&request(), UdpEvent::Start, 0, 7);
    connector.step_with(&request(), UdpEvent::Received(connect_response(7, 5)), 0, 8);
    let mut now = 0u64;
    let mut waits = vec![15u64];
    let mut sends = Vec::new();
    let mut fresh = 100;
    let last = loop {
        now += waits.last().unwrap();
        fresh += 1;
        match connector.step_with(&request(), UdpEvent::TimedOut, now, fresh) {
            UdpAction::Send { datagram, timeout_secs } => {
                sends.push(datagram.len());
                waits.push(timeout_secs);
            }
            other => break other,
        }
        assert!(waits.len() < 100);
    };
    assert_eq!(last, timeout_failure("Connect request timed out"));
    assert_eq!(sends[0], 98);
    assert_eq!(waits[1], 30);
    assert_eq!(sends[1], 98);
    assert_eq!(waits[2], 60);
    assert_eq!(sends[2], 16);
    assert_eq!(waits[3], 15);
    assert_eq!(connector.announce_multiplier, 3);
    assert_eq!(connector.phase, UdpPhase::Finished);
}

#[test]
fn test_announce_attempts_run_out() {
    let mut connector = UdpTrackerConnector::with_key(1);
    connector.connection_id = Some(5);
    connector.last_connect_timestamp = 0;
    let action = connector.step_with(&request(), UdpEvent::Start, 0, 7);
    assert!(matches!(action, UdpAction::Send { timeout_secs: 15, .. }));
    assert_eq!(connector.phase, UdpPhase::Announcing);
    let mut waits = Vec::new();
    let last = loop {
        match connector.step_with(&request(), UdpEvent::TimedOut, 0, 9) {
            UdpAction::Send { datagram, timeout_secs } => {
                assert_eq!(datagram.len(), 98);
                waits.push(timeout_secs);
            }
            other => break other,
        }
    };
    assert_eq!(waits, vec![30, 60, 120, 240, 480, 960, 1920, 3840]);
    assert_eq!(last, timeout_failure("Announce request timed out"));
}

#[test]
fn test_connection_id_is_good_for_less_than_a_minute() {
    let mut connector = UdpTrackerConnector::with_key(1);
    connector.connection_id = Some(5);
    connector.last_connect_timestamp = 100;
    assert_eq!(connector.usable_connection(100), Some(5));
    assert_eq!(connector.usable_connection(159), Some(5));
    assert_eq!(connector.usable_connection(160), None);
    assert_eq!(connector.usable_connection(99), Some(5));
    let action = connector.step_with(&request(), UdpEvent::Start, 159, 7);
    assert!(matches!(action, UdpAction::Send { ref datagram, .. } if datagram.len() == 98));
    let action = connector.step_with(&request(), UdpEvent::Start, 160, 7);
    assert_eq!(action, UdpAction::Send { datagram: connect_request_bytes(7), timeout_secs: 15 });
}

#[test]
fn test_short_responses_end_the_exchange() {
    let mut connector = UdpTrackerConnector::with_key(1);
    connector.step_with(&request(), UdpEvent::Start, 0, 7);
    let action = connector.step_with(&request(), UdpEvent::Received(vec![0; 15]), 0, 8);
    assert_eq!(
        action,
        UdpAction::Failed(Error {
            kind: ErrorKind::MalformedMessage,
            context: String::from("Connect response too short"),
        })
    );
    assert_eq!(connector.phase, UdpPhase::Finished);

    let mut connector = UdpTrackerConnector::with_key(1);
    connector.step_with(&request(), UdpEvent::Start, 0, 7);
    connector.step_with(&request(), UdpEvent::Received(connect_response(7, 5)), 0, 8);
    let action = connector.step_with(&request(), UdpEvent::Received(vec![0; 19]), 0, 9);
    assert_eq!(
        action,
        UdpAction::Failed(Error {
            kind: ErrorKind::MalformedMessage,
            context: String::from("Announce response too short"),
        })
    );
}

#[test]
fn test_transport_failure_and_events_without_exchange() {
    let mut connector = UdpTrackerConnector::with_key(1);
    let action = connector.step_with(&request(), UdpEvent::TimedOut, 0, 7);
    assert_eq!(
        action,
        UdpAction::Failed(Error {
            kind: ErrorKind::ProtocolMismatch,
            context: String::from("No exchange in progress"),
        })
    );
    assert_eq!(connector.phase, UdpPhase::Idle);
    let action = connector.step_with(&request(), UdpEvent::Received(vec![]), 0, 7);
    assert!(matches!(action, UdpAction::Failed(Error { kind: ErrorKind::ProtocolMismatch, .. })));
    connector.step_with(&request(), UdpEvent::Start, 0, 7);
    let action = connector.step_with(
        &request(),
        UdpEvent::TransportFailed(String::from("connection refused")),
        0,
        8,
    );
    assert_eq!(
        action,
        UdpAction::Failed(Error {
            kind: ErrorKind::TransportFailure,
            context: String::from("connection refused"),
        })
    );
    assert_eq!(connector.phase, UdpPhase::Finished);
}

#[test]
fn test_step_draws_its_own_transaction_ids() {
    let mut connector = UdpTrackerConnector::new();
    match connector.step(&request(), UdpEvent::Start, 0) {
        UdpAction::Send { datagram, timeout_secs } => {
            assert_eq!(timeout_secs, 15);
            assert_eq!(datagram, connect_request_bytes(connector.transaction_id));
        }
        other => panic!("not a send: {:?}", other),
    }
}
