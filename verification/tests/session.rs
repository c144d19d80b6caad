use bit_vec::BitVec;
use stlib::error::{Error, ErrorKind};
use stlib::model::message::PeerMessage;
use stlib::peer::handshake::make_handshake;
use stlib::peer::peer::{Block, BlockRequest, Peer, PeerState};

const INFO_HASH: [u8; 20] = [7u8; 20];
const LOCAL_ID: [u8; 20] = [1u8; 20];
const REMOTE_ID: [u8; 20] = [2u8; 20];

fn frame(message: PeerMessage) -> Vec<u8> {
    message.encode().unwrap()
}

fn shaken() -> Peer {
    let mut peer = Peer::new(0x0A00_0001, 6881);
    assert_eq!(peer.connected(&INFO_HASH, &LOCAL_ID), Some(make_handshake(&INFO_HASH, &LOCAL_ID)));
    assert_eq!(peer.handshake_received(&make_handshake(&INFO_HASH, &REMOTE_ID), &INFO_HASH), Ok(()));
    peer
}

fn requesting() -> Peer {
    let mut peer = shaken();
    peer.receive(&frame(PeerMessage::Bitfield(BitVec::from_bytes(&[0b1010_0000])))).unwrap();
    peer.interested().unwrap();
    peer.receive(&frame(PeerMessage::Unchoke)).unwrap();
    assert_eq!(peer.state(), PeerState::Requesting);
    peer
}

#[test]
fn test_new_peer_defaults() {
    let peer = Peer::new(0x0A00_0001, 6881);
    assert_eq!(peer.ip, 0x0A00_0001);
    assert_eq!(peer.port, 6881);
    assert_eq!(peer.id, [0u8; 20]);
    assert_eq!(peer.state(), PeerState::Connecting);
    assert!(peer.is_choked());
    assert!(peer.is_choking());
    assert!(!peer.is_interested());
    assert!(!peer.is_remote_interested());
    assert!(!peer.has_piece(0));
    assert!(peer.requests().is_empty());
    assert_eq!(peer.error(), None);
}

#[test]
fn test_session_walks_through_its_states() {
    let mut peer = Peer::new(1, 2);
    assert!(peer.connected(&INFO_HASH, &LOCAL_ID).is_some());
    assert_eq!(peer.state(), PeerState::Handshaking);
    peer.handshake_received(&make_handshake(&INFO_HASH, &REMOTE_ID), &INFO_HASH).unwrap();
    assert_eq!(peer.state(), PeerState::AwaitingBitfield);
    assert_eq!(peer.id, REMOTE_ID);
    let bits = BitVec::from_bytes(&[0b1010_0000]);
    assert_eq!(peer.receive(&frame(PeerMessage::Bitfield(bits))), Ok(None));
    assert_eq!(peer.state(), PeerState::Idle);
    assert!(peer.has_piece(0));
    assert!(!peer.has_piece(1));
    assert!(peer.has_piece(2));
    assert!(!peer.has_piece(8));
    assert!(!peer.has_piece(u32::MAX));
    assert_eq!(peer.interested(), Some(vec![0, 0, 0, 1, 2]));
    assert_eq!(peer.state(), PeerState::Interested);
    assert!(peer.is_interested());
    assert_eq!(peer.receive(&frame(PeerMessage::Unchoke)), Ok(None));
    assert_eq!(peer.state(), PeerState::Requesting);
    assert!(!peer.is_choked());
    assert_eq!(peer.receive(&frame(PeerMessage::Choke)), Ok(None));
    assert_eq!(peer.state(), PeerState::Idle);
    assert!(peer.is_choked());
}

#[test]
fn test_events_out_of_turn_change_nothing() {
    let mut peer = Peer::new(1, 2);
    assert_eq!(peer.interested(), None);
    assert_eq!(
        peer.receive(&frame(PeerMessage::Unchoke)),
        Err(Error { kind: ErrorKind::ProtocolMismatch, context: String::from("No message awaited") })
    );
    assert_eq!(
        peer.handshake_received(&make_handshake(&INFO_HASH, &REMOTE_ID), &INFO_HASH),
        Err(Error {
            kind: ErrorKind::ProtocolMismatch,
            context: String::from("No handshake awaited"),
        })
    );
    assert_eq!(peer.request_block(BlockRequest { index: 0, begin: 0, length: 1 }), None);
    assert_eq!(peer.state(), PeerState::Connecting);
    assert_eq!(peer.error(), None);
    peer.connected(&INFO_HASH, &LOCAL_ID).unwrap();
    assert_eq!(peer.connected(&INFO_HASH, &LOCAL_ID), None);
    assert_eq!(peer.state(), PeerState::Handshaking);
}

#[test]
fn test_handshake_mismatch_closes_the_session() {
    let mut peer = Peer::new(1, 2);
    peer.connected(&INFO_HASH, &LOCAL_ID).unwrap();
    let expected =
        Error { kind: ErrorKind::ProtocolMismatch, context: String::from("info_hash is not equal") };
    assert_eq!(
        peer.handshake_received(&make_handshake(&[8u8; 20], &REMOTE_ID), &INFO_HASH),
        Err(expected.clone())
    );
    assert_eq!(peer.state(), PeerState::Closed);
    assert_eq!(peer.error(), Some(&expected));
    assert_eq!(peer.id, [0u8; 20]);
}

#[test]
fn test_malformed_frame_closes_the_session() {
    let mut peer = shaken();
    let expected =
        Error { kind: ErrorKind::MalformedMessage, context: String::from("Unknown message id") };
    assert_eq!(peer.receive(&[0, 0, 0, 1, 9]), Err(expected.clone()));
    assert_eq!(peer.state(), PeerState::Closed);
    assert_eq!(peer.error(), Some(&expected));
    assert!(peer.receive(&frame(PeerMessage::Unchoke)).is_err());
    assert_eq!(peer.error(), Some(&expected));
}

#[test]
fn test_transport_failure_closes_the_session_and_first_error_is_kept() {
    let mut peer = requesting();
    peer.request_block(BlockRequest { index: 0, begin: 0, length: 16384 }).unwrap();
    peer.failed(String::from("connection reset"));
    let expected =
        Error { kind: ErrorKind::TransportFailure, context: String::from("connection reset") };
    assert_eq!(peer.state(), PeerState::Closed);
    assert_eq!(peer.error(), Some(&expected));
    assert!(peer.requests().is_empty());
    peer.failed(String::from("again"));
    assert_eq!(peer.error(), Some(&expected));
}

#[test]
fn test_peer_without_bitfield_has_nothing_known() {
    let mut peer = shaken();
    assert_eq!(peer.receive(&frame(PeerMessage::Unchoke)), Ok(None));
    assert_eq!(peer.state(), PeerState::Idle);
    assert!(!peer.has_piece(0));
    assert!(!peer.is_choked());
    peer.receive(&frame(PeerMessage::Bitfield(BitVec::from_bytes(&[0xFF])))).unwrap();
    assert!(!peer.has_piece(0));
    assert_eq!(peer.interested(), Some(vec![0, 0, 0, 1, 2]));
    assert_eq!(peer.state(), PeerState::Requesting);
}

#[test]
fn test_interest_can_be_expressed_before_a_bitfield() {
    let mut peer = shaken();
    assert!(peer.interested().is_some());
    assert_eq!(peer.state(), PeerState::Interested);
    assert_eq!(peer.interested(), None);
}

#[test]
fn test_remote_interest_is_tracked() {
    let mut peer = shaken();
    peer.receive(&frame(PeerMessage::Interested)).unwrap();
    assert!(peer.is_remote_interested());
    peer.receive(&frame(PeerMessage::NotInterested)).unwrap();
    assert!(!peer.is_remote_interested());
    peer.receive(&frame(PeerMessage::KeepAlive)).unwrap();
    peer.receive(&frame(PeerMessage::Have(3))).unwrap();
    assert_eq!(peer.state(), PeerState::Idle);
}

#[test]
fn test_requests_go_only_to_a_serving_peer_that_holds_the_piece() {
    let mut peer = requesting();
    let request = BlockRequest { index: 2, begin: 16384, length: 100 };
    assert_eq!(
        peer.request_block(request),
        Some(vec![0, 0, 0, 13, 6, 0, 0, 0, 2, 0, 0, 0x40, 0, 0, 0, 0, 100])
    );
    assert_eq!(peer.requests(), &[request]);
    assert!(peer.has_request(2, 16384));
    assert!(!peer.has_request(2, 0));
    assert_eq!(peer.request_block(BlockRequest { index: 1, begin: 0, length: 100 }), None);
    assert_eq!(peer.requests(), &[request]);
    assert!(peer.request_block(request).is_some());
    assert_eq!(peer.requests(), &[request]);
}

#[test]
fn test_only_the_awaited_block_is_delivered() {
    let mut peer = requesting();
    peer.request_block(BlockRequest { index: 0, begin: 0, length: 3 }).unwrap();
    peer.request_block(BlockRequest { index: 0, begin: 16384, length: 3 }).unwrap();
    let stale = PeerMessage::Piece { index: 2, begin: 0, piece: vec![9, 9, 9] };
    assert_eq!(peer.receive(&frame(stale)), Ok(None));
    assert_eq!(peer.requests().len(), 2);
    let awaited = PeerMessage::Piece { index: 0, begin: 0, piece: vec![1, 2, 3] };
    assert_eq!(
        peer.receive(&frame(awaited)),
        Ok(Some(Block { index: 0, begin: 0, piece: vec![1, 2, 3] }))
    );
    assert_eq!(peer.requests(), &[BlockRequest { index: 0, begin: 16384, length: 3 }]);
    let again = PeerMessage::Piece { index: 0, begin: 0, piece: vec![1, 2, 3] };
    assert_eq!(peer.receive(&frame(again)), Ok(None));
}

#[test]
fn test_choke_voids_requests_in_flight() {
    let mut peer = requesting();
    peer.request_block(BlockRequest { index: 0, begin: 0, length: 3 }).unwrap();
    peer.receive(&frame(PeerMessage::Choke)).unwrap();
    assert_eq!(peer.state(), PeerState::Idle);
    assert!(peer.requests().is_empty());
    let late = PeerMessage::Piece { index: 0, begin: 0, piece: vec![1, 2, 3] };
    assert_eq!(peer.receive(&frame(late)), Ok(None));
    assert_eq!(peer.request_block(BlockRequest { index: 0, begin: 0, length: 3 }), None);
    assert!(peer.interested().is_some());
    assert_eq!(peer.state(), PeerState::Interested);
    peer.receive(&frame(PeerMessage::Unchoke)).unwrap();
    assert!(peer.request_block(BlockRequest { index: 0, begin: 0, length: 3 }).is_some());
}
