use bit_vec::BitVec;
use stlib::error::ErrorKind;
use stlib::model::message::{
    frame_length, PeerMessage, BITFIELD, CANCEL, CHOKE, HAVE, INTERESTED, NOT_INTERESTED, PIECE,
    REQUEST, UNCHOKE,
};
use stlib::peer::handshake::{make_handshake, read_handshake, HANDSHAKE_LEN, PROTOCOL_NAME};

fn round_trip(message: PeerMessage) {
    let frame = message.encode().unwrap();
    let prefix: [u8; 4] = [frame[0], frame[1], frame[2], frame[3]];
    assert_eq!(frame_length(&prefix) as usize, frame.len() - 4);
    assert_eq!(PeerMessage::decode(&frame), Ok(message));
}

#[test]
fn test_message_ids() {
    assert_eq!(
        [CHOKE, UNCHOKE, INTERESTED, NOT_INTERESTED, HAVE, BITFIELD, REQUEST, PIECE, CANCEL],
        [0, 1, 2, 3, 4, 5, 6, 7, 8]
    );
}

#[test]
fn test_round_trip_of_every_variant() {
    round_trip(PeerMessage::Choke);
    round_trip(PeerMessage::Unchoke);
    round_trip(PeerMessage::Interested);
    round_trip(PeerMessage::NotInterested);
    round_trip(PeerMessage::Have(0));
    round_trip(PeerMessage::Have(0x0102_0304));
    round_trip(PeerMessage::Have(u32::MAX));
    round_trip(PeerMessage::Bitfield(BitVec::from_bytes(&[0b1010_0000, 0b0001_0010])));
    round_trip(PeerMessage::Bitfield(BitVec::new()));
    round_trip(PeerMessage::Request { index: 1, begin: 16384, length: 16384 });
    round_trip(PeerMessage::Request { index: u32::MAX, begin: u32::MAX, length: u32::MAX });
    round_trip(PeerMessage::Piece { index: 2, begin: 16384, piece: vec![1, 2, 3, 4, 5] });
    round_trip(PeerMessage::Piece { index: 0, begin: 0, piece: vec![] });
    round_trip(PeerMessage::Piece { index: 7, begin: 0, piece: vec![0xAB; 16384] });
    round_trip(PeerMessage::Cancel { index: 1, begin: 16384, length: 16384 });
    round_trip(PeerMessage::KeepAlive);
}

#[test]
fn test_exact_frames() {
    assert_eq!(PeerMessage::KeepAlive.encode().unwrap(), vec![0, 0, 0, 0]);
    assert_eq!(PeerMessage::Choke.encode().unwrap(), vec![0, 0, 0, 1, 0]);
    assert_eq!(PeerMessage::Unchoke.encode().unwrap(), vec![0, 0, 0, 1, 1]);
    assert_eq!(PeerMessage::Interested.encode().unwrap(), vec![0, 0, 0, 1, 2]);
    assert_eq!(PeerMessage::NotInterested.encode().unwrap(), vec![0, 0, 0, 1, 3]);
    assert_eq!(PeerMessage::Have(258).encode().unwrap(), vec![0, 0, 0, 5, 4, 0, 0, 1, 2]);
    assert_eq!(
        PeerMessage::Request { index: 1, begin: 16384, length: 10143 }.encode().unwrap(),
        vec![0, 0, 0, 13, 6, 0, 0, 0, 1, 0, 0, 0x40, 0, 0, 0, 0x27, 0x9F]
    );
    assert_eq!(
        PeerMessage::Cancel { index: 1, begin: 2, length: 3 }.encode().unwrap(),
        vec![0, 0, 0, 13, 8, 0, 0, 0, 1, 0, 0, 0, 2, 0, 0, 0, 3]
    );
    assert_eq!(
        PeerMessage::Piece { index: 1, begin: 2, piece: vec![9, 8] }.encode().unwrap(),
        vec![0, 0, 0, 11, 7, 0, 0, 0, 1, 0, 0, 0, 2, 9, 8]
    );
}

#[test]
fn test_bitfield_is_packed_most_significant_bit_first() {
    let mut bits = BitVec::from_elem(10, false);
    bits.set(0, true);
    bits.set(2, true);
    bits.set(9, true);
    let frame = PeerMessage::Bitfield(bits).encode().unwrap();
    assert_eq!(frame, vec![0, 0, 0, 3, 5, 0b1010_0000, 0b0100_0000]);
}

#[test]
fn test_bitfield_comes_back_padded_to_whole_bytes() {
    let mut bits = BitVec::from_elem(3, true);
    bits.set(1, false);
    let frame = PeerMessage::Bitfield(bits).encode().unwrap();
    assert_eq!(frame, vec![0, 0, 0, 2, 5, 0b1010_0000]);
    let back = PeerMessage::decode(&frame).unwrap();
    let mut padded = BitVec::from_elem(8, false);
    padded.set(0, true);
    padded.set(2, true);
    assert_eq!(back, PeerMessage::Bitfield(padded));
}

#[test]
fn test_decoded_bitfield_differs_from_its_bytes() {
    let frame = vec![0, 0, 0, 2, 5, 0b0110_0000];
    match PeerMessage::decode(&frame).unwrap() {
        PeerMessage::Bitfield(bits) => {
            assert_eq!(bits.len(), 8);
            assert_eq!(bits.get(0), Some(false));
            assert_eq!(bits.get(1), Some(true));
            assert_eq!(bits.get(2), Some(true));
            assert_eq!(bits.get(3), Some(false));
        }
        other => panic!("not a bit field: {:?}", other),
    }
}

fn assert_malformed(frame: &[u8], context: &str) {
    let err = PeerMessage::decode(frame).unwrap_err();
    assert_eq!(err.kind, ErrorKind::MalformedMessage);
    assert_eq!(err.context, context);
}

#[test]
fn test_have_frame_with_wrong_length_is_malformed() {
    assert_malformed(&[0, 0, 0, 4, 4, 0, 0, 1], "Wrong frame length for message id");
    assert_malformed(&[0, 0, 0, 6, 4, 0, 0, 1, 2, 3], "Wrong frame length for message id");
    assert_malformed(&[0, 0, 0, 1, 4], "Wrong frame length for message id");
}

#[test]
fn test_unknown_message_id_is_malformed() {
    assert_malformed(&[0, 0, 0, 1, 9], "Unknown message id");
    assert_malformed(&[0, 0, 0, 1, 255], "Unknown message id");
    assert_malformed(&[0, 0, 0, 5, 20, 0, 0, 0, 0], "Unknown message id");
}

#[test]
fn test_wrong_lengths_of_other_ids_are_malformed() {
    assert_malformed(&[0, 0, 0, 2, 0, 0], "Wrong frame length for message id");
    assert_malformed(&[0, 0, 0, 2, 1, 0], "Wrong frame length for message id");
    assert_malformed(&[0, 0, 0, 2, 2, 0], "Wrong frame length for message id");
    assert_malformed(&[0, 0, 0, 2, 3, 0], "Wrong frame length for message id");
    assert_malformed(
        &[0, 0, 0, 12, 6, 0, 0, 0, 1, 0, 0, 0, 2, 0, 0, 0],
        "Wrong frame length for message id",
    );
    assert_malformed(
        &[0, 0, 0, 14, 8, 0, 0, 0, 1, 0, 0, 0, 2, 0, 0, 0, 3, 4],
        "Wrong frame length for message id",
    );
    assert_malformed(&[0, 0, 0, 8, 7, 0, 0, 0, 1, 0, 0, 0], "Wrong frame length for message id");
}

#[test]
fn test_frames_that_disagree_with_their_prefix_are_malformed() {
    assert_malformed(&[], "Frame length disagrees with its prefix");
    assert_malformed(&[0, 0, 0], "Frame length disagrees with its prefix");
    assert_malformed(&[0, 0, 0, 1], "Frame length disagrees with its prefix");
    assert_malformed(&[0, 0, 0, 0, 0], "Frame length disagrees with its prefix");
    assert_malformed(&[0, 0, 0, 5, 4, 0, 0, 1], "Frame length disagrees with its prefix");
    assert_malformed(&[0, 0, 0, 1, 0, 0], "Frame length disagrees with its prefix");
}

#[test]
fn test_frame_length_reads_the_prefix() {
    assert_eq!(frame_length(&[0, 0, 0, 0]), 0);
    assert_eq!(frame_length(&[0, 0, 0x40, 9]), 16393);
    assert_eq!(frame_length(&[255, 255, 255, 255]), u32::MAX);
}

#[test]
fn test_handshake_layout() {
    let info_hash: [u8; 20] = hex::decode("d69f91e6b2ae4c542468d1073a71d4ea13879a7f")
        .unwrap()
        .try_into()
        .unwrap();
    let peer_id = *b"00112233445566778899";
    let first = make_handshake(&info_hash, &peer_id);
    let second = make_handshake(&info_hash, &peer_id);
    assert_eq!(first, second);
    assert_eq!(first.len(), 68);
    assert_eq!(HANDSHAKE_LEN, 68);
    assert_eq!(first[0], 19);
    assert_eq!(&first[1..20], b"BitTorrent protocol");
    assert_eq!(&PROTOCOL_NAME, b"BitTorrent protocol");
    assert_eq!(&first[20..28], &[0u8; 8]);
    assert_eq!(&first[28..48], &info_hash);
    assert_eq!(&first[48..68], &peer_id);
}

#[test]
fn test_handshake_is_read_back() {
    let info_hash = [7u8; 20];
    let peer_id = *b"-ST0001-abcdefghijkl";
    let bytes = make_handshake(&info_hash, &peer_id);
    assert_eq!(read_handshake(&bytes, &info_hash), Ok(peer_id));
}

#[test]
fn test_handshake_for_another_resource_is_a_protocol_mismatch() {
    let peer_id = *b"-ST0001-abcdefghijkl";
    let bytes = make_handshake(&[7u8; 20], &peer_id);
    let mut other = [7u8; 20];
    other[19] = 8;
    let err = read_handshake(&bytes, &other).unwrap_err();
    assert_eq!(err.kind, ErrorKind::ProtocolMismatch);
    assert_eq!(err.context, "info_hash is not equal");
}

#[test]
fn test_handshake_of_wrong_length_is_malformed() {
    let bytes = make_handshake(&[7u8; 20], &[1u8; 20]);
    for reply in [&bytes[..67], &[][..], &[bytes.as_slice(), &[0u8]].concat()[..]] {
        let err = read_handshake(reply, &[7u8; 20]).unwrap_err();
        assert_eq!(err.kind, ErrorKind::MalformedMessage);
        assert_eq!(err.context, "Handshake is not 68 bytes long");
    }
}

#[test]
fn test_handshake_ignores_protocol_name_and_reserved_bytes() {
    let mut bytes = make_handshake(&[7u8; 20], &[1u8; 20]);
    bytes[0] = 0;
    bytes[5] = b'X';
    bytes[25] = 0xFF;
    assert_eq!(read_handshake(&bytes, &[7u8; 20]), Ok([1u8; 20]));
}
