use byteorder::{BigEndian, ByteOrder};
use stlib::error::{Error, ErrorKind};
use stlib::util::bytes::{
    array_at, array_from_slice, bytes_eq, push_be_u16, push_be_u32, push_be_u64, push_bytes,
    read_be_u16, read_be_u32, read_be_u64,
};
use stlib::tracker::udp_connector::UdpTrackerConnector;
use stlib::util::common::{sha1_hash, split_tracker_address, TrackerTransport};
use stlib::util::text::{to_decimal, to_hexadecimal};

#[test]
fn test_hashing() {
    let bytes = b"hello world";
    let correct_hash = "2aae6c35c94fcfb415dbe95f408b9ce91ee846ed";
    assert_eq!(hex::encode(sha1_hash(bytes)), correct_hash);
}

#[test]
fn test_hashing_empty_input() {
    assert_eq!(hex::encode(sha1_hash(b"")), "da39a3ee5e6b4b0d3255bfef95601890afd80709");
}

#[test]
fn test_resolve_ipv4_addr_given_malformed_addr() {
    let addr = "random text";
    let err = split_tracker_address(addr).unwrap_err();
    assert_eq!(err.kind, ErrorKind::InvalidInput);
    assert_eq!(err.context, "Address should start with 'udp:' or 'http:'");
}

#[test]
fn test_split_tracker_address_given_ip_addr() {
    let addr = "udp:172.64.155.141:80";
    assert_eq!(split_tracker_address(addr), Ok((TrackerTransport::Udp, "172.64.155.141:80")));
}

#[test]
fn test_split_tracker_address_given_domain_name() {
    let addr = "http:google.com:80";
    assert_eq!(split_tracker_address(addr), Ok((TrackerTransport::Http, "google.com:80")));
}

#[test]
fn test_split_tracker_address_edge_cases() {
    assert_eq!(split_tracker_address("udp:"), Ok((TrackerTransport::Udp, "")));
    assert_eq!(split_tracker_address("http:"), Ok((TrackerTransport::Http, "")));
    assert!(split_tracker_address("").is_err());
    assert!(split_tracker_address("udp").is_err());
    assert!(split_tracker_address("https://example.org").is_err());
    assert!(split_tracker_address("UDP:1.2.3.4:5").is_err());
    assert_eq!(
        split_tracker_address("udp:h\u{e9}te:1"),
        Ok((TrackerTransport::Udp, "h\u{e9}te:1"))
    );
}

#[test]
fn test_big_endian_exact_bytes() {
    let mut out = Vec::new();
    push_be_u16(&mut out, 0xC90B);
    push_be_u32(&mut out, 0x0102_0304);
    push_be_u64(&mut out, 0x0000_0417_2710_1980);
    assert_eq!(out, vec![0xC9, 0x0B, 1, 2, 3, 4, 0, 0, 4, 0x17, 0x27, 0x10, 0x19, 0x80]);
    assert_eq!(read_be_u16(&out, 0), 51467);
    assert_eq!(read_be_u32(&out, 2), 0x0102_0304);
    assert_eq!(read_be_u64(&out, 6), 0x41727101980);
}

#[test]
fn test_big_endian_round_trip_extremes() {
    for n in [0u64, 1, 255, 256, u32::MAX as u64, u32::MAX as u64 + 1, u64::MAX] {
        let mut out = vec![9u8];
        push_be_u64(&mut out, n);
        assert_eq!(out.len(), 9);
        assert_eq!(read_be_u64(&out, 1), n);
        assert_eq!(out[1..], n.to_be_bytes());
    }
    for n in [0u32, 1, 0xFFFF, 0x1_0000, u32::MAX] {
        let mut out = Vec::new();
        push_be_u32(&mut out, n);
        assert_eq!(out, n.to_be_bytes());
        assert_eq!(read_be_u32(&out, 0), n);
    }
    for n in [0u16, 1, 255, 256, u16::MAX] {
        let mut out = Vec::new();
        push_be_u16(&mut out, n);
        assert_eq!(out, n.to_be_bytes());
        assert_eq!(read_be_u16(&out, 0), n);
    }
}

#[test]
fn test_big_endian_agrees_with_byteorder() {
    let samples = [0u64, 1, 0x80, 0x1234, 0xC90B, 0x0102_0304, 0x41727101980, u64::MAX - 1];
    for n in samples {
        let mut expected = [0u8; 8];
        BigEndian::write_u64(&mut expected, n);
        let mut out = Vec::new();
        push_be_u64(&mut out, n);
        assert_eq!(out, expected);
        assert_eq!(read_be_u64(&expected, 0), BigEndian::read_u64(&expected));

        let mut expected = [0u8; 4];
        BigEndian::write_u32(&mut expected, n as u32);
        let mut out = Vec::new();
        push_be_u32(&mut out, n as u32);
        assert_eq!(out, expected);
        assert_eq!(read_be_u32(&expected, 0), BigEndian::read_u32(&expected));

        let mut expected = [0u8; 2];
        BigEndian::write_u16(&mut expected, n as u16);
        let mut out = Vec::new();
        push_be_u16(&mut out, n as u16);
        assert_eq!(out, expected);
        assert_eq!(read_be_u16(&expected, 0), BigEndian::read_u16(&expected));
    }
    let mut minus_one = [0u8; 4];
    BigEndian::write_i32(&mut minus_one, -1);
    let mut out = Vec::new();
    push_be_u32(&mut out, stlib::tracker::udp_connector::NUM_WANT_DEFAULT);
    assert_eq!(out, minus_one);
}

#[test]
fn test_byte_helpers() {
    let bytes = [1u8, 2, 3, 4, 5, 6];
    let whole: [u8; 6] = array_from_slice(&bytes);
    assert_eq!(whole, bytes);
    let part: [u8; 3] = array_at(&bytes, 2);
    assert_eq!(part, [3, 4, 5]);
    assert!(bytes_eq(&bytes, &whole));
    assert!(!bytes_eq(&bytes, &bytes[..5]));
    assert!(!bytes_eq(&[1, 2, 3], &[1, 2, 4]));
    assert!(bytes_eq(&[], &[]));
    let mut out = vec![7u8];
    push_bytes(&mut out, &bytes[4..]);
    assert_eq!(out, vec![7, 5, 6]);
}

#[test]
fn test_decimal_exact_values() {
    assert_eq!(to_decimal(0), "0");
    assert_eq!(to_decimal(7), "7");
    assert_eq!(to_decimal(10), "10");
    assert_eq!(to_decimal(6881), "6881");
    assert_eq!(to_decimal(92063), "92063");
    assert_eq!(to_decimal(u64::MAX), "18446744073709551615");
}

#[test]
fn test_hexadecimal_exact_values() {
    assert_eq!(to_hexadecimal(0), "0");
    assert_eq!(to_hexadecimal(9), "9");
    assert_eq!(to_hexadecimal(10), "a");
    assert_eq!(to_hexadecimal(15), "f");
    assert_eq!(to_hexadecimal(16), "10");
    assert_eq!(to_hexadecimal(0xdb8), "db8");
    assert_eq!(to_hexadecimal(0xffff), "ffff");
    assert_eq!(to_hexadecimal(u64::MAX), "ffffffffffffffff");
}

#[test]
fn test_error_message() {
    let e = Error::new(ErrorKind::Timeout, "Connect request timed out");
    assert_eq!(e.kind, ErrorKind::Timeout);
    assert_eq!(e.context, "Connect request timed out");
    assert_eq!(e.message(), "timeout: Connect request timed out");
    assert_eq!(Error::new(ErrorKind::ProtocolMismatch, "x").message(), "protocol mismatch: x");
    assert_eq!(Error::new(ErrorKind::MalformedMessage, "").message(), "malformed message: ");
    assert_eq!(Error::new(ErrorKind::TrackerFailure, "gone").message(), "tracker failure: gone");
    assert_eq!(Error::new(ErrorKind::IntegrityFailure, "p").message(), "integrity failure: p");
    assert_eq!(Error::new(ErrorKind::TransportFailure, "r").message(), "transport failure: r");
    assert_eq!(Error::new(ErrorKind::InvalidInput, "d").message(), "invalid input: d");
    assert_eq!(Error::new(ErrorKind::Unsupported, "s").message(), "unsupported: s");
}

#[test]
fn test_connector_keys_vary() {
    let first = UdpTrackerConnector::new().key;
    let mut varied = false;
    for _ in 0..64 {
        if UdpTrackerConnector::new().key != first {
            varied = true;
        }
    }
    assert!(varied);
}
