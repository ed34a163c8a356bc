use bytes::BytesMut;
use trojan_core::codec::{
    address_bytes, generate_request, generate_udp_header, parse_udp, Address, UdpParse, CONNECT,
    UDP_ASSOCIATE,
};

fn frame(addr: &Address, payload: &[u8]) -> Vec<u8> {
    let mut buf = BytesMut::new();
    generate_udp_header(&mut buf, addr, payload.len() as u16);
    let mut out = buf.as_ref().to_vec();
    out.extend_from_slice(payload);
    out
}

fn same_address(a: &Address, b: &Address) -> bool {
    match (a, b) {
        (Address::V4(x, p), Address::V4(y, q)) => x == y && p == q,
        (Address::V6(x, p), Address::V6(y, q)) => x == y && p == q,
        (Address::Domain(x, p), Address::Domain(y, q)) => x == y && p == q,
        _ => false,
    }
}

#[test]
fn connect_request_ipv4() {
    let mut buf = BytesMut::new();
    generate_request(&mut buf, CONNECT, &Address::V4([192, 0, 2, 10], 443));
    assert_eq!(buf.as_ref(), &[0x01, 0x01, 0xC0, 0x00, 0x02, 0x0A, 0x01, 0xBB]);
}

#[test]
fn connect_request_appends() {
    let mut buf = BytesMut::new();
    buf.extend_from_slice(b"ab");
    generate_request(&mut buf, UDP_ASSOCIATE, &Address::Domain(b"x.io".to_vec(), 80));
    assert_eq!(buf.as_ref(), &[b'a', b'b', 3, 3, 4, b'x', b'.', b'i', b'o', 0, 80]);
}

#[test]
fn connect_request_ipv6() {
    let mut ip = [0u8; 16];
    ip[0] = 0x20;
    ip[1] = 0x01;
    ip[15] = 1;
    let mut buf = BytesMut::new();
    generate_request(&mut buf, CONNECT, &Address::V6(ip, 8080));
    let mut expected = vec![1u8, 4];
    expected.extend_from_slice(&ip);
    expected.extend_from_slice(&[0x1F, 0x90]);
    assert_eq!(buf.as_ref(), expected.as_slice());
}

#[test]
fn udp_header_bytes() {
    let mut buf = BytesMut::new();
    generate_udp_header(&mut buf, &Address::V4([10, 0, 0, 1], 53), 300);
    assert_eq!(buf.as_ref(), &[1, 10, 0, 0, 1, 0, 53, 1, 44]);
    assert_eq!(address_bytes(&Address::V4([10, 0, 0, 1], 53)), vec![1, 10, 0, 0, 1, 0, 53]);
}

#[test]
fn udp_round_trip_all_kinds_and_lengths() {
    let mut v6 = [0u8; 16];
    for (i, b) in v6.iter_mut().enumerate() {
        *b = i as u8 * 3;
    }
    let addrs = vec![
        Address::V4([1, 2, 3, 4], 0),
        Address::V6(v6, 65535),
        Address::Domain(b"www.example".to_vec(), 53),
        Address::Domain(Vec::new(), 7),
    ];
    for addr in &addrs {
        for len in [0usize, 1, 65535] {
            let payload: Vec<u8> = (0..len).map(|i| (i % 251) as u8).collect();
            let mut data = frame(addr, &payload);
            let frame_len = data.len();
            data.extend_from_slice(b"tail");
            match parse_udp(&data) {
                UdpParse::Packet { address, payload_start, length } => {
                    assert!(same_address(&address, addr));
                    assert_eq!(length, len);
                    assert_eq!(payload_start + length, frame_len);
                    assert_eq!(&data[payload_start..payload_start + length], payload.as_slice());
                }
                _ => panic!("whole frame not decoded"),
            }
        }
    }
}

#[test]
fn udp_prefix_is_continued() {
    let addrs = vec![
        Address::V4([9, 9, 9, 9], 1),
        Address::V6([7u8; 16], 2),
        Address::Domain(b"abc".to_vec(), 3),
    ];
    for addr in &addrs {
        let data = frame(addr, &[5u8; 10]);
        for k in 0..data.len() {
            assert!(matches!(parse_udp(&data[..k]), UdpParse::Continued));
        }
    }
}

#[test]
fn udp_unknown_type_is_invalid() {
    assert!(matches!(parse_udp(&[2, 0, 0]), UdpParse::Invalid));
    assert!(matches!(parse_udp(&[0]), UdpParse::Invalid));
    assert!(matches!(parse_udp(&[]), UdpParse::Continued));
}

#[test]
fn udp_domain_target() {
    let mut data = vec![0x03, 0x0B];
    data.extend_from_slice(b"www.example");
    data.extend_from_slice(&[0x00, 0x35, 0x00, 0x20]);
    data.extend_from_slice(&[0xAA; 32]);
    match parse_udp(&data) {
        UdpParse::Packet { address, payload_start, length } => {
            assert!(same_address(&address, &Address::Domain(b"www.example".to_vec(), 53)));
            assert_eq!(payload_start, 17);
            assert_eq!(length, 32);
            assert_eq!(payload_start + length, data.len());
        }
        _ => panic!("domain frame not decoded"),
    }
}
