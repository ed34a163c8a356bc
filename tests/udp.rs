use bytes::BytesMut;
use trojan_core::codec::{generate_udp_header, Address};
use trojan_core::status::ConnStatus;
use trojan_core::udp::{SendOutcome, UdpBackend};

fn frame(addr: &Address, payload: &[u8]) -> Vec<u8> {
    let mut buf = BytesMut::new();
    generate_udp_header(&mut buf, addr, payload.len() as u16);
    let mut out = buf.as_ref().to_vec();
    out.extend_from_slice(payload);
    out
}

fn backend() -> UdpBackend {
    UdpBackend::new(300, Address::V4([127, 0, 0, 1], 4000), 60_000)
}

#[test]
fn udp_domain_name_target_one_send() {
    let mut b = backend();
    let mut data = vec![0x03, 0x0B];
    data.extend_from_slice(b"www.example");
    data.extend_from_slice(&[0x00, 0x35, 0x00, 0x20]);
    data.extend_from_slice(&[0x5A; 32]);
    b.dispatch(&data);
    let d = b.next_datagram().unwrap();
    match &d.address {
        Address::Domain(name, port) => {
            assert_eq!(name.as_slice(), b"www.example");
            assert_eq!(*port, 53);
        }
        _ => panic!("not a domain target"),
    }
    assert_eq!(&b.pending()[d.payload_start..d.payload_start + d.length], &[0x5A; 32]);
    b.datagram_sent(&d, SendOutcome::Sent(32));
    assert_eq!(b.bytes_sent(), 32);
    assert!(b.finish_send());
    assert!(b.next_datagram().is_none());
    assert_eq!(b.get_status(), ConnStatus::Established);
}

#[test]
fn truncated_udp_payload_stops_flow() {
    let mut b = backend();
    let a = Address::V4([8, 8, 8, 8], 53);
    let mut data = frame(&a, &[1u8; 10]);
    data.extend_from_slice(&frame(&a, &[2u8; 4]));
    b.dispatch(&data);
    let d = b.next_datagram().unwrap();
    b.datagram_sent(&d, SendOutcome::Sent(9));
    assert_eq!(b.get_status(), ConnStatus::Shutdown);
    assert_eq!(b.bytes_sent(), 9);
    assert!(b.next_datagram().is_none());
    assert!(b.finish_send());
    b.dispatch(&frame(&a, &[3u8; 2]));
    assert!(b.next_datagram().is_none());
    assert_eq!(b.bytes_sent(), 9);
}

#[test]
fn frames_become_datagrams_in_order() {
    let mut b = backend();
    let a = Address::V4([1, 1, 1, 1], 1);
    let c = Address::Domain(b"q".to_vec(), 2);
    let mut data = frame(&a, b"first");
    data.extend_from_slice(&frame(&c, b"second"));
    let split = data.len() - 3;
    b.dispatch(&data[..split]);
    let d = b.next_datagram().unwrap();
    assert_eq!(&b.pending()[d.payload_start..d.payload_start + d.length], b"first");
    b.datagram_sent(&d, SendOutcome::Sent(5));
    assert!(b.next_datagram().is_none());
    assert_eq!(b.get_status(), ConnStatus::Established);
    b.dispatch(&data[split..]);
    let d = b.next_datagram().unwrap();
    assert_eq!(d.address.port(), 2);
    assert_eq!(&b.pending()[d.payload_start..d.payload_start + d.length], b"second");
    b.datagram_sent(&d, SendOutcome::WouldBlock);
    let again = b.next_datagram().unwrap();
    assert_eq!(again.length, 6);
    b.datagram_sent(&again, SendOutcome::Sent(6));
    assert!(b.finish_send());
    assert_eq!(b.bytes_sent(), 11);
}

#[test]
fn invalid_frame_shuts_backend() {
    let mut b = backend();
    b.dispatch(&[9, 1, 2, 3]);
    assert!(b.next_datagram().is_none());
    assert_eq!(b.get_status(), ConnStatus::Shutdown);
    assert!(b.finish_send());
    assert!(b.check_status());
    assert_eq!(b.get_status(), ConnStatus::Deregistered);
}

#[test]
fn send_error_shuts_backend() {
    let mut b = backend();
    b.dispatch(&frame(&Address::V4([1, 2, 3, 4], 5), b"x"));
    let d = b.next_datagram().unwrap();
    b.datagram_sent(&d, SendOutcome::Failed);
    assert_eq!(b.get_status(), ConnStatus::Shutdown);
    assert!(b.finish_send());
    assert_eq!(b.bytes_sent(), 0);
}

#[test]
fn received_datagram_gets_header() {
    let mut b = backend();
    b.datagram_received(Address::V4([10, 0, 0, 2], 5353), 32);
    assert_eq!(b.head(), &[1, 10, 0, 0, 2, 0x14, 0xE9, 0, 32]);
    assert_eq!(b.bytes_read(), 32);
    b.datagram_received(Address::V4([10, 0, 0, 3], 1), 0);
    assert_eq!(b.head(), &[1, 10, 0, 0, 3, 0, 1, 0, 0]);
    assert_eq!(b.bytes_read(), 32);
}

#[test]
fn partial_frame_waits_for_rest() {
    let mut b = backend();
    let data = frame(&Address::V6([1u8; 16], 443), &[4u8; 3]);
    for k in 0..data.len() {
        b.dispatch(&data[k..k + 1]);
        if k + 1 < data.len() {
            assert!(b.next_datagram().is_none());
            assert_eq!(b.get_status(), ConnStatus::Established);
        }
    }
    let d = b.next_datagram().unwrap();
    assert_eq!(d.payload_start, 21);
    assert_eq!(d.length, 3);
}

#[test]
fn udp_shutdown_then_check_status() {
    let mut b = backend();
    assert_eq!(b.get_timeout(), 60_000);
    b.shutdown();
    assert!(b.check_status());
    assert_eq!(b.get_status(), ConnStatus::Deregistered);
}
