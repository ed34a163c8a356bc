//! The envelope carried over the tunnel: a connect request that names the
//! original destination, and the frames that carry UDP datagrams.
use crate::buffer::{buf_bytes, buf_extend};
use bytes::BytesMut;
use vstd::prelude::*;

verus! {

/// Address type of an IPv4 address on the wire.
pub const ATYP_IPV4: u8 = 1;

/// Address type of a length-prefixed domain name on the wire.
pub const ATYP_DOMAIN: u8 = 3;

/// Address type of an IPv6 address on the wire.
pub const ATYP_IPV6: u8 = 4;

/// Command byte of a TCP connect request.
pub const CONNECT: u8 = 1;

/// Command byte of a UDP-associate request.
pub const UDP_ASSOCIATE: u8 = 3;

/// Size of the scratch buffers that receive from a socket.
pub const MAX_PACKET_SIZE: usize = 65535;

/// A destination: an address and a port.
pub enum Address {
    V4([u8; 4], u16),
    V6([u8; 16], u16),
    Domain(Vec<u8>, u16),
}

/// The abstract address: its wire type, its host bytes and its port.
pub type AddressModel = (u8, Seq<u8>, u16);

impl View for Address {
    type V = AddressModel;

    open spec fn view(&self) -> AddressModel {
        match self {
            Address::V4(ip, port) => (ATYP_IPV4, ip@, *port),
            Address::V6(ip, port) => (ATYP_IPV6, ip@, *port),
            Address::Domain(name, port) => (ATYP_DOMAIN, name@, *port),
        }
    }
}

impl Address {
    /// A domain name fits its one-byte length prefix.
    pub open spec fn wf(&self) -> bool {
        match self {
            Address::Domain(name, _) => name@.len() <= 255,
            _ => true,
        }
    }

    pub fn port(&self) -> (r: u16)
        ensures
            r == self@.2,
    {
        match self {
            Address::V4(_, port) => *port,
            Address::V6(_, port) => *port,
            Address::Domain(_, port) => *port,
        }
    }
}

/// An abstract address that some `Address` can stand for.
pub open spec fn model_wf(m: AddressModel) -> bool {
    ||| (m.0 == ATYP_IPV4 && m.1.len() == 4)
    ||| (m.0 == ATYP_IPV6 && m.1.len() == 16)
    ||| (m.0 == ATYP_DOMAIN && m.1.len() <= 255)
}

pub open spec fn be16_bytes(v: u16) -> Seq<u8> {
    seq![(v / 256) as u8, (v % 256) as u8]
}

pub open spec fn be16_value(hi: u8, lo: u8) -> u16 {
    (hi as int * 256 + lo as int) as u16
}

/// `atyp || address bytes || port`, where a domain name has its length first.
pub open spec fn address_wire(m: AddressModel) -> Seq<u8> {
    if m.0 == ATYP_DOMAIN {
        seq![m.0, m.1.len() as u8] + m.1 + be16_bytes(m.2)
    } else {
        seq![m.0] + m.1 + be16_bytes(m.2)
    }
}

/// The connect request: `cmd || address`.
pub open spec fn request_wire(cmd: u8, m: AddressModel) -> Seq<u8> {
    seq![cmd] + address_wire(m)
}

/// The header of a UDP frame: `address || length`.
pub open spec fn udp_header_wire(m: AddressModel, length: u16) -> Seq<u8> {
    address_wire(m) + be16_bytes(length)
}

fn push_all(out: &mut Vec<u8>, s: &[u8])
    ensures
        final(out)@ == old(out)@ + s@,
{
    let mut i: usize = 0;
    while i < s.len()
        invariant
            i <= s@.len(),
            out@ == old(out)@ + s@.take(i as int),
        decreases s@.len() - i,
    {
        out.push(s[i]);
        i = i + 1;
        assert(s@.take(i as int) == s@.take(i - 1 as int).push(s@[i - 1]));
    }
    assert(s@.take(s@.len() as int) == s@);
}

fn push_be16(out: &mut Vec<u8>, v: u16)
    ensures
        final(out)@ == old(out)@ + be16_bytes(v),
{
    out.push((v / 256) as u8);
    out.push((v % 256) as u8);
}

/// The wire form of an address.
pub fn address_bytes(a: &Address) -> (r: Vec<u8>)
    requires
        a.wf(),
    ensures
        r@ == address_wire(a@),
{
    let mut out: Vec<u8> = Vec::new();
    match a {
        Address::V4(ip, port) => {
            out.push(ATYP_IPV4);
            push_all(&mut out, ip.as_slice());
            push_be16(&mut out, *port);
        },
        Address::V6(ip, port) => {
            out.push(ATYP_IPV6);
            push_all(&mut out, ip.as_slice());
            push_be16(&mut out, *port);
        },
        Address::Domain(name, port) => {
            out.push(ATYP_DOMAIN);
            out.push(name.len() as u8);
            push_all(&mut out, name.as_slice());
            push_be16(&mut out, *port);
        },
    }
    out
}

/// Appends the connect request for `dst` to `buf`.
pub fn generate_request(buf: &mut BytesMut, cmd: u8, dst: &Address)
    requires
        dst.wf(),
        buf_bytes(*old(buf)).len() + 300 <= isize::MAX,
    ensures
        buf_bytes(*final(buf)) == buf_bytes(*old(buf)) + request_wire(cmd, dst@),
{
    let mut out: Vec<u8> = Vec::new();
    out.push(cmd);
    let addr = address_bytes(dst);
    push_all(&mut out, addr.as_slice());
    buf_extend(buf, out.as_slice());
}

/// Appends the header of a UDP frame that carries `length` bytes for `addr`.
pub fn generate_udp_header(buf: &mut BytesMut, addr: &Address, length: u16)
    requires
        addr.wf(),
        buf_bytes(*old(buf)).len() + 300 <= isize::MAX,
    ensures
        buf_bytes(*final(buf)) == buf_bytes(*old(buf)) + udp_header_wire(addr@, length),
{
    let mut out = address_bytes(addr);
    push_be16(&mut out, length);
    buf_extend(buf, out.as_slice());
}

/// What decoding a UDP frame at the front of a byte stream yields.
pub enum UdpParse {
    /// A whole frame: its target, where its payload starts, and the payload's length.
    /// The frame ends at `payload_start + length`.
    Packet { address: Address, payload_start: usize, length: usize },
    /// More bytes are needed.
    Continued,
    /// The address type is unknown.
    Invalid,
}

pub open spec fn known_atyp(t: u8) -> bool {
    t == ATYP_IPV4 || t == ATYP_IPV6 || t == ATYP_DOMAIN
}

/// Whether enough of `s` is in to know how long its address part is.
pub open spec fn udp_kind_known(s: Seq<u8>) -> bool {
    &&& s.len() >= 1
    &&& known_atyp(s[0])
    &&& (s[0] == ATYP_DOMAIN ==> s.len() >= 2)
}

/// Length of the address part (type, host and port) of the frame that `s` starts.
pub open spec fn udp_address_len(s: Seq<u8>) -> int {
    if s[0] == ATYP_IPV4 {
        7
    } else if s[0] == ATYP_IPV6 {
        19
    } else {
        4 + s[1] as int
    }
}

/// Length of the header (address part and payload length) of the frame that `s` starts.
pub open spec fn udp_head_len(s: Seq<u8>) -> int {
    udp_address_len(s) + 2
}

/// The payload length that the header of `s` declares.
pub open spec fn udp_length_of(s: Seq<u8>) -> u16 {
    be16_value(s[udp_head_len(s) - 2], s[udp_head_len(s) - 1])
}

/// The target that the header of `s` names.
pub open spec fn udp_address_of(s: Seq<u8>) -> AddressModel {
    let a = udp_address_len(s);
    let host = if s[0] == ATYP_DOMAIN {
        s.subrange(2, a - 2)
    } else {
        s.subrange(1, a - 2)
    };
    (s[0], host, be16_value(s[a - 2], s[a - 1]))
}

/// `s` starts with an unknown address type.
pub open spec fn udp_invalid(s: Seq<u8>) -> bool {
    s.len() >= 1 && !known_atyp(s[0])
}

/// `s` starts with a whole frame, payload included.
pub open spec fn udp_complete(s: Seq<u8>) -> bool {
    &&& udp_kind_known(s)
    &&& s.len() >= udp_head_len(s)
    &&& s.len() >= udp_head_len(s) + udp_length_of(s)
}

/// Decodes the UDP frame at the front of `data`; nothing is consumed.
pub fn parse_udp(data: &[u8]) -> (r: UdpParse)
    ensures
        match r {
            UdpParse::Packet { address, payload_start, length } => {
                &&& udp_complete(data@)
                &&& address.wf()
                &&& address@ == udp_address_of(data@)
                &&& payload_start == udp_head_len(data@)
                &&& length == udp_length_of(data@)
            },
            UdpParse::Continued => !udp_complete(data@) && !udp_invalid(data@),
            UdpParse::Invalid => udp_invalid(data@),
        },
{
    if data.len() < 1 {
        return UdpParse::Continued;
    }
    let atyp = data[0];
    let addr_len: usize;
    if atyp == ATYP_IPV4 {
        addr_len = 7;
    } else if atyp == ATYP_IPV6 {
        addr_len = 19;
    } else if atyp == ATYP_DOMAIN {
        if data.len() < 2 {
            return UdpParse::Continued;
        }
        addr_len = 4 + data[1] as usize;
    } else {
        return UdpParse::Invalid;
    }
    let head = addr_len + 2;
    if data.len() < head {
        return UdpParse::Continued;
    }
    let length = data[head - 2] as usize * 256 + data[head - 1] as usize;
    if data.len() - head < length {
        return UdpParse::Continued;
    }
    let port = data[addr_len - 2] as u16 * 256 + data[addr_len - 1] as u16;
    let address = if atyp == ATYP_IPV4 {
        let ip: [u8; 4] = [data[1], data[2], data[3], data[4]];
        assert(ip@ =~= data@.subrange(1, 5));
        Address::V4(ip, port)
    } else if atyp == ATYP_IPV6 {
        let ip: [u8; 16] = [
            data[1], data[2], data[3], data[4], data[5], data[6], data[7], data[8],
            data[9], data[10], data[11], data[12], data[13], data[14], data[15], data[16],
        ];
        assert(ip@ =~= data@.subrange(1, 17));
        Address::V6(ip, port)
    } else {
        let mut name: Vec<u8> = Vec::new();
        push_all(&mut name, &data[2..addr_len - 2]);
        assert(name@ =~= data@.subrange(2, addr_len - 2));
        Address::Domain(name, port)
    };
    UdpParse::Packet { address, payload_start: head, length }
}

proof fn lemma_be16(v: u16)
    ensures
        be16_value(be16_bytes(v)[0], be16_bytes(v)[1]) == v,
{
}

/// Decoding the frame made for an address and a payload gives back that
/// address, the payload's length and the payload, whatever follows it.
pub proof fn lemma_udp_round_trip(m: AddressModel, payload: Seq<u8>, rest: Seq<u8>)
    requires
        model_wf(m),
        payload.len() <= 65535,
    ensures
        ({
            let h = udp_header_wire(m, payload.len() as u16);
            let s = h + payload + rest;
            &&& udp_complete(s)
            &&& udp_address_of(s) == m
            &&& udp_head_len(s) == h.len()
            &&& udp_length_of(s) == payload.len()
            &&& s.subrange(h.len() as int, (h.len() + payload.len()) as int) == payload
        }),
{
    let len = payload.len() as u16;
    let h = udp_header_wire(m, len);
    let s = h + payload + rest;
    lemma_be16(len);
    lemma_be16(m.2);
    let a = address_wire(m);
    assert(h == a + be16_bytes(len));
    if m.0 == ATYP_DOMAIN {
        assert(a.len() == 4 + m.1.len());
        assert(s[1] == m.1.len() as u8);
        assert(udp_address_len(s) == a.len());
        assert(s.subrange(2, a.len() - 2) =~= m.1);
    } else {
        assert(udp_address_len(s) == a.len());
        assert(s.subrange(1, a.len() - 2) =~= m.1);
    }
    assert(s[a.len() - 2] == be16_bytes(m.2)[0]);
    assert(s[a.len() - 1] == be16_bytes(m.2)[1]);
    assert(s[h.len() - 2] == be16_bytes(len)[0]);
    assert(s[h.len() - 1] == be16_bytes(len)[1]);
    assert(udp_address_of(s) =~= m);
    assert(s.subrange(h.len() as int, (h.len() + payload.len()) as int) =~= payload);
}

/// Every strict prefix of a frame decodes as `Continued`: neither a packet
/// nor a protocol error.
pub proof fn lemma_udp_prefix_continued(m: AddressModel, payload: Seq<u8>, k: int)
    requires
        model_wf(m),
        payload.len() <= 65535,
        0 <= k < udp_header_wire(m, payload.len() as u16).len() + payload.len(),
    ensures
        ({
            let t = (udp_header_wire(m, payload.len() as u16) + payload).take(k);
            !udp_complete(t) && !udp_invalid(t)
        }),
{
    let len = payload.len() as u16;
    let h = udp_header_wire(m, len);
    let f = h + payload;
    let t = f.take(k);
    lemma_udp_round_trip(m, payload, Seq::<u8>::empty());
    assert(f + Seq::<u8>::empty() =~= f);
    if k >= 1 {
        assert(t[0] == f[0]);
        if udp_complete(t) {
            if t[0] == ATYP_DOMAIN {
                assert(t[1] == f[1]);
            }
            assert(udp_head_len(t) == udp_head_len(f));
            let hl = udp_head_len(f);
            assert(t[hl - 2] == f[hl - 2]);
            assert(t[hl - 1] == f[hl - 1]);
            assert(udp_length_of(t) == udp_length_of(f));
        }
    }
}

} // verus!
