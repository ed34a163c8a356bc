//! The UDP backend driver: datagrams between a bound UDP socket and the
//! frames of a UDP-associate tunnel session.
//!
//! The caller owns the socket and the session and performs each I/O step.
use crate::buffer::{buf_as_slice, buf_bytes, buf_clear, buf_extend, buf_len, buf_new, buf_split_to};
use crate::codec::{
    generate_udp_header, parse_udp, udp_address_of, udp_complete, udp_head_len, udp_header_wire,
    udp_invalid, udp_length_of, lemma_udp_round_trip, model_wf, Address, AddressModel, UdpParse, MAX_PACKET_SIZE,
};
use crate::status::{after_shutdown, check_status, reaches, shutdown, ConnStatus};
use crate::tcp::MAX_CARRY_OVER;
use bytes::BytesMut;
use vstd::prelude::*;

verus! {

/// A datagram to send: to `address`, the bytes `payload_start ..
/// payload_start + length` of `UdpBackend::pending`.
pub struct Datagram {
    pub address: Address,
    pub payload_start: usize,
    pub length: usize,
}

/// How a `send_to` ended.
#[derive(Clone, Copy, PartialEq, Eq, Structural, Debug)]
pub enum SendOutcome {
    /// This many bytes went out.
    Sent(usize),
    /// The socket cannot take the datagram now.
    WouldBlock,
    /// Any other error.
    Failed,
}

/// Length of the frame at the front of `s`.
pub open spec fn frame_len(s: Seq<u8>) -> int {
    udp_head_len(s) + udp_length_of(s)
}

pub struct UdpBackend {
    send_buffer: BytesMut,
    recv_head: BytesMut,
    index: usize,
    status: ConnStatus,
    timeout: u64,
    bytes_read: usize,
    bytes_sent: usize,
    remote_addr: Address,
}

impl UdpBackend {
    /// Frame bytes from the session not yet sent, front first.
    pub closed spec fn pending_bytes(&self) -> Seq<u8> {
        buf_bytes(self.send_buffer)
    }

    /// The header made for the last datagram received.
    pub closed spec fn head_bytes(&self) -> Seq<u8> {
        buf_bytes(self.recv_head)
    }

    pub closed spec fn spec_index(&self) -> usize {
        self.index
    }

    pub closed spec fn spec_status(&self) -> ConnStatus {
        self.status
    }

    pub closed spec fn spec_timeout(&self) -> u64 {
        self.timeout
    }

    pub closed spec fn spec_bytes_read(&self) -> usize {
        self.bytes_read
    }

    pub closed spec fn spec_bytes_sent(&self) -> usize {
        self.bytes_sent
    }

    pub closed spec fn spec_remote(&self) -> (u8, Seq<u8>, u16) {
        self.remote_addr@
    }

    pub closed spec fn wf(&self) -> bool {
        &&& buf_bytes(self.send_buffer).len() <= MAX_CARRY_OVER
        &&& buf_bytes(self.recv_head).len() <= 300
        &&& self.remote_addr.wf()
    }

    /// A backend for connection `index`, whose socket is bound to `local`,
    /// and whose flows expire after `timeout` idle.
    pub fn new(index: usize, local: Address, timeout: u64) -> (r: UdpBackend)
        requires
            local.wf(),
        ensures
            r.wf(),
            r.spec_index() == index,
            r.spec_remote() == local@,
            r.spec_timeout() == timeout,
            r.spec_status() == ConnStatus::Established,
            r.pending_bytes().len() == 0,
            r.spec_bytes_read() == 0,
            r.spec_bytes_sent() == 0,
    {
        UdpBackend {
            send_buffer: buf_new(),
            recv_head: buf_new(),
            index,
            status: ConnStatus::Established,
            timeout,
            bytes_read: 0,
            bytes_sent: 0,
            remote_addr: local,
        }
    }

    pub fn index(&self) -> (r: usize)
        ensures
            r == self.spec_index(),
    {
        self.index
    }

    pub fn get_timeout(&self) -> (r: u64)
        ensures
            r == self.spec_timeout(),
    {
        self.timeout
    }

    pub fn get_status(&self) -> (r: ConnStatus)
        ensures
            r == self.spec_status(),
    {
        self.status
    }

    pub fn bytes_read(&self) -> (r: usize)
        ensures
            r == self.spec_bytes_read(),
    {
        self.bytes_read
    }

    pub fn bytes_sent(&self) -> (r: usize)
        ensures
            r == self.spec_bytes_sent(),
    {
        self.bytes_sent
    }

    /// No frame bytes wait to be sent.
    pub fn finish_send(&self) -> (r: bool)
        ensures
            r == (self.pending_bytes().len() == 0),
    {
        buf_len(&self.send_buffer) == 0
    }

    /// The frame bytes not yet sent; `Datagram` offsets point into them.
    pub fn pending(&self) -> (r: &[u8])
        ensures
            r@ == self.pending_bytes(),
    {
        buf_as_slice(&self.send_buffer)
    }

    /// The header made by the last `datagram_received`.
    pub fn head(&self) -> (r: &[u8])
        ensures
            r@ == self.head_bytes(),
    {
        buf_as_slice(&self.recv_head)
    }

    /// Starts a local close (a receive error, an expired timeout).
    pub fn shutdown(&mut self)
        ensures
            old(self).spec_status() == ConnStatus::Established ==> final(self).spec_status()
                == ConnStatus::Shutdown,
            old(self).spec_status() != ConnStatus::Established ==> final(self).spec_status()
                == old(self).spec_status(),
            final(self).pending_bytes() == old(self).pending_bytes(),
            final(self).wf() == old(self).wf(),
    {
        shutdown(&mut self.status);
    }

    /// The lifecycle check; `true` when the caller deregisters the socket.
    pub fn check_status(&mut self) -> (r: bool)
        ensures
            r == ((old(self).spec_status() == ConnStatus::Shutdown || old(self).spec_status()
                == ConnStatus::PeerClosed) && old(self).pending_bytes().len() == 0),
            r ==> final(self).spec_status() == ConnStatus::Deregistered,
            !r ==> final(self).spec_status() == old(self).spec_status(),
            reaches(old(self).spec_status(), final(self).spec_status()),
            final(self).pending_bytes() == old(self).pending_bytes(),
            final(self).wf() == old(self).wf(),
    {
        let empty = buf_len(&self.send_buffer) == 0;
        check_status(&mut self.status, empty)
    }

    /// Takes frame bytes from the session: they are queued behind those not
    /// yet sent. Past `MAX_CARRY_OVER` the flow is dropped: it shuts and the
    /// queue is emptied.
    pub fn dispatch(&mut self, data: &[u8])
        requires
            old(self).wf(),
            data@.len() <= MAX_CARRY_OVER,
        ensures
            final(self).wf(),
            old(self).pending_bytes().len() + data@.len() <= MAX_CARRY_OVER ==> {
                &&& final(self).pending_bytes() == old(self).pending_bytes() + data@
                &&& final(self).spec_status() == old(self).spec_status()
            },
            old(self).pending_bytes().len() + data@.len() > MAX_CARRY_OVER ==> {
                &&& final(self).pending_bytes().len() == 0
                &&& (old(self).spec_status() == ConnStatus::Established ==> final(self).spec_status() == ConnStatus::Shutdown)
            },
            reaches(old(self).spec_status(), final(self).spec_status()),
            final(self).spec_bytes_sent() == old(self).spec_bytes_sent(),
    {
        if buf_len(&self.send_buffer) > MAX_CARRY_OVER - data.len() {
            buf_clear(&mut self.send_buffer);
            shutdown(&mut self.status);
        } else {
            buf_extend(&mut self.send_buffer, data);
        }
    }

    /// The next datagram to send: the frame at the front of the queue, if it
    /// is whole and the flow is open. A frame of an unknown address type
    /// shuts the flow and drops what is queued.
    pub fn next_datagram(&mut self) -> (r: Option<Datagram>)
        requires
            old(self).wf(),
        ensures
            final(self).wf(),
            final(self).spec_bytes_sent() == old(self).spec_bytes_sent(),
            reaches(old(self).spec_status(), final(self).spec_status()),
            old(self).spec_status() != ConnStatus::Established ==> final(self).pending_bytes()
                == old(self).pending_bytes(),
            old(self).spec_status() != ConnStatus::Established ==> r is None && final(self).spec_status() == old(self).spec_status(),
            match r {
                Some(d) => {
                    let s = old(self).pending_bytes();
                    &&& old(self).spec_status() == ConnStatus::Established
                    &&& final(self).spec_status() == ConnStatus::Established
                    &&& final(self).pending_bytes() == s
                    &&& udp_complete(s)
                    &&& d.address.wf()
                    &&& d.address@ == udp_address_of(s)
                    &&& d.payload_start == udp_head_len(s)
                    &&& d.length == udp_length_of(s)
                    &&& d.payload_start + d.length <= s.len()
                },
                None => old(self).spec_status() == ConnStatus::Established ==> {
                    let s = old(self).pending_bytes();
                    &&& !udp_complete(s)
                    &&& udp_invalid(s) ==> final(self).spec_status() == ConnStatus::Shutdown
                    &&& udp_invalid(s) ==> final(self).pending_bytes().len() == 0
                    &&& !udp_invalid(s) ==> final(self).spec_status() == ConnStatus::Established
                    &&& !udp_invalid(s) ==> final(self).pending_bytes() == s
                },
            },
    {
        if self.status != ConnStatus::Established {
            return None;
        }
        match parse_udp(buf_as_slice(&self.send_buffer)) {
            UdpParse::Packet { address, payload_start, length } => Some(
                Datagram { address, payload_start, length },
            ),
            UdpParse::Continued => None,
            UdpParse::Invalid => {
                buf_clear(&mut self.send_buffer);
                shutdown(&mut self.status);
                None
            },
        }
    }

    /// Records how sending `d`, the datagram `next_datagram` handed out,
    /// ended. A whole send consumes its frame. A short one is a truncation:
    /// the flow shuts and the frames still queued are dropped, as on an error.
    /// On `WouldBlock` the frame stays queued for the next writable event.
    pub fn datagram_sent(&mut self, d: &Datagram, outcome: SendOutcome)
        requires
            old(self).wf(),
            udp_complete(old(self).pending_bytes()),
            d.payload_start == udp_head_len(old(self).pending_bytes()),
            d.length == udp_length_of(old(self).pending_bytes()),
        ensures
            final(self).wf(),
            reaches(old(self).spec_status(), final(self).spec_status()),
            match outcome {
                SendOutcome::Sent(size) => {
                    &&& final(self).spec_bytes_sent() == (if old(self).spec_bytes_sent() + size
                        <= usize::MAX {
                        old(self).spec_bytes_sent() + size
                    } else {
                        usize::MAX as int
                    })
                    &&& size == d.length ==> {
                        &&& final(self).pending_bytes() == old(self).pending_bytes().skip(
                            frame_len(old(self).pending_bytes()),
                        )
                        &&& final(self).spec_status() == old(self).spec_status()
                    }
                    &&& size != d.length ==> {
                        &&& final(self).pending_bytes().len() == 0
                        &&& final(self).spec_status() == after_shutdown(old(self).spec_status())
                    }
                },
                SendOutcome::WouldBlock => {
                    &&& final(self).pending_bytes() == old(self).pending_bytes()
                    &&& final(self).spec_status() == old(self).spec_status()
                    &&& final(self).spec_bytes_sent() == old(self).spec_bytes_sent()
                },
                SendOutcome::Failed => {
                    &&& final(self).pending_bytes().len() == 0
                    &&& final(self).spec_bytes_sent() == old(self).spec_bytes_sent()
                    &&& final(self).spec_status() == after_shutdown(old(self).spec_status())
                },
            },
            old(self).spec_status() != ConnStatus::Established ==> final(self).spec_status()
                == old(self).spec_status(),
    {
        match outcome {
            SendOutcome::Sent(size) => {
                self.bytes_sent = self.bytes_sent.saturating_add(size);
                if size != d.length {
                    buf_clear(&mut self.send_buffer);
                    shutdown(&mut self.status);
                } else {
                    let _frame = buf_split_to(&mut self.send_buffer, d.payload_start + d.length);
                }
            },
            SendOutcome::WouldBlock => {},
            SendOutcome::Failed => {
                buf_clear(&mut self.send_buffer);
                shutdown(&mut self.status);
            },
        }
    }

    /// Records a datagram of `size` bytes received from `addr`, and makes the
    /// frame header that goes before it on the session (see `head`).
    pub fn datagram_received(&mut self, addr: Address, size: usize)
        requires
            old(self).wf(),
            addr.wf(),
            size <= MAX_PACKET_SIZE,
        ensures
            final(self).wf(),
            final(self).head_bytes() == udp_header_wire(addr@, size as u16),
            final(self).spec_remote() == addr@,
            final(self).spec_bytes_read() == (if old(self).spec_bytes_read() + size
                <= usize::MAX {
                old(self).spec_bytes_read() + size
            } else {
                usize::MAX as int
            }),
            final(self).pending_bytes() == old(self).pending_bytes(),
            final(self).spec_status() == old(self).spec_status(),
            final(self).spec_bytes_sent() == old(self).spec_bytes_sent(),
    {
        self.bytes_read = self.bytes_read.saturating_add(size);
        buf_clear(&mut self.recv_head);
        generate_udp_header(&mut self.recv_head, &addr, size as u16);
        self.remote_addr = addr;
    }
}

/// Each frame of the session stream becomes one datagram, in order: at the
/// front of a frame followed by anything, the datagram handed out carries the
/// frame's target and payload, and sending it whole leaves exactly what
/// followed.
pub proof fn lemma_one_datagram_per_frame(m: AddressModel, payload: Seq<u8>, rest: Seq<u8>)
    requires
        model_wf(m),
        payload.len() <= 65535,
    ensures
        ({
            let s = udp_header_wire(m, payload.len() as u16) + payload + rest;
            &&& udp_complete(s)
            &&& udp_address_of(s) == m
            &&& udp_length_of(s) == payload.len()
            &&& s.subrange(udp_head_len(s), frame_len(s)) == payload
            &&& s.skip(frame_len(s)) == rest
        }),
{
    let h = udp_header_wire(m, payload.len() as u16);
    let s = h + payload + rest;
    lemma_udp_round_trip(m, payload, rest);
    assert(s.skip(frame_len(s)) =~= rest);
}

} // verus!
