//! The TCP driver: one intercepted client socket paired with a tunnel session.
//!
//! The caller owns both handles and performs every I/O step; the functions here
//! decide what happens next and keep the carry-over buffer and the lifecycle.
use crate::buffer::{buf_bytes, buf_clear, buf_extend, buf_len, buf_new, buf_split_to};
use crate::codec::{generate_request, request_wire, Address, CONNECT};
use crate::status::{after_shutdown, check_status, peer_closed, reaches, shutdown, ConnStatus};
use crate::token::{token_of, token_spec, CHANNEL_CLIENT, CHANNEL_CNT, CHANNEL_TCP, MAX_INDEX, MIN_INDEX};
use bytes::BytesMut;
use vstd::prelude::*;

verus! {

/// Ceiling of the carry-over buffer toward the client: a flow whose client
/// lags further behind is dropped.
pub const MAX_CARRY_OVER: usize = 4194304;

/// The half of a flow that an event is for.
#[derive(Clone, Copy, PartialEq, Eq, Structural, Debug)]
pub enum Channel {
    /// The intercepted client socket.
    Client,
    /// The tunnel session.
    Backend,
    /// A token that names no channel of a TCP flow.
    Invalid,
}

/// What the caller does once an event has been handled.
#[derive(Clone, Copy, PartialEq, Eq, Structural, Debug)]
pub struct EventEnd {
    /// Tell the session that the client half closed.
    pub notify_session: bool,
    /// Close the client socket, then deregister it.
    pub close_client: bool,
}

/// A flow whose idle time ran out on a tick.
#[derive(Clone, Copy, PartialEq, Eq, Structural, Debug)]
pub struct Expired {
    pub index: usize,
    /// Close the client socket, then deregister it.
    pub close_client: bool,
}

pub open spec fn timed_out(last_active: u64, now: u64, idle: u64) -> bool {
    now > last_active && now - last_active > idle
}

/// Client half of one flow.
pub struct Connection {
    index: usize,
    dst_addr: Address,
    send_buffer: BytesMut,
    status: ConnStatus,
    client_time: u64,
    last_active_time: u64,
}

impl Connection {
    pub closed spec fn spec_index(&self) -> usize {
        self.index
    }

    pub closed spec fn spec_status(&self) -> ConnStatus {
        self.status
    }

    /// Bytes waiting for the client socket, oldest first.
    pub closed spec fn queued(&self) -> Seq<u8> {
        buf_bytes(self.send_buffer)
    }

    pub closed spec fn spec_dst(&self) -> (u8, Seq<u8>, u16) {
        self.dst_addr@
    }

    pub closed spec fn spec_last_active(&self) -> u64 {
        self.last_active_time
    }

    pub closed spec fn spec_client_time(&self) -> u64 {
        self.client_time
    }

    pub closed spec fn wf(&self) -> bool {
        &&& MIN_INDEX <= self.index <= MAX_INDEX
        &&& self.dst_addr.wf()
        &&& buf_bytes(self.send_buffer).len() <= MAX_CARRY_OVER
    }

    /// A new flow for connection `index` toward `dst`, open, with nothing queued.
    pub fn new(index: usize, dst: Address, now: u64) -> (r: Connection)
        requires
            MIN_INDEX <= index <= MAX_INDEX,
            dst.wf(),
        ensures
            r.wf(),
            r.spec_index() == index,
            r.spec_dst() == dst@,
            r.spec_status() == ConnStatus::Established,
            r.queued().len() == 0,
            r.spec_client_time() == now,
            r.spec_last_active() == now,
    {
        Connection {
            index,
            dst_addr: dst,
            send_buffer: buf_new(),
            status: ConnStatus::Established,
            client_time: now,
            last_active_time: now,
        }
    }

    pub fn index(&self) -> (r: usize)
        ensures
            r == self.spec_index(),
    {
        self.index
    }

    pub fn get_status(&self) -> (r: ConnStatus)
        ensures
            r == self.spec_status(),
    {
        self.status
    }

    /// No bytes wait for the client socket.
    pub fn finish_send(&self) -> (r: bool)
        ensures
            r == (self.queued().len() == 0),
    {
        buf_len(&self.send_buffer) == 0
    }

    /// The token of the client socket.
    pub fn client_token(&self) -> (r: usize)
        requires
            self.wf(),
        ensures
            r == token_spec(self.spec_index() as int, CHANNEL_CLIENT as int),
    {
        token_of(self.index, CHANNEL_CLIENT)
    }

    /// The token of the tunnel session.
    pub fn server_token(&self) -> (r: usize)
        requires
            self.wf(),
        ensures
            r == token_spec(self.spec_index() as int, CHANNEL_TCP as int),
    {
        token_of(self.index, CHANNEL_TCP)
    }

    /// The connect request that opens the flow on the session.
    pub fn setup(&self) -> (r: BytesMut)
        requires
            self.wf(),
        ensures
            buf_bytes(r) == request_wire(CONNECT, self.spec_dst()),
    {
        let mut request = buf_new();
        generate_request(&mut request, CONNECT, &self.dst_addr);
        request
    }

    /// The flow was idle for longer than `idle` at time `now`.
    pub fn timeout(&self, now: u64, idle: u64) -> (r: bool)
        ensures
            r == timed_out(self.spec_last_active(), now, idle),
    {
        now > self.last_active_time && now - self.last_active_time > idle
    }

    /// Both halves are deregistered: the flow can be reaped.
    pub fn destroyed(&self, session_deregistered: bool) -> (r: bool)
        ensures
            r == (self.spec_status() == ConnStatus::Deregistered && session_deregistered),
    {
        self.status == ConnStatus::Deregistered && session_deregistered
    }

    /// Shuts the client half and runs its lifecycle check. The result says
    /// whether the caller closes and deregisters the client socket; the caller
    /// shuts the session down too.
    pub fn destroy(&mut self) -> (r: bool)
        ensures
            final(self).wf() == old(self).wf(),
            final(self).spec_index() == old(self).spec_index(),
            final(self).queued() == old(self).queued(),
            final(self).spec_last_active() == old(self).spec_last_active(),
            final(self).spec_dst() == old(self).spec_dst(),
            r == (old(self).spec_status() != ConnStatus::Deregistered && old(self).queued().len()
                == 0),
            r ==> final(self).spec_status() == ConnStatus::Deregistered,
            !r ==> final(self).spec_status() == after_shutdown(old(self).spec_status()),
            reaches(old(self).spec_status(), final(self).spec_status()),
    {
        shutdown(&mut self.status);
        let empty = buf_len(&self.send_buffer) == 0;
        check_status(&mut self.status, empty)
    }

    /// Starts a local close of the client half.
    pub fn shutdown(&mut self)
        ensures
            old(self).spec_status() == ConnStatus::Established ==> final(self).spec_status()
                == ConnStatus::Shutdown,
            old(self).spec_status() != ConnStatus::Established ==> final(self).spec_status()
                == old(self).spec_status(),
            final(self).wf() == old(self).wf(),
            final(self).spec_index() == old(self).spec_index(),
            final(self).queued() == old(self).queued(),
            final(self).spec_dst() == old(self).spec_dst(),
            final(self).spec_last_active() == old(self).spec_last_active(),
    {
        shutdown(&mut self.status);
    }

    /// Starts handling an event for `token` at time `now`: marks the flow
    /// active and says which half the event is for. A token of no TCP channel
    /// shuts the client half.
    pub fn begin_event(&mut self, token: usize, now: u64) -> (r: Channel)
        ensures
            r == (if token % CHANNEL_CNT == CHANNEL_CLIENT {
                Channel::Client
            } else if token % CHANNEL_CNT == CHANNEL_TCP {
                Channel::Backend
            } else {
                Channel::Invalid
            }),
            final(self).spec_last_active() == now,
            r == Channel::Invalid ==> (old(self).spec_status() == ConnStatus::Established
                ==> final(self).spec_status() == ConnStatus::Shutdown),
            r == Channel::Invalid && old(self).spec_status() != ConnStatus::Established
                ==> final(self).spec_status() == old(self).spec_status(),
            r != Channel::Invalid ==> final(self).spec_status() == old(self).spec_status(),
            final(self).wf() == old(self).wf(),
            final(self).spec_index() == old(self).spec_index(),
            final(self).queued() == old(self).queued(),
            final(self).spec_dst() == old(self).spec_dst(),
            final(self).spec_client_time() == old(self).spec_client_time(),
    {
        self.last_active_time = now;
        let kind = token % CHANNEL_CNT;
        if kind == CHANNEL_CLIENT {
            Channel::Client
        } else if kind == CHANNEL_TCP {
            Channel::Backend
        } else {
            shutdown(&mut self.status);
            Channel::Invalid
        }
    }

    /// Records how reading the client into the session ended: `false` (end of
    /// stream or an error) shuts the client half.
    pub fn client_read_done(&mut self, ok: bool)
        ensures
            ok ==> final(self).spec_status() == old(self).spec_status(),
            !ok && old(self).spec_status() == ConnStatus::Established ==> final(self).spec_status()
                == ConnStatus::Shutdown,
            !ok && old(self).spec_status() != ConnStatus::Established ==> final(self).spec_status()
                == old(self).spec_status(),
            final(self).wf() == old(self).wf(),
            final(self).spec_index() == old(self).spec_index(),
            final(self).queued() == old(self).queued(),
            final(self).spec_dst() == old(self).spec_dst(),
            final(self).spec_last_active() == old(self).spec_last_active(),
    {
        if !ok {
            shutdown(&mut self.status);
        }
    }

    /// Hands out what to write to the client: the queued bytes, then `data`.
    /// The queue is left empty until `client_sent` puts back what was not written.
    pub fn prepare_send(&mut self, data: &[u8]) -> (r: BytesMut)
        requires
            old(self).wf(),
            data@.len() <= MAX_CARRY_OVER,
        ensures
            buf_bytes(r) == old(self).queued() + data@,
            final(self).queued().len() == 0,
            final(self).wf(),
            final(self).spec_status() == old(self).spec_status(),
            final(self).spec_index() == old(self).spec_index(),
            final(self).spec_dst() == old(self).spec_dst(),
            final(self).spec_last_active() == old(self).spec_last_active(),
    {
        buf_extend(&mut self.send_buffer, data);
        let len = buf_len(&self.send_buffer);
        buf_split_to(&mut self.send_buffer, len)
    }

    /// Records a write of `pending` to the client: its first `written` bytes
    /// went out, and the rest is queued in order. A hard error (`ok ==
    /// false`) shuts the client half and drops what was not written, since no
    /// later write can deliver it; so does a queue past `MAX_CARRY_OVER`.
    pub fn client_sent(&mut self, pending: BytesMut, written: usize, ok: bool)
        requires
            old(self).wf(),
            old(self).queued().len() == 0,
            written <= buf_bytes(pending).len(),
        ensures
            final(self).wf(),
            ({
                let rest = buf_bytes(pending).skip(written as int);
                let keep = ok && rest.len() <= MAX_CARRY_OVER;
                &&& keep ==> final(self).queued() == rest
                &&& keep ==> final(self).spec_status() == old(self).spec_status()
                &&& !keep ==> final(self).queued().len() == 0
                &&& !keep ==> final(self).spec_status() == after_shutdown(old(self).spec_status())
            }),
            reaches(old(self).spec_status(), final(self).spec_status()),
            final(self).spec_index() == old(self).spec_index(),
            final(self).spec_dst() == old(self).spec_dst(),
            final(self).spec_last_active() == old(self).spec_last_active(),
    {
        let mut pending = pending;
        let _sent = buf_split_to(&mut pending, written);
        if !ok || buf_len(&pending) > MAX_CARRY_OVER {
            buf_clear(&mut pending);
            shutdown(&mut self.status);
        }
        self.send_buffer = pending;
    }

    /// Ends an event. If the client half is in `Shutdown`, the session is told
    /// that its peer closed; if the session is shut down, the client half
    /// records that its peer closed. Then the client's lifecycle check runs;
    /// the caller runs the session's.
    pub fn end_event(&mut self, session_shutdown: bool) -> (r: EventEnd)
        ensures
            r.notify_session == (old(self).spec_status() == ConnStatus::Shutdown),
            ({
                let mid = if session_shutdown && old(self).spec_status()
                    == ConnStatus::Established {
                    ConnStatus::PeerClosed
                } else {
                    old(self).spec_status()
                };
                &&& r.close_client == ((mid == ConnStatus::Shutdown || mid
                    == ConnStatus::PeerClosed) && old(self).queued().len() == 0)
                &&& r.close_client ==> final(self).spec_status() == ConnStatus::Deregistered
                &&& !r.close_client ==> final(self).spec_status() == mid
            }),
            reaches(old(self).spec_status(), final(self).spec_status()),
            final(self).wf() == old(self).wf(),
            final(self).spec_index() == old(self).spec_index(),
            final(self).queued() == old(self).queued(),
            final(self).spec_dst() == old(self).spec_dst(),
            final(self).spec_last_active() == old(self).spec_last_active(),
    {
        let notify_session = self.status == ConnStatus::Shutdown;
        if session_shutdown {
            peer_closed(&mut self.status);
        }
        let empty = buf_len(&self.send_buffer) == 0;
        let close_client = check_status(&mut self.status, empty);
        EventEnd { notify_session, close_client }
    }
}

/// Toward the client no byte is lost or reordered: the bytes written, followed
/// by those left in the carry-over buffer, are the bytes queued before,
/// followed by the new ones.
pub proof fn lemma_send_conserves(
    before: Seq<u8>,
    data: Seq<u8>,
    pending: Seq<u8>,
    written: int,
    after: Seq<u8>,
)
    requires
        pending == before + data,
        0 <= written <= pending.len(),
        after == pending.skip(written),
    ensures
        pending.take(written) + after == before + data,
        written + after.len() == before.len() + data.len(),
{
    assert(pending.take(written) + pending.skip(written) =~= pending);
}

/// The `k`-th index tried after `start`, wrapping from `MAX_INDEX` to `MIN_INDEX`.
pub open spec fn candidate(start: int, k: int) -> int {
    if start + k <= MAX_INDEX {
        start + k
    } else {
        start + k - (MAX_INDEX - MIN_INDEX + 1)
    }
}

/// Indices of the flows that are idle for longer than `idle` at `now`, in order.
pub open spec fn expired_indices(flows: Seq<Connection>, now: u64, idle: u64) -> Seq<usize>
    decreases flows.len(),
{
    if flows.len() == 0 {
        Seq::empty()
    } else {
        let last = flows.last();
        let head = expired_indices(flows.drop_last(), now, idle);
        if timed_out(last.spec_last_active(), now, idle) {
            head.push(last.spec_index())
        } else {
            head
        }
    }
}

/// How one flow stands after a tick: untouched if it was not idle for too
/// long, else destroyed.
pub open spec fn ticked(o: Connection, f: Connection, now: u64, idle: u64) -> bool {
    &&& !timed_out(o.spec_last_active(), now, idle) ==> f == o
    &&& timed_out(o.spec_last_active(), now, idle) ==> {
        &&& f.spec_index() == o.spec_index()
        &&& f.spec_last_active() == o.spec_last_active()
        &&& f.queued() == o.queued()
        &&& f.spec_status() != ConnStatus::Established
        &&& reaches(o.spec_status(), f.spec_status())
        &&& (o.queued().len() == 0 ==> f.spec_status() == ConnStatus::Deregistered)
    }
}

/// The live table of TCP flows.
pub struct TcpServer {
    conns: Vec<Connection>,
    next_id: usize,
}

impl TcpServer {
    /// The live flows.
    pub closed spec fn flows(&self) -> Seq<Connection> {
        self.conns@
    }

    pub closed spec fn spec_next_id(&self) -> usize {
        self.next_id
    }

    /// Indices of the live flows.
    pub open spec fn live(&self) -> Seq<usize> {
        self.flows().map_values(|c: Connection| c.spec_index())
    }

    pub open spec fn wf(&self) -> bool {
        &&& MIN_INDEX <= self.spec_next_id() <= MAX_INDEX
        &&& forall|i: int| 0 <= i < self.flows().len() ==> #[trigger] self.flows()[i].wf()
        &&& self.live().no_duplicates()
    }

    /// An empty table; indices start at `MIN_INDEX`.
    pub fn new() -> (r: TcpServer)
        ensures
            r.wf(),
            r.flows().len() == 0,
            r.spec_next_id() == MIN_INDEX,
    {
        let r = TcpServer { conns: Vec::new(), next_id: MIN_INDEX };
        assert(r.live() =~= Seq::<usize>::empty());
        r
    }

    pub fn len(&self) -> (r: usize)
        ensures
            r == self.flows().len(),
    {
        self.conns.len()
    }

    fn position(&self, index: usize) -> (r: Option<usize>)
        ensures
            match r {
                Some(p) => p < self.flows().len() && self.flows()[p as int].spec_index() == index,
                None => !self.live().contains(index),
            },
    {
        let mut i: usize = 0;
        while i < self.conns.len()
            invariant
                i <= self.conns@.len(),
                forall|j: int| 0 <= j < i ==> #[trigger] self.conns@[j].spec_index() != index,
            decreases self.conns@.len() - i,
        {
            if self.conns[i].index() == index {
                return Some(i);
            }
            i = i + 1;
        }
        assert forall|j: int| 0 <= j < self.live().len() implies self.live()[j] != index by {
            assert(self.live()[j] == self.conns@[j].spec_index());
        }
        None
    }

    /// A flow with this index is live.
    pub fn contains(&self, index: usize) -> (r: bool)
        ensures
            r == self.live().contains(index),
    {
        match self.position(index) {
            Some(p) => {
                assert(self.live()[p as int] == index);
                true
            },
            None => false,
        }
    }

    /// Allocates a connection index: the first index from the last one handed
    /// out, wrapping from `MAX_INDEX` to `MIN_INDEX`, that no live flow holds.
    /// `None` only when every index is live.
    pub fn next_index(&mut self) -> (r: Option<usize>)
        requires
            old(self).wf(),
        ensures
            final(self).wf(),
            final(self).flows() == old(self).flows(),
            match r {
                Some(i) => MIN_INDEX <= i <= MAX_INDEX && !old(self).live().contains(i),
                None => old(self).live().len() >= MAX_INDEX - MIN_INDEX + 1,
            },
            !old(self).live().contains(old(self).spec_next_id()) && old(self).live().len()
                < MAX_INDEX - MIN_INDEX + 1 ==> r == Some(old(self).spec_next_id()),
    {
        let n = self.conns.len();
        if n >= MAX_INDEX - MIN_INDEX + 1 {
            return None;
        }
        let start = self.next_id;
        let mut c = start;
        let mut k: usize = 0;
        let ghost mut tried: Seq<usize> = Seq::empty();
        while k <= n
            invariant
                self.wf(),
                self.flows() == old(self).flows(),
                self.spec_next_id() == start,
                start == old(self).spec_next_id(),
                n == self.flows().len(),
                n < MAX_INDEX - MIN_INDEX + 1,
                MIN_INDEX <= start <= MAX_INDEX,
                MIN_INDEX <= c <= MAX_INDEX,
                c == candidate(start as int, k as int),
                k <= n + 1,
                tried.len() == k,
                forall|j: int| 0 <= j < k ==> #[trigger] tried[j] == candidate(start as int, j),
                forall|j: int| 0 <= j < k ==> self.live().contains(#[trigger] tried[j]),
            decreases n + 1 - k,
        {
            let ghost old_tried = tried;
            match self.position(c) {
                None => {
                    proof {
                        if k > 0 {
                            assert(self.live().contains(tried[0]));
                            assert(tried[0] == candidate(start as int, 0));
                            assert(tried[0] == start);
                            assert(old(self).live().contains(old(self).spec_next_id()));
                        }
                    }
                    self.next_id = if c == MAX_INDEX {
                        MIN_INDEX
                    } else {
                        c + 1
                    };
                    return Some(c);
                },
                Some(p) => {
                    proof {
                        assert(self.live()[p as int] == c);
                        tried = tried.push(c);
                        assert forall|j: int| 0 <= j < k + 1 implies self.live().contains(
                            #[trigger] tried[j],
                        ) by {
                            if j < k {
                                assert(tried[j] == old_tried[j]);
                            }
                        }
                    }
                },
            }
            c = if c == MAX_INDEX {
                MIN_INDEX
            } else {
                c + 1
            };
            k = k + 1;
        }
        proof {
            assert forall|i: int, j: int| 0 <= i < tried.len() && 0 <= j < tried.len() && i != j
                implies tried[i] != tried[j] by {
                assert(tried[i] == candidate(start as int, i));
                assert(tried[j] == candidate(start as int, j));
            }
            tried.unique_seq_to_set();
            self.live().lemma_cardinality_of_set();
            assert(tried.to_set().subset_of(self.live().to_set()));
            vstd::set_lib::lemma_len_subset(tried.to_set(), self.live().to_set());
        }
        None
    }

    /// Starts a flow toward `dst` under a fresh index. The caller sets it up
    /// and hands it to `insert`, or destroys it if the setup fails.
    pub fn accept(&mut self, dst: Address, now: u64) -> (r: Option<Connection>)
        requires
            old(self).wf(),
            dst.wf(),
        ensures
            final(self).wf(),
            final(self).flows() == old(self).flows(),
            match r {
                Some(c) => {
                    &&& c.wf()
                    &&& !old(self).live().contains(c.spec_index())
                    &&& c.spec_dst() == dst@
                    &&& c.spec_status() == ConnStatus::Established
                    &&& c.queued().len() == 0
                    &&& c.spec_last_active() == now
                },
                None => old(self).live().len() >= MAX_INDEX - MIN_INDEX + 1,
            },
    {
        match self.next_index() {
            Some(index) => Some(Connection::new(index, dst, now)),
            None => None,
        }
    }

    /// Adds a flow whose setup succeeded.
    pub fn insert(&mut self, conn: Connection)
        requires
            old(self).wf(),
            conn.wf(),
            !old(self).live().contains(conn.spec_index()),
        ensures
            final(self).wf(),
            final(self).flows() == old(self).flows().push(conn),
            final(self).spec_next_id() == old(self).spec_next_id(),
    {
        let ghost index = conn.spec_index();
        self.conns.push(conn);
        assert(self.live() =~= old(self).live().push(index));
    }

    /// Takes out the flow that `token` belongs to, so that the caller can
    /// handle the event, then hand it to `finish_ready`. A flow is found only
    /// where the token's index is live.
    pub fn ready(&mut self, token: usize) -> (r: Option<Connection>)
        requires
            old(self).wf(),
        ensures
            final(self).wf(),
            final(self).spec_next_id() == old(self).spec_next_id(),
            match r {
                Some(c) => {
                    &&& c.wf()
                    &&& c.spec_index() == token / CHANNEL_CNT
                    &&& old(self).live().contains(c.spec_index())
                    &&& !final(self).live().contains(c.spec_index())
                    &&& exists|p: int|
                        0 <= p < old(self).flows().len() && old(self).flows()[p] == c
                            && final(self).flows() == old(self).flows().remove(p)
                },
                None => !old(self).live().contains(token / CHANNEL_CNT) && final(self).flows()
                    == old(self).flows(),
            },
    {
        let index = token / CHANNEL_CNT;
        match self.position(index) {
            Some(p) => {
                assert(old(self).live()[p as int] == index);
                assert(old(self).flows()[p as int].wf());
                Some(self.remove_at(p))
            },
            None => None,
        }
    }

    fn remove_at(&mut self, p: usize) -> (r: Connection)
        requires
            old(self).wf(),
            p < old(self).flows().len(),
        ensures
            final(self).wf(),
            final(self).spec_next_id() == old(self).spec_next_id(),
            r == old(self).flows()[p as int],
            final(self).flows() == old(self).flows().remove(p as int),
            !final(self).live().contains(r.spec_index()),
    {
        let ghost before = self.live();
        let c = self.conns.remove(p);
        let ghost index = c.spec_index();
        assert(self.live() =~= before.remove(p as int));
        assert(before[p as int] == index);
        assert forall|j: int| 0 <= j < self.live().len() implies self.live()[j] != index by {
            if j < p {
                assert(self.live()[j] == before[j]);
            } else {
                assert(self.live()[j] == before[j + 1]);
            }
        }
        assert forall|i: int, j: int|
            0 <= i < self.live().len() && 0 <= j < self.live().len() && i != j implies self.live()[i]
                != self.live()[j] by {
            let i0 = if i < p {
                i
            } else {
                i + 1
            };
            let j0 = if j < p {
                j
            } else {
                j + 1
            };
            assert(self.live()[i] == before[i0]);
            assert(self.live()[j] == before[j0]);
        }
        c
    }

    /// Removes the flow with this index if both of its halves are
    /// deregistered; the result says whether it did. Other flows stay, in order.
    pub fn reap(&mut self, index: usize, session_deregistered: bool) -> (r: bool)
        requires
            old(self).wf(),
        ensures
            final(self).wf(),
            final(self).spec_next_id() == old(self).spec_next_id(),
            r ==> exists|p: int|
                0 <= p < old(self).flows().len() && old(self).flows()[p].spec_index() == index
                    && old(self).flows()[p].spec_status() == ConnStatus::Deregistered
                    && final(self).flows() == old(self).flows().remove(p),
            r ==> session_deregistered,
            !r ==> final(self).flows() == old(self).flows(),
            !r && session_deregistered ==> forall|p: int|
                0 <= p < old(self).flows().len() && old(self).flows()[p].spec_index() == index
                    ==> old(self).flows()[p].spec_status() != ConnStatus::Deregistered,
    {
        match self.position(index) {
            Some(p) => {
                if self.conns[p].destroyed(session_deregistered) {
                    let _c = self.remove_at(p);
                    true
                } else {
                    proof {
                        assert forall|q: int|
                            0 <= q < old(self).flows().len() && old(self).flows()[q].spec_index()
                                == index implies old(self).flows()[q].spec_status()
                            != ConnStatus::Deregistered || !session_deregistered by {
                            if q != p {
                                assert(old(self).live()[q] == old(self).live()[p as int]);
                            }
                        }
                    }
                    false
                }
            },
            None => {
                proof {
                    assert forall|q: int|
                        0 <= q < old(self).flows().len() implies old(self).flows()[q].spec_index()
                        != index by {
                        assert(old(self).live()[q] == old(self).flows()[q].spec_index());
                    }
                }
                false
            },
        }
    }

    /// Puts back a flow taken out by `ready`, unless both of its halves are
    /// deregistered: then it is reaped and the result is `true`.
    pub fn finish_ready(&mut self, conn: Connection, session_deregistered: bool) -> (r: bool)
        requires
            old(self).wf(),
            conn.wf(),
            !old(self).live().contains(conn.spec_index()),
        ensures
            final(self).wf(),
            final(self).spec_next_id() == old(self).spec_next_id(),
            r == (conn.spec_status() == ConnStatus::Deregistered && session_deregistered),
            r ==> final(self).flows() == old(self).flows(),
            !r ==> final(self).flows() == old(self).flows().push(conn),
    {
        if conn.destroyed(session_deregistered) {
            true
        } else {
            self.insert(conn);
            false
        }
    }

    /// The tick: destroys each flow idle for longer than `idle` at `now` and
    /// lists them, in order, with whether the caller closes and deregisters
    /// its client socket. The caller shuts their sessions down too. Other
    /// flows are left as they are.
    pub fn check_timeout(&mut self, now: u64, idle: u64) -> (r: Vec<Expired>)
        requires
            old(self).wf(),
        ensures
            final(self).wf(),
            final(self).spec_next_id() == old(self).spec_next_id(),
            final(self).live() == old(self).live(),
            r@.map_values(|e: Expired| e.index) == expired_indices(old(self).flows(), now, idle),
            forall|i: int|
                0 <= i < old(self).flows().len() ==> ticked(
                    old(self).flows()[i],
                    #[trigger] final(self).flows()[i],
                    now,
                    idle,
                ),
    {
        let mut r: Vec<Expired> = Vec::new();
        let mut i: usize = 0;
        let n = self.conns.len();
        while i < n
            invariant
                n == self.conns@.len(),
                n == old(self).conns@.len(),
                i <= n,
                self.next_id == old(self).next_id,
                MIN_INDEX <= self.next_id <= MAX_INDEX,
                forall|j: int| 0 <= j < n ==> #[trigger] self.conns@[j].wf(),
                forall|j: int| #![auto] i <= j < n ==> self.conns@[j] == old(self).conns@[j],
                forall|j: int| #![auto] 0 <= j < n ==> self.conns@[j].spec_index()
                    == old(self).conns@[j].spec_index(),
                forall|j: int|
                    0 <= j < i ==> ticked(old(self).conns@[j], #[trigger] self.conns@[j], now, idle),
                r@.map_values(|e: Expired| e.index) == expired_indices(
                    old(self).conns@.take(i as int),
                    now,
                    idle,
                ),
            decreases n - i,
        {
            proof {
                assert(old(self).conns@.take(i + 1 as int).drop_last() =~= old(self).conns@.take(
                    i as int,
                ));
            }
            if self.conns[i].timeout(now, idle) {
                let close_client = self.conns[i].destroy();
                let index = self.conns[i].index();
                r.push(Expired { index, close_client });
                proof {
                    assert(r@.map_values(|e: Expired| e.index) =~= expired_indices(
                        old(self).conns@.take(i as int),
                        now,
                        idle,
                    ).push(index));
                }
            }
            i = i + 1;
        }
        assert(old(self).conns@.take(n as int) =~= old(self).conns@);
        assert(self.live() =~= old(self).live());
        r
    }
}

} // verus!
