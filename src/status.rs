//! Lifecycle of one half of a connection.
use vstd::prelude::*;

verus! {

/// Where a half-connection stands in its lifecycle.
#[derive(Clone, Copy, PartialEq, Eq, Structural, Debug)]
pub enum ConnStatus {
    /// Open in both directions.
    Established,
    /// Closing on its own account: outbound bytes are flushed first.
    Shutdown,
    /// The other half closed: pending bytes are drained, then it closes.
    PeerClosed,
    /// Removed from the reactor; waits to be reaped.
    Deregistered,
}

/// `b` can follow `a`, in any number of steps:
/// `Established -> {Shutdown | PeerClosed} -> Deregistered`.
pub open spec fn reaches(a: ConnStatus, b: ConnStatus) -> bool {
    ||| a == b
    ||| (a == ConnStatus::Established && b != ConnStatus::Established)
    ||| b == ConnStatus::Deregistered
}

/// The status after a local close: an open half is in `Shutdown`, any other
/// stays where it is.
pub open spec fn after_shutdown(s: ConnStatus) -> ConnStatus {
    if s == ConnStatus::Established {
        ConnStatus::Shutdown
    } else {
        s
    }
}

/// The status is still open in both directions.
pub fn alive(s: ConnStatus) -> (r: bool)
    ensures
        r == (s == ConnStatus::Established),
{
    s == ConnStatus::Established
}

/// Starts a local close: an open half moves to `Shutdown`; any other is left as is.
pub fn shutdown(s: &mut ConnStatus)
    ensures
        *final(s) == after_shutdown(*old(s)),
        reaches(*old(s), *final(s)),
{
    if *s == ConnStatus::Established {
        *s = ConnStatus::Shutdown;
    }
}

/// Records that the other half closed: an open half moves to `PeerClosed`;
/// any other is left as is.
pub fn peer_closed(s: &mut ConnStatus)
    ensures
        *old(s) == ConnStatus::Established ==> *final(s) == ConnStatus::PeerClosed,
        *old(s) != ConnStatus::Established ==> *final(s) == *old(s),
        reaches(*old(s), *final(s)),
{
    if *s == ConnStatus::Established {
        *s = ConnStatus::PeerClosed;
    }
}

/// The lifecycle check. A closing half (`Shutdown` or `PeerClosed`) with no
/// outbound bytes left moves to `Deregistered`, and the result is `true`: the
/// caller then closes its handle and removes it from the reactor, in that
/// order. Any other half is left as is, and the result is `false`.
pub fn check_status(s: &mut ConnStatus, finish_send: bool) -> (r: bool)
    ensures
        r == ((*old(s) == ConnStatus::Shutdown || *old(s) == ConnStatus::PeerClosed)
            && finish_send),
        r ==> *final(s) == ConnStatus::Deregistered,
        !r ==> *final(s) == *old(s),
        reaches(*old(s), *final(s)),
{
    if (*s == ConnStatus::Shutdown || *s == ConnStatus::PeerClosed) && finish_send {
        *s = ConnStatus::Deregistered;
        true
    } else {
        false
    }
}

/// Statuses only advance: what follows in two steps follows in one, and a
/// status that has been left is never entered again.
pub proof fn lemma_status_monotone(a: ConnStatus, b: ConnStatus, c: ConnStatus)
    ensures
        reaches(a, b) && reaches(b, c) ==> reaches(a, c),
        reaches(a, b) && reaches(b, a) ==> a == b,
        reaches(ConnStatus::Deregistered, b) ==> b == ConnStatus::Deregistered,
{
}

} // verus!
