//! Reactor tokens: each connection index owns one token per channel.
use vstd::prelude::*;

verus! {

/// Channel of the intercepted client socket.
pub const CHANNEL_CLIENT: usize = 0;

/// Channel of the tunnel session of a TCP flow.
pub const CHANNEL_TCP: usize = 1;

/// Channel of the UDP socket of a UDP backend.
pub const CHANNEL_UDP: usize = 2;

/// Number of token slots that each index owns; above every channel in use.
pub const CHANNEL_CNT: usize = 4;

/// Indices below this one are reserved for listeners and pooled sessions.
pub const MIN_INDEX: usize = 256;

/// The largest connection index: every token of it fits in a `usize`.
pub const MAX_INDEX: usize = usize::MAX / 4 - 1;

pub open spec fn token_spec(index: int, kind: int) -> int {
    index * CHANNEL_CNT + kind
}

/// The token of channel `kind` of connection `index`.
pub fn token_of(index: usize, kind: usize) -> (r: usize)
    requires
        index <= MAX_INDEX,
        kind < CHANNEL_CNT,
    ensures
        r == token_spec(index as int, kind as int),
        r / CHANNEL_CNT == index,
        r % CHANNEL_CNT == kind,
{
    index * CHANNEL_CNT + kind
}

/// The connection index that a token belongs to.
pub fn token2index(token: usize) -> (r: usize)
    ensures
        r == token / CHANNEL_CNT,
{
    token / CHANNEL_CNT
}

/// The channel that a token stands for.
pub fn token_kind(token: usize) -> (r: usize)
    ensures
        r == token % CHANNEL_CNT,
        r < CHANNEL_CNT,
{
    token % CHANNEL_CNT
}

/// Where the reactor hands an event.
#[derive(Clone, Copy, PartialEq, Eq, Structural, Debug)]
pub enum Route {
    /// A listener or a pooled session: the index is below `MIN_INDEX`.
    Reserved(usize),
    /// Channel `kind` of the flow with connection index `index`.
    Flow { index: usize, kind: usize },
}

/// Decodes a token into the owner of the event.
pub fn route(token: usize) -> (r: Route)
    ensures
        token / CHANNEL_CNT < MIN_INDEX ==> r == Route::Reserved(token / CHANNEL_CNT),
        token / CHANNEL_CNT >= MIN_INDEX ==> r == (Route::Flow {
            index: token / CHANNEL_CNT,
            kind: token % CHANNEL_CNT,
        }),
{
    let index = token2index(token);
    if index < MIN_INDEX {
        Route::Reserved(index)
    } else {
        Route::Flow { index, kind: token_kind(token) }
    }
}

/// A token decodes back into the index and channel it was made from, and two
/// distinct (index, channel) pairs never share a token.
pub proof fn lemma_token_round_trip(i: int, k: int, j: int, l: int)
    requires
        0 <= i,
        0 <= k < CHANNEL_CNT,
        0 <= j,
        0 <= l < CHANNEL_CNT,
    ensures
        token_spec(i, k) / CHANNEL_CNT as int == i,
        token_spec(i, k) % CHANNEL_CNT as int == k,
        token_spec(i, k) == token_spec(j, l) ==> i == j && k == l,
{
    assert(token_spec(i, k) / 4 == i && token_spec(i, k) % 4 == k) by (nonlinear_arith)
        requires 0 <= i, 0 <= k < 4, token_spec(i, k) == i * 4 + k;
    assert(token_spec(j, l) / 4 == j && token_spec(j, l) % 4 == l) by (nonlinear_arith)
        requires 0 <= j, 0 <= l < 4, token_spec(j, l) == j * 4 + l;
}

} // verus!
