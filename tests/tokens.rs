use trojan_core::status::{check_status, peer_closed, shutdown, ConnStatus};
use trojan_core::token::{
    route, token2index, token_kind, token_of, Route, CHANNEL_CLIENT, CHANNEL_CNT, CHANNEL_TCP,
    MIN_INDEX,
};

#[test]
fn token_encodes_index_and_kind() {
    let t = token_of(300, CHANNEL_TCP);
    assert_eq!(t, 300 * CHANNEL_CNT + 1);
    assert_eq!(token2index(t), 300);
    assert_eq!(token_kind(t), CHANNEL_TCP);
    assert_ne!(token_of(300, CHANNEL_CLIENT), t);
}

#[test]
fn route_splits_reserved_and_flows() {
    assert_eq!(route(5), Route::Reserved(1));
    assert_eq!(route(token_of(MIN_INDEX, CHANNEL_TCP)), Route::Flow { index: MIN_INDEX, kind: 1 });
    assert_eq!(route(MIN_INDEX * CHANNEL_CNT - 1), Route::Reserved(MIN_INDEX - 1));
}

#[test]
fn lifecycle_moves_forward_only() {
    let mut s = ConnStatus::Established;
    assert!(!check_status(&mut s, true));
    assert_eq!(s, ConnStatus::Established);
    shutdown(&mut s);
    assert_eq!(s, ConnStatus::Shutdown);
    peer_closed(&mut s);
    assert_eq!(s, ConnStatus::Shutdown);
    assert!(!check_status(&mut s, false));
    assert_eq!(s, ConnStatus::Shutdown);
    assert!(check_status(&mut s, true));
    assert_eq!(s, ConnStatus::Deregistered);
    shutdown(&mut s);
    peer_closed(&mut s);
    assert!(!check_status(&mut s, true));
    assert_eq!(s, ConnStatus::Deregistered);

    let mut p = ConnStatus::Established;
    peer_closed(&mut p);
    assert_eq!(p, ConnStatus::PeerClosed);
    assert!(check_status(&mut p, true));
    assert_eq!(p, ConnStatus::Deregistered);
}
