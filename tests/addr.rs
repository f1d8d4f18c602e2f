use telepathy::{AnyAddr, LocalHandle, PeerAddr, RemoteAddr, Route};

fn peer(port: u16) -> PeerAddr {
    PeerAddr { host: 0x7f00_0001, port }
}

#[test]
fn local_address_routes_to_mailbox() {
    let a = AnyAddr::Local(LocalHandle { id: 3 });
    assert_eq!(a.route(), Route::Mailbox(LocalHandle { id: 3 }));
}

#[test]
fn uncached_remote_address_routes_to_network() {
    let a = AnyAddr::Remote(RemoteAddr::new(peer(9000), String::from("/user/foo")));
    assert_eq!(a.route(), Route::Network(peer(9000)));
}

#[test]
fn cached_remote_address_routes_to_mailbox() {
    let mut a = AnyAddr::Remote(RemoteAddr::new(peer(9000), String::from("/user/foo")));
    a.cache_local(LocalHandle { id: 5 });
    assert_eq!(a.route(), Route::Mailbox(LocalHandle { id: 5 }));
}

#[test]
fn cache_is_set_only_once() {
    let mut r = RemoteAddr::new(peer(9000), String::from("/user/foo"));
    assert_eq!(r.cached(), None);
    r.cache_local(LocalHandle { id: 5 });
    r.cache_local(LocalHandle { id: 6 });
    assert_eq!(r.cached(), Some(LocalHandle { id: 5 }));
    assert_eq!(r.route(), Route::Mailbox(LocalHandle { id: 5 }));
}

#[test]
fn clone_keeps_peer_path_and_cache() {
    let mut r = RemoteAddr::new(peer(1), String::from("/user/x"));
    r.cache_local(LocalHandle { id: 2 });
    let c = r.clone();
    assert_eq!(c.peer(), peer(1));
    assert_eq!(c.path(), "/user/x");
    assert_eq!(c.cached(), Some(LocalHandle { id: 2 }));
}

#[test]
fn members_compare_by_peer_address() {
    let mut a = RemoteAddr::new(peer(1), String::from("/user/a"));
    let b = RemoteAddr::new(peer(1), String::from("/user/b"));
    let c = RemoteAddr::new(peer(2), String::from("/user/a"));
    a.cache_local(LocalHandle { id: 8 });
    assert!(a.same_member(&b));
    assert!(!a.same_member(&c));
}
