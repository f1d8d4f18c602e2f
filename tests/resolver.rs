use telepathy::{
    AddrRepresentation, AddrRequest, AddrResolver, AddrResponse, AnyAddr, FailureReason,
    LocalHandle, PeerAddr, Resolution, ResolverEvent,
};

fn peer() -> PeerAddr {
    PeerAddr { host: 20, port: 7000 }
}

fn request(path: &str, repr: AddrRepresentation) -> AddrRequest {
    AddrRequest { path: String::from(path), repr }
}

#[test]
fn unanswered_request_times_out() {
    let r = AddrResolver::new();
    let s = r.start(&request("/user/foo", AddrRepresentation::Network), Some(peer()), 100);
    assert!(matches!(s, Resolution::Requested { issued_at: 100, .. }));
    let s = s.step(ResolverEvent::Tick(149), 50);
    assert!(matches!(s, Resolution::Requested { .. }));
    let s = s.step(ResolverEvent::Tick(150), 50);
    assert!(matches!(s, Resolution::Failed(FailureReason::Timeout)));
    let s = s.step(ResolverEvent::Answered(AddrResponse::Resolved(AnyAddr::Local(LocalHandle { id: 1 }))), 50);
    assert!(matches!(s, Resolution::Failed(FailureReason::Timeout)));
}

#[test]
fn local_path_resolves_at_once() {
    let mut r = AddrResolver::new();
    assert!(r.register(String::from("/user/foo"), LocalHandle { id: 9 }));
    assert!(!r.register(String::from("/user/foo"), LocalHandle { id: 10 }));
    let s = r.start(&request("/user/foo", AddrRepresentation::Network), Some(peer()), 0);
    assert!(matches!(s, Resolution::Resolved(AnyAddr::Local(LocalHandle { id: 9 }))));
    assert_eq!(r.lookup(&String::from("/user/bar")), None);
}

#[test]
fn local_only_request_for_unknown_path_fails() {
    let r = AddrResolver::new();
    let s = r.start(&request("/user/foo", AddrRepresentation::Local), Some(peer()), 0);
    assert!(matches!(s, Resolution::Failed(FailureReason::UnknownPath)));
}

#[test]
fn request_without_peer_is_unreachable() {
    let r = AddrResolver::new();
    let s = r.start(&request("/user/foo", AddrRepresentation::Network), None, 0);
    assert!(matches!(s, Resolution::Failed(FailureReason::Unreachable)));
}

#[test]
fn answer_and_peer_loss_end_a_request() {
    let r = AddrResolver::new();
    let s = r.start(&request("/user/foo", AddrRepresentation::Network), Some(peer()), 0);
    let s = s.step(ResolverEvent::Answered(AddrResponse::Resolved(AnyAddr::Local(LocalHandle { id: 2 }))), 10);
    assert!(matches!(s, Resolution::Resolved(AnyAddr::Local(LocalHandle { id: 2 }))));
    let s = r.start(&request("/user/foo", AddrRepresentation::Network), Some(peer()), 0);
    let s = s.step(ResolverEvent::PeerLost(PeerAddr { host: 21, port: 7000 }), 10);
    assert!(matches!(s, Resolution::Requested { .. }));
    let s = s.step(ResolverEvent::PeerLost(peer()), 10);
    assert!(matches!(s, Resolution::Failed(FailureReason::Unreachable)));
}

#[test]
fn missing_config_falls_back_to_default() {
    let c = telepathy::Config::or_default(None);
    assert_eq!(c.custom_serializer, "DefaultSerialization");
    let c = telepathy::Config::or_default(Some(telepathy::Config { custom_serializer: String::from("Json") }));
    assert_eq!(c.custom_serializer, "Json");
    let d: telepathy::Config = Default::default();
    assert_eq!(d.custom_serializer, telepathy::DEFAULT_SERIALIZER);
}
