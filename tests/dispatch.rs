use telepathy::{
    Diagnostic, DispatchTable, Inbound, LocalHandle, PeerAddr, RegisterError, RemoteAddr,
    RemoteWrapper,
};

fn own() -> RemoteAddr {
    RemoteAddr::new(PeerAddr { host: 1, port: 2 }, String::from("/user/me"))
}

fn ping_pong() -> (DispatchTable, usize, usize) {
    let mut t = DispatchTable::new();
    let ping = t.register(String::from("Ping"), false).unwrap();
    let pong = t.register(String::from("Pong"), true).unwrap();
    (t, ping, pong)
}

#[test]
fn registration_assigns_indices_in_order() {
    let (t, ping, pong) = ping_pong();
    assert_eq!(ping, 0);
    assert_eq!(pong, 1);
    assert_eq!(t.len(), 2);
    assert_eq!(t.lookup(&String::from("Pong")), Some(1));
    assert_eq!(t.lookup(&String::from("Pang")), None);
}

#[test]
fn duplicate_identifier_is_refused() {
    let (mut t, _, _) = ping_pong();
    assert_eq!(t.register(String::from("Ping"), true), Err(RegisterError::DuplicateIdentifier));
    assert_eq!(t.len(), 2);
}

#[test]
fn wrapper_carries_source_only_when_asked() {
    let w = RemoteWrapper::new(String::from("Pong"), vec![1, 2], true, &own());
    assert_eq!(w.identifier, "Pong");
    assert_eq!(w.message_buffer, vec![1, 2]);
    assert_eq!(w.source.as_ref().map(|s| s.path().clone()), Some(String::from("/user/me")));
    let w = RemoteWrapper::new(String::from("Ping"), vec![3], false, &own());
    assert!(w.source.is_none());
}

#[test]
fn pong_goes_to_pong_decoder_only() {
    let (t, ping, pong) = ping_pong();
    let mut mailbox: Vec<Inbound<String>> = Vec::new();
    let w = RemoteWrapper { identifier: String::from("Pong"), message_buffer: vec![7], source: None };
    let r = t.deliver(
        w,
        |i: usize, bytes: Vec<u8>| {
            assert_ne!(i, ping);
            assert_eq!(i, pong);
            Some(format!("Pong{}", bytes[0]))
        },
        &mut mailbox,
    );
    assert!(r.is_none());
    assert_eq!(mailbox.len(), 1);
    assert_eq!(mailbox[0].message, "Pong7");
    assert!(mailbox[0].source.is_none());
}

#[test]
fn unknown_identifier_is_dropped_with_its_name() {
    let (t, _, _) = ping_pong();
    let mut mailbox: Vec<Inbound<String>> = vec![Inbound { message: String::from("old"), source: None }];
    let w = RemoteWrapper { identifier: String::from("Pang"), message_buffer: vec![1], source: None };
    let r = t.deliver(w, |_i: usize, _b: Vec<u8>| -> Option<String> { panic!("no decoder may run") }, &mut mailbox);
    assert!(matches!(r, Some(Diagnostic::UnknownIdentifier(ref id)) if id == "Pang"));
    assert_eq!(mailbox.len(), 1);
}

#[test]
fn undecodable_payload_is_dropped() {
    let (t, _, _) = ping_pong();
    let mut mailbox: Vec<Inbound<String>> = Vec::new();
    let w = RemoteWrapper { identifier: String::from("Ping"), message_buffer: vec![], source: None };
    let r = t.deliver(w, |_i: usize, _b: Vec<u8>| -> Option<String> { None }, &mut mailbox);
    assert!(matches!(r, Some(Diagnostic::DecodeFailed(ref id)) if id == "Ping"));
    assert!(mailbox.is_empty());
}

#[test]
fn source_is_set_only_for_types_that_track_it() {
    let (t, _, _) = ping_pong();
    let mut mailbox: Vec<Inbound<u8>> = Vec::new();
    let mut src = own();
    src.cache_local(LocalHandle { id: 4 });
    let w = RemoteWrapper { identifier: String::from("Pong"), message_buffer: vec![1], source: Some(src.clone()) };
    t.deliver(w, |_i: usize, b: Vec<u8>| Some(b[0]), &mut mailbox);
    let w = RemoteWrapper { identifier: String::from("Ping"), message_buffer: vec![2], source: Some(src) };
    t.deliver(w, |_i: usize, b: Vec<u8>| Some(b[0]), &mut mailbox);
    assert_eq!(mailbox.len(), 2);
    assert_eq!(mailbox[0].source.as_ref().map(|s| s.cached()), Some(Some(LocalHandle { id: 4 })));
    assert!(mailbox[1].source.is_none());
    assert_eq!(mailbox[1].message, 2);
}

#[test]
fn encoded_message_round_trips_through_envelope() {
    let mut t = DispatchTable::new();
    let text = t.register(String::from("Text"), false).unwrap();
    let count = t.register(String::from("Count"), false).unwrap();

    let sent = String::from("hello over there");
    let bytes = serde_yaml::to_string(&sent).unwrap().into_bytes();
    let w = RemoteWrapper::new(String::from("Text"), bytes, false, &own());
    let mut texts: Vec<Inbound<String>> = Vec::new();
    let r = t.deliver(
        w,
        |i: usize, b: Vec<u8>| {
            assert_eq!(i, text);
            serde_yaml::from_slice::<String>(&b).ok()
        },
        &mut texts,
    );
    assert!(r.is_none());
    assert_eq!(texts[0].message, sent);

    let w = RemoteWrapper::new(String::from("Count"), 123_456u32.to_le_bytes().to_vec(), false, &own());
    let mut counts: Vec<Inbound<u32>> = Vec::new();
    let r = t.deliver(
        w,
        |i: usize, b: Vec<u8>| {
            assert_eq!(i, count);
            <[u8; 4]>::try_from(b.as_slice()).ok().map(u32::from_le_bytes)
        },
        &mut counts,
    );
    assert!(r.is_none());
    assert_eq!(counts[0].message, 123_456);
}
