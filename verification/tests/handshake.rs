use ws_adapter::Failure;
use ws_adapter::Handshake;
use ws_adapter::Provider;
use ws_adapter::Request;
use ws_adapter::Slot;
use ws_adapter::Socket;

#[test]
fn connect_asks_for_the_socket_and_both_handshake_callbacks() {
    let (handshake, requests) = Provider.connect::<u32>(String::from("wss://example.org/feed"));
    assert_eq!(handshake, Handshake::Connecting);
    assert_eq!(
        requests,
        vec![
            Request::Open(String::from("wss://example.org/feed")),
            Request::Register(Slot::Open),
            Request::Register(Slot::Error),
        ]
    );
}

#[test]
fn connect_passes_an_empty_address_on() {
    let (_, requests) = Provider.connect::<u32>(String::new());
    assert_eq!(requests[0], Request::Open(String::new()));
}

#[test]
fn a_new_handshake_is_undecided() {
    let handshake: Handshake<u32> = Handshake::new();
    assert_eq!(handshake, Handshake::Connecting);
    assert!(!handshake.is_settled());
    assert_eq!(handshake.outcome(), None);
}

#[test]
fn the_open_event_settles_the_handshake() {
    let mut handshake: Handshake<u32> = Handshake::new();
    assert!(handshake.on_open());
    assert!(handshake.is_settled());
    assert_eq!(handshake, Handshake::Open);
    assert_eq!(handshake.outcome(), Some(Ok(())));
}

#[test]
fn the_error_event_settles_the_handshake() {
    let mut handshake: Handshake<&str> = Handshake::new();
    assert!(handshake.on_error("refused"));
    assert!(handshake.is_settled());
    assert_eq!(handshake, Handshake::Failed("refused"));
    assert_eq!(handshake.outcome(), Some(Err("refused")));
}

#[test]
fn error_before_open_fails_the_attempt() {
    let mut handshake: Handshake<u32> = Handshake::new();
    assert!(handshake.on_error(1006));
    assert!(!handshake.on_open());
    assert!(!handshake.on_error(1));
    assert_eq!(handshake, Handshake::Failed(1006));

    let outcome = handshake.outcome().unwrap();
    let (connected, requests) = Socket::new(outcome);
    match connected {
        Err(failure) => assert_eq!(failure, Failure::Connect(1006)),
        Ok(_) => panic!("a failed handshake gave an adapter"),
    }
    assert_eq!(requests, vec![Request::Deregister(Slot::Open), Request::Deregister(Slot::Error)]);
}

#[test]
fn open_before_error_succeeds_and_the_late_error_is_ignored() {
    let mut handshake: Handshake<u32> = Handshake::new();
    assert!(handshake.on_open());
    assert!(!handshake.on_error(1006));
    assert!(!handshake.on_open());
    assert_eq!(handshake, Handshake::Open);

    let outcome = handshake.outcome().unwrap();
    let (connected, requests) = Socket::new(outcome);
    assert!(connected.is_ok());
    assert_eq!(
        requests,
        vec![
            Request::Deregister(Slot::Open),
            Request::Deregister(Slot::Error),
            Request::Register(Slot::Message),
            Request::Register(Slot::Close),
        ]
    );
}

#[test]
fn a_second_error_does_not_replace_the_first() {
    let mut handshake: Handshake<u32> = Handshake::new();
    assert!(handshake.on_error(1));
    assert!(!handshake.on_error(2));
    assert_eq!(handshake.outcome(), Some(Err(1)));
}

#[test]
fn a_new_adapter_is_open_and_empty() {
    let (connected, _) = Socket::new::<u32>(Ok(()));
    let socket = connected.unwrap();
    assert_eq!(socket.backlog(), 0);
}
