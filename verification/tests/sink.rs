use futures::task::noop_waker;
use std::task::Context;
use std::task::Poll;
use ws_adapter::Failure;
use ws_adapter::Handshake;
use ws_adapter::Provider;
use ws_adapter::Request;
use ws_adapter::Slot;
use ws_adapter::Socket;

/// A host socket that records what it is asked to do.
struct MockHost {
    address: Option<String>,
    bound: Vec<Slot>,
    sent: Vec<Vec<u8>>,
    closes: usize,
    reject_sends: Option<u32>,
    reject_close: Option<u32>,
}

impl MockHost {
    fn new() -> MockHost {
        MockHost {
            address: None,
            bound: Vec::new(),
            sent: Vec::new(),
            closes: 0,
            reject_sends: None,
            reject_close: None,
        }
    }

    fn perform(&mut self, request: Request) -> Result<(), u32> {
        match request {
            Request::Open(address) => {
                self.address = Some(address);
                Ok(())
            }
            Request::Register(slot) => {
                if !self.bound.contains(&slot) {
                    self.bound.push(slot);
                }
                Ok(())
            }
            Request::Deregister(slot) => {
                self.bound.retain(|bound| *bound != slot);
                Ok(())
            }
            Request::Send(payload) => match self.reject_sends {
                Some(code) => Err(code),
                None => {
                    self.sent.push(payload);
                    Ok(())
                }
            },
            Request::Close => {
                self.closes += 1;
                match self.reject_close {
                    Some(code) => Err(code),
                    None => Ok(()),
                }
            }
        }
    }

    fn perform_all(&mut self, requests: Vec<Request>) {
        for request in requests {
            self.perform(request).unwrap();
        }
    }
}

/// Connects to a mock that opens at once.
fn connected(host: &mut MockHost) -> Socket {
    let (mut handshake, requests) = Provider.connect::<u32>(String::from("ws://mock"));
    host.perform_all(requests);
    assert!(handshake.on_open());
    let (connected, requests) = Socket::new(handshake.outcome().unwrap());
    host.perform_all(requests);
    connected.unwrap()
}

fn read(socket: &mut Socket) -> Poll<Option<Vec<u8>>> {
    let waker = noop_waker();
    let mut cx = Context::from_waker(&waker);
    socket.poll_next(&mut cx)
}

#[test]
fn an_open_connection_holds_the_two_stream_callbacks() {
    let mut host = MockHost::new();
    let _socket = connected(&mut host);
    assert_eq!(host.address, Some(String::from("ws://mock")));
    assert_eq!(host.bound, vec![Slot::Message, Slot::Close]);
    assert_eq!(host.closes, 0);
}

#[test]
fn a_failed_connection_leaves_no_callback_bound() {
    let mut host = MockHost::new();
    let (mut handshake, requests) = Provider.connect::<u32>(String::from("ws://mock"));
    host.perform_all(requests);
    assert_eq!(host.bound, vec![Slot::Open, Slot::Error]);
    assert!(handshake.on_error(1006));
    assert!(!handshake.on_open());
    let (connected, requests) = Socket::new(handshake.outcome().unwrap());
    host.perform_all(requests);
    assert!(matches!(connected, Err(Failure::Connect(1006))));
    assert!(host.bound.is_empty());
    assert_eq!(host.closes, 0);
}

#[test]
fn the_sink_is_always_ready() {
    let mut host = MockHost::new();
    let socket = connected(&mut host);
    assert_eq!(socket.poll_ready::<u32>(), Poll::Ready(Ok(())));
    assert_eq!(socket.poll_ready::<u32>(), Poll::Ready(Ok(())));
}

#[test]
fn flushing_is_always_done() {
    let mut host = MockHost::new();
    let socket = connected(&mut host);
    assert_eq!(socket.poll_flush::<u32>(), Poll::Ready(Ok(())));
}

#[test]
fn a_payload_is_forwarded_to_the_host_as_it_is() {
    let mut host = MockHost::new();
    let socket = connected(&mut host);
    let request = socket.start_send(vec![0xde, 0xad, 0xbe, 0xef]);
    assert_eq!(request, Request::Send(vec![0xde, 0xad, 0xbe, 0xef]));
    let reply = host.perform(request);
    assert_eq!(socket.finish_send(reply), Ok(()));
    let reply = host.perform(socket.start_send(vec![]));
    assert_eq!(socket.finish_send(reply), Ok(()));
    assert_eq!(host.sent, vec![vec![0xde, 0xad, 0xbe, 0xef], vec![]]);
}

#[test]
fn a_rejected_send_is_reported_and_the_adapter_lives_on() {
    let mut host = MockHost::new();
    let mut socket = connected(&mut host);
    socket.on_message(vec![1]);
    host.reject_sends = Some(11);
    let reply = host.perform(socket.start_send(vec![9, 9]));
    assert_eq!(socket.finish_send(reply), Err(Failure::Send(11)));
    assert!(host.sent.is_empty());
    assert_eq!(host.closes, 0);
    assert_eq!(socket.poll_ready::<u32>(), Poll::Ready(Ok(())));
    assert_eq!(read(&mut socket), Poll::Ready(Some(vec![1])));
    host.reject_sends = None;
    let reply = host.perform(socket.start_send(vec![9, 9]));
    assert_eq!(socket.finish_send(reply), Ok(()));
    assert_eq!(host.sent, vec![vec![9, 9]]);
}

#[test]
fn closing_the_sink_asks_the_host_to_close() {
    let mut host = MockHost::new();
    let socket = connected(&mut host);
    let request = socket.poll_close();
    assert_eq!(request, Request::Close);
    let reply = host.perform(request);
    assert_eq!(socket.finish_close(reply), Poll::Ready(Ok(())));
    assert_eq!(host.closes, 1);
}

#[test]
fn a_rejected_close_is_reported() {
    let mut host = MockHost::new();
    let socket = connected(&mut host);
    host.reject_close = Some(3);
    let reply = host.perform(socket.poll_close());
    assert_eq!(socket.finish_close(reply), Poll::Ready(Err(Failure::Close(3))));
}

#[test]
fn closing_the_sink_does_not_end_the_stream() {
    let mut host = MockHost::new();
    let mut socket = connected(&mut host);
    let reply = host.perform(socket.poll_close());
    assert_eq!(socket.finish_close(reply), Poll::Ready(Ok(())));
    assert_eq!(read(&mut socket), Poll::Pending);
    assert!(socket.on_message(vec![4]));
    assert_eq!(read(&mut socket), Poll::Ready(Some(vec![4])));
}

#[test]
fn dropping_the_adapter_asks_the_host_to_close_once() {
    let mut host = MockHost::new();
    let socket = connected(&mut host);
    let request = socket.drop();
    assert_eq!(request, Request::Close);
    let _ = host.perform(request);
    assert_eq!(host.closes, 1);
}

#[test]
fn dropping_ignores_what_the_host_answers() {
    let mut host = MockHost::new();
    let socket = connected(&mut host);
    host.reject_close = Some(3);
    let _ = host.perform(socket.drop());
    assert_eq!(host.closes, 1);
}

#[test]
fn dropping_after_a_close_asks_again() {
    let mut host = MockHost::new();
    let socket = connected(&mut host);
    let reply = host.perform(socket.poll_close());
    assert_eq!(socket.finish_close(reply), Poll::Ready(Ok(())));
    let _ = host.perform(socket.drop());
    assert_eq!(host.closes, 2);
}

#[test]
fn a_mock_that_opens_delivers_and_closes_is_read_to_the_end() {
    let mut host = MockHost::new();
    let mut socket = connected(&mut host);
    assert!(host.bound.contains(&Slot::Message));
    socket.on_message(vec![0x01, 0x02]);
    socket.on_message(vec![0x03]);
    assert!(host.bound.contains(&Slot::Close));
    socket.on_close();
    assert_eq!(read(&mut socket), Poll::Ready(Some(vec![0x01, 0x02])));
    assert_eq!(read(&mut socket), Poll::Ready(Some(vec![0x03])));
    assert_eq!(read(&mut socket), Poll::Ready(None));
    let _ = host.perform(socket.drop());
    assert_eq!(host.closes, 1);
}

#[test]
fn the_handshake_type_can_be_named_by_callers() {
    let handshake: Handshake<String> = Handshake::new();
    assert!(!handshake.is_settled());
}
