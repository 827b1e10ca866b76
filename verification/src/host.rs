//! What the adapter asks of the host transport, and how the host's refusals
//! are reported.
//!
//! The adapter never touches the host socket itself. Each of its operations
//! hands back the requests that the caller must carry out on the host, in
//! order; what the host answers is handed to the adapter in turn.

use vstd::prelude::*;

verus! {

/// The four event slots of a host socket to which a callback can be bound.
#[derive(Clone, Copy, Debug, PartialEq, Eq)]
pub enum Slot {
    /// Fires once when the connection has been established.
    Open,
    /// Fires when the connection fails.
    Error,
    /// Fires for every payload that arrives.
    Message,
    /// Fires once when the connection has ended.
    Close,
}

/// One thing to do on the host socket.
#[derive(Debug, PartialEq, Eq)]
pub enum Request {
    /// Create the host socket and start connecting to this address.
    Open(String),
    /// Bind the adapter's callback to a slot.
    Register(Slot),
    /// Clear a slot.
    Deregister(Slot),
    /// Transmit one payload.
    Send(Vec<u8>),
    /// Start closing the connection.
    Close,
}

/// A request with its contents as mathematical sequences.
pub enum RequestView {
    Open(Seq<char>),
    Register(Slot),
    Deregister(Slot),
    Send(Seq<u8>),
    Close,
}

impl View for Request {
    type V = RequestView;

    open spec fn view(&self) -> RequestView {
        match *self {
            Request::Open(url) => RequestView::Open(url@),
            Request::Register(slot) => RequestView::Register(slot),
            Request::Deregister(slot) => RequestView::Deregister(slot),
            Request::Send(payload) => RequestView::Send(payload@),
            Request::Close => RequestView::Close,
        }
    }
}

/// The views of a list of requests, in the same order.
pub open spec fn views(requests: Seq<Request>) -> Seq<RequestView> {
    requests.map_values(|request: Request| request@)
}

/// The slots that hold a callback once `requests` have been carried out, in
/// order, on a host socket whose slots were all clear.
pub open spec fn registered(requests: Seq<RequestView>) -> Set<Slot>
    decreases requests.len(),
{
    if requests.len() == 0 {
        Set::empty()
    } else {
        let before = registered(requests.drop_last());
        match requests.last() {
            RequestView::Register(slot) => before.insert(slot),
            RequestView::Deregister(slot) => before.remove(slot),
            _ => before,
        }
    }
}

/// Carrying out one more request changes the bound slots by that request
/// alone.
pub proof fn registered_push(requests: Seq<RequestView>, next: RequestView)
    ensures
        registered(requests.push(next)) == match next {
            RequestView::Register(slot) => registered(requests).insert(slot),
            RequestView::Deregister(slot) => registered(requests).remove(slot),
            _ => registered(requests),
        },
{
    assert(requests.push(next).drop_last() =~= requests);
}

/// A refusal by the host transport, with the payload of the host's error.
/// None of them is retried or recovered from by the adapter.
#[derive(Debug, PartialEq, Eq)]
pub enum Failure<E> {
    /// The host signalled an error before the connection was open.
    Connect(E),
    /// The host rejected an outbound payload.
    Send(E),
    /// The host rejected the request to close.
    Close(E),
}

} // verus!
