//! Where connections start.

use crate::handshake::Handshake;
use crate::host::registered;
use crate::host::registered_push;
use crate::host::views;
use crate::host::Request;
use crate::host::RequestView;
use crate::host::Slot;
use crate::socket::settling;
use vstd::prelude::*;

verus! {

/// The factory of connection attempts.
#[derive(Clone, Copy, Debug, Default)]
pub struct Provider;

/// What is to be done on the host to start connecting to `url`: the socket
/// is created, and the callbacks for the open and the error event are bound.
pub open spec fn opening(url: Seq<char>) -> Seq<RequestView> {
    seq![
        RequestView::Open(url),
        RequestView::Register(Slot::Open),
        RequestView::Register(Slot::Error),
    ]
}

impl Provider {
    /// Starts an attempt to connect to `url`. The handshake is undecided,
    /// and the requests are those of [`opening`].
    pub fn connect<E>(&self, url: String) -> (started: (Handshake<E>, Vec<Request>))
        ensures
            started.0 == Handshake::<E>::Connecting,
            views(started.1@) == opening(url@),
    {
        let ghost address = url@;
        let mut requests: Vec<Request> = Vec::new();
        requests.push(Request::Open(url));
        requests.push(Request::Register(Slot::Open));
        requests.push(Request::Register(Slot::Error));
        assert(views(requests@) =~= opening(address));
        (Handshake::new(), requests)
    }
}

/// A failed attempt leaves no callback bound on the host: the two of the
/// handshake are cleared, and none is ever bound for messages or for the
/// close event.
pub proof fn failed_attempt_binds_nothing(url: Seq<char>)
    ensures
        registered(opening(url) + settling(false)) == Set::<Slot>::empty(),
{
    let none = Seq::<RequestView>::empty();
    let a = none.push(RequestView::Open(url));
    let b = a.push(RequestView::Register(Slot::Open));
    let c = b.push(RequestView::Register(Slot::Error));
    let d = c.push(RequestView::Deregister(Slot::Open));
    let e = d.push(RequestView::Deregister(Slot::Error));
    registered_push(none, RequestView::Open(url));
    registered_push(a, RequestView::Register(Slot::Open));
    registered_push(b, RequestView::Register(Slot::Error));
    registered_push(c, RequestView::Deregister(Slot::Open));
    registered_push(d, RequestView::Deregister(Slot::Error));
    assert(opening(url) + settling(false) =~= e);
    assert(registered(e) =~= Set::<Slot>::empty());
}

/// An attempt that succeeds leaves exactly two callbacks bound on the host:
/// the one for messages and the one for the close event. A late error event
/// finds its slot cleared.
pub proof fn open_attempt_binds_the_stream(url: Seq<char>)
    ensures
        registered(opening(url) + settling(true)) == set![Slot::Message, Slot::Close],
{
    let none = Seq::<RequestView>::empty();
    let a = none.push(RequestView::Open(url));
    let b = a.push(RequestView::Register(Slot::Open));
    let c = b.push(RequestView::Register(Slot::Error));
    let d = c.push(RequestView::Deregister(Slot::Open));
    let e = d.push(RequestView::Deregister(Slot::Error));
    let f = e.push(RequestView::Register(Slot::Message));
    let g = f.push(RequestView::Register(Slot::Close));
    registered_push(none, RequestView::Open(url));
    registered_push(a, RequestView::Register(Slot::Open));
    registered_push(b, RequestView::Register(Slot::Error));
    registered_push(c, RequestView::Deregister(Slot::Open));
    registered_push(d, RequestView::Deregister(Slot::Error));
    registered_push(e, RequestView::Register(Slot::Message));
    registered_push(f, RequestView::Register(Slot::Close));
    assert(opening(url) + settling(true) =~= g);
    assert(registered(g) =~= set![Slot::Message, Slot::Close]);
}

} // verus!
