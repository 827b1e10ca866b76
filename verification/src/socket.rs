//! The adapter itself: the stream of received payloads and the sink for
//! outbound ones.

use crate::channel::channel_closed;
use crate::channel::channel_pending;
use crate::channel::CAPACITY;
use crate::host::views;
use crate::host::Failure;
use crate::host::Request;
use crate::host::RequestView;
use crate::host::Slot;
use crate::stream::poll_view;
use crate::stream::StreamView;
use core::pin::Pin;
use core::task::Context;
use core::task::Poll;
use futures::channel::mpsc::unbounded;
use futures::channel::mpsc::UnboundedReceiver;
use futures::channel::mpsc::UnboundedSender;
use futures::Stream;
use vstd::prelude::*;

verus! {

/// An open connection, seen from the adapter's side.
///
/// The host glue feeds it the host's message and close events and carries
/// out the requests that its sink operations return. The reader pulls the
/// payloads out in the order in which they arrived.
///
/// The inbound queue is an unbounded channel of `futures`. The adapter keeps
/// both halves: `sender` is the only sender that the channel of `messages`
/// ever has. The two fields are set together, when the channel is made, and
/// never again.
pub struct Socket {
    sender: UnboundedSender<Vec<u8>>,
    messages: UnboundedReceiver<Vec<u8>>,
}

impl View for Socket {
    type V = StreamView;

    closed spec fn view(&self) -> StreamView {
        StreamView { pending: channel_pending(self.messages), closed: channel_closed(self.messages) }
    }
}

/// What is to be done on the host once the handshake is settled: both
/// handshake slots are cleared, and if the connection is open the callbacks
/// for messages and for the close event are bound.
pub open spec fn settling(opened: bool) -> Seq<RequestView> {
    if opened {
        seq![
            RequestView::Deregister(Slot::Open),
            RequestView::Deregister(Slot::Error),
            RequestView::Register(Slot::Message),
            RequestView::Register(Slot::Close),
        ]
    } else {
        seq![RequestView::Deregister(Slot::Open), RequestView::Deregister(Slot::Error)]
    }
}

impl Socket {
    /// Calls `futures::channel::mpsc::unbounded` and keeps both halves. The
    /// contract claims that a new channel is open and holds nothing.
    /// Every adapter is made here, so its two halves are always those of
    /// one channel; the contracts of the four wrappers below rest on that.
    #[verifier::external_body]
    fn open() -> (socket: Socket)
        ensures
            channel_pending(socket.messages) == Seq::<Seq<u8>>::empty(),
            !channel_closed(socket.messages),
    {
        let (sender, messages) = unbounded();
        Socket { sender, messages }
    }

    /// Calls `UnboundedSender::unbounded_send` on `sender`. The contract
    /// claims that an open channel takes the payload behind those it holds,
    /// that a closed one refuses it and stays as it was, and that the result
    /// tells which of the two happened. An open channel that holds
    /// [`CAPACITY`] payloads would panic, and is excluded.
    #[verifier::external_body]
    fn enqueue(&mut self, payload: Vec<u8>) -> (accepted: bool)
        requires
            channel_pending(old(self).messages).len() < CAPACITY,
        ensures
            accepted == !channel_closed(old(self).messages),
            channel_closed(final(self).messages) == channel_closed(old(self).messages),
            accepted ==> channel_pending(final(self).messages) == channel_pending(
                old(self).messages,
            ).push(payload@),
            !accepted ==> channel_pending(final(self).messages) == channel_pending(
                old(self).messages,
            ),
    {
        self.sender.unbounded_send(payload).is_ok()
    }

    /// Calls `UnboundedSender::close_channel` on `sender`. The contract
    /// claims that the channel is closed afterwards, whether or not it was
    /// before, and that it still holds what it held.
    #[verifier::external_body]
    fn close_channel(&mut self)
        ensures
            channel_closed(final(self).messages),
            channel_pending(final(self).messages) == channel_pending(old(self).messages),
    {
        self.sender.close_channel()
    }

    /// Calls `UnboundedSender::len` on `sender`. The contract claims that
    /// the result is the number of payloads that the channel holds.
    #[verifier::external_body]
    fn count(&self) -> (count: usize)
        ensures
            count == channel_pending(self.messages).len(),
    {
        self.sender.len()
    }

    /// Calls `Stream::poll_next` on `messages`, the `UnboundedReceiver`. The
    /// contract claims that the oldest payload is taken out and returned if
    /// the channel holds one, that `Ready(None)` is returned if it is empty
    /// and closed, and `Pending` if it is empty and open; in the last two
    /// cases the channel stays as it was.
    #[verifier::external_body]
    fn dequeue(&mut self, cx: &mut Context<'_>) -> (polled: Poll<Option<Vec<u8>>>)
        ensures
            channel_closed(final(self).messages) == channel_closed(old(self).messages),
            match polled {
                Poll::Ready(Some(payload)) => {
                    &&& channel_pending(old(self).messages).len() > 0
                    &&& payload@ == channel_pending(old(self).messages).first()
                    &&& channel_pending(final(self).messages) == channel_pending(
                        old(self).messages,
                    ).drop_first()
                },
                Poll::Ready(None) => {
                    &&& channel_pending(old(self).messages).len() == 0
                    &&& channel_closed(old(self).messages)
                    &&& channel_pending(final(self).messages) == channel_pending(
                        old(self).messages,
                    )
                },
                Poll::Pending => {
                    &&& channel_pending(old(self).messages).len() == 0
                    &&& !channel_closed(old(self).messages)
                    &&& channel_pending(final(self).messages) == channel_pending(
                        old(self).messages,
                    )
                },
            },
    {
        Pin::new(&mut self.messages).poll_next(cx)
    }

    /// Concludes a connection attempt whose handshake came to `outcome`.
    ///
    /// An open connection gives an adapter with an empty, open stream; a
    /// failed one gives the host's error as a connect failure. The requests
    /// are those of [`settling`].
    pub fn new<E>(outcome: Result<(), E>) -> (connected: (Result<Socket, Failure<E>>, Vec<Request>))
        ensures
            match outcome {
                Ok(_) => connected.0 matches Ok(socket) && socket@ == StreamView::fresh(),
                Err(error) => connected.0 matches Err(failure) && failure == Failure::Connect(
                    error,
                ),
            },
            views(connected.1@) == settling(outcome is Ok),
    {
        let mut requests: Vec<Request> = Vec::new();
        requests.push(Request::Deregister(Slot::Open));
        requests.push(Request::Deregister(Slot::Error));
        match outcome {
            Ok(_) => {
                requests.push(Request::Register(Slot::Message));
                requests.push(Request::Register(Slot::Close));
                let socket = Socket::open();
                assert(views(requests@) =~= settling(true));
                (Ok(socket), requests)
            },
            Err(error) => {
                assert(views(requests@) =~= settling(false));
                (Err(Failure::Connect(error)), requests)
            },
        }
    }

    /// Takes one payload from the host's message event. While the stream is
    /// open the payload is queued behind those already waiting; once the
    /// stream is closed it is dropped. Returns whether it was queued.
    ///
    /// Fewer than [`CAPACITY`] payloads may be waiting when this is called.
    pub fn on_message(&mut self, payload: Vec<u8>) -> (queued: bool)
        requires
            old(self)@.pending.len() < CAPACITY,
        ensures
            final(self)@ == old(self)@.deliver(payload@),
            queued == !old(self)@.closed,
    {
        self.enqueue(payload)
    }

    /// Takes one payload from the host's message event, for a caller that
    /// does not know how much is waiting. Where [`Socket::on_message`] may be
    /// called this does what it does; otherwise the payload is handed back
    /// and the adapter stays as it is.
    pub fn offer(&mut self, payload: Vec<u8>) -> (offered: Result<bool, Vec<u8>>)
        ensures
            old(self)@.pending.len() < CAPACITY ==> {
                &&& offered == Ok::<bool, Vec<u8>>(!old(self)@.closed)
                &&& final(self)@ == old(self)@.deliver(payload@)
            },
            old(self)@.pending.len() >= CAPACITY ==> {
                &&& offered == Err::<bool, Vec<u8>>(payload)
                &&& final(self)@ == old(self)@
            },
    {
        if self.backlog() < CAPACITY {
            Ok(self.on_message(payload))
        } else {
            Err(payload)
        }
    }

    /// Takes the host's close event: the stream ends once the payloads that
    /// are already waiting have been read. Closing twice is closing once.
    pub fn on_close(&mut self)
        ensures
            final(self)@ == old(self)@.close(),
    {
        self.close_channel()
    }

    /// The number of payloads waiting to be read.
    pub fn backlog(&self) -> (count: usize)
        ensures
            count == self@.pending.len(),
    {
        self.count()
    }

    /// Reads from the stream: the oldest waiting payload, or the end of the
    /// stream once it is closed and drained, or `Pending`, in which case the
    /// task of `cx` is woken when a payload or the close event arrives.
    pub fn poll_next(&mut self, cx: &mut Context<'_>) -> (polled: Poll<Option<Vec<u8>>>)
        ensures
            poll_view(polled) == old(self)@.next(),
            final(self)@ == old(self)@.advance(),
    {
        self.dequeue(cx)
    }

    /// Whether the sink can take a payload. It always can: the host buffers
    /// outbound payloads itself and shows no backpressure.
    pub fn poll_ready<E>(&self) -> (ready: Poll<Result<(), Failure<E>>>)
        ensures
            ready == Poll::Ready(Ok::<(), Failure<E>>(())),
    {
        Poll::Ready(Ok(()))
    }

    /// Starts sending `item`: the host is asked to transmit exactly this
    /// payload. Its answer goes to [`Socket::finish_send`].
    pub fn start_send(&self, item: Vec<u8>) -> (request: Request)
        ensures
            request@ == RequestView::Send(item@),
    {
        Request::Send(item)
    }

    /// Takes the host's answer to a send request. A rejection is reported as
    /// a send failure with the host's error; the adapter stays as it is.
    pub fn finish_send<E>(&self, reply: Result<(), E>) -> (sent: Result<(), Failure<E>>)
        ensures
            match reply {
                Ok(_) => sent == Ok::<(), Failure<E>>(()),
                Err(error) => sent == Err::<(), Failure<E>>(Failure::Send(error)),
            },
    {
        match reply {
            Ok(_) => Ok(()),
            Err(error) => Err(Failure::Send(error)),
        }
    }

    /// Flushes the sink. Nothing is ever held back, so this is always done.
    pub fn poll_flush<E>(&self) -> (flushed: Poll<Result<(), Failure<E>>>)
        ensures
            flushed == Poll::Ready(Ok::<(), Failure<E>>(())),
    {
        Poll::Ready(Ok(()))
    }

    /// Starts closing the sink: the host is asked to close the connection.
    /// Its answer goes to [`Socket::finish_close`].
    pub fn poll_close(&self) -> (request: Request)
        ensures
            request@ == RequestView::Close,
    {
        Request::Close
    }

    /// Takes the host's answer to a close request. The close is complete as
    /// soon as the host has accepted or rejected the request: the end of the
    /// closing handshake is not waited for. A rejection is reported as a
    /// close failure with the host's error.
    pub fn finish_close<E>(&self, reply: Result<(), E>) -> (closed: Poll<Result<(), Failure<E>>>)
        ensures
            match reply {
                Ok(_) => closed == Poll::Ready(Ok::<(), Failure<E>>(())),
                Err(error) => closed == Poll::Ready(
                    Err::<(), Failure<E>>(Failure::Close(error)),
                ),
            },
    {
        match reply {
            Ok(_) => Poll::Ready(Ok(())),
            Err(error) => Poll::Ready(Err(Failure::Close(error))),
        }
    }

    /// Gives the adapter up. The host is asked, once, to close the
    /// connection; what it answers is of no interest to anyone.
    pub fn drop(self) -> (request: Request)
        ensures
            request@ == RequestView::Close,
    {
        Request::Close
    }
}

} // verus!
