//! The stream of received payloads as a mathematical object, and what holds
//! of it however the host's events and the reader's pulls alternate.

use core::task::Poll;
use vstd::prelude::*;

verus! {

/// The stream as a mathematical value: the adapter's inbound queue.
pub struct StreamView {
    /// The payloads waiting to be read, oldest first.
    pub pending: Seq<Seq<u8>>,
    /// Whether the producing side has been closed.
    pub closed: bool,
}

impl StreamView {
    /// An open queue that holds nothing.
    pub open spec fn fresh() -> Self {
        StreamView { pending: Seq::empty(), closed: false }
    }

    /// The queue after `payload` has been offered to it: appended while the
    /// queue is open, dropped once it is closed.
    pub open spec fn deliver(self, payload: Seq<u8>) -> Self {
        if self.closed {
            self
        } else {
            StreamView { pending: self.pending.push(payload), closed: false }
        }
    }

    /// The queue after its producing side has been closed. What is pending
    /// stays readable.
    pub open spec fn close(self) -> Self {
        StreamView { pending: self.pending, closed: true }
    }

    /// What a read returns: the oldest payload if there is one, the end of
    /// the stream if the queue is closed and empty, and otherwise nothing
    /// yet.
    pub open spec fn next(self) -> Poll<Option<Seq<u8>>> {
        if self.pending.len() > 0 {
            Poll::Ready(Some(self.pending.first()))
        } else if self.closed {
            Poll::Ready(None)
        } else {
            Poll::Pending
        }
    }

    /// The queue after a read: without its oldest payload, if it had one.
    pub open spec fn advance(self) -> Self {
        if self.pending.len() > 0 {
            StreamView { pending: self.pending.drop_first(), closed: self.closed }
        } else {
            self
        }
    }
}

/// What a read returned, with the payload as a sequence of bytes.
pub open spec fn poll_view(polled: Poll<Option<Vec<u8>>>) -> Poll<Option<Seq<u8>>> {
    match polled {
        Poll::Ready(Some(payload)) => Poll::Ready(Some(payload@)),
        Poll::Ready(None) => Poll::Ready(None),
        Poll::Pending => Poll::Pending,
    }
}

/// One thing that happens to the stream.
pub enum Event {
    /// The host delivers a payload.
    Message(Seq<u8>),
    /// The host reports that the connection has ended.
    Close,
    /// The reader pulls.
    Read,
}

/// A run of `count` pulls.
pub open spec fn reads(count: nat) -> Seq<Event> {
    Seq::new(count, |i: int| Event::Read)
}

/// A run of deliveries, one for each of `payloads`, in their order.
pub open spec fn messages(payloads: Seq<Seq<u8>>) -> Seq<Event> {
    payloads.map_values(|payload: Seq<u8>| Event::Message(payload))
}

impl StreamView {
    /// The queue after one event.
    pub open spec fn on(self, event: Event) -> Self {
        match event {
            Event::Message(payload) => self.deliver(payload),
            Event::Close => self.close(),
            Event::Read => self.advance(),
        }
    }

    /// The queue after a run of events, the first of them first.
    pub open spec fn run(self, events: Seq<Event>) -> Self
        decreases events.len(),
    {
        if events.len() == 0 {
            self
        } else {
            self.run(events.drop_last()).on(events.last())
        }
    }

    /// The payloads that the queue takes in during a run of events: those
    /// delivered while it is open.
    pub open spec fn taken(self, events: Seq<Event>) -> Seq<Seq<u8>>
        decreases events.len(),
    {
        if events.len() == 0 {
            Seq::empty()
        } else {
            let before = self.taken(events.drop_last());
            match events.last() {
                Event::Message(payload) if !self.run(events.drop_last()).closed => before.push(
                    payload,
                ),
                _ => before,
            }
        }
    }

    /// The payloads that the reader gets during a run of events, in the
    /// order in which it gets them.
    pub open spec fn yielded(self, events: Seq<Event>) -> Seq<Seq<u8>>
        decreases events.len(),
    {
        if events.len() == 0 {
            Seq::empty()
        } else {
            let before = self.yielded(events.drop_last());
            match (events.last(), self.run(events.drop_last()).next()) {
                (Event::Read, Poll::Ready(Some(payload))) => before.push(payload),
                _ => before,
            }
        }
    }

    /// Whether the stream has ended: closed, with nothing left to read.
    pub open spec fn ended(self) -> bool {
        self.closed && self.pending.len() == 0
    }
}

impl StreamView {
    /// A run in two parts is the first part, then the second from where the
    /// first left the queue.
    pub proof fn run_in_parts(self, first: Seq<Event>, second: Seq<Event>)
        ensures
            self.run(first + second) == self.run(first).run(second),
            self.taken(first + second) == self.taken(first) + self.run(first).taken(second),
            self.yielded(first + second) == self.yielded(first) + self.run(first).yielded(second),
        decreases second.len(),
    {
        let whole = first + second;
        if second.len() == 0 {
            assert(whole =~= first);
            assert(self.taken(first) + self.run(first).taken(second) =~= self.taken(first));
            assert(self.yielded(first) + self.run(first).yielded(second) =~= self.yielded(first));
        } else {
            self.run_in_parts(first, second.drop_last());
            assert(whole.drop_last() =~= first + second.drop_last());
            assert(whole.last() == second.last());
            let middle = self.run(first);
            assert(self.taken(whole) =~= self.taken(first) + middle.taken(second));
            assert(self.yielded(whole) =~= self.yielded(first) + middle.yielded(second));
        }
    }

    /// Nothing is lost, repeated or reordered: at every moment, what the
    /// queue held at the start and has taken in since is what the reader
    /// has got, followed by what is still waiting.
    pub proof fn order_is_kept(self, events: Seq<Event>)
        ensures
            self.pending + self.taken(events) == self.yielded(events) + self.run(events).pending,
        decreases events.len(),
    {
        if events.len() == 0 {
            assert(self.pending + self.taken(events) =~= self.yielded(events) + self.pending);
        } else {
            self.order_is_kept(events.drop_last());
            let before = self.run(events.drop_last());
            let taken = self.taken(events.drop_last());
            let yielded = self.yielded(events.drop_last());
            assert(self.pending + taken == yielded + before.pending);
            match events.last() {
                Event::Message(payload) => {
                    if !before.closed {
                        assert(self.pending + taken.push(payload) =~= (self.pending + taken).push(
                            payload,
                        ));
                        assert(yielded + before.pending.push(payload) =~= (yielded
                            + before.pending).push(payload));
                    }
                },
                Event::Close => {},
                Event::Read => {
                    if before.pending.len() > 0 {
                        assert(yielded.push(before.pending.first()) + before.pending.drop_first()
                            =~= yielded + before.pending);
                    }
                },
            }
        }
    }

    /// Closing a closed stream changes nothing.
    pub proof fn close_is_idempotent(self)
        ensures
            self.close().close() == self.close(),
    {
    }

    /// A closed stream takes nothing in: whatever the host delivers after
    /// the close event, the stream stays closed, the reader gets what was
    /// waiting and no more, and once that is read every pull returns the end
    /// of the stream.
    pub proof fn closed_takes_nothing(self, events: Seq<Event>)
        requires
            self.closed,
        ensures
            self.run(events).closed,
            self.taken(events) == Seq::<Seq<u8>>::empty(),
            self.yielded(events) + self.run(events).pending == self.pending,
            self.run(events).pending.len() == 0 ==> self.run(events).next() == Poll::Ready(
                None::<Seq<u8>>,
            ),
        decreases events.len(),
    {
        if events.len() > 0 {
            self.closed_takes_nothing(events.drop_last());
        }
        self.order_is_kept(events);
        assert(self.pending + self.taken(events) =~= self.pending);
    }

    /// A stream that has ended stays ended: every later pull returns the
    /// end of the stream, whatever happens in between.
    pub proof fn ended_is_final(self, events: Seq<Event>)
        requires
            self.ended(),
        ensures
            self.run(events) == self,
            self.yielded(events) == Seq::<Seq<u8>>::empty(),
            self.run(events).next() == Poll::Ready(None::<Seq<u8>>),
        decreases events.len(),
    {
        if events.len() > 0 {
            self.ended_is_final(events.drop_last());
        }
    }

    /// Deliveries to an open queue line up behind what is waiting, and the
    /// reader gets nothing by them.
    pub proof fn messages_queue_up(self, payloads: Seq<Seq<u8>>)
        requires
            !self.closed,
        ensures
            self.run(messages(payloads)) == (StreamView {
                pending: self.pending + payloads,
                closed: false,
            }),
            self.taken(messages(payloads)) == payloads,
            self.yielded(messages(payloads)) == Seq::<Seq<u8>>::empty(),
        decreases payloads.len(),
    {
        let events = messages(payloads);
        if payloads.len() == 0 {
            assert(self.pending + payloads =~= self.pending);
            assert(self.taken(events) =~= payloads);
        } else {
            self.messages_queue_up(payloads.drop_last());
            assert(events.drop_last() =~= messages(payloads.drop_last()));
            assert(events.last() == Event::Message(payloads.last()));
            assert((self.pending + payloads.drop_last()).push(payloads.last()) =~= self.pending
                + payloads);
            assert(payloads.drop_last().push(payloads.last()) =~= payloads);
        }
    }

    /// Pulls take what is waiting, oldest first.
    pub proof fn reads_take_the_oldest(self, count: nat)
        requires
            count <= self.pending.len(),
        ensures
            self.run(reads(count)) == (StreamView {
                pending: self.pending.skip(count as int),
                closed: self.closed,
            }),
            self.yielded(reads(count)) == self.pending.take(count as int),
        decreases count,
    {
        let events = reads(count);
        if count == 0 {
            assert(self.pending.skip(0) =~= self.pending);
            assert(self.pending.take(0) =~= Seq::<Seq<u8>>::empty());
        } else {
            let fewer = (count - 1) as nat;
            self.reads_take_the_oldest(fewer);
            assert(events.drop_last() =~= reads(fewer));
            assert(events.last() == Event::Read);
            let before = self.run(reads(fewer));
            assert(before.pending.first() == self.pending[count - 1]);
            assert(before.pending.drop_first() =~= self.pending.skip(count as int));
            assert(self.pending.take(fewer as int).push(self.pending[count - 1])
                =~= self.pending.take(count as int));
        }
    }

    /// Payloads delivered to a fresh stream are read back as they came:
    /// after as many pulls as there were deliveries the reader has exactly
    /// those payloads, in their order, and the queue is empty again.
    pub proof fn messages_are_read_in_order(payloads: Seq<Seq<u8>>)
        ensures
            StreamView::fresh().yielded(messages(payloads) + reads(payloads.len())) == payloads,
            StreamView::fresh().run(messages(payloads) + reads(payloads.len()))
                == StreamView::fresh(),
    {
        let fresh = StreamView::fresh();
        let filled = fresh.run(messages(payloads));
        fresh.run_in_parts(messages(payloads), reads(payloads.len()));
        fresh.messages_queue_up(payloads);
        assert(fresh.pending + payloads =~= payloads);
        filled.reads_take_the_oldest(payloads.len());
        assert(payloads.skip(payloads.len() as int) =~= Seq::<Seq<u8>>::empty());
        assert(payloads.take(payloads.len() as int) =~= payloads);
        assert(Seq::<Seq<u8>>::empty() + payloads =~= payloads);
    }
}

} // verus!
