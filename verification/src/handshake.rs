//! The connection handshake: a race between the host's open event and its
//! error event, which the first to fire wins for good.

use vstd::prelude::*;

verus! {

/// The state of one connection attempt.
///
/// An attempt starts out `Connecting` and is settled by the first open or
/// error event that reaches it. `Open` and `Failed` are final: whatever
/// fires afterwards changes nothing.
#[derive(Debug, PartialEq, Eq)]
pub enum Handshake<E> {
    /// Neither event has fired yet.
    Connecting,
    /// The open event fired first.
    Open,
    /// The error event fired first; this is what the host reported.
    Failed(E),
}

impl<E> Handshake<E> {
    /// Whether the attempt has been decided.
    pub open spec fn settled(self) -> bool {
        !(self is Connecting)
    }

    /// The state after the host's open event.
    pub open spec fn opened(self) -> Self {
        if self is Connecting {
            Handshake::Open
        } else {
            self
        }
    }

    /// The state after the host's error event with payload `error`.
    pub open spec fn errored(self, error: E) -> Self {
        if self is Connecting {
            Handshake::Failed(error)
        } else {
            self
        }
    }

    /// What the attempt came to, if it has been decided.
    pub open spec fn result(self) -> Option<Result<(), E>> {
        match self {
            Handshake::Connecting => None,
            Handshake::Open => Some(Ok(())),
            Handshake::Failed(error) => Some(Err(error)),
        }
    }

    /// A fresh attempt.
    pub fn new() -> (handshake: Self)
        ensures
            handshake == Handshake::<E>::Connecting,
    {
        Handshake::Connecting
    }

    /// Takes the host's open event. Returns whether this event settled the
    /// attempt, which is when whoever waits for the outcome must be woken.
    pub fn on_open(&mut self) -> (won: bool)
        ensures
            *final(self) == old(self).opened(),
            won == !old(self).settled(),
    {
        if matches!(*self, Handshake::Connecting) {
            *self = Handshake::Open;
            true
        } else {
            false
        }
    }

    /// Takes the host's error event. Returns whether this event settled the
    /// attempt; if it did not, `error` is discarded.
    pub fn on_error(&mut self, error: E) -> (won: bool)
        ensures
            *final(self) == old(self).errored(error),
            won == !old(self).settled(),
    {
        if matches!(*self, Handshake::Connecting) {
            *self = Handshake::Failed(error);
            true
        } else {
            false
        }
    }

    /// Whether the attempt has been decided.
    pub fn is_settled(&self) -> (settled: bool)
        ensures
            settled == self.settled(),
    {
        !matches!(*self, Handshake::Connecting)
    }

    /// Reads the outcome: `None` while the attempt is still undecided,
    /// `Ok` once it is open, the host's error once it has failed.
    pub fn outcome(self) -> (outcome: Option<Result<(), E>>)
        ensures
            outcome == self.result(),
    {
        match self {
            Handshake::Connecting => None,
            Handshake::Open => Some(Ok(())),
            Handshake::Failed(error) => Some(Err(error)),
        }
    }
}

/// An event of the host socket that bears on the handshake.
pub enum Signal<E> {
    /// The open event.
    Opened,
    /// The error event, with what the host reported.
    Errored(E),
}

impl<E> Handshake<E> {
    /// The state after one event.
    pub open spec fn on(self, signal: Signal<E>) -> Self {
        match signal {
            Signal::Opened => self.opened(),
            Signal::Errored(error) => self.errored(error),
        }
    }

    /// The state after a run of events, the first of them first.
    pub open spec fn after(self, signals: Seq<Signal<E>>) -> Self
        decreases signals.len(),
    {
        if signals.len() == 0 {
            self
        } else {
            self.after(signals.drop_last()).on(signals.last())
        }
    }

    /// A settled attempt stays as it is, whatever fires afterwards: the
    /// outcome is written at most once.
    pub proof fn settled_is_final(self, signals: Seq<Signal<E>>)
        requires
            self.settled(),
        ensures
            self.after(signals) == self,
        decreases signals.len(),
    {
        if signals.len() > 0 {
            self.settled_is_final(signals.drop_last());
        }
    }

    /// The first event decides: a run of events leaves the attempt where
    /// its first event put it.
    pub proof fn first_signal_decides(first: Signal<E>, rest: Seq<Signal<E>>)
        ensures
            Handshake::<E>::Connecting.after(seq![first] + rest) == Handshake::<E>::Connecting.on(
                first,
            ),
            Handshake::<E>::Connecting.on(first).settled(),
        decreases rest.len(),
    {
        let run = seq![first] + rest;
        if rest.len() == 0 {
            assert(run.drop_last() =~= Seq::<Signal<E>>::empty());
            assert(Handshake::<E>::Connecting.after(run.drop_last()) == Handshake::<E>::Connecting);
        } else {
            Self::first_signal_decides(first, rest.drop_last());
            assert(run.drop_last() =~= seq![first] + rest.drop_last());
            assert(run.last() == rest.last());
        }
    }

    /// If the error event fires before the open event, the attempt fails
    /// with the host's error, and nothing that fires later changes that.
    pub proof fn error_first_fails(error: E, later: Seq<Signal<E>>)
        ensures
            Handshake::<E>::Connecting.after(seq![Signal::Errored(error)] + later)
                == Handshake::Failed(error),
            Handshake::<E>::Connecting.after(seq![Signal::Errored(error)] + later).result()
                == Some(Err::<(), E>(error)),
    {
        Self::first_signal_decides(Signal::Errored(error), later);
    }

    /// If the open event fires before the error event, the attempt
    /// succeeds, and an error that fires later has no effect.
    pub proof fn open_first_succeeds(later: Seq<Signal<E>>)
        ensures
            Handshake::<E>::Connecting.after(seq![Signal::<E>::Opened] + later)
                == Handshake::<E>::Open,
            Handshake::<E>::Connecting.after(seq![Signal::<E>::Opened] + later).result() == Some(
                Ok::<(), E>(()),
            ),
    {
        Self::first_signal_decides(Signal::Opened, later);
    }
}

} // verus!
