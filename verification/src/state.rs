use vstd::prelude::*;
use std::task::Waker;
use crate::error::Error;
use crate::wake::{will_wake, duplicate};

verus! {

/// What one poll of the awaitable reports.
#[derive(Debug, PartialEq, Eq)]
pub enum Polled<T> {
    /// Not resolved yet: the consumer is suspended until its handle is invoked.
    Pending,
    /// The final result.
    Ready(Result<T, Error>),
}

/// The status shared by the two endpoints of a pair.
pub enum State<T> {
    /// No value yet, and no consumer suspended.
    Incomplete,
    /// No value yet; a consumer is suspended and resumes through the handle.
    Waiting(Waker),
    /// The value was produced. The slot is emptied when a poll delivers it.
    Complete(Option<T>),
    /// The completer went away without producing a value.
    Dropped,
}

impl<T> State<T> {
    /// No further transition is triggered by the producer side.
    pub open spec fn is_terminal(self) -> bool {
        self is Complete || self is Dropped
    }

    /// The handle of the suspended consumer, if there is one.
    pub open spec fn suspended(self) -> Option<Waker> {
        match self {
            State::Waiting(handle) => Some(handle),
            _ => None,
        }
    }

    /// The state after the producer offers `value`.
    pub open spec fn completed(self, value: T) -> State<T> {
        if self.is_terminal() {
            self
        } else {
            State::Complete(Some(value))
        }
    }

    /// What the producer is told when it offers a value.
    pub open spec fn completion(self) -> Result<(), Error> {
        match self {
            State::Incomplete | State::Waiting(_) => Ok(()),
            State::Complete(_) => Err(Error::AlreadyCompleted),
            State::Dropped => Err(Error::CompleterDropped),
        }
    }

    /// The state after the producer goes away without offering a value.
    pub open spec fn abandoned(self) -> State<T> {
        match self {
            State::Complete(_) => self,
            _ => State::Dropped,
        }
    }

    /// The state after `handle` is registered for a consumer about to suspend.
    pub open spec fn registered(self, handle: Waker) -> State<T> {
        if self.is_terminal() {
            self
        } else {
            State::Waiting(handle)
        }
    }

    /// What a poll reports in this state.
    pub open spec fn outcome(self) -> Polled<T> {
        match self {
            State::Incomplete | State::Waiting(_) => Polled::Pending,
            State::Complete(Some(value)) => Polled::Ready(Ok(value)),
            State::Complete(None) => Polled::Ready(Err(Error::AlreadyCompleted)),
            State::Dropped => Polled::Ready(Err(Error::CompleterDropped)),
        }
    }

    /// The state after a poll. `same` tells whether the handle already
    /// registered, if any, was judged equivalent to the one offered, and
    /// `handle` is the copy of the offered one that is stored otherwise.
    pub open spec fn polled(self, same: bool, handle: Waker) -> State<T> {
        match self {
            State::Incomplete => State::Waiting(handle),
            State::Waiting(_) => if same { self } else { State::Waiting(handle) },
            State::Complete(_) => State::Complete(None),
            State::Dropped => State::Dropped,
        }
    }

    /// The name of the variant, as shown in diagnostics.
    pub open spec fn label(self) -> Seq<char> {
        match self {
            State::Incomplete => "Incomplete"@,
            State::Waiting(_) => "Waiting"@,
            State::Complete(_) => "Complete"@,
            State::Dropped => "Dropped"@,
        }
    }

    /// The name of the variant, as shown in diagnostics.
    pub fn name(&self) -> (res: &'static str)
        ensures
            res@ == self.label(),
    {
        match self {
            State::Incomplete => "Incomplete",
            State::Waiting(_) => "Waiting",
            State::Complete(_) => "Complete",
            State::Dropped => "Dropped",
        }
    }

    /// A fresh, unresolved state.
    pub fn new() -> (state: State<T>)
        ensures
            state == State::<T>::Incomplete,
    {
        State::Incomplete
    }

    /// A state that already holds its value.
    pub fn new_completed(value: T) -> (state: State<T>)
        ensures
            state == State::Complete(Some(value)),
    {
        State::Complete(Some(value))
    }

    /// The producer offers `value`. Returns what the producer is told, and the
    /// handle of the consumer to resume, which has left the state.
    pub fn complete(&mut self, value: T) -> (res: (Result<(), Error>, Option<Waker>))
        ensures
            *final(self) == old(self).completed(value),
            res.0 == old(self).completion(),
            res.1 == old(self).suspended(),
    {
        let mut previous = State::Complete(Some(value));
        std::mem::swap(self, &mut previous);
        match previous {
            State::Incomplete => (Ok(()), None),
            State::Waiting(handle) => (Ok(()), Some(handle)),
            State::Complete(slot) => {
                *self = State::Complete(slot);
                (Err(Error::AlreadyCompleted), None)
            },
            State::Dropped => {
                *self = State::Dropped;
                (Err(Error::CompleterDropped), None)
            },
        }
    }

    /// The producer goes away. Returns the handle of the consumer to resume,
    /// which has left the state.
    pub fn abandon(&mut self) -> (resume: Option<Waker>)
        ensures
            *final(self) == old(self).abandoned(),
            resume == old(self).suspended(),
        opens_invariants none
        no_unwind
    {
        let mut previous = State::Dropped;
        std::mem::swap(self, &mut previous);
        match previous {
            State::Incomplete => None,
            State::Dropped => None,
            State::Waiting(handle) => Some(handle),
            State::Complete(slot) => {
                *self = State::Complete(slot);
                None
            },
        }
    }

    /// Stores `handle` for a consumer about to suspend, in place of an earlier
    /// one. A terminal state keeps no handle and is left as it is.
    pub fn register(&mut self, handle: Waker)
        ensures
            *final(self) == old(self).registered(handle),
    {
        match self {
            State::Incomplete | State::Waiting(_) => {
                *self = State::Waiting(handle);
            },
            _ => {},
        }
    }

    /// One poll on behalf of the consumer that resumes through `waker`.
    ///
    /// An unresolved state reports "not ready" and keeps a handle: the one
    /// already registered if it is judged equivalent to `waker`, else a copy
    /// of `waker`. A resolved state reports its result, and a value leaves
    /// the slot with the poll that delivers it.
    pub fn poll(&mut self, waker: &Waker) -> (res: Polled<T>)
        ensures
            res == old(self).outcome(),
            exists|same: bool, handle: Waker|
                *final(self) == #[trigger] old(self).polled(same, handle),
    {
        match self {
            State::Incomplete => {
                let handle = duplicate(waker);
                self.register(handle);
                assert(*self == old(self).polled(false, handle));
                Polled::Pending
            },
            State::Waiting(current) => {
                if will_wake(current, waker) {
                    assert(*self == old(self).polled(true, *waker));
                } else {
                    let handle = duplicate(waker);
                    self.register(handle);
                    assert(*self == old(self).polled(false, handle));
                }
                Polled::Pending
            },
            State::Complete(slot) => {
                let taken = slot.take();
                assert(*self == old(self).polled(true, *waker));
                match taken {
                    Some(value) => Polled::Ready(Ok(value)),
                    None => Polled::Ready(Err(Error::AlreadyCompleted)),
                }
            },
            State::Dropped => {
                assert(*self == old(self).polled(true, *waker));
                Polled::Ready(Err(Error::CompleterDropped))
            },
        }
    }
}

impl<T> From<Option<T>> for State<T> {
    /// A state that holds `value` if there is one, and is unresolved if not.
    fn from(value: Option<T>) -> (state: State<T>) {
        match value {
            Some(inner) => State::Complete(Some(inner)),
            None => State::Incomplete,
        }
    }
}

impl<T> vstd::std_specs::convert::FromSpecImpl<Option<T>> for State<T> {
    open spec fn obeys_from_spec() -> bool {
        true
    }

    open spec fn from_spec(value: Option<T>) -> State<T> {
        match value {
            Some(_) => State::Complete(value),
            None => State::Incomplete,
        }
    }
}

} // verus!
