use vstd::prelude::*;
use std::sync::Arc;
use parking_lot::Mutex;
use crate::error::Error;
use crate::shared::{lock, locked};
use crate::state::State;
use crate::wake::wake;

verus! {

/// The producer side of a pair: the only way to resolve the value.
///
/// A completer that goes away without having called
/// [`FutureCompleter::complete`] marks the pair as abandoned, and the
/// awaitable then resolves to [`Error::CompleterDropped`].
#[verifier::reject_recursive_types(T)]
pub struct FutureCompleter<T: Unpin + Send + 'static> {
    state: Arc<Mutex<State<T>>>,
}

impl<T: Unpin + Send + 'static> FutureCompleter<T> {
    /// The shared cell that this endpoint refers to.
    pub closed spec fn cell(self) -> Arc<Mutex<State<T>>> {
        self.state
    }

    /// The completer of the pair that lives in `cell`.
    pub(crate) fn attach(cell: Arc<Mutex<State<T>>>) -> (completer: Self)
        ensures
            completer.cell() == cell,
    {
        FutureCompleter { state: cell }
    }

    /// Resolves the pair to `value` and resumes the consumer if it is
    /// suspended. The transition is [`State::complete`], made under the lock;
    /// the consumer is resumed after the lock is released.
    pub fn complete(self, value: T) -> (res: Result<(), Error>) {
        let (res, resume) = {
            let mut guard = lock(&self.state);
            let state = locked(&mut guard);
            state.complete(value)
        };
        match resume {
            Some(handle) => wake(handle),
            None => {},
        }
        res
    }
}

impl<T: Unpin + Send + 'static> Drop for FutureCompleter<T> {
    /// Marks the pair as abandoned unless it is resolved, and resumes the
    /// consumer if it is suspended. The transition is [`State::abandon`].
    fn drop(&mut self)
        opens_invariants none
        no_unwind
    {
        let resume = {
            let mut guard = lock(&self.state);
            let state = locked(&mut guard);
            state.abandon()
        };
        match resume {
            Some(handle) => wake(handle),
            None => {},
        }
    }
}

} // verus!
