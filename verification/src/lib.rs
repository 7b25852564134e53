//! A one-shot value that resolves once it is explicitly completed, possibly
//! from another thread or task.

use vstd::prelude::*;
use std::sync::Arc;
use std::task::Waker;
use parking_lot::Mutex;
use crate::shared::{lock, locked, protect};

mod awaitable;
pub mod completer;
pub mod error;
pub mod laws;
mod shared;
pub mod state;
mod wake;

pub use crate::completer::FutureCompleter;
pub use crate::error::Error;
pub use crate::state::{Polled, State};

verus! {

/// The consumer side of a pair: resolves once, to the value that the
/// completer supplies or to an error.
#[verifier::reject_recursive_types(T)]
pub struct ControlledFuture<T: Unpin> {
    state: Arc<Mutex<State<T>>>,
}

impl<T: Unpin + Send + 'static> ControlledFuture<T> {
    /// The shared cell that this endpoint refers to.
    pub closed spec fn cell(self) -> Arc<Mutex<State<T>>> {
        self.state
    }

    /// A pair that resolves once the returned completer sets a value. The two
    /// endpoints refer to one cell, which starts out unresolved.
    #[must_use]
    pub fn new() -> (pair: (Self, FutureCompleter<T>))
        ensures
            pair.0.cell() == pair.1.cell(),
    {
        let cell = Arc::new(protect(State::new()));
        (Self { state: cell.clone() }, FutureCompleter::attach(cell))
    }

    /// An awaitable that resolves at once to `value`. There is no completer,
    /// as nothing is left to produce.
    #[must_use]
    pub fn new_completed(value: T) -> (future: Self) {
        Self { state: Arc::new(protect(State::new_completed(value))) }
    }

    /// One poll on behalf of the consumer that resumes through `waker`. The
    /// transition is [`State::poll`], made under the lock.
    pub fn poll_with(&self, waker: &Waker) -> (res: Polled<T>) {
        let mut guard = lock(&self.state);
        let state = locked(&mut guard);
        state.poll(waker)
    }
}

} // verus!
