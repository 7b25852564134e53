use vstd::prelude::*;
use std::task::Waker;
use crate::error::Error;
use crate::state::{Polled, State};

verus! {

/// A state built with its value resolves to that value on the first poll.
pub proof fn lemma_precompleted_resolves<T>(value: T)
    ensures
        State::Complete(Some(value)).outcome() == Polled::Ready(Ok::<T, Error>(value)),
{
}

/// Completing a fresh pair before its first poll succeeds, and the first poll
/// then yields the value.
pub proof fn lemma_complete_before_poll<T>(value: T)
    ensures
        State::<T>::Incomplete.completion() == Ok::<(), Error>(()),
        State::<T>::Incomplete.completed(value).outcome() == Polled::Ready(Ok::<T, Error>(value)),
{
}

/// A poll of an unresolved state reports "not ready" and leaves a handle
/// registered. Completing then succeeds, hands out exactly the registered
/// handle for resumption, and the next poll yields the value.
pub proof fn lemma_suspend_then_complete<T>(state: State<T>, same: bool, handle: Waker, value: T)
    requires
        !state.is_terminal(),
    ensures
        state.outcome() == Polled::<T>::Pending,
        state.polled(same, handle) is Waiting,
        state.polled(same, handle).completion() == Ok::<(), Error>(()),
        state.polled(same, handle).suspended() is Some,
        state is Incomplete ==> state.polled(same, handle).suspended() == Some(handle),
        state.polled(same, handle).completed(value).outcome() == Polled::Ready(
            Ok::<T, Error>(value),
        ),
{
}

/// After a completion, the first poll yields the value and empties the slot;
/// every later poll reports that the value was already delivered.
pub proof fn lemma_value_delivered_once<T>(
    state: State<T>,
    value: T,
    same: bool,
    handle: Waker,
    again: bool,
    other: Waker,
)
    requires
        !state.is_terminal(),
    ensures
        state.completed(value).outcome() == Polled::Ready(Ok::<T, Error>(value)),
        state.completed(value).polled(same, handle).outcome() == Polled::Ready(
            Err::<T, Error>(Error::AlreadyCompleted),
        ),
        state.completed(value).polled(same, handle).polled(again, other)
            == state.completed(value).polled(same, handle),
{
}

/// A pair whose completer goes away before any poll resolves to
/// `CompleterDropped`, on the first poll and on every later one.
pub proof fn lemma_abandoned_before_poll<T>(same: bool, handle: Waker)
    ensures
        State::<T>::Incomplete.abandoned().outcome() == Polled::Ready(
            Err::<T, Error>(Error::CompleterDropped),
        ),
        State::<T>::Incomplete.abandoned().polled(same, handle)
            == State::<T>::Incomplete.abandoned(),
{
}

/// A completer that goes away while a consumer is suspended hands out that
/// consumer's handle for resumption, and the next poll reports
/// `CompleterDropped`.
pub proof fn lemma_abandon_resumes_consumer<T>(handle: Waker)
    ensures
        State::<T>::Waiting(handle).suspended() == Some(handle),
        State::<T>::Waiting(handle).abandoned().outcome() == Polled::Ready(
            Err::<T, Error>(Error::CompleterDropped),
        ),
{
}

/// The producer side never moves a pair out of a terminal state: a second
/// completion is refused and changes nothing, and so does a late departure.
pub proof fn lemma_terminal_is_final<T>(state: State<T>, value: T)
    requires
        state.is_terminal(),
    ensures
        state.completed(value) == state,
        state.abandoned() == state,
        state.completion() is Err,
        state.suspended() is None,
{
}

/// A completion or a departure leaves a terminal state that holds no handle,
/// so a registered handle is handed out for resumption at most once.
pub proof fn lemma_resumed_at_most_once<T>(state: State<T>, value: T)
    ensures
        state.completed(value).is_terminal(),
        state.abandoned().is_terminal(),
        state.completed(value).suspended() is None,
        state.abandoned().suspended() is None,
{
}

/// A poll never resolves a pair by itself and never loses a resolution: the
/// state is terminal after a poll exactly if it was before.
pub proof fn lemma_poll_keeps_resolution<T>(state: State<T>, same: bool, handle: Waker)
    ensures
        state.polled(same, handle).is_terminal() == state.is_terminal(),
        state is Dropped ==> state.polled(same, handle) == state,
        state.is_terminal() ==> state.polled(same, handle).outcome() is Ready,
{
}

} // verus!
