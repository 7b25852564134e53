use vstd::prelude::*;
use std::sync::Arc;
use parking_lot::lock_api::ArcMutexGuard;
use parking_lot::{Mutex, RawMutex};
use crate::state::State;

verus! {

/// `parking_lot::RawMutex`, the lock itself.
#[verifier::external_type_specification]
#[verifier::external_body]
pub struct ExRawMutex(parking_lot::RawMutex);

/// `lock_api::Mutex`, a value behind a lock. What it holds can change between
/// any two steps of a thread that does not hold the lock, so proofs see
/// nothing of it.
#[verifier::external_type_specification]
#[verifier::external_body]
#[verifier::reject_recursive_types(R)]
#[verifier::reject_recursive_types(T)]
pub struct ExMutex<R, T: ?Sized>(parking_lot::lock_api::Mutex<R, T>);

/// Holds a `lock_api::ArcMutexGuard`: the proof of holding the lock of one
/// pair. The lock is released when the guard goes out of scope. Proofs see
/// nothing inside it.
#[verifier::external_body]
#[verifier::reject_recursive_types(T)]
pub struct StateGuard<T> {
    guard: ArcMutexGuard<RawMutex, State<T>>,
}

/// `Mutex::new`: puts `state` behind a fresh, unlocked lock.
#[verifier::external_body]
pub(crate) fn protect<T>(state: State<T>) -> (cell: Mutex<State<T>>) {
    Mutex::new(state)
}

/// `Mutex::lock_arc`: blocks until the lock is free and takes it. The lock
/// has no poisoning and the call does not panic.
#[verifier::external_body]
pub(crate) fn lock<T>(cell: &Arc<Mutex<State<T>>>) -> (guard: StateGuard<T>)
    opens_invariants none
    no_unwind
{
    StateGuard { guard: cell.lock_arc() }
}

/// `DerefMut::deref_mut` of the guard: the state behind the lock, for as long
/// as the guard is borrowed. Other threads may have changed the state before
/// the lock was taken, so nothing is claimed of what is found there.
#[verifier::external_body]
pub(crate) fn locked<T>(guard: &mut StateGuard<T>) -> (state: &mut State<T>)
    opens_invariants none
    no_unwind
{
    &mut *guard.guard
}

} // verus!
