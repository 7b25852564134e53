use vstd::prelude::*;
use std::task::Waker;

verus! {

/// `std::task::Waker`, the scheduler's capability to have a task polled again.
/// Nothing inside it is visible to proofs.
#[verifier::external_type_specification]
#[verifier::external_body]
pub struct ExWaker(std::task::Waker);

/// `Waker::will_wake`: a best-effort test whether two handles notify the same
/// party. The answer may be `false` for handles that do, so nothing is claimed
/// of it.
#[verifier::external_body]
pub(crate) fn will_wake(registered: &Waker, offered: &Waker) -> (same: bool) {
    registered.will_wake(offered)
}

/// `Waker::clone`: a second handle for the same party. How the copy relates to
/// its source is up to the scheduler, so nothing is claimed of it.
#[verifier::external_body]
pub(crate) fn duplicate(handle: &Waker) -> (copy: Waker) {
    handle.clone()
}

/// `Waker::wake`: asks the scheduler to poll the waiting party again. It
/// returns nothing and changes nothing that proofs can see. The scheduler's
/// wake routine is taken to return without panicking.
#[verifier::external_body]
pub(crate) fn wake(handle: Waker)
    opens_invariants none
    no_unwind
{
    handle.wake()
}

} // verus!
