use vstd::prelude::*;
use std::future::Future;
use std::pin::Pin;
use std::task::{Context, Poll, Waker};
use crate::error::Error;
use crate::state::Polled;
use crate::ControlledFuture;

verus! {

/// `std::task::Context`, what the scheduler hands to a poll.
#[verifier::external_type_specification]
#[verifier::external_body]
pub struct ExContext<'a>(std::task::Context<'a>);

/// `std::task::Poll`, the report of a poll in the scheduler's own terms.
#[verifier::external_type_specification]
#[verifier::external_body]
#[verifier::reject_recursive_types(T)]
pub struct ExPoll<T>(std::task::Poll<T>);

/// `std::pin::Pin`, a pointer whose target stays in place.
#[verifier::external_type_specification]
#[verifier::external_body]
#[verifier::reject_recursive_types(P)]
pub struct ExPin<P>(std::pin::Pin<P>);

/// `Context::waker`: the handle through which the polling party resumes.
#[verifier::external_body]
fn offered<'a, 'b>(cx: &'a Context<'b>) -> (waker: &'a Waker) {
    cx.waker()
}

/// `Pin::get_mut`: the awaitable behind the pinned pointer, which may be
/// moved as it holds nothing but a shared pointer.
#[verifier::external_body]
fn unpinned<'a, T: Unpin>(future: Pin<&'a mut ControlledFuture<T>>) -> (this: &'a ControlledFuture<T>) {
    future.get_mut()
}

/// `Poll::Pending`: the scheduler's word for "not ready".
#[verifier::external_body]
fn pending<T>() -> (poll: Poll<Result<T, Error>>) {
    Poll::Pending
}

/// `Poll::Ready`: the scheduler's word for a final result, which it carries.
#[verifier::external_body]
fn ready<T>(result: Result<T, Error>) -> (poll: Poll<Result<T, Error>>) {
    Poll::Ready(result)
}

impl<T: Unpin + Send + 'static> Future for ControlledFuture<T> {
    type Output = Result<T, Error>;

    /// One poll by the scheduler: [`ControlledFuture::poll_with`] with the
    /// handle that the context carries, reported in the scheduler's terms.
    fn poll(self: Pin<&mut Self>, cx: &mut Context<'_>) -> (poll: Poll<Self::Output>) {
        let this = unpinned(self);
        match this.poll_with(offered(cx)) {
            Polled::Pending => pending(),
            Polled::Ready(result) => ready(result),
        }
    }
}

} // verus!
