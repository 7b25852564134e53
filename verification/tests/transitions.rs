use std::sync::atomic::{AtomicUsize, Ordering};
use std::sync::Arc;
use std::task::{Wake, Waker};

use future_clicker::{Error, Polled, State};

struct Tally {
    woken: AtomicUsize,
}

impl Wake for Tally {
    fn wake(self: Arc<Self>) {
        self.woken.fetch_add(1, Ordering::SeqCst);
    }
}

fn tally() -> (Arc<Tally>, Waker) {
    let tally = Arc::new(Tally { woken: AtomicUsize::new(0) });
    let waker = Waker::from(tally.clone());
    (tally, waker)
}

fn count(tally: &Arc<Tally>) -> usize {
    tally.woken.load(Ordering::SeqCst)
}

#[test]
fn fresh_state_is_incomplete() {
    assert!(matches!(State::<u32>::new(), State::Incomplete));
}

#[test]
fn completed_state_holds_its_value() {
    assert!(matches!(State::new_completed(7u32), State::Complete(Some(7))));
}

#[test]
fn complete_from_incomplete() {
    let mut state = State::<u32>::new();
    let (res, resume) = state.complete(5);
    assert_eq!(res, Ok(()));
    assert!(resume.is_none());
    assert!(matches!(state, State::Complete(Some(5))));
}

#[test]
fn complete_from_waiting_hands_out_the_handle() {
    let (tally, waker) = tally();
    let mut state = State::<u32>::Waiting(waker);
    let (res, resume) = state.complete(5);
    assert_eq!(res, Ok(()));
    assert!(matches!(state, State::Complete(Some(5))));
    assert_eq!(count(&tally), 0);
    resume.expect("a handle was registered").wake();
    assert_eq!(count(&tally), 1);
}

#[test]
fn complete_from_complete_is_refused() {
    let mut state = State::new_completed(1u32);
    let (res, resume) = state.complete(2);
    assert_eq!(res, Err(Error::AlreadyCompleted));
    assert!(resume.is_none());
    assert!(matches!(state, State::Complete(Some(1))));
}

#[test]
fn complete_after_delivery_is_refused() {
    let mut state = State::<u32>::Complete(None);
    let (res, resume) = state.complete(2);
    assert_eq!(res, Err(Error::AlreadyCompleted));
    assert!(resume.is_none());
    assert!(matches!(state, State::Complete(None)));
}

#[test]
fn complete_from_dropped_is_refused() {
    let mut state = State::<u32>::Dropped;
    let (res, resume) = state.complete(2);
    assert_eq!(res, Err(Error::CompleterDropped));
    assert!(resume.is_none());
    assert!(matches!(state, State::Dropped));
}

#[test]
fn abandon_from_incomplete() {
    let mut state = State::<u32>::new();
    assert!(state.abandon().is_none());
    assert!(matches!(state, State::Dropped));
}

#[test]
fn abandon_from_waiting_hands_out_the_handle() {
    let (tally, waker) = tally();
    let mut state = State::<u32>::Waiting(waker);
    let resume = state.abandon();
    assert!(matches!(state, State::Dropped));
    resume.expect("a handle was registered").wake();
    assert_eq!(count(&tally), 1);
}

#[test]
fn abandon_from_complete_changes_nothing() {
    let mut state = State::new_completed(3u32);
    assert!(state.abandon().is_none());
    assert!(matches!(state, State::Complete(Some(3))));
}

#[test]
fn abandon_from_dropped_changes_nothing() {
    let mut state = State::<u32>::Dropped;
    assert!(state.abandon().is_none());
    assert!(matches!(state, State::Dropped));
}

#[test]
fn register_replaces_the_handle() {
    let (first, first_waker) = tally();
    let (second, second_waker) = tally();
    let mut state = State::<u32>::new();
    state.register(first_waker);
    assert!(matches!(state, State::Waiting(_)));
    state.register(second_waker);
    let (_, resume) = state.complete(1);
    resume.expect("a handle was registered").wake();
    assert_eq!(count(&first), 0);
    assert_eq!(count(&second), 1);
}

#[test]
fn register_leaves_terminal_states() {
    let (_, waker) = tally();
    let mut state = State::new_completed(3u32);
    state.register(waker.clone());
    assert!(matches!(state, State::Complete(Some(3))));
    let mut state = State::<u32>::Dropped;
    state.register(waker);
    assert!(matches!(state, State::Dropped));
}

#[test]
fn poll_incomplete_registers_a_handle() {
    let (tally, waker) = tally();
    let mut state = State::<u32>::new();
    assert_eq!(state.poll(&waker), Polled::Pending);
    match state {
        State::Waiting(handle) => {
            assert!(handle.will_wake(&waker));
            handle.wake();
        }
        _ => panic!("the consumer is suspended"),
    }
    assert_eq!(count(&tally), 1);
}

#[test]
fn poll_waiting_with_same_handle_keeps_it() {
    let (tally, waker) = tally();
    let mut state = State::<u32>::new();
    assert_eq!(state.poll(&waker), Polled::Pending);
    assert_eq!(state.poll(&waker), Polled::Pending);
    let (_, resume) = state.complete(9);
    resume.expect("a handle was registered").wake();
    assert_eq!(count(&tally), 1);
}

#[test]
fn poll_waiting_with_other_handle_replaces_it() {
    let (first, first_waker) = tally();
    let (second, second_waker) = tally();
    let mut state = State::<u32>::new();
    assert_eq!(state.poll(&first_waker), Polled::Pending);
    assert_eq!(state.poll(&second_waker), Polled::Pending);
    let (_, resume) = state.complete(9);
    resume.expect("a handle was registered").wake();
    assert_eq!(count(&first), 0);
    assert_eq!(count(&second), 1);
}

#[test]
fn poll_complete_takes_the_value_once() {
    let (_, waker) = tally();
    let mut state = State::new_completed(11u32);
    assert_eq!(state.poll(&waker), Polled::Ready(Ok(11)));
    assert!(matches!(state, State::Complete(None)));
    assert_eq!(state.poll(&waker), Polled::Ready(Err(Error::AlreadyCompleted)));
    assert!(matches!(state, State::Complete(None)));
    assert_eq!(state.poll(&waker), Polled::Ready(Err(Error::AlreadyCompleted)));
}

#[test]
fn poll_dropped_reports_the_departure() {
    let (_, waker) = tally();
    let mut state = State::<u32>::Dropped;
    assert_eq!(state.poll(&waker), Polled::Ready(Err(Error::CompleterDropped)));
    assert!(matches!(state, State::Dropped));
    assert_eq!(state.poll(&waker), Polled::Ready(Err(Error::CompleterDropped)));
}

#[test]
fn state_from_option() {
    assert!(matches!(State::from(Some(4u32)), State::Complete(Some(4))));
    assert!(matches!(State::<u32>::from(None), State::Incomplete));
}

#[test]
fn state_names() {
    let (_, waker) = tally();
    assert_eq!(State::<u32>::Incomplete.name(), "Incomplete");
    assert_eq!(State::<u32>::Waiting(waker).name(), "Waiting");
    assert_eq!(State::Complete(Some(1u32)).name(), "Complete");
    assert_eq!(State::<u32>::Complete(None).name(), "Complete");
    assert_eq!(State::<u32>::Dropped.name(), "Dropped");
}

#[test]
fn error_messages() {
    assert_eq!(Error::AlreadyCompleted.message(), "future already polled to completion");
    assert_eq!(
        Error::CompleterDropped.message(),
        "Completer dropped before sending completion"
    );
    assert_ne!(Error::AlreadyCompleted, Error::CompleterDropped);
}
