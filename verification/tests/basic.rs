use std::sync::mpsc::channel;
use std::time::Duration;

use future_clicker::{ControlledFuture, FutureCompleter};
use futures::executor::{block_on, ThreadPool};

#[test]
fn test_completed() {
    let (future, completer) = ControlledFuture::<usize>::new();

    assert_eq!(completer.complete(9876), Ok(()));

    assert_eq!(block_on(future), Ok(9876));
}

#[test]
fn test_pre_completed() {
    assert_eq!(block_on(ControlledFuture::new_completed(1234usize)), Ok(1234));
}

fn pause(time: Duration) {
    let (keep, wait) = channel::<()>();
    assert!(wait.recv_timeout(time).is_err());
    drop(keep);
}

async fn run_t2(completer: FutureCompleter<usize>) {
    pause(Duration::from_millis(100));
    completer.complete(6353).unwrap();
}

#[test]
fn test_threaded() {
    let (future, completer) = ControlledFuture::<usize>::new();
    let pool = ThreadPool::builder().pool_size(2).create().expect("a pool of two threads");
    let (report, result) = channel();

    pool.spawn_ok(async move {
        report.send(future.await).expect("the test waits for the result");
    });
    pool.spawn_ok(run_t2(completer));

    assert_eq!(result.recv_timeout(Duration::from_secs(10)), Ok(Ok(6353)));
}
