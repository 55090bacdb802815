use native_dialog::channel::RecvFailure;
use native_dialog::task::{AsyncDialog, TaskPoll};
use native_dialog::Error;
use std::sync::atomic::{AtomicBool, AtomicUsize, Ordering};
use std::sync::{Arc, Mutex};
use std::task::{Wake, Waker};

type Job = Arc<Mutex<Option<Box<dyn FnOnce() + Send>>>>;

/// A task whose dispatch parks the worker in the returned slot; the test runs
/// it (`finish`), or drops it as a worker that died would (`abandon`).
fn parked<T: Send + 'static>(
    body: impl FnOnce() -> T + Send + 'static,
) -> (AsyncDialog<T, impl FnOnce(Option<Waker>)>, Job) {
    let job: Job = Arc::new(Mutex::new(None));
    let slot = job.clone();
    let (tx, rx) = crossbeam_channel::bounded(1);
    let dispatch = move |waker: Option<Waker>| {
        let work: Box<dyn FnOnce() + Send> = Box::new(move || {
            let _ = tx.send(body());
            if let Some(w) = waker {
                w.wake();
            }
        });
        *slot.lock().unwrap() = Some(work);
    };
    (AsyncDialog::new(dispatch, rx), job)
}

fn finish(job: &Job) {
    let work = job.lock().unwrap().take().expect("the worker was dispatched");
    work();
}

fn abandon(job: &Job) {
    drop(job.lock().unwrap().take().expect("the worker was dispatched"));
}

/// A task whose worker runs `body` at once, on the dispatching thread.
fn inline<T>(body: impl FnOnce() -> T) -> AsyncDialog<T, impl FnOnce(Option<Waker>)> {
    let (tx, rx) = crossbeam_channel::bounded(1);
    let dispatch = move |waker: Option<Waker>| {
        let _ = tx.send(body());
        if let Some(w) = waker {
            w.wake();
        }
    };
    AsyncDialog::new(dispatch, rx)
}

struct Flag(AtomicBool);

impl Wake for Flag {
    fn wake(self: Arc<Self>) {
        self.0.store(true, Ordering::SeqCst);
    }
}

fn flag_waker() -> (Arc<Flag>, Waker) {
    let flag = Arc::new(Flag(AtomicBool::new(false)));
    let waker = Waker::from(flag.clone());
    (flag, waker)
}

#[test]
fn try_recv_before_start_is_empty() {
    let mut task = inline(|| 1u8);
    assert_eq!(task.try_recv(), Err(RecvFailure::Empty));
    assert_eq!(task.try_recv(), Err(RecvFailure::Empty));
    let (mut task, job) = parked(|| 2u8);
    assert_eq!(task.try_recv(), Err(RecvFailure::Empty));
    assert!(job.lock().unwrap().is_none());
}

#[test]
fn unstarted_recv_reports_empty_without_blocking() {
    let mut task = inline(|| 3u8);
    assert_eq!(task.recv(), Err(RecvFailure::Empty));
}

#[test]
fn repeated_operations_dispatch_once() {
    let count = Arc::new(AtomicUsize::new(0));
    let c = count.clone();
    let mut task = inline(move || {
        c.fetch_add(1, Ordering::SeqCst);
        5u32
    });
    for _ in 0..2 {
        let _ = task.try_recv();
        task.show_dialog();
        let _ = task.poll(Waker::noop().clone());
        let _ = task.try_recv();
    }
    assert_eq!(count.load(Ordering::SeqCst), 1);

    let count = Arc::new(AtomicUsize::new(0));
    let c = count.clone();
    let mut task = inline(move || {
        c.fetch_add(1, Ordering::SeqCst);
        6u32
    });
    for _ in 0..2 {
        let _ = task.poll(Waker::noop().clone());
        let _ = task.poll(Waker::noop().clone());
        let _ = task.recv();
    }
    assert_eq!(count.load(Ordering::SeqCst), 1);
}

#[test]
fn round_trip_forty_two() {
    let mut task = inline(|| 42i32);
    task.show_dialog();
    assert_eq!(task.recv(), Ok(42));
    assert_eq!(task.recv(), Err(RecvFailure::Disconnected));
}

#[test]
fn show_dialog_freezes_cooperative_polling() {
    let mut task = inline(|| 7u8);
    task.show_dialog();
    for _ in 0..5 {
        assert!(matches!(task.poll(Waker::noop().clone()), TaskPoll::Pending));
    }
    // The value is still there, unread, for the blocking path.
    assert_eq!(task.try_recv(), Ok(7));
}

#[test]
fn cooperative_polling_becomes_ready() {
    let (flag, waker) = flag_waker();
    let (mut task, job) = parked(|| 11u16);
    assert!(matches!(task.poll(waker.clone()), TaskPoll::Pending));
    assert!(!flag.0.load(Ordering::SeqCst));
    finish(&job);
    assert!(flag.0.load(Ordering::SeqCst));
    match task.poll(waker) {
        TaskPoll::Ready(r) => assert_eq!(r, Ok(11)),
        TaskPoll::Pending => panic!("a woken task must be ready"),
    }
}

#[test]
fn cooperative_polling_inline_worker() {
    let (flag, waker) = flag_waker();
    let mut task = inline(|| 12u16);
    assert!(matches!(task.poll(waker.clone()), TaskPoll::Pending));
    assert!(flag.0.load(Ordering::SeqCst));
    assert!(matches!(task.poll(waker), TaskPoll::Ready(Ok(12))));
}

#[test]
fn slow_body_returns_done() {
    let (mut task, job) = parked(|| Ok::<&str, Error>("done"));
    assert!(matches!(task.try_recv(), Err(RecvFailure::Empty)));
    task.show_dialog();
    // Started, but the worker has not produced its value yet.
    assert!(matches!(task.try_recv(), Err(RecvFailure::Empty)));
    finish(&job);
    assert!(matches!(task.recv(), Ok(Ok("done"))));
    assert!(matches!(task.try_recv(), Err(RecvFailure::Disconnected)));
}

#[test]
fn body_error_is_passed_through() {
    let mut task = inline(|| {
        Err::<u8, Error>(Error::IoFailure(std::io::Error::new(
            std::io::ErrorKind::Other,
            "io failure",
        )))
    });
    task.show_dialog();
    match task.recv() {
        Ok(Err(Error::IoFailure(e))) => {
            assert_eq!(e.kind(), std::io::ErrorKind::Other);
            assert_eq!(e.to_string(), "io failure");
        }
        _ => panic!("the body's error must come through unchanged"),
    }
}

#[test]
fn abandoned_worker_disconnects() {
    let (mut task, job) = parked(|| 9u8);
    task.show_dialog();
    abandon(&job);
    assert_eq!(task.try_recv(), Err(RecvFailure::Disconnected));
    assert_eq!(task.recv(), Err(RecvFailure::Disconnected));
}
