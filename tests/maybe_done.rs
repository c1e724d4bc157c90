use maybe_done::{maybe_done, MaybeDone};
use std::future::Future;
use std::pin::Pin;
use std::task::{Context, Poll, Waker};

/// A computation that reports pending a given number of times, then
/// completes with its value.
struct PendingThen<T> {
    pending: u32,
    value: Option<T>,
}

impl<T> Unpin for PendingThen<T> {}

impl<T> Future for PendingThen<T> {
    type Output = T;

    fn poll(mut self: Pin<&mut Self>, _cx: &mut Context<'_>) -> Poll<T> {
        if self.pending > 0 {
            self.pending -= 1;
            Poll::Pending
        } else {
            Poll::Ready(self.value.take().expect("polled after completion"))
        }
    }
}

fn pending_then<T>(pending: u32, value: T) -> PendingThen<T> {
    PendingThen { pending, value: Some(value) }
}

/// One resumption of the wrapper, as a driver performs it.
fn resume<F: Future + Unpin>(m: &mut MaybeDone<F>) -> Poll<()> {
    let mut cx = Context::from_waker(Waker::noop());
    let inner = m.future_mut().map(|f| Pin::new(f).poll(&mut cx));
    m.poll(inner)
}

#[test]
fn completes_immediately_with_five() {
    let mut m = maybe_done(std::future::ready(5));
    assert_eq!(m.take_output(), None);
    assert!(!m.is_terminated());
    assert_eq!(resume(&mut m), Poll::Ready(()));
    assert!(m.is_terminated());
    assert_eq!(m.take_output(), Some(5));
    assert_eq!(m.take_output(), None);
    assert!(m.is_terminated());
}

#[test]
fn pending_once_then_x() {
    let mut m = maybe_done(pending_then(1, "x"));
    assert_eq!(resume(&mut m), Poll::Pending);
    assert!(!m.is_terminated());
    assert_eq!(m.take_output(), None);
    assert_eq!(resume(&mut m), Poll::Ready(()));
    assert_eq!(m.take_output(), Some("x"));
}

#[test]
fn completes_on_kth_resume() {
    let k = 4;
    let mut m = maybe_done(pending_then(k - 1, 9u64));
    for _ in 0..k - 1 {
        assert!(!m.is_terminated());
        assert_eq!(resume(&mut m), Poll::Pending);
        assert!(!m.is_terminated());
    }
    assert_eq!(resume(&mut m), Poll::Ready(()));
    assert!(m.is_terminated());
    assert_eq!(resume(&mut m), Poll::Ready(()));
    assert!(m.is_terminated());
}

#[test]
fn take_output_only_once() {
    let mut m = maybe_done(pending_then(2, String::from("out")));
    assert_eq!(m.take_output(), None);
    assert_eq!(resume(&mut m), Poll::Pending);
    assert_eq!(m.take_output(), None);
    assert_eq!(resume(&mut m), Poll::Pending);
    assert_eq!(resume(&mut m), Poll::Ready(()));
    assert_eq!(m.take_output(), Some(String::from("out")));
    for _ in 0..3 {
        assert_eq!(m.take_output(), None);
        assert!(matches!(m, MaybeDone::Gone));
    }
}

#[test]
fn output_mut_between_completion_and_take() {
    let mut m = maybe_done(pending_then(1, 10i32));
    assert!(m.output_mut().is_none());
    assert_eq!(resume(&mut m), Poll::Pending);
    assert!(m.output_mut().is_none());
    assert_eq!(resume(&mut m), Poll::Ready(()));
    assert_eq!(m.output_mut().map(|v| *v), Some(10));
    if let Some(v) = m.output_mut() {
        *v += 1;
    }
    assert_eq!(m.output_mut().map(|v| *v), Some(11));
    assert!(m.is_terminated());
    assert_eq!(m.take_output(), Some(11));
    assert!(m.output_mut().is_none());
}

#[test]
fn resuming_when_done_keeps_output() {
    let mut m = maybe_done(std::future::ready(vec![1u8, 2, 3]));
    assert_eq!(resume(&mut m), Poll::Ready(()));
    for _ in 0..5 {
        assert_eq!(resume(&mut m), Poll::Ready(()));
        assert_eq!(m.output_mut().map(|v| v.clone()), Some(vec![1u8, 2, 3]));
    }
    assert_eq!(m.take_output(), Some(vec![1u8, 2, 3]));
}

#[test]
fn poll_stores_reported_output() {
    let mut m = maybe_done(pending_then(3, 0u32));
    assert_eq!(m.poll(Some(Poll::Pending)), Poll::Pending);
    assert!(matches!(m, MaybeDone::Future(_)));
    assert_eq!(m.poll(Some(Poll::Ready(42))), Poll::Ready(()));
    assert!(matches!(m, MaybeDone::Done(42)));
    assert_eq!(m.poll(None), Poll::Ready(()));
    assert!(matches!(m, MaybeDone::Done(42)));
}

#[test]
fn future_mut_only_while_running() {
    let mut m = maybe_done(pending_then(1, 'c'));
    if let Some(f) = m.future_mut() {
        f.pending = 0;
    }
    assert_eq!(resume(&mut m), Poll::Ready(()));
    assert!(m.future_mut().is_none());
    assert_eq!(m.take_output(), Some('c'));
    assert!(m.future_mut().is_none());
}

#[test]
fn is_terminated_by_state() {
    let running: MaybeDone<std::future::Ready<u8>> = MaybeDone::Future(std::future::ready(1));
    let done: MaybeDone<std::future::Ready<u8>> = MaybeDone::Done(1);
    let gone: MaybeDone<std::future::Ready<u8>> = MaybeDone::Gone;
    assert!(!running.is_terminated());
    assert!(done.is_terminated());
    assert!(gone.is_terminated());
}
