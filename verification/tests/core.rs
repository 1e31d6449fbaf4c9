use std::cell::RefCell;
use std::collections::VecDeque;
use std::marker::PhantomPinned;
use std::pin::Pin;
use std::sync::atomic::{AtomicUsize, Ordering};
use std::sync::Arc;
use std::task::{Context, Poll, Wake, Waker};

use futures_core::stream::Stream;
use llm_stream_guard::{
    Classify, ExitReason, FailureKind, GuardedStream, Observation, OutputKind, Polled, Probe,
    ReplayBoundary, ReplayContract, ReplayVerdict, Snapshot, Termination,
};

struct NoopWake;

impl Wake for NoopWake {
    fn wake(self: Arc<Self>) {}
}

fn context() -> Context<'static> {
    let waker = Waker::from(Arc::new(NoopWake));
    Context::from_waker(Box::leak(Box::new(waker)))
}

/// A scripted stream that must not be moved once it is pinned.
struct TestStream<T> {
    items: RefCell<VecDeque<Poll<Option<T>>>>,
    polls: Arc<AtomicUsize>,
    _not_unpin: PhantomPinned,
}

impl<T> TestStream<T> {
    fn new(items: impl IntoIterator<Item = Poll<Option<T>>>, polls: Arc<AtomicUsize>) -> Self {
        Self {
            items: RefCell::new(items.into_iter().collect()),
            polls,
            _not_unpin: PhantomPinned,
        }
    }
}

impl<T> Stream for TestStream<T> {
    type Item = T;

    fn poll_next(self: Pin<&mut Self>, _cx: &mut Context<'_>) -> Poll<Option<Self::Item>> {
        self.polls.fetch_add(1, Ordering::SeqCst);
        self.items
            .borrow_mut()
            .pop_front()
            .unwrap_or(Poll::Ready(None))
    }

    fn size_hint(&self) -> (usize, Option<usize>) {
        (self.items.borrow().len(), None)
    }
}

/// Drives a guard from a pinned stream, and tells it when it is dropped.
struct Driver<S: Stream, C> {
    guard: GuardedStream<Pin<Box<S>>, C>,
}

impl<S: Stream, C: Classify<S::Item>> Driver<S, C> {
    fn new(source: S, classifier: C, contract: ReplayContract) -> Self {
        Driver {
            guard: GuardedStream::new(Box::pin(source), classifier, contract),
        }
    }

    fn probe(&self) -> Probe {
        self.guard.probe()
    }

    fn poll_next(&mut self, cx: &mut Context<'_>) -> Poll<Option<S::Item>> {
        let delivered = self.guard.poll_next(|inner: &mut Pin<Box<S>>| {
            match inner.as_mut().poll_next(cx) {
                Poll::Pending => Polled::Pending,
                Poll::Ready(item) => Polled::Ready(item),
            }
        });
        match delivered {
            Polled::Pending => Poll::Pending,
            Polled::Ready(item) => Poll::Ready(item),
        }
    }

    fn is_terminated(&self) -> bool {
        self.guard.is_terminated()
    }
}

impl<S: Stream, C> Drop for Driver<S, C> {
    fn drop(&mut self) {
        self.guard.wrapper_dropped();
    }
}

#[test]
fn forwards_items_without_prefetch_and_supports_not_unpin() {
    let polls = Arc::new(AtomicUsize::new(0));
    let source = TestStream::new(
        [
            Poll::Pending,
            Poll::Ready(Some(String::from("first"))),
            Poll::Ready(Some(String::from("second"))),
            Poll::Ready(None),
        ],
        Arc::clone(&polls),
    );
    let mut guarded = Driver::new(
        source,
        |_item: &String| Observation::Neutral,
        ReplayContract::Unknown,
    );
    let mut cx = context();

    assert_eq!(polls.load(Ordering::SeqCst), 0);
    assert_eq!(guarded.poll_next(&mut cx), Poll::Pending);
    assert_eq!(polls.load(Ordering::SeqCst), 1);
    assert_eq!(
        guarded.poll_next(&mut cx),
        Poll::Ready(Some(String::from("first")))
    );
    assert_eq!(polls.load(Ordering::SeqCst), 2);
    assert_eq!(
        guarded.poll_next(&mut cx),
        Poll::Ready(Some(String::from("second")))
    );
    assert_eq!(polls.load(Ordering::SeqCst), 3);
    assert_eq!(guarded.poll_next(&mut cx), Poll::Ready(None));
    assert_eq!(polls.load(Ordering::SeqCst), 4);
    assert!(guarded.is_terminated());

    // The wrapper is fused and does not poll upstream after its first `None`.
    assert_eq!(guarded.poll_next(&mut cx), Poll::Ready(None));
    assert_eq!(polls.load(Ordering::SeqCst), 4);
}

#[test]
fn commits_observation_before_returning_the_same_item() {
    let polls = Arc::new(AtomicUsize::new(0));
    let source = TestStream::new(
        [Poll::Ready(Some(7_u8)), Poll::Ready(None)],
        Arc::clone(&polls),
    );
    let mut guarded = Driver::new(
        source,
        |_item: &u8| Observation::Output(OutputKind::Text),
        ReplayContract::KnownSafe,
    );
    let probe = guarded.probe();
    let mut cx = context();

    assert_eq!(guarded.poll_next(&mut cx), Poll::Ready(Some(7)));
    assert_eq!(
        probe.snapshot().boundary(),
        ReplayBoundary::Crossed(OutputKind::Text)
    );
}

#[test]
fn fn_mut_classifier_can_keep_state() {
    let polls = Arc::new(AtomicUsize::new(0));
    let source = TestStream::new(
        [
            Poll::Ready(Some(1_u8)),
            Poll::Ready(Some(2)),
            Poll::Ready(None),
        ],
        polls,
    );
    let mut seen = 0_u8;
    let mut guarded = Driver::new(
        source,
        move |_item: &u8| {
            seen += 1;
            if seen == 2 {
                Observation::Output(OutputKind::ToolCall)
            } else {
                Observation::Neutral
            }
        },
        ReplayContract::KnownSafe,
    );
    let probe = guarded.probe();
    let mut cx = context();

    assert!(matches!(
        guarded.poll_next(&mut cx),
        Poll::Ready(Some(1))
    ));
    assert_eq!(probe.snapshot().boundary(), ReplayBoundary::Uncrossed);
    assert!(matches!(
        guarded.poll_next(&mut cx),
        Poll::Ready(Some(2))
    ));
    assert_eq!(
        probe.snapshot().boundary(),
        ReplayBoundary::Crossed(OutputKind::ToolCall)
    );
}

fn snapshot_for(contract: ReplayContract, observation: Observation) -> Snapshot {
    let probe = {
        let polls = Arc::new(AtomicUsize::new(0));
        let source = TestStream::new([Poll::Ready(Some(()))], polls);
        let mut guarded = Driver::new(source, move |_: &()| observation, contract);
        let probe = guarded.probe();
        let mut cx = context();
        assert!(matches!(
            guarded.poll_next(&mut cx),
            Poll::Ready(Some(()))
        ));
        probe
    };
    probe.snapshot()
}

#[test]
fn only_known_safe_uncrossed_transient_failure_allows_replay() {
    let allowed = snapshot_for(
        ReplayContract::KnownSafe,
        Observation::Failed(FailureKind::Transient),
    );
    assert_eq!(allowed.boundary(), ReplayBoundary::Uncrossed);
    assert_eq!(
        allowed.termination(),
        Termination::Failed(FailureKind::Transient)
    );
    assert_eq!(allowed.verdict(), ReplayVerdict::Allow);

    for contract in [ReplayContract::Unknown, ReplayContract::KnownUnsafe] {
        assert_eq!(
            snapshot_for(contract, Observation::Failed(FailureKind::Transient)).verdict(),
            ReplayVerdict::Deny
        );
    }
    for failure in [FailureKind::Permanent, FailureKind::Unknown] {
        assert_eq!(
            snapshot_for(ReplayContract::KnownSafe, Observation::Failed(failure)).verdict(),
            ReplayVerdict::Deny
        );
    }

    let crossed = {
        let polls = Arc::new(AtomicUsize::new(0));
        let source = TestStream::new([Poll::Ready(Some(1_u8)), Poll::Ready(Some(2_u8))], polls);
        let mut guarded = Driver::new(
            source,
            |item: &u8| match item {
                1 => Observation::Output(OutputKind::Text),
                _ => Observation::Failed(FailureKind::Transient),
            },
            ReplayContract::KnownSafe,
        );
        let probe = guarded.probe();
        let mut cx = context();
        let _ = guarded.poll_next(&mut cx);
        let _ = guarded.poll_next(&mut cx);
        probe.snapshot()
    };
    assert_eq!(crossed.verdict(), ReplayVerdict::Deny);

    let uncertain = {
        let polls = Arc::new(AtomicUsize::new(0));
        let source = TestStream::new([Poll::Ready(Some(1_u8)), Poll::Ready(Some(2_u8))], polls);
        let mut guarded = Driver::new(
            source,
            |item: &u8| match item {
                1 => Observation::Uncertain,
                _ => Observation::Failed(FailureKind::Transient),
            },
            ReplayContract::KnownSafe,
        );
        let probe = guarded.probe();
        let mut cx = context();
        let _ = guarded.poll_next(&mut cx);
        let _ = guarded.poll_next(&mut cx);
        probe.snapshot()
    };
    assert_eq!(uncertain.boundary(), ReplayBoundary::Uncertain);
    assert_eq!(uncertain.verdict(), ReplayVerdict::Deny);
}

#[test]
fn dropped_and_unmarked_eof_never_authorize_replay() {
    let dropped_probe = {
        let polls = Arc::new(AtomicUsize::new(0));
        let source = TestStream::<()>::new([Poll::Pending], polls);
        let guarded = Driver::new(
            source,
            |_: &()| Observation::Neutral,
            ReplayContract::KnownSafe,
        );
        let probe = guarded.probe();
        drop(guarded);
        probe
    };
    assert_eq!(
        dropped_probe.snapshot().termination(),
        Termination::Exited(ExitReason::Dropped)
    );
    assert_eq!(dropped_probe.snapshot().verdict(), ReplayVerdict::Deny);

    let eof_probe = {
        let polls = Arc::new(AtomicUsize::new(0));
        let source = TestStream::<()>::new([Poll::Ready(None)], polls);
        let mut guarded = Driver::new(
            source,
            |_: &()| Observation::Neutral,
            ReplayContract::KnownSafe,
        );
        let probe = guarded.probe();
        let mut cx = context();
        assert_eq!(guarded.poll_next(&mut cx), Poll::Ready(None));
        probe
    };
    assert_eq!(
        eof_probe.snapshot().termination(),
        Termination::Exited(ExitReason::EndOfStream)
    );
    assert_eq!(eof_probe.snapshot().verdict(), ReplayVerdict::Deny);
}

#[test]
fn explicit_terminal_observations_survive_wrapper_drop() {
    let failed = snapshot_for(
        ReplayContract::KnownSafe,
        Observation::Failed(FailureKind::Transient),
    );
    assert_eq!(
        failed.termination(),
        Termination::Failed(FailureKind::Transient)
    );
    assert_eq!(failed.verdict(), ReplayVerdict::Allow);

    let completed = snapshot_for(ReplayContract::KnownSafe, Observation::Completed);
    assert_eq!(completed.termination(), Termination::Completed);
    assert_eq!(completed.verdict(), ReplayVerdict::Deny);
}

#[test]
fn later_failure_outranks_completion_and_failure_evidence_only_gets_stricter() {
    let polls = Arc::new(AtomicUsize::new(0));
    let source = TestStream::new(
        [
            Poll::Ready(Some(0_u8)),
            Poll::Ready(Some(1_u8)),
            Poll::Ready(Some(2_u8)),
            Poll::Ready(None),
        ],
        polls,
    );
    let mut guarded = Driver::new(
        source,
        |item: &u8| match item {
            0 => Observation::Completed,
            1 => Observation::Failed(FailureKind::Transient),
            _ => Observation::Failed(FailureKind::Unknown),
        },
        ReplayContract::KnownSafe,
    );
    let probe = guarded.probe();
    let mut cx = context();

    let _ = guarded.poll_next(&mut cx);
    assert_eq!(probe.snapshot().termination(), Termination::Completed);
    let _ = guarded.poll_next(&mut cx);
    assert_eq!(
        probe.snapshot().termination(),
        Termination::Failed(FailureKind::Transient)
    );
    let _ = guarded.poll_next(&mut cx);
    assert_eq!(
        probe.snapshot().termination(),
        Termination::Failed(FailureKind::Unknown)
    );
    assert_eq!(probe.snapshot().verdict(), ReplayVerdict::Deny);
}

/// A guard whose one transient failure authorizes replay, with a poll opened
/// after it that nothing has resolved: what an unwound poll leaves behind.
fn guard_with_an_abandoned_poll() -> GuardedStream<(), fn(&u8) -> Observation> {
    fn transient(_: &u8) -> Observation {
        Observation::Failed(FailureKind::Transient)
    }
    let mut guard: GuardedStream<(), fn(&u8) -> Observation> =
        GuardedStream::new((), transient, ReplayContract::KnownSafe);
    assert_eq!(
        guard.poll_next(|_: &mut ()| Polled::Ready(Some(1_u8))),
        Polled::Ready(Some(1))
    );
    assert_eq!(guard.probe().snapshot().verdict(), ReplayVerdict::Allow);
    assert!(guard.begin_poll());
    guard
}

#[test]
fn an_abandoned_poll_denies_replay_and_is_recorded_on_drop() {
    let mut guard = guard_with_an_abandoned_poll();
    let probe = guard.probe();
    assert!(probe.snapshot().poll_in_progress());
    assert_eq!(
        probe.snapshot().termination(),
        Termination::Failed(FailureKind::Transient)
    );
    assert_eq!(probe.snapshot().verdict(), ReplayVerdict::Deny);

    guard.wrapper_dropped();
    assert!(!probe.snapshot().poll_in_progress());
    assert_eq!(
        probe.snapshot().termination(),
        Termination::Exited(ExitReason::Panicked)
    );
    assert_eq!(probe.snapshot().boundary(), ReplayBoundary::Uncertain);
    assert_eq!(probe.snapshot().verdict(), ReplayVerdict::Deny);
}

#[test]
fn an_abandoned_poll_is_recorded_by_the_next_poll() {
    let mut guard = guard_with_an_abandoned_poll();
    let probe = guard.probe();
    let delivered: Polled<u8> = guard.poll_next(|_: &mut ()| Polled::Pending);
    assert_eq!(delivered, Polled::Pending);
    assert!(!probe.snapshot().poll_in_progress());
    assert_eq!(
        probe.snapshot().termination(),
        Termination::Exited(ExitReason::Panicked)
    );
    assert_eq!(probe.snapshot().boundary(), ReplayBoundary::Uncertain);

    // A later transient failure does not revive the evidence.
    let _ = guard.poll_next(|_: &mut ()| Polled::Ready(Some(1_u8)));
    assert_eq!(
        probe.snapshot().termination(),
        Termination::Exited(ExitReason::Panicked)
    );
    assert_eq!(probe.snapshot().verdict(), ReplayVerdict::Deny);
}

#[test]
fn a_crossed_boundary_keeps_its_first_kind() {
    let script = [
        Observation::Output(OutputKind::Refusal),
        Observation::Uncertain,
        Observation::Output(OutputKind::Audio),
    ];
    let mut guard = GuardedStream::new((), |item: &Observation| *item, ReplayContract::Unknown);
    let probe = guard.probe();
    for observation in script {
        let _ = guard.poll_next(|_: &mut ()| Polled::Ready(Some(observation)));
        assert_eq!(
            probe.snapshot().boundary(),
            ReplayBoundary::Crossed(OutputKind::Refusal)
        );
    }
    assert_eq!(probe.snapshot().contract(), ReplayContract::Unknown);
}

#[test]
fn an_uncertain_boundary_can_still_be_crossed() {
    let mut guard = GuardedStream::new((), |item: &Observation| *item, ReplayContract::KnownSafe);
    let probe = guard.probe();
    let _ = guard.poll_next(|_: &mut ()| Polled::Ready(Some(Observation::Uncertain)));
    assert_eq!(probe.snapshot().boundary(), ReplayBoundary::Uncertain);
    let _ = guard.poll_next(|_: &mut ()| {
        Polled::Ready(Some(Observation::Output(OutputKind::Image)))
    });
    assert_eq!(
        probe.snapshot().boundary(),
        ReplayBoundary::Crossed(OutputKind::Image)
    );
}

#[test]
fn a_weaker_failure_does_not_replace_a_stricter_one() {
    for (first, second, expected) in [
        (FailureKind::Unknown, FailureKind::Transient, FailureKind::Unknown),
        (FailureKind::Permanent, FailureKind::Transient, FailureKind::Permanent),
        (FailureKind::Transient, FailureKind::Permanent, FailureKind::Permanent),
        (FailureKind::Permanent, FailureKind::Unknown, FailureKind::Unknown),
        (FailureKind::Transient, FailureKind::Transient, FailureKind::Transient),
    ] {
        let mut guard =
            GuardedStream::new((), |item: &FailureKind| Observation::Failed(*item), ReplayContract::KnownSafe);
        let _ = guard.poll_next(|_: &mut ()| Polled::Ready(Some(first)));
        let _ = guard.poll_next(|_: &mut ()| Polled::Ready(Some(second)));
        assert_eq!(
            guard.probe().snapshot().termination(),
            Termination::Failed(expected)
        );
    }
}

#[test]
fn the_size_hint_is_the_upstream_hint_until_the_end() {
    let polls = Arc::new(AtomicUsize::new(0));
    let source = TestStream::new([Poll::Ready(Some(1_u8)), Poll::Ready(None)], polls);
    let mut guarded = Driver::new(source, |_: &u8| Observation::Neutral, ReplayContract::Unknown);
    let mut cx = context();
    assert_eq!(
        guarded.guard.size_hint(|inner| inner.size_hint()),
        (2, None)
    );
    let _ = guarded.poll_next(&mut cx);
    assert!(!guarded.is_terminated());
    let _ = guarded.poll_next(&mut cx);
    assert!(guarded.is_terminated());
    assert_eq!(
        guarded.guard.size_hint(|inner| inner.size_hint()),
        (0, Some(0))
    );
}

#[test]
fn the_end_of_the_stream_is_not_replaced_by_the_drop() {
    let mut guard = GuardedStream::new((), |_: &u8| Observation::Neutral, ReplayContract::Unknown);
    let probe = guard.probe();
    let delivered: Polled<u8> = guard.poll_next(|_: &mut ()| Polled::Ready(None));
    assert_eq!(delivered, Polled::Ready(None));
    guard.wrapper_dropped();
    assert_eq!(
        probe.snapshot().termination(),
        Termination::Exited(ExitReason::EndOfStream)
    );
}

#[test]
fn probes_can_be_cloned_and_sent_between_threads() {
    fn can_be_shared<T: Send + Sync + Clone>(_: &T) {}
    let guard = GuardedStream::new((), |_: &u8| Observation::Neutral, ReplayContract::Unknown);
    let probe = guard.probe();
    can_be_shared(&probe);
    assert_eq!(probe.clone().snapshot(), probe.snapshot());
}
