use std::cell::RefCell;
use std::rc::Rc;

use llm_stream_guard::state::{merge_failures, State};
use llm_stream_guard::{
    Event, ExitReason, FailureKind, GuardedStream, Observation, OutputKind, Polled, Probe,
    ReplayBoundary, ReplayContract, ReplayVerdict, Termination,
};

const KINDS: [FailureKind; 3] = [
    FailureKind::Transient,
    FailureKind::Permanent,
    FailureKind::Unknown,
];

fn identity(item: &Observation) -> Observation {
    *item
}

fn guard(
    contract: ReplayContract,
) -> GuardedStream<(), fn(&Observation) -> Observation> {
    GuardedStream::new((), identity as fn(&Observation) -> Observation, contract)
}

fn deliver(
    guard: &mut GuardedStream<(), fn(&Observation) -> Observation>,
    observation: Observation,
) {
    assert_eq!(
        guard.poll_next(|_: &mut ()| Polled::Ready(Some(observation))),
        Polled::Ready(Some(observation))
    );
}

#[test]
fn failures_combine_to_the_strictest() {
    for left in KINDS {
        assert_eq!(merge_failures(left, left), left);
        for right in KINDS {
            assert_eq!(merge_failures(left, right), merge_failures(right, left));
            for other in KINDS {
                assert_eq!(
                    merge_failures(merge_failures(left, right), other),
                    merge_failures(left, merge_failures(right, other))
                );
            }
        }
    }
    assert_eq!(
        merge_failures(FailureKind::Transient, FailureKind::Permanent),
        FailureKind::Permanent
    );
    assert_eq!(
        merge_failures(FailureKind::Unknown, FailureKind::Permanent),
        FailureKind::Unknown
    );
}

#[test]
fn the_owner_and_the_probes_read_the_same() {
    let mut guard = guard(ReplayContract::KnownSafe);
    let probe = guard.probe();
    let other = probe.clone();
    for observation in [
        Observation::Neutral,
        Observation::Failed(FailureKind::Transient),
        Observation::Uncertain,
        Observation::Output(OutputKind::Image),
        Observation::Completed,
    ] {
        deliver(&mut guard, observation);
        assert_eq!(probe.snapshot(), guard.snapshot());
        assert_eq!(other.snapshot(), guard.snapshot());
        assert_eq!(guard.snapshot().contract(), ReplayContract::KnownSafe);
    }
    guard.wrapper_dropped();
    assert_eq!(probe.snapshot(), guard.snapshot());
    assert_eq!(
        probe.snapshot().boundary(),
        ReplayBoundary::Crossed(OutputKind::Image)
    );
    assert_eq!(
        probe.snapshot().termination(),
        Termination::Failed(FailureKind::Transient)
    );
}

#[test]
fn a_refusal_is_final() {
    for refusing in [
        Observation::Output(OutputKind::Other),
        Observation::Uncertain,
        Observation::Failed(FailureKind::Permanent),
        Observation::Failed(FailureKind::Unknown),
    ] {
        let mut guard = guard(ReplayContract::KnownSafe);
        deliver(&mut guard, Observation::Failed(FailureKind::Transient));
        assert_eq!(guard.snapshot().verdict(), ReplayVerdict::Allow);
        deliver(&mut guard, refusing);
        assert_eq!(guard.snapshot().verdict(), ReplayVerdict::Deny);
        for later in [
            Observation::Failed(FailureKind::Transient),
            Observation::Completed,
            Observation::Neutral,
        ] {
            deliver(&mut guard, later);
            assert_eq!(guard.snapshot().verdict(), ReplayVerdict::Deny);
        }
    }
}

#[test]
fn pending_polls_leave_the_evidence_as_it_was() {
    let mut guard = guard(ReplayContract::KnownSafe);
    deliver(&mut guard, Observation::Failed(FailureKind::Transient));
    let before = guard.snapshot();
    assert_eq!(
        guard.poll_next(|_: &mut ()| Polled::<Observation>::Pending),
        Polled::Pending
    );
    assert_eq!(guard.snapshot(), before);
    assert!(!guard.is_terminated());
}

#[test]
fn snapshots_deny_while_a_poll_is_open() {
    let mut guard = guard(ReplayContract::KnownSafe);
    deliver(&mut guard, Observation::Failed(FailureKind::Transient));
    let probe = guard.probe();
    assert!(guard.begin_poll());
    assert!(probe.snapshot().poll_in_progress());
    assert_eq!(probe.snapshot().verdict(), ReplayVerdict::Deny);
    assert_eq!(
        guard.finish_poll(Polled::<Observation>::Ready(None)),
        Polled::Ready(None)
    );
    assert!(!probe.snapshot().poll_in_progress());
    assert_eq!(probe.snapshot().verdict(), ReplayVerdict::Allow);
    assert!(!guard.begin_poll());
    assert!(guard.is_terminated());
}

#[test]
fn the_upstream_stream_is_not_polled_after_its_end() {
    let mut guard = guard(ReplayContract::Unknown);
    let mut polls = 0;
    for _ in 0..3 {
        let delivered = guard.poll_next(|_: &mut ()| {
            polls += 1;
            Polled::<Observation>::Ready(None)
        });
        assert_eq!(delivered, Polled::Ready(None));
    }
    assert_eq!(polls, 1);
    assert_eq!(
        guard.snapshot().termination(),
        Termination::Exited(ExitReason::EndOfStream)
    );
}

#[test]
fn events_applied_one_by_one_build_the_same_evidence() {
    let mut state = State::new(ReplayContract::KnownSafe);
    for event in [
        Event::PollStarted,
        Event::PollPending,
        Event::PollStarted,
        Event::ItemObserved(Observation::Failed(FailureKind::Transient)),
    ] {
        state.apply(event);
    }
    assert_eq!(state.snapshot().verdict(), ReplayVerdict::Allow);
    state.apply(Event::PollStarted);
    state.apply(Event::WrapperDropped);
    assert_eq!(
        state.snapshot().termination(),
        Termination::Exited(ExitReason::Panicked)
    );
    assert_eq!(state.snapshot().boundary(), ReplayBoundary::Uncertain);
    assert_eq!(state.snapshot().verdict(), ReplayVerdict::Deny);
}

#[test]
fn a_probe_read_during_the_upstream_poll_denies_replay() {
    let mut guard = guard(ReplayContract::KnownSafe);
    let probe = guard.probe();
    deliver(&mut guard, Observation::Failed(FailureKind::Transient));
    assert_eq!(probe.snapshot().verdict(), ReplayVerdict::Allow);
    let mut polls = 0;
    for answer in [
        Polled::Pending,
        Polled::Ready(Some(Observation::Neutral)),
        Polled::Ready(None),
    ] {
        guard.poll_next(|_: &mut ()| {
            let during = probe.snapshot();
            assert!(during.poll_in_progress());
            assert_eq!(during.verdict(), ReplayVerdict::Deny);
            assert_eq!(
                during.termination(),
                Termination::Failed(FailureKind::Transient)
            );
            polls += 1;
            answer
        });
        assert!(!probe.snapshot().poll_in_progress());
        assert_eq!(probe.snapshot().verdict(), ReplayVerdict::Allow);
    }
    assert_eq!(polls, 3);
}

#[test]
fn a_probe_read_during_classification_denies_replay() {
    let slot: Rc<RefCell<Option<Probe>>> = Rc::new(RefCell::new(None));
    let seen = Rc::clone(&slot);
    let mut classified = 0;
    let mut guard = GuardedStream::new(
        (),
        |item: &Observation| {
            let during = seen.borrow().as_ref().expect("the probe is set").snapshot();
            assert!(during.poll_in_progress());
            assert_eq!(during.verdict(), ReplayVerdict::Deny);
            classified += 1;
            *item
        },
        ReplayContract::KnownSafe,
    );
    let probe = guard.probe();
    *slot.borrow_mut() = Some(probe.clone());
    for _ in 0..2 {
        guard.poll_next(|_: &mut ()| {
            Polled::Ready(Some(Observation::Failed(FailureKind::Transient)))
        });
        assert_eq!(probe.snapshot().verdict(), ReplayVerdict::Allow);
    }
    drop(guard);
    assert_eq!(classified, 2);
}

#[test]
fn later_snapshots_keep_what_earlier_ones_show() {
    let observations = [
        Observation::Neutral,
        Observation::Output(OutputKind::Text),
        Observation::Output(OutputKind::Audio),
        Observation::Uncertain,
        Observation::Completed,
        Observation::Failed(FailureKind::Transient),
    ];
    for first in observations {
        for second in observations {
            let mut guard = guard(ReplayContract::Unknown);
            let probe = guard.probe();
            deliver(&mut guard, first);
            let earlier = probe.snapshot();
            deliver(&mut guard, second);
            guard.begin_poll();
            guard.wrapper_dropped();
            let later = probe.snapshot();
            assert_eq!(later.contract(), earlier.contract());
            match earlier.boundary() {
                ReplayBoundary::Uncrossed => {}
                ReplayBoundary::Uncertain => {
                    assert_ne!(later.boundary(), ReplayBoundary::Uncrossed);
                }
                crossed => assert_eq!(later.boundary(), crossed),
            }
            if earlier.termination() != Termination::Active {
                assert_ne!(later.termination(), Termination::Active);
            }
        }
    }
}
