//! The replay state machine and the snapshots taken of it.
use crate::evidence::{Event, Evidence};
use crate::observation::{
    ExitReason, FailureKind, Observation, ReplayBoundary, ReplayContract, ReplayVerdict,
    Termination,
};
use vstd::prelude::*;

verus! {

/// A consistent, point-in-time view of replay evidence.
#[derive(Clone, Copy, Debug, Eq, Hash, PartialEq)]
pub struct Snapshot {
    contract: ReplayContract,
    boundary: ReplayBoundary,
    termination: Termination,
    poll_in_progress: bool,
}

impl View for Snapshot {
    type V = Evidence;

    closed spec fn view(&self) -> Evidence {
        Evidence {
            contract: self.contract,
            boundary: self.boundary,
            termination: self.termination,
            poll_in_progress: self.poll_in_progress,
        }
    }
}

impl Snapshot {
    /// Returns the caller-provided replay contract.
    pub fn contract(self) -> (contract: ReplayContract)
        ensures
            contract == self@.contract,
    {
        self.contract
    }

    /// Returns the observed replay boundary.
    pub fn boundary(self) -> (boundary: ReplayBoundary)
        ensures
            boundary == self@.boundary,
    {
        self.boundary
    }

    /// Returns the observed termination state.
    pub fn termination(self) -> (termination: Termination)
        ensures
            termination == self@.termination,
    {
        self.termination
    }

    /// Returns whether an upstream poll or item classification was in progress.
    ///
    /// A snapshot taken during this small window never authorizes replay. If a
    /// panic is caught by the caller, the flag remains set until the wrapper is
    /// dropped or polled again, preventing stale transient-failure evidence from
    /// authorizing replay.
    pub fn poll_in_progress(self) -> (poll_in_progress: bool)
        ensures
            poll_in_progress == self@.poll_in_progress,
    {
        self.poll_in_progress
    }

    /// Computes a conservative replay verdict from this exact snapshot.
    ///
    /// The only allowing combination is a known-safe request, an uncrossed
    /// output boundary, and an explicitly transient failure, with no poll in
    /// progress.
    pub fn verdict(self) -> (verdict: ReplayVerdict)
        ensures
            verdict == self@.verdict(),
            verdict is Allow <==> self@.allows_replay(),
    {
        if self.poll_in_progress {
            return ReplayVerdict::Deny;
        }
        match (self.contract, self.boundary, self.termination) {
            (
                ReplayContract::KnownSafe,
                ReplayBoundary::Uncrossed,
                Termination::Failed(FailureKind::Transient),
            ) => ReplayVerdict::Allow,
            _ => ReplayVerdict::Deny,
        }
    }
}

/// The replay state of one guarded stream.
#[derive(Clone, Copy, Debug)]
pub struct State {
    contract: ReplayContract,
    boundary: ReplayBoundary,
    termination: Termination,
    poll_in_progress: bool,
}

impl View for State {
    type V = Evidence;

    closed spec fn view(&self) -> Evidence {
        Evidence {
            contract: self.contract,
            boundary: self.boundary,
            termination: self.termination,
            poll_in_progress: self.poll_in_progress,
        }
    }
}

impl State {
    /// The state of a stream that has not been polled.
    pub fn new(contract: ReplayContract) -> (state: State)
        ensures
            state@ == Evidence::initial(contract),
    {
        State {
            contract,
            boundary: ReplayBoundary::Uncrossed,
            termination: Termination::Active,
            poll_in_progress: false,
        }
    }

    /// Copies the complete state.
    pub fn snapshot(&self) -> (snapshot: Snapshot)
        ensures
            snapshot@ == self@,
    {
        Snapshot {
            contract: self.contract,
            boundary: self.boundary,
            termination: self.termination,
            poll_in_progress: self.poll_in_progress,
        }
    }

    /// Marks a poll as under way. One that is still marked has unwound, which
    /// is recorded first.
    pub fn begin_poll(&mut self)
        ensures
            final(self)@ == old(self)@.poll_started(),
    {
        if self.poll_in_progress {
            self.record_panic();
        }
        self.poll_in_progress = true;
    }

    /// Marks the poll as over.
    pub fn finish_poll(&mut self)
        ensures
            final(self)@ == old(self)@.poll_finished(),
    {
        self.poll_in_progress = false;
    }

    /// Records that the wrapper went away.
    pub fn wrapper_dropped(&mut self)
        ensures
            final(self)@ == old(self)@.dropped(),
    {
        if self.poll_in_progress {
            self.record_panic();
        } else {
            self.exit(ExitReason::Dropped);
        }
    }

    /// Records that a poll unwound.
    pub fn record_panic(&mut self)
        ensures
            final(self)@ == old(self)@.panicked(),
    {
        if matches!(self.boundary, ReplayBoundary::Uncrossed) {
            self.boundary = ReplayBoundary::Uncertain;
        }
        self.termination = Termination::Exited(ExitReason::Panicked);
        self.poll_in_progress = false;
    }

    /// Records what one item means.
    pub fn observe(&mut self, observation: Observation)
        ensures
            final(self)@ == old(self)@.observed(observation),
    {
        match observation {
            Observation::Neutral => {},
            Observation::Output(kind) => {
                if !matches!(self.boundary, ReplayBoundary::Crossed(_)) {
                    self.boundary = ReplayBoundary::Crossed(kind);
                }
            },
            Observation::Uncertain => {
                if matches!(self.boundary, ReplayBoundary::Uncrossed) {
                    self.boundary = ReplayBoundary::Uncertain;
                }
            },
            Observation::Completed => {
                if matches!(self.termination, Termination::Active) {
                    self.termination = Termination::Completed;
                }
            },
            Observation::Failed(kind) => self.observe_failure(kind),
        }
    }

    /// Records an explicit failure.
    pub fn observe_failure(&mut self, kind: FailureKind)
        ensures
            final(self)@ == old(self)@.observed(Observation::Failed(kind)),
    {
        self.termination = match self.termination {
            Termination::Active | Termination::Completed => Termination::Failed(kind),
            Termination::Failed(previous) => Termination::Failed(merge_failures(previous, kind)),
            Termination::Exited(reason) => Termination::Exited(reason),
        };
    }

    /// Records that observation ended without a semantic outcome, unless one is
    /// already established.
    pub fn exit(&mut self, reason: ExitReason)
        ensures
            final(self)@ == old(self)@.exited(reason),
    {
        if matches!(self.termination, Termination::Active) {
            self.termination = Termination::Exited(reason);
        }
    }

    /// Applies one event.
    pub fn apply(&mut self, event: Event)
        ensures
            final(self)@ == old(self)@.after(event),
    {
        match event {
            Event::PollStarted => self.begin_poll(),
            Event::PollPending => self.finish_poll(),
            Event::ItemObserved(observation) => {
                self.observe(observation);
                self.finish_poll();
            },
            Event::StreamEnded => {
                self.finish_poll();
                self.exit(ExitReason::EndOfStream);
            },
            Event::WrapperDropped => self.wrapper_dropped(),
        }
    }
}

/// Combines two failures into the stricter one.
pub fn merge_failures(left: FailureKind, right: FailureKind) -> (kind: FailureKind)
    ensures
        kind == left.stricter(right),
{
    match (left, right) {
        (FailureKind::Unknown, _) | (_, FailureKind::Unknown) => FailureKind::Unknown,
        (FailureKind::Permanent, _) | (_, FailureKind::Permanent) => FailureKind::Permanent,
        (FailureKind::Transient, FailureKind::Transient) => FailureKind::Transient,
    }
}

} // verus!
