//! The mathematical model of replay evidence: a value with four parts, and what
//! each event of a guarded stream does to it.
use crate::observation::{
    ExitReason, FailureKind, Observation, ReplayBoundary, ReplayContract, ReplayVerdict,
    Termination,
};
use vstd::prelude::*;

verus! {

/// Something that happens to a guarded stream.
///
/// Each event takes effect as a whole: a reader of the evidence sees the state
/// before it or after it, and nothing in between.
#[derive(Clone, Copy, Debug, Eq, Hash, PartialEq, Structural)]
pub enum Event {
    /// A downstream poll is about to poll the upstream stream.
    PollStarted,
    /// The upstream stream had nothing to deliver yet.
    PollPending,
    /// The upstream stream delivered an item with this meaning.
    ItemObserved(Observation),
    /// The upstream stream ended.
    StreamEnded,
    /// The wrapper went away.
    WrapperDropped,
}

/// The replay evidence held at one point in time.
pub struct Evidence {
    /// What the caller guarantees about replaying the request.
    pub contract: ReplayContract,
    /// Whether output has been seen.
    pub boundary: ReplayBoundary,
    /// How the stream terminated, if it did.
    pub termination: Termination,
    /// Whether an upstream poll or a classification is under way.
    pub poll_in_progress: bool,
}

impl FailureKind {
    /// How strict this kind is as evidence against replay.
    pub open spec fn severity(self) -> nat {
        match self {
            FailureKind::Transient => 0,
            FailureKind::Permanent => 1,
            FailureKind::Unknown => 2,
        }
    }

    /// The stricter of two failure kinds.
    pub open spec fn stricter(self, other: FailureKind) -> FailureKind {
        if self.severity() >= other.severity() {
            self
        } else {
            other
        }
    }
}

impl Event {
    /// Whether the last of `events` started a poll that nothing has resolved.
    pub open spec fn polling(events: Seq<Event>) -> bool {
        events.len() > 0 && events.last() is PollStarted
    }

    /// Whether nothing can follow `events`.
    pub open spec fn finished(events: Seq<Event>) -> bool {
        events.len() > 0 && (events.last() is StreamEnded || events.last() is WrapperDropped)
    }

    /// Whether `event` can follow `events`: a poll is resolved right after it
    /// started or not at all, and nothing follows the end of the stream or the
    /// drop of the wrapper.
    pub open spec fn may_follow(events: Seq<Event>, event: Event) -> bool {
        &&& !Event::finished(events)
        &&& (event is PollPending || event is ItemObserved || event is StreamEnded)
            ==> Event::polling(events)
    }

    /// Whether a guarded stream can go through `events`.
    pub open spec fn possible(events: Seq<Event>) -> bool
        decreases events.len(),
    {
        events.len() > 0 ==> {
            &&& Event::possible(events.drop_last())
            &&& Event::may_follow(events.drop_last(), events.last())
        }
    }
}

impl Evidence {
    /// The evidence before anything has happened.
    pub open spec fn initial(contract: ReplayContract) -> Evidence {
        Evidence {
            contract,
            boundary: ReplayBoundary::Uncrossed,
            termination: Termination::Active,
            poll_in_progress: false,
        }
    }

    /// The evidence once a poll is known to have unwound: output may have been
    /// lost, so an uncrossed boundary can no longer be claimed.
    pub open spec fn panicked(self) -> Evidence {
        Evidence {
            boundary: if self.boundary is Uncrossed {
                ReplayBoundary::Uncertain
            } else {
                self.boundary
            },
            termination: Termination::Exited(ExitReason::Panicked),
            poll_in_progress: false,
            ..self
        }
    }

    /// The evidence while a poll is under way. A poll that is still marked as
    /// under way when the next one starts has unwound.
    pub open spec fn poll_started(self) -> Evidence {
        Evidence {
            poll_in_progress: true,
            ..if self.poll_in_progress {
                self.panicked()
            } else {
                self
            }
        }
    }

    /// The evidence once no poll is under way any more.
    pub open spec fn poll_finished(self) -> Evidence {
        Evidence { poll_in_progress: false, ..self }
    }

    /// The boundary after an item with this meaning.
    pub open spec fn boundary_after(self, observation: Observation) -> ReplayBoundary {
        match (self.boundary, observation) {
            (ReplayBoundary::Crossed(first), _) => ReplayBoundary::Crossed(first),
            (_, Observation::Output(kind)) => ReplayBoundary::Crossed(kind),
            (_, Observation::Uncertain) => ReplayBoundary::Uncertain,
            _ => self.boundary,
        }
    }

    /// The termination after an item with this meaning.
    pub open spec fn termination_after(self, observation: Observation) -> Termination {
        match (self.termination, observation) {
            (Termination::Active, Observation::Completed) => Termination::Completed,
            (Termination::Active, Observation::Failed(kind)) => Termination::Failed(kind),
            (Termination::Completed, Observation::Failed(kind)) => Termination::Failed(kind),
            (Termination::Failed(previous), Observation::Failed(kind)) => Termination::Failed(
                previous.stricter(kind),
            ),
            _ => self.termination,
        }
    }

    /// The evidence after an item with this meaning.
    pub open spec fn observed(self, observation: Observation) -> Evidence {
        Evidence {
            boundary: self.boundary_after(observation),
            termination: self.termination_after(observation),
            ..self
        }
    }

    /// The evidence once observation ends for `reason`: an outcome that is
    /// already established stands.
    pub open spec fn exited(self, reason: ExitReason) -> Evidence {
        Evidence {
            termination: if self.termination is Active {
                Termination::Exited(reason)
            } else {
                self.termination
            },
            ..self
        }
    }

    /// The evidence once the wrapper is gone.
    pub open spec fn dropped(self) -> Evidence {
        if self.poll_in_progress {
            self.panicked()
        } else {
            self.exited(ExitReason::Dropped)
        }
    }

    /// The evidence after one event.
    pub open spec fn after(self, event: Event) -> Evidence {
        match event {
            Event::PollStarted => self.poll_started(),
            Event::PollPending => self.poll_finished(),
            Event::ItemObserved(observation) => self.observed(observation).poll_finished(),
            Event::StreamEnded => self.poll_finished().exited(ExitReason::EndOfStream),
            Event::WrapperDropped => self.dropped(),
        }
    }

    /// The evidence collected from `events`, in order, under `contract`.
    pub open spec fn collected(contract: ReplayContract, events: Seq<Event>) -> Evidence
        decreases events.len(),
    {
        if events.len() == 0 {
            Evidence::initial(contract)
        } else {
            Evidence::collected(contract, events.drop_last()).after(events.last())
        }
    }

    /// Whether this evidence can be seen by a reader of a stream that is guarded
    /// under `contract`.
    pub open spec fn reachable(self, contract: ReplayContract) -> bool {
        exists|events: Seq<Event>|
            Event::possible(events) && self == #[trigger] Evidence::collected(contract, events)
    }

    /// Whether this evidence authorizes replay.
    pub open spec fn allows_replay(self) -> bool {
        &&& self.contract is KnownSafe
        &&& self.boundary is Uncrossed
        &&& self.termination == Termination::Failed(FailureKind::Transient)
        &&& !self.poll_in_progress
    }

    /// The decision that this evidence supports.
    pub open spec fn verdict(self) -> ReplayVerdict {
        if self.allows_replay() {
            ReplayVerdict::Allow
        } else {
            ReplayVerdict::Deny
        }
    }
}

} // verus!
