//! The journal of a guarded stream: what has happened, the state that it amounts
//! to, and the cell that every change is published in.
use crate::evidence::{Event, Evidence};
use crate::observation::ReplayContract;
use crate::probe::{Probe, Published, Publisher};
use crate::sheet::Sheet;
use crate::state::Snapshot;
use vstd::prelude::*;
use vstd::rwlock::RwLock;

verus! {

/// What has happened to a stream, as the state that it amounts to. An event can
/// only be recorded together with its publication.
pub struct Journal {
    publisher: Publisher,
}

impl Journal {
    /// The cell that the probes of the stream read.
    pub closed spec fn cell(self) -> RwLock<Sheet, Published> {
        self.publisher.cell()
    }

    /// What was written last to the cell.
    pub closed spec fn last_written(self) -> Evidence {
        self.publisher.last_written()
    }

    /// What has happened to the stream so far.
    pub closed spec fn events(self) -> Seq<Event> {
        self.publisher.events()
    }

    /// The evidence collected so far.
    pub open spec fn evidence(self) -> Evidence {
        Evidence::collected(self.cell().pred().contract, self.events())
    }

    /// Whether the evidence collected so far was written to the cell, and
    /// nothing after it.
    pub open spec fn published(self) -> bool {
        &&& self.last_written() == self.evidence()
        &&& crate::probe::was_written(self.cell(), self.evidence())
    }

    /// Whether what has happened is recorded, and was published.
    pub closed spec fn wf(self) -> bool {
        &&& self.publisher.wf()
        &&& self.published()
    }

    /// What has happened is possible, and what it amounts to was published last.
    pub proof fn history_is_possible(self)
        requires
            self.wf(),
        ensures
            Event::possible(self.events()),
            self.published(),
    {
        self.publisher.recorded_is_possible();
    }

    /// Opens the journal of a stream that has not been polled.
    pub fn new(contract: ReplayContract) -> (journal: Journal)
        ensures
            journal.wf(),
            journal.published(),
            journal.cell().pred().contract == contract,
            journal.events() == Seq::<Event>::empty(),
    {
        Journal { publisher: Publisher::new(contract) }
    }

    /// Returns the evidence collected so far.
    pub fn snapshot(&self) -> (snapshot: Snapshot)
        requires
            self.wf(),
        ensures
            snapshot@ == self.evidence(),
    {
        self.publisher.snapshot()
    }

    /// Returns a reader of the cell.
    pub fn probe(&self) -> (probe: Probe)
        ensures
            probe.cell() == self.cell(),
    {
        self.publisher.probe()
    }

    /// Commits `event` to the state and publishes the result.
    pub fn record(&mut self, event: Event)
        requires
            old(self).wf(),
            Event::may_follow(old(self).events(), event),
        ensures
            final(self).wf(),
            final(self).published(),
            final(self).cell() == old(self).cell(),
            final(self).events() == old(self).events().push(event),
    {
        self.publisher.publish(event);
        proof {
            self.publisher.recorded_is_possible();
        }
    }
}

} // verus!
