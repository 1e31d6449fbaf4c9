//! The one copy of a stream's evidence that others can read.
//!
//! A [`Pen`] records what happens to a stream; its [`Sheet`] is what readers get
//! to see of it. The two are made together and know each other by a mark. Neither
//! can be copied or made a second time with the same mark, a pen only ever moves
//! on by one event, and a sheet only ever takes over what its pen has recorded.
//! So a sheet, once it shows an event, shows it for good, and it never shows
//! anything that its pen did not record.
use crate::evidence::{Event, Evidence};
use crate::observation::ReplayContract;
use crate::state::{Snapshot, State};
use vstd::prelude::*;

verus! {

/// The record of what has happened to one stream.
pub struct Pen {
    state: State,
    mark: Ghost<int>,
    events: Ghost<Seq<Event>>,
}

/// What the readers of one stream see.
pub struct Sheet {
    state: State,
    mark: Ghost<int>,
    events: Ghost<Seq<Event>>,
}

impl View for Pen {
    type V = Evidence;

    closed spec fn view(&self) -> Evidence {
        self.state@
    }
}

impl View for Sheet {
    type V = Evidence;

    closed spec fn view(&self) -> Evidence {
        self.state@
    }
}

impl Pen {
    /// What the pen has in common with its sheet, and with no other.
    pub closed spec fn mark(self) -> int {
        self.mark@
    }

    /// What has been recorded.
    pub closed spec fn events(self) -> Seq<Event> {
        self.events@
    }

    /// Whether the pen holds what a stream amounts to that has gone through the
    /// recorded events.
    pub open spec fn records(self) -> bool {
        &&& Event::possible(self.events())
        &&& self@ == Evidence::collected(self@.contract, self.events())
    }

    /// Records `event`.
    pub fn record(&mut self, event: Event)
        requires
            old(self).records(),
            Event::may_follow(old(self).events(), event),
        ensures
            final(self).records(),
            final(self)@.contract == old(self)@.contract,
            final(self).mark() == old(self).mark(),
            final(self).events() == old(self).events().push(event),
    {
        let ghost before = self.events@;
        self.state.apply(event);
        self.events = Ghost(before.push(event));
        assert(self.events@.drop_last() =~= before);
    }

    /// Returns what has been recorded so far.
    pub fn snapshot(&self) -> (snapshot: Snapshot)
        ensures
            snapshot@ == self@,
    {
        self.state.snapshot()
    }
}

impl Sheet {
    /// What the sheet has in common with its pen, and with no other.
    pub closed spec fn mark(self) -> int {
        self.mark@
    }

    /// What the pen had recorded when the sheet took over from it last.
    pub closed spec fn events(self) -> Seq<Event> {
        self.events@
    }

    /// Whether the sheet shows what a stream under `contract` amounts to that
    /// has gone through the events taken over.
    pub open spec fn shows(self, contract: ReplayContract) -> bool {
        &&& Event::possible(self.events())
        &&& self@ == Evidence::collected(contract, self.events())
    }

    /// Takes over what the pen of this sheet has recorded.
    pub fn take_over(&mut self, pen: &Pen)
        requires
            old(self).mark() == pen.mark(),
        ensures
            final(self).mark() == old(self).mark(),
            final(self).events() == pen.events(),
            final(self)@ == pen@,
    {
        self.state = pen.state;
        self.events = pen.events;
    }

    /// Returns what the sheet shows.
    pub fn snapshot(&self) -> (snapshot: Snapshot)
        ensures
            snapshot@ == self@,
    {
        self.state.snapshot()
    }
}

/// Makes the pen and the sheet of a stream that has not been polled.
pub fn pen_and_sheet(contract: ReplayContract) -> (made: (Pen, Sheet))
    ensures
        made.0.mark() == made.1.mark(),
        made.0.events() == Seq::<Event>::empty(),
        made.1.events() == Seq::<Event>::empty(),
        made.0.records(),
        made.0@.contract == contract,
        made.1.shows(contract),
{
    let state = State::new(contract);
    let ghost mark = arbitrary::<int>();
    let ghost events = Seq::<Event>::empty();
    (
        Pen { state, mark: Ghost(mark), events: Ghost(events) },
        Sheet { state, mark: Ghost(mark), events: Ghost(events) },
    )
}

} // verus!
