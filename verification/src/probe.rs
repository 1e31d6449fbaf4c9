//! The cell that a guard publishes its replay state in, and the probes that
//! read it.
use crate::evidence::{Event, Evidence};
use crate::observation::ReplayContract;
use crate::sheet::{pen_and_sheet, Pen, Sheet};
use crate::state::Snapshot;
use std::sync::Arc;
use vstd::prelude::*;
use vstd::rwlock::{ReadHandle, RwLock, RwLockPredicate, WriteHandle};

verus! {

/// What may be published to the probes of a stream: the sheet with this mark,
/// which shows what the stream has gone through, guarded under `contract`.
pub struct Published {
    /// What the caller guarantees about replaying the request.
    pub contract: ReplayContract,
    /// The mark of the sheet.
    pub mark: int,
}

impl RwLockPredicate<Sheet> for Published {
    open spec fn inv(self, sheet: Sheet) -> bool {
        sheet.mark() == self.mark && sheet.shows(self.contract)
    }
}

/// Whether a read of `cell` saw `evidence`.
pub open spec fn was_read(cell: RwLock<Sheet, Published>, evidence: Evidence) -> bool {
    exists|handle: ReadHandle<Sheet, Published>| #[trigger]
        handle.rwlock() == cell && evidence == handle.view()@
}

/// Whether `cell` was made with a sheet that shows `evidence`.
pub open spec fn was_made_with(cell: RwLock<Sheet, Published>, evidence: Evidence) -> bool {
    exists|sheet: Sheet, published: Ghost<Published>|
        sheet@ == evidence && #[trigger] call_ensures(
            RwLock::<Sheet, Published>::new,
            (sheet, published),
            cell,
        )
}

/// Whether a sheet that shows `evidence` was put into `cell`: the cell was
/// made with it, or a writer left it there.
pub open spec fn was_written(cell: RwLock<Sheet, Published>, evidence: Evidence) -> bool {
    ||| was_made_with(cell, evidence)
    ||| exists|handle: WriteHandle<Sheet, Published>, sheet: Sheet|
        handle.rwlock() == cell && sheet@ == evidence && #[trigger] call_ensures(
            WriteHandle::<Sheet, Published>::release_write,
            (handle, sheet),
            (),
        )
}

/// What it means that evidence was written to a cell: a sheet that shows it went
/// into the cell, when the cell was made or when a writer released it.
pub proof fn writing_means_putting_a_sheet_into_the_cell(
    cell: RwLock<Sheet, Published>,
    evidence: Evidence,
)
    requires
        was_written(cell, evidence),
    ensures
        exists|sheet: Sheet| #[trigger]
            sheet@ == evidence && {
                ||| exists|published: Ghost<Published>| #[trigger]
                    call_ensures(RwLock::<Sheet, Published>::new, (sheet, published), cell)
                ||| exists|handle: WriteHandle<Sheet, Published>|
                    handle.rwlock() == cell && #[trigger] call_ensures(
                        WriteHandle::<Sheet, Published>::release_write,
                        (handle, sheet),
                        (),
                    )
            },
{
}

/// What it means that evidence was read from a cell: a reader of that cell held
/// a sheet that shows it.
pub proof fn reading_means_holding_the_sheet_of_the_cell(
    cell: RwLock<Sheet, Published>,
    evidence: Evidence,
)
    requires
        was_read(cell, evidence),
    ensures
        exists|handle: ReadHandle<Sheet, Published>| #[trigger]
            handle.rwlock() == cell && handle.view()@ == evidence,
{
}

/// Only one sheet can be in a cell: it bears the mark of the cell, and shows what
/// a stream under the contract of the cell has gone through.
pub proof fn a_cell_holds_its_own_sheet_only(published: Published, sheet: Sheet)
    requires
        published.inv(sheet),
    ensures
        sheet.mark() == published.mark,
        Event::possible(sheet.events()),
        sheet@ == Evidence::collected(published.contract, sheet.events()),
{
}

/// A cloneable handle for reading consistent stream snapshots.
///
/// Cloning a probe is cheap. Each call to [`Probe::snapshot`] acquires one
/// lock and copies the complete state, so the boundary and termination always
/// describe the same point in time.
pub struct Probe {
    sheet: Arc<RwLock<Sheet, Published>>,
}

impl Clone for Probe {
    fn clone(&self) -> (probe: Probe)
        ensures
            probe == *self,
    {
        Probe { sheet: Arc::clone(&self.sheet) }
    }
}

impl Probe {
    /// The cell that this probe reads.
    pub closed spec fn cell(self) -> RwLock<Sheet, Published> {
        *self.sheet
    }

    /// The contract of the stream that this probe reads.
    pub open spec fn contract(self) -> ReplayContract {
        self.cell().pred().contract
    }

    /// Returns a consistent point-in-time snapshot.
    ///
    /// The snapshot is what a read of the probe's cell saw, and the evidence
    /// after some sequence of events that the stream can have gone through.
    /// Which of the states that were written to the cell it is depends on when
    /// the lock is taken; that it is the latest is not stated.
    pub fn snapshot(&self) -> (snapshot: Snapshot)
        ensures
            was_read(self.cell(), snapshot@),
            snapshot@.reachable(self.contract()),
    {
        let handle = self.sheet.acquire_read();
        let snapshot = handle.borrow().snapshot();
        handle.release_read();
        snapshot
    }

}

/// The writing end of the cell that the probes of a stream read. The sheet in
/// the cell is the only one with its mark, and the pen that it takes over from
/// is held here.
pub struct Publisher {
    probe: Probe,
    pen: Pen,
    last: Ghost<Evidence>,
}

impl Publisher {
    /// The cell that is written to.
    pub closed spec fn cell(self) -> RwLock<Sheet, Published> {
        self.probe.cell()
    }

    /// What was written last.
    pub closed spec fn last_written(self) -> Evidence {
        self.last@
    }

    /// What has been recorded.
    pub closed spec fn events(self) -> Seq<Event> {
        self.pen.events()
    }

    /// Whether the pen is that of the sheet in the cell, holds what the recorded
    /// events amount to, and was written last.
    pub closed spec fn wf(self) -> bool {
        &&& self.pen.mark() == self.cell().pred().mark
        &&& self.pen.records()
        &&& self.pen@.contract == self.cell().pred().contract
        &&& self.last@ == self.pen@
    }

    /// What has been recorded is possible, and what it amounts to was written
    /// last.
    pub proof fn recorded_is_possible(self)
        requires
            self.wf(),
        ensures
            Event::possible(self.events()),
            self.last_written() == Evidence::collected(
                self.cell().pred().contract,
                self.events(),
            ),
    {
    }

    /// Makes a cell that shows a stream that has not been polled.
    pub fn new(contract: ReplayContract) -> (publisher: Publisher)
        ensures
            publisher.wf(),
            publisher.cell().pred().contract == contract,
            publisher.events() == Seq::<Event>::empty(),
            publisher.last_written() == Evidence::initial(contract),
            was_written(publisher.cell(), Evidence::initial(contract)),
    {
        let (pen, sheet) = pen_and_sheet(contract);
        let ghost published = Published { contract, mark: sheet.mark() };
        let ghost last = pen@;
        Publisher {
            probe: Probe { sheet: Arc::new(RwLock::new(sheet, Ghost(published))) },
            pen,
            last: Ghost(last),
        }
    }

    /// Returns a reader of the cell.
    pub fn probe(&self) -> (probe: Probe)
        ensures
            probe.cell() == self.cell(),
    {
        self.probe.clone()
    }

    /// Returns what has been recorded so far.
    pub fn snapshot(&self) -> (snapshot: Snapshot)
        requires
            self.wf(),
        ensures
            snapshot@ == Evidence::collected(self.cell().pred().contract, self.events()),
    {
        self.pen.snapshot()
    }

    /// Records `event` and has the sheet that the probes read take it over.
    ///
    /// No other sheet can be put into the cell, and this one cannot be made to
    /// show less than it did, nor anything that was not recorded.
    pub fn publish(&mut self, event: Event)
        requires
            old(self).wf(),
            Event::may_follow(old(self).events(), event),
        ensures
            final(self).wf(),
            final(self).cell() == old(self).cell(),
            final(self).events() == old(self).events().push(event),
            final(self).last_written() == Evidence::collected(
                final(self).cell().pred().contract,
                final(self).events(),
            ),
            was_written(
                final(self).cell(),
                Evidence::collected(final(self).cell().pred().contract, final(self).events()),
            ),
    {
        self.pen.record(event);
        let (mut sheet, handle) = self.probe.sheet.acquire_write();
        sheet.take_over(&self.pen);
        handle.release_write(sheet);
        self.last = Ghost(self.pen@);
    }
}

} // verus!
