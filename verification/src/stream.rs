//! The stream guard: it decides what each downstream poll does, and records in
//! its journal what has happened.
use crate::evidence::{Event, Evidence};
use crate::journal::Journal;
use crate::observation::{Classify, ReplayContract};
use crate::probe::{Probe, Published};
use crate::sheet::Sheet;
use crate::state::Snapshot;
use vstd::prelude::*;
use vstd::rwlock::RwLock;

verus! {

/// What one poll of a stream delivers.
#[derive(Debug, Eq, PartialEq)]
pub enum Polled<Item> {
    /// Nothing is available yet.
    Pending,
    /// An item, or the end of the stream.
    Ready(Option<Item>),
}

/// A transparent stream wrapper that records replay-relevant observations.
///
/// The wrapper performs no prefetching. Each downstream poll polls the upstream
/// stream at most once, and every item is returned unchanged. The replay state
/// is committed before the item becomes visible to the downstream consumer.
///
/// How `S` is polled is up to the caller, who passes the poll to
/// [`GuardedStream::poll_next`], and who calls
/// [`GuardedStream::wrapper_dropped`] when the wrapper goes away.
pub struct GuardedStream<S, C> {
    inner: S,
    classifier: C,
    journal: Journal,
    ended: bool,
}

impl<S, C> GuardedStream<S, C> {
    /// The cell that the probes of the stream read.
    pub closed spec fn cell(self) -> RwLock<Sheet, Published> {
        self.journal.cell()
    }

    /// The caller's replay contract.
    pub open spec fn contract(self) -> ReplayContract {
        self.cell().pred().contract
    }

    /// What has happened to the stream so far.
    pub closed spec fn events(self) -> Seq<Event> {
        self.journal.events()
    }

    /// The upstream stream.
    pub closed spec fn inner(self) -> S {
        self.inner
    }

    /// The classifier in its present state.
    pub closed spec fn classifier(self) -> C {
        self.classifier
    }

    /// The evidence collected so far.
    pub open spec fn evidence(self) -> Evidence {
        Evidence::collected(self.contract(), self.events())
    }

    /// Whether the upstream stream is not to be polled any more.
    pub open spec fn finished(self) -> bool {
        Event::finished(self.events())
    }

    /// What was written last to the cell that the probes read.
    pub closed spec fn last_written(self) -> Evidence {
        self.journal.last_written()
    }

    /// Whether the evidence collected so far was written to the cell that the
    /// probes read, and nothing after it.
    pub open spec fn published(self) -> bool {
        &&& self.last_written() == self.evidence()
        &&& crate::probe::was_written(self.cell(), self.evidence())
    }

    /// Whether the journal is in order, and the guard knows if the stream is
    /// finished.
    pub closed spec fn wf(self) -> bool {
        &&& self.journal.wf()
        &&& self.ended == self.finished()
    }

    /// Whether it was published that a poll is under way that starts now.
    pub open spec fn poll_is_announced(self) -> bool {
        crate::probe::was_written(
            self.cell(),
            Evidence::collected(self.contract(), self.events().push(Event::PollStarted)),
        )
    }

    /// What has happened to a guarded stream is possible, and the probes were
    /// last given what it amounts to.
    pub proof fn history_is_possible(self)
        requires
            self.wf(),
        ensures
            Event::possible(self.events()),
            self.published(),
            self.last_written() == Evidence::collected(self.contract(), self.events()),
            crate::probe::was_written(
                self.cell(),
                Evidence::collected(self.contract(), self.events()),
            ),
    {
        self.journal.history_is_possible();
    }

    /// The evidence of a guard is what its history amounts to under the contract
    /// of its cell, and a poll is announced only once the probes were given what
    /// the history amounts to with that poll under way, which denies replay.
    pub proof fn evidence_and_announcements_rest_on_the_history(self)
        requires
            self.wf(),
        ensures
            self.contract() == self.cell().pred().contract,
            self.evidence() == Evidence::collected(self.cell().pred().contract, self.events()),
            self.finished() <==> self.events().len() > 0 && (self.events().last()
                == Event::StreamEnded || self.events().last() == Event::WrapperDropped),
            self.poll_is_announced() ==> crate::probe::was_written(
                self.cell(),
                Evidence::collected(
                    self.cell().pred().contract,
                    self.events().push(Event::PollStarted),
                ),
            ),
            Evidence::collected(
                self.cell().pred().contract,
                self.events().push(Event::PollStarted),
            ).poll_in_progress,
            !Evidence::collected(
                self.cell().pred().contract,
                self.events().push(Event::PollStarted),
            ).allows_replay(),
    {
        assert(self.events().push(Event::PollStarted).drop_last() == self.events());
    }

    /// What it means that a guard follows another after an event: the event is
    /// the only change, and it was published.
    pub proof fn following_adds_the_event_and_nothing_else(self, before: Self, event: Event)
        requires
            self.follows(before, event),
        ensures
            self.cell() == before.cell(),
            self.inner() == before.inner(),
            self.classifier() == before.classifier(),
            self.events().len() == before.events().len() + 1,
            self.events().last() == event,
            self.events().drop_last() == before.events(),
            self.last_written() == Evidence::collected(self.contract(), self.events()),
            crate::probe::was_written(
                self.cell(),
                Evidence::collected(self.contract(), self.events()),
            ),
    {
    }

    /// While a poll is open, what the probes were last given says so, and denies
    /// replay: an upstream poll or a classification that unwinds leaves no
    /// evidence that authorizes it.
    pub proof fn an_open_poll_denies_replay(self)
        requires
            self.wf(),
            Event::polling(self.events()),
        ensures
            self.last_written().poll_in_progress,
            !self.last_written().allows_replay(),
    {
        self.history_is_possible();
        crate::laws::in_progress_while_polling(self.contract(), self.events());
    }

    /// Whether `self` is `before` after `event`, with the same upstream stream,
    /// the same classifier and the same probes, which were last given the result.
    pub open spec fn follows(self, before: Self, event: Event) -> bool {
        &&& self.cell() == before.cell()
        &&& self.published()
        &&& self.events() == before.events().push(event)
        &&& self.inner() == before.inner()
        &&& self.classifier() == before.classifier()
    }

    /// Wraps `inner` with `classifier` and an independent replay contract.
    pub fn new(inner: S, classifier: C, contract: ReplayContract) -> (guarded: Self)
        ensures
            guarded.wf(),
            guarded.contract() == contract,
            guarded.published(),
            guarded.events() == Seq::<Event>::empty(),
            guarded.inner() == inner,
            guarded.classifier() == classifier,
    {
        GuardedStream { inner, classifier, journal: Journal::new(contract), ended: false }
    }

    /// Returns a cloneable probe for this stream.
    pub fn probe(&self) -> (probe: Probe)
        ensures
            probe.cell() == self.cell(),
    {
        self.journal.probe()
    }

    /// Returns the evidence collected so far, as its owner sees it: all of it.
    /// What a probe sees of it is said at [`Probe::snapshot`].
    pub fn snapshot(&self) -> (snapshot: Snapshot)
        requires
            self.wf(),
        ensures
            snapshot@ == self.evidence(),
    {
        self.journal.snapshot()
    }

    /// Commits `event` to the state and publishes the result.
    pub fn record(&mut self, event: Event)
        requires
            old(self).wf(),
            Event::may_follow(old(self).events(), event),
        ensures
            final(self).wf(),
            final(self).follows(*old(self), event),
    {
        self.journal.record(event);
        match event {
            Event::StreamEnded | Event::WrapperDropped => {
                self.ended = true;
            },
            _ => {},
        }
    }

    /// Opens a downstream poll. Returns whether the upstream stream is to be
    /// polled; it is not once it has ended.
    ///
    /// What is published here denies replay. It is what was published last until
    /// the poll is resolved or, if the poll unwinds, until the stream is polled
    /// again or dropped.
    pub fn begin_poll(&mut self) -> (poll_upstream: bool)
        requires
            old(self).wf(),
        ensures
            final(self).wf(),
            poll_upstream == !old(self).finished(),
            poll_upstream ==> final(self).follows(*old(self), Event::PollStarted),
            poll_upstream ==> final(self).last_written().poll_in_progress,
            poll_upstream ==> !final(self).last_written().allows_replay(),
            !poll_upstream ==> *final(self) == *old(self),
    {
        if self.ended {
            return false;
        }
        self.record(Event::PollStarted);
        true
    }

    /// Resolves the open poll with what the upstream stream delivered, and hands
    /// the same back. An item is first classified, once, by the classifier as it
    /// is now, and what the classifier said of it is committed.
    pub fn finish_poll<Item>(&mut self, upstream: Polled<Item>) -> (delivered: Polled<Item>) where
        C: Classify<Item>,

        requires
            old(self).wf(),
            Event::polling(old(self).events()),
            upstream matches Polled::Ready(Some(item)) ==> old(self).classifier().accepts(&item),
        ensures
            final(self).wf(),
            delivered == upstream,
            forall|item: Item|
                #![trigger final(self).classifier().accepts(&item)]
                old(self).classifier().accepts(&item) ==> final(self).classifier().accepts(&item),
            upstream is Pending ==> final(self).follows(*old(self), Event::PollPending),
            upstream matches Polled::Ready(None) ==> final(self).follows(
                *old(self),
                Event::StreamEnded,
            ),
            upstream matches Polled::Ready(Some(item)) ==> {
                &&& final(self).cell() == old(self).cell()
                &&& final(self).published()
                &&& final(self).inner() == old(self).inner()
                &&& exists|classifier: &mut C, observation|
                    {
                        &&& *classifier == old(self).classifier()
                        &&& *final(classifier) == final(self).classifier()
                        &&& #[trigger] call_ensures(
                            <C as Classify<Item>>::classify,
                            (classifier, &item),
                            observation,
                        )
                        &&& final(self).events() == old(self).events().push(
                            Event::ItemObserved(observation),
                        )
                    }
            },
    {
        assert(old(self).classifier() == self.classifier);
        match &upstream {
            Polled::Pending => self.record(Event::PollPending),
            Polled::Ready(Some(item)) => {
                let observation = self.classifier.classify(item);
                self.record(Event::ItemObserved(observation));
            },
            Polled::Ready(None) => self.record(Event::StreamEnded),
        }
        upstream
    }

    /// Polls the guarded stream once: unless it has ended, `poll` polls the
    /// upstream stream, and what it delivers is committed, published and handed
    /// on.
    ///
    /// `poll` and the classifier can only be called once it was published that a
    /// poll is under way: before, they are not known to accept a call.
    ///
    /// If `poll` or the classifier unwinds, the poll stays open: what was
    /// published last denies replay, and the next poll or the drop of the
    /// wrapper records the panic.
    pub fn poll_next<Item, F>(&mut self, poll: F) -> (delivered: Polled<Item>) where
        C: Classify<Item>,
        F: FnOnce(&mut S) -> Polled<Item>,

        requires
            old(self).wf(),
            !old(self).finished() && old(self).poll_is_announced() ==> forall|inner: &mut S|
                *inner == old(self).inner() ==> call_requires(poll, (inner,)),
            !old(self).finished() && old(self).poll_is_announced() ==> forall|item: Item| #[trigger]
                old(self).classifier().accepts(&item),
        ensures
            final(self).wf(),
            final(self).cell() == old(self).cell(),
            final(self).published(),
            forall|item: Item|
                #![trigger final(self).classifier().accepts(&item)]
                old(self).classifier().accepts(&item) ==> final(self).classifier().accepts(&item),
            !old(self).finished() ==> old(self).poll_is_announced(),
            old(self).finished() ==> {
                &&& delivered matches Polled::Ready(None)
                &&& *final(self) == *old(self)
            },
            !old(self).finished() ==> exists|inner: &mut S|
                {
                    &&& *inner == old(self).inner()
                    &&& *final(inner) == final(self).inner()
                    &&& #[trigger] call_ensures(poll, (inner,), delivered)
                },
            !old(self).finished() && delivered is Pending ==> {
                &&& final(self).events() == old(self).events().push(Event::PollStarted).push(
                    Event::PollPending,
                )
                &&& final(self).classifier() == old(self).classifier()
            },
            !old(self).finished() && delivered == Polled::<Item>::Ready(None) ==> {
                &&& final(self).events() == old(self).events().push(Event::PollStarted).push(
                    Event::StreamEnded,
                )
                &&& final(self).classifier() == old(self).classifier()
            },
            delivered matches Polled::Ready(Some(item)) ==> exists|classifier: &mut C, observation|
                {
                    &&& *classifier == old(self).classifier()
                    &&& *final(classifier) == final(self).classifier()
                    &&& #[trigger] call_ensures(
                        <C as Classify<Item>>::classify,
                        (classifier, &item),
                        observation,
                    )
                    &&& final(self).events() == old(self).events().push(Event::PollStarted).push(
                        Event::ItemObserved(observation),
                    )
                },
    {
        proof {
            self.history_is_possible();
            assert(old(self).classifier() == self.classifier);
        }
        if !self.begin_poll() {
            return Polled::Ready(None);
        }
        let upstream = poll(&mut self.inner);
        self.finish_poll(upstream)
    }

    /// Records that the wrapper went away. The end of the stream, once recorded,
    /// stands.
    pub fn wrapper_dropped(&mut self)
        requires
            old(self).wf(),
        ensures
            final(self).wf(),
            final(self).published(),
            old(self).finished() ==> *final(self) == *old(self),
            !old(self).finished() ==> final(self).follows(*old(self), Event::WrapperDropped),
    {
        proof {
            self.history_is_possible();
        }
        if !self.ended {
            self.record(Event::WrapperDropped);
        }
    }

    /// Returns bounds on the number of items still to come: none once the
    /// stream has ended, and what `inner_hint` says of the upstream stream
    /// before.
    pub fn size_hint<F>(&self, inner_hint: F) -> (hint: (usize, Option<usize>)) where
        F: FnOnce(&S) -> (usize, Option<usize>),

        requires
            self.wf(),
            !self.finished() ==> call_requires(inner_hint, (&self.inner(),)),
        ensures
            self.finished() ==> hint == (0usize, Some(0usize)),
            !self.finished() ==> call_ensures(inner_hint, (&self.inner(),), hint),
    {
        if self.ended {
            (0, Some(0))
        } else {
            inner_hint(&self.inner)
        }
    }

    /// Returns whether the stream has ended.
    pub fn is_terminated(&self) -> (terminated: bool)
        requires
            self.wf(),
        ensures
            terminated == self.finished(),
    {
        self.ended
    }
}

} // verus!
