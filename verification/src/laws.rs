//! What holds of replay evidence over whole streams.
//!
//! [`crate::evidence`] says what one event does. The laws here say what a
//! sequence of events amounts to, whatever the events are.
use crate::evidence::{Event, Evidence};
use crate::observation::{
    ExitReason, FailureKind, Observation, OutputKind, ReplayBoundary, ReplayContract, ReplayVerdict,
    Termination,
};
use vstd::prelude::*;

verus! {

/// Whether an item with this meaning is among `events`.
pub open spec fn observes(events: Seq<Event>, observation: Observation) -> bool {
    events.contains(Event::ItemObserved(observation))
}

/// The kind of the first output among `events`.
pub open spec fn first_output(events: Seq<Event>) -> Option<OutputKind>
    decreases events.len(),
{
    if events.len() == 0 {
        None
    } else {
        match (first_output(events.drop_last()), events.last()) {
            (Some(kind), _) => Some(kind),
            (None, Event::ItemObserved(Observation::Output(kind))) => Some(kind),
            _ => None,
        }
    }
}

/// Whether a poll among `events` unwound: it was never resolved, and the stream
/// was polled again or dropped.
pub open spec fn unwinds(events: Seq<Event>) -> bool {
    exists|i: int| #[trigger] unwinds_at(events, i)
}

/// Whether the poll that starts at position `i` unwound.
pub open spec fn unwinds_at(events: Seq<Event>, i: int) -> bool {
    &&& 0 <= i < events.len() - 1
    &&& events[i] is PollStarted
    &&& events[i + 1] is PollStarted || events[i + 1] is WrapperDropped
}

/// The strictest failure among `events`.
pub open spec fn strictest_failure(events: Seq<Event>) -> Option<FailureKind> {
    if observes(events, Observation::Failed(FailureKind::Unknown)) {
        Some(FailureKind::Unknown)
    } else if observes(events, Observation::Failed(FailureKind::Permanent)) {
        Some(FailureKind::Permanent)
    } else if observes(events, Observation::Failed(FailureKind::Transient)) {
        Some(FailureKind::Transient)
    } else {
        None
    }
}

proof fn lemma_contains_last(events: Seq<Event>, event: Event)
    requires
        events.len() > 0,
    ensures
        events.contains(event) <==> events.drop_last().contains(event) || events.last() == event,
{
    let before = events.drop_last();
    if events.contains(event) && events.last() != event {
        let i = choose|i: int| 0 <= i < events.len() && events[i] == event;
        assert(before[i] == event);
    }
    if before.contains(event) {
        let i = choose|i: int| 0 <= i < before.len() && before[i] == event;
        assert(events[i] == event);
    }
    if events.last() == event {
        assert(events[events.len() - 1] == event);
    }
}

proof fn lemma_unwinds_last(events: Seq<Event>)
    requires
        events.len() > 0,
    ensures
        unwinds(events) <==> {
            ||| unwinds(events.drop_last())
            ||| Event::polling(events.drop_last()) && (events.last() is PollStarted
                || events.last() is WrapperDropped)
        },
{
    let before = events.drop_last();
    if unwinds(events) {
        let i = choose|i: int| #[trigger] unwinds_at(events, i);
        if i < before.len() - 1 {
            assert(unwinds_at(before, i));
        }
    }
    if unwinds(before) {
        let i = choose|i: int| #[trigger] unwinds_at(before, i);
        assert(unwinds_at(events, i));
    }
    if Event::polling(before) && (events.last() is PollStarted || events.last() is WrapperDropped) {
        assert(unwinds_at(events, events.len() - 2));
    }
}

/// What can happen to a stream: a poll is resolved right after it started, and
/// nothing follows the end of the stream or the drop of the wrapper.
pub proof fn what_can_happen(events: Seq<Event>, event: Event)
    ensures
        Event::possible(Seq::<Event>::empty()),
        Event::possible(events.push(event)) <==> {
            &&& Event::possible(events)
            &&& events.len() > 0 ==> events.last() != Event::StreamEnded && events.last()
                != Event::WrapperDropped
            &&& event is PollPending || event is ItemObserved || event is StreamEnded
                ==> events.len() > 0 && events.last() == Event::PollStarted
        },
        Event::polling(events) <==> events.len() > 0 && events.last() == Event::PollStarted,
        Event::finished(events) <==> events.len() > 0 && (events.last() == Event::StreamEnded
            || events.last() == Event::WrapperDropped),
        Event::possible(events) ==> (Event::may_follow(events, event) <==> Event::possible(
            events.push(event),
        )),
{
    assert(events.push(event).drop_last() == events);
}

/// The verdict allows replay in one combination, and denies it in all others.
pub proof fn one_combination_allows_replay(evidence: Evidence)
    ensures
        evidence.verdict() == (if evidence == (Evidence {
            contract: ReplayContract::KnownSafe,
            boundary: ReplayBoundary::Uncrossed,
            termination: Termination::Failed(FailureKind::Transient),
            poll_in_progress: false,
        }) {
            ReplayVerdict::Allow
        } else {
            ReplayVerdict::Deny
        }),
        evidence.allows_replay() <==> evidence.verdict() is Allow,
{
}

/// Evidence is reachable only through events that can happen.
pub proof fn reachable_evidence_has_a_history(contract: ReplayContract, evidence: Evidence)
    requires
        evidence.reachable(contract),
    ensures
        exists|events: Seq<Event>|
            Event::possible(events) && evidence == #[trigger] Evidence::collected(contract, events),
{
}

/// Once output was recorded, all that is published later denies replay and names
/// the kind of the first output.
pub proof fn output_denies_replay_for_good(
    contract: ReplayContract,
    events: Seq<Event>,
    more: Seq<Event>,
    i: int,
    kind: OutputKind,
)
    requires
        Event::possible(events + more),
        0 <= i < events.len(),
        events[i] == Event::ItemObserved(Observation::Output(kind)),
        forall|j: int|
            0 <= j < i ==> !(#[trigger] events[j] is ItemObserved
                && events[j]->ItemObserved_0 is Output),
    ensures
        Evidence::collected(contract, events + more).boundary == ReplayBoundary::Crossed(kind),
        Evidence::collected(contract, events + more).verdict() is Deny,
{
    let all = events + more;
    boundary_of_a_stream(contract, all);
    assert(all[i] == events[i]);
    assert forall|j: int| 0 <= j < i implies !(#[trigger] all[j] is ItemObserved
        && all[j]->ItemObserved_0 is Output) by {
        assert(all[j] == events[j]);
    }
    lemma_first_output(all, i, kind);
}

proof fn lemma_first_output(events: Seq<Event>, i: int, kind: OutputKind)
    requires
        0 <= i < events.len(),
        events[i] == Event::ItemObserved(Observation::Output(kind)),
        forall|j: int|
            0 <= j < i ==> !(#[trigger] events[j] is ItemObserved
                && events[j]->ItemObserved_0 is Output),
    ensures
        first_output(events) == Some(kind),
    decreases events.len(),
{
    let before = events.drop_last();
    if i < before.len() {
        assert(before[i] == events[i]);
        assert forall|j: int| 0 <= j < i implies !(#[trigger] before[j] is ItemObserved
            && before[j]->ItemObserved_0 is Output) by {
            assert(before[j] == events[j]);
        }
        lemma_first_output(before, i, kind);
    } else {
        no_first_output_exactly_if_no_output(before);
        assert forall|other: OutputKind| !observes(before, Observation::Output(other)) by {
            if observes(before, Observation::Output(other)) {
                let j = choose|j: int|
                    0 <= j < before.len() && before[j] == Event::ItemObserved(
                        Observation::Output(other),
                    );
                assert(events[j] == before[j]);
            }
        }
    }
}

/// The contract is the caller's: no event changes it.
pub proof fn contract_never_changes(contract: ReplayContract, events: Seq<Event>)
    ensures
        Evidence::collected(contract, events).contract == contract,
    decreases events.len(),
{
    if events.len() > 0 {
        contract_never_changes(contract, events.drop_last());
    }
}

/// A poll is marked as in progress from its start until it is resolved, and at
/// no other time.
pub proof fn in_progress_while_polling(contract: ReplayContract, events: Seq<Event>)
    requires
        Event::possible(events),
    ensures
        Evidence::collected(contract, events).poll_in_progress <==> Event::polling(events),
    decreases events.len(),
{
    if events.len() > 0 {
        in_progress_while_polling(contract, events.drop_last());
    }
}

/// The boundary is what the items and unwound polls amount to: crossed by the
/// first output, of its kind; otherwise uncertain if an item was uncertain or a
/// poll unwound; otherwise uncrossed.
pub proof fn boundary_of_a_stream(contract: ReplayContract, events: Seq<Event>)
    requires
        Event::possible(events),
    ensures
        Evidence::collected(contract, events).boundary == match first_output(events) {
            Some(kind) => ReplayBoundary::Crossed(kind),
            None => if observes(events, Observation::Uncertain) || unwinds(events) {
                ReplayBoundary::Uncertain
            } else {
                ReplayBoundary::Uncrossed
            },
        },
    decreases events.len(),
{
    if events.len() > 0 {
        boundary_of_a_stream(contract, events.drop_last());
        in_progress_while_polling(contract, events.drop_last());
        lemma_contains_last(events, Event::ItemObserved(Observation::Uncertain));
        lemma_unwinds_last(events);
    }
}

/// The termination is what the events amount to: a panic if a poll unwound;
/// otherwise the strictest failure observed; otherwise clean completion if it
/// was observed; otherwise the way observation ended, if it did.
pub proof fn termination_of_a_stream(contract: ReplayContract, events: Seq<Event>)
    requires
        Event::possible(events),
    ensures
        Evidence::collected(contract, events).termination == if unwinds(events) {
            Termination::Exited(ExitReason::Panicked)
        } else if strictest_failure(events) is Some {
            Termination::Failed(strictest_failure(events)->0)
        } else if observes(events, Observation::Completed) {
            Termination::Completed
        } else if Event::finished(events) && events.last() is StreamEnded {
            Termination::Exited(ExitReason::EndOfStream)
        } else if Event::finished(events) {
            Termination::Exited(ExitReason::Dropped)
        } else {
            Termination::Active
        },
    decreases events.len(),
{
    if events.len() > 0 {
        termination_of_a_stream(contract, events.drop_last());
        in_progress_while_polling(contract, events.drop_last());
        lemma_contains_last(events, Event::ItemObserved(Observation::Completed));
        lemma_contains_last(events, Event::ItemObserved(Observation::Failed(FailureKind::Unknown)));
        lemma_contains_last(
            events,
            Event::ItemObserved(Observation::Failed(FailureKind::Permanent)),
        );
        lemma_contains_last(
            events,
            Event::ItemObserved(Observation::Failed(FailureKind::Transient)),
        );
        lemma_unwinds_last(events);
    }
}

/// Replay is authorized exactly if the caller declared it safe, a transient
/// failure was observed and no other failure, no item was output or uncertain,
/// no poll unwound, and no poll is open.
pub proof fn replay_is_authorized_exactly_if(contract: ReplayContract, events: Seq<Event>)
    requires
        Event::possible(events),
    ensures
        Evidence::collected(contract, events).allows_replay() <==> {
            &&& contract is KnownSafe
            &&& strictest_failure(events) == Some(FailureKind::Transient)
            &&& first_output(events) is None
            &&& !observes(events, Observation::Uncertain)
            &&& !unwinds(events)
            &&& !Event::polling(events)
        },
{
    contract_never_changes(contract, events);
    in_progress_while_polling(contract, events);
    boundary_of_a_stream(contract, events);
    termination_of_a_stream(contract, events);
}

/// There is no first output exactly if no output occurs.
pub proof fn no_first_output_exactly_if_no_output(events: Seq<Event>)
    ensures
        first_output(events) is None <==> forall|kind: OutputKind| !observes(
            events,
            Observation::Output(kind),
        ),
    decreases events.len(),
{
    if events.len() > 0 {
        no_first_output_exactly_if_no_output(events.drop_last());
        assert forall|kind: OutputKind|
            observes(events, Observation::Output(kind)) <==> observes(
                events.drop_last(),
                Observation::Output(kind),
            ) || events.last() == Event::ItemObserved(Observation::Output(kind)) by {
            lemma_contains_last(events, Event::ItemObserved(Observation::Output(kind)));
        }
        if let Event::ItemObserved(Observation::Output(kind)) = events.last() {
            assert(observes(events, Observation::Output(kind)));
        }
        if first_output(events.drop_last()) is Some {
            let kind = choose|kind: OutputKind|
                observes(events.drop_last(), Observation::Output(kind));
            assert(observes(events, Observation::Output(kind)));
        }
    }
}

/// The boundary is monotonic: whatever follows, a crossed boundary keeps its
/// first kind, and a boundary that is not uncrossed stays so.
pub proof fn boundary_is_monotonic(
    contract: ReplayContract,
    events: Seq<Event>,
    more: Seq<Event>,
)
    ensures
        Evidence::collected(contract, events).boundary is Crossed ==> Evidence::collected(
            contract,
            events + more,
        ).boundary == Evidence::collected(contract, events).boundary,
        Evidence::collected(contract, events).boundary !is Uncrossed ==> Evidence::collected(
            contract,
            events + more,
        ).boundary !is Uncrossed,
    decreases more.len(),
{
    if more.len() == 0 {
        assert(events + more == events);
    } else {
        boundary_is_monotonic(contract, events, more.drop_last());
        assert((events + more).drop_last() == events + more.drop_last());
    }
}

/// Failure evidence only gets stricter: whatever follows, a failed stream stays
/// failed with a failure at least as strict, unless a poll unwinds, which is
/// recorded instead.
pub proof fn failure_evidence_only_gets_stricter(
    contract: ReplayContract,
    events: Seq<Event>,
    more: Seq<Event>,
)
    requires
        Evidence::collected(contract, events).termination is Failed,
    ensures
        ({
            let earlier = Evidence::collected(contract, events).termination;
            let later = Evidence::collected(contract, events + more).termination;
            ||| later == Termination::Exited(ExitReason::Panicked)
            ||| later is Failed && later->Failed_0.severity() >= earlier->Failed_0.severity()
        }),
    decreases more.len(),
{
    if more.len() == 0 {
        assert(events + more == events);
    } else {
        failure_evidence_only_gets_stricter(contract, events, more.drop_last());
        assert((events + more).drop_last() == events + more.drop_last());
    }
}

/// A termination stands: whatever follows, a stream that has one is never active
/// again.
pub proof fn termination_is_never_active_again(
    contract: ReplayContract,
    events: Seq<Event>,
    more: Seq<Event>,
)
    ensures
        Evidence::collected(contract, events).termination !is Active ==> Evidence::collected(
            contract,
            events + more,
        ).termination !is Active,
    decreases more.len(),
{
    if more.len() == 0 {
        assert(events + more == events);
    } else {
        termination_is_never_active_again(contract, events, more.drop_last());
        assert((events + more).drop_last() == events + more.drop_last());
    }
}

/// Later evidence keeps what earlier evidence shows: the contract, the kind of a
/// crossed boundary, that a boundary is not uncrossed, and that the stream has
/// terminated.
pub proof fn later_evidence_keeps_what_earlier_evidence_shows(
    contract: ReplayContract,
    events: Seq<Event>,
    more: Seq<Event>,
)
    ensures
        ({
            let earlier = Evidence::collected(contract, events);
            let later = Evidence::collected(contract, events + more);
            &&& later.contract == earlier.contract
            &&& earlier.boundary is Crossed ==> later.boundary == earlier.boundary
            &&& earlier.boundary is Uncertain ==> later.boundary !is Uncrossed
            &&& earlier.termination !is Active ==> later.termination !is Active
        }),
{
    contract_never_changes(contract, events);
    contract_never_changes(contract, events + more);
    boundary_is_monotonic(contract, events, more);
    termination_is_never_active_again(contract, events, more);
}

/// Refusal is final once it rests on output, doubt, a failure that is not
/// transient, or an exit: whatever follows, replay is not authorized again.
pub proof fn refusal_is_final(contract: ReplayContract, events: Seq<Event>, more: Seq<Event>)
    requires
        ({
            let evidence = Evidence::collected(contract, events);
            ||| evidence.boundary !is Uncrossed
            ||| evidence.termination is Exited
            ||| evidence.termination is Failed && evidence.termination
                != Termination::Failed(FailureKind::Transient)
        }),
    ensures
        !Evidence::collected(contract, events + more).allows_replay(),
{
    boundary_is_monotonic(contract, events, more);
    if Evidence::collected(contract, events).termination is Failed {
        failure_evidence_only_gets_stricter(contract, events, more);
    }
    if Evidence::collected(contract, events).termination is Exited {
        lemma_exits_are_final(contract, events, more);
    }
}

proof fn lemma_exits_are_final(contract: ReplayContract, events: Seq<Event>, more: Seq<Event>)
    requires
        Evidence::collected(contract, events).termination is Exited,
    ensures
        Evidence::collected(contract, events + more).termination is Exited,
    decreases more.len(),
{
    if more.len() == 0 {
        assert(events + more == events);
    } else {
        lemma_exits_are_final(contract, events, more.drop_last());
        assert((events + more).drop_last() == events + more.drop_last());
    }
}

/// An explicit outcome survives the end of the stream and the drop of the
/// wrapper, and so does the verdict; without one, both leave a stream that
/// denies replay and is not cleanly completed.
pub proof fn explicit_outcomes_survive_the_wrapper(
    contract: ReplayContract,
    events: Seq<Event>,
    ending: Event,
)
    requires
        Event::possible(events),
        Event::may_follow(events, ending),
        ending is StreamEnded || ending is WrapperDropped && !Event::polling(events),
    ensures
        ({
            let before = Evidence::collected(contract, events);
            let after = Evidence::collected(contract, events.push(ending));
            &&& after.boundary == before.boundary
            &&& before.termination !is Active ==> after.termination == before.termination
            &&& before.termination is Active ==> after.termination == Termination::Exited(
                if ending is StreamEnded {
                    ExitReason::EndOfStream
                } else {
                    ExitReason::Dropped
                },
            )
            &&& before.termination is Active ==> !after.allows_replay()
        }),
{
    in_progress_while_polling(contract, events);
    assert(events.push(ending).drop_last() == events);
}

/// A poll that unwinds never leaves evidence that authorizes replay: neither
/// while it is open, nor after the stream is polled again or dropped.
pub proof fn a_panic_never_authorizes_replay(
    contract: ReplayContract,
    events: Seq<Event>,
    more: Seq<Event>,
)
    requires
        Event::possible(events),
        Event::polling(events),
        more.len() > 0,
        more[0] is PollStarted || more[0] is WrapperDropped,
    ensures
        !Evidence::collected(contract, events).allows_replay(),
        !Evidence::collected(contract, events + more).allows_replay(),
        Evidence::collected(contract, events + more).termination == Termination::Exited(
            ExitReason::Panicked,
        ),
    decreases more.len(),
{
    in_progress_while_polling(contract, events);
    if more.len() == 1 {
        assert((events + more).drop_last() == events);
    } else {
        a_panic_never_authorizes_replay(contract, events, more.drop_last());
        assert((events + more).drop_last() == events + more.drop_last());
    }
}

/// What a snapshot says holds of the stream: one that authorizes replay was
/// taken of a stream whose caller declared replay safe, which failed
/// transiently, and from which nothing but neutral items, completion and
/// transient failures came.
pub proof fn an_allowing_snapshot_rests_on_its_stream(contract: ReplayContract, evidence: Evidence)
    requires
        evidence.reachable(contract),
        evidence.allows_replay(),
    ensures
        contract is KnownSafe,
        exists|events: Seq<Event>|
            {
                &&& Event::possible(events)
                &&& evidence == #[trigger] Evidence::collected(contract, events)
                &&& observes(events, Observation::Failed(FailureKind::Transient))
                &&& forall|observation: Observation|
                    observes(events, observation) ==> {
                        ||| observation is Neutral
                        ||| observation is Completed
                        ||| observation == Observation::Failed(FailureKind::Transient)
                    }
            },
{
    let events = choose|events: Seq<Event>|
        Event::possible(events) && evidence == #[trigger] Evidence::collected(contract, events);
    replay_is_authorized_exactly_if(contract, events);
    no_first_output_exactly_if_no_output(events);
    assert forall|observation: Observation| observes(events, observation) implies {
        ||| observation is Neutral
        ||| observation is Completed
        ||| observation == Observation::Failed(FailureKind::Transient)
    } by {
        match observation {
            Observation::Output(kind) => {
                assert(!observes(events, Observation::Output(kind)));
            },
            Observation::Failed(FailureKind::Permanent) => {},
            Observation::Failed(FailureKind::Unknown) => {},
            _ => {},
        }
    }
}

/// Combining failures is choosing the stricter one: the order and the grouping
/// do not matter.
pub proof fn combining_failures(a: FailureKind, b: FailureKind, c: FailureKind)
    ensures
        a.stricter(b) == b.stricter(a),
        a.stricter(b.stricter(c)) == a.stricter(b).stricter(c),
        a.stricter(a) == a,
        FailureKind::Unknown.stricter(a) == FailureKind::Unknown,
        FailureKind::Transient.stricter(a) == a,
{
}

} // verus!
