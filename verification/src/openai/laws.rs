//! What holds of the classification of every event.
use crate::evidence::{Event, Evidence};
use crate::observation::{FailureKind, Observation, OutputKind, ReplayContract};
use crate::openai::classifier::EventView;
use crate::openai::document::Doc;
use crate::openai::json::JsonView;
use crate::openai::limits::LimitsView;
use crate::openai::scan::{Scan, MAX_DEPTH};
use crate::openai::signal::Signal;
use vstd::prelude::*;

verus! {

/// Input over a limit fails closed, whatever it holds.
pub proof fn oversized_events_are_uncertain(event: EventView, limits: LimitsView)
    requires
        event.oversized(limits),
    ensures
        event.observation(limits) is Uncertain,
{
}

/// A failure that is read from an event is of an unknown kind: no event by
/// itself shows that a failure is transient.
pub proof fn failures_are_of_unknown_kind(event: EventView, limits: LimitsView)
    ensures
        event.observation(limits) is Failed ==> event.observation(limits) == Observation::Failed(
            FailureKind::Unknown,
        ),
{
}

/// The classifier alone never authorizes replay: a stream whose items are all
/// classified by it is denied, under every contract.
pub proof fn classified_events_never_authorize_replay(
    contract: ReplayContract,
    events: Seq<Event>,
    limits: LimitsView,
)
    requires
        Event::possible(events),
        forall|observation: Observation|
            crate::laws::observes(events, observation) ==> exists|event: EventView|
                observation == #[trigger] event.observation(limits),
    ensures
        !Evidence::collected(contract, events).allows_replay(),
{
    crate::laws::replay_is_authorized_exactly_if(contract, events);
    let transient = Observation::Failed(FailureKind::Transient);
    if crate::laws::observes(events, transient) {
        let event = choose|event: EventView| transient == #[trigger] event.observation(limits);
        failures_are_of_unknown_kind(event, limits);
    }
}

/// White space around the data makes no difference, as long as the data is
/// within its limit.
pub proof fn white_space_around_data_makes_no_difference(
    before: Seq<u8>,
    event: EventView,
    after: Seq<u8>,
    limits: LimitsView,
)
    requires
        crate::openai::bytes::is_blank(before),
        crate::openai::bytes::is_blank(after),
        before.len() + event.data.len() + after.len() <= limits.max_data_bytes,
    ensures
        (EventView { data: before + event.data + after, ..event }).observation(limits)
            == event.observation(limits),
{
    crate::openai::bytes::trimming_ignores_white_space(before, event.data, after);
}

/// Data that is neither empty nor the sentinel nor accepted as JSON is
/// uncertain, and so is JSON in which a key repeats, and JSON that is no object.
pub proof fn unreadable_payloads_are_uncertain(event: EventView, limits: LimitsView)
    requires
        event.content().len() > 0,
        !event.is_sentinel(),
        ({
            let document = crate::openai::json::json_document(event.content());
            ||| document is None
            ||| Scan::document(event.content()) is Duplicate
            ||| document->0 !is Object
        }),
    ensures
        event.observation(limits) is Uncertain,
{
}

/// A JSON text in which an object has the same key twice is neither empty nor
/// the sentinel, and the scan finds the repetition if the text is nested no
/// deeper than it follows.
pub(crate) proof fn lemma_repeating_content(event: EventView, doc: Doc)
    requires
        doc.lies_in(event.data),
        doc.names_its_members(),
        doc.repeats_a_key(),
    ensures
        event.content() == doc.text(),
        event.content().len() > 0,
        !event.is_sentinel(),
        doc.fits((MAX_DEPTH + 1) as nat) ==> Scan::document(event.content()) is Duplicate,
{
    crate::openai::document::lemma_trimmed(doc, event.data);
    if event.is_sentinel() {
        reveal_strlit("[DONE]");
        vstd::utf8::is_ascii_chars_encode_utf8("[DONE]"@);
        crate::openai::document::lemma_repeating_text_has_a_brace(doc);
    }
    if doc.fits((MAX_DEPTH + 1) as nat) {
        crate::openai::document::scan_finds_exactly_the_repeated_keys(doc, doc.text());
    }
}

/// A JSON text in which an object has the same key twice is uncertain, whatever
/// its name announces, wherever the object lies, and however the keys are
/// escaped, if it is nested no deeper than the scan follows. Of a text that is
/// nested deeper, [`crate::openai::classify_openai_event`] says the same.
pub proof fn repeated_keys_are_uncertain(event: EventView, doc: Doc, limits: LimitsView)
    requires
        doc.lies_in(event.data),
        doc.fits((MAX_DEPTH + 1) as nat),
        doc.names_its_members(),
        doc.repeats_a_key(),
    ensures
        event.observation(limits) is Uncertain,
{
    lemma_repeating_content(event, doc);
}

/// Failure evidence wins: an object that says that the response failed, or whose
/// event is named so, is a failure whatever else it says.
pub proof fn failure_evidence_wins(payload: JsonView, named: Option<Signal>, max_choices: nat)
    requires
        payload is Object,
        payload.fails(named),
    ensures
        payload.observation(named, max_choices) == Observation::Failed(FailureKind::Unknown),
{
}

/// Conflicting signals are uncertain: an object whose type announces something
/// else than the name of its event does is not trusted, unless it is a failure.
pub proof fn conflicting_signals_are_uncertain(
    payload: JsonView,
    named: Option<Signal>,
    max_choices: nat,
)
    requires
        !payload.fails(named),
        Signal::conflict(
            named,
            Signal::of_name(JsonView::text(payload.member("type"@))),
        ),
    ensures
        payload.observation(named, max_choices) is Uncertain,
{
}

/// Signals conflict symmetrically, and never with themselves.
pub proof fn conflict_is_symmetric(left: Option<Signal>, right: Option<Signal>)
    ensures
        Signal::conflict(left, right) == Signal::conflict(right, left),
        !Signal::conflict(left, left),
        !Signal::conflict(None, right),
        !Signal::conflict(Some(Signal::Envelope), right),
{
}

/// A type that is not known is uncertain, whatever the payload holds, unless it
/// is a failure.
pub proof fn unknown_types_are_uncertain(
    payload: JsonView,
    named: Option<Signal>,
    max_choices: nat,
)
    requires
        !payload.fails(named),
        Signal::of_name(JsonView::text(payload.member("type"@))) == Some(Signal::Unknown),
    ensures
        payload.observation(named, max_choices) is Uncertain,
{
}

pub(crate) proof fn lemma_first_choice_output(choices: Seq<JsonView>)
    ensures
        JsonView::first_choice_output(choices) is None <==> forall|i: int|
            0 <= i < choices.len() ==> (#[trigger] choices[i]).choice_output() is None,
        JsonView::first_choice_output(choices) is Some ==> exists|i: int|
            {
                &&& 0 <= i < choices.len()
                &&& JsonView::first_choice_output(choices) == (
                #[trigger] choices[i]).choice_output()
                &&& forall|j: int| 0 <= j < i ==> (#[trigger] choices[j]).choice_output() is None
            },
    decreases choices.len(),
{
    if choices.len() > 0 {
        let others = choices.drop_first();
        lemma_first_choice_output(others);
        assert forall|i: int| 0 <= i < others.len() implies #[trigger] others[i] == choices[i
            + 1] by {}
        if choices[0].choice_output() is Some {
        } else if JsonView::first_choice_output(others) is Some {
            let k = choose|i: int|
                {
                    &&& 0 <= i < others.len()
                    &&& JsonView::first_choice_output(others) == (
                    #[trigger] others[i]).choice_output()
                    &&& forall|j: int|
                        0 <= j < i ==> (#[trigger] others[j]).choice_output() is None
                };
            assert(choices[k + 1] == others[k]);
            assert forall|j: int| 0 <= j < k + 1 implies (
            #[trigger] choices[j]).choice_output() is None by {
                if j > 0 {
                    assert(others[j - 1] == choices[j]);
                }
            }
        } else {
            assert forall|i: int| 0 <= i < choices.len() implies (
            #[trigger] choices[i]).choice_output() is None by {
                if i > 0 {
                    assert(others[i - 1] == choices[i]);
                }
            }
        }
    }
}

/// Output in a chunk is reported as output, of the kind of the first choice that
/// carries any: doubts about other choices do not hide it.
pub proof fn output_in_a_choice_is_output(payload: JsonView, max_choices: nat, i: int)
    requires
        payload.member("choices"@) matches Some(JsonView::Array(choices)) && {
            &&& choices.len() <= max_choices
            &&& 0 <= i < choices.len()
            &&& choices[i].choice_output() is Some
            &&& forall|j: int| 0 <= j < i ==> (#[trigger] choices[j]).choice_output() is None
        },
    ensures
        payload.chat_observation(max_choices) == Observation::Output(
            payload.member("choices"@)->0->Array_0[i].choice_output()->0,
        ),
{
    let choices = payload.member("choices"@)->0->Array_0;
    lemma_first_choice_output(choices);
    let k = choose|k: int|
        {
            &&& 0 <= k < choices.len()
            &&& JsonView::first_choice_output(choices) == (#[trigger] choices[k]).choice_output()
            &&& forall|j: int| 0 <= j < k ==> (#[trigger] choices[j]).choice_output() is None
        };
    assert(choices[k].choice_output() is Some);
    assert(k == i);
}

/// A fragment of a tool call is output as soon as it is not empty, and need not
/// be valid JSON: whichever choice carries it, the chunk is output, or uncertain
/// if it has too many choices. It is a tool call unless the choice carries text
/// or a message as well.
pub proof fn a_partial_tool_call_is_output(payload: JsonView, max_choices: nat, i: int)
    requires
        payload.member("choices"@) matches Some(JsonView::Array(choices)) && {
            &&& 0 <= i < choices.len()
            &&& choices[i].member("delta"@) matches Some(delta) && (delta.has("tool_calls"@)
                || delta.has("function_call"@))
        },
    ensures
        ({
            let choices = payload.member("choices"@)->0->Array_0;
            &&& choices.len() <= max_choices ==> payload.chat_observation(max_choices) is Output
            &&& choices.len() > max_choices ==> payload.chat_observation(max_choices) is Uncertain
            &&& !choices[i].has("text"@) && JsonView::part_output(choices[i].member("message"@))
                is None ==> choices[i].choice_output() == Some(OutputKind::ToolCall)
        }),
{
    let choices = payload.member("choices"@)->0->Array_0;
    assert(choices[i].choice_output() is Some);
    lemma_first_choice_output(choices);
}

/// A neutral chunk carries nothing that could be output: all of its choices are
/// objects, none carries output or a member that is not understood, and none is
/// doubtful.
pub proof fn a_neutral_chunk_carries_no_output(payload: JsonView, max_choices: nat)
    requires
        payload.chat_observation(max_choices) is Neutral,
    ensures
        payload.member("choices"@) matches Some(JsonView::Array(choices)) && {
            &&& choices.len() <= max_choices
            &&& forall|i: int|
                0 <= i < choices.len() ==> {
                    &&& #[trigger] choices[i] is Object
                    &&& choices[i].choice_output() is None
                    &&& !choices[i].choice_carries_unknown()
                    &&& !choices[i].choice_is_doubtful()
                }
        },
{
    let choices = payload.member("choices"@)->0->Array_0;
    lemma_first_choice_output(choices);
    assert forall|i: int| 0 <= i < choices.len() implies {
        &&& #[trigger] choices[i] is Object
        &&& choices[i].choice_output() is None
        &&& !choices[i].choice_carries_unknown()
        &&& !choices[i].choice_is_doubtful()
    } by {
        assert(!choices[i].choice_is_doubtful());
    }
}

/// Content that is not understood is uncertain: a choice with a member of an
/// unknown key that carries anything is doubtful.
pub proof fn unknown_choice_content_is_doubtful(choice: JsonView)
    requires
        choice.choice_carries_unknown(),
    ensures
        choice.choice_is_doubtful(),
{
}

/// A neutral payload is response metadata without output, or a chunk whose
/// choices carry none; in either case it says nothing of a failure.
pub proof fn neutral_payloads_carry_no_output(
    payload: JsonView,
    named: Option<Signal>,
    max_choices: nat,
)
    requires
        payload.observation(named, max_choices) is Neutral,
    ensures
        payload is Object,
        !payload.fails(named),
        ({
            ||| payload.chat_observation(max_choices) is Neutral
            ||| {
                &&& payload.response_member("output"@) is Some ==> !payload.response_member(
                    "output"@,
                )->0.present()
                &&& Signal::preferred(
                    named,
                    Signal::of_name(JsonView::text(payload.member("type"@))),
                ) == Some(Signal::Neutral)
            }
        }),
{
}

/// Completion is explicit: an event is a completion only by the sentinel, by its
/// name or type, or by the status of its response.
pub proof fn completion_is_explicit(event: EventView, limits: LimitsView)
    requires
        event.observation(limits) is Completed,
    ensures
        ({
            let document = crate::openai::json::json_document(event.content());
            ||| event.is_sentinel()
            ||| event.signal() == Some(Signal::Completed)
            ||| document is Some && Signal::of_name(
                JsonView::text(document->0.member("type"@)),
            ) == Some(Signal::Completed)
            ||| document is Some && document->0.response_status() == Some("completed"@)
        }),
{
}

} // verus!
