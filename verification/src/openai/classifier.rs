//! The classifier of already-framed events.
use crate::observation::{Classify, FailureKind, Observation};
use crate::openai::bytes::{bytes_equal, trim_ascii};
use crate::openai::document::Doc;
use crate::openai::json::parse_json;
use crate::openai::limits::{ClassifierLimits, LimitsView};
use crate::openai::payload::classify_payload;
use crate::openai::scan::{has_duplicate_object_key, Scan, MAX_DEPTH};
use crate::openai::signal::{signal_for_type, Signal};
use vstd::prelude::*;

verus! {

/// A borrowed, already-framed Server-Sent Event.
///
/// `data` is the complete event payload after an SSE parser has removed field
/// prefixes and joined multiple `data:` lines. This type does not protect an
/// upstream parser from unbounded buffering.
#[derive(Clone, Copy, Debug, Eq, PartialEq)]
pub struct SseEventRef<'a> {
    /// The optional SSE `event` field, without the `event:` prefix.
    pub event: Option<&'a str>,
    /// The joined SSE data bytes, without any `data:` prefixes.
    pub data: &'a [u8],
}

/// An event: its name, if it has one, and its data.
pub struct EventView {
    /// The name.
    pub name: Option<Seq<char>>,
    /// The data.
    pub data: Seq<u8>,
}

impl<'a> View for SseEventRef<'a> {
    type V = EventView;

    open spec fn view(&self) -> EventView {
        EventView {
            name: match self.event {
                Some(name) => Some(name@),
                None => None,
            },
            data: self.data@,
        }
    }
}

impl<'a> SseEventRef<'a> {
    /// Creates an event that uses the default SSE message type.
    pub fn new(data: &'a [u8]) -> (event: Self)
        ensures
            event.event is None,
            event.data == data,
    {
        SseEventRef { event: None, data }
    }

    /// Creates an event with an explicit SSE event name.
    pub fn named(event: &'a str, data: &'a [u8]) -> (named: Self)
        ensures
            named.event == Some(event),
            named.data == data,
    {
        SseEventRef { event: Some(event), data }
    }
}

impl EventView {
    /// Whether the name or the data is longer than the limits allow.
    pub open spec fn oversized(self, limits: LimitsView) -> bool {
        ||| self.name is Some && vstd::utf8::encode_utf8(self.name->0).len()
            > limits.max_event_name_bytes
        ||| self.data.len() > limits.max_data_bytes
    }

    /// What the name announces.
    pub open spec fn signal(self) -> Option<Signal> {
        Signal::of_name(self.name)
    }

    /// The data without the white space around it.
    pub open spec fn content(self) -> Seq<u8> {
        crate::openai::bytes::trimmed(self.data)
    }

    /// Whether the data is the completion sentinel.
    pub open spec fn is_sentinel(self) -> bool {
        self.content() == vstd::utf8::encode_utf8("[DONE]"@)
    }

    /// What the completion sentinel means in an event with this name.
    pub open spec fn sentinel_observation(named: Option<Signal>) -> Observation {
        match named {
            Some(Signal::Failed) => Observation::Failed(FailureKind::Unknown),
            Some(Signal::Completed) | Some(Signal::Envelope) | None => Observation::Completed,
            _ => Observation::Uncertain,
        }
    }

    /// What an event with this name means that has no data.
    pub open spec fn empty_observation(named: Option<Signal>) -> Observation {
        match named {
            Some(Signal::Failed) => Observation::Failed(FailureKind::Unknown),
            Some(Signal::Completed) => Observation::Completed,
            Some(Signal::Neutral) | Some(Signal::Envelope) | None => Observation::Neutral,
            _ => Observation::Uncertain,
        }
    }

    /// What the event means.
    pub open spec fn observation(self, limits: LimitsView) -> Observation {
        if self.oversized(limits) {
            Observation::Uncertain
        } else if self.is_sentinel() {
            EventView::sentinel_observation(self.signal())
        } else if self.content().len() == 0 {
            EventView::empty_observation(self.signal())
        } else {
            match crate::openai::json::json_document(self.content()) {
                None => Observation::Uncertain,
                Some(payload) => if Scan::document(self.content()) is Duplicate {
                    Observation::Uncertain
                } else {
                    payload.observation(self.signal(), limits.max_choices)
                },
            }
        }
    }
}

/// Classifies the completion sentinel in an event whose name announces `named`.
pub fn classify_sentinel(named: Option<Signal>) -> (observation: Observation)
    ensures
        observation == EventView::sentinel_observation(named),
{
    match named {
        Some(Signal::Failed) => Observation::Failed(FailureKind::Unknown),
        Some(Signal::Completed) | Some(Signal::Envelope) | None => Observation::Completed,
        Some(Signal::Neutral) | Some(Signal::Output(_)) | Some(Signal::ChatChunk) | Some(
            Signal::Unknown,
        ) => Observation::Uncertain,
    }
}

/// Classifies an event without data whose name announces `named`.
pub fn classify_empty(named: Option<Signal>) -> (observation: Observation)
    ensures
        observation == EventView::empty_observation(named),
{
    match named {
        Some(Signal::Failed) => Observation::Failed(FailureKind::Unknown),
        Some(Signal::Completed) => Observation::Completed,
        Some(Signal::Neutral) | Some(Signal::Envelope) | None => Observation::Neutral,
        Some(Signal::Output(_)) | Some(Signal::ChatChunk) | Some(Signal::Unknown) => {
            Observation::Uncertain
        },
    }
}

/// Classifies one bounded, already-framed OpenAI-compatible SSE event.
///
/// Known output deltas cross the replay boundary. Explicit completion, failed,
/// incomplete, and error events establish terminal observations. Invalid JSON,
/// duplicate object keys, conflicting event/type signals, oversized input, and
/// unknown semantic events all return [`Observation::Uncertain`]. Failures are
/// conservatively [`FailureKind::Unknown`]; a stream body alone is insufficient
/// evidence that replay is transient-safe.
pub fn classify_openai_event(event: SseEventRef<'_>, limits: ClassifierLimits) -> (observation:
    Observation)
    ensures
        observation == event@.observation(limits@),
        forall|doc: Doc| #[trigger]
            doc.lies_in(event.data@) && doc.names_its_members() && doc.repeats_a_key()
                ==> observation is Uncertain,
{
    proof {
        assert forall|doc: Doc| #[trigger]
            doc.lies_in(event.data@) && doc.names_its_members()
                && doc.repeats_a_key() implies {
            &&& event@.content() == doc.text()
            &&& event@.content().len() > 0
            &&& !event@.is_sentinel()
            &&& doc.fits((MAX_DEPTH + 1) as nat) ==> Scan::document(event@.content()) is Duplicate
        } by {
            crate::openai::laws::lemma_repeating_content(event@, doc);
        }
    }
    let named = match event.event {
        Some(name) => {
            if name.as_bytes().len() > limits.max_event_name_bytes() {
                return Observation::Uncertain;
            }
            Some(signal_for_type(name))
        },
        None => None,
    };
    if event.data.len() > limits.max_data_bytes() {
        return Observation::Uncertain;
    }
    let data = trim_ascii(event.data);
    if bytes_equal(data, "[DONE]".as_bytes()) {
        return classify_sentinel(named);
    }
    if data.is_empty() {
        return classify_empty(named);
    }
    let payload = match parse_json(data) {
        Some(payload) => payload,
        None => {
            return Observation::Uncertain;
        },
    };
    if has_duplicate_object_key(data) {
        return Observation::Uncertain;
    }
    classify_payload(&payload, named, limits.max_choices())
}

/// A reusable classifier for OpenAI-compatible, already-framed SSE events.
///
/// The classifier stores only limits. It never stores an event or parsed JSON
/// value after [`Classify::classify`] returns.
#[derive(Clone, Copy, Debug, Eq, Hash, PartialEq)]
pub struct OpenAiClassifier {
    limits: ClassifierLimits,
}

impl View for OpenAiClassifier {
    type V = LimitsView;

    closed spec fn view(&self) -> LimitsView {
        self.limits@
    }
}

impl OpenAiClassifier {
    /// Creates a classifier with explicit bounded limits.
    pub fn new(limits: ClassifierLimits) -> (classifier: Self)
        ensures
            classifier@ == limits@,
    {
        OpenAiClassifier { limits }
    }

    /// Returns this classifier's effective limits.
    pub fn limits(self) -> (limits: ClassifierLimits)
        ensures
            limits@ == self@,
    {
        self.limits
    }
}

impl Default for OpenAiClassifier {
    fn default() -> (classifier: Self)
        ensures
            classifier@ == LimitsView::standard(),
    {
        OpenAiClassifier { limits: ClassifierLimits::default() }
    }
}

impl<'a> Classify<SseEventRef<'a>> for OpenAiClassifier {
    open spec fn accepts(&self, item: &SseEventRef<'a>) -> bool {
        true
    }

    fn classify(&mut self, item: &SseEventRef<'a>) -> (observation: Observation)
        ensures
            observation == item@.observation(old(self)@),
            *final(self) == *old(self),
    {
        classify_openai_event(*item, self.limits)
    }
}

} // verus!
