//! What the JSON payload of an event means.
use crate::observation::{FailureKind, Observation, OutputKind};
use crate::openai::bytes::text_equal;
use crate::openai::json::{Json, JsonView, Member};
use crate::openai::signal::{prefer_typed_signal, signal_for_type, signals_conflict, Signal};
use vstd::prelude::*;

verus! {

impl JsonView {
    /// The text that the value is, if it is one.
    pub open spec fn text(value: Option<JsonView>) -> Option<Seq<char>> {
        match value {
            Some(JsonView::Text(text)) => Some(text),
            _ => None,
        }
    }

    /// The member of this key of the `response` object.
    pub open spec fn response_member(self, key: Seq<char>) -> Option<JsonView> {
        match self.member("response"@) {
            Some(response) => response.member(key),
            None => None,
        }
    }

    /// The status text of the `response` object.
    pub open spec fn response_status(self) -> Option<Seq<char>> {
        JsonView::text(self.response_member("status"@))
    }

    /// Whether the payload, or the event name, says that the response failed.
    pub open spec fn fails(self, named: Option<Signal>) -> bool {
        ||| named == Some(Signal::Failed)
        ||| self.has("error"@)
        ||| Signal::of_name(JsonView::text(self.member("type"@))) == Some(Signal::Failed)
        ||| self.response_status() == Some("failed"@)
        ||| self.response_status() == Some("incomplete"@)
        ||| self.response_member("error"@) is Some && self.response_member("error"@)->0.present()
    }

    /// What response metadata means: it is neutral unless it carries output.
    pub open spec fn metadata_observation(self) -> Observation {
        if self.response_member("output"@) is Some && self.response_member(
            "output"@,
        )->0.present() {
            Observation::Output(OutputKind::Other)
        } else {
            Observation::Neutral
        }
    }

    /// The kind of output that a delta or a message carries.
    pub open spec fn delta_output(self) -> Option<OutputKind> {
        if self.has("tool_calls"@) || self.has("function_call"@) {
            Some(OutputKind::ToolCall)
        } else if self.has("content"@) {
            Some(OutputKind::Text)
        } else if self.has("refusal"@) {
            Some(OutputKind::Refusal)
        } else if self.has("reasoning"@) || self.has("reasoning_content"@) {
            Some(OutputKind::Reasoning)
        } else if self.has("audio"@) {
            Some(OutputKind::Audio)
        } else {
            None
        }
    }

    /// The kind of output that an optional delta or message carries.
    pub open spec fn part_output(part: Option<JsonView>) -> Option<OutputKind> {
        match part {
            Some(part) => part.delta_output(),
            None => None,
        }
    }

    /// The kind of output that a choice carries: in its text, else in its
    /// message, else in its delta.
    pub open spec fn choice_output(self) -> Option<OutputKind> {
        if self.has("text"@) {
            Some(OutputKind::Text)
        } else if JsonView::part_output(self.member("message"@)) is Some {
            JsonView::part_output(self.member("message"@))
        } else {
            JsonView::part_output(self.member("delta"@))
        }
    }

    /// Whether the key of a delta is metadata.
    pub open spec fn known_in_delta(key: Seq<char>) -> bool {
        key == "role"@
    }

    /// Whether the key of a choice is one that is understood.
    pub open spec fn known_in_choice(key: Seq<char>) -> bool {
        ||| key == "index"@
        ||| key == "delta"@
        ||| key == "finish_reason"@
        ||| key == "logprobs"@
        ||| key == "text"@
        ||| key == "message"@
    }

    /// Whether a delta carries a member that is not metadata.
    pub open spec fn delta_carries_unknown(self) -> bool {
        self matches JsonView::Object(members) && exists|i: int|
            0 <= i < members.len() && !JsonView::known_in_delta((#[trigger] members[i]).0)
                && members[i].1.present()
    }

    /// Whether a choice carries a member that is not understood.
    pub open spec fn choice_carries_unknown(self) -> bool {
        self matches JsonView::Object(members) && exists|i: int|
            0 <= i < members.len() && !JsonView::known_in_choice((#[trigger] members[i]).0)
                && members[i].1.present()
    }

    /// Whether a choice without text has a message, other than `null`, that
    /// carries no recognized output.
    pub open spec fn choice_has_mute_message(self) -> bool {
        &&& !self.has("text"@)
        &&& self.member("message"@) is Some
        &&& self.member("message"@)->0 !is Null
        &&& JsonView::part_output(self.member("message"@)) is None
    }

    /// Whether a choice without recognized output might carry some: it is no
    /// object, it has a message, its delta is of another shape, or it or its
    /// delta has a member that is not understood.
    pub open spec fn choice_is_doubtful(self) -> bool {
        ||| self !is Object
        ||| self.member("message"@) is Some && self.member("message"@)->0 !is Null
        ||| match self.member("delta"@) {
            None | Some(JsonView::Null) => self.choice_carries_unknown(),
            Some(JsonView::Object(members)) => {
                ||| JsonView::Object(members).delta_carries_unknown()
                ||| self.choice_carries_unknown()
            },
            Some(_) => true,
        }
    }

    /// The kind of output of the first of `choices` that carries any.
    pub open spec fn first_choice_output(choices: Seq<JsonView>) -> Option<OutputKind>
        decreases choices.len(),
    {
        if choices.len() == 0 {
            None
        } else if choices.first().choice_output() is Some {
            choices.first().choice_output()
        } else {
            JsonView::first_choice_output(choices.drop_first())
        }
    }

    /// Whether one of `choices` is doubtful.
    pub open spec fn any_doubtful(choices: Seq<JsonView>) -> bool {
        exists|i: int| 0 <= i < choices.len() && (#[trigger] choices[i]).choice_is_doubtful()
    }

    /// What a Chat Completions payload means, if at most `max_choices` choices
    /// are looked at.
    pub open spec fn chat_observation(self, max_choices: nat) -> Observation {
        match self.member("choices"@) {
            Some(JsonView::Array(choices)) => if choices.len() > max_choices {
                Observation::Uncertain
            } else {
                match JsonView::first_choice_output(choices) {
                    Some(kind) => Observation::Output(kind),
                    None => if JsonView::any_doubtful(choices) {
                        Observation::Uncertain
                    } else {
                        Observation::Neutral
                    },
                }
            },
            _ => Observation::Uncertain,
        }
    }

    /// What the payload of an event means whose name announces `named`.
    pub open spec fn observation(self, named: Option<Signal>, max_choices: nat) -> Observation {
        let kind = self.member("type"@);
        let typed = Signal::of_name(JsonView::text(kind));
        if self !is Object {
            Observation::Uncertain
        } else if self.fails(named) {
            Observation::Failed(FailureKind::Unknown)
        } else if kind is Some && kind->0 !is Text {
            Observation::Uncertain
        } else if Signal::conflict(named, typed) {
            Observation::Uncertain
        } else {
            match Signal::preferred(named, typed) {
                Some(Signal::Completed) => Observation::Completed,
                Some(Signal::Failed) => Observation::Failed(FailureKind::Unknown),
                Some(Signal::Output(kind)) => Observation::Output(kind),
                Some(Signal::ChatChunk) => self.chat_observation(max_choices),
                Some(Signal::Neutral) => self.metadata_observation(),
                Some(Signal::Unknown) => Observation::Uncertain,
                Some(Signal::Envelope) | None => if self.member("choices"@) is Some {
                    self.chat_observation(max_choices)
                } else if self.response_status() == Some("completed"@) {
                    Observation::Completed
                } else {
                    Observation::Uncertain
                },
            }
        }
    }
}

/// Whether the object has a present member of this key.
fn has_present(object: &Json, key: &str) -> (present: bool)
    ensures
        present == object@.has(key@),
{
    match object.member(key) {
        Some(value) => value.present(),
        None => false,
    }
}

/// The member of this key of the `response` object.
fn response_member<'a>(object: &'a Json, key: &str) -> (value: Option<&'a Json>)
    ensures
        value is Some <==> object@.response_member(key@) is Some,
        value matches Some(value) ==> object@.response_member(key@) == Some(value@),
{
    match object.member("response") {
        Some(response) => response.member(key),
        None => None,
    }
}

/// Whether the status text of the `response` object is `expected`.
fn response_status_is(object: &Json, expected: &str) -> (matches: bool)
    ensures
        matches == (object@.response_status() == Some(expected@)),
{
    match response_member(object, "status") {
        Some(Json::Text(status)) => text_equal(status.as_str(), expected),
        _ => false,
    }
}

/// Whether the payload, or the event name, says that the response failed.
pub fn is_failure_payload(object: &Json, named: Option<Signal>) -> (failure: bool)
    ensures
        failure == object@.fails(named),
{
    if matches!(named, Some(Signal::Failed)) {
        return true;
    }
    if has_present(object, "error") {
        return true;
    }
    if let Some(Json::Text(kind)) = object.member("type") {
        if matches!(signal_for_type(kind.as_str()), Signal::Failed) {
            return true;
        }
    }
    if response_status_is(object, "failed") || response_status_is(object, "incomplete") {
        return true;
    }
    match response_member(object, "error") {
        Some(error) => error.present(),
        None => false,
    }
}

/// Classifies response metadata.
pub fn classify_response_metadata(object: &Json) -> (observation: Observation)
    ensures
        observation == object@.metadata_observation(),
{
    match response_member(object, "output") {
        Some(output) => {
            if output.present() {
                Observation::Output(OutputKind::Other)
            } else {
                Observation::Neutral
            }
        },
        None => Observation::Neutral,
    }
}

/// Classifies a delta or a message.
pub fn classify_delta(delta: &Json) -> (output: Option<OutputKind>)
    ensures
        output == delta@.delta_output(),
{
    if has_present(delta, "tool_calls") || has_present(delta, "function_call") {
        Some(OutputKind::ToolCall)
    } else if has_present(delta, "content") {
        Some(OutputKind::Text)
    } else if has_present(delta, "refusal") {
        Some(OutputKind::Refusal)
    } else if has_present(delta, "reasoning") || has_present(delta, "reasoning_content") {
        Some(OutputKind::Reasoning)
    } else if has_present(delta, "audio") {
        Some(OutputKind::Audio)
    } else {
        None
    }
}

fn is_known_in_choice(key: &str) -> (known: bool)
    ensures
        known == JsonView::known_in_choice(key@),
{
    text_equal(key, "index") || text_equal(key, "delta") || text_equal(key, "finish_reason")
        || text_equal(key, "logprobs") || text_equal(key, "text") || text_equal(key, "message")
}

fn delta_carries_unknown(members: &Vec<Member>) -> (unknown: bool)
    ensures
        unknown == Json::Object(*members)@.delta_carries_unknown(),
{
    let ghost pairs = Json::Object(*members)@->Object_0;
    let mut i: usize = 0;
    while i < members.len()
        invariant
            i <= members.len(),
            pairs == Json::Object(*members)@->Object_0,
            forall|j: int|
                0 <= j < i ==> JsonView::known_in_delta((#[trigger] pairs[j]).0)
                    || !pairs[j].1.present(),
        decreases members.len() - i,
    {
        let member = &members[i];
        assert(pairs[i as int] == (member.key@, member.value@));
        if !text_equal(member.key.as_str(), "role") && member.value.present() {
            return true;
        }
        i = i + 1;
    }
    false
}

fn choice_carries_unknown(members: &Vec<Member>) -> (unknown: bool)
    ensures
        unknown == Json::Object(*members)@.choice_carries_unknown(),
{
    let ghost pairs = Json::Object(*members)@->Object_0;
    let mut i: usize = 0;
    while i < members.len()
        invariant
            i <= members.len(),
            pairs == Json::Object(*members)@->Object_0,
            forall|j: int|
                0 <= j < i ==> JsonView::known_in_choice((#[trigger] pairs[j]).0)
                    || !pairs[j].1.present(),
        decreases members.len() - i,
    {
        let member = &members[i];
        assert(pairs[i as int] == (member.key@, member.value@));
        if !is_known_in_choice(member.key.as_str()) && member.value.present() {
            return true;
        }
        i = i + 1;
    }
    false
}

/// Classifies one choice of a Chat Completions payload: returns the output that
/// it carries, and otherwise raises `uncertain` if it might carry some. A message
/// without recognized output raises `uncertain` even if the delta has some.
pub fn classify_chat_choice(choice: &Json, uncertain: &mut bool) -> (output: Option<OutputKind>)
    ensures
        output == choice@.choice_output(),
        output is Some ==> *final(uncertain) == (*old(uncertain)
            || choice@.choice_has_mute_message()),
        output is None ==> *final(uncertain) == (*old(uncertain) || choice@.choice_is_doubtful()),
{
    let members = match choice {
        Json::Object(members) => members,
        _ => {
            *uncertain = true;
            return None;
        },
    };
    if has_present(choice, "text") {
        return Some(OutputKind::Text);
    }
    if let Some(message) = choice.member("message") {
        if let Some(kind) = classify_delta(message) {
            return Some(kind);
        }
        if !matches!(message, Json::Null) {
            *uncertain = true;
        }
    }
    if let Some(delta) = choice.member("delta") {
        match delta {
            Json::Null => {},
            Json::Object(parts) => {
                if let Some(kind) = classify_delta(delta) {
                    return Some(kind);
                }
                if delta_carries_unknown(parts) {
                    *uncertain = true;
                }
            },
            _ => {
                *uncertain = true;
                return None;
            },
        }
    }
    if choice_carries_unknown(members) {
        *uncertain = true;
    }
    None
}

/// Classifies a Chat Completions payload.
pub fn classify_chat_choices(object: &Json, max_choices: usize) -> (observation: Observation)
    ensures
        observation == object@.chat_observation(max_choices as nat),
{
    let choices = match object.member("choices") {
        Some(Json::Array(choices)) => choices,
        _ => {
            return Observation::Uncertain;
        },
    };
    if choices.len() > max_choices {
        return Observation::Uncertain;
    }
    let ghost all = Json::Array(*choices)@->Array_0;
    let mut uncertain = false;
    let mut i: usize = 0;
    assert(all.skip(0) == all);
    while i < choices.len()
        invariant
            i <= choices.len() <= max_choices,
            object@.member("choices"@) == Some(JsonView::Array(all)),
            all == Json::Array(*choices)@->Array_0,
            JsonView::first_choice_output(all.skip(i as int)) == JsonView::first_choice_output(all),
            uncertain == exists|j: int| 0 <= j < i && (#[trigger] all[j]).choice_is_doubtful(),
        decreases choices.len() - i,
    {
        assert(all.skip(i as int).first() == choices@[i as int]@);
        assert(all.skip(i as int).drop_first() == all.skip(i + 1));
        if let Some(kind) = classify_chat_choice(&choices[i], &mut uncertain) {
            return Observation::Output(kind);
        }
        i = i + 1;
    }
    if uncertain {
        Observation::Uncertain
    } else {
        Observation::Neutral
    }
}

/// Classifies the JSON payload of an event whose name announces `named`.
pub fn classify_payload(
    payload: &Json,
    named: Option<Signal>,
    max_choices: usize,
) -> (observation: Observation)
    ensures
        observation == payload@.observation(named, max_choices as nat),
{
    if !matches!(payload, Json::Object(_)) {
        return Observation::Uncertain;
    }
    if is_failure_payload(payload, named) {
        return Observation::Failed(FailureKind::Unknown);
    }
    let typed = match payload.member("type") {
        Some(Json::Text(kind)) => Some(signal_for_type(kind.as_str())),
        Some(_) => {
            return Observation::Uncertain;
        },
        None => None,
    };
    if signals_conflict(named, typed) {
        return Observation::Uncertain;
    }
    match prefer_typed_signal(named, typed) {
        Some(Signal::Completed) => Observation::Completed,
        Some(Signal::Failed) => Observation::Failed(FailureKind::Unknown),
        Some(Signal::Output(kind)) => Observation::Output(kind),
        Some(Signal::ChatChunk) => classify_chat_choices(payload, max_choices),
        Some(Signal::Neutral) => classify_response_metadata(payload),
        Some(Signal::Unknown) => Observation::Uncertain,
        Some(Signal::Envelope) | None => {
            if payload.member("choices").is_some() {
                classify_chat_choices(payload, max_choices)
            } else if response_status_is(payload, "completed") {
                Observation::Completed
            } else {
                Observation::Uncertain
            }
        },
    }
}

} // verus!
