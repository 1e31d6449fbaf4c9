//! What values, choices, payloads and events mean, told from their members.
//!
//! Each law covers every value that it speaks of: it says when each outcome
//! comes, by the keys and texts that the value holds.
use crate::observation::{FailureKind, Observation, OutputKind};
use crate::openai::classifier::{EventView, SseEventRef};
use crate::openai::json::{Json, JsonView, Member};
use crate::openai::limits::{
    LimitsView, HARD_MAX_CHOICES, HARD_MAX_DATA_BYTES, HARD_MAX_EVENT_NAME_BYTES,
};
use crate::openai::scan::{
    Scan, BACKSLASH, CLOSE_BRACE, CLOSE_BRACKET, COLON, COMMA, MAX_DEPTH, OPEN_BRACE,
    OPEN_BRACKET, QUOTE,
};
use crate::openai::signal::Signal;
use vstd::prelude::*;

verus! {

/// White space is the space, the tab, the line feed, the form feed and the
/// carriage return, and blank is what holds nothing else.
pub proof fn what_is_white_space(byte: u8, bytes: Seq<u8>)
    ensures
        crate::openai::bytes::is_space(byte) <==> byte == 32 || byte == 9 || byte == 10 || byte
            == 12 || byte == 13,
        crate::openai::bytes::is_blank(bytes) <==> forall|i: int|
            0 <= i < bytes.len() ==> {
                let b = #[trigger] bytes[i];
                b == 32 || b == 9 || b == 10 || b == 12 || b == 13
            },
{
}

/// The bytes that JSON is laid out with, and the depth that the scan follows.
pub proof fn how_json_is_laid_out()
    ensures
        QUOTE == '"' as u8,
        COMMA == ',' as u8,
        COLON == ':' as u8,
        BACKSLASH == '\\' as u8,
        OPEN_BRACKET == '[' as u8,
        CLOSE_BRACKET == ']' as u8,
        OPEN_BRACE == '{' as u8,
        CLOSE_BRACE == '}' as u8,
        MAX_DEPTH == 128,
{
}

/// The limits that apply by default, and their ceilings.
pub proof fn what_the_limits_are()
    ensures
        LimitsView::standard().max_event_name_bytes == 256,
        LimitsView::standard().max_data_bytes == 65536,
        LimitsView::standard().max_choices == 128,
        HARD_MAX_EVENT_NAME_BYTES == 4096,
        HARD_MAX_DATA_BYTES == 1048576,
        HARD_MAX_CHOICES == 1024,
{
}

/// The view of an event is its name and its data.
pub proof fn an_event_is_its_name_and_data(event: SseEventRef<'_>)
    ensures
        event@.data == event.data@,
        event.event is None ==> event@.name is None,
        event.event matches Some(name) ==> event@.name == Some(name@),
{
}

/// The view of a value is the value that its parts make up.
pub proof fn a_value_is_what_its_parts_make_it(
    flag: bool,
    text: String,
    items: Vec<Json>,
    members: Vec<Member>,
)
    ensures
        Json::Null@ == JsonView::Null,
        Json::Bool(flag)@ == JsonView::Bool(flag),
        Json::Number@ == JsonView::Number,
        Json::Text(text)@ == JsonView::Text(text@),
        Json::Array(items)@ is Array,
        Json::Array(items)@->Array_0.len() == items@.len(),
        forall|i: int|
            0 <= i < items@.len() ==> #[trigger] Json::Array(items)@->Array_0[i] == items@[i]@,
        Json::Object(members)@ is Object,
        Json::Object(members)@->Object_0.len() == members@.len(),
        forall|i: int|
            0 <= i < members@.len() ==> #[trigger] Json::Object(members)@->Object_0[i] == (
                members@[i].key@,
                members@[i].value@,
            ),
{
}

/// A value carries something unless it is `null` or empty.
pub proof fn what_is_present(
    flag: bool,
    text: Seq<char>,
    items: Seq<JsonView>,
    members: Seq<(Seq<char>, JsonView)>,
)
    ensures
        !JsonView::Null.present(),
        JsonView::Bool(flag).present(),
        JsonView::Number.present(),
        JsonView::Text(text).present() <==> text != Seq::<char>::empty(),
        JsonView::Array(items).present() <==> items != Seq::<JsonView>::empty(),
        JsonView::Object(members).present() <==> members != Seq::<
            (Seq<char>, JsonView),
        >::empty(),
{
    assert(text.len() == 0 ==> text == Seq::<char>::empty());
    assert(items.len() == 0 ==> items == Seq::<JsonView>::empty());
    assert(members.len() == 0 ==> members == Seq::<(Seq<char>, JsonView)>::empty());
}

/// A member is found under its key, the first if there are several; what is no
/// object has none.
pub proof fn members_are_found_by_their_key(value: JsonView, key: Seq<char>)
    ensures
        value !is Object ==> value.member(key) is None,
        value matches JsonView::Object(members) ==> {
            &&& value.member(key) is None <==> forall|i: int|
                0 <= i < members.len() ==> (#[trigger] members[i]).0 != key
            &&& value.member(key) matches Some(found) ==> exists|i: int|
                {
                    &&& 0 <= i < members.len()
                    &&& #[trigger] members[i] == (key, found)
                    &&& forall|j: int| 0 <= j < i ==> (#[trigger] members[j]).0 != key
                }
        },
        value.has(key) <==> value.member(key) is Some && value.member(key)->0.present(),
{
    if let JsonView::Object(members) = value {
        lemma_lookup(members, key);
    }
}

proof fn lemma_lookup(members: Seq<(Seq<char>, JsonView)>, key: Seq<char>)
    ensures
        JsonView::lookup(members, key) is None <==> forall|i: int|
            0 <= i < members.len() ==> (#[trigger] members[i]).0 != key,
        JsonView::lookup(members, key) matches Some(found) ==> exists|i: int|
            {
                &&& 0 <= i < members.len()
                &&& #[trigger] members[i] == (key, found)
                &&& forall|j: int| 0 <= j < i ==> (#[trigger] members[j]).0 != key
            },
    decreases members.len(),
{
    if members.len() > 0 {
        let rest = members.drop_first();
        lemma_lookup(rest, key);
        assert forall|i: int| 0 <= i < rest.len() implies #[trigger] rest[i] == members[i
            + 1] by {}
        if members[0].0 == key {
            assert(members[0] == (key, members[0].1));
        } else if let Some(found) = JsonView::lookup(rest, key) {
            let k = choose|i: int|
                {
                    &&& 0 <= i < rest.len()
                    &&& #[trigger] rest[i] == (key, found)
                    &&& forall|j: int| 0 <= j < i ==> (#[trigger] rest[j]).0 != key
                };
            assert(members[k + 1] == (key, found));
            assert forall|j: int| 0 <= j < k + 1 implies (#[trigger] members[j]).0 != key by {
                if j > 0 {
                    assert(rest[j - 1] == members[j]);
                }
            }
        } else {
            assert forall|i: int| 0 <= i < members.len() implies (
            #[trigger] members[i]).0 != key by {
                if i > 0 {
                    assert(rest[i - 1] == members[i]);
                }
            }
        }
    }
}

/// What a delta or a message carries goes by seven keys, in the order of their
/// kinds, whatever other members there are.
pub proof fn what_a_delta_carries(delta: JsonView)
    ensures
        ({
            let call = delta.has("tool_calls"@) || delta.has("function_call"@);
            let text = delta.has("content"@);
            let refusal = delta.has("refusal"@);
            let reasoning = delta.has("reasoning"@) || delta.has("reasoning_content"@);
            let audio = delta.has("audio"@);
            let output = delta.delta_output();
            &&& output == Some(OutputKind::ToolCall) <==> call
            &&& output == Some(OutputKind::Text) <==> text && !call
            &&& output == Some(OutputKind::Refusal) <==> refusal && !text && !call
            &&& output == Some(OutputKind::Reasoning) <==> reasoning && !refusal && !text && !call
            &&& output == Some(OutputKind::Audio) <==> audio && !reasoning && !refusal && !text
                && !call
            &&& output is None <==> !audio && !reasoning && !refusal && !text && !call
        }),
{
}

/// Members under other keys make no difference to what a delta carries: two that
/// agree on the seven keys carry the same.
pub proof fn deltas_that_agree_on_output_carry_the_same(left: JsonView, right: JsonView)
    requires
        left.has("tool_calls"@) == right.has("tool_calls"@),
        left.has("function_call"@) == right.has("function_call"@),
        left.has("content"@) == right.has("content"@),
        left.has("refusal"@) == right.has("refusal"@),
        left.has("reasoning"@) == right.has("reasoning"@),
        left.has("reasoning_content"@) == right.has("reasoning_content"@),
        left.has("audio"@) == right.has("audio"@),
    ensures
        left.delta_output() == right.delta_output(),
{
}

/// A choice carries its text, else what its message carries, else what its delta
/// carries.
pub proof fn what_a_choice_carries(choice: JsonView)
    ensures
        choice.has("text"@) ==> choice.choice_output() == Some(OutputKind::Text),
        !choice.has("text"@) ==> {
            &&& choice.member("message"@) is Some && choice.member(
                "message"@,
            )->0.delta_output() is Some ==> choice.choice_output() == choice.member("message"@)->0.delta_output()
            &&& (choice.member("message"@) is None || choice.member(
                "message"@,
            )->0.delta_output() is None) ==> {
                &&& choice.member("delta"@) is None ==> choice.choice_output() is None
                &&& choice.member("delta"@) matches Some(delta) ==> choice.choice_output()
                    == delta.delta_output()
            }
        },
{
}

/// A choice is doubtful exactly if it is no object, has a message other than
/// `null`, has a delta that is neither `null` nor an object, has a delta with a
/// member other than the role that carries something, or itself has a member
/// under a key that is not understood that carries something.
pub proof fn what_makes_a_choice_doubtful(choice: JsonView)
    ensures
        choice.choice_is_doubtful() <==> {
            ||| choice !is Object
            ||| choice.member("message"@) is Some && choice.member("message"@)
                != Some(JsonView::Null)
            ||| choice.member("delta"@) matches Some(delta) && delta !is Null && delta !is Object
            ||| choice.member("delta"@) matches Some(JsonView::Object(parts)) && exists|i: int|
                0 <= i < parts.len() && (#[trigger] parts[i]).0 != "role"@ && parts[i].1.present()
            ||| choice matches JsonView::Object(members) && exists|i: int|
                {
                    let key = (#[trigger] members[i]).0;
                    &&& 0 <= i < members.len()
                    &&& members[i].1.present()
                    &&& key != "index"@
                    &&& key != "delta"@
                    &&& key != "finish_reason"@
                    &&& key != "logprobs"@
                    &&& key != "text"@
                    &&& key != "message"@
                }
        },
        choice.choice_has_mute_message() <==> {
            &&& !choice.has("text"@)
            &&& choice.member("message"@) is Some
            &&& choice.member("message"@) != Some(JsonView::Null)
            &&& choice.member("message"@)->0.delta_output() is None
        },
{
    if let JsonView::Object(members) = choice {
        assert forall|i: int| 0 <= i < members.len() implies (JsonView::known_in_choice(
            (#[trigger] members[i]).0,
        ) <==> {
            let key = members[i].0;
            ||| key == "index"@
            ||| key == "delta"@
            ||| key == "finish_reason"@
            ||| key == "logprobs"@
            ||| key == "text"@
            ||| key == "message"@
        }) by {}
    }
}

/// A chunk is the output of its first choice that carries any; without output it
/// is neutral if no choice is doubtful, and uncertain otherwise. It is uncertain
/// too if it has too many choices or none that can be listed.
pub proof fn what_a_chunk_means(payload: JsonView, max_choices: nat)
    ensures
        ({
            let meaning = payload.chat_observation(max_choices);
            match payload.member("choices"@) {
                Some(JsonView::Array(choices)) => {
                    &&& choices.len() > max_choices ==> meaning == Observation::Uncertain
                    &&& choices.len() <= max_choices ==> {
                        &&& forall|i: int|
                            {
                                &&& 0 <= i < choices.len()
                                &&& (#[trigger] choices[i]).choice_output() is Some
                                &&& forall|j: int|
                                    0 <= j < i ==> (#[trigger] choices[j]).choice_output() is None
                            } ==> meaning == Observation::Output(choices[i].choice_output()->0)
                        &&& (forall|i: int|
                            0 <= i < choices.len() ==> (
                            #[trigger] choices[i]).choice_output() is None) ==> meaning == (
                        if exists|i: int|
                            0 <= i < choices.len() && (
                            #[trigger] choices[i]).choice_is_doubtful() {
                            Observation::Uncertain
                        } else {
                            Observation::Neutral
                        })
                        &&& meaning is Output ==> exists|i: int|
                            0 <= i < choices.len() && Some(meaning->Output_0) == (
                            #[trigger] choices[i]).choice_output()
                    }
                },
                _ => meaning == Observation::Uncertain,
            }
        }),
{
    if let Some(JsonView::Array(choices)) = payload.member("choices"@) {
        crate::openai::laws::lemma_first_choice_output(choices);
        assert forall|i: int|
            {
                &&& 0 <= i < choices.len()
                &&& (#[trigger] choices[i]).choice_output() is Some
                &&& forall|j: int| 0 <= j < i ==> (#[trigger] choices[j]).choice_output() is None
                &&& choices.len() <= max_choices
            } implies payload.chat_observation(max_choices) == Observation::Output(
            choices[i].choice_output()->0,
        ) by {
            crate::openai::laws::output_in_a_choice_is_output(payload, max_choices, i);
        }
    }
}

/// A neutral chunk holds nothing that could be output: told from the members of
/// its choices, of their deltas and of their messages.
pub proof fn a_neutral_chunk_is_metadata(payload: JsonView, max_choices: nat)
    requires
        payload.chat_observation(max_choices) is Neutral,
    ensures
        payload.member("choices"@) matches Some(JsonView::Array(choices)) && forall|i: int|
            0 <= i < choices.len() ==> {
                &&& #[trigger] choices[i] is Object
                &&& !choices[i].has("text"@)
                &&& choices[i].member("message"@) is None || choices[i].member("message"@) == Some(
                    JsonView::Null,
                )
                &&& match choices[i].member("delta"@) {
                    None | Some(JsonView::Null) => true,
                    Some(JsonView::Object(parts)) => forall|j: int|
                        0 <= j < parts.len() && (#[trigger] parts[j]).0 != "role"@
                            ==> !parts[j].1.present(),
                    Some(_) => false,
                }
                &&& forall|j: int|
                    {
                        let key = (#[trigger] choices[i]->Object_0[j]).0;
                        &&& 0 <= j < choices[i]->Object_0.len()
                        &&& key != "index"@
                        &&& key != "delta"@
                        &&& key != "finish_reason"@
                        &&& key != "logprobs"@
                        &&& key != "text"@
                        &&& key != "message"@
                    } ==> !choices[i]->Object_0[j].1.present()
            },
{
    crate::openai::laws::a_neutral_chunk_carries_no_output(payload, max_choices);
    let choices = payload.member("choices"@)->0->Array_0;
    assert forall|i: int, j: int|
        {
            let key = (#[trigger] choices[i]->Object_0[j]).0;
            &&& 0 <= i < choices.len()
            &&& 0 <= j < choices[i]->Object_0.len()
            &&& key != "index"@
            &&& key != "delta"@
            &&& key != "finish_reason"@
            &&& key != "logprobs"@
            &&& key != "text"@
            &&& key != "message"@
        } implies !choices[i]->Object_0[j].1.present() by {
        what_makes_a_choice_doubtful(choices[i]);
        assert(!choices[i].choice_is_doubtful());
    }
}

/// A payload is a failure exactly if the event is named so, or it has an error
/// that carries anything, or its type is that of a failure, or its response has
/// a failed status or an error that carries anything.
pub proof fn what_is_a_failure(payload: JsonView, named: Option<Signal>)
    ensures
        payload.fails(named) <==> {
            ||| named == Some(Signal::Failed)
            ||| payload.member("error"@) is Some && payload.member("error"@)->0.present()
            ||| payload.member("type"@) == Some(JsonView::Text("error"@))
            ||| payload.member("type"@) == Some(JsonView::Text("response.failed"@))
            ||| payload.member("type"@) == Some(JsonView::Text("response.incomplete"@))
            ||| payload.member("response"@) matches Some(response) && {
                ||| response.member("status"@) == Some(JsonView::Text("failed"@))
                ||| response.member("status"@) == Some(JsonView::Text("incomplete"@))
                ||| response.member("error"@) is Some && response.member("error"@)->0.present()
            }
        },
{
    if let Some(JsonView::Text(kind)) = payload.member("type"@) {
        crate::openai::names::every_name_announces_its_row(kind);
    }
}

/// Response metadata is output of another kind if its response lists output, and
/// neutral otherwise.
pub proof fn what_response_metadata_means(payload: JsonView)
    ensures
        payload.metadata_observation() == (if payload.member("response"@) is Some
            && payload.member("response"@)->0.has("output"@) {
            Observation::Output(OutputKind::Other)
        } else {
            Observation::Neutral
        }),
{
}

/// Two signals conflict exactly if both are there, neither is an envelope, and
/// they differ; the type is preferred unless it says nothing.
pub proof fn what_two_signals_amount_to(named: Option<Signal>, typed: Option<Signal>)
    ensures
        Signal::conflict(named, typed) <==> {
            &&& named is Some
            &&& typed is Some
            &&& named != Some(Signal::Envelope)
            &&& typed != Some(Signal::Envelope)
            &&& named != typed
        },
        typed is None || typed == Some(Signal::Envelope) ==> Signal::preferred(named, typed)
            == named,
        typed is Some && typed != Some(Signal::Envelope) ==> Signal::preferred(named, typed)
            == typed,
        Signal::of_name(None) is None,
        forall|name: Seq<char>| #[trigger]
            Signal::of_name(Some(name)) == Some(Signal::of(name)),
{
}

/// What a signal makes of a payload that is no failure and contradicts nothing.
pub open spec fn meaning_of_signal(
    signal: Signal,
    payload: JsonView,
    max_choices: nat,
    meaning: Observation,
) -> bool {
    &&& signal is Completed ==> meaning == Observation::Completed
    &&& signal is Output ==> meaning == Observation::Output(signal->Output_0)
    &&& signal is ChatChunk ==> meaning == payload.chat_observation(max_choices)
    &&& signal is Neutral ==> meaning == payload.metadata_observation()
    &&& signal is Unknown ==> meaning == Observation::Uncertain
}

/// What a payload means: only an object means anything; failure evidence comes
/// first; then a type that is no text and signals that conflict are uncertain;
/// then the type decides unless it is missing or an envelope; then the name does
/// unless it is missing or an envelope; then the choices do, and then the status
/// of the response.
pub proof fn what_a_payload_means(payload: JsonView, named: Option<Signal>, max_choices: nat)
    ensures
        ({
            let meaning = payload.observation(named, max_choices);
            let kind = payload.member("type"@);
            let silent = kind is None || kind == Some(JsonView::Text("message"@));
            let unnamed = named is None || named == Some(Signal::Envelope);
            &&& payload !is Object ==> meaning == Observation::Uncertain
            &&& payload is Object && payload.fails(named) ==> meaning == Observation::Failed(
                FailureKind::Unknown,
            )
            &&& payload is Object && !payload.fails(named) ==> {
                &&& kind is Some && kind->0 !is Text ==> meaning == Observation::Uncertain
                &&& kind is Some && kind->0 is Text && !silent ==> {
                    let typed = Signal::of(kind->0->Text_0);
                    &&& !unnamed && named != Some(typed) ==> meaning == Observation::Uncertain
                    &&& unnamed || named == Some(typed) ==> meaning_of_signal(
                        typed,
                        payload,
                        max_choices,
                        meaning,
                    )
                }
                &&& silent && !unnamed ==> meaning_of_signal(
                    named->0,
                    payload,
                    max_choices,
                    meaning,
                )
                &&& silent && unnamed && payload.member("choices"@) is Some ==> meaning
                    == payload.chat_observation(max_choices)
                &&& silent && unnamed && payload.member("choices"@) is None ==> meaning == (
                if payload.member("response"@) is Some && payload.member("response"@)->0.member(
                    "status"@,
                ) == Some(JsonView::Text("completed"@)) {
                    Observation::Completed
                } else {
                    Observation::Uncertain
                })
            }
        }),
{
    what_is_a_failure(payload, named);
    if let Some(JsonView::Text(kind)) = payload.member("type"@) {
        crate::openai::names::every_name_announces_its_row(kind);
    }
}

/// What an event means: over a limit it is uncertain; the sentinel and an event
/// without data go by the name; anything else must be JSON in which no key
/// repeats, and means what that payload does.
pub proof fn what_an_event_means(event: EventView, limits: LimitsView)
    ensures
        ({
            let meaning = event.observation(limits);
            let content = crate::openai::bytes::trimmed(event.data);
            let document = crate::openai::json::json_document(content);
            let sentinel = vstd::utf8::encode_utf8("[DONE]"@);
            let unnamed = event.name is None || event.name == Some("message"@);
            let failed = event.name == Some("error"@) || event.name == Some("response.failed"@)
                || event.name == Some("response.incomplete"@);
            let completed = event.name == Some("response.completed"@);
            let metadata = event.name == Some("response.created"@) || event.name == Some(
                "response.in_progress"@,
            ) || event.name == Some("response.queued"@);
            let oversized = event.data.len() > limits.max_data_bytes || event.name is Some
                && vstd::utf8::encode_utf8(event.name->0).len() > limits.max_event_name_bytes;
            &&& oversized ==> meaning == Observation::Uncertain
            &&& !oversized && content == sentinel ==> {
                &&& meaning == Observation::Completed <==> unnamed || completed
                &&& meaning == Observation::Failed(FailureKind::Unknown) <==> failed
                &&& meaning == Observation::Uncertain <==> !unnamed && !completed && !failed
            }
            &&& !oversized && content.len() == 0 ==> {
                &&& meaning == Observation::Neutral <==> unnamed || metadata
                &&& meaning == Observation::Completed <==> completed
                &&& meaning == Observation::Failed(FailureKind::Unknown) <==> failed
                &&& meaning == Observation::Uncertain <==> !unnamed && !metadata && !completed
                    && !failed
            }
            &&& !oversized && content != sentinel && content.len() > 0 ==> {
                &&& document is None ==> meaning == Observation::Uncertain
                &&& Scan::document(content) is Duplicate ==> meaning == Observation::Uncertain
                &&& document is Some && !(Scan::document(content) is Duplicate) ==> meaning
                    == document->0.observation(
                    match event.name {
                        Some(name) => Some(Signal::of(name)),
                        None => None,
                    },
                    limits.max_choices,
                )
            }
        }),
{
    if let Some(name) = event.name {
        crate::openai::names::every_name_announces_its_row(name);
    }
    lemma_sentinel_is_not_empty();
    crate::openai::names::lemma_names_differ();
}

proof fn lemma_sentinel_is_not_empty()
    ensures
        vstd::utf8::encode_utf8("[DONE]"@).len() > 0,
{
    reveal_strlit("[DONE]");
    vstd::utf8::is_ascii_chars_encode_utf8("[DONE]"@);
}

/// The sentinel and an event without data go by the signal of the name.
pub proof fn what_a_name_means_by_itself(named: Option<Signal>)
    ensures
        EventView::sentinel_observation(named) == Observation::Completed <==> named is None || named
            == Some(Signal::Envelope) || named == Some(Signal::Completed),
        EventView::sentinel_observation(named) == Observation::Failed(FailureKind::Unknown)
            <==> named == Some(Signal::Failed),
        EventView::sentinel_observation(named) == Observation::Uncertain <==> named is Some && !(
        named->0 is Envelope || named->0 is Completed || named->0 is Failed),
        EventView::empty_observation(named) == Observation::Neutral <==> named is None || named
            == Some(Signal::Envelope) || named == Some(Signal::Neutral),
        EventView::empty_observation(named) == Observation::Completed <==> named == Some(
            Signal::Completed,
        ),
        EventView::empty_observation(named) == Observation::Failed(FailureKind::Unknown)
            <==> named == Some(Signal::Failed),
        EventView::empty_observation(named) == Observation::Uncertain <==> named is Some && !(
        named->0 is Envelope || named->0 is Neutral || named->0 is Completed
            || named->0 is Failed),
{
}

/// Whether an event within its limits holds this object, in which no key repeats.
pub open spec fn holds_object(
    event: EventView,
    limits: LimitsView,
    members: Seq<(Seq<char>, JsonView)>,
) -> bool {
    let content = crate::openai::bytes::trimmed(event.data);
    &&& event.data.len() <= limits.max_data_bytes
    &&& event.name is None || vstd::utf8::encode_utf8(event.name->0).len()
        <= limits.max_event_name_bytes
    &&& content.len() > 0
    &&& content != vstd::utf8::encode_utf8("[DONE]"@)
    &&& crate::openai::json::json_document(content) == Some(JsonView::Object(members))
    &&& !(Scan::document(content) is Duplicate)
}

/// Whether the first member under `key` is `value`.
pub open spec fn first_member_is(
    members: Seq<(Seq<char>, JsonView)>,
    key: Seq<char>,
    value: JsonView,
) -> bool {
    exists|i: int|
        {
            &&& 0 <= i < members.len()
            &&& #[trigger] members[i] == (key, value)
            &&& forall|j: int| 0 <= j < i ==> (#[trigger] members[j]).0 != key
        }
}

proof fn lemma_first_member(
    members: Seq<(Seq<char>, JsonView)>,
    key: Seq<char>,
    value: JsonView,
)
    requires
        first_member_is(members, key, value),
    ensures
        JsonView::Object(members).member(key) == Some(value),
{
    members_are_found_by_their_key(JsonView::Object(members), key);
}

/// An error that carries anything is a failure, whatever it holds, under every
/// name and whatever else the payload says.
pub proof fn an_error_is_a_failure_whatever_it_holds(
    event: EventView,
    limits: LimitsView,
    members: Seq<(Seq<char>, JsonView)>,
    error: JsonView,
)
    requires
        holds_object(event, limits, members),
        first_member_is(members, "error"@, error),
        error != JsonView::Null,
        error != JsonView::Text(Seq::empty()),
        error != JsonView::Array(Seq::empty()),
        error != JsonView::Object(Seq::empty()),
    ensures
        event.observation(limits) == Observation::Failed(FailureKind::Unknown),
{
    let payload = JsonView::Object(members);
    lemma_first_member(members, "error"@, error);
    match error {
        JsonView::Text(text) => {
            assert(text.len() == 0 ==> text == Seq::<char>::empty());
        },
        JsonView::Array(items) => {
            assert(items.len() == 0 ==> items == Seq::<JsonView>::empty());
        },
        JsonView::Object(parts) => {
            assert(parts.len() == 0 ==> parts == Seq::<(Seq<char>, JsonView)>::empty());
        },
        _ => {},
    }
    what_an_event_means(event, limits);
    what_is_a_failure(payload, Signal::of_name(event.name));
    what_a_payload_means(payload, Signal::of_name(event.name), limits.max_choices);
}

/// A payload of a type that announces completion is a completion, whatever its
/// other members are, unless they say that the response failed or the event is
/// named otherwise.
pub proof fn a_completed_type_completes(
    event: EventView,
    limits: LimitsView,
    members: Seq<(Seq<char>, JsonView)>,
)
    requires
        holds_object(event, limits, members),
        first_member_is(members, "type"@, JsonView::Text("response.completed"@)),
        event.name is None || event.name == Some("message"@) || event.name == Some(
            "response.completed"@,
        ),
        !JsonView::Object(members).has("error"@),
        JsonView::Object(members).member("response"@) matches Some(response) ==> {
            &&& !response.has("error"@)
            &&& response.member("status"@) != Some(JsonView::Text("failed"@))
            &&& response.member("status"@) != Some(JsonView::Text("incomplete"@))
        },
    ensures
        event.observation(limits) == Observation::Completed,
{
    let payload = JsonView::Object(members);
    let named = Signal::of_name(event.name);
    lemma_first_member(members, "type"@, JsonView::Text("response.completed"@));
    crate::openai::names::lemma_names_differ();
    crate::openai::names::every_name_announces_its_row("response.completed"@);
    crate::openai::names::every_name_announces_its_row("message"@);
    what_an_event_means(event, limits);
    what_is_a_failure(payload, named);
    what_a_payload_means(payload, named, limits.max_choices);
}

/// A payload whose type announces output is output of that kind, whatever its
/// other members are, unless they say that the response failed or the event is
/// named otherwise.
pub proof fn an_output_type_is_output(
    event: EventView,
    limits: LimitsView,
    members: Seq<(Seq<char>, JsonView)>,
    kind: Seq<char>,
)
    requires
        holds_object(event, limits, members),
        first_member_is(members, "type"@, JsonView::Text(kind)),
        event.name is None || event.name == Some("message"@) || event.name == Some(kind),
        !JsonView::Object(members).has("error"@),
        JsonView::Object(members).member("response"@) matches Some(response) ==> {
            &&& !response.has("error"@)
            &&& response.member("status"@) != Some(JsonView::Text("failed"@))
            &&& response.member("status"@) != Some(JsonView::Text("incomplete"@))
        },
    ensures
        kind == "response.output_text.delta"@ || kind == "response.output_text.done"@
            ==> event.observation(limits) == Observation::Output(OutputKind::Text),
        kind == "response.refusal.delta"@ || kind == "response.refusal.done"@ ==> event.observation(
            limits,
        ) == Observation::Output(OutputKind::Refusal),
        kind == "response.function_call_arguments.delta"@ || kind
            == "response.function_call_arguments.done"@ || kind == "response.tool_call.delta"@
            || kind == "response.tool_call.done"@ ==> event.observation(limits)
            == Observation::Output(OutputKind::ToolCall),
        kind == "response.image_generation_call.partial_image"@ ==> event.observation(limits)
            == Observation::Output(OutputKind::Image),
        Signal::of(kind) is Output ==> event.observation(limits) == Observation::Output(
            Signal::of(kind)->Output_0,
        ),
{
    let payload = JsonView::Object(members);
    let named = Signal::of_name(event.name);
    lemma_first_member(members, "type"@, JsonView::Text(kind));
    crate::openai::names::every_name_announces_its_row(kind);
    crate::openai::names::every_name_announces_its_row("message"@);
    what_an_event_means(event, limits);
    what_is_a_failure(payload, named);
    what_a_payload_means(payload, named, limits.max_choices);
}

/// Text in the delta of a choice is output, whatever else the delta holds, if
/// the delta has no call, the choice no text and no message, and no choice before
/// it carries output.
pub proof fn content_in_a_delta_is_text(
    event: EventView,
    limits: LimitsView,
    members: Seq<(Seq<char>, JsonView)>,
    choices: Seq<JsonView>,
    i: int,
    delta: JsonView,
)
    requires
        holds_object(event, limits, members),
        first_member_is(members, "choices"@, JsonView::Array(choices)),
        event.name is None || event.name == Some("message"@),
        JsonView::Object(members).member("type"@) is None,
        !JsonView::Object(members).has("error"@),
        JsonView::Object(members).member("response"@) is None,
        choices.len() <= limits.max_choices,
        0 <= i < choices.len(),
        forall|j: int| 0 <= j < i ==> (#[trigger] choices[j]).choice_output() is None,
        choices[i].member("text"@) is None,
        choices[i].member("message"@) is None,
        choices[i].member("delta"@) == Some(delta),
        delta.member("tool_calls"@) is None,
        delta.member("function_call"@) is None,
        delta.has("content"@),
    ensures
        event.observation(limits) == Observation::Output(OutputKind::Text),
{
    let payload = JsonView::Object(members);
    let named = Signal::of_name(event.name);
    lemma_first_member(members, "choices"@, JsonView::Array(choices));
    crate::openai::names::every_name_announces_its_row("message"@);
    what_a_delta_carries(delta);
    what_a_choice_carries(choices[i]);
    what_a_chunk_means(payload, limits.max_choices);
    what_an_event_means(event, limits);
    what_is_a_failure(payload, named);
    what_a_payload_means(payload, named, limits.max_choices);
}

} // verus!
