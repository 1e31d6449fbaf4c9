use llm_stream_guard::openai::bytes::{bytes_equal, is_ascii_space, text_equal, trim_ascii};
use llm_stream_guard::openai::classifier::{classify_empty, classify_sentinel};
use llm_stream_guard::openai::json::{parse_json, parse_json_string, Json, Member};
use llm_stream_guard::openai::limits::bounded;
use llm_stream_guard::openai::payload::{
    classify_chat_choice, classify_chat_choices, classify_delta, classify_payload,
    classify_response_metadata, is_failure_payload,
};
use llm_stream_guard::openai::scan::has_duplicate_object_key;
use llm_stream_guard::openai::signal::{
    prefer_typed_signal, signal_for_type, signals_conflict, Signal,
};
use llm_stream_guard::openai::{
    classify_openai_event, ClassifierLimits, OpenAiClassifier, SseEventRef,
};
use llm_stream_guard::{
    Classify, FailureKind, GuardedStream, Observation, OutputKind, Polled, ReplayContract,
    ReplayVerdict,
};

const FAILED: Observation = Observation::Failed(FailureKind::Unknown);

fn read(data: &[u8]) -> Observation {
    classify_openai_event(SseEventRef::new(data), ClassifierLimits::default())
}

fn parsed(text: &str) -> Json {
    parse_json(text.as_bytes()).expect("the text is JSON")
}

fn text(value: &str) -> Json {
    Json::Text(value.to_string())
}

fn object(members: Vec<(&str, Json)>) -> Json {
    Json::Object(
        members
            .into_iter()
            .map(|(key, value)| Member {
                key: key.to_string(),
                value,
            })
            .collect(),
    )
}

#[test]
fn white_space_is_ascii_white_space() {
    for byte in 0..=u8::MAX {
        assert_eq!(is_ascii_space(byte), byte.is_ascii_whitespace());
    }
    assert_eq!(trim_ascii(b" \t\r\n\x0c a b \x0c\n"), b"a b");
    assert_eq!(trim_ascii(b"\x0b a"), b"\x0b a");
    assert_eq!(trim_ascii(b" \n "), b"");
    assert_eq!(trim_ascii(b""), b"");
}

#[test]
fn byte_strings_and_texts_are_compared_as_wholes() {
    assert!(bytes_equal(b"abc", b"abc"));
    assert!(!bytes_equal(b"abc", b"abd"));
    assert!(!bytes_equal(b"ab", b"abc"));
    assert!(bytes_equal(b"", b""));
    assert!(text_equal("né", "né"));
    assert!(!text_equal("né", "ne"));
}

#[test]
fn limits_are_clamped_one_by_one() {
    assert_eq!(bounded(0, 10), 1);
    assert_eq!(bounded(1, 10), 1);
    assert_eq!(bounded(10, 10), 10);
    assert_eq!(bounded(11, 10), 10);

    let limits = ClassifierLimits::new(7)
        .with_max_event_name_bytes(8)
        .with_max_choices(9);
    assert_eq!(limits.max_data_bytes(), 7);
    assert_eq!(limits.max_event_name_bytes(), 8);
    assert_eq!(limits.max_choices(), 9);

    let standard = ClassifierLimits::default();
    assert_eq!(standard.max_data_bytes(), 65536);
    assert_eq!(standard.max_event_name_bytes(), 256);
    assert_eq!(standard.max_choices(), 128);
    assert_eq!(OpenAiClassifier::default().limits(), standard);
}

#[test]
fn parsing_builds_the_value_that_the_text_denotes() {
    match parsed(r#" {"a":[null,true,1.5,"x"],"b":{}} "#) {
        Json::Object(members) => {
            assert_eq!(members.len(), 2);
            assert_eq!(members[0].key, "a");
            match &members[0].value {
                Json::Array(items) => {
                    assert_eq!(items.len(), 4);
                    assert!(matches!(items[0], Json::Null));
                    assert!(matches!(items[1], Json::Bool(true)));
                    assert!(matches!(items[2], Json::Number));
                    assert!(matches!(&items[3], Json::Text(x) if x == "x"));
                }
                other => panic!("not an array: {other:?}"),
            }
            assert_eq!(members[1].key, "b");
            assert!(matches!(&members[1].value, Json::Object(inner) if inner.is_empty()));
        }
        other => panic!("not an object: {other:?}"),
    }
    assert!(parse_json(b"{not-json}").is_none());
    assert!(parse_json(b"").is_none());
    assert!(parse_json(b"1 2").is_none());
    assert!(parse_json(b"\xff").is_none());
}

#[test]
fn string_parsing_resolves_escapes_and_refuses_anything_else() {
    assert_eq!(parse_json_string(br#""plain""#).as_deref(), Some("plain"));
    assert_eq!(parse_json_string(br#""x\n""#).as_deref(), Some("x\n"));
    assert_eq!(parse_json_string(br#""""#).as_deref(), Some(""));
    assert_eq!(parse_json_string(b"plain"), None);
    assert_eq!(parse_json_string(br#""\q""#), None);
    assert_eq!(parse_json_string(b"1"), None);
}

#[test]
fn members_are_found_by_key_and_empty_values_carry_nothing() {
    let value = object(vec![
        ("a", Json::Number),
        ("a", Json::Null),
        ("empty", text("")),
    ]);
    assert!(matches!(value.member("a"), Some(Json::Number)));
    assert!(matches!(value.member("empty"), Some(Json::Text(_))));
    assert!(value.member("b").is_none());
    assert!(Json::Array(vec![Json::Null]).member("a").is_none());

    assert!(!Json::Null.present());
    assert!(Json::Bool(false).present());
    assert!(Json::Number.present());
    assert!(!text("").present());
    assert!(text("x").present());
    assert!(!Json::Array(vec![]).present());
    assert!(Json::Array(vec![Json::Null]).present());
    assert!(!object(vec![]).present());
    assert!(value.present());
}

#[test]
fn repeated_keys_are_found_wherever_they_lie() {
    for data in [
        r#"{"x":1,"x":2}"#,
        "{\"x\":1,\"\\u0078\":2}",
        r#" { "x" : 1 , "y" : [ { "z" : 1 , "z" : 1 } ] } "#,
        r#"[[],{"a":{"b":0,"c":0,"b":0}}]"#,
        r#"{"":0,"":0}"#,
        // The scan stops at the repeated key; what follows is not read.
        r#"{"x":1,"x" oops"#,
    ] {
        assert!(has_duplicate_object_key(data.as_bytes()), "{data}");
    }
    for data in [
        r#"{}"#,
        r#"[]"#,
        r#"{"x":1,"X":2}"#,
        r#"{"x":{"x":{"x":0}}}"#,
        r#"[{"x":1},{"x":1}]"#,
        r#"{"x":"\"x\":1,\"x\":2"}"#,
        r#""x""#,
        "17",
        "",
        r#"{"x":1,"y"#,
        r#"{"x" 1,"x":2}"#,
        r#"{"\q":1,"\q":2}"#,
        r#"[1 2]"#,
    ] {
        assert!(!has_duplicate_object_key(data.as_bytes()), "{data}");
    }
}

#[test]
fn nesting_is_followed_to_the_depth_limit() {
    let nested = |levels: usize| {
        format!(
            "{}{}{}",
            "[".repeat(levels),
            r#"{"x":0,"x":0}"#,
            "]".repeat(levels)
        )
    };
    assert!(has_duplicate_object_key(nested(127).as_bytes()));
    // The value of the first key lies too deep: the scan ends there. Such a
    // text is not accepted as JSON either.
    assert!(!has_duplicate_object_key(nested(128).as_bytes()));
    assert!(parse_json("[]".as_bytes()).is_some());
    assert!(parse_json(nested(128).as_bytes()).is_none());
    for levels in [0, 5, 120, 128, 1000] {
        let data = format!(r#"{{"type":"response.created","a":{}}}"#, nested(levels));
        assert_eq!(read(data.as_bytes()), Observation::Uncertain);
    }
}

#[test]
fn types_announce_signals() {
    for (name, signal) in [
        ("message", Signal::Envelope),
        ("chat.completion.chunk", Signal::ChatChunk),
        ("response.created", Signal::Neutral),
        ("response.output_text.done", Signal::Output(OutputKind::Text)),
        ("response.refusal.delta", Signal::Output(OutputKind::Refusal)),
        (
            "response.reasoning_summary_text.done",
            Signal::Output(OutputKind::Reasoning),
        ),
        (
            "response.output_audio_transcript.delta",
            Signal::Output(OutputKind::Audio),
        ),
        ("response.tool_call.delta", Signal::Output(OutputKind::ToolCall)),
        (
            "response.image_generation_call.partial_image",
            Signal::Output(OutputKind::Image),
        ),
        ("response.completed", Signal::Completed),
        ("response.incomplete", Signal::Failed),
        ("error", Signal::Failed),
        ("Error", Signal::Unknown),
        ("", Signal::Unknown),
    ] {
        assert_eq!(signal_for_type(name), signal, "{name}");
    }
}

#[test]
fn signals_conflict_symmetrically_and_the_payload_type_is_preferred() {
    let signals = [
        None,
        Some(Signal::Envelope),
        Some(Signal::Neutral),
        Some(Signal::Output(OutputKind::Text)),
        Some(Signal::Output(OutputKind::Audio)),
        Some(Signal::Unknown),
    ];
    for left in signals {
        assert!(!signals_conflict(left, left));
        for right in signals {
            assert_eq!(signals_conflict(left, right), signals_conflict(right, left));
            let silent = |signal| matches!(signal, None | Some(Signal::Envelope));
            assert_eq!(
                signals_conflict(left, right),
                !silent(left) && !silent(right) && left != right
            );
            let preferred = if silent(right) { left } else { right };
            assert_eq!(prefer_typed_signal(left, right), preferred);
        }
    }
}

#[test]
fn the_name_decides_what_an_event_without_payload_means() {
    for (named, sentinel, empty) in [
        (None, Observation::Completed, Observation::Neutral),
        (
            Some(Signal::Envelope),
            Observation::Completed,
            Observation::Neutral,
        ),
        (
            Some(Signal::Completed),
            Observation::Completed,
            Observation::Completed,
        ),
        (Some(Signal::Failed), FAILED, FAILED),
        (
            Some(Signal::Neutral),
            Observation::Uncertain,
            Observation::Neutral,
        ),
        (
            Some(Signal::ChatChunk),
            Observation::Uncertain,
            Observation::Uncertain,
        ),
        (
            Some(Signal::Output(OutputKind::Text)),
            Observation::Uncertain,
            Observation::Uncertain,
        ),
        (
            Some(Signal::Unknown),
            Observation::Uncertain,
            Observation::Uncertain,
        ),
    ] {
        assert_eq!(classify_sentinel(named), sentinel, "{named:?}");
        assert_eq!(classify_empty(named), empty, "{named:?}");
    }
}

#[test]
fn failure_evidence_wins_wherever_it_stands() {
    let completed = parsed(r#"{"type":"response.completed"}"#);
    assert!(!is_failure_payload(&completed, None));
    assert!(is_failure_payload(&completed, Some(Signal::Failed)));
    for data in [
        r#"{"error":{"message":"x"}}"#,
        r#"{"error":false,"type":"response.completed"}"#,
        r#"{"type":"error","choices":[{"delta":{"content":"x"}}]}"#,
        r#"{"response":{"status":"failed"}}"#,
        r#"{"response":{"status":"incomplete"},"type":"response.completed"}"#,
        r#"{"response":{"error":{"code":1}}}"#,
    ] {
        assert!(is_failure_payload(&parsed(data), None), "{data}");
        assert_eq!(
            classify_payload(&parsed(data), Some(Signal::Completed), 128),
            FAILED,
            "{data}"
        );
        assert_eq!(read(data.as_bytes()), FAILED, "{data}");
    }
    for data in [
        r#"{"error":null}"#,
        r#"{"error":{}}"#,
        r#"{"response":{"error":null,"status":"completed"}}"#,
        r#"{"response":"failed"}"#,
    ] {
        assert!(!is_failure_payload(&parsed(data), None), "{data}");
    }
}

#[test]
fn payloads_can_be_classified_without_a_text() {
    let delta = object(vec![("content", text("x")), ("tool_calls", text("{\"city\":"))]);
    assert_eq!(classify_delta(&delta), Some(OutputKind::ToolCall));
    assert_eq!(
        classify_delta(&object(vec![("refusal", text("no")), ("audio", Json::Number)])),
        Some(OutputKind::Refusal)
    );
    assert_eq!(
        classify_delta(&object(vec![("reasoning_content", text("r"))])),
        Some(OutputKind::Reasoning)
    );
    assert_eq!(classify_delta(&object(vec![("content", text(""))])), None);
    assert_eq!(classify_delta(&text("content")), None);

    let payload = object(vec![(
        "choices",
        Json::Array(vec![Json::Number, object(vec![("delta", delta)])]),
    )]);
    assert_eq!(
        classify_payload(&payload, None, 2),
        Observation::Output(OutputKind::ToolCall)
    );
    assert_eq!(
        classify_chat_choices(&payload, 2),
        Observation::Output(OutputKind::ToolCall)
    );
    assert_eq!(classify_chat_choices(&payload, 1), Observation::Uncertain);
    assert_eq!(classify_payload(&Json::Null, None, 2), Observation::Uncertain);

    let created = object(vec![(
        "response",
        object(vec![("output", Json::Array(vec![Json::Null]))]),
    )]);
    assert_eq!(
        classify_response_metadata(&created),
        Observation::Output(OutputKind::Other)
    );
    assert_eq!(
        classify_payload(&created, Some(Signal::Neutral), 2),
        Observation::Output(OutputKind::Other)
    );
    assert_eq!(
        classify_response_metadata(&object(vec![])),
        Observation::Neutral
    );
}

#[test]
fn doubt_is_raised_by_what_is_not_understood() {
    for (data, output, doubtful) in [
        (r#"{"text":"x","vendor":1}"#, Some(OutputKind::Text), false),
        (r#"{"message":{"content":"x"}}"#, Some(OutputKind::Text), false),
        (r#"{"message":{}}"#, None, true),
        (r#"{"message":null}"#, None, false),
        (r#"{"message":{"x":1},"delta":{"audio":"x"}}"#, Some(OutputKind::Audio), true),
        (r#"{"delta":{"role":"assistant"}}"#, None, false),
        (r#"{"delta":{"vendor":"x"}}"#, None, true),
        (r#"{"delta":{"vendor":""}}"#, None, false),
        (r#"{"delta":{},"vendor":"x"}"#, None, true),
        (r#"{"delta":7}"#, None, true),
        (r#"{"vendor":"x"}"#, None, true),
        (r#"{"index":0,"finish_reason":"stop","logprobs":{"a":1}}"#, None, false),
        (r#"{"index":0,"delta":null}"#, None, false),
        (r#"{"delta":null,"vendor":"x"}"#, None, true),
        (r#"{"delta":null,"vendor_output":"visible"}"#, None, true),
        (r#"{"delta":null,"message":[]}"#, None, true),
        ("7", None, true),
    ] {
        let choice = parsed(data);
        let mut uncertain = false;
        assert_eq!(classify_chat_choice(&choice, &mut uncertain), output, "{data}");
        assert_eq!(uncertain, doubtful, "{data}");
        let mut already = true;
        assert_eq!(classify_chat_choice(&choice, &mut already), output, "{data}");
        assert!(already, "{data}");
    }
}

#[test]
fn a_doubtful_choice_does_not_hide_output_in_a_later_one() {
    assert_eq!(
        read(br#"{"choices":[{"vendor":"x"},{"delta":{"refusal":"no"}},{"text":"x"}]}"#),
        Observation::Output(OutputKind::Refusal)
    );
    assert_eq!(
        read(br#"{"choices":[{"delta":null,"vendor_output":"visible"}]}"#),
        Observation::Uncertain
    );
    assert_eq!(
        read(br#"{"choices":[{"index":0,"delta":null}]}"#),
        Observation::Neutral
    );
}

#[test]
fn a_partial_tool_call_is_output_before_it_is_json() {
    for data in [
        r#"{"choices":[{"delta":{"tool_calls":[{"function":{"arguments":"{\"city\":"}}]}}]}"#,
        r#"{"choices":[{"delta":{"function_call":{"arguments":"{"}}}]}"#,
        r#"{"type":"response.function_call_arguments.delta","delta":"{\"city\":"}"#,
    ] {
        assert_eq!(
            read(data.as_bytes()),
            Observation::Output(OutputKind::ToolCall),
            "{data}"
        );
    }
}

#[test]
fn white_space_around_the_data_makes_no_difference() {
    for data in [
        "[DONE]",
        "",
        "{oops",
        r#"{"type":"response.output_text.delta"}"#,
        r#"{"x":1,"x":2}"#,
    ] {
        let padded = format!(" \n\t{data}\x0c\r\n");
        assert_eq!(read(padded.as_bytes()), read(data.as_bytes()), "{data}");
    }
    assert_eq!(read(b"[DONE ]"), Observation::Uncertain);
}

#[test]
fn the_limits_are_inclusive() {
    let limits = ClassifierLimits::new(6).with_max_event_name_bytes(7);
    let named = |name, data| classify_openai_event(SseEventRef::named(name, data), limits);
    assert_eq!(named("message", b"[DONE]"), Observation::Completed);
    assert_eq!(named("message", b"[DONE] "), Observation::Uncertain);
    assert_eq!(named("messages", b"[DONE]"), Observation::Uncertain);
    assert_eq!(named("messag\u{e9}", b"[DONE]"), Observation::Uncertain);
}

#[test]
fn completion_is_explicit_only() {
    assert_eq!(read(br#"{"response":{"status":"completed"}}"#), Observation::Completed);
    assert_eq!(read(br#"{"type":"response.completed"}"#), Observation::Completed);
    assert_eq!(read(b"[DONE]"), Observation::Completed);
    assert_eq!(read(br#"{"status":"completed"}"#), Observation::Uncertain);
    assert_eq!(
        read(br#"{"choices":[{"delta":{},"finish_reason":"stop"}]}"#),
        Observation::Neutral
    );
}

#[test]
fn classified_events_alone_never_authorize_replay() {
    let events: [&[u8]; 8] = [
        b"",
        b"[DONE]",
        br#"{"error":"x"}"#,
        br#"{"type":"response.created"}"#,
        br#"{"type":"response.failed","response":{"error":{"type":"server_error"}}}"#,
        br#"{"choices":[{"delta":{"content":"x"}}]}"#,
        br#"{"x":1,"x":2}"#,
        br#"{"type":"future"}"#,
    ];
    for first in events {
        for second in events {
            let mut guard = GuardedStream::new(
                vec![second, first],
                |item: &&[u8]| OpenAiClassifier::default().classify(&SseEventRef::new(item)),
                ReplayContract::KnownSafe,
            );
            let probe = guard.probe();
            loop {
                assert_eq!(probe.snapshot().verdict(), ReplayVerdict::Deny);
                let delivered =
                    guard.poll_next(|items: &mut Vec<&[u8]>| Polled::Ready(items.pop()));
                if delivered == Polled::Ready(None) {
                    break;
                }
            }
            assert_eq!(probe.snapshot().verdict(), ReplayVerdict::Deny);
        }
    }
}
