//! What an event name or a payload type announces.
use crate::observation::OutputKind;
use crate::openai::bytes::text_equal;
use vstd::prelude::*;

verus! {

/// What an event name or a payload type announces.
#[derive(Clone, Copy, Debug, Eq, PartialEq, Structural)]
pub enum Signal {
    /// The default SSE message type: the payload decides.
    Envelope,
    /// Response metadata.
    Neutral,
    /// A Chat Completions chunk: its choices decide.
    ChatChunk,
    /// Output of this kind.
    Output(OutputKind),
    /// Clean completion.
    Completed,
    /// A failure.
    Failed,
    /// A type that is not known.
    Unknown,
}

impl Signal {
    /// What the type `name` announces.
    pub open spec fn of(name: Seq<char>) -> Signal {
        if name == "message"@ {
            Signal::Envelope
        } else if name == "chat.completion.chunk"@ {
            Signal::ChatChunk
        } else if name == "response.created"@
            || name == "response.in_progress"@
            || name == "response.queued"@ {
            Signal::Neutral
        } else if name == "response.output_text.delta"@
            || name == "response.output_text.done"@ {
            Signal::Output(OutputKind::Text)
        } else if name == "response.refusal.delta"@
            || name == "response.refusal.done"@ {
            Signal::Output(OutputKind::Refusal)
        } else if name == "response.reasoning.delta"@
            || name == "response.reasoning.done"@
            || name == "response.reasoning_text.delta"@
            || name == "response.reasoning_text.done"@
            || name == "response.reasoning_summary.delta"@
            || name == "response.reasoning_summary.done"@
            || name == "response.reasoning_summary_text.delta"@
            || name == "response.reasoning_summary_text.done"@ {
            Signal::Output(OutputKind::Reasoning)
        } else if name == "response.audio.delta"@
            || name == "response.audio.done"@
            || name == "response.audio_transcript.delta"@
            || name == "response.audio_transcript.done"@
            || name == "response.output_audio.delta"@
            || name == "response.output_audio.done"@
            || name == "response.output_audio_transcript.delta"@
            || name == "response.output_audio_transcript.done"@ {
            Signal::Output(OutputKind::Audio)
        } else if name == "response.function_call_arguments.delta"@
            || name == "response.function_call_arguments.done"@
            || name == "response.tool_call.delta"@
            || name == "response.tool_call.done"@ {
            Signal::Output(OutputKind::ToolCall)
        } else if name == "response.image_generation_call.partial_image"@ {
            Signal::Output(OutputKind::Image)
        } else if name == "response.completed"@ {
            Signal::Completed
        } else if name == "error"@
            || name == "response.failed"@
            || name == "response.incomplete"@ {
            Signal::Failed
        } else {
            Signal::Unknown
        }
    }

    /// What an optional name announces.
    pub open spec fn of_name(name: Option<Seq<char>>) -> Option<Signal> {
        match name {
            Some(name) => Some(Signal::of(name)),
            None => None,
        }
    }

    /// Whether a signal says anything about the event by itself.
    pub open spec fn decides(signal: Option<Signal>) -> bool {
        signal is Some && signal->0 !is Envelope
    }

    /// Whether the event name and the payload type contradict each other: both
    /// say something, and not the same.
    pub open spec fn conflict(named: Option<Signal>, typed: Option<Signal>) -> bool {
        Signal::decides(named) && Signal::decides(typed) && named != typed
    }

    /// What is announced: by the payload type if it says anything, else by the
    /// event name.
    pub open spec fn preferred(named: Option<Signal>, typed: Option<Signal>) -> Option<Signal> {
        if Signal::decides(typed) {
            typed
        } else {
            named
        }
    }
}

/// Returns what the type `value` announces.
pub fn signal_for_type(value: &str) -> (signal: Signal)
    ensures
        signal == Signal::of(value@),
{
    if text_equal(value, "message") {
        Signal::Envelope
    } else if text_equal(value, "chat.completion.chunk") {
        Signal::ChatChunk
    } else if text_equal(value, "response.created")
        || text_equal(value, "response.in_progress")
        || text_equal(value, "response.queued") {
        Signal::Neutral
    } else if text_equal(value, "response.output_text.delta")
        || text_equal(value, "response.output_text.done") {
        Signal::Output(OutputKind::Text)
    } else if text_equal(value, "response.refusal.delta")
        || text_equal(value, "response.refusal.done") {
        Signal::Output(OutputKind::Refusal)
    } else if text_equal(value, "response.reasoning.delta")
        || text_equal(value, "response.reasoning.done")
        || text_equal(value, "response.reasoning_text.delta")
        || text_equal(value, "response.reasoning_text.done")
        || text_equal(value, "response.reasoning_summary.delta")
        || text_equal(value, "response.reasoning_summary.done")
        || text_equal(value, "response.reasoning_summary_text.delta")
        || text_equal(value, "response.reasoning_summary_text.done") {
        Signal::Output(OutputKind::Reasoning)
    } else if text_equal(value, "response.audio.delta")
        || text_equal(value, "response.audio.done")
        || text_equal(value, "response.audio_transcript.delta")
        || text_equal(value, "response.audio_transcript.done")
        || text_equal(value, "response.output_audio.delta")
        || text_equal(value, "response.output_audio.done")
        || text_equal(value, "response.output_audio_transcript.delta")
        || text_equal(value, "response.output_audio_transcript.done") {
        Signal::Output(OutputKind::Audio)
    } else if text_equal(value, "response.function_call_arguments.delta")
        || text_equal(value, "response.function_call_arguments.done")
        || text_equal(value, "response.tool_call.delta")
        || text_equal(value, "response.tool_call.done") {
        Signal::Output(OutputKind::ToolCall)
    } else if text_equal(value, "response.image_generation_call.partial_image") {
        Signal::Output(OutputKind::Image)
    } else if text_equal(value, "response.completed") {
        Signal::Completed
    } else if text_equal(value, "error")
        || text_equal(value, "response.failed")
        || text_equal(value, "response.incomplete") {
        Signal::Failed
    } else {
        Signal::Unknown
    }
}

/// Whether the event name and the payload type contradict each other.
pub fn signals_conflict(named: Option<Signal>, typed: Option<Signal>) -> (conflict: bool)
    ensures
        conflict == Signal::conflict(named, typed),
{
    match (named, typed) {
        (None | Some(Signal::Envelope), _) | (_, None | Some(Signal::Envelope)) => false,
        (Some(left), Some(right)) => left != right,
    }
}

/// Prefers what the payload type announces to what the event name does.
pub fn prefer_typed_signal(named: Option<Signal>, typed: Option<Signal>) -> (signal: Option<
    Signal,
>)
    ensures
        signal == Signal::preferred(named, typed),
{
    match typed {
        Some(Signal::Envelope) | None => named,
        Some(signal) => Some(signal),
    }
}

} // verus!
