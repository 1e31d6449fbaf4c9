//! The names of events and payload types, each with what it announces.
use crate::observation::OutputKind;
use crate::openai::signal::Signal;
use vstd::prelude::*;

verus! {

/// No name stands for two things: the names of any two rows differ.
pub(crate) proof fn lemma_names_differ()
    ensures
        "chat.completion.chunk"@ != "response.refusal.done"@,
        "response.in_progress"@ != "response.audio.delta"@,
        "response.queued"@ != "response.failed"@,
        "response.output_text.delta"@ != "response.output_audio.done"@,
        "response.reasoning.delta"@ != "response.tool_call.delta"@,
        "response.reasoning.done"@ != "response.tool_call.done"@,
        "response.reasoning_summary.done"@ != "response.audio_transcript.delta"@,
        "response.reasoning_summary_text.delta"@ != "response.output_audio_transcript.done"@,
        "response.reasoning_summary_text.delta"@ != "response.function_call_arguments.done"@,
        "response.audio.done"@ != "response.incomplete"@,
        "response.output_audio_transcript.delta"@ != "response.function_call_arguments.delta"@,
        "response.output_audio_transcript.done"@ != "response.function_call_arguments.done"@,
        "message"@.len() == 7,
        "chat.completion.chunk"@.len() == 21,
        "response.created"@.len() == 16,
        "response.in_progress"@.len() == 20,
        "response.queued"@.len() == 15,
        "response.output_text.delta"@.len() == 26,
        "response.output_text.done"@.len() == 25,
        "response.refusal.delta"@.len() == 22,
        "response.refusal.done"@.len() == 21,
        "response.reasoning.delta"@.len() == 24,
        "response.reasoning.done"@.len() == 23,
        "response.reasoning_text.delta"@.len() == 29,
        "response.reasoning_text.done"@.len() == 28,
        "response.reasoning_summary.delta"@.len() == 32,
        "response.reasoning_summary.done"@.len() == 31,
        "response.reasoning_summary_text.delta"@.len() == 37,
        "response.reasoning_summary_text.done"@.len() == 36,
        "response.audio.delta"@.len() == 20,
        "response.audio.done"@.len() == 19,
        "response.audio_transcript.delta"@.len() == 31,
        "response.audio_transcript.done"@.len() == 30,
        "response.output_audio.delta"@.len() == 27,
        "response.output_audio.done"@.len() == 26,
        "response.output_audio_transcript.delta"@.len() == 38,
        "response.output_audio_transcript.done"@.len() == 37,
        "response.function_call_arguments.delta"@.len() == 38,
        "response.function_call_arguments.done"@.len() == 37,
        "response.tool_call.delta"@.len() == 24,
        "response.tool_call.done"@.len() == 23,
        "response.image_generation_call.partial_image"@.len() == 44,
        "response.completed"@.len() == 18,
        "error"@.len() == 5,
        "response.failed"@.len() == 15,
        "response.incomplete"@.len() == 19,
{
    reveal_strlit("message");
    reveal_strlit("chat.completion.chunk");
    reveal_strlit("response.created");
    reveal_strlit("response.in_progress");
    reveal_strlit("response.queued");
    reveal_strlit("response.output_text.delta");
    reveal_strlit("response.output_text.done");
    reveal_strlit("response.refusal.delta");
    reveal_strlit("response.refusal.done");
    reveal_strlit("response.reasoning.delta");
    reveal_strlit("response.reasoning.done");
    reveal_strlit("response.reasoning_text.delta");
    reveal_strlit("response.reasoning_text.done");
    reveal_strlit("response.reasoning_summary.delta");
    reveal_strlit("response.reasoning_summary.done");
    reveal_strlit("response.reasoning_summary_text.delta");
    reveal_strlit("response.reasoning_summary_text.done");
    reveal_strlit("response.audio.delta");
    reveal_strlit("response.audio.done");
    reveal_strlit("response.audio_transcript.delta");
    reveal_strlit("response.audio_transcript.done");
    reveal_strlit("response.output_audio.delta");
    reveal_strlit("response.output_audio.done");
    reveal_strlit("response.output_audio_transcript.delta");
    reveal_strlit("response.output_audio_transcript.done");
    reveal_strlit("response.function_call_arguments.delta");
    reveal_strlit("response.function_call_arguments.done");
    reveal_strlit("response.tool_call.delta");
    reveal_strlit("response.tool_call.done");
    reveal_strlit("response.image_generation_call.partial_image");
    reveal_strlit("response.completed");
    reveal_strlit("error");
    reveal_strlit("response.failed");
    reveal_strlit("response.incomplete");
    assert("chat.completion.chunk"@[0] != "response.refusal.done"@[0]);
    assert("response.in_progress"@[9] != "response.audio.delta"@[9]);
    assert("response.queued"@[9] != "response.failed"@[9]);
    assert("response.output_text.delta"@[16] != "response.output_audio.done"@[16]);
    assert("response.reasoning.delta"@[9] != "response.tool_call.delta"@[9]);
    assert("response.reasoning.done"@[9] != "response.tool_call.done"@[9]);
    assert("response.reasoning_summary.done"@[9] != "response.audio_transcript.delta"@[9]);
    assert("response.reasoning_summary_text.delta"@[9] != "response.output_audio_transcript.done"@[9]);
    assert("response.reasoning_summary_text.delta"@[9] != "response.function_call_arguments.done"@[9]);
    assert("response.audio.done"@[9] != "response.incomplete"@[9]);
    assert("response.output_audio_transcript.delta"@[9] != "response.function_call_arguments.delta"@[9]);
    assert("response.output_audio_transcript.done"@[9] != "response.function_call_arguments.done"@[9]);
}

/// Every name announces what its row says, and only the names of a row announce
/// what that row says. A name of no row is not known.
pub proof fn every_name_announces_its_row(name: Seq<char>)
    ensures
        Signal::of(name) == Signal::Envelope <==> name == "message"@,
        Signal::of(name) == Signal::ChatChunk <==> name == "chat.completion.chunk"@,
        Signal::of(name) == Signal::Neutral <==> {
            ||| name == "response.created"@
            ||| name == "response.in_progress"@
            ||| name == "response.queued"@
        },
        Signal::of(name) == Signal::Output(OutputKind::Text) <==> {
            ||| name == "response.output_text.delta"@
            ||| name == "response.output_text.done"@
        },
        Signal::of(name) == Signal::Output(OutputKind::Refusal) <==> {
            ||| name == "response.refusal.delta"@
            ||| name == "response.refusal.done"@
        },
        Signal::of(name) == Signal::Output(OutputKind::Reasoning) <==> {
            ||| name == "response.reasoning.delta"@
            ||| name == "response.reasoning.done"@
            ||| name == "response.reasoning_text.delta"@
            ||| name == "response.reasoning_text.done"@
            ||| name == "response.reasoning_summary.delta"@
            ||| name == "response.reasoning_summary.done"@
            ||| name == "response.reasoning_summary_text.delta"@
            ||| name == "response.reasoning_summary_text.done"@
        },
        Signal::of(name) == Signal::Output(OutputKind::Audio) <==> {
            ||| name == "response.audio.delta"@
            ||| name == "response.audio.done"@
            ||| name == "response.audio_transcript.delta"@
            ||| name == "response.audio_transcript.done"@
            ||| name == "response.output_audio.delta"@
            ||| name == "response.output_audio.done"@
            ||| name == "response.output_audio_transcript.delta"@
            ||| name == "response.output_audio_transcript.done"@
        },
        Signal::of(name) == Signal::Output(OutputKind::ToolCall) <==> {
            ||| name == "response.function_call_arguments.delta"@
            ||| name == "response.function_call_arguments.done"@
            ||| name == "response.tool_call.delta"@
            ||| name == "response.tool_call.done"@
        },
        Signal::of(name) == Signal::Output(OutputKind::Image) <==> name == "response.image_generation_call.partial_image"@,
        Signal::of(name) == Signal::Completed <==> name == "response.completed"@,
        Signal::of(name) == Signal::Failed <==> {
            ||| name == "error"@
            ||| name == "response.failed"@
            ||| name == "response.incomplete"@
        },
        Signal::of(name) != Signal::Output(OutputKind::Other),
{
    lemma_names_differ();
}

} // verus!
