//! The vocabulary of replay evidence: what one item means, and what the
//! evidence collected so far amounts to.
use vstd::prelude::*;

verus! {

/// A semantic kind of model output that makes whole-request replay unsafe.
///
/// Values carry no response text, arguments, audio, or other body data.
#[derive(Clone, Copy, Debug, Eq, Hash, PartialEq, Structural)]
#[non_exhaustive]
pub enum OutputKind {
    /// User-visible generated text.
    Text,
    /// A model refusal.
    Refusal,
    /// Reasoning or analysis output.
    Reasoning,
    /// Audio output or an audio transcript.
    Audio,
    /// A tool call, function call, or partial call arguments.
    ToolCall,
    /// Generated image data or an image generation event.
    Image,
    /// Output that is known to exist but does not fit another kind.
    Other,
}

/// How confidently a classified failure may be treated as transient.
#[derive(Clone, Copy, Debug, Eq, Hash, PartialEq, Structural)]
#[non_exhaustive]
pub enum FailureKind {
    /// The classifier explicitly identified a transient failure.
    Transient,
    /// The classifier explicitly identified a permanent failure.
    Permanent,
    /// The classifier could not establish whether the failure is transient.
    Unknown,
}

/// A replay-relevant observation made from one stream item.
#[derive(Clone, Copy, Debug, Eq, Hash, PartialEq, Structural)]
#[non_exhaustive]
pub enum Observation {
    /// The item is known not to change the replay boundary or termination.
    Neutral,
    /// The item contains semantic model output.
    Output(OutputKind),
    /// The item establishes clean semantic completion.
    Completed,
    /// The item establishes an explicit failure.
    Failed(FailureKind),
    /// The item might contain output, so an uncrossed boundary cannot be proven.
    Uncertain,
}

/// Whether semantic output has crossed the whole-request replay boundary.
#[derive(Clone, Copy, Debug, Eq, Hash, PartialEq, Structural)]
#[non_exhaustive]
pub enum ReplayBoundary {
    /// Every classified item so far was proven not to contain output.
    Uncrossed,
    /// Output was observed; the value records the first known output kind.
    Crossed(OutputKind),
    /// An item could not be proven free of output.
    Uncertain,
}

/// Why observation of the stream ended without a semantic terminal item.
#[derive(Clone, Copy, Debug, Eq, Hash, PartialEq, Structural)]
#[non_exhaustive]
pub enum ExitReason {
    /// The upstream stream ended without an explicit terminal item.
    EndOfStream,
    /// The wrapper was dropped before a terminal outcome was established.
    Dropped,
    /// An upstream poll or item classifier unwound with a panic.
    ///
    /// This state is recorded when the wrapper is dropped during unwinding, or
    /// when a caller catches the panic and polls the same wrapper again.
    Panicked,
}

/// The terminal state observed for a stream.
#[derive(Clone, Copy, Debug, Eq, Hash, PartialEq, Structural)]
#[non_exhaustive]
pub enum Termination {
    /// The stream has not established a terminal outcome.
    Active,
    /// The classifier observed explicit clean completion.
    Completed,
    /// The classifier observed an explicit failure.
    Failed(FailureKind),
    /// Observation ended without an explicit semantic outcome.
    Exited(ExitReason),
}

/// The caller's independent guarantee about replaying the whole request.
///
/// This is deliberately separate from the response stream. Seeing no output
/// cannot prove that a request, tool, or upstream side effect is replay-safe.
#[derive(Clone, Copy, Debug, Eq, Hash, PartialEq, Structural)]
#[non_exhaustive]
pub enum ReplayContract {
    /// The caller has independently established that whole-request replay is safe.
    KnownSafe,
    /// The caller cannot establish whether replay is safe.
    Unknown,
    /// The caller knows that replay can duplicate a side effect.
    KnownUnsafe,
}

/// The conservative whole-request replay decision.
#[derive(Clone, Copy, Debug, Eq, Hash, PartialEq, Structural)]
#[non_exhaustive]
pub enum ReplayVerdict {
    /// All required evidence is present, so replay is authorized.
    Allow,
    /// Replay is not authorized.
    Deny,
}

/// Classifies one item emitted by an upstream stream.
///
/// Implementations may be stateful. Classification happens after the item is
/// produced by the upstream stream and before that same item is returned to the
/// downstream consumer.
pub trait Classify<Item> {
    /// The items that this classifier can be handed in its present state.
    spec fn accepts(&self, item: &Item) -> bool;

    /// Describes the replay-relevant meaning of `item`. What the classifier
    /// could be handed before, it can be handed after.
    fn classify(&mut self, item: &Item) -> (observation: Observation)
        requires
            old(self).accepts(item),
        ensures
            forall|next: Item| #[trigger] (*old(self)).accepts(&next) ==> (*final(self)).accepts(
                &next,
            ),
    ;
}

impl<Item, F> Classify<Item> for F where F: FnMut(&Item) -> Observation {
    open spec fn accepts(&self, item: &Item) -> bool {
        call_requires(*self, (item,))
    }

    fn classify(&mut self, item: &Item) -> (observation: Observation)
        ensures
            call_ensures(*old(self), (item,), observation),
    {
        self(item)
    }
}

} // verus!
