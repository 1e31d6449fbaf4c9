//! Runtime-neutral replay boundaries for streamed LLM responses.
//!
//! This crate observes items as they pass through a [`GuardedStream`]. It does
//! not perform I/O, parse a transport, retain response bodies, or retry a
//! request. A retry is authorized only when the caller declares a
//! [`ReplayContract::KnownSafe`], no output boundary was crossed, and the
//! classifier observed an explicit transient failure.
pub mod evidence;
pub mod journal;
pub mod laws;
pub mod observation;
pub mod openai;
pub mod probe;
pub mod sheet;
pub mod state;
pub mod stream;

pub use observation::{
    Classify, ExitReason, FailureKind, Observation, OutputKind, ReplayBoundary, ReplayContract,
    ReplayVerdict, Termination,
};
pub use evidence::Event;
pub use probe::Probe;
pub use state::Snapshot;
pub use stream::{GuardedStream, Polled};
