//! Conservative classification of already-framed OpenAI-compatible SSE events.
//!
//! This module deliberately does not parse an SSE byte stream. Callers pass one
//! complete event after their transport/parser has joined its `data:` lines.
//! Classification temporarily parses bounded JSON, returns only a semantic
//! [`crate::Observation`], and does not retain event names, response text, tool
//! arguments, error messages, or any other payload data.
pub mod bytes;
pub mod classifier;
pub mod document;
pub mod json;
pub mod laws;
pub mod limits;
pub mod meaning;
pub mod names;
pub mod payload;
pub mod scan;
pub mod signal;

pub use classifier::{classify_openai_event, OpenAiClassifier, SseEventRef};
pub use limits::ClassifierLimits;
