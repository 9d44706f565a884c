//! Telemetry for a line-delimited JSON-RPC conversation between an editor and a
//! coding agent. Every line that the proxy forwards is also handed to a
//! [`spans::SpanManager`], which classifies it, correlates it with the lines
//! seen before it, and turns the conversation into spans and measurements: a
//! root span for the conversation, a span for each request, a span for each
//! prompt, and a span for each tool call.
//!
//! What the manager does is stated over a state machine on plain values in
//! [`model`], and the manager is proved to follow it step by step. What holds
//! of the state machine whatever the lines are is proved in [`laws`].
//!
//! Three things come from outside and are believed as they are described where
//! they are called: `serde_json` reads and writes the JSON ([`json`]),
//! `opentelemetry` holds the spans ([`otel`]), and the machine tells the time
//! ([`clock`]).

pub mod acp;
pub mod clock;
pub mod genai;
pub mod json;
pub mod laws;
pub mod model;
pub mod otel;
pub mod record;
pub mod spans;
pub mod table;
pub mod text;
