//! Instrumentation core for tracing CI builds that run as many short-lived,
//! independently invoked processes.
//!
//! The crate provides the pieces with real invariants:
//! - a textual codec for build/step identifiers and start timestamps,
//! - derivation of a remote parent trace context from those identifiers,
//! - the decision logic of a child-process supervisor (signal forwarding and
//!   exit-code translation),
//! - a telemetry pipeline model: exporter selection from configuration,
//!   fallback on misconfiguration or backend failure, metric-name
//!   sanitization, and a flush-exactly-once shutdown.
//!
//! Network exporters, the process runtime and argument handling live outside
//! the library; they hand plain values in and carry the decided actions out.

pub mod context;
pub mod id;
pub mod orchestrate;
pub mod pipeline;
pub mod status;
pub mod supervisor;
pub mod text;
pub mod timestamp;
