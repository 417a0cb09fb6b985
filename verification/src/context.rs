//! Derivation of a remote parent trace context from identifiers.
//!
//! Unrelated process invocations agree on trace/span linkage purely from the
//! identifier values passed to them; no state is shared.  The derived
//! context is always remote and sampled: its presence is itself the evidence
//! that a trace should be recorded.

use vstd::prelude::*;

use crate::id::BuildId;
use crate::id::StepId;

verus! {

/// The trace/span pair a new span should attach under.
#[derive(Clone, Copy, PartialEq, Eq, Structural, Debug)]
pub struct ParentContext {
    /// The trace every span of this build belongs to.
    pub trace_id: u128,
    /// The span the next recorded span becomes a child of.
    pub span_id: u64,
    /// Always set: the context came from another process.
    pub remote: bool,
    /// Always set: the tool makes no sampling decision of its own.
    pub sampled: bool,
}

impl ParentContext {
    /// True of every derived context.
    pub open spec fn well_formed(&self) -> bool {
        self.remote && self.sampled
    }
}

/// Derives the parent context for a build and an optional step: the trace
/// id is always the build's trace component; the span id is the step's span
/// component when a step is given, else the build's own span component, so
/// that the build span itself becomes the parent.
pub fn get_parent_context(build: BuildId, step: Option<StepId>) -> (r: ParentContext)
    ensures
        r.trace_id == build.trace,
        r.span_id == (match step {
            Some(s) => s.0.span,
            None => build.span,
        }),
        r.well_formed(),
{
    let span_id = match step {
        Some(s) => s.span_id(),
        None => build.span_id(),
    };
    ParentContext { trace_id: build.trace_id(), span_id, remote: true, sampled: true }
}

} // verus!
