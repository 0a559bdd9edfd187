//! The trace context that a request's span goes under.

use vstd::prelude::*;

verus! {

/// A position in a trace: the trace, the span within it that a new span
/// continues, and whether the trace is being collected.
#[derive(Clone, Copy, Debug, PartialEq, Eq, Structural)]
pub struct ParentContext {
    pub trace_id: u128,
    pub span_id: u64,
    pub sampled: bool,
}

/// A context that starts a trace of its own: it names no span of a caller, and
/// its spans are collected.
pub open spec fn starts_trace(context: ParentContext) -> bool {
    context.span_id == 0 && context.sampled
}

/// Calls `fastrace::collector::SpanContext::random`, which draws a trace id at
/// random and pairs it with the span id zero and a set sampled flag.
#[verifier::external_body]
pub(crate) fn random_context() -> (fresh: ParentContext)
    ensures
        starts_trace(fresh),
{
    let context = fastrace::collector::SpanContext::random();
    ParentContext {
        trace_id: context.trace_id.0,
        span_id: context.span_id.0,
        sampled: context.sampled,
    }
}

} // verus!
