//! Spans of the tracing library, started and annotated as a plan says.

use crate::attributes::Attribute;
use crate::context::ParentContext;
use crate::plan::SpanPlan;
use fastrace::collector::{SpanContext, SpanId, TraceId};
use fastrace::local::LocalSpan;
use fastrace::Span;
use vstd::prelude::*;

verus! {

/// `fastrace::Span`, a handle on one unit of traced work. It is carried through
/// unread; dropping it closes the span.
#[verifier::external_type_specification]
#[verifier::external_body]
pub struct ExSpan(fastrace::Span);

/// Calls `fastrace::Span::noop`, which makes a span that records nothing.
#[verifier::external_body]
fn span_noop() -> Span {
    Span::noop()
}

/// Calls `fastrace::Span::root` with the given name and with a span context that
/// holds the parent's trace id, span id and sampled flag.
#[verifier::external_body]
fn span_root(name: String, parent: ParentContext) -> Span {
    Span::root(
        name,
        SpanContext {
            trace_id: TraceId(parent.trace_id),
            span_id: SpanId(parent.span_id),
            sampled: parent.sampled,
        },
    )
}

/// Calls `fastrace::Span::add_properties` on the span with the given attributes,
/// in their order.
#[verifier::external_body]
fn span_add_properties(span: &Span, properties: Vec<Attribute>) {
    span.add_properties(move || {
        properties.into_iter().map(|property| (property.key, property.value))
    })
}

/// Calls `fastrace::local::LocalSpan::add_property`, which attaches the attribute
/// to the span that is the local parent on this thread, if there is one.
#[verifier::external_body]
pub(crate) fn local_span_add_property(property: Attribute) {
    LocalSpan::add_property(move || (property.key, property.value))
}

/// Starts the span that a plan describes: a root span under the plan's parent,
/// with the plan's name and attributes, or a span that records nothing. The
/// handler of the request is to run with this span as its local parent; the span
/// ends when it is dropped.
pub fn open_span(plan: SpanPlan) -> Span {
    match plan {
        SpanPlan::Noop => span_noop(),
        SpanPlan::Root { name, parent, properties } => {
            let root = span_root(name, parent);
            span_add_properties(&root, properties);
            root
        },
    }
}

} // verus!
