//! The decision taken before a request is handled: which span it runs in.

use crate::attributes::{
    attribute_views, get_request_span_name, http_request_method, request_attributes,
    request_properties, span_name, url_path, Attribute,
};
use crate::context::{random_context, starts_trace, ParentContext};
use crate::request::{RequestHead, RequestHeadView};
use crate::traceparent::{
    decoded_parent, fits_traceparent, flags_digits, hex_value, is_traceparent,
    lemma_malformed_value_names_no_parent, lemma_traceparent_fields_fit, parse_traceparent,
    span_id_digits, trace_id_digits, TRACEPARENT_LEN,
};
use vstd::prelude::*;

verus! {

/// What becomes of a request that names no parent context.
#[derive(Clone, Copy, Debug, PartialEq, Eq, Structural)]
pub enum Fallback {
    /// The request is not traced.
    Noop,
    /// The request starts a trace of its own, under a random trace id.
    RandomRoot,
}

/// The span that a request is handled in.
#[derive(Debug, PartialEq, Eq)]
pub enum SpanPlan {
    /// No span is recorded for the request.
    Noop,
    /// A new root span under the given context.
    Root { name: String, parent: ParentContext, properties: Vec<Attribute> },
}

/// A span plan as text.
pub ghost enum SpanPlanView {
    Noop,
    Root { name: Seq<char>, parent: ParentContext, properties: Seq<(Seq<char>, Seq<char>)> },
}

impl View for SpanPlan {
    type V = SpanPlanView;

    open spec fn view(&self) -> SpanPlanView {
        match *self {
            SpanPlan::Noop => SpanPlanView::Noop,
            SpanPlan::Root { name, parent, properties } => SpanPlanView::Root {
                name: name@,
                parent,
                properties: attribute_views(properties@),
            },
        }
    }
}

/// The parent context of a request, given the value of its `traceparent` header:
/// none without the header, and none where the value does not decode.
pub open spec fn header_parent(traceparent: Option<Seq<char>>) -> Option<ParentContext> {
    match traceparent {
        Some(text) => decoded_parent(text),
        None => None,
    }
}

/// The span of a request, given the context it goes under: a root span named
/// after the request and carrying its attributes, or no span without a context.
pub open spec fn planned_span(req: RequestHeadView, parent: Option<ParentContext>) -> SpanPlanView {
    match parent {
        Some(parent) => SpanPlanView::Root {
            name: span_name(req.method, req.path),
            parent,
            properties: request_attributes(req.method, req.path),
        },
        None => SpanPlanView::Noop,
    }
}

/// Whether `parent` is a context that a request with the given header may go
/// under: the decoded parent where there is one; otherwise what the fallback
/// says, which is no context or one that starts a trace.
pub open spec fn is_span_parent(
    parent: Option<ParentContext>,
    decoded: Option<ParentContext>,
    fallback: Fallback,
) -> bool {
    match decoded {
        Some(_) => parent == decoded,
        None => match fallback {
            Fallback::Noop => parent is None,
            Fallback::RandomRoot => parent matches Some(fresh) && starts_trace(fresh),
        },
    }
}

/// Whether `plan` is a span that a request may be handled in under the given
/// fallback: the root span under the decoded parent where there is one;
/// otherwise no span, or a root span under a context that starts a trace.
pub open spec fn is_request_span(
    plan: SpanPlanView,
    req: RequestHeadView,
    fallback: Fallback,
) -> bool {
    match header_parent(req.traceparent) {
        Some(parent) => plan == planned_span(req, Some(parent)),
        None => match fallback {
            Fallback::Noop => plan == SpanPlanView::Noop,
            Fallback::RandomRoot => {
                &&& plan matches SpanPlanView::Root { parent, .. }
                &&& starts_trace(parent)
                &&& plan == planned_span(req, Some(parent))
            },
        },
    }
}

/// Reads the parent context off a request. A header that does not decode counts
/// as absent.
pub fn extract_parent(req: &RequestHead) -> (parent: Option<ParentContext>)
    ensures
        parent == header_parent(req@.traceparent),
{
    match &req.traceparent {
        Some(text) => parse_traceparent(text.as_str()),
        None => None,
    }
}

/// Settles the context that a request's span goes under, given what its header
/// decoded to.
pub fn choose_parent(decoded: Option<ParentContext>, fallback: Fallback) -> (parent: Option<
    ParentContext,
>)
    ensures
        is_span_parent(parent, decoded, fallback),
{
    match decoded {
        Some(parent) => Some(parent),
        None => match fallback {
            Fallback::Noop => None,
            Fallback::RandomRoot => Some(random_context()),
        },
    }
}

/// Plans the span of a request from the context it goes under.
pub fn plan_span(req: &RequestHead, parent: Option<ParentContext>) -> (plan: SpanPlan)
    ensures
        plan@ == planned_span(req@, parent),
{
    match parent {
        Some(parent) => SpanPlan::Root {
            name: get_request_span_name(req),
            parent,
            properties: request_properties(req),
        },
        None => SpanPlan::Noop,
    }
}

/// Plans the span of a request under the given fallback.
pub fn plan_request(req: &RequestHead, fallback: Fallback) -> (plan: SpanPlan)
    ensures
        is_request_span(plan@, req@, fallback),
{
    let parent = choose_parent(extract_parent(req), fallback);
    plan_span(req, parent)
}

/// A request without a `traceparent` header is handled as the fallback says,
/// whatever its method and path: without a span, or in a root span that starts
/// a trace.
pub proof fn lemma_missing_header_follows_fallback(
    plan: SpanPlanView,
    req: RequestHeadView,
    fallback: Fallback,
)
    requires
        req.traceparent is None,
        is_request_span(plan, req, fallback),
    ensures
        fallback == Fallback::Noop ==> plan == SpanPlanView::Noop,
        fallback == Fallback::RandomRoot ==> {
            &&& plan matches SpanPlanView::Root { parent, .. }
            &&& starts_trace(parent)
            &&& plan == planned_span(req, Some(parent))
        },
{
}

/// A request whose `traceparent` header is not well-formed is handled as the
/// same request without the header: so with a header of another length, of
/// another version, or with anything but a lower-case hexadecimal digit at a
/// place `i` inside a field.
pub proof fn lemma_malformed_header_counts_as_missing(
    plan: SpanPlanView,
    req: RequestHeadView,
    text: Seq<char>,
    i: int,
    fallback: Fallback,
)
    requires
        req.traceparent == Some(text),
        text.len() != TRACEPARENT_LEN || (0 <= i < text.len() && !fits_traceparent(i, text[i])),
    ensures
        is_request_span(plan, req, fallback) <==> is_request_span(
            plan,
            RequestHeadView { method: req.method, path: req.path, traceparent: None },
            fallback,
        ),
{
    lemma_malformed_value_names_no_parent(text, i);
    lemma_undecodable_header_counts_as_missing(plan, req, text, fallback);
}

/// A request whose `traceparent` header names no parent is handled as the same
/// request without the header.
pub proof fn lemma_undecodable_header_counts_as_missing(
    plan: SpanPlanView,
    req: RequestHeadView,
    text: Seq<char>,
    fallback: Fallback,
)
    requires
        req.traceparent == Some(text),
        decoded_parent(text) is None,
    ensures
        is_request_span(plan, req, fallback) <==> is_request_span(
            plan,
            RequestHeadView { method: req.method, path: req.path, traceparent: None },
            fallback,
        ),
{
}

/// A request whose `traceparent` header is well-formed and holds a trace id and
/// a span id other than zero is handled in a root span under that parent,
/// whatever the fallback: the span has the header's trace id, span id and
/// sampled flag, is named after the method and the path, and carries both as
/// attributes.
pub proof fn lemma_decoded_header_links_parent(
    plan: SpanPlanView,
    req: RequestHeadView,
    text: Seq<char>,
    fallback: Fallback,
)
    requires
        req.traceparent == Some(text),
        is_traceparent(text),
        hex_value(trace_id_digits(text)) != 0,
        hex_value(span_id_digits(text)) != 0,
        is_request_span(plan, req, fallback),
    ensures
        plan matches SpanPlanView::Root { name, parent, properties } && {
            &&& parent.trace_id == hex_value(trace_id_digits(text))
            &&& parent.span_id == hex_value(span_id_digits(text))
            &&& parent.sampled == (hex_value(flags_digits(text)) % 2 == 1)
            &&& name == span_name(req.method, req.path)
            &&& properties.contains((http_request_method(), req.method))
            &&& properties.contains((url_path(), req.path))
        },
{
    lemma_traceparent_fields_fit(text);
    let properties = request_attributes(req.method, req.path);
    assert(properties[0] == (http_request_method(), req.method));
    assert(properties[1] == (url_path(), req.path));
}

/// Two plans for one request are the same span where the request names a parent
/// that decodes, or where neither fallback starts a trace.
pub proof fn lemma_request_span_is_unique(
    first: SpanPlanView,
    second: SpanPlanView,
    req: RequestHeadView,
    first_fallback: Fallback,
    second_fallback: Fallback,
)
    requires
        is_request_span(first, req, first_fallback),
        is_request_span(second, req, second_fallback),
        header_parent(req.traceparent) is Some || (first_fallback == Fallback::Noop
            && second_fallback == Fallback::Noop),
    ensures
        first == second,
{
}

} // verus!
