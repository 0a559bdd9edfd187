//! The tracing middleware and the endpoint it wraps around a handler.

use crate::attributes::{
    decimal_text, http_response_status_code, optional_attribute_view, status_attribute,
    status_property, Attribute,
};
use crate::plan::{
    header_parent, is_request_span, lemma_request_span_is_unique, plan_request, Fallback, SpanPlan,
    SpanPlanView,
};
use crate::request::{RequestHead, RequestHeadView};
use crate::span::local_span_add_property;
use vstd::prelude::*;

verus! {

/// Middleware that traces every request of the handler it is applied to.
#[derive(Clone, Copy, Debug)]
pub struct FastraceMiddleware {
    fallback: Fallback,
}

/// A handler wrapped for tracing.
pub struct FastraceEndpoint<E> {
    inner: E,
    fallback: Fallback,
}

/// A response of the wrapped handler, with its status code read off.
pub struct Handled<R> {
    pub status: u16,
    pub response: R,
}

/// How the handling of a request ends: the result that goes back to the caller
/// and the attribute that its span receives.
pub struct Completion<R, X> {
    pub result: Result<R, X>,
    pub property: Option<Attribute>,
}

/// The result that goes back to the caller: the handler's own.
pub open spec fn handed_back<R, X>(outcome: Result<Handled<R>, X>) -> Result<R, X> {
    match outcome {
        Ok(handled) => Ok(handled.response),
        Err(error) => Err(error),
    }
}

/// The attribute that the span receives once the handler is done: the status code
/// of a response, nothing after a failure.
pub open spec fn outcome_attribute<R, X>(outcome: Result<Handled<R>, X>) -> Option<
    (Seq<char>, Seq<char>),
> {
    match outcome {
        Ok(handled) => Some(status_attribute(handled.status)),
        Err(_) => None,
    }
}

/// Decides how the handling of a request ends, given what the wrapped handler
/// made of it.
pub fn complete<R, X>(outcome: Result<Handled<R>, X>) -> (done: Completion<R, X>)
    ensures
        done.result == handed_back(outcome),
        optional_attribute_view(done.property) == outcome_attribute(outcome),
{
    match outcome {
        Ok(handled) => Completion {
            result: Ok(handled.response),
            property: Some(status_property(handled.status)),
        },
        Err(error) => Completion { result: Err(error), property: None },
    }
}

impl Default for FastraceMiddleware {
    /// The middleware that leaves a request without a parent context untraced.
    fn default() -> (middleware: FastraceMiddleware)
        ensures
            middleware.fallback() == Fallback::Noop,
    {
        FastraceMiddleware { fallback: Fallback::Noop }
    }
}

impl FastraceMiddleware {
    /// What this middleware does with a request that names no parent context.
    pub closed spec fn spec_fallback(&self) -> Fallback {
        self.fallback
    }

    /// What this middleware does with a request that names no parent context.
    #[verifier::when_used_as_spec(spec_fallback)]
    pub fn fallback(&self) -> (fallback: Fallback)
        ensures
            fallback == self.spec_fallback(),
    {
        self.fallback
    }

    /// The middleware with the given fallback.
    pub fn with_fallback(fallback: Fallback) -> (middleware: FastraceMiddleware)
        ensures
            middleware.fallback() == fallback,
    {
        FastraceMiddleware { fallback }
    }

    /// Wraps a handler.
    pub fn transform<E>(&self, ep: E) -> (wrapped: FastraceEndpoint<E>)
        ensures
            wrapped.handler() == ep,
            wrapped.fallback() == self.fallback(),
    {
        FastraceEndpoint { inner: ep, fallback: self.fallback }
    }
}

impl<E> FastraceEndpoint<E> {
    /// The wrapped handler.
    pub closed spec fn handler(&self) -> E {
        self.inner
    }

    /// What this endpoint does with a request that names no parent context.
    pub closed spec fn spec_fallback(&self) -> Fallback {
        self.fallback
    }

    /// What this endpoint does with a request that names no parent context.
    #[verifier::when_used_as_spec(spec_fallback)]
    pub fn fallback(&self) -> (fallback: Fallback)
        ensures
            fallback == self.spec_fallback(),
    {
        self.fallback
    }

    /// Whether `plan` is a span that this endpoint may handle the request in.
    pub open spec fn plans(&self, req: RequestHeadView, plan: SpanPlanView) -> bool {
        is_request_span(plan, req, self.fallback())
    }

    /// The wrapped handler.
    pub fn inner(&self) -> (ep: &E)
        ensures
            *ep == self.handler(),
    {
        &self.inner
    }

    /// Gives the wrapped handler back.
    pub fn into_inner(self) -> (ep: E)
        ensures
            ep == self.handler(),
    {
        self.inner
    }

    /// Plans the span of a request, which `open_span` then starts.
    pub fn span_plan(&self, req: &RequestHead) -> (plan: SpanPlan)
        ensures
            self.plans(req@, plan@),
    {
        plan_request(req, self.fallback)
    }

    /// Ends the handling of a request: records the status code of a response on
    /// the active span and hands the handler's result back.
    pub fn after_call<R, X>(&self, outcome: Result<Handled<R>, X>) -> (result: Result<R, X>)
        ensures
            result == handed_back(outcome),
    {
        let done = complete(outcome);
        match done.property {
            Some(property) => local_span_add_property(property),
            None => {},
        }
        done.result
    }
}

/// A response of the wrapped handler goes back to the caller as it is, and its
/// span receives the status code in decimal.
pub proof fn lemma_response_is_handed_back<R, X>(status: u16, response: R)
    ensures
        handed_back::<R, X>(Ok(Handled { status, response })) == Ok::<R, X>(response),
        outcome_attribute::<R, X>(Ok(Handled { status, response })) == Some(
            (http_response_status_code(), decimal_text(status as nat)),
        ),
{
}

/// A failure of the wrapped handler goes back to the caller as it is, and its
/// span receives no status code.
pub proof fn lemma_failure_is_handed_back<R, X>(error: X)
    ensures
        handed_back::<R, X>(Err(error)) == Err::<R, X>(error),
        outcome_attribute::<R, X>(Err(error)) is None,
{
}

/// Where a middleware is applied a second time, both layers handle a request in
/// the same span, unless each starts a trace of its own for it.
pub proof fn lemma_rewrapping_plans_the_same_span<E>(
    twice: FastraceEndpoint<FastraceEndpoint<E>>,
    req: RequestHeadView,
    outer: SpanPlanView,
    inner: SpanPlanView,
)
    requires
        twice.fallback() == twice.handler().fallback(),
        twice.plans(req, outer),
        twice.handler().plans(req, inner),
        header_parent(req.traceparent) is Some || twice.fallback() == Fallback::Noop,
    ensures
        outer == inner,
{
    lemma_request_span_is_unique(outer, inner, req, twice.fallback(), twice.handler().fallback());
}

} // verus!
