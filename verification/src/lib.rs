//! Request tracing for an HTTP server, on top of `fastrace`.
//!
//! Every request is handled inside a span. A request that carries a well-formed
//! `traceparent` header gets a root span that continues the caller's trace; any
//! other request is handled as the middleware's [`Fallback`] says. The span is
//! named after the request's method and path, carries both as attributes, and
//! receives the status code of the response once the handler is done. What the
//! handler returns, response or failure, goes back to the caller unchanged.
//!
//! The library takes a request as a [`RequestHead`] and a handler's result as a
//! `Result` over [`Handled`], so that it fits any server framework:
//! [`FastraceEndpoint::span_plan`] decides the span and [`open_span`] starts it,
//! the caller runs the handler with that span as its local parent, and
//! [`FastraceEndpoint::after_call`] records the outcome.

pub mod attributes;
pub mod context;
pub mod middleware;
pub mod plan;
pub mod request;
pub mod span;
pub mod traceparent;

pub use context::ParentContext;
pub use middleware::{FastraceEndpoint, FastraceMiddleware, Handled};
pub use plan::{Fallback, SpanPlan};
pub use request::RequestHead;
pub use span::open_span;
pub use traceparent::TRACEPARENT_HEADER;
