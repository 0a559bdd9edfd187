//! What the tracing wrapper reads of an incoming request.

use vstd::prelude::*;

verus! {

/// The part of an incoming request that decides its span: the method token, the
/// path of the URI, and the value of the `traceparent` header where the request
/// has one.
#[derive(Debug, PartialEq, Eq)]
pub struct RequestHead {
    pub method: String,
    pub path: String,
    pub traceparent: Option<String>,
}

/// A request head as text.
pub ghost struct RequestHeadView {
    pub method: Seq<char>,
    pub path: Seq<char>,
    pub traceparent: Option<Seq<char>>,
}

impl View for RequestHead {
    type V = RequestHeadView;

    open spec fn view(&self) -> RequestHeadView {
        RequestHeadView {
            method: self.method@,
            path: self.path@,
            traceparent: match self.traceparent {
                Some(text) => Some(text@),
                None => None,
            },
        }
    }
}

impl RequestHead {
    /// Copies the three parts into a request head.
    pub fn new(method: &str, path: &str, traceparent: Option<&str>) -> (head: RequestHead)
        ensures
            head@.method == method@,
            head@.path == path@,
            head@.traceparent == match traceparent {
                Some(text) => Some(text@),
                None => None::<Seq<char>>,
            },
    {
        let traceparent = match traceparent {
            Some(text) => Some(String::from_str(text)),
            None => None,
        };
        RequestHead { method: String::from_str(method), path: String::from_str(path), traceparent }
    }
}

} // verus!
