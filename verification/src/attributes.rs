//! The names and attributes that a request's span carries.

use crate::request::RequestHead;
use vstd::prelude::*;

verus! {

/// A string-valued span attribute.
#[derive(Debug, PartialEq, Eq)]
pub struct Attribute {
    pub key: String,
    pub value: String,
}

impl View for Attribute {
    type V = (Seq<char>, Seq<char>);

    open spec fn view(&self) -> (Seq<char>, Seq<char>) {
        (self.key@, self.value@)
    }
}

/// The decimal digit for `d`, which is below ten.
pub open spec fn digit_char(d: nat) -> char {
    if d == 0 {
        '0'
    } else if d == 1 {
        '1'
    } else if d == 2 {
        '2'
    } else if d == 3 {
        '3'
    } else if d == 4 {
        '4'
    } else if d == 5 {
        '5'
    } else if d == 6 {
        '6'
    } else if d == 7 {
        '7'
    } else if d == 8 {
        '8'
    } else {
        '9'
    }
}

/// `n` in decimal, most significant digit first, without leading zeros.
pub open spec fn decimal_text(n: nat) -> Seq<char>
    decreases n,
{
    if n < 10 {
        seq![digit_char(n)]
    } else {
        decimal_text(n / 10).push(digit_char(n % 10))
    }
}

fn digit_text(d: u16) -> (text: &'static str)
    requires
        d < 10,
    ensures
        text@ == seq![digit_char(d as nat)],
{
    proof {
        reveal_strlit("0");
        reveal_strlit("1");
        reveal_strlit("2");
        reveal_strlit("3");
        reveal_strlit("4");
        reveal_strlit("5");
        reveal_strlit("6");
        reveal_strlit("7");
        reveal_strlit("8");
        reveal_strlit("9");
    }
    if d == 0 {
        "0"
    } else if d == 1 {
        "1"
    } else if d == 2 {
        "2"
    } else if d == 3 {
        "3"
    } else if d == 4 {
        "4"
    } else if d == 5 {
        "5"
    } else if d == 6 {
        "6"
    } else if d == 7 {
        "7"
    } else if d == 8 {
        "8"
    } else {
        "9"
    }
}

fn push_decimal(text: &mut String, n: u16)
    ensures
        final(text)@ == old(text)@ + decimal_text(n as nat),
    decreases n,
{
    if n >= 10 {
        push_decimal(text, n / 10);
    }
    text.append(digit_text(n % 10));
}

/// The text of a response status code.
pub fn status_text(status: u16) -> (text: String)
    ensures
        text@ == decimal_text(status as nat),
{
    let mut text = String::new();
    push_decimal(&mut text, status);
    text
}

/// Key of the attribute that holds the request method.
pub open spec fn http_request_method() -> Seq<char> {
    "http.request.method"@
}

/// Key of the attribute that holds the path of the request's URI.
pub open spec fn url_path() -> Seq<char> {
    "url.path"@
}

/// Key of the attribute that holds the matched route.
pub open spec fn http_route() -> Seq<char> {
    "http.route"@
}

/// Key of the attribute that holds the response status code.
pub open spec fn http_response_status_code() -> Seq<char> {
    "http.response.status_code"@
}

/// Reads `opentelemetry_semantic_conventions::trace::HTTP_REQUEST_METHOD`, which
/// that crate defines as the text `http.request.method`.
#[verifier::external_body]
fn http_request_method_key() -> (key: &'static str)
    ensures
        key@ == http_request_method(),
{
    opentelemetry_semantic_conventions::trace::HTTP_REQUEST_METHOD
}

/// Reads `opentelemetry_semantic_conventions::trace::URL_PATH`, which that crate
/// defines as the text `url.path`.
#[verifier::external_body]
fn url_path_key() -> (key: &'static str)
    ensures
        key@ == url_path(),
{
    opentelemetry_semantic_conventions::trace::URL_PATH
}

/// Reads `opentelemetry_semantic_conventions::trace::HTTP_ROUTE`, which that crate
/// defines as the text `http.route`.
#[verifier::external_body]
fn http_route_key() -> (key: &'static str)
    ensures
        key@ == http_route(),
{
    opentelemetry_semantic_conventions::trace::HTTP_ROUTE
}

/// Reads `opentelemetry_semantic_conventions::trace::HTTP_RESPONSE_STATUS_CODE`,
/// which that crate defines as the text `http.response.status_code`.
#[verifier::external_body]
fn http_response_status_code_key() -> (key: &'static str)
    ensures
        key@ == http_response_status_code(),
{
    opentelemetry_semantic_conventions::trace::HTTP_RESPONSE_STATUS_CODE
}

/// What an attribute that may be missing holds, as text.
pub open spec fn optional_attribute_view(attribute: Option<Attribute>) -> Option<
    (Seq<char>, Seq<char>),
> {
    match attribute {
        Some(attribute) => Some(attribute@),
        None => None,
    }
}

/// The name of a request's span: the method, a space, the path.
pub open spec fn span_name(method: Seq<char>, path: Seq<char>) -> Seq<char> {
    method + seq![' '] + path
}

/// The attributes that a request's span starts with: the method, the path, and
/// the path once more in place of the route.
pub open spec fn request_attributes(method: Seq<char>, path: Seq<char>) -> Seq<
    (Seq<char>, Seq<char>),
> {
    seq![(http_request_method(), method), (url_path(), path), (http_route(), path)]
}

/// The attribute that records a response's status code.
pub open spec fn status_attribute(status: u16) -> (Seq<char>, Seq<char>) {
    (http_response_status_code(), decimal_text(status as nat))
}

/// What a list of attributes holds, as text.
pub open spec fn attribute_views(attributes: Seq<Attribute>) -> Seq<(Seq<char>, Seq<char>)> {
    attributes.map_values(|attribute: Attribute| attribute@)
}

/// Names the span of a request after its method and path.
pub fn get_request_span_name(req: &RequestHead) -> (name: String)
    ensures
        name@ == span_name(req@.method, req@.path),
{
    proof {
        reveal_strlit(" ");
    }
    let mut name = req.method.clone();
    name.append(" ");
    name.append(req.path.as_str());
    assert(" "@ =~= seq![' ']);
    name
}

/// The attributes that describe a request.
pub fn request_properties(req: &RequestHead) -> (properties: Vec<Attribute>)
    ensures
        attribute_views(properties@) == request_attributes(req@.method, req@.path),
{
    let method = Attribute {
        key: String::from_str(http_request_method_key()),
        value: req.method.clone(),
    };
    let path = Attribute { key: String::from_str(url_path_key()), value: req.path.clone() };
    let route = Attribute { key: String::from_str(http_route_key()), value: req.path.clone() };
    let mut properties: Vec<Attribute> = Vec::new();
    properties.push(method);
    properties.push(path);
    properties.push(route);
    assert(attribute_views(properties@) =~= request_attributes(req@.method, req@.path));
    properties
}

/// The attribute that records the status code of a response.
pub fn status_property(status: u16) -> (property: Attribute)
    ensures
        property@ == status_attribute(status),
{
    Attribute {
        key: String::from_str(http_response_status_code_key()),
        value: status_text(status),
    }
}

} // verus!
