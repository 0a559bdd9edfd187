use fastrace_poem::attributes::{
    get_request_span_name, request_properties, status_property, status_text, Attribute,
};
use fastrace_poem::request::RequestHead;

fn attribute(key: &str, value: &str) -> Attribute {
    Attribute { key: key.to_string(), value: value.to_string() }
}

#[test]
fn status_text_of_404_and_200() {
    assert_eq!(status_text(404), "404");
    assert_eq!(status_text(200), "200");
}

#[test]
fn status_text_at_the_edges() {
    assert_eq!(status_text(0), "0");
    assert_eq!(status_text(9), "9");
    assert_eq!(status_text(10), "10");
    assert_eq!(status_text(99), "99");
    assert_eq!(status_text(100), "100");
    assert_eq!(status_text(1000), "1000");
    assert_eq!(status_text(10000), "10000");
    assert_eq!(status_text(65535), "65535");
}

#[test]
fn status_text_keeps_inner_zeros() {
    assert_eq!(status_text(101), "101");
    assert_eq!(status_text(500), "500");
    assert_eq!(status_text(1001), "1001");
    assert_eq!(status_text(60000), "60000");
}

#[test]
fn status_text_is_decimal_for_every_code() {
    for status in 0..=u16::MAX {
        assert_eq!(status_text(status), status.to_string());
    }
}

#[test]
fn status_property_holds_the_code() {
    assert_eq!(status_property(404), attribute("http.response.status_code", "404"));
    assert_eq!(status_property(200), attribute("http.response.status_code", "200"));
    assert_eq!(status_property(503), attribute("http.response.status_code", "503"));
}

#[test]
fn status_key_is_the_convention() {
    assert_eq!(
        status_property(200).key,
        opentelemetry_semantic_conventions::trace::HTTP_RESPONSE_STATUS_CODE
    );
}

#[test]
fn span_name_is_method_space_path() {
    let req = RequestHead::new("GET", "/ping", None);
    assert_eq!(get_request_span_name(&req), "GET /ping");
    let req = RequestHead::new("POST", "/users/123", None);
    assert_eq!(get_request_span_name(&req), "POST /users/123");
}

#[test]
fn span_name_of_empty_parts() {
    assert_eq!(get_request_span_name(&RequestHead::new("", "", None)), " ");
    assert_eq!(get_request_span_name(&RequestHead::new("GET", "", None)), "GET ");
    assert_eq!(get_request_span_name(&RequestHead::new("", "/", None)), " /");
}

#[test]
fn span_name_ignores_the_header() {
    let bare = RequestHead::new("GET", "/ping", None);
    let traced = RequestHead::new("GET", "/ping", Some("junk"));
    assert_eq!(get_request_span_name(&bare), get_request_span_name(&traced));
}

#[test]
fn request_properties_are_method_path_route() {
    let req = RequestHead::new("DELETE", "/users/123", None);
    assert_eq!(
        request_properties(&req),
        vec![
            attribute("http.request.method", "DELETE"),
            attribute("url.path", "/users/123"),
            attribute("http.route", "/users/123"),
        ]
    );
}

#[test]
fn request_keys_are_the_conventions() {
    let properties = request_properties(&RequestHead::new("GET", "/", None));
    assert_eq!(properties.len(), 3);
    assert_eq!(properties[0].key, opentelemetry_semantic_conventions::trace::HTTP_REQUEST_METHOD);
    assert_eq!(properties[1].key, opentelemetry_semantic_conventions::trace::URL_PATH);
    assert_eq!(properties[2].key, opentelemetry_semantic_conventions::trace::HTTP_ROUTE);
}

#[test]
fn request_head_copies_its_parts() {
    let req = RequestHead::new("PUT", "/a/b", Some("00-1-2-01"));
    assert_eq!(req.method, "PUT");
    assert_eq!(req.path, "/a/b");
    assert_eq!(req.traceparent.as_deref(), Some("00-1-2-01"));
    let req = RequestHead::new("PUT", "/a/b", None);
    assert_eq!(req.traceparent, None);
}
