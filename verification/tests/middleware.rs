use fastrace_poem::attributes::Attribute;
use fastrace_poem::context::ParentContext;
use fastrace_poem::middleware::{complete, Handled};
use fastrace_poem::plan::{Fallback, SpanPlan};
use fastrace_poem::request::RequestHead;
use fastrace_poem::{FastraceEndpoint, FastraceMiddleware};

const EXAMPLE: &str = "00-0af7651916cd43dd8448eb211c80319c-b7ad6b7169203331-01";

#[test]
fn transform_stores_the_handler() {
    let endpoint = FastraceMiddleware::default().transform("handler");
    assert_eq!(*endpoint.inner(), "handler");
    assert_eq!(endpoint.into_inner(), "handler");
}

#[test]
fn default_middleware_leaves_requests_without_header_untraced() {
    let endpoint = FastraceMiddleware::default().transform(());
    assert_eq!(endpoint.span_plan(&RequestHead::new("GET", "/ping", None)), SpanPlan::Noop);
}

#[test]
fn noop_fallback_is_the_default() {
    let req = RequestHead::new("GET", "/ping", None);
    let chosen = FastraceMiddleware::with_fallback(Fallback::Noop).transform(());
    let default = FastraceMiddleware::default().transform(());
    assert_eq!(chosen.span_plan(&req), default.span_plan(&req));
}

#[test]
fn random_root_middleware_traces_requests_without_header() {
    let endpoint = FastraceMiddleware::with_fallback(Fallback::RandomRoot).transform(());
    match endpoint.span_plan(&RequestHead::new("GET", "/ping", None)) {
        SpanPlan::Root { name, parent, properties } => {
            assert_eq!(name, "GET /ping");
            assert_eq!(parent.span_id, 0);
            assert!(parent.sampled);
            assert_eq!(properties.len(), 3);
        }
        SpanPlan::Noop => panic!("the request is traced"),
    }
}

#[test]
fn valid_header_links_the_span_to_its_parent() {
    let endpoint = FastraceMiddleware::default().transform(());
    let req = RequestHead::new("GET", "/ping", Some(EXAMPLE));
    match endpoint.span_plan(&req) {
        SpanPlan::Root { name, parent, properties } => {
            assert_eq!(
                parent,
                ParentContext {
                    trace_id: 0x0af7651916cd43dd8448eb211c80319c,
                    span_id: 0xb7ad6b7169203331,
                    sampled: true,
                }
            );
            assert_eq!(name, "GET /ping");
            assert!(properties.contains(&Attribute {
                key: "http.request.method".to_string(),
                value: "GET".to_string(),
            }));
            assert!(properties.contains(&Attribute {
                key: "url.path".to_string(),
                value: "/ping".to_string(),
            }));
        }
        SpanPlan::Noop => panic!("the request is traced"),
    }
}

#[test]
fn malformed_header_is_handled_as_no_header() {
    let endpoint = FastraceMiddleware::default().transform(());
    let bare = endpoint.span_plan(&RequestHead::new("GET", "/ping", None));
    for text in [
        "01-0af7651916cd43dd8448eb211c80319c-b7ad6b7169203331-01",
        "00-0af7651916cd43dd8448eb211c80319c",
        "00-0af7651916cd43dd-b7ad6b7169203331-01",
        "00-0af7651916cd43dd8448eb211c80319c-b7ad6b71692033zz-01",
        "00-0AF7651916CD43DD8448EB211C80319C-B7AD6B7169203331-01",
        "00-00000000000000000000000000000000-b7ad6b7169203331-01",
    ] {
        assert_eq!(endpoint.span_plan(&RequestHead::new("GET", "/ping", Some(text))), bare);
    }
}

#[test]
fn response_is_handed_back_unchanged() {
    let endpoint = FastraceMiddleware::default().transform(());
    let result: Result<String, String> =
        endpoint.after_call(Ok(Handled { status: 200, response: "pong".to_string() }));
    assert_eq!(result, Ok("pong".to_string()));
    let result: Result<Vec<u8>, String> =
        endpoint.after_call(Ok(Handled { status: 404, response: vec![1, 2, 3] }));
    assert_eq!(result, Ok(vec![1, 2, 3]));
}

#[test]
fn failure_is_handed_back_unchanged() {
    let endpoint = FastraceMiddleware::default().transform(());
    let result: Result<String, String> = endpoint.after_call(Err("broken".to_string()));
    assert_eq!(result, Err("broken".to_string()));
    let result: Result<(), (u16, &str)> = endpoint.after_call(Err((500, "internal")));
    assert_eq!(result, Err((500, "internal")));
}

#[test]
fn completion_of_a_response_records_its_status() {
    let done = complete::<&str, ()>(Ok(Handled { status: 404, response: "not found" }));
    assert_eq!(done.result, Ok("not found"));
    assert_eq!(
        done.property,
        Some(Attribute { key: "http.response.status_code".to_string(), value: "404".to_string() })
    );
    let done = complete::<&str, ()>(Ok(Handled { status: 200, response: "ok" }));
    assert_eq!(done.result, Ok("ok"));
    assert_eq!(
        done.property,
        Some(Attribute { key: "http.response.status_code".to_string(), value: "200".to_string() })
    );
}

#[test]
fn completion_of_a_failure_records_nothing() {
    let done = complete::<(), &str>(Err("broken"));
    assert_eq!(done.result, Err("broken"));
    assert_eq!(done.property, None);
}

#[test]
fn wrapping_twice_keeps_the_handler_and_the_span() {
    let middleware = FastraceMiddleware::default();
    let twice: FastraceEndpoint<FastraceEndpoint<&str>> =
        middleware.transform(middleware.transform("handler"));
    for req in [
        RequestHead::new("GET", "/ping", None),
        RequestHead::new("GET", "/ping", Some(EXAMPLE)),
        RequestHead::new("GET", "/ping", Some("junk")),
    ] {
        assert_eq!(twice.span_plan(&req), twice.inner().span_plan(&req));
    }
    assert_eq!(*twice.inner().inner(), "handler");
    assert_eq!(twice.into_inner().into_inner(), "handler");
}

#[test]
fn wrapping_twice_with_random_root_agrees_on_a_decoded_parent() {
    let middleware = FastraceMiddleware::with_fallback(Fallback::RandomRoot);
    let twice = middleware.transform(middleware.transform(()));
    let req = RequestHead::new("GET", "/ping", Some(EXAMPLE));
    assert_eq!(twice.span_plan(&req), twice.inner().span_plan(&req));
}
