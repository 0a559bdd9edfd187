use fastrace::collector::{Config, TestReporter};
use fastrace_poem::middleware::{FastraceMiddleware, Handled};
use fastrace_poem::request::RequestHead;
use fastrace_poem::span::open_span;

#[test]
fn request_without_parent_records_no_span() {
    let (reporter, spans) = TestReporter::new();
    fastrace::set_reporter(reporter, Config::default());

    let endpoint = FastraceMiddleware::default().transform(());
    for traceparent in [
        None,
        Some("01-0af7651916cd43dd8448eb211c80319c-b7ad6b7169203331-01"),
        Some("00-0af7651916cd43dd8448eb211c80319c"),
        Some("00-0af7651916cd43dd8448eb211c8031zz-b7ad6b7169203331-01"),
    ] {
        let req = RequestHead::new("GET", "/ping", traceparent);
        let span = open_span(endpoint.span_plan(&req));
        let guard = span.set_local_parent();
        let result: Result<&str, &str> =
            endpoint.after_call(Ok(Handled { status: 200, response: "pong" }));
        assert_eq!(result, Ok("pong"));
        let result: Result<&str, &str> = endpoint.after_call(Err("broken"));
        assert_eq!(result, Err("broken"));
        drop(guard);
        drop(span);
    }
    fastrace::flush();

    assert!(spans.lock().is_empty());
}
