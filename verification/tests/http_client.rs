use telemetry_rust::instrumentations::http::hyper_legacy::legacy_error_kind;
use telemetry_rust::instrumentations::http::client::{
    end_error, end_response, semantic_method, HttpClientSpanBuilder, HttpVersion, UrlParts,
};
use telemetry_rust::instrumentations::http::hyper_conn::{hyper_error_kind, HyperErrorFlags, InstrumentedSendRequest};
use telemetry_rust::instrumentations::http::reqwest_builder::{
    reqwest_error_flags, reqwest_error_kind, reqwest_error_type, ReqwestErrorFlags,
};
use telemetry_rust::middleware::http::client::{
    end_response_parts, server_address, status_text, HttpClientSpanBuilder as RequestSpanBuilder,
    RequestParts,
};
use telemetry_rust::span::{Attribute, AttributeValue, SpanKind, SpanStatus};

/// An attribute value as the tests compare it, with its type.
#[derive(Debug, Clone, PartialEq)]
enum V {
    S(String),
    I(i64),
    B(bool),
    A(Vec<String>),
}

fn vs(x: &str) -> V {
    V::S(x.to_string())
}

fn vi(x: i64) -> V {
    V::I(x)
}

fn vb(x: bool) -> V {
    V::B(x)
}

fn va(x: &[&str]) -> V {
    V::A(x.iter().map(|y| y.to_string()).collect())
}

fn pairs(attrs: &[Attribute]) -> Vec<(String, V)> {
    attrs
        .iter()
        .map(|at| {
            let v = match &at.value {
                AttributeValue::Bool(x) => V::B(*x),
                AttributeValue::I64(x) => V::I(*x),
                AttributeValue::String(x) => V::S(x.clone()),
                AttributeValue::StringArray(x) => V::A(x.clone()),
            };
            (at.key.clone(), v)
        })
        .collect()
}

fn owned(v: &[(&str, V)]) -> Vec<(String, V)> {
    v.iter().map(|(k, x)| (k.to_string(), x.clone())).collect()
}

#[test]
fn semantic_methods() {
    assert_eq!(semantic_method("GET"), "GET");
    assert_eq!(semantic_method("TRACE"), "TRACE");
    assert_eq!(semantic_method("get"), "_OTHER");
    assert_eq!(semantic_method("PURGE"), "_OTHER");
}

#[test]
fn request_span_from_parts() {
    let url = UrlParts {
        full_url: Some("http://localhost:3000/health?x=1".to_string()),
        path: Some("/health".to_string()),
        host: Some("localhost".to_string()),
        scheme: Some("http".to_string()),
        port: Some(3000),
        query: Some("x=1".to_string()),
    };
    let b = HttpClientSpanBuilder::from_parts("GET", Some("agent/1"), Some("other:1"), &url);
    assert_eq!(b.span_name, "GET");
    assert_eq!(
        pairs(&b.attributes),
        owned(&[
            ("http.request.method", vs("GET")),
            ("url.full", vs("http://localhost:3000/health?x=1")),
            ("url.path", vs("/health")),
            ("server.address", vs("localhost")),
            ("url.scheme", vs("http")),
            ("server.port", vi(3000)),
            ("url.query", vs("x=1")),
            ("user_agent.original", vs("agent/1")),
        ])
    );
    let empty = UrlParts { full_url: None, path: None, host: None, scheme: None, port: None, query: None };
    let other = HttpClientSpanBuilder::from_parts("PURGE", None, None, &empty);
    assert_eq!(other.span_name, "HTTP");
    assert_eq!(
        pairs(&other.attributes),
        owned(&[("http.request.method", vs("_OTHER")), ("http.request.method_original", vs("PURGE"))])
    );
}

#[test]
fn falls_back_to_host_header_on_origin_form_url() {
    let url = UrlParts {
        full_url: None,
        path: Some("/ok".to_string()),
        host: None,
        scheme: None,
        port: None,
        query: Some("ready=true".to_string()),
    };
    let b = HttpClientSpanBuilder::from_parts(
        "GET",
        Some("telemetry-rust-tests"),
        Some("127.0.0.1:3000"),
        &url,
    );
    assert_eq!(
        pairs(&b.attributes),
        owned(&[
            ("http.request.method", vs("GET")),
            ("url.full", vs("//127.0.0.1:3000/ok?ready=true")),
            ("url.path", vs("/ok")),
            ("server.address", vs("127.0.0.1")),
            ("server.port", vi(3000)),
            ("url.query", vs("ready=true")),
            ("user_agent.original", vs("telemetry-rust-tests")),
        ])
    );
    let no_port = HttpClientSpanBuilder::from_parts("GET", None, Some("example.com"), &url);
    assert_eq!(
        pairs(&no_port.attributes),
        owned(&[
            ("http.request.method", vs("GET")),
            ("url.full", vs("//example.com/ok?ready=true")),
            ("url.path", vs("/ok")),
            ("server.address", vs("example.com")),
            ("url.query", vs("ready=true")),
        ])
    );
    let bad = HttpClientSpanBuilder::from_parts("GET", None, Some("exa mple"), &url);
    assert_eq!(
        pairs(&bad.attributes),
        owned(&[("http.request.method", vs("GET")), ("url.path", vs("/ok")), ("url.query", vs("ready=true"))])
    );
}

#[test]
fn response_ends() {
    let ok = end_response(200, HttpVersion::Http11, Some(("127.0.0.1".to_string(), 8080)));
    assert!(matches!(ok.status, SpanStatus::Unset));
    assert_eq!(
        pairs(&ok.attributes),
        owned(&[
            ("http.response.status_code", vi(200)),
            ("network.protocol.version", vs("1.1")),
            ("network.peer.address", vs("127.0.0.1")),
            ("network.peer.port", vi(8080)),
        ])
    );
    let missing = end_response(404, HttpVersion::Http2, None);
    assert!(matches!(missing.status, SpanStatus::Error(ref d) if d.is_empty()));
    assert_eq!(
        pairs(&missing.attributes),
        owned(&[
            ("http.response.status_code", vi(404)),
            ("network.protocol.version", vs("2.0")),
            ("error.type", vs("404")),
        ])
    );
    let redirect = end_response(399, HttpVersion::Http10, None);
    assert!(matches!(redirect.status, SpanStatus::Unset));
    let failed = end_error("timeout", "timed out".to_string());
    assert!(failed.record_error);
    assert!(matches!(failed.status, SpanStatus::Error(ref d) if d == "timed out"));
    assert_eq!(pairs(&failed.attributes), owned(&[("error.type", vs("timeout"))]));
}

#[test]
fn error_kinds_follow_their_priority() {
    let none = HyperErrorFlags {
        timeout: false,
        closed: false,
        canceled: false,
        parse_status: false,
        parse: false,
        incomplete_message: false,
        body_write_aborted: false,
        shutdown: false,
        user: false,
    };
    assert_eq!(hyper_error_kind(&none), "_OTHER");
    assert_eq!(hyper_error_kind(&HyperErrorFlags { parse: true, parse_status: true, ..none }), "parse_status");
    assert_eq!(hyper_error_kind(&HyperErrorFlags { user: true, timeout: true, ..none }), "timeout");
    let r = ReqwestErrorFlags {
        timeout: false,
        connect: true,
        redirect: false,
        request: true,
        body: false,
        decode: false,
        builder: false,
    };
    assert_eq!(reqwest_error_kind(&r), "connect");
    assert_eq!(reqwest_error_kind(&ReqwestErrorFlags { connect: false, request: false, ..r }), "_OTHER");
}

#[test]
fn instrumented_sender_carries_its_context() {
    let s = InstrumentedSendRequest::new(5u8);
    assert!(s.parent_context().is_none());
    let ctx = opentelemetry::Context::new();
    let s = s.context(&ctx);
    assert!(s.parent_context().is_some());
    let s = s.set_context(None);
    assert!(s.parent_context().is_none());
    assert_eq!(s.into_inner(), 5u8);
}

#[test]
fn request_based_client_span() {
    let parts = RequestParts {
        method: "POST".to_string(),
        scheme: Some("https".to_string()),
        host: Some("example.com".to_string()),
        port: None,
        path: String::new(),
        full_url: "https://example.com".to_string(),
        query: None,
        user_agent: None,
    };
    let b = RequestSpanBuilder::from_request(&parts);
    assert_eq!(b.span_name, "POST");
    assert_eq!(b.span_kind, SpanKind::Client);
    assert!(b.context.is_none());
    assert_eq!(
        pairs(&b.attributes),
        owned(&[
            ("http.request.method", vs("POST")),
            ("url.scheme", vs("https")),
            ("server.address", vs("example.com")),
            ("url.full", vs("https://example.com")),
        ])
    );
    assert_eq!(server_address(Some("h")).as_deref(), Some("h"));
    assert_eq!(server_address(None), None);
    assert_eq!(status_text(503), "503 Service Unavailable");
    assert_eq!(status_text(599), "599 <unknown status code>");
    let end = end_response_parts(500, HttpVersion::Http11, None);
    assert!(matches!(end.status, SpanStatus::Error(ref d) if d == "500 Internal Server Error"));
    let client_error = end_response_parts(404, HttpVersion::Http11, None);
    assert!(matches!(client_error.status, SpanStatus::Unset));
}

#[test]
fn request_based_client_span_with_query_and_agent() {
    let parts = RequestParts {
        method: "GET".to_string(),
        scheme: Some("http".to_string()),
        host: Some("example.com".to_string()),
        port: None,
        path: "/ok".to_string(),
        full_url: "http://example.com/ok?ready=true".to_string(),
        query: Some("ready=true".to_string()),
        user_agent: Some("ua".to_string()),
    };
    let b = RequestSpanBuilder::from_request(&parts);
    assert_eq!(b.span_name, "GET");
    assert_eq!(b.span_kind, SpanKind::Client);
    assert!(b.context.is_none());
    assert_eq!(
        pairs(&b.attributes),
        owned(&[
            ("http.request.method", vs("GET")),
            ("url.scheme", vs("http")),
            ("server.address", vs("example.com")),
            ("url.path", vs("/ok")),
            ("url.full", vs("http://example.com/ok?ready=true")),
            ("url.query", vs("ready=true")),
            ("user_agent.original", vs("ua")),
        ])
    );
}

#[test]
fn legacy_client_error_kinds() {
    assert_eq!(legacy_error_kind(true, Some("timeout")), "connect");
    assert_eq!(legacy_error_kind(false, Some("timeout")), "timeout");
    assert_eq!(legacy_error_kind(false, None), "_OTHER");
}

#[test]
fn reqwest_builder_error_is_classified() {
    let error = reqwest::Client::new().get("not a url").build().unwrap_err();
    let flags = reqwest_error_flags(&error);
    assert!(flags.builder);
    assert!(!flags.timeout && !flags.connect);
    assert_eq!(reqwest_error_type(&error), "builder");
}
