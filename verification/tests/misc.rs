use telemetry_rust::fmt::{fields_from_parse, span_fields, JsonFormat, SpanFields};
use telemetry_rust::middleware::axum::{server_span_name, OtelAxumLayer};
use telemetry_rust::resource::{DetectResource, ResourceSources};
use opentelemetry_semantic_conventions::attribute as a;
use telemetry_rust::semconv;
use telemetry_rust::text::{decimal, parse_u64, split_whitespace, trim, IntErrorKind};

fn sources(a: Option<&str>, b: Option<&str>, c: Option<&str>, d: Option<&str>) -> ResourceSources {
    ResourceSources {
        otel_variable: a.map(String::from),
        resource_attribute: b.map(String::from),
        service_variable: c.map(String::from),
        app_variable: d.map(String::from),
    }
}

#[test]
fn resource_values_by_priority() {
    let d = DetectResource::new("fallback", "0.0.0");
    assert_eq!(d.service_name(sources(None, None, None, None)), "fallback");
    assert_eq!(d.service_name(sources(None, None, Some("svc"), Some("app"))), "svc");
    assert_eq!(d.service_name(sources(Some("otel"), Some("res"), Some("svc"), None)), "otel");
    assert_eq!(d.service_version(sources(None, Some("1.2"), None, Some("9"))), "1.2");
    assert_eq!(d.service_version(sources(None, None, None, None)), "0.0.0");
}

#[test]
fn json_span_entries() {
    let parsed = JsonFormat::span_entries(
        "span",
        SpanFields::Parsed(vec![
            ("a".to_string(), "1".to_string()),
            ("name".to_string(), "renamed".to_string()),
            ("b".to_string(), "2".to_string()),
        ]),
    );
    let expected: Vec<(String, String)> = vec![
        ("a".to_string(), "1".to_string()),
        ("b".to_string(), "2".to_string()),
        ("name".to_string(), "renamed".to_string()),
    ];
    assert_eq!(parsed, expected);
    let raw = JsonFormat::span_entries("s", SpanFields::Unparsed { raw: "x".to_string(), error: "e".to_string() });
    assert_eq!(raw.len(), 3);
    assert_eq!(raw[2], ("name".to_string(), "s".to_string()));
    assert_eq!(JsonFormat::span_entries("s", SpanFields::Missing), vec![("name".to_string(), "s".to_string())]);
}

#[test]
fn span_fields_are_read_as_a_json_object() {
    assert!(matches!(span_fields(None), SpanFields::Missing));
    match span_fields(Some(r#"{"a":"1","name":"n"}"#)) {
        SpanFields::Parsed(mut p) => {
            p.sort();
            assert_eq!(
                p,
                vec![("a".to_string(), "1".to_string()), ("name".to_string(), "n".to_string())]
            );
        }
        _ => panic!("expected parsed fields"),
    }
    match span_fields(Some("a=1")) {
        SpanFields::Unparsed { raw, error } => {
            assert_eq!(raw, "a=1");
            assert!(!error.is_empty());
        }
        _ => panic!("expected raw fields"),
    }
    match fields_from_parse("x", Err("e".to_string())) {
        SpanFields::Unparsed { raw, error } => assert_eq!((raw.as_str(), error.as_str()), ("x", "e")),
        _ => panic!("expected raw fields"),
    }
}

#[test]
fn axum_layer_configuration_and_span_names() {
    fn route(s: &String) -> &str {
        s.as_str()
    }
    fn only_api(path: &str) -> bool {
        path.starts_with("/api")
    }
    let layer = OtelAxumLayer::new(route as fn(&String) -> &str)
        .filter(only_api as fn(&str) -> bool)
        .inject_context(true);
    let service = layer.layer(());
    assert!(service.inject_context);
    assert!(service.traces("/api/users"));
    assert!(!service.traces("/health"));
    let unfiltered = OtelAxumLayer::<fn(&String) -> &str, fn(&str) -> bool>::new(route).layer(());
    assert!(unfiltered.traces("/health"));
    assert!(!unfiltered.inject_context);
    assert_eq!(server_span_name("GET", "/users/{id}"), "GET /users/{id}");
    assert_eq!(server_span_name("GET", ""), "GET");
}

#[test]
fn text_helpers() {
    assert_eq!(trim("  a b \t"), "a b");
    assert_eq!(split_whitespace(" a  b\nc "), vec!["a", "b", "c"]);
    assert_eq!(parse_u64("12345"), Ok(12345));
    assert_eq!(parse_u64("-1"), Err(IntErrorKind::InvalidDigit));
    assert_eq!(parse_u64(""), Err(IntErrorKind::Empty));
    assert_eq!(decimal(0), "0");
    assert_eq!(decimal(404), "404");
    assert_eq!(decimal(18446744073709551615), "18446744073709551615");
}

#[test]
#[allow(deprecated)]
fn semantic_convention_keys() {
    assert_eq!(semconv::AWS_DYNAMODB_ATTRIBUTES_TO_GET, a::AWS_DYNAMODB_ATTRIBUTES_TO_GET);
    assert_eq!(semconv::AWS_DYNAMODB_CONSISTENT_READ, a::AWS_DYNAMODB_CONSISTENT_READ);
    assert_eq!(semconv::AWS_DYNAMODB_EXCLUSIVE_START_TABLE, a::AWS_DYNAMODB_EXCLUSIVE_START_TABLE);
    assert_eq!(semconv::AWS_DYNAMODB_INDEX_NAME, a::AWS_DYNAMODB_INDEX_NAME);
    assert_eq!(semconv::AWS_DYNAMODB_LIMIT, a::AWS_DYNAMODB_LIMIT);
    assert_eq!(semconv::AWS_DYNAMODB_PROJECTION, a::AWS_DYNAMODB_PROJECTION);
    assert_eq!(semconv::AWS_DYNAMODB_PROVISIONED_READ_CAPACITY, a::AWS_DYNAMODB_PROVISIONED_READ_CAPACITY);
    assert_eq!(semconv::AWS_DYNAMODB_PROVISIONED_WRITE_CAPACITY, a::AWS_DYNAMODB_PROVISIONED_WRITE_CAPACITY);
    assert_eq!(semconv::AWS_DYNAMODB_SCAN_FORWARD, a::AWS_DYNAMODB_SCAN_FORWARD);
    assert_eq!(semconv::AWS_DYNAMODB_SEGMENT, a::AWS_DYNAMODB_SEGMENT);
    assert_eq!(semconv::AWS_DYNAMODB_SELECT, a::AWS_DYNAMODB_SELECT);
    assert_eq!(semconv::AWS_DYNAMODB_TABLE_NAMES, a::AWS_DYNAMODB_TABLE_NAMES);
    assert_eq!(semconv::AWS_DYNAMODB_TOTAL_SEGMENTS, a::AWS_DYNAMODB_TOTAL_SEGMENTS);
    assert_eq!(semconv::AWS_LAMBDA_INVOKED_ARN, a::AWS_LAMBDA_INVOKED_ARN);
    assert_eq!(semconv::AWS_REQUEST_ID, a::AWS_REQUEST_ID);
    assert_eq!(semconv::AWS_S3_BUCKET, a::AWS_S3_BUCKET);
    assert_eq!(semconv::AWS_S3_COPY_SOURCE, a::AWS_S3_COPY_SOURCE);
    assert_eq!(semconv::AWS_S3_DELETE, a::AWS_S3_DELETE);
    assert_eq!(semconv::AWS_S3_KEY, a::AWS_S3_KEY);
    assert_eq!(semconv::AWS_S3_PART_NUMBER, a::AWS_S3_PART_NUMBER);
    assert_eq!(semconv::AWS_S3_UPLOAD_ID, a::AWS_S3_UPLOAD_ID);
    assert_eq!(semconv::DB_NAMESPACE, a::DB_NAMESPACE);
    assert_eq!(semconv::DB_OPERATION_NAME, a::DB_OPERATION_NAME);
    assert_eq!(semconv::ERROR_TYPE, a::ERROR_TYPE);
    assert_eq!(semconv::FAAS_COLDSTART, a::FAAS_COLDSTART);
    assert_eq!(semconv::FAAS_CRON, a::FAAS_CRON);
    assert_eq!(semconv::FAAS_DOCUMENT_COLLECTION, a::FAAS_DOCUMENT_COLLECTION);
    assert_eq!(semconv::FAAS_DOCUMENT_NAME, a::FAAS_DOCUMENT_NAME);
    assert_eq!(semconv::FAAS_DOCUMENT_OPERATION, a::FAAS_DOCUMENT_OPERATION);
    assert_eq!(semconv::FAAS_INVOCATION_ID, a::FAAS_INVOCATION_ID);
    assert_eq!(semconv::FAAS_TRIGGER, a::FAAS_TRIGGER);
    assert_eq!(semconv::HTTP_REQUEST_METHOD, a::HTTP_REQUEST_METHOD);
    assert_eq!(semconv::HTTP_REQUEST_METHOD_ORIGINAL, a::HTTP_REQUEST_METHOD_ORIGINAL);
    assert_eq!(semconv::HTTP_RESPONSE_STATUS_CODE, a::HTTP_RESPONSE_STATUS_CODE);
    assert_eq!(semconv::MESSAGING_DESTINATION_NAME, a::MESSAGING_DESTINATION_NAME);
    assert_eq!(semconv::MESSAGING_OPERATION_TYPE, a::MESSAGING_OPERATION_TYPE);
    assert_eq!(semconv::MESSAGING_SYSTEM, a::MESSAGING_SYSTEM);
    assert_eq!(semconv::NETWORK_PEER_ADDRESS, a::NETWORK_PEER_ADDRESS);
    assert_eq!(semconv::NETWORK_PEER_PORT, a::NETWORK_PEER_PORT);
    assert_eq!(semconv::NETWORK_PROTOCOL_VERSION, a::NETWORK_PROTOCOL_VERSION);
    assert_eq!(semconv::RPC_METHOD, a::RPC_METHOD);
    assert_eq!(semconv::RPC_SERVICE, a::RPC_SERVICE);
    assert_eq!(semconv::RPC_SYSTEM, a::RPC_SYSTEM);
    assert_eq!(semconv::SERVER_ADDRESS, a::SERVER_ADDRESS);
    assert_eq!(semconv::SERVER_PORT, a::SERVER_PORT);
    assert_eq!(semconv::SERVICE_NAME, a::SERVICE_NAME);
    assert_eq!(semconv::SERVICE_VERSION, a::SERVICE_VERSION);
    assert_eq!(semconv::URL_FULL, a::URL_FULL);
    assert_eq!(semconv::URL_PATH, a::URL_PATH);
    assert_eq!(semconv::URL_QUERY, a::URL_QUERY);
    assert_eq!(semconv::URL_SCHEME, a::URL_SCHEME);
    assert_eq!(semconv::USER_AGENT_ORIGINAL, a::USER_AGENT_ORIGINAL);
    assert_eq!(semconv::DB_NAME, a::DB_NAME);
    assert_eq!(semconv::DB_OPERATION, a::DB_OPERATION);
    assert_eq!(semconv::DB_SYSTEM, a::DB_SYSTEM);
    assert_eq!(semconv::MESSAGING_OPERATION, a::MESSAGING_OPERATION);
}
