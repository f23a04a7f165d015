use telemetry_rust::otlp::{
    infer_export_config, parse_headers, read_export_config_from_env, read_headers_from_env, sampler_from_name,
    sampler_name, ExportConfig, Protocol, SamplerKind,
};

#[test]
fn test_infer_export_config() {
    let cases: Vec<(Option<&str>, Option<&str>, Option<&str>, Protocol, Option<&str>, Option<u64>)> = vec![
        (None, None, None, Protocol::HttpBinary, None, None),
        (Some("http/protobuf"), None, None, Protocol::HttpBinary, None, None),
        (Some("http"), None, None, Protocol::HttpBinary, None, None),
        (Some("grpc"), None, None, Protocol::Grpc, None, None),
        (None, Some("http://localhost:4317"), None, Protocol::Grpc, Some("http://localhost:4317"), None),
        (
            Some("http/protobuf"),
            Some("http://localhost:4318"),
            None,
            Protocol::HttpBinary,
            Some("http://localhost:4318"),
            None,
        ),
        (
            Some("http/protobuf"),
            Some("https://examples.com:4318"),
            None,
            Protocol::HttpBinary,
            Some("https://examples.com:4318"),
            None,
        ),
        (
            Some("http/protobuf"),
            Some("https://examples.com:4317"),
            Some("12345"),
            Protocol::HttpBinary,
            Some("https://examples.com:4317"),
            Some(12345),
        ),
    ];
    for (traces_protocol, traces_endpoint, traces_timeout, expected_protocol, expected_endpoint, expected_timeout) in cases {
        let ExportConfig { protocol, endpoint, timeout } =
            infer_export_config(traces_protocol, traces_endpoint, traces_timeout).unwrap();
        assert_eq!(protocol, expected_protocol);
        assert_eq!(endpoint.as_deref(), expected_endpoint);
        assert_eq!(timeout, expected_timeout);
    }
}

#[test]
fn test_infer_export_config_error() {
    let cases: Vec<(Option<&str>, Option<&str>, &str)> = vec![
        (Some("tonic"), None, r#"unsupported protocol "tonic" form env"#),
        (
            Some("http/protobuf"),
            Some("-1"),
            r#"invalid timeout "-1" form env: invalid digit found in string"#,
        ),
    ];
    for (traces_protocol, traces_timeout, expected_error) in cases {
        let result = infer_export_config(traces_protocol, None, traces_timeout);
        let err = result.err().expect("an error");
        assert_eq!(err.message(), expected_error);
    }
}

#[test]
fn timeout_errors_name_their_kind() {
    let empty = infer_export_config(None, None, Some("")).err().unwrap();
    assert_eq!(empty.message(), r#"invalid timeout "" form env: cannot parse integer from empty string"#);
    let big = infer_export_config(None, None, Some("18446744073709551616")).err().unwrap();
    assert_eq!(
        big.message(),
        r#"invalid timeout "18446744073709551616" form env: number too large to fit in target type"#
    );
    let json = infer_export_config(Some("http/json"), None, None).err().unwrap();
    assert_eq!(json.message(), r#"unsupported protocol "http/json" form env"#);
    let ok = infer_export_config(None, Some("http://collector:4318"), Some("+7")).unwrap();
    assert_eq!(ok.protocol, Protocol::HttpBinary);
    assert_eq!(ok.timeout, Some(7));
}

#[test]
fn headers_are_parsed_from_pairs() {
    let headers = parse_headers("a=1,b=2, c = 3 ,bad,=x");
    let got: Vec<(&str, &str)> = headers.iter().map(|(k, v)| (k.as_str(), v.as_str())).collect();
    let expected: Vec<(&str, &str)> = vec![("a", "1"), ("b", "2"), (" c ", " 3 "), ("", "x")];
    assert_eq!(got, expected);
}

#[test]
fn traces_headers_override_general_headers() {
    let headers = read_headers_from_env(Some("a=1,b=2"), Some("b=3,c=4"));
    let lookup = |k: &str| headers.iter().rev().find(|(key, _)| key == k).map(|(_, v)| v.clone());
    assert_eq!(lookup("a").as_deref(), Some("1"));
    assert_eq!(lookup("b").as_deref(), Some("3"));
    assert_eq!(lookup("c").as_deref(), Some("4"));
}

#[test]
fn traces_variables_take_precedence() {
    let (protocol, endpoint, timeout) = read_export_config_from_env(
        None,
        Some("http://general:4318".to_string()),
        Some("grpc".to_string()),
        Some("http/protobuf".to_string()),
        None,
        None,
    );
    assert_eq!(protocol.as_deref(), Some("grpc"));
    assert_eq!(endpoint.as_deref(), Some("http://general:4318"));
    assert_eq!(timeout, None);
}

#[test]
fn sampler_names_are_lowercased_and_defaulted() {
    assert_eq!(sampler_name(Some("Always_On")), "always_on");
    assert_eq!(sampler_name(None), "");
    assert_eq!(sampler_from_name("always_off").0, SamplerKind::AlwaysOff);
    let (kind, name) = sampler_from_name("unknown");
    assert_eq!(kind, SamplerKind::ParentBasedAlwaysOn);
    assert_eq!(name, "parentbased_always_on");
}
