use telemetry_rust::http::{empty_header_map, header_name_count, HeaderExtractor, HeaderInjector};

#[test]
fn injected_fields_are_extracted() {
    let mut headers = http::HeaderMap::new();
    {
        let mut injector = HeaderInjector(&mut headers);
        injector.set("traceparent", "00-0af7651916cd43dd8448eb211c80319c-b7ad6b7169203331-01".to_string());
        injector.set("X-B3-TraceId", "first".to_string());
        injector.set("x-b3-traceid", "second".to_string());
        injector.set("bad key", "ignored".to_string());
        injector.set("bad-value", "line\nbreak".to_string());
        injector.set("latin", "é".to_string());
    }
    let extractor = HeaderExtractor(&headers);
    assert_eq!(
        extractor.get("traceparent"),
        Some("00-0af7651916cd43dd8448eb211c80319c-b7ad6b7169203331-01")
    );
    assert_eq!(extractor.get("X-B3-TRACEID"), Some("second"));
    assert_eq!(extractor.get("bad key"), None);
    assert_eq!(extractor.get("bad-value"), None);
    assert_eq!(extractor.get("latin"), None);
    let mut keys = extractor.keys();
    keys.sort();
    assert_eq!(keys, vec!["latin", "traceparent", "x-b3-traceid"]);
}

#[test]
fn empty_map_counts_names() {
    let mut headers = empty_header_map();
    assert_eq!(header_name_count(&headers), 0);
    {
        let mut injector = HeaderInjector(&mut headers);
        injector.set("a", "1".to_string());
        injector.set("A", "2".to_string());
        injector.set("b", "3".to_string());
    }
    assert_eq!(header_name_count(&headers), 2);
    assert_eq!(HeaderExtractor(&headers).get("a"), Some("2"));
}
