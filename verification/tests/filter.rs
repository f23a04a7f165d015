use telemetry_rust::filter::{read_tracing_level_from_env, Interest, Level, TracingFilter};

#[test]
fn tracing_level_defaults_to_info() {
    assert_eq!(read_tracing_level_from_env(None), Level::Info);
    assert_eq!(read_tracing_level_from_env(Some("not-a-level")), Level::Info);
    assert_eq!(read_tracing_level_from_env(Some("DEBUG")), Level::Debug);
    assert_eq!(read_tracing_level_from_env(Some("warn")), Level::Warn);
    assert_eq!(read_tracing_level_from_env(Some("5")), Level::Trace);
    assert_eq!(read_tracing_level_from_env(Some("1")), Level::Error);
}

#[test]
fn events_follow_the_log_level_and_spans_the_tracing_level() {
    let filter = TracingFilter::new(Level::Warn, Level::Debug);
    assert!(filter.enabled(true, Level::Error, "app"));
    assert!(!filter.enabled(true, Level::Info, "app"));
    assert!(filter.enabled(false, Level::Debug, "app"));
    assert!(!filter.enabled(false, Level::Trace, "app"));
    assert!(filter.enabled(false, Level::Trace, "otel::tracing"));
    assert_eq!(filter.callsite_enabled(false, Level::Trace, "app"), Interest::Never);
    assert_eq!(filter.callsite_enabled(true, Level::Warn, "app"), Interest::Always);
}

#[test]
fn filter_from_level_reads_the_tracing_level() {
    let filter = TracingFilter::from_level(Level::Error, Some("trace"));
    assert_eq!(filter.log_level, Level::Error);
    assert_eq!(filter.tracing_level, Level::Trace);
    assert_eq!(TracingFilter::from_level(Level::Info, None).tracing_level, Level::Info);
}
