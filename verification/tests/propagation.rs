use telemetry_rust::propagation::{
    default_propagators, merge_fields, propagator_from_string, propagators_from_env, NonePropagator,
    PropagatorKind,
};

#[test]
fn init_tracing_failed_on_invalid_propagator() {
    assert!(propagator_from_string("xxxxxx").is_err());
    let result = propagators_from_env(Some("xxxxxx"));
    let err = result.err().expect("an unsupported propagator");
    assert_eq!(err.name, "xxxxxx");
    assert_eq!(err.message(), r#"unsupported propagator form env OTEL_PROPAGATORS: "xxxxxx""#);
}

#[test]
fn unset_variable_selects_the_defaults() {
    let config = propagators_from_env(None).unwrap();
    assert_eq!(config.extract, vec![PropagatorKind::TraceContext, PropagatorKind::B3SingleAndMulti]);
    assert_eq!(config.inject, PropagatorKind::TraceContext);
    let defaults = default_propagators();
    assert_eq!(defaults.extract, config.extract);
}

#[test]
fn listed_propagators_extract_in_order_and_inject_with_the_first() {
    let config = propagators_from_env(Some(" B3 , tracecontext,,baggage ")).unwrap();
    assert_eq!(
        config.extract,
        vec![PropagatorKind::B3Single, PropagatorKind::TraceContext, PropagatorKind::Baggage]
    );
    assert_eq!(config.inject, PropagatorKind::B3Single);
    let empty = propagators_from_env(Some(" , ")).unwrap();
    assert!(empty.extract.is_empty());
    assert_eq!(empty.inject, PropagatorKind::NoPropagation);
}

#[test]
fn propagator_names() {
    assert_eq!(propagator_from_string(" b3multi ").unwrap(), PropagatorKind::B3Multi);
    assert_eq!(propagator_from_string("none").unwrap(), PropagatorKind::NoPropagation);
    assert_eq!(propagator_from_string("xray").unwrap(), PropagatorKind::Xray);
    let xray = propagators_from_env(Some("XRay,tracecontext")).unwrap();
    assert_eq!(xray.extract, vec![PropagatorKind::Xray, PropagatorKind::TraceContext]);
    assert_eq!(xray.inject, PropagatorKind::Xray);
    assert_eq!(propagator_from_string("jaeger").err().unwrap().name, "jaeger");
}

#[test]
fn none_propagator_has_no_fields() {
    assert!(NonePropagator.fields().is_empty());
}

#[test]
fn merged_fields_are_sorted_and_unique() {
    let extract = vec!["traceparent".to_string(), "b3".to_string(), "tracestate".to_string()];
    let inject = vec!["tracestate".to_string(), "baggage".to_string()];
    let merged = merge_fields(&extract, &inject);
    assert_eq!(merged, vec!["b3", "baggage", "traceparent", "tracestate"]);
}
