use telemetry_rust::middleware::aws::instrumentation::fluent_builder::appconfigdata::{
    get_latest_configuration_output_attributes, start_configuration_session_span,
};
use telemetry_rust::middleware::aws::instrumentation::fluent_builder::dynamodb::{
    execute_statement_span, get_item_span, query_span, transact_write_items_span, unique_names,
};
use telemetry_rust::middleware::aws::instrumentation::fluent_builder::s3::{
    delete_objects_output_attributes, get_object_span, list_buckets_span,
};
use telemetry_rust::middleware::aws::instrumentation::fluent_builder::secretsmanager::get_secret_value_output_attributes;
use telemetry_rust::middleware::aws::instrumentation::fluent_builder::ssm::get_parameter_span;
use telemetry_rust::middleware::aws::instrumentation::fluent_builder::{
    AwsBuilderInstrument, InstrumentedFluentBuilder,
};
use telemetry_rust::middleware::aws::{AwsSpanBuilder, S3SpanBuilder, SqsSpanBuilder};
use telemetry_rust::span::{Attribute, AttributeValue};

/// An attribute value as the tests compare it, with its type.
#[derive(Debug, Clone, PartialEq)]
enum V {
    S(String),
    I(i64),
    B(bool),
    A(Vec<String>),
}

fn vs(x: &str) -> V {
    V::S(x.to_string())
}

fn vi(x: i64) -> V {
    V::I(x)
}

fn vb(x: bool) -> V {
    V::B(x)
}

fn va(x: &[&str]) -> V {
    V::A(x.iter().map(|y| y.to_string()).collect())
}

fn pairs(attrs: &[Attribute]) -> Vec<(String, V)> {
    attrs
        .iter()
        .map(|at| {
            let v = match &at.value {
                AttributeValue::Bool(x) => V::B(*x),
                AttributeValue::I64(x) => V::I(*x),
                AttributeValue::String(x) => V::S(x.clone()),
                AttributeValue::StringArray(x) => V::A(x.clone()),
            };
            (at.key.clone(), v)
        })
        .collect()
}

fn owned(v: &[(&str, V)]) -> Vec<(String, V)> {
    v.iter().map(|(k, x)| (k.to_string(), x.clone())).collect()
}

#[test]
fn get_latest_configuration_extracts_expected_attributes() {
    let attributes = get_latest_configuration_output_attributes(Some("application/json"), Some("v1"), Some(45));
    assert_eq!(
        pairs(&attributes),
        owned(&[
            ("aws.appconfigdata.content_type", vs("application/json")),
            ("aws.appconfigdata.version_label", vs("v1")),
            ("aws.appconfigdata.next_poll_interval_in_seconds", vi(45)),
        ])
    );
}

#[test]
fn start_configuration_session_records_what_is_set() {
    let b = start_configuration_session_span(Some("app"), Some("env"), Some("profile"), Some(30));
    assert_eq!(b.name, "AppConfigData.StartConfigurationSession");
    assert_eq!(
        pairs(&b.attributes)[3..].to_vec(),
        owned(&[
            ("aws.appconfigdata.application_id", vs("app")),
            ("aws.appconfigdata.environment_id", vs("env")),
            ("aws.appconfigdata.configuration_profile_id", vs("profile")),
            ("aws.appconfigdata.required_minimum_poll_interval_in_seconds", vi(30)),
        ])
    );
    let unset = start_configuration_session_span(None, None, None, None);
    assert_eq!(pairs(&unset.attributes)[3], ("aws.appconfigdata.application_id".to_string(), vs("")));
    assert_eq!(unset.attributes.len(), 4);
}

#[test]
fn dynamodb_request_spans() {
    let b = get_item_span(Some("Users"), Some(true), None);
    assert_eq!(
        pairs(&b.attributes)[8..].to_vec(),
        owned(&[("aws.dynamodb.consistent_read", vb(true))])
    );
    let q = query_span(
        Some("Orders"),
        Some(vec!["id".to_string(), "total".to_string()]),
        None,
        Some("ByStatus"),
        Some(10),
        None,
        Some(false),
        Some("COUNT"),
    );
    assert_eq!(
        pairs(&q.attributes)[8..].to_vec(),
        owned(&[
            ("aws.dynamodb.attributes_to_get", va(&["id", "total"])),
            ("aws.dynamodb.index_name", vs("ByStatus")),
            ("aws.dynamodb.limit", vi(10)),
            ("aws.dynamodb.scan_forward", vb(false)),
            ("aws.dynamodb.select", vs("COUNT")),
        ])
    );
}

#[test]
fn transactions_name_each_table_once() {
    let names = vec!["A".to_string(), "B".to_string(), "A".to_string(), "C".to_string(), "B".to_string()];
    assert_eq!(unique_names(names.clone()), vec!["A", "B", "C"]);
    let b = transact_write_items_span(names);
    assert_eq!(pairs(&b.attributes).last().unwrap().1, va(&["A", "B", "C"]));
}

#[test]
fn execute_statement_spans_name_the_statement_table() {
    let b = execute_statement_span(r#"SELECT * FROM "Users"."ByEmail" WHERE id = 1"#, None, Some(5));
    assert_eq!(
        pairs(&b.attributes)[3..].to_vec(),
        owned(&[
            ("db.system", vs("dynamodb")),
            ("db.operation.name", vs("ExecuteStatement")),
            ("db.name", vs("Users")),
            ("db.namespace", vs("Users")),
            ("aws.dynamodb.table_names", va(&["Users"])),
            ("aws.dynamodb.index_name", vs("ByEmail")),
            ("aws.dynamodb.limit", vi(5)),
        ])
    );
}

#[test]
fn s3_request_and_response_attributes() {
    let b = get_object_span(Some("bucket"), Some("key"), Some(2), Some("v1"));
    assert_eq!(
        pairs(&b.attributes)[3..].to_vec(),
        owned(&[
            ("aws.s3.bucket", vs("bucket")),
            ("aws.s3.key", vs("key")),
            ("aws.s3.part_number", vi(2)),
            ("aws.s3.version_id", vs("v1")),
        ])
    );
    assert_eq!(list_buckets_span().attributes.len(), 3);
    assert_eq!(
        pairs(&delete_objects_output_attributes(3, 0)),
        owned(&[("aws.s3.delete.deleted_count", vi(3)), ("aws.s3.delete.error_count", vi(0))])
    );
}

#[test]
fn ssm_and_secrets_manager() {
    let b = get_parameter_span(Some("/app/key"), Some(true));
    assert_eq!(
        pairs(&b.attributes)[3..].to_vec(),
        owned(&[("aws.ssm.parameter_name", vs("/app/key")), ("aws.ssm.with_decryption", vb(true))])
    );
    let out = get_secret_value_output_attributes(None, 2);
    assert_eq!(pairs(&out), owned(&[("aws.secretsmanager.version_stages_count", vi(2))]));
}

struct Request(&'static str);

impl<'a> AwsBuilderInstrument<'a> for Request {
    fn build_aws_span(&self) -> AwsSpanBuilder<'a> {
        S3SpanBuilder::head_bucket(self.0)
    }
}

#[test]
fn instrumented_builders_carry_their_span() {
    let ctx = opentelemetry::Context::new();
    let instrumented: InstrumentedFluentBuilder<'_, Request> = Request("b").instrument().context(&ctx);
    let (inner, span) = instrumented.into_parts();
    assert_eq!(inner.0, "b");
    assert_eq!(span.name, "S3.HeadBucket");
    assert!(span.context.is_some());
}

#[test]
fn sqs_queue_given_by_name() {
    let b = SqsSpanBuilder::purge_queue("MyQueue");
    let got = pairs(&b.attributes);
    assert_eq!(got.len(), 7);
    assert_eq!(got[5], ("messaging.destination.name".to_string(), vs("")));
    assert_eq!(got[6], ("aws.sqs.queue.url".to_string(), vs("MyQueue")));
}
