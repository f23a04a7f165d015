use telemetry_rust::middleware::aws::operation::{
    DynamoDBOperation, FirehoseOperation, MessagingOperationKind as LegacyKind, SnsOperation,
};
use telemetry_rust::middleware::aws::operations::secrets_manager::SecretsManagerSpanBuilder as PlainSecretsManager;
use telemetry_rust::middleware::aws::target::AwsTarget;
use telemetry_rust::middleware::aws::{
    aws_span_end, AwsSpanBuilder, DynamodbSpanBuilder, FirehoseSpanBuilder, MessagingOperationKind,
    S3SpanBuilder, SageMakerRuntimeSpanBuilder, SecretsManagerSpanBuilder, SnsSpanBuilder,
    SqsSpanBuilder, SsmSpanBuilder,
};
use telemetry_rust::middleware::aws::AppConfigDataSpanBuilder;
use telemetry_rust::span::{Attribute, AttributeValue, SpanKind, SpanStatus};

/// An attribute value as the tests compare it, with its type.
#[derive(Debug, Clone, PartialEq)]
enum V {
    S(String),
    I(i64),
    B(bool),
    A(Vec<String>),
}

fn vs(x: &str) -> V {
    V::S(x.to_string())
}

fn vi(x: i64) -> V {
    V::I(x)
}

fn vb(x: bool) -> V {
    V::B(x)
}

fn va(x: &[&str]) -> V {
    V::A(x.iter().map(|y| y.to_string()).collect())
}

fn pairs(attrs: &[Attribute]) -> Vec<(String, V)> {
    attrs
        .iter()
        .map(|at| {
            let v = match &at.value {
                AttributeValue::Bool(x) => V::B(*x),
                AttributeValue::I64(x) => V::I(*x),
                AttributeValue::String(x) => V::S(x.clone()),
                AttributeValue::StringArray(x) => V::A(x.clone()),
            };
            (at.key.clone(), v)
        })
        .collect()
}

fn expect(b: &AwsSpanBuilder<'_>, kind: SpanKind, name: &str, attrs: &[(&str, V)]) {
    assert_eq!(b.kind, kind);
    assert_eq!(b.name, name);
    let got = pairs(&b.attributes);
    let want: Vec<(String, V)> = attrs.iter().map(|(k, v)| (k.to_string(), v.clone())).collect();
    assert_eq!(got, want);
    assert!(b.context.is_none());
}

#[test]
fn messaging_operation_kinds() {
    assert_eq!(MessagingOperationKind::Create.as_str(), "create");
    assert_eq!(MessagingOperationKind::Settle.as_str(), "settle");
    assert_eq!(SpanKind::from(MessagingOperationKind::Process), SpanKind::Consumer);
    assert_eq!(SpanKind::from(MessagingOperationKind::Settle), SpanKind::Producer);
    assert_eq!(SpanKind::from(MessagingOperationKind::Control), SpanKind::Client);
    assert_eq!(LegacyKind::Publish.as_str(), "publish");
    assert_eq!(SpanKind::from(LegacyKind::Receive), SpanKind::Consumer);
}

#[test]
fn dynamodb_single_table() {
    let b = DynamodbSpanBuilder::get_item("Users");
    expect(
        &b,
        SpanKind::Client,
        "DynamoDB.GetItem",
        &[
            ("rpc.method", vs("GetItem")),
            ("rpc.system", vs("aws-api")),
            ("rpc.service", vs("DynamoDB")),
            ("db.system", vs("dynamodb")),
            ("db.operation.name", vs("GetItem")),
            ("db.name", vs("Users")),
            ("db.namespace", vs("Users")),
            ("aws.dynamodb.table_names", va(&["Users"])),
        ],
    );
}

#[test]
fn dynamodb_several_or_no_tables_and_arn() {
    let b = DynamodbSpanBuilder::batch_get_item(vec!["A".to_string(), "B".to_string()]);
    expect(
        &b,
        SpanKind::Client,
        "DynamoDB.BatchGetItem",
        &[
            ("rpc.method", vs("BatchGetItem")),
            ("rpc.system", vs("aws-api")),
            ("rpc.service", vs("DynamoDB")),
            ("db.system", vs("dynamodb")),
            ("db.operation.name", vs("BatchGetItem")),
            ("aws.dynamodb.table_names", va(&["A", "B"])),
        ],
    );
    let g = DynamodbSpanBuilder::list_tables();
    assert_eq!(g.attributes.len(), 5);
    let arn = DynamodbSpanBuilder::list_exports("arn:aws:dynamodb:t");
    let got = pairs(&arn.attributes);
    assert_eq!(got[5], ("db.name".to_string(), vs("arn:aws:dynamodb:t")));
    assert_eq!(got[6], ("db.namespace".to_string(), vs("arn:aws:dynamodb:t")));
}

#[test]
fn sns_and_firehose_messaging() {
    let b = SnsSpanBuilder::publish("arn:aws:sns:topic");
    expect(
        &b,
        SpanKind::Producer,
        "SNS.Publish",
        &[
            ("rpc.method", vs("Publish")),
            ("rpc.system", vs("aws-api")),
            ("rpc.service", vs("SNS")),
            ("messaging.system", vs("aws_sns")),
            ("messaging.operation.type", vs("create")),
            ("messaging.destination.name", vs("arn:aws:sns:topic")),
        ],
    );
    let c = SnsSpanBuilder::list_topics();
    assert_eq!(c.kind, SpanKind::Client);
    assert_eq!(c.attributes.len(), 5);
    let f = FirehoseSpanBuilder::put_record_batch("stream");
    assert_eq!(f.kind, SpanKind::Producer);
    assert_eq!(pairs(&f.attributes)[4], ("messaging.operation".to_string(), vs("send")));
}

#[test]
fn sqs_queue_url_and_name() {
    let b = SqsSpanBuilder::delete_queue("https://sqs.us-east-1.amazonaws.com/123456789012/MyQueue");
    expect(
        &b,
        SpanKind::Client,
        "SQS.DeleteQueue",
        &[
            ("rpc.method", vs("DeleteQueue")),
            ("rpc.system", vs("aws-api")),
            ("rpc.service", vs("SQS")),
            ("messaging.system", vs("aws_sqs")),
            ("messaging.operation.type", vs("control")),
            ("messaging.destination.name", vs("MyQueue")),
            ("aws.sqs.queue.url", vs("https://sqs.us-east-1.amazonaws.com/123456789012/MyQueue")),
        ],
    );
    let g = SqsSpanBuilder::list_queues();
    assert_eq!(g.attributes.len(), 5);
    let m = SqsSpanBuilder::send_message("q");
    assert_eq!(m.name, "SNS.SendMessage");
    assert_eq!(m.kind, SpanKind::Producer);
    let invalid = AwsSpanBuilder::sqs(MessagingOperationKind::Receive, "ReceiveMessage", Some("not a url"));
    assert_eq!(invalid.kind, SpanKind::Consumer);
    assert_eq!(
        pairs(&invalid.attributes)[5],
        ("messaging.destination.name".to_string(), vs("not a url"))
    );
}

#[test]
fn s3_and_client_services() {
    let b = S3SpanBuilder::get_object("bucket", "key");
    let got = pairs(&b.attributes);
    assert_eq!(got[3], ("aws.s3.bucket".to_string(), vs("bucket")));
    assert_eq!(got[4], ("aws.s3.key".to_string(), vs("key")));
    assert_eq!(S3SpanBuilder::list_objects_v2("b").name, "S3.ListObjectsV2");
    assert_eq!(S3SpanBuilder::list_buckets().attributes.len(), 3);
    let ssm = SsmSpanBuilder::get_parameter("/p");
    assert_eq!(pairs(&ssm.attributes)[3], ("aws.ssm.parameter_name".to_string(), vs("/p")));
    let app = AppConfigDataSpanBuilder::start_configuration_session("app");
    assert_eq!(app.name, "AppConfigData.StartConfigurationSession");
    let sm = SecretsManagerSpanBuilder::get_secret_value("s");
    assert_eq!(pairs(&sm.attributes)[3], ("aws.secretsmanager.secret_id".to_string(), vs("s")));
    assert_eq!(PlainSecretsManager::get_secret_value().attributes.len(), 3);
    let sg = SageMakerRuntimeSpanBuilder::invoke_endpoint_async("ep");
    assert_eq!(sg.name, "SageMakerRuntime.InvokeEndpointAsync");
}

#[test]
fn builder_attributes_and_context() {
    let ctx = opentelemetry::Context::new();
    let b = AwsSpanBuilder::client("Svc", "Op", vec![])
        .attribute(Attribute::bool("x", true))
        .context(&ctx);
    assert_eq!(b.attributes.len(), 4);
    assert!(b.context.is_some());
    let b = b.set_context(None);
    assert!(b.context.is_none());
}

#[test]
fn legacy_operations() {
    let d = DynamoDBOperation::get_item("T");
    assert_eq!(
        pairs(&d.0.attributes)[3..].to_vec(),
        vec![
            ("db.system".to_string(), vs("dynamodb")),
            ("db.operation".to_string(), vs("GetItem")),
            ("db.name".to_string(), vs("T")),
            ("aws.dynamodb.table_names".to_string(), va(&["T"])),
        ]
    );
    let f = FirehoseOperation::put_record_batch("s");
    assert_eq!(f.0.kind, SpanKind::Producer);
    assert_eq!(pairs(&f.0.attributes)[4], ("messaging.operation".to_string(), vs("publish")));
    let s = SnsOperation::new("ListTopics", None);
    assert_eq!(s.0.kind, SpanKind::Client);
    assert_eq!(s.0.attributes.len(), 5);
}

#[test]
fn target_spans() {
    let b = AwsSpanBuilder::from_target(AwsTarget::Sns("arn".to_string()), "Publish");
    assert_eq!(b.kind, SpanKind::Producer);
    assert_eq!(b.name, "SNS.Publish");
    let got = pairs(&b.attributes);
    assert_eq!(got[0], ("messaging.system".to_string(), vs("aws_sns")));
    assert_eq!(got[3], ("rpc.method".to_string(), vs("Publish")));
}

#[test]
fn aws_span_end_outcomes() {
    let ok = aws_span_end(&Ok(()), Some("req-1"));
    assert!(matches!(ok.status, SpanStatus::Success));
    assert!(!ok.record_error);
    assert_eq!(pairs(&ok.attributes), vec![("aws.request_id".to_string(), vs("req-1"))]);
    let err = aws_span_end(&Err("boom".to_string()), None);
    assert!(matches!(err.status, SpanStatus::Error(ref m) if m == "boom"));
    assert!(err.record_error);
    assert!(err.attributes.is_empty());
}
