//! Span builders addressed by the AWS resource they target, the form the
//! first AWS instrumentation took: the target chooses the service, the span
//! kind and the attributes.
use vstd::prelude::*;

use crate::middleware::aws::{rpc_attrs, AwsSpanBuilder};
use crate::semconv;
use crate::span::{array_attr, attrs_view, one_string, owned, str_attr, Attribute, AttributeModel, SpanKind};

verus! {

/// The AWS resource an operation targets.
#[derive(Debug, Clone)]
pub enum AwsTarget {
    /// A DynamoDB table, by name.
    Dynamo(String),
    /// A Firehose delivery stream, by name.
    Firehose(String),
    /// An SNS topic, by ARN.
    Sns(String),
}

/// Mathematical model of an [`AwsTarget`].
pub enum TargetModel {
    /// A DynamoDB table.
    Dynamo(Seq<char>),
    /// A Firehose delivery stream.
    Firehose(Seq<char>),
    /// An SNS topic.
    Sns(Seq<char>),
}

impl View for AwsTarget {
    type V = TargetModel;

    open spec fn view(&self) -> TargetModel {
        match self {
            AwsTarget::Dynamo(t) => TargetModel::Dynamo(t@),
            AwsTarget::Firehose(s) => TargetModel::Firehose(s@),
            AwsTarget::Sns(t) => TargetModel::Sns(t@),
        }
    }
}

/// The service a target belongs to.
pub open spec fn target_service(t: TargetModel) -> Seq<char> {
    match t {
        TargetModel::Dynamo(_) => "DynamoDB"@,
        TargetModel::Firehose(_) => "Firehose"@,
        TargetModel::Sns(_) => "SNS"@,
    }
}

/// The span kind of an operation on a target: database calls are client
/// calls, while the messaging targets are published to.
pub open spec fn target_span_kind(t: TargetModel) -> SpanKind {
    match t {
        TargetModel::Dynamo(_) => SpanKind::Client,
        TargetModel::Firehose(_) => SpanKind::Producer,
        TargetModel::Sns(_) => SpanKind::Producer,
    }
}

/// The attributes that describe operation `method` on a target.
pub open spec fn target_attrs(t: TargetModel, method: Seq<char>) -> Seq<AttributeModel> {
    match t {
        TargetModel::Dynamo(table) => seq![
            str_attr(semconv::DB_SYSTEM@, "dynamodb"@),
            str_attr(semconv::DB_NAME@, table),
            str_attr(semconv::DB_OPERATION@, method),
            array_attr(semconv::AWS_DYNAMODB_TABLE_NAMES@, seq![table]),
        ],
        TargetModel::Firehose(stream) => seq![
            str_attr(semconv::MESSAGING_SYSTEM@, "aws_firehose"@),
            str_attr(semconv::MESSAGING_OPERATION@, "publish"@),
            str_attr(semconv::MESSAGING_DESTINATION_NAME@, stream),
        ],
        TargetModel::Sns(topic) => seq![
            str_attr(semconv::MESSAGING_SYSTEM@, "aws_sns"@),
            str_attr(semconv::MESSAGING_OPERATION@, "publish"@),
            str_attr(semconv::MESSAGING_DESTINATION_NAME@, topic),
        ],
    }
}

/// What a target contributes to the span of an operation on it.
pub trait IntoAttributes: Sized {
    /// The AWS service name.
    fn service(&self) -> &'static str;

    /// The span kind of operations on the target.
    fn span_kind(&self) -> SpanKind;

    /// The attributes of operation `method` on the target.
    fn into_attributes(self, method: &str) -> Vec<Attribute>;
}

impl IntoAttributes for AwsTarget {
    fn service(&self) -> (r: &'static str)
        ensures
            r@ == target_service(self@),
    {
        match self {
            AwsTarget::Dynamo(_) => "DynamoDB",
            AwsTarget::Firehose(_) => "Firehose",
            AwsTarget::Sns(_) => "SNS",
        }
    }

    fn span_kind(&self) -> (r: SpanKind)
        ensures
            r == target_span_kind(self@),
    {
        match self {
            AwsTarget::Dynamo(_) => SpanKind::Client,
            AwsTarget::Firehose(_) => SpanKind::Producer,
            AwsTarget::Sns(_) => SpanKind::Producer,
        }
    }

    fn into_attributes(self, method: &str) -> (r: Vec<Attribute>)
        ensures
            attrs_view(r@) == target_attrs(self@, method@),
    {
        let ghost t = self@;
        let mut r: Vec<Attribute> = Vec::new();
        match self {
            AwsTarget::Dynamo(table_name) => {
                r.push(Attribute::string(semconv::DB_SYSTEM, owned("dynamodb")));
                r.push(Attribute::string(semconv::DB_NAME, table_name.clone()));
                r.push(Attribute::string(semconv::DB_OPERATION, owned(method)));
                r.push(Attribute::array(semconv::AWS_DYNAMODB_TABLE_NAMES, one_string(table_name.as_str())));
            },
            AwsTarget::Firehose(stream_name) => {
                r.push(Attribute::string(semconv::MESSAGING_SYSTEM, owned("aws_firehose")));
                r.push(Attribute::string(semconv::MESSAGING_OPERATION, owned("publish")));
                r.push(Attribute::string(semconv::MESSAGING_DESTINATION_NAME, stream_name));
            },
            AwsTarget::Sns(topic_arn) => {
                r.push(Attribute::string(semconv::MESSAGING_SYSTEM, owned("aws_sns")));
                r.push(Attribute::string(semconv::MESSAGING_OPERATION, owned("publish")));
                r.push(Attribute::string(semconv::MESSAGING_DESTINATION_NAME, topic_arn));
            },
        }
        assert(attrs_view(r@) =~= target_attrs(t, method@));
        r
    }
}

impl<'a> AwsSpanBuilder<'a> {
    /// A span builder for operation `method` on `aws_target`: named
    /// `service.method`, of the target's span kind, with the target's
    /// attributes followed by the common ones, and no parent context.
    pub fn from_target(aws_target: AwsTarget, method: &str) -> (r: Self)
        ensures
            r.kind == target_span_kind(aws_target@),
            r.name@ == target_service(aws_target@) + "."@ + method@,
            attrs_view(r.attributes@) == target_attrs(aws_target@, method@) + rpc_attrs(
                target_service(aws_target@),
                method@,
            ),
            r.context is None,
    {
        let ghost t = aws_target@;
        let service = aws_target.service();
        let kind = aws_target.span_kind();
        let attributes = aws_target.into_attributes(method);
        let b = AwsSpanBuilder::new(kind, service, method, Vec::new());
        let ghost head = attrs_view(attributes@);
        assert(attrs_view(b.attributes@) =~= rpc_attrs(service@, method@));
        let mut all = attributes;
        let mut common = b.attributes;
        all.append(&mut common);
        assert(attrs_view(all@) =~= target_attrs(t, method@) + rpc_attrs(target_service(t), method@));
        AwsSpanBuilder { kind: b.kind, name: b.name, attributes: all, context: None }
    }
}

} // verus!
