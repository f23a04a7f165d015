//! Operation-scoped span builders for Amazon Data Firehose.
use vstd::prelude::*;

use super::MessagingOperationKind;
use crate::middleware::aws::AwsSpanBuilder;
use crate::semconv;
use crate::span::{attrs_view, opt_attr, opt_str, owned, push_opt, str_attr, Attribute, AttributeModel, SpanKind};

verus! {

/// A span builder for a Firehose operation.
pub struct FirehoseOperation<'a>(pub AwsSpanBuilder<'a>);

/// The attributes of a Firehose operation of `kind` on `stream_name`: the messaging
/// system, the operation (legacy key) and the destination when there is one.
pub open spec fn firehose_operation_attrs(kind: MessagingOperationKind, stream_name: Option<Seq<char>>) -> Seq<AttributeModel> {
    seq![
        str_attr(semconv::MESSAGING_SYSTEM@, "aws_firehose"@),
        str_attr(semconv::MESSAGING_OPERATION@, kind.spec_as_str()),
    ] + opt_attr(semconv::MESSAGING_DESTINATION_NAME@, stream_name)
}

impl<'a> FirehoseOperation<'a> {
    /// A span builder for the Firehose operation `method` of `operation_kind` on
    /// `stream_name` where one is given; its span kind follows the operation kind.
    pub fn with_operation_kind(
        operation_kind: MessagingOperationKind,
        method: &str,
        stream_name: Option<&str>,
    ) -> (r: Self)
        ensures
            r.0.built(
                operation_kind.spec_span_kind(),
                "Firehose"@,
                method@,
                firehose_operation_attrs(operation_kind, opt_str(stream_name)),
            ),
    {
        let mut attributes: Vec<Attribute> = Vec::new();
        attributes.push(Attribute::string(semconv::MESSAGING_SYSTEM, owned("aws_firehose")));
        attributes.push(Attribute::string(semconv::MESSAGING_OPERATION, owned(operation_kind.as_str())));
        push_opt(&mut attributes, semconv::MESSAGING_DESTINATION_NAME, stream_name);
        assert(attrs_view(attributes@) =~= firehose_operation_attrs(operation_kind, opt_str(stream_name)));
        FirehoseOperation(AwsSpanBuilder::new(operation_kind.span_kind(), "Firehose", method, attributes))
    }

    /// A client span builder for the Firehose control operation `method` on
    /// `stream_name` where one is given.
    pub fn new(method: &str, stream_name: Option<&str>) -> (r: Self)
        ensures
            r.0.built(
                SpanKind::Client,
                "Firehose"@,
                method@,
                firehose_operation_attrs(MessagingOperationKind::Control, opt_str(stream_name)),
            ),
    {
        Self::with_operation_kind(MessagingOperationKind::Control, method, stream_name)
    }
}

impl<'a> FirehoseOperation<'a> {
    /// A span builder for the Firehose `PutRecord` operation on `stream_name`.
    pub fn put_record(stream_name: &str) -> (r: Self)
        ensures
            r.0.built(MessagingOperationKind::Create.spec_span_kind(), "Firehose"@, "PutRecord"@, firehose_operation_attrs(MessagingOperationKind::Create, Some(stream_name@))),
    {
        Self::with_operation_kind(MessagingOperationKind::Create, "PutRecord", Some(stream_name))
    }

    /// A span builder for the Firehose `PutRecordBatch` operation on `stream_name`.
    pub fn put_record_batch(stream_name: &str) -> (r: Self)
        ensures
            r.0.built(MessagingOperationKind::Publish.spec_span_kind(), "Firehose"@, "PutRecordBatch"@, firehose_operation_attrs(MessagingOperationKind::Publish, Some(stream_name@))),
    {
        Self::with_operation_kind(MessagingOperationKind::Publish, "PutRecordBatch", Some(stream_name))
    }

    /// A span builder for the Firehose `ListDeliveryStreams` operation, which names no stream.
    pub fn list_delivery_streams() -> (r: Self)
        ensures
            r.0.built(SpanKind::Client, "Firehose"@, "ListDeliveryStreams"@, firehose_operation_attrs(MessagingOperationKind::Control, None)),
    {
        Self::new("ListDeliveryStreams", None)
    }

    /// A span builder for the Firehose `CreateDeliveryStream` operation on `stream_name`.
    pub fn create_delivery_stream(stream_name: &str) -> (r: Self)
        ensures
            r.0.built(SpanKind::Client, "Firehose"@, "CreateDeliveryStream"@, firehose_operation_attrs(MessagingOperationKind::Control, Some(stream_name@))),
    {
        Self::new("CreateDeliveryStream", Some(stream_name))
    }

    /// A span builder for the Firehose `DeleteDeliveryStream` operation on `stream_name`.
    pub fn delete_delivery_stream(stream_name: &str) -> (r: Self)
        ensures
            r.0.built(SpanKind::Client, "Firehose"@, "DeleteDeliveryStream"@, firehose_operation_attrs(MessagingOperationKind::Control, Some(stream_name@))),
    {
        Self::new("DeleteDeliveryStream", Some(stream_name))
    }

    /// A span builder for the Firehose `DescribeDeliveryStream` operation on `stream_name`.
    pub fn describe_delivery_stream(stream_name: &str) -> (r: Self)
        ensures
            r.0.built(SpanKind::Client, "Firehose"@, "DescribeDeliveryStream"@, firehose_operation_attrs(MessagingOperationKind::Control, Some(stream_name@))),
    {
        Self::new("DescribeDeliveryStream", Some(stream_name))
    }

    /// A span builder for the Firehose `ListTagsForDeliveryStream` operation on `stream_name`.
    pub fn list_tags_for_delivery_stream(stream_name: &str) -> (r: Self)
        ensures
            r.0.built(SpanKind::Client, "Firehose"@, "ListTagsForDeliveryStream"@, firehose_operation_attrs(MessagingOperationKind::Control, Some(stream_name@))),
    {
        Self::new("ListTagsForDeliveryStream", Some(stream_name))
    }

    /// A span builder for the Firehose `StartDeliveryStreamEncryption` operation on `stream_name`.
    pub fn start_delivery_stream_encryption(stream_name: &str) -> (r: Self)
        ensures
            r.0.built(SpanKind::Client, "Firehose"@, "StartDeliveryStreamEncryption"@, firehose_operation_attrs(MessagingOperationKind::Control, Some(stream_name@))),
    {
        Self::new("StartDeliveryStreamEncryption", Some(stream_name))
    }

    /// A span builder for the Firehose `StopDeliveryStreamEncryption` operation on `stream_name`.
    pub fn stop_delivery_stream_encryption(stream_name: &str) -> (r: Self)
        ensures
            r.0.built(SpanKind::Client, "Firehose"@, "StopDeliveryStreamEncryption"@, firehose_operation_attrs(MessagingOperationKind::Control, Some(stream_name@))),
    {
        Self::new("StopDeliveryStreamEncryption", Some(stream_name))
    }

    /// A span builder for the Firehose `TagDeliveryStream` operation on `stream_name`.
    pub fn tag_delivery_stream(stream_name: &str) -> (r: Self)
        ensures
            r.0.built(SpanKind::Client, "Firehose"@, "TagDeliveryStream"@, firehose_operation_attrs(MessagingOperationKind::Control, Some(stream_name@))),
    {
        Self::new("TagDeliveryStream", Some(stream_name))
    }

    /// A span builder for the Firehose `UntagDeliveryStream` operation on `stream_name`.
    pub fn untag_delivery_stream(stream_name: &str) -> (r: Self)
        ensures
            r.0.built(SpanKind::Client, "Firehose"@, "UntagDeliveryStream"@, firehose_operation_attrs(MessagingOperationKind::Control, Some(stream_name@))),
    {
        Self::new("UntagDeliveryStream", Some(stream_name))
    }

    /// A span builder for the Firehose `UpdateDestination` operation on `stream_name`.
    pub fn update_destination(stream_name: &str) -> (r: Self)
        ensures
            r.0.built(SpanKind::Client, "Firehose"@, "UpdateDestination"@, firehose_operation_attrs(MessagingOperationKind::Control, Some(stream_name@))),
    {
        Self::new("UpdateDestination", Some(stream_name))
    }
}

} // verus!
