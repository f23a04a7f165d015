//! Span builders for Amazon Data Firehose operations.
use vstd::prelude::*;

use crate::middleware::aws::AwsSpanBuilder;
use crate::semconv;
use crate::span::{attrs_view, opt_attr, opt_str, push_opt, str_attr, owned, Attribute, AttributeModel, SpanKind};
use super::MessagingOperationKind;

verus! {

/// Namespace of the span builders for Amazon Data Firehose operations.
pub struct FirehoseSpanBuilder(());

/// The attributes of a Firehose operation of `kind` on `stream_name`: the
/// messaging system, the operation type (under the legacy `messaging.operation` key), and the destination name
/// when there is one.
pub open spec fn firehose_attrs(kind: MessagingOperationKind, stream_name: Option<Seq<char>>) -> Seq<AttributeModel> {
    seq![
        str_attr(semconv::MESSAGING_SYSTEM@, "aws_firehose"@),
        str_attr(semconv::MESSAGING_OPERATION@, kind.spec_as_str()),
    ] + opt_attr(semconv::MESSAGING_DESTINATION_NAME@, stream_name)
}

impl<'a> AwsSpanBuilder<'a> {
    /// A span builder for the Firehose operation `method` of `operation_kind`,
    /// on the delivery stream `stream_name` where one is given; its span kind follows the operation kind.
    pub fn firehose(
        operation_kind: MessagingOperationKind,
        method: &str,
        stream_name: Option<&str>,
    ) -> (r: Self)
        ensures
            r.built(
                operation_kind.spec_span_kind(),
                "Firehose"@,
                method@,
                firehose_attrs(operation_kind, opt_str(stream_name)),
            ),
    {
        let mut attributes: Vec<Attribute> = Vec::new();
        attributes.push(Attribute::string(semconv::MESSAGING_SYSTEM, owned("aws_firehose")));
        attributes.push(Attribute::string(semconv::MESSAGING_OPERATION, owned(operation_kind.as_str())));
        let ghost head = attrs_view(attributes@);
        push_opt(&mut attributes, semconv::MESSAGING_DESTINATION_NAME, stream_name);
        assert(attrs_view(attributes@) =~= firehose_attrs(operation_kind, opt_str(stream_name)));
        Self::new(operation_kind.span_kind(), "Firehose", method, attributes)
    }
}

impl FirehoseSpanBuilder {
    /// A span builder for the Firehose `PutRecord` operation on the delivery stream `stream_name`.
    pub fn put_record<'a>(stream_name: &str) -> (r: AwsSpanBuilder<'a>)
        ensures
            r.built(MessagingOperationKind::Create.spec_span_kind(), "Firehose"@, "PutRecord"@, firehose_attrs(MessagingOperationKind::Create, Some(stream_name@))),
    {
        AwsSpanBuilder::firehose(MessagingOperationKind::Create, "PutRecord", Some(stream_name))
    }

    /// A span builder for the Firehose `PutRecordBatch` operation on the delivery stream `stream_name`.
    pub fn put_record_batch<'a>(stream_name: &str) -> (r: AwsSpanBuilder<'a>)
        ensures
            r.built(MessagingOperationKind::Send.spec_span_kind(), "Firehose"@, "PutRecordBatch"@, firehose_attrs(MessagingOperationKind::Send, Some(stream_name@))),
    {
        AwsSpanBuilder::firehose(MessagingOperationKind::Send, "PutRecordBatch", Some(stream_name))
    }

    /// A span builder for the Firehose `ListDeliveryStreams` operation, which names no stream.
    pub fn list_delivery_streams<'a>() -> (r: AwsSpanBuilder<'a>)
        ensures
            r.built(SpanKind::Client, "Firehose"@, "ListDeliveryStreams"@, firehose_attrs(MessagingOperationKind::Control, None)),
    {
        AwsSpanBuilder::firehose(MessagingOperationKind::Control, "ListDeliveryStreams", None)
    }

    /// A span builder for the Firehose `CreateDeliveryStream` operation on the delivery stream `stream_name`.
    pub fn create_delivery_stream<'a>(stream_name: &str) -> (r: AwsSpanBuilder<'a>)
        ensures
            r.built(MessagingOperationKind::Control.spec_span_kind(), "Firehose"@, "CreateDeliveryStream"@, firehose_attrs(MessagingOperationKind::Control, Some(stream_name@))),
    {
        AwsSpanBuilder::firehose(MessagingOperationKind::Control, "CreateDeliveryStream", Some(stream_name))
    }

    /// A span builder for the Firehose `DeleteDeliveryStream` operation on the delivery stream `stream_name`.
    pub fn delete_delivery_stream<'a>(stream_name: &str) -> (r: AwsSpanBuilder<'a>)
        ensures
            r.built(MessagingOperationKind::Control.spec_span_kind(), "Firehose"@, "DeleteDeliveryStream"@, firehose_attrs(MessagingOperationKind::Control, Some(stream_name@))),
    {
        AwsSpanBuilder::firehose(MessagingOperationKind::Control, "DeleteDeliveryStream", Some(stream_name))
    }

    /// A span builder for the Firehose `DescribeDeliveryStream` operation on the delivery stream `stream_name`.
    pub fn describe_delivery_stream<'a>(stream_name: &str) -> (r: AwsSpanBuilder<'a>)
        ensures
            r.built(MessagingOperationKind::Control.spec_span_kind(), "Firehose"@, "DescribeDeliveryStream"@, firehose_attrs(MessagingOperationKind::Control, Some(stream_name@))),
    {
        AwsSpanBuilder::firehose(MessagingOperationKind::Control, "DescribeDeliveryStream", Some(stream_name))
    }

    /// A span builder for the Firehose `ListTagsForDeliveryStream` operation on the delivery stream `stream_name`.
    pub fn list_tags_for_delivery_stream<'a>(stream_name: &str) -> (r: AwsSpanBuilder<'a>)
        ensures
            r.built(MessagingOperationKind::Control.spec_span_kind(), "Firehose"@, "ListTagsForDeliveryStream"@, firehose_attrs(MessagingOperationKind::Control, Some(stream_name@))),
    {
        AwsSpanBuilder::firehose(MessagingOperationKind::Control, "ListTagsForDeliveryStream", Some(stream_name))
    }

    /// A span builder for the Firehose `StartDeliveryStreamEncryption` operation on the delivery stream `stream_name`.
    pub fn start_delivery_stream_encryption<'a>(stream_name: &str) -> (r: AwsSpanBuilder<'a>)
        ensures
            r.built(MessagingOperationKind::Control.spec_span_kind(), "Firehose"@, "StartDeliveryStreamEncryption"@, firehose_attrs(MessagingOperationKind::Control, Some(stream_name@))),
    {
        AwsSpanBuilder::firehose(MessagingOperationKind::Control, "StartDeliveryStreamEncryption", Some(stream_name))
    }

    /// A span builder for the Firehose `StopDeliveryStreamEncryption` operation on the delivery stream `stream_name`.
    pub fn stop_delivery_stream_encryption<'a>(stream_name: &str) -> (r: AwsSpanBuilder<'a>)
        ensures
            r.built(MessagingOperationKind::Control.spec_span_kind(), "Firehose"@, "StopDeliveryStreamEncryption"@, firehose_attrs(MessagingOperationKind::Control, Some(stream_name@))),
    {
        AwsSpanBuilder::firehose(MessagingOperationKind::Control, "StopDeliveryStreamEncryption", Some(stream_name))
    }

    /// A span builder for the Firehose `TagDeliveryStream` operation on the delivery stream `stream_name`.
    pub fn tag_delivery_stream<'a>(stream_name: &str) -> (r: AwsSpanBuilder<'a>)
        ensures
            r.built(MessagingOperationKind::Control.spec_span_kind(), "Firehose"@, "TagDeliveryStream"@, firehose_attrs(MessagingOperationKind::Control, Some(stream_name@))),
    {
        AwsSpanBuilder::firehose(MessagingOperationKind::Control, "TagDeliveryStream", Some(stream_name))
    }

    /// A span builder for the Firehose `UntagDeliveryStream` operation on the delivery stream `stream_name`.
    pub fn untag_delivery_stream<'a>(stream_name: &str) -> (r: AwsSpanBuilder<'a>)
        ensures
            r.built(MessagingOperationKind::Control.spec_span_kind(), "Firehose"@, "UntagDeliveryStream"@, firehose_attrs(MessagingOperationKind::Control, Some(stream_name@))),
    {
        AwsSpanBuilder::firehose(MessagingOperationKind::Control, "UntagDeliveryStream", Some(stream_name))
    }

    /// A span builder for the Firehose `UpdateDestination` operation on the delivery stream `stream_name`.
    pub fn update_destination<'a>(stream_name: &str) -> (r: AwsSpanBuilder<'a>)
        ensures
            r.built(MessagingOperationKind::Control.spec_span_kind(), "Firehose"@, "UpdateDestination"@, firehose_attrs(MessagingOperationKind::Control, Some(stream_name@))),
    {
        AwsSpanBuilder::firehose(MessagingOperationKind::Control, "UpdateDestination", Some(stream_name))
    }
}

} // verus!
