//! Span description of Amazon Data Firehose put requests.
use vstd::prelude::*;

use crate::middleware::aws::AwsSpanBuilder;
use crate::span::{opt_str, or_empty, unwrap_or_empty};
use crate::middleware::aws::operations::firehose::{firehose_attrs, FirehoseSpanBuilder};
use crate::middleware::aws::operations::MessagingOperationKind;

verus! {

/// The span of a Firehose `PutRecord` request: the `PutRecord` span on its delivery stream (empty when unset).
pub fn put_record_span<'a>(delivery_stream_name: Option<&str>) -> (r: AwsSpanBuilder<'a>)
    ensures
        r.built(MessagingOperationKind::Create.spec_span_kind(), "Firehose"@, "PutRecord"@, firehose_attrs(MessagingOperationKind::Create, Some(or_empty(opt_str(delivery_stream_name))))),
{
        FirehoseSpanBuilder::put_record(unwrap_or_empty(delivery_stream_name))
}

} // verus!
