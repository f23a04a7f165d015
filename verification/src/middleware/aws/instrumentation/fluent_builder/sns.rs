//! Span description of Amazon SNS publish requests.
use vstd::prelude::*;

use crate::middleware::aws::AwsSpanBuilder;
use crate::span::{opt_str, or_empty, unwrap_or_empty};
use crate::middleware::aws::operations::sns::{sns_attrs, SnsSpanBuilder};
use crate::middleware::aws::operations::MessagingOperationKind;

verus! {

/// The span of an SNS `Publish` request: the `Publish` span on its target (empty when unset).
pub fn publish_span<'a>(target_arn: Option<&str>) -> (r: AwsSpanBuilder<'a>)
    ensures
        r.built(MessagingOperationKind::Create.spec_span_kind(), "SNS"@, "Publish"@, sns_attrs(MessagingOperationKind::Create, Some(or_empty(opt_str(target_arn))))),
{
        SnsSpanBuilder::publish(unwrap_or_empty(target_arn))
}

} // verus!
