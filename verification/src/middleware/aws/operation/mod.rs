//! Operation-scoped span builders of the first AWS instrumentation: each
//! operation type wraps an [`AwsSpanBuilder`] and records the messaging
//! operation under the legacy `messaging.operation` key.
use vstd::prelude::*;

use crate::span::SpanKind;

pub mod dynamodb;
pub mod firehose;
pub mod sns;

pub use dynamodb::DynamoDBOperation;
pub use firehose::FirehoseOperation;
pub use sns::SnsOperation;

verus! {

/// Messaging operation type of the legacy `messaging.operation` attribute.
#[derive(Debug, Clone, Copy, PartialEq, Eq, Structural)]
pub enum MessagingOperationKind {
    /// Messages are published to an intermediary.
    Publish,
    /// A message is created.
    Create,
    /// Messages are received.
    Receive,
    /// Control operations over messaging resources.
    Control,
}

impl MessagingOperationKind {
    /// The attribute value of the operation kind.
    pub open spec fn spec_as_str(self) -> Seq<char> {
        match self {
            MessagingOperationKind::Publish => "publish"@,
            MessagingOperationKind::Create => "create"@,
            MessagingOperationKind::Receive => "receive"@,
            MessagingOperationKind::Control => "control"@,
        }
    }

    /// The span kind of an operation of this kind: published and created
    /// messages are produced, received ones consumed, and control operations
    /// are client calls.
    pub open spec fn spec_span_kind(self) -> SpanKind {
        match self {
            MessagingOperationKind::Publish => SpanKind::Producer,
            MessagingOperationKind::Create => SpanKind::Producer,
            MessagingOperationKind::Receive => SpanKind::Consumer,
            MessagingOperationKind::Control => SpanKind::Client,
        }
    }

    /// The string representation of the operation kind.
    pub fn as_str(&self) -> (r: &'static str)
        ensures
            r@ == self.spec_as_str(),
    {
        match self {
            MessagingOperationKind::Publish => "publish",
            MessagingOperationKind::Create => "create",
            MessagingOperationKind::Receive => "receive",
            MessagingOperationKind::Control => "control",
        }
    }

    /// The span kind of an operation of this kind.
    pub fn span_kind(&self) -> (r: SpanKind)
        ensures
            r == self.spec_span_kind(),
    {
        match self {
            MessagingOperationKind::Publish => SpanKind::Producer,
            MessagingOperationKind::Create => SpanKind::Producer,
            MessagingOperationKind::Receive => SpanKind::Consumer,
            MessagingOperationKind::Control => SpanKind::Client,
        }
    }
}

impl From<MessagingOperationKind> for SpanKind {
    fn from(kind: MessagingOperationKind) -> (r: SpanKind) {
        kind.span_kind()
    }
}

impl vstd::std_specs::convert::FromSpecImpl<MessagingOperationKind> for SpanKind {
    open spec fn obeys_from_spec() -> bool {
        true
    }

    open spec fn from_spec(kind: MessagingOperationKind) -> SpanKind {
        kind.spec_span_kind()
    }
}

} // verus!
