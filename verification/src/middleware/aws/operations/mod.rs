//! Span builders for the operations of individual AWS services.
use vstd::prelude::*;

use crate::span::SpanKind;

pub mod appconfigdata;
pub mod dynamodb;
pub mod firehose;
pub mod s3;
pub mod sagemaker_runtime;
pub mod secrets_manager;
pub mod secretsmanager;
pub mod sns;
pub mod sqs;
pub mod ssm;

pub use appconfigdata::AppConfigDataSpanBuilder;
pub use dynamodb::DynamodbSpanBuilder;
pub use firehose::FirehoseSpanBuilder;
pub use s3::S3SpanBuilder;
pub use sagemaker_runtime::SageMakerRuntimeSpanBuilder;
pub use secretsmanager::SecretsManagerSpanBuilder;
pub use sns::SnsSpanBuilder;
pub use sqs::SqsSpanBuilder;
pub use ssm::SsmSpanBuilder;

verus! {

/// Messaging operation type: the well-known values of the
/// `messaging.operation.type` attribute.
#[derive(Debug, Clone, Copy, PartialEq, Eq, Structural)]
pub enum MessagingOperationKind {
    /// A message is created; such spans refer to a single message.
    Create,
    /// One or more messages are processed by a consumer.
    Process,
    /// One or more messages are requested by a consumer (pull-based).
    Receive,
    /// One or more messages are provided for sending to an intermediary.
    Send,
    /// One or more messages are settled.
    Settle,
    /// Control operations over messaging resources.
    Control,
}

impl MessagingOperationKind {
    /// The attribute value of the operation kind.
    pub open spec fn spec_as_str(self) -> Seq<char> {
        match self {
            MessagingOperationKind::Create => "create"@,
            MessagingOperationKind::Process => "process"@,
            MessagingOperationKind::Receive => "receive"@,
            MessagingOperationKind::Send => "send"@,
            MessagingOperationKind::Settle => "settle"@,
            MessagingOperationKind::Control => "control"@,
        }
    }

    /// The span kind of an operation of this kind: messages created, sent or
    /// settled are produced, those received or processed are consumed, and
    /// control operations are client calls.
    pub open spec fn spec_span_kind(self) -> SpanKind {
        match self {
            MessagingOperationKind::Create => SpanKind::Producer,
            MessagingOperationKind::Process => SpanKind::Consumer,
            MessagingOperationKind::Receive => SpanKind::Consumer,
            MessagingOperationKind::Settle => SpanKind::Producer,
            MessagingOperationKind::Send => SpanKind::Producer,
            MessagingOperationKind::Control => SpanKind::Client,
        }
    }

    /// The string representation of the operation kind.
    pub fn as_str(&self) -> (r: &'static str)
        ensures
            r@ == self.spec_as_str(),
    {
        match self {
            MessagingOperationKind::Create => "create",
            MessagingOperationKind::Process => "process",
            MessagingOperationKind::Receive => "receive",
            MessagingOperationKind::Send => "send",
            MessagingOperationKind::Settle => "settle",
            MessagingOperationKind::Control => "control",
        }
    }

    /// The span kind of an operation of this kind.
    pub fn span_kind(&self) -> (r: SpanKind)
        ensures
            r == self.spec_span_kind(),
    {
        match self {
            MessagingOperationKind::Create => SpanKind::Producer,
            MessagingOperationKind::Process => SpanKind::Consumer,
            MessagingOperationKind::Receive => SpanKind::Consumer,
            MessagingOperationKind::Settle => SpanKind::Producer,
            MessagingOperationKind::Send => SpanKind::Producer,
            MessagingOperationKind::Control => SpanKind::Client,
        }
    }
}

/// The `messaging.operation.type` values are the OpenTelemetry names of the
/// operation kinds, `create`, `process`, `receive`, `send`, `settle` and
/// `control`, one per kind, so that distinct kinds are never reported alike.
pub proof fn lemma_messaging_operation_names(a: MessagingOperationKind, b: MessagingOperationKind)
    ensures
        a == MessagingOperationKind::Create ==> a.spec_as_str() == "create"@,
        a == MessagingOperationKind::Process ==> a.spec_as_str() == "process"@,
        a == MessagingOperationKind::Receive ==> a.spec_as_str() == "receive"@,
        a == MessagingOperationKind::Send ==> a.spec_as_str() == "send"@,
        a == MessagingOperationKind::Settle ==> a.spec_as_str() == "settle"@,
        a == MessagingOperationKind::Control ==> a.spec_as_str() == "control"@,
        a != b ==> a.spec_as_str() != b.spec_as_str(),
{
    reveal_strlit("create");
    reveal_strlit("process");
    reveal_strlit("receive");
    reveal_strlit("send");
    reveal_strlit("settle");
    reveal_strlit("control");
    if a != b {
        let x = a.spec_as_str();
        let y = b.spec_as_str();
        if x.len() == y.len() {
            assert(x[0] != y[0] || x[1] != y[1]);
        }
    }
}

/// The span kind of a messaging operation: creating, sending and settling
/// messages produce them; receiving and processing consume them; control
/// operations are client calls.
pub proof fn lemma_messaging_span_kinds(k: MessagingOperationKind)
    ensures
        (k == MessagingOperationKind::Create || k == MessagingOperationKind::Send || k
            == MessagingOperationKind::Settle) <==> k.spec_span_kind() == SpanKind::Producer,
        (k == MessagingOperationKind::Receive || k == MessagingOperationKind::Process) <==> k.spec_span_kind()
            == SpanKind::Consumer,
        k == MessagingOperationKind::Control <==> k.spec_span_kind() == SpanKind::Client,
{
}

impl From<MessagingOperationKind> for SpanKind {
    fn from(kind: MessagingOperationKind) -> (r: SpanKind) {
        kind.span_kind()
    }
}

impl vstd::std_specs::convert::FromSpecImpl<MessagingOperationKind> for SpanKind {
    open spec fn obeys_from_spec() -> bool {
        true
    }

    open spec fn from_spec(kind: MessagingOperationKind) -> SpanKind {
        kind.spec_span_kind()
    }
}

} // verus!
