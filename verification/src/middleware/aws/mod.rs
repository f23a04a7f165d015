//! Span builders for AWS SDK operations.
use vstd::prelude::*;

use crate::semconv;
use crate::span::{
    attrs_view, concat, opt_attr, opt_str, owned, push_opt, str_attr, Attribute, AttributeModel,
    SpanKind, SpanStatus, StatusModel,
};

pub mod instrumentation;
pub mod operation;
pub mod operations;
pub mod target;

pub use operations::{
    AppConfigDataSpanBuilder, DynamodbSpanBuilder, FirehoseSpanBuilder, MessagingOperationKind,
    S3SpanBuilder, SageMakerRuntimeSpanBuilder, SecretsManagerSpanBuilder, SnsSpanBuilder,
    SqsSpanBuilder, SsmSpanBuilder,
};

verus! {

/// Builder for creating AWS-specific OpenTelemetry spans: the span's kind,
/// name and attributes, and the parent context it will be started under.
pub struct AwsSpanBuilder<'a> {
    /// The span kind.
    pub kind: SpanKind,
    /// The span name, `<service>.<method>`.
    pub name: String,
    /// The span attributes, in order.
    pub attributes: Vec<Attribute>,
    /// The parent context; the current span's context when `None`.
    pub context: Option<&'a opentelemetry::Context>,
}

/// The attributes that every AWS span starts with.
pub open spec fn rpc_attrs(service: Seq<char>, method: Seq<char>) -> Seq<AttributeModel> {
    seq![
        str_attr(semconv::RPC_METHOD@, method),
        str_attr(semconv::RPC_SYSTEM@, "aws-api"@),
        str_attr(semconv::RPC_SERVICE@, service),
    ]
}

impl<'a> AwsSpanBuilder<'a> {
    /// `self` is a fresh builder for a span of `kind` named after `service`
    /// and `method`, whose attributes are the common ones followed by `custom`.
    pub open spec fn built(
        self,
        kind: SpanKind,
        service: Seq<char>,
        method: Seq<char>,
        custom: Seq<AttributeModel>,
    ) -> bool {
        &&& self.kind == kind
        &&& self.name@ == service + "."@ + method
        &&& attrs_view(self.attributes@) == rpc_attrs(service, method) + custom
        &&& self.context is None
    }

    /// The span name `service.method`, its kind, and the attributes
    /// `rpc.method`, `rpc.system` (`aws-api`) and `rpc.service` followed by
    /// `custom_attributes`; no parent context.
    pub fn new(
        span_kind: SpanKind,
        service: &str,
        method: &str,
        custom_attributes: Vec<Attribute>,
    ) -> (r: Self)
        ensures
            r.kind == span_kind,
            r.name@ == service@ + "."@ + method@,
            attrs_view(r.attributes@) == rpc_attrs(service@, method@) + attrs_view(
                custom_attributes@,
            ),
            r.context is None,
    {
        let a = concat(service, ".");
        let name = concat(a.as_str(), method);
        let mut attributes: Vec<Attribute> = Vec::new();
        attributes.push(Attribute::string(semconv::RPC_METHOD, owned(method)));
        attributes.push(Attribute::string(semconv::RPC_SYSTEM, owned("aws-api")));
        attributes.push(Attribute::string(semconv::RPC_SERVICE, owned(service)));
        let ghost head = attrs_view(attributes@);
        assert(head =~= rpc_attrs(service@, method@));
        let mut custom = custom_attributes;
        let ghost cv = attrs_view(custom@);
        attributes.append(&mut custom);
        assert(attrs_view(attributes@) =~= head + cv);
        Self { kind: span_kind, name, attributes, context: None }
    }

    /// A client span builder: an outbound call to an AWS service.
    pub fn client(service: &str, method: &str, attributes: Vec<Attribute>) -> (r: Self)
        ensures
            r.kind == SpanKind::Client,
            r.name@ == service@ + "."@ + method@,
            attrs_view(r.attributes@) == rpc_attrs(service@, method@) + attrs_view(attributes@),
            r.context is None,
    {
        Self::new(SpanKind::Client, service, method, attributes)
    }

    /// A producer span builder: sending messages or data to an AWS service.
    pub fn producer(service: &str, method: &str, attributes: Vec<Attribute>) -> (r: Self)
        ensures
            r.kind == SpanKind::Producer,
            r.name@ == service@ + "."@ + method@,
            attrs_view(r.attributes@) == rpc_attrs(service@, method@) + attrs_view(attributes@),
            r.context is None,
    {
        Self::new(SpanKind::Producer, service, method, attributes)
    }

    /// A consumer span builder: receiving messages or data from an AWS service.
    pub fn consumer(service: &str, method: &str, attributes: Vec<Attribute>) -> (r: Self)
        ensures
            r.kind == SpanKind::Consumer,
            r.name@ == service@ + "."@ + method@,
            attrs_view(r.attributes@) == rpc_attrs(service@, method@) + attrs_view(attributes@),
            r.context is None,
    {
        Self::new(SpanKind::Consumer, service, method, attributes)
    }

    /// Adds `iter` after the attributes already set.
    pub fn attributes(self, iter: Vec<Attribute>) -> (r: Self)
        ensures
            r.kind == self.kind,
            r.name == self.name,
            attrs_view(r.attributes@) == attrs_view(self.attributes@) + attrs_view(iter@),
            r.context == self.context,
    {
        let mut s = self;
        let mut iter = iter;
        let ghost before = attrs_view(s.attributes@);
        let ghost added = attrs_view(iter@);
        s.attributes.append(&mut iter);
        assert(attrs_view(s.attributes@) =~= before + added);
        s
    }

    /// Adds `extra` after the attributes of a fresh builder: the result is
    /// the same builder with `extra` after its custom attributes.
    pub fn extend(self, extra: Vec<Attribute>) -> (r: Self)
        ensures
            forall|kind: SpanKind, service: Seq<char>, method: Seq<char>, custom: Seq<AttributeModel>|
                #[trigger] self.built(kind, service, method, custom) ==> r.built(
                    kind,
                    service,
                    method,
                    custom + attrs_view(extra@),
                ),
    {
        let ghost e = attrs_view(extra@);
        let r = self.attributes(extra);
        assert forall|kind: SpanKind, service: Seq<char>, method: Seq<char>, custom: Seq<AttributeModel>|
            #[trigger] self.built(kind, service, method, custom) implies r.built(
            kind,
            service,
            method,
            custom + e,
        ) by {
            assert(rpc_attrs(service, method) + custom + e =~= rpc_attrs(service, method) + (custom
                + e));
        }
        r
    }

    /// Adds one attribute after those already set.
    pub fn attribute(self, attribute: Attribute) -> (r: Self)
        ensures
            r.kind == self.kind,
            r.name == self.name,
            attrs_view(r.attributes@) == attrs_view(self.attributes@).push(attribute@),
            r.context == self.context,
    {
        let mut v: Vec<Attribute> = Vec::new();
        let ghost a = attribute@;
        v.push(attribute);
        assert(attrs_view(v@) =~= seq![a]);
        let r = self.attributes(v);
        assert(attrs_view(self.attributes@) + seq![a] =~= attrs_view(self.attributes@).push(a));
        r
    }

    /// Sets the parent context for the span.
    pub fn context(self, context: &'a opentelemetry::Context) -> (r: Self)
        ensures
            r.kind == self.kind,
            r.name == self.name,
            r.attributes == self.attributes,
            r.context == Some(context),
    {
        let mut s = self;
        s.context = Some(context);
        s
    }

    /// Sets or clears the parent context for the span.
    pub fn set_context(self, context: Option<&'a opentelemetry::Context>) -> (r: Self)
        ensures
            r.kind == self.kind,
            r.name == self.name,
            r.attributes == self.attributes,
            r.context == context,
    {
        let mut s = self;
        s.context = context;
        s
    }
}

/// What ending the span of an AWS call records: its status, the attributes
/// added at the end, and whether the error is recorded on the span.
pub struct AwsSpanEnd {
    /// The status the span ends with.
    pub status: SpanStatus,
    /// The attributes added when the span ends.
    pub attributes: Vec<Attribute>,
    /// Whether the call's error is recorded as an event of the span.
    pub record_error: bool,
}

/// How the span of an AWS call ends, from the call's outcome (`Ok`, or `Err`
/// with the error's text) and the request id that the response or the error
/// carries: the status is `Ok` on success and an error with the error's text
/// otherwise, in which case the error is recorded; the request id, when
/// there is one, is added as `aws.request_id`.
pub fn aws_span_end(outcome: &Result<(), String>, request_id: Option<&str>) -> (r: AwsSpanEnd)
    ensures
        match outcome {
            Ok(()) => r.status@ == StatusModel::Success && !r.record_error,
            Err(message) => r.status@ == StatusModel::Error(message@) && r.record_error,
        },
        attrs_view(r.attributes@) == opt_attr(semconv::AWS_REQUEST_ID@, opt_str(request_id)),
{
    let (status, record_error) = match outcome {
        Ok(()) => (SpanStatus::Success, false),
        Err(message) => (SpanStatus::Error(message.clone()), true),
    };
    let mut attributes: Vec<Attribute> = Vec::new();
    push_opt(&mut attributes, semconv::AWS_REQUEST_ID, request_id);
    assert(attrs_view(attributes@) =~= opt_attr(semconv::AWS_REQUEST_ID@, opt_str(request_id)));
    AwsSpanEnd { status, attributes, record_error }
}

} // verus!
