//! Tracing of AWS Lambda invocations: which invocation is a cold start, and
//! the span each kind of trigger records for an invocation.
use vstd::prelude::*;

use crate::middleware::aws::operations::MessagingOperationKind;
use crate::semconv;
use crate::span::{
    attrs_view, bool_attr, opt_attr, opt_string, owned, push_opt_string, str_attr, Attribute,
    AttributeModel, SpanKind,
};

verus! {

/// Whether the next invocation of a Lambda service is its first.
pub struct Coldstart {
    coldstart: bool,
}

impl Coldstart {
    /// Whether the next invocation is the first.
    pub closed spec fn is_first(self) -> bool {
        self.coldstart
    }

    /// A service that has not been invoked yet.
    pub fn new() -> (r: Self)
        ensures
            r.is_first(),
    {
        Coldstart { coldstart: true }
    }

    /// Records an invocation, and tells whether it was a cold start: the
    /// first invocation is, and every later one is not.
    pub fn invoke(&mut self) -> (r: bool)
        ensures
            r == old(self).is_first(),
            !final(self).is_first(),
    {
        let r = self.coldstart;
        self.coldstart = false;
        r
    }
}

/// The number of cold starts among `n` invocations of a service in state
/// `first`.
pub open spec fn coldstarts(first: bool, n: nat) -> nat
    decreases n,
{
    if n == 0 {
        0
    } else {
        (if first { 1nat } else { 0nat }) + coldstarts(false, (n - 1) as nat)
    }
}

/// Of any number of invocations of a fresh service, exactly the first is a
/// cold start: one cold start for one or more invocations, none after.
pub proof fn lemma_one_coldstart(n: nat)
    ensures
        coldstarts(true, n) == (if n == 0 { 0nat } else { 1nat }),
        coldstarts(false, n) == 0,
    decreases n,
{
    if n > 0 {
        lemma_one_coldstart((n - 1) as nat);
    }
}

/// What the span of an invocation records of it.
pub struct Invocation {
    /// The name of the function.
    pub function_name: String,
    /// The ARN the function was invoked with.
    pub invoked_function_arn: String,
    /// The request id of the invocation.
    pub request_id: String,
}

/// The span of an invocation: its kind, its name and its attributes.
pub struct LambdaSpan {
    /// The span kind.
    pub kind: SpanKind,
    /// The span name: the function name.
    pub name: String,
    /// The span attributes, in order.
    pub attributes: Vec<Attribute>,
}

/// The attributes that every invocation span starts with: the trigger, the
/// invoked ARN, the invocation id and whether it is a cold start.
pub open spec fn invocation_attrs(trigger: Seq<char>, inv: Invocation, coldstart: bool) -> Seq<AttributeModel> {
    seq![
        str_attr(semconv::FAAS_TRIGGER@, trigger),
        str_attr(semconv::AWS_LAMBDA_INVOKED_ARN@, inv.invoked_function_arn@),
        str_attr(semconv::FAAS_INVOCATION_ID@, inv.request_id@),
        bool_attr(semconv::FAAS_COLDSTART@, coldstart),
    ]
}

/// The span of an invocation with trigger `trigger`, kind `kind`, and the
/// attributes `extra` after the common ones.
fn invocation_span(
    trigger: &str,
    kind: SpanKind,
    inv: &Invocation,
    coldstart: bool,
    extra: Vec<Attribute>,
) -> (r: LambdaSpan)
    ensures
        r.kind == kind,
        r.name@ == inv.function_name@,
        attrs_view(r.attributes@) == invocation_attrs(trigger@, *inv, coldstart) + attrs_view(extra@),
{
    let mut attributes: Vec<Attribute> = Vec::new();
    attributes.push(Attribute::string(semconv::FAAS_TRIGGER, owned(trigger)));
    attributes.push(Attribute::string(semconv::AWS_LAMBDA_INVOKED_ARN, inv.invoked_function_arn.clone()));
    attributes.push(Attribute::string(semconv::FAAS_INVOCATION_ID, inv.request_id.clone()));
    attributes.push(Attribute::bool(semconv::FAAS_COLDSTART, coldstart));
    let ghost head = attrs_view(attributes@);
    assert(head =~= invocation_attrs(trigger@, *inv, coldstart));
    let ghost tail = attrs_view(extra@);
    let mut extra = extra;
    attributes.append(&mut extra);
    assert(attrs_view(attributes@) =~= head + tail);
    LambdaSpan { kind, name: inv.function_name.clone(), attributes }
}

/// The span that a Lambda service records for each invocation.
pub trait LambdaServiceContext {
    /// The span of the invocation `inv`, a cold start or not.
    fn create_span(&self, inv: &Invocation, coldstart: bool) -> LambdaSpan;
}

/// A function with a trigger of no particular kind.
pub struct GenericLambdaService {}

/// A function triggered by HTTP requests.
pub struct HttpLambdaService {}

/// A function triggered by messages.
pub struct PubSubLambdaService {
    /// The messaging system.
    pub messaging_system: String,
    /// The source of the messages, where known.
    pub messaging_destination_name: Option<String>,
}

/// A function triggered by changes in a data source.
pub struct DatasourceLambdaService {
    /// The collection that changed.
    pub faas_document_collection: String,
    /// The kind of change.
    pub faas_document_operation: String,
    /// The document that changed, where known.
    pub faas_document_name: Option<String>,
}

/// A function triggered on a schedule.
pub struct TimerLambdaService {
    /// The schedule, where known.
    pub faas_cron: Option<String>,
}

impl PubSubLambdaService {
    /// A function fed by the SQS queue `queue_arn`, where known.
    pub fn sqs(queue_arn: Option<String>) -> (r: Self)
        ensures
            r.messaging_system@ == "aws_sqs"@,
            r.messaging_destination_name == queue_arn,
    {
        PubSubLambdaService { messaging_system: owned("aws_sqs"), messaging_destination_name: queue_arn }
    }

    /// A function fed by the SNS topic `topic_arn`, where known.
    pub fn sns(topic_arn: Option<String>) -> (r: Self)
        ensures
            r.messaging_system@ == "aws_sns"@,
            r.messaging_destination_name == topic_arn,
    {
        PubSubLambdaService { messaging_system: owned("aws_sns"), messaging_destination_name: topic_arn }
    }
}

impl LambdaServiceContext for GenericLambdaService {
    fn create_span(&self, inv: &Invocation, coldstart: bool) -> (r: LambdaSpan)
        ensures
            r.kind == SpanKind::Server,
            r.name@ == inv.function_name@,
            attrs_view(r.attributes@) == invocation_attrs("other"@, *inv, coldstart),
    {
        let r = invocation_span("other", SpanKind::Server, inv, coldstart, Vec::new());
        assert(attrs_view(r.attributes@) =~= invocation_attrs("other"@, *inv, coldstart));
        r
    }
}

impl LambdaServiceContext for HttpLambdaService {
    fn create_span(&self, inv: &Invocation, coldstart: bool) -> (r: LambdaSpan)
        ensures
            r.kind == SpanKind::Server,
            r.name@ == inv.function_name@,
            attrs_view(r.attributes@) == invocation_attrs("http"@, *inv, coldstart),
    {
        let r = invocation_span("http", SpanKind::Server, inv, coldstart, Vec::new());
        assert(attrs_view(r.attributes@) =~= invocation_attrs("http"@, *inv, coldstart));
        r
    }
}

/// The attributes of a message-triggered invocation after the common ones.
pub open spec fn pubsub_attrs(s: PubSubLambdaService) -> Seq<AttributeModel> {
    seq![str_attr(semconv::MESSAGING_SYSTEM@, s.messaging_system@)] + opt_attr(
        semconv::MESSAGING_DESTINATION_NAME@,
        opt_string(s.messaging_destination_name),
    ) + seq![
        str_attr(
            semconv::MESSAGING_OPERATION_TYPE@,
            MessagingOperationKind::Process.spec_as_str(),
        ),
    ]
}

impl LambdaServiceContext for PubSubLambdaService {
    fn create_span(&self, inv: &Invocation, coldstart: bool) -> (r: LambdaSpan)
        ensures
            r.kind == SpanKind::Consumer,
            r.name@ == inv.function_name@,
            attrs_view(r.attributes@) == invocation_attrs("pubsub"@, *inv, coldstart) + pubsub_attrs(
                *self,
            ),
    {
        let mut extra: Vec<Attribute> = Vec::new();
        extra.push(Attribute::string(semconv::MESSAGING_SYSTEM, self.messaging_system.clone()));
        push_opt_string(&mut extra, semconv::MESSAGING_DESTINATION_NAME, &self.messaging_destination_name);
        let ghost mid = attrs_view(extra@);
        let op = MessagingOperationKind::Process;
        let value = op.as_str();
        extra.push(
            Attribute::string(
                semconv::MESSAGING_OPERATION_TYPE,
                owned(value),
            ),
        );
        assert(attrs_view(extra@) =~= mid.push(str_attr(semconv::MESSAGING_OPERATION_TYPE@, value@)));
        assert(attrs_view(extra@) =~= pubsub_attrs(*self));
        invocation_span("pubsub", SpanKind::Consumer, inv, coldstart, extra)
    }
}

/// The attributes of a data-source-triggered invocation after the common ones.
pub open spec fn datasource_attrs(s: DatasourceLambdaService) -> Seq<AttributeModel> {
    seq![
        str_attr(semconv::FAAS_DOCUMENT_COLLECTION@, s.faas_document_collection@),
        str_attr(semconv::FAAS_DOCUMENT_OPERATION@, s.faas_document_operation@),
    ] + opt_attr(semconv::FAAS_DOCUMENT_NAME@, opt_string(s.faas_document_name))
}

impl LambdaServiceContext for DatasourceLambdaService {
    fn create_span(&self, inv: &Invocation, coldstart: bool) -> (r: LambdaSpan)
        ensures
            r.kind == SpanKind::Consumer,
            r.name@ == inv.function_name@,
            attrs_view(r.attributes@) == invocation_attrs("datasource"@, *inv, coldstart)
                + datasource_attrs(*self),
    {
        let mut extra: Vec<Attribute> = Vec::new();
        extra.push(Attribute::string(semconv::FAAS_DOCUMENT_COLLECTION, self.faas_document_collection.clone()));
        extra.push(Attribute::string(semconv::FAAS_DOCUMENT_OPERATION, self.faas_document_operation.clone()));
        push_opt_string(&mut extra, semconv::FAAS_DOCUMENT_NAME, &self.faas_document_name);
        assert(attrs_view(extra@) =~= datasource_attrs(*self));
        invocation_span("datasource", SpanKind::Consumer, inv, coldstart, extra)
    }
}

/// The attributes of a scheduled invocation after the common ones.
pub open spec fn timer_attrs(s: TimerLambdaService) -> Seq<AttributeModel> {
    opt_attr(semconv::FAAS_CRON@, opt_string(s.faas_cron))
}

impl LambdaServiceContext for TimerLambdaService {
    fn create_span(&self, inv: &Invocation, coldstart: bool) -> (r: LambdaSpan)
        ensures
            r.kind == SpanKind::Consumer,
            r.name@ == inv.function_name@,
            attrs_view(r.attributes@) == invocation_attrs("timer"@, *inv, coldstart) + timer_attrs(
                *self,
            ),
    {
        let mut extra: Vec<Attribute> = Vec::new();
        push_opt_string(&mut extra, semconv::FAAS_CRON, &self.faas_cron);
        assert(attrs_view(extra@) =~= timer_attrs(*self));
        invocation_span("timer", SpanKind::Consumer, inv, coldstart, extra)
    }
}

} // verus!
