use std::cell::Cell;
use std::rc::Rc;

use telemetry_rust::future::{InstrumentedFuture, InstrumentedFutureContext};
use telemetry_rust::middleware::aws::instrumentation::stream::{
    stream_span, PollPlan, PollResult, StreamAction, StreamState, StreamStateKind,
};
use telemetry_rust::middleware::aws::AwsSpanBuilder;
use telemetry_rust::middleware::lambda::{
    Coldstart, DatasourceLambdaService, GenericLambdaService, Invocation, LambdaServiceContext,
    PubSubLambdaService, TimerLambdaService,
};
use telemetry_rust::span::{AttributeValue, SpanKind};

struct Counter(Rc<Cell<usize>>, i32);

impl InstrumentedFutureContext<i32> for Counter {
    fn on_result(self, result: &i32) {
        assert_eq!(*result, self.1);
        self.0.set(self.0.get() + 1);
    }
}

#[test]
fn test_hooked_future() {
    let calls = Rc::new(Cell::new(0));
    let mut outer = InstrumentedFuture::new((), Counter(calls.clone(), 42));
    let mut inner = InstrumentedFuture::new((), Counter(calls.clone(), 42));
    assert!(!inner.is_complete());
    assert_eq!(calls.get(), 0);
    inner.complete().on_result(&42);
    assert_eq!(calls.get(), 1);
    outer.complete().on_result(&42);
    assert_eq!(calls.get(), 2);
    assert!(inner.is_complete() && outer.is_complete());
}

#[test]
fn stream_span_starts_once_and_ends_once() {
    let mut state = StreamState::new();
    assert_eq!(state.begin_poll(), PollPlan::StartAndPoll);
    assert_eq!(state.kind, StreamStateKind::Flowing);
    assert_eq!(state.finish_poll(PollResult::Pending), StreamAction::Keep);
    assert_eq!(state.begin_poll(), PollPlan::Poll);
    assert_eq!(state.finish_poll(PollResult::Item), StreamAction::Keep);
    assert_eq!(state.begin_poll(), PollPlan::Poll);
    assert_eq!(state.finish_poll(PollResult::Failed), StreamAction::EndErr);
    assert_eq!(state.kind, StreamStateKind::Finished);
    assert_eq!(state.begin_poll(), PollPlan::Done);
    assert_eq!(state.begin_poll(), PollPlan::Done);
    let mut other = StreamState::new();
    other.begin_poll();
    assert_eq!(other.finish_poll(PollResult::Item), StreamAction::Keep);
    other.begin_poll();
    assert_eq!(other.finish_poll(PollResult::Exhausted), StreamAction::EndOk);
}

#[test]
fn stream_first_item_error_ends_span() {
    let mut state = StreamState::new();
    assert_eq!(state.begin_poll(), PollPlan::StartAndPoll);
    assert_eq!(state.finish_poll(PollResult::Failed), StreamAction::EndErr);
    assert_eq!(state.kind, StreamStateKind::Finished);
    assert_eq!(state.begin_poll(), PollPlan::Done);
}

#[test]
fn stream_span_is_marked() {
    let b = stream_span(AwsSpanBuilder::client("S3", "ListObjectsV2", vec![]));
    let last = b.attributes.last().unwrap();
    assert_eq!(last.key, "aws.pagination_stream");
    assert!(matches!(last.value, AttributeValue::Bool(true)));
}

#[test]
fn only_the_first_invocation_is_a_cold_start() {
    let mut c = Coldstart::new();
    assert!(c.invoke());
    assert!(!c.invoke());
    assert!(!c.invoke());
}

#[test]
fn lambda_spans() {
    let inv = Invocation {
        function_name: "fn".to_string(),
        invoked_function_arn: "arn:fn".to_string(),
        request_id: "req".to_string(),
    };
    let g = GenericLambdaService {}.create_span(&inv, true);
    assert_eq!(g.kind, SpanKind::Server);
    assert_eq!(g.name, "fn");
    let keys: Vec<&str> = g.attributes.iter().map(|a| a.key.as_str()).collect();
    assert_eq!(keys, vec!["faas.trigger", "aws.lambda.invoked_arn", "faas.invocation_id", "faas.coldstart"]);
    let p = PubSubLambdaService::sqs(Some("arn:queue".to_string())).create_span(&inv, false);
    assert_eq!(p.kind, SpanKind::Consumer);
    let keys: Vec<&str> = p.attributes.iter().map(|a| a.key.as_str()).collect();
    assert_eq!(
        keys,
        vec![
            "faas.trigger",
            "aws.lambda.invoked_arn",
            "faas.invocation_id",
            "faas.coldstart",
            "messaging.system",
            "messaging.destination.name",
            "messaging.operation.type",
        ]
    );
    let t = TimerLambdaService { faas_cron: None }.create_span(&inv, false);
    assert_eq!(t.attributes.len(), 4);
    let d = DatasourceLambdaService {
        faas_document_collection: "c".to_string(),
        faas_document_operation: "insert".to_string(),
        faas_document_name: Some("doc".to_string()),
    }
    .create_span(&inv, false);
    assert_eq!(d.attributes.len(), 7);
}

use telemetry_rust::middleware::aws::instrumentation::s3_get_object::{
    body_mode_attribute, collect_after_send, collect_body_end, collect_end, response_attributes,
    BodyMode, BodyStreamState, ChunkResult, CollectFailure,
};
use telemetry_rust::span::{Attribute, SpanStatus};

#[test]
fn get_object_body_transfer() {
    let mode = body_mode_attribute(BodyMode::Stream);
    assert_eq!(mode.key, "aws.s3.body.mode");
    assert!(matches!(mode.value, AttributeValue::String(ref s) if s == "stream"));
    let attrs = response_attributes(Some("req"), vec![Attribute::i64("aws.s3.object.size", 3)]);
    let keys: Vec<&str> = attrs.iter().map(|a| a.key.as_str()).collect();
    assert_eq!(keys, vec!["aws.request_id", "aws.s3.object.size"]);
    let (status, record) = collect_end(&Err("reset".to_string()));
    assert!(matches!(status, SpanStatus::Error(ref m) if m == "reset"));
    assert!(record);
    let (ok, record) = collect_end(&Ok(()));
    assert!(matches!(ok, SpanStatus::Success));
    assert!(!record);
}

#[test]
fn collect_fails_at_the_step_that_failed() {
    assert_eq!(collect_after_send(false), Some(CollectFailure::Send));
    assert_eq!(collect_after_send(true), None);
    let (status, record, failure) = collect_body_end(&Err("reset".to_string()));
    assert!(matches!(status, SpanStatus::Error(ref m) if m == "reset"));
    assert!(record);
    assert_eq!(failure, Some(CollectFailure::Body));
    let (ok, record, failure) = collect_body_end(&Ok(()));
    assert!(matches!(ok, SpanStatus::Success));
    assert!(!record && failure.is_none());
}

#[test]
fn completing_hands_back_the_waiting_context() {
    let calls = Rc::new(Cell::new(0));
    let mut f = InstrumentedFuture::new((), Counter(calls.clone(), 7));
    let context = f.complete();
    assert!(f.is_complete());
    assert_eq!(context.1, 7);
    assert_eq!(calls.get(), 0);
    context.on_result(&7);
    assert_eq!(calls.get(), 1);
}

#[test]
fn streamed_body_span_ends_once() {
    let mut body = BodyStreamState::new();
    assert_eq!(body.on_poll(ChunkResult::Chunk), StreamAction::Keep);
    assert_eq!(body.on_poll(ChunkResult::Failed), StreamAction::EndErr);
    assert_eq!(body.on_poll(ChunkResult::Exhausted), StreamAction::Keep);
    assert!(!body.open);
}
