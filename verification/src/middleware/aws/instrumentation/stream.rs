//! The life cycle of the span around a paginated AWS stream.
//!
//! The span is started when the stream is first polled and ended when the
//! stream is exhausted or yields an error; after that the stream yields
//! nothing more. The driver polls the inner stream and reports what it
//! returned; the decisions are taken here.
use vstd::prelude::*;

use crate::middleware::aws::AwsSpanBuilder;
use crate::span::{attrs_view, bool_attr, Attribute};

verus! {

/// The state of an instrumented stream.
#[derive(Debug, Clone, Copy, PartialEq, Eq, Structural)]
pub enum StreamStateKind {
    /// Not polled yet; the span is not started.
    Waiting,
    /// Polled at least once; the span is running.
    Flowing,
    /// Exhausted or failed; the span has ended.
    Finished,
}

/// What to do when the instrumented stream is polled.
#[derive(Debug, Clone, Copy, PartialEq, Eq, Structural)]
pub enum PollPlan {
    /// Start the span, then poll the inner stream and report its result with
    /// `finish_poll`.
    StartAndPoll,
    /// Poll the inner stream and report its result with `finish_poll`.
    Poll,
    /// Yield the end of the stream without polling the inner one.
    Done,
}

/// What the inner stream returned when polled.
#[derive(Debug, Clone, Copy, PartialEq, Eq, Structural)]
pub enum PollResult {
    /// Not ready yet.
    Pending,
    /// A successful item.
    Item,
    /// An error item.
    Failed,
    /// The end of the stream.
    Exhausted,
}

/// What to do with the span after a poll.
#[derive(Debug, Clone, Copy, PartialEq, Eq, Structural)]
pub enum StreamAction {
    /// Nothing.
    Keep,
    /// End the span successfully.
    EndOk,
    /// End the span with the error that the stream yielded.
    EndErr,
}

/// What a poll of a running span makes of the inner stream's `result`: the
/// end of the stream or an error finishes it and ends the span.
pub open spec fn flowing_step(result: PollResult) -> (StreamStateKind, bool) {
    match result {
        PollResult::Exhausted | PollResult::Failed => (StreamStateKind::Finished, true),
        _ => (StreamStateKind::Flowing, false),
    }
}

/// One poll of the instrumented stream, from `kind`, where the inner stream
/// (when polled) returned `result`: the next state, whether the span is
/// started, and whether it is ended. The first poll starts the span and then
/// treats the inner stream's result as every later poll does.
pub open spec fn poll_step(kind: StreamStateKind, result: PollResult) -> (StreamStateKind, bool, bool) {
    match kind {
        StreamStateKind::Waiting => (flowing_step(result).0, true, flowing_step(result).1),
        StreamStateKind::Flowing => (flowing_step(result).0, false, flowing_step(result).1),
        StreamStateKind::Finished => (StreamStateKind::Finished, false, false),
    }
}

/// The state after the polls `results` from `kind`, with the number of span
/// starts and span ends they caused.
pub open spec fn poll_run(kind: StreamStateKind, results: Seq<PollResult>) -> (StreamStateKind, nat, nat)
    decreases results.len(),
{
    if results.len() == 0 {
        (kind, 0, 0)
    } else {
        let (k1, s1, e1) = poll_step(kind, results[0]);
        let (k, s, e) = poll_run(k1, results.drop_first());
        (k, s + (if s1 { 1nat } else { 0nat }), e + (if e1 { 1nat } else { 0nat }))
    }
}

/// The starts and ends already counted in a state reached from `Waiting`.
pub open spec fn counted(kind: StreamStateKind) -> (nat, nat) {
    match kind {
        StreamStateKind::Waiting => (0, 0),
        StreamStateKind::Flowing => (1, 0),
        StreamStateKind::Finished => (1, 1),
    }
}

proof fn lemma_poll_run_counts(kind: StreamStateKind, results: Seq<PollResult>)
    ensures
        ({
            let (k, s, e) = poll_run(kind, results);
            counted(kind).0 + s == counted(k).0 && counted(kind).1 + e == counted(k).1
        }),
    decreases results.len(),
{
    if results.len() > 0 {
        let (k1, s1, e1) = poll_step(kind, results[0]);
        lemma_poll_run_counts(k1, results.drop_first());
    }
}

/// Whatever the inner stream returns, the span of an instrumented stream is
/// started at most once and ended at most once, and only after it started;
/// once the stream has finished it stays finished.
pub proof fn lemma_stream_span_once(results: Seq<PollResult>)
    ensures
        poll_run(StreamStateKind::Waiting, results).1 <= 1,
        poll_run(StreamStateKind::Waiting, results).2 <= poll_run(StreamStateKind::Waiting, results).1,
        poll_run(StreamStateKind::Finished, results) == (StreamStateKind::Finished, 0nat, 0nat),
    decreases results.len(),
{
    lemma_poll_run_counts(StreamStateKind::Waiting, results);
    lemma_finished_stays(results);
}

proof fn lemma_finished_stays(results: Seq<PollResult>)
    ensures
        poll_run(StreamStateKind::Finished, results) == (StreamStateKind::Finished, 0nat, 0nat),
    decreases results.len(),
{
    if results.len() > 0 {
        lemma_finished_stays(results.drop_first());
    }
}

/// The state of the span around an instrumented stream.
pub struct StreamState {
    /// Where the stream is in its life cycle.
    pub kind: StreamStateKind,
}

impl StreamState {
    /// A stream that has not been polled yet.
    pub fn new() -> (r: Self)
        ensures
            r.kind == StreamStateKind::Waiting,
    {
        StreamState { kind: StreamStateKind::Waiting }
    }

    /// Decides what a poll does: a waiting stream starts its span, then polls
    /// the inner stream and reports the result; a flowing stream polls the
    /// inner stream and reports the result; a finished stream yields its end.
    pub fn begin_poll(&mut self) -> (plan: PollPlan)
        ensures
            old(self).kind == StreamStateKind::Waiting ==> plan == PollPlan::StartAndPoll
                && final(self).kind == StreamStateKind::Flowing,
            old(self).kind == StreamStateKind::Flowing ==> plan == PollPlan::Poll && final(self).kind
                == StreamStateKind::Flowing,
            old(self).kind == StreamStateKind::Finished ==> plan == PollPlan::Done && final(self).kind
                == StreamStateKind::Finished,
    {
        match self.kind {
            StreamStateKind::Waiting => {
                self.kind = StreamStateKind::Flowing;
                PollPlan::StartAndPoll
            },
            StreamStateKind::Flowing => PollPlan::Poll,
            StreamStateKind::Finished => PollPlan::Done,
        }
    }

    /// Takes what the inner stream returned to a `StartAndPoll` or `Poll`
    /// plan: its end or an error ends the span and finishes the stream;
    /// anything else keeps it flowing.
    pub fn finish_poll(&mut self, result: PollResult) -> (action: StreamAction)
        requires
            old(self).kind == StreamStateKind::Flowing,
        ensures
            final(self).kind == flowing_step(result).0,
            final(self).kind == poll_step(old(self).kind, result).0,
            result == PollResult::Exhausted ==> action == StreamAction::EndOk,
            result == PollResult::Failed ==> action == StreamAction::EndErr,
            (result == PollResult::Pending || result == PollResult::Item) ==> action
                == StreamAction::Keep,
    {
        match result {
            PollResult::Exhausted => {
                self.kind = StreamStateKind::Finished;
                StreamAction::EndOk
            },
            PollResult::Failed => {
                self.kind = StreamStateKind::Finished;
                StreamAction::EndErr
            },
            _ => StreamAction::Keep,
        }
    }
}

/// The span builder of an instrumented stream: `span` marked with
/// `aws.pagination_stream = true`.
pub fn stream_span<'a>(span: AwsSpanBuilder<'a>) -> (r: AwsSpanBuilder<'a>)
    ensures
        r.kind == span.kind,
        r.name == span.name,
        attrs_view(r.attributes@) == attrs_view(span.attributes@).push(
            bool_attr("aws.pagination_stream"@, true),
        ),
        r.context == span.context,
{
    span.attribute(Attribute::bool("aws.pagination_stream", true))
}

} // verus!
