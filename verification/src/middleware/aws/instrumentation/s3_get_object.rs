//! The span of an S3 `GetObject` call that also covers the transfer of the
//! object's body, either collected whole or streamed chunk by chunk.
use vstd::prelude::*;

use crate::middleware::aws::instrumentation::stream::StreamAction;
use crate::semconv;
use crate::span::{
    attrs_view, opt_attr, opt_str, owned, push_opt, str_attr, Attribute, AttributeModel,
    SpanStatus, StatusModel,
};

verus! {

/// How the body of the object is transferred.
#[derive(Debug, Clone, Copy, PartialEq, Eq, Structural)]
pub enum BodyMode {
    /// The whole body is buffered.
    Collect,
    /// The body is yielded chunk by chunk.
    Stream,
}

/// The value of `aws.s3.body.mode` for a mode.
pub open spec fn spec_body_mode(mode: BodyMode) -> Seq<char> {
    match mode {
        BodyMode::Collect => "collect"@,
        BodyMode::Stream => "stream"@,
    }
}

/// The attribute that records the transfer mode, set when the span starts.
pub fn body_mode_attribute(mode: BodyMode) -> (r: Attribute)
    ensures
        r@ == str_attr("aws.s3.body.mode"@, spec_body_mode(mode)),
{
    match mode {
        BodyMode::Collect => Attribute::string("aws.s3.body.mode", owned("collect")),
        BodyMode::Stream => Attribute::string("aws.s3.body.mode", owned("stream")),
    }
}

/// The attributes set once the response has arrived: the request id where
/// the response has one, then the attributes read from the response.
pub fn response_attributes(request_id: Option<&str>, output: Vec<Attribute>) -> (r: Vec<Attribute>)
    ensures
        attrs_view(r@) == opt_attr(semconv::AWS_REQUEST_ID@, opt_str(request_id)) + attrs_view(output@),
{
    let mut r: Vec<Attribute> = Vec::new();
    push_opt(&mut r, semconv::AWS_REQUEST_ID, request_id);
    let ghost head = attrs_view(r@);
    let ghost tail = attrs_view(output@);
    let mut output = output;
    r.append(&mut output);
    assert(attrs_view(r@) =~= head + tail);
    r
}

/// How the span ends once the body has been collected (`Ok`) or its
/// transfer failed (`Err` with the error's text): successfully, or with the
/// error recorded and an error status.
pub fn collect_end(outcome: &Result<(), String>) -> (r: (SpanStatus, bool))
    ensures
        match outcome {
            Ok(()) => r.0@ == StatusModel::Success && !r.1,
            Err(message) => r.0@ == StatusModel::Error(message@) && r.1,
        },
{
    match outcome {
        Ok(()) => (SpanStatus::Success, false),
        Err(message) => (SpanStatus::Error(message.clone()), true),
    }
}

/// Which step of a collecting `GetObject` call failed, as its error reports.
#[derive(Debug, Clone, Copy, PartialEq, Eq, Structural)]
pub enum CollectFailure {
    /// Sending the request failed; the span ended with the send result.
    Send,
    /// Collecting the body failed; the span ended with the body error.
    Body,
}

/// What a collecting `GetObject` call does once the request was sent: after
/// a failed send it ends the span with the send result and fails with a send
/// error, without touching a body.
pub open spec fn spec_collect_after_send(sent: bool) -> Option<CollectFailure> {
    if sent {
        None
    } else {
        Some(CollectFailure::Send)
    }
}

/// What a collecting `GetObject` call does once the request was sent
/// (`sent`): `None` when it goes on to record the response attributes and
/// collect the body, `Some(Send)` when the send failed and the call fails
/// with a send error.
pub fn collect_after_send(sent: bool) -> (r: Option<CollectFailure>)
    ensures
        r == spec_collect_after_send(sent),
{
    if sent {
        None
    } else {
        Some(CollectFailure::Send)
    }
}

/// How a collecting `GetObject` call ends after its body was collected
/// (`Ok`) or failed to transfer (`Err` with the error's text): the span's
/// status, whether the error is recorded, and the failure the call returns.
pub fn collect_body_end(outcome: &Result<(), String>) -> (r: (SpanStatus, bool, Option<CollectFailure>))
    ensures
        match outcome {
            Ok(()) => r.0@ == StatusModel::Success && !r.1 && r.2 is None,
            Err(message) => r.0@ == StatusModel::Error(message@) && r.1 && r.2 == Some(
                CollectFailure::Body,
            ),
        },
{
    let (status, record) = collect_end(outcome);
    let failure = match outcome {
        Ok(()) => None,
        Err(_) => Some(CollectFailure::Body),
    };
    (status, record, failure)
}

/// What a chunk poll of a streamed body returned.
#[derive(Debug, Clone, Copy, PartialEq, Eq, Structural)]
pub enum ChunkResult {
    /// Not ready yet.
    Pending,
    /// A chunk of the body.
    Chunk,
    /// An error in the transfer.
    Failed,
    /// The end of the body.
    Exhausted,
}

/// The span around a streamed body: open until the body ends or fails.
pub struct BodyStreamState {
    /// Whether the span is still open.
    pub open: bool,
}

impl BodyStreamState {
    /// A body whose span is open.
    pub fn new() -> (r: Self)
        ensures
            r.open,
    {
        BodyStreamState { open: true }
    }

    /// Takes what a poll of the body returned: while the span is open, the
    /// end of the body ends it successfully and an error ends it with the
    /// error; once closed, nothing more is done with it.
    pub fn on_poll(&mut self, result: ChunkResult) -> (action: StreamAction)
        ensures
            !old(self).open ==> action == StreamAction::Keep && !final(self).open,
            old(self).open && result == ChunkResult::Exhausted ==> action == StreamAction::EndOk
                && !final(self).open,
            old(self).open && result == ChunkResult::Failed ==> action == StreamAction::EndErr
                && !final(self).open,
            old(self).open && (result == ChunkResult::Pending || result == ChunkResult::Chunk)
                ==> action == StreamAction::Keep && final(self).open,
    {
        if !self.open {
            return StreamAction::Keep;
        }
        match result {
            ChunkResult::Exhausted => {
                self.open = false;
                StreamAction::EndOk
            },
            ChunkResult::Failed => {
                self.open = false;
                StreamAction::EndErr
            },
            _ => StreamAction::Keep,
        }
    }
}

/// The number of times the span of a streamed body is ended over the polls
/// `results`, starting open or closed.
pub open spec fn body_ends(open: bool, results: Seq<ChunkResult>) -> nat
    decreases results.len(),
{
    if results.len() == 0 {
        0
    } else {
        let ends_now = open && (results[0] == ChunkResult::Exhausted || results[0] == ChunkResult::Failed);
        (if ends_now { 1nat } else { 0nat }) + body_ends(open && !ends_now, results.drop_first())
    }
}

/// However the body's polls go, its span is ended at most once, and never
/// once it is closed.
pub proof fn lemma_body_span_ends_once(results: Seq<ChunkResult>)
    ensures
        body_ends(true, results) <= 1,
        body_ends(false, results) == 0,
    decreases results.len(),
{
    if results.len() > 0 {
        lemma_body_span_ends_once(results.drop_first());
    }
}

} // verus!
