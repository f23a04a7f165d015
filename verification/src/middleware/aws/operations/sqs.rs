//! Span builders for Amazon SQS operations.
use vstd::prelude::*;

use crate::middleware::aws::AwsSpanBuilder;
use crate::semconv;
use crate::span::{attrs_view, opt_str, str_attr, owned, Attribute, AttributeModel, SpanKind};
use super::MessagingOperationKind;
use super::sns::sns_attrs;
use crate::text::{lemma_find_char, spec_find_char, spec_split_char, split_char};

verus! {

/// Namespace of the span builders for Amazon SQS operations.
pub struct SqsSpanBuilder(());

/// The path of `s` read as a URI by `http::Uri`'s parser, or `None` where
/// that parser refuses `s`.
pub uninterp spec fn spec_uri_path(s: Seq<char>) -> Option<Seq<char>>;

/// Parses `s` with `<http::Uri as FromStr>::from_str` and returns
/// `Uri::path` of the result, or `None` where parsing fails. The contract
/// names the outcome `spec_uri_path(s)`, a function of `s` alone; what the
/// parser accepts and which path it finds is left to `http`.
#[verifier::external_body]
fn uri_path(s: &str) -> (r: Option<String>)
    ensures
        match r {
            Some(p) => spec_uri_path(s@) == Some(p@),
            None => spec_uri_path(s@) is None,
        },
{
    match s.parse::<http::Uri>() {
        Ok(uri) => Some(uri.path().to_owned()),
        Err(_) => None,
    }
}

/// The part of `path` after its last `/` (all of it where there is none).
pub open spec fn spec_last_segment(path: Seq<char>) -> Seq<char> {
    spec_split_char(path, '/').last()
}

/// Splitting never yields an empty list of pieces.
proof fn lemma_split_nonempty(s: Seq<char>, c: char)
    ensures
        spec_split_char(s, c).len() > 0,
    decreases s.len(),
{
    lemma_find_char(s, c);
    if let Some(i) = spec_find_char(s, c) {
        lemma_split_nonempty(s.skip(i + 1 as int), c);
    }
}

/// The destination attributes of a queue: for a queue given by a URL that
/// parses, the last segment of its path as the destination name and the URL
/// itself; otherwise the queue as given as the destination name.
pub open spec fn queue_attrs(queue: Option<Seq<char>>) -> Seq<AttributeModel> {
    match queue {
        None => Seq::empty(),
        Some(q) => match spec_uri_path(q) {
            Some(p) => seq![
                str_attr(semconv::MESSAGING_DESTINATION_NAME@, spec_last_segment(p)),
                str_attr("aws.sqs.queue.url"@, q),
            ],
            None => seq![str_attr(semconv::MESSAGING_DESTINATION_NAME@, q)],
        },
    }
}

/// The attributes of an SQS operation of `kind` on `queue`.
pub open spec fn sqs_attrs(kind: MessagingOperationKind, queue: Option<Seq<char>>) -> Seq<AttributeModel> {
    seq![
        str_attr(semconv::MESSAGING_SYSTEM@, "aws_sqs"@),
        str_attr(semconv::MESSAGING_OPERATION_TYPE@, kind.spec_as_str()),
    ] + queue_attrs(queue)
}

impl<'a> AwsSpanBuilder<'a> {
    /// A span builder for the SQS operation `method` of `operation_kind`, on
    /// the queue `queue` (a URL or a name) where one is given; its span kind
    /// follows the operation kind.
    pub fn sqs(operation_kind: MessagingOperationKind, method: &str, queue: Option<&str>) -> (r: Self)
        ensures
            r.built(
                operation_kind.spec_span_kind(),
                "SQS"@,
                method@,
                sqs_attrs(operation_kind, opt_str(queue)),
            ),
    {
        let mut attributes: Vec<Attribute> = Vec::new();
        attributes.push(Attribute::string(semconv::MESSAGING_SYSTEM, owned("aws_sqs")));
        attributes.push(Attribute::string(semconv::MESSAGING_OPERATION_TYPE, owned(operation_kind.as_str())));
        let ghost head = attrs_view(attributes@);
        match queue {
            Some(q) => {
                match uri_path(q) {
                    Some(path) => {
                        let parts = split_char(path.as_str(), '/');
                        proof {
                            lemma_split_nonempty(path@, '/');
                        }
                        let last = parts[parts.len() - 1];
                        assert(last@ == spec_last_segment(path@));
                        attributes.push(Attribute::string(semconv::MESSAGING_DESTINATION_NAME, owned(last)));
                        attributes.push(Attribute::string("aws.sqs.queue.url", owned(q)));
                    },
                    None => {
                        attributes.push(Attribute::string(semconv::MESSAGING_DESTINATION_NAME, owned(q)));
                    },
                }
            },
            None => {},
        }
        assert(attrs_view(attributes@) =~= sqs_attrs(operation_kind, opt_str(queue)));
        Self::new(operation_kind.span_kind(), "SQS", method, attributes)
    }
}

impl SqsSpanBuilder {
    /// A span builder for the SQS `ReceiveMessage` operation on the queue `queue`; it is recorded as an SNS operation.
    pub fn receive_message<'a>(queue: &str) -> (r: AwsSpanBuilder<'a>)
        ensures
            r.built(MessagingOperationKind::Receive.spec_span_kind(), "SNS"@, "ReceiveMessage"@, sns_attrs(MessagingOperationKind::Receive, Some(queue@))),
    {
        AwsSpanBuilder::sns(MessagingOperationKind::Receive, "ReceiveMessage", Some(queue))
    }

    /// A span builder for the SQS `SendMessage` operation on the queue `queue`; it is recorded as an SNS operation.
    pub fn send_message<'a>(queue: &str) -> (r: AwsSpanBuilder<'a>)
        ensures
            r.built(MessagingOperationKind::Send.spec_span_kind(), "SNS"@, "SendMessage"@, sns_attrs(MessagingOperationKind::Send, Some(queue@))),
    {
        AwsSpanBuilder::sns(MessagingOperationKind::Send, "SendMessage", Some(queue))
    }

    /// A span builder for the SQS `SendMessageBatch` operation on the queue `queue`; it is recorded as an SNS operation.
    pub fn send_message_batch<'a>(queue: &str) -> (r: AwsSpanBuilder<'a>)
        ensures
            r.built(MessagingOperationKind::Send.spec_span_kind(), "SNS"@, "SendMessageBatch"@, sns_attrs(MessagingOperationKind::Send, Some(queue@))),
    {
        AwsSpanBuilder::sns(MessagingOperationKind::Send, "SendMessageBatch", Some(queue))
    }

    /// A span builder for the SQS `AddPermission` operation on the queue `queue`.
    pub fn add_permission<'a>(queue: &str) -> (r: AwsSpanBuilder<'a>)
        ensures
            r.built(SpanKind::Client, "SQS"@, "AddPermission"@, sqs_attrs(MessagingOperationKind::Control, Some(queue@))),
    {
        AwsSpanBuilder::sqs(MessagingOperationKind::Control, "AddPermission", Some(queue))
    }

    /// A span builder for the SQS `ChangeMessageVisibility` operation on the queue `queue`.
    pub fn change_message_visibility<'a>(queue: &str) -> (r: AwsSpanBuilder<'a>)
        ensures
            r.built(SpanKind::Client, "SQS"@, "ChangeMessageVisibility"@, sqs_attrs(MessagingOperationKind::Control, Some(queue@))),
    {
        AwsSpanBuilder::sqs(MessagingOperationKind::Control, "ChangeMessageVisibility", Some(queue))
    }

    /// A span builder for the SQS `ChangeMessageVisibilityBatch` operation on the queue `queue`.
    pub fn change_message_visibility_batch<'a>(queue: &str) -> (r: AwsSpanBuilder<'a>)
        ensures
            r.built(SpanKind::Client, "SQS"@, "ChangeMessageVisibilityBatch"@, sqs_attrs(MessagingOperationKind::Control, Some(queue@))),
    {
        AwsSpanBuilder::sqs(MessagingOperationKind::Control, "ChangeMessageVisibilityBatch", Some(queue))
    }

    /// A span builder for the SQS `CreateQueue` operation on the queue `queue`.
    pub fn create_queue<'a>(queue: &str) -> (r: AwsSpanBuilder<'a>)
        ensures
            r.built(SpanKind::Client, "SQS"@, "CreateQueue"@, sqs_attrs(MessagingOperationKind::Control, Some(queue@))),
    {
        AwsSpanBuilder::sqs(MessagingOperationKind::Control, "CreateQueue", Some(queue))
    }

    /// A span builder for the SQS `DeleteMessage` operation on the queue `queue`.
    pub fn delete_message<'a>(queue: &str) -> (r: AwsSpanBuilder<'a>)
        ensures
            r.built(SpanKind::Client, "SQS"@, "DeleteMessage"@, sqs_attrs(MessagingOperationKind::Control, Some(queue@))),
    {
        AwsSpanBuilder::sqs(MessagingOperationKind::Control, "DeleteMessage", Some(queue))
    }

    /// A span builder for the SQS `DeleteMessageBatch` operation on the queue `queue`.
    pub fn delete_message_batch<'a>(queue: &str) -> (r: AwsSpanBuilder<'a>)
        ensures
            r.built(SpanKind::Client, "SQS"@, "DeleteMessageBatch"@, sqs_attrs(MessagingOperationKind::Control, Some(queue@))),
    {
        AwsSpanBuilder::sqs(MessagingOperationKind::Control, "DeleteMessageBatch", Some(queue))
    }

    /// A span builder for the SQS `DeleteQueue` operation on the queue `queue`.
    pub fn delete_queue<'a>(queue: &str) -> (r: AwsSpanBuilder<'a>)
        ensures
            r.built(SpanKind::Client, "SQS"@, "DeleteQueue"@, sqs_attrs(MessagingOperationKind::Control, Some(queue@))),
    {
        AwsSpanBuilder::sqs(MessagingOperationKind::Control, "DeleteQueue", Some(queue))
    }

    /// A span builder for the SQS `GetQueueAttributes` operation on the queue `queue`.
    pub fn get_queue_attributes<'a>(queue: &str) -> (r: AwsSpanBuilder<'a>)
        ensures
            r.built(SpanKind::Client, "SQS"@, "GetQueueAttributes"@, sqs_attrs(MessagingOperationKind::Control, Some(queue@))),
    {
        AwsSpanBuilder::sqs(MessagingOperationKind::Control, "GetQueueAttributes", Some(queue))
    }

    /// A span builder for the SQS `GetQueueUrl` operation on the queue `queue`.
    pub fn get_queue_url<'a>(queue: &str) -> (r: AwsSpanBuilder<'a>)
        ensures
            r.built(SpanKind::Client, "SQS"@, "GetQueueUrl"@, sqs_attrs(MessagingOperationKind::Control, Some(queue@))),
    {
        AwsSpanBuilder::sqs(MessagingOperationKind::Control, "GetQueueUrl", Some(queue))
    }

    /// A span builder for the SQS `ListDeadLetterSourceQueues` operation on the queue `queue`.
    pub fn list_dead_letter_source_queues<'a>(queue: &str) -> (r: AwsSpanBuilder<'a>)
        ensures
            r.built(SpanKind::Client, "SQS"@, "ListDeadLetterSourceQueues"@, sqs_attrs(MessagingOperationKind::Control, Some(queue@))),
    {
        AwsSpanBuilder::sqs(MessagingOperationKind::Control, "ListDeadLetterSourceQueues", Some(queue))
    }

    /// A span builder for the SQS `ListQueueTags` operation on the queue `queue`.
    pub fn list_queue_tags<'a>(queue: &str) -> (r: AwsSpanBuilder<'a>)
        ensures
            r.built(SpanKind::Client, "SQS"@, "ListQueueTags"@, sqs_attrs(MessagingOperationKind::Control, Some(queue@))),
    {
        AwsSpanBuilder::sqs(MessagingOperationKind::Control, "ListQueueTags", Some(queue))
    }

    /// A span builder for the SQS `PurgeQueue` operation on the queue `queue`.
    pub fn purge_queue<'a>(queue: &str) -> (r: AwsSpanBuilder<'a>)
        ensures
            r.built(SpanKind::Client, "SQS"@, "PurgeQueue"@, sqs_attrs(MessagingOperationKind::Control, Some(queue@))),
    {
        AwsSpanBuilder::sqs(MessagingOperationKind::Control, "PurgeQueue", Some(queue))
    }

    /// A span builder for the SQS `RemovePermission` operation on the queue `queue`.
    pub fn remove_permission<'a>(queue: &str) -> (r: AwsSpanBuilder<'a>)
        ensures
            r.built(SpanKind::Client, "SQS"@, "RemovePermission"@, sqs_attrs(MessagingOperationKind::Control, Some(queue@))),
    {
        AwsSpanBuilder::sqs(MessagingOperationKind::Control, "RemovePermission", Some(queue))
    }

    /// A span builder for the SQS `SetQueueAttributes` operation on the queue `queue`.
    pub fn set_queue_attributes<'a>(queue: &str) -> (r: AwsSpanBuilder<'a>)
        ensures
            r.built(SpanKind::Client, "SQS"@, "SetQueueAttributes"@, sqs_attrs(MessagingOperationKind::Control, Some(queue@))),
    {
        AwsSpanBuilder::sqs(MessagingOperationKind::Control, "SetQueueAttributes", Some(queue))
    }

    /// A span builder for the SQS `TagQueue` operation on the queue `queue`.
    pub fn tag_queue<'a>(queue: &str) -> (r: AwsSpanBuilder<'a>)
        ensures
            r.built(SpanKind::Client, "SQS"@, "TagQueue"@, sqs_attrs(MessagingOperationKind::Control, Some(queue@))),
    {
        AwsSpanBuilder::sqs(MessagingOperationKind::Control, "TagQueue", Some(queue))
    }

    /// A span builder for the SQS `UntagQueue` operation on the queue `queue`.
    pub fn untag_queue<'a>(queue: &str) -> (r: AwsSpanBuilder<'a>)
        ensures
            r.built(SpanKind::Client, "SQS"@, "UntagQueue"@, sqs_attrs(MessagingOperationKind::Control, Some(queue@))),
    {
        AwsSpanBuilder::sqs(MessagingOperationKind::Control, "UntagQueue", Some(queue))
    }

    /// A span builder for the SQS `CancelMessageMoveTask` operation, which names no queue.
    pub fn cancel_message_move_task<'a>() -> (r: AwsSpanBuilder<'a>)
        ensures
            r.built(SpanKind::Client, "SQS"@, "CancelMessageMoveTask"@, sqs_attrs(MessagingOperationKind::Control, None)),
    {
        AwsSpanBuilder::sqs(MessagingOperationKind::Control, "CancelMessageMoveTask", None)
    }

    /// A span builder for the SQS `ListMessageMoveTasks` operation, which names no queue.
    pub fn list_message_move_tasks<'a>() -> (r: AwsSpanBuilder<'a>)
        ensures
            r.built(SpanKind::Client, "SQS"@, "ListMessageMoveTasks"@, sqs_attrs(MessagingOperationKind::Control, None)),
    {
        AwsSpanBuilder::sqs(MessagingOperationKind::Control, "ListMessageMoveTasks", None)
    }

    /// A span builder for the SQS `ListQueues` operation, which names no queue.
    pub fn list_queues<'a>() -> (r: AwsSpanBuilder<'a>)
        ensures
            r.built(SpanKind::Client, "SQS"@, "ListQueues"@, sqs_attrs(MessagingOperationKind::Control, None)),
    {
        AwsSpanBuilder::sqs(MessagingOperationKind::Control, "ListQueues", None)
    }

    /// A span builder for the SQS `StartMessageMoveTask` operation, which names no queue.
    pub fn start_message_move_task<'a>() -> (r: AwsSpanBuilder<'a>)
        ensures
            r.built(SpanKind::Client, "SQS"@, "StartMessageMoveTask"@, sqs_attrs(MessagingOperationKind::Control, None)),
    {
        AwsSpanBuilder::sqs(MessagingOperationKind::Control, "StartMessageMoveTask", None)
    }
}

} // verus!
