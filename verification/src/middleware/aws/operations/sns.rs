//! Span builders for Amazon SNS operations.
use vstd::prelude::*;

use crate::middleware::aws::AwsSpanBuilder;
use crate::semconv;
use crate::span::{attrs_view, opt_attr, opt_str, push_opt, str_attr, owned, Attribute, AttributeModel, SpanKind};
use super::MessagingOperationKind;

verus! {

/// Namespace of the span builders for Amazon SNS operations.
pub struct SnsSpanBuilder(());

/// The attributes of a SNS operation of `kind` on `topic_arn`: the
/// messaging system, the operation type, and the destination name
/// when there is one.
pub open spec fn sns_attrs(kind: MessagingOperationKind, topic_arn: Option<Seq<char>>) -> Seq<AttributeModel> {
    seq![
        str_attr(semconv::MESSAGING_SYSTEM@, "aws_sns"@),
        str_attr(semconv::MESSAGING_OPERATION_TYPE@, kind.spec_as_str()),
    ] + opt_attr(semconv::MESSAGING_DESTINATION_NAME@, topic_arn)
}

impl<'a> AwsSpanBuilder<'a> {
    /// A span builder for the SNS operation `method` of `operation_kind`,
    /// on the topic `topic_arn` where one is given; its span kind follows the operation kind.
    pub fn sns(
        operation_kind: MessagingOperationKind,
        method: &str,
        topic_arn: Option<&str>,
    ) -> (r: Self)
        ensures
            r.built(
                operation_kind.spec_span_kind(),
                "SNS"@,
                method@,
                sns_attrs(operation_kind, opt_str(topic_arn)),
            ),
    {
        let mut attributes: Vec<Attribute> = Vec::new();
        attributes.push(Attribute::string(semconv::MESSAGING_SYSTEM, owned("aws_sns")));
        attributes.push(Attribute::string(semconv::MESSAGING_OPERATION_TYPE, owned(operation_kind.as_str())));
        let ghost head = attrs_view(attributes@);
        push_opt(&mut attributes, semconv::MESSAGING_DESTINATION_NAME, topic_arn);
        assert(attrs_view(attributes@) =~= sns_attrs(operation_kind, opt_str(topic_arn)));
        Self::new(operation_kind.span_kind(), "SNS", method, attributes)
    }
}

impl SnsSpanBuilder {
    /// A span builder for the SNS `Publish` operation on the topic `topic_arn`.
    pub fn publish<'a>(topic_arn: &str) -> (r: AwsSpanBuilder<'a>)
        ensures
            r.built(MessagingOperationKind::Create.spec_span_kind(), "SNS"@, "Publish"@, sns_attrs(MessagingOperationKind::Create, Some(topic_arn@))),
    {
        AwsSpanBuilder::sns(MessagingOperationKind::Create, "Publish", Some(topic_arn))
    }

    /// A span builder for the SNS `PublishBatch` operation on the topic `topic_arn`.
    pub fn publish_batch<'a>(topic_arn: &str) -> (r: AwsSpanBuilder<'a>)
        ensures
            r.built(MessagingOperationKind::Send.spec_span_kind(), "SNS"@, "PublishBatch"@, sns_attrs(MessagingOperationKind::Send, Some(topic_arn@))),
    {
        AwsSpanBuilder::sns(MessagingOperationKind::Send, "PublishBatch", Some(topic_arn))
    }

    /// A span builder for the SNS `CheckIfPhoneNumberIsOptedOut` operation, which names no topic.
    pub fn check_if_phone_number_is_opted_out<'a>() -> (r: AwsSpanBuilder<'a>)
        ensures
            r.built(SpanKind::Client, "SNS"@, "CheckIfPhoneNumberIsOptedOut"@, sns_attrs(MessagingOperationKind::Control, None)),
    {
        AwsSpanBuilder::sns(MessagingOperationKind::Control, "CheckIfPhoneNumberIsOptedOut", None)
    }

    /// A span builder for the SNS `CreatePlatformApplication` operation, which names no topic.
    pub fn create_platform_application<'a>() -> (r: AwsSpanBuilder<'a>)
        ensures
            r.built(SpanKind::Client, "SNS"@, "CreatePlatformApplication"@, sns_attrs(MessagingOperationKind::Control, None)),
    {
        AwsSpanBuilder::sns(MessagingOperationKind::Control, "CreatePlatformApplication", None)
    }

    /// A span builder for the SNS `CreatePlatformEndpoint` operation, which names no topic.
    pub fn create_platform_endpoint<'a>() -> (r: AwsSpanBuilder<'a>)
        ensures
            r.built(SpanKind::Client, "SNS"@, "CreatePlatformEndpoint"@, sns_attrs(MessagingOperationKind::Control, None)),
    {
        AwsSpanBuilder::sns(MessagingOperationKind::Control, "CreatePlatformEndpoint", None)
    }

    /// A span builder for the SNS `CreateSmsSandboxPhoneNumber` operation, which names no topic.
    pub fn create_sms_sandbox_phone_number<'a>() -> (r: AwsSpanBuilder<'a>)
        ensures
            r.built(SpanKind::Client, "SNS"@, "CreateSmsSandboxPhoneNumber"@, sns_attrs(MessagingOperationKind::Control, None)),
    {
        AwsSpanBuilder::sns(MessagingOperationKind::Control, "CreateSmsSandboxPhoneNumber", None)
    }

    /// A span builder for the SNS `CreateTopic` operation, which names no topic.
    pub fn create_topic<'a>() -> (r: AwsSpanBuilder<'a>)
        ensures
            r.built(SpanKind::Client, "SNS"@, "CreateTopic"@, sns_attrs(MessagingOperationKind::Control, None)),
    {
        AwsSpanBuilder::sns(MessagingOperationKind::Control, "CreateTopic", None)
    }

    /// A span builder for the SNS `DeleteEndpoint` operation, which names no topic.
    pub fn delete_endpoint<'a>() -> (r: AwsSpanBuilder<'a>)
        ensures
            r.built(SpanKind::Client, "SNS"@, "DeleteEndpoint"@, sns_attrs(MessagingOperationKind::Control, None)),
    {
        AwsSpanBuilder::sns(MessagingOperationKind::Control, "DeleteEndpoint", None)
    }

    /// A span builder for the SNS `DeletePlatformApplication` operation, which names no topic.
    pub fn delete_platform_application<'a>() -> (r: AwsSpanBuilder<'a>)
        ensures
            r.built(SpanKind::Client, "SNS"@, "DeletePlatformApplication"@, sns_attrs(MessagingOperationKind::Control, None)),
    {
        AwsSpanBuilder::sns(MessagingOperationKind::Control, "DeletePlatformApplication", None)
    }

    /// A span builder for the SNS `DeleteSmsSandboxPhoneNumber` operation, which names no topic.
    pub fn delete_sms_sandbox_phone_number<'a>() -> (r: AwsSpanBuilder<'a>)
        ensures
            r.built(SpanKind::Client, "SNS"@, "DeleteSmsSandboxPhoneNumber"@, sns_attrs(MessagingOperationKind::Control, None)),
    {
        AwsSpanBuilder::sns(MessagingOperationKind::Control, "DeleteSmsSandboxPhoneNumber", None)
    }

    /// A span builder for the SNS `GetDataProtectionPolicy` operation, which names no topic.
    pub fn get_data_protection_policy<'a>() -> (r: AwsSpanBuilder<'a>)
        ensures
            r.built(SpanKind::Client, "SNS"@, "GetDataProtectionPolicy"@, sns_attrs(MessagingOperationKind::Control, None)),
    {
        AwsSpanBuilder::sns(MessagingOperationKind::Control, "GetDataProtectionPolicy", None)
    }

    /// A span builder for the SNS `GetEndpointAttributes` operation, which names no topic.
    pub fn get_endpoint_attributes<'a>() -> (r: AwsSpanBuilder<'a>)
        ensures
            r.built(SpanKind::Client, "SNS"@, "GetEndpointAttributes"@, sns_attrs(MessagingOperationKind::Control, None)),
    {
        AwsSpanBuilder::sns(MessagingOperationKind::Control, "GetEndpointAttributes", None)
    }

    /// A span builder for the SNS `GetPlatformApplicationAttributes` operation, which names no topic.
    pub fn get_platform_application_attributes<'a>() -> (r: AwsSpanBuilder<'a>)
        ensures
            r.built(SpanKind::Client, "SNS"@, "GetPlatformApplicationAttributes"@, sns_attrs(MessagingOperationKind::Control, None)),
    {
        AwsSpanBuilder::sns(MessagingOperationKind::Control, "GetPlatformApplicationAttributes", None)
    }

    /// A span builder for the SNS `GetSmsAttributes` operation, which names no topic.
    pub fn get_sms_attributes<'a>() -> (r: AwsSpanBuilder<'a>)
        ensures
            r.built(SpanKind::Client, "SNS"@, "GetSmsAttributes"@, sns_attrs(MessagingOperationKind::Control, None)),
    {
        AwsSpanBuilder::sns(MessagingOperationKind::Control, "GetSmsAttributes", None)
    }

    /// A span builder for the SNS `GetSmsSandboxAccountStatus` operation, which names no topic.
    pub fn get_sms_sandbox_account_status<'a>() -> (r: AwsSpanBuilder<'a>)
        ensures
            r.built(SpanKind::Client, "SNS"@, "GetSmsSandboxAccountStatus"@, sns_attrs(MessagingOperationKind::Control, None)),
    {
        AwsSpanBuilder::sns(MessagingOperationKind::Control, "GetSmsSandboxAccountStatus", None)
    }

    /// A span builder for the SNS `GetSubscriptionAttributes` operation, which names no topic.
    pub fn get_subscription_attributes<'a>() -> (r: AwsSpanBuilder<'a>)
        ensures
            r.built(SpanKind::Client, "SNS"@, "GetSubscriptionAttributes"@, sns_attrs(MessagingOperationKind::Control, None)),
    {
        AwsSpanBuilder::sns(MessagingOperationKind::Control, "GetSubscriptionAttributes", None)
    }

    /// A span builder for the SNS `ListEndpointsByPlatformApplication` operation, which names no topic.
    pub fn list_endpoints_by_platform_application<'a>() -> (r: AwsSpanBuilder<'a>)
        ensures
            r.built(SpanKind::Client, "SNS"@, "ListEndpointsByPlatformApplication"@, sns_attrs(MessagingOperationKind::Control, None)),
    {
        AwsSpanBuilder::sns(MessagingOperationKind::Control, "ListEndpointsByPlatformApplication", None)
    }

    /// A span builder for the SNS `ListOriginationNumbers` operation, which names no topic.
    pub fn list_origination_numbers<'a>() -> (r: AwsSpanBuilder<'a>)
        ensures
            r.built(SpanKind::Client, "SNS"@, "ListOriginationNumbers"@, sns_attrs(MessagingOperationKind::Control, None)),
    {
        AwsSpanBuilder::sns(MessagingOperationKind::Control, "ListOriginationNumbers", None)
    }

    /// A span builder for the SNS `ListPhoneNumbersOptedOut` operation, which names no topic.
    pub fn list_phone_numbers_opted_out<'a>() -> (r: AwsSpanBuilder<'a>)
        ensures
            r.built(SpanKind::Client, "SNS"@, "ListPhoneNumbersOptedOut"@, sns_attrs(MessagingOperationKind::Control, None)),
    {
        AwsSpanBuilder::sns(MessagingOperationKind::Control, "ListPhoneNumbersOptedOut", None)
    }

    /// A span builder for the SNS `ListPlatformApplications` operation, which names no topic.
    pub fn list_platform_applications<'a>() -> (r: AwsSpanBuilder<'a>)
        ensures
            r.built(SpanKind::Client, "SNS"@, "ListPlatformApplications"@, sns_attrs(MessagingOperationKind::Control, None)),
    {
        AwsSpanBuilder::sns(MessagingOperationKind::Control, "ListPlatformApplications", None)
    }

    /// A span builder for the SNS `ListSmsSandboxPhoneNumbers` operation, which names no topic.
    pub fn list_sms_sandbox_phone_numbers<'a>() -> (r: AwsSpanBuilder<'a>)
        ensures
            r.built(SpanKind::Client, "SNS"@, "ListSmsSandboxPhoneNumbers"@, sns_attrs(MessagingOperationKind::Control, None)),
    {
        AwsSpanBuilder::sns(MessagingOperationKind::Control, "ListSmsSandboxPhoneNumbers", None)
    }

    /// A span builder for the SNS `ListSubscriptions` operation, which names no topic.
    pub fn list_subscriptions<'a>() -> (r: AwsSpanBuilder<'a>)
        ensures
            r.built(SpanKind::Client, "SNS"@, "ListSubscriptions"@, sns_attrs(MessagingOperationKind::Control, None)),
    {
        AwsSpanBuilder::sns(MessagingOperationKind::Control, "ListSubscriptions", None)
    }

    /// A span builder for the SNS `ListTagsForResource` operation, which names no topic.
    pub fn list_tags_for_resource<'a>() -> (r: AwsSpanBuilder<'a>)
        ensures
            r.built(SpanKind::Client, "SNS"@, "ListTagsForResource"@, sns_attrs(MessagingOperationKind::Control, None)),
    {
        AwsSpanBuilder::sns(MessagingOperationKind::Control, "ListTagsForResource", None)
    }

    /// A span builder for the SNS `ListTopics` operation, which names no topic.
    pub fn list_topics<'a>() -> (r: AwsSpanBuilder<'a>)
        ensures
            r.built(SpanKind::Client, "SNS"@, "ListTopics"@, sns_attrs(MessagingOperationKind::Control, None)),
    {
        AwsSpanBuilder::sns(MessagingOperationKind::Control, "ListTopics", None)
    }

    /// A span builder for the SNS `OptInPhoneNumber` operation, which names no topic.
    pub fn opt_in_phone_number<'a>() -> (r: AwsSpanBuilder<'a>)
        ensures
            r.built(SpanKind::Client, "SNS"@, "OptInPhoneNumber"@, sns_attrs(MessagingOperationKind::Control, None)),
    {
        AwsSpanBuilder::sns(MessagingOperationKind::Control, "OptInPhoneNumber", None)
    }

    /// A span builder for the SNS `PutDataProtectionPolicy` operation, which names no topic.
    pub fn put_data_protection_policy<'a>() -> (r: AwsSpanBuilder<'a>)
        ensures
            r.built(SpanKind::Client, "SNS"@, "PutDataProtectionPolicy"@, sns_attrs(MessagingOperationKind::Control, None)),
    {
        AwsSpanBuilder::sns(MessagingOperationKind::Control, "PutDataProtectionPolicy", None)
    }

    /// A span builder for the SNS `SetEndpointAttributes` operation, which names no topic.
    pub fn set_endpoint_attributes<'a>() -> (r: AwsSpanBuilder<'a>)
        ensures
            r.built(SpanKind::Client, "SNS"@, "SetEndpointAttributes"@, sns_attrs(MessagingOperationKind::Control, None)),
    {
        AwsSpanBuilder::sns(MessagingOperationKind::Control, "SetEndpointAttributes", None)
    }

    /// A span builder for the SNS `SetPlatformApplicationAttributes` operation, which names no topic.
    pub fn set_platform_application_attributes<'a>() -> (r: AwsSpanBuilder<'a>)
        ensures
            r.built(SpanKind::Client, "SNS"@, "SetPlatformApplicationAttributes"@, sns_attrs(MessagingOperationKind::Control, None)),
    {
        AwsSpanBuilder::sns(MessagingOperationKind::Control, "SetPlatformApplicationAttributes", None)
    }

    /// A span builder for the SNS `SetSmsAttributes` operation, which names no topic.
    pub fn set_sms_attributes<'a>() -> (r: AwsSpanBuilder<'a>)
        ensures
            r.built(SpanKind::Client, "SNS"@, "SetSmsAttributes"@, sns_attrs(MessagingOperationKind::Control, None)),
    {
        AwsSpanBuilder::sns(MessagingOperationKind::Control, "SetSmsAttributes", None)
    }

    /// A span builder for the SNS `SetSubscriptionAttributes` operation, which names no topic.
    pub fn set_subscription_attributes<'a>() -> (r: AwsSpanBuilder<'a>)
        ensures
            r.built(SpanKind::Client, "SNS"@, "SetSubscriptionAttributes"@, sns_attrs(MessagingOperationKind::Control, None)),
    {
        AwsSpanBuilder::sns(MessagingOperationKind::Control, "SetSubscriptionAttributes", None)
    }

    /// A span builder for the SNS `TagResource` operation, which names no topic.
    pub fn tag_resource<'a>() -> (r: AwsSpanBuilder<'a>)
        ensures
            r.built(SpanKind::Client, "SNS"@, "TagResource"@, sns_attrs(MessagingOperationKind::Control, None)),
    {
        AwsSpanBuilder::sns(MessagingOperationKind::Control, "TagResource", None)
    }

    /// A span builder for the SNS `Unsubscribe` operation, which names no topic.
    pub fn unsubscribe<'a>() -> (r: AwsSpanBuilder<'a>)
        ensures
            r.built(SpanKind::Client, "SNS"@, "Unsubscribe"@, sns_attrs(MessagingOperationKind::Control, None)),
    {
        AwsSpanBuilder::sns(MessagingOperationKind::Control, "Unsubscribe", None)
    }

    /// A span builder for the SNS `UntagResource` operation, which names no topic.
    pub fn untag_resource<'a>() -> (r: AwsSpanBuilder<'a>)
        ensures
            r.built(SpanKind::Client, "SNS"@, "UntagResource"@, sns_attrs(MessagingOperationKind::Control, None)),
    {
        AwsSpanBuilder::sns(MessagingOperationKind::Control, "UntagResource", None)
    }

    /// A span builder for the SNS `VerifySmsSandboxPhoneNumber` operation, which names no topic.
    pub fn verify_sms_sandbox_phone_number<'a>() -> (r: AwsSpanBuilder<'a>)
        ensures
            r.built(SpanKind::Client, "SNS"@, "VerifySmsSandboxPhoneNumber"@, sns_attrs(MessagingOperationKind::Control, None)),
    {
        AwsSpanBuilder::sns(MessagingOperationKind::Control, "VerifySmsSandboxPhoneNumber", None)
    }

    /// A span builder for the SNS `AddPermission` operation on the topic `topic_arn`.
    pub fn add_permission<'a>(topic_arn: &str) -> (r: AwsSpanBuilder<'a>)
        ensures
            r.built(MessagingOperationKind::Control.spec_span_kind(), "SNS"@, "AddPermission"@, sns_attrs(MessagingOperationKind::Control, Some(topic_arn@))),
    {
        AwsSpanBuilder::sns(MessagingOperationKind::Control, "AddPermission", Some(topic_arn))
    }

    /// A span builder for the SNS `ConfirmSubscription` operation on the topic `topic_arn`.
    pub fn confirm_subscription<'a>(topic_arn: &str) -> (r: AwsSpanBuilder<'a>)
        ensures
            r.built(MessagingOperationKind::Control.spec_span_kind(), "SNS"@, "ConfirmSubscription"@, sns_attrs(MessagingOperationKind::Control, Some(topic_arn@))),
    {
        AwsSpanBuilder::sns(MessagingOperationKind::Control, "ConfirmSubscription", Some(topic_arn))
    }

    /// A span builder for the SNS `DeleteTopic` operation on the topic `topic_arn`.
    pub fn delete_topic<'a>(topic_arn: &str) -> (r: AwsSpanBuilder<'a>)
        ensures
            r.built(MessagingOperationKind::Control.spec_span_kind(), "SNS"@, "DeleteTopic"@, sns_attrs(MessagingOperationKind::Control, Some(topic_arn@))),
    {
        AwsSpanBuilder::sns(MessagingOperationKind::Control, "DeleteTopic", Some(topic_arn))
    }

    /// A span builder for the SNS `GetTopicAttributes` operation on the topic `topic_arn`.
    pub fn get_topic_attributes<'a>(topic_arn: &str) -> (r: AwsSpanBuilder<'a>)
        ensures
            r.built(MessagingOperationKind::Control.spec_span_kind(), "SNS"@, "GetTopicAttributes"@, sns_attrs(MessagingOperationKind::Control, Some(topic_arn@))),
    {
        AwsSpanBuilder::sns(MessagingOperationKind::Control, "GetTopicAttributes", Some(topic_arn))
    }

    /// A span builder for the SNS `ListSubscriptionsByTopic` operation on the topic `topic_arn`.
    pub fn list_subscriptions_by_topic<'a>(topic_arn: &str) -> (r: AwsSpanBuilder<'a>)
        ensures
            r.built(MessagingOperationKind::Control.spec_span_kind(), "SNS"@, "ListSubscriptionsByTopic"@, sns_attrs(MessagingOperationKind::Control, Some(topic_arn@))),
    {
        AwsSpanBuilder::sns(MessagingOperationKind::Control, "ListSubscriptionsByTopic", Some(topic_arn))
    }

    /// A span builder for the SNS `RemovePermission` operation on the topic `topic_arn`.
    pub fn remove_permission<'a>(topic_arn: &str) -> (r: AwsSpanBuilder<'a>)
        ensures
            r.built(MessagingOperationKind::Control.spec_span_kind(), "SNS"@, "RemovePermission"@, sns_attrs(MessagingOperationKind::Control, Some(topic_arn@))),
    {
        AwsSpanBuilder::sns(MessagingOperationKind::Control, "RemovePermission", Some(topic_arn))
    }

    /// A span builder for the SNS `SetTopicAttributes` operation on the topic `topic_arn`.
    pub fn set_topic_attributes<'a>(topic_arn: &str) -> (r: AwsSpanBuilder<'a>)
        ensures
            r.built(MessagingOperationKind::Control.spec_span_kind(), "SNS"@, "SetTopicAttributes"@, sns_attrs(MessagingOperationKind::Control, Some(topic_arn@))),
    {
        AwsSpanBuilder::sns(MessagingOperationKind::Control, "SetTopicAttributes", Some(topic_arn))
    }

    /// A span builder for the SNS `Subscribe` operation on the topic `topic_arn`.
    pub fn subscribe<'a>(topic_arn: &str) -> (r: AwsSpanBuilder<'a>)
        ensures
            r.built(MessagingOperationKind::Control.spec_span_kind(), "SNS"@, "Subscribe"@, sns_attrs(MessagingOperationKind::Control, Some(topic_arn@))),
    {
        AwsSpanBuilder::sns(MessagingOperationKind::Control, "Subscribe", Some(topic_arn))
    }
}

} // verus!
