//! Operation-scoped span builders for Amazon SNS.
use vstd::prelude::*;

use super::MessagingOperationKind;
use crate::middleware::aws::AwsSpanBuilder;
use crate::semconv;
use crate::span::{attrs_view, opt_attr, opt_str, owned, push_opt, str_attr, Attribute, AttributeModel, SpanKind};

verus! {

/// A span builder for an SNS operation.
pub struct SnsOperation<'a>(pub AwsSpanBuilder<'a>);

/// The attributes of a SNS operation of `kind` on `topic_arn`: the messaging
/// system, the operation (legacy key) and the destination when there is one.
pub open spec fn sns_operation_attrs(kind: MessagingOperationKind, topic_arn: Option<Seq<char>>) -> Seq<AttributeModel> {
    seq![
        str_attr(semconv::MESSAGING_SYSTEM@, "aws_sns"@),
        str_attr(semconv::MESSAGING_OPERATION@, kind.spec_as_str()),
    ] + opt_attr(semconv::MESSAGING_DESTINATION_NAME@, topic_arn)
}

impl<'a> SnsOperation<'a> {
    /// A span builder for the SNS operation `method` of `operation_kind` on
    /// `topic_arn` where one is given; its span kind follows the operation kind.
    pub fn with_operation_kind(
        operation_kind: MessagingOperationKind,
        method: &str,
        topic_arn: Option<&str>,
    ) -> (r: Self)
        ensures
            r.0.built(
                operation_kind.spec_span_kind(),
                "SNS"@,
                method@,
                sns_operation_attrs(operation_kind, opt_str(topic_arn)),
            ),
    {
        let mut attributes: Vec<Attribute> = Vec::new();
        attributes.push(Attribute::string(semconv::MESSAGING_SYSTEM, owned("aws_sns")));
        attributes.push(Attribute::string(semconv::MESSAGING_OPERATION, owned(operation_kind.as_str())));
        push_opt(&mut attributes, semconv::MESSAGING_DESTINATION_NAME, topic_arn);
        assert(attrs_view(attributes@) =~= sns_operation_attrs(operation_kind, opt_str(topic_arn)));
        SnsOperation(AwsSpanBuilder::new(operation_kind.span_kind(), "SNS", method, attributes))
    }

    /// A client span builder for the SNS control operation `method` on
    /// `topic_arn` where one is given.
    pub fn new(method: &str, topic_arn: Option<&str>) -> (r: Self)
        ensures
            r.0.built(
                SpanKind::Client,
                "SNS"@,
                method@,
                sns_operation_attrs(MessagingOperationKind::Control, opt_str(topic_arn)),
            ),
    {
        Self::with_operation_kind(MessagingOperationKind::Control, method, topic_arn)
    }
}

impl<'a> SnsOperation<'a> {
    /// A span builder for the SNS `Publish` operation on `topic_arn`.
    pub fn publish(topic_arn: &str) -> (r: Self)
        ensures
            r.0.built(MessagingOperationKind::Create.spec_span_kind(), "SNS"@, "Publish"@, sns_operation_attrs(MessagingOperationKind::Create, Some(topic_arn@))),
    {
        Self::with_operation_kind(MessagingOperationKind::Create, "Publish", Some(topic_arn))
    }

    /// A span builder for the SNS `PublishBatch` operation on `topic_arn`.
    pub fn publish_batch(topic_arn: &str) -> (r: Self)
        ensures
            r.0.built(MessagingOperationKind::Publish.spec_span_kind(), "SNS"@, "PublishBatch"@, sns_operation_attrs(MessagingOperationKind::Publish, Some(topic_arn@))),
    {
        Self::with_operation_kind(MessagingOperationKind::Publish, "PublishBatch", Some(topic_arn))
    }

    /// A span builder for the SNS `CheckIfPhoneNumberIsOptedOut` operation, which names no topic.
    pub fn check_if_phone_number_is_opted_out() -> (r: Self)
        ensures
            r.0.built(SpanKind::Client, "SNS"@, "CheckIfPhoneNumberIsOptedOut"@, sns_operation_attrs(MessagingOperationKind::Control, None)),
    {
        Self::new("CheckIfPhoneNumberIsOptedOut", None)
    }

    /// A span builder for the SNS `CreatePlatformApplication` operation, which names no topic.
    pub fn create_platform_application() -> (r: Self)
        ensures
            r.0.built(SpanKind::Client, "SNS"@, "CreatePlatformApplication"@, sns_operation_attrs(MessagingOperationKind::Control, None)),
    {
        Self::new("CreatePlatformApplication", None)
    }

    /// A span builder for the SNS `CreatePlatformEndpoint` operation, which names no topic.
    pub fn create_platform_endpoint() -> (r: Self)
        ensures
            r.0.built(SpanKind::Client, "SNS"@, "CreatePlatformEndpoint"@, sns_operation_attrs(MessagingOperationKind::Control, None)),
    {
        Self::new("CreatePlatformEndpoint", None)
    }

    /// A span builder for the SNS `CreateSmsSandboxPhoneNumber` operation, which names no topic.
    pub fn create_sms_sandbox_phone_number() -> (r: Self)
        ensures
            r.0.built(SpanKind::Client, "SNS"@, "CreateSmsSandboxPhoneNumber"@, sns_operation_attrs(MessagingOperationKind::Control, None)),
    {
        Self::new("CreateSmsSandboxPhoneNumber", None)
    }

    /// A span builder for the SNS `CreateTopic` operation, which names no topic.
    pub fn create_topic() -> (r: Self)
        ensures
            r.0.built(SpanKind::Client, "SNS"@, "CreateTopic"@, sns_operation_attrs(MessagingOperationKind::Control, None)),
    {
        Self::new("CreateTopic", None)
    }

    /// A span builder for the SNS `DeleteEndpoint` operation, which names no topic.
    pub fn delete_endpoint() -> (r: Self)
        ensures
            r.0.built(SpanKind::Client, "SNS"@, "DeleteEndpoint"@, sns_operation_attrs(MessagingOperationKind::Control, None)),
    {
        Self::new("DeleteEndpoint", None)
    }

    /// A span builder for the SNS `DeletePlatformApplication` operation, which names no topic.
    pub fn delete_platform_application() -> (r: Self)
        ensures
            r.0.built(SpanKind::Client, "SNS"@, "DeletePlatformApplication"@, sns_operation_attrs(MessagingOperationKind::Control, None)),
    {
        Self::new("DeletePlatformApplication", None)
    }

    /// A span builder for the SNS `DeleteSmsSandboxPhoneNumber` operation, which names no topic.
    pub fn delete_sms_sandbox_phone_number() -> (r: Self)
        ensures
            r.0.built(SpanKind::Client, "SNS"@, "DeleteSmsSandboxPhoneNumber"@, sns_operation_attrs(MessagingOperationKind::Control, None)),
    {
        Self::new("DeleteSmsSandboxPhoneNumber", None)
    }

    /// A span builder for the SNS `GetDataProtectionPolicy` operation, which names no topic.
    pub fn get_data_protection_policy() -> (r: Self)
        ensures
            r.0.built(SpanKind::Client, "SNS"@, "GetDataProtectionPolicy"@, sns_operation_attrs(MessagingOperationKind::Control, None)),
    {
        Self::new("GetDataProtectionPolicy", None)
    }

    /// A span builder for the SNS `GetEndpointAttributes` operation, which names no topic.
    pub fn get_endpoint_attributes() -> (r: Self)
        ensures
            r.0.built(SpanKind::Client, "SNS"@, "GetEndpointAttributes"@, sns_operation_attrs(MessagingOperationKind::Control, None)),
    {
        Self::new("GetEndpointAttributes", None)
    }

    /// A span builder for the SNS `GetPlatformApplicationAttributes` operation, which names no topic.
    pub fn get_platform_application_attributes() -> (r: Self)
        ensures
            r.0.built(SpanKind::Client, "SNS"@, "GetPlatformApplicationAttributes"@, sns_operation_attrs(MessagingOperationKind::Control, None)),
    {
        Self::new("GetPlatformApplicationAttributes", None)
    }

    /// A span builder for the SNS `GetSmsAttributes` operation, which names no topic.
    pub fn get_sms_attributes() -> (r: Self)
        ensures
            r.0.built(SpanKind::Client, "SNS"@, "GetSmsAttributes"@, sns_operation_attrs(MessagingOperationKind::Control, None)),
    {
        Self::new("GetSmsAttributes", None)
    }

    /// A span builder for the SNS `GetSmsSandboxAccountStatus` operation, which names no topic.
    pub fn get_sms_sandbox_account_status() -> (r: Self)
        ensures
            r.0.built(SpanKind::Client, "SNS"@, "GetSmsSandboxAccountStatus"@, sns_operation_attrs(MessagingOperationKind::Control, None)),
    {
        Self::new("GetSmsSandboxAccountStatus", None)
    }

    /// A span builder for the SNS `GetSubscriptionAttributes` operation, which names no topic.
    pub fn get_subscription_attributes() -> (r: Self)
        ensures
            r.0.built(SpanKind::Client, "SNS"@, "GetSubscriptionAttributes"@, sns_operation_attrs(MessagingOperationKind::Control, None)),
    {
        Self::new("GetSubscriptionAttributes", None)
    }

    /// A span builder for the SNS `ListEndpointsByPlatformApplication` operation, which names no topic.
    pub fn list_endpoints_by_platform_application() -> (r: Self)
        ensures
            r.0.built(SpanKind::Client, "SNS"@, "ListEndpointsByPlatformApplication"@, sns_operation_attrs(MessagingOperationKind::Control, None)),
    {
        Self::new("ListEndpointsByPlatformApplication", None)
    }

    /// A span builder for the SNS `ListOriginationNumbers` operation, which names no topic.
    pub fn list_origination_numbers() -> (r: Self)
        ensures
            r.0.built(SpanKind::Client, "SNS"@, "ListOriginationNumbers"@, sns_operation_attrs(MessagingOperationKind::Control, None)),
    {
        Self::new("ListOriginationNumbers", None)
    }

    /// A span builder for the SNS `ListPhoneNumbersOptedOut` operation, which names no topic.
    pub fn list_phone_numbers_opted_out() -> (r: Self)
        ensures
            r.0.built(SpanKind::Client, "SNS"@, "ListPhoneNumbersOptedOut"@, sns_operation_attrs(MessagingOperationKind::Control, None)),
    {
        Self::new("ListPhoneNumbersOptedOut", None)
    }

    /// A span builder for the SNS `ListPlatformApplications` operation, which names no topic.
    pub fn list_platform_applications() -> (r: Self)
        ensures
            r.0.built(SpanKind::Client, "SNS"@, "ListPlatformApplications"@, sns_operation_attrs(MessagingOperationKind::Control, None)),
    {
        Self::new("ListPlatformApplications", None)
    }

    /// A span builder for the SNS `ListSmsSandboxPhoneNumbers` operation, which names no topic.
    pub fn list_sms_sandbox_phone_numbers() -> (r: Self)
        ensures
            r.0.built(SpanKind::Client, "SNS"@, "ListSmsSandboxPhoneNumbers"@, sns_operation_attrs(MessagingOperationKind::Control, None)),
    {
        Self::new("ListSmsSandboxPhoneNumbers", None)
    }

    /// A span builder for the SNS `ListSubscriptions` operation, which names no topic.
    pub fn list_subscriptions() -> (r: Self)
        ensures
            r.0.built(SpanKind::Client, "SNS"@, "ListSubscriptions"@, sns_operation_attrs(MessagingOperationKind::Control, None)),
    {
        Self::new("ListSubscriptions", None)
    }

    /// A span builder for the SNS `ListTagsForResource` operation, which names no topic.
    pub fn list_tags_for_resource() -> (r: Self)
        ensures
            r.0.built(SpanKind::Client, "SNS"@, "ListTagsForResource"@, sns_operation_attrs(MessagingOperationKind::Control, None)),
    {
        Self::new("ListTagsForResource", None)
    }

    /// A span builder for the SNS `ListTopics` operation, which names no topic.
    pub fn list_topics() -> (r: Self)
        ensures
            r.0.built(SpanKind::Client, "SNS"@, "ListTopics"@, sns_operation_attrs(MessagingOperationKind::Control, None)),
    {
        Self::new("ListTopics", None)
    }

    /// A span builder for the SNS `OptInPhoneNumber` operation, which names no topic.
    pub fn opt_in_phone_number() -> (r: Self)
        ensures
            r.0.built(SpanKind::Client, "SNS"@, "OptInPhoneNumber"@, sns_operation_attrs(MessagingOperationKind::Control, None)),
    {
        Self::new("OptInPhoneNumber", None)
    }

    /// A span builder for the SNS `PutDataProtectionPolicy` operation, which names no topic.
    pub fn put_data_protection_policy() -> (r: Self)
        ensures
            r.0.built(SpanKind::Client, "SNS"@, "PutDataProtectionPolicy"@, sns_operation_attrs(MessagingOperationKind::Control, None)),
    {
        Self::new("PutDataProtectionPolicy", None)
    }

    /// A span builder for the SNS `SetEndpointAttributes` operation, which names no topic.
    pub fn set_endpoint_attributes() -> (r: Self)
        ensures
            r.0.built(SpanKind::Client, "SNS"@, "SetEndpointAttributes"@, sns_operation_attrs(MessagingOperationKind::Control, None)),
    {
        Self::new("SetEndpointAttributes", None)
    }

    /// A span builder for the SNS `SetPlatformApplicationAttributes` operation, which names no topic.
    pub fn set_platform_application_attributes() -> (r: Self)
        ensures
            r.0.built(SpanKind::Client, "SNS"@, "SetPlatformApplicationAttributes"@, sns_operation_attrs(MessagingOperationKind::Control, None)),
    {
        Self::new("SetPlatformApplicationAttributes", None)
    }

    /// A span builder for the SNS `SetSmsAttributes` operation, which names no topic.
    pub fn set_sms_attributes() -> (r: Self)
        ensures
            r.0.built(SpanKind::Client, "SNS"@, "SetSmsAttributes"@, sns_operation_attrs(MessagingOperationKind::Control, None)),
    {
        Self::new("SetSmsAttributes", None)
    }

    /// A span builder for the SNS `SetSubscriptionAttributes` operation, which names no topic.
    pub fn set_subscription_attributes() -> (r: Self)
        ensures
            r.0.built(SpanKind::Client, "SNS"@, "SetSubscriptionAttributes"@, sns_operation_attrs(MessagingOperationKind::Control, None)),
    {
        Self::new("SetSubscriptionAttributes", None)
    }

    /// A span builder for the SNS `TagResource` operation, which names no topic.
    pub fn tag_resource() -> (r: Self)
        ensures
            r.0.built(SpanKind::Client, "SNS"@, "TagResource"@, sns_operation_attrs(MessagingOperationKind::Control, None)),
    {
        Self::new("TagResource", None)
    }

    /// A span builder for the SNS `Unsubscribe` operation, which names no topic.
    pub fn unsubscribe() -> (r: Self)
        ensures
            r.0.built(SpanKind::Client, "SNS"@, "Unsubscribe"@, sns_operation_attrs(MessagingOperationKind::Control, None)),
    {
        Self::new("Unsubscribe", None)
    }

    /// A span builder for the SNS `UntagResource` operation, which names no topic.
    pub fn untag_resource() -> (r: Self)
        ensures
            r.0.built(SpanKind::Client, "SNS"@, "UntagResource"@, sns_operation_attrs(MessagingOperationKind::Control, None)),
    {
        Self::new("UntagResource", None)
    }

    /// A span builder for the SNS `VerifySmsSandboxPhoneNumber` operation, which names no topic.
    pub fn verify_sms_sandbox_phone_number() -> (r: Self)
        ensures
            r.0.built(SpanKind::Client, "SNS"@, "VerifySmsSandboxPhoneNumber"@, sns_operation_attrs(MessagingOperationKind::Control, None)),
    {
        Self::new("VerifySmsSandboxPhoneNumber", None)
    }

    /// A span builder for the SNS `AddPermission` operation on `topic_arn`.
    pub fn add_permission(topic_arn: &str) -> (r: Self)
        ensures
            r.0.built(SpanKind::Client, "SNS"@, "AddPermission"@, sns_operation_attrs(MessagingOperationKind::Control, Some(topic_arn@))),
    {
        Self::new("AddPermission", Some(topic_arn))
    }

    /// A span builder for the SNS `ConfirmSubscription` operation on `topic_arn`.
    pub fn confirm_subscription(topic_arn: &str) -> (r: Self)
        ensures
            r.0.built(SpanKind::Client, "SNS"@, "ConfirmSubscription"@, sns_operation_attrs(MessagingOperationKind::Control, Some(topic_arn@))),
    {
        Self::new("ConfirmSubscription", Some(topic_arn))
    }

    /// A span builder for the SNS `DeleteTopic` operation on `topic_arn`.
    pub fn delete_topic(topic_arn: &str) -> (r: Self)
        ensures
            r.0.built(SpanKind::Client, "SNS"@, "DeleteTopic"@, sns_operation_attrs(MessagingOperationKind::Control, Some(topic_arn@))),
    {
        Self::new("DeleteTopic", Some(topic_arn))
    }

    /// A span builder for the SNS `GetTopicAttributes` operation on `topic_arn`.
    pub fn get_topic_attributes(topic_arn: &str) -> (r: Self)
        ensures
            r.0.built(SpanKind::Client, "SNS"@, "GetTopicAttributes"@, sns_operation_attrs(MessagingOperationKind::Control, Some(topic_arn@))),
    {
        Self::new("GetTopicAttributes", Some(topic_arn))
    }

    /// A span builder for the SNS `ListSubscriptionsByTopic` operation on `topic_arn`.
    pub fn list_subscriptions_by_topic(topic_arn: &str) -> (r: Self)
        ensures
            r.0.built(SpanKind::Client, "SNS"@, "ListSubscriptionsByTopic"@, sns_operation_attrs(MessagingOperationKind::Control, Some(topic_arn@))),
    {
        Self::new("ListSubscriptionsByTopic", Some(topic_arn))
    }

    /// A span builder for the SNS `RemovePermission` operation on `topic_arn`.
    pub fn remove_permission(topic_arn: &str) -> (r: Self)
        ensures
            r.0.built(SpanKind::Client, "SNS"@, "RemovePermission"@, sns_operation_attrs(MessagingOperationKind::Control, Some(topic_arn@))),
    {
        Self::new("RemovePermission", Some(topic_arn))
    }

    /// A span builder for the SNS `SetTopicAttributes` operation on `topic_arn`.
    pub fn set_topic_attributes(topic_arn: &str) -> (r: Self)
        ensures
            r.0.built(SpanKind::Client, "SNS"@, "SetTopicAttributes"@, sns_operation_attrs(MessagingOperationKind::Control, Some(topic_arn@))),
    {
        Self::new("SetTopicAttributes", Some(topic_arn))
    }

    /// A span builder for the SNS `Subscribe` operation on `topic_arn`.
    pub fn subscribe(topic_arn: &str) -> (r: Self)
        ensures
            r.0.built(SpanKind::Client, "SNS"@, "Subscribe"@, sns_operation_attrs(MessagingOperationKind::Control, Some(topic_arn@))),
    {
        Self::new("Subscribe", Some(topic_arn))
    }
}

} // verus!
