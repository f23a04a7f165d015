//! Span builders for AWS Secrets Manager operations, with the common attributes only.
use vstd::prelude::*;

use crate::middleware::aws::AwsSpanBuilder;
use crate::span::{attrs_view, Attribute, AttributeModel, SpanKind};

verus! {

/// Namespace of the span builders for AWS Secrets Manager operations that
/// record no attribute beyond the common ones.
pub struct SecretsManagerSpanBuilder(());

impl<'a> AwsSpanBuilder<'a> {
    /// A client span builder for the Secrets Manager operation `method`, with
    /// no attribute beyond the common ones.
    pub fn secrets_manager(method: &str) -> (r: Self)
        ensures
            r.built(SpanKind::Client, "SecretsManager"@, method@, Seq::empty()),
    {
        let attributes: Vec<Attribute> = Vec::new();
        assert(attrs_view(attributes@) =~= Seq::<AttributeModel>::empty());
        Self::client("SecretsManager", method, attributes)
    }
}

impl SecretsManagerSpanBuilder {
    /// A span builder for the Secrets Manager `BatchGetSecretValue` operation.
    pub fn batch_get_secret_value<'a>() -> (r: AwsSpanBuilder<'a>)
        ensures
            r.built(SpanKind::Client, "SecretsManager"@, "BatchGetSecretValue"@, Seq::empty()),
    {
        AwsSpanBuilder::secrets_manager("BatchGetSecretValue")
    }

    /// A span builder for the Secrets Manager `CancelRotateSecret` operation.
    pub fn cancel_rotate_secret<'a>() -> (r: AwsSpanBuilder<'a>)
        ensures
            r.built(SpanKind::Client, "SecretsManager"@, "CancelRotateSecret"@, Seq::empty()),
    {
        AwsSpanBuilder::secrets_manager("CancelRotateSecret")
    }

    /// A span builder for the Secrets Manager `CreateSecret` operation.
    pub fn create_secret<'a>() -> (r: AwsSpanBuilder<'a>)
        ensures
            r.built(SpanKind::Client, "SecretsManager"@, "CreateSecret"@, Seq::empty()),
    {
        AwsSpanBuilder::secrets_manager("CreateSecret")
    }

    /// A span builder for the Secrets Manager `DeleteResourcePolicy` operation.
    pub fn delete_resource_policy<'a>() -> (r: AwsSpanBuilder<'a>)
        ensures
            r.built(SpanKind::Client, "SecretsManager"@, "DeleteResourcePolicy"@, Seq::empty()),
    {
        AwsSpanBuilder::secrets_manager("DeleteResourcePolicy")
    }

    /// A span builder for the Secrets Manager `DeleteSecret` operation.
    pub fn delete_secret<'a>() -> (r: AwsSpanBuilder<'a>)
        ensures
            r.built(SpanKind::Client, "SecretsManager"@, "DeleteSecret"@, Seq::empty()),
    {
        AwsSpanBuilder::secrets_manager("DeleteSecret")
    }

    /// A span builder for the Secrets Manager `DescribeSecret` operation.
    pub fn describe_secret<'a>() -> (r: AwsSpanBuilder<'a>)
        ensures
            r.built(SpanKind::Client, "SecretsManager"@, "DescribeSecret"@, Seq::empty()),
    {
        AwsSpanBuilder::secrets_manager("DescribeSecret")
    }

    /// A span builder for the Secrets Manager `GetRandomPassword` operation.
    pub fn get_random_password<'a>() -> (r: AwsSpanBuilder<'a>)
        ensures
            r.built(SpanKind::Client, "SecretsManager"@, "GetRandomPassword"@, Seq::empty()),
    {
        AwsSpanBuilder::secrets_manager("GetRandomPassword")
    }

    /// A span builder for the Secrets Manager `GetResourcePolicy` operation.
    pub fn get_resource_policy<'a>() -> (r: AwsSpanBuilder<'a>)
        ensures
            r.built(SpanKind::Client, "SecretsManager"@, "GetResourcePolicy"@, Seq::empty()),
    {
        AwsSpanBuilder::secrets_manager("GetResourcePolicy")
    }

    /// A span builder for the Secrets Manager `GetSecretValue` operation.
    pub fn get_secret_value<'a>() -> (r: AwsSpanBuilder<'a>)
        ensures
            r.built(SpanKind::Client, "SecretsManager"@, "GetSecretValue"@, Seq::empty()),
    {
        AwsSpanBuilder::secrets_manager("GetSecretValue")
    }

    /// A span builder for the Secrets Manager `ListSecretVersionIds` operation.
    pub fn list_secret_version_ids<'a>() -> (r: AwsSpanBuilder<'a>)
        ensures
            r.built(SpanKind::Client, "SecretsManager"@, "ListSecretVersionIds"@, Seq::empty()),
    {
        AwsSpanBuilder::secrets_manager("ListSecretVersionIds")
    }

    /// A span builder for the Secrets Manager `ListSecrets` operation.
    pub fn list_secrets<'a>() -> (r: AwsSpanBuilder<'a>)
        ensures
            r.built(SpanKind::Client, "SecretsManager"@, "ListSecrets"@, Seq::empty()),
    {
        AwsSpanBuilder::secrets_manager("ListSecrets")
    }

    /// A span builder for the Secrets Manager `PutResourcePolicy` operation.
    pub fn put_resource_policy<'a>() -> (r: AwsSpanBuilder<'a>)
        ensures
            r.built(SpanKind::Client, "SecretsManager"@, "PutResourcePolicy"@, Seq::empty()),
    {
        AwsSpanBuilder::secrets_manager("PutResourcePolicy")
    }

    /// A span builder for the Secrets Manager `PutSecretValue` operation.
    pub fn put_secret_value<'a>() -> (r: AwsSpanBuilder<'a>)
        ensures
            r.built(SpanKind::Client, "SecretsManager"@, "PutSecretValue"@, Seq::empty()),
    {
        AwsSpanBuilder::secrets_manager("PutSecretValue")
    }

    /// A span builder for the Secrets Manager `RemoveRegionsFromReplication` operation.
    pub fn remove_regions_from_replication<'a>() -> (r: AwsSpanBuilder<'a>)
        ensures
            r.built(SpanKind::Client, "SecretsManager"@, "RemoveRegionsFromReplication"@, Seq::empty()),
    {
        AwsSpanBuilder::secrets_manager("RemoveRegionsFromReplication")
    }

    /// A span builder for the Secrets Manager `ReplicateSecretToRegions` operation.
    pub fn replicate_secret_to_regions<'a>() -> (r: AwsSpanBuilder<'a>)
        ensures
            r.built(SpanKind::Client, "SecretsManager"@, "ReplicateSecretToRegions"@, Seq::empty()),
    {
        AwsSpanBuilder::secrets_manager("ReplicateSecretToRegions")
    }

    /// A span builder for the Secrets Manager `RestoreSecret` operation.
    pub fn restore_secret<'a>() -> (r: AwsSpanBuilder<'a>)
        ensures
            r.built(SpanKind::Client, "SecretsManager"@, "RestoreSecret"@, Seq::empty()),
    {
        AwsSpanBuilder::secrets_manager("RestoreSecret")
    }

    /// A span builder for the Secrets Manager `RotateSecret` operation.
    pub fn rotate_secret<'a>() -> (r: AwsSpanBuilder<'a>)
        ensures
            r.built(SpanKind::Client, "SecretsManager"@, "RotateSecret"@, Seq::empty()),
    {
        AwsSpanBuilder::secrets_manager("RotateSecret")
    }

    /// A span builder for the Secrets Manager `StopReplicationToReplica` operation.
    pub fn stop_replication_to_replica<'a>() -> (r: AwsSpanBuilder<'a>)
        ensures
            r.built(SpanKind::Client, "SecretsManager"@, "StopReplicationToReplica"@, Seq::empty()),
    {
        AwsSpanBuilder::secrets_manager("StopReplicationToReplica")
    }

    /// A span builder for the Secrets Manager `TagResource` operation.
    pub fn tag_resource<'a>() -> (r: AwsSpanBuilder<'a>)
        ensures
            r.built(SpanKind::Client, "SecretsManager"@, "TagResource"@, Seq::empty()),
    {
        AwsSpanBuilder::secrets_manager("TagResource")
    }

    /// A span builder for the Secrets Manager `UntagResource` operation.
    pub fn untag_resource<'a>() -> (r: AwsSpanBuilder<'a>)
        ensures
            r.built(SpanKind::Client, "SecretsManager"@, "UntagResource"@, Seq::empty()),
    {
        AwsSpanBuilder::secrets_manager("UntagResource")
    }

    /// A span builder for the Secrets Manager `UpdateSecret` operation.
    pub fn update_secret<'a>() -> (r: AwsSpanBuilder<'a>)
        ensures
            r.built(SpanKind::Client, "SecretsManager"@, "UpdateSecret"@, Seq::empty()),
    {
        AwsSpanBuilder::secrets_manager("UpdateSecret")
    }

    /// A span builder for the Secrets Manager `UpdateSecretVersionStage` operation.
    pub fn update_secret_version_stage<'a>() -> (r: AwsSpanBuilder<'a>)
        ensures
            r.built(SpanKind::Client, "SecretsManager"@, "UpdateSecretVersionStage"@, Seq::empty()),
    {
        AwsSpanBuilder::secrets_manager("UpdateSecretVersionStage")
    }

    /// A span builder for the Secrets Manager `ValidateResourcePolicy` operation.
    pub fn validate_resource_policy<'a>() -> (r: AwsSpanBuilder<'a>)
        ensures
            r.built(SpanKind::Client, "SecretsManager"@, "ValidateResourcePolicy"@, Seq::empty()),
    {
        AwsSpanBuilder::secrets_manager("ValidateResourcePolicy")
    }
}

} // verus!
