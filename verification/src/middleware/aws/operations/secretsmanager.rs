//! Span builders for AWS Secrets Manager operations, recording the secret id.
use vstd::prelude::*;

use crate::middleware::aws::AwsSpanBuilder;
use crate::span::{attrs_view, opt_attr, opt_str, push_opt, Attribute, AttributeModel, SpanKind};

verus! {

/// Namespace of the span builders for AWS Secrets Manager operations that name the secret.
pub struct SecretsManagerSpanBuilder(());

/// The attributes of a SecretsManager operation: the secret id when there is one.
pub open spec fn secretsmanager_attrs(secret_id: Option<Seq<char>>) -> Seq<AttributeModel> {
    opt_attr("aws.secretsmanager.secret_id"@, secret_id)
}

impl<'a> AwsSpanBuilder<'a> {
    /// A client span builder for the SecretsManager operation `method`, on the secret `secret_id` where one is given.
    pub fn secretsmanager(method: &str, secret_id: Option<&str>) -> (r: Self)
        ensures
            r.built(SpanKind::Client, "SecretsManager"@, method@, secretsmanager_attrs(opt_str(secret_id))),
    {
        let mut attributes: Vec<Attribute> = Vec::new();
        push_opt(&mut attributes, "aws.secretsmanager.secret_id", secret_id);
        assert(attrs_view(attributes@) =~= secretsmanager_attrs(opt_str(secret_id)));
        Self::client("SecretsManager", method, attributes)
    }
}

impl SecretsManagerSpanBuilder {
    /// A span builder for the SecretsManager `GetSecretValue` operation on the secret `secret_id`.
    pub fn get_secret_value<'a>(secret_id: &str) -> (r: AwsSpanBuilder<'a>)
        ensures
            r.built(SpanKind::Client, "SecretsManager"@, "GetSecretValue"@, secretsmanager_attrs(Some(secret_id@))),
    {
        AwsSpanBuilder::secretsmanager("GetSecretValue", Some(secret_id))
    }

    /// A span builder for the SecretsManager `PutSecretValue` operation on the secret `secret_id`.
    pub fn put_secret_value<'a>(secret_id: &str) -> (r: AwsSpanBuilder<'a>)
        ensures
            r.built(SpanKind::Client, "SecretsManager"@, "PutSecretValue"@, secretsmanager_attrs(Some(secret_id@))),
    {
        AwsSpanBuilder::secretsmanager("PutSecretValue", Some(secret_id))
    }

    /// A span builder for the SecretsManager `CreateSecret` operation on the secret `secret_id`.
    pub fn create_secret<'a>(secret_id: &str) -> (r: AwsSpanBuilder<'a>)
        ensures
            r.built(SpanKind::Client, "SecretsManager"@, "CreateSecret"@, secretsmanager_attrs(Some(secret_id@))),
    {
        AwsSpanBuilder::secretsmanager("CreateSecret", Some(secret_id))
    }

    /// A span builder for the SecretsManager `DeleteSecret` operation on the secret `secret_id`.
    pub fn delete_secret<'a>(secret_id: &str) -> (r: AwsSpanBuilder<'a>)
        ensures
            r.built(SpanKind::Client, "SecretsManager"@, "DeleteSecret"@, secretsmanager_attrs(Some(secret_id@))),
    {
        AwsSpanBuilder::secretsmanager("DeleteSecret", Some(secret_id))
    }

    /// A span builder for the SecretsManager `DescribeSecret` operation on the secret `secret_id`.
    pub fn describe_secret<'a>(secret_id: &str) -> (r: AwsSpanBuilder<'a>)
        ensures
            r.built(SpanKind::Client, "SecretsManager"@, "DescribeSecret"@, secretsmanager_attrs(Some(secret_id@))),
    {
        AwsSpanBuilder::secretsmanager("DescribeSecret", Some(secret_id))
    }

    /// A span builder for the SecretsManager `UpdateSecret` operation on the secret `secret_id`.
    pub fn update_secret<'a>(secret_id: &str) -> (r: AwsSpanBuilder<'a>)
        ensures
            r.built(SpanKind::Client, "SecretsManager"@, "UpdateSecret"@, secretsmanager_attrs(Some(secret_id@))),
    {
        AwsSpanBuilder::secretsmanager("UpdateSecret", Some(secret_id))
    }

    /// A span builder for the SecretsManager `RestoreSecret` operation on the secret `secret_id`.
    pub fn restore_secret<'a>(secret_id: &str) -> (r: AwsSpanBuilder<'a>)
        ensures
            r.built(SpanKind::Client, "SecretsManager"@, "RestoreSecret"@, secretsmanager_attrs(Some(secret_id@))),
    {
        AwsSpanBuilder::secretsmanager("RestoreSecret", Some(secret_id))
    }

    /// A span builder for the SecretsManager `RotateSecret` operation on the secret `secret_id`.
    pub fn rotate_secret<'a>(secret_id: &str) -> (r: AwsSpanBuilder<'a>)
        ensures
            r.built(SpanKind::Client, "SecretsManager"@, "RotateSecret"@, secretsmanager_attrs(Some(secret_id@))),
    {
        AwsSpanBuilder::secretsmanager("RotateSecret", Some(secret_id))
    }

    /// A span builder for the SecretsManager `CancelRotateSecret` operation on the secret `secret_id`.
    pub fn cancel_rotate_secret<'a>(secret_id: &str) -> (r: AwsSpanBuilder<'a>)
        ensures
            r.built(SpanKind::Client, "SecretsManager"@, "CancelRotateSecret"@, secretsmanager_attrs(Some(secret_id@))),
    {
        AwsSpanBuilder::secretsmanager("CancelRotateSecret", Some(secret_id))
    }

    /// A span builder for the SecretsManager `UpdateSecretVersionStage` operation on the secret `secret_id`.
    pub fn update_secret_version_stage<'a>(secret_id: &str) -> (r: AwsSpanBuilder<'a>)
        ensures
            r.built(SpanKind::Client, "SecretsManager"@, "UpdateSecretVersionStage"@, secretsmanager_attrs(Some(secret_id@))),
    {
        AwsSpanBuilder::secretsmanager("UpdateSecretVersionStage", Some(secret_id))
    }

    /// A span builder for the SecretsManager `ListSecretVersionIds` operation on the secret `secret_id`.
    pub fn list_secret_version_ids<'a>(secret_id: &str) -> (r: AwsSpanBuilder<'a>)
        ensures
            r.built(SpanKind::Client, "SecretsManager"@, "ListSecretVersionIds"@, secretsmanager_attrs(Some(secret_id@))),
    {
        AwsSpanBuilder::secretsmanager("ListSecretVersionIds", Some(secret_id))
    }

    /// A span builder for the SecretsManager `TagResource` operation on the secret `secret_id`.
    pub fn tag_resource<'a>(secret_id: &str) -> (r: AwsSpanBuilder<'a>)
        ensures
            r.built(SpanKind::Client, "SecretsManager"@, "TagResource"@, secretsmanager_attrs(Some(secret_id@))),
    {
        AwsSpanBuilder::secretsmanager("TagResource", Some(secret_id))
    }

    /// A span builder for the SecretsManager `UntagResource` operation on the secret `secret_id`.
    pub fn untag_resource<'a>(secret_id: &str) -> (r: AwsSpanBuilder<'a>)
        ensures
            r.built(SpanKind::Client, "SecretsManager"@, "UntagResource"@, secretsmanager_attrs(Some(secret_id@))),
    {
        AwsSpanBuilder::secretsmanager("UntagResource", Some(secret_id))
    }

    /// A span builder for the SecretsManager `GetResourcePolicy` operation on the secret `secret_id`.
    pub fn get_resource_policy<'a>(secret_id: &str) -> (r: AwsSpanBuilder<'a>)
        ensures
            r.built(SpanKind::Client, "SecretsManager"@, "GetResourcePolicy"@, secretsmanager_attrs(Some(secret_id@))),
    {
        AwsSpanBuilder::secretsmanager("GetResourcePolicy", Some(secret_id))
    }

    /// A span builder for the SecretsManager `PutResourcePolicy` operation on the secret `secret_id`.
    pub fn put_resource_policy<'a>(secret_id: &str) -> (r: AwsSpanBuilder<'a>)
        ensures
            r.built(SpanKind::Client, "SecretsManager"@, "PutResourcePolicy"@, secretsmanager_attrs(Some(secret_id@))),
    {
        AwsSpanBuilder::secretsmanager("PutResourcePolicy", Some(secret_id))
    }

    /// A span builder for the SecretsManager `DeleteResourcePolicy` operation on the secret `secret_id`.
    pub fn delete_resource_policy<'a>(secret_id: &str) -> (r: AwsSpanBuilder<'a>)
        ensures
            r.built(SpanKind::Client, "SecretsManager"@, "DeleteResourcePolicy"@, secretsmanager_attrs(Some(secret_id@))),
    {
        AwsSpanBuilder::secretsmanager("DeleteResourcePolicy", Some(secret_id))
    }

    /// A span builder for the SecretsManager `ValidateResourcePolicy` operation on the secret `secret_id`.
    pub fn validate_resource_policy<'a>(secret_id: &str) -> (r: AwsSpanBuilder<'a>)
        ensures
            r.built(SpanKind::Client, "SecretsManager"@, "ValidateResourcePolicy"@, secretsmanager_attrs(Some(secret_id@))),
    {
        AwsSpanBuilder::secretsmanager("ValidateResourcePolicy", Some(secret_id))
    }

    /// A span builder for the SecretsManager `RemoveRegionsFromReplication` operation on the secret `secret_id`.
    pub fn remove_regions_from_replication<'a>(secret_id: &str) -> (r: AwsSpanBuilder<'a>)
        ensures
            r.built(SpanKind::Client, "SecretsManager"@, "RemoveRegionsFromReplication"@, secretsmanager_attrs(Some(secret_id@))),
    {
        AwsSpanBuilder::secretsmanager("RemoveRegionsFromReplication", Some(secret_id))
    }

    /// A span builder for the SecretsManager `ReplicateSecretToRegions` operation on the secret `secret_id`.
    pub fn replicate_secret_to_regions<'a>(secret_id: &str) -> (r: AwsSpanBuilder<'a>)
        ensures
            r.built(SpanKind::Client, "SecretsManager"@, "ReplicateSecretToRegions"@, secretsmanager_attrs(Some(secret_id@))),
    {
        AwsSpanBuilder::secretsmanager("ReplicateSecretToRegions", Some(secret_id))
    }

    /// A span builder for the SecretsManager `StopReplicationToReplica` operation on the secret `secret_id`.
    pub fn stop_replication_to_replica<'a>(secret_id: &str) -> (r: AwsSpanBuilder<'a>)
        ensures
            r.built(SpanKind::Client, "SecretsManager"@, "StopReplicationToReplica"@, secretsmanager_attrs(Some(secret_id@))),
    {
        AwsSpanBuilder::secretsmanager("StopReplicationToReplica", Some(secret_id))
    }

    /// A span builder for the SecretsManager `ListSecrets` operation, which names no secret.
    pub fn list_secrets<'a>() -> (r: AwsSpanBuilder<'a>)
        ensures
            r.built(SpanKind::Client, "SecretsManager"@, "ListSecrets"@, secretsmanager_attrs(None)),
    {
        AwsSpanBuilder::secretsmanager("ListSecrets", None)
    }

    /// A span builder for the SecretsManager `BatchGetSecretValue` operation, which names no secret.
    pub fn batch_get_secret_value<'a>() -> (r: AwsSpanBuilder<'a>)
        ensures
            r.built(SpanKind::Client, "SecretsManager"@, "BatchGetSecretValue"@, secretsmanager_attrs(None)),
    {
        AwsSpanBuilder::secretsmanager("BatchGetSecretValue", None)
    }

    /// A span builder for the SecretsManager `GetRandomPassword` operation, which names no secret.
    pub fn get_random_password<'a>() -> (r: AwsSpanBuilder<'a>)
        ensures
            r.built(SpanKind::Client, "SecretsManager"@, "GetRandomPassword"@, secretsmanager_attrs(None)),
    {
        AwsSpanBuilder::secretsmanager("GetRandomPassword", None)
    }
}

} // verus!
