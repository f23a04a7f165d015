//! Span descriptions of AWS Secrets Manager requests and responses.
use vstd::prelude::*;

use crate::middleware::aws::AwsSpanBuilder;
use crate::span::{attrs_view, count_attr, opt_attr, opt_bool_attr, opt_count_attr, opt_i64_attr, opt_str, or_empty, push_count, push_opt, push_opt_bool, push_opt_count, push_opt_i32, push_opt_i64, unwrap_or_empty, widen, Attribute, SpanKind};
use crate::middleware::aws::operations::secretsmanager::{secretsmanager_attrs, SecretsManagerSpanBuilder};

verus! {

/// The span of a SecretsManager `GetSecretValue` request: the `GetSecretValue` span on `secret_id` (empty when unset) with the request attributes that are set.
pub fn get_secret_value_span<'a>(secret_id: Option<&str>, version_id: Option<&str>, version_stage: Option<&str>) -> (r: AwsSpanBuilder<'a>)
    ensures
        r.built(SpanKind::Client, "SecretsManager"@, "GetSecretValue"@, secretsmanager_attrs(Some(or_empty(opt_str(secret_id)))) + (opt_attr("aws.secretsmanager.version_id"@, opt_str(version_id)) + opt_attr("aws.secretsmanager.version_stage"@, opt_str(version_stage)))),
{
        let b = SecretsManagerSpanBuilder::get_secret_value(unwrap_or_empty(secret_id));
        let mut extra: Vec<Attribute> = Vec::new();
        push_opt(&mut extra, "aws.secretsmanager.version_id", version_id);
        push_opt(&mut extra, "aws.secretsmanager.version_stage", version_stage);
        assert(attrs_view(extra@) =~= opt_attr("aws.secretsmanager.version_id"@, opt_str(version_id)) + opt_attr("aws.secretsmanager.version_stage"@, opt_str(version_stage)));
        b.extend(extra)
}

/// The attributes recorded from a `GetSecretValue` response.
pub fn get_secret_value_output_attributes(version_id: Option<&str>, version_stages: usize) -> (r: Vec<Attribute>)
    ensures
        attrs_view(r@) == opt_attr("aws.secretsmanager.version_id"@, opt_str(version_id)) + count_attr("aws.secretsmanager.version_stages_count"@, version_stages),
{
    let mut extra: Vec<Attribute> = Vec::new();
    push_opt(&mut extra, "aws.secretsmanager.version_id", version_id);
    push_count(&mut extra, "aws.secretsmanager.version_stages_count", version_stages);
    assert(attrs_view(extra@) =~= opt_attr("aws.secretsmanager.version_id"@, opt_str(version_id)) + count_attr("aws.secretsmanager.version_stages_count"@, version_stages));
    extra
}

/// The span of a SecretsManager `PutSecretValue` request: the `PutSecretValue` span on `secret_id` (empty when unset) with the request attributes that are set.
pub fn put_secret_value_span<'a>(secret_id: Option<&str>) -> (r: AwsSpanBuilder<'a>)
    ensures
        r.built(SpanKind::Client, "SecretsManager"@, "PutSecretValue"@, secretsmanager_attrs(Some(or_empty(opt_str(secret_id))))),
{
        SecretsManagerSpanBuilder::put_secret_value(unwrap_or_empty(secret_id))
}

/// The attributes recorded from a `PutSecretValue` response.
pub fn put_secret_value_output_attributes(version_id: Option<&str>, version_stages: usize) -> (r: Vec<Attribute>)
    ensures
        attrs_view(r@) == opt_attr("aws.secretsmanager.version_id"@, opt_str(version_id)) + count_attr("aws.secretsmanager.version_stages_count"@, version_stages),
{
    let mut extra: Vec<Attribute> = Vec::new();
    push_opt(&mut extra, "aws.secretsmanager.version_id", version_id);
    push_count(&mut extra, "aws.secretsmanager.version_stages_count", version_stages);
    assert(attrs_view(extra@) =~= opt_attr("aws.secretsmanager.version_id"@, opt_str(version_id)) + count_attr("aws.secretsmanager.version_stages_count"@, version_stages));
    extra
}

/// The span of a SecretsManager `CreateSecret` request: the `CreateSecret` span on `name` (empty when unset) with the request attributes that are set.
pub fn create_secret_span<'a>(name: Option<&str>) -> (r: AwsSpanBuilder<'a>)
    ensures
        r.built(SpanKind::Client, "SecretsManager"@, "CreateSecret"@, secretsmanager_attrs(Some(or_empty(opt_str(name))))),
{
        SecretsManagerSpanBuilder::create_secret(unwrap_or_empty(name))
}

/// The attributes recorded from a `CreateSecret` response.
pub fn create_secret_output_attributes(version_id: Option<&str>) -> (r: Vec<Attribute>)
    ensures
        attrs_view(r@) == opt_attr("aws.secretsmanager.version_id"@, opt_str(version_id)),
{
    let mut extra: Vec<Attribute> = Vec::new();
    push_opt(&mut extra, "aws.secretsmanager.version_id", version_id);
    assert(attrs_view(extra@) =~= opt_attr("aws.secretsmanager.version_id"@, opt_str(version_id)));
    extra
}

/// The span of a SecretsManager `DeleteSecret` request: the `DeleteSecret` span on `secret_id` (empty when unset) with the request attributes that are set.
pub fn delete_secret_span<'a>(secret_id: Option<&str>, force_delete_without_recovery: Option<bool>, recovery_window_in_days: Option<i64>) -> (r: AwsSpanBuilder<'a>)
    ensures
        r.built(SpanKind::Client, "SecretsManager"@, "DeleteSecret"@, secretsmanager_attrs(Some(or_empty(opt_str(secret_id)))) + (opt_bool_attr("aws.secretsmanager.force_delete"@, force_delete_without_recovery) + opt_i64_attr("aws.secretsmanager.recovery_window_days"@, recovery_window_in_days))),
{
        let b = SecretsManagerSpanBuilder::delete_secret(unwrap_or_empty(secret_id));
        let mut extra: Vec<Attribute> = Vec::new();
        push_opt_bool(&mut extra, "aws.secretsmanager.force_delete", force_delete_without_recovery);
        push_opt_i64(&mut extra, "aws.secretsmanager.recovery_window_days", recovery_window_in_days);
        assert(attrs_view(extra@) =~= opt_bool_attr("aws.secretsmanager.force_delete"@, force_delete_without_recovery) + opt_i64_attr("aws.secretsmanager.recovery_window_days"@, recovery_window_in_days));
        b.extend(extra)
}

/// The span of a SecretsManager `DescribeSecret` request: the `DescribeSecret` span on `secret_id` (empty when unset) with the request attributes that are set.
pub fn describe_secret_span<'a>(secret_id: Option<&str>) -> (r: AwsSpanBuilder<'a>)
    ensures
        r.built(SpanKind::Client, "SecretsManager"@, "DescribeSecret"@, secretsmanager_attrs(Some(or_empty(opt_str(secret_id))))),
{
        SecretsManagerSpanBuilder::describe_secret(unwrap_or_empty(secret_id))
}

/// The attributes recorded from a `DescribeSecret` response.
pub fn describe_secret_output_attributes(rotation_enabled: Option<bool>) -> (r: Vec<Attribute>)
    ensures
        attrs_view(r@) == opt_bool_attr("aws.secretsmanager.rotation_enabled"@, rotation_enabled),
{
    let mut extra: Vec<Attribute> = Vec::new();
    push_opt_bool(&mut extra, "aws.secretsmanager.rotation_enabled", rotation_enabled);
    assert(attrs_view(extra@) =~= opt_bool_attr("aws.secretsmanager.rotation_enabled"@, rotation_enabled));
    extra
}

/// The span of a SecretsManager `UpdateSecret` request: the `UpdateSecret` span on `secret_id` (empty when unset) with the request attributes that are set.
pub fn update_secret_span<'a>(secret_id: Option<&str>) -> (r: AwsSpanBuilder<'a>)
    ensures
        r.built(SpanKind::Client, "SecretsManager"@, "UpdateSecret"@, secretsmanager_attrs(Some(or_empty(opt_str(secret_id))))),
{
        SecretsManagerSpanBuilder::update_secret(unwrap_or_empty(secret_id))
}

/// The attributes recorded from a `UpdateSecret` response.
pub fn update_secret_output_attributes(version_id: Option<&str>) -> (r: Vec<Attribute>)
    ensures
        attrs_view(r@) == opt_attr("aws.secretsmanager.version_id"@, opt_str(version_id)),
{
    let mut extra: Vec<Attribute> = Vec::new();
    push_opt(&mut extra, "aws.secretsmanager.version_id", version_id);
    assert(attrs_view(extra@) =~= opt_attr("aws.secretsmanager.version_id"@, opt_str(version_id)));
    extra
}

/// The span of a SecretsManager `RestoreSecret` request: the `RestoreSecret` span on `secret_id` (empty when unset) with the request attributes that are set.
pub fn restore_secret_span<'a>(secret_id: Option<&str>) -> (r: AwsSpanBuilder<'a>)
    ensures
        r.built(SpanKind::Client, "SecretsManager"@, "RestoreSecret"@, secretsmanager_attrs(Some(or_empty(opt_str(secret_id))))),
{
        SecretsManagerSpanBuilder::restore_secret(unwrap_or_empty(secret_id))
}

/// The span of a SecretsManager `RotateSecret` request: the `RotateSecret` span on `secret_id` (empty when unset) with the request attributes that are set.
pub fn rotate_secret_span<'a>(secret_id: Option<&str>) -> (r: AwsSpanBuilder<'a>)
    ensures
        r.built(SpanKind::Client, "SecretsManager"@, "RotateSecret"@, secretsmanager_attrs(Some(or_empty(opt_str(secret_id))))),
{
        SecretsManagerSpanBuilder::rotate_secret(unwrap_or_empty(secret_id))
}

/// The attributes recorded from a `RotateSecret` response.
pub fn rotate_secret_output_attributes(version_id: Option<&str>) -> (r: Vec<Attribute>)
    ensures
        attrs_view(r@) == opt_attr("aws.secretsmanager.version_id"@, opt_str(version_id)),
{
    let mut extra: Vec<Attribute> = Vec::new();
    push_opt(&mut extra, "aws.secretsmanager.version_id", version_id);
    assert(attrs_view(extra@) =~= opt_attr("aws.secretsmanager.version_id"@, opt_str(version_id)));
    extra
}

/// The span of a SecretsManager `CancelRotateSecret` request: the `CancelRotateSecret` span on `secret_id` (empty when unset) with the request attributes that are set.
pub fn cancel_rotate_secret_span<'a>(secret_id: Option<&str>) -> (r: AwsSpanBuilder<'a>)
    ensures
        r.built(SpanKind::Client, "SecretsManager"@, "CancelRotateSecret"@, secretsmanager_attrs(Some(or_empty(opt_str(secret_id))))),
{
        SecretsManagerSpanBuilder::cancel_rotate_secret(unwrap_or_empty(secret_id))
}

/// The span of a SecretsManager `UpdateSecretVersionStage` request: the `UpdateSecretVersionStage` span on `secret_id` (empty when unset) with the request attributes that are set.
pub fn update_secret_version_stage_span<'a>(secret_id: Option<&str>, version_stage: Option<&str>, move_to_version_id: Option<&str>, remove_from_version_id: Option<&str>) -> (r: AwsSpanBuilder<'a>)
    ensures
        r.built(SpanKind::Client, "SecretsManager"@, "UpdateSecretVersionStage"@, secretsmanager_attrs(Some(or_empty(opt_str(secret_id)))) + (opt_attr("aws.secretsmanager.version_stage"@, opt_str(version_stage)) + opt_attr("aws.secretsmanager.move_to_version_id"@, opt_str(move_to_version_id)) + opt_attr("aws.secretsmanager.remove_from_version_id"@, opt_str(remove_from_version_id)))),
{
        let b = SecretsManagerSpanBuilder::update_secret_version_stage(unwrap_or_empty(secret_id));
        let mut extra: Vec<Attribute> = Vec::new();
        push_opt(&mut extra, "aws.secretsmanager.version_stage", version_stage);
        push_opt(&mut extra, "aws.secretsmanager.move_to_version_id", move_to_version_id);
        push_opt(&mut extra, "aws.secretsmanager.remove_from_version_id", remove_from_version_id);
        assert(attrs_view(extra@) =~= opt_attr("aws.secretsmanager.version_stage"@, opt_str(version_stage)) + opt_attr("aws.secretsmanager.move_to_version_id"@, opt_str(move_to_version_id)) + opt_attr("aws.secretsmanager.remove_from_version_id"@, opt_str(remove_from_version_id)));
        b.extend(extra)
}

/// The span of a SecretsManager `ListSecretVersionIds` request: the `ListSecretVersionIds` span on `secret_id` (empty when unset) with the request attributes that are set.
pub fn list_secret_version_ids_span<'a>(secret_id: Option<&str>, max_results: Option<i32>) -> (r: AwsSpanBuilder<'a>)
    ensures
        r.built(SpanKind::Client, "SecretsManager"@, "ListSecretVersionIds"@, secretsmanager_attrs(Some(or_empty(opt_str(secret_id)))) + (opt_i64_attr("aws.secretsmanager.max_results"@, widen(max_results)))),
{
        let b = SecretsManagerSpanBuilder::list_secret_version_ids(unwrap_or_empty(secret_id));
        let mut extra: Vec<Attribute> = Vec::new();
        push_opt_i32(&mut extra, "aws.secretsmanager.max_results", max_results);
        assert(attrs_view(extra@) =~= opt_i64_attr("aws.secretsmanager.max_results"@, widen(max_results)));
        b.extend(extra)
}

/// The attributes recorded from a `ListSecretVersionIds` response.
pub fn list_secret_version_ids_output_attributes(versions: usize) -> (r: Vec<Attribute>)
    ensures
        attrs_view(r@) == count_attr("aws.secretsmanager.version_count"@, versions),
{
    let mut extra: Vec<Attribute> = Vec::new();
    push_count(&mut extra, "aws.secretsmanager.version_count", versions);
    assert(attrs_view(extra@) =~= count_attr("aws.secretsmanager.version_count"@, versions));
    extra
}

/// The span of a SecretsManager `TagResource` request: the `TagResource` span on `secret_id` (empty when unset) with the request attributes that are set.
pub fn tag_resource_span<'a>(secret_id: Option<&str>) -> (r: AwsSpanBuilder<'a>)
    ensures
        r.built(SpanKind::Client, "SecretsManager"@, "TagResource"@, secretsmanager_attrs(Some(or_empty(opt_str(secret_id))))),
{
        SecretsManagerSpanBuilder::tag_resource(unwrap_or_empty(secret_id))
}

/// The span of a SecretsManager `UntagResource` request: the `UntagResource` span on `secret_id` (empty when unset) with the request attributes that are set.
pub fn untag_resource_span<'a>(secret_id: Option<&str>) -> (r: AwsSpanBuilder<'a>)
    ensures
        r.built(SpanKind::Client, "SecretsManager"@, "UntagResource"@, secretsmanager_attrs(Some(or_empty(opt_str(secret_id))))),
{
        SecretsManagerSpanBuilder::untag_resource(unwrap_or_empty(secret_id))
}

/// The span of a SecretsManager `GetResourcePolicy` request: the `GetResourcePolicy` span on `secret_id` (empty when unset) with the request attributes that are set.
pub fn get_resource_policy_span<'a>(secret_id: Option<&str>) -> (r: AwsSpanBuilder<'a>)
    ensures
        r.built(SpanKind::Client, "SecretsManager"@, "GetResourcePolicy"@, secretsmanager_attrs(Some(or_empty(opt_str(secret_id))))),
{
        SecretsManagerSpanBuilder::get_resource_policy(unwrap_or_empty(secret_id))
}

/// The span of a SecretsManager `PutResourcePolicy` request: the `PutResourcePolicy` span on `secret_id` (empty when unset) with the request attributes that are set.
pub fn put_resource_policy_span<'a>(secret_id: Option<&str>) -> (r: AwsSpanBuilder<'a>)
    ensures
        r.built(SpanKind::Client, "SecretsManager"@, "PutResourcePolicy"@, secretsmanager_attrs(Some(or_empty(opt_str(secret_id))))),
{
        SecretsManagerSpanBuilder::put_resource_policy(unwrap_or_empty(secret_id))
}

/// The span of a SecretsManager `DeleteResourcePolicy` request: the `DeleteResourcePolicy` span on `secret_id` (empty when unset) with the request attributes that are set.
pub fn delete_resource_policy_span<'a>(secret_id: Option<&str>) -> (r: AwsSpanBuilder<'a>)
    ensures
        r.built(SpanKind::Client, "SecretsManager"@, "DeleteResourcePolicy"@, secretsmanager_attrs(Some(or_empty(opt_str(secret_id))))),
{
        SecretsManagerSpanBuilder::delete_resource_policy(unwrap_or_empty(secret_id))
}

/// The span of a SecretsManager `RemoveRegionsFromReplication` request: the `RemoveRegionsFromReplication` span on `secret_id` (empty when unset) with the request attributes that are set.
pub fn remove_regions_from_replication_span<'a>(secret_id: Option<&str>) -> (r: AwsSpanBuilder<'a>)
    ensures
        r.built(SpanKind::Client, "SecretsManager"@, "RemoveRegionsFromReplication"@, secretsmanager_attrs(Some(or_empty(opt_str(secret_id))))),
{
        SecretsManagerSpanBuilder::remove_regions_from_replication(unwrap_or_empty(secret_id))
}

/// The span of a SecretsManager `ReplicateSecretToRegions` request: the `ReplicateSecretToRegions` span on `secret_id` (empty when unset) with the request attributes that are set.
pub fn replicate_secret_to_regions_span<'a>(secret_id: Option<&str>) -> (r: AwsSpanBuilder<'a>)
    ensures
        r.built(SpanKind::Client, "SecretsManager"@, "ReplicateSecretToRegions"@, secretsmanager_attrs(Some(or_empty(opt_str(secret_id))))),
{
        SecretsManagerSpanBuilder::replicate_secret_to_regions(unwrap_or_empty(secret_id))
}

/// The span of a SecretsManager `StopReplicationToReplica` request: the `StopReplicationToReplica` span on `secret_id` (empty when unset) with the request attributes that are set.
pub fn stop_replication_to_replica_span<'a>(secret_id: Option<&str>) -> (r: AwsSpanBuilder<'a>)
    ensures
        r.built(SpanKind::Client, "SecretsManager"@, "StopReplicationToReplica"@, secretsmanager_attrs(Some(or_empty(opt_str(secret_id))))),
{
        SecretsManagerSpanBuilder::stop_replication_to_replica(unwrap_or_empty(secret_id))
}

/// The span of a SecretsManager `ValidateResourcePolicy` request: the `ValidateResourcePolicy` span on `secret_id` (empty when unset) with the request attributes that are set.
pub fn validate_resource_policy_span<'a>(secret_id: Option<&str>) -> (r: AwsSpanBuilder<'a>)
    ensures
        r.built(SpanKind::Client, "SecretsManager"@, "ValidateResourcePolicy"@, secretsmanager_attrs(Some(or_empty(opt_str(secret_id))))),
{
        SecretsManagerSpanBuilder::validate_resource_policy(unwrap_or_empty(secret_id))
}

/// The attributes recorded from a `ValidateResourcePolicy` response.
pub fn validate_resource_policy_output_attributes(policy_validation_passed: Option<bool>, validation_errors: usize) -> (r: Vec<Attribute>)
    ensures
        attrs_view(r@) == opt_bool_attr("aws.secretsmanager.policy_validation_passed"@, policy_validation_passed) + count_attr("aws.secretsmanager.validation_error_count"@, validation_errors),
{
    let mut extra: Vec<Attribute> = Vec::new();
    push_opt_bool(&mut extra, "aws.secretsmanager.policy_validation_passed", policy_validation_passed);
    push_count(&mut extra, "aws.secretsmanager.validation_error_count", validation_errors);
    assert(attrs_view(extra@) =~= opt_bool_attr("aws.secretsmanager.policy_validation_passed"@, policy_validation_passed) + count_attr("aws.secretsmanager.validation_error_count"@, validation_errors));
    extra
}

/// The span of a SecretsManager `ListSecrets` request, with the request attributes that are set.
pub fn list_secrets_span<'a>(max_results: Option<i32>) -> (r: AwsSpanBuilder<'a>)
    ensures
        r.built(SpanKind::Client, "SecretsManager"@, "ListSecrets"@, secretsmanager_attrs(None) + (opt_i64_attr("aws.secretsmanager.max_results"@, widen(max_results)))),
{
        let b = SecretsManagerSpanBuilder::list_secrets();
        let mut extra: Vec<Attribute> = Vec::new();
        push_opt_i32(&mut extra, "aws.secretsmanager.max_results", max_results);
        assert(attrs_view(extra@) =~= opt_i64_attr("aws.secretsmanager.max_results"@, widen(max_results)));
        b.extend(extra)
}

/// The attributes recorded from a `ListSecrets` response.
pub fn list_secrets_output_attributes(secrets: usize) -> (r: Vec<Attribute>)
    ensures
        attrs_view(r@) == count_attr("aws.secretsmanager.secret_count"@, secrets),
{
    let mut extra: Vec<Attribute> = Vec::new();
    push_count(&mut extra, "aws.secretsmanager.secret_count", secrets);
    assert(attrs_view(extra@) =~= count_attr("aws.secretsmanager.secret_count"@, secrets));
    extra
}

/// The span of a SecretsManager `BatchGetSecretValue` request, with the request attributes that are set.
pub fn batch_get_secret_value_span<'a>(secret_ids: Option<usize>) -> (r: AwsSpanBuilder<'a>)
    ensures
        r.built(SpanKind::Client, "SecretsManager"@, "BatchGetSecretValue"@, secretsmanager_attrs(None) + (opt_count_attr("aws.secretsmanager.secret_count"@, secret_ids))),
{
        let b = SecretsManagerSpanBuilder::batch_get_secret_value();
        let mut extra: Vec<Attribute> = Vec::new();
        push_opt_count(&mut extra, "aws.secretsmanager.secret_count", secret_ids);
        assert(attrs_view(extra@) =~= opt_count_attr("aws.secretsmanager.secret_count"@, secret_ids));
        b.extend(extra)
}

/// The attributes recorded from a `BatchGetSecretValue` response.
pub fn batch_get_secret_value_output_attributes(secret_values: usize, errors: usize) -> (r: Vec<Attribute>)
    ensures
        attrs_view(r@) == count_attr("aws.secretsmanager.secret_values_count"@, secret_values) + count_attr("aws.secretsmanager.error_count"@, errors),
{
    let mut extra: Vec<Attribute> = Vec::new();
    push_count(&mut extra, "aws.secretsmanager.secret_values_count", secret_values);
    push_count(&mut extra, "aws.secretsmanager.error_count", errors);
    assert(attrs_view(extra@) =~= count_attr("aws.secretsmanager.secret_values_count"@, secret_values) + count_attr("aws.secretsmanager.error_count"@, errors));
    extra
}

/// The span of a SecretsManager `GetRandomPassword` request, with the request attributes that are set.
pub fn get_random_password_span<'a>(password_length: Option<i64>) -> (r: AwsSpanBuilder<'a>)
    ensures
        r.built(SpanKind::Client, "SecretsManager"@, "GetRandomPassword"@, secretsmanager_attrs(None) + (opt_i64_attr("aws.secretsmanager.password_length"@, password_length))),
{
        let b = SecretsManagerSpanBuilder::get_random_password();
        let mut extra: Vec<Attribute> = Vec::new();
        push_opt_i64(&mut extra, "aws.secretsmanager.password_length", password_length);
        assert(attrs_view(extra@) =~= opt_i64_attr("aws.secretsmanager.password_length"@, password_length));
        b.extend(extra)
}

} // verus!
