//! Span descriptions of AWS Systems Manager parameter requests and responses.
use vstd::prelude::*;

use crate::middleware::aws::AwsSpanBuilder;
use crate::span::{attrs_view, count_attr, opt_attr, opt_bool_attr, opt_count_attr, opt_i64_attr, opt_str, or_empty, push_count, push_opt, push_opt_bool, push_opt_count, push_opt_i32, push_opt_i64, unwrap_or_empty, widen, Attribute, SpanKind};
use crate::middleware::aws::operations::ssm::{ssm_attrs, SsmSpanBuilder};

verus! {

/// The span of a SSM `GetParameter` request: the `GetParameter` span on `name` (empty when unset) with the request attributes that are set.
pub fn get_parameter_span<'a>(name: Option<&str>, with_decryption: Option<bool>) -> (r: AwsSpanBuilder<'a>)
    ensures
        r.built(SpanKind::Client, "SSM"@, "GetParameter"@, ssm_attrs(Some(or_empty(opt_str(name)))) + (opt_bool_attr("aws.ssm.with_decryption"@, with_decryption))),
{
        let b = SsmSpanBuilder::get_parameter(unwrap_or_empty(name));
        let mut extra: Vec<Attribute> = Vec::new();
        push_opt_bool(&mut extra, "aws.ssm.with_decryption", with_decryption);
        assert(attrs_view(extra@) =~= opt_bool_attr("aws.ssm.with_decryption"@, with_decryption));
        b.extend(extra)
}

/// The attributes recorded from a `GetParameter` response.
pub fn get_parameter_output_attributes(parameter_version: Option<i64>) -> (r: Vec<Attribute>)
    ensures
        attrs_view(r@) == opt_i64_attr("aws.ssm.parameter_version"@, parameter_version),
{
    let mut extra: Vec<Attribute> = Vec::new();
    push_opt_i64(&mut extra, "aws.ssm.parameter_version", parameter_version);
    assert(attrs_view(extra@) =~= opt_i64_attr("aws.ssm.parameter_version"@, parameter_version));
    extra
}

/// The span of a SSM `PutParameter` request: the `PutParameter` span on `name` (empty when unset) with the request attributes that are set.
pub fn put_parameter_span<'a>(name: Option<&str>, overwrite: Option<bool>, parameter_type: Option<&str>, tier: Option<&str>) -> (r: AwsSpanBuilder<'a>)
    ensures
        r.built(SpanKind::Client, "SSM"@, "PutParameter"@, ssm_attrs(Some(or_empty(opt_str(name)))) + (opt_bool_attr("aws.ssm.overwrite"@, overwrite) + opt_attr("aws.ssm.type"@, opt_str(parameter_type)) + opt_attr("aws.ssm.tier"@, opt_str(tier)))),
{
        let b = SsmSpanBuilder::put_parameter(unwrap_or_empty(name));
        let mut extra: Vec<Attribute> = Vec::new();
        push_opt_bool(&mut extra, "aws.ssm.overwrite", overwrite);
        push_opt(&mut extra, "aws.ssm.type", parameter_type);
        push_opt(&mut extra, "aws.ssm.tier", tier);
        assert(attrs_view(extra@) =~= opt_bool_attr("aws.ssm.overwrite"@, overwrite) + opt_attr("aws.ssm.type"@, opt_str(parameter_type)) + opt_attr("aws.ssm.tier"@, opt_str(tier)));
        b.extend(extra)
}

/// The attributes recorded from a `PutParameter` response.
pub fn put_parameter_output_attributes(tier: Option<&str>) -> (r: Vec<Attribute>)
    ensures
        attrs_view(r@) == opt_attr("aws.ssm.tier"@, opt_str(tier)),
{
    let mut extra: Vec<Attribute> = Vec::new();
    push_opt(&mut extra, "aws.ssm.tier", tier);
    assert(attrs_view(extra@) =~= opt_attr("aws.ssm.tier"@, opt_str(tier)));
    extra
}

/// The span of a SSM `DeleteParameter` request: the `DeleteParameter` span on `name` (empty when unset) with the request attributes that are set.
pub fn delete_parameter_span<'a>(name: Option<&str>) -> (r: AwsSpanBuilder<'a>)
    ensures
        r.built(SpanKind::Client, "SSM"@, "DeleteParameter"@, ssm_attrs(Some(or_empty(opt_str(name))))),
{
        SsmSpanBuilder::delete_parameter(unwrap_or_empty(name))
}

/// The span of a SSM `GetParameterHistory` request: the `GetParameterHistory` span on `name` (empty when unset) with the request attributes that are set.
pub fn get_parameter_history_span<'a>(name: Option<&str>, with_decryption: Option<bool>, max_results: Option<i32>) -> (r: AwsSpanBuilder<'a>)
    ensures
        r.built(SpanKind::Client, "SSM"@, "GetParameterHistory"@, ssm_attrs(Some(or_empty(opt_str(name)))) + (opt_bool_attr("aws.ssm.with_decryption"@, with_decryption) + opt_i64_attr("aws.ssm.max_results"@, widen(max_results)))),
{
        let b = SsmSpanBuilder::get_parameter_history(unwrap_or_empty(name));
        let mut extra: Vec<Attribute> = Vec::new();
        push_opt_bool(&mut extra, "aws.ssm.with_decryption", with_decryption);
        push_opt_i32(&mut extra, "aws.ssm.max_results", max_results);
        assert(attrs_view(extra@) =~= opt_bool_attr("aws.ssm.with_decryption"@, with_decryption) + opt_i64_attr("aws.ssm.max_results"@, widen(max_results)));
        b.extend(extra)
}

/// The span of a SSM `LabelParameterVersion` request: the `LabelParameterVersion` span on `name` (empty when unset) with the request attributes that are set.
pub fn label_parameter_version_span<'a>(name: Option<&str>, parameter_version: Option<i64>) -> (r: AwsSpanBuilder<'a>)
    ensures
        r.built(SpanKind::Client, "SSM"@, "LabelParameterVersion"@, ssm_attrs(Some(or_empty(opt_str(name)))) + (opt_i64_attr("aws.ssm.parameter_version"@, parameter_version))),
{
        let b = SsmSpanBuilder::label_parameter_version(unwrap_or_empty(name));
        let mut extra: Vec<Attribute> = Vec::new();
        push_opt_i64(&mut extra, "aws.ssm.parameter_version", parameter_version);
        assert(attrs_view(extra@) =~= opt_i64_attr("aws.ssm.parameter_version"@, parameter_version));
        b.extend(extra)
}

/// The attributes recorded from a `LabelParameterVersion` response.
pub fn label_parameter_version_output_attributes(invalid_labels: usize) -> (r: Vec<Attribute>)
    ensures
        attrs_view(r@) == count_attr("aws.ssm.invalid_labels_count"@, invalid_labels),
{
    let mut extra: Vec<Attribute> = Vec::new();
    push_count(&mut extra, "aws.ssm.invalid_labels_count", invalid_labels);
    assert(attrs_view(extra@) =~= count_attr("aws.ssm.invalid_labels_count"@, invalid_labels));
    extra
}

/// The span of a SSM `UnlabelParameterVersion` request: the `UnlabelParameterVersion` span on `name` (empty when unset) with the request attributes that are set.
pub fn unlabel_parameter_version_span<'a>(name: Option<&str>, parameter_version: Option<i64>) -> (r: AwsSpanBuilder<'a>)
    ensures
        r.built(SpanKind::Client, "SSM"@, "UnlabelParameterVersion"@, ssm_attrs(Some(or_empty(opt_str(name)))) + (opt_i64_attr("aws.ssm.parameter_version"@, parameter_version))),
{
        let b = SsmSpanBuilder::unlabel_parameter_version(unwrap_or_empty(name));
        let mut extra: Vec<Attribute> = Vec::new();
        push_opt_i64(&mut extra, "aws.ssm.parameter_version", parameter_version);
        assert(attrs_view(extra@) =~= opt_i64_attr("aws.ssm.parameter_version"@, parameter_version));
        b.extend(extra)
}

/// The attributes recorded from a `UnlabelParameterVersion` response.
pub fn unlabel_parameter_version_output_attributes(removed_labels: usize, invalid_labels: usize) -> (r: Vec<Attribute>)
    ensures
        attrs_view(r@) == count_attr("aws.ssm.removed_labels_count"@, removed_labels) + count_attr("aws.ssm.invalid_labels_count"@, invalid_labels),
{
    let mut extra: Vec<Attribute> = Vec::new();
    push_count(&mut extra, "aws.ssm.removed_labels_count", removed_labels);
    push_count(&mut extra, "aws.ssm.invalid_labels_count", invalid_labels);
    assert(attrs_view(extra@) =~= count_attr("aws.ssm.removed_labels_count"@, removed_labels) + count_attr("aws.ssm.invalid_labels_count"@, invalid_labels));
    extra
}

/// The span of a SSM `GetParameters` request, with the request attributes that are set.
pub fn get_parameters_span<'a>(names: Option<usize>, with_decryption: Option<bool>) -> (r: AwsSpanBuilder<'a>)
    ensures
        r.built(SpanKind::Client, "SSM"@, "GetParameters"@, ssm_attrs(None) + (opt_count_attr("aws.ssm.parameter_count"@, names) + opt_bool_attr("aws.ssm.with_decryption"@, with_decryption))),
{
        let b = SsmSpanBuilder::get_parameters();
        let mut extra: Vec<Attribute> = Vec::new();
        push_opt_count(&mut extra, "aws.ssm.parameter_count", names);
        push_opt_bool(&mut extra, "aws.ssm.with_decryption", with_decryption);
        assert(attrs_view(extra@) =~= opt_count_attr("aws.ssm.parameter_count"@, names) + opt_bool_attr("aws.ssm.with_decryption"@, with_decryption));
        b.extend(extra)
}

/// The attributes recorded from a `GetParameters` response.
pub fn get_parameters_output_attributes(invalid_parameters: usize) -> (r: Vec<Attribute>)
    ensures
        attrs_view(r@) == count_attr("aws.ssm.invalid_parameters_count"@, invalid_parameters),
{
    let mut extra: Vec<Attribute> = Vec::new();
    push_count(&mut extra, "aws.ssm.invalid_parameters_count", invalid_parameters);
    assert(attrs_view(extra@) =~= count_attr("aws.ssm.invalid_parameters_count"@, invalid_parameters));
    extra
}

/// The span of a SSM `DeleteParameters` request, with the request attributes that are set.
pub fn delete_parameters_span<'a>(names: Option<usize>) -> (r: AwsSpanBuilder<'a>)
    ensures
        r.built(SpanKind::Client, "SSM"@, "DeleteParameters"@, ssm_attrs(None) + (opt_count_attr("aws.ssm.parameter_count"@, names))),
{
        let b = SsmSpanBuilder::delete_parameters();
        let mut extra: Vec<Attribute> = Vec::new();
        push_opt_count(&mut extra, "aws.ssm.parameter_count", names);
        assert(attrs_view(extra@) =~= opt_count_attr("aws.ssm.parameter_count"@, names));
        b.extend(extra)
}

/// The attributes recorded from a `DeleteParameters` response.
pub fn delete_parameters_output_attributes(deleted_parameters: usize, invalid_parameters: usize) -> (r: Vec<Attribute>)
    ensures
        attrs_view(r@) == count_attr("aws.ssm.deleted_count"@, deleted_parameters) + count_attr("aws.ssm.invalid_parameters_count"@, invalid_parameters),
{
    let mut extra: Vec<Attribute> = Vec::new();
    push_count(&mut extra, "aws.ssm.deleted_count", deleted_parameters);
    push_count(&mut extra, "aws.ssm.invalid_parameters_count", invalid_parameters);
    assert(attrs_view(extra@) =~= count_attr("aws.ssm.deleted_count"@, deleted_parameters) + count_attr("aws.ssm.invalid_parameters_count"@, invalid_parameters));
    extra
}

/// The span of a SSM `GetParametersByPath` request: the `GetParametersByPath` span on `path` (empty when unset) with the request attributes that are set.
pub fn get_parameters_by_path_span<'a>(path: Option<&str>, recursive: Option<bool>, with_decryption: Option<bool>, max_results: Option<i32>) -> (r: AwsSpanBuilder<'a>)
    ensures
        r.built(SpanKind::Client, "SSM"@, "GetParametersByPath"@, ssm_attrs(Some(or_empty(opt_str(path)))) + (opt_bool_attr("aws.ssm.recursive"@, recursive) + opt_bool_attr("aws.ssm.with_decryption"@, with_decryption) + opt_i64_attr("aws.ssm.max_results"@, widen(max_results)))),
{
        let b = SsmSpanBuilder::get_parameters_by_path(unwrap_or_empty(path));
        let mut extra: Vec<Attribute> = Vec::new();
        push_opt_bool(&mut extra, "aws.ssm.recursive", recursive);
        push_opt_bool(&mut extra, "aws.ssm.with_decryption", with_decryption);
        push_opt_i32(&mut extra, "aws.ssm.max_results", max_results);
        assert(attrs_view(extra@) =~= opt_bool_attr("aws.ssm.recursive"@, recursive) + opt_bool_attr("aws.ssm.with_decryption"@, with_decryption) + opt_i64_attr("aws.ssm.max_results"@, widen(max_results)));
        b.extend(extra)
}

/// The span of a SSM `DescribeParameters` request, with the request attributes that are set.
pub fn describe_parameters_span<'a>(max_results: Option<i32>) -> (r: AwsSpanBuilder<'a>)
    ensures
        r.built(SpanKind::Client, "SSM"@, "DescribeParameters"@, ssm_attrs(None) + (opt_i64_attr("aws.ssm.max_results"@, widen(max_results)))),
{
        let b = SsmSpanBuilder::describe_parameters();
        let mut extra: Vec<Attribute> = Vec::new();
        push_opt_i32(&mut extra, "aws.ssm.max_results", max_results);
        assert(attrs_view(extra@) =~= opt_i64_attr("aws.ssm.max_results"@, widen(max_results)));
        b.extend(extra)
}

} // verus!
