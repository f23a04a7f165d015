//! Span descriptions of Amazon SageMaker Runtime requests and responses.
use vstd::prelude::*;

use crate::middleware::aws::AwsSpanBuilder;
use crate::span::{attrs_view, opt_attr, opt_str, or_empty, push_opt, unwrap_or_empty, Attribute, SpanKind};
use crate::middleware::aws::operations::sagemaker_runtime::{sagemaker_runtime_attrs, SageMakerRuntimeSpanBuilder};

verus! {

/// The span of a SageMaker Runtime `InvokeEndpoint` request: the `InvokeEndpoint` span on `endpoint_name` (empty when unset) with the request attributes that are set.
pub fn invoke_endpoint_span<'a>(endpoint_name: Option<&str>, target_model: Option<&str>, target_variant: Option<&str>, inference_component_name: Option<&str>) -> (r: AwsSpanBuilder<'a>)
    ensures
        r.built(SpanKind::Client, "SageMakerRuntime"@, "InvokeEndpoint"@, sagemaker_runtime_attrs(or_empty(opt_str(endpoint_name))) + (opt_attr("aws.sagemaker.target_model"@, opt_str(target_model)) + opt_attr("aws.sagemaker.target_variant"@, opt_str(target_variant)) + opt_attr("aws.sagemaker.inference_component_name"@, opt_str(inference_component_name)))),
{
        let b = SageMakerRuntimeSpanBuilder::invoke_endpoint(unwrap_or_empty(endpoint_name));
        let mut extra: Vec<Attribute> = Vec::new();
        push_opt(&mut extra, "aws.sagemaker.target_model", target_model);
        push_opt(&mut extra, "aws.sagemaker.target_variant", target_variant);
        push_opt(&mut extra, "aws.sagemaker.inference_component_name", inference_component_name);
        assert(attrs_view(extra@) =~= opt_attr("aws.sagemaker.target_model"@, opt_str(target_model)) + opt_attr("aws.sagemaker.target_variant"@, opt_str(target_variant)) + opt_attr("aws.sagemaker.inference_component_name"@, opt_str(inference_component_name)));
        b.extend(extra)
}

/// The attributes recorded from a `InvokeEndpoint` response.
pub fn invoke_endpoint_output_attributes(invoked_production_variant: Option<&str>) -> (r: Vec<Attribute>)
    ensures
        attrs_view(r@) == opt_attr("aws.sagemaker.invoked_production_variant"@, opt_str(invoked_production_variant)),
{
    let mut extra: Vec<Attribute> = Vec::new();
    push_opt(&mut extra, "aws.sagemaker.invoked_production_variant", invoked_production_variant);
    assert(attrs_view(extra@) =~= opt_attr("aws.sagemaker.invoked_production_variant"@, opt_str(invoked_production_variant)));
    extra
}

/// The span of a SageMaker Runtime `InvokeEndpointAsync` request: the `InvokeEndpointAsync` span on `endpoint_name` (empty when unset) with the request attributes that are set.
pub fn invoke_endpoint_async_span<'a>(endpoint_name: Option<&str>, inference_id: Option<&str>, input_location: Option<&str>) -> (r: AwsSpanBuilder<'a>)
    ensures
        r.built(SpanKind::Client, "SageMakerRuntime"@, "InvokeEndpointAsync"@, sagemaker_runtime_attrs(or_empty(opt_str(endpoint_name))) + (opt_attr("aws.sagemaker.inference_id"@, opt_str(inference_id)) + opt_attr("aws.sagemaker.input_location"@, opt_str(input_location)))),
{
        let b = SageMakerRuntimeSpanBuilder::invoke_endpoint_async(unwrap_or_empty(endpoint_name));
        let mut extra: Vec<Attribute> = Vec::new();
        push_opt(&mut extra, "aws.sagemaker.inference_id", inference_id);
        push_opt(&mut extra, "aws.sagemaker.input_location", input_location);
        assert(attrs_view(extra@) =~= opt_attr("aws.sagemaker.inference_id"@, opt_str(inference_id)) + opt_attr("aws.sagemaker.input_location"@, opt_str(input_location)));
        b.extend(extra)
}

/// The attributes recorded from a `InvokeEndpointAsync` response.
pub fn invoke_endpoint_async_output_attributes(inference_id: Option<&str>) -> (r: Vec<Attribute>)
    ensures
        attrs_view(r@) == opt_attr("aws.sagemaker.inference_id"@, opt_str(inference_id)),
{
    let mut extra: Vec<Attribute> = Vec::new();
    push_opt(&mut extra, "aws.sagemaker.inference_id", inference_id);
    assert(attrs_view(extra@) =~= opt_attr("aws.sagemaker.inference_id"@, opt_str(inference_id)));
    extra
}

/// The span of a SageMaker Runtime `InvokeEndpointWithResponseStream` request: the `InvokeEndpointWithResponseStream` span on `endpoint_name` (empty when unset) with the request attributes that are set.
pub fn invoke_endpoint_with_response_stream_span<'a>(endpoint_name: Option<&str>, target_variant: Option<&str>, inference_component_name: Option<&str>) -> (r: AwsSpanBuilder<'a>)
    ensures
        r.built(SpanKind::Client, "SageMakerRuntime"@, "InvokeEndpointWithResponseStream"@, sagemaker_runtime_attrs(or_empty(opt_str(endpoint_name))) + (opt_attr("aws.sagemaker.target_variant"@, opt_str(target_variant)) + opt_attr("aws.sagemaker.inference_component_name"@, opt_str(inference_component_name)))),
{
        let b = SageMakerRuntimeSpanBuilder::invoke_endpoint_with_response_stream(unwrap_or_empty(endpoint_name));
        let mut extra: Vec<Attribute> = Vec::new();
        push_opt(&mut extra, "aws.sagemaker.target_variant", target_variant);
        push_opt(&mut extra, "aws.sagemaker.inference_component_name", inference_component_name);
        assert(attrs_view(extra@) =~= opt_attr("aws.sagemaker.target_variant"@, opt_str(target_variant)) + opt_attr("aws.sagemaker.inference_component_name"@, opt_str(inference_component_name)));
        b.extend(extra)
}

/// The attributes recorded from a `InvokeEndpointWithResponseStream` response.
pub fn invoke_endpoint_with_response_stream_output_attributes(invoked_production_variant: Option<&str>) -> (r: Vec<Attribute>)
    ensures
        attrs_view(r@) == opt_attr("aws.sagemaker.invoked_production_variant"@, opt_str(invoked_production_variant)),
{
    let mut extra: Vec<Attribute> = Vec::new();
    push_opt(&mut extra, "aws.sagemaker.invoked_production_variant", invoked_production_variant);
    assert(attrs_view(extra@) =~= opt_attr("aws.sagemaker.invoked_production_variant"@, opt_str(invoked_production_variant)));
    extra
}

} // verus!
