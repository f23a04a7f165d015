//! Span builders for Amazon SageMaker Runtime operations.
use vstd::prelude::*;

use crate::middleware::aws::AwsSpanBuilder;
use crate::span::{attrs_view, str_attr, owned, Attribute, AttributeModel, SpanKind};

verus! {

/// Namespace of the span builders for Amazon SageMaker Runtime operations.
pub struct SageMakerRuntimeSpanBuilder(());

/// The attributes of a SageMaker Runtime operation on the endpoint `endpoint_name`.
pub open spec fn sagemaker_runtime_attrs(endpoint_name: Seq<char>) -> Seq<AttributeModel> {
    seq![str_attr("aws.sagemaker.endpoint_name"@, endpoint_name)]
}

impl<'a> AwsSpanBuilder<'a> {
    /// A client span builder for the SageMaker Runtime operation `method` on
    /// the endpoint `endpoint_name`.
    pub fn sagemaker_runtime(method: &str, endpoint_name: &str) -> (r: Self)
        ensures
            r.built(
                SpanKind::Client,
                "SageMakerRuntime"@,
                method@,
                sagemaker_runtime_attrs(endpoint_name@),
            ),
    {
        let mut attributes: Vec<Attribute> = Vec::new();
        attributes.push(Attribute::string("aws.sagemaker.endpoint_name", owned(endpoint_name)));
        assert(attrs_view(attributes@) =~= sagemaker_runtime_attrs(endpoint_name@));
        Self::client("SageMakerRuntime", method, attributes)
    }
}

impl SageMakerRuntimeSpanBuilder {
    /// A span builder for the SageMaker Runtime `InvokeEndpoint` operation on the endpoint `endpoint_name`.
    pub fn invoke_endpoint<'a>(endpoint_name: &str) -> (r: AwsSpanBuilder<'a>)
        ensures
            r.built(SpanKind::Client, "SageMakerRuntime"@, "InvokeEndpoint"@, sagemaker_runtime_attrs(endpoint_name@)),
    {
        AwsSpanBuilder::sagemaker_runtime("InvokeEndpoint", endpoint_name)
    }

    /// A span builder for the SageMaker Runtime `InvokeEndpointAsync` operation on the endpoint `endpoint_name`.
    pub fn invoke_endpoint_async<'a>(endpoint_name: &str) -> (r: AwsSpanBuilder<'a>)
        ensures
            r.built(SpanKind::Client, "SageMakerRuntime"@, "InvokeEndpointAsync"@, sagemaker_runtime_attrs(endpoint_name@)),
    {
        AwsSpanBuilder::sagemaker_runtime("InvokeEndpointAsync", endpoint_name)
    }

    /// A span builder for the SageMaker Runtime `InvokeEndpointWithResponseStream` operation on the endpoint `endpoint_name`.
    pub fn invoke_endpoint_with_response_stream<'a>(endpoint_name: &str) -> (r: AwsSpanBuilder<'a>)
        ensures
            r.built(SpanKind::Client, "SageMakerRuntime"@, "InvokeEndpointWithResponseStream"@, sagemaker_runtime_attrs(endpoint_name@)),
    {
        AwsSpanBuilder::sagemaker_runtime("InvokeEndpointWithResponseStream", endpoint_name)
    }
}

} // verus!
