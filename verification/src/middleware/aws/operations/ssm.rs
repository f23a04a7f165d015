//! Span builders for AWS Systems Manager parameter operations.
use vstd::prelude::*;

use crate::middleware::aws::AwsSpanBuilder;
use crate::span::{attrs_view, opt_attr, opt_str, push_opt, Attribute, AttributeModel, SpanKind};

verus! {

/// Namespace of the span builders for AWS Systems Manager operations.
pub struct SsmSpanBuilder(());

/// The attributes of a SSM operation: the parameter name when there is one.
pub open spec fn ssm_attrs(parameter_name: Option<Seq<char>>) -> Seq<AttributeModel> {
    opt_attr("aws.ssm.parameter_name"@, parameter_name)
}

impl<'a> AwsSpanBuilder<'a> {
    /// A client span builder for the SSM operation `method`, on the parameter `parameter_name` where one is given.
    pub fn ssm(method: &str, parameter_name: Option<&str>) -> (r: Self)
        ensures
            r.built(SpanKind::Client, "SSM"@, method@, ssm_attrs(opt_str(parameter_name))),
    {
        let mut attributes: Vec<Attribute> = Vec::new();
        push_opt(&mut attributes, "aws.ssm.parameter_name", parameter_name);
        assert(attrs_view(attributes@) =~= ssm_attrs(opt_str(parameter_name)));
        Self::client("SSM", method, attributes)
    }
}

impl SsmSpanBuilder {
    /// A span builder for the SSM `GetParameter` operation on the parameter `parameter_name`.
    pub fn get_parameter<'a>(parameter_name: &str) -> (r: AwsSpanBuilder<'a>)
        ensures
            r.built(SpanKind::Client, "SSM"@, "GetParameter"@, ssm_attrs(Some(parameter_name@))),
    {
        AwsSpanBuilder::ssm("GetParameter", Some(parameter_name))
    }

    /// A span builder for the SSM `PutParameter` operation on the parameter `parameter_name`.
    pub fn put_parameter<'a>(parameter_name: &str) -> (r: AwsSpanBuilder<'a>)
        ensures
            r.built(SpanKind::Client, "SSM"@, "PutParameter"@, ssm_attrs(Some(parameter_name@))),
    {
        AwsSpanBuilder::ssm("PutParameter", Some(parameter_name))
    }

    /// A span builder for the SSM `DeleteParameter` operation on the parameter `parameter_name`.
    pub fn delete_parameter<'a>(parameter_name: &str) -> (r: AwsSpanBuilder<'a>)
        ensures
            r.built(SpanKind::Client, "SSM"@, "DeleteParameter"@, ssm_attrs(Some(parameter_name@))),
    {
        AwsSpanBuilder::ssm("DeleteParameter", Some(parameter_name))
    }

    /// A span builder for the SSM `GetParameterHistory` operation on the parameter `parameter_name`.
    pub fn get_parameter_history<'a>(parameter_name: &str) -> (r: AwsSpanBuilder<'a>)
        ensures
            r.built(SpanKind::Client, "SSM"@, "GetParameterHistory"@, ssm_attrs(Some(parameter_name@))),
    {
        AwsSpanBuilder::ssm("GetParameterHistory", Some(parameter_name))
    }

    /// A span builder for the SSM `LabelParameterVersion` operation on the parameter `parameter_name`.
    pub fn label_parameter_version<'a>(parameter_name: &str) -> (r: AwsSpanBuilder<'a>)
        ensures
            r.built(SpanKind::Client, "SSM"@, "LabelParameterVersion"@, ssm_attrs(Some(parameter_name@))),
    {
        AwsSpanBuilder::ssm("LabelParameterVersion", Some(parameter_name))
    }

    /// A span builder for the SSM `UnlabelParameterVersion` operation on the parameter `parameter_name`.
    pub fn unlabel_parameter_version<'a>(parameter_name: &str) -> (r: AwsSpanBuilder<'a>)
        ensures
            r.built(SpanKind::Client, "SSM"@, "UnlabelParameterVersion"@, ssm_attrs(Some(parameter_name@))),
    {
        AwsSpanBuilder::ssm("UnlabelParameterVersion", Some(parameter_name))
    }

    /// A span builder for the SSM `GetParametersByPath` operation on the parameter `parameter_name`.
    pub fn get_parameters_by_path<'a>(parameter_name: &str) -> (r: AwsSpanBuilder<'a>)
        ensures
            r.built(SpanKind::Client, "SSM"@, "GetParametersByPath"@, ssm_attrs(Some(parameter_name@))),
    {
        AwsSpanBuilder::ssm("GetParametersByPath", Some(parameter_name))
    }

    /// A span builder for the SSM `GetParameters` operation, which names no parameter.
    pub fn get_parameters<'a>() -> (r: AwsSpanBuilder<'a>)
        ensures
            r.built(SpanKind::Client, "SSM"@, "GetParameters"@, ssm_attrs(None)),
    {
        AwsSpanBuilder::ssm("GetParameters", None)
    }

    /// A span builder for the SSM `DeleteParameters` operation, which names no parameter.
    pub fn delete_parameters<'a>() -> (r: AwsSpanBuilder<'a>)
        ensures
            r.built(SpanKind::Client, "SSM"@, "DeleteParameters"@, ssm_attrs(None)),
    {
        AwsSpanBuilder::ssm("DeleteParameters", None)
    }

    /// A span builder for the SSM `DescribeParameters` operation, which names no parameter.
    pub fn describe_parameters<'a>() -> (r: AwsSpanBuilder<'a>)
        ensures
            r.built(SpanKind::Client, "SSM"@, "DescribeParameters"@, ssm_attrs(None)),
    {
        AwsSpanBuilder::ssm("DescribeParameters", None)
    }
}

} // verus!
