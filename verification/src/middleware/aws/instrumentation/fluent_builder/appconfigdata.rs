//! Span descriptions of AWS AppConfig Data requests and responses.
use vstd::prelude::*;

use crate::middleware::aws::AwsSpanBuilder;
use crate::span::{attrs_view, opt_attr, opt_i64_attr, opt_str, or_empty, push_opt, push_opt_i32, push_opt_i64, unwrap_or_empty, widen, Attribute, SpanKind};
use crate::middleware::aws::operations::appconfigdata::{appconfigdata_attrs, AppConfigDataSpanBuilder};

verus! {

/// The span of a AppConfigData `StartConfigurationSession` request: the `StartConfigurationSession` span on `application_id` (empty when unset) with the request attributes that are set.
pub fn start_configuration_session_span<'a>(application_id: Option<&str>, environment_id: Option<&str>, configuration_profile_id: Option<&str>, required_minimum_poll_interval_in_seconds: Option<i32>) -> (r: AwsSpanBuilder<'a>)
    ensures
        r.built(SpanKind::Client, "AppConfigData"@, "StartConfigurationSession"@, appconfigdata_attrs(Some(or_empty(opt_str(application_id)))) + (opt_attr("aws.appconfigdata.environment_id"@, opt_str(environment_id)) + opt_attr("aws.appconfigdata.configuration_profile_id"@, opt_str(configuration_profile_id)) + opt_i64_attr("aws.appconfigdata.required_minimum_poll_interval_in_seconds"@, widen(required_minimum_poll_interval_in_seconds)))),
{
        let b = AppConfigDataSpanBuilder::start_configuration_session(unwrap_or_empty(application_id));
        let mut extra: Vec<Attribute> = Vec::new();
        push_opt(&mut extra, "aws.appconfigdata.environment_id", environment_id);
        push_opt(&mut extra, "aws.appconfigdata.configuration_profile_id", configuration_profile_id);
        push_opt_i32(&mut extra, "aws.appconfigdata.required_minimum_poll_interval_in_seconds", required_minimum_poll_interval_in_seconds);
        assert(attrs_view(extra@) =~= opt_attr("aws.appconfigdata.environment_id"@, opt_str(environment_id)) + opt_attr("aws.appconfigdata.configuration_profile_id"@, opt_str(configuration_profile_id)) + opt_i64_attr("aws.appconfigdata.required_minimum_poll_interval_in_seconds"@, widen(required_minimum_poll_interval_in_seconds)));
        b.extend(extra)
}

/// The span of a AppConfigData `GetLatestConfiguration` request, with the request attributes that are set.
pub fn get_latest_configuration_span<'a>() -> (r: AwsSpanBuilder<'a>)
    ensures
        r.built(SpanKind::Client, "AppConfigData"@, "GetLatestConfiguration"@, appconfigdata_attrs(None)),
{
        AppConfigDataSpanBuilder::get_latest_configuration()
}

/// The attributes recorded from a `GetLatestConfiguration` response.
pub fn get_latest_configuration_output_attributes(content_type: Option<&str>, version_label: Option<&str>, next_poll_interval_in_seconds: Option<i64>) -> (r: Vec<Attribute>)
    ensures
        attrs_view(r@) == opt_attr("aws.appconfigdata.content_type"@, opt_str(content_type)) + opt_attr("aws.appconfigdata.version_label"@, opt_str(version_label)) + opt_i64_attr("aws.appconfigdata.next_poll_interval_in_seconds"@, next_poll_interval_in_seconds),
{
    let mut extra: Vec<Attribute> = Vec::new();
    push_opt(&mut extra, "aws.appconfigdata.content_type", content_type);
    push_opt(&mut extra, "aws.appconfigdata.version_label", version_label);
    push_opt_i64(&mut extra, "aws.appconfigdata.next_poll_interval_in_seconds", next_poll_interval_in_seconds);
    assert(attrs_view(extra@) =~= opt_attr("aws.appconfigdata.content_type"@, opt_str(content_type)) + opt_attr("aws.appconfigdata.version_label"@, opt_str(version_label)) + opt_i64_attr("aws.appconfigdata.next_poll_interval_in_seconds"@, next_poll_interval_in_seconds));
    extra
}

} // verus!
