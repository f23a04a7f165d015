//! Span builders for AWS AppConfig Data operations.
use vstd::prelude::*;

use crate::middleware::aws::AwsSpanBuilder;
use crate::span::{attrs_view, opt_attr, opt_str, push_opt, Attribute, AttributeModel, SpanKind};

verus! {

/// Namespace of the span builders for AWS AppConfig Data operations.
pub struct AppConfigDataSpanBuilder(());

/// The attributes of a AppConfigData operation: the application id when there is one.
pub open spec fn appconfigdata_attrs(application_id: Option<Seq<char>>) -> Seq<AttributeModel> {
    opt_attr("aws.appconfigdata.application_id"@, application_id)
}

impl<'a> AwsSpanBuilder<'a> {
    /// A client span builder for the AppConfigData operation `method`, of the application `application_id` where one is given.
    pub fn appconfigdata(method: &str, application_id: Option<&str>) -> (r: Self)
        ensures
            r.built(SpanKind::Client, "AppConfigData"@, method@, appconfigdata_attrs(opt_str(application_id))),
    {
        let mut attributes: Vec<Attribute> = Vec::new();
        push_opt(&mut attributes, "aws.appconfigdata.application_id", application_id);
        assert(attrs_view(attributes@) =~= appconfigdata_attrs(opt_str(application_id)));
        Self::client("AppConfigData", method, attributes)
    }
}

impl AppConfigDataSpanBuilder {
    /// A span builder for the AppConfigData `StartConfigurationSession` operation on the application `application_id`.
    pub fn start_configuration_session<'a>(application_id: &str) -> (r: AwsSpanBuilder<'a>)
        ensures
            r.built(SpanKind::Client, "AppConfigData"@, "StartConfigurationSession"@, appconfigdata_attrs(Some(application_id@))),
    {
        AwsSpanBuilder::appconfigdata("StartConfigurationSession", Some(application_id))
    }

    /// A span builder for the AppConfigData `GetLatestConfiguration` operation, which names no application.
    pub fn get_latest_configuration<'a>() -> (r: AwsSpanBuilder<'a>)
        ensures
            r.built(SpanKind::Client, "AppConfigData"@, "GetLatestConfiguration"@, appconfigdata_attrs(None)),
    {
        AwsSpanBuilder::appconfigdata("GetLatestConfiguration", None)
    }
}

} // verus!
