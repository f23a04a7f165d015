//! The service name and version that a tracer's resource carries, chosen from
//! the environment with fallbacks.
use vstd::prelude::*;

use crate::span::owned;

verus! {

/// Detection of the service name and version, with the fallbacks to use when
/// the environment names none.
///
/// The service name is, in order of priority: `OTEL_SERVICE_NAME`, the
/// `service.name` of `OTEL_RESOURCE_ATTRIBUTES`, `SERVICE_NAME`, `APP_NAME`,
/// and the fallback; the version likewise from `OTEL_SERVICE_VERSION`, the
/// `service.version` resource attribute, `SERVICE_VERSION`, `APP_VERSION`,
/// and the fallback.
#[derive(Debug)]
pub struct DetectResource {
    fallback_service_name: &'static str,
    fallback_service_version: &'static str,
}

/// The sources of one resource value, in order of priority.
pub struct ResourceSources {
    /// The dedicated OpenTelemetry variable (`OTEL_SERVICE_NAME` or
    /// `OTEL_SERVICE_VERSION`).
    pub otel_variable: Option<String>,
    /// The attribute from `OTEL_RESOURCE_ATTRIBUTES`.
    pub resource_attribute: Option<String>,
    /// The service variable (`SERVICE_NAME` or `SERVICE_VERSION`).
    pub service_variable: Option<String>,
    /// The application variable (`APP_NAME` or `APP_VERSION`).
    pub app_variable: Option<String>,
}

/// The first of the sources that is present, or `fallback`.
pub open spec fn spec_resolve(s: ResourceSources, fallback: Seq<char>) -> Seq<char> {
    match s.otel_variable {
        Some(v) => v@,
        None => match s.resource_attribute {
            Some(v) => v@,
            None => match s.service_variable {
                Some(v) => v@,
                None => match s.app_variable {
                    Some(v) => v@,
                    None => fallback,
                },
            },
        },
    }
}

/// The value chosen from the sources of a resource value: the dedicated
/// OpenTelemetry variable wins; without it the resource attribute; without
/// both the service variable; without those the application variable; and
/// the fallback only when none of the four is set.
pub proof fn lemma_resolve_priority(s: ResourceSources, fallback: Seq<char>)
    ensures
        s.otel_variable is Some ==> spec_resolve(s, fallback) == s.otel_variable->0@,
        s.otel_variable is None && s.resource_attribute is Some ==> spec_resolve(s, fallback)
            == s.resource_attribute->0@,
        s.otel_variable is None && s.resource_attribute is None && s.service_variable is Some
            ==> spec_resolve(s, fallback) == s.service_variable->0@,
        s.otel_variable is None && s.resource_attribute is None && s.service_variable is None
            && s.app_variable is Some ==> spec_resolve(s, fallback) == s.app_variable->0@,
        s.otel_variable is None && s.resource_attribute is None && s.service_variable is None
            && s.app_variable is None ==> spec_resolve(s, fallback) == fallback,
{
}

/// The first of the sources that is present, or `fallback`.
pub fn resolve(s: ResourceSources, fallback: &str) -> (r: String)
    ensures
        r@ == spec_resolve(s, fallback@),
{
    match s.otel_variable {
        Some(v) => v,
        None => match s.resource_attribute {
            Some(v) => v,
            None => match s.service_variable {
                Some(v) => v,
                None => match s.app_variable {
                    Some(v) => v,
                    None => owned(fallback),
                },
            },
        },
    }
}

impl DetectResource {
    /// The fallback service name.
    pub closed spec fn spec_fallback_service_name(self) -> Seq<char> {
        self.fallback_service_name@
    }

    /// The fallback service version.
    pub closed spec fn spec_fallback_service_version(self) -> Seq<char> {
        self.fallback_service_version@
    }

    /// Detection with the given fallbacks.
    pub fn new(fallback_service_name: &'static str, fallback_service_version: &'static str) -> (r: Self)
        ensures
            r.spec_fallback_service_name() == fallback_service_name@,
            r.spec_fallback_service_version() == fallback_service_version@,
    {
        DetectResource { fallback_service_name, fallback_service_version }
    }

    /// The service name from its sources, or the fallback name.
    pub fn service_name(&self, sources: ResourceSources) -> (r: String)
        ensures
            r@ == spec_resolve(sources, self.spec_fallback_service_name()),
    {
        resolve(sources, self.fallback_service_name)
    }

    /// The service version from its sources, or the fallback version.
    pub fn service_version(&self, sources: ResourceSources) -> (r: String)
        ensures
            r@ == spec_resolve(sources, self.spec_fallback_service_version()),
    {
        resolve(sources, self.fallback_service_version)
    }
}

} // verus!
