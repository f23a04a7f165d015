//! Span builders for Amazon S3 operations.
use vstd::prelude::*;

use crate::middleware::aws::AwsSpanBuilder;
use crate::semconv;
use crate::span::{attrs_view, opt_attr, opt_str, push_opt, Attribute, AttributeModel, SpanKind};

verus! {

/// Namespace of the span builders for Amazon S3 operations.
pub struct S3SpanBuilder(());

/// The attributes of an S3 operation: the bucket and the object key, each
/// when there is one.
pub open spec fn s3_attrs(bucket: Option<Seq<char>>, key: Option<Seq<char>>) -> Seq<AttributeModel> {
    opt_attr(semconv::AWS_S3_BUCKET@, bucket) + opt_attr(semconv::AWS_S3_KEY@, key)
}

impl<'a> AwsSpanBuilder<'a> {
    /// A client span builder for the S3 operation `method`, on the bucket
    /// `bucket` and the object `key` where they are given.
    pub fn s3(method: &str, bucket: Option<&str>, key: Option<&str>) -> (r: Self)
        ensures
            r.built(SpanKind::Client, "S3"@, method@, s3_attrs(opt_str(bucket), opt_str(key))),
    {
        let mut attributes: Vec<Attribute> = Vec::new();
        push_opt(&mut attributes, semconv::AWS_S3_BUCKET, bucket);
        push_opt(&mut attributes, semconv::AWS_S3_KEY, key);
        assert(attrs_view(attributes@) =~= s3_attrs(opt_str(bucket), opt_str(key)));
        Self::client("S3", method, attributes)
    }
}

impl S3SpanBuilder {
    /// A span builder for the S3 `ListBuckets` operation, which names no bucket.
    pub fn list_buckets<'a>() -> (r: AwsSpanBuilder<'a>)
        ensures
            r.built(SpanKind::Client, "S3"@, "ListBuckets"@, s3_attrs(None, None)),
    {
        AwsSpanBuilder::s3("ListBuckets", None, None)
    }

    /// A span builder for the S3 `ListDirectoryBuckets` operation, which names no bucket.
    pub fn list_directory_buckets<'a>() -> (r: AwsSpanBuilder<'a>)
        ensures
            r.built(SpanKind::Client, "S3"@, "ListDirectoryBuckets"@, s3_attrs(None, None)),
    {
        AwsSpanBuilder::s3("ListDirectoryBuckets", None, None)
    }

    /// A span builder for the S3 `WriteGetObjectResponse` operation, which names no bucket.
    pub fn write_get_object_response<'a>() -> (r: AwsSpanBuilder<'a>)
        ensures
            r.built(SpanKind::Client, "S3"@, "WriteGetObjectResponse"@, s3_attrs(None, None)),
    {
        AwsSpanBuilder::s3("WriteGetObjectResponse", None, None)
    }

    /// A span builder for the S3 `CreateBucket` operation on the bucket `bucket`.
    pub fn create_bucket<'a>(bucket: &str) -> (r: AwsSpanBuilder<'a>)
        ensures
            r.built(SpanKind::Client, "S3"@, "CreateBucket"@, s3_attrs(Some(bucket@), None)),
    {
        AwsSpanBuilder::s3("CreateBucket", Some(bucket), None)
    }

    /// A span builder for the S3 `DeleteBucket` operation on the bucket `bucket`.
    pub fn delete_bucket<'a>(bucket: &str) -> (r: AwsSpanBuilder<'a>)
        ensures
            r.built(SpanKind::Client, "S3"@, "DeleteBucket"@, s3_attrs(Some(bucket@), None)),
    {
        AwsSpanBuilder::s3("DeleteBucket", Some(bucket), None)
    }

    /// A span builder for the S3 `HeadBucket` operation on the bucket `bucket`.
    pub fn head_bucket<'a>(bucket: &str) -> (r: AwsSpanBuilder<'a>)
        ensures
            r.built(SpanKind::Client, "S3"@, "HeadBucket"@, s3_attrs(Some(bucket@), None)),
    {
        AwsSpanBuilder::s3("HeadBucket", Some(bucket), None)
    }

    /// A span builder for the S3 `CreateSession` operation on the bucket `bucket`.
    pub fn create_session<'a>(bucket: &str) -> (r: AwsSpanBuilder<'a>)
        ensures
            r.built(SpanKind::Client, "S3"@, "CreateSession"@, s3_attrs(Some(bucket@), None)),
    {
        AwsSpanBuilder::s3("CreateSession", Some(bucket), None)
    }

    /// A span builder for the S3 `DeleteObjects` operation on the bucket `bucket`.
    pub fn delete_objects<'a>(bucket: &str) -> (r: AwsSpanBuilder<'a>)
        ensures
            r.built(SpanKind::Client, "S3"@, "DeleteObjects"@, s3_attrs(Some(bucket@), None)),
    {
        AwsSpanBuilder::s3("DeleteObjects", Some(bucket), None)
    }

    /// A span builder for the S3 `ListObjects` operation on the bucket `bucket`.
    pub fn list_objects<'a>(bucket: &str) -> (r: AwsSpanBuilder<'a>)
        ensures
            r.built(SpanKind::Client, "S3"@, "ListObjects"@, s3_attrs(Some(bucket@), None)),
    {
        AwsSpanBuilder::s3("ListObjects", Some(bucket), None)
    }

    /// A span builder for the S3 `ListObjectsV2` operation on the bucket `bucket`.
    pub fn list_objects_v2<'a>(bucket: &str) -> (r: AwsSpanBuilder<'a>)
        ensures
            r.built(SpanKind::Client, "S3"@, "ListObjectsV2"@, s3_attrs(Some(bucket@), None)),
    {
        AwsSpanBuilder::s3("ListObjectsV2", Some(bucket), None)
    }

    /// A span builder for the S3 `ListObjectVersions` operation on the bucket `bucket`.
    pub fn list_object_versions<'a>(bucket: &str) -> (r: AwsSpanBuilder<'a>)
        ensures
            r.built(SpanKind::Client, "S3"@, "ListObjectVersions"@, s3_attrs(Some(bucket@), None)),
    {
        AwsSpanBuilder::s3("ListObjectVersions", Some(bucket), None)
    }

    /// A span builder for the S3 `ListMultipartUploads` operation on the bucket `bucket`.
    pub fn list_multipart_uploads<'a>(bucket: &str) -> (r: AwsSpanBuilder<'a>)
        ensures
            r.built(SpanKind::Client, "S3"@, "ListMultipartUploads"@, s3_attrs(Some(bucket@), None)),
    {
        AwsSpanBuilder::s3("ListMultipartUploads", Some(bucket), None)
    }

    /// A span builder for the S3 `GetObjectLockConfiguration` operation on the bucket `bucket`.
    pub fn get_object_lock_configuration<'a>(bucket: &str) -> (r: AwsSpanBuilder<'a>)
        ensures
            r.built(SpanKind::Client, "S3"@, "GetObjectLockConfiguration"@, s3_attrs(Some(bucket@), None)),
    {
        AwsSpanBuilder::s3("GetObjectLockConfiguration", Some(bucket), None)
    }

    /// A span builder for the S3 `PutObjectLockConfiguration` operation on the bucket `bucket`.
    pub fn put_object_lock_configuration<'a>(bucket: &str) -> (r: AwsSpanBuilder<'a>)
        ensures
            r.built(SpanKind::Client, "S3"@, "PutObjectLockConfiguration"@, s3_attrs(Some(bucket@), None)),
    {
        AwsSpanBuilder::s3("PutObjectLockConfiguration", Some(bucket), None)
    }

    /// A span builder for the S3 `GetBucketAcl` operation on the bucket `bucket`.
    pub fn get_bucket_acl<'a>(bucket: &str) -> (r: AwsSpanBuilder<'a>)
        ensures
            r.built(SpanKind::Client, "S3"@, "GetBucketAcl"@, s3_attrs(Some(bucket@), None)),
    {
        AwsSpanBuilder::s3("GetBucketAcl", Some(bucket), None)
    }

    /// A span builder for the S3 `PutBucketAcl` operation on the bucket `bucket`.
    pub fn put_bucket_acl<'a>(bucket: &str) -> (r: AwsSpanBuilder<'a>)
        ensures
            r.built(SpanKind::Client, "S3"@, "PutBucketAcl"@, s3_attrs(Some(bucket@), None)),
    {
        AwsSpanBuilder::s3("PutBucketAcl", Some(bucket), None)
    }

    /// A span builder for the S3 `GetBucketPolicy` operation on the bucket `bucket`.
    pub fn get_bucket_policy<'a>(bucket: &str) -> (r: AwsSpanBuilder<'a>)
        ensures
            r.built(SpanKind::Client, "S3"@, "GetBucketPolicy"@, s3_attrs(Some(bucket@), None)),
    {
        AwsSpanBuilder::s3("GetBucketPolicy", Some(bucket), None)
    }

    /// A span builder for the S3 `PutBucketPolicy` operation on the bucket `bucket`.
    pub fn put_bucket_policy<'a>(bucket: &str) -> (r: AwsSpanBuilder<'a>)
        ensures
            r.built(SpanKind::Client, "S3"@, "PutBucketPolicy"@, s3_attrs(Some(bucket@), None)),
    {
        AwsSpanBuilder::s3("PutBucketPolicy", Some(bucket), None)
    }

    /// A span builder for the S3 `DeleteBucketPolicy` operation on the bucket `bucket`.
    pub fn delete_bucket_policy<'a>(bucket: &str) -> (r: AwsSpanBuilder<'a>)
        ensures
            r.built(SpanKind::Client, "S3"@, "DeleteBucketPolicy"@, s3_attrs(Some(bucket@), None)),
    {
        AwsSpanBuilder::s3("DeleteBucketPolicy", Some(bucket), None)
    }

    /// A span builder for the S3 `GetBucketPolicyStatus` operation on the bucket `bucket`.
    pub fn get_bucket_policy_status<'a>(bucket: &str) -> (r: AwsSpanBuilder<'a>)
        ensures
            r.built(SpanKind::Client, "S3"@, "GetBucketPolicyStatus"@, s3_attrs(Some(bucket@), None)),
    {
        AwsSpanBuilder::s3("GetBucketPolicyStatus", Some(bucket), None)
    }

    /// A span builder for the S3 `GetBucketCors` operation on the bucket `bucket`.
    pub fn get_bucket_cors<'a>(bucket: &str) -> (r: AwsSpanBuilder<'a>)
        ensures
            r.built(SpanKind::Client, "S3"@, "GetBucketCors"@, s3_attrs(Some(bucket@), None)),
    {
        AwsSpanBuilder::s3("GetBucketCors", Some(bucket), None)
    }

    /// A span builder for the S3 `PutBucketCors` operation on the bucket `bucket`.
    pub fn put_bucket_cors<'a>(bucket: &str) -> (r: AwsSpanBuilder<'a>)
        ensures
            r.built(SpanKind::Client, "S3"@, "PutBucketCors"@, s3_attrs(Some(bucket@), None)),
    {
        AwsSpanBuilder::s3("PutBucketCors", Some(bucket), None)
    }

    /// A span builder for the S3 `DeleteBucketCors` operation on the bucket `bucket`.
    pub fn delete_bucket_cors<'a>(bucket: &str) -> (r: AwsSpanBuilder<'a>)
        ensures
            r.built(SpanKind::Client, "S3"@, "DeleteBucketCors"@, s3_attrs(Some(bucket@), None)),
    {
        AwsSpanBuilder::s3("DeleteBucketCors", Some(bucket), None)
    }

    /// A span builder for the S3 `GetBucketEncryption` operation on the bucket `bucket`.
    pub fn get_bucket_encryption<'a>(bucket: &str) -> (r: AwsSpanBuilder<'a>)
        ensures
            r.built(SpanKind::Client, "S3"@, "GetBucketEncryption"@, s3_attrs(Some(bucket@), None)),
    {
        AwsSpanBuilder::s3("GetBucketEncryption", Some(bucket), None)
    }

    /// A span builder for the S3 `PutBucketEncryption` operation on the bucket `bucket`.
    pub fn put_bucket_encryption<'a>(bucket: &str) -> (r: AwsSpanBuilder<'a>)
        ensures
            r.built(SpanKind::Client, "S3"@, "PutBucketEncryption"@, s3_attrs(Some(bucket@), None)),
    {
        AwsSpanBuilder::s3("PutBucketEncryption", Some(bucket), None)
    }

    /// A span builder for the S3 `DeleteBucketEncryption` operation on the bucket `bucket`.
    pub fn delete_bucket_encryption<'a>(bucket: &str) -> (r: AwsSpanBuilder<'a>)
        ensures
            r.built(SpanKind::Client, "S3"@, "DeleteBucketEncryption"@, s3_attrs(Some(bucket@), None)),
    {
        AwsSpanBuilder::s3("DeleteBucketEncryption", Some(bucket), None)
    }

    /// A span builder for the S3 `GetBucketLifecycleConfiguration` operation on the bucket `bucket`.
    pub fn get_bucket_lifecycle_configuration<'a>(bucket: &str) -> (r: AwsSpanBuilder<'a>)
        ensures
            r.built(SpanKind::Client, "S3"@, "GetBucketLifecycleConfiguration"@, s3_attrs(Some(bucket@), None)),
    {
        AwsSpanBuilder::s3("GetBucketLifecycleConfiguration", Some(bucket), None)
    }

    /// A span builder for the S3 `PutBucketLifecycleConfiguration` operation on the bucket `bucket`.
    pub fn put_bucket_lifecycle_configuration<'a>(bucket: &str) -> (r: AwsSpanBuilder<'a>)
        ensures
            r.built(SpanKind::Client, "S3"@, "PutBucketLifecycleConfiguration"@, s3_attrs(Some(bucket@), None)),
    {
        AwsSpanBuilder::s3("PutBucketLifecycleConfiguration", Some(bucket), None)
    }

    /// A span builder for the S3 `DeleteBucketLifecycle` operation on the bucket `bucket`.
    pub fn delete_bucket_lifecycle<'a>(bucket: &str) -> (r: AwsSpanBuilder<'a>)
        ensures
            r.built(SpanKind::Client, "S3"@, "DeleteBucketLifecycle"@, s3_attrs(Some(bucket@), None)),
    {
        AwsSpanBuilder::s3("DeleteBucketLifecycle", Some(bucket), None)
    }

    /// A span builder for the S3 `GetBucketReplication` operation on the bucket `bucket`.
    pub fn get_bucket_replication<'a>(bucket: &str) -> (r: AwsSpanBuilder<'a>)
        ensures
            r.built(SpanKind::Client, "S3"@, "GetBucketReplication"@, s3_attrs(Some(bucket@), None)),
    {
        AwsSpanBuilder::s3("GetBucketReplication", Some(bucket), None)
    }

    /// A span builder for the S3 `PutBucketReplication` operation on the bucket `bucket`.
    pub fn put_bucket_replication<'a>(bucket: &str) -> (r: AwsSpanBuilder<'a>)
        ensures
            r.built(SpanKind::Client, "S3"@, "PutBucketReplication"@, s3_attrs(Some(bucket@), None)),
    {
        AwsSpanBuilder::s3("PutBucketReplication", Some(bucket), None)
    }

    /// A span builder for the S3 `DeleteBucketReplication` operation on the bucket `bucket`.
    pub fn delete_bucket_replication<'a>(bucket: &str) -> (r: AwsSpanBuilder<'a>)
        ensures
            r.built(SpanKind::Client, "S3"@, "DeleteBucketReplication"@, s3_attrs(Some(bucket@), None)),
    {
        AwsSpanBuilder::s3("DeleteBucketReplication", Some(bucket), None)
    }

    /// A span builder for the S3 `GetBucketTagging` operation on the bucket `bucket`.
    pub fn get_bucket_tagging<'a>(bucket: &str) -> (r: AwsSpanBuilder<'a>)
        ensures
            r.built(SpanKind::Client, "S3"@, "GetBucketTagging"@, s3_attrs(Some(bucket@), None)),
    {
        AwsSpanBuilder::s3("GetBucketTagging", Some(bucket), None)
    }

    /// A span builder for the S3 `PutBucketTagging` operation on the bucket `bucket`.
    pub fn put_bucket_tagging<'a>(bucket: &str) -> (r: AwsSpanBuilder<'a>)
        ensures
            r.built(SpanKind::Client, "S3"@, "PutBucketTagging"@, s3_attrs(Some(bucket@), None)),
    {
        AwsSpanBuilder::s3("PutBucketTagging", Some(bucket), None)
    }

    /// A span builder for the S3 `DeleteBucketTagging` operation on the bucket `bucket`.
    pub fn delete_bucket_tagging<'a>(bucket: &str) -> (r: AwsSpanBuilder<'a>)
        ensures
            r.built(SpanKind::Client, "S3"@, "DeleteBucketTagging"@, s3_attrs(Some(bucket@), None)),
    {
        AwsSpanBuilder::s3("DeleteBucketTagging", Some(bucket), None)
    }

    /// A span builder for the S3 `GetBucketVersioning` operation on the bucket `bucket`.
    pub fn get_bucket_versioning<'a>(bucket: &str) -> (r: AwsSpanBuilder<'a>)
        ensures
            r.built(SpanKind::Client, "S3"@, "GetBucketVersioning"@, s3_attrs(Some(bucket@), None)),
    {
        AwsSpanBuilder::s3("GetBucketVersioning", Some(bucket), None)
    }

    /// A span builder for the S3 `PutBucketVersioning` operation on the bucket `bucket`.
    pub fn put_bucket_versioning<'a>(bucket: &str) -> (r: AwsSpanBuilder<'a>)
        ensures
            r.built(SpanKind::Client, "S3"@, "PutBucketVersioning"@, s3_attrs(Some(bucket@), None)),
    {
        AwsSpanBuilder::s3("PutBucketVersioning", Some(bucket), None)
    }

    /// A span builder for the S3 `GetBucketWebsite` operation on the bucket `bucket`.
    pub fn get_bucket_website<'a>(bucket: &str) -> (r: AwsSpanBuilder<'a>)
        ensures
            r.built(SpanKind::Client, "S3"@, "GetBucketWebsite"@, s3_attrs(Some(bucket@), None)),
    {
        AwsSpanBuilder::s3("GetBucketWebsite", Some(bucket), None)
    }

    /// A span builder for the S3 `PutBucketWebsite` operation on the bucket `bucket`.
    pub fn put_bucket_website<'a>(bucket: &str) -> (r: AwsSpanBuilder<'a>)
        ensures
            r.built(SpanKind::Client, "S3"@, "PutBucketWebsite"@, s3_attrs(Some(bucket@), None)),
    {
        AwsSpanBuilder::s3("PutBucketWebsite", Some(bucket), None)
    }

    /// A span builder for the S3 `DeleteBucketWebsite` operation on the bucket `bucket`.
    pub fn delete_bucket_website<'a>(bucket: &str) -> (r: AwsSpanBuilder<'a>)
        ensures
            r.built(SpanKind::Client, "S3"@, "DeleteBucketWebsite"@, s3_attrs(Some(bucket@), None)),
    {
        AwsSpanBuilder::s3("DeleteBucketWebsite", Some(bucket), None)
    }

    /// A span builder for the S3 `GetBucketLogging` operation on the bucket `bucket`.
    pub fn get_bucket_logging<'a>(bucket: &str) -> (r: AwsSpanBuilder<'a>)
        ensures
            r.built(SpanKind::Client, "S3"@, "GetBucketLogging"@, s3_attrs(Some(bucket@), None)),
    {
        AwsSpanBuilder::s3("GetBucketLogging", Some(bucket), None)
    }

    /// A span builder for the S3 `PutBucketLogging` operation on the bucket `bucket`.
    pub fn put_bucket_logging<'a>(bucket: &str) -> (r: AwsSpanBuilder<'a>)
        ensures
            r.built(SpanKind::Client, "S3"@, "PutBucketLogging"@, s3_attrs(Some(bucket@), None)),
    {
        AwsSpanBuilder::s3("PutBucketLogging", Some(bucket), None)
    }

    /// A span builder for the S3 `GetBucketNotificationConfiguration` operation on the bucket `bucket`.
    pub fn get_bucket_notification_configuration<'a>(bucket: &str) -> (r: AwsSpanBuilder<'a>)
        ensures
            r.built(SpanKind::Client, "S3"@, "GetBucketNotificationConfiguration"@, s3_attrs(Some(bucket@), None)),
    {
        AwsSpanBuilder::s3("GetBucketNotificationConfiguration", Some(bucket), None)
    }

    /// A span builder for the S3 `PutBucketNotificationConfiguration` operation on the bucket `bucket`.
    pub fn put_bucket_notification_configuration<'a>(bucket: &str) -> (r: AwsSpanBuilder<'a>)
        ensures
            r.built(SpanKind::Client, "S3"@, "PutBucketNotificationConfiguration"@, s3_attrs(Some(bucket@), None)),
    {
        AwsSpanBuilder::s3("PutBucketNotificationConfiguration", Some(bucket), None)
    }

    /// A span builder for the S3 `GetBucketLocation` operation on the bucket `bucket`.
    pub fn get_bucket_location<'a>(bucket: &str) -> (r: AwsSpanBuilder<'a>)
        ensures
            r.built(SpanKind::Client, "S3"@, "GetBucketLocation"@, s3_attrs(Some(bucket@), None)),
    {
        AwsSpanBuilder::s3("GetBucketLocation", Some(bucket), None)
    }

    /// A span builder for the S3 `GetBucketAccelerateConfiguration` operation on the bucket `bucket`.
    pub fn get_bucket_accelerate_configuration<'a>(bucket: &str) -> (r: AwsSpanBuilder<'a>)
        ensures
            r.built(SpanKind::Client, "S3"@, "GetBucketAccelerateConfiguration"@, s3_attrs(Some(bucket@), None)),
    {
        AwsSpanBuilder::s3("GetBucketAccelerateConfiguration", Some(bucket), None)
    }

    /// A span builder for the S3 `PutBucketAccelerateConfiguration` operation on the bucket `bucket`.
    pub fn put_bucket_accelerate_configuration<'a>(bucket: &str) -> (r: AwsSpanBuilder<'a>)
        ensures
            r.built(SpanKind::Client, "S3"@, "PutBucketAccelerateConfiguration"@, s3_attrs(Some(bucket@), None)),
    {
        AwsSpanBuilder::s3("PutBucketAccelerateConfiguration", Some(bucket), None)
    }

    /// A span builder for the S3 `GetBucketRequestPayment` operation on the bucket `bucket`.
    pub fn get_bucket_request_payment<'a>(bucket: &str) -> (r: AwsSpanBuilder<'a>)
        ensures
            r.built(SpanKind::Client, "S3"@, "GetBucketRequestPayment"@, s3_attrs(Some(bucket@), None)),
    {
        AwsSpanBuilder::s3("GetBucketRequestPayment", Some(bucket), None)
    }

    /// A span builder for the S3 `PutBucketRequestPayment` operation on the bucket `bucket`.
    pub fn put_bucket_request_payment<'a>(bucket: &str) -> (r: AwsSpanBuilder<'a>)
        ensures
            r.built(SpanKind::Client, "S3"@, "PutBucketRequestPayment"@, s3_attrs(Some(bucket@), None)),
    {
        AwsSpanBuilder::s3("PutBucketRequestPayment", Some(bucket), None)
    }

    /// A span builder for the S3 `GetBucketOwnershipControls` operation on the bucket `bucket`.
    pub fn get_bucket_ownership_controls<'a>(bucket: &str) -> (r: AwsSpanBuilder<'a>)
        ensures
            r.built(SpanKind::Client, "S3"@, "GetBucketOwnershipControls"@, s3_attrs(Some(bucket@), None)),
    {
        AwsSpanBuilder::s3("GetBucketOwnershipControls", Some(bucket), None)
    }

    /// A span builder for the S3 `PutBucketOwnershipControls` operation on the bucket `bucket`.
    pub fn put_bucket_ownership_controls<'a>(bucket: &str) -> (r: AwsSpanBuilder<'a>)
        ensures
            r.built(SpanKind::Client, "S3"@, "PutBucketOwnershipControls"@, s3_attrs(Some(bucket@), None)),
    {
        AwsSpanBuilder::s3("PutBucketOwnershipControls", Some(bucket), None)
    }

    /// A span builder for the S3 `DeleteBucketOwnershipControls` operation on the bucket `bucket`.
    pub fn delete_bucket_ownership_controls<'a>(bucket: &str) -> (r: AwsSpanBuilder<'a>)
        ensures
            r.built(SpanKind::Client, "S3"@, "DeleteBucketOwnershipControls"@, s3_attrs(Some(bucket@), None)),
    {
        AwsSpanBuilder::s3("DeleteBucketOwnershipControls", Some(bucket), None)
    }

    /// A span builder for the S3 `GetBucketAnalyticsConfiguration` operation on the bucket `bucket`.
    pub fn get_bucket_analytics_configuration<'a>(bucket: &str) -> (r: AwsSpanBuilder<'a>)
        ensures
            r.built(SpanKind::Client, "S3"@, "GetBucketAnalyticsConfiguration"@, s3_attrs(Some(bucket@), None)),
    {
        AwsSpanBuilder::s3("GetBucketAnalyticsConfiguration", Some(bucket), None)
    }

    /// A span builder for the S3 `PutBucketAnalyticsConfiguration` operation on the bucket `bucket`.
    pub fn put_bucket_analytics_configuration<'a>(bucket: &str) -> (r: AwsSpanBuilder<'a>)
        ensures
            r.built(SpanKind::Client, "S3"@, "PutBucketAnalyticsConfiguration"@, s3_attrs(Some(bucket@), None)),
    {
        AwsSpanBuilder::s3("PutBucketAnalyticsConfiguration", Some(bucket), None)
    }

    /// A span builder for the S3 `DeleteBucketAnalyticsConfiguration` operation on the bucket `bucket`.
    pub fn delete_bucket_analytics_configuration<'a>(bucket: &str) -> (r: AwsSpanBuilder<'a>)
        ensures
            r.built(SpanKind::Client, "S3"@, "DeleteBucketAnalyticsConfiguration"@, s3_attrs(Some(bucket@), None)),
    {
        AwsSpanBuilder::s3("DeleteBucketAnalyticsConfiguration", Some(bucket), None)
    }

    /// A span builder for the S3 `ListBucketAnalyticsConfigurations` operation on the bucket `bucket`.
    pub fn list_bucket_analytics_configurations<'a>(bucket: &str) -> (r: AwsSpanBuilder<'a>)
        ensures
            r.built(SpanKind::Client, "S3"@, "ListBucketAnalyticsConfigurations"@, s3_attrs(Some(bucket@), None)),
    {
        AwsSpanBuilder::s3("ListBucketAnalyticsConfigurations", Some(bucket), None)
    }

    /// A span builder for the S3 `GetBucketIntelligentTieringConfiguration` operation on the bucket `bucket`.
    pub fn get_bucket_intelligent_tiering_configuration<'a>(bucket: &str) -> (r: AwsSpanBuilder<'a>)
        ensures
            r.built(SpanKind::Client, "S3"@, "GetBucketIntelligentTieringConfiguration"@, s3_attrs(Some(bucket@), None)),
    {
        AwsSpanBuilder::s3("GetBucketIntelligentTieringConfiguration", Some(bucket), None)
    }

    /// A span builder for the S3 `PutBucketIntelligentTieringConfiguration` operation on the bucket `bucket`.
    pub fn put_bucket_intelligent_tiering_configuration<'a>(bucket: &str) -> (r: AwsSpanBuilder<'a>)
        ensures
            r.built(SpanKind::Client, "S3"@, "PutBucketIntelligentTieringConfiguration"@, s3_attrs(Some(bucket@), None)),
    {
        AwsSpanBuilder::s3("PutBucketIntelligentTieringConfiguration", Some(bucket), None)
    }

    /// A span builder for the S3 `DeleteBucketIntelligentTieringConfiguration` operation on the bucket `bucket`.
    pub fn delete_bucket_intelligent_tiering_configuration<'a>(bucket: &str) -> (r: AwsSpanBuilder<'a>)
        ensures
            r.built(SpanKind::Client, "S3"@, "DeleteBucketIntelligentTieringConfiguration"@, s3_attrs(Some(bucket@), None)),
    {
        AwsSpanBuilder::s3("DeleteBucketIntelligentTieringConfiguration", Some(bucket), None)
    }

    /// A span builder for the S3 `ListBucketIntelligentTieringConfigurations` operation on the bucket `bucket`.
    pub fn list_bucket_intelligent_tiering_configurations<'a>(bucket: &str) -> (r: AwsSpanBuilder<'a>)
        ensures
            r.built(SpanKind::Client, "S3"@, "ListBucketIntelligentTieringConfigurations"@, s3_attrs(Some(bucket@), None)),
    {
        AwsSpanBuilder::s3("ListBucketIntelligentTieringConfigurations", Some(bucket), None)
    }

    /// A span builder for the S3 `GetBucketInventoryConfiguration` operation on the bucket `bucket`.
    pub fn get_bucket_inventory_configuration<'a>(bucket: &str) -> (r: AwsSpanBuilder<'a>)
        ensures
            r.built(SpanKind::Client, "S3"@, "GetBucketInventoryConfiguration"@, s3_attrs(Some(bucket@), None)),
    {
        AwsSpanBuilder::s3("GetBucketInventoryConfiguration", Some(bucket), None)
    }

    /// A span builder for the S3 `PutBucketInventoryConfiguration` operation on the bucket `bucket`.
    pub fn put_bucket_inventory_configuration<'a>(bucket: &str) -> (r: AwsSpanBuilder<'a>)
        ensures
            r.built(SpanKind::Client, "S3"@, "PutBucketInventoryConfiguration"@, s3_attrs(Some(bucket@), None)),
    {
        AwsSpanBuilder::s3("PutBucketInventoryConfiguration", Some(bucket), None)
    }

    /// A span builder for the S3 `DeleteBucketInventoryConfiguration` operation on the bucket `bucket`.
    pub fn delete_bucket_inventory_configuration<'a>(bucket: &str) -> (r: AwsSpanBuilder<'a>)
        ensures
            r.built(SpanKind::Client, "S3"@, "DeleteBucketInventoryConfiguration"@, s3_attrs(Some(bucket@), None)),
    {
        AwsSpanBuilder::s3("DeleteBucketInventoryConfiguration", Some(bucket), None)
    }

    /// A span builder for the S3 `ListBucketInventoryConfigurations` operation on the bucket `bucket`.
    pub fn list_bucket_inventory_configurations<'a>(bucket: &str) -> (r: AwsSpanBuilder<'a>)
        ensures
            r.built(SpanKind::Client, "S3"@, "ListBucketInventoryConfigurations"@, s3_attrs(Some(bucket@), None)),
    {
        AwsSpanBuilder::s3("ListBucketInventoryConfigurations", Some(bucket), None)
    }

    /// A span builder for the S3 `GetBucketMetricsConfiguration` operation on the bucket `bucket`.
    pub fn get_bucket_metrics_configuration<'a>(bucket: &str) -> (r: AwsSpanBuilder<'a>)
        ensures
            r.built(SpanKind::Client, "S3"@, "GetBucketMetricsConfiguration"@, s3_attrs(Some(bucket@), None)),
    {
        AwsSpanBuilder::s3("GetBucketMetricsConfiguration", Some(bucket), None)
    }

    /// A span builder for the S3 `PutBucketMetricsConfiguration` operation on the bucket `bucket`.
    pub fn put_bucket_metrics_configuration<'a>(bucket: &str) -> (r: AwsSpanBuilder<'a>)
        ensures
            r.built(SpanKind::Client, "S3"@, "PutBucketMetricsConfiguration"@, s3_attrs(Some(bucket@), None)),
    {
        AwsSpanBuilder::s3("PutBucketMetricsConfiguration", Some(bucket), None)
    }

    /// A span builder for the S3 `DeleteBucketMetricsConfiguration` operation on the bucket `bucket`.
    pub fn delete_bucket_metrics_configuration<'a>(bucket: &str) -> (r: AwsSpanBuilder<'a>)
        ensures
            r.built(SpanKind::Client, "S3"@, "DeleteBucketMetricsConfiguration"@, s3_attrs(Some(bucket@), None)),
    {
        AwsSpanBuilder::s3("DeleteBucketMetricsConfiguration", Some(bucket), None)
    }

    /// A span builder for the S3 `ListBucketMetricsConfigurations` operation on the bucket `bucket`.
    pub fn list_bucket_metrics_configurations<'a>(bucket: &str) -> (r: AwsSpanBuilder<'a>)
        ensures
            r.built(SpanKind::Client, "S3"@, "ListBucketMetricsConfigurations"@, s3_attrs(Some(bucket@), None)),
    {
        AwsSpanBuilder::s3("ListBucketMetricsConfigurations", Some(bucket), None)
    }

    /// A span builder for the S3 `GetPublicAccessBlock` operation on the bucket `bucket`.
    pub fn get_public_access_block<'a>(bucket: &str) -> (r: AwsSpanBuilder<'a>)
        ensures
            r.built(SpanKind::Client, "S3"@, "GetPublicAccessBlock"@, s3_attrs(Some(bucket@), None)),
    {
        AwsSpanBuilder::s3("GetPublicAccessBlock", Some(bucket), None)
    }

    /// A span builder for the S3 `PutPublicAccessBlock` operation on the bucket `bucket`.
    pub fn put_public_access_block<'a>(bucket: &str) -> (r: AwsSpanBuilder<'a>)
        ensures
            r.built(SpanKind::Client, "S3"@, "PutPublicAccessBlock"@, s3_attrs(Some(bucket@), None)),
    {
        AwsSpanBuilder::s3("PutPublicAccessBlock", Some(bucket), None)
    }

    /// A span builder for the S3 `DeletePublicAccessBlock` operation on the bucket `bucket`.
    pub fn delete_public_access_block<'a>(bucket: &str) -> (r: AwsSpanBuilder<'a>)
        ensures
            r.built(SpanKind::Client, "S3"@, "DeletePublicAccessBlock"@, s3_attrs(Some(bucket@), None)),
    {
        AwsSpanBuilder::s3("DeletePublicAccessBlock", Some(bucket), None)
    }

    /// A span builder for the S3 `CreateBucketMetadataConfiguration` operation on the bucket `bucket`.
    pub fn create_bucket_metadata_configuration<'a>(bucket: &str) -> (r: AwsSpanBuilder<'a>)
        ensures
            r.built(SpanKind::Client, "S3"@, "CreateBucketMetadataConfiguration"@, s3_attrs(Some(bucket@), None)),
    {
        AwsSpanBuilder::s3("CreateBucketMetadataConfiguration", Some(bucket), None)
    }

    /// A span builder for the S3 `CreateBucketMetadataTableConfiguration` operation on the bucket `bucket`.
    pub fn create_bucket_metadata_table_configuration<'a>(bucket: &str) -> (r: AwsSpanBuilder<'a>)
        ensures
            r.built(SpanKind::Client, "S3"@, "CreateBucketMetadataTableConfiguration"@, s3_attrs(Some(bucket@), None)),
    {
        AwsSpanBuilder::s3("CreateBucketMetadataTableConfiguration", Some(bucket), None)
    }

    /// A span builder for the S3 `DeleteBucketMetadataConfiguration` operation on the bucket `bucket`.
    pub fn delete_bucket_metadata_configuration<'a>(bucket: &str) -> (r: AwsSpanBuilder<'a>)
        ensures
            r.built(SpanKind::Client, "S3"@, "DeleteBucketMetadataConfiguration"@, s3_attrs(Some(bucket@), None)),
    {
        AwsSpanBuilder::s3("DeleteBucketMetadataConfiguration", Some(bucket), None)
    }

    /// A span builder for the S3 `DeleteBucketMetadataTableConfiguration` operation on the bucket `bucket`.
    pub fn delete_bucket_metadata_table_configuration<'a>(bucket: &str) -> (r: AwsSpanBuilder<'a>)
        ensures
            r.built(SpanKind::Client, "S3"@, "DeleteBucketMetadataTableConfiguration"@, s3_attrs(Some(bucket@), None)),
    {
        AwsSpanBuilder::s3("DeleteBucketMetadataTableConfiguration", Some(bucket), None)
    }

    /// A span builder for the S3 `GetBucketMetadataConfiguration` operation on the bucket `bucket`.
    pub fn get_bucket_metadata_configuration<'a>(bucket: &str) -> (r: AwsSpanBuilder<'a>)
        ensures
            r.built(SpanKind::Client, "S3"@, "GetBucketMetadataConfiguration"@, s3_attrs(Some(bucket@), None)),
    {
        AwsSpanBuilder::s3("GetBucketMetadataConfiguration", Some(bucket), None)
    }

    /// A span builder for the S3 `GetBucketMetadataTableConfiguration` operation on the bucket `bucket`.
    pub fn get_bucket_metadata_table_configuration<'a>(bucket: &str) -> (r: AwsSpanBuilder<'a>)
        ensures
            r.built(SpanKind::Client, "S3"@, "GetBucketMetadataTableConfiguration"@, s3_attrs(Some(bucket@), None)),
    {
        AwsSpanBuilder::s3("GetBucketMetadataTableConfiguration", Some(bucket), None)
    }

    /// A span builder for the S3 `UpdateBucketMetadataInventoryTableConfiguration` operation on the bucket `bucket`.
    pub fn update_bucket_metadata_inventory_table_configuration<'a>(bucket: &str) -> (r: AwsSpanBuilder<'a>)
        ensures
            r.built(SpanKind::Client, "S3"@, "UpdateBucketMetadataInventoryTableConfiguration"@, s3_attrs(Some(bucket@), None)),
    {
        AwsSpanBuilder::s3("UpdateBucketMetadataInventoryTableConfiguration", Some(bucket), None)
    }

    /// A span builder for the S3 `UpdateBucketMetadataJournalTableConfiguration` operation on the bucket `bucket`.
    pub fn update_bucket_metadata_journal_table_configuration<'a>(bucket: &str) -> (r: AwsSpanBuilder<'a>)
        ensures
            r.built(SpanKind::Client, "S3"@, "UpdateBucketMetadataJournalTableConfiguration"@, s3_attrs(Some(bucket@), None)),
    {
        AwsSpanBuilder::s3("UpdateBucketMetadataJournalTableConfiguration", Some(bucket), None)
    }

    /// A span builder for the S3 `CopyObject` operation on the object `key` of the bucket `bucket`.
    pub fn copy_object<'a>(bucket: &str, key: &str) -> (r: AwsSpanBuilder<'a>)
        ensures
            r.built(SpanKind::Client, "S3"@, "CopyObject"@, s3_attrs(Some(bucket@), Some(key@))),
    {
        AwsSpanBuilder::s3("CopyObject", Some(bucket), Some(key))
    }

    /// A span builder for the S3 `DeleteObject` operation on the object `key` of the bucket `bucket`.
    pub fn delete_object<'a>(bucket: &str, key: &str) -> (r: AwsSpanBuilder<'a>)
        ensures
            r.built(SpanKind::Client, "S3"@, "DeleteObject"@, s3_attrs(Some(bucket@), Some(key@))),
    {
        AwsSpanBuilder::s3("DeleteObject", Some(bucket), Some(key))
    }

    /// A span builder for the S3 `GetObject` operation on the object `key` of the bucket `bucket`.
    pub fn get_object<'a>(bucket: &str, key: &str) -> (r: AwsSpanBuilder<'a>)
        ensures
            r.built(SpanKind::Client, "S3"@, "GetObject"@, s3_attrs(Some(bucket@), Some(key@))),
    {
        AwsSpanBuilder::s3("GetObject", Some(bucket), Some(key))
    }

    /// A span builder for the S3 `HeadObject` operation on the object `key` of the bucket `bucket`.
    pub fn head_object<'a>(bucket: &str, key: &str) -> (r: AwsSpanBuilder<'a>)
        ensures
            r.built(SpanKind::Client, "S3"@, "HeadObject"@, s3_attrs(Some(bucket@), Some(key@))),
    {
        AwsSpanBuilder::s3("HeadObject", Some(bucket), Some(key))
    }

    /// A span builder for the S3 `PutObject` operation on the object `key` of the bucket `bucket`.
    pub fn put_object<'a>(bucket: &str, key: &str) -> (r: AwsSpanBuilder<'a>)
        ensures
            r.built(SpanKind::Client, "S3"@, "PutObject"@, s3_attrs(Some(bucket@), Some(key@))),
    {
        AwsSpanBuilder::s3("PutObject", Some(bucket), Some(key))
    }

    /// A span builder for the S3 `RenameObject` operation on the object `key` of the bucket `bucket`.
    pub fn rename_object<'a>(bucket: &str, key: &str) -> (r: AwsSpanBuilder<'a>)
        ensures
            r.built(SpanKind::Client, "S3"@, "RenameObject"@, s3_attrs(Some(bucket@), Some(key@))),
    {
        AwsSpanBuilder::s3("RenameObject", Some(bucket), Some(key))
    }

    /// A span builder for the S3 `RestoreObject` operation on the object `key` of the bucket `bucket`.
    pub fn restore_object<'a>(bucket: &str, key: &str) -> (r: AwsSpanBuilder<'a>)
        ensures
            r.built(SpanKind::Client, "S3"@, "RestoreObject"@, s3_attrs(Some(bucket@), Some(key@))),
    {
        AwsSpanBuilder::s3("RestoreObject", Some(bucket), Some(key))
    }

    /// A span builder for the S3 `SelectObjectContent` operation on the object `key` of the bucket `bucket`.
    pub fn select_object_content<'a>(bucket: &str, key: &str) -> (r: AwsSpanBuilder<'a>)
        ensures
            r.built(SpanKind::Client, "S3"@, "SelectObjectContent"@, s3_attrs(Some(bucket@), Some(key@))),
    {
        AwsSpanBuilder::s3("SelectObjectContent", Some(bucket), Some(key))
    }

    /// A span builder for the S3 `GetObjectTorrent` operation on the object `key` of the bucket `bucket`.
    pub fn get_object_torrent<'a>(bucket: &str, key: &str) -> (r: AwsSpanBuilder<'a>)
        ensures
            r.built(SpanKind::Client, "S3"@, "GetObjectTorrent"@, s3_attrs(Some(bucket@), Some(key@))),
    {
        AwsSpanBuilder::s3("GetObjectTorrent", Some(bucket), Some(key))
    }

    /// A span builder for the S3 `CreateMultipartUpload` operation on the object `key` of the bucket `bucket`.
    pub fn create_multipart_upload<'a>(bucket: &str, key: &str) -> (r: AwsSpanBuilder<'a>)
        ensures
            r.built(SpanKind::Client, "S3"@, "CreateMultipartUpload"@, s3_attrs(Some(bucket@), Some(key@))),
    {
        AwsSpanBuilder::s3("CreateMultipartUpload", Some(bucket), Some(key))
    }

    /// A span builder for the S3 `UploadPart` operation on the object `key` of the bucket `bucket`.
    pub fn upload_part<'a>(bucket: &str, key: &str) -> (r: AwsSpanBuilder<'a>)
        ensures
            r.built(SpanKind::Client, "S3"@, "UploadPart"@, s3_attrs(Some(bucket@), Some(key@))),
    {
        AwsSpanBuilder::s3("UploadPart", Some(bucket), Some(key))
    }

    /// A span builder for the S3 `UploadPartCopy` operation on the object `key` of the bucket `bucket`.
    pub fn upload_part_copy<'a>(bucket: &str, key: &str) -> (r: AwsSpanBuilder<'a>)
        ensures
            r.built(SpanKind::Client, "S3"@, "UploadPartCopy"@, s3_attrs(Some(bucket@), Some(key@))),
    {
        AwsSpanBuilder::s3("UploadPartCopy", Some(bucket), Some(key))
    }

    /// A span builder for the S3 `CompleteMultipartUpload` operation on the object `key` of the bucket `bucket`.
    pub fn complete_multipart_upload<'a>(bucket: &str, key: &str) -> (r: AwsSpanBuilder<'a>)
        ensures
            r.built(SpanKind::Client, "S3"@, "CompleteMultipartUpload"@, s3_attrs(Some(bucket@), Some(key@))),
    {
        AwsSpanBuilder::s3("CompleteMultipartUpload", Some(bucket), Some(key))
    }

    /// A span builder for the S3 `AbortMultipartUpload` operation on the object `key` of the bucket `bucket`.
    pub fn abort_multipart_upload<'a>(bucket: &str, key: &str) -> (r: AwsSpanBuilder<'a>)
        ensures
            r.built(SpanKind::Client, "S3"@, "AbortMultipartUpload"@, s3_attrs(Some(bucket@), Some(key@))),
    {
        AwsSpanBuilder::s3("AbortMultipartUpload", Some(bucket), Some(key))
    }

    /// A span builder for the S3 `ListParts` operation on the object `key` of the bucket `bucket`.
    pub fn list_parts<'a>(bucket: &str, key: &str) -> (r: AwsSpanBuilder<'a>)
        ensures
            r.built(SpanKind::Client, "S3"@, "ListParts"@, s3_attrs(Some(bucket@), Some(key@))),
    {
        AwsSpanBuilder::s3("ListParts", Some(bucket), Some(key))
    }

    /// A span builder for the S3 `GetObjectAcl` operation on the object `key` of the bucket `bucket`.
    pub fn get_object_acl<'a>(bucket: &str, key: &str) -> (r: AwsSpanBuilder<'a>)
        ensures
            r.built(SpanKind::Client, "S3"@, "GetObjectAcl"@, s3_attrs(Some(bucket@), Some(key@))),
    {
        AwsSpanBuilder::s3("GetObjectAcl", Some(bucket), Some(key))
    }

    /// A span builder for the S3 `PutObjectAcl` operation on the object `key` of the bucket `bucket`.
    pub fn put_object_acl<'a>(bucket: &str, key: &str) -> (r: AwsSpanBuilder<'a>)
        ensures
            r.built(SpanKind::Client, "S3"@, "PutObjectAcl"@, s3_attrs(Some(bucket@), Some(key@))),
    {
        AwsSpanBuilder::s3("PutObjectAcl", Some(bucket), Some(key))
    }

    /// A span builder for the S3 `GetObjectAttributes` operation on the object `key` of the bucket `bucket`.
    pub fn get_object_attributes<'a>(bucket: &str, key: &str) -> (r: AwsSpanBuilder<'a>)
        ensures
            r.built(SpanKind::Client, "S3"@, "GetObjectAttributes"@, s3_attrs(Some(bucket@), Some(key@))),
    {
        AwsSpanBuilder::s3("GetObjectAttributes", Some(bucket), Some(key))
    }

    /// A span builder for the S3 `GetObjectTagging` operation on the object `key` of the bucket `bucket`.
    pub fn get_object_tagging<'a>(bucket: &str, key: &str) -> (r: AwsSpanBuilder<'a>)
        ensures
            r.built(SpanKind::Client, "S3"@, "GetObjectTagging"@, s3_attrs(Some(bucket@), Some(key@))),
    {
        AwsSpanBuilder::s3("GetObjectTagging", Some(bucket), Some(key))
    }

    /// A span builder for the S3 `PutObjectTagging` operation on the object `key` of the bucket `bucket`.
    pub fn put_object_tagging<'a>(bucket: &str, key: &str) -> (r: AwsSpanBuilder<'a>)
        ensures
            r.built(SpanKind::Client, "S3"@, "PutObjectTagging"@, s3_attrs(Some(bucket@), Some(key@))),
    {
        AwsSpanBuilder::s3("PutObjectTagging", Some(bucket), Some(key))
    }

    /// A span builder for the S3 `DeleteObjectTagging` operation on the object `key` of the bucket `bucket`.
    pub fn delete_object_tagging<'a>(bucket: &str, key: &str) -> (r: AwsSpanBuilder<'a>)
        ensures
            r.built(SpanKind::Client, "S3"@, "DeleteObjectTagging"@, s3_attrs(Some(bucket@), Some(key@))),
    {
        AwsSpanBuilder::s3("DeleteObjectTagging", Some(bucket), Some(key))
    }

    /// A span builder for the S3 `GetObjectLegalHold` operation on the object `key` of the bucket `bucket`.
    pub fn get_object_legal_hold<'a>(bucket: &str, key: &str) -> (r: AwsSpanBuilder<'a>)
        ensures
            r.built(SpanKind::Client, "S3"@, "GetObjectLegalHold"@, s3_attrs(Some(bucket@), Some(key@))),
    {
        AwsSpanBuilder::s3("GetObjectLegalHold", Some(bucket), Some(key))
    }

    /// A span builder for the S3 `PutObjectLegalHold` operation on the object `key` of the bucket `bucket`.
    pub fn put_object_legal_hold<'a>(bucket: &str, key: &str) -> (r: AwsSpanBuilder<'a>)
        ensures
            r.built(SpanKind::Client, "S3"@, "PutObjectLegalHold"@, s3_attrs(Some(bucket@), Some(key@))),
    {
        AwsSpanBuilder::s3("PutObjectLegalHold", Some(bucket), Some(key))
    }

    /// A span builder for the S3 `GetObjectRetention` operation on the object `key` of the bucket `bucket`.
    pub fn get_object_retention<'a>(bucket: &str, key: &str) -> (r: AwsSpanBuilder<'a>)
        ensures
            r.built(SpanKind::Client, "S3"@, "GetObjectRetention"@, s3_attrs(Some(bucket@), Some(key@))),
    {
        AwsSpanBuilder::s3("GetObjectRetention", Some(bucket), Some(key))
    }

    /// A span builder for the S3 `PutObjectRetention` operation on the object `key` of the bucket `bucket`.
    pub fn put_object_retention<'a>(bucket: &str, key: &str) -> (r: AwsSpanBuilder<'a>)
        ensures
            r.built(SpanKind::Client, "S3"@, "PutObjectRetention"@, s3_attrs(Some(bucket@), Some(key@))),
    {
        AwsSpanBuilder::s3("PutObjectRetention", Some(bucket), Some(key))
    }
}

} // verus!
