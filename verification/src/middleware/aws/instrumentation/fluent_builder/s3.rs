//! Span descriptions of Amazon S3 requests and responses.
use vstd::prelude::*;

use crate::middleware::aws::AwsSpanBuilder;
use crate::span::{attrs_view, count_attr, opt_attr, opt_bool_attr, opt_i64_attr, opt_str, or_empty, push_count, push_opt, push_opt_bool, push_opt_i32, push_opt_i64, unwrap_or_empty, widen, Attribute, SpanKind};
use crate::middleware::aws::operations::s3::{s3_attrs, S3SpanBuilder};

verus! {

/// The span of an S3 `GetObject` request: the `GetObject` span on the object `key` of `bucket` (each empty when unset) with the request attributes that are set.
pub fn get_object_span<'a>(bucket: Option<&str>, key: Option<&str>, part_number: Option<i32>, version_id: Option<&str>) -> (r: AwsSpanBuilder<'a>)
    ensures
        r.built(SpanKind::Client, "S3"@, "GetObject"@, s3_attrs(Some(or_empty(opt_str(bucket))), Some(or_empty(opt_str(key)))) + (opt_i64_attr("aws.s3.part_number"@, widen(part_number)) + opt_attr("aws.s3.version_id"@, opt_str(version_id)))),
{
        let b = S3SpanBuilder::get_object(unwrap_or_empty(bucket), unwrap_or_empty(key));
        let mut extra: Vec<Attribute> = Vec::new();
        push_opt_i32(&mut extra, "aws.s3.part_number", part_number);
        push_opt(&mut extra, "aws.s3.version_id", version_id);
        assert(attrs_view(extra@) =~= opt_i64_attr("aws.s3.part_number"@, widen(part_number)) + opt_attr("aws.s3.version_id"@, opt_str(version_id)));
        b.extend(extra)
}

/// The attributes recorded from a `GetObject` response.
pub fn get_object_output_attributes(content_length: Option<i64>, e_tag: Option<&str>, version_id: Option<&str>) -> (r: Vec<Attribute>)
    ensures
        attrs_view(r@) == opt_i64_attr("aws.s3.content_length"@, content_length) + opt_attr("aws.s3.e_tag"@, opt_str(e_tag)) + opt_attr("aws.s3.version_id"@, opt_str(version_id)),
{
    let mut extra: Vec<Attribute> = Vec::new();
    push_opt_i64(&mut extra, "aws.s3.content_length", content_length);
    push_opt(&mut extra, "aws.s3.e_tag", e_tag);
    push_opt(&mut extra, "aws.s3.version_id", version_id);
    assert(attrs_view(extra@) =~= opt_i64_attr("aws.s3.content_length"@, content_length) + opt_attr("aws.s3.e_tag"@, opt_str(e_tag)) + opt_attr("aws.s3.version_id"@, opt_str(version_id)));
    extra
}

/// The span of an S3 `PutObject` request: the `PutObject` span on the object `key` of `bucket` (each empty when unset) with the request attributes that are set.
pub fn put_object_span<'a>(bucket: Option<&str>, key: Option<&str>, content_length: Option<i64>) -> (r: AwsSpanBuilder<'a>)
    ensures
        r.built(SpanKind::Client, "S3"@, "PutObject"@, s3_attrs(Some(or_empty(opt_str(bucket))), Some(or_empty(opt_str(key)))) + (opt_i64_attr("aws.s3.content_length"@, content_length))),
{
        let b = S3SpanBuilder::put_object(unwrap_or_empty(bucket), unwrap_or_empty(key));
        let mut extra: Vec<Attribute> = Vec::new();
        push_opt_i64(&mut extra, "aws.s3.content_length", content_length);
        assert(attrs_view(extra@) =~= opt_i64_attr("aws.s3.content_length"@, content_length));
        b.extend(extra)
}

/// The attributes recorded from a `PutObject` response.
pub fn put_object_output_attributes(e_tag: Option<&str>, version_id: Option<&str>) -> (r: Vec<Attribute>)
    ensures
        attrs_view(r@) == opt_attr("aws.s3.e_tag"@, opt_str(e_tag)) + opt_attr("aws.s3.version_id"@, opt_str(version_id)),
{
    let mut extra: Vec<Attribute> = Vec::new();
    push_opt(&mut extra, "aws.s3.e_tag", e_tag);
    push_opt(&mut extra, "aws.s3.version_id", version_id);
    assert(attrs_view(extra@) =~= opt_attr("aws.s3.e_tag"@, opt_str(e_tag)) + opt_attr("aws.s3.version_id"@, opt_str(version_id)));
    extra
}

/// The span of an S3 `HeadObject` request: the `HeadObject` span on the object `key` of `bucket` (each empty when unset) with the request attributes that are set.
pub fn head_object_span<'a>(bucket: Option<&str>, key: Option<&str>, part_number: Option<i32>, version_id: Option<&str>) -> (r: AwsSpanBuilder<'a>)
    ensures
        r.built(SpanKind::Client, "S3"@, "HeadObject"@, s3_attrs(Some(or_empty(opt_str(bucket))), Some(or_empty(opt_str(key)))) + (opt_i64_attr("aws.s3.part_number"@, widen(part_number)) + opt_attr("aws.s3.version_id"@, opt_str(version_id)))),
{
        let b = S3SpanBuilder::head_object(unwrap_or_empty(bucket), unwrap_or_empty(key));
        let mut extra: Vec<Attribute> = Vec::new();
        push_opt_i32(&mut extra, "aws.s3.part_number", part_number);
        push_opt(&mut extra, "aws.s3.version_id", version_id);
        assert(attrs_view(extra@) =~= opt_i64_attr("aws.s3.part_number"@, widen(part_number)) + opt_attr("aws.s3.version_id"@, opt_str(version_id)));
        b.extend(extra)
}

/// The attributes recorded from a `HeadObject` response.
pub fn head_object_output_attributes(content_length: Option<i64>, e_tag: Option<&str>, version_id: Option<&str>) -> (r: Vec<Attribute>)
    ensures
        attrs_view(r@) == opt_i64_attr("aws.s3.content_length"@, content_length) + opt_attr("aws.s3.e_tag"@, opt_str(e_tag)) + opt_attr("aws.s3.version_id"@, opt_str(version_id)),
{
    let mut extra: Vec<Attribute> = Vec::new();
    push_opt_i64(&mut extra, "aws.s3.content_length", content_length);
    push_opt(&mut extra, "aws.s3.e_tag", e_tag);
    push_opt(&mut extra, "aws.s3.version_id", version_id);
    assert(attrs_view(extra@) =~= opt_i64_attr("aws.s3.content_length"@, content_length) + opt_attr("aws.s3.e_tag"@, opt_str(e_tag)) + opt_attr("aws.s3.version_id"@, opt_str(version_id)));
    extra
}

/// The span of an S3 `CopyObject` request: the `CopyObject` span on the object `key` of `bucket` (each empty when unset) with the request attributes that are set.
pub fn copy_object_span<'a>(bucket: Option<&str>, key: Option<&str>, copy_source: Option<&str>) -> (r: AwsSpanBuilder<'a>)
    ensures
        r.built(SpanKind::Client, "S3"@, "CopyObject"@, s3_attrs(Some(or_empty(opt_str(bucket))), Some(or_empty(opt_str(key)))) + (opt_attr("aws.s3.copy_source"@, opt_str(copy_source)))),
{
        let b = S3SpanBuilder::copy_object(unwrap_or_empty(bucket), unwrap_or_empty(key));
        let mut extra: Vec<Attribute> = Vec::new();
        push_opt(&mut extra, "aws.s3.copy_source", copy_source);
        assert(attrs_view(extra@) =~= opt_attr("aws.s3.copy_source"@, opt_str(copy_source)));
        b.extend(extra)
}

/// The attributes recorded from a `CopyObject` response.
pub fn copy_object_output_attributes(version_id: Option<&str>) -> (r: Vec<Attribute>)
    ensures
        attrs_view(r@) == opt_attr("aws.s3.version_id"@, opt_str(version_id)),
{
    let mut extra: Vec<Attribute> = Vec::new();
    push_opt(&mut extra, "aws.s3.version_id", version_id);
    assert(attrs_view(extra@) =~= opt_attr("aws.s3.version_id"@, opt_str(version_id)));
    extra
}

/// The span of an S3 `DeleteObject` request: the `DeleteObject` span on the object `key` of `bucket` (each empty when unset) with the request attributes that are set.
pub fn delete_object_span<'a>(bucket: Option<&str>, key: Option<&str>, version_id: Option<&str>) -> (r: AwsSpanBuilder<'a>)
    ensures
        r.built(SpanKind::Client, "S3"@, "DeleteObject"@, s3_attrs(Some(or_empty(opt_str(bucket))), Some(or_empty(opt_str(key)))) + (opt_attr("aws.s3.version_id"@, opt_str(version_id)))),
{
        let b = S3SpanBuilder::delete_object(unwrap_or_empty(bucket), unwrap_or_empty(key));
        let mut extra: Vec<Attribute> = Vec::new();
        push_opt(&mut extra, "aws.s3.version_id", version_id);
        assert(attrs_view(extra@) =~= opt_attr("aws.s3.version_id"@, opt_str(version_id)));
        b.extend(extra)
}

/// The attributes recorded from a `DeleteObject` response.
pub fn delete_object_output_attributes(delete_marker: Option<bool>, version_id: Option<&str>) -> (r: Vec<Attribute>)
    ensures
        attrs_view(r@) == opt_bool_attr("aws.s3.delete"@, delete_marker) + opt_attr("aws.s3.version_id"@, opt_str(version_id)),
{
    let mut extra: Vec<Attribute> = Vec::new();
    push_opt_bool(&mut extra, "aws.s3.delete", delete_marker);
    push_opt(&mut extra, "aws.s3.version_id", version_id);
    assert(attrs_view(extra@) =~= opt_bool_attr("aws.s3.delete"@, delete_marker) + opt_attr("aws.s3.version_id"@, opt_str(version_id)));
    extra
}

/// The span of an S3 `DeleteObjects` request: the `DeleteObjects` span on `bucket` (empty when unset) with the request attributes that are set.
pub fn delete_objects_span<'a>(bucket: Option<&str>) -> (r: AwsSpanBuilder<'a>)
    ensures
        r.built(SpanKind::Client, "S3"@, "DeleteObjects"@, s3_attrs(Some(or_empty(opt_str(bucket))), None)),
{
        S3SpanBuilder::delete_objects(unwrap_or_empty(bucket))
}

/// The attributes recorded from a `DeleteObjects` response.
pub fn delete_objects_output_attributes(deleted: usize, errors: usize) -> (r: Vec<Attribute>)
    ensures
        attrs_view(r@) == count_attr("aws.s3.delete.deleted_count"@, deleted) + count_attr("aws.s3.delete.error_count"@, errors),
{
    let mut extra: Vec<Attribute> = Vec::new();
    push_count(&mut extra, "aws.s3.delete.deleted_count", deleted);
    push_count(&mut extra, "aws.s3.delete.error_count", errors);
    assert(attrs_view(extra@) =~= count_attr("aws.s3.delete.deleted_count"@, deleted) + count_attr("aws.s3.delete.error_count"@, errors));
    extra
}

/// The span of an S3 `RenameObject` request: the `RenameObject` span on the object `key` of `bucket` (each empty when unset) with the request attributes that are set.
pub fn rename_object_span<'a>(bucket: Option<&str>, key: Option<&str>) -> (r: AwsSpanBuilder<'a>)
    ensures
        r.built(SpanKind::Client, "S3"@, "RenameObject"@, s3_attrs(Some(or_empty(opt_str(bucket))), Some(or_empty(opt_str(key))))),
{
        S3SpanBuilder::rename_object(unwrap_or_empty(bucket), unwrap_or_empty(key))
}

/// The span of an S3 `RestoreObject` request: the `RestoreObject` span on the object `key` of `bucket` (each empty when unset) with the request attributes that are set.
pub fn restore_object_span<'a>(bucket: Option<&str>, key: Option<&str>, version_id: Option<&str>) -> (r: AwsSpanBuilder<'a>)
    ensures
        r.built(SpanKind::Client, "S3"@, "RestoreObject"@, s3_attrs(Some(or_empty(opt_str(bucket))), Some(or_empty(opt_str(key)))) + (opt_attr("aws.s3.version_id"@, opt_str(version_id)))),
{
        let b = S3SpanBuilder::restore_object(unwrap_or_empty(bucket), unwrap_or_empty(key));
        let mut extra: Vec<Attribute> = Vec::new();
        push_opt(&mut extra, "aws.s3.version_id", version_id);
        assert(attrs_view(extra@) =~= opt_attr("aws.s3.version_id"@, opt_str(version_id)));
        b.extend(extra)
}

/// The span of an S3 `SelectObjectContent` request: the `SelectObjectContent` span on the object `key` of `bucket` (each empty when unset) with the request attributes that are set.
pub fn select_object_content_span<'a>(bucket: Option<&str>, key: Option<&str>) -> (r: AwsSpanBuilder<'a>)
    ensures
        r.built(SpanKind::Client, "S3"@, "SelectObjectContent"@, s3_attrs(Some(or_empty(opt_str(bucket))), Some(or_empty(opt_str(key))))),
{
        S3SpanBuilder::select_object_content(unwrap_or_empty(bucket), unwrap_or_empty(key))
}

/// The span of an S3 `GetObjectTorrent` request: the `GetObjectTorrent` span on the object `key` of `bucket` (each empty when unset) with the request attributes that are set.
pub fn get_object_torrent_span<'a>(bucket: Option<&str>, key: Option<&str>) -> (r: AwsSpanBuilder<'a>)
    ensures
        r.built(SpanKind::Client, "S3"@, "GetObjectTorrent"@, s3_attrs(Some(or_empty(opt_str(bucket))), Some(or_empty(opt_str(key))))),
{
        S3SpanBuilder::get_object_torrent(unwrap_or_empty(bucket), unwrap_or_empty(key))
}

/// The span of an S3 `ListObjects` request: the `ListObjects` span on `bucket` (empty when unset) with the request attributes that are set.
pub fn list_objects_span<'a>(bucket: Option<&str>) -> (r: AwsSpanBuilder<'a>)
    ensures
        r.built(SpanKind::Client, "S3"@, "ListObjects"@, s3_attrs(Some(or_empty(opt_str(bucket))), None)),
{
        S3SpanBuilder::list_objects(unwrap_or_empty(bucket))
}

/// The span of an S3 `ListObjectsV2` request: the `ListObjectsV2` span on `bucket` (empty when unset) with the request attributes that are set.
pub fn list_objects_v2_span<'a>(bucket: Option<&str>) -> (r: AwsSpanBuilder<'a>)
    ensures
        r.built(SpanKind::Client, "S3"@, "ListObjectsV2"@, s3_attrs(Some(or_empty(opt_str(bucket))), None)),
{
        S3SpanBuilder::list_objects_v2(unwrap_or_empty(bucket))
}

/// The attributes recorded from a `ListObjectsV2` response.
pub fn list_objects_v2_output_attributes(key_count: Option<i32>) -> (r: Vec<Attribute>)
    ensures
        attrs_view(r@) == opt_i64_attr("aws.s3.key_count"@, widen(key_count)),
{
    let mut extra: Vec<Attribute> = Vec::new();
    push_opt_i32(&mut extra, "aws.s3.key_count", key_count);
    assert(attrs_view(extra@) =~= opt_i64_attr("aws.s3.key_count"@, widen(key_count)));
    extra
}

/// The span of an S3 `ListObjectVersions` request: the `ListObjectVersions` span on `bucket` (empty when unset) with the request attributes that are set.
pub fn list_object_versions_span<'a>(bucket: Option<&str>) -> (r: AwsSpanBuilder<'a>)
    ensures
        r.built(SpanKind::Client, "S3"@, "ListObjectVersions"@, s3_attrs(Some(or_empty(opt_str(bucket))), None)),
{
        S3SpanBuilder::list_object_versions(unwrap_or_empty(bucket))
}

/// The span of an S3 `CreateMultipartUpload` request: the `CreateMultipartUpload` span on the object `key` of `bucket` (each empty when unset) with the request attributes that are set.
pub fn create_multipart_upload_span<'a>(bucket: Option<&str>, key: Option<&str>) -> (r: AwsSpanBuilder<'a>)
    ensures
        r.built(SpanKind::Client, "S3"@, "CreateMultipartUpload"@, s3_attrs(Some(or_empty(opt_str(bucket))), Some(or_empty(opt_str(key))))),
{
        S3SpanBuilder::create_multipart_upload(unwrap_or_empty(bucket), unwrap_or_empty(key))
}

/// The attributes recorded from a `CreateMultipartUpload` response.
pub fn create_multipart_upload_output_attributes(upload_id: Option<&str>) -> (r: Vec<Attribute>)
    ensures
        attrs_view(r@) == opt_attr("aws.s3.upload_id"@, opt_str(upload_id)),
{
    let mut extra: Vec<Attribute> = Vec::new();
    push_opt(&mut extra, "aws.s3.upload_id", upload_id);
    assert(attrs_view(extra@) =~= opt_attr("aws.s3.upload_id"@, opt_str(upload_id)));
    extra
}

/// The span of an S3 `UploadPart` request: the `UploadPart` span on the object `key` of `bucket` (each empty when unset) with the request attributes that are set.
pub fn upload_part_span<'a>(bucket: Option<&str>, key: Option<&str>, upload_id: Option<&str>, part_number: Option<i32>, content_length: Option<i64>) -> (r: AwsSpanBuilder<'a>)
    ensures
        r.built(SpanKind::Client, "S3"@, "UploadPart"@, s3_attrs(Some(or_empty(opt_str(bucket))), Some(or_empty(opt_str(key)))) + (opt_attr("aws.s3.upload_id"@, opt_str(upload_id)) + opt_i64_attr("aws.s3.part_number"@, widen(part_number)) + opt_i64_attr("aws.s3.content_length"@, content_length))),
{
        let b = S3SpanBuilder::upload_part(unwrap_or_empty(bucket), unwrap_or_empty(key));
        let mut extra: Vec<Attribute> = Vec::new();
        push_opt(&mut extra, "aws.s3.upload_id", upload_id);
        push_opt_i32(&mut extra, "aws.s3.part_number", part_number);
        push_opt_i64(&mut extra, "aws.s3.content_length", content_length);
        assert(attrs_view(extra@) =~= opt_attr("aws.s3.upload_id"@, opt_str(upload_id)) + opt_i64_attr("aws.s3.part_number"@, widen(part_number)) + opt_i64_attr("aws.s3.content_length"@, content_length));
        b.extend(extra)
}

/// The attributes recorded from a `UploadPart` response.
pub fn upload_part_output_attributes(e_tag: Option<&str>) -> (r: Vec<Attribute>)
    ensures
        attrs_view(r@) == opt_attr("aws.s3.e_tag"@, opt_str(e_tag)),
{
    let mut extra: Vec<Attribute> = Vec::new();
    push_opt(&mut extra, "aws.s3.e_tag", e_tag);
    assert(attrs_view(extra@) =~= opt_attr("aws.s3.e_tag"@, opt_str(e_tag)));
    extra
}

/// The span of an S3 `UploadPartCopy` request: the `UploadPartCopy` span on the object `key` of `bucket` (each empty when unset) with the request attributes that are set.
pub fn upload_part_copy_span<'a>(bucket: Option<&str>, key: Option<&str>, upload_id: Option<&str>, part_number: Option<i32>, copy_source: Option<&str>) -> (r: AwsSpanBuilder<'a>)
    ensures
        r.built(SpanKind::Client, "S3"@, "UploadPartCopy"@, s3_attrs(Some(or_empty(opt_str(bucket))), Some(or_empty(opt_str(key)))) + (opt_attr("aws.s3.upload_id"@, opt_str(upload_id)) + opt_i64_attr("aws.s3.part_number"@, widen(part_number)) + opt_attr("aws.s3.copy_source"@, opt_str(copy_source)))),
{
        let b = S3SpanBuilder::upload_part_copy(unwrap_or_empty(bucket), unwrap_or_empty(key));
        let mut extra: Vec<Attribute> = Vec::new();
        push_opt(&mut extra, "aws.s3.upload_id", upload_id);
        push_opt_i32(&mut extra, "aws.s3.part_number", part_number);
        push_opt(&mut extra, "aws.s3.copy_source", copy_source);
        assert(attrs_view(extra@) =~= opt_attr("aws.s3.upload_id"@, opt_str(upload_id)) + opt_i64_attr("aws.s3.part_number"@, widen(part_number)) + opt_attr("aws.s3.copy_source"@, opt_str(copy_source)));
        b.extend(extra)
}

/// The span of an S3 `CompleteMultipartUpload` request: the `CompleteMultipartUpload` span on the object `key` of `bucket` (each empty when unset) with the request attributes that are set.
pub fn complete_multipart_upload_span<'a>(bucket: Option<&str>, key: Option<&str>, upload_id: Option<&str>) -> (r: AwsSpanBuilder<'a>)
    ensures
        r.built(SpanKind::Client, "S3"@, "CompleteMultipartUpload"@, s3_attrs(Some(or_empty(opt_str(bucket))), Some(or_empty(opt_str(key)))) + (opt_attr("aws.s3.upload_id"@, opt_str(upload_id)))),
{
        let b = S3SpanBuilder::complete_multipart_upload(unwrap_or_empty(bucket), unwrap_or_empty(key));
        let mut extra: Vec<Attribute> = Vec::new();
        push_opt(&mut extra, "aws.s3.upload_id", upload_id);
        assert(attrs_view(extra@) =~= opt_attr("aws.s3.upload_id"@, opt_str(upload_id)));
        b.extend(extra)
}

/// The attributes recorded from a `CompleteMultipartUpload` response.
pub fn complete_multipart_upload_output_attributes(e_tag: Option<&str>, version_id: Option<&str>) -> (r: Vec<Attribute>)
    ensures
        attrs_view(r@) == opt_attr("aws.s3.e_tag"@, opt_str(e_tag)) + opt_attr("aws.s3.version_id"@, opt_str(version_id)),
{
    let mut extra: Vec<Attribute> = Vec::new();
    push_opt(&mut extra, "aws.s3.e_tag", e_tag);
    push_opt(&mut extra, "aws.s3.version_id", version_id);
    assert(attrs_view(extra@) =~= opt_attr("aws.s3.e_tag"@, opt_str(e_tag)) + opt_attr("aws.s3.version_id"@, opt_str(version_id)));
    extra
}

/// The span of an S3 `AbortMultipartUpload` request: the `AbortMultipartUpload` span on the object `key` of `bucket` (each empty when unset) with the request attributes that are set.
pub fn abort_multipart_upload_span<'a>(bucket: Option<&str>, key: Option<&str>, upload_id: Option<&str>) -> (r: AwsSpanBuilder<'a>)
    ensures
        r.built(SpanKind::Client, "S3"@, "AbortMultipartUpload"@, s3_attrs(Some(or_empty(opt_str(bucket))), Some(or_empty(opt_str(key)))) + (opt_attr("aws.s3.upload_id"@, opt_str(upload_id)))),
{
        let b = S3SpanBuilder::abort_multipart_upload(unwrap_or_empty(bucket), unwrap_or_empty(key));
        let mut extra: Vec<Attribute> = Vec::new();
        push_opt(&mut extra, "aws.s3.upload_id", upload_id);
        assert(attrs_view(extra@) =~= opt_attr("aws.s3.upload_id"@, opt_str(upload_id)));
        b.extend(extra)
}

/// The span of an S3 `ListMultipartUploads` request: the `ListMultipartUploads` span on `bucket` (empty when unset) with the request attributes that are set.
pub fn list_multipart_uploads_span<'a>(bucket: Option<&str>) -> (r: AwsSpanBuilder<'a>)
    ensures
        r.built(SpanKind::Client, "S3"@, "ListMultipartUploads"@, s3_attrs(Some(or_empty(opt_str(bucket))), None)),
{
        S3SpanBuilder::list_multipart_uploads(unwrap_or_empty(bucket))
}

/// The span of an S3 `ListParts` request: the `ListParts` span on the object `key` of `bucket` (each empty when unset) with the request attributes that are set.
pub fn list_parts_span<'a>(bucket: Option<&str>, key: Option<&str>, upload_id: Option<&str>) -> (r: AwsSpanBuilder<'a>)
    ensures
        r.built(SpanKind::Client, "S3"@, "ListParts"@, s3_attrs(Some(or_empty(opt_str(bucket))), Some(or_empty(opt_str(key)))) + (opt_attr("aws.s3.upload_id"@, opt_str(upload_id)))),
{
        let b = S3SpanBuilder::list_parts(unwrap_or_empty(bucket), unwrap_or_empty(key));
        let mut extra: Vec<Attribute> = Vec::new();
        push_opt(&mut extra, "aws.s3.upload_id", upload_id);
        assert(attrs_view(extra@) =~= opt_attr("aws.s3.upload_id"@, opt_str(upload_id)));
        b.extend(extra)
}

/// The span of an S3 `CreateBucket` request: the `CreateBucket` span on `bucket` (empty when unset) with the request attributes that are set.
pub fn create_bucket_span<'a>(bucket: Option<&str>) -> (r: AwsSpanBuilder<'a>)
    ensures
        r.built(SpanKind::Client, "S3"@, "CreateBucket"@, s3_attrs(Some(or_empty(opt_str(bucket))), None)),
{
        S3SpanBuilder::create_bucket(unwrap_or_empty(bucket))
}

/// The span of an S3 `DeleteBucket` request: the `DeleteBucket` span on `bucket` (empty when unset) with the request attributes that are set.
pub fn delete_bucket_span<'a>(bucket: Option<&str>) -> (r: AwsSpanBuilder<'a>)
    ensures
        r.built(SpanKind::Client, "S3"@, "DeleteBucket"@, s3_attrs(Some(or_empty(opt_str(bucket))), None)),
{
        S3SpanBuilder::delete_bucket(unwrap_or_empty(bucket))
}

/// The span of an S3 `HeadBucket` request: the `HeadBucket` span on `bucket` (empty when unset) with the request attributes that are set.
pub fn head_bucket_span<'a>(bucket: Option<&str>) -> (r: AwsSpanBuilder<'a>)
    ensures
        r.built(SpanKind::Client, "S3"@, "HeadBucket"@, s3_attrs(Some(or_empty(opt_str(bucket))), None)),
{
        S3SpanBuilder::head_bucket(unwrap_or_empty(bucket))
}

/// The span of an S3 `CreateSession` request: the `CreateSession` span on `bucket` (empty when unset) with the request attributes that are set.
pub fn create_session_span<'a>(bucket: Option<&str>) -> (r: AwsSpanBuilder<'a>)
    ensures
        r.built(SpanKind::Client, "S3"@, "CreateSession"@, s3_attrs(Some(or_empty(opt_str(bucket))), None)),
{
        S3SpanBuilder::create_session(unwrap_or_empty(bucket))
}

/// The span of an S3 `ListBuckets` request, with the request attributes that are set.
pub fn list_buckets_span<'a>() -> (r: AwsSpanBuilder<'a>)
    ensures
        r.built(SpanKind::Client, "S3"@, "ListBuckets"@, s3_attrs(None, None)),
{
        S3SpanBuilder::list_buckets()
}

/// The span of an S3 `ListDirectoryBuckets` request, with the request attributes that are set.
pub fn list_directory_buckets_span<'a>() -> (r: AwsSpanBuilder<'a>)
    ensures
        r.built(SpanKind::Client, "S3"@, "ListDirectoryBuckets"@, s3_attrs(None, None)),
{
        S3SpanBuilder::list_directory_buckets()
}

/// The span of an S3 `WriteGetObjectResponse` request, with the request attributes that are set.
pub fn write_get_object_response_span<'a>(content_length: Option<i64>, version_id: Option<&str>) -> (r: AwsSpanBuilder<'a>)
    ensures
        r.built(SpanKind::Client, "S3"@, "WriteGetObjectResponse"@, s3_attrs(None, None) + (opt_i64_attr("aws.s3.content_length"@, content_length) + opt_attr("aws.s3.version_id"@, opt_str(version_id)))),
{
        let b = S3SpanBuilder::write_get_object_response();
        let mut extra: Vec<Attribute> = Vec::new();
        push_opt_i64(&mut extra, "aws.s3.content_length", content_length);
        push_opt(&mut extra, "aws.s3.version_id", version_id);
        assert(attrs_view(extra@) =~= opt_i64_attr("aws.s3.content_length"@, content_length) + opt_attr("aws.s3.version_id"@, opt_str(version_id)));
        b.extend(extra)
}

/// The span of an S3 `GetObjectAcl` request: the `GetObjectAcl` span on the object `key` of `bucket` (each empty when unset) with the request attributes that are set.
pub fn get_object_acl_span<'a>(bucket: Option<&str>, key: Option<&str>, version_id: Option<&str>) -> (r: AwsSpanBuilder<'a>)
    ensures
        r.built(SpanKind::Client, "S3"@, "GetObjectAcl"@, s3_attrs(Some(or_empty(opt_str(bucket))), Some(or_empty(opt_str(key)))) + (opt_attr("aws.s3.version_id"@, opt_str(version_id)))),
{
        let b = S3SpanBuilder::get_object_acl(unwrap_or_empty(bucket), unwrap_or_empty(key));
        let mut extra: Vec<Attribute> = Vec::new();
        push_opt(&mut extra, "aws.s3.version_id", version_id);
        assert(attrs_view(extra@) =~= opt_attr("aws.s3.version_id"@, opt_str(version_id)));
        b.extend(extra)
}

/// The span of an S3 `PutObjectAcl` request: the `PutObjectAcl` span on the object `key` of `bucket` (each empty when unset) with the request attributes that are set.
pub fn put_object_acl_span<'a>(bucket: Option<&str>, key: Option<&str>, version_id: Option<&str>) -> (r: AwsSpanBuilder<'a>)
    ensures
        r.built(SpanKind::Client, "S3"@, "PutObjectAcl"@, s3_attrs(Some(or_empty(opt_str(bucket))), Some(or_empty(opt_str(key)))) + (opt_attr("aws.s3.version_id"@, opt_str(version_id)))),
{
        let b = S3SpanBuilder::put_object_acl(unwrap_or_empty(bucket), unwrap_or_empty(key));
        let mut extra: Vec<Attribute> = Vec::new();
        push_opt(&mut extra, "aws.s3.version_id", version_id);
        assert(attrs_view(extra@) =~= opt_attr("aws.s3.version_id"@, opt_str(version_id)));
        b.extend(extra)
}

/// The span of an S3 `GetObjectAttributes` request: the `GetObjectAttributes` span on the object `key` of `bucket` (each empty when unset) with the request attributes that are set.
pub fn get_object_attributes_span<'a>(bucket: Option<&str>, key: Option<&str>, version_id: Option<&str>) -> (r: AwsSpanBuilder<'a>)
    ensures
        r.built(SpanKind::Client, "S3"@, "GetObjectAttributes"@, s3_attrs(Some(or_empty(opt_str(bucket))), Some(or_empty(opt_str(key)))) + (opt_attr("aws.s3.version_id"@, opt_str(version_id)))),
{
        let b = S3SpanBuilder::get_object_attributes(unwrap_or_empty(bucket), unwrap_or_empty(key));
        let mut extra: Vec<Attribute> = Vec::new();
        push_opt(&mut extra, "aws.s3.version_id", version_id);
        assert(attrs_view(extra@) =~= opt_attr("aws.s3.version_id"@, opt_str(version_id)));
        b.extend(extra)
}

/// The attributes recorded from a `GetObjectAttributes` response.
pub fn get_object_attributes_output_attributes(e_tag: Option<&str>, version_id: Option<&str>) -> (r: Vec<Attribute>)
    ensures
        attrs_view(r@) == opt_attr("aws.s3.e_tag"@, opt_str(e_tag)) + opt_attr("aws.s3.version_id"@, opt_str(version_id)),
{
    let mut extra: Vec<Attribute> = Vec::new();
    push_opt(&mut extra, "aws.s3.e_tag", e_tag);
    push_opt(&mut extra, "aws.s3.version_id", version_id);
    assert(attrs_view(extra@) =~= opt_attr("aws.s3.e_tag"@, opt_str(e_tag)) + opt_attr("aws.s3.version_id"@, opt_str(version_id)));
    extra
}

/// The span of an S3 `GetObjectTagging` request: the `GetObjectTagging` span on the object `key` of `bucket` (each empty when unset) with the request attributes that are set.
pub fn get_object_tagging_span<'a>(bucket: Option<&str>, key: Option<&str>, version_id: Option<&str>) -> (r: AwsSpanBuilder<'a>)
    ensures
        r.built(SpanKind::Client, "S3"@, "GetObjectTagging"@, s3_attrs(Some(or_empty(opt_str(bucket))), Some(or_empty(opt_str(key)))) + (opt_attr("aws.s3.version_id"@, opt_str(version_id)))),
{
        let b = S3SpanBuilder::get_object_tagging(unwrap_or_empty(bucket), unwrap_or_empty(key));
        let mut extra: Vec<Attribute> = Vec::new();
        push_opt(&mut extra, "aws.s3.version_id", version_id);
        assert(attrs_view(extra@) =~= opt_attr("aws.s3.version_id"@, opt_str(version_id)));
        b.extend(extra)
}

/// The attributes recorded from a `GetObjectTagging` response.
pub fn get_object_tagging_output_attributes(version_id: Option<&str>) -> (r: Vec<Attribute>)
    ensures
        attrs_view(r@) == opt_attr("aws.s3.version_id"@, opt_str(version_id)),
{
    let mut extra: Vec<Attribute> = Vec::new();
    push_opt(&mut extra, "aws.s3.version_id", version_id);
    assert(attrs_view(extra@) =~= opt_attr("aws.s3.version_id"@, opt_str(version_id)));
    extra
}

/// The span of an S3 `PutObjectTagging` request: the `PutObjectTagging` span on the object `key` of `bucket` (each empty when unset) with the request attributes that are set.
pub fn put_object_tagging_span<'a>(bucket: Option<&str>, key: Option<&str>, version_id: Option<&str>) -> (r: AwsSpanBuilder<'a>)
    ensures
        r.built(SpanKind::Client, "S3"@, "PutObjectTagging"@, s3_attrs(Some(or_empty(opt_str(bucket))), Some(or_empty(opt_str(key)))) + (opt_attr("aws.s3.version_id"@, opt_str(version_id)))),
{
        let b = S3SpanBuilder::put_object_tagging(unwrap_or_empty(bucket), unwrap_or_empty(key));
        let mut extra: Vec<Attribute> = Vec::new();
        push_opt(&mut extra, "aws.s3.version_id", version_id);
        assert(attrs_view(extra@) =~= opt_attr("aws.s3.version_id"@, opt_str(version_id)));
        b.extend(extra)
}

/// The attributes recorded from a `PutObjectTagging` response.
pub fn put_object_tagging_output_attributes(version_id: Option<&str>) -> (r: Vec<Attribute>)
    ensures
        attrs_view(r@) == opt_attr("aws.s3.version_id"@, opt_str(version_id)),
{
    let mut extra: Vec<Attribute> = Vec::new();
    push_opt(&mut extra, "aws.s3.version_id", version_id);
    assert(attrs_view(extra@) =~= opt_attr("aws.s3.version_id"@, opt_str(version_id)));
    extra
}

/// The span of an S3 `DeleteObjectTagging` request: the `DeleteObjectTagging` span on the object `key` of `bucket` (each empty when unset) with the request attributes that are set.
pub fn delete_object_tagging_span<'a>(bucket: Option<&str>, key: Option<&str>, version_id: Option<&str>) -> (r: AwsSpanBuilder<'a>)
    ensures
        r.built(SpanKind::Client, "S3"@, "DeleteObjectTagging"@, s3_attrs(Some(or_empty(opt_str(bucket))), Some(or_empty(opt_str(key)))) + (opt_attr("aws.s3.version_id"@, opt_str(version_id)))),
{
        let b = S3SpanBuilder::delete_object_tagging(unwrap_or_empty(bucket), unwrap_or_empty(key));
        let mut extra: Vec<Attribute> = Vec::new();
        push_opt(&mut extra, "aws.s3.version_id", version_id);
        assert(attrs_view(extra@) =~= opt_attr("aws.s3.version_id"@, opt_str(version_id)));
        b.extend(extra)
}

/// The attributes recorded from a `DeleteObjectTagging` response.
pub fn delete_object_tagging_output_attributes(version_id: Option<&str>) -> (r: Vec<Attribute>)
    ensures
        attrs_view(r@) == opt_attr("aws.s3.version_id"@, opt_str(version_id)),
{
    let mut extra: Vec<Attribute> = Vec::new();
    push_opt(&mut extra, "aws.s3.version_id", version_id);
    assert(attrs_view(extra@) =~= opt_attr("aws.s3.version_id"@, opt_str(version_id)));
    extra
}

/// The span of an S3 `GetObjectLegalHold` request: the `GetObjectLegalHold` span on the object `key` of `bucket` (each empty when unset) with the request attributes that are set.
pub fn get_object_legal_hold_span<'a>(bucket: Option<&str>, key: Option<&str>, version_id: Option<&str>) -> (r: AwsSpanBuilder<'a>)
    ensures
        r.built(SpanKind::Client, "S3"@, "GetObjectLegalHold"@, s3_attrs(Some(or_empty(opt_str(bucket))), Some(or_empty(opt_str(key)))) + (opt_attr("aws.s3.version_id"@, opt_str(version_id)))),
{
        let b = S3SpanBuilder::get_object_legal_hold(unwrap_or_empty(bucket), unwrap_or_empty(key));
        let mut extra: Vec<Attribute> = Vec::new();
        push_opt(&mut extra, "aws.s3.version_id", version_id);
        assert(attrs_view(extra@) =~= opt_attr("aws.s3.version_id"@, opt_str(version_id)));
        b.extend(extra)
}

/// The span of an S3 `PutObjectLegalHold` request: the `PutObjectLegalHold` span on the object `key` of `bucket` (each empty when unset) with the request attributes that are set.
pub fn put_object_legal_hold_span<'a>(bucket: Option<&str>, key: Option<&str>, version_id: Option<&str>) -> (r: AwsSpanBuilder<'a>)
    ensures
        r.built(SpanKind::Client, "S3"@, "PutObjectLegalHold"@, s3_attrs(Some(or_empty(opt_str(bucket))), Some(or_empty(opt_str(key)))) + (opt_attr("aws.s3.version_id"@, opt_str(version_id)))),
{
        let b = S3SpanBuilder::put_object_legal_hold(unwrap_or_empty(bucket), unwrap_or_empty(key));
        let mut extra: Vec<Attribute> = Vec::new();
        push_opt(&mut extra, "aws.s3.version_id", version_id);
        assert(attrs_view(extra@) =~= opt_attr("aws.s3.version_id"@, opt_str(version_id)));
        b.extend(extra)
}

/// The span of an S3 `GetObjectRetention` request: the `GetObjectRetention` span on the object `key` of `bucket` (each empty when unset) with the request attributes that are set.
pub fn get_object_retention_span<'a>(bucket: Option<&str>, key: Option<&str>, version_id: Option<&str>) -> (r: AwsSpanBuilder<'a>)
    ensures
        r.built(SpanKind::Client, "S3"@, "GetObjectRetention"@, s3_attrs(Some(or_empty(opt_str(bucket))), Some(or_empty(opt_str(key)))) + (opt_attr("aws.s3.version_id"@, opt_str(version_id)))),
{
        let b = S3SpanBuilder::get_object_retention(unwrap_or_empty(bucket), unwrap_or_empty(key));
        let mut extra: Vec<Attribute> = Vec::new();
        push_opt(&mut extra, "aws.s3.version_id", version_id);
        assert(attrs_view(extra@) =~= opt_attr("aws.s3.version_id"@, opt_str(version_id)));
        b.extend(extra)
}

/// The span of an S3 `PutObjectRetention` request: the `PutObjectRetention` span on the object `key` of `bucket` (each empty when unset) with the request attributes that are set.
pub fn put_object_retention_span<'a>(bucket: Option<&str>, key: Option<&str>, version_id: Option<&str>) -> (r: AwsSpanBuilder<'a>)
    ensures
        r.built(SpanKind::Client, "S3"@, "PutObjectRetention"@, s3_attrs(Some(or_empty(opt_str(bucket))), Some(or_empty(opt_str(key)))) + (opt_attr("aws.s3.version_id"@, opt_str(version_id)))),
{
        let b = S3SpanBuilder::put_object_retention(unwrap_or_empty(bucket), unwrap_or_empty(key));
        let mut extra: Vec<Attribute> = Vec::new();
        push_opt(&mut extra, "aws.s3.version_id", version_id);
        assert(attrs_view(extra@) =~= opt_attr("aws.s3.version_id"@, opt_str(version_id)));
        b.extend(extra)
}

/// The span of an S3 `GetObjectLockConfiguration` request: the `GetObjectLockConfiguration` span on `bucket` (empty when unset) with the request attributes that are set.
pub fn get_object_lock_configuration_span<'a>(bucket: Option<&str>) -> (r: AwsSpanBuilder<'a>)
    ensures
        r.built(SpanKind::Client, "S3"@, "GetObjectLockConfiguration"@, s3_attrs(Some(or_empty(opt_str(bucket))), None)),
{
        S3SpanBuilder::get_object_lock_configuration(unwrap_or_empty(bucket))
}

/// The span of an S3 `PutObjectLockConfiguration` request: the `PutObjectLockConfiguration` span on `bucket` (empty when unset) with the request attributes that are set.
pub fn put_object_lock_configuration_span<'a>(bucket: Option<&str>) -> (r: AwsSpanBuilder<'a>)
    ensures
        r.built(SpanKind::Client, "S3"@, "PutObjectLockConfiguration"@, s3_attrs(Some(or_empty(opt_str(bucket))), None)),
{
        S3SpanBuilder::put_object_lock_configuration(unwrap_or_empty(bucket))
}

/// The span of an S3 `GetBucketAcl` request: the `GetBucketAcl` span on `bucket` (empty when unset) with the request attributes that are set.
pub fn get_bucket_acl_span<'a>(bucket: Option<&str>) -> (r: AwsSpanBuilder<'a>)
    ensures
        r.built(SpanKind::Client, "S3"@, "GetBucketAcl"@, s3_attrs(Some(or_empty(opt_str(bucket))), None)),
{
        S3SpanBuilder::get_bucket_acl(unwrap_or_empty(bucket))
}

/// The span of an S3 `PutBucketAcl` request: the `PutBucketAcl` span on `bucket` (empty when unset) with the request attributes that are set.
pub fn put_bucket_acl_span<'a>(bucket: Option<&str>) -> (r: AwsSpanBuilder<'a>)
    ensures
        r.built(SpanKind::Client, "S3"@, "PutBucketAcl"@, s3_attrs(Some(or_empty(opt_str(bucket))), None)),
{
        S3SpanBuilder::put_bucket_acl(unwrap_or_empty(bucket))
}

/// The span of an S3 `GetBucketPolicy` request: the `GetBucketPolicy` span on `bucket` (empty when unset) with the request attributes that are set.
pub fn get_bucket_policy_span<'a>(bucket: Option<&str>) -> (r: AwsSpanBuilder<'a>)
    ensures
        r.built(SpanKind::Client, "S3"@, "GetBucketPolicy"@, s3_attrs(Some(or_empty(opt_str(bucket))), None)),
{
        S3SpanBuilder::get_bucket_policy(unwrap_or_empty(bucket))
}

/// The span of an S3 `PutBucketPolicy` request: the `PutBucketPolicy` span on `bucket` (empty when unset) with the request attributes that are set.
pub fn put_bucket_policy_span<'a>(bucket: Option<&str>) -> (r: AwsSpanBuilder<'a>)
    ensures
        r.built(SpanKind::Client, "S3"@, "PutBucketPolicy"@, s3_attrs(Some(or_empty(opt_str(bucket))), None)),
{
        S3SpanBuilder::put_bucket_policy(unwrap_or_empty(bucket))
}

/// The span of an S3 `DeleteBucketPolicy` request: the `DeleteBucketPolicy` span on `bucket` (empty when unset) with the request attributes that are set.
pub fn delete_bucket_policy_span<'a>(bucket: Option<&str>) -> (r: AwsSpanBuilder<'a>)
    ensures
        r.built(SpanKind::Client, "S3"@, "DeleteBucketPolicy"@, s3_attrs(Some(or_empty(opt_str(bucket))), None)),
{
        S3SpanBuilder::delete_bucket_policy(unwrap_or_empty(bucket))
}

/// The span of an S3 `GetBucketPolicyStatus` request: the `GetBucketPolicyStatus` span on `bucket` (empty when unset) with the request attributes that are set.
pub fn get_bucket_policy_status_span<'a>(bucket: Option<&str>) -> (r: AwsSpanBuilder<'a>)
    ensures
        r.built(SpanKind::Client, "S3"@, "GetBucketPolicyStatus"@, s3_attrs(Some(or_empty(opt_str(bucket))), None)),
{
        S3SpanBuilder::get_bucket_policy_status(unwrap_or_empty(bucket))
}

/// The span of an S3 `GetBucketCors` request: the `GetBucketCors` span on `bucket` (empty when unset) with the request attributes that are set.
pub fn get_bucket_cors_span<'a>(bucket: Option<&str>) -> (r: AwsSpanBuilder<'a>)
    ensures
        r.built(SpanKind::Client, "S3"@, "GetBucketCors"@, s3_attrs(Some(or_empty(opt_str(bucket))), None)),
{
        S3SpanBuilder::get_bucket_cors(unwrap_or_empty(bucket))
}

/// The span of an S3 `PutBucketCors` request: the `PutBucketCors` span on `bucket` (empty when unset) with the request attributes that are set.
pub fn put_bucket_cors_span<'a>(bucket: Option<&str>) -> (r: AwsSpanBuilder<'a>)
    ensures
        r.built(SpanKind::Client, "S3"@, "PutBucketCors"@, s3_attrs(Some(or_empty(opt_str(bucket))), None)),
{
        S3SpanBuilder::put_bucket_cors(unwrap_or_empty(bucket))
}

/// The span of an S3 `DeleteBucketCors` request: the `DeleteBucketCors` span on `bucket` (empty when unset) with the request attributes that are set.
pub fn delete_bucket_cors_span<'a>(bucket: Option<&str>) -> (r: AwsSpanBuilder<'a>)
    ensures
        r.built(SpanKind::Client, "S3"@, "DeleteBucketCors"@, s3_attrs(Some(or_empty(opt_str(bucket))), None)),
{
        S3SpanBuilder::delete_bucket_cors(unwrap_or_empty(bucket))
}

/// The span of an S3 `GetBucketEncryption` request: the `GetBucketEncryption` span on `bucket` (empty when unset) with the request attributes that are set.
pub fn get_bucket_encryption_span<'a>(bucket: Option<&str>) -> (r: AwsSpanBuilder<'a>)
    ensures
        r.built(SpanKind::Client, "S3"@, "GetBucketEncryption"@, s3_attrs(Some(or_empty(opt_str(bucket))), None)),
{
        S3SpanBuilder::get_bucket_encryption(unwrap_or_empty(bucket))
}

/// The span of an S3 `PutBucketEncryption` request: the `PutBucketEncryption` span on `bucket` (empty when unset) with the request attributes that are set.
pub fn put_bucket_encryption_span<'a>(bucket: Option<&str>) -> (r: AwsSpanBuilder<'a>)
    ensures
        r.built(SpanKind::Client, "S3"@, "PutBucketEncryption"@, s3_attrs(Some(or_empty(opt_str(bucket))), None)),
{
        S3SpanBuilder::put_bucket_encryption(unwrap_or_empty(bucket))
}

/// The span of an S3 `DeleteBucketEncryption` request: the `DeleteBucketEncryption` span on `bucket` (empty when unset) with the request attributes that are set.
pub fn delete_bucket_encryption_span<'a>(bucket: Option<&str>) -> (r: AwsSpanBuilder<'a>)
    ensures
        r.built(SpanKind::Client, "S3"@, "DeleteBucketEncryption"@, s3_attrs(Some(or_empty(opt_str(bucket))), None)),
{
        S3SpanBuilder::delete_bucket_encryption(unwrap_or_empty(bucket))
}

/// The span of an S3 `GetBucketLifecycleConfiguration` request: the `GetBucketLifecycleConfiguration` span on `bucket` (empty when unset) with the request attributes that are set.
pub fn get_bucket_lifecycle_configuration_span<'a>(bucket: Option<&str>) -> (r: AwsSpanBuilder<'a>)
    ensures
        r.built(SpanKind::Client, "S3"@, "GetBucketLifecycleConfiguration"@, s3_attrs(Some(or_empty(opt_str(bucket))), None)),
{
        S3SpanBuilder::get_bucket_lifecycle_configuration(unwrap_or_empty(bucket))
}

/// The span of an S3 `PutBucketLifecycleConfiguration` request: the `PutBucketLifecycleConfiguration` span on `bucket` (empty when unset) with the request attributes that are set.
pub fn put_bucket_lifecycle_configuration_span<'a>(bucket: Option<&str>) -> (r: AwsSpanBuilder<'a>)
    ensures
        r.built(SpanKind::Client, "S3"@, "PutBucketLifecycleConfiguration"@, s3_attrs(Some(or_empty(opt_str(bucket))), None)),
{
        S3SpanBuilder::put_bucket_lifecycle_configuration(unwrap_or_empty(bucket))
}

/// The span of an S3 `DeleteBucketLifecycle` request: the `DeleteBucketLifecycle` span on `bucket` (empty when unset) with the request attributes that are set.
pub fn delete_bucket_lifecycle_span<'a>(bucket: Option<&str>) -> (r: AwsSpanBuilder<'a>)
    ensures
        r.built(SpanKind::Client, "S3"@, "DeleteBucketLifecycle"@, s3_attrs(Some(or_empty(opt_str(bucket))), None)),
{
        S3SpanBuilder::delete_bucket_lifecycle(unwrap_or_empty(bucket))
}

/// The span of an S3 `GetBucketReplication` request: the `GetBucketReplication` span on `bucket` (empty when unset) with the request attributes that are set.
pub fn get_bucket_replication_span<'a>(bucket: Option<&str>) -> (r: AwsSpanBuilder<'a>)
    ensures
        r.built(SpanKind::Client, "S3"@, "GetBucketReplication"@, s3_attrs(Some(or_empty(opt_str(bucket))), None)),
{
        S3SpanBuilder::get_bucket_replication(unwrap_or_empty(bucket))
}

/// The span of an S3 `PutBucketReplication` request: the `PutBucketReplication` span on `bucket` (empty when unset) with the request attributes that are set.
pub fn put_bucket_replication_span<'a>(bucket: Option<&str>) -> (r: AwsSpanBuilder<'a>)
    ensures
        r.built(SpanKind::Client, "S3"@, "PutBucketReplication"@, s3_attrs(Some(or_empty(opt_str(bucket))), None)),
{
        S3SpanBuilder::put_bucket_replication(unwrap_or_empty(bucket))
}

/// The span of an S3 `DeleteBucketReplication` request: the `DeleteBucketReplication` span on `bucket` (empty when unset) with the request attributes that are set.
pub fn delete_bucket_replication_span<'a>(bucket: Option<&str>) -> (r: AwsSpanBuilder<'a>)
    ensures
        r.built(SpanKind::Client, "S3"@, "DeleteBucketReplication"@, s3_attrs(Some(or_empty(opt_str(bucket))), None)),
{
        S3SpanBuilder::delete_bucket_replication(unwrap_or_empty(bucket))
}

/// The span of an S3 `GetBucketTagging` request: the `GetBucketTagging` span on `bucket` (empty when unset) with the request attributes that are set.
pub fn get_bucket_tagging_span<'a>(bucket: Option<&str>) -> (r: AwsSpanBuilder<'a>)
    ensures
        r.built(SpanKind::Client, "S3"@, "GetBucketTagging"@, s3_attrs(Some(or_empty(opt_str(bucket))), None)),
{
        S3SpanBuilder::get_bucket_tagging(unwrap_or_empty(bucket))
}

/// The span of an S3 `PutBucketTagging` request: the `PutBucketTagging` span on `bucket` (empty when unset) with the request attributes that are set.
pub fn put_bucket_tagging_span<'a>(bucket: Option<&str>) -> (r: AwsSpanBuilder<'a>)
    ensures
        r.built(SpanKind::Client, "S3"@, "PutBucketTagging"@, s3_attrs(Some(or_empty(opt_str(bucket))), None)),
{
        S3SpanBuilder::put_bucket_tagging(unwrap_or_empty(bucket))
}

/// The span of an S3 `DeleteBucketTagging` request: the `DeleteBucketTagging` span on `bucket` (empty when unset) with the request attributes that are set.
pub fn delete_bucket_tagging_span<'a>(bucket: Option<&str>) -> (r: AwsSpanBuilder<'a>)
    ensures
        r.built(SpanKind::Client, "S3"@, "DeleteBucketTagging"@, s3_attrs(Some(or_empty(opt_str(bucket))), None)),
{
        S3SpanBuilder::delete_bucket_tagging(unwrap_or_empty(bucket))
}

/// The span of an S3 `GetBucketVersioning` request: the `GetBucketVersioning` span on `bucket` (empty when unset) with the request attributes that are set.
pub fn get_bucket_versioning_span<'a>(bucket: Option<&str>) -> (r: AwsSpanBuilder<'a>)
    ensures
        r.built(SpanKind::Client, "S3"@, "GetBucketVersioning"@, s3_attrs(Some(or_empty(opt_str(bucket))), None)),
{
        S3SpanBuilder::get_bucket_versioning(unwrap_or_empty(bucket))
}

/// The span of an S3 `PutBucketVersioning` request: the `PutBucketVersioning` span on `bucket` (empty when unset) with the request attributes that are set.
pub fn put_bucket_versioning_span<'a>(bucket: Option<&str>) -> (r: AwsSpanBuilder<'a>)
    ensures
        r.built(SpanKind::Client, "S3"@, "PutBucketVersioning"@, s3_attrs(Some(or_empty(opt_str(bucket))), None)),
{
        S3SpanBuilder::put_bucket_versioning(unwrap_or_empty(bucket))
}

/// The span of an S3 `GetBucketWebsite` request: the `GetBucketWebsite` span on `bucket` (empty when unset) with the request attributes that are set.
pub fn get_bucket_website_span<'a>(bucket: Option<&str>) -> (r: AwsSpanBuilder<'a>)
    ensures
        r.built(SpanKind::Client, "S3"@, "GetBucketWebsite"@, s3_attrs(Some(or_empty(opt_str(bucket))), None)),
{
        S3SpanBuilder::get_bucket_website(unwrap_or_empty(bucket))
}

/// The span of an S3 `PutBucketWebsite` request: the `PutBucketWebsite` span on `bucket` (empty when unset) with the request attributes that are set.
pub fn put_bucket_website_span<'a>(bucket: Option<&str>) -> (r: AwsSpanBuilder<'a>)
    ensures
        r.built(SpanKind::Client, "S3"@, "PutBucketWebsite"@, s3_attrs(Some(or_empty(opt_str(bucket))), None)),
{
        S3SpanBuilder::put_bucket_website(unwrap_or_empty(bucket))
}

/// The span of an S3 `DeleteBucketWebsite` request: the `DeleteBucketWebsite` span on `bucket` (empty when unset) with the request attributes that are set.
pub fn delete_bucket_website_span<'a>(bucket: Option<&str>) -> (r: AwsSpanBuilder<'a>)
    ensures
        r.built(SpanKind::Client, "S3"@, "DeleteBucketWebsite"@, s3_attrs(Some(or_empty(opt_str(bucket))), None)),
{
        S3SpanBuilder::delete_bucket_website(unwrap_or_empty(bucket))
}

/// The span of an S3 `GetBucketLogging` request: the `GetBucketLogging` span on `bucket` (empty when unset) with the request attributes that are set.
pub fn get_bucket_logging_span<'a>(bucket: Option<&str>) -> (r: AwsSpanBuilder<'a>)
    ensures
        r.built(SpanKind::Client, "S3"@, "GetBucketLogging"@, s3_attrs(Some(or_empty(opt_str(bucket))), None)),
{
        S3SpanBuilder::get_bucket_logging(unwrap_or_empty(bucket))
}

/// The span of an S3 `PutBucketLogging` request: the `PutBucketLogging` span on `bucket` (empty when unset) with the request attributes that are set.
pub fn put_bucket_logging_span<'a>(bucket: Option<&str>) -> (r: AwsSpanBuilder<'a>)
    ensures
        r.built(SpanKind::Client, "S3"@, "PutBucketLogging"@, s3_attrs(Some(or_empty(opt_str(bucket))), None)),
{
        S3SpanBuilder::put_bucket_logging(unwrap_or_empty(bucket))
}

/// The span of an S3 `GetBucketNotificationConfiguration` request: the `GetBucketNotificationConfiguration` span on `bucket` (empty when unset) with the request attributes that are set.
pub fn get_bucket_notification_configuration_span<'a>(bucket: Option<&str>) -> (r: AwsSpanBuilder<'a>)
    ensures
        r.built(SpanKind::Client, "S3"@, "GetBucketNotificationConfiguration"@, s3_attrs(Some(or_empty(opt_str(bucket))), None)),
{
        S3SpanBuilder::get_bucket_notification_configuration(unwrap_or_empty(bucket))
}

/// The span of an S3 `PutBucketNotificationConfiguration` request: the `PutBucketNotificationConfiguration` span on `bucket` (empty when unset) with the request attributes that are set.
pub fn put_bucket_notification_configuration_span<'a>(bucket: Option<&str>) -> (r: AwsSpanBuilder<'a>)
    ensures
        r.built(SpanKind::Client, "S3"@, "PutBucketNotificationConfiguration"@, s3_attrs(Some(or_empty(opt_str(bucket))), None)),
{
        S3SpanBuilder::put_bucket_notification_configuration(unwrap_or_empty(bucket))
}

/// The span of an S3 `GetBucketLocation` request: the `GetBucketLocation` span on `bucket` (empty when unset) with the request attributes that are set.
pub fn get_bucket_location_span<'a>(bucket: Option<&str>) -> (r: AwsSpanBuilder<'a>)
    ensures
        r.built(SpanKind::Client, "S3"@, "GetBucketLocation"@, s3_attrs(Some(or_empty(opt_str(bucket))), None)),
{
        S3SpanBuilder::get_bucket_location(unwrap_or_empty(bucket))
}

/// The span of an S3 `GetBucketAccelerateConfiguration` request: the `GetBucketAccelerateConfiguration` span on `bucket` (empty when unset) with the request attributes that are set.
pub fn get_bucket_accelerate_configuration_span<'a>(bucket: Option<&str>) -> (r: AwsSpanBuilder<'a>)
    ensures
        r.built(SpanKind::Client, "S3"@, "GetBucketAccelerateConfiguration"@, s3_attrs(Some(or_empty(opt_str(bucket))), None)),
{
        S3SpanBuilder::get_bucket_accelerate_configuration(unwrap_or_empty(bucket))
}

/// The span of an S3 `PutBucketAccelerateConfiguration` request: the `PutBucketAccelerateConfiguration` span on `bucket` (empty when unset) with the request attributes that are set.
pub fn put_bucket_accelerate_configuration_span<'a>(bucket: Option<&str>) -> (r: AwsSpanBuilder<'a>)
    ensures
        r.built(SpanKind::Client, "S3"@, "PutBucketAccelerateConfiguration"@, s3_attrs(Some(or_empty(opt_str(bucket))), None)),
{
        S3SpanBuilder::put_bucket_accelerate_configuration(unwrap_or_empty(bucket))
}

/// The span of an S3 `GetBucketRequestPayment` request: the `GetBucketRequestPayment` span on `bucket` (empty when unset) with the request attributes that are set.
pub fn get_bucket_request_payment_span<'a>(bucket: Option<&str>) -> (r: AwsSpanBuilder<'a>)
    ensures
        r.built(SpanKind::Client, "S3"@, "GetBucketRequestPayment"@, s3_attrs(Some(or_empty(opt_str(bucket))), None)),
{
        S3SpanBuilder::get_bucket_request_payment(unwrap_or_empty(bucket))
}

/// The span of an S3 `PutBucketRequestPayment` request: the `PutBucketRequestPayment` span on `bucket` (empty when unset) with the request attributes that are set.
pub fn put_bucket_request_payment_span<'a>(bucket: Option<&str>) -> (r: AwsSpanBuilder<'a>)
    ensures
        r.built(SpanKind::Client, "S3"@, "PutBucketRequestPayment"@, s3_attrs(Some(or_empty(opt_str(bucket))), None)),
{
        S3SpanBuilder::put_bucket_request_payment(unwrap_or_empty(bucket))
}

/// The span of an S3 `GetBucketOwnershipControls` request: the `GetBucketOwnershipControls` span on `bucket` (empty when unset) with the request attributes that are set.
pub fn get_bucket_ownership_controls_span<'a>(bucket: Option<&str>) -> (r: AwsSpanBuilder<'a>)
    ensures
        r.built(SpanKind::Client, "S3"@, "GetBucketOwnershipControls"@, s3_attrs(Some(or_empty(opt_str(bucket))), None)),
{
        S3SpanBuilder::get_bucket_ownership_controls(unwrap_or_empty(bucket))
}

/// The span of an S3 `PutBucketOwnershipControls` request: the `PutBucketOwnershipControls` span on `bucket` (empty when unset) with the request attributes that are set.
pub fn put_bucket_ownership_controls_span<'a>(bucket: Option<&str>) -> (r: AwsSpanBuilder<'a>)
    ensures
        r.built(SpanKind::Client, "S3"@, "PutBucketOwnershipControls"@, s3_attrs(Some(or_empty(opt_str(bucket))), None)),
{
        S3SpanBuilder::put_bucket_ownership_controls(unwrap_or_empty(bucket))
}

/// The span of an S3 `DeleteBucketOwnershipControls` request: the `DeleteBucketOwnershipControls` span on `bucket` (empty when unset) with the request attributes that are set.
pub fn delete_bucket_ownership_controls_span<'a>(bucket: Option<&str>) -> (r: AwsSpanBuilder<'a>)
    ensures
        r.built(SpanKind::Client, "S3"@, "DeleteBucketOwnershipControls"@, s3_attrs(Some(or_empty(opt_str(bucket))), None)),
{
        S3SpanBuilder::delete_bucket_ownership_controls(unwrap_or_empty(bucket))
}

/// The span of an S3 `GetBucketAnalyticsConfiguration` request: the `GetBucketAnalyticsConfiguration` span on `bucket` (empty when unset) with the request attributes that are set.
pub fn get_bucket_analytics_configuration_span<'a>(bucket: Option<&str>) -> (r: AwsSpanBuilder<'a>)
    ensures
        r.built(SpanKind::Client, "S3"@, "GetBucketAnalyticsConfiguration"@, s3_attrs(Some(or_empty(opt_str(bucket))), None)),
{
        S3SpanBuilder::get_bucket_analytics_configuration(unwrap_or_empty(bucket))
}

/// The span of an S3 `PutBucketAnalyticsConfiguration` request: the `PutBucketAnalyticsConfiguration` span on `bucket` (empty when unset) with the request attributes that are set.
pub fn put_bucket_analytics_configuration_span<'a>(bucket: Option<&str>) -> (r: AwsSpanBuilder<'a>)
    ensures
        r.built(SpanKind::Client, "S3"@, "PutBucketAnalyticsConfiguration"@, s3_attrs(Some(or_empty(opt_str(bucket))), None)),
{
        S3SpanBuilder::put_bucket_analytics_configuration(unwrap_or_empty(bucket))
}

/// The span of an S3 `DeleteBucketAnalyticsConfiguration` request: the `DeleteBucketAnalyticsConfiguration` span on `bucket` (empty when unset) with the request attributes that are set.
pub fn delete_bucket_analytics_configuration_span<'a>(bucket: Option<&str>) -> (r: AwsSpanBuilder<'a>)
    ensures
        r.built(SpanKind::Client, "S3"@, "DeleteBucketAnalyticsConfiguration"@, s3_attrs(Some(or_empty(opt_str(bucket))), None)),
{
        S3SpanBuilder::delete_bucket_analytics_configuration(unwrap_or_empty(bucket))
}

/// The span of an S3 `ListBucketAnalyticsConfigurations` request: the `ListBucketAnalyticsConfigurations` span on `bucket` (empty when unset) with the request attributes that are set.
pub fn list_bucket_analytics_configurations_span<'a>(bucket: Option<&str>) -> (r: AwsSpanBuilder<'a>)
    ensures
        r.built(SpanKind::Client, "S3"@, "ListBucketAnalyticsConfigurations"@, s3_attrs(Some(or_empty(opt_str(bucket))), None)),
{
        S3SpanBuilder::list_bucket_analytics_configurations(unwrap_or_empty(bucket))
}

/// The span of an S3 `GetBucketInventoryConfiguration` request: the `GetBucketInventoryConfiguration` span on `bucket` (empty when unset) with the request attributes that are set.
pub fn get_bucket_inventory_configuration_span<'a>(bucket: Option<&str>) -> (r: AwsSpanBuilder<'a>)
    ensures
        r.built(SpanKind::Client, "S3"@, "GetBucketInventoryConfiguration"@, s3_attrs(Some(or_empty(opt_str(bucket))), None)),
{
        S3SpanBuilder::get_bucket_inventory_configuration(unwrap_or_empty(bucket))
}

/// The span of an S3 `PutBucketInventoryConfiguration` request: the `PutBucketInventoryConfiguration` span on `bucket` (empty when unset) with the request attributes that are set.
pub fn put_bucket_inventory_configuration_span<'a>(bucket: Option<&str>) -> (r: AwsSpanBuilder<'a>)
    ensures
        r.built(SpanKind::Client, "S3"@, "PutBucketInventoryConfiguration"@, s3_attrs(Some(or_empty(opt_str(bucket))), None)),
{
        S3SpanBuilder::put_bucket_inventory_configuration(unwrap_or_empty(bucket))
}

/// The span of an S3 `DeleteBucketInventoryConfiguration` request: the `DeleteBucketInventoryConfiguration` span on `bucket` (empty when unset) with the request attributes that are set.
pub fn delete_bucket_inventory_configuration_span<'a>(bucket: Option<&str>) -> (r: AwsSpanBuilder<'a>)
    ensures
        r.built(SpanKind::Client, "S3"@, "DeleteBucketInventoryConfiguration"@, s3_attrs(Some(or_empty(opt_str(bucket))), None)),
{
        S3SpanBuilder::delete_bucket_inventory_configuration(unwrap_or_empty(bucket))
}

/// The span of an S3 `ListBucketInventoryConfigurations` request: the `ListBucketInventoryConfigurations` span on `bucket` (empty when unset) with the request attributes that are set.
pub fn list_bucket_inventory_configurations_span<'a>(bucket: Option<&str>) -> (r: AwsSpanBuilder<'a>)
    ensures
        r.built(SpanKind::Client, "S3"@, "ListBucketInventoryConfigurations"@, s3_attrs(Some(or_empty(opt_str(bucket))), None)),
{
        S3SpanBuilder::list_bucket_inventory_configurations(unwrap_or_empty(bucket))
}

/// The span of an S3 `GetBucketMetricsConfiguration` request: the `GetBucketMetricsConfiguration` span on `bucket` (empty when unset) with the request attributes that are set.
pub fn get_bucket_metrics_configuration_span<'a>(bucket: Option<&str>) -> (r: AwsSpanBuilder<'a>)
    ensures
        r.built(SpanKind::Client, "S3"@, "GetBucketMetricsConfiguration"@, s3_attrs(Some(or_empty(opt_str(bucket))), None)),
{
        S3SpanBuilder::get_bucket_metrics_configuration(unwrap_or_empty(bucket))
}

/// The span of an S3 `PutBucketMetricsConfiguration` request: the `PutBucketMetricsConfiguration` span on `bucket` (empty when unset) with the request attributes that are set.
pub fn put_bucket_metrics_configuration_span<'a>(bucket: Option<&str>) -> (r: AwsSpanBuilder<'a>)
    ensures
        r.built(SpanKind::Client, "S3"@, "PutBucketMetricsConfiguration"@, s3_attrs(Some(or_empty(opt_str(bucket))), None)),
{
        S3SpanBuilder::put_bucket_metrics_configuration(unwrap_or_empty(bucket))
}

/// The span of an S3 `DeleteBucketMetricsConfiguration` request: the `DeleteBucketMetricsConfiguration` span on `bucket` (empty when unset) with the request attributes that are set.
pub fn delete_bucket_metrics_configuration_span<'a>(bucket: Option<&str>) -> (r: AwsSpanBuilder<'a>)
    ensures
        r.built(SpanKind::Client, "S3"@, "DeleteBucketMetricsConfiguration"@, s3_attrs(Some(or_empty(opt_str(bucket))), None)),
{
        S3SpanBuilder::delete_bucket_metrics_configuration(unwrap_or_empty(bucket))
}

/// The span of an S3 `ListBucketMetricsConfigurations` request: the `ListBucketMetricsConfigurations` span on `bucket` (empty when unset) with the request attributes that are set.
pub fn list_bucket_metrics_configurations_span<'a>(bucket: Option<&str>) -> (r: AwsSpanBuilder<'a>)
    ensures
        r.built(SpanKind::Client, "S3"@, "ListBucketMetricsConfigurations"@, s3_attrs(Some(or_empty(opt_str(bucket))), None)),
{
        S3SpanBuilder::list_bucket_metrics_configurations(unwrap_or_empty(bucket))
}

/// The span of an S3 `GetPublicAccessBlock` request: the `GetPublicAccessBlock` span on `bucket` (empty when unset) with the request attributes that are set.
pub fn get_public_access_block_span<'a>(bucket: Option<&str>) -> (r: AwsSpanBuilder<'a>)
    ensures
        r.built(SpanKind::Client, "S3"@, "GetPublicAccessBlock"@, s3_attrs(Some(or_empty(opt_str(bucket))), None)),
{
        S3SpanBuilder::get_public_access_block(unwrap_or_empty(bucket))
}

/// The span of an S3 `PutPublicAccessBlock` request: the `PutPublicAccessBlock` span on `bucket` (empty when unset) with the request attributes that are set.
pub fn put_public_access_block_span<'a>(bucket: Option<&str>) -> (r: AwsSpanBuilder<'a>)
    ensures
        r.built(SpanKind::Client, "S3"@, "PutPublicAccessBlock"@, s3_attrs(Some(or_empty(opt_str(bucket))), None)),
{
        S3SpanBuilder::put_public_access_block(unwrap_or_empty(bucket))
}

/// The span of an S3 `DeletePublicAccessBlock` request: the `DeletePublicAccessBlock` span on `bucket` (empty when unset) with the request attributes that are set.
pub fn delete_public_access_block_span<'a>(bucket: Option<&str>) -> (r: AwsSpanBuilder<'a>)
    ensures
        r.built(SpanKind::Client, "S3"@, "DeletePublicAccessBlock"@, s3_attrs(Some(or_empty(opt_str(bucket))), None)),
{
        S3SpanBuilder::delete_public_access_block(unwrap_or_empty(bucket))
}

/// The span of an S3 `CreateBucketMetadataConfiguration` request: the `CreateBucketMetadataConfiguration` span on `bucket` (empty when unset) with the request attributes that are set.
pub fn create_bucket_metadata_configuration_span<'a>(bucket: Option<&str>) -> (r: AwsSpanBuilder<'a>)
    ensures
        r.built(SpanKind::Client, "S3"@, "CreateBucketMetadataConfiguration"@, s3_attrs(Some(or_empty(opt_str(bucket))), None)),
{
        S3SpanBuilder::create_bucket_metadata_configuration(unwrap_or_empty(bucket))
}

/// The span of an S3 `DeleteBucketMetadataConfiguration` request: the `DeleteBucketMetadataConfiguration` span on `bucket` (empty when unset) with the request attributes that are set.
pub fn delete_bucket_metadata_configuration_span<'a>(bucket: Option<&str>) -> (r: AwsSpanBuilder<'a>)
    ensures
        r.built(SpanKind::Client, "S3"@, "DeleteBucketMetadataConfiguration"@, s3_attrs(Some(or_empty(opt_str(bucket))), None)),
{
        S3SpanBuilder::delete_bucket_metadata_configuration(unwrap_or_empty(bucket))
}

/// The span of an S3 `GetBucketMetadataConfiguration` request: the `GetBucketMetadataConfiguration` span on `bucket` (empty when unset) with the request attributes that are set.
pub fn get_bucket_metadata_configuration_span<'a>(bucket: Option<&str>) -> (r: AwsSpanBuilder<'a>)
    ensures
        r.built(SpanKind::Client, "S3"@, "GetBucketMetadataConfiguration"@, s3_attrs(Some(or_empty(opt_str(bucket))), None)),
{
        S3SpanBuilder::get_bucket_metadata_configuration(unwrap_or_empty(bucket))
}

/// The span of an S3 `GetBucketMetadataTableConfiguration` request: the `GetBucketMetadataTableConfiguration` span on `bucket` (empty when unset) with the request attributes that are set.
pub fn get_bucket_metadata_table_configuration_span<'a>(bucket: Option<&str>) -> (r: AwsSpanBuilder<'a>)
    ensures
        r.built(SpanKind::Client, "S3"@, "GetBucketMetadataTableConfiguration"@, s3_attrs(Some(or_empty(opt_str(bucket))), None)),
{
        S3SpanBuilder::get_bucket_metadata_table_configuration(unwrap_or_empty(bucket))
}

} // verus!
