//! Span builders for Amazon DynamoDB operations.
use vstd::prelude::*;

use crate::middleware::aws::AwsSpanBuilder;
use crate::semconv;
use crate::span::{attrs_view, str_attr, array_attr, strings_view, one_string, no_strings, owned, Attribute, AttributeModel, SpanKind};

verus! {

/// The legacy `db.name` key, recorded beside `db.namespace`.
pub const LEGACY_DB_NAME: &'static str = semconv::DB_NAME;

/// The legacy `db.system` key.
pub const LEGACY_DB_SYSTEM: &'static str = semconv::DB_SYSTEM;

/// Namespace of the span builders for DynamoDB operations.
pub struct DynamodbSpanBuilder(());

/// The DynamoDB attributes of an operation `method` on the tables `tables`:
/// the database system and operation; for a single table its name (legacy
/// and current keys) and the table list; for several tables the list alone.
pub open spec fn dynamodb_attrs(method: Seq<char>, tables: Seq<Seq<char>>) -> Seq<AttributeModel> {
    seq![
        str_attr(semconv::DB_SYSTEM@, "dynamodb"@),
        str_attr(semconv::DB_OPERATION_NAME@, method),
    ] + if tables.len() == 0 {
        Seq::empty()
    } else if tables.len() == 1 {
        seq![
            str_attr(semconv::DB_NAME@, tables[0]),
            str_attr(semconv::DB_NAMESPACE@, tables[0]),
            array_attr(semconv::AWS_DYNAMODB_TABLE_NAMES@, tables),
        ]
    } else {
        seq![array_attr(semconv::AWS_DYNAMODB_TABLE_NAMES@, tables)]
    }
}

/// The DynamoDB attributes of an operation `method` addressed by a table ARN.
pub open spec fn dynamodb_arn_attrs(method: Seq<char>, table_arn: Seq<char>) -> Seq<AttributeModel> {
    dynamodb_attrs(method, Seq::empty()) + seq![
        str_attr(semconv::DB_NAME@, table_arn),
        str_attr(semconv::DB_NAMESPACE@, table_arn),
    ]
}

impl<'a> AwsSpanBuilder<'a> {
    /// A client span builder for the DynamoDB operation `method` on the
    /// tables `table_names`.
    pub fn dynamodb(method: &str, table_names: Vec<String>) -> (r: Self)
        ensures
            r.built(
                SpanKind::Client,
                "DynamoDB"@,
                method@,
                dynamodb_attrs(method@, strings_view(table_names@)),
            ),
    {
        let ghost tables = strings_view(table_names@);
        let mut attributes: Vec<Attribute> = Vec::new();
        attributes.push(Attribute::string(LEGACY_DB_SYSTEM, owned("dynamodb")));
        attributes.push(Attribute::string(semconv::DB_OPERATION_NAME, owned(method)));
        let n = table_names.len();
        if n == 1 {
            let first = table_names[0].clone();
            let second = table_names[0].clone();
            attributes.push(Attribute::string(LEGACY_DB_NAME, first));
            attributes.push(Attribute::string(semconv::DB_NAMESPACE, second));
            attributes.push(Attribute::array(semconv::AWS_DYNAMODB_TABLE_NAMES, table_names));
        } else if n > 1 {
            attributes.push(Attribute::array(semconv::AWS_DYNAMODB_TABLE_NAMES, table_names));
        }
        assert(attrs_view(attributes@) =~= dynamodb_attrs(method@, tables));
        Self::client("DynamoDB", method, attributes)
    }
}

/// A client span builder for the DynamoDB operation `method` addressed by
/// the table ARN `table_arn`.
fn dynamodb_by_arn<'a>(method: &str, table_arn: &str) -> (r: AwsSpanBuilder<'a>)
    ensures
        r.built(SpanKind::Client, "DynamoDB"@, method@, dynamodb_arn_attrs(method@, table_arn@)),
{
    let b = AwsSpanBuilder::dynamodb(method, no_strings());
    let mut extra: Vec<Attribute> = Vec::new();
    extra.push(Attribute::string(LEGACY_DB_NAME, owned(table_arn)));
    extra.push(Attribute::string(semconv::DB_NAMESPACE, owned(table_arn)));
    let ghost ev = attrs_view(extra@);
    let r = b.attributes(extra);
    assert(ev =~= seq![
        str_attr(semconv::DB_NAME@, table_arn@),
        str_attr(semconv::DB_NAMESPACE@, table_arn@),
    ]);
    assert(rpc_attrs_of(method@) + dynamodb_attrs(method@, Seq::empty()) + ev =~= rpc_attrs_of(
        method@,
    ) + dynamodb_arn_attrs(method@, table_arn@));
    r
}

spec fn rpc_attrs_of(method: Seq<char>) -> Seq<AttributeModel> {
    crate::middleware::aws::rpc_attrs("DynamoDB"@, method)
}

impl DynamodbSpanBuilder {
    /// A span builder for the DynamoDB `DescribeEndpoints` operation, which names no table.
    pub fn describe_endpoints<'a>() -> (r: AwsSpanBuilder<'a>)
        ensures
            r.built(SpanKind::Client, "DynamoDB"@, "DescribeEndpoints"@, dynamodb_attrs("DescribeEndpoints"@, Seq::empty())),
    {
        AwsSpanBuilder::dynamodb("DescribeEndpoints", no_strings())
    }

    /// A span builder for the DynamoDB `DescribeLimits` operation, which names no table.
    pub fn describe_limits<'a>() -> (r: AwsSpanBuilder<'a>)
        ensures
            r.built(SpanKind::Client, "DynamoDB"@, "DescribeLimits"@, dynamodb_attrs("DescribeLimits"@, Seq::empty())),
    {
        AwsSpanBuilder::dynamodb("DescribeLimits", no_strings())
    }

    /// A span builder for the DynamoDB `ListGlobalTables` operation, which names no table.
    pub fn list_global_tables<'a>() -> (r: AwsSpanBuilder<'a>)
        ensures
            r.built(SpanKind::Client, "DynamoDB"@, "ListGlobalTables"@, dynamodb_attrs("ListGlobalTables"@, Seq::empty())),
    {
        AwsSpanBuilder::dynamodb("ListGlobalTables", no_strings())
    }

    /// A span builder for the DynamoDB `ListTables` operation, which names no table.
    pub fn list_tables<'a>() -> (r: AwsSpanBuilder<'a>)
        ensures
            r.built(SpanKind::Client, "DynamoDB"@, "ListTables"@, dynamodb_attrs("ListTables"@, Seq::empty())),
    {
        AwsSpanBuilder::dynamodb("ListTables", no_strings())
    }

    /// A span builder for the DynamoDB `DeleteBackup` operation, which names no table.
    pub fn delete_backup<'a>() -> (r: AwsSpanBuilder<'a>)
        ensures
            r.built(SpanKind::Client, "DynamoDB"@, "DeleteBackup"@, dynamodb_attrs("DeleteBackup"@, Seq::empty())),
    {
        AwsSpanBuilder::dynamodb("DeleteBackup", no_strings())
    }

    /// A span builder for the DynamoDB `DescribeBackup` operation, which names no table.
    pub fn describe_backup<'a>() -> (r: AwsSpanBuilder<'a>)
        ensures
            r.built(SpanKind::Client, "DynamoDB"@, "DescribeBackup"@, dynamodb_attrs("DescribeBackup"@, Seq::empty())),
    {
        AwsSpanBuilder::dynamodb("DescribeBackup", no_strings())
    }

    /// A span builder for the DynamoDB `DescribeExport` operation, which names no table.
    pub fn describe_export<'a>() -> (r: AwsSpanBuilder<'a>)
        ensures
            r.built(SpanKind::Client, "DynamoDB"@, "DescribeExport"@, dynamodb_attrs("DescribeExport"@, Seq::empty())),
    {
        AwsSpanBuilder::dynamodb("DescribeExport", no_strings())
    }

    /// A span builder for the DynamoDB `DescribeImport` operation, which names no table.
    pub fn describe_import<'a>() -> (r: AwsSpanBuilder<'a>)
        ensures
            r.built(SpanKind::Client, "DynamoDB"@, "DescribeImport"@, dynamodb_attrs("DescribeImport"@, Seq::empty())),
    {
        AwsSpanBuilder::dynamodb("DescribeImport", no_strings())
    }

    /// A span builder for the DynamoDB `CreateBackup` operation on the table `table_name`.
    pub fn create_backup<'a>(table_name: &str) -> (r: AwsSpanBuilder<'a>)
        ensures
            r.built(SpanKind::Client, "DynamoDB"@, "CreateBackup"@, dynamodb_attrs("CreateBackup"@, seq![table_name@])),
    {
        AwsSpanBuilder::dynamodb("CreateBackup", one_string(table_name))
    }

    /// A span builder for the DynamoDB `CreateTable` operation on the table `table_name`.
    pub fn create_table<'a>(table_name: &str) -> (r: AwsSpanBuilder<'a>)
        ensures
            r.built(SpanKind::Client, "DynamoDB"@, "CreateTable"@, dynamodb_attrs("CreateTable"@, seq![table_name@])),
    {
        AwsSpanBuilder::dynamodb("CreateTable", one_string(table_name))
    }

    /// A span builder for the DynamoDB `DeleteItem` operation on the table `table_name`.
    pub fn delete_item<'a>(table_name: &str) -> (r: AwsSpanBuilder<'a>)
        ensures
            r.built(SpanKind::Client, "DynamoDB"@, "DeleteItem"@, dynamodb_attrs("DeleteItem"@, seq![table_name@])),
    {
        AwsSpanBuilder::dynamodb("DeleteItem", one_string(table_name))
    }

    /// A span builder for the DynamoDB `DeleteResourcePolicy` operation on the table `table_name`.
    pub fn delete_resource_policy<'a>(table_name: &str) -> (r: AwsSpanBuilder<'a>)
        ensures
            r.built(SpanKind::Client, "DynamoDB"@, "DeleteResourcePolicy"@, dynamodb_attrs("DeleteResourcePolicy"@, seq![table_name@])),
    {
        AwsSpanBuilder::dynamodb("DeleteResourcePolicy", one_string(table_name))
    }

    /// A span builder for the DynamoDB `DeleteTable` operation on the table `table_name`.
    pub fn delete_table<'a>(table_name: &str) -> (r: AwsSpanBuilder<'a>)
        ensures
            r.built(SpanKind::Client, "DynamoDB"@, "DeleteTable"@, dynamodb_attrs("DeleteTable"@, seq![table_name@])),
    {
        AwsSpanBuilder::dynamodb("DeleteTable", one_string(table_name))
    }

    /// A span builder for the DynamoDB `DescribeContinuousBackups` operation on the table `table_name`.
    pub fn describe_continuous_backups<'a>(table_name: &str) -> (r: AwsSpanBuilder<'a>)
        ensures
            r.built(SpanKind::Client, "DynamoDB"@, "DescribeContinuousBackups"@, dynamodb_attrs("DescribeContinuousBackups"@, seq![table_name@])),
    {
        AwsSpanBuilder::dynamodb("DescribeContinuousBackups", one_string(table_name))
    }

    /// A span builder for the DynamoDB `DescribeContributorInsights` operation on the table `table_name`.
    pub fn describe_contributor_insights<'a>(table_name: &str) -> (r: AwsSpanBuilder<'a>)
        ensures
            r.built(SpanKind::Client, "DynamoDB"@, "DescribeContributorInsights"@, dynamodb_attrs("DescribeContributorInsights"@, seq![table_name@])),
    {
        AwsSpanBuilder::dynamodb("DescribeContributorInsights", one_string(table_name))
    }

    /// A span builder for the DynamoDB `DescribeKinesisStreamingDestination` operation on the table `table_name`.
    pub fn describe_kinesis_streaming_destination<'a>(table_name: &str) -> (r: AwsSpanBuilder<'a>)
        ensures
            r.built(SpanKind::Client, "DynamoDB"@, "DescribeKinesisStreamingDestination"@, dynamodb_attrs("DescribeKinesisStreamingDestination"@, seq![table_name@])),
    {
        AwsSpanBuilder::dynamodb("DescribeKinesisStreamingDestination", one_string(table_name))
    }

    /// A span builder for the DynamoDB `DescribeTable` operation on the table `table_name`.
    pub fn describe_table<'a>(table_name: &str) -> (r: AwsSpanBuilder<'a>)
        ensures
            r.built(SpanKind::Client, "DynamoDB"@, "DescribeTable"@, dynamodb_attrs("DescribeTable"@, seq![table_name@])),
    {
        AwsSpanBuilder::dynamodb("DescribeTable", one_string(table_name))
    }

    /// A span builder for the DynamoDB `DescribeTableReplicaAutoScaling` operation on the table `table_name`.
    pub fn describe_table_replica_auto_scaling<'a>(table_name: &str) -> (r: AwsSpanBuilder<'a>)
        ensures
            r.built(SpanKind::Client, "DynamoDB"@, "DescribeTableReplicaAutoScaling"@, dynamodb_attrs("DescribeTableReplicaAutoScaling"@, seq![table_name@])),
    {
        AwsSpanBuilder::dynamodb("DescribeTableReplicaAutoScaling", one_string(table_name))
    }

    /// A span builder for the DynamoDB `DescribeTimeToLive` operation on the table `table_name`.
    pub fn describe_time_to_live<'a>(table_name: &str) -> (r: AwsSpanBuilder<'a>)
        ensures
            r.built(SpanKind::Client, "DynamoDB"@, "DescribeTimeToLive"@, dynamodb_attrs("DescribeTimeToLive"@, seq![table_name@])),
    {
        AwsSpanBuilder::dynamodb("DescribeTimeToLive", one_string(table_name))
    }

    /// A span builder for the DynamoDB `DisableKinesisStreamingDestination` operation on the table `table_name`.
    pub fn disable_kinesis_streaming_destination<'a>(table_name: &str) -> (r: AwsSpanBuilder<'a>)
        ensures
            r.built(SpanKind::Client, "DynamoDB"@, "DisableKinesisStreamingDestination"@, dynamodb_attrs("DisableKinesisStreamingDestination"@, seq![table_name@])),
    {
        AwsSpanBuilder::dynamodb("DisableKinesisStreamingDestination", one_string(table_name))
    }

    /// A span builder for the DynamoDB `EnableKinesisStreamingDestination` operation on the table `table_name`.
    pub fn enable_kinesis_streaming_destination<'a>(table_name: &str) -> (r: AwsSpanBuilder<'a>)
        ensures
            r.built(SpanKind::Client, "DynamoDB"@, "EnableKinesisStreamingDestination"@, dynamodb_attrs("EnableKinesisStreamingDestination"@, seq![table_name@])),
    {
        AwsSpanBuilder::dynamodb("EnableKinesisStreamingDestination", one_string(table_name))
    }

    /// A span builder for the DynamoDB `GetItem` operation on the table `table_name`.
    pub fn get_item<'a>(table_name: &str) -> (r: AwsSpanBuilder<'a>)
        ensures
            r.built(SpanKind::Client, "DynamoDB"@, "GetItem"@, dynamodb_attrs("GetItem"@, seq![table_name@])),
    {
        AwsSpanBuilder::dynamodb("GetItem", one_string(table_name))
    }

    /// A span builder for the DynamoDB `GetResourcePolicy` operation on the table `table_name`.
    pub fn get_resource_policy<'a>(table_name: &str) -> (r: AwsSpanBuilder<'a>)
        ensures
            r.built(SpanKind::Client, "DynamoDB"@, "GetResourcePolicy"@, dynamodb_attrs("GetResourcePolicy"@, seq![table_name@])),
    {
        AwsSpanBuilder::dynamodb("GetResourcePolicy", one_string(table_name))
    }

    /// A span builder for the DynamoDB `ImportTable` operation on the table `table_name`.
    pub fn import_table<'a>(table_name: &str) -> (r: AwsSpanBuilder<'a>)
        ensures
            r.built(SpanKind::Client, "DynamoDB"@, "ImportTable"@, dynamodb_attrs("ImportTable"@, seq![table_name@])),
    {
        AwsSpanBuilder::dynamodb("ImportTable", one_string(table_name))
    }

    /// A span builder for the DynamoDB `ListBackups` operation on the table `table_name`.
    pub fn list_backups<'a>(table_name: &str) -> (r: AwsSpanBuilder<'a>)
        ensures
            r.built(SpanKind::Client, "DynamoDB"@, "ListBackups"@, dynamodb_attrs("ListBackups"@, seq![table_name@])),
    {
        AwsSpanBuilder::dynamodb("ListBackups", one_string(table_name))
    }

    /// A span builder for the DynamoDB `ListContributorInsights` operation on the table `table_name`.
    pub fn list_contributor_insights<'a>(table_name: &str) -> (r: AwsSpanBuilder<'a>)
        ensures
            r.built(SpanKind::Client, "DynamoDB"@, "ListContributorInsights"@, dynamodb_attrs("ListContributorInsights"@, seq![table_name@])),
    {
        AwsSpanBuilder::dynamodb("ListContributorInsights", one_string(table_name))
    }

    /// A span builder for the DynamoDB `ListTagsOfResource` operation on the table `table_name`.
    pub fn list_tags_of_resource<'a>(table_name: &str) -> (r: AwsSpanBuilder<'a>)
        ensures
            r.built(SpanKind::Client, "DynamoDB"@, "ListTagsOfResource"@, dynamodb_attrs("ListTagsOfResource"@, seq![table_name@])),
    {
        AwsSpanBuilder::dynamodb("ListTagsOfResource", one_string(table_name))
    }

    /// A span builder for the DynamoDB `PutItem` operation on the table `table_name`.
    pub fn put_item<'a>(table_name: &str) -> (r: AwsSpanBuilder<'a>)
        ensures
            r.built(SpanKind::Client, "DynamoDB"@, "PutItem"@, dynamodb_attrs("PutItem"@, seq![table_name@])),
    {
        AwsSpanBuilder::dynamodb("PutItem", one_string(table_name))
    }

    /// A span builder for the DynamoDB `PutResourcePolicy` operation on the table `table_name`.
    pub fn put_resource_policy<'a>(table_name: &str) -> (r: AwsSpanBuilder<'a>)
        ensures
            r.built(SpanKind::Client, "DynamoDB"@, "PutResourcePolicy"@, dynamodb_attrs("PutResourcePolicy"@, seq![table_name@])),
    {
        AwsSpanBuilder::dynamodb("PutResourcePolicy", one_string(table_name))
    }

    /// A span builder for the DynamoDB `Query` operation on the table `table_name`.
    pub fn query<'a>(table_name: &str) -> (r: AwsSpanBuilder<'a>)
        ensures
            r.built(SpanKind::Client, "DynamoDB"@, "Query"@, dynamodb_attrs("Query"@, seq![table_name@])),
    {
        AwsSpanBuilder::dynamodb("Query", one_string(table_name))
    }

    /// A span builder for the DynamoDB `RestoreTableFromBackup` operation on the table `table_name`.
    pub fn restore_table_from_backup<'a>(table_name: &str) -> (r: AwsSpanBuilder<'a>)
        ensures
            r.built(SpanKind::Client, "DynamoDB"@, "RestoreTableFromBackup"@, dynamodb_attrs("RestoreTableFromBackup"@, seq![table_name@])),
    {
        AwsSpanBuilder::dynamodb("RestoreTableFromBackup", one_string(table_name))
    }

    /// A span builder for the DynamoDB `RestoreTableToPointInTime` operation on the table `table_name`.
    pub fn restore_table_to_point_in_time<'a>(table_name: &str) -> (r: AwsSpanBuilder<'a>)
        ensures
            r.built(SpanKind::Client, "DynamoDB"@, "RestoreTableToPointInTime"@, dynamodb_attrs("RestoreTableToPointInTime"@, seq![table_name@])),
    {
        AwsSpanBuilder::dynamodb("RestoreTableToPointInTime", one_string(table_name))
    }

    /// A span builder for the DynamoDB `Scan` operation on the table `table_name`.
    pub fn scan<'a>(table_name: &str) -> (r: AwsSpanBuilder<'a>)
        ensures
            r.built(SpanKind::Client, "DynamoDB"@, "Scan"@, dynamodb_attrs("Scan"@, seq![table_name@])),
    {
        AwsSpanBuilder::dynamodb("Scan", one_string(table_name))
    }

    /// A span builder for the DynamoDB `TagResource` operation on the table `table_name`.
    pub fn tag_resource<'a>(table_name: &str) -> (r: AwsSpanBuilder<'a>)
        ensures
            r.built(SpanKind::Client, "DynamoDB"@, "TagResource"@, dynamodb_attrs("TagResource"@, seq![table_name@])),
    {
        AwsSpanBuilder::dynamodb("TagResource", one_string(table_name))
    }

    /// A span builder for the DynamoDB `UntagResource` operation on the table `table_name`.
    pub fn untag_resource<'a>(table_name: &str) -> (r: AwsSpanBuilder<'a>)
        ensures
            r.built(SpanKind::Client, "DynamoDB"@, "UntagResource"@, dynamodb_attrs("UntagResource"@, seq![table_name@])),
    {
        AwsSpanBuilder::dynamodb("UntagResource", one_string(table_name))
    }

    /// A span builder for the DynamoDB `UpdateContinuousBackups` operation on the table `table_name`.
    pub fn update_continuous_backups<'a>(table_name: &str) -> (r: AwsSpanBuilder<'a>)
        ensures
            r.built(SpanKind::Client, "DynamoDB"@, "UpdateContinuousBackups"@, dynamodb_attrs("UpdateContinuousBackups"@, seq![table_name@])),
    {
        AwsSpanBuilder::dynamodb("UpdateContinuousBackups", one_string(table_name))
    }

    /// A span builder for the DynamoDB `UpdateContributorInsights` operation on the table `table_name`.
    pub fn update_contributor_insights<'a>(table_name: &str) -> (r: AwsSpanBuilder<'a>)
        ensures
            r.built(SpanKind::Client, "DynamoDB"@, "UpdateContributorInsights"@, dynamodb_attrs("UpdateContributorInsights"@, seq![table_name@])),
    {
        AwsSpanBuilder::dynamodb("UpdateContributorInsights", one_string(table_name))
    }

    /// A span builder for the DynamoDB `UpdateItem` operation on the table `table_name`.
    pub fn update_item<'a>(table_name: &str) -> (r: AwsSpanBuilder<'a>)
        ensures
            r.built(SpanKind::Client, "DynamoDB"@, "UpdateItem"@, dynamodb_attrs("UpdateItem"@, seq![table_name@])),
    {
        AwsSpanBuilder::dynamodb("UpdateItem", one_string(table_name))
    }

    /// A span builder for the DynamoDB `UpdateKinesisStreamingDestination` operation on the table `table_name`.
    pub fn update_kinesis_streaming_destination<'a>(table_name: &str) -> (r: AwsSpanBuilder<'a>)
        ensures
            r.built(SpanKind::Client, "DynamoDB"@, "UpdateKinesisStreamingDestination"@, dynamodb_attrs("UpdateKinesisStreamingDestination"@, seq![table_name@])),
    {
        AwsSpanBuilder::dynamodb("UpdateKinesisStreamingDestination", one_string(table_name))
    }

    /// A span builder for the DynamoDB `UpdateTable` operation on the table `table_name`.
    pub fn update_table<'a>(table_name: &str) -> (r: AwsSpanBuilder<'a>)
        ensures
            r.built(SpanKind::Client, "DynamoDB"@, "UpdateTable"@, dynamodb_attrs("UpdateTable"@, seq![table_name@])),
    {
        AwsSpanBuilder::dynamodb("UpdateTable", one_string(table_name))
    }

    /// A span builder for the DynamoDB `UpdateTableReplicaAutoScaling` operation on the table `table_name`.
    pub fn update_table_replica_auto_scaling<'a>(table_name: &str) -> (r: AwsSpanBuilder<'a>)
        ensures
            r.built(SpanKind::Client, "DynamoDB"@, "UpdateTableReplicaAutoScaling"@, dynamodb_attrs("UpdateTableReplicaAutoScaling"@, seq![table_name@])),
    {
        AwsSpanBuilder::dynamodb("UpdateTableReplicaAutoScaling", one_string(table_name))
    }

    /// A span builder for the DynamoDB `UpdateTimeToLive` operation on the table `table_name`.
    pub fn update_time_to_live<'a>(table_name: &str) -> (r: AwsSpanBuilder<'a>)
        ensures
            r.built(SpanKind::Client, "DynamoDB"@, "UpdateTimeToLive"@, dynamodb_attrs("UpdateTimeToLive"@, seq![table_name@])),
    {
        AwsSpanBuilder::dynamodb("UpdateTimeToLive", one_string(table_name))
    }

    /// A span builder for the DynamoDB `CreateGlobalTable` operation on the table `table_name`.
    pub fn create_global_table<'a>(table_name: &str) -> (r: AwsSpanBuilder<'a>)
        ensures
            r.built(SpanKind::Client, "DynamoDB"@, "CreateGlobalTable"@, dynamodb_attrs("CreateGlobalTable"@, seq![table_name@])),
    {
        AwsSpanBuilder::dynamodb("CreateGlobalTable", one_string(table_name))
    }

    /// A span builder for the DynamoDB `DescribeGlobalTable` operation on the table `table_name`.
    pub fn describe_global_table<'a>(table_name: &str) -> (r: AwsSpanBuilder<'a>)
        ensures
            r.built(SpanKind::Client, "DynamoDB"@, "DescribeGlobalTable"@, dynamodb_attrs("DescribeGlobalTable"@, seq![table_name@])),
    {
        AwsSpanBuilder::dynamodb("DescribeGlobalTable", one_string(table_name))
    }

    /// A span builder for the DynamoDB `DescribeGlobalTableSettings` operation on the table `table_name`.
    pub fn describe_global_table_settings<'a>(table_name: &str) -> (r: AwsSpanBuilder<'a>)
        ensures
            r.built(SpanKind::Client, "DynamoDB"@, "DescribeGlobalTableSettings"@, dynamodb_attrs("DescribeGlobalTableSettings"@, seq![table_name@])),
    {
        AwsSpanBuilder::dynamodb("DescribeGlobalTableSettings", one_string(table_name))
    }

    /// A span builder for the DynamoDB `UpdateGlobalTable` operation on the table `table_name`.
    pub fn update_global_table<'a>(table_name: &str) -> (r: AwsSpanBuilder<'a>)
        ensures
            r.built(SpanKind::Client, "DynamoDB"@, "UpdateGlobalTable"@, dynamodb_attrs("UpdateGlobalTable"@, seq![table_name@])),
    {
        AwsSpanBuilder::dynamodb("UpdateGlobalTable", one_string(table_name))
    }

    /// A span builder for the DynamoDB `UpdateGlobalTableSettings` operation on the table `table_name`.
    pub fn update_global_table_settings<'a>(table_name: &str) -> (r: AwsSpanBuilder<'a>)
        ensures
            r.built(SpanKind::Client, "DynamoDB"@, "UpdateGlobalTableSettings"@, dynamodb_attrs("UpdateGlobalTableSettings"@, seq![table_name@])),
    {
        AwsSpanBuilder::dynamodb("UpdateGlobalTableSettings", one_string(table_name))
    }

    /// A span builder for the DynamoDB `ExportTableToPointInTime` operation on the table with ARN `table_arn`.
    pub fn export_table_to_point_in_time<'a>(table_arn: &str) -> (r: AwsSpanBuilder<'a>)
        ensures
            r.built(SpanKind::Client, "DynamoDB"@, "ExportTableToPointInTime"@, dynamodb_arn_attrs("ExportTableToPointInTime"@, table_arn@)),
    {
        dynamodb_by_arn("ExportTableToPointInTime", table_arn)
    }

    /// A span builder for the DynamoDB `ListExports` operation on the table with ARN `table_arn`.
    pub fn list_exports<'a>(table_arn: &str) -> (r: AwsSpanBuilder<'a>)
        ensures
            r.built(SpanKind::Client, "DynamoDB"@, "ListExports"@, dynamodb_arn_attrs("ListExports"@, table_arn@)),
    {
        dynamodb_by_arn("ListExports", table_arn)
    }

    /// A span builder for the DynamoDB `ListImports` operation on the table with ARN `table_arn`.
    pub fn list_imports<'a>(table_arn: &str) -> (r: AwsSpanBuilder<'a>)
        ensures
            r.built(SpanKind::Client, "DynamoDB"@, "ListImports"@, dynamodb_arn_attrs("ListImports"@, table_arn@)),
    {
        dynamodb_by_arn("ListImports", table_arn)
    }

    /// A span builder for the DynamoDB `BatchGetItem` operation on the tables `table_names`.
    pub fn batch_get_item<'a>(table_names: Vec<String>) -> (r: AwsSpanBuilder<'a>)
        ensures
            r.built(SpanKind::Client, "DynamoDB"@, "BatchGetItem"@, dynamodb_attrs("BatchGetItem"@, strings_view(table_names@))),
    {
        AwsSpanBuilder::dynamodb("BatchGetItem", table_names)
    }

    /// A span builder for the DynamoDB `BatchWriteItem` operation on the tables `table_names`.
    pub fn batch_write_item<'a>(table_names: Vec<String>) -> (r: AwsSpanBuilder<'a>)
        ensures
            r.built(SpanKind::Client, "DynamoDB"@, "BatchWriteItem"@, dynamodb_attrs("BatchWriteItem"@, strings_view(table_names@))),
    {
        AwsSpanBuilder::dynamodb("BatchWriteItem", table_names)
    }

    /// A span builder for the DynamoDB `TransactGetItems` operation on the tables `table_names`.
    pub fn transact_get_items<'a>(table_names: Vec<String>) -> (r: AwsSpanBuilder<'a>)
        ensures
            r.built(SpanKind::Client, "DynamoDB"@, "TransactGetItems"@, dynamodb_attrs("TransactGetItems"@, strings_view(table_names@))),
    {
        AwsSpanBuilder::dynamodb("TransactGetItems", table_names)
    }

    /// A span builder for the DynamoDB `TransactWriteItems` operation on the tables `table_names`.
    pub fn transact_write_items<'a>(table_names: Vec<String>) -> (r: AwsSpanBuilder<'a>)
        ensures
            r.built(SpanKind::Client, "DynamoDB"@, "TransactWriteItems"@, dynamodb_attrs("TransactWriteItems"@, strings_view(table_names@))),
    {
        AwsSpanBuilder::dynamodb("TransactWriteItems", table_names)
    }

    /// A span builder for the DynamoDB `ExecuteStatement` operation on the tables `table_names`.
    pub fn execute_statement<'a>(table_names: Vec<String>) -> (r: AwsSpanBuilder<'a>)
        ensures
            r.built(SpanKind::Client, "DynamoDB"@, "ExecuteStatement"@, dynamodb_attrs("ExecuteStatement"@, strings_view(table_names@))),
    {
        AwsSpanBuilder::dynamodb("ExecuteStatement", table_names)
    }

    /// A span builder for the DynamoDB `BatchExecuteStatement` operation on the tables `table_names`.
    pub fn batch_execute_statement<'a>(table_names: Vec<String>) -> (r: AwsSpanBuilder<'a>)
        ensures
            r.built(SpanKind::Client, "DynamoDB"@, "BatchExecuteStatement"@, dynamodb_attrs("BatchExecuteStatement"@, strings_view(table_names@))),
    {
        AwsSpanBuilder::dynamodb("BatchExecuteStatement", table_names)
    }
}

} // verus!
