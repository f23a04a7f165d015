//! Operation-scoped span builders for Amazon DynamoDB.
use vstd::prelude::*;

use crate::middleware::aws::AwsSpanBuilder;
use crate::semconv;
use crate::span::{array_attr, attrs_view, no_strings, one_string, owned, str_attr, strings_view, Attribute, AttributeModel, SpanKind};

verus! {

/// A span builder for a DynamoDB operation.
pub struct DynamoDBOperation<'a>(pub AwsSpanBuilder<'a>);

/// The attributes of a DynamoDB operation `method` on `tables`: the database
/// system and operation; for one table its name and the table list; for
/// several tables the list alone.
pub open spec fn dynamodb_operation_attrs(method: Seq<char>, tables: Seq<Seq<char>>) -> Seq<AttributeModel> {
    seq![
        str_attr(semconv::DB_SYSTEM@, "dynamodb"@),
        str_attr(semconv::DB_OPERATION@, method),
    ] + if tables.len() == 0 {
        Seq::empty()
    } else if tables.len() == 1 {
        seq![
            str_attr(semconv::DB_NAME@, tables[0]),
            array_attr(semconv::AWS_DYNAMODB_TABLE_NAMES@, tables),
        ]
    } else {
        seq![array_attr(semconv::AWS_DYNAMODB_TABLE_NAMES@, tables)]
    }
}

impl<'a> DynamoDBOperation<'a> {
    /// A client span builder for the DynamoDB operation `method` on the
    /// tables `table_names`.
    pub fn new(method: &str, table_names: Vec<String>) -> (r: Self)
        ensures
            r.0.built(
                SpanKind::Client,
                "DynamoDB"@,
                method@,
                dynamodb_operation_attrs(method@, strings_view(table_names@)),
            ),
    {
        let ghost tables = strings_view(table_names@);
        let mut attributes: Vec<Attribute> = Vec::new();
        attributes.push(Attribute::string(semconv::DB_SYSTEM, owned("dynamodb")));
        attributes.push(Attribute::string(semconv::DB_OPERATION, owned(method)));
        let n = table_names.len();
        if n == 1 {
            let first = table_names[0].clone();
            attributes.push(Attribute::string(semconv::DB_NAME, first));
            attributes.push(Attribute::array(semconv::AWS_DYNAMODB_TABLE_NAMES, table_names));
        } else if n > 1 {
            attributes.push(Attribute::array(semconv::AWS_DYNAMODB_TABLE_NAMES, table_names));
        }
        assert(attrs_view(attributes@) =~= dynamodb_operation_attrs(method@, tables));
        DynamoDBOperation(AwsSpanBuilder::client("DynamoDB", method, attributes))
    }

    /// A client span builder for the DynamoDB operation `method` addressed by
    /// the table ARN `table_arn`, recorded as the database name.
    fn by_arn(method: &str, table_arn: &str) -> (r: Self)
        ensures
            r.0.built(
                SpanKind::Client,
                "DynamoDB"@,
                method@,
                dynamodb_operation_attrs(method@, Seq::empty()).push(
                    str_attr(semconv::DB_NAME@, table_arn@),
                ),
            ),
    {
        let b = Self::new(method, no_strings());
        let a = Attribute::string(semconv::DB_NAME, owned(table_arn));
        let r = b.0.attribute(a);
        assert(crate::middleware::aws::rpc_attrs("DynamoDB"@, method@) + dynamodb_operation_attrs(
            method@,
            Seq::empty(),
        ).push(str_attr(semconv::DB_NAME@, table_arn@)) =~= (crate::middleware::aws::rpc_attrs(
            "DynamoDB"@,
            method@,
        ) + dynamodb_operation_attrs(method@, Seq::empty())).push(
            str_attr(semconv::DB_NAME@, table_arn@),
        ));
        DynamoDBOperation(r)
    }
}

impl<'a> DynamoDBOperation<'a> {
    /// A span builder for the DynamoDB `DescribeEndpoints` operation, which names no table.
    pub fn describe_endpoints() -> (r: Self)
        ensures
            r.0.built(SpanKind::Client, "DynamoDB"@, "DescribeEndpoints"@, dynamodb_operation_attrs("DescribeEndpoints"@, Seq::empty())),
    {
        Self::new("DescribeEndpoints", no_strings())
    }

    /// A span builder for the DynamoDB `DescribeLimits` operation, which names no table.
    pub fn describe_limits() -> (r: Self)
        ensures
            r.0.built(SpanKind::Client, "DynamoDB"@, "DescribeLimits"@, dynamodb_operation_attrs("DescribeLimits"@, Seq::empty())),
    {
        Self::new("DescribeLimits", no_strings())
    }

    /// A span builder for the DynamoDB `ListGlobalTables` operation, which names no table.
    pub fn list_global_tables() -> (r: Self)
        ensures
            r.0.built(SpanKind::Client, "DynamoDB"@, "ListGlobalTables"@, dynamodb_operation_attrs("ListGlobalTables"@, Seq::empty())),
    {
        Self::new("ListGlobalTables", no_strings())
    }

    /// A span builder for the DynamoDB `ListTables` operation, which names no table.
    pub fn list_tables() -> (r: Self)
        ensures
            r.0.built(SpanKind::Client, "DynamoDB"@, "ListTables"@, dynamodb_operation_attrs("ListTables"@, Seq::empty())),
    {
        Self::new("ListTables", no_strings())
    }

    /// A span builder for the DynamoDB `DeleteBackup` operation, which names no table.
    pub fn delete_backup() -> (r: Self)
        ensures
            r.0.built(SpanKind::Client, "DynamoDB"@, "DeleteBackup"@, dynamodb_operation_attrs("DeleteBackup"@, Seq::empty())),
    {
        Self::new("DeleteBackup", no_strings())
    }

    /// A span builder for the DynamoDB `DescribeBackup` operation, which names no table.
    pub fn describe_backup() -> (r: Self)
        ensures
            r.0.built(SpanKind::Client, "DynamoDB"@, "DescribeBackup"@, dynamodb_operation_attrs("DescribeBackup"@, Seq::empty())),
    {
        Self::new("DescribeBackup", no_strings())
    }

    /// A span builder for the DynamoDB `DescribeExport` operation, which names no table.
    pub fn describe_export() -> (r: Self)
        ensures
            r.0.built(SpanKind::Client, "DynamoDB"@, "DescribeExport"@, dynamodb_operation_attrs("DescribeExport"@, Seq::empty())),
    {
        Self::new("DescribeExport", no_strings())
    }

    /// A span builder for the DynamoDB `DescribeImport` operation, which names no table.
    pub fn describe_import() -> (r: Self)
        ensures
            r.0.built(SpanKind::Client, "DynamoDB"@, "DescribeImport"@, dynamodb_operation_attrs("DescribeImport"@, Seq::empty())),
    {
        Self::new("DescribeImport", no_strings())
    }

    /// A span builder for the DynamoDB `CreateBackup` operation on the table `table_name`.
    pub fn create_backup(table_name: &str) -> (r: Self)
        ensures
            r.0.built(SpanKind::Client, "DynamoDB"@, "CreateBackup"@, dynamodb_operation_attrs("CreateBackup"@, seq![table_name@])),
    {
        Self::new("CreateBackup", one_string(table_name))
    }

    /// A span builder for the DynamoDB `CreateTable` operation on the table `table_name`.
    pub fn create_table(table_name: &str) -> (r: Self)
        ensures
            r.0.built(SpanKind::Client, "DynamoDB"@, "CreateTable"@, dynamodb_operation_attrs("CreateTable"@, seq![table_name@])),
    {
        Self::new("CreateTable", one_string(table_name))
    }

    /// A span builder for the DynamoDB `DeleteItem` operation on the table `table_name`.
    pub fn delete_item(table_name: &str) -> (r: Self)
        ensures
            r.0.built(SpanKind::Client, "DynamoDB"@, "DeleteItem"@, dynamodb_operation_attrs("DeleteItem"@, seq![table_name@])),
    {
        Self::new("DeleteItem", one_string(table_name))
    }

    /// A span builder for the DynamoDB `DeleteTable` operation on the table `table_name`.
    pub fn delete_table(table_name: &str) -> (r: Self)
        ensures
            r.0.built(SpanKind::Client, "DynamoDB"@, "DeleteTable"@, dynamodb_operation_attrs("DeleteTable"@, seq![table_name@])),
    {
        Self::new("DeleteTable", one_string(table_name))
    }

    /// A span builder for the DynamoDB `DescribeContinuousBackups` operation on the table `table_name`.
    pub fn describe_continuous_backups(table_name: &str) -> (r: Self)
        ensures
            r.0.built(SpanKind::Client, "DynamoDB"@, "DescribeContinuousBackups"@, dynamodb_operation_attrs("DescribeContinuousBackups"@, seq![table_name@])),
    {
        Self::new("DescribeContinuousBackups", one_string(table_name))
    }

    /// A span builder for the DynamoDB `DescribeContributorInsights` operation on the table `table_name`.
    pub fn describe_contributor_insights(table_name: &str) -> (r: Self)
        ensures
            r.0.built(SpanKind::Client, "DynamoDB"@, "DescribeContributorInsights"@, dynamodb_operation_attrs("DescribeContributorInsights"@, seq![table_name@])),
    {
        Self::new("DescribeContributorInsights", one_string(table_name))
    }

    /// A span builder for the DynamoDB `DescribeKinesisStreamingDestination` operation on the table `table_name`.
    pub fn describe_kinesis_streaming_destination(table_name: &str) -> (r: Self)
        ensures
            r.0.built(SpanKind::Client, "DynamoDB"@, "DescribeKinesisStreamingDestination"@, dynamodb_operation_attrs("DescribeKinesisStreamingDestination"@, seq![table_name@])),
    {
        Self::new("DescribeKinesisStreamingDestination", one_string(table_name))
    }

    /// A span builder for the DynamoDB `DescribeTable` operation on the table `table_name`.
    pub fn describe_table(table_name: &str) -> (r: Self)
        ensures
            r.0.built(SpanKind::Client, "DynamoDB"@, "DescribeTable"@, dynamodb_operation_attrs("DescribeTable"@, seq![table_name@])),
    {
        Self::new("DescribeTable", one_string(table_name))
    }

    /// A span builder for the DynamoDB `DescribeTableReplicaAutoScaling` operation on the table `table_name`.
    pub fn describe_table_replica_auto_scaling(table_name: &str) -> (r: Self)
        ensures
            r.0.built(SpanKind::Client, "DynamoDB"@, "DescribeTableReplicaAutoScaling"@, dynamodb_operation_attrs("DescribeTableReplicaAutoScaling"@, seq![table_name@])),
    {
        Self::new("DescribeTableReplicaAutoScaling", one_string(table_name))
    }

    /// A span builder for the DynamoDB `DescribeTimeToLive` operation on the table `table_name`.
    pub fn describe_time_to_live(table_name: &str) -> (r: Self)
        ensures
            r.0.built(SpanKind::Client, "DynamoDB"@, "DescribeTimeToLive"@, dynamodb_operation_attrs("DescribeTimeToLive"@, seq![table_name@])),
    {
        Self::new("DescribeTimeToLive", one_string(table_name))
    }

    /// A span builder for the DynamoDB `DisableKinesisStreamingDestination` operation on the table `table_name`.
    pub fn disable_kinesis_streaming_destination(table_name: &str) -> (r: Self)
        ensures
            r.0.built(SpanKind::Client, "DynamoDB"@, "DisableKinesisStreamingDestination"@, dynamodb_operation_attrs("DisableKinesisStreamingDestination"@, seq![table_name@])),
    {
        Self::new("DisableKinesisStreamingDestination", one_string(table_name))
    }

    /// A span builder for the DynamoDB `EnableKinesisStreamingDestination` operation on the table `table_name`.
    pub fn enable_kinesis_streaming_destination(table_name: &str) -> (r: Self)
        ensures
            r.0.built(SpanKind::Client, "DynamoDB"@, "EnableKinesisStreamingDestination"@, dynamodb_operation_attrs("EnableKinesisStreamingDestination"@, seq![table_name@])),
    {
        Self::new("EnableKinesisStreamingDestination", one_string(table_name))
    }

    /// A span builder for the DynamoDB `ExecuteStatement` operation on the table `table_name`.
    pub fn execute_statement(table_name: &str) -> (r: Self)
        ensures
            r.0.built(SpanKind::Client, "DynamoDB"@, "ExecuteStatement"@, dynamodb_operation_attrs("ExecuteStatement"@, seq![table_name@])),
    {
        Self::new("ExecuteStatement", one_string(table_name))
    }

    /// A span builder for the DynamoDB `GetItem` operation on the table `table_name`.
    pub fn get_item(table_name: &str) -> (r: Self)
        ensures
            r.0.built(SpanKind::Client, "DynamoDB"@, "GetItem"@, dynamodb_operation_attrs("GetItem"@, seq![table_name@])),
    {
        Self::new("GetItem", one_string(table_name))
    }

    /// A span builder for the DynamoDB `ImportTable` operation on the table `table_name`.
    pub fn import_table(table_name: &str) -> (r: Self)
        ensures
            r.0.built(SpanKind::Client, "DynamoDB"@, "ImportTable"@, dynamodb_operation_attrs("ImportTable"@, seq![table_name@])),
    {
        Self::new("ImportTable", one_string(table_name))
    }

    /// A span builder for the DynamoDB `ListBackups` operation on the table `table_name`.
    pub fn list_backups(table_name: &str) -> (r: Self)
        ensures
            r.0.built(SpanKind::Client, "DynamoDB"@, "ListBackups"@, dynamodb_operation_attrs("ListBackups"@, seq![table_name@])),
    {
        Self::new("ListBackups", one_string(table_name))
    }

    /// A span builder for the DynamoDB `ListContributorInsights` operation on the table `table_name`.
    pub fn list_contributor_insights(table_name: &str) -> (r: Self)
        ensures
            r.0.built(SpanKind::Client, "DynamoDB"@, "ListContributorInsights"@, dynamodb_operation_attrs("ListContributorInsights"@, seq![table_name@])),
    {
        Self::new("ListContributorInsights", one_string(table_name))
    }

    /// A span builder for the DynamoDB `ListTagsOfResource` operation on the table `table_name`.
    pub fn list_tags_of_resource(table_name: &str) -> (r: Self)
        ensures
            r.0.built(SpanKind::Client, "DynamoDB"@, "ListTagsOfResource"@, dynamodb_operation_attrs("ListTagsOfResource"@, seq![table_name@])),
    {
        Self::new("ListTagsOfResource", one_string(table_name))
    }

    /// A span builder for the DynamoDB `PutItem` operation on the table `table_name`.
    pub fn put_item(table_name: &str) -> (r: Self)
        ensures
            r.0.built(SpanKind::Client, "DynamoDB"@, "PutItem"@, dynamodb_operation_attrs("PutItem"@, seq![table_name@])),
    {
        Self::new("PutItem", one_string(table_name))
    }

    /// A span builder for the DynamoDB `Query` operation on the table `table_name`.
    pub fn query(table_name: &str) -> (r: Self)
        ensures
            r.0.built(SpanKind::Client, "DynamoDB"@, "Query"@, dynamodb_operation_attrs("Query"@, seq![table_name@])),
    {
        Self::new("Query", one_string(table_name))
    }

    /// A span builder for the DynamoDB `RestoreTableFromBackup` operation on the table `table_name`.
    pub fn restore_table_from_backup(table_name: &str) -> (r: Self)
        ensures
            r.0.built(SpanKind::Client, "DynamoDB"@, "RestoreTableFromBackup"@, dynamodb_operation_attrs("RestoreTableFromBackup"@, seq![table_name@])),
    {
        Self::new("RestoreTableFromBackup", one_string(table_name))
    }

    /// A span builder for the DynamoDB `RestoreTableToPointInTime` operation on the table `table_name`.
    pub fn restore_table_to_point_in_time(table_name: &str) -> (r: Self)
        ensures
            r.0.built(SpanKind::Client, "DynamoDB"@, "RestoreTableToPointInTime"@, dynamodb_operation_attrs("RestoreTableToPointInTime"@, seq![table_name@])),
    {
        Self::new("RestoreTableToPointInTime", one_string(table_name))
    }

    /// A span builder for the DynamoDB `Scan` operation on the table `table_name`.
    pub fn scan(table_name: &str) -> (r: Self)
        ensures
            r.0.built(SpanKind::Client, "DynamoDB"@, "Scan"@, dynamodb_operation_attrs("Scan"@, seq![table_name@])),
    {
        Self::new("Scan", one_string(table_name))
    }

    /// A span builder for the DynamoDB `TagResource` operation on the table `table_name`.
    pub fn tag_resource(table_name: &str) -> (r: Self)
        ensures
            r.0.built(SpanKind::Client, "DynamoDB"@, "TagResource"@, dynamodb_operation_attrs("TagResource"@, seq![table_name@])),
    {
        Self::new("TagResource", one_string(table_name))
    }

    /// A span builder for the DynamoDB `UntagResource` operation on the table `table_name`.
    pub fn untag_resource(table_name: &str) -> (r: Self)
        ensures
            r.0.built(SpanKind::Client, "DynamoDB"@, "UntagResource"@, dynamodb_operation_attrs("UntagResource"@, seq![table_name@])),
    {
        Self::new("UntagResource", one_string(table_name))
    }

    /// A span builder for the DynamoDB `UpdateContinuousBackups` operation on the table `table_name`.
    pub fn update_continuous_backups(table_name: &str) -> (r: Self)
        ensures
            r.0.built(SpanKind::Client, "DynamoDB"@, "UpdateContinuousBackups"@, dynamodb_operation_attrs("UpdateContinuousBackups"@, seq![table_name@])),
    {
        Self::new("UpdateContinuousBackups", one_string(table_name))
    }

    /// A span builder for the DynamoDB `UpdateContributorInsights` operation on the table `table_name`.
    pub fn update_contributor_insights(table_name: &str) -> (r: Self)
        ensures
            r.0.built(SpanKind::Client, "DynamoDB"@, "UpdateContributorInsights"@, dynamodb_operation_attrs("UpdateContributorInsights"@, seq![table_name@])),
    {
        Self::new("UpdateContributorInsights", one_string(table_name))
    }

    /// A span builder for the DynamoDB `UpdateItem` operation on the table `table_name`.
    pub fn update_item(table_name: &str) -> (r: Self)
        ensures
            r.0.built(SpanKind::Client, "DynamoDB"@, "UpdateItem"@, dynamodb_operation_attrs("UpdateItem"@, seq![table_name@])),
    {
        Self::new("UpdateItem", one_string(table_name))
    }

    /// A span builder for the DynamoDB `UpdateKinesisStreamingDestination` operation on the table `table_name`.
    pub fn update_kinesis_streaming_destination(table_name: &str) -> (r: Self)
        ensures
            r.0.built(SpanKind::Client, "DynamoDB"@, "UpdateKinesisStreamingDestination"@, dynamodb_operation_attrs("UpdateKinesisStreamingDestination"@, seq![table_name@])),
    {
        Self::new("UpdateKinesisStreamingDestination", one_string(table_name))
    }

    /// A span builder for the DynamoDB `UpdateTable` operation on the table `table_name`.
    pub fn update_table(table_name: &str) -> (r: Self)
        ensures
            r.0.built(SpanKind::Client, "DynamoDB"@, "UpdateTable"@, dynamodb_operation_attrs("UpdateTable"@, seq![table_name@])),
    {
        Self::new("UpdateTable", one_string(table_name))
    }

    /// A span builder for the DynamoDB `UpdateTableReplicaAutoScaling` operation on the table `table_name`.
    pub fn update_table_replica_auto_scaling(table_name: &str) -> (r: Self)
        ensures
            r.0.built(SpanKind::Client, "DynamoDB"@, "UpdateTableReplicaAutoScaling"@, dynamodb_operation_attrs("UpdateTableReplicaAutoScaling"@, seq![table_name@])),
    {
        Self::new("UpdateTableReplicaAutoScaling", one_string(table_name))
    }

    /// A span builder for the DynamoDB `UpdateTimeToLive` operation on the table `table_name`.
    pub fn update_time_to_live(table_name: &str) -> (r: Self)
        ensures
            r.0.built(SpanKind::Client, "DynamoDB"@, "UpdateTimeToLive"@, dynamodb_operation_attrs("UpdateTimeToLive"@, seq![table_name@])),
    {
        Self::new("UpdateTimeToLive", one_string(table_name))
    }

    /// A span builder for the DynamoDB `CreateGlobalTable` operation on the table `table_name`.
    pub fn create_global_table(table_name: &str) -> (r: Self)
        ensures
            r.0.built(SpanKind::Client, "DynamoDB"@, "CreateGlobalTable"@, dynamodb_operation_attrs("CreateGlobalTable"@, seq![table_name@])),
    {
        Self::new("CreateGlobalTable", one_string(table_name))
    }

    /// A span builder for the DynamoDB `DescribeGlobalTable` operation on the table `table_name`.
    pub fn describe_global_table(table_name: &str) -> (r: Self)
        ensures
            r.0.built(SpanKind::Client, "DynamoDB"@, "DescribeGlobalTable"@, dynamodb_operation_attrs("DescribeGlobalTable"@, seq![table_name@])),
    {
        Self::new("DescribeGlobalTable", one_string(table_name))
    }

    /// A span builder for the DynamoDB `DescribeGlobalTableSettings` operation on the table `table_name`.
    pub fn describe_global_table_settings(table_name: &str) -> (r: Self)
        ensures
            r.0.built(SpanKind::Client, "DynamoDB"@, "DescribeGlobalTableSettings"@, dynamodb_operation_attrs("DescribeGlobalTableSettings"@, seq![table_name@])),
    {
        Self::new("DescribeGlobalTableSettings", one_string(table_name))
    }

    /// A span builder for the DynamoDB `UpdateGlobalTable` operation on the table `table_name`.
    pub fn update_global_table(table_name: &str) -> (r: Self)
        ensures
            r.0.built(SpanKind::Client, "DynamoDB"@, "UpdateGlobalTable"@, dynamodb_operation_attrs("UpdateGlobalTable"@, seq![table_name@])),
    {
        Self::new("UpdateGlobalTable", one_string(table_name))
    }

    /// A span builder for the DynamoDB `UpdateGlobalTableSettings` operation on the table `table_name`.
    pub fn update_global_table_settings(table_name: &str) -> (r: Self)
        ensures
            r.0.built(SpanKind::Client, "DynamoDB"@, "UpdateGlobalTableSettings"@, dynamodb_operation_attrs("UpdateGlobalTableSettings"@, seq![table_name@])),
    {
        Self::new("UpdateGlobalTableSettings", one_string(table_name))
    }

    /// A span builder for the DynamoDB `ExportTableToPointInTime` operation on the table with ARN `table_arn`.
    pub fn export_table_to_point_in_time(table_arn: &str) -> (r: Self)
        ensures
            r.0.built(SpanKind::Client, "DynamoDB"@, "ExportTableToPointInTime"@, dynamodb_operation_attrs("ExportTableToPointInTime"@, Seq::empty()).push(str_attr(semconv::DB_NAME@, table_arn@))),
    {
        Self::by_arn("ExportTableToPointInTime", table_arn)
    }

    /// A span builder for the DynamoDB `ListExports` operation on the table with ARN `table_arn`.
    pub fn list_exports(table_arn: &str) -> (r: Self)
        ensures
            r.0.built(SpanKind::Client, "DynamoDB"@, "ListExports"@, dynamodb_operation_attrs("ListExports"@, Seq::empty()).push(str_attr(semconv::DB_NAME@, table_arn@))),
    {
        Self::by_arn("ListExports", table_arn)
    }

    /// A span builder for the DynamoDB `ListImports` operation on the table with ARN `table_arn`.
    pub fn list_imports(table_arn: &str) -> (r: Self)
        ensures
            r.0.built(SpanKind::Client, "DynamoDB"@, "ListImports"@, dynamodb_operation_attrs("ListImports"@, Seq::empty()).push(str_attr(semconv::DB_NAME@, table_arn@))),
    {
        Self::by_arn("ListImports", table_arn)
    }

    /// A span builder for the DynamoDB `BatchExecuteStatement` operation on the tables `table_names`.
    pub fn batch_execute_statement(table_names: Vec<String>) -> (r: Self)
        ensures
            r.0.built(SpanKind::Client, "DynamoDB"@, "BatchExecuteStatement"@, dynamodb_operation_attrs("BatchExecuteStatement"@, strings_view(table_names@))),
    {
        Self::new("BatchExecuteStatement", table_names)
    }

    /// A span builder for the DynamoDB `BatchGetItem` operation on the tables `table_names`.
    pub fn batch_get_item(table_names: Vec<String>) -> (r: Self)
        ensures
            r.0.built(SpanKind::Client, "DynamoDB"@, "BatchGetItem"@, dynamodb_operation_attrs("BatchGetItem"@, strings_view(table_names@))),
    {
        Self::new("BatchGetItem", table_names)
    }

    /// A span builder for the DynamoDB `BatchWriteItem` operation on the tables `table_names`.
    pub fn batch_write_item(table_names: Vec<String>) -> (r: Self)
        ensures
            r.0.built(SpanKind::Client, "DynamoDB"@, "BatchWriteItem"@, dynamodb_operation_attrs("BatchWriteItem"@, strings_view(table_names@))),
    {
        Self::new("BatchWriteItem", table_names)
    }

    /// A span builder for the DynamoDB `ExecuteTransaction` operation on the tables `table_names`.
    pub fn execute_transaction(table_names: Vec<String>) -> (r: Self)
        ensures
            r.0.built(SpanKind::Client, "DynamoDB"@, "ExecuteTransaction"@, dynamodb_operation_attrs("ExecuteTransaction"@, strings_view(table_names@))),
    {
        Self::new("ExecuteTransaction", table_names)
    }

    /// A span builder for the DynamoDB `TransactGetItems` operation on the tables `table_names`.
    pub fn transact_get_items(table_names: Vec<String>) -> (r: Self)
        ensures
            r.0.built(SpanKind::Client, "DynamoDB"@, "TransactGetItems"@, dynamodb_operation_attrs("TransactGetItems"@, strings_view(table_names@))),
    {
        Self::new("TransactGetItems", table_names)
    }

    /// A span builder for the DynamoDB `TransactWriteItems` operation on the tables `table_names`.
    pub fn transact_write_items(table_names: Vec<String>) -> (r: Self)
        ensures
            r.0.built(SpanKind::Client, "DynamoDB"@, "TransactWriteItems"@, dynamodb_operation_attrs("TransactWriteItems"@, strings_view(table_names@))),
    {
        Self::new("TransactWriteItems", table_names)
    }
}

} // verus!
