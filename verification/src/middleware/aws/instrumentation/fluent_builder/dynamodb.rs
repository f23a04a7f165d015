//! Span descriptions of Amazon DynamoDB requests.
use vstd::prelude::*;

use crate::middleware::aws::AwsSpanBuilder;
use crate::span::{attrs_view, opt_array_attr, opt_attr, opt_bool_attr, opt_i64_attr, opt_str, opt_strings, or_empty, push_opt, push_opt_bool, push_opt_i32, push_opt_i64, push_opt_strings, strings_view, unwrap_or_empty, widen, Attribute, SpanKind};
use crate::middleware::aws::operations::dynamodb::{dynamodb_attrs, DynamodbSpanBuilder};
use crate::middleware::aws::instrumentation::fluent_builder::utils::partiql::{index_name_key, spec_table_reference_from, TableReference};
use crate::span::{no_strings, one_string};
use crate::text::str_eq;

verus! {

/// The span of a DynamoDB `GetItem` request: the `GetItem` span on `table_name` (empty when unset) with the request attributes that are set.
pub fn get_item_span<'a>(table_name: Option<&str>, consistent_read: Option<bool>, projection_expression: Option<&str>) -> (r: AwsSpanBuilder<'a>)
    ensures
        r.built(SpanKind::Client, "DynamoDB"@, "GetItem"@, dynamodb_attrs("GetItem"@, seq![or_empty(opt_str(table_name))]) + (opt_bool_attr("aws.dynamodb.consistent_read"@, consistent_read) + opt_attr("aws.dynamodb.projection"@, opt_str(projection_expression)))),
{
        let b = DynamodbSpanBuilder::get_item(unwrap_or_empty(table_name));
        let mut extra: Vec<Attribute> = Vec::new();
        push_opt_bool(&mut extra, "aws.dynamodb.consistent_read", consistent_read);
        push_opt(&mut extra, "aws.dynamodb.projection", projection_expression);
        assert(attrs_view(extra@) =~= opt_bool_attr("aws.dynamodb.consistent_read"@, consistent_read) + opt_attr("aws.dynamodb.projection"@, opt_str(projection_expression)));
        b.extend(extra)
}

/// The span of a DynamoDB `PutItem` request: the `PutItem` span on `table_name` (empty when unset) with the request attributes that are set.
pub fn put_item_span<'a>(table_name: Option<&str>) -> (r: AwsSpanBuilder<'a>)
    ensures
        r.built(SpanKind::Client, "DynamoDB"@, "PutItem"@, dynamodb_attrs("PutItem"@, seq![or_empty(opt_str(table_name))])),
{
        DynamodbSpanBuilder::put_item(unwrap_or_empty(table_name))
}

/// The span of a DynamoDB `UpdateItem` request: the `UpdateItem` span on `table_name` (empty when unset) with the request attributes that are set.
pub fn update_item_span<'a>(table_name: Option<&str>) -> (r: AwsSpanBuilder<'a>)
    ensures
        r.built(SpanKind::Client, "DynamoDB"@, "UpdateItem"@, dynamodb_attrs("UpdateItem"@, seq![or_empty(opt_str(table_name))])),
{
        DynamodbSpanBuilder::update_item(unwrap_or_empty(table_name))
}

/// The span of a DynamoDB `DeleteItem` request: the `DeleteItem` span on `table_name` (empty when unset) with the request attributes that are set.
pub fn delete_item_span<'a>(table_name: Option<&str>) -> (r: AwsSpanBuilder<'a>)
    ensures
        r.built(SpanKind::Client, "DynamoDB"@, "DeleteItem"@, dynamodb_attrs("DeleteItem"@, seq![or_empty(opt_str(table_name))])),
{
        DynamodbSpanBuilder::delete_item(unwrap_or_empty(table_name))
}

/// The span of a DynamoDB `Query` request: the `Query` span on `table_name` (empty when unset) with the request attributes that are set.
pub fn query_span<'a>(table_name: Option<&str>, attributes_to_get: Option<Vec<String>>, consistent_read: Option<bool>, index_name: Option<&str>, limit: Option<i32>, projection_expression: Option<&str>, scan_index_forward: Option<bool>, select: Option<&str>) -> (r: AwsSpanBuilder<'a>)
    ensures
        r.built(SpanKind::Client, "DynamoDB"@, "Query"@, dynamodb_attrs("Query"@, seq![or_empty(opt_str(table_name))]) + (opt_array_attr("aws.dynamodb.attributes_to_get"@, opt_strings(attributes_to_get)) + opt_bool_attr("aws.dynamodb.consistent_read"@, consistent_read) + opt_attr("aws.dynamodb.index_name"@, opt_str(index_name)) + opt_i64_attr("aws.dynamodb.limit"@, widen(limit)) + opt_attr("aws.dynamodb.projection"@, opt_str(projection_expression)) + opt_bool_attr("aws.dynamodb.scan_forward"@, scan_index_forward) + opt_attr("aws.dynamodb.select"@, opt_str(select)))),
{
        let b = DynamodbSpanBuilder::query(unwrap_or_empty(table_name));
        let ghost g_attributes_to_get = attributes_to_get;
        let mut extra: Vec<Attribute> = Vec::new();
        push_opt_strings(&mut extra, "aws.dynamodb.attributes_to_get", attributes_to_get);
        push_opt_bool(&mut extra, "aws.dynamodb.consistent_read", consistent_read);
        push_opt(&mut extra, "aws.dynamodb.index_name", index_name);
        push_opt_i32(&mut extra, "aws.dynamodb.limit", limit);
        push_opt(&mut extra, "aws.dynamodb.projection", projection_expression);
        push_opt_bool(&mut extra, "aws.dynamodb.scan_forward", scan_index_forward);
        push_opt(&mut extra, "aws.dynamodb.select", select);
        assert(attrs_view(extra@) =~= opt_array_attr("aws.dynamodb.attributes_to_get"@, opt_strings(g_attributes_to_get)) + opt_bool_attr("aws.dynamodb.consistent_read"@, consistent_read) + opt_attr("aws.dynamodb.index_name"@, opt_str(index_name)) + opt_i64_attr("aws.dynamodb.limit"@, widen(limit)) + opt_attr("aws.dynamodb.projection"@, opt_str(projection_expression)) + opt_bool_attr("aws.dynamodb.scan_forward"@, scan_index_forward) + opt_attr("aws.dynamodb.select"@, opt_str(select)));
        b.extend(extra)
}

/// The span of a DynamoDB `Scan` request: the `Scan` span on `table_name` (empty when unset) with the request attributes that are set.
pub fn scan_span<'a>(table_name: Option<&str>, attributes_to_get: Option<Vec<String>>, consistent_read: Option<bool>, index_name: Option<&str>, limit: Option<i32>, projection_expression: Option<&str>, select: Option<&str>, segment: Option<i32>, total_segments: Option<i32>) -> (r: AwsSpanBuilder<'a>)
    ensures
        r.built(SpanKind::Client, "DynamoDB"@, "Scan"@, dynamodb_attrs("Scan"@, seq![or_empty(opt_str(table_name))]) + (opt_array_attr("aws.dynamodb.attributes_to_get"@, opt_strings(attributes_to_get)) + opt_bool_attr("aws.dynamodb.consistent_read"@, consistent_read) + opt_attr("aws.dynamodb.index_name"@, opt_str(index_name)) + opt_i64_attr("aws.dynamodb.limit"@, widen(limit)) + opt_attr("aws.dynamodb.projection"@, opt_str(projection_expression)) + opt_attr("aws.dynamodb.select"@, opt_str(select)) + opt_i64_attr("aws.dynamodb.segment"@, widen(segment)) + opt_i64_attr("aws.dynamodb.total_segments"@, widen(total_segments)))),
{
        let b = DynamodbSpanBuilder::scan(unwrap_or_empty(table_name));
        let ghost g_attributes_to_get = attributes_to_get;
        let mut extra: Vec<Attribute> = Vec::new();
        push_opt_strings(&mut extra, "aws.dynamodb.attributes_to_get", attributes_to_get);
        push_opt_bool(&mut extra, "aws.dynamodb.consistent_read", consistent_read);
        push_opt(&mut extra, "aws.dynamodb.index_name", index_name);
        push_opt_i32(&mut extra, "aws.dynamodb.limit", limit);
        push_opt(&mut extra, "aws.dynamodb.projection", projection_expression);
        push_opt(&mut extra, "aws.dynamodb.select", select);
        push_opt_i32(&mut extra, "aws.dynamodb.segment", segment);
        push_opt_i32(&mut extra, "aws.dynamodb.total_segments", total_segments);
        assert(attrs_view(extra@) =~= opt_array_attr("aws.dynamodb.attributes_to_get"@, opt_strings(g_attributes_to_get)) + opt_bool_attr("aws.dynamodb.consistent_read"@, consistent_read) + opt_attr("aws.dynamodb.index_name"@, opt_str(index_name)) + opt_i64_attr("aws.dynamodb.limit"@, widen(limit)) + opt_attr("aws.dynamodb.projection"@, opt_str(projection_expression)) + opt_attr("aws.dynamodb.select"@, opt_str(select)) + opt_i64_attr("aws.dynamodb.segment"@, widen(segment)) + opt_i64_attr("aws.dynamodb.total_segments"@, widen(total_segments)));
        b.extend(extra)
}

/// The span of a DynamoDB `BatchGetItem` request on the tables of its request items.
pub fn batch_get_item_span<'a>(table_names: Vec<String>) -> (r: AwsSpanBuilder<'a>)
    ensures
        r.built(SpanKind::Client, "DynamoDB"@, "BatchGetItem"@, dynamodb_attrs("BatchGetItem"@, strings_view(table_names@))),
{
        DynamodbSpanBuilder::batch_get_item(table_names)
}

/// The span of a DynamoDB `BatchWriteItem` request on the tables of its request items.
pub fn batch_write_item_span<'a>(table_names: Vec<String>) -> (r: AwsSpanBuilder<'a>)
    ensures
        r.built(SpanKind::Client, "DynamoDB"@, "BatchWriteItem"@, dynamodb_attrs("BatchWriteItem"@, strings_view(table_names@))),
{
        DynamodbSpanBuilder::batch_write_item(table_names)
}

/// The span of a DynamoDB `TransactGetItems` request on the tables its items name,
/// each once.
pub fn transact_get_items_span<'a>(table_names: Vec<String>) -> (r: AwsSpanBuilder<'a>)
    ensures
        r.built(SpanKind::Client, "DynamoDB"@, "TransactGetItems"@, dynamodb_attrs("TransactGetItems"@, spec_unique(strings_view(table_names@)))),
{
    DynamodbSpanBuilder::transact_get_items(unique_names(table_names))
}

/// The span of a DynamoDB `TransactWriteItems` request on the tables its items name,
/// each once.
pub fn transact_write_items_span<'a>(table_names: Vec<String>) -> (r: AwsSpanBuilder<'a>)
    ensures
        r.built(SpanKind::Client, "DynamoDB"@, "TransactWriteItems"@, dynamodb_attrs("TransactWriteItems"@, spec_unique(strings_view(table_names@)))),
{
    DynamodbSpanBuilder::transact_write_items(unique_names(table_names))
}

/// The span of a DynamoDB `CreateTable` request: the `CreateTable` span on `table_name` (empty when unset) with the request attributes that are set.
pub fn create_table_span<'a>(table_name: Option<&str>, read_capacity_units: Option<i64>, write_capacity_units: Option<i64>) -> (r: AwsSpanBuilder<'a>)
    ensures
        r.built(SpanKind::Client, "DynamoDB"@, "CreateTable"@, dynamodb_attrs("CreateTable"@, seq![or_empty(opt_str(table_name))]) + (opt_i64_attr("aws.dynamodb.provisioned_read_capacity"@, read_capacity_units) + opt_i64_attr("aws.dynamodb.provisioned_write_capacity"@, write_capacity_units))),
{
        let b = DynamodbSpanBuilder::create_table(unwrap_or_empty(table_name));
        let mut extra: Vec<Attribute> = Vec::new();
        push_opt_i64(&mut extra, "aws.dynamodb.provisioned_read_capacity", read_capacity_units);
        push_opt_i64(&mut extra, "aws.dynamodb.provisioned_write_capacity", write_capacity_units);
        assert(attrs_view(extra@) =~= opt_i64_attr("aws.dynamodb.provisioned_read_capacity"@, read_capacity_units) + opt_i64_attr("aws.dynamodb.provisioned_write_capacity"@, write_capacity_units));
        b.extend(extra)
}

/// The span of a DynamoDB `DeleteTable` request: the `DeleteTable` span on `table_name` (empty when unset) with the request attributes that are set.
pub fn delete_table_span<'a>(table_name: Option<&str>) -> (r: AwsSpanBuilder<'a>)
    ensures
        r.built(SpanKind::Client, "DynamoDB"@, "DeleteTable"@, dynamodb_attrs("DeleteTable"@, seq![or_empty(opt_str(table_name))])),
{
        DynamodbSpanBuilder::delete_table(unwrap_or_empty(table_name))
}

/// The span of a DynamoDB `DescribeTable` request: the `DescribeTable` span on `table_name` (empty when unset) with the request attributes that are set.
pub fn describe_table_span<'a>(table_name: Option<&str>) -> (r: AwsSpanBuilder<'a>)
    ensures
        r.built(SpanKind::Client, "DynamoDB"@, "DescribeTable"@, dynamodb_attrs("DescribeTable"@, seq![or_empty(opt_str(table_name))])),
{
        DynamodbSpanBuilder::describe_table(unwrap_or_empty(table_name))
}

/// The span of a DynamoDB `UpdateTable` request: the `UpdateTable` span on `table_name` (empty when unset) with the request attributes that are set.
pub fn update_table_span<'a>(table_name: Option<&str>, read_capacity_units: Option<i64>, write_capacity_units: Option<i64>) -> (r: AwsSpanBuilder<'a>)
    ensures
        r.built(SpanKind::Client, "DynamoDB"@, "UpdateTable"@, dynamodb_attrs("UpdateTable"@, seq![or_empty(opt_str(table_name))]) + (opt_i64_attr("aws.dynamodb.provisioned_read_capacity"@, read_capacity_units) + opt_i64_attr("aws.dynamodb.provisioned_write_capacity"@, write_capacity_units))),
{
        let b = DynamodbSpanBuilder::update_table(unwrap_or_empty(table_name));
        let mut extra: Vec<Attribute> = Vec::new();
        push_opt_i64(&mut extra, "aws.dynamodb.provisioned_read_capacity", read_capacity_units);
        push_opt_i64(&mut extra, "aws.dynamodb.provisioned_write_capacity", write_capacity_units);
        assert(attrs_view(extra@) =~= opt_i64_attr("aws.dynamodb.provisioned_read_capacity"@, read_capacity_units) + opt_i64_attr("aws.dynamodb.provisioned_write_capacity"@, write_capacity_units));
        b.extend(extra)
}

/// The span of a DynamoDB `ListTables` request, with the request attributes that are set.
pub fn list_tables_span<'a>(exclusive_start_table_name: Option<&str>, limit: Option<i32>) -> (r: AwsSpanBuilder<'a>)
    ensures
        r.built(SpanKind::Client, "DynamoDB"@, "ListTables"@, dynamodb_attrs("ListTables"@, Seq::empty()) + (opt_attr("aws.dynamodb.exclusive_start_table"@, opt_str(exclusive_start_table_name)) + opt_i64_attr("aws.dynamodb.limit"@, widen(limit)))),
{
        let b = DynamodbSpanBuilder::list_tables();
        let mut extra: Vec<Attribute> = Vec::new();
        push_opt(&mut extra, "aws.dynamodb.exclusive_start_table", exclusive_start_table_name);
        push_opt_i32(&mut extra, "aws.dynamodb.limit", limit);
        assert(attrs_view(extra@) =~= opt_attr("aws.dynamodb.exclusive_start_table"@, opt_str(exclusive_start_table_name)) + opt_i64_attr("aws.dynamodb.limit"@, widen(limit)));
        b.extend(extra)
}

/// The span of a DynamoDB `CreateBackup` request: the `CreateBackup` span on `table_name` (empty when unset) with the request attributes that are set.
pub fn create_backup_span<'a>(table_name: Option<&str>) -> (r: AwsSpanBuilder<'a>)
    ensures
        r.built(SpanKind::Client, "DynamoDB"@, "CreateBackup"@, dynamodb_attrs("CreateBackup"@, seq![or_empty(opt_str(table_name))])),
{
        DynamodbSpanBuilder::create_backup(unwrap_or_empty(table_name))
}

/// The span of a DynamoDB `DeleteBackup` request, with the request attributes that are set.
pub fn delete_backup_span<'a>() -> (r: AwsSpanBuilder<'a>)
    ensures
        r.built(SpanKind::Client, "DynamoDB"@, "DeleteBackup"@, dynamodb_attrs("DeleteBackup"@, Seq::empty())),
{
        DynamodbSpanBuilder::delete_backup()
}

/// The span of a DynamoDB `DescribeBackup` request, with the request attributes that are set.
pub fn describe_backup_span<'a>() -> (r: AwsSpanBuilder<'a>)
    ensures
        r.built(SpanKind::Client, "DynamoDB"@, "DescribeBackup"@, dynamodb_attrs("DescribeBackup"@, Seq::empty())),
{
        DynamodbSpanBuilder::describe_backup()
}

/// The span of a DynamoDB `ListBackups` request: the `ListBackups` span on `table_name` (empty when unset) with the request attributes that are set.
pub fn list_backups_span<'a>(table_name: Option<&str>) -> (r: AwsSpanBuilder<'a>)
    ensures
        r.built(SpanKind::Client, "DynamoDB"@, "ListBackups"@, dynamodb_attrs("ListBackups"@, seq![or_empty(opt_str(table_name))])),
{
        DynamodbSpanBuilder::list_backups(unwrap_or_empty(table_name))
}

/// The span of a DynamoDB `RestoreTableFromBackup` request: the `RestoreTableFromBackup` span on `target_table_name` (empty when unset) with the request attributes that are set.
pub fn restore_table_from_backup_span<'a>(target_table_name: Option<&str>) -> (r: AwsSpanBuilder<'a>)
    ensures
        r.built(SpanKind::Client, "DynamoDB"@, "RestoreTableFromBackup"@, dynamodb_attrs("RestoreTableFromBackup"@, seq![or_empty(opt_str(target_table_name))])),
{
        DynamodbSpanBuilder::restore_table_from_backup(unwrap_or_empty(target_table_name))
}

/// The span of a DynamoDB `RestoreTableToPointInTime` request: the `RestoreTableToPointInTime` span on `target_table_name` (empty when unset) with the request attributes that are set.
pub fn restore_table_to_point_in_time_span<'a>(target_table_name: Option<&str>) -> (r: AwsSpanBuilder<'a>)
    ensures
        r.built(SpanKind::Client, "DynamoDB"@, "RestoreTableToPointInTime"@, dynamodb_attrs("RestoreTableToPointInTime"@, seq![or_empty(opt_str(target_table_name))])),
{
        DynamodbSpanBuilder::restore_table_to_point_in_time(unwrap_or_empty(target_table_name))
}

/// The span of a DynamoDB `BatchExecuteStatement` request.
pub fn batch_execute_statement_span<'a>() -> (r: AwsSpanBuilder<'a>)
    ensures
        r.built(SpanKind::Client, "DynamoDB"@, "BatchExecuteStatement"@, dynamodb_attrs("BatchExecuteStatement"@, Seq::empty())),
{
    DynamodbSpanBuilder::batch_execute_statement(no_strings())
}

/// The span of a DynamoDB `ExecuteStatement` request: the table that the
/// PartiQL `statement` addresses (empty for a statement that names none),
/// its index where the statement names one, and the request attributes that
/// are set.
pub fn execute_statement_span<'a>(statement: &str, consistent_read: Option<bool>, limit: Option<i32>) -> (r: AwsSpanBuilder<'a>)
    ensures
        r.built(
            SpanKind::Client,
            "DynamoDB"@,
            "ExecuteStatement"@,
            dynamodb_attrs("ExecuteStatement"@, seq![spec_table_reference_from(statement@).name])
                + (opt_attr(index_name_key(), spec_table_reference_from(statement@).index_name)
                + opt_bool_attr("aws.dynamodb.consistent_read"@, consistent_read)
                + opt_i64_attr("aws.dynamodb.limit"@, widen(limit))),
        ),
{
    let table = TableReference::from_statement(statement);
    let b = DynamodbSpanBuilder::execute_statement(one_string(table.name));
    let mut extra: Vec<Attribute> = Vec::new();
    let ghost t = table@;
    match table.index_name() {
        Some(a) => extra.push(a),
        None => {},
    }
    assert(attrs_view(extra@) =~= opt_attr(index_name_key(), t.index_name));
    push_opt_bool(&mut extra, "aws.dynamodb.consistent_read", consistent_read);
    push_opt_i32(&mut extra, "aws.dynamodb.limit", limit);
    b.extend(extra)
}

/// `names` without repetitions: each name at its first occurrence.
pub open spec fn spec_unique(names: Seq<Seq<char>>) -> Seq<Seq<char>>
    decreases names.len(),
{
    if names.len() == 0 {
        Seq::empty()
    } else {
        let rest = spec_unique(names.drop_last());
        if rest.contains(names.last()) {
            rest
        } else {
            rest.push(names.last())
        }
    }
}

/// `spec_unique` keeps every name once and only the names given.
pub proof fn lemma_unique(names: Seq<Seq<char>>)
    ensures
        forall|i: int, j: int|
            0 <= i < j < spec_unique(names).len() ==> spec_unique(names)[i] != spec_unique(names)[j],
        forall|x: Seq<char>| spec_unique(names).contains(x) <==> names.contains(x),
    decreases names.len(),
{
    if names.len() > 0 {
        lemma_unique(names.drop_last());
        let rest = spec_unique(names.drop_last());
        assert forall|x: Seq<char>| spec_unique(names).contains(x) <==> names.contains(x) by {
            if names.contains(x) {
                let k = choose|k: int| 0 <= k < names.len() && names[k] == x;
                if k < names.len() - 1 {
                    assert(names.drop_last()[k] == x);
                }
            }
            if names.drop_last().contains(x) {
                let k = choose|k: int| 0 <= k < names.drop_last().len() && names.drop_last()[k] == x;
                assert(names[k] == x);
            }
            if !rest.contains(names.last()) && spec_unique(names).contains(x) {
                let k = choose|k: int| 0 <= k < spec_unique(names).len() && spec_unique(names)[k] == x;
                if k < rest.len() {
                    assert(rest[k] == x);
                }
            }
            if !rest.contains(names.last()) && rest.contains(x) {
                let k = choose|k: int| 0 <= k < rest.len() && rest[k] == x;
                assert(spec_unique(names)[k] == x);
            }
            if !rest.contains(names.last()) && x == names.last() {
                assert(spec_unique(names)[rest.len() as int] == x);
            }
        }
    }
}

fn contains_name(v: &Vec<String>, x: &str) -> (r: bool)
    ensures
        r == strings_view(v@).contains(x@),
{
    let mut i: usize = 0;
    while i < v.len()
        invariant
            i <= v.len(),
            forall|k: int| 0 <= k < i ==> v@[k]@ != x@,
        decreases v.len() - i,
    {
        if str_eq(v[i].as_str(), x) {
            assert(strings_view(v@)[i as int] == x@);
            return true;
        }
        i = i + 1;
    }
    assert forall|k: int| 0 <= k < strings_view(v@).len() implies strings_view(v@)[k] != x@ by {
        assert(strings_view(v@)[k] == v@[k]@);
    }
    false
}

/// The names of `names`, each once, at its first occurrence.
pub fn unique_names(names: Vec<String>) -> (r: Vec<String>)
    ensures
        strings_view(r@) == spec_unique(strings_view(names@)),
{
    let ghost nv = strings_view(names@);
    let mut out: Vec<String> = Vec::new();
    let mut i: usize = 0;
    assert(nv.take(0) =~= Seq::<Seq<char>>::empty());
    assert(strings_view(out@) =~= Seq::<Seq<char>>::empty());
    while i < names.len()
        invariant
            i <= names.len(),
            nv == strings_view(names@),
            strings_view(out@) == spec_unique(nv.take(i as int)),
        decreases names.len() - i,
    {
        let ghost prefix = nv.take(i as int + 1);
        assert(prefix.drop_last() =~= nv.take(i as int));
        assert(prefix.last() == names@[i as int]@);
        let present = contains_name(&out, names[i].as_str());
        if !present {
            let ghost before = strings_view(out@);
            out.push(names[i].clone());
            assert(strings_view(out@) =~= before.push(names@[i as int]@));
        }
        i = i + 1;
    }
    assert(nv.take(names.len() as int) =~= nv);
    out
}

} // verus!
