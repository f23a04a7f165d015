//! Attribute keys of the OpenTelemetry semantic conventions that this crate
//! records (the values of the `opentelemetry_semantic_conventions::attribute`
//! constants of the same names).
use vstd::prelude::*;

verus! {

pub const AWS_DYNAMODB_ATTRIBUTES_TO_GET: &'static str = "aws.dynamodb.attributes_to_get";
pub const AWS_DYNAMODB_CONSISTENT_READ: &'static str = "aws.dynamodb.consistent_read";
pub const AWS_DYNAMODB_EXCLUSIVE_START_TABLE: &'static str = "aws.dynamodb.exclusive_start_table";
pub const AWS_DYNAMODB_INDEX_NAME: &'static str = "aws.dynamodb.index_name";
pub const AWS_DYNAMODB_LIMIT: &'static str = "aws.dynamodb.limit";
pub const AWS_DYNAMODB_PROJECTION: &'static str = "aws.dynamodb.projection";
pub const AWS_DYNAMODB_PROVISIONED_READ_CAPACITY: &'static str = "aws.dynamodb.provisioned_read_capacity";
pub const AWS_DYNAMODB_PROVISIONED_WRITE_CAPACITY: &'static str = "aws.dynamodb.provisioned_write_capacity";
pub const AWS_DYNAMODB_SCAN_FORWARD: &'static str = "aws.dynamodb.scan_forward";
pub const AWS_DYNAMODB_SEGMENT: &'static str = "aws.dynamodb.segment";
pub const AWS_DYNAMODB_SELECT: &'static str = "aws.dynamodb.select";
pub const AWS_DYNAMODB_TABLE_NAMES: &'static str = "aws.dynamodb.table_names";
pub const AWS_DYNAMODB_TOTAL_SEGMENTS: &'static str = "aws.dynamodb.total_segments";
pub const AWS_LAMBDA_INVOKED_ARN: &'static str = "aws.lambda.invoked_arn";
pub const AWS_REQUEST_ID: &'static str = "aws.request_id";
pub const AWS_S3_BUCKET: &'static str = "aws.s3.bucket";
pub const AWS_S3_COPY_SOURCE: &'static str = "aws.s3.copy_source";
pub const AWS_S3_DELETE: &'static str = "aws.s3.delete";
pub const AWS_S3_KEY: &'static str = "aws.s3.key";
pub const AWS_S3_PART_NUMBER: &'static str = "aws.s3.part_number";
pub const AWS_S3_UPLOAD_ID: &'static str = "aws.s3.upload_id";
pub const DB_NAMESPACE: &'static str = "db.namespace";
pub const DB_OPERATION_NAME: &'static str = "db.operation.name";
pub const ERROR_TYPE: &'static str = "error.type";
pub const FAAS_COLDSTART: &'static str = "faas.coldstart";
pub const FAAS_CRON: &'static str = "faas.cron";
pub const FAAS_DOCUMENT_COLLECTION: &'static str = "faas.document.collection";
pub const FAAS_DOCUMENT_NAME: &'static str = "faas.document.name";
pub const FAAS_DOCUMENT_OPERATION: &'static str = "faas.document.operation";
pub const FAAS_INVOCATION_ID: &'static str = "faas.invocation_id";
pub const FAAS_TRIGGER: &'static str = "faas.trigger";
pub const HTTP_REQUEST_METHOD: &'static str = "http.request.method";
pub const HTTP_REQUEST_METHOD_ORIGINAL: &'static str = "http.request.method_original";
pub const HTTP_RESPONSE_STATUS_CODE: &'static str = "http.response.status_code";
pub const MESSAGING_DESTINATION_NAME: &'static str = "messaging.destination.name";
pub const MESSAGING_OPERATION_TYPE: &'static str = "messaging.operation.type";
pub const MESSAGING_SYSTEM: &'static str = "messaging.system";
pub const NETWORK_PEER_ADDRESS: &'static str = "network.peer.address";
pub const NETWORK_PEER_PORT: &'static str = "network.peer.port";
pub const NETWORK_PROTOCOL_VERSION: &'static str = "network.protocol.version";
pub const RPC_METHOD: &'static str = "rpc.method";
pub const RPC_SERVICE: &'static str = "rpc.service";
pub const RPC_SYSTEM: &'static str = "rpc.system";
pub const SERVER_ADDRESS: &'static str = "server.address";
pub const SERVER_PORT: &'static str = "server.port";
pub const SERVICE_NAME: &'static str = "service.name";
pub const SERVICE_VERSION: &'static str = "service.version";
pub const URL_FULL: &'static str = "url.full";
pub const URL_PATH: &'static str = "url.path";
pub const URL_QUERY: &'static str = "url.query";
pub const URL_SCHEME: &'static str = "url.scheme";
pub const USER_AGENT_ORIGINAL: &'static str = "user_agent.original";

/// Keys of earlier versions of the conventions, still recorded beside their
/// successors.
pub const DB_NAME: &'static str = "db.name";
pub const DB_OPERATION: &'static str = "db.operation";
pub const DB_SYSTEM: &'static str = "db.system";
pub const MESSAGING_OPERATION: &'static str = "messaging.operation";

} // verus!
