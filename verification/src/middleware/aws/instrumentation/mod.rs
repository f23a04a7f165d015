//! Instrumentation of AWS SDK calls.

pub mod fluent_builder;
pub mod s3_get_object;
pub mod stream;
