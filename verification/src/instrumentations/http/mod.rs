//! Instrumentation of outgoing HTTP requests.

pub mod client;
pub mod hyper_conn;
pub mod hyper_legacy;
pub mod reqwest_builder;
