//! Instrumentation helpers for outbound clients.

pub mod http;
