//! Instrumentation of frameworks, services and SDK clients.

pub mod aws;
pub mod axum;
pub mod http;
pub mod lambda;
