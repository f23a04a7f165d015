//! Middleware for outgoing HTTP requests.

pub mod client;
pub mod reqwest_builder;
