//! Helpers shared by the fluent-builder instrumentations.

pub mod partiql;
