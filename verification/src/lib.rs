use vstd::prelude::*;

pub mod filter;
pub mod fmt;
pub mod future;
pub mod http;
pub mod instrumentations;
pub mod middleware;
pub mod otel;
pub mod otlp;
pub mod propagation;
pub mod resource;
pub mod semconv;
pub mod span;
pub mod text;

verus! {
} // verus!
