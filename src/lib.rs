//! Structured, trace-correlated log records, and the small utilities around them.
pub mod json;
pub mod span;
pub mod fields;
pub mod trace;
pub mod writer;
pub mod metrics;
pub mod hash;
