//! The reading of query results.

pub mod consolidate;
pub mod query;
pub mod select;
