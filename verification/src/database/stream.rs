//! Streams of rows.

pub mod transaction;
