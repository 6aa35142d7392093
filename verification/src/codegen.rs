//! The generation of entity source from a schema.

pub mod relation;
