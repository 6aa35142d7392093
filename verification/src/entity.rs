//! Entities, records and active records.

pub mod active_model;
pub mod active_value;
pub mod base_entity;
pub mod column;
pub mod json;
pub mod lifecycle;
pub mod model;
pub mod primary_key;
