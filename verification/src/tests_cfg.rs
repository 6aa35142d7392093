//! Entities for tests and examples.

pub mod cake;
pub mod cake_filling;
pub mod filling;
pub mod fruit;
pub mod hello;
pub mod seat;
pub mod vendor;
