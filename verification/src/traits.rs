//! Capability and operation traits of the geometry kernel.

pub mod distance;
pub mod intersection;
pub mod segment;
pub mod generator;
pub mod numbers;
pub mod plot;
