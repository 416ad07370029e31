//! Geometric value types.

pub mod circle;
pub mod exact;
pub mod ordering;
pub mod point;
pub mod polygon;
pub mod rectangle;
pub mod segment;
pub mod triangle;
