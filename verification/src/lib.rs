//! A generic 2-D computational-geometry kernel: point and vector arithmetic,
//! Euclidean distance, segment relations (collinearity, intersection), and
//! polygon, rectangle and circle metrics (area, perimeter, orientation,
//! bounding box, vertex insertion), over any scalar type that satisfies the
//! capability contracts in [`traits::numbers`].

pub mod errors;
pub mod traits;
pub mod types;
