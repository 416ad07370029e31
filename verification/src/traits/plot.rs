//! Rendering hooks for point sequences.
//!
//! Plotting hands a sequence of points to an external renderer; nothing
//! about it is geometric logic, so this module only fixes the trait surface
//! that a renderer implements for its own collection types.

use vstd::prelude::*;

verus! {

/// Render a collection of float-scalar points.
pub trait FloatPlot<T> {
    fn plot(&self);
}

/// Render a collection of integer-scalar points.
pub trait IntPlot<T> {
    fn int_plot(&self);
}

} // verus!
