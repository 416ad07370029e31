//! Winding classification for polygons.

use vstd::prelude::*;

verus! {

/// The rotational order of a polygon's vertex sequence.
///
/// NB: the labels follow the convention of this crate's callers, which
/// attaches `Clockwise` to a positively signed shoelace area. Callers rely on
/// the label a given winding receives, not on the conventional rotational
/// reading of the word.
#[derive(Clone, Copy, Debug, PartialEq, Eq, Structural)]
pub enum PointOrder {
    Clockwise,
    CounterClockwise,
}

} // verus!
