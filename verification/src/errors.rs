use vstd::prelude::*;

verus! {

/// The failure kinds that geometric computations report.
///
/// Every operation in this crate is deterministic, so a failure is never
/// retried: it is surfaced to the caller as a typed result.
#[derive(Clone, Copy, Debug, PartialEq, Eq, Structural)]
pub enum GeomError {
    /// A value could not be represented when moving between the canonical
    /// domain and the caller's scalar type (for example, pi or the tolerance
    /// epsilon has no representation in the scalar type).
    ConversionFailure,
    /// A dependent computation (such as a distance) failed and the failure
    /// could not be attributed to a more specific cause.
    CalculationFailure,
    /// A shape could not be constructed: too few vertices, or the area and
    /// winding computation itself failed.
    InstantiationFailure,
    /// A requested structural change has no valid placement.
    MutationFailure,
}

impl GeomError {
    /// A short human-readable description of the failure kind.
    pub fn describe(&self) -> &'static str {
        match self {
            GeomError::ConversionFailure => "failed to convert a value between numeric domains",
            GeomError::CalculationFailure => "a dependent calculation failed",
            GeomError::InstantiationFailure => "failed to construct the shape",
            GeomError::MutationFailure => "the requested structural change has no valid placement",
        }
    }
}

} // verus!
