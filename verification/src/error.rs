//! Errors an integrator reports before or during a run.

use vstd::prelude::*;

verus! {

/// Why an integration run was refused or aborted.
#[derive(Clone, Copy, Debug, PartialEq, Eq, Structural)]
pub enum SolverError {
    /// The step size is zero, so the independent variable would never move.
    ZeroStepSize,
    /// The step size points away from the target, so the loop would never
    /// reach it.
    InvalidStepDirection,
    /// The derivative returned a vector whose length differs from the state's.
    DimensionMismatch,
}

impl SolverError {
    /// A short name for the error, for callers that print it.
    pub fn describe(self) -> (r: &'static str)
        ensures
            self is ZeroStepSize ==> r@ == "zero step size"@,
            self is InvalidStepDirection ==> r@ == "invalid step direction"@,
            self is DimensionMismatch ==> r@ == "dimension mismatch"@,
    {
        match self {
            SolverError::ZeroStepSize => "zero step size",
            SolverError::InvalidStepDirection => "invalid step direction",
            SolverError::DimensionMismatch => "dimension mismatch",
        }
    }
}

} // verus!
