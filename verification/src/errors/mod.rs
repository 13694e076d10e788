//! The errors that the solvers report.

use vstd::prelude::*;
use crate::scalar::Scalar;

verus! {

/// Why a solver call failed.
pub enum PSError<T: Scalar> {
    SensitivityError,
    /// The requested stop time lies before the current time.
    StopBeforeCurrentTime { tstop: T, t: T },
    /// The interpolation time lies after the current time.
    InterpolationBeforeCurrentTime,
    /// The interpolation time lies before the start of the current step.
    InterpolationOutsideCurrentStep,
    /// The solver has no state yet.
    StateNotSet,
    /// The absolute tolerance has neither length one nor the length of the state.
    AbsoluteToleranceLengthMismatch,
    /// The step size fell below the smallest the solver takes at time `t`.
    StepSizeTooSmall { t: T },
    /// The linear solver was asked to solve before it was given a matrix.
    LuNotInitialized,
    /// The linear solver found its matrix singular.
    LuFailed,
    Other { e: String },
    /// The Newton iteration did not converge, with a fresh Jacobian.
    MaxIterReached,
    LinearPSError,
    MutableReferenceError,
    SensitivityNotSupported,
    UnionShapeMismatch,
    SparsityPatternError { e: String },
    Unknown { e: String },
    /// A matrix was asked for with no rows or no columns.
    ZeroColRow,
}

} // verus!
