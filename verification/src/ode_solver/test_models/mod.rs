//! Problems with known solutions.

use vstd::prelude::*;
use crate::scalar::Scalar;
use crate::ode_solver::OdeSolutionPoint;

pub mod exponential_decay;
pub mod exponential_decay_with_algebraic;
pub mod robertson;
pub mod robertson_ode;

verus! {

/// One row of a table of reference values for three states: the time and
/// the three values, each as a numerator and a denominator.
#[derive(Clone, Copy, Debug)]
pub struct ReferenceRow {
    pub t: (i64, u64),
    pub y0: (i64, u64),
    pub y1: (i64, u64),
    pub y2: (i64, u64),
}

/// The three values of `row` as scalars.
pub open spec fn row_state_spec<T: Scalar>(row: ReferenceRow) -> Seq<T> {
    seq![
        T::ratio_spec(row.y0.0, row.y0.1),
        T::ratio_spec(row.y1.0, row.y1.1),
        T::ratio_spec(row.y2.0, row.y2.1),
    ]
}

/// The time of `row` as a scalar.
pub open spec fn row_time_spec<T: Scalar>(row: ReferenceRow) -> T {
    T::ratio_spec(row.t.0, row.t.1)
}

/// The solution point that `row` stands for.
pub fn row_point<T: Scalar>(row: ReferenceRow) -> (r: OdeSolutionPoint<T>)
    ensures
        r.t == row_time_spec::<T>(row),
        r.state@ == row_state_spec::<T>(row),
{
    let mut state: Vec<T> = Vec::new();
    state.push(T::ratio(row.y0.0, row.y0.1));
    state.push(T::ratio(row.y1.0, row.y1.1));
    state.push(T::ratio(row.y2.0, row.y2.1));
    OdeSolutionPoint { state, t: T::ratio(row.t.0, row.t.1) }
}

} // verus!
