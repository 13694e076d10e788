//! The linear solver that the Newton iteration hands its matrix to.

use vstd::prelude::*;
use crate::scalar::Scalar;
use crate::matrix::DenseMatrix;

verus! {

/// Why a linear solve failed.
#[derive(Clone, Copy, Debug, PartialEq, Eq, Structural)]
pub enum LinearSolveError {
    /// The solver holds no matrix.
    NotInitialized,
    /// The matrix that the solver holds is singular.
    Singular,
}

/// A solver of `A x = b` for a matrix `A` that it is given once and may factor.
pub trait LinearSolver<T: Scalar> {
    /// Whether the solver holds a matrix.
    spec fn is_set(&self) -> bool;

    /// The order of the matrix that the solver holds.
    spec fn order(&self) -> usize;

    fn has_problem(&self) -> (r: bool)
        ensures
            r == self.is_set(),
    ;

    /// Takes the matrix, which it may factor at once.
    fn set_problem(&mut self, a: DenseMatrix<T>)
        requires
            a.wf(),
            a.nrows == a.ncols,
        ensures
            final(self).is_set(),
            final(self).order() == a.nrows,
    ;

    fn clear_problem(&mut self)
        ensures
            !final(self).is_set(),
    ;

    /// Replaces `b` by a solution of `A x = b`.
    ///
    /// Without a matrix it fails with `NotInitialized`; with one it solves
    /// or fails with `Singular`. `b` keeps its length either way.
    fn solve_in_place(&self, b: &mut Vec<T>) -> (r: Result<(), LinearSolveError>)
        requires
            self.is_set() ==> old(b)@.len() == self.order(),
        ensures
            final(b)@.len() == old(b)@.len(),
            self.is_set() <==> r != Err::<(), LinearSolveError>(LinearSolveError::NotInitialized),
    ;
}

} // verus!
