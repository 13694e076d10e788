//! The operator that hands its argument back.

use vstd::prelude::*;
use std::marker::PhantomData;
use crate::scalar::Scalar;
use crate::matrix::DenseMatrix;
use crate::op::NonLinearOp;
use crate::vector;

verus! {

/// The identity on vectors of length `n`; its Jacobian is the unit matrix.
pub struct UnitCallable<T: Scalar> {
    pub n: usize,
    pub _phantom: PhantomData<T>,
}

impl<T: Scalar> UnitCallable<T> {
    pub fn new(n: usize) -> (r: Self)
        ensures
            r.n == n,
    {
        Self { n, _phantom: PhantomData }
    }
}

impl<T: Scalar> Default for UnitCallable<T> {
    fn default() -> (r: Self)
        ensures
            r.n == 1,
    {
        Self::new(1)
    }
}

impl<T: Scalar> NonLinearOp<T> for UnitCallable<T> {
    type Setting = usize;

    open spec fn nstates_spec(&self) -> usize {
        self.n
    }

    open spec fn call_spec(&self, x: Seq<T>, t: T) -> Seq<T> {
        x
    }

    open spec fn jac_mul_spec(&self, x: Seq<T>, t: T, v: Seq<T>) -> Seq<T> {
        v
    }

    open spec fn wf(&self) -> bool {
        self.n * self.n <= usize::MAX
    }

    open spec fn jacobians_spec(&self) -> usize {
        0
    }

    open spec fn setting(&self) -> usize {
        self.n
    }

    fn nstates(&self) -> (n: usize) {
        self.n
    }

    fn call_inplace(&self, x: &Vec<T>, t: T, y: &mut Vec<T>) {
        *y = vector::copy(x);
    }

    fn jac_mul_inplace(&self, x: &Vec<T>, t: T, v: &Vec<T>, y: &mut Vec<T>) {
        *y = vector::copy(v);
    }

    /// The unit matrix of order `n`.
    fn jacobian(&mut self, x: &Vec<T>, t: T) -> (r: DenseMatrix<T>)
        ensures
            forall|i: int, j: int|
                r.has(i, j) ==> r.at(i, j) == (if i == j {
                    T::one_spec()
                } else {
                    T::zero_spec()
                }),
    {
        let ones = vector::from_element(self.n, T::one());
        DenseMatrix::from_diagonal(&ones)
    }

    fn set_jacobian_is_stale(&mut self) {
    }
}

} // verus!
