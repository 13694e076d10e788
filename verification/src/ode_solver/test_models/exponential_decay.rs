//! Exponential decay `y' = -k y` of two states.

use vstd::prelude::*;
use std::rc::Rc;
use crate::scalar::Scalar;
use crate::op::OdeEquations;
use crate::ode_solver::{OdeSolverProblem, OdeSolverSolution};
use crate::vector;
use crate::vector::scale_seq;

verus! {

/// `y' = -k y` for two states that start at one.
pub struct ExponentialDecay<T: Scalar> {
    pub k: T,
}

impl<T: Scalar> OdeEquations<T> for ExponentialDecay<T> {
    open spec fn nstates_spec(&self) -> usize {
        2
    }

    open spec fn rhs_spec(&self, t: T, y: Seq<T>) -> Seq<T> {
        scale_seq(y, self.k.neg_spec())
    }

    open spec fn jac_mul_spec(&self, t: T, y: Seq<T>, v: Seq<T>) -> Seq<T> {
        scale_seq(v, self.k.neg_spec())
    }

    open spec fn mass_spec(&self, t: T, v: Seq<T>) -> Seq<T> {
        v
    }

    open spec fn init_spec(&self, t: T) -> Seq<T> {
        seq![T::one_spec(), T::one_spec()]
    }

    open spec fn mass_is_constant_spec(&self) -> bool {
        true
    }

    fn nstates(&self) -> (n: usize) {
        2
    }

    fn rhs(&self, t: T, y: &Vec<T>) -> (r: Vec<T>) {
        vector::scale(y, self.k.neg())
    }

    fn jac_mul(&self, t: T, y: &Vec<T>, v: &Vec<T>) -> (r: Vec<T>) {
        vector::scale(v, self.k.neg())
    }

    fn mass(&self, t: T, v: &Vec<T>) -> (r: Vec<T>) {
        vector::copy(v)
    }

    fn init(&self, t: T) -> (r: Vec<T>) {
        let r = vector::from_element(2, T::one());
        r
    }

    fn mass_is_constant(&self) -> (r: bool) {
        true
    }
}

/// The solution of the decay at rate `k` at time `t`: `exp(-k t)` at both states.
pub open spec fn decay_solution_spec<T: Scalar>(k: T, t: T) -> Seq<T> {
    scale_seq(seq![T::one_spec(), T::one_spec()], k.neg_spec().mul_spec(t).exp_spec())
}

/// The tolerance 1e-6 that the problems are posed with.
pub open spec fn default_tol_spec<T: Scalar>() -> T {
    T::ratio_spec(1, 1000000)
}

/// The decay at rate 0.1 from time zero, with both tolerances 1e-6 and a
/// first step size of one, and its solution at the times 0, 1, ..., 9.
pub fn exponential_decay_problem<T: Scalar>() -> (r: (
    OdeSolverProblem<T, ExponentialDecay<T>>,
    OdeSolverSolution<T>,
))
    ensures
        r.0.wf(),
        r.0.eqn.k == T::ratio_spec(1, 10),
        r.0.rtol == default_tol_spec::<T>(),
        r.0.atol@ == seq![default_tol_spec::<T>(), default_tol_spec::<T>()],
        r.0.t0 == T::zero_spec(),
        r.0.h0 == T::one_spec(),
        r.1.solution_points@.len() == 10,
        forall|i: int|
            0 <= i < 10 ==> {
                &&& (#[trigger] r.1.solution_points@[i]).t == T::ratio_spec(i as i64, 1)
                &&& r.1.solution_points@[i].state@ == decay_solution_spec(
                    T::ratio_spec(1, 10),
                    T::ratio_spec(i as i64, 1),
                )
            },
{
    let k = T::ratio(1, 10);
    let tol = T::ratio(1, 1000000);
    let atol = vector::from_element(2, tol);
    let problem = OdeSolverProblem {
        eqn: Rc::new(ExponentialDecay { k }),
        rtol: tol,
        atol,
        t0: T::zero(),
        h0: T::one(),
    };
    let mut soln = OdeSolverSolution::new();
    let mut i: usize = 0;
    while i < 10
        invariant
            i <= 10,
            k == T::ratio_spec(1, 10),
            soln.solution_points@.len() == i,
            forall|j: int|
                0 <= j < i ==> {
                    &&& (#[trigger] soln.solution_points@[j]).t == T::ratio_spec(j as i64, 1)
                    &&& soln.solution_points@[j].state@ == decay_solution_spec(
                        T::ratio_spec(1, 10),
                        T::ratio_spec(j as i64, 1),
                    )
                },
        decreases 10 - i,
    {
        let t = T::ratio(i as i64, 1);
        let y0 = vector::from_element(2, T::one());
        let y = vector::scale(&y0, k.neg().mul(t).exp());
        soln.push(y, t);
        i = i + 1;
    }
    (problem, soln)
}

} // verus!
