//! Exponential decay with an algebraic constraint: `y' = -k y` for all states
//! but the last, which is held equal to the one before it.

use vstd::prelude::*;
use std::rc::Rc;
use crate::scalar::Scalar;
use crate::op::OdeEquations;
use crate::ode_solver::{OdeSolverProblem, OdeSolverSolution};
use crate::ode_solver::test_models::exponential_decay::default_tol_spec;
use crate::vector;
use crate::vector::scale_seq;

verus! {

/// Three states: two that decay at rate `k`, and a third that the
/// constraint `y_2 - y_1 = 0` ties to the second.
pub struct ExponentialDecayWithAlgebraic<T: Scalar> {
    pub k: T,
}

/// `-k x` at every state but the last, and `x_last - x_before` at the last.
pub open spec fn decay_with_constraint_spec<T: Scalar>(x: Seq<T>, k: T) -> Seq<T> {
    Seq::new(
        x.len(),
        |i: int|
            if i == x.len() - 1 {
                x[i].sub_spec(x[i - 1])
            } else {
                x[i].mul_spec(k.neg_spec())
            },
    )
}

/// `x` with its last entry replaced by zero.
pub open spec fn without_last_spec<T: Scalar>(x: Seq<T>) -> Seq<T> {
    Seq::new(
        x.len(),
        |i: int|
            if i == x.len() - 1 {
                T::zero_spec()
            } else {
                x[i]
            },
    )
}

/// The right-hand side: the decay, and the constraint at the last state.
pub fn exponential_decay_with_algebraic<T: Scalar>(x: &Vec<T>, k: T) -> (y: Vec<T>)
    requires
        x@.len() >= 2,
    ensures
        y@ == decay_with_constraint_spec(x@, k),
{
    let mut y = vector::scale(x, k.neg());
    let nstates = y.len();
    y.set(nstates - 1, x[nstates - 1].sub(x[nstates - 2]));
    y
}

/// The action of the derivative of the right-hand side on `v`; the
/// right-hand side is linear, so this is the right-hand side at `v`.
pub fn exponential_decay_with_algebraic_jacobian<T: Scalar>(v: &Vec<T>, k: T) -> (y: Vec<T>)
    requires
        v@.len() >= 2,
    ensures
        y@ == decay_with_constraint_spec(v@, k),
{
    exponential_decay_with_algebraic(v, k)
}

/// The mass matrix times `x`: the unit matrix with its last diagonal entry zero.
pub fn exponential_decay_with_algebraic_mass<T: Scalar>(x: &Vec<T>) -> (y: Vec<T>)
    requires
        x@.len() >= 1,
    ensures
        y@ == without_last_spec(x@),
{
    let mut y = vector::copy(x);
    let nstates = y.len();
    y.set(nstates - 1, T::zero());
    y
}

/// The start value: one at each of the three states.
pub fn exponential_decay_with_algebraic_init<T: Scalar>() -> (y: Vec<T>)
    ensures
        y@ == seq![T::one_spec(), T::one_spec(), T::one_spec()],
{
    let y = vector::from_element(3, T::one());
    y
}

impl<T: Scalar> OdeEquations<T> for ExponentialDecayWithAlgebraic<T> {
    open spec fn nstates_spec(&self) -> usize {
        3
    }

    open spec fn rhs_spec(&self, t: T, y: Seq<T>) -> Seq<T> {
        decay_with_constraint_spec(y, self.k)
    }

    open spec fn jac_mul_spec(&self, t: T, y: Seq<T>, v: Seq<T>) -> Seq<T> {
        decay_with_constraint_spec(v, self.k)
    }

    open spec fn mass_spec(&self, t: T, v: Seq<T>) -> Seq<T> {
        without_last_spec(v)
    }

    open spec fn init_spec(&self, t: T) -> Seq<T> {
        seq![T::one_spec(), T::one_spec(), T::one_spec()]
    }

    open spec fn mass_is_constant_spec(&self) -> bool {
        true
    }

    fn nstates(&self) -> (n: usize) {
        3
    }

    fn rhs(&self, t: T, y: &Vec<T>) -> (r: Vec<T>) {
        exponential_decay_with_algebraic(y, self.k)
    }

    fn jac_mul(&self, t: T, y: &Vec<T>, v: &Vec<T>) -> (r: Vec<T>) {
        exponential_decay_with_algebraic_jacobian(v, self.k)
    }

    fn mass(&self, t: T, v: &Vec<T>) -> (r: Vec<T>) {
        exponential_decay_with_algebraic_mass(v)
    }

    fn init(&self, t: T) -> (r: Vec<T>) {
        exponential_decay_with_algebraic_init()
    }

    fn mass_is_constant(&self) -> (r: bool) {
        true
    }
}

/// The solution at time `t`: `exp(-k t)` at each of the three states.
pub open spec fn constrained_decay_solution_spec<T: Scalar>(k: T, t: T) -> Seq<T> {
    scale_seq(
        seq![T::one_spec(), T::one_spec(), T::one_spec()],
        k.neg_spec().mul_spec(t).exp_spec(),
    )
}

/// The constrained decay at rate 0.1 from time zero, with both tolerances
/// 1e-6 and a first step size of one, and its solution at the times
/// 0, 0.1, ..., 0.9.
pub fn exponential_decay_with_algebraic_problem<T: Scalar>() -> (r: (
    OdeSolverProblem<T, ExponentialDecayWithAlgebraic<T>>,
    OdeSolverSolution<T>,
))
    ensures
        r.0.wf(),
        r.0.eqn.k == T::ratio_spec(1, 10),
        r.0.rtol == default_tol_spec::<T>(),
        r.0.atol@ == Seq::new(3, |i: int| default_tol_spec::<T>()),
        r.0.t0 == T::zero_spec(),
        r.0.h0 == T::one_spec(),
        r.1.solution_points@.len() == 10,
        forall|i: int|
            0 <= i < 10 ==> {
                &&& (#[trigger] r.1.solution_points@[i]).t == T::ratio_spec(i as i64, 10)
                &&& r.1.solution_points@[i].state@ == constrained_decay_solution_spec(
                    T::ratio_spec(1, 10),
                    T::ratio_spec(i as i64, 10),
                )
            },
{
    let k = T::ratio(1, 10);
    let tol = T::ratio(1, 1000000);
    let atol = vector::from_element(3, tol);
    let problem = OdeSolverProblem {
        eqn: Rc::new(ExponentialDecayWithAlgebraic { k }),
        rtol: tol,
        atol,
        t0: T::zero(),
        h0: T::one(),
    };
    let mut soln = OdeSolverSolution::new();
    let mut i: usize = 0;
    while i < 10
        invariant
            i <= 10,
            k == T::ratio_spec(1, 10),
            soln.solution_points@.len() == i,
            forall|j: int|
                0 <= j < i ==> {
                    &&& (#[trigger] soln.solution_points@[j]).t == T::ratio_spec(j as i64, 10)
                    &&& soln.solution_points@[j].state@ == constrained_decay_solution_spec(
                        T::ratio_spec(1, 10),
                        T::ratio_spec(j as i64, 10),
                    )
                },
        decreases 10 - i,
    {
        let t = T::ratio(i as i64, 10);
        let y0 = exponential_decay_with_algebraic_init::<T>();
        let y = vector::scale(&y0, k.neg().mul(t).exp());
        soln.push(y, t);
        i = i + 1;
    }
    (problem, soln)
}

} // verus!
