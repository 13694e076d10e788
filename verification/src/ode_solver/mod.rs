//! The problem that a stepper integrates, the state that it advances and the
//! figures that it keeps.

use vstd::prelude::*;
use std::rc::Rc;
use crate::scalar::Scalar;
use crate::errors::PSError;
use crate::op::OdeEquations;
use crate::vector;

pub mod bdf;
pub mod coefficients;
pub mod differences;
pub mod test_models;

verus! {

/// The equations with the tolerances and the interval to integrate over.
pub struct OdeSolverProblem<T: Scalar, E: OdeEquations<T>> {
    pub eqn: Rc<E>,
    pub rtol: T,
    /// One absolute tolerance for each state.
    pub atol: Vec<T>,
    pub t0: T,
    /// The step size that the first step is tried with.
    pub h0: T,
}

/// The current time, solution and step size.
pub struct OdeSolverState<T: Scalar> {
    pub t: T,
    pub y: Vec<T>,
    pub h: T,
}

/// What a stepper counts while it runs; no count ever goes down.
#[derive(Clone, Copy, Debug, PartialEq, Eq, Structural)]
pub struct Counters {
    pub number_of_linear_solver_setups: usize,
    pub number_of_steps: usize,
    pub number_of_error_test_failures: usize,
    pub number_of_nonlinear_solver_iterations: usize,
    pub number_of_nonlinear_solver_fails: usize,
}

/// The counts of a run with its first and last step size.
pub struct BdfStatistics<T: Scalar> {
    pub counters: Counters,
    pub initial_step_size: T,
    pub final_step_size: T,
}

/// `n + 1`, or `n` where that does not fit.
pub open spec fn bump_spec(n: usize) -> usize {
    if n < usize::MAX {
        (n + 1) as usize
    } else {
        n
    }
}

/// `n + m`, or the largest count where that does not fit.
pub open spec fn bump_by_spec(n: usize, m: usize) -> usize {
    if n + m <= usize::MAX {
        (n + m) as usize
    } else {
        usize::MAX
    }
}

pub fn bump(n: usize) -> (r: usize)
    ensures
        r == bump_spec(n),
        r >= n,
{
    if n < usize::MAX {
        n + 1
    } else {
        n
    }
}

pub fn bump_by(n: usize, m: usize) -> (r: usize)
    ensures
        r == bump_by_spec(n, m),
        r >= n,
{
    if m <= usize::MAX - n {
        n + m
    } else {
        usize::MAX
    }
}

impl Counters {
    pub open spec fn zero_spec() -> Counters {
        Counters {
            number_of_linear_solver_setups: 0,
            number_of_steps: 0,
            number_of_error_test_failures: 0,
            number_of_nonlinear_solver_iterations: 0,
            number_of_nonlinear_solver_fails: 0,
        }
    }

    /// No count of `self` is below its count in `before`.
    pub open spec fn at_least(&self, before: &Counters) -> bool {
        &&& self.number_of_linear_solver_setups >= before.number_of_linear_solver_setups
        &&& self.number_of_steps >= before.number_of_steps
        &&& self.number_of_error_test_failures >= before.number_of_error_test_failures
        &&& self.number_of_nonlinear_solver_iterations
            >= before.number_of_nonlinear_solver_iterations
        &&& self.number_of_nonlinear_solver_fails >= before.number_of_nonlinear_solver_fails
    }

    /// No attempt at a step has failed since `before`, where neither count
    /// of failures had run out.
    pub open spec fn no_failure_since(&self, before: &Counters) -> bool {
        &&& self.number_of_error_test_failures == before.number_of_error_test_failures
        &&& self.number_of_nonlinear_solver_fails == before.number_of_nonlinear_solver_fails
        &&& before.number_of_error_test_failures < usize::MAX
        &&& before.number_of_nonlinear_solver_fails < usize::MAX
    }

    /// The attempts at a step that failed, of either kind.
    pub open spec fn failures(&self) -> int {
        self.number_of_error_test_failures + self.number_of_nonlinear_solver_fails
    }

    /// Neither count of failures runs out within `attempts` more attempts.
    pub open spec fn has_room_for(&self, attempts: int) -> bool {
        &&& self.number_of_error_test_failures + attempts <= usize::MAX
        &&& self.number_of_nonlinear_solver_fails + attempts <= usize::MAX
    }

    /// The counts after one attempt at a step: the solve made `niter`
    /// corrections and fetched the Jacobian `fetches` times; then the
    /// attempt counts as a failure of the solver where the solve failed, as
    /// a failure of the error test where the solution did not pass it, and
    /// as a step otherwise.
    pub open spec fn after_attempt(
        self,
        niter: usize,
        fetches: usize,
        solved: bool,
        passes: bool,
    ) -> Counters {
        Counters {
            number_of_linear_solver_setups: bump_by_spec(
                self.number_of_linear_solver_setups,
                fetches,
            ),
            number_of_steps: if solved && passes {
                bump_spec(self.number_of_steps)
            } else {
                self.number_of_steps
            },
            number_of_error_test_failures: if solved && !passes {
                bump_spec(self.number_of_error_test_failures)
            } else {
                self.number_of_error_test_failures
            },
            number_of_nonlinear_solver_iterations: bump_by_spec(
                self.number_of_nonlinear_solver_iterations,
                niter,
            ),
            number_of_nonlinear_solver_fails: if !solved {
                bump_spec(self.number_of_nonlinear_solver_fails)
            } else {
                self.number_of_nonlinear_solver_fails
            },
        }
    }

    pub fn zero() -> (r: Counters)
        ensures
            r == Counters::zero_spec(),
    {
        Counters {
            number_of_linear_solver_setups: 0,
            number_of_steps: 0,
            number_of_error_test_failures: 0,
            number_of_nonlinear_solver_iterations: 0,
            number_of_nonlinear_solver_fails: 0,
        }
    }
}

impl<T: Scalar, E: OdeEquations<T>> OdeSolverProblem<T, E> {
    /// The tolerance has one entry for each state.
    pub open spec fn wf(&self) -> bool {
        self.atol@.len() == self.eqn.nstates_spec()
    }

    /// The absolute tolerance of a problem of `n` states made from `atol`:
    /// `atol` itself where it has `n` entries, its one entry `n` times where
    /// it has one.
    pub open spec fn broadcast_spec(atol: Seq<T>, n: usize) -> Seq<T> {
        if atol.len() == n {
            atol
        } else {
            Seq::new(n as nat, |i: int| atol[0])
        }
    }

    /// A problem on `eqn`. An `atol` of one entry stands for that entry at
    /// every state; one of any other length than the number of states is
    /// refused.
    pub fn new(eqn: Rc<E>, rtol: T, atol: Vec<T>, t0: T, h0: T) -> (r: Result<Self, PSError<T>>)
        ensures
            (atol@.len() == eqn.nstates_spec() || atol@.len() == 1) <==> r is Ok,
            r matches Ok(p) ==> {
                &&& p.wf()
                &&& p.eqn == eqn
                &&& p.rtol == rtol
                &&& p.t0 == t0
                &&& p.h0 == h0
                &&& p.atol@ == Self::broadcast_spec(atol@, eqn.nstates_spec())
            },
            r matches Err(e) ==> e is AbsoluteToleranceLengthMismatch,
    {
        let n = eqn.nstates();
        if atol.len() == n {
            Ok(OdeSolverProblem { eqn, rtol, atol, t0, h0 })
        } else if atol.len() == 1 {
            let a = vector::from_element(n, atol[0]);
            Ok(OdeSolverProblem { eqn, rtol, atol: a, t0, h0 })
        } else {
            Err(PSError::AbsoluteToleranceLengthMismatch)
        }
    }
}

impl<T: Scalar> OdeSolverState<T> {
    /// The state at the start of `problem`: its start time, start value and
    /// first step size.
    pub fn new<E: OdeEquations<T>>(problem: &OdeSolverProblem<T, E>) -> (r: Self)
        ensures
            r.t == problem.t0,
            r.h == problem.h0,
            r.y@ == problem.eqn.init_spec(problem.t0),
            r.y@.len() == problem.eqn.nstates_spec(),
    {
        let y = problem.eqn.init(problem.t0);
        OdeSolverState { t: problem.t0, y, h: problem.h0 }
    }
}

/// The solution at one time.
pub struct OdeSolutionPoint<T: Scalar> {
    pub state: Vec<T>,
    pub t: T,
}

/// A solution at increasing times, to hold a solver's result against.
pub struct OdeSolverSolution<T: Scalar> {
    pub solution_points: Vec<OdeSolutionPoint<T>>,
}

impl<T: Scalar> OdeSolverSolution<T> {
    pub fn new() -> (r: Self)
        ensures
            r.solution_points@.len() == 0,
    {
        OdeSolverSolution { solution_points: Vec::new() }
    }

    /// Appends the solution `state` at time `t`.
    pub fn push(&mut self, state: Vec<T>, t: T)
        ensures
            final(self).solution_points@ == old(self).solution_points@.push(
                OdeSolutionPoint { state, t },
            ),
    {
        self.solution_points.push(OdeSolutionPoint { state, t });
    }
}

} // verus!
