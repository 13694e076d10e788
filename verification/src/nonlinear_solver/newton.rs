//! The modified Newton iteration.

use vstd::prelude::*;
use crate::scalar::Scalar;
use crate::errors::PSError;
use crate::op::NonLinearOp;
use crate::linear_solver::{LinearSolver, LinearSolveError};
use crate::nonlinear_solver::{Convergence, ConvergenceStatus, newton_tol_spec, status_spec};
use crate::ode_solver::bump;
use crate::vector;
use crate::vector::{scale_of_seq, weighted_norm_spec, all_finite};

verus! {

/// What the iteration does after the monitor's verdict.
#[derive(Clone, Copy, Debug, PartialEq, Eq, Structural)]
pub enum NewtonAction {
    /// Correct the iterate once more.
    Iterate,
    /// Return the iterate as the solution.
    Accept,
    /// Have the Jacobian evaluated anew and start again from the start value.
    Restart,
    /// Give up.
    Fail,
}

/// The action after `status`, where `updated_jacobian` says that the
/// Jacobian in use was fetched during this solve.
pub open spec fn next_action_spec(status: ConvergenceStatus, updated_jacobian: bool) -> NewtonAction {
    match status {
        ConvergenceStatus::Continue => NewtonAction::Iterate,
        ConvergenceStatus::Converged => NewtonAction::Accept,
        _ => if updated_jacobian {
            NewtonAction::Fail
        } else {
            NewtonAction::Restart
        },
    }
}

pub fn next_action(status: ConvergenceStatus, updated_jacobian: bool) -> (r: NewtonAction)
    ensures
        r == next_action_spec(status, updated_jacobian),
{
    match status {
        ConvergenceStatus::Continue => NewtonAction::Iterate,
        ConvergenceStatus::Converged => NewtonAction::Accept,
        _ => if updated_jacobian {
            NewtonAction::Fail
        } else {
            NewtonAction::Restart
        },
    }
}

/// A Newton solver that keeps the matrix of its linear solver from one
/// solve to the next and asks for a new one only when the iteration fails.
pub struct NewtonNonlinearSolver<T: Scalar, S: LinearSolver<T>> {
    pub convergence: Convergence<T>,
    pub linear_solver: S,
    /// Whether tolerances were given.
    pub is_set: bool,
    /// The order of the matrix that the linear solver holds.
    pub order: usize,
    pub max_iter: usize,
    /// The corrections made in the last solve.
    pub niter: usize,
    /// The last correction.
    pub delta: Vec<T>,
    /// Whether the last solve fetched the Jacobian.
    pub updated_jacobian: bool,
    /// How often the last solve fetched the Jacobian.
    pub jacobian_fetches: usize,
    /// Whether the last solve started again from its start value, with a
    /// Jacobian evaluated anew.
    pub restarted: bool,
}

impl<T: Scalar, S: LinearSolver<T>> NewtonNonlinearSolver<T, S> {
    /// The monitor is sound, agrees with the solver on the iteration limit
    /// and tests against the bound 0.33; a matrix that the linear solver
    /// holds has the recorded order.
    pub open spec fn wf(&self) -> bool {
        &&& self.convergence.wf()
        &&& self.convergence.max_iter == self.max_iter
        &&& self.convergence.tol == newton_tol_spec::<T>()
        &&& self.linear_solver.is_set() ==> self.linear_solver.order() == self.order
    }

    /// Whether a solve for an operator of `n` states has to fetch the
    /// Jacobian at its start: the linear solver holds no matrix, or one of
    /// another order.
    pub open spec fn needs_jacobian(&self, n: usize) -> bool {
        !self.linear_solver.is_set() || self.order != n
    }

    /// A solver on `linear_solver` with a limit of 100 corrections and no
    /// tolerances yet; a matrix that the linear solver holds is dropped.
    pub fn new(linear_solver: S) -> (r: Self)
        ensures
            r.wf(),
            !r.linear_solver.is_set(),
            r.max_iter == 100,
            r.niter == 0,
            !r.is_set,
            !r.updated_jacobian,
            r.jacobian_fetches == 0,
            !r.restarted,
    {
        let mut linear_solver = linear_solver;
        linear_solver.clear_problem();
        NewtonNonlinearSolver {
            convergence: Convergence::new(T::zero(), Vec::new(), 100),
            linear_solver,
            is_set: false,
            order: 0,
            max_iter: 100,
            niter: 0,
            delta: Vec::new(),
            updated_jacobian: false,
            jacobian_fetches: 0,
            restarted: false,
        }
    }

    pub fn set_max_iter(&mut self, max_iter: usize)
        requires
            old(self).wf(),
        ensures
            final(self).wf(),
            final(self).max_iter == max_iter,
            final(self).convergence.iter == 0,
            final(self).convergence.old_norm is None,
            final(self).convergence.rtol == old(self).convergence.rtol,
            final(self).convergence.atol == old(self).convergence.atol,
            final(self).convergence.scale == old(self).convergence.scale,
            final(self).convergence.tol == old(self).convergence.tol,
            final(self).linear_solver == old(self).linear_solver,
            final(self).is_set == old(self).is_set,
            final(self).order == old(self).order,
            final(self).niter == old(self).niter,
    {
        self.max_iter = max_iter;
        self.convergence.max_iter = max_iter;
        self.convergence.iter = 0;
        self.convergence.old_norm = None;
    }

    pub fn max_iter(&self) -> (r: usize)
        ensures
            r == self.max_iter,
    {
        self.max_iter
    }

    pub fn niter(&self) -> (r: usize)
        ensures
            r == self.niter,
    {
        self.niter
    }

    /// Whether tolerances were given.
    pub fn has_problem(&self) -> (r: bool)
        ensures
            r == self.is_set,
    {
        self.is_set
    }

    /// Takes the tolerances of the problem to solve and drops the matrix
    /// of any earlier one.
    pub fn set_problem(&mut self, rtol: T, atol: Vec<T>)
        requires
            old(self).wf(),
            atol@.len() <= i64::MAX,
        ensures
            final(self).wf(),
            final(self).is_set,
            !final(self).linear_solver.is_set(),
            final(self).convergence.rtol == rtol,
            final(self).convergence.atol@ == atol@,
            final(self).max_iter == old(self).max_iter,
            final(self).niter == old(self).niter,
    {
        self.clear_problem();
        self.convergence = Convergence::new(rtol, atol, self.max_iter);
        self.is_set = true;
    }

    /// Forgets the tolerances and drops the linear solver's matrix.
    pub fn clear_problem(&mut self)
        requires
            old(self).wf(),
        ensures
            final(self).wf(),
            !final(self).is_set,
            !final(self).linear_solver.is_set(),
            final(self).convergence == old(self).convergence,
            final(self).max_iter == old(self).max_iter,
            final(self).niter == old(self).niter,
    {
        self.is_set = false;
        self.linear_solver.clear_problem();
    }

    /// Drops the linear solver's matrix, so that the next solve asks the
    /// operator for its Jacobian.
    pub fn reset(&mut self)
        requires
            old(self).wf(),
        ensures
            final(self).wf(),
            !final(self).linear_solver.is_set(),
            final(self).is_set == old(self).is_set,
            final(self).convergence == old(self).convergence,
            final(self).max_iter == old(self).max_iter,
            final(self).niter == old(self).niter,
    {
        self.linear_solver.clear_problem();
    }

    /// The most corrections that one solve makes: two passes of
    /// `max_iter` corrections each, and of one where `max_iter` is zero.
    pub open spec fn niter_bound(&self) -> int {
        if self.max_iter == 0 {
            2
        } else {
            2 * self.max_iter
        }
    }

    /// The last correction `delta` passed the monitor's test for the
    /// iterate `x` with the verdict `status`.
    pub open spec fn last_verdict(&self, x: Seq<T>, status: ConvergenceStatus) -> bool {
        status == status_spec(
            all_finite(x) && all_finite(self.delta@),
            weighted_norm_spec(self.delta@, self.convergence.scale@),
            self.convergence.old_norm,
            self.convergence.tol,
            self.convergence.iter + 1,
            self.convergence.max_iter as int,
        )
    }

    /// Solves `F(x) = 0` for the operator `op` at time `t`, starting from
    /// `xn` and leaving the solution there.
    ///
    /// Without tolerances the call fails with `StateNotSet`, and with a
    /// start value or tolerances of another length than the operator's, with
    /// `Other`; nothing is changed then. Otherwise the iteration runs: it
    /// succeeds when the monitor finds the last correction converged, fails
    /// with the linear solver's error as soon as a solve fails, and fails
    /// with `MaxIterReached` when the monitor gives up on an iteration whose
    /// Jacobian was fetched during this call. The Jacobian is fetched at
    /// most once in a call: at its start exactly where the linear solver
    /// holds no matrix of the operator's order, and else exactly where the
    /// iteration starts again. The operator keeps its setting.
    pub fn solve_in_place<C: NonLinearOp<T>>(&mut self, op: &mut C, xn: &mut Vec<T>, t: T) -> (r:
        Result<(), PSError<T>>)
        requires
            old(self).wf(),
            old(op).wf(),
        ensures
            final(self).wf(),
            final(op).wf(),
            final(op).setting() == old(op).setting(),
            final(op).nstates_spec() == old(op).nstates_spec(),
            old(op).jacobians_spec() <= final(op).jacobians_spec() <= old(op).jacobians_spec()
                + final(self).jacobian_fetches,
            final(xn)@.len() == old(xn)@.len(),
            final(self).max_iter == old(self).max_iter,
            final(self).is_set == old(self).is_set,
            final(self).convergence.rtol == old(self).convergence.rtol,
            final(self).convergence.atol == old(self).convergence.atol,
            final(self).convergence.tol == old(self).convergence.tol,
            !old(self).is_set ==> (r matches Err(e) && e is StateNotSet),
            old(self).is_set && (old(xn)@.len() != old(op).nstates_spec() || old(
                self).convergence.atol@.len() != old(op).nstates_spec()) ==> (r matches Err(e)
                && e is Other),
            r matches Err(e) ==> (e is StateNotSet || e is Other || e is LuFailed || e
                is LuNotInitialized || e is MaxIterReached),
            (r matches Err(e) && (e is StateNotSet || e is Other)) ==> final(xn)@ == old(xn)@
                && *final(op) == *old(op) && *final(self) == *old(self),
            (r matches Err(e) && e is StateNotSet) ==> !old(self).is_set,
            (r matches Err(e) && e is Other) ==> old(self).is_set && (old(xn)@.len() != old(
                op).nstates_spec() || old(self).convergence.atol@.len() != old(op).nstates_spec()),
            (r is Ok || (r matches Err(e) && (e is LuFailed || e is LuNotInitialized || e
                is MaxIterReached))) ==> {
                &&& 1 <= final(self).niter <= final(self).niter_bound()
                &&& final(self).convergence.scale@ == scale_of_seq(
                    old(xn)@,
                    old(self).convergence.rtol,
                    old(self).convergence.atol@,
                )
                &&& final(self).linear_solver.is_set()
                &&& final(self).order == old(op).nstates_spec()
                &&& final(self).jacobian_fetches == (if final(self).updated_jacobian {
                    1usize
                } else {
                    0usize
                })
                &&& final(self).updated_jacobian == (old(self).needs_jacobian(
                    old(op).nstates_spec(),
                ) || final(self).restarted)
                &&& final(self).restarted ==> !old(self).needs_jacobian(old(op).nstates_spec())
            },
            r is Ok ==> final(self).last_verdict(final(xn)@, ConvergenceStatus::Converged),
            (r matches Err(e) && e is MaxIterReached) ==> final(self).updated_jacobian && (final(
                self).last_verdict(final(xn)@, ConvergenceStatus::Diverged) || final(self).last_verdict(
                final(xn)@,
                ConvergenceStatus::MaximumIterations,
            )),
    {
        if !self.is_set {
            return Err(PSError::StateNotSet);
        }
        let n = op.nstates();
        if xn.len() != n || self.convergence.atol.len() != n {
            return Err(PSError::Other { e: "state of wrong size".to_owned() });
        }
        let x0 = vector::copy(xn);
        self.convergence.reset(&x0);
        let mut updated = false;
        self.jacobian_fetches = 0;
        self.restarted = false;
        let needed = !self.linear_solver.has_problem() || self.order != n;
        if needed {
            let jac = op.jacobian(&x0, t);
            self.linear_solver.set_problem(jac);
            self.order = n;
            updated = true;
            self.jacobian_fetches = 1;
        }
        self.updated_jacobian = updated;
        self.niter = 0;
        let mut tmp = vector::copy(&x0);
        let ghost mut base: int = 0;
        loop
            invariant
                0 <= base,
                base == 0 || updated,
                needed == old(self).needs_jacobian(n),
                updated == (needed || self.restarted),
                self.restarted ==> !needed,
                base <= self.niter_bound() / 2,
                self.niter <= base + self.convergence.iter,
                self.wf(),
                self.is_set,
                old(self).is_set,
                self.max_iter == old(self).max_iter,
                self.convergence.iter < self.max_iter || self.max_iter == 0,
                self.convergence.rtol == old(self).convergence.rtol,
                self.convergence.atol == old(self).convergence.atol,
                self.convergence.tol == old(self).convergence.tol,
                self.convergence.scale@ == scale_of_seq(
                    x0@,
                    old(self).convergence.rtol,
                    old(self).convergence.atol@,
                ),
                self.convergence.atol@.len() == n,
                self.linear_solver.is_set(),
                self.order == n,
                self.updated_jacobian == updated,
                self.jacobian_fetches == (if updated {
                    1usize
                } else {
                    0usize
                }),
                x0@ == old(xn)@,
                x0@.len() == n,
                xn@.len() == n,
                op.wf(),
                op.setting() == old(op).setting(),
                op.nstates_spec() == n,
                old(op).nstates_spec() == n,
                old(op).jacobians_spec() <= op.jacobians_spec() <= old(op).jacobians_spec()
                    + self.jacobian_fetches,
                self.jacobian_fetches <= 1,
            decreases
                    (if updated {
                        0int
                    } else {
                        1int
                    }),
                    self.max_iter - self.convergence.iter,
        {
            self.niter = bump(self.niter);
            op.call_inplace(xn, t, &mut tmp);
            match self.linear_solver.solve_in_place(&mut tmp) {
                Err(LinearSolveError::NotInitialized) => {
                    self.delta = tmp;
                    return Err(PSError::LuNotInitialized);
                },
                Err(LinearSolveError::Singular) => {
                    self.delta = tmp;
                    return Err(PSError::LuFailed);
                },
                Ok(()) => {},
            }
            let next = vector::sub(xn, &tmp);
            *xn = next;
            let status = self.convergence.check_new_iteration(&tmp, xn);
            match next_action(status, updated) {
                NewtonAction::Iterate => {},
                NewtonAction::Accept => {
                    self.delta = tmp;
                    return Ok(());
                },
                NewtonAction::Fail => {
                    self.delta = tmp;
                    return Err(PSError::MaxIterReached);
                },
                NewtonAction::Restart => {
                    op.set_jacobian_is_stale();
                    let jac = op.jacobian(&x0, t);
                    self.linear_solver.set_problem(jac);
                    *xn = vector::copy(&x0);
                    self.convergence.reset(&x0);
                    updated = true;
                    self.updated_jacobian = true;
                    self.jacobian_fetches = 1;
                    self.restarted = true;
                    proof {
                        base = self.niter as int;
                    }
                },
            }
        }
    }
}

} // verus!
