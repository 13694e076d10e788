//! The variable-order, variable-step BDF stepper.

use vstd::prelude::*;
use crate::scalar::{Scalar, max, min, max_spec, min_spec};
use crate::matrix::DenseMatrix;
use crate::errors::PSError;
use crate::op::{OdeEquations, NonLinearOp};
use crate::linear_solver::LinearSolver;
use crate::callable::ode::{BdfCallable, psi_neg_y0_spec};
use crate::nonlinear_solver::newton::NewtonNonlinearSolver;
use crate::ode_solver::{OdeSolverProblem, OdeSolverState, BdfStatistics, Counters, bump, bump_by, bump_spec};
use crate::ode_solver::coefficients::{
    Coefficients, MAX_ORDER, alpha_spec, error_const_spec, index_spec, index_scalar,
};
use crate::ode_solver::differences::{
    compute_r, interpolate_entry, interpolate_spec, is_r_matrix, predict, predict_spec,
    rescale_differences, rescaled_entry, time_factor_spec, update_differences, updated_entry,
};
use crate::vector;
use crate::vector::{sub_seq, scale_seq, axpy_seq, scale_of_seq, weighted_norm_spec};

verus! {

/// The most corrections of one pass of the Newton iteration.
pub const NEWTON_MAXITER: usize = 4;

/// The most attempts at one step before the step size counts as too small.
pub const MAX_ATTEMPTS: usize = 100000;

/// What the stepper holds of a problem while it integrates it.
pub struct BdfCore<T: Scalar, E: OdeEquations<T>> {
    pub op: BdfCallable<T, E>,
    pub state: OdeSolverState<T>,
    pub rtol: T,
    pub atol: Vec<T>,
    /// The order `k` of the next step.
    pub order: usize,
    /// The steps accepted since the order or the step size last changed.
    pub n_equal_steps: usize,
    /// The differences: column `i` is the `i`-th backward difference of the
    /// solution at the current time, column 0 the solution itself.
    pub diff: DenseMatrix<T>,
    /// The state predicted for the next step.
    pub y_predict: Vec<T>,
    pub coefficients: Coefficients<T>,
    /// `U` of the highest order.
    pub u: DenseMatrix<T>,
    /// The attempts that the last call of [`Self::step`] made.
    pub attempts: usize,
}

impl<T: Scalar, E: OdeEquations<T>> BdfCore<T, E> {
    pub open spec fn n(&self) -> usize {
        self.op.n()
    }

    /// The shapes fit and the order is one that the stepper takes.
    pub open spec fn shaped(&self) -> bool {
        &&& self.op.wf()
        &&& self.n() <= i64::MAX
        &&& self.state.y@.len() == self.n()
        &&& self.atol@.len() == self.n()
        &&& self.y_predict@.len() == self.n()
        &&& self.diff.wf()
        &&& self.diff.nrows == self.n()
        &&& self.diff.ncols == MAX_ORDER + 3
        &&& 1 <= self.order <= MAX_ORDER
        &&& self.coefficients.wf()
        &&& is_r_matrix(&self.u, MAX_ORDER as int, T::one_spec())
    }

    /// The prediction is that of the differences at the current order.
    pub open spec fn predicted(&self) -> bool {
        self.y_predict@ == predict_spec(&self.diff, self.order as int)
    }

    /// The history term of the operator is that of the differences and of
    /// the prediction.
    pub open spec fn psi_impressed(&self) -> bool {
        self.op.psi_neg_y0@ == psi_neg_y0_spec(
            &self.diff,
            self.coefficients.gamma@,
            alpha_spec::<T>(self.order as int),
            self.order as int,
            self.y_predict@,
        )
    }

    /// The coefficient of the operator is `h alpha_k`.
    pub open spec fn c_impressed(&self) -> bool {
        self.op.c == self.state.h.mul_spec(alpha_spec::<T>(self.order as int))
    }

    /// What holds before every attempt at a step.
    pub open spec fn consistent(&self) -> bool {
        &&& self.shaped()
        &&& self.predicted()
        &&& self.psi_impressed()
        &&& self.c_impressed()
    }

    /// Predicts the next state from the differences and gives the operator
    /// the history term that belongs to them.
    pub fn refresh_prediction(&mut self)
        requires
            old(self).shaped(),
        ensures
            final(self).shaped(),
            final(self).predicted(),
            final(self).psi_impressed(),
            final(self).diff == old(self).diff,
            final(self).state == old(self).state,
            final(self).order == old(self).order,
            final(self).n_equal_steps == old(self).n_equal_steps,
            final(self).rtol == old(self).rtol,
            final(self).atol == old(self).atol,
            final(self).op.eqn == old(self).op.eqn,
            final(self).op.c == old(self).op.c,
            final(self).op.rhs_jacobian_is_stale == old(self).op.rhs_jacobian_is_stale,
            final(self).op.jacobian_is_stale == old(self).op.jacobian_is_stale,
            final(self).op.mass_jacobian_is_stale == old(self).op.mass_jacobian_is_stale,
            final(self).op.number_of_jac_evals == old(self).op.number_of_jac_evals,
            final(self).op.jac == old(self).op.jac,
            final(self).op.rhs_jac == old(self).op.rhs_jac,
            final(self).op.mass_jac == old(self).op.mass_jac,
    {
        self.y_predict = predict(&self.diff, self.order);
        self.op.set_psi_and_y0(
            &self.diff,
            &self.coefficients.gamma,
            &self.coefficients.alpha,
            self.order,
            &self.y_predict,
        );
    }

    /// Changes the step size by `factor`: rescales the differences of the
    /// current order, multiplies `h`, starts counting equal steps anew and
    /// brings the prediction, the history term and `c` of the operator up
    /// to date. The linear solver's matrix is dropped with the old `c`.
    pub fn update_step_size<S: LinearSolver<T>>(
        &mut self,
        factor: T,
        solver: &mut NewtonNonlinearSolver<T, S>,
    )
        requires
            old(self).shaped(),
            old(solver).wf(),
        ensures
            final(self).consistent(),
            final(self).state.h == old(self).state.h.mul_spec(factor),
            final(self).state.t == old(self).state.t,
            final(self).state.y == old(self).state.y,
            final(self).n_equal_steps == 0,
            final(self).order == old(self).order,
            final(self).rtol == old(self).rtol,
            final(self).atol == old(self).atol,
            final(self).op.eqn == old(self).op.eqn,
            final(self).op.rhs_jacobian_is_stale == old(self).op.rhs_jacobian_is_stale,
            final(self).op.mass_jacobian_is_stale == old(self).op.mass_jacobian_is_stale,
            final(self).op.number_of_jac_evals == old(self).op.number_of_jac_evals,
            forall|i: int, j: int|
                old(self).diff.has(i, j) ==> final(self).diff.at(i, j) == rescaled_entry(
                    &old(self).diff,
                    factor,
                    old(self).order as int,
                    i,
                    j,
                ),
            final(solver).wf(),
            !final(solver).linear_solver.is_set(),
            final(solver).is_set == old(solver).is_set,
            final(solver).convergence == old(solver).convergence,
            final(solver).max_iter == old(solver).max_iter,
            final(solver).niter == old(solver).niter,
    {
        self.state.h = self.state.h.mul(factor);
        self.n_equal_steps = 0;
        rescale_differences(&mut self.diff, &self.u, self.order, factor);
        self.refresh_prediction();
        self.op.set_c(self.state.h, &self.coefficients.alpha, self.order);
        solver.reset();
    }
}

/// The step size that the first step is tried with: `h` times
/// `d2^(-1/2)`, where `d2` is the weighted norm of the change of `f` over
/// one Euler step of size `h`, and at most `100 h`.
pub open spec fn initial_step_spec<T: Scalar, E: OdeEquations<T>>(
    eqn: &E,
    t: T,
    y: Seq<T>,
    h: T,
    rtol: T,
    atol: Seq<T>,
) -> T {
    let f0 = eqn.rhs_spec(t, y);
    let f1 = eqn.rhs_spec(t.add_spec(h), axpy_seq(y, h, f0));
    let d2 = weighted_norm_spec(sub_seq(f1, f0), scale_of_seq(y, rtol, atol));
    let new_h = h.mul_spec(d2.pow_spec(T::ratio_spec(-1i64, 2)));
    let cap = T::ratio_spec(100, 1).mul_spec(h);
    if cap.lt_spec(new_h) {
        cap
    } else {
        new_h
    }
}

/// The first difference that the stepper starts with: `h f(t + h, y + h f(t, y))`.
pub open spec fn initial_difference_spec<T: Scalar, E: OdeEquations<T>>(
    eqn: &E,
    t: T,
    y: Seq<T>,
    h: T,
) -> Seq<T> {
    scale_seq(eqn.rhs_spec(t.add_spec(h), axpy_seq(y, h, eqn.rhs_spec(t, y))), h)
}

impl<T: Scalar, E: OdeEquations<T>> BdfCore<T, E> {
    /// Starts the integration of `problem` from `state` at order one.
    ///
    /// The solution goes into column 0 of the differences, `h f` after one
    /// Euler step into column 1, and the step size is chosen by
    /// [`initial_step_spec`]. The operator starts with every matrix
    /// flagged out of date, and the solver gets the problem's tolerances
    /// and the stepper's iteration limit.
    pub fn new<S: LinearSolver<T>>(
        problem: &OdeSolverProblem<T, E>,
        state: OdeSolverState<T>,
        solver: &mut NewtonNonlinearSolver<T, S>,
    ) -> (r: Self)
        requires
            problem.wf(),
            state.y@.len() == problem.eqn.nstates_spec(),
            problem.eqn.nstates_spec() * problem.eqn.nstates_spec() <= usize::MAX,
            problem.eqn.nstates_spec() * (MAX_ORDER + 3) <= usize::MAX,
            problem.eqn.nstates_spec() <= i64::MAX,
            old(solver).wf(),
        ensures
            r.consistent(),
            r.op.eqn == problem.eqn,
            r.rtol == problem.rtol,
            r.atol@ == problem.atol@,
            r.order == 1,
            r.n_equal_steps == 0,
            r.state.t == state.t,
            r.state.y == state.y,
            r.state.h == initial_step_spec(
                &*problem.eqn,
                state.t,
                state.y@,
                state.h,
                problem.rtol,
                problem.atol@,
            ),
            r.diff.col(0) == state.y@,
            r.diff.col(1) == initial_difference_spec(&*problem.eqn, state.t, state.y@, state.h),
            forall|i: int, j: int| r.diff.has(i, j) && j >= 2 ==> r.diff.at(i, j) == T::zero_spec(),
            r.op.rhs_jacobian_is_stale,
            r.op.jacobian_is_stale,
            r.op.mass_jacobian_is_stale,
            r.op.number_of_jac_evals == 0,
            final(solver).wf(),
            final(solver).is_set,
            !final(solver).linear_solver.is_set(),
            final(solver).max_iter == NEWTON_MAXITER,
            final(solver).convergence.rtol == problem.rtol,
            final(solver).convergence.atol@ == problem.atol@,
    {
        let mut state = state;
        let n = problem.eqn.nstates();
        let mut diff = DenseMatrix::<T>::zeros(n, MAX_ORDER + 3);
        diff.set_column(0, &state.y);
        let coefficients = Coefficients::<T>::new();
        let scale = vector::scale_of(&state.y, problem.rtol, &problem.atol);
        let f0 = problem.eqn.rhs(state.t, &state.y);
        let y1 = vector::axpy(&state.y, state.h, &f0);
        let f1 = problem.eqn.rhs(state.t.add(state.h), &y1);
        let first = vector::scale(&f1, state.h);
        diff.set_column(1, &first);
        let df = vector::sub(&f1, &f0);
        let d2 = vector::weighted_norm(&df, &scale);
        let mut new_h = state.h.mul(d2.pow(T::ratio(-1, 2)));
        let cap = T::ratio(100, 1).mul(state.h);
        if cap.lt(new_h) {
            new_h = cap;
        }
        state.h = new_h;
        let u = compute_r(MAX_ORDER, T::one());
        let op = BdfCallable::new(problem);
        let atol = vector::copy(&problem.atol);
        let y_predict = vector::copy(&state.y);
        let mut core = BdfCore {
            op,
            state,
            rtol: problem.rtol,
            atol,
            order: 1,
            n_equal_steps: 0,
            diff,
            y_predict,
            coefficients,
            u,
            attempts: 0,
        };
        core.refresh_prediction();
        core.op.set_c(core.state.h, &core.coefficients.alpha, core.order);
        solver.set_problem(problem.rtol, vector::copy(&problem.atol));
        solver.set_max_iter(NEWTON_MAXITER);
        core
    }

    /// The solution at `t` by the interpolant through the differences.
    ///
    /// A time after the current one is refused with
    /// `InterpolationBeforeCurrentTime`, one before the start of the
    /// current step with `InterpolationOutsideCurrentStep`.
    pub fn interpolate(&self, t: T) -> (r: Result<Vec<T>, PSError<T>>)
        requires
            self.shaped(),
        ensures
            self.state.t.lt_spec(t) ==> (r matches Err(e) && e is InterpolationBeforeCurrentTime),
            !self.state.t.lt_spec(t) && t.lt_spec(self.state.t.sub_spec(self.state.h)) ==> (
            r matches Err(e) && e is InterpolationOutsideCurrentStep),
            !self.state.t.lt_spec(t) && !t.lt_spec(self.state.t.sub_spec(self.state.h)) ==> (
            r matches Ok(v) && v@ == interpolate_spec(
                &self.diff,
                t,
                self.state.t,
                self.state.h,
                self.order as int,
            )),
    {
        if self.state.t.lt(t) {
            return Err(PSError::InterpolationBeforeCurrentTime);
        }
        if t.lt(self.state.t.sub(self.state.h)) {
            return Err(PSError::InterpolationOutsideCurrentStep);
        }
        let h = self.state.h;
        let mut time_factor = T::one();
        let mut sum = self.diff.column(0);
        let mut i: usize = 0;
        while i < self.order
            invariant
                i <= self.order,
                self.shaped(),
                h == self.state.h,
                time_factor == time_factor_spec(t, self.state.t, h, i as int),
                sum@.len() == self.diff.nrows,
                forall|s: int|
                    0 <= s < self.diff.nrows ==> sum@[s] == interpolate_entry(
                        &self.diff,
                        t,
                        self.state.t,
                        h,
                        i as int,
                        s,
                    ),
            decreases self.order - i,
        {
            let back = self.state.t.sub(h.mul(index_scalar::<T>(i)));
            time_factor = time_factor.mul(t.sub(back).div(h.mul(index_scalar::<T>(i + 1))));
            let col = self.diff.column(i + 1);
            sum = vector::axpy(&sum, time_factor, &col);
            i = i + 1;
        }
        assert(sum@ =~= interpolate_spec(
            &self.diff,
            t,
            self.state.t,
            h,
            self.order as int,
        ));
        Ok(sum)
    }
}

/// The safety factor after a solve of `niter` corrections:
/// `0.9 (2 m + 1) / (2 m + niter)` with `m` the iteration limit.
pub open spec fn safety_spec<T: Scalar>(niter: int) -> T {
    T::ratio_spec(9, 10).mul_spec(index_spec::<T>(2 * NEWTON_MAXITER + 1)).div_spec(
        index_spec::<T>(2 * NEWTON_MAXITER + niter),
    )
}

pub fn safety<T: Scalar>(niter: usize) -> (r: T)
    requires
        2 * NEWTON_MAXITER + niter <= usize::MAX,
        2 * NEWTON_MAXITER + niter <= i64::MAX,
    ensures
        r == safety_spec::<T>(niter as int),
{
    T::ratio(9, 10).mul(index_scalar::<T>(2 * NEWTON_MAXITER + 1)).div(
        index_scalar::<T>(2 * NEWTON_MAXITER + niter),
    )
}

/// The weighted norm of the error `error_const d` in the scale `scale`.
pub open spec fn error_norm_spec<T: Scalar>(d: Seq<T>, error_const: T, scale: Seq<T>) -> T {
    weighted_norm_spec(scale_seq(d, error_const), scale)
}

/// The factor that an error norm `norm` at order `i` lets the step size
/// change by: `safety norm^(-1/(i+1))`.
pub open spec fn order_factor_spec<T: Scalar>(safety: T, norm: T, i: int) -> T {
    safety.mul_spec(norm.pow_spec(T::ratio_spec(-1i64, (i + 1) as u64)))
}

pub fn order_factor<T: Scalar>(safety: T, norm: T, i: usize) -> (r: T)
    requires
        i <= MAX_ORDER + 1,
    ensures
        r == order_factor_spec(safety, norm, i as int),
{
    safety.mul(norm.pow(T::ratio(-1, (i + 1) as u64)))
}

/// The factor by which a step that failed the error test is shrunk: the
/// factor of its order, and at least 0.2.
pub open spec fn shrink_factor_spec<T: Scalar>(safety: T, norm: T, k: int) -> T {
    max_spec(T::ratio_spec(2, 10), order_factor_spec(safety, norm, k))
}

/// The order and the factor that the controller picks at order `k` from the
/// factors of the orders `k - 1`, `k` and `k + 1`: the largest factor, and
/// of equal ones that of the higher order. Order 0 and an order above the
/// highest do not compete.
pub open spec fn pick_order_spec<T: Scalar>(k: int, lower: T, same: T, upper: T) -> (int, T) {
    let first = if k > 1 && same.lt_spec(lower) {
        (k - 1, lower)
    } else {
        (k, same)
    };
    if k < MAX_ORDER && !upper.lt_spec(first.1) {
        (k + 1, upper)
    } else {
        first
    }
}

pub fn pick_order<T: Scalar>(k: usize, lower: T, same: T, upper: T) -> (r: (usize, T))
    requires
        1 <= k <= MAX_ORDER,
    ensures
        r.0 == pick_order_spec(k as int, lower, same, upper).0,
        r.1 == pick_order_spec(k as int, lower, same, upper).1,
        1 <= r.0 <= MAX_ORDER,
        k - 1 <= r.0 <= k + 1,
{
    let first = if k > 1 && same.lt(lower) {
        (k - 1, lower)
    } else {
        (k, same)
    };
    if k < MAX_ORDER && !upper.lt(first.1) {
        (k + 1, upper)
    } else {
        first
    }
}

/// Whether a step of size `h` at time `t` is too small to take:
/// `|h| <= |t| eps`.
pub open spec fn too_small_spec<T: Scalar>(h: T, t: T) -> bool {
    h.abs_spec().le_spec(t.abs_spec().mul_spec(T::epsilon_spec()))
}

pub fn too_small<T: Scalar>(h: T, t: T) -> (r: bool)
    ensures
        r == too_small_spec(h, t),
{
    h.abs().le(t.abs().mul(T::epsilon()))
}

impl<T: Scalar, E: OdeEquations<T>> BdfCore<T, E> {
    /// The factor of the order below `k`, from the `k`-th difference.
    pub open spec fn lower_factor_spec(&self, safety: T, scale: Seq<T>) -> T {
        order_factor_spec(
            safety,
            error_norm_spec(
                self.diff.col(self.order as int),
                error_const_spec::<T>(self.order - 1),
                scale,
            ),
            self.order - 1,
        )
    }

    /// The factor of the order above `k`, from the difference `k + 2`.
    pub open spec fn upper_factor_spec(&self, safety: T, scale: Seq<T>) -> T {
        order_factor_spec(
            safety,
            error_norm_spec(
                self.diff.col(self.order + 2),
                error_const_spec::<T>(self.order + 1),
                scale,
            ),
            self.order + 1,
        )
    }

    /// The order and the factor that the controller picks after a step of
    /// error norm `error_norm`.
    pub open spec fn choice_spec(&self, error_norm: T, scale: Seq<T>, safety: T) -> (int, T) {
        pick_order_spec(
            self.order as int,
            self.lower_factor_spec(safety, scale),
            order_factor_spec(safety, error_norm, self.order as int),
            self.upper_factor_spec(safety, scale),
        )
    }

    /// The error of the difference `k + 1`, measured in the scale of the
    /// solution, has a norm of at most one: the last step passed the error
    /// test, and the differences were not rescaled since.
    pub open spec fn error_test_passed(&self) -> bool {
        error_norm_spec(
            self.diff.col(self.order + 1),
            error_const_spec::<T>(self.order as int),
            scale_of_seq(self.state.y@, self.rtol, self.atol@),
        ).le_spec(T::one_spec())
    }

    /// Takes the step to `y_new`, whose correction of the prediction is `d`
    /// and whose error passed the test.
    ///
    /// The time moves on by `h`, the solution becomes `y_new`, and the
    /// differences take `d` in. After it the difference `k + 1` is `d`, so
    /// that its error norm in the scale of the new solution is at most one.
    pub fn accept(&mut self, y_new: Vec<T>, d: &Vec<T>)
        requires
            old(self).shaped(),
            y_new@.len() == old(self).n(),
            d@.len() == old(self).n(),
            error_norm_spec(
                d@,
                error_const_spec::<T>(old(self).order as int),
                scale_of_seq(y_new@, old(self).rtol, old(self).atol@),
            ).le_spec(T::one_spec()),
        ensures
            final(self).shaped(),
            final(self).state.t == old(self).state.t.add_spec(old(self).state.h),
            final(self).state.h == old(self).state.h,
            final(self).state.y@ == y_new@,
            final(self).n_equal_steps == bump_spec(old(self).n_equal_steps),
            final(self).order == old(self).order,
            final(self).rtol == old(self).rtol,
            final(self).atol == old(self).atol,
            final(self).op == old(self).op,
            final(self).y_predict == old(self).y_predict,
            forall|i: int, j: int|
                old(self).diff.has(i, j) ==> final(self).diff.at(i, j) == updated_entry(
                    &old(self).diff,
                    d@,
                    old(self).order as int,
                    i,
                    j,
                ),
            final(self).diff.col(final(self).order + 1) == d@,
            final(self).error_test_passed(),
    {
        self.state.t = self.state.t.add(self.state.h);
        self.state.y = y_new;
        update_differences(&mut self.diff, d, self.order);
        self.n_equal_steps = bump(self.n_equal_steps);
        assert(self.diff.col(self.order + 1) =~= d@) by {
            assert forall|i: int| 0 <= i < self.diff.nrows implies self.diff.at(
                i,
                self.order + 1,
            ) == d@[i] by {
                assert(old(self).diff.has(i, self.order + 1));
            }
        }
    }

    /// Picks the order and the step size after an accepted step of error
    /// norm `error_norm`, measured in `scale_y`, and changes to them.
    ///
    /// The factor is that of [`Self::choice_spec`], and at most 10.
    pub fn control<S: LinearSolver<T>>(
        &mut self,
        error_norm: T,
        scale_y: &Vec<T>,
        safety: T,
        solver: &mut NewtonNonlinearSolver<T, S>,
    )
        requires
            old(self).shaped(),
            scale_y@.len() == old(self).n(),
            old(solver).wf(),
        ensures
            final(self).consistent(),
            final(self).order == old(self).choice_spec(error_norm, scale_y@, safety).0,
            final(self).state.h == old(self).state.h.mul_spec(
                min_spec(
                    T::ratio_spec(10, 1),
                    old(self).choice_spec(error_norm, scale_y@, safety).1,
                ),
            ),
            final(self).state.t == old(self).state.t,
            final(self).state.y == old(self).state.y,
            final(self).n_equal_steps == 0,
            final(self).rtol == old(self).rtol,
            final(self).atol == old(self).atol,
            final(self).op.eqn == old(self).op.eqn,
            final(self).op.rhs_jacobian_is_stale == old(self).op.rhs_jacobian_is_stale,
            final(self).op.mass_jacobian_is_stale == old(self).op.mass_jacobian_is_stale,
            final(self).op.number_of_jac_evals == old(self).op.number_of_jac_evals,
            forall|i: int, j: int|
                old(self).diff.has(i, j) ==> final(self).diff.at(i, j) == rescaled_entry(
                    &old(self).diff,
                    min_spec(
                        T::ratio_spec(10, 1),
                        old(self).choice_spec(error_norm, scale_y@, safety).1,
                    ),
                    final(self).order as int,
                    i,
                    j,
                ),
            final(solver).wf(),
            !final(solver).linear_solver.is_set(),
            final(solver).is_set == old(solver).is_set,
            final(solver).convergence == old(solver).convergence,
            final(solver).max_iter == old(solver).max_iter,
            final(solver).niter == old(solver).niter,
    {
        let order = self.order;
        let lower = if order > 1 {
            let e = vector::scale(&self.diff.column(order), self.coefficients.error_const[order - 1]);
            order_factor(safety, vector::weighted_norm(&e, scale_y), order - 1)
        } else {
            T::zero()
        };
        let same = order_factor(safety, error_norm, order);
        let upper = if order < MAX_ORDER {
            let e = vector::scale(
                &self.diff.column(order + 2),
                self.coefficients.error_const[order + 1],
            );
            order_factor(safety, vector::weighted_norm(&e, scale_y), order + 1)
        } else {
            T::zero()
        };
        let picked = pick_order(order, lower, same, upper);
        self.order = picked.0;
        let factor = min(T::ratio(10, 1), picked.1);
        self.update_step_size(factor, solver);
    }
}

impl<T: Scalar, E: OdeEquations<T>> BdfCore<T, E> {
    /// The stepper and its solver fit together: the solver has the
    /// problem's tolerances and the stepper's iteration limit.
    pub open spec fn ready<S: LinearSolver<T>>(&self, solver: &NewtonNonlinearSolver<T, S>) -> bool {
        &&& self.consistent()
        &&& solver.wf()
        &&& solver.is_set
        &&& solver.max_iter == NEWTON_MAXITER
        &&& solver.convergence.atol@.len() == self.n()
    }

    /// After a failed Newton iteration: the step size is multiplied by 0.3
    /// and the derivative flagged out of date.
    pub fn reject_after_newton_failure<S: LinearSolver<T>>(
        &mut self,
        solver: &mut NewtonNonlinearSolver<T, S>,
    )
        requires
            old(self).ready(old(solver)),
        ensures
            final(self).ready(final(solver)),
            final(self).state.h == old(self).state.h.mul_spec(T::ratio_spec(3, 10)),
            final(self).op.rhs_jacobian_is_stale,
            final(self).op.jacobian_is_stale,
            final(self).state.t == old(self).state.t,
            final(self).state.y == old(self).state.y,
            final(self).order == old(self).order,
            final(self).n_equal_steps == 0,
            final(self).rtol == old(self).rtol,
            final(self).atol == old(self).atol,
            final(self).op.eqn == old(self).op.eqn,
            final(self).op.number_of_jac_evals == old(self).op.number_of_jac_evals,
            !final(solver).linear_solver.is_set(),
            forall|i: int, j: int|
                old(self).diff.has(i, j) ==> final(self).diff.at(i, j) == rescaled_entry(
                    &old(self).diff,
                    T::ratio_spec(3, 10),
                    old(self).order as int,
                    i,
                    j,
                ),
    {
        self.update_step_size(T::ratio(3, 10), solver);
        self.op.set_rhs_jacobian_is_stale();
    }

    /// After a failed error test of norm `error_norm`: the step size is
    /// shrunk by [`shrink_factor_spec`].
    pub fn reject_after_error_test<S: LinearSolver<T>>(
        &mut self,
        error_norm: T,
        safety: T,
        solver: &mut NewtonNonlinearSolver<T, S>,
    )
        requires
            old(self).ready(old(solver)),
        ensures
            final(self).ready(final(solver)),
            final(self).state.h == old(self).state.h.mul_spec(
                shrink_factor_spec(safety, error_norm, old(self).order as int),
            ),
            final(self).state.t == old(self).state.t,
            final(self).state.y == old(self).state.y,
            final(self).order == old(self).order,
            final(self).n_equal_steps == 0,
            final(self).rtol == old(self).rtol,
            final(self).atol == old(self).atol,
            final(self).op.eqn == old(self).op.eqn,
            final(self).op.rhs_jacobian_is_stale == old(self).op.rhs_jacobian_is_stale,
            final(self).op.number_of_jac_evals == old(self).op.number_of_jac_evals,
            !final(solver).linear_solver.is_set(),
            forall|i: int, j: int|
                old(self).diff.has(i, j) ==> final(self).diff.at(i, j) == rescaled_entry(
                    &old(self).diff,
                    shrink_factor_spec(safety, error_norm, old(self).order as int),
                    old(self).order as int,
                    i,
                    j,
                ),
    {
        let factor = max(T::ratio(2, 10), order_factor(safety, error_norm, self.order));
        self.update_step_size(factor, solver);
    }

    /// The error norm of the solution `y_new` of the step equation: that of
    /// its correction `y_new - y_predict` of the prediction, in the scale of
    /// `y_new`.
    pub open spec fn attempt_norm_spec(&self, y_new: Seq<T>) -> T {
        error_norm_spec(
            sub_seq(y_new, self.y_predict@),
            error_const_spec::<T>(self.order as int),
            scale_of_seq(y_new, self.rtol, self.atol@),
        )
    }

    /// Whether the solution `y_new` passes the error test: its error norm
    /// is at most one.
    pub open spec fn passes_spec(&self, y_new: Seq<T>) -> bool {
        self.attempt_norm_spec(y_new).le_spec(T::one_spec())
    }

    /// `self` is `before` with the step to `y_new` taken: the time moved on
    /// by `h`, the solution is `y_new`, one more equal step is counted, and
    /// the differences took the correction in.
    pub open spec fn accepted_from(&self, before: &Self, y_new: Seq<T>) -> bool {
        &&& self.state.t == before.state.t.add_spec(before.state.h)
        &&& self.state.h == before.state.h
        &&& self.state.y@ == y_new
        &&& self.n_equal_steps == bump_spec(before.n_equal_steps)
        &&& self.order == before.order
        &&& self.rtol == before.rtol
        &&& self.atol == before.atol
        &&& self.diff.wf()
        &&& self.diff.same_shape(&before.diff)
        &&& forall|i: int, j: int|
            before.diff.has(i, j) ==> self.diff.at(i, j) == updated_entry(
                &before.diff,
                sub_seq(y_new, before.y_predict@),
                before.order as int,
                i,
                j,
            )
    }

    /// `self` is `before` with the step size changed by `factor` at the
    /// order `order`: `h` is multiplied, the differences are rescaled, the
    /// count of equal steps starts anew, and time and solution stay.
    pub open spec fn rescaled_from(&self, before: &Self, order: int, factor: T) -> bool {
        &&& self.state.h == before.state.h.mul_spec(factor)
        &&& self.state.t == before.state.t
        &&& self.state.y == before.state.y
        &&& self.n_equal_steps == 0
        &&& self.order == order
        &&& self.rtol == before.rtol
        &&& self.atol == before.atol
        &&& forall|i: int, j: int|
            before.diff.has(i, j) ==> self.diff.at(i, j) == rescaled_entry(
                &before.diff,
                factor,
                order,
                i,
                j,
            )
    }

    /// `self` is what a step leaves of `taken`, the stepper as the step was
    /// taken: `taken` itself up to the prediction, or, after the
    /// controller, `taken` with the step size changed by `factor` at the
    /// new order.
    pub open spec fn left_from(&self, taken: &Self, factor: T) -> bool {
        &&& self.state.t == taken.state.t
        &&& self.state.y@ == taken.state.y@
        &&& self.rtol == taken.rtol
        &&& self.atol == taken.atol
        &&& taken.order - 1 <= self.order <= taken.order + 1
        &&& self.n_equal_steps > 0 ==> {
            &&& self.order == taken.order
            &&& self.state.h == taken.state.h
            &&& self.diff == taken.diff
        }
        &&& self.n_equal_steps == 0 ==> self.rescaled_from(taken, self.order as int, factor)
    }

    /// `self` is `before` with order and step size chosen by the
    /// controller for the accepted solution `y_new`, after a solve of
    /// `niter` corrections: the order of [`Self::choice_spec`], and its
    /// factor, at most 10.
    pub open spec fn controlled_from(&self, before: &Self, y_new: Seq<T>, norm: T, niter: int) -> bool {
        let choice = before.choice_spec(
            norm,
            scale_of_seq(y_new, before.rtol, before.atol@),
            safety_spec::<T>(niter),
        );
        self.rescaled_from(before, choice.0, min_spec(T::ratio_spec(10, 1), choice.1))
    }

    /// Takes the outcome of one solve of the step equation: `solved` is
    /// what the solver returned, `y_new` the iterate it left, `niter` the
    /// corrections it made and `fetches` how often it fetched the Jacobian.
    ///
    /// - Where the solve failed, the step is not taken: the step size is
    ///   multiplied by 0.3 and the derivative flagged out of date.
    /// - Where it succeeded and `y_new` fails the error test, the step is
    ///   not taken: the step size is shrunk by [`shrink_factor_spec`].
    /// - Where `y_new` passes, the step is taken as [`Self::accept`] does.
    ///   Before `k + 1` equal steps at order `k` nothing else changes; from
    ///   then on the controller of [`Self::control`] picks order and step
    ///   size.
    ///
    /// The attempt is counted, and an accepted step's size recorded as the
    /// last step size.
    pub fn after_solve<S: LinearSolver<T>>(
        &mut self,
        solved: Result<(), PSError<T>>,
        y_new: Vec<T>,
        niter: usize,
        fetches: usize,
        solver: &mut NewtonNonlinearSolver<T, S>,
        statistics: &mut BdfStatistics<T>,
    ) -> (accepted: bool)
        requires
            old(self).ready(old(solver)),
            y_new@.len() == old(self).n(),
            2 * NEWTON_MAXITER + niter <= usize::MAX,
            2 * NEWTON_MAXITER + niter <= i64::MAX,
        ensures
            final(self).ready(final(solver)),
            final(self).op.eqn == old(self).op.eqn,
            final(self).rtol == old(self).rtol,
            final(self).atol == old(self).atol,
            final(self).op.number_of_jac_evals == old(self).op.number_of_jac_evals,
            accepted == (solved is Ok && old(self).passes_spec(y_new@)),
            final(statistics).counters == old(statistics).counters.after_attempt(
                niter,
                fetches,
                solved is Ok,
                old(self).passes_spec(y_new@),
            ),
            final(statistics).initial_step_size == old(statistics).initial_step_size,
            final(statistics).final_step_size == (if accepted {
                old(self).state.h
            } else {
                old(statistics).final_step_size
            }),
            solved is Err ==> {
                &&& final(self).rescaled_from(
                    old(self),
                    old(self).order as int,
                    T::ratio_spec(3, 10),
                )
                &&& final(self).op.rhs_jacobian_is_stale
                &&& final(self).op.jacobian_is_stale
            },
            solved is Ok && !old(self).passes_spec(y_new@) ==> {
                &&& final(self).rescaled_from(
                    old(self),
                    old(self).order as int,
                    shrink_factor_spec(
                        safety_spec::<T>(niter as int),
                        old(self).attempt_norm_spec(y_new@),
                        old(self).order as int,
                    ),
                )
                &&& final(self).op.rhs_jacobian_is_stale == old(self).op.rhs_jacobian_is_stale
            },
            accepted && bump_spec(old(self).n_equal_steps) < old(self).order + 1 ==> {
                &&& final(self).accepted_from(old(self), y_new@)
                &&& final(self).error_test_passed()
            },
            accepted && bump_spec(old(self).n_equal_steps) >= old(self).order + 1 ==> exists|
                taken: BdfCore<T, E>,
            |
                {
                    &&& #[trigger] taken.accepted_from(old(self), y_new@)
                    &&& taken.error_test_passed()
                    &&& final(self).controlled_from(
                        &taken,
                        y_new@,
                        old(self).attempt_norm_spec(y_new@),
                        niter as int,
                    )
                },
    {
        statistics.counters.number_of_nonlinear_solver_iterations = bump_by(
            statistics.counters.number_of_nonlinear_solver_iterations,
            niter,
        );
        statistics.counters.number_of_linear_solver_setups = bump_by(
            statistics.counters.number_of_linear_solver_setups,
            fetches,
        );
        match solved {
            Err(_) => {
                statistics.counters.number_of_nonlinear_solver_fails = bump(
                    statistics.counters.number_of_nonlinear_solver_fails,
                );
                self.reject_after_newton_failure(solver);
                false
            },
            Ok(()) => {
                let scale_y = vector::scale_of(&y_new, self.rtol, &self.atol);
                let d = vector::sub(&y_new, &self.y_predict);
                let error = vector::scale(&d, self.coefficients.error_const[self.order]);
                let error_norm = vector::weighted_norm(&error, &scale_y);
                let safety = safety::<T>(niter);
                if error_norm.le(T::one()) {
                    let h = self.state.h;
                    self.accept(y_new, &d);
                    statistics.counters.number_of_steps = bump(statistics.counters.number_of_steps);
                    statistics.final_step_size = h;
                    if self.n_equal_steps < self.order + 1 {
                        self.refresh_prediction();
                    } else {
                        let ghost taken = *self;
                        self.control(error_norm, &scale_y, safety, solver);
                        assert(taken.accepted_from(old(self), y_new@));
                        assert(self.controlled_from(
                            &taken,
                            y_new@,
                            old(self).attempt_norm_spec(y_new@),
                            niter as int,
                        ));
                    }
                    true
                } else {
                    statistics.counters.number_of_error_test_failures = bump(
                        statistics.counters.number_of_error_test_failures,
                    );
                    self.reject_after_error_test(error_norm, safety, solver);
                    false
                }
            },
        }
    }

    /// What a call of [`Self::step`] that returned `r` made of `before`,
    /// where `counted_before` and `counted` are the statistics before and
    /// after it.
    ///
    /// Every attempt but an accepted one is counted as a failure. A step
    /// size that is too small at entry fails at once, with no attempt made
    /// and nothing changed; no other call ends without an attempt. A failure is `StepSizeTooSmall` at the time of entry, and
    /// comes with the step size too small at the state left or with
    /// `MAX_ATTEMPTS` attempts made. A success has taken one step: the time
    /// moved on by the size recorded as the last step size, and the order
    /// by one at most. The step was taken at the order of entry with an
    /// error that passes the test; unless the controller ran, order, step
    /// size and differences are still those of the step as taken, and else
    /// the differences are those rescaled for the new step size. Each
    /// attempt has the operator put its Jacobian together once at most.
    pub open spec fn stepped_from(
        &self,
        before: &Self,
        r: Result<(), PSError<T>>,
        counted_before: &BdfStatistics<T>,
        counted: &BdfStatistics<T>,
    ) -> bool {
        &&& self.op.eqn == before.op.eqn
        &&& self.rtol == before.rtol
        &&& self.atol == before.atol
        &&& counted.counters.at_least(&counted_before.counters)
        &&& counted.initial_step_size == counted_before.initial_step_size
        &&& self.attempts <= MAX_ATTEMPTS
        &&& before.op.number_of_jac_evals <= self.op.number_of_jac_evals
            <= before.op.number_of_jac_evals + self.attempts
        &&& counted_before.counters.has_room_for(self.attempts as int)
            ==> counted.counters.failures() - counted_before.counters.failures() + (if r is Ok {
            1int
        } else {
            0int
        }) == self.attempts
        &&& too_small_spec(before.state.h, before.state.t) ==> {
            &&& r is Err
            &&& self.attempts == 0
        }
        &&& self.attempts == 0 ==> {
            &&& r is Err
            &&& too_small_spec(before.state.h, before.state.t)
            &&& self.state == before.state
            &&& self.diff == before.diff
            &&& self.order == before.order
            &&& self.n_equal_steps == before.n_equal_steps
            &&& counted.counters == counted_before.counters
        }
        &&& r is Ok ==> {
            &&& self.attempts >= 1
            &&& counted.counters.number_of_steps == bump_spec(
                counted_before.counters.number_of_steps,
            )
            &&& self.state.t == before.state.t.add_spec(
                counted.final_step_size,
            )
            &&& before.order - 1 <= self.order <= before.order + 1
            &&& self.n_equal_steps > 0 ==> {
                &&& self.order == before.order
                &&& self.state.h == counted.final_step_size
                &&& self.error_test_passed()
            }
            &&& exists|taken: BdfCore<T, E>, factor: T|
                {
                    &&& #[trigger] self.left_from(&taken, factor)
                    &&& taken.error_test_passed()
                    &&& taken.order == before.order
                    &&& taken.state.h == counted.final_step_size
                }
            &&& counted.counters.no_failure_since(&counted_before.counters) ==> {
                &&& self.attempts == 1
                &&& counted.final_step_size == before.state.h
                &&& counted.counters.number_of_linear_solver_setups <= counted_before.counters.number_of_linear_solver_setups + 1
            }
        }
        &&& r matches Err(e) ==> {
            &&& e matches PSError::StepSizeTooSmall { t }
            &&& t == before.state.t
            &&& too_small_spec(self.state.h, self.state.t) || self.attempts == MAX_ATTEMPTS
            &&& self.state.t == before.state.t
            &&& self.state.y == before.state.y
            &&& self.order == before.order
            &&& counted.counters.number_of_steps == counted_before.counters.number_of_steps
            &&& counted.final_step_size == counted_before.final_step_size
        }
    }

    /// Advances the solution by one accepted step.
    ///
    /// The derivative is flagged out of date first, so that a Jacobian that
    /// the solver asks for during the step is evaluated at the current
    /// solution. Each attempt then solves the step equation at `t + h` from
    /// the prediction and hands the outcome to [`Self::after_solve`], until
    /// a step is taken.
    ///
    /// Before each attempt the step size is tested: the call fails with
    /// `StepSizeTooSmall`, with the time and the solution as they were, as
    /// soon as the step size is too small at the current time, or after
    /// `MAX_ATTEMPTS` attempts; so a step size that is too small at entry
    /// fails at once. The attempts made are recorded.
    ///
    /// On success the time has moved on by the size of the accepted step,
    /// which the statistics record as the last step size, and the order has
    /// moved by one at most. Unless the controller ran, order and step size
    /// are those of the accepted step and its error still passes the test.
    /// A step that is accepted at its first attempt sets the linear solver
    /// up at most once.
    pub fn step<S: LinearSolver<T>>(
        &mut self,
        solver: &mut NewtonNonlinearSolver<T, S>,
        statistics: &mut BdfStatistics<T>,
    ) -> (r: Result<(), PSError<T>>)
        requires
            old(self).ready(old(solver)),
        ensures
            final(self).ready(final(solver)),
            final(self).stepped_from(old(self), r, old(statistics), final(statistics)),
    {
        self.op.set_rhs_jacobian_is_stale();
        let mut attempts: usize = 0;
        loop
            invariant
                self.ready(solver),
                attempts <= MAX_ATTEMPTS,
                attempts > 0 ==> !too_small_spec(old(self).state.h, old(self).state.t),
                old(self).op.number_of_jac_evals <= self.op.number_of_jac_evals <= old(self).op.number_of_jac_evals + attempts,
                old(statistics).counters.has_room_for(attempts as int)
                    ==> statistics.counters.failures() - old(statistics).counters.failures()
                    == attempts,
                self.op.eqn == old(self).op.eqn,
                self.rtol == old(self).rtol,
                self.atol == old(self).atol,
                self.state.t == old(self).state.t,
                self.state.y == old(self).state.y,
                self.order == old(self).order,
                attempts == 0 ==> {
                    &&& self.state == old(self).state
                    &&& self.diff == old(self).diff
                    &&& self.n_equal_steps == old(self).n_equal_steps
                    &&& statistics.counters == old(statistics).counters
                },
                statistics.counters.at_least(&old(statistics).counters),
                statistics.counters.number_of_steps == old(statistics).counters.number_of_steps,
                statistics.initial_step_size == old(statistics).initial_step_size,
                statistics.final_step_size == old(statistics).final_step_size,
                statistics.counters.number_of_linear_solver_setups <= old(statistics).counters.number_of_linear_solver_setups + attempts,
                attempts > 0 ==> !statistics.counters.no_failure_since(
                    &old(statistics).counters,
                ),
            decreases MAX_ATTEMPTS - attempts,
        {
            if attempts >= MAX_ATTEMPTS || too_small(self.state.h, self.state.t) {
                self.attempts = attempts;
                return Err(PSError::StepSizeTooSmall { t: self.state.t });
            }
            attempts = attempts + 1;
            let t_new = self.state.t.add(self.state.h);
            let mut y_new = vector::copy(&self.y_predict);
            let solved = solver.solve_in_place(&mut self.op, &mut y_new, t_new);
            let niter = solver.niter();
            let fetches = solver.jacobian_fetches;
            let ghost tried = *self;
            let ghost solution = y_new@;
            if self.after_solve(solved, y_new, niter, fetches, solver, statistics) {
                self.attempts = attempts;
                proof {
                    if bump_spec(tried.n_equal_steps) < tried.order + 1 {
                        assert(self.left_from(&*self, T::one_spec()));
                    } else {
                        let taken = choose|taken: BdfCore<T, E>|
                            {
                                &&& #[trigger] taken.accepted_from(&tried, solution)
                                &&& taken.error_test_passed()
                                &&& self.controlled_from(
                                    &taken,
                                    solution,
                                    tried.attempt_norm_spec(solution),
                                    niter as int,
                                )
                            };
                        let choice = taken.choice_spec(
                            tried.attempt_norm_spec(solution),
                            scale_of_seq(solution, taken.rtol, taken.atol@),
                            safety_spec::<T>(niter as int),
                        );
                        assert(self.left_from(&taken, min_spec(T::ratio_spec(10, 1), choice.1)));
                    }
                }
                return Ok(());
            }
        }
    }
}

/// The BDF stepper: a Newton solver, and, once a problem is set, the
/// problem with the state of its integration.
pub struct Bdf<T: Scalar, E: OdeEquations<T>, S: LinearSolver<T>> {
    pub nonlinear_solver: NewtonNonlinearSolver<T, S>,
    pub ode_problem: Option<OdeSolverProblem<T, E>>,
    pub core: Option<BdfCore<T, E>>,
    pub statistics: BdfStatistics<T>,
}

impl<T: Scalar, E: OdeEquations<T>, S: LinearSolver<T>> Bdf<T, E, S> {
    /// The solver is sound, and a state that the stepper holds fits it.
    pub open spec fn wf(&self) -> bool {
        &&& self.nonlinear_solver.wf()
        &&& self.core matches Some(core) ==> core.ready(&self.nonlinear_solver)
    }

    /// A stepper on `nonlinear_solver` without a problem.
    pub fn new(nonlinear_solver: NewtonNonlinearSolver<T, S>) -> (r: Self)
        requires
            nonlinear_solver.wf(),
        ensures
            r.wf(),
            r.nonlinear_solver == nonlinear_solver,
            r.ode_problem is None,
            r.core is None,
            r.statistics.counters == Counters::zero_spec(),
            r.statistics.initial_step_size == T::zero_spec(),
            r.statistics.final_step_size == T::zero_spec(),
    {
        Bdf {
            nonlinear_solver,
            ode_problem: None,
            core: None,
            statistics: BdfStatistics {
                counters: Counters::zero(),
                initial_step_size: T::zero(),
                final_step_size: T::zero(),
            },
        }
    }

    /// Takes `problem` and starts its integration from `state`, as
    /// [`BdfCore::new`] does; the counts start from zero.
    pub fn set_problem(&mut self, state: OdeSolverState<T>, problem: OdeSolverProblem<T, E>)
        requires
            old(self).wf(),
            problem.wf(),
            state.y@.len() == problem.eqn.nstates_spec(),
            problem.eqn.nstates_spec() * problem.eqn.nstates_spec() <= usize::MAX,
            problem.eqn.nstates_spec() * (MAX_ORDER + 3) <= usize::MAX,
            problem.eqn.nstates_spec() <= i64::MAX,
        ensures
            final(self).wf(),
            final(self).ode_problem == Some(problem),
            final(self).statistics.counters == Counters::zero_spec(),
            final(self).core matches Some(core) && {
                &&& core.op.eqn == problem.eqn
                &&& core.order == 1
                &&& core.n_equal_steps == 0
                &&& core.state.t == state.t
                &&& core.state.y == state.y
                &&& core.state.h == initial_step_spec(
                    &*problem.eqn,
                    state.t,
                    state.y@,
                    state.h,
                    problem.rtol,
                    problem.atol@,
                )
                &&& core.diff.col(0) == state.y@
                &&& core.diff.col(1) == initial_difference_spec(
                    &*problem.eqn,
                    state.t,
                    state.y@,
                    state.h,
                )
                &&& forall|i: int, j: int|
                    core.diff.has(i, j) && j >= 2 ==> core.diff.at(i, j) == T::zero_spec()
                &&& core.rtol == problem.rtol
                &&& core.atol@ == problem.atol@
                &&& core.op.rhs_jacobian_is_stale
                &&& core.op.jacobian_is_stale
                &&& core.op.mass_jacobian_is_stale
                &&& core.op.number_of_jac_evals == 0
                &&& final(self).statistics.initial_step_size == core.state.h
                &&& final(self).statistics.final_step_size == core.state.h
            },
    {
        let core = BdfCore::new(&problem, state, &mut self.nonlinear_solver);
        self.statistics = BdfStatistics {
            counters: Counters::zero(),
            initial_step_size: core.state.h,
            final_step_size: core.state.h,
        };
        self.core = Some(core);
        self.ode_problem = Some(problem);
    }

    /// Advances the solution by one accepted step, as [`BdfCore::step`]
    /// does. Without a state the call fails with `StateNotSet`.
    pub fn step(&mut self) -> (r: Result<(), PSError<T>>)
        requires
            old(self).wf(),
        ensures
            final(self).wf(),
            final(self).ode_problem == old(self).ode_problem,
            final(self).statistics.counters.at_least(&old(self).statistics.counters),
            old(self).core is None <==> (r matches Err(e) && e is StateNotSet),
            old(self).core is None ==> final(self).core is None && final(self).statistics == old(self).statistics,
            old(self).core matches Some(before) ==> {
                &&& final(self).core matches Some(after)
                &&& after.stepped_from(&before, r, &old(self).statistics, &final(self).statistics)
            },
    {
        match self.core.take() {
            None => Err(PSError::StateNotSet),
            Some(core) => {
                let mut core = core;
                let r = core.step(&mut self.nonlinear_solver, &mut self.statistics);
                self.core = Some(core);
                r
            },
        }
    }

    /// The solution at `t`, as [`BdfCore::interpolate`] gives it. Without
    /// a state the call fails with `StateNotSet`.
    pub fn interpolate(&self, t: T) -> (r: Result<Vec<T>, PSError<T>>)
        requires
            self.wf(),
        ensures
            self.core is None <==> (r matches Err(e) && e is StateNotSet),
            self.core matches Some(core) ==> {
                &&& core.state.t.lt_spec(t) ==> (r matches Err(e) && e
                    is InterpolationBeforeCurrentTime)
                &&& !core.state.t.lt_spec(t) && t.lt_spec(core.state.t.sub_spec(core.state.h)) ==> (
                r matches Err(e) && e is InterpolationOutsideCurrentStep)
                &&& !core.state.t.lt_spec(t) && !t.lt_spec(core.state.t.sub_spec(core.state.h))
                    ==> (r matches Ok(v) && v@ == interpolate_spec(
                    &core.diff,
                    t,
                    core.state.t,
                    core.state.h,
                    core.order as int,
                ))
            },
    {
        match &self.core {
            None => Err(PSError::StateNotSet),
            Some(core) => core.interpolate(t),
        }
    }

    /// The current time, solution and step size, once a problem is set.
    pub fn state(&self) -> (r: Option<&OdeSolverState<T>>)
        ensures
            self.core is None <==> r is None,
            self.core matches Some(core) ==> r == Some(&core.state),
    {
        match &self.core {
            None => None,
            Some(core) => Some(&core.state),
        }
    }

    /// Hands the state out and leaves the stepper without one.
    pub fn take_state(&mut self) -> (r: Option<OdeSolverState<T>>)
        requires
            old(self).wf(),
        ensures
            final(self).wf(),
            final(self).core is None,
            final(self).ode_problem == old(self).ode_problem,
            final(self).statistics == old(self).statistics,
            final(self).nonlinear_solver == old(self).nonlinear_solver,
            old(self).core is None <==> r is None,
            old(self).core matches Some(core) ==> r == Some(core.state),
    {
        match self.core.take() {
            None => None,
            Some(core) => Some(core.state),
        }
    }

    /// The problem, once one is set.
    pub fn problem(&self) -> (r: Option<&OdeSolverProblem<T, E>>)
        ensures
            self.ode_problem is None <==> r is None,
            self.ode_problem matches Some(p) ==> r == Some(&p),
    {
        self.ode_problem.as_ref()
    }

    /// The order of the next step, once a problem is set.
    pub fn order(&self) -> (r: Option<usize>)
        ensures
            self.core is None <==> r is None,
            self.core matches Some(core) ==> r == Some(core.order),
    {
        match &self.core {
            None => None,
            Some(core) => Some(core.order),
        }
    }

    /// The counts of the run so far with its first and last step size.
    pub fn get_statistics(&self) -> (r: BdfStatistics<T>)
        ensures
            r == self.statistics,
    {
        BdfStatistics {
            counters: self.statistics.counters,
            initial_step_size: self.statistics.initial_step_size,
            final_step_size: self.statistics.final_step_size,
        }
    }
}

} // verus!
