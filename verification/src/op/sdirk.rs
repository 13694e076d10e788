//! The operator of one stage of a diagonally implicit Runge-Kutta step.

use vstd::prelude::*;
use std::rc::Rc;
use crate::scalar::Scalar;
use crate::matrix::DenseMatrix;
use crate::op::{OdeEquations, NonLinearOp, jacobian_matrix, mass_matrix, unit_seq};
use crate::ode_solver::{OdeSolverProblem, bump, bump_spec};
use crate::vector;
use crate::vector::{axpy_seq, sub_seq, scale_seq};

verus! {

/// The stage equation `F(y) = M y - f(t, phi + c y)` and its matrix
/// `J = M - c df/dy`, with the same three cached matrices and flags as the
/// operator of the BDF step.
pub struct SdirkCallable<T: Scalar, E: OdeEquations<T>> {
    pub eqn: Rc<E>,
    pub c: T,
    pub phi: Vec<T>,
    pub jac: DenseMatrix<T>,
    pub rhs_jac: DenseMatrix<T>,
    pub mass_jac: DenseMatrix<T>,
    pub rhs_jacobian_is_stale: bool,
    pub jacobian_is_stale: bool,
    pub mass_jacobian_is_stale: bool,
    pub number_of_jac_evals: usize,
}

/// `M(t) x - f(t, phi + x c)`.
pub open spec fn stage_residual_spec<T: Scalar, E: OdeEquations<T>>(
    eqn: &E,
    phi: Seq<T>,
    c: T,
    x: Seq<T>,
    t: T,
) -> Seq<T> {
    sub_seq(eqn.mass_spec(t, x), eqn.rhs_spec(t, axpy_seq(phi, c, x)))
}

impl<T: Scalar, E: OdeEquations<T>> SdirkCallable<T, E> {
    pub open spec fn n(&self) -> usize {
        self.eqn.nstates_spec()
    }

    /// Whether `m` is a matrix of the operator's order.
    pub open spec fn square(&self, m: &DenseMatrix<T>) -> bool {
        m.wf() && m.nrows == self.n() && m.ncols == self.n()
    }

    /// The three matrices have the operator's order.
    pub open spec fn well_formed(&self) -> bool {
        &&& self.n() * self.n() <= usize::MAX
        &&& self.square(&self.rhs_jac)
        &&& self.square(&self.jac)
        &&& self.square(&self.mass_jac)
    }

    /// `jac` is `mass_jac - rhs_jac c`, entry by entry.
    pub open spec fn jac_is_combined(&self) -> bool {
        forall|i: int, j: int|
            self.jac.has(i, j) ==> self.jac.at(i, j) == self.mass_jac.at(i, j).sub_spec(
                self.rhs_jac.at(i, j).mul_spec(self.c),
            )
    }

    /// `mass_jac` is the matrix of `M(t)`.
    pub open spec fn mass_jac_is_at(&self, t: T) -> bool {
        forall|j: int|
            0 <= j < self.n() ==> #[trigger] self.mass_jac.col(j) == self.eqn.mass_spec(
                t,
                unit_seq::<T>(self.n(), j),
            )
    }

    /// `rhs_jac` is the matrix of `df/dy` at `(t, x)`.
    pub open spec fn rhs_jac_is_at(&self, x: Seq<T>, t: T) -> bool {
        forall|j: int|
            0 <= j < self.n() ==> #[trigger] self.rhs_jac.col(j) == self.eqn.jac_mul_spec(
                t,
                x,
                unit_seq::<T>(self.n(), j),
            )
    }

    /// The operator for `ode_problem`, with `c` zero, `phi` zero, the three
    /// matrices zero and each of them flagged out of date.
    pub fn new(ode_problem: &OdeSolverProblem<T, E>) -> (r: Self)
        requires
            ode_problem.eqn.nstates_spec() * ode_problem.eqn.nstates_spec() <= usize::MAX,
        ensures
            r.well_formed(),
            r.eqn == ode_problem.eqn,
            r.c == T::zero_spec(),
            r.phi@ == Seq::new(r.n() as nat, |i: int| T::zero_spec()),
            r.rhs_jacobian_is_stale,
            r.jacobian_is_stale,
            r.mass_jacobian_is_stale,
            r.number_of_jac_evals == 0,
    {
        let n = ode_problem.eqn.nstates();
        SdirkCallable {
            eqn: Rc::clone(&ode_problem.eqn),
            c: T::zero(),
            phi: vector::zeros::<T>(n),
            jac: DenseMatrix::<T>::zeros(n, n),
            rhs_jac: DenseMatrix::<T>::zeros(n, n),
            mass_jac: DenseMatrix::<T>::zeros(n, n),
            rhs_jacobian_is_stale: true,
            jacobian_is_stale: true,
            mass_jacobian_is_stale: true,
            number_of_jac_evals: 0,
        }
    }

    /// How often the Jacobian was asked for.
    pub fn number_of_jac_evals(&self) -> (r: usize)
        ensures
            r == self.number_of_jac_evals,
    {
        self.number_of_jac_evals
    }

    /// Sets `c = h alpha`. With the matrices of `M` and `df/dy` both up to
    /// date, `J` is put together for the new `c` at once; otherwise `J` is
    /// flagged out of date.
    pub fn set_c(&mut self, h: T, alpha: T)
        requires
            old(self).well_formed(),
        ensures
            final(self).well_formed(),
            final(self).c == h.mul_spec(alpha),
            final(self).eqn == old(self).eqn,
            final(self).phi == old(self).phi,
            final(self).rhs_jac == old(self).rhs_jac,
            final(self).mass_jac == old(self).mass_jac,
            final(self).rhs_jacobian_is_stale == old(self).rhs_jacobian_is_stale,
            final(self).mass_jacobian_is_stale == old(self).mass_jacobian_is_stale,
            final(self).number_of_jac_evals == old(self).number_of_jac_evals,
            !old(self).rhs_jacobian_is_stale && !old(self).mass_jacobian_is_stale ==> final(self).jac_is_combined() && final(self).jacobian_is_stale == old(self).jacobian_is_stale,
            old(self).rhs_jacobian_is_stale || old(self).mass_jacobian_is_stale ==> final(self).jacobian_is_stale && final(self).jac == old(self).jac,
    {
        self.c = h.mul(alpha);
        if !self.rhs_jacobian_is_stale && !self.mass_jacobian_is_stale {
            self.jac = self.mass_jac.sub_scaled(&self.rhs_jac, self.c);
        } else {
            self.jacobian_is_stale = true;
        }
    }

    /// Replaces `phi`.
    pub fn set_phi(&mut self, phi: Vec<T>)
        ensures
            final(self).phi == phi,
            final(self).eqn == old(self).eqn,
            final(self).c == old(self).c,
            final(self).jac == old(self).jac,
            final(self).rhs_jac == old(self).rhs_jac,
            final(self).mass_jac == old(self).mass_jac,
            final(self).rhs_jacobian_is_stale == old(self).rhs_jacobian_is_stale,
            final(self).jacobian_is_stale == old(self).jacobian_is_stale,
            final(self).mass_jacobian_is_stale == old(self).mass_jacobian_is_stale,
            final(self).number_of_jac_evals == old(self).number_of_jac_evals,
    {
        self.phi = phi;
    }

    /// Flags the matrix of `df/dy`, and `J` with it, as out of date.
    pub fn set_rhs_jacobian_is_stale(&mut self)
        ensures
            final(self).rhs_jacobian_is_stale,
            final(self).jacobian_is_stale,
            final(self).mass_jacobian_is_stale == old(self).mass_jacobian_is_stale,
            final(self).eqn == old(self).eqn,
            final(self).c == old(self).c,
            final(self).phi == old(self).phi,
            final(self).rhs_jac == old(self).rhs_jac,
            final(self).mass_jac == old(self).mass_jac,
            final(self).jac == old(self).jac,
            final(self).number_of_jac_evals == old(self).number_of_jac_evals,
    {
        self.rhs_jacobian_is_stale = true;
        self.jacobian_is_stale = true;
    }
}

impl<T: Scalar, E: OdeEquations<T>> NonLinearOp<T> for SdirkCallable<T, E> {
    type Setting = (Rc<E>, Seq<T>, T);

    open spec fn nstates_spec(&self) -> usize {
        self.eqn.nstates_spec()
    }

    open spec fn call_spec(&self, x: Seq<T>, t: T) -> Seq<T> {
        stage_residual_spec(&*self.eqn, self.phi@, self.c, x, t)
    }

    open spec fn jac_mul_spec(&self, x: Seq<T>, t: T, v: Seq<T>) -> Seq<T> {
        sub_seq(self.eqn.mass_spec(t, v), scale_seq(self.eqn.jac_mul_spec(t, x, v), self.c))
    }

    /// The shapes fit, and `J` is either put together from the matrices
    /// held or flagged out of date.
    open spec fn wf(&self) -> bool {
        &&& self.well_formed()
        &&& self.phi@.len() == self.n()
        &&& self.jacobian_is_stale || self.jac_is_combined()
    }

    open spec fn jacobians_spec(&self) -> usize {
        self.number_of_jac_evals
    }

    open spec fn setting(&self) -> (Rc<E>, Seq<T>, T) {
        (self.eqn, self.phi@, self.c)
    }

    fn nstates(&self) -> (n: usize) {
        self.eqn.nstates()
    }

    fn call_inplace(&self, x: &Vec<T>, t: T, y: &mut Vec<T>) {
        let tmp = vector::axpy(&self.phi, self.c, x);
        let f = self.eqn.rhs(t, &tmp);
        let m = self.eqn.mass(t, x);
        *y = vector::sub(&m, &f);
    }

    fn jac_mul_inplace(&self, x: &Vec<T>, t: T, v: &Vec<T>, y: &mut Vec<T>) {
        let m = self.eqn.mass(t, v);
        let jv = self.eqn.jac_mul(t, x, v);
        let cjv = vector::scale(&jv, self.c);
        *y = vector::sub(&m, &cjv);
    }

    /// Brings what is out of date up to date, the matrix of `M` first, then
    /// that of `df/dy` at `(t, x)`, then `J`, and returns `J`; a matrix
    /// that is up to date is kept. Every call is counted.
    fn jacobian(&mut self, x: &Vec<T>, t: T) -> (r: DenseMatrix<T>)
        ensures
            final(self).eqn == old(self).eqn,
            final(self).c == old(self).c,
            final(self).phi == old(self).phi,
            r.data@ == final(self).jac.data@,
            !final(self).rhs_jacobian_is_stale,
            !final(self).jacobian_is_stale,
            !final(self).mass_jacobian_is_stale,
            final(self).jac_is_combined(),
            old(self).mass_jacobian_is_stale ==> final(self).mass_jac_is_at(t),
            !old(self).mass_jacobian_is_stale ==> final(self).mass_jac == old(self).mass_jac,
            old(self).rhs_jacobian_is_stale ==> final(self).rhs_jac_is_at(x@, t),
            !old(self).rhs_jacobian_is_stale ==> final(self).rhs_jac == old(self).rhs_jac,
            final(self).number_of_jac_evals == bump_spec(old(self).number_of_jac_evals),
            !old(self).mass_jacobian_is_stale && !old(self).rhs_jacobian_is_stale && !old(self).jacobian_is_stale ==> final(self).jac == old(self).jac,
    {
        if self.mass_jacobian_is_stale {
            self.mass_jac = mass_matrix(&*self.eqn, t);
            self.mass_jacobian_is_stale = false;
            self.jacobian_is_stale = true;
        }
        if self.rhs_jacobian_is_stale {
            self.rhs_jac = jacobian_matrix(&*self.eqn, t, x);
            self.rhs_jacobian_is_stale = false;
            self.jacobian_is_stale = true;
        }
        if self.jacobian_is_stale {
            self.jac = self.mass_jac.sub_scaled(&self.rhs_jac, self.c);
            self.jacobian_is_stale = false;
        }
        self.number_of_jac_evals = bump(self.number_of_jac_evals);
        self.jac.copy()
    }

    /// Flags the matrix of `df/dy`, and `J` with it, as out of date, so
    /// that the next call for the Jacobian evaluates the derivative anew;
    /// the matrices held, `c`, `phi` and the count stay as they are.
    fn set_jacobian_is_stale(&mut self)
        ensures
            final(self).rhs_jacobian_is_stale,
            final(self).jacobian_is_stale,
            final(self).mass_jacobian_is_stale == old(self).mass_jacobian_is_stale,
            final(self).eqn == old(self).eqn,
            final(self).c == old(self).c,
            final(self).phi == old(self).phi,
            final(self).rhs_jac == old(self).rhs_jac,
            final(self).mass_jac == old(self).mass_jac,
            final(self).jac == old(self).jac,
            final(self).number_of_jac_evals == old(self).number_of_jac_evals,
    {
        self.set_rhs_jacobian_is_stale();
    }
}

} // verus!
