//! The operator of the implicit BDF step, with its cached matrices.

use vstd::prelude::*;
use std::rc::Rc;
use crate::scalar::Scalar;
use crate::matrix::DenseMatrix;
use crate::op::{OdeEquations, NonLinearOp, jacobian_matrix, mass_matrix, unit_seq};
use crate::ode_solver::{OdeSolverProblem, bump, bump_spec};
use crate::vector;
use crate::vector::{add_seq, sub_seq, scale_seq};

verus! {

/// The step equation `F(y) = M (y - y0 + psi) - c f(t, y)` and its matrix
/// `J = M - c df/dy`.
///
/// The matrices of `M` and of `df/dy`, and `J` itself, are kept from one
/// call to the next; a flag beside each says whether it is out of date.
pub struct BdfCallable<T: Scalar, E: OdeEquations<T>> {
    pub eqn: Rc<E>,
    /// `psi - y0`.
    pub psi_neg_y0: Vec<T>,
    pub c: T,
    pub rhs_jac: DenseMatrix<T>,
    pub jac: DenseMatrix<T>,
    pub mass_jac: DenseMatrix<T>,
    pub rhs_jacobian_is_stale: bool,
    pub jacobian_is_stale: bool,
    pub mass_jacobian_is_stale: bool,
    pub number_of_jac_evals: usize,
}

/// Which of the three cached matrices are out of date.
#[derive(Clone, Copy, Debug, PartialEq, Eq, Structural)]
pub struct Staleness {
    /// The matrix of `df/dy`.
    pub rhs: bool,
    /// The matrix of `M`.
    pub mass: bool,
    /// `J = M - c df/dy`.
    pub jac: bool,
}

impl Staleness {
    /// Nothing is out of date: a call for the Jacobian evaluates nothing
    /// and returns the cached matrix.
    pub open spec fn fresh(self) -> bool {
        !self.rhs && !self.mass && !self.jac
    }

    /// The flags after a call for the Jacobian: all is up to date but a
    /// mass matrix that changes with time and was out of date before.
    pub open spec fn after_jacobian(self, mass_is_constant: bool) -> Staleness {
        Staleness { rhs: false, mass: self.mass && !mass_is_constant, jac: false }
    }

    /// The flags after the derivative was flagged out of date.
    pub open spec fn after_mark_rhs_stale(self) -> Staleness {
        Staleness { rhs: true, mass: self.mass, jac: true }
    }

    /// The flags after `c` was set: `J` is put together at once where both
    /// matrices are up to date, and out of date otherwise.
    pub open spec fn after_set_c(self) -> Staleness {
        Staleness { rhs: self.rhs, mass: self.mass, jac: self.jac || self.rhs || self.mass }
    }
}

/// With a constant mass matrix, a call for the Jacobian leaves nothing out
/// of date: the next call returns the cached matrix, also after `c` was
/// set in between, until the derivative is flagged out of date.
pub proof fn lemma_jacobian_is_cached(s: Staleness)
    ensures
        s.after_jacobian(true).fresh(),
        s.after_jacobian(true).after_set_c().fresh(),
        s.after_jacobian(true).after_jacobian(true) == s.after_jacobian(true),
        !s.after_jacobian(true).after_mark_rhs_stale().fresh(),
{
}

/// Entry `i` of `D[1] gamma[1] + ... + D[k] gamma[k]`, summed from the
/// left onto zero; `D[m]` is column `m` of `diff`.
pub open spec fn history_sum<T: Scalar>(diff: &DenseMatrix<T>, gamma: Seq<T>, k: int, i: int) -> T
    decreases k,
{
    if k <= 0 {
        T::zero_spec()
    } else {
        history_sum(diff, gamma, k - 1, i).add_spec(diff.at(i, k).mul_spec(gamma[k]))
    }
}

/// `alpha_k (D[1] gamma[1] + ... + D[k] gamma[k]) - y0`.
pub open spec fn psi_neg_y0_spec<T: Scalar>(
    diff: &DenseMatrix<T>,
    gamma: Seq<T>,
    alpha_k: T,
    k: int,
    y0: Seq<T>,
) -> Seq<T> {
    Seq::new(
        diff.nrows as nat,
        |i: int| history_sum(diff, gamma, k, i).mul_spec(alpha_k).sub_spec(y0[i]),
    )
}

/// `M(t) (x + psi_neg_y0) - f(t, x) c`.
pub open spec fn residual_spec<T: Scalar, E: OdeEquations<T>>(
    eqn: &E,
    psi_neg_y0: Seq<T>,
    c: T,
    x: Seq<T>,
    t: T,
) -> Seq<T> {
    sub_seq(eqn.mass_spec(t, add_seq(x, psi_neg_y0)), scale_seq(eqn.rhs_spec(t, x), c))
}

/// `M(t) v - (df/dy v) c`.
pub open spec fn residual_jac_mul_spec<T: Scalar, E: OdeEquations<T>>(
    eqn: &E,
    c: T,
    x: Seq<T>,
    t: T,
    v: Seq<T>,
) -> Seq<T> {
    sub_seq(eqn.mass_spec(t, v), scale_seq(eqn.jac_mul_spec(t, x, v), c))
}

impl<T: Scalar, E: OdeEquations<T>> BdfCallable<T, E> {
    pub open spec fn n(&self) -> usize {
        self.eqn.nstates_spec()
    }

    /// Whether `m` is a matrix of the operator's order.
    pub open spec fn square(&self, m: &DenseMatrix<T>) -> bool {
        m.wf() && m.nrows == self.n() && m.ncols == self.n()
    }

    /// The three flags.
    pub open spec fn staleness(&self) -> Staleness {
        Staleness {
            rhs: self.rhs_jacobian_is_stale,
            mass: self.mass_jacobian_is_stale,
            jac: self.jacobian_is_stale,
        }
    }

    /// The vector and the three matrices have the operator's order.
    pub open spec fn well_formed(&self) -> bool {
        &&& self.n() * self.n() <= usize::MAX
        &&& self.psi_neg_y0@.len() == self.n()
        &&& self.square(&self.rhs_jac)
        &&& self.square(&self.jac)
        &&& self.square(&self.mass_jac)
    }

    /// `jac` is `mass_jac - rhs_jac c`, entry by entry.
    pub open spec fn jac_is_combined(&self) -> bool {
        forall|i: int, j: int|
            self.jac.has(i, j) ==> self.jac.at(i, j) == self.mass_jac.at(i, j).sub_spec(
                self.rhs_jac.at(i, j).mul_spec(self.c),
            )
    }

    /// `mass_jac` is the matrix of `M(t)`.
    pub open spec fn mass_jac_is_at(&self, t: T) -> bool {
        forall|j: int|
            0 <= j < self.n() ==> #[trigger] self.mass_jac.col(j) == self.eqn.mass_spec(
                t,
                unit_seq::<T>(self.n(), j),
            )
    }

    /// `rhs_jac` is the matrix of `df/dy` at `(t, x)`.
    pub open spec fn rhs_jac_is_at(&self, x: Seq<T>, t: T) -> bool {
        forall|j: int|
            0 <= j < self.n() ==> #[trigger] self.rhs_jac.col(j) == self.eqn.jac_mul_spec(
                t,
                x,
                unit_seq::<T>(self.n(), j),
            )
    }

    /// The operator for `ode_problem`, with `c` zero, `psi - y0` zero, the
    /// three matrices zero and each of them flagged out of date.
    pub fn new(ode_problem: &OdeSolverProblem<T, E>) -> (r: Self)
        requires
            ode_problem.eqn.nstates_spec() * ode_problem.eqn.nstates_spec() <= usize::MAX,
        ensures
            r.well_formed(),
            r.eqn == ode_problem.eqn,
            r.c == T::zero_spec(),
            r.psi_neg_y0@ == Seq::new(r.n() as nat, |i: int| T::zero_spec()),
            r.staleness() == (Staleness { rhs: true, mass: true, jac: true }),
            r.number_of_jac_evals == 0,
            forall|i: int, j: int|
                r.jac.has(i, j) ==> r.jac.at(i, j) == T::zero_spec() && r.rhs_jac.at(i, j)
                    == T::zero_spec() && r.mass_jac.at(i, j) == T::zero_spec(),
    {
        let n = ode_problem.eqn.nstates();
        let c = T::zero();
        let psi_neg_y0 = vector::zeros::<T>(n);
        let rhs_jac = DenseMatrix::<T>::zeros(n, n);
        let jac = DenseMatrix::<T>::zeros(n, n);
        let mass_jac = DenseMatrix::<T>::zeros(n, n);
        let eqn = Rc::clone(&ode_problem.eqn);
        BdfCallable {
            eqn,
            psi_neg_y0,
            c,
            rhs_jac,
            jac,
            mass_jac,
            rhs_jacobian_is_stale: true,
            jacobian_is_stale: true,
            mass_jacobian_is_stale: true,
            number_of_jac_evals: 0,
        }
    }

    /// How often `J` was put together anew.
    pub fn number_of_jac_evals(&self) -> (r: usize)
        ensures
            r == self.number_of_jac_evals,
    {
        self.number_of_jac_evals
    }

    /// Sets `c = h alpha[order]`. With the matrices of `M` and `df/dy` both
    /// up to date, `J` is put together for the new `c` at once; otherwise
    /// `J` is flagged out of date.
    pub fn set_c(&mut self, h: T, alpha: &Vec<T>, order: usize)
        requires
            old(self).well_formed(),
            order < alpha@.len(),
        ensures
            final(self).well_formed(),
            final(self).c == h.mul_spec(alpha@[order as int]),
            final(self).eqn == old(self).eqn,
            final(self).psi_neg_y0 == old(self).psi_neg_y0,
            final(self).rhs_jac == old(self).rhs_jac,
            final(self).mass_jac == old(self).mass_jac,
            final(self).rhs_jacobian_is_stale == old(self).rhs_jacobian_is_stale,
            final(self).mass_jacobian_is_stale == old(self).mass_jacobian_is_stale,
            final(self).number_of_jac_evals == old(self).number_of_jac_evals,
            final(self).staleness() == old(self).staleness().after_set_c(),
            !old(self).rhs_jacobian_is_stale && !old(self).mass_jacobian_is_stale ==> final(self).jac_is_combined() && final(self).jacobian_is_stale == old(self).jacobian_is_stale,
            old(self).rhs_jacobian_is_stale || old(self).mass_jacobian_is_stale ==> final(self).jacobian_is_stale && final(self).jac == old(self).jac,
    {
        self.c = h.mul(alpha[order]);
        if !self.rhs_jacobian_is_stale && !self.mass_jacobian_is_stale {
            self.jac = self.mass_jac.sub_scaled(&self.rhs_jac, self.c);
        } else {
            self.jacobian_is_stale = true;
        }
    }

    /// Sets `psi - y0` from the first `order` differences in the columns of
    /// `diff`.
    pub fn set_psi_and_y0(
        &mut self,
        diff: &DenseMatrix<T>,
        gamma: &Vec<T>,
        alpha: &Vec<T>,
        order: usize,
        y0: &Vec<T>,
    )
        requires
            old(self).well_formed(),
            diff.wf(),
            diff.nrows == old(self).n(),
            order < diff.ncols,
            order < gamma@.len(),
            order < alpha@.len(),
            y0@.len() == old(self).n(),
        ensures
            final(self).well_formed(),
            final(self).psi_neg_y0@ == psi_neg_y0_spec(
                diff,
                gamma@,
                alpha@[order as int],
                order as int,
                y0@,
            ),
            final(self).eqn == old(self).eqn,
            final(self).c == old(self).c,
            final(self).rhs_jac == old(self).rhs_jac,
            final(self).mass_jac == old(self).mass_jac,
            final(self).jac == old(self).jac,
            final(self).staleness() == old(self).staleness(),
            final(self).number_of_jac_evals == old(self).number_of_jac_evals,
    {
        let n = diff.nrows();
        let mut acc = vector::zeros::<T>(n);
        let mut m: usize = 1;
        while m <= order
            invariant
                1 <= m <= order + 1,
                diff.wf(),
                diff.nrows == n,
                order < diff.ncols,
                order < gamma@.len(),
                acc@.len() == n,
                forall|i: int| 0 <= i < n ==> acc@[i] == history_sum(diff, gamma@, m - 1, i),
            decreases order + 1 - m,
        {
            let col = diff.column(m);
            acc = vector::axpy(&acc, gamma[m], &col);
            m = m + 1;
        }
        let scaled = vector::scale(&acc, alpha[order]);
        let psi = vector::sub(&scaled, y0);
        self.psi_neg_y0 = psi;
    }

    /// Flags the matrix of `df/dy`, and `J` with it, as out of date.
    pub fn set_rhs_jacobian_is_stale(&mut self)
        ensures
            final(self).staleness() == old(self).staleness().after_mark_rhs_stale(),
            final(self).eqn == old(self).eqn,
            final(self).c == old(self).c,
            final(self).psi_neg_y0 == old(self).psi_neg_y0,
            final(self).rhs_jac == old(self).rhs_jac,
            final(self).mass_jac == old(self).mass_jac,
            final(self).jac == old(self).jac,
            final(self).number_of_jac_evals == old(self).number_of_jac_evals,
    {
        self.rhs_jacobian_is_stale = true;
        self.jacobian_is_stale = true;
    }
}

impl<T: Scalar, E: OdeEquations<T>> NonLinearOp<T> for BdfCallable<T, E> {
    type Setting = (Rc<E>, Seq<T>, T);

    open spec fn nstates_spec(&self) -> usize {
        self.eqn.nstates_spec()
    }

    open spec fn call_spec(&self, x: Seq<T>, t: T) -> Seq<T> {
        residual_spec(&*self.eqn, self.psi_neg_y0@, self.c, x, t)
    }

    open spec fn jac_mul_spec(&self, x: Seq<T>, t: T, v: Seq<T>) -> Seq<T> {
        residual_jac_mul_spec(&*self.eqn, self.c, x, t, v)
    }

    /// The shapes fit, and `J` is either put together from the matrices
    /// held or flagged out of date.
    open spec fn wf(&self) -> bool {
        self.well_formed() && (self.jacobian_is_stale || self.jac_is_combined())
    }

    open spec fn jacobians_spec(&self) -> usize {
        self.number_of_jac_evals
    }

    open spec fn setting(&self) -> (Rc<E>, Seq<T>, T) {
        (self.eqn, self.psi_neg_y0@, self.c)
    }

    fn nstates(&self) -> (n: usize) {
        self.eqn.nstates()
    }

    fn call_inplace(&self, x: &Vec<T>, t: T, y: &mut Vec<T>) {
        let f = self.eqn.rhs(t, x);
        let tmp = vector::add(x, &self.psi_neg_y0);
        let m = self.eqn.mass(t, &tmp);
        let cf = vector::scale(&f, self.c);
        *y = vector::sub(&m, &cf);
    }

    fn jac_mul_inplace(&self, x: &Vec<T>, t: T, v: &Vec<T>, y: &mut Vec<T>) {
        let jv = self.eqn.jac_mul(t, x, v);
        let m = self.eqn.mass(t, v);
        let cjv = vector::scale(&jv, self.c);
        *y = vector::sub(&m, &cjv);
    }

    /// Brings what is out of date up to date, the matrix of `M` first, then
    /// that of `df/dy`, then `J` where either was evaluated or `J` was
    /// flagged, and returns `J`. With nothing out of date nothing is
    /// evaluated and `J` is the cached matrix. A constant `M` is evaluated
    /// once and then stays up to date.
    fn jacobian(&mut self, x: &Vec<T>, t: T) -> (r: DenseMatrix<T>)
        ensures
            final(self).eqn == old(self).eqn,
            final(self).c == old(self).c,
            final(self).psi_neg_y0 == old(self).psi_neg_y0,
            r.data@ == final(self).jac.data@,
            final(self).staleness() == old(self).staleness().after_jacobian(
                old(self).eqn.mass_is_constant_spec(),
            ),
            old(self).mass_jacobian_is_stale ==> final(self).mass_jac_is_at(t),
            !old(self).mass_jacobian_is_stale ==> final(self).mass_jac == old(self).mass_jac,
            old(self).rhs_jacobian_is_stale ==> final(self).rhs_jac_is_at(x@, t),
            !old(self).rhs_jacobian_is_stale ==> final(self).rhs_jac == old(self).rhs_jac,
            old(self).mass_jacobian_is_stale || old(self).rhs_jacobian_is_stale || old(self).jacobian_is_stale ==> final(self).jac_is_combined() && final(self).number_of_jac_evals == bump_spec(old(self).number_of_jac_evals),
            old(self).staleness().fresh() ==> {
                &&& final(self).jac == old(self).jac
                &&& r.data@ == old(self).jac.data@
                &&& final(self).rhs_jac == old(self).rhs_jac
                &&& final(self).mass_jac == old(self).mass_jac
                &&& final(self).number_of_jac_evals == old(self).number_of_jac_evals
            },
    {
        let mut refreshed = false;
        if self.mass_jacobian_is_stale {
            self.mass_jac = mass_matrix(&*self.eqn, t);
            self.mass_jacobian_is_stale = !self.eqn.mass_is_constant();
            refreshed = true;
        }
        if self.rhs_jacobian_is_stale {
            self.rhs_jac = jacobian_matrix(&*self.eqn, t, x);
            self.rhs_jacobian_is_stale = false;
            refreshed = true;
        }
        if refreshed || self.jacobian_is_stale {
            self.jac = self.mass_jac.sub_scaled(&self.rhs_jac, self.c);
            self.jacobian_is_stale = false;
            self.number_of_jac_evals = bump(self.number_of_jac_evals);
        }
        self.jac.copy()
    }

    /// Flags the matrix of `df/dy`, and `J` with it, as out of date, so
    /// that the next call for the Jacobian evaluates the derivative anew;
    /// the matrices held, `c` and the count stay as they are.
    fn set_jacobian_is_stale(&mut self)
        ensures
            final(self).staleness() == old(self).staleness().after_mark_rhs_stale(),
            final(self).eqn == old(self).eqn,
            final(self).c == old(self).c,
            final(self).psi_neg_y0 == old(self).psi_neg_y0,
            final(self).rhs_jac == old(self).rhs_jac,
            final(self).mass_jac == old(self).mass_jac,
            final(self).jac == old(self).jac,
            final(self).number_of_jac_evals == old(self).number_of_jac_evals,
    {
        self.set_rhs_jacobian_is_stale();
    }
}

} // verus!
