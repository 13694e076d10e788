//! The capabilities that a problem and an operator offer to the solvers.

use vstd::prelude::*;
use crate::scalar::Scalar;
use crate::matrix::DenseMatrix;
use crate::vector;

pub mod sdirk;

verus! {

/// The equations `M(t) y' = f(t, y)` with their start value.
///
/// Every capability is a function of its arguments alone, named by its
/// specification twin.
pub trait OdeEquations<T: Scalar> {
    spec fn nstates_spec(&self) -> usize;

    /// `f(t, y)`.
    spec fn rhs_spec(&self, t: T, y: Seq<T>) -> Seq<T>;

    /// The action of `df/dy` at `(t, y)` on `v`.
    spec fn jac_mul_spec(&self, t: T, y: Seq<T>, v: Seq<T>) -> Seq<T>;

    /// `M(t) v`.
    spec fn mass_spec(&self, t: T, v: Seq<T>) -> Seq<T>;

    /// The state at the start time `t`.
    spec fn init_spec(&self, t: T) -> Seq<T>;

    /// Whether `M` is the same at every time.
    spec fn mass_is_constant_spec(&self) -> bool;

    fn nstates(&self) -> (n: usize)
        ensures
            n == self.nstates_spec(),
    ;

    fn rhs(&self, t: T, y: &Vec<T>) -> (r: Vec<T>)
        requires
            y@.len() == self.nstates_spec(),
        ensures
            r@ == self.rhs_spec(t, y@),
            r@.len() == self.nstates_spec(),
    ;

    fn jac_mul(&self, t: T, y: &Vec<T>, v: &Vec<T>) -> (r: Vec<T>)
        requires
            y@.len() == self.nstates_spec(),
            v@.len() == self.nstates_spec(),
        ensures
            r@ == self.jac_mul_spec(t, y@, v@),
            r@.len() == self.nstates_spec(),
    ;

    fn mass(&self, t: T, v: &Vec<T>) -> (r: Vec<T>)
        requires
            v@.len() == self.nstates_spec(),
        ensures
            r@ == self.mass_spec(t, v@),
            r@.len() == self.nstates_spec(),
    ;

    fn init(&self, t: T) -> (r: Vec<T>)
        ensures
            r@ == self.init_spec(t),
            r@.len() == self.nstates_spec(),
    ;

    fn mass_is_constant(&self) -> (r: bool)
        ensures
            r == self.mass_is_constant_spec(),
    ;
}

/// An operator `F` whose root a nonlinear solver looks for.
pub trait NonLinearOp<T: Scalar> {
    spec fn nstates_spec(&self) -> usize;

    /// `F(x)` at time `t`.
    spec fn call_spec(&self, x: Seq<T>, t: T) -> Seq<T>;

    /// The action of the Jacobian of `F` at `(x, t)` on `v`.
    spec fn jac_mul_spec(&self, x: Seq<T>, t: T, v: Seq<T>) -> Seq<T>;

    /// What the operator needs of itself before any call.
    spec fn wf(&self) -> bool;

    /// How often the operator has put its Jacobian matrix together.
    spec fn jacobians_spec(&self) -> usize;

    /// What determines `F`: all of the operator but its caches and counters.
    type Setting;

    spec fn setting(&self) -> Self::Setting;

    fn nstates(&self) -> (n: usize)
        requires
            self.wf(),
        ensures
            n == self.nstates_spec(),
    ;

    fn call_inplace(&self, x: &Vec<T>, t: T, y: &mut Vec<T>)
        requires
            self.wf(),
            x@.len() == self.nstates_spec(),
        ensures
            final(y)@ == self.call_spec(x@, t),
            final(y)@.len() == self.nstates_spec(),
    ;

    fn jac_mul_inplace(&self, x: &Vec<T>, t: T, v: &Vec<T>, y: &mut Vec<T>)
        requires
            self.wf(),
            x@.len() == self.nstates_spec(),
            v@.len() == self.nstates_spec(),
        ensures
            final(y)@ == self.jac_mul_spec(x@, t, v@),
            final(y)@.len() == self.nstates_spec(),
    ;

    /// The Jacobian matrix of `F` at `(x, t)`, from the cache where it is
    /// fresh; it is put together once at most.
    fn jacobian(&mut self, x: &Vec<T>, t: T) -> (r: DenseMatrix<T>)
        requires
            old(self).wf(),
            x@.len() == old(self).nstates_spec(),
        ensures
            final(self).wf(),
            final(self).setting() == old(self).setting(),
            final(self).nstates_spec() == old(self).nstates_spec(),
            old(self).jacobians_spec() <= final(self).jacobians_spec() <= old(self).jacobians_spec()
                + 1,
            r.wf(),
            r.nrows == old(self).nstates_spec(),
            r.ncols == old(self).nstates_spec(),
    ;

    /// Asks that the next [`Self::jacobian`] evaluates the derivative anew.
    fn set_jacobian_is_stale(&mut self)
        requires
            old(self).wf(),
        ensures
            final(self).wf(),
            final(self).setting() == old(self).setting(),
            final(self).nstates_spec() == old(self).nstates_spec(),
            final(self).jacobians_spec() == old(self).jacobians_spec(),
    ;
}

/// The `j`-th unit vector of length `n`.
pub open spec fn unit_seq<T: Scalar>(n: usize, j: int) -> Seq<T> {
    Seq::new(
        n as nat,
        |i: int|
            if i == j {
                T::one_spec()
            } else {
                T::zero_spec()
            },
    )
}

/// The `j`-th unit vector of length `n`.
pub fn unit_vector<T: Scalar>(n: usize, j: usize) -> (r: Vec<T>)
    requires
        j < n,
    ensures
        r@ == unit_seq::<T>(n, j as int),
{
    let mut r = vector::zeros::<T>(n);
    r.set(j, T::one());
    r
}

/// The matrix of `df/dy` at `(t, y)`: column `j` is the action of the
/// derivative on the `j`-th unit vector.
pub fn jacobian_matrix<T: Scalar, E: OdeEquations<T>>(eqn: &E, t: T, y: &Vec<T>) -> (r:
    DenseMatrix<T>)
    requires
        y@.len() == eqn.nstates_spec(),
        eqn.nstates_spec() * eqn.nstates_spec() <= usize::MAX,
    ensures
        r.wf(),
        r.nrows == eqn.nstates_spec(),
        r.ncols == eqn.nstates_spec(),
        forall|j: int|
            0 <= j < eqn.nstates_spec() ==> #[trigger] r.col(j) == eqn.jac_mul_spec(
                t,
                y@,
                unit_seq::<T>(eqn.nstates_spec(), j),
            ),
{
    let n = eqn.nstates();
    let mut r = DenseMatrix::<T>::zeros(n, n);
    let mut j: usize = 0;
    while j < n
        invariant
            j <= n,
            n == eqn.nstates_spec(),
            y@.len() == n,
            r.wf(),
            r.nrows == n,
            r.ncols == n,
            forall|k: int|
                0 <= k < j ==> #[trigger] r.col(k) == eqn.jac_mul_spec(t, y@, unit_seq::<T>(n, k)),
        decreases n - j,
    {
        let e = unit_vector::<T>(n, j);
        let c = eqn.jac_mul(t, y, &e);
        let ghost before = r;
        r.set_column(j, &c);
        proof {
            assert forall|k: int| 0 <= k < j implies #[trigger] r.col(k) == eqn.jac_mul_spec(
                t,
                y@,
                unit_seq::<T>(n, k),
            ) by {
                assert(r.col(k) =~= before.col(k));
            }
        }
        j = j + 1;
    }
    r
}

/// The matrix of `M(t)`: column `j` is `M(t)` times the `j`-th unit vector.
pub fn mass_matrix<T: Scalar, E: OdeEquations<T>>(eqn: &E, t: T) -> (r: DenseMatrix<T>)
    requires
        eqn.nstates_spec() * eqn.nstates_spec() <= usize::MAX,
    ensures
        r.wf(),
        r.nrows == eqn.nstates_spec(),
        r.ncols == eqn.nstates_spec(),
        forall|j: int|
            0 <= j < eqn.nstates_spec() ==> #[trigger] r.col(j) == eqn.mass_spec(
                t,
                unit_seq::<T>(eqn.nstates_spec(), j),
            ),
{
    let n = eqn.nstates();
    let mut r = DenseMatrix::<T>::zeros(n, n);
    let mut j: usize = 0;
    while j < n
        invariant
            j <= n,
            n == eqn.nstates_spec(),
            r.wf(),
            r.nrows == n,
            r.ncols == n,
            forall|k: int|
                0 <= k < j ==> #[trigger] r.col(k) == eqn.mass_spec(t, unit_seq::<T>(n, k)),
        decreases n - j,
    {
        let e = unit_vector::<T>(n, j);
        let c = eqn.mass(t, &e);
        let ghost before = r;
        r.set_column(j, &c);
        proof {
            assert forall|k: int| 0 <= k < j implies #[trigger] r.col(k) == eqn.mass_spec(
                t,
                unit_seq::<T>(n, k),
            ) by {
                assert(r.col(k) =~= before.col(k));
            }
        }
        j = j + 1;
    }
    r
}

} // verus!
