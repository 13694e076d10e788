//! The convergence test of the Newton iteration.

use vstd::prelude::*;
use crate::scalar::Scalar;
use crate::vector;
use crate::vector::{scale_of_seq, weighted_norm_spec, all_finite};

pub mod newton;

verus! {

/// What the monitor says of an iteration after one more correction.
#[derive(Clone, Copy, Debug, PartialEq, Eq, Structural)]
pub enum ConvergenceStatus {
    Converged,
    Diverged,
    Continue,
    MaximumIterations,
}

/// The monitor of one Newton iteration: the scale of its start value, the
/// norm of the last correction and the number of corrections seen.
pub struct Convergence<T: Scalar> {
    pub rtol: T,
    pub atol: Vec<T>,
    /// The bound on the estimated error of a converged iterate.
    pub tol: T,
    pub max_iter: usize,
    pub iter: usize,
    pub scale: Vec<T>,
    pub old_norm: Option<T>,
}

/// The bound that a converged iterate's estimated error stays under: 0.33.
pub open spec fn newton_tol_spec<T: Scalar>() -> T {
    T::ratio_spec(33, 100)
}

/// The estimated error after a correction of norm `norm`: `norm` itself for
/// the first correction, `rate / (1 - rate) * norm` with the rate
/// `norm / old` after an earlier correction of norm `old`.
pub open spec fn estimate_spec<T: Scalar>(norm: T, old_norm: Option<T>) -> T {
    match old_norm {
        None => norm,
        Some(old) => {
            let rate = norm.div_spec(old);
            rate.div_spec(T::one_spec().sub_spec(rate)).mul_spec(norm)
        },
    }
}

/// Whether the correction grew: the rate `norm / old` is at least one.
pub open spec fn grew_spec<T: Scalar>(norm: T, old_norm: Option<T>) -> bool {
    match old_norm {
        None => false,
        Some(old) => T::one_spec().le_spec(norm.div_spec(old)),
    }
}

/// The verdict on the `iter`-th correction, of norm `norm`, where `finite`
/// says that the iterate and the correction are finite. Divergence is
/// looked for first, then convergence, then the iteration limit.
pub open spec fn status_spec<T: Scalar>(
    finite: bool,
    norm: T,
    old_norm: Option<T>,
    tol: T,
    iter: int,
    max_iter: int,
) -> ConvergenceStatus {
    if !finite || grew_spec(norm, old_norm) {
        ConvergenceStatus::Diverged
    } else if estimate_spec(norm, old_norm).le_spec(tol) {
        ConvergenceStatus::Converged
    } else if iter >= max_iter {
        ConvergenceStatus::MaximumIterations
    } else {
        ConvergenceStatus::Continue
    }
}

impl<T: Scalar> Convergence<T> {
    /// The scale has one entry for each tolerance.
    pub open spec fn wf(&self) -> bool {
        &&& self.scale@.len() == self.atol@.len()
        &&& self.atol@.len() <= i64::MAX
        &&& self.iter <= self.max_iter
    }

    /// A monitor that has seen no correction; its scale is `atol` until
    /// [`Self::reset`] gives it a start value.
    pub fn new(rtol: T, atol: Vec<T>, max_iter: usize) -> (r: Self)
        requires
            atol@.len() <= i64::MAX,
        ensures
            r.wf(),
            r.rtol == rtol,
            r.atol@ == atol@,
            r.scale@ == atol@,
            r.tol == newton_tol_spec::<T>(),
            r.max_iter == max_iter,
            r.iter == 0,
            r.old_norm is None,
    {
        let scale = vector::copy(&atol);
        Convergence {
            rtol,
            atol,
            tol: T::ratio(33, 100),
            max_iter,
            iter: 0,
            scale,
            old_norm: None,
        }
    }

    /// Starts a new iteration from `x0`: the scale becomes
    /// `|x0| rtol + atol` and the corrections seen are forgotten.
    pub fn reset(&mut self, x0: &Vec<T>)
        requires
            old(self).wf(),
            x0@.len() == old(self).atol@.len(),
        ensures
            final(self).wf(),
            final(self).scale@ == scale_of_seq(x0@, old(self).rtol, old(self).atol@),
            final(self).iter == 0,
            final(self).old_norm is None,
            final(self).rtol == old(self).rtol,
            final(self).atol == old(self).atol,
            final(self).tol == old(self).tol,
            final(self).max_iter == old(self).max_iter,
    {
        self.scale = vector::scale_of(x0, self.rtol, &self.atol);
        self.iter = 0;
        self.old_norm = None;
    }

    /// Judges the iterate `x` reached by the correction `dx`.
    ///
    /// The correction is counted and its weighted norm taken; the verdict
    /// is that of [`status_spec`]. Only where the iteration is to continue
    /// does the norm become the one that the next rate is measured against.
    pub fn check_new_iteration(&mut self, dx: &Vec<T>, x: &Vec<T>) -> (r: ConvergenceStatus)
        requires
            old(self).wf(),
            old(self).iter < old(self).max_iter || old(self).max_iter == 0,
            dx@.len() == old(self).scale@.len(),
        ensures
            final(self).wf(),
            r == status_spec(
                all_finite(x@) && all_finite(dx@),
                weighted_norm_spec(dx@, old(self).scale@),
                old(self).old_norm,
                old(self).tol,
                old(self).iter + 1,
                old(self).max_iter as int,
            ),
            r is Continue ==> final(self).iter == old(self).iter + 1 && final(self).iter < final(self).max_iter && final(self).old_norm == Some(
                weighted_norm_spec(dx@, old(self).scale@),
            ),
            !(r is Continue) ==> final(self).iter == old(self).iter && final(self).old_norm
                == old(self).old_norm,
            final(self).rtol == old(self).rtol,
            final(self).atol == old(self).atol,
            final(self).scale == old(self).scale,
            final(self).tol == old(self).tol,
            final(self).max_iter == old(self).max_iter,
    {
        let finite = vector::is_finite(x) && vector::is_finite(dx);
        let norm = vector::weighted_norm(dx, &self.scale);
        let grew = match self.old_norm {
            None => false,
            Some(old) => T::one().le(norm.div(old)),
        };
        if !finite || grew {
            return ConvergenceStatus::Diverged;
        }
        let estimate = match self.old_norm {
            None => norm,
            Some(old) => {
                let rate = norm.div(old);
                rate.div(T::one().sub(rate)).mul(norm)
            },
        };
        if estimate.le(self.tol) {
            return ConvergenceStatus::Converged;
        }
        if self.max_iter == 0 || self.iter + 1 >= self.max_iter {
            return ConvergenceStatus::MaximumIterations;
        }
        self.iter = self.iter + 1;
        self.old_norm = Some(norm);
        ConvergenceStatus::Continue
    }
}

} // verus!
