//! The coefficients of the BDF formulas of the orders one to five.

use vstd::prelude::*;
use crate::scalar::Scalar;

verus! {

/// The highest order that the stepper takes.
pub const MAX_ORDER: usize = 5;

/// The scalar that stands for the index `i`.
pub open spec fn index_spec<T: Scalar>(i: int) -> T {
    T::ratio_spec(i as i64, 1)
}

pub fn index_scalar<T: Scalar>(i: usize) -> (r: T)
    requires
        i <= i64::MAX,
    ensures
        r == index_spec::<T>(i as int),
{
    T::ratio(i as i64, 1)
}

/// The coefficient `kappa` of order `i`: 0, -0.1850, -1/9, -0.0823,
/// -0.0415, 0 for the orders 0 to 5.
pub open spec fn kappa_spec<T: Scalar>(i: int) -> T {
    if i == 1 {
        T::ratio_spec(-1850i64, 10000)
    } else if i == 2 {
        T::ratio_spec(-1i64, 9)
    } else if i == 3 {
        T::ratio_spec(-823i64, 10000)
    } else if i == 4 {
        T::ratio_spec(-415i64, 10000)
    } else {
        T::zero_spec()
    }
}

/// `gamma_0 = 0`, `gamma_i = gamma_{i-1} + 1/i`.
pub open spec fn gamma_spec<T: Scalar>(i: int) -> T
    decreases i,
{
    if i <= 0 {
        T::zero_spec()
    } else {
        gamma_spec::<T>(i - 1).add_spec(T::ratio_spec(1, i as u64))
    }
}

/// `alpha_i = 1 / ((1 - kappa_i) gamma_i)` for an order `i` from 1, and zero for order 0.
pub open spec fn alpha_spec<T: Scalar>(i: int) -> T {
    if i <= 0 {
        T::zero_spec()
    } else {
        T::one_spec().div_spec(
            T::one_spec().sub_spec(kappa_spec::<T>(i)).mul_spec(gamma_spec::<T>(i)),
        )
    }
}

/// `error_const_i = kappa_i gamma_i + 1/(i+1)` for an order `i` from 1, and zero for order 0.
pub open spec fn error_const_spec<T: Scalar>(i: int) -> T {
    if i <= 0 {
        T::zero_spec()
    } else {
        kappa_spec::<T>(i).mul_spec(gamma_spec::<T>(i)).add_spec(T::ratio_spec(1, (i + 1) as u64))
    }
}

pub fn kappa<T: Scalar>(i: usize) -> (r: T)
    ensures
        r == kappa_spec::<T>(i as int),
{
    if i == 1 {
        T::ratio(-1850, 10000)
    } else if i == 2 {
        T::ratio(-1, 9)
    } else if i == 3 {
        T::ratio(-823, 10000)
    } else if i == 4 {
        T::ratio(-415, 10000)
    } else {
        T::zero()
    }
}

/// The three tables of coefficients, each for the orders 0 to `MAX_ORDER`.
pub struct Coefficients<T: Scalar> {
    pub alpha: Vec<T>,
    pub gamma: Vec<T>,
    pub error_const: Vec<T>,
}

impl<T: Scalar> Coefficients<T> {
    /// Each table holds its coefficient of every order.
    pub open spec fn wf(&self) -> bool {
        &&& self.alpha@.len() == MAX_ORDER + 1
        &&& self.gamma@.len() == MAX_ORDER + 1
        &&& self.error_const@.len() == MAX_ORDER + 1
        &&& forall|i: int| 0 <= i <= MAX_ORDER ==> #[trigger] self.alpha@[i] == alpha_spec::<T>(i)
        &&& forall|i: int| 0 <= i <= MAX_ORDER ==> #[trigger] self.gamma@[i] == gamma_spec::<T>(i)
        &&& forall|i: int|
            0 <= i <= MAX_ORDER ==> #[trigger] self.error_const@[i] == error_const_spec::<T>(i)
    }

    pub fn new() -> (r: Self)
        ensures
            r.wf(),
    {
        let mut alpha: Vec<T> = Vec::new();
        let mut gamma: Vec<T> = Vec::new();
        let mut error_const: Vec<T> = Vec::new();
        alpha.push(T::zero());
        gamma.push(T::zero());
        error_const.push(T::zero());
        let mut i: usize = 1;
        while i <= MAX_ORDER
            invariant
                1 <= i <= MAX_ORDER + 1,
                alpha@.len() == i,
                gamma@.len() == i,
                error_const@.len() == i,
                forall|m: int| 0 <= m < i ==> #[trigger] alpha@[m] == alpha_spec::<T>(m),
                forall|m: int| 0 <= m < i ==> #[trigger] gamma@[m] == gamma_spec::<T>(m),
                forall|m: int|
                    0 <= m < i ==> #[trigger] error_const@[m] == error_const_spec::<T>(m),
            decreases MAX_ORDER + 1 - i,
        {
            let g = gamma[i - 1].add(T::ratio(1, i as u64));
            let k = kappa::<T>(i);
            alpha.push(T::one().div(T::one().sub(k).mul(g)));
            error_const.push(k.mul(g).add(T::ratio(1, (i + 1) as u64)));
            gamma.push(g);
            i = i + 1;
        }
        Coefficients { alpha, gamma, error_const }
    }
}

} // verus!
