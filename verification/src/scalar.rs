//! The scalar field that vectors and matrices are built over.

use vstd::prelude::*;

verus! {

/// A real scalar with the arithmetic that the integrator needs.
///
/// Each operation has a specification twin; the executable method returns
/// exactly what its twin names. Nothing is assumed of the twins themselves
/// (in particular no associativity or exactness), so whatever is proved of a
/// routine holds of rounded arithmetic as well as of exact arithmetic.
pub trait Scalar: Sized + Copy {
    spec fn zero_spec() -> Self;

    spec fn one_spec() -> Self;

    /// The scalar nearest to `num / den`.
    spec fn ratio_spec(num: i64, den: u64) -> Self;

    /// The gap between one and the next larger scalar.
    spec fn epsilon_spec() -> Self;

    spec fn add_spec(self, rhs: Self) -> Self;

    spec fn sub_spec(self, rhs: Self) -> Self;

    spec fn mul_spec(self, rhs: Self) -> Self;

    spec fn div_spec(self, rhs: Self) -> Self;

    spec fn neg_spec(self) -> Self;

    spec fn abs_spec(self) -> Self;

    spec fn sqrt_spec(self) -> Self;

    /// `self` raised to the power `exp`.
    spec fn pow_spec(self, exp: Self) -> Self;

    /// `e` raised to the power `self`.
    spec fn exp_spec(self) -> Self;

    spec fn le_spec(self, rhs: Self) -> bool;

    spec fn lt_spec(self, rhs: Self) -> bool;

    spec fn finite_spec(self) -> bool;

    fn zero() -> (r: Self)
        ensures
            r == Self::zero_spec(),
    ;

    fn one() -> (r: Self)
        ensures
            r == Self::one_spec(),
    ;

    fn ratio(num: i64, den: u64) -> (r: Self)
        ensures
            r == Self::ratio_spec(num, den),
    ;

    fn epsilon() -> (r: Self)
        ensures
            r == Self::epsilon_spec(),
    ;

    fn add(self, rhs: Self) -> (r: Self)
        ensures
            r == self.add_spec(rhs),
    ;

    fn sub(self, rhs: Self) -> (r: Self)
        ensures
            r == self.sub_spec(rhs),
    ;

    fn mul(self, rhs: Self) -> (r: Self)
        ensures
            r == self.mul_spec(rhs),
    ;

    fn div(self, rhs: Self) -> (r: Self)
        ensures
            r == self.div_spec(rhs),
    ;

    fn neg(self) -> (r: Self)
        ensures
            r == self.neg_spec(),
    ;

    fn abs(self) -> (r: Self)
        ensures
            r == self.abs_spec(),
    ;

    fn sqrt(self) -> (r: Self)
        ensures
            r == self.sqrt_spec(),
    ;

    fn pow(self, exp: Self) -> (r: Self)
        ensures
            r == self.pow_spec(exp),
    ;

    fn exp(self) -> (r: Self)
        ensures
            r == self.exp_spec(),
    ;

    fn le(self, rhs: Self) -> (r: bool)
        ensures
            r == self.le_spec(rhs),
    ;

    fn lt(self, rhs: Self) -> (r: bool)
        ensures
            r == self.lt_spec(rhs),
    ;

    fn finite(self) -> (r: bool)
        ensures
            r == self.finite_spec(),
    ;
}

/// The larger of two scalars by `le`; the second where they do not compare.
pub open spec fn max_spec<T: Scalar>(a: T, b: T) -> T {
    if b.le_spec(a) {
        a
    } else {
        b
    }
}

/// The smaller of two scalars by `le`; the second where they do not compare.
pub open spec fn min_spec<T: Scalar>(a: T, b: T) -> T {
    if a.le_spec(b) {
        a
    } else {
        b
    }
}

pub fn max<T: Scalar>(a: T, b: T) -> (r: T)
    ensures
        r == max_spec(a, b),
{
    if b.le(a) {
        a
    } else {
        b
    }
}

pub fn min<T: Scalar>(a: T, b: T) -> (r: T)
    ensures
        r == min_spec(a, b),
{
    if a.le(b) {
        a
    } else {
        b
    }
}

} // verus!
