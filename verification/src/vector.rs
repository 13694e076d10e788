//! Dense vectors: the elementwise kernels and the weighted norm.

use vstd::prelude::*;
use crate::scalar::Scalar;

verus! {

/// `a + b`, elementwise.
pub open spec fn add_seq<T: Scalar>(a: Seq<T>, b: Seq<T>) -> Seq<T> {
    Seq::new(a.len(), |i: int| a[i].add_spec(b[i]))
}

/// `a - b`, elementwise.
pub open spec fn sub_seq<T: Scalar>(a: Seq<T>, b: Seq<T>) -> Seq<T> {
    Seq::new(a.len(), |i: int| a[i].sub_spec(b[i]))
}

/// `a * s`, each element times the scalar.
pub open spec fn scale_seq<T: Scalar>(a: Seq<T>, s: T) -> Seq<T> {
    Seq::new(a.len(), |i: int| a[i].mul_spec(s))
}

/// `y + x * a`, elementwise.
pub open spec fn axpy_seq<T: Scalar>(y: Seq<T>, a: T, x: Seq<T>) -> Seq<T> {
    Seq::new(y.len(), |i: int| y[i].add_spec(x[i].mul_spec(a)))
}

/// `|a| * rtol + atol`, elementwise: the scale that errors are measured in.
pub open spec fn scale_of_seq<T: Scalar>(a: Seq<T>, rtol: T, atol: Seq<T>) -> Seq<T> {
    Seq::new(a.len(), |i: int| a[i].abs_spec().mul_spec(rtol).add_spec(atol[i]))
}

/// The sum of `(v[i] / w[i])^2` over the first `n` elements, from the left.
pub open spec fn sum_sq_ratio<T: Scalar>(v: Seq<T>, w: Seq<T>, n: int) -> T
    decreases n,
{
    if n <= 0 {
        T::zero_spec()
    } else {
        let q = v[n - 1].div_spec(w[n - 1]);
        sum_sq_ratio(v, w, n - 1).add_spec(q.mul_spec(q))
    }
}

/// The scalar that stands for a count: `n / 1`.
pub open spec fn count_spec<T: Scalar>(n: usize) -> T {
    T::ratio_spec(n as i64, 1)
}

/// The weighted root-mean-square norm `sqrt(sum((v[i] / w[i])^2) / n)`.
pub open spec fn weighted_norm_spec<T: Scalar>(v: Seq<T>, w: Seq<T>) -> T {
    sum_sq_ratio(v, w, v.len() as int).div_spec(count_spec::<T>(v.len() as usize)).sqrt_spec()
}

/// Every element is finite.
pub open spec fn all_finite<T: Scalar>(v: Seq<T>) -> bool {
    forall|i: int| 0 <= i < v.len() ==> (#[trigger] v[i]).finite_spec()
}

/// A vector of `n` copies of `value`.
pub fn from_element<T: Scalar>(n: usize, value: T) -> (r: Vec<T>)
    ensures
        r@ == Seq::new(n as nat, |i: int| value),
{
    let mut r: Vec<T> = Vec::new();
    let mut i: usize = 0;
    while i < n
        invariant
            i <= n,
            r@.len() == i,
            forall|j: int| 0 <= j < i ==> r@[j] == value,
        decreases n - i,
    {
        r.push(value);
        i = i + 1;
    }
    r
}

/// A vector of `n` zeros.
pub fn zeros<T: Scalar>(n: usize) -> (r: Vec<T>)
    ensures
        r@ == Seq::new(n as nat, |i: int| T::zero_spec()),
{
    from_element(n, T::zero())
}

/// A copy of `a`.
pub fn copy<T: Scalar>(a: &Vec<T>) -> (r: Vec<T>)
    ensures
        r@ == a@,
{
    let mut r: Vec<T> = Vec::new();
    let mut i: usize = 0;
    while i < a.len()
        invariant
            i <= a.len(),
            r@.len() == i,
            forall|j: int| 0 <= j < i ==> r@[j] == a@[j],
        decreases a.len() - i,
    {
        r.push(a[i]);
        i = i + 1;
    }
    r
}

/// `a + b`.
pub fn add<T: Scalar>(a: &Vec<T>, b: &Vec<T>) -> (r: Vec<T>)
    requires
        a@.len() == b@.len(),
    ensures
        r@ == add_seq(a@, b@),
{
    let mut r: Vec<T> = Vec::new();
    let mut i: usize = 0;
    while i < a.len()
        invariant
            i <= a.len(),
            a@.len() == b@.len(),
            r@.len() == i,
            forall|j: int| 0 <= j < i ==> r@[j] == a@[j].add_spec(b@[j]),
        decreases a.len() - i,
    {
        r.push(a[i].add(b[i]));
        i = i + 1;
    }
    r
}

/// `a - b`.
pub fn sub<T: Scalar>(a: &Vec<T>, b: &Vec<T>) -> (r: Vec<T>)
    requires
        a@.len() == b@.len(),
    ensures
        r@ == sub_seq(a@, b@),
{
    let mut r: Vec<T> = Vec::new();
    let mut i: usize = 0;
    while i < a.len()
        invariant
            i <= a.len(),
            a@.len() == b@.len(),
            r@.len() == i,
            forall|j: int| 0 <= j < i ==> r@[j] == a@[j].sub_spec(b@[j]),
        decreases a.len() - i,
    {
        r.push(a[i].sub(b[i]));
        i = i + 1;
    }
    r
}

/// `a * s`.
pub fn scale<T: Scalar>(a: &Vec<T>, s: T) -> (r: Vec<T>)
    ensures
        r@ == scale_seq(a@, s),
{
    let mut r: Vec<T> = Vec::new();
    let mut i: usize = 0;
    while i < a.len()
        invariant
            i <= a.len(),
            r@.len() == i,
            forall|j: int| 0 <= j < i ==> r@[j] == a@[j].mul_spec(s),
        decreases a.len() - i,
    {
        r.push(a[i].mul(s));
        i = i + 1;
    }
    r
}

/// `y + x * a`.
pub fn axpy<T: Scalar>(y: &Vec<T>, a: T, x: &Vec<T>) -> (r: Vec<T>)
    requires
        x@.len() == y@.len(),
    ensures
        r@ == axpy_seq(y@, a, x@),
{
    let mut r: Vec<T> = Vec::new();
    let mut i: usize = 0;
    while i < y.len()
        invariant
            i <= y.len(),
            x@.len() == y@.len(),
            r@.len() == i,
            forall|j: int| 0 <= j < i ==> r@[j] == y@[j].add_spec(x@[j].mul_spec(a)),
        decreases y.len() - i,
    {
        r.push(y[i].add(x[i].mul(a)));
        i = i + 1;
    }
    r
}

/// `|a| * rtol + atol`: the error scale at the state `a`.
pub fn scale_of<T: Scalar>(a: &Vec<T>, rtol: T, atol: &Vec<T>) -> (r: Vec<T>)
    requires
        atol@.len() == a@.len(),
    ensures
        r@ == scale_of_seq(a@, rtol, atol@),
{
    let mut r: Vec<T> = Vec::new();
    let mut i: usize = 0;
    while i < a.len()
        invariant
            i <= a.len(),
            atol@.len() == a@.len(),
            r@.len() == i,
            forall|j: int| 0 <= j < i ==> r@[j] == a@[j].abs_spec().mul_spec(rtol).add_spec(atol@[j]),
        decreases a.len() - i,
    {
        r.push(a[i].abs().mul(rtol).add(atol[i]));
        i = i + 1;
    }
    r
}

/// The weighted root-mean-square norm of `v` in the scale `w`.
pub fn weighted_norm<T: Scalar>(v: &Vec<T>, w: &Vec<T>) -> (r: T)
    requires
        w@.len() == v@.len(),
        v@.len() <= i64::MAX,
    ensures
        r == weighted_norm_spec(v@, w@),
{
    let mut acc = T::zero();
    let mut i: usize = 0;
    while i < v.len()
        invariant
            i <= v.len(),
            w@.len() == v@.len(),
            acc == sum_sq_ratio(v@, w@, i as int),
        decreases v.len() - i,
    {
        let q = v[i].div(w[i]);
        acc = acc.add(q.mul(q));
        i = i + 1;
    }
    let n = T::ratio(v.len() as i64, 1);
    acc.div(n).sqrt()
}

/// Whether every element of `v` is finite.
pub fn is_finite<T: Scalar>(v: &Vec<T>) -> (r: bool)
    ensures
        r == all_finite(v@),
{
    let mut i: usize = 0;
    while i < v.len()
        invariant
            i <= v.len(),
            forall|j: int| 0 <= j < i ==> (#[trigger] v@[j]).finite_spec(),
        decreases v.len() - i,
    {
        if !v[i].finite() {
            return false;
        }
        i = i + 1;
    }
    true
}

} // verus!
