//! The table of backward differences: how it predicts, how it takes an
//! accepted step in, how it is rescaled when the step size changes, and the
//! interpolant through it.

use vstd::prelude::*;
use crate::scalar::Scalar;
use crate::matrix::DenseMatrix;
use crate::ode_solver::coefficients::{MAX_ORDER, index_spec, index_scalar};
use crate::vector;

verus! {

/// Entry `(i, j)` of the matrix `R(k, factor)` that rescales the differences
/// when the step size changes by `factor`: the first row is one, the rest
/// of the first column zero, and
/// `R[i, j] = R[i-1, j] (i - 1 - factor j) / i` below and beside them.
pub open spec fn r_entry_spec<T: Scalar>(factor: T, i: int, j: int) -> T
    decreases i,
{
    if i <= 0 {
        T::one_spec()
    } else if j <= 0 {
        T::zero_spec()
    } else {
        r_entry_spec(factor, i - 1, j).mul_spec(
            index_spec::<T>(i - 1).sub_spec(factor.mul_spec(index_spec::<T>(j))),
        ).div_spec(index_spec::<T>(i))
    }
}

/// Entry `(i, j)` of `U(k)`, the matrix `R(k, 1)` of an unchanged step size.
pub open spec fn u_entry_spec<T: Scalar>(i: int, j: int) -> T {
    r_entry_spec(T::one_spec(), i, j)
}

/// `m` is `R(order, factor)`.
pub open spec fn is_r_matrix<T: Scalar>(m: &DenseMatrix<T>, order: int, factor: T) -> bool {
    &&& m.wf()
    &&& m.nrows == order + 1
    &&& m.ncols == order + 1
    &&& forall|i: int, j: int| m.has(i, j) ==> m.at(i, j) == r_entry_spec(factor, i, j)
}

/// `U(k)` is `R(k, 1)`: a matrix that is `R(k, 1)` holds the entries of
/// `U`, and so does its leading block of any lower order.
pub proof fn lemma_u_is_r_at_one<T: Scalar>(m: &DenseMatrix<T>, k: int, lower: int)
    requires
        is_r_matrix(m, k, T::one_spec()),
        0 <= lower <= k,
    ensures
        forall|i: int, j: int| m.has(i, j) ==> m.at(i, j) == u_entry_spec::<T>(i, j),
        forall|i: int, j: int|
            0 <= i <= lower && 0 <= j <= lower ==> m.at(i, j) == r_entry_spec(T::one_spec(), i, j),
{
}

/// Entry `i` of the predicted state `D[0] + D[1] + ... + D[k]`, summed from
/// the left; `D[m]` is column `m` of `diff`.
pub open spec fn predict_entry<T: Scalar>(diff: &DenseMatrix<T>, k: int, i: int) -> T
    decreases k,
{
    if k <= 0 {
        diff.at(i, 0)
    } else {
        predict_entry(diff, k - 1, i).add_spec(diff.at(i, k))
    }
}

/// The predicted state `D[0] + ... + D[k]`.
pub open spec fn predict_spec<T: Scalar>(diff: &DenseMatrix<T>, k: int) -> Seq<T> {
    Seq::new(diff.nrows as nat, |i: int| predict_entry(diff, k, i))
}

/// The matrix `R(order, factor)`.
pub fn compute_r<T: Scalar>(order: usize, factor: T) -> (r: DenseMatrix<T>)
    requires
        order <= MAX_ORDER,
    ensures
        is_r_matrix(&r, order as int, factor),
{
    let n = order + 1;
    assert(n * n <= 36) by (nonlinear_arith)
        requires
            0 <= n <= 6,
    ;
    let mut r = DenseMatrix::<T>::zeros(n, n);
    let mut j: usize = 0;
    while j < n
        invariant
            j <= n,
            n == order + 1,
            r.wf(),
            r.nrows == n,
            r.ncols == n,
            forall|i2: int, j2: int|
                r.has(i2, j2) ==> r.at(i2, j2) == (if i2 == 0 && j2 < j {
                    T::one_spec()
                } else {
                    T::zero_spec()
                }),
        decreases n - j,
    {
        r.set(0, j, T::one());
        j = j + 1;
    }
    let mut i: usize = 1;
    while i < n
        invariant
            1 <= i <= n,
            n == order + 1,
            order <= MAX_ORDER,
            r.wf(),
            r.nrows == n,
            r.ncols == n,
            forall|i2: int, j2: int|
                r.has(i2, j2) && i2 < i ==> r.at(i2, j2) == r_entry_spec(factor, i2, j2),
            forall|i2: int, j2: int| r.has(i2, j2) && i2 >= i ==> r.at(i2, j2) == T::zero_spec(),
        decreases n - i,
    {
        let mut j: usize = 1;
        while j < n
            invariant
                1 <= j <= n,
                1 <= i < n,
                n == order + 1,
                order <= MAX_ORDER,
                r.wf(),
                r.nrows == n,
                r.ncols == n,
                forall|i2: int, j2: int|
                    r.has(i2, j2) && (i2 < i || (i2 == i && j2 < j)) ==> r.at(i2, j2)
                        == r_entry_spec(factor, i2, j2),
                forall|i2: int, j2: int|
                    r.has(i2, j2) && (i2 > i || (i2 == i && j2 >= j)) ==> r.at(i2, j2)
                        == T::zero_spec(),
            decreases n - j,
        {
            let above = r.get(i - 1, j);
            let num = index_scalar::<T>(i - 1).sub(factor.mul(index_scalar::<T>(j)));
            let e = above.mul(num).div(index_scalar::<T>(i));
            r.set(i, j, e);
            j = j + 1;
        }
        i = i + 1;
    }
    r
}

/// The predicted state `D[0] + ... + D[order]`.
pub fn predict<T: Scalar>(diff: &DenseMatrix<T>, order: usize) -> (r: Vec<T>)
    requires
        diff.wf(),
        order < diff.ncols,
    ensures
        r@ == predict_spec(diff, order as int),
{
    let mut acc = diff.column(0);
    let mut m: usize = 1;
    while m <= order
        invariant
            1 <= m <= order + 1,
            diff.wf(),
            order < diff.ncols,
            acc@.len() == diff.nrows,
            forall|i: int| 0 <= i < diff.nrows ==> acc@[i] == predict_entry(diff, m - 1, i),
        decreases order + 1 - m,
    {
        let col = diff.column(m);
        acc = vector::add(&acc, &col);
        m = m + 1;
    }
    acc
}

/// `1 dot + 0 0`: what a matrix product makes of the dot product `dot`.
pub open spec fn product_term<T: Scalar>(dot: T) -> T {
    T::one_spec().mul_spec(dot).add_spec(T::zero_spec().mul_spec(T::zero_spec()))
}

/// The dot product of row `i` of `R(k, factor)` with column `j` of `U(k)`,
/// over their first `n` entries, from the left.
pub open spec fn ru_dot<T: Scalar>(factor: T, i: int, j: int, n: int) -> T
    decreases n,
{
    if n <= 0 {
        T::zero_spec()
    } else {
        ru_dot(factor, i, j, n - 1).add_spec(
            r_entry_spec(factor, i, n - 1).mul_spec(u_entry_spec::<T>(n - 1, j)),
        )
    }
}

/// Entry `(i, j)` of the product `R(k, factor) U(k)`.
pub open spec fn ru_entry_spec<T: Scalar>(factor: T, k: int, i: int, j: int) -> T {
    product_term(ru_dot(factor, i, j, k + 1))
}

/// The dot product of the differences `D[0..n]` at state `i` with column
/// `j` of `R(k, factor) U(k)`, from the left.
pub open spec fn rescaled_dot<T: Scalar>(
    diff: &DenseMatrix<T>,
    factor: T,
    k: int,
    i: int,
    j: int,
    n: int,
) -> T
    decreases n,
{
    if n <= 0 {
        T::zero_spec()
    } else {
        rescaled_dot(diff, factor, k, i, j, n - 1).add_spec(
            diff.at(i, n - 1).mul_spec(ru_entry_spec(factor, k, n - 1, j)),
        )
    }
}

/// Entry `i` of the `j`-th difference after the step size changed by
/// `factor` at order `k`: the differences `D[0..=k]` times
/// `R(k, factor) U(k)`; the differences above `k` stay.
pub open spec fn rescaled_entry<T: Scalar>(
    diff: &DenseMatrix<T>,
    factor: T,
    k: int,
    i: int,
    j: int,
) -> T {
    if j <= k {
        product_term(rescaled_dot(diff, factor, k, i, j, k + 1))
    } else {
        diff.at(i, j)
    }
}

/// A row of a matrix that is `R(k, factor)` has with a column of one that
/// is `U(k)` the dot product that [`ru_dot`] names.
pub proof fn lemma_ru_dot<T: Scalar>(
    r: &DenseMatrix<T>,
    u: &DenseMatrix<T>,
    factor: T,
    k: int,
    i: int,
    j: int,
    n: int,
)
    requires
        is_r_matrix(r, k, factor),
        is_r_matrix(u, k, T::one_spec()),
        0 <= i <= k,
        0 <= j <= k,
        0 <= n <= k + 1,
    ensures
        r.row_dot(i, u.col(j), n) == ru_dot(factor, i, j, n),
    decreases n,
{
    if n > 0 {
        lemma_ru_dot(r, u, factor, k, i, j, n - 1);
    }
}

/// A row of the leading block of `diff` has with a column of a matrix that
/// is `R(k, factor) U(k)` the dot product that [`rescaled_dot`] names.
pub proof fn lemma_rescaled_dot<T: Scalar>(
    block: &DenseMatrix<T>,
    ru: &DenseMatrix<T>,
    diff: &DenseMatrix<T>,
    factor: T,
    k: int,
    i: int,
    j: int,
    n: int,
)
    requires
        0 <= k,
        ru.wf(),
        ru.nrows == k + 1,
        ru.ncols == k + 1,
        forall|a: int, b: int| ru.has(a, b) ==> ru.at(a, b) == ru_entry_spec(factor, k, a, b),
        forall|m: int| 0 <= m <= k ==> block.at(i, m) == diff.at(i, m),
        0 <= j <= k,
        0 <= n <= k + 1,
    ensures
        block.row_dot(i, ru.col(j), n) == rescaled_dot(diff, factor, k, i, j, n),
    decreases n,
{
    if n > 0 {
        lemma_rescaled_dot(block, ru, diff, factor, k, i, j, n - 1);
    }
}

/// Rescales the differences `D[0..=order]` for a step size changed by
/// `factor`: they become `D[0..=order] R(order, factor) U(order)`, where
/// `u` holds `U` of the highest order. The differences above stay.
pub fn rescale_differences<T: Scalar>(
    diff: &mut DenseMatrix<T>,
    u: &DenseMatrix<T>,
    order: usize,
    factor: T,
)
    requires
        old(diff).wf(),
        1 <= order <= MAX_ORDER,
        order < old(diff).ncols,
        is_r_matrix(u, MAX_ORDER as int, T::one_spec()),
    ensures
        final(diff).wf(),
        final(diff).same_shape(old(diff)),
        forall|i: int, j: int|
            old(diff).has(i, j) ==> final(diff).at(i, j) == rescaled_entry(
                old(diff),
                factor,
                order as int,
                i,
                j,
            ),
{
    let n = diff.nrows();
    let r = compute_r(order, factor);
    let uk = u.leading_block(order + 1, order + 1);
    assert((order + 1) * (order + 1) <= 36) by (nonlinear_arith)
        requires
            1 <= order <= 5,
    ;
    let ru = r.mat_mul(&uk);
    proof {
        assert forall|a: int, b: int| ru.has(a, b) implies ru.at(a, b) == ru_entry_spec(
            factor,
            order as int,
            a,
            b,
        ) by {
            lemma_ru_dot(&r, &uk, factor, order as int, a, b, order as int + 1);
        }
        assert(n * (order + 1) <= n * diff.ncols) by (nonlinear_arith)
            requires
                order + 1 <= diff.ncols,
                n >= 0,
        ;
        assert(diff.data@.len() == diff.data.len());
    }
    let block = diff.leading_block(n, order + 1);
    let product = block.mat_mul(&ru);
    proof {
        assert forall|i: int, j: int| product.has(i, j) implies product.at(i, j) == rescaled_entry(
            old(diff),
            factor,
            order as int,
            i,
            j,
        ) by {
            lemma_rescaled_dot(
                &block,
                &ru,
                old(diff),
                factor,
                order as int,
                i,
                j,
                order as int + 1,
            );
        }
    }
    let mut j: usize = 0;
    while j <= order
        invariant
            j <= order + 1,
            order < diff.ncols,
            diff.wf(),
            diff.same_shape(old(diff)),
            product.wf(),
            product.nrows == diff.nrows,
            product.ncols == order + 1,
            forall|i2: int, j2: int|
                product.has(i2, j2) ==> product.at(i2, j2) == rescaled_entry(
                    old(diff),
                    factor,
                    order as int,
                    i2,
                    j2,
                ),
            forall|i2: int, j2: int|
                diff.has(i2, j2) && j2 < j ==> diff.at(i2, j2) == rescaled_entry(
                    old(diff),
                    factor,
                    order as int,
                    i2,
                    j2,
                ),
            forall|i2: int, j2: int|
                diff.has(i2, j2) && j2 >= j ==> diff.at(i2, j2) == old(diff).at(i2, j2),
        decreases order + 1 - j,
    {
        let col = product.column(j);
        diff.set_column(j, &col);
        proof {
            assert forall|i2: int, j2: int| diff.has(i2, j2) && j2 < j + 1 implies diff.at(i2, j2)
                == rescaled_entry(old(diff), factor, order as int, i2, j2) by {
                if j2 == j {
                    assert(product.col(j as int)[i2] == product.at(i2, j as int));
                }
            }
        }
        j = j + 1;
    }
}

/// Entry `i` of the `j`-th difference after a step at order `k` was
/// accepted with the correction `d`: `D[k+2] = d - D[k+1]`, `D[k+1] = d`,
/// and every difference below is its old value plus the new one above it.
pub open spec fn updated_entry<T: Scalar>(
    diff: &DenseMatrix<T>,
    d: Seq<T>,
    k: int,
    i: int,
    j: int,
) -> T
    decreases k + 2 - j,
{
    if j > k + 2 {
        diff.at(i, j)
    } else if j == k + 2 {
        d[i].sub_spec(diff.at(i, k + 1))
    } else if j == k + 1 {
        d[i]
    } else {
        diff.at(i, j).add_spec(updated_entry(diff, d, k, i, j + 1))
    }
}

/// Takes the correction `d` of an accepted step at order `order` into the
/// differences.
pub fn update_differences<T: Scalar>(diff: &mut DenseMatrix<T>, d: &Vec<T>, order: usize)
    requires
        old(diff).wf(),
        order + 2 < old(diff).ncols,
        d@.len() == old(diff).nrows,
    ensures
        final(diff).wf(),
        final(diff).same_shape(old(diff)),
        forall|i: int, j: int|
            old(diff).has(i, j) && j >= 0 ==> final(diff).at(i, j) == updated_entry(
                old(diff),
                d@,
                order as int,
                i,
                j,
            ),
{
    let upper = diff.column(order + 1);
    let top = vector::sub(d, &upper);
    diff.set_column(order + 2, &top);
    let ghost mid = *diff;
    diff.set_column(order + 1, d);
    proof {
        assert forall|i: int, j: int| diff.has(i, j) && j > order implies diff.at(i, j)
            == updated_entry(old(diff), d@, order as int, i, j) by {
            if j == order + 2 {
                assert(mid.col(j)[i] == mid.at(i, j));
            }
        }
    }
    let mut m: usize = order + 1;
    while m > 0
        invariant
            m <= order + 1,
            order + 2 < diff.ncols,
            diff.wf(),
            diff.same_shape(old(diff)),
            forall|i: int, j: int|
                diff.has(i, j) && j >= m ==> diff.at(i, j) == updated_entry(
                    old(diff),
                    d@,
                    order as int,
                    i,
                    j,
                ),
            forall|i: int, j: int|
                diff.has(i, j) && 0 <= j < m ==> diff.at(i, j) == old(diff).at(i, j),
        decreases m,
    {
        m = m - 1;
        let lower = diff.column(m);
        let above = diff.column(m + 1);
        let sum = vector::add(&lower, &above);
        diff.set_column(m, &sum);
        proof {
            assert forall|i: int, j: int| diff.has(i, j) && j >= m implies diff.at(i, j)
                == updated_entry(old(diff), d@, order as int, i, j) by {
                if j == m {
                    assert(diff.col(j)[i] == diff.at(i, j));
                }
            }
        }
    }
}

/// The product of the first `i` time factors of the interpolant at
/// `t_star`: factor `j` is `(t_star - (t - h j)) / (h (1 + j))`.
pub open spec fn time_factor_spec<T: Scalar>(t_star: T, t: T, h: T, i: int) -> T
    decreases i,
{
    if i <= 0 {
        T::one_spec()
    } else {
        time_factor_spec(t_star, t, h, i - 1).mul_spec(
            t_star.sub_spec(t.sub_spec(h.mul_spec(index_spec::<T>(i - 1)))).div_spec(
                h.mul_spec(index_spec::<T>(i)),
            ),
        )
    }
}

/// Entry `s` of the interpolant of order `k` at `t_star`:
/// `D[0] + D[1] p_1 + ... + D[k] p_k` with `p_i` of [`time_factor_spec`].
pub open spec fn interpolate_entry<T: Scalar>(
    diff: &DenseMatrix<T>,
    t_star: T,
    t: T,
    h: T,
    k: int,
    s: int,
) -> T
    decreases k,
{
    if k <= 0 {
        diff.at(s, 0)
    } else {
        interpolate_entry(diff, t_star, t, h, k - 1, s).add_spec(
            diff.at(s, k).mul_spec(time_factor_spec(t_star, t, h, k)),
        )
    }
}

pub open spec fn interpolate_spec<T: Scalar>(
    diff: &DenseMatrix<T>,
    t_star: T,
    t: T,
    h: T,
    k: int,
) -> Seq<T> {
    Seq::new(diff.nrows as nat, |s: int| interpolate_entry(diff, t_star, t, h, k, s))
}

} // verus!
