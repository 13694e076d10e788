//! Dense column-major matrices over a [`Scalar`].

use vstd::prelude::*;
use crate::scalar::Scalar;

verus! {

/// A dense matrix; entry `(i, j)` is stored at `j * nrows + i`.
pub struct DenseMatrix<T: Scalar> {
    pub nrows: usize,
    pub ncols: usize,
    pub data: Vec<T>,
}

/// Entry `(i, j)` lies inside the storage of an `nrows` by `ncols` matrix.
pub proof fn lemma_index_in_range(nrows: int, ncols: int, i: int, j: int)
    requires
        0 <= i < nrows,
        0 <= j < ncols,
    ensures
        0 <= j * nrows + i < nrows * ncols,
        (j + 1) * nrows <= nrows * ncols,
        j * nrows >= 0,
{
    assert(j * nrows >= 0) by (nonlinear_arith)
        requires
            j >= 0,
            nrows > 0,
    ;
    assert((j + 1) * nrows <= nrows * ncols) by (nonlinear_arith)
        requires
            j + 1 <= ncols,
            nrows > 0,
    ;
    assert((j + 1) * nrows == j * nrows + nrows) by (nonlinear_arith);
}

/// Two entries share a storage slot only if they are the same entry.
pub proof fn lemma_index_distinct(nrows: int, i: int, j: int, i2: int, j2: int)
    requires
        0 <= i < nrows,
        0 <= i2 < nrows,
        0 <= j,
        0 <= j2,
        j * nrows + i == j2 * nrows + i2,
    ensures
        i == i2,
        j == j2,
{
    if j < j2 {
        assert(j2 * nrows >= (j + 1) * nrows) by (nonlinear_arith)
            requires
                j2 >= j + 1,
                nrows > 0,
        ;
        assert((j + 1) * nrows == j * nrows + nrows) by (nonlinear_arith);
    } else if j2 < j {
        assert(j * nrows >= (j2 + 1) * nrows) by (nonlinear_arith)
            requires
                j >= j2 + 1,
                nrows > 0,
        ;
        assert((j2 + 1) * nrows == j2 * nrows + nrows) by (nonlinear_arith);
    }
}

impl<T: Scalar> DenseMatrix<T> {
    /// The storage holds exactly `nrows * ncols` entries.
    pub open spec fn wf(&self) -> bool {
        self.data@.len() == self.nrows * self.ncols
    }

    /// Entry `(i, j)`.
    pub open spec fn at(&self, i: int, j: int) -> T {
        self.data@[j * self.nrows + i]
    }

    /// Column `j` as a sequence of `nrows` entries.
    pub open spec fn col(&self, j: int) -> Seq<T> {
        Seq::new(self.nrows as nat, |i: int| self.at(i, j))
    }

    /// Whether `(i, j)` names an entry.
    pub open spec fn has(&self, i: int, j: int) -> bool {
        0 <= i < self.nrows && 0 <= j < self.ncols
    }

    /// The same shape as `other`.
    pub open spec fn same_shape(&self, other: &DenseMatrix<T>) -> bool {
        self.nrows == other.nrows && self.ncols == other.ncols
    }

    /// The dot product of row `i` with `x`, over the first `n` columns, from the left.
    pub open spec fn row_dot(&self, i: int, x: Seq<T>, n: int) -> T
        decreases n,
    {
        if n <= 0 {
            T::zero_spec()
        } else {
            self.row_dot(i, x, n - 1).add_spec(self.at(i, n - 1).mul_spec(x[n - 1]))
        }
    }

    /// Entry `i` of `alpha * self * x + beta * y`.
    pub open spec fn gemv_entry(&self, alpha: T, x: Seq<T>, beta: T, y: Seq<T>, i: int) -> T {
        alpha.mul_spec(self.row_dot(i, x, self.ncols as int)).add_spec(beta.mul_spec(y[i]))
    }

    /// Entry `(i, j)` of `alpha * a * b + beta * self`.
    pub open spec fn gemm_entry(
        &self,
        alpha: T,
        a: &DenseMatrix<T>,
        b: &DenseMatrix<T>,
        beta: T,
        i: int,
        j: int,
    ) -> T {
        alpha.mul_spec(a.row_dot(i, b.col(j), a.ncols as int)).add_spec(
            beta.mul_spec(self.at(i, j)),
        )
    }

    pub fn nrows(&self) -> (r: usize)
        ensures
            r == self.nrows,
    {
        self.nrows
    }

    pub fn ncols(&self) -> (r: usize)
        ensures
            r == self.ncols,
    {
        self.ncols
    }

    /// A matrix of the given shape with every entry `value`.
    pub fn from_element(nrows: usize, ncols: usize, value: T) -> (r: Self)
        requires
            nrows * ncols <= usize::MAX,
        ensures
            r.wf(),
            r.nrows == nrows,
            r.ncols == ncols,
            forall|i: int, j: int| r.has(i, j) ==> r.at(i, j) == value,
    {
        let mut data: Vec<T> = Vec::new();
        let mut j: usize = 0;
        while j < ncols
            invariant
                j <= ncols,
                nrows * ncols <= usize::MAX,
                data@.len() == j * nrows,
                forall|k: int| 0 <= k < data@.len() ==> data@[k] == value,
            decreases ncols - j,
        {
            let mut i: usize = 0;
            proof {
                if nrows > 0 {
                    lemma_index_in_range(nrows as int, ncols as int, 0, j as int);
                }
                assert((j + 1) * nrows == j * nrows + nrows) by (nonlinear_arith);
            }
            while i < nrows
                invariant
                    i <= nrows,
                    data@.len() == j * nrows + i,
                    forall|k: int| 0 <= k < data@.len() ==> data@[k] == value,
                decreases nrows - i,
            {
                data.push(value);
                i = i + 1;
            }
            j = j + 1;
        }
        let r = DenseMatrix { nrows, ncols, data };
        proof {
            assert(ncols * nrows == nrows * ncols) by (nonlinear_arith);
            assert forall|i: int, j: int| r.has(i, j) implies r.at(i, j) == value by {
                lemma_index_in_range(nrows as int, ncols as int, i, j);
            }
        }
        r
    }

    /// A matrix of zeros.
    pub fn zeros(nrows: usize, ncols: usize) -> (r: Self)
        requires
            nrows * ncols <= usize::MAX,
        ensures
            r.wf(),
            r.nrows == nrows,
            r.ncols == ncols,
            forall|i: int, j: int| r.has(i, j) ==> r.at(i, j) == T::zero_spec(),
    {
        Self::from_element(nrows, ncols, T::zero())
    }

    /// Entry `(i, j)`.
    pub fn get(&self, i: usize, j: usize) -> (r: T)
        requires
            self.wf(),
            self.has(i as int, j as int),
        ensures
            r == self.at(i as int, j as int),
    {
        proof {
            lemma_index_in_range(self.nrows as int, self.ncols as int, i as int, j as int);
            assert(self.data@.len() == self.data.len());
        }
        self.data[j * self.nrows + i]
    }

    /// Stores `value` at `(i, j)` and leaves every other entry as it was.
    pub fn set(&mut self, i: usize, j: usize, value: T)
        requires
            old(self).wf(),
            old(self).has(i as int, j as int),
        ensures
            final(self).wf(),
            final(self).same_shape(old(self)),
            final(self).at(i as int, j as int) == value,
            forall|i2: int, j2: int|
                old(self).has(i2, j2) && (i2 != i || j2 != j) ==> final(self).at(i2, j2) == old(self).at(i2, j2),
    {
        proof {
            lemma_index_in_range(self.nrows as int, self.ncols as int, i as int, j as int);
            assert(self.data@.len() == self.data.len());
        }
        let k = j * self.nrows + i;
        self.data.set(k, value);
        proof {
            let nrows = self.nrows as int;
            assert forall|i2: int, j2: int|
                old(self).has(i2, j2) && (i2 != i || j2 != j) implies self.at(i2, j2) == old(self).at(i2, j2) by {
                lemma_index_in_range(nrows, self.ncols as int, i2, j2);
                if j2 * nrows + i2 == j * nrows + i {
                    lemma_index_distinct(nrows, i2, j2, i as int, j as int);
                }
            }
        }
    }

    /// Column `j`, copied out.
    pub fn column(&self, j: usize) -> (r: Vec<T>)
        requires
            self.wf(),
            j < self.ncols,
        ensures
            r@ == self.col(j as int),
    {
        let mut r: Vec<T> = Vec::new();
        let mut i: usize = 0;
        while i < self.nrows
            invariant
                i <= self.nrows,
                self.wf(),
                j < self.ncols,
                r@.len() == i,
                forall|k: int| 0 <= k < i ==> r@[k] == self.at(k, j as int),
            decreases self.nrows - i,
        {
            r.push(self.get(i, j));
            i = i + 1;
        }
        r
    }

    /// Replaces column `j` by `v` and leaves the other columns as they were.
    pub fn set_column(&mut self, j: usize, v: &Vec<T>)
        requires
            old(self).wf(),
            j < old(self).ncols,
            v@.len() == old(self).nrows,
        ensures
            final(self).wf(),
            final(self).same_shape(old(self)),
            final(self).col(j as int) == v@,
            forall|i2: int, j2: int|
                old(self).has(i2, j2) && j2 != j ==> final(self).at(i2, j2) == old(self).at(
                    i2,
                    j2,
                ),
    {
        let mut i: usize = 0;
        while i < self.nrows
            invariant
                i <= self.nrows,
                self.wf(),
                self.same_shape(old(self)),
                j < self.ncols,
                v@.len() == self.nrows,
                forall|k: int| 0 <= k < i ==> self.at(k, j as int) == v@[k],
                forall|i2: int, j2: int|
                    old(self).has(i2, j2) && j2 != j ==> self.at(i2, j2) == old(self).at(i2, j2),
            decreases self.nrows - i,
        {
            self.set(i, j, v[i]);
            i = i + 1;
        }
    }

    /// The diagonal matrix with `v` down the diagonal and zeros elsewhere.
    pub fn from_diagonal(v: &Vec<T>) -> (r: Self)
        requires
            v@.len() * v@.len() <= usize::MAX,
        ensures
            r.wf(),
            r.nrows == v@.len(),
            r.ncols == v@.len(),
            forall|i: int, j: int|
                r.has(i, j) ==> r.at(i, j) == (if i == j {
                    v@[i]
                } else {
                    T::zero_spec()
                }),
    {
        let n = v.len();
        let mut r = Self::zeros(n, n);
        let mut i: usize = 0;
        while i < n
            invariant
                i <= n,
                n == v@.len(),
                r.wf(),
                r.nrows == n,
                r.ncols == n,
                forall|a: int, b: int|
                    r.has(a, b) ==> r.at(a, b) == (if a == b && a < i {
                        v@[a]
                    } else {
                        T::zero_spec()
                    }),
            decreases n - i,
        {
            r.set(i, i, v[i]);
            i = i + 1;
        }
        r
    }

    /// The entries `(i, i)`, in order.
    pub fn diagonal(&self) -> (r: Vec<T>)
        requires
            self.wf(),
            self.nrows == self.ncols,
        ensures
            r@ == Seq::new(self.nrows as nat, |i: int| self.at(i, i)),
    {
        let mut r: Vec<T> = Vec::new();
        let mut i: usize = 0;
        while i < self.nrows
            invariant
                i <= self.nrows,
                self.wf(),
                self.nrows == self.ncols,
                r@.len() == i,
                forall|k: int| 0 <= k < i ==> r@[k] == self.at(k, k),
            decreases self.nrows - i,
        {
            r.push(self.get(i, i));
            i = i + 1;
        }
        r
    }

    /// The dot product of row `i` with `x`.
    pub fn row_times(&self, i: usize, x: &Vec<T>) -> (r: T)
        requires
            self.wf(),
            i < self.nrows,
            x@.len() == self.ncols,
        ensures
            r == self.row_dot(i as int, x@, self.ncols as int),
    {
        let mut acc = T::zero();
        let mut j: usize = 0;
        while j < self.ncols
            invariant
                j <= self.ncols,
                self.wf(),
                i < self.nrows,
                x@.len() == self.ncols,
                acc == self.row_dot(i as int, x@, j as int),
            decreases self.ncols - j,
        {
            acc = acc.add(self.get(i, j).mul(x[j]));
            j = j + 1;
        }
        acc
    }

    /// `y = alpha * self * x + beta * y`.
    pub fn gemv(&self, alpha: T, x: &Vec<T>, beta: T, y: &mut Vec<T>)
        requires
            self.wf(),
            x@.len() == self.ncols,
            old(y)@.len() == self.nrows,
        ensures
            final(y)@.len() == self.nrows,
            forall|i: int|
                0 <= i < self.nrows ==> final(y)@[i] == self.gemv_entry(alpha, x@, beta, old(y)@, i),
    {
        let mut i: usize = 0;
        while i < self.nrows
            invariant
                i <= self.nrows,
                self.wf(),
                x@.len() == self.ncols,
                y@.len() == self.nrows,
                forall|k: int|
                    0 <= k < i ==> y@[k] == self.gemv_entry(alpha, x@, beta, old(y)@, k),
                forall|k: int| i <= k < self.nrows ==> y@[k] == old(y)@[k],
            decreases self.nrows - i,
        {
            let d = self.row_times(i, x);
            let e = alpha.mul(d).add(beta.mul(y[i]));
            y.set(i, e);
            i = i + 1;
        }
    }

    /// `self = alpha * a * b + beta * self`.
    pub fn gemm(&mut self, alpha: T, a: &DenseMatrix<T>, b: &DenseMatrix<T>, beta: T)
        requires
            old(self).wf(),
            a.wf(),
            b.wf(),
            a.ncols == b.nrows,
            old(self).nrows == a.nrows,
            old(self).ncols == b.ncols,
        ensures
            final(self).wf(),
            final(self).same_shape(old(self)),
            forall|i: int, j: int|
                old(self).has(i, j) ==> final(self).at(i, j) == old(self).gemm_entry(
                    alpha,
                    a,
                    b,
                    beta,
                    i,
                    j,
                ),
    {
        let mut j: usize = 0;
        while j < self.ncols
            invariant
                j <= self.ncols,
                self.wf(),
                self.same_shape(old(self)),
                a.wf(),
                b.wf(),
                a.ncols == b.nrows,
                self.nrows == a.nrows,
                self.ncols == b.ncols,
                forall|i2: int, j2: int|
                    self.has(i2, j2) && j2 < j ==> self.at(i2, j2) == old(self).gemm_entry(
                        alpha,
                        a,
                        b,
                        beta,
                        i2,
                        j2,
                    ),
                forall|i2: int, j2: int|
                    self.has(i2, j2) && j2 >= j ==> self.at(i2, j2) == old(self).at(i2, j2),
            decreases self.ncols - j,
        {
            let bj = b.column(j);
            let mut i: usize = 0;
            while i < self.nrows
                invariant
                    i <= self.nrows,
                    j < self.ncols,
                    self.wf(),
                    self.same_shape(old(self)),
                    a.wf(),
                    b.wf(),
                    a.ncols == b.nrows,
                    self.nrows == a.nrows,
                    self.ncols == b.ncols,
                    bj@ == b.col(j as int),
                    forall|i2: int, j2: int|
                        self.has(i2, j2) && (j2 < j || (j2 == j && i2 < i)) ==> self.at(i2, j2)
                            == old(self).gemm_entry(alpha, a, b, beta, i2, j2),
                    forall|i2: int, j2: int|
                        self.has(i2, j2) && (j2 > j || (j2 == j && i2 >= i)) ==> self.at(i2, j2)
                            == old(self).at(i2, j2),
                decreases self.nrows - i,
            {
                let d = a.row_times(i, &bj);
                let e = alpha.mul(d).add(beta.mul(self.get(i, j)));
                self.set(i, j, e);
                i = i + 1;
            }
            j = j + 1;
        }
    }

    /// `self * x`, with `beta` of [`Self::gemm`] zero on a matrix of zeros.
    pub fn mat_mul(&self, x: &DenseMatrix<T>) -> (r: DenseMatrix<T>)
        requires
            self.wf(),
            x.wf(),
            self.ncols == x.nrows,
            self.nrows * x.ncols <= usize::MAX,
        ensures
            r.wf(),
            r.nrows == self.nrows,
            r.ncols == x.ncols,
            forall|i: int, j: int|
                r.has(i, j) ==> r.at(i, j) == T::one_spec().mul_spec(
                    self.row_dot(i, x.col(j), self.ncols as int),
                ).add_spec(T::zero_spec().mul_spec(T::zero_spec())),
    {
        let mut y = Self::zeros(self.nrows, x.ncols);
        y.gemm(T::one(), self, x, T::zero());
        y
    }

    /// `self - other * c`, entry by entry.
    pub fn sub_scaled(&self, other: &DenseMatrix<T>, c: T) -> (r: DenseMatrix<T>)
        requires
            self.wf(),
            other.wf(),
            self.same_shape(other),
        ensures
            r.wf(),
            r.same_shape(self),
            forall|i: int, j: int|
                r.has(i, j) ==> r.at(i, j) == self.at(i, j).sub_spec(other.at(i, j).mul_spec(c)),
    {
        let mut data: Vec<T> = Vec::new();
        let mut k: usize = 0;
        while k < self.data.len()
            invariant
                k <= self.data@.len(),
                self.data@.len() == other.data@.len(),
                data@.len() == k,
                forall|m: int|
                    0 <= m < k ==> data@[m] == self.data@[m].sub_spec(other.data@[m].mul_spec(c)),
            decreases self.data@.len() - k,
        {
            data.push(self.data[k].sub(other.data[k].mul(c)));
            k = k + 1;
        }
        let r = DenseMatrix { nrows: self.nrows, ncols: self.ncols, data };
        proof {
            assert forall|i: int, j: int| r.has(i, j) implies r.at(i, j) == self.at(i, j).sub_spec(
                other.at(i, j).mul_spec(c),
            ) by {
                lemma_index_in_range(self.nrows as int, self.ncols as int, i, j);
            }
        }
        r
    }

    /// A copy of `self`.
    pub fn copy(&self) -> (r: DenseMatrix<T>)
        ensures
            r.nrows == self.nrows,
            r.ncols == self.ncols,
            r.data@ == self.data@,
    {
        DenseMatrix { nrows: self.nrows, ncols: self.ncols, data: crate::vector::copy(&self.data) }
    }

    /// The block of the first `nrows` rows and `ncols` columns.
    pub fn leading_block(&self, nrows: usize, ncols: usize) -> (r: DenseMatrix<T>)
        requires
            self.wf(),
            nrows <= self.nrows,
            ncols <= self.ncols,
        ensures
            r.wf(),
            r.nrows == nrows,
            r.ncols == ncols,
            forall|i: int, j: int| r.has(i, j) ==> r.at(i, j) == self.at(i, j),
    {
        proof {
            assert(nrows * ncols <= self.nrows * self.ncols) by (nonlinear_arith)
                requires
                    nrows <= self.nrows,
                    ncols <= self.ncols,
            ;
            assert(self.data@.len() == self.data.len());
        }
        let mut r = Self::zeros(nrows, ncols);
        let mut j: usize = 0;
        while j < ncols
            invariant
                j <= ncols,
                self.wf(),
                nrows <= self.nrows,
                ncols <= self.ncols,
                r.wf(),
                r.nrows == nrows,
                r.ncols == ncols,
                forall|i2: int, j2: int| r.has(i2, j2) && j2 < j ==> r.at(i2, j2) == self.at(i2, j2),
            decreases ncols - j,
        {
            let mut i: usize = 0;
            while i < nrows
                invariant
                    i <= nrows,
                    j < ncols,
                    self.wf(),
                    nrows <= self.nrows,
                    ncols <= self.ncols,
                    r.wf(),
                    r.nrows == nrows,
                    r.ncols == ncols,
                    forall|i2: int, j2: int|
                        r.has(i2, j2) && (j2 < j || (j2 == j && i2 < i)) ==> r.at(i2, j2)
                            == self.at(i2, j2),
                decreases nrows - i,
            {
                r.set(i, j, self.get(i, j));
                i = i + 1;
            }
            j = j + 1;
        }
        r
    }
}

/// What every matrix offers: its shape and its diagonal.
pub trait MatrixCommon: Sized {
    type T: Scalar;

    /// What the matrix needs of itself before any call.
    spec fn valid(&self) -> bool;

    spec fn nrows_spec(&self) -> usize;

    spec fn ncols_spec(&self) -> usize;

    /// Entry `(i, j)`.
    spec fn entry(&self, i: int, j: int) -> Self::T;

    /// The entries `(i, i)` of a square matrix, in order.
    fn diagonal(&self) -> (r: Vec<Self::T>)
        requires
            self.valid(),
            self.nrows_spec() == self.ncols_spec(),
        ensures
            r@.len() == self.nrows_spec(),
            forall|i: int| 0 <= i < self.nrows_spec() ==> r@[i] == self.entry(i, i),
    ;

    fn nrows(&self) -> (r: usize)
        ensures
            r == self.nrows_spec(),
    ;

    fn ncols(&self) -> (r: usize)
        ensures
            r == self.ncols_spec(),
    ;
}

/// The dot product of row `i` of `m` with `x`, over the first `n` columns,
/// from the left.
pub open spec fn row_dot_of<M: MatrixCommon>(m: &M, i: int, x: Seq<M::T>, n: int) -> M::T
    decreases n,
{
    if n <= 0 {
        M::T::zero_spec()
    } else {
        row_dot_of(m, i, x, n - 1).add_spec(m.entry(i, n - 1).mul_spec(x[n - 1]))
    }
}

/// Column `j` of `m`.
pub open spec fn column_of<M: MatrixCommon>(m: &M, j: int) -> Seq<M::T> {
    Seq::new(m.nrows_spec() as nat, |i: int| m.entry(i, j))
}

/// Whether `(i, j)` names an entry of `m`.
pub open spec fn in_shape<M: MatrixCommon>(m: &M, i: int, j: int) -> bool {
    0 <= i < m.nrows_spec() && 0 <= j < m.ncols_spec()
}

/// A dense matrix, stored so that taking a column is cheap.
pub trait Matrix: MatrixCommon {
    /// A matrix of the given shape filled with zeros.
    fn zeros(nrows: usize, ncols: usize) -> (r: Self)
        requires
            nrows * ncols <= usize::MAX,
        ensures
            r.valid(),
            r.nrows_spec() == nrows,
            r.ncols_spec() == ncols,
            forall|i: int, j: int| in_shape(&r, i, j) ==> r.entry(i, j) == Self::T::zero_spec(),
    ;

    /// The diagonal matrix with `v` down the diagonal.
    fn from_diagonal(v: &Vec<Self::T>) -> (r: Self)
        requires
            v@.len() * v@.len() <= usize::MAX,
        ensures
            r.valid(),
            r.nrows_spec() == v@.len(),
            r.ncols_spec() == v@.len(),
            forall|i: int, j: int|
                in_shape(&r, i, j) ==> r.entry(i, j) == (if i == j {
                    v@[i]
                } else {
                    Self::T::zero_spec()
                }),
    ;

    /// Column `i`, copied out.
    fn column(&self, i: usize) -> (r: Vec<Self::T>)
        requires
            self.valid(),
            i < self.ncols_spec(),
        ensures
            r@ == column_of(self, i as int),
    ;

    /// `self = alpha * a * b + beta * self`.
    fn gemm(&mut self, alpha: Self::T, a: &Self, b: &Self, beta: Self::T)
        requires
            old(self).valid(),
            a.valid(),
            b.valid(),
            a.ncols_spec() == b.nrows_spec(),
            old(self).nrows_spec() == a.nrows_spec(),
            old(self).ncols_spec() == b.ncols_spec(),
        ensures
            final(self).valid(),
            final(self).nrows_spec() == old(self).nrows_spec(),
            final(self).ncols_spec() == old(self).ncols_spec(),
            forall|i: int, j: int|
                in_shape(old(self), i, j) ==> final(self).entry(i, j) == alpha.mul_spec(
                    row_dot_of(a, i, column_of(b, j), a.ncols_spec() as int),
                ).add_spec(beta.mul_spec(old(self).entry(i, j))),
    ;

    /// `self * x`: [`Self::gemm`] onto a matrix of zeros, with `alpha` one
    /// and `beta` zero.
    fn mat_mul(&self, x: &Self) -> (y: Self)
        requires
            self.valid(),
            x.valid(),
            self.ncols_spec() == x.nrows_spec(),
            self.nrows_spec() * x.ncols_spec() <= usize::MAX,
        ensures
            y.valid(),
            y.nrows_spec() == self.nrows_spec(),
            y.ncols_spec() == x.ncols_spec(),
            forall|i: int, j: int|
                in_shape(&y, i, j) ==> y.entry(i, j) == Self::T::one_spec().mul_spec(
                    row_dot_of(self, i, column_of(x, j), self.ncols_spec() as int),
                ).add_spec(Self::T::zero_spec().mul_spec(Self::T::zero_spec())),
    {
        let mut y = Self::zeros(self.nrows(), x.ncols());
        y.gemm(Self::T::one(), self, x, Self::T::zero());
        y
    }

    /// `y = alpha * self * x + beta * y`.
    fn gemv(&self, alpha: Self::T, x: &Vec<Self::T>, beta: Self::T, y: &mut Vec<Self::T>)
        requires
            self.valid(),
            x@.len() == self.ncols_spec(),
            old(y)@.len() == self.nrows_spec(),
        ensures
            final(y)@.len() == self.nrows_spec(),
            forall|i: int|
                0 <= i < self.nrows_spec() ==> final(y)@[i] == alpha.mul_spec(
                    row_dot_of(self, i, x@, self.ncols_spec() as int),
                ).add_spec(beta.mul_spec(old(y)@[i])),
    ;
}

/// The dot product of a row of a dense matrix is the same by either name.
pub proof fn lemma_row_dot_of_dense<T: Scalar>(m: &DenseMatrix<T>, i: int, x: Seq<T>, n: int)
    ensures
        row_dot_of(m, i, x, n) == m.row_dot(i, x, n),
    decreases n,
{
    if n > 0 {
        lemma_row_dot_of_dense(m, i, x, n - 1);
    }
}

impl<T: Scalar> MatrixCommon for DenseMatrix<T> {
    type T = T;

    open spec fn valid(&self) -> bool {
        self.wf()
    }

    open spec fn nrows_spec(&self) -> usize {
        self.nrows
    }

    open spec fn ncols_spec(&self) -> usize {
        self.ncols
    }

    open spec fn entry(&self, i: int, j: int) -> T {
        self.at(i, j)
    }

    fn diagonal(&self) -> (r: Vec<T>) {
        DenseMatrix::diagonal(self)
    }

    fn nrows(&self) -> (r: usize) {
        self.nrows
    }

    fn ncols(&self) -> (r: usize) {
        self.ncols
    }
}

impl<T: Scalar> Matrix for DenseMatrix<T> {
    fn zeros(nrows: usize, ncols: usize) -> (r: Self) {
        DenseMatrix::zeros(nrows, ncols)
    }

    fn from_diagonal(v: &Vec<T>) -> (r: Self) {
        DenseMatrix::from_diagonal(v)
    }

    fn column(&self, i: usize) -> (r: Vec<T>) {
        let r = DenseMatrix::column(self, i);
        r
    }

    fn gemm(&mut self, alpha: T, a: &Self, b: &Self, beta: T) {
        DenseMatrix::gemm(self, alpha, a, b, beta);
        proof {
            assert forall|i: int, j: int| in_shape(old(self), i, j) implies self.entry(i, j)
                == alpha.mul_spec(
                row_dot_of(a, i, column_of(b, j), a.ncols_spec() as int),
            ).add_spec(beta.mul_spec(old(self).entry(i, j))) by {
                assert(column_of(b, j) =~= b.col(j));
                lemma_row_dot_of_dense(a, i, b.col(j), a.ncols as int);
            }
        }
    }

    fn gemv(&self, alpha: T, x: &Vec<T>, beta: T, y: &mut Vec<T>) {
        DenseMatrix::gemv(self, alpha, x, beta, y);
        proof {
            assert forall|i: int| 0 <= i < self.nrows_spec() implies y@[i] == alpha.mul_spec(
                row_dot_of(self, i, x@, self.ncols_spec() as int),
            ).add_spec(beta.mul_spec(old(y)@[i])) by {
                lemma_row_dot_of_dense(self, i, x@, self.ncols as int);
            }
        }
    }
}

} // verus!
