use vstd::prelude::*;

use crate::math::vector::{dot_fits, spec_dot, Vector};

verus! {

/// A column based matrix of integer entries: `self@[i][j]` is the entry in
/// column `i`, row `j`.
#[derive(Debug, PartialEq, Eq, Hash)]
pub struct Matrix {
    cols: Vec<Vector>,
    rows: usize,
}

impl Clone for Matrix {
    fn clone(&self) -> (r: Self)
        ensures
            r@ == self@,
            r.spec_rows() == self.spec_rows(),
            self.wf() ==> r.wf(),
    {
        let n = self.cols.len();
        let mut cols: Vec<Vector> = Vec::new();
        let mut k: usize = 0;
        while k < n
            invariant
                k <= n,
                n == self.cols@.len(),
                cols@.len() == k,
                forall|i: int| 0 <= i < k ==> (#[trigger] cols@[i])@ == self.cols@[i]@,
            decreases n - k,
        {
            cols.push(self.cols[k].clone());
            k = k + 1;
        }
        let r = Matrix { cols, rows: self.rows };
        proof {
            assert(r@ =~= self@);
            if self.wf() {
                assert forall|i: int| 0 <= i < r.cols@.len() implies (#[trigger] r.cols@[i])@.len()
                    == r.rows by {
                    assert(self.cols@[i]@.len() == self.rows);
                }
            }
        }
        r
    }
}

/// Row `j` of a column-major matrix view.
pub open spec fn spec_row(m: Seq<Seq<i64>>, j: int) -> Seq<i64> {
    Seq::new(m.len(), |k: int| m[k][j])
}

/// Every entry of the componentwise sum of `a` and `b` stays within the
/// machine range.
pub open spec fn mat_add_fits(a: Seq<Seq<i64>>, b: Seq<Seq<i64>>) -> bool {
    forall|i: int, j: int| #![trigger a[i][j]]
        0 <= i < a.len() && 0 <= j < a[i].len() ==> i64::MIN <= a[i][j] + b[i][j] <= i64::MAX
}

/// Every entry of the componentwise difference of `a` and `b` stays within
/// the machine range.
pub open spec fn mat_sub_fits(a: Seq<Seq<i64>>, b: Seq<Seq<i64>>) -> bool {
    forall|i: int, j: int| #![trigger a[i][j]]
        0 <= i < a.len() && 0 <= j < a[i].len() ==> i64::MIN <= a[i][j] - b[i][j] <= i64::MAX
}

/// Every dot product of a row of `a` with a column of `b` can be computed
/// without leaving the machine range.
pub open spec fn mat_mul_fits(a: Seq<Seq<i64>>, b: Seq<Seq<i64>>, rows: nat) -> bool {
    forall|i: int, j: int| #![trigger b[i], spec_row(a, j)]
        0 <= i < b.len() && 0 <= j < rows ==> dot_fits(spec_row(a, j), b[i])
}

impl View for Matrix {
    type V = Seq<Seq<i64>>;

    closed spec fn view(&self) -> Seq<Seq<i64>> {
        Seq::new(self.cols@.len(), |i: int| self.cols@[i]@)
    }
}

impl Matrix {
    /// All columns have exactly `spec_rows()` entries.
    pub closed spec fn wf(&self) -> bool {
        forall|i: int| 0 <= i < self.cols@.len() ==> (#[trigger] self.cols@[i])@.len() == self.rows
    }

    /// The number of rows of the matrix.
    pub closed spec fn spec_rows(&self) -> nat {
        self.rows as nat
    }

    /// The well-formedness of a matrix is visible through its view alone.
    pub proof fn lemma_wf(&self)
        requires
            self.wf(),
        ensures
            forall|i: int| 0 <= i < self@.len() ==> (#[trigger] self@[i]).len() == self.spec_rows(),
    {
    }

    /// Builds a matrix from its columns, which must all share one length.
    pub fn from_cols(cols: Vec<Vector>, rows: usize) -> (m: Matrix)
        requires
            forall|i: int| 0 <= i < cols@.len() ==> (#[trigger] cols@[i])@.len() == rows,
        ensures
            m.wf(),
            m.spec_rows() == rows,
            m@.len() == cols@.len(),
            forall|i: int| 0 <= i < cols@.len() ==> #[trigger] m@[i] == cols@[i]@,
    {
        Matrix { cols, rows }
    }

    /// The number of columns.
    pub fn cols_count(&self) -> (n: usize)
        ensures
            n == self@.len(),
    {
        self.cols.len()
    }

    /// The number of rows.
    pub fn rows_count(&self) -> (n: usize)
        ensures
            n == self.spec_rows(),
    {
        self.rows
    }

    /// Borrows column `idx`.
    pub fn col_ref(&self, idx: usize) -> (r: &Vector)
        requires
            idx < self@.len(),
        ensures
            r@ == self@[idx as int],
    {
        &self.cols[idx]
    }

    /// Copies column `idx` out of the matrix.
    pub fn col(&self, idx: usize) -> (r: Vector)
        requires
            idx < self@.len(),
        ensures
            r@ == self@[idx as int],
    {
        self.cols[idx].clone()
    }

    /// Reads the entry in column `i`, row `j`.
    pub fn get_entry(&self, i: usize, j: usize) -> (r: i64)
        requires
            self.wf(),
            i < self@.len(),
            j < self.spec_rows(),
        ensures
            r == self@[i as int][j as int],
    {
        self.cols[i].get(j)
    }

    /// Overwrites the entry in column `i`, row `j`.
    pub fn set_entry(&mut self, i: usize, j: usize, value: i64)
        requires
            old(self).wf(),
            i < old(self)@.len(),
            j < old(self).spec_rows(),
        ensures
            final(self).wf(),
            final(self).spec_rows() == old(self).spec_rows(),
            final(self)@.len() == old(self)@.len(),
            forall|c: int|
                0 <= c < old(self)@.len() && c != i ==> #[trigger] final(self)@[c] == old(
                    self,
                )@[c],
            final(self)@[i as int] == old(self)@[i as int].update(j as int, value),
    {
        let mut col = self.cols[i].clone();
        col.set(j, value);
        self.cols.set(i, col);
    }

    /// Creates an `n` by `n` matrix with `value` on its main diagonal and
    /// zeroes elsewhere.
    pub fn diag(n: usize, value: i64) -> (m: Matrix)
        ensures
            m.wf(),
            m.spec_rows() == n,
            m@.len() == n,
            forall|i: int, j: int| #![trigger m@[i][j]]
                0 <= i < n && 0 <= j < n ==> m@[i][j] == if i == j {
                    value
                } else {
                    0
                },
    {
        let mut cols: Vec<Vector> = Vec::new();
        let mut c: usize = 0;
        while c < n
            invariant
                c <= n,
                cols@.len() == c,
                forall|i: int| 0 <= i < c ==> (#[trigger] cols@[i])@.len() == n,
                forall|i: int, j: int| #![trigger cols@[i]@[j]]
                    0 <= i < c && 0 <= j < n ==> cols@[i]@[j] == if i == j {
                        value
                    } else {
                        0
                    },
            decreases n - c,
        {
            let mut col = Vector::new(n, 0);
            col.set(c, value);
            cols.push(col);
            c = c + 1;
        }
        Matrix::from_cols(cols, n)
    }

    /// Creates an `n` by `n` unit matrix.
    pub fn unit(n: usize) -> (m: Matrix)
        ensures
            m.wf(),
            m.spec_rows() == n,
            m@.len() == n,
            forall|i: int, j: int| #![trigger m@[i][j]]
                0 <= i < n && 0 <= j < n ==> m@[i][j] == if i == j {
                    1i64
                } else {
                    0i64
                },
    {
        Matrix::diag(n, 1)
    }

    /// Creates a diagonal matrix whose main diagonal holds the components of
    /// `diag`.
    pub fn from_diag(diag: &Vector) -> (m: Matrix)
        ensures
            m.wf(),
            m.spec_rows() == diag@.len(),
            m@.len() == diag@.len(),
            forall|i: int, j: int| #![trigger m@[i][j]]
                0 <= i < diag@.len() && 0 <= j < diag@.len() ==> m@[i][j] == if i == j {
                    diag@[i]
                } else {
                    0
                },
    {
        let n = diag.len();
        let mut cols: Vec<Vector> = Vec::new();
        let mut c: usize = 0;
        while c < n
            invariant
                c <= n,
                n == diag@.len(),
                cols@.len() == c,
                forall|i: int| 0 <= i < c ==> (#[trigger] cols@[i])@.len() == n,
                forall|i: int, j: int| #![trigger cols@[i]@[j]]
                    0 <= i < c && 0 <= j < n ==> cols@[i]@[j] == if i == j {
                        diag@[i]
                    } else {
                        0
                    },
            decreases n - c,
        {
            let mut col = Vector::new(n, 0);
            col.set(c, diag.get(c));
            cols.push(col);
            c = c + 1;
        }
        Matrix::from_cols(cols, n)
    }

    /// Creates a uniform scaling matrix of dimension `n`: `scale` on the
    /// diagonal, except that the corner entry stays 1.
    pub fn from_scale(n: usize, scale: i64) -> (m: Matrix)
        requires
            n > 0,
        ensures
            m.wf(),
            m.spec_rows() == n,
            m@.len() == n,
            forall|i: int, j: int| #![trigger m@[i][j]]
                0 <= i < n && 0 <= j < n ==> m@[i][j] == if i == j {
                    if i == n - 1 {
                        1i64
                    } else {
                        scale
                    }
                } else {
                    0i64
                },
    {
        let mut m = Matrix::diag(n, scale);
        m.set_entry(n - 1, n - 1, 1);
        m
    }

    /// Creates a translation matrix from a translation vector; the matrix
    /// dimension is one more than the dimension of the vector.
    pub fn from_translation(vec: &Vector) -> (m: Matrix)
        requires
            vec@.len() < usize::MAX,
        ensures
            m.wf(),
            m.spec_rows() == vec@.len() + 1,
            m@.len() == vec@.len() + 1,
            forall|i: int, j: int| #![trigger m@[i][j]]
                0 <= i < vec@.len() && 0 <= j < vec@.len() + 1 ==> m@[i][j] == if i == j {
                    1i64
                } else {
                    0i64
                },
            forall|j: int| #![trigger m@[vec@.len() as int][j]]
                0 <= j < vec@.len() ==> m@[vec@.len() as int][j] == vec@[j],
            m@[vec@.len() as int][vec@.len() as int] == 1i64,
    {
        let p = vec.len();
        let n = p + 1;
        let mut m = Matrix::unit(n);
        let mut j: usize = 0;
        while j < p
            invariant
                j <= p,
                p == vec@.len(),
                n == p + 1,
                m.wf(),
                m.spec_rows() == n,
                m@.len() == n,
                forall|a: int, b: int| #![trigger m@[a][b]]
                    0 <= a < p && 0 <= b < n ==> m@[a][b] == if a == b {
                        1i64
                    } else {
                        0i64
                    },
                forall|b: int| #![trigger m@[p as int][b]]
                    0 <= b < j ==> m@[p as int][b] == vec@[b],
                forall|b: int| #![trigger m@[p as int][b]]
                    j <= b < n ==> m@[p as int][b] == if p == b {
                        1i64
                    } else {
                        0i64
                    },
            decreases p - j,
        {
            m.set_entry(p, j, vec.get(j));
            j = j + 1;
        }
        m
    }

    /// Returns the transposed matrix of a square matrix.
    pub fn transpose_sqr(&self) -> (r: Matrix)
        requires
            self.wf(),
            self@.len() == self.spec_rows(),
        ensures
            r.wf(),
            r.spec_rows() == self.spec_rows(),
            r@.len() == self@.len(),
            forall|i: int, j: int| #![trigger r@[i][j]]
                0 <= i < self@.len() && 0 <= j < self@.len() ==> r@[i][j] == self@[j][i],
    {
        let n = self.cols.len();
        let mut cols: Vec<Vector> = Vec::new();
        let mut c: usize = 0;
        while c < n
            invariant
                c <= n,
                self.wf(),
                n == self@.len(),
                self@.len() == self.spec_rows(),
                cols@.len() == c,
                forall|i: int| 0 <= i < c ==> (#[trigger] cols@[i])@.len() == n,
                forall|i: int, j: int| #![trigger cols@[i]@[j]]
                    0 <= i < c && 0 <= j < n ==> cols@[i]@[j] == self@[j][i],
            decreases n - c,
        {
            let mut elems: Vec<i64> = Vec::new();
            let mut j: usize = 0;
            while j < n
                invariant
                    j <= n,
                    c < n,
                    self.wf(),
                    n == self@.len(),
                    self@.len() == self.spec_rows(),
                    elems@.len() == j,
                    forall|b: int| 0 <= b < j ==> #[trigger] elems@[b] == self@[b][c as int],
                decreases n - j,
            {
                elems.push(self.cols[j].get(c));
                j = j + 1;
            }
            cols.push(Vector::new_init(elems));
            c = c + 1;
        }
        Matrix::from_cols(cols, n)
    }

    /// Componentwise addition.
    pub fn add(&self, rhs: &Matrix) -> (r: Matrix)
        requires
            self.wf(),
            rhs.wf(),
            self@.len() == rhs@.len(),
            self.spec_rows() == rhs.spec_rows(),
            mat_add_fits(self@, rhs@),
        ensures
            r.wf(),
            r.spec_rows() == self.spec_rows(),
            r@.len() == self@.len(),
            forall|i: int, j: int| #![trigger r@[i][j]]
                0 <= i < self@.len() && 0 <= j < self.spec_rows() ==> r@[i][j] == self@[i][j]
                    + rhs@[i][j],
    {
        let n = self.cols.len();
        let rows = self.rows;
        let mut cols: Vec<Vector> = Vec::new();
        let mut c: usize = 0;
        while c < n
            invariant
                c <= n,
                self.wf(),
                rhs.wf(),
                n == self@.len(),
                rhs@.len() == n,
                rows == self.spec_rows(),
                self.spec_rows() == rhs.spec_rows(),
                mat_add_fits(self@, rhs@),
                cols@.len() == c,
                forall|i: int| 0 <= i < c ==> (#[trigger] cols@[i])@.len() == rows,
                forall|i: int, j: int| #![trigger cols@[i]@[j]]
                    0 <= i < c && 0 <= j < rows ==> cols@[i]@[j] == self@[i][j] + rhs@[i][j],
            decreases n - c,
        {
            let mut elems: Vec<i64> = Vec::new();
            let mut j: usize = 0;
            while j < rows
                invariant
                    j <= rows,
                    c < n,
                    self.wf(),
                    rhs.wf(),
                    n == self@.len(),
                    rhs@.len() == n,
                    rows == self.spec_rows(),
                    self.spec_rows() == rhs.spec_rows(),
                    mat_add_fits(self@, rhs@),
                    elems@.len() == j,
                    forall|b: int|
                        0 <= b < j ==> #[trigger] elems@[b] == self@[c as int][b] + rhs@[c as int][b],
                decreases rows - j,
            {
                proof {
                    assert(self@[c as int][j as int] == self.cols@[c as int]@[j as int]);
                    assert(rhs@[c as int][j as int] == rhs.cols@[c as int]@[j as int]);
                }
                elems.push(self.cols[c].get(j) + rhs.cols[c].get(j));
                j = j + 1;
            }
            cols.push(Vector::new_init(elems));
            c = c + 1;
        }
        Matrix::from_cols(cols, rows)
    }

    /// Componentwise subtraction.
    pub fn sub(&self, rhs: &Matrix) -> (r: Matrix)
        requires
            self.wf(),
            rhs.wf(),
            self@.len() == rhs@.len(),
            self.spec_rows() == rhs.spec_rows(),
            mat_sub_fits(self@, rhs@),
        ensures
            r.wf(),
            r.spec_rows() == self.spec_rows(),
            r@.len() == self@.len(),
            forall|i: int, j: int| #![trigger r@[i][j]]
                0 <= i < self@.len() && 0 <= j < self.spec_rows() ==> r@[i][j] == self@[i][j]
                    - rhs@[i][j],
    {
        let n = self.cols.len();
        let rows = self.rows;
        let mut cols: Vec<Vector> = Vec::new();
        let mut c: usize = 0;
        while c < n
            invariant
                c <= n,
                self.wf(),
                rhs.wf(),
                n == self@.len(),
                rhs@.len() == n,
                rows == self.spec_rows(),
                self.spec_rows() == rhs.spec_rows(),
                mat_sub_fits(self@, rhs@),
                cols@.len() == c,
                forall|i: int| 0 <= i < c ==> (#[trigger] cols@[i])@.len() == rows,
                forall|i: int, j: int| #![trigger cols@[i]@[j]]
                    0 <= i < c && 0 <= j < rows ==> cols@[i]@[j] == self@[i][j] - rhs@[i][j],
            decreases n - c,
        {
            let mut elems: Vec<i64> = Vec::new();
            let mut j: usize = 0;
            while j < rows
                invariant
                    j <= rows,
                    c < n,
                    self.wf(),
                    rhs.wf(),
                    n == self@.len(),
                    rhs@.len() == n,
                    rows == self.spec_rows(),
                    self.spec_rows() == rhs.spec_rows(),
                    mat_sub_fits(self@, rhs@),
                    elems@.len() == j,
                    forall|b: int|
                        0 <= b < j ==> #[trigger] elems@[b] == self@[c as int][b] - rhs@[c as int][b],
                decreases rows - j,
            {
                proof {
                    assert(self@[c as int][j as int] == self.cols@[c as int]@[j as int]);
                    assert(rhs@[c as int][j as int] == rhs.cols@[c as int]@[j as int]);
                }
                elems.push(self.cols[c].get(j) - rhs.cols[c].get(j));
                j = j + 1;
            }
            cols.push(Vector::new_init(elems));
            c = c + 1;
        }
        Matrix::from_cols(cols, rows)
    }

    /// Matrix multiplication: entry `(i, j)` of the result is the dot product
    /// of row `j` of `self` with column `i` of `rhs`.
    pub fn mul(&self, rhs: &Matrix) -> (r: Matrix)
        requires
            self.wf(),
            rhs.wf(),
            rhs.spec_rows() == self@.len(),
            mat_mul_fits(self@, rhs@, self.spec_rows()),
        ensures
            r.wf(),
            r.spec_rows() == self.spec_rows(),
            r@.len() == rhs@.len(),
            forall|i: int, j: int| #![trigger r@[i][j]]
                0 <= i < rhs@.len() && 0 <= j < self.spec_rows() ==> r@[i][j] == spec_dot(
                    spec_row(self@, j),
                    rhs@[i],
                ),
    {
        let m_cols = self.cols.len();
        let out_cols = rhs.cols.len();
        let out_rows = self.rows;
        let mut cols: Vec<Vector> = Vec::new();
        let mut i: usize = 0;
        while i < out_cols
            invariant
                i <= out_cols,
                self.wf(),
                rhs.wf(),
                m_cols == self@.len(),
                out_cols == rhs@.len(),
                out_rows == self.spec_rows(),
                rhs.spec_rows() == self@.len(),
                mat_mul_fits(self@, rhs@, self.spec_rows()),
                cols@.len() == i,
                forall|a: int| 0 <= a < i ==> (#[trigger] cols@[a])@.len() == out_rows,
                forall|a: int, b: int| #![trigger cols@[a]@[b]]
                    0 <= a < i && 0 <= b < out_rows ==> cols@[a]@[b] == spec_dot(
                        spec_row(self@, b),
                        rhs@[a],
                    ),
            decreases out_cols - i,
        {
            let mut elems: Vec<i64> = Vec::new();
            let mut j: usize = 0;
            while j < out_rows
                invariant
                    j <= out_rows,
                    i < out_cols,
                    self.wf(),
                    rhs.wf(),
                    m_cols == self@.len(),
                    out_cols == rhs@.len(),
                    out_rows == self.spec_rows(),
                    rhs.spec_rows() == self@.len(),
                    mat_mul_fits(self@, rhs@, self.spec_rows()),
                    elems@.len() == j,
                    forall|b: int|
                        0 <= b < j ==> #[trigger] elems@[b] == spec_dot(
                            spec_row(self@, b),
                            rhs@[i as int],
                        ),
                decreases out_rows - j,
            {
                let v = self.row_dot_col(rhs, j, i);
                elems.push(v);
                j = j + 1;
            }
            cols.push(Vector::new_init(elems));
            i = i + 1;
        }
        Matrix::from_cols(cols, out_rows)
    }

    /// The dot product of row `j` of `self` with column `i` of `rhs`.
    fn row_dot_col(&self, rhs: &Matrix, j: usize, i: usize) -> (r: i64)
        requires
            self.wf(),
            rhs.wf(),
            rhs.spec_rows() == self@.len(),
            j < self.spec_rows(),
            i < rhs@.len(),
            dot_fits(spec_row(self@, j as int), rhs@[i as int]),
        ensures
            r == spec_dot(spec_row(self@, j as int), rhs@[i as int]),
    {
        let ghost row = spec_row(self@, j as int);
        let ghost colv = rhs@[i as int];
        let ghost prods = crate::math::vector::prod_seq(row, colv);
        let n = self.cols.len();
        let mut acc: i64 = 0;
        let mut k: usize = 0;
        proof {
            assert(prods.subrange(0, 0) =~= Seq::<int>::empty());
        }
        while k < n
            invariant
                k <= n,
                self.wf(),
                rhs.wf(),
                n == self@.len(),
                rhs.spec_rows() == n,
                j < self.spec_rows(),
                i < rhs@.len(),
                row == spec_row(self@, j as int),
                colv == rhs@[i as int],
                prods == crate::math::vector::prod_seq(row, colv),
                dot_fits(row, colv),
                acc == crate::math::vector::spec_sum_int(prods.subrange(0, k as int)),
            decreases n - k,
        {
            proof {
                assert(prods.subrange(0, k + 1).drop_last() =~= prods.subrange(0, k as int));
                assert(row[k as int] == self@[k as int][j as int]);
                assert(crate::math::vector::spec_sum_int(prods.subrange(0, k + 1)) == acc + prods[k
                    as int]);
            }
            acc = acc + self.cols[k].get(j) * rhs.cols[i].get(k);
            k = k + 1;
        }
        proof {
            assert(prods.subrange(0, n as int) =~= prods);
        }
        acc
    }
}

} // verus!
