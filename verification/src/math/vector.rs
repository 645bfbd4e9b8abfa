use vstd::prelude::*;

use crate::math::matrix::Matrix;

verus! {

/// A fixed sized vector of integer components; the dimension is the length
/// of the backing storage.
#[derive(Debug, PartialEq, Eq, Hash)]
pub struct Vector {
    elems: Vec<i64>,
}

impl Clone for Vector {
    fn clone(&self) -> (r: Self)
        ensures
            r@ == self@,
    {
        let n = self.elems.len();
        let mut elems: Vec<i64> = Vec::new();
        let mut k: usize = 0;
        while k < n
            invariant
                k <= n,
                n == self@.len(),
                elems@.len() == k,
                forall|i: int| 0 <= i < k ==> #[trigger] elems@[i] == self@[i],
            decreases n - k,
        {
            elems.push(self.elems[k]);
            k = k + 1;
        }
        proof {
            assert(elems@ =~= self@);
        }
        Vector { elems }
    }
}

/// Sum of a sequence of integer components, folded from the left.
pub open spec fn spec_sum(s: Seq<i64>) -> int
    decreases s.len(),
{
    if s.len() == 0 {
        0
    } else {
        spec_sum(s.drop_last()) + s.last()
    }
}

/// Every left-to-right partial sum of `s` stays within the machine range.
pub open spec fn sum_fits(s: Seq<i64>) -> bool {
    forall|k: int| 0 <= k <= s.len() ==> i64::MIN <= spec_sum(#[trigger] s.subrange(0, k)) <= i64::MAX
}

/// The sequence of pairwise products of two equally long sequences.
pub open spec fn prod_seq(a: Seq<i64>, b: Seq<i64>) -> Seq<int> {
    Seq::new(a.len(), |i: int| a[i] * b[i])
}

/// Sum of a sequence of mathematical integers, folded from the left.
pub open spec fn spec_sum_int(s: Seq<int>) -> int
    decreases s.len(),
{
    if s.len() == 0 {
        0
    } else {
        spec_sum_int(s.drop_last()) + s.last()
    }
}

/// The dot product of two equally long sequences.
pub open spec fn spec_dot(a: Seq<i64>, b: Seq<i64>) -> int {
    spec_sum_int(prod_seq(a, b))
}

/// Every pairwise product and every partial sum of the dot product stays
/// within the machine range.
pub open spec fn dot_fits(a: Seq<i64>, b: Seq<i64>) -> bool {
    &&& forall|i: int| #![trigger a[i]]
        0 <= i < a.len() ==> i64::MIN <= a[i] * b[i] <= i64::MAX
    &&& forall|k: int|
        0 <= k <= a.len() ==> i64::MIN <= spec_sum_int(
            #[trigger] prod_seq(a, b).subrange(0, k),
        ) <= i64::MAX
}

impl View for Vector {
    type V = Seq<i64>;

    closed spec fn view(&self) -> Seq<i64> {
        self.elems@
    }
}

impl Vector {
    /// Creates a vector of dimension `n` filled with `value`.
    pub fn new(n: usize, value: i64) -> (v: Vector)
        ensures
            v@.len() == n,
            forall|i: int| 0 <= i < n ==> #[trigger] v@[i] == value,
    {
        let mut elems: Vec<i64> = Vec::new();
        let mut k: usize = 0;
        while k < n
            invariant
                k <= n,
                elems@.len() == k,
                forall|i: int| 0 <= i < k ==> #[trigger] elems@[i] == value,
            decreases n - k,
        {
            elems.push(value);
            k = k + 1;
        }
        Vector { elems }
    }

    /// Creates a vector initialized with `values`.
    pub fn new_init(values: Vec<i64>) -> (v: Vector)
        ensures
            v@ == values@,
    {
        Vector { elems: values }
    }

    /// The dimension of the vector.
    pub fn len(&self) -> (n: usize)
        ensures
            n == self@.len(),
    {
        self.elems.len()
    }

    /// Reads the component at `idx`.
    pub fn get(&self, idx: usize) -> (r: i64)
        requires
            idx < self@.len(),
        ensures
            r == self@[idx as int],
    {
        self.elems[idx]
    }

    /// Overwrites the component at `idx`.
    pub fn set(&mut self, idx: usize, value: i64)
        requires
            idx < old(self)@.len(),
        ensures
            final(self)@ == old(self)@.update(idx as int, value),
    {
        self.elems.set(idx, value);
    }

    /// Hands the components back as plain storage.
    pub fn into_elems(self) -> (r: Vec<i64>)
        ensures
            r@ == self@,
    {
        self.elems
    }

    /// Gets the first component of a vector with at least one dimension.
    pub fn x(&self) -> (r: i64)
        requires
            self@.len() > 0,
        ensures
            r == self@[0],
    {
        self.elems[0]
    }

    /// Gets the second component of a vector with at least two dimensions.
    pub fn y(&self) -> (r: i64)
        requires
            self@.len() > 1,
        ensures
            r == self@[1],
    {
        self.elems[1]
    }

    /// Gets the third component of a vector with at least three dimensions.
    pub fn z(&self) -> (r: i64)
        requires
            self@.len() > 2,
        ensures
            r == self@[2],
    {
        self.elems[2]
    }

    /// Gets the fourth component of a vector with at least four dimensions.
    pub fn w(&self) -> (r: i64)
        requires
            self@.len() > 3,
        ensures
            r == self@[3],
    {
        self.elems[3]
    }

    /// Shortens the vector to its first `p` components.
    pub fn resize(&self, p: usize) -> (r: Vector)
        requires
            p <= self@.len(),
        ensures
            r@ == self@.subrange(0, p as int),
    {
        let mut elems: Vec<i64> = Vec::new();
        let mut k: usize = 0;
        while k < p
            invariant
                k <= p,
                p <= self@.len(),
                elems@.len() == k,
                forall|i: int| 0 <= i < k ==> #[trigger] elems@[i] == self@[i],
            decreases p - k,
        {
            elems.push(self.elems[k]);
            k = k + 1;
        }
        proof {
            assert(elems@ =~= self@.subrange(0, p as int));
        }
        Vector { elems }
    }

    /// Adds up all components.
    pub fn sum(&self) -> (r: i64)
        requires
            sum_fits(self@),
        ensures
            r == spec_sum(self@),
    {
        let n = self.elems.len();
        let mut acc: i64 = 0;
        let mut k: usize = 0;
        proof {
            assert(self@.subrange(0, 0) =~= Seq::<i64>::empty());
        }
        while k < n
            invariant
                k <= n,
                n == self@.len(),
                sum_fits(self@),
                acc == spec_sum(self@.subrange(0, k as int)),
            decreases n - k,
        {
            proof {
                assert(self@.subrange(0, k + 1).drop_last() =~= self@.subrange(0, k as int));
                assert(spec_sum(self@.subrange(0, k + 1)) == acc + self@[k as int]);
            }
            acc = acc + self.elems[k];
            k = k + 1;
        }
        proof {
            assert(self@.subrange(0, n as int) =~= self@);
        }
        acc
    }

    /// The dot product with `rhs`.
    pub fn dot(&self, rhs: &Vector) -> (r: i64)
        requires
            self@.len() == rhs@.len(),
            dot_fits(self@, rhs@),
        ensures
            r == spec_dot(self@, rhs@),
    {
        let n = self.elems.len();
        let ghost prods = prod_seq(self@, rhs@);
        let mut acc: i64 = 0;
        let mut k: usize = 0;
        proof {
            assert(prods.subrange(0, 0) =~= Seq::<int>::empty());
        }
        while k < n
            invariant
                k <= n,
                n == self@.len(),
                rhs@.len() == n,
                dot_fits(self@, rhs@),
                prods == prod_seq(self@, rhs@),
                acc == spec_sum_int(prods.subrange(0, k as int)),
            decreases n - k,
        {
            proof {
                assert(prods.subrange(0, k + 1).drop_last() =~= prods.subrange(0, k as int));
                assert(spec_sum_int(prods.subrange(0, k + 1)) == acc + prods[k as int]);
            }
            acc = acc + self.elems[k] * rhs.elems[k];
            k = k + 1;
        }
        proof {
            assert(prods.subrange(0, n as int) =~= prods);
        }
        acc
    }

    /// The cross product of two three-dimensional vectors.
    pub fn cross(&self, rhs: &Vector) -> (r: Vector)
        requires
            self@.len() == 3,
            rhs@.len() == 3,
            forall|i: int, j: int| #![trigger self@[i], rhs@[j]]
                0 <= i < 3 && 0 <= j < 3 ==> i64::MIN <= self@[i] * rhs@[j] <= i64::MAX,
            i64::MIN <= self@[1] * rhs@[2] - self@[2] * rhs@[1] <= i64::MAX,
            i64::MIN <= self@[2] * rhs@[0] - self@[0] * rhs@[2] <= i64::MAX,
            i64::MIN <= self@[0] * rhs@[1] - self@[1] * rhs@[0] <= i64::MAX,
        ensures
            r@.len() == 3,
            r@[0] == self@[1] * rhs@[2] - self@[2] * rhs@[1],
            r@[1] == self@[2] * rhs@[0] - self@[0] * rhs@[2],
            r@[2] == self@[0] * rhs@[1] - self@[1] * rhs@[0],
    {
        let mut elems: Vec<i64> = Vec::new();
        elems.push(self.elems[1] * rhs.elems[2] - self.elems[2] * rhs.elems[1]);
        elems.push(self.elems[2] * rhs.elems[0] - self.elems[0] * rhs.elems[2]);
        elems.push(self.elems[0] * rhs.elems[1] - self.elems[1] * rhs.elems[0]);
        Vector { elems }
    }

    /// Negates every component.
    pub fn neg(&self) -> (r: Vector)
        requires
            forall|i: int| 0 <= i < self@.len() ==> #[trigger] self@[i] != i64::MIN,
        ensures
            r@.len() == self@.len(),
            forall|i: int| 0 <= i < self@.len() ==> #[trigger] r@[i] == -self@[i],
    {
        let n = self.elems.len();
        let mut elems: Vec<i64> = Vec::new();
        let mut k: usize = 0;
        while k < n
            invariant
                k <= n,
                n == self@.len(),
                forall|i: int| 0 <= i < n ==> #[trigger] self@[i] != i64::MIN,
                elems@.len() == k,
                forall|i: int| 0 <= i < k ==> #[trigger] elems@[i] == -self@[i],
            decreases n - k,
        {
            elems.push(-self.elems[k]);
            k = k + 1;
        }
        Vector { elems }
    }

    /// Componentwise addition.
    pub fn add(&self, rhs: &Vector) -> (r: Vector)
        requires
            self@.len() == rhs@.len(),
            forall|i: int| #![trigger self@[i]]
                0 <= i < self@.len() ==> i64::MIN <= self@[i] + rhs@[i] <= i64::MAX,
        ensures
            r@.len() == self@.len(),
            forall|i: int| 0 <= i < self@.len() ==> #[trigger] r@[i] == self@[i] + rhs@[i],
    {
        let n = self.elems.len();
        let mut elems: Vec<i64> = Vec::new();
        let mut k: usize = 0;
        while k < n
            invariant
                k <= n,
                n == self@.len(),
                rhs@.len() == n,
                forall|i: int| #![trigger self@[i]]
                    0 <= i < n ==> i64::MIN <= self@[i] + rhs@[i] <= i64::MAX,
                elems@.len() == k,
                forall|i: int| 0 <= i < k ==> #[trigger] elems@[i] == self@[i] + rhs@[i],
            decreases n - k,
        {
            elems.push(self.elems[k] + rhs.elems[k]);
            k = k + 1;
        }
        Vector { elems }
    }

    /// Componentwise subtraction.
    pub fn sub(&self, rhs: &Vector) -> (r: Vector)
        requires
            self@.len() == rhs@.len(),
            forall|i: int| #![trigger self@[i]]
                0 <= i < self@.len() ==> i64::MIN <= self@[i] - rhs@[i] <= i64::MAX,
        ensures
            r@.len() == self@.len(),
            forall|i: int| 0 <= i < self@.len() ==> #[trigger] r@[i] == self@[i] - rhs@[i],
    {
        let n = self.elems.len();
        let mut elems: Vec<i64> = Vec::new();
        let mut k: usize = 0;
        while k < n
            invariant
                k <= n,
                n == self@.len(),
                rhs@.len() == n,
                forall|i: int| #![trigger self@[i]]
                    0 <= i < n ==> i64::MIN <= self@[i] - rhs@[i] <= i64::MAX,
                elems@.len() == k,
                forall|i: int| 0 <= i < k ==> #[trigger] elems@[i] == self@[i] - rhs@[i],
            decreases n - k,
        {
            elems.push(self.elems[k] - rhs.elems[k]);
            k = k + 1;
        }
        Vector { elems }
    }

    /// Componentwise multiplication.
    pub fn mul(&self, rhs: &Vector) -> (r: Vector)
        requires
            self@.len() == rhs@.len(),
            forall|i: int| #![trigger self@[i]]
                0 <= i < self@.len() ==> i64::MIN <= self@[i] * rhs@[i] <= i64::MAX,
        ensures
            r@.len() == self@.len(),
            forall|i: int| 0 <= i < self@.len() ==> #[trigger] r@[i] == self@[i] * rhs@[i],
    {
        let n = self.elems.len();
        let mut elems: Vec<i64> = Vec::new();
        let mut k: usize = 0;
        while k < n
            invariant
                k <= n,
                n == self@.len(),
                rhs@.len() == n,
                forall|i: int| #![trigger self@[i]]
                    0 <= i < n ==> i64::MIN <= self@[i] * rhs@[i] <= i64::MAX,
                elems@.len() == k,
                forall|i: int| 0 <= i < k ==> #[trigger] elems@[i] == self@[i] * rhs@[i],
            decreases n - k,
        {
            elems.push(self.elems[k] * rhs.elems[k]);
            k = k + 1;
        }
        Vector { elems }
    }

    /// Multiplies every component by `rhs`.
    pub fn mul_scalar(&self, rhs: i64) -> (r: Vector)
        requires
            forall|i: int| #![trigger self@[i]]
                0 <= i < self@.len() ==> i64::MIN <= self@[i] * rhs <= i64::MAX,
        ensures
            r@.len() == self@.len(),
            forall|i: int| 0 <= i < self@.len() ==> #[trigger] r@[i] == self@[i] * rhs,
    {
        let n = self.elems.len();
        let mut elems: Vec<i64> = Vec::new();
        let mut k: usize = 0;
        while k < n
            invariant
                k <= n,
                n == self@.len(),
                forall|i: int| #![trigger self@[i]]
                    0 <= i < n ==> i64::MIN <= self@[i] * rhs <= i64::MAX,
                elems@.len() == k,
                forall|i: int| 0 <= i < k ==> #[trigger] elems@[i] == self@[i] * rhs,
            decreases n - k,
        {
            elems.push(self.elems[k] * rhs);
            k = k + 1;
        }
        Vector { elems }
    }

    /// Multiplies a vector by a matrix: component `j` of the result is the
    /// dot product of `self` with row `j` of `m`, so the vector must have
    /// one component per matrix column.
    pub fn mul_mat(&self, m: &Matrix) -> (r: Vector)
        requires
            m.wf(),
            self@.len() == m@.len(),
            forall|j: int|
                0 <= j < m.spec_rows() ==> dot_fits(
                    self@,
                    #[trigger] crate::math::matrix::spec_row(m@, j),
                ),
        ensures
            r@.len() == m.spec_rows(),
            forall|j: int|
                0 <= j < m.spec_rows() ==> #[trigger] r@[j] == spec_dot(
                    self@,
                    crate::math::matrix::spec_row(m@, j),
                ),
    {
        proof {
            m.lemma_wf();
        }
        let cols = m.cols_count();
        let rows = m.rows_count();
        let mut elems: Vec<i64> = Vec::new();
        let mut j: usize = 0;
        while j < rows
            invariant
                j <= rows,
                m.wf(),
                cols == m@.len(),
                rows == m.spec_rows(),
                self@.len() == m@.len(),
                forall|b: int|
                    0 <= b < rows ==> dot_fits(
                        self@,
                        #[trigger] crate::math::matrix::spec_row(m@, b),
                    ),
                elems@.len() == j,
                forall|b: int|
                    0 <= b < j ==> #[trigger] elems@[b] == spec_dot(
                        self@,
                        crate::math::matrix::spec_row(m@, b),
                    ),
            decreases rows - j,
        {
            let ghost row = crate::math::matrix::spec_row(m@, j as int);
            let ghost prods = prod_seq(self@, row);
            let mut acc: i64 = 0;
            let mut k: usize = 0;
            proof {
                assert(prods.subrange(0, 0) =~= Seq::<int>::empty());
            }
            while k < cols
                invariant
                    k <= cols,
                    j < rows,
                    m.wf(),
                    cols == m@.len(),
                    rows == m.spec_rows(),
                    self@.len() == m@.len(),
                    row == crate::math::matrix::spec_row(m@, j as int),
                    prods == prod_seq(self@, row),
                    dot_fits(self@, row),
                    acc == spec_sum_int(prods.subrange(0, k as int)),
                decreases cols - k,
            {
                proof {
                    m.lemma_wf();
                    assert(prods.subrange(0, k + 1).drop_last() =~= prods.subrange(0, k as int));
                    assert(row[k as int] == m@[k as int][j as int]);
                    assert(spec_sum_int(prods.subrange(0, k + 1)) == acc + prods[k as int]);
                }
                let c = m.col_ref(k);
                acc = acc + self.elems[k] * c.get(j);
                k = k + 1;
            }
            proof {
                assert(prods.subrange(0, cols as int) =~= prods);
            }
            elems.push(acc);
            j = j + 1;
        }
        Vector { elems }
    }
}

} // verus!
