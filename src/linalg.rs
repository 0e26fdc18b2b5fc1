//! Dense integer matrices and the affine map `W·x + b`.
use vstd::prelude::*;

verus! {

/// Sum of elementwise products of two sequences of equal length.
pub open spec fn dot(a: Seq<i64>, b: Seq<i64>) -> int
    decreases a.len(),
{
    if a.len() == 0 || b.len() == 0 {
        0
    } else {
        dot(a.drop_last(), b.drop_last()) + a.last() * b.last()
    }
}

pub open spec fn abs(v: int) -> int {
    if v < 0 { -v } else { v }
}

/// Sum of the magnitudes of the elementwise products: a bound on every
/// partial sum of `dot(a, b)`, whatever the order of accumulation.
pub open spec fn abs_dot(a: Seq<i64>, b: Seq<i64>) -> int
    decreases a.len(),
{
    if a.len() == 0 || b.len() == 0 {
        0
    } else {
        abs_dot(a.drop_last(), b.drop_last()) + abs(a.last() * b.last())
    }
}

/// A dense matrix of `rows.len()` rows, each of `ncols` entries.
pub struct Matrix {
    ncols: usize,
    rows: Vec<Vec<i64>>,
}

impl Matrix {
    pub closed spec fn spec_ncols(&self) -> nat {
        self.ncols as nat
    }

    /// The matrix as a sequence of rows.
    pub closed spec fn view_rows(&self) -> Seq<Seq<i64>> {
        self.rows@.map_values(|r: Vec<i64>| r@)
    }

    pub closed spec fn wf(&self) -> bool {
        forall|i: int| 0 <= i < self.rows@.len() ==> #[trigger] self.rows@[i]@.len() == self.ncols
    }

    /// Builds a matrix from its rows; every row holds `ncols` entries.
    pub fn from_rows(ncols: usize, rows: Vec<Vec<i64>>) -> (m: Matrix)
        requires
            forall|i: int| 0 <= i < rows@.len() ==> #[trigger] rows@[i]@.len() == ncols,
        ensures
            m.wf(),
            m.spec_ncols() == ncols,
            m.view_rows() == rows@.map_values(|r: Vec<i64>| r@),
    {
        Matrix { ncols, rows }
    }

    pub fn nrows(&self) -> (n: usize)
        ensures
            n == self.view_rows().len(),
    {
        self.rows.len()
    }

    pub fn ncols(&self) -> (n: usize)
        ensures
            n == self.spec_ncols(),
    {
        self.ncols
    }
}

/// Whether every row's products with `x`, and the biases added to them, stay
/// within `i64`.
pub open spec fn affine_fits(w: Seq<Seq<i64>>, b: Seq<i64>, x: Seq<i64>) -> bool {
    forall|j: int|
        0 <= j < w.len() ==> {
            &&& #[trigger] abs_dot(w[j], x) <= i64::MAX
            &&& i64::MIN <= dot(w[j], x) + b[j] <= i64::MAX
        }
}

/// `W·x + b`, entry by entry.
pub open spec fn affine_spec(w: Seq<Seq<i64>>, b: Seq<i64>, x: Seq<i64>) -> Seq<int> {
    Seq::new(w.len(), |j: int| dot(w[j], x) + b[j])
}

/// Relies on ndarray's `ArrayBase::dot` of a two-dimensional array with a
/// one-dimensional one: entry `i` of the product is the sum over `j` of
/// `w[i][j] * x[j]`. The bound on `abs_dot` keeps every product and every
/// partial sum within `i64`, whatever order the crate accumulates in.
#[verifier::external_body]
fn mat_vec(w: &Matrix, x: &Vec<i64>) -> (r: Vec<i64>)
    requires
        w.wf(),
        x@.len() == w.spec_ncols(),
        forall|i: int| 0 <= i < w.view_rows().len() ==> #[trigger] abs_dot(w.view_rows()[i], x@) <= i64::MAX,
    ensures
        r@.len() == w.view_rows().len(),
        forall|i: int| 0 <= i < r@.len() ==> r@[i] == dot(#[trigger] w.view_rows()[i], x@),
{
    let flat: Vec<i64> = w.rows.concat();
    let a = ndarray::Array2::from_shape_vec((w.rows.len(), w.ncols), flat).unwrap();
    a.dot(&ndarray::Array1::from_vec(x.clone())).to_vec()
}

proof fn lemma_prefix(a: Seq<i64>, b: Seq<i64>, i: int)
    requires
        0 <= i < a.len(),
        a.len() == b.len(),
    ensures
        abs_dot(a.take(i + 1), b.take(i + 1)) == abs_dot(a.take(i), b.take(i)) + abs(a[i] * b[i]),
        dot(a.take(i + 1), b.take(i + 1)) == dot(a.take(i), b.take(i)) + a[i] * b[i],
{
    assert(a.take(i + 1).drop_last() =~= a.take(i));
    assert(b.take(i + 1).drop_last() =~= b.take(i));
}

/// Whether `abs_dot(a, b)` is at most `i64::MAX`.
pub fn abs_dot_fits(a: &Vec<i64>, b: &Vec<i64>) -> (r: bool)
    requires
        a@.len() == b@.len(),
    ensures
        r == (abs_dot(a@, b@) <= i64::MAX),
{
    let cap: i128 = i64::MAX as i128 + 1;
    let mut acc: i128 = 0;
    let mut i: usize = 0;
    while i < a.len()
        invariant
            a@.len() == b@.len(),
            0 <= i <= a@.len(),
            cap == i64::MAX + 1,
            acc == if abs_dot(a@.take(i as int), b@.take(i as int)) < cap {
                abs_dot(a@.take(i as int), b@.take(i as int))
            } else {
                cap as int
            },
            0 <= acc <= cap,
        decreases a@.len() - i,
    {
        let x: i128 = a[i] as i128;
        let y: i128 = b[i] as i128;
        assert(-0x4000_0000_0000_0000_0000_0000_0000_0000 <= x * y <= 0x4000_0000_0000_0000_0000_0000_0000_0000) by (nonlinear_arith)
            requires
                -0x8000_0000_0000_0000 <= x <= 0x7fff_ffff_ffff_ffff,
                -0x8000_0000_0000_0000 <= y <= 0x7fff_ffff_ffff_ffff,
        ;
        let p: i128 = x * y;
        let m: i128 = if p < 0 { -p } else { p };
        proof {
            lemma_prefix(a@, b@, i as int);
        }
        acc = if acc + m < cap { acc + m } else { cap };
        i = i + 1;
    }
    assert(a@.take(a@.len() as int) =~= a@);
    assert(b@.take(b@.len() as int) =~= b@);
    acc < cap
}

/// `W·x + b`, or `None` where some entry, or a partial sum on the way to it,
/// would leave `i64`.
pub fn affine(w: &Matrix, b: &Vec<i64>, x: &Vec<i64>) -> (r: Option<Vec<i64>>)
    requires
        w.wf(),
        b@.len() == w.view_rows().len(),
        x@.len() == w.spec_ncols(),
    ensures
        r.is_some() <==> affine_fits(w.view_rows(), b@, x@),
        r.is_some() ==> r.unwrap()@.len() == b@.len() && forall|j: int|
            0 <= j < b@.len() ==> r.unwrap()@[j] == #[trigger] affine_spec(w.view_rows(), b@, x@)[j],
{
    let n = w.rows.len();
    let mut j: usize = 0;
    while j < n
        invariant
            w.wf(),
            n == w.rows@.len(),
            x@.len() == w.ncols,
            0 <= j <= n,
            forall|k: int| 0 <= k < j ==> #[trigger] abs_dot(w.view_rows()[k], x@) <= i64::MAX,
        decreases n - j,
    {
        if !abs_dot_fits(&w.rows[j], x) {
            assert(w.view_rows()[j as int] == w.rows@[j as int]@);
            assert(!affine_fits(w.view_rows(), b@, x@));
            return None;
        }
        assert(w.view_rows()[j as int] == w.rows@[j as int]@);
        j = j + 1;
    }
    let products = mat_vec(w, x);
    let mut out: Vec<i64> = Vec::new();
    let mut k: usize = 0;
    while k < n
        invariant
            n == w.view_rows().len(),
            b@.len() == n,
            products@.len() == n,
            forall|i: int| 0 <= i < n ==> products@[i] == dot(#[trigger] w.view_rows()[i], x@),
            forall|i: int| 0 <= i < n ==> #[trigger] abs_dot(w.view_rows()[i], x@) <= i64::MAX,
            0 <= k <= n,
            out@.len() == k,
            forall|i: int| 0 <= i < k ==> out@[i] == #[trigger] affine_spec(w.view_rows(), b@, x@)[i],
            forall|i: int| 0 <= i < k ==> i64::MIN <= #[trigger] dot(w.view_rows()[i], x@) + b@[i] <= i64::MAX,
        decreases n - k,
    {
        let p = products[k];
        let c = b[k];
        assert(p == dot(w.view_rows()[k as int], x@));
        if (c > 0 && p > i64::MAX - c) || (c < 0 && p < i64::MIN - c) {
            assert(abs_dot(w.view_rows()[k as int], x@) <= i64::MAX);
            assert(!affine_fits(w.view_rows(), b@, x@));
            return None;
        }
        out.push(p + c);
        k = k + 1;
    }
    Some(out)
}

} // verus!
