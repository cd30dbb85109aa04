//! Matrices of `R` rows and `C` columns, stored row by row.
use crate::vector::{
    add_cw, add_seq, cw_fits, div_cw, div_seq, dot, dot_fits, dot_seq, ints, lemma_vector_len, mul_cw,
    mul_seq, neg_cw, neg_seq, splat, sub_cw, sub_seq, Vector,
};
use crate::{fits, ArithmeticAssign, ArithmeticType, SignedType, VectorizedType};
use vstd::prelude::*;

verus! {

broadcast use {lemma_vector_len, vstd::array::group_array_axioms};

/// A matrix of `R` rows and `C` columns.
#[derive(Clone, Copy, Debug, PartialEq, Eq)]
pub struct Matrix<T, const R: usize, const C: usize> where T: VectorizedType {
    data: [[T; C]; R],
}

impl<T: VectorizedType, const R: usize, const C: usize> View for Matrix<T, R, C> {
    type V = Seq<Seq<T>>;

    /// The rows, each a sequence of `C` entries.
    closed spec fn view(&self) -> Seq<Seq<T>> {
        Seq::new(R as nat, |i: int| Seq::new(C as nat, |j: int| self.data[i][j]))
    }
}

/// A matrix has `R` rows of `C` entries.
pub broadcast proof fn lemma_matrix_shape<T: VectorizedType, const R: usize, const C: usize>(
    m: Matrix<T, R, C>,
)
    ensures
        #[trigger] m@.len() == R,
        forall|i: int| 0 <= i < R ==> (#[trigger] m@[i]).len() == C,
{
}

/// The integers that the entries of a matrix stand for.
pub open spec fn mints<T: ArithmeticAssign>(m: Seq<Seq<T>>) -> Seq<Seq<int>> {
    m.map_values(|row: Seq<T>| ints(row))
}

/// Column `j` of a matrix of integers.
pub open spec fn column(m: Seq<Seq<int>>, j: int) -> Seq<int> {
    Seq::new(m.len(), |i: int| m[i][j])
}

/// `a * d - c * b`
pub open spec fn det2(a: int, b: int, c: int, d: int) -> int {
    a * d - c * b
}

/// Both products and the difference of `det2` fit in `T`.
pub open spec fn det2_fits<T: ArithmeticAssign>(a: int, b: int, c: int, d: int) -> bool {
    fits::<T>(a * d) && fits::<T>(c * b) && fits::<T>(det2(a, b, c, d))
}

/// The determinant of the 3x3 matrix with rows `(a, b, c)`, `(d, e, f)`, `(g, h, i)`,
/// expanded along the first row.
pub open spec fn det3(a: int, b: int, c: int, d: int, e: int, f: int, g: int, h: int, i: int) -> int {
    a * det2(e, f, h, i) - b * det2(d, f, g, i) + c * det2(d, e, g, h)
}

/// Every intermediate value of `det3`, computed as written, fits in `T`.
pub open spec fn det3_fits<T: ArithmeticAssign>(
    a: int,
    b: int,
    c: int,
    d: int,
    e: int,
    f: int,
    g: int,
    h: int,
    i: int,
) -> bool {
    &&& det2_fits::<T>(e, f, h, i)
    &&& det2_fits::<T>(d, f, g, i)
    &&& det2_fits::<T>(d, e, g, h)
    &&& fits::<T>(a * det2(e, f, h, i))
    &&& fits::<T>(b * det2(d, f, g, i))
    &&& fits::<T>(c * det2(d, e, g, h))
    &&& fits::<T>(a * det2(e, f, h, i) - b * det2(d, f, g, i))
    &&& fits::<T>(det3(a, b, c, d, e, f, g, h, i))
}

/// Entry-wise sum of two integer matrices.
pub open spec fn madd(a: Seq<Seq<int>>, b: Seq<Seq<int>>) -> Seq<Seq<int>> {
    Seq::new(a.len(), |i: int| add_seq(a[i], b[i]))
}

/// Entry-wise difference of two integer matrices.
pub open spec fn msub(a: Seq<Seq<int>>, b: Seq<Seq<int>>) -> Seq<Seq<int>> {
    Seq::new(a.len(), |i: int| sub_seq(a[i], b[i]))
}

/// Entry-wise negation of an integer matrix.
pub open spec fn mneg(a: Seq<Seq<int>>) -> Seq<Seq<int>> {
    Seq::new(a.len(), |i: int| neg_seq(a[i]))
}

/// `s` added to every entry of the integer matrix.
pub open spec fn madd_s(a: Seq<Seq<int>>, s: int) -> Seq<Seq<int>> {
    Seq::new(a.len(), |i: int| add_seq(a[i], splat(s, a[i].len())))
}

/// `s` subtracted from every entry of the integer matrix.
pub open spec fn msub_s(a: Seq<Seq<int>>, s: int) -> Seq<Seq<int>> {
    Seq::new(a.len(), |i: int| sub_seq(a[i], splat(s, a[i].len())))
}

/// Every entry of the integer matrix multiplied by `s`.
pub open spec fn mmul_s(a: Seq<Seq<int>>, s: int) -> Seq<Seq<int>> {
    Seq::new(a.len(), |i: int| mul_seq(a[i], splat(s, a[i].len())))
}

/// Every entry of the integer matrix divided by `s`, rounding toward zero.
pub open spec fn mdiv_s(a: Seq<Seq<int>>, s: int) -> Seq<Seq<int>> {
    Seq::new(a.len(), |i: int| div_seq(a[i], splat(s, a[i].len())))
}

/// Every entry of the integer matrix fits in `T`.
pub open spec fn mfits<T: ArithmeticAssign>(m: Seq<Seq<int>>) -> bool {
    forall|i: int| 0 <= i < m.len() ==> cw_fits::<T>(#[trigger] m[i])
}

/// The product of an integer matrix with a column vector: entry `i` is `m[i] . v`.
pub open spec fn mat_vec(m: Seq<Seq<int>>, v: Seq<int>) -> Seq<int> {
    Seq::new(m.len(), |i: int| dot_seq(m[i], v))
}

/// The product of a row vector with an integer matrix of `c` columns: entry `j` is
/// `column(m, j) . v`.
pub open spec fn vec_mat(v: Seq<int>, m: Seq<Seq<int>>, c: nat) -> Seq<int> {
    Seq::new(c, |j: int| dot_seq(column(m, j), v))
}

/// The product of two integer matrices, the second of `c` columns.
pub open spec fn mat_mul(a: Seq<Seq<int>>, b: Seq<Seq<int>>, c: nat) -> Seq<Seq<int>> {
    Seq::new(a.len(), |i: int| Seq::new(c, |j: int| dot_seq(a[i], column(b, j))))
}

/// The transpose of a matrix whose rows have `c` entries.
pub open spec fn transpose_seq<A>(m: Seq<Seq<A>>, c: nat) -> Seq<Seq<A>> {
    Seq::new(c, |j: int| Seq::new(m.len(), |i: int| m[i][j]))
}

/// The entries of a matrix of `c` columns, row by row.
pub open spec fn flatten_rows<A>(m: Seq<Seq<A>>, c: nat) -> Seq<A> {
    Seq::new(m.len() * c, |k: int| m[k / c as int][k % c as int])
}

/// The integer matrix of `r` rows and `c` columns with ones on the diagonal.
pub open spec fn identity_seq(r: nat, c: nat) -> Seq<Seq<int>> {
    Seq::new(r, |i: int| Seq::new(c, |j: int| if i == j { 1int } else { 0int }))
}

/// `x` times every entry of the integer matrix.
pub open spec fn mscale(m: Seq<Seq<int>>, x: int) -> Seq<Seq<int>> {
    Seq::new(m.len(), |i: int| Seq::new(m[i].len(), |j: int| x * m[i][j]))
}

/// Entry `(i, j)` of `mints(m)` is the integer of entry `(i, j)` of `m`.
pub proof fn lemma_mints<T: ArithmeticAssign>(m: Seq<Seq<T>>)
    ensures
        mints(m).len() == m.len(),
        forall|i: int| 0 <= i < m.len() ==> (#[trigger] mints(m)[i]).len() == m[i].len(),
        forall|i: int, j: int|
            0 <= i < m.len() && 0 <= j < m[i].len() ==> #[trigger] mints(m)[i][j] == m[i][j].to_int(),
{
}

/// The determinant of a 2x2 integer matrix.
pub open spec fn mdet2(m: Seq<Seq<int>>) -> int {
    det2(m[0][0], m[0][1], m[1][0], m[1][1])
}

/// The determinant of a 3x3 integer matrix, expanded along the first row.
pub open spec fn mdet3(m: Seq<Seq<int>>) -> int {
    det3(m[0][0], m[0][1], m[0][2], m[1][0], m[1][1], m[1][2], m[2][0], m[2][1], m[2][2])
}

/// Every intermediate value of the 3x3 determinant fits in `T`.
pub open spec fn mdet3_fits<T: ArithmeticAssign>(m: Seq<Seq<int>>) -> bool {
    det3_fits::<T>(m[0][0], m[0][1], m[0][2], m[1][0], m[1][1], m[1][2], m[2][0], m[2][1], m[2][2])
}

/// `x - y + z` and its parts fit in `T`.
pub open spec fn sum3_fits<T: ArithmeticAssign>(x: int, y: int, z: int) -> bool {
    fits::<T>(x) && fits::<T>(y) && fits::<T>(z) && fits::<T>(x - y) && fits::<T>(x - y + z)
}

/// The determinant of a 4x4 integer matrix, computed from the 2x2 minors of the
/// last two rows, then the 3x3 minors of the last three rows, then along the first row.
pub open spec fn mdet4(x: Seq<Seq<int>>) -> int {
    let (a, b, c, d) = (x[0][0], x[0][1], x[0][2], x[0][3]);
    let (e, f, g, h) = (x[1][0], x[1][1], x[1][2], x[1][3]);
    let (i, j, k, l) = (x[2][0], x[2][1], x[2][2], x[2][3]);
    let (mm, n, o, p) = (x[3][0], x[3][1], x[3][2], x[3][3]);
    let inmj = i * n - mm * j;
    let iomk = i * o - mm * k;
    let ipml = i * p - mm * l;
    let jpnl = j * p - n * l;
    let jonk = j * o - n * k;
    let kpol = k * p - o * l;
    let fgh = f * kpol - g * jpnl + h * jonk;
    let egh = e * kpol - g * ipml + h * iomk;
    let efh = e * jpnl - f * ipml + h * inmj;
    let efg = e * jonk - f * iomk + g * inmj;
    a * fgh - b * egh + c * efh - d * efg
}

/// Every intermediate value of the 4x4 determinant, computed as `mdet4` writes it,
/// fits in `T`.
pub open spec fn mdet4_fits<T: ArithmeticAssign>(x: Seq<Seq<int>>) -> bool {
    let (a, b, c, d) = (x[0][0], x[0][1], x[0][2], x[0][3]);
    let (e, f, g, h) = (x[1][0], x[1][1], x[1][2], x[1][3]);
    let (i, j, k, l) = (x[2][0], x[2][1], x[2][2], x[2][3]);
    let (mm, n, o, p) = (x[3][0], x[3][1], x[3][2], x[3][3]);
    let inmj = i * n - mm * j;
    let iomk = i * o - mm * k;
    let ipml = i * p - mm * l;
    let jpnl = j * p - n * l;
    let jonk = j * o - n * k;
    let kpol = k * p - o * l;
    let fgh = f * kpol - g * jpnl + h * jonk;
    let egh = e * kpol - g * ipml + h * iomk;
    let efh = e * jpnl - f * ipml + h * inmj;
    let efg = e * jonk - f * iomk + g * inmj;
    &&& det2_fits::<T>(i, j, mm, n)
    &&& det2_fits::<T>(i, k, mm, o)
    &&& det2_fits::<T>(i, l, mm, p)
    &&& det2_fits::<T>(j, l, n, p)
    &&& det2_fits::<T>(j, k, n, o)
    &&& det2_fits::<T>(k, l, o, p)
    &&& sum3_fits::<T>(f * kpol, g * jpnl, h * jonk)
    &&& sum3_fits::<T>(e * kpol, g * ipml, h * iomk)
    &&& sum3_fits::<T>(e * jpnl, f * ipml, h * inmj)
    &&& sum3_fits::<T>(e * jonk, f * iomk, g * inmj)
    &&& sum3_fits::<T>(a * fgh, b * egh, c * efh)
    &&& fits::<T>(d * efg)
    &&& fits::<T>(a * fgh - b * egh + c * efh - d * efg)
}


/// The transpose of the cofactor matrix of a 3x3 integer matrix (its adjugate).
pub open spec fn mcof3(x: Seq<Seq<int>>) -> Seq<Seq<int>> {
    let (a, b, c) = (x[0][0], x[0][1], x[0][2]);
    let (d, e, f) = (x[1][0], x[1][1], x[1][2]);
    let (g, h, i) = (x[2][0], x[2][1], x[2][2]);
    seq![
        seq![det2(e, f, h, i), -det2(b, c, h, i), det2(b, c, e, f)],
        seq![-det2(d, f, g, i), det2(a, c, g, i), -det2(a, c, d, f)],
        seq![det2(d, e, g, h), -det2(a, b, g, h), det2(a, b, d, e)],
    ]
}

/// Every 2x2 minor of the adjugate, and each negated one, fits in `T`.
pub open spec fn mcof3_fits<T: ArithmeticAssign>(x: Seq<Seq<int>>) -> bool {
    let (a, b, c) = (x[0][0], x[0][1], x[0][2]);
    let (d, e, f) = (x[1][0], x[1][1], x[1][2]);
    let (g, h, i) = (x[2][0], x[2][1], x[2][2]);
    &&& det2_fits::<T>(e, f, h, i)
    &&& det2_fits::<T>(b, c, h, i)
    &&& fits::<T>(-det2(b, c, h, i))
    &&& det2_fits::<T>(b, c, e, f)
    &&& det2_fits::<T>(d, f, g, i)
    &&& fits::<T>(-det2(d, f, g, i))
    &&& det2_fits::<T>(a, c, g, i)
    &&& det2_fits::<T>(a, c, d, f)
    &&& fits::<T>(-det2(a, c, d, f))
    &&& det2_fits::<T>(d, e, g, h)
    &&& det2_fits::<T>(a, b, g, h)
    &&& fits::<T>(-det2(a, b, g, h))
    &&& det2_fits::<T>(a, b, d, e)
}

/// The transpose of the cofactor matrix of a 4x4 integer matrix (its adjugate).
pub open spec fn mcof4(x: Seq<Seq<int>>) -> Seq<Seq<int>> {
    let (a, b, c, d) = (x[0][0], x[0][1], x[0][2], x[0][3]);
    let (e, f, g, h) = (x[1][0], x[1][1], x[1][2], x[1][3]);
    let (i, j, k, l) = (x[2][0], x[2][1], x[2][2], x[2][3]);
    let (mm, n, o, p) = (x[3][0], x[3][1], x[3][2], x[3][3]);
    seq![
        seq![det3(f, g, h, j, k, l, n, o, p), -det3(b, c, d, j, k, l, n, o, p), det3(b, c, d, f, g, h, n, o, p), -det3(b, c, d, f, g, h, j, k, l)],
        seq![-det3(e, g, h, i, k, l, mm, o, p), det3(a, c, d, i, k, l, mm, o, p), -det3(a, c, d, e, g, h, mm, o, p), det3(a, c, d, e, g, h, i, k, l)],
        seq![det3(e, f, h, i, j, l, mm, n, p), -det3(a, b, d, i, j, l, mm, n, p), det3(a, b, d, e, f, h, mm, n, p), -det3(a, b, d, e, f, h, i, j, l)],
        seq![-det3(e, f, g, i, j, k, mm, n, o), det3(a, b, c, i, j, k, mm, n, o), -det3(a, b, c, e, f, g, mm, n, o), det3(a, b, c, e, f, g, i, j, k)],
    ]
}

/// Every 3x3 minor of the adjugate, computed as `det3` writes it, and each negated
/// one, fits in `T`.
pub open spec fn mcof4_fits<T: ArithmeticAssign>(x: Seq<Seq<int>>) -> bool {
    let (a, b, c, d) = (x[0][0], x[0][1], x[0][2], x[0][3]);
    let (e, f, g, h) = (x[1][0], x[1][1], x[1][2], x[1][3]);
    let (i, j, k, l) = (x[2][0], x[2][1], x[2][2], x[2][3]);
    let (mm, n, o, p) = (x[3][0], x[3][1], x[3][2], x[3][3]);
    &&& det3_fits::<T>(f, g, h, j, k, l, n, o, p)
    &&& det3_fits::<T>(b, c, d, j, k, l, n, o, p)
    &&& fits::<T>(-det3(b, c, d, j, k, l, n, o, p))
    &&& det3_fits::<T>(b, c, d, f, g, h, n, o, p)
    &&& det3_fits::<T>(b, c, d, f, g, h, j, k, l)
    &&& fits::<T>(-det3(b, c, d, f, g, h, j, k, l))
    &&& det3_fits::<T>(e, g, h, i, k, l, mm, o, p)
    &&& fits::<T>(-det3(e, g, h, i, k, l, mm, o, p))
    &&& det3_fits::<T>(a, c, d, i, k, l, mm, o, p)
    &&& det3_fits::<T>(a, c, d, e, g, h, mm, o, p)
    &&& fits::<T>(-det3(a, c, d, e, g, h, mm, o, p))
    &&& det3_fits::<T>(a, c, d, e, g, h, i, k, l)
    &&& det3_fits::<T>(e, f, h, i, j, l, mm, n, p)
    &&& det3_fits::<T>(a, b, d, i, j, l, mm, n, p)
    &&& fits::<T>(-det3(a, b, d, i, j, l, mm, n, p))
    &&& det3_fits::<T>(a, b, d, e, f, h, mm, n, p)
    &&& det3_fits::<T>(a, b, d, e, f, h, i, j, l)
    &&& fits::<T>(-det3(a, b, d, e, f, h, i, j, l))
    &&& det3_fits::<T>(e, f, g, i, j, k, mm, n, o)
    &&& fits::<T>(-det3(e, f, g, i, j, k, mm, n, o))
    &&& det3_fits::<T>(a, b, c, i, j, k, mm, n, o)
    &&& det3_fits::<T>(a, b, c, e, f, g, mm, n, o)
    &&& fits::<T>(-det3(a, b, c, e, f, g, mm, n, o))
    &&& det3_fits::<T>(a, b, c, e, f, g, i, j, k)
}

// ===================================================
// Naming a matrix by its entries
// ===================================================

/// The matrix whose entries stand for the integers `s`.
pub open spec fn mfrom_ints<T: VectorizedType + ArithmeticAssign, const R: usize, const C: usize>(
    s: Seq<Seq<int>>,
) -> Matrix<T, R, C> {
    choose|m: Matrix<T, R, C>| mints(m@) == s
}

/// Two matrices with the same entries are the same matrix.
pub proof fn lemma_matrix_view_injective<T: VectorizedType, const R: usize, const C: usize>(
    a: Matrix<T, R, C>,
    b: Matrix<T, R, C>,
)
    requires
        a@ == b@,
    ensures
        a == b,
{
    assert forall|i: int| 0 <= i < R implies a.data[i] =~= b.data[i] by {
        assert forall|j: int| 0 <= j < C implies a.data[i][j] == b.data[i][j] by {
            assert(a@[i][j] == b@[i][j]);
            assert(a@[i][j] == a.data[i][j]);
            assert(b@[i][j] == b.data[i][j]);
        }
    }
    assert(a.data =~= b.data);
}

/// Two matrices whose entries stand for the same integers are the same matrix.
pub proof fn lemma_mints_injective<T: VectorizedType + ArithmeticAssign, const R: usize, const C: usize>(
    a: Matrix<T, R, C>,
    b: Matrix<T, R, C>,
)
    requires
        mints(a@) == mints(b@),
    ensures
        a == b,
{
    lemma_mints(a@);
    lemma_mints(b@);
    assert forall|i: int| 0 <= i < R implies a@[i] =~= b@[i] by {
        assert forall|j: int| 0 <= j < C implies a@[i][j] == b@[i][j] by {
            assert(a@[i].len() == C && b@[i].len() == C);
            assert(mints(a@)[i][j] == mints(b@)[i][j]);
            assert(mints(a@)[i][j] == a@[i][j].to_int());
            assert(mints(b@)[i][j] == b@[i][j].to_int());
            a@[i][j].lemma_injective(b@[i][j]);
        }
    }
    assert(a@ =~= b@);
    lemma_matrix_view_injective(a, b);
}

/// `mfrom_ints` names the matrix whose entries stand for the given integers.
pub proof fn lemma_mfrom_ints<T: VectorizedType + ArithmeticAssign, const R: usize, const C: usize>(
    m: Matrix<T, R, C>,
)
    ensures
        mfrom_ints::<T, R, C>(mints(m@)) == m,
{
    let r = mfrom_ints::<T, R, C>(mints(m@));
    assert(mints(r@) == mints(m@));
    lemma_mints_injective(r, m);
}

// ===================================================
// Construction and access
// ===================================================

impl<T: VectorizedType, const R: usize, const C: usize> Matrix<T, R, C> {
    /// The matrix with the given rows.
    pub fn new(data: [[T; C]; R]) -> (r: Self)
        ensures
            forall|i: int, j: int| 0 <= i < R && 0 <= j < C ==> #[trigger] r@[i][j] == data[i][j],
    {
        Matrix { data }
    }

    /// The rows as an array of arrays.
    pub fn to_arrays(&self) -> (r: [[T; C]; R])
        ensures
            forall|i: int, j: int| 0 <= i < R && 0 <= j < C ==> r[i][j] == #[trigger] self@[i][j],
    {
        self.data
    }

    /// A reference to row `i`.
    pub fn row(&self, i: usize) -> (r: &[T; C])
        requires
            i < R,
        ensures
            r@ == self@[i as int],
    {
        let r = &self.data[i];
        assert(r@ =~= self@[i as int]);
        r
    }

    /// The entry in row `i` and column `j`.
    pub fn get(&self, i: usize, j: usize) -> (r: T)
        requires
            i < R,
            j < C,
        ensures
            r == self@[i as int][j as int],
    {
        self.data[i][j]
    }

    /// Sets the entry in row `i` and column `j`, leaving every other entry as it was.
    pub fn set(&mut self, i: usize, j: usize, v: T)
        requires
            i < R,
            j < C,
        ensures
            final(self)@ == old(self)@.update(i as int, old(self)@[i as int].update(j as int, v)),
    {
        let mut row = self.data[i];
        row[j] = v;
        self.data[i] = row;
        let ghost expected = old(self)@.update(i as int, old(self)@[i as int].update(j as int, v));
        assert forall|a: int| 0 <= a < R implies #[trigger] self@[a] =~= expected[a] by {}
        assert(self@ =~= expected);
    }

    /// Column `j` as an array.
    pub fn col(&self, j: usize) -> (r: [T; R])
        requires
            j < C,
        ensures
            forall|i: int| 0 <= i < R ==> #[trigger] r[i] == self@[i][j as int],
    {
        let mut c = [T::default_value(); R];
        let mut i: usize = 0;
        while i < R
            invariant
                i <= R,
                j < C,
                forall|k: int| 0 <= k < i ==> #[trigger] c[k] == self@[k][j as int],
            decreases R - i,
        {
            c[i] = self.data[i][j];
            i += 1;
        }
        c
    }

    /// Sets column `j` to `col`, leaving the other columns as they were.
    pub fn set_col(&mut self, j: usize, col: &[T; R])
        requires
            j < C,
        ensures
            forall|i: int, k: int|
                0 <= i < R && 0 <= k < C ==> #[trigger] final(self)@[i][k] == (if k == j {
                    col[i]
                } else {
                    old(self)@[i][k]
                }),
    {
        let mut i: usize = 0;
        while i < R
            invariant
                i <= R,
                j < C,
                forall|a: int, k: int|
                    0 <= a < R && 0 <= k < C ==> #[trigger] self@[a][k] == (if k == j && a < i {
                        col[a]
                    } else {
                        old(self)@[a][k]
                    }),
            decreases R - i,
        {
            self.set(i, j, col[i]);
            i += 1;
        }
    }

    /// The transposed matrix: entry `(j, i)` is entry `(i, j)` of this one.
    pub fn transpose(&self) -> (r: Matrix<T, C, R>)
        ensures
            r@ == transpose_seq(self@, C as nat),
    {
        let filler = if R > 0 && C > 0 { self.data[0][0] } else { T::default_value() };
        let mut m = Matrix::<T, C, R> { data: [[filler; R]; C] };
        let mut i: usize = 0;
        while i < R
            invariant
                i <= R,
                forall|a: int, b: int| 0 <= a < i && 0 <= b < C ==> #[trigger] m@[b][a] == self@[a][b],
            decreases R - i,
        {
            let mut j: usize = 0;
            while j < C
                invariant
                    i < R,
                    j <= C,
                    forall|a: int, b: int|
                        0 <= b < C && (0 <= a < i || (a == i && 0 <= b < j)) ==> #[trigger] m@[b][a]
                            == self@[a][b],
                decreases C - j,
            {
                m.set(j, i, self.data[i][j]);
                j += 1;
            }
            i += 1;
        }
        assert forall|j: int| 0 <= j < C implies #[trigger] m@[j] =~= transpose_seq(self@, C as nat)[j] by {}
        assert(m@ =~= transpose_seq(self@, C as nat));
        m
    }

    /// An iterator over the entries, row by row.
    pub fn iter(&self) -> (r: std::vec::IntoIter<T>)
        ensures
            vstd::std_specs::iter::IteratorSpec::remaining(&r) == flatten_rows(self@, C as nat),
    {
        let mut v: Vec<T> = Vec::new();
        let mut i: usize = 0;
        while i < R
            invariant
                i <= R,
                v@.len() == i * C,
                forall|k: int| 0 <= k < v@.len() ==> #[trigger] v@[k] == self@[k / C as int][k % C as int],
            decreases R - i,
        {
            let mut j: usize = 0;
            while j < C
                invariant
                    i < R,
                    j <= C,
                    v@.len() == i * C + j,
                    forall|k: int| 0 <= k < v@.len() ==> #[trigger] v@[k] == self@[k / C as int][k % C as int],
                decreases C - j,
            {
                proof {
                    vstd::arithmetic::div_mod::lemma_fundamental_div_mod_converse(
                        (i * C + j) as int,
                        C as int,
                        i as int,
                        j as int,
                    );
                }
                v.push(self.data[i][j]);
                j += 1;
            }
            assert((i + 1) * C == i * C + C) by (nonlinear_arith);
            i += 1;
        }
        proof {
            broadcast use vstd::std_specs::vec::axiom_spec_into_iter;
            assert(v@ =~= flatten_rows(self@, C as nat));
        }
        v.into_iter()
    }
}

impl<T: ArithmeticType, const R: usize, const C: usize> Matrix<T, R, C> {
    /// The matrix whose entries are all 0.
    pub fn zero() -> (r: Self)
        ensures
            mints(r@) == Seq::new(R as nat, |i: int| Seq::new(C as nat, |j: int| 0int)),
    {
        let r = Matrix { data: [[T::zero(); C]; R] };
        assert forall|i: int| 0 <= i < R implies #[trigger] mints(r@)[i] =~= Seq::new(
            C as nat,
            |j: int| 0int,
        ) by {}
        assert(mints(r@) =~= Seq::new(R as nat, |i: int| Seq::new(C as nat, |j: int| 0int)));
        r
    }

    /// The matrix with ones on the diagonal and zeros elsewhere.
    pub fn identity() -> (r: Self)
        ensures
            mints(r@) == identity_seq(R as nat, C as nat),
    {
        let mut m = Self::zero();
        proof {
            lemma_mints(m@);
            assert forall|i: int, j: int| 0 <= i < R && 0 <= j < C implies #[trigger] m@[i][j].to_int() == 0 by {
                assert(mints(m@)[i][j] == 0);
            }
        }
        let n = if R < C { R } else { C };
        let mut k: usize = 0;
        while k < n
            invariant
                k <= n,
                n <= R,
                n <= C,
                forall|i: int, j: int|
                    0 <= i < R && 0 <= j < C ==> #[trigger] m@[i][j].to_int() == (if i == j && i < k {
                        1int
                    } else {
                        0int
                    }),
            decreases n - k,
        {
            m.set(k, k, T::one());
            k += 1;
        }
        assert forall|i: int| 0 <= i < R implies #[trigger] mints(m@)[i] =~= identity_seq(
            R as nat,
            C as nat,
        )[i] by {}
        assert(mints(m@) =~= identity_seq(R as nat, C as nat));
        m
    }

    /// Row `i` as a vector of `N` components: its first `min(N, C)` entries, then zeros.
    pub fn rv<const N: usize>(&self, i: usize) -> (r: Vector<T, N>)
        requires
            i < R,
        ensures
            ints(r@) == Seq::new(N as nat, |j: int| if j < C { mints(self@)[i as int][j] } else { 0int }),
    {
        let mut v = Vector::<T, N>::zero();
        proof {
            assert forall|k: int| 0 <= k < N implies #[trigger] v@[k].to_int() == 0 by {
                assert(ints(v@)[k] == 0);
            }
        }
        let n = if N < C { N } else { C };
        let mut j: usize = 0;
        while j < n
            invariant
                i < R,
                j <= n,
                n <= N,
                n <= C,
                forall|k: int|
                    0 <= k < N ==> #[trigger] v@[k].to_int() == (if k < j { self@[i as int][k].to_int() } else { 0int }),
            decreases n - j,
        {
            v.set(j, self.data[i][j]);
            j += 1;
        }
        assert(ints(v@) =~= Seq::new(N as nat, |j: int| if j < C { mints(self@)[i as int][j] } else { 0int }));
        v
    }

    /// Column `j` as a vector of `N` components: its first `min(N, R)` entries, then zeros.
    pub fn cv<const N: usize>(&self, j: usize) -> (r: Vector<T, N>)
        requires
            j < C,
        ensures
            ints(r@) == Seq::new(N as nat, |i: int| if i < R { mints(self@)[i][j as int] } else { 0int }),
    {
        let mut v = Vector::<T, N>::zero();
        proof {
            assert forall|k: int| 0 <= k < N implies #[trigger] v@[k].to_int() == 0 by {
                assert(ints(v@)[k] == 0);
            }
        }
        let n = if N < R { N } else { R };
        let mut i: usize = 0;
        while i < n
            invariant
                j < C,
                i <= n,
                n <= N,
                n <= R,
                forall|k: int|
                    0 <= k < N ==> #[trigger] v@[k].to_int() == (if k < i { self@[k][j as int].to_int() } else { 0int }),
            decreases n - i,
        {
            v.set(i, self.data[i][j]);
            i += 1;
        }
        assert(ints(v@) =~= Seq::new(N as nat, |i: int| if i < R { mints(self@)[i][j as int] } else { 0int }));
        v
    }

    /// `a * d - c * b`
    pub fn determinant_2x2(a: T, b: T, c: T, d: T) -> (r: T)
        requires
            det2_fits::<T>(a.to_int(), b.to_int(), c.to_int(), d.to_int()),
        ensures
            r.to_int() == det2(a.to_int(), b.to_int(), c.to_int(), d.to_int()),
    {
        a.mul_val(d).sub_val(c.mul_val(b))
    }

    /// The determinant of the 3x3 matrix with rows `(a, b, c)`, `(d, e, f)`, `(g, h, i)`,
    /// expanded along the first row.
    pub fn determinant_3x3(a: T, b: T, c: T, d: T, e: T, f: T, g: T, h: T, i: T) -> (r: T)
        requires
            det3_fits::<T>(
                a.to_int(),
                b.to_int(),
                c.to_int(),
                d.to_int(),
                e.to_int(),
                f.to_int(),
                g.to_int(),
                h.to_int(),
                i.to_int(),
            ),
        ensures
            r.to_int() == det3(
                a.to_int(),
                b.to_int(),
                c.to_int(),
                d.to_int(),
                e.to_int(),
                f.to_int(),
                g.to_int(),
                h.to_int(),
                i.to_int(),
            ),
    {
        let x = a.mul_val(Self::determinant_2x2(e, f, h, i));
        let y = b.mul_val(Self::determinant_2x2(d, f, g, i));
        let z = c.mul_val(Self::determinant_2x2(d, e, g, h));
        x.sub_val(y).add_val(z)
    }
}

impl<T: VectorizedType, const R: usize, const C: usize> Matrix<T, R, C> {
    /// Sets the first `min(N, C)` entries of row `i` to those of `v`.
    pub fn srv<const N: usize>(&mut self, i: usize, v: &Vector<T, N>)
        requires
            i < R,
        ensures
            final(self)@ == old(self)@.update(
                i as int,
                Seq::new(C as nat, |j: int| if j < N { v@[j] } else { old(self)@[i as int][j] }),
            ),
    {
        let n = if N < C { N } else { C };
        let mut j: usize = 0;
        assert(Seq::new(C as nat, |k: int| if k < j { v@[k] } else { old(self)@[i as int][k] }) =~= old(self)@[i as int]);
        assert(old(self)@ =~= old(self)@.update(
            i as int,
            Seq::new(C as nat, |k: int| if k < j { v@[k] } else { old(self)@[i as int][k] }),
        ));
        while j < n
            invariant
                i < R,
                j <= n,
                n <= N,
                n <= C,
                self@ == old(self)@.update(
                    i as int,
                    Seq::new(C as nat, |k: int| if k < j { v@[k] } else { old(self)@[i as int][k] }),
                ),
            decreases n - j,
        {
            let x = v.get(j);
            self.set(i, j, *x);
            j += 1;
            proof {
                assert(self@[i as int] =~= Seq::new(C as nat, |k: int| if k < j { v@[k] } else { old(self)@[i as int][k] }));
                assert(self@ =~= old(self)@.update(
                    i as int,
                    Seq::new(C as nat, |k: int| if k < j { v@[k] } else { old(self)@[i as int][k] }),
                ));
            }
        }
        assert(Seq::new(C as nat, |k: int| if k < j { v@[k] } else { old(self)@[i as int][k] }) =~= Seq::new(C as nat, |k: int| if k < N { v@[k] } else { old(self)@[i as int][k] }));
    }

    /// Sets the first `min(N, R)` entries of column `j` to those of `v`.
    pub fn scv<const N: usize>(&mut self, j: usize, v: &Vector<T, N>)
        requires
            j < C,
        ensures
            forall|i: int, k: int|
                0 <= i < R && 0 <= k < C ==> #[trigger] final(self)@[i][k] == (if k == j && i < N {
                    v@[i]
                } else {
                    old(self)@[i][k]
                }),
    {
        let n = if N < R { N } else { R };
        let mut i: usize = 0;
        while i < n
            invariant
                j < C,
                i <= n,
                n <= N,
                n <= R,
                forall|a: int, k: int|
                    0 <= a < R && 0 <= k < C ==> #[trigger] self@[a][k] == (if k == j && a < i {
                        v@[a]
                    } else {
                        old(self)@[a][k]
                    }),
            decreases n - i,
        {
            let x = v.get(i);
            self.set(i, j, *x);
            i += 1;
        }
    }
}

impl<T: ArithmeticType> Matrix<T, 2, 2> {
    /// The determinant `m[0][0] * m[1][1] - m[1][0] * m[0][1]`.
    pub fn determinant(&self) -> (r: T)
        requires
            det2_fits::<T>(
                mints(self@)[0][0],
                mints(self@)[0][1],
                mints(self@)[1][0],
                mints(self@)[1][1],
            ),
        ensures
            r.to_int() == mdet2(mints(self@)),
    {
        Self::determinant_2x2(self.data[0][0], self.data[0][1], self.data[1][0], self.data[1][1])
    }
}

impl<T: ArithmeticType> Matrix<T, 3, 3> {
    /// The determinant, expanded along the first row.
    pub fn determinant(&self) -> (r: T)
        requires
            mdet3_fits::<T>(mints(self@)),
        ensures
            r.to_int() == mdet3(mints(self@)),
    {
        Self::determinant_3x3(
            self.data[0][0],
            self.data[0][1],
            self.data[0][2],
            self.data[1][0],
            self.data[1][1],
            self.data[1][2],
            self.data[2][0],
            self.data[2][1],
            self.data[2][2],
        )
    }
}

impl<T: SignedType> Matrix<T, 3, 3> {
    /// The transpose of the cofactor matrix (the adjugate): entry `(i, j)` is the signed
    /// 2x2 minor of the matrix without row `j` and column `i`.
    pub fn cofactor_transpose(&self) -> (r: Self)
        requires
            mcof3_fits::<T>(mints(self@)),
        ensures
            mints(r@) == mcof3(mints(self@)),
    {
        let a = self.data[0][0];
        let b = self.data[0][1];
        let c = self.data[0][2];
        let d = self.data[1][0];
        let e = self.data[1][1];
        let f = self.data[1][2];
        let g = self.data[2][0];
        let h = self.data[2][1];
        let i = self.data[2][2];
        let r = Matrix {
            data: [
                [Self::determinant_2x2(e, f, h, i), Self::determinant_2x2(b, c, h, i).neg_val(), Self::determinant_2x2(b, c, e, f)],
                [Self::determinant_2x2(d, f, g, i).neg_val(), Self::determinant_2x2(a, c, g, i), Self::determinant_2x2(a, c, d, f).neg_val()],
                [Self::determinant_2x2(d, e, g, h), Self::determinant_2x2(a, b, g, h).neg_val(), Self::determinant_2x2(a, b, d, e)],
            ],
        };
        assert forall|i: int| 0 <= i < 3 implies #[trigger] mints(r@)[i] =~= mcof3(mints(self@))[i] by {}
        assert(mints(r@) =~= mcof3(mints(self@)));
        r
    }
}

impl<T: SignedType> Matrix<T, 4, 4> {
    /// The transpose of the cofactor matrix (the adjugate): entry `(i, j)` is the signed
    /// 3x3 minor of the matrix without row `j` and column `i`.
    #[verifier::rlimit(50)]
    pub fn cofactor_transpose(&self) -> (r: Self)
        requires
            mcof4_fits::<T>(mints(self@)),
        ensures
            mints(r@) == mcof4(mints(self@)),
    {
        let a = self.data[0][0];
        let b = self.data[0][1];
        let c = self.data[0][2];
        let d = self.data[0][3];
        let e = self.data[1][0];
        let f = self.data[1][1];
        let g = self.data[1][2];
        let h = self.data[1][3];
        let i = self.data[2][0];
        let j = self.data[2][1];
        let k = self.data[2][2];
        let l = self.data[2][3];
        let m = self.data[3][0];
        let n = self.data[3][1];
        let o = self.data[3][2];
        let p = self.data[3][3];
        let r = Matrix {
            data: [
                [Self::determinant_3x3(f, g, h, j, k, l, n, o, p), Self::determinant_3x3(b, c, d, j, k, l, n, o, p).neg_val(), Self::determinant_3x3(b, c, d, f, g, h, n, o, p), Self::determinant_3x3(b, c, d, f, g, h, j, k, l).neg_val()],
                [Self::determinant_3x3(e, g, h, i, k, l, m, o, p).neg_val(), Self::determinant_3x3(a, c, d, i, k, l, m, o, p), Self::determinant_3x3(a, c, d, e, g, h, m, o, p).neg_val(), Self::determinant_3x3(a, c, d, e, g, h, i, k, l)],
                [Self::determinant_3x3(e, f, h, i, j, l, m, n, p), Self::determinant_3x3(a, b, d, i, j, l, m, n, p).neg_val(), Self::determinant_3x3(a, b, d, e, f, h, m, n, p), Self::determinant_3x3(a, b, d, e, f, h, i, j, l).neg_val()],
                [Self::determinant_3x3(e, f, g, i, j, k, m, n, o).neg_val(), Self::determinant_3x3(a, b, c, i, j, k, m, n, o), Self::determinant_3x3(a, b, c, e, f, g, m, n, o).neg_val(), Self::determinant_3x3(a, b, c, e, f, g, i, j, k)],
            ],
        };
        assert forall|i: int| 0 <= i < 4 implies #[trigger] mints(r@)[i] =~= mcof4(mints(self@))[i] by {}
        assert(mints(r@) =~= mcof4(mints(self@)));
        r
    }
}

impl<T: ArithmeticType> Matrix<T, 4, 4> {
    /// The determinant, from the 2x2 minors of the last two rows, then the 3x3 minors
    /// of the last three rows, then along the first row.
    #[verifier::rlimit(50)]
    pub fn determinant(&self) -> (r: T)
        requires
            mdet4_fits::<T>(mints(self@)),
        ensures
            r.to_int() == mdet4(mints(self@)),
    {
        let a = self.data[0][0];
        let b = self.data[0][1];
        let c = self.data[0][2];
        let d = self.data[0][3];
        let e = self.data[1][0];
        let f = self.data[1][1];
        let g = self.data[1][2];
        let h = self.data[1][3];
        let i = self.data[2][0];
        let j = self.data[2][1];
        let k = self.data[2][2];
        let l = self.data[2][3];
        let m = self.data[3][0];
        let n = self.data[3][1];
        let o = self.data[3][2];
        let p = self.data[3][3];

        let inmj = i.mul_val(n).sub_val(m.mul_val(j));
        let iomk = i.mul_val(o).sub_val(m.mul_val(k));
        let ipml = i.mul_val(p).sub_val(m.mul_val(l));
        let jpnl = j.mul_val(p).sub_val(n.mul_val(l));
        let jonk = j.mul_val(o).sub_val(n.mul_val(k));
        let kpol = k.mul_val(p).sub_val(o.mul_val(l));

        let fgh = f.mul_val(kpol).sub_val(g.mul_val(jpnl)).add_val(h.mul_val(jonk));
        let egh = e.mul_val(kpol).sub_val(g.mul_val(ipml)).add_val(h.mul_val(iomk));
        let efh = e.mul_val(jpnl).sub_val(f.mul_val(ipml)).add_val(h.mul_val(inmj));
        let efg = e.mul_val(jonk).sub_val(f.mul_val(iomk)).add_val(g.mul_val(inmj));

        a.mul_val(fgh).sub_val(b.mul_val(egh)).add_val(c.mul_val(efh)).sub_val(d.mul_val(efg))
    }

    /// The scaling matrix with `scale` on the first three diagonal entries and 1 last.
    pub fn scale(scale: &Vector<T, 3>) -> (r: Self)
        ensures
            mints(r@) == seq![
                seq![ints(scale@)[0], 0int, 0, 0],
                seq![0int, ints(scale@)[1], 0, 0],
                seq![0int, 0, ints(scale@)[2], 0],
                seq![0int, 0, 0, 1],
            ],
    {
        let z = T::zero();
        let r = Matrix {
            data: [
                [scale.x(), z, z, z],
                [z, scale.y(), z, z],
                [z, z, scale.z(), z],
                [z, z, z, T::one()],
            ],
        };
        assert forall|i: int| 0 <= i < 4 implies #[trigger] mints(r@)[i] =~= seq![
            seq![ints(scale@)[0], 0int, 0, 0],
            seq![0int, ints(scale@)[1], 0, 0],
            seq![0int, 0, ints(scale@)[2], 0],
            seq![0int, 0, 0, 1],
        ][i] by {}
        assert(mints(r@) =~= seq![
            seq![ints(scale@)[0], 0int, 0, 0],
            seq![0int, ints(scale@)[1], 0, 0],
            seq![0int, 0, ints(scale@)[2], 0],
            seq![0int, 0, 0, 1],
        ]);
        r
    }

    /// The translation matrix: the identity with `translation` in the last column.
    pub fn translate(translation: &Vector<T, 3>) -> (r: Self)
        ensures
            mints(r@) == seq![
                seq![1int, 0, 0, ints(translation@)[0]],
                seq![0int, 1, 0, ints(translation@)[1]],
                seq![0int, 0, 1, ints(translation@)[2]],
                seq![0int, 0, 0, 1],
            ],
    {
        let z = T::zero();
        let o = T::one();
        let r = Matrix {
            data: [
                [o, z, z, translation.x()],
                [z, o, z, translation.y()],
                [z, z, o, translation.z()],
                [z, z, z, o],
            ],
        };
        assert forall|i: int| 0 <= i < 4 implies #[trigger] mints(r@)[i] =~= seq![
            seq![1int, 0, 0, ints(translation@)[0]],
            seq![0int, 1, 0, ints(translation@)[1]],
            seq![0int, 0, 1, ints(translation@)[2]],
            seq![0int, 0, 0, 1],
        ][i] by {}
        assert(mints(r@) =~= seq![
            seq![1int, 0, 0, ints(translation@)[0]],
            seq![0int, 1, 0, ints(translation@)[1]],
            seq![0int, 0, 1, ints(translation@)[2]],
            seq![0int, 0, 0, 1],
        ]);
        r
    }
}

// ===================================================
// Entry-wise arithmetic and products
// ===================================================

impl<T: VectorizedType, const R: usize, const C: usize> Matrix<T, R, C> {
    /// Row `i` as a vector.
    pub fn row_vec(&self, i: usize) -> (r: Vector<T, C>)
        requires
            i < R,
        ensures
            r@ == self@[i as int],
    {
        let r = Vector::new(self.data[i]);
        assert(r@ =~= self@[i as int]);
        r
    }

    /// Sets row `i` to the components of `v`, leaving the other rows as they were.
    pub fn set_row_vec(&mut self, i: usize, v: &Vector<T, C>)
        requires
            i < R,
        ensures
            final(self)@ == old(self)@.update(i as int, v@),
    {
        self.data[i] = v.to_array();
        let ghost expected = old(self)@.update(i as int, v@);
        assert forall|a: int| 0 <= a < R implies #[trigger] self@[a] =~= expected[a] by {}
        assert(self@ =~= expected);
    }
}

/// Entry-wise `a + b`.
pub fn madd_cw<T: ArithmeticType, const R: usize, const C: usize>(
    a: &Matrix<T, R, C>,
    b: &Matrix<T, R, C>,
) -> (r: Matrix<T, R, C>)
    requires
        mfits::<T>(madd(mints(a@), mints(b@))),
    ensures
        mints(r@) == madd(mints(a@), mints(b@)),
{
    let mut m = *a;
    let mut i: usize = 0;
    while i < R
        invariant
            i <= R,
            mfits::<T>(madd(mints(a@), mints(b@))),
            forall|k: int| 0 <= k < i ==> #[trigger] ints(m@[k]) == add_seq(ints(a@[k]), ints(b@[k])),
        decreases R - i,
    {
        assert(cw_fits::<T>(madd(mints(a@), mints(b@))[i as int]));
        let row = add_cw(&a.row_vec(i), &b.row_vec(i));
        m.set_row_vec(i, &row);
        i += 1;
    }
    assert(mints(m@) =~= madd(mints(a@), mints(b@)));
    m
}

/// Entry-wise `a - b`.
pub fn msub_cw<T: ArithmeticType, const R: usize, const C: usize>(
    a: &Matrix<T, R, C>,
    b: &Matrix<T, R, C>,
) -> (r: Matrix<T, R, C>)
    requires
        mfits::<T>(msub(mints(a@), mints(b@))),
    ensures
        mints(r@) == msub(mints(a@), mints(b@)),
{
    let mut m = *a;
    let mut i: usize = 0;
    while i < R
        invariant
            i <= R,
            mfits::<T>(msub(mints(a@), mints(b@))),
            forall|k: int| 0 <= k < i ==> #[trigger] ints(m@[k]) == sub_seq(ints(a@[k]), ints(b@[k])),
        decreases R - i,
    {
        assert(cw_fits::<T>(msub(mints(a@), mints(b@))[i as int]));
        let row = sub_cw(&a.row_vec(i), &b.row_vec(i));
        m.set_row_vec(i, &row);
        i += 1;
    }
    assert(mints(m@) =~= msub(mints(a@), mints(b@)));
    m
}

/// `add` of every entry of `a` with the scalar `s`.
pub fn madd_scalar<T: ArithmeticType, const R: usize, const C: usize>(
    a: &Matrix<T, R, C>,
    s: T,
) -> (r: Matrix<T, R, C>)
    requires
        mfits::<T>(madd_s(mints(a@), s.to_int())),
    ensures
        mints(r@) == madd_s(mints(a@), s.to_int()),
{
    let sv = Vector::<T, C>::splat(s);
    assert(ints(sv@) =~= splat(s.to_int(), C as nat));
    let mut m = *a;
    let mut i: usize = 0;
    while i < R
        invariant
            i <= R,
            ints(sv@) == splat(s.to_int(), C as nat),
            mfits::<T>(madd_s(mints(a@), s.to_int())),
            forall|k: int|
                0 <= k < i ==> #[trigger] ints(m@[k]) == add_seq(ints(a@[k]), splat(s.to_int(), C as nat)),
        decreases R - i,
    {
        assert(cw_fits::<T>(madd_s(mints(a@), s.to_int())[i as int]));
        let row = add_cw(&a.row_vec(i), &sv);
        m.set_row_vec(i, &row);
        i += 1;
    }
    assert(mints(m@) =~= madd_s(mints(a@), s.to_int()));
    m
}

/// `sub` of every entry of `a` with the scalar `s`.
pub fn msub_scalar<T: ArithmeticType, const R: usize, const C: usize>(
    a: &Matrix<T, R, C>,
    s: T,
) -> (r: Matrix<T, R, C>)
    requires
        mfits::<T>(msub_s(mints(a@), s.to_int())),
    ensures
        mints(r@) == msub_s(mints(a@), s.to_int()),
{
    let sv = Vector::<T, C>::splat(s);
    assert(ints(sv@) =~= splat(s.to_int(), C as nat));
    let mut m = *a;
    let mut i: usize = 0;
    while i < R
        invariant
            i <= R,
            ints(sv@) == splat(s.to_int(), C as nat),
            mfits::<T>(msub_s(mints(a@), s.to_int())),
            forall|k: int|
                0 <= k < i ==> #[trigger] ints(m@[k]) == sub_seq(ints(a@[k]), splat(s.to_int(), C as nat)),
        decreases R - i,
    {
        assert(cw_fits::<T>(msub_s(mints(a@), s.to_int())[i as int]));
        let row = sub_cw(&a.row_vec(i), &sv);
        m.set_row_vec(i, &row);
        i += 1;
    }
    assert(mints(m@) =~= msub_s(mints(a@), s.to_int()));
    m
}

/// `mul` of every entry of `a` with the scalar `s`.
pub fn mmul_scalar<T: ArithmeticType, const R: usize, const C: usize>(
    a: &Matrix<T, R, C>,
    s: T,
) -> (r: Matrix<T, R, C>)
    requires
        mfits::<T>(mmul_s(mints(a@), s.to_int())),
    ensures
        mints(r@) == mmul_s(mints(a@), s.to_int()),
{
    let sv = Vector::<T, C>::splat(s);
    assert(ints(sv@) =~= splat(s.to_int(), C as nat));
    let mut m = *a;
    let mut i: usize = 0;
    while i < R
        invariant
            i <= R,
            ints(sv@) == splat(s.to_int(), C as nat),
            mfits::<T>(mmul_s(mints(a@), s.to_int())),
            forall|k: int|
                0 <= k < i ==> #[trigger] ints(m@[k]) == mul_seq(ints(a@[k]), splat(s.to_int(), C as nat)),
        decreases R - i,
    {
        assert(cw_fits::<T>(mmul_s(mints(a@), s.to_int())[i as int]));
        let row = mul_cw(&a.row_vec(i), &sv);
        m.set_row_vec(i, &row);
        i += 1;
    }
    assert(mints(m@) =~= mmul_s(mints(a@), s.to_int()));
    m
}

/// `div` of every entry of `a` with the scalar `s`.
pub fn mdiv_scalar<T: ArithmeticType, const R: usize, const C: usize>(
    a: &Matrix<T, R, C>,
    s: T,
) -> (r: Matrix<T, R, C>)
    requires
        s.to_int() != 0,
        mfits::<T>(mdiv_s(mints(a@), s.to_int())),
    ensures
        mints(r@) == mdiv_s(mints(a@), s.to_int()),
{
    let sv = Vector::<T, C>::splat(s);
    assert(ints(sv@) =~= splat(s.to_int(), C as nat));
    let mut m = *a;
    let mut i: usize = 0;
    while i < R
        invariant
            i <= R,
            ints(sv@) == splat(s.to_int(), C as nat),
            s.to_int() != 0,
            mfits::<T>(mdiv_s(mints(a@), s.to_int())),
            forall|k: int|
                0 <= k < i ==> #[trigger] ints(m@[k]) == div_seq(ints(a@[k]), splat(s.to_int(), C as nat)),
        decreases R - i,
    {
        assert(cw_fits::<T>(mdiv_s(mints(a@), s.to_int())[i as int]));
        let row = div_cw(&a.row_vec(i), &sv);
        m.set_row_vec(i, &row);
        i += 1;
    }
    assert(mints(m@) =~= mdiv_s(mints(a@), s.to_int()));
    m
}

/// Entry-wise negation.
pub fn mneg_cw<T: SignedType, const R: usize, const C: usize>(a: &Matrix<T, R, C>) -> (r: Matrix<T, R, C>)
    requires
        mfits::<T>(mneg(mints(a@))),
    ensures
        mints(r@) == mneg(mints(a@)),
{
    let mut m = *a;
    let mut i: usize = 0;
    while i < R
        invariant
            i <= R,
            mfits::<T>(mneg(mints(a@))),
            forall|k: int| 0 <= k < i ==> #[trigger] ints(m@[k]) == neg_seq(ints(a@[k])),
        decreases R - i,
    {
        assert(cw_fits::<T>(mneg(mints(a@))[i as int]));
        let row = neg_cw(&a.row_vec(i));
        m.set_row_vec(i, &row);
        i += 1;
    }
    assert(mints(m@) =~= mneg(mints(a@)));
    m
}

/// The product of a matrix with a column vector: entry `i` is row `i` dotted with `v`.
pub fn mat_vec_mul<T: ArithmeticType, const R: usize, const C: usize>(
    m: &Matrix<T, R, C>,
    v: &Vector<T, C>,
) -> (r: Vector<T, R>)
    requires
        forall|i: int| 0 <= i < R ==> dot_fits::<T>(#[trigger] mints(m@)[i], ints(v@)),
    ensures
        ints(r@) == mat_vec(mints(m@), ints(v@)),
{
    let mut out = Vector::<T, R>::zero();
    let mut i: usize = 0;
    while i < R
        invariant
            i <= R,
            forall|k: int| 0 <= k < R ==> dot_fits::<T>(#[trigger] mints(m@)[k], ints(v@)),
            forall|k: int| 0 <= k < i ==> #[trigger] out@[k].to_int() == dot_seq(mints(m@)[k], ints(v@)),
        decreases R - i,
    {
        let row = m.row_vec(i);
        assert(ints(row@) == mints(m@)[i as int]);
        let x = dot(&row, v);
        out.set(i, x);
        i += 1;
    }
    assert(ints(out@) =~= mat_vec(mints(m@), ints(v@)));
    out
}

/// The product of a row vector with a matrix: entry `j` is column `j` dotted with `v`.
pub fn vec_mat_mul<T: ArithmeticType, const R: usize, const C: usize>(
    v: &Vector<T, R>,
    m: &Matrix<T, R, C>,
) -> (r: Vector<T, C>)
    requires
        forall|j: int| 0 <= j < C ==> dot_fits::<T>(#[trigger] column(mints(m@), j), ints(v@)),
    ensures
        ints(r@) == vec_mat(ints(v@), mints(m@), C as nat),
{
    let mut out = Vector::<T, C>::zero();
    let mut j: usize = 0;
    while j < C
        invariant
            j <= C,
            forall|k: int| 0 <= k < C ==> dot_fits::<T>(#[trigger] column(mints(m@), k), ints(v@)),
            forall|k: int| 0 <= k < j ==> #[trigger] out@[k].to_int() == dot_seq(column(mints(m@), k), ints(v@)),
        decreases C - j,
    {
        let col = Vector::new(m.col(j));
        assert(ints(col@) =~= column(mints(m@), j as int));
        let x = dot(&col, v);
        out.set(j, x);
        j += 1;
    }
    assert(ints(out@) =~= vec_mat(ints(v@), mints(m@), C as nat));
    out
}

/// The product of two matrices: entry `(i, j)` is row `i` of `a` dotted with column `j` of `b`.
pub fn mat_mat_mul<T: ArithmeticType, const A: usize, const B: usize, const C: usize>(
    a: &Matrix<T, A, B>,
    b: &Matrix<T, B, C>,
) -> (r: Matrix<T, A, C>)
    requires
        forall|i: int, j: int|
            0 <= i < A && 0 <= j < C ==> dot_fits::<T>(#[trigger] mints(a@)[i], #[trigger] column(mints(b@), j)),
    ensures
        mints(r@) == mat_mul(mints(a@), mints(b@), C as nat),
{
    let mut out = Matrix::<T, A, C>::zero();
    let mut i: usize = 0;
    while i < A
        invariant
            i <= A,
            forall|x: int, y: int|
                0 <= x < A && 0 <= y < C ==> dot_fits::<T>(#[trigger] mints(a@)[x], #[trigger] column(mints(b@), y)),
            forall|x: int, y: int|
                0 <= x < i && 0 <= y < C ==> #[trigger] out@[x][y].to_int() == dot_seq(mints(a@)[x], column(mints(b@), y)),
        decreases A - i,
    {
        let row = a.row_vec(i);
        assert(ints(row@) == mints(a@)[i as int]);
        let mut j: usize = 0;
        while j < C
            invariant
                i < A,
                j <= C,
                ints(row@) == mints(a@)[i as int],
                forall|x: int, y: int|
                    0 <= x < A && 0 <= y < C ==> dot_fits::<T>(#[trigger] mints(a@)[x], #[trigger] column(mints(b@), y)),
                forall|x: int, y: int|
                    0 <= y < C && (0 <= x < i || (x == i && y < j)) ==> #[trigger] out@[x][y].to_int()
                        == dot_seq(mints(a@)[x], column(mints(b@), y)),
            decreases C - j,
        {
            let col = Vector::new(b.col(j));
            assert(ints(col@) =~= column(mints(b@), j as int));
            let x = dot(&row, &col);
            out.set(i, j, x);
            j += 1;
        }
        i += 1;
    }
    proof {
        lemma_mints(out@);
        assert forall|x: int| 0 <= x < A implies #[trigger] mints(out@)[x] =~= mat_mul(mints(a@), mints(b@), C as nat)[x] by {}
    }
    assert(mints(out@) =~= mat_mul(mints(a@), mints(b@), C as nat));
    out
}

} // verus!
