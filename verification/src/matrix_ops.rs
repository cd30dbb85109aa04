//! Operators on matrices: entry-wise sums and differences, arithmetic with a
//! scalar, negation, and the products of matrices with matrices and vectors.
use crate::matrix::{
    column, lemma_matrix_shape, lemma_mfrom_ints, lemma_mints, madd, madd_cw, madd_s, madd_scalar, mat_mat_mul,
    mat_mul, mat_vec, mat_vec_mul, mdiv_s, mdiv_scalar, mfits, mfrom_ints, mints, mmul_s,
    mmul_scalar, mneg, mneg_cw, msub, msub_cw, msub_s, msub_scalar, vec_mat, vec_mat_mul, Matrix,
};
use crate::vector::{dot_fits, from_ints, ints, lemma_from_ints, lemma_vector_len, Vector};
use crate::{ArithmeticAssign, ArithmeticType, SignedType, VectorizedType};
use core::ops::{Add, Div, Index, Mul, Neg, Sub};
use vstd::prelude::*;

verus! {

broadcast use {lemma_vector_len, lemma_matrix_shape};

impl<T: ArithmeticType, const R: usize, const C: usize> vstd::std_specs::ops::AddSpecImpl<Matrix<T, R, C>> for Matrix<T, R, C> {
    open spec fn obeys_add_spec() -> bool {
        true
    }

    open spec fn add_req(self, rhs: Matrix<T, R, C>) -> bool {
        mfits::<T>(madd(mints(self@), mints(rhs@)))
    }

    open spec fn add_spec(self, rhs: Matrix<T, R, C>) -> Matrix<T, R, C> {
        mfrom_ints(madd(mints(self@), mints(rhs@)))
    }
}

/// Entry-wise `lhs + rhs`.
impl<T: ArithmeticType, const R: usize, const C: usize> Add<Matrix<T, R, C>> for Matrix<T, R, C> {
    type Output = Matrix<T, R, C>;

    fn add(self, rhs: Matrix<T, R, C>) -> (r: Matrix<T, R, C>)
        ensures
            mints(r@) == madd(mints(self@), mints(rhs@)),
    {
        let r = madd_cw(&self, &rhs);
        proof {
            lemma_mfrom_ints(r);
        }
        r
    }
}

impl<'a, T: ArithmeticType, const R: usize, const C: usize> vstd::std_specs::ops::AddSpecImpl<&'a Matrix<T, R, C>> for &'a Matrix<T, R, C> {
    open spec fn obeys_add_spec() -> bool {
        true
    }

    open spec fn add_req(self, rhs: &'a Matrix<T, R, C>) -> bool {
        mfits::<T>(madd(mints(self@), mints(rhs@)))
    }

    open spec fn add_spec(self, rhs: &'a Matrix<T, R, C>) -> Matrix<T, R, C> {
        mfrom_ints(madd(mints(self@), mints(rhs@)))
    }
}

/// Entry-wise `lhs + rhs`.
impl<'a, T: ArithmeticType, const R: usize, const C: usize> Add<&'a Matrix<T, R, C>> for &'a Matrix<T, R, C> {
    type Output = Matrix<T, R, C>;

    fn add(self, rhs: &'a Matrix<T, R, C>) -> (r: Matrix<T, R, C>)
        ensures
            mints(r@) == madd(mints(self@), mints(rhs@)),
    {
        let r = madd_cw(self, rhs);
        proof {
            lemma_mfrom_ints(r);
        }
        r
    }
}

impl<T: ArithmeticType, const R: usize, const C: usize> vstd::std_specs::ops::SubSpecImpl<Matrix<T, R, C>> for Matrix<T, R, C> {
    open spec fn obeys_sub_spec() -> bool {
        true
    }

    open spec fn sub_req(self, rhs: Matrix<T, R, C>) -> bool {
        mfits::<T>(msub(mints(self@), mints(rhs@)))
    }

    open spec fn sub_spec(self, rhs: Matrix<T, R, C>) -> Matrix<T, R, C> {
        mfrom_ints(msub(mints(self@), mints(rhs@)))
    }
}

/// Entry-wise `lhs - rhs`.
impl<T: ArithmeticType, const R: usize, const C: usize> Sub<Matrix<T, R, C>> for Matrix<T, R, C> {
    type Output = Matrix<T, R, C>;

    fn sub(self, rhs: Matrix<T, R, C>) -> (r: Matrix<T, R, C>)
        ensures
            mints(r@) == msub(mints(self@), mints(rhs@)),
    {
        let r = msub_cw(&self, &rhs);
        proof {
            lemma_mfrom_ints(r);
        }
        r
    }
}

impl<'a, T: ArithmeticType, const R: usize, const C: usize> vstd::std_specs::ops::SubSpecImpl<&'a Matrix<T, R, C>> for &'a Matrix<T, R, C> {
    open spec fn obeys_sub_spec() -> bool {
        true
    }

    open spec fn sub_req(self, rhs: &'a Matrix<T, R, C>) -> bool {
        mfits::<T>(msub(mints(self@), mints(rhs@)))
    }

    open spec fn sub_spec(self, rhs: &'a Matrix<T, R, C>) -> Matrix<T, R, C> {
        mfrom_ints(msub(mints(self@), mints(rhs@)))
    }
}

/// Entry-wise `lhs - rhs`.
impl<'a, T: ArithmeticType, const R: usize, const C: usize> Sub<&'a Matrix<T, R, C>> for &'a Matrix<T, R, C> {
    type Output = Matrix<T, R, C>;

    fn sub(self, rhs: &'a Matrix<T, R, C>) -> (r: Matrix<T, R, C>)
        ensures
            mints(r@) == msub(mints(self@), mints(rhs@)),
    {
        let r = msub_cw(self, rhs);
        proof {
            lemma_mfrom_ints(r);
        }
        r
    }
}

impl<T: ArithmeticType, const R: usize, const C: usize> vstd::std_specs::ops::AddSpecImpl<T> for Matrix<T, R, C> {
    open spec fn obeys_add_spec() -> bool {
        true
    }

    open spec fn add_req(self, rhs: T) -> bool {
        mfits::<T>(madd_s(mints(self@), rhs.to_int()))
    }

    open spec fn add_spec(self, rhs: T) -> Matrix<T, R, C> {
        mfrom_ints(madd_s(mints(self@), rhs.to_int()))
    }
}

/// `lhs + rhs` for every entry of `lhs`.
impl<T: ArithmeticType, const R: usize, const C: usize> Add<T> for Matrix<T, R, C> {
    type Output = Matrix<T, R, C>;

    fn add(self, rhs: T) -> (r: Matrix<T, R, C>)
        ensures
            mints(r@) == madd_s(mints(self@), rhs.to_int()),
    {
        let r = madd_scalar(&self, rhs);
        proof {
            lemma_mfrom_ints(r);
        }
        r
    }
}

impl<'a, T: ArithmeticType, const R: usize, const C: usize> vstd::std_specs::ops::AddSpecImpl<&'a T> for &'a Matrix<T, R, C> {
    open spec fn obeys_add_spec() -> bool {
        true
    }

    open spec fn add_req(self, rhs: &'a T) -> bool {
        mfits::<T>(madd_s(mints(self@), rhs.to_int()))
    }

    open spec fn add_spec(self, rhs: &'a T) -> Matrix<T, R, C> {
        mfrom_ints(madd_s(mints(self@), rhs.to_int()))
    }
}

/// `lhs + rhs` for every entry of `lhs`.
impl<'a, T: ArithmeticType, const R: usize, const C: usize> Add<&'a T> for &'a Matrix<T, R, C> {
    type Output = Matrix<T, R, C>;

    fn add(self, rhs: &'a T) -> (r: Matrix<T, R, C>)
        ensures
            mints(r@) == madd_s(mints(self@), rhs.to_int()),
    {
        let r = madd_scalar(self, *rhs);
        proof {
            lemma_mfrom_ints(r);
        }
        r
    }
}

impl<T: ArithmeticType, const R: usize, const C: usize> vstd::std_specs::ops::SubSpecImpl<T> for Matrix<T, R, C> {
    open spec fn obeys_sub_spec() -> bool {
        true
    }

    open spec fn sub_req(self, rhs: T) -> bool {
        mfits::<T>(msub_s(mints(self@), rhs.to_int()))
    }

    open spec fn sub_spec(self, rhs: T) -> Matrix<T, R, C> {
        mfrom_ints(msub_s(mints(self@), rhs.to_int()))
    }
}

/// `lhs - rhs` for every entry of `lhs`.
impl<T: ArithmeticType, const R: usize, const C: usize> Sub<T> for Matrix<T, R, C> {
    type Output = Matrix<T, R, C>;

    fn sub(self, rhs: T) -> (r: Matrix<T, R, C>)
        ensures
            mints(r@) == msub_s(mints(self@), rhs.to_int()),
    {
        let r = msub_scalar(&self, rhs);
        proof {
            lemma_mfrom_ints(r);
        }
        r
    }
}

impl<'a, T: ArithmeticType, const R: usize, const C: usize> vstd::std_specs::ops::SubSpecImpl<&'a T> for &'a Matrix<T, R, C> {
    open spec fn obeys_sub_spec() -> bool {
        true
    }

    open spec fn sub_req(self, rhs: &'a T) -> bool {
        mfits::<T>(msub_s(mints(self@), rhs.to_int()))
    }

    open spec fn sub_spec(self, rhs: &'a T) -> Matrix<T, R, C> {
        mfrom_ints(msub_s(mints(self@), rhs.to_int()))
    }
}

/// `lhs - rhs` for every entry of `lhs`.
impl<'a, T: ArithmeticType, const R: usize, const C: usize> Sub<&'a T> for &'a Matrix<T, R, C> {
    type Output = Matrix<T, R, C>;

    fn sub(self, rhs: &'a T) -> (r: Matrix<T, R, C>)
        ensures
            mints(r@) == msub_s(mints(self@), rhs.to_int()),
    {
        let r = msub_scalar(self, *rhs);
        proof {
            lemma_mfrom_ints(r);
        }
        r
    }
}

impl<T: ArithmeticType, const R: usize, const C: usize> vstd::std_specs::ops::MulSpecImpl<T> for Matrix<T, R, C> {
    open spec fn obeys_mul_spec() -> bool {
        true
    }

    open spec fn mul_req(self, rhs: T) -> bool {
        mfits::<T>(mmul_s(mints(self@), rhs.to_int()))
    }

    open spec fn mul_spec(self, rhs: T) -> Matrix<T, R, C> {
        mfrom_ints(mmul_s(mints(self@), rhs.to_int()))
    }
}

/// `lhs * rhs` for every entry of `lhs`.
impl<T: ArithmeticType, const R: usize, const C: usize> Mul<T> for Matrix<T, R, C> {
    type Output = Matrix<T, R, C>;

    fn mul(self, rhs: T) -> (r: Matrix<T, R, C>)
        ensures
            mints(r@) == mmul_s(mints(self@), rhs.to_int()),
    {
        let r = mmul_scalar(&self, rhs);
        proof {
            lemma_mfrom_ints(r);
        }
        r
    }
}

impl<'a, T: ArithmeticType, const R: usize, const C: usize> vstd::std_specs::ops::MulSpecImpl<&'a T> for &'a Matrix<T, R, C> {
    open spec fn obeys_mul_spec() -> bool {
        true
    }

    open spec fn mul_req(self, rhs: &'a T) -> bool {
        mfits::<T>(mmul_s(mints(self@), rhs.to_int()))
    }

    open spec fn mul_spec(self, rhs: &'a T) -> Matrix<T, R, C> {
        mfrom_ints(mmul_s(mints(self@), rhs.to_int()))
    }
}

/// `lhs * rhs` for every entry of `lhs`.
impl<'a, T: ArithmeticType, const R: usize, const C: usize> Mul<&'a T> for &'a Matrix<T, R, C> {
    type Output = Matrix<T, R, C>;

    fn mul(self, rhs: &'a T) -> (r: Matrix<T, R, C>)
        ensures
            mints(r@) == mmul_s(mints(self@), rhs.to_int()),
    {
        let r = mmul_scalar(self, *rhs);
        proof {
            lemma_mfrom_ints(r);
        }
        r
    }
}

impl<T: ArithmeticType, const R: usize, const C: usize> vstd::std_specs::ops::DivSpecImpl<T> for Matrix<T, R, C> {
    open spec fn obeys_div_spec() -> bool {
        true
    }

    open spec fn div_req(self, rhs: T) -> bool {
        rhs.to_int() != 0 && mfits::<T>(mdiv_s(mints(self@), rhs.to_int()))
    }

    open spec fn div_spec(self, rhs: T) -> Matrix<T, R, C> {
        mfrom_ints(mdiv_s(mints(self@), rhs.to_int()))
    }
}

/// `lhs / rhs` for every entry of `lhs`.
impl<T: ArithmeticType, const R: usize, const C: usize> Div<T> for Matrix<T, R, C> {
    type Output = Matrix<T, R, C>;

    fn div(self, rhs: T) -> (r: Matrix<T, R, C>)
        ensures
            mints(r@) == mdiv_s(mints(self@), rhs.to_int()),
    {
        let r = mdiv_scalar(&self, rhs);
        proof {
            lemma_mfrom_ints(r);
        }
        r
    }
}

impl<'a, T: ArithmeticType, const R: usize, const C: usize> vstd::std_specs::ops::DivSpecImpl<&'a T> for &'a Matrix<T, R, C> {
    open spec fn obeys_div_spec() -> bool {
        true
    }

    open spec fn div_req(self, rhs: &'a T) -> bool {
        rhs.to_int() != 0 && mfits::<T>(mdiv_s(mints(self@), rhs.to_int()))
    }

    open spec fn div_spec(self, rhs: &'a T) -> Matrix<T, R, C> {
        mfrom_ints(mdiv_s(mints(self@), rhs.to_int()))
    }
}

/// `lhs / rhs` for every entry of `lhs`.
impl<'a, T: ArithmeticType, const R: usize, const C: usize> Div<&'a T> for &'a Matrix<T, R, C> {
    type Output = Matrix<T, R, C>;

    fn div(self, rhs: &'a T) -> (r: Matrix<T, R, C>)
        ensures
            mints(r@) == mdiv_s(mints(self@), rhs.to_int()),
    {
        let r = mdiv_scalar(self, *rhs);
        proof {
            lemma_mfrom_ints(r);
        }
        r
    }
}

impl<T: SignedType, const R: usize, const C: usize> vstd::std_specs::ops::NegSpecImpl for Matrix<T, R, C> {
    open spec fn obeys_neg_spec() -> bool {
        true
    }

    open spec fn neg_req(self) -> bool {
        mfits::<T>(mneg(mints(self@)))
    }

    open spec fn neg_spec(self) -> Matrix<T, R, C> {
        mfrom_ints(mneg(mints(self@)))
    }
}

/// Entry-wise negation.
impl<T: SignedType, const R: usize, const C: usize> Neg for Matrix<T, R, C> {
    type Output = Matrix<T, R, C>;

    fn neg(self) -> (r: Matrix<T, R, C>)
        ensures
            mints(r@) == mneg(mints(self@)),
    {
        let r = mneg_cw(&self);
        proof {
            lemma_mfrom_ints(r);
        }
        r
    }
}

impl<'a, T: SignedType, const R: usize, const C: usize> vstd::std_specs::ops::NegSpecImpl for &'a Matrix<T, R, C> {
    open spec fn obeys_neg_spec() -> bool {
        true
    }

    open spec fn neg_req(self) -> bool {
        mfits::<T>(mneg(mints(self@)))
    }

    open spec fn neg_spec(self) -> Matrix<T, R, C> {
        mfrom_ints(mneg(mints(self@)))
    }
}

/// Entry-wise negation.
impl<'a, T: SignedType, const R: usize, const C: usize> Neg for &'a Matrix<T, R, C> {
    type Output = Matrix<T, R, C>;

    fn neg(self) -> (r: Matrix<T, R, C>)
        ensures
            mints(r@) == mneg(mints(self@)),
    {
        let r = mneg_cw(self);
        proof {
            lemma_mfrom_ints(r);
        }
        r
    }
}

impl<T: ArithmeticType, const A: usize, const B: usize, const C: usize> vstd::std_specs::ops::MulSpecImpl<Matrix<T, B, C>> for Matrix<T, A, B> {
    open spec fn obeys_mul_spec() -> bool {
        true
    }

    open spec fn mul_req(self, rhs: Matrix<T, B, C>) -> bool {
        forall|i: int, j: int|
            0 <= i < A && 0 <= j < C ==> dot_fits::<T>(#[trigger] mints(self@)[i], #[trigger] column(mints(rhs@), j))
    }

    open spec fn mul_spec(self, rhs: Matrix<T, B, C>) -> Matrix<T, A, C> {
        mfrom_ints(mat_mul(mints(self@), mints(rhs@), C as nat))
    }
}

/// The matrix product: entry `(i, j)` is row `i` of `lhs` dotted with column `j` of `rhs`.
impl<T: ArithmeticType, const A: usize, const B: usize, const C: usize> Mul<Matrix<T, B, C>> for Matrix<T, A, B> {
    type Output = Matrix<T, A, C>;

    fn mul(self, rhs: Matrix<T, B, C>) -> (r: Matrix<T, A, C>)
        ensures
            mints(r@) == mat_mul(mints(self@), mints(rhs@), C as nat),
    {
        let r = mat_mat_mul(&self, &rhs);
        proof {
            lemma_mfrom_ints(r);
        }
        r
    }
}

impl<'a, T: ArithmeticType, const A: usize, const B: usize, const C: usize> vstd::std_specs::ops::MulSpecImpl<&'a Matrix<T, B, C>> for &'a Matrix<T, A, B> {
    open spec fn obeys_mul_spec() -> bool {
        true
    }

    open spec fn mul_req(self, rhs: &'a Matrix<T, B, C>) -> bool {
        forall|i: int, j: int|
            0 <= i < A && 0 <= j < C ==> dot_fits::<T>(#[trigger] mints(self@)[i], #[trigger] column(mints(rhs@), j))
    }

    open spec fn mul_spec(self, rhs: &'a Matrix<T, B, C>) -> Matrix<T, A, C> {
        mfrom_ints(mat_mul(mints(self@), mints(rhs@), C as nat))
    }
}

/// The matrix product: entry `(i, j)` is row `i` of `lhs` dotted with column `j` of `rhs`.
impl<'a, T: ArithmeticType, const A: usize, const B: usize, const C: usize> Mul<&'a Matrix<T, B, C>> for &'a Matrix<T, A, B> {
    type Output = Matrix<T, A, C>;

    fn mul(self, rhs: &'a Matrix<T, B, C>) -> (r: Matrix<T, A, C>)
        ensures
            mints(r@) == mat_mul(mints(self@), mints(rhs@), C as nat),
    {
        let r = mat_mat_mul(self, rhs);
        proof {
            lemma_mfrom_ints(r);
        }
        r
    }
}

impl<T: ArithmeticType, const R: usize, const C: usize> vstd::std_specs::ops::MulSpecImpl<Vector<T, C>> for Matrix<T, R, C> {
    open spec fn obeys_mul_spec() -> bool {
        true
    }

    open spec fn mul_req(self, rhs: Vector<T, C>) -> bool {
        forall|i: int| 0 <= i < R ==> dot_fits::<T>(#[trigger] mints(self@)[i], ints(rhs@))
    }

    open spec fn mul_spec(self, rhs: Vector<T, C>) -> Vector<T, R> {
        from_ints(mat_vec(mints(self@), ints(rhs@)))
    }
}

/// The product with a column vector: entry `i` is row `i` dotted with `rhs`.
impl<T: ArithmeticType, const R: usize, const C: usize> Mul<Vector<T, C>> for Matrix<T, R, C> {
    type Output = Vector<T, R>;

    fn mul(self, rhs: Vector<T, C>) -> (r: Vector<T, R>)
        ensures
            ints(r@) == mat_vec(mints(self@), ints(rhs@)),
    {
        let r = mat_vec_mul(&self, &rhs);
        proof {
            lemma_from_ints(r);
        }
        r
    }
}

impl<'a, T: ArithmeticType, const R: usize, const C: usize> vstd::std_specs::ops::MulSpecImpl<&'a Vector<T, C>> for &'a Matrix<T, R, C> {
    open spec fn obeys_mul_spec() -> bool {
        true
    }

    open spec fn mul_req(self, rhs: &'a Vector<T, C>) -> bool {
        forall|i: int| 0 <= i < R ==> dot_fits::<T>(#[trigger] mints(self@)[i], ints(rhs@))
    }

    open spec fn mul_spec(self, rhs: &'a Vector<T, C>) -> Vector<T, R> {
        from_ints(mat_vec(mints(self@), ints(rhs@)))
    }
}

/// The product with a column vector: entry `i` is row `i` dotted with `rhs`.
impl<'a, T: ArithmeticType, const R: usize, const C: usize> Mul<&'a Vector<T, C>> for &'a Matrix<T, R, C> {
    type Output = Vector<T, R>;

    fn mul(self, rhs: &'a Vector<T, C>) -> (r: Vector<T, R>)
        ensures
            ints(r@) == mat_vec(mints(self@), ints(rhs@)),
    {
        let r = mat_vec_mul(self, rhs);
        proof {
            lemma_from_ints(r);
        }
        r
    }
}

impl<T: ArithmeticType, const R: usize, const C: usize> vstd::std_specs::ops::MulSpecImpl<Matrix<T, R, C>> for Vector<T, R> {
    open spec fn obeys_mul_spec() -> bool {
        true
    }

    open spec fn mul_req(self, rhs: Matrix<T, R, C>) -> bool {
        forall|j: int| 0 <= j < C ==> dot_fits::<T>(#[trigger] column(mints(rhs@), j), ints(self@))
    }

    open spec fn mul_spec(self, rhs: Matrix<T, R, C>) -> Vector<T, C> {
        from_ints(vec_mat(ints(self@), mints(rhs@), C as nat))
    }
}

/// The product of a row vector with a matrix: entry `j` is column `j` of `rhs` dotted with `lhs`.
impl<T: ArithmeticType, const R: usize, const C: usize> Mul<Matrix<T, R, C>> for Vector<T, R> {
    type Output = Vector<T, C>;

    fn mul(self, rhs: Matrix<T, R, C>) -> (r: Vector<T, C>)
        ensures
            ints(r@) == vec_mat(ints(self@), mints(rhs@), C as nat),
    {
        let r = vec_mat_mul(&self, &rhs);
        proof {
            lemma_from_ints(r);
        }
        r
    }
}

impl<'a, T: ArithmeticType, const R: usize, const C: usize> vstd::std_specs::ops::MulSpecImpl<&'a Matrix<T, R, C>> for &'a Vector<T, R> {
    open spec fn obeys_mul_spec() -> bool {
        true
    }

    open spec fn mul_req(self, rhs: &'a Matrix<T, R, C>) -> bool {
        forall|j: int| 0 <= j < C ==> dot_fits::<T>(#[trigger] column(mints(rhs@), j), ints(self@))
    }

    open spec fn mul_spec(self, rhs: &'a Matrix<T, R, C>) -> Vector<T, C> {
        from_ints(vec_mat(ints(self@), mints(rhs@), C as nat))
    }
}

/// The product of a row vector with a matrix: entry `j` is column `j` of `rhs` dotted with `lhs`.
impl<'a, T: ArithmeticType, const R: usize, const C: usize> Mul<&'a Matrix<T, R, C>> for &'a Vector<T, R> {
    type Output = Vector<T, C>;

    fn mul(self, rhs: &'a Matrix<T, R, C>) -> (r: Vector<T, C>)
        ensures
            ints(r@) == vec_mat(ints(self@), mints(rhs@), C as nat),
    {
        let r = vec_mat_mul(self, rhs);
        proof {
            lemma_from_ints(r);
        }
        r
    }
}

/// The top-left 3x3 block of a 4x4 integer matrix.
pub open spec fn upper3(m: Seq<Seq<int>>) -> Seq<Seq<int>> {
    Seq::new(3, |i: int| Seq::new(3, |j: int| m[i][j]))
}

/// A 3x3 integer matrix embedded in the 4x4 identity.
pub open spec fn embed4(m: Seq<Seq<int>>) -> Seq<Seq<int>> {
    Seq::new(
        4,
        |i: int|
            Seq::new(
                4,
                |j: int|
                    if i < 3 && j < 3 {
                        m[i][j]
                    } else if i == 3 && j == 3 {
                        1int
                    } else {
                        0int
                    },
            ),
    )
}

/// The top-left 3x3 block of a 4x4 matrix.
fn upper_block<T: ArithmeticType>(mat44: &Matrix<T, 4, 4>) -> (r: Matrix<T, 3, 3>)
    ensures
        mints(r@) == upper3(mints(mat44@)),
{
    let mut m = Matrix::<T, 3, 3>::zero();
    let r0 = mat44.rv::<3>(0);
    let r1 = mat44.rv::<3>(1);
    let r2 = mat44.rv::<3>(2);
    m.srv(0, &r0);
    assert(m@[0] =~= r0@);
    m.srv(1, &r1);
    assert(m@[1] =~= r1@);
    m.srv(2, &r2);
    assert(m@[2] =~= r2@);
    proof {
        lemma_mints(m@);
        lemma_mints(mat44@);
        assert forall|i: int| 0 <= i < 3 implies #[trigger] mints(m@)[i] =~= upper3(mints(mat44@))[i] by {
            assert forall|j: int| 0 <= j < 3 implies mints(m@)[i][j] == upper3(mints(mat44@))[i][j] by {
                assert(mints(m@)[i][j] == m@[i][j].to_int());
                if i == 0 {
                    assert(ints(r0@)[j] == r0@[j].to_int());
                } else if i == 1 {
                    assert(ints(r1@)[j] == r1@[j].to_int());
                } else {
                    assert(ints(r2@)[j] == r2@[j].to_int());
                }
            }
        }
    }
    assert(mints(m@) =~= upper3(mints(mat44@)));
    m
}

/// A 3x3 matrix in the top-left block of the 4x4 identity.
fn embed_block<T: ArithmeticType>(mat33: &Matrix<T, 3, 3>) -> (r: Matrix<T, 4, 4>)
    ensures
        mints(r@) == embed4(mints(mat33@)),
{
    let mut m = Matrix::<T, 4, 4>::zero();
    let r0 = mat33.rv::<4>(0);
    let r1 = mat33.rv::<4>(1);
    let r2 = mat33.rv::<4>(2);
    proof {
        lemma_mints(m@);
        assert forall|j: int| 0 <= j < 4 implies m@[3][j].to_int() == 0 by {
            assert(mints(m@)[3][j] == 0);
        }
    }
    m.srv(0, &r0);
    assert(m@[0] =~= r0@);
    m.srv(1, &r1);
    assert(m@[1] =~= r1@);
    m.srv(2, &r2);
    assert(m@[2] =~= r2@);
    m.set(3, 3, T::one());
    proof {
        lemma_mints(m@);
        lemma_mints(mat33@);
        assert forall|i: int| 0 <= i < 4 implies #[trigger] mints(m@)[i] =~= embed4(mints(mat33@))[i] by {
            assert forall|j: int| 0 <= j < 4 implies mints(m@)[i][j] == embed4(mints(mat33@))[i][j] by {
                assert(mints(m@)[i][j] == m@[i][j].to_int());
                if i == 0 {
                    assert(ints(r0@)[j] == r0@[j].to_int());
                } else if i == 1 {
                    assert(ints(r1@)[j] == r1@[j].to_int());
                } else if i == 2 {
                    assert(ints(r2@)[j] == r2@[j].to_int());
                }
            }
        }
    }
    assert(mints(m@) =~= embed4(mints(mat33@)));
    m
}

impl<'a, T: ArithmeticType> vstd::std_specs::convert::FromSpecImpl<&'a Matrix<T, 4, 4>> for Matrix<T, 3, 3> {
    open spec fn obeys_from_spec() -> bool {
        true
    }

    open spec fn from_spec(v: &'a Matrix<T, 4, 4>) -> Matrix<T, 3, 3> {
        mfrom_ints(upper3(mints(v@)))
    }
}

/// The top-left 3x3 block.
impl<'a, T: ArithmeticType> From<&'a Matrix<T, 4, 4>> for Matrix<T, 3, 3> {
    fn from(mat44: &'a Matrix<T, 4, 4>) -> (r: Matrix<T, 3, 3>)
        ensures
            mints(r@) == upper3(mints(mat44@)),
    {
        let r = upper_block(mat44);
        proof {
            lemma_mfrom_ints(r);
        }
        r
    }
}

impl<T: ArithmeticType> vstd::std_specs::convert::FromSpecImpl<Matrix<T, 4, 4>> for Matrix<T, 3, 3> {
    open spec fn obeys_from_spec() -> bool {
        true
    }

    open spec fn from_spec(v: Matrix<T, 4, 4>) -> Matrix<T, 3, 3> {
        mfrom_ints(upper3(mints(v@)))
    }
}

/// The top-left 3x3 block.
impl<T: ArithmeticType> From<Matrix<T, 4, 4>> for Matrix<T, 3, 3> {
    fn from(mat44: Matrix<T, 4, 4>) -> (r: Matrix<T, 3, 3>)
        ensures
            mints(r@) == upper3(mints(mat44@)),
    {
        let r = upper_block(&mat44);
        proof {
            lemma_mfrom_ints(r);
        }
        r
    }
}

impl<'a, T: ArithmeticType> vstd::std_specs::convert::FromSpecImpl<&'a Matrix<T, 3, 3>> for Matrix<T, 4, 4> {
    open spec fn obeys_from_spec() -> bool {
        true
    }

    open spec fn from_spec(v: &'a Matrix<T, 3, 3>) -> Matrix<T, 4, 4> {
        mfrom_ints(embed4(mints(v@)))
    }
}

/// The 3x3 matrix in the top-left block of the 4x4 identity.
impl<'a, T: ArithmeticType> From<&'a Matrix<T, 3, 3>> for Matrix<T, 4, 4> {
    fn from(mat33: &'a Matrix<T, 3, 3>) -> (r: Matrix<T, 4, 4>)
        ensures
            mints(r@) == embed4(mints(mat33@)),
    {
        let r = embed_block(mat33);
        proof {
            lemma_mfrom_ints(r);
        }
        r
    }
}

impl<T: ArithmeticType> vstd::std_specs::convert::FromSpecImpl<Matrix<T, 3, 3>> for Matrix<T, 4, 4> {
    open spec fn obeys_from_spec() -> bool {
        true
    }

    open spec fn from_spec(v: Matrix<T, 3, 3>) -> Matrix<T, 4, 4> {
        mfrom_ints(embed4(mints(v@)))
    }
}

/// The 3x3 matrix in the top-left block of the 4x4 identity.
impl<T: ArithmeticType> From<Matrix<T, 3, 3>> for Matrix<T, 4, 4> {
    fn from(mat33: Matrix<T, 3, 3>) -> (r: Matrix<T, 4, 4>)
        ensures
            mints(r@) == embed4(mints(mat33@)),
    {
        let r = embed_block(&mat33);
        proof {
            lemma_mfrom_ints(r);
        }
        r
    }
}

impl<T: VectorizedType, const R: usize, const C: usize> vstd::std_specs::core::IndexSpecImpl<usize> for Matrix<T, R, C> {
    open spec fn index_req(&self, index: &usize) -> bool {
        *index < R
    }
}

/// The row at an index below `R`.
impl<T: VectorizedType, const R: usize, const C: usize> Index<usize> for Matrix<T, R, C> {
    type Output = [T; C];

    fn index(&self, i: usize) -> (r: &[T; C])
        ensures
            r@ == self@[i as int],
    {
        self.row(i)
    }
}

impl<T: ArithmeticType, const R: usize, const C: usize> Default for Matrix<T, R, C> {
    /// The zero matrix.
    fn default() -> (r: Self)
        ensures
            mints(r@) == Seq::new(R as nat, |i: int| Seq::new(C as nat, |j: int| 0int)),
    {
        Self::zero()
    }
}

} // verus!
