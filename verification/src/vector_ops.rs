//! Operators on vectors: component-wise arithmetic between two vectors, between a
//! vector and a scalar on either side, negation, and the logical operators on
//! vectors of booleans. Each operator is stated over the integers that the
//! components stand for.
use crate::vector::{
    add_cw, add_seq, all_nonzero, and_cw, and_seq, cw_fits, div_cw, div_seq, from_ints, from_seq,
    ints, lemma_from_ints, lemma_vector_len, lemma_from_seq, mul_cw, mul_seq, neg_cw, neg_seq, not_seq, not_vec, or_cw,
    or_seq, splat, sub_cw, sub_seq, xor_cw, xor_seq, Vector,
};
use crate::{ArithmeticAssign, ArithmeticType, SignedType, VectorizedType};
use core::ops::{Add, BitAnd, BitOr, BitXor, Div, Index, Mul, Neg, Not, Sub};
use vstd::prelude::*;

verus! {

broadcast use lemma_vector_len;

impl<T: ArithmeticType, const N: usize> vstd::std_specs::ops::AddSpecImpl<Vector<T, N>> for Vector<T, N> {
    open spec fn obeys_add_spec() -> bool {
        true
    }

    open spec fn add_req(self, rhs: Vector<T, N>) -> bool {
        cw_fits::<T>(add_seq(ints(self@), ints(rhs@)))
    }

    open spec fn add_spec(self, rhs: Vector<T, N>) -> Vector<T, N> {
        from_ints(add_seq(ints(self@), ints(rhs@)))
    }
}

/// Component-wise `lhs + rhs`.
impl<T: ArithmeticType, const N: usize> Add<Vector<T, N>> for Vector<T, N> {
    type Output = Vector<T, N>;

    fn add(self, rhs: Vector<T, N>) -> (r: Vector<T, N>)
        ensures
            ints(r@) == add_seq(ints(self@), ints(rhs@)),
    {
        let r = add_cw(&self, &rhs);
        proof {
            lemma_from_ints(r);
        }
        r
    }
}

impl<'a, T: ArithmeticType, const N: usize> vstd::std_specs::ops::AddSpecImpl<&'a Vector<T, N>> for &'a Vector<T, N> {
    open spec fn obeys_add_spec() -> bool {
        true
    }

    open spec fn add_req(self, rhs: &'a Vector<T, N>) -> bool {
        cw_fits::<T>(add_seq(ints(self@), ints(rhs@)))
    }

    open spec fn add_spec(self, rhs: &'a Vector<T, N>) -> Vector<T, N> {
        from_ints(add_seq(ints(self@), ints(rhs@)))
    }
}

/// Component-wise `lhs + rhs`.
impl<'a, T: ArithmeticType, const N: usize> Add<&'a Vector<T, N>> for &'a Vector<T, N> {
    type Output = Vector<T, N>;

    fn add(self, rhs: &'a Vector<T, N>) -> (r: Vector<T, N>)
        ensures
            ints(r@) == add_seq(ints(self@), ints(rhs@)),
    {
        let r = add_cw(self, rhs);
        proof {
            lemma_from_ints(r);
        }
        r
    }
}

impl<T: ArithmeticType, const N: usize> vstd::std_specs::ops::SubSpecImpl<Vector<T, N>> for Vector<T, N> {
    open spec fn obeys_sub_spec() -> bool {
        true
    }

    open spec fn sub_req(self, rhs: Vector<T, N>) -> bool {
        cw_fits::<T>(sub_seq(ints(self@), ints(rhs@)))
    }

    open spec fn sub_spec(self, rhs: Vector<T, N>) -> Vector<T, N> {
        from_ints(sub_seq(ints(self@), ints(rhs@)))
    }
}

/// Component-wise `lhs - rhs`.
impl<T: ArithmeticType, const N: usize> Sub<Vector<T, N>> for Vector<T, N> {
    type Output = Vector<T, N>;

    fn sub(self, rhs: Vector<T, N>) -> (r: Vector<T, N>)
        ensures
            ints(r@) == sub_seq(ints(self@), ints(rhs@)),
    {
        let r = sub_cw(&self, &rhs);
        proof {
            lemma_from_ints(r);
        }
        r
    }
}

impl<'a, T: ArithmeticType, const N: usize> vstd::std_specs::ops::SubSpecImpl<&'a Vector<T, N>> for &'a Vector<T, N> {
    open spec fn obeys_sub_spec() -> bool {
        true
    }

    open spec fn sub_req(self, rhs: &'a Vector<T, N>) -> bool {
        cw_fits::<T>(sub_seq(ints(self@), ints(rhs@)))
    }

    open spec fn sub_spec(self, rhs: &'a Vector<T, N>) -> Vector<T, N> {
        from_ints(sub_seq(ints(self@), ints(rhs@)))
    }
}

/// Component-wise `lhs - rhs`.
impl<'a, T: ArithmeticType, const N: usize> Sub<&'a Vector<T, N>> for &'a Vector<T, N> {
    type Output = Vector<T, N>;

    fn sub(self, rhs: &'a Vector<T, N>) -> (r: Vector<T, N>)
        ensures
            ints(r@) == sub_seq(ints(self@), ints(rhs@)),
    {
        let r = sub_cw(self, rhs);
        proof {
            lemma_from_ints(r);
        }
        r
    }
}

impl<T: ArithmeticType, const N: usize> vstd::std_specs::ops::MulSpecImpl<Vector<T, N>> for Vector<T, N> {
    open spec fn obeys_mul_spec() -> bool {
        true
    }

    open spec fn mul_req(self, rhs: Vector<T, N>) -> bool {
        cw_fits::<T>(mul_seq(ints(self@), ints(rhs@)))
    }

    open spec fn mul_spec(self, rhs: Vector<T, N>) -> Vector<T, N> {
        from_ints(mul_seq(ints(self@), ints(rhs@)))
    }
}

/// Component-wise `lhs * rhs`.
impl<T: ArithmeticType, const N: usize> Mul<Vector<T, N>> for Vector<T, N> {
    type Output = Vector<T, N>;

    fn mul(self, rhs: Vector<T, N>) -> (r: Vector<T, N>)
        ensures
            ints(r@) == mul_seq(ints(self@), ints(rhs@)),
    {
        let r = mul_cw(&self, &rhs);
        proof {
            lemma_from_ints(r);
        }
        r
    }
}

impl<'a, T: ArithmeticType, const N: usize> vstd::std_specs::ops::MulSpecImpl<&'a Vector<T, N>> for &'a Vector<T, N> {
    open spec fn obeys_mul_spec() -> bool {
        true
    }

    open spec fn mul_req(self, rhs: &'a Vector<T, N>) -> bool {
        cw_fits::<T>(mul_seq(ints(self@), ints(rhs@)))
    }

    open spec fn mul_spec(self, rhs: &'a Vector<T, N>) -> Vector<T, N> {
        from_ints(mul_seq(ints(self@), ints(rhs@)))
    }
}

/// Component-wise `lhs * rhs`.
impl<'a, T: ArithmeticType, const N: usize> Mul<&'a Vector<T, N>> for &'a Vector<T, N> {
    type Output = Vector<T, N>;

    fn mul(self, rhs: &'a Vector<T, N>) -> (r: Vector<T, N>)
        ensures
            ints(r@) == mul_seq(ints(self@), ints(rhs@)),
    {
        let r = mul_cw(self, rhs);
        proof {
            lemma_from_ints(r);
        }
        r
    }
}

impl<T: ArithmeticType, const N: usize> vstd::std_specs::ops::DivSpecImpl<Vector<T, N>> for Vector<T, N> {
    open spec fn obeys_div_spec() -> bool {
        true
    }

    open spec fn div_req(self, rhs: Vector<T, N>) -> bool {
        all_nonzero(ints(rhs@)) && cw_fits::<T>(div_seq(ints(self@), ints(rhs@)))
    }

    open spec fn div_spec(self, rhs: Vector<T, N>) -> Vector<T, N> {
        from_ints(div_seq(ints(self@), ints(rhs@)))
    }
}

/// Component-wise `lhs / rhs`.
impl<T: ArithmeticType, const N: usize> Div<Vector<T, N>> for Vector<T, N> {
    type Output = Vector<T, N>;

    fn div(self, rhs: Vector<T, N>) -> (r: Vector<T, N>)
        ensures
            ints(r@) == div_seq(ints(self@), ints(rhs@)),
    {
        let r = div_cw(&self, &rhs);
        proof {
            lemma_from_ints(r);
        }
        r
    }
}

impl<'a, T: ArithmeticType, const N: usize> vstd::std_specs::ops::DivSpecImpl<&'a Vector<T, N>> for &'a Vector<T, N> {
    open spec fn obeys_div_spec() -> bool {
        true
    }

    open spec fn div_req(self, rhs: &'a Vector<T, N>) -> bool {
        all_nonzero(ints(rhs@)) && cw_fits::<T>(div_seq(ints(self@), ints(rhs@)))
    }

    open spec fn div_spec(self, rhs: &'a Vector<T, N>) -> Vector<T, N> {
        from_ints(div_seq(ints(self@), ints(rhs@)))
    }
}

/// Component-wise `lhs / rhs`.
impl<'a, T: ArithmeticType, const N: usize> Div<&'a Vector<T, N>> for &'a Vector<T, N> {
    type Output = Vector<T, N>;

    fn div(self, rhs: &'a Vector<T, N>) -> (r: Vector<T, N>)
        ensures
            ints(r@) == div_seq(ints(self@), ints(rhs@)),
    {
        let r = div_cw(self, rhs);
        proof {
            lemma_from_ints(r);
        }
        r
    }
}

impl<T: ArithmeticType, const N: usize> vstd::std_specs::ops::AddSpecImpl<T> for Vector<T, N> {
    open spec fn obeys_add_spec() -> bool {
        true
    }

    open spec fn add_req(self, rhs: T) -> bool {
        cw_fits::<T>(add_seq(ints(self@), splat(rhs.to_int(), N as nat)))
    }

    open spec fn add_spec(self, rhs: T) -> Vector<T, N> {
        from_ints(add_seq(ints(self@), splat(rhs.to_int(), N as nat)))
    }
}

/// `lhs + rhs` for every component of `lhs`.
impl<T: ArithmeticType, const N: usize> Add<T> for Vector<T, N> {
    type Output = Vector<T, N>;

    fn add(self, rhs: T) -> (r: Vector<T, N>)
        ensures
            ints(r@) == add_seq(ints(self@), splat(rhs.to_int(), N as nat)),
    {
        let s = Vector::<T, N>::splat(rhs);
        proof {
            assert(ints(s@) =~= splat(rhs.to_int(), N as nat));
        }
        let r = add_cw(&self, &s);
        proof {
            lemma_from_ints(r);
        }
        r
    }
}

impl<'a, T: ArithmeticType, const N: usize> vstd::std_specs::ops::AddSpecImpl<&'a T> for &'a Vector<T, N> {
    open spec fn obeys_add_spec() -> bool {
        true
    }

    open spec fn add_req(self, rhs: &'a T) -> bool {
        cw_fits::<T>(add_seq(ints(self@), splat(rhs.to_int(), N as nat)))
    }

    open spec fn add_spec(self, rhs: &'a T) -> Vector<T, N> {
        from_ints(add_seq(ints(self@), splat(rhs.to_int(), N as nat)))
    }
}

/// `lhs + rhs` for every component of `lhs`.
impl<'a, T: ArithmeticType, const N: usize> Add<&'a T> for &'a Vector<T, N> {
    type Output = Vector<T, N>;

    fn add(self, rhs: &'a T) -> (r: Vector<T, N>)
        ensures
            ints(r@) == add_seq(ints(self@), splat(rhs.to_int(), N as nat)),
    {
        let s = Vector::<T, N>::splat(*rhs);
        proof {
            assert(ints(s@) =~= splat(rhs.to_int(), N as nat));
        }
        let r = add_cw(self, &s);
        proof {
            lemma_from_ints(r);
        }
        r
    }
}

impl<T: ArithmeticType, const N: usize> vstd::std_specs::ops::SubSpecImpl<T> for Vector<T, N> {
    open spec fn obeys_sub_spec() -> bool {
        true
    }

    open spec fn sub_req(self, rhs: T) -> bool {
        cw_fits::<T>(sub_seq(ints(self@), splat(rhs.to_int(), N as nat)))
    }

    open spec fn sub_spec(self, rhs: T) -> Vector<T, N> {
        from_ints(sub_seq(ints(self@), splat(rhs.to_int(), N as nat)))
    }
}

/// `lhs - rhs` for every component of `lhs`.
impl<T: ArithmeticType, const N: usize> Sub<T> for Vector<T, N> {
    type Output = Vector<T, N>;

    fn sub(self, rhs: T) -> (r: Vector<T, N>)
        ensures
            ints(r@) == sub_seq(ints(self@), splat(rhs.to_int(), N as nat)),
    {
        let s = Vector::<T, N>::splat(rhs);
        proof {
            assert(ints(s@) =~= splat(rhs.to_int(), N as nat));
        }
        let r = sub_cw(&self, &s);
        proof {
            lemma_from_ints(r);
        }
        r
    }
}

impl<'a, T: ArithmeticType, const N: usize> vstd::std_specs::ops::SubSpecImpl<&'a T> for &'a Vector<T, N> {
    open spec fn obeys_sub_spec() -> bool {
        true
    }

    open spec fn sub_req(self, rhs: &'a T) -> bool {
        cw_fits::<T>(sub_seq(ints(self@), splat(rhs.to_int(), N as nat)))
    }

    open spec fn sub_spec(self, rhs: &'a T) -> Vector<T, N> {
        from_ints(sub_seq(ints(self@), splat(rhs.to_int(), N as nat)))
    }
}

/// `lhs - rhs` for every component of `lhs`.
impl<'a, T: ArithmeticType, const N: usize> Sub<&'a T> for &'a Vector<T, N> {
    type Output = Vector<T, N>;

    fn sub(self, rhs: &'a T) -> (r: Vector<T, N>)
        ensures
            ints(r@) == sub_seq(ints(self@), splat(rhs.to_int(), N as nat)),
    {
        let s = Vector::<T, N>::splat(*rhs);
        proof {
            assert(ints(s@) =~= splat(rhs.to_int(), N as nat));
        }
        let r = sub_cw(self, &s);
        proof {
            lemma_from_ints(r);
        }
        r
    }
}

impl<T: ArithmeticType, const N: usize> vstd::std_specs::ops::MulSpecImpl<T> for Vector<T, N> {
    open spec fn obeys_mul_spec() -> bool {
        true
    }

    open spec fn mul_req(self, rhs: T) -> bool {
        cw_fits::<T>(mul_seq(ints(self@), splat(rhs.to_int(), N as nat)))
    }

    open spec fn mul_spec(self, rhs: T) -> Vector<T, N> {
        from_ints(mul_seq(ints(self@), splat(rhs.to_int(), N as nat)))
    }
}

/// `lhs * rhs` for every component of `lhs`.
impl<T: ArithmeticType, const N: usize> Mul<T> for Vector<T, N> {
    type Output = Vector<T, N>;

    fn mul(self, rhs: T) -> (r: Vector<T, N>)
        ensures
            ints(r@) == mul_seq(ints(self@), splat(rhs.to_int(), N as nat)),
    {
        let s = Vector::<T, N>::splat(rhs);
        proof {
            assert(ints(s@) =~= splat(rhs.to_int(), N as nat));
        }
        let r = mul_cw(&self, &s);
        proof {
            lemma_from_ints(r);
        }
        r
    }
}

impl<'a, T: ArithmeticType, const N: usize> vstd::std_specs::ops::MulSpecImpl<&'a T> for &'a Vector<T, N> {
    open spec fn obeys_mul_spec() -> bool {
        true
    }

    open spec fn mul_req(self, rhs: &'a T) -> bool {
        cw_fits::<T>(mul_seq(ints(self@), splat(rhs.to_int(), N as nat)))
    }

    open spec fn mul_spec(self, rhs: &'a T) -> Vector<T, N> {
        from_ints(mul_seq(ints(self@), splat(rhs.to_int(), N as nat)))
    }
}

/// `lhs * rhs` for every component of `lhs`.
impl<'a, T: ArithmeticType, const N: usize> Mul<&'a T> for &'a Vector<T, N> {
    type Output = Vector<T, N>;

    fn mul(self, rhs: &'a T) -> (r: Vector<T, N>)
        ensures
            ints(r@) == mul_seq(ints(self@), splat(rhs.to_int(), N as nat)),
    {
        let s = Vector::<T, N>::splat(*rhs);
        proof {
            assert(ints(s@) =~= splat(rhs.to_int(), N as nat));
        }
        let r = mul_cw(self, &s);
        proof {
            lemma_from_ints(r);
        }
        r
    }
}

impl<T: ArithmeticType, const N: usize> vstd::std_specs::ops::DivSpecImpl<T> for Vector<T, N> {
    open spec fn obeys_div_spec() -> bool {
        true
    }

    open spec fn div_req(self, rhs: T) -> bool {
        all_nonzero(splat(rhs.to_int(), N as nat)) && cw_fits::<T>(div_seq(ints(self@), splat(rhs.to_int(), N as nat)))
    }

    open spec fn div_spec(self, rhs: T) -> Vector<T, N> {
        from_ints(div_seq(ints(self@), splat(rhs.to_int(), N as nat)))
    }
}

/// `lhs / rhs` for every component of `lhs`.
impl<T: ArithmeticType, const N: usize> Div<T> for Vector<T, N> {
    type Output = Vector<T, N>;

    fn div(self, rhs: T) -> (r: Vector<T, N>)
        ensures
            ints(r@) == div_seq(ints(self@), splat(rhs.to_int(), N as nat)),
    {
        let s = Vector::<T, N>::splat(rhs);
        proof {
            assert(ints(s@) =~= splat(rhs.to_int(), N as nat));
        }
        let r = div_cw(&self, &s);
        proof {
            lemma_from_ints(r);
        }
        r
    }
}

impl<'a, T: ArithmeticType, const N: usize> vstd::std_specs::ops::DivSpecImpl<&'a T> for &'a Vector<T, N> {
    open spec fn obeys_div_spec() -> bool {
        true
    }

    open spec fn div_req(self, rhs: &'a T) -> bool {
        all_nonzero(splat(rhs.to_int(), N as nat)) && cw_fits::<T>(div_seq(ints(self@), splat(rhs.to_int(), N as nat)))
    }

    open spec fn div_spec(self, rhs: &'a T) -> Vector<T, N> {
        from_ints(div_seq(ints(self@), splat(rhs.to_int(), N as nat)))
    }
}

/// `lhs / rhs` for every component of `lhs`.
impl<'a, T: ArithmeticType, const N: usize> Div<&'a T> for &'a Vector<T, N> {
    type Output = Vector<T, N>;

    fn div(self, rhs: &'a T) -> (r: Vector<T, N>)
        ensures
            ints(r@) == div_seq(ints(self@), splat(rhs.to_int(), N as nat)),
    {
        let s = Vector::<T, N>::splat(*rhs);
        proof {
            assert(ints(s@) =~= splat(rhs.to_int(), N as nat));
        }
        let r = div_cw(self, &s);
        proof {
            lemma_from_ints(r);
        }
        r
    }
}

impl<const N: usize> vstd::std_specs::ops::AddSpecImpl<Vector<i32, N>> for i32 {
    open spec fn obeys_add_spec() -> bool {
        true
    }

    open spec fn add_req(self, rhs: Vector<i32, N>) -> bool {
        cw_fits::<i32>(add_seq(splat(self.to_int(), N as nat), ints(rhs@)))
    }

    open spec fn add_spec(self, rhs: Vector<i32, N>) -> Vector<i32, N> {
        from_ints(add_seq(splat(self.to_int(), N as nat), ints(rhs@)))
    }
}

/// `lhs + rhs` for every component of `rhs`.
impl<const N: usize> Add<Vector<i32, N>> for i32 {
    type Output = Vector<i32, N>;

    fn add(self, rhs: Vector<i32, N>) -> (r: Vector<i32, N>)
        ensures
            ints(r@) == add_seq(splat(self.to_int(), N as nat), ints(rhs@)),
    {
        let s = Vector::<i32, N>::splat(self);
        proof {
            assert(ints(s@) =~= splat(self.to_int(), N as nat));
        }
        let r = add_cw(&s, &rhs);
        proof {
            lemma_from_ints(r);
        }
        r
    }
}

impl<'a, const N: usize> vstd::std_specs::ops::AddSpecImpl<&'a Vector<i32, N>> for &'a i32 {
    open spec fn obeys_add_spec() -> bool {
        true
    }

    open spec fn add_req(self, rhs: &'a Vector<i32, N>) -> bool {
        cw_fits::<i32>(add_seq(splat(self.to_int(), N as nat), ints(rhs@)))
    }

    open spec fn add_spec(self, rhs: &'a Vector<i32, N>) -> Vector<i32, N> {
        from_ints(add_seq(splat(self.to_int(), N as nat), ints(rhs@)))
    }
}

/// `lhs + rhs` for every component of `rhs`.
impl<'a, const N: usize> Add<&'a Vector<i32, N>> for &'a i32 {
    type Output = Vector<i32, N>;

    fn add(self, rhs: &'a Vector<i32, N>) -> (r: Vector<i32, N>)
        ensures
            ints(r@) == add_seq(splat(self.to_int(), N as nat), ints(rhs@)),
    {
        let s = Vector::<i32, N>::splat(*self);
        proof {
            assert(ints(s@) =~= splat(self.to_int(), N as nat));
        }
        let r = add_cw(&s, rhs);
        proof {
            lemma_from_ints(r);
        }
        r
    }
}

impl<const N: usize> vstd::std_specs::ops::SubSpecImpl<Vector<i32, N>> for i32 {
    open spec fn obeys_sub_spec() -> bool {
        true
    }

    open spec fn sub_req(self, rhs: Vector<i32, N>) -> bool {
        cw_fits::<i32>(sub_seq(splat(self.to_int(), N as nat), ints(rhs@)))
    }

    open spec fn sub_spec(self, rhs: Vector<i32, N>) -> Vector<i32, N> {
        from_ints(sub_seq(splat(self.to_int(), N as nat), ints(rhs@)))
    }
}

/// `lhs - rhs` for every component of `rhs`.
impl<const N: usize> Sub<Vector<i32, N>> for i32 {
    type Output = Vector<i32, N>;

    fn sub(self, rhs: Vector<i32, N>) -> (r: Vector<i32, N>)
        ensures
            ints(r@) == sub_seq(splat(self.to_int(), N as nat), ints(rhs@)),
    {
        let s = Vector::<i32, N>::splat(self);
        proof {
            assert(ints(s@) =~= splat(self.to_int(), N as nat));
        }
        let r = sub_cw(&s, &rhs);
        proof {
            lemma_from_ints(r);
        }
        r
    }
}

impl<'a, const N: usize> vstd::std_specs::ops::SubSpecImpl<&'a Vector<i32, N>> for &'a i32 {
    open spec fn obeys_sub_spec() -> bool {
        true
    }

    open spec fn sub_req(self, rhs: &'a Vector<i32, N>) -> bool {
        cw_fits::<i32>(sub_seq(splat(self.to_int(), N as nat), ints(rhs@)))
    }

    open spec fn sub_spec(self, rhs: &'a Vector<i32, N>) -> Vector<i32, N> {
        from_ints(sub_seq(splat(self.to_int(), N as nat), ints(rhs@)))
    }
}

/// `lhs - rhs` for every component of `rhs`.
impl<'a, const N: usize> Sub<&'a Vector<i32, N>> for &'a i32 {
    type Output = Vector<i32, N>;

    fn sub(self, rhs: &'a Vector<i32, N>) -> (r: Vector<i32, N>)
        ensures
            ints(r@) == sub_seq(splat(self.to_int(), N as nat), ints(rhs@)),
    {
        let s = Vector::<i32, N>::splat(*self);
        proof {
            assert(ints(s@) =~= splat(self.to_int(), N as nat));
        }
        let r = sub_cw(&s, rhs);
        proof {
            lemma_from_ints(r);
        }
        r
    }
}

impl<const N: usize> vstd::std_specs::ops::MulSpecImpl<Vector<i32, N>> for i32 {
    open spec fn obeys_mul_spec() -> bool {
        true
    }

    open spec fn mul_req(self, rhs: Vector<i32, N>) -> bool {
        cw_fits::<i32>(mul_seq(splat(self.to_int(), N as nat), ints(rhs@)))
    }

    open spec fn mul_spec(self, rhs: Vector<i32, N>) -> Vector<i32, N> {
        from_ints(mul_seq(splat(self.to_int(), N as nat), ints(rhs@)))
    }
}

/// `lhs * rhs` for every component of `rhs`.
impl<const N: usize> Mul<Vector<i32, N>> for i32 {
    type Output = Vector<i32, N>;

    fn mul(self, rhs: Vector<i32, N>) -> (r: Vector<i32, N>)
        ensures
            ints(r@) == mul_seq(splat(self.to_int(), N as nat), ints(rhs@)),
    {
        let s = Vector::<i32, N>::splat(self);
        proof {
            assert(ints(s@) =~= splat(self.to_int(), N as nat));
        }
        let r = mul_cw(&s, &rhs);
        proof {
            lemma_from_ints(r);
        }
        r
    }
}

impl<'a, const N: usize> vstd::std_specs::ops::MulSpecImpl<&'a Vector<i32, N>> for &'a i32 {
    open spec fn obeys_mul_spec() -> bool {
        true
    }

    open spec fn mul_req(self, rhs: &'a Vector<i32, N>) -> bool {
        cw_fits::<i32>(mul_seq(splat(self.to_int(), N as nat), ints(rhs@)))
    }

    open spec fn mul_spec(self, rhs: &'a Vector<i32, N>) -> Vector<i32, N> {
        from_ints(mul_seq(splat(self.to_int(), N as nat), ints(rhs@)))
    }
}

/// `lhs * rhs` for every component of `rhs`.
impl<'a, const N: usize> Mul<&'a Vector<i32, N>> for &'a i32 {
    type Output = Vector<i32, N>;

    fn mul(self, rhs: &'a Vector<i32, N>) -> (r: Vector<i32, N>)
        ensures
            ints(r@) == mul_seq(splat(self.to_int(), N as nat), ints(rhs@)),
    {
        let s = Vector::<i32, N>::splat(*self);
        proof {
            assert(ints(s@) =~= splat(self.to_int(), N as nat));
        }
        let r = mul_cw(&s, rhs);
        proof {
            lemma_from_ints(r);
        }
        r
    }
}

impl<const N: usize> vstd::std_specs::ops::DivSpecImpl<Vector<i32, N>> for i32 {
    open spec fn obeys_div_spec() -> bool {
        true
    }

    open spec fn div_req(self, rhs: Vector<i32, N>) -> bool {
        all_nonzero(ints(rhs@)) && cw_fits::<i32>(div_seq(splat(self.to_int(), N as nat), ints(rhs@)))
    }

    open spec fn div_spec(self, rhs: Vector<i32, N>) -> Vector<i32, N> {
        from_ints(div_seq(splat(self.to_int(), N as nat), ints(rhs@)))
    }
}

/// `lhs / rhs` for every component of `rhs`.
impl<const N: usize> Div<Vector<i32, N>> for i32 {
    type Output = Vector<i32, N>;

    fn div(self, rhs: Vector<i32, N>) -> (r: Vector<i32, N>)
        ensures
            ints(r@) == div_seq(splat(self.to_int(), N as nat), ints(rhs@)),
    {
        let s = Vector::<i32, N>::splat(self);
        proof {
            assert(ints(s@) =~= splat(self.to_int(), N as nat));
        }
        let r = div_cw(&s, &rhs);
        proof {
            lemma_from_ints(r);
        }
        r
    }
}

impl<'a, const N: usize> vstd::std_specs::ops::DivSpecImpl<&'a Vector<i32, N>> for &'a i32 {
    open spec fn obeys_div_spec() -> bool {
        true
    }

    open spec fn div_req(self, rhs: &'a Vector<i32, N>) -> bool {
        all_nonzero(ints(rhs@)) && cw_fits::<i32>(div_seq(splat(self.to_int(), N as nat), ints(rhs@)))
    }

    open spec fn div_spec(self, rhs: &'a Vector<i32, N>) -> Vector<i32, N> {
        from_ints(div_seq(splat(self.to_int(), N as nat), ints(rhs@)))
    }
}

/// `lhs / rhs` for every component of `rhs`.
impl<'a, const N: usize> Div<&'a Vector<i32, N>> for &'a i32 {
    type Output = Vector<i32, N>;

    fn div(self, rhs: &'a Vector<i32, N>) -> (r: Vector<i32, N>)
        ensures
            ints(r@) == div_seq(splat(self.to_int(), N as nat), ints(rhs@)),
    {
        let s = Vector::<i32, N>::splat(*self);
        proof {
            assert(ints(s@) =~= splat(self.to_int(), N as nat));
        }
        let r = div_cw(&s, rhs);
        proof {
            lemma_from_ints(r);
        }
        r
    }
}

impl<const N: usize> vstd::std_specs::ops::AddSpecImpl<Vector<i8, N>> for i8 {
    open spec fn obeys_add_spec() -> bool {
        true
    }

    open spec fn add_req(self, rhs: Vector<i8, N>) -> bool {
        cw_fits::<i8>(add_seq(splat(self.to_int(), N as nat), ints(rhs@)))
    }

    open spec fn add_spec(self, rhs: Vector<i8, N>) -> Vector<i8, N> {
        from_ints(add_seq(splat(self.to_int(), N as nat), ints(rhs@)))
    }
}

/// `lhs + rhs` for every component of `rhs`.
impl<const N: usize> Add<Vector<i8, N>> for i8 {
    type Output = Vector<i8, N>;

    fn add(self, rhs: Vector<i8, N>) -> (r: Vector<i8, N>)
        ensures
            ints(r@) == add_seq(splat(self.to_int(), N as nat), ints(rhs@)),
    {
        let s = Vector::<i8, N>::splat(self);
        proof {
            assert(ints(s@) =~= splat(self.to_int(), N as nat));
        }
        let r = add_cw(&s, &rhs);
        proof {
            lemma_from_ints(r);
        }
        r
    }
}

impl<'a, const N: usize> vstd::std_specs::ops::AddSpecImpl<&'a Vector<i8, N>> for &'a i8 {
    open spec fn obeys_add_spec() -> bool {
        true
    }

    open spec fn add_req(self, rhs: &'a Vector<i8, N>) -> bool {
        cw_fits::<i8>(add_seq(splat(self.to_int(), N as nat), ints(rhs@)))
    }

    open spec fn add_spec(self, rhs: &'a Vector<i8, N>) -> Vector<i8, N> {
        from_ints(add_seq(splat(self.to_int(), N as nat), ints(rhs@)))
    }
}

/// `lhs + rhs` for every component of `rhs`.
impl<'a, const N: usize> Add<&'a Vector<i8, N>> for &'a i8 {
    type Output = Vector<i8, N>;

    fn add(self, rhs: &'a Vector<i8, N>) -> (r: Vector<i8, N>)
        ensures
            ints(r@) == add_seq(splat(self.to_int(), N as nat), ints(rhs@)),
    {
        let s = Vector::<i8, N>::splat(*self);
        proof {
            assert(ints(s@) =~= splat(self.to_int(), N as nat));
        }
        let r = add_cw(&s, rhs);
        proof {
            lemma_from_ints(r);
        }
        r
    }
}

impl<const N: usize> vstd::std_specs::ops::SubSpecImpl<Vector<i8, N>> for i8 {
    open spec fn obeys_sub_spec() -> bool {
        true
    }

    open spec fn sub_req(self, rhs: Vector<i8, N>) -> bool {
        cw_fits::<i8>(sub_seq(splat(self.to_int(), N as nat), ints(rhs@)))
    }

    open spec fn sub_spec(self, rhs: Vector<i8, N>) -> Vector<i8, N> {
        from_ints(sub_seq(splat(self.to_int(), N as nat), ints(rhs@)))
    }
}

/// `lhs - rhs` for every component of `rhs`.
impl<const N: usize> Sub<Vector<i8, N>> for i8 {
    type Output = Vector<i8, N>;

    fn sub(self, rhs: Vector<i8, N>) -> (r: Vector<i8, N>)
        ensures
            ints(r@) == sub_seq(splat(self.to_int(), N as nat), ints(rhs@)),
    {
        let s = Vector::<i8, N>::splat(self);
        proof {
            assert(ints(s@) =~= splat(self.to_int(), N as nat));
        }
        let r = sub_cw(&s, &rhs);
        proof {
            lemma_from_ints(r);
        }
        r
    }
}

impl<'a, const N: usize> vstd::std_specs::ops::SubSpecImpl<&'a Vector<i8, N>> for &'a i8 {
    open spec fn obeys_sub_spec() -> bool {
        true
    }

    open spec fn sub_req(self, rhs: &'a Vector<i8, N>) -> bool {
        cw_fits::<i8>(sub_seq(splat(self.to_int(), N as nat), ints(rhs@)))
    }

    open spec fn sub_spec(self, rhs: &'a Vector<i8, N>) -> Vector<i8, N> {
        from_ints(sub_seq(splat(self.to_int(), N as nat), ints(rhs@)))
    }
}

/// `lhs - rhs` for every component of `rhs`.
impl<'a, const N: usize> Sub<&'a Vector<i8, N>> for &'a i8 {
    type Output = Vector<i8, N>;

    fn sub(self, rhs: &'a Vector<i8, N>) -> (r: Vector<i8, N>)
        ensures
            ints(r@) == sub_seq(splat(self.to_int(), N as nat), ints(rhs@)),
    {
        let s = Vector::<i8, N>::splat(*self);
        proof {
            assert(ints(s@) =~= splat(self.to_int(), N as nat));
        }
        let r = sub_cw(&s, rhs);
        proof {
            lemma_from_ints(r);
        }
        r
    }
}

impl<const N: usize> vstd::std_specs::ops::MulSpecImpl<Vector<i8, N>> for i8 {
    open spec fn obeys_mul_spec() -> bool {
        true
    }

    open spec fn mul_req(self, rhs: Vector<i8, N>) -> bool {
        cw_fits::<i8>(mul_seq(splat(self.to_int(), N as nat), ints(rhs@)))
    }

    open spec fn mul_spec(self, rhs: Vector<i8, N>) -> Vector<i8, N> {
        from_ints(mul_seq(splat(self.to_int(), N as nat), ints(rhs@)))
    }
}

/// `lhs * rhs` for every component of `rhs`.
impl<const N: usize> Mul<Vector<i8, N>> for i8 {
    type Output = Vector<i8, N>;

    fn mul(self, rhs: Vector<i8, N>) -> (r: Vector<i8, N>)
        ensures
            ints(r@) == mul_seq(splat(self.to_int(), N as nat), ints(rhs@)),
    {
        let s = Vector::<i8, N>::splat(self);
        proof {
            assert(ints(s@) =~= splat(self.to_int(), N as nat));
        }
        let r = mul_cw(&s, &rhs);
        proof {
            lemma_from_ints(r);
        }
        r
    }
}

impl<'a, const N: usize> vstd::std_specs::ops::MulSpecImpl<&'a Vector<i8, N>> for &'a i8 {
    open spec fn obeys_mul_spec() -> bool {
        true
    }

    open spec fn mul_req(self, rhs: &'a Vector<i8, N>) -> bool {
        cw_fits::<i8>(mul_seq(splat(self.to_int(), N as nat), ints(rhs@)))
    }

    open spec fn mul_spec(self, rhs: &'a Vector<i8, N>) -> Vector<i8, N> {
        from_ints(mul_seq(splat(self.to_int(), N as nat), ints(rhs@)))
    }
}

/// `lhs * rhs` for every component of `rhs`.
impl<'a, const N: usize> Mul<&'a Vector<i8, N>> for &'a i8 {
    type Output = Vector<i8, N>;

    fn mul(self, rhs: &'a Vector<i8, N>) -> (r: Vector<i8, N>)
        ensures
            ints(r@) == mul_seq(splat(self.to_int(), N as nat), ints(rhs@)),
    {
        let s = Vector::<i8, N>::splat(*self);
        proof {
            assert(ints(s@) =~= splat(self.to_int(), N as nat));
        }
        let r = mul_cw(&s, rhs);
        proof {
            lemma_from_ints(r);
        }
        r
    }
}

impl<const N: usize> vstd::std_specs::ops::DivSpecImpl<Vector<i8, N>> for i8 {
    open spec fn obeys_div_spec() -> bool {
        true
    }

    open spec fn div_req(self, rhs: Vector<i8, N>) -> bool {
        all_nonzero(ints(rhs@)) && cw_fits::<i8>(div_seq(splat(self.to_int(), N as nat), ints(rhs@)))
    }

    open spec fn div_spec(self, rhs: Vector<i8, N>) -> Vector<i8, N> {
        from_ints(div_seq(splat(self.to_int(), N as nat), ints(rhs@)))
    }
}

/// `lhs / rhs` for every component of `rhs`.
impl<const N: usize> Div<Vector<i8, N>> for i8 {
    type Output = Vector<i8, N>;

    fn div(self, rhs: Vector<i8, N>) -> (r: Vector<i8, N>)
        ensures
            ints(r@) == div_seq(splat(self.to_int(), N as nat), ints(rhs@)),
    {
        let s = Vector::<i8, N>::splat(self);
        proof {
            assert(ints(s@) =~= splat(self.to_int(), N as nat));
        }
        let r = div_cw(&s, &rhs);
        proof {
            lemma_from_ints(r);
        }
        r
    }
}

impl<'a, const N: usize> vstd::std_specs::ops::DivSpecImpl<&'a Vector<i8, N>> for &'a i8 {
    open spec fn obeys_div_spec() -> bool {
        true
    }

    open spec fn div_req(self, rhs: &'a Vector<i8, N>) -> bool {
        all_nonzero(ints(rhs@)) && cw_fits::<i8>(div_seq(splat(self.to_int(), N as nat), ints(rhs@)))
    }

    open spec fn div_spec(self, rhs: &'a Vector<i8, N>) -> Vector<i8, N> {
        from_ints(div_seq(splat(self.to_int(), N as nat), ints(rhs@)))
    }
}

/// `lhs / rhs` for every component of `rhs`.
impl<'a, const N: usize> Div<&'a Vector<i8, N>> for &'a i8 {
    type Output = Vector<i8, N>;

    fn div(self, rhs: &'a Vector<i8, N>) -> (r: Vector<i8, N>)
        ensures
            ints(r@) == div_seq(splat(self.to_int(), N as nat), ints(rhs@)),
    {
        let s = Vector::<i8, N>::splat(*self);
        proof {
            assert(ints(s@) =~= splat(self.to_int(), N as nat));
        }
        let r = div_cw(&s, rhs);
        proof {
            lemma_from_ints(r);
        }
        r
    }
}

impl<const N: usize> vstd::std_specs::ops::AddSpecImpl<Vector<i16, N>> for i16 {
    open spec fn obeys_add_spec() -> bool {
        true
    }

    open spec fn add_req(self, rhs: Vector<i16, N>) -> bool {
        cw_fits::<i16>(add_seq(splat(self.to_int(), N as nat), ints(rhs@)))
    }

    open spec fn add_spec(self, rhs: Vector<i16, N>) -> Vector<i16, N> {
        from_ints(add_seq(splat(self.to_int(), N as nat), ints(rhs@)))
    }
}

/// `lhs + rhs` for every component of `rhs`.
impl<const N: usize> Add<Vector<i16, N>> for i16 {
    type Output = Vector<i16, N>;

    fn add(self, rhs: Vector<i16, N>) -> (r: Vector<i16, N>)
        ensures
            ints(r@) == add_seq(splat(self.to_int(), N as nat), ints(rhs@)),
    {
        let s = Vector::<i16, N>::splat(self);
        proof {
            assert(ints(s@) =~= splat(self.to_int(), N as nat));
        }
        let r = add_cw(&s, &rhs);
        proof {
            lemma_from_ints(r);
        }
        r
    }
}

impl<'a, const N: usize> vstd::std_specs::ops::AddSpecImpl<&'a Vector<i16, N>> for &'a i16 {
    open spec fn obeys_add_spec() -> bool {
        true
    }

    open spec fn add_req(self, rhs: &'a Vector<i16, N>) -> bool {
        cw_fits::<i16>(add_seq(splat(self.to_int(), N as nat), ints(rhs@)))
    }

    open spec fn add_spec(self, rhs: &'a Vector<i16, N>) -> Vector<i16, N> {
        from_ints(add_seq(splat(self.to_int(), N as nat), ints(rhs@)))
    }
}

/// `lhs + rhs` for every component of `rhs`.
impl<'a, const N: usize> Add<&'a Vector<i16, N>> for &'a i16 {
    type Output = Vector<i16, N>;

    fn add(self, rhs: &'a Vector<i16, N>) -> (r: Vector<i16, N>)
        ensures
            ints(r@) == add_seq(splat(self.to_int(), N as nat), ints(rhs@)),
    {
        let s = Vector::<i16, N>::splat(*self);
        proof {
            assert(ints(s@) =~= splat(self.to_int(), N as nat));
        }
        let r = add_cw(&s, rhs);
        proof {
            lemma_from_ints(r);
        }
        r
    }
}

impl<const N: usize> vstd::std_specs::ops::SubSpecImpl<Vector<i16, N>> for i16 {
    open spec fn obeys_sub_spec() -> bool {
        true
    }

    open spec fn sub_req(self, rhs: Vector<i16, N>) -> bool {
        cw_fits::<i16>(sub_seq(splat(self.to_int(), N as nat), ints(rhs@)))
    }

    open spec fn sub_spec(self, rhs: Vector<i16, N>) -> Vector<i16, N> {
        from_ints(sub_seq(splat(self.to_int(), N as nat), ints(rhs@)))
    }
}

/// `lhs - rhs` for every component of `rhs`.
impl<const N: usize> Sub<Vector<i16, N>> for i16 {
    type Output = Vector<i16, N>;

    fn sub(self, rhs: Vector<i16, N>) -> (r: Vector<i16, N>)
        ensures
            ints(r@) == sub_seq(splat(self.to_int(), N as nat), ints(rhs@)),
    {
        let s = Vector::<i16, N>::splat(self);
        proof {
            assert(ints(s@) =~= splat(self.to_int(), N as nat));
        }
        let r = sub_cw(&s, &rhs);
        proof {
            lemma_from_ints(r);
        }
        r
    }
}

impl<'a, const N: usize> vstd::std_specs::ops::SubSpecImpl<&'a Vector<i16, N>> for &'a i16 {
    open spec fn obeys_sub_spec() -> bool {
        true
    }

    open spec fn sub_req(self, rhs: &'a Vector<i16, N>) -> bool {
        cw_fits::<i16>(sub_seq(splat(self.to_int(), N as nat), ints(rhs@)))
    }

    open spec fn sub_spec(self, rhs: &'a Vector<i16, N>) -> Vector<i16, N> {
        from_ints(sub_seq(splat(self.to_int(), N as nat), ints(rhs@)))
    }
}

/// `lhs - rhs` for every component of `rhs`.
impl<'a, const N: usize> Sub<&'a Vector<i16, N>> for &'a i16 {
    type Output = Vector<i16, N>;

    fn sub(self, rhs: &'a Vector<i16, N>) -> (r: Vector<i16, N>)
        ensures
            ints(r@) == sub_seq(splat(self.to_int(), N as nat), ints(rhs@)),
    {
        let s = Vector::<i16, N>::splat(*self);
        proof {
            assert(ints(s@) =~= splat(self.to_int(), N as nat));
        }
        let r = sub_cw(&s, rhs);
        proof {
            lemma_from_ints(r);
        }
        r
    }
}

impl<const N: usize> vstd::std_specs::ops::MulSpecImpl<Vector<i16, N>> for i16 {
    open spec fn obeys_mul_spec() -> bool {
        true
    }

    open spec fn mul_req(self, rhs: Vector<i16, N>) -> bool {
        cw_fits::<i16>(mul_seq(splat(self.to_int(), N as nat), ints(rhs@)))
    }

    open spec fn mul_spec(self, rhs: Vector<i16, N>) -> Vector<i16, N> {
        from_ints(mul_seq(splat(self.to_int(), N as nat), ints(rhs@)))
    }
}

/// `lhs * rhs` for every component of `rhs`.
impl<const N: usize> Mul<Vector<i16, N>> for i16 {
    type Output = Vector<i16, N>;

    fn mul(self, rhs: Vector<i16, N>) -> (r: Vector<i16, N>)
        ensures
            ints(r@) == mul_seq(splat(self.to_int(), N as nat), ints(rhs@)),
    {
        let s = Vector::<i16, N>::splat(self);
        proof {
            assert(ints(s@) =~= splat(self.to_int(), N as nat));
        }
        let r = mul_cw(&s, &rhs);
        proof {
            lemma_from_ints(r);
        }
        r
    }
}

impl<'a, const N: usize> vstd::std_specs::ops::MulSpecImpl<&'a Vector<i16, N>> for &'a i16 {
    open spec fn obeys_mul_spec() -> bool {
        true
    }

    open spec fn mul_req(self, rhs: &'a Vector<i16, N>) -> bool {
        cw_fits::<i16>(mul_seq(splat(self.to_int(), N as nat), ints(rhs@)))
    }

    open spec fn mul_spec(self, rhs: &'a Vector<i16, N>) -> Vector<i16, N> {
        from_ints(mul_seq(splat(self.to_int(), N as nat), ints(rhs@)))
    }
}

/// `lhs * rhs` for every component of `rhs`.
impl<'a, const N: usize> Mul<&'a Vector<i16, N>> for &'a i16 {
    type Output = Vector<i16, N>;

    fn mul(self, rhs: &'a Vector<i16, N>) -> (r: Vector<i16, N>)
        ensures
            ints(r@) == mul_seq(splat(self.to_int(), N as nat), ints(rhs@)),
    {
        let s = Vector::<i16, N>::splat(*self);
        proof {
            assert(ints(s@) =~= splat(self.to_int(), N as nat));
        }
        let r = mul_cw(&s, rhs);
        proof {
            lemma_from_ints(r);
        }
        r
    }
}

impl<const N: usize> vstd::std_specs::ops::DivSpecImpl<Vector<i16, N>> for i16 {
    open spec fn obeys_div_spec() -> bool {
        true
    }

    open spec fn div_req(self, rhs: Vector<i16, N>) -> bool {
        all_nonzero(ints(rhs@)) && cw_fits::<i16>(div_seq(splat(self.to_int(), N as nat), ints(rhs@)))
    }

    open spec fn div_spec(self, rhs: Vector<i16, N>) -> Vector<i16, N> {
        from_ints(div_seq(splat(self.to_int(), N as nat), ints(rhs@)))
    }
}

/// `lhs / rhs` for every component of `rhs`.
impl<const N: usize> Div<Vector<i16, N>> for i16 {
    type Output = Vector<i16, N>;

    fn div(self, rhs: Vector<i16, N>) -> (r: Vector<i16, N>)
        ensures
            ints(r@) == div_seq(splat(self.to_int(), N as nat), ints(rhs@)),
    {
        let s = Vector::<i16, N>::splat(self);
        proof {
            assert(ints(s@) =~= splat(self.to_int(), N as nat));
        }
        let r = div_cw(&s, &rhs);
        proof {
            lemma_from_ints(r);
        }
        r
    }
}

impl<'a, const N: usize> vstd::std_specs::ops::DivSpecImpl<&'a Vector<i16, N>> for &'a i16 {
    open spec fn obeys_div_spec() -> bool {
        true
    }

    open spec fn div_req(self, rhs: &'a Vector<i16, N>) -> bool {
        all_nonzero(ints(rhs@)) && cw_fits::<i16>(div_seq(splat(self.to_int(), N as nat), ints(rhs@)))
    }

    open spec fn div_spec(self, rhs: &'a Vector<i16, N>) -> Vector<i16, N> {
        from_ints(div_seq(splat(self.to_int(), N as nat), ints(rhs@)))
    }
}

/// `lhs / rhs` for every component of `rhs`.
impl<'a, const N: usize> Div<&'a Vector<i16, N>> for &'a i16 {
    type Output = Vector<i16, N>;

    fn div(self, rhs: &'a Vector<i16, N>) -> (r: Vector<i16, N>)
        ensures
            ints(r@) == div_seq(splat(self.to_int(), N as nat), ints(rhs@)),
    {
        let s = Vector::<i16, N>::splat(*self);
        proof {
            assert(ints(s@) =~= splat(self.to_int(), N as nat));
        }
        let r = div_cw(&s, rhs);
        proof {
            lemma_from_ints(r);
        }
        r
    }
}

impl<const N: usize> vstd::std_specs::ops::AddSpecImpl<Vector<i128, N>> for i128 {
    open spec fn obeys_add_spec() -> bool {
        true
    }

    open spec fn add_req(self, rhs: Vector<i128, N>) -> bool {
        cw_fits::<i128>(add_seq(splat(self.to_int(), N as nat), ints(rhs@)))
    }

    open spec fn add_spec(self, rhs: Vector<i128, N>) -> Vector<i128, N> {
        from_ints(add_seq(splat(self.to_int(), N as nat), ints(rhs@)))
    }
}

/// `lhs + rhs` for every component of `rhs`.
impl<const N: usize> Add<Vector<i128, N>> for i128 {
    type Output = Vector<i128, N>;

    fn add(self, rhs: Vector<i128, N>) -> (r: Vector<i128, N>)
        ensures
            ints(r@) == add_seq(splat(self.to_int(), N as nat), ints(rhs@)),
    {
        let s = Vector::<i128, N>::splat(self);
        proof {
            assert(ints(s@) =~= splat(self.to_int(), N as nat));
        }
        let r = add_cw(&s, &rhs);
        proof {
            lemma_from_ints(r);
        }
        r
    }
}

impl<'a, const N: usize> vstd::std_specs::ops::AddSpecImpl<&'a Vector<i128, N>> for &'a i128 {
    open spec fn obeys_add_spec() -> bool {
        true
    }

    open spec fn add_req(self, rhs: &'a Vector<i128, N>) -> bool {
        cw_fits::<i128>(add_seq(splat(self.to_int(), N as nat), ints(rhs@)))
    }

    open spec fn add_spec(self, rhs: &'a Vector<i128, N>) -> Vector<i128, N> {
        from_ints(add_seq(splat(self.to_int(), N as nat), ints(rhs@)))
    }
}

/// `lhs + rhs` for every component of `rhs`.
impl<'a, const N: usize> Add<&'a Vector<i128, N>> for &'a i128 {
    type Output = Vector<i128, N>;

    fn add(self, rhs: &'a Vector<i128, N>) -> (r: Vector<i128, N>)
        ensures
            ints(r@) == add_seq(splat(self.to_int(), N as nat), ints(rhs@)),
    {
        let s = Vector::<i128, N>::splat(*self);
        proof {
            assert(ints(s@) =~= splat(self.to_int(), N as nat));
        }
        let r = add_cw(&s, rhs);
        proof {
            lemma_from_ints(r);
        }
        r
    }
}

impl<const N: usize> vstd::std_specs::ops::SubSpecImpl<Vector<i128, N>> for i128 {
    open spec fn obeys_sub_spec() -> bool {
        true
    }

    open spec fn sub_req(self, rhs: Vector<i128, N>) -> bool {
        cw_fits::<i128>(sub_seq(splat(self.to_int(), N as nat), ints(rhs@)))
    }

    open spec fn sub_spec(self, rhs: Vector<i128, N>) -> Vector<i128, N> {
        from_ints(sub_seq(splat(self.to_int(), N as nat), ints(rhs@)))
    }
}

/// `lhs - rhs` for every component of `rhs`.
impl<const N: usize> Sub<Vector<i128, N>> for i128 {
    type Output = Vector<i128, N>;

    fn sub(self, rhs: Vector<i128, N>) -> (r: Vector<i128, N>)
        ensures
            ints(r@) == sub_seq(splat(self.to_int(), N as nat), ints(rhs@)),
    {
        let s = Vector::<i128, N>::splat(self);
        proof {
            assert(ints(s@) =~= splat(self.to_int(), N as nat));
        }
        let r = sub_cw(&s, &rhs);
        proof {
            lemma_from_ints(r);
        }
        r
    }
}

impl<'a, const N: usize> vstd::std_specs::ops::SubSpecImpl<&'a Vector<i128, N>> for &'a i128 {
    open spec fn obeys_sub_spec() -> bool {
        true
    }

    open spec fn sub_req(self, rhs: &'a Vector<i128, N>) -> bool {
        cw_fits::<i128>(sub_seq(splat(self.to_int(), N as nat), ints(rhs@)))
    }

    open spec fn sub_spec(self, rhs: &'a Vector<i128, N>) -> Vector<i128, N> {
        from_ints(sub_seq(splat(self.to_int(), N as nat), ints(rhs@)))
    }
}

/// `lhs - rhs` for every component of `rhs`.
impl<'a, const N: usize> Sub<&'a Vector<i128, N>> for &'a i128 {
    type Output = Vector<i128, N>;

    fn sub(self, rhs: &'a Vector<i128, N>) -> (r: Vector<i128, N>)
        ensures
            ints(r@) == sub_seq(splat(self.to_int(), N as nat), ints(rhs@)),
    {
        let s = Vector::<i128, N>::splat(*self);
        proof {
            assert(ints(s@) =~= splat(self.to_int(), N as nat));
        }
        let r = sub_cw(&s, rhs);
        proof {
            lemma_from_ints(r);
        }
        r
    }
}

impl<const N: usize> vstd::std_specs::ops::MulSpecImpl<Vector<i128, N>> for i128 {
    open spec fn obeys_mul_spec() -> bool {
        true
    }

    open spec fn mul_req(self, rhs: Vector<i128, N>) -> bool {
        cw_fits::<i128>(mul_seq(splat(self.to_int(), N as nat), ints(rhs@)))
    }

    open spec fn mul_spec(self, rhs: Vector<i128, N>) -> Vector<i128, N> {
        from_ints(mul_seq(splat(self.to_int(), N as nat), ints(rhs@)))
    }
}

/// `lhs * rhs` for every component of `rhs`.
impl<const N: usize> Mul<Vector<i128, N>> for i128 {
    type Output = Vector<i128, N>;

    fn mul(self, rhs: Vector<i128, N>) -> (r: Vector<i128, N>)
        ensures
            ints(r@) == mul_seq(splat(self.to_int(), N as nat), ints(rhs@)),
    {
        let s = Vector::<i128, N>::splat(self);
        proof {
            assert(ints(s@) =~= splat(self.to_int(), N as nat));
        }
        let r = mul_cw(&s, &rhs);
        proof {
            lemma_from_ints(r);
        }
        r
    }
}

impl<'a, const N: usize> vstd::std_specs::ops::MulSpecImpl<&'a Vector<i128, N>> for &'a i128 {
    open spec fn obeys_mul_spec() -> bool {
        true
    }

    open spec fn mul_req(self, rhs: &'a Vector<i128, N>) -> bool {
        cw_fits::<i128>(mul_seq(splat(self.to_int(), N as nat), ints(rhs@)))
    }

    open spec fn mul_spec(self, rhs: &'a Vector<i128, N>) -> Vector<i128, N> {
        from_ints(mul_seq(splat(self.to_int(), N as nat), ints(rhs@)))
    }
}

/// `lhs * rhs` for every component of `rhs`.
impl<'a, const N: usize> Mul<&'a Vector<i128, N>> for &'a i128 {
    type Output = Vector<i128, N>;

    fn mul(self, rhs: &'a Vector<i128, N>) -> (r: Vector<i128, N>)
        ensures
            ints(r@) == mul_seq(splat(self.to_int(), N as nat), ints(rhs@)),
    {
        let s = Vector::<i128, N>::splat(*self);
        proof {
            assert(ints(s@) =~= splat(self.to_int(), N as nat));
        }
        let r = mul_cw(&s, rhs);
        proof {
            lemma_from_ints(r);
        }
        r
    }
}

impl<const N: usize> vstd::std_specs::ops::DivSpecImpl<Vector<i128, N>> for i128 {
    open spec fn obeys_div_spec() -> bool {
        true
    }

    open spec fn div_req(self, rhs: Vector<i128, N>) -> bool {
        all_nonzero(ints(rhs@)) && cw_fits::<i128>(div_seq(splat(self.to_int(), N as nat), ints(rhs@)))
    }

    open spec fn div_spec(self, rhs: Vector<i128, N>) -> Vector<i128, N> {
        from_ints(div_seq(splat(self.to_int(), N as nat), ints(rhs@)))
    }
}

/// `lhs / rhs` for every component of `rhs`.
impl<const N: usize> Div<Vector<i128, N>> for i128 {
    type Output = Vector<i128, N>;

    fn div(self, rhs: Vector<i128, N>) -> (r: Vector<i128, N>)
        ensures
            ints(r@) == div_seq(splat(self.to_int(), N as nat), ints(rhs@)),
    {
        let s = Vector::<i128, N>::splat(self);
        proof {
            assert(ints(s@) =~= splat(self.to_int(), N as nat));
        }
        let r = div_cw(&s, &rhs);
        proof {
            lemma_from_ints(r);
        }
        r
    }
}

impl<'a, const N: usize> vstd::std_specs::ops::DivSpecImpl<&'a Vector<i128, N>> for &'a i128 {
    open spec fn obeys_div_spec() -> bool {
        true
    }

    open spec fn div_req(self, rhs: &'a Vector<i128, N>) -> bool {
        all_nonzero(ints(rhs@)) && cw_fits::<i128>(div_seq(splat(self.to_int(), N as nat), ints(rhs@)))
    }

    open spec fn div_spec(self, rhs: &'a Vector<i128, N>) -> Vector<i128, N> {
        from_ints(div_seq(splat(self.to_int(), N as nat), ints(rhs@)))
    }
}

/// `lhs / rhs` for every component of `rhs`.
impl<'a, const N: usize> Div<&'a Vector<i128, N>> for &'a i128 {
    type Output = Vector<i128, N>;

    fn div(self, rhs: &'a Vector<i128, N>) -> (r: Vector<i128, N>)
        ensures
            ints(r@) == div_seq(splat(self.to_int(), N as nat), ints(rhs@)),
    {
        let s = Vector::<i128, N>::splat(*self);
        proof {
            assert(ints(s@) =~= splat(self.to_int(), N as nat));
        }
        let r = div_cw(&s, rhs);
        proof {
            lemma_from_ints(r);
        }
        r
    }
}

impl<const N: usize> vstd::std_specs::ops::AddSpecImpl<Vector<isize, N>> for isize {
    open spec fn obeys_add_spec() -> bool {
        true
    }

    open spec fn add_req(self, rhs: Vector<isize, N>) -> bool {
        cw_fits::<isize>(add_seq(splat(self.to_int(), N as nat), ints(rhs@)))
    }

    open spec fn add_spec(self, rhs: Vector<isize, N>) -> Vector<isize, N> {
        from_ints(add_seq(splat(self.to_int(), N as nat), ints(rhs@)))
    }
}

/// `lhs + rhs` for every component of `rhs`.
impl<const N: usize> Add<Vector<isize, N>> for isize {
    type Output = Vector<isize, N>;

    fn add(self, rhs: Vector<isize, N>) -> (r: Vector<isize, N>)
        ensures
            ints(r@) == add_seq(splat(self.to_int(), N as nat), ints(rhs@)),
    {
        let s = Vector::<isize, N>::splat(self);
        proof {
            assert(ints(s@) =~= splat(self.to_int(), N as nat));
        }
        let r = add_cw(&s, &rhs);
        proof {
            lemma_from_ints(r);
        }
        r
    }
}

impl<'a, const N: usize> vstd::std_specs::ops::AddSpecImpl<&'a Vector<isize, N>> for &'a isize {
    open spec fn obeys_add_spec() -> bool {
        true
    }

    open spec fn add_req(self, rhs: &'a Vector<isize, N>) -> bool {
        cw_fits::<isize>(add_seq(splat(self.to_int(), N as nat), ints(rhs@)))
    }

    open spec fn add_spec(self, rhs: &'a Vector<isize, N>) -> Vector<isize, N> {
        from_ints(add_seq(splat(self.to_int(), N as nat), ints(rhs@)))
    }
}

/// `lhs + rhs` for every component of `rhs`.
impl<'a, const N: usize> Add<&'a Vector<isize, N>> for &'a isize {
    type Output = Vector<isize, N>;

    fn add(self, rhs: &'a Vector<isize, N>) -> (r: Vector<isize, N>)
        ensures
            ints(r@) == add_seq(splat(self.to_int(), N as nat), ints(rhs@)),
    {
        let s = Vector::<isize, N>::splat(*self);
        proof {
            assert(ints(s@) =~= splat(self.to_int(), N as nat));
        }
        let r = add_cw(&s, rhs);
        proof {
            lemma_from_ints(r);
        }
        r
    }
}

impl<const N: usize> vstd::std_specs::ops::SubSpecImpl<Vector<isize, N>> for isize {
    open spec fn obeys_sub_spec() -> bool {
        true
    }

    open spec fn sub_req(self, rhs: Vector<isize, N>) -> bool {
        cw_fits::<isize>(sub_seq(splat(self.to_int(), N as nat), ints(rhs@)))
    }

    open spec fn sub_spec(self, rhs: Vector<isize, N>) -> Vector<isize, N> {
        from_ints(sub_seq(splat(self.to_int(), N as nat), ints(rhs@)))
    }
}

/// `lhs - rhs` for every component of `rhs`.
impl<const N: usize> Sub<Vector<isize, N>> for isize {
    type Output = Vector<isize, N>;

    fn sub(self, rhs: Vector<isize, N>) -> (r: Vector<isize, N>)
        ensures
            ints(r@) == sub_seq(splat(self.to_int(), N as nat), ints(rhs@)),
    {
        let s = Vector::<isize, N>::splat(self);
        proof {
            assert(ints(s@) =~= splat(self.to_int(), N as nat));
        }
        let r = sub_cw(&s, &rhs);
        proof {
            lemma_from_ints(r);
        }
        r
    }
}

impl<'a, const N: usize> vstd::std_specs::ops::SubSpecImpl<&'a Vector<isize, N>> for &'a isize {
    open spec fn obeys_sub_spec() -> bool {
        true
    }

    open spec fn sub_req(self, rhs: &'a Vector<isize, N>) -> bool {
        cw_fits::<isize>(sub_seq(splat(self.to_int(), N as nat), ints(rhs@)))
    }

    open spec fn sub_spec(self, rhs: &'a Vector<isize, N>) -> Vector<isize, N> {
        from_ints(sub_seq(splat(self.to_int(), N as nat), ints(rhs@)))
    }
}

/// `lhs - rhs` for every component of `rhs`.
impl<'a, const N: usize> Sub<&'a Vector<isize, N>> for &'a isize {
    type Output = Vector<isize, N>;

    fn sub(self, rhs: &'a Vector<isize, N>) -> (r: Vector<isize, N>)
        ensures
            ints(r@) == sub_seq(splat(self.to_int(), N as nat), ints(rhs@)),
    {
        let s = Vector::<isize, N>::splat(*self);
        proof {
            assert(ints(s@) =~= splat(self.to_int(), N as nat));
        }
        let r = sub_cw(&s, rhs);
        proof {
            lemma_from_ints(r);
        }
        r
    }
}

impl<const N: usize> vstd::std_specs::ops::MulSpecImpl<Vector<isize, N>> for isize {
    open spec fn obeys_mul_spec() -> bool {
        true
    }

    open spec fn mul_req(self, rhs: Vector<isize, N>) -> bool {
        cw_fits::<isize>(mul_seq(splat(self.to_int(), N as nat), ints(rhs@)))
    }

    open spec fn mul_spec(self, rhs: Vector<isize, N>) -> Vector<isize, N> {
        from_ints(mul_seq(splat(self.to_int(), N as nat), ints(rhs@)))
    }
}

/// `lhs * rhs` for every component of `rhs`.
impl<const N: usize> Mul<Vector<isize, N>> for isize {
    type Output = Vector<isize, N>;

    fn mul(self, rhs: Vector<isize, N>) -> (r: Vector<isize, N>)
        ensures
            ints(r@) == mul_seq(splat(self.to_int(), N as nat), ints(rhs@)),
    {
        let s = Vector::<isize, N>::splat(self);
        proof {
            assert(ints(s@) =~= splat(self.to_int(), N as nat));
        }
        let r = mul_cw(&s, &rhs);
        proof {
            lemma_from_ints(r);
        }
        r
    }
}

impl<'a, const N: usize> vstd::std_specs::ops::MulSpecImpl<&'a Vector<isize, N>> for &'a isize {
    open spec fn obeys_mul_spec() -> bool {
        true
    }

    open spec fn mul_req(self, rhs: &'a Vector<isize, N>) -> bool {
        cw_fits::<isize>(mul_seq(splat(self.to_int(), N as nat), ints(rhs@)))
    }

    open spec fn mul_spec(self, rhs: &'a Vector<isize, N>) -> Vector<isize, N> {
        from_ints(mul_seq(splat(self.to_int(), N as nat), ints(rhs@)))
    }
}

/// `lhs * rhs` for every component of `rhs`.
impl<'a, const N: usize> Mul<&'a Vector<isize, N>> for &'a isize {
    type Output = Vector<isize, N>;

    fn mul(self, rhs: &'a Vector<isize, N>) -> (r: Vector<isize, N>)
        ensures
            ints(r@) == mul_seq(splat(self.to_int(), N as nat), ints(rhs@)),
    {
        let s = Vector::<isize, N>::splat(*self);
        proof {
            assert(ints(s@) =~= splat(self.to_int(), N as nat));
        }
        let r = mul_cw(&s, rhs);
        proof {
            lemma_from_ints(r);
        }
        r
    }
}

impl<const N: usize> vstd::std_specs::ops::DivSpecImpl<Vector<isize, N>> for isize {
    open spec fn obeys_div_spec() -> bool {
        true
    }

    open spec fn div_req(self, rhs: Vector<isize, N>) -> bool {
        all_nonzero(ints(rhs@)) && cw_fits::<isize>(div_seq(splat(self.to_int(), N as nat), ints(rhs@)))
    }

    open spec fn div_spec(self, rhs: Vector<isize, N>) -> Vector<isize, N> {
        from_ints(div_seq(splat(self.to_int(), N as nat), ints(rhs@)))
    }
}

/// `lhs / rhs` for every component of `rhs`.
impl<const N: usize> Div<Vector<isize, N>> for isize {
    type Output = Vector<isize, N>;

    fn div(self, rhs: Vector<isize, N>) -> (r: Vector<isize, N>)
        ensures
            ints(r@) == div_seq(splat(self.to_int(), N as nat), ints(rhs@)),
    {
        let s = Vector::<isize, N>::splat(self);
        proof {
            assert(ints(s@) =~= splat(self.to_int(), N as nat));
        }
        let r = div_cw(&s, &rhs);
        proof {
            lemma_from_ints(r);
        }
        r
    }
}

impl<'a, const N: usize> vstd::std_specs::ops::DivSpecImpl<&'a Vector<isize, N>> for &'a isize {
    open spec fn obeys_div_spec() -> bool {
        true
    }

    open spec fn div_req(self, rhs: &'a Vector<isize, N>) -> bool {
        all_nonzero(ints(rhs@)) && cw_fits::<isize>(div_seq(splat(self.to_int(), N as nat), ints(rhs@)))
    }

    open spec fn div_spec(self, rhs: &'a Vector<isize, N>) -> Vector<isize, N> {
        from_ints(div_seq(splat(self.to_int(), N as nat), ints(rhs@)))
    }
}

/// `lhs / rhs` for every component of `rhs`.
impl<'a, const N: usize> Div<&'a Vector<isize, N>> for &'a isize {
    type Output = Vector<isize, N>;

    fn div(self, rhs: &'a Vector<isize, N>) -> (r: Vector<isize, N>)
        ensures
            ints(r@) == div_seq(splat(self.to_int(), N as nat), ints(rhs@)),
    {
        let s = Vector::<isize, N>::splat(*self);
        proof {
            assert(ints(s@) =~= splat(self.to_int(), N as nat));
        }
        let r = div_cw(&s, rhs);
        proof {
            lemma_from_ints(r);
        }
        r
    }
}

impl<const N: usize> vstd::std_specs::ops::AddSpecImpl<Vector<u8, N>> for u8 {
    open spec fn obeys_add_spec() -> bool {
        true
    }

    open spec fn add_req(self, rhs: Vector<u8, N>) -> bool {
        cw_fits::<u8>(add_seq(splat(self.to_int(), N as nat), ints(rhs@)))
    }

    open spec fn add_spec(self, rhs: Vector<u8, N>) -> Vector<u8, N> {
        from_ints(add_seq(splat(self.to_int(), N as nat), ints(rhs@)))
    }
}

/// `lhs + rhs` for every component of `rhs`.
impl<const N: usize> Add<Vector<u8, N>> for u8 {
    type Output = Vector<u8, N>;

    fn add(self, rhs: Vector<u8, N>) -> (r: Vector<u8, N>)
        ensures
            ints(r@) == add_seq(splat(self.to_int(), N as nat), ints(rhs@)),
    {
        let s = Vector::<u8, N>::splat(self);
        proof {
            assert(ints(s@) =~= splat(self.to_int(), N as nat));
        }
        let r = add_cw(&s, &rhs);
        proof {
            lemma_from_ints(r);
        }
        r
    }
}

impl<'a, const N: usize> vstd::std_specs::ops::AddSpecImpl<&'a Vector<u8, N>> for &'a u8 {
    open spec fn obeys_add_spec() -> bool {
        true
    }

    open spec fn add_req(self, rhs: &'a Vector<u8, N>) -> bool {
        cw_fits::<u8>(add_seq(splat(self.to_int(), N as nat), ints(rhs@)))
    }

    open spec fn add_spec(self, rhs: &'a Vector<u8, N>) -> Vector<u8, N> {
        from_ints(add_seq(splat(self.to_int(), N as nat), ints(rhs@)))
    }
}

/// `lhs + rhs` for every component of `rhs`.
impl<'a, const N: usize> Add<&'a Vector<u8, N>> for &'a u8 {
    type Output = Vector<u8, N>;

    fn add(self, rhs: &'a Vector<u8, N>) -> (r: Vector<u8, N>)
        ensures
            ints(r@) == add_seq(splat(self.to_int(), N as nat), ints(rhs@)),
    {
        let s = Vector::<u8, N>::splat(*self);
        proof {
            assert(ints(s@) =~= splat(self.to_int(), N as nat));
        }
        let r = add_cw(&s, rhs);
        proof {
            lemma_from_ints(r);
        }
        r
    }
}

impl<const N: usize> vstd::std_specs::ops::SubSpecImpl<Vector<u8, N>> for u8 {
    open spec fn obeys_sub_spec() -> bool {
        true
    }

    open spec fn sub_req(self, rhs: Vector<u8, N>) -> bool {
        cw_fits::<u8>(sub_seq(splat(self.to_int(), N as nat), ints(rhs@)))
    }

    open spec fn sub_spec(self, rhs: Vector<u8, N>) -> Vector<u8, N> {
        from_ints(sub_seq(splat(self.to_int(), N as nat), ints(rhs@)))
    }
}

/// `lhs - rhs` for every component of `rhs`.
impl<const N: usize> Sub<Vector<u8, N>> for u8 {
    type Output = Vector<u8, N>;

    fn sub(self, rhs: Vector<u8, N>) -> (r: Vector<u8, N>)
        ensures
            ints(r@) == sub_seq(splat(self.to_int(), N as nat), ints(rhs@)),
    {
        let s = Vector::<u8, N>::splat(self);
        proof {
            assert(ints(s@) =~= splat(self.to_int(), N as nat));
        }
        let r = sub_cw(&s, &rhs);
        proof {
            lemma_from_ints(r);
        }
        r
    }
}

impl<'a, const N: usize> vstd::std_specs::ops::SubSpecImpl<&'a Vector<u8, N>> for &'a u8 {
    open spec fn obeys_sub_spec() -> bool {
        true
    }

    open spec fn sub_req(self, rhs: &'a Vector<u8, N>) -> bool {
        cw_fits::<u8>(sub_seq(splat(self.to_int(), N as nat), ints(rhs@)))
    }

    open spec fn sub_spec(self, rhs: &'a Vector<u8, N>) -> Vector<u8, N> {
        from_ints(sub_seq(splat(self.to_int(), N as nat), ints(rhs@)))
    }
}

/// `lhs - rhs` for every component of `rhs`.
impl<'a, const N: usize> Sub<&'a Vector<u8, N>> for &'a u8 {
    type Output = Vector<u8, N>;

    fn sub(self, rhs: &'a Vector<u8, N>) -> (r: Vector<u8, N>)
        ensures
            ints(r@) == sub_seq(splat(self.to_int(), N as nat), ints(rhs@)),
    {
        let s = Vector::<u8, N>::splat(*self);
        proof {
            assert(ints(s@) =~= splat(self.to_int(), N as nat));
        }
        let r = sub_cw(&s, rhs);
        proof {
            lemma_from_ints(r);
        }
        r
    }
}

impl<const N: usize> vstd::std_specs::ops::MulSpecImpl<Vector<u8, N>> for u8 {
    open spec fn obeys_mul_spec() -> bool {
        true
    }

    open spec fn mul_req(self, rhs: Vector<u8, N>) -> bool {
        cw_fits::<u8>(mul_seq(splat(self.to_int(), N as nat), ints(rhs@)))
    }

    open spec fn mul_spec(self, rhs: Vector<u8, N>) -> Vector<u8, N> {
        from_ints(mul_seq(splat(self.to_int(), N as nat), ints(rhs@)))
    }
}

/// `lhs * rhs` for every component of `rhs`.
impl<const N: usize> Mul<Vector<u8, N>> for u8 {
    type Output = Vector<u8, N>;

    fn mul(self, rhs: Vector<u8, N>) -> (r: Vector<u8, N>)
        ensures
            ints(r@) == mul_seq(splat(self.to_int(), N as nat), ints(rhs@)),
    {
        let s = Vector::<u8, N>::splat(self);
        proof {
            assert(ints(s@) =~= splat(self.to_int(), N as nat));
        }
        let r = mul_cw(&s, &rhs);
        proof {
            lemma_from_ints(r);
        }
        r
    }
}

impl<'a, const N: usize> vstd::std_specs::ops::MulSpecImpl<&'a Vector<u8, N>> for &'a u8 {
    open spec fn obeys_mul_spec() -> bool {
        true
    }

    open spec fn mul_req(self, rhs: &'a Vector<u8, N>) -> bool {
        cw_fits::<u8>(mul_seq(splat(self.to_int(), N as nat), ints(rhs@)))
    }

    open spec fn mul_spec(self, rhs: &'a Vector<u8, N>) -> Vector<u8, N> {
        from_ints(mul_seq(splat(self.to_int(), N as nat), ints(rhs@)))
    }
}

/// `lhs * rhs` for every component of `rhs`.
impl<'a, const N: usize> Mul<&'a Vector<u8, N>> for &'a u8 {
    type Output = Vector<u8, N>;

    fn mul(self, rhs: &'a Vector<u8, N>) -> (r: Vector<u8, N>)
        ensures
            ints(r@) == mul_seq(splat(self.to_int(), N as nat), ints(rhs@)),
    {
        let s = Vector::<u8, N>::splat(*self);
        proof {
            assert(ints(s@) =~= splat(self.to_int(), N as nat));
        }
        let r = mul_cw(&s, rhs);
        proof {
            lemma_from_ints(r);
        }
        r
    }
}

impl<const N: usize> vstd::std_specs::ops::DivSpecImpl<Vector<u8, N>> for u8 {
    open spec fn obeys_div_spec() -> bool {
        true
    }

    open spec fn div_req(self, rhs: Vector<u8, N>) -> bool {
        all_nonzero(ints(rhs@)) && cw_fits::<u8>(div_seq(splat(self.to_int(), N as nat), ints(rhs@)))
    }

    open spec fn div_spec(self, rhs: Vector<u8, N>) -> Vector<u8, N> {
        from_ints(div_seq(splat(self.to_int(), N as nat), ints(rhs@)))
    }
}

/// `lhs / rhs` for every component of `rhs`.
impl<const N: usize> Div<Vector<u8, N>> for u8 {
    type Output = Vector<u8, N>;

    fn div(self, rhs: Vector<u8, N>) -> (r: Vector<u8, N>)
        ensures
            ints(r@) == div_seq(splat(self.to_int(), N as nat), ints(rhs@)),
    {
        let s = Vector::<u8, N>::splat(self);
        proof {
            assert(ints(s@) =~= splat(self.to_int(), N as nat));
        }
        let r = div_cw(&s, &rhs);
        proof {
            lemma_from_ints(r);
        }
        r
    }
}

impl<'a, const N: usize> vstd::std_specs::ops::DivSpecImpl<&'a Vector<u8, N>> for &'a u8 {
    open spec fn obeys_div_spec() -> bool {
        true
    }

    open spec fn div_req(self, rhs: &'a Vector<u8, N>) -> bool {
        all_nonzero(ints(rhs@)) && cw_fits::<u8>(div_seq(splat(self.to_int(), N as nat), ints(rhs@)))
    }

    open spec fn div_spec(self, rhs: &'a Vector<u8, N>) -> Vector<u8, N> {
        from_ints(div_seq(splat(self.to_int(), N as nat), ints(rhs@)))
    }
}

/// `lhs / rhs` for every component of `rhs`.
impl<'a, const N: usize> Div<&'a Vector<u8, N>> for &'a u8 {
    type Output = Vector<u8, N>;

    fn div(self, rhs: &'a Vector<u8, N>) -> (r: Vector<u8, N>)
        ensures
            ints(r@) == div_seq(splat(self.to_int(), N as nat), ints(rhs@)),
    {
        let s = Vector::<u8, N>::splat(*self);
        proof {
            assert(ints(s@) =~= splat(self.to_int(), N as nat));
        }
        let r = div_cw(&s, rhs);
        proof {
            lemma_from_ints(r);
        }
        r
    }
}

impl<const N: usize> vstd::std_specs::ops::AddSpecImpl<Vector<u16, N>> for u16 {
    open spec fn obeys_add_spec() -> bool {
        true
    }

    open spec fn add_req(self, rhs: Vector<u16, N>) -> bool {
        cw_fits::<u16>(add_seq(splat(self.to_int(), N as nat), ints(rhs@)))
    }

    open spec fn add_spec(self, rhs: Vector<u16, N>) -> Vector<u16, N> {
        from_ints(add_seq(splat(self.to_int(), N as nat), ints(rhs@)))
    }
}

/// `lhs + rhs` for every component of `rhs`.
impl<const N: usize> Add<Vector<u16, N>> for u16 {
    type Output = Vector<u16, N>;

    fn add(self, rhs: Vector<u16, N>) -> (r: Vector<u16, N>)
        ensures
            ints(r@) == add_seq(splat(self.to_int(), N as nat), ints(rhs@)),
    {
        let s = Vector::<u16, N>::splat(self);
        proof {
            assert(ints(s@) =~= splat(self.to_int(), N as nat));
        }
        let r = add_cw(&s, &rhs);
        proof {
            lemma_from_ints(r);
        }
        r
    }
}

impl<'a, const N: usize> vstd::std_specs::ops::AddSpecImpl<&'a Vector<u16, N>> for &'a u16 {
    open spec fn obeys_add_spec() -> bool {
        true
    }

    open spec fn add_req(self, rhs: &'a Vector<u16, N>) -> bool {
        cw_fits::<u16>(add_seq(splat(self.to_int(), N as nat), ints(rhs@)))
    }

    open spec fn add_spec(self, rhs: &'a Vector<u16, N>) -> Vector<u16, N> {
        from_ints(add_seq(splat(self.to_int(), N as nat), ints(rhs@)))
    }
}

/// `lhs + rhs` for every component of `rhs`.
impl<'a, const N: usize> Add<&'a Vector<u16, N>> for &'a u16 {
    type Output = Vector<u16, N>;

    fn add(self, rhs: &'a Vector<u16, N>) -> (r: Vector<u16, N>)
        ensures
            ints(r@) == add_seq(splat(self.to_int(), N as nat), ints(rhs@)),
    {
        let s = Vector::<u16, N>::splat(*self);
        proof {
            assert(ints(s@) =~= splat(self.to_int(), N as nat));
        }
        let r = add_cw(&s, rhs);
        proof {
            lemma_from_ints(r);
        }
        r
    }
}

impl<const N: usize> vstd::std_specs::ops::SubSpecImpl<Vector<u16, N>> for u16 {
    open spec fn obeys_sub_spec() -> bool {
        true
    }

    open spec fn sub_req(self, rhs: Vector<u16, N>) -> bool {
        cw_fits::<u16>(sub_seq(splat(self.to_int(), N as nat), ints(rhs@)))
    }

    open spec fn sub_spec(self, rhs: Vector<u16, N>) -> Vector<u16, N> {
        from_ints(sub_seq(splat(self.to_int(), N as nat), ints(rhs@)))
    }
}

/// `lhs - rhs` for every component of `rhs`.
impl<const N: usize> Sub<Vector<u16, N>> for u16 {
    type Output = Vector<u16, N>;

    fn sub(self, rhs: Vector<u16, N>) -> (r: Vector<u16, N>)
        ensures
            ints(r@) == sub_seq(splat(self.to_int(), N as nat), ints(rhs@)),
    {
        let s = Vector::<u16, N>::splat(self);
        proof {
            assert(ints(s@) =~= splat(self.to_int(), N as nat));
        }
        let r = sub_cw(&s, &rhs);
        proof {
            lemma_from_ints(r);
        }
        r
    }
}

impl<'a, const N: usize> vstd::std_specs::ops::SubSpecImpl<&'a Vector<u16, N>> for &'a u16 {
    open spec fn obeys_sub_spec() -> bool {
        true
    }

    open spec fn sub_req(self, rhs: &'a Vector<u16, N>) -> bool {
        cw_fits::<u16>(sub_seq(splat(self.to_int(), N as nat), ints(rhs@)))
    }

    open spec fn sub_spec(self, rhs: &'a Vector<u16, N>) -> Vector<u16, N> {
        from_ints(sub_seq(splat(self.to_int(), N as nat), ints(rhs@)))
    }
}

/// `lhs - rhs` for every component of `rhs`.
impl<'a, const N: usize> Sub<&'a Vector<u16, N>> for &'a u16 {
    type Output = Vector<u16, N>;

    fn sub(self, rhs: &'a Vector<u16, N>) -> (r: Vector<u16, N>)
        ensures
            ints(r@) == sub_seq(splat(self.to_int(), N as nat), ints(rhs@)),
    {
        let s = Vector::<u16, N>::splat(*self);
        proof {
            assert(ints(s@) =~= splat(self.to_int(), N as nat));
        }
        let r = sub_cw(&s, rhs);
        proof {
            lemma_from_ints(r);
        }
        r
    }
}

impl<const N: usize> vstd::std_specs::ops::MulSpecImpl<Vector<u16, N>> for u16 {
    open spec fn obeys_mul_spec() -> bool {
        true
    }

    open spec fn mul_req(self, rhs: Vector<u16, N>) -> bool {
        cw_fits::<u16>(mul_seq(splat(self.to_int(), N as nat), ints(rhs@)))
    }

    open spec fn mul_spec(self, rhs: Vector<u16, N>) -> Vector<u16, N> {
        from_ints(mul_seq(splat(self.to_int(), N as nat), ints(rhs@)))
    }
}

/// `lhs * rhs` for every component of `rhs`.
impl<const N: usize> Mul<Vector<u16, N>> for u16 {
    type Output = Vector<u16, N>;

    fn mul(self, rhs: Vector<u16, N>) -> (r: Vector<u16, N>)
        ensures
            ints(r@) == mul_seq(splat(self.to_int(), N as nat), ints(rhs@)),
    {
        let s = Vector::<u16, N>::splat(self);
        proof {
            assert(ints(s@) =~= splat(self.to_int(), N as nat));
        }
        let r = mul_cw(&s, &rhs);
        proof {
            lemma_from_ints(r);
        }
        r
    }
}

impl<'a, const N: usize> vstd::std_specs::ops::MulSpecImpl<&'a Vector<u16, N>> for &'a u16 {
    open spec fn obeys_mul_spec() -> bool {
        true
    }

    open spec fn mul_req(self, rhs: &'a Vector<u16, N>) -> bool {
        cw_fits::<u16>(mul_seq(splat(self.to_int(), N as nat), ints(rhs@)))
    }

    open spec fn mul_spec(self, rhs: &'a Vector<u16, N>) -> Vector<u16, N> {
        from_ints(mul_seq(splat(self.to_int(), N as nat), ints(rhs@)))
    }
}

/// `lhs * rhs` for every component of `rhs`.
impl<'a, const N: usize> Mul<&'a Vector<u16, N>> for &'a u16 {
    type Output = Vector<u16, N>;

    fn mul(self, rhs: &'a Vector<u16, N>) -> (r: Vector<u16, N>)
        ensures
            ints(r@) == mul_seq(splat(self.to_int(), N as nat), ints(rhs@)),
    {
        let s = Vector::<u16, N>::splat(*self);
        proof {
            assert(ints(s@) =~= splat(self.to_int(), N as nat));
        }
        let r = mul_cw(&s, rhs);
        proof {
            lemma_from_ints(r);
        }
        r
    }
}

impl<const N: usize> vstd::std_specs::ops::DivSpecImpl<Vector<u16, N>> for u16 {
    open spec fn obeys_div_spec() -> bool {
        true
    }

    open spec fn div_req(self, rhs: Vector<u16, N>) -> bool {
        all_nonzero(ints(rhs@)) && cw_fits::<u16>(div_seq(splat(self.to_int(), N as nat), ints(rhs@)))
    }

    open spec fn div_spec(self, rhs: Vector<u16, N>) -> Vector<u16, N> {
        from_ints(div_seq(splat(self.to_int(), N as nat), ints(rhs@)))
    }
}

/// `lhs / rhs` for every component of `rhs`.
impl<const N: usize> Div<Vector<u16, N>> for u16 {
    type Output = Vector<u16, N>;

    fn div(self, rhs: Vector<u16, N>) -> (r: Vector<u16, N>)
        ensures
            ints(r@) == div_seq(splat(self.to_int(), N as nat), ints(rhs@)),
    {
        let s = Vector::<u16, N>::splat(self);
        proof {
            assert(ints(s@) =~= splat(self.to_int(), N as nat));
        }
        let r = div_cw(&s, &rhs);
        proof {
            lemma_from_ints(r);
        }
        r
    }
}

impl<'a, const N: usize> vstd::std_specs::ops::DivSpecImpl<&'a Vector<u16, N>> for &'a u16 {
    open spec fn obeys_div_spec() -> bool {
        true
    }

    open spec fn div_req(self, rhs: &'a Vector<u16, N>) -> bool {
        all_nonzero(ints(rhs@)) && cw_fits::<u16>(div_seq(splat(self.to_int(), N as nat), ints(rhs@)))
    }

    open spec fn div_spec(self, rhs: &'a Vector<u16, N>) -> Vector<u16, N> {
        from_ints(div_seq(splat(self.to_int(), N as nat), ints(rhs@)))
    }
}

/// `lhs / rhs` for every component of `rhs`.
impl<'a, const N: usize> Div<&'a Vector<u16, N>> for &'a u16 {
    type Output = Vector<u16, N>;

    fn div(self, rhs: &'a Vector<u16, N>) -> (r: Vector<u16, N>)
        ensures
            ints(r@) == div_seq(splat(self.to_int(), N as nat), ints(rhs@)),
    {
        let s = Vector::<u16, N>::splat(*self);
        proof {
            assert(ints(s@) =~= splat(self.to_int(), N as nat));
        }
        let r = div_cw(&s, rhs);
        proof {
            lemma_from_ints(r);
        }
        r
    }
}

impl<const N: usize> vstd::std_specs::ops::AddSpecImpl<Vector<u128, N>> for u128 {
    open spec fn obeys_add_spec() -> bool {
        true
    }

    open spec fn add_req(self, rhs: Vector<u128, N>) -> bool {
        cw_fits::<u128>(add_seq(splat(self.to_int(), N as nat), ints(rhs@)))
    }

    open spec fn add_spec(self, rhs: Vector<u128, N>) -> Vector<u128, N> {
        from_ints(add_seq(splat(self.to_int(), N as nat), ints(rhs@)))
    }
}

/// `lhs + rhs` for every component of `rhs`.
impl<const N: usize> Add<Vector<u128, N>> for u128 {
    type Output = Vector<u128, N>;

    fn add(self, rhs: Vector<u128, N>) -> (r: Vector<u128, N>)
        ensures
            ints(r@) == add_seq(splat(self.to_int(), N as nat), ints(rhs@)),
    {
        let s = Vector::<u128, N>::splat(self);
        proof {
            assert(ints(s@) =~= splat(self.to_int(), N as nat));
        }
        let r = add_cw(&s, &rhs);
        proof {
            lemma_from_ints(r);
        }
        r
    }
}

impl<'a, const N: usize> vstd::std_specs::ops::AddSpecImpl<&'a Vector<u128, N>> for &'a u128 {
    open spec fn obeys_add_spec() -> bool {
        true
    }

    open spec fn add_req(self, rhs: &'a Vector<u128, N>) -> bool {
        cw_fits::<u128>(add_seq(splat(self.to_int(), N as nat), ints(rhs@)))
    }

    open spec fn add_spec(self, rhs: &'a Vector<u128, N>) -> Vector<u128, N> {
        from_ints(add_seq(splat(self.to_int(), N as nat), ints(rhs@)))
    }
}

/// `lhs + rhs` for every component of `rhs`.
impl<'a, const N: usize> Add<&'a Vector<u128, N>> for &'a u128 {
    type Output = Vector<u128, N>;

    fn add(self, rhs: &'a Vector<u128, N>) -> (r: Vector<u128, N>)
        ensures
            ints(r@) == add_seq(splat(self.to_int(), N as nat), ints(rhs@)),
    {
        let s = Vector::<u128, N>::splat(*self);
        proof {
            assert(ints(s@) =~= splat(self.to_int(), N as nat));
        }
        let r = add_cw(&s, rhs);
        proof {
            lemma_from_ints(r);
        }
        r
    }
}

impl<const N: usize> vstd::std_specs::ops::SubSpecImpl<Vector<u128, N>> for u128 {
    open spec fn obeys_sub_spec() -> bool {
        true
    }

    open spec fn sub_req(self, rhs: Vector<u128, N>) -> bool {
        cw_fits::<u128>(sub_seq(splat(self.to_int(), N as nat), ints(rhs@)))
    }

    open spec fn sub_spec(self, rhs: Vector<u128, N>) -> Vector<u128, N> {
        from_ints(sub_seq(splat(self.to_int(), N as nat), ints(rhs@)))
    }
}

/// `lhs - rhs` for every component of `rhs`.
impl<const N: usize> Sub<Vector<u128, N>> for u128 {
    type Output = Vector<u128, N>;

    fn sub(self, rhs: Vector<u128, N>) -> (r: Vector<u128, N>)
        ensures
            ints(r@) == sub_seq(splat(self.to_int(), N as nat), ints(rhs@)),
    {
        let s = Vector::<u128, N>::splat(self);
        proof {
            assert(ints(s@) =~= splat(self.to_int(), N as nat));
        }
        let r = sub_cw(&s, &rhs);
        proof {
            lemma_from_ints(r);
        }
        r
    }
}

impl<'a, const N: usize> vstd::std_specs::ops::SubSpecImpl<&'a Vector<u128, N>> for &'a u128 {
    open spec fn obeys_sub_spec() -> bool {
        true
    }

    open spec fn sub_req(self, rhs: &'a Vector<u128, N>) -> bool {
        cw_fits::<u128>(sub_seq(splat(self.to_int(), N as nat), ints(rhs@)))
    }

    open spec fn sub_spec(self, rhs: &'a Vector<u128, N>) -> Vector<u128, N> {
        from_ints(sub_seq(splat(self.to_int(), N as nat), ints(rhs@)))
    }
}

/// `lhs - rhs` for every component of `rhs`.
impl<'a, const N: usize> Sub<&'a Vector<u128, N>> for &'a u128 {
    type Output = Vector<u128, N>;

    fn sub(self, rhs: &'a Vector<u128, N>) -> (r: Vector<u128, N>)
        ensures
            ints(r@) == sub_seq(splat(self.to_int(), N as nat), ints(rhs@)),
    {
        let s = Vector::<u128, N>::splat(*self);
        proof {
            assert(ints(s@) =~= splat(self.to_int(), N as nat));
        }
        let r = sub_cw(&s, rhs);
        proof {
            lemma_from_ints(r);
        }
        r
    }
}

impl<const N: usize> vstd::std_specs::ops::MulSpecImpl<Vector<u128, N>> for u128 {
    open spec fn obeys_mul_spec() -> bool {
        true
    }

    open spec fn mul_req(self, rhs: Vector<u128, N>) -> bool {
        cw_fits::<u128>(mul_seq(splat(self.to_int(), N as nat), ints(rhs@)))
    }

    open spec fn mul_spec(self, rhs: Vector<u128, N>) -> Vector<u128, N> {
        from_ints(mul_seq(splat(self.to_int(), N as nat), ints(rhs@)))
    }
}

/// `lhs * rhs` for every component of `rhs`.
impl<const N: usize> Mul<Vector<u128, N>> for u128 {
    type Output = Vector<u128, N>;

    fn mul(self, rhs: Vector<u128, N>) -> (r: Vector<u128, N>)
        ensures
            ints(r@) == mul_seq(splat(self.to_int(), N as nat), ints(rhs@)),
    {
        let s = Vector::<u128, N>::splat(self);
        proof {
            assert(ints(s@) =~= splat(self.to_int(), N as nat));
        }
        let r = mul_cw(&s, &rhs);
        proof {
            lemma_from_ints(r);
        }
        r
    }
}

impl<'a, const N: usize> vstd::std_specs::ops::MulSpecImpl<&'a Vector<u128, N>> for &'a u128 {
    open spec fn obeys_mul_spec() -> bool {
        true
    }

    open spec fn mul_req(self, rhs: &'a Vector<u128, N>) -> bool {
        cw_fits::<u128>(mul_seq(splat(self.to_int(), N as nat), ints(rhs@)))
    }

    open spec fn mul_spec(self, rhs: &'a Vector<u128, N>) -> Vector<u128, N> {
        from_ints(mul_seq(splat(self.to_int(), N as nat), ints(rhs@)))
    }
}

/// `lhs * rhs` for every component of `rhs`.
impl<'a, const N: usize> Mul<&'a Vector<u128, N>> for &'a u128 {
    type Output = Vector<u128, N>;

    fn mul(self, rhs: &'a Vector<u128, N>) -> (r: Vector<u128, N>)
        ensures
            ints(r@) == mul_seq(splat(self.to_int(), N as nat), ints(rhs@)),
    {
        let s = Vector::<u128, N>::splat(*self);
        proof {
            assert(ints(s@) =~= splat(self.to_int(), N as nat));
        }
        let r = mul_cw(&s, rhs);
        proof {
            lemma_from_ints(r);
        }
        r
    }
}

impl<const N: usize> vstd::std_specs::ops::DivSpecImpl<Vector<u128, N>> for u128 {
    open spec fn obeys_div_spec() -> bool {
        true
    }

    open spec fn div_req(self, rhs: Vector<u128, N>) -> bool {
        all_nonzero(ints(rhs@)) && cw_fits::<u128>(div_seq(splat(self.to_int(), N as nat), ints(rhs@)))
    }

    open spec fn div_spec(self, rhs: Vector<u128, N>) -> Vector<u128, N> {
        from_ints(div_seq(splat(self.to_int(), N as nat), ints(rhs@)))
    }
}

/// `lhs / rhs` for every component of `rhs`.
impl<const N: usize> Div<Vector<u128, N>> for u128 {
    type Output = Vector<u128, N>;

    fn div(self, rhs: Vector<u128, N>) -> (r: Vector<u128, N>)
        ensures
            ints(r@) == div_seq(splat(self.to_int(), N as nat), ints(rhs@)),
    {
        let s = Vector::<u128, N>::splat(self);
        proof {
            assert(ints(s@) =~= splat(self.to_int(), N as nat));
        }
        let r = div_cw(&s, &rhs);
        proof {
            lemma_from_ints(r);
        }
        r
    }
}

impl<'a, const N: usize> vstd::std_specs::ops::DivSpecImpl<&'a Vector<u128, N>> for &'a u128 {
    open spec fn obeys_div_spec() -> bool {
        true
    }

    open spec fn div_req(self, rhs: &'a Vector<u128, N>) -> bool {
        all_nonzero(ints(rhs@)) && cw_fits::<u128>(div_seq(splat(self.to_int(), N as nat), ints(rhs@)))
    }

    open spec fn div_spec(self, rhs: &'a Vector<u128, N>) -> Vector<u128, N> {
        from_ints(div_seq(splat(self.to_int(), N as nat), ints(rhs@)))
    }
}

/// `lhs / rhs` for every component of `rhs`.
impl<'a, const N: usize> Div<&'a Vector<u128, N>> for &'a u128 {
    type Output = Vector<u128, N>;

    fn div(self, rhs: &'a Vector<u128, N>) -> (r: Vector<u128, N>)
        ensures
            ints(r@) == div_seq(splat(self.to_int(), N as nat), ints(rhs@)),
    {
        let s = Vector::<u128, N>::splat(*self);
        proof {
            assert(ints(s@) =~= splat(self.to_int(), N as nat));
        }
        let r = div_cw(&s, rhs);
        proof {
            lemma_from_ints(r);
        }
        r
    }
}

impl<const N: usize> vstd::std_specs::ops::AddSpecImpl<Vector<usize, N>> for usize {
    open spec fn obeys_add_spec() -> bool {
        true
    }

    open spec fn add_req(self, rhs: Vector<usize, N>) -> bool {
        cw_fits::<usize>(add_seq(splat(self.to_int(), N as nat), ints(rhs@)))
    }

    open spec fn add_spec(self, rhs: Vector<usize, N>) -> Vector<usize, N> {
        from_ints(add_seq(splat(self.to_int(), N as nat), ints(rhs@)))
    }
}

/// `lhs + rhs` for every component of `rhs`.
impl<const N: usize> Add<Vector<usize, N>> for usize {
    type Output = Vector<usize, N>;

    fn add(self, rhs: Vector<usize, N>) -> (r: Vector<usize, N>)
        ensures
            ints(r@) == add_seq(splat(self.to_int(), N as nat), ints(rhs@)),
    {
        let s = Vector::<usize, N>::splat(self);
        proof {
            assert(ints(s@) =~= splat(self.to_int(), N as nat));
        }
        let r = add_cw(&s, &rhs);
        proof {
            lemma_from_ints(r);
        }
        r
    }
}

impl<'a, const N: usize> vstd::std_specs::ops::AddSpecImpl<&'a Vector<usize, N>> for &'a usize {
    open spec fn obeys_add_spec() -> bool {
        true
    }

    open spec fn add_req(self, rhs: &'a Vector<usize, N>) -> bool {
        cw_fits::<usize>(add_seq(splat(self.to_int(), N as nat), ints(rhs@)))
    }

    open spec fn add_spec(self, rhs: &'a Vector<usize, N>) -> Vector<usize, N> {
        from_ints(add_seq(splat(self.to_int(), N as nat), ints(rhs@)))
    }
}

/// `lhs + rhs` for every component of `rhs`.
impl<'a, const N: usize> Add<&'a Vector<usize, N>> for &'a usize {
    type Output = Vector<usize, N>;

    fn add(self, rhs: &'a Vector<usize, N>) -> (r: Vector<usize, N>)
        ensures
            ints(r@) == add_seq(splat(self.to_int(), N as nat), ints(rhs@)),
    {
        let s = Vector::<usize, N>::splat(*self);
        proof {
            assert(ints(s@) =~= splat(self.to_int(), N as nat));
        }
        let r = add_cw(&s, rhs);
        proof {
            lemma_from_ints(r);
        }
        r
    }
}

impl<const N: usize> vstd::std_specs::ops::SubSpecImpl<Vector<usize, N>> for usize {
    open spec fn obeys_sub_spec() -> bool {
        true
    }

    open spec fn sub_req(self, rhs: Vector<usize, N>) -> bool {
        cw_fits::<usize>(sub_seq(splat(self.to_int(), N as nat), ints(rhs@)))
    }

    open spec fn sub_spec(self, rhs: Vector<usize, N>) -> Vector<usize, N> {
        from_ints(sub_seq(splat(self.to_int(), N as nat), ints(rhs@)))
    }
}

/// `lhs - rhs` for every component of `rhs`.
impl<const N: usize> Sub<Vector<usize, N>> for usize {
    type Output = Vector<usize, N>;

    fn sub(self, rhs: Vector<usize, N>) -> (r: Vector<usize, N>)
        ensures
            ints(r@) == sub_seq(splat(self.to_int(), N as nat), ints(rhs@)),
    {
        let s = Vector::<usize, N>::splat(self);
        proof {
            assert(ints(s@) =~= splat(self.to_int(), N as nat));
        }
        let r = sub_cw(&s, &rhs);
        proof {
            lemma_from_ints(r);
        }
        r
    }
}

impl<'a, const N: usize> vstd::std_specs::ops::SubSpecImpl<&'a Vector<usize, N>> for &'a usize {
    open spec fn obeys_sub_spec() -> bool {
        true
    }

    open spec fn sub_req(self, rhs: &'a Vector<usize, N>) -> bool {
        cw_fits::<usize>(sub_seq(splat(self.to_int(), N as nat), ints(rhs@)))
    }

    open spec fn sub_spec(self, rhs: &'a Vector<usize, N>) -> Vector<usize, N> {
        from_ints(sub_seq(splat(self.to_int(), N as nat), ints(rhs@)))
    }
}

/// `lhs - rhs` for every component of `rhs`.
impl<'a, const N: usize> Sub<&'a Vector<usize, N>> for &'a usize {
    type Output = Vector<usize, N>;

    fn sub(self, rhs: &'a Vector<usize, N>) -> (r: Vector<usize, N>)
        ensures
            ints(r@) == sub_seq(splat(self.to_int(), N as nat), ints(rhs@)),
    {
        let s = Vector::<usize, N>::splat(*self);
        proof {
            assert(ints(s@) =~= splat(self.to_int(), N as nat));
        }
        let r = sub_cw(&s, rhs);
        proof {
            lemma_from_ints(r);
        }
        r
    }
}

impl<const N: usize> vstd::std_specs::ops::MulSpecImpl<Vector<usize, N>> for usize {
    open spec fn obeys_mul_spec() -> bool {
        true
    }

    open spec fn mul_req(self, rhs: Vector<usize, N>) -> bool {
        cw_fits::<usize>(mul_seq(splat(self.to_int(), N as nat), ints(rhs@)))
    }

    open spec fn mul_spec(self, rhs: Vector<usize, N>) -> Vector<usize, N> {
        from_ints(mul_seq(splat(self.to_int(), N as nat), ints(rhs@)))
    }
}

/// `lhs * rhs` for every component of `rhs`.
impl<const N: usize> Mul<Vector<usize, N>> for usize {
    type Output = Vector<usize, N>;

    fn mul(self, rhs: Vector<usize, N>) -> (r: Vector<usize, N>)
        ensures
            ints(r@) == mul_seq(splat(self.to_int(), N as nat), ints(rhs@)),
    {
        let s = Vector::<usize, N>::splat(self);
        proof {
            assert(ints(s@) =~= splat(self.to_int(), N as nat));
        }
        let r = mul_cw(&s, &rhs);
        proof {
            lemma_from_ints(r);
        }
        r
    }
}

impl<'a, const N: usize> vstd::std_specs::ops::MulSpecImpl<&'a Vector<usize, N>> for &'a usize {
    open spec fn obeys_mul_spec() -> bool {
        true
    }

    open spec fn mul_req(self, rhs: &'a Vector<usize, N>) -> bool {
        cw_fits::<usize>(mul_seq(splat(self.to_int(), N as nat), ints(rhs@)))
    }

    open spec fn mul_spec(self, rhs: &'a Vector<usize, N>) -> Vector<usize, N> {
        from_ints(mul_seq(splat(self.to_int(), N as nat), ints(rhs@)))
    }
}

/// `lhs * rhs` for every component of `rhs`.
impl<'a, const N: usize> Mul<&'a Vector<usize, N>> for &'a usize {
    type Output = Vector<usize, N>;

    fn mul(self, rhs: &'a Vector<usize, N>) -> (r: Vector<usize, N>)
        ensures
            ints(r@) == mul_seq(splat(self.to_int(), N as nat), ints(rhs@)),
    {
        let s = Vector::<usize, N>::splat(*self);
        proof {
            assert(ints(s@) =~= splat(self.to_int(), N as nat));
        }
        let r = mul_cw(&s, rhs);
        proof {
            lemma_from_ints(r);
        }
        r
    }
}

impl<const N: usize> vstd::std_specs::ops::DivSpecImpl<Vector<usize, N>> for usize {
    open spec fn obeys_div_spec() -> bool {
        true
    }

    open spec fn div_req(self, rhs: Vector<usize, N>) -> bool {
        all_nonzero(ints(rhs@)) && cw_fits::<usize>(div_seq(splat(self.to_int(), N as nat), ints(rhs@)))
    }

    open spec fn div_spec(self, rhs: Vector<usize, N>) -> Vector<usize, N> {
        from_ints(div_seq(splat(self.to_int(), N as nat), ints(rhs@)))
    }
}

/// `lhs / rhs` for every component of `rhs`.
impl<const N: usize> Div<Vector<usize, N>> for usize {
    type Output = Vector<usize, N>;

    fn div(self, rhs: Vector<usize, N>) -> (r: Vector<usize, N>)
        ensures
            ints(r@) == div_seq(splat(self.to_int(), N as nat), ints(rhs@)),
    {
        let s = Vector::<usize, N>::splat(self);
        proof {
            assert(ints(s@) =~= splat(self.to_int(), N as nat));
        }
        let r = div_cw(&s, &rhs);
        proof {
            lemma_from_ints(r);
        }
        r
    }
}

impl<'a, const N: usize> vstd::std_specs::ops::DivSpecImpl<&'a Vector<usize, N>> for &'a usize {
    open spec fn obeys_div_spec() -> bool {
        true
    }

    open spec fn div_req(self, rhs: &'a Vector<usize, N>) -> bool {
        all_nonzero(ints(rhs@)) && cw_fits::<usize>(div_seq(splat(self.to_int(), N as nat), ints(rhs@)))
    }

    open spec fn div_spec(self, rhs: &'a Vector<usize, N>) -> Vector<usize, N> {
        from_ints(div_seq(splat(self.to_int(), N as nat), ints(rhs@)))
    }
}

/// `lhs / rhs` for every component of `rhs`.
impl<'a, const N: usize> Div<&'a Vector<usize, N>> for &'a usize {
    type Output = Vector<usize, N>;

    fn div(self, rhs: &'a Vector<usize, N>) -> (r: Vector<usize, N>)
        ensures
            ints(r@) == div_seq(splat(self.to_int(), N as nat), ints(rhs@)),
    {
        let s = Vector::<usize, N>::splat(*self);
        proof {
            assert(ints(s@) =~= splat(self.to_int(), N as nat));
        }
        let r = div_cw(&s, rhs);
        proof {
            lemma_from_ints(r);
        }
        r
    }
}

impl<const N: usize> vstd::std_specs::ops::AddSpecImpl<Vector<i64, N>> for i64 {
    open spec fn obeys_add_spec() -> bool {
        true
    }

    open spec fn add_req(self, rhs: Vector<i64, N>) -> bool {
        cw_fits::<i64>(add_seq(splat(self.to_int(), N as nat), ints(rhs@)))
    }

    open spec fn add_spec(self, rhs: Vector<i64, N>) -> Vector<i64, N> {
        from_ints(add_seq(splat(self.to_int(), N as nat), ints(rhs@)))
    }
}

/// `lhs + rhs` for every component of `rhs`.
impl<const N: usize> Add<Vector<i64, N>> for i64 {
    type Output = Vector<i64, N>;

    fn add(self, rhs: Vector<i64, N>) -> (r: Vector<i64, N>)
        ensures
            ints(r@) == add_seq(splat(self.to_int(), N as nat), ints(rhs@)),
    {
        let s = Vector::<i64, N>::splat(self);
        proof {
            assert(ints(s@) =~= splat(self.to_int(), N as nat));
        }
        let r = add_cw(&s, &rhs);
        proof {
            lemma_from_ints(r);
        }
        r
    }
}

impl<'a, const N: usize> vstd::std_specs::ops::AddSpecImpl<&'a Vector<i64, N>> for &'a i64 {
    open spec fn obeys_add_spec() -> bool {
        true
    }

    open spec fn add_req(self, rhs: &'a Vector<i64, N>) -> bool {
        cw_fits::<i64>(add_seq(splat(self.to_int(), N as nat), ints(rhs@)))
    }

    open spec fn add_spec(self, rhs: &'a Vector<i64, N>) -> Vector<i64, N> {
        from_ints(add_seq(splat(self.to_int(), N as nat), ints(rhs@)))
    }
}

/// `lhs + rhs` for every component of `rhs`.
impl<'a, const N: usize> Add<&'a Vector<i64, N>> for &'a i64 {
    type Output = Vector<i64, N>;

    fn add(self, rhs: &'a Vector<i64, N>) -> (r: Vector<i64, N>)
        ensures
            ints(r@) == add_seq(splat(self.to_int(), N as nat), ints(rhs@)),
    {
        let s = Vector::<i64, N>::splat(*self);
        proof {
            assert(ints(s@) =~= splat(self.to_int(), N as nat));
        }
        let r = add_cw(&s, rhs);
        proof {
            lemma_from_ints(r);
        }
        r
    }
}

impl<const N: usize> vstd::std_specs::ops::SubSpecImpl<Vector<i64, N>> for i64 {
    open spec fn obeys_sub_spec() -> bool {
        true
    }

    open spec fn sub_req(self, rhs: Vector<i64, N>) -> bool {
        cw_fits::<i64>(sub_seq(splat(self.to_int(), N as nat), ints(rhs@)))
    }

    open spec fn sub_spec(self, rhs: Vector<i64, N>) -> Vector<i64, N> {
        from_ints(sub_seq(splat(self.to_int(), N as nat), ints(rhs@)))
    }
}

/// `lhs - rhs` for every component of `rhs`.
impl<const N: usize> Sub<Vector<i64, N>> for i64 {
    type Output = Vector<i64, N>;

    fn sub(self, rhs: Vector<i64, N>) -> (r: Vector<i64, N>)
        ensures
            ints(r@) == sub_seq(splat(self.to_int(), N as nat), ints(rhs@)),
    {
        let s = Vector::<i64, N>::splat(self);
        proof {
            assert(ints(s@) =~= splat(self.to_int(), N as nat));
        }
        let r = sub_cw(&s, &rhs);
        proof {
            lemma_from_ints(r);
        }
        r
    }
}

impl<'a, const N: usize> vstd::std_specs::ops::SubSpecImpl<&'a Vector<i64, N>> for &'a i64 {
    open spec fn obeys_sub_spec() -> bool {
        true
    }

    open spec fn sub_req(self, rhs: &'a Vector<i64, N>) -> bool {
        cw_fits::<i64>(sub_seq(splat(self.to_int(), N as nat), ints(rhs@)))
    }

    open spec fn sub_spec(self, rhs: &'a Vector<i64, N>) -> Vector<i64, N> {
        from_ints(sub_seq(splat(self.to_int(), N as nat), ints(rhs@)))
    }
}

/// `lhs - rhs` for every component of `rhs`.
impl<'a, const N: usize> Sub<&'a Vector<i64, N>> for &'a i64 {
    type Output = Vector<i64, N>;

    fn sub(self, rhs: &'a Vector<i64, N>) -> (r: Vector<i64, N>)
        ensures
            ints(r@) == sub_seq(splat(self.to_int(), N as nat), ints(rhs@)),
    {
        let s = Vector::<i64, N>::splat(*self);
        proof {
            assert(ints(s@) =~= splat(self.to_int(), N as nat));
        }
        let r = sub_cw(&s, rhs);
        proof {
            lemma_from_ints(r);
        }
        r
    }
}

impl<const N: usize> vstd::std_specs::ops::MulSpecImpl<Vector<i64, N>> for i64 {
    open spec fn obeys_mul_spec() -> bool {
        true
    }

    open spec fn mul_req(self, rhs: Vector<i64, N>) -> bool {
        cw_fits::<i64>(mul_seq(splat(self.to_int(), N as nat), ints(rhs@)))
    }

    open spec fn mul_spec(self, rhs: Vector<i64, N>) -> Vector<i64, N> {
        from_ints(mul_seq(splat(self.to_int(), N as nat), ints(rhs@)))
    }
}

/// `lhs * rhs` for every component of `rhs`.
impl<const N: usize> Mul<Vector<i64, N>> for i64 {
    type Output = Vector<i64, N>;

    fn mul(self, rhs: Vector<i64, N>) -> (r: Vector<i64, N>)
        ensures
            ints(r@) == mul_seq(splat(self.to_int(), N as nat), ints(rhs@)),
    {
        let s = Vector::<i64, N>::splat(self);
        proof {
            assert(ints(s@) =~= splat(self.to_int(), N as nat));
        }
        let r = mul_cw(&s, &rhs);
        proof {
            lemma_from_ints(r);
        }
        r
    }
}

impl<'a, const N: usize> vstd::std_specs::ops::MulSpecImpl<&'a Vector<i64, N>> for &'a i64 {
    open spec fn obeys_mul_spec() -> bool {
        true
    }

    open spec fn mul_req(self, rhs: &'a Vector<i64, N>) -> bool {
        cw_fits::<i64>(mul_seq(splat(self.to_int(), N as nat), ints(rhs@)))
    }

    open spec fn mul_spec(self, rhs: &'a Vector<i64, N>) -> Vector<i64, N> {
        from_ints(mul_seq(splat(self.to_int(), N as nat), ints(rhs@)))
    }
}

/// `lhs * rhs` for every component of `rhs`.
impl<'a, const N: usize> Mul<&'a Vector<i64, N>> for &'a i64 {
    type Output = Vector<i64, N>;

    fn mul(self, rhs: &'a Vector<i64, N>) -> (r: Vector<i64, N>)
        ensures
            ints(r@) == mul_seq(splat(self.to_int(), N as nat), ints(rhs@)),
    {
        let s = Vector::<i64, N>::splat(*self);
        proof {
            assert(ints(s@) =~= splat(self.to_int(), N as nat));
        }
        let r = mul_cw(&s, rhs);
        proof {
            lemma_from_ints(r);
        }
        r
    }
}

impl<const N: usize> vstd::std_specs::ops::DivSpecImpl<Vector<i64, N>> for i64 {
    open spec fn obeys_div_spec() -> bool {
        true
    }

    open spec fn div_req(self, rhs: Vector<i64, N>) -> bool {
        all_nonzero(ints(rhs@)) && cw_fits::<i64>(div_seq(splat(self.to_int(), N as nat), ints(rhs@)))
    }

    open spec fn div_spec(self, rhs: Vector<i64, N>) -> Vector<i64, N> {
        from_ints(div_seq(splat(self.to_int(), N as nat), ints(rhs@)))
    }
}

/// `lhs / rhs` for every component of `rhs`.
impl<const N: usize> Div<Vector<i64, N>> for i64 {
    type Output = Vector<i64, N>;

    fn div(self, rhs: Vector<i64, N>) -> (r: Vector<i64, N>)
        ensures
            ints(r@) == div_seq(splat(self.to_int(), N as nat), ints(rhs@)),
    {
        let s = Vector::<i64, N>::splat(self);
        proof {
            assert(ints(s@) =~= splat(self.to_int(), N as nat));
        }
        let r = div_cw(&s, &rhs);
        proof {
            lemma_from_ints(r);
        }
        r
    }
}

impl<'a, const N: usize> vstd::std_specs::ops::DivSpecImpl<&'a Vector<i64, N>> for &'a i64 {
    open spec fn obeys_div_spec() -> bool {
        true
    }

    open spec fn div_req(self, rhs: &'a Vector<i64, N>) -> bool {
        all_nonzero(ints(rhs@)) && cw_fits::<i64>(div_seq(splat(self.to_int(), N as nat), ints(rhs@)))
    }

    open spec fn div_spec(self, rhs: &'a Vector<i64, N>) -> Vector<i64, N> {
        from_ints(div_seq(splat(self.to_int(), N as nat), ints(rhs@)))
    }
}

/// `lhs / rhs` for every component of `rhs`.
impl<'a, const N: usize> Div<&'a Vector<i64, N>> for &'a i64 {
    type Output = Vector<i64, N>;

    fn div(self, rhs: &'a Vector<i64, N>) -> (r: Vector<i64, N>)
        ensures
            ints(r@) == div_seq(splat(self.to_int(), N as nat), ints(rhs@)),
    {
        let s = Vector::<i64, N>::splat(*self);
        proof {
            assert(ints(s@) =~= splat(self.to_int(), N as nat));
        }
        let r = div_cw(&s, rhs);
        proof {
            lemma_from_ints(r);
        }
        r
    }
}

impl<const N: usize> vstd::std_specs::ops::AddSpecImpl<Vector<u32, N>> for u32 {
    open spec fn obeys_add_spec() -> bool {
        true
    }

    open spec fn add_req(self, rhs: Vector<u32, N>) -> bool {
        cw_fits::<u32>(add_seq(splat(self.to_int(), N as nat), ints(rhs@)))
    }

    open spec fn add_spec(self, rhs: Vector<u32, N>) -> Vector<u32, N> {
        from_ints(add_seq(splat(self.to_int(), N as nat), ints(rhs@)))
    }
}

/// `lhs + rhs` for every component of `rhs`.
impl<const N: usize> Add<Vector<u32, N>> for u32 {
    type Output = Vector<u32, N>;

    fn add(self, rhs: Vector<u32, N>) -> (r: Vector<u32, N>)
        ensures
            ints(r@) == add_seq(splat(self.to_int(), N as nat), ints(rhs@)),
    {
        let s = Vector::<u32, N>::splat(self);
        proof {
            assert(ints(s@) =~= splat(self.to_int(), N as nat));
        }
        let r = add_cw(&s, &rhs);
        proof {
            lemma_from_ints(r);
        }
        r
    }
}

impl<'a, const N: usize> vstd::std_specs::ops::AddSpecImpl<&'a Vector<u32, N>> for &'a u32 {
    open spec fn obeys_add_spec() -> bool {
        true
    }

    open spec fn add_req(self, rhs: &'a Vector<u32, N>) -> bool {
        cw_fits::<u32>(add_seq(splat(self.to_int(), N as nat), ints(rhs@)))
    }

    open spec fn add_spec(self, rhs: &'a Vector<u32, N>) -> Vector<u32, N> {
        from_ints(add_seq(splat(self.to_int(), N as nat), ints(rhs@)))
    }
}

/// `lhs + rhs` for every component of `rhs`.
impl<'a, const N: usize> Add<&'a Vector<u32, N>> for &'a u32 {
    type Output = Vector<u32, N>;

    fn add(self, rhs: &'a Vector<u32, N>) -> (r: Vector<u32, N>)
        ensures
            ints(r@) == add_seq(splat(self.to_int(), N as nat), ints(rhs@)),
    {
        let s = Vector::<u32, N>::splat(*self);
        proof {
            assert(ints(s@) =~= splat(self.to_int(), N as nat));
        }
        let r = add_cw(&s, rhs);
        proof {
            lemma_from_ints(r);
        }
        r
    }
}

impl<const N: usize> vstd::std_specs::ops::SubSpecImpl<Vector<u32, N>> for u32 {
    open spec fn obeys_sub_spec() -> bool {
        true
    }

    open spec fn sub_req(self, rhs: Vector<u32, N>) -> bool {
        cw_fits::<u32>(sub_seq(splat(self.to_int(), N as nat), ints(rhs@)))
    }

    open spec fn sub_spec(self, rhs: Vector<u32, N>) -> Vector<u32, N> {
        from_ints(sub_seq(splat(self.to_int(), N as nat), ints(rhs@)))
    }
}

/// `lhs - rhs` for every component of `rhs`.
impl<const N: usize> Sub<Vector<u32, N>> for u32 {
    type Output = Vector<u32, N>;

    fn sub(self, rhs: Vector<u32, N>) -> (r: Vector<u32, N>)
        ensures
            ints(r@) == sub_seq(splat(self.to_int(), N as nat), ints(rhs@)),
    {
        let s = Vector::<u32, N>::splat(self);
        proof {
            assert(ints(s@) =~= splat(self.to_int(), N as nat));
        }
        let r = sub_cw(&s, &rhs);
        proof {
            lemma_from_ints(r);
        }
        r
    }
}

impl<'a, const N: usize> vstd::std_specs::ops::SubSpecImpl<&'a Vector<u32, N>> for &'a u32 {
    open spec fn obeys_sub_spec() -> bool {
        true
    }

    open spec fn sub_req(self, rhs: &'a Vector<u32, N>) -> bool {
        cw_fits::<u32>(sub_seq(splat(self.to_int(), N as nat), ints(rhs@)))
    }

    open spec fn sub_spec(self, rhs: &'a Vector<u32, N>) -> Vector<u32, N> {
        from_ints(sub_seq(splat(self.to_int(), N as nat), ints(rhs@)))
    }
}

/// `lhs - rhs` for every component of `rhs`.
impl<'a, const N: usize> Sub<&'a Vector<u32, N>> for &'a u32 {
    type Output = Vector<u32, N>;

    fn sub(self, rhs: &'a Vector<u32, N>) -> (r: Vector<u32, N>)
        ensures
            ints(r@) == sub_seq(splat(self.to_int(), N as nat), ints(rhs@)),
    {
        let s = Vector::<u32, N>::splat(*self);
        proof {
            assert(ints(s@) =~= splat(self.to_int(), N as nat));
        }
        let r = sub_cw(&s, rhs);
        proof {
            lemma_from_ints(r);
        }
        r
    }
}

impl<const N: usize> vstd::std_specs::ops::MulSpecImpl<Vector<u32, N>> for u32 {
    open spec fn obeys_mul_spec() -> bool {
        true
    }

    open spec fn mul_req(self, rhs: Vector<u32, N>) -> bool {
        cw_fits::<u32>(mul_seq(splat(self.to_int(), N as nat), ints(rhs@)))
    }

    open spec fn mul_spec(self, rhs: Vector<u32, N>) -> Vector<u32, N> {
        from_ints(mul_seq(splat(self.to_int(), N as nat), ints(rhs@)))
    }
}

/// `lhs * rhs` for every component of `rhs`.
impl<const N: usize> Mul<Vector<u32, N>> for u32 {
    type Output = Vector<u32, N>;

    fn mul(self, rhs: Vector<u32, N>) -> (r: Vector<u32, N>)
        ensures
            ints(r@) == mul_seq(splat(self.to_int(), N as nat), ints(rhs@)),
    {
        let s = Vector::<u32, N>::splat(self);
        proof {
            assert(ints(s@) =~= splat(self.to_int(), N as nat));
        }
        let r = mul_cw(&s, &rhs);
        proof {
            lemma_from_ints(r);
        }
        r
    }
}

impl<'a, const N: usize> vstd::std_specs::ops::MulSpecImpl<&'a Vector<u32, N>> for &'a u32 {
    open spec fn obeys_mul_spec() -> bool {
        true
    }

    open spec fn mul_req(self, rhs: &'a Vector<u32, N>) -> bool {
        cw_fits::<u32>(mul_seq(splat(self.to_int(), N as nat), ints(rhs@)))
    }

    open spec fn mul_spec(self, rhs: &'a Vector<u32, N>) -> Vector<u32, N> {
        from_ints(mul_seq(splat(self.to_int(), N as nat), ints(rhs@)))
    }
}

/// `lhs * rhs` for every component of `rhs`.
impl<'a, const N: usize> Mul<&'a Vector<u32, N>> for &'a u32 {
    type Output = Vector<u32, N>;

    fn mul(self, rhs: &'a Vector<u32, N>) -> (r: Vector<u32, N>)
        ensures
            ints(r@) == mul_seq(splat(self.to_int(), N as nat), ints(rhs@)),
    {
        let s = Vector::<u32, N>::splat(*self);
        proof {
            assert(ints(s@) =~= splat(self.to_int(), N as nat));
        }
        let r = mul_cw(&s, rhs);
        proof {
            lemma_from_ints(r);
        }
        r
    }
}

impl<const N: usize> vstd::std_specs::ops::DivSpecImpl<Vector<u32, N>> for u32 {
    open spec fn obeys_div_spec() -> bool {
        true
    }

    open spec fn div_req(self, rhs: Vector<u32, N>) -> bool {
        all_nonzero(ints(rhs@)) && cw_fits::<u32>(div_seq(splat(self.to_int(), N as nat), ints(rhs@)))
    }

    open spec fn div_spec(self, rhs: Vector<u32, N>) -> Vector<u32, N> {
        from_ints(div_seq(splat(self.to_int(), N as nat), ints(rhs@)))
    }
}

/// `lhs / rhs` for every component of `rhs`.
impl<const N: usize> Div<Vector<u32, N>> for u32 {
    type Output = Vector<u32, N>;

    fn div(self, rhs: Vector<u32, N>) -> (r: Vector<u32, N>)
        ensures
            ints(r@) == div_seq(splat(self.to_int(), N as nat), ints(rhs@)),
    {
        let s = Vector::<u32, N>::splat(self);
        proof {
            assert(ints(s@) =~= splat(self.to_int(), N as nat));
        }
        let r = div_cw(&s, &rhs);
        proof {
            lemma_from_ints(r);
        }
        r
    }
}

impl<'a, const N: usize> vstd::std_specs::ops::DivSpecImpl<&'a Vector<u32, N>> for &'a u32 {
    open spec fn obeys_div_spec() -> bool {
        true
    }

    open spec fn div_req(self, rhs: &'a Vector<u32, N>) -> bool {
        all_nonzero(ints(rhs@)) && cw_fits::<u32>(div_seq(splat(self.to_int(), N as nat), ints(rhs@)))
    }

    open spec fn div_spec(self, rhs: &'a Vector<u32, N>) -> Vector<u32, N> {
        from_ints(div_seq(splat(self.to_int(), N as nat), ints(rhs@)))
    }
}

/// `lhs / rhs` for every component of `rhs`.
impl<'a, const N: usize> Div<&'a Vector<u32, N>> for &'a u32 {
    type Output = Vector<u32, N>;

    fn div(self, rhs: &'a Vector<u32, N>) -> (r: Vector<u32, N>)
        ensures
            ints(r@) == div_seq(splat(self.to_int(), N as nat), ints(rhs@)),
    {
        let s = Vector::<u32, N>::splat(*self);
        proof {
            assert(ints(s@) =~= splat(self.to_int(), N as nat));
        }
        let r = div_cw(&s, rhs);
        proof {
            lemma_from_ints(r);
        }
        r
    }
}

impl<const N: usize> vstd::std_specs::ops::AddSpecImpl<Vector<u64, N>> for u64 {
    open spec fn obeys_add_spec() -> bool {
        true
    }

    open spec fn add_req(self, rhs: Vector<u64, N>) -> bool {
        cw_fits::<u64>(add_seq(splat(self.to_int(), N as nat), ints(rhs@)))
    }

    open spec fn add_spec(self, rhs: Vector<u64, N>) -> Vector<u64, N> {
        from_ints(add_seq(splat(self.to_int(), N as nat), ints(rhs@)))
    }
}

/// `lhs + rhs` for every component of `rhs`.
impl<const N: usize> Add<Vector<u64, N>> for u64 {
    type Output = Vector<u64, N>;

    fn add(self, rhs: Vector<u64, N>) -> (r: Vector<u64, N>)
        ensures
            ints(r@) == add_seq(splat(self.to_int(), N as nat), ints(rhs@)),
    {
        let s = Vector::<u64, N>::splat(self);
        proof {
            assert(ints(s@) =~= splat(self.to_int(), N as nat));
        }
        let r = add_cw(&s, &rhs);
        proof {
            lemma_from_ints(r);
        }
        r
    }
}

impl<'a, const N: usize> vstd::std_specs::ops::AddSpecImpl<&'a Vector<u64, N>> for &'a u64 {
    open spec fn obeys_add_spec() -> bool {
        true
    }

    open spec fn add_req(self, rhs: &'a Vector<u64, N>) -> bool {
        cw_fits::<u64>(add_seq(splat(self.to_int(), N as nat), ints(rhs@)))
    }

    open spec fn add_spec(self, rhs: &'a Vector<u64, N>) -> Vector<u64, N> {
        from_ints(add_seq(splat(self.to_int(), N as nat), ints(rhs@)))
    }
}

/// `lhs + rhs` for every component of `rhs`.
impl<'a, const N: usize> Add<&'a Vector<u64, N>> for &'a u64 {
    type Output = Vector<u64, N>;

    fn add(self, rhs: &'a Vector<u64, N>) -> (r: Vector<u64, N>)
        ensures
            ints(r@) == add_seq(splat(self.to_int(), N as nat), ints(rhs@)),
    {
        let s = Vector::<u64, N>::splat(*self);
        proof {
            assert(ints(s@) =~= splat(self.to_int(), N as nat));
        }
        let r = add_cw(&s, rhs);
        proof {
            lemma_from_ints(r);
        }
        r
    }
}

impl<const N: usize> vstd::std_specs::ops::SubSpecImpl<Vector<u64, N>> for u64 {
    open spec fn obeys_sub_spec() -> bool {
        true
    }

    open spec fn sub_req(self, rhs: Vector<u64, N>) -> bool {
        cw_fits::<u64>(sub_seq(splat(self.to_int(), N as nat), ints(rhs@)))
    }

    open spec fn sub_spec(self, rhs: Vector<u64, N>) -> Vector<u64, N> {
        from_ints(sub_seq(splat(self.to_int(), N as nat), ints(rhs@)))
    }
}

/// `lhs - rhs` for every component of `rhs`.
impl<const N: usize> Sub<Vector<u64, N>> for u64 {
    type Output = Vector<u64, N>;

    fn sub(self, rhs: Vector<u64, N>) -> (r: Vector<u64, N>)
        ensures
            ints(r@) == sub_seq(splat(self.to_int(), N as nat), ints(rhs@)),
    {
        let s = Vector::<u64, N>::splat(self);
        proof {
            assert(ints(s@) =~= splat(self.to_int(), N as nat));
        }
        let r = sub_cw(&s, &rhs);
        proof {
            lemma_from_ints(r);
        }
        r
    }
}

impl<'a, const N: usize> vstd::std_specs::ops::SubSpecImpl<&'a Vector<u64, N>> for &'a u64 {
    open spec fn obeys_sub_spec() -> bool {
        true
    }

    open spec fn sub_req(self, rhs: &'a Vector<u64, N>) -> bool {
        cw_fits::<u64>(sub_seq(splat(self.to_int(), N as nat), ints(rhs@)))
    }

    open spec fn sub_spec(self, rhs: &'a Vector<u64, N>) -> Vector<u64, N> {
        from_ints(sub_seq(splat(self.to_int(), N as nat), ints(rhs@)))
    }
}

/// `lhs - rhs` for every component of `rhs`.
impl<'a, const N: usize> Sub<&'a Vector<u64, N>> for &'a u64 {
    type Output = Vector<u64, N>;

    fn sub(self, rhs: &'a Vector<u64, N>) -> (r: Vector<u64, N>)
        ensures
            ints(r@) == sub_seq(splat(self.to_int(), N as nat), ints(rhs@)),
    {
        let s = Vector::<u64, N>::splat(*self);
        proof {
            assert(ints(s@) =~= splat(self.to_int(), N as nat));
        }
        let r = sub_cw(&s, rhs);
        proof {
            lemma_from_ints(r);
        }
        r
    }
}

impl<const N: usize> vstd::std_specs::ops::MulSpecImpl<Vector<u64, N>> for u64 {
    open spec fn obeys_mul_spec() -> bool {
        true
    }

    open spec fn mul_req(self, rhs: Vector<u64, N>) -> bool {
        cw_fits::<u64>(mul_seq(splat(self.to_int(), N as nat), ints(rhs@)))
    }

    open spec fn mul_spec(self, rhs: Vector<u64, N>) -> Vector<u64, N> {
        from_ints(mul_seq(splat(self.to_int(), N as nat), ints(rhs@)))
    }
}

/// `lhs * rhs` for every component of `rhs`.
impl<const N: usize> Mul<Vector<u64, N>> for u64 {
    type Output = Vector<u64, N>;

    fn mul(self, rhs: Vector<u64, N>) -> (r: Vector<u64, N>)
        ensures
            ints(r@) == mul_seq(splat(self.to_int(), N as nat), ints(rhs@)),
    {
        let s = Vector::<u64, N>::splat(self);
        proof {
            assert(ints(s@) =~= splat(self.to_int(), N as nat));
        }
        let r = mul_cw(&s, &rhs);
        proof {
            lemma_from_ints(r);
        }
        r
    }
}

impl<'a, const N: usize> vstd::std_specs::ops::MulSpecImpl<&'a Vector<u64, N>> for &'a u64 {
    open spec fn obeys_mul_spec() -> bool {
        true
    }

    open spec fn mul_req(self, rhs: &'a Vector<u64, N>) -> bool {
        cw_fits::<u64>(mul_seq(splat(self.to_int(), N as nat), ints(rhs@)))
    }

    open spec fn mul_spec(self, rhs: &'a Vector<u64, N>) -> Vector<u64, N> {
        from_ints(mul_seq(splat(self.to_int(), N as nat), ints(rhs@)))
    }
}

/// `lhs * rhs` for every component of `rhs`.
impl<'a, const N: usize> Mul<&'a Vector<u64, N>> for &'a u64 {
    type Output = Vector<u64, N>;

    fn mul(self, rhs: &'a Vector<u64, N>) -> (r: Vector<u64, N>)
        ensures
            ints(r@) == mul_seq(splat(self.to_int(), N as nat), ints(rhs@)),
    {
        let s = Vector::<u64, N>::splat(*self);
        proof {
            assert(ints(s@) =~= splat(self.to_int(), N as nat));
        }
        let r = mul_cw(&s, rhs);
        proof {
            lemma_from_ints(r);
        }
        r
    }
}

impl<const N: usize> vstd::std_specs::ops::DivSpecImpl<Vector<u64, N>> for u64 {
    open spec fn obeys_div_spec() -> bool {
        true
    }

    open spec fn div_req(self, rhs: Vector<u64, N>) -> bool {
        all_nonzero(ints(rhs@)) && cw_fits::<u64>(div_seq(splat(self.to_int(), N as nat), ints(rhs@)))
    }

    open spec fn div_spec(self, rhs: Vector<u64, N>) -> Vector<u64, N> {
        from_ints(div_seq(splat(self.to_int(), N as nat), ints(rhs@)))
    }
}

/// `lhs / rhs` for every component of `rhs`.
impl<const N: usize> Div<Vector<u64, N>> for u64 {
    type Output = Vector<u64, N>;

    fn div(self, rhs: Vector<u64, N>) -> (r: Vector<u64, N>)
        ensures
            ints(r@) == div_seq(splat(self.to_int(), N as nat), ints(rhs@)),
    {
        let s = Vector::<u64, N>::splat(self);
        proof {
            assert(ints(s@) =~= splat(self.to_int(), N as nat));
        }
        let r = div_cw(&s, &rhs);
        proof {
            lemma_from_ints(r);
        }
        r
    }
}

impl<'a, const N: usize> vstd::std_specs::ops::DivSpecImpl<&'a Vector<u64, N>> for &'a u64 {
    open spec fn obeys_div_spec() -> bool {
        true
    }

    open spec fn div_req(self, rhs: &'a Vector<u64, N>) -> bool {
        all_nonzero(ints(rhs@)) && cw_fits::<u64>(div_seq(splat(self.to_int(), N as nat), ints(rhs@)))
    }

    open spec fn div_spec(self, rhs: &'a Vector<u64, N>) -> Vector<u64, N> {
        from_ints(div_seq(splat(self.to_int(), N as nat), ints(rhs@)))
    }
}

/// `lhs / rhs` for every component of `rhs`.
impl<'a, const N: usize> Div<&'a Vector<u64, N>> for &'a u64 {
    type Output = Vector<u64, N>;

    fn div(self, rhs: &'a Vector<u64, N>) -> (r: Vector<u64, N>)
        ensures
            ints(r@) == div_seq(splat(self.to_int(), N as nat), ints(rhs@)),
    {
        let s = Vector::<u64, N>::splat(*self);
        proof {
            assert(ints(s@) =~= splat(self.to_int(), N as nat));
        }
        let r = div_cw(&s, rhs);
        proof {
            lemma_from_ints(r);
        }
        r
    }
}

impl<T: SignedType, const N: usize> vstd::std_specs::ops::NegSpecImpl for Vector<T, N> {
    open spec fn obeys_neg_spec() -> bool {
        true
    }

    open spec fn neg_req(self) -> bool {
        cw_fits::<T>(neg_seq(ints(self@)))
    }

    open spec fn neg_spec(self) -> Vector<T, N> {
        from_ints(neg_seq(ints(self@)))
    }
}

/// Component-wise negation.
impl<T: SignedType, const N: usize> Neg for Vector<T, N> {
    type Output = Vector<T, N>;

    fn neg(self) -> (r: Vector<T, N>)
        ensures
            ints(r@) == neg_seq(ints(self@)),
    {
        let r = neg_cw(&self);
        proof {
            lemma_from_ints(r);
        }
        r
    }
}

impl<'a, T: SignedType, const N: usize> vstd::std_specs::ops::NegSpecImpl for &'a Vector<T, N> {
    open spec fn obeys_neg_spec() -> bool {
        true
    }

    open spec fn neg_req(self) -> bool {
        cw_fits::<T>(neg_seq(ints(self@)))
    }

    open spec fn neg_spec(self) -> Vector<T, N> {
        from_ints(neg_seq(ints(self@)))
    }
}

/// Component-wise negation.
impl<'a, T: SignedType, const N: usize> Neg for &'a Vector<T, N> {
    type Output = Vector<T, N>;

    fn neg(self) -> (r: Vector<T, N>)
        ensures
            ints(r@) == neg_seq(ints(self@)),
    {
        let r = neg_cw(self);
        proof {
            lemma_from_ints(r);
        }
        r
    }
}

impl<const N: usize> vstd::std_specs::ops::NotSpecImpl for Vector<bool, N> {
    open spec fn obeys_not_spec() -> bool {
        true
    }

    open spec fn not_req(self) -> bool {
        true
    }

    open spec fn not_spec(self) -> Vector<bool, N> {
        from_seq(not_seq(self@))
    }
}

/// Component-wise logical negation.
impl<const N: usize> Not for Vector<bool, N> {
    type Output = Vector<bool, N>;

    fn not(self) -> (r: Vector<bool, N>)
        ensures
            r@ == not_seq(self@),
    {
        let r = not_vec(&self);
        proof {
            lemma_from_seq(r);
        }
        r
    }
}

impl<'a, const N: usize> vstd::std_specs::ops::NotSpecImpl for &'a Vector<bool, N> {
    open spec fn obeys_not_spec() -> bool {
        true
    }

    open spec fn not_req(self) -> bool {
        true
    }

    open spec fn not_spec(self) -> Vector<bool, N> {
        from_seq(not_seq(self@))
    }
}

/// Component-wise logical negation.
impl<'a, const N: usize> Not for &'a Vector<bool, N> {
    type Output = Vector<bool, N>;

    fn not(self) -> (r: Vector<bool, N>)
        ensures
            r@ == not_seq(self@),
    {
        let r = not_vec(self);
        proof {
            lemma_from_seq(r);
        }
        r
    }
}

impl<const N: usize> vstd::std_specs::ops::BitAndSpecImpl<Vector<bool, N>> for Vector<bool, N> {
    open spec fn obeys_bitand_spec() -> bool {
        true
    }

    open spec fn bitand_req(self, rhs: Vector<bool, N>) -> bool {
        true
    }

    open spec fn bitand_spec(self, rhs: Vector<bool, N>) -> Vector<bool, N> {
        from_seq(and_seq(self@, rhs@))
    }
}

/// Component-wise `lhs & rhs`.
impl<const N: usize> BitAnd<Vector<bool, N>> for Vector<bool, N> {
    type Output = Vector<bool, N>;

    fn bitand(self, rhs: Vector<bool, N>) -> (r: Vector<bool, N>)
        ensures
            r@ == and_seq(self@, rhs@),
    {
        let r = and_cw(&self, &rhs);
        proof {
            lemma_from_seq(r);
        }
        r
    }
}

impl<'a, const N: usize> vstd::std_specs::ops::BitAndSpecImpl<&'a Vector<bool, N>> for &'a Vector<bool, N> {
    open spec fn obeys_bitand_spec() -> bool {
        true
    }

    open spec fn bitand_req(self, rhs: &'a Vector<bool, N>) -> bool {
        true
    }

    open spec fn bitand_spec(self, rhs: &'a Vector<bool, N>) -> Vector<bool, N> {
        from_seq(and_seq(self@, rhs@))
    }
}

/// Component-wise `lhs & rhs`.
impl<'a, const N: usize> BitAnd<&'a Vector<bool, N>> for &'a Vector<bool, N> {
    type Output = Vector<bool, N>;

    fn bitand(self, rhs: &'a Vector<bool, N>) -> (r: Vector<bool, N>)
        ensures
            r@ == and_seq(self@, rhs@),
    {
        let r = and_cw(self, rhs);
        proof {
            lemma_from_seq(r);
        }
        r
    }
}

impl<const N: usize> vstd::std_specs::ops::BitAndSpecImpl<bool> for Vector<bool, N> {
    open spec fn obeys_bitand_spec() -> bool {
        true
    }

    open spec fn bitand_req(self, rhs: bool) -> bool {
        true
    }

    open spec fn bitand_spec(self, rhs: bool) -> Vector<bool, N> {
        from_seq(and_seq(self@, Seq::new(N as nat, |i: int| rhs)))
    }
}

/// `lhs & rhs` for every component of `lhs`.
impl<const N: usize> BitAnd<bool> for Vector<bool, N> {
    type Output = Vector<bool, N>;

    fn bitand(self, rhs: bool) -> (r: Vector<bool, N>)
        ensures
            r@ == and_seq(self@, Seq::new(N as nat, |i: int| rhs)),
    {
        let s = Vector::<bool, N>::splat(rhs);
        proof {
            assert(s@ =~= Seq::new(N as nat, |i: int| rhs));
        }
        let r = and_cw(&self, &s);
        proof {
            lemma_from_seq(r);
        }
        r
    }
}

impl<'a, const N: usize> vstd::std_specs::ops::BitAndSpecImpl<&'a bool> for &'a Vector<bool, N> {
    open spec fn obeys_bitand_spec() -> bool {
        true
    }

    open spec fn bitand_req(self, rhs: &'a bool) -> bool {
        true
    }

    open spec fn bitand_spec(self, rhs: &'a bool) -> Vector<bool, N> {
        from_seq(and_seq(self@, Seq::new(N as nat, |i: int| *rhs)))
    }
}

/// `lhs & rhs` for every component of `lhs`.
impl<'a, const N: usize> BitAnd<&'a bool> for &'a Vector<bool, N> {
    type Output = Vector<bool, N>;

    fn bitand(self, rhs: &'a bool) -> (r: Vector<bool, N>)
        ensures
            r@ == and_seq(self@, Seq::new(N as nat, |i: int| *rhs)),
    {
        let s = Vector::<bool, N>::splat(*rhs);
        proof {
            assert(s@ =~= Seq::new(N as nat, |i: int| *rhs));
        }
        let r = and_cw(self, &s);
        proof {
            lemma_from_seq(r);
        }
        r
    }
}

impl<const N: usize> vstd::std_specs::ops::BitAndSpecImpl<Vector<bool, N>> for bool {
    open spec fn obeys_bitand_spec() -> bool {
        true
    }

    open spec fn bitand_req(self, rhs: Vector<bool, N>) -> bool {
        true
    }

    open spec fn bitand_spec(self, rhs: Vector<bool, N>) -> Vector<bool, N> {
        from_seq(and_seq(Seq::new(N as nat, |i: int| self), rhs@))
    }
}

/// `lhs & rhs` for every component of `rhs`.
impl<const N: usize> BitAnd<Vector<bool, N>> for bool {
    type Output = Vector<bool, N>;

    fn bitand(self, rhs: Vector<bool, N>) -> (r: Vector<bool, N>)
        ensures
            r@ == and_seq(Seq::new(N as nat, |i: int| self), rhs@),
    {
        let s = Vector::<bool, N>::splat(self);
        proof {
            assert(s@ =~= Seq::new(N as nat, |i: int| self));
        }
        let r = and_cw(&s, &rhs);
        proof {
            lemma_from_seq(r);
        }
        r
    }
}

impl<'a, const N: usize> vstd::std_specs::ops::BitAndSpecImpl<&'a Vector<bool, N>> for &'a bool {
    open spec fn obeys_bitand_spec() -> bool {
        true
    }

    open spec fn bitand_req(self, rhs: &'a Vector<bool, N>) -> bool {
        true
    }

    open spec fn bitand_spec(self, rhs: &'a Vector<bool, N>) -> Vector<bool, N> {
        from_seq(and_seq(Seq::new(N as nat, |i: int| *self), rhs@))
    }
}

/// `lhs & rhs` for every component of `rhs`.
impl<'a, const N: usize> BitAnd<&'a Vector<bool, N>> for &'a bool {
    type Output = Vector<bool, N>;

    fn bitand(self, rhs: &'a Vector<bool, N>) -> (r: Vector<bool, N>)
        ensures
            r@ == and_seq(Seq::new(N as nat, |i: int| *self), rhs@),
    {
        let s = Vector::<bool, N>::splat(*self);
        proof {
            assert(s@ =~= Seq::new(N as nat, |i: int| *self));
        }
        let r = and_cw(&s, rhs);
        proof {
            lemma_from_seq(r);
        }
        r
    }
}

impl<const N: usize> vstd::std_specs::ops::BitOrSpecImpl<Vector<bool, N>> for Vector<bool, N> {
    open spec fn obeys_bitor_spec() -> bool {
        true
    }

    open spec fn bitor_req(self, rhs: Vector<bool, N>) -> bool {
        true
    }

    open spec fn bitor_spec(self, rhs: Vector<bool, N>) -> Vector<bool, N> {
        from_seq(or_seq(self@, rhs@))
    }
}

/// Component-wise `lhs | rhs`.
impl<const N: usize> BitOr<Vector<bool, N>> for Vector<bool, N> {
    type Output = Vector<bool, N>;

    fn bitor(self, rhs: Vector<bool, N>) -> (r: Vector<bool, N>)
        ensures
            r@ == or_seq(self@, rhs@),
    {
        let r = or_cw(&self, &rhs);
        proof {
            lemma_from_seq(r);
        }
        r
    }
}

impl<'a, const N: usize> vstd::std_specs::ops::BitOrSpecImpl<&'a Vector<bool, N>> for &'a Vector<bool, N> {
    open spec fn obeys_bitor_spec() -> bool {
        true
    }

    open spec fn bitor_req(self, rhs: &'a Vector<bool, N>) -> bool {
        true
    }

    open spec fn bitor_spec(self, rhs: &'a Vector<bool, N>) -> Vector<bool, N> {
        from_seq(or_seq(self@, rhs@))
    }
}

/// Component-wise `lhs | rhs`.
impl<'a, const N: usize> BitOr<&'a Vector<bool, N>> for &'a Vector<bool, N> {
    type Output = Vector<bool, N>;

    fn bitor(self, rhs: &'a Vector<bool, N>) -> (r: Vector<bool, N>)
        ensures
            r@ == or_seq(self@, rhs@),
    {
        let r = or_cw(self, rhs);
        proof {
            lemma_from_seq(r);
        }
        r
    }
}

impl<const N: usize> vstd::std_specs::ops::BitOrSpecImpl<bool> for Vector<bool, N> {
    open spec fn obeys_bitor_spec() -> bool {
        true
    }

    open spec fn bitor_req(self, rhs: bool) -> bool {
        true
    }

    open spec fn bitor_spec(self, rhs: bool) -> Vector<bool, N> {
        from_seq(or_seq(self@, Seq::new(N as nat, |i: int| rhs)))
    }
}

/// `lhs | rhs` for every component of `lhs`.
impl<const N: usize> BitOr<bool> for Vector<bool, N> {
    type Output = Vector<bool, N>;

    fn bitor(self, rhs: bool) -> (r: Vector<bool, N>)
        ensures
            r@ == or_seq(self@, Seq::new(N as nat, |i: int| rhs)),
    {
        let s = Vector::<bool, N>::splat(rhs);
        proof {
            assert(s@ =~= Seq::new(N as nat, |i: int| rhs));
        }
        let r = or_cw(&self, &s);
        proof {
            lemma_from_seq(r);
        }
        r
    }
}

impl<'a, const N: usize> vstd::std_specs::ops::BitOrSpecImpl<&'a bool> for &'a Vector<bool, N> {
    open spec fn obeys_bitor_spec() -> bool {
        true
    }

    open spec fn bitor_req(self, rhs: &'a bool) -> bool {
        true
    }

    open spec fn bitor_spec(self, rhs: &'a bool) -> Vector<bool, N> {
        from_seq(or_seq(self@, Seq::new(N as nat, |i: int| *rhs)))
    }
}

/// `lhs | rhs` for every component of `lhs`.
impl<'a, const N: usize> BitOr<&'a bool> for &'a Vector<bool, N> {
    type Output = Vector<bool, N>;

    fn bitor(self, rhs: &'a bool) -> (r: Vector<bool, N>)
        ensures
            r@ == or_seq(self@, Seq::new(N as nat, |i: int| *rhs)),
    {
        let s = Vector::<bool, N>::splat(*rhs);
        proof {
            assert(s@ =~= Seq::new(N as nat, |i: int| *rhs));
        }
        let r = or_cw(self, &s);
        proof {
            lemma_from_seq(r);
        }
        r
    }
}

impl<const N: usize> vstd::std_specs::ops::BitOrSpecImpl<Vector<bool, N>> for bool {
    open spec fn obeys_bitor_spec() -> bool {
        true
    }

    open spec fn bitor_req(self, rhs: Vector<bool, N>) -> bool {
        true
    }

    open spec fn bitor_spec(self, rhs: Vector<bool, N>) -> Vector<bool, N> {
        from_seq(or_seq(Seq::new(N as nat, |i: int| self), rhs@))
    }
}

/// `lhs | rhs` for every component of `rhs`.
impl<const N: usize> BitOr<Vector<bool, N>> for bool {
    type Output = Vector<bool, N>;

    fn bitor(self, rhs: Vector<bool, N>) -> (r: Vector<bool, N>)
        ensures
            r@ == or_seq(Seq::new(N as nat, |i: int| self), rhs@),
    {
        let s = Vector::<bool, N>::splat(self);
        proof {
            assert(s@ =~= Seq::new(N as nat, |i: int| self));
        }
        let r = or_cw(&s, &rhs);
        proof {
            lemma_from_seq(r);
        }
        r
    }
}

impl<'a, const N: usize> vstd::std_specs::ops::BitOrSpecImpl<&'a Vector<bool, N>> for &'a bool {
    open spec fn obeys_bitor_spec() -> bool {
        true
    }

    open spec fn bitor_req(self, rhs: &'a Vector<bool, N>) -> bool {
        true
    }

    open spec fn bitor_spec(self, rhs: &'a Vector<bool, N>) -> Vector<bool, N> {
        from_seq(or_seq(Seq::new(N as nat, |i: int| *self), rhs@))
    }
}

/// `lhs | rhs` for every component of `rhs`.
impl<'a, const N: usize> BitOr<&'a Vector<bool, N>> for &'a bool {
    type Output = Vector<bool, N>;

    fn bitor(self, rhs: &'a Vector<bool, N>) -> (r: Vector<bool, N>)
        ensures
            r@ == or_seq(Seq::new(N as nat, |i: int| *self), rhs@),
    {
        let s = Vector::<bool, N>::splat(*self);
        proof {
            assert(s@ =~= Seq::new(N as nat, |i: int| *self));
        }
        let r = or_cw(&s, rhs);
        proof {
            lemma_from_seq(r);
        }
        r
    }
}

impl<const N: usize> vstd::std_specs::ops::BitXorSpecImpl<Vector<bool, N>> for Vector<bool, N> {
    open spec fn obeys_bitxor_spec() -> bool {
        true
    }

    open spec fn bitxor_req(self, rhs: Vector<bool, N>) -> bool {
        true
    }

    open spec fn bitxor_spec(self, rhs: Vector<bool, N>) -> Vector<bool, N> {
        from_seq(xor_seq(self@, rhs@))
    }
}

/// Component-wise `lhs ^ rhs`.
impl<const N: usize> BitXor<Vector<bool, N>> for Vector<bool, N> {
    type Output = Vector<bool, N>;

    fn bitxor(self, rhs: Vector<bool, N>) -> (r: Vector<bool, N>)
        ensures
            r@ == xor_seq(self@, rhs@),
    {
        let r = xor_cw(&self, &rhs);
        proof {
            lemma_from_seq(r);
        }
        r
    }
}

impl<'a, const N: usize> vstd::std_specs::ops::BitXorSpecImpl<&'a Vector<bool, N>> for &'a Vector<bool, N> {
    open spec fn obeys_bitxor_spec() -> bool {
        true
    }

    open spec fn bitxor_req(self, rhs: &'a Vector<bool, N>) -> bool {
        true
    }

    open spec fn bitxor_spec(self, rhs: &'a Vector<bool, N>) -> Vector<bool, N> {
        from_seq(xor_seq(self@, rhs@))
    }
}

/// Component-wise `lhs ^ rhs`.
impl<'a, const N: usize> BitXor<&'a Vector<bool, N>> for &'a Vector<bool, N> {
    type Output = Vector<bool, N>;

    fn bitxor(self, rhs: &'a Vector<bool, N>) -> (r: Vector<bool, N>)
        ensures
            r@ == xor_seq(self@, rhs@),
    {
        let r = xor_cw(self, rhs);
        proof {
            lemma_from_seq(r);
        }
        r
    }
}

impl<const N: usize> vstd::std_specs::ops::BitXorSpecImpl<bool> for Vector<bool, N> {
    open spec fn obeys_bitxor_spec() -> bool {
        true
    }

    open spec fn bitxor_req(self, rhs: bool) -> bool {
        true
    }

    open spec fn bitxor_spec(self, rhs: bool) -> Vector<bool, N> {
        from_seq(xor_seq(self@, Seq::new(N as nat, |i: int| rhs)))
    }
}

/// `lhs ^ rhs` for every component of `lhs`.
impl<const N: usize> BitXor<bool> for Vector<bool, N> {
    type Output = Vector<bool, N>;

    fn bitxor(self, rhs: bool) -> (r: Vector<bool, N>)
        ensures
            r@ == xor_seq(self@, Seq::new(N as nat, |i: int| rhs)),
    {
        let s = Vector::<bool, N>::splat(rhs);
        proof {
            assert(s@ =~= Seq::new(N as nat, |i: int| rhs));
        }
        let r = xor_cw(&self, &s);
        proof {
            lemma_from_seq(r);
        }
        r
    }
}

impl<'a, const N: usize> vstd::std_specs::ops::BitXorSpecImpl<&'a bool> for &'a Vector<bool, N> {
    open spec fn obeys_bitxor_spec() -> bool {
        true
    }

    open spec fn bitxor_req(self, rhs: &'a bool) -> bool {
        true
    }

    open spec fn bitxor_spec(self, rhs: &'a bool) -> Vector<bool, N> {
        from_seq(xor_seq(self@, Seq::new(N as nat, |i: int| *rhs)))
    }
}

/// `lhs ^ rhs` for every component of `lhs`.
impl<'a, const N: usize> BitXor<&'a bool> for &'a Vector<bool, N> {
    type Output = Vector<bool, N>;

    fn bitxor(self, rhs: &'a bool) -> (r: Vector<bool, N>)
        ensures
            r@ == xor_seq(self@, Seq::new(N as nat, |i: int| *rhs)),
    {
        let s = Vector::<bool, N>::splat(*rhs);
        proof {
            assert(s@ =~= Seq::new(N as nat, |i: int| *rhs));
        }
        let r = xor_cw(self, &s);
        proof {
            lemma_from_seq(r);
        }
        r
    }
}

impl<const N: usize> vstd::std_specs::ops::BitXorSpecImpl<Vector<bool, N>> for bool {
    open spec fn obeys_bitxor_spec() -> bool {
        true
    }

    open spec fn bitxor_req(self, rhs: Vector<bool, N>) -> bool {
        true
    }

    open spec fn bitxor_spec(self, rhs: Vector<bool, N>) -> Vector<bool, N> {
        from_seq(xor_seq(Seq::new(N as nat, |i: int| self), rhs@))
    }
}

/// `lhs ^ rhs` for every component of `rhs`.
impl<const N: usize> BitXor<Vector<bool, N>> for bool {
    type Output = Vector<bool, N>;

    fn bitxor(self, rhs: Vector<bool, N>) -> (r: Vector<bool, N>)
        ensures
            r@ == xor_seq(Seq::new(N as nat, |i: int| self), rhs@),
    {
        let s = Vector::<bool, N>::splat(self);
        proof {
            assert(s@ =~= Seq::new(N as nat, |i: int| self));
        }
        let r = xor_cw(&s, &rhs);
        proof {
            lemma_from_seq(r);
        }
        r
    }
}

impl<'a, const N: usize> vstd::std_specs::ops::BitXorSpecImpl<&'a Vector<bool, N>> for &'a bool {
    open spec fn obeys_bitxor_spec() -> bool {
        true
    }

    open spec fn bitxor_req(self, rhs: &'a Vector<bool, N>) -> bool {
        true
    }

    open spec fn bitxor_spec(self, rhs: &'a Vector<bool, N>) -> Vector<bool, N> {
        from_seq(xor_seq(Seq::new(N as nat, |i: int| *self), rhs@))
    }
}

/// `lhs ^ rhs` for every component of `rhs`.
impl<'a, const N: usize> BitXor<&'a Vector<bool, N>> for &'a bool {
    type Output = Vector<bool, N>;

    fn bitxor(self, rhs: &'a Vector<bool, N>) -> (r: Vector<bool, N>)
        ensures
            r@ == xor_seq(Seq::new(N as nat, |i: int| *self), rhs@),
    {
        let s = Vector::<bool, N>::splat(*self);
        proof {
            assert(s@ =~= Seq::new(N as nat, |i: int| *self));
        }
        let r = xor_cw(&s, rhs);
        proof {
            lemma_from_seq(r);
        }
        r
    }
}

// ===================================================
// Conversions between vectors and arrays
// ===================================================

/// The array whose components are `s`.
pub open spec fn array_from_seq<T, const N: usize>(s: Seq<T>) -> [T; N] {
    choose|a: [T; N]| a@ == s
}

/// Two arrays with the same components are the same array.
proof fn lemma_array_injective<T, const N: usize>(a: [T; N], b: [T; N])
    requires
        a@ == b@,
    ensures
        a == b,
{
    assert(a =~= b) by {
        assert forall|i: int| 0 <= i < N implies a[i] == b[i] by {
            assert(a@[i] == b@[i]);
        }
    }
}

impl<T: VectorizedType, const N: usize> vstd::std_specs::convert::FromSpecImpl<[T; N]> for Vector<T, N> {
    open spec fn obeys_from_spec() -> bool {
        true
    }

    open spec fn from_spec(v: [T; N]) -> Vector<T, N> {
        from_seq(v@)
    }
}

/// The vector with the components of the array.
impl<T: VectorizedType, const N: usize> From<[T; N]> for Vector<T, N> {
    fn from(data: [T; N]) -> (r: Vector<T, N>)
        ensures
            r@ == data@,
    {
        let r = Vector::new(data);
        proof {
            lemma_from_seq(r);
        }
        r
    }
}

impl<'a, T: VectorizedType, const N: usize> vstd::std_specs::convert::FromSpecImpl<&'a [T; N]> for Vector<T, N> {
    open spec fn obeys_from_spec() -> bool {
        true
    }

    open spec fn from_spec(v: &'a [T; N]) -> Vector<T, N> {
        from_seq(v@)
    }
}

/// The vector with the components of the array.
impl<'a, T: VectorizedType, const N: usize> From<&'a [T; N]> for Vector<T, N> {
    fn from(data: &'a [T; N]) -> (r: Vector<T, N>)
        ensures
            r@ == data@,
    {
        let r = Vector::new(*data);
        proof {
            lemma_from_seq(r);
        }
        r
    }
}

impl<T: VectorizedType, const N: usize> vstd::std_specs::convert::FromSpecImpl<Vector<T, N>> for [T; N] {
    open spec fn obeys_from_spec() -> bool {
        true
    }

    open spec fn from_spec(v: Vector<T, N>) -> [T; N] {
        array_from_seq(v@)
    }
}

/// The components of the vector as an array.
impl<T: VectorizedType, const N: usize> From<Vector<T, N>> for [T; N] {
    fn from(vec: Vector<T, N>) -> (r: [T; N])
        ensures
            r@ == vec@,
    {
        let r = vec.to_array();
        proof {
            let c = array_from_seq::<T, N>(vec@);
            assert(c@ == vec@);
            lemma_array_injective(c, r);
        }
        r
    }
}

impl<'a, T: VectorizedType, const N: usize> vstd::std_specs::convert::FromSpecImpl<&'a Vector<T, N>> for [T; N] {
    open spec fn obeys_from_spec() -> bool {
        true
    }

    open spec fn from_spec(v: &'a Vector<T, N>) -> [T; N] {
        array_from_seq(v@)
    }
}

/// The components of the vector as an array.
impl<'a, T: VectorizedType, const N: usize> From<&'a Vector<T, N>> for [T; N] {
    fn from(vec: &'a Vector<T, N>) -> (r: [T; N])
        ensures
            r@ == vec@,
    {
        let r = vec.to_array();
        proof {
            let c = array_from_seq::<T, N>(vec@);
            assert(c@ == vec@);
            lemma_array_injective(c, r);
        }
        r
    }
}

impl<T: VectorizedType, const N: usize> vstd::std_specs::core::IndexSpecImpl<usize> for Vector<T, N> {
    open spec fn index_req(&self, index: &usize) -> bool {
        *index < N
    }
}

/// The component at an index below `N`.
impl<T: VectorizedType, const N: usize> Index<usize> for Vector<T, N> {
    type Output = T;

    fn index(&self, i: usize) -> (r: &T)
        ensures
            *r == self@[i as int],
    {
        self.get(i)
    }
}

} // verus!
