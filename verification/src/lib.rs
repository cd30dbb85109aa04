//! Small linear-algebra toolkit for graphics code: fixed-size vectors with
//! component-wise arithmetic and comparisons, matrices with their products,
//! determinants and adjugates, and angles tagged with their unit. The module
//! `laws` states and proves the algebraic laws that the operations obey.
//!
//! Every operation is stated over the mathematical integers that the components
//! stand for; an operation whose intermediate values would leave the range of the
//! component type is excluded by its precondition, as it would panic.
use vstd::prelude::*;

pub mod angle;
pub mod laws;
pub mod laws_defining;
pub mod matrix;
pub mod matrix_ops;
pub mod scalar;
pub mod swizzle;
pub mod vector;
pub mod vector_ops;

verus! {

/// Default signed integer component type.
pub type DefaultInt = i32;

/// Default unsigned integer component type.
pub type DefaultUint = u32;

/// Whether `v` lies in the range of the component type `T`.
pub open spec fn fits<T: ArithmeticAssign>(v: int) -> bool {
    T::lowest() <= v <= T::highest()
}

/// Truncating integer division, as Rust's `/` computes it on integers.
pub open spec fn trunc_div(a: int, b: int) -> int {
    if a >= 0 {
        a / b
    } else {
        -((-a) / b)
    }
}

/// Dividing by -1 negates.
pub proof fn lemma_trunc_div_neg_one(a: int)
    ensures
        trunc_div(a, -1) == -a,
{
    assert(a / -1 == -a) by (nonlinear_arith);
    assert((-a) / -1 == a) by (nonlinear_arith);
}

/// Anything that can be a component of a vector: copied freely, compared for
/// equality, and with a default value.
pub trait VectorizedType: Copy + Sized {
    /// The value that `default_value` returns.
    spec fn spec_default() -> Self;

    /// The default component (zero for numbers, `false` for booleans).
    fn default_value() -> (r: Self)
        ensures
            r == Self::spec_default(),
    ;

    /// Equality of two components.
    fn eq_val(&self, other: &Self) -> (r: bool)
        ensures
            r == (*self == *other),
    ;
}

/// Numbers that support `+=`, `-=`, `*=` and `/=`. Each value stands for a
/// mathematical integer within the range `lowest() ..= highest()`.
pub trait ArithmeticAssign: Sized {
    /// The integer that a value stands for.
    spec fn to_int(self) -> int;

    /// Least representable integer.
    spec fn lowest() -> int;

    /// Greatest representable integer.
    spec fn highest() -> int;

    /// Every value lies in the range.
    proof fn lemma_range(self)
        ensures
            Self::lowest() <= self.to_int() <= Self::highest(),
    ;

    /// The range holds 0 and 1.
    proof fn lemma_bounds()
        ensures
            Self::lowest() <= 0,
            1 <= Self::highest(),
    ;

    /// Two values that stand for the same integer are the same value.
    proof fn lemma_injective(self, other: Self)
        ensures
            self.to_int() == other.to_int() ==> self == other,
    ;

    /// `*self += rhs`
    fn add_assign_val(&mut self, rhs: Self)
        requires
            Self::lowest() <= old(self).to_int() + rhs.to_int() <= Self::highest(),
        ensures
            final(self).to_int() == old(self).to_int() + rhs.to_int(),
    ;

    /// `*self -= rhs`
    fn sub_assign_val(&mut self, rhs: Self)
        requires
            Self::lowest() <= old(self).to_int() - rhs.to_int() <= Self::highest(),
        ensures
            final(self).to_int() == old(self).to_int() - rhs.to_int(),
    ;

    /// `*self *= rhs`
    fn mul_assign_val(&mut self, rhs: Self)
        requires
            Self::lowest() <= old(self).to_int() * rhs.to_int() <= Self::highest(),
        ensures
            final(self).to_int() == old(self).to_int() * rhs.to_int(),
    ;

    /// `*self /= rhs`, rounding toward zero.
    fn div_assign_val(&mut self, rhs: Self)
        requires
            rhs.to_int() != 0,
            Self::lowest() <= trunc_div(old(self).to_int(), rhs.to_int()) <= Self::highest(),
        ensures
            final(self).to_int() == trunc_div(old(self).to_int(), rhs.to_int()),
    ;
}

/// Numbers with `+`, `-`, `*`, `/`, an order, zero and one.
pub trait ArithmeticType: VectorizedType + ArithmeticAssign {
    /// The default component stands for 0.
    proof fn lemma_default_is_zero()
        ensures
            Self::spec_default().to_int() == 0,
    ;

    /// The number 0.
    fn zero() -> (r: Self)
        ensures
            r.to_int() == 0,
    ;

    /// The number 1.
    fn one() -> (r: Self)
        ensures
            r.to_int() == 1,
    ;

    /// `self + rhs`
    fn add_val(self, rhs: Self) -> (r: Self)
        requires
            Self::lowest() <= self.to_int() + rhs.to_int() <= Self::highest(),
        ensures
            r.to_int() == self.to_int() + rhs.to_int(),
    ;

    /// `self - rhs`
    fn sub_val(self, rhs: Self) -> (r: Self)
        requires
            Self::lowest() <= self.to_int() - rhs.to_int() <= Self::highest(),
        ensures
            r.to_int() == self.to_int() - rhs.to_int(),
    ;

    /// `self * rhs`
    fn mul_val(self, rhs: Self) -> (r: Self)
        requires
            Self::lowest() <= self.to_int() * rhs.to_int() <= Self::highest(),
        ensures
            r.to_int() == self.to_int() * rhs.to_int(),
    ;

    /// `self / rhs`, rounding toward zero.
    fn div_val(self, rhs: Self) -> (r: Self)
        requires
            rhs.to_int() != 0,
            Self::lowest() <= trunc_div(self.to_int(), rhs.to_int()) <= Self::highest(),
        ensures
            r.to_int() == trunc_div(self.to_int(), rhs.to_int()),
    ;

    /// `self < rhs`
    fn lt_val(self, rhs: Self) -> (r: bool)
        ensures
            r == (self.to_int() < rhs.to_int()),
    ;

    /// `self <= rhs`
    fn le_val(self, rhs: Self) -> (r: bool)
        ensures
            r == (self.to_int() <= rhs.to_int()),
    ;

    /// The number 2, computed as `1 + 1`.
    fn two() -> (r: Self)
        requires
            2 <= Self::highest(),
        ensures
            r.to_int() == 2,
    {
        proof {
            Self::lemma_bounds();
        }
        Self::one().add_val(Self::one())
    }

    /// The number 3, computed as `1 + 2`.
    fn three() -> (r: Self)
        requires
            3 <= Self::highest(),
        ensures
            r.to_int() == 3,
    {
        proof {
            Self::lemma_bounds();
        }
        Self::one().add_val(Self::two())
    }

    /// The number 4, computed as `2 + 2`.
    fn four() -> (r: Self)
        requires
            4 <= Self::highest(),
        ensures
            r.to_int() == 4,
    {
        proof {
            Self::lemma_bounds();
        }
        Self::two().add_val(Self::two())
    }

    /// The number 6, computed as `2 + 4`.
    fn six() -> (r: Self)
        requires
            6 <= Self::highest(),
        ensures
            r.to_int() == 6,
    {
        proof {
            Self::lemma_bounds();
        }
        Self::two().add_val(Self::four())
    }

    /// The number 8, computed as `4 + 4`.
    fn eight() -> (r: Self)
        requires
            8 <= Self::highest(),
        ensures
            r.to_int() == 8,
    {
        proof {
            Self::lemma_bounds();
        }
        Self::four().add_val(Self::four())
    }

    /// The number 10, computed as `2 + 8`.
    fn ten() -> (r: Self)
        requires
            10 <= Self::highest(),
        ensures
            r.to_int() == 10,
    {
        proof {
            Self::lemma_bounds();
        }
        Self::two().add_val(Self::eight())
    }

    /// The number 180, computed as `3 * 6 * 10`.
    fn one_eighty() -> (r: Self)
        requires
            180 <= Self::highest(),
        ensures
            r.to_int() == 180,
    {
        proof {
            Self::lemma_bounds();
        }
        Self::three().mul_val(Self::six()).mul_val(Self::ten())
    }

    /// The number 360, computed as `6 * 6 * 10`.
    fn three_sixty() -> (r: Self)
        requires
            360 <= Self::highest(),
        ensures
            r.to_int() == 360,
    {
        proof {
            Self::lemma_bounds();
        }
        Self::six().mul_val(Self::six()).mul_val(Self::ten())
    }
}

/// Numbers with a sign: negation and absolute value.
pub trait SignedType: ArithmeticType {
    /// The range reaches below zero.
    proof fn lemma_signed()
        ensures
            Self::lowest() < 0,
    ;

    /// `-self`
    fn neg_val(self) -> (r: Self)
        requires
            Self::lowest() <= -self.to_int() <= Self::highest(),
        ensures
            r.to_int() == -self.to_int(),
    ;

    /// `|self|`
    fn abs_val(self) -> (r: Self)
        requires
            Self::lowest() <= -self.to_int() <= Self::highest(),
        ensures
            r.to_int() == (if self.to_int() < 0 { -self.to_int() } else { self.to_int() }),
    ;
}

/// Signed integers.
pub trait IntType: SignedType {
    /// The range is that of two's complement: one more value below zero than above.
    proof fn lemma_twos_complement()
        ensures
            Self::lowest() == -Self::highest() - 1,
    ;
}

/// Unsigned integers.
pub trait UintType: ArithmeticType {
    /// The range starts at zero.
    proof fn lemma_unsigned()
        ensures
            Self::lowest() == 0,
    ;
}

/// The inverse of a value (of a matrix or a quaternion).
pub trait Inverse: Sized {
    fn inverse(&self) -> Self;
}

/// The squared length of a value.
pub trait LengthSq {
    type Output;

    /// Whether the squared length can be computed without overflow.
    spec fn length_sq_req(&self) -> bool;

    fn length_sq(&self) -> Self::Output
        requires
            self.length_sq_req(),
    ;
}

/// The length of a value.
pub trait Length {
    type Output;

    fn length(&self) -> Self::Output;
}

/// The value scaled to unit length.
pub trait Normalize: Sized {
    fn normalize(&self) -> Self;
}

} // verus!
