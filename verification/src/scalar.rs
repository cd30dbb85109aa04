//! The component types that vectors are made of: booleans and the machine
//! integers, each standing for the mathematical integer of the same value.
use crate::{lemma_trunc_div_neg_one, ArithmeticAssign, ArithmeticType, IntType, SignedType, UintType, VectorizedType};
use vstd::prelude::*;

verus! {

impl VectorizedType for bool {
    open spec fn spec_default() -> bool {
        false
    }

    fn default_value() -> (r: bool) {
        false
    }

    fn eq_val(&self, other: &bool) -> (r: bool) {
        *self == *other
    }
}

impl VectorizedType for i8 {
    open spec fn spec_default() -> i8 {
        0
    }

    fn default_value() -> (r: i8) {
        0
    }

    fn eq_val(&self, other: &i8) -> (r: bool) {
        *self == *other
    }
}

impl ArithmeticAssign for i8 {
    open spec fn to_int(self) -> int {
        self as int
    }

    open spec fn lowest() -> int {
        i8::MIN as int
    }

    open spec fn highest() -> int {
        i8::MAX as int
    }

    proof fn lemma_range(self) {
    }

    proof fn lemma_injective(self, other: i8) {
    }

    proof fn lemma_bounds() {
    }

    fn add_assign_val(&mut self, rhs: i8) {
        *self = *self + rhs;
    }

    fn sub_assign_val(&mut self, rhs: i8) {
        *self = *self - rhs;
    }

    fn mul_assign_val(&mut self, rhs: i8) {
        *self = *self * rhs;
    }

    fn div_assign_val(&mut self, rhs: i8) {
        proof {
            if *self == i8::MIN && rhs == -1 {
                lemma_trunc_div_neg_one(*self as int);
            }
        }
        *self = *self / rhs;
    }
}

impl ArithmeticType for i8 {
    proof fn lemma_default_is_zero() {
    }

    fn zero() -> (r: i8) {
        0
    }

    fn one() -> (r: i8) {
        1
    }

    fn add_val(self, rhs: i8) -> (r: i8) {
        self + rhs
    }

    fn sub_val(self, rhs: i8) -> (r: i8) {
        self - rhs
    }

    fn mul_val(self, rhs: i8) -> (r: i8) {
        self * rhs
    }

    fn div_val(self, rhs: i8) -> (r: i8) {
        proof {
            if self == i8::MIN && rhs == -1 {
                lemma_trunc_div_neg_one(self as int);
            }
        }
        self / rhs
    }

    fn lt_val(self, rhs: i8) -> (r: bool) {
        self < rhs
    }

    fn le_val(self, rhs: i8) -> (r: bool) {
        self <= rhs
    }
}

impl SignedType for i8 {
    proof fn lemma_signed() {
    }

    fn neg_val(self) -> (r: i8) {
        -self
    }

    fn abs_val(self) -> (r: i8) {
        if self < 0 {
            -self
        } else {
            self
        }
    }
}

impl IntType for i8 {
    proof fn lemma_twos_complement() {
    }
}

impl VectorizedType for i16 {
    open spec fn spec_default() -> i16 {
        0
    }

    fn default_value() -> (r: i16) {
        0
    }

    fn eq_val(&self, other: &i16) -> (r: bool) {
        *self == *other
    }
}

impl ArithmeticAssign for i16 {
    open spec fn to_int(self) -> int {
        self as int
    }

    open spec fn lowest() -> int {
        i16::MIN as int
    }

    open spec fn highest() -> int {
        i16::MAX as int
    }

    proof fn lemma_range(self) {
    }

    proof fn lemma_injective(self, other: i16) {
    }

    proof fn lemma_bounds() {
    }

    fn add_assign_val(&mut self, rhs: i16) {
        *self = *self + rhs;
    }

    fn sub_assign_val(&mut self, rhs: i16) {
        *self = *self - rhs;
    }

    fn mul_assign_val(&mut self, rhs: i16) {
        *self = *self * rhs;
    }

    fn div_assign_val(&mut self, rhs: i16) {
        proof {
            if *self == i16::MIN && rhs == -1 {
                lemma_trunc_div_neg_one(*self as int);
            }
        }
        *self = *self / rhs;
    }
}

impl ArithmeticType for i16 {
    proof fn lemma_default_is_zero() {
    }

    fn zero() -> (r: i16) {
        0
    }

    fn one() -> (r: i16) {
        1
    }

    fn add_val(self, rhs: i16) -> (r: i16) {
        self + rhs
    }

    fn sub_val(self, rhs: i16) -> (r: i16) {
        self - rhs
    }

    fn mul_val(self, rhs: i16) -> (r: i16) {
        self * rhs
    }

    fn div_val(self, rhs: i16) -> (r: i16) {
        proof {
            if self == i16::MIN && rhs == -1 {
                lemma_trunc_div_neg_one(self as int);
            }
        }
        self / rhs
    }

    fn lt_val(self, rhs: i16) -> (r: bool) {
        self < rhs
    }

    fn le_val(self, rhs: i16) -> (r: bool) {
        self <= rhs
    }
}

impl SignedType for i16 {
    proof fn lemma_signed() {
    }

    fn neg_val(self) -> (r: i16) {
        -self
    }

    fn abs_val(self) -> (r: i16) {
        if self < 0 {
            -self
        } else {
            self
        }
    }
}

impl IntType for i16 {
    proof fn lemma_twos_complement() {
    }
}

impl VectorizedType for i32 {
    open spec fn spec_default() -> i32 {
        0
    }

    fn default_value() -> (r: i32) {
        0
    }

    fn eq_val(&self, other: &i32) -> (r: bool) {
        *self == *other
    }
}

impl ArithmeticAssign for i32 {
    open spec fn to_int(self) -> int {
        self as int
    }

    open spec fn lowest() -> int {
        i32::MIN as int
    }

    open spec fn highest() -> int {
        i32::MAX as int
    }

    proof fn lemma_range(self) {
    }

    proof fn lemma_injective(self, other: i32) {
    }

    proof fn lemma_bounds() {
    }

    fn add_assign_val(&mut self, rhs: i32) {
        *self = *self + rhs;
    }

    fn sub_assign_val(&mut self, rhs: i32) {
        *self = *self - rhs;
    }

    fn mul_assign_val(&mut self, rhs: i32) {
        *self = *self * rhs;
    }

    fn div_assign_val(&mut self, rhs: i32) {
        proof {
            if *self == i32::MIN && rhs == -1 {
                lemma_trunc_div_neg_one(*self as int);
            }
        }
        *self = *self / rhs;
    }
}

impl ArithmeticType for i32 {
    proof fn lemma_default_is_zero() {
    }

    fn zero() -> (r: i32) {
        0
    }

    fn one() -> (r: i32) {
        1
    }

    fn add_val(self, rhs: i32) -> (r: i32) {
        self + rhs
    }

    fn sub_val(self, rhs: i32) -> (r: i32) {
        self - rhs
    }

    fn mul_val(self, rhs: i32) -> (r: i32) {
        self * rhs
    }

    fn div_val(self, rhs: i32) -> (r: i32) {
        proof {
            if self == i32::MIN && rhs == -1 {
                lemma_trunc_div_neg_one(self as int);
            }
        }
        self / rhs
    }

    fn lt_val(self, rhs: i32) -> (r: bool) {
        self < rhs
    }

    fn le_val(self, rhs: i32) -> (r: bool) {
        self <= rhs
    }
}

impl SignedType for i32 {
    proof fn lemma_signed() {
    }

    fn neg_val(self) -> (r: i32) {
        -self
    }

    fn abs_val(self) -> (r: i32) {
        if self < 0 {
            -self
        } else {
            self
        }
    }
}

impl IntType for i32 {
    proof fn lemma_twos_complement() {
    }
}

impl VectorizedType for i64 {
    open spec fn spec_default() -> i64 {
        0
    }

    fn default_value() -> (r: i64) {
        0
    }

    fn eq_val(&self, other: &i64) -> (r: bool) {
        *self == *other
    }
}

impl ArithmeticAssign for i64 {
    open spec fn to_int(self) -> int {
        self as int
    }

    open spec fn lowest() -> int {
        i64::MIN as int
    }

    open spec fn highest() -> int {
        i64::MAX as int
    }

    proof fn lemma_range(self) {
    }

    proof fn lemma_injective(self, other: i64) {
    }

    proof fn lemma_bounds() {
    }

    fn add_assign_val(&mut self, rhs: i64) {
        *self = *self + rhs;
    }

    fn sub_assign_val(&mut self, rhs: i64) {
        *self = *self - rhs;
    }

    fn mul_assign_val(&mut self, rhs: i64) {
        *self = *self * rhs;
    }

    fn div_assign_val(&mut self, rhs: i64) {
        proof {
            if *self == i64::MIN && rhs == -1 {
                lemma_trunc_div_neg_one(*self as int);
            }
        }
        *self = *self / rhs;
    }
}

impl ArithmeticType for i64 {
    proof fn lemma_default_is_zero() {
    }

    fn zero() -> (r: i64) {
        0
    }

    fn one() -> (r: i64) {
        1
    }

    fn add_val(self, rhs: i64) -> (r: i64) {
        self + rhs
    }

    fn sub_val(self, rhs: i64) -> (r: i64) {
        self - rhs
    }

    fn mul_val(self, rhs: i64) -> (r: i64) {
        self * rhs
    }

    fn div_val(self, rhs: i64) -> (r: i64) {
        proof {
            if self == i64::MIN && rhs == -1 {
                lemma_trunc_div_neg_one(self as int);
            }
        }
        self / rhs
    }

    fn lt_val(self, rhs: i64) -> (r: bool) {
        self < rhs
    }

    fn le_val(self, rhs: i64) -> (r: bool) {
        self <= rhs
    }
}

impl SignedType for i64 {
    proof fn lemma_signed() {
    }

    fn neg_val(self) -> (r: i64) {
        -self
    }

    fn abs_val(self) -> (r: i64) {
        if self < 0 {
            -self
        } else {
            self
        }
    }
}

impl IntType for i64 {
    proof fn lemma_twos_complement() {
    }
}

impl VectorizedType for i128 {
    open spec fn spec_default() -> i128 {
        0
    }

    fn default_value() -> (r: i128) {
        0
    }

    fn eq_val(&self, other: &i128) -> (r: bool) {
        *self == *other
    }
}

impl ArithmeticAssign for i128 {
    open spec fn to_int(self) -> int {
        self as int
    }

    open spec fn lowest() -> int {
        i128::MIN as int
    }

    open spec fn highest() -> int {
        i128::MAX as int
    }

    proof fn lemma_range(self) {
    }

    proof fn lemma_injective(self, other: i128) {
    }

    proof fn lemma_bounds() {
    }

    fn add_assign_val(&mut self, rhs: i128) {
        *self = *self + rhs;
    }

    fn sub_assign_val(&mut self, rhs: i128) {
        *self = *self - rhs;
    }

    fn mul_assign_val(&mut self, rhs: i128) {
        *self = *self * rhs;
    }

    fn div_assign_val(&mut self, rhs: i128) {
        proof {
            if *self == i128::MIN && rhs == -1 {
                lemma_trunc_div_neg_one(*self as int);
            }
        }
        *self = *self / rhs;
    }
}

impl ArithmeticType for i128 {
    proof fn lemma_default_is_zero() {
    }

    fn zero() -> (r: i128) {
        0
    }

    fn one() -> (r: i128) {
        1
    }

    fn add_val(self, rhs: i128) -> (r: i128) {
        self + rhs
    }

    fn sub_val(self, rhs: i128) -> (r: i128) {
        self - rhs
    }

    fn mul_val(self, rhs: i128) -> (r: i128) {
        self * rhs
    }

    fn div_val(self, rhs: i128) -> (r: i128) {
        proof {
            if self == i128::MIN && rhs == -1 {
                lemma_trunc_div_neg_one(self as int);
            }
        }
        self / rhs
    }

    fn lt_val(self, rhs: i128) -> (r: bool) {
        self < rhs
    }

    fn le_val(self, rhs: i128) -> (r: bool) {
        self <= rhs
    }
}

impl SignedType for i128 {
    proof fn lemma_signed() {
    }

    fn neg_val(self) -> (r: i128) {
        -self
    }

    fn abs_val(self) -> (r: i128) {
        if self < 0 {
            -self
        } else {
            self
        }
    }
}

impl IntType for i128 {
    proof fn lemma_twos_complement() {
    }
}

impl VectorizedType for isize {
    open spec fn spec_default() -> isize {
        0
    }

    fn default_value() -> (r: isize) {
        0
    }

    fn eq_val(&self, other: &isize) -> (r: bool) {
        *self == *other
    }
}

impl ArithmeticAssign for isize {
    open spec fn to_int(self) -> int {
        self as int
    }

    open spec fn lowest() -> int {
        isize::MIN as int
    }

    open spec fn highest() -> int {
        isize::MAX as int
    }

    proof fn lemma_range(self) {
    }

    proof fn lemma_injective(self, other: isize) {
    }

    proof fn lemma_bounds() {
    }

    fn add_assign_val(&mut self, rhs: isize) {
        *self = *self + rhs;
    }

    fn sub_assign_val(&mut self, rhs: isize) {
        *self = *self - rhs;
    }

    fn mul_assign_val(&mut self, rhs: isize) {
        *self = *self * rhs;
    }

    fn div_assign_val(&mut self, rhs: isize) {
        proof {
            if *self == isize::MIN && rhs == -1 {
                lemma_trunc_div_neg_one(*self as int);
            }
        }
        *self = *self / rhs;
    }
}

impl ArithmeticType for isize {
    proof fn lemma_default_is_zero() {
    }

    fn zero() -> (r: isize) {
        0
    }

    fn one() -> (r: isize) {
        1
    }

    fn add_val(self, rhs: isize) -> (r: isize) {
        self + rhs
    }

    fn sub_val(self, rhs: isize) -> (r: isize) {
        self - rhs
    }

    fn mul_val(self, rhs: isize) -> (r: isize) {
        self * rhs
    }

    fn div_val(self, rhs: isize) -> (r: isize) {
        proof {
            if self == isize::MIN && rhs == -1 {
                lemma_trunc_div_neg_one(self as int);
            }
        }
        self / rhs
    }

    fn lt_val(self, rhs: isize) -> (r: bool) {
        self < rhs
    }

    fn le_val(self, rhs: isize) -> (r: bool) {
        self <= rhs
    }
}

impl SignedType for isize {
    proof fn lemma_signed() {
    }

    fn neg_val(self) -> (r: isize) {
        -self
    }

    fn abs_val(self) -> (r: isize) {
        if self < 0 {
            -self
        } else {
            self
        }
    }
}

impl IntType for isize {
    proof fn lemma_twos_complement() {
    }
}

impl VectorizedType for u8 {
    open spec fn spec_default() -> u8 {
        0
    }

    fn default_value() -> (r: u8) {
        0
    }

    fn eq_val(&self, other: &u8) -> (r: bool) {
        *self == *other
    }
}

impl ArithmeticAssign for u8 {
    open spec fn to_int(self) -> int {
        self as int
    }

    open spec fn lowest() -> int {
        u8::MIN as int
    }

    open spec fn highest() -> int {
        u8::MAX as int
    }

    proof fn lemma_range(self) {
    }

    proof fn lemma_injective(self, other: u8) {
    }

    proof fn lemma_bounds() {
    }

    fn add_assign_val(&mut self, rhs: u8) {
        *self = *self + rhs;
    }

    fn sub_assign_val(&mut self, rhs: u8) {
        *self = *self - rhs;
    }

    fn mul_assign_val(&mut self, rhs: u8) {
        *self = *self * rhs;
    }

    fn div_assign_val(&mut self, rhs: u8) {
        *self = *self / rhs;
    }
}

impl ArithmeticType for u8 {
    proof fn lemma_default_is_zero() {
    }

    fn zero() -> (r: u8) {
        0
    }

    fn one() -> (r: u8) {
        1
    }

    fn add_val(self, rhs: u8) -> (r: u8) {
        self + rhs
    }

    fn sub_val(self, rhs: u8) -> (r: u8) {
        self - rhs
    }

    fn mul_val(self, rhs: u8) -> (r: u8) {
        self * rhs
    }

    fn div_val(self, rhs: u8) -> (r: u8) {
        self / rhs
    }

    fn lt_val(self, rhs: u8) -> (r: bool) {
        self < rhs
    }

    fn le_val(self, rhs: u8) -> (r: bool) {
        self <= rhs
    }
}

impl UintType for u8 {
    proof fn lemma_unsigned() {
    }
}

impl VectorizedType for u16 {
    open spec fn spec_default() -> u16 {
        0
    }

    fn default_value() -> (r: u16) {
        0
    }

    fn eq_val(&self, other: &u16) -> (r: bool) {
        *self == *other
    }
}

impl ArithmeticAssign for u16 {
    open spec fn to_int(self) -> int {
        self as int
    }

    open spec fn lowest() -> int {
        u16::MIN as int
    }

    open spec fn highest() -> int {
        u16::MAX as int
    }

    proof fn lemma_range(self) {
    }

    proof fn lemma_injective(self, other: u16) {
    }

    proof fn lemma_bounds() {
    }

    fn add_assign_val(&mut self, rhs: u16) {
        *self = *self + rhs;
    }

    fn sub_assign_val(&mut self, rhs: u16) {
        *self = *self - rhs;
    }

    fn mul_assign_val(&mut self, rhs: u16) {
        *self = *self * rhs;
    }

    fn div_assign_val(&mut self, rhs: u16) {
        *self = *self / rhs;
    }
}

impl ArithmeticType for u16 {
    proof fn lemma_default_is_zero() {
    }

    fn zero() -> (r: u16) {
        0
    }

    fn one() -> (r: u16) {
        1
    }

    fn add_val(self, rhs: u16) -> (r: u16) {
        self + rhs
    }

    fn sub_val(self, rhs: u16) -> (r: u16) {
        self - rhs
    }

    fn mul_val(self, rhs: u16) -> (r: u16) {
        self * rhs
    }

    fn div_val(self, rhs: u16) -> (r: u16) {
        self / rhs
    }

    fn lt_val(self, rhs: u16) -> (r: bool) {
        self < rhs
    }

    fn le_val(self, rhs: u16) -> (r: bool) {
        self <= rhs
    }
}

impl UintType for u16 {
    proof fn lemma_unsigned() {
    }
}

impl VectorizedType for u32 {
    open spec fn spec_default() -> u32 {
        0
    }

    fn default_value() -> (r: u32) {
        0
    }

    fn eq_val(&self, other: &u32) -> (r: bool) {
        *self == *other
    }
}

impl ArithmeticAssign for u32 {
    open spec fn to_int(self) -> int {
        self as int
    }

    open spec fn lowest() -> int {
        u32::MIN as int
    }

    open spec fn highest() -> int {
        u32::MAX as int
    }

    proof fn lemma_range(self) {
    }

    proof fn lemma_injective(self, other: u32) {
    }

    proof fn lemma_bounds() {
    }

    fn add_assign_val(&mut self, rhs: u32) {
        *self = *self + rhs;
    }

    fn sub_assign_val(&mut self, rhs: u32) {
        *self = *self - rhs;
    }

    fn mul_assign_val(&mut self, rhs: u32) {
        *self = *self * rhs;
    }

    fn div_assign_val(&mut self, rhs: u32) {
        *self = *self / rhs;
    }
}

impl ArithmeticType for u32 {
    proof fn lemma_default_is_zero() {
    }

    fn zero() -> (r: u32) {
        0
    }

    fn one() -> (r: u32) {
        1
    }

    fn add_val(self, rhs: u32) -> (r: u32) {
        self + rhs
    }

    fn sub_val(self, rhs: u32) -> (r: u32) {
        self - rhs
    }

    fn mul_val(self, rhs: u32) -> (r: u32) {
        self * rhs
    }

    fn div_val(self, rhs: u32) -> (r: u32) {
        self / rhs
    }

    fn lt_val(self, rhs: u32) -> (r: bool) {
        self < rhs
    }

    fn le_val(self, rhs: u32) -> (r: bool) {
        self <= rhs
    }
}

impl UintType for u32 {
    proof fn lemma_unsigned() {
    }
}

impl VectorizedType for u64 {
    open spec fn spec_default() -> u64 {
        0
    }

    fn default_value() -> (r: u64) {
        0
    }

    fn eq_val(&self, other: &u64) -> (r: bool) {
        *self == *other
    }
}

impl ArithmeticAssign for u64 {
    open spec fn to_int(self) -> int {
        self as int
    }

    open spec fn lowest() -> int {
        u64::MIN as int
    }

    open spec fn highest() -> int {
        u64::MAX as int
    }

    proof fn lemma_range(self) {
    }

    proof fn lemma_injective(self, other: u64) {
    }

    proof fn lemma_bounds() {
    }

    fn add_assign_val(&mut self, rhs: u64) {
        *self = *self + rhs;
    }

    fn sub_assign_val(&mut self, rhs: u64) {
        *self = *self - rhs;
    }

    fn mul_assign_val(&mut self, rhs: u64) {
        *self = *self * rhs;
    }

    fn div_assign_val(&mut self, rhs: u64) {
        *self = *self / rhs;
    }
}

impl ArithmeticType for u64 {
    proof fn lemma_default_is_zero() {
    }

    fn zero() -> (r: u64) {
        0
    }

    fn one() -> (r: u64) {
        1
    }

    fn add_val(self, rhs: u64) -> (r: u64) {
        self + rhs
    }

    fn sub_val(self, rhs: u64) -> (r: u64) {
        self - rhs
    }

    fn mul_val(self, rhs: u64) -> (r: u64) {
        self * rhs
    }

    fn div_val(self, rhs: u64) -> (r: u64) {
        self / rhs
    }

    fn lt_val(self, rhs: u64) -> (r: bool) {
        self < rhs
    }

    fn le_val(self, rhs: u64) -> (r: bool) {
        self <= rhs
    }
}

impl UintType for u64 {
    proof fn lemma_unsigned() {
    }
}

impl VectorizedType for u128 {
    open spec fn spec_default() -> u128 {
        0
    }

    fn default_value() -> (r: u128) {
        0
    }

    fn eq_val(&self, other: &u128) -> (r: bool) {
        *self == *other
    }
}

impl ArithmeticAssign for u128 {
    open spec fn to_int(self) -> int {
        self as int
    }

    open spec fn lowest() -> int {
        u128::MIN as int
    }

    open spec fn highest() -> int {
        u128::MAX as int
    }

    proof fn lemma_range(self) {
    }

    proof fn lemma_injective(self, other: u128) {
    }

    proof fn lemma_bounds() {
    }

    fn add_assign_val(&mut self, rhs: u128) {
        *self = *self + rhs;
    }

    fn sub_assign_val(&mut self, rhs: u128) {
        *self = *self - rhs;
    }

    fn mul_assign_val(&mut self, rhs: u128) {
        *self = *self * rhs;
    }

    fn div_assign_val(&mut self, rhs: u128) {
        *self = *self / rhs;
    }
}

impl ArithmeticType for u128 {
    proof fn lemma_default_is_zero() {
    }

    fn zero() -> (r: u128) {
        0
    }

    fn one() -> (r: u128) {
        1
    }

    fn add_val(self, rhs: u128) -> (r: u128) {
        self + rhs
    }

    fn sub_val(self, rhs: u128) -> (r: u128) {
        self - rhs
    }

    fn mul_val(self, rhs: u128) -> (r: u128) {
        self * rhs
    }

    fn div_val(self, rhs: u128) -> (r: u128) {
        self / rhs
    }

    fn lt_val(self, rhs: u128) -> (r: bool) {
        self < rhs
    }

    fn le_val(self, rhs: u128) -> (r: bool) {
        self <= rhs
    }
}

impl UintType for u128 {
    proof fn lemma_unsigned() {
    }
}

impl VectorizedType for usize {
    open spec fn spec_default() -> usize {
        0
    }

    fn default_value() -> (r: usize) {
        0
    }

    fn eq_val(&self, other: &usize) -> (r: bool) {
        *self == *other
    }
}

impl ArithmeticAssign for usize {
    open spec fn to_int(self) -> int {
        self as int
    }

    open spec fn lowest() -> int {
        usize::MIN as int
    }

    open spec fn highest() -> int {
        usize::MAX as int
    }

    proof fn lemma_range(self) {
    }

    proof fn lemma_injective(self, other: usize) {
    }

    proof fn lemma_bounds() {
    }

    fn add_assign_val(&mut self, rhs: usize) {
        *self = *self + rhs;
    }

    fn sub_assign_val(&mut self, rhs: usize) {
        *self = *self - rhs;
    }

    fn mul_assign_val(&mut self, rhs: usize) {
        *self = *self * rhs;
    }

    fn div_assign_val(&mut self, rhs: usize) {
        *self = *self / rhs;
    }
}

impl ArithmeticType for usize {
    proof fn lemma_default_is_zero() {
    }

    fn zero() -> (r: usize) {
        0
    }

    fn one() -> (r: usize) {
        1
    }

    fn add_val(self, rhs: usize) -> (r: usize) {
        self + rhs
    }

    fn sub_val(self, rhs: usize) -> (r: usize) {
        self - rhs
    }

    fn mul_val(self, rhs: usize) -> (r: usize) {
        self * rhs
    }

    fn div_val(self, rhs: usize) -> (r: usize) {
        self / rhs
    }

    fn lt_val(self, rhs: usize) -> (r: bool) {
        self < rhs
    }

    fn le_val(self, rhs: usize) -> (r: bool) {
        self <= rhs
    }
}

impl UintType for usize {
    proof fn lemma_unsigned() {
    }
}

} // verus!
