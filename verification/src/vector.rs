//! Fixed-size vectors `Vector<T, N>` and the operations on them.
use crate::{
    fits, trunc_div, ArithmeticAssign, ArithmeticType, LengthSq, SignedType, VectorizedType,
};
use vstd::prelude::*;

verus! {

broadcast use vstd::array::group_array_axioms;

/// Vector of two `i32` components.
pub type Int2 = Vector<i32, 2>;

/// Vector of three `i32` components.
pub type Int3 = Vector<i32, 3>;

/// Vector of four `i32` components.
pub type Int4 = Vector<i32, 4>;

/// Vector of two `i32` components.
pub type Int2_32 = Vector<i32, 2>;

/// Vector of three `i32` components.
pub type Int3_32 = Vector<i32, 3>;

/// Vector of four `i32` components.
pub type Int4_32 = Vector<i32, 4>;

/// Vector of two `i64` components.
pub type Int2_64 = Vector<i64, 2>;

/// Vector of three `i64` components.
pub type Int3_64 = Vector<i64, 3>;

/// Vector of four `i64` components.
pub type Int4_64 = Vector<i64, 4>;

/// Vector of two `u32` components.
pub type Uint2 = Vector<u32, 2>;

/// Vector of three `u32` components.
pub type Uint3 = Vector<u32, 3>;

/// Vector of four `u32` components.
pub type Uint4 = Vector<u32, 4>;

/// Vector of two `u32` components.
pub type Uint2_32 = Vector<u32, 2>;

/// Vector of three `u32` components.
pub type Uint3_32 = Vector<u32, 3>;

/// Vector of four `u32` components.
pub type Uint4_32 = Vector<u32, 4>;

/// Vector of two `u64` components.
pub type Uint2_64 = Vector<u64, 2>;

/// Vector of three `u64` components.
pub type Uint3_64 = Vector<u64, 3>;

/// Vector of four `u64` components.
pub type Uint4_64 = Vector<u64, 4>;

/// Vector of two booleans.
pub type Bool2 = Vector<bool, 2>;

/// Vector of three booleans.
pub type Bool3 = Vector<bool, 3>;

/// Vector of four booleans.
pub type Bool4 = Vector<bool, 4>;

/// A vector of `N` components of type `T`.
#[derive(Clone, Copy, Debug, PartialEq, Eq)]
pub struct Vector<T, const N: usize> where T: VectorizedType {
    data: [T; N],
}

impl<T: VectorizedType, const N: usize> View for Vector<T, N> {
    type V = Seq<T>;

    /// The components, in order.
    closed spec fn view(&self) -> Seq<T> {
        Seq::new(N as nat, |i: int| self.data[i])
    }
}

/// The component that the accessor of index `k` (x, y, z or w) reads: the component
/// itself, or the default value when the vector has no such component.
pub open spec fn comp<T: VectorizedType, const N: usize>(v: Vector<T, N>, k: int) -> T {
    if k < N {
        v@[k]
    } else {
        T::spec_default()
    }
}

/// A vector of `N` components has `N` components.
pub broadcast proof fn lemma_vector_len<T: VectorizedType, const N: usize>(v: Vector<T, N>)
    ensures
        #[trigger] v@.len() == N,
{
}


// ===================================================
// Mathematical model
// ===================================================

/// The integers that a sequence of components stands for.
pub open spec fn ints<T: ArithmeticAssign>(s: Seq<T>) -> Seq<int> {
    s.map_values(|x: T| x.to_int())
}

/// Every entry of `s` lies in the range of `T`.
pub open spec fn cw_fits<T: ArithmeticAssign>(s: Seq<int>) -> bool {
    forall|i: int| 0 <= i < s.len() ==> fits::<T>(#[trigger] s[i])
}

/// No entry of `s` is zero.
pub open spec fn all_nonzero(s: Seq<int>) -> bool {
    forall|i: int| 0 <= i < s.len() ==> #[trigger] s[i] != 0
}

/// `a[0] * b[0] + ... + a[k - 1] * b[k - 1]`
pub open spec fn dot_upto(a: Seq<int>, b: Seq<int>, k: nat) -> int
    decreases k,
{
    if k == 0 {
        0
    } else {
        dot_upto(a, b, (k - 1) as nat) + a[k - 1] * b[k - 1]
    }
}

/// The dot product of `a` and `b`.
pub open spec fn dot_seq(a: Seq<int>, b: Seq<int>) -> int {
    dot_upto(a, b, a.len())
}

/// Every product `a[k] * b[k]` and every partial sum of the dot product fits in `T`.
pub open spec fn dot_fits<T: ArithmeticAssign>(a: Seq<int>, b: Seq<int>) -> bool {
    forall|k: nat|
        1 <= k <= a.len() ==> fits::<T>(a[k - 1] * b[k - 1]) && fits::<T>(
            #[trigger] dot_upto(a, b, k),
        )
}

/// `a[0] + ... + a[k - 1]`
pub open spec fn sum_upto(a: Seq<int>, k: nat) -> int
    decreases k,
{
    if k == 0 {
        0
    } else {
        sum_upto(a, (k - 1) as nat) + a[k - 1]
    }
}

/// The sum of all entries of `a`.
pub open spec fn sum_seq(a: Seq<int>) -> int {
    sum_upto(a, a.len())
}

/// Every partial sum of `a` fits in `T`.
pub open spec fn sum_fits<T: ArithmeticAssign>(a: Seq<int>) -> bool {
    forall|k: nat| 1 <= k <= a.len() ==> fits::<T>(#[trigger] sum_upto(a, k))
}

/// `a[0] * ... * a[k - 1]`
pub open spec fn product_upto(a: Seq<int>, k: nat) -> int
    decreases k,
{
    if k == 0 {
        1
    } else {
        product_upto(a, (k - 1) as nat) * a[k - 1]
    }
}

/// The product of all entries of `a`.
pub open spec fn product_seq(a: Seq<int>) -> int {
    product_upto(a, a.len())
}

/// Every partial product of `a` fits in `T`.
pub open spec fn product_fits<T: ArithmeticAssign>(a: Seq<int>) -> bool {
    forall|k: nat| 1 <= k <= a.len() ==> fits::<T>(#[trigger] product_upto(a, k))
}

/// The sequence of `n` ones.
pub open spec fn ones(n: nat) -> Seq<int> {
    Seq::new(n, |i: int| 1int)
}

/// The cross product of two three-component sequences.
pub open spec fn cross_seq(a: Seq<int>, b: Seq<int>) -> Seq<int> {
    seq![a[1] * b[2] - a[2] * b[1], a[2] * b[0] - a[0] * b[2], a[0] * b[1] - a[1] * b[0]]
}

/// Every product and difference that the cross product computes fits in `T`.
pub open spec fn cross_fits<T: ArithmeticAssign>(a: Seq<int>, b: Seq<int>) -> bool {
    &&& fits::<T>(a[1] * b[2])
    &&& fits::<T>(a[2] * b[1])
    &&& fits::<T>(a[2] * b[0])
    &&& fits::<T>(a[0] * b[2])
    &&& fits::<T>(a[0] * b[1])
    &&& fits::<T>(a[1] * b[0])
    &&& cw_fits::<T>(cross_seq(a, b))
}

/// The integers of components lie in the range of their type.
pub proof fn lemma_ints_fit<T: ArithmeticAssign>(s: Seq<T>)
    ensures
        cw_fits::<T>(ints(s)),
        ints(s).len() == s.len(),
{
    assert forall|i: int| 0 <= i < ints(s).len() implies fits::<T>(#[trigger] ints(s)[i]) by {
        s[i].lemma_range();
    }
}

/// When every partial sum fits, so does every step of the dot product with ones.
pub proof fn lemma_sum_dot_fits<T: ArithmeticAssign>(a: Seq<int>)
    requires
        sum_fits::<T>(a),
        cw_fits::<T>(a),
    ensures
        dot_fits::<T>(a, ones(a.len())),
{
    assert forall|k: nat| 1 <= k <= a.len() implies fits::<T>(a[k - 1] * ones(a.len())[k - 1])
        && fits::<T>(#[trigger] dot_upto(a, ones(a.len()), k)) by {
        lemma_dot_ones(a, k);
        assert(fits::<T>(a[k - 1]));
        assert(fits::<T>(sum_upto(a, k)));
    }
}

/// Component-wise minimum of two integer sequences.
pub open spec fn min_seq(a: Seq<int>, b: Seq<int>) -> Seq<int> {
    Seq::new(a.len(), |i: int| if a[i] < b[i] { a[i] } else { b[i] })
}

/// Component-wise maximum of two integer sequences.
pub open spec fn max_seq(a: Seq<int>, b: Seq<int>) -> Seq<int> {
    Seq::new(a.len(), |i: int| if a[i] > b[i] { a[i] } else { b[i] })
}

/// `x` limited to the interval from `lo` to `hi`.
pub open spec fn clamp_int(x: int, lo: int, hi: int) -> int {
    if x < lo {
        lo
    } else if x > hi {
        hi
    } else {
        x
    }
}

/// Component-wise `clamp_int`.
pub open spec fn clamp_seq(a: Seq<int>, lo: Seq<int>, hi: Seq<int>) -> Seq<int> {
    Seq::new(a.len(), |i: int| clamp_int(a[i], lo[i], hi[i]))
}

/// Component-wise `<`.
pub open spec fn lt_seq(a: Seq<int>, b: Seq<int>) -> Seq<bool> {
    Seq::new(a.len(), |i: int| a[i] < b[i])
}

/// Component-wise `<=`.
pub open spec fn le_seq(a: Seq<int>, b: Seq<int>) -> Seq<bool> {
    Seq::new(a.len(), |i: int| a[i] <= b[i])
}

/// Component-wise equality.
pub open spec fn eq_seq<T>(a: Seq<T>, b: Seq<T>) -> Seq<bool> {
    Seq::new(a.len(), |i: int| a[i] == b[i])
}

/// Whether every entry is `true`.
pub open spec fn all_seq(a: Seq<bool>) -> bool {
    forall|i: int| 0 <= i < a.len() ==> #[trigger] a[i]
}

/// Whether some entry is `true`.
pub open spec fn any_seq(a: Seq<bool>) -> bool {
    exists|i: int| 0 <= i < a.len() && #[trigger] a[i]
}

/// Component-wise negation of booleans.
pub open spec fn not_seq(a: Seq<bool>) -> Seq<bool> {
    Seq::new(a.len(), |i: int| !a[i])
}

/// Component-wise negation of integers.
pub open spec fn neg_seq(a: Seq<int>) -> Seq<int> {
    Seq::new(a.len(), |i: int| -a[i])
}

/// Component-wise absolute value.
pub open spec fn abs_seq(a: Seq<int>) -> Seq<int> {
    Seq::new(a.len(), |i: int| if a[i] < 0 { -a[i] } else { a[i] })
}

/// The sequence of `n` copies of `s`.
pub open spec fn splat(s: int, n: nat) -> Seq<int> {
    Seq::new(n, |i: int| s)
}

/// Component-wise sum.
pub open spec fn add_seq(a: Seq<int>, b: Seq<int>) -> Seq<int> {
    Seq::new(a.len(), |i: int| a[i] + b[i])
}

/// Component-wise difference.
pub open spec fn sub_seq(a: Seq<int>, b: Seq<int>) -> Seq<int> {
    Seq::new(a.len(), |i: int| a[i] - b[i])
}

/// Component-wise product.
pub open spec fn mul_seq(a: Seq<int>, b: Seq<int>) -> Seq<int> {
    Seq::new(a.len(), |i: int| a[i] * b[i])
}

/// Component-wise quotient, rounded toward zero.
pub open spec fn div_seq(a: Seq<int>, b: Seq<int>) -> Seq<int> {
    Seq::new(a.len(), |i: int| trunc_div(a[i], b[i]))
}

/// Component-wise conjunction.
pub open spec fn and_seq(a: Seq<bool>, b: Seq<bool>) -> Seq<bool> {
    Seq::new(a.len(), |i: int| a[i] && b[i])
}

/// Component-wise disjunction.
pub open spec fn or_seq(a: Seq<bool>, b: Seq<bool>) -> Seq<bool> {
    Seq::new(a.len(), |i: int| a[i] || b[i])
}

/// Component-wise exclusive or.
pub open spec fn xor_seq(a: Seq<bool>, b: Seq<bool>) -> Seq<bool> {
    Seq::new(a.len(), |i: int| a[i] != b[i])
}

/// The first `m` components of `s`, followed by default values if `s` is shorter.
pub open spec fn resized<T: VectorizedType>(s: Seq<T>, m: nat) -> Seq<T> {
    Seq::new(m, |i: int| if i < s.len() { s[i] } else { T::spec_default() })
}

/// The vector whose components stand for the integers `s`.
pub open spec fn from_ints<T: VectorizedType + ArithmeticAssign, const N: usize>(s: Seq<int>) -> Vector<T, N> {
    choose|r: Vector<T, N>| ints(r@) == s
}

/// The vector whose components are `s`.
pub open spec fn from_seq<T: VectorizedType, const N: usize>(s: Seq<T>) -> Vector<T, N> {
    choose|r: Vector<T, N>| r@ == s
}

/// The dot product with ones is the sum.
pub proof fn lemma_dot_ones(a: Seq<int>, k: nat)
    requires
        k <= a.len(),
    ensures
        dot_upto(a, ones(a.len()), k) == sum_upto(a, k),
    decreases k,
{
    if k > 0 {
        lemma_dot_ones(a, (k - 1) as nat);
    }
}

// ===================================================
// Construction and access
// ===================================================

impl<T: VectorizedType, const N: usize> Vector<T, N> {
    /// The vector with the given components.
    pub fn new(data: [T; N]) -> (r: Self)
        ensures
            r@ == data@,
    {
        Vector { data }
    }

    /// The first component.
    pub fn x(&self) -> (r: T)
        requires
            N >= 1,
        ensures
            r == self@[0],
    {
        self.data[0]
    }

    /// The second component.
    pub fn y(&self) -> (r: T)
        requires
            N >= 2,
        ensures
            r == self@[1],
    {
        self.data[1]
    }

    /// The third component, or the default value when there is none.
    pub fn z(&self) -> (r: T)
        ensures
            r == (if N > 2 { self@[2] } else { T::spec_default() }),
    {
        if N > 2 {
            self.data[2]
        } else {
            T::default_value()
        }
    }

    /// The fourth component, or the default value when there is none.
    pub fn w(&self) -> (r: T)
        ensures
            r == (if N > 3 { self@[3] } else { T::spec_default() }),
    {
        if N > 3 {
            self.data[3]
        } else {
            T::default_value()
        }
    }

    /// A reference to the component at `i`.
    pub fn get(&self, i: usize) -> (r: &T)
        requires
            i < N,
        ensures
            *r == self@[i as int],
    {
        &self.data[i]
    }

    /// Sets the component at `i`, leaving the others as they were.
    pub fn set(&mut self, i: usize, v: T)
        requires
            i < N,
        ensures
            final(self)@ == old(self)@.update(i as int, v),
    {
        self.data[i] = v;
        assert(self@ =~= old(self)@.update(i as int, v));
    }

    /// The number of components.
    pub fn dim(&self) -> (r: usize)
        ensures
            r == N,
    {
        N
    }
}

impl<T: ArithmeticType, const N: usize> Vector<T, N> {
    /// The vector whose components are all 0.
    pub fn zero() -> (r: Self)
        ensures
            ints(r@) == Seq::new(N as nat, |i: int| 0int),
    {
        let r = Vector { data: [T::zero(); N] };
        assert(ints(r@) =~= Seq::new(N as nat, |i: int| 0int));
        r
    }

    /// The vector whose components are all 1.
    pub fn one() -> (r: Self)
        ensures
            ints(r@) == ones(N as nat),
    {
        let r = Vector { data: [T::one(); N] };
        assert(ints(r@) =~= ones(N as nat));
        r
    }

    /// The unit vector along the x axis, `(1, 0, 0)`.
    pub fn x_axis() -> (r: Vector<T, 3>)
        ensures
            ints(r@) == seq![1int, 0, 0],
    {
        let r = Vector::<T, 3>::new([T::one(), T::zero(), T::zero()]);
        assert(ints(r@) =~= seq![1int, 0, 0]);
        r
    }

    /// The unit vector along the y axis, `(0, 1, 0)`.
    pub fn y_axis() -> (r: Vector<T, 3>)
        ensures
            ints(r@) == seq![0int, 1, 0],
    {
        let r = Vector::<T, 3>::new([T::zero(), T::one(), T::zero()]);
        assert(ints(r@) =~= seq![0int, 1, 0]);
        r
    }

    /// The unit vector along the z axis, `(0, 0, 1)`.
    pub fn z_axis() -> (r: Vector<T, 3>)
        ensures
            ints(r@) == seq![0int, 0, 1],
    {
        let r = Vector::<T, 3>::new([T::zero(), T::zero(), T::one()]);
        assert(ints(r@) =~= seq![0int, 0, 1]);
        r
    }

    /// The product of the components, multiplied in order from the first.
    pub fn product(&self) -> (r: T)
        requires
            product_fits::<T>(ints(self@)),
        ensures
            r.to_int() == product_seq(ints(self@)),
    {
        let ghost a = ints(self@);
        let mut total = T::one();
        let mut i: usize = 0;
        while i < N
            invariant
                i <= N,
                a == ints(self@),
                a.len() == N,
                product_fits::<T>(a),
                total.to_int() == product_upto(a, i as nat),
            decreases N - i,
        {
            assert(fits::<T>(product_upto(a, (i + 1) as nat)));
            total.mul_assign_val(self.data[i]);
            i += 1;
        }
        total
    }

    /// The sum of the components, computed as the dot product with the vector of ones.
    pub fn sum(&self) -> (r: T)
        requires
            sum_fits::<T>(ints(self@)),
        ensures
            r.to_int() == sum_seq(ints(self@)),
    {
        let one = Self::one();
        proof {
            lemma_ints_fit(self@);
            lemma_sum_dot_fits::<T>(ints(self@));
            lemma_dot_ones(ints(self@), N as nat);
        }
        dot(self, &one)
    }

    /// The first three components followed by a 1, as a point in homogeneous coordinates.
    pub fn to_point4(&self) -> (r: Vector<T, 4>)
        requires
            N >= 2,
        ensures
            r@[0] == self@[0],
            r@[1] == self@[1],
            r@[2] == (if N > 2 { self@[2] } else { T::spec_default() }),
            r@[3].to_int() == 1,
    {
        Vector::<T, 4>::new([self.x(), self.y(), self.z(), T::one()])
    }
}

// ===================================================
// Free functions
// ===================================================

/// The dot product `lhs[0] * rhs[0] + ... + lhs[N - 1] * rhs[N - 1]`, summed in order.
pub fn dot<T: ArithmeticType, const N: usize>(lhs: &Vector<T, N>, rhs: &Vector<T, N>) -> (r: T)
    requires
        dot_fits::<T>(ints(lhs@), ints(rhs@)),
    ensures
        r.to_int() == dot_seq(ints(lhs@), ints(rhs@)),
{
    let ghost a = ints(lhs@);
    let ghost b = ints(rhs@);
    let mut total = T::zero();
    let mut i: usize = 0;
    while i < N
        invariant
            i <= N,
            a == ints(lhs@),
            b == ints(rhs@),
            a.len() == N,
            b.len() == N,
            dot_fits::<T>(a, b),
            total.to_int() == dot_upto(a, b, i as nat),
        decreases N - i,
    {
        assert(fits::<T>(dot_upto(a, b, (i + 1) as nat)));
        let p = lhs.data[i].mul_val(rhs.data[i]);
        total = total.add_val(p);
        i += 1;
    }
    total
}

/// The cross product of two three-component vectors.
pub fn cross<T: ArithmeticType>(lhs: &Vector<T, 3>, rhs: &Vector<T, 3>) -> (r: Vector<T, 3>)
    requires
        cross_fits::<T>(ints(lhs@), ints(rhs@)),
    ensures
        ints(r@) == cross_seq(ints(lhs@), ints(rhs@)),
{
    let ghost c = cross_seq(ints(lhs@), ints(rhs@));
    assert(fits::<T>(c[0]) && fits::<T>(c[1]) && fits::<T>(c[2]));
    let x = lhs.data[1].mul_val(rhs.data[2]).sub_val(lhs.data[2].mul_val(rhs.data[1]));
    let y = lhs.data[2].mul_val(rhs.data[0]).sub_val(lhs.data[0].mul_val(rhs.data[2]));
    let z = lhs.data[0].mul_val(rhs.data[1]).sub_val(lhs.data[1].mul_val(rhs.data[0]));
    let r = Vector::<T, 3>::new([x, y, z]);
    assert(ints(r@) =~= c);
    r
}

/// Component-wise minimum: each component is the left one when it is smaller, else the right one.
pub fn min<T: ArithmeticType, const N: usize>(lhs: &Vector<T, N>, rhs: &Vector<T, N>) -> (r: Vector<T, N>)
    ensures
        ints(r@) == min_seq(ints(lhs@), ints(rhs@)),
{
    let mut data = lhs.data;
    let mut i: usize = 0;
    while i < N
        invariant
            i <= N,
            forall|j: int| 0 <= j < i ==> data[j].to_int() == (if lhs@[j].to_int() < rhs@[j].to_int() { lhs@[j].to_int() } else { rhs@[j].to_int() }),
        decreases N - i,
    {
        let l = lhs.data[i];
        let rv = rhs.data[i];
        data[i] = if l.lt_val(rv) { l } else { rv };
        i += 1;
    }
    let r = Vector { data };
    assert(ints(r@) =~= min_seq(ints(lhs@), ints(rhs@)));
    r
}

/// Component-wise maximum: each component is the left one when it is greater, else the right one.
pub fn max<T: ArithmeticType, const N: usize>(lhs: &Vector<T, N>, rhs: &Vector<T, N>) -> (r: Vector<T, N>)
    ensures
        ints(r@) == max_seq(ints(lhs@), ints(rhs@)),
{
    let mut data = lhs.data;
    let mut i: usize = 0;
    while i < N
        invariant
            i <= N,
            forall|j: int| 0 <= j < i ==> data[j].to_int() == (if lhs@[j].to_int() > rhs@[j].to_int() { lhs@[j].to_int() } else { rhs@[j].to_int() }),
        decreases N - i,
    {
        let l = lhs.data[i];
        let rv = rhs.data[i];
        data[i] = if rv.lt_val(l) { l } else { rv };
        i += 1;
    }
    let r = Vector { data };
    assert(ints(r@) =~= max_seq(ints(lhs@), ints(rhs@)));
    r
}

/// Component-wise `<`.
pub fn ltcw<T: ArithmeticType, const N: usize>(lhs: &Vector<T, N>, rhs: &Vector<T, N>) -> (r: Vector<bool, N>)
    ensures
        r@ == lt_seq(ints(lhs@), ints(rhs@)),
{
    let mut data = [false; N];
    let mut i: usize = 0;
    while i < N
        invariant
            i <= N,
            forall|j: int| 0 <= j < i ==> data[j] == (lhs@[j].to_int() < rhs@[j].to_int()),
        decreases N - i,
    {
        data[i] = lhs.data[i].lt_val(rhs.data[i]);
        i += 1;
    }
    let r = Vector { data };
    assert(r@ =~= lt_seq(ints(lhs@), ints(rhs@)));
    r
}

/// Component-wise `<=`.
pub fn lecw<T: ArithmeticType, const N: usize>(lhs: &Vector<T, N>, rhs: &Vector<T, N>) -> (r: Vector<bool, N>)
    ensures
        r@ == le_seq(ints(lhs@), ints(rhs@)),
{
    let mut data = [false; N];
    let mut i: usize = 0;
    while i < N
        invariant
            i <= N,
            forall|j: int| 0 <= j < i ==> data[j] == (lhs@[j].to_int() <= rhs@[j].to_int()),
        decreases N - i,
    {
        data[i] = lhs.data[i].le_val(rhs.data[i]);
        i += 1;
    }
    let r = Vector { data };
    assert(r@ =~= le_seq(ints(lhs@), ints(rhs@)));
    r
}

/// Component-wise `>`, computed as `<` with the sides swapped.
pub fn gtcw<T: ArithmeticType, const N: usize>(lhs: &Vector<T, N>, rhs: &Vector<T, N>) -> (r: Vector<bool, N>)
    ensures
        r@ == lt_seq(ints(rhs@), ints(lhs@)),
{
    ltcw(rhs, lhs)
}

/// Component-wise `>=`, computed as `<=` with the sides swapped.
pub fn gecw<T: ArithmeticType, const N: usize>(lhs: &Vector<T, N>, rhs: &Vector<T, N>) -> (r: Vector<bool, N>)
    ensures
        r@ == le_seq(ints(rhs@), ints(lhs@)),
{
    lecw(rhs, lhs)
}

/// Component-wise `==`.
pub fn eqcw<T: ArithmeticType, const N: usize>(lhs: &Vector<T, N>, rhs: &Vector<T, N>) -> (r: Vector<bool, N>)
    ensures
        r@ == eq_seq(lhs@, rhs@),
{
    let mut data = [false; N];
    let mut i: usize = 0;
    while i < N
        invariant
            i <= N,
            forall|j: int| 0 <= j < i ==> data[j] == (lhs@[j] == rhs@[j]),
        decreases N - i,
    {
        data[i] = lhs.data[i].eq_val(&rhs.data[i]);
        i += 1;
    }
    let r = Vector { data };
    assert(r@ =~= eq_seq(lhs@, rhs@));
    r
}

/// Component-wise `!=`, computed as the negation of `eqcw` with the sides swapped.
pub fn necw<T: ArithmeticType, const N: usize>(lhs: &Vector<T, N>, rhs: &Vector<T, N>) -> (r: Vector<bool, N>)
    ensures
        r@ == not_seq(eq_seq(rhs@, lhs@)),
{
    not_vec(&eqcw(rhs, lhs))
}

/// Component-wise absolute value.
pub fn abs<T: SignedType, const N: usize>(lhs: &Vector<T, N>) -> (r: Vector<T, N>)
    requires
        cw_fits::<T>(neg_seq(ints(lhs@))),
    ensures
        ints(r@) == abs_seq(ints(lhs@)),
{
    let mut data = lhs.data;
    let mut i: usize = 0;
    while i < N
        invariant
            i <= N,
            cw_fits::<T>(neg_seq(ints(lhs@))),
            forall|j: int| 0 <= j < i ==> data[j].to_int() == (if lhs@[j].to_int() < 0 { -lhs@[j].to_int() } else { lhs@[j].to_int() }),
        decreases N - i,
    {
        assert(fits::<T>(neg_seq(ints(lhs@))[i as int]));
        data[i] = lhs.data[i].abs_val();
        i += 1;
    }
    let r = Vector { data };
    assert(ints(r@) =~= abs_seq(ints(lhs@)));
    r
}

/// Whether every component is `true`.
pub fn all<const N: usize>(lhs: &Vector<bool, N>) -> (r: bool)
    ensures
        r == all_seq(lhs@),
{
    let mut i: usize = 0;
    while i < N
        invariant
            i <= N,
            forall|j: int| 0 <= j < i ==> #[trigger] lhs@[j],
        decreases N - i,
    {
        if !lhs.data[i] {
            assert(!lhs@[i as int]);
            return false;
        }
        i += 1;
    }
    true
}

/// Whether some component is `true`.
pub fn any<const N: usize>(lhs: &Vector<bool, N>) -> (r: bool)
    ensures
        r == any_seq(lhs@),
{
    let mut i: usize = 0;
    while i < N
        invariant
            i <= N,
            forall|j: int| 0 <= j < i ==> !#[trigger] lhs@[j],
        decreases N - i,
    {
        if lhs.data[i] {
            assert(lhs@[i as int]);
            return true;
        }
        i += 1;
    }
    false
}

/// Each component limited to the interval given by the same component of `min` and `max`:
/// `min` when below it, else `max` when above it, else unchanged. Each bound of `min`
/// must not exceed that of `max` (the clamping of a single value asserts as much).
pub fn clamp<T: ArithmeticType, const N: usize>(
    lhs: &Vector<T, N>,
    min: &Vector<T, N>,
    max: &Vector<T, N>,
) -> (r: Vector<T, N>)
    requires
        forall|j: int| 0 <= j < N ==> min@[j].to_int() <= #[trigger] max@[j].to_int(),
    ensures
        ints(r@) == clamp_seq(ints(lhs@), ints(min@), ints(max@)),
{
    let mut data = lhs.data;
    let mut i: usize = 0;
    while i < N
        invariant
            i <= N,
            forall|j: int| 0 <= j < i ==> data[j].to_int() == clamp_int(lhs@[j].to_int(), min@[j].to_int(), max@[j].to_int()),
        decreases N - i,
    {
        let x = lhs.data[i];
        let lo = min.data[i];
        let hi = max.data[i];
        data[i] = if x.lt_val(lo) {
            lo
        } else if hi.lt_val(x) {
            hi
        } else {
            x
        };
        i += 1;
    }
    let r = Vector { data };
    assert(ints(r@) =~= clamp_seq(ints(lhs@), ints(min@), ints(max@)));
    r
}

/// Component-wise logical negation.
pub fn not_vec<const N: usize>(v: &Vector<bool, N>) -> (r: Vector<bool, N>)
    ensures
        r@ == not_seq(v@),
{
    let mut data = [false; N];
    let mut i: usize = 0;
    while i < N
        invariant
            i <= N,
            forall|j: int| 0 <= j < i ==> data[j] == !v@[j],
        decreases N - i,
    {
        data[i] = !v.data[i];
        i += 1;
    }
    let r = Vector { data };
    assert(r@ =~= not_seq(v@));
    r
}

// ===================================================
// Component-wise arithmetic
// ===================================================

/// Two vectors with the same components are the same vector.
pub proof fn lemma_view_injective<T: VectorizedType, const N: usize>(a: Vector<T, N>, b: Vector<T, N>)
    requires
        a@ == b@,
    ensures
        a == b,
{
    assert(a.data =~= b.data) by {
        assert forall|i: int| 0 <= i < N implies a.data[i] == b.data[i] by {
            assert(a@[i] == b@[i]);
            assert(a@[i] == a.data[i]);
            assert(b@[i] == b.data[i]);
        }
    }
}

/// Two vectors whose components stand for the same integers are the same vector.
pub proof fn lemma_ints_injective<T: VectorizedType + ArithmeticAssign, const N: usize>(
    a: Vector<T, N>,
    b: Vector<T, N>,
)
    requires
        ints(a@) == ints(b@),
    ensures
        a == b,
{
    assert(a@ =~= b@) by {
        assert forall|i: int| 0 <= i < N implies a@[i] == b@[i] by {
            assert(ints(a@)[i] == ints(b@)[i]);
            assert(ints(a@)[i] == a@[i].to_int());
            assert(ints(b@)[i] == b@[i].to_int());
            a@[i].lemma_injective(b@[i]);
        }
    }
    lemma_view_injective(a, b);
}

/// `from_ints` names the vector whose components stand for the given integers.
pub proof fn lemma_from_ints<T: VectorizedType + ArithmeticAssign, const N: usize>(v: Vector<T, N>)
    ensures
        from_ints::<T, N>(ints(v@)) == v,
{
    let r = from_ints::<T, N>(ints(v@));
    assert(ints(r@) == ints(v@));
    lemma_ints_injective(r, v);
}

/// `from_seq` names the vector with the given components.
pub proof fn lemma_from_seq<T: VectorizedType, const N: usize>(v: Vector<T, N>)
    ensures
        from_seq::<T, N>(v@) == v,
{
    let r = from_seq::<T, N>(v@);
    assert(r@ == v@);
    lemma_view_injective(r, v);
}

impl<T: VectorizedType, const N: usize> Vector<T, N> {
    /// The vector whose components are all `s`.
    pub fn splat(s: T) -> (r: Self)
        ensures
            forall|i: int| 0 <= i < N ==> #[trigger] r@[i] == s,
    {
        Vector { data: [s; N] }
    }
}

/// Component-wise `lhs + rhs`.
pub fn add_cw<T: ArithmeticType, const N: usize>(lhs: &Vector<T, N>, rhs: &Vector<T, N>) -> (r: Vector<T, N>)
    requires
        cw_fits::<T>(add_seq(ints(lhs@), ints(rhs@))),
    ensures
        ints(r@) == add_seq(ints(lhs@), ints(rhs@)),
{
    let mut data = lhs.data;
    let mut i: usize = 0;
    while i < N
        invariant
            i <= N,
            cw_fits::<T>(add_seq(ints(lhs@), ints(rhs@))),
            forall|j: int| 0 <= j < i ==> data[j].to_int() == lhs@[j].to_int() + rhs@[j].to_int(),
        decreases N - i,
    {
        assert(fits::<T>(add_seq(ints(lhs@), ints(rhs@))[i as int]));
        data[i] = lhs.data[i].add_val(rhs.data[i]);
        i += 1;
    }
    let r = Vector { data };
    assert(ints(r@) =~= add_seq(ints(lhs@), ints(rhs@)));
    r
}

/// Component-wise `lhs - rhs`.
pub fn sub_cw<T: ArithmeticType, const N: usize>(lhs: &Vector<T, N>, rhs: &Vector<T, N>) -> (r: Vector<T, N>)
    requires
        cw_fits::<T>(sub_seq(ints(lhs@), ints(rhs@))),
    ensures
        ints(r@) == sub_seq(ints(lhs@), ints(rhs@)),
{
    let mut data = lhs.data;
    let mut i: usize = 0;
    while i < N
        invariant
            i <= N,
            cw_fits::<T>(sub_seq(ints(lhs@), ints(rhs@))),
            forall|j: int| 0 <= j < i ==> data[j].to_int() == lhs@[j].to_int() - rhs@[j].to_int(),
        decreases N - i,
    {
        assert(fits::<T>(sub_seq(ints(lhs@), ints(rhs@))[i as int]));
        data[i] = lhs.data[i].sub_val(rhs.data[i]);
        i += 1;
    }
    let r = Vector { data };
    assert(ints(r@) =~= sub_seq(ints(lhs@), ints(rhs@)));
    r
}

/// Component-wise `lhs * rhs`.
pub fn mul_cw<T: ArithmeticType, const N: usize>(lhs: &Vector<T, N>, rhs: &Vector<T, N>) -> (r: Vector<T, N>)
    requires
        cw_fits::<T>(mul_seq(ints(lhs@), ints(rhs@))),
    ensures
        ints(r@) == mul_seq(ints(lhs@), ints(rhs@)),
{
    let mut data = lhs.data;
    let mut i: usize = 0;
    while i < N
        invariant
            i <= N,
            cw_fits::<T>(mul_seq(ints(lhs@), ints(rhs@))),
            forall|j: int| 0 <= j < i ==> data[j].to_int() == lhs@[j].to_int() * rhs@[j].to_int(),
        decreases N - i,
    {
        assert(fits::<T>(mul_seq(ints(lhs@), ints(rhs@))[i as int]));
        data[i] = lhs.data[i].mul_val(rhs.data[i]);
        i += 1;
    }
    let r = Vector { data };
    assert(ints(r@) =~= mul_seq(ints(lhs@), ints(rhs@)));
    r
}

/// Component-wise `lhs / rhs`, rounding toward zero.
pub fn div_cw<T: ArithmeticType, const N: usize>(lhs: &Vector<T, N>, rhs: &Vector<T, N>) -> (r: Vector<T, N>)
    requires
        all_nonzero(ints(rhs@)),
        cw_fits::<T>(div_seq(ints(lhs@), ints(rhs@))),
    ensures
        ints(r@) == div_seq(ints(lhs@), ints(rhs@)),
{
    let mut data = lhs.data;
    let mut i: usize = 0;
    while i < N
        invariant
            i <= N,
            all_nonzero(ints(rhs@)),
            cw_fits::<T>(div_seq(ints(lhs@), ints(rhs@))),
            forall|j: int| 0 <= j < i ==> data[j].to_int() == trunc_div(lhs@[j].to_int(), rhs@[j].to_int()),
        decreases N - i,
    {
        assert(fits::<T>(div_seq(ints(lhs@), ints(rhs@))[i as int]));
        assert(ints(rhs@)[i as int] != 0);
        data[i] = lhs.data[i].div_val(rhs.data[i]);
        i += 1;
    }
    let r = Vector { data };
    assert(ints(r@) =~= div_seq(ints(lhs@), ints(rhs@)));
    r
}

/// Component-wise negation.
pub fn neg_cw<T: SignedType, const N: usize>(v: &Vector<T, N>) -> (r: Vector<T, N>)
    requires
        cw_fits::<T>(neg_seq(ints(v@))),
    ensures
        ints(r@) == neg_seq(ints(v@)),
{
    let mut data = v.data;
    let mut i: usize = 0;
    while i < N
        invariant
            i <= N,
            cw_fits::<T>(neg_seq(ints(v@))),
            forall|j: int| 0 <= j < i ==> data[j].to_int() == -v@[j].to_int(),
        decreases N - i,
    {
        assert(fits::<T>(neg_seq(ints(v@))[i as int]));
        data[i] = v.data[i].neg_val();
        i += 1;
    }
    let r = Vector { data };
    assert(ints(r@) =~= neg_seq(ints(v@)));
    r
}

/// Component-wise `lhs & rhs` of booleans.
pub fn and_cw<const N: usize>(lhs: &Vector<bool, N>, rhs: &Vector<bool, N>) -> (r: Vector<bool, N>)
    ensures
        r@ == and_seq(lhs@, rhs@),
{
    let mut data = [false; N];
    let mut i: usize = 0;
    while i < N
        invariant
            i <= N,
            forall|j: int| 0 <= j < i ==> data[j] == (lhs@[j] && rhs@[j]),
        decreases N - i,
    {
        data[i] = lhs.data[i] && rhs.data[i];
        i += 1;
    }
    let r = Vector { data };
    assert(r@ =~= and_seq(lhs@, rhs@));
    r
}

/// Component-wise `lhs | rhs` of booleans.
pub fn or_cw<const N: usize>(lhs: &Vector<bool, N>, rhs: &Vector<bool, N>) -> (r: Vector<bool, N>)
    ensures
        r@ == or_seq(lhs@, rhs@),
{
    let mut data = [false; N];
    let mut i: usize = 0;
    while i < N
        invariant
            i <= N,
            forall|j: int| 0 <= j < i ==> data[j] == (lhs@[j] || rhs@[j]),
        decreases N - i,
    {
        data[i] = lhs.data[i] || rhs.data[i];
        i += 1;
    }
    let r = Vector { data };
    assert(r@ =~= or_seq(lhs@, rhs@));
    r
}

/// Component-wise `lhs ^ rhs` of booleans.
pub fn xor_cw<const N: usize>(lhs: &Vector<bool, N>, rhs: &Vector<bool, N>) -> (r: Vector<bool, N>)
    ensures
        r@ == xor_seq(lhs@, rhs@),
{
    let mut data = [false; N];
    let mut i: usize = 0;
    while i < N
        invariant
            i <= N,
            forall|j: int| 0 <= j < i ==> data[j] == (lhs@[j] != rhs@[j]),
        decreases N - i,
    {
        data[i] = lhs.data[i] != rhs.data[i];
        i += 1;
    }
    let r = Vector { data };
    assert(r@ =~= xor_seq(lhs@, rhs@));
    r
}

// ===================================================
// Conversions
// ===================================================

impl<T: VectorizedType, const N: usize> Vector<T, N> {
    /// The vector whose first components are taken from `items`, in order, and whose
    /// remaining components, if `items` is shorter than `N`, are the default value.
    pub fn from_prefix(items: &[T]) -> (r: Self)
        ensures
            r@ == resized(items@, N as nat),
    {
        let mut data = [T::default_value(); N];
        let mut i: usize = 0;
        while i < N && i < items.len()
            invariant
                i <= N,
                i <= items@.len(),
                forall|j: int|
                    0 <= j < N ==> data[j] == (if j < i { items@[j] } else { T::spec_default() }),
            decreases N - i,
        {
            data[i] = items[i];
            i += 1;
        }
        let r = Vector { data };
        assert(r@ =~= resized(items@, N as nat));
        r
    }

    /// The components as an array.
    pub fn to_array(&self) -> (r: [T; N])
        ensures
            r@ == self@,
    {
        let r = self.data;
        assert(r@ =~= self@);
        r
    }

    /// An iterator over references to the components, in order.
    pub fn iter(&self) -> (r: core::slice::Iter<'_, T>)
        ensures
            vstd::std_specs::iter::IteratorSpec::remaining(&r) == self@.as_ref(),
    {
        let s = self.data.as_slice();
        proof {
            assert(s@ =~= self@);
        }
        s.iter()
    }
}

/// The mutable slice iterator of std, which `iter_mut` returns; its contents are opaque.
#[verifier::external_type_specification]
#[verifier::external_body]
#[verifier::reject_recursive_types(T)]
pub struct ExSliceIterMut<'a, T: 'a>(core::slice::IterMut<'a, T>);

impl<T: VectorizedType, const N: usize> Vector<T, N> {
    /// An iterator over mutable references to the components, in order.
    ///
    /// Trusted: calls std's `<[T]>::iter_mut` on the component array. No property of
    /// the iterator is stated.
    #[verifier::external_body]
    pub fn iter_mut(&mut self) -> core::slice::IterMut<'_, T> {
        self.data.iter_mut()
    }
}

/// Item `i` of `items`, or the default value past its end.
fn item_or_default<T: VectorizedType>(items: &[T], i: usize) -> (r: T)
    ensures
        r == (if i < items@.len() { items@[i as int] } else { T::spec_default() }),
{
    if i < items.len() {
        items[i]
    } else {
        T::default_value()
    }
}

impl<T: VectorizedType, const N: usize> core::iter::FromIterator<T> for Vector<T, N> {
    /// The first `N` items of the iterator, then default values if it runs out.
    ///
    /// Trusted: the body takes at most `N` items with std's `into_iter`, `take` and
    /// `collect`, and fills the components with std's `core::array::from_fn`, whose
    /// closure calls the verified `item_or_default`. Which items come out is up to
    /// the iterator, so nothing is stated of the result.
    #[verifier::external_body]
    fn from_iter<I: IntoIterator<Item = T>>(iter: I) -> Self {
        let items: Vec<T> = iter.into_iter().take(N).collect();
        Vector { data: core::array::from_fn(|i| item_or_default(&items, i)) }
    }
}

impl<'a, T: VectorizedType, const N: usize> core::iter::FromIterator<&'a T> for Vector<T, N> {
    /// The first `N` items of the iterator, copied, then default values if it runs out.
    ///
    /// Trusted: as for items by value, with std's `copied` after `take`.
    #[verifier::external_body]
    fn from_iter<I: IntoIterator<Item = &'a T>>(iter: I) -> Self {
        let items: Vec<T> = iter.into_iter().take(N).copied().collect();
        Vector { data: core::array::from_fn(|i| item_or_default(&items, i)) }
    }
}

impl<'a, T: VectorizedType, const N: usize> core::iter::FromIterator<&'a mut T> for Vector<T, N> {
    /// The first `N` items of the iterator, copied, then default values if it runs out.
    ///
    /// Trusted: as for items by value, each item copied out of its reference.
    #[verifier::external_body]
    fn from_iter<I: IntoIterator<Item = &'a mut T>>(iter: I) -> Self {
        let items: Vec<T> = iter.into_iter().take(N).map(|x| *x).collect();
        Vector { data: core::array::from_fn(|i| item_or_default(&items, i)) }
    }
}

/// Conversion into a vector of another length.
pub trait FromVec<T>: Sized {
    /// The value that `from_vec` builds from `value`.
    spec fn from_vec_spec(value: T) -> Self;

    fn from_vec(value: T) -> (r: Self)
        ensures
            r == Self::from_vec_spec(value),
    ;
}

/// Conversion of a vector into a vector of another length.
pub trait IntoVec<T> {
    /// The value that `into_vec` builds from `self`.
    spec fn into_vec_spec(self) -> T;

    fn into_vec(self) -> (r: T)
        ensures
            r == self.into_vec_spec(),
    ;
}

impl<U: FromVec<T>, T> IntoVec<U> for T {
    /// What `U::from_vec` builds from `self`.
    open spec fn into_vec_spec(self) -> U {
        U::from_vec_spec(self)
    }

    fn into_vec(self) -> U {
        U::from_vec(self)
    }
}

impl<'a, T: VectorizedType, const N: usize, const M: usize> FromVec<&'a Vector<T, N>> for Vector<T, M> {
    /// The vector whose components are those of `resized(value@, M)`.
    open spec fn from_vec_spec(value: &'a Vector<T, N>) -> Vector<T, M> {
        from_seq(resized(value@, M as nat))
    }

    /// The first `min(N, M)` components of `value`, followed by default values up to `M`.
    fn from_vec(value: &'a Vector<T, N>) -> (r: Vector<T, M>)
        ensures
            r@ == resized(value@, M as nat),
    {
        let r = Vector::<T, M>::from_prefix(value.data.as_slice());
        assert(r@ =~= resized(value@, M as nat));
        proof {
            lemma_from_seq(r);
        }
        r
    }
}

impl<T: VectorizedType, const N: usize, const M: usize> FromVec<Vector<T, N>> for Vector<T, M> {
    /// The vector whose components are those of `resized(value@, M)`.
    open spec fn from_vec_spec(value: Vector<T, N>) -> Vector<T, M> {
        from_seq(resized(value@, M as nat))
    }

    /// The first `min(N, M)` components of `value`, followed by default values up to `M`.
    fn from_vec(value: Vector<T, N>) -> (r: Vector<T, M>)
        ensures
            r@ == resized(value@, M as nat),
    {
        let r = Vector::<T, M>::from_prefix(value.data.as_slice());
        assert(r@ =~= resized(value@, M as nat));
        proof {
            lemma_from_seq(r);
        }
        r
    }
}

impl<'a, T: VectorizedType, const N: usize, const M: usize> FromVec<&'a mut Vector<T, N>> for Vector<T, M> {
    /// The vector whose components are those of `resized(value@, M)`.
    open spec fn from_vec_spec(value: &'a mut Vector<T, N>) -> Vector<T, M> {
        from_seq(resized(value@, M as nat))
    }

    /// The first `min(N, M)` components of `value`, followed by default values up to `M`.
    fn from_vec(value: &'a mut Vector<T, N>) -> (r: Vector<T, M>)
        ensures
            r@ == resized(old(value)@, M as nat),
            *final(value) == *old(value),
    {
        let r = Vector::<T, M>::from_prefix(value.data.as_slice());
        assert(r@ =~= resized(old(value)@, M as nat));
        proof {
            lemma_from_seq(r);
        }
        r
    }
}

impl<T: VectorizedType, const N: usize> Default for Vector<T, N> {
    /// The vector whose components all have the default value.
    fn default() -> (r: Self)
        ensures
            r@ == Seq::new(N as nat, |i: int| T::spec_default()),
    {
        let r = Vector { data: [T::default_value(); N] };
        assert(r@ =~= Seq::new(N as nat, |i: int| T::spec_default()));
        r
    }
}

impl<T: ArithmeticType, const N: usize> LengthSq for Vector<T, N> {
    type Output = T;

    open spec fn length_sq_req(&self) -> bool {
        dot_fits::<T>(ints(self@), ints(self@))
    }

    /// The dot product of the vector with itself.
    fn length_sq(&self) -> (r: T)
        ensures
            r.to_int() == dot_seq(ints(self@), ints(self@)),
    {
        dot(self, self)
    }
}

// ===================================================
// In-place arithmetic
// ===================================================

impl<T: ArithmeticType, const N: usize> Vector<T, N> {
    /// `*self = *self + rhs`, component-wise.
    pub fn add_assign(&mut self, rhs: &Vector<T, N>)
        requires
            cw_fits::<T>(add_seq(ints(old(self)@), ints(rhs@))),
        ensures
            ints(final(self)@) == add_seq(ints(old(self)@), ints(rhs@)),
    {
        *self = add_cw(self, rhs);
    }

    /// `*self = *self - rhs`, component-wise.
    pub fn sub_assign(&mut self, rhs: &Vector<T, N>)
        requires
            cw_fits::<T>(sub_seq(ints(old(self)@), ints(rhs@))),
        ensures
            ints(final(self)@) == sub_seq(ints(old(self)@), ints(rhs@)),
    {
        *self = sub_cw(self, rhs);
    }

    /// `*self = *self * rhs`, component-wise.
    pub fn mul_assign(&mut self, rhs: &Vector<T, N>)
        requires
            cw_fits::<T>(mul_seq(ints(old(self)@), ints(rhs@))),
        ensures
            ints(final(self)@) == mul_seq(ints(old(self)@), ints(rhs@)),
    {
        *self = mul_cw(self, rhs);
    }

    /// `*self = *self / rhs`, component-wise, rounding toward zero.
    pub fn div_assign(&mut self, rhs: &Vector<T, N>)
        requires
            all_nonzero(ints(rhs@)),
            cw_fits::<T>(div_seq(ints(old(self)@), ints(rhs@))),
        ensures
            ints(final(self)@) == div_seq(ints(old(self)@), ints(rhs@)),
    {
        *self = div_cw(self, rhs);
    }
}

} // verus!
