//! Laws that pin down what each operation computes, stated as relations between
//! operations and over all inputs: reductions grow by one factor or term per
//! component, comparisons agree with each other component by component, entry-wise
//! matrix arithmetic distributes over the matrix-vector product, and each
//! determinant is the alternating form that is linear in its first row and is 1
//! on the identity.
use crate::matrix::{det2, det3, identity_seq, mcof3, mcof4, madd, madd_s, mdiv_s, mat_vec, mdet2, mdet3, mdet4, mmul_s, mneg, msub, msub_s};
use crate::vector::{
    add_seq, all_seq, any_seq, clamp_seq, comp, div_seq, dot_seq, dot_upto, eq_seq, ints, le_seq, lt_seq, max_seq, min_seq,
    mul_seq, neg_seq, not_seq, product_seq, product_upto, resized, splat, sub_seq, sum_seq, sum_upto, Vector,
};
use crate::{trunc_div, ArithmeticType};
use vstd::arithmetic::mul::{
    lemma_mul_is_associative, lemma_mul_is_commutative, lemma_mul_is_distributive_add,
    lemma_mul_is_distributive_add_other_way, lemma_mul_is_distributive_sub, lemma_mul_is_distributive_sub_other_way,
};
use vstd::prelude::*;

verus! {

// ===================================================
// Default components
// ===================================================

/// The default component of every numeric type stands for 0, so an accessor of a
/// component that the vector lacks reads 0, and so does every component that
/// resizing adds.
pub proof fn law_default_component_is_zero<T: ArithmeticType, const N: usize>(v: Vector<T, N>, k: int, m: nat)
    requires
        N <= k,
    ensures
        T::spec_default().to_int() == 0,
        comp(v, k).to_int() == 0,
        forall|i: int| N <= i < m ==> (#[trigger] resized(v@, m)[i]).to_int() == 0,
{
    broadcast use crate::vector::lemma_vector_len;

    T::lemma_default_is_zero();
}

// ===================================================
// Reductions
// ===================================================

proof fn lemma_product_upto_push(a: Seq<int>, x: int, k: nat)
    requires
        k <= a.len(),
    ensures
        product_upto(a.push(x), k) == product_upto(a, k),
    decreases k,
{
    if k > 0 {
        lemma_product_upto_push(a, x, (k - 1) as nat);
    }
}

proof fn lemma_sum_upto_push(a: Seq<int>, x: int, k: nat)
    requires
        k <= a.len(),
    ensures
        sum_upto(a.push(x), k) == sum_upto(a, k),
    decreases k,
{
    if k > 0 {
        lemma_sum_upto_push(a, x, (k - 1) as nat);
    }
}

proof fn lemma_dot_upto_push(a: Seq<int>, b: Seq<int>, x: int, y: int, k: nat)
    requires
        k <= a.len(),
        k <= b.len(),
    ensures
        dot_upto(a.push(x), b.push(y), k) == dot_upto(a, b, k),
    decreases k,
{
    if k > 0 {
        lemma_dot_upto_push(a, b, x, y, (k - 1) as nat);
    }
}

/// The product of no components is 1, and one more component multiplies the
/// product by it: every component takes part.
pub proof fn law_product_push(a: Seq<int>, x: int)
    ensures
        product_seq(Seq::<int>::empty()) == 1,
        product_seq(a.push(x)) == product_seq(a) * x,
{
    lemma_product_upto_push(a, x, a.len());
}

/// The sum of no components is 0, and one more component adds itself to the sum.
pub proof fn law_sum_push(a: Seq<int>, x: int)
    ensures
        sum_seq(Seq::<int>::empty()) == 0,
        sum_seq(a.push(x)) == sum_seq(a) + x,
{
    lemma_sum_upto_push(a, x, a.len());
}

/// The dot product of no components is 0, and one more pair of components adds
/// their product.
pub proof fn law_dot_push(a: Seq<int>, b: Seq<int>, x: int, y: int)
    requires
        a.len() == b.len(),
    ensures
        dot_seq(Seq::<int>::empty(), Seq::<int>::empty()) == 0,
        dot_seq(a.push(x), b.push(y)) == dot_seq(a, b) + x * y,
{
    lemma_dot_upto_push(a, b, x, y, a.len());
}

// ===================================================
// Comparisons and selection
// ===================================================

/// Component by component: `a <= b` is `!(b < a)` and is `a < b || a == b`; `<` is
/// never true both ways; every vector is `<=` itself and `<` itself nowhere.
pub proof fn law_comparisons_agree(a: Seq<int>, b: Seq<int>)
    requires
        a.len() == b.len(),
    ensures
        le_seq(a, b).len() == a.len(),
        lt_seq(a, b).len() == a.len(),
        forall|i: int| 0 <= i < a.len() ==> #[trigger] le_seq(a, b)[i] == !lt_seq(b, a)[i],
        forall|i: int| 0 <= i < a.len() ==> #[trigger] le_seq(a, b)[i] == (lt_seq(a, b)[i] || eq_seq(a, b)[i]),
        forall|i: int| 0 <= i < a.len() ==> !(#[trigger] lt_seq(a, b)[i] && lt_seq(b, a)[i]),
        all_seq(le_seq(a, a)),
        !any_seq(lt_seq(a, a)),
{
    assert forall|i: int| 0 <= i < a.len() implies #[trigger] le_seq(a, a)[i] by {}
    if any_seq(lt_seq(a, a)) {
        let i = choose|i: int| 0 <= i < lt_seq(a, a).len() && lt_seq(a, a)[i];
        assert(!lt_seq(a, a)[i]);
    }
}

/// All components are equal exactly when the vectors are equal, and some
/// component differs exactly when they are not.
pub proof fn law_all_any_equality<T>(a: Seq<T>, b: Seq<T>)
    requires
        a.len() == b.len(),
    ensures
        all_seq(eq_seq(a, b)) <==> a == b,
        any_seq(not_seq(eq_seq(a, b))) <==> a != b,
{
    if all_seq(eq_seq(a, b)) {
        assert forall|i: int| 0 <= i < a.len() implies a[i] == b[i] by {
            assert(eq_seq(a, b)[i]);
        }
        assert(a =~= b);
    }
    if a == b {
        assert forall|i: int| 0 <= i < a.len() implies #[trigger] eq_seq(a, b)[i] by {}
    }
    if any_seq(not_seq(eq_seq(a, b))) {
        let i = choose|i: int| 0 <= i < not_seq(eq_seq(a, b)).len() && not_seq(eq_seq(a, b))[i];
        assert(a[i] != b[i]);
    }
    if a != b {
        if !any_seq(not_seq(eq_seq(a, b))) {
            assert forall|i: int| 0 <= i < a.len() implies a[i] == b[i] by {
                assert(!not_seq(eq_seq(a, b))[i]);
            }
            assert(a =~= b);
        }
    }
}

/// Component by component, the minimum is one of the two arguments and no more
/// than either, and the maximum is one of the two and no less than either.
pub proof fn law_min_max_select(a: Seq<int>, b: Seq<int>)
    requires
        a.len() == b.len(),
    ensures
        min_seq(a, b).len() == a.len(),
        max_seq(a, b).len() == a.len(),
        forall|i: int|
            0 <= i < a.len() ==> #[trigger] min_seq(a, b)[i] <= a[i] && min_seq(a, b)[i] <= b[i] && (
            min_seq(a, b)[i] == a[i] || min_seq(a, b)[i] == b[i]),
        forall|i: int|
            0 <= i < a.len() ==> #[trigger] max_seq(a, b)[i] >= a[i] && max_seq(a, b)[i] >= b[i] && (
            max_seq(a, b)[i] == a[i] || max_seq(a, b)[i] == b[i]),
{
}

/// With `lo <= hi`, clamping is the maximum of `lo` and the minimum of the value
/// and `hi`.
pub proof fn law_clamp_is_min_max(a: Seq<int>, lo: Seq<int>, hi: Seq<int>)
    requires
        a.len() == lo.len(),
        a.len() == hi.len(),
        forall|i: int| 0 <= i < a.len() ==> lo[i] <= hi[i],
    ensures
        clamp_seq(a, lo, hi) == max_seq(min_seq(a, hi), lo),
{
    assert(clamp_seq(a, lo, hi) =~= max_seq(min_seq(a, hi), lo));
}


// ===================================================
// Entry-wise matrix arithmetic
// ===================================================

/// `(-x) * v == -(x * v)`
proof fn lemma_neg_mul(x: int, v: int)
    by (nonlinear_arith)
    ensures
        (-x) * v == -(x * v),
{
}

/// `(x * k) * v == k * (x * v)`
proof fn lemma_scaled_mul(x: int, k: int, v: int)
    by (nonlinear_arith)
    ensures
        (x * k) * v == k * (x * v),
{
}

proof fn lemma_dot_upto_add(x: Seq<int>, y: Seq<int>, v: Seq<int>, k: nat)
    requires
        k <= x.len(),
        x.len() == y.len(),
    ensures
        dot_upto(add_seq(x, y), v, k) == dot_upto(x, v, k) + dot_upto(y, v, k),
    decreases k,
{
    if k > 0 {
        lemma_dot_upto_add(x, y, v, (k - 1) as nat);
        lemma_mul_is_distributive_add_other_way(v[k - 1], x[k - 1], y[k - 1]);
    }
}

proof fn lemma_dot_upto_sub(x: Seq<int>, y: Seq<int>, v: Seq<int>, k: nat)
    requires
        k <= x.len(),
        x.len() == y.len(),
    ensures
        dot_upto(sub_seq(x, y), v, k) == dot_upto(x, v, k) - dot_upto(y, v, k),
    decreases k,
{
    if k > 0 {
        lemma_dot_upto_sub(x, y, v, (k - 1) as nat);
        lemma_mul_is_distributive_sub_other_way(v[k - 1], x[k - 1], y[k - 1]);
    }
}

proof fn lemma_dot_upto_neg(x: Seq<int>, v: Seq<int>, k: nat)
    requires
        k <= x.len(),
    ensures
        dot_upto(neg_seq(x), v, k) == -dot_upto(x, v, k),
    decreases k,
{
    if k > 0 {
        lemma_dot_upto_neg(x, v, (k - 1) as nat);
        lemma_neg_mul(x[k - 1], v[k - 1]);
    }
}

proof fn lemma_dot_upto_scaled(x: Seq<int>, s: int, v: Seq<int>, k: nat)
    requires
        k <= x.len(),
    ensures
        dot_upto(mul_seq(x, splat(s, x.len())), v, k) == s * dot_upto(x, v, k),
    decreases k,
{
    if k > 0 {
        lemma_dot_upto_scaled(x, s, v, (k - 1) as nat);
        lemma_scaled_mul(x[k - 1], s, v[k - 1]);
        lemma_mul_is_distributive_add(s, dot_upto(x, v, (k - 1) as nat), x[k - 1] * v[k - 1]);
    }
}

proof fn lemma_dot_upto_splat(s: int, n: nat, v: Seq<int>, k: nat)
    requires
        k <= n,
    ensures
        dot_upto(splat(s, n), v, k) == s * sum_upto(v, k),
    decreases k,
{
    if k > 0 {
        lemma_dot_upto_splat(s, n, v, (k - 1) as nat);
        lemma_mul_is_distributive_add(s, sum_upto(v, (k - 1) as nat), v[k - 1]);
    }
}

/// Adding matrices entry by entry: the sum of two matrices times a vector is the
/// sum of the two products, and the sum is commutative and undone by subtraction.
pub proof fn law_madd_entrywise(a: Seq<Seq<int>>, b: Seq<Seq<int>>, v: Seq<int>)
    requires
        a.len() == b.len(),
        forall|i: int| 0 <= i < a.len() ==> (#[trigger] a[i]).len() == v.len() && b[i].len() == v.len(),
    ensures
        mat_vec(madd(a, b), v) == add_seq(mat_vec(a, v), mat_vec(b, v)),
        madd(a, b) == madd(b, a),
        msub(madd(a, b), b) == a,
{
    assert forall|i: int| 0 <= i < a.len() implies #[trigger] mat_vec(madd(a, b), v)[i] == add_seq(
        mat_vec(a, v),
        mat_vec(b, v),
    )[i] by {
        lemma_dot_upto_add(a[i], b[i], v, v.len());
    }
    assert(mat_vec(madd(a, b), v) =~= add_seq(mat_vec(a, v), mat_vec(b, v)));
    assert forall|i: int| 0 <= i < a.len() implies #[trigger] madd(a, b)[i] =~= madd(b, a)[i] by {}
    assert(madd(a, b) =~= madd(b, a));
    assert forall|i: int| 0 <= i < a.len() implies #[trigger] msub(madd(a, b), b)[i] =~= a[i] by {}
    assert(msub(madd(a, b), b) =~= a);
}

/// Subtracting matrices entry by entry: the difference times a vector is the
/// difference of the two products.
pub proof fn law_msub_entrywise(a: Seq<Seq<int>>, b: Seq<Seq<int>>, v: Seq<int>)
    requires
        a.len() == b.len(),
        forall|i: int| 0 <= i < a.len() ==> (#[trigger] a[i]).len() == v.len() && b[i].len() == v.len(),
    ensures
        mat_vec(msub(a, b), v) == sub_seq(mat_vec(a, v), mat_vec(b, v)),
{
    assert forall|i: int| 0 <= i < a.len() implies #[trigger] mat_vec(msub(a, b), v)[i] == sub_seq(
        mat_vec(a, v),
        mat_vec(b, v),
    )[i] by {
        lemma_dot_upto_sub(a[i], b[i], v, v.len());
    }
    assert(mat_vec(msub(a, b), v) =~= sub_seq(mat_vec(a, v), mat_vec(b, v)));
}

/// Negating a matrix negates its product with any vector, and a matrix plus its
/// negation is the zero matrix.
pub proof fn law_mneg_entrywise(a: Seq<Seq<int>>, v: Seq<int>)
    requires
        forall|i: int| 0 <= i < a.len() ==> (#[trigger] a[i]).len() == v.len(),
    ensures
        mat_vec(mneg(a), v) == neg_seq(mat_vec(a, v)),
        madd(a, mneg(a)) == Seq::new(a.len(), |i: int| splat(0, v.len())),
{
    assert forall|i: int| 0 <= i < a.len() implies #[trigger] mat_vec(mneg(a), v)[i] == neg_seq(mat_vec(a, v))[i] by {
        lemma_dot_upto_neg(a[i], v, v.len());
    }
    assert(mat_vec(mneg(a), v) =~= neg_seq(mat_vec(a, v)));
    assert forall|i: int| 0 <= i < a.len() implies #[trigger] madd(a, mneg(a))[i] =~= splat(0, v.len()) by {}
    assert(madd(a, mneg(a)) =~= Seq::new(a.len(), |i: int| splat(0, v.len())));
}

/// A matrix with a scalar: multiplying every entry by `s` multiplies its product
/// with a vector by `s`; adding or subtracting `s` at every entry adds or
/// subtracts `s` times the sum of the vector.
pub proof fn law_mscalar_entrywise(a: Seq<Seq<int>>, s: int, v: Seq<int>)
    requires
        forall|i: int| 0 <= i < a.len() ==> (#[trigger] a[i]).len() == v.len(),
    ensures
        mat_vec(mmul_s(a, s), v) == mul_seq(mat_vec(a, v), splat(s, a.len())),
        mat_vec(madd_s(a, s), v) == add_seq(mat_vec(a, v), splat(s * sum_seq(v), a.len())),
        mat_vec(msub_s(a, s), v) == sub_seq(mat_vec(a, v), splat(s * sum_seq(v), a.len())),
{
    assert forall|i: int| 0 <= i < a.len() implies #[trigger] mat_vec(mmul_s(a, s), v)[i] == mul_seq(
        mat_vec(a, v),
        splat(s, a.len()),
    )[i] by {
        lemma_dot_upto_scaled(a[i], s, v, v.len());
        lemma_mul_is_commutative(s, dot_seq(a[i], v));
    }
    assert(mat_vec(mmul_s(a, s), v) =~= mul_seq(mat_vec(a, v), splat(s, a.len())));
    assert forall|i: int| 0 <= i < a.len() implies #[trigger] mat_vec(madd_s(a, s), v)[i] == add_seq(
        mat_vec(a, v),
        splat(s * sum_seq(v), a.len()),
    )[i] by {
        lemma_dot_upto_add(a[i], splat(s, a[i].len()), v, v.len());
        lemma_dot_upto_splat(s, a[i].len(), v, v.len());
    }
    assert(mat_vec(madd_s(a, s), v) =~= add_seq(mat_vec(a, v), splat(s * sum_seq(v), a.len())));
    assert forall|i: int| 0 <= i < a.len() implies #[trigger] mat_vec(msub_s(a, s), v)[i] == sub_seq(
        mat_vec(a, v),
        splat(s * sum_seq(v), a.len()),
    )[i] by {
        lemma_dot_upto_sub(a[i], splat(s, a[i].len()), v, v.len());
        lemma_dot_upto_splat(s, a[i].len(), v, v.len());
    }
    assert(mat_vec(msub_s(a, s), v) =~= sub_seq(mat_vec(a, v), splat(s * sum_seq(v), a.len())));
}


// ===================================================
// Determinants
// ===================================================

/// `x * (y * k) == k * (x * y)`
proof fn lemma_mul_scaled(x: int, y: int, k: int)
    by (nonlinear_arith)
    ensures
        x * (y * k) == k * (x * y),
{
}

/// The 2x2 determinant is 1 on the identity, changes sign when the rows are
/// swapped, and is linear in the first row. These three properties determine it.
pub proof fn law_det2_characterized(m: Seq<Seq<int>>, u: Seq<int>, w: Seq<int>, k: int)
    requires
        m.len() == 2,
        forall|i: int| 0 <= i < 2 ==> (#[trigger] m[i]).len() == 2,
        u.len() == 2,
        w.len() == 2,
    ensures
        mdet2(identity_seq(2, 2)) == 1,
        mdet2(m.update(0, m[1]).update(1, m[0])) == -mdet2(m),
        mdet2(m.update(0, add_seq(u, w))) == mdet2(m.update(0, u)) + mdet2(m.update(0, w)),
        mdet2(m.update(0, mul_seq(u, splat(k, 2)))) == k * mdet2(m.update(0, u)),
{
    let id = identity_seq(2, 2);
    assert(id[0][0] == 1 && id[0][1] == 0 && id[1][0] == 0 && id[1][1] == 1);
    let (c, d) = (m[1][0], m[1][1]);
    lemma_mul_is_distributive_add_other_way(d, u[0], w[0]);
    lemma_mul_is_distributive_add(c, u[1], w[1]);
    lemma_scaled_mul(u[0], k, d);
    lemma_mul_scaled(c, u[1], k);
    lemma_mul_is_distributive_sub(k, u[0] * d, c * u[1]);
}

/// `det3` as the sum of its six products, each written in argument order.
pub(crate) proof fn lemma_det3_expanded(a: int, b: int, c: int, d: int, e: int, f: int, g: int, h: int, i: int)
    ensures
        det3(a, b, c, d, e, f, g, h, i) == a * e * i - a * h * f - b * d * i + b * g * f + c * d * h - c * g * e,
{
    crate::laws::lemma_mul_det2(a, e, f, h, i);
    crate::laws::lemma_mul_det2(b, d, f, g, i);
    crate::laws::lemma_mul_det2(c, d, e, g, h);
}

/// `k * (p - q + r) == k * p - k * q + k * r`
proof fn lemma_scale_sum3(k: int, p: int, q: int, r: int)
    by (nonlinear_arith)
    ensures
        k * (p - q + r) == k * p - k * q + k * r,
{
}

/// The 3x3 determinant is 1 on the identity, changes sign when two neighbouring
/// rows are swapped, and is linear in the first row. These properties determine it.
pub proof fn law_det3_characterized(m: Seq<Seq<int>>, u: Seq<int>, w: Seq<int>, k: int)
    requires
        m.len() == 3,
        forall|i: int| 0 <= i < 3 ==> (#[trigger] m[i]).len() == 3,
        u.len() == 3,
        w.len() == 3,
    ensures
        mdet3(identity_seq(3, 3)) == 1,
        mdet3(m.update(0, m[1]).update(1, m[0])) == -mdet3(m),
        mdet3(m.update(1, m[2]).update(2, m[1])) == -mdet3(m),
        mdet3(m.update(0, add_seq(u, w))) == mdet3(m.update(0, u)) + mdet3(m.update(0, w)),
        mdet3(m.update(0, mul_seq(u, splat(k, 3)))) == k * mdet3(m.update(0, u)),
{
    let id = identity_seq(3, 3);
    assert(id[0][0] == 1 && id[0][1] == 0 && id[0][2] == 0);
    assert(id[1][0] == 0 && id[1][1] == 1 && id[1][2] == 0);
    assert(id[2][0] == 0 && id[2][1] == 0 && id[2][2] == 1);
    let (a, b, c) = (m[0][0], m[0][1], m[0][2]);
    let (d, e, f) = (m[1][0], m[1][1], m[1][2]);
    let (g, h, i) = (m[2][0], m[2][1], m[2][2]);
    // rows 0 and 1 swapped
    lemma_det3_expanded(a, b, c, d, e, f, g, h, i);
    lemma_det3_expanded(d, e, f, a, b, c, g, h, i);
    crate::laws::lemma_prod3(d, b, i);
    crate::laws::lemma_prod3(d, h, c);
    crate::laws::lemma_prod3(e, a, i);
    crate::laws::lemma_prod3(e, g, c);
    crate::laws::lemma_prod3(f, a, h);
    crate::laws::lemma_prod3(f, g, b);
    // rows 1 and 2 swapped
    lemma_mul_is_distributive_sub(a, h * f, e * i);
    lemma_mul_is_distributive_sub(a, e * i, h * f);
    lemma_mul_is_distributive_sub(b, g * f, d * i);
    lemma_mul_is_distributive_sub(b, d * i, g * f);
    lemma_mul_is_distributive_sub(c, g * e, d * h);
    lemma_mul_is_distributive_sub(c, d * h, g * e);
    // linear in the first row
    let (x1, x2, x3) = (det2(e, f, h, i), det2(d, f, g, i), det2(d, e, g, h));
    lemma_mul_is_distributive_add_other_way(x1, u[0], w[0]);
    lemma_mul_is_distributive_add_other_way(x2, u[1], w[1]);
    lemma_mul_is_distributive_add_other_way(x3, u[2], w[2]);
    lemma_scaled_mul(u[0], k, x1);
    lemma_scaled_mul(u[1], k, x2);
    lemma_scaled_mul(u[2], k, x3);
    lemma_scale_sum3(k, u[0] * x1, u[1] * x2, u[2] * x3);
}


/// Swapping rows 0 and 1 of a 4x4 matrix negates its determinant.
proof fn lemma_det4_swap01(x: Seq<Seq<int>>)
    requires
        x.len() == 4,
        forall|i: int| 0 <= i < 4 ==> (#[trigger] x[i]).len() == 4,
    ensures
        mdet4(x.update(0, x[1]).update(1, x[0])) == -mdet4(x),
{
    let s = x.update(0, x[1]).update(1, x[0]);
    crate::laws::lemma_det4_expanded(x[0][0], x[0][1], x[0][2], x[0][3], x[1][0], x[1][1], x[1][2], x[1][3], x[2][0], x[2][1], x[2][2], x[2][3], x[3][0], x[3][1], x[3][2], x[3][3]);
    crate::laws::lemma_det4_expanded(s[0][0], s[0][1], s[0][2], s[0][3], s[1][0], s[1][1], s[1][2], s[1][3], s[2][0], s[2][1], s[2][2], s[2][3], s[3][0], s[3][1], s[3][2], s[3][3]);
    assert(s[0][0] == x[1][0]);
    assert(s[0][1] == x[1][1]);
    assert(s[0][2] == x[1][2]);
    assert(s[0][3] == x[1][3]);
    assert(s[1][0] == x[0][0]);
    assert(s[1][1] == x[0][1]);
    assert(s[1][2] == x[0][2]);
    assert(s[1][3] == x[0][3]);
    assert(s[2][0] == x[2][0]);
    assert(s[2][1] == x[2][1]);
    assert(s[2][2] == x[2][2]);
    assert(s[2][3] == x[2][3]);
    assert(s[3][0] == x[3][0]);
    assert(s[3][1] == x[3][1]);
    assert(s[3][2] == x[3][2]);
    assert(s[3][3] == x[3][3]);
    crate::laws::lemma_prod3(x[0][1], x[2][2], x[3][3]);
    crate::laws::lemma_prod4(x[1][0], x[0][1], x[2][2], x[3][3]);
    crate::laws::lemma_prod3(x[1][0], x[2][2], x[3][3]);
    crate::laws::lemma_prod4(x[0][1], x[1][0], x[2][2], x[3][3]);
    crate::laws::lemma_prod3(x[0][1], x[2][3], x[3][2]);
    crate::laws::lemma_prod4(x[1][0], x[0][1], x[2][3], x[3][2]);
    crate::laws::lemma_prod3(x[1][0], x[2][3], x[3][2]);
    crate::laws::lemma_prod4(x[0][1], x[1][0], x[2][3], x[3][2]);
    crate::laws::lemma_prod3(x[0][2], x[2][1], x[3][3]);
    crate::laws::lemma_prod4(x[1][0], x[0][2], x[2][1], x[3][3]);
    crate::laws::lemma_prod3(x[1][0], x[2][1], x[3][3]);
    crate::laws::lemma_prod4(x[0][2], x[1][0], x[2][1], x[3][3]);
    crate::laws::lemma_prod3(x[0][2], x[2][3], x[3][1]);
    crate::laws::lemma_prod4(x[1][0], x[0][2], x[2][3], x[3][1]);
    crate::laws::lemma_prod3(x[1][0], x[2][3], x[3][1]);
    crate::laws::lemma_prod4(x[0][2], x[1][0], x[2][3], x[3][1]);
    crate::laws::lemma_prod3(x[0][3], x[2][1], x[3][2]);
    crate::laws::lemma_prod4(x[1][0], x[0][3], x[2][1], x[3][2]);
    crate::laws::lemma_prod3(x[1][0], x[2][1], x[3][2]);
    crate::laws::lemma_prod4(x[0][3], x[1][0], x[2][1], x[3][2]);
    crate::laws::lemma_prod3(x[0][3], x[2][2], x[3][1]);
    crate::laws::lemma_prod4(x[1][0], x[0][3], x[2][2], x[3][1]);
    crate::laws::lemma_prod3(x[1][0], x[2][2], x[3][1]);
    crate::laws::lemma_prod4(x[0][3], x[1][0], x[2][2], x[3][1]);
    crate::laws::lemma_prod3(x[0][0], x[2][2], x[3][3]);
    crate::laws::lemma_prod4(x[1][1], x[0][0], x[2][2], x[3][3]);
    crate::laws::lemma_prod3(x[1][1], x[2][2], x[3][3]);
    crate::laws::lemma_prod4(x[0][0], x[1][1], x[2][2], x[3][3]);
    crate::laws::lemma_prod3(x[0][0], x[2][3], x[3][2]);
    crate::laws::lemma_prod4(x[1][1], x[0][0], x[2][3], x[3][2]);
    crate::laws::lemma_prod3(x[1][1], x[2][3], x[3][2]);
    crate::laws::lemma_prod4(x[0][0], x[1][1], x[2][3], x[3][2]);
    crate::laws::lemma_prod3(x[0][2], x[2][0], x[3][3]);
    crate::laws::lemma_prod4(x[1][1], x[0][2], x[2][0], x[3][3]);
    crate::laws::lemma_prod3(x[1][1], x[2][0], x[3][3]);
    crate::laws::lemma_prod4(x[0][2], x[1][1], x[2][0], x[3][3]);
    crate::laws::lemma_prod3(x[0][2], x[2][3], x[3][0]);
    crate::laws::lemma_prod4(x[1][1], x[0][2], x[2][3], x[3][0]);
    crate::laws::lemma_prod3(x[1][1], x[2][3], x[3][0]);
    crate::laws::lemma_prod4(x[0][2], x[1][1], x[2][3], x[3][0]);
    crate::laws::lemma_prod3(x[0][3], x[2][0], x[3][2]);
    crate::laws::lemma_prod4(x[1][1], x[0][3], x[2][0], x[3][2]);
    crate::laws::lemma_prod3(x[1][1], x[2][0], x[3][2]);
    crate::laws::lemma_prod4(x[0][3], x[1][1], x[2][0], x[3][2]);
    crate::laws::lemma_prod3(x[0][3], x[2][2], x[3][0]);
    crate::laws::lemma_prod4(x[1][1], x[0][3], x[2][2], x[3][0]);
    crate::laws::lemma_prod3(x[1][1], x[2][2], x[3][0]);
    crate::laws::lemma_prod4(x[0][3], x[1][1], x[2][2], x[3][0]);
    crate::laws::lemma_prod3(x[0][0], x[2][1], x[3][3]);
    crate::laws::lemma_prod4(x[1][2], x[0][0], x[2][1], x[3][3]);
    crate::laws::lemma_prod3(x[1][2], x[2][1], x[3][3]);
    crate::laws::lemma_prod4(x[0][0], x[1][2], x[2][1], x[3][3]);
    crate::laws::lemma_prod3(x[0][0], x[2][3], x[3][1]);
    crate::laws::lemma_prod4(x[1][2], x[0][0], x[2][3], x[3][1]);
    crate::laws::lemma_prod3(x[1][2], x[2][3], x[3][1]);
    crate::laws::lemma_prod4(x[0][0], x[1][2], x[2][3], x[3][1]);
    crate::laws::lemma_prod3(x[0][1], x[2][0], x[3][3]);
    crate::laws::lemma_prod4(x[1][2], x[0][1], x[2][0], x[3][3]);
    crate::laws::lemma_prod3(x[1][2], x[2][0], x[3][3]);
    crate::laws::lemma_prod4(x[0][1], x[1][2], x[2][0], x[3][3]);
    crate::laws::lemma_prod3(x[0][1], x[2][3], x[3][0]);
    crate::laws::lemma_prod4(x[1][2], x[0][1], x[2][3], x[3][0]);
    crate::laws::lemma_prod3(x[1][2], x[2][3], x[3][0]);
    crate::laws::lemma_prod4(x[0][1], x[1][2], x[2][3], x[3][0]);
    crate::laws::lemma_prod3(x[0][3], x[2][0], x[3][1]);
    crate::laws::lemma_prod4(x[1][2], x[0][3], x[2][0], x[3][1]);
    crate::laws::lemma_prod3(x[1][2], x[2][0], x[3][1]);
    crate::laws::lemma_prod4(x[0][3], x[1][2], x[2][0], x[3][1]);
    crate::laws::lemma_prod3(x[0][3], x[2][1], x[3][0]);
    crate::laws::lemma_prod4(x[1][2], x[0][3], x[2][1], x[3][0]);
    crate::laws::lemma_prod3(x[1][2], x[2][1], x[3][0]);
    crate::laws::lemma_prod4(x[0][3], x[1][2], x[2][1], x[3][0]);
    crate::laws::lemma_prod3(x[0][0], x[2][1], x[3][2]);
    crate::laws::lemma_prod4(x[1][3], x[0][0], x[2][1], x[3][2]);
    crate::laws::lemma_prod3(x[1][3], x[2][1], x[3][2]);
    crate::laws::lemma_prod4(x[0][0], x[1][3], x[2][1], x[3][2]);
    crate::laws::lemma_prod3(x[0][0], x[2][2], x[3][1]);
    crate::laws::lemma_prod4(x[1][3], x[0][0], x[2][2], x[3][1]);
    crate::laws::lemma_prod3(x[1][3], x[2][2], x[3][1]);
    crate::laws::lemma_prod4(x[0][0], x[1][3], x[2][2], x[3][1]);
    crate::laws::lemma_prod3(x[0][1], x[2][0], x[3][2]);
    crate::laws::lemma_prod4(x[1][3], x[0][1], x[2][0], x[3][2]);
    crate::laws::lemma_prod3(x[1][3], x[2][0], x[3][2]);
    crate::laws::lemma_prod4(x[0][1], x[1][3], x[2][0], x[3][2]);
    crate::laws::lemma_prod3(x[0][1], x[2][2], x[3][0]);
    crate::laws::lemma_prod4(x[1][3], x[0][1], x[2][2], x[3][0]);
    crate::laws::lemma_prod3(x[1][3], x[2][2], x[3][0]);
    crate::laws::lemma_prod4(x[0][1], x[1][3], x[2][2], x[3][0]);
    crate::laws::lemma_prod3(x[0][2], x[2][0], x[3][1]);
    crate::laws::lemma_prod4(x[1][3], x[0][2], x[2][0], x[3][1]);
    crate::laws::lemma_prod3(x[1][3], x[2][0], x[3][1]);
    crate::laws::lemma_prod4(x[0][2], x[1][3], x[2][0], x[3][1]);
    crate::laws::lemma_prod3(x[0][2], x[2][1], x[3][0]);
    crate::laws::lemma_prod4(x[1][3], x[0][2], x[2][1], x[3][0]);
    crate::laws::lemma_prod3(x[1][3], x[2][1], x[3][0]);
    crate::laws::lemma_prod4(x[0][2], x[1][3], x[2][1], x[3][0]);
}

/// Swapping rows 1 and 2 of a 4x4 matrix negates its determinant.
proof fn lemma_det4_swap12(x: Seq<Seq<int>>)
    requires
        x.len() == 4,
        forall|i: int| 0 <= i < 4 ==> (#[trigger] x[i]).len() == 4,
    ensures
        mdet4(x.update(1, x[2]).update(2, x[1])) == -mdet4(x),
{
    let s = x.update(1, x[2]).update(2, x[1]);
    crate::laws::lemma_det4_expanded(x[0][0], x[0][1], x[0][2], x[0][3], x[1][0], x[1][1], x[1][2], x[1][3], x[2][0], x[2][1], x[2][2], x[2][3], x[3][0], x[3][1], x[3][2], x[3][3]);
    crate::laws::lemma_det4_expanded(s[0][0], s[0][1], s[0][2], s[0][3], s[1][0], s[1][1], s[1][2], s[1][3], s[2][0], s[2][1], s[2][2], s[2][3], s[3][0], s[3][1], s[3][2], s[3][3]);
    assert(s[0][0] == x[0][0]);
    assert(s[0][1] == x[0][1]);
    assert(s[0][2] == x[0][2]);
    assert(s[0][3] == x[0][3]);
    assert(s[1][0] == x[2][0]);
    assert(s[1][1] == x[2][1]);
    assert(s[1][2] == x[2][2]);
    assert(s[1][3] == x[2][3]);
    assert(s[2][0] == x[1][0]);
    assert(s[2][1] == x[1][1]);
    assert(s[2][2] == x[1][2]);
    assert(s[2][3] == x[1][3]);
    assert(s[3][0] == x[3][0]);
    assert(s[3][1] == x[3][1]);
    assert(s[3][2] == x[3][2]);
    assert(s[3][3] == x[3][3]);
    crate::laws::lemma_prod3(x[2][1], x[1][2], x[3][3]);
    crate::laws::lemma_prod4(x[0][0], x[1][2], x[2][1], x[3][3]);
    crate::laws::lemma_prod3(x[1][2], x[2][1], x[3][3]);
    crate::laws::lemma_prod4(x[0][0], x[1][2], x[2][1], x[3][3]);
    crate::laws::lemma_prod3(x[2][1], x[1][3], x[3][2]);
    crate::laws::lemma_prod4(x[0][0], x[1][3], x[2][1], x[3][2]);
    crate::laws::lemma_prod3(x[1][3], x[2][1], x[3][2]);
    crate::laws::lemma_prod4(x[0][0], x[1][3], x[2][1], x[3][2]);
    crate::laws::lemma_prod3(x[2][2], x[1][1], x[3][3]);
    crate::laws::lemma_prod4(x[0][0], x[1][1], x[2][2], x[3][3]);
    crate::laws::lemma_prod3(x[1][1], x[2][2], x[3][3]);
    crate::laws::lemma_prod4(x[0][0], x[1][1], x[2][2], x[3][3]);
    crate::laws::lemma_prod3(x[2][2], x[1][3], x[3][1]);
    crate::laws::lemma_prod4(x[0][0], x[1][3], x[2][2], x[3][1]);
    crate::laws::lemma_prod3(x[1][3], x[2][2], x[3][1]);
    crate::laws::lemma_prod4(x[0][0], x[1][3], x[2][2], x[3][1]);
    crate::laws::lemma_prod3(x[2][3], x[1][1], x[3][2]);
    crate::laws::lemma_prod4(x[0][0], x[1][1], x[2][3], x[3][2]);
    crate::laws::lemma_prod3(x[1][1], x[2][3], x[3][2]);
    crate::laws::lemma_prod4(x[0][0], x[1][1], x[2][3], x[3][2]);
    crate::laws::lemma_prod3(x[2][3], x[1][2], x[3][1]);
    crate::laws::lemma_prod4(x[0][0], x[1][2], x[2][3], x[3][1]);
    crate::laws::lemma_prod3(x[1][2], x[2][3], x[3][1]);
    crate::laws::lemma_prod4(x[0][0], x[1][2], x[2][3], x[3][1]);
    crate::laws::lemma_prod3(x[2][0], x[1][2], x[3][3]);
    crate::laws::lemma_prod4(x[0][1], x[1][2], x[2][0], x[3][3]);
    crate::laws::lemma_prod3(x[1][2], x[2][0], x[3][3]);
    crate::laws::lemma_prod4(x[0][1], x[1][2], x[2][0], x[3][3]);
    crate::laws::lemma_prod3(x[2][0], x[1][3], x[3][2]);
    crate::laws::lemma_prod4(x[0][1], x[1][3], x[2][0], x[3][2]);
    crate::laws::lemma_prod3(x[1][3], x[2][0], x[3][2]);
    crate::laws::lemma_prod4(x[0][1], x[1][3], x[2][0], x[3][2]);
    crate::laws::lemma_prod3(x[2][2], x[1][0], x[3][3]);
    crate::laws::lemma_prod4(x[0][1], x[1][0], x[2][2], x[3][3]);
    crate::laws::lemma_prod3(x[1][0], x[2][2], x[3][3]);
    crate::laws::lemma_prod4(x[0][1], x[1][0], x[2][2], x[3][3]);
    crate::laws::lemma_prod3(x[2][2], x[1][3], x[3][0]);
    crate::laws::lemma_prod4(x[0][1], x[1][3], x[2][2], x[3][0]);
    crate::laws::lemma_prod3(x[1][3], x[2][2], x[3][0]);
    crate::laws::lemma_prod4(x[0][1], x[1][3], x[2][2], x[3][0]);
    crate::laws::lemma_prod3(x[2][3], x[1][0], x[3][2]);
    crate::laws::lemma_prod4(x[0][1], x[1][0], x[2][3], x[3][2]);
    crate::laws::lemma_prod3(x[1][0], x[2][3], x[3][2]);
    crate::laws::lemma_prod4(x[0][1], x[1][0], x[2][3], x[3][2]);
    crate::laws::lemma_prod3(x[2][3], x[1][2], x[3][0]);
    crate::laws::lemma_prod4(x[0][1], x[1][2], x[2][3], x[3][0]);
    crate::laws::lemma_prod3(x[1][2], x[2][3], x[3][0]);
    crate::laws::lemma_prod4(x[0][1], x[1][2], x[2][3], x[3][0]);
    crate::laws::lemma_prod3(x[2][0], x[1][1], x[3][3]);
    crate::laws::lemma_prod4(x[0][2], x[1][1], x[2][0], x[3][3]);
    crate::laws::lemma_prod3(x[1][1], x[2][0], x[3][3]);
    crate::laws::lemma_prod4(x[0][2], x[1][1], x[2][0], x[3][3]);
    crate::laws::lemma_prod3(x[2][0], x[1][3], x[3][1]);
    crate::laws::lemma_prod4(x[0][2], x[1][3], x[2][0], x[3][1]);
    crate::laws::lemma_prod3(x[1][3], x[2][0], x[3][1]);
    crate::laws::lemma_prod4(x[0][2], x[1][3], x[2][0], x[3][1]);
    crate::laws::lemma_prod3(x[2][1], x[1][0], x[3][3]);
    crate::laws::lemma_prod4(x[0][2], x[1][0], x[2][1], x[3][3]);
    crate::laws::lemma_prod3(x[1][0], x[2][1], x[3][3]);
    crate::laws::lemma_prod4(x[0][2], x[1][0], x[2][1], x[3][3]);
    crate::laws::lemma_prod3(x[2][1], x[1][3], x[3][0]);
    crate::laws::lemma_prod4(x[0][2], x[1][3], x[2][1], x[3][0]);
    crate::laws::lemma_prod3(x[1][3], x[2][1], x[3][0]);
    crate::laws::lemma_prod4(x[0][2], x[1][3], x[2][1], x[3][0]);
    crate::laws::lemma_prod3(x[2][3], x[1][0], x[3][1]);
    crate::laws::lemma_prod4(x[0][2], x[1][0], x[2][3], x[3][1]);
    crate::laws::lemma_prod3(x[1][0], x[2][3], x[3][1]);
    crate::laws::lemma_prod4(x[0][2], x[1][0], x[2][3], x[3][1]);
    crate::laws::lemma_prod3(x[2][3], x[1][1], x[3][0]);
    crate::laws::lemma_prod4(x[0][2], x[1][1], x[2][3], x[3][0]);
    crate::laws::lemma_prod3(x[1][1], x[2][3], x[3][0]);
    crate::laws::lemma_prod4(x[0][2], x[1][1], x[2][3], x[3][0]);
    crate::laws::lemma_prod3(x[2][0], x[1][1], x[3][2]);
    crate::laws::lemma_prod4(x[0][3], x[1][1], x[2][0], x[3][2]);
    crate::laws::lemma_prod3(x[1][1], x[2][0], x[3][2]);
    crate::laws::lemma_prod4(x[0][3], x[1][1], x[2][0], x[3][2]);
    crate::laws::lemma_prod3(x[2][0], x[1][2], x[3][1]);
    crate::laws::lemma_prod4(x[0][3], x[1][2], x[2][0], x[3][1]);
    crate::laws::lemma_prod3(x[1][2], x[2][0], x[3][1]);
    crate::laws::lemma_prod4(x[0][3], x[1][2], x[2][0], x[3][1]);
    crate::laws::lemma_prod3(x[2][1], x[1][0], x[3][2]);
    crate::laws::lemma_prod4(x[0][3], x[1][0], x[2][1], x[3][2]);
    crate::laws::lemma_prod3(x[1][0], x[2][1], x[3][2]);
    crate::laws::lemma_prod4(x[0][3], x[1][0], x[2][1], x[3][2]);
    crate::laws::lemma_prod3(x[2][1], x[1][2], x[3][0]);
    crate::laws::lemma_prod4(x[0][3], x[1][2], x[2][1], x[3][0]);
    crate::laws::lemma_prod3(x[1][2], x[2][1], x[3][0]);
    crate::laws::lemma_prod4(x[0][3], x[1][2], x[2][1], x[3][0]);
    crate::laws::lemma_prod3(x[2][2], x[1][0], x[3][1]);
    crate::laws::lemma_prod4(x[0][3], x[1][0], x[2][2], x[3][1]);
    crate::laws::lemma_prod3(x[1][0], x[2][2], x[3][1]);
    crate::laws::lemma_prod4(x[0][3], x[1][0], x[2][2], x[3][1]);
    crate::laws::lemma_prod3(x[2][2], x[1][1], x[3][0]);
    crate::laws::lemma_prod4(x[0][3], x[1][1], x[2][2], x[3][0]);
    crate::laws::lemma_prod3(x[1][1], x[2][2], x[3][0]);
    crate::laws::lemma_prod4(x[0][3], x[1][1], x[2][2], x[3][0]);
}

/// Swapping rows 2 and 3 of a 4x4 matrix negates its determinant.
proof fn lemma_det4_swap23(x: Seq<Seq<int>>)
    requires
        x.len() == 4,
        forall|i: int| 0 <= i < 4 ==> (#[trigger] x[i]).len() == 4,
    ensures
        mdet4(x.update(2, x[3]).update(3, x[2])) == -mdet4(x),
{
    let s = x.update(2, x[3]).update(3, x[2]);
    crate::laws::lemma_det4_expanded(x[0][0], x[0][1], x[0][2], x[0][3], x[1][0], x[1][1], x[1][2], x[1][3], x[2][0], x[2][1], x[2][2], x[2][3], x[3][0], x[3][1], x[3][2], x[3][3]);
    crate::laws::lemma_det4_expanded(s[0][0], s[0][1], s[0][2], s[0][3], s[1][0], s[1][1], s[1][2], s[1][3], s[2][0], s[2][1], s[2][2], s[2][3], s[3][0], s[3][1], s[3][2], s[3][3]);
    assert(s[0][0] == x[0][0]);
    assert(s[0][1] == x[0][1]);
    assert(s[0][2] == x[0][2]);
    assert(s[0][3] == x[0][3]);
    assert(s[1][0] == x[1][0]);
    assert(s[1][1] == x[1][1]);
    assert(s[1][2] == x[1][2]);
    assert(s[1][3] == x[1][3]);
    assert(s[2][0] == x[3][0]);
    assert(s[2][1] == x[3][1]);
    assert(s[2][2] == x[3][2]);
    assert(s[2][3] == x[3][3]);
    assert(s[3][0] == x[2][0]);
    assert(s[3][1] == x[2][1]);
    assert(s[3][2] == x[2][2]);
    assert(s[3][3] == x[2][3]);
    crate::laws::lemma_prod3(x[1][1], x[3][2], x[2][3]);
    crate::laws::lemma_prod4(x[0][0], x[1][1], x[2][3], x[3][2]);
    crate::laws::lemma_prod3(x[1][1], x[2][3], x[3][2]);
    crate::laws::lemma_prod4(x[0][0], x[1][1], x[2][3], x[3][2]);
    crate::laws::lemma_prod3(x[1][1], x[3][3], x[2][2]);
    crate::laws::lemma_prod4(x[0][0], x[1][1], x[2][2], x[3][3]);
    crate::laws::lemma_prod3(x[1][1], x[2][2], x[3][3]);
    crate::laws::lemma_prod4(x[0][0], x[1][1], x[2][2], x[3][3]);
    crate::laws::lemma_prod3(x[1][2], x[3][1], x[2][3]);
    crate::laws::lemma_prod4(x[0][0], x[1][2], x[2][3], x[3][1]);
    crate::laws::lemma_prod3(x[1][2], x[2][3], x[3][1]);
    crate::laws::lemma_prod4(x[0][0], x[1][2], x[2][3], x[3][1]);
    crate::laws::lemma_prod3(x[1][2], x[3][3], x[2][1]);
    crate::laws::lemma_prod4(x[0][0], x[1][2], x[2][1], x[3][3]);
    crate::laws::lemma_prod3(x[1][2], x[2][1], x[3][3]);
    crate::laws::lemma_prod4(x[0][0], x[1][2], x[2][1], x[3][3]);
    crate::laws::lemma_prod3(x[1][3], x[3][1], x[2][2]);
    crate::laws::lemma_prod4(x[0][0], x[1][3], x[2][2], x[3][1]);
    crate::laws::lemma_prod3(x[1][3], x[2][2], x[3][1]);
    crate::laws::lemma_prod4(x[0][0], x[1][3], x[2][2], x[3][1]);
    crate::laws::lemma_prod3(x[1][3], x[3][2], x[2][1]);
    crate::laws::lemma_prod4(x[0][0], x[1][3], x[2][1], x[3][2]);
    crate::laws::lemma_prod3(x[1][3], x[2][1], x[3][2]);
    crate::laws::lemma_prod4(x[0][0], x[1][3], x[2][1], x[3][2]);
    crate::laws::lemma_prod3(x[1][0], x[3][2], x[2][3]);
    crate::laws::lemma_prod4(x[0][1], x[1][0], x[2][3], x[3][2]);
    crate::laws::lemma_prod3(x[1][0], x[2][3], x[3][2]);
    crate::laws::lemma_prod4(x[0][1], x[1][0], x[2][3], x[3][2]);
    crate::laws::lemma_prod3(x[1][0], x[3][3], x[2][2]);
    crate::laws::lemma_prod4(x[0][1], x[1][0], x[2][2], x[3][3]);
    crate::laws::lemma_prod3(x[1][0], x[2][2], x[3][3]);
    crate::laws::lemma_prod4(x[0][1], x[1][0], x[2][2], x[3][3]);
    crate::laws::lemma_prod3(x[1][2], x[3][0], x[2][3]);
    crate::laws::lemma_prod4(x[0][1], x[1][2], x[2][3], x[3][0]);
    crate::laws::lemma_prod3(x[1][2], x[2][3], x[3][0]);
    crate::laws::lemma_prod4(x[0][1], x[1][2], x[2][3], x[3][0]);
    crate::laws::lemma_prod3(x[1][2], x[3][3], x[2][0]);
    crate::laws::lemma_prod4(x[0][1], x[1][2], x[2][0], x[3][3]);
    crate::laws::lemma_prod3(x[1][2], x[2][0], x[3][3]);
    crate::laws::lemma_prod4(x[0][1], x[1][2], x[2][0], x[3][3]);
    crate::laws::lemma_prod3(x[1][3], x[3][0], x[2][2]);
    crate::laws::lemma_prod4(x[0][1], x[1][3], x[2][2], x[3][0]);
    crate::laws::lemma_prod3(x[1][3], x[2][2], x[3][0]);
    crate::laws::lemma_prod4(x[0][1], x[1][3], x[2][2], x[3][0]);
    crate::laws::lemma_prod3(x[1][3], x[3][2], x[2][0]);
    crate::laws::lemma_prod4(x[0][1], x[1][3], x[2][0], x[3][2]);
    crate::laws::lemma_prod3(x[1][3], x[2][0], x[3][2]);
    crate::laws::lemma_prod4(x[0][1], x[1][3], x[2][0], x[3][2]);
    crate::laws::lemma_prod3(x[1][0], x[3][1], x[2][3]);
    crate::laws::lemma_prod4(x[0][2], x[1][0], x[2][3], x[3][1]);
    crate::laws::lemma_prod3(x[1][0], x[2][3], x[3][1]);
    crate::laws::lemma_prod4(x[0][2], x[1][0], x[2][3], x[3][1]);
    crate::laws::lemma_prod3(x[1][0], x[3][3], x[2][1]);
    crate::laws::lemma_prod4(x[0][2], x[1][0], x[2][1], x[3][3]);
    crate::laws::lemma_prod3(x[1][0], x[2][1], x[3][3]);
    crate::laws::lemma_prod4(x[0][2], x[1][0], x[2][1], x[3][3]);
    crate::laws::lemma_prod3(x[1][1], x[3][0], x[2][3]);
    crate::laws::lemma_prod4(x[0][2], x[1][1], x[2][3], x[3][0]);
    crate::laws::lemma_prod3(x[1][1], x[2][3], x[3][0]);
    crate::laws::lemma_prod4(x[0][2], x[1][1], x[2][3], x[3][0]);
    crate::laws::lemma_prod3(x[1][1], x[3][3], x[2][0]);
    crate::laws::lemma_prod4(x[0][2], x[1][1], x[2][0], x[3][3]);
    crate::laws::lemma_prod3(x[1][1], x[2][0], x[3][3]);
    crate::laws::lemma_prod4(x[0][2], x[1][1], x[2][0], x[3][3]);
    crate::laws::lemma_prod3(x[1][3], x[3][0], x[2][1]);
    crate::laws::lemma_prod4(x[0][2], x[1][3], x[2][1], x[3][0]);
    crate::laws::lemma_prod3(x[1][3], x[2][1], x[3][0]);
    crate::laws::lemma_prod4(x[0][2], x[1][3], x[2][1], x[3][0]);
    crate::laws::lemma_prod3(x[1][3], x[3][1], x[2][0]);
    crate::laws::lemma_prod4(x[0][2], x[1][3], x[2][0], x[3][1]);
    crate::laws::lemma_prod3(x[1][3], x[2][0], x[3][1]);
    crate::laws::lemma_prod4(x[0][2], x[1][3], x[2][0], x[3][1]);
    crate::laws::lemma_prod3(x[1][0], x[3][1], x[2][2]);
    crate::laws::lemma_prod4(x[0][3], x[1][0], x[2][2], x[3][1]);
    crate::laws::lemma_prod3(x[1][0], x[2][2], x[3][1]);
    crate::laws::lemma_prod4(x[0][3], x[1][0], x[2][2], x[3][1]);
    crate::laws::lemma_prod3(x[1][0], x[3][2], x[2][1]);
    crate::laws::lemma_prod4(x[0][3], x[1][0], x[2][1], x[3][2]);
    crate::laws::lemma_prod3(x[1][0], x[2][1], x[3][2]);
    crate::laws::lemma_prod4(x[0][3], x[1][0], x[2][1], x[3][2]);
    crate::laws::lemma_prod3(x[1][1], x[3][0], x[2][2]);
    crate::laws::lemma_prod4(x[0][3], x[1][1], x[2][2], x[3][0]);
    crate::laws::lemma_prod3(x[1][1], x[2][2], x[3][0]);
    crate::laws::lemma_prod4(x[0][3], x[1][1], x[2][2], x[3][0]);
    crate::laws::lemma_prod3(x[1][1], x[3][2], x[2][0]);
    crate::laws::lemma_prod4(x[0][3], x[1][1], x[2][0], x[3][2]);
    crate::laws::lemma_prod3(x[1][1], x[2][0], x[3][2]);
    crate::laws::lemma_prod4(x[0][3], x[1][1], x[2][0], x[3][2]);
    crate::laws::lemma_prod3(x[1][2], x[3][0], x[2][1]);
    crate::laws::lemma_prod4(x[0][3], x[1][2], x[2][1], x[3][0]);
    crate::laws::lemma_prod3(x[1][2], x[2][1], x[3][0]);
    crate::laws::lemma_prod4(x[0][3], x[1][2], x[2][1], x[3][0]);
    crate::laws::lemma_prod3(x[1][2], x[3][1], x[2][0]);
    crate::laws::lemma_prod4(x[0][3], x[1][2], x[2][0], x[3][1]);
    crate::laws::lemma_prod3(x[1][2], x[2][0], x[3][1]);
    crate::laws::lemma_prod4(x[0][3], x[1][2], x[2][0], x[3][1]);
}

/// `k * (p - q + r - s) == k * p - k * q + k * r - k * s`
proof fn lemma_scale_sum4(k: int, p: int, q: int, r: int, s: int)
    by (nonlinear_arith)
    ensures
        k * (p - q + r - s) == k * p - k * q + k * r - k * s,
{
}

/// The 4x4 determinant is 1 on the identity, changes sign when two neighbouring
/// rows are swapped, and is linear in the first row. These properties determine it.
pub proof fn law_det4_characterized(x: Seq<Seq<int>>, u: Seq<int>, w: Seq<int>, k: int)
    requires
        x.len() == 4,
        forall|i: int| 0 <= i < 4 ==> (#[trigger] x[i]).len() == 4,
        u.len() == 4,
        w.len() == 4,
    ensures
        mdet4(identity_seq(4, 4)) == 1,
        mdet4(x.update(0, x[1]).update(1, x[0])) == -mdet4(x),
        mdet4(x.update(1, x[2]).update(2, x[1])) == -mdet4(x),
        mdet4(x.update(2, x[3]).update(3, x[2])) == -mdet4(x),
        mdet4(x.update(0, add_seq(u, w))) == mdet4(x.update(0, u)) + mdet4(x.update(0, w)),
        mdet4(x.update(0, mul_seq(u, splat(k, 4)))) == k * mdet4(x.update(0, u)),
{
    let id = identity_seq(4, 4);
    assert(id[0][0] == 1 && id[0][1] == 0 && id[0][2] == 0 && id[0][3] == 0);
    assert(id[1][0] == 0 && id[1][1] == 1 && id[1][2] == 0 && id[1][3] == 0);
    assert(id[2][0] == 0 && id[2][1] == 0 && id[2][2] == 1 && id[2][3] == 0);
    assert(id[3][0] == 0 && id[3][1] == 0 && id[3][2] == 0 && id[3][3] == 1);
    crate::laws::lemma_det4_expanded(id[0][0], id[0][1], id[0][2], id[0][3], id[1][0], id[1][1], id[1][2], id[1][3], id[2][0], id[2][1], id[2][2], id[2][3], id[3][0], id[3][1], id[3][2], id[3][3]);
    lemma_det4_swap01(x);
    lemma_det4_swap12(x);
    lemma_det4_swap23(x);
    lemma_mul_is_distributive_add_other_way(x[1][1] * (x[2][2] * x[3][3] - x[3][2] * x[2][3]) - x[1][2] * (x[2][1] * x[3][3] - x[3][1] * x[2][3]) + x[1][3] * (x[2][1] * x[3][2] - x[3][1] * x[2][2]), u[0], w[0]);
    lemma_scaled_mul(u[0], k, x[1][1] * (x[2][2] * x[3][3] - x[3][2] * x[2][3]) - x[1][2] * (x[2][1] * x[3][3] - x[3][1] * x[2][3]) + x[1][3] * (x[2][1] * x[3][2] - x[3][1] * x[2][2]));
    lemma_mul_is_distributive_add_other_way(x[1][0] * (x[2][2] * x[3][3] - x[3][2] * x[2][3]) - x[1][2] * (x[2][0] * x[3][3] - x[3][0] * x[2][3]) + x[1][3] * (x[2][0] * x[3][2] - x[3][0] * x[2][2]), u[1], w[1]);
    lemma_scaled_mul(u[1], k, x[1][0] * (x[2][2] * x[3][3] - x[3][2] * x[2][3]) - x[1][2] * (x[2][0] * x[3][3] - x[3][0] * x[2][3]) + x[1][3] * (x[2][0] * x[3][2] - x[3][0] * x[2][2]));
    lemma_mul_is_distributive_add_other_way(x[1][0] * (x[2][1] * x[3][3] - x[3][1] * x[2][3]) - x[1][1] * (x[2][0] * x[3][3] - x[3][0] * x[2][3]) + x[1][3] * (x[2][0] * x[3][1] - x[3][0] * x[2][1]), u[2], w[2]);
    lemma_scaled_mul(u[2], k, x[1][0] * (x[2][1] * x[3][3] - x[3][1] * x[2][3]) - x[1][1] * (x[2][0] * x[3][3] - x[3][0] * x[2][3]) + x[1][3] * (x[2][0] * x[3][1] - x[3][0] * x[2][1]));
    lemma_mul_is_distributive_add_other_way(x[1][0] * (x[2][1] * x[3][2] - x[3][1] * x[2][2]) - x[1][1] * (x[2][0] * x[3][2] - x[3][0] * x[2][2]) + x[1][2] * (x[2][0] * x[3][1] - x[3][0] * x[2][1]), u[3], w[3]);
    lemma_scaled_mul(u[3], k, x[1][0] * (x[2][1] * x[3][2] - x[3][1] * x[2][2]) - x[1][1] * (x[2][0] * x[3][2] - x[3][0] * x[2][2]) + x[1][2] * (x[2][0] * x[3][1] - x[3][0] * x[2][1]));
    lemma_scale_sum4(k, u[0] * (x[1][1] * (x[2][2] * x[3][3] - x[3][2] * x[2][3]) - x[1][2] * (x[2][1] * x[3][3] - x[3][1] * x[2][3]) + x[1][3] * (x[2][1] * x[3][2] - x[3][1] * x[2][2])), u[1] * (x[1][0] * (x[2][2] * x[3][3] - x[3][2] * x[2][3]) - x[1][2] * (x[2][0] * x[3][3] - x[3][0] * x[2][3]) + x[1][3] * (x[2][0] * x[3][2] - x[3][0] * x[2][2])), u[2] * (x[1][0] * (x[2][1] * x[3][3] - x[3][1] * x[2][3]) - x[1][1] * (x[2][0] * x[3][3] - x[3][0] * x[2][3]) + x[1][3] * (x[2][0] * x[3][1] - x[3][0] * x[2][1])), u[3] * (x[1][0] * (x[2][1] * x[3][2] - x[3][1] * x[2][2]) - x[1][1] * (x[2][0] * x[3][2] - x[3][0] * x[2][2]) + x[1][2] * (x[2][0] * x[3][1] - x[3][0] * x[2][1])));
}


// ===================================================
// Adjugates
// ===================================================

/// The matrix without row `i` and column `j`.
pub open spec fn minor(m: Seq<Seq<int>>, i: int, j: int) -> Seq<Seq<int>> {
    Seq::new(
        (m.len() - 1) as nat,
        |r: int| Seq::new((m[0].len() - 1) as nat, |c: int| m[if r < i { r } else { r + 1 }][if c < j { c } else { c + 1 }]),
    )
}

/// Entry `(j, i)` of the adjugate of a 3x3 matrix is the cofactor of entry
/// `(i, j)`: the determinant of the matrix without row `i` and column `j`, negated
/// when `i + j` is odd.
pub proof fn law_cofactor3_entries(m: Seq<Seq<int>>)
    requires
        m.len() == 3,
        forall|r: int| 0 <= r < 3 ==> (#[trigger] m[r]).len() == 3,
    ensures
        forall|i: int, j: int|
            0 <= i < 3 && 0 <= j < 3 ==> #[trigger] mcof3(m)[j][i] == (if (i + j) % 2 == 0 {
                mdet2(minor(m, i, j))
            } else {
                -mdet2(minor(m, i, j))
            }),
{
    let mi = minor(m, 0, 0);
    assert(mi[0][0] == m[1][1]);
    assert(mi[0][1] == m[1][2]);
    assert(mi[1][0] == m[2][1]);
    assert(mi[1][1] == m[2][2]);
    assert(mcof3(m)[0][0] == mdet2(mi));
    let mi = minor(m, 0, 1);
    assert(mi[0][0] == m[1][0]);
    assert(mi[0][1] == m[1][2]);
    assert(mi[1][0] == m[2][0]);
    assert(mi[1][1] == m[2][2]);
    assert(mcof3(m)[1][0] == -mdet2(mi));
    let mi = minor(m, 0, 2);
    assert(mi[0][0] == m[1][0]);
    assert(mi[0][1] == m[1][1]);
    assert(mi[1][0] == m[2][0]);
    assert(mi[1][1] == m[2][1]);
    assert(mcof3(m)[2][0] == mdet2(mi));
    let mi = minor(m, 1, 0);
    assert(mi[0][0] == m[0][1]);
    assert(mi[0][1] == m[0][2]);
    assert(mi[1][0] == m[2][1]);
    assert(mi[1][1] == m[2][2]);
    assert(mcof3(m)[0][1] == -mdet2(mi));
    let mi = minor(m, 1, 1);
    assert(mi[0][0] == m[0][0]);
    assert(mi[0][1] == m[0][2]);
    assert(mi[1][0] == m[2][0]);
    assert(mi[1][1] == m[2][2]);
    assert(mcof3(m)[1][1] == mdet2(mi));
    let mi = minor(m, 1, 2);
    assert(mi[0][0] == m[0][0]);
    assert(mi[0][1] == m[0][1]);
    assert(mi[1][0] == m[2][0]);
    assert(mi[1][1] == m[2][1]);
    assert(mcof3(m)[2][1] == -mdet2(mi));
    let mi = minor(m, 2, 0);
    assert(mi[0][0] == m[0][1]);
    assert(mi[0][1] == m[0][2]);
    assert(mi[1][0] == m[1][1]);
    assert(mi[1][1] == m[1][2]);
    assert(mcof3(m)[0][2] == mdet2(mi));
    let mi = minor(m, 2, 1);
    assert(mi[0][0] == m[0][0]);
    assert(mi[0][1] == m[0][2]);
    assert(mi[1][0] == m[1][0]);
    assert(mi[1][1] == m[1][2]);
    assert(mcof3(m)[1][2] == -mdet2(mi));
    let mi = minor(m, 2, 2);
    assert(mi[0][0] == m[0][0]);
    assert(mi[0][1] == m[0][1]);
    assert(mi[1][0] == m[1][0]);
    assert(mi[1][1] == m[1][1]);
    assert(mcof3(m)[2][2] == mdet2(mi));
}

/// Entry `(j, i)` of the adjugate of a 4x4 matrix is the cofactor of entry
/// `(i, j)`: the determinant of the matrix without row `i` and column `j`, negated
/// when `i + j` is odd.
pub proof fn law_cofactor4_entries(x: Seq<Seq<int>>)
    requires
        x.len() == 4,
        forall|r: int| 0 <= r < 4 ==> (#[trigger] x[r]).len() == 4,
    ensures
        forall|i: int, j: int|
            0 <= i < 4 && 0 <= j < 4 ==> #[trigger] mcof4(x)[j][i] == (if (i + j) % 2 == 0 {
                mdet3(minor(x, i, j))
            } else {
                -mdet3(minor(x, i, j))
            }),
{
    let mi = minor(x, 0, 0);
    assert(mi[0][0] == x[1][1]);
    assert(mi[0][1] == x[1][2]);
    assert(mi[0][2] == x[1][3]);
    assert(mi[1][0] == x[2][1]);
    assert(mi[1][1] == x[2][2]);
    assert(mi[1][2] == x[2][3]);
    assert(mi[2][0] == x[3][1]);
    assert(mi[2][1] == x[3][2]);
    assert(mi[2][2] == x[3][3]);
    assert(mcof4(x)[0][0] == mdet3(mi));
    let mi = minor(x, 0, 1);
    assert(mi[0][0] == x[1][0]);
    assert(mi[0][1] == x[1][2]);
    assert(mi[0][2] == x[1][3]);
    assert(mi[1][0] == x[2][0]);
    assert(mi[1][1] == x[2][2]);
    assert(mi[1][2] == x[2][3]);
    assert(mi[2][0] == x[3][0]);
    assert(mi[2][1] == x[3][2]);
    assert(mi[2][2] == x[3][3]);
    assert(mcof4(x)[1][0] == -mdet3(mi));
    let mi = minor(x, 0, 2);
    assert(mi[0][0] == x[1][0]);
    assert(mi[0][1] == x[1][1]);
    assert(mi[0][2] == x[1][3]);
    assert(mi[1][0] == x[2][0]);
    assert(mi[1][1] == x[2][1]);
    assert(mi[1][2] == x[2][3]);
    assert(mi[2][0] == x[3][0]);
    assert(mi[2][1] == x[3][1]);
    assert(mi[2][2] == x[3][3]);
    assert(mcof4(x)[2][0] == mdet3(mi));
    let mi = minor(x, 0, 3);
    assert(mi[0][0] == x[1][0]);
    assert(mi[0][1] == x[1][1]);
    assert(mi[0][2] == x[1][2]);
    assert(mi[1][0] == x[2][0]);
    assert(mi[1][1] == x[2][1]);
    assert(mi[1][2] == x[2][2]);
    assert(mi[2][0] == x[3][0]);
    assert(mi[2][1] == x[3][1]);
    assert(mi[2][2] == x[3][2]);
    assert(mcof4(x)[3][0] == -mdet3(mi));
    let mi = minor(x, 1, 0);
    assert(mi[0][0] == x[0][1]);
    assert(mi[0][1] == x[0][2]);
    assert(mi[0][2] == x[0][3]);
    assert(mi[1][0] == x[2][1]);
    assert(mi[1][1] == x[2][2]);
    assert(mi[1][2] == x[2][3]);
    assert(mi[2][0] == x[3][1]);
    assert(mi[2][1] == x[3][2]);
    assert(mi[2][2] == x[3][3]);
    assert(mcof4(x)[0][1] == -mdet3(mi));
    let mi = minor(x, 1, 1);
    assert(mi[0][0] == x[0][0]);
    assert(mi[0][1] == x[0][2]);
    assert(mi[0][2] == x[0][3]);
    assert(mi[1][0] == x[2][0]);
    assert(mi[1][1] == x[2][2]);
    assert(mi[1][2] == x[2][3]);
    assert(mi[2][0] == x[3][0]);
    assert(mi[2][1] == x[3][2]);
    assert(mi[2][2] == x[3][3]);
    assert(mcof4(x)[1][1] == mdet3(mi));
    let mi = minor(x, 1, 2);
    assert(mi[0][0] == x[0][0]);
    assert(mi[0][1] == x[0][1]);
    assert(mi[0][2] == x[0][3]);
    assert(mi[1][0] == x[2][0]);
    assert(mi[1][1] == x[2][1]);
    assert(mi[1][2] == x[2][3]);
    assert(mi[2][0] == x[3][0]);
    assert(mi[2][1] == x[3][1]);
    assert(mi[2][2] == x[3][3]);
    assert(mcof4(x)[2][1] == -mdet3(mi));
    let mi = minor(x, 1, 3);
    assert(mi[0][0] == x[0][0]);
    assert(mi[0][1] == x[0][1]);
    assert(mi[0][2] == x[0][2]);
    assert(mi[1][0] == x[2][0]);
    assert(mi[1][1] == x[2][1]);
    assert(mi[1][2] == x[2][2]);
    assert(mi[2][0] == x[3][0]);
    assert(mi[2][1] == x[3][1]);
    assert(mi[2][2] == x[3][2]);
    assert(mcof4(x)[3][1] == mdet3(mi));
    let mi = minor(x, 2, 0);
    assert(mi[0][0] == x[0][1]);
    assert(mi[0][1] == x[0][2]);
    assert(mi[0][2] == x[0][3]);
    assert(mi[1][0] == x[1][1]);
    assert(mi[1][1] == x[1][2]);
    assert(mi[1][2] == x[1][3]);
    assert(mi[2][0] == x[3][1]);
    assert(mi[2][1] == x[3][2]);
    assert(mi[2][2] == x[3][3]);
    assert(mcof4(x)[0][2] == mdet3(mi));
    let mi = minor(x, 2, 1);
    assert(mi[0][0] == x[0][0]);
    assert(mi[0][1] == x[0][2]);
    assert(mi[0][2] == x[0][3]);
    assert(mi[1][0] == x[1][0]);
    assert(mi[1][1] == x[1][2]);
    assert(mi[1][2] == x[1][3]);
    assert(mi[2][0] == x[3][0]);
    assert(mi[2][1] == x[3][2]);
    assert(mi[2][2] == x[3][3]);
    assert(mcof4(x)[1][2] == -mdet3(mi));
    let mi = minor(x, 2, 2);
    assert(mi[0][0] == x[0][0]);
    assert(mi[0][1] == x[0][1]);
    assert(mi[0][2] == x[0][3]);
    assert(mi[1][0] == x[1][0]);
    assert(mi[1][1] == x[1][1]);
    assert(mi[1][2] == x[1][3]);
    assert(mi[2][0] == x[3][0]);
    assert(mi[2][1] == x[3][1]);
    assert(mi[2][2] == x[3][3]);
    assert(mcof4(x)[2][2] == mdet3(mi));
    let mi = minor(x, 2, 3);
    assert(mi[0][0] == x[0][0]);
    assert(mi[0][1] == x[0][1]);
    assert(mi[0][2] == x[0][2]);
    assert(mi[1][0] == x[1][0]);
    assert(mi[1][1] == x[1][1]);
    assert(mi[1][2] == x[1][2]);
    assert(mi[2][0] == x[3][0]);
    assert(mi[2][1] == x[3][1]);
    assert(mi[2][2] == x[3][2]);
    assert(mcof4(x)[3][2] == -mdet3(mi));
    let mi = minor(x, 3, 0);
    assert(mi[0][0] == x[0][1]);
    assert(mi[0][1] == x[0][2]);
    assert(mi[0][2] == x[0][3]);
    assert(mi[1][0] == x[1][1]);
    assert(mi[1][1] == x[1][2]);
    assert(mi[1][2] == x[1][3]);
    assert(mi[2][0] == x[2][1]);
    assert(mi[2][1] == x[2][2]);
    assert(mi[2][2] == x[2][3]);
    assert(mcof4(x)[0][3] == -mdet3(mi));
    let mi = minor(x, 3, 1);
    assert(mi[0][0] == x[0][0]);
    assert(mi[0][1] == x[0][2]);
    assert(mi[0][2] == x[0][3]);
    assert(mi[1][0] == x[1][0]);
    assert(mi[1][1] == x[1][2]);
    assert(mi[1][2] == x[1][3]);
    assert(mi[2][0] == x[2][0]);
    assert(mi[2][1] == x[2][2]);
    assert(mi[2][2] == x[2][3]);
    assert(mcof4(x)[1][3] == mdet3(mi));
    let mi = minor(x, 3, 2);
    assert(mi[0][0] == x[0][0]);
    assert(mi[0][1] == x[0][1]);
    assert(mi[0][2] == x[0][3]);
    assert(mi[1][0] == x[1][0]);
    assert(mi[1][1] == x[1][1]);
    assert(mi[1][2] == x[1][3]);
    assert(mi[2][0] == x[2][0]);
    assert(mi[2][1] == x[2][1]);
    assert(mi[2][2] == x[2][3]);
    assert(mcof4(x)[2][3] == -mdet3(mi));
    let mi = minor(x, 3, 3);
    assert(mi[0][0] == x[0][0]);
    assert(mi[0][1] == x[0][1]);
    assert(mi[0][2] == x[0][2]);
    assert(mi[1][0] == x[1][0]);
    assert(mi[1][1] == x[1][1]);
    assert(mi[1][2] == x[1][2]);
    assert(mi[2][0] == x[2][0]);
    assert(mi[2][1] == x[2][1]);
    assert(mi[2][2] == x[2][2]);
    assert(mcof4(x)[3][3] == mdet3(mi));
}


// ===================================================
// Truncating division
// ===================================================

/// The remainder left by `trunc_div(a, b)` is smaller than `b` in size and has the
/// sign of `a`: the quotient is rounded towards zero.
proof fn lemma_trunc_div_remainder(a: int, b: int)
    requires
        b != 0,
    ensures
        -b < a - trunc_div(a, b) * b < b || b < a - trunc_div(a, b) * b < -b,
        a >= 0 ==> a - trunc_div(a, b) * b >= 0,
        a < 0 ==> a - trunc_div(a, b) * b <= 0,
{
    if a >= 0 {
        assert(a == (a / b) * b + a % b && 0 <= a % b && (a % b < b || a % b < -b)) by (nonlinear_arith)
            requires
                b != 0,
        ;
    } else {
        let na = -a;
        assert(na == (na / b) * b + na % b && 0 <= na % b && (na % b < b || na % b < -b)) by (nonlinear_arith)
            requires
                b != 0,
        ;
        lemma_neg_mul(na / b, b);
    }
}

/// Component-wise division of integers rounds towards zero: what is left over is
/// smaller than the divisor in size and has the sign of the dividend.
pub proof fn law_div_truncates(a: Seq<int>, b: Seq<int>)
    requires
        a.len() == b.len(),
        forall|i: int| 0 <= i < b.len() ==> b[i] != 0,
    ensures
        forall|i: int|
            0 <= i < a.len() ==> {
                let r = a[i] - #[trigger] div_seq(a, b)[i] * b[i];
                &&& (-b[i] < r < b[i] || b[i] < r < -b[i])
                &&& (a[i] >= 0 ==> r >= 0)
                &&& (a[i] < 0 ==> r <= 0)
            },
{
    assert forall|i: int| 0 <= i < a.len() implies {
        let r = a[i] - #[trigger] div_seq(a, b)[i] * b[i];
        &&& (-b[i] < r < b[i] || b[i] < r < -b[i])
        &&& (a[i] >= 0 ==> r >= 0)
        &&& (a[i] < 0 ==> r <= 0)
    } by {
        lemma_trunc_div_remainder(a[i], b[i]);
    }
}

/// Dividing every entry of a matrix by a non-zero scalar rounds towards zero.
pub proof fn law_mdiv_truncates(a: Seq<Seq<int>>, s: int)
    requires
        s != 0,
    ensures
        forall|i: int, j: int|
            0 <= i < a.len() && 0 <= j < a[i].len() ==> {
                let r = a[i][j] - #[trigger] mdiv_s(a, s)[i][j] * s;
                &&& (-s < r < s || s < r < -s)
                &&& (a[i][j] >= 0 ==> r >= 0)
                &&& (a[i][j] < 0 ==> r <= 0)
            },
{
    assert forall|i: int, j: int| 0 <= i < a.len() && 0 <= j < a[i].len() implies {
        let r = a[i][j] - #[trigger] mdiv_s(a, s)[i][j] * s;
        &&& (-s < r < s || s < r < -s)
        &&& (a[i][j] >= 0 ==> r >= 0)
        &&& (a[i][j] < 0 ==> r <= 0)
    } by {
        lemma_trunc_div_remainder(a[i][j], s);
    }
}


// ===================================================
// Component-wise vector arithmetic
// ===================================================

proof fn lemma_dot_upto_mul(x: Seq<int>, y: Seq<int>, v: Seq<int>, k: nat)
    requires
        k <= x.len(),
        x.len() == y.len(),
        y.len() == v.len(),
    ensures
        dot_upto(mul_seq(x, y), v, k) == dot_upto(x, mul_seq(y, v), k),
    decreases k,
{
    if k > 0 {
        lemma_dot_upto_mul(x, y, v, (k - 1) as nat);
        lemma_mul_is_associative(x[k - 1], y[k - 1], v[k - 1]);
    }
}

/// Component-wise arithmetic acts on each component on its own: against any vector
/// `v`, the dot product of a sum, difference or negation is the sum, difference or
/// negation of the dot products, and a component-wise product moves into `v`.
pub proof fn law_componentwise_arith(x: Seq<int>, y: Seq<int>, v: Seq<int>, k: int)
    requires
        x.len() == y.len(),
        y.len() == v.len(),
    ensures
        dot_seq(add_seq(x, y), v) == dot_seq(x, v) + dot_seq(y, v),
        dot_seq(sub_seq(x, y), v) == dot_seq(x, v) - dot_seq(y, v),
        dot_seq(neg_seq(x), v) == -dot_seq(x, v),
        dot_seq(mul_seq(x, y), v) == dot_seq(x, mul_seq(y, v)),
        dot_seq(mul_seq(x, splat(k, x.len())), v) == k * dot_seq(x, v),
{
    lemma_dot_upto_add(x, y, v, x.len());
    lemma_dot_upto_sub(x, y, v, x.len());
    lemma_dot_upto_neg(x, v, x.len());
    lemma_dot_upto_mul(x, y, v, x.len());
    lemma_dot_upto_scaled(x, k, v, x.len());
}

} // verus!
