//! Algebraic laws of the vector and matrix operations, stated over the integer sequences
//! that the operations' contracts speak of.
use crate::vector::{
    abs_seq, add_seq, all_seq, any_seq, eq_seq, clamp_int, clamp_seq, cross_seq, div_seq, dot_seq, dot_upto, max_seq,
    min_seq, mul_seq, neg_seq, not_seq, resized, splat, sub_seq,
};
use crate::matrix::{
    column, det2, det3, identity_seq, mat_mul, mat_vec, mcof3, mcof4, mdet3, mdet4, mscale, transpose_seq, vec_mat,
};
use crate::matrix_ops::{embed4, upper3};
use crate::{trunc_div, VectorizedType};
use vstd::arithmetic::mul::{
    lemma_mul_basics, lemma_mul_is_associative, lemma_mul_is_commutative, lemma_mul_is_distributive_sub,
};
use vstd::prelude::*;

verus! {

/// The cross product is anti-commutative: `a x b == -(b x a)`.
pub proof fn law_cross_anticommutative(a: Seq<int>, b: Seq<int>)
    requires
        a.len() == 3,
        b.len() == 3,
    ensures
        cross_seq(a, b) == neg_seq(cross_seq(b, a)),
{
    lemma_mul_is_commutative(a[1], b[2]);
    lemma_mul_is_commutative(a[2], b[1]);
    lemma_mul_is_commutative(a[2], b[0]);
    lemma_mul_is_commutative(a[0], b[2]);
    lemma_mul_is_commutative(a[0], b[1]);
    lemma_mul_is_commutative(a[1], b[0]);
    assert(cross_seq(a, b) =~= neg_seq(cross_seq(b, a)));
}

/// The cross product is orthogonal to both of its arguments:
/// `a . (a x b) == 0` and `b . (a x b) == 0`.
pub proof fn law_cross_orthogonal(a: Seq<int>, b: Seq<int>)
    requires
        a.len() == 3,
        b.len() == 3,
    ensures
        dot_seq(a, cross_seq(a, b)) == 0,
        dot_seq(b, cross_seq(a, b)) == 0,
{
    let c = cross_seq(a, b);
    assert(dot_seq(a, c) == a[0] * c[0] + a[1] * c[1] + a[2] * c[2]) by {
        reveal_with_fuel(dot_upto, 4);
    }
    assert(dot_seq(b, c) == b[0] * c[0] + b[1] * c[1] + b[2] * c[2]) by {
        reveal_with_fuel(dot_upto, 4);
    }
    let (a0, a1, a2, b0, b1, b2) = (a[0], a[1], a[2], b[0], b[1], b[2]);
    lemma_mul_sub(a0, a1, b2, a2, b1);
    lemma_prod3(a0, a1, b2);
    lemma_prod3(a0, a2, b1);
    lemma_mul_sub(a1, a2, b0, a0, b2);
    lemma_prod3(a1, a2, b0);
    lemma_prod3(a1, a0, b2);
    lemma_mul_sub(a2, a0, b1, a1, b0);
    lemma_prod3(a2, a0, b1);
    lemma_prod3(a2, a1, b0);
    lemma_mul_sub(b0, a1, b2, a2, b1);
    lemma_prod3(b0, a1, b2);
    lemma_prod3(b0, a2, b1);
    lemma_mul_sub(b1, a2, b0, a0, b2);
    lemma_prod3(b1, a2, b0);
    lemma_prod3(b1, a0, b2);
    lemma_mul_sub(b2, a0, b1, a1, b0);
    lemma_prod3(b2, a0, b1);
    lemma_prod3(b2, a1, b0);
}

/// Partial dot products do not depend on the order of the arguments.
proof fn lemma_dot_upto_commutative(a: Seq<int>, b: Seq<int>, k: nat)
    ensures
        dot_upto(a, b, k) == dot_upto(b, a, k),
    decreases k,
{
    if k > 0 {
        lemma_dot_upto_commutative(a, b, (k - 1) as nat);
        let (x, y) = (a[k - 1], b[k - 1]);
        lemma_mul_is_commutative(x, y);
    }
}

/// The dot product is commutative: `a . b == b . a`.
pub proof fn law_dot_commutative(a: Seq<int>, b: Seq<int>)
    requires
        a.len() == b.len(),
    ensures
        dot_seq(a, b) == dot_seq(b, a),
{
    lemma_dot_upto_commutative(a, b, a.len());
}

/// Partial sums of squares are non-negative, and zero only when every term is zero.
proof fn lemma_dot_upto_self(a: Seq<int>, k: nat)
    requires
        k <= a.len(),
    ensures
        dot_upto(a, a, k) >= 0,
        dot_upto(a, a, k) == 0 <==> (forall|i: int| 0 <= i < k ==> a[i] == 0),
    decreases k,
{
    if k > 0 {
        lemma_dot_upto_self(a, (k - 1) as nat);
        let x = a[k - 1];
        assert(x * x >= 0) by (nonlinear_arith);
        assert(x * x == 0 <==> x == 0) by (nonlinear_arith);
        if dot_upto(a, a, k) == 0 {
            assert forall|i: int| 0 <= i < k implies a[i] == 0 by {
                if i < k - 1 {
                } else {
                    assert(i == k - 1);
                }
            }
        }
    }
}

/// The squared length `a . a` is non-negative, and zero exactly for the zero vector.
pub proof fn law_length_sq_nonnegative(a: Seq<int>)
    ensures
        dot_seq(a, a) >= 0,
        dot_seq(a, a) == 0 <==> (forall|i: int| 0 <= i < a.len() ==> a[i] == 0),
{
    lemma_dot_upto_self(a, a.len());
}

/// Subtraction undoes addition: `(a + b) - b == a`.
pub proof fn law_add_sub_cancel(a: Seq<int>, b: Seq<int>)
    requires
        a.len() == b.len(),
    ensures
        sub_seq(add_seq(a, b), b) == a,
{
    assert(sub_seq(add_seq(a, b), b) =~= a);
}

/// Negation is an involution: `-(-a) == a`.
pub proof fn law_neg_involution(a: Seq<int>)
    ensures
        neg_seq(neg_seq(a)) == a,
{
    assert(neg_seq(neg_seq(a)) =~= a);
}

/// Logical negation is an involution: `!!a == a`.
pub proof fn law_not_involution(a: Seq<bool>)
    ensures
        not_seq(not_seq(a)) == a,
{
    assert(not_seq(not_seq(a)) =~= a);
}

/// The absolute value ignores the sign: `abs(-a) == abs(a)`, and it is never negative.
pub proof fn law_abs_neg(a: Seq<int>)
    ensures
        abs_seq(neg_seq(a)) == abs_seq(a),
        forall|i: int| 0 <= i < a.len() ==> #[trigger] abs_seq(a)[i] >= 0,
{
    assert(abs_seq(neg_seq(a)) =~= abs_seq(a));
}

/// Component-wise, the minimum is at most the maximum, and together they are the two
/// arguments: `min(a, b) <= max(a, b)` and `min(a, b) + max(a, b) == a + b`.
pub proof fn law_min_max(a: Seq<int>, b: Seq<int>)
    requires
        a.len() == b.len(),
    ensures
        forall|i: int| 0 <= i < a.len() ==> #[trigger] min_seq(a, b)[i] <= max_seq(a, b)[i],
        add_seq(min_seq(a, b), max_seq(a, b)) == add_seq(a, b),
        min_seq(a, b) == min_seq(b, a),
        max_seq(a, b) == max_seq(b, a),
{
    assert(add_seq(min_seq(a, b), max_seq(a, b)) =~= add_seq(a, b));
    assert(min_seq(a, b) =~= min_seq(b, a));
    assert(max_seq(a, b) =~= max_seq(b, a));
}

/// With `lo <= hi`, clamping lands between the bounds, and leaves a value already
/// between them unchanged.
pub proof fn law_clamp_bounds(a: Seq<int>, lo: Seq<int>, hi: Seq<int>)
    requires
        a.len() == lo.len(),
        a.len() == hi.len(),
        forall|i: int| 0 <= i < a.len() ==> lo[i] <= hi[i],
    ensures
        forall|i: int|
            0 <= i < a.len() ==> lo[i] <= #[trigger] clamp_seq(a, lo, hi)[i] <= hi[i],
        forall|i: int|
            0 <= i < a.len() && lo[i] <= a[i] <= hi[i] ==> #[trigger] clamp_seq(a, lo, hi)[i]
                == a[i],
{
}

/// Multiplying by 2 is adding a vector to itself: `2 * a == a + a`.
pub proof fn law_double(a: Seq<int>)
    ensures
        mul_seq(splat(2, a.len()), a) == add_seq(a, a),
{
    assert(mul_seq(splat(2, a.len()), a) =~= add_seq(a, a));
}

/// Dividing by a non-zero scalar undoes multiplying by it: `(a * k) / k == a`.
pub proof fn law_mul_div_cancel(a: Seq<int>, k: int)
    requires
        k != 0,
    ensures
        div_seq(mul_seq(a, splat(k, a.len())), splat(k, a.len())) == a,
{
    assert forall|i: int| 0 <= i < a.len() implies trunc_div(a[i] * k, k) == a[i] by {
        let x = a[i];
        if x * k >= 0 {
            assert((x * k) / k == x) by (nonlinear_arith)
                requires
                    k != 0,
            ;
        } else {
            assert((-(x * k)) / k == -x) by (nonlinear_arith)
                requires
                    k != 0,
            ;
        }
    }
    assert(div_seq(mul_seq(a, splat(k, a.len())), splat(k, a.len())) =~= a);
}

/// De Morgan: all components are true exactly when no component of the negation is.
pub proof fn law_all_not_any(a: Seq<bool>)
    ensures
        all_seq(a) == !any_seq(not_seq(a)),
        any_seq(a) == !all_seq(not_seq(a)),
{
    if !all_seq(a) {
        let i = choose|i: int| 0 <= i < a.len() && !a[i];
        assert(not_seq(a)[i]);
    }
    if any_seq(a) {
        let i = choose|i: int| 0 <= i < a.len() && a[i];
        assert(!not_seq(a)[i]);
    }
}

/// Component-wise inequality does not depend on the order of the arguments, and a
/// vector is component-wise equal to itself.
pub proof fn law_eq_symmetric<T>(a: Seq<T>, b: Seq<T>)
    requires
        a.len() == b.len(),
    ensures
        eq_seq(a, b) == eq_seq(b, a),
        not_seq(eq_seq(a, b)) == not_seq(eq_seq(b, a)),
        all_seq(eq_seq(a, a)),
{
    assert(eq_seq(a, b) =~= eq_seq(b, a));
}

/// Growing a vector and shrinking it back to its length gives the vector back.
pub proof fn law_resize_roundtrip<T: VectorizedType>(s: Seq<T>, m: nat)
    requires
        s.len() <= m,
    ensures
        resized(resized(s, m), s.len()) == s,
{
    assert(resized(resized(s, m), s.len()) =~= s);
}

// ===================================================
// Matrices
// ===================================================

/// Transposing twice gives the matrix back.
pub proof fn law_transpose_involution<A>(m: Seq<Seq<A>>, c: nat)
    requires
        forall|i: int| 0 <= i < m.len() ==> (#[trigger] m[i]).len() == c,
    ensures
        transpose_seq(transpose_seq(m, c), m.len()) == m,
{
    let t = transpose_seq(transpose_seq(m, c), m.len());
    assert forall|i: int| 0 <= i < m.len() implies #[trigger] t[i] =~= m[i] by {}
    assert(t =~= m);
}

/// The sequence of length `n` with a one at `i` and zeros elsewhere.
spec fn unit_seq(n: nat, i: int) -> Seq<int> {
    Seq::new(n, |j: int| if i == j { 1int } else { 0int })
}

/// The dot product with the `i`-th unit sequence picks entry `i`.
proof fn lemma_dot_unit(n: nat, i: int, v: Seq<int>, k: nat)
    requires
        k <= n,
        0 <= i < n,
        v.len() == n,
    ensures
        dot_upto(unit_seq(n, i), v, k) == (if i < k {
            v[i]
        } else {
            0
        }),
        dot_upto(v, unit_seq(n, i), k) == (if i < k {
            v[i]
        } else {
            0
        }),
    decreases k,
{
    if k > 0 {
        lemma_dot_unit(n, i, v, (k - 1) as nat);
    }
}

/// The identity matrix leaves a vector unchanged, multiplied from either side.
pub proof fn law_identity_vec(v: Seq<int>)
    ensures
        mat_vec(identity_seq(v.len(), v.len()), v) == v,
        vec_mat(v, identity_seq(v.len(), v.len()), v.len()) == v,
{
    let n = v.len();
    let id = identity_seq(n, n);
    assert forall|i: int| 0 <= i < n implies #[trigger] mat_vec(id, v)[i] == v[i] by {
        assert(id[i] =~= unit_seq(n, i));
        lemma_dot_unit(n, i, v, n);
    }
    assert forall|j: int| 0 <= j < n implies #[trigger] vec_mat(v, id, n)[j] == v[j] by {
        assert(column(id, j) =~= unit_seq(n, j));
        lemma_dot_unit(n, j, v, n);
    }
    assert(mat_vec(id, v) =~= v);
    assert(vec_mat(v, id, n) =~= v);
}

/// The identity matrix is neutral for the matrix product, on either side.
pub proof fn law_identity_mat(m: Seq<Seq<int>>, c: nat)
    requires
        forall|i: int| 0 <= i < m.len() ==> (#[trigger] m[i]).len() == c,
    ensures
        mat_mul(identity_seq(m.len(), m.len()), m, c) == m,
        mat_mul(m, identity_seq(c, c), c) == m,
{
    let r = m.len();
    let left = mat_mul(identity_seq(r, r), m, c);
    let right = mat_mul(m, identity_seq(c, c), c);
    assert forall|i: int, j: int| 0 <= i < r && 0 <= j < c implies #[trigger] left[i][j] == m[i][j] by {
        assert(identity_seq(r, r)[i] =~= unit_seq(r, i));
        lemma_dot_unit(r, i, column(m, j), r);
    }
    assert forall|i: int, j: int| 0 <= i < r && 0 <= j < c implies #[trigger] right[i][j] == m[i][j] by {
        assert(column(identity_seq(c, c), j) =~= unit_seq(c, j));
        lemma_dot_unit(c, j, m[i], c);
    }
    assert forall|i: int| 0 <= i < r implies #[trigger] left[i] =~= m[i] by {}
    assert forall|i: int| 0 <= i < r implies #[trigger] right[i] =~= m[i] by {}
    assert(left =~= m);
    assert(right =~= m);
}

/// Multiplying a vector by the transpose of a matrix is multiplying it from the
/// left by the matrix: `transpose(m) * v == v * m`.
pub proof fn law_transpose_vec(m: Seq<Seq<int>>, v: Seq<int>, c: nat)
    ensures
        mat_vec(transpose_seq(m, c), v) == vec_mat(v, m, c),
{
    let t = transpose_seq(m, c);
    assert forall|j: int| 0 <= j < c implies #[trigger] mat_vec(t, v)[j] == vec_mat(v, m, c)[j] by {
        assert(t[j] =~= column(m, j));
    }
    assert(mat_vec(t, v) =~= vec_mat(v, m, c));
}

/// The transpose of a product is the product of the transposes in the other
/// order: `transpose(a * b) == transpose(b) * transpose(a)`.
pub proof fn law_transpose_mul(a: Seq<Seq<int>>, b: Seq<Seq<int>>, c: nat)
    requires
        forall|i: int| 0 <= i < a.len() ==> (#[trigger] a[i]).len() == b.len(),
    ensures
        transpose_seq(mat_mul(a, b, c), c) == mat_mul(transpose_seq(b, c), transpose_seq(a, b.len()), a.len()),
{
    let l = transpose_seq(mat_mul(a, b, c), c);
    let r = mat_mul(transpose_seq(b, c), transpose_seq(a, b.len()), a.len());
    assert forall|j: int, i: int| 0 <= j < c && 0 <= i < a.len() implies #[trigger] l[j][i] == r[j][i] by {
        assert(transpose_seq(b, c)[j] =~= column(b, j));
        assert(column(transpose_seq(a, b.len()), i) =~= a[i]);
        law_dot_commutative(a[i], column(b, j));
    }
    assert forall|j: int| 0 <= j < c implies #[trigger] l[j] =~= r[j] by {}
    assert(l =~= r);
}

/// Putting a 3x3 matrix into the top-left block of the 4x4 identity and taking
/// that block out again gives the matrix back.
pub proof fn law_embed_then_upper(m: Seq<Seq<int>>)
    requires
        m.len() == 3,
        forall|i: int| 0 <= i < 3 ==> (#[trigger] m[i]).len() == 3,
    ensures
        upper3(embed4(m)) == m,
{
    assert forall|i: int| 0 <= i < 3 implies #[trigger] upper3(embed4(m))[i] =~= m[i] by {}
    assert(upper3(embed4(m)) =~= m);
}

/// The first-row expansion of a 3x3 determinant equals the first-column one.
proof fn lemma_det3_transpose_poly(a: int, b: int, c: int, d: int, e: int, f: int, g: int, h: int, i: int)
    ensures
        a * (e * i - f * h) - d * (b * i - c * h) + g * (b * f - c * e)
            == a * (e * i - h * f) - b * (d * i - g * f) + c * (d * h - g * e),
{
    lemma_mul_sub(a, e, i, f, h);
    lemma_prod3(a, e, i);
    lemma_prod3(a, f, h);
    lemma_mul_sub(d, b, i, c, h);
    lemma_prod3(d, b, i);
    lemma_prod3(d, c, h);
    lemma_mul_sub(g, b, f, c, e);
    lemma_prod3(g, b, f);
    lemma_prod3(g, c, e);
    lemma_mul_sub(a, e, i, h, f);
    lemma_prod3(a, e, i);
    lemma_prod3(a, h, f);
    lemma_mul_sub(b, d, i, g, f);
    lemma_prod3(b, d, i);
    lemma_prod3(b, g, f);
    lemma_mul_sub(c, d, h, g, e);
    lemma_prod3(c, d, h);
    lemma_prod3(c, g, e);
}

/// The determinant of a 3x3 matrix equals that of its transpose.
pub proof fn law_det3_transpose(m: Seq<Seq<int>>)
    requires
        m.len() == 3,
        forall|i: int| 0 <= i < 3 ==> (#[trigger] m[i]).len() == 3,
    ensures
        mdet3(transpose_seq(m, 3)) == mdet3(m),
{
    let t = transpose_seq(m, 3);
    let (a, b, c, d, e, f, g, h, i) = (m[0][0], m[0][1], m[0][2], m[1][0], m[1][1], m[1][2], m[2][0], m[2][1], m[2][2]);
    assert(mdet3(t) == det3(a, d, g, b, e, h, c, f, i));
    lemma_det3_transpose_poly(a, b, c, d, e, f, g, h, i);
}

/// Each row of the adjugate of a 3x3 matrix, dotted with each column of the
/// matrix, gives the determinant on the diagonal and zero elsewhere.
proof fn lemma_adjugate3_poly(a: int, b: int, c: int, d: int, e: int, f: int, g: int, h: int, i: int)
    ensures
        (e * i - h * f) * a + (-(b * i - h * c)) * d + (b * f - e * c) * g
            == a * (e * i - h * f) - b * (d * i - g * f) + c * (d * h - g * e),
        (e * i - h * f) * b + (-(b * i - h * c)) * e + (b * f - e * c) * h == 0,
        (e * i - h * f) * c + (-(b * i - h * c)) * f + (b * f - e * c) * i == 0,
        (-(d * i - g * f)) * a + (a * i - g * c) * d + (-(a * f - d * c)) * g == 0,
        (-(d * i - g * f)) * b + (a * i - g * c) * e + (-(a * f - d * c)) * h
            == a * (e * i - h * f) - b * (d * i - g * f) + c * (d * h - g * e),
        (-(d * i - g * f)) * c + (a * i - g * c) * f + (-(a * f - d * c)) * i == 0,
        (d * h - g * e) * a + (-(a * h - g * b)) * d + (a * e - d * b) * g == 0,
        (d * h - g * e) * b + (-(a * h - g * b)) * e + (a * e - d * b) * h == 0,
        (d * h - g * e) * c + (-(a * h - g * b)) * f + (a * e - d * b) * i
            == a * (e * i - h * f) - b * (d * i - g * f) + c * (d * h - g * e),
{
    lemma_sub_mul(e, i, h, f, a);
    lemma_prod3(e, i, a);
    lemma_prod3(h, f, a);
    lemma_neg_times(b * i - h * c, d);
    lemma_sub_mul(b, i, h, c, d);
    lemma_prod3(b, i, d);
    lemma_prod3(h, c, d);
    lemma_sub_mul(b, f, e, c, g);
    lemma_prod3(b, f, g);
    lemma_prod3(e, c, g);
    lemma_sub_mul(e, i, h, f, b);
    lemma_prod3(e, i, b);
    lemma_prod3(h, f, b);
    lemma_neg_times(b * i - h * c, e);
    lemma_sub_mul(b, i, h, c, e);
    lemma_prod3(b, i, e);
    lemma_prod3(h, c, e);
    lemma_sub_mul(b, f, e, c, h);
    lemma_prod3(b, f, h);
    lemma_prod3(e, c, h);
    lemma_sub_mul(e, i, h, f, c);
    lemma_prod3(e, i, c);
    lemma_prod3(h, f, c);
    lemma_neg_times(b * i - h * c, f);
    lemma_sub_mul(b, i, h, c, f);
    lemma_prod3(b, i, f);
    lemma_prod3(h, c, f);
    lemma_sub_mul(b, f, e, c, i);
    lemma_prod3(b, f, i);
    lemma_prod3(e, c, i);
    lemma_neg_times(d * i - g * f, a);
    lemma_sub_mul(d, i, g, f, a);
    lemma_prod3(d, i, a);
    lemma_prod3(g, f, a);
    lemma_sub_mul(a, i, g, c, d);
    lemma_prod3(a, i, d);
    lemma_prod3(g, c, d);
    lemma_neg_times(a * f - d * c, g);
    lemma_sub_mul(a, f, d, c, g);
    lemma_prod3(a, f, g);
    lemma_prod3(d, c, g);
    lemma_neg_times(d * i - g * f, b);
    lemma_sub_mul(d, i, g, f, b);
    lemma_prod3(d, i, b);
    lemma_prod3(g, f, b);
    lemma_sub_mul(a, i, g, c, e);
    lemma_prod3(a, i, e);
    lemma_prod3(g, c, e);
    lemma_neg_times(a * f - d * c, h);
    lemma_sub_mul(a, f, d, c, h);
    lemma_prod3(a, f, h);
    lemma_prod3(d, c, h);
    lemma_neg_times(d * i - g * f, c);
    lemma_sub_mul(d, i, g, f, c);
    lemma_prod3(d, i, c);
    lemma_prod3(g, f, c);
    lemma_sub_mul(a, i, g, c, f);
    lemma_prod3(a, i, f);
    lemma_prod3(g, c, f);
    lemma_neg_times(a * f - d * c, i);
    lemma_sub_mul(a, f, d, c, i);
    lemma_prod3(a, f, i);
    lemma_prod3(d, c, i);
    lemma_sub_mul(d, h, g, e, a);
    lemma_prod3(d, h, a);
    lemma_prod3(g, e, a);
    lemma_neg_times(a * h - g * b, d);
    lemma_sub_mul(a, h, g, b, d);
    lemma_prod3(a, h, d);
    lemma_prod3(g, b, d);
    lemma_sub_mul(a, e, d, b, g);
    lemma_prod3(a, e, g);
    lemma_prod3(d, b, g);
    lemma_sub_mul(d, h, g, e, b);
    lemma_prod3(d, h, b);
    lemma_prod3(g, e, b);
    lemma_neg_times(a * h - g * b, e);
    lemma_sub_mul(a, h, g, b, e);
    lemma_prod3(a, h, e);
    lemma_prod3(g, b, e);
    lemma_sub_mul(a, e, d, b, h);
    lemma_prod3(a, e, h);
    lemma_prod3(d, b, h);
    lemma_sub_mul(d, h, g, e, c);
    lemma_prod3(d, h, c);
    lemma_prod3(g, e, c);
    lemma_neg_times(a * h - g * b, f);
    lemma_sub_mul(a, h, g, b, f);
    lemma_prod3(a, h, f);
    lemma_prod3(g, b, f);
    lemma_sub_mul(a, e, d, b, i);
    lemma_prod3(a, e, i);
    lemma_prod3(d, b, i);
    lemma_mul_sub(a, e, i, h, f);
    lemma_prod3(a, e, i);
    lemma_prod3(a, h, f);
    lemma_mul_sub(b, d, i, g, f);
    lemma_prod3(b, d, i);
    lemma_prod3(b, g, f);
    lemma_mul_sub(c, d, h, g, e);
    lemma_prod3(c, d, h);
    lemma_prod3(c, g, e);
}

/// The adjugate of a 3x3 matrix times the matrix is its determinant times the
/// identity; this is why the adjugate divided by the determinant is the inverse.
pub proof fn law_adjugate3(m: Seq<Seq<int>>)
    requires
        m.len() == 3,
        forall|i: int| 0 <= i < 3 ==> (#[trigger] m[i]).len() == 3,
    ensures
        mat_mul(mcof3(m), m, 3) == mscale(identity_seq(3, 3), mdet3(m)),
{
    let adj = mcof3(m);
    let p = mat_mul(adj, m, 3);
    let q = mscale(identity_seq(3, 3), mdet3(m));
    let (a, b, c, d, e, f, g, h, i) = (m[0][0], m[0][1], m[0][2], m[1][0], m[1][1], m[1][2], m[2][0], m[2][1], m[2][2]);
    lemma_adjugate3_poly(a, b, c, d, e, f, g, h, i);
    reveal_with_fuel(dot_upto, 4);
    assert(column(m, 0) =~= seq![m[0][0], m[1][0], m[2][0]]);
    assert(column(m, 1) =~= seq![m[0][1], m[1][1], m[2][1]]);
    assert(column(m, 2) =~= seq![m[0][2], m[1][2], m[2][2]]);
    let det = mdet3(m);
    lemma_mul_basics(det);
    assert(p[0][0] == q[0][0]);
    assert(p[0][1] == q[0][1]);
    assert(p[0][2] == q[0][2]);
    assert(p[0] =~= q[0]);
    assert(p[1][0] == q[1][0]);
    assert(p[1][1] == q[1][1]);
    assert(p[1][2] == q[1][2]);
    assert(p[1] =~= q[1]);
    assert(p[2][0] == q[2][0]);
    assert(p[2][1] == q[2][1]);
    assert(p[2][2] == q[2][2]);
    assert(p[2] =~= q[2]);
    assert(p =~= q);
}

/// `x * (a * b - c * d) == x * a * b - x * c * d`
proof fn lemma_mul_sub(x: int, a: int, b: int, c: int, d: int)
    by (nonlinear_arith)
    ensures
        x * (a * b - c * d) == x * a * b - x * c * d,
{
}

/// `(a * b - c * d) * x == a * b * x - c * d * x`
proof fn lemma_sub_mul(a: int, b: int, c: int, d: int, x: int)
    by (nonlinear_arith)
    ensures
        (a * b - c * d) * x == a * b * x - c * d * x,
{
}

/// Three factors in any order have the same product.
pub(crate) proof fn lemma_prod3(a: int, b: int, c: int)
    by (nonlinear_arith)
    ensures
        a * b * c == a * c * b,
        a * b * c == b * a * c,
        a * b * c == b * c * a,
        a * b * c == c * a * b,
        a * b * c == c * b * a,
{
}

/// A factor `w` in front of a product `x * y * z` may move to any place after `x`.
pub(crate) proof fn lemma_prod4(w: int, x: int, y: int, z: int)
    by (nonlinear_arith)
    ensures
        w * (x * y * z) == x * (w * y * z),
        w * (x * y * z) == x * (y * w * z),
        w * (x * y * z) == x * (y * z * w),
{
}

/// `x * det2(a, b, c, d) == x * a * d - x * c * b`
pub(crate) proof fn lemma_mul_det2(x: int, a: int, b: int, c: int, d: int)
    ensures
        x * det2(a, b, c, d) == x * a * d - x * c * b,
{
    lemma_mul_sub(x, a, d, c, b);
    lemma_prod3(x, a, d);
    lemma_prod3(x, c, b);
}

/// `det2(a, b, c, d) * y == a * d * y - c * b * y`
proof fn lemma_det2_mul(a: int, b: int, c: int, d: int, y: int)
    ensures
        det2(a, b, c, d) * y == a * d * y - c * b * y,
{
    lemma_sub_mul(a, d, c, b, y);
    lemma_prod3(a, d, y);
    lemma_prod3(c, b, y);
}

/// `x * (p - q + r) == x * p - x * q + x * r`
proof fn lemma_times_sum3(x: int, p: int, q: int, r: int)
    by (nonlinear_arith)
    ensures
        x * (p - q + r) == x * p - x * q + x * r,
{
}

/// `(p - q + r) * y == p * y - q * y + r * y`
proof fn lemma_sum3_times(p: int, q: int, r: int, y: int)
    by (nonlinear_arith)
    ensures
        (p - q + r) * y == p * y - q * y + r * y,
{
}

/// `(-p) * y == -(p * y)`
proof fn lemma_neg_times(p: int, y: int)
    by (nonlinear_arith)
    ensures
        (-p) * y == -(p * y),
{
}

/// The 4x4 determinant, as `mdet4` computes it, expanded into its 24 products.
pub(crate) proof fn lemma_det4_expanded(a: int, b: int, c: int, d: int, e: int, f: int, g: int, h: int, i: int, j: int, k: int, l: int, m: int, n: int, o: int, p: int)
    ensures
        a * (f * (k * p - o * l) - g * (j * p - n * l) + h * (j * o - n * k)) - b * (e * (k * p - o * l) - g * (i * p - m * l) + h * (i * o - m * k)) + c * (e * (j * p - n * l) - f * (i * p - m * l) + h * (i * n - m * j)) - d * (e * (j * o - n * k) - f * (i * o - m * k) + g * (i * n - m * j))
            == a * (f * k * p) - a * (f * l * o) - a * (g * j * p) + a * (g * l * n) + a * (h * j * o) - a * (h * k * n) - b * (e * k * p) + b * (e * l * o) + b * (g * i * p) - b * (g * l * m) - b * (h * i * o) + b * (h * k * m) + c * (e * j * p) - c * (e * l * n) - c * (f * i * p) + c * (f * l * m) + c * (h * i * n) - c * (h * j * m) - d * (e * j * o) + d * (e * k * n) + d * (f * i * o) - d * (f * k * m) - d * (g * i * n) + d * (g * j * m),
{
    lemma_times_sum3(a, f * (k * p - o * l), g * (j * p - n * l), h * (j * o - n * k));
    lemma_mul_sub(f, k, p, o, l);
    lemma_prod3(f, k, p);
    lemma_prod3(f, o, l);
    lemma_mul_is_distributive_sub(a, f * k * p, f * l * o);
    lemma_mul_sub(g, j, p, n, l);
    lemma_prod3(g, j, p);
    lemma_prod3(g, n, l);
    lemma_mul_is_distributive_sub(a, g * j * p, g * l * n);
    lemma_mul_sub(h, j, o, n, k);
    lemma_prod3(h, j, o);
    lemma_prod3(h, n, k);
    lemma_mul_is_distributive_sub(a, h * j * o, h * k * n);
    lemma_times_sum3(b, e * (k * p - o * l), g * (i * p - m * l), h * (i * o - m * k));
    lemma_mul_sub(e, k, p, o, l);
    lemma_prod3(e, k, p);
    lemma_prod3(e, o, l);
    lemma_mul_is_distributive_sub(b, e * k * p, e * l * o);
    lemma_mul_sub(g, i, p, m, l);
    lemma_prod3(g, i, p);
    lemma_prod3(g, m, l);
    lemma_mul_is_distributive_sub(b, g * i * p, g * l * m);
    lemma_mul_sub(h, i, o, m, k);
    lemma_prod3(h, i, o);
    lemma_prod3(h, m, k);
    lemma_mul_is_distributive_sub(b, h * i * o, h * k * m);
    lemma_times_sum3(c, e * (j * p - n * l), f * (i * p - m * l), h * (i * n - m * j));
    lemma_mul_sub(e, j, p, n, l);
    lemma_prod3(e, j, p);
    lemma_prod3(e, n, l);
    lemma_mul_is_distributive_sub(c, e * j * p, e * l * n);
    lemma_mul_sub(f, i, p, m, l);
    lemma_prod3(f, i, p);
    lemma_prod3(f, m, l);
    lemma_mul_is_distributive_sub(c, f * i * p, f * l * m);
    lemma_mul_sub(h, i, n, m, j);
    lemma_prod3(h, i, n);
    lemma_prod3(h, m, j);
    lemma_mul_is_distributive_sub(c, h * i * n, h * j * m);
    lemma_times_sum3(d, e * (j * o - n * k), f * (i * o - m * k), g * (i * n - m * j));
    lemma_mul_sub(e, j, o, n, k);
    lemma_prod3(e, j, o);
    lemma_prod3(e, n, k);
    lemma_mul_is_distributive_sub(d, e * j * o, e * k * n);
    lemma_mul_sub(f, i, o, m, k);
    lemma_prod3(f, i, o);
    lemma_prod3(f, m, k);
    lemma_mul_is_distributive_sub(d, f * i * o, f * k * m);
    lemma_mul_sub(g, i, n, m, j);
    lemma_prod3(g, i, n);
    lemma_prod3(g, m, j);
    lemma_mul_is_distributive_sub(d, g * i * n, g * j * m);
}

/// Row 0 of the adjugate of a 4x4 matrix dotted with each column of the matrix.
proof fn lemma_adjugate4_row0(a: int, b: int, c: int, d: int, e: int, f: int, g: int, h: int, i: int, j: int, k: int, l: int, m: int, n: int, o: int, p: int)
    ensures
        det3(f, g, h, j, k, l, n, o, p) * a + (-det3(b, c, d, j, k, l, n, o, p)) * e + det3(b, c, d, f, g, h, n, o, p) * i + (-det3(b, c, d, f, g, h, j, k, l)) * m
            == a * (f * k * p) - a * (f * l * o) - a * (g * j * p) + a * (g * l * n) + a * (h * j * o) - a * (h * k * n) - b * (e * k * p) + b * (e * l * o) + b * (g * i * p) - b * (g * l * m) - b * (h * i * o) + b * (h * k * m) + c * (e * j * p) - c * (e * l * n) - c * (f * i * p) + c * (f * l * m) + c * (h * i * n) - c * (h * j * m) - d * (e * j * o) + d * (e * k * n) + d * (f * i * o) - d * (f * k * m) - d * (g * i * n) + d * (g * j * m),
        det3(f, g, h, j, k, l, n, o, p) * b + (-det3(b, c, d, j, k, l, n, o, p)) * f + det3(b, c, d, f, g, h, n, o, p) * j + (-det3(b, c, d, f, g, h, j, k, l)) * n
            == 0,
        det3(f, g, h, j, k, l, n, o, p) * c + (-det3(b, c, d, j, k, l, n, o, p)) * g + det3(b, c, d, f, g, h, n, o, p) * k + (-det3(b, c, d, f, g, h, j, k, l)) * o
            == 0,
        det3(f, g, h, j, k, l, n, o, p) * d + (-det3(b, c, d, j, k, l, n, o, p)) * h + det3(b, c, d, f, g, h, n, o, p) * l + (-det3(b, c, d, f, g, h, j, k, l)) * p
            == 0,
{
    lemma_sum3_times(f * det2(k, l, o, p), g * det2(j, l, n, p), h * det2(j, k, n, o), a);
    lemma_det2_mul(k, l, o, p, a);
    lemma_prod3(k, p, a);
    lemma_prod3(o, l, a);
    lemma_mul_is_associative(f, det2(k, l, o, p), a);
    lemma_mul_is_distributive_sub(f, a * k * p, a * l * o);
    lemma_prod4(f, a, k, p);
    lemma_prod4(f, a, l, o);
    lemma_det2_mul(j, l, n, p, a);
    lemma_prod3(j, p, a);
    lemma_prod3(n, l, a);
    lemma_mul_is_associative(g, det2(j, l, n, p), a);
    lemma_mul_is_distributive_sub(g, a * j * p, a * l * n);
    lemma_prod4(g, a, j, p);
    lemma_prod4(g, a, l, n);
    lemma_det2_mul(j, k, n, o, a);
    lemma_prod3(j, o, a);
    lemma_prod3(n, k, a);
    lemma_mul_is_associative(h, det2(j, k, n, o), a);
    lemma_mul_is_distributive_sub(h, a * j * o, a * k * n);
    lemma_prod4(h, a, j, o);
    lemma_prod4(h, a, k, n);
    lemma_neg_times(det3(b, c, d, j, k, l, n, o, p), e);
    lemma_sum3_times(b * det2(k, l, o, p), c * det2(j, l, n, p), d * det2(j, k, n, o), e);
    lemma_det2_mul(k, l, o, p, e);
    lemma_prod3(k, p, e);
    lemma_prod3(o, l, e);
    lemma_mul_is_associative(b, det2(k, l, o, p), e);
    lemma_mul_is_distributive_sub(b, e * k * p, e * l * o);
    lemma_det2_mul(j, l, n, p, e);
    lemma_prod3(j, p, e);
    lemma_prod3(n, l, e);
    lemma_mul_is_associative(c, det2(j, l, n, p), e);
    lemma_mul_is_distributive_sub(c, e * j * p, e * l * n);
    lemma_det2_mul(j, k, n, o, e);
    lemma_prod3(j, o, e);
    lemma_prod3(n, k, e);
    lemma_mul_is_associative(d, det2(j, k, n, o), e);
    lemma_mul_is_distributive_sub(d, e * j * o, e * k * n);
    lemma_sum3_times(b * det2(g, h, o, p), c * det2(f, h, n, p), d * det2(f, g, n, o), i);
    lemma_det2_mul(g, h, o, p, i);
    lemma_prod3(g, p, i);
    lemma_prod3(o, h, i);
    lemma_mul_is_associative(b, det2(g, h, o, p), i);
    lemma_mul_is_distributive_sub(b, g * i * p, h * i * o);
    lemma_det2_mul(f, h, n, p, i);
    lemma_prod3(f, p, i);
    lemma_prod3(n, h, i);
    lemma_mul_is_associative(c, det2(f, h, n, p), i);
    lemma_mul_is_distributive_sub(c, f * i * p, h * i * n);
    lemma_det2_mul(f, g, n, o, i);
    lemma_prod3(f, o, i);
    lemma_prod3(n, g, i);
    lemma_mul_is_associative(d, det2(f, g, n, o), i);
    lemma_mul_is_distributive_sub(d, f * i * o, g * i * n);
    lemma_neg_times(det3(b, c, d, f, g, h, j, k, l), m);
    lemma_sum3_times(b * det2(g, h, k, l), c * det2(f, h, j, l), d * det2(f, g, j, k), m);
    lemma_det2_mul(g, h, k, l, m);
    lemma_prod3(g, l, m);
    lemma_prod3(k, h, m);
    lemma_mul_is_associative(b, det2(g, h, k, l), m);
    lemma_mul_is_distributive_sub(b, g * l * m, h * k * m);
    lemma_det2_mul(f, h, j, l, m);
    lemma_prod3(f, l, m);
    lemma_prod3(j, h, m);
    lemma_mul_is_associative(c, det2(f, h, j, l), m);
    lemma_mul_is_distributive_sub(c, f * l * m, h * j * m);
    lemma_det2_mul(f, g, j, k, m);
    lemma_prod3(f, k, m);
    lemma_prod3(j, g, m);
    lemma_mul_is_associative(d, det2(f, g, j, k), m);
    lemma_mul_is_distributive_sub(d, f * k * m, g * j * m);
    lemma_sum3_times(f * det2(k, l, o, p), g * det2(j, l, n, p), h * det2(j, k, n, o), b);
    lemma_det2_mul(k, l, o, p, b);
    lemma_prod3(k, p, b);
    lemma_prod3(o, l, b);
    lemma_mul_is_associative(f, det2(k, l, o, p), b);
    lemma_mul_is_distributive_sub(f, b * k * p, b * l * o);
    lemma_prod4(f, b, k, p);
    lemma_prod4(f, b, l, o);
    lemma_det2_mul(j, l, n, p, b);
    lemma_prod3(j, p, b);
    lemma_prod3(n, l, b);
    lemma_mul_is_associative(g, det2(j, l, n, p), b);
    lemma_mul_is_distributive_sub(g, b * j * p, b * l * n);
    lemma_prod4(g, b, j, p);
    lemma_prod4(g, b, l, n);
    lemma_det2_mul(j, k, n, o, b);
    lemma_prod3(j, o, b);
    lemma_prod3(n, k, b);
    lemma_mul_is_associative(h, det2(j, k, n, o), b);
    lemma_mul_is_distributive_sub(h, b * j * o, b * k * n);
    lemma_prod4(h, b, j, o);
    lemma_prod4(h, b, k, n);
    lemma_neg_times(det3(b, c, d, j, k, l, n, o, p), f);
    lemma_sum3_times(b * det2(k, l, o, p), c * det2(j, l, n, p), d * det2(j, k, n, o), f);
    lemma_det2_mul(k, l, o, p, f);
    lemma_prod3(k, p, f);
    lemma_prod3(o, l, f);
    lemma_mul_is_associative(b, det2(k, l, o, p), f);
    lemma_mul_is_distributive_sub(b, f * k * p, f * l * o);
    lemma_det2_mul(j, l, n, p, f);
    lemma_prod3(j, p, f);
    lemma_prod3(n, l, f);
    lemma_mul_is_associative(c, det2(j, l, n, p), f);
    lemma_mul_is_distributive_sub(c, f * j * p, f * l * n);
    lemma_det2_mul(j, k, n, o, f);
    lemma_prod3(j, o, f);
    lemma_prod3(n, k, f);
    lemma_mul_is_associative(d, det2(j, k, n, o), f);
    lemma_mul_is_distributive_sub(d, f * j * o, f * k * n);
    lemma_sum3_times(b * det2(g, h, o, p), c * det2(f, h, n, p), d * det2(f, g, n, o), j);
    lemma_det2_mul(g, h, o, p, j);
    lemma_prod3(g, p, j);
    lemma_prod3(o, h, j);
    lemma_mul_is_associative(b, det2(g, h, o, p), j);
    lemma_mul_is_distributive_sub(b, g * j * p, h * j * o);
    lemma_det2_mul(f, h, n, p, j);
    lemma_prod3(f, p, j);
    lemma_prod3(n, h, j);
    lemma_mul_is_associative(c, det2(f, h, n, p), j);
    lemma_mul_is_distributive_sub(c, f * j * p, h * j * n);
    lemma_det2_mul(f, g, n, o, j);
    lemma_prod3(f, o, j);
    lemma_prod3(n, g, j);
    lemma_mul_is_associative(d, det2(f, g, n, o), j);
    lemma_mul_is_distributive_sub(d, f * j * o, g * j * n);
    lemma_neg_times(det3(b, c, d, f, g, h, j, k, l), n);
    lemma_sum3_times(b * det2(g, h, k, l), c * det2(f, h, j, l), d * det2(f, g, j, k), n);
    lemma_det2_mul(g, h, k, l, n);
    lemma_prod3(g, l, n);
    lemma_prod3(k, h, n);
    lemma_mul_is_associative(b, det2(g, h, k, l), n);
    lemma_mul_is_distributive_sub(b, g * l * n, h * k * n);
    lemma_det2_mul(f, h, j, l, n);
    lemma_prod3(f, l, n);
    lemma_prod3(j, h, n);
    lemma_mul_is_associative(c, det2(f, h, j, l), n);
    lemma_mul_is_distributive_sub(c, f * l * n, h * j * n);
    lemma_det2_mul(f, g, j, k, n);
    lemma_prod3(f, k, n);
    lemma_prod3(j, g, n);
    lemma_mul_is_associative(d, det2(f, g, j, k), n);
    lemma_mul_is_distributive_sub(d, f * k * n, g * j * n);
    lemma_sum3_times(f * det2(k, l, o, p), g * det2(j, l, n, p), h * det2(j, k, n, o), c);
    lemma_det2_mul(k, l, o, p, c);
    lemma_prod3(k, p, c);
    lemma_prod3(o, l, c);
    lemma_mul_is_associative(f, det2(k, l, o, p), c);
    lemma_mul_is_distributive_sub(f, c * k * p, c * l * o);
    lemma_prod4(f, c, k, p);
    lemma_prod4(f, c, l, o);
    lemma_det2_mul(j, l, n, p, c);
    lemma_prod3(j, p, c);
    lemma_prod3(n, l, c);
    lemma_mul_is_associative(g, det2(j, l, n, p), c);
    lemma_mul_is_distributive_sub(g, c * j * p, c * l * n);
    lemma_prod4(g, c, j, p);
    lemma_prod4(g, c, l, n);
    lemma_det2_mul(j, k, n, o, c);
    lemma_prod3(j, o, c);
    lemma_prod3(n, k, c);
    lemma_mul_is_associative(h, det2(j, k, n, o), c);
    lemma_mul_is_distributive_sub(h, c * j * o, c * k * n);
    lemma_prod4(h, c, j, o);
    lemma_prod4(h, c, k, n);
    lemma_neg_times(det3(b, c, d, j, k, l, n, o, p), g);
    lemma_sum3_times(b * det2(k, l, o, p), c * det2(j, l, n, p), d * det2(j, k, n, o), g);
    lemma_det2_mul(k, l, o, p, g);
    lemma_prod3(k, p, g);
    lemma_prod3(o, l, g);
    lemma_mul_is_associative(b, det2(k, l, o, p), g);
    lemma_mul_is_distributive_sub(b, g * k * p, g * l * o);
    lemma_det2_mul(j, l, n, p, g);
    lemma_prod3(j, p, g);
    lemma_prod3(n, l, g);
    lemma_mul_is_associative(c, det2(j, l, n, p), g);
    lemma_mul_is_distributive_sub(c, g * j * p, g * l * n);
    lemma_det2_mul(j, k, n, o, g);
    lemma_prod3(j, o, g);
    lemma_prod3(n, k, g);
    lemma_mul_is_associative(d, det2(j, k, n, o), g);
    lemma_mul_is_distributive_sub(d, g * j * o, g * k * n);
    lemma_sum3_times(b * det2(g, h, o, p), c * det2(f, h, n, p), d * det2(f, g, n, o), k);
    lemma_det2_mul(g, h, o, p, k);
    lemma_prod3(g, p, k);
    lemma_prod3(o, h, k);
    lemma_mul_is_associative(b, det2(g, h, o, p), k);
    lemma_mul_is_distributive_sub(b, g * k * p, h * k * o);
    lemma_det2_mul(f, h, n, p, k);
    lemma_prod3(f, p, k);
    lemma_prod3(n, h, k);
    lemma_mul_is_associative(c, det2(f, h, n, p), k);
    lemma_mul_is_distributive_sub(c, f * k * p, h * k * n);
    lemma_det2_mul(f, g, n, o, k);
    lemma_prod3(f, o, k);
    lemma_prod3(n, g, k);
    lemma_mul_is_associative(d, det2(f, g, n, o), k);
    lemma_mul_is_distributive_sub(d, f * k * o, g * k * n);
    lemma_neg_times(det3(b, c, d, f, g, h, j, k, l), o);
    lemma_sum3_times(b * det2(g, h, k, l), c * det2(f, h, j, l), d * det2(f, g, j, k), o);
    lemma_det2_mul(g, h, k, l, o);
    lemma_prod3(g, l, o);
    lemma_prod3(k, h, o);
    lemma_mul_is_associative(b, det2(g, h, k, l), o);
    lemma_mul_is_distributive_sub(b, g * l * o, h * k * o);
    lemma_det2_mul(f, h, j, l, o);
    lemma_prod3(f, l, o);
    lemma_prod3(j, h, o);
    lemma_mul_is_associative(c, det2(f, h, j, l), o);
    lemma_mul_is_distributive_sub(c, f * l * o, h * j * o);
    lemma_det2_mul(f, g, j, k, o);
    lemma_prod3(f, k, o);
    lemma_prod3(j, g, o);
    lemma_mul_is_associative(d, det2(f, g, j, k), o);
    lemma_mul_is_distributive_sub(d, f * k * o, g * j * o);
    lemma_sum3_times(f * det2(k, l, o, p), g * det2(j, l, n, p), h * det2(j, k, n, o), d);
    lemma_det2_mul(k, l, o, p, d);
    lemma_prod3(k, p, d);
    lemma_prod3(o, l, d);
    lemma_mul_is_associative(f, det2(k, l, o, p), d);
    lemma_mul_is_distributive_sub(f, d * k * p, d * l * o);
    lemma_prod4(f, d, k, p);
    lemma_prod4(f, d, l, o);
    lemma_det2_mul(j, l, n, p, d);
    lemma_prod3(j, p, d);
    lemma_prod3(n, l, d);
    lemma_mul_is_associative(g, det2(j, l, n, p), d);
    lemma_mul_is_distributive_sub(g, d * j * p, d * l * n);
    lemma_prod4(g, d, j, p);
    lemma_prod4(g, d, l, n);
    lemma_det2_mul(j, k, n, o, d);
    lemma_prod3(j, o, d);
    lemma_prod3(n, k, d);
    lemma_mul_is_associative(h, det2(j, k, n, o), d);
    lemma_mul_is_distributive_sub(h, d * j * o, d * k * n);
    lemma_prod4(h, d, j, o);
    lemma_prod4(h, d, k, n);
    lemma_neg_times(det3(b, c, d, j, k, l, n, o, p), h);
    lemma_sum3_times(b * det2(k, l, o, p), c * det2(j, l, n, p), d * det2(j, k, n, o), h);
    lemma_det2_mul(k, l, o, p, h);
    lemma_prod3(k, p, h);
    lemma_prod3(o, l, h);
    lemma_mul_is_associative(b, det2(k, l, o, p), h);
    lemma_mul_is_distributive_sub(b, h * k * p, h * l * o);
    lemma_det2_mul(j, l, n, p, h);
    lemma_prod3(j, p, h);
    lemma_prod3(n, l, h);
    lemma_mul_is_associative(c, det2(j, l, n, p), h);
    lemma_mul_is_distributive_sub(c, h * j * p, h * l * n);
    lemma_det2_mul(j, k, n, o, h);
    lemma_prod3(j, o, h);
    lemma_prod3(n, k, h);
    lemma_mul_is_associative(d, det2(j, k, n, o), h);
    lemma_mul_is_distributive_sub(d, h * j * o, h * k * n);
    lemma_sum3_times(b * det2(g, h, o, p), c * det2(f, h, n, p), d * det2(f, g, n, o), l);
    lemma_det2_mul(g, h, o, p, l);
    lemma_prod3(g, p, l);
    lemma_prod3(o, h, l);
    lemma_mul_is_associative(b, det2(g, h, o, p), l);
    lemma_mul_is_distributive_sub(b, g * l * p, h * l * o);
    lemma_det2_mul(f, h, n, p, l);
    lemma_prod3(f, p, l);
    lemma_prod3(n, h, l);
    lemma_mul_is_associative(c, det2(f, h, n, p), l);
    lemma_mul_is_distributive_sub(c, f * l * p, h * l * n);
    lemma_det2_mul(f, g, n, o, l);
    lemma_prod3(f, o, l);
    lemma_prod3(n, g, l);
    lemma_mul_is_associative(d, det2(f, g, n, o), l);
    lemma_mul_is_distributive_sub(d, f * l * o, g * l * n);
    lemma_neg_times(det3(b, c, d, f, g, h, j, k, l), p);
    lemma_sum3_times(b * det2(g, h, k, l), c * det2(f, h, j, l), d * det2(f, g, j, k), p);
    lemma_det2_mul(g, h, k, l, p);
    lemma_prod3(g, l, p);
    lemma_prod3(k, h, p);
    lemma_mul_is_associative(b, det2(g, h, k, l), p);
    lemma_mul_is_distributive_sub(b, g * l * p, h * k * p);
    lemma_det2_mul(f, h, j, l, p);
    lemma_prod3(f, l, p);
    lemma_prod3(j, h, p);
    lemma_mul_is_associative(c, det2(f, h, j, l), p);
    lemma_mul_is_distributive_sub(c, f * l * p, h * j * p);
    lemma_det2_mul(f, g, j, k, p);
    lemma_prod3(f, k, p);
    lemma_prod3(j, g, p);
    lemma_mul_is_associative(d, det2(f, g, j, k), p);
    lemma_mul_is_distributive_sub(d, f * k * p, g * j * p);
}

/// Row 1 of the adjugate of a 4x4 matrix dotted with each column of the matrix.
proof fn lemma_adjugate4_row1(a: int, b: int, c: int, d: int, e: int, f: int, g: int, h: int, i: int, j: int, k: int, l: int, m: int, n: int, o: int, p: int)
    ensures
        (-det3(e, g, h, i, k, l, m, o, p)) * a + det3(a, c, d, i, k, l, m, o, p) * e + (-det3(a, c, d, e, g, h, m, o, p)) * i + det3(a, c, d, e, g, h, i, k, l) * m
            == 0,
        (-det3(e, g, h, i, k, l, m, o, p)) * b + det3(a, c, d, i, k, l, m, o, p) * f + (-det3(a, c, d, e, g, h, m, o, p)) * j + det3(a, c, d, e, g, h, i, k, l) * n
            == a * (f * k * p) - a * (f * l * o) - a * (g * j * p) + a * (g * l * n) + a * (h * j * o) - a * (h * k * n) - b * (e * k * p) + b * (e * l * o) + b * (g * i * p) - b * (g * l * m) - b * (h * i * o) + b * (h * k * m) + c * (e * j * p) - c * (e * l * n) - c * (f * i * p) + c * (f * l * m) + c * (h * i * n) - c * (h * j * m) - d * (e * j * o) + d * (e * k * n) + d * (f * i * o) - d * (f * k * m) - d * (g * i * n) + d * (g * j * m),
        (-det3(e, g, h, i, k, l, m, o, p)) * c + det3(a, c, d, i, k, l, m, o, p) * g + (-det3(a, c, d, e, g, h, m, o, p)) * k + det3(a, c, d, e, g, h, i, k, l) * o
            == 0,
        (-det3(e, g, h, i, k, l, m, o, p)) * d + det3(a, c, d, i, k, l, m, o, p) * h + (-det3(a, c, d, e, g, h, m, o, p)) * l + det3(a, c, d, e, g, h, i, k, l) * p
            == 0,
{
    lemma_neg_times(det3(e, g, h, i, k, l, m, o, p), a);
    lemma_sum3_times(e * det2(k, l, o, p), g * det2(i, l, m, p), h * det2(i, k, m, o), a);
    lemma_det2_mul(k, l, o, p, a);
    lemma_prod3(k, p, a);
    lemma_prod3(o, l, a);
    lemma_mul_is_associative(e, det2(k, l, o, p), a);
    lemma_mul_is_distributive_sub(e, a * k * p, a * l * o);
    lemma_prod4(e, a, k, p);
    lemma_prod4(e, a, l, o);
    lemma_det2_mul(i, l, m, p, a);
    lemma_prod3(i, p, a);
    lemma_prod3(m, l, a);
    lemma_mul_is_associative(g, det2(i, l, m, p), a);
    lemma_mul_is_distributive_sub(g, a * i * p, a * l * m);
    lemma_prod4(g, a, i, p);
    lemma_prod4(g, a, l, m);
    lemma_det2_mul(i, k, m, o, a);
    lemma_prod3(i, o, a);
    lemma_prod3(m, k, a);
    lemma_mul_is_associative(h, det2(i, k, m, o), a);
    lemma_mul_is_distributive_sub(h, a * i * o, a * k * m);
    lemma_prod4(h, a, i, o);
    lemma_prod4(h, a, k, m);
    lemma_sum3_times(a * det2(k, l, o, p), c * det2(i, l, m, p), d * det2(i, k, m, o), e);
    lemma_det2_mul(k, l, o, p, e);
    lemma_prod3(k, p, e);
    lemma_prod3(o, l, e);
    lemma_mul_is_associative(a, det2(k, l, o, p), e);
    lemma_mul_is_distributive_sub(a, e * k * p, e * l * o);
    lemma_det2_mul(i, l, m, p, e);
    lemma_prod3(i, p, e);
    lemma_prod3(m, l, e);
    lemma_mul_is_associative(c, det2(i, l, m, p), e);
    lemma_mul_is_distributive_sub(c, e * i * p, e * l * m);
    lemma_det2_mul(i, k, m, o, e);
    lemma_prod3(i, o, e);
    lemma_prod3(m, k, e);
    lemma_mul_is_associative(d, det2(i, k, m, o), e);
    lemma_mul_is_distributive_sub(d, e * i * o, e * k * m);
    lemma_neg_times(det3(a, c, d, e, g, h, m, o, p), i);
    lemma_sum3_times(a * det2(g, h, o, p), c * det2(e, h, m, p), d * det2(e, g, m, o), i);
    lemma_det2_mul(g, h, o, p, i);
    lemma_prod3(g, p, i);
    lemma_prod3(o, h, i);
    lemma_mul_is_associative(a, det2(g, h, o, p), i);
    lemma_mul_is_distributive_sub(a, g * i * p, h * i * o);
    lemma_det2_mul(e, h, m, p, i);
    lemma_prod3(e, p, i);
    lemma_prod3(m, h, i);
    lemma_mul_is_associative(c, det2(e, h, m, p), i);
    lemma_mul_is_distributive_sub(c, e * i * p, h * i * m);
    lemma_det2_mul(e, g, m, o, i);
    lemma_prod3(e, o, i);
    lemma_prod3(m, g, i);
    lemma_mul_is_associative(d, det2(e, g, m, o), i);
    lemma_mul_is_distributive_sub(d, e * i * o, g * i * m);
    lemma_sum3_times(a * det2(g, h, k, l), c * det2(e, h, i, l), d * det2(e, g, i, k), m);
    lemma_det2_mul(g, h, k, l, m);
    lemma_prod3(g, l, m);
    lemma_prod3(k, h, m);
    lemma_mul_is_associative(a, det2(g, h, k, l), m);
    lemma_mul_is_distributive_sub(a, g * l * m, h * k * m);
    lemma_det2_mul(e, h, i, l, m);
    lemma_prod3(e, l, m);
    lemma_prod3(i, h, m);
    lemma_mul_is_associative(c, det2(e, h, i, l), m);
    lemma_mul_is_distributive_sub(c, e * l * m, h * i * m);
    lemma_det2_mul(e, g, i, k, m);
    lemma_prod3(e, k, m);
    lemma_prod3(i, g, m);
    lemma_mul_is_associative(d, det2(e, g, i, k), m);
    lemma_mul_is_distributive_sub(d, e * k * m, g * i * m);
    lemma_neg_times(det3(e, g, h, i, k, l, m, o, p), b);
    lemma_sum3_times(e * det2(k, l, o, p), g * det2(i, l, m, p), h * det2(i, k, m, o), b);
    lemma_det2_mul(k, l, o, p, b);
    lemma_prod3(k, p, b);
    lemma_prod3(o, l, b);
    lemma_mul_is_associative(e, det2(k, l, o, p), b);
    lemma_mul_is_distributive_sub(e, b * k * p, b * l * o);
    lemma_prod4(e, b, k, p);
    lemma_prod4(e, b, l, o);
    lemma_det2_mul(i, l, m, p, b);
    lemma_prod3(i, p, b);
    lemma_prod3(m, l, b);
    lemma_mul_is_associative(g, det2(i, l, m, p), b);
    lemma_mul_is_distributive_sub(g, b * i * p, b * l * m);
    lemma_prod4(g, b, i, p);
    lemma_prod4(g, b, l, m);
    lemma_det2_mul(i, k, m, o, b);
    lemma_prod3(i, o, b);
    lemma_prod3(m, k, b);
    lemma_mul_is_associative(h, det2(i, k, m, o), b);
    lemma_mul_is_distributive_sub(h, b * i * o, b * k * m);
    lemma_prod4(h, b, i, o);
    lemma_prod4(h, b, k, m);
    lemma_sum3_times(a * det2(k, l, o, p), c * det2(i, l, m, p), d * det2(i, k, m, o), f);
    lemma_det2_mul(k, l, o, p, f);
    lemma_prod3(k, p, f);
    lemma_prod3(o, l, f);
    lemma_mul_is_associative(a, det2(k, l, o, p), f);
    lemma_mul_is_distributive_sub(a, f * k * p, f * l * o);
    lemma_det2_mul(i, l, m, p, f);
    lemma_prod3(i, p, f);
    lemma_prod3(m, l, f);
    lemma_mul_is_associative(c, det2(i, l, m, p), f);
    lemma_mul_is_distributive_sub(c, f * i * p, f * l * m);
    lemma_det2_mul(i, k, m, o, f);
    lemma_prod3(i, o, f);
    lemma_prod3(m, k, f);
    lemma_mul_is_associative(d, det2(i, k, m, o), f);
    lemma_mul_is_distributive_sub(d, f * i * o, f * k * m);
    lemma_neg_times(det3(a, c, d, e, g, h, m, o, p), j);
    lemma_sum3_times(a * det2(g, h, o, p), c * det2(e, h, m, p), d * det2(e, g, m, o), j);
    lemma_det2_mul(g, h, o, p, j);
    lemma_prod3(g, p, j);
    lemma_prod3(o, h, j);
    lemma_mul_is_associative(a, det2(g, h, o, p), j);
    lemma_mul_is_distributive_sub(a, g * j * p, h * j * o);
    lemma_det2_mul(e, h, m, p, j);
    lemma_prod3(e, p, j);
    lemma_prod3(m, h, j);
    lemma_mul_is_associative(c, det2(e, h, m, p), j);
    lemma_mul_is_distributive_sub(c, e * j * p, h * j * m);
    lemma_det2_mul(e, g, m, o, j);
    lemma_prod3(e, o, j);
    lemma_prod3(m, g, j);
    lemma_mul_is_associative(d, det2(e, g, m, o), j);
    lemma_mul_is_distributive_sub(d, e * j * o, g * j * m);
    lemma_sum3_times(a * det2(g, h, k, l), c * det2(e, h, i, l), d * det2(e, g, i, k), n);
    lemma_det2_mul(g, h, k, l, n);
    lemma_prod3(g, l, n);
    lemma_prod3(k, h, n);
    lemma_mul_is_associative(a, det2(g, h, k, l), n);
    lemma_mul_is_distributive_sub(a, g * l * n, h * k * n);
    lemma_det2_mul(e, h, i, l, n);
    lemma_prod3(e, l, n);
    lemma_prod3(i, h, n);
    lemma_mul_is_associative(c, det2(e, h, i, l), n);
    lemma_mul_is_distributive_sub(c, e * l * n, h * i * n);
    lemma_det2_mul(e, g, i, k, n);
    lemma_prod3(e, k, n);
    lemma_prod3(i, g, n);
    lemma_mul_is_associative(d, det2(e, g, i, k), n);
    lemma_mul_is_distributive_sub(d, e * k * n, g * i * n);
    lemma_neg_times(det3(e, g, h, i, k, l, m, o, p), c);
    lemma_sum3_times(e * det2(k, l, o, p), g * det2(i, l, m, p), h * det2(i, k, m, o), c);
    lemma_det2_mul(k, l, o, p, c);
    lemma_prod3(k, p, c);
    lemma_prod3(o, l, c);
    lemma_mul_is_associative(e, det2(k, l, o, p), c);
    lemma_mul_is_distributive_sub(e, c * k * p, c * l * o);
    lemma_prod4(e, c, k, p);
    lemma_prod4(e, c, l, o);
    lemma_det2_mul(i, l, m, p, c);
    lemma_prod3(i, p, c);
    lemma_prod3(m, l, c);
    lemma_mul_is_associative(g, det2(i, l, m, p), c);
    lemma_mul_is_distributive_sub(g, c * i * p, c * l * m);
    lemma_prod4(g, c, i, p);
    lemma_prod4(g, c, l, m);
    lemma_det2_mul(i, k, m, o, c);
    lemma_prod3(i, o, c);
    lemma_prod3(m, k, c);
    lemma_mul_is_associative(h, det2(i, k, m, o), c);
    lemma_mul_is_distributive_sub(h, c * i * o, c * k * m);
    lemma_prod4(h, c, i, o);
    lemma_prod4(h, c, k, m);
    lemma_sum3_times(a * det2(k, l, o, p), c * det2(i, l, m, p), d * det2(i, k, m, o), g);
    lemma_det2_mul(k, l, o, p, g);
    lemma_prod3(k, p, g);
    lemma_prod3(o, l, g);
    lemma_mul_is_associative(a, det2(k, l, o, p), g);
    lemma_mul_is_distributive_sub(a, g * k * p, g * l * o);
    lemma_det2_mul(i, l, m, p, g);
    lemma_prod3(i, p, g);
    lemma_prod3(m, l, g);
    lemma_mul_is_associative(c, det2(i, l, m, p), g);
    lemma_mul_is_distributive_sub(c, g * i * p, g * l * m);
    lemma_det2_mul(i, k, m, o, g);
    lemma_prod3(i, o, g);
    lemma_prod3(m, k, g);
    lemma_mul_is_associative(d, det2(i, k, m, o), g);
    lemma_mul_is_distributive_sub(d, g * i * o, g * k * m);
    lemma_neg_times(det3(a, c, d, e, g, h, m, o, p), k);
    lemma_sum3_times(a * det2(g, h, o, p), c * det2(e, h, m, p), d * det2(e, g, m, o), k);
    lemma_det2_mul(g, h, o, p, k);
    lemma_prod3(g, p, k);
    lemma_prod3(o, h, k);
    lemma_mul_is_associative(a, det2(g, h, o, p), k);
    lemma_mul_is_distributive_sub(a, g * k * p, h * k * o);
    lemma_det2_mul(e, h, m, p, k);
    lemma_prod3(e, p, k);
    lemma_prod3(m, h, k);
    lemma_mul_is_associative(c, det2(e, h, m, p), k);
    lemma_mul_is_distributive_sub(c, e * k * p, h * k * m);
    lemma_det2_mul(e, g, m, o, k);
    lemma_prod3(e, o, k);
    lemma_prod3(m, g, k);
    lemma_mul_is_associative(d, det2(e, g, m, o), k);
    lemma_mul_is_distributive_sub(d, e * k * o, g * k * m);
    lemma_sum3_times(a * det2(g, h, k, l), c * det2(e, h, i, l), d * det2(e, g, i, k), o);
    lemma_det2_mul(g, h, k, l, o);
    lemma_prod3(g, l, o);
    lemma_prod3(k, h, o);
    lemma_mul_is_associative(a, det2(g, h, k, l), o);
    lemma_mul_is_distributive_sub(a, g * l * o, h * k * o);
    lemma_det2_mul(e, h, i, l, o);
    lemma_prod3(e, l, o);
    lemma_prod3(i, h, o);
    lemma_mul_is_associative(c, det2(e, h, i, l), o);
    lemma_mul_is_distributive_sub(c, e * l * o, h * i * o);
    lemma_det2_mul(e, g, i, k, o);
    lemma_prod3(e, k, o);
    lemma_prod3(i, g, o);
    lemma_mul_is_associative(d, det2(e, g, i, k), o);
    lemma_mul_is_distributive_sub(d, e * k * o, g * i * o);
    lemma_neg_times(det3(e, g, h, i, k, l, m, o, p), d);
    lemma_sum3_times(e * det2(k, l, o, p), g * det2(i, l, m, p), h * det2(i, k, m, o), d);
    lemma_det2_mul(k, l, o, p, d);
    lemma_prod3(k, p, d);
    lemma_prod3(o, l, d);
    lemma_mul_is_associative(e, det2(k, l, o, p), d);
    lemma_mul_is_distributive_sub(e, d * k * p, d * l * o);
    lemma_prod4(e, d, k, p);
    lemma_prod4(e, d, l, o);
    lemma_det2_mul(i, l, m, p, d);
    lemma_prod3(i, p, d);
    lemma_prod3(m, l, d);
    lemma_mul_is_associative(g, det2(i, l, m, p), d);
    lemma_mul_is_distributive_sub(g, d * i * p, d * l * m);
    lemma_prod4(g, d, i, p);
    lemma_prod4(g, d, l, m);
    lemma_det2_mul(i, k, m, o, d);
    lemma_prod3(i, o, d);
    lemma_prod3(m, k, d);
    lemma_mul_is_associative(h, det2(i, k, m, o), d);
    lemma_mul_is_distributive_sub(h, d * i * o, d * k * m);
    lemma_prod4(h, d, i, o);
    lemma_prod4(h, d, k, m);
    lemma_sum3_times(a * det2(k, l, o, p), c * det2(i, l, m, p), d * det2(i, k, m, o), h);
    lemma_det2_mul(k, l, o, p, h);
    lemma_prod3(k, p, h);
    lemma_prod3(o, l, h);
    lemma_mul_is_associative(a, det2(k, l, o, p), h);
    lemma_mul_is_distributive_sub(a, h * k * p, h * l * o);
    lemma_det2_mul(i, l, m, p, h);
    lemma_prod3(i, p, h);
    lemma_prod3(m, l, h);
    lemma_mul_is_associative(c, det2(i, l, m, p), h);
    lemma_mul_is_distributive_sub(c, h * i * p, h * l * m);
    lemma_det2_mul(i, k, m, o, h);
    lemma_prod3(i, o, h);
    lemma_prod3(m, k, h);
    lemma_mul_is_associative(d, det2(i, k, m, o), h);
    lemma_mul_is_distributive_sub(d, h * i * o, h * k * m);
    lemma_neg_times(det3(a, c, d, e, g, h, m, o, p), l);
    lemma_sum3_times(a * det2(g, h, o, p), c * det2(e, h, m, p), d * det2(e, g, m, o), l);
    lemma_det2_mul(g, h, o, p, l);
    lemma_prod3(g, p, l);
    lemma_prod3(o, h, l);
    lemma_mul_is_associative(a, det2(g, h, o, p), l);
    lemma_mul_is_distributive_sub(a, g * l * p, h * l * o);
    lemma_det2_mul(e, h, m, p, l);
    lemma_prod3(e, p, l);
    lemma_prod3(m, h, l);
    lemma_mul_is_associative(c, det2(e, h, m, p), l);
    lemma_mul_is_distributive_sub(c, e * l * p, h * l * m);
    lemma_det2_mul(e, g, m, o, l);
    lemma_prod3(e, o, l);
    lemma_prod3(m, g, l);
    lemma_mul_is_associative(d, det2(e, g, m, o), l);
    lemma_mul_is_distributive_sub(d, e * l * o, g * l * m);
    lemma_sum3_times(a * det2(g, h, k, l), c * det2(e, h, i, l), d * det2(e, g, i, k), p);
    lemma_det2_mul(g, h, k, l, p);
    lemma_prod3(g, l, p);
    lemma_prod3(k, h, p);
    lemma_mul_is_associative(a, det2(g, h, k, l), p);
    lemma_mul_is_distributive_sub(a, g * l * p, h * k * p);
    lemma_det2_mul(e, h, i, l, p);
    lemma_prod3(e, l, p);
    lemma_prod3(i, h, p);
    lemma_mul_is_associative(c, det2(e, h, i, l), p);
    lemma_mul_is_distributive_sub(c, e * l * p, h * i * p);
    lemma_det2_mul(e, g, i, k, p);
    lemma_prod3(e, k, p);
    lemma_prod3(i, g, p);
    lemma_mul_is_associative(d, det2(e, g, i, k), p);
    lemma_mul_is_distributive_sub(d, e * k * p, g * i * p);
}

/// Row 2 of the adjugate of a 4x4 matrix dotted with each column of the matrix.
proof fn lemma_adjugate4_row2(a: int, b: int, c: int, d: int, e: int, f: int, g: int, h: int, i: int, j: int, k: int, l: int, m: int, n: int, o: int, p: int)
    ensures
        det3(e, f, h, i, j, l, m, n, p) * a + (-det3(a, b, d, i, j, l, m, n, p)) * e + det3(a, b, d, e, f, h, m, n, p) * i + (-det3(a, b, d, e, f, h, i, j, l)) * m
            == 0,
        det3(e, f, h, i, j, l, m, n, p) * b + (-det3(a, b, d, i, j, l, m, n, p)) * f + det3(a, b, d, e, f, h, m, n, p) * j + (-det3(a, b, d, e, f, h, i, j, l)) * n
            == 0,
        det3(e, f, h, i, j, l, m, n, p) * c + (-det3(a, b, d, i, j, l, m, n, p)) * g + det3(a, b, d, e, f, h, m, n, p) * k + (-det3(a, b, d, e, f, h, i, j, l)) * o
            == a * (f * k * p) - a * (f * l * o) - a * (g * j * p) + a * (g * l * n) + a * (h * j * o) - a * (h * k * n) - b * (e * k * p) + b * (e * l * o) + b * (g * i * p) - b * (g * l * m) - b * (h * i * o) + b * (h * k * m) + c * (e * j * p) - c * (e * l * n) - c * (f * i * p) + c * (f * l * m) + c * (h * i * n) - c * (h * j * m) - d * (e * j * o) + d * (e * k * n) + d * (f * i * o) - d * (f * k * m) - d * (g * i * n) + d * (g * j * m),
        det3(e, f, h, i, j, l, m, n, p) * d + (-det3(a, b, d, i, j, l, m, n, p)) * h + det3(a, b, d, e, f, h, m, n, p) * l + (-det3(a, b, d, e, f, h, i, j, l)) * p
            == 0,
{
    lemma_sum3_times(e * det2(j, l, n, p), f * det2(i, l, m, p), h * det2(i, j, m, n), a);
    lemma_det2_mul(j, l, n, p, a);
    lemma_prod3(j, p, a);
    lemma_prod3(n, l, a);
    lemma_mul_is_associative(e, det2(j, l, n, p), a);
    lemma_mul_is_distributive_sub(e, a * j * p, a * l * n);
    lemma_prod4(e, a, j, p);
    lemma_prod4(e, a, l, n);
    lemma_det2_mul(i, l, m, p, a);
    lemma_prod3(i, p, a);
    lemma_prod3(m, l, a);
    lemma_mul_is_associative(f, det2(i, l, m, p), a);
    lemma_mul_is_distributive_sub(f, a * i * p, a * l * m);
    lemma_prod4(f, a, i, p);
    lemma_prod4(f, a, l, m);
    lemma_det2_mul(i, j, m, n, a);
    lemma_prod3(i, n, a);
    lemma_prod3(m, j, a);
    lemma_mul_is_associative(h, det2(i, j, m, n), a);
    lemma_mul_is_distributive_sub(h, a * i * n, a * j * m);
    lemma_prod4(h, a, i, n);
    lemma_prod4(h, a, j, m);
    lemma_neg_times(det3(a, b, d, i, j, l, m, n, p), e);
    lemma_sum3_times(a * det2(j, l, n, p), b * det2(i, l, m, p), d * det2(i, j, m, n), e);
    lemma_det2_mul(j, l, n, p, e);
    lemma_prod3(j, p, e);
    lemma_prod3(n, l, e);
    lemma_mul_is_associative(a, det2(j, l, n, p), e);
    lemma_mul_is_distributive_sub(a, e * j * p, e * l * n);
    lemma_det2_mul(i, l, m, p, e);
    lemma_prod3(i, p, e);
    lemma_prod3(m, l, e);
    lemma_mul_is_associative(b, det2(i, l, m, p), e);
    lemma_mul_is_distributive_sub(b, e * i * p, e * l * m);
    lemma_det2_mul(i, j, m, n, e);
    lemma_prod3(i, n, e);
    lemma_prod3(m, j, e);
    lemma_mul_is_associative(d, det2(i, j, m, n), e);
    lemma_mul_is_distributive_sub(d, e * i * n, e * j * m);
    lemma_sum3_times(a * det2(f, h, n, p), b * det2(e, h, m, p), d * det2(e, f, m, n), i);
    lemma_det2_mul(f, h, n, p, i);
    lemma_prod3(f, p, i);
    lemma_prod3(n, h, i);
    lemma_mul_is_associative(a, det2(f, h, n, p), i);
    lemma_mul_is_distributive_sub(a, f * i * p, h * i * n);
    lemma_det2_mul(e, h, m, p, i);
    lemma_prod3(e, p, i);
    lemma_prod3(m, h, i);
    lemma_mul_is_associative(b, det2(e, h, m, p), i);
    lemma_mul_is_distributive_sub(b, e * i * p, h * i * m);
    lemma_det2_mul(e, f, m, n, i);
    lemma_prod3(e, n, i);
    lemma_prod3(m, f, i);
    lemma_mul_is_associative(d, det2(e, f, m, n), i);
    lemma_mul_is_distributive_sub(d, e * i * n, f * i * m);
    lemma_neg_times(det3(a, b, d, e, f, h, i, j, l), m);
    lemma_sum3_times(a * det2(f, h, j, l), b * det2(e, h, i, l), d * det2(e, f, i, j), m);
    lemma_det2_mul(f, h, j, l, m);
    lemma_prod3(f, l, m);
    lemma_prod3(j, h, m);
    lemma_mul_is_associative(a, det2(f, h, j, l), m);
    lemma_mul_is_distributive_sub(a, f * l * m, h * j * m);
    lemma_det2_mul(e, h, i, l, m);
    lemma_prod3(e, l, m);
    lemma_prod3(i, h, m);
    lemma_mul_is_associative(b, det2(e, h, i, l), m);
    lemma_mul_is_distributive_sub(b, e * l * m, h * i * m);
    lemma_det2_mul(e, f, i, j, m);
    lemma_prod3(e, j, m);
    lemma_prod3(i, f, m);
    lemma_mul_is_associative(d, det2(e, f, i, j), m);
    lemma_mul_is_distributive_sub(d, e * j * m, f * i * m);
    lemma_sum3_times(e * det2(j, l, n, p), f * det2(i, l, m, p), h * det2(i, j, m, n), b);
    lemma_det2_mul(j, l, n, p, b);
    lemma_prod3(j, p, b);
    lemma_prod3(n, l, b);
    lemma_mul_is_associative(e, det2(j, l, n, p), b);
    lemma_mul_is_distributive_sub(e, b * j * p, b * l * n);
    lemma_prod4(e, b, j, p);
    lemma_prod4(e, b, l, n);
    lemma_det2_mul(i, l, m, p, b);
    lemma_prod3(i, p, b);
    lemma_prod3(m, l, b);
    lemma_mul_is_associative(f, det2(i, l, m, p), b);
    lemma_mul_is_distributive_sub(f, b * i * p, b * l * m);
    lemma_prod4(f, b, i, p);
    lemma_prod4(f, b, l, m);
    lemma_det2_mul(i, j, m, n, b);
    lemma_prod3(i, n, b);
    lemma_prod3(m, j, b);
    lemma_mul_is_associative(h, det2(i, j, m, n), b);
    lemma_mul_is_distributive_sub(h, b * i * n, b * j * m);
    lemma_prod4(h, b, i, n);
    lemma_prod4(h, b, j, m);
    lemma_neg_times(det3(a, b, d, i, j, l, m, n, p), f);
    lemma_sum3_times(a * det2(j, l, n, p), b * det2(i, l, m, p), d * det2(i, j, m, n), f);
    lemma_det2_mul(j, l, n, p, f);
    lemma_prod3(j, p, f);
    lemma_prod3(n, l, f);
    lemma_mul_is_associative(a, det2(j, l, n, p), f);
    lemma_mul_is_distributive_sub(a, f * j * p, f * l * n);
    lemma_det2_mul(i, l, m, p, f);
    lemma_prod3(i, p, f);
    lemma_prod3(m, l, f);
    lemma_mul_is_associative(b, det2(i, l, m, p), f);
    lemma_mul_is_distributive_sub(b, f * i * p, f * l * m);
    lemma_det2_mul(i, j, m, n, f);
    lemma_prod3(i, n, f);
    lemma_prod3(m, j, f);
    lemma_mul_is_associative(d, det2(i, j, m, n), f);
    lemma_mul_is_distributive_sub(d, f * i * n, f * j * m);
    lemma_sum3_times(a * det2(f, h, n, p), b * det2(e, h, m, p), d * det2(e, f, m, n), j);
    lemma_det2_mul(f, h, n, p, j);
    lemma_prod3(f, p, j);
    lemma_prod3(n, h, j);
    lemma_mul_is_associative(a, det2(f, h, n, p), j);
    lemma_mul_is_distributive_sub(a, f * j * p, h * j * n);
    lemma_det2_mul(e, h, m, p, j);
    lemma_prod3(e, p, j);
    lemma_prod3(m, h, j);
    lemma_mul_is_associative(b, det2(e, h, m, p), j);
    lemma_mul_is_distributive_sub(b, e * j * p, h * j * m);
    lemma_det2_mul(e, f, m, n, j);
    lemma_prod3(e, n, j);
    lemma_prod3(m, f, j);
    lemma_mul_is_associative(d, det2(e, f, m, n), j);
    lemma_mul_is_distributive_sub(d, e * j * n, f * j * m);
    lemma_neg_times(det3(a, b, d, e, f, h, i, j, l), n);
    lemma_sum3_times(a * det2(f, h, j, l), b * det2(e, h, i, l), d * det2(e, f, i, j), n);
    lemma_det2_mul(f, h, j, l, n);
    lemma_prod3(f, l, n);
    lemma_prod3(j, h, n);
    lemma_mul_is_associative(a, det2(f, h, j, l), n);
    lemma_mul_is_distributive_sub(a, f * l * n, h * j * n);
    lemma_det2_mul(e, h, i, l, n);
    lemma_prod3(e, l, n);
    lemma_prod3(i, h, n);
    lemma_mul_is_associative(b, det2(e, h, i, l), n);
    lemma_mul_is_distributive_sub(b, e * l * n, h * i * n);
    lemma_det2_mul(e, f, i, j, n);
    lemma_prod3(e, j, n);
    lemma_prod3(i, f, n);
    lemma_mul_is_associative(d, det2(e, f, i, j), n);
    lemma_mul_is_distributive_sub(d, e * j * n, f * i * n);
    lemma_sum3_times(e * det2(j, l, n, p), f * det2(i, l, m, p), h * det2(i, j, m, n), c);
    lemma_det2_mul(j, l, n, p, c);
    lemma_prod3(j, p, c);
    lemma_prod3(n, l, c);
    lemma_mul_is_associative(e, det2(j, l, n, p), c);
    lemma_mul_is_distributive_sub(e, c * j * p, c * l * n);
    lemma_prod4(e, c, j, p);
    lemma_prod4(e, c, l, n);
    lemma_det2_mul(i, l, m, p, c);
    lemma_prod3(i, p, c);
    lemma_prod3(m, l, c);
    lemma_mul_is_associative(f, det2(i, l, m, p), c);
    lemma_mul_is_distributive_sub(f, c * i * p, c * l * m);
    lemma_prod4(f, c, i, p);
    lemma_prod4(f, c, l, m);
    lemma_det2_mul(i, j, m, n, c);
    lemma_prod3(i, n, c);
    lemma_prod3(m, j, c);
    lemma_mul_is_associative(h, det2(i, j, m, n), c);
    lemma_mul_is_distributive_sub(h, c * i * n, c * j * m);
    lemma_prod4(h, c, i, n);
    lemma_prod4(h, c, j, m);
    lemma_neg_times(det3(a, b, d, i, j, l, m, n, p), g);
    lemma_sum3_times(a * det2(j, l, n, p), b * det2(i, l, m, p), d * det2(i, j, m, n), g);
    lemma_det2_mul(j, l, n, p, g);
    lemma_prod3(j, p, g);
    lemma_prod3(n, l, g);
    lemma_mul_is_associative(a, det2(j, l, n, p), g);
    lemma_mul_is_distributive_sub(a, g * j * p, g * l * n);
    lemma_det2_mul(i, l, m, p, g);
    lemma_prod3(i, p, g);
    lemma_prod3(m, l, g);
    lemma_mul_is_associative(b, det2(i, l, m, p), g);
    lemma_mul_is_distributive_sub(b, g * i * p, g * l * m);
    lemma_det2_mul(i, j, m, n, g);
    lemma_prod3(i, n, g);
    lemma_prod3(m, j, g);
    lemma_mul_is_associative(d, det2(i, j, m, n), g);
    lemma_mul_is_distributive_sub(d, g * i * n, g * j * m);
    lemma_sum3_times(a * det2(f, h, n, p), b * det2(e, h, m, p), d * det2(e, f, m, n), k);
    lemma_det2_mul(f, h, n, p, k);
    lemma_prod3(f, p, k);
    lemma_prod3(n, h, k);
    lemma_mul_is_associative(a, det2(f, h, n, p), k);
    lemma_mul_is_distributive_sub(a, f * k * p, h * k * n);
    lemma_det2_mul(e, h, m, p, k);
    lemma_prod3(e, p, k);
    lemma_prod3(m, h, k);
    lemma_mul_is_associative(b, det2(e, h, m, p), k);
    lemma_mul_is_distributive_sub(b, e * k * p, h * k * m);
    lemma_det2_mul(e, f, m, n, k);
    lemma_prod3(e, n, k);
    lemma_prod3(m, f, k);
    lemma_mul_is_associative(d, det2(e, f, m, n), k);
    lemma_mul_is_distributive_sub(d, e * k * n, f * k * m);
    lemma_neg_times(det3(a, b, d, e, f, h, i, j, l), o);
    lemma_sum3_times(a * det2(f, h, j, l), b * det2(e, h, i, l), d * det2(e, f, i, j), o);
    lemma_det2_mul(f, h, j, l, o);
    lemma_prod3(f, l, o);
    lemma_prod3(j, h, o);
    lemma_mul_is_associative(a, det2(f, h, j, l), o);
    lemma_mul_is_distributive_sub(a, f * l * o, h * j * o);
    lemma_det2_mul(e, h, i, l, o);
    lemma_prod3(e, l, o);
    lemma_prod3(i, h, o);
    lemma_mul_is_associative(b, det2(e, h, i, l), o);
    lemma_mul_is_distributive_sub(b, e * l * o, h * i * o);
    lemma_det2_mul(e, f, i, j, o);
    lemma_prod3(e, j, o);
    lemma_prod3(i, f, o);
    lemma_mul_is_associative(d, det2(e, f, i, j), o);
    lemma_mul_is_distributive_sub(d, e * j * o, f * i * o);
    lemma_sum3_times(e * det2(j, l, n, p), f * det2(i, l, m, p), h * det2(i, j, m, n), d);
    lemma_det2_mul(j, l, n, p, d);
    lemma_prod3(j, p, d);
    lemma_prod3(n, l, d);
    lemma_mul_is_associative(e, det2(j, l, n, p), d);
    lemma_mul_is_distributive_sub(e, d * j * p, d * l * n);
    lemma_prod4(e, d, j, p);
    lemma_prod4(e, d, l, n);
    lemma_det2_mul(i, l, m, p, d);
    lemma_prod3(i, p, d);
    lemma_prod3(m, l, d);
    lemma_mul_is_associative(f, det2(i, l, m, p), d);
    lemma_mul_is_distributive_sub(f, d * i * p, d * l * m);
    lemma_prod4(f, d, i, p);
    lemma_prod4(f, d, l, m);
    lemma_det2_mul(i, j, m, n, d);
    lemma_prod3(i, n, d);
    lemma_prod3(m, j, d);
    lemma_mul_is_associative(h, det2(i, j, m, n), d);
    lemma_mul_is_distributive_sub(h, d * i * n, d * j * m);
    lemma_prod4(h, d, i, n);
    lemma_prod4(h, d, j, m);
    lemma_neg_times(det3(a, b, d, i, j, l, m, n, p), h);
    lemma_sum3_times(a * det2(j, l, n, p), b * det2(i, l, m, p), d * det2(i, j, m, n), h);
    lemma_det2_mul(j, l, n, p, h);
    lemma_prod3(j, p, h);
    lemma_prod3(n, l, h);
    lemma_mul_is_associative(a, det2(j, l, n, p), h);
    lemma_mul_is_distributive_sub(a, h * j * p, h * l * n);
    lemma_det2_mul(i, l, m, p, h);
    lemma_prod3(i, p, h);
    lemma_prod3(m, l, h);
    lemma_mul_is_associative(b, det2(i, l, m, p), h);
    lemma_mul_is_distributive_sub(b, h * i * p, h * l * m);
    lemma_det2_mul(i, j, m, n, h);
    lemma_prod3(i, n, h);
    lemma_prod3(m, j, h);
    lemma_mul_is_associative(d, det2(i, j, m, n), h);
    lemma_mul_is_distributive_sub(d, h * i * n, h * j * m);
    lemma_sum3_times(a * det2(f, h, n, p), b * det2(e, h, m, p), d * det2(e, f, m, n), l);
    lemma_det2_mul(f, h, n, p, l);
    lemma_prod3(f, p, l);
    lemma_prod3(n, h, l);
    lemma_mul_is_associative(a, det2(f, h, n, p), l);
    lemma_mul_is_distributive_sub(a, f * l * p, h * l * n);
    lemma_det2_mul(e, h, m, p, l);
    lemma_prod3(e, p, l);
    lemma_prod3(m, h, l);
    lemma_mul_is_associative(b, det2(e, h, m, p), l);
    lemma_mul_is_distributive_sub(b, e * l * p, h * l * m);
    lemma_det2_mul(e, f, m, n, l);
    lemma_prod3(e, n, l);
    lemma_prod3(m, f, l);
    lemma_mul_is_associative(d, det2(e, f, m, n), l);
    lemma_mul_is_distributive_sub(d, e * l * n, f * l * m);
    lemma_neg_times(det3(a, b, d, e, f, h, i, j, l), p);
    lemma_sum3_times(a * det2(f, h, j, l), b * det2(e, h, i, l), d * det2(e, f, i, j), p);
    lemma_det2_mul(f, h, j, l, p);
    lemma_prod3(f, l, p);
    lemma_prod3(j, h, p);
    lemma_mul_is_associative(a, det2(f, h, j, l), p);
    lemma_mul_is_distributive_sub(a, f * l * p, h * j * p);
    lemma_det2_mul(e, h, i, l, p);
    lemma_prod3(e, l, p);
    lemma_prod3(i, h, p);
    lemma_mul_is_associative(b, det2(e, h, i, l), p);
    lemma_mul_is_distributive_sub(b, e * l * p, h * i * p);
    lemma_det2_mul(e, f, i, j, p);
    lemma_prod3(e, j, p);
    lemma_prod3(i, f, p);
    lemma_mul_is_associative(d, det2(e, f, i, j), p);
    lemma_mul_is_distributive_sub(d, e * j * p, f * i * p);
}

/// Row 3 of the adjugate of a 4x4 matrix dotted with each column of the matrix.
proof fn lemma_adjugate4_row3(a: int, b: int, c: int, d: int, e: int, f: int, g: int, h: int, i: int, j: int, k: int, l: int, m: int, n: int, o: int, p: int)
    ensures
        (-det3(e, f, g, i, j, k, m, n, o)) * a + det3(a, b, c, i, j, k, m, n, o) * e + (-det3(a, b, c, e, f, g, m, n, o)) * i + det3(a, b, c, e, f, g, i, j, k) * m
            == 0,
        (-det3(e, f, g, i, j, k, m, n, o)) * b + det3(a, b, c, i, j, k, m, n, o) * f + (-det3(a, b, c, e, f, g, m, n, o)) * j + det3(a, b, c, e, f, g, i, j, k) * n
            == 0,
        (-det3(e, f, g, i, j, k, m, n, o)) * c + det3(a, b, c, i, j, k, m, n, o) * g + (-det3(a, b, c, e, f, g, m, n, o)) * k + det3(a, b, c, e, f, g, i, j, k) * o
            == 0,
        (-det3(e, f, g, i, j, k, m, n, o)) * d + det3(a, b, c, i, j, k, m, n, o) * h + (-det3(a, b, c, e, f, g, m, n, o)) * l + det3(a, b, c, e, f, g, i, j, k) * p
            == a * (f * k * p) - a * (f * l * o) - a * (g * j * p) + a * (g * l * n) + a * (h * j * o) - a * (h * k * n) - b * (e * k * p) + b * (e * l * o) + b * (g * i * p) - b * (g * l * m) - b * (h * i * o) + b * (h * k * m) + c * (e * j * p) - c * (e * l * n) - c * (f * i * p) + c * (f * l * m) + c * (h * i * n) - c * (h * j * m) - d * (e * j * o) + d * (e * k * n) + d * (f * i * o) - d * (f * k * m) - d * (g * i * n) + d * (g * j * m),
{
    lemma_neg_times(det3(e, f, g, i, j, k, m, n, o), a);
    lemma_sum3_times(e * det2(j, k, n, o), f * det2(i, k, m, o), g * det2(i, j, m, n), a);
    lemma_det2_mul(j, k, n, o, a);
    lemma_prod3(j, o, a);
    lemma_prod3(n, k, a);
    lemma_mul_is_associative(e, det2(j, k, n, o), a);
    lemma_mul_is_distributive_sub(e, a * j * o, a * k * n);
    lemma_prod4(e, a, j, o);
    lemma_prod4(e, a, k, n);
    lemma_det2_mul(i, k, m, o, a);
    lemma_prod3(i, o, a);
    lemma_prod3(m, k, a);
    lemma_mul_is_associative(f, det2(i, k, m, o), a);
    lemma_mul_is_distributive_sub(f, a * i * o, a * k * m);
    lemma_prod4(f, a, i, o);
    lemma_prod4(f, a, k, m);
    lemma_det2_mul(i, j, m, n, a);
    lemma_prod3(i, n, a);
    lemma_prod3(m, j, a);
    lemma_mul_is_associative(g, det2(i, j, m, n), a);
    lemma_mul_is_distributive_sub(g, a * i * n, a * j * m);
    lemma_prod4(g, a, i, n);
    lemma_prod4(g, a, j, m);
    lemma_sum3_times(a * det2(j, k, n, o), b * det2(i, k, m, o), c * det2(i, j, m, n), e);
    lemma_det2_mul(j, k, n, o, e);
    lemma_prod3(j, o, e);
    lemma_prod3(n, k, e);
    lemma_mul_is_associative(a, det2(j, k, n, o), e);
    lemma_mul_is_distributive_sub(a, e * j * o, e * k * n);
    lemma_det2_mul(i, k, m, o, e);
    lemma_prod3(i, o, e);
    lemma_prod3(m, k, e);
    lemma_mul_is_associative(b, det2(i, k, m, o), e);
    lemma_mul_is_distributive_sub(b, e * i * o, e * k * m);
    lemma_det2_mul(i, j, m, n, e);
    lemma_prod3(i, n, e);
    lemma_prod3(m, j, e);
    lemma_mul_is_associative(c, det2(i, j, m, n), e);
    lemma_mul_is_distributive_sub(c, e * i * n, e * j * m);
    lemma_neg_times(det3(a, b, c, e, f, g, m, n, o), i);
    lemma_sum3_times(a * det2(f, g, n, o), b * det2(e, g, m, o), c * det2(e, f, m, n), i);
    lemma_det2_mul(f, g, n, o, i);
    lemma_prod3(f, o, i);
    lemma_prod3(n, g, i);
    lemma_mul_is_associative(a, det2(f, g, n, o), i);
    lemma_mul_is_distributive_sub(a, f * i * o, g * i * n);
    lemma_det2_mul(e, g, m, o, i);
    lemma_prod3(e, o, i);
    lemma_prod3(m, g, i);
    lemma_mul_is_associative(b, det2(e, g, m, o), i);
    lemma_mul_is_distributive_sub(b, e * i * o, g * i * m);
    lemma_det2_mul(e, f, m, n, i);
    lemma_prod3(e, n, i);
    lemma_prod3(m, f, i);
    lemma_mul_is_associative(c, det2(e, f, m, n), i);
    lemma_mul_is_distributive_sub(c, e * i * n, f * i * m);
    lemma_sum3_times(a * det2(f, g, j, k), b * det2(e, g, i, k), c * det2(e, f, i, j), m);
    lemma_det2_mul(f, g, j, k, m);
    lemma_prod3(f, k, m);
    lemma_prod3(j, g, m);
    lemma_mul_is_associative(a, det2(f, g, j, k), m);
    lemma_mul_is_distributive_sub(a, f * k * m, g * j * m);
    lemma_det2_mul(e, g, i, k, m);
    lemma_prod3(e, k, m);
    lemma_prod3(i, g, m);
    lemma_mul_is_associative(b, det2(e, g, i, k), m);
    lemma_mul_is_distributive_sub(b, e * k * m, g * i * m);
    lemma_det2_mul(e, f, i, j, m);
    lemma_prod3(e, j, m);
    lemma_prod3(i, f, m);
    lemma_mul_is_associative(c, det2(e, f, i, j), m);
    lemma_mul_is_distributive_sub(c, e * j * m, f * i * m);
    lemma_neg_times(det3(e, f, g, i, j, k, m, n, o), b);
    lemma_sum3_times(e * det2(j, k, n, o), f * det2(i, k, m, o), g * det2(i, j, m, n), b);
    lemma_det2_mul(j, k, n, o, b);
    lemma_prod3(j, o, b);
    lemma_prod3(n, k, b);
    lemma_mul_is_associative(e, det2(j, k, n, o), b);
    lemma_mul_is_distributive_sub(e, b * j * o, b * k * n);
    lemma_prod4(e, b, j, o);
    lemma_prod4(e, b, k, n);
    lemma_det2_mul(i, k, m, o, b);
    lemma_prod3(i, o, b);
    lemma_prod3(m, k, b);
    lemma_mul_is_associative(f, det2(i, k, m, o), b);
    lemma_mul_is_distributive_sub(f, b * i * o, b * k * m);
    lemma_prod4(f, b, i, o);
    lemma_prod4(f, b, k, m);
    lemma_det2_mul(i, j, m, n, b);
    lemma_prod3(i, n, b);
    lemma_prod3(m, j, b);
    lemma_mul_is_associative(g, det2(i, j, m, n), b);
    lemma_mul_is_distributive_sub(g, b * i * n, b * j * m);
    lemma_prod4(g, b, i, n);
    lemma_prod4(g, b, j, m);
    lemma_sum3_times(a * det2(j, k, n, o), b * det2(i, k, m, o), c * det2(i, j, m, n), f);
    lemma_det2_mul(j, k, n, o, f);
    lemma_prod3(j, o, f);
    lemma_prod3(n, k, f);
    lemma_mul_is_associative(a, det2(j, k, n, o), f);
    lemma_mul_is_distributive_sub(a, f * j * o, f * k * n);
    lemma_det2_mul(i, k, m, o, f);
    lemma_prod3(i, o, f);
    lemma_prod3(m, k, f);
    lemma_mul_is_associative(b, det2(i, k, m, o), f);
    lemma_mul_is_distributive_sub(b, f * i * o, f * k * m);
    lemma_det2_mul(i, j, m, n, f);
    lemma_prod3(i, n, f);
    lemma_prod3(m, j, f);
    lemma_mul_is_associative(c, det2(i, j, m, n), f);
    lemma_mul_is_distributive_sub(c, f * i * n, f * j * m);
    lemma_neg_times(det3(a, b, c, e, f, g, m, n, o), j);
    lemma_sum3_times(a * det2(f, g, n, o), b * det2(e, g, m, o), c * det2(e, f, m, n), j);
    lemma_det2_mul(f, g, n, o, j);
    lemma_prod3(f, o, j);
    lemma_prod3(n, g, j);
    lemma_mul_is_associative(a, det2(f, g, n, o), j);
    lemma_mul_is_distributive_sub(a, f * j * o, g * j * n);
    lemma_det2_mul(e, g, m, o, j);
    lemma_prod3(e, o, j);
    lemma_prod3(m, g, j);
    lemma_mul_is_associative(b, det2(e, g, m, o), j);
    lemma_mul_is_distributive_sub(b, e * j * o, g * j * m);
    lemma_det2_mul(e, f, m, n, j);
    lemma_prod3(e, n, j);
    lemma_prod3(m, f, j);
    lemma_mul_is_associative(c, det2(e, f, m, n), j);
    lemma_mul_is_distributive_sub(c, e * j * n, f * j * m);
    lemma_sum3_times(a * det2(f, g, j, k), b * det2(e, g, i, k), c * det2(e, f, i, j), n);
    lemma_det2_mul(f, g, j, k, n);
    lemma_prod3(f, k, n);
    lemma_prod3(j, g, n);
    lemma_mul_is_associative(a, det2(f, g, j, k), n);
    lemma_mul_is_distributive_sub(a, f * k * n, g * j * n);
    lemma_det2_mul(e, g, i, k, n);
    lemma_prod3(e, k, n);
    lemma_prod3(i, g, n);
    lemma_mul_is_associative(b, det2(e, g, i, k), n);
    lemma_mul_is_distributive_sub(b, e * k * n, g * i * n);
    lemma_det2_mul(e, f, i, j, n);
    lemma_prod3(e, j, n);
    lemma_prod3(i, f, n);
    lemma_mul_is_associative(c, det2(e, f, i, j), n);
    lemma_mul_is_distributive_sub(c, e * j * n, f * i * n);
    lemma_neg_times(det3(e, f, g, i, j, k, m, n, o), c);
    lemma_sum3_times(e * det2(j, k, n, o), f * det2(i, k, m, o), g * det2(i, j, m, n), c);
    lemma_det2_mul(j, k, n, o, c);
    lemma_prod3(j, o, c);
    lemma_prod3(n, k, c);
    lemma_mul_is_associative(e, det2(j, k, n, o), c);
    lemma_mul_is_distributive_sub(e, c * j * o, c * k * n);
    lemma_prod4(e, c, j, o);
    lemma_prod4(e, c, k, n);
    lemma_det2_mul(i, k, m, o, c);
    lemma_prod3(i, o, c);
    lemma_prod3(m, k, c);
    lemma_mul_is_associative(f, det2(i, k, m, o), c);
    lemma_mul_is_distributive_sub(f, c * i * o, c * k * m);
    lemma_prod4(f, c, i, o);
    lemma_prod4(f, c, k, m);
    lemma_det2_mul(i, j, m, n, c);
    lemma_prod3(i, n, c);
    lemma_prod3(m, j, c);
    lemma_mul_is_associative(g, det2(i, j, m, n), c);
    lemma_mul_is_distributive_sub(g, c * i * n, c * j * m);
    lemma_prod4(g, c, i, n);
    lemma_prod4(g, c, j, m);
    lemma_sum3_times(a * det2(j, k, n, o), b * det2(i, k, m, o), c * det2(i, j, m, n), g);
    lemma_det2_mul(j, k, n, o, g);
    lemma_prod3(j, o, g);
    lemma_prod3(n, k, g);
    lemma_mul_is_associative(a, det2(j, k, n, o), g);
    lemma_mul_is_distributive_sub(a, g * j * o, g * k * n);
    lemma_det2_mul(i, k, m, o, g);
    lemma_prod3(i, o, g);
    lemma_prod3(m, k, g);
    lemma_mul_is_associative(b, det2(i, k, m, o), g);
    lemma_mul_is_distributive_sub(b, g * i * o, g * k * m);
    lemma_det2_mul(i, j, m, n, g);
    lemma_prod3(i, n, g);
    lemma_prod3(m, j, g);
    lemma_mul_is_associative(c, det2(i, j, m, n), g);
    lemma_mul_is_distributive_sub(c, g * i * n, g * j * m);
    lemma_neg_times(det3(a, b, c, e, f, g, m, n, o), k);
    lemma_sum3_times(a * det2(f, g, n, o), b * det2(e, g, m, o), c * det2(e, f, m, n), k);
    lemma_det2_mul(f, g, n, o, k);
    lemma_prod3(f, o, k);
    lemma_prod3(n, g, k);
    lemma_mul_is_associative(a, det2(f, g, n, o), k);
    lemma_mul_is_distributive_sub(a, f * k * o, g * k * n);
    lemma_det2_mul(e, g, m, o, k);
    lemma_prod3(e, o, k);
    lemma_prod3(m, g, k);
    lemma_mul_is_associative(b, det2(e, g, m, o), k);
    lemma_mul_is_distributive_sub(b, e * k * o, g * k * m);
    lemma_det2_mul(e, f, m, n, k);
    lemma_prod3(e, n, k);
    lemma_prod3(m, f, k);
    lemma_mul_is_associative(c, det2(e, f, m, n), k);
    lemma_mul_is_distributive_sub(c, e * k * n, f * k * m);
    lemma_sum3_times(a * det2(f, g, j, k), b * det2(e, g, i, k), c * det2(e, f, i, j), o);
    lemma_det2_mul(f, g, j, k, o);
    lemma_prod3(f, k, o);
    lemma_prod3(j, g, o);
    lemma_mul_is_associative(a, det2(f, g, j, k), o);
    lemma_mul_is_distributive_sub(a, f * k * o, g * j * o);
    lemma_det2_mul(e, g, i, k, o);
    lemma_prod3(e, k, o);
    lemma_prod3(i, g, o);
    lemma_mul_is_associative(b, det2(e, g, i, k), o);
    lemma_mul_is_distributive_sub(b, e * k * o, g * i * o);
    lemma_det2_mul(e, f, i, j, o);
    lemma_prod3(e, j, o);
    lemma_prod3(i, f, o);
    lemma_mul_is_associative(c, det2(e, f, i, j), o);
    lemma_mul_is_distributive_sub(c, e * j * o, f * i * o);
    lemma_neg_times(det3(e, f, g, i, j, k, m, n, o), d);
    lemma_sum3_times(e * det2(j, k, n, o), f * det2(i, k, m, o), g * det2(i, j, m, n), d);
    lemma_det2_mul(j, k, n, o, d);
    lemma_prod3(j, o, d);
    lemma_prod3(n, k, d);
    lemma_mul_is_associative(e, det2(j, k, n, o), d);
    lemma_mul_is_distributive_sub(e, d * j * o, d * k * n);
    lemma_prod4(e, d, j, o);
    lemma_prod4(e, d, k, n);
    lemma_det2_mul(i, k, m, o, d);
    lemma_prod3(i, o, d);
    lemma_prod3(m, k, d);
    lemma_mul_is_associative(f, det2(i, k, m, o), d);
    lemma_mul_is_distributive_sub(f, d * i * o, d * k * m);
    lemma_prod4(f, d, i, o);
    lemma_prod4(f, d, k, m);
    lemma_det2_mul(i, j, m, n, d);
    lemma_prod3(i, n, d);
    lemma_prod3(m, j, d);
    lemma_mul_is_associative(g, det2(i, j, m, n), d);
    lemma_mul_is_distributive_sub(g, d * i * n, d * j * m);
    lemma_prod4(g, d, i, n);
    lemma_prod4(g, d, j, m);
    lemma_sum3_times(a * det2(j, k, n, o), b * det2(i, k, m, o), c * det2(i, j, m, n), h);
    lemma_det2_mul(j, k, n, o, h);
    lemma_prod3(j, o, h);
    lemma_prod3(n, k, h);
    lemma_mul_is_associative(a, det2(j, k, n, o), h);
    lemma_mul_is_distributive_sub(a, h * j * o, h * k * n);
    lemma_det2_mul(i, k, m, o, h);
    lemma_prod3(i, o, h);
    lemma_prod3(m, k, h);
    lemma_mul_is_associative(b, det2(i, k, m, o), h);
    lemma_mul_is_distributive_sub(b, h * i * o, h * k * m);
    lemma_det2_mul(i, j, m, n, h);
    lemma_prod3(i, n, h);
    lemma_prod3(m, j, h);
    lemma_mul_is_associative(c, det2(i, j, m, n), h);
    lemma_mul_is_distributive_sub(c, h * i * n, h * j * m);
    lemma_neg_times(det3(a, b, c, e, f, g, m, n, o), l);
    lemma_sum3_times(a * det2(f, g, n, o), b * det2(e, g, m, o), c * det2(e, f, m, n), l);
    lemma_det2_mul(f, g, n, o, l);
    lemma_prod3(f, o, l);
    lemma_prod3(n, g, l);
    lemma_mul_is_associative(a, det2(f, g, n, o), l);
    lemma_mul_is_distributive_sub(a, f * l * o, g * l * n);
    lemma_det2_mul(e, g, m, o, l);
    lemma_prod3(e, o, l);
    lemma_prod3(m, g, l);
    lemma_mul_is_associative(b, det2(e, g, m, o), l);
    lemma_mul_is_distributive_sub(b, e * l * o, g * l * m);
    lemma_det2_mul(e, f, m, n, l);
    lemma_prod3(e, n, l);
    lemma_prod3(m, f, l);
    lemma_mul_is_associative(c, det2(e, f, m, n), l);
    lemma_mul_is_distributive_sub(c, e * l * n, f * l * m);
    lemma_sum3_times(a * det2(f, g, j, k), b * det2(e, g, i, k), c * det2(e, f, i, j), p);
    lemma_det2_mul(f, g, j, k, p);
    lemma_prod3(f, k, p);
    lemma_prod3(j, g, p);
    lemma_mul_is_associative(a, det2(f, g, j, k), p);
    lemma_mul_is_distributive_sub(a, f * k * p, g * j * p);
    lemma_det2_mul(e, g, i, k, p);
    lemma_prod3(e, k, p);
    lemma_prod3(i, g, p);
    lemma_mul_is_associative(b, det2(e, g, i, k), p);
    lemma_mul_is_distributive_sub(b, e * k * p, g * i * p);
    lemma_det2_mul(e, f, i, j, p);
    lemma_prod3(e, j, p);
    lemma_prod3(i, f, p);
    lemma_mul_is_associative(c, det2(e, f, i, j), p);
    lemma_mul_is_distributive_sub(c, e * j * p, f * i * p);
}

/// The adjugate of a 4x4 matrix times the matrix is its determinant times the
/// identity; this is why the adjugate divided by the determinant is the inverse.
#[verifier::rlimit(50)]
pub proof fn law_adjugate4(x: Seq<Seq<int>>)
    requires
        x.len() == 4,
        forall|r: int| 0 <= r < 4 ==> (#[trigger] x[r]).len() == 4,
    ensures
        mat_mul(mcof4(x), x, 4) == mscale(identity_seq(4, 4), mdet4(x)),
{
    let adj = mcof4(x);
    let lhs = mat_mul(adj, x, 4);
    let rhs = mscale(identity_seq(4, 4), mdet4(x));
    lemma_det4_expanded(x[0][0], x[0][1], x[0][2], x[0][3], x[1][0], x[1][1], x[1][2], x[1][3], x[2][0], x[2][1], x[2][2], x[2][3], x[3][0], x[3][1], x[3][2], x[3][3]);
    lemma_adjugate4_row0(x[0][0], x[0][1], x[0][2], x[0][3], x[1][0], x[1][1], x[1][2], x[1][3], x[2][0], x[2][1], x[2][2], x[2][3], x[3][0], x[3][1], x[3][2], x[3][3]);
    lemma_adjugate4_row1(x[0][0], x[0][1], x[0][2], x[0][3], x[1][0], x[1][1], x[1][2], x[1][3], x[2][0], x[2][1], x[2][2], x[2][3], x[3][0], x[3][1], x[3][2], x[3][3]);
    lemma_adjugate4_row2(x[0][0], x[0][1], x[0][2], x[0][3], x[1][0], x[1][1], x[1][2], x[1][3], x[2][0], x[2][1], x[2][2], x[2][3], x[3][0], x[3][1], x[3][2], x[3][3]);
    lemma_adjugate4_row3(x[0][0], x[0][1], x[0][2], x[0][3], x[1][0], x[1][1], x[1][2], x[1][3], x[2][0], x[2][1], x[2][2], x[2][3], x[3][0], x[3][1], x[3][2], x[3][3]);
    reveal_with_fuel(dot_upto, 5);
    assert(column(x, 0) =~= seq![x[0][0], x[1][0], x[2][0], x[3][0]]);
    assert(column(x, 1) =~= seq![x[0][1], x[1][1], x[2][1], x[3][1]]);
    assert(column(x, 2) =~= seq![x[0][2], x[1][2], x[2][2], x[3][2]]);
    assert(column(x, 3) =~= seq![x[0][3], x[1][3], x[2][3], x[3][3]]);
    let det = mdet4(x);
    lemma_mul_basics(det);
    assert(lhs[0][0] == rhs[0][0]);
    assert(lhs[0][1] == rhs[0][1]);
    assert(lhs[0][2] == rhs[0][2]);
    assert(lhs[0][3] == rhs[0][3]);
    assert(lhs[0] =~= rhs[0]);
    assert(lhs[1][0] == rhs[1][0]);
    assert(lhs[1][1] == rhs[1][1]);
    assert(lhs[1][2] == rhs[1][2]);
    assert(lhs[1][3] == rhs[1][3]);
    assert(lhs[1] =~= rhs[1]);
    assert(lhs[2][0] == rhs[2][0]);
    assert(lhs[2][1] == rhs[2][1]);
    assert(lhs[2][2] == rhs[2][2]);
    assert(lhs[2][3] == rhs[2][3]);
    assert(lhs[2] =~= rhs[2]);
    assert(lhs[3][0] == rhs[3][0]);
    assert(lhs[3][1] == rhs[3][1]);
    assert(lhs[3][2] == rhs[3][2]);
    assert(lhs[3][3] == rhs[3][3]);
    assert(lhs[3] =~= rhs[3]);
    assert(lhs =~= rhs);
}


/// The determinant of a 4x4 matrix equals that of its transpose.
pub proof fn law_det4_transpose(x: Seq<Seq<int>>)
    requires
        x.len() == 4,
        forall|r: int| 0 <= r < 4 ==> (#[trigger] x[r]).len() == 4,
    ensures
        mdet4(transpose_seq(x, 4)) == mdet4(x),
{
    let t = transpose_seq(x, 4);
    lemma_det4_expanded(x[0][0], x[0][1], x[0][2], x[0][3], x[1][0], x[1][1], x[1][2], x[1][3], x[2][0], x[2][1], x[2][2], x[2][3], x[3][0], x[3][1], x[3][2], x[3][3]);
    lemma_det4_expanded(t[0][0], t[0][1], t[0][2], t[0][3], t[1][0], t[1][1], t[1][2], t[1][3], t[2][0], t[2][1], t[2][2], t[2][3], t[3][0], t[3][1], t[3][2], t[3][3]);
    assert(t[0][0] == x[0][0]);
    assert(t[0][1] == x[1][0]);
    assert(t[0][2] == x[2][0]);
    assert(t[0][3] == x[3][0]);
    assert(t[1][0] == x[0][1]);
    assert(t[1][1] == x[1][1]);
    assert(t[1][2] == x[2][1]);
    assert(t[1][3] == x[3][1]);
    assert(t[2][0] == x[0][2]);
    assert(t[2][1] == x[1][2]);
    assert(t[2][2] == x[2][2]);
    assert(t[2][3] == x[3][2]);
    assert(t[3][0] == x[0][3]);
    assert(t[3][1] == x[1][3]);
    assert(t[3][2] == x[2][3]);
    assert(t[3][3] == x[3][3]);
    lemma_prod3(x[1][1], x[3][2], x[2][3]);
    lemma_prod4(x[0][0], x[1][1], x[2][3], x[3][2]);
    lemma_prod3(x[1][1], x[2][3], x[3][2]);
    lemma_prod4(x[0][0], x[1][1], x[2][3], x[3][2]);
    lemma_prod3(x[2][1], x[1][2], x[3][3]);
    lemma_prod4(x[0][0], x[1][2], x[2][1], x[3][3]);
    lemma_prod3(x[1][2], x[2][1], x[3][3]);
    lemma_prod4(x[0][0], x[1][2], x[2][1], x[3][3]);
    lemma_prod3(x[2][1], x[3][2], x[1][3]);
    lemma_prod4(x[0][0], x[1][3], x[2][1], x[3][2]);
    lemma_prod3(x[1][3], x[2][1], x[3][2]);
    lemma_prod4(x[0][0], x[1][3], x[2][1], x[3][2]);
    lemma_prod3(x[3][1], x[1][2], x[2][3]);
    lemma_prod4(x[0][0], x[1][2], x[2][3], x[3][1]);
    lemma_prod3(x[1][2], x[2][3], x[3][1]);
    lemma_prod4(x[0][0], x[1][2], x[2][3], x[3][1]);
    lemma_prod3(x[3][1], x[2][2], x[1][3]);
    lemma_prod4(x[0][0], x[1][3], x[2][2], x[3][1]);
    lemma_prod3(x[1][3], x[2][2], x[3][1]);
    lemma_prod4(x[0][0], x[1][3], x[2][2], x[3][1]);
    lemma_prod3(x[0][1], x[2][2], x[3][3]);
    lemma_prod4(x[1][0], x[0][1], x[2][2], x[3][3]);
    lemma_prod3(x[1][0], x[2][2], x[3][3]);
    lemma_prod4(x[0][1], x[1][0], x[2][2], x[3][3]);
    lemma_prod3(x[0][1], x[3][2], x[2][3]);
    lemma_prod4(x[1][0], x[0][1], x[2][3], x[3][2]);
    lemma_prod3(x[1][0], x[2][3], x[3][2]);
    lemma_prod4(x[0][1], x[1][0], x[2][3], x[3][2]);
    lemma_prod3(x[2][1], x[0][2], x[3][3]);
    lemma_prod4(x[1][0], x[0][2], x[2][1], x[3][3]);
    lemma_prod3(x[1][0], x[2][1], x[3][3]);
    lemma_prod4(x[0][2], x[1][0], x[2][1], x[3][3]);
    lemma_prod3(x[2][1], x[3][2], x[0][3]);
    lemma_prod4(x[1][0], x[0][3], x[2][1], x[3][2]);
    lemma_prod3(x[1][0], x[2][1], x[3][2]);
    lemma_prod4(x[0][3], x[1][0], x[2][1], x[3][2]);
    lemma_prod3(x[3][1], x[0][2], x[2][3]);
    lemma_prod4(x[1][0], x[0][2], x[2][3], x[3][1]);
    lemma_prod3(x[1][0], x[2][3], x[3][1]);
    lemma_prod4(x[0][2], x[1][0], x[2][3], x[3][1]);
    lemma_prod3(x[3][1], x[2][2], x[0][3]);
    lemma_prod4(x[1][0], x[0][3], x[2][2], x[3][1]);
    lemma_prod3(x[1][0], x[2][2], x[3][1]);
    lemma_prod4(x[0][3], x[1][0], x[2][2], x[3][1]);
    lemma_prod3(x[0][1], x[1][2], x[3][3]);
    lemma_prod4(x[2][0], x[0][1], x[1][2], x[3][3]);
    lemma_prod3(x[1][2], x[2][0], x[3][3]);
    lemma_prod4(x[0][1], x[1][2], x[2][0], x[3][3]);
    lemma_prod3(x[0][1], x[3][2], x[1][3]);
    lemma_prod4(x[2][0], x[0][1], x[1][3], x[3][2]);
    lemma_prod3(x[1][3], x[2][0], x[3][2]);
    lemma_prod4(x[0][1], x[1][3], x[2][0], x[3][2]);
    lemma_prod3(x[1][1], x[0][2], x[3][3]);
    lemma_prod4(x[2][0], x[0][2], x[1][1], x[3][3]);
    lemma_prod3(x[1][1], x[2][0], x[3][3]);
    lemma_prod4(x[0][2], x[1][1], x[2][0], x[3][3]);
    lemma_prod3(x[1][1], x[3][2], x[0][3]);
    lemma_prod4(x[2][0], x[0][3], x[1][1], x[3][2]);
    lemma_prod3(x[1][1], x[2][0], x[3][2]);
    lemma_prod4(x[0][3], x[1][1], x[2][0], x[3][2]);
    lemma_prod3(x[3][1], x[0][2], x[1][3]);
    lemma_prod4(x[2][0], x[0][2], x[1][3], x[3][1]);
    lemma_prod3(x[1][3], x[2][0], x[3][1]);
    lemma_prod4(x[0][2], x[1][3], x[2][0], x[3][1]);
    lemma_prod3(x[3][1], x[1][2], x[0][3]);
    lemma_prod4(x[2][0], x[0][3], x[1][2], x[3][1]);
    lemma_prod3(x[1][2], x[2][0], x[3][1]);
    lemma_prod4(x[0][3], x[1][2], x[2][0], x[3][1]);
    lemma_prod3(x[0][1], x[1][2], x[2][3]);
    lemma_prod4(x[3][0], x[0][1], x[1][2], x[2][3]);
    lemma_prod3(x[1][2], x[2][3], x[3][0]);
    lemma_prod4(x[0][1], x[1][2], x[2][3], x[3][0]);
    lemma_prod3(x[0][1], x[2][2], x[1][3]);
    lemma_prod4(x[3][0], x[0][1], x[1][3], x[2][2]);
    lemma_prod3(x[1][3], x[2][2], x[3][0]);
    lemma_prod4(x[0][1], x[1][3], x[2][2], x[3][0]);
    lemma_prod3(x[1][1], x[0][2], x[2][3]);
    lemma_prod4(x[3][0], x[0][2], x[1][1], x[2][3]);
    lemma_prod3(x[1][1], x[2][3], x[3][0]);
    lemma_prod4(x[0][2], x[1][1], x[2][3], x[3][0]);
    lemma_prod3(x[1][1], x[2][2], x[0][3]);
    lemma_prod4(x[3][0], x[0][3], x[1][1], x[2][2]);
    lemma_prod3(x[1][1], x[2][2], x[3][0]);
    lemma_prod4(x[0][3], x[1][1], x[2][2], x[3][0]);
    lemma_prod3(x[2][1], x[0][2], x[1][3]);
    lemma_prod4(x[3][0], x[0][2], x[1][3], x[2][1]);
    lemma_prod3(x[1][3], x[2][1], x[3][0]);
    lemma_prod4(x[0][2], x[1][3], x[2][1], x[3][0]);
    lemma_prod3(x[2][1], x[1][2], x[0][3]);
    lemma_prod4(x[3][0], x[0][3], x[1][2], x[2][1]);
    lemma_prod3(x[1][2], x[2][1], x[3][0]);
    lemma_prod4(x[0][3], x[1][2], x[2][1], x[3][0]);
}


/// `x * (-p) == -(x * p)`
proof fn lemma_times_neg(x: int, p: int)
    by (nonlinear_arith)
    ensures
        x * (-p) == -(x * p),
{
}

/// Each row of a 3x3 matrix dotted with each column of its adjugate gives the
/// determinant on the diagonal and zero elsewhere.
proof fn lemma_adjugate3_right_poly(a: int, b: int, c: int, d: int, e: int, f: int, g: int, h: int, i: int)
    ensures
        a * det2(e, f, h, i) + b * (-det2(d, f, g, i)) + c * det2(d, e, g, h) == det3(a, b, c, d, e, f, g, h, i),
        a * (-det2(b, c, h, i)) + b * det2(a, c, g, i) + c * (-det2(a, b, g, h)) == 0,
        a * det2(b, c, e, f) + b * (-det2(a, c, d, f)) + c * det2(a, b, d, e) == 0,
        d * det2(e, f, h, i) + e * (-det2(d, f, g, i)) + f * det2(d, e, g, h) == 0,
        d * (-det2(b, c, h, i)) + e * det2(a, c, g, i) + f * (-det2(a, b, g, h)) == det3(a, b, c, d, e, f, g, h, i),
        d * det2(b, c, e, f) + e * (-det2(a, c, d, f)) + f * det2(a, b, d, e) == 0,
        g * det2(e, f, h, i) + h * (-det2(d, f, g, i)) + i * det2(d, e, g, h) == 0,
        g * (-det2(b, c, h, i)) + h * det2(a, c, g, i) + i * (-det2(a, b, g, h)) == 0,
        g * det2(b, c, e, f) + h * (-det2(a, c, d, f)) + i * det2(a, b, d, e) == det3(a, b, c, d, e, f, g, h, i),
{
    lemma_mul_det2(a, e, f, h, i);
    lemma_prod3(a, e, i);
    lemma_prod3(a, h, f);
    lemma_mul_det2(b, d, f, g, i);
    lemma_prod3(b, d, i);
    lemma_prod3(b, g, f);
    lemma_mul_det2(c, d, e, g, h);
    lemma_prod3(c, d, h);
    lemma_prod3(c, g, e);
    lemma_times_neg(b, det2(d, f, g, i));
    lemma_times_neg(a, det2(b, c, h, i));
    lemma_mul_det2(a, b, c, h, i);
    lemma_prod3(a, b, i);
    lemma_prod3(a, h, c);
    lemma_mul_det2(b, a, c, g, i);
    lemma_prod3(b, a, i);
    lemma_prod3(b, g, c);
    lemma_times_neg(c, det2(a, b, g, h));
    lemma_mul_det2(c, a, b, g, h);
    lemma_prod3(c, a, h);
    lemma_prod3(c, g, b);
    lemma_mul_det2(a, b, c, e, f);
    lemma_prod3(a, b, f);
    lemma_prod3(a, e, c);
    lemma_times_neg(b, det2(a, c, d, f));
    lemma_mul_det2(b, a, c, d, f);
    lemma_prod3(b, a, f);
    lemma_prod3(b, d, c);
    lemma_mul_det2(c, a, b, d, e);
    lemma_prod3(c, a, e);
    lemma_prod3(c, d, b);
    lemma_mul_det2(d, e, f, h, i);
    lemma_prod3(d, e, i);
    lemma_prod3(d, h, f);
    lemma_times_neg(e, det2(d, f, g, i));
    lemma_mul_det2(e, d, f, g, i);
    lemma_prod3(e, d, i);
    lemma_prod3(e, g, f);
    lemma_mul_det2(f, d, e, g, h);
    lemma_prod3(f, d, h);
    lemma_prod3(f, g, e);
    lemma_times_neg(d, det2(b, c, h, i));
    lemma_mul_det2(d, b, c, h, i);
    lemma_prod3(d, b, i);
    lemma_prod3(d, h, c);
    lemma_mul_det2(e, a, c, g, i);
    lemma_prod3(e, a, i);
    lemma_prod3(e, g, c);
    lemma_times_neg(f, det2(a, b, g, h));
    lemma_mul_det2(f, a, b, g, h);
    lemma_prod3(f, a, h);
    lemma_prod3(f, g, b);
    lemma_mul_det2(d, b, c, e, f);
    lemma_prod3(d, b, f);
    lemma_prod3(d, e, c);
    lemma_times_neg(e, det2(a, c, d, f));
    lemma_mul_det2(e, a, c, d, f);
    lemma_prod3(e, a, f);
    lemma_prod3(e, d, c);
    lemma_mul_det2(f, a, b, d, e);
    lemma_prod3(f, a, e);
    lemma_prod3(f, d, b);
    lemma_mul_det2(g, e, f, h, i);
    lemma_prod3(g, e, i);
    lemma_prod3(g, h, f);
    lemma_times_neg(h, det2(d, f, g, i));
    lemma_mul_det2(h, d, f, g, i);
    lemma_prod3(h, d, i);
    lemma_prod3(h, g, f);
    lemma_mul_det2(i, d, e, g, h);
    lemma_prod3(i, d, h);
    lemma_prod3(i, g, e);
    lemma_times_neg(g, det2(b, c, h, i));
    lemma_mul_det2(g, b, c, h, i);
    lemma_prod3(g, b, i);
    lemma_prod3(g, h, c);
    lemma_mul_det2(h, a, c, g, i);
    lemma_prod3(h, a, i);
    lemma_prod3(h, g, c);
    lemma_times_neg(i, det2(a, b, g, h));
    lemma_mul_det2(i, a, b, g, h);
    lemma_prod3(i, a, h);
    lemma_prod3(i, g, b);
    lemma_mul_det2(g, b, c, e, f);
    lemma_prod3(g, b, f);
    lemma_prod3(g, e, c);
    lemma_times_neg(h, det2(a, c, d, f));
    lemma_mul_det2(h, a, c, d, f);
    lemma_prod3(h, a, f);
    lemma_prod3(h, d, c);
    lemma_mul_det2(i, a, b, d, e);
    lemma_prod3(i, a, e);
    lemma_prod3(i, d, b);
}

/// The matrix times its adjugate is also its determinant times the identity, for
/// a 3x3 matrix: the adjugate is a two-sided inverse up to the determinant.
pub proof fn law_adjugate3_right(m: Seq<Seq<int>>)
    requires
        m.len() == 3,
        forall|i: int| 0 <= i < 3 ==> (#[trigger] m[i]).len() == 3,
    ensures
        mat_mul(m, mcof3(m), 3) == mscale(identity_seq(3, 3), mdet3(m)),
{
    let adj = mcof3(m);
    let p = mat_mul(m, adj, 3);
    let q = mscale(identity_seq(3, 3), mdet3(m));
    lemma_adjugate3_right_poly(m[0][0], m[0][1], m[0][2], m[1][0], m[1][1], m[1][2], m[2][0], m[2][1], m[2][2]);
    reveal_with_fuel(dot_upto, 4);
    assert(column(adj, 0) =~= seq![adj[0][0], adj[1][0], adj[2][0]]);
    assert(column(adj, 1) =~= seq![adj[0][1], adj[1][1], adj[2][1]]);
    assert(column(adj, 2) =~= seq![adj[0][2], adj[1][2], adj[2][2]]);
    let det = mdet3(m);
    lemma_mul_basics(det);
    assert(p[0][0] == q[0][0]);
    assert(p[0][1] == q[0][1]);
    assert(p[0][2] == q[0][2]);
    assert(p[0] =~= q[0]);
    assert(p[1][0] == q[1][0]);
    assert(p[1][1] == q[1][1]);
    assert(p[1][2] == q[1][2]);
    assert(p[1] =~= q[1]);
    assert(p[2][0] == q[2][0]);
    assert(p[2][1] == q[2][1]);
    assert(p[2][2] == q[2][2]);
    assert(p[2] =~= q[2]);
    assert(p =~= q);
}

/// Row 0 of a 4x4 matrix dotted with each column of its adjugate.
proof fn lemma_adjugate4_right_row0(a: int, b: int, c: int, d: int, e: int, f: int, g: int, h: int, i: int, j: int, k: int, l: int, m: int, n: int, o: int, p: int)
    ensures
        a * det3(f, g, h, j, k, l, n, o, p) + b * (-det3(e, g, h, i, k, l, m, o, p)) + c * det3(e, f, h, i, j, l, m, n, p) + d * (-det3(e, f, g, i, j, k, m, n, o))
            == a * (f * k * p) - a * (f * l * o) - a * (g * j * p) + a * (g * l * n) + a * (h * j * o) - a * (h * k * n) - b * (e * k * p) + b * (e * l * o) + b * (g * i * p) - b * (g * l * m) - b * (h * i * o) + b * (h * k * m) + c * (e * j * p) - c * (e * l * n) - c * (f * i * p) + c * (f * l * m) + c * (h * i * n) - c * (h * j * m) - d * (e * j * o) + d * (e * k * n) + d * (f * i * o) - d * (f * k * m) - d * (g * i * n) + d * (g * j * m),
        a * (-det3(b, c, d, j, k, l, n, o, p)) + b * det3(a, c, d, i, k, l, m, o, p) + c * (-det3(a, b, d, i, j, l, m, n, p)) + d * det3(a, b, c, i, j, k, m, n, o)
            == 0,
        a * det3(b, c, d, f, g, h, n, o, p) + b * (-det3(a, c, d, e, g, h, m, o, p)) + c * det3(a, b, d, e, f, h, m, n, p) + d * (-det3(a, b, c, e, f, g, m, n, o))
            == 0,
        a * (-det3(b, c, d, f, g, h, j, k, l)) + b * det3(a, c, d, e, g, h, i, k, l) + c * (-det3(a, b, d, e, f, h, i, j, l)) + d * det3(a, b, c, e, f, g, i, j, k)
            == 0,
{
    lemma_times_sum3(a, f * det2(k, l, o, p), g * det2(j, l, n, p), h * det2(j, k, n, o));
    lemma_mul_det2(f, k, l, o, p);
    lemma_prod3(f, k, p);
    lemma_prod3(f, o, l);
    lemma_mul_is_distributive_sub(a, f * k * p, f * l * o);
    lemma_mul_det2(g, j, l, n, p);
    lemma_prod3(g, j, p);
    lemma_prod3(g, n, l);
    lemma_mul_is_distributive_sub(a, g * j * p, g * l * n);
    lemma_mul_det2(h, j, k, n, o);
    lemma_prod3(h, j, o);
    lemma_prod3(h, n, k);
    lemma_mul_is_distributive_sub(a, h * j * o, h * k * n);
    lemma_times_neg(b, det3(e, g, h, i, k, l, m, o, p));
    lemma_times_sum3(b, e * det2(k, l, o, p), g * det2(i, l, m, p), h * det2(i, k, m, o));
    lemma_mul_det2(e, k, l, o, p);
    lemma_prod3(e, k, p);
    lemma_prod3(e, o, l);
    lemma_mul_is_distributive_sub(b, e * k * p, e * l * o);
    lemma_mul_det2(g, i, l, m, p);
    lemma_prod3(g, i, p);
    lemma_prod3(g, m, l);
    lemma_mul_is_distributive_sub(b, g * i * p, g * l * m);
    lemma_mul_det2(h, i, k, m, o);
    lemma_prod3(h, i, o);
    lemma_prod3(h, m, k);
    lemma_mul_is_distributive_sub(b, h * i * o, h * k * m);
    lemma_times_sum3(c, e * det2(j, l, n, p), f * det2(i, l, m, p), h * det2(i, j, m, n));
    lemma_mul_det2(e, j, l, n, p);
    lemma_prod3(e, j, p);
    lemma_prod3(e, n, l);
    lemma_mul_is_distributive_sub(c, e * j * p, e * l * n);
    lemma_mul_det2(f, i, l, m, p);
    lemma_prod3(f, i, p);
    lemma_prod3(f, m, l);
    lemma_mul_is_distributive_sub(c, f * i * p, f * l * m);
    lemma_mul_det2(h, i, j, m, n);
    lemma_prod3(h, i, n);
    lemma_prod3(h, m, j);
    lemma_mul_is_distributive_sub(c, h * i * n, h * j * m);
    lemma_times_neg(d, det3(e, f, g, i, j, k, m, n, o));
    lemma_times_sum3(d, e * det2(j, k, n, o), f * det2(i, k, m, o), g * det2(i, j, m, n));
    lemma_mul_det2(e, j, k, n, o);
    lemma_prod3(e, j, o);
    lemma_prod3(e, n, k);
    lemma_mul_is_distributive_sub(d, e * j * o, e * k * n);
    lemma_mul_det2(f, i, k, m, o);
    lemma_prod3(f, i, o);
    lemma_prod3(f, m, k);
    lemma_mul_is_distributive_sub(d, f * i * o, f * k * m);
    lemma_mul_det2(g, i, j, m, n);
    lemma_prod3(g, i, n);
    lemma_prod3(g, m, j);
    lemma_mul_is_distributive_sub(d, g * i * n, g * j * m);
    lemma_times_neg(a, det3(b, c, d, j, k, l, n, o, p));
    lemma_times_sum3(a, b * det2(k, l, o, p), c * det2(j, l, n, p), d * det2(j, k, n, o));
    lemma_mul_det2(b, k, l, o, p);
    lemma_prod3(b, k, p);
    lemma_prod3(b, o, l);
    lemma_mul_is_distributive_sub(a, b * k * p, b * l * o);
    lemma_mul_det2(c, j, l, n, p);
    lemma_prod3(c, j, p);
    lemma_prod3(c, n, l);
    lemma_mul_is_distributive_sub(a, c * j * p, c * l * n);
    lemma_mul_det2(d, j, k, n, o);
    lemma_prod3(d, j, o);
    lemma_prod3(d, n, k);
    lemma_mul_is_distributive_sub(a, d * j * o, d * k * n);
    lemma_times_sum3(b, a * det2(k, l, o, p), c * det2(i, l, m, p), d * det2(i, k, m, o));
    lemma_mul_det2(a, k, l, o, p);
    lemma_prod3(a, k, p);
    lemma_prod3(a, o, l);
    lemma_mul_is_distributive_sub(b, a * k * p, a * l * o);
    lemma_prod4(b, a, k, p);
    lemma_prod4(b, a, l, o);
    lemma_mul_det2(c, i, l, m, p);
    lemma_prod3(c, i, p);
    lemma_prod3(c, m, l);
    lemma_mul_is_distributive_sub(b, c * i * p, c * l * m);
    lemma_mul_det2(d, i, k, m, o);
    lemma_prod3(d, i, o);
    lemma_prod3(d, m, k);
    lemma_mul_is_distributive_sub(b, d * i * o, d * k * m);
    lemma_times_neg(c, det3(a, b, d, i, j, l, m, n, p));
    lemma_times_sum3(c, a * det2(j, l, n, p), b * det2(i, l, m, p), d * det2(i, j, m, n));
    lemma_mul_det2(a, j, l, n, p);
    lemma_prod3(a, j, p);
    lemma_prod3(a, n, l);
    lemma_mul_is_distributive_sub(c, a * j * p, a * l * n);
    lemma_prod4(c, a, j, p);
    lemma_prod4(c, a, l, n);
    lemma_mul_det2(b, i, l, m, p);
    lemma_prod3(b, i, p);
    lemma_prod3(b, m, l);
    lemma_mul_is_distributive_sub(c, b * i * p, b * l * m);
    lemma_prod4(c, b, i, p);
    lemma_prod4(c, b, l, m);
    lemma_mul_det2(d, i, j, m, n);
    lemma_prod3(d, i, n);
    lemma_prod3(d, m, j);
    lemma_mul_is_distributive_sub(c, d * i * n, d * j * m);
    lemma_times_sum3(d, a * det2(j, k, n, o), b * det2(i, k, m, o), c * det2(i, j, m, n));
    lemma_mul_det2(a, j, k, n, o);
    lemma_prod3(a, j, o);
    lemma_prod3(a, n, k);
    lemma_mul_is_distributive_sub(d, a * j * o, a * k * n);
    lemma_prod4(d, a, j, o);
    lemma_prod4(d, a, k, n);
    lemma_mul_det2(b, i, k, m, o);
    lemma_prod3(b, i, o);
    lemma_prod3(b, m, k);
    lemma_mul_is_distributive_sub(d, b * i * o, b * k * m);
    lemma_prod4(d, b, i, o);
    lemma_prod4(d, b, k, m);
    lemma_mul_det2(c, i, j, m, n);
    lemma_prod3(c, i, n);
    lemma_prod3(c, m, j);
    lemma_mul_is_distributive_sub(d, c * i * n, c * j * m);
    lemma_prod4(d, c, i, n);
    lemma_prod4(d, c, j, m);
    lemma_times_sum3(a, b * det2(g, h, o, p), c * det2(f, h, n, p), d * det2(f, g, n, o));
    lemma_mul_det2(b, g, h, o, p);
    lemma_prod3(b, g, p);
    lemma_prod3(b, o, h);
    lemma_mul_is_distributive_sub(a, b * g * p, b * h * o);
    lemma_mul_det2(c, f, h, n, p);
    lemma_prod3(c, f, p);
    lemma_prod3(c, n, h);
    lemma_mul_is_distributive_sub(a, c * f * p, c * h * n);
    lemma_mul_det2(d, f, g, n, o);
    lemma_prod3(d, f, o);
    lemma_prod3(d, n, g);
    lemma_mul_is_distributive_sub(a, d * f * o, d * g * n);
    lemma_times_neg(b, det3(a, c, d, e, g, h, m, o, p));
    lemma_times_sum3(b, a * det2(g, h, o, p), c * det2(e, h, m, p), d * det2(e, g, m, o));
    lemma_mul_det2(a, g, h, o, p);
    lemma_prod3(a, g, p);
    lemma_prod3(a, o, h);
    lemma_mul_is_distributive_sub(b, a * g * p, a * h * o);
    lemma_prod4(b, a, g, p);
    lemma_prod4(b, a, h, o);
    lemma_mul_det2(c, e, h, m, p);
    lemma_prod3(c, e, p);
    lemma_prod3(c, m, h);
    lemma_mul_is_distributive_sub(b, c * e * p, c * h * m);
    lemma_mul_det2(d, e, g, m, o);
    lemma_prod3(d, e, o);
    lemma_prod3(d, m, g);
    lemma_mul_is_distributive_sub(b, d * e * o, d * g * m);
    lemma_times_sum3(c, a * det2(f, h, n, p), b * det2(e, h, m, p), d * det2(e, f, m, n));
    lemma_mul_det2(a, f, h, n, p);
    lemma_prod3(a, f, p);
    lemma_prod3(a, n, h);
    lemma_mul_is_distributive_sub(c, a * f * p, a * h * n);
    lemma_prod4(c, a, f, p);
    lemma_prod4(c, a, h, n);
    lemma_mul_det2(b, e, h, m, p);
    lemma_prod3(b, e, p);
    lemma_prod3(b, m, h);
    lemma_mul_is_distributive_sub(c, b * e * p, b * h * m);
    lemma_prod4(c, b, e, p);
    lemma_prod4(c, b, h, m);
    lemma_mul_det2(d, e, f, m, n);
    lemma_prod3(d, e, n);
    lemma_prod3(d, m, f);
    lemma_mul_is_distributive_sub(c, d * e * n, d * f * m);
    lemma_times_neg(d, det3(a, b, c, e, f, g, m, n, o));
    lemma_times_sum3(d, a * det2(f, g, n, o), b * det2(e, g, m, o), c * det2(e, f, m, n));
    lemma_mul_det2(a, f, g, n, o);
    lemma_prod3(a, f, o);
    lemma_prod3(a, n, g);
    lemma_mul_is_distributive_sub(d, a * f * o, a * g * n);
    lemma_prod4(d, a, f, o);
    lemma_prod4(d, a, g, n);
    lemma_mul_det2(b, e, g, m, o);
    lemma_prod3(b, e, o);
    lemma_prod3(b, m, g);
    lemma_mul_is_distributive_sub(d, b * e * o, b * g * m);
    lemma_prod4(d, b, e, o);
    lemma_prod4(d, b, g, m);
    lemma_mul_det2(c, e, f, m, n);
    lemma_prod3(c, e, n);
    lemma_prod3(c, m, f);
    lemma_mul_is_distributive_sub(d, c * e * n, c * f * m);
    lemma_prod4(d, c, e, n);
    lemma_prod4(d, c, f, m);
    lemma_times_neg(a, det3(b, c, d, f, g, h, j, k, l));
    lemma_times_sum3(a, b * det2(g, h, k, l), c * det2(f, h, j, l), d * det2(f, g, j, k));
    lemma_mul_det2(b, g, h, k, l);
    lemma_prod3(b, g, l);
    lemma_prod3(b, k, h);
    lemma_mul_is_distributive_sub(a, b * g * l, b * h * k);
    lemma_mul_det2(c, f, h, j, l);
    lemma_prod3(c, f, l);
    lemma_prod3(c, j, h);
    lemma_mul_is_distributive_sub(a, c * f * l, c * h * j);
    lemma_mul_det2(d, f, g, j, k);
    lemma_prod3(d, f, k);
    lemma_prod3(d, j, g);
    lemma_mul_is_distributive_sub(a, d * f * k, d * g * j);
    lemma_times_sum3(b, a * det2(g, h, k, l), c * det2(e, h, i, l), d * det2(e, g, i, k));
    lemma_mul_det2(a, g, h, k, l);
    lemma_prod3(a, g, l);
    lemma_prod3(a, k, h);
    lemma_mul_is_distributive_sub(b, a * g * l, a * h * k);
    lemma_prod4(b, a, g, l);
    lemma_prod4(b, a, h, k);
    lemma_mul_det2(c, e, h, i, l);
    lemma_prod3(c, e, l);
    lemma_prod3(c, i, h);
    lemma_mul_is_distributive_sub(b, c * e * l, c * h * i);
    lemma_mul_det2(d, e, g, i, k);
    lemma_prod3(d, e, k);
    lemma_prod3(d, i, g);
    lemma_mul_is_distributive_sub(b, d * e * k, d * g * i);
    lemma_times_neg(c, det3(a, b, d, e, f, h, i, j, l));
    lemma_times_sum3(c, a * det2(f, h, j, l), b * det2(e, h, i, l), d * det2(e, f, i, j));
    lemma_mul_det2(a, f, h, j, l);
    lemma_prod3(a, f, l);
    lemma_prod3(a, j, h);
    lemma_mul_is_distributive_sub(c, a * f * l, a * h * j);
    lemma_prod4(c, a, f, l);
    lemma_prod4(c, a, h, j);
    lemma_mul_det2(b, e, h, i, l);
    lemma_prod3(b, e, l);
    lemma_prod3(b, i, h);
    lemma_mul_is_distributive_sub(c, b * e * l, b * h * i);
    lemma_prod4(c, b, e, l);
    lemma_prod4(c, b, h, i);
    lemma_mul_det2(d, e, f, i, j);
    lemma_prod3(d, e, j);
    lemma_prod3(d, i, f);
    lemma_mul_is_distributive_sub(c, d * e * j, d * f * i);
    lemma_times_sum3(d, a * det2(f, g, j, k), b * det2(e, g, i, k), c * det2(e, f, i, j));
    lemma_mul_det2(a, f, g, j, k);
    lemma_prod3(a, f, k);
    lemma_prod3(a, j, g);
    lemma_mul_is_distributive_sub(d, a * f * k, a * g * j);
    lemma_prod4(d, a, f, k);
    lemma_prod4(d, a, g, j);
    lemma_mul_det2(b, e, g, i, k);
    lemma_prod3(b, e, k);
    lemma_prod3(b, i, g);
    lemma_mul_is_distributive_sub(d, b * e * k, b * g * i);
    lemma_prod4(d, b, e, k);
    lemma_prod4(d, b, g, i);
    lemma_mul_det2(c, e, f, i, j);
    lemma_prod3(c, e, j);
    lemma_prod3(c, i, f);
    lemma_mul_is_distributive_sub(d, c * e * j, c * f * i);
    lemma_prod4(d, c, e, j);
    lemma_prod4(d, c, f, i);
}

/// Row 1 of a 4x4 matrix dotted with each column of its adjugate.
proof fn lemma_adjugate4_right_row1(a: int, b: int, c: int, d: int, e: int, f: int, g: int, h: int, i: int, j: int, k: int, l: int, m: int, n: int, o: int, p: int)
    ensures
        e * det3(f, g, h, j, k, l, n, o, p) + f * (-det3(e, g, h, i, k, l, m, o, p)) + g * det3(e, f, h, i, j, l, m, n, p) + h * (-det3(e, f, g, i, j, k, m, n, o))
            == 0,
        e * (-det3(b, c, d, j, k, l, n, o, p)) + f * det3(a, c, d, i, k, l, m, o, p) + g * (-det3(a, b, d, i, j, l, m, n, p)) + h * det3(a, b, c, i, j, k, m, n, o)
            == a * (f * k * p) - a * (f * l * o) - a * (g * j * p) + a * (g * l * n) + a * (h * j * o) - a * (h * k * n) - b * (e * k * p) + b * (e * l * o) + b * (g * i * p) - b * (g * l * m) - b * (h * i * o) + b * (h * k * m) + c * (e * j * p) - c * (e * l * n) - c * (f * i * p) + c * (f * l * m) + c * (h * i * n) - c * (h * j * m) - d * (e * j * o) + d * (e * k * n) + d * (f * i * o) - d * (f * k * m) - d * (g * i * n) + d * (g * j * m),
        e * det3(b, c, d, f, g, h, n, o, p) + f * (-det3(a, c, d, e, g, h, m, o, p)) + g * det3(a, b, d, e, f, h, m, n, p) + h * (-det3(a, b, c, e, f, g, m, n, o))
            == 0,
        e * (-det3(b, c, d, f, g, h, j, k, l)) + f * det3(a, c, d, e, g, h, i, k, l) + g * (-det3(a, b, d, e, f, h, i, j, l)) + h * det3(a, b, c, e, f, g, i, j, k)
            == 0,
{
    lemma_times_sum3(e, f * det2(k, l, o, p), g * det2(j, l, n, p), h * det2(j, k, n, o));
    lemma_mul_det2(f, k, l, o, p);
    lemma_prod3(f, k, p);
    lemma_prod3(f, o, l);
    lemma_mul_is_distributive_sub(e, f * k * p, f * l * o);
    lemma_mul_det2(g, j, l, n, p);
    lemma_prod3(g, j, p);
    lemma_prod3(g, n, l);
    lemma_mul_is_distributive_sub(e, g * j * p, g * l * n);
    lemma_mul_det2(h, j, k, n, o);
    lemma_prod3(h, j, o);
    lemma_prod3(h, n, k);
    lemma_mul_is_distributive_sub(e, h * j * o, h * k * n);
    lemma_times_neg(f, det3(e, g, h, i, k, l, m, o, p));
    lemma_times_sum3(f, e * det2(k, l, o, p), g * det2(i, l, m, p), h * det2(i, k, m, o));
    lemma_mul_det2(e, k, l, o, p);
    lemma_prod3(e, k, p);
    lemma_prod3(e, o, l);
    lemma_mul_is_distributive_sub(f, e * k * p, e * l * o);
    lemma_prod4(f, e, k, p);
    lemma_prod4(f, e, l, o);
    lemma_mul_det2(g, i, l, m, p);
    lemma_prod3(g, i, p);
    lemma_prod3(g, m, l);
    lemma_mul_is_distributive_sub(f, g * i * p, g * l * m);
    lemma_mul_det2(h, i, k, m, o);
    lemma_prod3(h, i, o);
    lemma_prod3(h, m, k);
    lemma_mul_is_distributive_sub(f, h * i * o, h * k * m);
    lemma_times_sum3(g, e * det2(j, l, n, p), f * det2(i, l, m, p), h * det2(i, j, m, n));
    lemma_mul_det2(e, j, l, n, p);
    lemma_prod3(e, j, p);
    lemma_prod3(e, n, l);
    lemma_mul_is_distributive_sub(g, e * j * p, e * l * n);
    lemma_prod4(g, e, j, p);
    lemma_prod4(g, e, l, n);
    lemma_mul_det2(f, i, l, m, p);
    lemma_prod3(f, i, p);
    lemma_prod3(f, m, l);
    lemma_mul_is_distributive_sub(g, f * i * p, f * l * m);
    lemma_prod4(g, f, i, p);
    lemma_prod4(g, f, l, m);
    lemma_mul_det2(h, i, j, m, n);
    lemma_prod3(h, i, n);
    lemma_prod3(h, m, j);
    lemma_mul_is_distributive_sub(g, h * i * n, h * j * m);
    lemma_times_neg(h, det3(e, f, g, i, j, k, m, n, o));
    lemma_times_sum3(h, e * det2(j, k, n, o), f * det2(i, k, m, o), g * det2(i, j, m, n));
    lemma_mul_det2(e, j, k, n, o);
    lemma_prod3(e, j, o);
    lemma_prod3(e, n, k);
    lemma_mul_is_distributive_sub(h, e * j * o, e * k * n);
    lemma_prod4(h, e, j, o);
    lemma_prod4(h, e, k, n);
    lemma_mul_det2(f, i, k, m, o);
    lemma_prod3(f, i, o);
    lemma_prod3(f, m, k);
    lemma_mul_is_distributive_sub(h, f * i * o, f * k * m);
    lemma_prod4(h, f, i, o);
    lemma_prod4(h, f, k, m);
    lemma_mul_det2(g, i, j, m, n);
    lemma_prod3(g, i, n);
    lemma_prod3(g, m, j);
    lemma_mul_is_distributive_sub(h, g * i * n, g * j * m);
    lemma_prod4(h, g, i, n);
    lemma_prod4(h, g, j, m);
    lemma_times_neg(e, det3(b, c, d, j, k, l, n, o, p));
    lemma_times_sum3(e, b * det2(k, l, o, p), c * det2(j, l, n, p), d * det2(j, k, n, o));
    lemma_mul_det2(b, k, l, o, p);
    lemma_prod3(b, k, p);
    lemma_prod3(b, o, l);
    lemma_mul_is_distributive_sub(e, b * k * p, b * l * o);
    lemma_prod4(e, b, k, p);
    lemma_prod4(e, b, l, o);
    lemma_mul_det2(c, j, l, n, p);
    lemma_prod3(c, j, p);
    lemma_prod3(c, n, l);
    lemma_mul_is_distributive_sub(e, c * j * p, c * l * n);
    lemma_prod4(e, c, j, p);
    lemma_prod4(e, c, l, n);
    lemma_mul_det2(d, j, k, n, o);
    lemma_prod3(d, j, o);
    lemma_prod3(d, n, k);
    lemma_mul_is_distributive_sub(e, d * j * o, d * k * n);
    lemma_prod4(e, d, j, o);
    lemma_prod4(e, d, k, n);
    lemma_times_sum3(f, a * det2(k, l, o, p), c * det2(i, l, m, p), d * det2(i, k, m, o));
    lemma_mul_det2(a, k, l, o, p);
    lemma_prod3(a, k, p);
    lemma_prod3(a, o, l);
    lemma_mul_is_distributive_sub(f, a * k * p, a * l * o);
    lemma_prod4(f, a, k, p);
    lemma_prod4(f, a, l, o);
    lemma_mul_det2(c, i, l, m, p);
    lemma_prod3(c, i, p);
    lemma_prod3(c, m, l);
    lemma_mul_is_distributive_sub(f, c * i * p, c * l * m);
    lemma_prod4(f, c, i, p);
    lemma_prod4(f, c, l, m);
    lemma_mul_det2(d, i, k, m, o);
    lemma_prod3(d, i, o);
    lemma_prod3(d, m, k);
    lemma_mul_is_distributive_sub(f, d * i * o, d * k * m);
    lemma_prod4(f, d, i, o);
    lemma_prod4(f, d, k, m);
    lemma_times_neg(g, det3(a, b, d, i, j, l, m, n, p));
    lemma_times_sum3(g, a * det2(j, l, n, p), b * det2(i, l, m, p), d * det2(i, j, m, n));
    lemma_mul_det2(a, j, l, n, p);
    lemma_prod3(a, j, p);
    lemma_prod3(a, n, l);
    lemma_mul_is_distributive_sub(g, a * j * p, a * l * n);
    lemma_prod4(g, a, j, p);
    lemma_prod4(g, a, l, n);
    lemma_mul_det2(b, i, l, m, p);
    lemma_prod3(b, i, p);
    lemma_prod3(b, m, l);
    lemma_mul_is_distributive_sub(g, b * i * p, b * l * m);
    lemma_prod4(g, b, i, p);
    lemma_prod4(g, b, l, m);
    lemma_mul_det2(d, i, j, m, n);
    lemma_prod3(d, i, n);
    lemma_prod3(d, m, j);
    lemma_mul_is_distributive_sub(g, d * i * n, d * j * m);
    lemma_prod4(g, d, i, n);
    lemma_prod4(g, d, j, m);
    lemma_times_sum3(h, a * det2(j, k, n, o), b * det2(i, k, m, o), c * det2(i, j, m, n));
    lemma_mul_det2(a, j, k, n, o);
    lemma_prod3(a, j, o);
    lemma_prod3(a, n, k);
    lemma_mul_is_distributive_sub(h, a * j * o, a * k * n);
    lemma_prod4(h, a, j, o);
    lemma_prod4(h, a, k, n);
    lemma_mul_det2(b, i, k, m, o);
    lemma_prod3(b, i, o);
    lemma_prod3(b, m, k);
    lemma_mul_is_distributive_sub(h, b * i * o, b * k * m);
    lemma_prod4(h, b, i, o);
    lemma_prod4(h, b, k, m);
    lemma_mul_det2(c, i, j, m, n);
    lemma_prod3(c, i, n);
    lemma_prod3(c, m, j);
    lemma_mul_is_distributive_sub(h, c * i * n, c * j * m);
    lemma_prod4(h, c, i, n);
    lemma_prod4(h, c, j, m);
    lemma_times_sum3(e, b * det2(g, h, o, p), c * det2(f, h, n, p), d * det2(f, g, n, o));
    lemma_mul_det2(b, g, h, o, p);
    lemma_prod3(b, g, p);
    lemma_prod3(b, o, h);
    lemma_mul_is_distributive_sub(e, b * g * p, b * h * o);
    lemma_prod4(e, b, g, p);
    lemma_prod4(e, b, h, o);
    lemma_mul_det2(c, f, h, n, p);
    lemma_prod3(c, f, p);
    lemma_prod3(c, n, h);
    lemma_mul_is_distributive_sub(e, c * f * p, c * h * n);
    lemma_prod4(e, c, f, p);
    lemma_prod4(e, c, h, n);
    lemma_mul_det2(d, f, g, n, o);
    lemma_prod3(d, f, o);
    lemma_prod3(d, n, g);
    lemma_mul_is_distributive_sub(e, d * f * o, d * g * n);
    lemma_prod4(e, d, f, o);
    lemma_prod4(e, d, g, n);
    lemma_times_neg(f, det3(a, c, d, e, g, h, m, o, p));
    lemma_times_sum3(f, a * det2(g, h, o, p), c * det2(e, h, m, p), d * det2(e, g, m, o));
    lemma_mul_det2(a, g, h, o, p);
    lemma_prod3(a, g, p);
    lemma_prod3(a, o, h);
    lemma_mul_is_distributive_sub(f, a * g * p, a * h * o);
    lemma_prod4(f, a, g, p);
    lemma_prod4(f, a, h, o);
    lemma_mul_det2(c, e, h, m, p);
    lemma_prod3(c, e, p);
    lemma_prod3(c, m, h);
    lemma_mul_is_distributive_sub(f, c * e * p, c * h * m);
    lemma_prod4(f, c, e, p);
    lemma_prod4(f, c, h, m);
    lemma_mul_det2(d, e, g, m, o);
    lemma_prod3(d, e, o);
    lemma_prod3(d, m, g);
    lemma_mul_is_distributive_sub(f, d * e * o, d * g * m);
    lemma_prod4(f, d, e, o);
    lemma_prod4(f, d, g, m);
    lemma_times_sum3(g, a * det2(f, h, n, p), b * det2(e, h, m, p), d * det2(e, f, m, n));
    lemma_mul_det2(a, f, h, n, p);
    lemma_prod3(a, f, p);
    lemma_prod3(a, n, h);
    lemma_mul_is_distributive_sub(g, a * f * p, a * h * n);
    lemma_prod4(g, a, f, p);
    lemma_prod4(g, a, h, n);
    lemma_mul_det2(b, e, h, m, p);
    lemma_prod3(b, e, p);
    lemma_prod3(b, m, h);
    lemma_mul_is_distributive_sub(g, b * e * p, b * h * m);
    lemma_prod4(g, b, e, p);
    lemma_prod4(g, b, h, m);
    lemma_mul_det2(d, e, f, m, n);
    lemma_prod3(d, e, n);
    lemma_prod3(d, m, f);
    lemma_mul_is_distributive_sub(g, d * e * n, d * f * m);
    lemma_prod4(g, d, e, n);
    lemma_prod4(g, d, f, m);
    lemma_times_neg(h, det3(a, b, c, e, f, g, m, n, o));
    lemma_times_sum3(h, a * det2(f, g, n, o), b * det2(e, g, m, o), c * det2(e, f, m, n));
    lemma_mul_det2(a, f, g, n, o);
    lemma_prod3(a, f, o);
    lemma_prod3(a, n, g);
    lemma_mul_is_distributive_sub(h, a * f * o, a * g * n);
    lemma_prod4(h, a, f, o);
    lemma_prod4(h, a, g, n);
    lemma_mul_det2(b, e, g, m, o);
    lemma_prod3(b, e, o);
    lemma_prod3(b, m, g);
    lemma_mul_is_distributive_sub(h, b * e * o, b * g * m);
    lemma_prod4(h, b, e, o);
    lemma_prod4(h, b, g, m);
    lemma_mul_det2(c, e, f, m, n);
    lemma_prod3(c, e, n);
    lemma_prod3(c, m, f);
    lemma_mul_is_distributive_sub(h, c * e * n, c * f * m);
    lemma_prod4(h, c, e, n);
    lemma_prod4(h, c, f, m);
    lemma_times_neg(e, det3(b, c, d, f, g, h, j, k, l));
    lemma_times_sum3(e, b * det2(g, h, k, l), c * det2(f, h, j, l), d * det2(f, g, j, k));
    lemma_mul_det2(b, g, h, k, l);
    lemma_prod3(b, g, l);
    lemma_prod3(b, k, h);
    lemma_mul_is_distributive_sub(e, b * g * l, b * h * k);
    lemma_prod4(e, b, g, l);
    lemma_prod4(e, b, h, k);
    lemma_mul_det2(c, f, h, j, l);
    lemma_prod3(c, f, l);
    lemma_prod3(c, j, h);
    lemma_mul_is_distributive_sub(e, c * f * l, c * h * j);
    lemma_prod4(e, c, f, l);
    lemma_prod4(e, c, h, j);
    lemma_mul_det2(d, f, g, j, k);
    lemma_prod3(d, f, k);
    lemma_prod3(d, j, g);
    lemma_mul_is_distributive_sub(e, d * f * k, d * g * j);
    lemma_prod4(e, d, f, k);
    lemma_prod4(e, d, g, j);
    lemma_times_sum3(f, a * det2(g, h, k, l), c * det2(e, h, i, l), d * det2(e, g, i, k));
    lemma_mul_det2(a, g, h, k, l);
    lemma_prod3(a, g, l);
    lemma_prod3(a, k, h);
    lemma_mul_is_distributive_sub(f, a * g * l, a * h * k);
    lemma_prod4(f, a, g, l);
    lemma_prod4(f, a, h, k);
    lemma_mul_det2(c, e, h, i, l);
    lemma_prod3(c, e, l);
    lemma_prod3(c, i, h);
    lemma_mul_is_distributive_sub(f, c * e * l, c * h * i);
    lemma_prod4(f, c, e, l);
    lemma_prod4(f, c, h, i);
    lemma_mul_det2(d, e, g, i, k);
    lemma_prod3(d, e, k);
    lemma_prod3(d, i, g);
    lemma_mul_is_distributive_sub(f, d * e * k, d * g * i);
    lemma_prod4(f, d, e, k);
    lemma_prod4(f, d, g, i);
    lemma_times_neg(g, det3(a, b, d, e, f, h, i, j, l));
    lemma_times_sum3(g, a * det2(f, h, j, l), b * det2(e, h, i, l), d * det2(e, f, i, j));
    lemma_mul_det2(a, f, h, j, l);
    lemma_prod3(a, f, l);
    lemma_prod3(a, j, h);
    lemma_mul_is_distributive_sub(g, a * f * l, a * h * j);
    lemma_prod4(g, a, f, l);
    lemma_prod4(g, a, h, j);
    lemma_mul_det2(b, e, h, i, l);
    lemma_prod3(b, e, l);
    lemma_prod3(b, i, h);
    lemma_mul_is_distributive_sub(g, b * e * l, b * h * i);
    lemma_prod4(g, b, e, l);
    lemma_prod4(g, b, h, i);
    lemma_mul_det2(d, e, f, i, j);
    lemma_prod3(d, e, j);
    lemma_prod3(d, i, f);
    lemma_mul_is_distributive_sub(g, d * e * j, d * f * i);
    lemma_prod4(g, d, e, j);
    lemma_prod4(g, d, f, i);
    lemma_times_sum3(h, a * det2(f, g, j, k), b * det2(e, g, i, k), c * det2(e, f, i, j));
    lemma_mul_det2(a, f, g, j, k);
    lemma_prod3(a, f, k);
    lemma_prod3(a, j, g);
    lemma_mul_is_distributive_sub(h, a * f * k, a * g * j);
    lemma_prod4(h, a, f, k);
    lemma_prod4(h, a, g, j);
    lemma_mul_det2(b, e, g, i, k);
    lemma_prod3(b, e, k);
    lemma_prod3(b, i, g);
    lemma_mul_is_distributive_sub(h, b * e * k, b * g * i);
    lemma_prod4(h, b, e, k);
    lemma_prod4(h, b, g, i);
    lemma_mul_det2(c, e, f, i, j);
    lemma_prod3(c, e, j);
    lemma_prod3(c, i, f);
    lemma_mul_is_distributive_sub(h, c * e * j, c * f * i);
    lemma_prod4(h, c, e, j);
    lemma_prod4(h, c, f, i);
}

/// Row 2 of a 4x4 matrix dotted with each column of its adjugate.
proof fn lemma_adjugate4_right_row2(a: int, b: int, c: int, d: int, e: int, f: int, g: int, h: int, i: int, j: int, k: int, l: int, m: int, n: int, o: int, p: int)
    ensures
        i * det3(f, g, h, j, k, l, n, o, p) + j * (-det3(e, g, h, i, k, l, m, o, p)) + k * det3(e, f, h, i, j, l, m, n, p) + l * (-det3(e, f, g, i, j, k, m, n, o))
            == 0,
        i * (-det3(b, c, d, j, k, l, n, o, p)) + j * det3(a, c, d, i, k, l, m, o, p) + k * (-det3(a, b, d, i, j, l, m, n, p)) + l * det3(a, b, c, i, j, k, m, n, o)
            == 0,
        i * det3(b, c, d, f, g, h, n, o, p) + j * (-det3(a, c, d, e, g, h, m, o, p)) + k * det3(a, b, d, e, f, h, m, n, p) + l * (-det3(a, b, c, e, f, g, m, n, o))
            == a * (f * k * p) - a * (f * l * o) - a * (g * j * p) + a * (g * l * n) + a * (h * j * o) - a * (h * k * n) - b * (e * k * p) + b * (e * l * o) + b * (g * i * p) - b * (g * l * m) - b * (h * i * o) + b * (h * k * m) + c * (e * j * p) - c * (e * l * n) - c * (f * i * p) + c * (f * l * m) + c * (h * i * n) - c * (h * j * m) - d * (e * j * o) + d * (e * k * n) + d * (f * i * o) - d * (f * k * m) - d * (g * i * n) + d * (g * j * m),
        i * (-det3(b, c, d, f, g, h, j, k, l)) + j * det3(a, c, d, e, g, h, i, k, l) + k * (-det3(a, b, d, e, f, h, i, j, l)) + l * det3(a, b, c, e, f, g, i, j, k)
            == 0,
{
    lemma_times_sum3(i, f * det2(k, l, o, p), g * det2(j, l, n, p), h * det2(j, k, n, o));
    lemma_mul_det2(f, k, l, o, p);
    lemma_prod3(f, k, p);
    lemma_prod3(f, o, l);
    lemma_mul_is_distributive_sub(i, f * k * p, f * l * o);
    lemma_prod4(i, f, k, p);
    lemma_prod4(i, f, l, o);
    lemma_mul_det2(g, j, l, n, p);
    lemma_prod3(g, j, p);
    lemma_prod3(g, n, l);
    lemma_mul_is_distributive_sub(i, g * j * p, g * l * n);
    lemma_prod4(i, g, j, p);
    lemma_prod4(i, g, l, n);
    lemma_mul_det2(h, j, k, n, o);
    lemma_prod3(h, j, o);
    lemma_prod3(h, n, k);
    lemma_mul_is_distributive_sub(i, h * j * o, h * k * n);
    lemma_prod4(i, h, j, o);
    lemma_prod4(i, h, k, n);
    lemma_times_neg(j, det3(e, g, h, i, k, l, m, o, p));
    lemma_times_sum3(j, e * det2(k, l, o, p), g * det2(i, l, m, p), h * det2(i, k, m, o));
    lemma_mul_det2(e, k, l, o, p);
    lemma_prod3(e, k, p);
    lemma_prod3(e, o, l);
    lemma_mul_is_distributive_sub(j, e * k * p, e * l * o);
    lemma_prod4(j, e, k, p);
    lemma_prod4(j, e, l, o);
    lemma_mul_det2(g, i, l, m, p);
    lemma_prod3(g, i, p);
    lemma_prod3(g, m, l);
    lemma_mul_is_distributive_sub(j, g * i * p, g * l * m);
    lemma_prod4(j, g, i, p);
    lemma_prod4(j, g, l, m);
    lemma_mul_det2(h, i, k, m, o);
    lemma_prod3(h, i, o);
    lemma_prod3(h, m, k);
    lemma_mul_is_distributive_sub(j, h * i * o, h * k * m);
    lemma_prod4(j, h, i, o);
    lemma_prod4(j, h, k, m);
    lemma_times_sum3(k, e * det2(j, l, n, p), f * det2(i, l, m, p), h * det2(i, j, m, n));
    lemma_mul_det2(e, j, l, n, p);
    lemma_prod3(e, j, p);
    lemma_prod3(e, n, l);
    lemma_mul_is_distributive_sub(k, e * j * p, e * l * n);
    lemma_prod4(k, e, j, p);
    lemma_prod4(k, e, l, n);
    lemma_mul_det2(f, i, l, m, p);
    lemma_prod3(f, i, p);
    lemma_prod3(f, m, l);
    lemma_mul_is_distributive_sub(k, f * i * p, f * l * m);
    lemma_prod4(k, f, i, p);
    lemma_prod4(k, f, l, m);
    lemma_mul_det2(h, i, j, m, n);
    lemma_prod3(h, i, n);
    lemma_prod3(h, m, j);
    lemma_mul_is_distributive_sub(k, h * i * n, h * j * m);
    lemma_prod4(k, h, i, n);
    lemma_prod4(k, h, j, m);
    lemma_times_neg(l, det3(e, f, g, i, j, k, m, n, o));
    lemma_times_sum3(l, e * det2(j, k, n, o), f * det2(i, k, m, o), g * det2(i, j, m, n));
    lemma_mul_det2(e, j, k, n, o);
    lemma_prod3(e, j, o);
    lemma_prod3(e, n, k);
    lemma_mul_is_distributive_sub(l, e * j * o, e * k * n);
    lemma_prod4(l, e, j, o);
    lemma_prod4(l, e, k, n);
    lemma_mul_det2(f, i, k, m, o);
    lemma_prod3(f, i, o);
    lemma_prod3(f, m, k);
    lemma_mul_is_distributive_sub(l, f * i * o, f * k * m);
    lemma_prod4(l, f, i, o);
    lemma_prod4(l, f, k, m);
    lemma_mul_det2(g, i, j, m, n);
    lemma_prod3(g, i, n);
    lemma_prod3(g, m, j);
    lemma_mul_is_distributive_sub(l, g * i * n, g * j * m);
    lemma_prod4(l, g, i, n);
    lemma_prod4(l, g, j, m);
    lemma_times_neg(i, det3(b, c, d, j, k, l, n, o, p));
    lemma_times_sum3(i, b * det2(k, l, o, p), c * det2(j, l, n, p), d * det2(j, k, n, o));
    lemma_mul_det2(b, k, l, o, p);
    lemma_prod3(b, k, p);
    lemma_prod3(b, o, l);
    lemma_mul_is_distributive_sub(i, b * k * p, b * l * o);
    lemma_prod4(i, b, k, p);
    lemma_prod4(i, b, l, o);
    lemma_mul_det2(c, j, l, n, p);
    lemma_prod3(c, j, p);
    lemma_prod3(c, n, l);
    lemma_mul_is_distributive_sub(i, c * j * p, c * l * n);
    lemma_prod4(i, c, j, p);
    lemma_prod4(i, c, l, n);
    lemma_mul_det2(d, j, k, n, o);
    lemma_prod3(d, j, o);
    lemma_prod3(d, n, k);
    lemma_mul_is_distributive_sub(i, d * j * o, d * k * n);
    lemma_prod4(i, d, j, o);
    lemma_prod4(i, d, k, n);
    lemma_times_sum3(j, a * det2(k, l, o, p), c * det2(i, l, m, p), d * det2(i, k, m, o));
    lemma_mul_det2(a, k, l, o, p);
    lemma_prod3(a, k, p);
    lemma_prod3(a, o, l);
    lemma_mul_is_distributive_sub(j, a * k * p, a * l * o);
    lemma_prod4(j, a, k, p);
    lemma_prod4(j, a, l, o);
    lemma_mul_det2(c, i, l, m, p);
    lemma_prod3(c, i, p);
    lemma_prod3(c, m, l);
    lemma_mul_is_distributive_sub(j, c * i * p, c * l * m);
    lemma_prod4(j, c, i, p);
    lemma_prod4(j, c, l, m);
    lemma_mul_det2(d, i, k, m, o);
    lemma_prod3(d, i, o);
    lemma_prod3(d, m, k);
    lemma_mul_is_distributive_sub(j, d * i * o, d * k * m);
    lemma_prod4(j, d, i, o);
    lemma_prod4(j, d, k, m);
    lemma_times_neg(k, det3(a, b, d, i, j, l, m, n, p));
    lemma_times_sum3(k, a * det2(j, l, n, p), b * det2(i, l, m, p), d * det2(i, j, m, n));
    lemma_mul_det2(a, j, l, n, p);
    lemma_prod3(a, j, p);
    lemma_prod3(a, n, l);
    lemma_mul_is_distributive_sub(k, a * j * p, a * l * n);
    lemma_prod4(k, a, j, p);
    lemma_prod4(k, a, l, n);
    lemma_mul_det2(b, i, l, m, p);
    lemma_prod3(b, i, p);
    lemma_prod3(b, m, l);
    lemma_mul_is_distributive_sub(k, b * i * p, b * l * m);
    lemma_prod4(k, b, i, p);
    lemma_prod4(k, b, l, m);
    lemma_mul_det2(d, i, j, m, n);
    lemma_prod3(d, i, n);
    lemma_prod3(d, m, j);
    lemma_mul_is_distributive_sub(k, d * i * n, d * j * m);
    lemma_prod4(k, d, i, n);
    lemma_prod4(k, d, j, m);
    lemma_times_sum3(l, a * det2(j, k, n, o), b * det2(i, k, m, o), c * det2(i, j, m, n));
    lemma_mul_det2(a, j, k, n, o);
    lemma_prod3(a, j, o);
    lemma_prod3(a, n, k);
    lemma_mul_is_distributive_sub(l, a * j * o, a * k * n);
    lemma_prod4(l, a, j, o);
    lemma_prod4(l, a, k, n);
    lemma_mul_det2(b, i, k, m, o);
    lemma_prod3(b, i, o);
    lemma_prod3(b, m, k);
    lemma_mul_is_distributive_sub(l, b * i * o, b * k * m);
    lemma_prod4(l, b, i, o);
    lemma_prod4(l, b, k, m);
    lemma_mul_det2(c, i, j, m, n);
    lemma_prod3(c, i, n);
    lemma_prod3(c, m, j);
    lemma_mul_is_distributive_sub(l, c * i * n, c * j * m);
    lemma_prod4(l, c, i, n);
    lemma_prod4(l, c, j, m);
    lemma_times_sum3(i, b * det2(g, h, o, p), c * det2(f, h, n, p), d * det2(f, g, n, o));
    lemma_mul_det2(b, g, h, o, p);
    lemma_prod3(b, g, p);
    lemma_prod3(b, o, h);
    lemma_mul_is_distributive_sub(i, b * g * p, b * h * o);
    lemma_prod4(i, b, g, p);
    lemma_prod4(i, b, h, o);
    lemma_mul_det2(c, f, h, n, p);
    lemma_prod3(c, f, p);
    lemma_prod3(c, n, h);
    lemma_mul_is_distributive_sub(i, c * f * p, c * h * n);
    lemma_prod4(i, c, f, p);
    lemma_prod4(i, c, h, n);
    lemma_mul_det2(d, f, g, n, o);
    lemma_prod3(d, f, o);
    lemma_prod3(d, n, g);
    lemma_mul_is_distributive_sub(i, d * f * o, d * g * n);
    lemma_prod4(i, d, f, o);
    lemma_prod4(i, d, g, n);
    lemma_times_neg(j, det3(a, c, d, e, g, h, m, o, p));
    lemma_times_sum3(j, a * det2(g, h, o, p), c * det2(e, h, m, p), d * det2(e, g, m, o));
    lemma_mul_det2(a, g, h, o, p);
    lemma_prod3(a, g, p);
    lemma_prod3(a, o, h);
    lemma_mul_is_distributive_sub(j, a * g * p, a * h * o);
    lemma_prod4(j, a, g, p);
    lemma_prod4(j, a, h, o);
    lemma_mul_det2(c, e, h, m, p);
    lemma_prod3(c, e, p);
    lemma_prod3(c, m, h);
    lemma_mul_is_distributive_sub(j, c * e * p, c * h * m);
    lemma_prod4(j, c, e, p);
    lemma_prod4(j, c, h, m);
    lemma_mul_det2(d, e, g, m, o);
    lemma_prod3(d, e, o);
    lemma_prod3(d, m, g);
    lemma_mul_is_distributive_sub(j, d * e * o, d * g * m);
    lemma_prod4(j, d, e, o);
    lemma_prod4(j, d, g, m);
    lemma_times_sum3(k, a * det2(f, h, n, p), b * det2(e, h, m, p), d * det2(e, f, m, n));
    lemma_mul_det2(a, f, h, n, p);
    lemma_prod3(a, f, p);
    lemma_prod3(a, n, h);
    lemma_mul_is_distributive_sub(k, a * f * p, a * h * n);
    lemma_prod4(k, a, f, p);
    lemma_prod4(k, a, h, n);
    lemma_mul_det2(b, e, h, m, p);
    lemma_prod3(b, e, p);
    lemma_prod3(b, m, h);
    lemma_mul_is_distributive_sub(k, b * e * p, b * h * m);
    lemma_prod4(k, b, e, p);
    lemma_prod4(k, b, h, m);
    lemma_mul_det2(d, e, f, m, n);
    lemma_prod3(d, e, n);
    lemma_prod3(d, m, f);
    lemma_mul_is_distributive_sub(k, d * e * n, d * f * m);
    lemma_prod4(k, d, e, n);
    lemma_prod4(k, d, f, m);
    lemma_times_neg(l, det3(a, b, c, e, f, g, m, n, o));
    lemma_times_sum3(l, a * det2(f, g, n, o), b * det2(e, g, m, o), c * det2(e, f, m, n));
    lemma_mul_det2(a, f, g, n, o);
    lemma_prod3(a, f, o);
    lemma_prod3(a, n, g);
    lemma_mul_is_distributive_sub(l, a * f * o, a * g * n);
    lemma_prod4(l, a, f, o);
    lemma_prod4(l, a, g, n);
    lemma_mul_det2(b, e, g, m, o);
    lemma_prod3(b, e, o);
    lemma_prod3(b, m, g);
    lemma_mul_is_distributive_sub(l, b * e * o, b * g * m);
    lemma_prod4(l, b, e, o);
    lemma_prod4(l, b, g, m);
    lemma_mul_det2(c, e, f, m, n);
    lemma_prod3(c, e, n);
    lemma_prod3(c, m, f);
    lemma_mul_is_distributive_sub(l, c * e * n, c * f * m);
    lemma_prod4(l, c, e, n);
    lemma_prod4(l, c, f, m);
    lemma_times_neg(i, det3(b, c, d, f, g, h, j, k, l));
    lemma_times_sum3(i, b * det2(g, h, k, l), c * det2(f, h, j, l), d * det2(f, g, j, k));
    lemma_mul_det2(b, g, h, k, l);
    lemma_prod3(b, g, l);
    lemma_prod3(b, k, h);
    lemma_mul_is_distributive_sub(i, b * g * l, b * h * k);
    lemma_prod4(i, b, g, l);
    lemma_prod4(i, b, h, k);
    lemma_mul_det2(c, f, h, j, l);
    lemma_prod3(c, f, l);
    lemma_prod3(c, j, h);
    lemma_mul_is_distributive_sub(i, c * f * l, c * h * j);
    lemma_prod4(i, c, f, l);
    lemma_prod4(i, c, h, j);
    lemma_mul_det2(d, f, g, j, k);
    lemma_prod3(d, f, k);
    lemma_prod3(d, j, g);
    lemma_mul_is_distributive_sub(i, d * f * k, d * g * j);
    lemma_prod4(i, d, f, k);
    lemma_prod4(i, d, g, j);
    lemma_times_sum3(j, a * det2(g, h, k, l), c * det2(e, h, i, l), d * det2(e, g, i, k));
    lemma_mul_det2(a, g, h, k, l);
    lemma_prod3(a, g, l);
    lemma_prod3(a, k, h);
    lemma_mul_is_distributive_sub(j, a * g * l, a * h * k);
    lemma_prod4(j, a, g, l);
    lemma_prod4(j, a, h, k);
    lemma_mul_det2(c, e, h, i, l);
    lemma_prod3(c, e, l);
    lemma_prod3(c, i, h);
    lemma_mul_is_distributive_sub(j, c * e * l, c * h * i);
    lemma_prod4(j, c, e, l);
    lemma_prod4(j, c, h, i);
    lemma_mul_det2(d, e, g, i, k);
    lemma_prod3(d, e, k);
    lemma_prod3(d, i, g);
    lemma_mul_is_distributive_sub(j, d * e * k, d * g * i);
    lemma_prod4(j, d, e, k);
    lemma_prod4(j, d, g, i);
    lemma_times_neg(k, det3(a, b, d, e, f, h, i, j, l));
    lemma_times_sum3(k, a * det2(f, h, j, l), b * det2(e, h, i, l), d * det2(e, f, i, j));
    lemma_mul_det2(a, f, h, j, l);
    lemma_prod3(a, f, l);
    lemma_prod3(a, j, h);
    lemma_mul_is_distributive_sub(k, a * f * l, a * h * j);
    lemma_prod4(k, a, f, l);
    lemma_prod4(k, a, h, j);
    lemma_mul_det2(b, e, h, i, l);
    lemma_prod3(b, e, l);
    lemma_prod3(b, i, h);
    lemma_mul_is_distributive_sub(k, b * e * l, b * h * i);
    lemma_prod4(k, b, e, l);
    lemma_prod4(k, b, h, i);
    lemma_mul_det2(d, e, f, i, j);
    lemma_prod3(d, e, j);
    lemma_prod3(d, i, f);
    lemma_mul_is_distributive_sub(k, d * e * j, d * f * i);
    lemma_prod4(k, d, e, j);
    lemma_prod4(k, d, f, i);
    lemma_times_sum3(l, a * det2(f, g, j, k), b * det2(e, g, i, k), c * det2(e, f, i, j));
    lemma_mul_det2(a, f, g, j, k);
    lemma_prod3(a, f, k);
    lemma_prod3(a, j, g);
    lemma_mul_is_distributive_sub(l, a * f * k, a * g * j);
    lemma_prod4(l, a, f, k);
    lemma_prod4(l, a, g, j);
    lemma_mul_det2(b, e, g, i, k);
    lemma_prod3(b, e, k);
    lemma_prod3(b, i, g);
    lemma_mul_is_distributive_sub(l, b * e * k, b * g * i);
    lemma_prod4(l, b, e, k);
    lemma_prod4(l, b, g, i);
    lemma_mul_det2(c, e, f, i, j);
    lemma_prod3(c, e, j);
    lemma_prod3(c, i, f);
    lemma_mul_is_distributive_sub(l, c * e * j, c * f * i);
    lemma_prod4(l, c, e, j);
    lemma_prod4(l, c, f, i);
}

/// Row 3 of a 4x4 matrix dotted with each column of its adjugate.
proof fn lemma_adjugate4_right_row3(a: int, b: int, c: int, d: int, e: int, f: int, g: int, h: int, i: int, j: int, k: int, l: int, m: int, n: int, o: int, p: int)
    ensures
        m * det3(f, g, h, j, k, l, n, o, p) + n * (-det3(e, g, h, i, k, l, m, o, p)) + o * det3(e, f, h, i, j, l, m, n, p) + p * (-det3(e, f, g, i, j, k, m, n, o))
            == 0,
        m * (-det3(b, c, d, j, k, l, n, o, p)) + n * det3(a, c, d, i, k, l, m, o, p) + o * (-det3(a, b, d, i, j, l, m, n, p)) + p * det3(a, b, c, i, j, k, m, n, o)
            == 0,
        m * det3(b, c, d, f, g, h, n, o, p) + n * (-det3(a, c, d, e, g, h, m, o, p)) + o * det3(a, b, d, e, f, h, m, n, p) + p * (-det3(a, b, c, e, f, g, m, n, o))
            == 0,
        m * (-det3(b, c, d, f, g, h, j, k, l)) + n * det3(a, c, d, e, g, h, i, k, l) + o * (-det3(a, b, d, e, f, h, i, j, l)) + p * det3(a, b, c, e, f, g, i, j, k)
            == a * (f * k * p) - a * (f * l * o) - a * (g * j * p) + a * (g * l * n) + a * (h * j * o) - a * (h * k * n) - b * (e * k * p) + b * (e * l * o) + b * (g * i * p) - b * (g * l * m) - b * (h * i * o) + b * (h * k * m) + c * (e * j * p) - c * (e * l * n) - c * (f * i * p) + c * (f * l * m) + c * (h * i * n) - c * (h * j * m) - d * (e * j * o) + d * (e * k * n) + d * (f * i * o) - d * (f * k * m) - d * (g * i * n) + d * (g * j * m),
{
    lemma_times_sum3(m, f * det2(k, l, o, p), g * det2(j, l, n, p), h * det2(j, k, n, o));
    lemma_mul_det2(f, k, l, o, p);
    lemma_prod3(f, k, p);
    lemma_prod3(f, o, l);
    lemma_mul_is_distributive_sub(m, f * k * p, f * l * o);
    lemma_prod4(m, f, k, p);
    lemma_prod4(m, f, l, o);
    lemma_mul_det2(g, j, l, n, p);
    lemma_prod3(g, j, p);
    lemma_prod3(g, n, l);
    lemma_mul_is_distributive_sub(m, g * j * p, g * l * n);
    lemma_prod4(m, g, j, p);
    lemma_prod4(m, g, l, n);
    lemma_mul_det2(h, j, k, n, o);
    lemma_prod3(h, j, o);
    lemma_prod3(h, n, k);
    lemma_mul_is_distributive_sub(m, h * j * o, h * k * n);
    lemma_prod4(m, h, j, o);
    lemma_prod4(m, h, k, n);
    lemma_times_neg(n, det3(e, g, h, i, k, l, m, o, p));
    lemma_times_sum3(n, e * det2(k, l, o, p), g * det2(i, l, m, p), h * det2(i, k, m, o));
    lemma_mul_det2(e, k, l, o, p);
    lemma_prod3(e, k, p);
    lemma_prod3(e, o, l);
    lemma_mul_is_distributive_sub(n, e * k * p, e * l * o);
    lemma_prod4(n, e, k, p);
    lemma_prod4(n, e, l, o);
    lemma_mul_det2(g, i, l, m, p);
    lemma_prod3(g, i, p);
    lemma_prod3(g, m, l);
    lemma_mul_is_distributive_sub(n, g * i * p, g * l * m);
    lemma_prod4(n, g, i, p);
    lemma_prod4(n, g, l, m);
    lemma_mul_det2(h, i, k, m, o);
    lemma_prod3(h, i, o);
    lemma_prod3(h, m, k);
    lemma_mul_is_distributive_sub(n, h * i * o, h * k * m);
    lemma_prod4(n, h, i, o);
    lemma_prod4(n, h, k, m);
    lemma_times_sum3(o, e * det2(j, l, n, p), f * det2(i, l, m, p), h * det2(i, j, m, n));
    lemma_mul_det2(e, j, l, n, p);
    lemma_prod3(e, j, p);
    lemma_prod3(e, n, l);
    lemma_mul_is_distributive_sub(o, e * j * p, e * l * n);
    lemma_prod4(o, e, j, p);
    lemma_prod4(o, e, l, n);
    lemma_mul_det2(f, i, l, m, p);
    lemma_prod3(f, i, p);
    lemma_prod3(f, m, l);
    lemma_mul_is_distributive_sub(o, f * i * p, f * l * m);
    lemma_prod4(o, f, i, p);
    lemma_prod4(o, f, l, m);
    lemma_mul_det2(h, i, j, m, n);
    lemma_prod3(h, i, n);
    lemma_prod3(h, m, j);
    lemma_mul_is_distributive_sub(o, h * i * n, h * j * m);
    lemma_prod4(o, h, i, n);
    lemma_prod4(o, h, j, m);
    lemma_times_neg(p, det3(e, f, g, i, j, k, m, n, o));
    lemma_times_sum3(p, e * det2(j, k, n, o), f * det2(i, k, m, o), g * det2(i, j, m, n));
    lemma_mul_det2(e, j, k, n, o);
    lemma_prod3(e, j, o);
    lemma_prod3(e, n, k);
    lemma_mul_is_distributive_sub(p, e * j * o, e * k * n);
    lemma_prod4(p, e, j, o);
    lemma_prod4(p, e, k, n);
    lemma_mul_det2(f, i, k, m, o);
    lemma_prod3(f, i, o);
    lemma_prod3(f, m, k);
    lemma_mul_is_distributive_sub(p, f * i * o, f * k * m);
    lemma_prod4(p, f, i, o);
    lemma_prod4(p, f, k, m);
    lemma_mul_det2(g, i, j, m, n);
    lemma_prod3(g, i, n);
    lemma_prod3(g, m, j);
    lemma_mul_is_distributive_sub(p, g * i * n, g * j * m);
    lemma_prod4(p, g, i, n);
    lemma_prod4(p, g, j, m);
    lemma_times_neg(m, det3(b, c, d, j, k, l, n, o, p));
    lemma_times_sum3(m, b * det2(k, l, o, p), c * det2(j, l, n, p), d * det2(j, k, n, o));
    lemma_mul_det2(b, k, l, o, p);
    lemma_prod3(b, k, p);
    lemma_prod3(b, o, l);
    lemma_mul_is_distributive_sub(m, b * k * p, b * l * o);
    lemma_prod4(m, b, k, p);
    lemma_prod4(m, b, l, o);
    lemma_mul_det2(c, j, l, n, p);
    lemma_prod3(c, j, p);
    lemma_prod3(c, n, l);
    lemma_mul_is_distributive_sub(m, c * j * p, c * l * n);
    lemma_prod4(m, c, j, p);
    lemma_prod4(m, c, l, n);
    lemma_mul_det2(d, j, k, n, o);
    lemma_prod3(d, j, o);
    lemma_prod3(d, n, k);
    lemma_mul_is_distributive_sub(m, d * j * o, d * k * n);
    lemma_prod4(m, d, j, o);
    lemma_prod4(m, d, k, n);
    lemma_times_sum3(n, a * det2(k, l, o, p), c * det2(i, l, m, p), d * det2(i, k, m, o));
    lemma_mul_det2(a, k, l, o, p);
    lemma_prod3(a, k, p);
    lemma_prod3(a, o, l);
    lemma_mul_is_distributive_sub(n, a * k * p, a * l * o);
    lemma_prod4(n, a, k, p);
    lemma_prod4(n, a, l, o);
    lemma_mul_det2(c, i, l, m, p);
    lemma_prod3(c, i, p);
    lemma_prod3(c, m, l);
    lemma_mul_is_distributive_sub(n, c * i * p, c * l * m);
    lemma_prod4(n, c, i, p);
    lemma_prod4(n, c, l, m);
    lemma_mul_det2(d, i, k, m, o);
    lemma_prod3(d, i, o);
    lemma_prod3(d, m, k);
    lemma_mul_is_distributive_sub(n, d * i * o, d * k * m);
    lemma_prod4(n, d, i, o);
    lemma_prod4(n, d, k, m);
    lemma_times_neg(o, det3(a, b, d, i, j, l, m, n, p));
    lemma_times_sum3(o, a * det2(j, l, n, p), b * det2(i, l, m, p), d * det2(i, j, m, n));
    lemma_mul_det2(a, j, l, n, p);
    lemma_prod3(a, j, p);
    lemma_prod3(a, n, l);
    lemma_mul_is_distributive_sub(o, a * j * p, a * l * n);
    lemma_prod4(o, a, j, p);
    lemma_prod4(o, a, l, n);
    lemma_mul_det2(b, i, l, m, p);
    lemma_prod3(b, i, p);
    lemma_prod3(b, m, l);
    lemma_mul_is_distributive_sub(o, b * i * p, b * l * m);
    lemma_prod4(o, b, i, p);
    lemma_prod4(o, b, l, m);
    lemma_mul_det2(d, i, j, m, n);
    lemma_prod3(d, i, n);
    lemma_prod3(d, m, j);
    lemma_mul_is_distributive_sub(o, d * i * n, d * j * m);
    lemma_prod4(o, d, i, n);
    lemma_prod4(o, d, j, m);
    lemma_times_sum3(p, a * det2(j, k, n, o), b * det2(i, k, m, o), c * det2(i, j, m, n));
    lemma_mul_det2(a, j, k, n, o);
    lemma_prod3(a, j, o);
    lemma_prod3(a, n, k);
    lemma_mul_is_distributive_sub(p, a * j * o, a * k * n);
    lemma_prod4(p, a, j, o);
    lemma_prod4(p, a, k, n);
    lemma_mul_det2(b, i, k, m, o);
    lemma_prod3(b, i, o);
    lemma_prod3(b, m, k);
    lemma_mul_is_distributive_sub(p, b * i * o, b * k * m);
    lemma_prod4(p, b, i, o);
    lemma_prod4(p, b, k, m);
    lemma_mul_det2(c, i, j, m, n);
    lemma_prod3(c, i, n);
    lemma_prod3(c, m, j);
    lemma_mul_is_distributive_sub(p, c * i * n, c * j * m);
    lemma_prod4(p, c, i, n);
    lemma_prod4(p, c, j, m);
    lemma_times_sum3(m, b * det2(g, h, o, p), c * det2(f, h, n, p), d * det2(f, g, n, o));
    lemma_mul_det2(b, g, h, o, p);
    lemma_prod3(b, g, p);
    lemma_prod3(b, o, h);
    lemma_mul_is_distributive_sub(m, b * g * p, b * h * o);
    lemma_prod4(m, b, g, p);
    lemma_prod4(m, b, h, o);
    lemma_mul_det2(c, f, h, n, p);
    lemma_prod3(c, f, p);
    lemma_prod3(c, n, h);
    lemma_mul_is_distributive_sub(m, c * f * p, c * h * n);
    lemma_prod4(m, c, f, p);
    lemma_prod4(m, c, h, n);
    lemma_mul_det2(d, f, g, n, o);
    lemma_prod3(d, f, o);
    lemma_prod3(d, n, g);
    lemma_mul_is_distributive_sub(m, d * f * o, d * g * n);
    lemma_prod4(m, d, f, o);
    lemma_prod4(m, d, g, n);
    lemma_times_neg(n, det3(a, c, d, e, g, h, m, o, p));
    lemma_times_sum3(n, a * det2(g, h, o, p), c * det2(e, h, m, p), d * det2(e, g, m, o));
    lemma_mul_det2(a, g, h, o, p);
    lemma_prod3(a, g, p);
    lemma_prod3(a, o, h);
    lemma_mul_is_distributive_sub(n, a * g * p, a * h * o);
    lemma_prod4(n, a, g, p);
    lemma_prod4(n, a, h, o);
    lemma_mul_det2(c, e, h, m, p);
    lemma_prod3(c, e, p);
    lemma_prod3(c, m, h);
    lemma_mul_is_distributive_sub(n, c * e * p, c * h * m);
    lemma_prod4(n, c, e, p);
    lemma_prod4(n, c, h, m);
    lemma_mul_det2(d, e, g, m, o);
    lemma_prod3(d, e, o);
    lemma_prod3(d, m, g);
    lemma_mul_is_distributive_sub(n, d * e * o, d * g * m);
    lemma_prod4(n, d, e, o);
    lemma_prod4(n, d, g, m);
    lemma_times_sum3(o, a * det2(f, h, n, p), b * det2(e, h, m, p), d * det2(e, f, m, n));
    lemma_mul_det2(a, f, h, n, p);
    lemma_prod3(a, f, p);
    lemma_prod3(a, n, h);
    lemma_mul_is_distributive_sub(o, a * f * p, a * h * n);
    lemma_prod4(o, a, f, p);
    lemma_prod4(o, a, h, n);
    lemma_mul_det2(b, e, h, m, p);
    lemma_prod3(b, e, p);
    lemma_prod3(b, m, h);
    lemma_mul_is_distributive_sub(o, b * e * p, b * h * m);
    lemma_prod4(o, b, e, p);
    lemma_prod4(o, b, h, m);
    lemma_mul_det2(d, e, f, m, n);
    lemma_prod3(d, e, n);
    lemma_prod3(d, m, f);
    lemma_mul_is_distributive_sub(o, d * e * n, d * f * m);
    lemma_prod4(o, d, e, n);
    lemma_prod4(o, d, f, m);
    lemma_times_neg(p, det3(a, b, c, e, f, g, m, n, o));
    lemma_times_sum3(p, a * det2(f, g, n, o), b * det2(e, g, m, o), c * det2(e, f, m, n));
    lemma_mul_det2(a, f, g, n, o);
    lemma_prod3(a, f, o);
    lemma_prod3(a, n, g);
    lemma_mul_is_distributive_sub(p, a * f * o, a * g * n);
    lemma_prod4(p, a, f, o);
    lemma_prod4(p, a, g, n);
    lemma_mul_det2(b, e, g, m, o);
    lemma_prod3(b, e, o);
    lemma_prod3(b, m, g);
    lemma_mul_is_distributive_sub(p, b * e * o, b * g * m);
    lemma_prod4(p, b, e, o);
    lemma_prod4(p, b, g, m);
    lemma_mul_det2(c, e, f, m, n);
    lemma_prod3(c, e, n);
    lemma_prod3(c, m, f);
    lemma_mul_is_distributive_sub(p, c * e * n, c * f * m);
    lemma_prod4(p, c, e, n);
    lemma_prod4(p, c, f, m);
    lemma_times_neg(m, det3(b, c, d, f, g, h, j, k, l));
    lemma_times_sum3(m, b * det2(g, h, k, l), c * det2(f, h, j, l), d * det2(f, g, j, k));
    lemma_mul_det2(b, g, h, k, l);
    lemma_prod3(b, g, l);
    lemma_prod3(b, k, h);
    lemma_mul_is_distributive_sub(m, b * g * l, b * h * k);
    lemma_prod4(m, b, g, l);
    lemma_prod4(m, b, h, k);
    lemma_mul_det2(c, f, h, j, l);
    lemma_prod3(c, f, l);
    lemma_prod3(c, j, h);
    lemma_mul_is_distributive_sub(m, c * f * l, c * h * j);
    lemma_prod4(m, c, f, l);
    lemma_prod4(m, c, h, j);
    lemma_mul_det2(d, f, g, j, k);
    lemma_prod3(d, f, k);
    lemma_prod3(d, j, g);
    lemma_mul_is_distributive_sub(m, d * f * k, d * g * j);
    lemma_prod4(m, d, f, k);
    lemma_prod4(m, d, g, j);
    lemma_times_sum3(n, a * det2(g, h, k, l), c * det2(e, h, i, l), d * det2(e, g, i, k));
    lemma_mul_det2(a, g, h, k, l);
    lemma_prod3(a, g, l);
    lemma_prod3(a, k, h);
    lemma_mul_is_distributive_sub(n, a * g * l, a * h * k);
    lemma_prod4(n, a, g, l);
    lemma_prod4(n, a, h, k);
    lemma_mul_det2(c, e, h, i, l);
    lemma_prod3(c, e, l);
    lemma_prod3(c, i, h);
    lemma_mul_is_distributive_sub(n, c * e * l, c * h * i);
    lemma_prod4(n, c, e, l);
    lemma_prod4(n, c, h, i);
    lemma_mul_det2(d, e, g, i, k);
    lemma_prod3(d, e, k);
    lemma_prod3(d, i, g);
    lemma_mul_is_distributive_sub(n, d * e * k, d * g * i);
    lemma_prod4(n, d, e, k);
    lemma_prod4(n, d, g, i);
    lemma_times_neg(o, det3(a, b, d, e, f, h, i, j, l));
    lemma_times_sum3(o, a * det2(f, h, j, l), b * det2(e, h, i, l), d * det2(e, f, i, j));
    lemma_mul_det2(a, f, h, j, l);
    lemma_prod3(a, f, l);
    lemma_prod3(a, j, h);
    lemma_mul_is_distributive_sub(o, a * f * l, a * h * j);
    lemma_prod4(o, a, f, l);
    lemma_prod4(o, a, h, j);
    lemma_mul_det2(b, e, h, i, l);
    lemma_prod3(b, e, l);
    lemma_prod3(b, i, h);
    lemma_mul_is_distributive_sub(o, b * e * l, b * h * i);
    lemma_prod4(o, b, e, l);
    lemma_prod4(o, b, h, i);
    lemma_mul_det2(d, e, f, i, j);
    lemma_prod3(d, e, j);
    lemma_prod3(d, i, f);
    lemma_mul_is_distributive_sub(o, d * e * j, d * f * i);
    lemma_prod4(o, d, e, j);
    lemma_prod4(o, d, f, i);
    lemma_times_sum3(p, a * det2(f, g, j, k), b * det2(e, g, i, k), c * det2(e, f, i, j));
    lemma_mul_det2(a, f, g, j, k);
    lemma_prod3(a, f, k);
    lemma_prod3(a, j, g);
    lemma_mul_is_distributive_sub(p, a * f * k, a * g * j);
    lemma_prod4(p, a, f, k);
    lemma_prod4(p, a, g, j);
    lemma_mul_det2(b, e, g, i, k);
    lemma_prod3(b, e, k);
    lemma_prod3(b, i, g);
    lemma_mul_is_distributive_sub(p, b * e * k, b * g * i);
    lemma_prod4(p, b, e, k);
    lemma_prod4(p, b, g, i);
    lemma_mul_det2(c, e, f, i, j);
    lemma_prod3(c, e, j);
    lemma_prod3(c, i, f);
    lemma_mul_is_distributive_sub(p, c * e * j, c * f * i);
    lemma_prod4(p, c, e, j);
    lemma_prod4(p, c, f, i);
}

/// The matrix times its adjugate is also its determinant times the identity, for
/// a 4x4 matrix: the adjugate is a two-sided inverse up to the determinant.
#[verifier::rlimit(50)]
pub proof fn law_adjugate4_right(x: Seq<Seq<int>>)
    requires
        x.len() == 4,
        forall|r: int| 0 <= r < 4 ==> (#[trigger] x[r]).len() == 4,
    ensures
        mat_mul(x, mcof4(x), 4) == mscale(identity_seq(4, 4), mdet4(x)),
{
    let adj = mcof4(x);
    let lhs = mat_mul(x, adj, 4);
    let rhs = mscale(identity_seq(4, 4), mdet4(x));
    lemma_det4_expanded(x[0][0], x[0][1], x[0][2], x[0][3], x[1][0], x[1][1], x[1][2], x[1][3], x[2][0], x[2][1], x[2][2], x[2][3], x[3][0], x[3][1], x[3][2], x[3][3]);
    lemma_adjugate4_right_row0(x[0][0], x[0][1], x[0][2], x[0][3], x[1][0], x[1][1], x[1][2], x[1][3], x[2][0], x[2][1], x[2][2], x[2][3], x[3][0], x[3][1], x[3][2], x[3][3]);
    lemma_adjugate4_right_row1(x[0][0], x[0][1], x[0][2], x[0][3], x[1][0], x[1][1], x[1][2], x[1][3], x[2][0], x[2][1], x[2][2], x[2][3], x[3][0], x[3][1], x[3][2], x[3][3]);
    lemma_adjugate4_right_row2(x[0][0], x[0][1], x[0][2], x[0][3], x[1][0], x[1][1], x[1][2], x[1][3], x[2][0], x[2][1], x[2][2], x[2][3], x[3][0], x[3][1], x[3][2], x[3][3]);
    lemma_adjugate4_right_row3(x[0][0], x[0][1], x[0][2], x[0][3], x[1][0], x[1][1], x[1][2], x[1][3], x[2][0], x[2][1], x[2][2], x[2][3], x[3][0], x[3][1], x[3][2], x[3][3]);
    reveal_with_fuel(dot_upto, 5);
    assert(column(adj, 0) =~= seq![adj[0][0], adj[1][0], adj[2][0], adj[3][0]]);
    assert(column(adj, 1) =~= seq![adj[0][1], adj[1][1], adj[2][1], adj[3][1]]);
    assert(column(adj, 2) =~= seq![adj[0][2], adj[1][2], adj[2][2], adj[3][2]]);
    assert(column(adj, 3) =~= seq![adj[0][3], adj[1][3], adj[2][3], adj[3][3]]);
    let det = mdet4(x);
    lemma_mul_basics(det);
    assert(lhs[0][0] == rhs[0][0]);
    assert(lhs[0][1] == rhs[0][1]);
    assert(lhs[0][2] == rhs[0][2]);
    assert(lhs[0][3] == rhs[0][3]);
    assert(lhs[0] =~= rhs[0]);
    assert(lhs[1][0] == rhs[1][0]);
    assert(lhs[1][1] == rhs[1][1]);
    assert(lhs[1][2] == rhs[1][2]);
    assert(lhs[1][3] == rhs[1][3]);
    assert(lhs[1] =~= rhs[1]);
    assert(lhs[2][0] == rhs[2][0]);
    assert(lhs[2][1] == rhs[2][1]);
    assert(lhs[2][2] == rhs[2][2]);
    assert(lhs[2][3] == rhs[2][3]);
    assert(lhs[2] =~= rhs[2]);
    assert(lhs[3][0] == rhs[3][0]);
    assert(lhs[3][1] == rhs[3][1]);
    assert(lhs[3][2] == rhs[3][2]);
    assert(lhs[3][3] == rhs[3][3]);
    assert(lhs[3] =~= rhs[3]);
    assert(lhs =~= rhs);
}

/// The 4x4 determinant is its expansion along the first row with the 3x3 minors:
/// `det(x) == a * det(A) - b * det(B) + c * det(C) - d * det(D)`, where `A`..`D` are
/// `x` without its first row and the column of `a`..`d`.
pub proof fn law_det4_first_row(x: Seq<Seq<int>>)
    requires
        x.len() == 4,
        forall|r: int| 0 <= r < 4 ==> (#[trigger] x[r]).len() == 4,
    ensures
        mdet4(x) == x[0][0] * det3(x[1][1], x[1][2], x[1][3], x[2][1], x[2][2], x[2][3], x[3][1], x[3][2], x[3][3]) - x[0][1] * det3(x[1][0], x[1][2], x[1][3], x[2][0], x[2][2], x[2][3], x[3][0], x[3][2], x[3][3])
            + x[0][2] * det3(x[1][0], x[1][1], x[1][3], x[2][0], x[2][1], x[2][3], x[3][0], x[3][1], x[3][3]) - x[0][3] * det3(x[1][0], x[1][1], x[1][2], x[2][0], x[2][1], x[2][2], x[3][0], x[3][1], x[3][2]),
{
    lemma_det4_expanded(x[0][0], x[0][1], x[0][2], x[0][3], x[1][0], x[1][1], x[1][2], x[1][3], x[2][0], x[2][1], x[2][2], x[2][3], x[3][0], x[3][1], x[3][2], x[3][3]);
    lemma_adjugate4_right_row0(x[0][0], x[0][1], x[0][2], x[0][3], x[1][0], x[1][1], x[1][2], x[1][3], x[2][0], x[2][1], x[2][2], x[2][3], x[3][0], x[3][1], x[3][2], x[3][3]);
    lemma_times_neg(x[0][1], det3(x[1][0], x[1][2], x[1][3], x[2][0], x[2][2], x[2][3], x[3][0], x[3][2], x[3][3]));
    lemma_times_neg(x[0][3], det3(x[1][0], x[1][1], x[1][2], x[2][0], x[2][1], x[2][2], x[3][0], x[3][1], x[3][2]));
}

} // verus!
