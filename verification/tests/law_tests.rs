use vecmath::vector::{abs, all, any, clamp, dot, eqcw, max, min, necw, Bool4, FromVec, Int3, Int4, Vector};
use vecmath::LengthSq;

#[test]
fn dot_is_commutative() {
    let a = Int4::new([3, -1, 4, 1]);
    let b = Int4::new([-5, 9, 2, 6]);
    assert_eq!(dot(&a, &b), dot(&b, &a));
    assert_eq!(dot(&a, &b), -10);
}

#[test]
fn length_sq_is_zero_only_for_zero() {
    assert_eq!(Int3::new([-2, 0, 3]).length_sq(), 13);
    assert_eq!(Int3::zero().length_sq(), 0);
    assert!(Int3::new([0, 0, -1]).length_sq() > 0);
}

#[test]
fn add_then_sub_gives_back() {
    let a = Int4::new([3, -1, 4, 1]);
    let b = Int4::new([-5, 9, 2, 6]);
    assert_eq!((a + b) - b, a);
}

#[test]
fn double_negation() {
    let a = Int4::new([3, -1, 4, 0]);
    assert_eq!(-(-a), a);
    let p = Bool4::new([true, false, false, true]);
    assert_eq!(!(!p), p);
}

#[test]
fn abs_ignores_sign() {
    let a = Int4::new([3, -1, 4, 0]);
    assert_eq!(abs(&-a), abs(&a));
    assert_eq!(abs(&a), Int4::new([3, 1, 4, 0]));
}

#[test]
fn min_and_max_split_the_pair() {
    let a = Int4::new([3, -1, 4, 1]);
    let b = Int4::new([-5, 9, 4, 6]);
    assert_eq!(min(&a, &b) + max(&a, &b), a + b);
    assert_eq!(min(&a, &b), min(&b, &a));
    assert_eq!(max(&a, &b), max(&b, &a));
    assert_eq!(min(&a, &b), Int4::new([-5, -1, 4, 1]));
}

#[test]
fn clamp_lands_between_bounds() {
    let lo = Int3::new([0, 0, 0]);
    let hi = Int3::new([10, 10, 10]);
    assert_eq!(clamp(&Int3::new([-4, 5, 12]), &lo, &hi), Int3::new([0, 5, 10]));
    assert_eq!(clamp(&Int3::new([1, 2, 3]), &lo, &hi), Int3::new([1, 2, 3]));
}

#[test]
fn twice_is_sum_with_itself() {
    let a = Int4::new([3, -1, 4, 1]);
    assert_eq!(2 * a, a + a);
}

#[test]
fn division_undoes_multiplication() {
    let a = Int4::new([3, -1, 4, -7]);
    assert_eq!((a * -3) / -3, a);
    assert_eq!((a * 5) / 5, a);
}

#[test]
fn all_is_not_any_of_negation() {
    let p = Bool4::new([true, false, true, true]);
    assert_eq!(all(&p), !any(&!p));
    assert_eq!(any(&p), !all(&!p));
    let q = Bool4::new([true; 4]);
    assert_eq!(all(&q), !any(&!q));
}

#[test]
fn equality_is_symmetric() {
    let a = Int4::new([3, -1, 4, 1]);
    let b = Int4::new([3, 9, 4, 6]);
    assert_eq!(eqcw(&a, &b), eqcw(&b, &a));
    assert_eq!(necw(&a, &b), necw(&b, &a));
    assert!(all(&eqcw(&a, &a)));
}

#[test]
fn resize_and_back() {
    let a = Int3::new([3, -1, 4]);
    let big: Vector<i32, 6> = FromVec::from_vec(a);
    let back: Int3 = FromVec::from_vec(big);
    assert_eq!(back, a);
}

#[test]
fn resize_from_mutable_reference() {
    let mut a = Int3::new([3, -1, 4]);
    let big: Int4 = FromVec::from_vec(&mut a);
    assert_eq!(big, Int4::new([3, -1, 4, 0]));
    assert_eq!(a, Int3::new([3, -1, 4]));
}
