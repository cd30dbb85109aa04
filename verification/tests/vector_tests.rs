use vecmath::vector::{
    abs, all, any, clamp, cross, dot, eqcw, gecw, gtcw, lecw, ltcw, max, min, necw, Bool3, FromVec,
    Int3, IntoVec, Uint3, Vector,
};
use vecmath::LengthSq;

fn x_unit() -> Int3 {
    Int3::new([1, 0, 0])
}

fn y_unit() -> Int3 {
    Int3::new([0, 1, 0])
}

fn z_unit() -> Int3 {
    Int3::new([0, 0, 1])
}

fn xy() -> Int3 {
    Int3::new([1, 1, 0])
}

fn xyz() -> Int3 {
    Int3::new([1, 1, 1])
}

#[test]
fn vector_new() {
    let v = Vector::<i32, 10>::new([0; 10]);
    assert!(v == Vector::<i32, 10>::zero());
}

#[test]
fn length_sq1() {
    assert!(x_unit().length_sq() == 1);
}

#[test]
fn length_sq2() {
    assert!(Int3::zero().length_sq() == 0);
}

#[test]
fn length_sq3() {
    assert!(Int3::one().length_sq() == 3);
}

#[test]
fn cross_xy() {
    assert!(cross(&x_unit(), &y_unit()) == z_unit());
}

#[test]
fn cross_yz() {
    assert!(cross(&y_unit(), &z_unit()) == x_unit());
}

#[test]
fn cross_xz() {
    assert!(cross(&x_unit(), &z_unit()) == -y_unit());
}

#[test]
fn cross_xzz() {
    assert!(cross(&cross(&x_unit(), &z_unit()), &z_unit()) == -x_unit());
}

#[test]
fn dot_xy() {
    assert!(dot(&x_unit(), &y_unit()) == 0);
}

#[test]
fn dot_xz() {
    assert!(dot(&x_unit(), &z_unit()) == 0);
}

#[test]
fn dot_yz() {
    assert!(dot(&y_unit(), &z_unit()) == 0);
}

#[test]
fn dot_xx() {
    assert!(dot(&x_unit(), &x_unit()) == 1);
}

#[test]
fn negative() {
    assert!(-x_unit() == Int3::new([-1, 0, 0]));
}

#[test]
fn add_vec1() {
    assert!(x_unit() + y_unit() == xy());
}

#[test]
fn add_vec2() {
    assert!(x_unit() + y_unit() + z_unit() == xyz());
}

#[test]
fn sub_vec1() {
    assert!(xy() - y_unit() == x_unit());
}

#[test]
fn sub_vec2() {
    assert!(y_unit() - y_unit() == Int3::new([0; 3]));
}

#[test]
fn mul_vec1() {
    assert!(xyz() * xyz() == xyz());
}

#[test]
fn mul_vec2() {
    assert!(xyz() * -xyz() == -xyz());
}

#[test]
fn mul_vec3() {
    assert!(xyz() * x_unit() == x_unit());
}

#[test]
fn vector_add_scalar() {
    assert!(Int3::new([0; 3]) + 1 == xyz());
}

#[test]
fn vector_sub_scalar() {
    assert!(Int3::new([0; 3]) - 1 == -xyz());
}

#[test]
fn sub_scalar2() {
    assert!(1 - Int3::new([0; 3]) == xyz());
}

#[test]
fn vector_div_scalar() {
    assert!((xyz() + xyz()) / 2 == xyz());
}

#[test]
fn div_scalar2() {
    assert!(2 / xyz() == xyz() + xyz());
}

#[test]
fn vector_mul_scalar() {
    assert!((xyz() + xyz()) == 2 * xyz());
}

#[test]
fn product() {
    let v = Int3::new([1, 2, 3]);
    assert!(v.product() == 6);
}

#[test]
fn sum() {
    let v = Int3::new([1, 2, 3]);
    assert!(v.sum() == 6);
}

#[test]
fn min_test() {
    let v = Int3::new([1, 2, 3]);
    let w = Int3::new([1, 1, 1]);
    assert!(min(&v, &w) == Int3::one());
}

#[test]
fn max_test() {
    let v = Int3::new([1, 2, 3]);
    let w = Int3::new([1, 1, 1]);
    assert!(max(&v, &w) == v);
}

#[test]
fn abs_test() {
    let v = Int3::new([-1, 2, -3]);
    assert!(abs(&v) == Int3::new([1, 2, 3]));
}

#[test]
fn new_boolean() {
    let bv = Vector::<bool, 3>::new([true; 3]);
    assert!(bv.x());
    assert!(bv.y());
    assert!(bv.z());
    assert!(!bv.w());
}

#[test]
fn new_integer() {
    let uv = Vector::<u32, 3>::new([5; 3]);
    assert!(uv.x() == 5);
    assert!(uv.y() == 5);
    assert!(uv.z() == 5);
    assert!(uv.w() == 0);

    assert!((uv + uv).length_sq() == 300);
}

#[test]
fn test_lt1() {
    let v1 = Uint3::new([1; 3]);
    let v2 = Uint3::new([5; 3]);
    let ltv = ltcw(&v1, &v2);

    assert!(ltv[0]);
    assert!(ltv[1]);
    assert!(ltv[2]);
}

#[test]
fn test_lt2() {
    let v1 = Uint3::new([5; 3]);
    let v2 = Uint3::new([5; 3]);
    let ltv = ltcw(&v1, &v2);

    assert!(!ltv[0]);
    assert!(!ltv[1]);
    assert!(!ltv[2]);
}

#[test]
fn test_le1() {
    let v1 = Int3::new([-1; 3]);
    let v2 = Int3::new([-5; 3]);
    let ltv = lecw(&v1, &v2);

    assert!(!ltv[0]);
    assert!(!ltv[1]);
    assert!(!ltv[2]);
}

#[test]
fn test_le2() {
    let v1 = Int3::new([-1; 3]);
    let v2 = Int3::new([-1; 3]);
    let ltv = lecw(&v1, &v2);

    assert!(ltv[0]);
    assert!(ltv[1]);
    assert!(ltv[2]);
}

#[test]
fn test_ge1() {
    let v1 = Int3::new([-1; 3]);
    let v2 = Int3::new([-5; 3]);
    let ltv = gecw(&v1, &v2);

    assert!(ltv[0]);
    assert!(ltv[1]);
    assert!(ltv[2]);
}

#[test]
fn test_ge2() {
    let v1 = Int3::new([-1; 3]);
    let v2 = Int3::new([-1; 3]);
    let ltv = gecw(&v1, &v2);

    assert!(ltv[0]);
    assert!(ltv[1]);
    assert!(ltv[2]);
}

#[test]
fn test_eq1() {
    let v1 = Int3::new([-1; 3]);
    let v2 = Int3::new([-1; 3]);
    let ltv = eqcw(&v1, &v2);

    assert!(ltv[0]);
    assert!(ltv[1]);
    assert!(ltv[2]);
}

#[test]
fn test_eq2() {
    let v1 = Int3::new([-1, -5, 16]);
    let v2 = Int3::new([-1, -5, 15]);
    let ltv = eqcw(&v1, &v2);

    assert!(ltv[0]);
    assert!(ltv[1]);
    assert!(!ltv[2]);
}

#[test]
fn test_ne1() {
    let v1 = Int3::new([-1; 3]);
    let v2 = Int3::new([-1; 3]);
    let ltv = necw(&v1, &v2);

    assert!(!ltv[0]);
    assert!(!ltv[1]);
    assert!(!ltv[2]);
}

#[test]
fn test_ne2() {
    let v1 = Int3::new([-1, -5, 16]);
    let v2 = Int3::new([-1, -5, 15]);
    let ltv = necw(&v1, &v2);

    assert!(!ltv[0]);
    assert!(!ltv[1]);
    assert!(ltv[2]);
}

#[test]
fn test_all1() {
    let v1 = Int3::new([-1, -5, 16]);
    let v2 = Int3::new([-1, -5, 16]);
    assert!(all(&eqcw(&v1, &v2)));
}

#[test]
fn test_all2() {
    assert!(all(&Bool3::new([true; 3])));
}

#[test]
fn test_all3() {
    assert!(!all(&Bool3::new([true, true, false])));
}

#[test]
fn test_all4() {
    assert!(!all(&Bool3::new([true, false, false])));
}

#[test]
fn test_any1() {
    let v1 = Int3::new([-1, -5, 16]);
    let v2 = Int3::new([-1, -5, 16]);
    assert!(any(&eqcw(&v1, &v2)));
}

#[test]
fn test_any2() {
    assert!(any(&Bool3::new([true; 3])));
}

#[test]
fn test_any3() {
    assert!(any(&Bool3::new([true, true, false])));
}

#[test]
fn test_any4() {
    assert!(any(&Bool3::new([true, false, false])));
}

#[test]
fn test_any5() {
    assert!(!any(&Bool3::new([false; 3])));
}

#[test]
fn clamp1() {
    let v1 = Int3::new([0, 0, 0]);
    let min = Int3::new([-1, -1, -1]);
    let max = Int3::new([1, 1, 1]);

    assert!(all(&eqcw(&v1, &clamp(&v1, &min, &max))));
}

#[test]
fn clamp2() {
    let v1 = Int3::new([-5, -5, -5]);
    let min = Int3::new([-1, -1, -1]);
    let max = Int3::new([1, 1, 1]);

    assert!(all(&eqcw(&min, &clamp(&v1, &min, &max))));
}

#[test]
fn clamp3() {
    let v1 = Int3::new([5, 5, 5]);
    let min = Int3::new([-1, -1, -1]);
    let max = Int3::new([1, 1, 1]);

    assert!(all(&eqcw(&max, &clamp(&v1, &min, &max))));
}

#[test]
fn clamp4() {
    let v1 = Int3::new([5, 0, 2]);
    let min = Int3::new([-1, -1, -10]);
    let max = Int3::new([1, 1, 2]);

    assert!(all(&eqcw(&Int3::new([1, 0, 2]), &clamp(&v1, &min, &max))));
}

#[test]
fn test_from_iter1() {
    let vec = Int3::from_iter(0..5);
    assert!(vec[0] == 0);
    assert!(vec[1] == 1);
    assert!(vec[2] == 2);
}

#[test]
fn test_from_iter2() {
    let values = [0, 1, 2];
    let iter = values.iter();
    let vec = Int3::from_iter(iter);
    assert!(vec[0] == 0);
    assert!(vec[1] == 1);
    assert!(vec[2] == 2);
}

#[test]
fn test_from_iter3() {
    let mut values = [0, 1, 2];
    let iter = values.iter_mut();
    let vec = Int3::from_iter(iter);
    assert!(vec[0] == 0);
    assert!(vec[1] == 1);
    assert!(vec[2] == 2);
}

// ---------------------------------------------------------------
// Further cases
// ---------------------------------------------------------------

#[test]
fn from_iter_short_fills_default() {
    let vec = Int3::from_iter(7..8);
    assert_eq!(vec, Int3::new([7, 0, 0]));
}

#[test]
fn gt_is_swapped_lt() {
    let v1 = Int3::new([5, 2, 1]);
    let v2 = Int3::new([1, 2, 3]);
    let gt = gtcw(&v1, &v2);
    assert!(gt[0]);
    assert!(!gt[1]);
    assert!(!gt[2]);
    assert_eq!(gt, ltcw(&v2, &v1));
}

#[test]
fn from_vec_grow_and_shrink() {
    let v = Int3::new([4, 5, 6]);
    let grown: Vector<i32, 5> = Vector::from_vec(v);
    assert_eq!(grown, Vector::new([4, 5, 6, 0, 0]));
    let back: Int3 = grown.into_vec();
    assert_eq!(back, v);
    let shrunk: Vector<i32, 2> = Vector::from_vec(&v);
    assert_eq!(shrunk, Vector::new([4, 5]));
}

#[test]
fn array_round_trip() {
    let v = Int3::from([3, -4, 5]);
    let a: [i32; 3] = v.into();
    assert_eq!(a, [3, -4, 5]);
    let b: [i32; 3] = (&v).into();
    assert_eq!(b, a);
    assert_eq!(Int3::from(&a), v);
}

#[test]
fn z_and_w_default_when_missing() {
    let v = Vector::<i64, 2>::new([9, 8]);
    assert_eq!(v.z(), 0);
    assert_eq!(v.w(), 0);
    assert_eq!(v.dim(), 2);
    assert_eq!(v.to_point4(), Vector::new([9, 8, 0, 1]));
}

#[test]
fn axes() {
    assert_eq!(Int3::x_axis(), x_unit());
    assert_eq!(Int3::y_axis(), y_unit());
    assert_eq!(Int3::z_axis(), z_unit());
}

#[test]
fn truncating_division() {
    let v = Int3::new([-7, 7, -8]);
    assert_eq!(v / 2, Int3::new([-3, 3, -4]));
    assert_eq!(v / Int3::new([-2, -2, 3]), Int3::new([3, -3, -2]));
}

#[test]
fn scalar_ops_on_left() {
    let v = Vector::<u64, 3>::new([1, 2, 4]);
    assert_eq!(8 / v, Vector::new([8, 4, 2]));
    assert_eq!(10 - v, Vector::new([9, 8, 6]));
    assert_eq!(3 + v, Vector::new([4, 5, 7]));
    assert_eq!(&2u64 * &v, Vector::new([2, 4, 8]));
}

#[test]
fn boolean_ops() {
    let a = Bool3::new([true, false, true]);
    let b = Bool3::new([true, true, false]);
    assert_eq!(a & b, Bool3::new([true, false, false]));
    assert_eq!(a | b, Bool3::new([true, true, true]));
    assert_eq!(a ^ b, Bool3::new([false, true, true]));
    assert_eq!(!a, Bool3::new([false, true, false]));
    assert_eq!(a & false, Bool3::new([false; 3]));
    assert_eq!(true ^ a, Bool3::new([false, true, false]));
}

#[test]
fn in_place_ops() {
    let mut v = Int3::new([1, 2, 3]);
    v.add_assign(&Int3::new([1, 1, 1]));
    assert_eq!(v, Int3::new([2, 3, 4]));
    v.mul_assign(&Int3::new([2, 2, 2]));
    assert_eq!(v, Int3::new([4, 6, 8]));
    v.sub_assign(&Int3::new([4, 4, 4]));
    assert_eq!(v, Int3::new([0, 2, 4]));
    v.div_assign(&Int3::new([1, 2, 4]));
    assert_eq!(v, Int3::new([0, 1, 1]));
}

#[test]
fn default_and_iter() {
    let v: Int3 = Default::default();
    assert_eq!(v, Int3::zero());
    let w = Int3::new([3, 1, 2]);
    let collected: Vec<i32> = w.iter().copied().collect();
    assert_eq!(collected, vec![3, 1, 2]);
}

#[test]
fn orthogonal_cross() {
    let a = Int3::new([2, -3, 5]);
    let b = Int3::new([7, 1, -4]);
    let c = cross(&a, &b);
    assert_eq!(c, Int3::new([7, 43, 23]));
    assert_eq!(dot(&a, &c), 0);
    assert_eq!(dot(&b, &c), 0);
    assert_eq!(cross(&b, &a), -c);
}

#[test]
fn iterate_by_value() {
    let v = Vector::<u32, 4>::new([0, 1, 2, 3]);
    for (i, c) in v.to_array().into_iter().enumerate() {
        assert!(c == i as u32)
    }
}

#[test]
fn iterate_by_ref() {
    let v = Vector::<u32, 4>::new([0, 1, 2, 3]);
    for (i, &c) in v.iter().enumerate() {
        assert!(c == i as u32)
    }
    assert!(v.iter().count() == 4);
}

#[test]
fn iterate_by_mut_ref() {
    let mut v = Vector::<u32, 4>::new([0, 1, 2, 3]);
    for (i, &mut c) in v.iter_mut().enumerate() {
        assert!(c == i as u32)
    }
    for c in v.iter_mut() {
        *c += 10;
    }
    assert!(v == Vector::new([10, 11, 12, 13]));
}

#[test]
fn narrow_and_wide_component_types() {
    let a = Vector::<u8, 3>::new([1, 2, 250]);
    assert_eq!(a + 5u8, Vector::new([6, 7, 255]));
    assert_eq!(2u8 * Vector::<u8, 2>::new([3, 100]), Vector::new([6, 200]));
    let b = Vector::<i8, 2>::new([-128, 127]);
    assert_eq!(b / -2i8, Vector::new([64, -63]));
    let c = Vector::<i128, 3>::new([1, -2, 3]);
    assert_eq!(dot(&c, &c), 14i128);
    assert_eq!(cross(&c, &Vector::new([0, 0, 1])), Vector::new([-2, -1, 0]));
    let d = Vector::<usize, 2>::new([3, 4]);
    assert_eq!(d.sum(), 7usize);
    assert_eq!(-Vector::<i16, 2>::new([300, -5]), Vector::new([-300, 5]));
    assert_eq!(Vector::<isize, 2>::new([-3, 4]) - 1isize, Vector::new([-4, 3]));
    assert_eq!(Vector::<u16, 2>::new([7, 9]).product(), 63u16);
    assert_eq!(Vector::<u128, 2>::new([7, 9]) - Vector::new([7, 0]), Vector::new([0, 9]));
}
