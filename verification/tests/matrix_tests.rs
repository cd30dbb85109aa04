use vecmath::matrix::Matrix;
use vecmath::vector::{Int2, Int3, Int4, Vector};

type IMat22 = Matrix<i32, 2, 2>;
type IMat33 = Matrix<i32, 3, 3>;
type IMat44 = Matrix<i32, 4, 4>;

fn m1() -> IMat22 {
    Matrix::new([[1, 2], [2, 1]])
}

fn m2() -> IMat22 {
    Matrix::new([[3, 4], [4, 3]])
}

fn counting44() -> IMat44 {
    Matrix::new([[1, 2, 3, 4], [5, 6, 7, 8], [9, 10, 11, 12], [13, 14, 15, 16]])
}

#[test]
fn zero() {
    let m = IMat44::zero();
    assert!(m == Matrix::new([[0; 4]; 4]));
}

#[test]
fn identity() {
    let m = IMat44::identity();
    for r in 0..4 {
        for c in 0..4 {
            if r == c {
                assert!(m[r][c] == 1);
            } else {
                assert!(m[r][c] == 0);
            }
        }
    }
}

#[test]
fn transpose1() {
    let m = Matrix::<i32, 4, 10>::identity();
    let mt = m.transpose();
    for r in 0..10 {
        for c in 0..4 {
            if r == c {
                assert!(m[c][r] == 1);
                assert!(mt[r][c] == 1);
            } else {
                assert!(m[c][r] == 0);
                assert!(mt[r][c] == 0);
            }
        }
    }
}

#[test]
fn transpose2() {
    let m = counting44();
    for (i, item) in m.transpose().iter().enumerate() {
        let j = i / 4;
        let k = i & 3;
        assert!(item == m[k][j]);
    }
}

#[test]
fn transpose3() {
    let m = counting44();
    let mtt = m.transpose().transpose();
    assert!(m == mtt);
}

#[test]
fn transpose_mul_vec() {
    let m = counting44();
    let v = Int4::one();
    let v2 = m.transpose() * v;
    assert!(v2.x() == 28);
    assert!(v2.y() == 32);
    assert!(v2.z() == 36);
    assert!(v2.w() == 40);
}

#[test]
fn vec_mul_transpose() {
    let m = counting44();
    let v = Int4::one();
    let v2 = v * m.transpose();
    assert!(v2.x() == 10);
    assert!(v2.y() == 26);
    assert!(v2.z() == 42);
    assert!(v2.w() == 58);
}

#[test]
fn set_row() {
    let mut m = counting44();
    let m2 = m;
    m.set_row_vec(0, &Int4::zero());
    assert!(m[0] == [0; 4]);
    assert!(m[1] == m2[1]);
    assert!(m[2] == m2[2]);
    assert!(m[3] == m2[3]);
}

#[test]
fn set_col() {
    let mut m = counting44();
    m.set_col(0, &[0; 4]);
    let m2: IMat44 = m.transpose();
    let row = Int4::new([2, 6, 10, 14]);
    assert!(m2.rv(0) == Int4::new([0; 4]));
    assert!(m2.rv(1) == row);
    assert!(m2.rv(2) == row + 1);
    assert!(m2.rv(3) == row + 2);
}

#[test]
fn mat44_rv() {
    let mut m = counting44();
    let m2 = m;
    let vec = Int4::new([4, 3, 2, 1]);
    m.srv(0, &vec);
    assert!(m.rv(0) == vec);
    assert!(m.rv::<4>(1) == m2.rv(1));
    assert!(m.rv::<4>(2) == m2.rv(2));
    assert!(m.rv::<4>(3) == m2.rv(3));
    let m2 = Matrix::new([[4, 3, 2, 1], [5, 6, 7, 8], [9, 10, 11, 12], [13, 14, 15, 16]]);
    assert!(m == m2);
}

#[test]
fn mat44_cv() {
    let mut m = counting44();
    let m2 = m;
    let vec = Int4::new([4, 3, 2, 1]);
    m.scv(0, &vec);
    assert!(m.cv(0) == vec);
    assert!(m.cv::<4>(1) == m2.cv(1));
    assert!(m.cv::<4>(2) == m2.cv(2));
    assert!(m.cv::<4>(3) == m2.cv(3));
    let m2 = Matrix::new([[4, 2, 3, 4], [3, 6, 7, 8], [2, 10, 11, 12], [1, 14, 15, 16]]);
    assert!(m == m2);
}

#[test]
fn index() {
    let data = [[1, -1, -1, 1], [1, 2, -1, -1], [-1, 1, 3, -1], [1, -1, 1, 4]];
    let m = IMat44::new(data);
    for r in 0..4 {
        for c in 0..4 {
            assert!(m[r][c] == m.to_arrays()[r][c]);
            assert!(m.get(r, c) == data[r][c]);
        }
    }
}

#[test]
fn set_one_entry() {
    let mut m = IMat44::zero();
    m.set(3, 3, 666);
    for r in 0..4 {
        for c in 0..4 {
            if r == 3 && c == 3 {
                assert!(m[r][c] == 666);
            } else {
                assert!(m[r][c] == 0);
            }
        }
    }
}

#[test]
fn add() {
    assert!(m1() + m2() == Matrix::new([[4, 6], [6, 4]]));
}

#[test]
fn sub() {
    assert!(m1() - m2() == Matrix::new([[-2, -2], [-2, -2]]));
}

#[test]
fn mul() {
    assert!(m1() * m2() == Matrix::new([[11, 10], [10, 11]]));
}

#[test]
fn add_scalar() {
    assert!(m1() + 1 == Matrix::new([[2, 3], [3, 2]]));
}

#[test]
fn sub_scalar() {
    assert!(m1() - 1 == Matrix::new([[0, 1], [1, 0]]));
}

#[test]
fn mul_scalar() {
    assert!(m1() * 2 == Matrix::new([[2, 4], [4, 2]]));
}

#[test]
fn div_scalar() {
    assert!(Matrix::new([[2, 4], [4, 2]]) / 2 == m1());
    assert!(Matrix::new([[-7, 7], [5, -5]]) / 2 == Matrix::new([[-3, 3], [2, -2]]));
}

#[test]
fn mul_vector1() {
    let v1 = Int2::new([4, 5]);
    assert!(m1() * v1 == Int2::new([14, 13]));
}

#[test]
fn mul_vector2() {
    let v1 = Int2::new([4, 5]);
    assert!(v1 * m1().transpose() == Int2::new([14, 13]));
}

#[test]
fn mul_vector3() {
    let v1 = Int2::new([4, 5]);
    assert!(v1 * IMat22::identity() == v1);
    assert!(IMat22::identity() * v1 == v1);
}

#[test]
fn neg() {
    assert!(-Matrix::new([[-1, -2], [-2, -1]]) == m1());
}

#[test]
fn scale() {
    let v1 = Int4::new([2, 1, -2, 0]);
    let v2 = Int4::new([20, 10, -20, 0]);
    let scale = Int3::new([10, 10, 10]);
    let m = IMat44::scale(&scale);
    assert!(m * v1 == v2);
}

#[test]
fn translate1() {
    let v1 = Int3::new([2, 1, -2]);
    let translation = Int3::new([10, 10, 10]);
    let m = IMat44::translate(&translation);
    let v4: Int4 = vecmath::vector::FromVec::from_vec(v1);
    assert!(m * v4 == v4);
}

#[test]
fn translate2() {
    let v1 = Int3::new([2, 1, -2]);
    let v2 = Int3::new([12, 11, 8]);
    let translation = Int3::new([10, 10, 10]);
    let m = IMat44::translate(&translation);
    assert!(m * v1.to_point4() == v2.to_point4());
}

#[test]
fn mat_ab_mul_mat_bc() {
    let ab = Matrix::<i32, 3, 2>::new([[1, 2], [3, 4], [5, 6]]);
    let bc = Matrix::<i32, 2, 4>::new([[1, 2, 3, 4], [5, 6, 7, 8]]);
    let ac: Matrix<i32, 3, 4> = ab * bc;
    let result_arr = [[11, 14, 17, 20], [23, 30, 37, 44], [35, 46, 57, 68]];
    assert!(ac.to_arrays() == result_arr);
}

#[test]
fn mat_ab_mul_transpose_bc() {
    let ab = Matrix::<i32, 3, 2>::new([[1, 2], [3, 4], [5, 6]]);
    let bc = Matrix::<i32, 4, 2>::new([[1, 5], [2, 6], [3, 7], [4, 8]]).transpose();
    let ac: Matrix<i32, 3, 4> = ab * bc;
    let result_arr = [[11, 14, 17, 20], [23, 30, 37, 44], [35, 46, 57, 68]];
    assert!(ac.to_arrays() == result_arr);
}

#[test]
fn mat44_to_mat33_1() {
    let mut mat = IMat44::identity();
    mat.srv(2, &Int4::x_axis());
    mat.set(0, 2, 55);
    let mat = IMat33::from(mat);
    assert!(mat.rv(0) == Int3::new([1, 0, 55]));
    assert!(mat.rv(1) == Int3::new([0, 1, 0]));
    assert!(mat.rv(2) == Int3::new([1, 0, 0]));
}

#[test]
fn mat44_to_mat33_2() {
    let mut mat = IMat44::identity();
    mat.srv(2, &Int4::x_axis());
    mat.set(0, 2, 55);
    let mat = IMat33::from(&mat);
    assert!(mat.rv(0) == Int3::new([1, 0, 55]));
    assert!(mat.rv(1) == Int3::new([0, 1, 0]));
    assert!(mat.rv(2) == Int3::new([1, 0, 0]));
}

#[test]
fn mat33_to_mat44_1() {
    let mut mat = IMat33::identity();
    mat.srv(1, &Int3::x_axis());
    mat.set(0, 2, 55);
    let mat = IMat44::from(mat);
    assert!(mat.rv(0) == Int4::new([1, 0, 55, 0]));
    assert!(mat.rv(1) == Int4::new([1, 0, 0, 0]));
    assert!(mat.rv(2) == Int4::new([0, 0, 1, 0]));
    assert!(mat.rv(3) == Int4::new([0, 0, 0, 1]));
}

#[test]
fn mat33_to_mat44_2() {
    let mut mat = IMat33::identity();
    mat.srv(1, &Int3::x_axis());
    mat.set(0, 2, 55);
    let mat = IMat44::from(&mat);
    assert!(mat.rv(0) == Int4::new([1, 0, 55, 0]));
    assert!(mat.rv(1) == Int4::new([1, 0, 0, 0]));
    assert!(mat.rv(2) == Int4::new([0, 0, 1, 0]));
    assert!(mat.rv(3) == Int4::new([0, 0, 0, 1]));
}

#[test]
fn determinants() {
    assert!(IMat22::determinant_2x2(1, 2, 3, 4) == -2);
    assert!(m1().determinant() == -3);
    let m = IMat33::new([[2, 0, 1], [1, 3, 2], [1, 1, 2]]);
    assert!(m.determinant() == 6);
    assert!(IMat33::determinant_3x3(2, 0, 1, 1, 3, 2, 1, 1, 2) == 6);
    assert!(m.transpose().determinant() == 6);
    let m4 = IMat44::new([[1, 0, 2, -1], [3, 0, 0, 5], [2, 1, 4, -3], [1, 0, 5, 0]]);
    assert!(m4.determinant() == 30);
    assert!(m4.transpose().determinant() == 30);
    assert!(counting44().determinant() == 0);
    assert!(IMat44::identity().determinant() == 1);
}

#[test]
fn adjugate_times_matrix_is_determinant() {
    let m = IMat33::new([[2, 0, 1], [1, 3, 2], [1, 1, 2]]);
    let adj = m.cofactor_transpose();
    assert!(adj == Matrix::new([[4, 1, -3], [0, 3, -3], [-2, -2, 6]]));
    assert!(adj * m == IMat33::identity() * m.determinant());
    assert!(m * adj == IMat33::identity() * 6);
    let m4 = IMat44::new([[1, 0, 2, -1], [3, 0, 0, 5], [2, 1, 4, -3], [1, 0, 5, 0]]);
    let adj4 = m4.cofactor_transpose();
    assert!(adj4 * m4 == IMat44::identity() * m4.determinant());
    assert!(m4 * adj4 == IMat44::identity() * 30);
}

#[test]
fn matrix_default_is_zero() {
    let m: IMat33 = Default::default();
    assert!(m == IMat33::zero());
}

#[test]
fn row_and_column_vectors() {
    let m = counting44();
    assert!(m.row_vec(1) == Int4::new([5, 6, 7, 8]));
    assert!(m.col(2) == [3, 7, 11, 15]);
    assert!(m.rv::<2>(3) == Int2::new([13, 14]));
    let wide: Vector<i32, 6> = m.cv(1);
    assert!(wide == Vector::new([2, 6, 10, 14, 0, 0]));
    assert!(m.row(2) == &[9, 10, 11, 12]);
}

#[test]
fn iter_row_major() {
    let m = Matrix::<i32, 2, 3>::new([[1, 2, 3], [4, 5, 6]]);
    let v: Vec<i32> = m.iter().collect();
    assert!(v == vec![1, 2, 3, 4, 5, 6]);
}

#[test]
fn transpose_of_product() {
    let a = Matrix::<i32, 3, 2>::new([[1, -2], [3, 4], [0, 6]]);
    let b = Matrix::<i32, 2, 4>::new([[1, 2, -3, 4], [5, 0, 7, 8]]);
    let ab: Matrix<i32, 3, 4> = a * b;
    let rhs: Matrix<i32, 4, 3> = b.transpose() * a.transpose();
    assert!(ab.transpose() == rhs);
}

#[test]
fn identity_is_neutral() {
    let a = Matrix::<i32, 3, 2>::new([[1, -2], [3, 4], [0, 6]]);
    let left: Matrix<i32, 3, 2> = Matrix::<i32, 3, 3>::identity() * a;
    let right: Matrix<i32, 3, 2> = a * Matrix::<i32, 2, 2>::identity();
    assert!(left == a);
    assert!(right == a);
}

#[test]
fn embed_then_upper_roundtrip() {
    let m = IMat33::new([[2, 0, 1], [1, 3, 2], [1, 1, 2]]);
    let big = IMat44::from(m);
    assert!(big == Matrix::new([[2, 0, 1, 0], [1, 3, 2, 0], [1, 1, 2, 0], [0, 0, 0, 1]]));
    assert!(IMat33::from(big) == m);
}
