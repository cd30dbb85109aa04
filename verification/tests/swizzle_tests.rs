use vecmath::vector::{Int2, Int3, Int4};

#[test]
fn xx() {
    let v = Int2::new([0, 1]);
    let v = v.xx();
    assert!(v.x() == 0);
    assert!(v.y() == 0);
}

#[test]
fn yy() {
    let v = Int4::new([0, 1, 0, 0]);
    let v: Int2 = v.yy();
    assert!(v.x() == 1);
    assert!(v.y() == 1);
}

#[test]
fn yx() {
    let v = Int3::new([0, 1, 0]);
    let v: Int2 = v.yx();
    assert!(v.x() == 1);
    assert!(v.y() == 0);
}

#[test]
fn xwy() {
    let v = Int2::new([-25, 10]);
    let v: Int3 = v.xwy();
    assert!(v.x() == -25);
    assert!(v.y() == 0);
    assert!(v.z() == 10);
}

#[test]
fn xxxx() {
    let v = Int2::new([-25, 10]);
    let v: Int4 = v.xxxx();
    assert!(v.x() == -25);
    assert!(v.y() == -25);
    assert!(v.z() == -25);
    assert!(v.w() == -25);
}

#[test]
fn wzyx_reverses() {
    let v = Int4::new([1, 2, 3, 4]);
    assert!(v.wzyx() == Int4::new([4, 3, 2, 1]));
    assert!(v.zyx() == Int3::new([3, 2, 1]));
}
