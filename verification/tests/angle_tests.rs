use vecmath::angle::Angle;

#[test]
fn angle_new() {
    let angle = Angle::<i64>::new();
    assert!(matches!(angle, Angle::Radians(0)));
}

#[test]
fn inner_test() {
    let value = 5.0;
    let angle = Angle::Radians(value);
    assert!(angle.inner() == value);
}

#[test]
fn inner_of_each_unit() {
    assert_eq!(Angle::Degrees(90).inner(), 90);
    assert_eq!(Angle::Turns(3u32).inner(), 3);
    assert_eq!(Angle::<i32>::default().inner(), 0);
}
