use geometry::point::{Point2, Point3};
use geometry::translation::{Translation, Translation1, Translation2, Translation3, Translation6};

#[test]
fn translation_new_components_in_order() {
    assert_eq!(Translation1::new(1i64).vector, [1]);
    assert_eq!(Translation2::new(1i64, 2).vector, [1, 2]);
    assert_eq!(Translation6::new(1i64, 2, 3, 4, 5, 6).vector, [1, 2, 3, 4, 5, 6]);
}

#[test]
fn identity_translation_fixes_points() {
    let t = Translation::<i64, 2>::identity();
    let p = Point2::new(1i64, 2);
    assert_eq!(t.transform_point(&p), p);
    let t = Translation::<i64, 3>::identity();
    let p = Point3::new(1i64, 2, 3);
    assert_eq!(t.transform_point(&p), p);
    assert_eq!(Translation::<i64, 3>::one(), Translation3::new(0, 0, 0));
}

#[test]
fn translation_moves_points() {
    let t = Translation2::new(10i64, -3);
    assert_eq!(t.transform_point(&Point2::new(1, 2)), Point2::new(11, -1));
}

#[test]
fn translation_cast() {
    let t = Translation2::new(1i32, 2);
    assert_eq!(t.cast(), Translation2::new(1i64, 2));
}
