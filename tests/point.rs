use geometry::point::{Point, Point1, Point2, Point3, Point4, Point5, Point6};
use geometry::translation::{Translation, Translation2, Translation3};

#[test]
fn new_components_read_back_in_order() {
    let p = Point1::new(7i64);
    assert_eq!(p.coordinate(0), 7);
    let p = Point2::new(1i64, 2);
    assert_eq!((p.coordinate(0), p.coordinate(1)), (1, 2));
    let p = Point3::new(1i64, 2, 3);
    assert_eq!(p.coords, [1, 2, 3]);
    let p = Point4::new(1i64, 2, 3, 4);
    assert_eq!(p.coordinate(3), 4);
    let p = Point5::new(1i64, 2, 3, 4, 5);
    assert_eq!(p.coordinate(4), 5);
    let p = Point6::new(1i64, 2, 3, 4, 5, 6);
    for i in 0..6 {
        assert_eq!(p.coordinate(i), i as i64 + 1);
    }
}

#[test]
fn from_slice_copies_in_order() {
    let data = [1i64, 2, 3];
    assert_eq!(Point2::from_slice(&data[..2]), Point2::new(1, 2));
    assert_eq!(Point3::from_slice(&data), Point3::new(1, 2, 3));
}

#[test]
fn from_array_keeps_order() {
    let p: Point3<i64> = Point::from([4i64, 5, 6]);
    assert_eq!(p, Point3::new(4, 5, 6));
    let t: Translation2<i64> = Translation::from([8i64, 9]);
    assert_eq!(t, Translation2::new(8, 9));
}

#[test]
fn origin_equals_slice_of_zeros() {
    assert_eq!(Point::<i64, 2>::origin(), Point2::from_slice(&[0, 0]));
    assert_eq!(Point::<i64, 3>::origin(), Point3::from_slice(&[0, 0, 0]));
    assert_eq!(Point::<i64, 6>::origin(), Point6::from_slice(&[0; 6]));
}

#[test]
fn from_homogeneous_divides_by_last() {
    assert_eq!(Point::<i64, 3>::from_homogeneous(&[1, 2, 3, 1]), Some(Point3::new(1, 2, 3)));
    assert_eq!(Point::<i64, 3>::from_homogeneous(&[2, 4, 6, 2]), Some(Point3::new(1, 2, 3)));
    assert_eq!(Point::<i64, 2>::from_homogeneous(&[1, 2, 1]), Some(Point2::new(1, 2)));
}

#[test]
fn from_homogeneous_rounds_toward_zero() {
    assert_eq!(Point::<i64, 2>::from_homogeneous(&[7, -7, 2]), Some(Point2::new(3, -3)));
}

#[test]
fn from_homogeneous_zero_divisor_is_none() {
    assert_eq!(Point::<i64, 3>::from_homogeneous(&[1, 2, 3, 0]), None);
    assert_eq!(Point::<i64, 2>::from_homogeneous(&[0, 0, 0]), None);
    assert_eq!(Point::<i64, 1>::from_homogeneous(&[i64::MAX, 0]), None);
}

#[test]
fn from_homogeneous_round_trip() {
    let p = Point3::new(3i64, -5, 7);
    for k in [1i64, -1, 4, -4, 1000] {
        let v = [p.coords[0] * k, p.coords[1] * k, p.coords[2] * k, k];
        assert_eq!(Point::<i64, 3>::from_homogeneous(&v), Some(p));
    }
}

#[test]
fn bounds_fill_every_coordinate() {
    assert_eq!(Point::<i64, 3>::max_value().coords, [i64::MAX; 3]);
    assert_eq!(Point::<i64, 2>::min_value().coords, [i64::MIN; 2]);
}

#[test]
fn cast_widens_and_narrows() {
    let p = Point2::new(1i32, -2);
    let wide: Point2<i64> = p.cast();
    assert_eq!(wide, Point2::new(1i64, -2));
    let back: Point2<i32> = wide.cast();
    assert_eq!(back, p);
}

#[test]
fn cast_round_trip_at_extremes() {
    let p = Point3::new(i32::MIN, 0, i32::MAX);
    assert_eq!(p.cast().cast(), p);
    let t = Translation3::new(i32::MAX, -1, i32::MIN);
    assert_eq!(t.cast().cast(), t);
}

#[test]
fn narrowing_cast_keeps_low_bits() {
    let p = Point2::new(4_294_967_297i64, -4_294_967_296);
    assert_eq!(p.cast(), Point2::new(1i32, 0));
}
