use geometry::point::{Point, Point2, Point3};
use geometry::rotation::{AbstractRotation, Rotation2, Rotation3, UnitComplex};
use geometry::similarity::{Isometry, Similarity, Similarity2, Similarity3, SimilarityMatrix2};
use geometry::translation::{Translation2, Translation3};

#[test]
fn identity_similarity_fixes_points_and_vectors() {
    let sim = Similarity2::identity();
    let pt = Point2::new(1i64, 2);
    assert_eq!(sim.transform_point(&pt), pt);
    assert_eq!(sim.transform_vector(&[1, 2]), [1, 2]);
    let sim = Similarity3::identity();
    let pt = Point3::new(1i64, 2, 3);
    assert_eq!(sim.transform_point(&pt), pt);
    assert_eq!(sim.transform_vector(&[4, 5, 6]), [4, 5, 6]);
    let sim = SimilarityMatrix2::one();
    assert_eq!(sim.transform_point(&pt2()), pt2());
}

fn pt2() -> Point2<i64> {
    Point2::new(-7, 9)
}

#[test]
fn similarity2_new_scenario() {
    let sim = Similarity2::new([1, 2], 1, 3);
    assert_eq!(sim.transform_point(&Point2::new(2, 4)), Point2::new(-11, 8));
    let sim = SimilarityMatrix2::new([1, 2], 1, 3);
    assert_eq!(sim.transform_point(&Point2::new(2, 4)), Point2::new(-11, 8));
}

#[test]
fn angles_wrap_every_four_quarter_turns() {
    assert_eq!(UnitComplex::new(5), UnitComplex::new(1));
    assert_eq!(UnitComplex::new(-1), UnitComplex { re: 0, im: -1 });
    assert_eq!(Rotation2::new(2).matrix, [[-1, 0], [0, -1]]);
    assert_eq!(Rotation2::new(-3), Rotation2::new(1));
}

#[test]
fn similarity3_new_scenario() {
    let sim = Similarity3::new([1, 2, 3], &[0, 1, 0], 3);
    assert_eq!(sim.transform_point(&Point3::new(4, 5, 6)), Point3::new(19, 17, -9));
    assert_eq!(sim.transform_vector(&[4, 5, 6]), [18, 15, -12]);
}

#[test]
fn rotation3_about_each_axis() {
    assert_eq!(Rotation3::new(&[1, 0, 0]).transform_vector(&[1, 2, 3]), [1, -3, 2]);
    assert_eq!(Rotation3::new(&[0, 0, 1]).transform_vector(&[1, 2, 3]), [-2, 1, 3]);
    assert_eq!(Rotation3::new(&[0, 0, -2]).transform_vector(&[1, 2, 3]), [-1, -2, 3]);
    assert_eq!(Rotation3::new(&[0, 0, 0]), Rotation3::identity());
}

#[test]
fn rotation3_inverse_undoes() {
    let r = Rotation3::new(&[0, 1, 0]);
    let v = r.transform_vector(&[4, 5, 6]);
    assert_eq!(r.inverse().transform_vector(&v), [4, 5, 6]);
}

#[test]
fn face_towards_scenario() {
    let eye = Point3::new(1i64, 2, 3);
    let target = Point3::new(2i64, 2, 3);
    let up = [0, 1, 0];
    let sim = Similarity3::face_towards(&eye, &target, &up, 3);
    assert_eq!(sim.transform_point(&Point::<i64, 3>::origin()), eye);
    assert_eq!(sim.transform_vector(&[0, 0, 1]), [3, 0, 0]);
}

#[test]
fn look_at_rh_scenario() {
    let eye = Point3::new(1i64, 2, 3);
    let target = Point3::new(2i64, 2, 3);
    let sim = Similarity3::look_at_rh(&eye, &target, &[0, 1, 0], 3);
    assert_eq!(sim.transform_vector(&[1, 0, 0]), [0, 0, -3]);
    assert_eq!(sim.isometry.translation.vector, [-3, -2, 1]);
    assert_eq!(sim.isometry.transform_point(&eye), Point3::new(0, 0, 0));
}

#[test]
fn look_at_lh_scenario() {
    let eye = Point3::new(1i64, 2, 3);
    let target = Point3::new(2i64, 2, 3);
    let sim = Similarity3::look_at_lh(&eye, &target, &[0, 1, 0], 3);
    assert_eq!(sim.transform_vector(&[1, 0, 0]), [0, 0, 3]);
    assert_eq!(sim.isometry.translation.vector, [3, -2, -1]);
    assert_eq!(sim.isometry.transform_point(&eye), Point3::new(0, 0, 0));
}

#[test]
fn rotation_wrt_point_fixes_pivot() {
    let rot = UnitComplex::new(1);
    let pt = Point2::new(3i64, 2);
    let sim = Similarity2::rotation_wrt_point(rot, pt, 4);
    assert_eq!(sim.isometry.transform_point(&pt), pt);
    assert_eq!(sim.isometry.translation, Translation2::new(5, -1));
    assert_eq!(sim.transform_point(&Point2::new(1, 2)), Point2::new(-3, 3));
}

#[test]
fn rotation_wrt_point_scales_about_origin() {
    let pt = Point2::new(3i64, 2);
    let sim = Similarity2::rotation_wrt_point(UnitComplex::new(0), pt, 2);
    assert_eq!(sim.transform_point(&pt), Point2::new(6, 4));
}

#[test]
fn from_draw_rejects_zero_scaling() {
    let iso = Isometry::<i64, 3, Rotation3>::new([1, 2, 3], &[0, 0, 1]);
    assert_eq!(Similarity::from_draw(iso, 0), None);
    let sim = Similarity::from_draw(iso, -2).unwrap();
    assert_eq!(sim.scaling, -2);
    assert_eq!(sim.isometry, iso);
}

#[test]
fn from_parts_keeps_parts() {
    let sim = Similarity::from_parts(Translation3::new(1, 2, 3), Rotation3::new(&[2, 0, 0]), 5);
    assert_eq!(sim.isometry.translation.vector, [1, 2, 3]);
    assert_eq!(sim.scaling, 5);
    assert_eq!(sim.transform_vector(&[0, 1, 1]), [0, -5, -5]);
}

#[test]
fn isometry_face_towards_maps_origin_to_eye() {
    let eye = Point3::new(-4i64, 0, 9);
    let target = Point3::new(-4i64, 5, 9);
    let iso = Isometry::<i64, 3, Rotation3>::face_towards(&eye, &target, &[1, 0, 0]);
    assert_eq!(iso.transform_point(&Point::<i64, 3>::origin()), eye);
    assert_eq!(iso.rotation.transform_vector(&[0, 0, 1]), [0, 1, 0]);
}

#[test]
fn similarity_cast_round_trip() {
    let sim = Similarity3::new([1, -2, 3], &[0, 1, 0], 3);
    let narrow: Similarity<i32, 3, Rotation3> = sim.cast();
    assert_eq!(narrow.scaling, 3i32);
    assert_eq!(narrow.isometry.translation.vector, [1i32, -2, 3]);
    assert_eq!(narrow.isometry.rotation, sim.isometry.rotation);
    assert_eq!(narrow.cast(), sim);
}

#[test]
fn similarity_cast_keeps_low_bits() {
    let sim = Similarity2::new([4_294_967_298, 0], 1, 4_294_967_297);
    let narrow = sim.cast();
    assert_eq!(narrow.scaling, 1i32);
    assert_eq!(narrow.isometry.translation.vector, [2i32, 0]);
}
