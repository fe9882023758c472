//! Rigid motions (isometries) and uniformly scaled rigid motions
//! (similarities), and the ways to build them.
use vstd::prelude::*;
use crate::point::Point;
use crate::scalar::{narrow, widen};
use crate::rotation::{
    axis_angle_matrix, cross, face_towards_matrix, is_axis_vector, is_lattice_axis_angle, mat3,
    mat_vec3, quarter_cos, quarter_sin, signs, transpose3, AbstractRotation, Rotation2, Rotation3,
    UnitComplex,
};
use crate::translation::Translation;
use crate::vector::{add_vectors, fits, ints, minus, plus, scale_vector, scaled, sub_vectors, zeros};

verus! {

/// A rotation followed by a translation, with components of type `N`.
#[derive(Clone, Copy, Debug, PartialEq, Eq)]
pub struct Isometry<N, const D: usize, R> {
    pub translation: Translation<N, D>,
    pub rotation: R,
}

/// A uniform scaling, then a rotation, then a translation, with components
/// of type `N`.
#[derive(Clone, Copy, Debug, PartialEq, Eq)]
pub struct Similarity<N, const D: usize, R> {
    pub isometry: Isometry<N, D, R>,
    pub scaling: N,
}

pub type Similarity2 = Similarity<i64, 2, UnitComplex>;
pub type SimilarityMatrix2 = Similarity<i64, 2, Rotation2>;
pub type Similarity3 = Similarity<i64, 3, Rotation3>;

/// The image of the point `p` under the rotation `r` followed by the
/// translation `t`.
pub open spec fn rigid_image<const D: usize, R: AbstractRotation<D>>(r: R, t: Seq<int>, p: Seq<int>) -> Seq<int> {
    plus(r.rotate(p), t)
}

/// The image of the point `p` under scaling by `s`, the rotation `r`, and the
/// translation `t`.
pub open spec fn similar_image<const D: usize, R: AbstractRotation<D>>(
    r: R,
    t: Seq<int>,
    s: int,
    p: Seq<int>,
) -> Seq<int> {
    plus(scaled(r.rotate(p), s), t)
}

/// With no translation, no rotation and scaling 1, a similarity maps every
/// point and every vector to itself.
pub proof fn lemma_identity_similarity_fixes<const D: usize, R: AbstractRotation<D>>(r: R, p: Seq<int>)
    requires
        p.len() == D,
        forall|v: Seq<int>| v.len() == D ==> #[trigger] r.rotate(v) == v,
    ensures
        similar_image(r, zeros(D as nat), 1, p) == p,
        scaled(r.rotate(p), 1) == p,
{
    assert(r.rotate(p) == p);
    assert(scaled(r.rotate(p), 1) =~= p);
    assert(similar_image(r, zeros(D as nat), 1, p) =~= p);
}

/// The rotation `r` followed by the translation `p - r(p)` leaves the pivot
/// `p` where it is.
pub proof fn lemma_pivot_is_fixed<const D: usize, R: AbstractRotation<D>>(r: R, p: Seq<int>)
    requires
        p.len() == D,
    ensures
        rigid_image(r, minus(p, r.rotate(p)), p) == p,
{
    r.lemma_rotate_len(p);
    assert(rigid_image(r, minus(p, r.rotate(p)), p) =~= p);
}

impl<const D: usize, R: AbstractRotation<D>> Isometry<i64, D, R> {
    /// Whether the rotation part is a rotation.
    pub open spec fn wf(&self) -> bool {
        self.rotation.is_rotation()
    }

    /// The isometry made of `translation` and `rotation`.
    pub fn from_parts(translation: Translation<i64, D>, rotation: R) -> (r: Self)
        requires
            rotation.is_rotation(),
        ensures
            r.wf(),
            r.translation == translation,
            r.rotation == rotation,
    {
        Isometry { translation, rotation }
    }

    /// The isometry that moves nothing.
    pub fn identity() -> (r: Self)
        ensures
            r.wf(),
            ints(r.translation.vector) == zeros(D as nat),
            forall|v: Seq<int>| v.len() == D ==> #[trigger] r.rotation.rotate(v) == v,
    {
        Isometry { translation: Translation::identity(), rotation: R::identity() }
    }

    /// The image of the point `p`: rotated, then translated.
    pub fn transform_point(&self, p: &Point<i64, D>) -> (r: Point<i64, D>)
        requires
            self.wf(),
            fits(self.rotation.rotate(ints(p.coords))),
            fits(rigid_image(self.rotation, ints(self.translation.vector), ints(p.coords))),
        ensures
            ints(r.coords) == rigid_image(self.rotation, ints(self.translation.vector), ints(p.coords)),
    {
        let v = self.rotation.transform_vector(&p.coords);
        Point { coords: add_vectors(&v, &self.translation.vector) }
    }
}

impl<const D: usize, R: AbstractRotation<D>> Similarity<i64, D, R> {
    /// Whether the rotation part is a rotation and the scaling is not zero.
    pub open spec fn wf(&self) -> bool {
        self.isometry.wf() && self.scaling != 0
    }

    /// The image of the point `p`, as integers.
    pub open spec fn point_image(&self, p: Seq<int>) -> Seq<int> {
        similar_image(self.isometry.rotation, ints(self.isometry.translation.vector), self.scaling as int, p)
    }

    /// The image of the vector `v`, as integers: translations do not move vectors.
    pub open spec fn vector_image(&self, v: Seq<int>) -> Seq<int> {
        scaled(self.isometry.rotation.rotate(v), self.scaling as int)
    }

    /// The similarity that scales by `scaling`, then applies `isometry`.
    pub fn from_isometry(isometry: Isometry<i64, D, R>, scaling: i64) -> (r: Self)
        requires
            isometry.wf(),
            scaling != 0,
        ensures
            r.wf(),
            r.isometry == isometry,
            r.scaling == scaling,
    {
        Similarity { isometry, scaling }
    }

    /// The similarity made of `translation`, `rotation` and `scaling`.
    pub fn from_parts(translation: Translation<i64, D>, rotation: R, scaling: i64) -> (r: Self)
        requires
            rotation.is_rotation(),
            scaling != 0,
        ensures
            r.wf(),
            r.isometry.translation == translation,
            r.isometry.rotation == rotation,
            r.scaling == scaling,
    {
        Self::from_isometry(Isometry::from_parts(translation, rotation), scaling)
    }

    /// The similarity built from a drawn isometry and a drawn scaling, or `None`
    /// when the scaling drawn is zero and must be drawn again.
    pub fn from_draw(isometry: Isometry<i64, D, R>, scaling: i64) -> (r: Option<Self>)
        requires
            isometry.wf(),
        ensures
            r is None <==> scaling == 0,
            r matches Some(s) ==> s.wf() && s.isometry == isometry && s.scaling == scaling,
    {
        if scaling == 0 {
            None
        } else {
            Some(Self::from_isometry(isometry, scaling))
        }
    }

    /// The similarity that moves nothing: no translation, no rotation, scaling 1.
    pub fn identity() -> (r: Self)
        ensures
            r.wf(),
            ints(r.isometry.translation.vector) == zeros(D as nat),
            forall|v: Seq<int>| v.len() == D ==> #[trigger] r.isometry.rotation.rotate(v) == v,
            r.scaling == 1,
            forall|p: Seq<int>| p.len() == D ==> #[trigger] r.point_image(p) == p,
            forall|v: Seq<int>| v.len() == D ==> #[trigger] r.vector_image(v) == v,
    {
        let r = Self::from_isometry(Isometry::identity(), 1);
        assert forall|p: Seq<int>| p.len() == D implies #[trigger] r.point_image(p) == p by {
            lemma_identity_similarity_fixes(r.isometry.rotation, p);
        }
        assert forall|v: Seq<int>| v.len() == D implies #[trigger] r.vector_image(v) == v by {
            lemma_identity_similarity_fixes(r.isometry.rotation, v);
        }
        r
    }

    /// The neutral element of composition, which is the identity.
    pub fn one() -> (r: Self)
        ensures
            r.wf(),
            ints(r.isometry.translation.vector) == zeros(D as nat),
            forall|v: Seq<int>| v.len() == D ==> #[trigger] r.isometry.rotation.rotate(v) == v,
            r.scaling == 1,
            forall|p: Seq<int>| p.len() == D ==> #[trigger] r.point_image(p) == p,
            forall|v: Seq<int>| v.len() == D ==> #[trigger] r.vector_image(v) == v,
    {
        Self::identity()
    }

    /// The similarity that scales by `scaling` and applies the rotation `r`
    /// about the pivot `p`: its translation is `p` minus the rotated `p`.
    pub fn rotation_wrt_point(r: R, p: Point<i64, D>, scaling: i64) -> (s: Self)
        requires
            r.is_rotation(),
            scaling != 0,
            fits(r.rotate(ints(p.coords))),
            fits(minus(ints(p.coords), r.rotate(ints(p.coords)))),
        ensures
            s.wf(),
            s.isometry.rotation == r,
            ints(s.isometry.translation.vector) == minus(ints(p.coords), r.rotate(ints(p.coords))),
            s.scaling == scaling,
            rigid_image(s.isometry.rotation, ints(s.isometry.translation.vector), ints(p.coords))
                == ints(p.coords),
    {
        proof {
            lemma_pivot_is_fixed(r, ints(p.coords));
        }
        let rotated = r.transform_vector(&p.coords);
        let shift = sub_vectors(&p.coords, &rotated);
        Self::from_parts(Translation { vector: shift }, r, scaling)
    }

    /// The image of the point `p`: scaled, rotated, then translated.
    pub fn transform_point(&self, p: &Point<i64, D>) -> (r: Point<i64, D>)
        requires
            self.wf(),
            fits(self.isometry.rotation.rotate(ints(p.coords))),
            fits(self.vector_image(ints(p.coords))),
            fits(self.point_image(ints(p.coords))),
        ensures
            ints(r.coords) == self.point_image(ints(p.coords)),
    {
        let v = self.transform_vector(&p.coords);
        Point { coords: add_vectors(&v, &self.isometry.translation.vector) }
    }

    /// The image of the vector `v`: scaled and rotated.
    pub fn transform_vector(&self, v: &[i64; D]) -> (r: [i64; D])
        requires
            self.wf(),
            fits(self.isometry.rotation.rotate(ints(*v))),
            fits(self.vector_image(ints(*v))),
        ensures
            ints(r) == self.vector_image(ints(*v)),
    {
        let rotated = self.isometry.rotation.transform_vector(v);
        scale_vector(&rotated, self.scaling)
    }
}

impl<const D: usize, R: AbstractRotation<D>> Similarity<i64, D, R> {
    /// The similarity with its translation and scaling converted to `i32`
    /// (a value out of `i32`'s range keeps its low 32 bits) and the same
    /// rotation.
    pub fn cast(self) -> (r: Similarity<i32, D, R>)
        ensures
            r.isometry.translation@ == self.isometry.translation@.map_values(|x: i64| x as i32),
            r.isometry.rotation == self.isometry.rotation,
            r.scaling == self.scaling as i32,
    {
        let scaling = narrow(self.scaling);
        Similarity {
            isometry: Isometry {
                translation: self.isometry.translation.cast(),
                rotation: self.isometry.rotation,
            },
            scaling,
        }
    }
}

impl<const D: usize, R: AbstractRotation<D>> Similarity<i32, D, R> {
    /// The similarity with its translation and scaling converted to `i64` and
    /// the same rotation.
    pub fn cast(self) -> (r: Similarity<i64, D, R>)
        ensures
            r.isometry.translation@ == self.isometry.translation@.map_values(|x: i32| x as i64),
            r.isometry.rotation == self.isometry.rotation,
            r.scaling == self.scaling as i64,
            self.isometry.rotation.is_rotation() && self.scaling != 0 ==> r.wf(),
    {
        let scaling = widen(self.scaling);
        Similarity {
            isometry: Isometry {
                translation: self.isometry.translation.cast(),
                rotation: self.isometry.rotation,
            },
            scaling,
        }
    }
}

impl Similarity<i64, 2, Rotation2> {
    /// The similarity that scales by `scaling`, turns by `angle` quarter turns
    /// and translates by `translation`.
    pub fn new(translation: [i64; 2], angle: i64, scaling: i64) -> (r: Self)
        requires
            scaling != 0,
        ensures
            r.wf(),
            r.isometry.translation.vector == translation,
            r.isometry.rotation.matrix[0][0] == quarter_cos(angle as int),
            r.isometry.rotation.matrix[1][0] == quarter_sin(angle as int),
            r.scaling == scaling,
    {
        Self::from_parts(Translation { vector: translation }, Rotation2::new(angle), scaling)
    }
}

impl Similarity<i64, 2, UnitComplex> {
    /// The similarity that scales by `scaling`, turns by `angle` quarter turns
    /// and translates by `translation`.
    pub fn new(translation: [i64; 2], angle: i64, scaling: i64) -> (r: Self)
        requires
            scaling != 0,
        ensures
            r.wf(),
            r.isometry.translation.vector == translation,
            r.isometry.rotation.re == quarter_cos(angle as int),
            r.isometry.rotation.im == quarter_sin(angle as int),
            r.scaling == scaling,
    {
        Self::from_parts(Translation { vector: translation }, UnitComplex::new(angle), scaling)
    }
}

/// Whether `dir` and `up` admit a lattice rotation that faces `dir`: `dir`
/// and `up × dir` lie along coordinate axes.
pub open spec fn can_face(dir: Seq<int>, up: Seq<int>) -> bool {
    &&& is_axis_vector(dir)
    &&& is_axis_vector(cross(up, signs(dir)))
    &&& fits(cross(up, signs(dir)))
}

/// Whether a view from `eye` along `dir` with rotation `m` can be computed:
/// `-eye` and its image under `m` fit in `i64`.
pub open spec fn can_view(m: Seq<Seq<int>>, eye: Seq<int>) -> bool {
    &&& fits(minus(zeros(3), eye))
    &&& fits(mat_vec3(m, minus(zeros(3), eye)))
}

impl Isometry<i64, 3, Rotation3> {
    /// The isometry that rotates about the axis-angle vector `axisangle`
    /// (in quarter turns), then translates by `translation`.
    pub fn new(translation: [i64; 3], axisangle: &[i64; 3]) -> (r: Self)
        requires
            is_lattice_axis_angle(ints(*axisangle)),
        ensures
            r.wf(),
            r.translation.vector == translation,
            mat3(r.rotation.matrix) == axis_angle_matrix(ints(*axisangle)),
    {
        Isometry::from_parts(Translation { vector: translation }, Rotation3::new(axisangle))
    }

    /// The isometry that maps the origin to `eye` and the `z` axis to the
    /// direction from `eye` to `target`, with `up` fixing the roll.
    pub fn face_towards(eye: &Point<i64, 3>, target: &Point<i64, 3>, up: &[i64; 3]) -> (r: Self)
        requires
            fits(minus(ints(target.coords), ints(eye.coords))),
            can_face(minus(ints(target.coords), ints(eye.coords)), ints(*up)),
        ensures
            r.wf(),
            r.translation.vector == eye.coords,
            mat3(r.rotation.matrix) == face_towards_matrix(
                minus(ints(target.coords), ints(eye.coords)),
                ints(*up),
            ),
    {
        let dir = sub_vectors(&target.coords, &eye.coords);
        let rotation = Rotation3::face_towards(&dir, up);
        Isometry::from_parts(Translation { vector: eye.coords }, rotation)
    }

    /// The right-handed view isometry of an observer at `eye` looking at
    /// `target`: the rotation is the inverse of the one facing `eye - target`,
    /// and the translation is that rotation applied to `-eye`.
    pub fn look_at_rh(eye: &Point<i64, 3>, target: &Point<i64, 3>, up: &[i64; 3]) -> (r: Self)
        requires
            fits(minus(ints(eye.coords), ints(target.coords))),
            can_face(minus(ints(eye.coords), ints(target.coords)), ints(*up)),
            can_view(
                transpose3(face_towards_matrix(minus(ints(eye.coords), ints(target.coords)), ints(*up))),
                ints(eye.coords),
            ),
        ensures
            r.wf(),
            mat3(r.rotation.matrix) == transpose3(
                face_towards_matrix(minus(ints(eye.coords), ints(target.coords)), ints(*up)),
            ),
            ints(r.translation.vector) == mat_vec3(
                mat3(r.rotation.matrix),
                minus(zeros(3), ints(eye.coords)),
            ),
    {
        let dir = sub_vectors(&eye.coords, &target.coords);
        Self::view_along(&dir, eye, up)
    }

    /// The left-handed view isometry of an observer at `eye` looking at
    /// `target`: the rotation is the inverse of the one facing `target - eye`,
    /// and the translation is that rotation applied to `-eye`.
    pub fn look_at_lh(eye: &Point<i64, 3>, target: &Point<i64, 3>, up: &[i64; 3]) -> (r: Self)
        requires
            fits(minus(ints(target.coords), ints(eye.coords))),
            can_face(minus(ints(target.coords), ints(eye.coords)), ints(*up)),
            can_view(
                transpose3(face_towards_matrix(minus(ints(target.coords), ints(eye.coords)), ints(*up))),
                ints(eye.coords),
            ),
        ensures
            r.wf(),
            mat3(r.rotation.matrix) == transpose3(
                face_towards_matrix(minus(ints(target.coords), ints(eye.coords)), ints(*up)),
            ),
            ints(r.translation.vector) == mat_vec3(
                mat3(r.rotation.matrix),
                minus(zeros(3), ints(eye.coords)),
            ),
    {
        let dir = sub_vectors(&target.coords, &eye.coords);
        Self::view_along(&dir, eye, up)
    }

    /// The view isometry whose rotation is the inverse of the one facing `dir`
    /// and whose translation is that rotation applied to `-eye`.
    fn view_along(dir: &[i64; 3], eye: &Point<i64, 3>, up: &[i64; 3]) -> (r: Self)
        requires
            can_face(ints(*dir), ints(*up)),
            can_view(transpose3(face_towards_matrix(ints(*dir), ints(*up))), ints(eye.coords)),
        ensures
            r.wf(),
            mat3(r.rotation.matrix) == transpose3(face_towards_matrix(ints(*dir), ints(*up))),
            ints(r.translation.vector) == mat_vec3(
                mat3(r.rotation.matrix),
                minus(zeros(3), ints(eye.coords)),
            ),
    {
        let rotation = Rotation3::face_towards(dir, up).inverse();
        let origin: [i64; 3] = [0i64; 3];
        assert(ints(origin) =~= zeros(3));
        let back = sub_vectors(&origin, &eye.coords);
        let shift = rotation.transform_vector(&back);
        Isometry::from_parts(Translation { vector: shift }, rotation)
    }
}

impl Similarity<i64, 3, Rotation3> {
    /// The similarity that scales by `scaling`, rotates about the axis-angle
    /// vector `axisangle` (in quarter turns) and translates by `translation`.
    pub fn new(translation: [i64; 3], axisangle: &[i64; 3], scaling: i64) -> (r: Self)
        requires
            is_lattice_axis_angle(ints(*axisangle)),
            scaling != 0,
        ensures
            r.wf(),
            r.isometry.translation.vector == translation,
            mat3(r.isometry.rotation.matrix) == axis_angle_matrix(ints(*axisangle)),
            r.scaling == scaling,
    {
        Self::from_isometry(Isometry::<i64, 3, Rotation3>::new(translation, axisangle), scaling)
    }

    /// The similarity that scales by `scaling`, then maps the origin to `eye`
    /// and the `z` axis to the direction from `eye` to `target`.
    pub fn face_towards(eye: &Point<i64, 3>, target: &Point<i64, 3>, up: &[i64; 3], scaling: i64) -> (r: Self)
        requires
            fits(minus(ints(target.coords), ints(eye.coords))),
            can_face(minus(ints(target.coords), ints(eye.coords)), ints(*up)),
            scaling != 0,
        ensures
            r.wf(),
            r.isometry.translation.vector == eye.coords,
            mat3(r.isometry.rotation.matrix) == face_towards_matrix(
                minus(ints(target.coords), ints(eye.coords)),
                ints(*up),
            ),
            r.scaling == scaling,
    {
        Self::from_isometry(Isometry::<i64, 3, Rotation3>::face_towards(eye, target, up), scaling)
    }

    /// The former name of `face_towards`.
    pub fn new_observer_frames(eye: &Point<i64, 3>, target: &Point<i64, 3>, up: &[i64; 3], scaling: i64) -> (r: Self)
        requires
            fits(minus(ints(target.coords), ints(eye.coords))),
            can_face(minus(ints(target.coords), ints(eye.coords)), ints(*up)),
            scaling != 0,
        ensures
            r.wf(),
            r.isometry.translation.vector == eye.coords,
            mat3(r.isometry.rotation.matrix) == face_towards_matrix(
                minus(ints(target.coords), ints(eye.coords)),
                ints(*up),
            ),
            r.scaling == scaling,
    {
        Self::face_towards(eye, target, up, scaling)
    }

    /// The right-handed view isometry of `eye` looking at `target`, with
    /// scaling `scaling`.
    pub fn look_at_rh(eye: &Point<i64, 3>, target: &Point<i64, 3>, up: &[i64; 3], scaling: i64) -> (r: Self)
        requires
            fits(minus(ints(eye.coords), ints(target.coords))),
            can_face(minus(ints(eye.coords), ints(target.coords)), ints(*up)),
            can_view(
                transpose3(face_towards_matrix(minus(ints(eye.coords), ints(target.coords)), ints(*up))),
                ints(eye.coords),
            ),
            scaling != 0,
        ensures
            r.wf(),
            mat3(r.isometry.rotation.matrix) == transpose3(
                face_towards_matrix(minus(ints(eye.coords), ints(target.coords)), ints(*up)),
            ),
            ints(r.isometry.translation.vector) == mat_vec3(
                mat3(r.isometry.rotation.matrix),
                minus(zeros(3), ints(eye.coords)),
            ),
            r.scaling == scaling,
    {
        Self::from_isometry(Isometry::<i64, 3, Rotation3>::look_at_rh(eye, target, up), scaling)
    }

    /// The left-handed view isometry of `eye` looking at `target`, with
    /// scaling `scaling`.
    pub fn look_at_lh(eye: &Point<i64, 3>, target: &Point<i64, 3>, up: &[i64; 3], scaling: i64) -> (r: Self)
        requires
            fits(minus(ints(target.coords), ints(eye.coords))),
            can_face(minus(ints(target.coords), ints(eye.coords)), ints(*up)),
            can_view(
                transpose3(face_towards_matrix(minus(ints(target.coords), ints(eye.coords)), ints(*up))),
                ints(eye.coords),
            ),
            scaling != 0,
        ensures
            r.wf(),
            mat3(r.isometry.rotation.matrix) == transpose3(
                face_towards_matrix(minus(ints(target.coords), ints(eye.coords)), ints(*up)),
            ),
            ints(r.isometry.translation.vector) == mat_vec3(
                mat3(r.isometry.rotation.matrix),
                minus(zeros(3), ints(eye.coords)),
            ),
            r.scaling == scaling,
    {
        Self::from_isometry(Isometry::<i64, 3, Rotation3>::look_at_lh(eye, target, up), scaling)
    }
}

} // verus!
