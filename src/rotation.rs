//! Rotations of the integer lattice: the rotations that map integer
//! coordinates to integer coordinates exactly. In the plane these are the
//! quarter turns; in space, the rotations about coordinate axes and their
//! compositions. Angles are counted in quarter turns.
//!
//! Space rotations are stored as matrices only. A unit quaternion with integer
//! components can hold the identity and the half turns, but a quarter turn
//! needs the components `cos(π/4)` and `sin(π/4)`, which no integer holds; so
//! there is no quaternion form of the lattice rotations here.
use vstd::prelude::*;
use crate::vector::{fits, in_i64, ints};

verus! {

/// What a similarity needs of its rotation part.
pub trait AbstractRotation<const D: usize>: Sized {
    /// Whether this value is a rotation.
    spec fn is_rotation(&self) -> bool;

    /// The image of `v` under this rotation.
    spec fn rotate(&self, v: Seq<int>) -> Seq<int>;

    /// A rotation maps vectors of the space to vectors of the space.
    proof fn lemma_rotate_len(&self, v: Seq<int>)
        requires
            v.len() == D,
        ensures
            self.rotate(v).len() == D;

    /// The rotation that moves nothing.
    fn identity() -> (r: Self)
        ensures
            r.is_rotation(),
            forall|v: Seq<int>| v.len() == D ==> #[trigger] r.rotate(v) == v;

    /// The image of the vector `v` under this rotation.
    fn transform_vector(&self, v: &[i64; D]) -> (r: [i64; D])
        requires
            self.is_rotation(),
            fits(self.rotate(ints(*v))),
        ensures
            ints(r) == self.rotate(ints(*v));
}

/// The cosine of `n` quarter turns.
pub open spec fn quarter_cos(n: int) -> int {
    let m = n % 4;
    if m == 0 {
        1
    } else if m == 2 {
        -1
    } else {
        0
    }
}

/// The sine of `n` quarter turns.
pub open spec fn quarter_sin(n: int) -> int {
    let m = n % 4;
    if m == 1 {
        1
    } else if m == 3 {
        -1
    } else {
        0
    }
}

/// Whether `(c, s)` is the cosine and sine of a quarter turn.
pub open spec fn is_quarter(c: int, s: int) -> bool {
    (c == 0 && (s == 1 || s == -1)) || (s == 0 && (c == 1 || c == -1))
}

/// The cosine and sine of `n` quarter turns.
fn quarter_turn(n: i64) -> (r: (i64, i64))
    ensures
        r.0 == quarter_cos(n as int),
        r.1 == quarter_sin(n as int),
        is_quarter(r.0 as int, r.1 as int),
{
    let m = match n.checked_rem_euclid(4) {
        Some(m) => m,
        None => 0,
    };
    if m == 0 {
        (1, 0)
    } else if m == 1 {
        (0, 1)
    } else if m == 2 {
        (-1, 0)
    } else {
        (0, -1)
    }
}

/// `c * x`, for a coefficient `c` of a lattice rotation.
fn times_unit(c: i64, x: i64) -> (r: i64)
    requires
        c == 0 || c == 1 || c == -1,
        in_i64(c * x),
    ensures
        r == c * x,
{
    if c == 0 {
        0
    } else if c == 1 {
        x
    } else {
        assert(c * x == -x) by (nonlinear_arith)
            requires
                c == -1,
        ;
        -x
    }
}

/// The image of `(x, y)` under the turn with cosine `c` and sine `s`.
pub open spec fn turn2(c: int, s: int, v: Seq<int>) -> Seq<int> {
    seq![c * v[0] - s * v[1], s * v[0] + c * v[1]]
}

/// Applies the turn with cosine `c` and sine `s` to a plane vector.
fn apply_turn2(c: i64, s: i64, v: &[i64; 2]) -> (r: [i64; 2])
    requires
        is_quarter(c as int, s as int),
        fits(turn2(c as int, s as int, ints(*v))),
    ensures
        ints(r) == turn2(c as int, s as int, ints(*v)),
{
    let ghost t = turn2(c as int, s as int, ints(*v));
    assert(in_i64(t[0]) && in_i64(t[1]));
    let x = v[0];
    let y = v[1];
    let r0 = if c == 0 {
        times_unit(-s, y)
    } else {
        times_unit(c, x)
    };
    let r1 = if c == 0 {
        times_unit(s, x)
    } else {
        times_unit(c, y)
    };
    let r = [r0, r1];
    assert(ints(r) =~= t);
    r
}

/// A plane rotation stored as the unit complex number `re + i im`.
#[derive(Clone, Copy, Debug, PartialEq, Eq)]
pub struct UnitComplex {
    pub re: i64,
    pub im: i64,
}

impl UnitComplex {
    /// The rotation by `angle` quarter turns, counterclockwise.
    pub fn new(angle: i64) -> (r: Self)
        ensures
            r.re == quarter_cos(angle as int),
            r.im == quarter_sin(angle as int),
            r.is_rotation(),
    {
        let (c, s) = quarter_turn(angle);
        UnitComplex { re: c, im: s }
    }
}

impl AbstractRotation<2> for UnitComplex {
    proof fn lemma_rotate_len(&self, v: Seq<int>) {
    }

    open spec fn is_rotation(&self) -> bool {
        is_quarter(self.re as int, self.im as int)
    }

    open spec fn rotate(&self, v: Seq<int>) -> Seq<int> {
        turn2(self.re as int, self.im as int, v)
    }

    fn identity() -> (r: Self) {
        let r = UnitComplex { re: 1, im: 0 };
        assert forall|v: Seq<int>| v.len() == 2 implies #[trigger] r.rotate(v) == v by {
            assert(r.rotate(v) =~= v);
        }
        r
    }

    fn transform_vector(&self, v: &[i64; 2]) -> (r: [i64; 2]) {
        apply_turn2(self.re, self.im, v)
    }
}

/// A plane rotation stored as its 2x2 matrix, row by row.
#[derive(Clone, Copy, Debug, PartialEq, Eq)]
pub struct Rotation2 {
    pub matrix: [[i64; 2]; 2],
}

impl Rotation2 {
    /// The rotation by `angle` quarter turns, counterclockwise.
    pub fn new(angle: i64) -> (r: Self)
        ensures
            r.matrix[0][0] == quarter_cos(angle as int),
            r.matrix[1][0] == quarter_sin(angle as int),
            r.is_rotation(),
    {
        let (c, s) = quarter_turn(angle);
        Rotation2 { matrix: [[c, -s], [s, c]] }
    }
}

impl AbstractRotation<2> for Rotation2 {
    proof fn lemma_rotate_len(&self, v: Seq<int>) {
    }

    open spec fn is_rotation(&self) -> bool {
        &&& is_quarter(self.matrix[0][0] as int, self.matrix[1][0] as int)
        &&& self.matrix[1][1] == self.matrix[0][0]
        &&& self.matrix[0][1] == -self.matrix[1][0]
    }

    open spec fn rotate(&self, v: Seq<int>) -> Seq<int> {
        turn2(self.matrix[0][0] as int, self.matrix[1][0] as int, v)
    }

    fn identity() -> (r: Self) {
        let r = Rotation2 { matrix: [[1, 0], [0, 1]] };
        assert(r.matrix[0][0] == 1 && r.matrix[1][0] == 0);
        assert forall|v: Seq<int>| v.len() == 2 implies #[trigger] r.rotate(v) == v by {
            assert(r.rotate(v) =~= v);
        }
        r
    }

    fn transform_vector(&self, v: &[i64; 2]) -> (r: [i64; 2]) {
        apply_turn2(self.matrix[0][0], self.matrix[1][0], v)
    }
}

/// Whether `(a, b, c)` has exactly one nonzero entry, and that entry is 1 or -1.
pub open spec fn is_unit_axis(a: int, b: int, c: int) -> bool {
    ||| a == 0 && b == 0 && (c == 1 || c == -1)
    ||| a == 0 && (b == 1 || b == -1) && c == 0
    ||| (a == 1 || a == -1) && b == 0 && c == 0
}

/// The entries of a 3x3 matrix of machine integers.
pub open spec fn mat3(m: [[i64; 3]; 3]) -> Seq<Seq<int>> {
    Seq::new(3, |i: int| ints(m[i]))
}

/// The determinant of a 3x3 matrix.
pub open spec fn det3(m: Seq<Seq<int>>) -> int {
    m[0][0] * (m[1][1] * m[2][2] - m[1][2] * m[2][1])
        - m[0][1] * (m[1][0] * m[2][2] - m[1][2] * m[2][0])
        + m[0][2] * (m[1][0] * m[2][1] - m[1][1] * m[2][0])
}

/// The product of a 3x3 matrix and a vector.
pub open spec fn mat_vec3(m: Seq<Seq<int>>, v: Seq<int>) -> Seq<int> {
    Seq::new(3, |i: int| m[i][0] * v[0] + m[i][1] * v[1] + m[i][2] * v[2])
}

/// Whether `m` is a rotation of the lattice: each row and each column is a
/// signed unit axis, and the determinant is 1.
pub open spec fn is_lattice_rotation3(m: Seq<Seq<int>>) -> bool {
    &&& forall|i: int| 0 <= i < 3 ==> is_unit_axis(#[trigger] m[i][0], m[i][1], m[i][2])
    &&& forall|j: int| 0 <= j < 3 ==> is_unit_axis(#[trigger] m[0][j], m[1][j], m[2][j])
    &&& det3(m) == 1
}

/// The rotation by `c`, `s` (cosine and sine) about coordinate axis `k`.
pub open spec fn about_axis(k: int, c: int, s: int) -> Seq<Seq<int>> {
    if k == 0 {
        seq![seq![1, 0, 0], seq![0, c, -s], seq![0, s, c]]
    } else if k == 1 {
        seq![seq![c, 0, s], seq![0, 1, 0], seq![-s, 0, c]]
    } else {
        seq![seq![c, -s, 0], seq![s, c, 0], seq![0, 0, 1]]
    }
}

/// Whether the axis-angle vector `a` lies along a coordinate axis (or is zero).
pub open spec fn is_lattice_axis_angle(a: Seq<int>) -> bool {
    (a[0] == 0 && a[1] == 0) || (a[1] == 0 && a[2] == 0) || (a[0] == 0 && a[2] == 0)
}

/// The rotation whose axis is the direction of `a` and whose angle is the
/// length of `a`, in quarter turns.
pub open spec fn axis_angle_matrix(a: Seq<int>) -> Seq<Seq<int>> {
    if a[0] != 0 {
        about_axis(0, quarter_cos(a[0]), quarter_sin(a[0]))
    } else if a[1] != 0 {
        about_axis(1, quarter_cos(a[1]), quarter_sin(a[1]))
    } else {
        about_axis(2, quarter_cos(a[2]), quarter_sin(a[2]))
    }
}

/// A 3x3 matrix is a lattice rotation when its three rows and three columns
/// are signed unit axes and its determinant is 1.
proof fn lemma_lattice_rotation3(m: Seq<Seq<int>>)
    requires
        is_unit_axis(m[0][0], m[0][1], m[0][2]),
        is_unit_axis(m[1][0], m[1][1], m[1][2]),
        is_unit_axis(m[2][0], m[2][1], m[2][2]),
        is_unit_axis(m[0][0], m[1][0], m[2][0]),
        is_unit_axis(m[0][1], m[1][1], m[2][1]),
        is_unit_axis(m[0][2], m[1][2], m[2][2]),
        det3(m) == 1,
    ensures
        is_lattice_rotation3(m),
{
    assert forall|i: int| 0 <= i < 3 implies is_unit_axis(#[trigger] m[i][0], m[i][1], m[i][2]) by {
        if i == 0 {
        } else if i == 1 {
        } else {
        }
    }
    assert forall|j: int| 0 <= j < 3 implies is_unit_axis(#[trigger] m[0][j], m[1][j], m[2][j]) by {
        if j == 0 {
        } else if j == 1 {
        } else {
        }
    }
}

/// The determinant of a turn by `c`, `s` about an axis is `c * c + s * s`.
proof fn lemma_det_about_axis(k: int, c: int, s: int)
    ensures
        det3(about_axis(k, c, s)) == c * c + s * s,
{
    let m = about_axis(k, c, s);
    let (a0, a1, a2) = (m[0][0], m[0][1], m[0][2]);
    let (b0, b1, b2) = (m[1][0], m[1][1], m[1][2]);
    let (d0, d1, d2) = (m[2][0], m[2][1], m[2][2]);
    if k == 0 {
        assert(a0 == 1 && a1 == 0 && a2 == 0 && b0 == 0 && b1 == c && b2 == -s);
        assert(d0 == 0 && d1 == s && d2 == c);
    } else if k == 1 {
        assert(a0 == c && a1 == 0 && a2 == s && b0 == 0 && b1 == 1 && b2 == 0);
        assert(d0 == -s && d1 == 0 && d2 == c);
    } else {
        assert(a0 == c && a1 == -s && a2 == 0 && b0 == s && b1 == c && b2 == 0);
        assert(d0 == 0 && d1 == 0 && d2 == 1);
    }
    assert(a0 * (b1 * d2 - b2 * d1) - a1 * (b0 * d2 - b2 * d0) + a2 * (b0 * d1 - b1 * d0) == c * c
        + s * s) by (nonlinear_arith)
        requires
            (k == 0 && a0 == 1 && a1 == 0 && a2 == 0 && b0 == 0 && b1 == c && b2 == -s && d0 == 0
                && d1 == s && d2 == c) || (k == 1 && a0 == c && a1 == 0 && a2 == s && b0 == 0 && b1
                == 1 && b2 == 0 && d0 == -s && d1 == 0 && d2 == c) || (k != 0 && k != 1 && a0 == c
                && a1 == -s && a2 == 0 && b0 == s && b1 == c && b2 == 0 && d0 == 0 && d1 == 0 && d2
                == 1),
    ;
}

/// A quarter turn about a coordinate axis is a lattice rotation.
proof fn lemma_about_axis_is_rotation(k: int, c: int, s: int)
    requires
        is_quarter(c, s),
    ensures
        is_lattice_rotation3(about_axis(k, c, s)),
{
    lemma_det_about_axis(k, c, s);
    assert(c * c + s * s == 1) by (nonlinear_arith)
        requires
            is_quarter(c, s),
    ;
    lemma_lattice_rotation3(about_axis(k, c, s));
}

/// Whether `v` is a signed unit axis.
pub open spec fn is_unit_vec(v: Seq<int>) -> bool {
    is_unit_axis(v[0], v[1], v[2])
}

/// Whether `v` has exactly one nonzero entry.
pub open spec fn is_axis_vector(v: Seq<int>) -> bool {
    ||| v[0] != 0 && v[1] == 0 && v[2] == 0
    ||| v[0] == 0 && v[1] != 0 && v[2] == 0
    ||| v[0] == 0 && v[1] == 0 && v[2] != 0
}

/// The sign of `x`: 1, 0 or -1.
pub open spec fn sign(x: int) -> int {
    if x > 0 {
        1
    } else if x < 0 {
        -1
    } else {
        0
    }
}

/// The entrywise sign of a 3-vector; for a vector along an axis, its direction.
pub open spec fn signs(v: Seq<int>) -> Seq<int> {
    seq![sign(v[0]), sign(v[1]), sign(v[2])]
}

/// The cross product of two 3-vectors.
pub open spec fn cross(a: Seq<int>, b: Seq<int>) -> Seq<int> {
    seq![a[1] * b[2] - a[2] * b[1], a[2] * b[0] - a[0] * b[2], a[0] * b[1] - a[1] * b[0]]
}

/// The matrix whose columns are `x`, `y` and `z`.
pub open spec fn frame(x: Seq<int>, y: Seq<int>, z: Seq<int>) -> Seq<Seq<int>> {
    seq![seq![x[0], y[0], z[0]], seq![x[1], y[1], z[1]], seq![x[2], y[2], z[2]]]
}

/// The transpose of a 3x3 matrix.
pub open spec fn transpose3(m: Seq<Seq<int>>) -> Seq<Seq<int>> {
    frame(m[0], m[1], m[2])
}

/// The rotation that maps the `z` axis onto the direction of `dir`, with `up`
/// fixing the roll: its columns are `x = dir(up × z)`, `y = z × x` and
/// `z = dir(dir)`.
pub open spec fn face_towards_matrix(dir: Seq<int>, up: Seq<int>) -> Seq<Seq<int>> {
    let z = signs(dir);
    let x = signs(cross(up, z));
    frame(x, cross(z, x), z)
}

/// The determinant of the frame `x`, `z × x`, `z`, over the entries of `x`
/// and `z`.
pub open spec fn frame_det(x0: int, x1: int, x2: int, z0: int, z1: int, z2: int) -> int {
    let (y0, y1, y2) = (z1 * x2 - z2 * x1, z2 * x0 - z0 * x2, z0 * x1 - z1 * x0);
    x0 * (y1 * z2 - z1 * y2) - y0 * (x1 * z2 - z1 * x2) + z0 * (x1 * y2 - y1 * x2)
}

/// The determinant of a frame, over the entries of its axes.
proof fn lemma_frame_det(x: Seq<int>, z: Seq<int>)
    ensures
        det3(frame(x, cross(z, x), z)) == frame_det(x[0], x[1], x[2], z[0], z[1], z[2]),
        cross(z, x)[0] == z[1] * x[2] - z[2] * x[1],
        cross(z, x)[1] == z[2] * x[0] - z[0] * x[2],
        cross(z, x)[2] == z[0] * x[1] - z[1] * x[0],
{
    let y = cross(z, x);
    assert(y[0] == z[1] * x[2] - z[2] * x[1]);
    assert(y[1] == z[2] * x[0] - z[0] * x[2]);
    assert(y[2] == z[0] * x[1] - z[1] * x[0]);
}

/// The frame lemma when `z` lies along the first axis.
proof fn lemma_frame_along_0(x: Seq<int>, z: Seq<int>)
    requires
        is_unit_vec(x),
        is_unit_vec(z),
        z[0] != 0,
        x[0] == 0,
    ensures
        is_lattice_rotation3(frame(x, cross(z, x), z)),
{
    lemma_frame_det(x, z);
    if z[0] == 1 {
        if x[1] != 0 {
            if x[1] == 1 {
                assert(frame_det(0, 1, 0, 1, 0, 0) == 1) by (nonlinear_arith);
                assert(z[1] * x[2] - z[2] * x[1] == 0 && z[2] * x[0] - z[0] * x[2] == 0
                    && z[0] * x[1] - z[1] * x[0] == 1) by (nonlinear_arith)
                    requires
                        x[0] == 0 && x[1] == 1 && x[2] == 0 && z[0] == 1 && z[1] == 0 && z[2] == 0,
                ;
                lemma_lattice_rotation3(frame(x, cross(z, x), z));
            } else {
                assert(frame_det(0, -1, 0, 1, 0, 0) == 1) by (nonlinear_arith);
                assert(z[1] * x[2] - z[2] * x[1] == 0 && z[2] * x[0] - z[0] * x[2] == 0
                    && z[0] * x[1] - z[1] * x[0] == -1) by (nonlinear_arith)
                    requires
                        x[0] == 0 && x[1] == -1 && x[2] == 0 && z[0] == 1 && z[1] == 0 && z[2] == 0,
                ;
                lemma_lattice_rotation3(frame(x, cross(z, x), z));
            }
        } else {
            if x[2] == 1 {
                assert(frame_det(0, 0, 1, 1, 0, 0) == 1) by (nonlinear_arith);
                assert(z[1] * x[2] - z[2] * x[1] == 0 && z[2] * x[0] - z[0] * x[2] == -1
                    && z[0] * x[1] - z[1] * x[0] == 0) by (nonlinear_arith)
                    requires
                        x[0] == 0 && x[1] == 0 && x[2] == 1 && z[0] == 1 && z[1] == 0 && z[2] == 0,
                ;
                lemma_lattice_rotation3(frame(x, cross(z, x), z));
            } else {
                assert(frame_det(0, 0, -1, 1, 0, 0) == 1) by (nonlinear_arith);
                assert(z[1] * x[2] - z[2] * x[1] == 0 && z[2] * x[0] - z[0] * x[2] == 1
                    && z[0] * x[1] - z[1] * x[0] == 0) by (nonlinear_arith)
                    requires
                        x[0] == 0 && x[1] == 0 && x[2] == -1 && z[0] == 1 && z[1] == 0 && z[2] == 0,
                ;
                lemma_lattice_rotation3(frame(x, cross(z, x), z));
            }
        }
    } else {
        if x[1] != 0 {
            if x[1] == 1 {
                assert(frame_det(0, 1, 0, -1, 0, 0) == 1) by (nonlinear_arith);
                assert(z[1] * x[2] - z[2] * x[1] == 0 && z[2] * x[0] - z[0] * x[2] == 0
                    && z[0] * x[1] - z[1] * x[0] == -1) by (nonlinear_arith)
                    requires
                        x[0] == 0 && x[1] == 1 && x[2] == 0 && z[0] == -1 && z[1] == 0 && z[2] == 0,
                ;
                lemma_lattice_rotation3(frame(x, cross(z, x), z));
            } else {
                assert(frame_det(0, -1, 0, -1, 0, 0) == 1) by (nonlinear_arith);
                assert(z[1] * x[2] - z[2] * x[1] == 0 && z[2] * x[0] - z[0] * x[2] == 0
                    && z[0] * x[1] - z[1] * x[0] == 1) by (nonlinear_arith)
                    requires
                        x[0] == 0 && x[1] == -1 && x[2] == 0 && z[0] == -1 && z[1] == 0 && z[2] == 0,
                ;
                lemma_lattice_rotation3(frame(x, cross(z, x), z));
            }
        } else {
            if x[2] == 1 {
                assert(frame_det(0, 0, 1, -1, 0, 0) == 1) by (nonlinear_arith);
                assert(z[1] * x[2] - z[2] * x[1] == 0 && z[2] * x[0] - z[0] * x[2] == 1
                    && z[0] * x[1] - z[1] * x[0] == 0) by (nonlinear_arith)
                    requires
                        x[0] == 0 && x[1] == 0 && x[2] == 1 && z[0] == -1 && z[1] == 0 && z[2] == 0,
                ;
                lemma_lattice_rotation3(frame(x, cross(z, x), z));
            } else {
                assert(frame_det(0, 0, -1, -1, 0, 0) == 1) by (nonlinear_arith);
                assert(z[1] * x[2] - z[2] * x[1] == 0 && z[2] * x[0] - z[0] * x[2] == -1
                    && z[0] * x[1] - z[1] * x[0] == 0) by (nonlinear_arith)
                    requires
                        x[0] == 0 && x[1] == 0 && x[2] == -1 && z[0] == -1 && z[1] == 0 && z[2] == 0,
                ;
                lemma_lattice_rotation3(frame(x, cross(z, x), z));
            }
        }
    }
}

/// The frame lemma when `z` lies along the second axis.
proof fn lemma_frame_along_1(x: Seq<int>, z: Seq<int>)
    requires
        is_unit_vec(x),
        is_unit_vec(z),
        z[1] != 0,
        x[1] == 0,
    ensures
        is_lattice_rotation3(frame(x, cross(z, x), z)),
{
    lemma_frame_det(x, z);
    if z[1] == 1 {
        if x[0] != 0 {
            if x[0] == 1 {
                assert(frame_det(1, 0, 0, 0, 1, 0) == 1) by (nonlinear_arith);
                assert(z[1] * x[2] - z[2] * x[1] == 0 && z[2] * x[0] - z[0] * x[2] == 0
                    && z[0] * x[1] - z[1] * x[0] == -1) by (nonlinear_arith)
                    requires
                        x[0] == 1 && x[1] == 0 && x[2] == 0 && z[0] == 0 && z[1] == 1 && z[2] == 0,
                ;
                lemma_lattice_rotation3(frame(x, cross(z, x), z));
            } else {
                assert(frame_det(-1, 0, 0, 0, 1, 0) == 1) by (nonlinear_arith);
                assert(z[1] * x[2] - z[2] * x[1] == 0 && z[2] * x[0] - z[0] * x[2] == 0
                    && z[0] * x[1] - z[1] * x[0] == 1) by (nonlinear_arith)
                    requires
                        x[0] == -1 && x[1] == 0 && x[2] == 0 && z[0] == 0 && z[1] == 1 && z[2] == 0,
                ;
                lemma_lattice_rotation3(frame(x, cross(z, x), z));
            }
        } else {
            if x[2] == 1 {
                assert(frame_det(0, 0, 1, 0, 1, 0) == 1) by (nonlinear_arith);
                assert(z[1] * x[2] - z[2] * x[1] == 1 && z[2] * x[0] - z[0] * x[2] == 0
                    && z[0] * x[1] - z[1] * x[0] == 0) by (nonlinear_arith)
                    requires
                        x[0] == 0 && x[1] == 0 && x[2] == 1 && z[0] == 0 && z[1] == 1 && z[2] == 0,
                ;
                lemma_lattice_rotation3(frame(x, cross(z, x), z));
            } else {
                assert(frame_det(0, 0, -1, 0, 1, 0) == 1) by (nonlinear_arith);
                assert(z[1] * x[2] - z[2] * x[1] == -1 && z[2] * x[0] - z[0] * x[2] == 0
                    && z[0] * x[1] - z[1] * x[0] == 0) by (nonlinear_arith)
                    requires
                        x[0] == 0 && x[1] == 0 && x[2] == -1 && z[0] == 0 && z[1] == 1 && z[2] == 0,
                ;
                lemma_lattice_rotation3(frame(x, cross(z, x), z));
            }
        }
    } else {
        if x[0] != 0 {
            if x[0] == 1 {
                assert(frame_det(1, 0, 0, 0, -1, 0) == 1) by (nonlinear_arith);
                assert(z[1] * x[2] - z[2] * x[1] == 0 && z[2] * x[0] - z[0] * x[2] == 0
                    && z[0] * x[1] - z[1] * x[0] == 1) by (nonlinear_arith)
                    requires
                        x[0] == 1 && x[1] == 0 && x[2] == 0 && z[0] == 0 && z[1] == -1 && z[2] == 0,
                ;
                lemma_lattice_rotation3(frame(x, cross(z, x), z));
            } else {
                assert(frame_det(-1, 0, 0, 0, -1, 0) == 1) by (nonlinear_arith);
                assert(z[1] * x[2] - z[2] * x[1] == 0 && z[2] * x[0] - z[0] * x[2] == 0
                    && z[0] * x[1] - z[1] * x[0] == -1) by (nonlinear_arith)
                    requires
                        x[0] == -1 && x[1] == 0 && x[2] == 0 && z[0] == 0 && z[1] == -1 && z[2] == 0,
                ;
                lemma_lattice_rotation3(frame(x, cross(z, x), z));
            }
        } else {
            if x[2] == 1 {
                assert(frame_det(0, 0, 1, 0, -1, 0) == 1) by (nonlinear_arith);
                assert(z[1] * x[2] - z[2] * x[1] == -1 && z[2] * x[0] - z[0] * x[2] == 0
                    && z[0] * x[1] - z[1] * x[0] == 0) by (nonlinear_arith)
                    requires
                        x[0] == 0 && x[1] == 0 && x[2] == 1 && z[0] == 0 && z[1] == -1 && z[2] == 0,
                ;
                lemma_lattice_rotation3(frame(x, cross(z, x), z));
            } else {
                assert(frame_det(0, 0, -1, 0, -1, 0) == 1) by (nonlinear_arith);
                assert(z[1] * x[2] - z[2] * x[1] == 1 && z[2] * x[0] - z[0] * x[2] == 0
                    && z[0] * x[1] - z[1] * x[0] == 0) by (nonlinear_arith)
                    requires
                        x[0] == 0 && x[1] == 0 && x[2] == -1 && z[0] == 0 && z[1] == -1 && z[2] == 0,
                ;
                lemma_lattice_rotation3(frame(x, cross(z, x), z));
            }
        }
    }
}

/// The frame lemma when `z` lies along the third axis.
proof fn lemma_frame_along_2(x: Seq<int>, z: Seq<int>)
    requires
        is_unit_vec(x),
        is_unit_vec(z),
        z[2] != 0,
        x[2] == 0,
    ensures
        is_lattice_rotation3(frame(x, cross(z, x), z)),
{
    lemma_frame_det(x, z);
    if z[2] == 1 {
        if x[0] != 0 {
            if x[0] == 1 {
                assert(frame_det(1, 0, 0, 0, 0, 1) == 1) by (nonlinear_arith);
                assert(z[1] * x[2] - z[2] * x[1] == 0 && z[2] * x[0] - z[0] * x[2] == 1
                    && z[0] * x[1] - z[1] * x[0] == 0) by (nonlinear_arith)
                    requires
                        x[0] == 1 && x[1] == 0 && x[2] == 0 && z[0] == 0 && z[1] == 0 && z[2] == 1,
                ;
                lemma_lattice_rotation3(frame(x, cross(z, x), z));
            } else {
                assert(frame_det(-1, 0, 0, 0, 0, 1) == 1) by (nonlinear_arith);
                assert(z[1] * x[2] - z[2] * x[1] == 0 && z[2] * x[0] - z[0] * x[2] == -1
                    && z[0] * x[1] - z[1] * x[0] == 0) by (nonlinear_arith)
                    requires
                        x[0] == -1 && x[1] == 0 && x[2] == 0 && z[0] == 0 && z[1] == 0 && z[2] == 1,
                ;
                lemma_lattice_rotation3(frame(x, cross(z, x), z));
            }
        } else {
            if x[1] == 1 {
                assert(frame_det(0, 1, 0, 0, 0, 1) == 1) by (nonlinear_arith);
                assert(z[1] * x[2] - z[2] * x[1] == -1 && z[2] * x[0] - z[0] * x[2] == 0
                    && z[0] * x[1] - z[1] * x[0] == 0) by (nonlinear_arith)
                    requires
                        x[0] == 0 && x[1] == 1 && x[2] == 0 && z[0] == 0 && z[1] == 0 && z[2] == 1,
                ;
                lemma_lattice_rotation3(frame(x, cross(z, x), z));
            } else {
                assert(frame_det(0, -1, 0, 0, 0, 1) == 1) by (nonlinear_arith);
                assert(z[1] * x[2] - z[2] * x[1] == 1 && z[2] * x[0] - z[0] * x[2] == 0
                    && z[0] * x[1] - z[1] * x[0] == 0) by (nonlinear_arith)
                    requires
                        x[0] == 0 && x[1] == -1 && x[2] == 0 && z[0] == 0 && z[1] == 0 && z[2] == 1,
                ;
                lemma_lattice_rotation3(frame(x, cross(z, x), z));
            }
        }
    } else {
        if x[0] != 0 {
            if x[0] == 1 {
                assert(frame_det(1, 0, 0, 0, 0, -1) == 1) by (nonlinear_arith);
                assert(z[1] * x[2] - z[2] * x[1] == 0 && z[2] * x[0] - z[0] * x[2] == -1
                    && z[0] * x[1] - z[1] * x[0] == 0) by (nonlinear_arith)
                    requires
                        x[0] == 1 && x[1] == 0 && x[2] == 0 && z[0] == 0 && z[1] == 0 && z[2] == -1,
                ;
                lemma_lattice_rotation3(frame(x, cross(z, x), z));
            } else {
                assert(frame_det(-1, 0, 0, 0, 0, -1) == 1) by (nonlinear_arith);
                assert(z[1] * x[2] - z[2] * x[1] == 0 && z[2] * x[0] - z[0] * x[2] == 1
                    && z[0] * x[1] - z[1] * x[0] == 0) by (nonlinear_arith)
                    requires
                        x[0] == -1 && x[1] == 0 && x[2] == 0 && z[0] == 0 && z[1] == 0 && z[2] == -1,
                ;
                lemma_lattice_rotation3(frame(x, cross(z, x), z));
            }
        } else {
            if x[1] == 1 {
                assert(frame_det(0, 1, 0, 0, 0, -1) == 1) by (nonlinear_arith);
                assert(z[1] * x[2] - z[2] * x[1] == 1 && z[2] * x[0] - z[0] * x[2] == 0
                    && z[0] * x[1] - z[1] * x[0] == 0) by (nonlinear_arith)
                    requires
                        x[0] == 0 && x[1] == 1 && x[2] == 0 && z[0] == 0 && z[1] == 0 && z[2] == -1,
                ;
                lemma_lattice_rotation3(frame(x, cross(z, x), z));
            } else {
                assert(frame_det(0, -1, 0, 0, 0, -1) == 1) by (nonlinear_arith);
                assert(z[1] * x[2] - z[2] * x[1] == -1 && z[2] * x[0] - z[0] * x[2] == 0
                    && z[0] * x[1] - z[1] * x[0] == 0) by (nonlinear_arith)
                    requires
                        x[0] == 0 && x[1] == -1 && x[2] == 0 && z[0] == 0 && z[1] == 0 && z[2] == -1,
                ;
                lemma_lattice_rotation3(frame(x, cross(z, x), z));
            }
        }
    }
}

/// Two distinct signed unit axes `x` and `z` span, with `z × x`, a lattice
/// rotation.
proof fn lemma_frame_is_rotation(x: Seq<int>, z: Seq<int>)
    requires
        is_unit_vec(x),
        is_unit_vec(z),
        x[0] == 0 || z[0] == 0,
        x[1] == 0 || z[1] == 0,
        x[2] == 0 || z[2] == 0,
    ensures
        is_lattice_rotation3(frame(x, cross(z, x), z)),
{
    if z[0] != 0 {
        lemma_frame_along_0(x, z);
    } else if z[1] != 0 {
        lemma_frame_along_1(x, z);
    } else {
        lemma_frame_along_2(x, z);
    }
}

/// `a * v0 + b * v1 + c * v2` for a row of a lattice rotation.
fn row_times(a: i64, b: i64, c: i64, v: &[i64; 3]) -> (r: i64)
    requires
        is_unit_axis(a as int, b as int, c as int),
        in_i64(a * v[0] + b * v[1] + c * v[2]),
    ensures
        r == a * v[0] + b * v[1] + c * v[2],
{
    let (x, y, z) = (v[0], v[1], v[2]);
    if a != 0 {
        assert(b * y == 0 && c * z == 0) by (nonlinear_arith)
            requires
                b == 0,
                c == 0,
        ;
        times_unit(a, x)
    } else if b != 0 {
        assert(a * x == 0 && c * z == 0) by (nonlinear_arith)
            requires
                a == 0,
                c == 0,
        ;
        times_unit(b, y)
    } else {
        assert(a * x == 0 && b * y == 0) by (nonlinear_arith)
            requires
                a == 0,
                b == 0,
        ;
        times_unit(c, z)
    }
}

/// A rotation of space stored as its 3x3 matrix, row by row.
#[derive(Clone, Copy, Debug, PartialEq, Eq)]
pub struct Rotation3 {
    pub matrix: [[i64; 3]; 3],
}

/// The matrix `[[a, b, c], [d, e, f], [g, h, i]]`.
fn matrix3(a: i64, b: i64, c: i64, d: i64, e: i64, f: i64, g: i64, h: i64, i: i64) -> (r: [[i64; 3]; 3])
    ensures
        mat3(r) == seq![
            seq![a as int, b as int, c as int],
            seq![d as int, e as int, f as int],
            seq![g as int, h as int, i as int],
        ],
{
    let r = [[a, b, c], [d, e, f], [g, h, i]];
    assert(mat3(r)[0] =~= seq![a as int, b as int, c as int]);
    assert(mat3(r)[1] =~= seq![d as int, e as int, f as int]);
    assert(mat3(r)[2] =~= seq![g as int, h as int, i as int]);
    assert(mat3(r) =~= seq![
        seq![a as int, b as int, c as int],
        seq![d as int, e as int, f as int],
        seq![g as int, h as int, i as int],
    ]);
    r
}

/// The sign of `x`.
fn sign_of(x: i64) -> (r: i64)
    ensures
        r == sign(x as int),
{
    if x > 0 {
        1
    } else if x < 0 {
        -1
    } else {
        0
    }
}

/// The entrywise sign of a 3-vector.
fn signs_of(v: &[i64; 3]) -> (r: [i64; 3])
    ensures
        ints(r) == signs(ints(*v)),
{
    let r = [sign_of(v[0]), sign_of(v[1]), sign_of(v[2])];
    assert(ints(r) =~= signs(ints(*v)));
    r
}

/// `p * u - q * w`, where `u` and `w` are 1, 0 or -1 and one of them is 0.
fn unit_diff(p: i64, u: i64, q: i64, w: i64) -> (r: i64)
    requires
        u == 0 || u == 1 || u == -1,
        w == 0 || w == 1 || w == -1,
        u == 0 || w == 0,
        in_i64(p * u - q * w),
    ensures
        r == p * u - q * w,
{
    if u == 0 {
        assert(p * u == 0 && -w * q == -(q * w)) by (nonlinear_arith)
            requires
                u == 0,
        ;
        times_unit(-w, q)
    } else {
        assert(q * w == 0 && u * p == p * u) by (nonlinear_arith)
            requires
                w == 0,
        ;
        times_unit(u, p)
    }
}

/// The cross product `a × b`, where `b` is a signed unit axis.
fn cross_unit(a: &[i64; 3], b: &[i64; 3]) -> (r: [i64; 3])
    requires
        is_unit_vec(ints(*b)),
        fits(cross(ints(*a), ints(*b))),
    ensures
        ints(r) == cross(ints(*a), ints(*b)),
{
    let ghost c = cross(ints(*a), ints(*b));
    assert(in_i64(c[0]) && in_i64(c[1]) && in_i64(c[2]));
    let r = [
        unit_diff(a[1], b[2], a[2], b[1]),
        unit_diff(a[2], b[0], a[0], b[2]),
        unit_diff(a[0], b[1], a[1], b[0]),
    ];
    assert(ints(r) =~= c);
    r
}

/// A cross product with a signed unit axis has no component along that axis.
proof fn lemma_cross_unit_orthogonal(a: Seq<int>, z: Seq<int>)
    requires
        is_unit_vec(z),
    ensures
        z[0] != 0 ==> cross(a, z)[0] == 0,
        z[1] != 0 ==> cross(a, z)[1] == 0,
        z[2] != 0 ==> cross(a, z)[2] == 0,
{
    let c = cross(a, z);
    assert(c[0] == a[1] * z[2] - a[2] * z[1]);
    assert(c[1] == a[2] * z[0] - a[0] * z[2]);
    assert(c[2] == a[0] * z[1] - a[1] * z[0]);
    assert(z[1] == 0 && z[2] == 0 ==> a[1] * z[2] - a[2] * z[1] == 0) by (nonlinear_arith);
    assert(z[0] == 0 && z[2] == 0 ==> a[2] * z[0] - a[0] * z[2] == 0) by (nonlinear_arith);
    assert(z[0] == 0 && z[1] == 0 ==> a[0] * z[1] - a[1] * z[0] == 0) by (nonlinear_arith);
}

impl Rotation3 {
    /// The rotation that maps the `z` axis onto the direction `dir`, with the
    /// `x` axis along `up × dir`. Both `dir` and `up × dir` must lie along
    /// coordinate axes (so `up` is not collinear with `dir`).
    pub fn face_towards(dir: &[i64; 3], up: &[i64; 3]) -> (r: Self)
        requires
            is_axis_vector(ints(*dir)),
            is_axis_vector(cross(ints(*up), signs(ints(*dir)))),
            fits(cross(ints(*up), signs(ints(*dir)))),
        ensures
            mat3(r.matrix) == face_towards_matrix(ints(*dir), ints(*up)),
            r.is_rotation(),
    {
        let z = signs_of(dir);
        let c = cross_unit(up, &z);
        let x = signs_of(&c);
        proof {
            lemma_cross_unit_orthogonal(ints(*up), ints(z));
            lemma_frame_is_rotation(ints(x), ints(z));
            let m = frame(ints(x), cross(ints(z), ints(x)), ints(z));
            assert(is_unit_axis(m[0][1], m[1][1], m[2][1]));
        }
        let y = cross_unit(&z, &x);
        let r = Rotation3 { matrix: matrix3(x[0], y[0], z[0], x[1], y[1], z[1], x[2], y[2], z[2]) };
        assert(mat3(r.matrix) =~~= face_towards_matrix(ints(*dir), ints(*up)));
        r
    }

    /// The inverse rotation, whose matrix is the transpose.
    pub fn inverse(&self) -> (r: Self)
        requires
            self.is_rotation(),
        ensures
            mat3(r.matrix) == transpose3(mat3(self.matrix)),
            r.is_rotation(),
    {
        let m = self.matrix;
        let r = Rotation3 {
            matrix: matrix3(m[0][0], m[1][0], m[2][0], m[0][1], m[1][1], m[2][1], m[0][2], m[1][2], m[2][2]),
        };
        proof {
            let a = mat3(m);
            let t = mat3(r.matrix);
            assert(t =~~= transpose3(a));
            assert(is_unit_axis(a[0][0], a[0][1], a[0][2]));
            assert(is_unit_axis(a[1][0], a[1][1], a[1][2]));
            assert(is_unit_axis(a[2][0], a[2][1], a[2][2]));
            assert(is_unit_axis(a[0][0], a[1][0], a[2][0]));
            assert(is_unit_axis(a[0][1], a[1][1], a[2][1]));
            assert(is_unit_axis(a[0][2], a[1][2], a[2][2]));
            let (a0, a1, a2, b0, b1, b2, c0, c1, c2) = (a[0][0], a[0][1], a[0][2], a[1][0], a[1][1], a[1][2], a[2][0], a[2][1], a[2][2]);
            assert(a0 * (b1 * c2 - b2 * c1) == a0 * b1 * c2 - a0 * b2 * c1) by (nonlinear_arith);
            assert(a1 * (b0 * c2 - b2 * c0) == a1 * b0 * c2 - a1 * b2 * c0) by (nonlinear_arith);
            assert(a2 * (b0 * c1 - b1 * c0) == a2 * b0 * c1 - a2 * b1 * c0) by (nonlinear_arith);
            assert(a0 * (b1 * c2 - c1 * b2) == a0 * b1 * c2 - a0 * b2 * c1) by (nonlinear_arith);
            assert(b0 * (a1 * c2 - c1 * a2) == a1 * b0 * c2 - a2 * b0 * c1) by (nonlinear_arith);
            assert(c0 * (a1 * b2 - b1 * a2) == a1 * b2 * c0 - a2 * b1 * c0) by (nonlinear_arith);
            lemma_lattice_rotation3(t);
        }
        r
    }
    /// The rotation whose axis is the direction of `axisangle` and whose angle
    /// is its length, in quarter turns. The axis must be a coordinate axis.
    pub fn new(axisangle: &[i64; 3]) -> (r: Self)
        requires
            is_lattice_axis_angle(ints(*axisangle)),
        ensures
            mat3(r.matrix) == axis_angle_matrix(ints(*axisangle)),
            r.is_rotation(),
    {
        if axisangle[0] != 0 {
            let (c, s) = quarter_turn(axisangle[0]);
            proof {
                lemma_about_axis_is_rotation(0, c as int, s as int);
            }
            Rotation3 { matrix: matrix3(1, 0, 0, 0, c, -s, 0, s, c) }
        } else if axisangle[1] != 0 {
            let (c, s) = quarter_turn(axisangle[1]);
            proof {
                lemma_about_axis_is_rotation(1, c as int, s as int);
            }
            Rotation3 { matrix: matrix3(c, 0, s, 0, 1, 0, -s, 0, c) }
        } else {
            let (c, s) = quarter_turn(axisangle[2]);
            proof {
                lemma_about_axis_is_rotation(2, c as int, s as int);
            }
            Rotation3 { matrix: matrix3(c, -s, 0, s, c, 0, 0, 0, 1) }
        }
    }
}

impl AbstractRotation<3> for Rotation3 {
    proof fn lemma_rotate_len(&self, v: Seq<int>) {
    }

    open spec fn is_rotation(&self) -> bool {
        is_lattice_rotation3(mat3(self.matrix))
    }

    open spec fn rotate(&self, v: Seq<int>) -> Seq<int> {
        mat_vec3(mat3(self.matrix), v)
    }

    fn identity() -> (r: Self) {
        let r = Rotation3 { matrix: matrix3(1, 0, 0, 0, 1, 0, 0, 0, 1) };
        proof {
            lemma_about_axis_is_rotation(2, 1, 0);
        }
        assert forall|v: Seq<int>| v.len() == 3 implies #[trigger] r.rotate(v) == v by {
            assert(r.rotate(v)[0] == v[0]);
            assert(r.rotate(v)[1] == v[1]);
            assert(r.rotate(v)[2] == v[2]);
            assert(r.rotate(v) =~= v);
        }
        r
    }

    fn transform_vector(&self, v: &[i64; 3]) -> (r: [i64; 3]) {
        let ghost m = mat3(self.matrix);
        let ghost t = mat_vec3(m, ints(*v));
        assert(in_i64(t[0]) && in_i64(t[1]) && in_i64(t[2]));
        assert(is_unit_axis(m[0][0], m[0][1], m[0][2]));
        assert(is_unit_axis(m[1][0], m[1][1], m[1][2]));
        assert(is_unit_axis(m[2][0], m[2][1], m[2][2]));
        let m0 = self.matrix[0];
        let m1 = self.matrix[1];
        let m2 = self.matrix[2];
        let r = [
            row_times(m0[0], m0[1], m0[2], v),
            row_times(m1[0], m1[1], m1[2], v),
            row_times(m2[0], m2[1], m2[2], v),
        ];
        assert(ints(r) =~= t);
        r
    }
}

} // verus!
