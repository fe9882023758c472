//! Points: construction from components, slices, arrays and homogeneous
//! vectors, bounds, and conversion between coordinate types.
use vstd::prelude::*;
use crate::scalar::{i64_max_value, i64_min_value, narrow, widen};
use crate::vector::{abs, div_toward_zero, in_i64};
use vstd::arithmetic::div_mod::lemma_div_multiples_vanish;

verus! {

/// A position in `D`-dimensional space, with coordinates of type `N`.
#[derive(Clone, Copy, Debug, PartialEq, Eq)]
pub struct Point<N, const D: usize> {
    pub coords: [N; D],
}

pub type Point1<N> = Point<N, 1>;
pub type Point2<N> = Point<N, 2>;
pub type Point3<N> = Point<N, 3>;
pub type Point4<N> = Point<N, 4>;
pub type Point5<N> = Point<N, 5>;
pub type Point6<N> = Point<N, 6>;

impl<N: Copy, const D: usize> Point<N, D> {
    /// The coordinates in order.
    pub open spec fn view(&self) -> Seq<N> {
        self.coords@
    }

    /// The coordinate on axis `i`.
    pub fn coordinate(&self, i: usize) -> (r: N)
        requires
            i < D,
        ensures
            r == self@[i as int],
    {
        self.coords[i]
    }

    /// Builds a point by copying `components` in order. A point here has at
    /// least one coordinate.
    pub fn from_slice(components: &[N]) -> (r: Self)
        requires
            0 < D,
            components@.len() == D,
        ensures
            r@ == components@,
    {
        let mut coords: [N; D] = [components[0]; D];
        let mut i: usize = 1;
        while i < D
            invariant
                components@.len() == D,
                1 <= i <= D,
                forall|j: int| 0 <= j < i ==> coords@[j] == components@[j],
            decreases D - i,
        {
            coords[i] = components[i];
            i = i + 1;
        }
        assert(coords@ =~= components@);
        Point { coords }
    }
}

impl<N: Copy> Point<N, 1> {
    /// Builds a point from its components.
    pub fn new(x: N) -> (r: Self)
        ensures
            r@ == seq![x],
    {
        let r = Point { coords: [x] };
        assert(r@ =~= seq![x]);
        r
    }
}

impl<N: Copy> Point<N, 2> {
    /// Builds a point from its components, in order.
    pub fn new(x: N, y: N) -> (r: Self)
        ensures
            r@ == seq![x, y],
    {
        let r = Point { coords: [x, y] };
        assert(r@ =~= seq![x, y]);
        r
    }
}

impl<N: Copy> Point<N, 3> {
    /// Builds a point from its components, in order.
    pub fn new(x: N, y: N, z: N) -> (r: Self)
        ensures
            r@ == seq![x, y, z],
    {
        let r = Point { coords: [x, y, z] };
        assert(r@ =~= seq![x, y, z]);
        r
    }
}

impl<N: Copy> Point<N, 4> {
    /// Builds a point from its components, in order.
    pub fn new(x: N, y: N, z: N, w: N) -> (r: Self)
        ensures
            r@ == seq![x, y, z, w],
    {
        let r = Point { coords: [x, y, z, w] };
        assert(r@ =~= seq![x, y, z, w]);
        r
    }
}

impl<N: Copy> Point<N, 5> {
    /// Builds a point from its components, in order.
    pub fn new(x: N, y: N, z: N, w: N, a: N) -> (r: Self)
        ensures
            r@ == seq![x, y, z, w, a],
    {
        let r = Point { coords: [x, y, z, w, a] };
        assert(r@ =~= seq![x, y, z, w, a]);
        r
    }
}

impl<N: Copy> Point<N, 6> {
    /// Builds a point from its components, in order.
    pub fn new(x: N, y: N, z: N, w: N, a: N, b: N) -> (r: Self)
        ensures
            r@ == seq![x, y, z, w, a, b],
    {
        let r = Point { coords: [x, y, z, w, a, b] };
        assert(r@ =~= seq![x, y, z, w, a, b]);
        r
    }
}

impl<N: Copy, const D: usize> From<[N; D]> for Point<N, D> {
    fn from(coords: [N; D]) -> (r: Self) {
        Point { coords }
    }
}

impl<N: Copy, const D: usize> vstd::std_specs::convert::FromSpecImpl<[N; D]> for Point<N, D> {
    open spec fn obeys_from_spec() -> bool {
        true
    }

    open spec fn from_spec(coords: [N; D]) -> Self {
        Point { coords }
    }
}

impl<const D: usize> Point<i32, D> {
    /// The point with every coordinate converted to `i64`.
    pub fn cast(self) -> (r: Point<i64, D>)
        ensures
            r@ == self@.map_values(|x: i32| x as i64),
    {
        let mut coords: [i64; D] = [0i64; D];
        let mut i: usize = 0;
        while i < D
            invariant
                0 <= i <= D,
                forall|j: int| 0 <= j < i ==> coords@[j] == self.coords@[j] as i64,
            decreases D - i,
        {
            coords[i] = widen(self.coords[i]);
            i = i + 1;
        }
        let r = Point { coords };
        assert(r@ =~= self@.map_values(|x: i32| x as i64));
        r
    }
}

impl<const D: usize> Point<i64, D> {
    /// The point whose coordinates are all zero.
    pub fn origin() -> (r: Self)
        ensures
            r@ == Seq::new(D as nat, |i: int| 0i64),
    {
        let r = Point { coords: [0i64; D] };
        assert(r@ =~= Seq::new(D as nat, |i: int| 0i64));
        r
    }

    /// The point whose coordinates are all the largest `i64`.
    pub fn max_value() -> (r: Self)
        ensures
            r@ == Seq::new(D as nat, |i: int| i64::MAX),
    {
        let r = Point { coords: [i64_max_value(); D] };
        assert(r@ =~= Seq::new(D as nat, |i: int| i64::MAX));
        r
    }

    /// The point whose coordinates are all the smallest `i64`.
    pub fn min_value() -> (r: Self)
        ensures
            r@ == Seq::new(D as nat, |i: int| i64::MIN),
    {
        let r = Point { coords: [i64_min_value(); D] };
        assert(r@ =~= Seq::new(D as nat, |i: int| i64::MIN));
        r
    }

    /// The point with every coordinate converted to `i32`; a coordinate out of
    /// `i32`'s range keeps its low 32 bits.
    pub fn cast(self) -> (r: Point<i32, D>)
        ensures
            r@ == self@.map_values(|x: i64| x as i32),
    {
        let mut coords: [i32; D] = [0i32; D];
        let mut i: usize = 0;
        while i < D
            invariant
                0 <= i <= D,
                forall|j: int| 0 <= j < i ==> coords@[j] == self.coords@[j] as i32,
            decreases D - i,
        {
            coords[i] = narrow(self.coords[i]);
            i = i + 1;
        }
        let r = Point { coords };
        assert(r@ =~= self@.map_values(|x: i64| x as i32));
        r
    }

    /// The point with the first `D` entries of `v` divided by its last entry,
    /// or `None` when that last entry is zero.
    pub fn from_homogeneous(v: &[i64]) -> (r: Option<Self>)
        requires
            v@.len() == D + 1,
            v@[D as int] != 0 ==> forall|i: int|
                0 <= i < D ==> in_i64(div_toward_zero(#[trigger] v@[i] as int, v@[D as int] as int)),
        ensures
            r is None <==> v@[D as int] == 0,
            r matches Some(p) ==> forall|i: int|
                0 <= i < D ==> p.coords@[i] as int == div_toward_zero(v@[i] as int, v@[D as int] as int),
    {
        let w = v[D];
        if w == 0 {
            return None;
        }
        let mut coords: [i64; D] = [0i64; D];
        let mut i: usize = 0;
        while i < D
            invariant
                v@.len() == D + 1,
                w == v@[D as int],
                w != 0,
                0 <= i <= D,
                forall|i: int| 0 <= i < D ==> in_i64(div_toward_zero(#[trigger] v@[i] as int, w as int)),
                forall|j: int| 0 <= j < i ==> coords@[j] as int == div_toward_zero(v@[j] as int, w as int),
            decreases D - i,
        {
            assert(in_i64(div_toward_zero(v@[i as int] as int, w as int)));
            if let Some(q) = v[i].checked_div(w) {
                coords[i] = q;
            }
            i = i + 1;
        }
        Some(Point { coords })
    }
}

/// The homogeneous vector of `p` with weight `k`: the coordinates of `p`
/// multiplied by `k`, followed by `k`.
pub open spec fn homogeneous(p: Seq<int>, k: int) -> Seq<int> {
    Seq::new(p.len(), |i: int| p[i] * k).push(k)
}

/// Dividing `x * k` by a nonzero `k`, rounding toward zero, gives `x` back.
pub proof fn lemma_div_toward_zero_cancels(x: int, k: int)
    requires
        k != 0,
    ensures
        div_toward_zero(x * k, k) == x,
{
    assert(abs(x * k) == abs(k) * abs(x)) by (nonlinear_arith);
    lemma_div_multiples_vanish(abs(x), abs(k));
    assert(x > 0 ==> ((x * k >= 0) == (k > 0))) by (nonlinear_arith)
        requires
            k != 0,
    ;
    assert(x < 0 ==> ((x * k >= 0) != (k > 0))) by (nonlinear_arith)
        requires
            k != 0,
    ;
    assert(x == 0 ==> x * k == 0) by (nonlinear_arith);
}

/// A homogeneous vector of a point `p` with any nonzero weight `k` has a
/// nonzero last entry, and dividing its other entries by that last entry
/// gives the coordinates of `p` back.
pub proof fn lemma_homogeneous_round_trip(p: Seq<int>, k: int)
    requires
        k != 0,
    ensures
        homogeneous(p, k).len() == p.len() + 1,
        homogeneous(p, k)[p.len() as int] != 0,
        forall|i: int|
            0 <= i < p.len() ==> div_toward_zero(#[trigger] homogeneous(p, k)[i], homogeneous(p, k)[p.len() as int])
                == p[i],
{
    let v = homogeneous(p, k);
    assert forall|i: int|
        0 <= i < p.len() implies div_toward_zero(#[trigger] v[i], v[p.len() as int]) == p[i] by {
        lemma_div_toward_zero_cancels(p[i], k);
    }
}

/// The origin has the coordinates of a slice of `D` zeros.
pub proof fn lemma_origin_is_zero_slice<const D: usize>(zs: Seq<i64>)
    requires
        zs.len() == D,
        forall|i: int| 0 <= i < D ==> zs[i] == 0,
    ensures
        Seq::new(D as nat, |i: int| 0i64) == zs,
{
    assert(Seq::new(D as nat, |i: int| 0i64) =~= zs);
}

/// Widening `i32` coordinates to `i64` and narrowing them back gives the same
/// coordinates.
pub proof fn lemma_cast_round_trip(c: Seq<i32>)
    ensures
        c.map_values(|x: i32| x as i64).map_values(|y: i64| y as i32) == c,
{
    let back = c.map_values(|x: i32| x as i64).map_values(|y: i64| y as i32);
    assert forall|i: int| 0 <= i < c.len() implies #[trigger] back[i] == c[i] by {
        let x = c[i];
        assert((x as i64) as i32 == x) by (bit_vector);
    }
    assert(back =~= c);
}

/// Narrowing `i64` coordinates that lie within `i32`'s range and widening
/// them back gives the same coordinates.
pub proof fn lemma_narrow_cast_round_trip(c: Seq<i64>)
    requires
        forall|i: int| 0 <= i < c.len() ==> i32::MIN <= #[trigger] c[i] <= i32::MAX,
    ensures
        c.map_values(|x: i64| x as i32).map_values(|y: i32| y as i64) == c,
{
    let back = c.map_values(|x: i64| x as i32).map_values(|y: i32| y as i64);
    assert forall|i: int| 0 <= i < c.len() implies #[trigger] back[i] == c[i] by {
        let x = c[i];
        assert(i32::MIN <= x <= i32::MAX);
        assert(i32::MIN <= x <= i32::MAX ==> (x as i32) as i64 == x) by (bit_vector);
    }
    assert(back =~= c);
}

/// Each component handed to a constructor is read back at its own axis.
pub proof fn lemma_components_in_order<N>(x: N, y: N, z: N, w: N, a: N, b: N)
    ensures
        seq![x][0] == x,
        seq![x, y][0] == x && seq![x, y][1] == y,
        seq![x, y, z][0] == x && seq![x, y, z][1] == y && seq![x, y, z][2] == z,
        seq![x, y, z, w][0] == x && seq![x, y, z, w][1] == y && seq![x, y, z, w][2] == z
            && seq![x, y, z, w][3] == w,
        seq![x, y, z, w, a][0] == x && seq![x, y, z, w, a][1] == y && seq![x, y, z, w, a][2] == z
            && seq![x, y, z, w, a][3] == w && seq![x, y, z, w, a][4] == a,
        seq![x, y, z, w, a, b][0] == x && seq![x, y, z, w, a, b][1] == y && seq![x, y, z, w, a, b][2]
            == z && seq![x, y, z, w, a, b][3] == w && seq![x, y, z, w, a, b][4] == a && seq![
            x,
            y,
            z,
            w,
            a,
            b,
        ][5] == b,
{
}

} // verus!
