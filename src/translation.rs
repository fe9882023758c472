//! Translations: displacements of space, their construction and conversion.
use vstd::prelude::*;
use crate::scalar::{narrow, widen};
use crate::point::Point;
use crate::vector::{add_vectors, fits, ints, plus, zeros};

verus! {

/// A displacement in `D`-dimensional space, with components of type `N`.
#[derive(Clone, Copy, Debug, PartialEq, Eq)]
pub struct Translation<N, const D: usize> {
    pub vector: [N; D],
}

pub type Translation1<N> = Translation<N, 1>;
pub type Translation2<N> = Translation<N, 2>;
pub type Translation3<N> = Translation<N, 3>;
pub type Translation4<N> = Translation<N, 4>;
pub type Translation5<N> = Translation<N, 5>;
pub type Translation6<N> = Translation<N, 6>;

impl<N: Copy, const D: usize> Translation<N, D> {
    /// The components in order.
    pub open spec fn view(&self) -> Seq<N> {
        self.vector@
    }
}

impl<N: Copy> Translation<N, 1> {
    /// The displacement with the given components.
    pub fn new(x: N) -> (r: Self)
        ensures
            r@ == seq![x],
    {
        let r = Translation { vector: [x] };
        assert(r@ =~= seq![x]);
        r
    }
}

impl<N: Copy> Translation<N, 2> {
    /// The displacement with the given components, in order.
    pub fn new(x: N, y: N) -> (r: Self)
        ensures
            r@ == seq![x, y],
    {
        let r = Translation { vector: [x, y] };
        assert(r@ =~= seq![x, y]);
        r
    }
}

impl<N: Copy> Translation<N, 3> {
    /// The displacement with the given components, in order.
    pub fn new(x: N, y: N, z: N) -> (r: Self)
        ensures
            r@ == seq![x, y, z],
    {
        let r = Translation { vector: [x, y, z] };
        assert(r@ =~= seq![x, y, z]);
        r
    }
}

impl<N: Copy> Translation<N, 4> {
    /// The displacement with the given components, in order.
    pub fn new(x: N, y: N, z: N, w: N) -> (r: Self)
        ensures
            r@ == seq![x, y, z, w],
    {
        let r = Translation { vector: [x, y, z, w] };
        assert(r@ =~= seq![x, y, z, w]);
        r
    }
}

impl<N: Copy> Translation<N, 5> {
    /// The displacement with the given components, in order.
    pub fn new(x: N, y: N, z: N, w: N, a: N) -> (r: Self)
        ensures
            r@ == seq![x, y, z, w, a],
    {
        let r = Translation { vector: [x, y, z, w, a] };
        assert(r@ =~= seq![x, y, z, w, a]);
        r
    }
}

impl<N: Copy> Translation<N, 6> {
    /// The displacement with the given components, in order.
    pub fn new(x: N, y: N, z: N, w: N, a: N, b: N) -> (r: Self)
        ensures
            r@ == seq![x, y, z, w, a, b],
    {
        let r = Translation { vector: [x, y, z, w, a, b] };
        assert(r@ =~= seq![x, y, z, w, a, b]);
        r
    }
}

impl<N: Copy, const D: usize> From<[N; D]> for Translation<N, D> {
    fn from(vector: [N; D]) -> (r: Self) {
        Translation { vector }
    }
}

impl<N: Copy, const D: usize> vstd::std_specs::convert::FromSpecImpl<[N; D]> for Translation<N, D> {
    open spec fn obeys_from_spec() -> bool {
        true
    }

    open spec fn from_spec(vector: [N; D]) -> Self {
        Translation { vector }
    }
}

impl<const D: usize> Translation<i32, D> {
    /// The translation with every component converted to `i64`.
    pub fn cast(self) -> (r: Translation<i64, D>)
        ensures
            r@ == self@.map_values(|x: i32| x as i64),
    {
        let mut vector: [i64; D] = [0i64; D];
        let mut i: usize = 0;
        while i < D
            invariant
                0 <= i <= D,
                forall|j: int| 0 <= j < i ==> vector@[j] == self.vector@[j] as i64,
            decreases D - i,
        {
            vector[i] = widen(self.vector[i]);
            i = i + 1;
        }
        let r = Translation { vector };
        assert(r@ =~= self@.map_values(|x: i32| x as i64));
        r
    }
}

impl<const D: usize> Translation<i64, D> {
    /// The translation with every component converted to `i32`; a component out
    /// of `i32`'s range keeps its low 32 bits.
    pub fn cast(self) -> (r: Translation<i32, D>)
        ensures
            r@ == self@.map_values(|x: i64| x as i32),
    {
        let mut vector: [i32; D] = [0i32; D];
        let mut i: usize = 0;
        while i < D
            invariant
                0 <= i <= D,
                forall|j: int| 0 <= j < i ==> vector@[j] == self.vector@[j] as i32,
            decreases D - i,
        {
            vector[i] = narrow(self.vector[i]);
            i = i + 1;
        }
        let r = Translation { vector };
        assert(r@ =~= self@.map_values(|x: i64| x as i32));
        r
    }

    /// The translation that moves nothing: every component is zero.
    pub fn identity() -> (r: Self)
        ensures
            ints(r.vector) == zeros(D as nat),
            forall|p: Seq<int>| p.len() == D ==> #[trigger] plus(p, ints(r.vector)) == p,
    {
        let r = Translation { vector: [0i64; D] };
        assert(ints(r.vector) =~= zeros(D as nat));
        assert forall|p: Seq<int>| p.len() == D implies #[trigger] plus(p, ints(r.vector)) == p by {
            lemma_identity_translation_fixes_points(p);
        }
        r
    }

    /// The neutral element of composition, which is the identity.
    pub fn one() -> (r: Self)
        ensures
            ints(r.vector) == zeros(D as nat),
            forall|p: Seq<int>| p.len() == D ==> #[trigger] plus(p, ints(r.vector)) == p,
    {
        Self::identity()
    }

    /// The image of the point `p` under this translation.
    pub fn transform_point(&self, p: &Point<i64, D>) -> (r: Point<i64, D>)
        requires
            fits(plus(ints(p.coords), ints(self.vector))),
        ensures
            ints(r.coords) == plus(ints(p.coords), ints(self.vector)),
    {
        Point { coords: add_vectors(&p.coords, &self.vector) }
    }
}

/// Translating by the identity leaves every point where it is.
pub proof fn lemma_identity_translation_fixes_points(p: Seq<int>)
    ensures
        plus(p, zeros(p.len())) == p,
{
    assert(plus(p, zeros(p.len())) =~= p);
}

} // verus!
