//! Integer vectors and their mathematical values, with exact entrywise
//! arithmetic.
use vstd::prelude::*;

verus! {

/// The mathematical value of a vector of machine integers.
pub open spec fn ints<const D: usize>(a: [i64; D]) -> Seq<int> {
    a@.map_values(|x: i64| x as int)
}

/// Whether `x` can be held by an `i64`.
pub open spec fn in_i64(x: int) -> bool {
    i64::MIN <= x <= i64::MAX
}

/// Whether every entry of `v` can be held by an `i64`.
pub open spec fn fits(v: Seq<int>) -> bool {
    forall|i: int| 0 <= i < v.len() ==> in_i64(#[trigger] v[i])
}

/// The absolute value of `a`.
pub open spec fn abs(a: int) -> int {
    if a < 0 {
        -a
    } else {
        a
    }
}

/// Rust's integer division, which rounds toward zero.
pub open spec fn div_toward_zero(a: int, b: int) -> int {
    let q = abs(a) / abs(b);
    if (a >= 0) == (b > 0) {
        q
    } else {
        -q
    }
}

/// The zero vector of length `n`.
pub open spec fn zeros(n: nat) -> Seq<int> {
    Seq::new(n, |i: int| 0)
}

/// The entrywise sum of `a` and `b`.
pub open spec fn plus(a: Seq<int>, b: Seq<int>) -> Seq<int> {
    Seq::new(a.len(), |i: int| a[i] + b[i])
}

/// The entrywise difference of `a` and `b`.
pub open spec fn minus(a: Seq<int>, b: Seq<int>) -> Seq<int> {
    Seq::new(a.len(), |i: int| a[i] - b[i])
}

/// `a` with every entry multiplied by `k`.
pub open spec fn scaled(a: Seq<int>, k: int) -> Seq<int> {
    Seq::new(a.len(), |i: int| a[i] * k)
}

/// The entrywise sum of two vectors.
pub fn add_vectors<const D: usize>(a: &[i64; D], b: &[i64; D]) -> (r: [i64; D])
    requires
        fits(plus(ints(*a), ints(*b))),
    ensures
        ints(r) == plus(ints(*a), ints(*b)),
{
    let mut r: [i64; D] = [0i64; D];
    let mut i: usize = 0;
    while i < D
        invariant
            0 <= i <= D,
            fits(plus(ints(*a), ints(*b))),
            forall|j: int| 0 <= j < i ==> r@[j] as int == a@[j] + b@[j],
        decreases D - i,
    {
        assert(in_i64(plus(ints(*a), ints(*b))[i as int]));
        r[i] = a[i] + b[i];
        i = i + 1;
    }
    assert(ints(r) =~= plus(ints(*a), ints(*b)));
    r
}

/// The entrywise difference of two vectors.
pub fn sub_vectors<const D: usize>(a: &[i64; D], b: &[i64; D]) -> (r: [i64; D])
    requires
        fits(minus(ints(*a), ints(*b))),
    ensures
        ints(r) == minus(ints(*a), ints(*b)),
{
    let mut r: [i64; D] = [0i64; D];
    let mut i: usize = 0;
    while i < D
        invariant
            0 <= i <= D,
            fits(minus(ints(*a), ints(*b))),
            forall|j: int| 0 <= j < i ==> r@[j] as int == a@[j] - b@[j],
        decreases D - i,
    {
        assert(in_i64(minus(ints(*a), ints(*b))[i as int]));
        r[i] = a[i] - b[i];
        i = i + 1;
    }
    assert(ints(r) =~= minus(ints(*a), ints(*b)));
    r
}

/// A vector with every entry multiplied by `k`.
pub fn scale_vector<const D: usize>(a: &[i64; D], k: i64) -> (r: [i64; D])
    requires
        fits(scaled(ints(*a), k as int)),
    ensures
        ints(r) == scaled(ints(*a), k as int),
{
    let mut r: [i64; D] = [0i64; D];
    let mut i: usize = 0;
    while i < D
        invariant
            0 <= i <= D,
            fits(scaled(ints(*a), k as int)),
            forall|j: int| 0 <= j < i ==> r@[j] as int == a@[j] * k,
        decreases D - i,
    {
        assert(in_i64(scaled(ints(*a), k as int)[i as int]));
        r[i] = a[i] * k;
        i = i + 1;
    }
    assert(ints(r) =~= scaled(ints(*a), k as int));
    r
}

} // verus!
