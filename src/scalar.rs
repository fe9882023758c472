//! Conversions and bounds of the coordinate types, as the numeric crates give them.
use vstd::prelude::*;
use simba::scalar::SupersetOf;

verus! {

/// Relies on num's `Bounded::max_value` for `i64`: the largest `i64`.
#[verifier::external_body]
pub(crate) fn i64_max_value() -> (r: i64)
    ensures
        r == i64::MAX,
{
    <i64 as num::Bounded>::max_value()
}

/// Relies on num's `Bounded::min_value` for `i64`: the smallest `i64`.
#[verifier::external_body]
pub(crate) fn i64_min_value() -> (r: i64)
    ensures
        r == i64::MIN,
{
    <i64 as num::Bounded>::min_value()
}

/// Relies on simba's `SupersetOf<i32>::from_subset` for `i64`, an `as` conversion.
#[verifier::external_body]
pub(crate) fn widen(x: i32) -> (r: i64)
    ensures
        r == x as i64,
{
    <i64 as SupersetOf<i32>>::from_subset(&x)
}

/// Relies on simba's `SupersetOf<i64>::from_subset` for `i32`, an `as` conversion
/// (which keeps the low 32 bits).
#[verifier::external_body]
pub(crate) fn narrow(x: i64) -> (r: i32)
    ensures
        r == x as i32,
{
    <i32 as SupersetOf<i64>>::from_subset(&x)
}

} // verus!
