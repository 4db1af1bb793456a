//! Randomness. One trusted declaration covers the outside generator; every
//! range mapping on top of it is verified, so each caller knows exactly the
//! interval its draw falls in, and nothing more.

use vstd::prelude::*;

verus! {

/// Relies on rand::random: draws a value from the thread-local generator.
/// Nothing can be promised of a random value, so no clause is stated.
pub assume_specification<T>[ rand::random::<T> ]() -> (r: T)
    where
        rand::distributions::Standard: rand::distributions::Distribution<T>,
;

/// A draw below `n`.
pub fn rand_below_u32(n: u32) -> (r: u32)
    requires
        n > 0,
    ensures
        r < n,
{
    let x: u32 = rand::random::<u32>();
    x % n
}

/// A draw in `[lo, hi)`.
pub fn rand_in_range_u32(lo: u32, hi: u32) -> (r: u32)
    requires
        lo < hi,
    ensures
        lo <= r < hi,
{
    lo + rand_below_u32(hi - lo)
}

/// A draw in `[lo, hi)` over signed fixed-point quantities.
pub fn rand_in_range_i64(lo: i64, hi: i64) -> (r: i64)
    requires
        lo < hi,
        hi - lo <= 0xFFFF_FFFF,
    ensures
        lo <= r < hi,
{
    let width: u32 = (hi - lo) as u32;
    let draw = rand_below_u32(width);
    lo + draw as i64
}

} // verus!
