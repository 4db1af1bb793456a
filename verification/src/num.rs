//! Fixed-point arithmetic helpers.
//!
//! World lengths are in milli-pixels, time in milliseconds and rates in
//! milli-units per second, so every product here is of the form
//! `value * numerator / denominator` with truncation toward zero, exactly as
//! the binary operations on machine integers give it.

use vstd::prelude::*;

verus! {

/// Signed division truncating toward zero (the machine `/` on like-signed
/// non-negative operands), for a positive divisor.
pub open spec fn div_trunc(a: int, b: int) -> int {
    if a >= 0 {
        a / b
    } else {
        -((-a) / b)
    }
}

/// `v * num / den`, truncated toward zero.
pub open spec fn scaled(v: int, num: int, den: int) -> int {
    div_trunc(v * num, den)
}

/// Largest bound accepted for the factors of `scale_i64`; products of two
/// such factors stay below `i64::MAX`.
pub const SCALE_BOUND: i64 = 0x8000_0000;

/// Computes `v * num / den` truncated toward zero, without overflow.
pub fn scale_i64(v: i64, num: i64, den: i64) -> (r: i64)
    requires
        0 < den,
        0 <= num <= SCALE_BOUND,
        -SCALE_BOUND <= v <= SCALE_BOUND,
    ensures
        r == scaled(v as int, num as int, den as int),
{
    let a: u64 = if v >= 0 {
        v as u64
    } else {
        (-v) as u64
    };
    proof {
        assert(a * num <= SCALE_BOUND * SCALE_BOUND) by (nonlinear_arith)
            requires
                a <= SCALE_BOUND,
                0 <= num <= SCALE_BOUND,
        ;
    }
    let p: u64 = a * (num as u64);
    let q: u64 = p / (den as u64);
    proof {
        vstd::arithmetic::div_mod::lemma_div_nonincreasing(p as int, den as int);
        if v >= 0 {
            assert(v * num == a * num);
        } else {
            assert(v * num == -(a * num)) by (nonlinear_arith)
                requires
                    a == -(v as int),
            ;
        }
    }
    if v >= 0 {
        q as i64
    } else {
        -(q as i64)
    }
}

/// Clamps `v` into `[lo, hi]`.
pub fn clamp_i64(v: i64, lo: i64, hi: i64) -> (r: i64)
    requires
        lo <= hi,
    ensures
        r == if v < lo {
            lo
        } else if v > hi {
            hi
        } else {
            v
        },
        lo <= r <= hi,
{
    if v < lo {
        lo
    } else if v > hi {
        hi
    } else {
        v
    }
}

/// Integer square root: the largest `r` with `r * r <= n`.
pub fn isqrt_u64(n: u64) -> (r: u64)
    ensures
        r * r <= n,
        n < (r + 1) * (r + 1),
        r < 0x1_0000_0000,
{
    let mut lo: u64 = 0;
    let mut hi: u64 = 0x1_0000_0000;
    proof {
        assert((0x1_0000_0000u64 as int) * (0x1_0000_0000u64 as int) == 0x1_0000_0000_0000_0000int)
            by (nonlinear_arith);
    }
    while hi - lo > 1
        invariant
            lo < hi <= 0x1_0000_0000,
            lo * lo <= n,
            n < hi * hi,
        decreases hi - lo,
    {
        let mid: u64 = lo + (hi - lo) / 2;
        proof {
            assert(mid * mid <= 0x1_0000_0000 * 0x1_0000_0000) by (nonlinear_arith)
                requires
                    0 <= mid <= 0x1_0000_0000,
            ;
        }
        let sq: u128 = (mid as u128) * (mid as u128);
        if sq <= n as u128 {
            lo = mid;
        } else {
            hi = mid;
        }
    }
    lo
}


/// The floor of the square root, as the unique value the executable search
/// brackets.
pub open spec fn sqrt_floor(n: nat) -> nat {
    choose|r: nat| #![trigger r * r] r * r <= n < (r + 1) * (r + 1)
}

/// Any bracketing value is the square-root floor.
pub proof fn lemma_sqrt_floor_unique(n: nat, r: nat)
    requires
        r * r <= n,
        n < (r + 1) * (r + 1),
    ensures
        sqrt_floor(n) == r,
{
    assert(exists|q: nat| #![trigger q * q] q * q <= n < (q + 1) * (q + 1)) by {
        assert(r * r <= n < (r + 1) * (r + 1));
    }
    let q = sqrt_floor(n);
    assert(q * q <= n < (q + 1) * (q + 1));
    if q < r {
        assert((q + 1) * (q + 1) <= r * r) by (nonlinear_arith)
            requires
                q + 1 <= r,
        ;
    }
    if r < q {
        assert((r + 1) * (r + 1) <= q * q) by (nonlinear_arith)
            requires
                r + 1 <= q,
        ;
    }
}

/// A value no larger than the denominator, scaled by a ratio `num / den`,
/// stays within `num`.
pub proof fn lemma_scaled_ratio_bound(v: int, num: int, den: int)
    requires
        -den <= v <= den,
        0 < den,
        0 <= num,
    ensures
        -num <= scaled(v, num, den) <= num,
{
    let a = if v >= 0 {
        v
    } else {
        -v
    };
    if v >= 0 {
        assert(v * num == a * num);
    } else {
        assert(-(v * num) == a * num) by (nonlinear_arith)
            requires
                a == -v,
        ;
        assert(v * num <= 0) by (nonlinear_arith)
            requires
                v < 0,
                num >= 0,
        ;
    }
    assert(a * num <= den * num) by (nonlinear_arith)
        requires
            0 <= a <= den,
            0 <= num,
    ;
    vstd::arithmetic::div_mod::lemma_div_is_ordered(a * num, den * num, den);
    vstd::arithmetic::div_mod::lemma_div_multiples_vanish(num, den);
    vstd::arithmetic::div_mod::lemma_div_pos_is_pos(a * num, den);
}


/// An angle in `[0, TAU_MRAD)` advanced by a (possibly negative) delta,
/// with the delta first reduced to less than a full turn.
pub open spec fn wrapped_angle(rot: int, dr: int) -> int {
    let tau = crate::constants::TAU_MRAD as int;
    let a = (if dr >= 0 {
        dr
    } else {
        -dr
    }) % tau;
    if dr >= 0 {
        if rot + a >= tau {
            rot + a - tau
        } else {
            rot + a
        }
    } else {
        if rot - a < 0 {
            rot - a + tau
        } else {
            rot - a
        }
    }
}

/// Advances a wrapped angle.
pub fn wrap_angle(rot: i64, dr: i64) -> (r: i64)
    requires
        0 <= rot < crate::constants::TAU_MRAD,
        -0x7000_0000_0000_0000 <= dr <= 0x7000_0000_0000_0000,
    ensures
        r == wrapped_angle(rot as int, dr as int),
        0 <= r < crate::constants::TAU_MRAD,
{
    let tau = crate::constants::TAU_MRAD;
    let dr_abs: i64 = if dr >= 0 {
        dr
    } else {
        -dr
    };
    let a: i64 = ((dr_abs as u64) % (tau as u64)) as i64;
    if dr >= 0 {
        let t = rot + a;
        if t >= tau {
            t - tau
        } else {
            t
        }
    } else {
        let t = rot - a;
        if t < 0 {
            t + tau
        } else {
            t
        }
    }
}

} // verus!
