//! Plane geometry: fixed-point vectors, axis-aligned colliders, and the
//! padded overlap test every damage pass is built on.

use vstd::prelude::*;
use crate::constants::{COORD_LIMIT, SCREEN_HEIGHT, SCREEN_WIDTH, SIZE_LIMIT};
use crate::num::{clamp_i64, scale_i64, scaled};

verus! {

/// A point or displacement in the plane, milli-pixels.
#[derive(Clone, Copy, Debug, PartialEq, Eq, Structural)]
pub struct Vec2i {
    pub x: i64,
    pub y: i64,
}

impl Vec2i {
    pub open spec fn in_bounds(self) -> bool {
        -COORD_LIMIT <= self.x <= COORD_LIMIT && -COORD_LIMIT <= self.y <= COORD_LIMIT
    }

    pub fn new(x: i64, y: i64) -> (v: Vec2i)
        ensures
            v.x == x,
            v.y == y,
    {
        Vec2i { x, y }
    }
}

/// Axis-aligned collision box: full extents, milli-pixels.
#[derive(Clone, Copy, Debug, PartialEq, Eq, Structural)]
pub struct Collider {
    pub w: i64,
    pub h: i64,
}

impl Collider {
    pub open spec fn wf(self) -> bool {
        0 <= self.w <= SIZE_LIMIT && 0 <= self.h <= SIZE_LIMIT
    }
}

/// Paddings stay within this bound (milli-pixels), so the overlap test's
/// sums fit a machine word.
pub const PAD_LIMIT: i64 = 0x1000_0000_0000_0000;

pub open spec fn abs_i(a: int) -> int {
    if a >= 0 {
        a
    } else {
        -a
    }
}

/// Two boxes overlap when, on each axis, the distance between the centers is
/// at most the sum of the two half-extents plus that axis's padding. Stated
/// over doubled quantities so no half is truncated.
pub open spec fn collides(
    a_pos: Vec2i,
    a_col: Collider,
    b_pos: Vec2i,
    b_col: Collider,
    pad_x: int,
    pad_y: int,
) -> bool {
    &&& 2 * abs_i(a_pos.x - b_pos.x) <= a_col.w + b_col.w + 2 * pad_x
    &&& 2 * abs_i(a_pos.y - b_pos.y) <= a_col.h + b_col.h + 2 * pad_y
}

/// The padded axis-aligned overlap test. Padding enlarges the box on each
/// axis, to the distance a fast body travels in one tick.
pub fn aabb_overlap(
    a_pos: Vec2i,
    a_col: Collider,
    b_pos: Vec2i,
    b_col: Collider,
    pad_x: i64,
    pad_y: i64,
) -> (r: bool)
    requires
        a_pos.in_bounds(),
        b_pos.in_bounds(),
        a_col.wf(),
        b_col.wf(),
        0 <= pad_x <= PAD_LIMIT,
        0 <= pad_y <= PAD_LIMIT,
    ensures
        r == collides(a_pos, a_col, b_pos, b_col, pad_x as int, pad_y as int),
{
    let dx: i64 = if a_pos.x >= b_pos.x {
        a_pos.x - b_pos.x
    } else {
        b_pos.x - a_pos.x
    };
    let dy: i64 = if a_pos.y >= b_pos.y {
        a_pos.y - b_pos.y
    } else {
        b_pos.y - a_pos.y
    };
    2 * dx <= a_col.w + b_col.w + 2 * pad_x && 2 * dy <= a_col.h + b_col.h + 2 * pad_y
}

/// Distance traveled along one axis in one tick: `|v| * dt / 1000`
/// (velocity in milli-pixels per second, `dt` in milliseconds).
pub open spec fn travel(v: int, dt: int) -> int {
    scaled(abs_i(v), dt, 1000)
}

pub fn travel_pad(v: i64, dt_ms: u32) -> (r: i64)
    requires
        -crate::constants::VEL_LIMIT <= v <= crate::constants::VEL_LIMIT,
        dt_ms <= crate::constants::DT_LIMIT,
    ensures
        r == travel(v as int, dt_ms as int),
        0 <= r <= PAD_LIMIT,
{
    let a: i64 = if v >= 0 {
        v
    } else {
        -v
    };
    let r = scale_i64(a, dt_ms as i64, 1000);
    proof {
        assert(a * dt_ms <= crate::constants::VEL_LIMIT * (crate::constants::DT_LIMIT as int))
            by (nonlinear_arith)
            requires
                0 <= a <= crate::constants::VEL_LIMIT,
                0 <= dt_ms <= crate::constants::DT_LIMIT,
        ;
        assert(scaled(a as int, dt_ms as int, 1000) <= a * dt_ms) by (nonlinear_arith)
            requires
                0 <= a * dt_ms,
                scaled(a as int, dt_ms as int, 1000) == (a * dt_ms) / 1000,
        ;
    }
    r
}

/// Where a box of the given extents must sit so it lies fully inside the
/// screen: each coordinate clamped to the half-screen minus the half-extent.
pub open spec fn clamped_to_screen(pos: Vec2i, w: int, h: int) -> Vec2i {
    let lo_x = -SCREEN_WIDTH / 2 + w / 2;
    let hi_x = SCREEN_WIDTH / 2 - w / 2;
    let lo_y = -SCREEN_HEIGHT / 2 + h / 2;
    let hi_y = SCREEN_HEIGHT / 2 - h / 2;
    Vec2i {
        x: if pos.x < lo_x {
            lo_x as i64
        } else if pos.x > hi_x {
            hi_x as i64
        } else {
            pos.x
        },
        y: if pos.y < lo_y {
            lo_y as i64
        } else if pos.y > hi_y {
            hi_y as i64
        } else {
            pos.y
        },
    }
}

/// Clamps a position so a box of the given extents stays on screen.
pub fn clamp_to_screen(pos: Vec2i, size_w: i64, size_h: i64) -> (r: Vec2i)
    requires
        pos.in_bounds(),
        0 <= size_w <= SCREEN_WIDTH,
        0 <= size_h <= SCREEN_HEIGHT,
    ensures
        r == clamped_to_screen(pos, size_w as int, size_h as int),
        r.in_bounds(),
{
    let half_w = size_w / 2;
    let half_h = size_h / 2;
    let x = clamp_i64(pos.x, -SCREEN_WIDTH / 2 + half_w, SCREEN_WIDTH / 2 - half_w);
    let y = clamp_i64(pos.y, -SCREEN_HEIGHT / 2 + half_h, SCREEN_HEIGHT / 2 - half_h);
    Vec2i { x, y }
}


/// The distance used to aim and home: the square-root floor of the squared
/// separation, floored to one so it can divide.
pub open spec fn aim_dist(from: Vec2i, to: Vec2i) -> int {
    let dx = to.x - from.x;
    let dy = to.y - from.y;
    let r = crate::num::sqrt_floor((dx * dx + dy * dy) as nat);
    if r < 1 {
        1
    } else {
        r as int
    }
}

/// Computes the aiming distance between two points. The result is at least
/// one and at least as large as each coordinate separation, so scaling a
/// separation by a rate over it never exceeds the rate.
pub fn aim_distance(from: Vec2i, to: Vec2i) -> (d: i64)
    requires
        from.in_bounds(),
        to.in_bounds(),
    ensures
        d == aim_dist(from, to),
        1 <= d <= 0x1_0000_0000,
        abs_i(to.x - from.x) <= d,
        abs_i(to.y - from.y) <= d,
{
    let dx: i64 = to.x - from.x;
    let dy: i64 = to.y - from.y;
    proof {
        let ghost adx: int = abs_i(dx as int);
        let ghost ady: int = abs_i(dy as int);
        if dx >= 0 {
            assert(0 <= dx * dx <= 0x4000_0000_0000_0000int && adx * adx == dx * dx)
                by (nonlinear_arith)
                requires
                    0 <= dx <= 0x8000_0000,
                    adx == dx,
            ;
        } else {
            assert(0 <= dx * dx <= 0x4000_0000_0000_0000int && adx * adx == dx * dx)
                by (nonlinear_arith)
                requires
                    -0x8000_0000 <= dx < 0,
                    adx == -dx,
            ;
        }
        if dy >= 0 {
            assert(0 <= dy * dy <= 0x4000_0000_0000_0000int && ady * ady == dy * dy)
                by (nonlinear_arith)
                requires
                    0 <= dy <= 0x8000_0000,
                    ady == dy,
            ;
        } else {
            assert(0 <= dy * dy <= 0x4000_0000_0000_0000int && ady * ady == dy * dy)
                by (nonlinear_arith)
                requires
                    -0x8000_0000 <= dy < 0,
                    ady == -dy,
            ;
        }
    }
    let sq: u64 = ((dx * dx) as u64) + ((dy * dy) as u64);
    let r: u64 = crate::num::isqrt_u64(sq);
    proof {
        crate::num::lemma_sqrt_floor_unique(sq as nat, r as nat);
        let adx = abs_i(dx as int);
        let ady = abs_i(dy as int);
        assert(adx * adx <= sq && ady * ady <= sq);
        if r < adx {
            assert((r + 1) * (r + 1) <= adx * adx) by (nonlinear_arith)
                requires
                    0 <= r,
                    r + 1 <= adx,
            ;
        }
        if r < ady {
            assert((r + 1) * (r + 1) <= ady * ady) by (nonlinear_arith)
                requires
                    0 <= r,
                    r + 1 <= ady,
            ;
        }
    }
    if r < 1 {
        1
    } else {
        r as i64
    }
}

} // verus!
