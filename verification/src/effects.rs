//! Cosmetic state and its per-tick decay: screen shake, particles, trails,
//! impact flashes and the damage tint overlay.
//!
//! Everything here is short-lived presentation state with exact integer
//! dynamics; the renderer draws it but never decides it.

use vstd::prelude::*;
use crate::constants::{COORD_LIMIT, DT_LIMIT, TAU_MRAD, VEL_LIMIT};
use crate::components::Lifetime;
use crate::geom::{abs_i, Vec2i};
use crate::num::{scale_i64, scaled};

verus! {

/// A color in milli-units per channel; values above 1000 over-drive a bloom
/// pass.
#[derive(Clone, Copy, Debug, PartialEq, Eq, Structural)]
pub struct ColorMilli {
    pub r: u32,
    pub g: u32,
    pub b: u32,
    pub a: u32,
}

/// Screen-shake state: frames left and offset magnitude (milli-pixels). The
/// per-frame camera offset is random and chosen by the shell; the simulation
/// only carries magnitude and duration.
#[derive(Clone, Copy, Debug, PartialEq, Eq, Structural)]
pub struct Shake {
    pub frames: i32,
    pub intensity: i64,
}

impl Shake {
    pub fn quiet() -> (s: Shake)
        ensures
            s == (Shake { frames: 0i32, intensity: 0i64 }),
    {
        Shake { frames: 0, intensity: 0 }
    }

    /// One frame of shake: reports whether the camera should be offset this
    /// frame, and uses up one frame of the pulse.
    pub fn step(&mut self) -> (active: bool)
        ensures
            active == (old(self).frames > 0),
            final(self).intensity == old(self).intensity,
            final(self).frames == if old(self).frames > 0 {
                old(self).frames - 1
            } else {
                old(self).frames as int
            },
    {
        if self.frames > 0 {
            self.frames = self.frames - 1;
            true
        } else {
            false
        }
    }
}

/// A request to spawn a one-shot cluster of particles at a point. Speeds are
/// milli-pixels per second, sizes milli-scale, lifetimes milliseconds; each
/// particle draws uniformly from the given ranges with a random heading.
#[derive(Clone, Copy, Debug, PartialEq, Eq, Structural)]
pub struct BurstRequest {
    pub pos: Vec2i,
    pub color: ColorMilli,
    pub count: u32,
    pub speed_lo: i64,
    pub speed_hi: i64,
    pub size_lo: u32,
    pub size_hi: u32,
    pub life_lo: u32,
    pub life_hi: u32,
    /// Also spawn a brief white flash quad at `pos`.
    pub flash: bool,
}

/// The large, bright half of an enemy-destruction burst.
pub open spec fn destruction_main_burst(pos: Vec2i) -> BurstRequest {
    BurstRequest {
        pos,
        color: ColorMilli { r: 1000u32, g: 600u32, b: 200u32, a: 1000u32 },
        count: 25u32,
        speed_lo: 180_000i64,
        speed_hi: 320_000i64,
        size_lo: 40u32,
        size_hi: 80u32,
        life_lo: 500u32,
        life_hi: 800u32,
        flash: false,
    }
}

/// The fast, small sparks of an enemy-destruction burst.
pub open spec fn destruction_spark_burst(pos: Vec2i) -> BurstRequest {
    BurstRequest {
        pos,
        color: ColorMilli { r: 1000u32, g: 900u32, b: 300u32, a: 1000u32 },
        count: 20u32,
        speed_lo: 300_000i64,
        speed_hi: 450_000i64,
        size_lo: 15u32,
        size_hi: 30u32,
        life_lo: 200u32,
        life_hi: 400u32,
        flash: false,
    }
}

/// The burst a bullet impact leaves, tinted by which side fired.
pub open spec fn impact_burst(pos: Vec2i, friendly: bool) -> BurstRequest {
    BurstRequest {
        pos,
        color: if friendly {
            ColorMilli { r: 500u32, g: 900u32, b: 1000u32, a: 1000u32 }
        } else {
            ColorMilli { r: 1000u32, g: 300u32, b: 300u32, a: 1000u32 }
        },
        count: 12u32,
        speed_lo: 80_000i64,
        speed_hi: 180_000i64,
        size_lo: 15u32,
        size_hi: 35u32,
        life_lo: 150u32,
        life_hi: 350u32,
        flash: true,
    }
}

/// The burst of a ship-to-ship ramming impact.
pub open spec fn ram_burst(pos: Vec2i) -> BurstRequest {
    BurstRequest {
        pos,
        color: ColorMilli { r: 1000u32, g: 500u32, b: 200u32, a: 1000u32 },
        count: 24u32,
        speed_lo: 120_000i64,
        speed_hi: 200_000i64,
        size_lo: 20u32,
        size_hi: 50u32,
        life_lo: 350u32,
        life_hi: 650u32,
        flash: false,
    }
}

/// Builds the two requests of an enemy-destruction burst.
pub fn make_destruction_bursts(pos: Vec2i) -> (r: (BurstRequest, BurstRequest))
    ensures
        r.0 == destruction_main_burst(pos),
        r.1 == destruction_spark_burst(pos),
{
    (
        BurstRequest {
            pos,
            color: ColorMilli { r: 1000, g: 600, b: 200, a: 1000 },
            count: 25,
            speed_lo: 180_000,
            speed_hi: 320_000,
            size_lo: 40,
            size_hi: 80,
            life_lo: 500,
            life_hi: 800,
            flash: false,
        },
        BurstRequest {
            pos,
            color: ColorMilli { r: 1000, g: 900, b: 300, a: 1000 },
            count: 20,
            speed_lo: 300_000,
            speed_hi: 450_000,
            size_lo: 15,
            size_hi: 30,
            life_lo: 200,
            life_hi: 400,
            flash: false,
        },
    )
}

/// Builds a bullet-impact burst request.
pub fn make_impact_burst(pos: Vec2i, friendly: bool) -> (r: BurstRequest)
    ensures
        r == impact_burst(pos, friendly),
{
    BurstRequest {
        pos,
        color: if friendly {
            ColorMilli { r: 500, g: 900, b: 1000, a: 1000 }
        } else {
            ColorMilli { r: 1000, g: 300, b: 300, a: 1000 }
        },
        count: 12,
        speed_lo: 80_000,
        speed_hi: 180_000,
        size_lo: 15,
        size_hi: 35,
        life_lo: 150,
        life_hi: 350,
        flash: true,
    }
}

/// Builds a ramming-impact burst request.
pub fn make_ram_burst(pos: Vec2i) -> (r: BurstRequest)
    ensures
        r == ram_burst(pos),
{
    BurstRequest {
        pos,
        color: ColorMilli { r: 1000, g: 500, b: 200, a: 1000 },
        count: 24,
        speed_lo: 120_000,
        speed_hi: 200_000,
        size_lo: 20,
        size_hi: 50,
        life_lo: 350,
        life_hi: 650,
        flash: false,
    }
}

/// A general-purpose burst with the default particle lifetime range.
pub fn emit_burst(
    pos: Vec2i,
    color: ColorMilli,
    count: u32,
    speed_lo: i64,
    speed_hi: i64,
    size_lo: u32,
    size_hi: u32,
) -> (b: BurstRequest)
    ensures
        b == (BurstRequest {
            pos,
            color,
            count,
            speed_lo,
            speed_hi,
            size_lo,
            size_hi,
            life_lo: 350u32,
            life_hi: 650u32,
            flash: false,
        }),
{
    BurstRequest {
        pos,
        color,
        count,
        speed_lo,
        speed_hi,
        size_lo,
        size_hi,
        life_lo: 350,
        life_hi: 650,
        flash: false,
    }
}

/// One cosmetic particle. Velocity decays by a fixed factor each tick and
/// the scale fades with the spent fraction of the lifetime.
#[derive(Clone, Copy, Debug, PartialEq, Eq, Structural)]
pub struct Particle2D {
    pub pos: Vec2i,
    pub vel: Vec2i,
    pub life_ms: u32,
    pub total_ms: u32,
    pub rot_mrad: i64,
    pub spin_mrad_s: i64,
    pub start: ColorMilli,
    pub end: ColorMilli,
}

impl Particle2D {
    pub open spec fn wf(self) -> bool {
        &&& self.pos.in_bounds()
        &&& -VEL_LIMIT <= self.vel.x <= VEL_LIMIT
        &&& -VEL_LIMIT <= self.vel.y <= VEL_LIMIT
        &&& 0 < self.total_ms
        &&& self.life_ms <= self.total_ms
        &&& 0 <= self.rot_mrad < TAU_MRAD
        &&& -1_000_000 <= self.spin_mrad_s <= 1_000_000
    }

    /// The spent fraction of the particle's life, milli-units.
    pub open spec fn spent_milli(self) -> int {
        1000 - (1000 * self.life_ms) / (self.total_ms as int)
    }

    /// Display scale, milli-units: fades from full toward a floor of a
    /// tenth as the lifetime is spent.
    pub open spec fn scale_milli(self) -> int {
        let s = 1000 - (800 * self.spent_milli()) / 1000;
        if s < 100 {
            100
        } else {
            s
        }
    }

    /// Computes the display scale.
    pub fn scale(&self) -> (s: u32)
        requires
            self.wf(),
        ensures
            s == self.scale_milli(),
    {
        proof {
            assert(1000 * self.life_ms <= 1000 * self.total_ms) by (nonlinear_arith)
                requires
                    self.life_ms <= self.total_ms,
            ;
            vstd::arithmetic::div_mod::lemma_div_is_ordered(
                1000 * self.life_ms,
                1000 * self.total_ms,
                self.total_ms as int,
            );
            vstd::arithmetic::div_mod::lemma_div_multiples_vanish(1000, self.total_ms as int);
        }
        let k: u64 = 1000 - (1000 * (self.life_ms as u64)) / (self.total_ms as u64);
        let s: u64 = 1000 - (800 * k) / 1000;
        if s < 100 {
            100
        } else {
            s as u32
        }
    }

    /// Display color, blending from the start color to the end color over
    /// the spent fraction of the lifetime, with the opacity fading to zero
    /// from nine tenths.
    pub open spec fn color_milli(self) -> ColorMilli {
        let k = self.spent_milli();
        ColorMilli {
            r: ((self.start.r * (1000 - k) + self.end.r * k) / 1000) as u32,
            g: ((self.start.g * (1000 - k) + self.end.g * k) / 1000) as u32,
            b: ((self.start.b * (1000 - k) + self.end.b * k) / 1000) as u32,
            a: (((1000 - k) * 900) / 1000) as u32,
        }
    }

    /// Computes the display color.
    pub fn color(&self) -> (c: ColorMilli)
        requires
            self.wf(),
            self.start.r <= 4000 && self.start.g <= 4000 && self.start.b <= 4000,
            self.end.r <= 4000 && self.end.g <= 4000 && self.end.b <= 4000,
        ensures
            c == self.color_milli(),
    {
        proof {
            assert(1000 * self.life_ms <= 1000 * self.total_ms) by (nonlinear_arith)
                requires
                    self.life_ms <= self.total_ms,
            ;
            vstd::arithmetic::div_mod::lemma_div_is_ordered(
                1000 * self.life_ms,
                1000 * self.total_ms,
                self.total_ms as int,
            );
            vstd::arithmetic::div_mod::lemma_div_multiples_vanish(1000, self.total_ms as int);
            vstd::arithmetic::div_mod::lemma_div_pos_is_pos(
                1000 * self.life_ms,
                self.total_ms as int,
            );
        }
        let k: u64 = 1000 - (1000 * (self.life_ms as u64)) / (self.total_ms as u64);
        proof {
            lemma_blend_bound(self.start.r as int, 1000 - k as int);
            lemma_blend_bound(self.start.g as int, 1000 - k as int);
            lemma_blend_bound(self.start.b as int, 1000 - k as int);
            lemma_blend_bound(self.end.r as int, k as int);
            lemma_blend_bound(self.end.g as int, k as int);
            lemma_blend_bound(self.end.b as int, k as int);
        }
        let r = (((self.start.r as u64) * (1000 - k) + (self.end.r as u64) * k) / 1000) as u32;
        let g = (((self.start.g as u64) * (1000 - k) + (self.end.g as u64) * k) / 1000) as u32;
        let b = (((self.start.b as u64) * (1000 - k) + (self.end.b as u64) * k) / 1000) as u32;
        let a = (((1000 - k) * 900) / 1000) as u32;
        ColorMilli { r, g, b, a }
    }

    /// One tick: drift, damp the velocity by 96/100, spin, and spend
    /// lifetime. Returns false once the lifetime is exhausted; the particle
    /// is then removed.
    pub fn step(&mut self, dt_ms: u32) -> (keep: bool)
        requires
            old(self).wf(),
            dt_ms <= DT_LIMIT,
        ensures
            keep == (old(self).life_ms > dt_ms),
            final(self).pos.x == clip_coord(
                old(self).pos.x + scaled(old(self).vel.x as int, dt_ms as int, 1000),
            ),
            final(self).pos.y == clip_coord(
                old(self).pos.y + scaled(old(self).vel.y as int, dt_ms as int, 1000),
            ),
            final(self).vel.x == scaled(old(self).vel.x as int, 96, 100),
            final(self).vel.y == scaled(old(self).vel.y as int, 96, 100),
            final(self).life_ms == if dt_ms >= old(self).life_ms {
                0int
            } else {
                old(self).life_ms - dt_ms
            },
            final(self).total_ms == old(self).total_ms,
            final(self).rot_mrad == crate::num::wrapped_angle(
                old(self).rot_mrad as int,
                scaled(old(self).spin_mrad_s as int, dt_ms as int, 1000),
            ),
            final(self).start == old(self).start,
            final(self).end == old(self).end,
            final(self).wf(),
    {
        let keep = self.life_ms > dt_ms;
        self.life_ms = if dt_ms >= self.life_ms {
            0
        } else {
            self.life_ms - dt_ms
        };
        proof {
            scaled_bounded_by(
                self.vel.x as int,
                dt_ms as int,
                VEL_LIMIT as int,
                DT_LIMIT as int,
                1000,
            );
            scaled_bounded_by(
                self.vel.y as int,
                dt_ms as int,
                VEL_LIMIT as int,
                DT_LIMIT as int,
                1000,
            );
            assert((VEL_LIMIT as int) * (DT_LIMIT as int) == 0x1000_0000_0000_0000int)
                by (nonlinear_arith);
        }
        let dx = scale_i64(self.vel.x, dt_ms as i64, 1000);
        let dy = scale_i64(self.vel.y, dt_ms as i64, 1000);
        self.pos.x = clip_coord_exec(self.pos.x + dx);
        self.pos.y = clip_coord_exec(self.pos.y + dy);
        proof {
            scaled_shrinks(self.vel.x as int, 96, 100);
            scaled_shrinks(self.vel.y as int, 96, 100);
        }
        self.vel.x = scale_i64(self.vel.x, 96, 100);
        self.vel.y = scale_i64(self.vel.y, 96, 100);
        proof {
            scaled_bounded_by(
                self.spin_mrad_s as int,
                dt_ms as int,
                1_000_000,
                DT_LIMIT as int,
                1000,
            );
        }
        let dr = scale_i64(self.spin_mrad_s, dt_ms as i64, 1000);
        self.rot_mrad = crate::num::wrap_angle(self.rot_mrad, dr);
        keep
    }
}

/// Coordinates of drifting cosmetics are held inside the world bound so the
/// arithmetic above never overflows; anything clipped is far off screen.
pub open spec fn clip_coord(x: int) -> int {
    if x < -COORD_LIMIT {
        -COORD_LIMIT as int
    } else if x > COORD_LIMIT {
        COORD_LIMIT as int
    } else {
        x
    }
}

pub fn clip_coord_exec(x: i64) -> (r: i64)
    requires
        -0x2000_0000_0000_0000 <= x <= 0x2000_0000_0000_0000,
    ensures
        r == clip_coord(x as int),
{
    if x < -COORD_LIMIT {
        -COORD_LIMIT
    } else if x > COORD_LIMIT {
        COORD_LIMIT
    } else {
        x
    }
}

/// A color channel of at most four units weighted by at most a full weight
/// stays small.
proof fn lemma_blend_bound(a: int, w: int)
    requires
        0 <= a <= 4000,
        0 <= w <= 1000,
    ensures
        0 <= a * w <= 4_000_000,
{
    assert(0 <= a * w <= 4_000_000) by (nonlinear_arith)
        requires
            0 <= a <= 4000,
            0 <= w <= 1000,
    ;
}

/// A product scaled down over a denominator stays within the product of the
/// factors' bounds.
pub proof fn scaled_bounded_by(v: int, n: int, v_bound: int, n_bound: int, den: int)
    requires
        -v_bound <= v <= v_bound,
        0 <= n <= n_bound,
        0 < v_bound,
        0 < n_bound,
        0 < den,
    ensures
        -(v_bound * n_bound) <= scaled(v, n, den) <= v_bound * n_bound,
{
    assert(-(v_bound * n_bound) <= v * n <= v_bound * n_bound) by (nonlinear_arith)
        requires
            -v_bound <= v <= v_bound,
            0 <= n <= n_bound,
            0 < v_bound,
            0 < n_bound,
    ;
    if v * n >= 0 {
        vstd::arithmetic::div_mod::lemma_div_nonincreasing(v * n, den);
        vstd::arithmetic::div_mod::lemma_div_pos_is_pos(v * n, den);
    } else {
        vstd::arithmetic::div_mod::lemma_div_nonincreasing(-(v * n), den);
        vstd::arithmetic::div_mod::lemma_div_pos_is_pos(-(v * n), den);
    }
}

/// Scaling by a factor no greater than one never grows a value's magnitude.
pub proof fn scaled_shrinks(v: int, num: int, den: int)
    requires
        0 <= num <= den,
        0 < den,
    ensures
        abs_i(scaled(v, num, den)) <= abs_i(v),
{
    let a = abs_i(v);
    if v >= 0 {
        assert(v * num == a * num);
    } else {
        assert(-(v * num) == a * num) by (nonlinear_arith)
            requires
                a == -v,
        ;
        assert(v * num <= 0) by (nonlinear_arith)
            requires
                v < 0,
                num >= 0,
        ;
    }
    assert(a * num <= a * den) by (nonlinear_arith)
        requires
            0 <= a,
            0 <= num <= den,
    ;
    vstd::arithmetic::div_mod::lemma_div_is_ordered(a * num, a * den, den);
    assert(a * den == den * a) by (nonlinear_arith);
    vstd::arithmetic::div_mod::lemma_div_multiples_vanish(a, den);
    vstd::arithmetic::div_mod::lemma_div_pos_is_pos(a * num, den);
}

/// An entity's recent positions, newest last, oldest evicted once the
/// bounded length is reached.
#[derive(Clone, Debug)]
pub struct Trail {
    pub positions: Vec<Vec2i>,
    pub max_length: usize,
}

impl Trail {
    pub open spec fn wf(self) -> bool {
        self.positions@.len() <= self.max_length && self.max_length >= 1
    }

    pub fn new(max_length: usize) -> (t: Trail)
        requires
            max_length >= 1,
        ensures
            t.positions@ == Seq::<Vec2i>::empty(),
            t.max_length == max_length,
            t.wf(),
    {
        Trail { positions: Vec::new(), max_length }
    }

    /// Appends the current position; once full, the oldest entry leaves.
    pub fn push_position(&mut self, pos: Vec2i)
        requires
            old(self).wf(),
        ensures
            final(self).max_length == old(self).max_length,
            final(self).positions@ == if old(self).positions@.len() + 1 > old(self).max_length {
                old(self).positions@.push(pos).skip(1)
            } else {
                old(self).positions@.push(pos)
            },
            final(self).wf(),
    {
        self.positions.push(pos);
        if self.positions.len() > self.max_length {
            self.positions.remove(0);
            proof {
                assert(self.positions@ =~= old(self).positions@.push(pos).skip(1));
            }
        }
    }
}

/// The red screen-tint overlay spawned when the player is shot; fades out
/// over its lifetime.
#[derive(Clone, Copy, Debug, PartialEq, Eq, Structural)]
pub struct DamageVignette {
    pub lifetime: Lifetime,
    pub total_ms: u32,
    pub intensity_milli: u32,
}

impl DamageVignette {
    pub open spec fn wf(self) -> bool {
        0 < self.total_ms && self.lifetime.remaining_ms <= self.total_ms
            && self.intensity_milli <= 1000
    }

    /// The overlay the combat pass spawns: 600 ms at half intensity.
    pub fn on_player_hit() -> (v: DamageVignette)
        ensures
            v == (DamageVignette {
                lifetime: Lifetime { remaining_ms: 600u32 },
                total_ms: 600u32,
                intensity_milli: 500u32,
            }),
            v.wf(),
    {
        DamageVignette {
            lifetime: Lifetime { remaining_ms: 600 },
            total_ms: 600,
            intensity_milli: 500,
        }
    }

    /// Current opacity, milli-units: the intensity scaled by the unspent
    /// fraction of the lifetime.
    pub open spec fn alpha_milli(self) -> int {
        (self.intensity_milli * self.lifetime.remaining_ms) / (self.total_ms as int)
    }

    pub fn alpha(&self) -> (a: u64)
        requires
            self.wf(),
        ensures
            a == self.alpha_milli(),
    {
        proof {
            assert(self.intensity_milli * self.lifetime.remaining_ms <= 1000 * 0xFFFF_FFFFu32)
                by (nonlinear_arith)
                requires
                    self.intensity_milli <= 1000,
                    self.lifetime.remaining_ms <= 0xFFFF_FFFFu32,
            ;
        }
        ((self.intensity_milli as u64) * (self.lifetime.remaining_ms as u64)) / (
        self.total_ms as u64)
    }

    /// One tick of fade; returns false once spent, and the overlay is then
    /// removed.
    pub fn step(&mut self, dt_ms: u32) -> (keep: bool)
        requires
            old(self).wf(),
        ensures
            final(self).total_ms == old(self).total_ms,
            final(self).intensity_milli == old(self).intensity_milli,
            final(self).lifetime.remaining_ms == if dt_ms >= old(self).lifetime.remaining_ms {
                0int
            } else {
                old(self).lifetime.remaining_ms - dt_ms
            },
            keep == !final(self).lifetime.expired(),
            final(self).wf(),
    {
        self.lifetime.tick(dt_ms);
        !(self.lifetime.remaining_ms == 0)
    }
}

/// The brief white flash a bullet impact leaves; opacity is the unspent
/// lifetime fraction.
#[derive(Clone, Copy, Debug, PartialEq, Eq, Structural)]
pub struct FlashEffect {
    pub lifetime: Lifetime,
    pub total_ms: u32,
}

impl FlashEffect {
    pub open spec fn wf(self) -> bool {
        0 < self.total_ms && self.lifetime.remaining_ms <= self.total_ms
    }

    pub fn on_impact() -> (f: FlashEffect)
        ensures
            f == (FlashEffect { lifetime: Lifetime { remaining_ms: 80u32 }, total_ms: 80u32 }),
            f.wf(),
    {
        FlashEffect { lifetime: Lifetime { remaining_ms: 80 }, total_ms: 80 }
    }

    pub open spec fn alpha_milli(self) -> int {
        (1000 * self.lifetime.remaining_ms) / (self.total_ms as int)
    }

    pub fn alpha(&self) -> (a: u64)
        requires
            self.wf(),
        ensures
            a == self.alpha_milli(),
    {
        (1000u64 * (self.lifetime.remaining_ms as u64)) / (self.total_ms as u64)
    }

    /// One tick of fade; returns false once spent.
    pub fn step(&mut self, dt_ms: u32) -> (keep: bool)
        requires
            old(self).wf(),
        ensures
            final(self).total_ms == old(self).total_ms,
            final(self).lifetime.remaining_ms == if dt_ms >= old(self).lifetime.remaining_ms {
                0int
            } else {
                old(self).lifetime.remaining_ms - dt_ms
            },
            keep == !final(self).lifetime.expired(),
            final(self).wf(),
    {
        self.lifetime.tick(dt_ms);
        !(self.lifetime.remaining_ms == 0)
    }
}


/// The engine-trail decision for the player ship: when the ship moved
/// faster than thirty pixels per second this tick, a two-particle puff is
/// emitted at the new position, tinted brighter with the charge fraction.
pub fn player_trail_step(
    prev: Vec2i,
    cur: Vec2i,
    dt_ms: u32,
    charge_value: u64,
    charge_max: u64,
) -> (r: Option<BurstRequest>)
    requires
        prev.in_bounds(),
        cur.in_bounds(),
        0 < charge_max <= crate::constants::MAX_CHARGE,
        charge_value <= charge_max,
    ensures
        ({
            let dt: int = if dt_ms >= 1 {
                dt_ms as int
            } else {
                1
            };
            let speed = crate::geom::aim_dist(prev, cur) / dt;
            let factor = (1000 * charge_value) / (charge_max as int);
            if speed > 30 {
                r == Some(
                    BurstRequest {
                        pos: cur,
                        color: ColorMilli {
                            r: (300 + (500 * factor) / 1000) as u32,
                            g: (600 + (300 * factor) / 1000) as u32,
                            b: 1200u32,
                            a: 1000u32,
                        },
                        count: 2u32,
                        speed_lo: 60_000i64,
                        speed_hi: 120_000i64,
                        size_lo: 10u32,
                        size_hi: 30u32,
                        life_lo: 350u32,
                        life_hi: 650u32,
                        flash: false,
                    },
                )
            } else {
                r is None
            }
        }),
{
    let dist = crate::geom::aim_distance(prev, cur);
    let dt: u32 = if dt_ms >= 1 {
        dt_ms
    } else {
        1
    };
    let speed: i64 = ((dist as u64) / (dt as u64)) as i64;
    if speed > 30 {
        proof {
            assert(1000 * charge_value <= 1000 * charge_max) by (nonlinear_arith)
                requires
                    charge_value <= charge_max,
            ;
            vstd::arithmetic::div_mod::lemma_div_is_ordered(
                1000 * charge_value,
                1000 * charge_max,
                charge_max as int,
            );
            vstd::arithmetic::div_mod::lemma_div_multiples_vanish(1000, charge_max as int);
            vstd::arithmetic::div_mod::lemma_div_pos_is_pos(
                1000 * charge_value,
                charge_max as int,
            );
        }
        let factor: u64 = (1000 * charge_value) / charge_max;
        Some(
            BurstRequest {
                pos: cur,
                color: ColorMilli {
                    r: (300 + (500 * factor) / 1000) as u32,
                    g: (600 + (300 * factor) / 1000) as u32,
                    b: 1200,
                    a: 1000,
                },
                count: 2,
                speed_lo: 60_000,
                speed_hi: 120_000,
                size_lo: 10,
                size_hi: 30,
                life_lo: 350,
                life_hi: 650,
                flash: false,
            },
        )
    } else {
        None
    }
}

} // verus!
