//! Enemy data: scoring kinds, spawnable archetypes and their stat table,
//! the closed set of movement patterns, firing patterns, and the enemy
//! entity itself.

use vstd::prelude::*;
use crate::constants::{
    COORD_LIMIT, POINTS_ENEMY, POINTS_METEOR, POINTS_SPECIAL, SCREEN_WIDTH, TAU_MRAD,
};
use crate::components::Health;
use crate::effects::ColorMilli;
use crate::geom::{Collider, Vec2i};
use crate::geom::{abs_i, aim_dist};
use crate::num::{scaled, wrapped_angle};
use crate::rng::{rand_below_u32, rand_in_range_i64, rand_in_range_u32};

verus! {

/// Scoring and behavior category, orthogonal to the archetype.
#[derive(Clone, Copy, Debug, PartialEq, Eq, Structural)]
pub enum EnemyKind {
    Basic,
    Meteor,
    Special,
}

/// Points awarded for destroying an enemy of each kind.
pub open spec fn points_of(kind: EnemyKind) -> int {
    match kind {
        EnemyKind::Basic => POINTS_ENEMY as int,
        EnemyKind::Meteor => POINTS_METEOR as int,
        EnemyKind::Special => POINTS_SPECIAL as int,
    }
}

pub fn kind_points(kind: EnemyKind) -> (p: u32)
    ensures
        p == points_of(kind),
{
    match kind {
        EnemyKind::Basic => POINTS_ENEMY,
        EnemyKind::Meteor => POINTS_METEOR,
        EnemyKind::Special => POINTS_SPECIAL,
    }
}

/// A named enemy stat preset.
#[derive(Clone, Copy, Debug, PartialEq, Eq, Structural)]
pub enum EnemyType {
    Scout,
    Heavy,
    Bomber,
    Drone,
}

/// The stat row an archetype maps to: extents, hit points, speed-factor
/// range (milli-units; 1000 is the base pace), scoring kind, hull tint, and
/// the movement-pattern indices it may start with.
#[derive(Clone, Copy, Debug, PartialEq, Eq, Structural)]
pub struct ArchetypeStats {
    pub size: Collider,
    pub hp: i32,
    pub speed_lo: i64,
    pub speed_hi: i64,
    pub kind: EnemyKind,
    pub color: ColorMilli,
    pub movement_lo: u8,
    pub movement_hi: u8,
}

pub open spec fn stats_of(t: EnemyType) -> ArchetypeStats {
    match t {
        EnemyType::Scout => ArchetypeStats {
            size: Collider { w: 16_000i64, h: 16_000i64 },
            hp: 3i32,
            speed_lo: 1000i64,
            speed_hi: 1400i64,
            kind: EnemyKind::Basic,
            color: ColorMilli { r: 300u32, g: 1000u32, b: 300u32, a: 1000u32 },
            movement_lo: 4u8,
            movement_hi: 7u8,
        },
        EnemyType::Heavy => ArchetypeStats {
            size: Collider { w: 24_000i64, h: 24_000i64 },
            hp: 12i32,
            speed_lo: 500i64,
            speed_hi: 800i64,
            kind: EnemyKind::Basic,
            color: ColorMilli { r: 800u32, g: 300u32, b: 300u32, a: 1000u32 },
            movement_lo: 0u8,
            movement_hi: 4u8,
        },
        EnemyType::Bomber => ArchetypeStats {
            size: Collider { w: 20_000i64, h: 18_000i64 },
            hp: 6i32,
            speed_lo: 700i64,
            speed_hi: 1000i64,
            kind: EnemyKind::Special,
            color: ColorMilli { r: 900u32, g: 600u32, b: 200u32, a: 1000u32 },
            movement_lo: 4u8,
            movement_hi: 7u8,
        },
        EnemyType::Drone => ArchetypeStats {
            size: Collider { w: 14_000i64, h: 14_000i64 },
            hp: 4i32,
            speed_lo: 900i64,
            speed_hi: 1300i64,
            kind: EnemyKind::Basic,
            color: ColorMilli { r: 500u32, g: 500u32, b: 1000u32, a: 1000u32 },
            movement_lo: 7u8,
            movement_hi: 8u8,
        },
    }
}

pub fn archetype_stats(t: EnemyType) -> (s: ArchetypeStats)
    ensures
        s == stats_of(t),
{
    match t {
        EnemyType::Scout => ArchetypeStats {
            size: Collider { w: 16_000, h: 16_000 },
            hp: 3,
            speed_lo: 1000,
            speed_hi: 1400,
            kind: EnemyKind::Basic,
            color: ColorMilli { r: 300, g: 1000, b: 300, a: 1000 },
            movement_lo: 4,
            movement_hi: 7,
        },
        EnemyType::Heavy => ArchetypeStats {
            size: Collider { w: 24_000, h: 24_000 },
            hp: 12,
            speed_lo: 500,
            speed_hi: 800,
            kind: EnemyKind::Basic,
            color: ColorMilli { r: 800, g: 300, b: 300, a: 1000 },
            movement_lo: 0,
            movement_hi: 4,
        },
        EnemyType::Bomber => ArchetypeStats {
            size: Collider { w: 20_000, h: 18_000 },
            hp: 6,
            speed_lo: 700,
            speed_hi: 1000,
            kind: EnemyKind::Special,
            color: ColorMilli { r: 900, g: 600, b: 200, a: 1000 },
            movement_lo: 4,
            movement_hi: 7,
        },
        EnemyType::Drone => ArchetypeStats {
            size: Collider { w: 14_000, h: 14_000 },
            hp: 4,
            speed_lo: 900,
            speed_hi: 1300,
            kind: EnemyKind::Basic,
            color: ColorMilli { r: 500, g: 500, b: 1000, a: 1000 },
            movement_lo: 7,
            movement_hi: 8,
        },
    }
}

/// Trail tint by scoring kind.
pub open spec fn trail_color_of(kind: EnemyKind) -> ColorMilli {
    match kind {
        EnemyKind::Basic => ColorMilli { r: 1200u32, g: 300u32, b: 300u32, a: 1000u32 },
        EnemyKind::Meteor => ColorMilli { r: 800u32, g: 600u32, b: 400u32, a: 1000u32 },
        EnemyKind::Special => ColorMilli { r: 800u32, g: 500u32, b: 800u32, a: 1000u32 },
    }
}

pub fn trail_color(kind: EnemyKind) -> (c: ColorMilli)
    ensures
        c == trail_color_of(kind),
{
    match kind {
        EnemyKind::Basic => ColorMilli { r: 1200, g: 300, b: 300, a: 1000 },
        EnemyKind::Meteor => ColorMilli { r: 800, g: 600, b: 400, a: 1000 },
        EnemyKind::Special => ColorMilli { r: 800, g: 500, b: 800, a: 1000 },
    }
}

/// The closed set of kinematic behaviors, one per pattern index.
#[derive(Clone, Copy, Debug, PartialEq, Eq, Structural)]
pub enum Movement {
    /// 0-3: straight cardinal drift.
    DriftDown,
    DriftUp,
    DriftLeft,
    DriftRight,
    /// 4-6: sinusoidal drift with growing amplitude and frequency.
    SineDown,
    SineRight,
    SineRush,
    /// 7: diagonal drift homing on the player.
    Homing,
    /// 8: circular orbit around a slowly descending center.
    Orbit,
    /// 9: three-phase dash toward and away from the player.
    Dash,
    /// 10-12: formation drifts around a shared anchor.
    FormationSway,
    FormationWave,
    FormationOrbit,
}

/// How many movement patterns exist.
pub const MOVEMENT_COUNT: u8 = 13;

pub open spec fn movement_of_index(i: int) -> Movement {
    if i == 0 {
        Movement::DriftDown
    } else if i == 1 {
        Movement::DriftUp
    } else if i == 2 {
        Movement::DriftLeft
    } else if i == 3 {
        Movement::DriftRight
    } else if i == 4 {
        Movement::SineDown
    } else if i == 5 {
        Movement::SineRight
    } else if i == 6 {
        Movement::SineRush
    } else if i == 7 {
        Movement::Homing
    } else if i == 8 {
        Movement::Orbit
    } else if i == 9 {
        Movement::Dash
    } else if i == 10 {
        Movement::FormationSway
    } else if i == 11 {
        Movement::FormationWave
    } else {
        Movement::FormationOrbit
    }
}

pub fn movement_from_index(i: u8) -> (m: Movement)
    requires
        i < MOVEMENT_COUNT,
    ensures
        m == movement_of_index(i as int),
{
    if i == 0 {
        Movement::DriftDown
    } else if i == 1 {
        Movement::DriftUp
    } else if i == 2 {
        Movement::DriftLeft
    } else if i == 3 {
        Movement::DriftRight
    } else if i == 4 {
        Movement::SineDown
    } else if i == 5 {
        Movement::SineRight
    } else if i == 6 {
        Movement::SineRush
    } else if i == 7 {
        Movement::Homing
    } else if i == 8 {
        Movement::Orbit
    } else if i == 9 {
        Movement::Dash
    } else if i == 10 {
        Movement::FormationSway
    } else if i == 11 {
        Movement::FormationWave
    } else {
        Movement::FormationOrbit
    }
}

/// How an enemy fires once its shoot countdown elapses.
#[derive(Clone, Copy, Debug, PartialEq, Eq, Structural)]
pub enum FiringPattern {
    /// Two parallel downward bolts offset left and right of the muzzle.
    Single,
    /// Bolts fanned evenly across an angle centered on straight down.
    Spread { bullet_count: u32, spread_angle_mrad: i64 },
    /// One bolt toward the player, straight down with no player.
    Aimed,
    /// Bolts spaced along the muzzle's width, all straight down.
    Burst { bullet_count: u32, burst_delay_ms: u32 },
}

/// A simulated enemy ship.
#[derive(Clone, Copy, Debug, PartialEq, Eq, Structural)]
pub struct Enemy {
    pub pos: Vec2i,
    pub col: Collider,
    pub health: Health,
    pub kind: EnemyKind,
    pub firing: FiringPattern,
    /// Active movement pattern, re-rolled when `distance` runs out.
    pub movement: Movement,
    /// Ticks until the movement pattern is re-rolled.
    pub distance: i32,
    /// Oscillation phase, milli-radians in `[0, TAU_MRAD)`.
    pub phase: i64,
    /// Pace factor, milli-units; 1000 is the base pace.
    pub speed: i64,
    /// Ticks until the next shot.
    pub shoot_time: i32,
    pub circular_center: Vec2i,
    pub circular_radius: i64,
    /// Orbit angle, milli-radians in `[0, TAU_MRAD)`.
    pub circular_angle: i64,
    /// Dash sub-state: 0 approach, 1 retreat, 2 cooldown drift.
    pub dash_state: u8,
    pub dash_timer_ms: u32,
    pub dash_cooldown_ms: u32,
    pub formation_anchor: Vec2i,
    pub formation_offset: Vec2i,
}

impl Enemy {
    pub open spec fn wf(self) -> bool {
        &&& self.pos.in_bounds()
        &&& self.col.wf()
        &&& self.health.wf()
        &&& 0 <= self.distance
        &&& 0 <= self.phase < TAU_MRAD
        &&& 0 <= self.speed <= 2000
        &&& 0 <= self.shoot_time
        &&& self.circular_center.in_bounds()
        &&& 0 <= self.circular_radius <= 200_000
        &&& 0 <= self.circular_angle < TAU_MRAD
        &&& self.dash_state <= 2
        &&& self.dash_timer_ms <= 1000
        &&& self.dash_cooldown_ms < 1000
        &&& self.formation_anchor.in_bounds()
        &&& -COORD_LIMIT <= self.formation_offset.x <= COORD_LIMIT
        &&& -COORD_LIMIT <= self.formation_offset.y <= COORD_LIMIT
    }
}

/// Instantiates an enemy of the given archetype at a random spot in the top
/// band of the screen, with its stats drawn from the table. Everything
/// random is pinned to its interval; everything else is exact.
pub fn spawn_enemy(t: EnemyType) -> (e: Enemy)
    ensures
        e.kind == stats_of(t).kind,
        e.col == stats_of(t).size,
        e.health == (Health { hp: stats_of(t).hp, max: stats_of(t).hp }),
        e.firing == FiringPattern::Single,
        stats_of(t).speed_lo <= e.speed < stats_of(t).speed_hi,
        exists|i: int|
            stats_of(t).movement_lo <= i < stats_of(t).movement_hi && e.movement
                == movement_of_index(i),
        -SCREEN_WIDTH / 2 + 30_000 <= e.pos.x < SCREEN_WIDTH / 2 - 30_000,
        140_000 <= e.pos.y < 180_000,
        20 <= e.distance < 70,
        20 <= e.shoot_time < 120,
        e.circular_center == e.pos,
        60_000 <= e.circular_radius < 120_000,
        e.dash_state == 0,
        e.dash_timer_ms == 0,
        e.dash_cooldown_ms == 0,
        e.formation_anchor == e.pos,
        -80_000 <= e.formation_offset.x < 80_000,
        -60_000 <= e.formation_offset.y < 60_000,
        e.wf(),
{
    let stats = archetype_stats(t);
    let x = rand_in_range_i64(-SCREEN_WIDTH / 2 + 30_000, SCREEN_WIDTH / 2 - 30_000);
    let y = rand_in_range_i64(140_000, 180_000);
    let pos = Vec2i { x, y };
    let movement_index = rand_in_range_u32(stats.movement_lo as u32, stats.movement_hi as u32);
    let movement = movement_from_index(movement_index as u8);
    Enemy {
        pos,
        col: stats.size,
        health: Health { hp: stats.hp, max: stats.hp },
        kind: stats.kind,
        firing: FiringPattern::Single,
        movement,
        distance: rand_in_range_u32(20, 70) as i32,
        phase: rand_in_range_i64(0, TAU_MRAD),
        speed: rand_in_range_i64(stats.speed_lo, stats.speed_hi),
        shoot_time: rand_in_range_u32(20, 120) as i32,
        circular_center: pos,
        circular_radius: rand_in_range_i64(60_000, 120_000),
        circular_angle: rand_in_range_i64(0, TAU_MRAD),
        dash_state: 0,
        dash_timer_ms: 0,
        dash_cooldown_ms: 0,
        formation_anchor: pos,
        formation_offset: Vec2i {
            x: rand_in_range_i64(-80_000, 80_000),
            y: rand_in_range_i64(-60_000, 60_000),
        },
    }
}


/// The trigonometric samples one movement tick needs, in milli-units; the
/// shell computes them with its own floating point. Which angle each field
/// samples depends on the active pattern:
/// - `sin_phase`: the sine of the phase *after* this tick's advance for the
///   sinusoidal drifts and the dash cooldown drift, and of the phase
///   *before* it for the two formation sway patterns;
/// - `orbit_cos`/`orbit_sin`: of the orbit angle after this tick's advance;
/// - `form_cos`/`form_sin`: of this tick's advanced phase plus the
///   formation offset angle (the offset's x in centi-radians).
#[derive(Clone, Copy, Debug, PartialEq, Eq, Structural)]
pub struct TrigSample {
    pub sin_phase: i64,
    pub orbit_cos: i64,
    pub orbit_sin: i64,
    pub form_cos: i64,
    pub form_sin: i64,
}

impl TrigSample {
    pub open spec fn wf(self) -> bool {
        &&& -1000 <= self.sin_phase <= 1000
        &&& -1000 <= self.orbit_cos <= 1000
        &&& -1000 <= self.orbit_sin <= 1000
        &&& -1000 <= self.form_cos <= 1000
        &&& -1000 <= self.form_sin <= 1000
    }
}

/// Far-off coordinates are clipped to the world bound; gameplay never
/// reaches it, removal margins are long since crossed by then.
pub open spec fn clip(x: int) -> int {
    crate::effects::clip_coord(x)
}

/// Kinematics of one tick, pattern by pattern, exactly as the updated
/// enemy. The dash cooldown is re-rolled randomly on the retreat-to-drift
/// transition, so this function carries it over unchanged and the caller's
/// contract pins its range instead.
pub open spec fn moved_enemy(e: Enemy, dt: int, pp: Option<Vec2i>, trig: TrigSample) -> Enemy {
    match e.movement {
        Movement::DriftDown => Enemy {
            pos: Vec2i { x: e.pos.x, y: clip(e.pos.y - scaled(60 * e.speed, dt, 1000)) as i64 },
            ..e
        },
        Movement::DriftUp => Enemy {
            pos: Vec2i { x: e.pos.x, y: clip(e.pos.y + scaled(60 * e.speed, dt, 1000)) as i64 },
            ..e
        },
        Movement::DriftLeft => Enemy {
            pos: Vec2i { x: clip(e.pos.x - scaled(60 * e.speed, dt, 1000)) as i64, y: e.pos.y },
            ..e
        },
        Movement::DriftRight => Enemy {
            pos: Vec2i { x: clip(e.pos.x + scaled(60 * e.speed, dt, 1000)) as i64, y: e.pos.y },
            ..e
        },
        Movement::SineDown => Enemy {
            pos: Vec2i {
                x: clip(e.pos.x + scaled(trig.sin_phase as int, 3, 2)) as i64,
                y: clip(e.pos.y - scaled(42 * e.speed, dt, 1000)) as i64,
            },
            phase: wrapped_angle(e.phase as int, 100) as i64,
            ..e
        },
        Movement::SineRight => Enemy {
            pos: Vec2i {
                x: clip(e.pos.x + scaled(42 * e.speed, dt, 1000)) as i64,
                y: clip(e.pos.y + scaled(trig.sin_phase as int, 3, 2)) as i64,
            },
            phase: wrapped_angle(e.phase as int, 100) as i64,
            ..e
        },
        Movement::SineRush => Enemy {
            pos: Vec2i {
                x: clip(e.pos.x + scaled(trig.sin_phase as int, 13, 5)) as i64,
                y: clip(e.pos.y - scaled(72 * e.speed, dt, 1000)) as i64,
            },
            phase: wrapped_angle(e.phase as int, 250) as i64,
            ..e
        },
        Movement::Homing => match pp {
            Some(t) => {
                let dist = aim_dist(e.pos, t);
                let dx = t.x - e.pos.x;
                let dy = t.y - e.pos.y;
                Enemy {
                    pos: Vec2i {
                        x: clip(
                            e.pos.x + scaled(scaled(dx, 36 * e.speed, dist), dt, 1000) - scaled(
                                dy,
                                800,
                                dist,
                            ),
                        ) as i64,
                        y: clip(e.pos.y + scaled(scaled(dy, 36 * e.speed, dist), dt, 1000)) as i64,
                    },
                    ..e
                }
            },
            None => e,
        },
        Movement::Orbit => {
            let angle2 = wrapped_angle(e.circular_angle as int, scaled(2 * e.speed, dt, 1000));
            Enemy {
                pos: Vec2i {
                    x: clip(
                        e.circular_center.x + scaled(trig.orbit_cos as int, e.circular_radius as int, 1000),
                    ) as i64,
                    y: clip(
                        e.circular_center.y + scaled(trig.orbit_sin as int, e.circular_radius as int, 1000),
                    ) as i64,
                },
                circular_angle: angle2 as i64,
                circular_center: Vec2i {
                    x: e.circular_center.x,
                    y: clip(e.circular_center.y - scaled(20 * e.speed, dt, 1000)) as i64,
                },
                ..e
            }
        },
        Movement::Dash => match pp {
            Some(t) => {
                let dist = aim_dist(e.pos, t);
                let dx = t.x - e.pos.x;
                let dy = t.y - e.pos.y;
                if e.dash_state == 0 {
                    let moved = Enemy {
                        pos: Vec2i {
                            x: clip(
                                e.pos.x + scaled(scaled(dx, 180 * e.speed, dist), dt, 1000),
                            ) as i64,
                            y: clip(
                                e.pos.y + scaled(scaled(dy, 180 * e.speed, dist), dt, 1000),
                            ) as i64,
                        },
                        ..e
                    };
                    if e.dash_timer_ms + dt >= 500 {
                        Enemy { dash_state: 1u8, dash_timer_ms: 0u32, ..moved }
                    } else {
                        Enemy { dash_timer_ms: (e.dash_timer_ms + dt) as u32, ..moved }
                    }
                } else if e.dash_state == 1 {
                    let moved = Enemy {
                        pos: Vec2i {
                            x: clip(
                                e.pos.x - scaled(scaled(dx, 120 * e.speed, dist), dt, 1000),
                            ) as i64,
                            y: clip(
                                e.pos.y - scaled(scaled(dy, 120 * e.speed, dist), dt, 1000),
                            ) as i64,
                        },
                        ..e
                    };
                    if e.dash_timer_ms + dt >= 800 {
                        // The cooldown is re-rolled here; see the caller.
                        Enemy { dash_state: 2u8, dash_timer_ms: 0u32, ..moved }
                    } else {
                        Enemy { dash_timer_ms: (e.dash_timer_ms + dt) as u32, ..moved }
                    }
                } else {
                    let moved = Enemy {
                        pos: Vec2i {
                            x: clip(e.pos.x + scaled(trig.sin_phase as int, 6, 5)) as i64,
                            y: clip(e.pos.y - scaled(30 * e.speed, dt, 1000)) as i64,
                        },
                        phase: wrapped_angle(e.phase as int, 80) as i64,
                        ..e
                    };
                    if e.dash_timer_ms + dt >= e.dash_cooldown_ms {
                        Enemy { dash_state: 0u8, dash_timer_ms: 0u32, ..moved }
                    } else {
                        Enemy { dash_timer_ms: (e.dash_timer_ms + dt) as u32, ..moved }
                    }
                }
            },
            None => Enemy {
                pos: Vec2i {
                    x: e.pos.x,
                    y: clip(e.pos.y - scaled(60 * e.speed, dt, 1000)) as i64,
                },
                ..e
            },
        },
        Movement::FormationSway => {
            let anchor2 = Vec2i {
                x: clip(e.formation_anchor.x + scaled(trig.sin_phase as int, 3, 5)) as i64,
                y: clip(e.formation_anchor.y - scaled(35 * e.speed, dt, 1000)) as i64,
            };
            Enemy {
                pos: Vec2i {
                    x: clip(anchor2.x + e.formation_offset.x) as i64,
                    y: clip(anchor2.y + e.formation_offset.y) as i64,
                },
                phase: wrapped_angle(e.phase as int, 50) as i64,
                formation_anchor: anchor2,
                ..e
            }
        },
        Movement::FormationWave => {
            let anchor2 = Vec2i {
                x: e.formation_anchor.x,
                y: clip(e.formation_anchor.y - scaled(40 * e.speed, dt, 1000)) as i64,
            };
            Enemy {
                pos: Vec2i {
                    x: clip(
                        anchor2.x + e.formation_offset.x + scaled(trig.sin_phase as int, 1, 2),
                    ) as i64,
                    y: clip(anchor2.y + abs_i(e.formation_offset.y as int)) as i64,
                },
                phase: wrapped_angle(e.phase as int, 60) as i64,
                formation_anchor: anchor2,
                ..e
            }
        },
        Movement::FormationOrbit => {
            let anchor2 = Vec2i {
                x: e.formation_anchor.x,
                y: clip(e.formation_anchor.y - scaled(30 * e.speed, dt, 1000)) as i64,
            };
            Enemy {
                pos: Vec2i {
                    x: clip(anchor2.x + 50 * trig.form_cos) as i64,
                    y: clip(anchor2.y + 50 * trig.form_sin) as i64,
                },
                phase: wrapped_angle(e.phase as int, scaled(1500, dt, 1000)) as i64,
                formation_anchor: anchor2,
                ..e
            }
        },
    }
}

/// Whether this tick's motion re-rolls the dash cooldown: the retreat phase
/// ends and the cooldown drift begins.
pub open spec fn dash_rolls(e: Enemy, dt: int, pp: Option<Vec2i>) -> bool {
    &&& e.movement is Dash
    &&& pp is Some
    &&& e.dash_state == 1
    &&& e.dash_timer_ms + dt >= 800
}


/// One tick of kinematics: drives the active movement pattern exactly as
/// [`moved_enemy`] states, with the one random element — the dash cooldown
/// re-rolled when the retreat phase ends — pinned to `[300, 800)`
/// milliseconds.
pub fn enemy_move(e: &mut Enemy, dt_ms: u32, player_pos: Option<Vec2i>, trig: TrigSample)
    requires
        old(e).wf(),
        trig.wf(),
        dt_ms <= crate::constants::DT_LIMIT,
        match player_pos {
            Some(t) => t.in_bounds(),
            None => true,
        },
    ensures
        ({
            let m = moved_enemy(*old(e), dt_ms as int, player_pos, trig);
            &&& *final(e) == (Enemy { dash_cooldown_ms: final(e).dash_cooldown_ms, ..m })
            &&& if dash_rolls(*old(e), dt_ms as int, player_pos) {
                300 <= final(e).dash_cooldown_ms < 800
            } else {
                final(e).dash_cooldown_ms == old(e).dash_cooldown_ms
            }
        }),
        final(e).wf(),
{
    let dt = dt_ms as i64;
    proof {
        crate::effects::scaled_bounded_by(
            trig.sin_phase as int,
            13,
            1000,
            13,
            2,
        );
        crate::effects::scaled_bounded_by(
            trig.sin_phase as int,
            13,
            1000,
            13,
            5,
        );
    }
    match e.movement {
        Movement::DriftDown => {
            let step = drift_step(60, e.speed, dt_ms);
            e.pos.y = crate::effects::clip_coord_exec(e.pos.y - step);
        },
        Movement::DriftUp => {
            let step = drift_step(60, e.speed, dt_ms);
            e.pos.y = crate::effects::clip_coord_exec(e.pos.y + step);
        },
        Movement::DriftLeft => {
            let step = drift_step(60, e.speed, dt_ms);
            e.pos.x = crate::effects::clip_coord_exec(e.pos.x - step);
        },
        Movement::DriftRight => {
            let step = drift_step(60, e.speed, dt_ms);
            e.pos.x = crate::effects::clip_coord_exec(e.pos.x + step);
        },
        Movement::SineDown => {
            let step = drift_step(42, e.speed, dt_ms);
            let sway = crate::num::scale_i64(trig.sin_phase, 3, 2);
            e.pos.x = crate::effects::clip_coord_exec(e.pos.x + sway);
            e.pos.y = crate::effects::clip_coord_exec(e.pos.y - step);
            e.phase = crate::num::wrap_angle(e.phase, 100);
        },
        Movement::SineRight => {
            let step = drift_step(42, e.speed, dt_ms);
            let sway = crate::num::scale_i64(trig.sin_phase, 3, 2);
            e.pos.x = crate::effects::clip_coord_exec(e.pos.x + step);
            e.pos.y = crate::effects::clip_coord_exec(e.pos.y + sway);
            e.phase = crate::num::wrap_angle(e.phase, 100);
        },
        Movement::SineRush => {
            let step = drift_step(72, e.speed, dt_ms);
            let sway = crate::num::scale_i64(trig.sin_phase, 13, 5);
            e.pos.x = crate::effects::clip_coord_exec(e.pos.x + sway);
            e.pos.y = crate::effects::clip_coord_exec(e.pos.y - step);
            e.phase = crate::num::wrap_angle(e.phase, 250);
        },
        Movement::Homing => {
            match player_pos {
                Some(t) => {
                    let dist = crate::geom::aim_distance(e.pos, t);
                    let dx = t.x - e.pos.x;
                    let dy = t.y - e.pos.y;
                    let step_x = aim_step(dx, 36, e.speed, dist, dt_ms);
                    let step_y = aim_step(dy, 36, e.speed, dist, dt_ms);
                    proof {
                        crate::num::lemma_scaled_ratio_bound(dy as int, 800, dist as int);
                    }
                    let perp = crate::num::scale_i64(dy, 800, dist);
                    e.pos.x = crate::effects::clip_coord_exec(e.pos.x + step_x - perp);
                    e.pos.y = crate::effects::clip_coord_exec(e.pos.y + step_y);
                },
                None => {},
            }
        },
        Movement::Orbit => {
            let turn = drift_step(2, e.speed, dt_ms);
            proof {
                crate::num::lemma_scaled_ratio_bound(
                    trig.orbit_cos as int,
                    e.circular_radius as int,
                    1000,
                );
                crate::num::lemma_scaled_ratio_bound(
                    trig.orbit_sin as int,
                    e.circular_radius as int,
                    1000,
                );
            }
            e.circular_angle = crate::num::wrap_angle(e.circular_angle, turn);
            let rx = crate::num::scale_i64(trig.orbit_cos, e.circular_radius, 1000);
            let ry = crate::num::scale_i64(trig.orbit_sin, e.circular_radius, 1000);
            e.pos.x = crate::effects::clip_coord_exec(e.circular_center.x + rx);
            e.pos.y = crate::effects::clip_coord_exec(e.circular_center.y + ry);
            let sink = drift_step(20, e.speed, dt_ms);
            e.circular_center.y = crate::effects::clip_coord_exec(e.circular_center.y - sink);
        },
        Movement::Dash => {
            match player_pos {
                Some(t) => {
                    let acc: u64 = e.dash_timer_ms as u64 + dt_ms as u64;
                    if e.dash_state == 0 {
                        let dist = crate::geom::aim_distance(e.pos, t);
                        let dx = t.x - e.pos.x;
                        let dy = t.y - e.pos.y;
                        let step_x = aim_step(dx, 180, e.speed, dist, dt_ms);
                        let step_y = aim_step(dy, 180, e.speed, dist, dt_ms);
                        e.pos.x = crate::effects::clip_coord_exec(e.pos.x + step_x);
                        e.pos.y = crate::effects::clip_coord_exec(e.pos.y + step_y);
                        if acc >= 500 {
                            e.dash_state = 1;
                            e.dash_timer_ms = 0;
                        } else {
                            e.dash_timer_ms = acc as u32;
                        }
                    } else if e.dash_state == 1 {
                        let dist = crate::geom::aim_distance(e.pos, t);
                        let dx = t.x - e.pos.x;
                        let dy = t.y - e.pos.y;
                        let step_x = aim_step(dx, 120, e.speed, dist, dt_ms);
                        let step_y = aim_step(dy, 120, e.speed, dist, dt_ms);
                        e.pos.x = crate::effects::clip_coord_exec(e.pos.x - step_x);
                        e.pos.y = crate::effects::clip_coord_exec(e.pos.y - step_y);
                        if acc >= 800 {
                            e.dash_state = 2;
                            e.dash_timer_ms = 0;
                            e.dash_cooldown_ms = rand_in_range_u32(300, 800);
                        } else {
                            e.dash_timer_ms = acc as u32;
                        }
                    } else {
                        let sway = crate::num::scale_i64(trig.sin_phase, 6, 5);
                        proof {
                            crate::effects::scaled_bounded_by(
                                trig.sin_phase as int,
                                6,
                                1000,
                                6,
                                5,
                            );
                        }
                        let step = drift_step(30, e.speed, dt_ms);
                        e.pos.x = crate::effects::clip_coord_exec(e.pos.x + sway);
                        e.pos.y = crate::effects::clip_coord_exec(e.pos.y - step);
                        e.phase = crate::num::wrap_angle(e.phase, 80);
                        if acc >= e.dash_cooldown_ms as u64 {
                            e.dash_state = 0;
                            e.dash_timer_ms = 0;
                        } else {
                            e.dash_timer_ms = acc as u32;
                        }
                    }
                },
                None => {
                    let step = drift_step(60, e.speed, dt_ms);
                    e.pos.y = crate::effects::clip_coord_exec(e.pos.y - step);
                },
            }
        },
        Movement::FormationSway => {
            let sway = crate::num::scale_i64(trig.sin_phase, 3, 5);
            proof {
                crate::effects::scaled_bounded_by(trig.sin_phase as int, 3, 1000, 3, 5);
            }
            let step = drift_step(35, e.speed, dt_ms);
            e.formation_anchor.x = crate::effects::clip_coord_exec(e.formation_anchor.x + sway);
            e.formation_anchor.y = crate::effects::clip_coord_exec(e.formation_anchor.y - step);
            e.phase = crate::num::wrap_angle(e.phase, 50);
            e.pos.x = crate::effects::clip_coord_exec(e.formation_anchor.x + e.formation_offset.x);
            e.pos.y = crate::effects::clip_coord_exec(e.formation_anchor.y + e.formation_offset.y);
        },
        Movement::FormationWave => {
            let step = drift_step(40, e.speed, dt_ms);
            let wave = crate::num::scale_i64(trig.sin_phase, 1, 2);
            proof {
                crate::effects::scaled_bounded_by(trig.sin_phase as int, 1, 1000, 1, 2);
            }
            e.formation_anchor.y = crate::effects::clip_coord_exec(e.formation_anchor.y - step);
            e.phase = crate::num::wrap_angle(e.phase, 60);
            let abs_off_y: i64 = if e.formation_offset.y >= 0 {
                e.formation_offset.y
            } else {
                -e.formation_offset.y
            };
            e.pos.x = crate::effects::clip_coord_exec(
                e.formation_anchor.x + e.formation_offset.x + wave,
            );
            e.pos.y = crate::effects::clip_coord_exec(e.formation_anchor.y + abs_off_y);
        },
        Movement::FormationOrbit => {
            let step = drift_step(30, e.speed, dt_ms);
            let turn = crate::num::scale_i64(1500, dt, 1000);
            proof {
                crate::effects::scaled_bounded_by(
                    1500,
                    dt_ms as int,
                    1500,
                    crate::constants::DT_LIMIT as int,
                    1000,
                );
            }
            e.formation_anchor.y = crate::effects::clip_coord_exec(e.formation_anchor.y - step);
            e.phase = crate::num::wrap_angle(e.phase, turn);
            e.pos.x = crate::effects::clip_coord_exec(e.formation_anchor.x + 50 * trig.form_cos);
            e.pos.y = crate::effects::clip_coord_exec(e.formation_anchor.y + 50 * trig.form_sin);
        },
    }
}

/// The distance a pattern drifts this tick at `coeff` base pixels per
/// second, paced by the enemy's speed factor.
fn drift_step(coeff: i64, speed: i64, dt_ms: u32) -> (r: i64)
    requires
        0 < coeff <= 200,
        0 <= speed <= 2000,
        dt_ms <= crate::constants::DT_LIMIT,
    ensures
        r == scaled(coeff * speed, dt_ms as int, 1000),
        -0x2_0000_0000_0000 <= r <= 0x2_0000_0000_0000,
{
    proof {
        assert(0 <= coeff * speed <= 400_000) by (nonlinear_arith)
            requires
                0 < coeff <= 200,
                0 <= speed <= 2000,
        ;
        crate::effects::scaled_bounded_by(
            coeff * speed,
            dt_ms as int,
            400_000,
            crate::constants::DT_LIMIT as int,
            1000,
        );
        assert(400_000 * (crate::constants::DT_LIMIT as int) <= 0x2_0000_0000_0000int)
            by (nonlinear_arith);
    }
    crate::num::scale_i64(coeff * speed, dt_ms as i64, 1000)
}

/// One axis of motion toward (or away from) a target: the separation scaled
/// by `coeff * speed` over the distance, then by the elapsed time.
fn aim_step(d: i64, coeff: i64, speed: i64, dist: i64, dt_ms: u32) -> (r: i64)
    requires
        0 < coeff <= 200,
        0 <= speed <= 2000,
        1 <= dist <= 0x1_0000_0000,
        abs_i(d as int) <= dist,
        -0x8000_0000 <= d <= 0x8000_0000,
        dt_ms <= crate::constants::DT_LIMIT,
    ensures
        r == scaled(scaled(d as int, coeff * speed, dist as int), dt_ms as int, 1000),
        -0x2_0000_0000_0000 <= r <= 0x2_0000_0000_0000,
{
    proof {
        assert(0 <= coeff * speed <= 400_000) by (nonlinear_arith)
            requires
                0 < coeff <= 200,
                0 <= speed <= 2000,
        ;
        crate::num::lemma_scaled_ratio_bound(d as int, coeff * speed, dist as int);
    }
    let a1 = crate::num::scale_i64(d, coeff * speed, dist);
    proof {
        crate::effects::scaled_bounded_by(
            a1 as int,
            dt_ms as int,
            400_000,
            crate::constants::DT_LIMIT as int,
            1000,
        );
        assert(400_000 * (crate::constants::DT_LIMIT as int) <= 0x2_0000_0000_0000int)
            by (nonlinear_arith);
    }
    crate::num::scale_i64(a1, dt_ms as i64, 1000)
}


/// Near-edge override thresholds: within twenty pixels of an edge the
/// pattern is forced back inward for a short stretch.
pub open spec fn edge_override(e: Enemy) -> Enemy {
    let e1 = if e.pos.y > crate::constants::SCREEN_HEIGHT / 2 - 20_000 {
        Enemy { movement: Movement::DriftDown, distance: 10i32, ..e }
    } else {
        e
    };
    let e2 = if e1.pos.y < -crate::constants::SCREEN_HEIGHT / 2 + 20_000 {
        Enemy { movement: Movement::DriftUp, distance: 10i32, ..e1 }
    } else {
        e1
    };
    let e3 = if e2.pos.x > crate::constants::SCREEN_WIDTH / 2 - 20_000 {
        Enemy { movement: Movement::DriftLeft, distance: 10i32, ..e2 }
    } else {
        e2
    };
    if e3.pos.x < -crate::constants::SCREEN_WIDTH / 2 + 20_000 {
        Enemy { movement: Movement::DriftRight, distance: 10i32, ..e3 }
    } else {
        e3
    }
}

/// One tick of pattern upkeep. The re-roll countdown ticks down; at zero,
/// a fresh pattern is drawn uniformly from all thirteen, a fresh countdown
/// from `[20, 70)`, and the phase restarts. Either way, proximity to a
/// screen edge then forces the pattern pointing back inward with a short
/// countdown.
pub fn enemy_patrol_update(e: &mut Enemy)
    requires
        old(e).wf(),
    ensures
        if old(e).distance > 0 {
            *final(e) == edge_override(
                Enemy { distance: (old(e).distance - 1) as i32, ..*old(e) },
            )
        } else {
            // A fresh pattern (any of the closed set), a fresh short
            // countdown, and the phase restarted; the rest carries over,
            // then the edge override applies.
            exists|m: Enemy|
                #[trigger] edge_override(m) == *final(e) && 20 <= m.distance < 70 && m == (Enemy {
                    movement: m.movement,
                    distance: m.distance,
                    phase: 0i64,
                    ..*old(e)
                })
        },
        final(e).wf(),
{
    if e.distance > 0 {
        e.distance = e.distance - 1;
    } else {
        e.distance = rand_in_range_u32(20, 70) as i32;
        let idx = rand_below_u32(MOVEMENT_COUNT as u32);
        e.movement = movement_from_index(idx as u8);
        e.phase = 0;
    }
    let ghost rerolled = *e;
    let ghost mid = *e;
    if e.pos.y > crate::constants::SCREEN_HEIGHT / 2 - 20_000 {
        e.movement = Movement::DriftDown;
        e.distance = 10;
    }
    if e.pos.y < -crate::constants::SCREEN_HEIGHT / 2 + 20_000 {
        e.movement = Movement::DriftUp;
        e.distance = 10;
    }
    if e.pos.x > crate::constants::SCREEN_WIDTH / 2 - 20_000 {
        e.movement = Movement::DriftLeft;
        e.distance = 10;
    }
    if e.pos.x < -crate::constants::SCREEN_WIDTH / 2 + 20_000 {
        e.movement = Movement::DriftRight;
        e.distance = 10;
    }
    proof {
        assert(*e == edge_override(mid));
        if old(e).distance <= 0 {
            assert(edge_override(rerolled) == *e && 20 <= rerolled.distance < 70 && rerolled
                == (Enemy {
                movement: rerolled.movement,
                distance: rerolled.distance,
                phase: 0i64,
                ..*old(e)
            }));
        }
    }
}

/// Enemies drifting well past the bottom or a side are gone for good and
/// removed; the top is never a removal edge.
pub open spec fn enemy_past_bounds(pos: Vec2i) -> bool {
    ||| pos.y < -crate::constants::SCREEN_HEIGHT / 2 - 30_000
    ||| pos.x < -crate::constants::SCREEN_WIDTH / 2 - 30_000
    ||| pos.x > crate::constants::SCREEN_WIDTH / 2 + 30_000
}

pub fn enemy_off_screen(e: &Enemy) -> (r: bool)
    ensures
        r == enemy_past_bounds(e.pos),
{
    e.pos.y < -crate::constants::SCREEN_HEIGHT / 2 - 30_000 || e.pos.x
        < -crate::constants::SCREEN_WIDTH / 2 - 30_000 || e.pos.x > crate::constants::SCREEN_WIDTH
        / 2 + 30_000
}

/// How a requested shot's velocity is given: outright, or as a heading the
/// shell resolves with its trigonometry.
#[derive(Clone, Copy, Debug, PartialEq, Eq, Structural)]
pub enum ShotVel {
    Exact(Vec2i),
    Polar { angle_mrad: i64, speed: i64 },
}

/// A request to spawn one bullet.
#[derive(Clone, Copy, Debug, PartialEq, Eq, Structural)]
pub struct ShotRequest {
    pub pos: Vec2i,
    pub vel: ShotVel,
    pub friendly: bool,
}

impl FiringPattern {
    pub open spec fn wf(self) -> bool {
        match self {
            FiringPattern::Spread { bullet_count, spread_angle_mrad } => 0 < bullet_count <= 1024
                && 0 <= spread_angle_mrad <= TAU_MRAD,
            FiringPattern::Burst { bullet_count, .. } => 0 < bullet_count <= 1024,
            _ => true,
        }
    }
}

/// The velocity of a bolt flying from `from` straight at `to` at the given
/// speed, normalized over the aiming distance.
pub open spec fn aim_vel(from: Vec2i, to: Vec2i, speed: int) -> Vec2i {
    let dist = aim_dist(from, to);
    Vec2i {
        x: scaled(to.x - from.x, speed, dist) as i64,
        y: scaled(to.y - from.y, speed, dist) as i64,
    }
}

/// The straight-down bolt velocity enemies fire at, milli-pixels per
/// second.
pub open spec fn bolt_down() -> Vec2i {
    Vec2i { x: 0i64, y: -180_000i64 }
}

/// The bolts one firing of a pattern requests, at the given muzzle.
pub open spec fn shots_of(muzzle: Vec2i, pattern: FiringPattern, pp: Option<Vec2i>) -> Seq<
    ShotRequest,
> {
    match pattern {
        FiringPattern::Single => seq![
            ShotRequest {
                pos: Vec2i { x: (muzzle.x - 9_000) as i64, y: muzzle.y },
                vel: ShotVel::Exact(bolt_down()),
                friendly: false,
            },
            ShotRequest {
                pos: Vec2i { x: (muzzle.x + 9_000) as i64, y: muzzle.y },
                vel: ShotVel::Exact(bolt_down()),
                friendly: false,
            },
        ],
        FiringPattern::Spread { bullet_count, spread_angle_mrad } => {
            let step: int = if bullet_count > 1 {
                (spread_angle_mrad as int) / (bullet_count - 1) as int
            } else {
                0
            };
            Seq::new(
                bullet_count as nat,
                |i: int|
                    ShotRequest {
                        pos: muzzle,
                        vel: ShotVel::Polar {
                            angle_mrad: (-(crate::constants::QUARTER_TURN_MRAD as int)
                                - spread_angle_mrad / 2 + step * i) as i64,
                            speed: 180_000i64,
                        },
                        friendly: false,
                    },
            )
        },
        FiringPattern::Aimed => match pp {
            Some(t) => seq![
                ShotRequest {
                    pos: muzzle,
                    vel: ShotVel::Exact(aim_vel(muzzle, t, 180_000)),
                    friendly: false,
                },
            ],
            None => seq![
                ShotRequest { pos: muzzle, vel: ShotVel::Exact(bolt_down()), friendly: false },
            ],
        },
        FiringPattern::Burst { bullet_count, .. } => Seq::new(
            bullet_count as nat,
            |i: int|
                ShotRequest {
                    pos: Vec2i {
                        x: (muzzle.x + (2 * i - bullet_count) * 4_000) as i64,
                        y: muzzle.y,
                    },
                    vel: ShotVel::Exact(bolt_down()),
                    friendly: false,
                },
        ),
    }
}

/// Executes one firing of a pattern: builds the requested bolts.
pub fn fire_pattern(muzzle: Vec2i, pattern: FiringPattern, pp: Option<Vec2i>) -> (shots: Vec<
    ShotRequest,
>)
    requires
        muzzle.in_bounds(),
        pattern.wf(),
        match pp {
            Some(t) => t.in_bounds(),
            None => true,
        },
    ensures
        shots@ == shots_of(muzzle, pattern, pp),
{
    let mut shots: Vec<ShotRequest> = Vec::new();
    match pattern {
        FiringPattern::Single => {
            shots.push(
                ShotRequest {
                    pos: Vec2i { x: muzzle.x - 9_000, y: muzzle.y },
                    vel: ShotVel::Exact(Vec2i { x: 0, y: -180_000 }),
                    friendly: false,
                },
            );
            shots.push(
                ShotRequest {
                    pos: Vec2i { x: muzzle.x + 9_000, y: muzzle.y },
                    vel: ShotVel::Exact(Vec2i { x: 0, y: -180_000 }),
                    friendly: false,
                },
            );
            proof {
                assert(shots@ =~= shots_of(muzzle, pattern, pp));
            }
        },
        FiringPattern::Spread { bullet_count, spread_angle_mrad } => {
            let half: i64 = ((spread_angle_mrad as u64) / 2) as i64;
            proof {
                vstd::arithmetic::div_mod::lemma_div_nonincreasing(spread_angle_mrad as int, 2);
                vstd::arithmetic::div_mod::lemma_div_pos_is_pos(spread_angle_mrad as int, 2);
                if bullet_count > 1 {
                    vstd::arithmetic::div_mod::lemma_div_nonincreasing(
                        spread_angle_mrad as int,
                        bullet_count as int - 1,
                    );
                    vstd::arithmetic::div_mod::lemma_div_pos_is_pos(
                        spread_angle_mrad as int,
                        bullet_count as int - 1,
                    );
                }
            }
            let step: i64 = if bullet_count > 1 {
                ((spread_angle_mrad as u64) / ((bullet_count - 1) as u64)) as i64
            } else {
                0
            };
            let mut i: u32 = 0;
            while i < bullet_count
                invariant
                    i <= bullet_count,
                    pattern == (FiringPattern::Spread { bullet_count, spread_angle_mrad }),
                    0 <= spread_angle_mrad <= TAU_MRAD,
                    0 < bullet_count <= 1024,
                    half == spread_angle_mrad / 2,
                    step == if bullet_count > 1 {
                        (spread_angle_mrad as int) / (bullet_count - 1) as int
                    } else {
                        0int
                    },
                    0 <= step <= TAU_MRAD,
                    0 <= half <= TAU_MRAD,
                    shots@ =~= shots_of(muzzle, pattern, pp).take(i as int),
                decreases bullet_count - i,
            {
                proof {
                    assert(0 <= step * (i as int) <= 6_283 * 1024) by (nonlinear_arith)
                        requires
                            0 <= step <= 6_283,
                            0 <= i <= 1024,
                    ;
                }
                let angle: i64 = -crate::constants::QUARTER_TURN_MRAD - half + step * (i as i64);
                shots.push(
                    ShotRequest {
                        pos: muzzle,
                        vel: ShotVel::Polar { angle_mrad: angle, speed: 180_000 },
                        friendly: false,
                    },
                );
                i = i + 1;
                proof {
                    let f = shots_of(muzzle, pattern, pp);
                    assert(f.len() == bullet_count as nat);
                    assert(f[i as int - 1] == (ShotRequest {
                        pos: muzzle,
                        vel: ShotVel::Polar { angle_mrad: angle, speed: 180_000i64 },
                        friendly: false,
                    }));
                    assert(shots@ =~= f.take(i as int));
                }
            }
            proof {
                assert(shots_of(muzzle, pattern, pp).take(bullet_count as int) =~= shots_of(
                    muzzle,
                    pattern,
                    pp,
                ));
            }
        },
        FiringPattern::Aimed => {
            match pp {
                Some(t) => {
                    let dist = crate::geom::aim_distance(muzzle, t);
                    let dx = t.x - muzzle.x;
                    let dy = t.y - muzzle.y;
                    proof {
                        crate::num::lemma_scaled_ratio_bound(dx as int, 180_000, dist as int);
                        crate::num::lemma_scaled_ratio_bound(dy as int, 180_000, dist as int);
                    }
                    let vx = crate::num::scale_i64(dx, 180_000, dist);
                    let vy = crate::num::scale_i64(dy, 180_000, dist);
                    shots.push(
                        ShotRequest {
                            pos: muzzle,
                            vel: ShotVel::Exact(Vec2i { x: vx, y: vy }),
                            friendly: false,
                        },
                    );
                },
                None => {
                    shots.push(
                        ShotRequest {
                            pos: muzzle,
                            vel: ShotVel::Exact(Vec2i { x: 0, y: -180_000 }),
                            friendly: false,
                        },
                    );
                },
            }
            proof {
                assert(shots@ =~= shots_of(muzzle, pattern, pp));
            }
        },
        FiringPattern::Burst { bullet_count, burst_delay_ms } => {
            let mut i: u32 = 0;
            while i < bullet_count
                invariant
                    i <= bullet_count,
                    0 < bullet_count <= 1024,
                    muzzle.in_bounds(),
                    pattern == (FiringPattern::Burst { bullet_count, burst_delay_ms }),
                    shots@ =~= shots_of(muzzle, pattern, pp).take(i as int),
                decreases bullet_count - i,
            {
                let off: i64 = (2 * (i as i64) - (bullet_count as i64)) * 4_000;
                shots.push(
                    ShotRequest {
                        pos: Vec2i { x: muzzle.x + off, y: muzzle.y },
                        vel: ShotVel::Exact(Vec2i { x: 0, y: -180_000 }),
                        friendly: false,
                    },
                );
                i = i + 1;
                proof {
                    assert(shots@ =~= shots_of(muzzle, pattern, pp).take(i as int));
                }
            }
            proof {
                assert(shots_of(muzzle, pattern, pp).take(bullet_count as int) =~= shots_of(
                    muzzle,
                    pattern,
                    pp,
                ));
            }
        },
    }
    shots
}

/// Where an enemy's bolts leave from: just under the ship's lower edge.
pub open spec fn muzzle_of(e: Enemy) -> Vec2i {
    Vec2i { x: e.pos.x, y: clip(e.pos.y - e.col.h / 2 - 10_000) as i64 }
}

/// One tick of fire control. Meteors never fire. Anything else counts its
/// shoot countdown down by one each tick; at zero it fires its configured
/// pattern from just under its hull and re-rolls the countdown in
/// `[20, 180)` ticks.
pub fn enemy_fire_step(e: &mut Enemy, player_pos: Option<Vec2i>) -> (shots: Vec<ShotRequest>)
    requires
        old(e).wf(),
        old(e).firing.wf(),
        match player_pos {
            Some(t) => t.in_bounds(),
            None => true,
        },
    ensures
        final(e).wf(),
        old(e).kind is Meteor ==> *final(e) == *old(e) && shots@ == Seq::<ShotRequest>::empty(),
        !(old(e).kind is Meteor) && old(e).shoot_time > 0 ==> *final(e) == (Enemy {
            shoot_time: (old(e).shoot_time - 1) as i32,
            ..*old(e)
        }) && shots@ == Seq::<ShotRequest>::empty(),
        !(old(e).kind is Meteor) && old(e).shoot_time <= 0 ==> (20 <= final(e).shoot_time < 180
            && *final(e) == (Enemy { shoot_time: final(e).shoot_time, ..*old(e) }) && shots@
            == shots_of(muzzle_of(*old(e)), old(e).firing, player_pos)),
{
    if matches!(e.kind, EnemyKind::Meteor) {
        return Vec::new();
    }
    if e.shoot_time > 0 {
        e.shoot_time = e.shoot_time - 1;
        return Vec::new();
    }
    e.shoot_time = rand_in_range_u32(20, 180) as i32;
    let half_h: i64 = ((e.col.h as u64) / 2) as i64;
    let muzzle = Vec2i {
        x: e.pos.x,
        y: crate::effects::clip_coord_exec(e.pos.y - half_h - 10_000),
    };
    proof {
        assert(muzzle == muzzle_of(*old(e)));
        assert(muzzle.in_bounds());
    }
    fire_pattern(muzzle, e.firing, player_pos)
}

} // verus!
