//! The player ship: movement toward the cursor, resource regeneration, and
//! the two fire actions.

use vstd::prelude::*;
use crate::audio::SoundRequest;
use crate::combat::{spawn_missile, Bullet};
use crate::components::{Charge, Health, Lifetime, PlayerCooldowns};
use crate::constants::{
    CHARGE_REFILL_PER_MS, DT_LIMIT, MAX_CHARGE, MAX_HEALTH, SIZE_LASER_H, SIZE_LASER_W,
    SIZE_PLAYER_H, SIZE_PLAYER_W, TAU_MRAD,
};
use crate::effects::{BurstRequest, ColorMilli, Shake};
use crate::enemy::{ShotRequest, ShotVel};
use crate::geom::{aim_dist, clamped_to_screen, Collider, Vec2i};
use crate::num::scaled;


verus! {

/// The player-controlled ship. Exactly one exists while a match runs.
#[derive(Clone, Copy, Debug, PartialEq, Eq, Structural)]
pub struct Player {
    pub pos: Vec2i,
    pub col: Collider,
    pub health: Health,
    pub charge: Charge,
    pub cooldowns: PlayerCooldowns,
}

impl Player {
    pub open spec fn wf(self) -> bool {
        &&& self.pos.in_bounds()
        &&& self.col.wf()
        &&& self.health.wf()
        &&& self.charge.wf()
    }

    /// The ship at match start: bottom-center, full health, full charge,
    /// both fire locks open.
    pub fn new() -> (p: Player)
        ensures
            p.pos == (Vec2i { x: 0i64, y: -160_000i64 }),
            p.col == (Collider { w: SIZE_PLAYER_W, h: SIZE_PLAYER_H }),
            p.health == (Health { hp: MAX_HEALTH, max: MAX_HEALTH }),
            p.charge == (Charge { value: MAX_CHARGE, max: MAX_CHARGE }),
            p.cooldowns == (PlayerCooldowns { shoot_ms: 0u32, special_ms: 0u32 }),
            p.wf(),
    {
        Player {
            pos: Vec2i { x: 0, y: -160_000 },
            col: Collider { w: SIZE_PLAYER_W, h: SIZE_PLAYER_H },
            health: Health { hp: MAX_HEALTH, max: MAX_HEALTH },
            charge: Charge { value: MAX_CHARGE, max: MAX_CHARGE },
            cooldowns: PlayerCooldowns { shoot_ms: 0, special_ms: 0 },
        }
    }
}


/// Where the ship ends up after one tick of easing toward the cursor: a
/// capped-speed step along the separation while far, an exact snap once
/// within twenty pixels, then clamped fully onto the screen.
pub open spec fn moved_player_pos(p: Player, cursor: Vec2i, dt: int) -> Vec2i {
    let dist = aim_dist(p.pos, cursor);
    let raw = if dist > 20_000 {
        Vec2i {
            x: crate::effects::clip_coord(
                p.pos.x + scaled(scaled(cursor.x - p.pos.x, 300_000, dist), dt, 1000),
            ) as i64,
            y: crate::effects::clip_coord(
                p.pos.y + scaled(scaled(cursor.y - p.pos.y, 300_000, dist), dt, 1000),
            ) as i64,
        }
    } else {
        cursor
    };
    clamped_to_screen(raw, p.col.w as int, p.col.h as int)
}

/// The upgraded-fire beam: it keeps the player's column, damages two per
/// strike, and expires after 800 milliseconds.
pub open spec fn laser_bullet(ppos: Vec2i) -> Bullet {
    Bullet {
        pos: Vec2i { x: ppos.x, y: (ppos.y + SIZE_PLAYER_H / 2 - 10_000) as i64 },
        vel: Vec2i { x: 0i64, y: 0i64 },
        friendly: true,
        damage: 2i32,
        laser: true,
        col: Collider { w: SIZE_LASER_W, h: SIZE_LASER_H },
        trail: None,
        lifetime: Some(Lifetime { remaining_ms: 800u32 }),
    }
}

/// The straight missile of the basic primary fire.
pub open spec fn primary_missile(ppos: Vec2i) -> Bullet {
    Bullet {
        pos: Vec2i { x: ppos.x, y: (ppos.y - 5_000) as i64 },
        vel: Vec2i { x: 0i64, y: 500_000i64 },
        friendly: true,
        damage: 1i32,
        laser: false,
        col: Collider {
            w: crate::constants::SIZE_MISSILE_W,
            h: crate::constants::SIZE_MISSILE_H,
        },
        trail: Some(crate::components::TrailTimer { period_ms: 45u32, elapsed_ms: 0u32 }),
        lifetime: None,
    }
}

/// A circular spray: `count` friendly bolts at even angle steps around a
/// full turn, at one speed.
pub open spec fn spray_shots(pos: Vec2i, count: int, step_mrad: int, speed: int) -> Seq<
    ShotRequest,
> {
    Seq::new(
        count as nat,
        |i: int|
            ShotRequest {
                pos,
                vel: ShotVel::Polar { angle_mrad: (step_mrad * i) as i64, speed: speed as i64 },
                friendly: true,
            },
    )
}

/// The muzzle-flash burst of a laser shot.
pub open spec fn laser_muzzle_burst(pos: Vec2i) -> BurstRequest {
    BurstRequest {
        pos,
        color: ColorMilli { r: 600u32, g: 1000u32, b: 1000u32, a: 1000u32 },
        count: 10u32,
        speed_lo: 80_000i64,
        speed_hi: 180_000i64,
        size_lo: 20u32,
        size_hi: 60u32,
        life_lo: 350u32,
        life_hi: 650u32,
        flash: false,
    }
}

/// The end frequency of the laser sweep, milli-hertz, rising with the score
/// up to a hard ceiling.
pub open spec fn laser_sweep_end(score: u32) -> int {
    let level: int = if score < 3000 {
        score as int
    } else {
        3000
    };
    let end = 1_000_000 + 200 * level;
    if end < 2_200_000 {
        end
    } else {
        2_200_000
    }
}

/// The base pitch factor of the basic shot, milli-units, rising with the
/// score; the played pitch jitters within fifty milli-units of it.
pub open spec fn shoot_pitch_base(score: u32) -> int {
    let level: int = if score < 2000 {
        score as int
    } else {
        2000
    };
    1000 + (3 * level) / 10
}

/// Everything one player tick produced.
pub struct PlayerTickOutcome {
    /// Bullets spawned outright (the primary missile or beam).
    pub bullets: Vec<Bullet>,
    /// Spray bolts whose headings the shell resolves.
    pub shots: Vec<ShotRequest>,
    pub bursts: Vec<BurstRequest>,
    pub sounds: Vec<SoundRequest>,
    /// A shake pulse, on the full-charge special only.
    pub shake: Option<Shake>,
}

/// One tick of player control.
///
/// Both fire locks count down; the ship eases toward the cursor at a capped
/// speed, snapping when within twenty pixels, and is clamped onto the
/// screen. Charge refills linearly up to its cap; at full charge, health
/// regenerates slowly toward its own cap. Holding primary fire, with its
/// lock elapsed and at least one charge unit, costs one unit and fires: a
/// missile below five hundred points, the beam from there on. Holding
/// special fire with its lock elapsed fires the full-circle spray of 104 bolts
/// at full charge — consuming all of it — or the 32-bolt spray above 150
/// units for 50, each with the chord sound, and the full spray with a
/// strong shake.
pub fn player_tick(
    p: &mut Player,
    dt_ms: u32,
    cursor: Vec2i,
    fire_primary: bool,
    fire_special: bool,
    score: u32,
    muted: bool,
) -> (out: PlayerTickOutcome)
    requires
        old(p).wf(),
        cursor.in_bounds(),
        dt_ms <= DT_LIMIT,
        old(p).col.w <= crate::constants::SCREEN_WIDTH,
        old(p).col.h <= crate::constants::SCREEN_HEIGHT,
    ensures
        ({
            // The tick in order: locks tick down, the ship moves, resources
            // regenerate, primary fire, then special fire.
            let shoot_cd: int = if dt_ms >= old(p).cooldowns.shoot_ms {
                0
            } else {
                old(p).cooldowns.shoot_ms - dt_ms
            };
            let special_cd: int = if dt_ms >= old(p).cooldowns.special_ms {
                0
            } else {
                old(p).cooldowns.special_ms - dt_ms
            };
            let pos1 = moved_player_pos(*old(p), cursor, dt_ms as int);
            let charge1: int = if old(p).charge.value + CHARGE_REFILL_PER_MS * dt_ms > old(
                p,
            ).charge.max {
                old(p).charge.max as int
            } else {
                old(p).charge.value + CHARGE_REFILL_PER_MS * dt_ms
            };
            let heal: int = (36 * dt_ms) / 10_000;
            let hp1: int = if charge1 >= old(p).charge.max && old(p).health.hp < old(
                p,
            ).health.max {
                if old(p).health.hp + heal > old(p).health.max {
                    old(p).health.max as int
                } else {
                    old(p).health.hp + heal
                }
            } else {
                old(p).health.hp as int
            };
            let fire1 = fire_primary && shoot_cd == 0 && charge1 >= 1000;
            let laser_fire = fire1 && score >= 500;
            let charge2: int = if fire1 {
                charge1 - 1000
            } else {
                charge1
            };
            let shoot_cd2: int = if fire1 {
                80
            } else {
                shoot_cd
            };
            let sp_full = fire_special && special_cd == 0 && charge2 >= old(p).charge.max;
            let sp_small = fire_special && special_cd == 0 && !sp_full && charge2 >= 150_000;
            let charge3: int = if sp_full {
                0
            } else if sp_small {
                charge2 - 50_000
            } else {
                charge2
            };
            let special_cd2: int = if sp_full {
                600
            } else if sp_small {
                250
            } else {
                special_cd
            };
            &&& final(p).pos == pos1
            &&& final(p).col == old(p).col
            &&& final(p).health == (Health { hp: hp1 as i32, max: old(p).health.max })
            &&& final(p).charge == (Charge { value: charge3 as u64, max: old(p).charge.max })
            &&& final(p).cooldowns == (PlayerCooldowns {
                shoot_ms: shoot_cd2 as u32,
                special_ms: special_cd2 as u32,
            })
            &&& out.bullets@ == if laser_fire {
                seq![laser_bullet(pos1)]
            } else if fire1 {
                seq![primary_missile(pos1)]
            } else {
                Seq::<Bullet>::empty()
            }
            &&& out.shots@ == if sp_full {
                spray_shots(pos1, 104, 60, 600_000)
            } else if sp_small {
                spray_shots(pos1, 32, 200, 400_000)
            } else {
                Seq::<ShotRequest>::empty()
            }
            &&& out.bursts@ == if laser_fire {
                seq![laser_muzzle_burst(laser_bullet(pos1).pos)]
            } else {
                Seq::<BurstRequest>::empty()
            }
            &&& ({
                let n_primary: int = if fire1 && !muted {
                    1
                } else {
                    0
                };
                let n_special: int = if (sp_full || sp_small) && !muted {
                    1
                } else {
                    0
                };
                &&& out.sounds@.len() == n_primary + n_special
                &&& (fire1 && !muted && score >= 500) ==> out.sounds@[0]
                    == (SoundRequest::LaserSweep {
                    start_mhz: 500_000u32,
                    end_mhz: laser_sweep_end(score) as u32,
                })
                &&& (fire1 && !muted && score < 500) ==> (out.sounds@[0] matches
                    SoundRequest::Shoot { pitch_milli } && shoot_pitch_base(score) - 50
                    <= pitch_milli < shoot_pitch_base(score) + 50)
                &&& ((sp_full || sp_small) && !muted) ==> out.sounds@[n_primary]
                    == SoundRequest::Special
            })
            &&& out.shake == if sp_full {
                Some(Shake { frames: 50i32, intensity: 6000i64 })
            } else {
                None::<Shake>
            }
            &&& final(p).wf()
        }),
{
    p.cooldowns.tick(dt_ms);

    // Ease toward the cursor at a capped speed; snap when close.
    let dist = crate::geom::aim_distance(p.pos, cursor);
    if dist > 20_000 {
        let dx = cursor.x - p.pos.x;
        let dy = cursor.y - p.pos.y;
        proof {
            crate::num::lemma_scaled_ratio_bound(dx as int, 300_000, dist as int);
            crate::num::lemma_scaled_ratio_bound(dy as int, 300_000, dist as int);
        }
        let ax = crate::num::scale_i64(dx, 300_000, dist);
        let ay = crate::num::scale_i64(dy, 300_000, dist);
        proof {
            crate::effects::scaled_bounded_by(
                ax as int,
                dt_ms as int,
                300_000,
                DT_LIMIT as int,
                1000,
            );
            crate::effects::scaled_bounded_by(
                ay as int,
                dt_ms as int,
                300_000,
                DT_LIMIT as int,
                1000,
            );
            assert(300_000 * (DT_LIMIT as int) < 0x2000_0000_0000_0000int) by (nonlinear_arith);
        }
        let sx = crate::num::scale_i64(ax, dt_ms as i64, 1000);
        let sy = crate::num::scale_i64(ay, dt_ms as i64, 1000);
        p.pos.x = crate::effects::clip_coord_exec(p.pos.x + sx);
        p.pos.y = crate::effects::clip_coord_exec(p.pos.y + sy);
    } else {
        p.pos = cursor;
    }
    p.pos = crate::geom::clamp_to_screen(p.pos, p.col.w, p.col.h);

    // Refill charge; at full charge, trickle health back.
    p.charge.regen(dt_ms);
    if p.charge.value >= p.charge.max && p.health.hp < p.health.max {
        let heal: i32 = ((36u64 * dt_ms as u64) / 10_000) as i32;
        p.health.heal_clamped(heal);
    }

    let mut out = PlayerTickOutcome {
        bullets: Vec::new(),
        shots: Vec::new(),
        bursts: Vec::new(),
        sounds: Vec::new(),
        shake: None,
    };

    // Primary fire: missile, or the beam from five hundred points on.
    if fire_primary && p.cooldowns.shoot_ms == 0 && p.charge.value >= 1000 {
        p.cooldowns.shoot_ms = 80;
        p.charge.spend(1000);
        if score >= 500 {
            let beam_pos = Vec2i { x: p.pos.x, y: p.pos.y + SIZE_PLAYER_H / 2 - 10_000 };
            out.bullets.push(
                Bullet {
                    pos: beam_pos,
                    vel: Vec2i { x: 0, y: 0 },
                    friendly: true,
                    damage: 2,
                    laser: true,
                    col: Collider { w: SIZE_LASER_W, h: SIZE_LASER_H },
                    trail: None,
                    lifetime: Some(Lifetime { remaining_ms: 800 }),
                },
            );
            out.bursts.push(
                crate::effects::emit_burst(
                    beam_pos,
                    ColorMilli { r: 600, g: 1000, b: 1000, a: 1000 },
                    10,
                    80_000,
                    180_000,
                    20,
                    60,
                ),
            );
            if !muted {
                let level: u32 = if score < 3000 {
                    score
                } else {
                    3000
                };
                let end: u32 = 1_000_000 + 200 * level;
                let end_capped: u32 = if end < 2_200_000 {
                    end
                } else {
                    2_200_000
                };
                out.sounds.push(
                    SoundRequest::LaserSweep { start_mhz: 500_000, end_mhz: end_capped },
                );
            }
        } else {
            out.bullets.push(
                spawn_missile(
                    Vec2i { x: p.pos.x, y: p.pos.y - 5_000 },
                    Vec2i { x: 0, y: 500_000 },
                    true,
                ),
            );
            if !muted {
                let level: u32 = if score < 2000 {
                    score
                } else {
                    2000
                };
                let base: u32 = 1000 + (3 * level) / 10;
                let jitter: u32 = crate::rng::rand_below_u32(100);
                out.sounds.push(SoundRequest::Shoot { pitch_milli: base - 50 + jitter });
            }
        }
    }

    // Special fire: the full-circle spray at max charge, the smaller spray
    // above the lower threshold.
    if fire_special && p.cooldowns.special_ms == 0 {
        if p.charge.value >= p.charge.max {
            p.cooldowns.special_ms = 600;
            let all = p.charge.value;
            p.charge.spend(all);
            push_spray(&mut out.shots, p.pos, 104, 60, 600_000);
            out.shake = Some(Shake { frames: 50, intensity: 6000 });
            if !muted {
                out.sounds.push(SoundRequest::Special);
            }
        } else if p.charge.value >= 150_000 {
            p.cooldowns.special_ms = 250;
            p.charge.spend(50_000);
            push_spray(&mut out.shots, p.pos, 32, 200, 400_000);
            if !muted {
                out.sounds.push(SoundRequest::Special);
            }
        }
    }
    out
}

/// Appends a circular spray of friendly bolts at even angle steps.
fn push_spray(shots: &mut Vec<ShotRequest>, pos: Vec2i, count: u32, step_mrad: i64, speed: i64)
    requires
        old(shots)@.len() == 0,
        0 < count <= 1024,
        0 <= step_mrad <= TAU_MRAD,
    ensures
        final(shots)@ == spray_shots(pos, count as int, step_mrad as int, speed as int),
{
    let mut i: u32 = 0;
    while i < count
        invariant
            i <= count,
            0 < count <= 1024,
            0 <= step_mrad <= TAU_MRAD,
            shots@ =~= spray_shots(pos, count as int, step_mrad as int, speed as int).take(
                i as int,
            ),
        decreases count - i,
    {
        proof {
            assert(0 <= step_mrad * (i as int) <= 6_283 * 1024) by (nonlinear_arith)
                requires
                    0 <= step_mrad <= 6_283,
                    0 <= i <= 1024,
            ;
        }
        shots.push(
            ShotRequest {
                pos,
                vel: ShotVel::Polar { angle_mrad: step_mrad * (i as i64), speed },
                friendly: true,
            },
        );
        i = i + 1;
        proof {
            assert(shots@ =~= spray_shots(pos, count as int, step_mrad as int, speed as int).take(
                i as int,
            ));
        }
    }
    proof {
        assert(spray_shots(pos, count as int, step_mrad as int, speed as int).take(count as int)
            =~= spray_shots(pos, count as int, step_mrad as int, speed as int));
    }
}

} // verus!
