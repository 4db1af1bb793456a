//! Bullets, and the per-tick collision and damage resolution.
//!
//! Resolution runs against a snapshot of the bullets in three passes, in
//! this order: friendly bullets against enemies, enemy ships ramming the
//! player, enemy bullets against the player. The whole computation is
//! specified as a fold over that snapshot, so the outcome — including every
//! score award, burst, sound and removal, and their order — is pinned down
//! exactly.

use vstd::prelude::*;
use crate::audio::SoundRequest;
use crate::components::{Lifetime, TrailTimer};
use crate::constants::{DT_LIMIT, SIZE_MISSILE_H, SIZE_MISSILE_W, VEL_LIMIT};
use crate::effects::{
    destruction_main_burst, destruction_spark_burst, impact_burst, make_destruction_bursts,
    make_impact_burst, BurstRequest, Shake,
};
use crate::enemy::{kind_points, points_of, Enemy, EnemyKind};
use crate::geom::{aabb_overlap, collides, travel, travel_pad, Collider, Vec2i};
use crate::player::Player;

verus! {

/// A projectile. Lasers do not travel with their velocity: they follow the
/// player's column and scroll on their own, and expire by lifetime instead
/// of by leaving the screen.
#[derive(Clone, Copy, Debug, PartialEq, Eq, Structural)]
pub struct Bullet {
    pub pos: Vec2i,
    /// Milli-pixels per second. Also pads this bullet's collision box.
    pub vel: Vec2i,
    pub friendly: bool,
    pub damage: i32,
    pub laser: bool,
    pub col: Collider,
    /// Missiles emit a small trail burst each time this fires.
    pub trail: Option<TrailTimer>,
    /// Lasers expire when this runs out.
    pub lifetime: Option<Lifetime>,
}

impl Bullet {
    pub open spec fn wf(self) -> bool {
        &&& self.pos.in_bounds()
        &&& -VEL_LIMIT <= self.vel.x <= VEL_LIMIT
        &&& -VEL_LIMIT <= self.vel.y <= VEL_LIMIT
        &&& self.col.wf()
        &&& 0 <= self.damage
        &&& match self.trail {
            Some(t) => t.wf(),
            None => true,
        }
    }
}

/// Builds a plain missile: damage one, missile-sized box, trailing.
pub fn spawn_missile(pos: Vec2i, vel: Vec2i, friendly: bool) -> (b: Bullet)
    requires
        pos.in_bounds(),
        -VEL_LIMIT <= vel.x <= VEL_LIMIT,
        -VEL_LIMIT <= vel.y <= VEL_LIMIT,
    ensures
        b == (Bullet {
            pos,
            vel,
            friendly,
            damage: 1i32,
            laser: false,
            col: Collider { w: SIZE_MISSILE_W, h: SIZE_MISSILE_H },
            trail: Some(TrailTimer { period_ms: 45u32, elapsed_ms: 0u32 }),
            lifetime: None::<Lifetime>,
        }),
        b.wf(),
{
    Bullet {
        pos,
        vel,
        friendly,
        damage: 1,
        laser: false,
        col: Collider { w: SIZE_MISSILE_W, h: SIZE_MISSILE_H },
        trail: Some(TrailTimer { period_ms: 45, elapsed_ms: 0 }),
        lifetime: None,
    }
}

/// Whether a bullet's box — padded by the distance it travels this tick —
/// overlaps the given box.
pub open spec fn bullet_hits_box(b: Bullet, pos: Vec2i, col: Collider, dt: int) -> bool {
    collides(b.pos, b.col, pos, col, travel(b.vel.x as int, dt), travel(b.vel.y as int, dt))
}

pub open spec fn target_hit(oe: Option<Enemy>, b: Bullet, dt: int) -> bool {
    match oe {
        Some(e) => bullet_hits_box(b, e.pos, e.col, dt),
        None => false,
    }
}

/// The first still-present enemy, in iteration order from `i`, that the
/// bullet overlaps; a bullet affects only this one per tick.
pub open spec fn first_target(enemies: Seq<Option<Enemy>>, b: Bullet, dt: int, i: int) -> Option<
    int,
>
    decreases enemies.len() - i,
{
    if i < 0 || i >= enemies.len() {
        None
    } else if target_hit(enemies[i], b, dt) {
        Some(i)
    } else {
        first_target(enemies, b, dt, i + 1)
    }
}

pub open spec fn enemies_wf_alive(s: Seq<Option<Enemy>>) -> bool {
    forall|i: int|
        0 <= i < s.len() ==> match #[trigger] s[i] {
            Some(e) => e.wf() && e.health.alive(),
            None => true,
        }
}

pub open spec fn bullets_wf(s: Seq<Option<Bullet>>) -> bool {
    forall|i: int|
        0 <= i < s.len() ==> match #[trigger] s[i] {
            Some(b) => b.wf(),
            None => true,
        }
}

pub open spec fn all_bullets_wf(s: Seq<Bullet>) -> bool {
    forall|i: int| 0 <= i < s.len() ==> (#[trigger] s[i]).wf()
}

pub open spec fn all_enemies_wf_alive(s: Seq<Enemy>) -> bool {
    forall|i: int|
        0 <= i < s.len() ==> (#[trigger] s[i]).wf() && s[i].health.alive()
}

/// Finds the first enemy the bullet overlaps this tick, if any.
pub fn find_target(enemies: &Vec<Option<Enemy>>, b: &Bullet, dt_ms: u32) -> (r: Option<usize>)
    requires
        b.wf(),
        dt_ms <= DT_LIMIT,
        enemies_wf_alive(enemies@),
    ensures
        match r {
            Some(j) => j < enemies@.len() && first_target(enemies@, *b, dt_ms as int, 0) == Some(
                j as int,
            ),
            None => first_target(enemies@, *b, dt_ms as int, 0) is None,
        },
{
    let pad_x = travel_pad(b.vel.x, dt_ms);
    let pad_y = travel_pad(b.vel.y, dt_ms);
    let mut j: usize = 0;
    while j < enemies.len()
        invariant
            j <= enemies@.len(),
            b.wf(),
            dt_ms <= DT_LIMIT,
            enemies_wf_alive(enemies@),
            pad_x == travel(b.vel.x as int, dt_ms as int),
            pad_y == travel(b.vel.y as int, dt_ms as int),
            0 <= pad_x <= crate::geom::PAD_LIMIT,
            0 <= pad_y <= crate::geom::PAD_LIMIT,
            first_target(enemies@, *b, dt_ms as int, 0) == first_target(
                enemies@,
                *b,
                dt_ms as int,
                j as int,
            ),
        decreases enemies@.len() - j,
    {
        match &enemies[j] {
            Some(e) => {
                if aabb_overlap(b.pos, b.col, e.pos, e.col, pad_x, pad_y) {
                    return Some(j);
                }
            },
            None => {},
        }
        j = j + 1;
    }
    None
}

/// A found first target is a real, overlapped, still-present enemy.
pub proof fn lemma_first_target_hit(enemies: Seq<Option<Enemy>>, b: Bullet, dt: int, i: int)
    requires
        first_target(enemies, b, dt, i) is Some,
    ensures
        ({
            let j = first_target(enemies, b, dt, i)->Some_0;
            &&& i <= j < enemies.len()
            &&& target_hit(enemies[j], b, dt)
            &&& enemies[j] is Some
        }),
    decreases enemies.len() - i,
{
    if !(i < 0 || i >= enemies.len()) && !target_hit(enemies[i], b, dt) {
        lemma_first_target_hit(enemies, b, dt, i + 1);
    }
}

/// The full resolution state the passes fold over: the bullet and enemy
/// snapshots (removed entries become `None`), the player, and everything
/// the tick emits.
#[verifier::ext_equal]
pub struct CombatState {
    pub bullets: Seq<Option<Bullet>>,
    pub enemies: Seq<Option<Enemy>>,
    pub player: Option<Player>,
    pub score: int,
    pub sounds: Seq<SoundRequest>,
    pub bursts: Seq<BurstRequest>,
    /// How many damage-tint overlays the tick spawns.
    pub vignettes: int,
    pub shake: Shake,
}

/// The shake pulse a kill triggers, scaled up for special enemies.
pub open spec fn kill_shake(kind: EnemyKind) -> Shake {
    if kind is Special {
        Shake { frames: 24i32, intensity: 3000i64 }
    } else {
        Shake { frames: 8i32, intensity: 1500i64 }
    }
}

/// Bullet `i` of the snapshot strikes enemy `j`: the bullet is consumed,
/// the enemy loses the bullet's damage, and — if that kills it — it is
/// removed at once, scored by kind, and a shake pulse, a destruction burst
/// and an explosion sound are triggered.
pub open spec fn pass1_hit(st: CombatState, i: int, j: int, muted: bool) -> CombatState {
    let b = st.bullets[i]->Some_0;
    let e = st.enemies[j]->Some_0;
    let hp2 = e.health.hp - b.damage;
    let st2 = CombatState { bullets: st.bullets.update(i, None), ..st };
    if hp2 <= 0 {
        CombatState {
            enemies: st2.enemies.update(j, None),
            score: st2.score + points_of(e.kind),
            sounds: if muted {
                st2.sounds
            } else {
                st2.sounds.push(SoundRequest::Explosion)
            },
            bursts: st2.bursts.push(destruction_main_burst(e.pos)).push(
                destruction_spark_burst(e.pos),
            ),
            shake: kill_shake(e.kind),
            ..st2
        }
    } else {
        CombatState {
            enemies: st2.enemies.update(
                j,
                Some(
                    Enemy {
                        health: crate::components::Health { hp: hp2 as i32, ..e.health },
                        ..e
                    },
                ),
            ),
            bursts: st2.bursts.push(impact_burst(b.pos, true)),
            ..st2
        }
    }
}

/// One step of the first pass: bullet `i`, if friendly and not yet
/// consumed, strikes the first enemy it overlaps, or nothing.
pub open spec fn pass1_step(st: CombatState, i: int, dt: int, muted: bool) -> CombatState {
    match st.bullets[i] {
        Some(b) => if b.friendly {
            match first_target(st.enemies, b, dt, 0) {
                Some(j) => pass1_hit(st, i, j, muted),
                None => st,
            }
        } else {
            st
        },
        None => st,
    }
}

/// The first pass applied to the snapshot's first `n` bullets, in order.
pub open spec fn pass1_upto(st0: CombatState, n: int, dt: int, muted: bool) -> CombatState
    decreases n,
{
    if n <= 0 {
        st0
    } else {
        pass1_step(pass1_upto(st0, n - 1, dt, muted), n - 1, dt, muted)
    }
}

/// Each step of the first pass awards at most one kill's worth of points
/// and leaves the collections' lengths, the player and the tint count
/// alone.
pub proof fn lemma_pass1_frame(st0: CombatState, n: int, dt: int, muted: bool)
    requires
        n <= st0.bullets.len(),
    ensures
        st0.score <= pass1_upto(st0, n, dt, muted).score <= st0.score + 20 * if n >= 0 {
            n
        } else {
            0
        },
        pass1_upto(st0, n, dt, muted).bullets.len() == st0.bullets.len(),
        pass1_upto(st0, n, dt, muted).enemies.len() == st0.enemies.len(),
        pass1_upto(st0, n, dt, muted).player == st0.player,
        pass1_upto(st0, n, dt, muted).vignettes == st0.vignettes,
    decreases n,
{
    if n > 0 {
        lemma_pass1_frame(st0, n - 1, dt, muted);
        let st = pass1_upto(st0, n - 1, dt, muted);
        if st.bullets[n - 1] is Some {
            let b = st.bullets[n - 1]->Some_0;
            if b.friendly && first_target(st.enemies, b, dt, 0) is Some {
                lemma_first_target_hit(st.enemies, b, dt, 0);
            }
        }
    }
}


/// The mutable world the resolution passes run on, with its mathematical
/// image.
pub struct CombatWorld {
    pub bullets: Vec<Option<Bullet>>,
    pub enemies: Vec<Option<Enemy>>,
    pub player: Option<Player>,
    pub score_delta: u32,
    pub sounds: Vec<SoundRequest>,
    pub bursts: Vec<BurstRequest>,
    pub vignettes: u32,
    pub shake: Shake,
}

impl CombatWorld {
    pub open spec fn as_state(self) -> CombatState {
        CombatState {
            bullets: self.bullets@,
            enemies: self.enemies@,
            player: self.player,
            score: self.score_delta as int,
            sounds: self.sounds@,
            bursts: self.bursts@,
            vignettes: self.vignettes as int,
            shake: self.shake,
        }
    }

    pub open spec fn wf(self) -> bool {
        &&& bullets_wf(self.bullets@)
        &&& enemies_wf_alive(self.enemies@)
        &&& match self.player {
            Some(p) => p.wf(),
            None => true,
        }
    }
}

/// First pass: friendly bullets against enemies, each bullet striking at
/// most the first enemy it overlaps.
fn pass1(w: CombatWorld, dt_ms: u32, muted: bool) -> (r: CombatWorld)
    requires
        w.wf(),
        dt_ms <= DT_LIMIT,
        w.score_delta + 20 * w.bullets@.len() <= u32::MAX,
    ensures
        r.as_state() == pass1_upto(w.as_state(), w.bullets@.len() as int, dt_ms as int, muted),
        r.wf(),
{
    let mut w = w;
    let ghost init = w.as_state();
    let n = w.bullets.len();
    let mut i: usize = 0;
    while i < n
        invariant
            i <= n == init.bullets.len(),
            dt_ms <= DT_LIMIT,
            init.score + 20 * n <= u32::MAX,
            w.as_state() == pass1_upto(init, i as int, dt_ms as int, muted),
            w.wf(),
        decreases n - i,
    {
        proof {
            lemma_pass1_frame(init, i as int, dt_ms as int, muted);
            lemma_pass1_frame(init, i as int + 1, dt_ms as int, muted);
        }
        let ob: Option<Bullet> = w.bullets[i];
        match ob {
            Some(b) => {
                if b.friendly {
                    match find_target(&w.enemies, &b, dt_ms) {
                        Some(j) => {
                            proof {
                                lemma_first_target_hit(w.enemies@, b, dt_ms as int, 0);
                            }
                            let oe: Option<Enemy> = w.enemies[j];
                            if let Some(e) = oe {
                                let mut e2 = e;
                                e2.health.apply_damage(b.damage);
                                w.bullets.set(i, None);
                                if e2.health.hp <= 0 {
                                    w.enemies.set(j, None);
                                    let pts = kind_points(e.kind);
                                    w.score_delta = w.score_delta + pts;
                                    w.shake = if matches!(e.kind, EnemyKind::Special) {
                                        Shake { frames: 24, intensity: 3000 }
                                    } else {
                                        Shake { frames: 8, intensity: 1500 }
                                    };
                                    let (main_burst, spark) = make_destruction_bursts(e.pos);
                                    w.bursts.push(main_burst);
                                    w.bursts.push(spark);
                                    if !muted {
                                        w.sounds.push(SoundRequest::Explosion);
                                    }
                                } else {
                                    w.enemies.set(j, Some(e2));
                                    w.bursts.push(make_impact_burst(b.pos, true));
                                }
                                proof {
                                    assert(w.as_state() =~= pass1_upto(
                                        init,
                                        i as int + 1,
                                        dt_ms as int,
                                        muted,
                                    ));
                                }
                            }
                        },
                        None => {},
                    }
                }
            },
            None => {},
        }
        i = i + 1;
        proof {
            assert(w.as_state() =~= pass1_upto(init, i as int, dt_ms as int, muted));
        }
    }
    w
}


/// Truncating-toward-zero halfway point between two positions.
pub open spec fn mid_of(a: Vec2i, b: Vec2i) -> Vec2i {
    Vec2i {
        x: crate::num::div_trunc(a.x + b.x, 2) as i64,
        y: crate::num::div_trunc(a.y + b.y, 2) as i64,
    }
}

fn mid_point(a: Vec2i, b: Vec2i) -> (m: Vec2i)
    requires
        a.in_bounds(),
        b.in_bounds(),
    ensures
        m == mid_of(a, b),
        m.in_bounds(),
{
    let x = crate::num::scale_i64(a.x + b.x, 1, 2);
    let y = crate::num::scale_i64(a.y + b.y, 1, 2);
    proof {
        assert((a.x + b.x) * 1 == a.x + b.x);
        assert((a.y + b.y) * 1 == a.y + b.y);
        crate::effects::scaled_bounded_by(a.x + b.x, 1, 2 * crate::constants::COORD_LIMIT, 1, 2);
        crate::effects::scaled_bounded_by(a.y + b.y, 1, 2 * crate::constants::COORD_LIMIT, 1, 2);
    }
    Vec2i { x, y }
}

/// Player hit points after a blow, saturating at the machine floor; the
/// player is removed at the end of the tick whenever they are not positive.
pub open spec fn sub_sat_i32(hp: int, d: int) -> int {
    if hp - d < i32::MIN {
        i32::MIN as int
    } else {
        hp - d
    }
}

fn damage_player_hp(hp: i32, d: i32) -> (r: i32)
    requires
        0 <= d,
    ensures
        r == sub_sat_i32(hp as int, d as int),
{
    let v: i64 = hp as i64 - d as i64;
    if v < i32::MIN as i64 {
        i32::MIN
    } else {
        v as i32
    }
}

/// The second pass's running state: the world plus the ramming damage
/// accumulated against the player, applied once the pass is over.
#[verifier::ext_equal]
pub struct Pass2State {
    pub st: CombatState,
    pub ram: int,
}

/// One step of the ramming pass: enemy `j`, if still present and in plain
/// (unpadded) overlap with the player's box, takes three damage and adds
/// five to the pending player damage; a ram burst, a shake pulse and a hit
/// sound fire, and a kill is removed and scored exactly as in the first
/// pass.
pub open spec fn pass2_step(
    ps: Pass2State,
    j: int,
    ppos: Vec2i,
    pcol: Collider,
    muted: bool,
) -> Pass2State {
    match ps.st.enemies[j] {
        Some(e) => if collides(ppos, pcol, e.pos, e.col, 0, 0) {
            let hp2 = e.health.hp - 3;
            let st2 = CombatState {
                bursts: ps.st.bursts.push(crate::effects::ram_burst(mid_of(ppos, e.pos))),
                shake: Shake { frames: 12i32, intensity: 3000i64 },
                sounds: if muted {
                    ps.st.sounds
                } else {
                    ps.st.sounds.push(SoundRequest::Hit)
                },
                ..ps.st
            };
            if hp2 <= 0 {
                Pass2State {
                    st: CombatState {
                        enemies: st2.enemies.update(j, None),
                        score: st2.score + points_of(e.kind),
                        bursts: st2.bursts.push(destruction_main_burst(e.pos)).push(
                            destruction_spark_burst(e.pos),
                        ),
                        sounds: if muted {
                            st2.sounds
                        } else {
                            st2.sounds.push(SoundRequest::Explosion)
                        },
                        ..st2
                    },
                    ram: ps.ram + 5,
                }
            } else {
                Pass2State {
                    st: CombatState {
                        enemies: st2.enemies.update(
                            j,
                            Some(
                                Enemy {
                                    health: crate::components::Health {
                                        hp: hp2 as i32,
                                        ..e.health
                                    },
                                    ..e
                                },
                            ),
                        ),
                        ..st2
                    },
                    ram: ps.ram + 5,
                }
            }
        } else {
            ps
        },
        None => ps,
    }
}

/// The ramming pass applied to the first `n` enemies, in order.
pub open spec fn pass2_upto(
    ps0: Pass2State,
    n: int,
    ppos: Vec2i,
    pcol: Collider,
    muted: bool,
) -> Pass2State
    decreases n,
{
    if n <= 0 {
        ps0
    } else {
        pass2_step(pass2_upto(ps0, n - 1, ppos, pcol, muted), n - 1, ppos, pcol, muted)
    }
}

/// The accumulated ramming damage lands on the player in one blow.
pub open spec fn pass2_apply(st: CombatState, ram: int) -> CombatState {
    if ram > 0 && st.player is Some {
        let p = st.player->Some_0;
        CombatState {
            player: Some(
                Player {
                    health: crate::components::Health {
                        hp: sub_sat_i32(p.health.hp as int, ram) as i32,
                        ..p.health
                    },
                    ..p
                },
            ),
            ..st
        }
    } else {
        st
    }
}

/// The whole second pass: skipped with no player; otherwise every present
/// enemy overlapping the player's (unpadded) box deals and takes ramming
/// damage, against the player's position as it stands at the start of the
/// pass.
pub open spec fn pass2_full(st: CombatState, muted: bool) -> CombatState {
    match st.player {
        None => st,
        Some(p) => {
            let ps = pass2_upto(
                Pass2State { st, ram: 0 },
                st.enemies.len() as int,
                p.pos,
                p.col,
                muted,
            );
            pass2_apply(ps.st, ps.ram)
        },
    }
}

/// The ramming pass leaves lengths, bullets, the player and the tint count
/// alone, scores at most one kill per enemy, and accrues at most five
/// player damage per enemy.
pub proof fn lemma_pass2_frame(
    ps0: Pass2State,
    n: int,
    ppos: Vec2i,
    pcol: Collider,
    muted: bool,
)
    requires
        n <= ps0.st.enemies.len(),
    ensures
        ({
            let ps = pass2_upto(ps0, n, ppos, pcol, muted);
            &&& ps0.st.score <= ps.st.score <= ps0.st.score + 20 * if n >= 0 {
                n
            } else {
                0
            }
            &&& ps0.ram <= ps.ram <= ps0.ram + 5 * if n >= 0 {
                n
            } else {
                0
            }
            &&& ps.st.enemies.len() == ps0.st.enemies.len()
            &&& ps.st.bullets == ps0.st.bullets
            &&& ps.st.player == ps0.st.player
            &&& ps.st.vignettes == ps0.st.vignettes
        }),
    decreases n,
{
    if n > 0 {
        lemma_pass2_frame(ps0, n - 1, ppos, pcol, muted);
    }
}


/// Second pass: enemy ships ramming the player.
fn pass2(w: CombatWorld, muted: bool) -> (r: CombatWorld)
    requires
        w.wf(),
        w.score_delta + 20 * w.enemies@.len() <= u32::MAX,
        w.enemies@.len() <= 0x10_0000,
    ensures
        r.as_state() == pass2_full(w.as_state(), muted),
        r.wf(),
{
    let mut w = w;
    let ghost init = w.as_state();
    let (ppos, pcol) = match &w.player {
        Some(p) => (p.pos, p.col),
        None => {
            return w;
        },
    };
    let n = w.enemies.len();
    let mut ram: u32 = 0;
    let mut j: usize = 0;
    while j < n
        invariant
            j <= n == init.enemies.len(),
            n <= 0x10_0000,
            init.score + 20 * n <= u32::MAX,
            init.player is Some,
            ppos == init.player->Some_0.pos,
            pcol == init.player->Some_0.col,
            ppos.in_bounds(),
            pcol.wf(),
            (Pass2State { st: w.as_state(), ram: ram as int }) == pass2_upto(
                Pass2State { st: init, ram: 0 },
                j as int,
                ppos,
                pcol,
                muted,
            ),
            w.wf(),
        decreases n - j,
    {
        proof {
            lemma_pass2_frame(Pass2State { st: init, ram: 0 }, j as int, ppos, pcol, muted);
            lemma_pass2_frame(Pass2State { st: init, ram: 0 }, j as int + 1, ppos, pcol, muted);
        }
        let oe: Option<Enemy> = w.enemies[j];
        match oe {
            Some(e) => {
                if aabb_overlap(ppos, pcol, e.pos, e.col, 0, 0) {
                    let mut e2 = e;
                    e2.health.apply_damage(3);
                    ram = ram + 5;
                    w.bursts.push(crate::effects::make_ram_burst(mid_point(ppos, e.pos)));
                    w.shake = Shake { frames: 12, intensity: 3000 };
                    if !muted {
                        w.sounds.push(SoundRequest::Hit);
                    }
                    if e2.health.hp <= 0 {
                        w.enemies.set(j, None);
                        let pts = kind_points(e.kind);
                        w.score_delta = w.score_delta + pts;
                        let (main_burst, spark) = make_destruction_bursts(e.pos);
                        w.bursts.push(main_burst);
                        w.bursts.push(spark);
                        if !muted {
                            w.sounds.push(SoundRequest::Explosion);
                        }
                    } else {
                        w.enemies.set(j, Some(e2));
                    }
                }
            },
            None => {},
        }
        j = j + 1;
        proof {
            assert(Pass2State { st: w.as_state(), ram: ram as int } =~= pass2_upto(
                Pass2State { st: init, ram: 0 },
                j as int,
                ppos,
                pcol,
                muted,
            ));
        }
    }
    proof {
        lemma_pass2_frame(Pass2State { st: init, ram: 0 }, n as int, ppos, pcol, muted);
    }
    if ram > 0 {
        let opl: Option<Player> = w.player;
        match opl {
            Some(p) => {
                let mut p2 = p;
                p2.health.hp = damage_player_hp(p2.health.hp, ram as i32);
                w.player = Some(p2);
            },
            None => {},
        }
    }
    proof {
        assert(w.as_state() =~= pass2_full(init, muted));
    }
    w
}

/// One step of the third pass: enemy bullet `i`, if still in flight and in
/// padded overlap with the player's box, is consumed; a shake pulse, an
/// impact burst, a hit sound and a damage-tint overlay fire, and the player
/// takes the bullet's damage.
pub open spec fn pass3_step(st: CombatState, i: int, dt: int, muted: bool) -> CombatState {
    match (st.bullets[i], st.player) {
        (Some(b), Some(p)) => if !b.friendly && bullet_hits_box(b, p.pos, p.col, dt) {
            CombatState {
                bullets: st.bullets.update(i, None),
                shake: Shake { frames: 10i32, intensity: 2000i64 },
                bursts: st.bursts.push(impact_burst(p.pos, false)),
                sounds: if muted {
                    st.sounds
                } else {
                    st.sounds.push(SoundRequest::Hit)
                },
                vignettes: st.vignettes + 1,
                player: Some(
                    Player {
                        health: crate::components::Health {
                            hp: sub_sat_i32(p.health.hp as int, b.damage as int) as i32,
                            ..p.health
                        },
                        ..p
                    },
                ),
                ..st
            }
        } else {
            st
        },
        _ => st,
    }
}

/// The third pass applied to the snapshot's first `n` bullets, in order.
pub open spec fn pass3_upto(st0: CombatState, n: int, dt: int, muted: bool) -> CombatState
    decreases n,
{
    if n <= 0 {
        st0
    } else {
        pass3_step(pass3_upto(st0, n - 1, dt, muted), n - 1, dt, muted)
    }
}

/// The third pass leaves enemies and the score alone and keeps the player's
/// position and box; only hit points, bullets and emitted effects change.
pub proof fn lemma_pass3_frame(st0: CombatState, n: int, dt: int, muted: bool)
    requires
        n <= st0.bullets.len(),
    ensures
        ({
            let st = pass3_upto(st0, n, dt, muted);
            &&& st.bullets.len() == st0.bullets.len()
            &&& st.enemies == st0.enemies
            &&& st.score == st0.score
            &&& st.player is Some <==> st0.player is Some
            &&& st.player is Some ==> st.player->Some_0.pos == st0.player->Some_0.pos
                && st.player->Some_0.col == st0.player->Some_0.col
                && st.player->Some_0.health.max == st0.player->Some_0.health.max
                && st.player->Some_0.charge == st0.player->Some_0.charge
            &&& st0.vignettes <= st.vignettes <= st0.vignettes + if n >= 0 {
                n
            } else {
                0
            }
        }),
    decreases n,
{
    if n > 0 {
        lemma_pass3_frame(st0, n - 1, dt, muted);
    }
}


/// Third pass: enemy bullets against the player.
fn pass3(w: CombatWorld, dt_ms: u32, muted: bool) -> (r: CombatWorld)
    requires
        w.wf(),
        dt_ms <= DT_LIMIT,
        w.vignettes + w.bullets@.len() <= u32::MAX,
    ensures
        r.as_state() == pass3_upto(w.as_state(), w.bullets@.len() as int, dt_ms as int, muted),
        r.wf(),
{
    let mut w = w;
    let ghost init = w.as_state();
    let n = w.bullets.len();
    let mut i: usize = 0;
    while i < n
        invariant
            i <= n == init.bullets.len(),
            dt_ms <= DT_LIMIT,
            init.vignettes + n <= u32::MAX,
            w.as_state() == pass3_upto(init, i as int, dt_ms as int, muted),
            w.wf(),
        decreases n - i,
    {
        proof {
            lemma_pass3_frame(init, i as int, dt_ms as int, muted);
            lemma_pass3_frame(init, i as int + 1, dt_ms as int, muted);
        }
        let ob: Option<Bullet> = w.bullets[i];
        let opl: Option<Player> = w.player;
        match (ob, opl) {
            (Some(b), Some(p)) => {
                if !b.friendly {
                    let pad_x = travel_pad(b.vel.x, dt_ms);
                    let pad_y = travel_pad(b.vel.y, dt_ms);
                    if aabb_overlap(b.pos, b.col, p.pos, p.col, pad_x, pad_y) {
                        w.bullets.set(i, None);
                        w.shake = Shake { frames: 10, intensity: 2000 };
                        w.bursts.push(make_impact_burst(p.pos, false));
                        if !muted {
                            w.sounds.push(SoundRequest::Hit);
                        }
                        w.vignettes = w.vignettes + 1;
                        let mut p2 = p;
                        p2.health.hp = damage_player_hp(p2.health.hp, b.damage);
                        w.player = Some(p2);
                    }
                }
            },
            _ => {},
        }
        i = i + 1;
        proof {
            assert(w.as_state() =~= pass3_upto(init, i as int, dt_ms as int, muted));
        }
    }
    w
}


/// The still-present entries of a snapshot, in order.
pub open spec fn compact_seq<T>(s: Seq<Option<T>>) -> Seq<T>
    decreases s.len(),
{
    if s.len() == 0 {
        Seq::empty()
    } else {
        let rest = compact_seq(s.drop_last());
        match s.last() {
            Some(v) => rest.push(v),
            None => rest,
        }
    }
}

/// Every survivor of a compaction satisfies what every present entry did.
pub proof fn lemma_compact_enemies_alive(s: Seq<Option<Enemy>>)
    requires
        enemies_wf_alive(s),
    ensures
        forall|k: int|
            0 <= k < compact_seq(s).len() ==> (#[trigger] compact_seq(s)[k]).wf() && compact_seq(
                s,
            )[k].health.alive(),
    decreases s.len(),
{
    if s.len() > 0 {
        assert(enemies_wf_alive(s.drop_last()));
        lemma_compact_enemies_alive(s.drop_last());
        assert(match s[s.len() - 1] {
            Some(e) => e.wf() && e.health.alive(),
            None => true,
        });
    }
}

fn compact_enemies(v: Vec<Option<Enemy>>) -> (out: Vec<Enemy>)
    ensures
        out@ == compact_seq(v@),
{
    let mut out: Vec<Enemy> = Vec::new();
    let mut i: usize = 0;
    while i < v.len()
        invariant
            i <= v@.len(),
            out@ == compact_seq(v@.take(i as int)),
        decreases v@.len() - i,
    {
        match &v[i] {
            Some(e) => out.push(*e),
            None => {},
        }
        i = i + 1;
        proof {
            assert(v@.take(i as int).drop_last() =~= v@.take(i as int - 1));
            assert(v@.take(i as int).last() == v@[i as int - 1]);
        }
    }
    proof {
        assert(v@.take(v@.len() as int) =~= v@);
    }
    out
}

fn compact_bullets(v: Vec<Option<Bullet>>) -> (out: Vec<Bullet>)
    ensures
        out@ == compact_seq(v@),
{
    let mut out: Vec<Bullet> = Vec::new();
    let mut i: usize = 0;
    while i < v.len()
        invariant
            i <= v@.len(),
            out@ == compact_seq(v@.take(i as int)),
        decreases v@.len() - i,
    {
        match &v[i] {
            Some(b) => out.push(*b),
            None => {},
        }
        i = i + 1;
        proof {
            assert(v@.take(i as int).drop_last() =~= v@.take(i as int - 1));
            assert(v@.take(i as int).last() == v@[i as int - 1]);
        }
    }
    proof {
        assert(v@.take(v@.len() as int) =~= v@);
    }
    out
}

fn wrap_bullets(v: Vec<Bullet>) -> (out: Vec<Option<Bullet>>)
    ensures
        out@ == v@.map_values(|b: Bullet| Some(b)),
        all_bullets_wf(v@) ==> bullets_wf(out@),
{
    let mut out: Vec<Option<Bullet>> = Vec::new();
    let mut i: usize = 0;
    while i < v.len()
        invariant
            i <= v@.len(),
            out@ =~= v@.take(i as int).map_values(|b: Bullet| Some(b)),
            all_bullets_wf(v@) ==> bullets_wf(out@),
        decreases v@.len() - i,
    {
        out.push(Some(v[i]));
        i = i + 1;
        proof {
            assert(out@ =~= v@.take(i as int).map_values(|b: Bullet| Some(b)));
        }
    }
    proof {
        assert(v@.take(v@.len() as int) =~= v@);
    }
    out
}

fn wrap_enemies(v: Vec<Enemy>) -> (out: Vec<Option<Enemy>>)
    ensures
        out@ == v@.map_values(|e: Enemy| Some(e)),
        all_enemies_wf_alive(v@) ==> enemies_wf_alive(out@),
{
    let mut out: Vec<Option<Enemy>> = Vec::new();
    let mut i: usize = 0;
    while i < v.len()
        invariant
            i <= v@.len(),
            out@ =~= v@.take(i as int).map_values(|e: Enemy| Some(e)),
            all_enemies_wf_alive(v@) ==> enemies_wf_alive(out@),
        decreases v@.len() - i,
    {
        out.push(Some(v[i]));
        i = i + 1;
        proof {
            assert(out@ =~= v@.take(i as int).map_values(|e: Enemy| Some(e)));
        }
    }
    proof {
        assert(v@.take(v@.len() as int) =~= v@);
    }
    out
}

/// The resolution state a tick starts from: full snapshots, no emissions.
pub open spec fn initial_state(
    bullets: Seq<Bullet>,
    enemies: Seq<Enemy>,
    player: Option<Player>,
    shake: Shake,
) -> CombatState {
    CombatState {
        bullets: bullets.map_values(|b: Bullet| Some(b)),
        enemies: enemies.map_values(|e: Enemy| Some(e)),
        player,
        score: 0,
        sounds: Seq::empty(),
        bursts: Seq::empty(),
        vignettes: 0,
        shake,
    }
}

/// The three passes in order, over the whole snapshot.
pub open spec fn resolution(st0: CombatState, dt: int, muted: bool) -> CombatState {
    let s1 = pass1_upto(st0, st0.bullets.len() as int, dt, muted);
    let s2 = pass2_full(s1, muted);
    pass3_upto(s2, s2.bullets.len() as int, dt, muted)
}

/// Everything one resolution tick produced.
pub struct CombatOutcome {
    /// Bullets still in flight, in order.
    pub bullets: Vec<Bullet>,
    /// Enemies still alive, in order.
    pub enemies: Vec<Enemy>,
    /// The player, or nothing if this tick's damage was fatal.
    pub player: Option<Player>,
    /// Points awarded this tick.
    pub score_delta: u32,
    pub sounds: Vec<SoundRequest>,
    pub bursts: Vec<BurstRequest>,
    /// How many damage-tint overlays to spawn.
    pub vignettes: u32,
    pub shake: Shake,
}

/// One tick of collision and damage resolution over a snapshot of the
/// world: friendly bullets strike enemies, enemies ram the player, enemy
/// bullets strike the player, exactly as [`resolution`] folds it; entities
/// whose health crossed zero are gone from the result.
pub fn resolve_collisions(
    bullets: Vec<Bullet>,
    enemies: Vec<Enemy>,
    player: Option<Player>,
    shake: Shake,
    dt_ms: u32,
    muted: bool,
) -> (out: CombatOutcome)
    requires
        all_bullets_wf(bullets@),
        all_enemies_wf_alive(enemies@),
        match player {
            Some(p) => p.wf(),
            None => true,
        },
        dt_ms <= DT_LIMIT,
        bullets@.len() <= 0x10_0000,
        enemies@.len() <= 0x10_0000,
    ensures
        ({
            let stf = resolution(initial_state(bullets@, enemies@, player, shake), dt_ms as int, muted);
            &&& out.bullets@ == compact_seq(stf.bullets)
            &&& out.enemies@ == compact_seq(stf.enemies)
            &&& out.player == (match stf.player {
                Some(p) => if p.health.hp > 0 {
                    Some(p)
                } else {
                    None
                },
                None => None,
            })
            &&& out.score_delta == stf.score
            &&& out.sounds@ == stf.sounds
            &&& out.bursts@ == stf.bursts
            &&& out.vignettes == stf.vignettes
            &&& out.shake == stf.shake
        }),
        forall|k: int|
            0 <= k < out.enemies@.len() ==> (#[trigger] out.enemies@[k]).wf()
                && out.enemies@[k].health.alive(),
        match out.player {
            Some(p) => p.wf() && p.health.alive(),
            None => true,
        },
{
    let w = CombatWorld {
        bullets: wrap_bullets(bullets),
        enemies: wrap_enemies(enemies),
        player,
        score_delta: 0,
        sounds: Vec::new(),
        bursts: Vec::new(),
        vignettes: 0,
        shake,
    };
    let ghost st0 = w.as_state();
    proof {
        assert(st0 =~= initial_state(bullets@, enemies@, player, shake));
    }
    let w1 = pass1(w, dt_ms, muted);
    proof {
        lemma_pass1_frame(st0, st0.bullets.len() as int, dt_ms as int, muted);
    }
    let w2 = pass2(w1, muted);
    proof {
        let s2 = pass2_full(w1.as_state(), muted);
        if w1.as_state().player is Some {
            lemma_pass2_frame(
                Pass2State { st: w1.as_state(), ram: 0 },
                w1.as_state().enemies.len() as int,
                w1.as_state().player->Some_0.pos,
                w1.as_state().player->Some_0.col,
                muted,
            );
        }
    }
    let w3 = pass3(w2, dt_ms, muted);
    proof {
        lemma_compact_enemies_alive(w3.enemies@);
    }
    let out_player: Option<Player> = match &w3.player {
        Some(p) => if p.health.hp > 0 {
            Some(*p)
        } else {
            None
        },
        None => None,
    };
    CombatOutcome {
        bullets: compact_bullets(w3.bullets),
        enemies: compact_enemies(w3.enemies),
        player: out_player,
        score_delta: w3.score_delta,
        sounds: w3.sounds,
        bursts: w3.bursts,
        vignettes: w3.vignettes,
        shake: w3.shake,
    }
}


/// How fast a laser's column scrolls upward, milli-pixels per second.
pub const LASER_SCROLL: i64 = 700_000;

/// Margin past the screen edge after which a bullet is discarded.
pub const BULLET_MARGIN: i64 = 10_000;

pub open spec fn bullet_off_screen(pos: Vec2i) -> bool {
    ||| pos.x < -crate::constants::SCREEN_WIDTH / 2 - BULLET_MARGIN
    ||| pos.x > crate::constants::SCREEN_WIDTH / 2 + BULLET_MARGIN
    ||| pos.y < -crate::constants::SCREEN_HEIGHT / 2 - BULLET_MARGIN
    ||| pos.y > crate::constants::SCREEN_HEIGHT / 2 + BULLET_MARGIN
}

/// A bullet after one tick of motion: a laser keeps its column and scrolls
/// upward; anything else drifts with its velocity, and its trail timer
/// advances.
pub open spec fn bullet_moved(b: Bullet, dt: int) -> Bullet {
    if b.laser {
        Bullet {
            pos: Vec2i {
                x: b.pos.x,
                y: crate::effects::clip_coord(b.pos.y + crate::num::scaled(
                    LASER_SCROLL as int,
                    dt,
                    1000,
                )) as i64,
            },
            ..b
        }
    } else {
        Bullet {
            pos: Vec2i {
                x: crate::effects::clip_coord(b.pos.x + crate::num::scaled(
                    b.vel.x as int,
                    dt,
                    1000,
                )) as i64,
                y: crate::effects::clip_coord(b.pos.y + crate::num::scaled(
                    b.vel.y as int,
                    dt,
                    1000,
                )) as i64,
            },
            trail: match b.trail {
                Some(t) => Some(
                    TrailTimer {
                        period_ms: t.period_ms,
                        elapsed_ms: ((t.elapsed_ms + dt) % (t.period_ms as int)) as u32,
                    },
                ),
                None => None,
            },
            ..b
        }
    }
}

/// Whether this tick's motion fires the bullet's trail timer.
pub open spec fn bullet_trail_fires(b: Bullet, dt: int) -> bool {
    !b.laser && match b.trail {
        Some(t) => t.elapsed_ms + dt >= t.period_ms,
        None => false,
    }
}

/// The one-particle trail puff a moving missile leaves.
pub open spec fn trail_burst(pos: Vec2i, friendly: bool) -> BurstRequest {
    BurstRequest {
        pos,
        color: if friendly {
            crate::effects::ColorMilli { r: 1000u32, g: 1000u32, b: 1000u32, a: 1000u32 }
        } else {
            crate::effects::ColorMilli { r: 1000u32, g: 300u32, b: 300u32, a: 1000u32 }
        },
        count: 1u32,
        speed_lo: 30_000i64,
        speed_hi: 90_000i64,
        size_lo: 8u32,
        size_hi: 20u32,
        life_lo: 350u32,
        life_hi: 650u32,
        flash: false,
    }
}

/// The bullets that survive one tick of motion: each moved, then kept
/// exactly when it is still within the screen plus the margin.
pub open spec fn moved_kept(bs: Seq<Bullet>, dt: int) -> Seq<Bullet>
    decreases bs.len(),
{
    if bs.len() == 0 {
        Seq::empty()
    } else {
        let rest = moved_kept(bs.drop_last(), dt);
        let m = bullet_moved(bs.last(), dt);
        if bullet_off_screen(m.pos) {
            rest
        } else {
            rest.push(m)
        }
    }
}

/// The trail puffs one tick of motion emits, in bullet order; a puff is
/// emitted at the moved position even if the bullet then leaves the screen.
pub open spec fn motion_bursts(bs: Seq<Bullet>, dt: int) -> Seq<BurstRequest>
    decreases bs.len(),
{
    if bs.len() == 0 {
        Seq::empty()
    } else {
        let rest = motion_bursts(bs.drop_last(), dt);
        let b = bs.last();
        if bullet_trail_fires(b, dt) {
            rest.push(trail_burst(bullet_moved(b, dt).pos, b.friendly))
        } else {
            rest
        }
    }
}

/// What one tick of bullet motion produced.
pub struct MotionOutcome {
    pub bullets: Vec<Bullet>,
    pub bursts: Vec<BurstRequest>,
}

/// One tick of projectile motion: moves every bullet, emits trail puffs,
/// and discards bullets that left the screen and its margin.
pub fn move_bullets(bullets: Vec<Bullet>, dt_ms: u32) -> (out: MotionOutcome)
    requires
        all_bullets_wf(bullets@),
        dt_ms <= DT_LIMIT,
    ensures
        out.bullets@ == moved_kept(bullets@, dt_ms as int),
        out.bursts@ == motion_bursts(bullets@, dt_ms as int),
        all_bullets_wf(out.bullets@),
{
    let mut kept: Vec<Bullet> = Vec::new();
    let mut bursts: Vec<BurstRequest> = Vec::new();
    let mut i: usize = 0;
    while i < bullets.len()
        invariant
            i <= bullets@.len(),
            dt_ms <= DT_LIMIT,
            all_bullets_wf(bullets@),
            kept@ == moved_kept(bullets@.take(i as int), dt_ms as int),
            bursts@ == motion_bursts(bullets@.take(i as int), dt_ms as int),
            all_bullets_wf(kept@),
        decreases bullets@.len() - i,
    {
        let b: Bullet = bullets[i];
        proof {
            assert(b.wf());
            crate::effects::scaled_bounded_by(
                b.vel.x as int,
                dt_ms as int,
                VEL_LIMIT as int,
                DT_LIMIT as int,
                1000,
            );
            crate::effects::scaled_bounded_by(
                b.vel.y as int,
                dt_ms as int,
                VEL_LIMIT as int,
                DT_LIMIT as int,
                1000,
            );
            crate::effects::scaled_bounded_by(
                LASER_SCROLL as int,
                dt_ms as int,
                VEL_LIMIT as int,
                DT_LIMIT as int,
                1000,
            );
            assert((VEL_LIMIT as int) * (DT_LIMIT as int) == 0x1000_0000_0000_0000int)
                by (nonlinear_arith);
        }
        let mut m = b;
        let mut fired = false;
        if b.laser {
            let dy = crate::num::scale_i64(LASER_SCROLL, dt_ms as i64, 1000);
            m.pos.y = crate::effects::clip_coord_exec(m.pos.y + dy);
        } else {
            let dx = crate::num::scale_i64(b.vel.x, dt_ms as i64, 1000);
            let dy = crate::num::scale_i64(b.vel.y, dt_ms as i64, 1000);
            m.pos.x = crate::effects::clip_coord_exec(m.pos.x + dx);
            m.pos.y = crate::effects::clip_coord_exec(m.pos.y + dy);
            match &mut m.trail {
                Some(t) => {
                    fired = t.tick(dt_ms);
                },
                None => {},
            }
        }
        if fired {
            let req = crate::effects::emit_burst(
                m.pos,
                if b.friendly {
                    crate::effects::ColorMilli { r: 1000, g: 1000, b: 1000, a: 1000 }
                } else {
                    crate::effects::ColorMilli { r: 1000, g: 300, b: 300, a: 1000 }
                },
                1,
                30_000,
                90_000,
                8,
                20,
            );
            bursts.push(req);
        }
        let off = m.pos.x < -crate::constants::SCREEN_WIDTH / 2 - BULLET_MARGIN || m.pos.x
            > crate::constants::SCREEN_WIDTH / 2 + BULLET_MARGIN || m.pos.y
            < -crate::constants::SCREEN_HEIGHT / 2 - BULLET_MARGIN || m.pos.y
            > crate::constants::SCREEN_HEIGHT / 2 + BULLET_MARGIN;
        if !off {
            kept.push(m);
        }
        i = i + 1;
        proof {
            assert(bullets@.take(i as int).drop_last() =~= bullets@.take(i as int - 1));
            assert(bullets@.take(i as int).last() == b);
            assert(m == bullet_moved(b, dt_ms as int));
            assert(fired == bullet_trail_fires(b, dt_ms as int));
            assert(kept@ =~= moved_kept(bullets@.take(i as int), dt_ms as int));
            assert(bursts@ =~= motion_bursts(bullets@.take(i as int), dt_ms as int));
        }
    }
    proof {
        assert(bullets@.take(bullets@.len() as int) =~= bullets@);
    }
    MotionOutcome { bullets: kept, bursts }
}

/// A bullet with its column re-pinned to the player: lasers follow the
/// player's horizontal position every tick they exist.
pub open spec fn laser_followed(b: Bullet, px: Option<i64>) -> Bullet {
    match px {
        Some(x) => if b.laser {
            Bullet { pos: Vec2i { x, y: b.pos.y }, ..b }
        } else {
            b
        },
        None => b,
    }
}

/// Re-pins every laser to the player's current column; with no player,
/// everything is left alone.
pub fn follow_laser_to_player(bullets: Vec<Bullet>, player_x: Option<i64>) -> (out: Vec<Bullet>)
    ensures
        out@ == bullets@.map_values(|b: Bullet| laser_followed(b, player_x)),
{
    let mut out: Vec<Bullet> = Vec::new();
    let mut i: usize = 0;
    while i < bullets.len()
        invariant
            i <= bullets@.len(),
            out@ =~= bullets@.take(i as int).map_values(
                |b: Bullet| laser_followed(b, player_x),
            ),
        decreases bullets@.len() - i,
    {
        let mut b: Bullet = bullets[i];
        match player_x {
            Some(x) => {
                if b.laser {
                    b.pos.x = x;
                }
            },
            None => {},
        }
        out.push(b);
        i = i + 1;
        proof {
            assert(out@ =~= bullets@.take(i as int).map_values(
                |b: Bullet| laser_followed(b, player_x),
            ));
        }
    }
    proof {
        assert(bullets@.take(bullets@.len() as int) =~= bullets@);
    }
    out
}

/// The bullets that survive one tick of lifetime: a timed bullet's
/// countdown advances and it is discarded once the countdown is spent.
pub open spec fn lifetimes_kept(bs: Seq<Bullet>, dt: int) -> Seq<Bullet>
    decreases bs.len(),
{
    if bs.len() == 0 {
        Seq::empty()
    } else {
        let rest = lifetimes_kept(bs.drop_last(), dt);
        let b = bs.last();
        match b.lifetime {
            Some(lt) => if lt.remaining_ms <= dt {
                rest
            } else {
                rest.push(
                    Bullet {
                        lifetime: Some(Lifetime { remaining_ms: (lt.remaining_ms - dt) as u32 }),
                        ..b
                    },
                )
            },
            None => rest.push(b),
        }
    }
}

/// One tick of lifetime expiry over the bullets.
pub fn lifetime_cleanup(bullets: Vec<Bullet>, dt_ms: u32) -> (out: Vec<Bullet>)
    ensures
        out@ == lifetimes_kept(bullets@, dt_ms as int),
{
    let mut out: Vec<Bullet> = Vec::new();
    let mut i: usize = 0;
    while i < bullets.len()
        invariant
            i <= bullets@.len(),
            out@ == lifetimes_kept(bullets@.take(i as int), dt_ms as int),
        decreases bullets@.len() - i,
    {
        let mut b: Bullet = bullets[i];
        let mut keep = true;
        match &mut b.lifetime {
            Some(lt) => {
                if lt.remaining_ms <= dt_ms {
                    keep = false;
                } else {
                    lt.remaining_ms = lt.remaining_ms - dt_ms;
                }
            },
            None => {},
        }
        if keep {
            out.push(b);
        }
        i = i + 1;
        proof {
            assert(bullets@.take(i as int).drop_last() =~= bullets@.take(i as int - 1));
            assert(bullets@.take(i as int).last() == bullets@[i as int - 1]);
            assert(out@ =~= lifetimes_kept(bullets@.take(i as int), dt_ms as int));
        }
    }
    proof {
        assert(bullets@.take(bullets@.len() as int) =~= bullets@);
    }
    out
}


/// Hit points after `n` hits of `d` damage each, where a hit lands only
/// while the entity is still alive — once hit points reach zero the entity
/// has been removed and takes no further hits.
pub open spec fn hp_after_hits(initial: int, d: int, n: nat) -> int
    decreases n,
{
    if n == 0 {
        initial
    } else {
        let prev = hp_after_hits(initial, d, (n - 1) as nat);
        if prev <= 0 {
            prev
        } else {
            prev - d
        }
    }
}

/// How many hits of `d` damage remove an entity with `initial` hit points.
pub open spec fn hits_to_kill(initial: int, d: int) -> int {
    (initial + d - 1) / d
}

pub open spec fn max_i(a: int, b: int) -> int {
    if a > b {
        a
    } else {
        b
    }
}

/// The kill count is the least hit count that drives the health to zero or
/// below.
proof fn lemma_hits_to_kill_bounds(initial: int, d: int)
    requires
        0 < d,
        0 < initial,
    ensures
        1 <= hits_to_kill(initial, d),
        d * (hits_to_kill(initial, d) - 1) < initial <= d * hits_to_kill(initial, d),
{
    let k = hits_to_kill(initial, d);
    vstd::arithmetic::div_mod::lemma_fundamental_div_mod(initial + d - 1, d);
    let r = (initial + d - 1) % d;
    vstd::arithmetic::div_mod::lemma_mod_bound(initial + d - 1, d);
    assert(d * (k - 1) == d * k - d) by (nonlinear_arith);
    if k < 1 {
        assert(d * k <= 0) by (nonlinear_arith)
            requires
                k <= 0,
                0 < d,
        ;
    }
}

/// Health after hits, in closed form: each of the first `min(n, kills)`
/// hits costs exactly `d`, and no hit lands after removal, so the value is
/// the larger of `initial - n * d` and the health at removal.
pub proof fn lemma_health_after_hits(initial: int, d: int, n: nat)
    requires
        0 < d,
        0 < initial,
    ensures
        hp_after_hits(initial, d, n) == initial - d * min_int(n as int, hits_to_kill(initial, d)),
        hp_after_hits(initial, d, n) == max_i(
            initial - d * n,
            initial - d * hits_to_kill(initial, d),
        ),
    decreases n,
{
    let k = hits_to_kill(initial, d);
    lemma_hits_to_kill_bounds(initial, d);
    if n == 0 {
        assert(d * 0 == 0) by (nonlinear_arith);
        assert(initial - d * n >= initial - d * k) by (nonlinear_arith)
            requires
                0 < d,
                n == 0,
                1 <= k,
        ;
    } else {
        lemma_health_after_hits(initial, d, (n - 1) as nat);
        let m = min_int(n - 1, k);
        let prev = hp_after_hits(initial, d, (n - 1) as nat);
        if prev <= 0 {
            // The entity was already removed: `m` hits sufficed, so `m`
            // cannot be below the kill count.
            if m < k {
                assert(d * m <= d * (k - 1)) by (nonlinear_arith)
                    requires
                        0 < d,
                        m <= k - 1,
                ;
            }
            assert(m == k);
            assert(min_int(n as int, k) == k);
        } else {
            // Still alive: fewer than `kills` hits so far.
            if m == k {
                assert(initial - d * k <= 0);
            }
            assert(m == n - 1 && n - 1 < k);
            assert(d * (m + 1) == d * m + d) by (nonlinear_arith);
            assert(min_int(n as int, k) == n);
        }
        // Relate the min form to the max form.
        let mm = min_int(n as int, k);
        if n < k {
            assert(d * n <= d * k) by (nonlinear_arith)
                requires
                    0 < d,
                    n <= k,
            ;
        } else {
            assert(d * k <= d * n) by (nonlinear_arith)
                requires
                    0 < d,
                    k <= n,
            ;
        }
    }
}

pub open spec fn min_int(a: int, b: int) -> int {
    if a < b {
        a
    } else {
        b
    }
}

} // verus!
