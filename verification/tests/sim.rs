use shmup_core::audio::{plan_sound, sample_count, SoundRequest, SynthPlan, WaveType};
use shmup_core::combat::{
    follow_laser_to_player, lifetime_cleanup, move_bullets, resolve_collisions, spawn_missile,
    Bullet,
};
use shmup_core::components::{Charge, Health, Lifetime, TrailTimer};
use shmup_core::effects::{DamageVignette, Particle2D, ColorMilli, Shake, Trail};
use shmup_core::enemy::{
    enemy_fire_step, enemy_move, enemy_off_screen, enemy_patrol_update, fire_pattern, Enemy,
    EnemyKind, FiringPattern, Movement, ShotRequest, ShotVel, TrigSample,
};
use shmup_core::geom::{aabb_overlap, clamp_to_screen, travel_pad, Collider, Vec2i};
use shmup_core::player::{player_tick, Player};
use shmup_core::state::{GameOverWatch, GamePhase, Muted, phase_after_click, phase_after_pause_toggle, Score};
use shmup_core::wave::{select_archetype, spawner_step, WaveConfig, WaveManager};
use shmup_core::enemy::EnemyType;

fn basic_enemy(x: i64, y: i64, hp: i32) -> Enemy {
    Enemy {
        pos: Vec2i { x, y },
        col: Collider { w: 16_000, h: 16_000 },
        health: Health { hp, max: hp },
        kind: EnemyKind::Basic,
        firing: FiringPattern::Single,
        movement: Movement::DriftDown,
        distance: 30,
        phase: 0,
        speed: 1000,
        shoot_time: 50,
        circular_center: Vec2i { x, y },
        circular_radius: 80_000,
        circular_angle: 0,
        dash_state: 0,
        dash_timer_ms: 0,
        dash_cooldown_ms: 0,
        formation_anchor: Vec2i { x, y },
        formation_offset: Vec2i { x: 0, y: 0 },
    }
}

fn still_trig() -> TrigSample {
    TrigSample { sin_phase: 0, orbit_cos: 1000, orbit_sin: 0, form_cos: 1000, form_sin: 0 }
}

// Padded overlap: the boundary per the <= formula collides, one unit past
// it does not, one unit inside does.
#[test]
fn overlap_boundary_unpadded() {
    let a = Collider { w: 16_000, h: 16_000 };
    let b = Collider { w: 16_000, h: 16_000 };
    let origin = Vec2i { x: 0, y: 0 };
    // |dx| == halfW_a + halfW_b exactly.
    assert!(aabb_overlap(origin, a, Vec2i { x: 16_000, y: 0 }, b, 0, 0));
    assert!(!aabb_overlap(origin, a, Vec2i { x: 16_001, y: 0 }, b, 0, 0));
    assert!(aabb_overlap(origin, a, Vec2i { x: 15_999, y: 0 }, b, 0, 0));
    // Both axes must overlap.
    assert!(!aabb_overlap(origin, a, Vec2i { x: 0, y: 16_001 }, b, 0, 0));
}

#[test]
fn overlap_boundary_velocity_padded() {
    // 100 px/s for a full second of tick pads the box by 100 px.
    let pad = travel_pad(100_000, 1000);
    assert_eq!(pad, 100_000);
    let bullet_box = Collider { w: 4_000, h: 4_000 };
    let ship = Collider { w: 16_000, h: 16_000 };
    let origin = Vec2i { x: 0, y: 0 };
    // 2*|dx| == w_a + w_b + 2*pad at x = 110_000.
    assert!(aabb_overlap(origin, bullet_box, Vec2i { x: 110_000, y: 0 }, ship, pad, 0));
    assert!(!aabb_overlap(origin, bullet_box, Vec2i { x: 110_001, y: 0 }, ship, pad, 0));
}

// Scenario: an enemy with 3 hit points struck by two friendly bullets of
// damage 2: alive at 1 after the first, removed at -1 after the second,
// scored once as Basic, with exactly one explosion sound.
#[test]
fn two_bullets_kill_basic_enemy() {
    let mk_bullet = || Bullet {
        pos: Vec2i { x: 0, y: 0 },
        vel: Vec2i { x: 0, y: 0 },
        friendly: true,
        damage: 2,
        laser: false,
        col: Collider { w: 4_000, h: 4_000 },
        trail: None,
        lifetime: None,
    };
    let enemy = basic_enemy(0, 0, 3);
    let out = resolve_collisions(
        vec![mk_bullet(), mk_bullet()],
        vec![enemy],
        None,
        Shake { frames: 0, intensity: 0 },
        16,
        false,
    );
    assert_eq!(out.enemies.len(), 0);
    assert_eq!(out.bullets.len(), 0);
    assert_eq!(out.score_delta, 5);
    assert_eq!(out.sounds, vec![SoundRequest::Explosion]);
    // One impact burst from the first strike, then the two-part
    // destruction burst.
    assert_eq!(out.bursts.len(), 3);
    assert!(out.bursts[0].flash);
    assert_eq!(out.bursts[1].count, 25);
    assert_eq!(out.bursts[2].count, 20);
}

#[test]
fn survivor_keeps_reduced_health() {
    let bullet = Bullet {
        pos: Vec2i { x: 0, y: 0 },
        vel: Vec2i { x: 0, y: 0 },
        friendly: true,
        damage: 2,
        laser: false,
        col: Collider { w: 4_000, h: 4_000 },
        trail: None,
        lifetime: None,
    };
    let out = resolve_collisions(
        vec![bullet],
        vec![basic_enemy(0, 0, 3)],
        None,
        Shake { frames: 0, intensity: 0 },
        16,
        false,
    );
    assert_eq!(out.enemies.len(), 1);
    assert_eq!(out.enemies[0].health.hp, 1);
    assert_eq!(out.score_delta, 0);
    assert!(out.sounds.is_empty());
}

#[test]
fn ramming_damages_both_sides() {
    let player = Player::new();
    let enemy = basic_enemy(player.pos.x, player.pos.y, 12);
    let out = resolve_collisions(
        Vec::new(),
        vec![enemy],
        Some(player),
        Shake { frames: 0, intensity: 0 },
        16,
        false,
    );
    let survivor = out.player.expect("the player survives one ram");
    assert_eq!(survivor.health.hp, 95);
    assert_eq!(out.enemies.len(), 1);
    assert_eq!(out.enemies[0].health.hp, 9);
    assert_eq!(out.sounds, vec![SoundRequest::Hit]);
}

#[test]
fn enemy_bullet_hits_player_and_spawns_vignette() {
    let player = Player::new();
    let bullet = Bullet {
        pos: Vec2i { x: player.pos.x, y: player.pos.y },
        vel: Vec2i { x: 0, y: 0 },
        friendly: false,
        damage: 7,
        laser: false,
        col: Collider { w: 4_000, h: 4_000 },
        trail: None,
        lifetime: None,
    };
    let out = resolve_collisions(
        vec![bullet],
        Vec::new(),
        Some(player),
        Shake { frames: 0, intensity: 0 },
        16,
        false,
    );
    assert_eq!(out.player.expect("alive").health.hp, 93);
    assert_eq!(out.bullets.len(), 0);
    assert_eq!(out.vignettes, 1);
    assert_eq!(out.shake, Shake { frames: 10, intensity: 2000 });
    assert_eq!(out.sounds, vec![SoundRequest::Hit]);
}

#[test]
fn muted_resolution_stays_silent() {
    let enemy = basic_enemy(0, 0, 1);
    let bullet = Bullet {
        pos: Vec2i { x: 0, y: 0 },
        vel: Vec2i { x: 0, y: 0 },
        friendly: true,
        damage: 2,
        laser: false,
        col: Collider { w: 4_000, h: 4_000 },
        trail: None,
        lifetime: None,
    };
    let out = resolve_collisions(
        vec![bullet],
        vec![enemy],
        None,
        Shake { frames: 0, intensity: 0 },
        16,
        true,
    );
    assert_eq!(out.score_delta, 5);
    assert!(out.sounds.is_empty());
}

// Scenario: the full-charge special emits exactly 104 bolts around a full
// circle, drains the charge, and starts the 600 ms lock.
#[test]
fn full_charge_special_spray() {
    let mut p = Player::new();
    assert_eq!(p.charge.value, 1_000_000);
    let cursor = p.pos;
    let out = player_tick(&mut p, 16, cursor, false, true, 0, false);
    assert_eq!(out.shots.len(), 104);
    for (i, shot) in out.shots.iter().enumerate() {
        assert!(shot.friendly);
        match shot.vel {
            ShotVel::Polar { angle_mrad, speed } => {
                assert_eq!(angle_mrad, 60 * i as i64);
                assert_eq!(speed, 600_000);
            }
            _ => panic!("spray bolts carry headings"),
        }
    }
    assert_eq!(p.charge.value, 0);
    assert_eq!(p.cooldowns.special_ms, 600);
    assert_eq!(out.sounds, vec![SoundRequest::Special]);
    assert_eq!(out.shake, Some(Shake { frames: 50, intensity: 6000 }));
}

#[test]
fn small_special_spray() {
    let mut p = Player::new();
    p.charge.value = 200_000;
    let cursor = p.pos;
    let out = player_tick(&mut p, 16, cursor, false, true, 0, false);
    assert_eq!(out.shots.len(), 32);
    match out.shots[1].vel {
        ShotVel::Polar { angle_mrad, speed } => {
            assert_eq!(angle_mrad, 200);
            assert_eq!(speed, 400_000);
        }
        _ => panic!("spray bolts carry headings"),
    }
    // 200_000 + one tick of refill (16 ms at 18 milli/ms) minus the 50_000
    // cost.
    assert_eq!(p.charge.value, 200_000 + 16 * 18 - 50_000);
    assert_eq!(p.cooldowns.special_ms, 250);
}

#[test]
fn below_special_threshold_nothing_fires() {
    let mut p = Player::new();
    p.charge.value = 100_000;
    let cursor = p.pos;
    let out = player_tick(&mut p, 16, cursor, false, true, 0, false);
    assert!(out.shots.is_empty());
    assert_eq!(p.cooldowns.special_ms, 0);
}

#[test]
fn primary_fire_missile_below_laser_score() {
    let mut p = Player::new();
    let cursor = p.pos;
    let out = player_tick(&mut p, 16, cursor, true, false, 499, true);
    assert_eq!(out.bullets.len(), 1);
    let m = &out.bullets[0];
    assert!(!m.laser && m.friendly);
    assert_eq!(m.damage, 1);
    assert_eq!(m.vel, Vec2i { x: 0, y: 500_000 });
    assert_eq!(m.pos, Vec2i { x: p.pos.x, y: p.pos.y - 5_000 });
    assert_eq!(p.cooldowns.shoot_ms, 80);
}

#[test]
fn primary_fire_beam_at_laser_score() {
    let mut p = Player::new();
    let cursor = p.pos;
    let out = player_tick(&mut p, 16, cursor, true, false, 500, false);
    assert_eq!(out.bullets.len(), 1);
    let beam = &out.bullets[0];
    assert!(beam.laser && beam.friendly);
    assert_eq!(beam.damage, 2);
    assert_eq!(beam.lifetime, Some(Lifetime { remaining_ms: 800 }));
    assert_eq!(beam.pos.y, p.pos.y + 8_000 - 10_000);
    // The sweep rises with the score: 1_000_000 + 200 * 500.
    assert_eq!(
        out.sounds,
        vec![SoundRequest::LaserSweep { start_mhz: 500_000, end_mhz: 1_100_000 }]
    );
    assert_eq!(out.bursts.len(), 1);
    assert_eq!(out.bursts[0].count, 10);
}

#[test]
fn player_clamped_to_screen() {
    let mut p = Player::new();
    p.pos = Vec2i { x: 318_000, y: 0 };
    let cursor = p.pos;
    player_tick(&mut p, 16, cursor, false, false, 0, true);
    // Half the screen minus the ship's half extent.
    assert_eq!(p.pos.x, 320_000 - 8_000);
}

#[test]
fn charge_clamped_under_pathological_dt() {
    let mut c = Charge { value: 3, max: 1_000_000 };
    c.regen(u32::MAX);
    assert_eq!(c.value, 1_000_000);
}

#[test]
fn heal_clamped_at_max() {
    let mut h = Health { hp: 50, max: 100 };
    h.heal_clamped(1_000_000);
    assert_eq!(h.hp, 100);
}

// Scenario: a wave of eight scouts at one spawn per 800 ms interval stops
// for good after the eighth spawn.
#[test]
fn wave_of_eight_scouts_spawns_exactly_eight() {
    let cfg = WaveConfig {
        scout_count: 8,
        heavy_count: 0,
        bomber_count: 0,
        drone_count: 0,
        spawn_interval_ms: 800,
        score_threshold: 0,
    };
    let mut mgr = WaveManager::new(vec![cfg]);
    let mut spawned_total = 0;
    for _ in 0..8 {
        let out = spawner_step(&mut mgr, 800, 0, 1);
        assert_eq!(out.spawns, vec![EnemyType::Scout]);
        spawned_total += out.spawns.len();
    }
    assert_eq!(spawned_total, 8);
    assert_eq!(mgr.enemies_spawned_this_wave, 8);
    for _ in 0..5 {
        let out = spawner_step(&mut mgr, 10_000, 0, 1);
        assert!(out.spawns.is_empty());
    }
    assert_eq!(mgr.enemies_spawned_this_wave, 8);
}

#[test]
fn wave_advances_only_at_threshold() {
    let cfg0 = WaveConfig {
        scout_count: 1,
        heavy_count: 0,
        bomber_count: 0,
        drone_count: 0,
        spawn_interval_ms: 800,
        score_threshold: 0,
    };
    let cfg1 = WaveConfig { score_threshold: 50, ..cfg0 };
    let mut mgr = WaveManager::new(vec![cfg0, cfg1]);
    mgr.enemies_spawned_this_wave = 1;
    // Zero enemies remaining but the score is short: never advances.
    let out = spawner_step(&mut mgr, 0, 49, 0);
    assert!(!out.advanced);
    assert_eq!(mgr.current_wave, 0);
    // At the threshold, the next call advances exactly one wave.
    let out = spawner_step(&mut mgr, 0, 50, 0);
    assert!(out.advanced);
    assert_eq!(mgr.current_wave, 1);
    assert_eq!(mgr.enemies_spawned_this_wave, 0);
    assert_eq!(mgr.wave_timer_ms, 0);
}

#[test]
fn no_advance_while_enemies_remain() {
    let cfg = WaveConfig {
        scout_count: 1,
        heavy_count: 0,
        bomber_count: 0,
        drone_count: 0,
        spawn_interval_ms: 800,
        score_threshold: 0,
    };
    let mut mgr = WaveManager::new(vec![cfg, cfg]);
    mgr.enemies_spawned_this_wave = 1;
    let out = spawner_step(&mut mgr, 0, 1000, 3);
    assert!(!out.advanced);
    assert_eq!(mgr.current_wave, 0);
}

#[test]
fn archetypes_spawn_in_declaration_order() {
    let cfg = WaveConfig {
        scout_count: 2,
        heavy_count: 1,
        bomber_count: 1,
        drone_count: 1,
        spawn_interval_ms: 800,
        score_threshold: 0,
    };
    assert_eq!(select_archetype(&cfg, 0), EnemyType::Scout);
    assert_eq!(select_archetype(&cfg, 1), EnemyType::Scout);
    assert_eq!(select_archetype(&cfg, 2), EnemyType::Heavy);
    assert_eq!(select_archetype(&cfg, 3), EnemyType::Bomber);
    assert_eq!(select_archetype(&cfg, 4), EnemyType::Drone);
}

#[test]
fn spawner_bursts_grow_with_wave_index() {
    let cfg = WaveConfig {
        scout_count: 10,
        heavy_count: 0,
        bomber_count: 0,
        drone_count: 0,
        spawn_interval_ms: 500,
        score_threshold: 0,
    };
    let mut mgr = WaveManager::new(vec![cfg, cfg, cfg]);
    mgr.current_wave = 2;
    let out = spawner_step(&mut mgr, 500, 0, 1);
    assert_eq!(out.spawns.len(), 3);
}

#[test]
fn drift_down_moves_exactly() {
    let mut e = basic_enemy(0, 100_000, 3);
    enemy_move(&mut e, 1000, None, still_trig());
    // 60 px/s at pace factor 1.0 for one second.
    assert_eq!(e.pos, Vec2i { x: 0, y: 40_000 });
}

#[test]
fn sine_drift_reads_the_sine_sample() {
    let mut e = basic_enemy(0, 100_000, 3);
    e.movement = Movement::SineDown;
    let trig = TrigSample { sin_phase: 500, ..still_trig() };
    enemy_move(&mut e, 1000, None, trig);
    // Lateral sway is sin * 1.5 px per tick; descent 42 px/s.
    assert_eq!(e.pos, Vec2i { x: 750, y: 100_000 - 42_000 });
    assert_eq!(e.phase, 100);
}

#[test]
fn homing_closes_on_the_player() {
    let mut e = basic_enemy(0, 0, 3);
    e.movement = Movement::Homing;
    let player = Vec2i { x: 100_000, y: 0 };
    enemy_move(&mut e, 1000, Some(player), still_trig());
    // Straight along x: dist == dx, so the step is the full 36 px/s pace.
    assert_eq!(e.pos.x, 36_000);
    assert_eq!(e.pos.y, 0);
}

#[test]
fn patrol_override_near_top_edge() {
    let mut e = basic_enemy(0, 230_000, 3);
    e.movement = Movement::DriftUp;
    e.distance = 5;
    enemy_patrol_update(&mut e);
    assert_eq!(e.movement, Movement::DriftDown);
    assert_eq!(e.distance, 10);
}

#[test]
fn patrol_counts_down_and_rerolls_in_range() {
    let mut e = basic_enemy(0, 0, 3);
    e.distance = 5;
    enemy_patrol_update(&mut e);
    assert_eq!(e.distance, 4);
    let mut e = basic_enemy(0, 0, 3);
    e.distance = 0;
    enemy_patrol_update(&mut e);
    assert!(e.distance >= 20 && e.distance < 70);
    assert_eq!(e.phase, 0);
}

#[test]
fn enemy_removed_past_bottom_but_not_top() {
    let mut low = basic_enemy(0, -271_000, 3);
    assert!(enemy_off_screen(&low));
    low.pos.y = -269_000;
    assert!(!enemy_off_screen(&low));
    let high = basic_enemy(0, 1_000_000, 3);
    assert!(!enemy_off_screen(&high));
}

#[test]
fn meteors_never_fire() {
    let mut e = basic_enemy(0, 0, 3);
    e.kind = EnemyKind::Meteor;
    e.shoot_time = 0;
    let shots = enemy_fire_step(&mut e, None);
    assert!(shots.is_empty());
    assert_eq!(e.shoot_time, 0);
}

#[test]
fn single_pattern_fires_two_parallel_bolts() {
    let mut e = basic_enemy(0, 0, 3);
    e.shoot_time = 0;
    let shots = enemy_fire_step(&mut e, None);
    assert!(e.shoot_time >= 20 && e.shoot_time < 180);
    assert_eq!(shots.len(), 2);
    // The muzzle sits just under the hull: -8 px half height, -10 px more.
    assert_eq!(shots[0].pos, Vec2i { x: -9_000, y: -18_000 });
    assert_eq!(shots[1].pos, Vec2i { x: 9_000, y: -18_000 });
    for s in &shots {
        assert!(!s.friendly);
        assert_eq!(s.vel, ShotVel::Exact(Vec2i { x: 0, y: -180_000 }));
    }
}

#[test]
fn burst_pattern_spaces_bolts_along_the_muzzle() {
    let shots = fire_pattern(
        Vec2i { x: 0, y: 0 },
        FiringPattern::Burst { bullet_count: 4, burst_delay_ms: 100 },
        None,
    );
    let xs: Vec<i64> = shots.iter().map(|s| s.pos.x).collect();
    assert_eq!(xs, vec![-16_000, -8_000, 0, 8_000]);
}

#[test]
fn aimed_pattern_normalizes_toward_the_player() {
    let shots = fire_pattern(
        Vec2i { x: 0, y: 0 },
        FiringPattern::Aimed,
        Some(Vec2i { x: 0, y: -50_000 }),
    );
    assert_eq!(shots.len(), 1);
    assert_eq!(shots[0].vel, ShotVel::Exact(Vec2i { x: 0, y: -180_000 }));
}

#[test]
fn spread_pattern_fans_evenly() {
    let shots = fire_pattern(
        Vec2i { x: 0, y: 0 },
        FiringPattern::Spread { bullet_count: 3, spread_angle_mrad: 1000 },
        None,
    );
    assert_eq!(shots.len(), 3);
    let angles: Vec<i64> = shots
        .iter()
        .map(|s| match s.vel {
            ShotVel::Polar { angle_mrad, .. } => angle_mrad,
            _ => panic!("spread bolts carry headings"),
        })
        .collect();
    // Centered on straight down (a quarter turn below zero).
    assert_eq!(angles, vec![-1570 - 500, -1570, -1570 + 500]);
}

#[test]
fn bullets_move_and_leave_the_screen() {
    let missile = spawn_missile(Vec2i { x: 0, y: 0 }, Vec2i { x: 0, y: 100_000 }, true);
    let out = move_bullets(vec![missile], 500);
    assert_eq!(out.bullets.len(), 1);
    assert_eq!(out.bullets[0].pos, Vec2i { x: 0, y: 50_000 });
    // Past the half screen plus the ten-pixel margin, it is discarded.
    let stray = spawn_missile(Vec2i { x: 0, y: 249_000 }, Vec2i { x: 0, y: 100_000 }, true);
    let out = move_bullets(vec![stray], 500);
    assert!(out.bullets.is_empty());
}

#[test]
fn laser_scrolls_upward_and_expires() {
    let mut beam = Bullet {
        pos: Vec2i { x: 0, y: 0 },
        vel: Vec2i { x: 0, y: 0 },
        friendly: true,
        damage: 2,
        laser: true,
        col: Collider { w: 2_000, h: 50_000 },
        trail: None,
        lifetime: Some(Lifetime { remaining_ms: 800 }),
    };
    let out = move_bullets(vec![beam], 16);
    assert_eq!(out.bullets[0].pos.y, 11_200);
    beam = out.bullets[0];
    let kept = lifetime_cleanup(vec![beam], 799);
    assert_eq!(kept[0].lifetime, Some(Lifetime { remaining_ms: 1 }));
    let gone = lifetime_cleanup(kept, 1);
    assert!(gone.is_empty());
}

#[test]
fn trail_timer_paces_puffs() {
    let missile = spawn_missile(Vec2i { x: 0, y: 0 }, Vec2i { x: 0, y: 100_000 }, true);
    let out = move_bullets(vec![missile], 45);
    assert_eq!(out.bursts.len(), 1);
    assert_eq!(out.bursts[0].count, 1);
    let missile = spawn_missile(Vec2i { x: 0, y: 0 }, Vec2i { x: 0, y: 100_000 }, true);
    let out = move_bullets(vec![missile], 10);
    assert!(out.bursts.is_empty());
    assert_eq!(out.bullets[0].trail, Some(TrailTimer { period_ms: 45, elapsed_ms: 10 }));
}

#[test]
fn lasers_follow_the_player_column() {
    let beam = Bullet {
        pos: Vec2i { x: 5_000, y: 0 },
        vel: Vec2i { x: 0, y: 0 },
        friendly: true,
        damage: 2,
        laser: true,
        col: Collider { w: 2_000, h: 50_000 },
        trail: None,
        lifetime: Some(Lifetime { remaining_ms: 800 }),
    };
    let missile = spawn_missile(Vec2i { x: 5_000, y: 0 }, Vec2i { x: 0, y: 100_000 }, true);
    let out = follow_laser_to_player(vec![beam, missile], Some(42_000));
    assert_eq!(out[0].pos.x, 42_000);
    assert_eq!(out[1].pos.x, 5_000);
    let out = follow_laser_to_player(out, None);
    assert_eq!(out[0].pos.x, 42_000);
}

#[test]
fn particle_decays_exactly() {
    let mut p = Particle2D {
        pos: Vec2i { x: 0, y: 0 },
        vel: Vec2i { x: 100_000, y: -50_000 },
        life_ms: 500,
        total_ms: 1000,
        rot_mrad: 0,
        spin_mrad_s: 1000,
        start: ColorMilli { r: 1000, g: 600, b: 200, a: 1000 },
        end: ColorMilli { r: 0, g: 0, b: 0, a: 0 },
    };
    assert!(p.step(100));
    assert_eq!(p.pos, Vec2i { x: 10_000, y: -5_000 });
    assert_eq!(p.vel, Vec2i { x: 96_000, y: -48_000 });
    assert_eq!(p.life_ms, 400);
    assert_eq!(p.rot_mrad, 100);
    assert_eq!(p.scale(), 520);
    assert!(!p.step(400));
    assert_eq!(p.life_ms, 0);
}

#[test]
fn trail_evicts_oldest_past_capacity() {
    let mut t = Trail::new(3);
    for i in 0..5i64 {
        t.push_position(Vec2i { x: i, y: 0 });
    }
    let xs: Vec<i64> = t.positions.iter().map(|p| p.x).collect();
    assert_eq!(xs, vec![2, 3, 4]);
}

#[test]
fn vignette_fades_and_expires() {
    let mut v = DamageVignette::on_player_hit();
    assert!(v.step(300));
    assert_eq!(v.alpha(), 250);
    assert!(!v.step(300));
    assert_eq!(v.alpha(), 0);
}

#[test]
fn shake_uses_one_frame_per_tick() {
    let mut s = Shake { frames: 2, intensity: 3000 };
    assert!(s.step());
    assert!(s.step());
    assert!(!s.step());
    assert_eq!(s.intensity, 3000);
}

#[test]
fn game_over_waits_out_the_grace_period() {
    let mut w = GameOverWatch::new();
    assert!(!w.step(false, 1000));
    assert!(!w.step(false, 499));
    assert!(w.step(false, 1));
    // A present player always clears the countdown.
    let mut w = GameOverWatch::new();
    assert!(!w.step(false, 1000));
    assert!(!w.step(true, 1000));
    assert!(!w.step(false, 1400));
}

#[test]
fn phase_transitions() {
    assert_eq!(phase_after_pause_toggle(GamePhase::Running), GamePhase::Paused);
    assert_eq!(phase_after_pause_toggle(GamePhase::Paused), GamePhase::Running);
    assert_eq!(phase_after_pause_toggle(GamePhase::GameOver), GamePhase::GameOver);
    assert_eq!(phase_after_click(GamePhase::GameOver), GamePhase::Running);
    assert_eq!(phase_after_click(GamePhase::Paused), GamePhase::Paused);
}

#[test]
fn score_saturates() {
    let mut s = Score(u32::MAX - 3);
    s.add(10);
    assert_eq!(s.0, u32::MAX);
    let mut m = Muted(false);
    m.toggle();
    assert!(m.0);
}

#[test]
fn shoot_plan_matches_the_recipe() {
    match plan_sound(&SoundRequest::Shoot { pitch_milli: 1000 }) {
        SynthPlan::Tone(t) => {
            assert_eq!(t.wave, WaveType::Square);
            assert_eq!(t.freq_mhz, 800_000);
            assert_eq!(t.dur_ms, 80);
            assert_eq!(t.volume_milli, 250);
            assert_eq!(t.decay_milli, Some(60_000));
        }
        _ => panic!("a shot is a single square tone"),
    }
}

#[test]
fn special_plan_is_the_four_voice_chord() {
    match plan_sound(&SoundRequest::Special) {
        SynthPlan::Chord { voices } => {
            let freqs: Vec<u64> = voices.iter().map(|v| v.freq_mhz).collect();
            let vols: Vec<u32> = voices.iter().map(|v| v.volume_milli).collect();
            assert_eq!(freqs, vec![220_000, 330_000, 440_000, 660_000]);
            assert_eq!(vols, vec![180, 90, 60, 45]);
            assert!(voices.iter().all(|v| v.decay_milli == Some(4_000) && v.dur_ms == 350));
        }
        _ => panic!("the special is a chord"),
    }
}

#[test]
fn explosion_and_hit_plans() {
    match plan_sound(&SoundRequest::Explosion) {
        SynthPlan::Noise { dur_ms, volume_milli, decay_milli } => {
            assert_eq!((dur_ms, volume_milli, decay_milli), (250, 280, 8_000));
        }
        _ => panic!("an explosion is noise"),
    }
    match plan_sound(&SoundRequest::Hit) {
        SynthPlan::Noise { dur_ms, volume_milli, decay_milli } => {
            assert_eq!((dur_ms, volume_milli, decay_milli), (70, 200, 20_000));
        }
        _ => panic!("a hit is noise"),
    }
}

#[test]
fn sample_counts_truncate() {
    assert_eq!(sample_count(44_100, 250), 11_025);
    assert_eq!(sample_count(44_100, 80), 3_528);
    assert_eq!(sample_count(44_100, 1), 44);
}

#[test]
fn random_ranges_are_pinned() {
    // Degenerate ranges leave no freedom at all.
    assert_eq!(shmup_core::rng::rand_below_u32(1), 0);
    assert_eq!(shmup_core::rng::rand_in_range_u32(5, 6), 5);
    for _ in 0..100 {
        let v = shmup_core::rng::rand_in_range_u32(20, 70);
        assert!((20..70).contains(&v));
        let w = shmup_core::rng::rand_in_range_i64(-80_000, 80_000);
        assert!((-80_000..80_000).contains(&w));
    }
}

#[test]
fn spawned_enemies_match_their_archetype() {
    let e = shmup_core::enemy::spawn_enemy(EnemyType::Heavy);
    assert_eq!(e.health, Health { hp: 12, max: 12 });
    assert_eq!(e.col, Collider { w: 24_000, h: 24_000 });
    assert_eq!(e.kind, EnemyKind::Basic);
    assert!(e.speed >= 500 && e.speed < 800);
    assert!(e.pos.y >= 140_000 && e.pos.y < 180_000);
    let b = shmup_core::enemy::spawn_enemy(EnemyType::Bomber);
    assert_eq!(b.kind, EnemyKind::Special);
}

#[test]
fn clamping_keeps_a_box_on_screen() {
    let p = clamp_to_screen(Vec2i { x: 1_000_000, y: -1_000_000 }, 16_000, 16_000);
    assert_eq!(p, Vec2i { x: 312_000, y: -232_000 });
}

#[test]
fn health_trickles_back_only_at_full_charge() {
    let mut p = Player::new();
    p.health.hp = 50;
    let cursor = p.pos;
    // Ten seconds at 3.6 hp per second, integer-truncated.
    player_tick(&mut p, 10_000, cursor, false, false, 0, true);
    assert_eq!(p.health.hp, 86);
    assert_eq!(p.charge.value, 1_000_000);
    // Below full charge nothing regenerates.
    let mut p = Player::new();
    p.health.hp = 50;
    p.charge.value = 0;
    let cursor = p.pos;
    player_tick(&mut p, 1_000, cursor, false, false, 0, true);
    assert_eq!(p.health.hp, 50);
    assert_eq!(p.charge.value, 18_000);
}

#[test]
fn orbit_tracks_its_descending_center() {
    let mut e = basic_enemy(0, 100_000, 3);
    e.movement = Movement::Orbit;
    e.circular_center = Vec2i { x: 0, y: 100_000 };
    e.circular_radius = 80_000;
    e.circular_angle = 0;
    // cos/sin of the advanced orbit angle (2 radians), milli-units.
    let trig = TrigSample { orbit_cos: -416, orbit_sin: 909, ..still_trig() };
    enemy_move(&mut e, 1000, None, trig);
    assert_eq!(e.circular_angle, 2000);
    assert_eq!(e.pos, Vec2i { x: -33_280, y: 100_000 + 72_720 });
    assert_eq!(e.circular_center, Vec2i { x: 0, y: 80_000 });
}

#[test]
fn dash_cycles_through_its_three_phases() {
    let mut e = basic_enemy(0, 100_000, 3);
    e.movement = Movement::Dash;
    let player = Some(Vec2i { x: 0, y: -100_000 });
    enemy_move(&mut e, 500, player, still_trig());
    assert_eq!(e.dash_state, 1);
    assert_eq!(e.dash_timer_ms, 0);
    enemy_move(&mut e, 800, player, still_trig());
    assert_eq!(e.dash_state, 2);
    assert!(e.dash_cooldown_ms >= 300 && e.dash_cooldown_ms < 800);
    enemy_move(&mut e, 800, player, still_trig());
    assert_eq!(e.dash_state, 0);
    assert_eq!(e.dash_timer_ms, 0);
}

#[test]
fn formation_orbit_circles_its_anchor() {
    let mut e = basic_enemy(0, 100_000, 3);
    e.movement = Movement::FormationOrbit;
    e.formation_anchor = Vec2i { x: 10_000, y: 100_000 };
    let trig = TrigSample { form_cos: 500, form_sin: -800, ..still_trig() };
    enemy_move(&mut e, 1000, None, trig);
    // The anchor sinks 30 px/s; the ship sits 50 px out at the sampled
    // angle (the 50 px radius scales the milli-unit samples by 50).
    assert_eq!(e.formation_anchor, Vec2i { x: 10_000, y: 70_000 });
    assert_eq!(e.pos, Vec2i { x: 10_000 + 25_000, y: 70_000 - 40_000 });
    assert_eq!(e.phase, 1500);
}

#[test]
fn particle_color_blends_toward_the_end() {
    let p = Particle2D {
        pos: Vec2i { x: 0, y: 0 },
        vel: Vec2i { x: 0, y: 0 },
        life_ms: 250,
        total_ms: 1000,
        rot_mrad: 0,
        spin_mrad_s: 0,
        start: ColorMilli { r: 1000, g: 600, b: 200, a: 1000 },
        end: ColorMilli { r: 200, g: 0, b: 0, a: 0 },
    };
    // Three quarters spent: one quarter of the start color plus three
    // quarters of the end color, opacity a quarter of nine tenths.
    let c = p.color();
    assert_eq!(c, ColorMilli { r: 400, g: 150, b: 50, a: 225 });
}
