//! Wave scheduling: the static wave table, the wave manager, and the
//! per-tick spawner decision.

use vstd::prelude::*;
use crate::enemy::EnemyType;

verus! {

/// One scheduled batch of enemies: counts per archetype, spawn cadence, and
/// the score needed before the wave can begin.
#[derive(Clone, Copy, Debug, PartialEq, Eq, Structural)]
pub struct WaveConfig {
    pub scout_count: u32,
    pub heavy_count: u32,
    pub bomber_count: u32,
    pub drone_count: u32,
    pub spawn_interval_ms: u32,
    pub score_threshold: u32,
}

impl WaveConfig {
    /// Counts stay small enough that their sum fits comfortably.
    pub open spec fn wf(self) -> bool {
        &&& self.scout_count <= 0x1000_0000
        &&& self.heavy_count <= 0x1000_0000
        &&& self.bomber_count <= 0x1000_0000
        &&& self.drone_count <= 0x1000_0000
    }

    /// Total enemies the wave schedules.
    pub open spec fn total(self) -> int {
        self.scout_count + self.heavy_count + self.bomber_count + self.drone_count
    }
}

/// How many of the wave's first `spawned` enemies were of each archetype:
/// spawning walks the archetypes in declaration order, so the counts are the
/// spawn index saturating-subtracted across the archetype boundaries and
/// capped at each configured count.
pub open spec fn scouts_spawned(cfg: WaveConfig, spawned: int) -> int {
    min_i(spawned, cfg.scout_count as int)
}

pub open spec fn heavies_spawned(cfg: WaveConfig, spawned: int) -> int {
    min_i(sat_sub(spawned, cfg.scout_count as int), cfg.heavy_count as int)
}

pub open spec fn bombers_spawned(cfg: WaveConfig, spawned: int) -> int {
    min_i(sat_sub(spawned, cfg.scout_count + cfg.heavy_count), cfg.bomber_count as int)
}

pub open spec fn drones_spawned(cfg: WaveConfig, spawned: int) -> int {
    min_i(
        sat_sub(spawned, cfg.scout_count + cfg.heavy_count + cfg.bomber_count),
        cfg.drone_count as int,
    )
}

pub open spec fn min_i(a: int, b: int) -> int {
    if a < b {
        a
    } else {
        b
    }
}

pub open spec fn sat_sub(a: int, b: int) -> int {
    if a > b {
        a - b
    } else {
        0
    }
}

/// The archetype the spawner picks for the wave's `spawned`-th enemy: the
/// first archetype, in declaration order, not yet fully spawned.
pub open spec fn archetype_for(cfg: WaveConfig, spawned: int) -> EnemyType {
    if scouts_spawned(cfg, spawned) < cfg.scout_count {
        EnemyType::Scout
    } else if heavies_spawned(cfg, spawned) < cfg.heavy_count {
        EnemyType::Heavy
    } else if bombers_spawned(cfg, spawned) < cfg.bomber_count {
        EnemyType::Bomber
    } else {
        EnemyType::Drone
    }
}

/// Picks the archetype for the next spawn.
pub fn select_archetype(cfg: &WaveConfig, spawned: u32) -> (t: EnemyType)
    requires
        cfg.wf(),
        spawned < cfg.total(),
    ensures
        t == archetype_for(*cfg, spawned as int),
{
    let scouts = if spawned < cfg.scout_count {
        spawned
    } else {
        cfg.scout_count
    };
    let past_scouts = if spawned > cfg.scout_count {
        spawned - cfg.scout_count
    } else {
        0
    };
    let heavies = if past_scouts < cfg.heavy_count {
        past_scouts
    } else {
        cfg.heavy_count
    };
    let past_heavies = if spawned > cfg.scout_count + cfg.heavy_count {
        spawned - (cfg.scout_count + cfg.heavy_count)
    } else {
        0
    };
    let bombers = if past_heavies < cfg.bomber_count {
        past_heavies
    } else {
        cfg.bomber_count
    };
    if scouts < cfg.scout_count {
        EnemyType::Scout
    } else if heavies < cfg.heavy_count {
        EnemyType::Heavy
    } else if bombers < cfg.bomber_count {
        EnemyType::Bomber
    } else {
        EnemyType::Drone
    }
}

/// How many enemies one elapsed interval spawns: bursts grow with the wave.
pub open spec fn burst_size(wave: int) -> int {
    if wave == 0 {
        1
    } else if wave == 1 {
        2
    } else {
        3
    }
}

/// The archetypes one elapsed interval spawns, starting from spawn index
/// `s0` with a budget of `k`: consecutive picks, stopping at the wave total.
pub open spec fn spawn_list(cfg: WaveConfig, s0: int, k: int) -> Seq<EnemyType> {
    Seq::new(
        min_i(k, sat_sub(cfg.total(), s0)) as nat,
        |i: int| archetype_for(cfg, s0 + i),
    )
}

/// Mutable spawner state for the running match.
#[derive(Clone, Debug)]
pub struct WaveManager {
    pub current_wave: usize,
    pub enemies_remaining: u32,
    pub wave_timer_ms: u64,
    pub wave_configs: Vec<WaveConfig>,
    pub enemies_spawned_this_wave: u32,
}

impl WaveManager {
    pub open spec fn wf(self) -> bool {
        &&& forall|i: int|
            0 <= i < self.wave_configs@.len() ==> #[trigger] self.wave_configs@[i].wf()
        &&& self.current_wave < self.wave_configs@.len() ==> self.enemies_spawned_this_wave
            <= self.wave_configs@[self.current_wave as int].total()
    }

    /// A fresh manager at the top of the table.
    pub fn new(configs: Vec<WaveConfig>) -> (m: WaveManager)
        requires
            forall|i: int| 0 <= i < configs@.len() ==> #[trigger] configs@[i].wf(),
        ensures
            m.current_wave == 0,
            m.enemies_remaining == 0,
            m.wave_timer_ms == 0,
            m.enemies_spawned_this_wave == 0,
            m.wave_configs == configs,
            m.wf(),
    {
        WaveManager {
            current_wave: 0,
            enemies_remaining: 0,
            wave_timer_ms: 0,
            wave_configs: configs,
            enemies_spawned_this_wave: 0,
        }
    }

    /// The advancement condition: every enemy of the current wave was spawned and
    /// died, a next wave exists, and the score has reached its threshold.
    pub open spec fn can_advance(self, score: u32, active_enemies: u32) -> bool {
        &&& active_enemies == 0
        &&& self.enemies_spawned_this_wave > 0
        &&& self.current_wave + 1 < self.wave_configs@.len()
        &&& score >= self.wave_configs@[self.current_wave + 1].score_threshold
    }
}

/// How many of the wave's first `n` spawns the schedule assigns to
/// archetype `t`: the spawn picks are `archetype_for(cfg, 0), ...,
/// archetype_for(cfg, n - 1)`.
pub open spec fn spawned_of_type(cfg: WaveConfig, n: nat, t: EnemyType) -> int
    decreases n,
{
    if n == 0 {
        0
    } else {
        spawned_of_type(cfg, (n - 1) as nat, t) + if archetype_for(cfg, n as int - 1) == t {
            1int
        } else {
            0int
        }
    }
}

/// The spawner never exceeds a configured per-archetype count: among the
/// wave's first `n` spawns, each archetype occurs exactly as often as the
/// saturating counters say, and never more often than its configured count.
pub proof fn lemma_spawn_counts(cfg: WaveConfig, n: nat)
    requires
        cfg.wf(),
        n <= cfg.total(),
    ensures
        spawned_of_type(cfg, n, EnemyType::Scout) == scouts_spawned(cfg, n as int),
        spawned_of_type(cfg, n, EnemyType::Heavy) == heavies_spawned(cfg, n as int),
        spawned_of_type(cfg, n, EnemyType::Bomber) == bombers_spawned(cfg, n as int),
        spawned_of_type(cfg, n, EnemyType::Drone) == drones_spawned(cfg, n as int),
        spawned_of_type(cfg, n, EnemyType::Scout) <= cfg.scout_count,
        spawned_of_type(cfg, n, EnemyType::Heavy) <= cfg.heavy_count,
        spawned_of_type(cfg, n, EnemyType::Bomber) <= cfg.bomber_count,
        spawned_of_type(cfg, n, EnemyType::Drone) <= cfg.drone_count,
    decreases n,
{
    if n > 0 {
        lemma_spawn_counts(cfg, (n - 1) as nat);
    }
}

/// The advancement condition in isolation: with the score below the next wave's
/// threshold the wave never advances, however many enemies are gone; with
/// the threshold reached, a spawned-out and cleared wave advances.
pub proof fn lemma_advancement_condition(m: WaveManager, score: u32, active_enemies: u32)
    requires
        m.current_wave + 1 < m.wave_configs@.len(),
    ensures
        score < m.wave_configs@[m.current_wave + 1].score_threshold ==> !m.can_advance(
            score,
            active_enemies,
        ),
        (score >= m.wave_configs@[m.current_wave + 1].score_threshold && active_enemies == 0
            && m.enemies_spawned_this_wave > 0) ==> m.can_advance(score, active_enemies),
{
}

/// What one spawner tick did.
pub struct SpawnerOutcome {
    /// The archetypes to instantiate this tick, in spawn order.
    pub spawns: Vec<EnemyType>,
    /// Whether the manager advanced to the next wave this tick.
    pub advanced: bool,
}

/// One spawner tick.
///
/// Advances the wave exactly when the advancement condition holds; never
/// otherwise, whatever
/// the elapsed time. Then, while the wave's schedule is not exhausted,
/// accumulates time and, once the configured interval has elapsed, resets
/// the interval timer and spawns the next enemies in archetype order —
/// one per interval on the first wave, two on the second, three after that,
/// never past the wave's total. With the table exhausted the spawner is
/// inert.
pub fn spawner_step(
    mgr: &mut WaveManager,
    dt_ms: u32,
    score: u32,
    active_enemies: u32,
) -> (out: SpawnerOutcome)
    requires
        old(mgr).wf(),
    ensures
        final(mgr).wave_configs == old(mgr).wave_configs,
        final(mgr).enemies_remaining == active_enemies,
        out.advanced == old(mgr).can_advance(score, active_enemies),
        final(mgr).current_wave == if out.advanced {
            old(mgr).current_wave + 1
        } else {
            old(mgr).current_wave as int
        },
        ({
            let cur = final(mgr).current_wave as int;
            let spawned0: int = if out.advanced {
                0
            } else {
                old(mgr).enemies_spawned_this_wave as int
            };
            let timer0: int = if out.advanced {
                0
            } else {
                old(mgr).wave_timer_ms as int
            };
            if cur >= old(mgr).wave_configs@.len() {
                // Table exhausted: inert.
                &&& out.spawns@ == Seq::<EnemyType>::empty()
                &&& final(mgr).enemies_spawned_this_wave as int == spawned0
                &&& final(mgr).wave_timer_ms as int == timer0
            } else {
                let cfg = old(mgr).wave_configs@[cur];
                if spawned0 >= cfg.total() {
                    // Schedule exhausted: nothing spawns and no time accrues.
                    &&& out.spawns@ == Seq::<EnemyType>::empty()
                    &&& final(mgr).enemies_spawned_this_wave as int == spawned0
                    &&& final(mgr).wave_timer_ms as int == timer0
                } else {
                    let acc = min_i(timer0 + dt_ms, u64::MAX as int);
                    if acc >= cfg.spawn_interval_ms {
                        &&& out.spawns@ == spawn_list(cfg, spawned0, burst_size(cur))
                        &&& final(mgr).enemies_spawned_this_wave == spawned0
                            + out.spawns@.len()
                        &&& final(mgr).wave_timer_ms == 0
                    } else {
                        &&& out.spawns@ == Seq::<EnemyType>::empty()
                        &&& final(mgr).enemies_spawned_this_wave as int == spawned0
                        &&& final(mgr).wave_timer_ms as int == acc
                    }
                }
            }
        }),
        final(mgr).wf(),
{
    mgr.enemies_remaining = active_enemies;

    let mut advanced = false;
    if active_enemies == 0 && mgr.enemies_spawned_this_wave > 0 && mgr.current_wave
        < mgr.wave_configs.len() && mgr.current_wave + 1 < mgr.wave_configs.len() {
        let threshold = mgr.wave_configs[mgr.current_wave + 1].score_threshold;
        if score >= threshold {
            mgr.current_wave = mgr.current_wave + 1;
            mgr.enemies_spawned_this_wave = 0;
            mgr.wave_timer_ms = 0;
            advanced = true;
        }
    }

    if mgr.current_wave >= mgr.wave_configs.len() {
        return SpawnerOutcome { spawns: Vec::new(), advanced };
    }

    let cfg = mgr.wave_configs[mgr.current_wave];
    proof {
        assert(mgr.wave_configs@[mgr.current_wave as int].wf());
    }
    let total: u32 = cfg.scout_count + cfg.heavy_count + cfg.bomber_count + cfg.drone_count;
    if mgr.enemies_spawned_this_wave >= total {
        return SpawnerOutcome { spawns: Vec::new(), advanced };
    }

    let acc: u64 = if dt_ms as u64 > u64::MAX - mgr.wave_timer_ms {
        u64::MAX
    } else {
        mgr.wave_timer_ms + dt_ms as u64
    };
    if acc < cfg.spawn_interval_ms as u64 {
        mgr.wave_timer_ms = acc;
        return SpawnerOutcome { spawns: Vec::new(), advanced };
    }
    mgr.wave_timer_ms = 0;

    let burst: u32 = if mgr.current_wave == 0 {
        1
    } else if mgr.current_wave == 1 {
        2
    } else {
        3
    };
    let left: u32 = total - mgr.enemies_spawned_this_wave;
    let n_spawn: u32 = if burst < left {
        burst
    } else {
        left
    };
    let spawned0 = mgr.enemies_spawned_this_wave;
    let ghost cur = mgr.current_wave as int;
    let mut spawns: Vec<EnemyType> = Vec::new();
    let mut i: u32 = 0;
    while i < n_spawn
        invariant
            i <= n_spawn,
            n_spawn == min_i(burst_size(cur), sat_sub(cfg.total(), spawned0 as int)),
            cfg.wf(),
            spawned0 + n_spawn <= cfg.total(),
            spawns@ =~= Seq::new(i as nat, |j: int| archetype_for(cfg, spawned0 + j)),
        decreases n_spawn - i,
    {
        let t = select_archetype(&cfg, spawned0 + i);
        spawns.push(t);
        i = i + 1;
        proof {
            assert(spawns@ =~= Seq::new(i as nat, |j: int| archetype_for(cfg, spawned0 + j)));
        }
    }
    mgr.enemies_spawned_this_wave = spawned0 + n_spawn;
    proof {
        assert(spawns@ =~= spawn_list(cfg, spawned0 as int, burst_size(cur)));
    }
    SpawnerOutcome { spawns, advanced }
}


/// The wave table a match starts with: seven waves of growing size, faster
/// cadence and higher score thresholds.
pub open spec fn default_wave_table() -> Seq<WaveConfig> {
    seq![
        WaveConfig {
            scout_count: 8u32,
            heavy_count: 1u32,
            bomber_count: 0u32,
            drone_count: 1u32,
            spawn_interval_ms: 800u32,
            score_threshold: 0u32,
        },
        WaveConfig {
            scout_count: 12u32,
            heavy_count: 2u32,
            bomber_count: 1u32,
            drone_count: 1u32,
            spawn_interval_ms: 600u32,
            score_threshold: 50u32,
        },
        WaveConfig {
            scout_count: 16u32,
            heavy_count: 3u32,
            bomber_count: 2u32,
            drone_count: 2u32,
            spawn_interval_ms: 500u32,
            score_threshold: 150u32,
        },
        WaveConfig {
            scout_count: 20u32,
            heavy_count: 4u32,
            bomber_count: 3u32,
            drone_count: 3u32,
            spawn_interval_ms: 450u32,
            score_threshold: 300u32,
        },
        WaveConfig {
            scout_count: 24u32,
            heavy_count: 5u32,
            bomber_count: 4u32,
            drone_count: 4u32,
            spawn_interval_ms: 400u32,
            score_threshold: 500u32,
        },
        WaveConfig {
            scout_count: 28u32,
            heavy_count: 6u32,
            bomber_count: 5u32,
            drone_count: 5u32,
            spawn_interval_ms: 350u32,
            score_threshold: 750u32,
        },
        WaveConfig {
            scout_count: 32u32,
            heavy_count: 8u32,
            bomber_count: 6u32,
            drone_count: 6u32,
            spawn_interval_ms: 300u32,
            score_threshold: 1000u32,
        },
    ]
}

/// Builds the default wave table.
pub fn default_wave_configs() -> (v: Vec<WaveConfig>)
    ensures
        v@ == default_wave_table(),
        forall|i: int| 0 <= i < v@.len() ==> #[trigger] v@[i].wf(),
{
    let mut v: Vec<WaveConfig> = Vec::new();
    v.push(
        WaveConfig {
            scout_count: 8,
            heavy_count: 1,
            bomber_count: 0,
            drone_count: 1,
            spawn_interval_ms: 800,
            score_threshold: 0,
        },
    );
    v.push(
        WaveConfig {
            scout_count: 12,
            heavy_count: 2,
            bomber_count: 1,
            drone_count: 1,
            spawn_interval_ms: 600,
            score_threshold: 50,
        },
    );
    v.push(
        WaveConfig {
            scout_count: 16,
            heavy_count: 3,
            bomber_count: 2,
            drone_count: 2,
            spawn_interval_ms: 500,
            score_threshold: 150,
        },
    );
    v.push(
        WaveConfig {
            scout_count: 20,
            heavy_count: 4,
            bomber_count: 3,
            drone_count: 3,
            spawn_interval_ms: 450,
            score_threshold: 300,
        },
    );
    v.push(
        WaveConfig {
            scout_count: 24,
            heavy_count: 5,
            bomber_count: 4,
            drone_count: 4,
            spawn_interval_ms: 400,
            score_threshold: 500,
        },
    );
    v.push(
        WaveConfig {
            scout_count: 28,
            heavy_count: 6,
            bomber_count: 5,
            drone_count: 5,
            spawn_interval_ms: 350,
            score_threshold: 750,
        },
    );
    v.push(
        WaveConfig {
            scout_count: 32,
            heavy_count: 8,
            bomber_count: 6,
            drone_count: 6,
            spawn_interval_ms: 300,
            score_threshold: 1000,
        },
    );
    proof {
        assert(v@ =~= default_wave_table());
    }
    v
}

} // verus!
