//! Shared entity components: hit points, ability charge, countdown timers.

use vstd::prelude::*;
use crate::constants::{CHARGE_REFILL_PER_MS, MAX_CHARGE};

verus! {

/// Hit points. `hp` may go negative on the tick an entity dies; such an
/// entity is removed from the world that same tick.
#[derive(Clone, Copy, Debug, PartialEq, Eq, Structural)]
pub struct Health {
    pub hp: i32,
    pub max: i32,
}

impl Health {
    pub open spec fn wf(self) -> bool {
        self.hp <= self.max
    }

    pub open spec fn alive(self) -> bool {
        self.hp > 0
    }

    pub fn new_full(max: i32) -> (h: Health)
        requires
            max > 0,
        ensures
            h == (Health { hp: max, max: max }),
            h.wf(),
    {
        Health { hp: max, max }
    }

    /// Subtracts damage exactly; no floor, so the value the entity dies at
    /// is visible to scoring and removal logic.
    pub fn apply_damage(&mut self, dmg: i32)
        requires
            old(self).wf(),
            old(self).alive(),
            0 <= dmg,
        ensures
            final(self).hp == old(self).hp - dmg,
            final(self).max == old(self).max,
            final(self).wf(),
    {
        proof {
            assert(self.hp - dmg >= 1 - i32::MAX);
        }
        self.hp = self.hp - dmg;
    }

    /// Adds `amount` hit points, never past `max`.
    pub fn heal_clamped(&mut self, amount: i32)
        requires
            old(self).wf(),
            0 <= amount,
        ensures
            final(self).hp == if old(self).hp + amount > old(self).max {
                old(self).max as int
            } else {
                old(self).hp + amount
            },
            final(self).max == old(self).max,
            final(self).wf(),
            final(self).hp <= old(self).max,
    {
        let healed: i64 = self.hp as i64 + amount as i64;
        if healed > self.max as i64 {
            self.hp = self.max;
        } else {
            self.hp = healed as i32;
        }
    }
}

/// Ability resource, milli-units. Always within `[0, max]`.
#[derive(Clone, Copy, Debug, PartialEq, Eq, Structural)]
pub struct Charge {
    pub value: u64,
    pub max: u64,
}

impl Charge {
    pub open spec fn wf(self) -> bool {
        self.value <= self.max && self.max <= MAX_CHARGE
    }

    pub open spec fn full(self) -> bool {
        self.value >= self.max
    }

    pub fn new_full() -> (c: Charge)
        ensures
            c == (Charge { value: MAX_CHARGE, max: MAX_CHARGE }),
            c.wf(),
    {
        Charge { value: MAX_CHARGE, max: MAX_CHARGE }
    }

    /// Linear refill over elapsed time, capped at `max`; total for any `dt`,
    /// however large.
    pub fn regen(&mut self, dt_ms: u32)
        requires
            old(self).wf(),
        ensures
            final(self).value == if old(self).value + CHARGE_REFILL_PER_MS * dt_ms
                > old(self).max {
                old(self).max as int
            } else {
                old(self).value + CHARGE_REFILL_PER_MS * dt_ms
            },
            final(self).max == old(self).max,
            final(self).wf(),
    {
        let add: u64 = CHARGE_REFILL_PER_MS * (dt_ms as u64);
        if add > self.max - self.value {
            self.value = self.max;
        } else {
            self.value = self.value + add;
        }
    }

    /// Spends part of the charge.
    pub fn spend(&mut self, cost: u64)
        requires
            old(self).wf(),
            cost <= old(self).value,
        ensures
            final(self).value == old(self).value - cost,
            final(self).max == old(self).max,
            final(self).wf(),
    {
        self.value = self.value - cost;
    }
}

/// A once-only countdown in milliseconds; the owning entity is removed when
/// it reaches zero.
#[derive(Clone, Copy, Debug, PartialEq, Eq, Structural)]
pub struct Lifetime {
    pub remaining_ms: u32,
}

impl Lifetime {
    /// Counts down, saturating at zero.
    pub fn tick(&mut self, dt_ms: u32)
        ensures
            final(self).remaining_ms == if dt_ms >= old(self).remaining_ms {
                0int
            } else {
                old(self).remaining_ms - dt_ms
            },
    {
        if dt_ms >= self.remaining_ms {
            self.remaining_ms = 0;
        } else {
            self.remaining_ms = self.remaining_ms - dt_ms;
        }
    }

    pub open spec fn expired(self) -> bool {
        self.remaining_ms == 0
    }
}

/// A repeating timer in milliseconds, used to pace bullet trail emission.
#[derive(Clone, Copy, Debug, PartialEq, Eq, Structural)]
pub struct TrailTimer {
    pub period_ms: u32,
    pub elapsed_ms: u32,
}

impl TrailTimer {
    pub open spec fn wf(self) -> bool {
        self.period_ms > 0 && self.elapsed_ms < self.period_ms
    }

    /// Advances the timer; reports whether the period elapsed this tick, and
    /// if so wraps the accumulated time into the next period.
    pub fn tick(&mut self, dt_ms: u32) -> (fired: bool)
        requires
            old(self).wf(),
        ensures
            final(self).period_ms == old(self).period_ms,
            fired == (old(self).elapsed_ms + dt_ms >= old(self).period_ms),
            final(self).elapsed_ms == (old(self).elapsed_ms + dt_ms) % (
            old(self).period_ms as int),
            final(self).wf(),
    {
        let acc: u64 = self.elapsed_ms as u64 + dt_ms as u64;
        let fired = acc >= self.period_ms as u64;
        self.elapsed_ms = (acc % (self.period_ms as u64)) as u32;
        proof {
            assert(acc % (self.period_ms as u64) == (old(self).elapsed_ms + dt_ms) % (
            old(self).period_ms as int));
        }
        fired
    }
}

/// The player's two fire locks: primary and special, milliseconds left.
/// A fire action is available once its countdown reached zero.
#[derive(Clone, Copy, Debug, PartialEq, Eq, Structural)]
pub struct PlayerCooldowns {
    pub shoot_ms: u32,
    pub special_ms: u32,
}

impl PlayerCooldowns {
    pub fn ready() -> (c: PlayerCooldowns)
        ensures
            c == (PlayerCooldowns { shoot_ms: 0u32, special_ms: 0u32 }),
    {
        PlayerCooldowns { shoot_ms: 0, special_ms: 0 }
    }

    /// Both countdowns advance, saturating at zero.
    pub fn tick(&mut self, dt_ms: u32)
        ensures
            final(self).shoot_ms == if dt_ms >= old(self).shoot_ms {
                0int
            } else {
                old(self).shoot_ms - dt_ms
            },
            final(self).special_ms == if dt_ms >= old(self).special_ms {
                0int
            } else {
                old(self).special_ms - dt_ms
            },
    {
        self.shoot_ms = if dt_ms >= self.shoot_ms {
            0
        } else {
            self.shoot_ms - dt_ms
        };
        self.special_ms = if dt_ms >= self.special_ms {
            0
        } else {
            self.special_ms - dt_ms
        };
    }
}


/// However large the elapsed time, one regeneration tick leaves the charge
/// within `[0, max]`.
pub proof fn lemma_charge_regen_clamped(c: Charge, dt_ms: u32)
    requires
        c.wf(),
    ensures
        ({
            let v = if c.value + CHARGE_REFILL_PER_MS * dt_ms > c.max {
                c.max as int
            } else {
                c.value + CHARGE_REFILL_PER_MS * dt_ms
            };
            0 <= v <= c.max
        }),
{
}

/// However large the healing amount, one clamped heal leaves positive
/// health within `[0, max]`.
pub proof fn lemma_heal_clamped(h: Health, amount: int)
    requires
        h.wf(),
        0 <= h.hp,
        0 <= amount,
    ensures
        ({
            let v = if h.hp + amount > h.max {
                h.max as int
            } else {
                h.hp + amount
            };
            0 <= v <= h.max
        }),
{
}

} // verus!
