//! Match-level state: the game phase, the game-over grace countdown, and
//! small bookkeeping resources.

use vstd::prelude::*;

verus! {

/// The tri-state phase of a match. While not Running, the per-tick
/// simulation update is skipped entirely.
#[derive(Clone, Copy, Debug, PartialEq, Eq, Structural)]
pub enum GamePhase {
    Running,
    Paused,
    GameOver,
}

/// The pause key flips Running and Paused; a finished match stays finished.
pub fn phase_after_pause_toggle(phase: GamePhase) -> (r: GamePhase)
    ensures
        r == match phase {
            GamePhase::Running => GamePhase::Paused,
            GamePhase::Paused => GamePhase::Running,
            GamePhase::GameOver => GamePhase::GameOver,
        },
{
    match phase {
        GamePhase::Running => GamePhase::Paused,
        GamePhase::Paused => GamePhase::Running,
        GamePhase::GameOver => GamePhase::GameOver,
    }
}

/// A click restarts a finished match; it does nothing otherwise.
pub fn phase_after_click(phase: GamePhase) -> (r: GamePhase)
    ensures
        r == match phase {
            GamePhase::GameOver => GamePhase::Running,
            _ => phase,
        },
{
    match phase {
        GamePhase::GameOver => GamePhase::Running,
        _ => phase,
    }
}

/// The game-over grace countdown: started when the player entity is gone,
/// and — by this library's choice — dropped the moment a player exists
/// again, so a restart can never be ended by a stale countdown.
#[derive(Clone, Copy, Debug, PartialEq, Eq, Structural)]
pub struct GameOverWatch {
    pub countdown_ms: Option<u32>,
}

/// How long a missing player is waited for before the match ends.
pub const GAME_OVER_GRACE_MS: u32 = 1_500;

impl GameOverWatch {
    pub fn new() -> (w: GameOverWatch)
        ensures
            w.countdown_ms is None,
    {
        GameOverWatch { countdown_ms: None }
    }

    /// One tick of game-over detection. With a player present the watch is
    /// idle. Without one, the grace countdown starts (or continues) and,
    /// once it elapses, reports that the match is over and rearms.
    pub fn step(&mut self, player_exists: bool, dt_ms: u32) -> (game_over: bool)
        ensures
            player_exists ==> final(self).countdown_ms is None && !game_over,
            !player_exists ==> ({
                let c0: int = match old(self).countdown_ms {
                    Some(c) => c as int,
                    None => GAME_OVER_GRACE_MS as int,
                };
                if dt_ms >= c0 {
                    game_over && final(self).countdown_ms is None
                } else {
                    !game_over && final(self).countdown_ms == Some((c0 - dt_ms) as u32)
                }
            }),
    {
        if player_exists {
            self.countdown_ms = None;
            return false;
        }
        let c0: u32 = match self.countdown_ms {
            Some(c) => c,
            None => GAME_OVER_GRACE_MS,
        };
        if dt_ms >= c0 {
            self.countdown_ms = None;
            true
        } else {
            self.countdown_ms = Some(c0 - dt_ms);
            false
        }
    }
}

/// Points scored this match.
#[derive(Clone, Copy, Debug, PartialEq, Eq, Structural)]
pub struct Score(pub u32);

impl Score {
    /// Awards points, saturating at the machine cap.
    pub fn add(&mut self, points: u32)
        ensures
            final(self).0 == if old(self).0 + points > u32::MAX {
                u32::MAX as int
            } else {
                old(self).0 + points
            },
    {
        if points > u32::MAX - self.0 {
            self.0 = u32::MAX;
        } else {
            self.0 = self.0 + points;
        }
    }
}

/// Frames simulated so far; wraps around at the machine width.
#[derive(Clone, Copy, Debug, PartialEq, Eq, Structural)]
pub struct FrameCounter(pub u64);

impl FrameCounter {
    pub fn tick(&mut self)
        ensures
            final(self).0 == (old(self).0 + 1) % 0x1_0000_0000_0000_0000,
    {
        if self.0 == u64::MAX {
            self.0 = 0;
        } else {
            self.0 = self.0 + 1;
        }
    }
}

/// How many enemies are currently alive.
#[derive(Clone, Copy, Debug, PartialEq, Eq, Structural)]
pub struct EnemyPopulation(pub u32);

/// Whether sound triggers are suppressed.
#[derive(Clone, Copy, Debug, PartialEq, Eq, Structural)]
pub struct Muted(pub bool);

impl Muted {
    pub fn toggle(&mut self)
        ensures
            final(self).0 == !old(self).0,
    {
        self.0 = !self.0;
    }
}

} // verus!
