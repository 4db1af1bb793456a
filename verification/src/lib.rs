//! Simulation core of a two-dimensional arcade shoot-em-up.
//!
//! The library owns the gameplay rules: wave scheduling and enemy spawning,
//! enemy movement and firing state machines, axis-aligned collision and
//! damage resolution, player control and resource regeneration, cosmetic
//! effect decay, the game-phase state machine, and the parameterization of
//! procedurally synthesized sound effects.
//!
//! All quantities are fixed-point integers: lengths in milli-pixels, time in
//! milliseconds, rates in milli-units. The hosting shell (renderer, input,
//! audio device) converts between these and its own floating-point world; it
//! feeds the core the per-tick elapsed time, cursor position and button
//! state, and carries out the spawn, removal and audio requests the core
//! hands back.
//!
//! One simulated frame runs the systems in a fixed order: player control
//! ([`player::player_tick`]), enemy kinematics, pattern upkeep and fire
//! ([`enemy`]), wave scheduling ([`wave::spawner_step`]), projectile motion
//! ([`combat::move_bullets`]), collision and damage resolution over a
//! snapshot of the bullets ([`combat::resolve_collisions`]), cosmetic decay
//! ([`effects`]), and bookkeeping ([`state`]).

pub mod audio;
pub mod combat;
pub mod components;
pub mod constants;
pub mod effects;
pub mod enemy;
pub mod geom;
pub mod num;
pub mod player;
pub mod rng;
pub mod state;
pub mod wave;

