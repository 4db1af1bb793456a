//! Centralized gameplay constants, in fixed-point units: lengths in
//! milli-pixels, time in milliseconds, charge in milli-units.

use vstd::prelude::*;

verus! {

/// Screen width, milli-pixels.
pub const SCREEN_WIDTH: i64 = 640_000;

/// Screen height, milli-pixels.
pub const SCREEN_HEIGHT: i64 = 480_000;

/// Player health at match start; also the cap.
pub const MAX_HEALTH: i32 = 100;

/// Charge cap, milli-units (1000 whole units).
pub const MAX_CHARGE: u64 = 1_000_000;

/// Charge regained per millisecond, milli-units (18 whole units per second).
pub const CHARGE_REFILL_PER_MS: u64 = 18;

/// Points for destroying a basic enemy.
pub const POINTS_ENEMY: u32 = 5;

/// Points for destroying a meteor.
pub const POINTS_METEOR: u32 = 1;

/// Points for destroying a special enemy.
pub const POINTS_SPECIAL: u32 = 20;

/// Player ship full extents, milli-pixels.
pub const SIZE_PLAYER_W: i64 = 16_000;

pub const SIZE_PLAYER_H: i64 = 16_000;

/// Basic enemy ship full extents, milli-pixels.
pub const SIZE_ENEMY_W: i64 = 16_000;

pub const SIZE_ENEMY_H: i64 = 16_000;

/// Laser beam full extents, milli-pixels.
pub const SIZE_LASER_W: i64 = 2_000;

pub const SIZE_LASER_H: i64 = 50_000;

/// Missile full extents, milli-pixels.
pub const SIZE_MISSILE_W: i64 = 4_000;

pub const SIZE_MISSILE_H: i64 = 4_000;

/// A full turn, milli-radians (2 pi scaled by 1000, truncated).
pub const TAU_MRAD: i64 = 6_283;

/// A quarter turn, milli-radians (pi/2 scaled by 1000, truncated).
pub const QUARTER_TURN_MRAD: i64 = 1_570;

/// Every world coordinate the simulation handles stays within this bound
/// (milli-pixels); entities are removed well before they could reach it.
pub const COORD_LIMIT: i64 = 0x4000_0000;

/// Velocities stay within this bound, milli-pixels per second.
pub const VEL_LIMIT: i64 = 0x4000_0000;

/// Collider extents stay within this bound, milli-pixels.
pub const SIZE_LIMIT: i64 = 0x4000_0000;

/// Per-tick elapsed times handed to movement code stay below this bound,
/// milliseconds; products with velocities then fit a machine word.
pub const DT_LIMIT: u32 = 0x4000_0000;

} // verus!
