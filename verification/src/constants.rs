//! Arena geometry, in the crate's fixed-point units (thousandths).

use vstd::prelude::*;

verus! {

pub const GAME_WIDTH: i64 = 360_000;

pub const GAME_HEIGHT: i64 = 270_000;

pub const ARENA_MIN_Y: i64 = 0;

pub const ARENA_MAX_Y: i64 = 270_000;

pub const ARENA_MIN_X: i64 = 45_000;

pub const ARENA_MAX_X: i64 = 315_000;

/// Margin kept clear of each vertical arena edge when a spawn position is
/// drawn.
pub const ARENA_SPAWN_OFFSET: i64 = 20_000;

} // verus!
