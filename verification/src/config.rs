//! Fixed configuration of the playfield.
//!
//! Positions, extents and distances are whole numbers of position steps,
//! [`UNIT`] of them to one world unit. Time is counted in microseconds, so a
//! speed of `s` world units per second moves an object by exactly `s * dt`
//! position steps in `dt` microseconds.

use vstd::prelude::*;

verus! {

/// Position steps in one world unit, and microseconds in one second.
pub const UNIT: i64 = 1_000_000;

/// Width of the playfield; the playfield is centred on the origin.
pub const WINDOW_WIDTH: i64 = 900 * UNIT;

/// Height of the playfield.
pub const WINDOW_HEIGHT: i64 = 600 * UNIT;

/// Free space kept on every side of an alien in the grid.
pub const PADDING_ALIEN: i64 = 4 * UNIT;

/// Width of an alien.
pub const ALIEN_WIDTH: i64 = 28 * UNIT;

/// Height of an alien.
pub const ALIEN_HEIGHT: i64 = 20 * UNIT;

/// Width of the tank.
pub const TANK_WIDTH: i64 = 24 * UNIT;

/// Height of the tank.
pub const TANK_HEIGHT: i64 = 28 * UNIT;

/// Width of a bullet.
pub const BULLET_WIDTH: i64 = 4 * UNIT;

/// Height of a bullet.
pub const BULLET_HEIGHT: i64 = 12 * UNIT;

/// Horizontal distance between neighbouring grid cells.
pub const HORIZ_STEP: i64 = ALIEN_WIDTH + 2 * PADDING_ALIEN;

/// Height of one row of the grid: how far an alien drops when it reverses.
pub const VERT_STEP: i64 = ALIEN_HEIGHT + 2 * PADDING_ALIEN;

/// Tank speed in world units per second.
pub const TANK_SPEED: u32 = 50;

/// Bullet speed in world units per second.
pub const BULLET_SPEED: u32 = 100;

/// Accumulated horizontal displacement at which an alien reverses.
pub const VERT_STEP_DISTANCE_FROM_MIDDLE: i64 = 50 * UNIT;

/// Largest number of bullets in flight at once.
pub const BULLET_LIMIT: usize = 5;

/// Height of the line that the aliens must not reach.
pub const DEATH_LINE: i64 = -100 * UNIT;

/// Thickness of the death line; it spans the whole playfield width.
pub const DEATH_LINE_HEIGHT: i64 = UNIT;

/// Height at which the tank moves.
pub const TANK_Y: i64 = DEATH_LINE - 50 * UNIT;

/// Lower edge of a freshly spawned grid of aliens.
pub const ALIEN_BOTTOM_EDGE: i64 = DEATH_LINE + 100 * UNIT;

/// The timer since the last shot must exceed this many microseconds.
pub const FIRE_INTERVAL: u64 = 250_000;

/// Points awarded for each alien that a bullet destroys.
pub const HIT_SCORE: u64 = 10;

/// Gain in alien speed, in world units per second, on a speed wave.
pub const SPEED_STEP: u32 = 5;

/// Rows of the first wave's grid.
pub const INITIAL_ROWS: u32 = 4;

/// Columns of the first wave's grid.
pub const INITIAL_COLUMNS: u32 = 7;

/// Alien speed of the first wave, in world units per second.
pub const INITIAL_ALIEN_SPEED: u32 = 10;

/// Leftmost position of the tank's centre: half a tank inside the left edge
/// of the playfield.
pub const TANK_LEFT_BOUND: i64 = -438 * UNIT;

/// Rightmost position of the tank's centre: half a tank inside the right edge
/// of the playfield.
pub const TANK_RIGHT_BOUND: i64 = 438 * UNIT;

} // verus!
