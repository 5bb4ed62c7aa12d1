//! Screen dimensions and physics tuning.
//!
//! Vertical positions and speeds are kept in tenths of a row, so that every
//! step of the integrator is exact.

use vstd::prelude::*;

verus! {

/// Columns of the screen.
pub const SCREEN_WIDTH: i32 = 80;

/// Rows of the screen.
pub const SCREEN_HEIGHT: i32 = 50;

/// Microseconds of real time that must be exceeded before the next physics step.
pub const FRAME_DURATION: u64 = 75_000;

/// Position units in one row.
pub const UNITS_PER_ROW: i64 = 10;

/// Downward speed gained in one physics step.
pub const GRAVITY: i32 = 2;

/// Greatest downward speed.
pub const TERMINAL_VELOCITY: i32 = 20;

/// Speed right after a flap; negative is upward.
pub const FLAP_VELOCITY: i32 = -20;

/// Column in which a run starts.
pub const START_X: i32 = 5;

/// Row in which a run starts.
pub const START_ROW: i32 = 25;

/// Half-height of the passage at score zero.
pub const MAX_SIZE: i32 = 20;

/// Half-height below which the passage never shrinks.
pub const MIN_SIZE: i32 = 2;

/// Lowest row that the centre of a passage can take.
pub const GAP_LOW: i32 = 10;

/// First row above the range of passage centres.
pub const GAP_HIGH: i32 = 40;

} // verus!
