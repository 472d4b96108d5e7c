//! The dimensions of the play-field and the pace of the simulation.

use vstd::prelude::*;

verus! {

/// Width of the play-field in columns. A new obstacle appears this far ahead
/// of the dragon.
pub const SCREEN_WIDTH: i32 = 80;

/// Height of the play-field in rows. A dragon below this row has fallen out
/// of the field.
pub const SCREEN_HEIGHT: i32 = 50;

/// Time between two physics steps, in microseconds (75 ms).
pub const FRAME_DURATION: u64 = 75_000;

} // verus!
