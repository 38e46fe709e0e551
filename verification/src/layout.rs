//! Fixed layout of the panel: the drawable area is the surface minus the
//! room the burn-in offset needs to sweep, and components stack at a fixed
//! line height.

use vstd::prelude::*;

verus! {

/// Largest burn-in offset in either direction, in pixels.
pub const BURNIN_OFFSET_MAX: usize = 5;

/// Width of the drawable area in pixels.
pub const WIDTH: usize = 64 - BURNIN_OFFSET_MAX;

/// Height of the drawable area in pixels.
pub const HEIGHT: usize = 128 - BURNIN_OFFSET_MAX;

/// Vertical room given to each component slot, in pixels.
pub const LINE_HEIGHT: usize = 11;

/// Width of one rendered character cell in pixels (a 6 by 10 pixel font).
pub const CHAR_WIDTH: usize = 6;

/// The left edge that horizontally centers a run of `len` characters in the
/// drawable area; a run too wide to center starts at the left edge.
pub open spec fn spec_center_x(len: nat) -> int {
    if 6 * len >= 59 {
        0
    } else {
        (59 - 6 * len) / 2
    }
}

/// Horizontally centers a run of `len` characters in the drawable area.
pub fn center_x(len: usize) -> (r: usize)
    ensures
        r == spec_center_x(len as nat),
{
    if len >= 10 {
        0
    } else {
        (WIDTH - CHAR_WIDTH * len) / 2
    }
}

} // verus!
