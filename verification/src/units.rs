//! The fixed-point units that all quantities are measured in.

use vstd::prelude::*;

verus! {

/// The number of length units in a pixel: lengths are in thousandths of a pixel.
pub const UNITS_PER_PIXEL: i32 = 1_000;

/// The number of angle units in a radian: angles are in microradians.
pub const UNITS_PER_RADIAN: i32 = 1_000_000;

/// The number of speed units in full speed: speeds are in thousandths of it.
pub const UNITS_PER_FULL_SPEED: i32 = 1_000;

} // verus!
