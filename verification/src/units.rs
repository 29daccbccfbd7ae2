//! The fixed-point scale shared by positions and velocities.

use vstd::prelude::*;

verus! {

/// Number of sub-pixel units in one pixel.
pub const UNITS_PER_PIXEL: i64 = 500_000;

/// Width, in pixels, of the off-screen band a dot crosses before it wraps.
pub const MARGIN_PIXELS: i64 = 15;

/// A speed of one pixel per update, in units.
pub const FULL_SPEED: i32 = 500_000;

/// The correction applied to an out-of-range velocity component per update.
pub const NUDGE: i32 = 1_000;

/// Largest magnitude of a jitter increment, in units.
pub const JITTER_LIMIT: i32 = 25_000;

/// The pixel that contains a coordinate: the coordinate divided by the scale,
/// rounded toward negative infinity.
pub open spec fn pixel_floor(units: int) -> int {
    units / (UNITS_PER_PIXEL as int)
}

/// The coordinate of a pixel's lower edge.
pub open spec fn pixel_origin(pixel: int) -> int {
    pixel * (UNITS_PER_PIXEL as int)
}

/// Computes the pixel that contains `units`.
pub fn pixel_of(units: i64) -> (pixel: i64)
    ensures
        pixel == pixel_floor(units as int),
{
    let quotient: i64 = units / UNITS_PER_PIXEL;
    let remainder: i64 = units % UNITS_PER_PIXEL;
    if remainder < 0 {
        quotient - 1
    } else {
        quotient
    }
}

} // verus!
