//! Fixed-point geometry.
//!
//! Lengths are whole numbers of sub-units, [`UNIT`] of them to one world
//! unit; speeds are sub-units per second. Sums and differences are taken in
//! the integers and brought back into range by [`saturate`].

use vstd::prelude::*;

verus! {

/// Sub-units in one world unit.
pub const UNIT: i64 = 1000;

/// Nanoseconds in one second.
pub const NANOS_PER_SECOND: u128 = 1_000_000_000;

/// A position in the world.
#[derive(Clone, Copy, Debug, PartialEq, Eq, Structural)]
pub struct Point {
    pub x: i64,
    pub y: i64,
}

/// The extent of a box. Where it stands for half-extents, `width` is the
/// distance from the centre to the left and right edges and `height` the
/// distance to the top and bottom edges.
#[derive(Clone, Copy, Debug, PartialEq, Eq, Structural)]
pub struct Size {
    pub width: i64,
    pub height: i64,
}

/// A velocity, in sub-units per second. `y` grows upwards.
#[derive(Clone, Copy, Debug, PartialEq, Eq, Structural)]
pub struct Velocity {
    pub x: i64,
    pub y: i64,
}

/// The value in the range of `i64` that is nearest to `v`.
pub open spec fn clamp(v: int) -> int {
    if v < i64::MIN {
        i64::MIN as int
    } else if v > i64::MAX {
        i64::MAX as int
    } else {
        v
    }
}

/// Brings a wide intermediate result back into the range of a coordinate.
pub fn saturate(v: i128) -> (r: i64)
    ensures
        r == clamp(v as int),
{
    if v < i64::MIN as i128 {
        i64::MIN
    } else if v > i64::MAX as i128 {
        i64::MAX
    } else {
        v as i64
    }
}

/// The change of speed that `force` sub-units per second per second bring
/// about in `delta` nanoseconds, rounded down.
pub open spec fn impulse(force: nat, delta: nat) -> nat {
    (force * delta) / (NANOS_PER_SECOND as nat)
}

/// No impulse is larger than this.
pub const MAX_IMPULSE: u128 = 0xffff_ffff_ffff_ffff_ffff_ffff;

/// Computes [`impulse`].
pub fn impulse_of(force: u32, delta: u64) -> (change: u128)
    ensures
        change == impulse(force as nat, delta as nat),
        change <= MAX_IMPULSE,
{
    assert(force as nat * delta as nat <= 0xffff_ffff * 0xffff_ffff_ffff_ffff) by (nonlinear_arith)
        requires
            force <= 0xffff_ffff,
            delta <= 0xffff_ffff_ffff_ffff,
    ;
    let product: u128 = force as u128 * delta as u128;
    product / NANOS_PER_SECOND
}

} // verus!
