//! Plane coordinates as integers.
//!
//! Positions and lengths are counted in millionths of a world unit. A speed
//! is given in world units per second, so that a speed multiplied by a
//! duration in microseconds is a displacement in millionths of a unit.
use vstd::prelude::*;

verus! {

/// A coordinate or a length, in millionths of a world unit.
pub type Coord = i64;

/// One world unit.
pub const UNIT: i64 = 1_000_000;

/// Sign of a difference: -1, 0 or 1.
pub open spec fn sign(v: int) -> int {
    if v > 0 {
        1
    } else if v < 0 {
        -1
    } else {
        0
    }
}

pub open spec fn abs(v: int) -> int {
    if v < 0 {
        -v
    } else {
        v
    }
}

} // verus!
