//! The row of hearts that shows the player's hit points.
use vstd::prelude::*;
use crate::units::{Coord, UNIT};

verus! {

/// Width of one heart.
pub const HEART_WIDTH: Coord = 18 * UNIT;

/// Gap between two hearts.
pub const HEART_PADDING: Coord = 5 * UNIT;

/// Position of the rightmost heart.
pub const HEARTS_X: Coord = 146 * UNIT;
pub const HEARTS_Y: Coord = 76 * UNIT;

/// Horizontal position of heart `i`, counted from the right.
pub open spec fn heart_x(i: int) -> int {
    HEARTS_X - (HEART_WIDTH + HEART_PADDING) * i
}

/// The horizontal positions of the hearts for `health` hit points, one
/// heart per hit point, from right to left.
pub fn heart_positions(health: u8) -> (r: Vec<Coord>)
    ensures
        r@.len() == health,
        forall|i: int| 0 <= i < r@.len() ==> #[trigger] r@[i] == heart_x(i),
{
    let mut xs: Vec<Coord> = Vec::new();
    let mut i: u8 = 0;
    while i < health
        invariant
            i <= health,
            xs@.len() == i,
            forall|k: int| 0 <= k < xs@.len() ==> #[trigger] xs@[k] == heart_x(k),
        decreases health - i,
    {
        proof {
            assert((HEART_WIDTH + HEART_PADDING) * (i as int) <= 23_000_000 * 255) by (nonlinear_arith)
                requires i <= 255;
        }
        xs.push(HEARTS_X - (HEART_WIDTH + HEART_PADDING) * (i as i64));
        i = i + 1;
    }
    xs
}

} // verus!
