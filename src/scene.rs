//! The fixed colliders of the arena: its walls, its ceiling and its ground.
use vstd::prelude::*;
use crate::units::{Coord, UNIT};

verus! {

/// Width of the visible arena.
pub const ARENA_WIDTH: Coord = 320 * UNIT;

/// Height of the visible arena (a 16:9 view).
pub const ARENA_HEIGHT: Coord = 180 * UNIT;

/// Half thickness of walls and ceiling.
pub const WALL_HALF_THICKNESS: Coord = UNIT;

/// The ground: a box this wide and high, centred this far below the middle.
pub const GROUND_HALF_WIDTH: Coord = 500 * UNIT;
pub const GROUND_HALF_HEIGHT: Coord = 50 * UNIT;
pub const GROUND_Y: Coord = -123 * UNIT;

/// A box collider centred at (`x`, `y`).
#[derive(Clone, Copy, Debug, PartialEq, Eq, Structural)]
pub struct BoxCollider {
    pub x: Coord,
    pub y: Coord,
    pub half_width: Coord,
    pub half_height: Coord,
}

/// The left wall, the right wall and the ceiling, just outside the view.
pub fn arena_walls() -> (r: Vec<BoxCollider>)
    ensures
        r@ == seq![
            BoxCollider { x: -(ARENA_WIDTH / 2 + UNIT) as Coord, y: 0, half_width: UNIT, half_height: ARENA_HEIGHT },
            BoxCollider { x: (ARENA_WIDTH / 2 + UNIT) as Coord, y: 0, half_width: UNIT, half_height: ARENA_HEIGHT },
            BoxCollider { x: 0, y: (ARENA_HEIGHT / 2 + UNIT) as Coord, half_width: ARENA_WIDTH, half_height: UNIT },
        ],
{
    let side = ARENA_WIDTH / 2 + WALL_HALF_THICKNESS;
    let mut walls: Vec<BoxCollider> = Vec::new();
    walls.push(
        BoxCollider { x: -side, y: 0, half_width: WALL_HALF_THICKNESS, half_height: ARENA_HEIGHT },
    );
    walls.push(
        BoxCollider { x: side, y: 0, half_width: WALL_HALF_THICKNESS, half_height: ARENA_HEIGHT },
    );
    walls.push(
        BoxCollider {
            x: 0,
            y: ARENA_HEIGHT / 2 + WALL_HALF_THICKNESS,
            half_width: ARENA_WIDTH,
            half_height: WALL_HALF_THICKNESS,
        },
    );
    proof {
        assert(walls@ =~= seq![
            BoxCollider { x: -(ARENA_WIDTH / 2 + UNIT) as Coord, y: 0, half_width: UNIT, half_height: ARENA_HEIGHT },
            BoxCollider { x: (ARENA_WIDTH / 2 + UNIT) as Coord, y: 0, half_width: UNIT, half_height: ARENA_HEIGHT },
            BoxCollider { x: 0, y: (ARENA_HEIGHT / 2 + UNIT) as Coord, half_width: ARENA_WIDTH, half_height: UNIT },
        ]);
    }
    walls
}

/// The ground surface the characters stand on.
pub fn ground_collider() -> (r: BoxCollider)
    ensures
        r == (BoxCollider {
            x: 0,
            y: GROUND_Y,
            half_width: GROUND_HALF_WIDTH,
            half_height: GROUND_HALF_HEIGHT,
        }),
{
    BoxCollider { x: 0, y: GROUND_Y, half_width: GROUND_HALF_WIDTH, half_height: GROUND_HALF_HEIGHT }
}

} // verus!
