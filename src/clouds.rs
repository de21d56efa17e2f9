//! The parallax cloud background: three layers of three tiles each,
//! scrolling left at layer speeds and wrapping around.
use vstd::prelude::*;
use crate::units::{Coord, UNIT};

verus! {

/// Width of one cloud tile.
pub const CLOUD_WIDTH: Coord = 320 * UNIT;

/// Scroll speeds of the near, middle and far layer, in units per second.
pub const SPEED_NEAR: u64 = 5;
pub const SPEED_MIDDLE: u64 = 3;
pub const SPEED_FAR: u64 = 1;

/// Number of layers, and of tiles in each layer.
pub const CLOUD_LAYERS: u64 = 3;
pub const TILES_PER_LAYER: u64 = 3;

/// Depth of the farthest layer; nearer layers stand one unit in front each.
pub const CLOUD_BASE_DEPTH: Coord = 30 * UNIT;

#[derive(Clone, Copy, Debug, PartialEq, Eq, Structural)]
pub struct CloudTile {
    /// 0 for the nearest layer.
    pub layer: u64,
    pub x: Coord,
    pub depth: Coord,
    /// In units per second.
    pub speed: u64,
}

pub open spec fn layer_speed(layer: nat) -> u64 {
    if layer == 0 {
        SPEED_NEAR
    } else if layer == 1 {
        SPEED_MIDDLE
    } else {
        SPEED_FAR
    }
}

/// Tile `column` of layer `layer`, before any scrolling.
pub open spec fn tile_at(layer: nat, column: nat) -> CloudTile {
    CloudTile {
        layer: layer as u64,
        x: (-CLOUD_WIDTH + CLOUD_WIDTH * column) as Coord,
        depth: (CLOUD_BASE_DEPTH + UNIT * (2 - layer)) as Coord,
        speed: layer_speed(layer),
    }
}

/// Scroll speed of a layer, 0 being the nearest.
pub fn cloud_layer_speed(layer: u64) -> (r: u64)
    requires
        layer < CLOUD_LAYERS,
    ensures
        r == layer_speed(layer as nat),
{
    if layer == 0 {
        SPEED_NEAR
    } else if layer == 1 {
        SPEED_MIDDLE
    } else {
        SPEED_FAR
    }
}

/// All tiles, layer by layer, each layer from left to right, starting one
/// tile width left of the centre.
pub fn cloud_tiles() -> (r: Vec<CloudTile>)
    ensures
        r@.len() == CLOUD_LAYERS * TILES_PER_LAYER,
        forall|k: int|
            0 <= k < r@.len() ==> #[trigger] r@[k] == tile_at(
                (k / 3) as nat,
                (k % 3) as nat,
            ),
{
    let mut tiles: Vec<CloudTile> = Vec::new();
    let mut layer: u64 = 0;
    while layer < CLOUD_LAYERS
        invariant
            layer <= CLOUD_LAYERS,
            tiles@.len() == layer * 3,
            forall|k: int|
                0 <= k < tiles@.len() ==> #[trigger] tiles@[k] == tile_at(
                    (k / 3) as nat,
                    (k % 3) as nat,
                ),
        decreases CLOUD_LAYERS - layer,
    {
        let speed = cloud_layer_speed(layer);
        let mut column: u64 = 0;
        while column < TILES_PER_LAYER
            invariant
                layer < CLOUD_LAYERS,
                column <= TILES_PER_LAYER,
                speed == layer_speed(layer as nat),
                tiles@.len() == layer * 3 + column,
                forall|k: int|
                    0 <= k < tiles@.len() ==> #[trigger] tiles@[k] == tile_at(
                        (k / 3) as nat,
                        (k % 3) as nat,
                    ),
            decreases TILES_PER_LAYER - column,
        {
            let x = -CLOUD_WIDTH + CLOUD_WIDTH * (column as i64);
            let depth = CLOUD_BASE_DEPTH + UNIT * (2 - layer as i64);
            let tile = CloudTile { layer, x, depth, speed };
            proof {
                let k = tiles@.len() as int;
                assert(k / 3 == layer && k % 3 == column);
            }
            tiles.push(tile);
            column = column + 1;
        }
        layer = layer + 1;
    }
    tiles
}

/// Where a tile at `x` ends up after `delta` microseconds at `speed`: moved
/// left, and mirrored to the right once it is a full width left of the centre.
pub open spec fn scrolled(x: int, speed: nat, delta: nat) -> int {
    let moved = x - speed * delta;
    if moved < -CLOUD_WIDTH {
        -moved
    } else {
        moved
    }
}

pub fn scroll_cloud(x: Coord, speed: u64, delta: u64) -> (r: Coord)
    requires
        x - speed * delta > i64::MIN,
    ensures
        r == scrolled(x as int, speed as nat, delta as nat),
{
    proof {
        assert(0 <= speed * delta) by (nonlinear_arith);
    }
    let moved = (x as i128 - speed as i128 * delta as i128) as i64;
    if moved < -CLOUD_WIDTH {
        -moved
    } else {
        moved
    }
}

} // verus!
