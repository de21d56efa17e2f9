use dicethulhu::clouds::{cloud_layer_speed, cloud_tiles, scroll_cloud, CloudTile};
use dicethulhu::scene::{arena_walls, ground_collider, BoxCollider};
use dicethulhu::ui::heart_positions;
use dicethulhu::units::UNIT;

#[test]
fn nine_cloud_tiles_in_three_layers() {
    let tiles = cloud_tiles();
    assert_eq!(tiles.len(), 9);
    assert_eq!(tiles[0], CloudTile { layer: 0, x: -320 * UNIT, depth: 32 * UNIT, speed: 5 });
    assert_eq!(tiles[4], CloudTile { layer: 1, x: 0, depth: 31 * UNIT, speed: 3 });
    assert_eq!(tiles[8], CloudTile { layer: 2, x: 320 * UNIT, depth: 30 * UNIT, speed: 1 });
    assert_eq!(cloud_layer_speed(0), 5);
    assert_eq!(cloud_layer_speed(1), 3);
    assert_eq!(cloud_layer_speed(2), 1);
}

#[test]
fn clouds_scroll_left_and_wrap() {
    assert_eq!(scroll_cloud(0, 5, 1_000_000), -5 * UNIT);
    assert_eq!(scroll_cloud(-320 * UNIT, 1, 0), -320 * UNIT);
    assert_eq!(scroll_cloud(-320 * UNIT, 1, 1), 320 * UNIT + 1);
}

#[test]
fn arena_colliders() {
    let walls = arena_walls();
    assert_eq!(walls.len(), 3);
    assert_eq!(walls[0], BoxCollider { x: -161 * UNIT, y: 0, half_width: UNIT, half_height: 180 * UNIT });
    assert_eq!(walls[1], BoxCollider { x: 161 * UNIT, y: 0, half_width: UNIT, half_height: 180 * UNIT });
    assert_eq!(walls[2], BoxCollider { x: 0, y: 91 * UNIT, half_width: 320 * UNIT, half_height: UNIT });
    assert_eq!(
        ground_collider(),
        BoxCollider { x: 0, y: -123 * UNIT, half_width: 500 * UNIT, half_height: 50 * UNIT }
    );
}

#[test]
fn one_heart_per_hit_point() {
    assert!(heart_positions(0).is_empty());
    assert_eq!(heart_positions(3), vec![146 * UNIT, 123 * UNIT, 100 * UNIT]);
    assert_eq!(heart_positions(5)[4], 54 * UNIT);
}
