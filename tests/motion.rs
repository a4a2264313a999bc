use pumpkin_entity::geometry::{BlockPos, BoundingBox, Vector3, UNITS_PER_BLOCK};
use pumpkin_entity::entity::{Entity, EntityDimensions};
use pumpkin_entity::motion::{
    adjust_movement, push_out_direction, stretch, BlockDirection, CollisionShape, Neighbours,
};

const U: i64 = UNITS_PER_BLOCK;

fn v(x: i64, y: i64, z: i64) -> Vector3 {
    Vector3 { x, y, z }
}

fn cell(x: i32, y: i32, z: i32) -> CollisionShape {
    let p = BlockPos { x, y, z };
    CollisionShape { shape: BoundingBox::cell(p), block: p }
}

/// An entity 0.6 wide and 1.8 high, standing at (0.5, y, 0.5).
fn entity_at(y: i64) -> Entity {
    Entity::new(1, v(U / 2, y, U / 2), EntityDimensions { width: 600000, height: 1800000 }, false, false)
}

#[test]
fn zero_movement_returns_zero_and_clears_flags() {
    let mut e = entity_at(U);
    e.on_ground = true;
    e.horizontal_collision = true;
    e.supporting_block_pos = Some(BlockPos { x: 0, y: 0, z: 0 });
    let shapes = vec![cell(0, 0, 0)];
    let r = e.adjust_movement_for_collisions(v(0, 0, 0), &shapes);
    assert_eq!(r, v(0, 0, 0));
    assert!(!e.on_ground);
    assert!(!e.horizontal_collision);
    assert_eq!(e.supporting_block_pos, None);
}

#[test]
fn falling_onto_a_floor_stops_on_its_top() {
    // feet at y = 2, floor cell y = 0 (top at 1): one block of room
    let mut e = entity_at(2 * U);
    let shapes = vec![cell(0, 0, 0)];
    let r = e.adjust_movement_for_collisions(v(0, -3 * U, 0), &shapes);
    assert_eq!(r, v(0, -U, 0));
    assert!(e.on_ground);
    assert_eq!(e.supporting_block_pos, Some(BlockPos { x: 0, y: 0, z: 0 }));
    assert!(!e.horizontal_collision);
}

#[test]
fn adjusted_movement_is_not_shortened_again() {
    let e = entity_at(2 * U);
    let shapes = vec![cell(0, 0, 0), cell(1, 1, 0), cell(0, 1, 1)];
    let first = adjust_movement(&e.bounding_box, v(2 * U, -3 * U, U), &shapes);
    let second = adjust_movement(&e.bounding_box, first.movement, &shapes);
    assert_eq!(second.movement, first.movement);
}

#[test]
fn wall_stops_horizontal_movement() {
    // box spans x 0.2..0.8; wall cell at x = 1 starts 0.2 away
    let mut e = entity_at(U);
    let shapes = vec![cell(1, 1, 0)];
    let r = e.adjust_movement_for_collisions(v(U, 0, 0), &shapes);
    assert_eq!(r, v(200000, 0, 0));
    assert!(e.horizontal_collision);
    assert!(!e.on_ground);
}

#[test]
fn free_movement_is_unchanged() {
    let mut e = entity_at(5 * U);
    let shapes = vec![cell(0, 0, 0)];
    let r = e.adjust_movement_for_collisions(v(100, -200, 300), &shapes);
    assert_eq!(r, v(100, -200, 300));
    assert!(!e.on_ground && !e.horizontal_collision);
}

#[test]
fn move_entity_moves_by_adjusted_delta() {
    let mut e = entity_at(2 * U);
    let shapes = vec![cell(0, 0, 0)];
    e.velocity = v(0, -3 * U, 0);
    let r = e.move_entity(v(0, -3 * U, 0), &shapes);
    assert_eq!(r, v(0, -U, 0));
    assert_eq!(e.velocity, v(0, -U, 0));
    assert!(e.on_ground);
    assert_eq!(e.pos, v(U / 2, U, U / 2));
    assert_eq!(e.bounding_box.min.y, U);
    assert_eq!(e.block_pos, BlockPos { x: 0, y: 1, z: 0 });
    e.no_clip = true;
    let r2 = e.move_entity(v(0, -3 * U, 0), &shapes);
    assert_eq!(r2, v(0, -3 * U, 0));
    assert_eq!(e.pos.y, -2 * U);
    assert_eq!(e.block_pos.y, -2);
}

#[test]
fn set_pos_updates_box_block_and_chunk() {
    let mut e = entity_at(0);
    e.set_pos(v(-U / 2, 64 * U, 40 * U + 1));
    assert_eq!(e.block_pos, BlockPos { x: -1, y: 64, z: 40 });
    assert_eq!(e.chunk_pos, (-1, 2));
    assert_eq!(e.bounding_box.min, v(-U / 2 - 300000, 64 * U, 40 * U + 1 - 300000));
    assert_eq!(e.bounding_box.max, v(-U / 2 + 300000, 64 * U + 1800000, 40 * U + 1 + 300000));
}

#[test]
fn stretch_covers_the_path() {
    let b = BoundingBox { min: v(0, 0, 0), max: v(10, 10, 10) };
    let s = stretch(&b, v(-5, 7, 0));
    assert_eq!(s.min, v(-5, 0, 0));
    assert_eq!(s.max, v(10, 17, 10));
}

#[test]
fn update_last_pos_returns_previous() {
    let mut e = entity_at(0);
    e.set_pos(v(7, 8, 9));
    let old = e.update_last_pos();
    assert_eq!(old, v(U / 2, 0, U / 2));
    assert_eq!(e.last_pos, v(7, 8, 9));
}

#[test]
fn small_velocities_are_dropped() {
    let mut e = entity_at(0);
    e.velocity = v(2999, -100, 5000);
    e.check_zero_velo();
    assert_eq!(e.velocity, v(0, 0, 5000));
    e.is_player = true;
    e.velocity = v(2000, 4000, 2000);
    e.check_zero_velo();
    assert_eq!(e.velocity, v(0, 4000, 0));
    e.velocity = v(2000, 0, 2500);
    e.check_zero_velo();
    assert_eq!(e.velocity, v(2000, 0, 2500));
}

#[test]
fn pos_with_y_offset_uses_supporting_block() {
    let mut e = entity_at(2 * U);
    assert_eq!(e.get_pos_with_y_offset(200000), BlockPos { x: 0, y: 1, z: 0 });
    e.supporting_block_pos = Some(BlockPos { x: 3, y: 1, z: 4 });
    assert_eq!(e.get_pos_with_y_offset(5), BlockPos { x: 3, y: 1, z: 4 });
    assert_eq!(e.get_pos_with_y_offset(500001), BlockPos { x: 3, y: 1, z: 4 });
    assert_eq!(e.get_pos_with_y_offset(U), BlockPos { x: 3, y: 1, z: 4 });
}

#[test]
fn push_out_picks_nearest_open_face() {
    let open = Neighbours { up: false, north: false, south: false, west: false, east: false };
    // 0.1 from the west face
    assert_eq!(push_out_direction(v(100000, 500000, 500000), open), BlockDirection::West);
    let west_blocked = Neighbours { west: true, ..open };
    // then 0.5 everywhere else: up is first
    assert_eq!(push_out_direction(v(100000, 500000, 500000), west_blocked), BlockDirection::Up);
    let all = Neighbours { up: true, north: true, south: true, west: true, east: true };
    assert_eq!(push_out_direction(v(100000, 500000, 500000), all), BlockDirection::Up);
    assert_eq!(push_out_direction(v(-100000, 500000, 900000), open), BlockDirection::South);
}

#[test]
fn movement_multiplier_scales_one_move() {
    let mut e = entity_at(10 * U);
    e.movement_multiplier = v(250000, 50000, 250000);
    let r = e.move_entity(v(400000, -1000000, -400000), &vec![]);
    assert_eq!(r, v(100000, -50000, -100000));
    assert_eq!(e.movement_multiplier, v(0, 0, 0));
    assert_eq!(e.velocity, r);
    // the next move is not scaled
    let r = e.move_entity(v(400000, 0, 0), &vec![]);
    assert_eq!(r, v(400000, 0, 0));
}

#[test]
fn velocity_multiplier_after_a_move() {
    let mut e = entity_at(10 * U);
    e.move_entity(v(100001, -7, 0), &vec![]);
    e.apply_velocity_multiplier(400000);
    assert_eq!(e.velocity, v(40000, -3, 0));
    e.velocity = v(5, -5, 0);
    e.apply_velocity_multiplier(1000000);
    assert_eq!(e.velocity, v(5, -5, 0));
}

#[test]
fn players_are_not_moved_here() {
    let mut e = entity_at(10 * U);
    e.is_player = true;
    let r = e.move_entity(v(U, 0, 0), &vec![]);
    assert_eq!(r, v(0, 0, 0));
    assert_eq!(e.pos, v(U / 2, 10 * U, U / 2));
}

#[test]
fn falling_exactly_onto_a_floor_lands() {
    // feet at y = 2, floor top at 1: a fall of exactly one block
    let mut e = entity_at(2 * U);
    let shapes = vec![cell(0, 0, 0)];
    let r = e.adjust_movement_for_collisions(v(0, -U, 0), &shapes);
    assert_eq!(r, v(0, -U, 0));
    assert!(e.on_ground);
    assert_eq!(e.supporting_block_pos, Some(BlockPos { x: 0, y: 0, z: 0 }));
    assert!(!e.horizontal_collision);
}

#[test]
fn resting_on_a_floor_keeps_its_support() {
    // feet on the floor top; gravity pulls down a little
    let mut e = entity_at(U);
    let second = CollisionShape {
        shape: BoundingBox { min: v(500000, 0, 0), max: v(U, U, U) },
        block: BlockPos { x: 0, y: 0, z: 9 },
    };
    let shapes = vec![cell(0, 0, 0), second];
    let r = e.adjust_movement_for_collisions(v(0, -80000, 0), &shapes);
    assert_eq!(r, v(0, 0, 0));
    assert!(e.on_ground);
    // both shapes touch at the same offset: the last one is found
    assert_eq!(e.supporting_block_pos, Some(BlockPos { x: 0, y: 0, z: 9 }));
}
