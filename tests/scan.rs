use pumpkin_entity::collision::{check_block_collision, eye_level_box, tick_block_collisions, BlockCell};
use pumpkin_entity::fluid::{cell_range, scan_fluids, Fluid, FluidCell, FluidPush};
use pumpkin_entity::geometry::{BlockPos, BoundingBox, Vector3, UNITS_PER_BLOCK};

const U: i64 = UNITS_PER_BLOCK;
const WATER: Fluid = Fluid { id: 2, lava: false };
const FLOWING_WATER: Fluid = Fluid { id: 1, lava: false };
const LAVA: Fluid = Fluid { id: 4, lava: true };

fn v(x: i64, y: i64, z: i64) -> Vector3 {
    Vector3 { x, y, z }
}

fn p(x: i32, y: i32, z: i32) -> BlockPos {
    BlockPos { x, y, z }
}

/// A 0.6 x 1.8 x 0.6 box with its bottom at y = 1.
fn entity_box() -> BoundingBox {
    BoundingBox { min: v(200000, U, 200000), max: v(800000, U + 1800000, 800000) }
}

fn fluid(pos: BlockPos, f: Option<Fluid>, height: i64) -> FluidCell {
    FluidCell { pos, fluid: f, height }
}

#[test]
fn cell_range_of_a_box() {
    let (lo, hi) = cell_range(&entity_box());
    assert_eq!(lo, p(0, 1, 0));
    assert_eq!(hi, p(0, 2, 0));
    // a box whose top sits exactly on a cell boundary leaves that cell out
    let b = BoundingBox { min: v(-U, 0, 0), max: v(0, 2 * U, U) };
    let (lo, hi) = cell_range(&b);
    assert_eq!(lo, p(-1, 0, 0));
    assert_eq!(hi, p(-1, 1, 0));
}

#[test]
fn submerged_in_water_only() {
    let b = entity_box();
    let cells = vec![
        fluid(p(0, 1, 0), Some(WATER), 888889),
        fluid(p(0, 2, 0), Some(WATER), 888889),
    ];
    let s = scan_fluids(&b, &cells, false);
    assert!(s.touching_water);
    assert!(!s.touching_lava);
    // second cell: 0.888889 + 2 - (1 + 0.001)
    assert_eq!(s.water_height, 888889 + 2 * U - (U + 1000));
    assert_eq!(s.lava_height, 0);
    assert!(s.pushes.is_empty());
    assert_eq!(s.touched.iter().copied().collect::<Vec<u16>>(), vec![2]);
}

#[test]
fn no_fluid_touches_nothing() {
    let b = entity_box();
    let cells = vec![fluid(p(0, 1, 0), None, 0), fluid(p(0, 2, 0), None, 0)];
    let s = scan_fluids(&b, &cells, true);
    assert!(!s.touching_water && !s.touching_lava);
    assert_eq!(s.water_height, 0);
    assert!(s.pushes.is_empty());
    assert!(s.touched.is_empty());
}

#[test]
fn fluid_below_the_box_does_not_count() {
    // a cell at y = 0 whose surface (0.5) is below the box bottom
    let b = entity_box();
    let cells = vec![fluid(p(0, 0, 0), Some(LAVA), 500000)];
    let s = scan_fluids(&b, &cells, true);
    assert!(!s.touching_lava);
    assert_eq!(s.lava_height, 0);
}

#[test]
fn pushes_and_touched_ids_in_order() {
    let b = entity_box();
    let cells = vec![
        fluid(p(0, 1, 0), Some(LAVA), 200000),
        fluid(p(0, 2, 0), Some(FLOWING_WATER), 900000),
        fluid(p(1, 1, 0), Some(WATER), 300000),
        fluid(p(1, 2, 0), Some(LAVA), 100000),
    ];
    let s = scan_fluids(&b, &cells, true);
    assert!(s.touching_water && s.touching_lava);
    assert_eq!(s.lava_height, 100000 + 2 * U - (U + 1000));
    assert_eq!(s.water_height, 900000 + 2 * U - (U + 1000));
    assert_eq!(
        s.pushes,
        vec![
            FluidPush { pos: p(0, 1, 0), lava: true, shallow_scale: Some(199000) },
            FluidPush { pos: p(0, 2, 0), lava: false, shallow_scale: None },
            FluidPush { pos: p(1, 1, 0), lava: false, shallow_scale: None },
            FluidPush { pos: p(1, 2, 0), lava: true, shallow_scale: None },
        ]
    );
    assert_eq!(s.touched.iter().copied().collect::<Vec<u16>>(), vec![1, 2, 4]);
}

fn block(pos: BlockPos, solid: bool, outline: Option<Vec<BoundingBox>>) -> BlockCell {
    BlockCell { pos, solid, outline }
}

#[test]
fn block_collision_cells() {
    let b = entity_box();
    let cells = vec![
        block(p(0, 1, 0), false, None),
        block(p(0, 2, 0), false, Some(vec![])),
        block(p(1, 1, 0), true, Some(vec![BoundingBox::cell(p(1, 1, 0))])),
        block(p(0, 0, 0), true, Some(vec![BoundingBox { min: v(0, 0, 0), max: v(U, U / 2, U) }])),
        block(p(0, 1, 1), true, Some(vec![BoundingBox { min: v(0, U, 0), max: v(U, 2 * U, U) }])),
    ];
    assert_eq!(check_block_collision(&b, &cells), vec![p(0, 1, 0), p(0, 2, 0), p(0, 1, 1)]);
}

#[test]
fn suffocation_at_eye_level() {
    let b = entity_box();
    let eye = eye_level_box(&b, 1620000);
    assert_eq!(eye.min, v(201000, U + 1000 + 1620000, 201000));
    assert_eq!(eye.max, v(799000, U + 1000 + 1620000, 799000));
    // a solid full block at the eyes' cell
    let cells = vec![
        block(p(0, 1, 0), false, Some(vec![])),
        block(p(0, 2, 0), true, Some(vec![BoundingBox::cell(p(0, 2, 0))])),
    ];
    let s = tick_block_collisions(&b, &eye, &cells);
    assert!(s.suffocating);
    assert_eq!(s.collided, vec![p(0, 2, 0)]);
    // the same block, not solid: collided but no suffocation
    let cells = vec![block(p(0, 2, 0), false, Some(vec![BoundingBox::cell(p(0, 2, 0))]))];
    let s = tick_block_collisions(&b, &eye, &cells);
    assert!(!s.suffocating);
    assert_eq!(s.collided, vec![p(0, 2, 0)]);
    // a slab at the feet only
    let cells = vec![block(p(0, 1, 0), true, Some(vec![BoundingBox { min: v(0, U, 0), max: v(U, U + U / 2, U) }]))];
    let s = tick_block_collisions(&b, &eye, &cells);
    assert!(!s.suffocating);
    assert_eq!(s.collided, vec![p(0, 1, 0)]);
}

#[test]
fn any_shape_at_eye_level_suffocates() {
    let b = entity_box();
    let eye = eye_level_box(&b, 1620000);
    // two shapes meet the box: the first holds the eyes, the last does not
    let upper = BoundingBox { min: v(0, 2 * U, 0), max: v(U, 3 * U, U) };
    let lower = BoundingBox { min: v(0, 2 * U, 0), max: v(U, 2 * U + 100000, U) };
    let cells = vec![block(p(0, 2, 0), true, Some(vec![upper, lower]))];
    let s = tick_block_collisions(&b, &eye, &cells);
    assert!(s.suffocating);
    let cells = vec![block(p(0, 2, 0), true, Some(vec![lower, upper]))];
    assert!(tick_block_collisions(&b, &eye, &cells).suffocating);
    let cells = vec![block(p(0, 2, 0), true, Some(vec![lower]))];
    assert!(!tick_block_collisions(&b, &eye, &cells).suffocating);
}
