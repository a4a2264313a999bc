use vstd::prelude::*;

use crate::geometry::{
    block_coord, floor_block, overlaps, Axis, BlockPos, BoundingBox, Vector3, MAX_COORD, UNITS_PER_BLOCK,
};

verus! {

/// A solid collision box near the entity and the block cell it belongs to.
#[derive(Clone, Copy, Debug, PartialEq, Eq, Structural)]
pub struct CollisionShape {
    pub shape: BoundingBox,
    pub block: BlockPos,
}

/// What a collision-adjusted movement comes to.
#[derive(Clone, Copy, Debug, PartialEq, Eq, Structural)]
pub struct AdjustedMovement {
    /// The part of the requested movement that can be made.
    pub movement: Vector3,
    /// Whether a block stopped the vertical movement.
    pub on_ground: bool,
    /// The block that stopped the vertical movement.
    pub supporting_block: Option<BlockPos>,
    /// Whether a horizontal component was shortened.
    pub horizontal_collision: bool,
}

/// Whether `b` and `s` overlap on the two axes other than `axis`.
pub open spec fn others_overlap(b: BoundingBox, s: BoundingBox, axis: Axis) -> bool {
    let x = overlaps(b.min.x, b.max.x, s.min.x, s.max.x);
    let y = overlaps(b.min.y, b.max.y, s.min.y, s.max.y);
    let z = overlaps(b.min.z, b.max.z, s.min.z, s.max.z);
    match axis {
        Axis::X => y && z,
        Axis::Y => x && z,
        Axis::Z => x && y,
    }
}

/// The offset along `axis` at which box `b`, moving by `d` on that axis,
/// touches `s`.
pub open spec fn gap(b: BoundingBox, s: BoundingBox, axis: Axis, d: i64) -> int {
    if d > 0 {
        s.min.get_spec(axis) - b.max.get_spec(axis)
    } else {
        s.max.get_spec(axis) - b.min.get_spec(axis)
    }
}

/// Whether `s` stops box `b` moving along `axis` in the direction of `d`,
/// with `cur` of that movement left: `s` lies ahead of `b` across its path,
/// and the box touches it within `cur` (contact at the start or at exactly
/// the end counts; collision times in [0, max_time]).
pub open spec fn stops(b: BoundingBox, s: BoundingBox, axis: Axis, d: i64, cur: i64) -> bool {
    &&& others_overlap(b, s, axis)
    &&& if d > 0 {
        0 <= gap(b, s, axis, d) <= cur
    } else if d < 0 {
        cur <= gap(b, s, axis, d) <= 0
    } else {
        false
    }
}

/// Whether `s` would cut a movement `c` of `b` along `axis` short: the box
/// touches it strictly before the end of `c`.
pub open spec fn cuts_short(b: BoundingBox, s: BoundingBox, axis: Axis, c: i64) -> bool {
    &&& others_overlap(b, s, axis)
    &&& if c > 0 {
        0 <= gap(b, s, axis, c) < c
    } else if c < 0 {
        c < gap(b, s, axis, c) <= 0
    } else {
        false
    }
}

/// The movement along `axis` that is left after the shapes `shapes`, taken
/// in order: each shape that stops the movement left so far cuts it to the
/// offset at which the box touches it. Of shapes touched at the same offset,
/// the last in order is the one found.
pub open spec fn sweep(b: BoundingBox, shapes: Seq<CollisionShape>, axis: Axis, d: i64) -> i64
    decreases shapes.len(),
{
    if shapes.len() == 0 {
        d
    } else {
        let prev = sweep(b, shapes.drop_last(), axis, d);
        let s = shapes.last().shape;
        if stops(b, s, axis, d, prev) {
            gap(b, s, axis, d) as i64
        } else {
            prev
        }
    }
}

/// The block of the last shape that stopped the movement along `axis`.
pub open spec fn stopping_block(
    b: BoundingBox,
    shapes: Seq<CollisionShape>,
    axis: Axis,
    d: i64,
) -> Option<BlockPos>
    decreases shapes.len(),
{
    if shapes.len() == 0 {
        None
    } else {
        let prev = sweep(b, shapes.drop_last(), axis, d);
        if stops(b, shapes.last().shape, axis, d, prev) {
            Some(shapes.last().block)
        } else {
            stopping_block(b, shapes.drop_last(), axis, d)
        }
    }
}

pub open spec fn y_offset(d: i64) -> Vector3 {
    Vector3 { x: 0, y: d, z: 0 }
}

pub open spec fn x_offset(d: i64) -> Vector3 {
    Vector3 { x: d, y: 0, z: 0 }
}

/// The movement of box `b` by `d` among the solid shapes `shapes`: the
/// vertical component first, then X against the box moved vertically, then Z
/// against the box moved on both.
pub open spec fn adjust_spec(b: BoundingBox, d: Vector3, shapes: Seq<CollisionShape>) -> AdjustedMovement {
    let y = sweep(b, shapes, Axis::Y, d.y);
    let b1 = b.offset_spec(y_offset(y));
    let x = sweep(b1, shapes, Axis::X, d.x);
    let b2 = b1.offset_spec(x_offset(x));
    let z = sweep(b2, shapes, Axis::Z, d.z);
    let support = stopping_block(b, shapes, Axis::Y, d.y);
    AdjustedMovement {
        movement: Vector3 { x, y, z },
        on_ground: support is Some,
        supporting_block: support,
        horizontal_collision: x != d.x || z != d.z,
    }
}

pub open spec fn shapes_wf(shapes: Seq<CollisionShape>) -> bool {
    forall|i: int| 0 <= i < shapes.len() ==> (#[trigger] shapes[i]).shape.wf()
}

proof fn lemma_sweep_bounds(b: BoundingBox, shapes: Seq<CollisionShape>, axis: Axis, d: i64)
    ensures
        d >= 0 ==> 0 <= sweep(b, shapes, axis, d) <= d,
        d <= 0 ==> d <= sweep(b, shapes, axis, d) <= 0,
    decreases shapes.len(),
{
    if shapes.len() > 0 {
        let rest = shapes.drop_last();
        lemma_sweep_bounds(b, rest, axis, d);
        let prev = sweep(b, rest, axis, d);
        let s = shapes.last().shape;
        if stops(b, s, axis, d, prev) {
            let g = gap(b, s, axis, d);
            assert(d > 0 ==> 0 <= g <= prev);
            assert(d < 0 ==> prev <= g <= 0);
            assert(sweep(b, shapes, axis, d) == g as i64);
        } else {
            assert(sweep(b, shapes, axis, d) == prev);
        }
    }
}

/// Cuts the movement `d` of `b` along `axis` against every shape, in order,
/// and tells which block cut it last.
fn sweep_axis(b: &BoundingBox, shapes: &Vec<CollisionShape>, axis: Axis, d: i64) -> (r: (
    i64,
    Option<BlockPos>,
))
    requires
        b.ordered(),
        b.within(3 * MAX_COORD),
        shapes_wf(shapes@),
    ensures
        r.0 == sweep(*b, shapes@, axis, d),
        r.1 == stopping_block(*b, shapes@, axis, d),
{
    let mut cur = d;
    let mut support: Option<BlockPos> = None;
    let mut i: usize = 0;
    while i < shapes.len()
        invariant
            0 <= i <= shapes@.len(),
            b.ordered(),
            b.within(3 * MAX_COORD),
            shapes_wf(shapes@),
            cur == sweep(*b, shapes@.take(i as int), axis, d),
            support == stopping_block(*b, shapes@.take(i as int), axis, d),
        decreases shapes@.len() - i,
    {
        proof {
            let next = shapes@.take(i + 1);
            assert(next.drop_last() =~= shapes@.take(i as int));
            assert(next.last() == shapes@[i as int]);
            assert(shapes@[i as int].shape.wf());
        }
        let s = &shapes[i].shape;
        let x_ok = b.min.x < s.max.x && s.min.x < b.max.x;
        let y_ok = b.min.y < s.max.y && s.min.y < b.max.y;
        let z_ok = b.min.z < s.max.z && s.min.z < b.max.z;
        let across = match axis {
            Axis::X => y_ok && z_ok,
            Axis::Y => x_ok && z_ok,
            Axis::Z => x_ok && y_ok,
        };
        if across {
            if d > 0 {
                let g = s.min.get_axis(axis) - b.max.get_axis(axis);
                if 0 <= g && g <= cur {
                    cur = g;
                    support = Some(shapes[i].block);
                }
            } else if d < 0 {
                let g = s.max.get_axis(axis) - b.min.get_axis(axis);
                if cur <= g && g <= 0 {
                    cur = g;
                    support = Some(shapes[i].block);
                }
            }
        }
        i = i + 1;
    }
    assert(shapes@.take(i as int) =~= shapes@);
    (cur, support)
}

/// The box spanning `b` and `b` moved by `d`: the region that the world is
/// asked for collision shapes in.
pub fn stretch(b: &BoundingBox, d: Vector3) -> (r: BoundingBox)
    requires
        b.wf(),
        d.bounded(),
    ensures
        r.min.x == b.min.x + (if d.x < 0 { d.x } else { 0 }),
        r.min.y == b.min.y + (if d.y < 0 { d.y } else { 0 }),
        r.min.z == b.min.z + (if d.z < 0 { d.z } else { 0 }),
        r.max.x == b.max.x + (if d.x > 0 { d.x } else { 0 }),
        r.max.y == b.max.y + (if d.y > 0 { d.y } else { 0 }),
        r.max.z == b.max.z + (if d.z > 0 { d.z } else { 0 }),
{
    BoundingBox {
        min: Vector3 {
            x: b.min.x + if d.x < 0 { d.x } else { 0 },
            y: b.min.y + if d.y < 0 { d.y } else { 0 },
            z: b.min.z + if d.z < 0 { d.z } else { 0 },
        },
        max: Vector3 {
            x: b.max.x + if d.x > 0 { d.x } else { 0 },
            y: b.max.y + if d.y > 0 { d.y } else { 0 },
            z: b.max.z + if d.z > 0 { d.z } else { 0 },
        },
    }
}

/// The part of movement `d` that box `b` can make among the solid shapes
/// `shapes`, resolved axis by axis: Y first, then X, then Z.
pub fn adjust_movement(b: &BoundingBox, d: Vector3, shapes: &Vec<CollisionShape>) -> (r:
    AdjustedMovement)
    requires
        b.wf(),
        d.bounded(),
        shapes_wf(shapes@),
    ensures
        r == adjust_spec(*b, d, shapes@),
        d.is_zero() ==> r == (AdjustedMovement {
            movement: d,
            on_ground: false,
            supporting_block: None,
            horizontal_collision: false,
        }),
{
    proof {
        lemma_sweep_bounds(*b, shapes@, Axis::Y, d.y);
    }
    if d.x == 0 && d.y == 0 && d.z == 0 {
        proof {
            lemma_sweep_bounds(b.offset_spec(y_offset(0)), shapes@, Axis::X, 0);
            lemma_sweep_bounds(b.offset_spec(y_offset(0)).offset_spec(x_offset(0)), shapes@, Axis::Z, 0);
            lemma_no_stop_when_still(*b, shapes@, Axis::Y);
        }
        return AdjustedMovement {
            movement: d,
            on_ground: false,
            supporting_block: None,
            horizontal_collision: false,
        };
    }
    let (y, support) = sweep_axis(b, shapes, Axis::Y, d.y);
    let b1 = b.offset(Vector3 { x: 0, y, z: 0 });
    proof {
        lemma_sweep_bounds(b1, shapes@, Axis::X, d.x);
    }
    let (x, _) = sweep_axis(&b1, shapes, Axis::X, d.x);
    let b2 = b1.offset(Vector3 { x, y: 0, z: 0 });
    let (z, _) = sweep_axis(&b2, shapes, Axis::Z, d.z);
    AdjustedMovement {
        movement: Vector3 { x, y, z },
        on_ground: support.is_some(),
        supporting_block: support,
        horizontal_collision: x != d.x || z != d.z,
    }
}

proof fn lemma_no_stop_when_still(b: BoundingBox, shapes: Seq<CollisionShape>, axis: Axis)
    ensures
        stopping_block(b, shapes, axis, 0) is None,
        sweep(b, shapes, axis, 0) == 0,
    decreases shapes.len(),
{
    if shapes.len() > 0 {
        lemma_no_stop_when_still(b, shapes.drop_last(), axis);
    }
}

proof fn lemma_cut_shrinks(b: BoundingBox, s: BoundingBox, axis: Axis, c: i64, c2: i64)
    requires
        (0 <= c2 <= c) || (c <= c2 <= 0),
        cuts_short(b, s, axis, c2),
    ensures
        cuts_short(b, s, axis, c),
{
}

proof fn lemma_sweep_settles(b: BoundingBox, shapes: Seq<CollisionShape>, axis: Axis, d: i64)
    ensures
        forall|k: int|
            0 <= k < shapes.len() ==> !cuts_short(
                b,
                (#[trigger] shapes[k]).shape,
                axis,
                sweep(b, shapes, axis, d),
            ),
    decreases shapes.len(),
{
    if shapes.len() > 0 {
        let rest = shapes.drop_last();
        lemma_sweep_settles(b, rest, axis, d);
        lemma_sweep_bounds(b, rest, axis, d);
        lemma_sweep_bounds(b, shapes, axis, d);
        let prev = sweep(b, rest, axis, d);
        let r = sweep(b, shapes, axis, d);
        assert forall|k: int| 0 <= k < shapes.len() implies !cuts_short(
            b,
            (#[trigger] shapes[k]).shape,
            axis,
            r,
        ) by {
            if k < shapes.len() - 1 {
                assert(shapes[k] == rest[k]);
                assert(!cuts_short(b, rest[k].shape, axis, prev));
                if cuts_short(b, shapes[k].shape, axis, r) {
                    lemma_cut_shrinks(b, shapes[k].shape, axis, prev, r);
                }
            } else {
                assert(shapes[k] == shapes.last());
            }
        }
    }
}

proof fn lemma_sweep_fixed(b: BoundingBox, shapes: Seq<CollisionShape>, axis: Axis, c: i64)
    requires
        forall|k: int| 0 <= k < shapes.len() ==> !cuts_short(b, (#[trigger] shapes[k]).shape, axis, c),
    ensures
        sweep(b, shapes, axis, c) == c,
    decreases shapes.len(),
{
    if shapes.len() > 0 {
        let rest = shapes.drop_last();
        assert forall|k: int| 0 <= k < rest.len() implies !cuts_short(
            b,
            (#[trigger] rest[k]).shape,
            axis,
            c,
        ) by {
            assert(rest[k] == shapes[k]);
        }
        lemma_sweep_fixed(b, rest, axis, c);
        assert(shapes.last() == shapes[shapes.len() - 1]);
    }
}

/// Adjusting a movement that was already adjusted against the same shapes
/// gives it back unchanged: no further shortening.
pub proof fn adjust_movement_idempotent(b: BoundingBox, d: Vector3, shapes: Seq<CollisionShape>)
    ensures
        adjust_spec(b, adjust_spec(b, d, shapes).movement, shapes).movement == adjust_spec(
            b,
            d,
            shapes,
        ).movement,
{
    let first = adjust_spec(b, d, shapes).movement;
    lemma_sweep_settles(b, shapes, Axis::Y, d.y);
    lemma_sweep_fixed(b, shapes, Axis::Y, first.y);
    let b1 = b.offset_spec(y_offset(first.y));
    lemma_sweep_settles(b1, shapes, Axis::X, d.x);
    lemma_sweep_fixed(b1, shapes, Axis::X, first.x);
    let b2 = b1.offset_spec(x_offset(first.x));
    lemma_sweep_settles(b2, shapes, Axis::Z, d.z);
    lemma_sweep_fixed(b2, shapes, Axis::Z, first.z);
}

/// Moving straight down onto a single full block below the box, by at least
/// the gap to it, stops the box exactly on the block's top face, and that
/// block becomes the supporting block (also where the move ends exactly on
/// the face).
pub proof fn landing_on_full_block(b: BoundingBox, d: Vector3, floor: BlockPos)
    requires
        b.wf(),
        d.x == 0,
        d.z == 0,
        overlaps(b.min.x, b.max.x, BoundingBox::cell_spec(floor).min.x, BoundingBox::cell_spec(floor).max.x),
        overlaps(b.min.z, b.max.z, BoundingBox::cell_spec(floor).min.z, BoundingBox::cell_spec(floor).max.z),
        BoundingBox::cell_spec(floor).max.y <= b.min.y,
        d.y < 0,
        d.y <= BoundingBox::cell_spec(floor).max.y - b.min.y,
    ensures
        ({
            let r = adjust_spec(b, d, seq![CollisionShape { shape: BoundingBox::cell_spec(floor), block: floor }]);
            &&& r.movement == (Vector3 { x: 0, y: (BoundingBox::cell_spec(floor).max.y - b.min.y) as i64, z: 0 })
            &&& r.on_ground
            &&& r.supporting_block == Some(floor)
        }),
{
    let shapes = seq![CollisionShape { shape: BoundingBox::cell_spec(floor), block: floor }];
    assert(shapes.drop_last() =~= Seq::<CollisionShape>::empty());
    let y = sweep(b, shapes, Axis::Y, d.y);
    let b1 = b.offset_spec(y_offset(y));
    lemma_no_stop_when_still(b1, shapes, Axis::X);
    lemma_no_stop_when_still(b1.offset_spec(x_offset(0)), shapes, Axis::Z);
}

/// Adjustment never lengthens a movement component nor turns it around:
/// each component ends between zero and the one requested.
pub proof fn adjusted_within_request(b: BoundingBox, d: Vector3, shapes: Seq<CollisionShape>)
    ensures
        ({
            let r = adjust_spec(b, d, shapes).movement;
            &&& (0 <= r.x <= d.x || d.x <= r.x <= 0)
            &&& (0 <= r.y <= d.y || d.y <= r.y <= 0)
            &&& (0 <= r.z <= d.z || d.z <= r.z <= 0)
        }),
{
    let r = adjust_spec(b, d, shapes).movement;
    lemma_sweep_bounds(b, shapes, Axis::Y, d.y);
    let b1 = b.offset_spec(y_offset(r.y));
    lemma_sweep_bounds(b1, shapes, Axis::X, d.x);
    lemma_sweep_bounds(b1.offset_spec(x_offset(r.x)), shapes, Axis::Z, d.z);
}

/// A face direction of a block cell.
#[derive(Clone, Copy, Debug, PartialEq, Eq, Structural)]
pub enum BlockDirection {
    Down,
    Up,
    North,
    South,
    West,
    East,
}

/// Which of the cells next to a block hold a full cube (the cell below is
/// never a way out).
#[derive(Clone, Copy, Debug, PartialEq, Eq, Structural)]
pub struct Neighbours {
    pub up: bool,
    pub north: bool,
    pub south: bool,
    pub west: bool,
    pub east: bool,
}

/// How far `c` lies, within its cell, from the face toward `dir`.
pub open spec fn face_distance(c: Vector3, dir: BlockDirection) -> int {
    let u = UNITS_PER_BLOCK as int;
    let fx = c.x - block_coord(c.x as int) * u;
    let fy = c.y - block_coord(c.y as int) * u;
    let fz = c.z - block_coord(c.z as int) * u;
    match dir {
        BlockDirection::Down => fy,
        BlockDirection::Up => u - fy,
        BlockDirection::North => fz,
        BlockDirection::South => u - fz,
        BlockDirection::West => fx,
        BlockDirection::East => u - fx,
    }
}

/// One candidate of the way out: taken where its cell is open and its face
/// is strictly nearer than the best so far.
pub open spec fn consider(
    best: (BlockDirection, int),
    c: Vector3,
    dir: BlockDirection,
    full: bool,
) -> (BlockDirection, int) {
    if !full && face_distance(c, dir) < best.1 {
        (dir, face_distance(c, dir))
    } else {
        best
    }
}

/// The way out of the cell that holds `c`: the open side, other than down,
/// whose face is nearest, the first of up, north, south, west, east on a tie;
/// up where every side is blocked.
pub open spec fn push_out_spec(c: Vector3, n: Neighbours) -> BlockDirection {
    let none = (BlockDirection::Up, 2 * UNITS_PER_BLOCK as int);
    let a = consider(none, c, BlockDirection::Up, n.up);
    let b = consider(a, c, BlockDirection::North, n.north);
    let d = consider(b, c, BlockDirection::South, n.south);
    let e = consider(d, c, BlockDirection::West, n.west);
    consider(e, c, BlockDirection::East, n.east).0
}

/// Picks the direction in which an entity stuck at `center` is pushed out of
/// its cell.
pub fn push_out_direction(center: Vector3, n: Neighbours) -> (r: BlockDirection)
    requires
        center.within_limit(),
    ensures
        r == push_out_spec(center, n),
{
    let bx = floor_block(center.x) as i64;
    let by = floor_block(center.y) as i64;
    let bz = floor_block(center.z) as i64;
    assert(0 <= center.x - bx * 1000000 < 1000000 && 0 <= center.y - by * 1000000 < 1000000 && 0
        <= center.z - bz * 1000000 < 1000000) by (nonlinear_arith)
        requires
            bx == center.x / 1000000,
            by == center.y / 1000000,
            bz == center.z / 1000000,
    ;
    let fx = center.x - bx * UNITS_PER_BLOCK;
    let fy = center.y - by * UNITS_PER_BLOCK;
    let fz = center.z - bz * UNITS_PER_BLOCK;
    let mut best = BlockDirection::Up;
    let mut min: i64 = 2 * UNITS_PER_BLOCK;
    if !n.up && UNITS_PER_BLOCK - fy < min {
        best = BlockDirection::Up;
        min = UNITS_PER_BLOCK - fy;
    }
    if !n.north && fz < min {
        best = BlockDirection::North;
        min = fz;
    }
    if !n.south && UNITS_PER_BLOCK - fz < min {
        best = BlockDirection::South;
        min = UNITS_PER_BLOCK - fz;
    }
    if !n.west && fx < min {
        best = BlockDirection::West;
        min = fx;
    }
    if !n.east && UNITS_PER_BLOCK - fx < min {
        best = BlockDirection::East;
    }
    best
}

} // verus!
