use vstd::prelude::*;

use crate::fluid::CELL_MARGIN;
use crate::geometry::{BlockPos, BoundingBox, Vector3, MAX_COORD};

verus! {

/// What the world holds at one cell for the block checks: whether its block
/// state is solid, and its outline shapes placed at the cell (`None` where
/// the state has no outline data).
#[derive(Clone, Debug)]
pub struct BlockCell {
    pub pos: BlockPos,
    pub solid: bool,
    pub outline: Option<Vec<BoundingBox>>,
}

/// Whether some shape of `shapes` meets `b`.
pub open spec fn any_meets(shapes: Seq<BoundingBox>, b: BoundingBox) -> bool {
    exists|i: int| 0 <= i < shapes.len() && (#[trigger] shapes[i]).intersects_spec(b)
}

/// Whether an entity with box `b` collides with the block of `c`: the state
/// has no outline data, an empty outline, or an outline shape that meets `b`.
pub open spec fn collides(c: BlockCell, b: BoundingBox) -> bool {
    match c.outline {
        None => true,
        Some(shapes) => shapes@.len() == 0 || any_meets(shapes@, b),
    }
}

/// The positions of the cells of `cells` that `collides` picks, in order.
pub open spec fn colliding_cells(cells: Seq<BlockCell>, b: BoundingBox) -> Seq<BlockPos>
    decreases cells.len(),
{
    if cells.len() == 0 {
        Seq::empty()
    } else {
        let prev = colliding_cells(cells.drop_last(), b);
        if collides(cells.last(), b) {
            prev.push(cells.last().pos)
        } else {
            prev
        }
    }
}

/// Whether an outline shape of `c` meets `b`.
pub open spec fn outline_meets(c: BlockCell, b: BoundingBox) -> bool {
    match c.outline {
        None => false,
        Some(shapes) => any_meets(shapes@, b),
    }
}

/// Whether `c` is solid and one of its outline shapes meets both the box `b`
/// and the eye-level box `eye`.
pub open spec fn eye_hit(c: BlockCell, b: BoundingBox, eye: BoundingBox) -> bool {
    &&& c.solid
    &&& match c.outline {
        None => false,
        Some(shapes) => exists|k: int|
            0 <= k < shapes@.len() && (#[trigger] shapes@[k]).intersects_spec(b)
                && shapes@[k].intersects_spec(eye),
    }
}

/// Whether the entity's eyes are inside a solid block: some solid cell among
/// `cells` has an outline shape that meets the box and the eye-level box.
pub open spec fn suffocation(cells: Seq<BlockCell>, b: BoundingBox, eye: BoundingBox) -> bool {
    exists|i: int| 0 <= i < cells.len() && eye_hit(#[trigger] cells[i], b, eye)
}

/// The cells whose outline meets the box, in order: the blocks whose
/// collision behaviour the entity triggers in its tick.
pub open spec fn outline_hits(cells: Seq<BlockCell>, b: BoundingBox) -> Seq<BlockPos>
    decreases cells.len(),
{
    if cells.len() == 0 {
        Seq::empty()
    } else {
        let prev = outline_hits(cells.drop_last(), b);
        if outline_meets(cells.last(), b) {
            prev.push(cells.last().pos)
        } else {
            prev
        }
    }
}

/// The slab at eye level: the box `b` shrunk by the cell margin on every
/// side, flattened to the height `eye_height` above its bottom.
pub open spec fn eye_level_spec(b: BoundingBox, eye_height: i64) -> BoundingBox {
    let y = (b.min.y + CELL_MARGIN + eye_height) as i64;
    BoundingBox {
        min: Vector3 { x: (b.min.x + CELL_MARGIN) as i64, y, z: (b.min.z + CELL_MARGIN) as i64 },
        max: Vector3 { x: (b.max.x - CELL_MARGIN) as i64, y, z: (b.max.z - CELL_MARGIN) as i64 },
    }
}

/// Whether some shape of `shapes` meets both `b` and `eye`.
fn meets_both(shapes: &Vec<BoundingBox>, b: &BoundingBox, eye: &BoundingBox) -> (r: bool)
    ensures
        r == exists|k: int|
            0 <= k < shapes@.len() && (#[trigger] shapes@[k]).intersects_spec(*b)
                && shapes@[k].intersects_spec(*eye),
{
    let mut i: usize = 0;
    while i < shapes.len()
        invariant
            0 <= i <= shapes@.len(),
            forall|k: int|
                0 <= k < i ==> !((#[trigger] shapes@[k]).intersects_spec(*b)
                    && shapes@[k].intersects_spec(*eye)),
        decreases shapes@.len() - i,
    {
        if shapes[i].intersects(b) && shapes[i].intersects(eye) {
            return true;
        }
        i = i + 1;
    }
    false
}

/// Whether some shape of `shapes` meets `b`.
fn meets_any(shapes: &Vec<BoundingBox>, b: &BoundingBox) -> (r: bool)
    ensures
        r == any_meets(shapes@, *b),
{
    let mut i: usize = 0;
    while i < shapes.len()
        invariant
            0 <= i <= shapes@.len(),
            forall|k: int| 0 <= k < i ==> !(#[trigger] shapes@[k]).intersects_spec(*b),
        decreases shapes@.len() - i,
    {
        if shapes[i].intersects(b) {
            return true;
        }
        i = i + 1;
    }
    false
}

/// The cells among `cells` that an entity with box `b` collides with, in
/// order: for each, the block's and the fluid's collision behaviour runs.
pub fn check_block_collision(b: &BoundingBox, cells: &Vec<BlockCell>) -> (r: Vec<BlockPos>)
    ensures
        r@ == colliding_cells(cells@, *b),
{
    let mut out: Vec<BlockPos> = Vec::new();
    let mut i: usize = 0;
    while i < cells.len()
        invariant
            0 <= i <= cells@.len(),
            out@ == colliding_cells(cells@.take(i as int), *b),
        decreases cells@.len() - i,
    {
        proof {
            let next = cells@.take(i + 1);
            assert(next.drop_last() =~= cells@.take(i as int));
            assert(next.last() == cells@[i as int]);
        }
        let c = &cells[i];
        let hit = match &c.outline {
            None => true,
            Some(shapes) => shapes.len() == 0 || meets_any(shapes, b),
        };
        if hit {
            out.push(c.pos);
        }
        i = i + 1;
    }
    assert(cells@.take(i as int) =~= cells@);
    out
}

/// The eye-level slab of an entity with box `b` whose eyes are
/// `eye_height` above the bottom of its shrunk box.
pub fn eye_level_box(b: &BoundingBox, eye_height: i64) -> (r: BoundingBox)
    requires
        b.wf(),
        0 <= eye_height <= MAX_COORD,
    ensures
        r == eye_level_spec(*b, eye_height),
{
    let y = b.min.y + CELL_MARGIN + eye_height;
    BoundingBox {
        min: Vector3 { x: b.min.x + CELL_MARGIN, y, z: b.min.z + CELL_MARGIN },
        max: Vector3 { x: b.max.x - CELL_MARGIN, y, z: b.max.z - CELL_MARGIN },
    }
}

/// The outcome of the block scan of a tick.
#[derive(Clone, Debug)]
pub struct BlockScan {
    /// Whether the entity's eyes are inside a solid block.
    pub suffocating: bool,
    /// The cells whose collision behaviour runs, in order.
    pub collided: Vec<BlockPos>,
}

/// Scans the cells that the entity's box `b` covers: which blocks it
/// collides with through their outline, and whether its eyes (the slab
/// `eye`) are inside a solid block.
pub fn tick_block_collisions(b: &BoundingBox, eye: &BoundingBox, cells: &Vec<BlockCell>) -> (r:
    BlockScan)
    ensures
        r.suffocating == suffocation(cells@, *b, *eye),
        r.collided@ == outline_hits(cells@, *b),
{
    let mut suffocating = false;
    let mut collided: Vec<BlockPos> = Vec::new();
    let mut i: usize = 0;
    while i < cells.len()
        invariant
            0 <= i <= cells@.len(),
            suffocating == suffocation(cells@.take(i as int), *b, *eye),
            collided@ == outline_hits(cells@.take(i as int), *b),
        decreases cells@.len() - i,
    {
        let ghost prev = cells@.take(i as int);
        let ghost next = cells@.take(i + 1);
        proof {
            assert(next.drop_last() =~= prev);
            assert(next.last() == cells@[i as int]);
        }
        let c = &cells[i];
        match &c.outline {
            Some(shapes) => {
                if !suffocating && c.solid {
                    suffocating = meets_both(shapes, b, eye);
                }
                if meets_any(shapes, b) {
                    collided.push(c.pos);
                }
            },
            None => {},
        }
        proof {
            assert forall|k: int| 0 <= k < i implies next[k] == prev[k] by {}
            if suffocation(prev, *b, *eye) {
                let k = choose|k: int| 0 <= k < prev.len() && eye_hit(#[trigger] prev[k], *b, *eye);
                assert(next[k] == prev[k]);
            }
            if suffocation(next, *b, *eye) && !eye_hit(cells@[i as int], *b, *eye) {
                let k = choose|k: int| 0 <= k < next.len() && eye_hit(#[trigger] next[k], *b, *eye);
                assert(prev[k] == next[k]);
            }
            if eye_hit(cells@[i as int], *b, *eye) {
                assert(eye_hit(next[i as int], *b, *eye));
            }
        }
        i = i + 1;
    }
    assert(cells@.take(i as int) =~= cells@);
    BlockScan { suffocating, collided }
}

} // verus!
