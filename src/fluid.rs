use std::collections::BTreeSet;

use vstd::prelude::*;

use crate::geometry::{floor_block, block_coord, BlockPos, BoundingBox, MAX_COORD, UNITS_PER_BLOCK};

verus! {

/// How far the entity's box is shrunk on every side before the cells it
/// covers are taken, so that cells it only touches are left out.
pub const CELL_MARGIN: i64 = 1000;

/// Below this fluid height (in units) the current pushes more weakly.
pub const SHALLOW_HEIGHT: i64 = 400000;

/// The largest block coordinate magnitude a fluid cell has.
pub const MAX_BLOCK: i32 = 1000000000;

/// A fluid kind: its registry id and whether it is lava (else water).
#[derive(Clone, Copy, Debug, PartialEq, Eq, Structural)]
pub struct Fluid {
    pub id: u16,
    pub lava: bool,
}

/// What the world holds at one cell: a fluid and its surface height above
/// the cell's floor, in units, or no fluid.
#[derive(Clone, Copy, Debug, PartialEq, Eq, Structural)]
pub struct FluidCell {
    pub pos: BlockPos,
    pub fluid: Option<Fluid>,
    pub height: i64,
}

/// A cell whose current pushes the entity, and the scale of that push where
/// the fluid met so far is shallow.
#[derive(Clone, Copy, Debug, PartialEq, Eq, Structural)]
pub struct FluidPush {
    pub pos: BlockPos,
    pub lava: bool,
    /// The running height of the fluid kind when it is below the shallow
    /// threshold; the current is scaled by it.
    pub shallow_scale: Option<i64>,
}

/// The fluid state of an entity after a scan.
#[derive(Clone, Debug)]
pub struct FluidScan {
    pub touching_water: bool,
    pub water_height: i64,
    pub touching_lava: bool,
    pub lava_height: i64,
    /// The currents to apply, in scan order; empty for an entity that fluids
    /// do not push.
    pub pushes: Vec<FluidPush>,
    /// The ids of the fluids touched; walked in ascending order, so that
    /// water's collision behaviour runs before lava's.
    pub touched: BTreeSet<u16>,
}

pub open spec fn cell_wf(c: FluidCell) -> bool {
    &&& -MAX_BLOCK <= c.pos.y <= MAX_BLOCK
    &&& 0 <= c.height <= UNITS_PER_BLOCK
}

/// How far the fluid surface of `c` lies above `floor_y`.
pub open spec fn marginal(c: FluidCell, floor_y: int) -> int {
    c.height + c.pos.y * UNITS_PER_BLOCK - floor_y
}

/// Whether `c` holds a fluid of the kind `lava` that reaches `floor_y`.
pub open spec fn reaches(c: FluidCell, floor_y: int, lava: bool) -> bool {
    match c.fluid {
        Some(f) => f.lava == lava && marginal(c, floor_y) >= 0,
        None => false,
    }
}

/// Whether `c` holds any fluid that reaches `floor_y`.
pub open spec fn reaches_any(c: FluidCell, floor_y: int) -> bool {
    reaches(c, floor_y, false) || reaches(c, floor_y, true)
}

/// The greatest height above `floor_y` of a fluid of the kind `lava` among
/// `cells`, or 0 where none reaches it.
pub open spec fn max_height(cells: Seq<FluidCell>, floor_y: int, lava: bool) -> int
    decreases cells.len(),
{
    if cells.len() == 0 {
        0
    } else {
        let prev = max_height(cells.drop_last(), floor_y, lava);
        let c = cells.last();
        if reaches(c, floor_y, lava) && marginal(c, floor_y) > prev {
            marginal(c, floor_y)
        } else {
            prev
        }
    }
}

pub open spec fn any_reaches(cells: Seq<FluidCell>, floor_y: int, lava: bool) -> bool {
    exists|i: int| 0 <= i < cells.len() && reaches(#[trigger] cells[i], floor_y, lava)
}

/// The pushes that the cells `cells` give, in order.
pub open spec fn pushes_spec(cells: Seq<FluidCell>, floor_y: int) -> Seq<FluidPush>
    decreases cells.len(),
{
    if cells.len() == 0 {
        Seq::empty()
    } else {
        let prev = pushes_spec(cells.drop_last(), floor_y);
        let c = cells.last();
        match c.fluid {
            Some(f) => if reaches(c, floor_y, f.lava) {
                let h = max_height(cells, floor_y, f.lava);
                prev.push(
                    FluidPush {
                        pos: c.pos,
                        lava: f.lava,
                        shallow_scale: if h < SHALLOW_HEIGHT {
                            Some(h as i64)
                        } else {
                            None
                        },
                    },
                )
            } else {
                prev
            },
            None => prev,
        }
    }
}

/// The ids of the fluids that reach `floor_y` among `cells`.
pub open spec fn touched_ids(cells: Seq<FluidCell>, floor_y: int) -> Set<u16> {
    Set::new(
        |id: u16|
            exists|i: int|
                0 <= i < cells.len() && reaches_any(#[trigger] cells[i], floor_y) && cells[i].fluid.unwrap().id == id,
    )
}

proof fn lemma_max_height_bounds(cells: Seq<FluidCell>, floor_y: int, lava: bool)
    ensures
        max_height(cells, floor_y, lava) >= 0,
        forall|i: int|
            0 <= i < cells.len() && reaches(#[trigger] cells[i], floor_y, lava) ==> marginal(cells[i], floor_y)
                <= max_height(cells, floor_y, lava),
        any_reaches(cells, floor_y, lava) ==> exists|i: int|
            0 <= i < cells.len() && reaches(#[trigger] cells[i], floor_y, lava) && marginal(cells[i], floor_y)
                == max_height(cells, floor_y, lava),
        !any_reaches(cells, floor_y, lava) ==> max_height(cells, floor_y, lava) == 0,
    decreases cells.len(),
{
    if cells.len() > 0 {
        let rest = cells.drop_last();
        lemma_max_height_bounds(rest, floor_y, lava);
        assert forall|i: int|
            0 <= i < cells.len() && reaches(#[trigger] cells[i], floor_y, lava) implies marginal(cells[i], floor_y)
                <= max_height(cells, floor_y, lava) by {
            if i < cells.len() - 1 {
                assert(cells[i] == rest[i]);
            }
        }
        if any_reaches(cells, floor_y, lava) {
            let last = cells.len() - 1;
            if reaches(cells[last], floor_y, lava) && marginal(cells[last], floor_y) > max_height(rest, floor_y, lava) {
                assert(reaches(cells[last], floor_y, lava));
            } else if any_reaches(rest, floor_y, lava) {
                let i = choose|i: int|
                    0 <= i < rest.len() && reaches(#[trigger] rest[i], floor_y, lava) && marginal(rest[i], floor_y)
                        == max_height(rest, floor_y, lava);
                assert(cells[i] == rest[i]);
            } else {
                let i = choose|i: int| 0 <= i < cells.len() && reaches(#[trigger] cells[i], floor_y, lava);
                if i < last {
                    assert(cells[i] == rest[i]);
                }
                assert(marginal(cells[last], floor_y) >= 0);
            }
        } else {
            assert forall|i: int| 0 <= i < rest.len() implies !reaches(#[trigger] rest[i], floor_y, lava) by {
                assert(cells[i] == rest[i]);
            }
            assert(!reaches(cells[cells.len() - 1], floor_y, lava));
        }
    }
}

/// The first and last block cells covered by `b` shrunk by the margin on
/// every side.
pub fn cell_range(b: &BoundingBox) -> (r: (BlockPos, BlockPos))
    requires
        b.wf(),
    ensures
        r.0.x == block_coord(b.min.x + CELL_MARGIN),
        r.0.y == block_coord(b.min.y + CELL_MARGIN),
        r.0.z == block_coord(b.min.z + CELL_MARGIN),
        r.1.x == block_coord(b.max.x - CELL_MARGIN),
        r.1.y == block_coord(b.max.y - CELL_MARGIN),
        r.1.z == block_coord(b.max.z - CELL_MARGIN),
{
    (
        BlockPos {
            x: floor_block(b.min.x + CELL_MARGIN),
            y: floor_block(b.min.y + CELL_MARGIN),
            z: floor_block(b.min.z + CELL_MARGIN),
        },
        BlockPos {
            x: floor_block(b.max.x - CELL_MARGIN),
            y: floor_block(b.max.y - CELL_MARGIN),
            z: floor_block(b.max.z - CELL_MARGIN),
        },
    )
}

proof fn lemma_scan_step(cells: Seq<FluidCell>, i: int, floor_y: int)
    requires
        0 <= i < cells.len(),
    ensures
        ({
            let next = cells.take(i + 1);
            let prev = cells.take(i);
            let c = cells[i];
            &&& next.drop_last() == prev
            &&& next.last() == c
            &&& any_reaches(next, floor_y, false) == (any_reaches(prev, floor_y, false) || reaches(
                c,
                floor_y,
                false,
            ))
            &&& any_reaches(next, floor_y, true) == (any_reaches(prev, floor_y, true) || reaches(
                c,
                floor_y,
                true,
            ))
            &&& touched_ids(next, floor_y) == if reaches_any(c, floor_y) {
                touched_ids(prev, floor_y).insert(c.fluid.unwrap().id)
            } else {
                touched_ids(prev, floor_y)
            }
        }),
{
    let next = cells.take(i + 1);
    let prev = cells.take(i);
    let c = cells[i];
    assert(next.drop_last() =~= prev);
    assert(next[i] == c);
    assert forall|k: int| 0 <= k < i implies next[k] == prev[k] by {}
    if any_reaches(next, floor_y, false) && !reaches(c, floor_y, false) {
        let k = choose|k: int| 0 <= k < next.len() && reaches(#[trigger] next[k], floor_y, false);
        assert(prev[k] == next[k]);
    }
    if any_reaches(prev, floor_y, false) {
        let k = choose|k: int| 0 <= k < prev.len() && reaches(#[trigger] prev[k], floor_y, false);
        assert(prev[k] == next[k]);
    }
    if any_reaches(next, floor_y, true) && !reaches(c, floor_y, true) {
        let k = choose|k: int| 0 <= k < next.len() && reaches(#[trigger] next[k], floor_y, true);
        assert(prev[k] == next[k]);
    }
    if any_reaches(prev, floor_y, true) {
        let k = choose|k: int| 0 <= k < prev.len() && reaches(#[trigger] prev[k], floor_y, true);
        assert(prev[k] == next[k]);
    }
    let t_next = touched_ids(next, floor_y);
    let t_prev = touched_ids(prev, floor_y);
    let expected = if reaches_any(c, floor_y) {
        t_prev.insert(c.fluid.unwrap().id)
    } else {
        t_prev
    };
    assert forall|id: u16| t_next.contains(id) <==> expected.contains(id) by {
        if t_next.contains(id) {
            let k = choose|k: int|
                0 <= k < next.len() && reaches_any(#[trigger] next[k], floor_y) && next[k].fluid.unwrap().id == id;
            if k < i {
                assert(prev[k] == next[k]);
            }
        }
        if t_prev.contains(id) {
            let k = choose|k: int|
                0 <= k < prev.len() && reaches_any(#[trigger] prev[k], floor_y) && prev[k].fluid.unwrap().id == id;
            assert(prev[k] == next[k]);
        }
    }
    assert(t_next =~= expected);
}

/// Scans the cells that the entity's box `b` covers (see `cell_range`) for
/// fluids: which kinds it touches, how high each reaches above the bottom of
/// the shrunk box, which currents push it (where `pushed`), and which fluids
/// it touches, by id.
pub fn scan_fluids(b: &BoundingBox, cells: &Vec<FluidCell>, pushed: bool) -> (r: FluidScan)
    requires
        b.wf(),
        forall|i: int| 0 <= i < cells@.len() ==> cell_wf(#[trigger] cells@[i]),
    ensures
        ({
            let floor_y = b.min.y + CELL_MARGIN;
            &&& r.touching_water == any_reaches(cells@, floor_y, false)
            &&& r.water_height == max_height(cells@, floor_y, false)
            &&& r.touching_lava == any_reaches(cells@, floor_y, true)
            &&& r.lava_height == max_height(cells@, floor_y, true)
            &&& r.pushes@ == if pushed {
                pushes_spec(cells@, floor_y)
            } else {
                Seq::empty()
            }
            &&& r.touched@ == touched_ids(cells@, floor_y)
        }),
{
    let floor_y = b.min.y + CELL_MARGIN;
    let mut water = false;
    let mut lava = false;
    let mut water_height: i64 = 0;
    let mut lava_height: i64 = 0;
    let mut pushes: Vec<FluidPush> = Vec::new();
    let mut touched: BTreeSet<u16> = BTreeSet::new();
    let mut i: usize = 0;
    proof {
        assert(cells@.take(0) =~= Seq::<FluidCell>::empty());
        assert(touched@ =~= touched_ids(cells@.take(0), floor_y as int));
    }
    while i < cells.len()
        invariant
            0 <= i <= cells@.len(),
            b.wf(),
            floor_y == b.min.y + CELL_MARGIN,
            forall|k: int| 0 <= k < cells@.len() ==> cell_wf(#[trigger] cells@[k]),
            water == any_reaches(cells@.take(i as int), floor_y as int, false),
            lava == any_reaches(cells@.take(i as int), floor_y as int, true),
            water_height == max_height(cells@.take(i as int), floor_y as int, false),
            lava_height == max_height(cells@.take(i as int), floor_y as int, true),
            pushes@ == if pushed {
                pushes_spec(cells@.take(i as int), floor_y as int)
            } else {
                Seq::empty()
            },
            touched@ == touched_ids(cells@.take(i as int), floor_y as int),
            0 <= water_height <= 4 * MAX_COORD,
            0 <= lava_height <= 4 * MAX_COORD,
        decreases cells@.len() - i,
    {
        let c = cells[i];
        proof {
            lemma_scan_step(cells@, i as int, floor_y as int);
            lemma_max_height_bounds(cells@.take(i as int), floor_y as int, false);
            lemma_max_height_bounds(cells@.take(i as int), floor_y as int, true);
            assert(cell_wf(c));
        }
        match c.fluid {
            Some(f) => {
                let m = c.height + (c.pos.y as i64) * UNITS_PER_BLOCK - floor_y;
                if m >= 0 {
                    let h: i64;
                    if f.lava {
                        lava = true;
                        if m > lava_height {
                            lava_height = m;
                        }
                        h = lava_height;
                    } else {
                        water = true;
                        if m > water_height {
                            water_height = m;
                        }
                        h = water_height;
                    }
                    if pushed {
                        let scale = if h < SHALLOW_HEIGHT {
                            Some(h)
                        } else {
                            None
                        };
                        pushes.push(FluidPush { pos: c.pos, lava: f.lava, shallow_scale: scale });
                    }
                    touched.insert(f.id);
                }
            },
            None => {},
        }
        i = i + 1;
    }
    assert(cells@.take(i as int) =~= cells@);
    FluidScan {
        touching_water: water,
        water_height,
        touching_lava: lava,
        lava_height,
        pushes,
        touched,
    }
}

/// An entity whose box meets only water, and water that reaches it, is
/// touching water and not lava, and its water height is the greatest height
/// the water reaches above the bottom of its shrunk box.
pub proof fn submerged_in_water_only(cells: Seq<FluidCell>, floor_y: int)
    requires
        forall|i: int| 0 <= i < cells.len() && (#[trigger] cells[i]).fluid is Some ==> !cells[i].fluid.unwrap().lava,
        any_reaches(cells, floor_y, false),
    ensures
        !any_reaches(cells, floor_y, true),
        max_height(cells, floor_y, true) == 0,
        forall|i: int|
            0 <= i < cells.len() && reaches(#[trigger] cells[i], floor_y, false) ==> marginal(cells[i], floor_y)
                <= max_height(cells, floor_y, false),
        exists|i: int|
            0 <= i < cells.len() && reaches(#[trigger] cells[i], floor_y, false) && marginal(cells[i], floor_y)
                == max_height(cells, floor_y, false),
{
    lemma_max_height_bounds(cells, floor_y, false);
    lemma_max_height_bounds(cells, floor_y, true);
    assert forall|i: int| 0 <= i < cells.len() implies !reaches(#[trigger] cells[i], floor_y, true) by {}
}

} // verus!
