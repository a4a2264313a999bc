use vstd::prelude::*;

verus! {

/// Positions and lengths are fixed-point: one block is this many units.
pub const UNITS_PER_BLOCK: i64 = 1000000;

/// The largest coordinate magnitude a well-formed box or movement has.
pub const MAX_COORD: i64 = 562949953421312;

/// A three-component integer vector, in units.
#[derive(Clone, Copy, Debug, PartialEq, Eq, Structural)]
pub struct Vector3 {
    pub x: i64,
    pub y: i64,
    pub z: i64,
}

/// The coordinate axes.
#[derive(Clone, Copy, Debug, PartialEq, Eq, Structural)]
pub enum Axis {
    X,
    Y,
    Z,
}

impl Vector3 {
    pub open spec fn get_spec(self, axis: Axis) -> i64 {
        match axis {
            Axis::X => self.x,
            Axis::Y => self.y,
            Axis::Z => self.z,
        }
    }

    pub open spec fn bounded(self) -> bool {
        -MAX_COORD <= self.x <= MAX_COORD && -MAX_COORD <= self.y <= MAX_COORD && -MAX_COORD
            <= self.z <= MAX_COORD
    }

    pub open spec fn is_zero(self) -> bool {
        self.x == 0 && self.y == 0 && self.z == 0
    }

    pub fn get_axis(&self, axis: Axis) -> (r: i64)
        ensures
            r == self.get_spec(axis),
    {
        match axis {
            Axis::X => self.x,
            Axis::Y => self.y,
            Axis::Z => self.z,
        }
    }
}

/// A block cell position.
#[derive(Clone, Copy, Debug, PartialEq, Eq, Structural)]
pub struct BlockPos {
    pub x: i32,
    pub y: i32,
    pub z: i32,
}

/// An axis-aligned box, in units.
#[derive(Clone, Copy, Debug, PartialEq, Eq, Structural)]
pub struct BoundingBox {
    pub min: Vector3,
    pub max: Vector3,
}

/// Whether the open intervals (a_min, a_max) and (b_min, b_max) meet.
pub open spec fn overlaps(a_min: i64, a_max: i64, b_min: i64, b_max: i64) -> bool {
    a_min < b_max && b_min < a_max
}

/// The block coordinate of the cell that holds coordinate `c`.
pub open spec fn block_coord(c: int) -> int {
    c / (UNITS_PER_BLOCK as int)
}

impl BoundingBox {
    pub open spec fn ordered(self) -> bool {
        &&& self.min.x <= self.max.x
        &&& self.min.y <= self.max.y
        &&& self.min.z <= self.max.z
    }

    /// Whether every coordinate has magnitude at most `limit`.
    pub open spec fn within(self, limit: int) -> bool {
        &&& -limit <= self.min.x && self.max.x <= limit
        &&& -limit <= self.min.y && self.max.y <= limit
        &&& -limit <= self.min.z && self.max.z <= limit
    }

    pub open spec fn wf(self) -> bool {
        self.ordered() && self.within(MAX_COORD as int)
    }

    /// Whether the interiors of the two boxes meet.
    pub open spec fn intersects_spec(self, o: BoundingBox) -> bool {
        &&& overlaps(self.min.x, self.max.x, o.min.x, o.max.x)
        &&& overlaps(self.min.y, self.max.y, o.min.y, o.max.y)
        &&& overlaps(self.min.z, self.max.z, o.min.z, o.max.z)
    }

    pub open spec fn offset_spec(self, d: Vector3) -> BoundingBox {
        BoundingBox {
            min: Vector3 { x: (self.min.x + d.x) as i64, y: (self.min.y + d.y) as i64, z: (self.min.z + d.z) as i64 },
            max: Vector3 { x: (self.max.x + d.x) as i64, y: (self.max.y + d.y) as i64, z: (self.max.z + d.z) as i64 },
        }
    }

    /// The box of a full block cell.
    pub open spec fn cell_spec(pos: BlockPos) -> BoundingBox {
        BoundingBox {
            min: Vector3 {
                x: (pos.x * UNITS_PER_BLOCK) as i64,
                y: (pos.y * UNITS_PER_BLOCK) as i64,
                z: (pos.z * UNITS_PER_BLOCK) as i64,
            },
            max: Vector3 {
                x: ((pos.x + 1) * UNITS_PER_BLOCK) as i64,
                y: ((pos.y + 1) * UNITS_PER_BLOCK) as i64,
                z: ((pos.z + 1) * UNITS_PER_BLOCK) as i64,
            },
        }
    }

    pub fn intersects(&self, o: &BoundingBox) -> (r: bool)
        ensures
            r == self.intersects_spec(*o),
    {
        self.min.x < o.max.x && o.min.x < self.max.x && self.min.y < o.max.y && o.min.y
            < self.max.y && self.min.z < o.max.z && o.min.z < self.max.z
    }

    /// The box moved by `d`.
    pub fn offset(&self, d: Vector3) -> (r: BoundingBox)
        requires
            self.ordered(),
            self.within(2 * MAX_COORD),
            d.bounded(),
        ensures
            r == self.offset_spec(d),
            r.ordered(),
            r.within(3 * MAX_COORD),
    {
        BoundingBox {
            min: Vector3 { x: self.min.x + d.x, y: self.min.y + d.y, z: self.min.z + d.z },
            max: Vector3 { x: self.max.x + d.x, y: self.max.y + d.y, z: self.max.z + d.z },
        }
    }

    /// The box of the full block cell at `pos`.
    pub fn cell(pos: BlockPos) -> (r: BoundingBox)
        ensures
            r == Self::cell_spec(pos),
            r.min.y + UNITS_PER_BLOCK == r.max.y,
    {
        let x = pos.x as i64;
        let y = pos.y as i64;
        let z = pos.z as i64;
        BoundingBox {
            min: Vector3 { x: x * UNITS_PER_BLOCK, y: y * UNITS_PER_BLOCK, z: z * UNITS_PER_BLOCK },
            max: Vector3 {
                x: (x + 1) * UNITS_PER_BLOCK,
                y: (y + 1) * UNITS_PER_BLOCK,
                z: (z + 1) * UNITS_PER_BLOCK,
            },
        }
    }
}

/// The block coordinate of the cell that holds coordinate `c` (rounding
/// toward negative infinity).
pub fn floor_block(c: i64) -> (r: i32)
    requires
        -2 * MAX_COORD <= c <= 2 * MAX_COORD,
    ensures
        r as int == block_coord(c as int),
{
    if c >= 0 {
        let q = c / UNITS_PER_BLOCK;
        assert(q <= 1125899906) by (nonlinear_arith)
            requires
                q == c / 1000000,
                0 <= c <= 1125899906842624,
        ;
        q as i32
    } else {
        let n = -c;
        let q = (n + UNITS_PER_BLOCK - 1) / UNITS_PER_BLOCK;
        assert(q <= 1125899907 && -q == c / 1000000) by (nonlinear_arith)
            requires
                n == -c,
                q == (n + 1000000 - 1) / 1000000,
                0 < n <= 1125899906842624,
        ;
        (-q) as i32
    }
}

} // verus!
