use vstd::prelude::*;

verus! {

/// The six faces of a block, as seen from an entity.
#[derive(Clone, Copy, Debug, PartialEq, Eq, Structural)]
pub enum Facing {
    North,
    East,
    South,
    West,
    Up,
    Down,
}

impl Facing {
    pub open spec fn opposite_spec(self) -> Facing {
        match self {
            Facing::North => Facing::South,
            Facing::East => Facing::West,
            Facing::South => Facing::North,
            Facing::West => Facing::East,
            Facing::Up => Facing::Down,
            Facing::Down => Facing::Up,
        }
    }

    pub fn opposite(&self) -> (r: Facing)
        ensures
            r == self.opposite_spec(),
    {
        match self {
            Facing::North => Facing::South,
            Facing::East => Facing::West,
            Facing::South => Facing::North,
            Facing::West => Facing::East,
            Facing::Up => Facing::Down,
            Facing::Down => Facing::Up,
        }
    }
}

/// What the facing order of an entity is decided from, given its look
/// direction with yaw sine/cosine `sy`, `cy` and pitch sine/cosine `sp`, `cp`
/// (each comparison as its outcome).
#[derive(Clone, Copy, Debug, PartialEq, Eq, Structural)]
pub struct LookSigns {
    /// `sy > 0`
    pub east: bool,
    /// `sp < 0`
    pub up: bool,
    /// `cy > 0`
    pub south: bool,
    /// `|sy| > |cy|`
    pub x_over_z: bool,
    /// `|sp| > |sy| * cp`
    pub y_over_x_weight: bool,
    /// `|cy| * cp > |sp|`
    pub z_weight_over_y: bool,
    /// `|sp| > |cy| * cp`
    pub y_over_z_weight: bool,
    /// `|sy| * cp > |sp|`
    pub x_weight_over_y: bool,
}

/// The three faces nearest the look direction, nearest first.
pub open spec fn nearest_three(s: LookSigns) -> (Facing, Facing, Facing) {
    let ew = if s.east {
        Facing::East
    } else {
        Facing::West
    };
    let ud = if s.up {
        Facing::Up
    } else {
        Facing::Down
    };
    let sn = if s.south {
        Facing::South
    } else {
        Facing::North
    };
    if s.x_over_z {
        if s.y_over_x_weight {
            (ud, ew, sn)
        } else if s.z_weight_over_y {
            (ew, sn, ud)
        } else {
            (ew, ud, sn)
        }
    } else if s.y_over_z_weight {
        (ud, sn, ew)
    } else if s.x_weight_over_y {
        (sn, ew, ud)
    } else {
        (sn, ud, ew)
    }
}

/// All six faces ordered by how directly the entity looks at them: the
/// nearest three, then their opposites in reverse order.
pub fn get_entity_facing_order(s: LookSigns) -> (r: [Facing; 6])
    ensures
        ({
            let (a, b, c) = nearest_three(s);
            r@ == seq![a, b, c, c.opposite_spec(), b.opposite_spec(), a.opposite_spec()]
        }),
{
    let ew = if s.east {
        Facing::East
    } else {
        Facing::West
    };
    let ud = if s.up {
        Facing::Up
    } else {
        Facing::Down
    };
    let sn = if s.south {
        Facing::South
    } else {
        Facing::North
    };
    let (first, second, third) = if s.x_over_z {
        if s.y_over_x_weight {
            (ud, ew, sn)
        } else if s.z_weight_over_y {
            (ew, sn, ud)
        } else {
            (ew, ud, sn)
        }
    } else if s.y_over_z_weight {
        (ud, sn, ew)
    } else if s.x_weight_over_y {
        (sn, ew, ud)
    } else {
        (sn, ud, ew)
    };
    let r = [first, second, third, third.opposite(), second.opposite(), first.opposite()];
    assert(r@ =~= seq![first, second, third, third.opposite_spec(), second.opposite_spec(), first.opposite_spec()]);
    r
}

/// The sixteenth of a turn opposite to `rotation` (0 to 15).
pub fn get_flipped_rotation_16(rotation: u8) -> (r: u8)
    requires
        rotation < 16,
    ensures
        r == (rotation + 8) % 16,
        r < 16,
{
    (rotation + 8) % 16
}

} // verus!
