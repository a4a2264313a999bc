use vstd::prelude::*;

use crate::geometry::{block_coord, floor_block, BlockPos, BoundingBox, Vector3, MAX_COORD, UNITS_PER_BLOCK};
use crate::motion::{
    adjust_spec, adjusted_within_request, adjust_movement, shapes_wf, CollisionShape,
};

verus! {

/// Why an entity left the world.
#[derive(Clone, Copy, Debug, PartialEq, Eq, Structural)]
pub enum RemovalReason {
    Killed,
    Discarded,
    UnloadedToChunk,
    UnloadedWithPlayer,
    ChangedDimension,
}

impl RemovalReason {
    /// Whether the entity is gone for good (killed or discarded).
    pub open spec fn destroys(self) -> bool {
        self is Killed || self is Discarded
    }

    /// Whether the entity is written out with the chunk it was unloaded to.
    pub open spec fn saves(self) -> bool {
        self is UnloadedToChunk
    }

    pub fn should_destroy(&self) -> (r: bool)
        ensures
            r == self.destroys(),
    {
        match self {
            RemovalReason::Killed | RemovalReason::Discarded => true,
            RemovalReason::UnloadedToChunk
            | RemovalReason::UnloadedWithPlayer
            | RemovalReason::ChangedDimension => false,
        }
    }

    pub fn should_save(&self) -> (r: bool)
        ensures
            r == self.saves(),
    {
        match self {
            RemovalReason::Killed
            | RemovalReason::Discarded
            | RemovalReason::UnloadedWithPlayer
            | RemovalReason::ChangedDimension => false,
            RemovalReason::UnloadedToChunk => true,
        }
    }
}

/// The entity flags of the shared metadata byte, each a bit position.
#[derive(Clone, Copy, Debug, PartialEq, Eq, Structural)]
pub enum Flag {
    /// Indicates if the entity is on fire.
    OnFire,
    /// Indicates if the entity is sneaking.
    Sneaking,
    /// Indicates if the entity is sprinting.
    Sprinting,
    /// Indicates if the entity is swimming.
    Swimming,
    /// Indicates if the entity is invisible.
    Invisible,
    /// Indicates if the entity is glowing.
    Glowing,
    /// Indicates if the entity is flying due to a fall.
    FallFlying,
}

impl Flag {
    /// The bit position of the flag in the metadata byte.
    pub open spec fn bit_spec(self) -> u8 {
        match self {
            Flag::OnFire => 0,
            Flag::Sneaking => 1,
            Flag::Sprinting => 3,
            Flag::Swimming => 4,
            Flag::Invisible => 5,
            Flag::Glowing => 6,
            Flag::FallFlying => 7,
        }
    }

    pub fn bit(&self) -> (r: u8)
        ensures
            r == self.bit_spec(),
            r < 8,
    {
        match self {
            Flag::OnFire => 0,
            Flag::Sneaking => 1,
            Flag::Sprinting => 3,
            Flag::Swimming => 4,
            Flag::Invisible => 5,
            Flag::Glowing => 6,
            Flag::FallFlying => 7,
        }
    }
}

/// The metadata byte sent for `flag` set to `value`: that flag's bit alone,
/// or no bit.
pub open spec fn flag_byte_spec(flag: Flag, value: bool) -> u8 {
    if value {
        (1u8 << flag.bit_spec()) as u8
    } else {
        0
    }
}

/// The metadata byte sent when `flag` is set to `value`.
pub fn flag_byte(flag: Flag, value: bool) -> (r: u8)
    ensures
        r == flag_byte_spec(flag, value),
{
    let bit = flag.bit();
    if value {
        1u8 << bit
    } else {
        0
    }
}

/// Ticks before a player can use a portal again.
pub const PLAYER_PORTAL_COOLDOWN: u32 = 10;

/// Ticks before another entity can use a portal again.
pub const ENTITY_PORTAL_COOLDOWN: u32 = 300;

/// What a tick does with an entity's portal state.
#[derive(Clone, Copy, Debug, PartialEq, Eq, Structural)]
pub enum PortalAction {
    /// Nothing changes.
    Stay,
    /// The entity is sent through the portal.
    Teleport,
    /// The entity has left the portal: its portal state is dropped.
    Forget,
}

/// What touching a portal does.
#[derive(Clone, Copy, Debug, PartialEq, Eq, Structural)]
pub enum PortalUse {
    /// Still cooling down: nothing happens but that the cooldown starts over.
    CoolingDown,
    /// The entity starts a new portal state.
    Enter,
    /// The entity's portal state is moved to the portal touched now.
    Update,
}

/// The largest coordinate magnitude an entity position has.
pub const POS_LIMIT: i64 = 281474976710656;

/// Offsets up to this many units keep a supporting block as it is.
pub const OFFSET_TOLERANCE: i64 = 10;

/// A velocity component below this magnitude (units per tick) is dropped.
pub const MIN_SPEED: i64 = 3000;

/// A player's horizontal velocity whose squared length is below this is
/// dropped.
pub const MIN_HORIZONTAL_SPEED_SQUARED: i64 = 9000000;

/// The largest width or height an entity has, in units.
pub const MAX_DIMENSION: i64 = 64000000;

/// The size of an entity's box, in units.
#[derive(Clone, Copy, Debug, PartialEq, Eq, Structural)]
pub struct EntityDimensions {
    pub width: i64,
    pub height: i64,
}

impl EntityDimensions {
    pub open spec fn wf(self) -> bool {
        0 <= self.width <= MAX_DIMENSION && 0 <= self.height <= MAX_DIMENSION
    }
}

impl Vector3 {
    pub open spec fn within_limit(self) -> bool {
        -POS_LIMIT <= self.x <= POS_LIMIT && -POS_LIMIT <= self.y <= POS_LIMIT && -POS_LIMIT
            <= self.z <= POS_LIMIT
    }

    pub open spec fn plus(self, d: Vector3) -> Vector3 {
        Vector3 { x: (self.x + d.x) as i64, y: (self.y + d.y) as i64, z: (self.z + d.z) as i64 }
    }
}

/// The box of an entity standing at `pos`: centred on it horizontally, with
/// its bottom at `pos.y`.
pub open spec fn box_at(pos: Vector3, dims: EntityDimensions) -> BoundingBox {
    let half = dims.width / 2;
    BoundingBox {
        min: Vector3 { x: (pos.x - half) as i64, y: pos.y, z: (pos.z - half) as i64 },
        max: Vector3 { x: (pos.x + half) as i64, y: (pos.y + dims.height) as i64, z: (pos.z + half) as i64 },
    }
}

/// The block cell that holds `pos`.
pub open spec fn block_of(pos: Vector3) -> BlockPos {
    BlockPos {
        x: block_coord(pos.x as int) as i32,
        y: block_coord(pos.y as int) as i32,
        z: block_coord(pos.z as int) as i32,
    }
}

/// The chunk column (x, z) that holds the block cell `b`.
pub open spec fn chunk_of(b: BlockPos) -> (i32, i32) {
    ((b.x >> 4u32) as i32, (b.z >> 4u32) as i32)
}

/// A multiplier of one, in millionths.
pub const MULTIPLIER_ONE: i64 = 1000000;

/// The largest movement or velocity multiplier, in millionths.
pub const MAX_MULTIPLIER: i64 = 2000000;

/// A movement multiplier whose squared length (in millionths squared) is at
/// most this is not applied.
pub const MIN_MULTIPLIER_SQUARED: i64 = 100000;

pub open spec fn multiplier_ok(m: Vector3) -> bool {
    0 <= m.x <= MAX_MULTIPLIER && 0 <= m.y <= MAX_MULTIPLIER && 0 <= m.z <= MAX_MULTIPLIER
}

/// `v` times the multiplier `m` (in millionths), rounded down.
pub open spec fn scale_spec(v: i64, m: i64) -> int {
    (v * m) / (MULTIPLIER_ONE as int)
}

/// The motion a move makes of `motion` under the movement multiplier `m`:
/// scaled per axis where the multiplier is not negligible.
pub open spec fn effective_motion(motion: Vector3, m: Vector3) -> Vector3 {
    if m.x * m.x + m.y * m.y + m.z * m.z > MIN_MULTIPLIER_SQUARED {
        Vector3 {
            x: scale_spec(motion.x, m.x) as i64,
            y: scale_spec(motion.y, m.y) as i64,
            z: scale_spec(motion.z, m.z) as i64,
        }
    } else {
        motion
    }
}

/// `v` times `m` millionths, rounded down.
pub fn scale_component(v: i64, m: i64) -> (r: i64)
    requires
        -MAX_COORD <= v <= MAX_COORD,
        0 <= m <= MAX_MULTIPLIER,
    ensures
        r == scale_spec(v, m),
        v >= 0 ==> 0 <= r <= 2 * v,
        v < 0 ==> 2 * v <= r <= 0,
        m == MULTIPLIER_ONE ==> r == v,
{
    let vi = v as i128;
    let mi = m as i128;
    assert(-1125899906842624 * 1000000 <= vi * mi <= 1125899906842624 * 1000000) by (nonlinear_arith)
        requires
            -562949953421312 <= vi <= 562949953421312,
            0 <= mi <= 2000000,
    ;
    let p = vi * mi;
    assert(v >= 0 ==> 0 <= p <= 2000000 * v) by (nonlinear_arith)
        requires
            p == v * m,
            0 <= m <= 2000000,
    ;
    assert(v < 0 ==> 2000000 * v <= p <= 0) by (nonlinear_arith)
        requires
            p == v * m,
            0 <= m <= 2000000,
    ;
    assert(m == 1000000 ==> p / 1000000 == v) by (nonlinear_arith)
        requires
            p == v * m,
    ;
    if p >= 0 {
        let q = p / 1000000;
        assert(q <= 2 * v || v < 0) by (nonlinear_arith)
            requires
                q == p / 1000000,
                v >= 0 ==> p <= 2000000 * v,
                p >= 0,
        ;
        q as i64
    } else {
        let n = -p;
        let q = (n + 1000000 - 1) / 1000000;
        assert(-q == p / 1000000 && (v < 0 ==> -q >= 2 * v)) by (nonlinear_arith)
            requires
                n == -p,
                n > 0,
                q == (n + 1000000 - 1) / 1000000,
                v < 0 ==> 2000000 * v <= p,
        ;
        (-q) as i64
    }
}

/// Whether `m` is a movement multiplier an entity can hold.
pub fn multiplier_in_range(m: Vector3) -> (r: bool)
    ensures
        r == multiplier_ok(m),
{
    0 <= m.x && m.x <= MAX_MULTIPLIER && 0 <= m.y && m.y <= MAX_MULTIPLIER && 0 <= m.z && m.z
        <= MAX_MULTIPLIER
}

/// The motion a move makes of `motion` under the movement multiplier `m`.
pub fn effective_motion_of(motion: Vector3, m: Vector3) -> (r: Vector3)
    requires
        motion.within_limit(),
        multiplier_ok(m),
    ensures
        r == effective_motion(motion, m),
        r.bounded(),
{
    assert(0 <= m.x * m.x <= 4000000000000 && 0 <= m.y * m.y <= 4000000000000 && 0 <= m.z * m.z
        <= 4000000000000) by (nonlinear_arith)
        requires
            0 <= m.x <= 2000000,
            0 <= m.y <= 2000000,
            0 <= m.z <= 2000000,
    ;
    let sq = m.x * m.x + m.y * m.y + m.z * m.z;
    if sq > MIN_MULTIPLIER_SQUARED {
        Vector3 {
            x: scale_component(motion.x, m.x),
            y: scale_component(motion.y, m.y),
            z: scale_component(motion.z, m.z),
        }
    } else {
        motion
    }
}

/// The simulation state of one entity: where it is, how it moves, what it
/// last collided with, and its fire and portal timers.
#[derive(Clone, Copy, Debug, PartialEq, Eq)]
pub struct Entity {
    /// The entity's network id, unique among the entities of the server
    /// (handed out by whoever creates entities).
    pub entity_id: i32,
    /// Why the entity left the world; `None` while it is in it.
    pub removal_reason: Option<RemovalReason>,
    /// Whether the entity is a player.
    pub is_player: bool,
    /// Whether fire does not hurt the entity.
    pub fire_immune: bool,
    /// Whether the entity moves through blocks.
    pub no_clip: bool,
    /// Ticks left to burn.
    pub fire_ticks: i32,
    /// Ticks before the entity can use a portal again.
    pub portal_cooldown: u32,
    pub pos: Vector3,
    pub last_pos: Vector3,
    pub velocity: Vector3,
    pub dimensions: EntityDimensions,
    /// Always the box of `dimensions` at `pos`.
    pub bounding_box: BoundingBox,
    /// Always the block cell that holds `pos`.
    pub block_pos: BlockPos,
    /// Always the chunk column that holds `block_pos`.
    pub chunk_pos: (i32, i32),
    pub on_ground: bool,
    pub horizontal_collision: bool,
    pub supporting_block_pos: Option<BlockPos>,
    /// Scales the next movement per axis, in millionths (all zero for none);
    /// cleared by the move it applies to.
    pub movement_multiplier: Vector3,
}

fn box_from(pos: Vector3, dims: EntityDimensions) -> (r: BoundingBox)
    requires
        pos.within_limit(),
        dims.wf(),
    ensures
        r == box_at(pos, dims),
        r.wf(),
{
    let half = dims.width / 2;
    BoundingBox {
        min: Vector3 { x: pos.x - half, y: pos.y, z: pos.z - half },
        max: Vector3 { x: pos.x + half, y: pos.y + dims.height, z: pos.z + half },
    }
}

fn block_from(pos: Vector3) -> (r: BlockPos)
    requires
        pos.within_limit(),
    ensures
        r == block_of(pos),
{
    BlockPos { x: floor_block(pos.x), y: floor_block(pos.y), z: floor_block(pos.z) }
}

impl Entity {
    pub open spec fn wf(&self) -> bool {
        &&& self.pos.within_limit()
        &&& self.dimensions.wf()
        &&& self.bounding_box == box_at(self.pos, self.dimensions)
        &&& self.block_pos == block_of(self.pos)
        &&& self.chunk_pos == chunk_of(self.block_pos)
        &&& multiplier_ok(self.movement_multiplier)
    }

    /// A resting entity of size `dimensions` at `pos`.
    pub fn new(
        entity_id: i32,
        pos: Vector3,
        dimensions: EntityDimensions,
        is_player: bool,
        fire_immune: bool,
    ) -> (r: Self)
        requires
            pos.within_limit(),
            dimensions.wf(),
        ensures
            r.wf(),
            r.entity_id == entity_id,
            r.removal_reason is None,
            r.is_player == is_player,
            r.fire_immune == fire_immune,
            !r.no_clip,
            r.fire_ticks == -1,
            r.movement_multiplier == (Vector3 { x: 0, y: 0, z: 0 }),
            r.portal_cooldown == 0,
            r.dimensions == dimensions,
            r.pos == pos,
            r.last_pos == pos,
            r.velocity == (Vector3 { x: 0, y: 0, z: 0 }),
            !r.on_ground,
            !r.horizontal_collision,
            r.supporting_block_pos is None,
    {
        let block_pos = block_from(pos);
        Entity {
            entity_id,
            removal_reason: None,
            is_player,
            fire_immune,
            no_clip: false,
            fire_ticks: -1,
            portal_cooldown: 0,
            movement_multiplier: Vector3 { x: 0, y: 0, z: 0 },
            pos,
            last_pos: pos,
            velocity: Vector3 { x: 0, y: 0, z: 0 },
            dimensions,
            bounding_box: box_from(pos, dimensions),
            block_pos,
            chunk_pos: (block_pos.x >> 4u32, block_pos.z >> 4u32),
            on_ground: false,
            horizontal_collision: false,
            supporting_block_pos: None,
        }
    }

    /// Moves the entity to `new_position`; its box, block cell and chunk
    /// follow.
    pub fn set_pos(&mut self, new_position: Vector3)
        requires
            old(self).wf(),
            new_position.within_limit(),
        ensures
            final(self).wf(),
            *final(self) == (Entity {
                pos: new_position,
                bounding_box: box_at(new_position, old(self).dimensions),
                block_pos: block_of(new_position),
                chunk_pos: chunk_of(block_of(new_position)),
                ..*old(self)
            }),
    {
        if self.pos != new_position {
            self.pos = new_position;
            self.bounding_box = box_from(new_position, self.dimensions);
            let block_pos = block_from(new_position);
            if block_pos != self.block_pos {
                self.block_pos = block_pos;
                let chunk = (block_pos.x >> 4u32, block_pos.z >> 4u32);
                if chunk.0 != self.chunk_pos.0 || chunk.1 != self.chunk_pos.1 {
                    self.chunk_pos = chunk;
                }
            }
        }
    }

    /// Moves the entity by `delta`.
    pub fn move_pos(&mut self, delta: Vector3)
        requires
            old(self).wf(),
            old(self).pos.plus(delta).within_limit(),
            delta.bounded(),
        ensures
            final(self).wf(),
            *final(self) == (Entity {
                pos: old(self).pos.plus(delta),
                bounding_box: box_at(old(self).pos.plus(delta), old(self).dimensions),
                block_pos: block_of(old(self).pos.plus(delta)),
                chunk_pos: chunk_of(block_of(old(self).pos.plus(delta))),
                ..*old(self)
            }),
    {
        let p = Vector3 { x: self.pos.x + delta.x, y: self.pos.y + delta.y, z: self.pos.z + delta.z };
        self.set_pos(p);
    }

    /// Records the current position as the last one and returns the one it
    /// replaces.
    pub fn update_last_pos(&mut self) -> (r: Vector3)
        ensures
            r == old(self).last_pos,
            *final(self) == (Entity { last_pos: old(self).pos, ..*old(self) }),
    {
        let old_last = self.last_pos;
        self.last_pos = self.pos;
        old_last
    }

    /// The part of `movement` the entity can make among the solid shapes
    /// `shapes` (those in the box that `stretch` gives). The collision flags
    /// are cleared first, then set from the outcome.
    pub fn adjust_movement_for_collisions(&mut self, movement: Vector3, shapes: &Vec<CollisionShape>) -> (r:
        Vector3)
        requires
            old(self).wf(),
            movement.bounded(),
            shapes_wf(shapes@),
        ensures
            ({
                let a = adjust_spec(old(self).bounding_box, movement, shapes@);
                &&& r == a.movement
                &&& *final(self) == (Entity {
                    on_ground: a.on_ground,
                    supporting_block_pos: a.supporting_block,
                    horizontal_collision: a.horizontal_collision,
                    ..*old(self)
                })
            }),
            movement.is_zero() ==> r == movement && !final(self).on_ground
                && !final(self).horizontal_collision && final(self).supporting_block_pos is None,
    {
        self.on_ground = false;
        self.supporting_block_pos = None;
        self.horizontal_collision = false;
        let a = adjust_movement(&self.bounding_box, movement, shapes);
        self.on_ground = a.on_ground;
        self.supporting_block_pos = a.supporting_block;
        self.horizontal_collision = a.horizontal_collision;
        a.movement
    }

    /// The block cell `offset` units below the entity's feet, in the column of
    /// its supporting block where it has one (a supporting block is kept as it
    /// is for offsets up to the tolerance), else in the column of its own cell.
    pub fn get_pos_with_y_offset(&self, offset: i64) -> (r: BlockPos)
        requires
            self.wf(),
            -POS_LIMIT <= offset <= POS_LIMIT,
        ensures
            ({
                let below = block_coord(self.pos.y - offset) as i32;
                match self.supporting_block_pos {
                    Some(s) => if offset > OFFSET_TOLERANCE {
                        r == (BlockPos { y: below, ..s })
                    } else {
                        r == s
                    },
                    None => r == (BlockPos { y: below, ..self.block_pos }),
                }
            }),
    {
        match self.supporting_block_pos {
            Some(s) => {
                if offset > OFFSET_TOLERANCE {
                    BlockPos { x: s.x, y: floor_block(self.pos.y - offset), z: s.z }
                } else {
                    s
                }
            },
            None => BlockPos {
                x: self.block_pos.x,
                y: floor_block(self.pos.y - offset),
                z: self.block_pos.z,
            },
        }
    }

    /// Zeroes the velocity components too small to matter: for a player the
    /// horizontal pair together, by the square of their length, for other
    /// entities each horizontal component alone; the vertical one in both.
    pub fn check_zero_velo(&mut self)
        requires
            old(self).velocity.bounded(),
        ensures
            ({
                let is_player = old(self).is_player;
                let v = old(self).velocity;
                let small_pair = v.x * v.x + v.z * v.z < MIN_HORIZONTAL_SPEED_SQUARED;
                let x = if (is_player && small_pair) || (!is_player && -MIN_SPEED < v.x < MIN_SPEED) {
                    0
                } else {
                    v.x
                };
                let z = if (is_player && small_pair) || (!is_player && -MIN_SPEED < v.z < MIN_SPEED) {
                    0
                } else {
                    v.z
                };
                let y = if -MIN_SPEED < v.y < MIN_SPEED {
                    0
                } else {
                    v.y
                };
                *final(self) == (Entity { velocity: Vector3 { x, y, z }, ..*old(self) })
            }),
    {
        let mut v = self.velocity;
        if self.is_player {
            let x = v.x as i128;
            let z = v.z as i128;
            assert(0 <= x * x <= 562949953421312 * 562949953421312 && 0 <= z * z
                <= 562949953421312 * 562949953421312) by (nonlinear_arith)
                requires
                    -562949953421312 <= x <= 562949953421312,
                    -562949953421312 <= z <= 562949953421312,
            ;
            let xx = x * x;
            let zz = z * z;
            if xx + zz < MIN_HORIZONTAL_SPEED_SQUARED as i128 {
                v.x = 0;
                v.z = 0;
            }
        } else {
            if -MIN_SPEED < v.x && v.x < MIN_SPEED {
                v.x = 0;
            }
            if -MIN_SPEED < v.z && v.z < MIN_SPEED {
                v.z = 0;
            }
        }
        if -MIN_SPEED < v.y && v.y < MIN_SPEED {
            v.y = 0;
        }
        self.velocity = v;
    }

    /// Moves the entity by `motion`. A player is moved elsewhere and is left
    /// as it is. An entity without collision moves by the whole of `motion`.
    /// Another has its pending movement multiplier applied to `motion` (and
    /// cleared), then moves by the part of it that the shapes `shapes` leave;
    /// its collision flags follow that movement, and its velocity becomes the
    /// movement made (the velocity multiplier of the block it ends up on is
    /// applied after, by `apply_velocity_multiplier`). Returns the movement
    /// made.
    pub fn move_entity(&mut self, motion: Vector3, shapes: &Vec<CollisionShape>) -> (r: Vector3)
        requires
            old(self).wf(),
            motion.within_limit(),
            old(self).pos.plus(motion).within_limit(),
            old(self).pos.plus(effective_motion(motion, old(self).movement_multiplier)).within_limit(),
            shapes_wf(shapes@),
        ensures
            final(self).wf(),
            old(self).is_player ==> r == (Vector3 { x: 0, y: 0, z: 0 }) && *final(self) == *old(self),
            !old(self).is_player && old(self).no_clip ==> r == motion && *final(self) == (Entity {
                pos: old(self).pos.plus(motion),
                bounding_box: box_at(old(self).pos.plus(motion), old(self).dimensions),
                block_pos: block_of(old(self).pos.plus(motion)),
                chunk_pos: chunk_of(block_of(old(self).pos.plus(motion))),
                ..*old(self)
            }),
            !old(self).is_player && !old(self).no_clip ==> ({
                let a = adjust_spec(
                    old(self).bounding_box,
                    effective_motion(motion, old(self).movement_multiplier),
                    shapes@,
                );
                &&& r == a.movement
                &&& *final(self) == (Entity {
                    pos: old(self).pos.plus(r),
                    bounding_box: box_at(old(self).pos.plus(r), old(self).dimensions),
                    block_pos: block_of(old(self).pos.plus(r)),
                    chunk_pos: chunk_of(block_of(old(self).pos.plus(r))),
                    velocity: r,
                    movement_multiplier: Vector3 { x: 0, y: 0, z: 0 },
                    on_ground: a.on_ground,
                    supporting_block_pos: a.supporting_block,
                    horizontal_collision: a.horizontal_collision,
                    ..*old(self)
                })
            }),
    {
        if self.is_player {
            return Vector3 { x: 0, y: 0, z: 0 };
        }
        if self.no_clip {
            self.move_pos(motion);
            return motion;
        }
        let m2 = effective_motion_of(motion, self.movement_multiplier);
        self.movement_multiplier = Vector3 { x: 0, y: 0, z: 0 };
        let b = self.bounding_box;
        let final_move = self.adjust_movement_for_collisions(m2, shapes);
        proof {
            adjusted_within_request(b, m2, shapes@);
        }
        self.move_pos(final_move);
        self.velocity = final_move;
        final_move
    }

    /// Scales the velocity by the velocity multiplier `multiplier` (in
    /// millionths) of the block the entity stands on, rounding down.
    pub fn apply_velocity_multiplier(&mut self, multiplier: i64)
        requires
            old(self).velocity.bounded(),
            0 <= multiplier <= MAX_MULTIPLIER,
        ensures
            *final(self) == (Entity {
                velocity: Vector3 {
                    x: scale_spec(old(self).velocity.x, multiplier) as i64,
                    y: scale_spec(old(self).velocity.y, multiplier) as i64,
                    z: scale_spec(old(self).velocity.z, multiplier) as i64,
                },
                ..*old(self)
            }),
            multiplier == MULTIPLIER_ONE ==> final(self).velocity == old(self).velocity,
    {
        let v = self.velocity;
        self.velocity = Vector3 {
            x: scale_component(v.x, multiplier),
            y: scale_component(v.y, multiplier),
            z: scale_component(v.z, multiplier),
        };
    }

    /// Marks the entity as removed from the world, for `reason`.
    pub fn remove(&mut self, reason: RemovalReason)
        ensures
            *final(self) == (Entity { removal_reason: Some(reason), ..*old(self) }),
    {
        self.removal_reason = Some(reason);
    }

    /// Whether the entity has left the world.
    pub fn is_removed(&self) -> (r: bool)
        ensures
            r == self.removal_reason is Some,
    {
        self.removal_reason.is_some()
    }

    /// Whether the entity is still in the world.
    pub fn is_alive(&self) -> (r: bool)
        ensures
            r == self.removal_reason is None,
    {
        !self.is_removed()
    }

    /// The portal cooldown the entity gets after using or touching a portal.
    pub fn default_portal_cooldown(&self) -> (r: u32)
        ensures
            r == if self.is_player {
                PLAYER_PORTAL_COOLDOWN
            } else {
                ENTITY_PORTAL_COOLDOWN
            },
    {
        if self.is_player {
            PLAYER_PORTAL_COOLDOWN
        } else {
            ENTITY_PORTAL_COOLDOWN
        }
    }

    /// One tick of the portal timers: the cooldown counts down, then the
    /// report of the entity's portal state (whether it is ready to teleport,
    /// and how many ticks it has spent in the portal; `None` where it has no
    /// portal state) decides what happens.
    pub fn tick_portal(&mut self, report: Option<(bool, u32)>) -> (r: PortalAction)
        ensures
            ({
                let counted = if old(self).portal_cooldown > 0 {
                    (old(self).portal_cooldown - 1) as u32
                } else {
                    0
                };
                let reset = if old(self).is_player {
                    PLAYER_PORTAL_COOLDOWN
                } else {
                    ENTITY_PORTAL_COOLDOWN
                };
                match report {
                    Some((true, _)) => r == PortalAction::Teleport && *final(self) == (Entity {
                        portal_cooldown: reset,
                        ..*old(self)
                    }),
                    Some((false, 0)) => r == PortalAction::Forget && *final(self) == (Entity {
                        portal_cooldown: counted,
                        ..*old(self)
                    }),
                    _ => r == PortalAction::Stay && *final(self) == (Entity {
                        portal_cooldown: counted,
                        ..*old(self)
                    }),
                }
            }),
    {
        if self.portal_cooldown > 0 {
            self.portal_cooldown = self.portal_cooldown - 1;
        }
        match report {
            Some((ready, ticks)) => {
                if ready {
                    self.portal_cooldown = self.default_portal_cooldown();
                    PortalAction::Teleport
                } else if ticks == 0 {
                    PortalAction::Forget
                } else {
                    PortalAction::Stay
                }
            },
            None => PortalAction::Stay,
        }
    }

    /// What touching a portal does, for an entity that has a portal state or
    /// not; while cooling down, the cooldown starts over.
    pub fn try_use_portal(&mut self, has_portal_state: bool) -> (r: PortalUse)
        ensures
            old(self).portal_cooldown > 0 ==> r == PortalUse::CoolingDown && *final(self) == (Entity {
                portal_cooldown: if old(self).is_player {
                    PLAYER_PORTAL_COOLDOWN
                } else {
                    ENTITY_PORTAL_COOLDOWN
                },
                ..*old(self)
            }),
            old(self).portal_cooldown == 0 ==> *final(self) == *old(self) && r == if has_portal_state {
                PortalUse::Update
            } else {
                PortalUse::Enter
            },
    {
        if self.portal_cooldown > 0 {
            self.portal_cooldown = self.default_portal_cooldown();
            PortalUse::CoolingDown
        } else if !has_portal_state {
            PortalUse::Enter
        } else {
            PortalUse::Update
        }
    }

    /// Puts the fire out.
    pub fn extinguish(&mut self)
        ensures
            *final(self) == (Entity { fire_ticks: 0, ..*old(self) }),
    {
        self.fire_ticks = 0;
    }

    /// Sets the entity on fire for `ticks` ticks; a longer burn already under
    /// way stands.
    pub fn set_on_fire_for_ticks(&mut self, ticks: u32)
        ensures
            *final(self) == (Entity {
                fire_ticks: if old(self).fire_ticks < ticks as i32 {
                    ticks as i32
                } else {
                    old(self).fire_ticks
                },
                ..*old(self)
            }),
    {
        if self.fire_ticks < ticks as i32 {
            self.fire_ticks = ticks as i32;
        }
    }

    /// One tick of burning; tells whether the entity takes fire damage and
    /// whether it is still burning.
    pub fn tick_fire(&mut self) -> (r: FireTick)
        ensures
            r == fire_tick_spec(old(self).fire_ticks, old(self).fire_immune),
            *final(self) == (Entity { fire_ticks: r.fire_ticks, ..*old(self) }),
    {
        let t = fire_tick(self.fire_ticks, self.fire_immune);
        self.fire_ticks = t.fire_ticks;
        t
    }
}

/// The area a mob is kept in: a home cell and a range, `-1` for none.
#[derive(Clone, Copy, Debug, PartialEq, Eq, Structural)]
pub struct PositionTarget {
    pub pos: BlockPos,
    pub range: i32,
}

pub open spec fn squared_distance(a: BlockPos, b: BlockPos) -> int {
    (a.x - b.x) * (a.x - b.x) + (a.y - b.y) * (a.y - b.y) + (a.z - b.z) * (a.z - b.z)
}

impl PositionTarget {
    /// Whether `block_pos` lies within the range of the home cell; always so
    /// for a mob without a range.
    pub fn is_in_position_target_range_pos(&self, block_pos: BlockPos) -> (r: bool)
        ensures
            r == (self.range == -1 || squared_distance(self.pos, block_pos) < self.range
                * self.range),
    {
        if self.range == -1 {
            return true;
        }
        let dx = self.pos.x as i128 - block_pos.x as i128;
        let dy = self.pos.y as i128 - block_pos.y as i128;
        let dz = self.pos.z as i128 - block_pos.z as i128;
        let r = self.range as i128;
        assert(0 <= dx * dx <= 0x1_0000_0000_0000_0000 && 0 <= dy * dy <= 0x1_0000_0000_0000_0000
            && 0 <= dz * dz <= 0x1_0000_0000_0000_0000 && 0 <= r * r <= 0x1_0000_0000_0000_0000)
            by (nonlinear_arith)
            requires
                -0x1_0000_0000 <= dx <= 0x1_0000_0000,
                -0x1_0000_0000 <= dy <= 0x1_0000_0000,
                -0x1_0000_0000 <= dz <= 0x1_0000_0000,
                -0x1_0000_0000 <= r <= 0x1_0000_0000,
        ;
        let d = dx * dx + dy * dy + dz * dz;
        d < r * r
    }
}

/// How far below the feet the block that sets the velocity and jump
/// multipliers is looked for, where the block at the feet leaves them at one.
pub const SUPPORT_PROBE_OFFSET: i64 = 500001;

/// The velocity multiplier of an entity: that of the block at its cell,
/// unless it is one and that block is no water or bubble column, in which
/// case that of the block `SUPPORT_PROBE_OFFSET` below its feet. All in
/// millionths.
pub fn velocity_multiplier(at: i64, at_is_water_or_bubble_column: bool, below: i64) -> (r: i64)
    ensures
        r == if at != MULTIPLIER_ONE || at_is_water_or_bubble_column {
            at
        } else {
            below
        },
{
    if at != MULTIPLIER_ONE || at_is_water_or_bubble_column {
        at
    } else {
        below
    }
}

/// The jump multiplier of an entity: that of the block at its cell, unless
/// it is one, in which case that of the block below its feet.
pub fn jump_velocity_multiplier(at: i64, below: i64) -> (r: i64)
    ensures
        r == if at == MULTIPLIER_ONE {
            below
        } else {
            at
        },
{
    if at == MULTIPLIER_ONE {
        below
    } else {
        at
    }
}

/// What one tick of burning does to an entity.
#[derive(Clone, Copy, Debug, PartialEq, Eq, Structural)]
pub struct FireTick {
    /// The fire ticks left.
    pub fire_ticks: i32,
    /// Whether the entity takes fire damage this tick.
    pub damage: bool,
    /// Whether the entity is still shown burning.
    pub on_fire: bool,
}

/// One tick of burning: a fire-immune entity burns out four times as fast
/// and takes no damage; another takes damage every twentieth tick.
pub open spec fn fire_tick_spec(fire_ticks: i32, fire_immune: bool) -> FireTick {
    if fire_ticks <= 0 {
        FireTick { fire_ticks, damage: false, on_fire: false }
    } else if fire_immune {
        let left: int = if fire_ticks - 4 < 0 {
            0
        } else {
            fire_ticks - 4
        };
        FireTick { fire_ticks: left as i32, damage: false, on_fire: left > 0 }
    } else {
        FireTick {
            fire_ticks: (fire_ticks - 1) as i32,
            damage: fire_ticks % 20 == 0,
            on_fire: fire_ticks - 1 > 0,
        }
    }
}

/// One tick of burning.
pub fn fire_tick(fire_ticks: i32, fire_immune: bool) -> (r: FireTick)
    ensures
        r == fire_tick_spec(fire_ticks, fire_immune),
{
    if fire_ticks <= 0 {
        return FireTick { fire_ticks, damage: false, on_fire: false };
    }
    if fire_immune {
        let mut left = fire_ticks - 4;
        if left < 0 {
            left = 0;
        }
        FireTick { fire_ticks: left, damage: false, on_fire: left > 0 }
    } else {
        let left = fire_ticks - 1;
        FireTick { fire_ticks: left, damage: fire_ticks % 20 == 0, on_fire: left > 0 }
    }
}

/// How far below the world's lowest block an entity falls before it takes
/// out-of-world damage, in blocks.
pub const OUT_OF_WORLD_DEPTH: i64 = 64;

/// Whether an entity at height `y` (units) is below the world whose lowest
/// block row is `min_y`.
pub fn is_out_of_world(y: i64, min_y: i32) -> (r: bool)
    ensures
        r == (y < (min_y - OUT_OF_WORLD_DEPTH) * crate::geometry::UNITS_PER_BLOCK),
{
    let limit = (min_y as i64 - OUT_OF_WORLD_DEPTH) * crate::geometry::UNITS_PER_BLOCK;
    y < limit
}

} // verus!
