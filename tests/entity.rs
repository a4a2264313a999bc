use pumpkin_entity::block_registry::{
    get_block_and_state_by_state_id, get_block_by_id, get_block_by_item, get_block_by_state_id,
    get_state_by_state_id, Block, BlockRegistry, Property, State,
};
use pumpkin_entity::entity::{
    fire_tick, flag_byte, is_out_of_world, jump_velocity_multiplier, velocity_multiplier, Entity, EntityDimensions, FireTick, Flag, PortalAction,
    PortalUse, PositionTarget, RemovalReason,
};
use pumpkin_entity::facing::{get_entity_facing_order, get_flipped_rotation_16, Facing, LookSigns};
use pumpkin_entity::geometry::{BlockPos, Vector3, UNITS_PER_BLOCK};
use pumpkin_entity::protocol::CUpdateAttributes;

#[test]
fn removal_reasons() {
    assert!(RemovalReason::Killed.should_destroy());
    assert!(RemovalReason::Discarded.should_destroy());
    assert!(!RemovalReason::UnloadedToChunk.should_destroy());
    assert!(!RemovalReason::ChangedDimension.should_destroy());
    assert!(RemovalReason::UnloadedToChunk.should_save());
    assert!(!RemovalReason::UnloadedWithPlayer.should_save());
    assert!(!RemovalReason::Killed.should_save());
}

#[test]
fn flag_bytes() {
    assert_eq!(Flag::OnFire.bit(), 0);
    assert_eq!(Flag::Sprinting.bit(), 3);
    assert_eq!(Flag::FallFlying.bit(), 7);
    assert_eq!(flag_byte(Flag::Sneaking, true), 2);
    assert_eq!(flag_byte(Flag::Glowing, true), 64);
    assert_eq!(flag_byte(Flag::Glowing, false), 0);
}

fn entity(is_player: bool, fire_immune: bool) -> Entity {
    Entity::new(
        42,
        Vector3 { x: 0, y: 0, z: 0 },
        EntityDimensions { width: 600000, height: 1800000 },
        is_player,
        fire_immune,
    )
}

#[test]
fn portal_cooldowns() {
    assert_eq!(entity(true, false).default_portal_cooldown(), 10);
    assert_eq!(entity(false, false).default_portal_cooldown(), 300);
    let mut e = entity(false, false);
    e.portal_cooldown = 5;
    assert_eq!(e.tick_portal(None), PortalAction::Stay);
    assert_eq!(e.portal_cooldown, 4);
    assert_eq!(e.tick_portal(Some((false, 7))), PortalAction::Stay);
    assert_eq!(e.portal_cooldown, 3);
    assert_eq!(e.tick_portal(Some((false, 0))), PortalAction::Forget);
    assert_eq!(e.portal_cooldown, 2);
    assert_eq!(e.tick_portal(Some((true, 80))), PortalAction::Teleport);
    assert_eq!(e.portal_cooldown, 300);
    e.portal_cooldown = 0;
    assert_eq!(e.tick_portal(None), PortalAction::Stay);
    assert_eq!(e.portal_cooldown, 0);
}

#[test]
fn touching_a_portal() {
    let mut p = entity(true, false);
    p.portal_cooldown = 2;
    assert_eq!(p.try_use_portal(true), PortalUse::CoolingDown);
    assert_eq!(p.portal_cooldown, 10);
    p.portal_cooldown = 0;
    assert_eq!(p.try_use_portal(false), PortalUse::Enter);
    assert_eq!(p.try_use_portal(true), PortalUse::Update);
    assert_eq!(p.portal_cooldown, 0);
}

#[test]
fn burning() {
    let mut e = entity(false, false);
    assert_eq!(e.fire_ticks, -1);
    assert_eq!(e.tick_fire(), FireTick { fire_ticks: -1, damage: false, on_fire: false });
    e.set_on_fire_for_ticks(40);
    assert_eq!(e.fire_ticks, 40);
    e.set_on_fire_for_ticks(10);
    assert_eq!(e.fire_ticks, 40);
    assert_eq!(e.tick_fire(), FireTick { fire_ticks: 39, damage: true, on_fire: true });
    assert_eq!(e.tick_fire(), FireTick { fire_ticks: 38, damage: false, on_fire: true });
    e.extinguish();
    assert_eq!(e.fire_ticks, 0);
    assert_eq!(e.tick_fire(), FireTick { fire_ticks: 0, damage: false, on_fire: false });
    assert_eq!(fire_tick(1, false), FireTick { fire_ticks: 0, damage: false, on_fire: false });
    let mut immune = entity(false, true);
    immune.set_on_fire_for_ticks(6);
    assert_eq!(immune.tick_fire(), FireTick { fire_ticks: 2, damage: false, on_fire: true });
    assert_eq!(immune.tick_fire(), FireTick { fire_ticks: 0, damage: false, on_fire: false });
}

#[test]
fn out_of_world() {
    assert!(is_out_of_world(-129 * UNITS_PER_BLOCK, -64));
    assert!(!is_out_of_world(-128 * UNITS_PER_BLOCK, -64));
}

#[test]
fn position_target_range() {
    let none = PositionTarget { pos: BlockPos { x: 0, y: 0, z: 0 }, range: -1 };
    assert!(none.is_in_position_target_range_pos(BlockPos { x: 1000, y: 0, z: 0 }));
    let t = PositionTarget { pos: BlockPos { x: 0, y: 0, z: 0 }, range: 5 };
    assert!(t.is_in_position_target_range_pos(BlockPos { x: 3, y: 0, z: 3 }));
    assert!(!t.is_in_position_target_range_pos(BlockPos { x: 3, y: 4, z: 0 }));
}

fn state(id: u16) -> State {
    State {
        id,
        air: false,
        luminance: 0,
        burnable: false,
        opacity: None,
        replaceable: false,
        collision_shapes: vec![],
        block_entity_type: None,
    }
}

fn block(id: u16, item_id: u16, states: Vec<State>) -> Block {
    Block {
        id,
        item_id,
        hardness_bits: 0,
        wall_variant_id: None,
        translation_key: String::new(),
        name: format!("block_{id}"),
        properties: vec![Property { name: "lit".to_string(), values: vec!["true".to_string(), "false".to_string()] }],
        default_state_id: states[0].id,
        states,
    }
}

#[test]
fn registry_lookups() {
    let reg = BlockRegistry {
        blocks: vec![
            block(0, 0, vec![state(0)]),
            block(1, 5, vec![state(1), state(2), state(3)]),
            block(2, 5, vec![state(4)]),
        ],
    };
    assert_eq!(get_state_by_state_id(&reg, 2).unwrap().id, 2);
    assert!(get_state_by_state_id(&reg, 9).is_none());
    assert_eq!(get_block_by_state_id(&reg, 3).unwrap().id, 1);
    let (b, s) = get_block_and_state_by_state_id(&reg, 4).unwrap();
    assert_eq!((b.id, s.id), (2, 4));
    assert_eq!(get_block_by_id(&reg, 1).unwrap().name, "block_1");
    assert!(get_block_by_id(&reg, 7).is_none());
    assert_eq!(get_block_by_item(&reg, 5).unwrap().id, 2);
    assert!(get_block_by_item(&reg, 6).is_none());
}

#[test]
fn update_attributes_packet() {
    assert_eq!(CUpdateAttributes::new(), CUpdateAttributes {});
}

#[test]
fn flipped_rotation() {
    assert_eq!(get_flipped_rotation_16(0), 8);
    assert_eq!(get_flipped_rotation_16(9), 1);
    assert_eq!(get_flipped_rotation_16(15), 7);
}

#[test]
fn facing_order_looking_down_south() {
    // pitch 90 (straight down): up/down dominates, then south/north, then east/west
    let s = LookSigns {
        east: false,
        up: false,
        south: true,
        x_over_z: false,
        y_over_x_weight: true,
        z_weight_over_y: false,
        y_over_z_weight: true,
        x_weight_over_y: false,
    };
    assert_eq!(
        get_entity_facing_order(s),
        [Facing::Down, Facing::South, Facing::West, Facing::East, Facing::North, Facing::Up]
    );
    // level, facing east-ish
    let s = LookSigns {
        east: true,
        up: false,
        south: true,
        x_over_z: true,
        y_over_x_weight: false,
        z_weight_over_y: true,
        y_over_z_weight: false,
        x_weight_over_y: true,
    };
    assert_eq!(
        get_entity_facing_order(s),
        [Facing::East, Facing::South, Facing::Down, Facing::Up, Facing::North, Facing::West]
    );
}

#[test]
fn new_entities_are_alive_until_removed() {
    let mut e = entity(false, false);
    assert_eq!(e.entity_id, 42);
    assert!(e.is_alive());
    assert!(!e.is_removed());
    e.remove(RemovalReason::Killed);
    assert!(e.is_removed());
    assert!(!e.is_alive());
    assert_eq!(e.removal_reason, Some(RemovalReason::Killed));
}

#[test]
fn block_multipliers() {
    // soul sand at the feet
    assert_eq!(velocity_multiplier(400000, false, 1000000), 400000);
    // air at the feet: the block below decides
    assert_eq!(velocity_multiplier(1000000, false, 400000), 400000);
    // water at the feet keeps its own
    assert_eq!(velocity_multiplier(1000000, true, 400000), 1000000);
    assert_eq!(jump_velocity_multiplier(1000000, 500000), 500000);
    assert_eq!(jump_velocity_multiplier(500000, 1000000), 500000);
}
