use pumpkin_entity::attribute::{
    resolve, ActiveEffect, Attribute, AttributeModifierSlot, AttributeNoteFoundError,
    AttributeValue, EffectModifier, EquippedStack, Modifier, Operation,
};
use pumpkin_entity::attribute_manager::{AttributeInfo, AttributeManager, AttributeRegistry};
use pumpkin_entity::command::AttributeArgumentConsumer;

/// Attribute values as the server holds them.
#[derive(Clone, Copy, Debug, PartialEq)]
struct Real(f64);

impl AttributeValue for Real {
    fn add_spec(self, _o: Real) -> Real {
        unreachable!()
    }
    fn mul_spec(self, _o: Real) -> Real {
        unreachable!()
    }
    fn from_count_spec(_n: u16) -> Real {
        unreachable!()
    }
    fn add(self, o: Real) -> Real {
        Real(self.0 + o.0)
    }
    fn mul(self, o: Real) -> Real {
        Real(self.0 * o.0)
    }
    fn from_count(n: u16) -> Real {
        Real(f64::from(n))
    }
}

const ARMOR: Attribute = Attribute { id: 1 };
const SPEED: Attribute = Attribute { id: 2 };

fn item(attribute: Attribute, amount: f64, operation: Operation, slot: AttributeModifierSlot) -> Modifier<Real> {
    Modifier { attribute, amount: Real(amount), operation, slot }
}

fn store() -> AttributeManager<Real> {
    AttributeManager::builder().add(ARMOR, Real(10.0)).add(SPEED, Real(0.1)).build()
}

fn close(a: Real, b: f64) -> bool {
    (a.0 - b).abs() < 1e-9
}

#[test]
fn no_modifiers_resolves_to_base() {
    let m = store();
    let base = m.get_base(ARMOR).unwrap();
    let r = m.get_modified(ARMOR, &vec![], None, &vec![]).unwrap();
    assert_eq!(r, base);
    // modifiers of another attribute or another slot change nothing
    let eq = vec![EquippedStack {
        slot: 2,
        modifiers: vec![
            item(SPEED, 5.0, Operation::AddValue, AttributeModifierSlot::Any),
            item(ARMOR, 5.0, Operation::AddValue, AttributeModifierSlot::MainHand),
        ],
    }];
    assert_eq!(m.get_modified(ARMOR, &eq, None, &vec![]).unwrap(), base);
}

#[test]
fn multiplied_base_uses_original_base() {
    let eq = vec![EquippedStack {
        slot: 0,
        modifiers: vec![
            item(ARMOR, 5.0, Operation::AddValue, AttributeModifierSlot::Any),
            item(ARMOR, 0.5, Operation::AddMultipliedBase, AttributeModifierSlot::Any),
        ],
    }];
    let r = resolve(ARMOR, Real(10.0), &eq, None, &vec![]);
    assert!(close(r, 20.0), "{:?}", r);
}

#[test]
fn multiplied_total_compounds() {
    let eq = vec![EquippedStack {
        slot: 0,
        modifiers: vec![
            item(ARMOR, 0.1, Operation::AddMultipliedTotal, AttributeModifierSlot::Any),
            item(ARMOR, 0.1, Operation::AddMultipliedTotal, AttributeModifierSlot::Any),
        ],
    }];
    let r = resolve(ARMOR, Real(10.0), &eq, None, &vec![]);
    assert!(close(r, 12.1), "{:?}", r);
}

#[test]
fn reset_base_restores_default() {
    let mut m = store();
    m.set_base(ARMOR, Real(3.0)).unwrap();
    assert_eq!(m.get_base(ARMOR).unwrap(), Real(3.0));
    assert_eq!(m.reset_base(ARMOR).unwrap(), Real(10.0));
    assert_eq!(m.get_base(ARMOR).unwrap(), Real(10.0));
}

#[test]
fn missing_attribute_is_an_error() {
    let mut m = store();
    let other = Attribute { id: 9 };
    assert_eq!(m.get_base(other), Err(AttributeNoteFoundError));
    assert_eq!(m.set_base(other, Real(1.0)), Err(AttributeNoteFoundError));
    assert_eq!(m.reset_base(other), Err(AttributeNoteFoundError));
    assert_eq!(m.get_modified(other, &vec![], None, &vec![]), Err(AttributeNoteFoundError));
}

#[test]
fn later_default_wins_in_builder() {
    let m: AttributeManager<i64> = AttributeManager::builder().add(ARMOR, 1).add(ARMOR, 7).build();
    assert_eq!(m.get_base(ARMOR), Ok(7));
    assert_eq!(m.get_base(SPEED), Err(AttributeNoteFoundError));
}

#[test]
fn slot_predicates_follow_slot_indices() {
    assert!(AttributeModifierSlot::Hand.accepts(0));
    assert!(AttributeModifierSlot::Hand.accepts(1));
    assert!(!AttributeModifierSlot::Hand.accepts(2));
    assert!(AttributeModifierSlot::Armor.accepts(2));
    assert!(AttributeModifierSlot::Armor.accepts(5));
    assert!(!AttributeModifierSlot::Armor.accepts(6));
    assert!(AttributeModifierSlot::Body.accepts(6));
    assert!(AttributeModifierSlot::Saddle.accepts(7));
    assert!(AttributeModifierSlot::Any.accepts(7));
    assert!(!AttributeModifierSlot::OffHand.accepts(0));
}

#[test]
fn main_hand_applies_first_as_slot_zero() {
    // main hand (slot 0): x2 of the running value, then off hand (slot 1): +2
    let eq = vec![EquippedStack {
        slot: 1,
        modifiers: vec![item(ARMOR, 2.0, Operation::AddValue, AttributeModifierSlot::OffHand)],
    }];
    let main = vec![item(ARMOR, 1.0, Operation::AddMultipliedTotal, AttributeModifierSlot::MainHand)];
    let r = resolve(ARMOR, Real(10.0), &eq, Some(main), &vec![]);
    assert_eq!(r, Real(22.0));
    let whole: Vec<EquippedStack<i64>> = vec![EquippedStack {
        slot: 1,
        modifiers: vec![Modifier { attribute: ARMOR, amount: 2, operation: Operation::AddValue, slot: AttributeModifierSlot::OffHand }],
    }];
    let main = vec![Modifier { attribute: ARMOR, amount: 1, operation: Operation::AddMultipliedTotal, slot: AttributeModifierSlot::MainHand }];
    assert_eq!(resolve(ARMOR, 10i64, &whole, Some(main), &vec![]), 22);
}

#[test]
fn equipment_applies_in_slot_order() {
    // off hand (1) +2, then chest (4) x1 of the running value: (10 + 2) * 2
    let eq = vec![
        EquippedStack {
            slot: 1,
            modifiers: vec![item(ARMOR, 2.0, Operation::AddValue, AttributeModifierSlot::OffHand)],
        },
        EquippedStack {
            slot: 4,
            modifiers: vec![item(ARMOR, 1.0, Operation::AddMultipliedTotal, AttributeModifierSlot::Chest)],
        },
    ];
    assert_eq!(resolve(ARMOR, Real(10.0), &eq, None, &vec![]), Real(24.0));
}

#[test]
fn effect_amount_scales_with_amplifier() {
    // amplifier 2: amount 3 * (2 + 1) = 9
    let effects = vec![ActiveEffect {
        effect_id: 5,
        modifiers: vec![EffectModifier { attribute: ARMOR, base_value: Real(3.0), operation: Operation::AddValue }],
        amplifier: 2,
    }];
    let r = resolve(ARMOR, Real(10.0), &vec![], None, &effects);
    assert_eq!(r, Real(19.0));
}

#[test]
fn effects_apply_after_equipment() {
    let eq = vec![EquippedStack {
        slot: 4,
        modifiers: vec![item(ARMOR, 4.0, Operation::AddValue, AttributeModifierSlot::Chest)],
    }];
    let effects = vec![ActiveEffect {
        effect_id: 5,
        modifiers: vec![EffectModifier { attribute: ARMOR, base_value: Real(0.5), operation: Operation::AddMultipliedTotal }],
        amplifier: 0,
    }];
    let r = resolve(ARMOR, Real(10.0), &eq, None, &effects);
    assert_eq!(r, Real(21.0));
}

#[test]
fn whole_number_values_resolve_exactly() {
    let eq = vec![EquippedStack {
        slot: 5,
        modifiers: vec![
            Modifier { attribute: ARMOR, amount: 3i64, operation: Operation::AddValue, slot: AttributeModifierSlot::Head },
            Modifier { attribute: ARMOR, amount: 2i64, operation: Operation::AddMultipliedBase, slot: AttributeModifierSlot::Armor },
        ],
    }];
    assert_eq!(resolve(ARMOR, 10i64, &eq, None, &vec![]), 33);
}

#[test]
fn registry_fallbacks() {
    let reg = AttributeRegistry::new(vec![
        AttributeInfo { attribute: ARMOR, fallback: 0i64 },
        AttributeInfo { attribute: SPEED, fallback: 5i64 },
    ])
    .unwrap();
    assert_eq!(reg.get_fallback(SPEED), Some(5));
    assert_eq!(reg.get_fallback(Attribute { id: 3 }), None);
    let m = AttributeManager::builder().add_with_fallback_value(SPEED, &reg).build();
    assert_eq!(m.get_base(SPEED), Ok(5));
    let dup = AttributeRegistry::new(vec![
        AttributeInfo { attribute: ARMOR, fallback: 0i64 },
        AttributeInfo { attribute: ARMOR, fallback: 1i64 },
    ]);
    assert!(dup.is_none());
}

#[test]
fn attribute_argument_names() {
    let names = vec![
        ("minecraft:armor".to_string(), ARMOR),
        ("minecraft:movement_speed".to_string(), SPEED),
        ("custom:armor".to_string(), Attribute { id: 7 }),
    ];
    let c = AttributeArgumentConsumer;
    assert_eq!(c.consume("armor", &names), Some(("minecraft:armor".to_string(), ARMOR)));
    assert_eq!(
        c.consume("minecraft:movement_speed", &names),
        Some(("minecraft:movement_speed".to_string(), SPEED))
    );
    assert_eq!(c.consume("custom:armor", &names), Some(("custom:armor".to_string(), Attribute { id: 7 })));
    assert_eq!(c.consume("luck", &names), None);
    assert_eq!(c.consume("other:armor", &names), None);
}

#[test]
fn multiplied_base_in_an_effect_reads_the_base() {
    let eq = vec![EquippedStack {
        slot: 0,
        modifiers: vec![item(ARMOR, 5.0, Operation::AddValue, AttributeModifierSlot::MainHand)],
    }];
    let effects = vec![ActiveEffect {
        effect_id: 5,
        modifiers: vec![EffectModifier { attribute: ARMOR, base_value: Real(0.5), operation: Operation::AddMultipliedBase }],
        amplifier: 0,
    }];
    assert_eq!(resolve(ARMOR, Real(10.0), &eq, None, &effects), Real(20.0));
}

#[test]
fn effects_apply_in_id_order() {
    // effect 1: +2; effect 3: x1 of the running value: (10 + 2) * 2
    let effects = vec![
        ActiveEffect {
            effect_id: 1,
            modifiers: vec![EffectModifier { attribute: ARMOR, base_value: Real(2.0), operation: Operation::AddValue }],
            amplifier: 0,
        },
        ActiveEffect {
            effect_id: 3,
            modifiers: vec![EffectModifier { attribute: ARMOR, base_value: Real(1.0), operation: Operation::AddMultipliedTotal }],
            amplifier: 0,
        },
    ];
    assert_eq!(resolve(ARMOR, Real(10.0), &vec![], None, &effects), Real(24.0));
}
