use vstd::prelude::*;

verus! {

/// The arithmetic that attribute values need.
///
/// The resolver is written against this trait, so what it computes is stated
/// exactly for every number type: the server runs it on `f64`, and `i64`
/// (whole-number attributes, wrapping on overflow) is provided here.
///
/// The `*_spec` methods are what the contracts speak of. A type implemented
/// in code the verifier does not see must still define them, as functions
/// that are never called, and its `add`, `mul` and `from_count` are then
/// trusted to be the operations they name.
pub trait AttributeValue: Copy + Sized {
    spec fn add_spec(self, o: Self) -> Self;

    spec fn mul_spec(self, o: Self) -> Self;

    /// The value that stands for the count `n`.
    spec fn from_count_spec(n: u16) -> Self;

    fn add(self, o: Self) -> (r: Self)
        ensures
            r == self.add_spec(o),
    ;

    fn mul(self, o: Self) -> (r: Self)
        ensures
            r == self.mul_spec(o),
    ;

    fn from_count(n: u16) -> (r: Self)
        ensures
            r == Self::from_count_spec(n),
    ;
}

impl AttributeValue for i64 {
    open spec fn add_spec(self, o: i64) -> i64 {
        self.wrapping_add(o)
    }

    open spec fn mul_spec(self, o: i64) -> i64 {
        self.wrapping_mul(o)
    }

    open spec fn from_count_spec(n: u16) -> i64 {
        n as i64
    }

    fn add(self, o: i64) -> (r: i64) {
        self.wrapping_add(o)
    }

    fn mul(self, o: i64) -> (r: i64) {
        self.wrapping_mul(o)
    }

    fn from_count(n: u16) -> (r: i64) {
        n as i64
    }
}

/// An attribute identifier (max health, attack damage, ...), interned to a
/// small integer by the static registry.
#[derive(Clone, Copy, Debug, PartialEq, Eq, Structural)]
pub struct Attribute {
    pub id: u8,
}

/// Returned when an entity's attribute store has no entry for an attribute.
#[derive(Clone, Copy, Debug, PartialEq, Eq, Structural)]
pub struct AttributeNoteFoundError;

/// How a modifier changes the running value.
#[derive(Clone, Copy, Debug, PartialEq, Eq, Structural)]
pub enum Operation {
    /// `modified + amount`
    AddValue,
    /// `modified + amount * base`, with the base read before any modifier
    AddMultipliedBase,
    /// `modified + amount * modified`, compounding
    AddMultipliedTotal,
}

/// One modifier step on the running value `modified`, with the entity's
/// unmodified `base`.
pub open spec fn apply_spec<V: AttributeValue>(
    op: Operation,
    amount: V,
    base: V,
    modified: V,
) -> V {
    match op {
        Operation::AddValue => modified.add_spec(amount),
        Operation::AddMultipliedBase => modified.add_spec(amount.mul_spec(base)),
        Operation::AddMultipliedTotal => modified.add_spec(amount.mul_spec(modified)),
    }
}

/// Applies one modifier step.
pub fn apply_operation<V: AttributeValue>(op: Operation, amount: V, base: V, modified: V) -> (r: V)
    ensures
        r == apply_spec(op, amount, base, modified),
{
    match op {
        Operation::AddValue => modified.add(amount),
        Operation::AddMultipliedBase => modified.add(amount.mul(base)),
        Operation::AddMultipliedTotal => modified.add(amount.mul(modified)),
    }
}

/// The equipment slots a modifier of an item is active in.
///
/// Slot indices: main hand 0, off hand 1, feet 2, legs 3, chest 4, head 5,
/// body 6, saddle 7.
#[derive(Clone, Copy, Debug, PartialEq, Eq, Structural)]
pub enum AttributeModifierSlot {
    Any,
    MainHand,
    OffHand,
    Hand,
    Feet,
    Legs,
    Chest,
    Head,
    Armor,
    Body,
    Saddle,
}

impl AttributeModifierSlot {
    pub open spec fn accepts_spec(self, slot: u8) -> bool {
        match self {
            AttributeModifierSlot::Any => true,
            AttributeModifierSlot::MainHand => slot == 0,
            AttributeModifierSlot::OffHand => slot == 1,
            AttributeModifierSlot::Hand => slot <= 1,
            AttributeModifierSlot::Feet => slot == 2,
            AttributeModifierSlot::Legs => slot == 3,
            AttributeModifierSlot::Chest => slot == 4,
            AttributeModifierSlot::Head => slot == 5,
            AttributeModifierSlot::Armor => 2 <= slot <= 5,
            AttributeModifierSlot::Body => slot == 6,
            AttributeModifierSlot::Saddle => slot == 7,
        }
    }

    /// Whether a modifier of this kind is active for a stack in slot `slot`.
    pub fn accepts(&self, slot: u8) -> (r: bool)
        ensures
            r == self.accepts_spec(slot),
    {
        match self {
            AttributeModifierSlot::Any => true,
            AttributeModifierSlot::MainHand => slot == 0,
            AttributeModifierSlot::OffHand => slot == 1,
            AttributeModifierSlot::Hand => slot <= 1,
            AttributeModifierSlot::Feet => slot == 2,
            AttributeModifierSlot::Legs => slot == 3,
            AttributeModifierSlot::Chest => slot == 4,
            AttributeModifierSlot::Head => slot == 5,
            AttributeModifierSlot::Armor => 2 <= slot && slot <= 5,
            AttributeModifierSlot::Body => slot == 6,
            AttributeModifierSlot::Saddle => slot == 7,
        }
    }
}

/// An attribute modifier carried by an item stack.
#[derive(Clone, Copy, Debug)]
pub struct Modifier<V> {
    pub attribute: Attribute,
    pub amount: V,
    pub operation: Operation,
    pub slot: AttributeModifierSlot,
}

/// The attribute modifiers of the stack in one equipment slot.
#[derive(Clone, Debug)]
pub struct EquippedStack<V> {
    /// The slot index, main hand 0 through saddle 7.
    pub slot: u8,
    /// The stack's modifiers; empty for a stack without any.
    pub modifiers: Vec<Modifier<V>>,
}

/// An attribute modifier of a status effect, scaled by the effect's level.
#[derive(Clone, Copy, Debug)]
pub struct EffectModifier<V> {
    pub attribute: Attribute,
    pub base_value: V,
    pub operation: Operation,
}

/// A status effect active on an entity: its id, its modifiers and its
/// amplifier.
#[derive(Clone, Debug)]
pub struct ActiveEffect<V> {
    /// The status effect's registry id, the key the effects are ordered by.
    pub effect_id: u8,
    pub modifiers: Vec<EffectModifier<V>>,
    pub amplifier: u8,
}

/// The running value after the modifiers `mods` of a stack in slot `slot`,
/// in list order; those of another attribute or not active in that slot are
/// skipped.
pub open spec fn apply_stack_spec<V: AttributeValue>(
    attr: Attribute,
    slot: u8,
    mods: Seq<Modifier<V>>,
    base: V,
    modified: V,
) -> V
    decreases mods.len(),
{
    if mods.len() == 0 {
        modified
    } else {
        let m = mods.last();
        let prev = apply_stack_spec(attr, slot, mods.drop_last(), base, modified);
        if m.attribute == attr && m.slot.accepts_spec(slot) {
            apply_spec(m.operation, m.amount, base, prev)
        } else {
            prev
        }
    }
}

/// The running value after the stacks `stacks`, in order.
pub open spec fn apply_equipment_spec<V: AttributeValue>(
    attr: Attribute,
    stacks: Seq<EquippedStack<V>>,
    base: V,
    modified: V,
) -> V
    decreases stacks.len(),
{
    if stacks.len() == 0 {
        modified
    } else {
        let s = stacks.last();
        apply_stack_spec(
            attr,
            s.slot,
            s.modifiers@,
            base,
            apply_equipment_spec(attr, stacks.drop_last(), base, modified),
        )
    }
}

/// The amount of an effect's modifier: its base value times (amplifier + 1).
pub open spec fn effect_amount_spec<V: AttributeValue>(base_value: V, amplifier: u8) -> V {
    base_value.mul_spec(V::from_count_spec((amplifier + 1) as u16))
}

/// The running value after the modifiers `mods` of one effect.
pub open spec fn apply_effect_spec<V: AttributeValue>(
    attr: Attribute,
    amplifier: u8,
    mods: Seq<EffectModifier<V>>,
    base: V,
    modified: V,
) -> V
    decreases mods.len(),
{
    if mods.len() == 0 {
        modified
    } else {
        let m = mods.last();
        let prev = apply_effect_spec(attr, amplifier, mods.drop_last(), base, modified);
        if m.attribute == attr {
            apply_spec(m.operation, effect_amount_spec(m.base_value, amplifier), base, prev)
        } else {
            prev
        }
    }
}

/// The running value after the effects `effects`, in order.
pub open spec fn apply_effects_spec<V: AttributeValue>(
    attr: Attribute,
    effects: Seq<ActiveEffect<V>>,
    base: V,
    modified: V,
) -> V
    decreases effects.len(),
{
    if effects.len() == 0 {
        modified
    } else {
        let e = effects.last();
        apply_effect_spec(
            attr,
            e.amplifier,
            e.modifiers@,
            base,
            apply_effects_spec(attr, effects.drop_last(), base, modified),
        )
    }
}

/// The value of `attr` for an entity whose base value is `base`: the
/// equipment's modifiers first, stack by stack, then the effects'.
pub open spec fn resolve_spec<V: AttributeValue>(
    attr: Attribute,
    base: V,
    equipment: Seq<EquippedStack<V>>,
    effects: Seq<ActiveEffect<V>>,
) -> V {
    apply_effects_spec(attr, effects, base, apply_equipment_spec(attr, equipment, base, base))
}

/// Applies the modifiers of one stack to the running value.
pub fn apply_stack<V: AttributeValue>(
    attr: Attribute,
    stack: &EquippedStack<V>,
    base: V,
    modified: V,
) -> (r: V)
    ensures
        r == apply_stack_spec(attr, stack.slot, stack.modifiers@, base, modified),
{
    let mut acc = modified;
    let mut i: usize = 0;
    while i < stack.modifiers.len()
        invariant
            0 <= i <= stack.modifiers@.len(),
            acc == apply_stack_spec(attr, stack.slot, stack.modifiers@.take(i as int), base, modified),
        decreases stack.modifiers@.len() - i,
    {
        let m = &stack.modifiers[i];
        proof {
            let next = stack.modifiers@.take(i + 1);
            assert(next.drop_last() =~= stack.modifiers@.take(i as int));
            assert(next.last() == stack.modifiers@[i as int]);
        }
        if m.attribute == attr && m.slot.accepts(stack.slot) {
            acc = apply_operation(m.operation, m.amount, base, acc);
        }
        i = i + 1;
    }
    assert(stack.modifiers@.take(i as int) =~= stack.modifiers@);
    acc
}

/// Applies the modifiers of one status effect to the running value.
pub fn apply_effect<V: AttributeValue>(
    attr: Attribute,
    effect: &ActiveEffect<V>,
    base: V,
    modified: V,
) -> (r: V)
    ensures
        r == apply_effect_spec(attr, effect.amplifier, effect.modifiers@, base, modified),
{
    let mut acc = modified;
    let mut i: usize = 0;
    while i < effect.modifiers.len()
        invariant
            0 <= i <= effect.modifiers@.len(),
            acc == apply_effect_spec(
                attr,
                effect.amplifier,
                effect.modifiers@.take(i as int),
                base,
                modified,
            ),
        decreases effect.modifiers@.len() - i,
    {
        let m = &effect.modifiers[i];
        proof {
            let next = effect.modifiers@.take(i + 1);
            assert(next.drop_last() =~= effect.modifiers@.take(i as int));
            assert(next.last() == effect.modifiers@[i as int]);
        }
        if m.attribute == attr {
            let level = V::from_count(effect.amplifier as u16 + 1);
            let amount = m.base_value.mul(level);
            acc = apply_operation(m.operation, amount, base, acc);
        }
        i = i + 1;
    }
    assert(effect.modifiers@.take(i as int) =~= effect.modifiers@);
    acc
}

/// Whether no modifier among `stacks` and `effects` is active for `attr`.
pub open spec fn no_active_modifier<V>(
    attr: Attribute,
    stacks: Seq<EquippedStack<V>>,
    effects: Seq<ActiveEffect<V>>,
) -> bool {
    &&& forall|i: int, k: int|
        0 <= i < stacks.len() && 0 <= k < stacks[i].modifiers@.len() ==> {
            let m = #[trigger] stacks[i].modifiers@[k];
            !(m.attribute == attr && m.slot.accepts_spec(stacks[i].slot))
        }
    &&& forall|i: int, k: int|
        0 <= i < effects.len() && 0 <= k < effects[i].modifiers@.len()
            ==> (#[trigger] effects[i].modifiers@[k]).attribute != attr
}

proof fn lemma_inactive_stack<V: AttributeValue>(
    attr: Attribute,
    slot: u8,
    mods: Seq<Modifier<V>>,
    base: V,
    modified: V,
)
    requires
        forall|k: int|
            0 <= k < mods.len() ==> !(mods[k].attribute == attr && mods[k].slot.accepts_spec(slot)),
    ensures
        apply_stack_spec(attr, slot, mods, base, modified) == modified,
    decreases mods.len(),
{
    if mods.len() > 0 {
        lemma_inactive_stack(attr, slot, mods.drop_last(), base, modified);
    }
}

proof fn lemma_inactive_effect<V: AttributeValue>(
    attr: Attribute,
    amplifier: u8,
    mods: Seq<EffectModifier<V>>,
    base: V,
    modified: V,
)
    requires
        forall|k: int| 0 <= k < mods.len() ==> mods[k].attribute != attr,
    ensures
        apply_effect_spec(attr, amplifier, mods, base, modified) == modified,
    decreases mods.len(),
{
    if mods.len() > 0 {
        lemma_inactive_effect(attr, amplifier, mods.drop_last(), base, modified);
    }
}

/// With no modifier active for the attribute, resolution gives the base
/// value unchanged.
pub proof fn resolve_without_modifiers_is_base<V: AttributeValue>(
    attr: Attribute,
    base: V,
    stacks: Seq<EquippedStack<V>>,
    effects: Seq<ActiveEffect<V>>,
)
    requires
        no_active_modifier(attr, stacks, effects),
    ensures
        resolve_spec(attr, base, stacks, effects) == base,
    decreases stacks.len() + effects.len(),
{
    if effects.len() > 0 {
        let rest = effects.drop_last();
        assert(no_active_modifier(attr, stacks, rest)) by {
            assert forall|i: int, k: int|
                0 <= i < rest.len() && 0 <= k < rest[i].modifiers@.len() implies (#[trigger] rest[i].modifiers@[k]).attribute
                    != attr by {
                assert(rest[i] == effects[i]);
            }
        }
        resolve_without_modifiers_is_base(attr, base, stacks, rest);
        let e = effects.last();
        assert forall|k: int| 0 <= k < e.modifiers@.len() implies e.modifiers@[k].attribute
            != attr by {
            assert(effects[effects.len() - 1] == e);
        }
        lemma_inactive_effect(attr, e.amplifier, e.modifiers@, base, resolve_spec(attr, base, stacks, rest));
    } else if stacks.len() > 0 {
        let rest = stacks.drop_last();
        assert(no_active_modifier(attr, rest, effects)) by {
            assert forall|i: int, k: int|
                0 <= i < rest.len() && 0 <= k < rest[i].modifiers@.len() implies {
                let m = #[trigger] rest[i].modifiers@[k];
                !(m.attribute == attr && m.slot.accepts_spec(rest[i].slot))
            } by {
                assert(rest[i] == stacks[i]);
            }
        }
        resolve_without_modifiers_is_base(attr, base, rest, effects);
        let s = stacks.last();
        assert forall|k: int| 0 <= k < s.modifiers@.len() implies !(s.modifiers@[k].attribute == attr
            && s.modifiers@[k].slot.accepts_spec(s.slot)) by {
            assert(stacks[stacks.len() - 1] == s);
        }
        lemma_inactive_stack(attr, s.slot, s.modifiers@, base, apply_equipment_spec(attr, rest, base, base));
    }
}

/// An active AddMultipliedBase modifier adds its amount times the entity's
/// base value, whatever the modifiers before it made of the running value.
pub proof fn multiplied_base_reads_original_base<V: AttributeValue>(
    attr: Attribute,
    slot: u8,
    mods: Seq<Modifier<V>>,
    m: Modifier<V>,
    base: V,
    modified: V,
)
    requires
        m.attribute == attr,
        m.slot.accepts_spec(slot),
        m.operation == Operation::AddMultipliedBase,
    ensures
        apply_stack_spec(attr, slot, mods.push(m), base, modified) == apply_stack_spec(
            attr,
            slot,
            mods,
            base,
            modified,
        ).add_spec(m.amount.mul_spec(base)),
{
    assert(mods.push(m).drop_last() =~= mods);
}

/// An active AddMultipliedTotal modifier adds its amount times the running
/// value that the modifiers before it left, so such modifiers compound.
pub proof fn multiplied_total_compounds<V: AttributeValue>(
    attr: Attribute,
    slot: u8,
    mods: Seq<Modifier<V>>,
    m: Modifier<V>,
    base: V,
    modified: V,
)
    requires
        m.attribute == attr,
        m.slot.accepts_spec(slot),
        m.operation == Operation::AddMultipliedTotal,
    ensures
        ({
            let prev = apply_stack_spec(attr, slot, mods, base, modified);
            apply_stack_spec(attr, slot, mods.push(m), base, modified) == prev.add_spec(
                m.amount.mul_spec(prev),
            )
        }),
{
    assert(mods.push(m).drop_last() =~= mods);
}

/// The running value after the steps `steps` (operation, amount), in order.
pub open spec fn fold_steps<V: AttributeValue>(steps: Seq<(Operation, V)>, base: V, modified: V) -> V
    decreases steps.len(),
{
    if steps.len() == 0 {
        modified
    } else {
        let st = steps.last();
        apply_spec(st.0, st.1, base, fold_steps(steps.drop_last(), base, modified))
    }
}

/// The steps that the modifiers `mods` of a stack in slot `slot` give.
pub open spec fn stack_steps<V: AttributeValue>(attr: Attribute, slot: u8, mods: Seq<Modifier<V>>) -> Seq<
    (Operation, V),
>
    decreases mods.len(),
{
    if mods.len() == 0 {
        Seq::empty()
    } else {
        let m = mods.last();
        let prev = stack_steps(attr, slot, mods.drop_last());
        if m.attribute == attr && m.slot.accepts_spec(slot) {
            prev.push((m.operation, m.amount))
        } else {
            prev
        }
    }
}

/// The steps that the stacks `stacks` give, in order.
pub open spec fn equipment_steps<V: AttributeValue>(attr: Attribute, stacks: Seq<EquippedStack<V>>) -> Seq<
    (Operation, V),
>
    decreases stacks.len(),
{
    if stacks.len() == 0 {
        Seq::empty()
    } else {
        let st = stacks.last();
        equipment_steps(attr, stacks.drop_last()) + stack_steps(attr, st.slot, st.modifiers@)
    }
}

/// The steps that the modifiers `mods` of one effect give.
pub open spec fn effect_steps<V: AttributeValue>(attr: Attribute, amplifier: u8, mods: Seq<EffectModifier<V>>) -> Seq<
    (Operation, V),
>
    decreases mods.len(),
{
    if mods.len() == 0 {
        Seq::empty()
    } else {
        let m = mods.last();
        let prev = effect_steps(attr, amplifier, mods.drop_last());
        if m.attribute == attr {
            prev.push((m.operation, effect_amount_spec(m.base_value, amplifier)))
        } else {
            prev
        }
    }
}

/// The steps that the effects `effects` give, in order.
pub open spec fn effects_steps<V: AttributeValue>(attr: Attribute, effects: Seq<ActiveEffect<V>>) -> Seq<
    (Operation, V),
>
    decreases effects.len(),
{
    if effects.len() == 0 {
        Seq::empty()
    } else {
        let e = effects.last();
        effects_steps(attr, effects.drop_last()) + effect_steps(attr, e.amplifier, e.modifiers@)
    }
}

/// Every modifier step of a resolution, flattened: the equipment's, then the
/// effects'.
pub open spec fn resolution_steps<V: AttributeValue>(
    attr: Attribute,
    stacks: Seq<EquippedStack<V>>,
    effects: Seq<ActiveEffect<V>>,
) -> Seq<(Operation, V)> {
    equipment_steps(attr, stacks) + effects_steps(attr, effects)
}

proof fn lemma_fold_concat<V: AttributeValue>(a: Seq<(Operation, V)>, b: Seq<(Operation, V)>, base: V, m: V)
    ensures
        fold_steps(a + b, base, m) == fold_steps(b, base, fold_steps(a, base, m)),
    decreases b.len(),
{
    if b.len() == 0 {
        assert(a + b =~= a);
    } else {
        lemma_fold_concat(a, b.drop_last(), base, m);
        assert((a + b).drop_last() =~= a + b.drop_last());
        assert((a + b).last() == b.last());
    }
}

proof fn lemma_stack_fold<V: AttributeValue>(attr: Attribute, slot: u8, mods: Seq<Modifier<V>>, base: V, m: V)
    ensures
        apply_stack_spec(attr, slot, mods, base, m) == fold_steps(stack_steps(attr, slot, mods), base, m),
    decreases mods.len(),
{
    if mods.len() > 0 {
        lemma_stack_fold(attr, slot, mods.drop_last(), base, m);
        let prev = stack_steps(attr, slot, mods.drop_last());
        let md = mods.last();
        if md.attribute == attr && md.slot.accepts_spec(slot) {
            assert(prev.push((md.operation, md.amount)).drop_last() =~= prev);
        }
    }
}

proof fn lemma_effect_fold<V: AttributeValue>(
    attr: Attribute,
    amplifier: u8,
    mods: Seq<EffectModifier<V>>,
    base: V,
    m: V,
)
    ensures
        apply_effect_spec(attr, amplifier, mods, base, m) == fold_steps(
            effect_steps(attr, amplifier, mods),
            base,
            m,
        ),
    decreases mods.len(),
{
    if mods.len() > 0 {
        lemma_effect_fold(attr, amplifier, mods.drop_last(), base, m);
        let prev = effect_steps(attr, amplifier, mods.drop_last());
        let md = mods.last();
        if md.attribute == attr {
            assert(prev.push((md.operation, effect_amount_spec(md.base_value, amplifier))).drop_last() =~= prev);
        }
    }
}

proof fn lemma_equipment_fold<V: AttributeValue>(attr: Attribute, stacks: Seq<EquippedStack<V>>, base: V, m: V)
    ensures
        apply_equipment_spec(attr, stacks, base, m) == fold_steps(equipment_steps(attr, stacks), base, m),
    decreases stacks.len(),
{
    if stacks.len() > 0 {
        let st = stacks.last();
        lemma_equipment_fold(attr, stacks.drop_last(), base, m);
        lemma_fold_concat(
            equipment_steps(attr, stacks.drop_last()),
            stack_steps(attr, st.slot, st.modifiers@),
            base,
            m,
        );
        lemma_stack_fold(attr, st.slot, st.modifiers@, base, apply_equipment_spec(attr, stacks.drop_last(), base, m));
    }
}

proof fn lemma_effects_fold<V: AttributeValue>(attr: Attribute, effects: Seq<ActiveEffect<V>>, base: V, m: V)
    ensures
        apply_effects_spec(attr, effects, base, m) == fold_steps(effects_steps(attr, effects), base, m),
    decreases effects.len(),
{
    if effects.len() > 0 {
        let e = effects.last();
        lemma_effects_fold(attr, effects.drop_last(), base, m);
        lemma_fold_concat(
            effects_steps(attr, effects.drop_last()),
            effect_steps(attr, e.amplifier, e.modifiers@),
            base,
            m,
        );
        lemma_effect_fold(attr, e.amplifier, e.modifiers@, base, apply_effects_spec(attr, effects.drop_last(), base, m));
    }
}

/// Resolution is the fold of its flattened steps over the base value.
pub proof fn resolve_is_fold_of_steps<V: AttributeValue>(
    attr: Attribute,
    base: V,
    stacks: Seq<EquippedStack<V>>,
    effects: Seq<ActiveEffect<V>>,
)
    ensures
        resolve_spec(attr, base, stacks, effects) == fold_steps(
            resolution_steps(attr, stacks, effects),
            base,
            base,
        ),
{
    lemma_equipment_fold(attr, stacks, base, base);
    lemma_effects_fold(attr, effects, base, apply_equipment_spec(attr, stacks, base, base));
    lemma_fold_concat(equipment_steps(attr, stacks), effects_steps(attr, effects), base, base);
}

/// Wherever an AddMultipliedBase step stands among all the steps of a
/// resolution (equipment or effects), it adds its amount times the entity's
/// base value to the value the steps before it left, whatever they were.
pub proof fn multiplied_base_step_reads_base<V: AttributeValue>(
    attr: Attribute,
    base: V,
    stacks: Seq<EquippedStack<V>>,
    effects: Seq<ActiveEffect<V>>,
    before: Seq<(Operation, V)>,
    k: V,
    after: Seq<(Operation, V)>,
)
    requires
        resolution_steps(attr, stacks, effects) == before + seq![(Operation::AddMultipliedBase, k)] + after,
    ensures
        resolve_spec(attr, base, stacks, effects) == fold_steps(
            after,
            base,
            fold_steps(before, base, base).add_spec(k.mul_spec(base)),
        ),
{
    resolve_is_fold_of_steps(attr, base, stacks, effects);
    let mid = seq![(Operation::AddMultipliedBase, k)];
    lemma_fold_concat(before + mid, after, base, base);
    lemma_fold_concat(before, mid, base, base);
    let x = fold_steps(before, base, base);
    assert(mid.drop_last() =~= Seq::<(Operation, V)>::empty());
    assert(fold_steps(mid.drop_last(), base, x) == x);
    assert(mid.last() == (Operation::AddMultipliedBase, k));
    assert(fold_steps(mid, base, x) == x.add_spec(k.mul_spec(base)));
}

/// Whether the stacks come in strictly ascending slot order: the fixed slot
/// order, each slot at most once.
pub open spec fn slots_ascending<V>(stacks: Seq<EquippedStack<V>>) -> bool {
    forall|i: int, j: int| 0 <= i < j < stacks.len() ==> stacks[i].slot < stacks[j].slot
}

/// Whether the effects come in strictly ascending order of their ids: the
/// natural key order, each effect at most once.
pub open spec fn effects_ascending<V>(effects: Seq<ActiveEffect<V>>) -> bool {
    forall|i: int, j: int| 0 <= i < j < effects.len() ==> effects[i].effect_id < effects[j].effect_id
}

/// The stacks the resolver walks: the optional main-hand stack of an entity
/// whose main hand is kept apart from its equipment, as slot 0 and so first,
/// then the equipment.
pub open spec fn with_main_hand<V>(
    equipment: Seq<EquippedStack<V>>,
    main_hand: Option<Vec<Modifier<V>>>,
) -> Seq<EquippedStack<V>> {
    match main_hand {
        Some(mods) => seq![EquippedStack { slot: 0, modifiers: mods }] + equipment,
        None => equipment,
    }
}

/// The value of `attr` for an entity whose base value is `base`, after the
/// modifiers of the `main_hand` stack (slot 0), of `equipment` (in its
/// ascending slot order, each stack's list in order), and then those of
/// `effects` (in ascending order of their ids).
pub fn resolve<V: AttributeValue>(
    attr: Attribute,
    base: V,
    equipment: &Vec<EquippedStack<V>>,
    main_hand: Option<Vec<Modifier<V>>>,
    effects: &Vec<ActiveEffect<V>>,
) -> (r: V)
    requires
        slots_ascending(equipment@),
        effects_ascending(effects@),
    ensures
        r == resolve_spec(attr, base, with_main_hand(equipment@, main_hand), effects@),
{
    let ghost stacks = with_main_hand(equipment@, main_hand);
    let ghost off: int = if main_hand is Some {
        1
    } else {
        0
    };
    let mut acc = base;
    match main_hand {
        Some(mods) => {
            let stack = EquippedStack { slot: 0, modifiers: mods };
            proof {
                assert(stacks.take(1).drop_last() =~= Seq::<EquippedStack<V>>::empty());
                assert(stacks.take(1).last() == stack);
            }
            acc = apply_stack(attr, &stack, base, acc);
            proof {
                assert(apply_equipment_spec(attr, stacks.take(1).drop_last(), base, base) == base);
                assert(acc == apply_equipment_spec(attr, stacks.take(1), base, base));
            }
        },
        None => {
            assert(stacks.take(0) =~= Seq::<EquippedStack<V>>::empty());
            assert(acc == apply_equipment_spec(attr, stacks.take(0), base, base));
        },
    }
    assert(stacks.len() == off + equipment@.len());
    assert(forall|k: int| 0 <= k < equipment@.len() ==> stacks[off + k] == equipment@[k]);
    let mut i: usize = 0;
    while i < equipment.len()
        invariant
            0 <= i <= equipment@.len(),
            stacks.len() == off + equipment@.len(),
            0 <= off <= 1,
            forall|k: int| 0 <= k < equipment@.len() ==> stacks[off + k] == equipment@[k],
            acc == apply_equipment_spec(attr, stacks.take(off + i), base, base),
        decreases equipment@.len() - i,
    {
        proof {
            let next = stacks.take(off + i + 1);
            assert(next.drop_last() =~= stacks.take(off + i));
            assert(next.last() == equipment@[i as int]);
        }
        acc = apply_stack(attr, &equipment[i], base, acc);
        i = i + 1;
    }
    assert(stacks.take(off + i) =~= stacks);
    let after_equipment = acc;
    let mut j: usize = 0;
    while j < effects.len()
        invariant
            0 <= j <= effects@.len(),
            after_equipment == apply_equipment_spec(attr, stacks, base, base),
            acc == apply_effects_spec(attr, effects@.take(j as int), base, after_equipment),
        decreases effects@.len() - j,
    {
        proof {
            let next = effects@.take(j + 1);
            assert(next.drop_last() =~= effects@.take(j as int));
            assert(next.last() == effects@[j as int]);
        }
        acc = apply_effect(attr, &effects[j], base, acc);
        j = j + 1;
    }
    assert(effects@.take(j as int) =~= effects@);
    acc
}

} // verus!
