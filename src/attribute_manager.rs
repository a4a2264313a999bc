use std::collections::HashMap;

use vstd::prelude::*;

use crate::attribute::{
    resolve,
    resolve_spec,
    effects_ascending,
    slots_ascending,
    with_main_hand,
    ActiveEffect,
    Attribute,
    AttributeNoteFoundError,
    AttributeValue,
    EquippedStack,
    Modifier,
};

verus! {

/// The stored values of one attribute: its default and its current base.
#[derive(Clone, Copy, Debug)]
pub struct AttributeCell<V> {
    pub default: V,
    pub current_base: V,
}

/// The store that a builder's list of (attribute, default) pairs builds:
/// each attribute starts at its default; where one is added twice, the later
/// default stands.
pub open spec fn defaults_map<V>(pairs: Seq<(Attribute, V)>) -> Map<u8, AttributeCell<V>>
    decreases pairs.len(),
{
    if pairs.len() == 0 {
        Map::empty()
    } else {
        let p = pairs.last();
        defaults_map(pairs.drop_last()).insert(p.0.id, AttributeCell { default: p.1, current_base: p.1 })
    }
}

/// The store after the base value of `id` is overwritten with `v`.
pub open spec fn set_base_spec<V>(m: Map<u8, AttributeCell<V>>, id: u8, v: V) -> Map<u8, AttributeCell<V>> {
    m.insert(id, AttributeCell { default: m[id].default, current_base: v })
}

/// The store after the base value of `id` is restored to its default.
pub open spec fn reset_base_spec<V>(m: Map<u8, AttributeCell<V>>, id: u8) -> Map<u8, AttributeCell<V>> {
    m.insert(id, AttributeCell { default: m[id].default, current_base: m[id].default })
}

/// Resetting an attribute restores exactly its default, whatever base value
/// was set before: the store is then as if the value had never been set.
pub proof fn reset_base_erases_set_base<V>(m: Map<u8, AttributeCell<V>>, id: u8, v: V)
    requires
        m.contains_key(id),
    ensures
        reset_base_spec(set_base_spec(m, id, v), id)[id] == (AttributeCell {
            default: m[id].default,
            current_base: m[id].default,
        }),
        reset_base_spec(set_base_spec(m, id, v), id) == reset_base_spec(m, id),
{
    assert(reset_base_spec(set_base_spec(m, id, v), id) =~= reset_base_spec(m, id));
}

/// An entity's attributes, keyed by attribute id: for each attribute it
/// supports, a fixed default and a base value that can be overwritten or
/// reset.
///
/// The set of attributes is fixed when the store is built.
pub struct AttributeManager<V> {
    values: HashMap<u8, AttributeCell<V>>,
}

impl<V: AttributeValue> AttributeManager<V> {
    /// The store as a map from attribute id to its cell.
    pub closed spec fn view(&self) -> Map<u8, AttributeCell<V>> {
        self.values@
    }

    pub fn builder() -> (r: AttributeManagerBuilder<V>)
        ensures
            r@ == Seq::<(Attribute, V)>::empty(),
    {
        AttributeManagerBuilder::new()
    }

    /// Reads the base value of `attr` without equipment and effect modifiers.
    pub fn get_base(&self, attr: Attribute) -> (r: Result<V, AttributeNoteFoundError>)
        ensures
            match r {
                Ok(v) => self@.contains_key(attr.id) && v == self@[attr.id].current_base,
                Err(_) => !self@.contains_key(attr.id),
            },
    {
        match self.values.get(&attr.id) {
            Some(c) => Ok(c.current_base),
            None => Err(AttributeNoteFoundError),
        }
    }

    /// Overwrites the base value of `attr`; its default is kept.
    pub fn set_base(&mut self, attr: Attribute, value: V) -> (r: Result<(), AttributeNoteFoundError>)
        ensures
            r is Ok <==> old(self)@.contains_key(attr.id),
            r is Ok ==> final(self)@ == set_base_spec(old(self)@, attr.id, value),
            r is Err ==> final(self)@ == old(self)@,
    {
        let default = match self.values.get(&attr.id) {
            Some(c) => c.default,
            None => {
                return Err(AttributeNoteFoundError);
            },
        };
        self.values.insert(attr.id, AttributeCell { default, current_base: value });
        Ok(())
    }

    /// Restores the base value of `attr` to its default and returns it.
    pub fn reset_base(&mut self, attr: Attribute) -> (r: Result<V, AttributeNoteFoundError>)
        ensures
            match r {
                Ok(v) => old(self)@.contains_key(attr.id) && v == old(self)@[attr.id].default
                    && final(self)@ == reset_base_spec(old(self)@, attr.id),
                Err(_) => !old(self)@.contains_key(attr.id) && final(self)@ == old(self)@,
            },
    {
        let default = match self.values.get(&attr.id) {
            Some(c) => c.default,
            None => {
                return Err(AttributeNoteFoundError);
            },
        };
        self.values.insert(attr.id, AttributeCell { default, current_base: default });
        Ok(default)
    }

    /// Reads the base value of `attr` and applies the modifiers of the
    /// separate `main_hand` stack (slot 0, where the main hand is not part of
    /// `equipment`), of the equipment in its ascending slot order, then of the
    /// active effects in ascending order of their ids.
    pub fn get_modified(
        &self,
        attr: Attribute,
        equipment: &Vec<EquippedStack<V>>,
        main_hand: Option<Vec<Modifier<V>>>,
        effects: &Vec<ActiveEffect<V>>,
    ) -> (r: Result<V, AttributeNoteFoundError>)
        requires
            slots_ascending(equipment@),
            effects_ascending(effects@),
        ensures
            match r {
                Ok(v) => self@.contains_key(attr.id) && v == resolve_spec(
                    attr,
                    self@[attr.id].current_base,
                    with_main_hand(equipment@, main_hand),
                    effects@,
                ),
                Err(_) => !self@.contains_key(attr.id),
            },
    {
        match self.values.get(&attr.id) {
            Some(c) => Ok(resolve(attr, c.current_base, equipment, main_hand, effects)),
            None => Err(AttributeNoteFoundError),
        }
    }
}

/// Collects the attributes an entity kind supports, each with its default.
pub struct AttributeManagerBuilder<V>(Vec<(Attribute, V)>);

impl<V: AttributeValue> AttributeManagerBuilder<V> {
    /// The (attribute, default) pairs added so far, in order.
    pub closed spec fn view(&self) -> Seq<(Attribute, V)> {
        self.0@
    }

    pub fn new() -> (r: Self)
        ensures
            r@ == Seq::<(Attribute, V)>::empty(),
    {
        AttributeManagerBuilder(Vec::new())
    }

    pub fn add(self, attr: Attribute, default_base_value: V) -> (r: Self)
        ensures
            r@ == self@.push((attr, default_base_value)),
    {
        let mut v = self.0;
        v.push((attr, default_base_value));
        AttributeManagerBuilder(v)
    }

    /// Adds `attr` with the fallback default that `registry` gives it.
    pub fn add_with_fallback_value(self, attr: Attribute, registry: &AttributeRegistry<V>) -> (r:
        Self)
        requires
            registry.wf(),
            registry@.contains_key(attr.id),
        ensures
            r@ == self@.push((attr, registry@[attr.id])),
    {
        let fallback = registry.get_fallback(attr);
        match fallback {
            Some(v) => self.add(attr, v),
            None => self,
        }
    }

    /// Builds the store: every attribute added starts at its default; where an
    /// attribute was added twice, the later default stands.
    pub fn build(self) -> (r: AttributeManager<V>)
        ensures
            r@ == defaults_map(self@),
    {
        let pairs = self.0;
        let mut values: HashMap<u8, AttributeCell<V>> = HashMap::with_capacity(pairs.len());
        let mut i: usize = 0;
        assert(pairs@.take(0) =~= Seq::<(Attribute, V)>::empty());
        assert(values@ =~= defaults_map(pairs@.take(0)));
        while i < pairs.len()
            invariant
                0 <= i <= pairs@.len(),
                values@ == defaults_map(pairs@.take(i as int)),
            decreases pairs@.len() - i,
        {
            let (attr, d) = pairs[i];
            proof {
                let next = pairs@.take(i + 1);
                assert(next.drop_last() =~= pairs@.take(i as int));
                assert(next.last() == pairs@[i as int]);
            }
            values.insert(attr.id, AttributeCell { default: d, current_base: d });
            i = i + 1;
        }
        assert(pairs@.take(i as int) =~= pairs@);
        AttributeManager { values }
    }
}

impl<V: AttributeValue> Default for AttributeManagerBuilder<V> {
    fn default() -> (r: Self)
        ensures
            r@ == Seq::<(Attribute, V)>::empty(),
    {
        Self::new()
    }
}

/// What the static registry knows of one attribute: its server-wide default.
#[derive(Clone, Copy, Debug)]
pub struct AttributeInfo<V> {
    pub attribute: Attribute,
    pub fallback: V,
}

/// The attributes the server knows, each with its fallback default.
pub struct AttributeRegistry<V> {
    entries: Vec<AttributeInfo<V>>,
}

pub open spec fn infos_map<V>(infos: Seq<AttributeInfo<V>>) -> Map<u8, V>
    decreases infos.len(),
{
    if infos.len() == 0 {
        Map::empty()
    } else {
        let e = infos.last();
        infos_map(infos.drop_last()).insert(e.attribute.id, e.fallback)
    }
}

pub open spec fn info_ids_unique<V>(infos: Seq<AttributeInfo<V>>) -> bool {
    forall|i: int, j: int|
        0 <= i < infos.len() && 0 <= j < infos.len() && i != j ==> infos[i].attribute.id
            != infos[j].attribute.id
}

proof fn lemma_infos_map_index<V>(infos: Seq<AttributeInfo<V>>, i: int)
    requires
        info_ids_unique(infos),
        0 <= i < infos.len(),
    ensures
        infos_map(infos).contains_key(infos[i].attribute.id),
        infos_map(infos)[infos[i].attribute.id] == infos[i].fallback,
    decreases infos.len(),
{
    if i < infos.len() - 1 {
        let prefix = infos.drop_last();
        assert(info_ids_unique(prefix));
        lemma_infos_map_index(prefix, i);
        assert(infos[i] == prefix[i]);
    }
}

proof fn lemma_infos_map_absent<V>(infos: Seq<AttributeInfo<V>>, id: u8)
    requires
        forall|i: int| 0 <= i < infos.len() ==> infos[i].attribute.id != id,
    ensures
        !infos_map(infos).contains_key(id),
    decreases infos.len(),
{
    if infos.len() > 0 {
        lemma_infos_map_absent(infos.drop_last(), id);
    }
}

impl<V: AttributeValue> AttributeRegistry<V> {
    /// Map from attribute id to its fallback default.
    pub closed spec fn view(&self) -> Map<u8, V> {
        infos_map(self.entries@)
    }

    pub closed spec fn wf(&self) -> bool {
        info_ids_unique(self.entries@)
    }

    /// The registry of `infos`; `None` where two of them share an id, which
    /// is malformed static data.
    pub fn new(infos: Vec<AttributeInfo<V>>) -> (r: Option<Self>)
        ensures
            r is Some <==> info_ids_unique(infos@),
            r matches Some(reg) ==> reg.wf() && reg@ == infos_map(infos@),
    {
        let mut i: usize = 0;
        while i < infos.len()
            invariant
                0 <= i <= infos@.len(),
                forall|a: int, b: int|
                    0 <= a < i && 0 <= b < infos@.len() && a != b ==> infos@[a].attribute.id
                        != infos@[b].attribute.id,
            decreases infos@.len() - i,
        {
            let mut j: usize = 0;
            while j < infos.len()
                invariant
                    0 <= i < infos@.len(),
                    0 <= j <= infos@.len(),
                    forall|b: int|
                        0 <= b < j && b != i ==> infos@[i as int].attribute.id
                            != infos@[b].attribute.id,
                decreases infos@.len() - j,
            {
                if j != i && infos[i].attribute.id == infos[j].attribute.id {
                    return None;
                }
                j = j + 1;
            }
            i = i + 1;
        }
        Some(AttributeRegistry { entries: infos })
    }

    /// The fallback default of `attr`, where the registry knows it.
    pub fn get_fallback(&self, attr: Attribute) -> (r: Option<V>)
        requires
            self.wf(),
        ensures
            r is Some <==> self@.contains_key(attr.id),
            r matches Some(v) ==> v == self@[attr.id],
    {
        let mut i: usize = 0;
        while i < self.entries.len()
            invariant
                0 <= i <= self.entries@.len(),
                self.wf(),
                forall|k: int| 0 <= k < i ==> self.entries@[k].attribute.id != attr.id,
            decreases self.entries@.len() - i,
        {
            if self.entries[i].attribute.id == attr.id {
                proof {
                    lemma_infos_map_index(self.entries@, i as int);
                }
                return Some(self.entries[i].fallback);
            }
            i = i + 1;
        }
        proof {
            lemma_infos_map_absent(self.entries@, attr.id);
        }
        None
    }
}

} // verus!
