use vstd::prelude::*;

verus! {

/// A block property and the values it can take.
#[derive(Clone, Debug)]
pub struct Property {
    pub name: String,
    pub values: Vec<String>,
}

/// One state of a block.
#[derive(Clone, Debug)]
pub struct State {
    pub id: u16,
    pub air: bool,
    pub luminance: u8,
    pub burnable: bool,
    pub opacity: Option<u32>,
    pub replaceable: bool,
    pub collision_shapes: Vec<u16>,
    pub block_entity_type: Option<u32>,
}

/// A block kind with its states.
#[derive(Clone, Debug)]
pub struct Block {
    pub id: u16,
    pub item_id: u16,
    /// The IEEE-754 bits of the block's hardness.
    pub hardness_bits: u32,
    pub wall_variant_id: Option<u16>,
    pub translation_key: String,
    pub name: String,
    pub properties: Vec<Property>,
    pub default_state_id: u16,
    pub states: Vec<State>,
}

/// The block table loaded from static data.
pub struct BlockRegistry {
    pub blocks: Vec<Block>,
}

impl BlockRegistry {
    /// Whether some block has a state with id `id`.
    pub open spec fn has_state(&self, id: u16) -> bool {
        exists|b: int, i: int|
            0 <= b < self.blocks@.len() && 0 <= i < self.blocks@[b].states@.len()
                && #[trigger] self.blocks@[b].states@[i].id == id
    }

    /// Whether some block has id `id`.
    pub open spec fn has_block(&self, id: u16) -> bool {
        exists|b: int| 0 <= b < self.blocks@.len() && #[trigger] self.blocks@[b].id == id
    }
}

/// The block with id `id`, where there is one (the first, in a table that
/// repeats an id).
pub fn get_block_by_id(registry: &BlockRegistry, id: u16) -> (r: Option<&Block>)
    ensures
        r is Some <==> registry.has_block(id),
        r matches Some(block) ==> block.id == id && exists|b: int|
            0 <= b < registry.blocks@.len() && registry.blocks@[b] == *block && forall|k: int|
                0 <= k < b ==> #[trigger] registry.blocks@[k].id != id,
{
    let mut b: usize = 0;
    while b < registry.blocks.len()
        invariant
            0 <= b <= registry.blocks@.len(),
            forall|k: int| 0 <= k < b ==> registry.blocks@[k].id != id,
        decreases registry.blocks@.len() - b,
    {
        if registry.blocks[b].id == id {
            return Some(&registry.blocks[b]);
        }
        b = b + 1;
    }
    None
}

/// The block that owns state `id` and that state, where there is one (the
/// first, in a table that repeats a state id).
pub fn get_block_and_state_by_state_id(registry: &BlockRegistry, id: u16) -> (r: Option<
    (&Block, &State),
>)
    ensures
        r is Some <==> registry.has_state(id),
        r matches Some((block, state)) ==> state.id == id && exists|b: int, i: int|
            0 <= b < registry.blocks@.len() && 0 <= i < registry.blocks@[b].states@.len()
                && registry.blocks@[b] == *block && registry.blocks@[b].states@[i] == *state
                && (forall|k: int, j: int|
                0 <= k < b && 0 <= j < registry.blocks@[k].states@.len()
                    ==> #[trigger] registry.blocks@[k].states@[j].id != id) && (forall|j: int|
                0 <= j < i ==> #[trigger] block.states@[j].id != id),
{
    let mut b: usize = 0;
    while b < registry.blocks.len()
        invariant
            0 <= b <= registry.blocks@.len(),
            forall|k: int, i: int|
                0 <= k < b && 0 <= i < registry.blocks@[k].states@.len()
                    ==> #[trigger] registry.blocks@[k].states@[i].id != id,
        decreases registry.blocks@.len() - b,
    {
        let block = &registry.blocks[b];
        let mut i: usize = 0;
        while i < block.states.len()
            invariant
                0 <= b < registry.blocks@.len(),
                *block == registry.blocks@[b as int],
                0 <= i <= block.states@.len(),
                forall|j: int| 0 <= j < i ==> #[trigger] block.states@[j].id != id,
                forall|k: int, j: int|
                    0 <= k < b && 0 <= j < registry.blocks@[k].states@.len()
                        ==> #[trigger] registry.blocks@[k].states@[j].id != id,
            decreases block.states@.len() - i,
        {
            if block.states[i].id == id {
                assert(registry.blocks@[b as int].states@[i as int] == block.states@[i as int]);
                return Some((block, &block.states[i]));
            }
            i = i + 1;
        }
        b = b + 1;
    }
    None
}

/// The state with id `id`, where some block has it.
pub fn get_state_by_state_id(registry: &BlockRegistry, id: u16) -> (r: Option<&State>)
    ensures
        r is Some <==> registry.has_state(id),
        r matches Some(state) ==> state.id == id && exists|b: int, i: int|
            0 <= b < registry.blocks@.len() && 0 <= i < registry.blocks@[b].states@.len()
                && registry.blocks@[b].states@[i] == *state,
{
    match get_block_and_state_by_state_id(registry, id) {
        Some((_, state)) => Some(state),
        None => None,
    }
}

/// The block that owns state `id`, where there is one.
pub fn get_block_by_state_id(registry: &BlockRegistry, id: u16) -> (r: Option<&Block>)
    ensures
        r is Some <==> registry.has_state(id),
        r matches Some(block) ==> exists|b: int, i: int|
            0 <= b < registry.blocks@.len() && 0 <= i < registry.blocks@[b].states@.len()
                && registry.blocks@[b] == *block && block.states@[i].id == id,
{
    match get_block_and_state_by_state_id(registry, id) {
        Some((block, _)) => Some(block),
        None => None,
    }
}

/// The block that item `item_id` places, where there is one; where several
/// blocks name the item, the last of them in the table.
pub fn get_block_by_item(registry: &BlockRegistry, item_id: u16) -> (r: Option<&Block>)
    ensures
        r is Some <==> exists|b: int|
            0 <= b < registry.blocks@.len() && #[trigger] registry.blocks@[b].item_id == item_id,
        r matches Some(block) ==> exists|b: int|
            0 <= b < registry.blocks@.len() && registry.blocks@[b] == *block && block.item_id
                == item_id && forall|k: int|
                b < k < registry.blocks@.len() ==> #[trigger] registry.blocks@[k].item_id
                    != item_id,
{
    let mut b: usize = registry.blocks.len();
    while b > 0
        invariant
            0 <= b <= registry.blocks@.len(),
            forall|k: int| b <= k < registry.blocks@.len() ==> #[trigger] registry.blocks@[k].item_id != item_id,
        decreases b,
    {
        b = b - 1;
        if registry.blocks[b].item_id == item_id {
            return Some(&registry.blocks[b]);
        }
    }
    None
}

} // verus!
