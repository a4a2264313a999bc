use vstd::prelude::*;

verus! {

/// Whether a status effect helps, harms, or neither.
#[allow(clippy::upper_case_acronyms)]
#[derive(Clone, Copy, Debug, PartialEq, Eq, Structural)]
pub enum MobEffectCategory {
    BENEFICIAL,
    HARMFUL,
    NEUTRAL,
}

/// The death-protection component of an item (no fields are read yet).
#[derive(Clone, Copy, Debug, PartialEq, Eq, Structural)]
pub struct DeathProtection {}

/// The blocks-attacks component of an item (no fields are read yet).
#[derive(Clone, Copy, Debug, PartialEq, Eq, Structural)]
pub struct BlocksAttacks {}

} // verus!
