//! The base values of a character before any item.

use vstd::prelude::*;

verus! {

/// A character's base life, mana and attributes.
#[derive(Debug, Clone, Copy, PartialEq, Eq, Structural)]
pub struct Poe2CharacterBase {
    pub base_life: i64,
    pub base_mana: i64,
    pub base_strength: i64,
    pub base_dexterity: i64,
    pub base_intelligence: i64,
}

} // verus!
