//! Why an item edit breaks the item rules.

use vstd::prelude::*;

use crate::item::modifier_definition_provider::Poe2DefinitionRegistryError;
use crate::item::modifier_validator::Poe2ModifierValidationError;
use crate::repoe_parse::GenerationType;

verus! {

/// Why an item edit breaks the item rules.
#[derive(Debug, Clone, Copy, PartialEq, Eq, Structural)]
pub enum RuleError {
    InvalidMod,
    InvalidItemRarity,
    AlreadyCraftedMod,
    InvalidModForBase,
    ModNotFound,
    AffixLimitReached(GenerationType),
    AffixLimitsReached,
    FracturedModLimitReached,
    CraftedModLimitReached,
    ValidationError(Poe2ModifierValidationError),
    SameMod,
    RegistryError(Poe2DefinitionRegistryError),
}

} // verus!
