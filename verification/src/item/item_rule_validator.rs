//! The item rules: whole-item validation and the checks before each edit.

use vstd::prelude::*;

use crate::error::rule_e::RuleError;
use crate::item::affix_state::affix_counts;
use crate::item::affix_state::affix_verdict;
use crate::item::affix_state::counts_fit;
use crate::item::affix_state::first_missing;
use crate::item::affix_state::ItemAffixState;
use crate::item::definition::Poe2DefinitionRegistry;
use crate::item::instance::position_of;
use crate::item::instance::ItemInstance;
use crate::item::instance::ModifierInstanceId;
use crate::item::instance::StoredModifier;
use crate::item::modifier_definition_provider::Poe2DefinitionRegistryError;
use crate::item::modifier_validator::modifier_verdict;
use crate::item::modifier_validator::Poe2ModifierValidator;
use crate::item::state::Poe2ItemState;
use crate::item::tag_set::tag_set_contents;
use crate::item::state::Poe2ModifierDefinition;
use crate::item::state::Poe2ModifierInstance;

verus! {

broadcast use vstd::std_specs::hash::group_hash_axioms;

/// Checks items and item edits against the rules, with the definitions of
/// `provider`.
pub struct Poe2ItemRuleValidator<'a> {
    pub provider: &'a Poe2DefinitionRegistry,
}

/// The two group lists share a group.
pub open spec fn shares_group(a: Seq<u64>, b: Seq<u64>) -> bool {
    exists|i: int, j: int| 0 <= i < a.len() && 0 <= j < b.len() && a[i] == b[j]
}

/// The duplicate check over the modifiers from position `k` on: the first
/// modifier other than `target` whose definition is missing fails with
/// `ModNotFound`, and one whose definition shares a group with `groups`
/// fails with `SameMod`.
pub open spec fn duplicate_verdict_from(
    mods: Seq<StoredModifier>,
    defs: Map<u64, Poe2ModifierDefinition>,
    target: Option<ModifierInstanceId>,
    groups: Seq<u64>,
    k: int,
) -> Result<(), RuleError>
    decreases mods.len() - k,
{
    if k < 0 || k >= mods.len() {
        Ok(())
    } else if target == Some(mods[k].id) {
        duplicate_verdict_from(mods, defs, target, groups, k + 1)
    } else if !defs.contains_key(mods[k].definition_id.0) {
        Err(RuleError::ModNotFound)
    } else if shares_group(groups, defs[mods[k].definition_id.0].groups@) {
        Err(RuleError::SameMod)
    } else {
        duplicate_verdict_from(mods, defs, target, groups, k + 1)
    }
}

/// Whole-item validation over the modifiers from position `k` on: the first
/// modifier whose definition is missing fails with `ModNotFound`, and the
/// first whose roll does not fit fails with that validation error.
pub open spec fn item_verdict_from(
    state: Poe2ItemState,
    mods: Seq<StoredModifier>,
    defs: Map<u64, Poe2ModifierDefinition>,
    k: int,
) -> Result<(), RuleError>
    decreases mods.len() - k,
{
    if k < 0 || k >= mods.len() {
        Ok(())
    } else if !defs.contains_key(mods[k].definition_id.0) {
        Err(RuleError::ModNotFound)
    } else {
        match modifier_verdict(
            state.item_level,
            tag_set_contents(state.tags),
            defs[mods[k].definition_id.0]@,
            mods[k].modifier.rolls@,
        ) {
            Err(e) => Err(RuleError::ValidationError(e)),
            Ok(_) => item_verdict_from(state, mods, defs, k + 1),
        }
    }
}

/// The verdict on adding a modifier with definition `groups`: the duplicate
/// check, then the affix count of the item as it stands, then the affix
/// limits.
pub open spec fn add_verdict(
    mods: Seq<StoredModifier>,
    defs: Map<u64, Poe2ModifierDefinition>,
    dict: Map<u64, String>,
    groups: Seq<u64>,
) -> Result<(), RuleError> {
    match duplicate_verdict_from(mods, defs, None, groups, 0) {
        Err(e) => Err(e),
        Ok(_) => match first_missing(mods, defs, mods.len() as int) {
            Some(k) => Err(
                RuleError::RegistryError(
                    Poe2DefinitionRegistryError::DefinitionNotFound { id: mods[k].definition_id },
                ),
            ),
            None => {
                let c = affix_counts(mods, defs, dict, mods.len() as int);
                affix_verdict(c.prefixes, c.suffixes, c.crafted, c.fractured, c.has_multimod_rune)
            },
        },
    }
}

proof fn lemma_shares_group_witness(a: Seq<u64>, b: Seq<u64>, i: int, j: int)
    requires
        0 <= i < a.len(),
        0 <= j < b.len(),
        a[i] == b[j],
    ensures
        shares_group(a, b),
{
}

impl<'a> Poe2ItemRuleValidator<'a> {
    /// Whether some group of `groups` is among `existing`.
    fn groups_overlap(groups: &Vec<u64>, existing: &Vec<u64>) -> (b: bool)
        ensures
            b == shares_group(groups@, existing@),
    {
        let mut i: usize = 0;
        while i < groups.len()
            invariant
                i <= groups@.len(),
                forall|p: int, q: int| 0 <= p < i && 0 <= q < existing@.len() ==> groups@[p] != existing@[q],
            decreases groups@.len() - i,
        {
            let mut j: usize = 0;
            while j < existing.len()
                invariant
                    i < groups@.len(),
                    j <= existing@.len(),
                    forall|q: int| 0 <= q < j ==> groups@[i as int] != existing@[q],
                decreases existing@.len() - j,
            {
                if groups[i] == existing[j] {
                    proof {
                        lemma_shares_group_witness(groups@, existing@, i as int, j as int);
                    }
                    return true;
                }
                j += 1;
            }
            i += 1;
        }
        false
    }

    /// Checks that no modifier of the item other than `target_id` shares a
    /// group with `definition`.
    pub fn check_duplicate_modifier(
        &self,
        item: &ItemInstance,
        target_id: Option<ModifierInstanceId>,
        definition: &Poe2ModifierDefinition,
    ) -> (r: Result<(), RuleError>)
        ensures
            r == duplicate_verdict_from(
                item.modifiers@,
                self.provider.definitions@,
                target_id,
                definition.groups@,
                0,
            ),
    {
        let mut k: usize = 0;
        while k < item.modifiers.len()
            invariant
                k <= item.modifiers@.len(),
                duplicate_verdict_from(item.modifiers@, self.provider.definitions@, target_id, definition.groups@, 0)
                    == duplicate_verdict_from(
                    item.modifiers@,
                    self.provider.definitions@,
                    target_id,
                    definition.groups@,
                    k as int,
                ),
            decreases item.modifiers@.len() - k,
        {
            let stored = &item.modifiers[k];
            let skip = match target_id {
                Some(id) => id == stored.id,
                None => false,
            };
            if !skip {
                let existing_def = match self.provider.definitions.get(&stored.definition_id.0) {
                    Some(d) => d,
                    None => {
                        return Err(RuleError::ModNotFound);
                    },
                };
                if Self::groups_overlap(&definition.groups, &existing_def.groups) {
                    return Err(RuleError::SameMod);
                }
            }
            k += 1;
        }
        Ok(())
    }

    /// Validates the modifiers `modifiers` of an item in state `state`.
    pub fn validate_modifiers(&self, state: &Poe2ItemState, modifiers: &Vec<StoredModifier>) -> (r: Result<
        (),
        RuleError,
    >)
        ensures
            r == item_verdict_from(*state, modifiers@, self.provider.definitions@, 0),
    {
        let mut k: usize = 0;
        while k < modifiers.len()
            invariant
                k <= modifiers@.len(),
                item_verdict_from(*state, modifiers@, self.provider.definitions@, 0) == item_verdict_from(
                    *state,
                    modifiers@,
                    self.provider.definitions@,
                    k as int,
                ),
            decreases modifiers@.len() - k,
        {
            let stored = &modifiers[k];
            let def = match self.provider.definitions.get(&stored.definition_id.0) {
                Some(d) => d,
                None => {
                    return Err(RuleError::ModNotFound);
                },
            };
            match Poe2ModifierValidator.validate_modifier_for_state(state, def, &stored.modifier) {
                Err(e) => {
                    return Err(RuleError::ValidationError(e));
                },
                Ok(()) => {},
            }
            k += 1;
        }
        Ok(())
    }

    /// Validates every modifier of the item against its definition.
    pub fn validate_item(&self, item: &ItemInstance) -> (r: Result<(), RuleError>)
        ensures
            r == item_verdict_from(item.state, item.modifiers@, self.provider.definitions@, 0),
    {
        self.validate_modifiers(&item.state, &item.modifiers)
    }

    /// Checks adding a modifier with `definition` to the item. The roll itself
    /// is validated and the verdict discarded; the edit must not duplicate a
    /// group, and the item's affixes as they stand must be within the limits.
    pub fn validate_add_modifier(
        &self,
        item: &ItemInstance,
        definition: &Poe2ModifierDefinition,
        modifier: &Poe2ModifierInstance,
    ) -> (r: Result<(), RuleError>)
        requires
            duplicate_verdict_from(item.modifiers@, self.provider.definitions@, None, definition.groups@, 0)
                is Ok ==> counts_fit(item.modifiers@, self.provider.definitions@, self.provider.string_dictionary@),
        ensures
            r == add_verdict(
                item.modifiers@,
                self.provider.definitions@,
                self.provider.string_dictionary@,
                definition.groups@,
            ),
    {
        let _ = Poe2ModifierValidator.validate_modifier(item, definition, modifier);
        match self.check_duplicate_modifier(item, None, definition) {
            Err(e) => {
                return Err(e);
            },
            Ok(()) => {},
        }
        match ItemAffixState::analyze(item, self.provider) {
            Err(e) => Err(RuleError::RegistryError(e)),
            Ok(state) => state.validate(),
        }
    }

    /// Checks replacing the modifier `target_id` by one with `definition`:
    /// no other modifier may share a group with it. The roll itself is
    /// validated and the verdict discarded.
    pub fn validate_replace_modifier(
        &self,
        item: &ItemInstance,
        target_id: ModifierInstanceId,
        definition: &Poe2ModifierDefinition,
        modifier: &Poe2ModifierInstance,
    ) -> (r: Result<(), RuleError>)
        ensures
            r == duplicate_verdict_from(
                item.modifiers@,
                self.provider.definitions@,
                Some(target_id),
                definition.groups@,
                0,
            ),
    {
        let _ = Poe2ModifierValidator.validate_modifier(item, definition, modifier);
        self.check_duplicate_modifier(item, Some(target_id), definition)
    }

    /// Checks replacing the item's state: the rarity must stay, and an item
    /// of the new state with no modifiers must validate.
    pub fn validate_replace_state(&self, item: &ItemInstance, new_state: &Poe2ItemState) -> (r: Result<
        (),
        RuleError,
    >)
        ensures
            r == (if item.state.rarity != new_state.rarity {
                Err(RuleError::InvalidItemRarity)
            } else {
                Ok(())
            }),
    {
        if item.state.rarity != new_state.rarity {
            return Err(RuleError::InvalidItemRarity);
        }
        let mock_item = ItemInstance::new(item.base, new_state.clone());
        self.validate_item(&mock_item)
    }

    /// Checks removing the modifier `id`: the item must hold it.
    pub fn validate_remove_modifier(
        &self,
        item: &ItemInstance,
        id: ModifierInstanceId,
        _modifier: &Poe2ModifierInstance,
    ) -> (r: Result<(), RuleError>)
        ensures
            r == (if position_of(item.modifiers@, id) is Some {
                Ok(())
            } else {
                Err(RuleError::ModNotFound)
            }),
    {
        match item.modifier(id) {
            Some(_) => Ok(()),
            None => Err(RuleError::ModNotFound),
        }
    }
}

} // verus!
