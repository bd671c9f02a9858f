//! Counting an item's affixes and checking them against the affix limits.

use vstd::prelude::*;

use crate::error::rule_e::RuleError;
use crate::item::definition::Poe2DefinitionRegistry;
use crate::item::instance::ItemInstance;
use crate::item::instance::StoredModifier;
use crate::item::modifier_definition_provider::Poe2DefinitionRegistryError;
use crate::item::state::ModOrigin;
use crate::item::state::Poe2ModifierDefinition;
use crate::repoe_parse::GenerationType;
use crate::text::chars_eq;
use crate::text::chars_of;

verus! {

broadcast use vstd::std_specs::hash::group_hash_axioms;

/// The key of the rune modifier that allows an additional crafted modifier.
pub const MULTIMOD_RUNE_MOD_ID: &'static str = "local_can_have_additional_crafted_mods";

/// The affix counts of an item.
#[derive(Debug, Default)]
pub struct ItemAffixState {
    pub prefixes: u16,
    pub suffixes: u16,
    pub crafted_mods: u16,
    pub fractured_mods: u16,
    pub removable_mods: u16,
    pub has_multimod_rune: bool,
}

/// The affix counts over a prefix of an item's modifiers.
pub struct AffixCounts {
    pub prefixes: int,
    pub suffixes: int,
    pub crafted: int,
    pub fractured: int,
    pub has_multimod_rune: bool,
}

/// The definition is the multimod rune: its identifier is recorded in the
/// dictionary as the rune's key.
pub open spec fn is_multimod_rune(dict: Map<u64, String>, def: Poe2ModifierDefinition) -> bool {
    dict.contains_key(def.id.0) && dict[def.id.0]@ == MULTIMOD_RUNE_MOD_ID@
}

/// The position of the first of the first `n` modifiers whose definition
/// the registry lacks.
pub open spec fn first_missing(mods: Seq<StoredModifier>, defs: Map<u64, Poe2ModifierDefinition>, n: int) -> Option<int>
    decreases n,
{
    if n <= 0 {
        None
    } else {
        match first_missing(mods, defs, n - 1) {
            Some(k) => Some(k),
            None => if defs.contains_key(mods[n - 1].definition_id.0) {
                None
            } else {
                Some(n - 1)
            },
        }
    }
}

/// The affix counts of the first `n` modifiers: prefixes and suffixes by
/// their definitions' generation type, crafted and fractured modifiers by
/// origin, and whether a rune modifier is the multimod rune.
pub open spec fn affix_counts(
    mods: Seq<StoredModifier>,
    defs: Map<u64, Poe2ModifierDefinition>,
    dict: Map<u64, String>,
    n: int,
) -> AffixCounts
    decreases n,
{
    if n <= 0 {
        AffixCounts { prefixes: 0, suffixes: 0, crafted: 0, fractured: 0, has_multimod_rune: false }
    } else {
        let c = affix_counts(mods, defs, dict, n - 1);
        let m = mods[n - 1];
        let def = defs[m.definition_id.0];
        AffixCounts {
            prefixes: c.prefixes + if def.generation_type == GenerationType::Prefix {
                1int
            } else {
                0
            },
            suffixes: c.suffixes + if def.generation_type == GenerationType::Suffix {
                1int
            } else {
                0
            },
            crafted: c.crafted + if m.modifier.origin == ModOrigin::Crafted {
                1int
            } else {
                0
            },
            fractured: c.fractured + if m.modifier.origin == ModOrigin::Fractured {
                1int
            } else {
                0
            },
            has_multimod_rune: c.has_multimod_rune || (m.modifier.origin == ModOrigin::Rune
                && is_multimod_rune(dict, def)),
        }
    }
}

proof fn lemma_affix_counts_bounded(
    mods: Seq<StoredModifier>,
    defs: Map<u64, Poe2ModifierDefinition>,
    dict: Map<u64, String>,
    n: int,
)
    requires
        0 <= n,
    ensures
        0 <= affix_counts(mods, defs, dict, n).prefixes <= n,
        0 <= affix_counts(mods, defs, dict, n).suffixes <= n,
        0 <= affix_counts(mods, defs, dict, n).crafted <= n,
        0 <= affix_counts(mods, defs, dict, n).fractured <= n,
    decreases n,
{
    if n > 0 {
        lemma_affix_counts_bounded(mods, defs, dict, n - 1);
    }
}

/// How many modifiers the count goes through: up to the first whose
/// definition is missing, or all of them.
pub open spec fn counted_prefix(mods: Seq<StoredModifier>, defs: Map<u64, Poe2ModifierDefinition>) -> int {
    match first_missing(mods, defs, mods.len() as int) {
        Some(k) => k,
        None => mods.len() as int,
    }
}

/// Every counter of the affix count stays within `u16` over the modifiers
/// the count goes through.
pub open spec fn counts_fit(
    mods: Seq<StoredModifier>,
    defs: Map<u64, Poe2ModifierDefinition>,
    dict: Map<u64, String>,
) -> bool {
    let c = affix_counts(mods, defs, dict, counted_prefix(mods, defs));
    &&& c.prefixes <= u16::MAX
    &&& c.suffixes <= u16::MAX
    &&& c.crafted <= u16::MAX
    &&& c.fractured <= u16::MAX
}

/// Counts only grow as more modifiers are counted.
proof fn lemma_affix_counts_monotone(
    mods: Seq<StoredModifier>,
    defs: Map<u64, Poe2ModifierDefinition>,
    dict: Map<u64, String>,
    k: int,
    n: int,
)
    requires
        0 <= k <= n,
    ensures
        affix_counts(mods, defs, dict, k).prefixes <= affix_counts(mods, defs, dict, n).prefixes,
        affix_counts(mods, defs, dict, k).suffixes <= affix_counts(mods, defs, dict, n).suffixes,
        affix_counts(mods, defs, dict, k).crafted <= affix_counts(mods, defs, dict, n).crafted,
        affix_counts(mods, defs, dict, k).fractured <= affix_counts(mods, defs, dict, n).fractured,
    decreases n - k,
{
    if k < n {
        lemma_affix_counts_monotone(mods, defs, dict, k, n - 1);
    }
}

/// The first missing modifier among the first `n` is the first missing one
/// among the modifiers up to and including it.
proof fn lemma_first_missing_at(mods: Seq<StoredModifier>, defs: Map<u64, Poe2ModifierDefinition>, n: int)
    ensures
        first_missing(mods, defs, n) matches Some(m) ==> 0 <= m < n && first_missing(mods, defs, m + 1)
            == Some(m),
    decreases n,
{
    if n > 0 {
        lemma_first_missing_at(mods, defs, n - 1);
    }
}

/// The verdict of the affix limits on the given counts, checked in order:
/// at most three prefixes, at most three suffixes, at most six affixes, at
/// most one fractured modifier, and at most one crafted modifier, or two
/// with the multimod rune.
pub open spec fn affix_verdict(
    prefixes: int,
    suffixes: int,
    crafted: int,
    fractured: int,
    has_multimod_rune: bool,
) -> Result<(), RuleError> {
    if prefixes > 3 {
        Err(RuleError::AffixLimitReached(GenerationType::Prefix))
    } else if suffixes > 3 {
        Err(RuleError::AffixLimitReached(GenerationType::Suffix))
    } else if prefixes + suffixes > 6 {
        Err(RuleError::AffixLimitsReached)
    } else if fractured > 1 {
        Err(RuleError::FracturedModLimitReached)
    } else if crafted > (if has_multimod_rune {
        2int
    } else {
        1int
    }) {
        Err(RuleError::CraftedModLimitReached)
    } else {
        Ok(())
    }
}

/// Whether the definition's key, as the registry records it, is the rune's.
fn is_multimod_rune_exec(provider: &Poe2DefinitionRegistry, def: &Poe2ModifierDefinition) -> (b: bool)
    ensures
        b == is_multimod_rune(provider.string_dictionary@, *def),
{
    match provider.lookup_string(def.id.0) {
        Some(name) => {
            let c = chars_of(name.as_str());
            chars_eq(&c, MULTIMOD_RUNE_MOD_ID)
        },
        None => false,
    }
}

impl ItemAffixState {
    /// Counts the item's affixes, looking up each modifier's definition; the
    /// first modifier whose definition is missing fails the count.
    pub fn analyze(item: &ItemInstance, provider: &Poe2DefinitionRegistry) -> (r: Result<
        Self,
        Poe2DefinitionRegistryError,
    >)
        requires
            counts_fit(item.modifiers@, provider.definitions@, provider.string_dictionary@),
        ensures
            match first_missing(item.modifiers@, provider.definitions@, item.modifiers@.len() as int) {
                Some(k) => r == Err::<Self, Poe2DefinitionRegistryError>(
                    Poe2DefinitionRegistryError::DefinitionNotFound { id: item.modifiers@[k].definition_id },
                ),
                None => r matches Ok(s) && {
                    let c = affix_counts(
                        item.modifiers@,
                        provider.definitions@,
                        provider.string_dictionary@,
                        item.modifiers@.len() as int,
                    );
                    &&& s.prefixes == c.prefixes
                    &&& s.suffixes == c.suffixes
                    &&& s.crafted_mods == c.crafted
                    &&& s.fractured_mods == c.fractured
                    &&& s.removable_mods == 0
                    &&& s.has_multimod_rune == c.has_multimod_rune
                },
            },
    {
        let mut state = ItemAffixState {
            prefixes: 0,
            suffixes: 0,
            crafted_mods: 0,
            fractured_mods: 0,
            removable_mods: 0,
            has_multimod_rune: false,
        };
        let mut k: usize = 0;
        while k < item.modifiers.len()
            invariant
                k <= item.modifiers@.len(),
                counts_fit(item.modifiers@, provider.definitions@, provider.string_dictionary@),
                first_missing(item.modifiers@, provider.definitions@, k as int) is None,
                ({
                    let c = affix_counts(item.modifiers@, provider.definitions@, provider.string_dictionary@, k as int);
                    &&& state.prefixes == c.prefixes
                    &&& state.suffixes == c.suffixes
                    &&& state.crafted_mods == c.crafted
                    &&& state.fractured_mods == c.fractured
                    &&& state.removable_mods == 0
                    &&& state.has_multimod_rune == c.has_multimod_rune
                }),
            decreases item.modifiers@.len() - k,
        {
            let stored = &item.modifiers[k];
            proof {
                lemma_affix_counts_bounded(item.modifiers@, provider.definitions@, provider.string_dictionary@, k as int);
            }
            let def = match provider.definition(&stored.definition_id) {
                Ok(d) => d,
                Err(e) => {
                    proof {
                        assert(first_missing(item.modifiers@, provider.definitions@, k + 1) == Some(k as int));
                        lemma_first_missing_stays(item.modifiers@, provider.definitions@, k + 1, item.modifiers@.len() as int);
                    }
                    return Err(e);
                },
            };
            proof {
                let mods = item.modifiers@;
                let defs = provider.definitions@;
                let n = mods.len() as int;
                assert(first_missing(mods, defs, k + 1) is None);
                lemma_first_missing_at(mods, defs, n);
                if let Some(m) = first_missing(mods, defs, n) {
                    if m <= k {
                        lemma_first_missing_stays(mods, defs, m + 1, k + 1);
                    }
                }
                lemma_affix_counts_monotone(mods, defs, provider.string_dictionary@, k + 1, counted_prefix(mods, defs));
            }
            match def.generation_type {
                GenerationType::Prefix => state.prefixes += 1,
                GenerationType::Suffix => state.suffixes += 1,
                _ => {},
            }
            match stored.modifier.origin {
                ModOrigin::Crafted => state.crafted_mods += 1,
                ModOrigin::Fractured => state.fractured_mods += 1,
                ModOrigin::Rune => {
                    if is_multimod_rune_exec(provider, def) {
                        state.has_multimod_rune = true;
                    }
                },
                _ => {},
            }
            k += 1;
        }
        Ok(state)
    }

    /// Checks the counts against the affix limits.
    pub fn validate(&self) -> (r: Result<(), RuleError>)
        ensures
            r == affix_verdict(
                self.prefixes as int,
                self.suffixes as int,
                self.crafted_mods as int,
                self.fractured_mods as int,
                self.has_multimod_rune,
            ),
    {
        if self.prefixes > 3 {
            return Err(RuleError::AffixLimitReached(GenerationType::Prefix));
        }
        if self.suffixes > 3 {
            return Err(RuleError::AffixLimitReached(GenerationType::Suffix));
        }
        if self.prefixes + self.suffixes > 6 {
            return Err(RuleError::AffixLimitsReached);
        }
        if self.fractured_mods > 1 {
            return Err(RuleError::FracturedModLimitReached);
        }
        let max_crafted: u16 = if self.has_multimod_rune {
            2
        } else {
            1
        };
        if self.crafted_mods > max_crafted {
            return Err(RuleError::CraftedModLimitReached);
        }
        Ok(())
    }
}

/// Once a missing definition is found, it stays the first one.
pub proof fn lemma_first_missing_stays(
    mods: Seq<StoredModifier>,
    defs: Map<u64, Poe2ModifierDefinition>,
    n: int,
    m: int,
)
    requires
        n <= m,
        first_missing(mods, defs, n) is Some,
    ensures
        first_missing(mods, defs, m) == first_missing(mods, defs, n),
    decreases m - n,
{
    if n < m {
        lemma_first_missing_stays(mods, defs, n, m - 1);
    }
}

} // verus!
