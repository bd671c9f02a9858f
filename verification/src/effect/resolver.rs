//! Turning a rolled modifier into the effects it produces.

use vstd::prelude::*;

use crate::item::state::EquipSlot;
use crate::item::state::Poe2Effect;
use crate::item::state::Poe2ModifierDefinition;
use crate::item::state::Poe2ModifierInstance;
use crate::item::state::Poe2ModifierKind;
use crate::item::state::Poe2ModifierStat;
use crate::item::state::Poe2StatModifierKind;
use crate::poe2_condition::Poe2Condition;

verus! {

/// An effect, and the condition under which it applies, if any.
#[derive(Debug, Clone, Copy, PartialEq, Eq, Structural)]
pub struct EffectEntry {
    pub effect: Poe2Effect,
    pub condition: Option<Poe2Condition>,
}

impl EffectEntry {
    /// An effect that always applies.
    pub fn unconditional(effect: Poe2Effect) -> (e: Self)
        ensures
            e == (EffectEntry { effect, condition: None }),
    {
        EffectEntry { effect, condition: None }
    }

    /// An effect that applies while `condition` holds.
    pub fn conditional(effect: Poe2Effect, condition: Poe2Condition) -> (e: Self)
        ensures
            e == (EffectEntry { effect, condition: Some(condition) }),
    {
        EffectEntry { effect, condition: Some(condition) }
    }
}

/// Resolves rolled modifiers into effects; local stats go to `current_slot`.
pub struct Poe2ModifierEffectResolver {
    pub current_slot: EquipSlot,
}

/// The stat effect of one roll: local stats apply to `slot`, other stats
/// globally.
pub open spec fn stat_effect(stat: Poe2ModifierStat, roll: i64, slot: EquipSlot, kind: Poe2ModifierKind) -> Poe2Effect {
    if stat.is_local {
        Poe2Effect::LocalStat { slot, id: stat.id_hash, value: roll, mod_type: kind }
    } else {
        Poe2Effect::GlobalStat { id: stat.id_hash, value: roll, mod_type: kind }
    }
}

/// The effect entry of one roll: a plain stat applies unconditionally, a
/// conditional stat under its condition, and a scaled stat scales by the
/// roll.
pub open spec fn entry_of(stat: Poe2ModifierStat, roll: i64, slot: EquipSlot, kind: Poe2ModifierKind) -> EffectEntry {
    match stat.kind {
        Poe2StatModifierKind::Plain => EffectEntry { effect: stat_effect(stat, roll, slot, kind), condition: None },
        Poe2StatModifierKind::Conditional(c) => EffectEntry {
            effect: stat_effect(stat, roll, slot, kind),
            condition: Some(c),
        },
        Poe2StatModifierKind::Scaled(scaling) => EffectEntry {
            effect: Poe2Effect::ScaledStat { target_id: stat.id_hash, multiplier: roll, scaling, mod_type: kind },
            condition: None,
        },
    }
}

/// The effect entries of a rolled modifier: one per stat and roll, pairing
/// them in order up to the shorter of the two.
pub open spec fn entries_of(
    stats: Seq<Poe2ModifierStat>,
    rolls: Seq<i64>,
    slot: EquipSlot,
    kind: Poe2ModifierKind,
) -> Seq<EffectEntry> {
    Seq::new(
        if stats.len() <= rolls.len() {
            stats.len()
        } else {
            rolls.len()
        },
        |i: int| entry_of(stats[i], rolls[i], slot, kind),
    )
}

impl Poe2ModifierEffectResolver {
    /// A resolver with no current slot.
    pub fn new() -> (r: Self)
        ensures
            r.current_slot == EquipSlot::NoSlot,
    {
        Self { current_slot: EquipSlot::NoSlot }
    }

    /// The effects that a rolled modifier produces.
    pub fn resolve_modifier_effects(
        &self,
        definition: &Poe2ModifierDefinition,
        modifier: &Poe2ModifierInstance,
    ) -> (r: Result<Vec<EffectEntry>, core::convert::Infallible>)
        ensures
            r matches Ok(v) && v@ == entries_of(
                definition.stats@,
                modifier.rolls@,
                self.current_slot,
                definition.kind,
            ),
    {
        let n = if definition.stats.len() <= modifier.rolls.len() {
            definition.stats.len()
        } else {
            modifier.rolls.len()
        };
        let mut effects: Vec<EffectEntry> = Vec::new();
        let mut i: usize = 0;
        while i < n
            invariant
                n <= definition.stats@.len(),
                n <= modifier.rolls@.len(),
                n == definition.stats@.len() || n == modifier.rolls@.len(),
                i <= n,
                effects@ == entries_of(definition.stats@, modifier.rolls@, self.current_slot, definition.kind).take(
                    i as int,
                ),
            decreases n - i,
        {
            let stat_def = &definition.stats[i];
            let roll = modifier.rolls[i];
            let entry = match stat_def.kind {
                Poe2StatModifierKind::Plain => {
                    let effect = if stat_def.is_local {
                        Poe2Effect::LocalStat {
                            slot: self.current_slot,
                            id: stat_def.id_hash,
                            value: roll,
                            mod_type: definition.kind,
                        }
                    } else {
                        Poe2Effect::GlobalStat { id: stat_def.id_hash, value: roll, mod_type: definition.kind }
                    };
                    EffectEntry::unconditional(effect)
                },
                Poe2StatModifierKind::Conditional(condition) => {
                    let effect = if stat_def.is_local {
                        Poe2Effect::LocalStat {
                            slot: self.current_slot,
                            id: stat_def.id_hash,
                            value: roll,
                            mod_type: definition.kind,
                        }
                    } else {
                        Poe2Effect::GlobalStat { id: stat_def.id_hash, value: roll, mod_type: definition.kind }
                    };
                    EffectEntry::conditional(effect, condition)
                },
                Poe2StatModifierKind::Scaled(scaling) => {
                    let effect = Poe2Effect::ScaledStat {
                        target_id: stat_def.id_hash,
                        multiplier: roll,
                        scaling,
                        mod_type: definition.kind,
                    };
                    EffectEntry::unconditional(effect)
                },
            };
            effects.push(entry);
            assert(effects@ =~= entries_of(definition.stats@, modifier.rolls@, self.current_slot, definition.kind).take(
                i + 1,
            ));
            i += 1;
        }
        assert(effects@ =~= entries_of(definition.stats@, modifier.rolls@, self.current_slot, definition.kind));
        Ok(effects)
    }
}

impl Default for Poe2ModifierEffectResolver {
    fn default() -> (r: Self)
        ensures
            r.current_slot == EquipSlot::NoSlot,
    {
        Self::new()
    }
}

} // verus!
