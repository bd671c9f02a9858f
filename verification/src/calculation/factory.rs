//! Creating a fresh accumulator from the character and its equipment.

use vstd::prelude::*;

use crate::calculation::accumulator::AccumulatorView;
use crate::calculation::accumulator::EquipmentStats;
use crate::calculation::accumulator::Poe2Accumulator;
use crate::calculation::accumulator::StatKey;
use crate::calculation::accumulator::StatTable;
use crate::item::base::Poe2CharacterBase;
use crate::item::state::hash_string;
use crate::item::state::modifier_kind_of;
use crate::item::state::EquipSlot;
use crate::item::state::Poe2Effect;
use crate::item::state::Poe2ModifierKind;
use crate::repoe_parse::Properties;

verus! {

/// The input of a calculation: the character, and the base properties of
/// the item in each slot; a later entry for a slot replaces an earlier one.
#[derive(Debug, Clone)]
pub struct Poe2CalculationInput {
    pub character: Poe2CharacterBase,
    pub equipment_properties: Vec<(EquipSlot, Properties)>,
}

/// The keys under which the character's base values start.
#[derive(Debug, Clone, Copy, PartialEq, Eq, Structural)]
pub struct BaseStatKeys {
    pub life: StatKey,
    pub mana: StatKey,
    pub strength: StatKey,
    pub dexterity: StatKey,
    pub intelligence: StatKey,
}

/// The names behind one base key: the modifier type name and the stat
/// identifier.
#[derive(Debug, Clone, Copy)]
pub struct BaseStatName {
    pub kind_name: &'static str,
    pub stat_id: &'static str,
}

/// The names behind the base keys.
#[derive(Debug, Clone, Copy)]
pub struct BaseStatNames {
    pub life: BaseStatName,
    pub mana: BaseStatName,
    pub strength: BaseStatName,
    pub dexterity: BaseStatName,
    pub intelligence: BaseStatName,
}

/// The names of the base values: maximum life and mana under the
/// `BaseLifeAndMana` type, and each attribute under its own type.
pub fn base_stat_names() -> (n: BaseStatNames)
    ensures
        n.life.kind_name@ == "BaseLifeAndMana"@,
        n.life.stat_id@ == "base_maximum_life"@,
        n.mana.kind_name@ == "BaseLifeAndMana"@,
        n.mana.stat_id@ == "base_maximum_mana"@,
        n.strength.kind_name@ == "Strength"@,
        n.strength.stat_id@ == "additional_strength"@,
        n.dexterity.kind_name@ == "Dexterity"@,
        n.dexterity.stat_id@ == "additional_dexterity"@,
        n.intelligence.kind_name@ == "Intelligence"@,
        n.intelligence.stat_id@ == "additional_intelligence"@,
{
    BaseStatNames {
        life: BaseStatName { kind_name: "BaseLifeAndMana", stat_id: "base_maximum_life" },
        mana: BaseStatName { kind_name: "BaseLifeAndMana", stat_id: "base_maximum_mana" },
        strength: BaseStatName { kind_name: "Strength", stat_id: "additional_strength" },
        dexterity: BaseStatName { kind_name: "Dexterity", stat_id: "additional_dexterity" },
        intelligence: BaseStatName { kind_name: "Intelligence", stat_id: "additional_intelligence" },
    }
}

/// The keys of the base values: maximum life and mana under the
/// `BaseLifeAndMana` type, and each attribute under its own type, each stat
/// by the `hash_string` hash of the identifier that `base_stat_names` gives.
/// The stat hashes are whatever `hash_string` gives in this process.
pub fn base_stat_keys() -> (keys: BaseStatKeys)
    ensures
        keys.life.mod_type == Poe2ModifierKind::BaseLifeAndMana,
        keys.mana.mod_type == Poe2ModifierKind::BaseLifeAndMana,
        keys.strength.mod_type == Poe2ModifierKind::Strength,
        keys.dexterity.mod_type == Poe2ModifierKind::Dexterity,
        keys.intelligence.mod_type == Poe2ModifierKind::Intelligence,
{
    let names = base_stat_names();
    proof {
        reveal_strlit("AbyssTargetMod");
        reveal_strlit("BaseLifeAndMana");
        reveal_strlit("Strength");
        reveal_strlit("Dexterity");
        reveal_strlit("Intelligence");
        assert("AbyssTargetMod"@.len() == 14);
        assert("BaseLifeAndMana"@.len() == 15);
        assert("Strength"@.len() == 8);
        assert("Dexterity"@.len() == 9);
        assert("Intelligence"@.len() == 12);
    }
    BaseStatKeys {
        life: StatKey { mod_type: modifier_kind_of(names.life.kind_name), id: hash_string(names.life.stat_id) },
        mana: StatKey { mod_type: modifier_kind_of(names.mana.kind_name), id: hash_string(names.mana.stat_id) },
        strength: StatKey {
            mod_type: modifier_kind_of(names.strength.kind_name),
            id: hash_string(names.strength.stat_id),
        },
        dexterity: StatKey {
            mod_type: modifier_kind_of(names.dexterity.kind_name),
            id: hash_string(names.dexterity.stat_id),
        },
        intelligence: StatKey {
            mod_type: modifier_kind_of(names.intelligence.kind_name),
            id: hash_string(names.intelligence.stat_id),
        },
    }
}

/// The slots given properties among the first `n` entries, each with no
/// totals yet.
pub open spec fn equipment_upto(es: Seq<(EquipSlot, Properties)>, n: int) -> Map<EquipSlot, Map<StatKey, i64>>
    decreases n,
{
    if n <= 0 {
        Map::empty()
    } else {
        equipment_upto(es, n - 1).insert(es[n - 1].0, Map::empty())
    }
}

/// The base properties of the slots among the first `n` entries; a later
/// entry for a slot replaces an earlier one.
pub open spec fn properties_upto(es: Seq<(EquipSlot, Properties)>, n: int) -> Map<EquipSlot, Properties>
    decreases n,
{
    if n <= 0 {
        Map::empty()
    } else {
        properties_upto(es, n - 1).insert(es[n - 1].0, es[n - 1].1)
    }
}

/// The accumulator a calculation starts from: the character's base values
/// under their keys (a later key replacing an earlier equal one), an empty
/// table and the base properties for every equipped slot, and no pending
/// scaled effects.
pub open spec fn created(input: Poe2CalculationInput, keys: BaseStatKeys) -> AccumulatorView {
    AccumulatorView {
        global: Map::empty().insert(keys.life, input.character.base_life).insert(
            keys.mana,
            input.character.base_mana,
        ).insert(keys.strength, input.character.base_strength).insert(
            keys.dexterity,
            input.character.base_dexterity,
        ).insert(keys.intelligence, input.character.base_intelligence),
        equipment: equipment_upto(input.equipment_properties@, input.equipment_properties@.len() as int),
        properties: properties_upto(input.equipment_properties@, input.equipment_properties@.len() as int),
        pending: Seq::<Poe2Effect>::empty(),
    }
}

/// Creates accumulators.
pub struct Poe2AccumulatorFactory;

impl Poe2AccumulatorFactory {
    /// Creates the accumulator for `input`, with the base values under `keys`.
    pub fn create_with_keys(&self, input: &Poe2CalculationInput, keys: &BaseStatKeys) -> (r: Result<
        Poe2Accumulator,
        core::convert::Infallible,
    >)
        ensures
            r matches Ok(acc) && acc@ == created(*input, *keys),
    {
        let mut global_stats = StatTable::new();
        global_stats.set(keys.life, input.character.base_life);
        global_stats.set(keys.mana, input.character.base_mana);
        global_stats.set(keys.strength, input.character.base_strength);
        global_stats.set(keys.dexterity, input.character.base_dexterity);
        global_stats.set(keys.intelligence, input.character.base_intelligence);
        let mut equipment_stats = EquipmentStats::new();
        assert(equipment_stats.properties() =~= properties_upto(input.equipment_properties@, 0));
        let mut i: usize = 0;
        while i < input.equipment_properties.len()
            invariant
                i <= input.equipment_properties@.len(),
                equipment_stats@ == equipment_upto(input.equipment_properties@, i as int),
                equipment_stats.properties() == properties_upto(input.equipment_properties@, i as int),
            decreases input.equipment_properties@.len() - i,
        {
            let (slot, props) = &input.equipment_properties[i];
            equipment_stats.insert_empty(*slot, props.clone());
            i += 1;
        }
        let acc = Poe2Accumulator { global_stats, equipment_stats, pending_scaling: Vec::new() };
        assert(acc@.pending =~= Seq::<Poe2Effect>::empty());
        Ok(acc)
    }

    /// Creates the accumulator for `input`, with the base values under the
    /// keys that `base_stat_keys` gives.
    pub fn create(&self, input: &Poe2CalculationInput) -> (r: Result<Poe2Accumulator, core::convert::Infallible>)
        ensures
            r matches Ok(acc) && exists|keys: BaseStatKeys| #[trigger] created(*input, keys) == acc@,
    {
        let keys = base_stat_keys();
        let r = self.create_with_keys(input, &keys);
        assert(r matches Ok(acc) && created(*input, keys) == acc@);
        r
    }
}

} // verus!
