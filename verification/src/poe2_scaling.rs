//! Stats that scale with a resource, and where each resource's value comes from.

use vstd::prelude::*;

use crate::text::chars_eq;
use crate::text::chars_of;

verus! {

/// A resource that a scaled stat counts.
#[derive(Debug, Clone, Copy, PartialEq, Eq, Hash, Structural)]
pub enum Poe2Resource {
    /// `block_chance` (DERIVED — needs Finalizer base+% formula)
    BlockChance,
    /// `increased_item_found_quantity` (flat pool — Accumulated)
    IncreasedItemFoundQuantity,
    /// `overcapped_block_chance` (DERIVED — needs Finalizer base+% formula)
    OvercappedBlockChance,
    /// `armour_break` (DERIVED — needs Finalizer base+% formula)
    ArmourBreak,
    /// `quality` (flat pool — Accumulated)
    Quality,
    /// `max_life_with_non_channelling_skills` (DERIVED — needs Finalizer base+% formula)
    MaxLifeWithNonChannellingSkills,
    /// `max_mana_with_non_channelling_skills` (DERIVED — needs Finalizer base+% formula)
    MaxManaWithNonChannellingSkills,
    /// `devotion` (flat pool — Accumulated)
    Devotion,
    /// `dexterity` (flat pool — Accumulated)
    Dexterity,
    /// `intelligence` (flat pool — Accumulated)
    Intelligence,
    /// `spirit` (flat pool — Accumulated)
    Spirit,
    /// `accuracy` (DERIVED — needs Finalizer base+% formula)
    Accuracy,
    /// `mana_spent_recently` (RUNTIME — not derivable from gear, needs external assumption)
    ManaSpentRecently,
    /// `strength` (flat pool — Accumulated)
    Strength,
    /// `evasion` (DERIVED — needs Finalizer base+% formula)
    Evasion,
    /// `cold_resistance` (DERIVED — needs Finalizer base+% formula)
    ColdResistance,
    /// `ward_cost` (DERIVED — needs Finalizer base+% formula)
    WardCost,
    /// `of_your_lowest_attribute` (DERIVED — needs Finalizer base+% formula)
    OfYourLowestAttribute,
    /// `active_curse_on_self` (RUNTIME — not derivable from gear, needs external assumption)
    ActiveCurseOnSelf,
    /// `active_minion` (RUNTIME — not derivable from gear, needs external assumption)
    ActiveMinion,
    /// `active_undead_minion` (RUNTIME — not derivable from gear, needs external assumption)
    ActiveUndeadMinion,
    /// `broken_face` (RUNTIME — not derivable from gear, needs external assumption)
    BrokenFace,
    /// `cold_resistance_above_75` (DERIVED — needs Finalizer base+% formula)
    ColdResistanceAbove75,
    /// `different_command_skills_used_in_last_15_seconds` (RUNTIME — not derivable from gear, needs external assumption)
    DifferentCommandSkillsUsedInLast15Seconds,
    /// `endurance_charge` (flat pool — Accumulated)
    EnduranceCharge,
    /// `enemy_elemental_ailment` (RUNTIME — not derivable from gear, needs external assumption)
    EnemyElementalAilment,
    /// `equipped_corrupted_item` (flat pool — Accumulated)
    EquippedCorruptedItem,
    /// `equipped_unique` (flat pool — Accumulated)
    EquippedUnique,
    /// `fragile_regrowth` (RUNTIME — not derivable from gear, needs external assumption)
    FragileRegrowth,
    /// `frenzy_charge` (flat pool — Accumulated)
    FrenzyCharge,
    /// `level` (flat pool — Accumulated)
    Level,
    /// `lightning_resistance_above_75` (DERIVED — needs Finalizer base+% formula)
    LightningResistanceAbove75,
    /// `pierced_enemy` (RUNTIME — not derivable from gear, needs external assumption)
    PiercedEnemy,
    /// `poison_up_to_75` (RUNTIME — not derivable from gear, needs external assumption)
    PoisonUpTo75,
    /// `power_charge` (flat pool — Accumulated)
    PowerCharge,
    /// `rage` (RUNTIME — not derivable from gear, needs external assumption)
    Rage,
    /// `spell_crit_dealt_recently` (RUNTIME — not derivable from gear, needs external assumption)
    SpellCritDealtRecently,
    /// `stackable_unique_jewel` (flat pool — Accumulated)
    StackableUniqueJewel,
    /// `target_power` (RUNTIME — not derivable from gear, needs external assumption)
    TargetPower,
    /// `white_socket_on_item` (flat pool — Accumulated)
    WhiteSocketOnItem,
}

/// Where the value of a resource is read from.
#[derive(Debug, Clone, Copy, PartialEq, Eq, Hash, Structural)]
pub enum ResourceSource {
    /// Flat pool: read straight out of the accumulated global stats once the
    /// base-phase effects have been applied; no percentage formula involved.
    Accumulated,
    /// Has a final value only after the finalizer computes base plus increases.
    Derived,
    /// Instantaneous runtime state that gear cannot determine; it comes from
    /// the same external configuration as condition evaluation.
    RuntimeAssumption,
}

/// The source of each resource's value.
pub open spec fn resource_source(r: Poe2Resource) -> ResourceSource {
    match r {
        Poe2Resource::BlockChance => ResourceSource::Derived,
        Poe2Resource::IncreasedItemFoundQuantity => ResourceSource::Accumulated,
        Poe2Resource::OvercappedBlockChance => ResourceSource::Derived,
        Poe2Resource::ArmourBreak => ResourceSource::Derived,
        Poe2Resource::Quality => ResourceSource::Accumulated,
        Poe2Resource::MaxLifeWithNonChannellingSkills => ResourceSource::Derived,
        Poe2Resource::MaxManaWithNonChannellingSkills => ResourceSource::Derived,
        Poe2Resource::Devotion => ResourceSource::Accumulated,
        Poe2Resource::Dexterity => ResourceSource::Accumulated,
        Poe2Resource::Intelligence => ResourceSource::Accumulated,
        Poe2Resource::Spirit => ResourceSource::Accumulated,
        Poe2Resource::Accuracy => ResourceSource::Derived,
        Poe2Resource::ManaSpentRecently => ResourceSource::RuntimeAssumption,
        Poe2Resource::Strength => ResourceSource::Accumulated,
        Poe2Resource::Evasion => ResourceSource::Derived,
        Poe2Resource::ColdResistance => ResourceSource::Derived,
        Poe2Resource::WardCost => ResourceSource::Derived,
        Poe2Resource::OfYourLowestAttribute => ResourceSource::Derived,
        Poe2Resource::ActiveCurseOnSelf => ResourceSource::RuntimeAssumption,
        Poe2Resource::ActiveMinion => ResourceSource::RuntimeAssumption,
        Poe2Resource::ActiveUndeadMinion => ResourceSource::RuntimeAssumption,
        Poe2Resource::BrokenFace => ResourceSource::RuntimeAssumption,
        Poe2Resource::ColdResistanceAbove75 => ResourceSource::Derived,
        Poe2Resource::DifferentCommandSkillsUsedInLast15Seconds => ResourceSource::RuntimeAssumption,
        Poe2Resource::EnduranceCharge => ResourceSource::Accumulated,
        Poe2Resource::EnemyElementalAilment => ResourceSource::RuntimeAssumption,
        Poe2Resource::EquippedCorruptedItem => ResourceSource::Accumulated,
        Poe2Resource::EquippedUnique => ResourceSource::Accumulated,
        Poe2Resource::FragileRegrowth => ResourceSource::RuntimeAssumption,
        Poe2Resource::FrenzyCharge => ResourceSource::Accumulated,
        Poe2Resource::Level => ResourceSource::Accumulated,
        Poe2Resource::LightningResistanceAbove75 => ResourceSource::Derived,
        Poe2Resource::PiercedEnemy => ResourceSource::RuntimeAssumption,
        Poe2Resource::PoisonUpTo75 => ResourceSource::RuntimeAssumption,
        Poe2Resource::PowerCharge => ResourceSource::Accumulated,
        Poe2Resource::Rage => ResourceSource::RuntimeAssumption,
        Poe2Resource::SpellCritDealtRecently => ResourceSource::RuntimeAssumption,
        Poe2Resource::StackableUniqueJewel => ResourceSource::Accumulated,
        Poe2Resource::TargetPower => ResourceSource::RuntimeAssumption,
        Poe2Resource::WhiteSocketOnItem => ResourceSource::Accumulated,
    }
}

impl Poe2Resource {
    /// Where this resource's value is read from.
    pub fn source(self) -> (s: ResourceSource)
        ensures
            s == resource_source(self),
    {
        match self {
            Poe2Resource::BlockChance => ResourceSource::Derived,
            Poe2Resource::IncreasedItemFoundQuantity => ResourceSource::Accumulated,
            Poe2Resource::OvercappedBlockChance => ResourceSource::Derived,
            Poe2Resource::ArmourBreak => ResourceSource::Derived,
            Poe2Resource::Quality => ResourceSource::Accumulated,
            Poe2Resource::MaxLifeWithNonChannellingSkills => ResourceSource::Derived,
            Poe2Resource::MaxManaWithNonChannellingSkills => ResourceSource::Derived,
            Poe2Resource::Devotion => ResourceSource::Accumulated,
            Poe2Resource::Dexterity => ResourceSource::Accumulated,
            Poe2Resource::Intelligence => ResourceSource::Accumulated,
            Poe2Resource::Spirit => ResourceSource::Accumulated,
            Poe2Resource::Accuracy => ResourceSource::Derived,
            Poe2Resource::ManaSpentRecently => ResourceSource::RuntimeAssumption,
            Poe2Resource::Strength => ResourceSource::Accumulated,
            Poe2Resource::Evasion => ResourceSource::Derived,
            Poe2Resource::ColdResistance => ResourceSource::Derived,
            Poe2Resource::WardCost => ResourceSource::Derived,
            Poe2Resource::OfYourLowestAttribute => ResourceSource::Derived,
            Poe2Resource::ActiveCurseOnSelf => ResourceSource::RuntimeAssumption,
            Poe2Resource::ActiveMinion => ResourceSource::RuntimeAssumption,
            Poe2Resource::ActiveUndeadMinion => ResourceSource::RuntimeAssumption,
            Poe2Resource::BrokenFace => ResourceSource::RuntimeAssumption,
            Poe2Resource::ColdResistanceAbove75 => ResourceSource::Derived,
            Poe2Resource::DifferentCommandSkillsUsedInLast15Seconds => ResourceSource::RuntimeAssumption,
            Poe2Resource::EnduranceCharge => ResourceSource::Accumulated,
            Poe2Resource::EnemyElementalAilment => ResourceSource::RuntimeAssumption,
            Poe2Resource::EquippedCorruptedItem => ResourceSource::Accumulated,
            Poe2Resource::EquippedUnique => ResourceSource::Accumulated,
            Poe2Resource::FragileRegrowth => ResourceSource::RuntimeAssumption,
            Poe2Resource::FrenzyCharge => ResourceSource::Accumulated,
            Poe2Resource::Level => ResourceSource::Accumulated,
            Poe2Resource::LightningResistanceAbove75 => ResourceSource::Derived,
            Poe2Resource::PiercedEnemy => ResourceSource::RuntimeAssumption,
            Poe2Resource::PoisonUpTo75 => ResourceSource::RuntimeAssumption,
            Poe2Resource::PowerCharge => ResourceSource::Accumulated,
            Poe2Resource::Rage => ResourceSource::RuntimeAssumption,
            Poe2Resource::SpellCritDealtRecently => ResourceSource::RuntimeAssumption,
            Poe2Resource::StackableUniqueJewel => ResourceSource::Accumulated,
            Poe2Resource::TargetPower => ResourceSource::RuntimeAssumption,
            Poe2Resource::WhiteSocketOnItem => ResourceSource::Accumulated,
        }
    }
}

/// A stat scales by one step for every `per` units of `resource`.
#[derive(Debug, Clone, Copy, PartialEq, Eq, Hash, Structural)]
pub struct Poe2Scaling {
    pub resource: Poe2Resource,
    pub per: u32,
}

/// The scaling named by a suffix (its leading `_per_` included), or `None`
/// for a suffix that names no known scaling.
pub open spec fn scaling_of_suffix(s: Seq<char>) -> Option<Poe2Scaling> {
    if s == "_per_1%_block_chance"@ {
        Some(Poe2Scaling { resource: Poe2Resource::BlockChance, per: 1 })
    } else if s == "_per_1%_increased_item_found_quantity"@ {
        Some(Poe2Scaling { resource: Poe2Resource::IncreasedItemFoundQuantity, per: 1 })
    } else if s == "_per_1%_overcapped_block_chance"@ {
        Some(Poe2Scaling { resource: Poe2Resource::OvercappedBlockChance, per: 1 })
    } else if s == "_per_10%_armour_break"@ {
        Some(Poe2Scaling { resource: Poe2Resource::ArmourBreak, per: 10 })
    } else if s == "_per_10%_quality"@ {
        Some(Poe2Scaling { resource: Poe2Resource::Quality, per: 10 })
    } else if s == "_per_100_max_life_with_non_channelling_skills"@ {
        Some(Poe2Scaling { resource: Poe2Resource::MaxLifeWithNonChannellingSkills, per: 100 })
    } else if s == "_per_100_max_mana_with_non_channelling_skills"@ {
        Some(Poe2Scaling { resource: Poe2Resource::MaxManaWithNonChannellingSkills, per: 100 })
    } else if s == "_per_10_devotion"@ {
        Some(Poe2Scaling { resource: Poe2Resource::Devotion, per: 10 })
    } else if s == "_per_10_dex"@ {
        Some(Poe2Scaling { resource: Poe2Resource::Dexterity, per: 10 })
    } else if s == "_per_10_int"@ {
        Some(Poe2Scaling { resource: Poe2Resource::Intelligence, per: 10 })
    } else if s == "_per_10_intelligence"@ {
        Some(Poe2Scaling { resource: Poe2Resource::Intelligence, per: 10 })
    } else if s == "_per_10_spirit"@ {
        Some(Poe2Scaling { resource: Poe2Resource::Spirit, per: 10 })
    } else if s == "_per_15_dex"@ {
        Some(Poe2Scaling { resource: Poe2Resource::Dexterity, per: 15 })
    } else if s == "_per_200_accuracy"@ {
        Some(Poe2Scaling { resource: Poe2Resource::Accuracy, per: 200 })
    } else if s == "_per_200_mana_spent_recently"@ {
        Some(Poe2Scaling { resource: Poe2Resource::ManaSpentRecently, per: 200 })
    } else if s == "_per_20_dex"@ {
        Some(Poe2Scaling { resource: Poe2Resource::Dexterity, per: 20 })
    } else if s == "_per_20_spirit"@ {
        Some(Poe2Scaling { resource: Poe2Resource::Spirit, per: 20 })
    } else if s == "_per_20_strength"@ {
        Some(Poe2Scaling { resource: Poe2Resource::Strength, per: 20 })
    } else if s == "_per_25_dexterity"@ {
        Some(Poe2Scaling { resource: Poe2Resource::Dexterity, per: 25 })
    } else if s == "_per_25_strength"@ {
        Some(Poe2Scaling { resource: Poe2Resource::Strength, per: 25 })
    } else if s == "_per_4%_quality"@ {
        Some(Poe2Scaling { resource: Poe2Resource::Quality, per: 4 })
    } else if s == "_per_450_evasion"@ {
        Some(Poe2Scaling { resource: Poe2Resource::Evasion, per: 450 })
    } else if s == "_per_4_strength"@ {
        Some(Poe2Scaling { resource: Poe2Resource::Strength, per: 4 })
    } else if s == "_per_5%_block_chance"@ {
        Some(Poe2Scaling { resource: Poe2Resource::BlockChance, per: 5 })
    } else if s == "_per_5%_cold_resistance"@ {
        Some(Poe2Scaling { resource: Poe2Resource::ColdResistance, per: 5 })
    } else if s == "_per_50_dex"@ {
        Some(Poe2Scaling { resource: Poe2Resource::Dexterity, per: 50 })
    } else if s == "_per_50_ward_cost"@ {
        Some(Poe2Scaling { resource: Poe2Resource::WardCost, per: 50 })
    } else if s == "_per_5_dex"@ {
        Some(Poe2Scaling { resource: Poe2Resource::Dexterity, per: 5 })
    } else if s == "_per_5_of_your_lowest_attribute"@ {
        Some(Poe2Scaling { resource: Poe2Resource::OfYourLowestAttribute, per: 5 })
    } else if s == "_per_8%_quality"@ {
        Some(Poe2Scaling { resource: Poe2Resource::Quality, per: 8 })
    } else if s == "_per_8_strength"@ {
        Some(Poe2Scaling { resource: Poe2Resource::Strength, per: 8 })
    } else if s == "_per_active_curse_on_self"@ {
        Some(Poe2Scaling { resource: Poe2Resource::ActiveCurseOnSelf, per: 1 })
    } else if s == "_per_active_minion"@ {
        Some(Poe2Scaling { resource: Poe2Resource::ActiveMinion, per: 1 })
    } else if s == "_per_active_undead_minion"@ {
        Some(Poe2Scaling { resource: Poe2Resource::ActiveUndeadMinion, per: 1 })
    } else if s == "_per_broken_face"@ {
        Some(Poe2Scaling { resource: Poe2Resource::BrokenFace, per: 1 })
    } else if s == "_per_cold_resistance_above_75"@ {
        Some(Poe2Scaling { resource: Poe2Resource::ColdResistanceAbove75, per: 1 })
    } else if s == "_per_different_command_skills_used_in_last_15_seconds"@ {
        Some(Poe2Scaling { resource: Poe2Resource::DifferentCommandSkillsUsedInLast15Seconds, per: 1 })
    } else if s == "_per_endurance_charge"@ {
        Some(Poe2Scaling { resource: Poe2Resource::EnduranceCharge, per: 1 })
    } else if s == "_per_enemy_elemental_ailment"@ {
        Some(Poe2Scaling { resource: Poe2Resource::EnemyElementalAilment, per: 1 })
    } else if s == "_per_equipped_corrupted_item"@ {
        Some(Poe2Scaling { resource: Poe2Resource::EquippedCorruptedItem, per: 1 })
    } else if s == "_per_equipped_unique"@ {
        Some(Poe2Scaling { resource: Poe2Resource::EquippedUnique, per: 1 })
    } else if s == "_per_fragile_regrowth"@ {
        Some(Poe2Scaling { resource: Poe2Resource::FragileRegrowth, per: 1 })
    } else if s == "_per_frenzy_charge"@ {
        Some(Poe2Scaling { resource: Poe2Resource::FrenzyCharge, per: 1 })
    } else if s == "_per_level"@ {
        Some(Poe2Scaling { resource: Poe2Resource::Level, per: 1 })
    } else if s == "_per_lightning_resistance_above_75"@ {
        Some(Poe2Scaling { resource: Poe2Resource::LightningResistanceAbove75, per: 1 })
    } else if s == "_per_pierced_enemy"@ {
        Some(Poe2Scaling { resource: Poe2Resource::PiercedEnemy, per: 1 })
    } else if s == "_per_poison_up_to_75%"@ {
        Some(Poe2Scaling { resource: Poe2Resource::PoisonUpTo75, per: 1 })
    } else if s == "_per_power_charge"@ {
        Some(Poe2Scaling { resource: Poe2Resource::PowerCharge, per: 1 })
    } else if s == "_per_rage"@ {
        Some(Poe2Scaling { resource: Poe2Resource::Rage, per: 1 })
    } else if s == "_per_spell_crit_dealt_recently"@ {
        Some(Poe2Scaling { resource: Poe2Resource::SpellCritDealtRecently, per: 1 })
    } else if s == "_per_stackable_unique_jewel"@ {
        Some(Poe2Scaling { resource: Poe2Resource::StackableUniqueJewel, per: 1 })
    } else if s == "_per_target_power"@ {
        Some(Poe2Scaling { resource: Poe2Resource::TargetPower, per: 1 })
    } else if s == "_per_white_socket_on_item"@ {
        Some(Poe2Scaling { resource: Poe2Resource::WhiteSocketOnItem, per: 1 })
    } else {
        None
    }
}

/// The suffixes, leading `_per_` included, that name a scaling by each
/// resource, each with the number of units of one step.
pub open spec fn scaling_suffixes(r: Poe2Resource) -> Seq<(Seq<char>, u32)> {
    match r {
        Poe2Resource::BlockChance => seq![("_per_1%_block_chance"@, 1u32), ("_per_5%_block_chance"@, 5u32)],
        Poe2Resource::IncreasedItemFoundQuantity => seq![("_per_1%_increased_item_found_quantity"@, 1u32)],
        Poe2Resource::OvercappedBlockChance => seq![("_per_1%_overcapped_block_chance"@, 1u32)],
        Poe2Resource::ArmourBreak => seq![("_per_10%_armour_break"@, 10u32)],
        Poe2Resource::Quality => seq![("_per_10%_quality"@, 10u32), ("_per_4%_quality"@, 4u32), ("_per_8%_quality"@, 8u32)],
        Poe2Resource::MaxLifeWithNonChannellingSkills => seq![("_per_100_max_life_with_non_channelling_skills"@, 100u32)],
        Poe2Resource::MaxManaWithNonChannellingSkills => seq![("_per_100_max_mana_with_non_channelling_skills"@, 100u32)],
        Poe2Resource::Devotion => seq![("_per_10_devotion"@, 10u32)],
        Poe2Resource::Dexterity => seq![("_per_10_dex"@, 10u32), ("_per_15_dex"@, 15u32), ("_per_20_dex"@, 20u32), ("_per_25_dexterity"@, 25u32), ("_per_50_dex"@, 50u32), ("_per_5_dex"@, 5u32)],
        Poe2Resource::Intelligence => seq![("_per_10_int"@, 10u32), ("_per_10_intelligence"@, 10u32)],
        Poe2Resource::Spirit => seq![("_per_10_spirit"@, 10u32), ("_per_20_spirit"@, 20u32)],
        Poe2Resource::Accuracy => seq![("_per_200_accuracy"@, 200u32)],
        Poe2Resource::ManaSpentRecently => seq![("_per_200_mana_spent_recently"@, 200u32)],
        Poe2Resource::Strength => seq![("_per_20_strength"@, 20u32), ("_per_25_strength"@, 25u32), ("_per_4_strength"@, 4u32), ("_per_8_strength"@, 8u32)],
        Poe2Resource::Evasion => seq![("_per_450_evasion"@, 450u32)],
        Poe2Resource::ColdResistance => seq![("_per_5%_cold_resistance"@, 5u32)],
        Poe2Resource::WardCost => seq![("_per_50_ward_cost"@, 50u32)],
        Poe2Resource::OfYourLowestAttribute => seq![("_per_5_of_your_lowest_attribute"@, 5u32)],
        Poe2Resource::ActiveCurseOnSelf => seq![("_per_active_curse_on_self"@, 1u32)],
        Poe2Resource::ActiveMinion => seq![("_per_active_minion"@, 1u32)],
        Poe2Resource::ActiveUndeadMinion => seq![("_per_active_undead_minion"@, 1u32)],
        Poe2Resource::BrokenFace => seq![("_per_broken_face"@, 1u32)],
        Poe2Resource::ColdResistanceAbove75 => seq![("_per_cold_resistance_above_75"@, 1u32)],
        Poe2Resource::DifferentCommandSkillsUsedInLast15Seconds => seq![("_per_different_command_skills_used_in_last_15_seconds"@, 1u32)],
        Poe2Resource::EnduranceCharge => seq![("_per_endurance_charge"@, 1u32)],
        Poe2Resource::EnemyElementalAilment => seq![("_per_enemy_elemental_ailment"@, 1u32)],
        Poe2Resource::EquippedCorruptedItem => seq![("_per_equipped_corrupted_item"@, 1u32)],
        Poe2Resource::EquippedUnique => seq![("_per_equipped_unique"@, 1u32)],
        Poe2Resource::FragileRegrowth => seq![("_per_fragile_regrowth"@, 1u32)],
        Poe2Resource::FrenzyCharge => seq![("_per_frenzy_charge"@, 1u32)],
        Poe2Resource::Level => seq![("_per_level"@, 1u32)],
        Poe2Resource::LightningResistanceAbove75 => seq![("_per_lightning_resistance_above_75"@, 1u32)],
        Poe2Resource::PiercedEnemy => seq![("_per_pierced_enemy"@, 1u32)],
        Poe2Resource::PoisonUpTo75 => seq![("_per_poison_up_to_75%"@, 1u32)],
        Poe2Resource::PowerCharge => seq![("_per_power_charge"@, 1u32)],
        Poe2Resource::Rage => seq![("_per_rage"@, 1u32)],
        Poe2Resource::SpellCritDealtRecently => seq![("_per_spell_crit_dealt_recently"@, 1u32)],
        Poe2Resource::StackableUniqueJewel => seq![("_per_stackable_unique_jewel"@, 1u32)],
        Poe2Resource::TargetPower => seq![("_per_target_power"@, 1u32)],
        Poe2Resource::WhiteSocketOnItem => seq![("_per_white_socket_on_item"@, 1u32)],
    }
}

/// A suffix names a scaling only if it is one of the scaled resource's own
/// suffixes, with that suffix's step: no suffix is read as another resource
/// or another step than the ones it names.
pub proof fn law_suffix_names_its_own_scaling(s: Seq<char>)
    ensures
        scaling_of_suffix(s) matches Some(sc) ==> scaling_suffixes(sc.resource).contains((s, sc.per)),
{
    if s == "_per_1%_block_chance"@ {
        assert(scaling_suffixes(Poe2Resource::BlockChance)[0] == (s, 1u32));
    } else if s == "_per_1%_increased_item_found_quantity"@ {
        assert(scaling_suffixes(Poe2Resource::IncreasedItemFoundQuantity)[0] == (s, 1u32));
    } else if s == "_per_1%_overcapped_block_chance"@ {
        assert(scaling_suffixes(Poe2Resource::OvercappedBlockChance)[0] == (s, 1u32));
    } else if s == "_per_10%_armour_break"@ {
        assert(scaling_suffixes(Poe2Resource::ArmourBreak)[0] == (s, 10u32));
    } else if s == "_per_10%_quality"@ {
        assert(scaling_suffixes(Poe2Resource::Quality)[0] == (s, 10u32));
    } else if s == "_per_100_max_life_with_non_channelling_skills"@ {
        assert(scaling_suffixes(Poe2Resource::MaxLifeWithNonChannellingSkills)[0] == (s, 100u32));
    } else if s == "_per_100_max_mana_with_non_channelling_skills"@ {
        assert(scaling_suffixes(Poe2Resource::MaxManaWithNonChannellingSkills)[0] == (s, 100u32));
    } else if s == "_per_10_devotion"@ {
        assert(scaling_suffixes(Poe2Resource::Devotion)[0] == (s, 10u32));
    } else if s == "_per_10_dex"@ {
        assert(scaling_suffixes(Poe2Resource::Dexterity)[0] == (s, 10u32));
    } else if s == "_per_10_int"@ {
        assert(scaling_suffixes(Poe2Resource::Intelligence)[0] == (s, 10u32));
    } else if s == "_per_10_intelligence"@ {
        assert(scaling_suffixes(Poe2Resource::Intelligence)[1] == (s, 10u32));
    } else if s == "_per_10_spirit"@ {
        assert(scaling_suffixes(Poe2Resource::Spirit)[0] == (s, 10u32));
    } else if s == "_per_15_dex"@ {
        assert(scaling_suffixes(Poe2Resource::Dexterity)[1] == (s, 15u32));
    } else if s == "_per_200_accuracy"@ {
        assert(scaling_suffixes(Poe2Resource::Accuracy)[0] == (s, 200u32));
    } else if s == "_per_200_mana_spent_recently"@ {
        assert(scaling_suffixes(Poe2Resource::ManaSpentRecently)[0] == (s, 200u32));
    } else if s == "_per_20_dex"@ {
        assert(scaling_suffixes(Poe2Resource::Dexterity)[2] == (s, 20u32));
    } else if s == "_per_20_spirit"@ {
        assert(scaling_suffixes(Poe2Resource::Spirit)[1] == (s, 20u32));
    } else if s == "_per_20_strength"@ {
        assert(scaling_suffixes(Poe2Resource::Strength)[0] == (s, 20u32));
    } else if s == "_per_25_dexterity"@ {
        assert(scaling_suffixes(Poe2Resource::Dexterity)[3] == (s, 25u32));
    } else if s == "_per_25_strength"@ {
        assert(scaling_suffixes(Poe2Resource::Strength)[1] == (s, 25u32));
    } else if s == "_per_4%_quality"@ {
        assert(scaling_suffixes(Poe2Resource::Quality)[1] == (s, 4u32));
    } else if s == "_per_450_evasion"@ {
        assert(scaling_suffixes(Poe2Resource::Evasion)[0] == (s, 450u32));
    } else if s == "_per_4_strength"@ {
        assert(scaling_suffixes(Poe2Resource::Strength)[2] == (s, 4u32));
    } else if s == "_per_5%_block_chance"@ {
        assert(scaling_suffixes(Poe2Resource::BlockChance)[1] == (s, 5u32));
    } else if s == "_per_5%_cold_resistance"@ {
        assert(scaling_suffixes(Poe2Resource::ColdResistance)[0] == (s, 5u32));
    } else if s == "_per_50_dex"@ {
        assert(scaling_suffixes(Poe2Resource::Dexterity)[4] == (s, 50u32));
    } else if s == "_per_50_ward_cost"@ {
        assert(scaling_suffixes(Poe2Resource::WardCost)[0] == (s, 50u32));
    } else if s == "_per_5_dex"@ {
        assert(scaling_suffixes(Poe2Resource::Dexterity)[5] == (s, 5u32));
    } else if s == "_per_5_of_your_lowest_attribute"@ {
        assert(scaling_suffixes(Poe2Resource::OfYourLowestAttribute)[0] == (s, 5u32));
    } else if s == "_per_8%_quality"@ {
        assert(scaling_suffixes(Poe2Resource::Quality)[2] == (s, 8u32));
    } else if s == "_per_8_strength"@ {
        assert(scaling_suffixes(Poe2Resource::Strength)[3] == (s, 8u32));
    } else if s == "_per_active_curse_on_self"@ {
        assert(scaling_suffixes(Poe2Resource::ActiveCurseOnSelf)[0] == (s, 1u32));
    } else if s == "_per_active_minion"@ {
        assert(scaling_suffixes(Poe2Resource::ActiveMinion)[0] == (s, 1u32));
    } else if s == "_per_active_undead_minion"@ {
        assert(scaling_suffixes(Poe2Resource::ActiveUndeadMinion)[0] == (s, 1u32));
    } else if s == "_per_broken_face"@ {
        assert(scaling_suffixes(Poe2Resource::BrokenFace)[0] == (s, 1u32));
    } else if s == "_per_cold_resistance_above_75"@ {
        assert(scaling_suffixes(Poe2Resource::ColdResistanceAbove75)[0] == (s, 1u32));
    } else if s == "_per_different_command_skills_used_in_last_15_seconds"@ {
        assert(scaling_suffixes(Poe2Resource::DifferentCommandSkillsUsedInLast15Seconds)[0] == (s, 1u32));
    } else if s == "_per_endurance_charge"@ {
        assert(scaling_suffixes(Poe2Resource::EnduranceCharge)[0] == (s, 1u32));
    } else if s == "_per_enemy_elemental_ailment"@ {
        assert(scaling_suffixes(Poe2Resource::EnemyElementalAilment)[0] == (s, 1u32));
    } else if s == "_per_equipped_corrupted_item"@ {
        assert(scaling_suffixes(Poe2Resource::EquippedCorruptedItem)[0] == (s, 1u32));
    } else if s == "_per_equipped_unique"@ {
        assert(scaling_suffixes(Poe2Resource::EquippedUnique)[0] == (s, 1u32));
    } else if s == "_per_fragile_regrowth"@ {
        assert(scaling_suffixes(Poe2Resource::FragileRegrowth)[0] == (s, 1u32));
    } else if s == "_per_frenzy_charge"@ {
        assert(scaling_suffixes(Poe2Resource::FrenzyCharge)[0] == (s, 1u32));
    } else if s == "_per_level"@ {
        assert(scaling_suffixes(Poe2Resource::Level)[0] == (s, 1u32));
    } else if s == "_per_lightning_resistance_above_75"@ {
        assert(scaling_suffixes(Poe2Resource::LightningResistanceAbove75)[0] == (s, 1u32));
    } else if s == "_per_pierced_enemy"@ {
        assert(scaling_suffixes(Poe2Resource::PiercedEnemy)[0] == (s, 1u32));
    } else if s == "_per_poison_up_to_75%"@ {
        assert(scaling_suffixes(Poe2Resource::PoisonUpTo75)[0] == (s, 1u32));
    } else if s == "_per_power_charge"@ {
        assert(scaling_suffixes(Poe2Resource::PowerCharge)[0] == (s, 1u32));
    } else if s == "_per_rage"@ {
        assert(scaling_suffixes(Poe2Resource::Rage)[0] == (s, 1u32));
    } else if s == "_per_spell_crit_dealt_recently"@ {
        assert(scaling_suffixes(Poe2Resource::SpellCritDealtRecently)[0] == (s, 1u32));
    } else if s == "_per_stackable_unique_jewel"@ {
        assert(scaling_suffixes(Poe2Resource::StackableUniqueJewel)[0] == (s, 1u32));
    } else if s == "_per_target_power"@ {
        assert(scaling_suffixes(Poe2Resource::TargetPower)[0] == (s, 1u32));
    } else if s == "_per_white_socket_on_item"@ {
        assert(scaling_suffixes(Poe2Resource::WhiteSocketOnItem)[0] == (s, 1u32));
    }
}

/// Maps a scaling suffix, its leading `_per_` included, to its scaling.
/// The suffix must be one of the known scaling suffixes.
pub fn parse_scaling(suffix: &str) -> (r: Poe2Scaling)
    requires
        scaling_of_suffix(suffix@) is Some,
    ensures
        scaling_of_suffix(suffix@) == Some(r),
        scaling_suffixes(r.resource).contains((suffix@, r.per)),
{
    proof {
        law_suffix_names_its_own_scaling(suffix@);
    }
    let s = chars_of(suffix);
    if chars_eq(&s, "_per_1%_block_chance") {
        Poe2Scaling { resource: Poe2Resource::BlockChance, per: 1 }
    } else if chars_eq(&s, "_per_1%_increased_item_found_quantity") {
        Poe2Scaling { resource: Poe2Resource::IncreasedItemFoundQuantity, per: 1 }
    } else if chars_eq(&s, "_per_1%_overcapped_block_chance") {
        Poe2Scaling { resource: Poe2Resource::OvercappedBlockChance, per: 1 }
    } else if chars_eq(&s, "_per_10%_armour_break") {
        Poe2Scaling { resource: Poe2Resource::ArmourBreak, per: 10 }
    } else if chars_eq(&s, "_per_10%_quality") {
        Poe2Scaling { resource: Poe2Resource::Quality, per: 10 }
    } else if chars_eq(&s, "_per_100_max_life_with_non_channelling_skills") {
        Poe2Scaling { resource: Poe2Resource::MaxLifeWithNonChannellingSkills, per: 100 }
    } else if chars_eq(&s, "_per_100_max_mana_with_non_channelling_skills") {
        Poe2Scaling { resource: Poe2Resource::MaxManaWithNonChannellingSkills, per: 100 }
    } else if chars_eq(&s, "_per_10_devotion") {
        Poe2Scaling { resource: Poe2Resource::Devotion, per: 10 }
    } else if chars_eq(&s, "_per_10_dex") {
        Poe2Scaling { resource: Poe2Resource::Dexterity, per: 10 }
    } else if chars_eq(&s, "_per_10_int") {
        Poe2Scaling { resource: Poe2Resource::Intelligence, per: 10 }
    } else if chars_eq(&s, "_per_10_intelligence") {
        Poe2Scaling { resource: Poe2Resource::Intelligence, per: 10 }
    } else if chars_eq(&s, "_per_10_spirit") {
        Poe2Scaling { resource: Poe2Resource::Spirit, per: 10 }
    } else if chars_eq(&s, "_per_15_dex") {
        Poe2Scaling { resource: Poe2Resource::Dexterity, per: 15 }
    } else if chars_eq(&s, "_per_200_accuracy") {
        Poe2Scaling { resource: Poe2Resource::Accuracy, per: 200 }
    } else if chars_eq(&s, "_per_200_mana_spent_recently") {
        Poe2Scaling { resource: Poe2Resource::ManaSpentRecently, per: 200 }
    } else if chars_eq(&s, "_per_20_dex") {
        Poe2Scaling { resource: Poe2Resource::Dexterity, per: 20 }
    } else if chars_eq(&s, "_per_20_spirit") {
        Poe2Scaling { resource: Poe2Resource::Spirit, per: 20 }
    } else if chars_eq(&s, "_per_20_strength") {
        Poe2Scaling { resource: Poe2Resource::Strength, per: 20 }
    } else if chars_eq(&s, "_per_25_dexterity") {
        Poe2Scaling { resource: Poe2Resource::Dexterity, per: 25 }
    } else if chars_eq(&s, "_per_25_strength") {
        Poe2Scaling { resource: Poe2Resource::Strength, per: 25 }
    } else if chars_eq(&s, "_per_4%_quality") {
        Poe2Scaling { resource: Poe2Resource::Quality, per: 4 }
    } else if chars_eq(&s, "_per_450_evasion") {
        Poe2Scaling { resource: Poe2Resource::Evasion, per: 450 }
    } else if chars_eq(&s, "_per_4_strength") {
        Poe2Scaling { resource: Poe2Resource::Strength, per: 4 }
    } else if chars_eq(&s, "_per_5%_block_chance") {
        Poe2Scaling { resource: Poe2Resource::BlockChance, per: 5 }
    } else if chars_eq(&s, "_per_5%_cold_resistance") {
        Poe2Scaling { resource: Poe2Resource::ColdResistance, per: 5 }
    } else if chars_eq(&s, "_per_50_dex") {
        Poe2Scaling { resource: Poe2Resource::Dexterity, per: 50 }
    } else if chars_eq(&s, "_per_50_ward_cost") {
        Poe2Scaling { resource: Poe2Resource::WardCost, per: 50 }
    } else if chars_eq(&s, "_per_5_dex") {
        Poe2Scaling { resource: Poe2Resource::Dexterity, per: 5 }
    } else if chars_eq(&s, "_per_5_of_your_lowest_attribute") {
        Poe2Scaling { resource: Poe2Resource::OfYourLowestAttribute, per: 5 }
    } else if chars_eq(&s, "_per_8%_quality") {
        Poe2Scaling { resource: Poe2Resource::Quality, per: 8 }
    } else if chars_eq(&s, "_per_8_strength") {
        Poe2Scaling { resource: Poe2Resource::Strength, per: 8 }
    } else if chars_eq(&s, "_per_active_curse_on_self") {
        Poe2Scaling { resource: Poe2Resource::ActiveCurseOnSelf, per: 1 }
    } else if chars_eq(&s, "_per_active_minion") {
        Poe2Scaling { resource: Poe2Resource::ActiveMinion, per: 1 }
    } else if chars_eq(&s, "_per_active_undead_minion") {
        Poe2Scaling { resource: Poe2Resource::ActiveUndeadMinion, per: 1 }
    } else if chars_eq(&s, "_per_broken_face") {
        Poe2Scaling { resource: Poe2Resource::BrokenFace, per: 1 }
    } else if chars_eq(&s, "_per_cold_resistance_above_75") {
        Poe2Scaling { resource: Poe2Resource::ColdResistanceAbove75, per: 1 }
    } else if chars_eq(&s, "_per_different_command_skills_used_in_last_15_seconds") {
        Poe2Scaling { resource: Poe2Resource::DifferentCommandSkillsUsedInLast15Seconds, per: 1 }
    } else if chars_eq(&s, "_per_endurance_charge") {
        Poe2Scaling { resource: Poe2Resource::EnduranceCharge, per: 1 }
    } else if chars_eq(&s, "_per_enemy_elemental_ailment") {
        Poe2Scaling { resource: Poe2Resource::EnemyElementalAilment, per: 1 }
    } else if chars_eq(&s, "_per_equipped_corrupted_item") {
        Poe2Scaling { resource: Poe2Resource::EquippedCorruptedItem, per: 1 }
    } else if chars_eq(&s, "_per_equipped_unique") {
        Poe2Scaling { resource: Poe2Resource::EquippedUnique, per: 1 }
    } else if chars_eq(&s, "_per_fragile_regrowth") {
        Poe2Scaling { resource: Poe2Resource::FragileRegrowth, per: 1 }
    } else if chars_eq(&s, "_per_frenzy_charge") {
        Poe2Scaling { resource: Poe2Resource::FrenzyCharge, per: 1 }
    } else if chars_eq(&s, "_per_level") {
        Poe2Scaling { resource: Poe2Resource::Level, per: 1 }
    } else if chars_eq(&s, "_per_lightning_resistance_above_75") {
        Poe2Scaling { resource: Poe2Resource::LightningResistanceAbove75, per: 1 }
    } else if chars_eq(&s, "_per_pierced_enemy") {
        Poe2Scaling { resource: Poe2Resource::PiercedEnemy, per: 1 }
    } else if chars_eq(&s, "_per_poison_up_to_75%") {
        Poe2Scaling { resource: Poe2Resource::PoisonUpTo75, per: 1 }
    } else if chars_eq(&s, "_per_power_charge") {
        Poe2Scaling { resource: Poe2Resource::PowerCharge, per: 1 }
    } else if chars_eq(&s, "_per_rage") {
        Poe2Scaling { resource: Poe2Resource::Rage, per: 1 }
    } else if chars_eq(&s, "_per_spell_crit_dealt_recently") {
        Poe2Scaling { resource: Poe2Resource::SpellCritDealtRecently, per: 1 }
    } else if chars_eq(&s, "_per_stackable_unique_jewel") {
        Poe2Scaling { resource: Poe2Resource::StackableUniqueJewel, per: 1 }
    } else if chars_eq(&s, "_per_target_power") {
        Poe2Scaling { resource: Poe2Resource::TargetPower, per: 1 }
    } else if chars_eq(&s, "_per_white_socket_on_item") {
        Poe2Scaling { resource: Poe2Resource::WhiteSocketOnItem, per: 1 }
    } else {
        Poe2Scaling { resource: Poe2Resource::WhiteSocketOnItem, per: 1 }
    }
}

/// Whether a suffix names a known scaling.
pub fn is_scaling_suffix(suffix: &str) -> (b: bool)
    ensures
        b == (scaling_of_suffix(suffix@) is Some),
{
    let s = chars_of(suffix);
    if chars_eq(&s, "_per_1%_block_chance") {
        true
    } else if chars_eq(&s, "_per_1%_increased_item_found_quantity") {
        true
    } else if chars_eq(&s, "_per_1%_overcapped_block_chance") {
        true
    } else if chars_eq(&s, "_per_10%_armour_break") {
        true
    } else if chars_eq(&s, "_per_10%_quality") {
        true
    } else if chars_eq(&s, "_per_100_max_life_with_non_channelling_skills") {
        true
    } else if chars_eq(&s, "_per_100_max_mana_with_non_channelling_skills") {
        true
    } else if chars_eq(&s, "_per_10_devotion") {
        true
    } else if chars_eq(&s, "_per_10_dex") {
        true
    } else if chars_eq(&s, "_per_10_int") {
        true
    } else if chars_eq(&s, "_per_10_intelligence") {
        true
    } else if chars_eq(&s, "_per_10_spirit") {
        true
    } else if chars_eq(&s, "_per_15_dex") {
        true
    } else if chars_eq(&s, "_per_200_accuracy") {
        true
    } else if chars_eq(&s, "_per_200_mana_spent_recently") {
        true
    } else if chars_eq(&s, "_per_20_dex") {
        true
    } else if chars_eq(&s, "_per_20_spirit") {
        true
    } else if chars_eq(&s, "_per_20_strength") {
        true
    } else if chars_eq(&s, "_per_25_dexterity") {
        true
    } else if chars_eq(&s, "_per_25_strength") {
        true
    } else if chars_eq(&s, "_per_4%_quality") {
        true
    } else if chars_eq(&s, "_per_450_evasion") {
        true
    } else if chars_eq(&s, "_per_4_strength") {
        true
    } else if chars_eq(&s, "_per_5%_block_chance") {
        true
    } else if chars_eq(&s, "_per_5%_cold_resistance") {
        true
    } else if chars_eq(&s, "_per_50_dex") {
        true
    } else if chars_eq(&s, "_per_50_ward_cost") {
        true
    } else if chars_eq(&s, "_per_5_dex") {
        true
    } else if chars_eq(&s, "_per_5_of_your_lowest_attribute") {
        true
    } else if chars_eq(&s, "_per_8%_quality") {
        true
    } else if chars_eq(&s, "_per_8_strength") {
        true
    } else if chars_eq(&s, "_per_active_curse_on_self") {
        true
    } else if chars_eq(&s, "_per_active_minion") {
        true
    } else if chars_eq(&s, "_per_active_undead_minion") {
        true
    } else if chars_eq(&s, "_per_broken_face") {
        true
    } else if chars_eq(&s, "_per_cold_resistance_above_75") {
        true
    } else if chars_eq(&s, "_per_different_command_skills_used_in_last_15_seconds") {
        true
    } else if chars_eq(&s, "_per_endurance_charge") {
        true
    } else if chars_eq(&s, "_per_enemy_elemental_ailment") {
        true
    } else if chars_eq(&s, "_per_equipped_corrupted_item") {
        true
    } else if chars_eq(&s, "_per_equipped_unique") {
        true
    } else if chars_eq(&s, "_per_fragile_regrowth") {
        true
    } else if chars_eq(&s, "_per_frenzy_charge") {
        true
    } else if chars_eq(&s, "_per_level") {
        true
    } else if chars_eq(&s, "_per_lightning_resistance_above_75") {
        true
    } else if chars_eq(&s, "_per_pierced_enemy") {
        true
    } else if chars_eq(&s, "_per_poison_up_to_75%") {
        true
    } else if chars_eq(&s, "_per_power_charge") {
        true
    } else if chars_eq(&s, "_per_rage") {
        true
    } else if chars_eq(&s, "_per_spell_crit_dealt_recently") {
        true
    } else if chars_eq(&s, "_per_stackable_unique_jewel") {
        true
    } else if chars_eq(&s, "_per_target_power") {
        true
    } else if chars_eq(&s, "_per_white_socket_on_item") {
        true
    } else {
        false
    }
}

} // verus!
