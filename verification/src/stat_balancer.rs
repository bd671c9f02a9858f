//! Which local stat of an equipped item a stat total feeds, when the final
//! item stats are filled in.

use vstd::prelude::*;

use crate::item::state::hash_string;
use crate::item::state::EquipSlot;
use crate::item::state::Poe2ModifierKind;

verus! {

/// A local stat that the final stats of an item track, one for each stat
/// identifier the final item stats know.
#[derive(Debug, Clone, Copy, PartialEq, Eq, Hash, Structural)]
pub enum LocalStat {
    BasePhysicalDamageReductionRating,
    PhysicalDamageReductionRatingIncreased,
    EnergyShield,
    EnergyShieldIncreased,
    BaseEvasionRating,
    EvasionRatingIncreased,
    ArmourAndEvasionIncreased,
    ArmourAndEnergyShieldIncreased,
    EvasionAndEnergyShieldIncreased,
    AttributeRequirementsIncreased,
    ArmourAndEvasionAndEnergyShieldIncreased,
    MinimumAddedPhysicalDamage,
    MaximumAddedPhysicalDamage,
    MinimumAddedFireDamage,
    MaximumAddedFireDamage,
    MinimumAddedColdDamage,
    MaximumAddedColdDamage,
    MinimumAddedLightningDamage,
    MaximumAddedLightningDamage,
    PhysicalDamageIncreased,
    LifeLeechFromPhysicalDamagePermyriad,
    ManaLeechFromPhysicalDamagePermyriad,
    LifeGainPerTarget,
    ManaGainPerTarget,
    AttackSpeedIncreased,
    CriticalStrikeChanceIncreased,
    CriticalStrikeMultiplierPlus,
    BlockChanceIncreased,
    SpiritIncreased,
    NumberOfAdditionalArrows,
    ChanceToFire1AdditionalProjectilePercentWithRolloverWithBowAttacks,
    AdditionalCharmSlots,
    BaseStunDurationIncreased,
    HitDamageStunMultiplierIncreased,
    ChargesAddedIncreased,
    MaxChargesIncreased,
    ChargesUsedIncreased,
    PercentChanceToGainFlaskChargeOnKill,
    FlaskGainXChargesEveryMinute,
    FlaskRecoverySpeedIncreased,
    FlaskAmountToRecoverIncreased,
    FlaskAmountToRecoverIncreasedWhenOnLowLife,
    FlaskAmountToRecoverIncreasedWhenOnLowMana,
    FlaskLifeToRecoverIncreased,
    FlaskManaToRecoverIncreased,
    FlaskRemovesPercentOfLifeRecoveryFromManaOnUse,
    FlaskRemovesPercentOfManaRecoveryFromLifeOnUse,
    FlaskRecoveryAmountPercentToRecoverInstantly,
    FlaskRecoversInstantly,
    FlaskMinionHealPercent,
    CharmDurationIncreased,
    MaximumPrefixesAllowedPlus,
    MaximumSuffixesAllowedPlus,
    ItemBenefitSocketableAsIfHelmet,
    ItemAdditionalSkillSlots,
    MaximumQualityIsPercent,
    ItemBenefitSocketableAsIfGloves,
    ItemBenefitSocketableAsIfBoots,
    CharmSlots,
    FlaskUseOnAffectedByFreeze,
    FlaskUseOnAffectedByBleed,
    FlaskUseOnAffectedByPoison,
    FlaskUseOnAffectedByIgnite,
    FlaskUseOnAffectedByShock,
    FlaskUseOnStunned,
    FlaskUseOnAffectedBySlow,
    FlaskUseOnFireDamageTaken,
    FlaskUseOnColdDamageTaken,
    FlaskUseOnLightningDamageTaken,
    FlaskUseOnChaosDamageTaken,
    FlaskUseOnKillingRareOrUniqueEnemy,
    CharmTriggerWhenCursed,
    Ward,
    GainXRageOnHit,
    WeaponAccuracyIsUnaffectedByDistance,
    CullingStrike,
    ChanceToBleedOnHitPercent,
    CannotBeThrown,
    WeaponDazeChancePercent,
    AlwaysHit,
    ExplodeOnKillWithCritPercentPhysicalDamageToDeal,
    CrushOnHit,
    WeaponImplicitHiddenPercentBaseDamageIsFire,
    DisplayGrantsSpearThrowSkill,
    MaimOnHitPercent,
    ProjectileSpeedIncreased,
    IncreasedWeaponRange,
    ChanceToBlindOnHitPercent,
    PoisonOnHitPercent,
    ApplyXArmourBreakOnCrit,
    WeaponRollCritsTwice,
    AttacksCannotBeBlocked,
    AdditionalAttackChainChancePercent,
    CrossbowNoAmmoSkillsAndGiveAlternateGrenadeDefaultAttack,
}

/// The number of rows of the local stat table.
pub open spec fn local_stat_table_len() -> int {
    94
}

/// The local stat of row `i` of the local stat table.
pub open spec fn local_stat_at(i: int) -> LocalStat {
    if i == 0 {
        LocalStat::BasePhysicalDamageReductionRating
    } else if i == 1 {
        LocalStat::PhysicalDamageReductionRatingIncreased
    } else if i == 2 {
        LocalStat::EnergyShield
    } else if i == 3 {
        LocalStat::EnergyShieldIncreased
    } else if i == 4 {
        LocalStat::BaseEvasionRating
    } else if i == 5 {
        LocalStat::EvasionRatingIncreased
    } else if i == 6 {
        LocalStat::ArmourAndEvasionIncreased
    } else if i == 7 {
        LocalStat::ArmourAndEnergyShieldIncreased
    } else if i == 8 {
        LocalStat::EvasionAndEnergyShieldIncreased
    } else if i == 9 {
        LocalStat::AttributeRequirementsIncreased
    } else if i == 10 {
        LocalStat::ArmourAndEvasionAndEnergyShieldIncreased
    } else if i == 11 {
        LocalStat::MinimumAddedPhysicalDamage
    } else if i == 12 {
        LocalStat::MaximumAddedPhysicalDamage
    } else if i == 13 {
        LocalStat::MinimumAddedFireDamage
    } else if i == 14 {
        LocalStat::MaximumAddedFireDamage
    } else if i == 15 {
        LocalStat::MinimumAddedColdDamage
    } else if i == 16 {
        LocalStat::MaximumAddedColdDamage
    } else if i == 17 {
        LocalStat::MinimumAddedLightningDamage
    } else if i == 18 {
        LocalStat::MaximumAddedLightningDamage
    } else if i == 19 {
        LocalStat::PhysicalDamageIncreased
    } else if i == 20 {
        LocalStat::LifeLeechFromPhysicalDamagePermyriad
    } else if i == 21 {
        LocalStat::ManaLeechFromPhysicalDamagePermyriad
    } else if i == 22 {
        LocalStat::LifeGainPerTarget
    } else if i == 23 {
        LocalStat::ManaGainPerTarget
    } else if i == 24 {
        LocalStat::AttackSpeedIncreased
    } else if i == 25 {
        LocalStat::CriticalStrikeChanceIncreased
    } else if i == 26 {
        LocalStat::CriticalStrikeMultiplierPlus
    } else if i == 27 {
        LocalStat::BlockChanceIncreased
    } else if i == 28 {
        LocalStat::SpiritIncreased
    } else if i == 29 {
        LocalStat::NumberOfAdditionalArrows
    } else if i == 30 {
        LocalStat::ChanceToFire1AdditionalProjectilePercentWithRolloverWithBowAttacks
    } else if i == 31 {
        LocalStat::AdditionalCharmSlots
    } else if i == 32 {
        LocalStat::BaseStunDurationIncreased
    } else if i == 33 {
        LocalStat::HitDamageStunMultiplierIncreased
    } else if i == 34 {
        LocalStat::ChargesAddedIncreased
    } else if i == 35 {
        LocalStat::MaxChargesIncreased
    } else if i == 36 {
        LocalStat::ChargesUsedIncreased
    } else if i == 37 {
        LocalStat::PercentChanceToGainFlaskChargeOnKill
    } else if i == 38 {
        LocalStat::FlaskGainXChargesEveryMinute
    } else if i == 39 {
        LocalStat::FlaskRecoverySpeedIncreased
    } else if i == 40 {
        LocalStat::FlaskAmountToRecoverIncreased
    } else if i == 41 {
        LocalStat::FlaskAmountToRecoverIncreasedWhenOnLowLife
    } else if i == 42 {
        LocalStat::FlaskAmountToRecoverIncreasedWhenOnLowMana
    } else if i == 43 {
        LocalStat::FlaskLifeToRecoverIncreased
    } else if i == 44 {
        LocalStat::FlaskManaToRecoverIncreased
    } else if i == 45 {
        LocalStat::FlaskRemovesPercentOfLifeRecoveryFromManaOnUse
    } else if i == 46 {
        LocalStat::FlaskRemovesPercentOfManaRecoveryFromLifeOnUse
    } else if i == 47 {
        LocalStat::FlaskRecoveryAmountPercentToRecoverInstantly
    } else if i == 48 {
        LocalStat::FlaskRecoversInstantly
    } else if i == 49 {
        LocalStat::FlaskMinionHealPercent
    } else if i == 50 {
        LocalStat::CharmDurationIncreased
    } else if i == 51 {
        LocalStat::MaximumPrefixesAllowedPlus
    } else if i == 52 {
        LocalStat::MaximumSuffixesAllowedPlus
    } else if i == 53 {
        LocalStat::ItemBenefitSocketableAsIfHelmet
    } else if i == 54 {
        LocalStat::ItemAdditionalSkillSlots
    } else if i == 55 {
        LocalStat::MaximumQualityIsPercent
    } else if i == 56 {
        LocalStat::ItemBenefitSocketableAsIfGloves
    } else if i == 57 {
        LocalStat::ItemBenefitSocketableAsIfBoots
    } else if i == 58 {
        LocalStat::CharmSlots
    } else if i == 59 {
        LocalStat::FlaskUseOnAffectedByFreeze
    } else if i == 60 {
        LocalStat::FlaskUseOnAffectedByBleed
    } else if i == 61 {
        LocalStat::FlaskUseOnAffectedByPoison
    } else if i == 62 {
        LocalStat::FlaskUseOnAffectedByIgnite
    } else if i == 63 {
        LocalStat::FlaskUseOnAffectedByShock
    } else if i == 64 {
        LocalStat::FlaskUseOnStunned
    } else if i == 65 {
        LocalStat::FlaskUseOnAffectedBySlow
    } else if i == 66 {
        LocalStat::FlaskUseOnFireDamageTaken
    } else if i == 67 {
        LocalStat::FlaskUseOnColdDamageTaken
    } else if i == 68 {
        LocalStat::FlaskUseOnLightningDamageTaken
    } else if i == 69 {
        LocalStat::FlaskUseOnChaosDamageTaken
    } else if i == 70 {
        LocalStat::FlaskUseOnKillingRareOrUniqueEnemy
    } else if i == 71 {
        LocalStat::CharmTriggerWhenCursed
    } else if i == 72 {
        LocalStat::Ward
    } else if i == 73 {
        LocalStat::GainXRageOnHit
    } else if i == 74 {
        LocalStat::WeaponAccuracyIsUnaffectedByDistance
    } else if i == 75 {
        LocalStat::CullingStrike
    } else if i == 76 {
        LocalStat::ChanceToBleedOnHitPercent
    } else if i == 77 {
        LocalStat::CannotBeThrown
    } else if i == 78 {
        LocalStat::WeaponDazeChancePercent
    } else if i == 79 {
        LocalStat::AlwaysHit
    } else if i == 80 {
        LocalStat::ExplodeOnKillWithCritPercentPhysicalDamageToDeal
    } else if i == 81 {
        LocalStat::CrushOnHit
    } else if i == 82 {
        LocalStat::WeaponImplicitHiddenPercentBaseDamageIsFire
    } else if i == 83 {
        LocalStat::DisplayGrantsSpearThrowSkill
    } else if i == 84 {
        LocalStat::MaimOnHitPercent
    } else if i == 85 {
        LocalStat::ProjectileSpeedIncreased
    } else if i == 86 {
        LocalStat::IncreasedWeaponRange
    } else if i == 87 {
        LocalStat::ChanceToBlindOnHitPercent
    } else if i == 88 {
        LocalStat::PoisonOnHitPercent
    } else if i == 89 {
        LocalStat::ApplyXArmourBreakOnCrit
    } else if i == 90 {
        LocalStat::WeaponRollCritsTwice
    } else if i == 91 {
        LocalStat::AttacksCannotBeBlocked
    } else if i == 92 {
        LocalStat::AdditionalAttackChainChancePercent
    } else {
        LocalStat::CrossbowNoAmmoSkillsAndGiveAlternateGrenadeDefaultAttack
    }
}

/// The stat identifier of row `i` of the local stat table.
pub open spec fn local_stat_name(i: int) -> Seq<char> {
    if i == 0 {
        "local_base_physical_damage_reduction_rating"@
    } else if i == 1 {
        "local_physical_damage_reduction_rating_+%"@
    } else if i == 2 {
        "local_energy_shield"@
    } else if i == 3 {
        "local_energy_shield_+%"@
    } else if i == 4 {
        "local_base_evasion_rating"@
    } else if i == 5 {
        "local_evasion_rating_+%"@
    } else if i == 6 {
        "local_armour_and_evasion_+%"@
    } else if i == 7 {
        "local_armour_and_energy_shield_+%"@
    } else if i == 8 {
        "local_evasion_and_energy_shield_+%"@
    } else if i == 9 {
        "local_attribute_requirements_+%"@
    } else if i == 10 {
        "local_armour_and_evasion_and_energy_shield_+%"@
    } else if i == 11 {
        "local_minimum_added_physical_damage"@
    } else if i == 12 {
        "local_maximum_added_physical_damage"@
    } else if i == 13 {
        "local_minimum_added_fire_damage"@
    } else if i == 14 {
        "local_maximum_added_fire_damage"@
    } else if i == 15 {
        "local_minimum_added_cold_damage"@
    } else if i == 16 {
        "local_maximum_added_cold_damage"@
    } else if i == 17 {
        "local_minimum_added_lightning_damage"@
    } else if i == 18 {
        "local_maximum_added_lightning_damage"@
    } else if i == 19 {
        "local_physical_damage_+%"@
    } else if i == 20 {
        "local_life_leech_from_physical_damage_permyriad"@
    } else if i == 21 {
        "local_mana_leech_from_physical_damage_permyriad"@
    } else if i == 22 {
        "local_life_gain_per_target"@
    } else if i == 23 {
        "local_mana_gain_per_target"@
    } else if i == 24 {
        "local_attack_speed_+%"@
    } else if i == 25 {
        "local_critical_strike_chance_+%"@
    } else if i == 26 {
        "local_critical_strike_multiplier_+"@
    } else if i == 27 {
        "local_block_chance_+%"@
    } else if i == 28 {
        "local_spirit_+%"@
    } else if i == 29 {
        "number_of_additional_arrows"@
    } else if i == 30 {
        "chance_to_fire_1_additional_projectile_%_with_rollover_with_bow_attacks"@
    } else if i == 31 {
        "local_additional_charm_slots"@
    } else if i == 32 {
        "local_base_stun_duration_+%"@
    } else if i == 33 {
        "local_hit_damage_stun_multiplier_+%"@
    } else if i == 34 {
        "local_charges_added_+%"@
    } else if i == 35 {
        "local_max_charges_+%"@
    } else if i == 36 {
        "local_charges_used_+%"@
    } else if i == 37 {
        "local_%_chance_to_gain_flask_charge_on_kill"@
    } else if i == 38 {
        "local_flask_gain_X_charges_every_minute"@
    } else if i == 39 {
        "local_flask_recovery_speed_+%"@
    } else if i == 40 {
        "local_flask_amount_to_recover_+%"@
    } else if i == 41 {
        "local_flask_amount_to_recover_+%_when_on_low_life"@
    } else if i == 42 {
        "local_flask_amount_to_recover_+%_when_on_low_mana"@
    } else if i == 43 {
        "local_flask_life_to_recover_+%"@
    } else if i == 44 {
        "local_flask_mana_to_recover_+%"@
    } else if i == 45 {
        "local_flask_removes_%_of_life_recovery_from_mana_on_use"@
    } else if i == 46 {
        "local_flask_removes_%_of_mana_recovery_from_life_on_use"@
    } else if i == 47 {
        "local_flask_recovery_amount_%_to_recover_instantly"@
    } else if i == 48 {
        "local_flask_recovers_instantly"@
    } else if i == 49 {
        "local_flask_minion_heal_%"@
    } else if i == 50 {
        "local_charm_duration_+%"@
    } else if i == 51 {
        "local_maximum_prefixes_allowed_+"@
    } else if i == 52 {
        "local_maximum_suffixes_allowed_+"@
    } else if i == 53 {
        "local_item_benefit_socketable_as_if_helmet"@
    } else if i == 54 {
        "local_item_additional_skill_slots"@
    } else if i == 55 {
        "local_maximum_quality_is_%"@
    } else if i == 56 {
        "local_item_benefit_socketable_as_if_gloves"@
    } else if i == 57 {
        "local_item_benefit_socketable_as_if_boots"@
    } else if i == 58 {
        "local_charm_slots"@
    } else if i == 59 {
        "local_flask_use_on_affected_by_freeze"@
    } else if i == 60 {
        "local_flask_use_on_affected_by_bleed"@
    } else if i == 61 {
        "local_flask_use_on_affected_by_poison"@
    } else if i == 62 {
        "local_flask_use_on_affected_by_ignite"@
    } else if i == 63 {
        "local_flask_use_on_affected_by_shock"@
    } else if i == 64 {
        "local_flask_use_on_stunned"@
    } else if i == 65 {
        "local_flask_use_on_affected_by_slow"@
    } else if i == 66 {
        "local_flask_use_on_fire_damage_taken"@
    } else if i == 67 {
        "local_flask_use_on_cold_damage_taken"@
    } else if i == 68 {
        "local_flask_use_on_lightning_damage_taken"@
    } else if i == 69 {
        "local_flask_use_on_chaos_damage_taken"@
    } else if i == 70 {
        "local_flask_use_on_killing_rare_or_unique_enemy"@
    } else if i == 71 {
        "local_charm_trigger_when_cursed"@
    } else if i == 72 {
        "local_ward"@
    } else if i == 73 {
        "local_gain_X_rage_on_hit"@
    } else if i == 74 {
        "local_weapon_accuracy_is_unaffected_by_distance"@
    } else if i == 75 {
        "local_culling_strike"@
    } else if i == 76 {
        "local_chance_to_bleed_on_hit_%"@
    } else if i == 77 {
        "local_cannot_be_thrown"@
    } else if i == 78 {
        "local_weapon_daze_chance_%"@
    } else if i == 79 {
        "local_always_hit"@
    } else if i == 80 {
        "local_explode_on_kill_with_crit_%_physical_damage_to_deal"@
    } else if i == 81 {
        "local_crush_on_hit"@
    } else if i == 82 {
        "local_weapon_implicit_hidden_%_base_damage_is_fire"@
    } else if i == 83 {
        "local_display_grants_spear_throw_skill"@
    } else if i == 84 {
        "local_maim_on_hit_%"@
    } else if i == 85 {
        "local_projectile_speed_+%"@
    } else if i == 86 {
        "local_+%_weapon_range"@
    } else if i == 87 {
        "local_chance_to_blind_on_hit_%"@
    } else if i == 88 {
        "local_poison_on_hit_%"@
    } else if i == 89 {
        "local_apply_X_armour_break_on_crit"@
    } else if i == 90 {
        "local_weapon_roll_crits_twice"@
    } else if i == 91 {
        "local_attacks_cannot_be_blocked"@
    } else if i == 92 {
        "local_additional_attack_chain_chance_%"@
    } else if i == 93 {
        "local_crossbow_no_ammo_skills_and_give_alternate_grenade_default_attack"@
    } else {
        Seq::empty()
    }
}

/// Row `i` of the local stat table: the stat identifier and its local stat.
pub fn local_stat_row(i: usize) -> (r: (&'static str, LocalStat))
    requires
        i < local_stat_table_len(),
    ensures
        r.0@ == local_stat_name(i as int),
        r.1 == local_stat_at(i as int),
{
    if i == 0 {
        ("local_base_physical_damage_reduction_rating", LocalStat::BasePhysicalDamageReductionRating)
    } else if i == 1 {
        ("local_physical_damage_reduction_rating_+%", LocalStat::PhysicalDamageReductionRatingIncreased)
    } else if i == 2 {
        ("local_energy_shield", LocalStat::EnergyShield)
    } else if i == 3 {
        ("local_energy_shield_+%", LocalStat::EnergyShieldIncreased)
    } else if i == 4 {
        ("local_base_evasion_rating", LocalStat::BaseEvasionRating)
    } else if i == 5 {
        ("local_evasion_rating_+%", LocalStat::EvasionRatingIncreased)
    } else if i == 6 {
        ("local_armour_and_evasion_+%", LocalStat::ArmourAndEvasionIncreased)
    } else if i == 7 {
        ("local_armour_and_energy_shield_+%", LocalStat::ArmourAndEnergyShieldIncreased)
    } else if i == 8 {
        ("local_evasion_and_energy_shield_+%", LocalStat::EvasionAndEnergyShieldIncreased)
    } else if i == 9 {
        ("local_attribute_requirements_+%", LocalStat::AttributeRequirementsIncreased)
    } else if i == 10 {
        ("local_armour_and_evasion_and_energy_shield_+%", LocalStat::ArmourAndEvasionAndEnergyShieldIncreased)
    } else if i == 11 {
        ("local_minimum_added_physical_damage", LocalStat::MinimumAddedPhysicalDamage)
    } else if i == 12 {
        ("local_maximum_added_physical_damage", LocalStat::MaximumAddedPhysicalDamage)
    } else if i == 13 {
        ("local_minimum_added_fire_damage", LocalStat::MinimumAddedFireDamage)
    } else if i == 14 {
        ("local_maximum_added_fire_damage", LocalStat::MaximumAddedFireDamage)
    } else if i == 15 {
        ("local_minimum_added_cold_damage", LocalStat::MinimumAddedColdDamage)
    } else if i == 16 {
        ("local_maximum_added_cold_damage", LocalStat::MaximumAddedColdDamage)
    } else if i == 17 {
        ("local_minimum_added_lightning_damage", LocalStat::MinimumAddedLightningDamage)
    } else if i == 18 {
        ("local_maximum_added_lightning_damage", LocalStat::MaximumAddedLightningDamage)
    } else if i == 19 {
        ("local_physical_damage_+%", LocalStat::PhysicalDamageIncreased)
    } else if i == 20 {
        ("local_life_leech_from_physical_damage_permyriad", LocalStat::LifeLeechFromPhysicalDamagePermyriad)
    } else if i == 21 {
        ("local_mana_leech_from_physical_damage_permyriad", LocalStat::ManaLeechFromPhysicalDamagePermyriad)
    } else if i == 22 {
        ("local_life_gain_per_target", LocalStat::LifeGainPerTarget)
    } else if i == 23 {
        ("local_mana_gain_per_target", LocalStat::ManaGainPerTarget)
    } else if i == 24 {
        ("local_attack_speed_+%", LocalStat::AttackSpeedIncreased)
    } else if i == 25 {
        ("local_critical_strike_chance_+%", LocalStat::CriticalStrikeChanceIncreased)
    } else if i == 26 {
        ("local_critical_strike_multiplier_+", LocalStat::CriticalStrikeMultiplierPlus)
    } else if i == 27 {
        ("local_block_chance_+%", LocalStat::BlockChanceIncreased)
    } else if i == 28 {
        ("local_spirit_+%", LocalStat::SpiritIncreased)
    } else if i == 29 {
        ("number_of_additional_arrows", LocalStat::NumberOfAdditionalArrows)
    } else if i == 30 {
        ("chance_to_fire_1_additional_projectile_%_with_rollover_with_bow_attacks", LocalStat::ChanceToFire1AdditionalProjectilePercentWithRolloverWithBowAttacks)
    } else if i == 31 {
        ("local_additional_charm_slots", LocalStat::AdditionalCharmSlots)
    } else if i == 32 {
        ("local_base_stun_duration_+%", LocalStat::BaseStunDurationIncreased)
    } else if i == 33 {
        ("local_hit_damage_stun_multiplier_+%", LocalStat::HitDamageStunMultiplierIncreased)
    } else if i == 34 {
        ("local_charges_added_+%", LocalStat::ChargesAddedIncreased)
    } else if i == 35 {
        ("local_max_charges_+%", LocalStat::MaxChargesIncreased)
    } else if i == 36 {
        ("local_charges_used_+%", LocalStat::ChargesUsedIncreased)
    } else if i == 37 {
        ("local_%_chance_to_gain_flask_charge_on_kill", LocalStat::PercentChanceToGainFlaskChargeOnKill)
    } else if i == 38 {
        ("local_flask_gain_X_charges_every_minute", LocalStat::FlaskGainXChargesEveryMinute)
    } else if i == 39 {
        ("local_flask_recovery_speed_+%", LocalStat::FlaskRecoverySpeedIncreased)
    } else if i == 40 {
        ("local_flask_amount_to_recover_+%", LocalStat::FlaskAmountToRecoverIncreased)
    } else if i == 41 {
        ("local_flask_amount_to_recover_+%_when_on_low_life", LocalStat::FlaskAmountToRecoverIncreasedWhenOnLowLife)
    } else if i == 42 {
        ("local_flask_amount_to_recover_+%_when_on_low_mana", LocalStat::FlaskAmountToRecoverIncreasedWhenOnLowMana)
    } else if i == 43 {
        ("local_flask_life_to_recover_+%", LocalStat::FlaskLifeToRecoverIncreased)
    } else if i == 44 {
        ("local_flask_mana_to_recover_+%", LocalStat::FlaskManaToRecoverIncreased)
    } else if i == 45 {
        ("local_flask_removes_%_of_life_recovery_from_mana_on_use", LocalStat::FlaskRemovesPercentOfLifeRecoveryFromManaOnUse)
    } else if i == 46 {
        ("local_flask_removes_%_of_mana_recovery_from_life_on_use", LocalStat::FlaskRemovesPercentOfManaRecoveryFromLifeOnUse)
    } else if i == 47 {
        ("local_flask_recovery_amount_%_to_recover_instantly", LocalStat::FlaskRecoveryAmountPercentToRecoverInstantly)
    } else if i == 48 {
        ("local_flask_recovers_instantly", LocalStat::FlaskRecoversInstantly)
    } else if i == 49 {
        ("local_flask_minion_heal_%", LocalStat::FlaskMinionHealPercent)
    } else if i == 50 {
        ("local_charm_duration_+%", LocalStat::CharmDurationIncreased)
    } else if i == 51 {
        ("local_maximum_prefixes_allowed_+", LocalStat::MaximumPrefixesAllowedPlus)
    } else if i == 52 {
        ("local_maximum_suffixes_allowed_+", LocalStat::MaximumSuffixesAllowedPlus)
    } else if i == 53 {
        ("local_item_benefit_socketable_as_if_helmet", LocalStat::ItemBenefitSocketableAsIfHelmet)
    } else if i == 54 {
        ("local_item_additional_skill_slots", LocalStat::ItemAdditionalSkillSlots)
    } else if i == 55 {
        ("local_maximum_quality_is_%", LocalStat::MaximumQualityIsPercent)
    } else if i == 56 {
        ("local_item_benefit_socketable_as_if_gloves", LocalStat::ItemBenefitSocketableAsIfGloves)
    } else if i == 57 {
        ("local_item_benefit_socketable_as_if_boots", LocalStat::ItemBenefitSocketableAsIfBoots)
    } else if i == 58 {
        ("local_charm_slots", LocalStat::CharmSlots)
    } else if i == 59 {
        ("local_flask_use_on_affected_by_freeze", LocalStat::FlaskUseOnAffectedByFreeze)
    } else if i == 60 {
        ("local_flask_use_on_affected_by_bleed", LocalStat::FlaskUseOnAffectedByBleed)
    } else if i == 61 {
        ("local_flask_use_on_affected_by_poison", LocalStat::FlaskUseOnAffectedByPoison)
    } else if i == 62 {
        ("local_flask_use_on_affected_by_ignite", LocalStat::FlaskUseOnAffectedByIgnite)
    } else if i == 63 {
        ("local_flask_use_on_affected_by_shock", LocalStat::FlaskUseOnAffectedByShock)
    } else if i == 64 {
        ("local_flask_use_on_stunned", LocalStat::FlaskUseOnStunned)
    } else if i == 65 {
        ("local_flask_use_on_affected_by_slow", LocalStat::FlaskUseOnAffectedBySlow)
    } else if i == 66 {
        ("local_flask_use_on_fire_damage_taken", LocalStat::FlaskUseOnFireDamageTaken)
    } else if i == 67 {
        ("local_flask_use_on_cold_damage_taken", LocalStat::FlaskUseOnColdDamageTaken)
    } else if i == 68 {
        ("local_flask_use_on_lightning_damage_taken", LocalStat::FlaskUseOnLightningDamageTaken)
    } else if i == 69 {
        ("local_flask_use_on_chaos_damage_taken", LocalStat::FlaskUseOnChaosDamageTaken)
    } else if i == 70 {
        ("local_flask_use_on_killing_rare_or_unique_enemy", LocalStat::FlaskUseOnKillingRareOrUniqueEnemy)
    } else if i == 71 {
        ("local_charm_trigger_when_cursed", LocalStat::CharmTriggerWhenCursed)
    } else if i == 72 {
        ("local_ward", LocalStat::Ward)
    } else if i == 73 {
        ("local_gain_X_rage_on_hit", LocalStat::GainXRageOnHit)
    } else if i == 74 {
        ("local_weapon_accuracy_is_unaffected_by_distance", LocalStat::WeaponAccuracyIsUnaffectedByDistance)
    } else if i == 75 {
        ("local_culling_strike", LocalStat::CullingStrike)
    } else if i == 76 {
        ("local_chance_to_bleed_on_hit_%", LocalStat::ChanceToBleedOnHitPercent)
    } else if i == 77 {
        ("local_cannot_be_thrown", LocalStat::CannotBeThrown)
    } else if i == 78 {
        ("local_weapon_daze_chance_%", LocalStat::WeaponDazeChancePercent)
    } else if i == 79 {
        ("local_always_hit", LocalStat::AlwaysHit)
    } else if i == 80 {
        ("local_explode_on_kill_with_crit_%_physical_damage_to_deal", LocalStat::ExplodeOnKillWithCritPercentPhysicalDamageToDeal)
    } else if i == 81 {
        ("local_crush_on_hit", LocalStat::CrushOnHit)
    } else if i == 82 {
        ("local_weapon_implicit_hidden_%_base_damage_is_fire", LocalStat::WeaponImplicitHiddenPercentBaseDamageIsFire)
    } else if i == 83 {
        ("local_display_grants_spear_throw_skill", LocalStat::DisplayGrantsSpearThrowSkill)
    } else if i == 84 {
        ("local_maim_on_hit_%", LocalStat::MaimOnHitPercent)
    } else if i == 85 {
        ("local_projectile_speed_+%", LocalStat::ProjectileSpeedIncreased)
    } else if i == 86 {
        ("local_+%_weapon_range", LocalStat::IncreasedWeaponRange)
    } else if i == 87 {
        ("local_chance_to_blind_on_hit_%", LocalStat::ChanceToBlindOnHitPercent)
    } else if i == 88 {
        ("local_poison_on_hit_%", LocalStat::PoisonOnHitPercent)
    } else if i == 89 {
        ("local_apply_X_armour_break_on_crit", LocalStat::ApplyXArmourBreakOnCrit)
    } else if i == 90 {
        ("local_weapon_roll_crits_twice", LocalStat::WeaponRollCritsTwice)
    } else if i == 91 {
        ("local_attacks_cannot_be_blocked", LocalStat::AttacksCannotBeBlocked)
    } else if i == 92 {
        ("local_additional_attack_chain_chance_%", LocalStat::AdditionalAttackChainChancePercent)
    } else {
        ("local_crossbow_no_ammo_skills_and_give_alternate_grenade_default_attack", LocalStat::CrossbowNoAmmoSkillsAndGiveAlternateGrenadeDefaultAttack)
    }
}

/// What a stat total does to the final stats of the items.
#[derive(Debug, Clone, Copy, PartialEq, Eq, Structural)]
pub enum LocalStatResolution {
    /// Nothing: the total is global, or of the `AbyssTargetMod` type.
    Ignored,
    /// The item in the slot gets final stats, but no local stat changes.
    Unmatched(EquipSlot),
    /// The local stat of the item in the slot takes the total.
    Matched(EquipSlot, LocalStat),
}

/// The first row, from `i` on, whose hash is `id`.
pub open spec fn first_row_with(hs: Seq<u64>, id: u64, i: int) -> Option<int>
    decreases hs.len() - i,
{
    if i < 0 || i >= hs.len() {
        None
    } else if hs[i] == id {
        Some(i)
    } else {
        first_row_with(hs, id, i + 1)
    }
}

/// What a total of a modifier of type `kind`, under stat hash `stat_id`,
/// does for the item in `slot`, where `hs` holds the hashes of the table's
/// stat identifiers: a total of the `AbyssTargetMod` type, or of no item, is
/// ignored; otherwise the first row whose hash matches decides.
pub open spec fn resolution(kind: Poe2ModifierKind, stat_id: u64, slot: Option<EquipSlot>, hs: Seq<u64>) -> LocalStatResolution {
    if kind == Poe2ModifierKind::AbyssTargetMod {
        LocalStatResolution::Ignored
    } else {
        match slot {
            None => LocalStatResolution::Ignored,
            Some(s) => match first_row_with(hs, stat_id, 0) {
                Some(i) => LocalStatResolution::Matched(s, local_stat_at(i)),
                None => LocalStatResolution::Unmatched(s),
            },
        }
    }
}

/// The first row, from `i` on, of the local stat table with identifier
/// `name`.
pub open spec fn first_row_named(name: Seq<char>, i: int) -> Option<int>
    decreases local_stat_table_len() - i,
{
    if i < 0 || i >= local_stat_table_len() {
        None
    } else if local_stat_name(i) == name {
        Some(i)
    } else {
        first_row_named(name, i + 1)
    }
}

/// `hs` hashes the identifiers of the local stat table faithfully: two rows
/// get one hash exactly when they have one identifier.
pub open spec fn local_hashes_follow_names(hs: Seq<u64>) -> bool {
    &&& hs.len() == local_stat_table_len()
    &&& forall|a: int, b: int|
        0 <= a < local_stat_table_len() && 0 <= b < local_stat_table_len() ==> ((hs[a] == hs[b]) <==> (
        local_stat_name(a) == local_stat_name(b)))
}

/// Under faithful hashes, the first row from `from` on with the hash of row
/// `i` is the first such row with the identifier of row `i`.
proof fn lemma_first_rows_agree(hs: Seq<u64>, i: int, from: int)
    requires
        local_hashes_follow_names(hs),
        0 <= i < local_stat_table_len(),
        0 <= from,
    ensures
        first_row_with(hs, hs[i], from) == first_row_named(local_stat_name(i), from),
    decreases local_stat_table_len() - from,
{
    if from < local_stat_table_len() {
        assert((hs[from] == hs[i]) <==> (local_stat_name(from) == local_stat_name(i)));
        lemma_first_rows_agree(hs, i, from + 1);
    }
}

/// A row's identifier has a first row at or before it.
proof fn lemma_first_row_named_found(i: int, from: int)
    requires
        0 <= from <= i < local_stat_table_len(),
    ensures
        first_row_named(local_stat_name(i), from) matches Some(j) && from <= j <= i && local_stat_name(j)
            == local_stat_name(i),
    decreases i - from,
{
    if local_stat_name(from) != local_stat_name(i) {
        lemma_first_row_named_found(i, from + 1);
    }
}

/// The local stat table, read by identifier: whenever the hashes follow the
/// identifiers of the table, a total of an equipped item under the hash of
/// a table identifier, of a type other than `AbyssTargetMod`, feeds the local
/// stat of the first row with that identifier; a hash of none of them feeds
/// no local stat.
pub proof fn law_local_stat_by_identifier(
    kind: Poe2ModifierKind,
    slot: EquipSlot,
    hs: Seq<u64>,
    i: int,
    other: u64,
)
    requires
        local_hashes_follow_names(hs),
        kind != Poe2ModifierKind::AbyssTargetMod,
        0 <= i < local_stat_table_len(),
    ensures
        first_row_named(local_stat_name(i), 0) matches Some(j) && local_stat_name(j) == local_stat_name(i)
            && resolution(kind, hs[i], Some(slot), hs) == LocalStatResolution::Matched(
            slot,
            local_stat_at(j),
        ),
        (forall|j: int| 0 <= j < local_stat_table_len() ==> #[trigger] hs[j] != other) ==> resolution(
            kind,
            other,
            Some(slot),
            hs,
        ) == LocalStatResolution::Unmatched(slot),
{
    lemma_first_rows_agree(hs, i, 0);
    lemma_first_row_named_found(i, 0);
    lemma_no_row_with(hs, other, 0);
}

/// The stat identifier that names each local stat.
pub open spec fn local_stat_identifier(s: LocalStat) -> Seq<char> {
    match s {
        LocalStat::BasePhysicalDamageReductionRating => "local_base_physical_damage_reduction_rating"@,
        LocalStat::PhysicalDamageReductionRatingIncreased => "local_physical_damage_reduction_rating_+%"@,
        LocalStat::EnergyShield => "local_energy_shield"@,
        LocalStat::EnergyShieldIncreased => "local_energy_shield_+%"@,
        LocalStat::BaseEvasionRating => "local_base_evasion_rating"@,
        LocalStat::EvasionRatingIncreased => "local_evasion_rating_+%"@,
        LocalStat::ArmourAndEvasionIncreased => "local_armour_and_evasion_+%"@,
        LocalStat::ArmourAndEnergyShieldIncreased => "local_armour_and_energy_shield_+%"@,
        LocalStat::EvasionAndEnergyShieldIncreased => "local_evasion_and_energy_shield_+%"@,
        LocalStat::AttributeRequirementsIncreased => "local_attribute_requirements_+%"@,
        LocalStat::ArmourAndEvasionAndEnergyShieldIncreased => "local_armour_and_evasion_and_energy_shield_+%"@,
        LocalStat::MinimumAddedPhysicalDamage => "local_minimum_added_physical_damage"@,
        LocalStat::MaximumAddedPhysicalDamage => "local_maximum_added_physical_damage"@,
        LocalStat::MinimumAddedFireDamage => "local_minimum_added_fire_damage"@,
        LocalStat::MaximumAddedFireDamage => "local_maximum_added_fire_damage"@,
        LocalStat::MinimumAddedColdDamage => "local_minimum_added_cold_damage"@,
        LocalStat::MaximumAddedColdDamage => "local_maximum_added_cold_damage"@,
        LocalStat::MinimumAddedLightningDamage => "local_minimum_added_lightning_damage"@,
        LocalStat::MaximumAddedLightningDamage => "local_maximum_added_lightning_damage"@,
        LocalStat::PhysicalDamageIncreased => "local_physical_damage_+%"@,
        LocalStat::LifeLeechFromPhysicalDamagePermyriad => "local_life_leech_from_physical_damage_permyriad"@,
        LocalStat::ManaLeechFromPhysicalDamagePermyriad => "local_mana_leech_from_physical_damage_permyriad"@,
        LocalStat::LifeGainPerTarget => "local_life_gain_per_target"@,
        LocalStat::ManaGainPerTarget => "local_mana_gain_per_target"@,
        LocalStat::AttackSpeedIncreased => "local_attack_speed_+%"@,
        LocalStat::CriticalStrikeChanceIncreased => "local_critical_strike_chance_+%"@,
        LocalStat::CriticalStrikeMultiplierPlus => "local_critical_strike_multiplier_+"@,
        LocalStat::BlockChanceIncreased => "local_block_chance_+%"@,
        LocalStat::SpiritIncreased => "local_spirit_+%"@,
        LocalStat::NumberOfAdditionalArrows => "number_of_additional_arrows"@,
        LocalStat::ChanceToFire1AdditionalProjectilePercentWithRolloverWithBowAttacks => "chance_to_fire_1_additional_projectile_%_with_rollover_with_bow_attacks"@,
        LocalStat::AdditionalCharmSlots => "local_additional_charm_slots"@,
        LocalStat::BaseStunDurationIncreased => "local_base_stun_duration_+%"@,
        LocalStat::HitDamageStunMultiplierIncreased => "local_hit_damage_stun_multiplier_+%"@,
        LocalStat::ChargesAddedIncreased => "local_charges_added_+%"@,
        LocalStat::MaxChargesIncreased => "local_max_charges_+%"@,
        LocalStat::ChargesUsedIncreased => "local_charges_used_+%"@,
        LocalStat::PercentChanceToGainFlaskChargeOnKill => "local_%_chance_to_gain_flask_charge_on_kill"@,
        LocalStat::FlaskGainXChargesEveryMinute => "local_flask_gain_X_charges_every_minute"@,
        LocalStat::FlaskRecoverySpeedIncreased => "local_flask_recovery_speed_+%"@,
        LocalStat::FlaskAmountToRecoverIncreased => "local_flask_amount_to_recover_+%"@,
        LocalStat::FlaskAmountToRecoverIncreasedWhenOnLowLife => "local_flask_amount_to_recover_+%_when_on_low_life"@,
        LocalStat::FlaskAmountToRecoverIncreasedWhenOnLowMana => "local_flask_amount_to_recover_+%_when_on_low_mana"@,
        LocalStat::FlaskLifeToRecoverIncreased => "local_flask_life_to_recover_+%"@,
        LocalStat::FlaskManaToRecoverIncreased => "local_flask_mana_to_recover_+%"@,
        LocalStat::FlaskRemovesPercentOfLifeRecoveryFromManaOnUse => "local_flask_removes_%_of_life_recovery_from_mana_on_use"@,
        LocalStat::FlaskRemovesPercentOfManaRecoveryFromLifeOnUse => "local_flask_removes_%_of_mana_recovery_from_life_on_use"@,
        LocalStat::FlaskRecoveryAmountPercentToRecoverInstantly => "local_flask_recovery_amount_%_to_recover_instantly"@,
        LocalStat::FlaskRecoversInstantly => "local_flask_recovers_instantly"@,
        LocalStat::FlaskMinionHealPercent => "local_flask_minion_heal_%"@,
        LocalStat::CharmDurationIncreased => "local_charm_duration_+%"@,
        LocalStat::MaximumPrefixesAllowedPlus => "local_maximum_prefixes_allowed_+"@,
        LocalStat::MaximumSuffixesAllowedPlus => "local_maximum_suffixes_allowed_+"@,
        LocalStat::ItemBenefitSocketableAsIfHelmet => "local_item_benefit_socketable_as_if_helmet"@,
        LocalStat::ItemAdditionalSkillSlots => "local_item_additional_skill_slots"@,
        LocalStat::MaximumQualityIsPercent => "local_maximum_quality_is_%"@,
        LocalStat::ItemBenefitSocketableAsIfGloves => "local_item_benefit_socketable_as_if_gloves"@,
        LocalStat::ItemBenefitSocketableAsIfBoots => "local_item_benefit_socketable_as_if_boots"@,
        LocalStat::CharmSlots => "local_charm_slots"@,
        LocalStat::FlaskUseOnAffectedByFreeze => "local_flask_use_on_affected_by_freeze"@,
        LocalStat::FlaskUseOnAffectedByBleed => "local_flask_use_on_affected_by_bleed"@,
        LocalStat::FlaskUseOnAffectedByPoison => "local_flask_use_on_affected_by_poison"@,
        LocalStat::FlaskUseOnAffectedByIgnite => "local_flask_use_on_affected_by_ignite"@,
        LocalStat::FlaskUseOnAffectedByShock => "local_flask_use_on_affected_by_shock"@,
        LocalStat::FlaskUseOnStunned => "local_flask_use_on_stunned"@,
        LocalStat::FlaskUseOnAffectedBySlow => "local_flask_use_on_affected_by_slow"@,
        LocalStat::FlaskUseOnFireDamageTaken => "local_flask_use_on_fire_damage_taken"@,
        LocalStat::FlaskUseOnColdDamageTaken => "local_flask_use_on_cold_damage_taken"@,
        LocalStat::FlaskUseOnLightningDamageTaken => "local_flask_use_on_lightning_damage_taken"@,
        LocalStat::FlaskUseOnChaosDamageTaken => "local_flask_use_on_chaos_damage_taken"@,
        LocalStat::FlaskUseOnKillingRareOrUniqueEnemy => "local_flask_use_on_killing_rare_or_unique_enemy"@,
        LocalStat::CharmTriggerWhenCursed => "local_charm_trigger_when_cursed"@,
        LocalStat::Ward => "local_ward"@,
        LocalStat::GainXRageOnHit => "local_gain_X_rage_on_hit"@,
        LocalStat::WeaponAccuracyIsUnaffectedByDistance => "local_weapon_accuracy_is_unaffected_by_distance"@,
        LocalStat::CullingStrike => "local_culling_strike"@,
        LocalStat::ChanceToBleedOnHitPercent => "local_chance_to_bleed_on_hit_%"@,
        LocalStat::CannotBeThrown => "local_cannot_be_thrown"@,
        LocalStat::WeaponDazeChancePercent => "local_weapon_daze_chance_%"@,
        LocalStat::AlwaysHit => "local_always_hit"@,
        LocalStat::ExplodeOnKillWithCritPercentPhysicalDamageToDeal => "local_explode_on_kill_with_crit_%_physical_damage_to_deal"@,
        LocalStat::CrushOnHit => "local_crush_on_hit"@,
        LocalStat::WeaponImplicitHiddenPercentBaseDamageIsFire => "local_weapon_implicit_hidden_%_base_damage_is_fire"@,
        LocalStat::DisplayGrantsSpearThrowSkill => "local_display_grants_spear_throw_skill"@,
        LocalStat::MaimOnHitPercent => "local_maim_on_hit_%"@,
        LocalStat::ProjectileSpeedIncreased => "local_projectile_speed_+%"@,
        LocalStat::IncreasedWeaponRange => "local_+%_weapon_range"@,
        LocalStat::ChanceToBlindOnHitPercent => "local_chance_to_blind_on_hit_%"@,
        LocalStat::PoisonOnHitPercent => "local_poison_on_hit_%"@,
        LocalStat::ApplyXArmourBreakOnCrit => "local_apply_X_armour_break_on_crit"@,
        LocalStat::WeaponRollCritsTwice => "local_weapon_roll_crits_twice"@,
        LocalStat::AttacksCannotBeBlocked => "local_attacks_cannot_be_blocked"@,
        LocalStat::AdditionalAttackChainChancePercent => "local_additional_attack_chain_chance_%"@,
        LocalStat::CrossbowNoAmmoSkillsAndGiveAlternateGrenadeDefaultAttack => "local_crossbow_no_ammo_skills_and_give_alternate_grenade_default_attack"@,
    }
}

proof fn lemma_local_stat_rows_named_0()
    ensures
        forall|i: int| 0 <= i < 24 ==> #[trigger] local_stat_identifier(local_stat_at(i)) == local_stat_name(i),
{
    assert forall|i: int| 0 <= i < 24 implies #[trigger] local_stat_identifier(local_stat_at(i)) == local_stat_name(i) by {
        if i == 0 {
            assert(local_stat_identifier(local_stat_at(0)) == local_stat_name(0));
        } else if i == 1 {
            assert(local_stat_identifier(local_stat_at(1)) == local_stat_name(1));
        } else if i == 2 {
            assert(local_stat_identifier(local_stat_at(2)) == local_stat_name(2));
        } else if i == 3 {
            assert(local_stat_identifier(local_stat_at(3)) == local_stat_name(3));
        } else if i == 4 {
            assert(local_stat_identifier(local_stat_at(4)) == local_stat_name(4));
        } else if i == 5 {
            assert(local_stat_identifier(local_stat_at(5)) == local_stat_name(5));
        } else if i == 6 {
            assert(local_stat_identifier(local_stat_at(6)) == local_stat_name(6));
        } else if i == 7 {
            assert(local_stat_identifier(local_stat_at(7)) == local_stat_name(7));
        } else if i == 8 {
            assert(local_stat_identifier(local_stat_at(8)) == local_stat_name(8));
        } else if i == 9 {
            assert(local_stat_identifier(local_stat_at(9)) == local_stat_name(9));
        } else if i == 10 {
            assert(local_stat_identifier(local_stat_at(10)) == local_stat_name(10));
        } else if i == 11 {
            assert(local_stat_identifier(local_stat_at(11)) == local_stat_name(11));
        } else if i == 12 {
            assert(local_stat_identifier(local_stat_at(12)) == local_stat_name(12));
        } else if i == 13 {
            assert(local_stat_identifier(local_stat_at(13)) == local_stat_name(13));
        } else if i == 14 {
            assert(local_stat_identifier(local_stat_at(14)) == local_stat_name(14));
        } else if i == 15 {
            assert(local_stat_identifier(local_stat_at(15)) == local_stat_name(15));
        } else if i == 16 {
            assert(local_stat_identifier(local_stat_at(16)) == local_stat_name(16));
        } else if i == 17 {
            assert(local_stat_identifier(local_stat_at(17)) == local_stat_name(17));
        } else if i == 18 {
            assert(local_stat_identifier(local_stat_at(18)) == local_stat_name(18));
        } else if i == 19 {
            assert(local_stat_identifier(local_stat_at(19)) == local_stat_name(19));
        } else if i == 20 {
            assert(local_stat_identifier(local_stat_at(20)) == local_stat_name(20));
        } else if i == 21 {
            assert(local_stat_identifier(local_stat_at(21)) == local_stat_name(21));
        } else if i == 22 {
            assert(local_stat_identifier(local_stat_at(22)) == local_stat_name(22));
        } else if i == 23 {
            assert(local_stat_identifier(local_stat_at(23)) == local_stat_name(23));
        }
    }
}

proof fn lemma_local_stat_rows_named_24()
    ensures
        forall|i: int| 24 <= i < 48 ==> #[trigger] local_stat_identifier(local_stat_at(i)) == local_stat_name(i),
{
    assert forall|i: int| 24 <= i < 48 implies #[trigger] local_stat_identifier(local_stat_at(i)) == local_stat_name(i) by {
        if i == 24 {
            assert(local_stat_identifier(local_stat_at(24)) == local_stat_name(24));
        } else if i == 25 {
            assert(local_stat_identifier(local_stat_at(25)) == local_stat_name(25));
        } else if i == 26 {
            assert(local_stat_identifier(local_stat_at(26)) == local_stat_name(26));
        } else if i == 27 {
            assert(local_stat_identifier(local_stat_at(27)) == local_stat_name(27));
        } else if i == 28 {
            assert(local_stat_identifier(local_stat_at(28)) == local_stat_name(28));
        } else if i == 29 {
            assert(local_stat_identifier(local_stat_at(29)) == local_stat_name(29));
        } else if i == 30 {
            assert(local_stat_identifier(local_stat_at(30)) == local_stat_name(30));
        } else if i == 31 {
            assert(local_stat_identifier(local_stat_at(31)) == local_stat_name(31));
        } else if i == 32 {
            assert(local_stat_identifier(local_stat_at(32)) == local_stat_name(32));
        } else if i == 33 {
            assert(local_stat_identifier(local_stat_at(33)) == local_stat_name(33));
        } else if i == 34 {
            assert(local_stat_identifier(local_stat_at(34)) == local_stat_name(34));
        } else if i == 35 {
            assert(local_stat_identifier(local_stat_at(35)) == local_stat_name(35));
        } else if i == 36 {
            assert(local_stat_identifier(local_stat_at(36)) == local_stat_name(36));
        } else if i == 37 {
            assert(local_stat_identifier(local_stat_at(37)) == local_stat_name(37));
        } else if i == 38 {
            assert(local_stat_identifier(local_stat_at(38)) == local_stat_name(38));
        } else if i == 39 {
            assert(local_stat_identifier(local_stat_at(39)) == local_stat_name(39));
        } else if i == 40 {
            assert(local_stat_identifier(local_stat_at(40)) == local_stat_name(40));
        } else if i == 41 {
            assert(local_stat_identifier(local_stat_at(41)) == local_stat_name(41));
        } else if i == 42 {
            assert(local_stat_identifier(local_stat_at(42)) == local_stat_name(42));
        } else if i == 43 {
            assert(local_stat_identifier(local_stat_at(43)) == local_stat_name(43));
        } else if i == 44 {
            assert(local_stat_identifier(local_stat_at(44)) == local_stat_name(44));
        } else if i == 45 {
            assert(local_stat_identifier(local_stat_at(45)) == local_stat_name(45));
        } else if i == 46 {
            assert(local_stat_identifier(local_stat_at(46)) == local_stat_name(46));
        } else if i == 47 {
            assert(local_stat_identifier(local_stat_at(47)) == local_stat_name(47));
        }
    }
}

proof fn lemma_local_stat_rows_named_48()
    ensures
        forall|i: int| 48 <= i < 72 ==> #[trigger] local_stat_identifier(local_stat_at(i)) == local_stat_name(i),
{
    assert forall|i: int| 48 <= i < 72 implies #[trigger] local_stat_identifier(local_stat_at(i)) == local_stat_name(i) by {
        if i == 48 {
            assert(local_stat_identifier(local_stat_at(48)) == local_stat_name(48));
        } else if i == 49 {
            assert(local_stat_identifier(local_stat_at(49)) == local_stat_name(49));
        } else if i == 50 {
            assert(local_stat_identifier(local_stat_at(50)) == local_stat_name(50));
        } else if i == 51 {
            assert(local_stat_identifier(local_stat_at(51)) == local_stat_name(51));
        } else if i == 52 {
            assert(local_stat_identifier(local_stat_at(52)) == local_stat_name(52));
        } else if i == 53 {
            assert(local_stat_identifier(local_stat_at(53)) == local_stat_name(53));
        } else if i == 54 {
            assert(local_stat_identifier(local_stat_at(54)) == local_stat_name(54));
        } else if i == 55 {
            assert(local_stat_identifier(local_stat_at(55)) == local_stat_name(55));
        } else if i == 56 {
            assert(local_stat_identifier(local_stat_at(56)) == local_stat_name(56));
        } else if i == 57 {
            assert(local_stat_identifier(local_stat_at(57)) == local_stat_name(57));
        } else if i == 58 {
            assert(local_stat_identifier(local_stat_at(58)) == local_stat_name(58));
        } else if i == 59 {
            assert(local_stat_identifier(local_stat_at(59)) == local_stat_name(59));
        } else if i == 60 {
            assert(local_stat_identifier(local_stat_at(60)) == local_stat_name(60));
        } else if i == 61 {
            assert(local_stat_identifier(local_stat_at(61)) == local_stat_name(61));
        } else if i == 62 {
            assert(local_stat_identifier(local_stat_at(62)) == local_stat_name(62));
        } else if i == 63 {
            assert(local_stat_identifier(local_stat_at(63)) == local_stat_name(63));
        } else if i == 64 {
            assert(local_stat_identifier(local_stat_at(64)) == local_stat_name(64));
        } else if i == 65 {
            assert(local_stat_identifier(local_stat_at(65)) == local_stat_name(65));
        } else if i == 66 {
            assert(local_stat_identifier(local_stat_at(66)) == local_stat_name(66));
        } else if i == 67 {
            assert(local_stat_identifier(local_stat_at(67)) == local_stat_name(67));
        } else if i == 68 {
            assert(local_stat_identifier(local_stat_at(68)) == local_stat_name(68));
        } else if i == 69 {
            assert(local_stat_identifier(local_stat_at(69)) == local_stat_name(69));
        } else if i == 70 {
            assert(local_stat_identifier(local_stat_at(70)) == local_stat_name(70));
        } else if i == 71 {
            assert(local_stat_identifier(local_stat_at(71)) == local_stat_name(71));
        }
    }
}

proof fn lemma_local_stat_rows_named_72()
    ensures
        forall|i: int| 72 <= i < 94 ==> #[trigger] local_stat_identifier(local_stat_at(i)) == local_stat_name(i),
{
    assert forall|i: int| 72 <= i < 94 implies #[trigger] local_stat_identifier(local_stat_at(i)) == local_stat_name(i) by {
        if i == 72 {
            assert(local_stat_identifier(local_stat_at(72)) == local_stat_name(72));
        } else if i == 73 {
            assert(local_stat_identifier(local_stat_at(73)) == local_stat_name(73));
        } else if i == 74 {
            assert(local_stat_identifier(local_stat_at(74)) == local_stat_name(74));
        } else if i == 75 {
            assert(local_stat_identifier(local_stat_at(75)) == local_stat_name(75));
        } else if i == 76 {
            assert(local_stat_identifier(local_stat_at(76)) == local_stat_name(76));
        } else if i == 77 {
            assert(local_stat_identifier(local_stat_at(77)) == local_stat_name(77));
        } else if i == 78 {
            assert(local_stat_identifier(local_stat_at(78)) == local_stat_name(78));
        } else if i == 79 {
            assert(local_stat_identifier(local_stat_at(79)) == local_stat_name(79));
        } else if i == 80 {
            assert(local_stat_identifier(local_stat_at(80)) == local_stat_name(80));
        } else if i == 81 {
            assert(local_stat_identifier(local_stat_at(81)) == local_stat_name(81));
        } else if i == 82 {
            assert(local_stat_identifier(local_stat_at(82)) == local_stat_name(82));
        } else if i == 83 {
            assert(local_stat_identifier(local_stat_at(83)) == local_stat_name(83));
        } else if i == 84 {
            assert(local_stat_identifier(local_stat_at(84)) == local_stat_name(84));
        } else if i == 85 {
            assert(local_stat_identifier(local_stat_at(85)) == local_stat_name(85));
        } else if i == 86 {
            assert(local_stat_identifier(local_stat_at(86)) == local_stat_name(86));
        } else if i == 87 {
            assert(local_stat_identifier(local_stat_at(87)) == local_stat_name(87));
        } else if i == 88 {
            assert(local_stat_identifier(local_stat_at(88)) == local_stat_name(88));
        } else if i == 89 {
            assert(local_stat_identifier(local_stat_at(89)) == local_stat_name(89));
        } else if i == 90 {
            assert(local_stat_identifier(local_stat_at(90)) == local_stat_name(90));
        } else if i == 91 {
            assert(local_stat_identifier(local_stat_at(91)) == local_stat_name(91));
        } else if i == 92 {
            assert(local_stat_identifier(local_stat_at(92)) == local_stat_name(92));
        } else if i == 93 {
            assert(local_stat_identifier(local_stat_at(93)) == local_stat_name(93));
        }
    }
}

/// Each row of the local stat table feeds the local stat that its
/// identifier names.
pub proof fn law_local_stat_rows_named(i: int)
    requires
        0 <= i < local_stat_table_len(),
    ensures
        local_stat_identifier(local_stat_at(i)) == local_stat_name(i),
{
    lemma_local_stat_rows_named_0();
    lemma_local_stat_rows_named_24();
    lemma_local_stat_rows_named_48();
    lemma_local_stat_rows_named_72();
}

/// A total of an equipped item under the hash of a table identifier, of a
/// type other than `AbyssTargetMod`, feeds that item's local stat named by
/// the identifier, whenever the hashes follow the identifiers of the table.
pub proof fn law_local_stat_resolution_named(kind: Poe2ModifierKind, slot: EquipSlot, hs: Seq<u64>, i: int)
    requires
        local_hashes_follow_names(hs),
        kind != Poe2ModifierKind::AbyssTargetMod,
        0 <= i < local_stat_table_len(),
    ensures
        resolution(kind, hs[i], Some(slot), hs) matches LocalStatResolution::Matched(s, st) && s == slot
            && local_stat_identifier(st) == local_stat_name(i),
{
    law_local_stat_by_identifier(kind, slot, hs, i, 0);
    lemma_first_row_named_found(i, 0);
    let j = first_row_named(local_stat_name(i), 0)->0;
    law_local_stat_rows_named(j);
}

/// A hash that no row holds matches no row.
proof fn lemma_no_row_with(hs: Seq<u64>, id: u64, from: int)
    requires
        0 <= from,
    ensures
        (forall|j: int| 0 <= j < hs.len() ==> #[trigger] hs[j] != id) ==> first_row_with(hs, id, from) is None,
    decreases hs.len() - from,
{
    if from < hs.len() {
        lemma_no_row_with(hs, id, from + 1);
    }
}

/// Decides what a stat total does, given the hashes `hashes` of the table's
/// stat identifiers.
pub fn resolve_local_stat_with_hashes(
    kind: Poe2ModifierKind,
    stat_id: u64,
    slot: Option<EquipSlot>,
    hashes: &Vec<u64>,
) -> (r: LocalStatResolution)
    requires
        hashes@.len() == local_stat_table_len(),
    ensures
        r == resolution(kind, stat_id, slot, hashes@),
{
    if kind == Poe2ModifierKind::AbyssTargetMod {
        return LocalStatResolution::Ignored;
    }
    let s = match slot {
        Some(s) => s,
        None => {
            return LocalStatResolution::Ignored;
        },
    };
    let mut i: usize = 0;
    while i < hashes.len()
        invariant
            i <= hashes@.len(),
            hashes@.len() == local_stat_table_len(),
            slot == Some(s),
            kind != Poe2ModifierKind::AbyssTargetMod,
            first_row_with(hashes@, stat_id, 0) == first_row_with(hashes@, stat_id, i as int),
        decreases hashes@.len() - i,
    {
        if hashes[i] == stat_id {
            let (_name, stat) = local_stat_row(i);
            return LocalStatResolution::Matched(s, stat);
        }
        i += 1;
    }
    LocalStatResolution::Unmatched(s)
}

/// The hashes of the table's stat identifiers, row by row.
pub fn local_stat_hashes() -> (hs: Vec<u64>)
    ensures
        hs@.len() == local_stat_table_len(),
{
    let mut hashes: Vec<u64> = Vec::new();
    let mut i: usize = 0;
    while i < 94
        invariant
            i <= 94,
            local_stat_table_len() == 94,
            hashes@.len() == i,
        decreases 94 - i,
    {
        let (name, _stat) = local_stat_row(i);
        hashes.push(hash_string(name));
        i += 1;
    }
    hashes
}

/// Decides what a stat total of modifier type `kind`, under stat hash
/// `stat_id`, does for the item in `slot`. A total of the `AbyssTargetMod`
/// type, or of no item, is ignored; any other gives the slot final stats,
/// and the first row of the table whose identifier's hash is `stat_id`
/// picks the local stat. The identifiers are hashed with `hash_string`, and
/// the answer is what `resolve_local_stat_with_hashes` gives for those
/// hashes, whatever values they took.
pub fn resolve_local_stat(kind: Poe2ModifierKind, stat_id: u64, slot: Option<EquipSlot>) -> (r: LocalStatResolution)
    ensures
        (kind == Poe2ModifierKind::AbyssTargetMod || slot is None) <==> r is Ignored,
        !(kind == Poe2ModifierKind::AbyssTargetMod) && slot is Some ==> (r == LocalStatResolution::Unmatched(
            slot->0,
        ) || (r matches LocalStatResolution::Matched(s2, _) && s2 == slot->0)),
        exists|hs: Seq<u64>| hs.len() == local_stat_table_len() && r == #[trigger] resolution(kind, stat_id, slot, hs),
{
    let hashes = local_stat_hashes();
    let r = resolve_local_stat_with_hashes(kind, stat_id, slot, &hashes);
    assert(r == resolution(kind, stat_id, slot, hashes@));
    r
}

} // verus!

verus! {

/// The integer and flag local stats of an equipped item's final stats.
#[derive(Debug, Clone, Copy, Default)]
pub struct LocalIntegerStats {
    pub local_flat_armour: u64,
    pub local_block_chance: u64,
    pub local_flat_evasion: u64,
    pub local_energy_shield: u64,
    pub local_flat_physical_min: u64,
    pub local_flat_physical_max: u64,
    pub local_flat_cold_min: u64,
    pub local_flat_cold_max: u64,
    pub local_flat_lightning_min: u64,
    pub local_flat_lightning_max: u64,
    pub local_flat_fire_min: u64,
    pub local_flat_fire_max: u64,
    pub local_life_gain_per_hit: u64,
    pub local_mana_gain_per_hit: u64,
    pub local_critical_strike_multiplier: i64,
    pub local_spirit_percent_increase: u64,
    pub number_of_additional_arrows: u64,
    pub chance_to_fire_1_additional_projectile: u64,
    pub number_of_additional_charm_slots: u64,
    pub local_base_stun_duration: u64,
    pub local_hit_damage_stun_multiplier: u64,
    pub local_flask_charges_gained: u64,
    pub local_flask_max_charges: u64,
    pub local_flask_charges_reduced_used: i64,
    pub local_chance_to_gain_flask_charge_on_kill: u64,
    pub local_flask_gain_x_charges_every_minute: u64,
    pub local_flask_recovery_speed_plus_percent: u64,
    pub local_flask_amount_to_recover_plus_percent: i64,
    pub local_flask_amount_to_recover_plus_percent_when_on_low_life: u64,
    pub local_flask_amount_to_recover_plus_percent_when_on_low_mana: u64,
    pub local_flask_life_to_recover_plus_percent: u64,
    pub local_flask_mana_to_recover_plus_percent: u64,
    pub local_flask_recover_instantly: bool,
    pub local_maximum_prefixes_allowed: i64,
    pub local_maximum_suffixes_allowed: i64,
    pub local_item_benefit_socketable_as_if_helmet: bool,
    pub local_item_additional_skill_slots: u64,
    pub local_maximum_quality_is_allowed: u64,
    pub local_item_benefit_socketable_as_if_gloves: bool,
    pub local_item_benefit_socketable_as_if_boots: bool,
    pub local_charm_slots: u64,
    pub local_flask_use_on_affected_by_freeze: bool,
    pub local_flask_use_on_affected_by_bleed: bool,
    pub local_flask_use_on_affected_by_ignite: bool,
    pub local_flask_use_on_affected_by_poison: bool,
    pub local_flask_use_on_affected_by_shock: bool,
    pub local_flask_use_on_stunned: bool,
    pub local_flask_use_on_affected_by_slow: bool,
    pub local_flask_use_on_fire_damage_taken: bool,
    pub local_flask_use_on_cold_damage_taken: bool,
    pub local_flask_use_on_lightning_damage_taken: bool,
    pub local_flask_use_on_chaos_damage_taken: bool,
    pub local_flask_use_on_killing_rare_or_unique_enemy: bool,
    pub local_charm_trigger_when_cursed: bool,
    pub local_maximum_ward: u64,
    pub local_rage_on_hit: u64,
    pub local_weapon_accuracy_is_unaffected_by_distance: bool,
    pub local_culling_strike: bool,
    pub local_cannot_be_thrown: bool,
    pub local_always_hit: bool,
    pub local_crush_on_hit: bool,
    pub local_display_grants_spear_throw_skill: bool,
    pub local_apply_x_armour_break_on_crit: u64,
    pub local_weapon_roll_crits_twice: bool,
    pub local_attacks_cannot_be_blocked: bool,
    pub local_crossbow_no_ammo_skills_and_give_alternate_grenade_default_attack: bool,
}


/// The local stat is one that the record keeps.
pub open spec fn is_integer_local_stat(stat: LocalStat) -> bool {
    stat is BasePhysicalDamageReductionRating
        || stat is EnergyShield
        || stat is BaseEvasionRating
        || stat is MinimumAddedPhysicalDamage
        || stat is MaximumAddedPhysicalDamage
        || stat is MinimumAddedFireDamage
        || stat is MaximumAddedFireDamage
        || stat is MinimumAddedColdDamage
        || stat is MaximumAddedColdDamage
        || stat is MinimumAddedLightningDamage
        || stat is MaximumAddedLightningDamage
        || stat is LifeGainPerTarget
        || stat is ManaGainPerTarget
        || stat is CriticalStrikeMultiplierPlus
        || stat is BlockChanceIncreased
        || stat is SpiritIncreased
        || stat is NumberOfAdditionalArrows
        || stat is ChanceToFire1AdditionalProjectilePercentWithRolloverWithBowAttacks
        || stat is AdditionalCharmSlots
        || stat is BaseStunDurationIncreased
        || stat is HitDamageStunMultiplierIncreased
        || stat is ChargesAddedIncreased
        || stat is MaxChargesIncreased
        || stat is ChargesUsedIncreased
        || stat is PercentChanceToGainFlaskChargeOnKill
        || stat is FlaskGainXChargesEveryMinute
        || stat is FlaskRecoverySpeedIncreased
        || stat is FlaskAmountToRecoverIncreased
        || stat is FlaskAmountToRecoverIncreasedWhenOnLowLife
        || stat is FlaskAmountToRecoverIncreasedWhenOnLowMana
        || stat is FlaskLifeToRecoverIncreased
        || stat is FlaskManaToRecoverIncreased
        || stat is FlaskRecoversInstantly
        || stat is MaximumPrefixesAllowedPlus
        || stat is MaximumSuffixesAllowedPlus
        || stat is ItemBenefitSocketableAsIfHelmet
        || stat is ItemAdditionalSkillSlots
        || stat is MaximumQualityIsPercent
        || stat is ItemBenefitSocketableAsIfGloves
        || stat is ItemBenefitSocketableAsIfBoots
        || stat is CharmSlots
        || stat is FlaskUseOnAffectedByFreeze
        || stat is FlaskUseOnAffectedByBleed
        || stat is FlaskUseOnAffectedByPoison
        || stat is FlaskUseOnAffectedByIgnite
        || stat is FlaskUseOnAffectedByShock
        || stat is FlaskUseOnStunned
        || stat is FlaskUseOnAffectedBySlow
        || stat is FlaskUseOnFireDamageTaken
        || stat is FlaskUseOnColdDamageTaken
        || stat is FlaskUseOnLightningDamageTaken
        || stat is FlaskUseOnChaosDamageTaken
        || stat is FlaskUseOnKillingRareOrUniqueEnemy
        || stat is CharmTriggerWhenCursed
        || stat is Ward
        || stat is GainXRageOnHit
        || stat is WeaponAccuracyIsUnaffectedByDistance
        || stat is CullingStrike
        || stat is CannotBeThrown
        || stat is AlwaysHit
        || stat is CrushOnHit
        || stat is DisplayGrantsSpearThrowSkill
        || stat is ApplyXArmourBreakOnCrit
        || stat is WeaponRollCritsTwice
        || stat is AttacksCannotBeBlocked
        || stat is CrossbowNoAmmoSkillsAndGiveAlternateGrenadeDefaultAttack
}

/// Adds `value` read as an unsigned number to `count`, where the sum fits.
fn add_unsigned(count: &mut u64, value: i64) -> (ok: bool)
    ensures
        ok == (*old(count) + (value as u64) <= u64::MAX),
        ok ==> *final(count) == (*old(count) + (value as u64)) as u64,
        !ok ==> *final(count) == *old(count),
{
    match count.checked_add(value as u64) {
        Some(n) => {
            *count = n;
            true
        },
        None => false,
    }
}

/// Adds `value` to `total`, where the sum fits.
fn add_signed(total: &mut i64, value: i64) -> (ok: bool)
    ensures
        ok == (i64::MIN <= *old(total) + value <= i64::MAX),
        ok ==> *final(total) == (*old(total) + value) as i64,
        !ok ==> *final(total) == *old(total),
{
    match total.checked_add(value) {
        Some(n) => {
            *total = n;
            true
        },
        None => false,
    }
}

/// Feeds a total to `stat` in the record: the count of the stat grows by the
/// total read as an unsigned number, a signed field by the total, and a
/// flag is set. Where a sum would not fit, it tells so and leaves the record
/// as it was; a local stat the record does not keep leaves it as it is.
#[verifier::rlimit(100)]
pub fn apply_integer_local_stat(stats: &mut LocalIntegerStats, stat: LocalStat, value: i64) -> (ok: bool)
    ensures
        !ok ==> *final(stats) == *old(stats),
        !is_integer_local_stat(stat) ==> ok && *final(stats) == *old(stats),
        stat == LocalStat::BasePhysicalDamageReductionRating ==> ok == (old(stats).local_flat_armour + (value as u64) <= u64::MAX) && (ok ==> *final(stats) == (LocalIntegerStats { local_flat_armour: (old(stats).local_flat_armour + (value as u64)) as u64, ..*old(stats) })),
        stat == LocalStat::EnergyShield ==> ok == (old(stats).local_energy_shield + (value as u64) <= u64::MAX) && (ok ==> *final(stats) == (LocalIntegerStats { local_energy_shield: (old(stats).local_energy_shield + (value as u64)) as u64, ..*old(stats) })),
        stat == LocalStat::BaseEvasionRating ==> ok == (old(stats).local_flat_evasion + (value as u64) <= u64::MAX) && (ok ==> *final(stats) == (LocalIntegerStats { local_flat_evasion: (old(stats).local_flat_evasion + (value as u64)) as u64, ..*old(stats) })),
        stat == LocalStat::MinimumAddedPhysicalDamage ==> ok == (old(stats).local_flat_physical_min + (value as u64) <= u64::MAX) && (ok ==> *final(stats) == (LocalIntegerStats { local_flat_physical_min: (old(stats).local_flat_physical_min + (value as u64)) as u64, ..*old(stats) })),
        stat == LocalStat::MaximumAddedPhysicalDamage ==> ok == (old(stats).local_flat_physical_max + (value as u64) <= u64::MAX) && (ok ==> *final(stats) == (LocalIntegerStats { local_flat_physical_max: (old(stats).local_flat_physical_max + (value as u64)) as u64, ..*old(stats) })),
        stat == LocalStat::MinimumAddedFireDamage ==> ok == (old(stats).local_flat_fire_min + (value as u64) <= u64::MAX) && (ok ==> *final(stats) == (LocalIntegerStats { local_flat_fire_min: (old(stats).local_flat_fire_min + (value as u64)) as u64, ..*old(stats) })),
        stat == LocalStat::MaximumAddedFireDamage ==> ok == (old(stats).local_flat_fire_max + (value as u64) <= u64::MAX) && (ok ==> *final(stats) == (LocalIntegerStats { local_flat_fire_max: (old(stats).local_flat_fire_max + (value as u64)) as u64, ..*old(stats) })),
        stat == LocalStat::MinimumAddedColdDamage ==> ok == (old(stats).local_flat_cold_min + (value as u64) <= u64::MAX) && (ok ==> *final(stats) == (LocalIntegerStats { local_flat_cold_min: (old(stats).local_flat_cold_min + (value as u64)) as u64, ..*old(stats) })),
        stat == LocalStat::MaximumAddedColdDamage ==> ok == (old(stats).local_flat_cold_max + (value as u64) <= u64::MAX) && (ok ==> *final(stats) == (LocalIntegerStats { local_flat_cold_max: (old(stats).local_flat_cold_max + (value as u64)) as u64, ..*old(stats) })),
        stat == LocalStat::MinimumAddedLightningDamage ==> ok == (old(stats).local_flat_lightning_min + (value as u64) <= u64::MAX) && (ok ==> *final(stats) == (LocalIntegerStats { local_flat_lightning_min: (old(stats).local_flat_lightning_min + (value as u64)) as u64, ..*old(stats) })),
        stat == LocalStat::MaximumAddedLightningDamage ==> ok == (old(stats).local_flat_lightning_max + (value as u64) <= u64::MAX) && (ok ==> *final(stats) == (LocalIntegerStats { local_flat_lightning_max: (old(stats).local_flat_lightning_max + (value as u64)) as u64, ..*old(stats) })),
        stat == LocalStat::LifeGainPerTarget ==> ok == (old(stats).local_life_gain_per_hit + (value as u64) <= u64::MAX) && (ok ==> *final(stats) == (LocalIntegerStats { local_life_gain_per_hit: (old(stats).local_life_gain_per_hit + (value as u64)) as u64, ..*old(stats) })),
        stat == LocalStat::ManaGainPerTarget ==> ok == (old(stats).local_mana_gain_per_hit + (value as u64) <= u64::MAX) && (ok ==> *final(stats) == (LocalIntegerStats { local_mana_gain_per_hit: (old(stats).local_mana_gain_per_hit + (value as u64)) as u64, ..*old(stats) })),
        stat == LocalStat::CriticalStrikeMultiplierPlus ==> ok == (i64::MIN <= old(stats).local_critical_strike_multiplier + value <= i64::MAX) && (ok ==> *final(stats) == (LocalIntegerStats { local_critical_strike_multiplier: (old(stats).local_critical_strike_multiplier + value) as i64, ..*old(stats) })),
        stat == LocalStat::BlockChanceIncreased ==> ok == (old(stats).local_block_chance + (value as u64) <= u64::MAX) && (ok ==> *final(stats) == (LocalIntegerStats { local_block_chance: (old(stats).local_block_chance + (value as u64)) as u64, ..*old(stats) })),
        stat == LocalStat::SpiritIncreased ==> ok == (old(stats).local_spirit_percent_increase + (value as u64) <= u64::MAX) && (ok ==> *final(stats) == (LocalIntegerStats { local_spirit_percent_increase: (old(stats).local_spirit_percent_increase + (value as u64)) as u64, ..*old(stats) })),
        stat == LocalStat::NumberOfAdditionalArrows ==> ok == (old(stats).number_of_additional_arrows + (value as u64) <= u64::MAX) && (ok ==> *final(stats) == (LocalIntegerStats { number_of_additional_arrows: (old(stats).number_of_additional_arrows + (value as u64)) as u64, ..*old(stats) })),
        stat == LocalStat::ChanceToFire1AdditionalProjectilePercentWithRolloverWithBowAttacks ==> ok == (old(stats).chance_to_fire_1_additional_projectile + (value as u64) <= u64::MAX) && (ok ==> *final(stats) == (LocalIntegerStats { chance_to_fire_1_additional_projectile: (old(stats).chance_to_fire_1_additional_projectile + (value as u64)) as u64, ..*old(stats) })),
        stat == LocalStat::AdditionalCharmSlots ==> ok == (old(stats).number_of_additional_charm_slots + (value as u64) <= u64::MAX) && (ok ==> *final(stats) == (LocalIntegerStats { number_of_additional_charm_slots: (old(stats).number_of_additional_charm_slots + (value as u64)) as u64, ..*old(stats) })),
        stat == LocalStat::BaseStunDurationIncreased ==> ok == (old(stats).local_base_stun_duration + (value as u64) <= u64::MAX) && (ok ==> *final(stats) == (LocalIntegerStats { local_base_stun_duration: (old(stats).local_base_stun_duration + (value as u64)) as u64, ..*old(stats) })),
        stat == LocalStat::HitDamageStunMultiplierIncreased ==> ok == (old(stats).local_hit_damage_stun_multiplier + (value as u64) <= u64::MAX) && (ok ==> *final(stats) == (LocalIntegerStats { local_hit_damage_stun_multiplier: (old(stats).local_hit_damage_stun_multiplier + (value as u64)) as u64, ..*old(stats) })),
        stat == LocalStat::ChargesAddedIncreased ==> ok == (old(stats).local_flask_charges_gained + (value as u64) <= u64::MAX) && (ok ==> *final(stats) == (LocalIntegerStats { local_flask_charges_gained: (old(stats).local_flask_charges_gained + (value as u64)) as u64, ..*old(stats) })),
        stat == LocalStat::MaxChargesIncreased ==> ok == (old(stats).local_flask_max_charges + (value as u64) <= u64::MAX) && (ok ==> *final(stats) == (LocalIntegerStats { local_flask_max_charges: (old(stats).local_flask_max_charges + (value as u64)) as u64, ..*old(stats) })),
        stat == LocalStat::ChargesUsedIncreased ==> ok == (i64::MIN <= old(stats).local_flask_charges_reduced_used + value <= i64::MAX) && (ok ==> *final(stats) == (LocalIntegerStats { local_flask_charges_reduced_used: (old(stats).local_flask_charges_reduced_used + value) as i64, ..*old(stats) })),
        stat == LocalStat::PercentChanceToGainFlaskChargeOnKill ==> ok == (old(stats).local_chance_to_gain_flask_charge_on_kill + (value as u64) <= u64::MAX) && (ok ==> *final(stats) == (LocalIntegerStats { local_chance_to_gain_flask_charge_on_kill: (old(stats).local_chance_to_gain_flask_charge_on_kill + (value as u64)) as u64, ..*old(stats) })),
        stat == LocalStat::FlaskGainXChargesEveryMinute ==> ok == (old(stats).local_flask_gain_x_charges_every_minute + (value as u64) <= u64::MAX) && (ok ==> *final(stats) == (LocalIntegerStats { local_flask_gain_x_charges_every_minute: (old(stats).local_flask_gain_x_charges_every_minute + (value as u64)) as u64, ..*old(stats) })),
        stat == LocalStat::FlaskRecoverySpeedIncreased ==> ok == (old(stats).local_flask_recovery_speed_plus_percent + (value as u64) <= u64::MAX) && (ok ==> *final(stats) == (LocalIntegerStats { local_flask_recovery_speed_plus_percent: (old(stats).local_flask_recovery_speed_plus_percent + (value as u64)) as u64, ..*old(stats) })),
        stat == LocalStat::FlaskAmountToRecoverIncreased ==> ok == (i64::MIN <= old(stats).local_flask_amount_to_recover_plus_percent + value <= i64::MAX) && (ok ==> *final(stats) == (LocalIntegerStats { local_flask_amount_to_recover_plus_percent: (old(stats).local_flask_amount_to_recover_plus_percent + value) as i64, ..*old(stats) })),
        stat == LocalStat::FlaskAmountToRecoverIncreasedWhenOnLowLife ==> ok == (old(stats).local_flask_amount_to_recover_plus_percent_when_on_low_life + (value as u64) <= u64::MAX) && (ok ==> *final(stats) == (LocalIntegerStats { local_flask_amount_to_recover_plus_percent_when_on_low_life: (old(stats).local_flask_amount_to_recover_plus_percent_when_on_low_life + (value as u64)) as u64, ..*old(stats) })),
        stat == LocalStat::FlaskAmountToRecoverIncreasedWhenOnLowMana ==> ok == (old(stats).local_flask_amount_to_recover_plus_percent_when_on_low_mana + (value as u64) <= u64::MAX) && (ok ==> *final(stats) == (LocalIntegerStats { local_flask_amount_to_recover_plus_percent_when_on_low_mana: (old(stats).local_flask_amount_to_recover_plus_percent_when_on_low_mana + (value as u64)) as u64, ..*old(stats) })),
        stat == LocalStat::FlaskLifeToRecoverIncreased ==> ok == (old(stats).local_flask_life_to_recover_plus_percent + (value as u64) <= u64::MAX) && (ok ==> *final(stats) == (LocalIntegerStats { local_flask_life_to_recover_plus_percent: (old(stats).local_flask_life_to_recover_plus_percent + (value as u64)) as u64, ..*old(stats) })),
        stat == LocalStat::FlaskManaToRecoverIncreased ==> ok == (old(stats).local_flask_mana_to_recover_plus_percent + (value as u64) <= u64::MAX) && (ok ==> *final(stats) == (LocalIntegerStats { local_flask_mana_to_recover_plus_percent: (old(stats).local_flask_mana_to_recover_plus_percent + (value as u64)) as u64, ..*old(stats) })),
        stat == LocalStat::FlaskRecoversInstantly ==> ok && *final(stats) == (LocalIntegerStats { local_flask_recover_instantly: true, ..*old(stats) }),
        stat == LocalStat::MaximumPrefixesAllowedPlus ==> ok == (i64::MIN <= old(stats).local_maximum_prefixes_allowed + value <= i64::MAX) && (ok ==> *final(stats) == (LocalIntegerStats { local_maximum_prefixes_allowed: (old(stats).local_maximum_prefixes_allowed + value) as i64, ..*old(stats) })),
        stat == LocalStat::MaximumSuffixesAllowedPlus ==> ok == (i64::MIN <= old(stats).local_maximum_suffixes_allowed + value <= i64::MAX) && (ok ==> *final(stats) == (LocalIntegerStats { local_maximum_suffixes_allowed: (old(stats).local_maximum_suffixes_allowed + value) as i64, ..*old(stats) })),
        stat == LocalStat::ItemBenefitSocketableAsIfHelmet ==> ok && *final(stats) == (LocalIntegerStats { local_item_benefit_socketable_as_if_helmet: true, ..*old(stats) }),
        stat == LocalStat::ItemAdditionalSkillSlots ==> ok == (old(stats).local_item_additional_skill_slots + (value as u64) <= u64::MAX) && (ok ==> *final(stats) == (LocalIntegerStats { local_item_additional_skill_slots: (old(stats).local_item_additional_skill_slots + (value as u64)) as u64, ..*old(stats) })),
        stat == LocalStat::MaximumQualityIsPercent ==> ok == (old(stats).local_maximum_quality_is_allowed + (value as u64) <= u64::MAX) && (ok ==> *final(stats) == (LocalIntegerStats { local_maximum_quality_is_allowed: (old(stats).local_maximum_quality_is_allowed + (value as u64)) as u64, ..*old(stats) })),
        stat == LocalStat::ItemBenefitSocketableAsIfGloves ==> ok && *final(stats) == (LocalIntegerStats { local_item_benefit_socketable_as_if_gloves: true, ..*old(stats) }),
        stat == LocalStat::ItemBenefitSocketableAsIfBoots ==> ok && *final(stats) == (LocalIntegerStats { local_item_benefit_socketable_as_if_boots: true, ..*old(stats) }),
        stat == LocalStat::CharmSlots ==> ok == (old(stats).local_charm_slots + (value as u64) <= u64::MAX) && (ok ==> *final(stats) == (LocalIntegerStats { local_charm_slots: (old(stats).local_charm_slots + (value as u64)) as u64, ..*old(stats) })),
        stat == LocalStat::FlaskUseOnAffectedByFreeze ==> ok && *final(stats) == (LocalIntegerStats { local_flask_use_on_affected_by_freeze: true, ..*old(stats) }),
        stat == LocalStat::FlaskUseOnAffectedByBleed ==> ok && *final(stats) == (LocalIntegerStats { local_flask_use_on_affected_by_bleed: true, ..*old(stats) }),
        stat == LocalStat::FlaskUseOnAffectedByPoison ==> ok && *final(stats) == (LocalIntegerStats { local_flask_use_on_affected_by_poison: true, ..*old(stats) }),
        stat == LocalStat::FlaskUseOnAffectedByIgnite ==> ok && *final(stats) == (LocalIntegerStats { local_flask_use_on_affected_by_ignite: true, ..*old(stats) }),
        stat == LocalStat::FlaskUseOnAffectedByShock ==> ok && *final(stats) == (LocalIntegerStats { local_flask_use_on_affected_by_shock: true, ..*old(stats) }),
        stat == LocalStat::FlaskUseOnStunned ==> ok && *final(stats) == (LocalIntegerStats { local_flask_use_on_stunned: true, ..*old(stats) }),
        stat == LocalStat::FlaskUseOnAffectedBySlow ==> ok && *final(stats) == (LocalIntegerStats { local_flask_use_on_affected_by_slow: true, ..*old(stats) }),
        stat == LocalStat::FlaskUseOnFireDamageTaken ==> ok && *final(stats) == (LocalIntegerStats { local_flask_use_on_fire_damage_taken: true, ..*old(stats) }),
        stat == LocalStat::FlaskUseOnColdDamageTaken ==> ok && *final(stats) == (LocalIntegerStats { local_flask_use_on_cold_damage_taken: true, ..*old(stats) }),
        stat == LocalStat::FlaskUseOnLightningDamageTaken ==> ok && *final(stats) == (LocalIntegerStats { local_flask_use_on_lightning_damage_taken: true, ..*old(stats) }),
        stat == LocalStat::FlaskUseOnChaosDamageTaken ==> ok && *final(stats) == (LocalIntegerStats { local_flask_use_on_chaos_damage_taken: true, ..*old(stats) }),
        stat == LocalStat::FlaskUseOnKillingRareOrUniqueEnemy ==> ok && *final(stats) == (LocalIntegerStats { local_flask_use_on_killing_rare_or_unique_enemy: true, ..*old(stats) }),
        stat == LocalStat::CharmTriggerWhenCursed ==> ok && *final(stats) == (LocalIntegerStats { local_charm_trigger_when_cursed: true, ..*old(stats) }),
        stat == LocalStat::Ward ==> ok == (old(stats).local_maximum_ward + (value as u64) <= u64::MAX) && (ok ==> *final(stats) == (LocalIntegerStats { local_maximum_ward: (old(stats).local_maximum_ward + (value as u64)) as u64, ..*old(stats) })),
        stat == LocalStat::GainXRageOnHit ==> ok == (old(stats).local_rage_on_hit + (value as u64) <= u64::MAX) && (ok ==> *final(stats) == (LocalIntegerStats { local_rage_on_hit: (old(stats).local_rage_on_hit + (value as u64)) as u64, ..*old(stats) })),
        stat == LocalStat::WeaponAccuracyIsUnaffectedByDistance ==> ok && *final(stats) == (LocalIntegerStats { local_weapon_accuracy_is_unaffected_by_distance: true, ..*old(stats) }),
        stat == LocalStat::CullingStrike ==> ok && *final(stats) == (LocalIntegerStats { local_culling_strike: true, ..*old(stats) }),
        stat == LocalStat::CannotBeThrown ==> ok && *final(stats) == (LocalIntegerStats { local_cannot_be_thrown: true, ..*old(stats) }),
        stat == LocalStat::AlwaysHit ==> ok && *final(stats) == (LocalIntegerStats { local_always_hit: true, ..*old(stats) }),
        stat == LocalStat::CrushOnHit ==> ok && *final(stats) == (LocalIntegerStats { local_crush_on_hit: true, ..*old(stats) }),
        stat == LocalStat::DisplayGrantsSpearThrowSkill ==> ok && *final(stats) == (LocalIntegerStats { local_display_grants_spear_throw_skill: true, ..*old(stats) }),
        stat == LocalStat::ApplyXArmourBreakOnCrit ==> ok == (old(stats).local_apply_x_armour_break_on_crit + (value as u64) <= u64::MAX) && (ok ==> *final(stats) == (LocalIntegerStats { local_apply_x_armour_break_on_crit: (old(stats).local_apply_x_armour_break_on_crit + (value as u64)) as u64, ..*old(stats) })),
        stat == LocalStat::WeaponRollCritsTwice ==> ok && *final(stats) == (LocalIntegerStats { local_weapon_roll_crits_twice: true, ..*old(stats) }),
        stat == LocalStat::AttacksCannotBeBlocked ==> ok && *final(stats) == (LocalIntegerStats { local_attacks_cannot_be_blocked: true, ..*old(stats) }),
        stat == LocalStat::CrossbowNoAmmoSkillsAndGiveAlternateGrenadeDefaultAttack ==> ok && *final(stats) == (LocalIntegerStats { local_crossbow_no_ammo_skills_and_give_alternate_grenade_default_attack: true, ..*old(stats) }),
{
    match stat {
        LocalStat::BasePhysicalDamageReductionRating => add_unsigned(&mut stats.local_flat_armour, value),
        LocalStat::EnergyShield => add_unsigned(&mut stats.local_energy_shield, value),
        LocalStat::BaseEvasionRating => add_unsigned(&mut stats.local_flat_evasion, value),
        LocalStat::MinimumAddedPhysicalDamage => add_unsigned(&mut stats.local_flat_physical_min, value),
        LocalStat::MaximumAddedPhysicalDamage => add_unsigned(&mut stats.local_flat_physical_max, value),
        LocalStat::MinimumAddedFireDamage => add_unsigned(&mut stats.local_flat_fire_min, value),
        LocalStat::MaximumAddedFireDamage => add_unsigned(&mut stats.local_flat_fire_max, value),
        LocalStat::MinimumAddedColdDamage => add_unsigned(&mut stats.local_flat_cold_min, value),
        LocalStat::MaximumAddedColdDamage => add_unsigned(&mut stats.local_flat_cold_max, value),
        LocalStat::MinimumAddedLightningDamage => add_unsigned(&mut stats.local_flat_lightning_min, value),
        LocalStat::MaximumAddedLightningDamage => add_unsigned(&mut stats.local_flat_lightning_max, value),
        LocalStat::LifeGainPerTarget => add_unsigned(&mut stats.local_life_gain_per_hit, value),
        LocalStat::ManaGainPerTarget => add_unsigned(&mut stats.local_mana_gain_per_hit, value),
        LocalStat::CriticalStrikeMultiplierPlus => add_signed(&mut stats.local_critical_strike_multiplier, value),
        LocalStat::BlockChanceIncreased => add_unsigned(&mut stats.local_block_chance, value),
        LocalStat::SpiritIncreased => add_unsigned(&mut stats.local_spirit_percent_increase, value),
        LocalStat::NumberOfAdditionalArrows => add_unsigned(&mut stats.number_of_additional_arrows, value),
        LocalStat::ChanceToFire1AdditionalProjectilePercentWithRolloverWithBowAttacks => add_unsigned(&mut stats.chance_to_fire_1_additional_projectile, value),
        LocalStat::AdditionalCharmSlots => add_unsigned(&mut stats.number_of_additional_charm_slots, value),
        LocalStat::BaseStunDurationIncreased => add_unsigned(&mut stats.local_base_stun_duration, value),
        LocalStat::HitDamageStunMultiplierIncreased => add_unsigned(&mut stats.local_hit_damage_stun_multiplier, value),
        LocalStat::ChargesAddedIncreased => add_unsigned(&mut stats.local_flask_charges_gained, value),
        LocalStat::MaxChargesIncreased => add_unsigned(&mut stats.local_flask_max_charges, value),
        LocalStat::ChargesUsedIncreased => add_signed(&mut stats.local_flask_charges_reduced_used, value),
        LocalStat::PercentChanceToGainFlaskChargeOnKill => add_unsigned(&mut stats.local_chance_to_gain_flask_charge_on_kill, value),
        LocalStat::FlaskGainXChargesEveryMinute => add_unsigned(&mut stats.local_flask_gain_x_charges_every_minute, value),
        LocalStat::FlaskRecoverySpeedIncreased => add_unsigned(&mut stats.local_flask_recovery_speed_plus_percent, value),
        LocalStat::FlaskAmountToRecoverIncreased => add_signed(&mut stats.local_flask_amount_to_recover_plus_percent, value),
        LocalStat::FlaskAmountToRecoverIncreasedWhenOnLowLife => add_unsigned(&mut stats.local_flask_amount_to_recover_plus_percent_when_on_low_life, value),
        LocalStat::FlaskAmountToRecoverIncreasedWhenOnLowMana => add_unsigned(&mut stats.local_flask_amount_to_recover_plus_percent_when_on_low_mana, value),
        LocalStat::FlaskLifeToRecoverIncreased => add_unsigned(&mut stats.local_flask_life_to_recover_plus_percent, value),
        LocalStat::FlaskManaToRecoverIncreased => add_unsigned(&mut stats.local_flask_mana_to_recover_plus_percent, value),
        LocalStat::FlaskRecoversInstantly => {
            stats.local_flask_recover_instantly = true;
            true
        },
        LocalStat::MaximumPrefixesAllowedPlus => add_signed(&mut stats.local_maximum_prefixes_allowed, value),
        LocalStat::MaximumSuffixesAllowedPlus => add_signed(&mut stats.local_maximum_suffixes_allowed, value),
        LocalStat::ItemBenefitSocketableAsIfHelmet => {
            stats.local_item_benefit_socketable_as_if_helmet = true;
            true
        },
        LocalStat::ItemAdditionalSkillSlots => add_unsigned(&mut stats.local_item_additional_skill_slots, value),
        LocalStat::MaximumQualityIsPercent => add_unsigned(&mut stats.local_maximum_quality_is_allowed, value),
        LocalStat::ItemBenefitSocketableAsIfGloves => {
            stats.local_item_benefit_socketable_as_if_gloves = true;
            true
        },
        LocalStat::ItemBenefitSocketableAsIfBoots => {
            stats.local_item_benefit_socketable_as_if_boots = true;
            true
        },
        LocalStat::CharmSlots => add_unsigned(&mut stats.local_charm_slots, value),
        LocalStat::FlaskUseOnAffectedByFreeze => {
            stats.local_flask_use_on_affected_by_freeze = true;
            true
        },
        LocalStat::FlaskUseOnAffectedByBleed => {
            stats.local_flask_use_on_affected_by_bleed = true;
            true
        },
        LocalStat::FlaskUseOnAffectedByPoison => {
            stats.local_flask_use_on_affected_by_poison = true;
            true
        },
        LocalStat::FlaskUseOnAffectedByIgnite => {
            stats.local_flask_use_on_affected_by_ignite = true;
            true
        },
        LocalStat::FlaskUseOnAffectedByShock => {
            stats.local_flask_use_on_affected_by_shock = true;
            true
        },
        LocalStat::FlaskUseOnStunned => {
            stats.local_flask_use_on_stunned = true;
            true
        },
        LocalStat::FlaskUseOnAffectedBySlow => {
            stats.local_flask_use_on_affected_by_slow = true;
            true
        },
        LocalStat::FlaskUseOnFireDamageTaken => {
            stats.local_flask_use_on_fire_damage_taken = true;
            true
        },
        LocalStat::FlaskUseOnColdDamageTaken => {
            stats.local_flask_use_on_cold_damage_taken = true;
            true
        },
        LocalStat::FlaskUseOnLightningDamageTaken => {
            stats.local_flask_use_on_lightning_damage_taken = true;
            true
        },
        LocalStat::FlaskUseOnChaosDamageTaken => {
            stats.local_flask_use_on_chaos_damage_taken = true;
            true
        },
        LocalStat::FlaskUseOnKillingRareOrUniqueEnemy => {
            stats.local_flask_use_on_killing_rare_or_unique_enemy = true;
            true
        },
        LocalStat::CharmTriggerWhenCursed => {
            stats.local_charm_trigger_when_cursed = true;
            true
        },
        LocalStat::Ward => add_unsigned(&mut stats.local_maximum_ward, value),
        LocalStat::GainXRageOnHit => add_unsigned(&mut stats.local_rage_on_hit, value),
        LocalStat::WeaponAccuracyIsUnaffectedByDistance => {
            stats.local_weapon_accuracy_is_unaffected_by_distance = true;
            true
        },
        LocalStat::CullingStrike => {
            stats.local_culling_strike = true;
            true
        },
        LocalStat::CannotBeThrown => {
            stats.local_cannot_be_thrown = true;
            true
        },
        LocalStat::AlwaysHit => {
            stats.local_always_hit = true;
            true
        },
        LocalStat::CrushOnHit => {
            stats.local_crush_on_hit = true;
            true
        },
        LocalStat::DisplayGrantsSpearThrowSkill => {
            stats.local_display_grants_spear_throw_skill = true;
            true
        },
        LocalStat::ApplyXArmourBreakOnCrit => add_unsigned(&mut stats.local_apply_x_armour_break_on_crit, value),
        LocalStat::WeaponRollCritsTwice => {
            stats.local_weapon_roll_crits_twice = true;
            true
        },
        LocalStat::AttacksCannotBeBlocked => {
            stats.local_attacks_cannot_be_blocked = true;
            true
        },
        LocalStat::CrossbowNoAmmoSkillsAndGiveAlternateGrenadeDefaultAttack => {
            stats.local_crossbow_no_ammo_skills_and_give_alternate_grenade_default_attack = true;
            true
        },
        _ => true,
    }
}

} // verus!
