//! The bucket table read by bucket: which stat identifiers feed each
//! final-stat bucket.

use vstd::prelude::*;

use crate::calculation::bucket_table::bucket_table_buckets;
use crate::calculation::bucket_table::bucket_table_len;
use crate::calculation::bucket_table::bucket_table_name;
use crate::item::state::StatBucket;

verus! {

/// The stat identifiers that feed bucket `b`, in table order.
pub open spec fn stats_feeding(b: StatBucket) -> Seq<Seq<char>> {
    match b {
        StatBucket::Life => seq!["base_maximum_life"@],
        StatBucket::LifePercent => seq!["maximum_life_+%"@],
        StatBucket::Mana => seq!["base_maximum_mana"@],
        StatBucket::ManaPercent => seq!["maximum_mana_+%"@],
        StatBucket::EnergyShield => seq!["base_maximum_energy_shield"@],
        StatBucket::MaximumEnergyShieldPercent => seq!["maximum_energy_shield_+%"@],
        StatBucket::Spirit => seq!["base_spirit"@, "base_spirit_from_equipment"@],
        StatBucket::Ward => seq!["base_maximum_ward"@],
        StatBucket::Armour => seq!["base_physical_damage_reduction_rating"@],
        StatBucket::ArmourPercent => seq!["physical_damage_reduction_rating_+%"@],
        StatBucket::Evasion => seq!["base_evasion_rating"@],
        StatBucket::EvasionPercent => seq![],
        StatBucket::Block => seq![],
        StatBucket::ThornsPhysicalMin => seq!["thorns_minimum_base_physical_damage"@],
        StatBucket::ThornsPhysicalMax => seq!["thorns_maximum_base_physical_damage"@],
        StatBucket::FireResistance => seq!["base_fire_damage_resistance_%"@, "base_resist_all_elements_%"@, "fire_and_cold_damage_resistance_%"@, "fire_and_lightning_damage_resistance_%"@, "fire_and_chaos_damage_resistance_%"@],
        StatBucket::ColdResistance => seq!["base_cold_damage_resistance_%"@, "base_resist_all_elements_%"@, "fire_and_cold_damage_resistance_%"@, "cold_and_lightning_damage_resistance_%"@, "cold_and_chaos_damage_resistance_%"@],
        StatBucket::LightningResistance => seq!["base_lightning_damage_resistance_%"@, "base_resist_all_elements_%"@, "fire_and_lightning_damage_resistance_%"@, "cold_and_lightning_damage_resistance_%"@, "lightning_and_chaos_damage_resistance_%"@],
        StatBucket::ChaosResistance => seq!["base_chaos_damage_resistance_%"@, "base_resist_all_elements_%"@, "fire_and_chaos_damage_resistance_%"@, "cold_and_chaos_damage_resistance_%"@, "lightning_and_chaos_damage_resistance_%"@],
        StatBucket::Strength => seq!["additional_strength"@, "additional_strength_and_intelligence"@, "additional_strength_and_dexterity"@, "additional_all_attributes"@, "base_all_attributes"@],
        StatBucket::Dexterity => seq!["additional_dexterity"@, "additional_strength_and_dexterity"@, "additional_all_attributes"@, "additional_dexterity_and_intelligence"@, "base_all_attributes"@],
        StatBucket::Intelligence => seq!["additional_intelligence"@, "additional_strength_and_intelligence"@, "additional_all_attributes"@, "additional_dexterity_and_intelligence"@, "base_all_attributes"@],
        StatBucket::ChaosDamagePercent => seq!["chaos_damage_+%"@],
        StatBucket::StunThreshold => seq!["stun_threshold_+"@],
        StatBucket::ReducedAttributeRequirementsPercent => seq![],
        StatBucket::MovementSpeedPercent => seq!["base_movement_velocity_+%"@],
        StatBucket::GlobalAttackPhysicalMin => seq!["attack_minimum_added_physical_damage"@],
        StatBucket::GlobalAttackPhysicalMax => seq!["attack_maximum_added_physical_damage"@],
        StatBucket::GlobalAttackFireMin => seq!["attack_minimum_added_fire_damage"@],
        StatBucket::GlobalAttackFireMax => seq!["attack_maximum_added_fire_damage"@],
        StatBucket::GlobalAttackColdMin => seq!["attack_minimum_added_cold_damage"@],
        StatBucket::GlobalAttackColdMax => seq!["attack_maximum_added_cold_damage"@],
        StatBucket::GlobalAttackLightningMin => seq!["attack_minimum_added_lightning_damage"@],
        StatBucket::GlobalAttackLightningMax => seq!["attack_maximum_added_lightning_damage"@],
        StatBucket::AttackDamageIncreasePrecent => seq!["attack_damage_+%"@],
        StatBucket::AlliesInPresenceAttackPhysicalMin => seq!["allies_in_presence_attack_minimum_added_physical_damage"@],
        StatBucket::AlliesInPresenceAttackPhysicalMax => seq!["allies_in_presence_attack_maximum_added_physical_damage"@],
        StatBucket::AlliesInPresenceAttackFireMin => seq!["allies_in_presence_attack_minimum_added_fire_damage"@],
        StatBucket::AlliesInPresenceAttackFireMax => seq!["allies_in_presence_attack_maximum_added_fire_damage"@],
        StatBucket::AlliesInPresenceAttackColdMin => seq!["allies_in_presence_attack_minimum_added_cold_damage"@],
        StatBucket::AlliesInPresenceAttackColdMax => seq!["allies_in_presence_attack_maximum_added_cold_damage"@],
        StatBucket::AlliesInPresenceAttackLightningMin => seq!["allies_in_presence_attack_minimum_added_lightning_damage"@],
        StatBucket::AlliesInPresenceAttackLightningMax => seq!["allies_in_presence_attack_maximum_added_lightning_damage"@],
        StatBucket::AlliesInPresenceAttackChaosMin => seq!["allies_in_presence_attack_minimum_added_chaos_damage"@],
        StatBucket::AlliesInPresenceAttackChaosMax => seq!["allies_in_presence_attack_maximum_added_chaos_damage"@],
        StatBucket::AlliesInPresenceDamageIncreasePrecent => seq!["allies_in_presence_damage_+%"@],
        StatBucket::AlliesInPresenceAttackSpeedIncreasePrecent => seq!["allies_in_presence_attack_speed_+%"@],
        StatBucket::AlliesInPresenceAccuracyRating => seq!["allies_in_presence_accuracy_rating"@],
        StatBucket::AccuracyRating => seq!["local_accuracy_rating"@, "accuracy_rating"@],
        StatBucket::AccuracyRatingPercent => seq!["accuracy_rating_+%"@],
        StatBucket::ChanceToNotConsumeExertedAttack => seq!["chance_for_exerted_attacks_to_not_reduce_count_%"@],
        StatBucket::SpellDamageIncreasePrecent => seq!["spell_damage_+%"@],
        StatBucket::SpellPhysicalDamageIncreasePrecent => seq!["spell_physical_damage_+%"@],
        StatBucket::FireDamageIncreasePrecent => seq!["fire_damage_+%"@],
        StatBucket::ColdDamageIncreasePrecent => seq!["cold_damage_+%"@],
        StatBucket::LightningDamageIncreasePrecent => seq!["lightning_damage_+%"@],
        StatBucket::ChaosDamageIncreasePrecent => seq!["chaos_damage_+%"@],
        StatBucket::PhysicalDamageIncreasePrecent => seq!["physical_damage_+%"@],
        StatBucket::TrapDamageIncreasePrecent => seq!["trap_damage_+%"@, "trap_damage_+%"@],
        StatBucket::SpellSkillGemLevelIncrease => seq!["spell_skill_gem_level_+"@],
        StatBucket::FireSpellSkillGemLevelIncrease => seq!["fire_spell_skill_gem_level_+"@],
        StatBucket::ColdSpellSkillGemLevelIncrease => seq!["cold_spell_skill_gem_level_+"@],
        StatBucket::LightningSpellSkillGemLevelIncrease => seq!["lightning_spell_skill_gem_level_+"@],
        StatBucket::ChaosSpellSkillGemLevelIncrease => seq!["chaos_spell_skill_gem_level_+"@],
        StatBucket::PhysicalSpellSkillGemLevelIncrease => seq!["physical_spell_skill_gem_level_+"@],
        StatBucket::MinionSkillGemLevelIncrease => seq!["minion_skill_gem_level_+"@],
        StatBucket::TrapSkillGemLevelIncrease => seq!["trap_skill_gem_level_+"@],
        StatBucket::MeleeSkillGemLevelIncrease => seq!["melee_skill_gem_level_+"@],
        StatBucket::ProjectileSkillGemLevelIncrease => seq!["projectile_skill_gem_level_+"@],
        StatBucket::LiferRegenPerMinute => seq!["base_life_regeneration_rate_per_minute"@],
        StatBucket::LifeRegenPerMinutePercent => seq!["life_regeneration_rate_per_minute_%"@],
        StatBucket::AlliesInPresenceLifeRegenPerMinute => seq!["allies_in_presence_life_regeneration_rate_per_minute"@],
        StatBucket::ManaRegenerationRatePercent => seq!["mana_regeneration_rate_+%"@],
        StatBucket::BaseLifeLeechFromPhysicalAttackDamage => seq!["base_life_leech_from_physical_attack_damage_permyriad"@],
        StatBucket::BaseManaLeechFromPhysicalAttackDamage => seq!["base_mana_leech_from_physical_attack_damage_permyriad"@],
        StatBucket::BaseLifeGainedOnEnemyDeath => seq!["base_life_gained_on_enemy_death"@],
        StatBucket::BaseManaGainedOnEnemyDeath => seq!["base_mana_gained_on_enemy_death"@],
        StatBucket::BaseLifeGainedOnEnemyHit => seq!["base_life_gain_per_target"@],
        StatBucket::BaseManaGainedOnEnemyHit => seq!["base_mana_gain_per_target"@],
        StatBucket::AttackSpeedPercent => seq!["attack_speed_+%"@],
        StatBucket::BaseCastSpeedIncreasePrecent => seq!["base_cast_speed_+%"@],
        StatBucket::AlliesInPresenceCastSpeedIncreasePrecent => seq!["allies_in_presence_cast_speed_+%"@],
        StatBucket::CriticalStrikeChanceIncreasePrecent => seq!["critical_strike_chance_+%"@],
        StatBucket::TrapThrowingSpeedIncreasePrecent => seq!["trap_throwing_speed_+%"@],
        StatBucket::SpellCriticalStrikeChanceIncreasePrecent => seq!["spell_critical_strike_chance_+%"@],
        StatBucket::AttackCriticalStrikeChanceIncreasePrecent => seq!["attack_critical_strike_chance_+%"@],
        StatBucket::TrapCriticalStrikeChanceIncreasePrecent => seq!["trap_critical_strike_chance_+%"@],
        StatBucket::AlliesInPresenceCriticalStrikeChanceIncreasePrecent => seq!["allies_in_presence_critical_strike_chance_+%"@],
        StatBucket::BaseCriticalStrikeMultiplierIncreasePrecent => seq!["base_critical_strike_multiplier_+"@],
        StatBucket::BaseSpellCriticalStrikeMultiplierIncreasePrecent => seq!["base_spell_critical_strike_multiplier_+"@],
        StatBucket::AttackCriticalStrikeMultiplierIncreasePrecent => seq![],
        StatBucket::AttackCriticalStrikeMultiplierIncrease => seq!["attack_critical_strike_multiplier_+"@],
        StatBucket::TrapCriticalStrikeMultiplierIncrease => seq!["trap_critical_strike_multiplier_+"@],
        StatBucket::AlliesInPresenceCriticalStrikeMultiplierIncrease => seq!["allies_in_presence_critical_strike_multiplier_+"@],
        StatBucket::BaseItemFoundRarityIncreasePrecent => seq!["base_item_found_rarity_+%"@],
        StatBucket::LightRadiusIncreasePrecent => seq!["light_radius_+%"@],
        StatBucket::SelfBleedDurationDecreasePrecent => seq!["self_bleed_duration_+%"@],
        StatBucket::SelfPoisonDurationDecreasePrecent => seq!["self_poison_duration_+%"@],
        StatBucket::BaseIgniteDurationDecreasePrecent => seq!["base_self_ignite_duration_-%"@],
        StatBucket::BaseSelfShockDurationDecreasePrecent => seq!["base_self_shock_duration_-%"@],
        StatBucket::BaseSelfChillDurationDecreasePrecent => seq!["base_self_chill_duration_-%"@],
        StatBucket::BaseSelfFreezeDurationDecreasePrecent => seq!["base_self_freeze_duration_-%"@],
        StatBucket::ReduceCriticalStrikeMultiplierToSelf => seq!["base_self_critical_strike_multiplier_-%"@],
        StatBucket::PhysicalDamageReductionPrecent => seq!["base_additional_physical_damage_reduction_%"@],
        StatBucket::FireResistanceMax => seq!["base_maximum_fire_damage_resistance_%"@],
        StatBucket::ColdResistanceMax => seq!["base_maximum_cold_damage_resistance_%"@],
        StatBucket::LightningResistanceMax => seq!["base_maximum_lightning_damage_resistance_%"@],
        StatBucket::ChaosResistanceMax => seq!["base_maximum_chaos_damage_resistance_%"@],
        StatBucket::AllElementalResistanceMax => seq!["additional_maximum_all_elemental_resistances_%"@, "additional_maximum_all_resistances_%"@],
        StatBucket::EnergyShieldRechargeRateIncreasePrecent => seq!["energy_shield_recharge_rate_+%"@],
        StatBucket::EnergyShieldDelayDecreasePrecent => seq!["energy_shield_delay_-%"@],
        StatBucket::ArmourAppliesToElementalDamage => seq!["armour_%_applies_to_fire_cold_lightning_damage"@],
        StatBucket::ArmourPercentAppliesToChaosDamage => seq!["base_armour_%_applies_to_chaos_damage"@],
        StatBucket::EvasionAppliesToDeflection => seq!["base_deflection_rating_%_of_evasion_rating"@],
        StatBucket::BaseDeflectionRatingPercentOfArmour => seq!["base_deflection_rating_%_of_armour"@],
        StatBucket::DeflectDamageTaken => seq!["base_damage_%_deflected"@],
        StatBucket::PercentEvasionRatingAsExtraArmour => seq!["evasion_rating_%_to_gain_as_armour"@],
        StatBucket::BaseChanceToPierce => seq!["base_chance_to_pierce_%"@],
        StatBucket::BaseNumberOfCrossbowBolts => seq!["base_number_of_crossbow_bolts"@],
        StatBucket::FlaskLifeRecoveryRateIncreasePrecent => seq!["flask_life_recovery_rate_+%"@, "flask_life_to_recover_+%"@],
        StatBucket::LifeFlaskChargesGainedIncreasePrecent => seq!["life_flask_charges_gained_+%"@],
        StatBucket::FlaskManaRecoveryRateIncreasePrecent => seq!["flask_mana_recovery_rate_+%"@, "flask_mana_to_recover_+%"@],
        StatBucket::ManaFlaskChargesGainedIncreasePrecent => seq!["mana_flask_charges_gained_+%"@],
        StatBucket::FlaskRecoveryAmountPercentToRecoverInstantly => seq!["flask_recovery_amount_%_to_recover_instantly"@],
        StatBucket::GenerateXChargesForAnyFlaskPerMinute => seq!["generate_x_charges_for_any_flask_per_minute"@],
        StatBucket::MaximumManaGainedOnKillPercent => seq!["maximum_mana_%_gained_on_kill"@],
        StatBucket::BaseManaLeechAmountIncreasePrecent => seq!["base_mana_leech_amount_+%"@],
        StatBucket::MovementSpeedPenaltyReductionPercent => seq!["movement_speed_penalty_+%_while_performing_action"@],
        StatBucket::BaseDamageRemovedFromManaBeforeLifePercent => seq!["base_damage_removed_from_mana_before_life_%"@],
        StatBucket::SelfStatusAilmentDurationReductionPercent => seq!["self_elemental_status_duration_-%"@],
        StatBucket::CorruptedSkillGemLevelIncrease => seq!["corrupted_skill_gem_level_+"@],
        StatBucket::WardRegenerationRateIncreasePrecent => seq!["ward_regeneration_rate_+%"@],
        StatBucket::BaseIgniteIncereasedMagnitudePrecent => seq!["base_ignite_effect_+%"@],
        StatBucket::BaseDamageTakenIncreasePrecent => seq!["base_damage_taken_+%"@],
        StatBucket::IncreaseEvasionPercentArmourPercentEnergyShieldPercentFromShield => seq!["shield_armour_evasion_energy_shield_+%"@],
        StatBucket::StrikesDealMeleeSplash => seq!["melee_splash"@],
        StatBucket::WarCryEmpowersNextXMeleeAttacks => seq!["warcry_empowers_next_x_melee_attacks"@],
        StatBucket::GainXRageOnMeleeHit => seq!["gain_x_rage_on_melee_hit"@],
        StatBucket::GainXRageWhenGetByEnemyHit => seq!["gain_x_rage_when_hit"@],
        StatBucket::ShockEffectIncreasePrecent => seq!["shock_effect_+%"@],
        StatBucket::MaximumRage => seq!["maximum_rage"@],
        StatBucket::MinionAccuracyRatingIncreasePrecent => seq!["minion_accuracy_rating_+%"@],
        StatBucket::MinionSkillAreaOfEffectIncreasePrecent => seq!["minion_skill_area_of_effect_+%"@],
        StatBucket::MinionChaosResistanceIncreasePrecent => seq!["minion_chaos_resistance_%"@],
        StatBucket::MinionCriticalStrikeChanceIncreasePrecent => seq!["minion_critical_strike_chance_+%"@],
        StatBucket::MinionCriticalStrikeMultiplierIncreasePrecent => seq!["minion_critical_strike_multiplier_+"@],
        StatBucket::MinionAttackAndCastSpeedIncreasePrecent => seq!["minion_attack_and_cast_speed_+%"@],
        StatBucket::MeleeDamageIncreasePrecent => seq!["melee_damage_+%"@],
        StatBucket::MarkEffectIncreasePrecent => seq!["mark_effect_+%"@],
        StatBucket::MarkSkillDurationIncreasePrecent => seq!["mark_skill_duration_+%"@],
        StatBucket::MarkUseSpeedIncreasePrecent => seq!["mark_use_speed_+%"@],
        StatBucket::SpellsCostLifeInsteadOfMana => seq!["spells_cost_life_instead_of_mana_%"@],
        StatBucket::ProjectileAttackRangePrecent => seq!["projectile_attack_range_+%"@],
        StatBucket::ChanceToFire1AdditionalProjectileWithRolloverWithBowAttacks => seq!["chance_to_fire_1_additional_projectile_%_with_rollover_with_bow_attacks"@],
        StatBucket::ProjectileSpeedIncreasePrecentForCrossbowSkills => seq!["projectile_speed_+%_with_crossbow_skills"@],
        StatBucket::GrenadeSkillNumberOfAdditionalProjectiles => seq!["grenade_skill_number_of_additional_projectiles"@],
        StatBucket::AdditionalBallistaTotemsAllowed => seq!["additional_ballista_totems_allowed"@],
        StatBucket::GrenadeSkillCooldownCount => seq!["grenade_skill_cooldown_count_+"@],
        StatBucket::GrenadeSkillCooldownSpeedIncreasePrecent => seq!["grenade_skill_cooldown_speed_+%"@],
        StatBucket::PlacingTrapsCooldownRecoveryForThrowingIncreasePrecent => seq!["placing_traps_cooldown_recovery_+%"@],
        StatBucket::AilmentChanceIncreasePrecent => seq!["ailment_chance_+%"@],
        StatBucket::AilmentEffectIncreasePrecent => seq!["ailment_effect_+%"@],
        StatBucket::BaseSkillAreaOfEffectIncreasePrecent => seq!["base_skill_area_of_effect_+%"@],
        StatBucket::ArmourBreakAmountIncreasePrecent => seq!["armour_break_amount_+%"@],
        StatBucket::AuraEffectIncreasePrecent => seq!["aura_effect_+%"@],
        StatBucket::AxeDamageIncreasePrecent => seq!["axe_damage_+%"@],
        StatBucket::AxeAttackSpeedIncreasePrecent => seq!["axe_attack_speed_+%"@],
        StatBucket::BaseChanceToInflictBleeding => seq!["base_chance_to_inflict_bleeding_%"@],
        StatBucket::BaseBleedDurationIncreasePrecent => seq!["base_bleed_duration_+%"@],
        StatBucket::BlindEffectIncreasePrecent => seq!["blind_effect_+%"@],
        StatBucket::ChanceToBlindOnHitWithAttacks => seq!["attacks_chance_to_blind_on_hit_%"@],
        StatBucket::DamageToRareAndUniqueEnemiesIncreasePrecent => seq!["damage_+%_to_rare_and_unique_enemies"@],
        StatBucket::ProjectileChanceToChain1ExtraTimeFromTerrainIncreasePrecent => seq!["projectile_chance_to_chain_1_extra_time_from_terrain_%"@],
        StatBucket::ColdResistancePenetration => seq!["base_reduce_enemy_cold_resistance_%"@],
        StatBucket::BaseCooldownSpeedIncreasePrecent => seq!["base_cooldown_speed_+%"@],
        StatBucket::DamageIfYouHaveConsumedACorpseRecentlyIncreasePrecent => seq!["damage_+%_if_you_have_consumed_a_corpse_recently"@],
        StatBucket::CriticalHitDamagingAilmentEffectIncreasePrecent => seq!["critical_hit_damaging_ailment_effect_+%"@],
        StatBucket::CrossbowDamageIncreasePrecent => seq!["crossbow_damage_+%"@],
        StatBucket::ReloadSpeedIncreasePrecent => seq!["reload_speed_+%"@],
        StatBucket::CrossbowAttackSpeedIncreasePrecent => seq!["crossbow_attack_speed_+%"@],
        StatBucket::CurseAreaOfEffectIncreasePrecent => seq!["curse_area_of_effect_+%"@],
        StatBucket::CurseDelayIncreasePrecent => seq!["curse_delay_+%"@],
        StatBucket::BaseCurseDurationIncreasePrecent => seq!["base_curse_duration_+%"@],
        StatBucket::CurseEffectIncreasePrecent => seq!["curse_effect_+%"@],
        StatBucket::DaggerCriticalStrikeChanceIncreasePrecent => seq!["dagger_critical_strike_chance_+%"@],
        StatBucket::DaggerDamageIncreasePrecent => seq!["dagger_damage_+%"@],
        StatBucket::DaggerAttackSpeedIncreasePrecent => seq!["dagger_attack_speed_+%"@],
        StatBucket::DamageAgainstEnemiesWithFullyBrokenArmourIncreasePrecent => seq!["damage_+%_against_enemies_with_fully_broken_armour"@],
        StatBucket::DamagingAilmentDurationIncreasePrecent => seq!["damaging_ailment_duration_+%"@],
        StatBucket::BaseChanceToDazeIncreasePrecent => seq!["base_chance_to_daze_%"@],
        StatBucket::DebuffTimePassedIncreasePrecent => seq!["debuff_time_passed_+%"@],
        StatBucket::IgniteShockChillDurationIncreasePrecent => seq!["ignite_shock_chill_duration_+%"@],
        StatBucket::ElementalDamageIncreasePrecent => seq!["elemental_damage_+%"@],
        StatBucket::EmpoweredAttackDamageIncreasePrecent => seq!["empowered_attack_damage_+%"@],
        StatBucket::EnergyGeneratedIncreasePrecent => seq!["energy_generated_+%"@],
        StatBucket::DamagingAilmentsDealDamageIncreasePrecent => seq!["damaging_ailments_deal_damage_+%_faster"@],
        StatBucket::FireResistancePenetration => seq!["base_reduce_enemy_fire_resistance_%"@],
        StatBucket::FlailCriticalStrikeChanceIncreasePrecent => seq!["flail_critical_strike_chance_+%"@],
        StatBucket::FlailDamageIncreasePrecent => seq!["flail_damage_+%"@],
        StatBucket::EnergyShieldFromFocusIncreasePrecent => seq!["energy_shield_from_focus_+%"@],
        StatBucket::ChanceToForkExtraProjectileIncreasePrecent => seq!["chance_to_fork_extra_projectile_%"@],
        StatBucket::FreezeThresholdIncreasePrecent => seq!["freeze_threshold_+%"@],
        StatBucket::DamageWithHeraldSkillsIncreasePrecent => seq!["damage_+%_with_herald_skills"@],
        StatBucket::SkillEffectDurationIncreasePrecent => seq!["skill_effect_duration_+%"@],
        StatBucket::KnockbackDistanceIncreasePrecent => seq!["knockback_distance_+%"@],
        StatBucket::BaseSkillCostLifeInsteadOfManaIncreasePrecent => seq!["base_skill_cost_life_instead_of_mana_%"@],
        StatBucket::BaseLifeLeechAmountIncreasePrecent => seq!["base_life_leech_amount_+%"@],
        StatBucket::RecoverMaximumLifeOnKillIncreasePrecent => seq!["recover_%_maximum_life_on_kill"@],
        StatBucket::DamageTakenGoesToLifeOver4SecondsIncreasePrecent => seq!["damage_taken_goes_to_life_over_4_seconds_%"@],
        StatBucket::LifeRegenerationRateIncreasePrecent => seq!["life_regeneration_rate_+%"@],
        StatBucket::LightningResistancePenetration => seq!["base_reduce_enemy_lightning_resistance_%"@],
        StatBucket::MaceDamageIncreasePrecent => seq!["mace_damage_+%"@],
        StatBucket::MaceHitDamageStunMultiplierIncreasePrecent => seq!["mace_hit_damage_stun_multiplier_+%"@],
        StatBucket::AccuracyRatingIncreaseWithBowPrecent => seq!["bow_accuracy_rating_+%"@],
        StatBucket::BowDamageIncreasePrecent => seq!["bow_damage_+%"@],
        StatBucket::BowAttackSpeedIncreasePrecent => seq!["bow_attack_speed_+%"@],
        StatBucket::ChillDurationIncreasePrecent => seq!["chill_duration_+%"@],
        StatBucket::BlockChanceIncreasePrecent => seq!["block_chance_+%"@],
        StatBucket::ArmourBreakDurationIncreasePrecent => seq!["armour_break_and_sundered_armour_duration_+%"@],
        StatBucket::MinionDamageIncreasePrecent => seq!["minion_damage_+%"@],
        StatBucket::AdditionalBlockIncreasePrecent => seq!["additional_block_%"@],
        StatBucket::FasterBleedDamage => seq!["faster_bleed_%"@],
        StatBucket::AilmentThresholdPercent => seq!["ailment_threshold_+%"@],
        StatBucket::StunThresholdPercent => seq!["stun_threshold_+%"@],
        StatBucket::CharmDurationIncreasePrecent => seq!["charm_duration_+%"@],
        StatBucket::FlaskChargesGainedIncreasePrecent => seq!["flask_charges_gained_+%"@],
        StatBucket::FlaskDurationIncreasePrecent => seq!["flask_duration_+%"@],
        StatBucket::FlaskChargesReducedUsedIncreasePrecent => seq!["flask_charges_used_+%"@],
        StatBucket::CharmChargesGainedIncreasePrecent => seq!["charm_charges_gained_+%"@],
        StatBucket::CharmChargesReducedUsedIncreasePrecent => seq!["charm_charges_used_+%"@],
        StatBucket::IgniteChanceIncreasePrecent => seq!["ignite_chance_+%"@],
        StatBucket::DamageWhileUsingCharmIncreasePrecent => seq!["damage_+%_while_using_charm"@],
        StatBucket::HitDamageFreezeMultiplierIncreasePrecent => seq!["hit_damage_freeze_multiplier_+%"@],
        StatBucket::ShockChanceIncreasePrecent => seq!["shock_chance_+%"@],
        StatBucket::ShockDurationIncreasePrecent => seq!["shock_duration_+%"@],
        StatBucket::BaseProjectileSpeedIncreasePrecent => seq!["base_projectile_speed_+%"@],
        StatBucket::DamageTakenGoesToLifeOver4Seconds => seq!["damage_taken_goes_to_life_over_4_seconds_%"@],
        StatBucket::DamageTakenGoesToMana => seq!["damage_taken_goes_to_mana_%"@],
        StatBucket::ElementalDamageWithAttackSkillsIncreasePrecent => seq!["elemental_damage_with_attack_skills_+%"@],
        StatBucket::NonSkillBaseAllDamageToGainAsFire => seq!["non_skill_base_all_damage_%_to_gain_as_fire"@],
        StatBucket::NonSkillBaseAllDamageToGainAsCold => seq!["non_skill_base_all_damage_%_to_gain_as_cold"@],
        StatBucket::NonSkillBaseAllDamageToGainAsLightning => seq!["non_skill_base_all_damage_%_to_gain_as_lightning"@],
        StatBucket::NonSkillBaseAllDamageToGainAsChaos => seq!["non_skill_base_all_damage_%_to_gain_as_chaos"@],
        StatBucket::DamageWithBowSkillsIncreasePrecent => seq!["damage_+%_with_bow_skills"@],
        StatBucket::PresenceAreaIncreasePrecent => seq!["presence_area_+%"@],
        StatBucket::MinionMaximumLifeIncreasePrecent => seq!["minion_maximum_life_+%"@],
        StatBucket::MinionFireResistance => seq!["minion_elemental_resistance_%"@],
        StatBucket::MinionColdResistance => seq!["minion_elemental_resistance_%"@],
        StatBucket::MinionLightningResistance => seq!["minion_elemental_resistance_%"@],
        StatBucket::MinionChaosResistance => seq!["minion_elemental_resistance_%"@],
        StatBucket::MinionResummonSpeedIncreasePrecent => seq!["minion_resummon_speed_+%"@],
        StatBucket::MinionAdditionalPhysicalDamageReductionIncreasePrecent => seq!["minion_additional_physical_damage_reduction_%"@],
        StatBucket::TrapTriggerRadiusIncreasePrecent => seq!["trap_trigger_radius_+%"@],
        StatBucket::CharmRecoverXLifeWhenUsed => seq!["charm_recover_X_life_when_used"@],
        StatBucket::CharmRecoverXManaWhenUsed => seq!["charm_recover_X_mana_when_used"@],
        StatBucket::CharmGainXGuardForDuration => seq!["charm_gain_X_guard_for_duration"@],
        StatBucket::HitDamageStunMultiplierIncreasePrecent => seq!["hit_damage_stun_multiplier_+%"@],
        StatBucket::ChanceToPoisonOnHitWithAttacks => seq!["chance_to_poison_on_hit_with_attacks_%"@],
        StatBucket::ChanceBleedOnHitWithAttacks => seq!["bleed_on_hit_with_attacks_%"@],
        StatBucket::BaseArrowSpeedIncreasePrecent => seq!["base_arrow_speed_+%"@],
        StatBucket::BaseSlowPotencyPercent => seq!["base_slow_potency_+%"@],
        StatBucket::OfferingDurationIncreasePrecent => seq!["offering_duration_+%"@],
        StatBucket::OfferingLifeIncreasePrecent => seq!["offering_life_+%"@],
        StatBucket::HitDamagePinMultiplierIncreasePrecent => seq!["hit_damage_pin_multiplier_+%"@],
        StatBucket::BaseChanceToPoisonOnHitIncreasePrecent => seq!["base_chance_to_poison_on_hit_%"@],
        StatBucket::BasePoisonEffectIncreasePrecent => seq!["base_poison_effect_+%"@],
        StatBucket::BasePoisonDurationIncreasePrecent => seq!["base_poison_duration_+%"@],
        StatBucket::ProjectileDamageIncreasePrecent => seq!["projectile_damage_+%"@],
        StatBucket::QuarterstaffDamageIncreasePrecent => seq!["quarterstaff_damage_+%"@],
        StatBucket::QuarterstaffHitDamageFreezeMultiplierIncreasePrecent => seq!["quarterstaff_hit_damage_freeze_multiplier_+%"@],
        StatBucket::QuarterstaffAttackSpeedIncreasePrecent => seq!["quarterstaff_attack_speed_+%"@],
        StatBucket::QuiverModEffectIncreasePrecent => seq!["quiver_mod_effect_+%"@],
        StatBucket::SpearAttackSpeedIncreasePrecent => seq!["spear_attack_speed_+%"@],
        StatBucket::SpearCriticalStrikeMultiplierIncreasePrecent => seq!["spear_critical_strike_multiplier_+"@],
        StatBucket::SpearDamageIncreasePrecent => seq!["spear_damage_+%"@],
        StatBucket::StunThresholdFromMaximumEnergyShieldPercent => seq!["stun_threshold_+_from_%_maximum_energy_shield"@],
        StatBucket::AilmentThresholdFromMaximumEnergyShieldPercent => seq!["ailment_threshold_+_from_%_maximum_energy_shield"@],
        StatBucket::StunThresholdWhenNotStunnedRecentlyPercent => seq!["stun_threshold_+%_when_not_stunned_recently"@],
        StatBucket::SwordDamageIncreasePrecent => seq!["sword_damage_+%"@],
        StatBucket::BaseBleedingEffectPercent => seq!["base_bleeding_effect_+%"@],
        StatBucket::SwordAttackSpeedIncreasePrecent => seq!["sword_attack_speed_+%"@],
        StatBucket::ThornsDamageIncreasePrecent => seq!["thorns_damage_+%"@],
        StatBucket::TotemDamageIncreasePrecent => seq!["totem_damage_+%"@],
        StatBucket::TotemLifeIncreasePrecent => seq!["totem_life_+%"@],
        StatBucket::SummonTotemCastSpeedIncreasePrecent => seq!["summon_totem_cast_speed_+%"@],
        StatBucket::StrengthPercent => seq!["strength_+%"@],
        StatBucket::DexterityPercent => seq!["dexterity_+%"@],
        StatBucket::IntelligencePercent => seq!["intelligence_+%"@],
        StatBucket::AilmentThresholdFlat => seq!["ailment_threshold_+"@],
        StatBucket::AllSkillGemLevelIncrease => seq!["all_skill_gem_level_+"@],
        StatBucket::CrossbowReloadInstantChanceIncreasePrecent => seq!["%_chance_for_crossbow_reload_to_be_instant"@],
        StatBucket::TriggeredSpellSpellDamageIncreasePrecent => seq!["triggered_spell_spell_damage_+%"@],
        StatBucket::UnarmedDamageIncreasePrecent => seq!["unarmed_damage_+%"@],
        StatBucket::WarcryBuffEffectIncreasePrecent => seq!["warcry_buff_effect_+%"@],
        StatBucket::WarcryCooldownSpeedIncreasePrecent => seq!["warcry_cooldown_speed_+%"@],
        StatBucket::WarcryDamageIncreasePrecent => seq!["warcry_damage_+%"@],
        StatBucket::WarcrySpeedIncreasePrecent => seq!["warcry_speed_+%"@],
        StatBucket::WeaponSwapSpeedIncreasePrecent => seq!["weapon_swap_speed_+%"@],
        StatBucket::WitheredMagnitudeIncreasePrecent => seq!["withered_magnitude_+%"@],
        StatBucket::UnarmedAttackSpeedIncreasePrecent => seq!["unarmed_attack_speed_+%"@],
        StatBucket::ProjectileDamageIncreasePrecentIfYouveDealtMeleeHitRecently => seq!["projectile_damage_+%_if_youve_dealt_melee_hit_recently"@],
        StatBucket::MeleeDamageIncreasePrecentIfYouveDealtProjectileAttackHitRecently => seq!["melee_damage_+%_if_youve_dealt_projectile_attack_hit_recently"@],
        StatBucket::ParryDamageIncreasePrecent => seq!["parry_damage_+%"@],
        StatBucket::ParrySkillEffectDurationIncreasePrecent => seq!["parry_skill_effect_duration_+%"@],
        StatBucket::ParryStunThresholdIncreasePrecentDuringParry => seq!["parry_stun_threshold_+%_during_parry"@],
        StatBucket::VolatilityOnKillChanceIncreasePrecent => seq!["volatility_on_kill_%_chance"@],
        StatBucket::CompanionDamageIncreasePrecent => seq!["companion_damage_+%"@],
        StatBucket::CompanionMaximumLifeIncreasePrecent => seq!["companion_maximum_life_+%"@],
        StatBucket::HazardDamageIncreasePrecent => seq!["hazard_damage_+%"@],
        StatBucket::ChanceToInflictIncisionOnAttackHitIncreasePrecent => seq!["chance_to_inflict_incision_on_attack_hit_%"@],
        StatBucket::GloryGenerationIncreasePrecentForBanners => seq!["glory_generation_+%_for_banners"@],
        StatBucket::BannerAreaOfEffectIncreasePrecent => seq!["banner_area_of_effect_+%"@],
        StatBucket::BannerDurationIncreasePrecent => seq!["banner_duration_+%"@],
        StatBucket::ApplyDebilitateOnHitWhileEmeraldSapphireSocketed => seq!["apply_debilitate_on_hit_while_emerald_sapphire_socketed"@],
        StatBucket::ApplyBlindOnHitWhileRubySapphireSocketed => seq!["apply_blind_on_hit_while_ruby_sapphire_socketed"@],
        StatBucket::ApplyExposureOnHitWhileRubyEmeraldSocketed => seq!["apply_exposure_on_hit_while_ruby_emerald_socketed"@],
        StatBucket::CannotDie => seq!["cannot_die"@],
        StatBucket::GoldFromEnemiesIncreasePrecent => seq!["gold_+%_from_enemies"@],
        StatBucket::MaxEnduranceCharges => seq!["max_endurance_charges"@],
        StatBucket::MaxFrenzyCharges => seq!["max_frenzy_charges"@],
        StatBucket::MaxPowerCharges => seq!["max_power_charges"@],
        StatBucket::AdditionalMaximumBlockIncreasePrecent => seq!["additional_maximum_block_%"@],
        StatBucket::LifeGainedOnBlock => seq!["life_gained_on_block"@],
        StatBucket::ManaGainedOnBlock => seq!["mana_gained_on_block"@],
        StatBucket::DamageIncreasePrecent => seq!["damage_+%"@],
        StatBucket::SkillSpeedIncreasePrecent => seq!["skill_speed_%"@],
        StatBucket::BaseDebuffSlowMagnitudeIncreasePrecent => seq!["base_debuff_slow_magnitude_+%"@],
        StatBucket::GenerateXChargesForLifeFlasksPerMinute => seq!["generate_x_charges_for_life_flasks_per_minute"@],
        StatBucket::GenerateXChargesForManaFlasksPerMinute => seq!["generate_x_charges_for_mana_flasks_per_minute"@],
        StatBucket::GenerateXChargesForCharmsPerMinute => seq!["generate_x_charges_for_charms_per_minute"@],
        StatBucket::AbyssalWastingEffectIncreasePrecent => seq!["abyssal_wasting_effect_+%"@],
        StatBucket::AddPowerChargeOnCriticalStrikeIncreasePrecent => seq!["add_power_charge_on_critical_strike_%"@],
        StatBucket::AdditionalBaseCriticalStrikeChance => seq!["additional_base_critical_strike_chance"@],
        StatBucket::AdditionalBlockChanceAgainstProjectilesIncreasePrecent => seq!["additional_block_chance_against_projectiles_%"@],
        StatBucket::AdditionalComboGainChanceIncreasePrecent => seq!["additional_combo_gain_chance_%"@],
        StatBucket::AdditionalInfusionGainChanceIncreasePrecent => seq!["additional_infusion_gain_chance_%"@],
        StatBucket::AdditionalMaximumInfusionStacks => seq!["additional_maximum_infusion_stacks"@],
        StatBucket::AdditionalPhysicalDamageReductionIncreasePrecent => seq!["additional_physical_damage_reduction_%_during_flask_effect"@],
        StatBucket::AggravateBleedingOlderThanMsOnHit => seq!["aggravate_bleeding_older_than_ms_on_hit"@],
        StatBucket::GlobalSkillGemQualityPluss => seq!["all_skill_gem_quality_+"@],
        StatBucket::AlliesInPresenceResistAllElementsIncreasePrecent => seq!["allies_in_presence_resist_all_elements_%"@],
        StatBucket::ApplyAnaemiaMagnitudeOnHit => seq!["apply_anaemia_magnitude_on_hit"@],
        StatBucket::ArcaneSurgeEffectOnSelfIncreasePrecent => seq!["arcane_surge_effect_on_self_+%"@],
        StatBucket::ArchonDelayExpiresXPercentFaster => seq!["archon_delay_expires_x%_faster"@],
        StatBucket::ArchonDurationIncreasePrecent => seq!["archon_duration_+%"@],
        StatBucket::ArchonEffectOnYouIncreasePrecent => seq!["archon_effect_on_you_+%"@],
        StatBucket::ArmourBreakEqualToPhysicalDamageDealtOnCriticalStrikeWithSpells => seq!["armour_break_equal_to_%_physical_damage_dealt_on_critical_strike_with_spells"@],
        StatBucket::ArmourBreakPhysicalDamageIncreasePrecent => seq!["armour_break_physical_damage_%_dealt_as_armour_break"@],
        StatBucket::ArrowSpeedAdditiveModifiersAlsoApplyToBowDamage => seq!["arrow_speed_additive_modifiers_also_apply_to_bow_damage"@],
        StatBucket::AttackAddedChaosDamageIncreasePrecent => seq!["attack_added_chaos_damage_%_of_maximum_life"@],
        StatBucket::AttackAddedPhysicalDamageIncreasePrecent => seq!["attack_added_physical_damage_%_of_maximum_life"@],
        StatBucket::AttackAddedColdDamageIncreasePrecent => seq!["attack_added_cold_damage_%_of_maximum_life"@],
        StatBucket::AttackAddedFireDamageIncreasePrecent => seq!["attack_added_fire_damage_%_of_maximum_life"@],
        StatBucket::AttackAddedLightningDamageIncreasePrecent => seq!["attack_added_lightning_damage_%_of_maximum_life"@],
        StatBucket::AttackAndCastSpeedIncreasePrecent => seq!["attack_and_cast_speed_+%"@],
        StatBucket::AttackAndCastSpeedIncreasePrecentDuringFlaskEffect => seq!["attack_and_cast_speed_+%_during_flask_effect"@],
        StatBucket::AttackAreaOfEffectIncreasePrecent => seq!["attack_area_of_effect_+%"@],
        StatBucket::AttackAreaOfEffectIncreasePrecentPer10Int => seq!["attack_area_of_effect_+%_per_10_int"@],
        StatBucket::AttackDamageIncreasePrecentWhenOnLowLife => seq!["attack_damage_+%_when_on_low_life"@],
        StatBucket::ReducedAttackManaCostPrecent => seq!["attack_mana_cost_+%"@],
        StatBucket::AttackMaximumAddedChaosDamage => seq!["attack_maximum_added_chaos_damage"@],
        StatBucket::AttackMinimumAddedChaosDamage => seq!["attack_minimum_added_chaos_damage"@],
        StatBucket::AttackSkillGemLevelIncrease => seq!["attack_skill_gem_level_+"@],
        StatBucket::AttackSkillsHaveAddedLightningDamageEqualToPrecentOfMaximumMana => seq!["attack_skills_have_added_lightning_damage_equal_to_%_of_maximum_mana"@],
        StatBucket::AttackSpeedIncreasePrecentIfNotBeenHitRecently => seq!["attack_speed_+%_if_not_been_hit_recently"@],
        StatBucket::AttackSpeedIncreasePrecentWhenOnFullLife => seq!["attack_speed_+%_when_on_full_life"@],
        StatBucket::AttackSpeedIncreasePrecentWhileInPresenceOfCompanion => seq!["attack_speed_+%_while_in_presence_of_companion"@],
        StatBucket::AttackSpeedIncreasePrecentWhileMissingWard => seq!["attack_speed_+%_while_missing_ward"@],
        StatBucket::AttackNumberOfAdditionalChains => seq!["attacks_num_of_additional_chains"@],
        StatBucket::AvoidAllElementalStatusPrecent => seq!["avoid_all_elemental_status_%"@],
        StatBucket::BaseAllAilmentDurationPrecent => seq!["base_all_ailment_duration_+%"@],
        StatBucket::ReduceBaseAllAilmentDurationOnSelfPrecent => seq!["base_all_ailment_duration_on_self_+%"@],
        StatBucket::BaseAttackSkillCostEfficiencyPrecent => seq!["base_attack_skill_cost_efficiency_+%"@],
        StatBucket::BaseAvoidChillPrecent => seq!["base_avoid_chill_%"@],
        StatBucket::BaseAvoidFreezePrecent => seq!["base_avoid_freeze_%"@],
        StatBucket::BaseAvoidIgnitePrecent => seq!["base_avoid_ignite_%"@],
        StatBucket::BaseAvoidShockPrecent => seq!["base_avoid_shock_%"@],
        StatBucket::BaseAvoidStunPrecent => seq!["base_avoid_stun_%"@],
        StatBucket::BaseBleedChanceIsPoisonChanceInstead => seq!["base_bleed_chance_is_poison_chance_instead"@],
        StatBucket::BaseChanceToShockPrecent => seq!["base_chance_to_shock_%"@],
        StatBucket::BaseDamagingAilmentEffectPrecent => seq!["base_damaging_ailment_effect_+%"@],
        StatBucket::BaseElementalStatusAilmentDurationPrecent => seq!["base_elemental_status_ailment_duration_+%"@],
        StatBucket::BaseEnemyCriticalStrikeChancePrecent => seq!["base_enemy_critical_strike_chance_+%_against_self"@],
        StatBucket::BaseLifeCostEfficiencyPrecent => seq!["base_life_cost_efficiency_+%"@],
        StatBucket::BaseLifeLeechDoesNotStopAtFullLife => seq!["base_life_leech_does_not_stop_at_full_life"@],
        StatBucket::BaseLifeLeechRatePrecent => seq!["base_life_leech_rate_+%"@],
        StatBucket::BaseManaCostPrecent => seq!["base_mana_cost_+_with_non_channelling_skills"@],
        StatBucket::BaseManaCostEfficiencyPrecent => seq!["base_mana_cost_efficiency_+%"@],
        StatBucket::BaseManaLeechRatePrecent => seq!["base_mana_leech_rate_+%"@],
        StatBucket::BaseManaReservationEfficiencyPrecent => seq!["base_mana_reservation_efficiency_+%"@],
        StatBucket::BaseMaximumSealsForSkill => seq!["base_maximum_seals_for_skill"@],
        StatBucket::BaseMinionDurationPrecent => seq!["base_minion_duration_+%"@],
        StatBucket::BaseNumberOfEssenceSpiritsAllowed => seq!["base_number_of_essence_spirits_allowed"@],
        StatBucket::BaseOnlsaughtOnHitPrecent => seq!["base_onlsaught_on_hit_%_chance"@],
        StatBucket::BasePoisonChanceIsBleedChanceInstead => seq!["base_poison_chance_is_bleed_chance_instead"@],
        StatBucket::BaseRageCostEfficiencyPrecent => seq!["base_rage_cost_efficiency_+%"@],
        StatBucket::BaseReservationEfficiencyPrecent => seq!["base_reservation_efficiency_+%"@],
        StatBucket::BaseSkillCostEfficiencyPrecent => seq!["base_skill_cost_efficiency_+%"@],
        StatBucket::BaseSpellCooldownSpeedPrecent => seq!["base_spell_cooldown_speed_+%"@],
        StatBucket::BaseSpellManaCostEfficiencyPrecent => seq!["base_spell_mana_cost_efficiency_+%"@],
        StatBucket::BaseSpiritReservationEfficiencyPrecent => seq!["base_spirit_reservation_efficiency_+%"@],
        StatBucket::BaseThornsCriticalStrikeChance => seq!["base_thorns_critical_strike_chance"@],
        StatBucket::BaseUnholyMightGrantedMagnitudePrecent => seq!["base_unholy_might_granted_magnitude_+%"@],
        StatBucket::BellHitLimit => seq!["bell_hit_limit"@],
        StatBucket::BleedChancePrecent => seq!["bleed_chance_+%"@],
        StatBucket::BlockDamageTakenWhileActiveBlockingPrecent => seq!["block_%_damage_taken_while_active_blocking"@],
        StatBucket::BodyArmourPrecent => seq!["body_armour_+%"@],
        StatBucket::BodyArmourEvasionRatingPrecent => seq!["body_armour_evasion_rating_+%"@],
        StatBucket::BrokenArmourAndSunderedArmourDebuffEffectPrecent => seq!["broken_armour_and_sundered_armour_debuff_effect_+%"@],
        StatBucket::CannotBeInflictedByCorruptedBlood => seq!["cannot_be_inflicted_by_corrupted_blood"@],
        StatBucket::CannotBePoisoned => seq!["cannot_be_poisoned"@],
        StatBucket::CastSpeedPrecentDuringManaFlaskEffect => seq!["cast_speed_+%_during_mana_flask_effect"@],
        StatBucket::CastSpeedPrecentPerNumUniqueSpellsCastRecently => seq!["cast_speed_+%_per_num_unique_spells_cast_recently"@],
        StatBucket::CastSpeedPrecentWhenOnFullLife => seq!["cast_speed_+%_when_on_full_life"@],
        StatBucket::CastSpeedPrecentWhenOnLowLife => seq!["cast_speed_+%_when_on_low_life"@],
        StatBucket::CastSpeedPrecentWhileOnFullMana => seq!["cast_speed_+%_while_on_full_mana"@],
        StatBucket::ChanceToGainArchonOfNatureOnOvergrowingPlantPrecent => seq!["chance_%_to_gain_archon_of_nature_on_overgrowing_plant"@],
        StatBucket::ChanceToGainArchonOfUndeathWhenYouCreateAnOfferingPrecent => seq!["chance_%_to_gain_archon_of_undeath_when_you_create_an_offering"@],
        StatBucket::ChanceToCrushOnHitPrecent => seq!["chance_to_crush_on_hit_%"@],
        StatBucket::ChanceToFire1AdditionalProjectileWithRolloverPrecent => seq!["chance_to_fire_1_additional_projectile_%_with_rollover"@],
        StatBucket::ChanceToGainPowerChargeOnStunPrecent => seq!["chance_to_gain_power_charge_on_stun_%"@],
        StatBucket::ChanceToNotConsumeInfusionPrecentIfLostArchonInPast6Seconds => seq!["chance_to_not_consume_infusion_%_if_lost_archon_in_past_6_seconds"@],
        StatBucket::ChanceToRetain40PrecentOfGloryOnUsePrecent => seq!["chance_to_retain_40%_of_glory_on_use_%"@],
        StatBucket::ChaosDamageResistancePrecentPerPoisonStack => seq!["chaos_damage_resistance_%_per_poison_stack"@],
        StatBucket::ChaosDamageTakenOverTimePrecent => seq!["chaos_damage_taken_over_time_+%"@],
        StatBucket::ChaosDotMultiplierPrecent => seq!["chaos_dot_multiplier_+"@],
        StatBucket::ChaosResistancePrecentWhileUsingFlask => seq!["chaos_resistance_+_while_using_flask"@],
        StatBucket::ChargeSkipConsumeChancePrecent => seq!["charge_skip_consume_chance_%"@],
        StatBucket::CharmsPrecentChanceToNotConsumeCharges => seq!["charms_%_chance_to_not_consume_charges"@],
        StatBucket::ColdDamagePrecentColdInfusionCollectedLast8Seconds => seq!["cold_damage_+%_cold_infusion_collected_last_8_seconds"@],
        StatBucket::ColdDamageTakenPrecentGoesToLifeOver4Seconds => seq!["cold_damage_taken_goes_to_life_over_4_seconds_%"@],
        StatBucket::ColdDotMultiplierPrecent => seq!["cold_dot_multiplier_+"@],
        StatBucket::CompanionAttackSpeedPrecent => seq!["companion_attack_speed_+%"@],
        StatBucket::CreatedRemnantsPrecentChanceToDuplicatePickUpResults => seq!["created_remnants_have_%_chance_to_duplicate_pick_up_results"@],
        StatBucket::CriticalHitDamageBonusPrecentVsEnemiesWithin2mDistance => seq!["critical_hit_damage_bonus_+%_vs_enemies_within_2m_distance"@],
        StatBucket::CriticalStrikeChancePrecentVsEnemiesFurtherThan6mDistance => seq!["critical_strike_chance_+%_vs_enemies_further_than_6m_distance"@],
        StatBucket::CriticalStrikeChancePrecentVsMarkedEnemies => seq!["critical_strike_chance_+%_vs_marked_enemies"@],
        StatBucket::CurseEffectOnSelfPrecent => seq!["curse_effect_on_self_+%"@],
        StatBucket::DamagePrecentAgainstEnemiesMarkedByYou => seq!["damage_+%_against_enemies_marked_by_you"@],
        StatBucket::DamagePrecentPerPoisonUpTo75 => seq!["damage_+%_per_poison_up_to_75%"@],
        StatBucket::DamagePrecentVsImmobilisedEnemies => seq!["damage_+%_vs_immobilised_enemies"@],
        StatBucket::DamagePrecentWhileInPresenceOfCompanion => seq!["damage_+%_while_in_presence_of_companion"@],
        StatBucket::DamagePrecentWhileLeeching => seq!["damage_+%_while_leeching"@],
        StatBucket::DamagePrecentWhileTotemActive => seq!["damage_+%_while_totem_active"@],
        StatBucket::DamageRemovedFromSpectresBeforeLifeOrEsPrecent => seq!["damage_removed_from_spectres_before_life_or_es_%"@],
        StatBucket::DamageTakenGoesToLifeManaEsOver4SecondsPrecent => seq!["damage_taken_goes_to_life_mana_es_over_4_seconds_%"@],
        StatBucket::DamageVsCursedEnemiesPerEnemyCursePrecent => seq!["damage_vs_cursed_enemies_per_enemy_curse_+%"@],
        StatBucket::Deal1000ChaosDamagePerSecondFor10SecondsOnHit => seq!["deal_1000_chaos_damage_per_second_for_10_seconds_on_hit"@],
        StatBucket::DeflectedHitDamageTakenPrecentRecoupedAsLife => seq!["deflected_hit_damage_taken_%_recouped_as_life"@],
        StatBucket::DeflectionRatingPrecent => seq!["deflection_rating_+%"@],
        StatBucket::DexterityAndIntelligencePrecent => seq!["dexterity_and_intelligence_+%"@],
        StatBucket::DodgeRollBaseTravelDistance => seq!["dodge_roll_base_travel_distance"@],
        StatBucket::DummyStatDisplayNothing => seq!["dummy_stat_display_nothing"@],
        StatBucket::ElementalAilmentTypesApplyDamageTakenPrecent => seq!["elemental_ailment_types_apply_damage_taken_+%"@],
        StatBucket::ElementalPenetrationPrecentDuringFlaskEffect => seq!["elemental_penetration_%_during_flask_effect"@],
        StatBucket::ElementalSkillLimitPrecent => seq!["elemental_skill_limit_+"@],
        StatBucket::EnemiesChaosResistancePrecentWhileCursed => seq!["enemies_chaos_resistance_%_while_cursed"@],
        StatBucket::EnemiesChanceExplodeOnKill => seq!["enemies_explode_on_kill"@],
        StatBucket::EnergyShieldRechargeRatePrecentIfBlockedRecently => seq!["energy_shield_recharge_rate_+%_if_blocked_recently"@],
        StatBucket::EssenceAbyssGuaranteedPick => seq!["essence_abyss_guaranteed_pick"@],
        StatBucket::EssenceBuffElementalDamageTakenPrecent => seq!["essence_buff_elemental_damage_taken_+%"@],
        StatBucket::EssenceDisplayElementalDamageTakenWhileNotMovingPrecent => seq!["essence_display_elemental_damage_taken_while_not_moving_+%"@],
        StatBucket::EvasionRatingPrecent => seq!["evasion_rating_+%"@],
        StatBucket::EvasionRatingPrecentWhileLeeching => seq!["evasion_rating_+%_while_leeching"@],
        StatBucket::ExplodeBurningEnemiesFor10LifeAsFireOnKillChancePrecent => seq!["explode_burning_enemies_for_10%_life_as_fire_on_kill_chance_%"@],
        StatBucket::ExplodeEnemiesFor10LifeAsPhysicalOnKillChancePrecent => seq!["explode_enemies_for_10%_life_as_physical_on_kill_chance_%"@],
        StatBucket::ExplodeEnemiesFor25LifeAsChaosOnKillChancePrecent => seq!["explode_enemies_for_25%_life_as_chaos_on_kill_chance_%"@],
        StatBucket::ExposureEffectPrecent => seq!["exposure_effect_+%"@],
        StatBucket::FireDamagePrecentIfFireInfusionCollectedLast8Seconds => seq!["fire_damage_+%_if_fire_infusion_collected_last_8_seconds"@],
        StatBucket::FireDamageTakenGoesToLifeOver4SecondsPrecent => seq!["fire_damage_taken_goes_to_life_over_4_seconds_%"@],
        StatBucket::FireDotMultiplierPrecent => seq!["fire_dot_multiplier_+"@],
        StatBucket::FireSpellAdditionalCriticalStrikeChancePerMyriad => seq!["fire_spell_additional_critical_strike_chance_permyriad"@],
        StatBucket::FishQuantityPrecent => seq!["fish_quantity_+%"@],
        StatBucket::FishRarityPrecent => seq!["fish_rarity_+%"@],
        StatBucket::FishingHookType => seq!["fishing_hook_type"@],
        StatBucket::FishingLineStrengthPrecent => seq!["fishing_line_strength_+%"@],
        StatBucket::FishingLureType => seq!["fishing_lure_type"@],
        StatBucket::FishingPoolConsumptionPrecent => seq!["fishing_pool_consumption_+%"@],
        StatBucket::FishingRangePrecent => seq!["fishing_range_+%"@],
        StatBucket::FlasksPrecentChanceToNotConsumeCharges => seq!["flasks_%_chance_to_not_consume_charges"@],
        StatBucket::FullyBreakEnemiesArmourOnHeavyStunWithShieldSkills => seq!["fully_break_enemies_armour_on_heavy_stun_with_shield_skills"@],
        StatBucket::GainAlchemistsGeniusOnFlaskUsePrecent => seq!["gain_alchemists_genius_on_flask_use_%"@],
        StatBucket::GainArcaneSurgeOnCritPrecent => seq!["gain_arcane_surge_on_crit_%_chance"@],
        StatBucket::GainOnslaughtFor3SecondsPrecent => seq!["gain_onslaught_for_3_seconds_%_chance_when_hit"@],
        StatBucket::GlobalArmourEvasionEnergyShieldPrecent => seq!["global_armour_evasion_energy_shield_+%"@],
        StatBucket::GlobalItemAttributeReducedRequirementsPrecent => seq!["global_item_attribute_requirements_+%"@],
        StatBucket::GloryGenerationPrecent => seq!["glory_generation_+%"@],
        StatBucket::GrenadeSkillPrecentChanceToExplodeTwice => seq!["grenade_skill_%_chance_to_explode_twice"@],
        StatBucket::GrenadeSkillDamagePrecent => seq!["grenade_skill_damage_+%"@],
        StatBucket::GrenadeSkillDurationPrecent => seq!["grenade_skill_duration_+%"@],
        StatBucket::HandWrapsAttackDamagePrecentFinalOnLowMana => seq!["hand_wraps_attack_damage_+%_final_on_low_mana"@],
        StatBucket::HandWrapsDamageTakenPrecentFinalOnLowLife => seq!["hand_wraps_damage_taken_+%_final_on_low_life"@],
        StatBucket::HandWrapsMoreGlobalEvasionEnergyShield => seq!["hand_wraps_evasion_rating_and_energy_shield_+%_final"@],
        StatBucket::GrantsGraveCommandSkill => seq!["has_grave_command"@],
        StatBucket::HaveUnholyMight => seq!["have_unholy_might"@],
        StatBucket::HeavyStunPoiseDecayRatePrecent => seq!["heavy_stun_poise_decay_rate_+%"@],
        StatBucket::HinderEnemyChaosDamageTakenPrecent => seq!["hinder_enemy_chaos_damage_taken_+%"@],
        StatBucket::HinderEnemyElementalDamageTakenPrecent => seq!["hinder_enemy_elemental_damage_taken_+%"@],
        StatBucket::HinderEnemyPhysicalDamageTakenPrecent => seq!["hinder_enemy_physical_damage_taken_+%"@],
        StatBucket::HitDamageFreezeMultiplierPrecentIfConsumedPowerChargeRecently => seq!["hit_damage_freeze_multiplier_+%_if_consumed_power_charge_recently"@],
        StatBucket::HitDamageImmobilisationMultiplierPrecent => seq!["hit_damage_immobilisation_multiplier_+%"@],
        StatBucket::IgniteEffectPrecentIfConsumedEnduranceChargeRecently => seq!["ignite_effect_+%_if_consumed_endurance_charge_recently"@],
        StatBucket::InvocationSkillMaximumEnergyPrecent => seq!["invocation_skill_maximum_energy_+%"@],
        StatBucket::InvocationSpellChanceToCostHalfEnergyPrecent => seq!["invocation_spell_chance_to_cost_half_energy_%"@],
        StatBucket::InvocationSpellDamagePrecent => seq!["invocation_spell_damage_+%"@],
        StatBucket::LeechPrecentIsInstant => seq!["leech_%_is_instant"@],
        StatBucket::LifeGainedOnAttackHitIfCritRecently => seq!["life_gained_on_attack_hit_if_crit_recently"@],
        StatBucket::LifeGainedOnAttackHitVsCursedEnemies => seq!["life_gained_on_attack_hit_vs_cursed_enemies"@],
        StatBucket::LifeLeechCanOvercapLife => seq!["life_leech_can_overcap_life"@],
        StatBucket::LifeRegenerationPerMinutePrecentWhileFrozen => seq!["life_regeneration_per_minute_%_while_frozen"@],
        StatBucket::LifeRegenerationRatePrecentWhileMoving => seq!["life_regeneration_rate_+%_while_moving"@],
        StatBucket::LifeRegenerationRatePrecentWhileUsingLifeFlask => seq!["life_regeneration_rate_+%_while_using_life_flask"@],
        StatBucket::LightningDamagePrecentIfLightningInfusionCollectedLast8Seconds => seq!["lightning_damage_+%_if_lightning_infusion_collected_last_8_seconds"@],
        StatBucket::LightningDamageCanIgnite => seq!["lightning_damage_can_ignite"@],
        StatBucket::LightningDamageTakenGoesToLifeOver4SecondsPrecent => seq!["lightning_damage_taken_goes_to_life_over_4_seconds_%"@],
        StatBucket::ManaPrecentGainedOnBlock => seq!["mana_%_gained_on_block"@],
        StatBucket::ManaPrecentToGainAsArmour => seq!["mana_%_to_gain_as_armour"@],
        StatBucket::ManaCostEfficiencyPrecentIfDodgeRolledRecently => seq!["mana_cost_efficiency_+%_if_dodge_rolled_recently"@],
        StatBucket::ManaGainedOnAttackHitVsCursedEnemies => seq!["mana_gained_on_attack_hit_vs_cursed_enemies"@],
        StatBucket::ManaRegenerationRatePrecentWhileShocked => seq!["mana_regeneration_rate_+%_while_shocked"@],
        StatBucket::ManaRegenerationRatePrecentWhileStationary => seq!["mana_regeneration_rate_+%_while_stationary"@],
        StatBucket::ManaReservationEfficiencyPrecentPer1 => seq!["mana_reservation_efficiency_-2%_per_1"@],
        StatBucket::MarkSkillGemLevels => seq!["mark_skill_gem_level_+"@],
        StatBucket::MarkedEnemyTakesIncreasedDamage => seq!["marked_enemy_damage_taken_+%"@],
        StatBucket::MaxFortificationPer5 => seq!["max_fortification_+1_per_5"@],
        StatBucket::MaxPuppetMasterStacksPer5 => seq!["max_puppet_master_stacks_+"@],
        StatBucket::MaximumAddedColdDamagePerFrenzyCharge => seq!["maximum_added_cold_damage_per_frenzy_charge"@],
        StatBucket::MaximumAddedFireDamageIfBlockedRecently => seq!["maximum_added_fire_damage_if_blocked_recently"@],
        StatBucket::MaximumEnergyShieldFromBodyArmourPrecent => seq!["maximum_energy_shield_from_body_armour_+%"@],
        StatBucket::MaximumWardPrecent => seq!["maximum_ward_+%"@],
        StatBucket::MeleeAttackSkillsAdditionalTotemsAllowed => seq!["melee_attack_skills_additional_totems_allowed"@],
        StatBucket::MeleeAttacksNumberOfAdditionalProjectiles => seq!["melee_attacks_number_of_additional_projectiles"@],
        StatBucket::MinimumAddedColdDamagePerFrenzyCharge => seq!["minimum_added_cold_damage_per_frenzy_charge"@],
        StatBucket::MinimumAddedFireDamageIfBlockedRecently => seq!["minimum_added_fire_damage_if_blocked_recently"@],
        StatBucket::MinionAreaOfEffectPrecent => seq!["minion_area_of_effect_+%"@],
        StatBucket::MinionArmourBreakPhysicalDamagePrecent => seq!["minion_armour_break_physical_damage_%_dealt_as_armour_break"@],
        StatBucket::MinionBaseDamagingAilmentEffectPrecent => seq!["minion_base_damaging_ailment_effect_+%"@],
        StatBucket::MinionChanceToFire1AdditionalProjectilePrecent => seq!["minion_chance_to_fire_1_additional_projectile_%_with_rollover"@],
    }
}


proof fn lemma_rows_listed_0()
    ensures
        forall|i: int, j: int|
            0 <= i < 50 && 0 <= j < bucket_table_buckets(i).len() ==> #[trigger] stats_feeding(
                bucket_table_buckets(i)[j],
            ).contains(bucket_table_name(i)),
{
    assert forall|i: int, j: int| 0 <= i < 50 && 0 <= j < bucket_table_buckets(i).len() implies #[trigger] stats_feeding(
        bucket_table_buckets(i)[j],
    ).contains(bucket_table_name(i)) by {
        if i == 0 {
            assert(stats_feeding(StatBucket::StrengthPercent)[0] == bucket_table_name(0));
        } else if i == 1 {
            assert(stats_feeding(StatBucket::DexterityPercent)[0] == bucket_table_name(1));
        } else if i == 2 {
            assert(stats_feeding(StatBucket::IntelligencePercent)[0] == bucket_table_name(2));
        } else if i == 3 {
            assert(stats_feeding(StatBucket::Life)[0] == bucket_table_name(3));
        } else if i == 4 {
            assert(stats_feeding(StatBucket::Ward)[0] == bucket_table_name(4));
        } else if i == 5 {
            assert(stats_feeding(StatBucket::LifePercent)[0] == bucket_table_name(5));
        } else if i == 6 {
            assert(stats_feeding(StatBucket::Mana)[0] == bucket_table_name(6));
        } else if i == 7 {
            assert(stats_feeding(StatBucket::ManaPercent)[0] == bucket_table_name(7));
        } else if i == 8 {
            assert(stats_feeding(StatBucket::ChaosDamagePercent)[0] == bucket_table_name(8));
        } else if i == 9 {
            assert(stats_feeding(StatBucket::Strength)[0] == bucket_table_name(9));
        } else if i == 10 {
            assert(stats_feeding(StatBucket::Dexterity)[0] == bucket_table_name(10));
        } else if i == 11 {
            assert(stats_feeding(StatBucket::Intelligence)[0] == bucket_table_name(11));
        } else if i == 12 {
            if j == 0 {
                assert(stats_feeding(StatBucket::Strength)[1] == bucket_table_name(12));
            } else if j == 1 {
                assert(stats_feeding(StatBucket::Intelligence)[1] == bucket_table_name(12));
            }
        } else if i == 13 {
            if j == 0 {
                assert(stats_feeding(StatBucket::Strength)[2] == bucket_table_name(13));
            } else if j == 1 {
                assert(stats_feeding(StatBucket::Dexterity)[1] == bucket_table_name(13));
            }
        } else if i == 14 {
            if j == 0 {
                assert(stats_feeding(StatBucket::Strength)[3] == bucket_table_name(14));
            } else if j == 1 {
                assert(stats_feeding(StatBucket::Dexterity)[2] == bucket_table_name(14));
            } else if j == 2 {
                assert(stats_feeding(StatBucket::Intelligence)[2] == bucket_table_name(14));
            }
        } else if i == 15 {
            assert(stats_feeding(StatBucket::FireResistance)[0] == bucket_table_name(15));
        } else if i == 16 {
            assert(stats_feeding(StatBucket::ColdResistance)[0] == bucket_table_name(16));
        } else if i == 17 {
            assert(stats_feeding(StatBucket::LightningResistance)[0] == bucket_table_name(17));
        } else if i == 18 {
            assert(stats_feeding(StatBucket::ChaosResistance)[0] == bucket_table_name(18));
        } else if i == 19 {
            if j == 0 {
                assert(stats_feeding(StatBucket::FireResistance)[1] == bucket_table_name(19));
            } else if j == 1 {
                assert(stats_feeding(StatBucket::ColdResistance)[1] == bucket_table_name(19));
            } else if j == 2 {
                assert(stats_feeding(StatBucket::LightningResistance)[1] == bucket_table_name(19));
            } else if j == 3 {
                assert(stats_feeding(StatBucket::ChaosResistance)[1] == bucket_table_name(19));
            }
        } else if i == 20 {
            assert(stats_feeding(StatBucket::Armour)[0] == bucket_table_name(20));
        } else if i == 21 {
            assert(stats_feeding(StatBucket::Evasion)[0] == bucket_table_name(21));
        } else if i == 22 {
            assert(stats_feeding(StatBucket::EnergyShield)[0] == bucket_table_name(22));
        } else if i == 23 {
            assert(stats_feeding(StatBucket::ArmourPercent)[0] == bucket_table_name(23));
        } else if i == 24 {
            assert(stats_feeding(StatBucket::MaximumEnergyShieldPercent)[0] == bucket_table_name(24));
        } else if i == 25 {
            assert(stats_feeding(StatBucket::StunThreshold)[0] == bucket_table_name(25));
        } else if i == 26 {
            assert(stats_feeding(StatBucket::MovementSpeedPercent)[0] == bucket_table_name(26));
        } else if i == 27 {
            assert(stats_feeding(StatBucket::ThornsPhysicalMin)[0] == bucket_table_name(27));
        } else if i == 28 {
            assert(stats_feeding(StatBucket::ThornsPhysicalMax)[0] == bucket_table_name(28));
        } else if i == 29 {
            assert(stats_feeding(StatBucket::GlobalAttackPhysicalMin)[0] == bucket_table_name(29));
        } else if i == 30 {
            assert(stats_feeding(StatBucket::GlobalAttackPhysicalMax)[0] == bucket_table_name(30));
        } else if i == 31 {
            assert(stats_feeding(StatBucket::GlobalAttackFireMin)[0] == bucket_table_name(31));
        } else if i == 32 {
            assert(stats_feeding(StatBucket::GlobalAttackFireMax)[0] == bucket_table_name(32));
        } else if i == 33 {
            assert(stats_feeding(StatBucket::GlobalAttackColdMin)[0] == bucket_table_name(33));
        } else if i == 34 {
            assert(stats_feeding(StatBucket::GlobalAttackColdMax)[0] == bucket_table_name(34));
        } else if i == 35 {
            assert(stats_feeding(StatBucket::GlobalAttackLightningMin)[0] == bucket_table_name(35));
        } else if i == 36 {
            assert(stats_feeding(StatBucket::GlobalAttackLightningMax)[0] == bucket_table_name(36));
        } else if i == 37 {
            assert(stats_feeding(StatBucket::AttackDamageIncreasePrecent)[0] == bucket_table_name(37));
        } else if i == 38 {
            assert(stats_feeding(StatBucket::AlliesInPresenceAttackPhysicalMin)[0] == bucket_table_name(38));
        } else if i == 39 {
            assert(stats_feeding(StatBucket::AlliesInPresenceAttackPhysicalMax)[0] == bucket_table_name(39));
        } else if i == 40 {
            assert(stats_feeding(StatBucket::AlliesInPresenceAttackFireMin)[0] == bucket_table_name(40));
        } else if i == 41 {
            assert(stats_feeding(StatBucket::AlliesInPresenceAttackFireMax)[0] == bucket_table_name(41));
        } else if i == 42 {
            assert(stats_feeding(StatBucket::AlliesInPresenceAttackColdMin)[0] == bucket_table_name(42));
        } else if i == 43 {
            assert(stats_feeding(StatBucket::AlliesInPresenceAttackColdMax)[0] == bucket_table_name(43));
        } else if i == 44 {
            assert(stats_feeding(StatBucket::AlliesInPresenceAttackLightningMin)[0] == bucket_table_name(44));
        } else if i == 45 {
            assert(stats_feeding(StatBucket::AlliesInPresenceAttackLightningMax)[0] == bucket_table_name(45));
        } else if i == 46 {
            assert(stats_feeding(StatBucket::AlliesInPresenceAttackChaosMin)[0] == bucket_table_name(46));
        } else if i == 47 {
            assert(stats_feeding(StatBucket::AlliesInPresenceAttackChaosMax)[0] == bucket_table_name(47));
        } else if i == 48 {
            assert(stats_feeding(StatBucket::AlliesInPresenceDamageIncreasePrecent)[0] == bucket_table_name(48));
        } else if i == 49 {
            assert(stats_feeding(StatBucket::AlliesInPresenceAttackSpeedIncreasePrecent)[0] == bucket_table_name(49));
        }
    }
}

proof fn lemma_rows_listed_50()
    ensures
        forall|i: int, j: int|
            50 <= i < 100 && 0 <= j < bucket_table_buckets(i).len() ==> #[trigger] stats_feeding(
                bucket_table_buckets(i)[j],
            ).contains(bucket_table_name(i)),
{
    assert forall|i: int, j: int| 50 <= i < 100 && 0 <= j < bucket_table_buckets(i).len() implies #[trigger] stats_feeding(
        bucket_table_buckets(i)[j],
    ).contains(bucket_table_name(i)) by {
        if i == 50 {
            assert(stats_feeding(StatBucket::AlliesInPresenceAccuracyRating)[0] == bucket_table_name(50));
        } else if i == 51 {
            assert(stats_feeding(StatBucket::AccuracyRating)[0] == bucket_table_name(51));
        } else if i == 52 {
            assert(stats_feeding(StatBucket::AccuracyRating)[1] == bucket_table_name(52));
        } else if i == 53 {
            assert(stats_feeding(StatBucket::AccuracyRatingPercent)[0] == bucket_table_name(53));
        } else if i == 54 {
            assert(stats_feeding(StatBucket::ChanceToNotConsumeExertedAttack)[0] == bucket_table_name(54));
        } else if i == 55 {
            assert(stats_feeding(StatBucket::SpellDamageIncreasePrecent)[0] == bucket_table_name(55));
        } else if i == 56 {
            assert(stats_feeding(StatBucket::FireDamageIncreasePrecent)[0] == bucket_table_name(56));
        } else if i == 57 {
            assert(stats_feeding(StatBucket::ColdDamageIncreasePrecent)[0] == bucket_table_name(57));
        } else if i == 58 {
            assert(stats_feeding(StatBucket::LightningDamageIncreasePrecent)[0] == bucket_table_name(58));
        } else if i == 59 {
            assert(stats_feeding(StatBucket::ChaosDamageIncreasePrecent)[0] == bucket_table_name(59));
        } else if i == 60 {
            assert(stats_feeding(StatBucket::PhysicalDamageIncreasePrecent)[0] == bucket_table_name(60));
        } else if i == 61 {
            assert(stats_feeding(StatBucket::SpellPhysicalDamageIncreasePrecent)[0] == bucket_table_name(61));
        } else if i == 62 {
            assert(stats_feeding(StatBucket::TrapDamageIncreasePrecent)[0] == bucket_table_name(62));
        } else if i == 63 {
            assert(stats_feeding(StatBucket::SpellSkillGemLevelIncrease)[0] == bucket_table_name(63));
        } else if i == 64 {
            assert(stats_feeding(StatBucket::FireSpellSkillGemLevelIncrease)[0] == bucket_table_name(64));
        } else if i == 65 {
            assert(stats_feeding(StatBucket::ColdSpellSkillGemLevelIncrease)[0] == bucket_table_name(65));
        } else if i == 66 {
            assert(stats_feeding(StatBucket::LightningSpellSkillGemLevelIncrease)[0] == bucket_table_name(66));
        } else if i == 67 {
            assert(stats_feeding(StatBucket::ChaosSpellSkillGemLevelIncrease)[0] == bucket_table_name(67));
        } else if i == 68 {
            assert(stats_feeding(StatBucket::PhysicalSpellSkillGemLevelIncrease)[0] == bucket_table_name(68));
        } else if i == 69 {
            assert(stats_feeding(StatBucket::MinionSkillGemLevelIncrease)[0] == bucket_table_name(69));
        } else if i == 70 {
            assert(stats_feeding(StatBucket::TrapSkillGemLevelIncrease)[0] == bucket_table_name(70));
        } else if i == 71 {
            assert(stats_feeding(StatBucket::MeleeSkillGemLevelIncrease)[0] == bucket_table_name(71));
        } else if i == 72 {
            assert(stats_feeding(StatBucket::ProjectileSkillGemLevelIncrease)[0] == bucket_table_name(72));
        } else if i == 73 {
            assert(stats_feeding(StatBucket::LiferRegenPerMinute)[0] == bucket_table_name(73));
        } else if i == 74 {
            assert(stats_feeding(StatBucket::LifeRegenPerMinutePercent)[0] == bucket_table_name(74));
        } else if i == 75 {
            assert(stats_feeding(StatBucket::AlliesInPresenceLifeRegenPerMinute)[0] == bucket_table_name(75));
        } else if i == 76 {
            assert(stats_feeding(StatBucket::ManaRegenerationRatePercent)[0] == bucket_table_name(76));
        } else if i == 77 {
            assert(stats_feeding(StatBucket::BaseLifeLeechFromPhysicalAttackDamage)[0] == bucket_table_name(77));
        } else if i == 78 {
            assert(stats_feeding(StatBucket::BaseManaLeechFromPhysicalAttackDamage)[0] == bucket_table_name(78));
        } else if i == 79 {
            assert(stats_feeding(StatBucket::BaseLifeGainedOnEnemyDeath)[0] == bucket_table_name(79));
        } else if i == 80 {
            assert(stats_feeding(StatBucket::BaseManaGainedOnEnemyDeath)[0] == bucket_table_name(80));
        } else if i == 81 {
            assert(stats_feeding(StatBucket::BaseLifeGainedOnEnemyHit)[0] == bucket_table_name(81));
        } else if i == 82 {
            assert(stats_feeding(StatBucket::BaseManaGainedOnEnemyHit)[0] == bucket_table_name(82));
        } else if i == 83 {
            assert(stats_feeding(StatBucket::AttackSpeedPercent)[0] == bucket_table_name(83));
        } else if i == 84 {
            assert(stats_feeding(StatBucket::BaseCastSpeedIncreasePrecent)[0] == bucket_table_name(84));
        } else if i == 85 {
            assert(stats_feeding(StatBucket::AlliesInPresenceCastSpeedIncreasePrecent)[0] == bucket_table_name(85));
        } else if i == 86 {
            assert(stats_feeding(StatBucket::TrapThrowingSpeedIncreasePrecent)[0] == bucket_table_name(86));
        } else if i == 87 {
            assert(stats_feeding(StatBucket::CriticalStrikeChanceIncreasePrecent)[0] == bucket_table_name(87));
        } else if i == 88 {
            assert(stats_feeding(StatBucket::SpellCriticalStrikeChanceIncreasePrecent)[0] == bucket_table_name(88));
        } else if i == 89 {
            assert(stats_feeding(StatBucket::AttackCriticalStrikeChanceIncreasePrecent)[0] == bucket_table_name(89));
        } else if i == 90 {
            assert(stats_feeding(StatBucket::TrapCriticalStrikeChanceIncreasePrecent)[0] == bucket_table_name(90));
        } else if i == 91 {
            assert(stats_feeding(StatBucket::AlliesInPresenceCriticalStrikeChanceIncreasePrecent)[0] == bucket_table_name(91));
        } else if i == 92 {
            assert(stats_feeding(StatBucket::BaseCriticalStrikeMultiplierIncreasePrecent)[0] == bucket_table_name(92));
        } else if i == 93 {
            assert(stats_feeding(StatBucket::BaseSpellCriticalStrikeMultiplierIncreasePrecent)[0] == bucket_table_name(93));
        } else if i == 94 {
            assert(stats_feeding(StatBucket::AttackCriticalStrikeMultiplierIncrease)[0] == bucket_table_name(94));
        } else if i == 95 {
            assert(stats_feeding(StatBucket::TrapCriticalStrikeMultiplierIncrease)[0] == bucket_table_name(95));
        } else if i == 96 {
            assert(stats_feeding(StatBucket::AlliesInPresenceCriticalStrikeMultiplierIncrease)[0] == bucket_table_name(96));
        } else if i == 97 {
            assert(stats_feeding(StatBucket::BaseItemFoundRarityIncreasePrecent)[0] == bucket_table_name(97));
        } else if i == 98 {
            assert(stats_feeding(StatBucket::LightRadiusIncreasePrecent)[0] == bucket_table_name(98));
        } else if i == 99 {
            assert(stats_feeding(StatBucket::Spirit)[0] == bucket_table_name(99));
        }
    }
}

proof fn lemma_rows_listed_100()
    ensures
        forall|i: int, j: int|
            100 <= i < 150 && 0 <= j < bucket_table_buckets(i).len() ==> #[trigger] stats_feeding(
                bucket_table_buckets(i)[j],
            ).contains(bucket_table_name(i)),
{
    assert forall|i: int, j: int| 100 <= i < 150 && 0 <= j < bucket_table_buckets(i).len() implies #[trigger] stats_feeding(
        bucket_table_buckets(i)[j],
    ).contains(bucket_table_name(i)) by {
        if i == 100 {
            assert(stats_feeding(StatBucket::Spirit)[1] == bucket_table_name(100));
        } else if i == 101 {
            assert(stats_feeding(StatBucket::SelfBleedDurationDecreasePrecent)[0] == bucket_table_name(101));
        } else if i == 102 {
            assert(stats_feeding(StatBucket::SelfPoisonDurationDecreasePrecent)[0] == bucket_table_name(102));
        } else if i == 103 {
            assert(stats_feeding(StatBucket::BaseIgniteDurationDecreasePrecent)[0] == bucket_table_name(103));
        } else if i == 104 {
            assert(stats_feeding(StatBucket::BaseSelfShockDurationDecreasePrecent)[0] == bucket_table_name(104));
        } else if i == 105 {
            assert(stats_feeding(StatBucket::BaseSelfChillDurationDecreasePrecent)[0] == bucket_table_name(105));
        } else if i == 106 {
            assert(stats_feeding(StatBucket::BaseSelfFreezeDurationDecreasePrecent)[0] == bucket_table_name(106));
        } else if i == 107 {
            assert(stats_feeding(StatBucket::ReduceCriticalStrikeMultiplierToSelf)[0] == bucket_table_name(107));
        } else if i == 108 {
            assert(stats_feeding(StatBucket::PhysicalDamageReductionPrecent)[0] == bucket_table_name(108));
        } else if i == 109 {
            assert(stats_feeding(StatBucket::FireResistanceMax)[0] == bucket_table_name(109));
        } else if i == 110 {
            assert(stats_feeding(StatBucket::ColdResistanceMax)[0] == bucket_table_name(110));
        } else if i == 111 {
            assert(stats_feeding(StatBucket::LightningResistanceMax)[0] == bucket_table_name(111));
        } else if i == 112 {
            assert(stats_feeding(StatBucket::ChaosResistanceMax)[0] == bucket_table_name(112));
        } else if i == 113 {
            assert(stats_feeding(StatBucket::AllElementalResistanceMax)[0] == bucket_table_name(113));
        } else if i == 114 {
            assert(stats_feeding(StatBucket::EnergyShieldRechargeRateIncreasePrecent)[0] == bucket_table_name(114));
        } else if i == 115 {
            assert(stats_feeding(StatBucket::EnergyShieldDelayDecreasePrecent)[0] == bucket_table_name(115));
        } else if i == 116 {
            assert(stats_feeding(StatBucket::ArmourAppliesToElementalDamage)[0] == bucket_table_name(116));
        } else if i == 117 {
            assert(stats_feeding(StatBucket::ArmourPercentAppliesToChaosDamage)[0] == bucket_table_name(117));
        } else if i == 118 {
            assert(stats_feeding(StatBucket::BaseDeflectionRatingPercentOfArmour)[0] == bucket_table_name(118));
        } else if i == 119 {
            assert(stats_feeding(StatBucket::EvasionAppliesToDeflection)[0] == bucket_table_name(119));
        } else if i == 120 {
            assert(stats_feeding(StatBucket::DeflectDamageTaken)[0] == bucket_table_name(120));
        } else if i == 121 {
            assert(stats_feeding(StatBucket::PercentEvasionRatingAsExtraArmour)[0] == bucket_table_name(121));
        } else if i == 122 {
            assert(stats_feeding(StatBucket::BaseChanceToPierce)[0] == bucket_table_name(122));
        } else if i == 123 {
            assert(stats_feeding(StatBucket::BaseNumberOfCrossbowBolts)[0] == bucket_table_name(123));
        } else if i == 124 {
            assert(stats_feeding(StatBucket::FlaskLifeRecoveryRateIncreasePrecent)[0] == bucket_table_name(124));
        } else if i == 125 {
            assert(stats_feeding(StatBucket::FlaskManaRecoveryRateIncreasePrecent)[0] == bucket_table_name(125));
        } else if i == 126 {
            assert(stats_feeding(StatBucket::CharmDurationIncreasePrecent)[0] == bucket_table_name(126));
        } else if i == 127 {
            assert(stats_feeding(StatBucket::FlaskChargesGainedIncreasePrecent)[0] == bucket_table_name(127));
        } else if i == 128 {
            assert(stats_feeding(StatBucket::FlaskDurationIncreasePrecent)[0] == bucket_table_name(128));
        } else if i == 129 {
            assert(stats_feeding(StatBucket::FlaskChargesReducedUsedIncreasePrecent)[0] == bucket_table_name(129));
        } else if i == 130 {
            assert(stats_feeding(StatBucket::CharmChargesGainedIncreasePrecent)[0] == bucket_table_name(130));
        } else if i == 131 {
            assert(stats_feeding(StatBucket::CharmChargesReducedUsedIncreasePrecent)[0] == bucket_table_name(131));
        } else if i == 132 {
            assert(stats_feeding(StatBucket::IgniteChanceIncreasePrecent)[0] == bucket_table_name(132));
        } else if i == 133 {
            assert(stats_feeding(StatBucket::DamageWhileUsingCharmIncreasePrecent)[0] == bucket_table_name(133));
        } else if i == 134 {
            assert(stats_feeding(StatBucket::HitDamageFreezeMultiplierIncreasePrecent)[0] == bucket_table_name(134));
        } else if i == 135 {
            assert(stats_feeding(StatBucket::ShockChanceIncreasePrecent)[0] == bucket_table_name(135));
        } else if i == 136 {
            assert(stats_feeding(StatBucket::ShockDurationIncreasePrecent)[0] == bucket_table_name(136));
        } else if i == 137 {
            assert(stats_feeding(StatBucket::BaseProjectileSpeedIncreasePrecent)[0] == bucket_table_name(137));
        } else if i == 138 {
            assert(stats_feeding(StatBucket::DamageTakenGoesToLifeOver4Seconds)[0] == bucket_table_name(138));
        } else if i == 139 {
            assert(stats_feeding(StatBucket::DamageTakenGoesToMana)[0] == bucket_table_name(139));
        } else if i == 140 {
            assert(stats_feeding(StatBucket::ElementalDamageWithAttackSkillsIncreasePrecent)[0] == bucket_table_name(140));
        } else if i == 141 {
            assert(stats_feeding(StatBucket::NonSkillBaseAllDamageToGainAsFire)[0] == bucket_table_name(141));
        } else if i == 142 {
            assert(stats_feeding(StatBucket::NonSkillBaseAllDamageToGainAsCold)[0] == bucket_table_name(142));
        } else if i == 143 {
            assert(stats_feeding(StatBucket::NonSkillBaseAllDamageToGainAsLightning)[0] == bucket_table_name(143));
        } else if i == 144 {
            assert(stats_feeding(StatBucket::NonSkillBaseAllDamageToGainAsChaos)[0] == bucket_table_name(144));
        } else if i == 145 {
            assert(stats_feeding(StatBucket::DamageWithBowSkillsIncreasePrecent)[0] == bucket_table_name(145));
        } else if i == 146 {
            assert(stats_feeding(StatBucket::PresenceAreaIncreasePrecent)[0] == bucket_table_name(146));
        } else if i == 147 {
            assert(stats_feeding(StatBucket::MinionMaximumLifeIncreasePrecent)[0] == bucket_table_name(147));
        } else if i == 148 {
            assert(stats_feeding(StatBucket::MinionAdditionalPhysicalDamageReductionIncreasePrecent)[0] == bucket_table_name(148));
        } else if i == 149 {
            if j == 0 {
                assert(stats_feeding(StatBucket::MinionFireResistance)[0] == bucket_table_name(149));
            } else if j == 1 {
                assert(stats_feeding(StatBucket::MinionColdResistance)[0] == bucket_table_name(149));
            } else if j == 2 {
                assert(stats_feeding(StatBucket::MinionLightningResistance)[0] == bucket_table_name(149));
            } else if j == 3 {
                assert(stats_feeding(StatBucket::MinionChaosResistance)[0] == bucket_table_name(149));
            }
        }
    }
}

proof fn lemma_rows_listed_150()
    ensures
        forall|i: int, j: int|
            150 <= i < 200 && 0 <= j < bucket_table_buckets(i).len() ==> #[trigger] stats_feeding(
                bucket_table_buckets(i)[j],
            ).contains(bucket_table_name(i)),
{
    assert forall|i: int, j: int| 150 <= i < 200 && 0 <= j < bucket_table_buckets(i).len() implies #[trigger] stats_feeding(
        bucket_table_buckets(i)[j],
    ).contains(bucket_table_name(i)) by {
        if i == 150 {
            assert(stats_feeding(StatBucket::MinionResummonSpeedIncreasePrecent)[0] == bucket_table_name(150));
        } else if i == 151 {
            assert(stats_feeding(StatBucket::TrapTriggerRadiusIncreasePrecent)[0] == bucket_table_name(151));
        } else if i == 152 {
            assert(stats_feeding(StatBucket::CharmRecoverXLifeWhenUsed)[0] == bucket_table_name(152));
        } else if i == 153 {
            assert(stats_feeding(StatBucket::CharmRecoverXManaWhenUsed)[0] == bucket_table_name(153));
        } else if i == 154 {
            assert(stats_feeding(StatBucket::CharmGainXGuardForDuration)[0] == bucket_table_name(154));
        } else if i == 155 {
            assert(stats_feeding(StatBucket::HitDamageStunMultiplierIncreasePrecent)[0] == bucket_table_name(155));
        } else if i == 156 {
            assert(stats_feeding(StatBucket::ChanceToPoisonOnHitWithAttacks)[0] == bucket_table_name(156));
        } else if i == 157 {
            assert(stats_feeding(StatBucket::ChanceBleedOnHitWithAttacks)[0] == bucket_table_name(157));
        } else if i == 158 {
            assert(stats_feeding(StatBucket::BaseArrowSpeedIncreasePrecent)[0] == bucket_table_name(158));
        } else if i == 159 {
            assert(stats_feeding(StatBucket::AllElementalResistanceMax)[1] == bucket_table_name(159));
        } else if i == 160 {
            if j == 0 {
                assert(stats_feeding(StatBucket::FireResistance)[2] == bucket_table_name(160));
            } else if j == 1 {
                assert(stats_feeding(StatBucket::ColdResistance)[2] == bucket_table_name(160));
            }
        } else if i == 161 {
            if j == 0 {
                assert(stats_feeding(StatBucket::FireResistance)[3] == bucket_table_name(161));
            } else if j == 1 {
                assert(stats_feeding(StatBucket::LightningResistance)[2] == bucket_table_name(161));
            }
        } else if i == 162 {
            if j == 0 {
                assert(stats_feeding(StatBucket::ColdResistance)[3] == bucket_table_name(162));
            } else if j == 1 {
                assert(stats_feeding(StatBucket::LightningResistance)[3] == bucket_table_name(162));
            }
        } else if i == 163 {
            if j == 0 {
                assert(stats_feeding(StatBucket::FireResistance)[4] == bucket_table_name(163));
            } else if j == 1 {
                assert(stats_feeding(StatBucket::ChaosResistance)[2] == bucket_table_name(163));
            }
        } else if i == 164 {
            if j == 0 {
                assert(stats_feeding(StatBucket::ColdResistance)[4] == bucket_table_name(164));
            } else if j == 1 {
                assert(stats_feeding(StatBucket::ChaosResistance)[3] == bucket_table_name(164));
            }
        } else if i == 165 {
            if j == 0 {
                assert(stats_feeding(StatBucket::LightningResistance)[4] == bucket_table_name(165));
            } else if j == 1 {
                assert(stats_feeding(StatBucket::ChaosResistance)[4] == bucket_table_name(165));
            }
        } else if i == 166 {
            assert(stats_feeding(StatBucket::FlaskLifeRecoveryRateIncreasePrecent)[1] == bucket_table_name(166));
        } else if i == 167 {
            assert(stats_feeding(StatBucket::LifeFlaskChargesGainedIncreasePrecent)[0] == bucket_table_name(167));
        } else if i == 168 {
            assert(stats_feeding(StatBucket::FlaskManaRecoveryRateIncreasePrecent)[1] == bucket_table_name(168));
        } else if i == 169 {
            assert(stats_feeding(StatBucket::ManaFlaskChargesGainedIncreasePrecent)[0] == bucket_table_name(169));
        } else if i == 170 {
            assert(stats_feeding(StatBucket::StunThresholdPercent)[0] == bucket_table_name(170));
        } else if i == 171 {
            assert(stats_feeding(StatBucket::FlaskRecoveryAmountPercentToRecoverInstantly)[0] == bucket_table_name(171));
        } else if i == 172 {
            assert(stats_feeding(StatBucket::GenerateXChargesForAnyFlaskPerMinute)[0] == bucket_table_name(172));
        } else if i == 173 {
            assert(stats_feeding(StatBucket::MaximumManaGainedOnKillPercent)[0] == bucket_table_name(173));
        } else if i == 174 {
            assert(stats_feeding(StatBucket::BaseManaLeechAmountIncreasePrecent)[0] == bucket_table_name(174));
        } else if i == 175 {
            assert(stats_feeding(StatBucket::AilmentThresholdPercent)[0] == bucket_table_name(175));
        } else if i == 176 {
            assert(stats_feeding(StatBucket::AilmentThresholdFlat)[0] == bucket_table_name(176));
        } else if i == 177 {
            assert(stats_feeding(StatBucket::BaseSlowPotencyPercent)[0] == bucket_table_name(177));
        } else if i == 178 {
            assert(stats_feeding(StatBucket::SpearAttackSpeedIncreasePrecent)[0] == bucket_table_name(178));
        } else if i == 179 {
            assert(stats_feeding(StatBucket::SpearCriticalStrikeMultiplierIncreasePrecent)[0] == bucket_table_name(179));
        } else if i == 180 {
            assert(stats_feeding(StatBucket::SpearDamageIncreasePrecent)[0] == bucket_table_name(180));
        } else if i == 181 {
            assert(stats_feeding(StatBucket::StunThresholdFromMaximumEnergyShieldPercent)[0] == bucket_table_name(181));
        } else if i == 182 {
            assert(stats_feeding(StatBucket::AilmentThresholdFromMaximumEnergyShieldPercent)[0] == bucket_table_name(182));
        } else if i == 183 {
            assert(stats_feeding(StatBucket::StunThresholdWhenNotStunnedRecentlyPercent)[0] == bucket_table_name(183));
        } else if i == 184 {
            assert(stats_feeding(StatBucket::SwordDamageIncreasePrecent)[0] == bucket_table_name(184));
        } else if i == 185 {
            assert(stats_feeding(StatBucket::ThornsDamageIncreasePrecent)[0] == bucket_table_name(185));
        } else if i == 186 {
            assert(stats_feeding(StatBucket::TotemDamageIncreasePrecent)[0] == bucket_table_name(186));
        } else if i == 187 {
            assert(stats_feeding(StatBucket::TrapDamageIncreasePrecent)[1] == bucket_table_name(187));
        } else if i == 188 {
            assert(stats_feeding(StatBucket::SummonTotemCastSpeedIncreasePrecent)[0] == bucket_table_name(188));
        } else if i == 189 {
            assert(stats_feeding(StatBucket::TotemLifeIncreasePrecent)[0] == bucket_table_name(189));
        } else if i == 190 {
            assert(stats_feeding(StatBucket::SwordAttackSpeedIncreasePrecent)[0] == bucket_table_name(190));
        } else if i == 191 {
            assert(stats_feeding(StatBucket::BaseBleedingEffectPercent)[0] == bucket_table_name(191));
        } else if i == 192 {
            assert(stats_feeding(StatBucket::MovementSpeedPenaltyReductionPercent)[0] == bucket_table_name(192));
        } else if i == 193 {
            assert(stats_feeding(StatBucket::BaseDamageRemovedFromManaBeforeLifePercent)[0] == bucket_table_name(193));
        } else if i == 194 {
            assert(stats_feeding(StatBucket::SelfStatusAilmentDurationReductionPercent)[0] == bucket_table_name(194));
        } else if i == 195 {
            assert(stats_feeding(StatBucket::CorruptedSkillGemLevelIncrease)[0] == bucket_table_name(195));
        } else if i == 196 {
            assert(stats_feeding(StatBucket::AllSkillGemLevelIncrease)[0] == bucket_table_name(196));
        } else if i == 197 {
            assert(stats_feeding(StatBucket::WardRegenerationRateIncreasePrecent)[0] == bucket_table_name(197));
        } else if i == 198 {
            assert(stats_feeding(StatBucket::BaseIgniteIncereasedMagnitudePrecent)[0] == bucket_table_name(198));
        } else if i == 199 {
            assert(stats_feeding(StatBucket::BaseDamageTakenIncreasePrecent)[0] == bucket_table_name(199));
        }
    }
}

proof fn lemma_rows_listed_200()
    ensures
        forall|i: int, j: int|
            200 <= i < 250 && 0 <= j < bucket_table_buckets(i).len() ==> #[trigger] stats_feeding(
                bucket_table_buckets(i)[j],
            ).contains(bucket_table_name(i)),
{
    assert forall|i: int, j: int| 200 <= i < 250 && 0 <= j < bucket_table_buckets(i).len() implies #[trigger] stats_feeding(
        bucket_table_buckets(i)[j],
    ).contains(bucket_table_name(i)) by {
        if i == 200 {
            assert(stats_feeding(StatBucket::IncreaseEvasionPercentArmourPercentEnergyShieldPercentFromShield)[0] == bucket_table_name(200));
        } else if i == 201 {
            assert(stats_feeding(StatBucket::StrikesDealMeleeSplash)[0] == bucket_table_name(201));
        } else if i == 202 {
            assert(stats_feeding(StatBucket::WarCryEmpowersNextXMeleeAttacks)[0] == bucket_table_name(202));
        } else if i == 203 {
            assert(stats_feeding(StatBucket::MinionDamageIncreasePrecent)[0] == bucket_table_name(203));
        } else if i == 204 {
            assert(stats_feeding(StatBucket::GainXRageOnMeleeHit)[0] == bucket_table_name(204));
        } else if i == 205 {
            assert(stats_feeding(StatBucket::GainXRageWhenGetByEnemyHit)[0] == bucket_table_name(205));
        } else if i == 206 {
            assert(stats_feeding(StatBucket::ShockEffectIncreasePrecent)[0] == bucket_table_name(206));
        } else if i == 207 {
            assert(stats_feeding(StatBucket::MaximumRage)[0] == bucket_table_name(207));
        } else if i == 208 {
            assert(stats_feeding(StatBucket::MinionAccuracyRatingIncreasePrecent)[0] == bucket_table_name(208));
        } else if i == 209 {
            assert(stats_feeding(StatBucket::MinionSkillAreaOfEffectIncreasePrecent)[0] == bucket_table_name(209));
        } else if i == 210 {
            assert(stats_feeding(StatBucket::MinionChaosResistanceIncreasePrecent)[0] == bucket_table_name(210));
        } else if i == 211 {
            assert(stats_feeding(StatBucket::MinionCriticalStrikeChanceIncreasePrecent)[0] == bucket_table_name(211));
        } else if i == 212 {
            assert(stats_feeding(StatBucket::MinionCriticalStrikeMultiplierIncreasePrecent)[0] == bucket_table_name(212));
        } else if i == 213 {
            assert(stats_feeding(StatBucket::MinionAttackAndCastSpeedIncreasePrecent)[0] == bucket_table_name(213));
        } else if i == 214 {
            assert(stats_feeding(StatBucket::MeleeDamageIncreasePrecent)[0] == bucket_table_name(214));
        } else if i == 215 {
            assert(stats_feeding(StatBucket::MarkEffectIncreasePrecent)[0] == bucket_table_name(215));
        } else if i == 216 {
            assert(stats_feeding(StatBucket::MarkSkillDurationIncreasePrecent)[0] == bucket_table_name(216));
        } else if i == 217 {
            assert(stats_feeding(StatBucket::MarkUseSpeedIncreasePrecent)[0] == bucket_table_name(217));
        } else if i == 218 {
            assert(stats_feeding(StatBucket::AdditionalBlockIncreasePrecent)[0] == bucket_table_name(218));
        } else if i == 219 {
            assert(stats_feeding(StatBucket::FasterBleedDamage)[0] == bucket_table_name(219));
        } else if i == 220 {
            assert(stats_feeding(StatBucket::SpellsCostLifeInsteadOfMana)[0] == bucket_table_name(220));
        } else if i == 221 {
            assert(stats_feeding(StatBucket::ChanceToFire1AdditionalProjectileWithRolloverWithBowAttacks)[0] == bucket_table_name(221));
        } else if i == 222 {
            assert(stats_feeding(StatBucket::ProjectileAttackRangePrecent)[0] == bucket_table_name(222));
        } else if i == 223 {
            assert(stats_feeding(StatBucket::ProjectileSpeedIncreasePrecentForCrossbowSkills)[0] == bucket_table_name(223));
        } else if i == 224 {
            assert(stats_feeding(StatBucket::GrenadeSkillNumberOfAdditionalProjectiles)[0] == bucket_table_name(224));
        } else if i == 225 {
            assert(stats_feeding(StatBucket::AdditionalBallistaTotemsAllowed)[0] == bucket_table_name(225));
        } else if i == 226 {
            assert(stats_feeding(StatBucket::GrenadeSkillCooldownCount)[0] == bucket_table_name(226));
        } else if i == 227 {
            assert(stats_feeding(StatBucket::GrenadeSkillCooldownSpeedIncreasePrecent)[0] == bucket_table_name(227));
        } else if i == 228 {
            assert(stats_feeding(StatBucket::PlacingTrapsCooldownRecoveryForThrowingIncreasePrecent)[0] == bucket_table_name(228));
        } else if i == 229 {
            assert(stats_feeding(StatBucket::AilmentChanceIncreasePrecent)[0] == bucket_table_name(229));
        } else if i == 230 {
            assert(stats_feeding(StatBucket::AilmentEffectIncreasePrecent)[0] == bucket_table_name(230));
        } else if i == 231 {
            assert(stats_feeding(StatBucket::BaseSkillAreaOfEffectIncreasePrecent)[0] == bucket_table_name(231));
        } else if i == 232 {
            assert(stats_feeding(StatBucket::ArmourBreakAmountIncreasePrecent)[0] == bucket_table_name(232));
        } else if i == 233 {
            assert(stats_feeding(StatBucket::ArmourBreakDurationIncreasePrecent)[0] == bucket_table_name(233));
        } else if i == 234 {
            assert(stats_feeding(StatBucket::AuraEffectIncreasePrecent)[0] == bucket_table_name(234));
        } else if i == 235 {
            assert(stats_feeding(StatBucket::AxeDamageIncreasePrecent)[0] == bucket_table_name(235));
        } else if i == 236 {
            assert(stats_feeding(StatBucket::AxeAttackSpeedIncreasePrecent)[0] == bucket_table_name(236));
        } else if i == 237 {
            assert(stats_feeding(StatBucket::BaseChanceToInflictBleeding)[0] == bucket_table_name(237));
        } else if i == 238 {
            assert(stats_feeding(StatBucket::BaseBleedDurationIncreasePrecent)[0] == bucket_table_name(238));
        } else if i == 239 {
            assert(stats_feeding(StatBucket::BlindEffectIncreasePrecent)[0] == bucket_table_name(239));
        } else if i == 240 {
            assert(stats_feeding(StatBucket::ChanceToBlindOnHitWithAttacks)[0] == bucket_table_name(240));
        } else if i == 241 {
            assert(stats_feeding(StatBucket::BlockChanceIncreasePrecent)[0] == bucket_table_name(241));
        } else if i == 242 {
            assert(stats_feeding(StatBucket::DamageToRareAndUniqueEnemiesIncreasePrecent)[0] == bucket_table_name(242));
        } else if i == 243 {
            assert(stats_feeding(StatBucket::AccuracyRatingIncreaseWithBowPrecent)[0] == bucket_table_name(243));
        } else if i == 244 {
            assert(stats_feeding(StatBucket::BowDamageIncreasePrecent)[0] == bucket_table_name(244));
        } else if i == 245 {
            assert(stats_feeding(StatBucket::BowAttackSpeedIncreasePrecent)[0] == bucket_table_name(245));
        } else if i == 246 {
            assert(stats_feeding(StatBucket::ProjectileChanceToChain1ExtraTimeFromTerrainIncreasePrecent)[0] == bucket_table_name(246));
        } else if i == 247 {
            assert(stats_feeding(StatBucket::ChillDurationIncreasePrecent)[0] == bucket_table_name(247));
        } else if i == 248 {
            assert(stats_feeding(StatBucket::ColdResistancePenetration)[0] == bucket_table_name(248));
        } else if i == 249 {
            assert(stats_feeding(StatBucket::BaseCooldownSpeedIncreasePrecent)[0] == bucket_table_name(249));
        }
    }
}

proof fn lemma_rows_listed_250()
    ensures
        forall|i: int, j: int|
            250 <= i < 300 && 0 <= j < bucket_table_buckets(i).len() ==> #[trigger] stats_feeding(
                bucket_table_buckets(i)[j],
            ).contains(bucket_table_name(i)),
{
    assert forall|i: int, j: int| 250 <= i < 300 && 0 <= j < bucket_table_buckets(i).len() implies #[trigger] stats_feeding(
        bucket_table_buckets(i)[j],
    ).contains(bucket_table_name(i)) by {
        if i == 250 {
            assert(stats_feeding(StatBucket::DamageIfYouHaveConsumedACorpseRecentlyIncreasePrecent)[0] == bucket_table_name(250));
        } else if i == 251 {
            assert(stats_feeding(StatBucket::CriticalHitDamagingAilmentEffectIncreasePrecent)[0] == bucket_table_name(251));
        } else if i == 252 {
            assert(stats_feeding(StatBucket::CrossbowDamageIncreasePrecent)[0] == bucket_table_name(252));
        } else if i == 253 {
            assert(stats_feeding(StatBucket::ReloadSpeedIncreasePrecent)[0] == bucket_table_name(253));
        } else if i == 254 {
            assert(stats_feeding(StatBucket::CrossbowReloadInstantChanceIncreasePrecent)[0] == bucket_table_name(254));
        } else if i == 255 {
            assert(stats_feeding(StatBucket::CrossbowAttackSpeedIncreasePrecent)[0] == bucket_table_name(255));
        } else if i == 256 {
            assert(stats_feeding(StatBucket::CurseAreaOfEffectIncreasePrecent)[0] == bucket_table_name(256));
        } else if i == 257 {
            assert(stats_feeding(StatBucket::CurseDelayIncreasePrecent)[0] == bucket_table_name(257));
        } else if i == 258 {
            assert(stats_feeding(StatBucket::BaseCurseDurationIncreasePrecent)[0] == bucket_table_name(258));
        } else if i == 259 {
            assert(stats_feeding(StatBucket::CurseEffectIncreasePrecent)[0] == bucket_table_name(259));
        } else if i == 260 {
            assert(stats_feeding(StatBucket::DaggerCriticalStrikeChanceIncreasePrecent)[0] == bucket_table_name(260));
        } else if i == 261 {
            assert(stats_feeding(StatBucket::DaggerDamageIncreasePrecent)[0] == bucket_table_name(261));
        } else if i == 262 {
            assert(stats_feeding(StatBucket::DaggerAttackSpeedIncreasePrecent)[0] == bucket_table_name(262));
        } else if i == 263 {
            assert(stats_feeding(StatBucket::DamageAgainstEnemiesWithFullyBrokenArmourIncreasePrecent)[0] == bucket_table_name(263));
        } else if i == 264 {
            assert(stats_feeding(StatBucket::DamagingAilmentDurationIncreasePrecent)[0] == bucket_table_name(264));
        } else if i == 265 {
            assert(stats_feeding(StatBucket::BaseChanceToDazeIncreasePrecent)[0] == bucket_table_name(265));
        } else if i == 266 {
            assert(stats_feeding(StatBucket::DebuffTimePassedIncreasePrecent)[0] == bucket_table_name(266));
        } else if i == 267 {
            assert(stats_feeding(StatBucket::IgniteShockChillDurationIncreasePrecent)[0] == bucket_table_name(267));
        } else if i == 268 {
            assert(stats_feeding(StatBucket::ElementalDamageIncreasePrecent)[0] == bucket_table_name(268));
        } else if i == 269 {
            assert(stats_feeding(StatBucket::EmpoweredAttackDamageIncreasePrecent)[0] == bucket_table_name(269));
        } else if i == 270 {
            assert(stats_feeding(StatBucket::EnergyGeneratedIncreasePrecent)[0] == bucket_table_name(270));
        } else if i == 271 {
            assert(stats_feeding(StatBucket::DamagingAilmentsDealDamageIncreasePrecent)[0] == bucket_table_name(271));
        } else if i == 272 {
            assert(stats_feeding(StatBucket::FireResistancePenetration)[0] == bucket_table_name(272));
        } else if i == 273 {
            assert(stats_feeding(StatBucket::FlailCriticalStrikeChanceIncreasePrecent)[0] == bucket_table_name(273));
        } else if i == 274 {
            assert(stats_feeding(StatBucket::FlailDamageIncreasePrecent)[0] == bucket_table_name(274));
        } else if i == 275 {
            assert(stats_feeding(StatBucket::EnergyShieldFromFocusIncreasePrecent)[0] == bucket_table_name(275));
        } else if i == 276 {
            assert(stats_feeding(StatBucket::ChanceToForkExtraProjectileIncreasePrecent)[0] == bucket_table_name(276));
        } else if i == 277 {
            assert(stats_feeding(StatBucket::FreezeThresholdIncreasePrecent)[0] == bucket_table_name(277));
        } else if i == 278 {
            assert(stats_feeding(StatBucket::DamageWithHeraldSkillsIncreasePrecent)[0] == bucket_table_name(278));
        } else if i == 279 {
            assert(stats_feeding(StatBucket::SkillEffectDurationIncreasePrecent)[0] == bucket_table_name(279));
        } else if i == 280 {
            assert(stats_feeding(StatBucket::KnockbackDistanceIncreasePrecent)[0] == bucket_table_name(280));
        } else if i == 281 {
            assert(stats_feeding(StatBucket::BaseSkillCostLifeInsteadOfManaIncreasePrecent)[0] == bucket_table_name(281));
        } else if i == 282 {
            assert(stats_feeding(StatBucket::BaseLifeLeechAmountIncreasePrecent)[0] == bucket_table_name(282));
        } else if i == 283 {
            assert(stats_feeding(StatBucket::RecoverMaximumLifeOnKillIncreasePrecent)[0] == bucket_table_name(283));
        } else if i == 284 {
            assert(stats_feeding(StatBucket::DamageTakenGoesToLifeOver4SecondsIncreasePrecent)[0] == bucket_table_name(284));
        } else if i == 285 {
            assert(stats_feeding(StatBucket::LifeRegenerationRateIncreasePrecent)[0] == bucket_table_name(285));
        } else if i == 286 {
            assert(stats_feeding(StatBucket::LightningResistancePenetration)[0] == bucket_table_name(286));
        } else if i == 287 {
            assert(stats_feeding(StatBucket::MaceDamageIncreasePrecent)[0] == bucket_table_name(287));
        } else if i == 288 {
            assert(stats_feeding(StatBucket::MaceHitDamageStunMultiplierIncreasePrecent)[0] == bucket_table_name(288));
        } else if i == 289 {
            assert(stats_feeding(StatBucket::OfferingDurationIncreasePrecent)[0] == bucket_table_name(289));
        } else if i == 290 {
            assert(stats_feeding(StatBucket::OfferingLifeIncreasePrecent)[0] == bucket_table_name(290));
        } else if i == 291 {
            assert(stats_feeding(StatBucket::HitDamagePinMultiplierIncreasePrecent)[0] == bucket_table_name(291));
        } else if i == 292 {
            assert(stats_feeding(StatBucket::BaseChanceToPoisonOnHitIncreasePrecent)[0] == bucket_table_name(292));
        } else if i == 293 {
            assert(stats_feeding(StatBucket::BasePoisonEffectIncreasePrecent)[0] == bucket_table_name(293));
        } else if i == 294 {
            assert(stats_feeding(StatBucket::BasePoisonDurationIncreasePrecent)[0] == bucket_table_name(294));
        } else if i == 295 {
            assert(stats_feeding(StatBucket::ProjectileDamageIncreasePrecent)[0] == bucket_table_name(295));
        } else if i == 296 {
            assert(stats_feeding(StatBucket::QuarterstaffDamageIncreasePrecent)[0] == bucket_table_name(296));
        } else if i == 297 {
            assert(stats_feeding(StatBucket::QuarterstaffHitDamageFreezeMultiplierIncreasePrecent)[0] == bucket_table_name(297));
        } else if i == 298 {
            assert(stats_feeding(StatBucket::QuarterstaffAttackSpeedIncreasePrecent)[0] == bucket_table_name(298));
        } else if i == 299 {
            assert(stats_feeding(StatBucket::QuiverModEffectIncreasePrecent)[0] == bucket_table_name(299));
        }
    }
}

proof fn lemma_rows_listed_300()
    ensures
        forall|i: int, j: int|
            300 <= i < 350 && 0 <= j < bucket_table_buckets(i).len() ==> #[trigger] stats_feeding(
                bucket_table_buckets(i)[j],
            ).contains(bucket_table_name(i)),
{
    assert forall|i: int, j: int| 300 <= i < 350 && 0 <= j < bucket_table_buckets(i).len() implies #[trigger] stats_feeding(
        bucket_table_buckets(i)[j],
    ).contains(bucket_table_name(i)) by {
        if i == 300 {
            assert(stats_feeding(StatBucket::TriggeredSpellSpellDamageIncreasePrecent)[0] == bucket_table_name(300));
        } else if i == 301 {
            assert(stats_feeding(StatBucket::UnarmedDamageIncreasePrecent)[0] == bucket_table_name(301));
        } else if i == 302 {
            assert(stats_feeding(StatBucket::WarcryBuffEffectIncreasePrecent)[0] == bucket_table_name(302));
        } else if i == 303 {
            assert(stats_feeding(StatBucket::WarcryCooldownSpeedIncreasePrecent)[0] == bucket_table_name(303));
        } else if i == 304 {
            assert(stats_feeding(StatBucket::WarcryDamageIncreasePrecent)[0] == bucket_table_name(304));
        } else if i == 305 {
            assert(stats_feeding(StatBucket::WarcrySpeedIncreasePrecent)[0] == bucket_table_name(305));
        } else if i == 306 {
            assert(stats_feeding(StatBucket::WeaponSwapSpeedIncreasePrecent)[0] == bucket_table_name(306));
        } else if i == 307 {
            assert(stats_feeding(StatBucket::WitheredMagnitudeIncreasePrecent)[0] == bucket_table_name(307));
        } else if i == 308 {
            assert(stats_feeding(StatBucket::UnarmedAttackSpeedIncreasePrecent)[0] == bucket_table_name(308));
        } else if i == 309 {
            assert(stats_feeding(StatBucket::ProjectileDamageIncreasePrecentIfYouveDealtMeleeHitRecently)[0] == bucket_table_name(309));
        } else if i == 310 {
            assert(stats_feeding(StatBucket::MeleeDamageIncreasePrecentIfYouveDealtProjectileAttackHitRecently)[0] == bucket_table_name(310));
        } else if i == 311 {
            assert(stats_feeding(StatBucket::ParryDamageIncreasePrecent)[0] == bucket_table_name(311));
        } else if i == 312 {
            assert(stats_feeding(StatBucket::ParrySkillEffectDurationIncreasePrecent)[0] == bucket_table_name(312));
        } else if i == 313 {
            assert(stats_feeding(StatBucket::ParryStunThresholdIncreasePrecentDuringParry)[0] == bucket_table_name(313));
        } else if i == 314 {
            assert(stats_feeding(StatBucket::VolatilityOnKillChanceIncreasePrecent)[0] == bucket_table_name(314));
        } else if i == 315 {
            assert(stats_feeding(StatBucket::CompanionDamageIncreasePrecent)[0] == bucket_table_name(315));
        } else if i == 316 {
            assert(stats_feeding(StatBucket::CompanionMaximumLifeIncreasePrecent)[0] == bucket_table_name(316));
        } else if i == 317 {
            assert(stats_feeding(StatBucket::HazardDamageIncreasePrecent)[0] == bucket_table_name(317));
        } else if i == 318 {
            assert(stats_feeding(StatBucket::ChanceToInflictIncisionOnAttackHitIncreasePrecent)[0] == bucket_table_name(318));
        } else if i == 319 {
            assert(stats_feeding(StatBucket::GloryGenerationIncreasePrecentForBanners)[0] == bucket_table_name(319));
        } else if i == 320 {
            assert(stats_feeding(StatBucket::BannerAreaOfEffectIncreasePrecent)[0] == bucket_table_name(320));
        } else if i == 321 {
            assert(stats_feeding(StatBucket::BannerDurationIncreasePrecent)[0] == bucket_table_name(321));
        } else if i == 322 {
            assert(stats_feeding(StatBucket::ApplyDebilitateOnHitWhileEmeraldSapphireSocketed)[0] == bucket_table_name(322));
        } else if i == 323 {
            assert(stats_feeding(StatBucket::ApplyBlindOnHitWhileRubySapphireSocketed)[0] == bucket_table_name(323));
        } else if i == 324 {
            assert(stats_feeding(StatBucket::ApplyExposureOnHitWhileRubyEmeraldSocketed)[0] == bucket_table_name(324));
        } else if i == 325 {
            assert(stats_feeding(StatBucket::CannotDie)[0] == bucket_table_name(325));
        } else if i == 326 {
            assert(stats_feeding(StatBucket::GoldFromEnemiesIncreasePrecent)[0] == bucket_table_name(326));
        } else if i == 327 {
            assert(stats_feeding(StatBucket::MaxEnduranceCharges)[0] == bucket_table_name(327));
        } else if i == 328 {
            assert(stats_feeding(StatBucket::MaxFrenzyCharges)[0] == bucket_table_name(328));
        } else if i == 329 {
            assert(stats_feeding(StatBucket::MaxPowerCharges)[0] == bucket_table_name(329));
        } else if i == 330 {
            assert(stats_feeding(StatBucket::AdditionalMaximumBlockIncreasePrecent)[0] == bucket_table_name(330));
        } else if i == 331 {
            assert(stats_feeding(StatBucket::LifeGainedOnBlock)[0] == bucket_table_name(331));
        } else if i == 332 {
            assert(stats_feeding(StatBucket::ManaGainedOnBlock)[0] == bucket_table_name(332));
        } else if i == 333 {
            assert(stats_feeding(StatBucket::DamageIncreasePrecent)[0] == bucket_table_name(333));
        } else if i == 334 {
            assert(stats_feeding(StatBucket::SkillSpeedIncreasePrecent)[0] == bucket_table_name(334));
        } else if i == 335 {
            assert(stats_feeding(StatBucket::BaseDebuffSlowMagnitudeIncreasePrecent)[0] == bucket_table_name(335));
        } else if i == 336 {
            assert(stats_feeding(StatBucket::GenerateXChargesForLifeFlasksPerMinute)[0] == bucket_table_name(336));
        } else if i == 337 {
            assert(stats_feeding(StatBucket::GenerateXChargesForManaFlasksPerMinute)[0] == bucket_table_name(337));
        } else if i == 338 {
            assert(stats_feeding(StatBucket::GenerateXChargesForCharmsPerMinute)[0] == bucket_table_name(338));
        } else if i == 339 {
            assert(stats_feeding(StatBucket::AbyssalWastingEffectIncreasePrecent)[0] == bucket_table_name(339));
        } else if i == 340 {
            assert(stats_feeding(StatBucket::AddPowerChargeOnCriticalStrikeIncreasePrecent)[0] == bucket_table_name(340));
        } else if i == 341 {
            assert(stats_feeding(StatBucket::AdditionalBaseCriticalStrikeChance)[0] == bucket_table_name(341));
        } else if i == 342 {
            assert(stats_feeding(StatBucket::AdditionalBlockChanceAgainstProjectilesIncreasePrecent)[0] == bucket_table_name(342));
        } else if i == 343 {
            assert(stats_feeding(StatBucket::AdditionalComboGainChanceIncreasePrecent)[0] == bucket_table_name(343));
        } else if i == 344 {
            if j == 0 {
                assert(stats_feeding(StatBucket::Dexterity)[3] == bucket_table_name(344));
            } else if j == 1 {
                assert(stats_feeding(StatBucket::Intelligence)[3] == bucket_table_name(344));
            }
        } else if i == 345 {
            assert(stats_feeding(StatBucket::AdditionalInfusionGainChanceIncreasePrecent)[0] == bucket_table_name(345));
        } else if i == 346 {
            assert(stats_feeding(StatBucket::AdditionalMaximumInfusionStacks)[0] == bucket_table_name(346));
        } else if i == 347 {
            assert(stats_feeding(StatBucket::AdditionalPhysicalDamageReductionIncreasePrecent)[0] == bucket_table_name(347));
        } else if i == 348 {
            assert(stats_feeding(StatBucket::AggravateBleedingOlderThanMsOnHit)[0] == bucket_table_name(348));
        } else if i == 349 {
            assert(stats_feeding(StatBucket::GlobalSkillGemQualityPluss)[0] == bucket_table_name(349));
        }
    }
}

proof fn lemma_rows_listed_350()
    ensures
        forall|i: int, j: int|
            350 <= i < 400 && 0 <= j < bucket_table_buckets(i).len() ==> #[trigger] stats_feeding(
                bucket_table_buckets(i)[j],
            ).contains(bucket_table_name(i)),
{
    assert forall|i: int, j: int| 350 <= i < 400 && 0 <= j < bucket_table_buckets(i).len() implies #[trigger] stats_feeding(
        bucket_table_buckets(i)[j],
    ).contains(bucket_table_name(i)) by {
        if i == 350 {
            assert(stats_feeding(StatBucket::AlliesInPresenceResistAllElementsIncreasePrecent)[0] == bucket_table_name(350));
        } else if i == 351 {
            assert(stats_feeding(StatBucket::ApplyAnaemiaMagnitudeOnHit)[0] == bucket_table_name(351));
        } else if i == 352 {
            assert(stats_feeding(StatBucket::ArcaneSurgeEffectOnSelfIncreasePrecent)[0] == bucket_table_name(352));
        } else if i == 353 {
            assert(stats_feeding(StatBucket::ArchonDelayExpiresXPercentFaster)[0] == bucket_table_name(353));
        } else if i == 354 {
            assert(stats_feeding(StatBucket::ArchonDurationIncreasePrecent)[0] == bucket_table_name(354));
        } else if i == 355 {
            assert(stats_feeding(StatBucket::ArchonEffectOnYouIncreasePrecent)[0] == bucket_table_name(355));
        } else if i == 356 {
            assert(stats_feeding(StatBucket::ArmourBreakEqualToPhysicalDamageDealtOnCriticalStrikeWithSpells)[0] == bucket_table_name(356));
        } else if i == 357 {
            assert(stats_feeding(StatBucket::ArmourBreakPhysicalDamageIncreasePrecent)[0] == bucket_table_name(357));
        } else if i == 358 {
            assert(stats_feeding(StatBucket::ArrowSpeedAdditiveModifiersAlsoApplyToBowDamage)[0] == bucket_table_name(358));
        } else if i == 359 {
            assert(stats_feeding(StatBucket::AttackAddedChaosDamageIncreasePrecent)[0] == bucket_table_name(359));
        } else if i == 360 {
            assert(stats_feeding(StatBucket::AttackAddedPhysicalDamageIncreasePrecent)[0] == bucket_table_name(360));
        } else if i == 361 {
            assert(stats_feeding(StatBucket::AttackAddedColdDamageIncreasePrecent)[0] == bucket_table_name(361));
        } else if i == 362 {
            assert(stats_feeding(StatBucket::AttackAddedFireDamageIncreasePrecent)[0] == bucket_table_name(362));
        } else if i == 363 {
            assert(stats_feeding(StatBucket::AttackAddedLightningDamageIncreasePrecent)[0] == bucket_table_name(363));
        } else if i == 364 {
            assert(stats_feeding(StatBucket::AttackAndCastSpeedIncreasePrecent)[0] == bucket_table_name(364));
        } else if i == 365 {
            assert(stats_feeding(StatBucket::AttackAndCastSpeedIncreasePrecentDuringFlaskEffect)[0] == bucket_table_name(365));
        } else if i == 366 {
            assert(stats_feeding(StatBucket::AttackAreaOfEffectIncreasePrecent)[0] == bucket_table_name(366));
        } else if i == 367 {
            assert(stats_feeding(StatBucket::AttackAreaOfEffectIncreasePrecentPer10Int)[0] == bucket_table_name(367));
        } else if i == 368 {
            assert(stats_feeding(StatBucket::AttackDamageIncreasePrecentWhenOnLowLife)[0] == bucket_table_name(368));
        } else if i == 369 {
            assert(stats_feeding(StatBucket::ReducedAttackManaCostPrecent)[0] == bucket_table_name(369));
        } else if i == 370 {
            assert(stats_feeding(StatBucket::AttackMaximumAddedChaosDamage)[0] == bucket_table_name(370));
        } else if i == 371 {
            assert(stats_feeding(StatBucket::AttackMinimumAddedChaosDamage)[0] == bucket_table_name(371));
        } else if i == 372 {
            assert(stats_feeding(StatBucket::AttackSkillGemLevelIncrease)[0] == bucket_table_name(372));
        } else if i == 373 {
            assert(stats_feeding(StatBucket::AttackSkillsHaveAddedLightningDamageEqualToPrecentOfMaximumMana)[0] == bucket_table_name(373));
        } else if i == 374 {
            assert(stats_feeding(StatBucket::AttackSpeedIncreasePrecentIfNotBeenHitRecently)[0] == bucket_table_name(374));
        } else if i == 375 {
            assert(stats_feeding(StatBucket::AttackSpeedIncreasePrecentWhenOnFullLife)[0] == bucket_table_name(375));
        } else if i == 376 {
            assert(stats_feeding(StatBucket::AttackSpeedIncreasePrecentWhileInPresenceOfCompanion)[0] == bucket_table_name(376));
        } else if i == 377 {
            assert(stats_feeding(StatBucket::AttackSpeedIncreasePrecentWhileMissingWard)[0] == bucket_table_name(377));
        } else if i == 378 {
            assert(stats_feeding(StatBucket::AttackNumberOfAdditionalChains)[0] == bucket_table_name(378));
        } else if i == 379 {
            assert(stats_feeding(StatBucket::AvoidAllElementalStatusPrecent)[0] == bucket_table_name(379));
        } else if i == 380 {
            assert(stats_feeding(StatBucket::BaseAllAilmentDurationPrecent)[0] == bucket_table_name(380));
        } else if i == 381 {
            assert(stats_feeding(StatBucket::ReduceBaseAllAilmentDurationOnSelfPrecent)[0] == bucket_table_name(381));
        } else if i == 382 {
            if j == 0 {
                assert(stats_feeding(StatBucket::Strength)[4] == bucket_table_name(382));
            } else if j == 1 {
                assert(stats_feeding(StatBucket::Dexterity)[4] == bucket_table_name(382));
            } else if j == 2 {
                assert(stats_feeding(StatBucket::Intelligence)[4] == bucket_table_name(382));
            }
        } else if i == 383 {
            assert(stats_feeding(StatBucket::BaseAttackSkillCostEfficiencyPrecent)[0] == bucket_table_name(383));
        } else if i == 384 {
            assert(stats_feeding(StatBucket::BaseAvoidChillPrecent)[0] == bucket_table_name(384));
        } else if i == 385 {
            assert(stats_feeding(StatBucket::BaseAvoidFreezePrecent)[0] == bucket_table_name(385));
        } else if i == 386 {
            assert(stats_feeding(StatBucket::BaseAvoidIgnitePrecent)[0] == bucket_table_name(386));
        } else if i == 387 {
            assert(stats_feeding(StatBucket::BaseAvoidShockPrecent)[0] == bucket_table_name(387));
        } else if i == 388 {
            assert(stats_feeding(StatBucket::BaseAvoidStunPrecent)[0] == bucket_table_name(388));
        } else if i == 389 {
            assert(stats_feeding(StatBucket::BaseBleedChanceIsPoisonChanceInstead)[0] == bucket_table_name(389));
        } else if i == 390 {
            assert(stats_feeding(StatBucket::BaseChanceToShockPrecent)[0] == bucket_table_name(390));
        } else if i == 391 {
            assert(stats_feeding(StatBucket::BaseDamagingAilmentEffectPrecent)[0] == bucket_table_name(391));
        } else if i == 392 {
            assert(stats_feeding(StatBucket::BaseElementalStatusAilmentDurationPrecent)[0] == bucket_table_name(392));
        } else if i == 393 {
            assert(stats_feeding(StatBucket::BaseEnemyCriticalStrikeChancePrecent)[0] == bucket_table_name(393));
        } else if i == 394 {
            assert(stats_feeding(StatBucket::BaseLifeCostEfficiencyPrecent)[0] == bucket_table_name(394));
        } else if i == 395 {
            assert(stats_feeding(StatBucket::BaseLifeLeechDoesNotStopAtFullLife)[0] == bucket_table_name(395));
        } else if i == 396 {
            assert(stats_feeding(StatBucket::BaseLifeLeechRatePrecent)[0] == bucket_table_name(396));
        } else if i == 397 {
            assert(stats_feeding(StatBucket::BaseManaCostPrecent)[0] == bucket_table_name(397));
        } else if i == 398 {
            assert(stats_feeding(StatBucket::BaseManaCostEfficiencyPrecent)[0] == bucket_table_name(398));
        } else if i == 399 {
            assert(stats_feeding(StatBucket::BaseManaLeechRatePrecent)[0] == bucket_table_name(399));
        }
    }
}

proof fn lemma_rows_listed_400()
    ensures
        forall|i: int, j: int|
            400 <= i < 450 && 0 <= j < bucket_table_buckets(i).len() ==> #[trigger] stats_feeding(
                bucket_table_buckets(i)[j],
            ).contains(bucket_table_name(i)),
{
    assert forall|i: int, j: int| 400 <= i < 450 && 0 <= j < bucket_table_buckets(i).len() implies #[trigger] stats_feeding(
        bucket_table_buckets(i)[j],
    ).contains(bucket_table_name(i)) by {
        if i == 400 {
            assert(stats_feeding(StatBucket::BaseManaReservationEfficiencyPrecent)[0] == bucket_table_name(400));
        } else if i == 401 {
            assert(stats_feeding(StatBucket::BaseMaximumSealsForSkill)[0] == bucket_table_name(401));
        } else if i == 402 {
            assert(stats_feeding(StatBucket::BaseMinionDurationPrecent)[0] == bucket_table_name(402));
        } else if i == 403 {
            assert(stats_feeding(StatBucket::BaseNumberOfEssenceSpiritsAllowed)[0] == bucket_table_name(403));
        } else if i == 404 {
            assert(stats_feeding(StatBucket::BaseOnlsaughtOnHitPrecent)[0] == bucket_table_name(404));
        } else if i == 405 {
            assert(stats_feeding(StatBucket::BasePoisonChanceIsBleedChanceInstead)[0] == bucket_table_name(405));
        } else if i == 406 {
            assert(stats_feeding(StatBucket::BaseRageCostEfficiencyPrecent)[0] == bucket_table_name(406));
        } else if i == 407 {
            assert(stats_feeding(StatBucket::BaseReservationEfficiencyPrecent)[0] == bucket_table_name(407));
        } else if i == 408 {
            assert(stats_feeding(StatBucket::BaseSkillCostEfficiencyPrecent)[0] == bucket_table_name(408));
        } else if i == 409 {
            assert(stats_feeding(StatBucket::BaseSpellCooldownSpeedPrecent)[0] == bucket_table_name(409));
        } else if i == 410 {
            assert(stats_feeding(StatBucket::BaseSpellManaCostEfficiencyPrecent)[0] == bucket_table_name(410));
        } else if i == 411 {
            assert(stats_feeding(StatBucket::BaseSpiritReservationEfficiencyPrecent)[0] == bucket_table_name(411));
        } else if i == 412 {
            assert(stats_feeding(StatBucket::BaseThornsCriticalStrikeChance)[0] == bucket_table_name(412));
        } else if i == 413 {
            assert(stats_feeding(StatBucket::BaseUnholyMightGrantedMagnitudePrecent)[0] == bucket_table_name(413));
        } else if i == 414 {
            assert(stats_feeding(StatBucket::BellHitLimit)[0] == bucket_table_name(414));
        } else if i == 415 {
            assert(stats_feeding(StatBucket::BleedChancePrecent)[0] == bucket_table_name(415));
        } else if i == 416 {
            assert(stats_feeding(StatBucket::BlockDamageTakenWhileActiveBlockingPrecent)[0] == bucket_table_name(416));
        } else if i == 417 {
            assert(stats_feeding(StatBucket::BodyArmourPrecent)[0] == bucket_table_name(417));
        } else if i == 418 {
            assert(stats_feeding(StatBucket::BodyArmourEvasionRatingPrecent)[0] == bucket_table_name(418));
        } else if i == 419 {
            assert(stats_feeding(StatBucket::BrokenArmourAndSunderedArmourDebuffEffectPrecent)[0] == bucket_table_name(419));
        } else if i == 420 {
            assert(stats_feeding(StatBucket::CannotBeInflictedByCorruptedBlood)[0] == bucket_table_name(420));
        } else if i == 421 {
            assert(stats_feeding(StatBucket::CannotBePoisoned)[0] == bucket_table_name(421));
        } else if i == 422 {
            assert(stats_feeding(StatBucket::CastSpeedPrecentDuringManaFlaskEffect)[0] == bucket_table_name(422));
        } else if i == 423 {
            assert(stats_feeding(StatBucket::CastSpeedPrecentPerNumUniqueSpellsCastRecently)[0] == bucket_table_name(423));
        } else if i == 424 {
            assert(stats_feeding(StatBucket::CastSpeedPrecentWhenOnFullLife)[0] == bucket_table_name(424));
        } else if i == 425 {
            assert(stats_feeding(StatBucket::CastSpeedPrecentWhenOnLowLife)[0] == bucket_table_name(425));
        } else if i == 426 {
            assert(stats_feeding(StatBucket::CastSpeedPrecentWhileOnFullMana)[0] == bucket_table_name(426));
        } else if i == 427 {
            assert(stats_feeding(StatBucket::ChanceToGainArchonOfNatureOnOvergrowingPlantPrecent)[0] == bucket_table_name(427));
        } else if i == 428 {
            assert(stats_feeding(StatBucket::ChanceToGainArchonOfUndeathWhenYouCreateAnOfferingPrecent)[0] == bucket_table_name(428));
        } else if i == 429 {
            assert(stats_feeding(StatBucket::ChanceToCrushOnHitPrecent)[0] == bucket_table_name(429));
        } else if i == 430 {
            assert(stats_feeding(StatBucket::ChanceToFire1AdditionalProjectileWithRolloverPrecent)[0] == bucket_table_name(430));
        } else if i == 431 {
            assert(stats_feeding(StatBucket::ChanceToGainPowerChargeOnStunPrecent)[0] == bucket_table_name(431));
        } else if i == 432 {
            assert(stats_feeding(StatBucket::ChanceToNotConsumeInfusionPrecentIfLostArchonInPast6Seconds)[0] == bucket_table_name(432));
        } else if i == 433 {
            assert(stats_feeding(StatBucket::ChanceToRetain40PrecentOfGloryOnUsePrecent)[0] == bucket_table_name(433));
        } else if i == 434 {
            assert(stats_feeding(StatBucket::ChaosDamageResistancePrecentPerPoisonStack)[0] == bucket_table_name(434));
        } else if i == 435 {
            assert(stats_feeding(StatBucket::ChaosDamageTakenOverTimePrecent)[0] == bucket_table_name(435));
        } else if i == 436 {
            assert(stats_feeding(StatBucket::ChaosDotMultiplierPrecent)[0] == bucket_table_name(436));
        } else if i == 437 {
            assert(stats_feeding(StatBucket::ChaosResistancePrecentWhileUsingFlask)[0] == bucket_table_name(437));
        } else if i == 438 {
            assert(stats_feeding(StatBucket::ChargeSkipConsumeChancePrecent)[0] == bucket_table_name(438));
        } else if i == 439 {
            assert(stats_feeding(StatBucket::CharmsPrecentChanceToNotConsumeCharges)[0] == bucket_table_name(439));
        } else if i == 440 {
            assert(stats_feeding(StatBucket::ColdDamagePrecentColdInfusionCollectedLast8Seconds)[0] == bucket_table_name(440));
        } else if i == 441 {
            assert(stats_feeding(StatBucket::ColdDamageTakenPrecentGoesToLifeOver4Seconds)[0] == bucket_table_name(441));
        } else if i == 442 {
            assert(stats_feeding(StatBucket::ColdDotMultiplierPrecent)[0] == bucket_table_name(442));
        } else if i == 443 {
            assert(stats_feeding(StatBucket::CompanionAttackSpeedPrecent)[0] == bucket_table_name(443));
        } else if i == 444 {
            assert(stats_feeding(StatBucket::CreatedRemnantsPrecentChanceToDuplicatePickUpResults)[0] == bucket_table_name(444));
        } else if i == 445 {
            assert(stats_feeding(StatBucket::CriticalHitDamageBonusPrecentVsEnemiesWithin2mDistance)[0] == bucket_table_name(445));
        } else if i == 446 {
            assert(stats_feeding(StatBucket::CriticalStrikeChancePrecentVsEnemiesFurtherThan6mDistance)[0] == bucket_table_name(446));
        } else if i == 447 {
            assert(stats_feeding(StatBucket::CriticalStrikeChancePrecentVsMarkedEnemies)[0] == bucket_table_name(447));
        } else if i == 448 {
            assert(stats_feeding(StatBucket::CurseEffectOnSelfPrecent)[0] == bucket_table_name(448));
        } else if i == 449 {
            assert(stats_feeding(StatBucket::DamagePrecentAgainstEnemiesMarkedByYou)[0] == bucket_table_name(449));
        }
    }
}

proof fn lemma_rows_listed_450()
    ensures
        forall|i: int, j: int|
            450 <= i < 500 && 0 <= j < bucket_table_buckets(i).len() ==> #[trigger] stats_feeding(
                bucket_table_buckets(i)[j],
            ).contains(bucket_table_name(i)),
{
    assert forall|i: int, j: int| 450 <= i < 500 && 0 <= j < bucket_table_buckets(i).len() implies #[trigger] stats_feeding(
        bucket_table_buckets(i)[j],
    ).contains(bucket_table_name(i)) by {
        if i == 450 {
            assert(stats_feeding(StatBucket::DamagePrecentPerPoisonUpTo75)[0] == bucket_table_name(450));
        } else if i == 451 {
            assert(stats_feeding(StatBucket::DamagePrecentVsImmobilisedEnemies)[0] == bucket_table_name(451));
        } else if i == 452 {
            assert(stats_feeding(StatBucket::DamagePrecentWhileInPresenceOfCompanion)[0] == bucket_table_name(452));
        } else if i == 453 {
            assert(stats_feeding(StatBucket::DamagePrecentWhileLeeching)[0] == bucket_table_name(453));
        } else if i == 454 {
            assert(stats_feeding(StatBucket::DamagePrecentWhileTotemActive)[0] == bucket_table_name(454));
        } else if i == 455 {
            assert(stats_feeding(StatBucket::DamageRemovedFromSpectresBeforeLifeOrEsPrecent)[0] == bucket_table_name(455));
        } else if i == 456 {
            assert(stats_feeding(StatBucket::DamageTakenGoesToLifeManaEsOver4SecondsPrecent)[0] == bucket_table_name(456));
        } else if i == 457 {
            assert(stats_feeding(StatBucket::DamageVsCursedEnemiesPerEnemyCursePrecent)[0] == bucket_table_name(457));
        } else if i == 458 {
            assert(stats_feeding(StatBucket::Deal1000ChaosDamagePerSecondFor10SecondsOnHit)[0] == bucket_table_name(458));
        } else if i == 459 {
            assert(stats_feeding(StatBucket::DeflectedHitDamageTakenPrecentRecoupedAsLife)[0] == bucket_table_name(459));
        } else if i == 460 {
            assert(stats_feeding(StatBucket::DeflectionRatingPrecent)[0] == bucket_table_name(460));
        } else if i == 461 {
            assert(stats_feeding(StatBucket::DexterityAndIntelligencePrecent)[0] == bucket_table_name(461));
        } else if i == 462 {
            assert(stats_feeding(StatBucket::DodgeRollBaseTravelDistance)[0] == bucket_table_name(462));
        } else if i == 463 {
            assert(stats_feeding(StatBucket::DummyStatDisplayNothing)[0] == bucket_table_name(463));
        } else if i == 464 {
            assert(stats_feeding(StatBucket::ElementalAilmentTypesApplyDamageTakenPrecent)[0] == bucket_table_name(464));
        } else if i == 465 {
            assert(stats_feeding(StatBucket::ElementalPenetrationPrecentDuringFlaskEffect)[0] == bucket_table_name(465));
        } else if i == 466 {
            assert(stats_feeding(StatBucket::ElementalSkillLimitPrecent)[0] == bucket_table_name(466));
        } else if i == 467 {
            assert(stats_feeding(StatBucket::EnemiesChaosResistancePrecentWhileCursed)[0] == bucket_table_name(467));
        } else if i == 468 {
            assert(stats_feeding(StatBucket::EnemiesChanceExplodeOnKill)[0] == bucket_table_name(468));
        } else if i == 469 {
            assert(stats_feeding(StatBucket::EnergyShieldRechargeRatePrecentIfBlockedRecently)[0] == bucket_table_name(469));
        } else if i == 470 {
            assert(stats_feeding(StatBucket::EssenceAbyssGuaranteedPick)[0] == bucket_table_name(470));
        } else if i == 471 {
            assert(stats_feeding(StatBucket::EssenceBuffElementalDamageTakenPrecent)[0] == bucket_table_name(471));
        } else if i == 472 {
            assert(stats_feeding(StatBucket::EssenceDisplayElementalDamageTakenWhileNotMovingPrecent)[0] == bucket_table_name(472));
        } else if i == 473 {
            assert(stats_feeding(StatBucket::EvasionRatingPrecent)[0] == bucket_table_name(473));
        } else if i == 474 {
            assert(stats_feeding(StatBucket::EvasionRatingPrecentWhileLeeching)[0] == bucket_table_name(474));
        } else if i == 475 {
            assert(stats_feeding(StatBucket::ExplodeBurningEnemiesFor10LifeAsFireOnKillChancePrecent)[0] == bucket_table_name(475));
        } else if i == 476 {
            assert(stats_feeding(StatBucket::ExplodeEnemiesFor10LifeAsPhysicalOnKillChancePrecent)[0] == bucket_table_name(476));
        } else if i == 477 {
            assert(stats_feeding(StatBucket::ExplodeEnemiesFor25LifeAsChaosOnKillChancePrecent)[0] == bucket_table_name(477));
        } else if i == 478 {
            assert(stats_feeding(StatBucket::ExposureEffectPrecent)[0] == bucket_table_name(478));
        } else if i == 479 {
            assert(stats_feeding(StatBucket::FireDamagePrecentIfFireInfusionCollectedLast8Seconds)[0] == bucket_table_name(479));
        } else if i == 480 {
            assert(stats_feeding(StatBucket::FireDamageTakenGoesToLifeOver4SecondsPrecent)[0] == bucket_table_name(480));
        } else if i == 481 {
            assert(stats_feeding(StatBucket::FireDotMultiplierPrecent)[0] == bucket_table_name(481));
        } else if i == 482 {
            assert(stats_feeding(StatBucket::FireSpellAdditionalCriticalStrikeChancePerMyriad)[0] == bucket_table_name(482));
        } else if i == 483 {
            assert(stats_feeding(StatBucket::FishQuantityPrecent)[0] == bucket_table_name(483));
        } else if i == 484 {
            assert(stats_feeding(StatBucket::FishRarityPrecent)[0] == bucket_table_name(484));
        } else if i == 485 {
            assert(stats_feeding(StatBucket::FishingHookType)[0] == bucket_table_name(485));
        } else if i == 486 {
            assert(stats_feeding(StatBucket::FishingLineStrengthPrecent)[0] == bucket_table_name(486));
        } else if i == 487 {
            assert(stats_feeding(StatBucket::FishingLureType)[0] == bucket_table_name(487));
        } else if i == 488 {
            assert(stats_feeding(StatBucket::FishingPoolConsumptionPrecent)[0] == bucket_table_name(488));
        } else if i == 489 {
            assert(stats_feeding(StatBucket::FishingRangePrecent)[0] == bucket_table_name(489));
        } else if i == 490 {
            assert(stats_feeding(StatBucket::FlasksPrecentChanceToNotConsumeCharges)[0] == bucket_table_name(490));
        } else if i == 491 {
            assert(stats_feeding(StatBucket::FullyBreakEnemiesArmourOnHeavyStunWithShieldSkills)[0] == bucket_table_name(491));
        } else if i == 492 {
            assert(stats_feeding(StatBucket::GainAlchemistsGeniusOnFlaskUsePrecent)[0] == bucket_table_name(492));
        } else if i == 493 {
            assert(stats_feeding(StatBucket::GainArcaneSurgeOnCritPrecent)[0] == bucket_table_name(493));
        } else if i == 494 {
            assert(stats_feeding(StatBucket::GainOnslaughtFor3SecondsPrecent)[0] == bucket_table_name(494));
        } else if i == 495 {
            assert(stats_feeding(StatBucket::GlobalArmourEvasionEnergyShieldPrecent)[0] == bucket_table_name(495));
        } else if i == 496 {
            assert(stats_feeding(StatBucket::GlobalItemAttributeReducedRequirementsPrecent)[0] == bucket_table_name(496));
        } else if i == 497 {
            assert(stats_feeding(StatBucket::GloryGenerationPrecent)[0] == bucket_table_name(497));
        } else if i == 498 {
            assert(stats_feeding(StatBucket::GrenadeSkillPrecentChanceToExplodeTwice)[0] == bucket_table_name(498));
        } else if i == 499 {
            assert(stats_feeding(StatBucket::GrenadeSkillDamagePrecent)[0] == bucket_table_name(499));
        }
    }
}

proof fn lemma_rows_listed_500()
    ensures
        forall|i: int, j: int|
            500 <= i < 549 && 0 <= j < bucket_table_buckets(i).len() ==> #[trigger] stats_feeding(
                bucket_table_buckets(i)[j],
            ).contains(bucket_table_name(i)),
{
    assert forall|i: int, j: int| 500 <= i < 549 && 0 <= j < bucket_table_buckets(i).len() implies #[trigger] stats_feeding(
        bucket_table_buckets(i)[j],
    ).contains(bucket_table_name(i)) by {
        if i == 500 {
            assert(stats_feeding(StatBucket::GrenadeSkillDurationPrecent)[0] == bucket_table_name(500));
        } else if i == 501 {
            assert(stats_feeding(StatBucket::HandWrapsAttackDamagePrecentFinalOnLowMana)[0] == bucket_table_name(501));
        } else if i == 502 {
            assert(stats_feeding(StatBucket::HandWrapsDamageTakenPrecentFinalOnLowLife)[0] == bucket_table_name(502));
        } else if i == 503 {
            assert(stats_feeding(StatBucket::HandWrapsMoreGlobalEvasionEnergyShield)[0] == bucket_table_name(503));
        } else if i == 504 {
            assert(stats_feeding(StatBucket::GrantsGraveCommandSkill)[0] == bucket_table_name(504));
        } else if i == 505 {
            assert(stats_feeding(StatBucket::HaveUnholyMight)[0] == bucket_table_name(505));
        } else if i == 506 {
            assert(stats_feeding(StatBucket::HeavyStunPoiseDecayRatePrecent)[0] == bucket_table_name(506));
        } else if i == 507 {
            assert(stats_feeding(StatBucket::HinderEnemyChaosDamageTakenPrecent)[0] == bucket_table_name(507));
        } else if i == 508 {
            assert(stats_feeding(StatBucket::HinderEnemyElementalDamageTakenPrecent)[0] == bucket_table_name(508));
        } else if i == 509 {
            assert(stats_feeding(StatBucket::HinderEnemyPhysicalDamageTakenPrecent)[0] == bucket_table_name(509));
        } else if i == 510 {
            assert(stats_feeding(StatBucket::HitDamageFreezeMultiplierPrecentIfConsumedPowerChargeRecently)[0] == bucket_table_name(510));
        } else if i == 511 {
            assert(stats_feeding(StatBucket::HitDamageImmobilisationMultiplierPrecent)[0] == bucket_table_name(511));
        } else if i == 512 {
            assert(stats_feeding(StatBucket::IgniteEffectPrecentIfConsumedEnduranceChargeRecently)[0] == bucket_table_name(512));
        } else if i == 513 {
            assert(stats_feeding(StatBucket::InvocationSkillMaximumEnergyPrecent)[0] == bucket_table_name(513));
        } else if i == 514 {
            assert(stats_feeding(StatBucket::InvocationSpellChanceToCostHalfEnergyPrecent)[0] == bucket_table_name(514));
        } else if i == 515 {
            assert(stats_feeding(StatBucket::InvocationSpellDamagePrecent)[0] == bucket_table_name(515));
        } else if i == 516 {
            assert(stats_feeding(StatBucket::LeechPrecentIsInstant)[0] == bucket_table_name(516));
        } else if i == 517 {
            assert(stats_feeding(StatBucket::LifeGainedOnAttackHitIfCritRecently)[0] == bucket_table_name(517));
        } else if i == 518 {
            assert(stats_feeding(StatBucket::LifeGainedOnAttackHitVsCursedEnemies)[0] == bucket_table_name(518));
        } else if i == 519 {
            assert(stats_feeding(StatBucket::LifeLeechCanOvercapLife)[0] == bucket_table_name(519));
        } else if i == 520 {
            assert(stats_feeding(StatBucket::LifeRegenerationPerMinutePrecentWhileFrozen)[0] == bucket_table_name(520));
        } else if i == 521 {
            assert(stats_feeding(StatBucket::LifeRegenerationRatePrecentWhileMoving)[0] == bucket_table_name(521));
        } else if i == 522 {
            assert(stats_feeding(StatBucket::LifeRegenerationRatePrecentWhileUsingLifeFlask)[0] == bucket_table_name(522));
        } else if i == 523 {
            assert(stats_feeding(StatBucket::LightningDamagePrecentIfLightningInfusionCollectedLast8Seconds)[0] == bucket_table_name(523));
        } else if i == 524 {
            assert(stats_feeding(StatBucket::LightningDamageCanIgnite)[0] == bucket_table_name(524));
        } else if i == 525 {
            assert(stats_feeding(StatBucket::LightningDamageTakenGoesToLifeOver4SecondsPrecent)[0] == bucket_table_name(525));
        } else if i == 526 {
            assert(stats_feeding(StatBucket::ManaPrecentGainedOnBlock)[0] == bucket_table_name(526));
        } else if i == 527 {
            assert(stats_feeding(StatBucket::ManaPrecentToGainAsArmour)[0] == bucket_table_name(527));
        } else if i == 528 {
            assert(stats_feeding(StatBucket::ManaCostEfficiencyPrecentIfDodgeRolledRecently)[0] == bucket_table_name(528));
        } else if i == 529 {
            assert(stats_feeding(StatBucket::ManaGainedOnAttackHitVsCursedEnemies)[0] == bucket_table_name(529));
        } else if i == 530 {
            assert(stats_feeding(StatBucket::ManaRegenerationRatePrecentWhileShocked)[0] == bucket_table_name(530));
        } else if i == 531 {
            assert(stats_feeding(StatBucket::ManaRegenerationRatePrecentWhileStationary)[0] == bucket_table_name(531));
        } else if i == 532 {
            assert(stats_feeding(StatBucket::ManaReservationEfficiencyPrecentPer1)[0] == bucket_table_name(532));
        } else if i == 533 {
            assert(stats_feeding(StatBucket::MarkSkillGemLevels)[0] == bucket_table_name(533));
        } else if i == 534 {
            assert(stats_feeding(StatBucket::MarkedEnemyTakesIncreasedDamage)[0] == bucket_table_name(534));
        } else if i == 535 {
            assert(stats_feeding(StatBucket::MaxFortificationPer5)[0] == bucket_table_name(535));
        } else if i == 536 {
            assert(stats_feeding(StatBucket::MaxPuppetMasterStacksPer5)[0] == bucket_table_name(536));
        } else if i == 537 {
            assert(stats_feeding(StatBucket::MaximumAddedColdDamagePerFrenzyCharge)[0] == bucket_table_name(537));
        } else if i == 538 {
            assert(stats_feeding(StatBucket::MaximumAddedFireDamageIfBlockedRecently)[0] == bucket_table_name(538));
        } else if i == 539 {
            assert(stats_feeding(StatBucket::MaximumEnergyShieldFromBodyArmourPrecent)[0] == bucket_table_name(539));
        } else if i == 540 {
            assert(stats_feeding(StatBucket::MaximumWardPrecent)[0] == bucket_table_name(540));
        } else if i == 541 {
            assert(stats_feeding(StatBucket::MeleeAttackSkillsAdditionalTotemsAllowed)[0] == bucket_table_name(541));
        } else if i == 542 {
            assert(stats_feeding(StatBucket::MeleeAttacksNumberOfAdditionalProjectiles)[0] == bucket_table_name(542));
        } else if i == 543 {
            assert(stats_feeding(StatBucket::MinimumAddedColdDamagePerFrenzyCharge)[0] == bucket_table_name(543));
        } else if i == 544 {
            assert(stats_feeding(StatBucket::MinimumAddedFireDamageIfBlockedRecently)[0] == bucket_table_name(544));
        } else if i == 545 {
            assert(stats_feeding(StatBucket::MinionAreaOfEffectPrecent)[0] == bucket_table_name(545));
        } else if i == 546 {
            assert(stats_feeding(StatBucket::MinionArmourBreakPhysicalDamagePrecent)[0] == bucket_table_name(546));
        } else if i == 547 {
            assert(stats_feeding(StatBucket::MinionBaseDamagingAilmentEffectPrecent)[0] == bucket_table_name(547));
        } else if i == 548 {
            assert(stats_feeding(StatBucket::MinionChanceToFire1AdditionalProjectilePrecent)[0] == bucket_table_name(548));
        }
    }
}

/// Every row's stat identifier is listed among those feeding each bucket
/// the row feeds: the table sends a stat to no bucket that the stat does
/// not feed.
pub proof fn law_bucket_rows_listed_by_bucket(i: int, j: int)
    requires
        0 <= i < bucket_table_len(),
        0 <= j < bucket_table_buckets(i).len(),
    ensures
        stats_feeding(bucket_table_buckets(i)[j]).contains(bucket_table_name(i)),
{
    lemma_rows_listed_0();
    lemma_rows_listed_50();
    lemma_rows_listed_100();
    lemma_rows_listed_150();
    lemma_rows_listed_200();
    lemma_rows_listed_250();
    lemma_rows_listed_300();
    lemma_rows_listed_350();
    lemma_rows_listed_400();
    lemma_rows_listed_450();
    lemma_rows_listed_500();
}

} // verus!
