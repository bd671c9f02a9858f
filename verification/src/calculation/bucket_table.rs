//! Which final-stat buckets each stat identifier feeds.

use vstd::prelude::*;

use crate::item::state::StatBucket;

verus! {

/// The number of rows of the bucket table.
pub open spec fn bucket_table_len() -> int {
    549
}

/// The buckets of row `i` of the bucket table.
pub open spec fn bucket_table_buckets(i: int) -> Seq<StatBucket> {
    if i == 0 {
        seq![StatBucket::StrengthPercent]
    } else if i == 1 {
        seq![StatBucket::DexterityPercent]
    } else if i == 2 {
        seq![StatBucket::IntelligencePercent]
    } else if i == 3 {
        seq![StatBucket::Life]
    } else if i == 4 {
        seq![StatBucket::Ward]
    } else if i == 5 {
        seq![StatBucket::LifePercent]
    } else if i == 6 {
        seq![StatBucket::Mana]
    } else if i == 7 {
        seq![StatBucket::ManaPercent]
    } else if i == 8 {
        seq![StatBucket::ChaosDamagePercent]
    } else if i == 9 {
        seq![StatBucket::Strength]
    } else if i == 10 {
        seq![StatBucket::Dexterity]
    } else if i == 11 {
        seq![StatBucket::Intelligence]
    } else if i == 12 {
        seq![StatBucket::Strength, StatBucket::Intelligence]
    } else if i == 13 {
        seq![StatBucket::Strength, StatBucket::Dexterity]
    } else if i == 14 {
        seq![StatBucket::Strength, StatBucket::Dexterity, StatBucket::Intelligence]
    } else if i == 15 {
        seq![StatBucket::FireResistance]
    } else if i == 16 {
        seq![StatBucket::ColdResistance]
    } else if i == 17 {
        seq![StatBucket::LightningResistance]
    } else if i == 18 {
        seq![StatBucket::ChaosResistance]
    } else if i == 19 {
        seq![StatBucket::FireResistance, StatBucket::ColdResistance, StatBucket::LightningResistance, StatBucket::ChaosResistance]
    } else if i == 20 {
        seq![StatBucket::Armour]
    } else if i == 21 {
        seq![StatBucket::Evasion]
    } else if i == 22 {
        seq![StatBucket::EnergyShield]
    } else if i == 23 {
        seq![StatBucket::ArmourPercent]
    } else if i == 24 {
        seq![StatBucket::MaximumEnergyShieldPercent]
    } else if i == 25 {
        seq![StatBucket::StunThreshold]
    } else if i == 26 {
        seq![StatBucket::MovementSpeedPercent]
    } else if i == 27 {
        seq![StatBucket::ThornsPhysicalMin]
    } else if i == 28 {
        seq![StatBucket::ThornsPhysicalMax]
    } else if i == 29 {
        seq![StatBucket::GlobalAttackPhysicalMin]
    } else if i == 30 {
        seq![StatBucket::GlobalAttackPhysicalMax]
    } else if i == 31 {
        seq![StatBucket::GlobalAttackFireMin]
    } else if i == 32 {
        seq![StatBucket::GlobalAttackFireMax]
    } else if i == 33 {
        seq![StatBucket::GlobalAttackColdMin]
    } else if i == 34 {
        seq![StatBucket::GlobalAttackColdMax]
    } else if i == 35 {
        seq![StatBucket::GlobalAttackLightningMin]
    } else if i == 36 {
        seq![StatBucket::GlobalAttackLightningMax]
    } else if i == 37 {
        seq![StatBucket::AttackDamageIncreasePrecent]
    } else if i == 38 {
        seq![StatBucket::AlliesInPresenceAttackPhysicalMin]
    } else if i == 39 {
        seq![StatBucket::AlliesInPresenceAttackPhysicalMax]
    } else if i == 40 {
        seq![StatBucket::AlliesInPresenceAttackFireMin]
    } else if i == 41 {
        seq![StatBucket::AlliesInPresenceAttackFireMax]
    } else if i == 42 {
        seq![StatBucket::AlliesInPresenceAttackColdMin]
    } else if i == 43 {
        seq![StatBucket::AlliesInPresenceAttackColdMax]
    } else if i == 44 {
        seq![StatBucket::AlliesInPresenceAttackLightningMin]
    } else if i == 45 {
        seq![StatBucket::AlliesInPresenceAttackLightningMax]
    } else if i == 46 {
        seq![StatBucket::AlliesInPresenceAttackChaosMin]
    } else if i == 47 {
        seq![StatBucket::AlliesInPresenceAttackChaosMax]
    } else if i == 48 {
        seq![StatBucket::AlliesInPresenceDamageIncreasePrecent]
    } else if i == 49 {
        seq![StatBucket::AlliesInPresenceAttackSpeedIncreasePrecent]
    } else if i == 50 {
        seq![StatBucket::AlliesInPresenceAccuracyRating]
    } else if i == 51 {
        seq![StatBucket::AccuracyRating]
    } else if i == 52 {
        seq![StatBucket::AccuracyRating]
    } else if i == 53 {
        seq![StatBucket::AccuracyRatingPercent]
    } else if i == 54 {
        seq![StatBucket::ChanceToNotConsumeExertedAttack]
    } else if i == 55 {
        seq![StatBucket::SpellDamageIncreasePrecent]
    } else if i == 56 {
        seq![StatBucket::FireDamageIncreasePrecent]
    } else if i == 57 {
        seq![StatBucket::ColdDamageIncreasePrecent]
    } else if i == 58 {
        seq![StatBucket::LightningDamageIncreasePrecent]
    } else if i == 59 {
        seq![StatBucket::ChaosDamageIncreasePrecent]
    } else if i == 60 {
        seq![StatBucket::PhysicalDamageIncreasePrecent]
    } else if i == 61 {
        seq![StatBucket::SpellPhysicalDamageIncreasePrecent]
    } else if i == 62 {
        seq![StatBucket::TrapDamageIncreasePrecent]
    } else if i == 63 {
        seq![StatBucket::SpellSkillGemLevelIncrease]
    } else if i == 64 {
        seq![StatBucket::FireSpellSkillGemLevelIncrease]
    } else if i == 65 {
        seq![StatBucket::ColdSpellSkillGemLevelIncrease]
    } else if i == 66 {
        seq![StatBucket::LightningSpellSkillGemLevelIncrease]
    } else if i == 67 {
        seq![StatBucket::ChaosSpellSkillGemLevelIncrease]
    } else if i == 68 {
        seq![StatBucket::PhysicalSpellSkillGemLevelIncrease]
    } else if i == 69 {
        seq![StatBucket::MinionSkillGemLevelIncrease]
    } else if i == 70 {
        seq![StatBucket::TrapSkillGemLevelIncrease]
    } else if i == 71 {
        seq![StatBucket::MeleeSkillGemLevelIncrease]
    } else if i == 72 {
        seq![StatBucket::ProjectileSkillGemLevelIncrease]
    } else if i == 73 {
        seq![StatBucket::LiferRegenPerMinute]
    } else if i == 74 {
        seq![StatBucket::LifeRegenPerMinutePercent]
    } else if i == 75 {
        seq![StatBucket::AlliesInPresenceLifeRegenPerMinute]
    } else if i == 76 {
        seq![StatBucket::ManaRegenerationRatePercent]
    } else if i == 77 {
        seq![StatBucket::BaseLifeLeechFromPhysicalAttackDamage]
    } else if i == 78 {
        seq![StatBucket::BaseManaLeechFromPhysicalAttackDamage]
    } else if i == 79 {
        seq![StatBucket::BaseLifeGainedOnEnemyDeath]
    } else if i == 80 {
        seq![StatBucket::BaseManaGainedOnEnemyDeath]
    } else if i == 81 {
        seq![StatBucket::BaseLifeGainedOnEnemyHit]
    } else if i == 82 {
        seq![StatBucket::BaseManaGainedOnEnemyHit]
    } else if i == 83 {
        seq![StatBucket::AttackSpeedPercent]
    } else if i == 84 {
        seq![StatBucket::BaseCastSpeedIncreasePrecent]
    } else if i == 85 {
        seq![StatBucket::AlliesInPresenceCastSpeedIncreasePrecent]
    } else if i == 86 {
        seq![StatBucket::TrapThrowingSpeedIncreasePrecent]
    } else if i == 87 {
        seq![StatBucket::CriticalStrikeChanceIncreasePrecent]
    } else if i == 88 {
        seq![StatBucket::SpellCriticalStrikeChanceIncreasePrecent]
    } else if i == 89 {
        seq![StatBucket::AttackCriticalStrikeChanceIncreasePrecent]
    } else if i == 90 {
        seq![StatBucket::TrapCriticalStrikeChanceIncreasePrecent]
    } else if i == 91 {
        seq![StatBucket::AlliesInPresenceCriticalStrikeChanceIncreasePrecent]
    } else if i == 92 {
        seq![StatBucket::BaseCriticalStrikeMultiplierIncreasePrecent]
    } else if i == 93 {
        seq![StatBucket::BaseSpellCriticalStrikeMultiplierIncreasePrecent]
    } else if i == 94 {
        seq![StatBucket::AttackCriticalStrikeMultiplierIncrease]
    } else if i == 95 {
        seq![StatBucket::TrapCriticalStrikeMultiplierIncrease]
    } else if i == 96 {
        seq![StatBucket::AlliesInPresenceCriticalStrikeMultiplierIncrease]
    } else if i == 97 {
        seq![StatBucket::BaseItemFoundRarityIncreasePrecent]
    } else if i == 98 {
        seq![StatBucket::LightRadiusIncreasePrecent]
    } else if i == 99 {
        seq![StatBucket::Spirit]
    } else if i == 100 {
        seq![StatBucket::Spirit]
    } else if i == 101 {
        seq![StatBucket::SelfBleedDurationDecreasePrecent]
    } else if i == 102 {
        seq![StatBucket::SelfPoisonDurationDecreasePrecent]
    } else if i == 103 {
        seq![StatBucket::BaseIgniteDurationDecreasePrecent]
    } else if i == 104 {
        seq![StatBucket::BaseSelfShockDurationDecreasePrecent]
    } else if i == 105 {
        seq![StatBucket::BaseSelfChillDurationDecreasePrecent]
    } else if i == 106 {
        seq![StatBucket::BaseSelfFreezeDurationDecreasePrecent]
    } else if i == 107 {
        seq![StatBucket::ReduceCriticalStrikeMultiplierToSelf]
    } else if i == 108 {
        seq![StatBucket::PhysicalDamageReductionPrecent]
    } else if i == 109 {
        seq![StatBucket::FireResistanceMax]
    } else if i == 110 {
        seq![StatBucket::ColdResistanceMax]
    } else if i == 111 {
        seq![StatBucket::LightningResistanceMax]
    } else if i == 112 {
        seq![StatBucket::ChaosResistanceMax]
    } else if i == 113 {
        seq![StatBucket::AllElementalResistanceMax]
    } else if i == 114 {
        seq![StatBucket::EnergyShieldRechargeRateIncreasePrecent]
    } else if i == 115 {
        seq![StatBucket::EnergyShieldDelayDecreasePrecent]
    } else if i == 116 {
        seq![StatBucket::ArmourAppliesToElementalDamage]
    } else if i == 117 {
        seq![StatBucket::ArmourPercentAppliesToChaosDamage]
    } else if i == 118 {
        seq![StatBucket::BaseDeflectionRatingPercentOfArmour]
    } else if i == 119 {
        seq![StatBucket::EvasionAppliesToDeflection]
    } else if i == 120 {
        seq![StatBucket::DeflectDamageTaken]
    } else if i == 121 {
        seq![StatBucket::PercentEvasionRatingAsExtraArmour]
    } else if i == 122 {
        seq![StatBucket::BaseChanceToPierce]
    } else if i == 123 {
        seq![StatBucket::BaseNumberOfCrossbowBolts]
    } else if i == 124 {
        seq![StatBucket::FlaskLifeRecoveryRateIncreasePrecent]
    } else if i == 125 {
        seq![StatBucket::FlaskManaRecoveryRateIncreasePrecent]
    } else if i == 126 {
        seq![StatBucket::CharmDurationIncreasePrecent]
    } else if i == 127 {
        seq![StatBucket::FlaskChargesGainedIncreasePrecent]
    } else if i == 128 {
        seq![StatBucket::FlaskDurationIncreasePrecent]
    } else if i == 129 {
        seq![StatBucket::FlaskChargesReducedUsedIncreasePrecent]
    } else if i == 130 {
        seq![StatBucket::CharmChargesGainedIncreasePrecent]
    } else if i == 131 {
        seq![StatBucket::CharmChargesReducedUsedIncreasePrecent]
    } else if i == 132 {
        seq![StatBucket::IgniteChanceIncreasePrecent]
    } else if i == 133 {
        seq![StatBucket::DamageWhileUsingCharmIncreasePrecent]
    } else if i == 134 {
        seq![StatBucket::HitDamageFreezeMultiplierIncreasePrecent]
    } else if i == 135 {
        seq![StatBucket::ShockChanceIncreasePrecent]
    } else if i == 136 {
        seq![StatBucket::ShockDurationIncreasePrecent]
    } else if i == 137 {
        seq![StatBucket::BaseProjectileSpeedIncreasePrecent]
    } else if i == 138 {
        seq![StatBucket::DamageTakenGoesToLifeOver4Seconds]
    } else if i == 139 {
        seq![StatBucket::DamageTakenGoesToMana]
    } else if i == 140 {
        seq![StatBucket::ElementalDamageWithAttackSkillsIncreasePrecent]
    } else if i == 141 {
        seq![StatBucket::NonSkillBaseAllDamageToGainAsFire]
    } else if i == 142 {
        seq![StatBucket::NonSkillBaseAllDamageToGainAsCold]
    } else if i == 143 {
        seq![StatBucket::NonSkillBaseAllDamageToGainAsLightning]
    } else if i == 144 {
        seq![StatBucket::NonSkillBaseAllDamageToGainAsChaos]
    } else if i == 145 {
        seq![StatBucket::DamageWithBowSkillsIncreasePrecent]
    } else if i == 146 {
        seq![StatBucket::PresenceAreaIncreasePrecent]
    } else if i == 147 {
        seq![StatBucket::MinionMaximumLifeIncreasePrecent]
    } else if i == 148 {
        seq![StatBucket::MinionAdditionalPhysicalDamageReductionIncreasePrecent]
    } else if i == 149 {
        seq![StatBucket::MinionFireResistance, StatBucket::MinionColdResistance, StatBucket::MinionLightningResistance, StatBucket::MinionChaosResistance]
    } else if i == 150 {
        seq![StatBucket::MinionResummonSpeedIncreasePrecent]
    } else if i == 151 {
        seq![StatBucket::TrapTriggerRadiusIncreasePrecent]
    } else if i == 152 {
        seq![StatBucket::CharmRecoverXLifeWhenUsed]
    } else if i == 153 {
        seq![StatBucket::CharmRecoverXManaWhenUsed]
    } else if i == 154 {
        seq![StatBucket::CharmGainXGuardForDuration]
    } else if i == 155 {
        seq![StatBucket::HitDamageStunMultiplierIncreasePrecent]
    } else if i == 156 {
        seq![StatBucket::ChanceToPoisonOnHitWithAttacks]
    } else if i == 157 {
        seq![StatBucket::ChanceBleedOnHitWithAttacks]
    } else if i == 158 {
        seq![StatBucket::BaseArrowSpeedIncreasePrecent]
    } else if i == 159 {
        seq![StatBucket::AllElementalResistanceMax]
    } else if i == 160 {
        seq![StatBucket::FireResistance, StatBucket::ColdResistance]
    } else if i == 161 {
        seq![StatBucket::FireResistance, StatBucket::LightningResistance]
    } else if i == 162 {
        seq![StatBucket::ColdResistance, StatBucket::LightningResistance]
    } else if i == 163 {
        seq![StatBucket::FireResistance, StatBucket::ChaosResistance]
    } else if i == 164 {
        seq![StatBucket::ColdResistance, StatBucket::ChaosResistance]
    } else if i == 165 {
        seq![StatBucket::LightningResistance, StatBucket::ChaosResistance]
    } else if i == 166 {
        seq![StatBucket::FlaskLifeRecoveryRateIncreasePrecent]
    } else if i == 167 {
        seq![StatBucket::LifeFlaskChargesGainedIncreasePrecent]
    } else if i == 168 {
        seq![StatBucket::FlaskManaRecoveryRateIncreasePrecent]
    } else if i == 169 {
        seq![StatBucket::ManaFlaskChargesGainedIncreasePrecent]
    } else if i == 170 {
        seq![StatBucket::StunThresholdPercent]
    } else if i == 171 {
        seq![StatBucket::FlaskRecoveryAmountPercentToRecoverInstantly]
    } else if i == 172 {
        seq![StatBucket::GenerateXChargesForAnyFlaskPerMinute]
    } else if i == 173 {
        seq![StatBucket::MaximumManaGainedOnKillPercent]
    } else if i == 174 {
        seq![StatBucket::BaseManaLeechAmountIncreasePrecent]
    } else if i == 175 {
        seq![StatBucket::AilmentThresholdPercent]
    } else if i == 176 {
        seq![StatBucket::AilmentThresholdFlat]
    } else if i == 177 {
        seq![StatBucket::BaseSlowPotencyPercent]
    } else if i == 178 {
        seq![StatBucket::SpearAttackSpeedIncreasePrecent]
    } else if i == 179 {
        seq![StatBucket::SpearCriticalStrikeMultiplierIncreasePrecent]
    } else if i == 180 {
        seq![StatBucket::SpearDamageIncreasePrecent]
    } else if i == 181 {
        seq![StatBucket::StunThresholdFromMaximumEnergyShieldPercent]
    } else if i == 182 {
        seq![StatBucket::AilmentThresholdFromMaximumEnergyShieldPercent]
    } else if i == 183 {
        seq![StatBucket::StunThresholdWhenNotStunnedRecentlyPercent]
    } else if i == 184 {
        seq![StatBucket::SwordDamageIncreasePrecent]
    } else if i == 185 {
        seq![StatBucket::ThornsDamageIncreasePrecent]
    } else if i == 186 {
        seq![StatBucket::TotemDamageIncreasePrecent]
    } else if i == 187 {
        seq![StatBucket::TrapDamageIncreasePrecent]
    } else if i == 188 {
        seq![StatBucket::SummonTotemCastSpeedIncreasePrecent]
    } else if i == 189 {
        seq![StatBucket::TotemLifeIncreasePrecent]
    } else if i == 190 {
        seq![StatBucket::SwordAttackSpeedIncreasePrecent]
    } else if i == 191 {
        seq![StatBucket::BaseBleedingEffectPercent]
    } else if i == 192 {
        seq![StatBucket::MovementSpeedPenaltyReductionPercent]
    } else if i == 193 {
        seq![StatBucket::BaseDamageRemovedFromManaBeforeLifePercent]
    } else if i == 194 {
        seq![StatBucket::SelfStatusAilmentDurationReductionPercent]
    } else if i == 195 {
        seq![StatBucket::CorruptedSkillGemLevelIncrease]
    } else if i == 196 {
        seq![StatBucket::AllSkillGemLevelIncrease]
    } else if i == 197 {
        seq![StatBucket::WardRegenerationRateIncreasePrecent]
    } else if i == 198 {
        seq![StatBucket::BaseIgniteIncereasedMagnitudePrecent]
    } else if i == 199 {
        seq![StatBucket::BaseDamageTakenIncreasePrecent]
    } else if i == 200 {
        seq![StatBucket::IncreaseEvasionPercentArmourPercentEnergyShieldPercentFromShield]
    } else if i == 201 {
        seq![StatBucket::StrikesDealMeleeSplash]
    } else if i == 202 {
        seq![StatBucket::WarCryEmpowersNextXMeleeAttacks]
    } else if i == 203 {
        seq![StatBucket::MinionDamageIncreasePrecent]
    } else if i == 204 {
        seq![StatBucket::GainXRageOnMeleeHit]
    } else if i == 205 {
        seq![StatBucket::GainXRageWhenGetByEnemyHit]
    } else if i == 206 {
        seq![StatBucket::ShockEffectIncreasePrecent]
    } else if i == 207 {
        seq![StatBucket::MaximumRage]
    } else if i == 208 {
        seq![StatBucket::MinionAccuracyRatingIncreasePrecent]
    } else if i == 209 {
        seq![StatBucket::MinionSkillAreaOfEffectIncreasePrecent]
    } else if i == 210 {
        seq![StatBucket::MinionChaosResistanceIncreasePrecent]
    } else if i == 211 {
        seq![StatBucket::MinionCriticalStrikeChanceIncreasePrecent]
    } else if i == 212 {
        seq![StatBucket::MinionCriticalStrikeMultiplierIncreasePrecent]
    } else if i == 213 {
        seq![StatBucket::MinionAttackAndCastSpeedIncreasePrecent]
    } else if i == 214 {
        seq![StatBucket::MeleeDamageIncreasePrecent]
    } else if i == 215 {
        seq![StatBucket::MarkEffectIncreasePrecent]
    } else if i == 216 {
        seq![StatBucket::MarkSkillDurationIncreasePrecent]
    } else if i == 217 {
        seq![StatBucket::MarkUseSpeedIncreasePrecent]
    } else if i == 218 {
        seq![StatBucket::AdditionalBlockIncreasePrecent]
    } else if i == 219 {
        seq![StatBucket::FasterBleedDamage]
    } else if i == 220 {
        seq![StatBucket::SpellsCostLifeInsteadOfMana]
    } else if i == 221 {
        seq![StatBucket::ChanceToFire1AdditionalProjectileWithRolloverWithBowAttacks]
    } else if i == 222 {
        seq![StatBucket::ProjectileAttackRangePrecent]
    } else if i == 223 {
        seq![StatBucket::ProjectileSpeedIncreasePrecentForCrossbowSkills]
    } else if i == 224 {
        seq![StatBucket::GrenadeSkillNumberOfAdditionalProjectiles]
    } else if i == 225 {
        seq![StatBucket::AdditionalBallistaTotemsAllowed]
    } else if i == 226 {
        seq![StatBucket::GrenadeSkillCooldownCount]
    } else if i == 227 {
        seq![StatBucket::GrenadeSkillCooldownSpeedIncreasePrecent]
    } else if i == 228 {
        seq![StatBucket::PlacingTrapsCooldownRecoveryForThrowingIncreasePrecent]
    } else if i == 229 {
        seq![StatBucket::AilmentChanceIncreasePrecent]
    } else if i == 230 {
        seq![StatBucket::AilmentEffectIncreasePrecent]
    } else if i == 231 {
        seq![StatBucket::BaseSkillAreaOfEffectIncreasePrecent]
    } else if i == 232 {
        seq![StatBucket::ArmourBreakAmountIncreasePrecent]
    } else if i == 233 {
        seq![StatBucket::ArmourBreakDurationIncreasePrecent]
    } else if i == 234 {
        seq![StatBucket::AuraEffectIncreasePrecent]
    } else if i == 235 {
        seq![StatBucket::AxeDamageIncreasePrecent]
    } else if i == 236 {
        seq![StatBucket::AxeAttackSpeedIncreasePrecent]
    } else if i == 237 {
        seq![StatBucket::BaseChanceToInflictBleeding]
    } else if i == 238 {
        seq![StatBucket::BaseBleedDurationIncreasePrecent]
    } else if i == 239 {
        seq![StatBucket::BlindEffectIncreasePrecent]
    } else if i == 240 {
        seq![StatBucket::ChanceToBlindOnHitWithAttacks]
    } else if i == 241 {
        seq![StatBucket::BlockChanceIncreasePrecent]
    } else if i == 242 {
        seq![StatBucket::DamageToRareAndUniqueEnemiesIncreasePrecent]
    } else if i == 243 {
        seq![StatBucket::AccuracyRatingIncreaseWithBowPrecent]
    } else if i == 244 {
        seq![StatBucket::BowDamageIncreasePrecent]
    } else if i == 245 {
        seq![StatBucket::BowAttackSpeedIncreasePrecent]
    } else if i == 246 {
        seq![StatBucket::ProjectileChanceToChain1ExtraTimeFromTerrainIncreasePrecent]
    } else if i == 247 {
        seq![StatBucket::ChillDurationIncreasePrecent]
    } else if i == 248 {
        seq![StatBucket::ColdResistancePenetration]
    } else if i == 249 {
        seq![StatBucket::BaseCooldownSpeedIncreasePrecent]
    } else if i == 250 {
        seq![StatBucket::DamageIfYouHaveConsumedACorpseRecentlyIncreasePrecent]
    } else if i == 251 {
        seq![StatBucket::CriticalHitDamagingAilmentEffectIncreasePrecent]
    } else if i == 252 {
        seq![StatBucket::CrossbowDamageIncreasePrecent]
    } else if i == 253 {
        seq![StatBucket::ReloadSpeedIncreasePrecent]
    } else if i == 254 {
        seq![StatBucket::CrossbowReloadInstantChanceIncreasePrecent]
    } else if i == 255 {
        seq![StatBucket::CrossbowAttackSpeedIncreasePrecent]
    } else if i == 256 {
        seq![StatBucket::CurseAreaOfEffectIncreasePrecent]
    } else if i == 257 {
        seq![StatBucket::CurseDelayIncreasePrecent]
    } else if i == 258 {
        seq![StatBucket::BaseCurseDurationIncreasePrecent]
    } else if i == 259 {
        seq![StatBucket::CurseEffectIncreasePrecent]
    } else if i == 260 {
        seq![StatBucket::DaggerCriticalStrikeChanceIncreasePrecent]
    } else if i == 261 {
        seq![StatBucket::DaggerDamageIncreasePrecent]
    } else if i == 262 {
        seq![StatBucket::DaggerAttackSpeedIncreasePrecent]
    } else if i == 263 {
        seq![StatBucket::DamageAgainstEnemiesWithFullyBrokenArmourIncreasePrecent]
    } else if i == 264 {
        seq![StatBucket::DamagingAilmentDurationIncreasePrecent]
    } else if i == 265 {
        seq![StatBucket::BaseChanceToDazeIncreasePrecent]
    } else if i == 266 {
        seq![StatBucket::DebuffTimePassedIncreasePrecent]
    } else if i == 267 {
        seq![StatBucket::IgniteShockChillDurationIncreasePrecent]
    } else if i == 268 {
        seq![StatBucket::ElementalDamageIncreasePrecent]
    } else if i == 269 {
        seq![StatBucket::EmpoweredAttackDamageIncreasePrecent]
    } else if i == 270 {
        seq![StatBucket::EnergyGeneratedIncreasePrecent]
    } else if i == 271 {
        seq![StatBucket::DamagingAilmentsDealDamageIncreasePrecent]
    } else if i == 272 {
        seq![StatBucket::FireResistancePenetration]
    } else if i == 273 {
        seq![StatBucket::FlailCriticalStrikeChanceIncreasePrecent]
    } else if i == 274 {
        seq![StatBucket::FlailDamageIncreasePrecent]
    } else if i == 275 {
        seq![StatBucket::EnergyShieldFromFocusIncreasePrecent]
    } else if i == 276 {
        seq![StatBucket::ChanceToForkExtraProjectileIncreasePrecent]
    } else if i == 277 {
        seq![StatBucket::FreezeThresholdIncreasePrecent]
    } else if i == 278 {
        seq![StatBucket::DamageWithHeraldSkillsIncreasePrecent]
    } else if i == 279 {
        seq![StatBucket::SkillEffectDurationIncreasePrecent]
    } else if i == 280 {
        seq![StatBucket::KnockbackDistanceIncreasePrecent]
    } else if i == 281 {
        seq![StatBucket::BaseSkillCostLifeInsteadOfManaIncreasePrecent]
    } else if i == 282 {
        seq![StatBucket::BaseLifeLeechAmountIncreasePrecent]
    } else if i == 283 {
        seq![StatBucket::RecoverMaximumLifeOnKillIncreasePrecent]
    } else if i == 284 {
        seq![StatBucket::DamageTakenGoesToLifeOver4SecondsIncreasePrecent]
    } else if i == 285 {
        seq![StatBucket::LifeRegenerationRateIncreasePrecent]
    } else if i == 286 {
        seq![StatBucket::LightningResistancePenetration]
    } else if i == 287 {
        seq![StatBucket::MaceDamageIncreasePrecent]
    } else if i == 288 {
        seq![StatBucket::MaceHitDamageStunMultiplierIncreasePrecent]
    } else if i == 289 {
        seq![StatBucket::OfferingDurationIncreasePrecent]
    } else if i == 290 {
        seq![StatBucket::OfferingLifeIncreasePrecent]
    } else if i == 291 {
        seq![StatBucket::HitDamagePinMultiplierIncreasePrecent]
    } else if i == 292 {
        seq![StatBucket::BaseChanceToPoisonOnHitIncreasePrecent]
    } else if i == 293 {
        seq![StatBucket::BasePoisonEffectIncreasePrecent]
    } else if i == 294 {
        seq![StatBucket::BasePoisonDurationIncreasePrecent]
    } else if i == 295 {
        seq![StatBucket::ProjectileDamageIncreasePrecent]
    } else if i == 296 {
        seq![StatBucket::QuarterstaffDamageIncreasePrecent]
    } else if i == 297 {
        seq![StatBucket::QuarterstaffHitDamageFreezeMultiplierIncreasePrecent]
    } else if i == 298 {
        seq![StatBucket::QuarterstaffAttackSpeedIncreasePrecent]
    } else if i == 299 {
        seq![StatBucket::QuiverModEffectIncreasePrecent]
    } else if i == 300 {
        seq![StatBucket::TriggeredSpellSpellDamageIncreasePrecent]
    } else if i == 301 {
        seq![StatBucket::UnarmedDamageIncreasePrecent]
    } else if i == 302 {
        seq![StatBucket::WarcryBuffEffectIncreasePrecent]
    } else if i == 303 {
        seq![StatBucket::WarcryCooldownSpeedIncreasePrecent]
    } else if i == 304 {
        seq![StatBucket::WarcryDamageIncreasePrecent]
    } else if i == 305 {
        seq![StatBucket::WarcrySpeedIncreasePrecent]
    } else if i == 306 {
        seq![StatBucket::WeaponSwapSpeedIncreasePrecent]
    } else if i == 307 {
        seq![StatBucket::WitheredMagnitudeIncreasePrecent]
    } else if i == 308 {
        seq![StatBucket::UnarmedAttackSpeedIncreasePrecent]
    } else if i == 309 {
        seq![StatBucket::ProjectileDamageIncreasePrecentIfYouveDealtMeleeHitRecently]
    } else if i == 310 {
        seq![StatBucket::MeleeDamageIncreasePrecentIfYouveDealtProjectileAttackHitRecently]
    } else if i == 311 {
        seq![StatBucket::ParryDamageIncreasePrecent]
    } else if i == 312 {
        seq![StatBucket::ParrySkillEffectDurationIncreasePrecent]
    } else if i == 313 {
        seq![StatBucket::ParryStunThresholdIncreasePrecentDuringParry]
    } else if i == 314 {
        seq![StatBucket::VolatilityOnKillChanceIncreasePrecent]
    } else if i == 315 {
        seq![StatBucket::CompanionDamageIncreasePrecent]
    } else if i == 316 {
        seq![StatBucket::CompanionMaximumLifeIncreasePrecent]
    } else if i == 317 {
        seq![StatBucket::HazardDamageIncreasePrecent]
    } else if i == 318 {
        seq![StatBucket::ChanceToInflictIncisionOnAttackHitIncreasePrecent]
    } else if i == 319 {
        seq![StatBucket::GloryGenerationIncreasePrecentForBanners]
    } else if i == 320 {
        seq![StatBucket::BannerAreaOfEffectIncreasePrecent]
    } else if i == 321 {
        seq![StatBucket::BannerDurationIncreasePrecent]
    } else if i == 322 {
        seq![StatBucket::ApplyDebilitateOnHitWhileEmeraldSapphireSocketed]
    } else if i == 323 {
        seq![StatBucket::ApplyBlindOnHitWhileRubySapphireSocketed]
    } else if i == 324 {
        seq![StatBucket::ApplyExposureOnHitWhileRubyEmeraldSocketed]
    } else if i == 325 {
        seq![StatBucket::CannotDie]
    } else if i == 326 {
        seq![StatBucket::GoldFromEnemiesIncreasePrecent]
    } else if i == 327 {
        seq![StatBucket::MaxEnduranceCharges]
    } else if i == 328 {
        seq![StatBucket::MaxFrenzyCharges]
    } else if i == 329 {
        seq![StatBucket::MaxPowerCharges]
    } else if i == 330 {
        seq![StatBucket::AdditionalMaximumBlockIncreasePrecent]
    } else if i == 331 {
        seq![StatBucket::LifeGainedOnBlock]
    } else if i == 332 {
        seq![StatBucket::ManaGainedOnBlock]
    } else if i == 333 {
        seq![StatBucket::DamageIncreasePrecent]
    } else if i == 334 {
        seq![StatBucket::SkillSpeedIncreasePrecent]
    } else if i == 335 {
        seq![StatBucket::BaseDebuffSlowMagnitudeIncreasePrecent]
    } else if i == 336 {
        seq![StatBucket::GenerateXChargesForLifeFlasksPerMinute]
    } else if i == 337 {
        seq![StatBucket::GenerateXChargesForManaFlasksPerMinute]
    } else if i == 338 {
        seq![StatBucket::GenerateXChargesForCharmsPerMinute]
    } else if i == 339 {
        seq![StatBucket::AbyssalWastingEffectIncreasePrecent]
    } else if i == 340 {
        seq![StatBucket::AddPowerChargeOnCriticalStrikeIncreasePrecent]
    } else if i == 341 {
        seq![StatBucket::AdditionalBaseCriticalStrikeChance]
    } else if i == 342 {
        seq![StatBucket::AdditionalBlockChanceAgainstProjectilesIncreasePrecent]
    } else if i == 343 {
        seq![StatBucket::AdditionalComboGainChanceIncreasePrecent]
    } else if i == 344 {
        seq![StatBucket::Dexterity, StatBucket::Intelligence]
    } else if i == 345 {
        seq![StatBucket::AdditionalInfusionGainChanceIncreasePrecent]
    } else if i == 346 {
        seq![StatBucket::AdditionalMaximumInfusionStacks]
    } else if i == 347 {
        seq![StatBucket::AdditionalPhysicalDamageReductionIncreasePrecent]
    } else if i == 348 {
        seq![StatBucket::AggravateBleedingOlderThanMsOnHit]
    } else if i == 349 {
        seq![StatBucket::GlobalSkillGemQualityPluss]
    } else if i == 350 {
        seq![StatBucket::AlliesInPresenceResistAllElementsIncreasePrecent]
    } else if i == 351 {
        seq![StatBucket::ApplyAnaemiaMagnitudeOnHit]
    } else if i == 352 {
        seq![StatBucket::ArcaneSurgeEffectOnSelfIncreasePrecent]
    } else if i == 353 {
        seq![StatBucket::ArchonDelayExpiresXPercentFaster]
    } else if i == 354 {
        seq![StatBucket::ArchonDurationIncreasePrecent]
    } else if i == 355 {
        seq![StatBucket::ArchonEffectOnYouIncreasePrecent]
    } else if i == 356 {
        seq![StatBucket::ArmourBreakEqualToPhysicalDamageDealtOnCriticalStrikeWithSpells]
    } else if i == 357 {
        seq![StatBucket::ArmourBreakPhysicalDamageIncreasePrecent]
    } else if i == 358 {
        seq![StatBucket::ArrowSpeedAdditiveModifiersAlsoApplyToBowDamage]
    } else if i == 359 {
        seq![StatBucket::AttackAddedChaosDamageIncreasePrecent]
    } else if i == 360 {
        seq![StatBucket::AttackAddedPhysicalDamageIncreasePrecent]
    } else if i == 361 {
        seq![StatBucket::AttackAddedColdDamageIncreasePrecent]
    } else if i == 362 {
        seq![StatBucket::AttackAddedFireDamageIncreasePrecent]
    } else if i == 363 {
        seq![StatBucket::AttackAddedLightningDamageIncreasePrecent]
    } else if i == 364 {
        seq![StatBucket::AttackAndCastSpeedIncreasePrecent]
    } else if i == 365 {
        seq![StatBucket::AttackAndCastSpeedIncreasePrecentDuringFlaskEffect]
    } else if i == 366 {
        seq![StatBucket::AttackAreaOfEffectIncreasePrecent]
    } else if i == 367 {
        seq![StatBucket::AttackAreaOfEffectIncreasePrecentPer10Int]
    } else if i == 368 {
        seq![StatBucket::AttackDamageIncreasePrecentWhenOnLowLife]
    } else if i == 369 {
        seq![StatBucket::ReducedAttackManaCostPrecent]
    } else if i == 370 {
        seq![StatBucket::AttackMaximumAddedChaosDamage]
    } else if i == 371 {
        seq![StatBucket::AttackMinimumAddedChaosDamage]
    } else if i == 372 {
        seq![StatBucket::AttackSkillGemLevelIncrease]
    } else if i == 373 {
        seq![StatBucket::AttackSkillsHaveAddedLightningDamageEqualToPrecentOfMaximumMana]
    } else if i == 374 {
        seq![StatBucket::AttackSpeedIncreasePrecentIfNotBeenHitRecently]
    } else if i == 375 {
        seq![StatBucket::AttackSpeedIncreasePrecentWhenOnFullLife]
    } else if i == 376 {
        seq![StatBucket::AttackSpeedIncreasePrecentWhileInPresenceOfCompanion]
    } else if i == 377 {
        seq![StatBucket::AttackSpeedIncreasePrecentWhileMissingWard]
    } else if i == 378 {
        seq![StatBucket::AttackNumberOfAdditionalChains]
    } else if i == 379 {
        seq![StatBucket::AvoidAllElementalStatusPrecent]
    } else if i == 380 {
        seq![StatBucket::BaseAllAilmentDurationPrecent]
    } else if i == 381 {
        seq![StatBucket::ReduceBaseAllAilmentDurationOnSelfPrecent]
    } else if i == 382 {
        seq![StatBucket::Strength, StatBucket::Dexterity, StatBucket::Intelligence]
    } else if i == 383 {
        seq![StatBucket::BaseAttackSkillCostEfficiencyPrecent]
    } else if i == 384 {
        seq![StatBucket::BaseAvoidChillPrecent]
    } else if i == 385 {
        seq![StatBucket::BaseAvoidFreezePrecent]
    } else if i == 386 {
        seq![StatBucket::BaseAvoidIgnitePrecent]
    } else if i == 387 {
        seq![StatBucket::BaseAvoidShockPrecent]
    } else if i == 388 {
        seq![StatBucket::BaseAvoidStunPrecent]
    } else if i == 389 {
        seq![StatBucket::BaseBleedChanceIsPoisonChanceInstead]
    } else if i == 390 {
        seq![StatBucket::BaseChanceToShockPrecent]
    } else if i == 391 {
        seq![StatBucket::BaseDamagingAilmentEffectPrecent]
    } else if i == 392 {
        seq![StatBucket::BaseElementalStatusAilmentDurationPrecent]
    } else if i == 393 {
        seq![StatBucket::BaseEnemyCriticalStrikeChancePrecent]
    } else if i == 394 {
        seq![StatBucket::BaseLifeCostEfficiencyPrecent]
    } else if i == 395 {
        seq![StatBucket::BaseLifeLeechDoesNotStopAtFullLife]
    } else if i == 396 {
        seq![StatBucket::BaseLifeLeechRatePrecent]
    } else if i == 397 {
        seq![StatBucket::BaseManaCostPrecent]
    } else if i == 398 {
        seq![StatBucket::BaseManaCostEfficiencyPrecent]
    } else if i == 399 {
        seq![StatBucket::BaseManaLeechRatePrecent]
    } else if i == 400 {
        seq![StatBucket::BaseManaReservationEfficiencyPrecent]
    } else if i == 401 {
        seq![StatBucket::BaseMaximumSealsForSkill]
    } else if i == 402 {
        seq![StatBucket::BaseMinionDurationPrecent]
    } else if i == 403 {
        seq![StatBucket::BaseNumberOfEssenceSpiritsAllowed]
    } else if i == 404 {
        seq![StatBucket::BaseOnlsaughtOnHitPrecent]
    } else if i == 405 {
        seq![StatBucket::BasePoisonChanceIsBleedChanceInstead]
    } else if i == 406 {
        seq![StatBucket::BaseRageCostEfficiencyPrecent]
    } else if i == 407 {
        seq![StatBucket::BaseReservationEfficiencyPrecent]
    } else if i == 408 {
        seq![StatBucket::BaseSkillCostEfficiencyPrecent]
    } else if i == 409 {
        seq![StatBucket::BaseSpellCooldownSpeedPrecent]
    } else if i == 410 {
        seq![StatBucket::BaseSpellManaCostEfficiencyPrecent]
    } else if i == 411 {
        seq![StatBucket::BaseSpiritReservationEfficiencyPrecent]
    } else if i == 412 {
        seq![StatBucket::BaseThornsCriticalStrikeChance]
    } else if i == 413 {
        seq![StatBucket::BaseUnholyMightGrantedMagnitudePrecent]
    } else if i == 414 {
        seq![StatBucket::BellHitLimit]
    } else if i == 415 {
        seq![StatBucket::BleedChancePrecent]
    } else if i == 416 {
        seq![StatBucket::BlockDamageTakenWhileActiveBlockingPrecent]
    } else if i == 417 {
        seq![StatBucket::BodyArmourPrecent]
    } else if i == 418 {
        seq![StatBucket::BodyArmourEvasionRatingPrecent]
    } else if i == 419 {
        seq![StatBucket::BrokenArmourAndSunderedArmourDebuffEffectPrecent]
    } else if i == 420 {
        seq![StatBucket::CannotBeInflictedByCorruptedBlood]
    } else if i == 421 {
        seq![StatBucket::CannotBePoisoned]
    } else if i == 422 {
        seq![StatBucket::CastSpeedPrecentDuringManaFlaskEffect]
    } else if i == 423 {
        seq![StatBucket::CastSpeedPrecentPerNumUniqueSpellsCastRecently]
    } else if i == 424 {
        seq![StatBucket::CastSpeedPrecentWhenOnFullLife]
    } else if i == 425 {
        seq![StatBucket::CastSpeedPrecentWhenOnLowLife]
    } else if i == 426 {
        seq![StatBucket::CastSpeedPrecentWhileOnFullMana]
    } else if i == 427 {
        seq![StatBucket::ChanceToGainArchonOfNatureOnOvergrowingPlantPrecent]
    } else if i == 428 {
        seq![StatBucket::ChanceToGainArchonOfUndeathWhenYouCreateAnOfferingPrecent]
    } else if i == 429 {
        seq![StatBucket::ChanceToCrushOnHitPrecent]
    } else if i == 430 {
        seq![StatBucket::ChanceToFire1AdditionalProjectileWithRolloverPrecent]
    } else if i == 431 {
        seq![StatBucket::ChanceToGainPowerChargeOnStunPrecent]
    } else if i == 432 {
        seq![StatBucket::ChanceToNotConsumeInfusionPrecentIfLostArchonInPast6Seconds]
    } else if i == 433 {
        seq![StatBucket::ChanceToRetain40PrecentOfGloryOnUsePrecent]
    } else if i == 434 {
        seq![StatBucket::ChaosDamageResistancePrecentPerPoisonStack]
    } else if i == 435 {
        seq![StatBucket::ChaosDamageTakenOverTimePrecent]
    } else if i == 436 {
        seq![StatBucket::ChaosDotMultiplierPrecent]
    } else if i == 437 {
        seq![StatBucket::ChaosResistancePrecentWhileUsingFlask]
    } else if i == 438 {
        seq![StatBucket::ChargeSkipConsumeChancePrecent]
    } else if i == 439 {
        seq![StatBucket::CharmsPrecentChanceToNotConsumeCharges]
    } else if i == 440 {
        seq![StatBucket::ColdDamagePrecentColdInfusionCollectedLast8Seconds]
    } else if i == 441 {
        seq![StatBucket::ColdDamageTakenPrecentGoesToLifeOver4Seconds]
    } else if i == 442 {
        seq![StatBucket::ColdDotMultiplierPrecent]
    } else if i == 443 {
        seq![StatBucket::CompanionAttackSpeedPrecent]
    } else if i == 444 {
        seq![StatBucket::CreatedRemnantsPrecentChanceToDuplicatePickUpResults]
    } else if i == 445 {
        seq![StatBucket::CriticalHitDamageBonusPrecentVsEnemiesWithin2mDistance]
    } else if i == 446 {
        seq![StatBucket::CriticalStrikeChancePrecentVsEnemiesFurtherThan6mDistance]
    } else if i == 447 {
        seq![StatBucket::CriticalStrikeChancePrecentVsMarkedEnemies]
    } else if i == 448 {
        seq![StatBucket::CurseEffectOnSelfPrecent]
    } else if i == 449 {
        seq![StatBucket::DamagePrecentAgainstEnemiesMarkedByYou]
    } else if i == 450 {
        seq![StatBucket::DamagePrecentPerPoisonUpTo75]
    } else if i == 451 {
        seq![StatBucket::DamagePrecentVsImmobilisedEnemies]
    } else if i == 452 {
        seq![StatBucket::DamagePrecentWhileInPresenceOfCompanion]
    } else if i == 453 {
        seq![StatBucket::DamagePrecentWhileLeeching]
    } else if i == 454 {
        seq![StatBucket::DamagePrecentWhileTotemActive]
    } else if i == 455 {
        seq![StatBucket::DamageRemovedFromSpectresBeforeLifeOrEsPrecent]
    } else if i == 456 {
        seq![StatBucket::DamageTakenGoesToLifeManaEsOver4SecondsPrecent]
    } else if i == 457 {
        seq![StatBucket::DamageVsCursedEnemiesPerEnemyCursePrecent]
    } else if i == 458 {
        seq![StatBucket::Deal1000ChaosDamagePerSecondFor10SecondsOnHit]
    } else if i == 459 {
        seq![StatBucket::DeflectedHitDamageTakenPrecentRecoupedAsLife]
    } else if i == 460 {
        seq![StatBucket::DeflectionRatingPrecent]
    } else if i == 461 {
        seq![StatBucket::DexterityAndIntelligencePrecent]
    } else if i == 462 {
        seq![StatBucket::DodgeRollBaseTravelDistance]
    } else if i == 463 {
        seq![StatBucket::DummyStatDisplayNothing]
    } else if i == 464 {
        seq![StatBucket::ElementalAilmentTypesApplyDamageTakenPrecent]
    } else if i == 465 {
        seq![StatBucket::ElementalPenetrationPrecentDuringFlaskEffect]
    } else if i == 466 {
        seq![StatBucket::ElementalSkillLimitPrecent]
    } else if i == 467 {
        seq![StatBucket::EnemiesChaosResistancePrecentWhileCursed]
    } else if i == 468 {
        seq![StatBucket::EnemiesChanceExplodeOnKill]
    } else if i == 469 {
        seq![StatBucket::EnergyShieldRechargeRatePrecentIfBlockedRecently]
    } else if i == 470 {
        seq![StatBucket::EssenceAbyssGuaranteedPick]
    } else if i == 471 {
        seq![StatBucket::EssenceBuffElementalDamageTakenPrecent]
    } else if i == 472 {
        seq![StatBucket::EssenceDisplayElementalDamageTakenWhileNotMovingPrecent]
    } else if i == 473 {
        seq![StatBucket::EvasionRatingPrecent]
    } else if i == 474 {
        seq![StatBucket::EvasionRatingPrecentWhileLeeching]
    } else if i == 475 {
        seq![StatBucket::ExplodeBurningEnemiesFor10LifeAsFireOnKillChancePrecent]
    } else if i == 476 {
        seq![StatBucket::ExplodeEnemiesFor10LifeAsPhysicalOnKillChancePrecent]
    } else if i == 477 {
        seq![StatBucket::ExplodeEnemiesFor25LifeAsChaosOnKillChancePrecent]
    } else if i == 478 {
        seq![StatBucket::ExposureEffectPrecent]
    } else if i == 479 {
        seq![StatBucket::FireDamagePrecentIfFireInfusionCollectedLast8Seconds]
    } else if i == 480 {
        seq![StatBucket::FireDamageTakenGoesToLifeOver4SecondsPrecent]
    } else if i == 481 {
        seq![StatBucket::FireDotMultiplierPrecent]
    } else if i == 482 {
        seq![StatBucket::FireSpellAdditionalCriticalStrikeChancePerMyriad]
    } else if i == 483 {
        seq![StatBucket::FishQuantityPrecent]
    } else if i == 484 {
        seq![StatBucket::FishRarityPrecent]
    } else if i == 485 {
        seq![StatBucket::FishingHookType]
    } else if i == 486 {
        seq![StatBucket::FishingLineStrengthPrecent]
    } else if i == 487 {
        seq![StatBucket::FishingLureType]
    } else if i == 488 {
        seq![StatBucket::FishingPoolConsumptionPrecent]
    } else if i == 489 {
        seq![StatBucket::FishingRangePrecent]
    } else if i == 490 {
        seq![StatBucket::FlasksPrecentChanceToNotConsumeCharges]
    } else if i == 491 {
        seq![StatBucket::FullyBreakEnemiesArmourOnHeavyStunWithShieldSkills]
    } else if i == 492 {
        seq![StatBucket::GainAlchemistsGeniusOnFlaskUsePrecent]
    } else if i == 493 {
        seq![StatBucket::GainArcaneSurgeOnCritPrecent]
    } else if i == 494 {
        seq![StatBucket::GainOnslaughtFor3SecondsPrecent]
    } else if i == 495 {
        seq![StatBucket::GlobalArmourEvasionEnergyShieldPrecent]
    } else if i == 496 {
        seq![StatBucket::GlobalItemAttributeReducedRequirementsPrecent]
    } else if i == 497 {
        seq![StatBucket::GloryGenerationPrecent]
    } else if i == 498 {
        seq![StatBucket::GrenadeSkillPrecentChanceToExplodeTwice]
    } else if i == 499 {
        seq![StatBucket::GrenadeSkillDamagePrecent]
    } else if i == 500 {
        seq![StatBucket::GrenadeSkillDurationPrecent]
    } else if i == 501 {
        seq![StatBucket::HandWrapsAttackDamagePrecentFinalOnLowMana]
    } else if i == 502 {
        seq![StatBucket::HandWrapsDamageTakenPrecentFinalOnLowLife]
    } else if i == 503 {
        seq![StatBucket::HandWrapsMoreGlobalEvasionEnergyShield]
    } else if i == 504 {
        seq![StatBucket::GrantsGraveCommandSkill]
    } else if i == 505 {
        seq![StatBucket::HaveUnholyMight]
    } else if i == 506 {
        seq![StatBucket::HeavyStunPoiseDecayRatePrecent]
    } else if i == 507 {
        seq![StatBucket::HinderEnemyChaosDamageTakenPrecent]
    } else if i == 508 {
        seq![StatBucket::HinderEnemyElementalDamageTakenPrecent]
    } else if i == 509 {
        seq![StatBucket::HinderEnemyPhysicalDamageTakenPrecent]
    } else if i == 510 {
        seq![StatBucket::HitDamageFreezeMultiplierPrecentIfConsumedPowerChargeRecently]
    } else if i == 511 {
        seq![StatBucket::HitDamageImmobilisationMultiplierPrecent]
    } else if i == 512 {
        seq![StatBucket::IgniteEffectPrecentIfConsumedEnduranceChargeRecently]
    } else if i == 513 {
        seq![StatBucket::InvocationSkillMaximumEnergyPrecent]
    } else if i == 514 {
        seq![StatBucket::InvocationSpellChanceToCostHalfEnergyPrecent]
    } else if i == 515 {
        seq![StatBucket::InvocationSpellDamagePrecent]
    } else if i == 516 {
        seq![StatBucket::LeechPrecentIsInstant]
    } else if i == 517 {
        seq![StatBucket::LifeGainedOnAttackHitIfCritRecently]
    } else if i == 518 {
        seq![StatBucket::LifeGainedOnAttackHitVsCursedEnemies]
    } else if i == 519 {
        seq![StatBucket::LifeLeechCanOvercapLife]
    } else if i == 520 {
        seq![StatBucket::LifeRegenerationPerMinutePrecentWhileFrozen]
    } else if i == 521 {
        seq![StatBucket::LifeRegenerationRatePrecentWhileMoving]
    } else if i == 522 {
        seq![StatBucket::LifeRegenerationRatePrecentWhileUsingLifeFlask]
    } else if i == 523 {
        seq![StatBucket::LightningDamagePrecentIfLightningInfusionCollectedLast8Seconds]
    } else if i == 524 {
        seq![StatBucket::LightningDamageCanIgnite]
    } else if i == 525 {
        seq![StatBucket::LightningDamageTakenGoesToLifeOver4SecondsPrecent]
    } else if i == 526 {
        seq![StatBucket::ManaPrecentGainedOnBlock]
    } else if i == 527 {
        seq![StatBucket::ManaPrecentToGainAsArmour]
    } else if i == 528 {
        seq![StatBucket::ManaCostEfficiencyPrecentIfDodgeRolledRecently]
    } else if i == 529 {
        seq![StatBucket::ManaGainedOnAttackHitVsCursedEnemies]
    } else if i == 530 {
        seq![StatBucket::ManaRegenerationRatePrecentWhileShocked]
    } else if i == 531 {
        seq![StatBucket::ManaRegenerationRatePrecentWhileStationary]
    } else if i == 532 {
        seq![StatBucket::ManaReservationEfficiencyPrecentPer1]
    } else if i == 533 {
        seq![StatBucket::MarkSkillGemLevels]
    } else if i == 534 {
        seq![StatBucket::MarkedEnemyTakesIncreasedDamage]
    } else if i == 535 {
        seq![StatBucket::MaxFortificationPer5]
    } else if i == 536 {
        seq![StatBucket::MaxPuppetMasterStacksPer5]
    } else if i == 537 {
        seq![StatBucket::MaximumAddedColdDamagePerFrenzyCharge]
    } else if i == 538 {
        seq![StatBucket::MaximumAddedFireDamageIfBlockedRecently]
    } else if i == 539 {
        seq![StatBucket::MaximumEnergyShieldFromBodyArmourPrecent]
    } else if i == 540 {
        seq![StatBucket::MaximumWardPrecent]
    } else if i == 541 {
        seq![StatBucket::MeleeAttackSkillsAdditionalTotemsAllowed]
    } else if i == 542 {
        seq![StatBucket::MeleeAttacksNumberOfAdditionalProjectiles]
    } else if i == 543 {
        seq![StatBucket::MinimumAddedColdDamagePerFrenzyCharge]
    } else if i == 544 {
        seq![StatBucket::MinimumAddedFireDamageIfBlockedRecently]
    } else if i == 545 {
        seq![StatBucket::MinionAreaOfEffectPrecent]
    } else if i == 546 {
        seq![StatBucket::MinionArmourBreakPhysicalDamagePrecent]
    } else if i == 547 {
        seq![StatBucket::MinionBaseDamagingAilmentEffectPrecent]
    } else if i == 548 {
        seq![StatBucket::MinionChanceToFire1AdditionalProjectilePrecent]
    } else {
        Seq::empty()
    }
}

/// The stat identifier of row `i` of the bucket table.
pub open spec fn bucket_table_name(i: int) -> Seq<char> {
    if i == 0 {
        "strength_+%"@
    } else if i == 1 {
        "dexterity_+%"@
    } else if i == 2 {
        "intelligence_+%"@
    } else if i == 3 {
        "base_maximum_life"@
    } else if i == 4 {
        "base_maximum_ward"@
    } else if i == 5 {
        "maximum_life_+%"@
    } else if i == 6 {
        "base_maximum_mana"@
    } else if i == 7 {
        "maximum_mana_+%"@
    } else if i == 8 {
        "chaos_damage_+%"@
    } else if i == 9 {
        "additional_strength"@
    } else if i == 10 {
        "additional_dexterity"@
    } else if i == 11 {
        "additional_intelligence"@
    } else if i == 12 {
        "additional_strength_and_intelligence"@
    } else if i == 13 {
        "additional_strength_and_dexterity"@
    } else if i == 14 {
        "additional_all_attributes"@
    } else if i == 15 {
        "base_fire_damage_resistance_%"@
    } else if i == 16 {
        "base_cold_damage_resistance_%"@
    } else if i == 17 {
        "base_lightning_damage_resistance_%"@
    } else if i == 18 {
        "base_chaos_damage_resistance_%"@
    } else if i == 19 {
        "base_resist_all_elements_%"@
    } else if i == 20 {
        "base_physical_damage_reduction_rating"@
    } else if i == 21 {
        "base_evasion_rating"@
    } else if i == 22 {
        "base_maximum_energy_shield"@
    } else if i == 23 {
        "physical_damage_reduction_rating_+%"@
    } else if i == 24 {
        "maximum_energy_shield_+%"@
    } else if i == 25 {
        "stun_threshold_+"@
    } else if i == 26 {
        "base_movement_velocity_+%"@
    } else if i == 27 {
        "thorns_minimum_base_physical_damage"@
    } else if i == 28 {
        "thorns_maximum_base_physical_damage"@
    } else if i == 29 {
        "attack_minimum_added_physical_damage"@
    } else if i == 30 {
        "attack_maximum_added_physical_damage"@
    } else if i == 31 {
        "attack_minimum_added_fire_damage"@
    } else if i == 32 {
        "attack_maximum_added_fire_damage"@
    } else if i == 33 {
        "attack_minimum_added_cold_damage"@
    } else if i == 34 {
        "attack_maximum_added_cold_damage"@
    } else if i == 35 {
        "attack_minimum_added_lightning_damage"@
    } else if i == 36 {
        "attack_maximum_added_lightning_damage"@
    } else if i == 37 {
        "attack_damage_+%"@
    } else if i == 38 {
        "allies_in_presence_attack_minimum_added_physical_damage"@
    } else if i == 39 {
        "allies_in_presence_attack_maximum_added_physical_damage"@
    } else if i == 40 {
        "allies_in_presence_attack_minimum_added_fire_damage"@
    } else if i == 41 {
        "allies_in_presence_attack_maximum_added_fire_damage"@
    } else if i == 42 {
        "allies_in_presence_attack_minimum_added_cold_damage"@
    } else if i == 43 {
        "allies_in_presence_attack_maximum_added_cold_damage"@
    } else if i == 44 {
        "allies_in_presence_attack_minimum_added_lightning_damage"@
    } else if i == 45 {
        "allies_in_presence_attack_maximum_added_lightning_damage"@
    } else if i == 46 {
        "allies_in_presence_attack_minimum_added_chaos_damage"@
    } else if i == 47 {
        "allies_in_presence_attack_maximum_added_chaos_damage"@
    } else if i == 48 {
        "allies_in_presence_damage_+%"@
    } else if i == 49 {
        "allies_in_presence_attack_speed_+%"@
    } else if i == 50 {
        "allies_in_presence_accuracy_rating"@
    } else if i == 51 {
        "local_accuracy_rating"@
    } else if i == 52 {
        "accuracy_rating"@
    } else if i == 53 {
        "accuracy_rating_+%"@
    } else if i == 54 {
        "chance_for_exerted_attacks_to_not_reduce_count_%"@
    } else if i == 55 {
        "spell_damage_+%"@
    } else if i == 56 {
        "fire_damage_+%"@
    } else if i == 57 {
        "cold_damage_+%"@
    } else if i == 58 {
        "lightning_damage_+%"@
    } else if i == 59 {
        "chaos_damage_+%"@
    } else if i == 60 {
        "physical_damage_+%"@
    } else if i == 61 {
        "spell_physical_damage_+%"@
    } else if i == 62 {
        "trap_damage_+%"@
    } else if i == 63 {
        "spell_skill_gem_level_+"@
    } else if i == 64 {
        "fire_spell_skill_gem_level_+"@
    } else if i == 65 {
        "cold_spell_skill_gem_level_+"@
    } else if i == 66 {
        "lightning_spell_skill_gem_level_+"@
    } else if i == 67 {
        "chaos_spell_skill_gem_level_+"@
    } else if i == 68 {
        "physical_spell_skill_gem_level_+"@
    } else if i == 69 {
        "minion_skill_gem_level_+"@
    } else if i == 70 {
        "trap_skill_gem_level_+"@
    } else if i == 71 {
        "melee_skill_gem_level_+"@
    } else if i == 72 {
        "projectile_skill_gem_level_+"@
    } else if i == 73 {
        "base_life_regeneration_rate_per_minute"@
    } else if i == 74 {
        "life_regeneration_rate_per_minute_%"@
    } else if i == 75 {
        "allies_in_presence_life_regeneration_rate_per_minute"@
    } else if i == 76 {
        "mana_regeneration_rate_+%"@
    } else if i == 77 {
        "base_life_leech_from_physical_attack_damage_permyriad"@
    } else if i == 78 {
        "base_mana_leech_from_physical_attack_damage_permyriad"@
    } else if i == 79 {
        "base_life_gained_on_enemy_death"@
    } else if i == 80 {
        "base_mana_gained_on_enemy_death"@
    } else if i == 81 {
        "base_life_gain_per_target"@
    } else if i == 82 {
        "base_mana_gain_per_target"@
    } else if i == 83 {
        "attack_speed_+%"@
    } else if i == 84 {
        "base_cast_speed_+%"@
    } else if i == 85 {
        "allies_in_presence_cast_speed_+%"@
    } else if i == 86 {
        "trap_throwing_speed_+%"@
    } else if i == 87 {
        "critical_strike_chance_+%"@
    } else if i == 88 {
        "spell_critical_strike_chance_+%"@
    } else if i == 89 {
        "attack_critical_strike_chance_+%"@
    } else if i == 90 {
        "trap_critical_strike_chance_+%"@
    } else if i == 91 {
        "allies_in_presence_critical_strike_chance_+%"@
    } else if i == 92 {
        "base_critical_strike_multiplier_+"@
    } else if i == 93 {
        "base_spell_critical_strike_multiplier_+"@
    } else if i == 94 {
        "attack_critical_strike_multiplier_+"@
    } else if i == 95 {
        "trap_critical_strike_multiplier_+"@
    } else if i == 96 {
        "allies_in_presence_critical_strike_multiplier_+"@
    } else if i == 97 {
        "base_item_found_rarity_+%"@
    } else if i == 98 {
        "light_radius_+%"@
    } else if i == 99 {
        "base_spirit"@
    } else if i == 100 {
        "base_spirit_from_equipment"@
    } else if i == 101 {
        "self_bleed_duration_+%"@
    } else if i == 102 {
        "self_poison_duration_+%"@
    } else if i == 103 {
        "base_self_ignite_duration_-%"@
    } else if i == 104 {
        "base_self_shock_duration_-%"@
    } else if i == 105 {
        "base_self_chill_duration_-%"@
    } else if i == 106 {
        "base_self_freeze_duration_-%"@
    } else if i == 107 {
        "base_self_critical_strike_multiplier_-%"@
    } else if i == 108 {
        "base_additional_physical_damage_reduction_%"@
    } else if i == 109 {
        "base_maximum_fire_damage_resistance_%"@
    } else if i == 110 {
        "base_maximum_cold_damage_resistance_%"@
    } else if i == 111 {
        "base_maximum_lightning_damage_resistance_%"@
    } else if i == 112 {
        "base_maximum_chaos_damage_resistance_%"@
    } else if i == 113 {
        "additional_maximum_all_elemental_resistances_%"@
    } else if i == 114 {
        "energy_shield_recharge_rate_+%"@
    } else if i == 115 {
        "energy_shield_delay_-%"@
    } else if i == 116 {
        "armour_%_applies_to_fire_cold_lightning_damage"@
    } else if i == 117 {
        "base_armour_%_applies_to_chaos_damage"@
    } else if i == 118 {
        "base_deflection_rating_%_of_armour"@
    } else if i == 119 {
        "base_deflection_rating_%_of_evasion_rating"@
    } else if i == 120 {
        "base_damage_%_deflected"@
    } else if i == 121 {
        "evasion_rating_%_to_gain_as_armour"@
    } else if i == 122 {
        "base_chance_to_pierce_%"@
    } else if i == 123 {
        "base_number_of_crossbow_bolts"@
    } else if i == 124 {
        "flask_life_recovery_rate_+%"@
    } else if i == 125 {
        "flask_mana_recovery_rate_+%"@
    } else if i == 126 {
        "charm_duration_+%"@
    } else if i == 127 {
        "flask_charges_gained_+%"@
    } else if i == 128 {
        "flask_duration_+%"@
    } else if i == 129 {
        "flask_charges_used_+%"@
    } else if i == 130 {
        "charm_charges_gained_+%"@
    } else if i == 131 {
        "charm_charges_used_+%"@
    } else if i == 132 {
        "ignite_chance_+%"@
    } else if i == 133 {
        "damage_+%_while_using_charm"@
    } else if i == 134 {
        "hit_damage_freeze_multiplier_+%"@
    } else if i == 135 {
        "shock_chance_+%"@
    } else if i == 136 {
        "shock_duration_+%"@
    } else if i == 137 {
        "base_projectile_speed_+%"@
    } else if i == 138 {
        "damage_taken_goes_to_life_over_4_seconds_%"@
    } else if i == 139 {
        "damage_taken_goes_to_mana_%"@
    } else if i == 140 {
        "elemental_damage_with_attack_skills_+%"@
    } else if i == 141 {
        "non_skill_base_all_damage_%_to_gain_as_fire"@
    } else if i == 142 {
        "non_skill_base_all_damage_%_to_gain_as_cold"@
    } else if i == 143 {
        "non_skill_base_all_damage_%_to_gain_as_lightning"@
    } else if i == 144 {
        "non_skill_base_all_damage_%_to_gain_as_chaos"@
    } else if i == 145 {
        "damage_+%_with_bow_skills"@
    } else if i == 146 {
        "presence_area_+%"@
    } else if i == 147 {
        "minion_maximum_life_+%"@
    } else if i == 148 {
        "minion_additional_physical_damage_reduction_%"@
    } else if i == 149 {
        "minion_elemental_resistance_%"@
    } else if i == 150 {
        "minion_resummon_speed_+%"@
    } else if i == 151 {
        "trap_trigger_radius_+%"@
    } else if i == 152 {
        "charm_recover_X_life_when_used"@
    } else if i == 153 {
        "charm_recover_X_mana_when_used"@
    } else if i == 154 {
        "charm_gain_X_guard_for_duration"@
    } else if i == 155 {
        "hit_damage_stun_multiplier_+%"@
    } else if i == 156 {
        "chance_to_poison_on_hit_with_attacks_%"@
    } else if i == 157 {
        "bleed_on_hit_with_attacks_%"@
    } else if i == 158 {
        "base_arrow_speed_+%"@
    } else if i == 159 {
        "additional_maximum_all_resistances_%"@
    } else if i == 160 {
        "fire_and_cold_damage_resistance_%"@
    } else if i == 161 {
        "fire_and_lightning_damage_resistance_%"@
    } else if i == 162 {
        "cold_and_lightning_damage_resistance_%"@
    } else if i == 163 {
        "fire_and_chaos_damage_resistance_%"@
    } else if i == 164 {
        "cold_and_chaos_damage_resistance_%"@
    } else if i == 165 {
        "lightning_and_chaos_damage_resistance_%"@
    } else if i == 166 {
        "flask_life_to_recover_+%"@
    } else if i == 167 {
        "life_flask_charges_gained_+%"@
    } else if i == 168 {
        "flask_mana_to_recover_+%"@
    } else if i == 169 {
        "mana_flask_charges_gained_+%"@
    } else if i == 170 {
        "stun_threshold_+%"@
    } else if i == 171 {
        "flask_recovery_amount_%_to_recover_instantly"@
    } else if i == 172 {
        "generate_x_charges_for_any_flask_per_minute"@
    } else if i == 173 {
        "maximum_mana_%_gained_on_kill"@
    } else if i == 174 {
        "base_mana_leech_amount_+%"@
    } else if i == 175 {
        "ailment_threshold_+%"@
    } else if i == 176 {
        "ailment_threshold_+"@
    } else if i == 177 {
        "base_slow_potency_+%"@
    } else if i == 178 {
        "spear_attack_speed_+%"@
    } else if i == 179 {
        "spear_critical_strike_multiplier_+"@
    } else if i == 180 {
        "spear_damage_+%"@
    } else if i == 181 {
        "stun_threshold_+_from_%_maximum_energy_shield"@
    } else if i == 182 {
        "ailment_threshold_+_from_%_maximum_energy_shield"@
    } else if i == 183 {
        "stun_threshold_+%_when_not_stunned_recently"@
    } else if i == 184 {
        "sword_damage_+%"@
    } else if i == 185 {
        "thorns_damage_+%"@
    } else if i == 186 {
        "totem_damage_+%"@
    } else if i == 187 {
        "trap_damage_+%"@
    } else if i == 188 {
        "summon_totem_cast_speed_+%"@
    } else if i == 189 {
        "totem_life_+%"@
    } else if i == 190 {
        "sword_attack_speed_+%"@
    } else if i == 191 {
        "base_bleeding_effect_+%"@
    } else if i == 192 {
        "movement_speed_penalty_+%_while_performing_action"@
    } else if i == 193 {
        "base_damage_removed_from_mana_before_life_%"@
    } else if i == 194 {
        "self_elemental_status_duration_-%"@
    } else if i == 195 {
        "corrupted_skill_gem_level_+"@
    } else if i == 196 {
        "all_skill_gem_level_+"@
    } else if i == 197 {
        "ward_regeneration_rate_+%"@
    } else if i == 198 {
        "base_ignite_effect_+%"@
    } else if i == 199 {
        "base_damage_taken_+%"@
    } else if i == 200 {
        "shield_armour_evasion_energy_shield_+%"@
    } else if i == 201 {
        "melee_splash"@
    } else if i == 202 {
        "warcry_empowers_next_x_melee_attacks"@
    } else if i == 203 {
        "minion_damage_+%"@
    } else if i == 204 {
        "gain_x_rage_on_melee_hit"@
    } else if i == 205 {
        "gain_x_rage_when_hit"@
    } else if i == 206 {
        "shock_effect_+%"@
    } else if i == 207 {
        "maximum_rage"@
    } else if i == 208 {
        "minion_accuracy_rating_+%"@
    } else if i == 209 {
        "minion_skill_area_of_effect_+%"@
    } else if i == 210 {
        "minion_chaos_resistance_%"@
    } else if i == 211 {
        "minion_critical_strike_chance_+%"@
    } else if i == 212 {
        "minion_critical_strike_multiplier_+"@
    } else if i == 213 {
        "minion_attack_and_cast_speed_+%"@
    } else if i == 214 {
        "melee_damage_+%"@
    } else if i == 215 {
        "mark_effect_+%"@
    } else if i == 216 {
        "mark_skill_duration_+%"@
    } else if i == 217 {
        "mark_use_speed_+%"@
    } else if i == 218 {
        "additional_block_%"@
    } else if i == 219 {
        "faster_bleed_%"@
    } else if i == 220 {
        "spells_cost_life_instead_of_mana_%"@
    } else if i == 221 {
        "chance_to_fire_1_additional_projectile_%_with_rollover_with_bow_attacks"@
    } else if i == 222 {
        "projectile_attack_range_+%"@
    } else if i == 223 {
        "projectile_speed_+%_with_crossbow_skills"@
    } else if i == 224 {
        "grenade_skill_number_of_additional_projectiles"@
    } else if i == 225 {
        "additional_ballista_totems_allowed"@
    } else if i == 226 {
        "grenade_skill_cooldown_count_+"@
    } else if i == 227 {
        "grenade_skill_cooldown_speed_+%"@
    } else if i == 228 {
        "placing_traps_cooldown_recovery_+%"@
    } else if i == 229 {
        "ailment_chance_+%"@
    } else if i == 230 {
        "ailment_effect_+%"@
    } else if i == 231 {
        "base_skill_area_of_effect_+%"@
    } else if i == 232 {
        "armour_break_amount_+%"@
    } else if i == 233 {
        "armour_break_and_sundered_armour_duration_+%"@
    } else if i == 234 {
        "aura_effect_+%"@
    } else if i == 235 {
        "axe_damage_+%"@
    } else if i == 236 {
        "axe_attack_speed_+%"@
    } else if i == 237 {
        "base_chance_to_inflict_bleeding_%"@
    } else if i == 238 {
        "base_bleed_duration_+%"@
    } else if i == 239 {
        "blind_effect_+%"@
    } else if i == 240 {
        "attacks_chance_to_blind_on_hit_%"@
    } else if i == 241 {
        "block_chance_+%"@
    } else if i == 242 {
        "damage_+%_to_rare_and_unique_enemies"@
    } else if i == 243 {
        "bow_accuracy_rating_+%"@
    } else if i == 244 {
        "bow_damage_+%"@
    } else if i == 245 {
        "bow_attack_speed_+%"@
    } else if i == 246 {
        "projectile_chance_to_chain_1_extra_time_from_terrain_%"@
    } else if i == 247 {
        "chill_duration_+%"@
    } else if i == 248 {
        "base_reduce_enemy_cold_resistance_%"@
    } else if i == 249 {
        "base_cooldown_speed_+%"@
    } else if i == 250 {
        "damage_+%_if_you_have_consumed_a_corpse_recently"@
    } else if i == 251 {
        "critical_hit_damaging_ailment_effect_+%"@
    } else if i == 252 {
        "crossbow_damage_+%"@
    } else if i == 253 {
        "reload_speed_+%"@
    } else if i == 254 {
        "%_chance_for_crossbow_reload_to_be_instant"@
    } else if i == 255 {
        "crossbow_attack_speed_+%"@
    } else if i == 256 {
        "curse_area_of_effect_+%"@
    } else if i == 257 {
        "curse_delay_+%"@
    } else if i == 258 {
        "base_curse_duration_+%"@
    } else if i == 259 {
        "curse_effect_+%"@
    } else if i == 260 {
        "dagger_critical_strike_chance_+%"@
    } else if i == 261 {
        "dagger_damage_+%"@
    } else if i == 262 {
        "dagger_attack_speed_+%"@
    } else if i == 263 {
        "damage_+%_against_enemies_with_fully_broken_armour"@
    } else if i == 264 {
        "damaging_ailment_duration_+%"@
    } else if i == 265 {
        "base_chance_to_daze_%"@
    } else if i == 266 {
        "debuff_time_passed_+%"@
    } else if i == 267 {
        "ignite_shock_chill_duration_+%"@
    } else if i == 268 {
        "elemental_damage_+%"@
    } else if i == 269 {
        "empowered_attack_damage_+%"@
    } else if i == 270 {
        "energy_generated_+%"@
    } else if i == 271 {
        "damaging_ailments_deal_damage_+%_faster"@
    } else if i == 272 {
        "base_reduce_enemy_fire_resistance_%"@
    } else if i == 273 {
        "flail_critical_strike_chance_+%"@
    } else if i == 274 {
        "flail_damage_+%"@
    } else if i == 275 {
        "energy_shield_from_focus_+%"@
    } else if i == 276 {
        "chance_to_fork_extra_projectile_%"@
    } else if i == 277 {
        "freeze_threshold_+%"@
    } else if i == 278 {
        "damage_+%_with_herald_skills"@
    } else if i == 279 {
        "skill_effect_duration_+%"@
    } else if i == 280 {
        "knockback_distance_+%"@
    } else if i == 281 {
        "base_skill_cost_life_instead_of_mana_%"@
    } else if i == 282 {
        "base_life_leech_amount_+%"@
    } else if i == 283 {
        "recover_%_maximum_life_on_kill"@
    } else if i == 284 {
        "damage_taken_goes_to_life_over_4_seconds_%"@
    } else if i == 285 {
        "life_regeneration_rate_+%"@
    } else if i == 286 {
        "base_reduce_enemy_lightning_resistance_%"@
    } else if i == 287 {
        "mace_damage_+%"@
    } else if i == 288 {
        "mace_hit_damage_stun_multiplier_+%"@
    } else if i == 289 {
        "offering_duration_+%"@
    } else if i == 290 {
        "offering_life_+%"@
    } else if i == 291 {
        "hit_damage_pin_multiplier_+%"@
    } else if i == 292 {
        "base_chance_to_poison_on_hit_%"@
    } else if i == 293 {
        "base_poison_effect_+%"@
    } else if i == 294 {
        "base_poison_duration_+%"@
    } else if i == 295 {
        "projectile_damage_+%"@
    } else if i == 296 {
        "quarterstaff_damage_+%"@
    } else if i == 297 {
        "quarterstaff_hit_damage_freeze_multiplier_+%"@
    } else if i == 298 {
        "quarterstaff_attack_speed_+%"@
    } else if i == 299 {
        "quiver_mod_effect_+%"@
    } else if i == 300 {
        "triggered_spell_spell_damage_+%"@
    } else if i == 301 {
        "unarmed_damage_+%"@
    } else if i == 302 {
        "warcry_buff_effect_+%"@
    } else if i == 303 {
        "warcry_cooldown_speed_+%"@
    } else if i == 304 {
        "warcry_damage_+%"@
    } else if i == 305 {
        "warcry_speed_+%"@
    } else if i == 306 {
        "weapon_swap_speed_+%"@
    } else if i == 307 {
        "withered_magnitude_+%"@
    } else if i == 308 {
        "unarmed_attack_speed_+%"@
    } else if i == 309 {
        "projectile_damage_+%_if_youve_dealt_melee_hit_recently"@
    } else if i == 310 {
        "melee_damage_+%_if_youve_dealt_projectile_attack_hit_recently"@
    } else if i == 311 {
        "parry_damage_+%"@
    } else if i == 312 {
        "parry_skill_effect_duration_+%"@
    } else if i == 313 {
        "parry_stun_threshold_+%_during_parry"@
    } else if i == 314 {
        "volatility_on_kill_%_chance"@
    } else if i == 315 {
        "companion_damage_+%"@
    } else if i == 316 {
        "companion_maximum_life_+%"@
    } else if i == 317 {
        "hazard_damage_+%"@
    } else if i == 318 {
        "chance_to_inflict_incision_on_attack_hit_%"@
    } else if i == 319 {
        "glory_generation_+%_for_banners"@
    } else if i == 320 {
        "banner_area_of_effect_+%"@
    } else if i == 321 {
        "banner_duration_+%"@
    } else if i == 322 {
        "apply_debilitate_on_hit_while_emerald_sapphire_socketed"@
    } else if i == 323 {
        "apply_blind_on_hit_while_ruby_sapphire_socketed"@
    } else if i == 324 {
        "apply_exposure_on_hit_while_ruby_emerald_socketed"@
    } else if i == 325 {
        "cannot_die"@
    } else if i == 326 {
        "gold_+%_from_enemies"@
    } else if i == 327 {
        "max_endurance_charges"@
    } else if i == 328 {
        "max_frenzy_charges"@
    } else if i == 329 {
        "max_power_charges"@
    } else if i == 330 {
        "additional_maximum_block_%"@
    } else if i == 331 {
        "life_gained_on_block"@
    } else if i == 332 {
        "mana_gained_on_block"@
    } else if i == 333 {
        "damage_+%"@
    } else if i == 334 {
        "skill_speed_%"@
    } else if i == 335 {
        "base_debuff_slow_magnitude_+%"@
    } else if i == 336 {
        "generate_x_charges_for_life_flasks_per_minute"@
    } else if i == 337 {
        "generate_x_charges_for_mana_flasks_per_minute"@
    } else if i == 338 {
        "generate_x_charges_for_charms_per_minute"@
    } else if i == 339 {
        "abyssal_wasting_effect_+%"@
    } else if i == 340 {
        "add_power_charge_on_critical_strike_%"@
    } else if i == 341 {
        "additional_base_critical_strike_chance"@
    } else if i == 342 {
        "additional_block_chance_against_projectiles_%"@
    } else if i == 343 {
        "additional_combo_gain_chance_%"@
    } else if i == 344 {
        "additional_dexterity_and_intelligence"@
    } else if i == 345 {
        "additional_infusion_gain_chance_%"@
    } else if i == 346 {
        "additional_maximum_infusion_stacks"@
    } else if i == 347 {
        "additional_physical_damage_reduction_%_during_flask_effect"@
    } else if i == 348 {
        "aggravate_bleeding_older_than_ms_on_hit"@
    } else if i == 349 {
        "all_skill_gem_quality_+"@
    } else if i == 350 {
        "allies_in_presence_resist_all_elements_%"@
    } else if i == 351 {
        "apply_anaemia_magnitude_on_hit"@
    } else if i == 352 {
        "arcane_surge_effect_on_self_+%"@
    } else if i == 353 {
        "archon_delay_expires_x%_faster"@
    } else if i == 354 {
        "archon_duration_+%"@
    } else if i == 355 {
        "archon_effect_on_you_+%"@
    } else if i == 356 {
        "armour_break_equal_to_%_physical_damage_dealt_on_critical_strike_with_spells"@
    } else if i == 357 {
        "armour_break_physical_damage_%_dealt_as_armour_break"@
    } else if i == 358 {
        "arrow_speed_additive_modifiers_also_apply_to_bow_damage"@
    } else if i == 359 {
        "attack_added_chaos_damage_%_of_maximum_life"@
    } else if i == 360 {
        "attack_added_physical_damage_%_of_maximum_life"@
    } else if i == 361 {
        "attack_added_cold_damage_%_of_maximum_life"@
    } else if i == 362 {
        "attack_added_fire_damage_%_of_maximum_life"@
    } else if i == 363 {
        "attack_added_lightning_damage_%_of_maximum_life"@
    } else if i == 364 {
        "attack_and_cast_speed_+%"@
    } else if i == 365 {
        "attack_and_cast_speed_+%_during_flask_effect"@
    } else if i == 366 {
        "attack_area_of_effect_+%"@
    } else if i == 367 {
        "attack_area_of_effect_+%_per_10_int"@
    } else if i == 368 {
        "attack_damage_+%_when_on_low_life"@
    } else if i == 369 {
        "attack_mana_cost_+%"@
    } else if i == 370 {
        "attack_maximum_added_chaos_damage"@
    } else if i == 371 {
        "attack_minimum_added_chaos_damage"@
    } else if i == 372 {
        "attack_skill_gem_level_+"@
    } else if i == 373 {
        "attack_skills_have_added_lightning_damage_equal_to_%_of_maximum_mana"@
    } else if i == 374 {
        "attack_speed_+%_if_not_been_hit_recently"@
    } else if i == 375 {
        "attack_speed_+%_when_on_full_life"@
    } else if i == 376 {
        "attack_speed_+%_while_in_presence_of_companion"@
    } else if i == 377 {
        "attack_speed_+%_while_missing_ward"@
    } else if i == 378 {
        "attacks_num_of_additional_chains"@
    } else if i == 379 {
        "avoid_all_elemental_status_%"@
    } else if i == 380 {
        "base_all_ailment_duration_+%"@
    } else if i == 381 {
        "base_all_ailment_duration_on_self_+%"@
    } else if i == 382 {
        "base_all_attributes"@
    } else if i == 383 {
        "base_attack_skill_cost_efficiency_+%"@
    } else if i == 384 {
        "base_avoid_chill_%"@
    } else if i == 385 {
        "base_avoid_freeze_%"@
    } else if i == 386 {
        "base_avoid_ignite_%"@
    } else if i == 387 {
        "base_avoid_shock_%"@
    } else if i == 388 {
        "base_avoid_stun_%"@
    } else if i == 389 {
        "base_bleed_chance_is_poison_chance_instead"@
    } else if i == 390 {
        "base_chance_to_shock_%"@
    } else if i == 391 {
        "base_damaging_ailment_effect_+%"@
    } else if i == 392 {
        "base_elemental_status_ailment_duration_+%"@
    } else if i == 393 {
        "base_enemy_critical_strike_chance_+%_against_self"@
    } else if i == 394 {
        "base_life_cost_efficiency_+%"@
    } else if i == 395 {
        "base_life_leech_does_not_stop_at_full_life"@
    } else if i == 396 {
        "base_life_leech_rate_+%"@
    } else if i == 397 {
        "base_mana_cost_+_with_non_channelling_skills"@
    } else if i == 398 {
        "base_mana_cost_efficiency_+%"@
    } else if i == 399 {
        "base_mana_leech_rate_+%"@
    } else if i == 400 {
        "base_mana_reservation_efficiency_+%"@
    } else if i == 401 {
        "base_maximum_seals_for_skill"@
    } else if i == 402 {
        "base_minion_duration_+%"@
    } else if i == 403 {
        "base_number_of_essence_spirits_allowed"@
    } else if i == 404 {
        "base_onlsaught_on_hit_%_chance"@
    } else if i == 405 {
        "base_poison_chance_is_bleed_chance_instead"@
    } else if i == 406 {
        "base_rage_cost_efficiency_+%"@
    } else if i == 407 {
        "base_reservation_efficiency_+%"@
    } else if i == 408 {
        "base_skill_cost_efficiency_+%"@
    } else if i == 409 {
        "base_spell_cooldown_speed_+%"@
    } else if i == 410 {
        "base_spell_mana_cost_efficiency_+%"@
    } else if i == 411 {
        "base_spirit_reservation_efficiency_+%"@
    } else if i == 412 {
        "base_thorns_critical_strike_chance"@
    } else if i == 413 {
        "base_unholy_might_granted_magnitude_+%"@
    } else if i == 414 {
        "bell_hit_limit"@
    } else if i == 415 {
        "bleed_chance_+%"@
    } else if i == 416 {
        "block_%_damage_taken_while_active_blocking"@
    } else if i == 417 {
        "body_armour_+%"@
    } else if i == 418 {
        "body_armour_evasion_rating_+%"@
    } else if i == 419 {
        "broken_armour_and_sundered_armour_debuff_effect_+%"@
    } else if i == 420 {
        "cannot_be_inflicted_by_corrupted_blood"@
    } else if i == 421 {
        "cannot_be_poisoned"@
    } else if i == 422 {
        "cast_speed_+%_during_mana_flask_effect"@
    } else if i == 423 {
        "cast_speed_+%_per_num_unique_spells_cast_recently"@
    } else if i == 424 {
        "cast_speed_+%_when_on_full_life"@
    } else if i == 425 {
        "cast_speed_+%_when_on_low_life"@
    } else if i == 426 {
        "cast_speed_+%_while_on_full_mana"@
    } else if i == 427 {
        "chance_%_to_gain_archon_of_nature_on_overgrowing_plant"@
    } else if i == 428 {
        "chance_%_to_gain_archon_of_undeath_when_you_create_an_offering"@
    } else if i == 429 {
        "chance_to_crush_on_hit_%"@
    } else if i == 430 {
        "chance_to_fire_1_additional_projectile_%_with_rollover"@
    } else if i == 431 {
        "chance_to_gain_power_charge_on_stun_%"@
    } else if i == 432 {
        "chance_to_not_consume_infusion_%_if_lost_archon_in_past_6_seconds"@
    } else if i == 433 {
        "chance_to_retain_40%_of_glory_on_use_%"@
    } else if i == 434 {
        "chaos_damage_resistance_%_per_poison_stack"@
    } else if i == 435 {
        "chaos_damage_taken_over_time_+%"@
    } else if i == 436 {
        "chaos_dot_multiplier_+"@
    } else if i == 437 {
        "chaos_resistance_+_while_using_flask"@
    } else if i == 438 {
        "charge_skip_consume_chance_%"@
    } else if i == 439 {
        "charms_%_chance_to_not_consume_charges"@
    } else if i == 440 {
        "cold_damage_+%_cold_infusion_collected_last_8_seconds"@
    } else if i == 441 {
        "cold_damage_taken_goes_to_life_over_4_seconds_%"@
    } else if i == 442 {
        "cold_dot_multiplier_+"@
    } else if i == 443 {
        "companion_attack_speed_+%"@
    } else if i == 444 {
        "created_remnants_have_%_chance_to_duplicate_pick_up_results"@
    } else if i == 445 {
        "critical_hit_damage_bonus_+%_vs_enemies_within_2m_distance"@
    } else if i == 446 {
        "critical_strike_chance_+%_vs_enemies_further_than_6m_distance"@
    } else if i == 447 {
        "critical_strike_chance_+%_vs_marked_enemies"@
    } else if i == 448 {
        "curse_effect_on_self_+%"@
    } else if i == 449 {
        "damage_+%_against_enemies_marked_by_you"@
    } else if i == 450 {
        "damage_+%_per_poison_up_to_75%"@
    } else if i == 451 {
        "damage_+%_vs_immobilised_enemies"@
    } else if i == 452 {
        "damage_+%_while_in_presence_of_companion"@
    } else if i == 453 {
        "damage_+%_while_leeching"@
    } else if i == 454 {
        "damage_+%_while_totem_active"@
    } else if i == 455 {
        "damage_removed_from_spectres_before_life_or_es_%"@
    } else if i == 456 {
        "damage_taken_goes_to_life_mana_es_over_4_seconds_%"@
    } else if i == 457 {
        "damage_vs_cursed_enemies_per_enemy_curse_+%"@
    } else if i == 458 {
        "deal_1000_chaos_damage_per_second_for_10_seconds_on_hit"@
    } else if i == 459 {
        "deflected_hit_damage_taken_%_recouped_as_life"@
    } else if i == 460 {
        "deflection_rating_+%"@
    } else if i == 461 {
        "dexterity_and_intelligence_+%"@
    } else if i == 462 {
        "dodge_roll_base_travel_distance"@
    } else if i == 463 {
        "dummy_stat_display_nothing"@
    } else if i == 464 {
        "elemental_ailment_types_apply_damage_taken_+%"@
    } else if i == 465 {
        "elemental_penetration_%_during_flask_effect"@
    } else if i == 466 {
        "elemental_skill_limit_+"@
    } else if i == 467 {
        "enemies_chaos_resistance_%_while_cursed"@
    } else if i == 468 {
        "enemies_explode_on_kill"@
    } else if i == 469 {
        "energy_shield_recharge_rate_+%_if_blocked_recently"@
    } else if i == 470 {
        "essence_abyss_guaranteed_pick"@
    } else if i == 471 {
        "essence_buff_elemental_damage_taken_+%"@
    } else if i == 472 {
        "essence_display_elemental_damage_taken_while_not_moving_+%"@
    } else if i == 473 {
        "evasion_rating_+%"@
    } else if i == 474 {
        "evasion_rating_+%_while_leeching"@
    } else if i == 475 {
        "explode_burning_enemies_for_10%_life_as_fire_on_kill_chance_%"@
    } else if i == 476 {
        "explode_enemies_for_10%_life_as_physical_on_kill_chance_%"@
    } else if i == 477 {
        "explode_enemies_for_25%_life_as_chaos_on_kill_chance_%"@
    } else if i == 478 {
        "exposure_effect_+%"@
    } else if i == 479 {
        "fire_damage_+%_if_fire_infusion_collected_last_8_seconds"@
    } else if i == 480 {
        "fire_damage_taken_goes_to_life_over_4_seconds_%"@
    } else if i == 481 {
        "fire_dot_multiplier_+"@
    } else if i == 482 {
        "fire_spell_additional_critical_strike_chance_permyriad"@
    } else if i == 483 {
        "fish_quantity_+%"@
    } else if i == 484 {
        "fish_rarity_+%"@
    } else if i == 485 {
        "fishing_hook_type"@
    } else if i == 486 {
        "fishing_line_strength_+%"@
    } else if i == 487 {
        "fishing_lure_type"@
    } else if i == 488 {
        "fishing_pool_consumption_+%"@
    } else if i == 489 {
        "fishing_range_+%"@
    } else if i == 490 {
        "flasks_%_chance_to_not_consume_charges"@
    } else if i == 491 {
        "fully_break_enemies_armour_on_heavy_stun_with_shield_skills"@
    } else if i == 492 {
        "gain_alchemists_genius_on_flask_use_%"@
    } else if i == 493 {
        "gain_arcane_surge_on_crit_%_chance"@
    } else if i == 494 {
        "gain_onslaught_for_3_seconds_%_chance_when_hit"@
    } else if i == 495 {
        "global_armour_evasion_energy_shield_+%"@
    } else if i == 496 {
        "global_item_attribute_requirements_+%"@
    } else if i == 497 {
        "glory_generation_+%"@
    } else if i == 498 {
        "grenade_skill_%_chance_to_explode_twice"@
    } else if i == 499 {
        "grenade_skill_damage_+%"@
    } else if i == 500 {
        "grenade_skill_duration_+%"@
    } else if i == 501 {
        "hand_wraps_attack_damage_+%_final_on_low_mana"@
    } else if i == 502 {
        "hand_wraps_damage_taken_+%_final_on_low_life"@
    } else if i == 503 {
        "hand_wraps_evasion_rating_and_energy_shield_+%_final"@
    } else if i == 504 {
        "has_grave_command"@
    } else if i == 505 {
        "have_unholy_might"@
    } else if i == 506 {
        "heavy_stun_poise_decay_rate_+%"@
    } else if i == 507 {
        "hinder_enemy_chaos_damage_taken_+%"@
    } else if i == 508 {
        "hinder_enemy_elemental_damage_taken_+%"@
    } else if i == 509 {
        "hinder_enemy_physical_damage_taken_+%"@
    } else if i == 510 {
        "hit_damage_freeze_multiplier_+%_if_consumed_power_charge_recently"@
    } else if i == 511 {
        "hit_damage_immobilisation_multiplier_+%"@
    } else if i == 512 {
        "ignite_effect_+%_if_consumed_endurance_charge_recently"@
    } else if i == 513 {
        "invocation_skill_maximum_energy_+%"@
    } else if i == 514 {
        "invocation_spell_chance_to_cost_half_energy_%"@
    } else if i == 515 {
        "invocation_spell_damage_+%"@
    } else if i == 516 {
        "leech_%_is_instant"@
    } else if i == 517 {
        "life_gained_on_attack_hit_if_crit_recently"@
    } else if i == 518 {
        "life_gained_on_attack_hit_vs_cursed_enemies"@
    } else if i == 519 {
        "life_leech_can_overcap_life"@
    } else if i == 520 {
        "life_regeneration_per_minute_%_while_frozen"@
    } else if i == 521 {
        "life_regeneration_rate_+%_while_moving"@
    } else if i == 522 {
        "life_regeneration_rate_+%_while_using_life_flask"@
    } else if i == 523 {
        "lightning_damage_+%_if_lightning_infusion_collected_last_8_seconds"@
    } else if i == 524 {
        "lightning_damage_can_ignite"@
    } else if i == 525 {
        "lightning_damage_taken_goes_to_life_over_4_seconds_%"@
    } else if i == 526 {
        "mana_%_gained_on_block"@
    } else if i == 527 {
        "mana_%_to_gain_as_armour"@
    } else if i == 528 {
        "mana_cost_efficiency_+%_if_dodge_rolled_recently"@
    } else if i == 529 {
        "mana_gained_on_attack_hit_vs_cursed_enemies"@
    } else if i == 530 {
        "mana_regeneration_rate_+%_while_shocked"@
    } else if i == 531 {
        "mana_regeneration_rate_+%_while_stationary"@
    } else if i == 532 {
        "mana_reservation_efficiency_-2%_per_1"@
    } else if i == 533 {
        "mark_skill_gem_level_+"@
    } else if i == 534 {
        "marked_enemy_damage_taken_+%"@
    } else if i == 535 {
        "max_fortification_+1_per_5"@
    } else if i == 536 {
        "max_puppet_master_stacks_+"@
    } else if i == 537 {
        "maximum_added_cold_damage_per_frenzy_charge"@
    } else if i == 538 {
        "maximum_added_fire_damage_if_blocked_recently"@
    } else if i == 539 {
        "maximum_energy_shield_from_body_armour_+%"@
    } else if i == 540 {
        "maximum_ward_+%"@
    } else if i == 541 {
        "melee_attack_skills_additional_totems_allowed"@
    } else if i == 542 {
        "melee_attacks_number_of_additional_projectiles"@
    } else if i == 543 {
        "minimum_added_cold_damage_per_frenzy_charge"@
    } else if i == 544 {
        "minimum_added_fire_damage_if_blocked_recently"@
    } else if i == 545 {
        "minion_area_of_effect_+%"@
    } else if i == 546 {
        "minion_armour_break_physical_damage_%_dealt_as_armour_break"@
    } else if i == 547 {
        "minion_base_damaging_ailment_effect_+%"@
    } else if i == 548 {
        "minion_chance_to_fire_1_additional_projectile_%_with_rollover"@
    } else {
        Seq::empty()
    }
}

/// Row `i` of the bucket table: a stat identifier and the buckets it feeds.
pub fn bucket_table_row(i: usize) -> (r: (&'static str, Vec<StatBucket>))
    requires
        i < bucket_table_len(),
    ensures
        r.0@ == bucket_table_name(i as int),
        r.1@ == bucket_table_buckets(i as int),
{
    if i == 0 {
        ("strength_+%", vec![StatBucket::StrengthPercent])
    } else if i == 1 {
        ("dexterity_+%", vec![StatBucket::DexterityPercent])
    } else if i == 2 {
        ("intelligence_+%", vec![StatBucket::IntelligencePercent])
    } else if i == 3 {
        ("base_maximum_life", vec![StatBucket::Life])
    } else if i == 4 {
        ("base_maximum_ward", vec![StatBucket::Ward])
    } else if i == 5 {
        ("maximum_life_+%", vec![StatBucket::LifePercent])
    } else if i == 6 {
        ("base_maximum_mana", vec![StatBucket::Mana])
    } else if i == 7 {
        ("maximum_mana_+%", vec![StatBucket::ManaPercent])
    } else if i == 8 {
        ("chaos_damage_+%", vec![StatBucket::ChaosDamagePercent])
    } else if i == 9 {
        ("additional_strength", vec![StatBucket::Strength])
    } else if i == 10 {
        ("additional_dexterity", vec![StatBucket::Dexterity])
    } else if i == 11 {
        ("additional_intelligence", vec![StatBucket::Intelligence])
    } else if i == 12 {
        ("additional_strength_and_intelligence", vec![StatBucket::Strength, StatBucket::Intelligence])
    } else if i == 13 {
        ("additional_strength_and_dexterity", vec![StatBucket::Strength, StatBucket::Dexterity])
    } else if i == 14 {
        ("additional_all_attributes", vec![StatBucket::Strength, StatBucket::Dexterity, StatBucket::Intelligence])
    } else if i == 15 {
        ("base_fire_damage_resistance_%", vec![StatBucket::FireResistance])
    } else if i == 16 {
        ("base_cold_damage_resistance_%", vec![StatBucket::ColdResistance])
    } else if i == 17 {
        ("base_lightning_damage_resistance_%", vec![StatBucket::LightningResistance])
    } else if i == 18 {
        ("base_chaos_damage_resistance_%", vec![StatBucket::ChaosResistance])
    } else if i == 19 {
        ("base_resist_all_elements_%", vec![StatBucket::FireResistance, StatBucket::ColdResistance, StatBucket::LightningResistance, StatBucket::ChaosResistance])
    } else if i == 20 {
        ("base_physical_damage_reduction_rating", vec![StatBucket::Armour])
    } else if i == 21 {
        ("base_evasion_rating", vec![StatBucket::Evasion])
    } else if i == 22 {
        ("base_maximum_energy_shield", vec![StatBucket::EnergyShield])
    } else if i == 23 {
        ("physical_damage_reduction_rating_+%", vec![StatBucket::ArmourPercent])
    } else if i == 24 {
        ("maximum_energy_shield_+%", vec![StatBucket::MaximumEnergyShieldPercent])
    } else if i == 25 {
        ("stun_threshold_+", vec![StatBucket::StunThreshold])
    } else if i == 26 {
        ("base_movement_velocity_+%", vec![StatBucket::MovementSpeedPercent])
    } else if i == 27 {
        ("thorns_minimum_base_physical_damage", vec![StatBucket::ThornsPhysicalMin])
    } else if i == 28 {
        ("thorns_maximum_base_physical_damage", vec![StatBucket::ThornsPhysicalMax])
    } else if i == 29 {
        ("attack_minimum_added_physical_damage", vec![StatBucket::GlobalAttackPhysicalMin])
    } else if i == 30 {
        ("attack_maximum_added_physical_damage", vec![StatBucket::GlobalAttackPhysicalMax])
    } else if i == 31 {
        ("attack_minimum_added_fire_damage", vec![StatBucket::GlobalAttackFireMin])
    } else if i == 32 {
        ("attack_maximum_added_fire_damage", vec![StatBucket::GlobalAttackFireMax])
    } else if i == 33 {
        ("attack_minimum_added_cold_damage", vec![StatBucket::GlobalAttackColdMin])
    } else if i == 34 {
        ("attack_maximum_added_cold_damage", vec![StatBucket::GlobalAttackColdMax])
    } else if i == 35 {
        ("attack_minimum_added_lightning_damage", vec![StatBucket::GlobalAttackLightningMin])
    } else if i == 36 {
        ("attack_maximum_added_lightning_damage", vec![StatBucket::GlobalAttackLightningMax])
    } else if i == 37 {
        ("attack_damage_+%", vec![StatBucket::AttackDamageIncreasePrecent])
    } else if i == 38 {
        ("allies_in_presence_attack_minimum_added_physical_damage", vec![StatBucket::AlliesInPresenceAttackPhysicalMin])
    } else if i == 39 {
        ("allies_in_presence_attack_maximum_added_physical_damage", vec![StatBucket::AlliesInPresenceAttackPhysicalMax])
    } else if i == 40 {
        ("allies_in_presence_attack_minimum_added_fire_damage", vec![StatBucket::AlliesInPresenceAttackFireMin])
    } else if i == 41 {
        ("allies_in_presence_attack_maximum_added_fire_damage", vec![StatBucket::AlliesInPresenceAttackFireMax])
    } else if i == 42 {
        ("allies_in_presence_attack_minimum_added_cold_damage", vec![StatBucket::AlliesInPresenceAttackColdMin])
    } else if i == 43 {
        ("allies_in_presence_attack_maximum_added_cold_damage", vec![StatBucket::AlliesInPresenceAttackColdMax])
    } else if i == 44 {
        ("allies_in_presence_attack_minimum_added_lightning_damage", vec![StatBucket::AlliesInPresenceAttackLightningMin])
    } else if i == 45 {
        ("allies_in_presence_attack_maximum_added_lightning_damage", vec![StatBucket::AlliesInPresenceAttackLightningMax])
    } else if i == 46 {
        ("allies_in_presence_attack_minimum_added_chaos_damage", vec![StatBucket::AlliesInPresenceAttackChaosMin])
    } else if i == 47 {
        ("allies_in_presence_attack_maximum_added_chaos_damage", vec![StatBucket::AlliesInPresenceAttackChaosMax])
    } else if i == 48 {
        ("allies_in_presence_damage_+%", vec![StatBucket::AlliesInPresenceDamageIncreasePrecent])
    } else if i == 49 {
        ("allies_in_presence_attack_speed_+%", vec![StatBucket::AlliesInPresenceAttackSpeedIncreasePrecent])
    } else if i == 50 {
        ("allies_in_presence_accuracy_rating", vec![StatBucket::AlliesInPresenceAccuracyRating])
    } else if i == 51 {
        ("local_accuracy_rating", vec![StatBucket::AccuracyRating])
    } else if i == 52 {
        ("accuracy_rating", vec![StatBucket::AccuracyRating])
    } else if i == 53 {
        ("accuracy_rating_+%", vec![StatBucket::AccuracyRatingPercent])
    } else if i == 54 {
        ("chance_for_exerted_attacks_to_not_reduce_count_%", vec![StatBucket::ChanceToNotConsumeExertedAttack])
    } else if i == 55 {
        ("spell_damage_+%", vec![StatBucket::SpellDamageIncreasePrecent])
    } else if i == 56 {
        ("fire_damage_+%", vec![StatBucket::FireDamageIncreasePrecent])
    } else if i == 57 {
        ("cold_damage_+%", vec![StatBucket::ColdDamageIncreasePrecent])
    } else if i == 58 {
        ("lightning_damage_+%", vec![StatBucket::LightningDamageIncreasePrecent])
    } else if i == 59 {
        ("chaos_damage_+%", vec![StatBucket::ChaosDamageIncreasePrecent])
    } else if i == 60 {
        ("physical_damage_+%", vec![StatBucket::PhysicalDamageIncreasePrecent])
    } else if i == 61 {
        ("spell_physical_damage_+%", vec![StatBucket::SpellPhysicalDamageIncreasePrecent])
    } else if i == 62 {
        ("trap_damage_+%", vec![StatBucket::TrapDamageIncreasePrecent])
    } else if i == 63 {
        ("spell_skill_gem_level_+", vec![StatBucket::SpellSkillGemLevelIncrease])
    } else if i == 64 {
        ("fire_spell_skill_gem_level_+", vec![StatBucket::FireSpellSkillGemLevelIncrease])
    } else if i == 65 {
        ("cold_spell_skill_gem_level_+", vec![StatBucket::ColdSpellSkillGemLevelIncrease])
    } else if i == 66 {
        ("lightning_spell_skill_gem_level_+", vec![StatBucket::LightningSpellSkillGemLevelIncrease])
    } else if i == 67 {
        ("chaos_spell_skill_gem_level_+", vec![StatBucket::ChaosSpellSkillGemLevelIncrease])
    } else if i == 68 {
        ("physical_spell_skill_gem_level_+", vec![StatBucket::PhysicalSpellSkillGemLevelIncrease])
    } else if i == 69 {
        ("minion_skill_gem_level_+", vec![StatBucket::MinionSkillGemLevelIncrease])
    } else if i == 70 {
        ("trap_skill_gem_level_+", vec![StatBucket::TrapSkillGemLevelIncrease])
    } else if i == 71 {
        ("melee_skill_gem_level_+", vec![StatBucket::MeleeSkillGemLevelIncrease])
    } else if i == 72 {
        ("projectile_skill_gem_level_+", vec![StatBucket::ProjectileSkillGemLevelIncrease])
    } else if i == 73 {
        ("base_life_regeneration_rate_per_minute", vec![StatBucket::LiferRegenPerMinute])
    } else if i == 74 {
        ("life_regeneration_rate_per_minute_%", vec![StatBucket::LifeRegenPerMinutePercent])
    } else if i == 75 {
        ("allies_in_presence_life_regeneration_rate_per_minute", vec![StatBucket::AlliesInPresenceLifeRegenPerMinute])
    } else if i == 76 {
        ("mana_regeneration_rate_+%", vec![StatBucket::ManaRegenerationRatePercent])
    } else if i == 77 {
        ("base_life_leech_from_physical_attack_damage_permyriad", vec![StatBucket::BaseLifeLeechFromPhysicalAttackDamage])
    } else if i == 78 {
        ("base_mana_leech_from_physical_attack_damage_permyriad", vec![StatBucket::BaseManaLeechFromPhysicalAttackDamage])
    } else if i == 79 {
        ("base_life_gained_on_enemy_death", vec![StatBucket::BaseLifeGainedOnEnemyDeath])
    } else if i == 80 {
        ("base_mana_gained_on_enemy_death", vec![StatBucket::BaseManaGainedOnEnemyDeath])
    } else if i == 81 {
        ("base_life_gain_per_target", vec![StatBucket::BaseLifeGainedOnEnemyHit])
    } else if i == 82 {
        ("base_mana_gain_per_target", vec![StatBucket::BaseManaGainedOnEnemyHit])
    } else if i == 83 {
        ("attack_speed_+%", vec![StatBucket::AttackSpeedPercent])
    } else if i == 84 {
        ("base_cast_speed_+%", vec![StatBucket::BaseCastSpeedIncreasePrecent])
    } else if i == 85 {
        ("allies_in_presence_cast_speed_+%", vec![StatBucket::AlliesInPresenceCastSpeedIncreasePrecent])
    } else if i == 86 {
        ("trap_throwing_speed_+%", vec![StatBucket::TrapThrowingSpeedIncreasePrecent])
    } else if i == 87 {
        ("critical_strike_chance_+%", vec![StatBucket::CriticalStrikeChanceIncreasePrecent])
    } else if i == 88 {
        ("spell_critical_strike_chance_+%", vec![StatBucket::SpellCriticalStrikeChanceIncreasePrecent])
    } else if i == 89 {
        ("attack_critical_strike_chance_+%", vec![StatBucket::AttackCriticalStrikeChanceIncreasePrecent])
    } else if i == 90 {
        ("trap_critical_strike_chance_+%", vec![StatBucket::TrapCriticalStrikeChanceIncreasePrecent])
    } else if i == 91 {
        ("allies_in_presence_critical_strike_chance_+%", vec![StatBucket::AlliesInPresenceCriticalStrikeChanceIncreasePrecent])
    } else if i == 92 {
        ("base_critical_strike_multiplier_+", vec![StatBucket::BaseCriticalStrikeMultiplierIncreasePrecent])
    } else if i == 93 {
        ("base_spell_critical_strike_multiplier_+", vec![StatBucket::BaseSpellCriticalStrikeMultiplierIncreasePrecent])
    } else if i == 94 {
        ("attack_critical_strike_multiplier_+", vec![StatBucket::AttackCriticalStrikeMultiplierIncrease])
    } else if i == 95 {
        ("trap_critical_strike_multiplier_+", vec![StatBucket::TrapCriticalStrikeMultiplierIncrease])
    } else if i == 96 {
        ("allies_in_presence_critical_strike_multiplier_+", vec![StatBucket::AlliesInPresenceCriticalStrikeMultiplierIncrease])
    } else if i == 97 {
        ("base_item_found_rarity_+%", vec![StatBucket::BaseItemFoundRarityIncreasePrecent])
    } else if i == 98 {
        ("light_radius_+%", vec![StatBucket::LightRadiusIncreasePrecent])
    } else if i == 99 {
        ("base_spirit", vec![StatBucket::Spirit])
    } else if i == 100 {
        ("base_spirit_from_equipment", vec![StatBucket::Spirit])
    } else if i == 101 {
        ("self_bleed_duration_+%", vec![StatBucket::SelfBleedDurationDecreasePrecent])
    } else if i == 102 {
        ("self_poison_duration_+%", vec![StatBucket::SelfPoisonDurationDecreasePrecent])
    } else if i == 103 {
        ("base_self_ignite_duration_-%", vec![StatBucket::BaseIgniteDurationDecreasePrecent])
    } else if i == 104 {
        ("base_self_shock_duration_-%", vec![StatBucket::BaseSelfShockDurationDecreasePrecent])
    } else if i == 105 {
        ("base_self_chill_duration_-%", vec![StatBucket::BaseSelfChillDurationDecreasePrecent])
    } else if i == 106 {
        ("base_self_freeze_duration_-%", vec![StatBucket::BaseSelfFreezeDurationDecreasePrecent])
    } else if i == 107 {
        ("base_self_critical_strike_multiplier_-%", vec![StatBucket::ReduceCriticalStrikeMultiplierToSelf])
    } else if i == 108 {
        ("base_additional_physical_damage_reduction_%", vec![StatBucket::PhysicalDamageReductionPrecent])
    } else if i == 109 {
        ("base_maximum_fire_damage_resistance_%", vec![StatBucket::FireResistanceMax])
    } else if i == 110 {
        ("base_maximum_cold_damage_resistance_%", vec![StatBucket::ColdResistanceMax])
    } else if i == 111 {
        ("base_maximum_lightning_damage_resistance_%", vec![StatBucket::LightningResistanceMax])
    } else if i == 112 {
        ("base_maximum_chaos_damage_resistance_%", vec![StatBucket::ChaosResistanceMax])
    } else if i == 113 {
        ("additional_maximum_all_elemental_resistances_%", vec![StatBucket::AllElementalResistanceMax])
    } else if i == 114 {
        ("energy_shield_recharge_rate_+%", vec![StatBucket::EnergyShieldRechargeRateIncreasePrecent])
    } else if i == 115 {
        ("energy_shield_delay_-%", vec![StatBucket::EnergyShieldDelayDecreasePrecent])
    } else if i == 116 {
        ("armour_%_applies_to_fire_cold_lightning_damage", vec![StatBucket::ArmourAppliesToElementalDamage])
    } else if i == 117 {
        ("base_armour_%_applies_to_chaos_damage", vec![StatBucket::ArmourPercentAppliesToChaosDamage])
    } else if i == 118 {
        ("base_deflection_rating_%_of_armour", vec![StatBucket::BaseDeflectionRatingPercentOfArmour])
    } else if i == 119 {
        ("base_deflection_rating_%_of_evasion_rating", vec![StatBucket::EvasionAppliesToDeflection])
    } else if i == 120 {
        ("base_damage_%_deflected", vec![StatBucket::DeflectDamageTaken])
    } else if i == 121 {
        ("evasion_rating_%_to_gain_as_armour", vec![StatBucket::PercentEvasionRatingAsExtraArmour])
    } else if i == 122 {
        ("base_chance_to_pierce_%", vec![StatBucket::BaseChanceToPierce])
    } else if i == 123 {
        ("base_number_of_crossbow_bolts", vec![StatBucket::BaseNumberOfCrossbowBolts])
    } else if i == 124 {
        ("flask_life_recovery_rate_+%", vec![StatBucket::FlaskLifeRecoveryRateIncreasePrecent])
    } else if i == 125 {
        ("flask_mana_recovery_rate_+%", vec![StatBucket::FlaskManaRecoveryRateIncreasePrecent])
    } else if i == 126 {
        ("charm_duration_+%", vec![StatBucket::CharmDurationIncreasePrecent])
    } else if i == 127 {
        ("flask_charges_gained_+%", vec![StatBucket::FlaskChargesGainedIncreasePrecent])
    } else if i == 128 {
        ("flask_duration_+%", vec![StatBucket::FlaskDurationIncreasePrecent])
    } else if i == 129 {
        ("flask_charges_used_+%", vec![StatBucket::FlaskChargesReducedUsedIncreasePrecent])
    } else if i == 130 {
        ("charm_charges_gained_+%", vec![StatBucket::CharmChargesGainedIncreasePrecent])
    } else if i == 131 {
        ("charm_charges_used_+%", vec![StatBucket::CharmChargesReducedUsedIncreasePrecent])
    } else if i == 132 {
        ("ignite_chance_+%", vec![StatBucket::IgniteChanceIncreasePrecent])
    } else if i == 133 {
        ("damage_+%_while_using_charm", vec![StatBucket::DamageWhileUsingCharmIncreasePrecent])
    } else if i == 134 {
        ("hit_damage_freeze_multiplier_+%", vec![StatBucket::HitDamageFreezeMultiplierIncreasePrecent])
    } else if i == 135 {
        ("shock_chance_+%", vec![StatBucket::ShockChanceIncreasePrecent])
    } else if i == 136 {
        ("shock_duration_+%", vec![StatBucket::ShockDurationIncreasePrecent])
    } else if i == 137 {
        ("base_projectile_speed_+%", vec![StatBucket::BaseProjectileSpeedIncreasePrecent])
    } else if i == 138 {
        ("damage_taken_goes_to_life_over_4_seconds_%", vec![StatBucket::DamageTakenGoesToLifeOver4Seconds])
    } else if i == 139 {
        ("damage_taken_goes_to_mana_%", vec![StatBucket::DamageTakenGoesToMana])
    } else if i == 140 {
        ("elemental_damage_with_attack_skills_+%", vec![StatBucket::ElementalDamageWithAttackSkillsIncreasePrecent])
    } else if i == 141 {
        ("non_skill_base_all_damage_%_to_gain_as_fire", vec![StatBucket::NonSkillBaseAllDamageToGainAsFire])
    } else if i == 142 {
        ("non_skill_base_all_damage_%_to_gain_as_cold", vec![StatBucket::NonSkillBaseAllDamageToGainAsCold])
    } else if i == 143 {
        ("non_skill_base_all_damage_%_to_gain_as_lightning", vec![StatBucket::NonSkillBaseAllDamageToGainAsLightning])
    } else if i == 144 {
        ("non_skill_base_all_damage_%_to_gain_as_chaos", vec![StatBucket::NonSkillBaseAllDamageToGainAsChaos])
    } else if i == 145 {
        ("damage_+%_with_bow_skills", vec![StatBucket::DamageWithBowSkillsIncreasePrecent])
    } else if i == 146 {
        ("presence_area_+%", vec![StatBucket::PresenceAreaIncreasePrecent])
    } else if i == 147 {
        ("minion_maximum_life_+%", vec![StatBucket::MinionMaximumLifeIncreasePrecent])
    } else if i == 148 {
        ("minion_additional_physical_damage_reduction_%", vec![StatBucket::MinionAdditionalPhysicalDamageReductionIncreasePrecent])
    } else if i == 149 {
        ("minion_elemental_resistance_%", vec![StatBucket::MinionFireResistance, StatBucket::MinionColdResistance, StatBucket::MinionLightningResistance, StatBucket::MinionChaosResistance])
    } else if i == 150 {
        ("minion_resummon_speed_+%", vec![StatBucket::MinionResummonSpeedIncreasePrecent])
    } else if i == 151 {
        ("trap_trigger_radius_+%", vec![StatBucket::TrapTriggerRadiusIncreasePrecent])
    } else if i == 152 {
        ("charm_recover_X_life_when_used", vec![StatBucket::CharmRecoverXLifeWhenUsed])
    } else if i == 153 {
        ("charm_recover_X_mana_when_used", vec![StatBucket::CharmRecoverXManaWhenUsed])
    } else if i == 154 {
        ("charm_gain_X_guard_for_duration", vec![StatBucket::CharmGainXGuardForDuration])
    } else if i == 155 {
        ("hit_damage_stun_multiplier_+%", vec![StatBucket::HitDamageStunMultiplierIncreasePrecent])
    } else if i == 156 {
        ("chance_to_poison_on_hit_with_attacks_%", vec![StatBucket::ChanceToPoisonOnHitWithAttacks])
    } else if i == 157 {
        ("bleed_on_hit_with_attacks_%", vec![StatBucket::ChanceBleedOnHitWithAttacks])
    } else if i == 158 {
        ("base_arrow_speed_+%", vec![StatBucket::BaseArrowSpeedIncreasePrecent])
    } else if i == 159 {
        ("additional_maximum_all_resistances_%", vec![StatBucket::AllElementalResistanceMax])
    } else if i == 160 {
        ("fire_and_cold_damage_resistance_%", vec![StatBucket::FireResistance, StatBucket::ColdResistance])
    } else if i == 161 {
        ("fire_and_lightning_damage_resistance_%", vec![StatBucket::FireResistance, StatBucket::LightningResistance])
    } else if i == 162 {
        ("cold_and_lightning_damage_resistance_%", vec![StatBucket::ColdResistance, StatBucket::LightningResistance])
    } else if i == 163 {
        ("fire_and_chaos_damage_resistance_%", vec![StatBucket::FireResistance, StatBucket::ChaosResistance])
    } else if i == 164 {
        ("cold_and_chaos_damage_resistance_%", vec![StatBucket::ColdResistance, StatBucket::ChaosResistance])
    } else if i == 165 {
        ("lightning_and_chaos_damage_resistance_%", vec![StatBucket::LightningResistance, StatBucket::ChaosResistance])
    } else if i == 166 {
        ("flask_life_to_recover_+%", vec![StatBucket::FlaskLifeRecoveryRateIncreasePrecent])
    } else if i == 167 {
        ("life_flask_charges_gained_+%", vec![StatBucket::LifeFlaskChargesGainedIncreasePrecent])
    } else if i == 168 {
        ("flask_mana_to_recover_+%", vec![StatBucket::FlaskManaRecoveryRateIncreasePrecent])
    } else if i == 169 {
        ("mana_flask_charges_gained_+%", vec![StatBucket::ManaFlaskChargesGainedIncreasePrecent])
    } else if i == 170 {
        ("stun_threshold_+%", vec![StatBucket::StunThresholdPercent])
    } else if i == 171 {
        ("flask_recovery_amount_%_to_recover_instantly", vec![StatBucket::FlaskRecoveryAmountPercentToRecoverInstantly])
    } else if i == 172 {
        ("generate_x_charges_for_any_flask_per_minute", vec![StatBucket::GenerateXChargesForAnyFlaskPerMinute])
    } else if i == 173 {
        ("maximum_mana_%_gained_on_kill", vec![StatBucket::MaximumManaGainedOnKillPercent])
    } else if i == 174 {
        ("base_mana_leech_amount_+%", vec![StatBucket::BaseManaLeechAmountIncreasePrecent])
    } else if i == 175 {
        ("ailment_threshold_+%", vec![StatBucket::AilmentThresholdPercent])
    } else if i == 176 {
        ("ailment_threshold_+", vec![StatBucket::AilmentThresholdFlat])
    } else if i == 177 {
        ("base_slow_potency_+%", vec![StatBucket::BaseSlowPotencyPercent])
    } else if i == 178 {
        ("spear_attack_speed_+%", vec![StatBucket::SpearAttackSpeedIncreasePrecent])
    } else if i == 179 {
        ("spear_critical_strike_multiplier_+", vec![StatBucket::SpearCriticalStrikeMultiplierIncreasePrecent])
    } else if i == 180 {
        ("spear_damage_+%", vec![StatBucket::SpearDamageIncreasePrecent])
    } else if i == 181 {
        ("stun_threshold_+_from_%_maximum_energy_shield", vec![StatBucket::StunThresholdFromMaximumEnergyShieldPercent])
    } else if i == 182 {
        ("ailment_threshold_+_from_%_maximum_energy_shield", vec![StatBucket::AilmentThresholdFromMaximumEnergyShieldPercent])
    } else if i == 183 {
        ("stun_threshold_+%_when_not_stunned_recently", vec![StatBucket::StunThresholdWhenNotStunnedRecentlyPercent])
    } else if i == 184 {
        ("sword_damage_+%", vec![StatBucket::SwordDamageIncreasePrecent])
    } else if i == 185 {
        ("thorns_damage_+%", vec![StatBucket::ThornsDamageIncreasePrecent])
    } else if i == 186 {
        ("totem_damage_+%", vec![StatBucket::TotemDamageIncreasePrecent])
    } else if i == 187 {
        ("trap_damage_+%", vec![StatBucket::TrapDamageIncreasePrecent])
    } else if i == 188 {
        ("summon_totem_cast_speed_+%", vec![StatBucket::SummonTotemCastSpeedIncreasePrecent])
    } else if i == 189 {
        ("totem_life_+%", vec![StatBucket::TotemLifeIncreasePrecent])
    } else if i == 190 {
        ("sword_attack_speed_+%", vec![StatBucket::SwordAttackSpeedIncreasePrecent])
    } else if i == 191 {
        ("base_bleeding_effect_+%", vec![StatBucket::BaseBleedingEffectPercent])
    } else if i == 192 {
        ("movement_speed_penalty_+%_while_performing_action", vec![StatBucket::MovementSpeedPenaltyReductionPercent])
    } else if i == 193 {
        ("base_damage_removed_from_mana_before_life_%", vec![StatBucket::BaseDamageRemovedFromManaBeforeLifePercent])
    } else if i == 194 {
        ("self_elemental_status_duration_-%", vec![StatBucket::SelfStatusAilmentDurationReductionPercent])
    } else if i == 195 {
        ("corrupted_skill_gem_level_+", vec![StatBucket::CorruptedSkillGemLevelIncrease])
    } else if i == 196 {
        ("all_skill_gem_level_+", vec![StatBucket::AllSkillGemLevelIncrease])
    } else if i == 197 {
        ("ward_regeneration_rate_+%", vec![StatBucket::WardRegenerationRateIncreasePrecent])
    } else if i == 198 {
        ("base_ignite_effect_+%", vec![StatBucket::BaseIgniteIncereasedMagnitudePrecent])
    } else if i == 199 {
        ("base_damage_taken_+%", vec![StatBucket::BaseDamageTakenIncreasePrecent])
    } else if i == 200 {
        ("shield_armour_evasion_energy_shield_+%", vec![StatBucket::IncreaseEvasionPercentArmourPercentEnergyShieldPercentFromShield])
    } else if i == 201 {
        ("melee_splash", vec![StatBucket::StrikesDealMeleeSplash])
    } else if i == 202 {
        ("warcry_empowers_next_x_melee_attacks", vec![StatBucket::WarCryEmpowersNextXMeleeAttacks])
    } else if i == 203 {
        ("minion_damage_+%", vec![StatBucket::MinionDamageIncreasePrecent])
    } else if i == 204 {
        ("gain_x_rage_on_melee_hit", vec![StatBucket::GainXRageOnMeleeHit])
    } else if i == 205 {
        ("gain_x_rage_when_hit", vec![StatBucket::GainXRageWhenGetByEnemyHit])
    } else if i == 206 {
        ("shock_effect_+%", vec![StatBucket::ShockEffectIncreasePrecent])
    } else if i == 207 {
        ("maximum_rage", vec![StatBucket::MaximumRage])
    } else if i == 208 {
        ("minion_accuracy_rating_+%", vec![StatBucket::MinionAccuracyRatingIncreasePrecent])
    } else if i == 209 {
        ("minion_skill_area_of_effect_+%", vec![StatBucket::MinionSkillAreaOfEffectIncreasePrecent])
    } else if i == 210 {
        ("minion_chaos_resistance_%", vec![StatBucket::MinionChaosResistanceIncreasePrecent])
    } else if i == 211 {
        ("minion_critical_strike_chance_+%", vec![StatBucket::MinionCriticalStrikeChanceIncreasePrecent])
    } else if i == 212 {
        ("minion_critical_strike_multiplier_+", vec![StatBucket::MinionCriticalStrikeMultiplierIncreasePrecent])
    } else if i == 213 {
        ("minion_attack_and_cast_speed_+%", vec![StatBucket::MinionAttackAndCastSpeedIncreasePrecent])
    } else if i == 214 {
        ("melee_damage_+%", vec![StatBucket::MeleeDamageIncreasePrecent])
    } else if i == 215 {
        ("mark_effect_+%", vec![StatBucket::MarkEffectIncreasePrecent])
    } else if i == 216 {
        ("mark_skill_duration_+%", vec![StatBucket::MarkSkillDurationIncreasePrecent])
    } else if i == 217 {
        ("mark_use_speed_+%", vec![StatBucket::MarkUseSpeedIncreasePrecent])
    } else if i == 218 {
        ("additional_block_%", vec![StatBucket::AdditionalBlockIncreasePrecent])
    } else if i == 219 {
        ("faster_bleed_%", vec![StatBucket::FasterBleedDamage])
    } else if i == 220 {
        ("spells_cost_life_instead_of_mana_%", vec![StatBucket::SpellsCostLifeInsteadOfMana])
    } else if i == 221 {
        ("chance_to_fire_1_additional_projectile_%_with_rollover_with_bow_attacks", vec![StatBucket::ChanceToFire1AdditionalProjectileWithRolloverWithBowAttacks])
    } else if i == 222 {
        ("projectile_attack_range_+%", vec![StatBucket::ProjectileAttackRangePrecent])
    } else if i == 223 {
        ("projectile_speed_+%_with_crossbow_skills", vec![StatBucket::ProjectileSpeedIncreasePrecentForCrossbowSkills])
    } else if i == 224 {
        ("grenade_skill_number_of_additional_projectiles", vec![StatBucket::GrenadeSkillNumberOfAdditionalProjectiles])
    } else if i == 225 {
        ("additional_ballista_totems_allowed", vec![StatBucket::AdditionalBallistaTotemsAllowed])
    } else if i == 226 {
        ("grenade_skill_cooldown_count_+", vec![StatBucket::GrenadeSkillCooldownCount])
    } else if i == 227 {
        ("grenade_skill_cooldown_speed_+%", vec![StatBucket::GrenadeSkillCooldownSpeedIncreasePrecent])
    } else if i == 228 {
        ("placing_traps_cooldown_recovery_+%", vec![StatBucket::PlacingTrapsCooldownRecoveryForThrowingIncreasePrecent])
    } else if i == 229 {
        ("ailment_chance_+%", vec![StatBucket::AilmentChanceIncreasePrecent])
    } else if i == 230 {
        ("ailment_effect_+%", vec![StatBucket::AilmentEffectIncreasePrecent])
    } else if i == 231 {
        ("base_skill_area_of_effect_+%", vec![StatBucket::BaseSkillAreaOfEffectIncreasePrecent])
    } else if i == 232 {
        ("armour_break_amount_+%", vec![StatBucket::ArmourBreakAmountIncreasePrecent])
    } else if i == 233 {
        ("armour_break_and_sundered_armour_duration_+%", vec![StatBucket::ArmourBreakDurationIncreasePrecent])
    } else if i == 234 {
        ("aura_effect_+%", vec![StatBucket::AuraEffectIncreasePrecent])
    } else if i == 235 {
        ("axe_damage_+%", vec![StatBucket::AxeDamageIncreasePrecent])
    } else if i == 236 {
        ("axe_attack_speed_+%", vec![StatBucket::AxeAttackSpeedIncreasePrecent])
    } else if i == 237 {
        ("base_chance_to_inflict_bleeding_%", vec![StatBucket::BaseChanceToInflictBleeding])
    } else if i == 238 {
        ("base_bleed_duration_+%", vec![StatBucket::BaseBleedDurationIncreasePrecent])
    } else if i == 239 {
        ("blind_effect_+%", vec![StatBucket::BlindEffectIncreasePrecent])
    } else if i == 240 {
        ("attacks_chance_to_blind_on_hit_%", vec![StatBucket::ChanceToBlindOnHitWithAttacks])
    } else if i == 241 {
        ("block_chance_+%", vec![StatBucket::BlockChanceIncreasePrecent])
    } else if i == 242 {
        ("damage_+%_to_rare_and_unique_enemies", vec![StatBucket::DamageToRareAndUniqueEnemiesIncreasePrecent])
    } else if i == 243 {
        ("bow_accuracy_rating_+%", vec![StatBucket::AccuracyRatingIncreaseWithBowPrecent])
    } else if i == 244 {
        ("bow_damage_+%", vec![StatBucket::BowDamageIncreasePrecent])
    } else if i == 245 {
        ("bow_attack_speed_+%", vec![StatBucket::BowAttackSpeedIncreasePrecent])
    } else if i == 246 {
        ("projectile_chance_to_chain_1_extra_time_from_terrain_%", vec![StatBucket::ProjectileChanceToChain1ExtraTimeFromTerrainIncreasePrecent])
    } else if i == 247 {
        ("chill_duration_+%", vec![StatBucket::ChillDurationIncreasePrecent])
    } else if i == 248 {
        ("base_reduce_enemy_cold_resistance_%", vec![StatBucket::ColdResistancePenetration])
    } else if i == 249 {
        ("base_cooldown_speed_+%", vec![StatBucket::BaseCooldownSpeedIncreasePrecent])
    } else if i == 250 {
        ("damage_+%_if_you_have_consumed_a_corpse_recently", vec![StatBucket::DamageIfYouHaveConsumedACorpseRecentlyIncreasePrecent])
    } else if i == 251 {
        ("critical_hit_damaging_ailment_effect_+%", vec![StatBucket::CriticalHitDamagingAilmentEffectIncreasePrecent])
    } else if i == 252 {
        ("crossbow_damage_+%", vec![StatBucket::CrossbowDamageIncreasePrecent])
    } else if i == 253 {
        ("reload_speed_+%", vec![StatBucket::ReloadSpeedIncreasePrecent])
    } else if i == 254 {
        ("%_chance_for_crossbow_reload_to_be_instant", vec![StatBucket::CrossbowReloadInstantChanceIncreasePrecent])
    } else if i == 255 {
        ("crossbow_attack_speed_+%", vec![StatBucket::CrossbowAttackSpeedIncreasePrecent])
    } else if i == 256 {
        ("curse_area_of_effect_+%", vec![StatBucket::CurseAreaOfEffectIncreasePrecent])
    } else if i == 257 {
        ("curse_delay_+%", vec![StatBucket::CurseDelayIncreasePrecent])
    } else if i == 258 {
        ("base_curse_duration_+%", vec![StatBucket::BaseCurseDurationIncreasePrecent])
    } else if i == 259 {
        ("curse_effect_+%", vec![StatBucket::CurseEffectIncreasePrecent])
    } else if i == 260 {
        ("dagger_critical_strike_chance_+%", vec![StatBucket::DaggerCriticalStrikeChanceIncreasePrecent])
    } else if i == 261 {
        ("dagger_damage_+%", vec![StatBucket::DaggerDamageIncreasePrecent])
    } else if i == 262 {
        ("dagger_attack_speed_+%", vec![StatBucket::DaggerAttackSpeedIncreasePrecent])
    } else if i == 263 {
        ("damage_+%_against_enemies_with_fully_broken_armour", vec![StatBucket::DamageAgainstEnemiesWithFullyBrokenArmourIncreasePrecent])
    } else if i == 264 {
        ("damaging_ailment_duration_+%", vec![StatBucket::DamagingAilmentDurationIncreasePrecent])
    } else if i == 265 {
        ("base_chance_to_daze_%", vec![StatBucket::BaseChanceToDazeIncreasePrecent])
    } else if i == 266 {
        ("debuff_time_passed_+%", vec![StatBucket::DebuffTimePassedIncreasePrecent])
    } else if i == 267 {
        ("ignite_shock_chill_duration_+%", vec![StatBucket::IgniteShockChillDurationIncreasePrecent])
    } else if i == 268 {
        ("elemental_damage_+%", vec![StatBucket::ElementalDamageIncreasePrecent])
    } else if i == 269 {
        ("empowered_attack_damage_+%", vec![StatBucket::EmpoweredAttackDamageIncreasePrecent])
    } else if i == 270 {
        ("energy_generated_+%", vec![StatBucket::EnergyGeneratedIncreasePrecent])
    } else if i == 271 {
        ("damaging_ailments_deal_damage_+%_faster", vec![StatBucket::DamagingAilmentsDealDamageIncreasePrecent])
    } else if i == 272 {
        ("base_reduce_enemy_fire_resistance_%", vec![StatBucket::FireResistancePenetration])
    } else if i == 273 {
        ("flail_critical_strike_chance_+%", vec![StatBucket::FlailCriticalStrikeChanceIncreasePrecent])
    } else if i == 274 {
        ("flail_damage_+%", vec![StatBucket::FlailDamageIncreasePrecent])
    } else if i == 275 {
        ("energy_shield_from_focus_+%", vec![StatBucket::EnergyShieldFromFocusIncreasePrecent])
    } else if i == 276 {
        ("chance_to_fork_extra_projectile_%", vec![StatBucket::ChanceToForkExtraProjectileIncreasePrecent])
    } else if i == 277 {
        ("freeze_threshold_+%", vec![StatBucket::FreezeThresholdIncreasePrecent])
    } else if i == 278 {
        ("damage_+%_with_herald_skills", vec![StatBucket::DamageWithHeraldSkillsIncreasePrecent])
    } else if i == 279 {
        ("skill_effect_duration_+%", vec![StatBucket::SkillEffectDurationIncreasePrecent])
    } else if i == 280 {
        ("knockback_distance_+%", vec![StatBucket::KnockbackDistanceIncreasePrecent])
    } else if i == 281 {
        ("base_skill_cost_life_instead_of_mana_%", vec![StatBucket::BaseSkillCostLifeInsteadOfManaIncreasePrecent])
    } else if i == 282 {
        ("base_life_leech_amount_+%", vec![StatBucket::BaseLifeLeechAmountIncreasePrecent])
    } else if i == 283 {
        ("recover_%_maximum_life_on_kill", vec![StatBucket::RecoverMaximumLifeOnKillIncreasePrecent])
    } else if i == 284 {
        ("damage_taken_goes_to_life_over_4_seconds_%", vec![StatBucket::DamageTakenGoesToLifeOver4SecondsIncreasePrecent])
    } else if i == 285 {
        ("life_regeneration_rate_+%", vec![StatBucket::LifeRegenerationRateIncreasePrecent])
    } else if i == 286 {
        ("base_reduce_enemy_lightning_resistance_%", vec![StatBucket::LightningResistancePenetration])
    } else if i == 287 {
        ("mace_damage_+%", vec![StatBucket::MaceDamageIncreasePrecent])
    } else if i == 288 {
        ("mace_hit_damage_stun_multiplier_+%", vec![StatBucket::MaceHitDamageStunMultiplierIncreasePrecent])
    } else if i == 289 {
        ("offering_duration_+%", vec![StatBucket::OfferingDurationIncreasePrecent])
    } else if i == 290 {
        ("offering_life_+%", vec![StatBucket::OfferingLifeIncreasePrecent])
    } else if i == 291 {
        ("hit_damage_pin_multiplier_+%", vec![StatBucket::HitDamagePinMultiplierIncreasePrecent])
    } else if i == 292 {
        ("base_chance_to_poison_on_hit_%", vec![StatBucket::BaseChanceToPoisonOnHitIncreasePrecent])
    } else if i == 293 {
        ("base_poison_effect_+%", vec![StatBucket::BasePoisonEffectIncreasePrecent])
    } else if i == 294 {
        ("base_poison_duration_+%", vec![StatBucket::BasePoisonDurationIncreasePrecent])
    } else if i == 295 {
        ("projectile_damage_+%", vec![StatBucket::ProjectileDamageIncreasePrecent])
    } else if i == 296 {
        ("quarterstaff_damage_+%", vec![StatBucket::QuarterstaffDamageIncreasePrecent])
    } else if i == 297 {
        ("quarterstaff_hit_damage_freeze_multiplier_+%", vec![StatBucket::QuarterstaffHitDamageFreezeMultiplierIncreasePrecent])
    } else if i == 298 {
        ("quarterstaff_attack_speed_+%", vec![StatBucket::QuarterstaffAttackSpeedIncreasePrecent])
    } else if i == 299 {
        ("quiver_mod_effect_+%", vec![StatBucket::QuiverModEffectIncreasePrecent])
    } else if i == 300 {
        ("triggered_spell_spell_damage_+%", vec![StatBucket::TriggeredSpellSpellDamageIncreasePrecent])
    } else if i == 301 {
        ("unarmed_damage_+%", vec![StatBucket::UnarmedDamageIncreasePrecent])
    } else if i == 302 {
        ("warcry_buff_effect_+%", vec![StatBucket::WarcryBuffEffectIncreasePrecent])
    } else if i == 303 {
        ("warcry_cooldown_speed_+%", vec![StatBucket::WarcryCooldownSpeedIncreasePrecent])
    } else if i == 304 {
        ("warcry_damage_+%", vec![StatBucket::WarcryDamageIncreasePrecent])
    } else if i == 305 {
        ("warcry_speed_+%", vec![StatBucket::WarcrySpeedIncreasePrecent])
    } else if i == 306 {
        ("weapon_swap_speed_+%", vec![StatBucket::WeaponSwapSpeedIncreasePrecent])
    } else if i == 307 {
        ("withered_magnitude_+%", vec![StatBucket::WitheredMagnitudeIncreasePrecent])
    } else if i == 308 {
        ("unarmed_attack_speed_+%", vec![StatBucket::UnarmedAttackSpeedIncreasePrecent])
    } else if i == 309 {
        ("projectile_damage_+%_if_youve_dealt_melee_hit_recently", vec![StatBucket::ProjectileDamageIncreasePrecentIfYouveDealtMeleeHitRecently])
    } else if i == 310 {
        ("melee_damage_+%_if_youve_dealt_projectile_attack_hit_recently", vec![StatBucket::MeleeDamageIncreasePrecentIfYouveDealtProjectileAttackHitRecently])
    } else if i == 311 {
        ("parry_damage_+%", vec![StatBucket::ParryDamageIncreasePrecent])
    } else if i == 312 {
        ("parry_skill_effect_duration_+%", vec![StatBucket::ParrySkillEffectDurationIncreasePrecent])
    } else if i == 313 {
        ("parry_stun_threshold_+%_during_parry", vec![StatBucket::ParryStunThresholdIncreasePrecentDuringParry])
    } else if i == 314 {
        ("volatility_on_kill_%_chance", vec![StatBucket::VolatilityOnKillChanceIncreasePrecent])
    } else if i == 315 {
        ("companion_damage_+%", vec![StatBucket::CompanionDamageIncreasePrecent])
    } else if i == 316 {
        ("companion_maximum_life_+%", vec![StatBucket::CompanionMaximumLifeIncreasePrecent])
    } else if i == 317 {
        ("hazard_damage_+%", vec![StatBucket::HazardDamageIncreasePrecent])
    } else if i == 318 {
        ("chance_to_inflict_incision_on_attack_hit_%", vec![StatBucket::ChanceToInflictIncisionOnAttackHitIncreasePrecent])
    } else if i == 319 {
        ("glory_generation_+%_for_banners", vec![StatBucket::GloryGenerationIncreasePrecentForBanners])
    } else if i == 320 {
        ("banner_area_of_effect_+%", vec![StatBucket::BannerAreaOfEffectIncreasePrecent])
    } else if i == 321 {
        ("banner_duration_+%", vec![StatBucket::BannerDurationIncreasePrecent])
    } else if i == 322 {
        ("apply_debilitate_on_hit_while_emerald_sapphire_socketed", vec![StatBucket::ApplyDebilitateOnHitWhileEmeraldSapphireSocketed])
    } else if i == 323 {
        ("apply_blind_on_hit_while_ruby_sapphire_socketed", vec![StatBucket::ApplyBlindOnHitWhileRubySapphireSocketed])
    } else if i == 324 {
        ("apply_exposure_on_hit_while_ruby_emerald_socketed", vec![StatBucket::ApplyExposureOnHitWhileRubyEmeraldSocketed])
    } else if i == 325 {
        ("cannot_die", vec![StatBucket::CannotDie])
    } else if i == 326 {
        ("gold_+%_from_enemies", vec![StatBucket::GoldFromEnemiesIncreasePrecent])
    } else if i == 327 {
        ("max_endurance_charges", vec![StatBucket::MaxEnduranceCharges])
    } else if i == 328 {
        ("max_frenzy_charges", vec![StatBucket::MaxFrenzyCharges])
    } else if i == 329 {
        ("max_power_charges", vec![StatBucket::MaxPowerCharges])
    } else if i == 330 {
        ("additional_maximum_block_%", vec![StatBucket::AdditionalMaximumBlockIncreasePrecent])
    } else if i == 331 {
        ("life_gained_on_block", vec![StatBucket::LifeGainedOnBlock])
    } else if i == 332 {
        ("mana_gained_on_block", vec![StatBucket::ManaGainedOnBlock])
    } else if i == 333 {
        ("damage_+%", vec![StatBucket::DamageIncreasePrecent])
    } else if i == 334 {
        ("skill_speed_%", vec![StatBucket::SkillSpeedIncreasePrecent])
    } else if i == 335 {
        ("base_debuff_slow_magnitude_+%", vec![StatBucket::BaseDebuffSlowMagnitudeIncreasePrecent])
    } else if i == 336 {
        ("generate_x_charges_for_life_flasks_per_minute", vec![StatBucket::GenerateXChargesForLifeFlasksPerMinute])
    } else if i == 337 {
        ("generate_x_charges_for_mana_flasks_per_minute", vec![StatBucket::GenerateXChargesForManaFlasksPerMinute])
    } else if i == 338 {
        ("generate_x_charges_for_charms_per_minute", vec![StatBucket::GenerateXChargesForCharmsPerMinute])
    } else if i == 339 {
        ("abyssal_wasting_effect_+%", vec![StatBucket::AbyssalWastingEffectIncreasePrecent])
    } else if i == 340 {
        ("add_power_charge_on_critical_strike_%", vec![StatBucket::AddPowerChargeOnCriticalStrikeIncreasePrecent])
    } else if i == 341 {
        ("additional_base_critical_strike_chance", vec![StatBucket::AdditionalBaseCriticalStrikeChance])
    } else if i == 342 {
        ("additional_block_chance_against_projectiles_%", vec![StatBucket::AdditionalBlockChanceAgainstProjectilesIncreasePrecent])
    } else if i == 343 {
        ("additional_combo_gain_chance_%", vec![StatBucket::AdditionalComboGainChanceIncreasePrecent])
    } else if i == 344 {
        ("additional_dexterity_and_intelligence", vec![StatBucket::Dexterity, StatBucket::Intelligence])
    } else if i == 345 {
        ("additional_infusion_gain_chance_%", vec![StatBucket::AdditionalInfusionGainChanceIncreasePrecent])
    } else if i == 346 {
        ("additional_maximum_infusion_stacks", vec![StatBucket::AdditionalMaximumInfusionStacks])
    } else if i == 347 {
        ("additional_physical_damage_reduction_%_during_flask_effect", vec![StatBucket::AdditionalPhysicalDamageReductionIncreasePrecent])
    } else if i == 348 {
        ("aggravate_bleeding_older_than_ms_on_hit", vec![StatBucket::AggravateBleedingOlderThanMsOnHit])
    } else if i == 349 {
        ("all_skill_gem_quality_+", vec![StatBucket::GlobalSkillGemQualityPluss])
    } else if i == 350 {
        ("allies_in_presence_resist_all_elements_%", vec![StatBucket::AlliesInPresenceResistAllElementsIncreasePrecent])
    } else if i == 351 {
        ("apply_anaemia_magnitude_on_hit", vec![StatBucket::ApplyAnaemiaMagnitudeOnHit])
    } else if i == 352 {
        ("arcane_surge_effect_on_self_+%", vec![StatBucket::ArcaneSurgeEffectOnSelfIncreasePrecent])
    } else if i == 353 {
        ("archon_delay_expires_x%_faster", vec![StatBucket::ArchonDelayExpiresXPercentFaster])
    } else if i == 354 {
        ("archon_duration_+%", vec![StatBucket::ArchonDurationIncreasePrecent])
    } else if i == 355 {
        ("archon_effect_on_you_+%", vec![StatBucket::ArchonEffectOnYouIncreasePrecent])
    } else if i == 356 {
        ("armour_break_equal_to_%_physical_damage_dealt_on_critical_strike_with_spells", vec![StatBucket::ArmourBreakEqualToPhysicalDamageDealtOnCriticalStrikeWithSpells])
    } else if i == 357 {
        ("armour_break_physical_damage_%_dealt_as_armour_break", vec![StatBucket::ArmourBreakPhysicalDamageIncreasePrecent])
    } else if i == 358 {
        ("arrow_speed_additive_modifiers_also_apply_to_bow_damage", vec![StatBucket::ArrowSpeedAdditiveModifiersAlsoApplyToBowDamage])
    } else if i == 359 {
        ("attack_added_chaos_damage_%_of_maximum_life", vec![StatBucket::AttackAddedChaosDamageIncreasePrecent])
    } else if i == 360 {
        ("attack_added_physical_damage_%_of_maximum_life", vec![StatBucket::AttackAddedPhysicalDamageIncreasePrecent])
    } else if i == 361 {
        ("attack_added_cold_damage_%_of_maximum_life", vec![StatBucket::AttackAddedColdDamageIncreasePrecent])
    } else if i == 362 {
        ("attack_added_fire_damage_%_of_maximum_life", vec![StatBucket::AttackAddedFireDamageIncreasePrecent])
    } else if i == 363 {
        ("attack_added_lightning_damage_%_of_maximum_life", vec![StatBucket::AttackAddedLightningDamageIncreasePrecent])
    } else if i == 364 {
        ("attack_and_cast_speed_+%", vec![StatBucket::AttackAndCastSpeedIncreasePrecent])
    } else if i == 365 {
        ("attack_and_cast_speed_+%_during_flask_effect", vec![StatBucket::AttackAndCastSpeedIncreasePrecentDuringFlaskEffect])
    } else if i == 366 {
        ("attack_area_of_effect_+%", vec![StatBucket::AttackAreaOfEffectIncreasePrecent])
    } else if i == 367 {
        ("attack_area_of_effect_+%_per_10_int", vec![StatBucket::AttackAreaOfEffectIncreasePrecentPer10Int])
    } else if i == 368 {
        ("attack_damage_+%_when_on_low_life", vec![StatBucket::AttackDamageIncreasePrecentWhenOnLowLife])
    } else if i == 369 {
        ("attack_mana_cost_+%", vec![StatBucket::ReducedAttackManaCostPrecent])
    } else if i == 370 {
        ("attack_maximum_added_chaos_damage", vec![StatBucket::AttackMaximumAddedChaosDamage])
    } else if i == 371 {
        ("attack_minimum_added_chaos_damage", vec![StatBucket::AttackMinimumAddedChaosDamage])
    } else if i == 372 {
        ("attack_skill_gem_level_+", vec![StatBucket::AttackSkillGemLevelIncrease])
    } else if i == 373 {
        ("attack_skills_have_added_lightning_damage_equal_to_%_of_maximum_mana", vec![StatBucket::AttackSkillsHaveAddedLightningDamageEqualToPrecentOfMaximumMana])
    } else if i == 374 {
        ("attack_speed_+%_if_not_been_hit_recently", vec![StatBucket::AttackSpeedIncreasePrecentIfNotBeenHitRecently])
    } else if i == 375 {
        ("attack_speed_+%_when_on_full_life", vec![StatBucket::AttackSpeedIncreasePrecentWhenOnFullLife])
    } else if i == 376 {
        ("attack_speed_+%_while_in_presence_of_companion", vec![StatBucket::AttackSpeedIncreasePrecentWhileInPresenceOfCompanion])
    } else if i == 377 {
        ("attack_speed_+%_while_missing_ward", vec![StatBucket::AttackSpeedIncreasePrecentWhileMissingWard])
    } else if i == 378 {
        ("attacks_num_of_additional_chains", vec![StatBucket::AttackNumberOfAdditionalChains])
    } else if i == 379 {
        ("avoid_all_elemental_status_%", vec![StatBucket::AvoidAllElementalStatusPrecent])
    } else if i == 380 {
        ("base_all_ailment_duration_+%", vec![StatBucket::BaseAllAilmentDurationPrecent])
    } else if i == 381 {
        ("base_all_ailment_duration_on_self_+%", vec![StatBucket::ReduceBaseAllAilmentDurationOnSelfPrecent])
    } else if i == 382 {
        ("base_all_attributes", vec![StatBucket::Strength, StatBucket::Dexterity, StatBucket::Intelligence])
    } else if i == 383 {
        ("base_attack_skill_cost_efficiency_+%", vec![StatBucket::BaseAttackSkillCostEfficiencyPrecent])
    } else if i == 384 {
        ("base_avoid_chill_%", vec![StatBucket::BaseAvoidChillPrecent])
    } else if i == 385 {
        ("base_avoid_freeze_%", vec![StatBucket::BaseAvoidFreezePrecent])
    } else if i == 386 {
        ("base_avoid_ignite_%", vec![StatBucket::BaseAvoidIgnitePrecent])
    } else if i == 387 {
        ("base_avoid_shock_%", vec![StatBucket::BaseAvoidShockPrecent])
    } else if i == 388 {
        ("base_avoid_stun_%", vec![StatBucket::BaseAvoidStunPrecent])
    } else if i == 389 {
        ("base_bleed_chance_is_poison_chance_instead", vec![StatBucket::BaseBleedChanceIsPoisonChanceInstead])
    } else if i == 390 {
        ("base_chance_to_shock_%", vec![StatBucket::BaseChanceToShockPrecent])
    } else if i == 391 {
        ("base_damaging_ailment_effect_+%", vec![StatBucket::BaseDamagingAilmentEffectPrecent])
    } else if i == 392 {
        ("base_elemental_status_ailment_duration_+%", vec![StatBucket::BaseElementalStatusAilmentDurationPrecent])
    } else if i == 393 {
        ("base_enemy_critical_strike_chance_+%_against_self", vec![StatBucket::BaseEnemyCriticalStrikeChancePrecent])
    } else if i == 394 {
        ("base_life_cost_efficiency_+%", vec![StatBucket::BaseLifeCostEfficiencyPrecent])
    } else if i == 395 {
        ("base_life_leech_does_not_stop_at_full_life", vec![StatBucket::BaseLifeLeechDoesNotStopAtFullLife])
    } else if i == 396 {
        ("base_life_leech_rate_+%", vec![StatBucket::BaseLifeLeechRatePrecent])
    } else if i == 397 {
        ("base_mana_cost_+_with_non_channelling_skills", vec![StatBucket::BaseManaCostPrecent])
    } else if i == 398 {
        ("base_mana_cost_efficiency_+%", vec![StatBucket::BaseManaCostEfficiencyPrecent])
    } else if i == 399 {
        ("base_mana_leech_rate_+%", vec![StatBucket::BaseManaLeechRatePrecent])
    } else if i == 400 {
        ("base_mana_reservation_efficiency_+%", vec![StatBucket::BaseManaReservationEfficiencyPrecent])
    } else if i == 401 {
        ("base_maximum_seals_for_skill", vec![StatBucket::BaseMaximumSealsForSkill])
    } else if i == 402 {
        ("base_minion_duration_+%", vec![StatBucket::BaseMinionDurationPrecent])
    } else if i == 403 {
        ("base_number_of_essence_spirits_allowed", vec![StatBucket::BaseNumberOfEssenceSpiritsAllowed])
    } else if i == 404 {
        ("base_onlsaught_on_hit_%_chance", vec![StatBucket::BaseOnlsaughtOnHitPrecent])
    } else if i == 405 {
        ("base_poison_chance_is_bleed_chance_instead", vec![StatBucket::BasePoisonChanceIsBleedChanceInstead])
    } else if i == 406 {
        ("base_rage_cost_efficiency_+%", vec![StatBucket::BaseRageCostEfficiencyPrecent])
    } else if i == 407 {
        ("base_reservation_efficiency_+%", vec![StatBucket::BaseReservationEfficiencyPrecent])
    } else if i == 408 {
        ("base_skill_cost_efficiency_+%", vec![StatBucket::BaseSkillCostEfficiencyPrecent])
    } else if i == 409 {
        ("base_spell_cooldown_speed_+%", vec![StatBucket::BaseSpellCooldownSpeedPrecent])
    } else if i == 410 {
        ("base_spell_mana_cost_efficiency_+%", vec![StatBucket::BaseSpellManaCostEfficiencyPrecent])
    } else if i == 411 {
        ("base_spirit_reservation_efficiency_+%", vec![StatBucket::BaseSpiritReservationEfficiencyPrecent])
    } else if i == 412 {
        ("base_thorns_critical_strike_chance", vec![StatBucket::BaseThornsCriticalStrikeChance])
    } else if i == 413 {
        ("base_unholy_might_granted_magnitude_+%", vec![StatBucket::BaseUnholyMightGrantedMagnitudePrecent])
    } else if i == 414 {
        ("bell_hit_limit", vec![StatBucket::BellHitLimit])
    } else if i == 415 {
        ("bleed_chance_+%", vec![StatBucket::BleedChancePrecent])
    } else if i == 416 {
        ("block_%_damage_taken_while_active_blocking", vec![StatBucket::BlockDamageTakenWhileActiveBlockingPrecent])
    } else if i == 417 {
        ("body_armour_+%", vec![StatBucket::BodyArmourPrecent])
    } else if i == 418 {
        ("body_armour_evasion_rating_+%", vec![StatBucket::BodyArmourEvasionRatingPrecent])
    } else if i == 419 {
        ("broken_armour_and_sundered_armour_debuff_effect_+%", vec![StatBucket::BrokenArmourAndSunderedArmourDebuffEffectPrecent])
    } else if i == 420 {
        ("cannot_be_inflicted_by_corrupted_blood", vec![StatBucket::CannotBeInflictedByCorruptedBlood])
    } else if i == 421 {
        ("cannot_be_poisoned", vec![StatBucket::CannotBePoisoned])
    } else if i == 422 {
        ("cast_speed_+%_during_mana_flask_effect", vec![StatBucket::CastSpeedPrecentDuringManaFlaskEffect])
    } else if i == 423 {
        ("cast_speed_+%_per_num_unique_spells_cast_recently", vec![StatBucket::CastSpeedPrecentPerNumUniqueSpellsCastRecently])
    } else if i == 424 {
        ("cast_speed_+%_when_on_full_life", vec![StatBucket::CastSpeedPrecentWhenOnFullLife])
    } else if i == 425 {
        ("cast_speed_+%_when_on_low_life", vec![StatBucket::CastSpeedPrecentWhenOnLowLife])
    } else if i == 426 {
        ("cast_speed_+%_while_on_full_mana", vec![StatBucket::CastSpeedPrecentWhileOnFullMana])
    } else if i == 427 {
        ("chance_%_to_gain_archon_of_nature_on_overgrowing_plant", vec![StatBucket::ChanceToGainArchonOfNatureOnOvergrowingPlantPrecent])
    } else if i == 428 {
        ("chance_%_to_gain_archon_of_undeath_when_you_create_an_offering", vec![StatBucket::ChanceToGainArchonOfUndeathWhenYouCreateAnOfferingPrecent])
    } else if i == 429 {
        ("chance_to_crush_on_hit_%", vec![StatBucket::ChanceToCrushOnHitPrecent])
    } else if i == 430 {
        ("chance_to_fire_1_additional_projectile_%_with_rollover", vec![StatBucket::ChanceToFire1AdditionalProjectileWithRolloverPrecent])
    } else if i == 431 {
        ("chance_to_gain_power_charge_on_stun_%", vec![StatBucket::ChanceToGainPowerChargeOnStunPrecent])
    } else if i == 432 {
        ("chance_to_not_consume_infusion_%_if_lost_archon_in_past_6_seconds", vec![StatBucket::ChanceToNotConsumeInfusionPrecentIfLostArchonInPast6Seconds])
    } else if i == 433 {
        ("chance_to_retain_40%_of_glory_on_use_%", vec![StatBucket::ChanceToRetain40PrecentOfGloryOnUsePrecent])
    } else if i == 434 {
        ("chaos_damage_resistance_%_per_poison_stack", vec![StatBucket::ChaosDamageResistancePrecentPerPoisonStack])
    } else if i == 435 {
        ("chaos_damage_taken_over_time_+%", vec![StatBucket::ChaosDamageTakenOverTimePrecent])
    } else if i == 436 {
        ("chaos_dot_multiplier_+", vec![StatBucket::ChaosDotMultiplierPrecent])
    } else if i == 437 {
        ("chaos_resistance_+_while_using_flask", vec![StatBucket::ChaosResistancePrecentWhileUsingFlask])
    } else if i == 438 {
        ("charge_skip_consume_chance_%", vec![StatBucket::ChargeSkipConsumeChancePrecent])
    } else if i == 439 {
        ("charms_%_chance_to_not_consume_charges", vec![StatBucket::CharmsPrecentChanceToNotConsumeCharges])
    } else if i == 440 {
        ("cold_damage_+%_cold_infusion_collected_last_8_seconds", vec![StatBucket::ColdDamagePrecentColdInfusionCollectedLast8Seconds])
    } else if i == 441 {
        ("cold_damage_taken_goes_to_life_over_4_seconds_%", vec![StatBucket::ColdDamageTakenPrecentGoesToLifeOver4Seconds])
    } else if i == 442 {
        ("cold_dot_multiplier_+", vec![StatBucket::ColdDotMultiplierPrecent])
    } else if i == 443 {
        ("companion_attack_speed_+%", vec![StatBucket::CompanionAttackSpeedPrecent])
    } else if i == 444 {
        ("created_remnants_have_%_chance_to_duplicate_pick_up_results", vec![StatBucket::CreatedRemnantsPrecentChanceToDuplicatePickUpResults])
    } else if i == 445 {
        ("critical_hit_damage_bonus_+%_vs_enemies_within_2m_distance", vec![StatBucket::CriticalHitDamageBonusPrecentVsEnemiesWithin2mDistance])
    } else if i == 446 {
        ("critical_strike_chance_+%_vs_enemies_further_than_6m_distance", vec![StatBucket::CriticalStrikeChancePrecentVsEnemiesFurtherThan6mDistance])
    } else if i == 447 {
        ("critical_strike_chance_+%_vs_marked_enemies", vec![StatBucket::CriticalStrikeChancePrecentVsMarkedEnemies])
    } else if i == 448 {
        ("curse_effect_on_self_+%", vec![StatBucket::CurseEffectOnSelfPrecent])
    } else if i == 449 {
        ("damage_+%_against_enemies_marked_by_you", vec![StatBucket::DamagePrecentAgainstEnemiesMarkedByYou])
    } else if i == 450 {
        ("damage_+%_per_poison_up_to_75%", vec![StatBucket::DamagePrecentPerPoisonUpTo75])
    } else if i == 451 {
        ("damage_+%_vs_immobilised_enemies", vec![StatBucket::DamagePrecentVsImmobilisedEnemies])
    } else if i == 452 {
        ("damage_+%_while_in_presence_of_companion", vec![StatBucket::DamagePrecentWhileInPresenceOfCompanion])
    } else if i == 453 {
        ("damage_+%_while_leeching", vec![StatBucket::DamagePrecentWhileLeeching])
    } else if i == 454 {
        ("damage_+%_while_totem_active", vec![StatBucket::DamagePrecentWhileTotemActive])
    } else if i == 455 {
        ("damage_removed_from_spectres_before_life_or_es_%", vec![StatBucket::DamageRemovedFromSpectresBeforeLifeOrEsPrecent])
    } else if i == 456 {
        ("damage_taken_goes_to_life_mana_es_over_4_seconds_%", vec![StatBucket::DamageTakenGoesToLifeManaEsOver4SecondsPrecent])
    } else if i == 457 {
        ("damage_vs_cursed_enemies_per_enemy_curse_+%", vec![StatBucket::DamageVsCursedEnemiesPerEnemyCursePrecent])
    } else if i == 458 {
        ("deal_1000_chaos_damage_per_second_for_10_seconds_on_hit", vec![StatBucket::Deal1000ChaosDamagePerSecondFor10SecondsOnHit])
    } else if i == 459 {
        ("deflected_hit_damage_taken_%_recouped_as_life", vec![StatBucket::DeflectedHitDamageTakenPrecentRecoupedAsLife])
    } else if i == 460 {
        ("deflection_rating_+%", vec![StatBucket::DeflectionRatingPrecent])
    } else if i == 461 {
        ("dexterity_and_intelligence_+%", vec![StatBucket::DexterityAndIntelligencePrecent])
    } else if i == 462 {
        ("dodge_roll_base_travel_distance", vec![StatBucket::DodgeRollBaseTravelDistance])
    } else if i == 463 {
        ("dummy_stat_display_nothing", vec![StatBucket::DummyStatDisplayNothing])
    } else if i == 464 {
        ("elemental_ailment_types_apply_damage_taken_+%", vec![StatBucket::ElementalAilmentTypesApplyDamageTakenPrecent])
    } else if i == 465 {
        ("elemental_penetration_%_during_flask_effect", vec![StatBucket::ElementalPenetrationPrecentDuringFlaskEffect])
    } else if i == 466 {
        ("elemental_skill_limit_+", vec![StatBucket::ElementalSkillLimitPrecent])
    } else if i == 467 {
        ("enemies_chaos_resistance_%_while_cursed", vec![StatBucket::EnemiesChaosResistancePrecentWhileCursed])
    } else if i == 468 {
        ("enemies_explode_on_kill", vec![StatBucket::EnemiesChanceExplodeOnKill])
    } else if i == 469 {
        ("energy_shield_recharge_rate_+%_if_blocked_recently", vec![StatBucket::EnergyShieldRechargeRatePrecentIfBlockedRecently])
    } else if i == 470 {
        ("essence_abyss_guaranteed_pick", vec![StatBucket::EssenceAbyssGuaranteedPick])
    } else if i == 471 {
        ("essence_buff_elemental_damage_taken_+%", vec![StatBucket::EssenceBuffElementalDamageTakenPrecent])
    } else if i == 472 {
        ("essence_display_elemental_damage_taken_while_not_moving_+%", vec![StatBucket::EssenceDisplayElementalDamageTakenWhileNotMovingPrecent])
    } else if i == 473 {
        ("evasion_rating_+%", vec![StatBucket::EvasionRatingPrecent])
    } else if i == 474 {
        ("evasion_rating_+%_while_leeching", vec![StatBucket::EvasionRatingPrecentWhileLeeching])
    } else if i == 475 {
        ("explode_burning_enemies_for_10%_life_as_fire_on_kill_chance_%", vec![StatBucket::ExplodeBurningEnemiesFor10LifeAsFireOnKillChancePrecent])
    } else if i == 476 {
        ("explode_enemies_for_10%_life_as_physical_on_kill_chance_%", vec![StatBucket::ExplodeEnemiesFor10LifeAsPhysicalOnKillChancePrecent])
    } else if i == 477 {
        ("explode_enemies_for_25%_life_as_chaos_on_kill_chance_%", vec![StatBucket::ExplodeEnemiesFor25LifeAsChaosOnKillChancePrecent])
    } else if i == 478 {
        ("exposure_effect_+%", vec![StatBucket::ExposureEffectPrecent])
    } else if i == 479 {
        ("fire_damage_+%_if_fire_infusion_collected_last_8_seconds", vec![StatBucket::FireDamagePrecentIfFireInfusionCollectedLast8Seconds])
    } else if i == 480 {
        ("fire_damage_taken_goes_to_life_over_4_seconds_%", vec![StatBucket::FireDamageTakenGoesToLifeOver4SecondsPrecent])
    } else if i == 481 {
        ("fire_dot_multiplier_+", vec![StatBucket::FireDotMultiplierPrecent])
    } else if i == 482 {
        ("fire_spell_additional_critical_strike_chance_permyriad", vec![StatBucket::FireSpellAdditionalCriticalStrikeChancePerMyriad])
    } else if i == 483 {
        ("fish_quantity_+%", vec![StatBucket::FishQuantityPrecent])
    } else if i == 484 {
        ("fish_rarity_+%", vec![StatBucket::FishRarityPrecent])
    } else if i == 485 {
        ("fishing_hook_type", vec![StatBucket::FishingHookType])
    } else if i == 486 {
        ("fishing_line_strength_+%", vec![StatBucket::FishingLineStrengthPrecent])
    } else if i == 487 {
        ("fishing_lure_type", vec![StatBucket::FishingLureType])
    } else if i == 488 {
        ("fishing_pool_consumption_+%", vec![StatBucket::FishingPoolConsumptionPrecent])
    } else if i == 489 {
        ("fishing_range_+%", vec![StatBucket::FishingRangePrecent])
    } else if i == 490 {
        ("flasks_%_chance_to_not_consume_charges", vec![StatBucket::FlasksPrecentChanceToNotConsumeCharges])
    } else if i == 491 {
        ("fully_break_enemies_armour_on_heavy_stun_with_shield_skills", vec![StatBucket::FullyBreakEnemiesArmourOnHeavyStunWithShieldSkills])
    } else if i == 492 {
        ("gain_alchemists_genius_on_flask_use_%", vec![StatBucket::GainAlchemistsGeniusOnFlaskUsePrecent])
    } else if i == 493 {
        ("gain_arcane_surge_on_crit_%_chance", vec![StatBucket::GainArcaneSurgeOnCritPrecent])
    } else if i == 494 {
        ("gain_onslaught_for_3_seconds_%_chance_when_hit", vec![StatBucket::GainOnslaughtFor3SecondsPrecent])
    } else if i == 495 {
        ("global_armour_evasion_energy_shield_+%", vec![StatBucket::GlobalArmourEvasionEnergyShieldPrecent])
    } else if i == 496 {
        ("global_item_attribute_requirements_+%", vec![StatBucket::GlobalItemAttributeReducedRequirementsPrecent])
    } else if i == 497 {
        ("glory_generation_+%", vec![StatBucket::GloryGenerationPrecent])
    } else if i == 498 {
        ("grenade_skill_%_chance_to_explode_twice", vec![StatBucket::GrenadeSkillPrecentChanceToExplodeTwice])
    } else if i == 499 {
        ("grenade_skill_damage_+%", vec![StatBucket::GrenadeSkillDamagePrecent])
    } else if i == 500 {
        ("grenade_skill_duration_+%", vec![StatBucket::GrenadeSkillDurationPrecent])
    } else if i == 501 {
        ("hand_wraps_attack_damage_+%_final_on_low_mana", vec![StatBucket::HandWrapsAttackDamagePrecentFinalOnLowMana])
    } else if i == 502 {
        ("hand_wraps_damage_taken_+%_final_on_low_life", vec![StatBucket::HandWrapsDamageTakenPrecentFinalOnLowLife])
    } else if i == 503 {
        ("hand_wraps_evasion_rating_and_energy_shield_+%_final", vec![StatBucket::HandWrapsMoreGlobalEvasionEnergyShield])
    } else if i == 504 {
        ("has_grave_command", vec![StatBucket::GrantsGraveCommandSkill])
    } else if i == 505 {
        ("have_unholy_might", vec![StatBucket::HaveUnholyMight])
    } else if i == 506 {
        ("heavy_stun_poise_decay_rate_+%", vec![StatBucket::HeavyStunPoiseDecayRatePrecent])
    } else if i == 507 {
        ("hinder_enemy_chaos_damage_taken_+%", vec![StatBucket::HinderEnemyChaosDamageTakenPrecent])
    } else if i == 508 {
        ("hinder_enemy_elemental_damage_taken_+%", vec![StatBucket::HinderEnemyElementalDamageTakenPrecent])
    } else if i == 509 {
        ("hinder_enemy_physical_damage_taken_+%", vec![StatBucket::HinderEnemyPhysicalDamageTakenPrecent])
    } else if i == 510 {
        ("hit_damage_freeze_multiplier_+%_if_consumed_power_charge_recently", vec![StatBucket::HitDamageFreezeMultiplierPrecentIfConsumedPowerChargeRecently])
    } else if i == 511 {
        ("hit_damage_immobilisation_multiplier_+%", vec![StatBucket::HitDamageImmobilisationMultiplierPrecent])
    } else if i == 512 {
        ("ignite_effect_+%_if_consumed_endurance_charge_recently", vec![StatBucket::IgniteEffectPrecentIfConsumedEnduranceChargeRecently])
    } else if i == 513 {
        ("invocation_skill_maximum_energy_+%", vec![StatBucket::InvocationSkillMaximumEnergyPrecent])
    } else if i == 514 {
        ("invocation_spell_chance_to_cost_half_energy_%", vec![StatBucket::InvocationSpellChanceToCostHalfEnergyPrecent])
    } else if i == 515 {
        ("invocation_spell_damage_+%", vec![StatBucket::InvocationSpellDamagePrecent])
    } else if i == 516 {
        ("leech_%_is_instant", vec![StatBucket::LeechPrecentIsInstant])
    } else if i == 517 {
        ("life_gained_on_attack_hit_if_crit_recently", vec![StatBucket::LifeGainedOnAttackHitIfCritRecently])
    } else if i == 518 {
        ("life_gained_on_attack_hit_vs_cursed_enemies", vec![StatBucket::LifeGainedOnAttackHitVsCursedEnemies])
    } else if i == 519 {
        ("life_leech_can_overcap_life", vec![StatBucket::LifeLeechCanOvercapLife])
    } else if i == 520 {
        ("life_regeneration_per_minute_%_while_frozen", vec![StatBucket::LifeRegenerationPerMinutePrecentWhileFrozen])
    } else if i == 521 {
        ("life_regeneration_rate_+%_while_moving", vec![StatBucket::LifeRegenerationRatePrecentWhileMoving])
    } else if i == 522 {
        ("life_regeneration_rate_+%_while_using_life_flask", vec![StatBucket::LifeRegenerationRatePrecentWhileUsingLifeFlask])
    } else if i == 523 {
        ("lightning_damage_+%_if_lightning_infusion_collected_last_8_seconds", vec![StatBucket::LightningDamagePrecentIfLightningInfusionCollectedLast8Seconds])
    } else if i == 524 {
        ("lightning_damage_can_ignite", vec![StatBucket::LightningDamageCanIgnite])
    } else if i == 525 {
        ("lightning_damage_taken_goes_to_life_over_4_seconds_%", vec![StatBucket::LightningDamageTakenGoesToLifeOver4SecondsPrecent])
    } else if i == 526 {
        ("mana_%_gained_on_block", vec![StatBucket::ManaPrecentGainedOnBlock])
    } else if i == 527 {
        ("mana_%_to_gain_as_armour", vec![StatBucket::ManaPrecentToGainAsArmour])
    } else if i == 528 {
        ("mana_cost_efficiency_+%_if_dodge_rolled_recently", vec![StatBucket::ManaCostEfficiencyPrecentIfDodgeRolledRecently])
    } else if i == 529 {
        ("mana_gained_on_attack_hit_vs_cursed_enemies", vec![StatBucket::ManaGainedOnAttackHitVsCursedEnemies])
    } else if i == 530 {
        ("mana_regeneration_rate_+%_while_shocked", vec![StatBucket::ManaRegenerationRatePrecentWhileShocked])
    } else if i == 531 {
        ("mana_regeneration_rate_+%_while_stationary", vec![StatBucket::ManaRegenerationRatePrecentWhileStationary])
    } else if i == 532 {
        ("mana_reservation_efficiency_-2%_per_1", vec![StatBucket::ManaReservationEfficiencyPrecentPer1])
    } else if i == 533 {
        ("mark_skill_gem_level_+", vec![StatBucket::MarkSkillGemLevels])
    } else if i == 534 {
        ("marked_enemy_damage_taken_+%", vec![StatBucket::MarkedEnemyTakesIncreasedDamage])
    } else if i == 535 {
        ("max_fortification_+1_per_5", vec![StatBucket::MaxFortificationPer5])
    } else if i == 536 {
        ("max_puppet_master_stacks_+", vec![StatBucket::MaxPuppetMasterStacksPer5])
    } else if i == 537 {
        ("maximum_added_cold_damage_per_frenzy_charge", vec![StatBucket::MaximumAddedColdDamagePerFrenzyCharge])
    } else if i == 538 {
        ("maximum_added_fire_damage_if_blocked_recently", vec![StatBucket::MaximumAddedFireDamageIfBlockedRecently])
    } else if i == 539 {
        ("maximum_energy_shield_from_body_armour_+%", vec![StatBucket::MaximumEnergyShieldFromBodyArmourPrecent])
    } else if i == 540 {
        ("maximum_ward_+%", vec![StatBucket::MaximumWardPrecent])
    } else if i == 541 {
        ("melee_attack_skills_additional_totems_allowed", vec![StatBucket::MeleeAttackSkillsAdditionalTotemsAllowed])
    } else if i == 542 {
        ("melee_attacks_number_of_additional_projectiles", vec![StatBucket::MeleeAttacksNumberOfAdditionalProjectiles])
    } else if i == 543 {
        ("minimum_added_cold_damage_per_frenzy_charge", vec![StatBucket::MinimumAddedColdDamagePerFrenzyCharge])
    } else if i == 544 {
        ("minimum_added_fire_damage_if_blocked_recently", vec![StatBucket::MinimumAddedFireDamageIfBlockedRecently])
    } else if i == 545 {
        ("minion_area_of_effect_+%", vec![StatBucket::MinionAreaOfEffectPrecent])
    } else if i == 546 {
        ("minion_armour_break_physical_damage_%_dealt_as_armour_break", vec![StatBucket::MinionArmourBreakPhysicalDamagePrecent])
    } else if i == 547 {
        ("minion_base_damaging_ailment_effect_+%", vec![StatBucket::MinionBaseDamagingAilmentEffectPrecent])
    } else if i == 548 {
        ("minion_chance_to_fire_1_additional_projectile_%_with_rollover", vec![StatBucket::MinionChanceToFire1AdditionalProjectilePrecent])
    } else {
        ("", Vec::new())
    }
}

} // verus!

verus! {

/// `b` does not occur in `s`.
pub open spec fn bucket_absent(s: Seq<StatBucket>, b: StatBucket) -> bool
    decreases s.len(),
{
    if s.len() == 0 {
        true
    } else {
        s.last() != b && bucket_absent(s.drop_last(), b)
    }
}

/// No bucket occurs twice in `s`.
pub open spec fn buckets_distinct(s: Seq<StatBucket>) -> bool
    decreases s.len(),
{
    if s.len() == 0 {
        true
    } else {
        bucket_absent(s.drop_last(), s.last()) && buckets_distinct(s.drop_last())
    }
}

/// A well-formed row feeds one to four buckets, none twice.
pub open spec fn row_well_formed(i: int) -> bool {
    1 <= bucket_table_buckets(i).len() <= 4 && buckets_distinct(bucket_table_buckets(i))
}

proof fn lemma_rows_well_formed_0()
    ensures
        forall|i: int| 0 <= i < 50 ==> row_well_formed(i),
{
    reveal_with_fuel(buckets_distinct, 5);
    reveal_with_fuel(bucket_absent, 5);
    assert forall|i: int| 0 <= i < 50 implies row_well_formed(i) by {
        if i == 0 {
            assert(row_well_formed(0));
        } else if i == 1 {
            assert(row_well_formed(1));
        } else if i == 2 {
            assert(row_well_formed(2));
        } else if i == 3 {
            assert(row_well_formed(3));
        } else if i == 4 {
            assert(row_well_formed(4));
        } else if i == 5 {
            assert(row_well_formed(5));
        } else if i == 6 {
            assert(row_well_formed(6));
        } else if i == 7 {
            assert(row_well_formed(7));
        } else if i == 8 {
            assert(row_well_formed(8));
        } else if i == 9 {
            assert(row_well_formed(9));
        } else if i == 10 {
            assert(row_well_formed(10));
        } else if i == 11 {
            assert(row_well_formed(11));
        } else if i == 12 {
            assert(row_well_formed(12));
        } else if i == 13 {
            assert(row_well_formed(13));
        } else if i == 14 {
            assert(row_well_formed(14));
        } else if i == 15 {
            assert(row_well_formed(15));
        } else if i == 16 {
            assert(row_well_formed(16));
        } else if i == 17 {
            assert(row_well_formed(17));
        } else if i == 18 {
            assert(row_well_formed(18));
        } else if i == 19 {
            assert(row_well_formed(19));
        } else if i == 20 {
            assert(row_well_formed(20));
        } else if i == 21 {
            assert(row_well_formed(21));
        } else if i == 22 {
            assert(row_well_formed(22));
        } else if i == 23 {
            assert(row_well_formed(23));
        } else if i == 24 {
            assert(row_well_formed(24));
        } else if i == 25 {
            assert(row_well_formed(25));
        } else if i == 26 {
            assert(row_well_formed(26));
        } else if i == 27 {
            assert(row_well_formed(27));
        } else if i == 28 {
            assert(row_well_formed(28));
        } else if i == 29 {
            assert(row_well_formed(29));
        } else if i == 30 {
            assert(row_well_formed(30));
        } else if i == 31 {
            assert(row_well_formed(31));
        } else if i == 32 {
            assert(row_well_formed(32));
        } else if i == 33 {
            assert(row_well_formed(33));
        } else if i == 34 {
            assert(row_well_formed(34));
        } else if i == 35 {
            assert(row_well_formed(35));
        } else if i == 36 {
            assert(row_well_formed(36));
        } else if i == 37 {
            assert(row_well_formed(37));
        } else if i == 38 {
            assert(row_well_formed(38));
        } else if i == 39 {
            assert(row_well_formed(39));
        } else if i == 40 {
            assert(row_well_formed(40));
        } else if i == 41 {
            assert(row_well_formed(41));
        } else if i == 42 {
            assert(row_well_formed(42));
        } else if i == 43 {
            assert(row_well_formed(43));
        } else if i == 44 {
            assert(row_well_formed(44));
        } else if i == 45 {
            assert(row_well_formed(45));
        } else if i == 46 {
            assert(row_well_formed(46));
        } else if i == 47 {
            assert(row_well_formed(47));
        } else if i == 48 {
            assert(row_well_formed(48));
        } else if i == 49 {
            assert(row_well_formed(49));
        }
    }
}

proof fn lemma_rows_well_formed_50()
    ensures
        forall|i: int| 50 <= i < 100 ==> row_well_formed(i),
{
    reveal_with_fuel(buckets_distinct, 5);
    reveal_with_fuel(bucket_absent, 5);
    assert forall|i: int| 50 <= i < 100 implies row_well_formed(i) by {
        if i == 50 {
            assert(row_well_formed(50));
        } else if i == 51 {
            assert(row_well_formed(51));
        } else if i == 52 {
            assert(row_well_formed(52));
        } else if i == 53 {
            assert(row_well_formed(53));
        } else if i == 54 {
            assert(row_well_formed(54));
        } else if i == 55 {
            assert(row_well_formed(55));
        } else if i == 56 {
            assert(row_well_formed(56));
        } else if i == 57 {
            assert(row_well_formed(57));
        } else if i == 58 {
            assert(row_well_formed(58));
        } else if i == 59 {
            assert(row_well_formed(59));
        } else if i == 60 {
            assert(row_well_formed(60));
        } else if i == 61 {
            assert(row_well_formed(61));
        } else if i == 62 {
            assert(row_well_formed(62));
        } else if i == 63 {
            assert(row_well_formed(63));
        } else if i == 64 {
            assert(row_well_formed(64));
        } else if i == 65 {
            assert(row_well_formed(65));
        } else if i == 66 {
            assert(row_well_formed(66));
        } else if i == 67 {
            assert(row_well_formed(67));
        } else if i == 68 {
            assert(row_well_formed(68));
        } else if i == 69 {
            assert(row_well_formed(69));
        } else if i == 70 {
            assert(row_well_formed(70));
        } else if i == 71 {
            assert(row_well_formed(71));
        } else if i == 72 {
            assert(row_well_formed(72));
        } else if i == 73 {
            assert(row_well_formed(73));
        } else if i == 74 {
            assert(row_well_formed(74));
        } else if i == 75 {
            assert(row_well_formed(75));
        } else if i == 76 {
            assert(row_well_formed(76));
        } else if i == 77 {
            assert(row_well_formed(77));
        } else if i == 78 {
            assert(row_well_formed(78));
        } else if i == 79 {
            assert(row_well_formed(79));
        } else if i == 80 {
            assert(row_well_formed(80));
        } else if i == 81 {
            assert(row_well_formed(81));
        } else if i == 82 {
            assert(row_well_formed(82));
        } else if i == 83 {
            assert(row_well_formed(83));
        } else if i == 84 {
            assert(row_well_formed(84));
        } else if i == 85 {
            assert(row_well_formed(85));
        } else if i == 86 {
            assert(row_well_formed(86));
        } else if i == 87 {
            assert(row_well_formed(87));
        } else if i == 88 {
            assert(row_well_formed(88));
        } else if i == 89 {
            assert(row_well_formed(89));
        } else if i == 90 {
            assert(row_well_formed(90));
        } else if i == 91 {
            assert(row_well_formed(91));
        } else if i == 92 {
            assert(row_well_formed(92));
        } else if i == 93 {
            assert(row_well_formed(93));
        } else if i == 94 {
            assert(row_well_formed(94));
        } else if i == 95 {
            assert(row_well_formed(95));
        } else if i == 96 {
            assert(row_well_formed(96));
        } else if i == 97 {
            assert(row_well_formed(97));
        } else if i == 98 {
            assert(row_well_formed(98));
        } else if i == 99 {
            assert(row_well_formed(99));
        }
    }
}

proof fn lemma_rows_well_formed_100()
    ensures
        forall|i: int| 100 <= i < 150 ==> row_well_formed(i),
{
    reveal_with_fuel(buckets_distinct, 5);
    reveal_with_fuel(bucket_absent, 5);
    assert forall|i: int| 100 <= i < 150 implies row_well_formed(i) by {
        if i == 100 {
            assert(row_well_formed(100));
        } else if i == 101 {
            assert(row_well_formed(101));
        } else if i == 102 {
            assert(row_well_formed(102));
        } else if i == 103 {
            assert(row_well_formed(103));
        } else if i == 104 {
            assert(row_well_formed(104));
        } else if i == 105 {
            assert(row_well_formed(105));
        } else if i == 106 {
            assert(row_well_formed(106));
        } else if i == 107 {
            assert(row_well_formed(107));
        } else if i == 108 {
            assert(row_well_formed(108));
        } else if i == 109 {
            assert(row_well_formed(109));
        } else if i == 110 {
            assert(row_well_formed(110));
        } else if i == 111 {
            assert(row_well_formed(111));
        } else if i == 112 {
            assert(row_well_formed(112));
        } else if i == 113 {
            assert(row_well_formed(113));
        } else if i == 114 {
            assert(row_well_formed(114));
        } else if i == 115 {
            assert(row_well_formed(115));
        } else if i == 116 {
            assert(row_well_formed(116));
        } else if i == 117 {
            assert(row_well_formed(117));
        } else if i == 118 {
            assert(row_well_formed(118));
        } else if i == 119 {
            assert(row_well_formed(119));
        } else if i == 120 {
            assert(row_well_formed(120));
        } else if i == 121 {
            assert(row_well_formed(121));
        } else if i == 122 {
            assert(row_well_formed(122));
        } else if i == 123 {
            assert(row_well_formed(123));
        } else if i == 124 {
            assert(row_well_formed(124));
        } else if i == 125 {
            assert(row_well_formed(125));
        } else if i == 126 {
            assert(row_well_formed(126));
        } else if i == 127 {
            assert(row_well_formed(127));
        } else if i == 128 {
            assert(row_well_formed(128));
        } else if i == 129 {
            assert(row_well_formed(129));
        } else if i == 130 {
            assert(row_well_formed(130));
        } else if i == 131 {
            assert(row_well_formed(131));
        } else if i == 132 {
            assert(row_well_formed(132));
        } else if i == 133 {
            assert(row_well_formed(133));
        } else if i == 134 {
            assert(row_well_formed(134));
        } else if i == 135 {
            assert(row_well_formed(135));
        } else if i == 136 {
            assert(row_well_formed(136));
        } else if i == 137 {
            assert(row_well_formed(137));
        } else if i == 138 {
            assert(row_well_formed(138));
        } else if i == 139 {
            assert(row_well_formed(139));
        } else if i == 140 {
            assert(row_well_formed(140));
        } else if i == 141 {
            assert(row_well_formed(141));
        } else if i == 142 {
            assert(row_well_formed(142));
        } else if i == 143 {
            assert(row_well_formed(143));
        } else if i == 144 {
            assert(row_well_formed(144));
        } else if i == 145 {
            assert(row_well_formed(145));
        } else if i == 146 {
            assert(row_well_formed(146));
        } else if i == 147 {
            assert(row_well_formed(147));
        } else if i == 148 {
            assert(row_well_formed(148));
        } else if i == 149 {
            assert(row_well_formed(149));
        }
    }
}

proof fn lemma_rows_well_formed_150()
    ensures
        forall|i: int| 150 <= i < 200 ==> row_well_formed(i),
{
    reveal_with_fuel(buckets_distinct, 5);
    reveal_with_fuel(bucket_absent, 5);
    assert forall|i: int| 150 <= i < 200 implies row_well_formed(i) by {
        if i == 150 {
            assert(row_well_formed(150));
        } else if i == 151 {
            assert(row_well_formed(151));
        } else if i == 152 {
            assert(row_well_formed(152));
        } else if i == 153 {
            assert(row_well_formed(153));
        } else if i == 154 {
            assert(row_well_formed(154));
        } else if i == 155 {
            assert(row_well_formed(155));
        } else if i == 156 {
            assert(row_well_formed(156));
        } else if i == 157 {
            assert(row_well_formed(157));
        } else if i == 158 {
            assert(row_well_formed(158));
        } else if i == 159 {
            assert(row_well_formed(159));
        } else if i == 160 {
            assert(row_well_formed(160));
        } else if i == 161 {
            assert(row_well_formed(161));
        } else if i == 162 {
            assert(row_well_formed(162));
        } else if i == 163 {
            assert(row_well_formed(163));
        } else if i == 164 {
            assert(row_well_formed(164));
        } else if i == 165 {
            assert(row_well_formed(165));
        } else if i == 166 {
            assert(row_well_formed(166));
        } else if i == 167 {
            assert(row_well_formed(167));
        } else if i == 168 {
            assert(row_well_formed(168));
        } else if i == 169 {
            assert(row_well_formed(169));
        } else if i == 170 {
            assert(row_well_formed(170));
        } else if i == 171 {
            assert(row_well_formed(171));
        } else if i == 172 {
            assert(row_well_formed(172));
        } else if i == 173 {
            assert(row_well_formed(173));
        } else if i == 174 {
            assert(row_well_formed(174));
        } else if i == 175 {
            assert(row_well_formed(175));
        } else if i == 176 {
            assert(row_well_formed(176));
        } else if i == 177 {
            assert(row_well_formed(177));
        } else if i == 178 {
            assert(row_well_formed(178));
        } else if i == 179 {
            assert(row_well_formed(179));
        } else if i == 180 {
            assert(row_well_formed(180));
        } else if i == 181 {
            assert(row_well_formed(181));
        } else if i == 182 {
            assert(row_well_formed(182));
        } else if i == 183 {
            assert(row_well_formed(183));
        } else if i == 184 {
            assert(row_well_formed(184));
        } else if i == 185 {
            assert(row_well_formed(185));
        } else if i == 186 {
            assert(row_well_formed(186));
        } else if i == 187 {
            assert(row_well_formed(187));
        } else if i == 188 {
            assert(row_well_formed(188));
        } else if i == 189 {
            assert(row_well_formed(189));
        } else if i == 190 {
            assert(row_well_formed(190));
        } else if i == 191 {
            assert(row_well_formed(191));
        } else if i == 192 {
            assert(row_well_formed(192));
        } else if i == 193 {
            assert(row_well_formed(193));
        } else if i == 194 {
            assert(row_well_formed(194));
        } else if i == 195 {
            assert(row_well_formed(195));
        } else if i == 196 {
            assert(row_well_formed(196));
        } else if i == 197 {
            assert(row_well_formed(197));
        } else if i == 198 {
            assert(row_well_formed(198));
        } else if i == 199 {
            assert(row_well_formed(199));
        }
    }
}

proof fn lemma_rows_well_formed_200()
    ensures
        forall|i: int| 200 <= i < 250 ==> row_well_formed(i),
{
    reveal_with_fuel(buckets_distinct, 5);
    reveal_with_fuel(bucket_absent, 5);
    assert forall|i: int| 200 <= i < 250 implies row_well_formed(i) by {
        if i == 200 {
            assert(row_well_formed(200));
        } else if i == 201 {
            assert(row_well_formed(201));
        } else if i == 202 {
            assert(row_well_formed(202));
        } else if i == 203 {
            assert(row_well_formed(203));
        } else if i == 204 {
            assert(row_well_formed(204));
        } else if i == 205 {
            assert(row_well_formed(205));
        } else if i == 206 {
            assert(row_well_formed(206));
        } else if i == 207 {
            assert(row_well_formed(207));
        } else if i == 208 {
            assert(row_well_formed(208));
        } else if i == 209 {
            assert(row_well_formed(209));
        } else if i == 210 {
            assert(row_well_formed(210));
        } else if i == 211 {
            assert(row_well_formed(211));
        } else if i == 212 {
            assert(row_well_formed(212));
        } else if i == 213 {
            assert(row_well_formed(213));
        } else if i == 214 {
            assert(row_well_formed(214));
        } else if i == 215 {
            assert(row_well_formed(215));
        } else if i == 216 {
            assert(row_well_formed(216));
        } else if i == 217 {
            assert(row_well_formed(217));
        } else if i == 218 {
            assert(row_well_formed(218));
        } else if i == 219 {
            assert(row_well_formed(219));
        } else if i == 220 {
            assert(row_well_formed(220));
        } else if i == 221 {
            assert(row_well_formed(221));
        } else if i == 222 {
            assert(row_well_formed(222));
        } else if i == 223 {
            assert(row_well_formed(223));
        } else if i == 224 {
            assert(row_well_formed(224));
        } else if i == 225 {
            assert(row_well_formed(225));
        } else if i == 226 {
            assert(row_well_formed(226));
        } else if i == 227 {
            assert(row_well_formed(227));
        } else if i == 228 {
            assert(row_well_formed(228));
        } else if i == 229 {
            assert(row_well_formed(229));
        } else if i == 230 {
            assert(row_well_formed(230));
        } else if i == 231 {
            assert(row_well_formed(231));
        } else if i == 232 {
            assert(row_well_formed(232));
        } else if i == 233 {
            assert(row_well_formed(233));
        } else if i == 234 {
            assert(row_well_formed(234));
        } else if i == 235 {
            assert(row_well_formed(235));
        } else if i == 236 {
            assert(row_well_formed(236));
        } else if i == 237 {
            assert(row_well_formed(237));
        } else if i == 238 {
            assert(row_well_formed(238));
        } else if i == 239 {
            assert(row_well_formed(239));
        } else if i == 240 {
            assert(row_well_formed(240));
        } else if i == 241 {
            assert(row_well_formed(241));
        } else if i == 242 {
            assert(row_well_formed(242));
        } else if i == 243 {
            assert(row_well_formed(243));
        } else if i == 244 {
            assert(row_well_formed(244));
        } else if i == 245 {
            assert(row_well_formed(245));
        } else if i == 246 {
            assert(row_well_formed(246));
        } else if i == 247 {
            assert(row_well_formed(247));
        } else if i == 248 {
            assert(row_well_formed(248));
        } else if i == 249 {
            assert(row_well_formed(249));
        }
    }
}

proof fn lemma_rows_well_formed_250()
    ensures
        forall|i: int| 250 <= i < 300 ==> row_well_formed(i),
{
    reveal_with_fuel(buckets_distinct, 5);
    reveal_with_fuel(bucket_absent, 5);
    assert forall|i: int| 250 <= i < 300 implies row_well_formed(i) by {
        if i == 250 {
            assert(row_well_formed(250));
        } else if i == 251 {
            assert(row_well_formed(251));
        } else if i == 252 {
            assert(row_well_formed(252));
        } else if i == 253 {
            assert(row_well_formed(253));
        } else if i == 254 {
            assert(row_well_formed(254));
        } else if i == 255 {
            assert(row_well_formed(255));
        } else if i == 256 {
            assert(row_well_formed(256));
        } else if i == 257 {
            assert(row_well_formed(257));
        } else if i == 258 {
            assert(row_well_formed(258));
        } else if i == 259 {
            assert(row_well_formed(259));
        } else if i == 260 {
            assert(row_well_formed(260));
        } else if i == 261 {
            assert(row_well_formed(261));
        } else if i == 262 {
            assert(row_well_formed(262));
        } else if i == 263 {
            assert(row_well_formed(263));
        } else if i == 264 {
            assert(row_well_formed(264));
        } else if i == 265 {
            assert(row_well_formed(265));
        } else if i == 266 {
            assert(row_well_formed(266));
        } else if i == 267 {
            assert(row_well_formed(267));
        } else if i == 268 {
            assert(row_well_formed(268));
        } else if i == 269 {
            assert(row_well_formed(269));
        } else if i == 270 {
            assert(row_well_formed(270));
        } else if i == 271 {
            assert(row_well_formed(271));
        } else if i == 272 {
            assert(row_well_formed(272));
        } else if i == 273 {
            assert(row_well_formed(273));
        } else if i == 274 {
            assert(row_well_formed(274));
        } else if i == 275 {
            assert(row_well_formed(275));
        } else if i == 276 {
            assert(row_well_formed(276));
        } else if i == 277 {
            assert(row_well_formed(277));
        } else if i == 278 {
            assert(row_well_formed(278));
        } else if i == 279 {
            assert(row_well_formed(279));
        } else if i == 280 {
            assert(row_well_formed(280));
        } else if i == 281 {
            assert(row_well_formed(281));
        } else if i == 282 {
            assert(row_well_formed(282));
        } else if i == 283 {
            assert(row_well_formed(283));
        } else if i == 284 {
            assert(row_well_formed(284));
        } else if i == 285 {
            assert(row_well_formed(285));
        } else if i == 286 {
            assert(row_well_formed(286));
        } else if i == 287 {
            assert(row_well_formed(287));
        } else if i == 288 {
            assert(row_well_formed(288));
        } else if i == 289 {
            assert(row_well_formed(289));
        } else if i == 290 {
            assert(row_well_formed(290));
        } else if i == 291 {
            assert(row_well_formed(291));
        } else if i == 292 {
            assert(row_well_formed(292));
        } else if i == 293 {
            assert(row_well_formed(293));
        } else if i == 294 {
            assert(row_well_formed(294));
        } else if i == 295 {
            assert(row_well_formed(295));
        } else if i == 296 {
            assert(row_well_formed(296));
        } else if i == 297 {
            assert(row_well_formed(297));
        } else if i == 298 {
            assert(row_well_formed(298));
        } else if i == 299 {
            assert(row_well_formed(299));
        }
    }
}

proof fn lemma_rows_well_formed_300()
    ensures
        forall|i: int| 300 <= i < 350 ==> row_well_formed(i),
{
    reveal_with_fuel(buckets_distinct, 5);
    reveal_with_fuel(bucket_absent, 5);
    assert forall|i: int| 300 <= i < 350 implies row_well_formed(i) by {
        if i == 300 {
            assert(row_well_formed(300));
        } else if i == 301 {
            assert(row_well_formed(301));
        } else if i == 302 {
            assert(row_well_formed(302));
        } else if i == 303 {
            assert(row_well_formed(303));
        } else if i == 304 {
            assert(row_well_formed(304));
        } else if i == 305 {
            assert(row_well_formed(305));
        } else if i == 306 {
            assert(row_well_formed(306));
        } else if i == 307 {
            assert(row_well_formed(307));
        } else if i == 308 {
            assert(row_well_formed(308));
        } else if i == 309 {
            assert(row_well_formed(309));
        } else if i == 310 {
            assert(row_well_formed(310));
        } else if i == 311 {
            assert(row_well_formed(311));
        } else if i == 312 {
            assert(row_well_formed(312));
        } else if i == 313 {
            assert(row_well_formed(313));
        } else if i == 314 {
            assert(row_well_formed(314));
        } else if i == 315 {
            assert(row_well_formed(315));
        } else if i == 316 {
            assert(row_well_formed(316));
        } else if i == 317 {
            assert(row_well_formed(317));
        } else if i == 318 {
            assert(row_well_formed(318));
        } else if i == 319 {
            assert(row_well_formed(319));
        } else if i == 320 {
            assert(row_well_formed(320));
        } else if i == 321 {
            assert(row_well_formed(321));
        } else if i == 322 {
            assert(row_well_formed(322));
        } else if i == 323 {
            assert(row_well_formed(323));
        } else if i == 324 {
            assert(row_well_formed(324));
        } else if i == 325 {
            assert(row_well_formed(325));
        } else if i == 326 {
            assert(row_well_formed(326));
        } else if i == 327 {
            assert(row_well_formed(327));
        } else if i == 328 {
            assert(row_well_formed(328));
        } else if i == 329 {
            assert(row_well_formed(329));
        } else if i == 330 {
            assert(row_well_formed(330));
        } else if i == 331 {
            assert(row_well_formed(331));
        } else if i == 332 {
            assert(row_well_formed(332));
        } else if i == 333 {
            assert(row_well_formed(333));
        } else if i == 334 {
            assert(row_well_formed(334));
        } else if i == 335 {
            assert(row_well_formed(335));
        } else if i == 336 {
            assert(row_well_formed(336));
        } else if i == 337 {
            assert(row_well_formed(337));
        } else if i == 338 {
            assert(row_well_formed(338));
        } else if i == 339 {
            assert(row_well_formed(339));
        } else if i == 340 {
            assert(row_well_formed(340));
        } else if i == 341 {
            assert(row_well_formed(341));
        } else if i == 342 {
            assert(row_well_formed(342));
        } else if i == 343 {
            assert(row_well_formed(343));
        } else if i == 344 {
            assert(row_well_formed(344));
        } else if i == 345 {
            assert(row_well_formed(345));
        } else if i == 346 {
            assert(row_well_formed(346));
        } else if i == 347 {
            assert(row_well_formed(347));
        } else if i == 348 {
            assert(row_well_formed(348));
        } else if i == 349 {
            assert(row_well_formed(349));
        }
    }
}

proof fn lemma_rows_well_formed_350()
    ensures
        forall|i: int| 350 <= i < 400 ==> row_well_formed(i),
{
    reveal_with_fuel(buckets_distinct, 5);
    reveal_with_fuel(bucket_absent, 5);
    assert forall|i: int| 350 <= i < 400 implies row_well_formed(i) by {
        if i == 350 {
            assert(row_well_formed(350));
        } else if i == 351 {
            assert(row_well_formed(351));
        } else if i == 352 {
            assert(row_well_formed(352));
        } else if i == 353 {
            assert(row_well_formed(353));
        } else if i == 354 {
            assert(row_well_formed(354));
        } else if i == 355 {
            assert(row_well_formed(355));
        } else if i == 356 {
            assert(row_well_formed(356));
        } else if i == 357 {
            assert(row_well_formed(357));
        } else if i == 358 {
            assert(row_well_formed(358));
        } else if i == 359 {
            assert(row_well_formed(359));
        } else if i == 360 {
            assert(row_well_formed(360));
        } else if i == 361 {
            assert(row_well_formed(361));
        } else if i == 362 {
            assert(row_well_formed(362));
        } else if i == 363 {
            assert(row_well_formed(363));
        } else if i == 364 {
            assert(row_well_formed(364));
        } else if i == 365 {
            assert(row_well_formed(365));
        } else if i == 366 {
            assert(row_well_formed(366));
        } else if i == 367 {
            assert(row_well_formed(367));
        } else if i == 368 {
            assert(row_well_formed(368));
        } else if i == 369 {
            assert(row_well_formed(369));
        } else if i == 370 {
            assert(row_well_formed(370));
        } else if i == 371 {
            assert(row_well_formed(371));
        } else if i == 372 {
            assert(row_well_formed(372));
        } else if i == 373 {
            assert(row_well_formed(373));
        } else if i == 374 {
            assert(row_well_formed(374));
        } else if i == 375 {
            assert(row_well_formed(375));
        } else if i == 376 {
            assert(row_well_formed(376));
        } else if i == 377 {
            assert(row_well_formed(377));
        } else if i == 378 {
            assert(row_well_formed(378));
        } else if i == 379 {
            assert(row_well_formed(379));
        } else if i == 380 {
            assert(row_well_formed(380));
        } else if i == 381 {
            assert(row_well_formed(381));
        } else if i == 382 {
            assert(row_well_formed(382));
        } else if i == 383 {
            assert(row_well_formed(383));
        } else if i == 384 {
            assert(row_well_formed(384));
        } else if i == 385 {
            assert(row_well_formed(385));
        } else if i == 386 {
            assert(row_well_formed(386));
        } else if i == 387 {
            assert(row_well_formed(387));
        } else if i == 388 {
            assert(row_well_formed(388));
        } else if i == 389 {
            assert(row_well_formed(389));
        } else if i == 390 {
            assert(row_well_formed(390));
        } else if i == 391 {
            assert(row_well_formed(391));
        } else if i == 392 {
            assert(row_well_formed(392));
        } else if i == 393 {
            assert(row_well_formed(393));
        } else if i == 394 {
            assert(row_well_formed(394));
        } else if i == 395 {
            assert(row_well_formed(395));
        } else if i == 396 {
            assert(row_well_formed(396));
        } else if i == 397 {
            assert(row_well_formed(397));
        } else if i == 398 {
            assert(row_well_formed(398));
        } else if i == 399 {
            assert(row_well_formed(399));
        }
    }
}

proof fn lemma_rows_well_formed_400()
    ensures
        forall|i: int| 400 <= i < 450 ==> row_well_formed(i),
{
    reveal_with_fuel(buckets_distinct, 5);
    reveal_with_fuel(bucket_absent, 5);
    assert forall|i: int| 400 <= i < 450 implies row_well_formed(i) by {
        if i == 400 {
            assert(row_well_formed(400));
        } else if i == 401 {
            assert(row_well_formed(401));
        } else if i == 402 {
            assert(row_well_formed(402));
        } else if i == 403 {
            assert(row_well_formed(403));
        } else if i == 404 {
            assert(row_well_formed(404));
        } else if i == 405 {
            assert(row_well_formed(405));
        } else if i == 406 {
            assert(row_well_formed(406));
        } else if i == 407 {
            assert(row_well_formed(407));
        } else if i == 408 {
            assert(row_well_formed(408));
        } else if i == 409 {
            assert(row_well_formed(409));
        } else if i == 410 {
            assert(row_well_formed(410));
        } else if i == 411 {
            assert(row_well_formed(411));
        } else if i == 412 {
            assert(row_well_formed(412));
        } else if i == 413 {
            assert(row_well_formed(413));
        } else if i == 414 {
            assert(row_well_formed(414));
        } else if i == 415 {
            assert(row_well_formed(415));
        } else if i == 416 {
            assert(row_well_formed(416));
        } else if i == 417 {
            assert(row_well_formed(417));
        } else if i == 418 {
            assert(row_well_formed(418));
        } else if i == 419 {
            assert(row_well_formed(419));
        } else if i == 420 {
            assert(row_well_formed(420));
        } else if i == 421 {
            assert(row_well_formed(421));
        } else if i == 422 {
            assert(row_well_formed(422));
        } else if i == 423 {
            assert(row_well_formed(423));
        } else if i == 424 {
            assert(row_well_formed(424));
        } else if i == 425 {
            assert(row_well_formed(425));
        } else if i == 426 {
            assert(row_well_formed(426));
        } else if i == 427 {
            assert(row_well_formed(427));
        } else if i == 428 {
            assert(row_well_formed(428));
        } else if i == 429 {
            assert(row_well_formed(429));
        } else if i == 430 {
            assert(row_well_formed(430));
        } else if i == 431 {
            assert(row_well_formed(431));
        } else if i == 432 {
            assert(row_well_formed(432));
        } else if i == 433 {
            assert(row_well_formed(433));
        } else if i == 434 {
            assert(row_well_formed(434));
        } else if i == 435 {
            assert(row_well_formed(435));
        } else if i == 436 {
            assert(row_well_formed(436));
        } else if i == 437 {
            assert(row_well_formed(437));
        } else if i == 438 {
            assert(row_well_formed(438));
        } else if i == 439 {
            assert(row_well_formed(439));
        } else if i == 440 {
            assert(row_well_formed(440));
        } else if i == 441 {
            assert(row_well_formed(441));
        } else if i == 442 {
            assert(row_well_formed(442));
        } else if i == 443 {
            assert(row_well_formed(443));
        } else if i == 444 {
            assert(row_well_formed(444));
        } else if i == 445 {
            assert(row_well_formed(445));
        } else if i == 446 {
            assert(row_well_formed(446));
        } else if i == 447 {
            assert(row_well_formed(447));
        } else if i == 448 {
            assert(row_well_formed(448));
        } else if i == 449 {
            assert(row_well_formed(449));
        }
    }
}

proof fn lemma_rows_well_formed_450()
    ensures
        forall|i: int| 450 <= i < 500 ==> row_well_formed(i),
{
    reveal_with_fuel(buckets_distinct, 5);
    reveal_with_fuel(bucket_absent, 5);
    assert forall|i: int| 450 <= i < 500 implies row_well_formed(i) by {
        if i == 450 {
            assert(row_well_formed(450));
        } else if i == 451 {
            assert(row_well_formed(451));
        } else if i == 452 {
            assert(row_well_formed(452));
        } else if i == 453 {
            assert(row_well_formed(453));
        } else if i == 454 {
            assert(row_well_formed(454));
        } else if i == 455 {
            assert(row_well_formed(455));
        } else if i == 456 {
            assert(row_well_formed(456));
        } else if i == 457 {
            assert(row_well_formed(457));
        } else if i == 458 {
            assert(row_well_formed(458));
        } else if i == 459 {
            assert(row_well_formed(459));
        } else if i == 460 {
            assert(row_well_formed(460));
        } else if i == 461 {
            assert(row_well_formed(461));
        } else if i == 462 {
            assert(row_well_formed(462));
        } else if i == 463 {
            assert(row_well_formed(463));
        } else if i == 464 {
            assert(row_well_formed(464));
        } else if i == 465 {
            assert(row_well_formed(465));
        } else if i == 466 {
            assert(row_well_formed(466));
        } else if i == 467 {
            assert(row_well_formed(467));
        } else if i == 468 {
            assert(row_well_formed(468));
        } else if i == 469 {
            assert(row_well_formed(469));
        } else if i == 470 {
            assert(row_well_formed(470));
        } else if i == 471 {
            assert(row_well_formed(471));
        } else if i == 472 {
            assert(row_well_formed(472));
        } else if i == 473 {
            assert(row_well_formed(473));
        } else if i == 474 {
            assert(row_well_formed(474));
        } else if i == 475 {
            assert(row_well_formed(475));
        } else if i == 476 {
            assert(row_well_formed(476));
        } else if i == 477 {
            assert(row_well_formed(477));
        } else if i == 478 {
            assert(row_well_formed(478));
        } else if i == 479 {
            assert(row_well_formed(479));
        } else if i == 480 {
            assert(row_well_formed(480));
        } else if i == 481 {
            assert(row_well_formed(481));
        } else if i == 482 {
            assert(row_well_formed(482));
        } else if i == 483 {
            assert(row_well_formed(483));
        } else if i == 484 {
            assert(row_well_formed(484));
        } else if i == 485 {
            assert(row_well_formed(485));
        } else if i == 486 {
            assert(row_well_formed(486));
        } else if i == 487 {
            assert(row_well_formed(487));
        } else if i == 488 {
            assert(row_well_formed(488));
        } else if i == 489 {
            assert(row_well_formed(489));
        } else if i == 490 {
            assert(row_well_formed(490));
        } else if i == 491 {
            assert(row_well_formed(491));
        } else if i == 492 {
            assert(row_well_formed(492));
        } else if i == 493 {
            assert(row_well_formed(493));
        } else if i == 494 {
            assert(row_well_formed(494));
        } else if i == 495 {
            assert(row_well_formed(495));
        } else if i == 496 {
            assert(row_well_formed(496));
        } else if i == 497 {
            assert(row_well_formed(497));
        } else if i == 498 {
            assert(row_well_formed(498));
        } else if i == 499 {
            assert(row_well_formed(499));
        }
    }
}

proof fn lemma_rows_well_formed_500()
    ensures
        forall|i: int| 500 <= i < 549 ==> row_well_formed(i),
{
    reveal_with_fuel(buckets_distinct, 5);
    reveal_with_fuel(bucket_absent, 5);
    assert forall|i: int| 500 <= i < 549 implies row_well_formed(i) by {
        if i == 500 {
            assert(row_well_formed(500));
        } else if i == 501 {
            assert(row_well_formed(501));
        } else if i == 502 {
            assert(row_well_formed(502));
        } else if i == 503 {
            assert(row_well_formed(503));
        } else if i == 504 {
            assert(row_well_formed(504));
        } else if i == 505 {
            assert(row_well_formed(505));
        } else if i == 506 {
            assert(row_well_formed(506));
        } else if i == 507 {
            assert(row_well_formed(507));
        } else if i == 508 {
            assert(row_well_formed(508));
        } else if i == 509 {
            assert(row_well_formed(509));
        } else if i == 510 {
            assert(row_well_formed(510));
        } else if i == 511 {
            assert(row_well_formed(511));
        } else if i == 512 {
            assert(row_well_formed(512));
        } else if i == 513 {
            assert(row_well_formed(513));
        } else if i == 514 {
            assert(row_well_formed(514));
        } else if i == 515 {
            assert(row_well_formed(515));
        } else if i == 516 {
            assert(row_well_formed(516));
        } else if i == 517 {
            assert(row_well_formed(517));
        } else if i == 518 {
            assert(row_well_formed(518));
        } else if i == 519 {
            assert(row_well_formed(519));
        } else if i == 520 {
            assert(row_well_formed(520));
        } else if i == 521 {
            assert(row_well_formed(521));
        } else if i == 522 {
            assert(row_well_formed(522));
        } else if i == 523 {
            assert(row_well_formed(523));
        } else if i == 524 {
            assert(row_well_formed(524));
        } else if i == 525 {
            assert(row_well_formed(525));
        } else if i == 526 {
            assert(row_well_formed(526));
        } else if i == 527 {
            assert(row_well_formed(527));
        } else if i == 528 {
            assert(row_well_formed(528));
        } else if i == 529 {
            assert(row_well_formed(529));
        } else if i == 530 {
            assert(row_well_formed(530));
        } else if i == 531 {
            assert(row_well_formed(531));
        } else if i == 532 {
            assert(row_well_formed(532));
        } else if i == 533 {
            assert(row_well_formed(533));
        } else if i == 534 {
            assert(row_well_formed(534));
        } else if i == 535 {
            assert(row_well_formed(535));
        } else if i == 536 {
            assert(row_well_formed(536));
        } else if i == 537 {
            assert(row_well_formed(537));
        } else if i == 538 {
            assert(row_well_formed(538));
        } else if i == 539 {
            assert(row_well_formed(539));
        } else if i == 540 {
            assert(row_well_formed(540));
        } else if i == 541 {
            assert(row_well_formed(541));
        } else if i == 542 {
            assert(row_well_formed(542));
        } else if i == 543 {
            assert(row_well_formed(543));
        } else if i == 544 {
            assert(row_well_formed(544));
        } else if i == 545 {
            assert(row_well_formed(545));
        } else if i == 546 {
            assert(row_well_formed(546));
        } else if i == 547 {
            assert(row_well_formed(547));
        } else if i == 548 {
            assert(row_well_formed(548));
        }
    }
}

/// Every row of the bucket table feeds one to four buckets, none twice.
pub proof fn law_bucket_rows_well_formed(i: int)
    requires
        0 <= i < bucket_table_len(),
    ensures
        row_well_formed(i),
{
    lemma_rows_well_formed_0();
    lemma_rows_well_formed_50();
    lemma_rows_well_formed_100();
    lemma_rows_well_formed_150();
    lemma_rows_well_formed_200();
    lemma_rows_well_formed_250();
    lemma_rows_well_formed_300();
    lemma_rows_well_formed_350();
    lemma_rows_well_formed_400();
    lemma_rows_well_formed_450();
    lemma_rows_well_formed_500();
}

} // verus!
