//! Item state, modifier definitions and instances, and the effects they produce.

use vstd::prelude::*;

use crate::effect::planning::Poe2ConflictKey;
use crate::effect::planning::Poe2EffectPhase;
use crate::effect::planning::Poe2SelectionKey;
use crate::poe2_condition::Poe2Condition;
use crate::poe2_scaling::Poe2Scaling;
use crate::repoe_parse::GenerationType;
use crate::repoe_parse::HashedTagWeight;
use crate::repoe_parse::Properties;
use crate::repoe_parse::Requirements;
use crate::text::chars_eq;
use crate::text::chars_of;
use ahash::AHasher;
use crate::item::tag_set::tag_set_clone;
use crate::item::tag_set::tag_set_contents;
use std::hash::Hash;
use std::hash::Hasher;

verus! {


/// Hashes a string with `ahash`'s `AHasher::default()`.
///
/// The hasher's keys are drawn at random once per process (the first call
/// seeds them from the system's random source, and panics if that source
/// fails), so nothing is stated of the value: two calls in one process
/// agree, but no contract here says so, and values differ between processes.
#[verifier::external_body]
pub fn hash_string(s: &str) -> u64 {
    let mut hasher = AHasher::default();
    s.hash(&mut hasher);
    hasher.finish()
}

/// The game marker type.
pub struct Poe2;

/// The rarity of an item.
#[derive(Debug, Clone, Copy, PartialEq, Eq, Structural)]
pub enum ItemRarity {
    Normal,
    Magic,
    Rare,
    Unique,
}

/// The equipment slot an item occupies.
#[derive(Debug, Clone, Copy, PartialEq, Eq, Hash, Structural)]
pub enum EquipSlot {
    MainHand,
    OffHand,
    BodyArmour,
    Helmet,
    Gloves,
    Boots,
    Amulet,
    Ring1,
    Ring2,
    Belt,
    NoSlot,
}

/// How a stat of a modifier applies.
#[derive(Debug, Clone, Copy, PartialEq, Eq, Hash, Structural)]
pub enum Poe2StatModifierKind {
    Plain,
    Conditional(Poe2Condition),
    Scaled(Poe2Scaling),
}

/// The final-stat bucket a stat contributes to.
#[derive(Debug, Clone, Copy, PartialEq, Eq, Hash, Structural)]
pub enum StatBucket {
    Life,
    LifePercent,
    Mana,
    ManaPercent,
    EnergyShield,
    MaximumEnergyShieldPercent,
    Spirit,
    Ward,
    Armour,
    ArmourPercent,
    Evasion,
    EvasionPercent,
    Block,
    ThornsPhysicalMin,
    ThornsPhysicalMax,
    FireResistance,
    ColdResistance,
    LightningResistance,
    ChaosResistance,
    Strength,
    Dexterity,
    Intelligence,
    ChaosDamagePercent,
    StunThreshold,
    ReducedAttributeRequirementsPercent,
    MovementSpeedPercent,
    GlobalAttackPhysicalMin,
    GlobalAttackPhysicalMax,
    GlobalAttackFireMin,
    GlobalAttackFireMax,
    GlobalAttackColdMin,
    GlobalAttackColdMax,
    GlobalAttackLightningMin,
    GlobalAttackLightningMax,
    AttackDamageIncreasePrecent,
    AlliesInPresenceAttackPhysicalMin,
    AlliesInPresenceAttackPhysicalMax,
    AlliesInPresenceAttackFireMin,
    AlliesInPresenceAttackFireMax,
    AlliesInPresenceAttackColdMin,
    AlliesInPresenceAttackColdMax,
    AlliesInPresenceAttackLightningMin,
    AlliesInPresenceAttackLightningMax,
    AlliesInPresenceAttackChaosMin,
    AlliesInPresenceAttackChaosMax,
    AlliesInPresenceDamageIncreasePrecent,
    AlliesInPresenceAttackSpeedIncreasePrecent,
    AlliesInPresenceAccuracyRating,
    AccuracyRating,
    AccuracyRatingPercent,
    ChanceToNotConsumeExertedAttack,
    SpellDamageIncreasePrecent,
    SpellPhysicalDamageIncreasePrecent,
    FireDamageIncreasePrecent,
    ColdDamageIncreasePrecent,
    LightningDamageIncreasePrecent,
    ChaosDamageIncreasePrecent,
    PhysicalDamageIncreasePrecent,
    TrapDamageIncreasePrecent,
    SpellSkillGemLevelIncrease,
    FireSpellSkillGemLevelIncrease,
    ColdSpellSkillGemLevelIncrease,
    LightningSpellSkillGemLevelIncrease,
    ChaosSpellSkillGemLevelIncrease,
    PhysicalSpellSkillGemLevelIncrease,
    MinionSkillGemLevelIncrease,
    TrapSkillGemLevelIncrease,
    MeleeSkillGemLevelIncrease,
    ProjectileSkillGemLevelIncrease,
    LiferRegenPerMinute,
    LifeRegenPerMinutePercent,
    AlliesInPresenceLifeRegenPerMinute,
    ManaRegenerationRatePercent,
    BaseLifeLeechFromPhysicalAttackDamage,
    BaseManaLeechFromPhysicalAttackDamage,
    BaseLifeGainedOnEnemyDeath,
    BaseManaGainedOnEnemyDeath,
    BaseLifeGainedOnEnemyHit,
    BaseManaGainedOnEnemyHit,
    AttackSpeedPercent,
    BaseCastSpeedIncreasePrecent,
    AlliesInPresenceCastSpeedIncreasePrecent,
    CriticalStrikeChanceIncreasePrecent,
    TrapThrowingSpeedIncreasePrecent,
    SpellCriticalStrikeChanceIncreasePrecent,
    AttackCriticalStrikeChanceIncreasePrecent,
    TrapCriticalStrikeChanceIncreasePrecent,
    AlliesInPresenceCriticalStrikeChanceIncreasePrecent,
    BaseCriticalStrikeMultiplierIncreasePrecent,
    BaseSpellCriticalStrikeMultiplierIncreasePrecent,
    AttackCriticalStrikeMultiplierIncreasePrecent,
    AttackCriticalStrikeMultiplierIncrease,
    TrapCriticalStrikeMultiplierIncrease,
    AlliesInPresenceCriticalStrikeMultiplierIncrease,
    BaseItemFoundRarityIncreasePrecent,
    LightRadiusIncreasePrecent,
    SelfBleedDurationDecreasePrecent,
    SelfPoisonDurationDecreasePrecent,
    BaseIgniteDurationDecreasePrecent,
    BaseSelfShockDurationDecreasePrecent,
    BaseSelfChillDurationDecreasePrecent,
    BaseSelfFreezeDurationDecreasePrecent,
    ReduceCriticalStrikeMultiplierToSelf,
    PhysicalDamageReductionPrecent,
    FireResistanceMax,
    ColdResistanceMax,
    LightningResistanceMax,
    ChaosResistanceMax,
    AllElementalResistanceMax,
    EnergyShieldRechargeRateIncreasePrecent,
    EnergyShieldDelayDecreasePrecent,
    ArmourAppliesToElementalDamage,
    ArmourPercentAppliesToChaosDamage,
    EvasionAppliesToDeflection,
    BaseDeflectionRatingPercentOfArmour,
    DeflectDamageTaken,
    PercentEvasionRatingAsExtraArmour,
    BaseChanceToPierce,
    BaseNumberOfCrossbowBolts,
    FlaskLifeRecoveryRateIncreasePrecent,
    LifeFlaskChargesGainedIncreasePrecent,
    FlaskManaRecoveryRateIncreasePrecent,
    ManaFlaskChargesGainedIncreasePrecent,
    FlaskRecoveryAmountPercentToRecoverInstantly,
    GenerateXChargesForAnyFlaskPerMinute,
    MaximumManaGainedOnKillPercent,
    BaseManaLeechAmountIncreasePrecent,
    MovementSpeedPenaltyReductionPercent,
    BaseDamageRemovedFromManaBeforeLifePercent,
    SelfStatusAilmentDurationReductionPercent,
    CorruptedSkillGemLevelIncrease,
    WardRegenerationRateIncreasePrecent,
    BaseIgniteIncereasedMagnitudePrecent,
    BaseDamageTakenIncreasePrecent,
    IncreaseEvasionPercentArmourPercentEnergyShieldPercentFromShield,
    StrikesDealMeleeSplash,
    WarCryEmpowersNextXMeleeAttacks,
    GainXRageOnMeleeHit,
    GainXRageWhenGetByEnemyHit,
    ShockEffectIncreasePrecent,
    MaximumRage,
    MinionAccuracyRatingIncreasePrecent,
    MinionSkillAreaOfEffectIncreasePrecent,
    MinionChaosResistanceIncreasePrecent,
    MinionCriticalStrikeChanceIncreasePrecent,
    MinionCriticalStrikeMultiplierIncreasePrecent,
    MinionAttackAndCastSpeedIncreasePrecent,
    MeleeDamageIncreasePrecent,
    MarkEffectIncreasePrecent,
    MarkSkillDurationIncreasePrecent,
    MarkUseSpeedIncreasePrecent,
    SpellsCostLifeInsteadOfMana,
    ProjectileAttackRangePrecent,
    ChanceToFire1AdditionalProjectileWithRolloverWithBowAttacks,
    ProjectileSpeedIncreasePrecentForCrossbowSkills,
    GrenadeSkillNumberOfAdditionalProjectiles,
    AdditionalBallistaTotemsAllowed,
    GrenadeSkillCooldownCount,
    GrenadeSkillCooldownSpeedIncreasePrecent,
    PlacingTrapsCooldownRecoveryForThrowingIncreasePrecent,
    AilmentChanceIncreasePrecent,
    AilmentEffectIncreasePrecent,
    BaseSkillAreaOfEffectIncreasePrecent,
    ArmourBreakAmountIncreasePrecent,
    AuraEffectIncreasePrecent,
    AxeDamageIncreasePrecent,
    AxeAttackSpeedIncreasePrecent,
    BaseChanceToInflictBleeding,
    BaseBleedDurationIncreasePrecent,
    BlindEffectIncreasePrecent,
    ChanceToBlindOnHitWithAttacks,
    DamageToRareAndUniqueEnemiesIncreasePrecent,
    ProjectileChanceToChain1ExtraTimeFromTerrainIncreasePrecent,
    ColdResistancePenetration,
    BaseCooldownSpeedIncreasePrecent,
    DamageIfYouHaveConsumedACorpseRecentlyIncreasePrecent,
    CriticalHitDamagingAilmentEffectIncreasePrecent,
    CrossbowDamageIncreasePrecent,
    ReloadSpeedIncreasePrecent,
    CrossbowAttackSpeedIncreasePrecent,
    CurseAreaOfEffectIncreasePrecent,
    CurseDelayIncreasePrecent,
    BaseCurseDurationIncreasePrecent,
    CurseEffectIncreasePrecent,
    DaggerCriticalStrikeChanceIncreasePrecent,
    DaggerDamageIncreasePrecent,
    DaggerAttackSpeedIncreasePrecent,
    DamageAgainstEnemiesWithFullyBrokenArmourIncreasePrecent,
    DamagingAilmentDurationIncreasePrecent,
    BaseChanceToDazeIncreasePrecent,
    DebuffTimePassedIncreasePrecent,
    IgniteShockChillDurationIncreasePrecent,
    ElementalDamageIncreasePrecent,
    EmpoweredAttackDamageIncreasePrecent,
    EnergyGeneratedIncreasePrecent,
    DamagingAilmentsDealDamageIncreasePrecent,
    FireResistancePenetration,
    FlailCriticalStrikeChanceIncreasePrecent,
    FlailDamageIncreasePrecent,
    EnergyShieldFromFocusIncreasePrecent,
    ChanceToForkExtraProjectileIncreasePrecent,
    FreezeThresholdIncreasePrecent,
    DamageWithHeraldSkillsIncreasePrecent,
    SkillEffectDurationIncreasePrecent,
    KnockbackDistanceIncreasePrecent,
    BaseSkillCostLifeInsteadOfManaIncreasePrecent,
    BaseLifeLeechAmountIncreasePrecent,
    RecoverMaximumLifeOnKillIncreasePrecent,
    DamageTakenGoesToLifeOver4SecondsIncreasePrecent,
    LifeRegenerationRateIncreasePrecent,
    LightningResistancePenetration,
    MaceDamageIncreasePrecent,
    MaceHitDamageStunMultiplierIncreasePrecent,
    AccuracyRatingIncreaseWithBowPrecent,
    BowDamageIncreasePrecent,
    BowAttackSpeedIncreasePrecent,
    ChillDurationIncreasePrecent,
    BlockChanceIncreasePrecent,
    ArmourBreakDurationIncreasePrecent,
    MinionDamageIncreasePrecent,
    AdditionalBlockIncreasePrecent,
    FasterBleedDamage,
    AilmentThresholdPercent,
    StunThresholdPercent,
    CharmDurationIncreasePrecent,
    FlaskChargesGainedIncreasePrecent,
    FlaskDurationIncreasePrecent,
    FlaskChargesReducedUsedIncreasePrecent,
    CharmChargesGainedIncreasePrecent,
    CharmChargesReducedUsedIncreasePrecent,
    IgniteChanceIncreasePrecent,
    DamageWhileUsingCharmIncreasePrecent,
    HitDamageFreezeMultiplierIncreasePrecent,
    ShockChanceIncreasePrecent,
    ShockDurationIncreasePrecent,
    BaseProjectileSpeedIncreasePrecent,
    DamageTakenGoesToLifeOver4Seconds,
    DamageTakenGoesToMana,
    ElementalDamageWithAttackSkillsIncreasePrecent,
    NonSkillBaseAllDamageToGainAsFire,
    NonSkillBaseAllDamageToGainAsCold,
    NonSkillBaseAllDamageToGainAsLightning,
    NonSkillBaseAllDamageToGainAsChaos,
    DamageWithBowSkillsIncreasePrecent,
    PresenceAreaIncreasePrecent,
    MinionMaximumLifeIncreasePrecent,
    MinionFireResistance,
    MinionColdResistance,
    MinionLightningResistance,
    MinionChaosResistance,
    MinionResummonSpeedIncreasePrecent,
    MinionAdditionalPhysicalDamageReductionIncreasePrecent,
    TrapTriggerRadiusIncreasePrecent,
    CharmRecoverXLifeWhenUsed,
    CharmRecoverXManaWhenUsed,
    CharmGainXGuardForDuration,
    HitDamageStunMultiplierIncreasePrecent,
    ChanceToPoisonOnHitWithAttacks,
    ChanceBleedOnHitWithAttacks,
    BaseArrowSpeedIncreasePrecent,
    BaseSlowPotencyPercent,
    OfferingDurationIncreasePrecent,
    OfferingLifeIncreasePrecent,
    HitDamagePinMultiplierIncreasePrecent,
    BaseChanceToPoisonOnHitIncreasePrecent,
    BasePoisonEffectIncreasePrecent,
    BasePoisonDurationIncreasePrecent,
    ProjectileDamageIncreasePrecent,
    QuarterstaffDamageIncreasePrecent,
    QuarterstaffHitDamageFreezeMultiplierIncreasePrecent,
    QuarterstaffAttackSpeedIncreasePrecent,
    QuiverModEffectIncreasePrecent,
    SpearAttackSpeedIncreasePrecent,
    SpearCriticalStrikeMultiplierIncreasePrecent,
    SpearDamageIncreasePrecent,
    StunThresholdFromMaximumEnergyShieldPercent,
    AilmentThresholdFromMaximumEnergyShieldPercent,
    StunThresholdWhenNotStunnedRecentlyPercent,
    SwordDamageIncreasePrecent,
    BaseBleedingEffectPercent,
    SwordAttackSpeedIncreasePrecent,
    ThornsDamageIncreasePrecent,
    TotemDamageIncreasePrecent,
    TotemLifeIncreasePrecent,
    SummonTotemCastSpeedIncreasePrecent,
    StrengthPercent,
    DexterityPercent,
    IntelligencePercent,
    AilmentThresholdFlat,
    AllSkillGemLevelIncrease,
    CrossbowReloadInstantChanceIncreasePrecent,
    TriggeredSpellSpellDamageIncreasePrecent,
    UnarmedDamageIncreasePrecent,
    WarcryBuffEffectIncreasePrecent,
    WarcryCooldownSpeedIncreasePrecent,
    WarcryDamageIncreasePrecent,
    WarcrySpeedIncreasePrecent,
    WeaponSwapSpeedIncreasePrecent,
    WitheredMagnitudeIncreasePrecent,
    UnarmedAttackSpeedIncreasePrecent,
    ProjectileDamageIncreasePrecentIfYouveDealtMeleeHitRecently,
    MeleeDamageIncreasePrecentIfYouveDealtProjectileAttackHitRecently,
    ParryDamageIncreasePrecent,
    ParrySkillEffectDurationIncreasePrecent,
    ParryStunThresholdIncreasePrecentDuringParry,
    VolatilityOnKillChanceIncreasePrecent,
    CompanionDamageIncreasePrecent,
    CompanionMaximumLifeIncreasePrecent,
    HazardDamageIncreasePrecent,
    ChanceToInflictIncisionOnAttackHitIncreasePrecent,
    GloryGenerationIncreasePrecentForBanners,
    BannerAreaOfEffectIncreasePrecent,
    BannerDurationIncreasePrecent,
    ApplyDebilitateOnHitWhileEmeraldSapphireSocketed,
    ApplyBlindOnHitWhileRubySapphireSocketed,
    ApplyExposureOnHitWhileRubyEmeraldSocketed,
    CannotDie,
    GoldFromEnemiesIncreasePrecent,
    MaxEnduranceCharges,
    MaxFrenzyCharges,
    MaxPowerCharges,
    AdditionalMaximumBlockIncreasePrecent,
    LifeGainedOnBlock,
    ManaGainedOnBlock,
    DamageIncreasePrecent,
    SkillSpeedIncreasePrecent,
    BaseDebuffSlowMagnitudeIncreasePrecent,
    GenerateXChargesForLifeFlasksPerMinute,
    GenerateXChargesForManaFlasksPerMinute,
    GenerateXChargesForCharmsPerMinute,
    AbyssalWastingEffectIncreasePrecent,
    AddPowerChargeOnCriticalStrikeIncreasePrecent,
    AdditionalBaseCriticalStrikeChance,
    AdditionalBlockChanceAgainstProjectilesIncreasePrecent,
    AdditionalComboGainChanceIncreasePrecent,
    AdditionalInfusionGainChanceIncreasePrecent,
    AdditionalMaximumInfusionStacks,
    AdditionalPhysicalDamageReductionIncreasePrecent,
    AggravateBleedingOlderThanMsOnHit,
    GlobalSkillGemQualityPluss,
    AlliesInPresenceResistAllElementsIncreasePrecent,
    ApplyAnaemiaMagnitudeOnHit,
    ArcaneSurgeEffectOnSelfIncreasePrecent,
    ArchonDelayExpiresXPercentFaster,
    ArchonDurationIncreasePrecent,
    ArchonEffectOnYouIncreasePrecent,
    ArmourBreakEqualToPhysicalDamageDealtOnCriticalStrikeWithSpells,
    ArmourBreakPhysicalDamageIncreasePrecent,
    ArrowSpeedAdditiveModifiersAlsoApplyToBowDamage,
    AttackAddedChaosDamageIncreasePrecent,
    AttackAddedPhysicalDamageIncreasePrecent,
    AttackAddedColdDamageIncreasePrecent,
    AttackAddedFireDamageIncreasePrecent,
    AttackAddedLightningDamageIncreasePrecent,
    AttackAndCastSpeedIncreasePrecent,
    AttackAndCastSpeedIncreasePrecentDuringFlaskEffect,
    AttackAreaOfEffectIncreasePrecent,
    AttackAreaOfEffectIncreasePrecentPer10Int,
    AttackDamageIncreasePrecentWhenOnLowLife,
    ReducedAttackManaCostPrecent,
    AttackMaximumAddedChaosDamage,
    AttackMinimumAddedChaosDamage,
    AttackSkillGemLevelIncrease,
    AttackSkillsHaveAddedLightningDamageEqualToPrecentOfMaximumMana,
    AttackSpeedIncreasePrecentIfNotBeenHitRecently,
    AttackSpeedIncreasePrecentWhenOnFullLife,
    AttackSpeedIncreasePrecentWhileInPresenceOfCompanion,
    AttackSpeedIncreasePrecentWhileMissingWard,
    AttackNumberOfAdditionalChains,
    AvoidAllElementalStatusPrecent,
    BaseAllAilmentDurationPrecent,
    ReduceBaseAllAilmentDurationOnSelfPrecent,
    BaseAttackSkillCostEfficiencyPrecent,
    BaseAvoidChillPrecent,
    BaseAvoidFreezePrecent,
    BaseAvoidIgnitePrecent,
    BaseAvoidShockPrecent,
    BaseAvoidStunPrecent,
    BaseBleedChanceIsPoisonChanceInstead,
    BaseChanceToShockPrecent,
    BaseDamagingAilmentEffectPrecent,
    BaseElementalStatusAilmentDurationPrecent,
    BaseEnemyCriticalStrikeChancePrecent,
    BaseLifeCostEfficiencyPrecent,
    BaseLifeLeechDoesNotStopAtFullLife,
    BaseLifeLeechRatePrecent,
    BaseManaCostPrecent,
    BaseManaCostEfficiencyPrecent,
    BaseManaLeechRatePrecent,
    BaseManaReservationEfficiencyPrecent,
    BaseMaximumSealsForSkill,
    BaseMinionDurationPrecent,
    BaseNumberOfEssenceSpiritsAllowed,
    BaseOnlsaughtOnHitPrecent,
    BasePoisonChanceIsBleedChanceInstead,
    BaseRageCostEfficiencyPrecent,
    BaseReservationEfficiencyPrecent,
    BaseSkillCostEfficiencyPrecent,
    BaseSpellCooldownSpeedPrecent,
    BaseSpellManaCostEfficiencyPrecent,
    BaseSpiritReservationEfficiencyPrecent,
    BaseThornsCriticalStrikeChance,
    BaseUnholyMightGrantedMagnitudePrecent,
    BellHitLimit,
    BleedChancePrecent,
    BlockDamageTakenWhileActiveBlockingPrecent,
    BodyArmourPrecent,
    BodyArmourEvasionRatingPrecent,
    BrokenArmourAndSunderedArmourDebuffEffectPrecent,
    CannotBeInflictedByCorruptedBlood,
    CannotBePoisoned,
    CastSpeedPrecentDuringManaFlaskEffect,
    CastSpeedPrecentPerNumUniqueSpellsCastRecently,
    CastSpeedPrecentWhenOnFullLife,
    CastSpeedPrecentWhenOnLowLife,
    CastSpeedPrecentWhileOnFullMana,
    ChanceToGainArchonOfNatureOnOvergrowingPlantPrecent,
    ChanceToGainArchonOfUndeathWhenYouCreateAnOfferingPrecent,
    ChanceToCrushOnHitPrecent,
    ChanceToFire1AdditionalProjectileWithRolloverPrecent,
    ChanceToGainPowerChargeOnStunPrecent,
    ChanceToNotConsumeInfusionPrecentIfLostArchonInPast6Seconds,
    ChanceToRetain40PrecentOfGloryOnUsePrecent,
    ChaosDamageResistancePrecentPerPoisonStack,
    ChaosDamageTakenOverTimePrecent,
    ChaosDotMultiplierPrecent,
    ChaosResistancePrecentWhileUsingFlask,
    ChargeSkipConsumeChancePrecent,
    CharmsPrecentChanceToNotConsumeCharges,
    ColdDamagePrecentColdInfusionCollectedLast8Seconds,
    ColdDamageTakenPrecentGoesToLifeOver4Seconds,
    ColdDotMultiplierPrecent,
    CompanionAttackSpeedPrecent,
    CreatedRemnantsPrecentChanceToDuplicatePickUpResults,
    CriticalHitDamageBonusPrecentVsEnemiesWithin2mDistance,
    CriticalStrikeChancePrecentVsEnemiesFurtherThan6mDistance,
    CriticalStrikeChancePrecentVsMarkedEnemies,
    CurseEffectOnSelfPrecent,
    DamagePrecentAgainstEnemiesMarkedByYou,
    DamagePrecentPerPoisonUpTo75,
    DamagePrecentVsImmobilisedEnemies,
    DamagePrecentWhileInPresenceOfCompanion,
    DamagePrecentWhileLeeching,
    DamagePrecentWhileTotemActive,
    DamageRemovedFromSpectresBeforeLifeOrEsPrecent,
    DamageTakenGoesToLifeManaEsOver4SecondsPrecent,
    DamageVsCursedEnemiesPerEnemyCursePrecent,
    Deal1000ChaosDamagePerSecondFor10SecondsOnHit,
    DeflectedHitDamageTakenPrecentRecoupedAsLife,
    DeflectionRatingPrecent,
    DexterityAndIntelligencePrecent,
    DodgeRollBaseTravelDistance,
    DummyStatDisplayNothing,
    ElementalAilmentTypesApplyDamageTakenPrecent,
    ElementalPenetrationPrecentDuringFlaskEffect,
    ElementalSkillLimitPrecent,
    EnemiesChaosResistancePrecentWhileCursed,
    EnemiesChanceExplodeOnKill,
    EnergyShieldRechargeRatePrecentIfBlockedRecently,
    EssenceAbyssGuaranteedPick,
    EssenceBuffElementalDamageTakenPrecent,
    EssenceDisplayElementalDamageTakenWhileNotMovingPrecent,
    EvasionRatingPrecent,
    EvasionRatingPrecentWhileLeeching,
    ExplodeBurningEnemiesFor10LifeAsFireOnKillChancePrecent,
    ExplodeEnemiesFor10LifeAsPhysicalOnKillChancePrecent,
    ExplodeEnemiesFor25LifeAsChaosOnKillChancePrecent,
    ExposureEffectPrecent,
    FireDamagePrecentIfFireInfusionCollectedLast8Seconds,
    FireDamageTakenGoesToLifeOver4SecondsPrecent,
    FireDotMultiplierPrecent,
    FireSpellAdditionalCriticalStrikeChancePerMyriad,
    FishQuantityPrecent,
    FishRarityPrecent,
    FishingHookType,
    FishingLineStrengthPrecent,
    FishingLureType,
    FishingPoolConsumptionPrecent,
    FishingRangePrecent,
    FlasksPrecentChanceToNotConsumeCharges,
    FullyBreakEnemiesArmourOnHeavyStunWithShieldSkills,
    GainAlchemistsGeniusOnFlaskUsePrecent,
    GainArcaneSurgeOnCritPrecent,
    GainOnslaughtFor3SecondsPrecent,
    GlobalArmourEvasionEnergyShieldPrecent,
    GlobalItemAttributeReducedRequirementsPrecent,
    GloryGenerationPrecent,
    GrenadeSkillPrecentChanceToExplodeTwice,
    GrenadeSkillDamagePrecent,
    GrenadeSkillDurationPrecent,
    HandWrapsAttackDamagePrecentFinalOnLowMana,
    HandWrapsDamageTakenPrecentFinalOnLowLife,
    HandWrapsMoreGlobalEvasionEnergyShield,
    GrantsGraveCommandSkill,
    HaveUnholyMight,
    HeavyStunPoiseDecayRatePrecent,
    HinderEnemyChaosDamageTakenPrecent,
    HinderEnemyElementalDamageTakenPrecent,
    HinderEnemyPhysicalDamageTakenPrecent,
    HitDamageFreezeMultiplierPrecentIfConsumedPowerChargeRecently,
    HitDamageImmobilisationMultiplierPrecent,
    IgniteEffectPrecentIfConsumedEnduranceChargeRecently,
    InvocationSkillMaximumEnergyPrecent,
    InvocationSpellChanceToCostHalfEnergyPrecent,
    InvocationSpellDamagePrecent,
    LeechPrecentIsInstant,
    LifeGainedOnAttackHitIfCritRecently,
    LifeGainedOnAttackHitVsCursedEnemies,
    LifeLeechCanOvercapLife,
    LifeRegenerationPerMinutePrecentWhileFrozen,
    LifeRegenerationRatePrecentWhileMoving,
    LifeRegenerationRatePrecentWhileUsingLifeFlask,
    LightningDamagePrecentIfLightningInfusionCollectedLast8Seconds,
    LightningDamageCanIgnite,
    LightningDamageTakenGoesToLifeOver4SecondsPrecent,
    ManaPrecentGainedOnBlock,
    ManaPrecentToGainAsArmour,
    ManaCostEfficiencyPrecentIfDodgeRolledRecently,
    ManaGainedOnAttackHitVsCursedEnemies,
    ManaRegenerationRatePrecentWhileShocked,
    ManaRegenerationRatePrecentWhileStationary,
    ManaReservationEfficiencyPrecentPer1,
    MarkSkillGemLevels,
    MarkedEnemyTakesIncreasedDamage,
    MaxFortificationPer5,
    MaxPuppetMasterStacksPer5,
    MaximumAddedColdDamagePerFrenzyCharge,
    MaximumAddedFireDamageIfBlockedRecently,
    MaximumEnergyShieldFromBodyArmourPrecent,
    MaximumWardPrecent,
    MeleeAttackSkillsAdditionalTotemsAllowed,
    MeleeAttacksNumberOfAdditionalProjectiles,
    MinimumAddedColdDamagePerFrenzyCharge,
    MinimumAddedFireDamageIfBlockedRecently,
    MinionAreaOfEffectPrecent,
    MinionArmourBreakPhysicalDamagePrecent,
    MinionBaseDamagingAilmentEffectPrecent,
    MinionChanceToFire1AdditionalProjectilePrecent,
}

/// The bucket a stat identifier maps to directly.
pub open spec fn stat_bucket_of_id(id: Seq<char>) -> Option<StatBucket> {
    if id == "chaos_damage_+%"@ {
        Some(StatBucket::ChaosDamagePercent)
    } else if id == "additional_strength"@ {
        Some(StatBucket::Strength)
    } else {
        None
    }
}

/// Maps a stat identifier to its bucket, where one is known.
pub fn stat_id_to_bucket(stat_id: &str) -> (b: Option<StatBucket>)
    ensures
        b == stat_bucket_of_id(stat_id@),
{
    let s = chars_of(stat_id);
    if chars_eq(&s, "chaos_damage_+%") {
        Some(StatBucket::ChaosDamagePercent)
    } else if chars_eq(&s, "additional_strength") {
        Some(StatBucket::Strength)
    } else {
        None
    }
}

/// Some tag of `tags` is `t`.
pub open spec fn has_tag(tags: Seq<String>, t: Seq<char>) -> bool {
    exists|j: int| 0 <= j < tags.len() && tags[j]@ == t
}

/// Whether some tag of `tags` is exactly `lit`.
fn any_tag_is(tags: &[String], lit: &str) -> (b: bool)
    ensures
        b == has_tag(tags@, lit@),
{
    let mut j: usize = 0;
    while j < tags.len()
        invariant
            j <= tags@.len(),
            forall|k: int| 0 <= k < j ==> tags@[k]@ != lit@,
        decreases tags@.len() - j,
    {
        let t = chars_of(tags[j].as_str());
        if chars_eq(&t, lit) {
            return true;
        }
        j += 1;
    }
    false
}

/// The bucket of the first rule, in rule order, whose tag is among `tags`.
pub open spec fn bucket_of_tags(tags: Seq<String>) -> Option<StatBucket> {
    if has_tag(tags, "fire_resistance"@) {
        Some(StatBucket::FireResistance)
    } else if has_tag(tags, "cold_resistance"@) {
        Some(StatBucket::ColdResistance)
    } else if has_tag(tags, "lightning_resistance"@) {
        Some(StatBucket::LightningResistance)
    } else if has_tag(tags, "chaos_resistance"@) {
        Some(StatBucket::ChaosResistance)
    } else if has_tag(tags, "energy_shield"@) {
        Some(StatBucket::EnergyShield)
    } else if has_tag(tags, "life"@) {
        Some(StatBucket::Life)
    } else if has_tag(tags, "mana"@) {
        Some(StatBucket::Mana)
    } else if has_tag(tags, "armour"@) {
        Some(StatBucket::Armour)
    } else if has_tag(tags, "evasion"@) {
        Some(StatBucket::Evasion)
    } else if has_tag(tags, "block"@) {
        Some(StatBucket::Block)
    } else {
        None
    }
}

/// Classifies a set of tags into a bucket: the first rule, in rule order,
/// whose tag is among the tags decides.
pub fn classify_bucket(tags: &[String]) -> (b: Option<StatBucket>)
    ensures
        b == bucket_of_tags(tags@),
{
    if any_tag_is(tags, "fire_resistance") {
        Some(StatBucket::FireResistance)
    } else if any_tag_is(tags, "cold_resistance") {
        Some(StatBucket::ColdResistance)
    } else if any_tag_is(tags, "lightning_resistance") {
        Some(StatBucket::LightningResistance)
    } else if any_tag_is(tags, "chaos_resistance") {
        Some(StatBucket::ChaosResistance)
    } else if any_tag_is(tags, "energy_shield") {
        Some(StatBucket::EnergyShield)
    } else if any_tag_is(tags, "life") {
        Some(StatBucket::Life)
    } else if any_tag_is(tags, "mana") {
        Some(StatBucket::Mana)
    } else if any_tag_is(tags, "armour") {
        Some(StatBucket::Armour)
    } else if any_tag_is(tags, "evasion") {
        Some(StatBucket::Evasion)
    } else if any_tag_is(tags, "block") {
        Some(StatBucket::Block)
    } else {
        None
    }
}

/// The state of one item.
#[derive(Debug)]
pub struct Poe2ItemState {
    pub item_level: u16,
    pub quality: u16,
    pub rarity: ItemRarity,
    pub is_corrupted: bool,
    pub base_name: String,
    pub drop_level: u16,
    pub properties: Properties,
    pub requirements: Option<Requirements>,
    pub tags: ahash::HashSet<u64>,
    pub equip_slot: EquipSlot,
}

impl Clone for Poe2ItemState {
    /// A copy with the same values.
    fn clone(&self) -> (r: Self)
        ensures
            r.item_level == self.item_level,
            r.quality == self.quality,
            r.rarity == self.rarity,
            r.is_corrupted == self.is_corrupted,
            r.base_name == self.base_name,
            r.drop_level == self.drop_level,
            r.properties == self.properties,
            r.requirements == self.requirements,
            tag_set_contents(r.tags) == tag_set_contents(self.tags),
            r.equip_slot == self.equip_slot,
    {
        Poe2ItemState {
            item_level: self.item_level,
            quality: self.quality,
            rarity: self.rarity,
            is_corrupted: self.is_corrupted,
            base_name: self.base_name.clone(),
            drop_level: self.drop_level,
            properties: self.properties.clone(),
            requirements: self.requirements,
            tags: tag_set_clone(&self.tags),
            equip_slot: self.equip_slot,
        }
    }
}

/// Identifies a modifier definition by the hash of its key.
#[derive(Debug, Clone, Copy, PartialEq, Eq, Hash, Structural)]
pub struct Poe2ModifierId(pub u64);

/// The type of a modifier: the types that the rules single out by name, and
/// any other type by the hash of its name.
#[derive(Debug, Clone, Copy, PartialEq, Eq, Hash, Structural)]
pub enum Poe2ModifierKind {
    AbyssTargetMod,
    BaseLifeAndMana,
    Strength,
    Dexterity,
    Intelligence,
    Other(u64),
}

/// The type named `name`: a type singled out by name, or else the other
/// type with hash `hash`.
pub open spec fn kind_of_name(name: Seq<char>, hash: u64) -> Poe2ModifierKind {
    if name == "AbyssTargetMod"@ {
        Poe2ModifierKind::AbyssTargetMod
    } else if name == "BaseLifeAndMana"@ {
        Poe2ModifierKind::BaseLifeAndMana
    } else if name == "Strength"@ {
        Poe2ModifierKind::Strength
    } else if name == "Dexterity"@ {
        Poe2ModifierKind::Dexterity
    } else if name == "Intelligence"@ {
        Poe2ModifierKind::Intelligence
    } else {
        Poe2ModifierKind::Other(hash)
    }
}

/// The name is one of the types singled out by name.
pub open spec fn is_named_kind(name: Seq<char>) -> bool {
    name == "AbyssTargetMod"@ || name == "BaseLifeAndMana"@ || name == "Strength"@ || name == "Dexterity"@
        || name == "Intelligence"@
}

/// The type named `name`, given the hash `hash` of that name.
pub fn modifier_kind(name: &str, hash: u64) -> (k: Poe2ModifierKind)
    ensures
        k == kind_of_name(name@, hash),
{
    let s = chars_of(name);
    if chars_eq(&s, "AbyssTargetMod") {
        Poe2ModifierKind::AbyssTargetMod
    } else if chars_eq(&s, "BaseLifeAndMana") {
        Poe2ModifierKind::BaseLifeAndMana
    } else if chars_eq(&s, "Strength") {
        Poe2ModifierKind::Strength
    } else if chars_eq(&s, "Dexterity") {
        Poe2ModifierKind::Dexterity
    } else if chars_eq(&s, "Intelligence") {
        Poe2ModifierKind::Intelligence
    } else {
        Poe2ModifierKind::Other(hash)
    }
}

/// The type named `name`; a type not singled out by name is hashed with
/// `hash_string`, and is the other type with whatever hash that gave.
pub fn modifier_kind_of(name: &str) -> (k: Poe2ModifierKind)
    ensures
        is_named_kind(name@) ==> k == kind_of_name(name@, 0),
        !is_named_kind(name@) ==> k is Other,
{
    let s = chars_of(name);
    if chars_eq(&s, "AbyssTargetMod") || chars_eq(&s, "BaseLifeAndMana") || chars_eq(&s, "Strength") || chars_eq(
        &s,
        "Dexterity",
    ) || chars_eq(&s, "Intelligence") {
        modifier_kind(name, 0)
    } else {
        Poe2ModifierKind::Other(hash_string(name))
    }
}

/// Where a modifier on an item came from.
#[derive(Debug, Clone, Copy, PartialEq, Eq, Structural)]
pub enum ModOrigin {
    Crafted,
    Fractured,
    Rune,
    Dropped,
    Corrupted,
}

/// One stat of a modifier definition.
#[derive(Debug, Clone, Copy, PartialEq, Eq, Structural)]
pub struct Poe2ModifierStat {
    pub id_hash: u64,
    pub min: i64,
    pub max: i64,
    pub is_local: bool,
    pub kind: Poe2StatModifierKind,
    pub phase: Poe2EffectPhase,
    pub conflict_key: Option<Poe2ConflictKey>,
    pub selection_key: Option<Poe2SelectionKey>,
}

/// A modifier definition.
#[derive(Debug, Clone)]
pub struct Poe2ModifierDefinition {
    pub id: Poe2ModifierId,
    pub kind: Poe2ModifierKind,
    pub required_level: u16,
    pub stats: Vec<Poe2ModifierStat>,
    pub groups: Vec<u64>,
    pub spawn_weights: Vec<HashedTagWeight>,
    pub generation_type: GenerationType,
}

/// A modifier definition with its sequences taken by value.
pub struct DefinitionView {
    pub id: Poe2ModifierId,
    pub kind: Poe2ModifierKind,
    pub required_level: u16,
    pub stats: Seq<Poe2ModifierStat>,
    pub groups: Seq<u64>,
    pub spawn_weights: Seq<HashedTagWeight>,
    pub generation_type: GenerationType,
}

impl View for Poe2ModifierDefinition {
    type V = DefinitionView;

    open spec fn view(&self) -> DefinitionView {
        DefinitionView {
            id: self.id,
            kind: self.kind,
            required_level: self.required_level,
            stats: self.stats@,
            groups: self.groups@,
            spawn_weights: self.spawn_weights@,
            generation_type: self.generation_type,
        }
    }
}

impl Poe2ModifierDefinition {
    /// The identifier of this definition.
    pub fn modifier_definition_id(&self) -> (id: Poe2ModifierId)
        ensures
            id == self.id,
    {
        self.id
    }
}

/// The rolled values of a modifier on an item, and where it came from.
#[derive(Debug, Clone)]
pub struct Poe2ModifierInstance {
    pub rolls: Vec<i64>,
    pub origin: ModOrigin,
}

/// A runtime effect produced by a modifier.
#[derive(Debug, Clone, Copy, PartialEq, Eq, Hash, Structural)]
pub enum Poe2Effect {
    GlobalStat { id: u64, value: i64, mod_type: Poe2ModifierKind },
    LocalStat { slot: EquipSlot, id: u64, value: i64, mod_type: Poe2ModifierKind },
    ScaledStat { target_id: u64, multiplier: i64, scaling: Poe2Scaling, mod_type: Poe2ModifierKind },
}

} // verus!
