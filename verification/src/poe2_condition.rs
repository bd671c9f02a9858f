//! Gate conditions that a stat identifier may carry as a suffix.

use vstd::prelude::*;

use crate::text::chars_eq;
use crate::text::chars_of;

verus! {

/// A boolean gate under which a conditional stat applies.
#[derive(Debug, Clone, Copy, PartialEq, Eq, Hash, Structural)]
pub enum Poe2Condition {
    /// `_during_flask_effect`
    FlaskEffect,
    /// `_during_mana_flask_effect`
    ManaFlaskEffect,
    /// `_if_blocked_recently`
    BlockedRecently,
    /// `_if_consumed_endurance_charge_recently`
    ConsumedEnduranceChargeRecently,
    /// `_if_crit_recently`
    CritRecently,
    /// `_if_culled_recently`
    CulledRecently,
    /// `_if_cursed_enemy_killed_recently`
    CursedEnemyKilledRecently,
    /// `_if_enemy_hit_recently`
    EnemyHitRecently,
    /// `_if_fire_infusion_collected_last_8_seconds`
    FireInfusionCollectedLast8Seconds,
    /// `_if_have_been_hit_recently`
    HaveBeenHitRecently,
    /// `_if_have_crit_in_past_8_seconds`
    HaveCritInPast8Seconds,
    /// `_if_have_crit_recently`
    HaveCritRecently,
    /// `_if_have_not_crit_recently`
    HaveNotCritRecently,
    /// `_if_lightning_infusion_collected_last_8_seconds`
    LightningInfusionCollectedLast8Seconds,
    /// `_if_lost_archon_in_past_6_seconds`
    LostArchonInPast6Seconds,
    /// `_if_not_been_hit_recently`
    NotBeenHitRecently,
    /// `_if_not_crit_recently`
    NotCritRecently,
    /// `_if_other_ring_is_elder_item`
    OtherRingIsElderItem,
    /// `_if_other_ring_is_shaper_item`
    OtherRingIsShaperItem,
    /// `_if_reloaded_recently`
    ReloadedRecently,
    /// `_if_sprinting` or `_while_sprinting`
    Sprinting,
    /// `_if_you_dodge_rolled_recently`
    YouDodgeRolledRecently,
    /// `_if_you_have_beast_minion`
    YouHaveBeastMinion,
    /// `_if_you_have_frozen_enemy_recently`
    YouHaveFrozenEnemyRecently,
    /// `_if_you_have_shocked_recently`
    YouHaveShockedRecently,
    /// `_if_you_have_used_a_cold_skill_recently`
    YouHaveUsedAColdSkillRecently,
    /// `_if_you_have_used_a_fire_skill_recently`
    YouHaveUsedAFireSkillRecently,
    /// `_if_youve_dealt_melee_hit_recently`
    YouveDealtMeleeHitRecently,
    /// `_if_youve_dealt_projectile_attack_hit_recently`
    YouveDealtProjectileAttackHitRecently,
    /// `_when_in_main_hand`
    InMainHand,
    /// `_when_in_off_hand`
    InOffHand,
    /// `_when_not_on_low_mana` or `_while_not_on_low_mana`
    NotOnLowMana,
    /// `_when_on_full_life`
    OnFullLife,
    /// `_when_on_low_life` or `_while_on_low_life`
    OnLowLife,
    /// `_while_affected_by_herald_of_agony`
    AffectedByHeraldOfAgony,
    /// `_while_affected_by_herald_of_ash`
    AffectedByHeraldOfAsh,
    /// `_while_affected_by_herald_of_ice`
    AffectedByHeraldOfIce,
    /// `_while_affected_by_herald_of_purity`
    AffectedByHeraldOfPurity,
    /// `_while_affected_by_herald_of_thunder`
    AffectedByHeraldOfThunder,
    /// `_while_affected_by_malevolence`
    AffectedByMalevolence,
    /// `_while_at_maximum_frenzy_charges`
    AtMaximumFrenzyCharges,
    /// `_while_at_maximum_power_charges`
    AtMaximumPowerCharges,
    /// `_while_chilled_or_frozen`
    ChilledOrFrozen,
    /// `_while_frozen`
    Frozen,
    /// `_while_have_onslaught`
    HaveOnslaught,
    /// `_while_ignited`
    Ignited,
    /// `_while_leeching`
    Leeching,
    /// `_while_missing_ward`
    MissingWard,
    /// `_while_moving`
    Moving,
    /// `_while_not_cursed`
    NotCursed,
    /// `_while_off_hand_is_empty`
    OffHandIsEmpty,
    /// `_while_on_full_mana`
    OnFullMana,
    /// `_while_onslaught_is_active`
    OnslaughtIsActive,
    /// `_while_phasing`
    Phasing,
    /// `_while_poisoned`
    Poisoned,
    /// `_while_shocked`
    Shocked,
    /// `_while_spider`
    Spider,
    /// `_while_stationary`
    Stationary,
    /// `_while_surrounded`
    Surrounded,
    /// `_while_unarmed`
    Unarmed,
    /// `_while_using_flask`
    UsingFlask,
}

/// The condition named by a suffix (marker included, e.g. `_when_on_full_life`),
/// or `None` for a suffix that names no known condition.
pub open spec fn condition_of_suffix(s: Seq<char>) -> Option<Poe2Condition> {
    if s == "_during_flask_effect"@ {
        Some(Poe2Condition::FlaskEffect)
    } else if s == "_during_mana_flask_effect"@ {
        Some(Poe2Condition::ManaFlaskEffect)
    } else if s == "_if_blocked_recently"@ {
        Some(Poe2Condition::BlockedRecently)
    } else if s == "_if_consumed_endurance_charge_recently"@ {
        Some(Poe2Condition::ConsumedEnduranceChargeRecently)
    } else if s == "_if_crit_recently"@ {
        Some(Poe2Condition::CritRecently)
    } else if s == "_if_culled_recently"@ {
        Some(Poe2Condition::CulledRecently)
    } else if s == "_if_cursed_enemy_killed_recently"@ {
        Some(Poe2Condition::CursedEnemyKilledRecently)
    } else if s == "_if_enemy_hit_recently"@ {
        Some(Poe2Condition::EnemyHitRecently)
    } else if s == "_if_fire_infusion_collected_last_8_seconds"@ {
        Some(Poe2Condition::FireInfusionCollectedLast8Seconds)
    } else if s == "_if_have_been_hit_recently"@ {
        Some(Poe2Condition::HaveBeenHitRecently)
    } else if s == "_if_have_crit_in_past_8_seconds"@ {
        Some(Poe2Condition::HaveCritInPast8Seconds)
    } else if s == "_if_have_crit_recently"@ {
        Some(Poe2Condition::HaveCritRecently)
    } else if s == "_if_have_not_crit_recently"@ {
        Some(Poe2Condition::HaveNotCritRecently)
    } else if s == "_if_lightning_infusion_collected_last_8_seconds"@ {
        Some(Poe2Condition::LightningInfusionCollectedLast8Seconds)
    } else if s == "_if_lost_archon_in_past_6_seconds"@ {
        Some(Poe2Condition::LostArchonInPast6Seconds)
    } else if s == "_if_not_been_hit_recently"@ {
        Some(Poe2Condition::NotBeenHitRecently)
    } else if s == "_if_not_crit_recently"@ {
        Some(Poe2Condition::NotCritRecently)
    } else if s == "_if_other_ring_is_elder_item"@ {
        Some(Poe2Condition::OtherRingIsElderItem)
    } else if s == "_if_other_ring_is_shaper_item"@ {
        Some(Poe2Condition::OtherRingIsShaperItem)
    } else if s == "_if_reloaded_recently"@ {
        Some(Poe2Condition::ReloadedRecently)
    } else if s == "_if_sprinting"@ {
        Some(Poe2Condition::Sprinting)
    } else if s == "_if_you_dodge_rolled_recently"@ {
        Some(Poe2Condition::YouDodgeRolledRecently)
    } else if s == "_if_you_have_beast_minion"@ {
        Some(Poe2Condition::YouHaveBeastMinion)
    } else if s == "_if_you_have_frozen_enemy_recently"@ {
        Some(Poe2Condition::YouHaveFrozenEnemyRecently)
    } else if s == "_if_you_have_shocked_recently"@ {
        Some(Poe2Condition::YouHaveShockedRecently)
    } else if s == "_if_you_have_used_a_cold_skill_recently"@ {
        Some(Poe2Condition::YouHaveUsedAColdSkillRecently)
    } else if s == "_if_you_have_used_a_fire_skill_recently"@ {
        Some(Poe2Condition::YouHaveUsedAFireSkillRecently)
    } else if s == "_if_youve_dealt_melee_hit_recently"@ {
        Some(Poe2Condition::YouveDealtMeleeHitRecently)
    } else if s == "_if_youve_dealt_projectile_attack_hit_recently"@ {
        Some(Poe2Condition::YouveDealtProjectileAttackHitRecently)
    } else if s == "_when_in_main_hand"@ {
        Some(Poe2Condition::InMainHand)
    } else if s == "_when_in_off_hand"@ {
        Some(Poe2Condition::InOffHand)
    } else if s == "_when_not_on_low_mana"@ {
        Some(Poe2Condition::NotOnLowMana)
    } else if s == "_when_on_full_life"@ {
        Some(Poe2Condition::OnFullLife)
    } else if s == "_when_on_low_life"@ {
        Some(Poe2Condition::OnLowLife)
    } else if s == "_while_affected_by_herald_of_agony"@ {
        Some(Poe2Condition::AffectedByHeraldOfAgony)
    } else if s == "_while_affected_by_herald_of_ash"@ {
        Some(Poe2Condition::AffectedByHeraldOfAsh)
    } else if s == "_while_affected_by_herald_of_ice"@ {
        Some(Poe2Condition::AffectedByHeraldOfIce)
    } else if s == "_while_affected_by_herald_of_purity"@ {
        Some(Poe2Condition::AffectedByHeraldOfPurity)
    } else if s == "_while_affected_by_herald_of_thunder"@ {
        Some(Poe2Condition::AffectedByHeraldOfThunder)
    } else if s == "_while_affected_by_malevolence"@ {
        Some(Poe2Condition::AffectedByMalevolence)
    } else if s == "_while_at_maximum_frenzy_charges"@ {
        Some(Poe2Condition::AtMaximumFrenzyCharges)
    } else if s == "_while_at_maximum_power_charges"@ {
        Some(Poe2Condition::AtMaximumPowerCharges)
    } else if s == "_while_chilled_or_frozen"@ {
        Some(Poe2Condition::ChilledOrFrozen)
    } else if s == "_while_frozen"@ {
        Some(Poe2Condition::Frozen)
    } else if s == "_while_have_onslaught"@ {
        Some(Poe2Condition::HaveOnslaught)
    } else if s == "_while_ignited"@ {
        Some(Poe2Condition::Ignited)
    } else if s == "_while_leeching"@ {
        Some(Poe2Condition::Leeching)
    } else if s == "_while_missing_ward"@ {
        Some(Poe2Condition::MissingWard)
    } else if s == "_while_moving"@ {
        Some(Poe2Condition::Moving)
    } else if s == "_while_not_cursed"@ {
        Some(Poe2Condition::NotCursed)
    } else if s == "_while_not_on_low_mana"@ {
        Some(Poe2Condition::NotOnLowMana)
    } else if s == "_while_off_hand_is_empty"@ {
        Some(Poe2Condition::OffHandIsEmpty)
    } else if s == "_while_on_full_mana"@ {
        Some(Poe2Condition::OnFullMana)
    } else if s == "_while_on_low_life"@ {
        Some(Poe2Condition::OnLowLife)
    } else if s == "_while_onslaught_is_active"@ {
        Some(Poe2Condition::OnslaughtIsActive)
    } else if s == "_while_phasing"@ {
        Some(Poe2Condition::Phasing)
    } else if s == "_while_poisoned"@ {
        Some(Poe2Condition::Poisoned)
    } else if s == "_while_shocked"@ {
        Some(Poe2Condition::Shocked)
    } else if s == "_while_spider"@ {
        Some(Poe2Condition::Spider)
    } else if s == "_while_sprinting"@ {
        Some(Poe2Condition::Sprinting)
    } else if s == "_while_stationary"@ {
        Some(Poe2Condition::Stationary)
    } else if s == "_while_surrounded"@ {
        Some(Poe2Condition::Surrounded)
    } else if s == "_while_unarmed"@ {
        Some(Poe2Condition::Unarmed)
    } else if s == "_while_using_flask"@ {
        Some(Poe2Condition::UsingFlask)
    } else {
        None
    }
}

/// The suffixes, marker included, that name each condition.
pub open spec fn condition_suffixes(c: Poe2Condition) -> Seq<Seq<char>> {
    match c {
        Poe2Condition::FlaskEffect => seq!["_during_flask_effect"@],
        Poe2Condition::ManaFlaskEffect => seq!["_during_mana_flask_effect"@],
        Poe2Condition::BlockedRecently => seq!["_if_blocked_recently"@],
        Poe2Condition::ConsumedEnduranceChargeRecently => seq!["_if_consumed_endurance_charge_recently"@],
        Poe2Condition::CritRecently => seq!["_if_crit_recently"@],
        Poe2Condition::CulledRecently => seq!["_if_culled_recently"@],
        Poe2Condition::CursedEnemyKilledRecently => seq!["_if_cursed_enemy_killed_recently"@],
        Poe2Condition::EnemyHitRecently => seq!["_if_enemy_hit_recently"@],
        Poe2Condition::FireInfusionCollectedLast8Seconds => seq!["_if_fire_infusion_collected_last_8_seconds"@],
        Poe2Condition::HaveBeenHitRecently => seq!["_if_have_been_hit_recently"@],
        Poe2Condition::HaveCritInPast8Seconds => seq!["_if_have_crit_in_past_8_seconds"@],
        Poe2Condition::HaveCritRecently => seq!["_if_have_crit_recently"@],
        Poe2Condition::HaveNotCritRecently => seq!["_if_have_not_crit_recently"@],
        Poe2Condition::LightningInfusionCollectedLast8Seconds => seq!["_if_lightning_infusion_collected_last_8_seconds"@],
        Poe2Condition::LostArchonInPast6Seconds => seq!["_if_lost_archon_in_past_6_seconds"@],
        Poe2Condition::NotBeenHitRecently => seq!["_if_not_been_hit_recently"@],
        Poe2Condition::NotCritRecently => seq!["_if_not_crit_recently"@],
        Poe2Condition::OtherRingIsElderItem => seq!["_if_other_ring_is_elder_item"@],
        Poe2Condition::OtherRingIsShaperItem => seq!["_if_other_ring_is_shaper_item"@],
        Poe2Condition::ReloadedRecently => seq!["_if_reloaded_recently"@],
        Poe2Condition::Sprinting => seq!["_if_sprinting"@, "_while_sprinting"@],
        Poe2Condition::YouDodgeRolledRecently => seq!["_if_you_dodge_rolled_recently"@],
        Poe2Condition::YouHaveBeastMinion => seq!["_if_you_have_beast_minion"@],
        Poe2Condition::YouHaveFrozenEnemyRecently => seq!["_if_you_have_frozen_enemy_recently"@],
        Poe2Condition::YouHaveShockedRecently => seq!["_if_you_have_shocked_recently"@],
        Poe2Condition::YouHaveUsedAColdSkillRecently => seq!["_if_you_have_used_a_cold_skill_recently"@],
        Poe2Condition::YouHaveUsedAFireSkillRecently => seq!["_if_you_have_used_a_fire_skill_recently"@],
        Poe2Condition::YouveDealtMeleeHitRecently => seq!["_if_youve_dealt_melee_hit_recently"@],
        Poe2Condition::YouveDealtProjectileAttackHitRecently => seq!["_if_youve_dealt_projectile_attack_hit_recently"@],
        Poe2Condition::InMainHand => seq!["_when_in_main_hand"@],
        Poe2Condition::InOffHand => seq!["_when_in_off_hand"@],
        Poe2Condition::NotOnLowMana => seq!["_when_not_on_low_mana"@, "_while_not_on_low_mana"@],
        Poe2Condition::OnFullLife => seq!["_when_on_full_life"@],
        Poe2Condition::OnLowLife => seq!["_when_on_low_life"@, "_while_on_low_life"@],
        Poe2Condition::AffectedByHeraldOfAgony => seq!["_while_affected_by_herald_of_agony"@],
        Poe2Condition::AffectedByHeraldOfAsh => seq!["_while_affected_by_herald_of_ash"@],
        Poe2Condition::AffectedByHeraldOfIce => seq!["_while_affected_by_herald_of_ice"@],
        Poe2Condition::AffectedByHeraldOfPurity => seq!["_while_affected_by_herald_of_purity"@],
        Poe2Condition::AffectedByHeraldOfThunder => seq!["_while_affected_by_herald_of_thunder"@],
        Poe2Condition::AffectedByMalevolence => seq!["_while_affected_by_malevolence"@],
        Poe2Condition::AtMaximumFrenzyCharges => seq!["_while_at_maximum_frenzy_charges"@],
        Poe2Condition::AtMaximumPowerCharges => seq!["_while_at_maximum_power_charges"@],
        Poe2Condition::ChilledOrFrozen => seq!["_while_chilled_or_frozen"@],
        Poe2Condition::Frozen => seq!["_while_frozen"@],
        Poe2Condition::HaveOnslaught => seq!["_while_have_onslaught"@],
        Poe2Condition::Ignited => seq!["_while_ignited"@],
        Poe2Condition::Leeching => seq!["_while_leeching"@],
        Poe2Condition::MissingWard => seq!["_while_missing_ward"@],
        Poe2Condition::Moving => seq!["_while_moving"@],
        Poe2Condition::NotCursed => seq!["_while_not_cursed"@],
        Poe2Condition::OffHandIsEmpty => seq!["_while_off_hand_is_empty"@],
        Poe2Condition::OnFullMana => seq!["_while_on_full_mana"@],
        Poe2Condition::OnslaughtIsActive => seq!["_while_onslaught_is_active"@],
        Poe2Condition::Phasing => seq!["_while_phasing"@],
        Poe2Condition::Poisoned => seq!["_while_poisoned"@],
        Poe2Condition::Shocked => seq!["_while_shocked"@],
        Poe2Condition::Spider => seq!["_while_spider"@],
        Poe2Condition::Stationary => seq!["_while_stationary"@],
        Poe2Condition::Surrounded => seq!["_while_surrounded"@],
        Poe2Condition::Unarmed => seq!["_while_unarmed"@],
        Poe2Condition::UsingFlask => seq!["_while_using_flask"@],
    }
}

/// A suffix names a condition only if it is one of that condition's own
/// suffixes: no suffix is read as another condition than the one it names.
pub proof fn law_suffix_names_its_own_condition(s: Seq<char>)
    ensures
        condition_of_suffix(s) matches Some(c) ==> condition_suffixes(c).contains(s),
{
    if s == "_during_flask_effect"@ {
        assert(condition_suffixes(Poe2Condition::FlaskEffect)[0] == s);
    } else if s == "_during_mana_flask_effect"@ {
        assert(condition_suffixes(Poe2Condition::ManaFlaskEffect)[0] == s);
    } else if s == "_if_blocked_recently"@ {
        assert(condition_suffixes(Poe2Condition::BlockedRecently)[0] == s);
    } else if s == "_if_consumed_endurance_charge_recently"@ {
        assert(condition_suffixes(Poe2Condition::ConsumedEnduranceChargeRecently)[0] == s);
    } else if s == "_if_crit_recently"@ {
        assert(condition_suffixes(Poe2Condition::CritRecently)[0] == s);
    } else if s == "_if_culled_recently"@ {
        assert(condition_suffixes(Poe2Condition::CulledRecently)[0] == s);
    } else if s == "_if_cursed_enemy_killed_recently"@ {
        assert(condition_suffixes(Poe2Condition::CursedEnemyKilledRecently)[0] == s);
    } else if s == "_if_enemy_hit_recently"@ {
        assert(condition_suffixes(Poe2Condition::EnemyHitRecently)[0] == s);
    } else if s == "_if_fire_infusion_collected_last_8_seconds"@ {
        assert(condition_suffixes(Poe2Condition::FireInfusionCollectedLast8Seconds)[0] == s);
    } else if s == "_if_have_been_hit_recently"@ {
        assert(condition_suffixes(Poe2Condition::HaveBeenHitRecently)[0] == s);
    } else if s == "_if_have_crit_in_past_8_seconds"@ {
        assert(condition_suffixes(Poe2Condition::HaveCritInPast8Seconds)[0] == s);
    } else if s == "_if_have_crit_recently"@ {
        assert(condition_suffixes(Poe2Condition::HaveCritRecently)[0] == s);
    } else if s == "_if_have_not_crit_recently"@ {
        assert(condition_suffixes(Poe2Condition::HaveNotCritRecently)[0] == s);
    } else if s == "_if_lightning_infusion_collected_last_8_seconds"@ {
        assert(condition_suffixes(Poe2Condition::LightningInfusionCollectedLast8Seconds)[0] == s);
    } else if s == "_if_lost_archon_in_past_6_seconds"@ {
        assert(condition_suffixes(Poe2Condition::LostArchonInPast6Seconds)[0] == s);
    } else if s == "_if_not_been_hit_recently"@ {
        assert(condition_suffixes(Poe2Condition::NotBeenHitRecently)[0] == s);
    } else if s == "_if_not_crit_recently"@ {
        assert(condition_suffixes(Poe2Condition::NotCritRecently)[0] == s);
    } else if s == "_if_other_ring_is_elder_item"@ {
        assert(condition_suffixes(Poe2Condition::OtherRingIsElderItem)[0] == s);
    } else if s == "_if_other_ring_is_shaper_item"@ {
        assert(condition_suffixes(Poe2Condition::OtherRingIsShaperItem)[0] == s);
    } else if s == "_if_reloaded_recently"@ {
        assert(condition_suffixes(Poe2Condition::ReloadedRecently)[0] == s);
    } else if s == "_if_sprinting"@ {
        assert(condition_suffixes(Poe2Condition::Sprinting)[0] == s);
    } else if s == "_if_you_dodge_rolled_recently"@ {
        assert(condition_suffixes(Poe2Condition::YouDodgeRolledRecently)[0] == s);
    } else if s == "_if_you_have_beast_minion"@ {
        assert(condition_suffixes(Poe2Condition::YouHaveBeastMinion)[0] == s);
    } else if s == "_if_you_have_frozen_enemy_recently"@ {
        assert(condition_suffixes(Poe2Condition::YouHaveFrozenEnemyRecently)[0] == s);
    } else if s == "_if_you_have_shocked_recently"@ {
        assert(condition_suffixes(Poe2Condition::YouHaveShockedRecently)[0] == s);
    } else if s == "_if_you_have_used_a_cold_skill_recently"@ {
        assert(condition_suffixes(Poe2Condition::YouHaveUsedAColdSkillRecently)[0] == s);
    } else if s == "_if_you_have_used_a_fire_skill_recently"@ {
        assert(condition_suffixes(Poe2Condition::YouHaveUsedAFireSkillRecently)[0] == s);
    } else if s == "_if_youve_dealt_melee_hit_recently"@ {
        assert(condition_suffixes(Poe2Condition::YouveDealtMeleeHitRecently)[0] == s);
    } else if s == "_if_youve_dealt_projectile_attack_hit_recently"@ {
        assert(condition_suffixes(Poe2Condition::YouveDealtProjectileAttackHitRecently)[0] == s);
    } else if s == "_when_in_main_hand"@ {
        assert(condition_suffixes(Poe2Condition::InMainHand)[0] == s);
    } else if s == "_when_in_off_hand"@ {
        assert(condition_suffixes(Poe2Condition::InOffHand)[0] == s);
    } else if s == "_when_not_on_low_mana"@ {
        assert(condition_suffixes(Poe2Condition::NotOnLowMana)[0] == s);
    } else if s == "_when_on_full_life"@ {
        assert(condition_suffixes(Poe2Condition::OnFullLife)[0] == s);
    } else if s == "_when_on_low_life"@ {
        assert(condition_suffixes(Poe2Condition::OnLowLife)[0] == s);
    } else if s == "_while_affected_by_herald_of_agony"@ {
        assert(condition_suffixes(Poe2Condition::AffectedByHeraldOfAgony)[0] == s);
    } else if s == "_while_affected_by_herald_of_ash"@ {
        assert(condition_suffixes(Poe2Condition::AffectedByHeraldOfAsh)[0] == s);
    } else if s == "_while_affected_by_herald_of_ice"@ {
        assert(condition_suffixes(Poe2Condition::AffectedByHeraldOfIce)[0] == s);
    } else if s == "_while_affected_by_herald_of_purity"@ {
        assert(condition_suffixes(Poe2Condition::AffectedByHeraldOfPurity)[0] == s);
    } else if s == "_while_affected_by_herald_of_thunder"@ {
        assert(condition_suffixes(Poe2Condition::AffectedByHeraldOfThunder)[0] == s);
    } else if s == "_while_affected_by_malevolence"@ {
        assert(condition_suffixes(Poe2Condition::AffectedByMalevolence)[0] == s);
    } else if s == "_while_at_maximum_frenzy_charges"@ {
        assert(condition_suffixes(Poe2Condition::AtMaximumFrenzyCharges)[0] == s);
    } else if s == "_while_at_maximum_power_charges"@ {
        assert(condition_suffixes(Poe2Condition::AtMaximumPowerCharges)[0] == s);
    } else if s == "_while_chilled_or_frozen"@ {
        assert(condition_suffixes(Poe2Condition::ChilledOrFrozen)[0] == s);
    } else if s == "_while_frozen"@ {
        assert(condition_suffixes(Poe2Condition::Frozen)[0] == s);
    } else if s == "_while_have_onslaught"@ {
        assert(condition_suffixes(Poe2Condition::HaveOnslaught)[0] == s);
    } else if s == "_while_ignited"@ {
        assert(condition_suffixes(Poe2Condition::Ignited)[0] == s);
    } else if s == "_while_leeching"@ {
        assert(condition_suffixes(Poe2Condition::Leeching)[0] == s);
    } else if s == "_while_missing_ward"@ {
        assert(condition_suffixes(Poe2Condition::MissingWard)[0] == s);
    } else if s == "_while_moving"@ {
        assert(condition_suffixes(Poe2Condition::Moving)[0] == s);
    } else if s == "_while_not_cursed"@ {
        assert(condition_suffixes(Poe2Condition::NotCursed)[0] == s);
    } else if s == "_while_not_on_low_mana"@ {
        assert(condition_suffixes(Poe2Condition::NotOnLowMana)[1] == s);
    } else if s == "_while_off_hand_is_empty"@ {
        assert(condition_suffixes(Poe2Condition::OffHandIsEmpty)[0] == s);
    } else if s == "_while_on_full_mana"@ {
        assert(condition_suffixes(Poe2Condition::OnFullMana)[0] == s);
    } else if s == "_while_on_low_life"@ {
        assert(condition_suffixes(Poe2Condition::OnLowLife)[1] == s);
    } else if s == "_while_onslaught_is_active"@ {
        assert(condition_suffixes(Poe2Condition::OnslaughtIsActive)[0] == s);
    } else if s == "_while_phasing"@ {
        assert(condition_suffixes(Poe2Condition::Phasing)[0] == s);
    } else if s == "_while_poisoned"@ {
        assert(condition_suffixes(Poe2Condition::Poisoned)[0] == s);
    } else if s == "_while_shocked"@ {
        assert(condition_suffixes(Poe2Condition::Shocked)[0] == s);
    } else if s == "_while_spider"@ {
        assert(condition_suffixes(Poe2Condition::Spider)[0] == s);
    } else if s == "_while_sprinting"@ {
        assert(condition_suffixes(Poe2Condition::Sprinting)[1] == s);
    } else if s == "_while_stationary"@ {
        assert(condition_suffixes(Poe2Condition::Stationary)[0] == s);
    } else if s == "_while_surrounded"@ {
        assert(condition_suffixes(Poe2Condition::Surrounded)[0] == s);
    } else if s == "_while_unarmed"@ {
        assert(condition_suffixes(Poe2Condition::Unarmed)[0] == s);
    } else if s == "_while_using_flask"@ {
        assert(condition_suffixes(Poe2Condition::UsingFlask)[0] == s);
    }
}

/// Maps a condition suffix, marker included, to its condition.
/// The suffix must be one of the known condition suffixes.
pub fn parse_condition(suffix: &str) -> (c: Poe2Condition)
    requires
        condition_of_suffix(suffix@) is Some,
    ensures
        condition_of_suffix(suffix@) == Some(c),
        condition_suffixes(c).contains(suffix@),
{
    proof {
        law_suffix_names_its_own_condition(suffix@);
    }
    let s = chars_of(suffix);
    if chars_eq(&s, "_during_flask_effect") {
        Poe2Condition::FlaskEffect
    } else if chars_eq(&s, "_during_mana_flask_effect") {
        Poe2Condition::ManaFlaskEffect
    } else if chars_eq(&s, "_if_blocked_recently") {
        Poe2Condition::BlockedRecently
    } else if chars_eq(&s, "_if_consumed_endurance_charge_recently") {
        Poe2Condition::ConsumedEnduranceChargeRecently
    } else if chars_eq(&s, "_if_crit_recently") {
        Poe2Condition::CritRecently
    } else if chars_eq(&s, "_if_culled_recently") {
        Poe2Condition::CulledRecently
    } else if chars_eq(&s, "_if_cursed_enemy_killed_recently") {
        Poe2Condition::CursedEnemyKilledRecently
    } else if chars_eq(&s, "_if_enemy_hit_recently") {
        Poe2Condition::EnemyHitRecently
    } else if chars_eq(&s, "_if_fire_infusion_collected_last_8_seconds") {
        Poe2Condition::FireInfusionCollectedLast8Seconds
    } else if chars_eq(&s, "_if_have_been_hit_recently") {
        Poe2Condition::HaveBeenHitRecently
    } else if chars_eq(&s, "_if_have_crit_in_past_8_seconds") {
        Poe2Condition::HaveCritInPast8Seconds
    } else if chars_eq(&s, "_if_have_crit_recently") {
        Poe2Condition::HaveCritRecently
    } else if chars_eq(&s, "_if_have_not_crit_recently") {
        Poe2Condition::HaveNotCritRecently
    } else if chars_eq(&s, "_if_lightning_infusion_collected_last_8_seconds") {
        Poe2Condition::LightningInfusionCollectedLast8Seconds
    } else if chars_eq(&s, "_if_lost_archon_in_past_6_seconds") {
        Poe2Condition::LostArchonInPast6Seconds
    } else if chars_eq(&s, "_if_not_been_hit_recently") {
        Poe2Condition::NotBeenHitRecently
    } else if chars_eq(&s, "_if_not_crit_recently") {
        Poe2Condition::NotCritRecently
    } else if chars_eq(&s, "_if_other_ring_is_elder_item") {
        Poe2Condition::OtherRingIsElderItem
    } else if chars_eq(&s, "_if_other_ring_is_shaper_item") {
        Poe2Condition::OtherRingIsShaperItem
    } else if chars_eq(&s, "_if_reloaded_recently") {
        Poe2Condition::ReloadedRecently
    } else if chars_eq(&s, "_if_sprinting") {
        Poe2Condition::Sprinting
    } else if chars_eq(&s, "_if_you_dodge_rolled_recently") {
        Poe2Condition::YouDodgeRolledRecently
    } else if chars_eq(&s, "_if_you_have_beast_minion") {
        Poe2Condition::YouHaveBeastMinion
    } else if chars_eq(&s, "_if_you_have_frozen_enemy_recently") {
        Poe2Condition::YouHaveFrozenEnemyRecently
    } else if chars_eq(&s, "_if_you_have_shocked_recently") {
        Poe2Condition::YouHaveShockedRecently
    } else if chars_eq(&s, "_if_you_have_used_a_cold_skill_recently") {
        Poe2Condition::YouHaveUsedAColdSkillRecently
    } else if chars_eq(&s, "_if_you_have_used_a_fire_skill_recently") {
        Poe2Condition::YouHaveUsedAFireSkillRecently
    } else if chars_eq(&s, "_if_youve_dealt_melee_hit_recently") {
        Poe2Condition::YouveDealtMeleeHitRecently
    } else if chars_eq(&s, "_if_youve_dealt_projectile_attack_hit_recently") {
        Poe2Condition::YouveDealtProjectileAttackHitRecently
    } else if chars_eq(&s, "_when_in_main_hand") {
        Poe2Condition::InMainHand
    } else if chars_eq(&s, "_when_in_off_hand") {
        Poe2Condition::InOffHand
    } else if chars_eq(&s, "_when_not_on_low_mana") {
        Poe2Condition::NotOnLowMana
    } else if chars_eq(&s, "_when_on_full_life") {
        Poe2Condition::OnFullLife
    } else if chars_eq(&s, "_when_on_low_life") {
        Poe2Condition::OnLowLife
    } else if chars_eq(&s, "_while_affected_by_herald_of_agony") {
        Poe2Condition::AffectedByHeraldOfAgony
    } else if chars_eq(&s, "_while_affected_by_herald_of_ash") {
        Poe2Condition::AffectedByHeraldOfAsh
    } else if chars_eq(&s, "_while_affected_by_herald_of_ice") {
        Poe2Condition::AffectedByHeraldOfIce
    } else if chars_eq(&s, "_while_affected_by_herald_of_purity") {
        Poe2Condition::AffectedByHeraldOfPurity
    } else if chars_eq(&s, "_while_affected_by_herald_of_thunder") {
        Poe2Condition::AffectedByHeraldOfThunder
    } else if chars_eq(&s, "_while_affected_by_malevolence") {
        Poe2Condition::AffectedByMalevolence
    } else if chars_eq(&s, "_while_at_maximum_frenzy_charges") {
        Poe2Condition::AtMaximumFrenzyCharges
    } else if chars_eq(&s, "_while_at_maximum_power_charges") {
        Poe2Condition::AtMaximumPowerCharges
    } else if chars_eq(&s, "_while_chilled_or_frozen") {
        Poe2Condition::ChilledOrFrozen
    } else if chars_eq(&s, "_while_frozen") {
        Poe2Condition::Frozen
    } else if chars_eq(&s, "_while_have_onslaught") {
        Poe2Condition::HaveOnslaught
    } else if chars_eq(&s, "_while_ignited") {
        Poe2Condition::Ignited
    } else if chars_eq(&s, "_while_leeching") {
        Poe2Condition::Leeching
    } else if chars_eq(&s, "_while_missing_ward") {
        Poe2Condition::MissingWard
    } else if chars_eq(&s, "_while_moving") {
        Poe2Condition::Moving
    } else if chars_eq(&s, "_while_not_cursed") {
        Poe2Condition::NotCursed
    } else if chars_eq(&s, "_while_not_on_low_mana") {
        Poe2Condition::NotOnLowMana
    } else if chars_eq(&s, "_while_off_hand_is_empty") {
        Poe2Condition::OffHandIsEmpty
    } else if chars_eq(&s, "_while_on_full_mana") {
        Poe2Condition::OnFullMana
    } else if chars_eq(&s, "_while_on_low_life") {
        Poe2Condition::OnLowLife
    } else if chars_eq(&s, "_while_onslaught_is_active") {
        Poe2Condition::OnslaughtIsActive
    } else if chars_eq(&s, "_while_phasing") {
        Poe2Condition::Phasing
    } else if chars_eq(&s, "_while_poisoned") {
        Poe2Condition::Poisoned
    } else if chars_eq(&s, "_while_shocked") {
        Poe2Condition::Shocked
    } else if chars_eq(&s, "_while_spider") {
        Poe2Condition::Spider
    } else if chars_eq(&s, "_while_sprinting") {
        Poe2Condition::Sprinting
    } else if chars_eq(&s, "_while_stationary") {
        Poe2Condition::Stationary
    } else if chars_eq(&s, "_while_surrounded") {
        Poe2Condition::Surrounded
    } else if chars_eq(&s, "_while_unarmed") {
        Poe2Condition::Unarmed
    } else if chars_eq(&s, "_while_using_flask") {
        Poe2Condition::UsingFlask
    } else {
        Poe2Condition::UsingFlask
    }
}

/// Whether a suffix names a known condition.
pub fn is_condition_suffix(suffix: &str) -> (b: bool)
    ensures
        b == (condition_of_suffix(suffix@) is Some),
{
    let s = chars_of(suffix);
    if chars_eq(&s, "_during_flask_effect") {
        true
    } else if chars_eq(&s, "_during_mana_flask_effect") {
        true
    } else if chars_eq(&s, "_if_blocked_recently") {
        true
    } else if chars_eq(&s, "_if_consumed_endurance_charge_recently") {
        true
    } else if chars_eq(&s, "_if_crit_recently") {
        true
    } else if chars_eq(&s, "_if_culled_recently") {
        true
    } else if chars_eq(&s, "_if_cursed_enemy_killed_recently") {
        true
    } else if chars_eq(&s, "_if_enemy_hit_recently") {
        true
    } else if chars_eq(&s, "_if_fire_infusion_collected_last_8_seconds") {
        true
    } else if chars_eq(&s, "_if_have_been_hit_recently") {
        true
    } else if chars_eq(&s, "_if_have_crit_in_past_8_seconds") {
        true
    } else if chars_eq(&s, "_if_have_crit_recently") {
        true
    } else if chars_eq(&s, "_if_have_not_crit_recently") {
        true
    } else if chars_eq(&s, "_if_lightning_infusion_collected_last_8_seconds") {
        true
    } else if chars_eq(&s, "_if_lost_archon_in_past_6_seconds") {
        true
    } else if chars_eq(&s, "_if_not_been_hit_recently") {
        true
    } else if chars_eq(&s, "_if_not_crit_recently") {
        true
    } else if chars_eq(&s, "_if_other_ring_is_elder_item") {
        true
    } else if chars_eq(&s, "_if_other_ring_is_shaper_item") {
        true
    } else if chars_eq(&s, "_if_reloaded_recently") {
        true
    } else if chars_eq(&s, "_if_sprinting") {
        true
    } else if chars_eq(&s, "_if_you_dodge_rolled_recently") {
        true
    } else if chars_eq(&s, "_if_you_have_beast_minion") {
        true
    } else if chars_eq(&s, "_if_you_have_frozen_enemy_recently") {
        true
    } else if chars_eq(&s, "_if_you_have_shocked_recently") {
        true
    } else if chars_eq(&s, "_if_you_have_used_a_cold_skill_recently") {
        true
    } else if chars_eq(&s, "_if_you_have_used_a_fire_skill_recently") {
        true
    } else if chars_eq(&s, "_if_youve_dealt_melee_hit_recently") {
        true
    } else if chars_eq(&s, "_if_youve_dealt_projectile_attack_hit_recently") {
        true
    } else if chars_eq(&s, "_when_in_main_hand") {
        true
    } else if chars_eq(&s, "_when_in_off_hand") {
        true
    } else if chars_eq(&s, "_when_not_on_low_mana") {
        true
    } else if chars_eq(&s, "_when_on_full_life") {
        true
    } else if chars_eq(&s, "_when_on_low_life") {
        true
    } else if chars_eq(&s, "_while_affected_by_herald_of_agony") {
        true
    } else if chars_eq(&s, "_while_affected_by_herald_of_ash") {
        true
    } else if chars_eq(&s, "_while_affected_by_herald_of_ice") {
        true
    } else if chars_eq(&s, "_while_affected_by_herald_of_purity") {
        true
    } else if chars_eq(&s, "_while_affected_by_herald_of_thunder") {
        true
    } else if chars_eq(&s, "_while_affected_by_malevolence") {
        true
    } else if chars_eq(&s, "_while_at_maximum_frenzy_charges") {
        true
    } else if chars_eq(&s, "_while_at_maximum_power_charges") {
        true
    } else if chars_eq(&s, "_while_chilled_or_frozen") {
        true
    } else if chars_eq(&s, "_while_frozen") {
        true
    } else if chars_eq(&s, "_while_have_onslaught") {
        true
    } else if chars_eq(&s, "_while_ignited") {
        true
    } else if chars_eq(&s, "_while_leeching") {
        true
    } else if chars_eq(&s, "_while_missing_ward") {
        true
    } else if chars_eq(&s, "_while_moving") {
        true
    } else if chars_eq(&s, "_while_not_cursed") {
        true
    } else if chars_eq(&s, "_while_not_on_low_mana") {
        true
    } else if chars_eq(&s, "_while_off_hand_is_empty") {
        true
    } else if chars_eq(&s, "_while_on_full_mana") {
        true
    } else if chars_eq(&s, "_while_on_low_life") {
        true
    } else if chars_eq(&s, "_while_onslaught_is_active") {
        true
    } else if chars_eq(&s, "_while_phasing") {
        true
    } else if chars_eq(&s, "_while_poisoned") {
        true
    } else if chars_eq(&s, "_while_shocked") {
        true
    } else if chars_eq(&s, "_while_spider") {
        true
    } else if chars_eq(&s, "_while_sprinting") {
        true
    } else if chars_eq(&s, "_while_stationary") {
        true
    } else if chars_eq(&s, "_while_surrounded") {
        true
    } else if chars_eq(&s, "_while_unarmed") {
        true
    } else if chars_eq(&s, "_while_using_flask") {
        true
    } else {
        false
    }
}

} // verus!
