use exile_poe2::item::state::{hash_string, modifier_kind, modifier_kind_of, EquipSlot, Poe2ModifierKind};
use exile_poe2::stat_balancer::{
    apply_integer_local_stat, LocalIntegerStats,
    local_stat_hashes, local_stat_row, resolve_local_stat, resolve_local_stat_with_hashes,
    LocalStat, LocalStatResolution,
};

fn table_hashes() -> Vec<u64> {
    (0..94u64).map(|i| 1000 + i).collect()
}

#[test]
fn first_matching_row_decides() {
    let hs = table_hashes();
    let kind = Poe2ModifierKind::Other(7);
    assert_eq!(
        resolve_local_stat_with_hashes(kind, 1000, Some(EquipSlot::Helmet), &hs),
        LocalStatResolution::Matched(EquipSlot::Helmet, LocalStat::BasePhysicalDamageReductionRating)
    );
    assert_eq!(
        resolve_local_stat_with_hashes(kind, 1002, Some(EquipSlot::Boots), &hs),
        LocalStatResolution::Matched(EquipSlot::Boots, LocalStat::EnergyShield)
    );
    assert_eq!(
        resolve_local_stat_with_hashes(kind, 1093, Some(EquipSlot::MainHand), &hs),
        LocalStatResolution::Matched(
            EquipSlot::MainHand,
            LocalStat::CrossbowNoAmmoSkillsAndGiveAlternateGrenadeDefaultAttack
        )
    );
    let mut dup = table_hashes();
    dup[5] = 1002;
    assert_eq!(
        resolve_local_stat_with_hashes(kind, 1002, Some(EquipSlot::Boots), &dup),
        LocalStatResolution::Matched(EquipSlot::Boots, LocalStat::EnergyShield)
    );
}

#[test]
fn unmatched_global_and_abyss_totals() {
    let hs = table_hashes();
    assert_eq!(
        resolve_local_stat_with_hashes(Poe2ModifierKind::Other(7), 5, Some(EquipSlot::Belt), &hs),
        LocalStatResolution::Unmatched(EquipSlot::Belt)
    );
    assert_eq!(
        resolve_local_stat_with_hashes(Poe2ModifierKind::Other(7), 1000, None, &hs),
        LocalStatResolution::Ignored
    );
    assert_eq!(
        resolve_local_stat_with_hashes(Poe2ModifierKind::AbyssTargetMod, 1000, Some(EquipSlot::Belt), &hs),
        LocalStatResolution::Ignored
    );
}

#[test]
fn table_rows_and_their_hashes() {
    assert_eq!(local_stat_row(0), ("local_base_physical_damage_reduction_rating", LocalStat::BasePhysicalDamageReductionRating));
    assert_eq!(local_stat_row(28), ("local_spirit_+%", LocalStat::SpiritIncreased));
    let hs = local_stat_hashes();
    assert_eq!(hs.len(), 94);
    assert_eq!(hs[2], hash_string("local_energy_shield"));
}

#[test]
fn resolving_with_the_real_hashes() {
    let kind = modifier_kind_of("LocalIncreasedEnergyShield");
    assert!(matches!(kind, Poe2ModifierKind::Other(_)));
    assert_eq!(
        resolve_local_stat(kind, hash_string("local_energy_shield_+%"), Some(EquipSlot::BodyArmour)),
        LocalStatResolution::Matched(EquipSlot::BodyArmour, LocalStat::EnergyShieldIncreased)
    );
    assert_eq!(
        resolve_local_stat(kind, hash_string("base_maximum_life"), Some(EquipSlot::BodyArmour)),
        LocalStatResolution::Unmatched(EquipSlot::BodyArmour)
    );
    assert_eq!(
        resolve_local_stat(kind, hash_string("local_energy_shield_+%"), None),
        LocalStatResolution::Ignored
    );
    let abyss = modifier_kind_of("AbyssTargetMod");
    assert_eq!(abyss, Poe2ModifierKind::AbyssTargetMod);
    assert_eq!(
        resolve_local_stat(abyss, hash_string("local_energy_shield_+%"), Some(EquipSlot::BodyArmour)),
        LocalStatResolution::Ignored
    );
}

#[test]
fn modifier_kinds_by_name() {
    assert_eq!(modifier_kind("AbyssTargetMod", 5), Poe2ModifierKind::AbyssTargetMod);
    assert_eq!(modifier_kind("BaseLifeAndMana", 5), Poe2ModifierKind::BaseLifeAndMana);
    assert_eq!(modifier_kind("Strength", 5), Poe2ModifierKind::Strength);
    assert_eq!(modifier_kind("Dexterity", 5), Poe2ModifierKind::Dexterity);
    assert_eq!(modifier_kind("Intelligence", 5), Poe2ModifierKind::Intelligence);
    assert_eq!(modifier_kind("IncreasedLife", 5), Poe2ModifierKind::Other(5));
    assert_eq!(modifier_kind_of("Strength"), Poe2ModifierKind::Strength);
    assert_eq!(modifier_kind_of("IncreasedLife"), Poe2ModifierKind::Other(hash_string("IncreasedLife")));
}

#[test]
fn integer_local_stats_take_their_totals() {
    let mut s = LocalIntegerStats::default();
    assert!(apply_integer_local_stat(&mut s, LocalStat::BasePhysicalDamageReductionRating, 40));
    assert!(apply_integer_local_stat(&mut s, LocalStat::BasePhysicalDamageReductionRating, 2));
    assert_eq!(s.local_flat_armour, 42);
    assert!(apply_integer_local_stat(&mut s, LocalStat::CriticalStrikeMultiplierPlus, -15));
    assert_eq!(s.local_critical_strike_multiplier, -15);
    assert!(apply_integer_local_stat(&mut s, LocalStat::AlwaysHit, 1));
    assert!(s.local_always_hit);
    assert!(apply_integer_local_stat(&mut s, LocalStat::AttackSpeedIncreased, 9));
    assert_eq!(s.local_flat_armour, 42);
    s.local_energy_shield = u64::MAX;
    assert!(!apply_integer_local_stat(&mut s, LocalStat::EnergyShield, 1));
    assert_eq!(s.local_energy_shield, u64::MAX);
    let mut t = LocalIntegerStats::default();
    assert!(apply_integer_local_stat(&mut t, LocalStat::Ward, -1));
    assert_eq!(t.local_maximum_ward, u64::MAX);
}
