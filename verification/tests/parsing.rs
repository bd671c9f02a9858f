use exile_poe2::effect::planning::{Poe2ConflictKey, Poe2EffectPhase, Poe2SelectionKey};
use exile_poe2::item::definition::{
    classify_phase, extract_condition_or_scaling, extract_is_defined, find_valid_split,
    parse_conflict_key, parse_selection_key, KnownStatIds,
};
use exile_poe2::item::state::{
    classify_bucket, hash_string, stat_id_to_bucket, Poe2StatModifierKind, StatBucket,
};
use exile_poe2::poe2_condition::{is_condition_suffix, parse_condition, Poe2Condition};
use exile_poe2::poe2_scaling::{
    is_scaling_suffix, parse_scaling, Poe2Resource, Poe2Scaling, ResourceSource,
};
use exile_poe2::repoe_parse::ItemClass;
use exile_poe2::text::chars_of;

fn known(ids: &[&str]) -> KnownStatIds {
    let mut k = KnownStatIds::new();
    for id in ids {
        k.insert(id);
    }
    k
}

#[test]
fn condition_suffixes_map_to_conditions() {
    assert_eq!(parse_condition("_when_on_full_life"), Poe2Condition::OnFullLife);
    assert_eq!(parse_condition("_while_sprinting"), Poe2Condition::Sprinting);
    assert_eq!(parse_condition("_if_sprinting"), Poe2Condition::Sprinting);
    assert_eq!(parse_condition("_during_flask_effect"), Poe2Condition::FlaskEffect);
    assert_eq!(parse_condition("_while_using_flask"), Poe2Condition::UsingFlask);
    assert_eq!(parse_condition("_when_not_on_low_mana"), Poe2Condition::NotOnLowMana);
    assert_eq!(parse_condition("_while_not_on_low_mana"), Poe2Condition::NotOnLowMana);
    assert!(is_condition_suffix("_while_moving"));
    assert!(!is_condition_suffix("_while_dancing"));
    assert!(!is_condition_suffix(""));
}

#[test]
fn scaling_suffixes_map_to_scalings() {
    assert_eq!(
        parse_scaling("_per_10_dex"),
        Poe2Scaling { resource: Poe2Resource::Dexterity, per: 10 }
    );
    assert_eq!(
        parse_scaling("_per_10_intelligence"),
        Poe2Scaling { resource: Poe2Resource::Intelligence, per: 10 }
    );
    assert_eq!(
        parse_scaling("_per_frenzy_charge"),
        Poe2Scaling { resource: Poe2Resource::FrenzyCharge, per: 1 }
    );
    assert_eq!(
        parse_scaling("_per_450_evasion"),
        Poe2Scaling { resource: Poe2Resource::Evasion, per: 450 }
    );
    assert!(is_scaling_suffix("_per_poison_up_to_75%"));
    assert!(!is_scaling_suffix("_per_7_dex"));
}

#[test]
fn resource_sources() {
    assert_eq!(Poe2Resource::Strength.source(), ResourceSource::Accumulated);
    assert_eq!(Poe2Resource::Accuracy.source(), ResourceSource::Derived);
    assert_eq!(Poe2Resource::Rage.source(), ResourceSource::RuntimeAssumption);
    assert_eq!(Poe2Resource::EquippedUnique.source(), ResourceSource::Accumulated);
    assert_eq!(Poe2Resource::ColdResistanceAbove75.source(), ResourceSource::Derived);
}

#[test]
fn item_class_names() {
    assert_eq!(ItemClass::Warstaff.as_str(), "Warstaff");
    assert_eq!(ItemClass::BodyArmour.as_str(), "Body Armour");
    assert_eq!(ItemClass::MapItem.as_str(), "Map");
    assert_eq!(ItemClass::PinnacleKeyOld.as_str(), "PinnacleKey_OLD");
    assert_eq!(ItemClass::default(), ItemClass::Unknown);
    assert_eq!(ItemClass::Unknown.as_str(), "Unknown");
}

#[test]
fn phases_by_identifier() {
    assert_eq!(classify_phase("damage_+%_more_%"), Poe2EffectPhase::MoreLess);
    assert_eq!(classify_phase("fire_damage_+%"), Poe2EffectPhase::IncreasedReduced);
    assert_eq!(
        classify_phase("physical_damage_%_converted_to_fire"),
        Poe2EffectPhase::Conversion
    );
    assert_eq!(classify_phase("damage_gained_as_extra_cold"), Poe2EffectPhase::Conversion);
    assert_eq!(classify_phase("base_maximum_life"), Poe2EffectPhase::AddedFlat);
    assert_eq!(classify_phase(""), Poe2EffectPhase::AddedFlat);
}

#[test]
fn conflict_and_selection_keys() {
    assert_eq!(
        parse_conflict_key("resolute_technique"),
        Some(Poe2ConflictKey::ResoluteTechniqueCritOverride)
    );
    assert_eq!(
        parse_conflict_key("keystone_avatar_of_fire"),
        Some(Poe2ConflictKey::AvatarOfFireDamageRestriction)
    );
    assert_eq!(parse_conflict_key("resolute"), None);
    assert!(matches!(
        parse_selection_key("aura_effect_+%"),
        Some(Poe2SelectionKey::Aura(_))
    ));
    assert_eq!(
        parse_selection_key("minimum_frenzy_charges"),
        Some(Poe2SelectionKey::MinimumFrenzyCharges)
    );
    assert_eq!(
        parse_selection_key("action_speed_cannot_be_reduced_below_base"),
        Some(Poe2SelectionKey::ActionSpeedFloor)
    );
    assert_eq!(parse_selection_key("aura"), None);
}

#[test]
fn selection_key_of_an_aura_is_its_hash() {
    assert_eq!(
        parse_selection_key("aura_effect_+%"),
        Some(Poe2SelectionKey::Aura(hash_string("aura_effect_+%")))
    );
    assert_ne!(hash_string("aura_a"), hash_string("aura_b"));
}

#[test]
fn buckets_of_stats_and_tags() {
    assert_eq!(stat_id_to_bucket("chaos_damage_+%"), Some(StatBucket::ChaosDamagePercent));
    assert_eq!(stat_id_to_bucket("additional_strength"), Some(StatBucket::Strength));
    assert_eq!(stat_id_to_bucket("additional_dexterity"), None);
    let tags = vec!["mana".to_string(), "life".to_string()];
    assert_eq!(classify_bucket(&tags), Some(StatBucket::Life));
    let tags = vec!["block".to_string(), "fire_resistance".to_string()];
    assert_eq!(classify_bucket(&tags), Some(StatBucket::FireResistance));
    let tags = vec!["attack".to_string()];
    assert_eq!(classify_bucket(&tags), None);
    assert_eq!(classify_bucket(&[]), None);
}

#[test]
fn splits_at_known_base_identifiers() {
    let k = known(&["attack_speed_+%", "life_regeneration_rate_+%"]);
    let raw = chars_of("attack_speed_+%_while_moving");
    assert_eq!(find_valid_split(&raw, "_while_", &k), Some(15));
    assert_eq!(find_valid_split(&raw, "_when_", &k), None);
    let (base, kind) = extract_condition_or_scaling("attack_speed_+%_while_moving", &k);
    assert_eq!(base, "attack_speed_+%");
    assert_eq!(kind, Poe2StatModifierKind::Conditional(Poe2Condition::Moving));
    let (base, kind) = extract_condition_or_scaling("attack_speed_+%_per_frenzy_charge", &k);
    assert_eq!(base, "attack_speed_+%");
    assert_eq!(
        kind,
        Poe2StatModifierKind::Scaled(Poe2Scaling { resource: Poe2Resource::FrenzyCharge, per: 1 })
    );
    let (base, kind) = extract_condition_or_scaling("cast_speed_+%_while_moving", &k);
    assert_eq!(base, "cast_speed_+%_while_moving");
    assert_eq!(kind, Poe2StatModifierKind::Plain);
}

#[test]
fn gate_markers_win_over_scaling_and_need_a_non_empty_prefix() {
    let k = known(&["damage_+%", "damage_+%_per_frenzy_charge", ""]);
    let (base, kind) =
        extract_condition_or_scaling("damage_+%_per_frenzy_charge_while_moving", &k);
    assert_eq!(base, "damage_+%_per_frenzy_charge");
    assert_eq!(kind, Poe2StatModifierKind::Conditional(Poe2Condition::Moving));
    let raw = chars_of("_while_moving");
    assert_eq!(find_valid_split(&raw, "_while_", &k), None);
}

#[test]
fn matches_are_taken_without_overlap() {
    let k = known(&["x_when", "x"]);
    let raw = chars_of("x_when_when_on_full_life");
    assert_eq!(find_valid_split(&raw, "_when_", &k), Some(1));
    let k = known(&["x_when"]);
    assert_eq!(find_valid_split(&raw, "_when_", &k), None);
}

#[test]
fn unknown_suffixes_are_detected() {
    let k = known(&["foo"]);
    assert!(!extract_is_defined("foo_when_bar", &k));
    assert!(extract_is_defined("foo_when_on_low_life", &k));
    assert!(extract_is_defined("bar_when_baz", &k));
    assert!(!extract_is_defined("foo_per_bar", &k));
}

#[test]
fn item_class_names_are_distinct() {
    let classes = [
        ItemClass::ActiveSkillGem,
        ItemClass::Amulet,
        ItemClass::AtlasUpgradeItem,
        ItemClass::Belt,
        ItemClass::BodyArmour,
        ItemClass::Boots,
        ItemClass::Bow,
        ItemClass::Breachstone,
        ItemClass::BrequelFruit,
        ItemClass::Buckler,
        ItemClass::Claw,
        ItemClass::ConventionTreasure,
        ItemClass::Crossbow,
        ItemClass::Currency,
        ItemClass::Dagger,
        ItemClass::DelveSocketableCurrency,
        ItemClass::DelveStackableSocketableCurrency,
        ItemClass::DivinationCard,
        ItemClass::Expedition2Logbooks,
        ItemClass::ExpeditionLogbook,
        ItemClass::FishingRod,
        ItemClass::Flail,
        ItemClass::Focus,
        ItemClass::GiftBox,
        ItemClass::Gloves,
        ItemClass::HeistBlueprint,
        ItemClass::HeistContract,
        ItemClass::HeistEquipmentReward,
        ItemClass::HeistEquipmentTool,
        ItemClass::HeistEquipmentUtility,
        ItemClass::HeistEquipmentWeapon,
        ItemClass::Helmet,
        ItemClass::IncubatorStackable,
        ItemClass::IncursionArm,
        ItemClass::IncursionLeg,
        ItemClass::InstanceLocalItem,
        ItemClass::ItemisedSanctum,
        ItemClass::Jewel,
        ItemClass::LifeFlask,
        ItemClass::ManaFlask,
        ItemClass::MapItem,
        ItemClass::MapFragment,
        ItemClass::MemoryLine,
        ItemClass::MetaSkillGem,
        ItemClass::Omen,
        ItemClass::OneHandAxe,
        ItemClass::OneHandMace,
        ItemClass::OneHandSword,
        ItemClass::PinnacleKeyStackable,
        ItemClass::PinnacleKeyOld,
        ItemClass::QuestItem,
        ItemClass::Quiver,
        ItemClass::Relic,
        ItemClass::Ring,
        ItemClass::SanctumSpecialRelic,
        ItemClass::Sceptre,
        ItemClass::SentinelDrone,
        ItemClass::Shield,
        ItemClass::SkillGemToken,
        ItemClass::SoulCore,
        ItemClass::Spear,
        ItemClass::StackableCurrency,
        ItemClass::Staff,
        ItemClass::SupportSkillGem,
        ItemClass::Talisman,
        ItemClass::TowerAugmentation,
        ItemClass::TrapTool,
        ItemClass::TwoHandAxe,
        ItemClass::TwoHandMace,
        ItemClass::TwoHandSword,
        ItemClass::UltimatumKey,
        ItemClass::UncutReservationGemStackable,
        ItemClass::UncutReservationGemOld,
        ItemClass::UncutSkillGemStackable,
        ItemClass::UncutSkillGemOld,
        ItemClass::UncutSupportGemStackable,
        ItemClass::UncutSupportGemOld,
        ItemClass::UtilityFlask,
        ItemClass::VaultKey,
        ItemClass::Wand,
        ItemClass::Warstaff,
        ItemClass::Unknown,
    ];
    let mut names: Vec<&str> = classes.iter().map(|c| c.as_str()).collect();
    names.sort();
    names.dedup();
    assert_eq!(names.len(), classes.len());
}
