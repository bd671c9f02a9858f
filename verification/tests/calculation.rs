use exile_poe2::calculation::accumulator::{
    EquipmentStats, Poe2Accumulator, Poe2EffectApplier, StatKey, StatTable,
};
use exile_poe2::calculation::factory::{
    base_stat_keys, base_stat_names, BaseStatKeys, Poe2AccumulatorFactory, Poe2CalculationInput,
};
use exile_poe2::calculation::bucket_table::bucket_table_row;
use exile_poe2::calculation::finalizer::{bucket_mapping_from_hashes, Poe2Finalizer};
use exile_poe2::effect::condition::{Poe2Configuration, Poe2Evaluator};
use exile_poe2::effect::planning::{Poe2EffectPhase, Poe2EffectPriority, Poe2PlanningPolicy};
use exile_poe2::effect::resolver::{EffectEntry, Poe2ModifierEffectResolver};
use exile_poe2::item::base::Poe2CharacterBase;
use exile_poe2::item::definition::Poe2DefinitionRegistry;
use exile_poe2::item::state::{
    hash_string, EquipSlot, ModOrigin, Poe2Effect, Poe2ModifierDefinition, Poe2ModifierId,
    Poe2ModifierInstance, Poe2ModifierKind, Poe2ModifierStat, Poe2StatModifierKind, StatBucket,
};
use exile_poe2::poe2_condition::Poe2Condition;
use exile_poe2::poe2_scaling::{Poe2Resource, Poe2Scaling};
use exile_poe2::repoe_parse::{Domain, GenerationType, Properties, RawMod, RawModsFile, StatRoll};
use ahash::AHashMap;

fn stat(id: u64, local: bool, kind: Poe2StatModifierKind, phase: Poe2EffectPhase) -> Poe2ModifierStat {
    Poe2ModifierStat {
        id_hash: id,
        min: 0,
        max: 100,
        is_local: local,
        kind,
        phase,
        conflict_key: None,
        selection_key: None,
    }
}

fn definition(stats: Vec<Poe2ModifierStat>) -> Poe2ModifierDefinition {
    Poe2ModifierDefinition {
        id: Poe2ModifierId(1),
        kind: Poe2ModifierKind::Other(77),
        required_level: 1,
        stats,
        groups: vec![],
        spawn_weights: vec![],
        generation_type: GenerationType::Prefix,
    }
}

#[test]
fn conditions_hold_when_active() {
    let config = Poe2Configuration { active_conditions: vec![Poe2Condition::Moving, Poe2Condition::OnLowLife] };
    assert_eq!(Poe2Evaluator.evaluate_condition(&Poe2Condition::OnLowLife, &config), Ok(true));
    assert_eq!(Poe2Evaluator.evaluate_condition(&Poe2Condition::Frozen, &config), Ok(false));
    assert_eq!(
        Poe2Evaluator.evaluate_condition(&Poe2Condition::Frozen, &Poe2Configuration::default()),
        Ok(false)
    );
}

#[test]
fn resolver_produces_one_entry_per_roll() {
    let mut resolver = Poe2ModifierEffectResolver::new();
    assert_eq!(resolver.current_slot, EquipSlot::NoSlot);
    resolver.current_slot = EquipSlot::Helmet;
    let scaling = Poe2Scaling { resource: Poe2Resource::PowerCharge, per: 1 };
    let def = definition(vec![
        stat(10, false, Poe2StatModifierKind::Plain, Poe2EffectPhase::AddedFlat),
        stat(11, true, Poe2StatModifierKind::Plain, Poe2EffectPhase::AddedFlat),
        stat(12, false, Poe2StatModifierKind::Conditional(Poe2Condition::Moving), Poe2EffectPhase::AddedFlat),
        stat(13, false, Poe2StatModifierKind::Scaled(scaling), Poe2EffectPhase::AddedFlat),
    ]);
    let m = Poe2ModifierInstance { rolls: vec![1, 2, 3, 4, 5], origin: ModOrigin::Dropped };
    let entries = resolver.resolve_modifier_effects(&def, &m).ok().unwrap();
    let kind = Poe2ModifierKind::Other(77);
    assert_eq!(
        entries,
        vec![
            EffectEntry::unconditional(Poe2Effect::GlobalStat { id: 10, value: 1, mod_type: kind }),
            EffectEntry::unconditional(Poe2Effect::LocalStat {
                slot: EquipSlot::Helmet,
                id: 11,
                value: 2,
                mod_type: kind
            }),
            EffectEntry::conditional(
                Poe2Effect::GlobalStat { id: 12, value: 3, mod_type: kind },
                Poe2Condition::Moving
            ),
            EffectEntry::unconditional(Poe2Effect::ScaledStat {
                target_id: 13,
                multiplier: 4,
                scaling,
                mod_type: kind
            }),
        ]
    );
    let short = Poe2ModifierInstance { rolls: vec![9], origin: ModOrigin::Dropped };
    assert_eq!(resolver.resolve_modifier_effects(&def, &short).ok().unwrap().len(), 1);
    assert_eq!(Poe2ModifierEffectResolver::default().current_slot, EquipSlot::NoSlot);
}

#[test]
fn planning_policy_from_registry() {
    let db = RawModsFile::from_entries(vec![(
        "Mod".to_string(),
        RawMod {
            adds_tags: vec![],
            domain: Domain::Item,
            generation_type: GenerationType::Suffix,
            generation_weights: vec![],
            grants_effects: vec![],
            groups: vec![],
            implicit_tags: vec![],
            is_essence_only: false,
            name: "m".to_string(),
            required_level: 1,
            spawn_weights: vec![],
            stats: vec![
                StatRoll { id: "fire_damage_+%".to_string(), min: 1, max: 2 },
                StatRoll { id: "damage_+%_more_%".to_string(), min: 1, max: 2 },
            ],
            text: None,
            mod_type: "Damage".to_string(),
        },
    )]);
    let registry = Poe2DefinitionRegistry::new(db);
    let policy = Poe2PlanningPolicy::from_registry(&registry);
    let k = Poe2ModifierKind::Other(0);
    let fire = Poe2Effect::GlobalStat { id: hash_string("fire_damage_+%"), value: 5, mod_type: k };
    let more = Poe2Effect::LocalStat {
        slot: EquipSlot::Boots,
        id: hash_string("damage_+%_more_%"),
        value: 3,
        mod_type: k,
    };
    let other = Poe2Effect::GlobalStat { id: hash_string("unknown"), value: 3, mod_type: k };
    let scaled = Poe2Effect::ScaledStat {
        target_id: hash_string("fire_damage_+%"),
        multiplier: 2,
        scaling: Poe2Scaling { resource: Poe2Resource::Level, per: 1 },
        mod_type: k,
    };
    assert_eq!(policy.phase(&fire), Poe2EffectPhase::IncreasedReduced);
    assert_eq!(policy.phase(&more), Poe2EffectPhase::MoreLess);
    assert_eq!(policy.phase(&other), Poe2EffectPhase::AddedFlat);
    assert_eq!(policy.phase(&scaled), Poe2EffectPhase::Base);
    assert_eq!(policy.priority(&fire), Poe2EffectPriority::Normal);
    assert_eq!(policy.conflict_key(&fire), None);
    assert_eq!(policy.selection_key(&fire), None);
    let bigger = Poe2Effect::GlobalStat { id: 1, value: 9, mod_type: k };
    assert!(policy.prefers(&bigger, &fire));
    assert!(!policy.prefers(&fire, &bigger));
    assert!(!policy.prefers(&fire, &fire));
    assert!(!policy.prefers(&bigger, &more));
}

#[test]
fn policies_built_twice_from_one_registry_agree() {
    let stats = vec![
        StatRoll { id: "fire_damage_+%".to_string(), min: 1, max: 2 },
        StatRoll { id: "resolute_technique".to_string(), min: 1, max: 1 },
        StatRoll { id: "damage_+%_more_%".to_string(), min: 1, max: 2 },
    ];
    let db = RawModsFile::from_entries(vec![(
        "Mod".to_string(),
        RawMod {
            adds_tags: vec![],
            domain: Domain::Item,
            generation_type: GenerationType::Suffix,
            generation_weights: vec![],
            grants_effects: vec![],
            groups: vec![],
            implicit_tags: vec![],
            is_essence_only: false,
            name: "m".to_string(),
            required_level: 1,
            spawn_weights: vec![],
            stats,
            text: None,
            mod_type: "Damage".to_string(),
        },
    )]);
    let registry = Poe2DefinitionRegistry::new(db);
    let first = Poe2PlanningPolicy::from_registry(&registry);
    let second = Poe2PlanningPolicy::from_registry(&registry);
    let k = Poe2ModifierKind::Other(0);
    for name in ["fire_damage_+%", "resolute_technique", "damage_+%_more_%", "unknown"] {
        let e = Poe2Effect::GlobalStat { id: hash_string(name), value: 1, mod_type: k };
        assert_eq!(first.phase(&e), second.phase(&e));
        assert_eq!(first.conflict_key(&e), second.conflict_key(&e));
        assert_eq!(first.selection_key(&e), second.selection_key(&e));
        assert_eq!(first.phase(&e), first.phase(&e));
    }
    let rt = Poe2Effect::GlobalStat { id: hash_string("resolute_technique"), value: 1, mod_type: k };
    assert_eq!(first.conflict_key(&rt), None);
    assert_eq!(first.phase(&rt), Poe2EffectPhase::AddedFlat);
}

fn key(id: u64) -> StatKey {
    StatKey { mod_type: Poe2ModifierKind::Other(1), id }
}

#[test]
fn applying_effects_accumulates() {
    let mut acc = Poe2Accumulator::default();
    let applier = Poe2EffectApplier;
    let k = Poe2ModifierKind::Other(1);
    applier.apply_effect(&Poe2Effect::GlobalStat { id: 5, value: 10, mod_type: k }, &mut acc).unwrap();
    applier.apply_effect(&Poe2Effect::GlobalStat { id: 5, value: -3, mod_type: k }, &mut acc).unwrap();
    applier
        .apply_effect(&Poe2Effect::LocalStat { slot: EquipSlot::Ring1, id: 5, value: 4, mod_type: k }, &mut acc)
        .unwrap();
    let scaled = Poe2Effect::ScaledStat {
        target_id: 5,
        multiplier: 2,
        scaling: Poe2Scaling { resource: Poe2Resource::Level, per: 1 },
        mod_type: k,
    };
    applier.apply_effect(&scaled, &mut acc).unwrap();
    assert_eq!(acc.global_stats.get(key(5)), Some(7));
    assert_eq!(acc.global_stats.get(key(6)), None);
    assert_eq!(acc.equipment_stats.get(EquipSlot::Ring1).unwrap().stats.get(key(5)), Some(4));
    assert!(acc.equipment_stats.get(EquipSlot::Ring2).is_none());
    assert_eq!(acc.equipment_stats.get(EquipSlot::Ring1).unwrap().properties.movement_speed, None);
    assert_eq!(acc.pending_scaling, vec![scaled]);
}

#[test]
fn stat_effects_commute_on_concrete_values() {
    let applier = Poe2EffectApplier;
    let k = Poe2ModifierKind::Other(1);
    let a = Poe2Effect::GlobalStat { id: 1, value: 5, mod_type: k };
    let b = Poe2Effect::LocalStat { slot: EquipSlot::Belt, id: 1, value: 2, mod_type: k };
    let c = Poe2Effect::GlobalStat { id: 1, value: 7, mod_type: k };
    let mut x = Poe2Accumulator::default();
    let mut y = Poe2Accumulator::default();
    for e in [a, b, c] {
        applier.apply_effect(&e, &mut x).unwrap();
    }
    for e in [c, b, a] {
        applier.apply_effect(&e, &mut y).unwrap();
    }
    assert_eq!(x.global_stats.get(key(1)), y.global_stats.get(key(1)));
    assert_eq!(x.global_stats.get(key(1)), Some(12));
    assert_eq!(
        x.equipment_stats.get(EquipSlot::Belt).unwrap().stats.get(key(1)),
        y.equipment_stats.get(EquipSlot::Belt).unwrap().stats.get(key(1))
    );
}

#[test]
fn stat_tables_and_slots() {
    let mut t = StatTable::new();
    assert_eq!(t.len(), 0);
    t.set(key(1), 5);
    t.add(key(1), 2);
    t.add(key(2), -4);
    t.set(key(2), 9);
    assert_eq!(t.get(key(1)), Some(7));
    assert_eq!(t.get(key(2)), Some(9));
    assert_eq!(t.len(), 2);
    let mut e = EquipmentStats::new();
    e.insert_empty(EquipSlot::Gloves, Properties::default());
    assert!(e.get(EquipSlot::Gloves).is_some());
    assert_eq!(e.get(EquipSlot::Gloves).unwrap().stats.len(), 0);
    e.add(EquipSlot::Gloves, key(3), 1);
    assert_eq!(e.at(4).unwrap().stats.get(key(3)), Some(1));
}

#[test]
fn factory_seeds_base_values() {
    let keys = BaseStatKeys { life: key(1), mana: key(2), strength: key(3), dexterity: key(4), intelligence: key(5) };
    let mut boots = Properties::default();
    boots.movement_speed = Some(10);
    let mut later_boots = Properties::default();
    later_boots.movement_speed = Some(25);
    later_boots.description = Some(String::from("quick"));
    let shoes = Poe2CalculationInput {
        character: Poe2CharacterBase {
            base_life: 1,
            base_mana: 2,
            base_strength: 3,
            base_dexterity: 4,
            base_intelligence: 5,
        },
        equipment_properties: vec![(EquipSlot::Boots, boots), (EquipSlot::Boots, later_boots)],
    };
    let acc = Poe2AccumulatorFactory.create_with_keys(&shoes, &keys).ok().unwrap();
    let stored = &acc.equipment_stats.get(EquipSlot::Boots).unwrap().properties;
    assert_eq!(stored.movement_speed, Some(25));
    assert_eq!(stored.description, Some(String::from("quick")));
    assert_eq!(acc.equipment_stats.get(EquipSlot::Boots).unwrap().stats.len(), 0);
    let input = Poe2CalculationInput {
        character: Poe2CharacterBase {
            base_life: 60,
            base_mana: 40,
            base_strength: 7,
            base_dexterity: 8,
            base_intelligence: 9,
        },
        equipment_properties: vec![(EquipSlot::Helmet, Properties::default())],
    };
    let acc = Poe2AccumulatorFactory.create_with_keys(&input, &keys).ok().unwrap();
    assert_eq!(acc.global_stats.get(key(1)), Some(60));
    assert_eq!(acc.global_stats.get(key(5)), Some(9));
    assert_eq!(acc.global_stats.len(), 5);
    assert!(acc.equipment_stats.get(EquipSlot::Helmet).is_some());
    assert!(acc.equipment_stats.get(EquipSlot::Boots).is_none());
    assert!(acc.pending_scaling.is_empty());
    let acc = Poe2AccumulatorFactory.create(&input).ok().unwrap();
    let keys = base_stat_keys();
    assert_eq!(acc.global_stats.get(keys.life), Some(60));
    assert_eq!(acc.global_stats.get(keys.intelligence), Some(9));
    assert_eq!(
        keys.life.id,
        hash_string("base_maximum_life")
    );
    assert_eq!(keys.life.mod_type, keys.mana.mod_type);
    assert_eq!(keys.life.mod_type, Poe2ModifierKind::BaseLifeAndMana);
    assert_eq!(keys.dexterity.mod_type, Poe2ModifierKind::Dexterity);
    let names = base_stat_names();
    assert_eq!(names.intelligence.kind_name, "Intelligence");
    assert_eq!(names.intelligence.stat_id, "additional_intelligence");
    assert_eq!(keys.intelligence.id, hash_string(names.intelligence.stat_id));
}

#[test]
fn totals_by_bucket() {
    let mut mapping: AHashMap<u64, Vec<StatBucket>> = AHashMap::new();
    mapping.insert(1, vec![StatBucket::Strength]);
    mapping.insert(2, vec![StatBucket::Strength, StatBucket::Dexterity, StatBucket::Intelligence]);
    let mut acc = Poe2Accumulator::default();
    acc.global_stats.add(key(1), 10);
    acc.global_stats.add(key(2), 5);
    acc.global_stats.add(key(3), 1000);
    acc.equipment_stats.add(EquipSlot::Amulet, key(2), 3);
    let totals = Poe2Finalizer.finalize_by_bucket(&acc, &mapping);
    assert_eq!(totals.get(StatBucket::Strength), Some(18));
    assert_eq!(totals.get(StatBucket::Dexterity), Some(8));
    assert_eq!(totals.get(StatBucket::Intelligence), Some(8));
    assert_eq!(totals.get(StatBucket::Life), None);
}

#[test]
fn bucket_mapping_of_the_table() {
    let mapping = Poe2Finalizer::get_bucket_mapping();
    assert_eq!(mapping.get(&hash_string("base_maximum_life")), Some(&vec![StatBucket::Life]));
    assert_eq!(
        mapping.get(&hash_string("additional_all_attributes")),
        Some(&vec![StatBucket::Strength, StatBucket::Dexterity, StatBucket::Intelligence])
    );
    assert_eq!(
        mapping.get(&hash_string("chaos_damage_+%")),
        Some(&vec![StatBucket::ChaosDamageIncreasePrecent])
    );
    assert_eq!(mapping.get(&hash_string("not_a_stat")), None);
    assert_eq!(
        mapping.get(&hash_string("base_resist_all_elements_%")),
        Some(&vec![
            StatBucket::FireResistance,
            StatBucket::ColdResistance,
            StatBucket::LightningResistance,
            StatBucket::ChaosResistance
        ])
    );
    assert_eq!(
        mapping.get(&hash_string("damage_taken_goes_to_life_over_4_seconds_%")),
        Some(&vec![StatBucket::DamageTakenGoesToLifeOver4SecondsIncreasePrecent])
    );
    assert_eq!(mapping.get(&hash_string("local_energy_shield")), None);
    for values in mapping.values() {
        assert!(!values.is_empty() && values.len() <= 4);
        for (a, x) in values.iter().enumerate() {
            for y in &values[a + 1..] {
                assert_ne!(x, y);
            }
        }
    }
    assert_eq!(bucket_table_row(14).0, "additional_all_attributes");
    assert_eq!(bucket_table_row(8).0, bucket_table_row(59).0);
    let hashes: Vec<u64> = (0..549u64).collect();
    let by_index = bucket_mapping_from_hashes(&hashes);
    assert_eq!(by_index.get(&0), Some(&vec![StatBucket::StrengthPercent]));
    assert_eq!(by_index.len(), 549);
}

#[test]
fn bucket_totals_do_not_depend_on_order() {
    let mut mapping: AHashMap<u64, Vec<StatBucket>> = AHashMap::new();
    mapping.insert(1, vec![StatBucket::Life]);
    mapping.insert(2, vec![StatBucket::Life, StatBucket::Mana]);
    let mut first = Poe2Accumulator::default();
    first.global_stats.add(key(1), 7);
    first.global_stats.add(key(2), -2);
    first.equipment_stats.add(EquipSlot::Boots, key(1), 4);
    let mut second = Poe2Accumulator::default();
    second.equipment_stats.add(EquipSlot::Boots, key(1), 4);
    second.global_stats.add(key(2), -2);
    second.global_stats.add(key(1), 7);
    let a = Poe2Finalizer.finalize_by_bucket(&first, &mapping);
    let b = Poe2Finalizer.finalize_by_bucket(&second, &mapping);
    assert_eq!(a.get(StatBucket::Life), Some(9));
    assert_eq!(b.get(StatBucket::Life), Some(9));
    assert_eq!(a.get(StatBucket::Mana), Some(-2));
    assert_eq!(b.get(StatBucket::Mana), Some(-2));
}

#[test]
fn checked_totals_refuse_overflow() {
    let mut mapping: AHashMap<u64, Vec<StatBucket>> = AHashMap::new();
    mapping.insert(1, vec![StatBucket::Life]);
    mapping.insert(2, vec![StatBucket::Life, StatBucket::Mana]);
    let mut acc = Poe2Accumulator::default();
    acc.global_stats.add(key(1), 7);
    acc.equipment_stats.add(EquipSlot::Gloves, key(2), 5);
    let totals = Poe2Finalizer.finalize_by_bucket_checked(&acc, &mapping).unwrap();
    assert_eq!(totals.get(StatBucket::Life), Some(12));
    assert_eq!(totals.get(StatBucket::Mana), Some(5));
    let mut big = Poe2Accumulator::default();
    big.global_stats.add(key(1), i64::MAX);
    assert!(Poe2Finalizer.finalize_by_bucket_checked(&big, &mapping).is_some());
    big.equipment_stats.add(EquipSlot::Gloves, key(2), 1);
    assert!(Poe2Finalizer.finalize_by_bucket_checked(&big, &mapping).is_none());
    let mut t = exile_poe2::calculation::finalizer::BucketTotals::new();
    assert!(t.try_add(StatBucket::Ward, i64::MIN));
    assert!(!t.try_add(StatBucket::Ward, -1));
    assert_eq!(t.get(StatBucket::Ward), Some(i64::MIN));
}
