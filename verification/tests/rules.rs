use exile_poe2::error::rule_e::RuleError;
use exile_poe2::item::affix_state::{ItemAffixState, MULTIMOD_RUNE_MOD_ID};
use exile_poe2::item::definition::{mods_are_well_formed, Poe2DefinitionRegistry};
use exile_poe2::item::instance::{ItemInstance, ModifierInstanceId, StoredModifier};
use exile_poe2::item::item_rule_validator::Poe2ItemRuleValidator;
use exile_poe2::item::modifier_definition_provider::Poe2DefinitionRegistryError;
use exile_poe2::item::modifier_validator::{Poe2ModifierValidationError, Poe2ModifierValidator};
use exile_poe2::item::state::{
    hash_string, EquipSlot, ItemRarity, ModOrigin, Poe2ItemState, Poe2ModifierId, Poe2ModifierKind,
    Poe2ModifierInstance, Poe2StatModifierKind,
};
use exile_poe2::poe2_condition::Poe2Condition;
use exile_poe2::repoe_parse::{
    Domain, GenerationType, ItemClass, Properties, RawMod, RawModsFile, StatRoll, TagWeight,
};


fn raw_mod(
    mod_type: &str,
    generation_type: GenerationType,
    level: u16,
    stats: &[(&str, i64, i64)],
    groups: &[&str],
    weights: &[(&str, u32)],
) -> RawMod {
    RawMod {
        adds_tags: vec![],
        domain: Domain::Item,
        generation_type,
        generation_weights: vec![],
        grants_effects: vec![],
        groups: groups.iter().map(|g| g.to_string()).collect(),
        implicit_tags: vec![],
        is_essence_only: false,
        name: mod_type.to_string(),
        required_level: level,
        spawn_weights: weights
            .iter()
            .map(|(t, w)| TagWeight { tag: t.to_string(), weight: *w })
            .collect(),
        stats: stats
            .iter()
            .map(|(id, min, max)| StatRoll { id: id.to_string(), min: *min, max: *max })
            .collect(),
        text: None,
        mod_type: mod_type.to_string(),
    }
}

fn database() -> RawModsFile {
    RawModsFile::from_entries(vec![
        (
            "Life1".to_string(),
            raw_mod(
                "IncreasedLife",
                GenerationType::Prefix,
                1,
                &[("base_maximum_life", 10, 19)],
                &["IncreasedLife"],
                &[("body_armour", 1000), ("default", 0)],
            ),
        ),
        (
            "Life2".to_string(),
            raw_mod(
                "IncreasedLife",
                GenerationType::Prefix,
                30,
                &[("base_maximum_life", 40, 49)],
                &["IncreasedLife"],
                &[("body_armour", 1000)],
            ),
        ),
        (
            "Fire1".to_string(),
            raw_mod(
                "FireResistance",
                GenerationType::Suffix,
                1,
                &[("base_fire_damage_resistance_%", 6, 10)],
                &["FireResistance"],
                &[("default", 1000)],
            ),
        ),
        (
            "MovingSpeed".to_string(),
            raw_mod(
                "AttackSpeed",
                GenerationType::Suffix,
                1,
                &[("attack_speed_+%", 1, 2), ("attack_speed_+%_while_moving", 5, 9)],
                &["AttackSpeed"],
                &[("default", 1000)],
            ),
        ),
        (
            MULTIMOD_RUNE_MOD_ID.to_string(),
            raw_mod("Rune", GenerationType::Unknown, 1, &[], &["Rune"], &[("default", 1000)]),
        ),
        (
            "Crafted1".to_string(),
            raw_mod("Crafted", GenerationType::Suffix, 1, &[], &["CraftA"], &[("default", 1000)]),
        ),
        (
            "Crafted2".to_string(),
            raw_mod("Crafted", GenerationType::Prefix, 1, &[], &["CraftB"], &[("default", 1000)]),
        ),
    ])
}

fn state(level: u16, tags: &[&str], rarity: ItemRarity) -> Poe2ItemState {
    let tags: ahash::HashSet<u64> = tags.iter().map(|t| hash_string(t)).collect();
    Poe2ItemState {
        item_level: level,
        quality: 20,
        rarity,
        is_corrupted: false,
        base_name: "Sinister Quarterstaff".to_string(),
        drop_level: 1,
        properties: Properties::default(),
        requirements: None,
        tags,
        equip_slot: EquipSlot::MainHand,
    }
}

fn id(key: &str) -> Poe2ModifierId {
    Poe2ModifierId(hash_string(key))
}

fn stored(n: u64, key: &str, rolls: Vec<i64>, origin: ModOrigin) -> StoredModifier {
    StoredModifier {
        id: ModifierInstanceId(n),
        definition_id: id(key),
        modifier: Poe2ModifierInstance { rolls, origin },
    }
}

#[test]
fn registry_builds_definitions_and_dictionary() {
    let db = database();
    assert!(mods_are_well_formed(&db));
    let registry = Poe2DefinitionRegistry::new(db);
    assert_eq!(registry.definitions.len(), 7);
    let life = registry.definition(&id("Life1")).unwrap();
    assert_eq!(life.id, id("Life1"));
    assert_eq!(life.required_level, 1);
    assert_eq!(life.stats.len(), 1);
    assert_eq!(life.stats[0].id_hash, hash_string("base_maximum_life"));
    assert_eq!(life.stats[0].min, 10);
    assert_eq!(life.stats[0].max, 19);
    assert!(!life.stats[0].is_local);
    assert_eq!(life.groups, vec![hash_string("IncreasedLife")]);
    assert_eq!(life.spawn_weights.len(), 2);
    assert_eq!(life.spawn_weights[0].tag, hash_string("body_armour"));
    assert_eq!(life.spawn_weights[0].weight, 1000);
    assert_eq!(life.generation_type, GenerationType::Prefix);
    assert_eq!(life.kind, Poe2ModifierKind::Other(hash_string("IncreasedLife")));
    assert_eq!(registry.lookup_string(hash_string("Life1")).map(|s| s.as_str()), Some("Life1"));
    assert_eq!(
        registry.lookup_string(hash_string("IncreasedLife")).map(|s| s.as_str()),
        Some("IncreasedLife")
    );
    assert_eq!(registry.lookup_string(hash_string("nothing at all")), None);
}

#[test]
fn registry_splits_conditional_stats() {
    let registry = Poe2DefinitionRegistry::new(database());
    let d = registry.definition(&id("MovingSpeed")).unwrap();
    assert_eq!(d.stats[0].kind, Poe2StatModifierKind::Plain);
    assert_eq!(d.stats[1].kind, Poe2StatModifierKind::Conditional(Poe2Condition::Moving));
    assert_eq!(d.stats[1].id_hash, hash_string("attack_speed_+%"));
    assert_eq!(
        registry
            .lookup_string(hash_string("attack_speed_+%_while_moving"))
            .map(|s| s.as_str()),
        Some("attack_speed_+%_while_moving")
    );
}

#[test]
fn unknown_definition_lookup_fails() {
    let registry = Poe2DefinitionRegistry::new(database());
    let missing = Poe2ModifierId(hash_string("NoSuchMod"));
    assert_eq!(
        registry.definition(&missing).err(),
        Some(Poe2DefinitionRegistryError::DefinitionNotFound { id: missing })
    );
}

#[test]
fn malformed_suffixes_are_reported() {
    let db = RawModsFile::from_entries(vec![(
        "Bad".to_string(),
        raw_mod(
            "X",
            GenerationType::Prefix,
            1,
            &[("damage_+%", 1, 2), ("damage_+%_while_dancing", 1, 2)],
            &[],
            &[],
        ),
    )]);
    assert!(!mods_are_well_formed(&db));
}

#[test]
fn affix_limits() {
    let mut s = ItemAffixState::default();
    assert_eq!(s.validate().err(), None);
    s.prefixes = 3;
    s.suffixes = 3;
    assert_eq!(s.validate().err(), None);
    s.prefixes = 4;
    assert_eq!(s.validate().err(), Some(RuleError::AffixLimitReached(GenerationType::Prefix)));
    s.prefixes = 2;
    s.suffixes = 4;
    assert_eq!(s.validate().err(), Some(RuleError::AffixLimitReached(GenerationType::Suffix)));
    s.suffixes = 1;
    s.fractured_mods = 2;
    assert_eq!(s.validate().err(), Some(RuleError::FracturedModLimitReached));
    s.fractured_mods = 1;
    s.crafted_mods = 2;
    assert_eq!(s.validate().err(), Some(RuleError::CraftedModLimitReached));
    s.has_multimod_rune = true;
    assert_eq!(s.validate().err(), None);
    s.crafted_mods = 3;
    assert_eq!(s.validate().err(), Some(RuleError::CraftedModLimitReached));
}

#[test]
fn affix_analysis_counts_by_definition_and_origin() {
    let registry = Poe2DefinitionRegistry::new(database());
    let mut item = ItemInstance::new(ItemClass::BodyArmour, state(80, &["body_armour"], ItemRarity::Rare));
    item.modifiers.push(stored(1, "Life1", vec![12], ModOrigin::Dropped));
    item.modifiers.push(stored(2, "Fire1", vec![7], ModOrigin::Fractured));
    item.modifiers.push(stored(3, "Crafted1", vec![], ModOrigin::Crafted));
    item.modifiers.push(stored(4, MULTIMOD_RUNE_MOD_ID, vec![], ModOrigin::Rune));
    let a = ItemAffixState::analyze(&item, &registry).ok().unwrap();
    assert_eq!(a.prefixes, 1);
    assert_eq!(a.suffixes, 2);
    assert_eq!(a.crafted_mods, 1);
    assert_eq!(a.fractured_mods, 1);
    assert_eq!(a.removable_mods, 0);
    assert!(a.has_multimod_rune);
    item.modifiers.push(stored(5, "Gone", vec![], ModOrigin::Dropped));
    assert_eq!(
        ItemAffixState::analyze(&item, &registry).err(),
        Some(Poe2DefinitionRegistryError::DefinitionNotFound { id: id("Gone") })
    );
}

#[test]
fn rune_must_be_the_multimod_rune() {
    let registry = Poe2DefinitionRegistry::new(database());
    let mut item = ItemInstance::new(ItemClass::BodyArmour, state(80, &[], ItemRarity::Rare));
    item.modifiers.push(stored(1, "Crafted1", vec![], ModOrigin::Rune));
    let a = ItemAffixState::analyze(&item, &registry).ok().unwrap();
    assert!(!a.has_multimod_rune);
}

#[test]
fn modifier_validation_errors() {
    let registry = Poe2DefinitionRegistry::new(database());
    let life2 = registry.definition(&id("Life2")).unwrap();
    let v = Poe2ModifierValidator;
    let item = ItemInstance::new(ItemClass::BodyArmour, state(80, &["body_armour"], ItemRarity::Rare));
    let roll = |r: Vec<i64>| Poe2ModifierInstance { rolls: r, origin: ModOrigin::Dropped };
    assert_eq!(v.validate_modifier(&item, life2, &roll(vec![45])), Ok(()));
    assert_eq!(
        v.validate_modifier(&item, life2, &roll(vec![50])),
        Err(Poe2ModifierValidationError::RollOutsideAllowedRange { minimum: 40, maximum: 49, actual: 50 })
    );
    assert_eq!(
        v.validate_modifier(&item, life2, &roll(vec![45, 1])),
        Err(Poe2ModifierValidationError::MismatchedStatsCount)
    );
    let low = ItemInstance::new(ItemClass::BodyArmour, state(20, &["body_armour"], ItemRarity::Rare));
    assert_eq!(
        v.validate_modifier(&low, life2, &roll(vec![45])),
        Err(Poe2ModifierValidationError::ItemLevelTooLow { required: 30, actual: 20 })
    );
    let other = ItemInstance::new(ItemClass::Ring, state(80, &["ring"], ItemRarity::Rare));
    assert_eq!(
        v.validate_modifier(&other, life2, &roll(vec![45])),
        Err(Poe2ModifierValidationError::MismatchedBase)
    );
    let life1 = registry.definition(&id("Life1")).unwrap();
    let zero_weight = ItemInstance::new(ItemClass::Ring, state(80, &["default"], ItemRarity::Rare));
    assert_eq!(
        v.validate_modifier(&zero_weight, life1, &roll(vec![12])),
        Err(Poe2ModifierValidationError::MismatchedBase)
    );
}

#[test]
fn item_rules() {
    let registry = Poe2DefinitionRegistry::new(database());
    let rules = Poe2ItemRuleValidator { provider: &registry };
    let mut item = ItemInstance::new(ItemClass::BodyArmour, state(80, &["body_armour", "default"], ItemRarity::Rare));
    item.modifiers.push(stored(1, "Life1", vec![12], ModOrigin::Dropped));
    assert_eq!(rules.validate_item(&item), Ok(()));
    let life2 = registry.definition(&id("Life2")).unwrap();
    let fire = registry.definition(&id("Fire1")).unwrap();
    let m = Poe2ModifierInstance { rolls: vec![45], origin: ModOrigin::Dropped };
    assert_eq!(rules.check_duplicate_modifier(&item, None, life2), Err(RuleError::SameMod));
    assert_eq!(rules.check_duplicate_modifier(&item, Some(ModifierInstanceId(1)), life2), Ok(()));
    assert_eq!(rules.validate_add_modifier(&item, life2, &m), Err(RuleError::SameMod));
    assert_eq!(rules.validate_add_modifier(&item, fire, &m), Ok(()));
    assert_eq!(rules.validate_replace_modifier(&item, ModifierInstanceId(1), life2, &m), Ok(()));
    assert_eq!(rules.validate_remove_modifier(&item, ModifierInstanceId(1), &m), Ok(()));
    assert_eq!(
        rules.validate_remove_modifier(&item, ModifierInstanceId(9), &m),
        Err(RuleError::ModNotFound)
    );
    item.modifiers.push(stored(2, "Fire1", vec![70], ModOrigin::Dropped));
    assert_eq!(
        rules.validate_item(&item),
        Err(RuleError::ValidationError(Poe2ModifierValidationError::RollOutsideAllowedRange {
            minimum: 6,
            maximum: 10,
            actual: 70
        }))
    );
    item.modifiers.push(stored(3, "Unknown", vec![], ModOrigin::Dropped));
    assert_eq!(
        rules.validate_add_modifier(&item, fire, &m),
        Err(RuleError::SameMod)
    );
    assert_eq!(
        rules.check_duplicate_modifier(&item, None, registry.definition(&id("Crafted1")).unwrap()),
        Err(RuleError::ModNotFound)
    );
}

#[test]
fn add_checks_affix_limits_of_the_item_as_it_stands() {
    let registry = Poe2DefinitionRegistry::new(database());
    let rules = Poe2ItemRuleValidator { provider: &registry };
    let mut item = ItemInstance::new(ItemClass::BodyArmour, state(80, &["default"], ItemRarity::Rare));
    item.modifiers.push(stored(1, "Crafted1", vec![], ModOrigin::Crafted));
    item.modifiers.push(stored(2, "Crafted2", vec![], ModOrigin::Crafted));
    let fire = registry.definition(&id("Fire1")).unwrap();
    let m = Poe2ModifierInstance { rolls: vec![7], origin: ModOrigin::Dropped };
    assert_eq!(rules.validate_add_modifier(&item, fire, &m), Err(RuleError::CraftedModLimitReached));
    item.modifiers.push(stored(3, MULTIMOD_RUNE_MOD_ID, vec![], ModOrigin::Rune));
    assert_eq!(rules.validate_add_modifier(&item, fire, &m), Ok(()));
}

#[test]
fn replacing_state_keeps_rarity() {
    let registry = Poe2DefinitionRegistry::new(database());
    let rules = Poe2ItemRuleValidator { provider: &registry };
    let mut item = ItemInstance::new(ItemClass::BodyArmour, state(80, &[], ItemRarity::Rare));
    item.modifiers.push(stored(1, "Life1", vec![99], ModOrigin::Dropped));
    assert_eq!(rules.validate_replace_state(&item, &state(1, &[], ItemRarity::Rare)), Ok(()));
    assert_eq!(
        rules.validate_replace_state(&item, &state(80, &[], ItemRarity::Magic)),
        Err(RuleError::InvalidItemRarity)
    );
}

#[test]
fn item_accessors() {
    let mut item = ItemInstance::new(ItemClass::Warstaff, state(83, &[], ItemRarity::Rare));
    assert_eq!(*item.base(), ItemClass::Warstaff);
    assert_eq!(item.state().item_level, 83);
    assert!(item.modifiers().is_empty());
    item.modifiers.push(stored(7, "Life1", vec![1, 2], ModOrigin::Crafted));
    assert_eq!(item.modifier(ModifierInstanceId(7)).map(|m| m.rolls.clone()), Some(vec![1, 2]));
    assert!(item.modifier(ModifierInstanceId(8)).is_none());
}

#[test]
fn item_state_copies_keep_every_field() {
    let mut original = state(77, &["sword", "weapon", "two_hand"], ItemRarity::Magic);
    original.properties.attack_time = Some(1250);
    original.properties.description = Some("heavy".to_string());
    let copy = original.clone();
    assert_eq!(copy.item_level, 77);
    assert_eq!(copy.rarity, ItemRarity::Magic);
    assert_eq!(copy.base_name, "Sinister Quarterstaff");
    assert_eq!(copy.tags, original.tags);
    assert_eq!(copy.tags.len(), 3);
    assert_eq!(copy.properties.attack_time, Some(1250));
    assert_eq!(copy.properties.description, Some("heavy".to_string()));
    assert_eq!(copy.equip_slot, EquipSlot::MainHand);
}

#[test]
fn later_modifiers_replace_earlier_ones_under_one_key() {
    let first = raw_mod("A", GenerationType::Prefix, 1, &[("base_maximum_life", 1, 2)], &[], &[]);
    let second = raw_mod("B", GenerationType::Suffix, 5, &[("base_maximum_mana", 3, 4)], &[], &[]);
    let other = raw_mod("C", GenerationType::Prefix, 9, &[], &[], &[]);
    let mut db = RawModsFile::from_entries(vec![
        ("K".to_string(), first),
        ("L".to_string(), other),
        ("K".to_string(), second),
    ]);
    assert_eq!(db.len(), 2);
    assert_eq!(db.entry(0).0, "K");
    assert_eq!(db.entry(0).1.mod_type, "B");
    assert_eq!(db.entry(1).0, "L");
    db.insert("M".to_string(), raw_mod("D", GenerationType::Suffix, 2, &[], &[], &[]));
    assert_eq!(db.len(), 3);
    assert_eq!(db.entry(2).0, "M");
    assert_eq!(RawModsFile::new().len(), 0);
}
