//! The data model of the item and modifier database.

use vstd::prelude::*;

verus! {

/// A minimum and maximum value pair.
#[derive(Debug, Clone, Copy, PartialEq, Eq, Structural)]
pub struct MinMax {
    pub min: u32,
    pub max: u32,
}

/// The base properties of an item.
///
/// `attack_time` is the attack duration in milliseconds and
/// `critical_strike_chance` is the chance in hundredths of a percent, both as
/// the data states them.
#[derive(Debug)]
pub struct Properties {
    pub armour: Option<MinMax>,
    pub energy_shield: Option<MinMax>,
    pub evasion: Option<MinMax>,
    pub ward: Option<MinMax>,
    pub movement_speed: Option<i32>,
    pub block: Option<u32>,
    pub description: Option<String>,
    pub directions: Option<String>,
    pub stack_size: Option<u32>,
    pub stack_size_currency_tab: Option<u32>,
    pub full_stack_turns_into: Option<String>,
    pub charges_max: Option<u32>,
    pub charges_per_use: Option<u32>,
    pub duration: Option<u32>,
    pub life_per_use: Option<u32>,
    pub mana_per_use: Option<u32>,
    pub attack_time: Option<u32>,
    pub critical_strike_chance: Option<u32>,
    pub physical_damage_max: Option<u32>,
    pub physical_damage_min: Option<u32>,
    pub range: Option<u32>,
    pub mana_burn_ms: Option<u32>,
    pub cooldown_ms: Option<u32>,
    pub monster_id: Option<String>,
    pub monster_ability_text: Option<String>,
    pub monster_category: Option<String>,
}

/// No properties at all.
pub open spec fn no_properties() -> Properties {
    Properties {
            armour: None,
            energy_shield: None,
            evasion: None,
            ward: None,
            movement_speed: None,
            block: None,
            description: None,
            directions: None,
            stack_size: None,
            stack_size_currency_tab: None,
            full_stack_turns_into: None,
            charges_max: None,
            charges_per_use: None,
            duration: None,
            life_per_use: None,
            mana_per_use: None,
            attack_time: None,
            critical_strike_chance: None,
            physical_damage_max: None,
            physical_damage_min: None,
            range: None,
            mana_burn_ms: None,
            cooldown_ms: None,
            monster_id: None,
            monster_ability_text: None,
            monster_category: None,
    }
}

impl Default for Properties {
    /// No properties at all.
    fn default() -> (p: Properties)
        ensures
            p == no_properties(),
    {
        Properties {
            armour: None,
            energy_shield: None,
            evasion: None,
            ward: None,
            movement_speed: None,
            block: None,
            description: None,
            directions: None,
            stack_size: None,
            stack_size_currency_tab: None,
            full_stack_turns_into: None,
            charges_max: None,
            charges_per_use: None,
            duration: None,
            life_per_use: None,
            mana_per_use: None,
            attack_time: None,
            critical_strike_chance: None,
            physical_damage_max: None,
            physical_damage_min: None,
            range: None,
            mana_burn_ms: None,
            cooldown_ms: None,
            monster_id: None,
            monster_ability_text: None,
            monster_category: None,
        }
    }
}

/// A copy of an optional text.
fn copy_text(s: &Option<String>) -> (r: Option<String>)
    ensures
        r == *s,
{
    match s {
        Some(t) => Some(t.clone()),
        None => None,
    }
}

impl Clone for Properties {
    /// A copy with the same values.
    fn clone(&self) -> (r: Self)
        ensures
            r == *self,
    {
        Properties {
            armour: self.armour,
            energy_shield: self.energy_shield,
            evasion: self.evasion,
            ward: self.ward,
            movement_speed: self.movement_speed,
            block: self.block,
            description: copy_text(&self.description),
            directions: copy_text(&self.directions),
            stack_size: self.stack_size,
            stack_size_currency_tab: self.stack_size_currency_tab,
            full_stack_turns_into: copy_text(&self.full_stack_turns_into),
            charges_max: self.charges_max,
            charges_per_use: self.charges_per_use,
            duration: self.duration,
            life_per_use: self.life_per_use,
            mana_per_use: self.mana_per_use,
            attack_time: self.attack_time,
            critical_strike_chance: self.critical_strike_chance,
            physical_damage_max: self.physical_damage_max,
            physical_damage_min: self.physical_damage_min,
            range: self.range,
            mana_burn_ms: self.mana_burn_ms,
            cooldown_ms: self.cooldown_ms,
            monster_id: copy_text(&self.monster_id),
            monster_ability_text: copy_text(&self.monster_ability_text),
            monster_category: copy_text(&self.monster_category),
        }
    }
}

/// Attribute and level requirements of an item.
#[derive(Debug, Clone, Copy, Default, PartialEq, Eq, Structural)]
pub struct Requirements {
    pub strength: u32,
    pub dexterity: u32,
    pub intelligence: u32,
    pub level: u32,
}

/// The art identity of an item.
#[derive(Debug, Clone)]
pub struct VisualIdentity {
    pub id: String,
    pub dds_file: String,
}

/// The domain an item base belongs to.
#[derive(Debug, Clone, Copy, PartialEq, Eq, Structural)]
pub enum ItemDomain {
    Undefined,
    Item,
    Flask,
    Misc,
    Area,
    Watchstone,
    HeistNpc,
    HeistArea,
    MapDevice,
    VaultKey,
    IncursionLimb,
    Tablet,
    SanctumRelic,
    SanctifiedRelic,
    MemoryLine,
    UltimatumKey,
    Sentinel,
    Unknown,
}

/// An item base of the database.
#[derive(Debug, Clone)]
pub struct Item {
    pub drop_level: u16,
    pub debug: String,
    pub name: String,
    pub domain: ItemDomain,
    pub inherits_from: String,
    pub inventory_height: u8,
    pub inventory_width: u8,
    pub properties: Properties,
    pub requirements: Option<Requirements>,
    pub skills_granted: Option<Vec<String>>,
    pub tags: Vec<String>,
    pub implicits: Vec<String>,
    pub visual_identity: VisualIdentity,
}

/// A modifier as the database describes it.
#[derive(Debug, Clone)]
pub struct RawMod {
    pub adds_tags: Vec<String>,
    pub domain: Domain,
    pub generation_type: GenerationType,
    pub generation_weights: Vec<TagWeight>,
    pub grants_effects: Vec<GrantedEffectRef>,
    pub groups: Vec<String>,
    pub implicit_tags: Vec<String>,
    pub is_essence_only: bool,
    pub name: String,
    pub required_level: u16,
    pub spawn_weights: Vec<TagWeight>,
    pub stats: Vec<StatRoll>,
    pub text: Option<String>,
    pub mod_type: String,
}

/// A spawn or generation weight for one tag.
#[derive(Debug, Clone)]
pub struct TagWeight {
    pub tag: String,
    pub weight: u32,
}

/// A spawn weight whose tag is given by its hash.
#[derive(Debug, Clone, Copy, PartialEq, Eq, Structural)]
pub struct HashedTagWeight {
    pub tag: u64,
    pub weight: u32,
}

/// The roll range of one stat of a modifier.
#[derive(Debug, Clone)]
pub struct StatRoll {
    pub id: String,
    pub min: i64,
    pub max: i64,
}

/// A granted effect and its level.
#[derive(Debug, Clone)]
pub struct GrantedEffectRef {
    pub granted_effect_id: String,
    pub level: u32,
}

/// No key occurs twice among the entries.
pub open spec fn mod_keys_distinct(es: Seq<(String, RawMod)>) -> bool {
    forall|a: int, b: int| 0 <= a < b < es.len() ==> #[trigger] es[a].0@ != #[trigger] es[b].0@
}

/// Some entry has the key `key`.
pub open spec fn has_mod_key(es: Seq<(String, RawMod)>, key: Seq<char>) -> bool {
    exists|i: int| 0 <= i < es.len() && #[trigger] es[i].0@ == key
}

/// The entries after recording `raw` under `key`: it replaces the entry
/// with that key, if there is one, and comes last otherwise.
pub open spec fn with_mod(es: Seq<(String, RawMod)>, key: String, raw: RawMod) -> Seq<(String, RawMod)> {
    if has_mod_key(es, key@) {
        let i = choose|i: int| 0 <= i < es.len() && #[trigger] es[i].0@ == key@;
        es.update(i, (key, raw))
    } else {
        es.push((key, raw))
    }
}

/// The entries after recording the first `n` pairs of `ps` in order.
pub open spec fn with_mods(ps: Seq<(String, RawMod)>, n: int) -> Seq<(String, RawMod)>
    decreases n,
{
    if n <= 0 {
        Seq::empty()
    } else {
        with_mod(with_mods(ps, n - 1), ps[n - 1].0, ps[n - 1].1)
    }
}

/// Every modifier of the database, each under a key of its own.
#[derive(Debug)]
pub struct RawModsFile {
    entries: Vec<(String, RawMod)>,
}

impl View for RawModsFile {
    type V = Seq<(String, RawMod)>;

    closed spec fn view(&self) -> Seq<(String, RawMod)> {
        self.entries@
    }
}

impl RawModsFile {
    #[verifier::type_invariant]
    closed spec fn keys_distinct(self) -> bool {
        mod_keys_distinct(self.entries@)
    }

    /// No modifiers.
    pub fn new() -> (r: Self)
        ensures
            r@ == Seq::<(String, RawMod)>::empty(),
    {
        RawModsFile { entries: Vec::new() }
    }

    /// The number of modifiers; no key occurs twice.
    pub fn len(&self) -> (n: usize)
        ensures
            n == self@.len(),
            mod_keys_distinct(self@),
    {
        proof {
            use_type_invariant(self);
        }
        self.entries.len()
    }

    /// The key and modifier at position `i`.
    pub fn entry(&self, i: usize) -> (e: &(String, RawMod))
        requires
            i < self@.len(),
        ensures
            *e == self@[i as int],
    {
        &self.entries[i]
    }

    /// Records `raw` under `key`, replacing the modifier under that key.
    pub fn insert(&mut self, key: String, raw: RawMod)
        ensures
            final(self)@ == with_mod(old(self)@, key, raw),
    {
        proof {
            use_type_invariant(&*self);
        }
        let ghost es = self.entries@;
        let mut i: usize = 0;
        while i < self.entries.len()
            invariant
                self.entries@ == es,
                es == old(self)@,
                mod_keys_distinct(es),
                i <= es.len(),
                forall|k: int| 0 <= k < i ==> es[k].0@ != key@,
            decreases es.len() - i,
        {
            if self.entries[i].0 == key {
                proof {
                    assert(es[i as int].0@ == key@);
                    assert(has_mod_key(es, key@));
                    let c = choose|c: int| 0 <= c < es.len() && #[trigger] es[c].0@ == key@;
                    assert(c == i as int) by {
                        if c < i as int {
                            assert(es[c].0@ != key@);
                        } else if c > i as int {
                            assert(es[i as int].0@ != es[c].0@);
                        }
                    }
                    assert(with_mod(es, key, raw) == es.update(i as int, (key, raw)));
                }
                let mut entries: Vec<(String, RawMod)> = Vec::new();
                std::mem::swap(&mut entries, &mut self.entries);
                let ghost new_entry = (key, raw);
                entries.set(i, (key, raw));
                assert(entries@ == es.update(i as int, new_entry));
                self.entries = entries;
                return;
            }
            i += 1;
        }
        assert(!has_mod_key(es, key@));
        let mut entries: Vec<(String, RawMod)> = Vec::new();
        std::mem::swap(&mut entries, &mut self.entries);
        entries.push((key, raw));
        self.entries = entries;
    }

    /// Records each pair in order; a later pair replaces an earlier one with
    /// the same key.
    pub fn from_entries(pairs: Vec<(String, RawMod)>) -> (r: Self)
        ensures
            r@ == with_mods(pairs@, pairs@.len() as int),
    {
        let mut r = RawModsFile::new();
        let ghost ps = pairs@;
        let total = pairs.len();
        let mut rest = pairs;
        let mut reversed: Vec<(String, RawMod)> = Vec::new();
        while rest.len() > 0
            invariant
                rest@.len() + reversed@.len() == ps.len(),
                forall|k: int| 0 <= k < rest@.len() ==> rest@[k] == ps[k],
                forall|k: int| 0 <= k < reversed@.len() ==> reversed@[k] == ps[ps.len() - 1 - k],
            decreases rest@.len(),
        {
            let p = rest.pop().unwrap();
            reversed.push(p);
        }
        let mut n: usize = 0;
        while reversed.len() > 0
            invariant
                n + reversed@.len() == ps.len(),
                ps.len() == total,
                forall|k: int| 0 <= k < reversed@.len() ==> reversed@[k] == ps[ps.len() - 1 - k],
                r@ == with_mods(ps, n as int),
            decreases reversed@.len(),
        {
            let (key, raw) = reversed.pop().unwrap();
            r.insert(key, raw);
            n += 1;
        }
        r
    }
}

/// How a modifier is generated on an item.
#[derive(Debug, Clone, Copy, PartialEq, Eq, Structural)]
pub enum GenerationType {
    Prefix,
    Suffix,
    Corrupted,
    Unique,
    Unknown,
}

/// The domain a modifier belongs to.
#[derive(Debug, Clone, Copy, PartialEq, Eq, Structural)]
pub enum Domain {
    Item,
    Flask,
    Misc,
    Crafted,
    Monster,
    Area,
    HeistNpc,
    Desecrated,
    Chest,
    HeistArea,
    Strongbox,
    SanctumRelic,
    DelveArea,
    Atlas,
    Tablet,
    HeistTrinket,
    SynthesisA,
    MapDevice,
    SynthesisGlobals,
    ExpeditionRelic,
    Sentinel,
    SynthesisBonus,
    MemoryLine,
    UltimatumKey,
    Veiled,
    VaultKey,
    IncursionLimb,
    Leaguestone,
    Dummy,
    AfflictionJewel,
    Unknown,
}

/// The class of an item base.
#[derive(Debug, Clone, Copy, PartialEq, Eq, Hash, Structural)]
pub enum ItemClass {
    ActiveSkillGem,
    Amulet,
    AtlasUpgradeItem,
    Belt,
    BodyArmour,
    Boots,
    Bow,
    Breachstone,
    BrequelFruit,
    Buckler,
    Claw,
    ConventionTreasure,
    Crossbow,
    Currency,
    Dagger,
    DelveSocketableCurrency,
    DelveStackableSocketableCurrency,
    DivinationCard,
    Expedition2Logbooks,
    ExpeditionLogbook,
    FishingRod,
    Flail,
    Focus,
    GiftBox,
    Gloves,
    HeistBlueprint,
    HeistContract,
    HeistEquipmentReward,
    HeistEquipmentTool,
    HeistEquipmentUtility,
    HeistEquipmentWeapon,
    Helmet,
    IncubatorStackable,
    IncursionArm,
    IncursionLeg,
    InstanceLocalItem,
    ItemisedSanctum,
    Jewel,
    LifeFlask,
    ManaFlask,
    MapItem,
    MapFragment,
    MemoryLine,
    MetaSkillGem,
    Omen,
    OneHandAxe,
    OneHandMace,
    OneHandSword,
    PinnacleKeyStackable,
    PinnacleKeyOld,
    QuestItem,
    Quiver,
    Relic,
    Ring,
    SanctumSpecialRelic,
    Sceptre,
    SentinelDrone,
    Shield,
    SkillGemToken,
    SoulCore,
    Spear,
    StackableCurrency,
    Staff,
    SupportSkillGem,
    Talisman,
    TowerAugmentation,
    TrapTool,
    TwoHandAxe,
    TwoHandMace,
    TwoHandSword,
    UltimatumKey,
    UncutReservationGemStackable,
    UncutReservationGemOld,
    UncutSkillGemStackable,
    UncutSkillGemOld,
    UncutSupportGemStackable,
    UncutSupportGemOld,
    UtilityFlask,
    VaultKey,
    Wand,
    Warstaff,
    Unknown,
}

impl Default for ItemClass {
    fn default() -> (c: ItemClass)
        ensures
            c == ItemClass::Unknown,
    {
        ItemClass::Unknown
    }
}

/// The display name of an item class.
pub open spec fn item_class_name(c: ItemClass) -> Seq<char> {
    match c {
        ItemClass::ActiveSkillGem => "Active Skill Gem"@,
        ItemClass::Amulet => "Amulet"@,
        ItemClass::AtlasUpgradeItem => "AtlasUpgradeItem"@,
        ItemClass::Belt => "Belt"@,
        ItemClass::BodyArmour => "Body Armour"@,
        ItemClass::Boots => "Boots"@,
        ItemClass::Bow => "Bow"@,
        ItemClass::Breachstone => "Breachstone"@,
        ItemClass::BrequelFruit => "BrequelFruit"@,
        ItemClass::Buckler => "Buckler"@,
        ItemClass::Claw => "Claw"@,
        ItemClass::ConventionTreasure => "ConventionTreasure"@,
        ItemClass::Crossbow => "Crossbow"@,
        ItemClass::Currency => "Currency"@,
        ItemClass::Dagger => "Dagger"@,
        ItemClass::DelveSocketableCurrency => "DelveSocketableCurrency"@,
        ItemClass::DelveStackableSocketableCurrency => "DelveStackableSocketableCurrency"@,
        ItemClass::DivinationCard => "DivinationCard"@,
        ItemClass::Expedition2Logbooks => "Expedition2Logbooks"@,
        ItemClass::ExpeditionLogbook => "ExpeditionLogbook"@,
        ItemClass::FishingRod => "FishingRod"@,
        ItemClass::Flail => "Flail"@,
        ItemClass::Focus => "Focus"@,
        ItemClass::GiftBox => "GiftBox"@,
        ItemClass::Gloves => "Gloves"@,
        ItemClass::HeistBlueprint => "HeistBlueprint"@,
        ItemClass::HeistContract => "HeistContract"@,
        ItemClass::HeistEquipmentReward => "HeistEquipmentReward"@,
        ItemClass::HeistEquipmentTool => "HeistEquipmentTool"@,
        ItemClass::HeistEquipmentUtility => "HeistEquipmentUtility"@,
        ItemClass::HeistEquipmentWeapon => "HeistEquipmentWeapon"@,
        ItemClass::Helmet => "Helmet"@,
        ItemClass::IncubatorStackable => "IncubatorStackable"@,
        ItemClass::IncursionArm => "IncursionArm"@,
        ItemClass::IncursionLeg => "IncursionLeg"@,
        ItemClass::InstanceLocalItem => "InstanceLocalItem"@,
        ItemClass::ItemisedSanctum => "ItemisedSanctum"@,
        ItemClass::Jewel => "Jewel"@,
        ItemClass::LifeFlask => "LifeFlask"@,
        ItemClass::ManaFlask => "ManaFlask"@,
        ItemClass::MapItem => "Map"@,
        ItemClass::MapFragment => "MapFragment"@,
        ItemClass::MemoryLine => "MemoryLine"@,
        ItemClass::MetaSkillGem => "Meta Skill Gem"@,
        ItemClass::Omen => "Omen"@,
        ItemClass::OneHandAxe => "One Hand Axe"@,
        ItemClass::OneHandMace => "One Hand Mace"@,
        ItemClass::OneHandSword => "One Hand Sword"@,
        ItemClass::PinnacleKeyStackable => "PinnacleKeyStackable"@,
        ItemClass::PinnacleKeyOld => "PinnacleKey_OLD"@,
        ItemClass::QuestItem => "QuestItem"@,
        ItemClass::Quiver => "Quiver"@,
        ItemClass::Relic => "Relic"@,
        ItemClass::Ring => "Ring"@,
        ItemClass::SanctumSpecialRelic => "SanctumSpecialRelic"@,
        ItemClass::Sceptre => "Sceptre"@,
        ItemClass::SentinelDrone => "SentinelDrone"@,
        ItemClass::Shield => "Shield"@,
        ItemClass::SkillGemToken => "SkillGemToken"@,
        ItemClass::SoulCore => "SoulCore"@,
        ItemClass::Spear => "Spear"@,
        ItemClass::StackableCurrency => "StackableCurrency"@,
        ItemClass::Staff => "Staff"@,
        ItemClass::SupportSkillGem => "Support Skill Gem"@,
        ItemClass::Talisman => "Talisman"@,
        ItemClass::TowerAugmentation => "TowerAugmentation"@,
        ItemClass::TrapTool => "TrapTool"@,
        ItemClass::TwoHandAxe => "Two Hand Axe"@,
        ItemClass::TwoHandMace => "Two Hand Mace"@,
        ItemClass::TwoHandSword => "Two Hand Sword"@,
        ItemClass::UltimatumKey => "UltimatumKey"@,
        ItemClass::UncutReservationGemStackable => "UncutReservationGemStackable"@,
        ItemClass::UncutReservationGemOld => "UncutReservationGem_OLD"@,
        ItemClass::UncutSkillGemStackable => "UncutSkillGemStackable"@,
        ItemClass::UncutSkillGemOld => "UncutSkillGem_OLD"@,
        ItemClass::UncutSupportGemStackable => "UncutSupportGemStackable"@,
        ItemClass::UncutSupportGemOld => "UncutSupportGem_OLD"@,
        ItemClass::UtilityFlask => "UtilityFlask"@,
        ItemClass::VaultKey => "VaultKey"@,
        ItemClass::Wand => "Wand"@,
        ItemClass::Warstaff => "Warstaff"@,
        ItemClass::Unknown => "Unknown"@,
    }
}


/// The item class with display name `s`, if any.
pub open spec fn class_named(s: Seq<char>) -> Option<ItemClass> {
    if s == "Active Skill Gem"@ {
        Some(ItemClass::ActiveSkillGem)
    } else if s == "Amulet"@ {
        Some(ItemClass::Amulet)
    } else if s == "AtlasUpgradeItem"@ {
        Some(ItemClass::AtlasUpgradeItem)
    } else if s == "Belt"@ {
        Some(ItemClass::Belt)
    } else if s == "Body Armour"@ {
        Some(ItemClass::BodyArmour)
    } else if s == "Boots"@ {
        Some(ItemClass::Boots)
    } else if s == "Bow"@ {
        Some(ItemClass::Bow)
    } else if s == "Breachstone"@ {
        Some(ItemClass::Breachstone)
    } else if s == "BrequelFruit"@ {
        Some(ItemClass::BrequelFruit)
    } else if s == "Buckler"@ {
        Some(ItemClass::Buckler)
    } else if s == "Claw"@ {
        Some(ItemClass::Claw)
    } else if s == "ConventionTreasure"@ {
        Some(ItemClass::ConventionTreasure)
    } else if s == "Crossbow"@ {
        Some(ItemClass::Crossbow)
    } else if s == "Currency"@ {
        Some(ItemClass::Currency)
    } else if s == "Dagger"@ {
        Some(ItemClass::Dagger)
    } else if s == "DelveSocketableCurrency"@ {
        Some(ItemClass::DelveSocketableCurrency)
    } else if s == "DelveStackableSocketableCurrency"@ {
        Some(ItemClass::DelveStackableSocketableCurrency)
    } else if s == "DivinationCard"@ {
        Some(ItemClass::DivinationCard)
    } else if s == "Expedition2Logbooks"@ {
        Some(ItemClass::Expedition2Logbooks)
    } else if s == "ExpeditionLogbook"@ {
        Some(ItemClass::ExpeditionLogbook)
    } else if s == "FishingRod"@ {
        Some(ItemClass::FishingRod)
    } else if s == "Flail"@ {
        Some(ItemClass::Flail)
    } else if s == "Focus"@ {
        Some(ItemClass::Focus)
    } else if s == "GiftBox"@ {
        Some(ItemClass::GiftBox)
    } else if s == "Gloves"@ {
        Some(ItemClass::Gloves)
    } else if s == "HeistBlueprint"@ {
        Some(ItemClass::HeistBlueprint)
    } else if s == "HeistContract"@ {
        Some(ItemClass::HeistContract)
    } else if s == "HeistEquipmentReward"@ {
        Some(ItemClass::HeistEquipmentReward)
    } else if s == "HeistEquipmentTool"@ {
        Some(ItemClass::HeistEquipmentTool)
    } else if s == "HeistEquipmentUtility"@ {
        Some(ItemClass::HeistEquipmentUtility)
    } else if s == "HeistEquipmentWeapon"@ {
        Some(ItemClass::HeistEquipmentWeapon)
    } else if s == "Helmet"@ {
        Some(ItemClass::Helmet)
    } else if s == "IncubatorStackable"@ {
        Some(ItemClass::IncubatorStackable)
    } else if s == "IncursionArm"@ {
        Some(ItemClass::IncursionArm)
    } else if s == "IncursionLeg"@ {
        Some(ItemClass::IncursionLeg)
    } else if s == "InstanceLocalItem"@ {
        Some(ItemClass::InstanceLocalItem)
    } else if s == "ItemisedSanctum"@ {
        Some(ItemClass::ItemisedSanctum)
    } else if s == "Jewel"@ {
        Some(ItemClass::Jewel)
    } else if s == "LifeFlask"@ {
        Some(ItemClass::LifeFlask)
    } else if s == "ManaFlask"@ {
        Some(ItemClass::ManaFlask)
    } else if s == "Map"@ {
        Some(ItemClass::MapItem)
    } else if s == "MapFragment"@ {
        Some(ItemClass::MapFragment)
    } else if s == "MemoryLine"@ {
        Some(ItemClass::MemoryLine)
    } else if s == "Meta Skill Gem"@ {
        Some(ItemClass::MetaSkillGem)
    } else if s == "Omen"@ {
        Some(ItemClass::Omen)
    } else if s == "One Hand Axe"@ {
        Some(ItemClass::OneHandAxe)
    } else if s == "One Hand Mace"@ {
        Some(ItemClass::OneHandMace)
    } else if s == "One Hand Sword"@ {
        Some(ItemClass::OneHandSword)
    } else if s == "PinnacleKeyStackable"@ {
        Some(ItemClass::PinnacleKeyStackable)
    } else if s == "PinnacleKey_OLD"@ {
        Some(ItemClass::PinnacleKeyOld)
    } else if s == "QuestItem"@ {
        Some(ItemClass::QuestItem)
    } else if s == "Quiver"@ {
        Some(ItemClass::Quiver)
    } else if s == "Relic"@ {
        Some(ItemClass::Relic)
    } else if s == "Ring"@ {
        Some(ItemClass::Ring)
    } else if s == "SanctumSpecialRelic"@ {
        Some(ItemClass::SanctumSpecialRelic)
    } else if s == "Sceptre"@ {
        Some(ItemClass::Sceptre)
    } else if s == "SentinelDrone"@ {
        Some(ItemClass::SentinelDrone)
    } else if s == "Shield"@ {
        Some(ItemClass::Shield)
    } else if s == "SkillGemToken"@ {
        Some(ItemClass::SkillGemToken)
    } else if s == "SoulCore"@ {
        Some(ItemClass::SoulCore)
    } else if s == "Spear"@ {
        Some(ItemClass::Spear)
    } else if s == "StackableCurrency"@ {
        Some(ItemClass::StackableCurrency)
    } else if s == "Staff"@ {
        Some(ItemClass::Staff)
    } else if s == "Support Skill Gem"@ {
        Some(ItemClass::SupportSkillGem)
    } else if s == "Talisman"@ {
        Some(ItemClass::Talisman)
    } else if s == "TowerAugmentation"@ {
        Some(ItemClass::TowerAugmentation)
    } else if s == "TrapTool"@ {
        Some(ItemClass::TrapTool)
    } else if s == "Two Hand Axe"@ {
        Some(ItemClass::TwoHandAxe)
    } else if s == "Two Hand Mace"@ {
        Some(ItemClass::TwoHandMace)
    } else if s == "Two Hand Sword"@ {
        Some(ItemClass::TwoHandSword)
    } else if s == "UltimatumKey"@ {
        Some(ItemClass::UltimatumKey)
    } else if s == "UncutReservationGemStackable"@ {
        Some(ItemClass::UncutReservationGemStackable)
    } else if s == "UncutReservationGem_OLD"@ {
        Some(ItemClass::UncutReservationGemOld)
    } else if s == "UncutSkillGemStackable"@ {
        Some(ItemClass::UncutSkillGemStackable)
    } else if s == "UncutSkillGem_OLD"@ {
        Some(ItemClass::UncutSkillGemOld)
    } else if s == "UncutSupportGemStackable"@ {
        Some(ItemClass::UncutSupportGemStackable)
    } else if s == "UncutSupportGem_OLD"@ {
        Some(ItemClass::UncutSupportGemOld)
    } else if s == "UtilityFlask"@ {
        Some(ItemClass::UtilityFlask)
    } else if s == "VaultKey"@ {
        Some(ItemClass::VaultKey)
    } else if s == "Wand"@ {
        Some(ItemClass::Wand)
    } else if s == "Warstaff"@ {
        Some(ItemClass::Warstaff)
    } else if s == "Unknown"@ {
        Some(ItemClass::Unknown)
    } else {
        None
    }
}

/// The display name of `c` gives `c` back.
proof fn lemma_class_named(c: ItemClass)
    ensures
        class_named(item_class_name(c)) == Some(c),
{
    reveal_strlit("Active Skill Gem");
    reveal_strlit("Amulet");
    reveal_strlit("AtlasUpgradeItem");
    reveal_strlit("Belt");
    reveal_strlit("Body Armour");
    reveal_strlit("Boots");
    reveal_strlit("Bow");
    reveal_strlit("Breachstone");
    reveal_strlit("BrequelFruit");
    reveal_strlit("Buckler");
    reveal_strlit("Claw");
    reveal_strlit("ConventionTreasure");
    reveal_strlit("Crossbow");
    reveal_strlit("Currency");
    reveal_strlit("Dagger");
    reveal_strlit("DelveSocketableCurrency");
    reveal_strlit("DelveStackableSocketableCurrency");
    reveal_strlit("DivinationCard");
    reveal_strlit("Expedition2Logbooks");
    reveal_strlit("ExpeditionLogbook");
    reveal_strlit("FishingRod");
    reveal_strlit("Flail");
    reveal_strlit("Focus");
    reveal_strlit("GiftBox");
    reveal_strlit("Gloves");
    reveal_strlit("HeistBlueprint");
    reveal_strlit("HeistContract");
    reveal_strlit("HeistEquipmentReward");
    reveal_strlit("HeistEquipmentTool");
    reveal_strlit("HeistEquipmentUtility");
    reveal_strlit("HeistEquipmentWeapon");
    reveal_strlit("Helmet");
    reveal_strlit("IncubatorStackable");
    reveal_strlit("IncursionArm");
    reveal_strlit("IncursionLeg");
    reveal_strlit("InstanceLocalItem");
    reveal_strlit("ItemisedSanctum");
    reveal_strlit("Jewel");
    reveal_strlit("LifeFlask");
    reveal_strlit("ManaFlask");
    reveal_strlit("Map");
    reveal_strlit("MapFragment");
    reveal_strlit("MemoryLine");
    reveal_strlit("Meta Skill Gem");
    reveal_strlit("Omen");
    reveal_strlit("One Hand Axe");
    reveal_strlit("One Hand Mace");
    reveal_strlit("One Hand Sword");
    reveal_strlit("PinnacleKeyStackable");
    reveal_strlit("PinnacleKey_OLD");
    reveal_strlit("QuestItem");
    reveal_strlit("Quiver");
    reveal_strlit("Relic");
    reveal_strlit("Ring");
    reveal_strlit("SanctumSpecialRelic");
    reveal_strlit("Sceptre");
    reveal_strlit("SentinelDrone");
    reveal_strlit("Shield");
    reveal_strlit("SkillGemToken");
    reveal_strlit("SoulCore");
    reveal_strlit("Spear");
    reveal_strlit("StackableCurrency");
    reveal_strlit("Staff");
    reveal_strlit("Support Skill Gem");
    reveal_strlit("Talisman");
    reveal_strlit("TowerAugmentation");
    reveal_strlit("TrapTool");
    reveal_strlit("Two Hand Axe");
    reveal_strlit("Two Hand Mace");
    reveal_strlit("Two Hand Sword");
    reveal_strlit("UltimatumKey");
    reveal_strlit("UncutReservationGemStackable");
    reveal_strlit("UncutReservationGem_OLD");
    reveal_strlit("UncutSkillGemStackable");
    reveal_strlit("UncutSkillGem_OLD");
    reveal_strlit("UncutSupportGemStackable");
    reveal_strlit("UncutSupportGem_OLD");
    reveal_strlit("UtilityFlask");
    reveal_strlit("VaultKey");
    reveal_strlit("Wand");
    reveal_strlit("Warstaff");
    reveal_strlit("Unknown");
    // Each name's length, and for names of one length a character that tells
    // them apart.
    assert("Active Skill Gem"@.len() == 16);
    assert("Amulet"@.len() == 6);
    assert("AtlasUpgradeItem"@.len() == 16);
    assert("Belt"@.len() == 4);
    assert("Body Armour"@.len() == 11);
    assert("Boots"@.len() == 5);
    assert("Bow"@.len() == 3);
    assert("Breachstone"@.len() == 11);
    assert("BrequelFruit"@.len() == 12);
    assert("Buckler"@.len() == 7);
    assert("Claw"@.len() == 4);
    assert("ConventionTreasure"@.len() == 18);
    assert("Crossbow"@.len() == 8);
    assert("Currency"@.len() == 8);
    assert("Dagger"@.len() == 6);
    assert("DelveSocketableCurrency"@.len() == 23);
    assert("DelveStackableSocketableCurrency"@.len() == 32);
    assert("DivinationCard"@.len() == 14);
    assert("Expedition2Logbooks"@.len() == 19);
    assert("ExpeditionLogbook"@.len() == 17);
    assert("FishingRod"@.len() == 10);
    assert("Flail"@.len() == 5);
    assert("Focus"@.len() == 5);
    assert("GiftBox"@.len() == 7);
    assert("Gloves"@.len() == 6);
    assert("HeistBlueprint"@.len() == 14);
    assert("HeistContract"@.len() == 13);
    assert("HeistEquipmentReward"@.len() == 20);
    assert("HeistEquipmentTool"@.len() == 18);
    assert("HeistEquipmentUtility"@.len() == 21);
    assert("HeistEquipmentWeapon"@.len() == 20);
    assert("Helmet"@.len() == 6);
    assert("IncubatorStackable"@.len() == 18);
    assert("IncursionArm"@.len() == 12);
    assert("IncursionLeg"@.len() == 12);
    assert("InstanceLocalItem"@.len() == 17);
    assert("ItemisedSanctum"@.len() == 15);
    assert("Jewel"@.len() == 5);
    assert("LifeFlask"@.len() == 9);
    assert("ManaFlask"@.len() == 9);
    assert("Map"@.len() == 3);
    assert("MapFragment"@.len() == 11);
    assert("MemoryLine"@.len() == 10);
    assert("Meta Skill Gem"@.len() == 14);
    assert("Omen"@.len() == 4);
    assert("One Hand Axe"@.len() == 12);
    assert("One Hand Mace"@.len() == 13);
    assert("One Hand Sword"@.len() == 14);
    assert("PinnacleKeyStackable"@.len() == 20);
    assert("PinnacleKey_OLD"@.len() == 15);
    assert("QuestItem"@.len() == 9);
    assert("Quiver"@.len() == 6);
    assert("Relic"@.len() == 5);
    assert("Ring"@.len() == 4);
    assert("SanctumSpecialRelic"@.len() == 19);
    assert("Sceptre"@.len() == 7);
    assert("SentinelDrone"@.len() == 13);
    assert("Shield"@.len() == 6);
    assert("SkillGemToken"@.len() == 13);
    assert("SoulCore"@.len() == 8);
    assert("Spear"@.len() == 5);
    assert("StackableCurrency"@.len() == 17);
    assert("Staff"@.len() == 5);
    assert("Support Skill Gem"@.len() == 17);
    assert("Talisman"@.len() == 8);
    assert("TowerAugmentation"@.len() == 17);
    assert("TrapTool"@.len() == 8);
    assert("Two Hand Axe"@.len() == 12);
    assert("Two Hand Mace"@.len() == 13);
    assert("Two Hand Sword"@.len() == 14);
    assert("UltimatumKey"@.len() == 12);
    assert("UncutReservationGemStackable"@.len() == 28);
    assert("UncutReservationGem_OLD"@.len() == 23);
    assert("UncutSkillGemStackable"@.len() == 22);
    assert("UncutSkillGem_OLD"@.len() == 17);
    assert("UncutSupportGemStackable"@.len() == 24);
    assert("UncutSupportGem_OLD"@.len() == 19);
    assert("UtilityFlask"@.len() == 12);
    assert("VaultKey"@.len() == 8);
    assert("Wand"@.len() == 4);
    assert("Warstaff"@.len() == 8);
    assert("Unknown"@.len() == 7);
    assert("Active Skill Gem"@[1] == 'c');
    assert("Amulet"@[0] == 'A');
    assert("AtlasUpgradeItem"@[1] == 't');
    assert("Belt"@[0] == 'B');
    assert("Body Armour"@[0] == 'B');
    assert("Body Armour"@[1] == 'o');
    assert("Boots"@[0] == 'B');
    assert("Bow"@[0] == 'B');
    assert("Breachstone"@[0] == 'B');
    assert("Breachstone"@[1] == 'r');
    assert("BrequelFruit"@[0] == 'B');
    assert("Buckler"@[0] == 'B');
    assert("Claw"@[0] == 'C');
    assert("ConventionTreasure"@[0] == 'C');
    assert("Crossbow"@[0] == 'C');
    assert("Crossbow"@[1] == 'r');
    assert("Currency"@[0] == 'C');
    assert("Currency"@[1] == 'u');
    assert("Dagger"@[0] == 'D');
    assert("DelveSocketableCurrency"@[0] == 'D');
    assert("DivinationCard"@[0] == 'D');
    assert("Expedition2Logbooks"@[0] == 'E');
    assert("ExpeditionLogbook"@[0] == 'E');
    assert("FishingRod"@[0] == 'F');
    assert("Flail"@[0] == 'F');
    assert("Flail"@[1] == 'l');
    assert("Focus"@[0] == 'F');
    assert("Focus"@[1] == 'o');
    assert("GiftBox"@[0] == 'G');
    assert("Gloves"@[0] == 'G');
    assert("HeistBlueprint"@[0] == 'H');
    assert("HeistContract"@[0] == 'H');
    assert("HeistEquipmentReward"@[0] == 'H');
    assert("HeistEquipmentReward"@[14] == 'R');
    assert("HeistEquipmentTool"@[0] == 'H');
    assert("HeistEquipmentWeapon"@[0] == 'H');
    assert("HeistEquipmentWeapon"@[14] == 'W');
    assert("Helmet"@[0] == 'H');
    assert("IncubatorStackable"@[0] == 'I');
    assert("IncursionArm"@[0] == 'I');
    assert("IncursionArm"@[9] == 'A');
    assert("IncursionLeg"@[0] == 'I');
    assert("IncursionLeg"@[9] == 'L');
    assert("InstanceLocalItem"@[0] == 'I');
    assert("ItemisedSanctum"@[0] == 'I');
    assert("Jewel"@[0] == 'J');
    assert("LifeFlask"@[0] == 'L');
    assert("ManaFlask"@[0] == 'M');
    assert("Map"@[0] == 'M');
    assert("MapFragment"@[0] == 'M');
    assert("MemoryLine"@[0] == 'M');
    assert("Meta Skill Gem"@[0] == 'M');
    assert("Omen"@[0] == 'O');
    assert("One Hand Axe"@[0] == 'O');
    assert("One Hand Mace"@[0] == 'O');
    assert("One Hand Sword"@[0] == 'O');
    assert("PinnacleKeyStackable"@[0] == 'P');
    assert("PinnacleKey_OLD"@[0] == 'P');
    assert("QuestItem"@[0] == 'Q');
    assert("Quiver"@[0] == 'Q');
    assert("Relic"@[0] == 'R');
    assert("Ring"@[0] == 'R');
    assert("SanctumSpecialRelic"@[0] == 'S');
    assert("Sceptre"@[0] == 'S');
    assert("SentinelDrone"@[0] == 'S');
    assert("SentinelDrone"@[1] == 'e');
    assert("Shield"@[0] == 'S');
    assert("SkillGemToken"@[0] == 'S');
    assert("SkillGemToken"@[1] == 'k');
    assert("SoulCore"@[0] == 'S');
    assert("Spear"@[0] == 'S');
    assert("Spear"@[1] == 'p');
    assert("StackableCurrency"@[0] == 'S');
    assert("StackableCurrency"@[1] == 't');
    assert("Staff"@[0] == 'S');
    assert("Staff"@[1] == 't');
    assert("Support Skill Gem"@[0] == 'S');
    assert("Support Skill Gem"@[1] == 'u');
    assert("Talisman"@[0] == 'T');
    assert("Talisman"@[1] == 'a');
    assert("TowerAugmentation"@[0] == 'T');
    assert("TrapTool"@[0] == 'T');
    assert("TrapTool"@[1] == 'r');
    assert("Two Hand Axe"@[0] == 'T');
    assert("Two Hand Mace"@[0] == 'T');
    assert("Two Hand Sword"@[0] == 'T');
    assert("UltimatumKey"@[0] == 'U');
    assert("UltimatumKey"@[1] == 'l');
    assert("UncutReservationGem_OLD"@[0] == 'U');
    assert("UncutSkillGem_OLD"@[0] == 'U');
    assert("UncutSupportGem_OLD"@[0] == 'U');
    assert("Unknown"@[0] == 'U');
    assert("UtilityFlask"@[0] == 'U');
    assert("UtilityFlask"@[1] == 't');
    assert("VaultKey"@[0] == 'V');
    assert("Wand"@[0] == 'W');
    assert("Warstaff"@[0] == 'W');
    match c {
        ItemClass::ActiveSkillGem => {},
        ItemClass::Amulet => {},
        ItemClass::AtlasUpgradeItem => {},
        ItemClass::Belt => {},
        ItemClass::BodyArmour => {},
        ItemClass::Boots => {},
        ItemClass::Bow => {},
        ItemClass::Breachstone => {},
        ItemClass::BrequelFruit => {},
        ItemClass::Buckler => {},
        ItemClass::Claw => {},
        ItemClass::ConventionTreasure => {},
        ItemClass::Crossbow => {},
        ItemClass::Currency => {},
        ItemClass::Dagger => {},
        ItemClass::DelveSocketableCurrency => {},
        ItemClass::DelveStackableSocketableCurrency => {},
        ItemClass::DivinationCard => {},
        ItemClass::Expedition2Logbooks => {},
        ItemClass::ExpeditionLogbook => {},
        ItemClass::FishingRod => {},
        ItemClass::Flail => {},
        ItemClass::Focus => {},
        ItemClass::GiftBox => {},
        ItemClass::Gloves => {},
        ItemClass::HeistBlueprint => {},
        ItemClass::HeistContract => {},
        ItemClass::HeistEquipmentReward => {},
        ItemClass::HeistEquipmentTool => {},
        ItemClass::HeistEquipmentUtility => {},
        ItemClass::HeistEquipmentWeapon => {},
        ItemClass::Helmet => {},
        ItemClass::IncubatorStackable => {},
        ItemClass::IncursionArm => {},
        ItemClass::IncursionLeg => {},
        ItemClass::InstanceLocalItem => {},
        ItemClass::ItemisedSanctum => {},
        ItemClass::Jewel => {},
        ItemClass::LifeFlask => {},
        ItemClass::ManaFlask => {},
        ItemClass::MapItem => {},
        ItemClass::MapFragment => {},
        ItemClass::MemoryLine => {},
        ItemClass::MetaSkillGem => {},
        ItemClass::Omen => {},
        ItemClass::OneHandAxe => {},
        ItemClass::OneHandMace => {},
        ItemClass::OneHandSword => {},
        ItemClass::PinnacleKeyStackable => {},
        ItemClass::PinnacleKeyOld => {},
        ItemClass::QuestItem => {},
        ItemClass::Quiver => {},
        ItemClass::Relic => {},
        ItemClass::Ring => {},
        ItemClass::SanctumSpecialRelic => {},
        ItemClass::Sceptre => {},
        ItemClass::SentinelDrone => {},
        ItemClass::Shield => {},
        ItemClass::SkillGemToken => {},
        ItemClass::SoulCore => {},
        ItemClass::Spear => {},
        ItemClass::StackableCurrency => {},
        ItemClass::Staff => {},
        ItemClass::SupportSkillGem => {},
        ItemClass::Talisman => {},
        ItemClass::TowerAugmentation => {},
        ItemClass::TrapTool => {},
        ItemClass::TwoHandAxe => {},
        ItemClass::TwoHandMace => {},
        ItemClass::TwoHandSword => {},
        ItemClass::UltimatumKey => {},
        ItemClass::UncutReservationGemStackable => {},
        ItemClass::UncutReservationGemOld => {},
        ItemClass::UncutSkillGemStackable => {},
        ItemClass::UncutSkillGemOld => {},
        ItemClass::UncutSupportGemStackable => {},
        ItemClass::UncutSupportGemOld => {},
        ItemClass::UtilityFlask => {},
        ItemClass::VaultKey => {},
        ItemClass::Wand => {},
        ItemClass::Warstaff => {},
        ItemClass::Unknown => {},
    }
}

/// Each item class has a display name of its own, so the name gives the
/// class back.
pub proof fn law_class_names_are_distinct(a: ItemClass, b: ItemClass)
    ensures
        class_named(item_class_name(a)) == Some(a),
        item_class_name(a) == item_class_name(b) ==> a == b,
{
    lemma_class_named(a);
    lemma_class_named(b);
}



impl ItemClass {
    /// The display name of the class.
    pub fn as_str(&self) -> (s: &'static str)
        ensures
            s@ == item_class_name(*self),
    {
        match self {
            ItemClass::ActiveSkillGem => "Active Skill Gem",
            ItemClass::Amulet => "Amulet",
            ItemClass::AtlasUpgradeItem => "AtlasUpgradeItem",
            ItemClass::Belt => "Belt",
            ItemClass::BodyArmour => "Body Armour",
            ItemClass::Boots => "Boots",
            ItemClass::Bow => "Bow",
            ItemClass::Breachstone => "Breachstone",
            ItemClass::BrequelFruit => "BrequelFruit",
            ItemClass::Buckler => "Buckler",
            ItemClass::Claw => "Claw",
            ItemClass::ConventionTreasure => "ConventionTreasure",
            ItemClass::Crossbow => "Crossbow",
            ItemClass::Currency => "Currency",
            ItemClass::Dagger => "Dagger",
            ItemClass::DelveSocketableCurrency => "DelveSocketableCurrency",
            ItemClass::DelveStackableSocketableCurrency => "DelveStackableSocketableCurrency",
            ItemClass::DivinationCard => "DivinationCard",
            ItemClass::Expedition2Logbooks => "Expedition2Logbooks",
            ItemClass::ExpeditionLogbook => "ExpeditionLogbook",
            ItemClass::FishingRod => "FishingRod",
            ItemClass::Flail => "Flail",
            ItemClass::Focus => "Focus",
            ItemClass::GiftBox => "GiftBox",
            ItemClass::Gloves => "Gloves",
            ItemClass::HeistBlueprint => "HeistBlueprint",
            ItemClass::HeistContract => "HeistContract",
            ItemClass::HeistEquipmentReward => "HeistEquipmentReward",
            ItemClass::HeistEquipmentTool => "HeistEquipmentTool",
            ItemClass::HeistEquipmentUtility => "HeistEquipmentUtility",
            ItemClass::HeistEquipmentWeapon => "HeistEquipmentWeapon",
            ItemClass::Helmet => "Helmet",
            ItemClass::IncubatorStackable => "IncubatorStackable",
            ItemClass::IncursionArm => "IncursionArm",
            ItemClass::IncursionLeg => "IncursionLeg",
            ItemClass::InstanceLocalItem => "InstanceLocalItem",
            ItemClass::ItemisedSanctum => "ItemisedSanctum",
            ItemClass::Jewel => "Jewel",
            ItemClass::LifeFlask => "LifeFlask",
            ItemClass::ManaFlask => "ManaFlask",
            ItemClass::MapItem => "Map",
            ItemClass::MapFragment => "MapFragment",
            ItemClass::MemoryLine => "MemoryLine",
            ItemClass::MetaSkillGem => "Meta Skill Gem",
            ItemClass::Omen => "Omen",
            ItemClass::OneHandAxe => "One Hand Axe",
            ItemClass::OneHandMace => "One Hand Mace",
            ItemClass::OneHandSword => "One Hand Sword",
            ItemClass::PinnacleKeyStackable => "PinnacleKeyStackable",
            ItemClass::PinnacleKeyOld => "PinnacleKey_OLD",
            ItemClass::QuestItem => "QuestItem",
            ItemClass::Quiver => "Quiver",
            ItemClass::Relic => "Relic",
            ItemClass::Ring => "Ring",
            ItemClass::SanctumSpecialRelic => "SanctumSpecialRelic",
            ItemClass::Sceptre => "Sceptre",
            ItemClass::SentinelDrone => "SentinelDrone",
            ItemClass::Shield => "Shield",
            ItemClass::SkillGemToken => "SkillGemToken",
            ItemClass::SoulCore => "SoulCore",
            ItemClass::Spear => "Spear",
            ItemClass::StackableCurrency => "StackableCurrency",
            ItemClass::Staff => "Staff",
            ItemClass::SupportSkillGem => "Support Skill Gem",
            ItemClass::Talisman => "Talisman",
            ItemClass::TowerAugmentation => "TowerAugmentation",
            ItemClass::TrapTool => "TrapTool",
            ItemClass::TwoHandAxe => "Two Hand Axe",
            ItemClass::TwoHandMace => "Two Hand Mace",
            ItemClass::TwoHandSword => "Two Hand Sword",
            ItemClass::UltimatumKey => "UltimatumKey",
            ItemClass::UncutReservationGemStackable => "UncutReservationGemStackable",
            ItemClass::UncutReservationGemOld => "UncutReservationGem_OLD",
            ItemClass::UncutSkillGemStackable => "UncutSkillGemStackable",
            ItemClass::UncutSkillGemOld => "UncutSkillGem_OLD",
            ItemClass::UncutSupportGemStackable => "UncutSupportGemStackable",
            ItemClass::UncutSupportGemOld => "UncutSupportGem_OLD",
            ItemClass::UtilityFlask => "UtilityFlask",
            ItemClass::VaultKey => "VaultKey",
            ItemClass::Wand => "Wand",
            ItemClass::Warstaff => "Warstaff",
            ItemClass::Unknown => "Unknown",
        }
    }
}

} // verus!
