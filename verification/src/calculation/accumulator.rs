//! The accumulator of stat totals, and applying effects to it.

use vstd::prelude::*;

use crate::item::state::EquipSlot;
use crate::item::state::Poe2Effect;
use crate::item::state::Poe2ModifierKind;
use crate::repoe_parse::no_properties;
use crate::repoe_parse::Properties;

verus! {

/// A stat total's key: the modifier type and the stat identifier.
#[derive(Debug, Clone, Copy, PartialEq, Eq, Hash, Structural)]
pub struct StatKey {
    pub mod_type: Poe2ModifierKind,
    pub id: u64,
}

/// The map that a list of distinct-keyed entries describes.
pub open spec fn table_map<K, V>(es: Seq<(K, V)>) -> Map<K, V>
    decreases es.len(),
{
    if es.len() == 0 {
        Map::empty()
    } else {
        table_map(es.drop_last()).insert(es.last().0, es.last().1)
    }
}

/// No key occurs twice.
pub open spec fn distinct_keys<K, V>(es: Seq<(K, V)>) -> bool {
    forall|i: int, j: int| 0 <= i < j < es.len() ==> es[i].0 != es[j].0
}

/// The entries' keys are the map's keys, and each entry's value is the map's.
pub proof fn lemma_table_map<K, V>(es: Seq<(K, V)>)
    requires
        distinct_keys(es),
    ensures
        forall|k: K| #[trigger]
            table_map(es).contains_key(k) <==> exists|i: int| 0 <= i < es.len() && es[i].0 == k,
        forall|i: int| 0 <= i < es.len() ==> table_map(es).contains_key(#[trigger] es[i].0) && table_map(es)[es[i].0]
            == es[i].1,
    decreases es.len(),
{
    if es.len() > 0 {
        let init = es.drop_last();
        assert(distinct_keys(init));
        lemma_table_map(init);
        assert(table_map(es) == table_map(init).insert(es.last().0, es.last().1));
        assert forall|k: K| #[trigger]
            table_map(es).contains_key(k) <==> exists|i: int| 0 <= i < es.len() && es[i].0 == k by {
            if table_map(es).contains_key(k) && k != es.last().0 {
                assert(table_map(init).contains_key(k));
                let i = choose|i: int| 0 <= i < init.len() && init[i].0 == k;
                assert(es[i].0 == k);
            }
            if exists|i: int| 0 <= i < es.len() && es[i].0 == k {
                let i = choose|i: int| 0 <= i < es.len() && es[i].0 == k;
                if i < es.len() - 1 {
                    assert(init[i].0 == k);
                }
            }
        }
        assert forall|i: int| 0 <= i < es.len() implies table_map(es).contains_key(#[trigger] es[i].0)
            && table_map(es)[es[i].0] == es[i].1 by {
            if i < es.len() - 1 {
                assert(init[i] == es[i]);
                assert(es[i].0 != es.last().0);
            }
        }
    }
}

/// Replacing the value of an entry replaces the map's value under its key.
pub proof fn lemma_table_map_update<K, V>(es: Seq<(K, V)>, i: int, v: V)
    requires
        distinct_keys(es),
        0 <= i < es.len(),
    ensures
        distinct_keys(es.update(i, (es[i].0, v))),
        table_map(es.update(i, (es[i].0, v))) == table_map(es).insert(es[i].0, v),
{
    let es2 = es.update(i, (es[i].0, v));
    assert(distinct_keys(es2)) by {
        assert forall|a: int, b: int| 0 <= a < b < es2.len() implies es2[a].0 != es2[b].0 by {
            assert(es2[a].0 == es[a].0 && es2[b].0 == es[b].0);
        }
    }
    lemma_table_map(es);
    lemma_table_map(es2);
    assert(table_map(es2) =~= table_map(es).insert(es[i].0, v)) by {
        assert forall|k: K| table_map(es2).contains_key(k) <==> table_map(es).insert(es[i].0, v).contains_key(k) by {
            if table_map(es2).contains_key(k) {
                let a = choose|a: int| 0 <= a < es2.len() && es2[a].0 == k;
                assert(es[a].0 == k);
            }
            if table_map(es).contains_key(k) {
                let a = choose|a: int| 0 <= a < es.len() && es[a].0 == k;
                assert(es2[a].0 == k);
            }
        }
        assert forall|k: K| #[trigger] table_map(es2).contains_key(k) implies table_map(es2)[k] == table_map(es).insert(es[i].0, v)[k] by {
            let a = choose|a: int| 0 <= a < es2.len() && es2[a].0 == k;
            assert(es[a].0 == k);
            assert(es2[a] == es[a] || a == i);
        }
    }
}

/// Appending an entry under a new key adds it to the map.
pub proof fn lemma_table_map_push<K, V>(es: Seq<(K, V)>, k: K, v: V)
    requires
        distinct_keys(es),
        !table_map(es).contains_key(k),
    ensures
        distinct_keys(es.push((k, v))),
        table_map(es.push((k, v))) == table_map(es).insert(k, v),
{
    lemma_table_map(es);
    let es2 = es.push((k, v));
    assert(es2.drop_last() =~= es);
    assert forall|a: int, b: int| 0 <= a < b < es2.len() implies es2[a].0 != es2[b].0 by {
        if b == es.len() {
            assert(es[a].0 == es2[a].0);
        } else {
            assert(es[a] == es2[a] && es[b] == es2[b]);
        }
    }
}

/// A table of stat totals, each key at most once.
#[derive(Debug)]
pub struct StatTable {
    entries: Vec<(StatKey, i64)>,
}

impl View for StatTable {
    type V = Map<StatKey, i64>;

    closed spec fn view(&self) -> Map<StatKey, i64> {
        table_map(self.entries@)
    }
}

/// The total under `k`, zero where there is none.
pub open spec fn total_or_zero(m: Map<StatKey, i64>, k: StatKey) -> int {
    if m.contains_key(k) {
        m[k] as int
    } else {
        0
    }
}

impl StatTable {
    #[verifier::type_invariant]
    closed spec fn keys_distinct(self) -> bool {
        distinct_keys(self.entries@)
    }

    /// The entries in the order the table walks them.
    pub closed spec fn entries_seq(&self) -> Seq<(StatKey, i64)> {
        self.entries@
    }

    /// The empty table.
    pub fn new() -> (t: Self)
        ensures
            t@ == Map::<StatKey, i64>::empty(),
            t.entries_seq().len() == 0,
    {
        StatTable { entries: Vec::new() }
    }

    /// The number of entries; the walk holds each key once, with its total.
    pub fn len(&self) -> (n: usize)
        ensures
            n == self.entries_seq().len(),
            distinct_keys(self.entries_seq()),
            table_map(self.entries_seq()) == self@,
    {
        proof {
            use_type_invariant(self);
        }
        self.entries.len()
    }

    /// The entry at position `i` of the walk.
    pub fn entry(&self, i: usize) -> (e: (StatKey, i64))
        requires
            i < self.entries_seq().len(),
        ensures
            e == self.entries_seq()[i as int],
    {
        self.entries[i]
    }

    /// The total under `key`, if any.
    pub fn get(&self, key: StatKey) -> (r: Option<i64>)
        ensures
            r == (if self@.contains_key(key) {
                Some(self@[key])
            } else {
                None
            }),
    {
        proof {
            use_type_invariant(self);
            lemma_table_map(self.entries@);
        }
        let mut i: usize = 0;
        while i < self.entries.len()
            invariant
                i <= self.entries@.len(),
                distinct_keys(self.entries@),
                forall|q: int| 0 <= q < i ==> self.entries@[q].0 != key,
            decreases self.entries@.len() - i,
        {
            if self.entries[i].0 == key {
                proof {
                    lemma_table_map(self.entries@);
                }
                return Some(self.entries[i].1);
            }
            i += 1;
        }
        None
    }

    /// Sets the total under `key` to `value`.
    pub fn set(&mut self, key: StatKey, value: i64)
        ensures
            final(self)@ == old(self)@.insert(key, value),
    {
        proof {
            use_type_invariant(&*self);
            lemma_table_map(self.entries@);
        }
        let ghost es0 = self.entries@;
        let mut i: usize = 0;
        while i < self.entries.len()
            invariant
                i <= self.entries@.len(),
                self.entries@ == es0,
                es0 == old(self).entries@,
                distinct_keys(es0),
                forall|q: int| 0 <= q < i ==> self.entries@[q].0 != key,
            decreases self.entries@.len() - i,
        {
            if self.entries[i].0 == key {
                proof {
                    lemma_table_map(es0);
                    lemma_table_map_update(es0, i as int, value);
                }
                let mut entries: Vec<(StatKey, i64)> = Vec::new();
                std::mem::swap(&mut entries, &mut self.entries);
                entries.set(i, (key, value));
                assert(entries@ == es0.update(i as int, (es0[i as int].0, value)));
                self.entries = entries;
                return;
            }
            i += 1;
        }
        proof {
            lemma_table_map(es0);
            lemma_table_map_push(es0, key, value);
        }
        let mut entries: Vec<(StatKey, i64)> = Vec::new();
        std::mem::swap(&mut entries, &mut self.entries);
        entries.push((key, value));
        self.entries = entries;
    }

    /// Adds `delta` to the total under `key`, starting from zero where there
    /// is none.
    pub fn add(&mut self, key: StatKey, delta: i64)
        requires
            i64::MIN <= total_or_zero(old(self)@, key) + delta <= i64::MAX,
        ensures
            final(self)@ == old(self)@.insert(key, (total_or_zero(old(self)@, key) + delta) as i64),
    {
        proof {
            use_type_invariant(&*self);
            lemma_table_map(self.entries@);
        }
        let ghost es0 = self.entries@;
        let mut i: usize = 0;
        while i < self.entries.len()
            invariant
                i <= self.entries@.len(),
                self.entries@ == es0,
                es0 == old(self).entries@,
                distinct_keys(es0),
                i64::MIN <= total_or_zero(table_map(es0), key) + delta <= i64::MAX,
                forall|q: int| 0 <= q < i ==> self.entries@[q].0 != key,
            decreases self.entries@.len() - i,
        {
            if self.entries[i].0 == key {
                proof {
                    lemma_table_map(es0);
                }
                let old_value = self.entries[i].1;
                let ghost es = self.entries@;
                proof {
                    lemma_table_map_update(es, i as int, (old_value + delta) as i64);
                }
                let mut entries: Vec<(StatKey, i64)> = Vec::new();
                std::mem::swap(&mut entries, &mut self.entries);
                entries.set(i, (key, old_value + delta));
                assert(entries@ == es.update(i as int, (es[i as int].0, (old_value + delta) as i64)));
                self.entries = entries;
                return;
            }
            i += 1;
        }
        let ghost es = self.entries@;
        proof {
            lemma_table_map(es);
        }
        assert(!table_map(es).contains_key(key));
        proof {
            lemma_table_map_push(es, key, delta);
        }
        let mut entries: Vec<(StatKey, i64)> = Vec::new();
        std::mem::swap(&mut entries, &mut self.entries);
        entries.push((key, delta));
        self.entries = entries;
    }
}

/// The stat totals of one equipped item, with its base properties.
#[derive(Debug)]
pub struct LocalItemStats {
    pub properties: Properties,
    pub stats: StatTable,
}

impl LocalItemStats {
    /// No totals and default properties.
    pub fn new() -> (r: Self)
        ensures
            r.stats@ == Map::<StatKey, i64>::empty(),
            r.properties == no_properties(),
    {
        LocalItemStats { properties: Properties::default(), stats: StatTable::new() }
    }
}

/// The position of each equipment slot among the slot tables.
pub open spec fn slot_index(slot: EquipSlot) -> int {
    match slot {
        EquipSlot::MainHand => 0,
        EquipSlot::OffHand => 1,
        EquipSlot::BodyArmour => 2,
        EquipSlot::Helmet => 3,
        EquipSlot::Gloves => 4,
        EquipSlot::Boots => 5,
        EquipSlot::Amulet => 6,
        EquipSlot::Ring1 => 7,
        EquipSlot::Ring2 => 8,
        EquipSlot::Belt => 9,
        EquipSlot::NoSlot => 10,
    }
}

/// The slot at each position.
pub open spec fn slot_at(i: int) -> EquipSlot {
    if i == 0 {
        EquipSlot::MainHand
    } else if i == 1 {
        EquipSlot::OffHand
    } else if i == 2 {
        EquipSlot::BodyArmour
    } else if i == 3 {
        EquipSlot::Helmet
    } else if i == 4 {
        EquipSlot::Gloves
    } else if i == 5 {
        EquipSlot::Boots
    } else if i == 6 {
        EquipSlot::Amulet
    } else if i == 7 {
        EquipSlot::Ring1
    } else if i == 8 {
        EquipSlot::Ring2
    } else if i == 9 {
        EquipSlot::Belt
    } else {
        EquipSlot::NoSlot
    }
}

/// Each slot has its own position.
pub proof fn lemma_slot_index(slot: EquipSlot)
    ensures
        0 <= slot_index(slot) < 11,
        slot_at(slot_index(slot)) == slot,
{
}

fn slot_position(slot: EquipSlot) -> (i: usize)
    ensures
        i == slot_index(slot),
{
    match slot {
        EquipSlot::MainHand => 0,
        EquipSlot::OffHand => 1,
        EquipSlot::BodyArmour => 2,
        EquipSlot::Helmet => 3,
        EquipSlot::Gloves => 4,
        EquipSlot::Boots => 5,
        EquipSlot::Amulet => 6,
        EquipSlot::Ring1 => 7,
        EquipSlot::Ring2 => 8,
        EquipSlot::Belt => 9,
        EquipSlot::NoSlot => 10,
    }
}

/// The stat totals of each equipped item, by slot.
#[derive(Debug)]
pub struct EquipmentStats {
    slots: Vec<Option<LocalItemStats>>,
}

impl View for EquipmentStats {
    type V = Map<EquipSlot, Map<StatKey, i64>>;

    closed spec fn view(&self) -> Map<EquipSlot, Map<StatKey, i64>> {
        Map::new(
            |s: EquipSlot| self.slots@[slot_index(s)] is Some,
            |s: EquipSlot| self.slots@[slot_index(s)]->0.stats@,
        )
    }
}

impl EquipmentStats {
    /// The base properties of the item in each slot that holds one.
    pub closed spec fn properties(&self) -> Map<EquipSlot, Properties> {
        Map::new(
            |s: EquipSlot| self.slots@[slot_index(s)] is Some,
            |s: EquipSlot| self.slots@[slot_index(s)]->0.properties,
        )
    }

    #[verifier::type_invariant]
    closed spec fn one_table_per_slot(self) -> bool {
        self.slots@.len() == 11
    }

    /// One empty table per slot.
    fn empty_slots() -> (slots: Vec<Option<LocalItemStats>>)
        ensures
            slots@.len() == 11,
            forall|q: int| 0 <= q < 11 ==> slots@[q] is None,
    {
        let mut slots: Vec<Option<LocalItemStats>> = Vec::new();
        let mut i: usize = 0;
        while i < 11
            invariant
                i <= 11,
                slots@.len() == i,
                forall|q: int| 0 <= q < i ==> slots@[q] is None,
            decreases 11 - i,
        {
            slots.push(None);
            i += 1;
        }
        slots
    }

    /// No slot holds an item.
    pub fn new() -> (r: Self)
        ensures
            r@ == Map::<EquipSlot, Map<StatKey, i64>>::empty(),
            r.properties() == Map::<EquipSlot, Properties>::empty(),
    {
        let r = EquipmentStats { slots: Self::empty_slots() };
        assert(r@ =~= Map::<EquipSlot, Map<StatKey, i64>>::empty()) by {
            assert forall|s: EquipSlot| !r@.contains_key(s) by {
                lemma_slot_index(s);
            }
        }
        assert(r.properties() =~= Map::<EquipSlot, Properties>::empty()) by {
            assert forall|s: EquipSlot| !r.properties().contains_key(s) by {
                lemma_slot_index(s);
            }
        }
        r
    }

    /// The item in `slot`, if any.
    pub fn get(&self, slot: EquipSlot) -> (r: Option<&LocalItemStats>)
        ensures
            r is Some <==> self@.contains_key(slot),
            r is Some <==> self.properties().contains_key(slot),
            r matches Some(l) ==> l.stats@ == self@[slot] && l.properties == self.properties()[slot],
    {
        proof {
            use_type_invariant(self);
            lemma_slot_index(slot);
        }
        match &self.slots[slot_position(slot)] {
            Some(l) => Some(l),
            None => None,
        }
    }

    /// Puts an item with `properties` and no totals in `slot`.
    pub fn insert_empty(&mut self, slot: EquipSlot, properties: Properties)
        ensures
            final(self)@ == old(self)@.insert(slot, Map::<StatKey, i64>::empty()),
            final(self).properties() == old(self).properties().insert(slot, properties),
    {
        proof {
            use_type_invariant(&*self);
            lemma_slot_index(slot);
        }
        let ghost props = properties;
        let local = LocalItemStats { properties, stats: StatTable::new() };
        let mut slots = Self::empty_slots();
        std::mem::swap(&mut slots, &mut self.slots);
        slots.set(slot_position(slot), Some(local));
        self.slots = slots;
        proof {
            assert forall|s: EquipSlot| #[trigger] self@.contains_key(s) == old(self)@.insert(slot, Map::<StatKey, i64>::empty()).contains_key(s) by {
                lemma_slot_index(s);
            }
            assert(self@ =~= old(self)@.insert(slot, Map::<StatKey, i64>::empty())) by {
                assert forall|s: EquipSlot| #[trigger] self@.contains_key(s) implies self@[s] == old(self)@.insert(slot, Map::<StatKey, i64>::empty())[s] by {
                    lemma_slot_index(s);
                }
            }
            assert(self.properties() =~= old(self).properties().insert(slot, props)) by {
                assert forall|s: EquipSlot| #[trigger] self.properties().contains_key(s) == old(self).properties().insert(slot, props).contains_key(s) by {
                    lemma_slot_index(s);
                }
                assert forall|s: EquipSlot| #[trigger] self.properties().contains_key(s) implies self.properties()[s] == old(self).properties().insert(slot, props)[s] by {
                    lemma_slot_index(s);
                }
            }
        }
    }

    /// Adds `delta` to the total under `key` of the item in `slot`, putting
    /// an item with default properties there first if the slot is empty.
    pub fn add(&mut self, slot: EquipSlot, key: StatKey, delta: i64)
        requires
            i64::MIN <= total_or_zero(slot_totals(old(self)@, slot), key) + delta <= i64::MAX,
        ensures
            final(self)@ == old(self)@.insert(
                slot,
                slot_totals(old(self)@, slot).insert(
                    key,
                    (total_or_zero(slot_totals(old(self)@, slot), key) + delta) as i64,
                ),
            ),
            final(self).properties() == (if old(self).properties().contains_key(slot) {
                old(self).properties()
            } else {
                old(self).properties().insert(slot, no_properties())
            }),
    {
        proof {
            use_type_invariant(&*self);
            lemma_slot_index(slot);
        }
        let p = slot_position(slot);
        let mut slots = Self::empty_slots();
        std::mem::swap(&mut slots, &mut self.slots);
        let ghost before = slots@;
        let current = slots.remove(p);
        let mut local = match current {
            Some(l) => l,
            None => LocalItemStats::new(),
        };
        local.stats.add(key, delta);
        let ghost new_stats = local.stats@;
        let ghost new_props = local.properties;
        slots.insert(p, Some(local));
        assert(slots@ =~= before.update(p as int, slots@[p as int]));
        self.slots = slots;
        proof {
            assert(self@ =~= old(self)@.insert(slot, new_stats)) by {
                assert forall|s: EquipSlot| #[trigger] self@.contains_key(s) == old(self)@.insert(slot, new_stats).contains_key(s) by {
                    lemma_slot_index(s);
                }
                assert forall|s: EquipSlot| #[trigger] self@.contains_key(s) implies self@[s] == old(self)@.insert(slot, new_stats)[s] by {
                    lemma_slot_index(s);
                }
            }
            assert(self.properties() =~= old(self).properties().insert(slot, new_props)) by {
                assert forall|s: EquipSlot| #[trigger] self.properties().contains_key(s) == old(self).properties().insert(slot, new_props).contains_key(s) by {
                    lemma_slot_index(s);
                }
                assert forall|s: EquipSlot| #[trigger] self.properties().contains_key(s) implies self.properties()[s] == old(self).properties().insert(slot, new_props)[s] by {
                    lemma_slot_index(s);
                }
            }
            if old(self).properties().contains_key(slot) {
                assert(old(self).properties().insert(slot, new_props) =~= old(self).properties());
            }
        }
    }
}

impl EquipmentStats {
    /// The walk of the totals of the item at position `i`, if any.
    pub closed spec fn slot_entries(&self, i: int) -> Option<Seq<(StatKey, i64)>> {
        match self.slots@[i] {
            Some(l) => Some(l.stats.entries_seq()),
            None => None,
        }
    }

    /// The item in the slot at position `i`, if any.
    pub fn at(&self, i: usize) -> (r: Option<&LocalItemStats>)
        requires
            i < 11,
        ensures
            r is Some <==> self@.contains_key(slot_at(i as int)),
            r is Some <==> self.slot_entries(i as int) is Some,
            r matches Some(l) ==> l.stats@ == self@[slot_at(i as int)] && self.slot_entries(i as int)
                == Some(l.stats.entries_seq()),
    {
        proof {
            use_type_invariant(self);
            lemma_slot_index(slot_at(i as int));
        }
        match &self.slots[i] {
            Some(l) => Some(l),
            None => None,
        }
    }
}

/// The accumulated stat totals of a calculation.
#[derive(Debug)]
pub struct Poe2Accumulator {
    pub global_stats: StatTable,
    pub equipment_stats: EquipmentStats,
    pub pending_scaling: Vec<Poe2Effect>,
}

/// The accumulated totals, taken by value.
pub struct AccumulatorView {
    pub global: Map<StatKey, i64>,
    pub equipment: Map<EquipSlot, Map<StatKey, i64>>,
    pub properties: Map<EquipSlot, Properties>,
    pub pending: Seq<Poe2Effect>,
}

impl View for Poe2Accumulator {
    type V = AccumulatorView;

    open spec fn view(&self) -> AccumulatorView {
        AccumulatorView {
            global: self.global_stats@,
            equipment: self.equipment_stats@,
            properties: self.equipment_stats.properties(),
            pending: self.pending_scaling@,
        }
    }
}

impl Default for Poe2Accumulator {
    /// No totals and no pending scaled effects.
    fn default() -> (r: Self)
        ensures
            r@.global == Map::<StatKey, i64>::empty(),
            r@.equipment == Map::<EquipSlot, Map<StatKey, i64>>::empty(),
            r@.properties == Map::<EquipSlot, Properties>::empty(),
            r@.pending == Seq::<Poe2Effect>::empty(),
    {
        Poe2Accumulator {
            global_stats: StatTable::new(),
            equipment_stats: EquipmentStats::new(),
            pending_scaling: Vec::new(),
        }
    }
}

/// Applying the effect keeps every total within `i64`.
pub open spec fn effect_fits(acc: AccumulatorView, effect: Poe2Effect) -> bool {
    match effect {
        Poe2Effect::GlobalStat { id, value, mod_type } => {
            let k = StatKey { mod_type, id };
            i64::MIN <= total_or_zero(acc.global, k) + value <= i64::MAX
        },
        Poe2Effect::LocalStat { slot, id, value, mod_type } => {
            let k = StatKey { mod_type, id };
            i64::MIN <= total_or_zero(slot_totals(acc.equipment, slot), k) + value <= i64::MAX
        },
        Poe2Effect::ScaledStat { .. } => true,
    }
}

/// The totals after applying an effect: a global stat adds its value to the
/// global total under its key, a local stat to the total of the item in its
/// slot (an empty slot first gets an item with no properties), and a scaled
/// stat waits in the pending list.
pub open spec fn applied(acc: AccumulatorView, effect: Poe2Effect) -> AccumulatorView {
    match effect {
        Poe2Effect::GlobalStat { id, value, mod_type } => {
            let k = StatKey { mod_type, id };
            AccumulatorView {
                global: acc.global.insert(k, (total_or_zero(acc.global, k) + value) as i64),
                ..acc
            }
        },
        Poe2Effect::LocalStat { slot, id, value, mod_type } => {
            let k = StatKey { mod_type, id };
            let t = slot_totals(acc.equipment, slot);
            AccumulatorView {
                equipment: acc.equipment.insert(slot, t.insert(k, (total_or_zero(t, k) + value) as i64)),
                properties: if acc.properties.contains_key(slot) {
                    acc.properties
                } else {
                    acc.properties.insert(slot, no_properties())
                },
                ..acc
            }
        },
        Poe2Effect::ScaledStat { .. } => AccumulatorView { pending: acc.pending.push(effect), ..acc },
    }
}

/// Applies effects to an accumulator.
pub struct Poe2EffectApplier;

impl Poe2EffectApplier {
    /// Applies one effect.
    pub fn apply_effect(&self, effect: &Poe2Effect, accumulator: &mut Poe2Accumulator) -> (r: Result<
        (),
        core::convert::Infallible,
    >)
        requires
            effect_fits(old(accumulator)@, *effect),
        ensures
            r is Ok,
            final(accumulator)@ == applied(old(accumulator)@, *effect),
    {
        match effect {
            Poe2Effect::GlobalStat { id, value, mod_type } => {
                accumulator.global_stats.add(StatKey { mod_type: *mod_type, id: *id }, *value);
            },
            Poe2Effect::LocalStat { slot, id, value, mod_type } => {
                accumulator.equipment_stats.add(*slot, StatKey { mod_type: *mod_type, id: *id }, *value);
            },
            Poe2Effect::ScaledStat { .. } => {
                accumulator.pending_scaling.push(*effect);
            },
        }
        Ok(())
    }
}

/// Stat effects commute: applying two global or local stat effects in
/// either order gives the same totals, whenever neither order overflows.
pub proof fn law_stat_effects_commute(acc: AccumulatorView, a: Poe2Effect, b: Poe2Effect)
    requires
        !(a is ScaledStat),
        !(b is ScaledStat),
        effect_fits(acc, a),
        effect_fits(applied(acc, a), b),
        effect_fits(acc, b),
        effect_fits(applied(acc, b), a),
    ensures
        applied(applied(acc, a), b) == applied(applied(acc, b), a),
{
    let ab = applied(applied(acc, a), b);
    let ba = applied(applied(acc, b), a);
    assert(ab.global =~= ba.global);
    assert(ab.pending =~= ba.pending);
    assert(ab.properties =~= ba.properties);
    assert(ab.equipment =~= ba.equipment) by {
        assert forall|s: EquipSlot| #[trigger] ab.equipment.contains_key(s) implies ab.equipment[s] =~= ba.equipment[s] by {}
    }
}

/// Applying two global stat effects under one key adds both values, as one
/// effect with their sum would.
pub proof fn law_global_effects_add_up(acc: AccumulatorView, k: StatKey, v1: i64, v2: i64)
    requires
        i64::MIN <= total_or_zero(acc.global, k) + v1 <= i64::MAX,
        i64::MIN <= total_or_zero(acc.global, k) + v1 + v2 <= i64::MAX,
        i64::MIN <= v1 + v2 <= i64::MAX,
    ensures
        applied(
            applied(acc, Poe2Effect::GlobalStat { id: k.id, value: v1, mod_type: k.mod_type }),
            Poe2Effect::GlobalStat { id: k.id, value: v2, mod_type: k.mod_type },
        ) == applied(acc, Poe2Effect::GlobalStat { id: k.id, value: (v1 + v2) as i64, mod_type: k.mod_type }),
{
    let lhs = applied(
        applied(acc, Poe2Effect::GlobalStat { id: k.id, value: v1, mod_type: k.mod_type }),
        Poe2Effect::GlobalStat { id: k.id, value: v2, mod_type: k.mod_type },
    );
    let rhs = applied(acc, Poe2Effect::GlobalStat { id: k.id, value: (v1 + v2) as i64, mod_type: k.mod_type });
    assert(lhs.global =~= rhs.global);
}

/// The totals of the item in `slot`, none where the slot is empty.
pub open spec fn slot_totals(m: Map<EquipSlot, Map<StatKey, i64>>, slot: EquipSlot) -> Map<StatKey, i64> {
    if m.contains_key(slot) {
        m[slot]
    } else {
        Map::empty()
    }
}

} // verus!
