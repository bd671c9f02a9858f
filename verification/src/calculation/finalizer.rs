//! Summing the accumulated stat totals into final-stat buckets.

use vstd::prelude::*;

use crate::calculation::bucket_feeders::law_bucket_rows_listed_by_bucket;
use crate::calculation::bucket_feeders::stats_feeding;

use crate::calculation::accumulator::distinct_keys;
use crate::calculation::accumulator::lemma_table_map;
use crate::calculation::accumulator::lemma_table_map_push;
use crate::calculation::accumulator::lemma_table_map_update;
use crate::calculation::accumulator::table_map;
use crate::calculation::accumulator::Poe2Accumulator;
use crate::calculation::accumulator::StatKey;
use crate::calculation::accumulator::StatTable;
use crate::calculation::bucket_table::bucket_table_buckets;
use crate::calculation::bucket_table::bucket_table_len;
use crate::calculation::bucket_table::bucket_table_name;
use crate::calculation::bucket_table::buckets_distinct;
use crate::calculation::bucket_table::law_bucket_rows_well_formed;
use crate::calculation::bucket_table::bucket_table_row;
use crate::item::state::hash_string;
use crate::item::state::StatBucket;
use crate::calculation::bucket_map::bucket_map_contents;
use crate::calculation::bucket_map::bucket_map_get;
use crate::calculation::bucket_map::bucket_map_insert;
use crate::calculation::bucket_map::bucket_map_new;
use ahash::AHashMap;

verus! {


/// The attributes of a character.
#[derive(Debug, Clone, Copy, Default, PartialEq, Eq, Structural)]
pub struct Attributes {
    pub strength: u64,
    pub dexterity: u64,
    pub intelligence: u64,
}

/// A character's life pool.
#[derive(Debug, Clone, Copy, Default, PartialEq, Eq, Structural)]
pub struct LifePool {
    pub maximum: u64,
}

/// Where recovered life or mana comes from.
#[derive(Debug, Clone, Copy, PartialEq, Eq, Hash, Structural)]
pub enum RecoverySource {
    Regeneration,
    Flask,
    Leech,
    Other,
}

/// The maximum numbers of each kind of charge.
#[derive(Debug, Clone, Copy, Default, PartialEq, Eq, Structural)]
pub struct Charges {
    pub power_maximum: u64,
    pub frenzy_maximum: u64,
    pub endurance_maximum: u64,
}

/// Sums accumulated totals into buckets.
pub struct Poe2Finalizer;

/// The total under `b`, zero where there is none.
pub open spec fn bucket_or_zero(m: Map<StatBucket, i64>, b: StatBucket) -> int {
    if m.contains_key(b) {
        m[b] as int
    } else {
        0
    }
}

/// The totals after adding each contribution, in order.
pub open spec fn bucket_fold(m: Map<StatBucket, i64>, cs: Seq<(StatBucket, i64)>) -> Map<StatBucket, i64>
    decreases cs.len(),
{
    if cs.len() == 0 {
        m
    } else {
        let prev = bucket_fold(m, cs.drop_last());
        prev.insert(cs.last().0, (bucket_or_zero(prev, cs.last().0) + cs.last().1) as i64)
    }
}

/// No total leaves `i64` while the contributions are added in order.
pub open spec fn folds_fit(m: Map<StatBucket, i64>, cs: Seq<(StatBucket, i64)>) -> bool
    decreases cs.len(),
{
    if cs.len() == 0 {
        true
    } else {
        let prev = bucket_fold(m, cs.drop_last());
        folds_fit(m, cs.drop_last()) && i64::MIN <= bucket_or_zero(prev, cs.last().0) + cs.last().1
            <= i64::MAX
    }
}

/// Adding two runs of contributions one after the other is adding their
/// concatenation.
pub proof fn lemma_fold_concat(m: Map<StatBucket, i64>, a: Seq<(StatBucket, i64)>, b: Seq<(StatBucket, i64)>)
    ensures
        bucket_fold(m, a + b) == bucket_fold(bucket_fold(m, a), b),
        folds_fit(m, a + b) == (folds_fit(m, a) && folds_fit(bucket_fold(m, a), b)),
    decreases b.len(),
{
    if b.len() == 0 {
        assert(a + b =~= a);
    } else {
        assert((a + b).drop_last() =~= a + b.drop_last());
        lemma_fold_concat(m, a, b.drop_last());
    }
}

/// The sum of the contributions in `cs` to bucket `b`.
pub open spec fn bucket_sum(cs: Seq<(StatBucket, i64)>, b: StatBucket) -> int
    decreases cs.len(),
{
    if cs.len() == 0 {
        0
    } else {
        bucket_sum(cs.drop_last(), b) + if cs.last().0 == b {
            cs.last().1 as int
        } else {
            0
        }
    }
}

/// Some contribution in `cs` goes to bucket `b`.
pub open spec fn feeds(cs: Seq<(StatBucket, i64)>, b: StatBucket) -> bool {
    exists|i: int| 0 <= i < cs.len() && #[trigger] cs[i].0 == b
}

/// Totals are sums: after adding contributions, whatever their order, each
/// bucket holds its starting total plus the sum of the contributions to it,
/// and a bucket has a total exactly when it had one or something fed it.
pub proof fn law_bucket_totals_are_sums(m: Map<StatBucket, i64>, cs: Seq<(StatBucket, i64)>, b: StatBucket)
    requires
        folds_fit(m, cs),
    ensures
        bucket_or_zero(bucket_fold(m, cs), b) == bucket_or_zero(m, b) + bucket_sum(cs, b),
        bucket_fold(m, cs).contains_key(b) <==> (m.contains_key(b) || feeds(cs, b)),
    decreases cs.len(),
{
    if cs.len() > 0 {
        let prefix = cs.drop_last();
        law_bucket_totals_are_sums(m, prefix, b);
        if feeds(prefix, b) {
            let i = choose|i: int| 0 <= i < prefix.len() && #[trigger] prefix[i].0 == b;
            assert(cs[i].0 == b);
        }
        if feeds(cs, b) && cs.last().0 != b {
            let i = choose|i: int| 0 <= i < cs.len() && #[trigger] cs[i].0 == b;
            assert(prefix[i].0 == b);
        }
        if cs.last().0 == b {
            assert(cs[cs.len() - 1].0 == b);
        }
    }
}

/// The contributions of one total: its value, once for each bucket its stat
/// identifier feeds.
pub open spec fn entry_contributions(e: (StatKey, i64), mapping: Map<u64, Seq<StatBucket>>) -> Seq<(StatBucket, i64)> {
    if mapping.contains_key(e.0.id) {
        mapping[e.0.id].map_values(|b: StatBucket| (b, e.1))
    } else {
        Seq::empty()
    }
}

/// The contributions of the totals `es`, in order.
pub open spec fn contributions(es: Seq<(StatKey, i64)>, mapping: Map<u64, Seq<StatBucket>>) -> Seq<(StatBucket, i64)>
    decreases es.len(),
{
    if es.len() == 0 {
        Seq::empty()
    } else {
        contributions(es.drop_last(), mapping) + entry_contributions(es.last(), mapping)
    }
}

/// The contributions of the items in the first `n` slot positions.
pub open spec fn slot_contributions(acc: &Poe2Accumulator, mapping: Map<u64, Seq<StatBucket>>, n: int) -> Seq<
    (StatBucket, i64),
>
    decreases n,
{
    if n <= 0 {
        Seq::empty()
    } else {
        slot_contributions(acc, mapping, n - 1) + match acc.equipment_stats.slot_entries(n - 1) {
            Some(es) => contributions(es, mapping),
            None => Seq::empty(),
        }
    }
}

/// The contributions of every total of the accumulator: the global totals
/// first, then each item's, slot by slot.
pub open spec fn all_contributions(acc: &Poe2Accumulator, mapping: Map<u64, Seq<StatBucket>>) -> Seq<(StatBucket, i64)> {
    contributions(acc.global_stats.entries_seq(), mapping) + slot_contributions(acc, mapping, 11)
}

/// Totals by bucket, each bucket at most once.
#[derive(Debug)]
pub struct BucketTotals {
    entries: Vec<(StatBucket, i64)>,
}

impl View for BucketTotals {
    type V = Map<StatBucket, i64>;

    closed spec fn view(&self) -> Map<StatBucket, i64> {
        table_map(self.entries@)
    }
}

impl BucketTotals {
    #[verifier::type_invariant]
    closed spec fn buckets_distinct(self) -> bool {
        distinct_keys(self.entries@)
    }

    /// No totals.
    pub fn new() -> (t: Self)
        ensures
            t@ == Map::<StatBucket, i64>::empty(),
    {
        BucketTotals { entries: Vec::new() }
    }

    /// The total of `bucket`, if any.
    pub fn get(&self, bucket: StatBucket) -> (r: Option<i64>)
        ensures
            r == (if self@.contains_key(bucket) {
                Some(self@[bucket])
            } else {
                None
            }),
    {
        proof {
            use_type_invariant(self);
            lemma_table_map(self.entries@);
        }
        let mut i: usize = 0;
        while i < self.entries.len()
            invariant
                i <= self.entries@.len(),
                distinct_keys(self.entries@),
                forall|q: int| 0 <= q < i ==> self.entries@[q].0 != bucket,
            decreases self.entries@.len() - i,
        {
            if self.entries[i].0 == bucket {
                proof {
                    lemma_table_map(self.entries@);
                }
                return Some(self.entries[i].1);
            }
            i += 1;
        }
        None
    }

    /// Adds `delta` to the total of `bucket`, starting from zero, where the
    /// sum fits in `i64`; otherwise leaves the totals as they are.
    pub fn try_add(&mut self, bucket: StatBucket, delta: i64) -> (ok: bool)
        ensures
            ok == (i64::MIN <= bucket_or_zero(old(self)@, bucket) + delta <= i64::MAX),
            ok ==> final(self)@ == old(self)@.insert(bucket, (bucket_or_zero(old(self)@, bucket) + delta) as i64),
            !ok ==> final(self)@ == old(self)@,
    {
        let current = match self.get(bucket) {
            Some(v) => v,
            None => 0,
        };
        match current.checked_add(delta) {
            Some(_) => {
                self.add(bucket, delta);
                true
            },
            None => false,
        }
    }

    /// Adds `delta` to the total of `bucket`, starting from zero.
    pub fn add(&mut self, bucket: StatBucket, delta: i64)
        requires
            i64::MIN <= bucket_or_zero(old(self)@, bucket) + delta <= i64::MAX,
        ensures
            final(self)@ == old(self)@.insert(bucket, (bucket_or_zero(old(self)@, bucket) + delta) as i64),
    {
        proof {
            use_type_invariant(&*self);
            lemma_table_map(self.entries@);
        }
        let ghost es0 = self.entries@;
        let mut i: usize = 0;
        while i < self.entries.len()
            invariant
                i <= self.entries@.len(),
                self.entries@ == es0,
                es0 == old(self).entries@,
                distinct_keys(es0),
                i64::MIN <= bucket_or_zero(table_map(es0), bucket) + delta <= i64::MAX,
                forall|q: int| 0 <= q < i ==> self.entries@[q].0 != bucket,
            decreases self.entries@.len() - i,
        {
            if self.entries[i].0 == bucket {
                proof {
                    lemma_table_map(es0);
                }
                let old_value = self.entries[i].1;
                proof {
                    lemma_table_map_update(es0, i as int, (old_value + delta) as i64);
                }
                let mut entries: Vec<(StatBucket, i64)> = Vec::new();
                std::mem::swap(&mut entries, &mut self.entries);
                entries.set(i, (bucket, old_value + delta));
                assert(entries@ == es0.update(i as int, (es0[i as int].0, (old_value + delta) as i64)));
                self.entries = entries;
                return;
            }
            i += 1;
        }
        proof {
            lemma_table_map(es0);
            lemma_table_map_push(es0, bucket, delta);
        }
        let mut entries: Vec<(StatBucket, i64)> = Vec::new();
        std::mem::swap(&mut entries, &mut self.entries);
        entries.push((bucket, delta));
        self.entries = entries;
    }
}

impl Poe2Finalizer {
    /// Adds the contributions of the totals `stats` to `totals`.
    pub fn add_stats_to_buckets(
        &self,
        stats: &StatTable,
        buckets_by_id: &AHashMap<u64, Vec<StatBucket>>,
        totals: &mut BucketTotals,
    )
        requires
            folds_fit(old(totals)@, contributions(stats.entries_seq(), bucket_map_contents(*buckets_by_id))),
        ensures
            final(totals)@ == bucket_fold(old(totals)@, contributions(stats.entries_seq(), bucket_map_contents(*buckets_by_id))),
    {
        let ghost m0 = totals@;
        let ghost es = stats.entries_seq();
        let ghost mapping = bucket_map_contents(*buckets_by_id);
        let n = stats.len();
        let mut i: usize = 0;
        assert(es.take(0) =~= Seq::<(StatKey, i64)>::empty());
        while i < n
            invariant
                n == es.len(),
                es == stats.entries_seq(),
                mapping == bucket_map_contents(*buckets_by_id),
                i <= n,
                folds_fit(m0, contributions(es, mapping)),
                totals@ == bucket_fold(m0, contributions(es.take(i as int), mapping)),
                folds_fit(m0, contributions(es.take(i as int), mapping)),
            decreases n - i,
        {
            let (key, value) = stats.entry(i);
            let ghost before = contributions(es.take(i as int), mapping);
            let ghost here = entry_contributions(es[i as int], mapping);
            proof {
                assert(es.take(i + 1).drop_last() =~= es.take(i as int));
                assert(contributions(es.take(i + 1), mapping) == before + here);
                lemma_contributions_prefix(es, mapping, i + 1);
                lemma_fold_concat(m0, contributions(es.take(i + 1), mapping), contributions(es, mapping).skip(contributions(es.take(i + 1), mapping).len() as int));
                lemma_fold_concat(m0, before, here);
            }
            match bucket_map_get(buckets_by_id, key.id) {
                Some(buckets) => {
                    assert(here == buckets@.map_values(|b: StatBucket| (b, value)));
                    let mut j: usize = 0;
                    while j < buckets.len()
                        invariant
                            j <= buckets@.len(),
                            here == buckets@.map_values(|b: StatBucket| (b, value)),
                            folds_fit(bucket_fold(m0, before), here),
                            totals@ == bucket_fold(bucket_fold(m0, before), here.take(j as int)),
                        decreases buckets@.len() - j,
                    {
                        proof {
                            assert(here.take(j + 1).drop_last() =~= here.take(j as int));
                            assert(here =~= here.take(j + 1) + here.skip(j + 1));
                            lemma_fold_concat(bucket_fold(m0, before), here.take(j + 1), here.skip(j + 1));
                        }
                        totals.add(buckets[j], value);
                        j += 1;
                    }
                    assert(here.take(j as int) =~= here);
                },
                None => {
                    assert(here =~= Seq::<(StatBucket, i64)>::empty());
                },
            }
            i += 1;
        }
        assert(es.take(n as int) =~= es);
    }
}

impl Poe2Finalizer {
    /// Adds the contributions of the totals `stats` to `totals` while every
    /// sum fits in `i64`; tells whether all of them did.
    fn add_stats_to_buckets_checked(
        &self,
        stats: &StatTable,
        buckets_by_id: &AHashMap<u64, Vec<StatBucket>>,
        totals: &mut BucketTotals,
    ) -> (ok: bool)
        ensures
            ok == folds_fit(old(totals)@, contributions(stats.entries_seq(), bucket_map_contents(*buckets_by_id))),
            ok ==> final(totals)@ == bucket_fold(old(totals)@, contributions(stats.entries_seq(), bucket_map_contents(*buckets_by_id))),
    {
        let ghost m0 = totals@;
        let ghost es = stats.entries_seq();
        let ghost mapping = bucket_map_contents(*buckets_by_id);
        let n = stats.len();
        let mut i: usize = 0;
        assert(es.take(0) =~= Seq::<(StatKey, i64)>::empty());
        while i < n
            invariant
                n == es.len(),
                es == stats.entries_seq(),
                mapping == bucket_map_contents(*buckets_by_id),
                m0 == old(totals)@,
                i <= n,
                totals@ == bucket_fold(m0, contributions(es.take(i as int), mapping)),
                folds_fit(m0, contributions(es.take(i as int), mapping)),
            decreases n - i,
        {
            let (key, value) = stats.entry(i);
            let ghost before = contributions(es.take(i as int), mapping);
            let ghost here = entry_contributions(es[i as int], mapping);
            let ghost rest = contributions(es, mapping).skip(contributions(es.take(i + 1), mapping).len() as int);
            proof {
                assert(es.take(i + 1).drop_last() =~= es.take(i as int));
                assert(contributions(es.take(i + 1), mapping) == before + here);
                lemma_contributions_prefix(es, mapping, i + 1);
                lemma_fold_concat(m0, contributions(es.take(i + 1), mapping), rest);
                lemma_fold_concat(m0, before, here);
            }
            match bucket_map_get(buckets_by_id, key.id) {
                Some(buckets) => {
                    assert(here == buckets@.map_values(|b: StatBucket| (b, value)));
                    let mut j: usize = 0;
                    while j < buckets.len()
                        invariant
                            j <= buckets@.len(),
                            n == es.len(),
                            es == stats.entries_seq(),
                            mapping == bucket_map_contents(*buckets_by_id),
                            m0 == old(totals)@,
                            here == buckets@.map_values(|b: StatBucket| (b, value)),
                            folds_fit(m0, contributions(es, mapping)) ==> folds_fit(bucket_fold(m0, before), here),
                            folds_fit(bucket_fold(m0, before), here.take(j as int)),
                            totals@ == bucket_fold(bucket_fold(m0, before), here.take(j as int)),
                        decreases buckets@.len() - j,
                    {
                        proof {
                            assert(here.take(j + 1).drop_last() =~= here.take(j as int));
                            assert(here =~= here.take(j + 1) + here.skip(j + 1));
                            lemma_fold_concat(bucket_fold(m0, before), here.take(j + 1), here.skip(j + 1));
                        }
                        if !totals.try_add(buckets[j], value) {
                            assert(!folds_fit(bucket_fold(m0, before), here));
                            assert(!folds_fit(m0, contributions(es, mapping)));
                            return false;
                        }
                        j += 1;
                    }
                    assert(here.take(j as int) =~= here);
                },
                None => {
                    assert(here =~= Seq::<(StatBucket, i64)>::empty());
                    assert(bucket_fold(bucket_fold(m0, before), here) == bucket_fold(m0, before));
                },
            }
            i += 1;
        }
        assert(es.take(n as int) =~= es);
        true
    }

    /// Sums every total of the accumulator into the buckets its stat
    /// identifier feeds, as `finalize_by_bucket` does, where every sum fits
    /// in `i64`; `None` where one would not.
    pub fn finalize_by_bucket_checked(&self, acc: &Poe2Accumulator, buckets_by_id: &AHashMap<u64, Vec<StatBucket>>) -> (r:
        Option<BucketTotals>)
        ensures
            r is Some <==> folds_fit(Map::empty(), all_contributions(acc, bucket_map_contents(*buckets_by_id))),
            r matches Some(t) ==> t@ == bucket_fold(Map::empty(), all_contributions(acc, bucket_map_contents(*buckets_by_id))),
    {
        let ghost mapping = bucket_map_contents(*buckets_by_id);
        let ghost cg = contributions(acc.global_stats.entries_seq(), mapping);
        let ghost m0 = Map::<StatBucket, i64>::empty();
        let mut totals = BucketTotals::new();
        proof {
            lemma_fold_concat(m0, cg, slot_contributions(acc, mapping, 11));
        }
        if !self.add_stats_to_buckets_checked(&acc.global_stats, buckets_by_id, &mut totals) {
            return None;
        }
        let mut i: usize = 0;
        while i < 11
            invariant
                mapping == bucket_map_contents(*buckets_by_id),
                cg == contributions(acc.global_stats.entries_seq(), mapping),
                m0 == Map::<StatBucket, i64>::empty(),
                i <= 11,
                folds_fit(m0, cg),
                folds_fit(bucket_fold(m0, cg), slot_contributions(acc, mapping, i as int)),
                totals@ == bucket_fold(bucket_fold(m0, cg), slot_contributions(acc, mapping, i as int)),
            decreases 11 - i,
        {
            let ghost before = slot_contributions(acc, mapping, i as int);
            let ghost base = bucket_fold(m0, cg);
            let ghost here = match acc.equipment_stats.slot_entries(i as int) {
                Some(es) => contributions(es, mapping),
                None => Seq::empty(),
            };
            proof {
                lemma_slot_contributions_prefix(acc, mapping, i + 1, 11);
                let c1 = slot_contributions(acc, mapping, i + 1);
                lemma_fold_concat(base, c1, slot_contributions(acc, mapping, 11).skip(c1.len() as int));
                assert(c1 == before + here);
                lemma_fold_concat(base, before, here);
            }
            match acc.equipment_stats.at(i) {
                Some(local) => {
                    if !self.add_stats_to_buckets_checked(&local.stats, buckets_by_id, &mut totals) {
                        assert(here == contributions(local.stats.entries_seq(), mapping));
                        assert(!folds_fit(bucket_fold(base, before), here));
                        assert(!folds_fit(base, slot_contributions(acc, mapping, i + 1)));
                        assert(!folds_fit(base, slot_contributions(acc, mapping, 11)));
                        proof {
                            lemma_fold_concat(m0, cg, slot_contributions(acc, mapping, 11));
                        }
                        return None;
                    }
                },
                None => {
                    assert(bucket_fold(totals@, Seq::<(StatBucket, i64)>::empty()) == totals@);
                },
            }
            i += 1;
        }
        proof {
            lemma_fold_concat(m0, cg, slot_contributions(acc, mapping, 11));
        }
        Some(totals)
    }
}

impl Poe2Finalizer {
    /// Sums every total of the accumulator into the buckets its stat
    /// identifier feeds: the global totals first, then each item's, slot by
    /// slot.
    pub fn finalize_by_bucket(&self, acc: &Poe2Accumulator, buckets_by_id: &AHashMap<u64, Vec<StatBucket>>) -> (r:
        BucketTotals)
        requires
            folds_fit(Map::empty(), all_contributions(acc, bucket_map_contents(*buckets_by_id))),
        ensures
            r@ == bucket_fold(Map::empty(), all_contributions(acc, bucket_map_contents(*buckets_by_id))),
    {
        let ghost mapping = bucket_map_contents(*buckets_by_id);
        let ghost cg = contributions(acc.global_stats.entries_seq(), mapping);
        let ghost m0 = Map::<StatBucket, i64>::empty();
        let mut totals = BucketTotals::new();
        proof {
            lemma_fold_concat(m0, cg, slot_contributions(acc, mapping, 11));
        }
        self.add_stats_to_buckets(&acc.global_stats, buckets_by_id, &mut totals);
        let mut i: usize = 0;
        while i < 11
            invariant
                mapping == bucket_map_contents(*buckets_by_id),
                i <= 11,
                folds_fit(bucket_fold(m0, cg), slot_contributions(acc, mapping, 11)),
                totals@ == bucket_fold(bucket_fold(m0, cg), slot_contributions(acc, mapping, i as int)),
            decreases 11 - i,
        {
            let ghost before = slot_contributions(acc, mapping, i as int);
            let ghost base = bucket_fold(m0, cg);
            proof {
                lemma_slot_contributions_prefix(acc, mapping, i + 1, 11);
                let c1 = slot_contributions(acc, mapping, i + 1);
                lemma_fold_concat(base, c1, slot_contributions(acc, mapping, 11).skip(c1.len() as int));
                let here = match acc.equipment_stats.slot_entries(i as int) {
                    Some(es) => contributions(es, mapping),
                    None => Seq::empty(),
                };
                assert(c1 == before + here);
                lemma_fold_concat(base, before, here);
            }
            match acc.equipment_stats.at(i) {
                Some(local) => {
                    self.add_stats_to_buckets(&local.stats, buckets_by_id, &mut totals);
                },
                None => {
                    assert(bucket_fold(totals@, Seq::<(StatBucket, i64)>::empty()) == totals@);
                },
            }
            i += 1;
        }
        proof {
            lemma_fold_concat(m0, cg, slot_contributions(acc, mapping, 11));
        }
        totals
    }
}

/// The bucket mapping after the first `n` rows of the bucket table, each row
/// under the hash `hs[i]` of its stat identifier; a later row replaces an
/// earlier one under the same hash.
pub open spec fn mapping_from(hs: Seq<u64>, n: int) -> Map<u64, Seq<StatBucket>>
    decreases n,
{
    if n <= 0 {
        Map::empty()
    } else {
        mapping_from(hs, n - 1).insert(hs[n - 1], bucket_table_buckets(n - 1))
    }
}

/// Builds the bucket mapping from the hashes of the table's stat
/// identifiers, row by row.
pub fn bucket_mapping_from_hashes(hashes: &Vec<u64>) -> (r: AHashMap<u64, Vec<StatBucket>>)
    requires
        hashes@.len() == bucket_table_len(),
    ensures
        bucket_map_contents(r) == mapping_from(hashes@, bucket_table_len()),
{
    let mut m = bucket_map_new();
    let mut i: usize = 0;
    assert(bucket_map_contents(m) =~= mapping_from(hashes@, 0));
    while i < hashes.len()
        invariant
            hashes@.len() == bucket_table_len(),
            i <= hashes@.len(),
            bucket_map_contents(m) == mapping_from(hashes@, i as int),
        decreases hashes@.len() - i,
    {
        let (_name, buckets) = bucket_table_row(i);
        bucket_map_insert(&mut m, hashes[i], buckets);
        i += 1;
    }
    m
}

impl Poe2Finalizer {
    /// The bucket mapping: each stat identifier of the bucket table, by its
    /// `hash_string` hash, to the buckets it feeds. Whatever values the
    /// hashes took, the mapping is the one `bucket_mapping_from_hashes`
    /// builds from them.
    pub fn get_bucket_mapping() -> (r: AHashMap<u64, Vec<StatBucket>>)
        ensures
            exists|hs: Seq<u64>|
                hs.len() == bucket_table_len() && #[trigger] mapping_from(hs, bucket_table_len())
                    == bucket_map_contents(r),
    {
        let mut hashes: Vec<u64> = Vec::new();
        let mut i: usize = 0;
        while i < 549
            invariant
                i <= 549,
                bucket_table_len() == 549,
                hashes@.len() == i,
            decreases 549 - i,
        {
            let (name, _buckets) = bucket_table_row(i);
            hashes.push(hash_string(name));
            i += 1;
        }
        let r = bucket_mapping_from_hashes(&hashes);
        assert(mapping_from(hashes@, bucket_table_len()) == bucket_map_contents(r));
        r
    }
}

/// The last of the first `n` positions of `hs` that hold `k`.
pub open spec fn last_with_hash(hs: Seq<u64>, k: u64, n: int) -> Option<int>
    decreases n,
{
    if n <= 0 {
        None
    } else if hs[n - 1] == k {
        Some(n - 1)
    } else {
        last_with_hash(hs, k, n - 1)
    }
}

/// The last of the first `n` rows of the bucket table with identifier `name`.
pub open spec fn last_row_named(name: Seq<char>, n: int) -> Option<int>
    decreases n,
{
    if n <= 0 {
        None
    } else if bucket_table_name(n - 1) == name {
        Some(n - 1)
    } else {
        last_row_named(name, n - 1)
    }
}

/// `hs` hashes the identifiers of the bucket table faithfully: two rows get
/// one hash exactly when they have one identifier.
pub open spec fn hashes_follow_names(hs: Seq<u64>) -> bool {
    &&& hs.len() == bucket_table_len()
    &&& forall|a: int, b: int|
        0 <= a < bucket_table_len() && 0 <= b < bucket_table_len() ==> ((hs[a] == hs[b]) <==> (
        bucket_table_name(a) == bucket_table_name(b)))
}

/// The mapping built from the first `n` rows has a key exactly where one of
/// those rows has that hash, and under it the buckets of the last such row.
proof fn lemma_mapping_from(hs: Seq<u64>, n: int, k: u64)
    requires
        0 <= n <= hs.len(),
    ensures
        mapping_from(hs, n).contains_key(k) <==> last_with_hash(hs, k, n) is Some,
        last_with_hash(hs, k, n) matches Some(j) ==> 0 <= j < n && hs[j] == k && mapping_from(hs, n)[k]
            == bucket_table_buckets(j),
        last_with_hash(hs, k, n) is None ==> forall|j: int| 0 <= j < n ==> hs[j] != k,
    decreases n,
{
    if n > 0 {
        lemma_mapping_from(hs, n - 1, k);
    }
}

/// Under faithful hashes, the last row with the hash of row `i` is the last
/// row with the identifier of row `i`.
proof fn lemma_last_rows_agree(hs: Seq<u64>, i: int, n: int)
    requires
        hashes_follow_names(hs),
        0 <= i < bucket_table_len(),
        0 <= n <= bucket_table_len(),
    ensures
        last_with_hash(hs, hs[i], n) == last_row_named(bucket_table_name(i), n),
    decreases n,
{
    if n > 0 {
        lemma_last_rows_agree(hs, i, n - 1);
        assert((hs[n - 1] == hs[i]) <==> (bucket_table_name(n - 1) == bucket_table_name(i)));
    }
}

/// A row's identifier has a last row at or after it.
proof fn lemma_last_row_named_found(i: int, n: int)
    requires
        0 <= i < n,
    ensures
        last_row_named(bucket_table_name(i), n) matches Some(j) && i <= j < n && bucket_table_name(j)
            == bucket_table_name(i),
    decreases n,
{
    if n - 1 != i && bucket_table_name(n - 1) != bucket_table_name(i) {
        lemma_last_row_named_found(i, n - 1);
    }
}

/// The bucket mapping, read by identifier: whenever the hashes it was built
/// from follow the identifiers of the table, each identifier of the table is
/// a key, under it stand the buckets of the last row with that identifier (a
/// repeated identifier keeps its later row), and nothing else is a key.
pub proof fn law_bucket_mapping_by_identifier(hs: Seq<u64>, i: int, k: u64)
    requires
        hashes_follow_names(hs),
        0 <= i < bucket_table_len(),
    ensures
        mapping_from(hs, bucket_table_len()).contains_key(hs[i]),
        last_row_named(bucket_table_name(i), bucket_table_len()) matches Some(j) && mapping_from(
            hs,
            bucket_table_len(),
        )[hs[i]] == bucket_table_buckets(j) && bucket_table_name(j) == bucket_table_name(i),
        mapping_from(hs, bucket_table_len()).contains_key(k) <==> exists|j: int|
            0 <= j < bucket_table_len() && #[trigger] hs[j] == k,
{
    let n = bucket_table_len();
    lemma_mapping_from(hs, n, hs[i]);
    lemma_mapping_from(hs, n, k);
    lemma_last_rows_agree(hs, i, n);
    lemma_last_row_named_found(i, n);
}

/// Whenever the hashes follow the identifiers of the table, the bucket
/// mapping sends each table identifier only to buckets that the identifier
/// is listed as feeding.
pub proof fn law_bucket_mapping_feeds_listed_buckets(hs: Seq<u64>, i: int, b: StatBucket)
    requires
        hashes_follow_names(hs),
        0 <= i < bucket_table_len(),
    ensures
        mapping_from(hs, bucket_table_len())[hs[i]].contains(b) ==> stats_feeding(b).contains(
            bucket_table_name(i),
        ),
{
    law_bucket_mapping_by_identifier(hs, i, 0);
    lemma_last_row_named_found(i, bucket_table_len());
    let j = last_row_named(bucket_table_name(i), bucket_table_len())->0;
    if mapping_from(hs, bucket_table_len())[hs[i]].contains(b) {
        let m = choose|m: int| 0 <= m < bucket_table_buckets(j).len() && bucket_table_buckets(j)[m] == b;
        law_bucket_rows_listed_by_bucket(j, m);
    }
}

/// Whatever the hashes, every key of the bucket mapping feeds one to four
/// buckets, none twice.
pub proof fn law_bucket_mapping_values_well_formed(hs: Seq<u64>, k: u64)
    requires
        hs.len() == bucket_table_len(),
        mapping_from(hs, bucket_table_len()).contains_key(k),
    ensures
        1 <= mapping_from(hs, bucket_table_len())[k].len() <= 4,
        buckets_distinct(mapping_from(hs, bucket_table_len())[k]),
{
    lemma_mapping_from(hs, bucket_table_len(), k);
    let j = last_with_hash(hs, k, bucket_table_len())->0;
    law_bucket_rows_well_formed(j);
}

/// The contributions of the first `i` slots start those of the first `n`.
pub proof fn lemma_slot_contributions_prefix(acc: &Poe2Accumulator, mapping: Map<u64, Seq<StatBucket>>, i: int, n: int)
    requires
        0 <= i <= n,
    ensures
        slot_contributions(acc, mapping, n) == slot_contributions(acc, mapping, i) + slot_contributions(
            acc,
            mapping,
            n,
        ).skip(slot_contributions(acc, mapping, i).len() as int),
        slot_contributions(acc, mapping, i).len() <= slot_contributions(acc, mapping, n).len(),
    decreases n - i,
{
    if i == n {
        assert(slot_contributions(acc, mapping, n).skip(slot_contributions(acc, mapping, n).len() as int) =~= Seq::<
            (StatBucket, i64),
        >::empty());
        assert(slot_contributions(acc, mapping, n) =~= slot_contributions(acc, mapping, n) + Seq::<(StatBucket, i64)>::empty());
    } else {
        lemma_slot_contributions_prefix(acc, mapping, i + 1, n);
        let a = slot_contributions(acc, mapping, i);
        let all = slot_contributions(acc, mapping, n);
        assert(all =~= a + all.skip(a.len() as int));
    }
}

/// The contributions of a prefix of the totals start the contributions of
/// all of them.
pub proof fn lemma_contributions_prefix(es: Seq<(StatKey, i64)>, mapping: Map<u64, Seq<StatBucket>>, i: int)
    requires
        0 <= i <= es.len(),
    ensures
        contributions(es, mapping) == contributions(es.take(i), mapping) + contributions(es, mapping).skip(
            contributions(es.take(i), mapping).len() as int,
        ),
        contributions(es.take(i), mapping).len() <= contributions(es, mapping).len(),
    decreases es.len() - i,
{
    if i == es.len() {
        assert(es.take(i) =~= es);
        assert(contributions(es, mapping).skip(contributions(es, mapping).len() as int) =~= Seq::<(StatBucket, i64)>::empty());
    } else {
        lemma_contributions_prefix(es, mapping, i + 1);
        assert(es.take(i + 1).drop_last() =~= es.take(i));
        let a = contributions(es.take(i), mapping);
        let b = contributions(es.take(i + 1), mapping);
        let all = contributions(es, mapping);
        assert(all =~= a + all.skip(a.len() as int));
    }
}

} // verus!
