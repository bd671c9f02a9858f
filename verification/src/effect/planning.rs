//! Execution-order metadata of effects: phase, priority, conflicts, selection.

use vstd::prelude::*;

use crate::item::definition::Poe2DefinitionRegistry;
use crate::item::state::Poe2Effect;
use crate::item::state::Poe2ModifierDefinition;
use crate::item::state::Poe2ModifierStat;
use std::collections::HashMap;

verus! {

broadcast use vstd::std_specs::hash::group_hash_axioms;

/// The phase in which an effect executes; earlier phases run first.
#[derive(Debug, Clone, Copy, PartialEq, Eq, PartialOrd, Ord, Structural)]
pub enum Poe2EffectPhase {
    Base,
    AddedFlat,
    Conversion,
    IncreasedReduced,
    MoreLess,
    CapsAndLimits,
}

/// The priority of an effect within its phase.
#[derive(Debug, Clone, Copy, PartialEq, Eq, PartialOrd, Ord, Structural)]
pub enum Poe2EffectPriority {
    Inherent,
    Normal,
    Late,
}

/// Effects that cannot coexist.
#[derive(Debug, Clone, Copy, PartialEq, Eq, Hash, Structural)]
pub enum Poe2ConflictKey {
    ChaosInoculationLifeOverride,
    AvatarOfFireDamageRestriction,
    ResoluteTechniqueCritOverride,
}

/// Groups of effects of which only one survives.
#[derive(Debug, Clone, Copy, PartialEq, Eq, Hash, Structural)]
pub enum Poe2SelectionKey {
    Aura(u64),
    ActionSpeedFloor,
    MinimumFrenzyCharges,
}

/// `s` is a stat of some definition in `defs`.
pub open spec fn stat_in(defs: Map<u64, Poe2ModifierDefinition>, s: Poe2ModifierStat) -> bool {
    exists|k: u64, j: int|
        defs.contains_key(k) && 0 <= j < defs[k].stats@.len() && #[trigger] defs[k].stats@[j] == s
}

/// `s` is a stat of a definition in `defs` under one of `keys`, or one of
/// the first `j` stats of the definition `cur`.
pub open spec fn stat_seen(
    defs: Map<u64, Poe2ModifierDefinition>,
    keys: Set<u64>,
    cur: Poe2ModifierDefinition,
    j: int,
    s: Poe2ModifierStat,
) -> bool {
    (exists|k: u64, b: int|
        keys.contains(k) && defs.contains_key(k) && 0 <= b < defs[k].stats@.len() && #[trigger] defs[k].stats@[b] == s)
        || (exists|b: int| 0 <= b < j && b < cur.stats@.len() && #[trigger] cur.stats@[b] == s)
}

/// The stat identifier an effect targets.
pub open spec fn effect_target(effect: Poe2Effect) -> u64 {
    match effect {
        Poe2Effect::GlobalStat { id, .. } => id,
        Poe2Effect::LocalStat { id, .. } => id,
        Poe2Effect::ScaledStat { target_id, .. } => target_id,
    }
}

/// Whether `candidate` replaces `current` as a selection winner: the larger
/// value or multiplier wins among effects of the same variant; effects of
/// different variants never replace each other.
pub open spec fn prefers_spec(candidate: Poe2Effect, current: Poe2Effect) -> bool {
    match (candidate, current) {
        (Poe2Effect::GlobalStat { value: v1, .. }, Poe2Effect::GlobalStat { value: v2, .. }) => v1 > v2,
        (Poe2Effect::LocalStat { value: v1, .. }, Poe2Effect::LocalStat { value: v2, .. }) => v1 > v2,
        (
            Poe2Effect::ScaledStat { multiplier: v1, .. },
            Poe2Effect::ScaledStat { multiplier: v2, .. },
        ) => v1 > v2,
        _ => false,
    }
}

/// The phase, conflict key and selection key recorded for each stat
/// identifier.
pub type PolicyMaps = (Map<u64, Poe2EffectPhase>, Map<u64, Poe2ConflictKey>, Map<u64, Poe2SelectionKey>);

/// Records one stat: its phase, and its conflict key and selection key
/// where it has them, each under its identifier, replacing what was there.
pub open spec fn record_stat(maps: PolicyMaps, s: Poe2ModifierStat) -> PolicyMaps {
    (
        maps.0.insert(s.id_hash, s.phase),
        match s.conflict_key {
            Some(c) => maps.1.insert(s.id_hash, c),
            None => maps.1,
        },
        match s.selection_key {
            Some(k) => maps.2.insert(s.id_hash, k),
            None => maps.2,
        },
    )
}

/// Records the stats `stats` one after another over `maps`.
pub open spec fn record_stats(maps: PolicyMaps, stats: Seq<Poe2ModifierStat>) -> PolicyMaps
    decreases stats.len(),
{
    if stats.len() == 0 {
        maps
    } else {
        record_stat(record_stats(maps, stats.drop_last()), stats.last())
    }
}

/// Records every stat of the definitions `defs`, in order, starting empty.
pub open spec fn record_definitions(defs: Seq<Poe2ModifierDefinition>) -> PolicyMaps
    decreases defs.len(),
{
    if defs.len() == 0 {
        (Map::empty(), Map::empty(), Map::empty())
    } else {
        record_stats(record_definitions(defs.drop_last()), defs.last().stats@)
    }
}

/// The registry's definitions in the order in which a walk of its map
/// visits them; the order is a function of the map.
pub open spec fn registry_walk(registry: &Poe2DefinitionRegistry) -> Seq<Poe2ModifierDefinition> {
    vstd::std_specs::hash::into_iter(vstd::std_specs::hash::spec_hash_map_iter(&registry.definitions)).map_values(
        |p: (u64, Poe2ModifierDefinition)| p.1,
    )
}

/// The planning metadata of effects, by the stat identifier they target.
pub struct Poe2PlanningPolicy {
    phase_by_id: HashMap<u64, Poe2EffectPhase>,
    conflict_by_id: HashMap<u64, Poe2ConflictKey>,
    selection_by_id: HashMap<u64, Poe2SelectionKey>,
}

impl Poe2PlanningPolicy {
    /// The phase recorded for each stat identifier.
    pub closed spec fn phases(&self) -> Map<u64, Poe2EffectPhase> {
        self.phase_by_id@
    }

    /// The conflict key recorded for each stat identifier.
    pub closed spec fn conflicts(&self) -> Map<u64, Poe2ConflictKey> {
        self.conflict_by_id@
    }

    /// The selection key recorded for each stat identifier.
    pub closed spec fn selections(&self) -> Map<u64, Poe2SelectionKey> {
        self.selection_by_id@
    }

    /// The policy records, for each stat identifier of the definitions
    /// `defs`, the phase, conflict key and selection key of one of its stats,
    /// and nothing for other identifiers.
    pub open spec fn built_from(&self, defs: Map<u64, Poe2ModifierDefinition>) -> bool {
        &&& forall|id: u64|
                self.phases().contains_key(id) <==> exists|s: Poe2ModifierStat|
                    stat_in(defs, s) && s.id_hash == id
        &&& forall|id: u64|
                #![trigger self.phases()[id]]
                self.phases().contains_key(id) ==> exists|s: Poe2ModifierStat|
                    stat_in(defs, s) && s.id_hash == id && s.phase == self.phases()[id]
        &&& forall|id: u64|
                self.conflicts().contains_key(id) <==> exists|s: Poe2ModifierStat|
                    stat_in(defs, s) && s.id_hash == id && s.conflict_key is Some
        &&& forall|id: u64|
                #![trigger self.conflicts()[id]]
                self.conflicts().contains_key(id) ==> exists|s: Poe2ModifierStat|
                    stat_in(defs, s) && s.id_hash == id && s.conflict_key == Some(
                        self.conflicts()[id],
                    )
        &&& forall|id: u64|
                self.selections().contains_key(id) <==> exists|s: Poe2ModifierStat|
                    stat_in(defs, s) && s.id_hash == id && s.selection_key is Some
        &&& forall|id: u64|
                #![trigger self.selections()[id]]
                self.selections().contains_key(id) ==> exists|s: Poe2ModifierStat|
                    stat_in(defs, s) && s.id_hash == id && s.selection_key == Some(
                        self.selections()[id],
                    )
    }

    /// The policy holds what recording the stats of the registry's
    /// definitions, in the order of the walk of its map, leaves.
    pub open spec fn walked_from(&self, registry: &Poe2DefinitionRegistry) -> bool {
        (self.phases(), self.conflicts(), self.selections()) == record_definitions(registry_walk(registry))
    }

    /// The phase of an effect: a scaled stat runs in the base phase; another
    /// stat in the phase recorded for its identifier, or with the added flat
    /// values when none is recorded.
    pub open spec fn effect_phase(&self, effect: Poe2Effect) -> Poe2EffectPhase {
        match effect {
            Poe2Effect::ScaledStat { .. } => Poe2EffectPhase::Base,
            _ => if self.phases().contains_key(effect_target(effect)) {
                self.phases()[effect_target(effect)]
            } else {
                Poe2EffectPhase::AddedFlat
            },
        }
    }

    /// The conflict key recorded for the effect's stat identifier.
    pub open spec fn effect_conflict(&self, effect: Poe2Effect) -> Option<Poe2ConflictKey> {
        if self.conflicts().contains_key(effect_target(effect)) {
            Some(self.conflicts()[effect_target(effect)])
        } else {
            None
        }
    }

    /// The selection key recorded for the effect's stat identifier.
    pub open spec fn effect_selection(&self, effect: Poe2Effect) -> Option<Poe2SelectionKey> {
        if self.selections().contains_key(effect_target(effect)) {
            Some(self.selections()[effect_target(effect)])
        } else {
            None
        }
    }

    /// Collects the phase, conflict key and selection key of every stat of
    /// every definition in the registry, by stat identifier. Where two stats
    /// with one identifier disagree, the one that the walk of the registry's
    /// map visits last is kept.
    pub fn from_registry(registry: &Poe2DefinitionRegistry) -> (r: Self)
        ensures
            forall|id: u64|
                r.phases().contains_key(id) <==> exists|s: Poe2ModifierStat|
                    stat_in(registry.definitions@, s) && s.id_hash == id,
            forall|id: u64|
                #![trigger r.phases()[id]]
                r.phases().contains_key(id) ==> exists|s: Poe2ModifierStat|
                    stat_in(registry.definitions@, s) && s.id_hash == id && s.phase == r.phases()[id],
            forall|id: u64|
                r.conflicts().contains_key(id) <==> exists|s: Poe2ModifierStat|
                    stat_in(registry.definitions@, s) && s.id_hash == id && s.conflict_key is Some,
            forall|id: u64|
                #![trigger r.conflicts()[id]]
                r.conflicts().contains_key(id) ==> exists|s: Poe2ModifierStat|
                    stat_in(registry.definitions@, s) && s.id_hash == id && s.conflict_key == Some(
                        r.conflicts()[id],
                    ),
            forall|id: u64|
                r.selections().contains_key(id) <==> exists|s: Poe2ModifierStat|
                    stat_in(registry.definitions@, s) && s.id_hash == id && s.selection_key is Some,
            forall|id: u64|
                #![trigger r.selections()[id]]
                r.selections().contains_key(id) ==> exists|s: Poe2ModifierStat|
                    stat_in(registry.definitions@, s) && s.id_hash == id && s.selection_key == Some(
                        r.selections()[id],
                    ),
            r.built_from(registry.definitions@),
            r.walked_from(registry),
    {
        let mut phase_by_id: HashMap<u64, Poe2EffectPhase> = HashMap::new();
        let mut conflict_by_id: HashMap<u64, Poe2ConflictKey> = HashMap::new();
        let mut selection_by_id: HashMap<u64, Poe2SelectionKey> = HashMap::new();
        let ghost defs = registry.definitions@;
        let ghost mut seen: Set<u64> = Set::empty();
        let ghost any_def: Poe2ModifierDefinition = arbitrary();
        let ghost pairs = vstd::std_specs::hash::into_iter(
            vstd::std_specs::hash::spec_hash_map_iter(&registry.definitions),
        );
        let ghost walk = registry_walk(registry);
        for pair in it: registry.definitions.iter()
            invariant
                defs == registry.definitions@,
                walk == registry_walk(registry),
                walk == pairs.map_values(|p: (u64, Poe2ModifierDefinition)| p.1),
                pairs == it.seq().unref(),
                (phase_by_id@, conflict_by_id@, selection_by_id@) == record_definitions(walk.take(it.index())),
                it.seq().len() == defs.dom().len(),
                forall|a: int|
                    0 <= a < it.seq().len() ==> defs.contains_key(*it.seq()[a].0) && defs[*it.seq()[a].0]
                        == *it.seq()[a].1,
                forall|k: u64| #[trigger] defs.contains_key(k) ==> it.seq().contains((&k, &defs[k])),
                it.seq().no_duplicates(),
                seen == Set::new(|k: u64| exists|a: int| 0 <= a < it.index() && *it.seq()[a].0 == k),
                it.index() == it.seq().len() ==> seen == defs.dom(),
                forall|id: u64|
                    phase_by_id@.contains_key(id) <==> exists|s: Poe2ModifierStat|
                        stat_seen(defs, seen, any_def, 0, s) && s.id_hash == id,
                forall|id: u64|
                    #![trigger phase_by_id@[id]]
                    phase_by_id@.contains_key(id) ==> exists|s: Poe2ModifierStat|
                        stat_seen(defs, seen, any_def, 0, s) && s.id_hash == id && s.phase == phase_by_id@[id],
                forall|id: u64|
                    conflict_by_id@.contains_key(id) <==> exists|s: Poe2ModifierStat|
                        stat_seen(defs, seen, any_def, 0, s) && s.id_hash == id && s.conflict_key is Some,
                forall|id: u64|
                    #![trigger conflict_by_id@[id]]
                    conflict_by_id@.contains_key(id) ==> exists|s: Poe2ModifierStat|
                        stat_seen(defs, seen, any_def, 0, s) && s.id_hash == id && s.conflict_key == Some(
                            conflict_by_id@[id],
                        ),
                forall|id: u64|
                    selection_by_id@.contains_key(id) <==> exists|s: Poe2ModifierStat|
                        stat_seen(defs, seen, any_def, 0, s) && s.id_hash == id && s.selection_key is Some,
                forall|id: u64|
                    #![trigger selection_by_id@[id]]
                    selection_by_id@.contains_key(id) ==> exists|s: Poe2ModifierStat|
                        stat_seen(defs, seen, any_def, 0, s) && s.id_hash == id && s.selection_key == Some(
                            selection_by_id@[id],
                        ),
        {
            let def = pair.1;
            let ghost key = *pair.0;
            let ghost q = it.index();
            assert(*it.seq()[q].1 == *def && *it.seq()[q].0 == key);
            assert(defs.contains_key(key) && defs[key] == *def);
            assert forall|s: Poe2ModifierStat|
                #![trigger stat_seen(defs, seen, any_def, 0, s)]
                #![trigger stat_seen(defs, seen, *def, 0, s)]
                stat_seen(defs, seen, any_def, 0, s) <==> stat_seen(defs, seen, *def, 0, s) by {}
            assert(walk[q] == *def);
            let mut j: usize = 0;
            while j < def.stats.len()
                invariant
                    j <= def.stats@.len(),
                    (phase_by_id@, conflict_by_id@, selection_by_id@) == record_stats(
                        record_definitions(walk.take(q)),
                        def.stats@.take(j as int),
                    ),
                    forall|id: u64|
                        phase_by_id@.contains_key(id) <==> exists|s: Poe2ModifierStat|
                            stat_seen(defs, seen, *def, j as int, s) && s.id_hash == id,
                    forall|id: u64|
                        #![trigger phase_by_id@[id]]
                        phase_by_id@.contains_key(id) ==> exists|s: Poe2ModifierStat|
                            stat_seen(defs, seen, *def, j as int, s) && s.id_hash == id && s.phase == phase_by_id@[id],
                    forall|id: u64|
                        conflict_by_id@.contains_key(id) <==> exists|s: Poe2ModifierStat|
                            stat_seen(defs, seen, *def, j as int, s) && s.id_hash == id && s.conflict_key is Some,
                    forall|id: u64|
                        #![trigger conflict_by_id@[id]]
                        conflict_by_id@.contains_key(id) ==> exists|s: Poe2ModifierStat|
                            stat_seen(defs, seen, *def, j as int, s) && s.id_hash == id && s.conflict_key == Some(
                                conflict_by_id@[id],
                            ),
                    forall|id: u64|
                        selection_by_id@.contains_key(id) <==> exists|s: Poe2ModifierStat|
                            stat_seen(defs, seen, *def, j as int, s) && s.id_hash == id && s.selection_key is Some,
                    forall|id: u64|
                        #![trigger selection_by_id@[id]]
                        selection_by_id@.contains_key(id) ==> exists|s: Poe2ModifierStat|
                            stat_seen(defs, seen, *def, j as int, s) && s.id_hash == id && s.selection_key == Some(
                                selection_by_id@[id],
                            ),
                decreases def.stats@.len() - j,
            {
                let stat = def.stats[j];
                assert(def.stats@[j as int] == stat);
                assert(def.stats@.take(j + 1).drop_last() =~= def.stats@.take(j as int));
                assert(stat_seen(defs, seen, *def, j + 1, stat));
                assert forall|s: Poe2ModifierStat| #[trigger] stat_seen(defs, seen, *def, j as int, s) implies stat_seen(defs, seen, *def, j + 1, s) by {}
                assert forall|s: Poe2ModifierStat| #[trigger] stat_seen(defs, seen, *def, j + 1, s) && s != stat implies stat_seen(defs, seen, *def, j as int, s) by {
                    if exists|b: int| 0 <= b < j + 1 && b < def.stats@.len() && #[trigger] def.stats@[b] == s {
                        let b = choose|b: int| 0 <= b < j + 1 && b < def.stats@.len() && #[trigger] def.stats@[b] == s;
                        assert(b != j);
                    }
                }
                phase_by_id.insert(stat.id_hash, stat.phase);
                if let Some(conflict) = stat.conflict_key {
                    conflict_by_id.insert(stat.id_hash, conflict);
                }
                if let Some(selection) = stat.selection_key {
                    selection_by_id.insert(stat.id_hash, selection);
                }
                j += 1;
            }
            proof {
                assert(def.stats@.take(def.stats@.len() as int) =~= def.stats@);
                assert(walk.take(q + 1).drop_last() =~= walk.take(q));
                let new_seen = seen.insert(key);
                assert forall|s: Poe2ModifierStat|
                    #![trigger stat_seen(defs, seen, *def, def.stats@.len() as int, s)]
                    #![trigger stat_seen(defs, new_seen, any_def, 0, s)]
                    stat_seen(defs, seen, *def, def.stats@.len() as int, s) <==> stat_seen(defs, new_seen, any_def, 0, s) by {
                    if exists|b: int| 0 <= b < def.stats@.len() && b < def.stats@.len() && #[trigger] def.stats@[b] == s {
                        let b = choose|b: int| 0 <= b < def.stats@.len() && b < def.stats@.len() && #[trigger] def.stats@[b] == s;
                        assert(new_seen.contains(key) && defs[key].stats@[b] == s);
                    }
                    if exists|k: u64, b: int| new_seen.contains(k) && defs.contains_key(k) && 0 <= b < defs[k].stats@.len() && #[trigger] defs[k].stats@[b] == s {
                        let (k, b) = choose|k: u64, b: int| new_seen.contains(k) && defs.contains_key(k) && 0 <= b < defs[k].stats@.len() && #[trigger] defs[k].stats@[b] == s;
                        if k == key {
                            assert(def.stats@[b] == s);
                        }
                    }
                }
                let ps = it.seq();
                assert(new_seen =~= Set::new(|k: u64| exists|a: int| 0 <= a < q + 1 && *ps[a].0 == k)) by {
                    assert forall|k: u64| new_seen.contains(k) implies exists|a: int| 0 <= a < q + 1 && *ps[a].0 == k by {
                        if k == key {
                            assert(*ps[q].0 == k);
                        }
                    }
                }
                if q + 1 == ps.len() {
                    assert forall|k: u64| defs.dom().contains(k) implies new_seen.contains(k) by {
                        assert(ps.contains((&k, &defs[k])));
                        let a = choose|a: int| 0 <= a < ps.len() && ps[a] == (&k, &defs[k]);
                        assert(*ps[a].0 == k);
                    }
                    assert(new_seen =~= defs.dom());
                }
                seen = new_seen;
            }
        }
        proof {
            assert(walk.take(walk.len() as int) =~= walk);
            assert forall|s: Poe2ModifierStat|
                #![trigger stat_in(defs, s)]
                #![trigger stat_seen(defs, seen, any_def, 0, s)]
                stat_in(defs, s) <==> stat_seen(defs, seen, any_def, 0, s) by {
                if stat_in(defs, s) {
                    let (k, j) = choose|k: u64, j: int|
                        defs.contains_key(k) && 0 <= j < defs[k].stats@.len() && #[trigger] defs[k].stats@[j] == s;
                    assert(seen.contains(k));
                }
            }
        }
        Self { phase_by_id, conflict_by_id, selection_by_id }
    }

    /// The stat identifier an effect targets.
    fn effect_id(effect: &Poe2Effect) -> (id: u64)
        ensures
            id == effect_target(*effect),
    {
        match effect {
            Poe2Effect::GlobalStat { id, .. } => *id,
            Poe2Effect::LocalStat { id, .. } => *id,
            Poe2Effect::ScaledStat { target_id, .. } => *target_id,
        }
    }

    /// The phase of an effect: a scaled stat runs in the base phase; another
    /// stat in the phase recorded for its identifier, or with the added flat
    /// values when none is recorded.
    pub fn phase(&self, effect: &Poe2Effect) -> (p: Poe2EffectPhase)
        ensures
            p == self.effect_phase(*effect),
    {
        match effect {
            Poe2Effect::GlobalStat { id, .. } | Poe2Effect::LocalStat { id, .. } => {
                match self.phase_by_id.get(id) {
                    Some(p) => *p,
                    None => Poe2EffectPhase::AddedFlat,
                }
            },
            Poe2Effect::ScaledStat { .. } => Poe2EffectPhase::Base,
        }
    }

    /// Every effect has the normal priority.
    pub fn priority(&self, _effect: &Poe2Effect) -> (p: Poe2EffectPriority)
        ensures
            p == Poe2EffectPriority::Normal,
    {
        Poe2EffectPriority::Normal
    }

    /// The conflict key recorded for the effect's stat identifier.
    pub fn conflict_key(&self, effect: &Poe2Effect) -> (k: Option<Poe2ConflictKey>)
        ensures
            k == self.effect_conflict(*effect),
    {
        match self.conflict_by_id.get(&Self::effect_id(effect)) {
            Some(k) => Some(*k),
            None => None,
        }
    }

    /// The selection key recorded for the effect's stat identifier.
    pub fn selection_key(&self, effect: &Poe2Effect) -> (k: Option<Poe2SelectionKey>)
        ensures
            k == self.effect_selection(*effect),
    {
        match self.selection_by_id.get(&Self::effect_id(effect)) {
            Some(k) => Some(*k),
            None => None,
        }
    }

    /// Whether `candidate` replaces `current` as the winner of a selection
    /// group.
    pub fn prefers(&self, candidate: &Poe2Effect, current: &Poe2Effect) -> (b: bool)
        ensures
            b == prefers_spec(*candidate, *current),
    {
        match (candidate, current) {
            (Poe2Effect::GlobalStat { value: v1, .. }, Poe2Effect::GlobalStat { value: v2, .. }) => v1 > v2,
            (Poe2Effect::LocalStat { value: v1, .. }, Poe2Effect::LocalStat { value: v2, .. }) => v1 > v2,
            (
                Poe2Effect::ScaledStat { multiplier: v1, .. },
                Poe2Effect::ScaledStat { multiplier: v2, .. },
            ) => v1 > v2,
            _ => false,
        }
    }
}

/// All stats of `defs` with identifier `id` have phase `p`.
pub open spec fn phase_agrees(defs: Map<u64, Poe2ModifierDefinition>, id: u64, p: Poe2EffectPhase) -> bool {
    forall|s: Poe2ModifierStat| stat_in(defs, s) && s.id_hash == id ==> s.phase == p
}

/// Two policies built from one registry agree on an identifier wherever the
/// registry's stats with that identifier agree: both record its phase
/// exactly when some stat has it, and then the phase those stats share; and
/// likewise its conflict key and selection key.
pub proof fn law_policies_agree_where_stats_agree(
    p1: Poe2PlanningPolicy,
    p2: Poe2PlanningPolicy,
    defs: Map<u64, Poe2ModifierDefinition>,
    id: u64,
    phase: Poe2EffectPhase,
    conflict: Option<Poe2ConflictKey>,
    selection: Option<Poe2SelectionKey>,
)
    requires
        p1.built_from(defs),
        p2.built_from(defs),
    ensures
        p1.phases().contains_key(id) == p2.phases().contains_key(id),
        p1.conflicts().contains_key(id) == p2.conflicts().contains_key(id),
        p1.selections().contains_key(id) == p2.selections().contains_key(id),
        phase_agrees(defs, id, phase) && p1.phases().contains_key(id) ==> p1.phases()[id] == phase
            && p2.phases()[id] == phase,
        (forall|s: Poe2ModifierStat| stat_in(defs, s) && s.id_hash == id && s.conflict_key is Some ==> s.conflict_key
            == conflict) && p1.conflicts().contains_key(id) ==> Some(p1.conflicts()[id]) == conflict && Some(
            p2.conflicts()[id],
        ) == conflict,
        (forall|s: Poe2ModifierStat| stat_in(defs, s) && s.id_hash == id && s.selection_key is Some ==> s.selection_key
            == selection) && p1.selections().contains_key(id) ==> Some(p1.selections()[id]) == selection && Some(
            p2.selections()[id],
        ) == selection,
{
    if p1.phases().contains_key(id) {
        assert(p1.phases()[id] == p1.phases()[id]);
        assert(p2.phases()[id] == p2.phases()[id]);
    }
    if p1.conflicts().contains_key(id) {
        assert(p1.conflicts()[id] == p1.conflicts()[id]);
        assert(p2.conflicts()[id] == p2.conflicts()[id]);
    }
    if p1.selections().contains_key(id) {
        assert(p1.selections()[id] == p1.selections()[id]);
        assert(p2.selections()[id] == p2.selections()[id]);
    }
}

/// Two policies built from one registry are the same policy: the walk of a
/// registry's map is a function of the registry, so both builds record the
/// same phase, conflict key and selection key for every stat identifier,
/// and both answer every effect alike.
pub proof fn law_builds_from_one_registry_agree(
    registry: &Poe2DefinitionRegistry,
    p1: &Poe2PlanningPolicy,
    p2: &Poe2PlanningPolicy,
    effect: Poe2Effect,
)
    requires
        p1.walked_from(registry),
        p2.walked_from(registry),
    ensures
        p1.phases() == p2.phases(),
        p1.conflicts() == p2.conflicts(),
        p1.selections() == p2.selections(),
        p1.effect_phase(effect) == p2.effect_phase(effect),
        p1.effect_conflict(effect) == p2.effect_conflict(effect),
        p1.effect_selection(effect) == p2.effect_selection(effect),
{
}

/// The strength an effect brings to a selection group: its value, or its
/// multiplier for a scaled stat.
pub open spec fn effect_strength(e: Poe2Effect) -> int {
    match e {
        Poe2Effect::GlobalStat { value, .. } => value as int,
        Poe2Effect::LocalStat { value, .. } => value as int,
        Poe2Effect::ScaledStat { multiplier, .. } => multiplier as int,
    }
}

/// Both effects are global stats, both local stats, or both scaled stats.
pub open spec fn same_effect_variant(a: Poe2Effect, b: Poe2Effect) -> bool {
    ||| (a is GlobalStat && b is GlobalStat)
    ||| (a is LocalStat && b is LocalStat)
    ||| (a is ScaledStat && b is ScaledStat)
}

/// A candidate replaces the current winner of a selection group exactly
/// when both are effects of the same variant and the candidate is strictly
/// stronger: the larger value, or the larger multiplier for scaled stats,
/// wins; a tie keeps the current winner.
pub proof fn law_prefers_the_stronger_effect(candidate: Poe2Effect, current: Poe2Effect)
    ensures
        prefers_spec(candidate, current) <==> same_effect_variant(candidate, current) && effect_strength(candidate)
            > effect_strength(current),
{
}

/// The preference between effects is a strict order: no effect replaces
/// itself, no two effects replace each other, and replacement is transitive,
/// so the winner of a selection group does not depend on the order in which
/// its candidates are met.
pub proof fn law_prefers_is_strict_order(a: Poe2Effect, b: Poe2Effect, c: Poe2Effect)
    ensures
        !prefers_spec(a, a),
        prefers_spec(a, b) ==> !prefers_spec(b, a),
        prefers_spec(a, b) && prefers_spec(b, c) ==> prefers_spec(a, c),
{
}

} // verus!
