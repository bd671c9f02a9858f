//! Building modifier definitions from the database: stat-identifier
//! splitting, phase classification and the definition registry.

use vstd::prelude::*;

use crate::effect::planning::Poe2ConflictKey;
use crate::effect::planning::Poe2EffectPhase;
use crate::effect::planning::Poe2SelectionKey;
use crate::item::state::hash_string;
use crate::item::state::DefinitionView;
use crate::item::state::Poe2ModifierDefinition;
use crate::item::state::Poe2ModifierId;
use crate::item::state::kind_of_name;
use crate::item::state::modifier_kind;
use crate::item::state::Poe2ModifierStat;
use crate::repoe_parse::HashedTagWeight;
use crate::repoe_parse::RawMod;
use crate::repoe_parse::RawModsFile;
use std::collections::HashMap;
use crate::item::state::Poe2StatModifierKind;
use crate::poe2_condition::condition_of_suffix;
use crate::poe2_condition::is_condition_suffix;
use crate::poe2_condition::parse_condition;
use crate::poe2_scaling::is_scaling_suffix;
use crate::poe2_scaling::parse_scaling;
use crate::poe2_scaling::scaling_of_suffix;
use crate::text::chars_eq;
use crate::text::chars_of;
use crate::text::contains_exec;
use crate::text::ends_with_exec;
use crate::text::occurs_at;
use crate::text::occurs_at_exec;
use crate::text::seq_contains;
use crate::text::seq_ends_with;
use crate::text::seq_starts_with;
use crate::text::starts_with_exec;
use vstd::string::StrSliceExecFns;

verus! {

broadcast use {vstd::string::group_string_axioms, vstd::std_specs::hash::group_hash_axioms};

/// The set of stat identifiers that occur in the database.
pub struct KnownStatIds {
    ids: Vec<Vec<char>>,
}

impl View for KnownStatIds {
    type V = Set<Seq<char>>;

    closed spec fn view(&self) -> Set<Seq<char>> {
        Set::new(|x: Seq<char>| exists|k: int| 0 <= k < self.ids@.len() && self.ids@[k]@ == x)
    }
}

impl KnownStatIds {
    /// The empty set.
    pub fn new() -> (r: Self)
        ensures
            r@ == Set::<Seq<char>>::empty(),
    {
        let r = KnownStatIds { ids: Vec::new() };
        assert(r@ =~= Set::<Seq<char>>::empty());
        r
    }

    /// Adds an identifier.
    pub fn insert(&mut self, id: &str)
        ensures
            final(self)@ == old(self)@.insert(id@),
    {
        let ghost before = self@;
        let c = chars_of(id);
        self.ids.push(c);
        assert forall|x: Seq<char>| self@.contains(x) == before.insert(id@).contains(x) by {
            if before.contains(x) {
                let k = choose|k: int| 0 <= k < old(self).ids@.len() && old(self).ids@[k]@ == x;
                assert(self.ids@[k]@ == x);
            }
            if x == id@ {
                assert(self.ids@[self.ids@.len() - 1]@ == x);
            }
            if self@.contains(x) {
                let k = choose|k: int| 0 <= k < self.ids@.len() && self.ids@[k]@ == x;
                if k < old(self).ids@.len() {
                    assert(old(self).ids@[k] == self.ids@[k]);
                }
            }
        }
        assert(self@ =~= before.insert(id@));
    }

    /// Whether the first `len` characters of `s` are a known identifier.
    pub fn contains_prefix(&self, s: &Vec<char>, len: usize) -> (b: bool)
        requires
            len <= s@.len(),
        ensures
            b == self@.contains(s@.subrange(0, len as int)),
    {
        let mut k: usize = 0;
        while k < self.ids.len()
            invariant
                len <= s@.len(),
                k <= self.ids@.len(),
                forall|q: int| 0 <= q < k ==> self.ids@[q]@ != s@.subrange(0, len as int),
            decreases self.ids@.len() - k,
        {
            let id = &self.ids[k];
            if id.len() == len && occurs_at_exec(s, id, 0) {
                assert(id@ =~= s@.subrange(0, len as int));
                return true;
            }
            proof {
                if id@ == s@.subrange(0, len as int) {
                    assert(occurs_at(s@, id@, 0));
                }
            }
            k += 1;
        }
        false
    }
}

/// The first position at or after `from` where `m` occurs in `s`.
pub open spec fn first_occurrence_from(s: Seq<char>, m: Seq<char>, from: int) -> Option<int>
    decreases s.len() + 1 - from,
{
    if from < 0 || from + m.len() > s.len() {
        None
    } else if occurs_at(s, m, from) {
        Some(from)
    } else {
        first_occurrence_from(s, m, from + 1)
    }
}

/// A found occurrence lies at or after the starting position and inside `s`.
pub proof fn lemma_first_occurrence_bounds(s: Seq<char>, m: Seq<char>, from: int)
    requires
        0 <= from,
    ensures
        first_occurrence_from(s, m, from) matches Some(i) ==> from <= i && occurs_at(s, m, i),
        first_occurrence_from(s, m, from) is None ==> forall|i: int|
            from <= i ==> !occurs_at(s, m, i),
    decreases s.len() + 1 - from,
{
    if from < 0 || from + m.len() > s.len() {
    } else if occurs_at(s, m, from) {
    } else {
        lemma_first_occurrence_bounds(s, m, from + 1);
        assert forall|i: int| from <= i && first_occurrence_from(s, m, from) is None implies !occurs_at(s, m, i) by {
            if i == from {
            }
        }
    }
}

/// Walks the non-overlapping occurrences of `m` in `s`, left to right from
/// `from`, and gives the first one that leaves a non-empty known prefix.
pub open spec fn valid_split_from(s: Seq<char>, m: Seq<char>, known: Set<Seq<char>>, from: int) -> Option<int>
    decreases s.len() - from,
{
    if m.len() == 0 || from < 0 || from > s.len() {
        None
    } else {
        match first_occurrence_from(s, m, from) {
            None => None,
            Some(i) => {
                if 0 < i && known.contains(s.subrange(0, i)) {
                    Some(i)
                } else {
                    proof {
                        lemma_first_occurrence_bounds(s, m, from);
                    }
                    valid_split_from(s, m, known, i + m.len())
                }
            },
        }
    }
}

/// The split position of `s` at marker `m`: the first non-overlapping
/// occurrence of `m` whose non-empty prefix is a known identifier.
pub open spec fn valid_split(s: Seq<char>, m: Seq<char>, known: Set<Seq<char>>) -> Option<int> {
    valid_split_from(s, m, known, 0)
}

/// A split lies strictly inside `s`, and `m` occurs there.
pub proof fn lemma_valid_split_bounds(s: Seq<char>, m: Seq<char>, known: Set<Seq<char>>, from: int)
    ensures
        valid_split_from(s, m, known, from) matches Some(i) ==> 0 < i && occurs_at(s, m, i)
            && known.contains(s.subrange(0, i)),
    decreases s.len() - from,
{
    if m.len() == 0 || from < 0 || from > s.len() {
    } else {
        lemma_first_occurrence_bounds(s, m, from);
        match first_occurrence_from(s, m, from) {
            None => {},
            Some(i) => {
                if 0 < i && known.contains(s.subrange(0, i)) {
                } else {
                    lemma_valid_split_bounds(s, m, known, i + m.len());
                }
            },
        }
    }
}

/// The first position at or after `from` where `m` occurs in `s`.
fn first_occurrence(s: &Vec<char>, m: &Vec<char>, from: usize) -> (r: Option<usize>)
    requires
        from <= s@.len(),
    ensures
        r matches Some(i) ==> first_occurrence_from(s@, m@, from as int) == Some(i as int),
        r is None ==> first_occurrence_from(s@, m@, from as int) is None,
{
    if m.len() > s.len() - from {
        return None;
    }
    let last = s.len() - m.len();
    let mut i = from;
    loop
        invariant
            from <= i <= last,
            last + m@.len() == s@.len(),
            first_occurrence_from(s@, m@, from as int) == first_occurrence_from(s@, m@, i as int),
        decreases last - i,
    {
        if occurs_at_exec(s, m, i) {
            return Some(i);
        }
        if i == last {
            assert(first_occurrence_from(s@, m@, i + 1) is None);
            return None;
        }
        i += 1;
    }
}

/// The position, counted in characters, at which `raw_id` splits at
/// `marker`: the first non-overlapping occurrence of `marker` whose
/// non-empty prefix is known.
pub fn find_valid_split(raw_id: &Vec<char>, marker: &str, known_ids: &KnownStatIds) -> (r: Option<usize>)
    requires
        marker@.len() > 0,
    ensures
        r matches Some(i) ==> valid_split(raw_id@, marker@, known_ids@) == Some(i as int),
        r is None ==> valid_split(raw_id@, marker@, known_ids@) is None,
{
    let m = chars_of(marker);
    let n = raw_id.len();
    let mut from: usize = 0;
    loop
        invariant
            n == raw_id@.len(),
            from <= raw_id@.len(),
            m@ == marker@,
            m@.len() > 0,
            valid_split(raw_id@, m@, known_ids@) == valid_split_from(raw_id@, m@, known_ids@, from as int),
        decreases raw_id@.len() - from,
    {
        match first_occurrence(raw_id, &m, from) {
            None => {
                return None;
            },
            Some(i) => {
                proof {
                    lemma_first_occurrence_bounds(raw_id@, m@, from as int);
                }
                assert(occurs_at(raw_id@, m@, i as int));
                if i > 0 && known_ids.contains_prefix(raw_id, i) {
                    return Some(i);
                }
                from = i + m.len();
            },
        }
    }
}

/// The phase of a stat, by its base identifier.
pub open spec fn phase_of(base_id: Seq<char>) -> Poe2EffectPhase {
    if seq_ends_with(base_id, "_more_%"@) {
        Poe2EffectPhase::MoreLess
    } else if seq_ends_with(base_id, "_+%"@) {
        Poe2EffectPhase::IncreasedReduced
    } else if seq_contains(base_id, "converted_to"@) || seq_contains(base_id, "as_extra"@) {
        Poe2EffectPhase::Conversion
    } else {
        Poe2EffectPhase::AddedFlat
    }
}

/// Classifies a stat into the phase in which it executes.
pub fn classify_phase(base_id: &str) -> (p: Poe2EffectPhase)
    ensures
        p == phase_of(base_id@),
{
    let s = chars_of(base_id);
    if ends_with_exec(&s, "_more_%") {
        Poe2EffectPhase::MoreLess
    } else if ends_with_exec(&s, "_+%") {
        Poe2EffectPhase::IncreasedReduced
    } else if contains_exec(&s, "converted_to") || contains_exec(&s, "as_extra") {
        Poe2EffectPhase::Conversion
    } else {
        Poe2EffectPhase::AddedFlat
    }
}

/// The conflict key a stat identifier names.
pub open spec fn conflict_key_of(raw_id: Seq<char>) -> Option<Poe2ConflictKey> {
    if raw_id == "resolute_technique"@ {
        Some(Poe2ConflictKey::ResoluteTechniqueCritOverride)
    } else if raw_id == "keystone_chaos_inoculation"@ {
        Some(Poe2ConflictKey::ChaosInoculationLifeOverride)
    } else if raw_id == "keystone_avatar_of_fire"@ {
        Some(Poe2ConflictKey::AvatarOfFireDamageRestriction)
    } else {
        None
    }
}

/// Maps a stat identifier to the conflict key it names, if any.
pub fn parse_conflict_key(raw_id: &str) -> (k: Option<Poe2ConflictKey>)
    ensures
        k == conflict_key_of(raw_id@),
{
    let s = chars_of(raw_id);
    if chars_eq(&s, "resolute_technique") {
        Some(Poe2ConflictKey::ResoluteTechniqueCritOverride)
    } else if chars_eq(&s, "keystone_chaos_inoculation") {
        Some(Poe2ConflictKey::ChaosInoculationLifeOverride)
    } else if chars_eq(&s, "keystone_avatar_of_fire") {
        Some(Poe2ConflictKey::AvatarOfFireDamageRestriction)
    } else {
        None
    }
}

/// Maps a stat identifier to the selection key it names, if any. An
/// identifier that starts with `aura_` selects among auras, keyed by the
/// hash of the whole identifier.
pub fn parse_selection_key(raw_id: &str) -> (k: Option<Poe2SelectionKey>)
    ensures
        seq_starts_with(raw_id@, "aura_"@) ==> k matches Some(Poe2SelectionKey::Aura(_)),
        !seq_starts_with(raw_id@, "aura_"@) ==> k == (if raw_id@
            == "action_speed_cannot_be_reduced_below_base"@ {
            Some(Poe2SelectionKey::ActionSpeedFloor)
        } else if raw_id@ == "minimum_frenzy_charges"@ {
            Some(Poe2SelectionKey::MinimumFrenzyCharges)
        } else {
            None
        }),
{
    let s = chars_of(raw_id);
    if starts_with_exec(&s, "aura_") {
        return Some(Poe2SelectionKey::Aura(hash_string(raw_id)));
    }
    if chars_eq(&s, "action_speed_cannot_be_reduced_below_base") {
        Some(Poe2SelectionKey::ActionSpeedFloor)
    } else if chars_eq(&s, "minimum_frenzy_charges") {
        Some(Poe2SelectionKey::MinimumFrenzyCharges)
    } else {
        None
    }
}

/// The split position at the first gate marker, in marker order, that splits.
pub open spec fn gate_split(s: Seq<char>, known: Set<Seq<char>>) -> Option<int> {
    if valid_split(s, "_when_"@, known) is Some {
        valid_split(s, "_when_"@, known)
    } else if valid_split(s, "_if_"@, known) is Some {
        valid_split(s, "_if_"@, known)
    } else if valid_split(s, "_while_"@, known) is Some {
        valid_split(s, "_while_"@, known)
    } else {
        valid_split(s, "_during_"@, known)
    }
}

/// Splitting `s` reaches a suffix that names a known condition or scaling,
/// or does not split at all.
pub open spec fn extract_defined(s: Seq<char>, known: Set<Seq<char>>) -> bool {
    match gate_split(s, known) {
        Some(p) => condition_of_suffix(s.subrange(p, s.len() as int)) is Some,
        None => match valid_split(s, "_per_"@, known) {
            Some(p) => scaling_of_suffix(s.subrange(p, s.len() as int)) is Some,
            None => true,
        },
    }
}

/// The base identifier of `s` and how its stat applies: split at the first
/// gate marker that splits (a conditional stat), else at `_per_` (a scaled
/// stat), else the whole identifier (a plain stat).
pub open spec fn extracted(s: Seq<char>, known: Set<Seq<char>>) -> (Seq<char>, Poe2StatModifierKind) {
    match gate_split(s, known) {
        Some(p) => (
            s.subrange(0, p),
            Poe2StatModifierKind::Conditional(
                condition_of_suffix(s.subrange(p, s.len() as int)).unwrap(),
            ),
        ),
        None => match valid_split(s, "_per_"@, known) {
            Some(p) => (
                s.subrange(0, p),
                Poe2StatModifierKind::Scaled(scaling_of_suffix(s.subrange(p, s.len() as int)).unwrap()),
            ),
            None => (s, Poe2StatModifierKind::Plain),
        },
    }
}

/// Splits a raw stat identifier into its base identifier and the condition
/// or scaling that its suffix names.
pub fn extract_condition_or_scaling<'a>(raw_id: &'a str, known_ids: &KnownStatIds) -> (r: (
    &'a str,
    Poe2StatModifierKind,
))
    requires
        extract_defined(raw_id@, known_ids@),
    ensures
        (r.0@, r.1) == extracted(raw_id@, known_ids@),
{
    let s = chars_of(raw_id);
    let n = raw_id.unicode_len();
    proof {
        reveal_strlit("_when_");
        reveal_strlit("_if_");
        reveal_strlit("_while_");
        reveal_strlit("_during_");
        reveal_strlit("_per_");
    }
    let gate = match find_valid_split(&s, "_when_", known_ids) {
        Some(p) => Some(p),
        None => match find_valid_split(&s, "_if_", known_ids) {
            Some(p) => Some(p),
            None => match find_valid_split(&s, "_while_", known_ids) {
                Some(p) => Some(p),
                None => find_valid_split(&s, "_during_", known_ids),
            },
        },
    };
    proof {
        lemma_valid_split_bounds(raw_id@, "_when_"@, known_ids@, 0);
        lemma_valid_split_bounds(raw_id@, "_if_"@, known_ids@, 0);
        lemma_valid_split_bounds(raw_id@, "_while_"@, known_ids@, 0);
        lemma_valid_split_bounds(raw_id@, "_during_"@, known_ids@, 0);
        lemma_valid_split_bounds(raw_id@, "_per_"@, known_ids@, 0);
    }
    if let Some(pos) = gate {
        let clean = raw_id.substring_char(0, pos);
        let cond = parse_condition(raw_id.substring_char(pos, n));
        return (clean, Poe2StatModifierKind::Conditional(cond));
    }
    if let Some(pos) = find_valid_split(&s, "_per_", known_ids) {
        let clean = raw_id.substring_char(0, pos);
        let scaling = parse_scaling(raw_id.substring_char(pos, n));
        return (clean, Poe2StatModifierKind::Scaled(scaling));
    }
    (raw_id, Poe2StatModifierKind::Plain)
}

/// The stat identifiers of every modifier in `raws`.
pub open spec fn known_ids_of(raws: Seq<(String, RawMod)>) -> Set<Seq<char>> {
    Set::new(
        |x: Seq<char>|
            exists|i: int, j: int|
                0 <= i < raws.len() && 0 <= j < raws[i].1.stats@.len() && (
                #[trigger] raws[i].1.stats@[j]).id@ == x,
    )
}

/// The stat identifiers of the modifiers before `i`, and of the first `j`
/// stats of modifier `i`.
pub open spec fn known_ids_upto(raws: Seq<(String, RawMod)>, i: int, j: int) -> Set<Seq<char>> {
    Set::new(
        |x: Seq<char>|
            exists|a: int, b: int|
                0 <= a < raws.len() && 0 <= b < raws[a].1.stats@.len() && (a < i || (a == i && b
                    < j)) && (#[trigger] raws[a].1.stats@[b]).id@ == x,
    )
}

/// Every stat identifier of every modifier splits into a known condition or
/// scaling, or does not split.
pub open spec fn mods_well_formed(raws: Seq<(String, RawMod)>) -> bool {
    forall|i: int, j: int|
        0 <= i < raws.len() && 0 <= j < raws[i].1.stats@.len() ==> extract_defined(
            (#[trigger] raws[i].1.stats@[j]).id@,
            known_ids_of(raws),
        )
}

/// Whether splitting `raw_id` reaches a suffix that names a known condition
/// or scaling, or does not split at all.
pub fn extract_is_defined(raw_id: &str, known_ids: &KnownStatIds) -> (b: bool)
    ensures
        b == extract_defined(raw_id@, known_ids@),
{
    let s = chars_of(raw_id);
    let n = raw_id.unicode_len();
    proof {
        reveal_strlit("_when_");
        reveal_strlit("_if_");
        reveal_strlit("_while_");
        reveal_strlit("_during_");
        reveal_strlit("_per_");
        lemma_valid_split_bounds(raw_id@, "_when_"@, known_ids@, 0);
        lemma_valid_split_bounds(raw_id@, "_if_"@, known_ids@, 0);
        lemma_valid_split_bounds(raw_id@, "_while_"@, known_ids@, 0);
        lemma_valid_split_bounds(raw_id@, "_during_"@, known_ids@, 0);
        lemma_valid_split_bounds(raw_id@, "_per_"@, known_ids@, 0);
    }
    let gate = match find_valid_split(&s, "_when_", known_ids) {
        Some(p) => Some(p),
        None => match find_valid_split(&s, "_if_", known_ids) {
            Some(p) => Some(p),
            None => match find_valid_split(&s, "_while_", known_ids) {
                Some(p) => Some(p),
                None => find_valid_split(&s, "_during_", known_ids),
            },
        },
    };
    if let Some(pos) = gate {
        return is_condition_suffix(raw_id.substring_char(pos, n));
    }
    if let Some(pos) = find_valid_split(&s, "_per_", known_ids) {
        return is_scaling_suffix(raw_id.substring_char(pos, n));
    }
    true
}

/// Whether every stat identifier of every modifier in `raw_mods` splits into
/// a known condition or scaling, or does not split.
pub fn mods_are_well_formed(raw_mods: &RawModsFile) -> (b: bool)
    ensures
        b == mods_well_formed(raw_mods@),
{
    let known = KnownStatIds::from_mods(raw_mods);
    let mut i: usize = 0;
    while i < raw_mods.len()
        invariant
            known@ == known_ids_of(raw_mods@),
            i <= raw_mods@.len(),
            forall|a: int, b: int|
                0 <= a < i && 0 <= b < raw_mods@[a].1.stats@.len() ==> extract_defined(
                    (#[trigger] raw_mods@[a].1.stats@[b]).id@,
                    known_ids_of(raw_mods@),
                ),
        decreases raw_mods@.len() - i,
    {
        let raw = &raw_mods.entry(i).1;
        let mut j: usize = 0;
        while j < raw.stats.len()
            invariant
                known@ == known_ids_of(raw_mods@),
                i < raw_mods@.len(),
                *raw == raw_mods@[i as int].1,
                j <= raw.stats@.len(),
                forall|a: int, b: int|
                    0 <= a < i && 0 <= b < raw_mods@[a].1.stats@.len() ==> extract_defined(
                        (#[trigger] raw_mods@[a].1.stats@[b]).id@,
                        known_ids_of(raw_mods@),
                    ),
                forall|b: int|
                    0 <= b < j ==> extract_defined(
                        (#[trigger] raw_mods@[i as int].1.stats@[b]).id@,
                        known_ids_of(raw_mods@),
                    ),
            decreases raw.stats@.len() - j,
        {
            if !extract_is_defined(raw.stats[j].id.as_str(), &known) {
                assert(!extract_defined(raw_mods@[i as int].1.stats@[j as int].id@, known_ids_of(raw_mods@)));
                return false;
            }
            j += 1;
        }
        i += 1;
    }
    true
}

impl KnownStatIds {
    /// The stat identifiers of every modifier in `raw_mods`.
    pub fn from_mods(raw_mods: &RawModsFile) -> (r: Self)
        ensures
            r@ == known_ids_of(raw_mods@),
    {
        let mut known = KnownStatIds::new();
        let mut i: usize = 0;
        assert(known@ =~= known_ids_upto(raw_mods@, 0, 0));
        while i < raw_mods.len()
            invariant
                i <= raw_mods@.len(),
                known@ == known_ids_upto(raw_mods@, i as int, 0),
            decreases raw_mods@.len() - i,
        {
            let raw = &raw_mods.entry(i).1;
            let mut j: usize = 0;
            while j < raw.stats.len()
                invariant
                    i < raw_mods@.len(),
                    raw == raw_mods@[i as int].1,
                    j <= raw.stats@.len(),
                    known@ == known_ids_upto(raw_mods@, i as int, j as int),
                decreases raw.stats@.len() - j,
            {
                let ghost before = known@;
                known.insert(raw.stats[j].id.as_str());
                assert(known@ =~= known_ids_upto(raw_mods@, i as int, j + 1)) by {
                    assert(raw_mods@[i as int].1.stats@[j as int] == raw.stats@[j as int]);
                    assert forall|x: Seq<char>| #[trigger] known_ids_upto(raw_mods@, i as int, j + 1).contains(x) implies known@.contains(x) by {
                        let (a, b) = choose|a: int, b: int|
                            0 <= a < raw_mods@.len() && 0 <= b < raw_mods@[a].1.stats@.len() && (a < i || (a == i && b
                                < j + 1)) && (#[trigger] raw_mods@[a].1.stats@[b]).id@ == x;
                        if !(a == i && b == j) {
                            assert(before.contains(x));
                        }
                    }
                };
                j += 1;
            }
            assert(known@ =~= known_ids_upto(raw_mods@, i + 1, 0));
            i += 1;
        }
        assert(known@ =~= known_ids_of(raw_mods@));
        known
    }
}

/// A stat identifier that splits into a base identifier and a condition or
/// scaling splits at a known identifier: its base identifier is itself a
/// stat identifier of the database, and the base followed by the suffix is
/// the whole identifier.
pub proof fn law_split_base_is_known(s: Seq<char>, known: Set<Seq<char>>)
    ensures
        extracted(s, known).1 != Poe2StatModifierKind::Plain ==> known.contains(extracted(s, known).0) && 0
            < extracted(s, known).0.len() < s.len(),
        s.subrange(0, extracted(s, known).0.len() as int) == extracted(s, known).0,
{
    reveal_strlit("_when_");
    reveal_strlit("_if_");
    reveal_strlit("_while_");
    reveal_strlit("_during_");
    reveal_strlit("_per_");
    lemma_valid_split_bounds(s, "_when_"@, known, 0);
    lemma_valid_split_bounds(s, "_if_"@, known, 0);
    lemma_valid_split_bounds(s, "_while_"@, known, 0);
    lemma_valid_split_bounds(s, "_during_"@, known, 0);
    lemma_valid_split_bounds(s, "_per_"@, known, 0);
    assert(s.subrange(0, s.len() as int) =~= s);
}

/// Every definition that the registry build records carries, as its
/// identifier, the hash it is recorded under; so a lookup by identifier
/// gives a definition with that identifier.
pub proof fn law_definitions_carry_their_key(
    raws: Seq<(String, RawMod)>,
    known: Set<Seq<char>>,
    hs: Seq<ModHashesView>,
    n: int,
)
    requires
        0 <= n <= hs.len(),
        n <= raws.len(),
    ensures
        forall|k: u64| #[trigger]
            definitions_upto(raws, known, hs, n).contains_key(k) ==> definitions_upto(raws, known, hs, n)[k].id
                == Poe2ModifierId(k),
    decreases n,
{
    if n > 0 {
        law_definitions_carry_their_key(raws, known, hs, n - 1);
    }
}

/// The hashes of one stat identifier: its base identifier's and its own.
#[derive(Debug, Clone, Copy, PartialEq, Eq, Structural)]
pub struct StatHashes {
    pub clean: u64,
    pub raw: u64,
}

/// The hashes that building one definition uses.
#[derive(Debug, Clone)]
pub struct ModHashes {
    pub key: u64,
    pub kind: u64,
    pub stats: Vec<StatHashes>,
    pub groups: Vec<u64>,
    pub tags: Vec<u64>,
}

/// The hashes of one definition, taken by value.
pub struct ModHashesView {
    pub key: u64,
    pub kind: u64,
    pub stats: Seq<StatHashes>,
    pub groups: Seq<u64>,
    pub tags: Seq<u64>,
}

impl View for ModHashes {
    type V = ModHashesView;

    open spec fn view(&self) -> ModHashesView {
        ModHashesView {
            key: self.key,
            kind: self.kind,
            stats: self.stats@,
            groups: self.groups@,
            tags: self.tags@,
        }
    }
}

/// `h` holds one hash for each stat, group and spawn-weight tag of `raw`.
pub open spec fn hashes_fit(raw: RawMod, h: ModHashesView) -> bool {
    &&& h.stats.len() == raw.stats@.len()
    &&& h.groups.len() == raw.groups@.len()
    &&& h.tags.len() == raw.spawn_weights@.len()
}

/// `hs` holds the hashes of every modifier of `raws`, in order.
pub open spec fn all_hashes_fit(raws: Seq<(String, RawMod)>, hs: Seq<ModHashesView>) -> bool {
    &&& hs.len() == raws.len()
    &&& forall|i: int| 0 <= i < raws.len() ==> hashes_fit(raws[i].1, #[trigger] hs[i])
}

/// The definition stat built from a stat roll.
pub open spec fn stat_of(id: Seq<char>, min: i64, max: i64, known: Set<Seq<char>>, h: StatHashes) -> Poe2ModifierStat {
    let (clean, kind) = extracted(id, known);
    Poe2ModifierStat {
        id_hash: h.clean,
        min,
        max,
        is_local: seq_starts_with(clean, "local_"@),
        kind,
        phase: phase_of(clean),
        conflict_key: None,
        selection_key: None,
    }
}

/// The definition built from a database modifier.
pub open spec fn definition_of(raw: RawMod, known: Set<Seq<char>>, h: ModHashesView) -> DefinitionView {
    DefinitionView {
        id: Poe2ModifierId(h.key),
        kind: kind_of_name(raw.mod_type@, h.kind),
        required_level: raw.required_level,
        stats: Seq::new(
            raw.stats@.len(),
            |j: int| stat_of(raw.stats@[j].id@, raw.stats@[j].min, raw.stats@[j].max, known, h.stats[j]),
        ),
        groups: h.groups,
        spawn_weights: Seq::new(
            raw.spawn_weights@.len(),
            |j: int| HashedTagWeight { tag: h.tags[j], weight: raw.spawn_weights@[j].weight },
        ),
        generation_type: raw.generation_type,
    }
}

/// The definitions of the first `n` modifiers, each under its key's hash; a
/// later modifier replaces an earlier one under the same hash.
pub open spec fn definitions_upto(
    raws: Seq<(String, RawMod)>,
    known: Set<Seq<char>>,
    hs: Seq<ModHashesView>,
    n: int,
) -> Map<u64, DefinitionView>
    decreases n,
{
    if n <= 0 {
        Map::empty()
    } else {
        definitions_upto(raws, known, hs, n - 1).insert(
            hs[n - 1].key,
            definition_of(raws[n - 1].1, known, hs[n - 1]),
        )
    }
}

/// One step of building the string dictionary.
pub enum DictOp {
    /// Records the string under the hash, replacing what was there.
    Put(u64, Seq<char>),
    /// Records the string under the hash unless the hash is already present.
    Keep(u64, Seq<char>),
}

/// The dictionary after one step.
pub open spec fn apply_op(m: Map<u64, Seq<char>>, op: DictOp) -> Map<u64, Seq<char>> {
    match op {
        DictOp::Put(k, v) => m.insert(k, v),
        DictOp::Keep(k, v) => if m.contains_key(k) {
            m
        } else {
            m.insert(k, v)
        },
    }
}

/// The dictionary after the steps `ops`, in order.
pub open spec fn apply_ops(m: Map<u64, Seq<char>>, ops: Seq<DictOp>) -> Map<u64, Seq<char>>
    decreases ops.len(),
{
    if ops.len() == 0 {
        m
    } else {
        apply_op(apply_ops(m, ops.drop_last()), ops.last())
    }
}

/// The hash a dictionary step records under.
pub open spec fn op_key(op: DictOp) -> u64 {
    match op {
        DictOp::Put(k, _) => k,
        DictOp::Keep(k, _) => k,
    }
}

/// The string a dictionary step records.
pub open spec fn op_string(op: DictOp) -> Seq<char> {
    match op {
        DictOp::Put(_, v) => v,
        DictOp::Keep(_, v) => v,
    }
}

/// What the dictionary gives back is what a step recorded: a hash has a
/// string exactly when some step recorded one under it, and that string is
/// one that a step recorded under that hash.
pub proof fn law_dictionary_gives_back_recorded_strings(ops: Seq<DictOp>, k: u64)
    ensures
        apply_ops(Map::empty(), ops).contains_key(k) <==> exists|i: int|
            0 <= i < ops.len() && op_key(#[trigger] ops[i]) == k,
        apply_ops(Map::empty(), ops).contains_key(k) ==> exists|i: int|
            0 <= i < ops.len() && op_key(#[trigger] ops[i]) == k && op_string(ops[i]) == apply_ops(
                Map::empty(),
                ops,
            )[k],
    decreases ops.len(),
{
    if ops.len() > 0 {
        let prefix = ops.drop_last();
        law_dictionary_gives_back_recorded_strings(prefix, k);
        let last = ops.len() - 1;
        assert(ops[last] == ops.last());
        if exists|i: int| 0 <= i < prefix.len() && op_key(#[trigger] prefix[i]) == k {
            let i = choose|i: int| 0 <= i < prefix.len() && op_key(#[trigger] prefix[i]) == k;
            assert(ops[i] == prefix[i]);
        }
        if apply_ops(Map::empty(), prefix).contains_key(k) {
            let i = choose|i: int|
                0 <= i < prefix.len() && op_key(#[trigger] prefix[i]) == k && op_string(prefix[i]) == apply_ops(
                    Map::empty(),
                    prefix,
                )[k];
            assert(ops[i] == prefix[i]);
        }
        if exists|i: int| 0 <= i < ops.len() && op_key(#[trigger] ops[i]) == k {
            let i = choose|i: int| 0 <= i < ops.len() && op_key(#[trigger] ops[i]) == k;
            if i < last {
                assert(prefix[i] == ops[i]);
            }
        }
    }
}

/// The dictionary steps for the first `j` stats of `raw`: each stat records
/// its base identifier, then its raw identifier, keeping earlier entries.
pub open spec fn stat_ops_upto(raw: RawMod, known: Set<Seq<char>>, h: ModHashesView, j: int) -> Seq<DictOp>
    decreases j,
{
    if j <= 0 {
        Seq::empty()
    } else {
        stat_ops_upto(raw, known, h, j - 1) + seq![
            DictOp::Keep(h.stats[j - 1].clean, extracted(raw.stats@[j - 1].id@, known).0),
            DictOp::Keep(h.stats[j - 1].raw, raw.stats@[j - 1].id@),
        ]
    }
}

/// The dictionary steps for the first `g` groups of `raw`.
pub open spec fn group_ops_upto(raw: RawMod, h: ModHashesView, g: int) -> Seq<DictOp>
    decreases g,
{
    if g <= 0 {
        Seq::empty()
    } else {
        group_ops_upto(raw, h, g - 1).push(DictOp::Put(h.groups[g - 1], raw.groups@[g - 1]@))
    }
}

/// The dictionary steps for one modifier: its key, its type name, its
/// stats, then its groups.
pub open spec fn mod_ops(key: Seq<char>, raw: RawMod, known: Set<Seq<char>>, h: ModHashesView) -> Seq<DictOp> {
    seq![DictOp::Put(h.key, key), DictOp::Put(h.kind, raw.mod_type@)] + stat_ops_upto(
        raw,
        known,
        h,
        raw.stats@.len() as int,
    ) + group_ops_upto(raw, h, raw.groups@.len() as int)
}

/// The dictionary steps for the first `n` modifiers.
pub open spec fn registry_ops(
    raws: Seq<(String, RawMod)>,
    known: Set<Seq<char>>,
    hs: Seq<ModHashesView>,
    n: int,
) -> Seq<DictOp>
    decreases n,
{
    if n <= 0 {
        Seq::empty()
    } else {
        registry_ops(raws, known, hs, n - 1) + mod_ops(raws[n - 1].0@, raws[n - 1].1, known, hs[n - 1])
    }
}

/// No two dictionary steps record different strings under one hash: the
/// hashes used are free of collisions among the strings recorded.
pub open spec fn ops_collision_free(ops: Seq<DictOp>) -> bool {
    forall|a: int, b: int|
        0 <= a < ops.len() && 0 <= b < ops.len() && op_key(#[trigger] ops[a]) == op_key(#[trigger] ops[b])
            ==> op_string(ops[a]) == op_string(ops[b])
}

/// Where no two steps record different strings under one hash, the
/// dictionary gives back, under the hash of any step, the string that step
/// recorded.
pub proof fn law_dictionary_without_collisions(ops: Seq<DictOp>, i: int)
    requires
        ops_collision_free(ops),
        0 <= i < ops.len(),
    ensures
        apply_ops(Map::empty(), ops).contains_key(op_key(ops[i])),
        apply_ops(Map::empty(), ops)[op_key(ops[i])] == op_string(ops[i]),
{
    law_dictionary_gives_back_recorded_strings(ops, op_key(ops[i]));
    let j = choose|j: int|
        0 <= j < ops.len() && op_key(#[trigger] ops[j]) == op_key(ops[i]) && op_string(ops[j]) == apply_ops(
            Map::empty(),
            ops,
        )[op_key(ops[i])];
    assert(op_key(ops[j]) == op_key(ops[i]));
}

/// The steps for the first `n` modifiers begin the steps for more of them.
proof fn lemma_registry_ops_prefix(
    raws: Seq<(String, RawMod)>,
    known: Set<Seq<char>>,
    hs: Seq<ModHashesView>,
    n: int,
    m: int,
)
    requires
        0 <= n <= m,
    ensures
        registry_ops(raws, known, hs, n).len() <= registry_ops(raws, known, hs, m).len(),
        forall|p: int|
            0 <= p < registry_ops(raws, known, hs, n).len() ==> registry_ops(raws, known, hs, m)[p]
                == #[trigger] registry_ops(raws, known, hs, n)[p],
    decreases m - n,
{
    if n < m {
        lemma_registry_ops_prefix(raws, known, hs, n, m - 1);
    }
}

/// The key of modifier `i` is recorded under its hash by some step.
proof fn lemma_key_is_recorded(raws: Seq<(String, RawMod)>, known: Set<Seq<char>>, hs: Seq<ModHashesView>, i: int)
    requires
        0 <= i < raws.len(),
    ensures
        exists|p: int|
            0 <= p < registry_ops(raws, known, hs, raws.len() as int).len() && #[trigger] registry_ops(
                raws,
                known,
                hs,
                raws.len() as int,
            )[p] == DictOp::Put(hs[i].key, raws[i].0@),
{
    let before = registry_ops(raws, known, hs, i);
    let p = before.len() as int;
    assert(registry_ops(raws, known, hs, i + 1)[p] == DictOp::Put(hs[i].key, raws[i].0@));
    lemma_registry_ops_prefix(raws, known, hs, i + 1, raws.len() as int);
    assert(registry_ops(raws, known, hs, raws.len() as int)[p] == DictOp::Put(hs[i].key, raws[i].0@));
}

/// Where the hashes are free of collisions among the strings recorded, the
/// dictionary gives back each modifier's key under the key's hash.
pub proof fn law_dictionary_gives_back_keys(
    raws: Seq<(String, RawMod)>,
    known: Set<Seq<char>>,
    hs: Seq<ModHashesView>,
    i: int,
)
    requires
        ops_collision_free(registry_ops(raws, known, hs, raws.len() as int)),
        0 <= i < raws.len(),
    ensures
        apply_ops(Map::empty(), registry_ops(raws, known, hs, raws.len() as int)).contains_key(hs[i].key),
        apply_ops(Map::empty(), registry_ops(raws, known, hs, raws.len() as int))[hs[i].key] == raws[i].0@,
{
    lemma_key_is_recorded(raws, known, hs, i);
    let ops = registry_ops(raws, known, hs, raws.len() as int);
    let p = choose|p: int| 0 <= p < ops.len() && #[trigger] ops[p] == DictOp::Put(hs[i].key, raws[i].0@);
    law_dictionary_without_collisions(ops, p);
}

/// Where every step that records under the hash of modifier `i`'s key
/// records that key, the dictionary gives back the key under its hash; a
/// collision elsewhere does not matter.
pub proof fn law_dictionary_gives_back_key_without_collision_there(
    raws: Seq<(String, RawMod)>,
    known: Set<Seq<char>>,
    hs: Seq<ModHashesView>,
    i: int,
)
    requires
        0 <= i < raws.len(),
        forall|p: int|
            0 <= p < registry_ops(raws, known, hs, raws.len() as int).len() && op_key(
                #[trigger] registry_ops(raws, known, hs, raws.len() as int)[p],
            ) == hs[i].key ==> op_string(registry_ops(raws, known, hs, raws.len() as int)[p]) == raws[i].0@,
    ensures
        apply_ops(Map::empty(), registry_ops(raws, known, hs, raws.len() as int)).contains_key(hs[i].key),
        apply_ops(Map::empty(), registry_ops(raws, known, hs, raws.len() as int))[hs[i].key] == raws[i].0@,
{
    let ops = registry_ops(raws, known, hs, raws.len() as int);
    lemma_key_is_recorded(raws, known, hs, i);
    law_dictionary_gives_back_recorded_strings(ops, hs[i].key);
    let j = choose|j: int|
        0 <= j < ops.len() && op_key(#[trigger] ops[j]) == hs[i].key && op_string(ops[j]) == apply_ops(
            Map::empty(),
            ops,
        )[hs[i].key];
    assert(op_key(ops[j]) == hs[i].key);
}

/// A map of strings, taken by value.
pub open spec fn strings_view(m: Map<u64, String>) -> Map<u64, Seq<char>> {
    m.map_values(|s: String| s@)
}

/// A map of definitions, taken by value.
pub open spec fn definitions_view(m: Map<u64, Poe2ModifierDefinition>) -> Map<u64, DefinitionView> {
    m.map_values(|d: Poe2ModifierDefinition| d@)
}

proof fn lemma_strings_view_insert(m: Map<u64, String>, k: u64, s: String)
    ensures
        strings_view(m.insert(k, s)) == strings_view(m).insert(k, s@),
{
    assert(strings_view(m.insert(k, s)) =~= strings_view(m).insert(k, s@));
}

proof fn lemma_definitions_view_insert(m: Map<u64, Poe2ModifierDefinition>, k: u64, d: Poe2ModifierDefinition)
    ensures
        definitions_view(m.insert(k, d)) == definitions_view(m).insert(k, d@),
{
    assert(definitions_view(m.insert(k, d)) =~= definitions_view(m).insert(k, d@));
}

proof fn lemma_apply_ops_push(m: Map<u64, Seq<char>>, ops: Seq<DictOp>, op: DictOp)
    ensures
        apply_ops(m, ops.push(op)) == apply_op(apply_ops(m, ops), op),
{
    assert(ops.push(op).drop_last() =~= ops);
}

/// The registry of modifier definitions, and the strings behind the hashes
/// it uses.
pub struct Poe2DefinitionRegistry {
    pub definitions: HashMap<u64, Poe2ModifierDefinition>,
    pub string_dictionary: HashMap<u64, String>,
}

impl Poe2DefinitionRegistry {
    /// Builds the registry from the database, given the hash of every string
    /// that the build hashes. Each definition goes under its key's hash, a
    /// later one replacing an earlier one; the dictionary records the key,
    /// the type name, every base and raw stat identifier, and every group
    /// under its hash.
    pub fn from_hashes(raw_mods: RawModsFile, hashes: Vec<ModHashes>) -> (r: Self)
        requires
            all_hashes_fit(raw_mods@, hashes@.map_values(|h: ModHashes| h@)),
            mods_well_formed(raw_mods@),
        ensures
            definitions_view(r.definitions@) == definitions_upto(
                raw_mods@,
                known_ids_of(raw_mods@),
                hashes@.map_values(|h: ModHashes| h@),
                raw_mods@.len() as int,
            ),
            strings_view(r.string_dictionary@) == apply_ops(
                Map::empty(),
                registry_ops(
                    raw_mods@,
                    known_ids_of(raw_mods@),
                    hashes@.map_values(|h: ModHashes| h@),
                    raw_mods@.len() as int,
                ),
            ),
    {
        let known = KnownStatIds::from_mods(&raw_mods);
        let ghost raws = raw_mods@;
        let ghost known_set = known_ids_of(raws);
        let ghost hs = hashes@.map_values(|h: ModHashes| h@);
        let mut definitions: HashMap<u64, Poe2ModifierDefinition> = HashMap::new();
        let mut string_dictionary: HashMap<u64, String> = HashMap::new();
        let ghost mut ops: Seq<DictOp> = Seq::empty();
        assert(definitions_view(definitions@) =~= Map::empty());
        assert(strings_view(string_dictionary@) =~= Map::empty());
        let mut i: usize = 0;
        while i < raw_mods.len()
            invariant
                raws == raw_mods@,
                known@ == known_set,
                known_set == known_ids_of(raws),
                hs == hashes@.map_values(|h: ModHashes| h@),
                all_hashes_fit(raws, hs),
                mods_well_formed(raws),
                i <= raws.len(),
                definitions_view(definitions@) == definitions_upto(raws, known_set, hs, i as int),
                ops == registry_ops(raws, known_set, hs, i as int),
                strings_view(string_dictionary@) == apply_ops(Map::empty(), ops),
            decreases raws.len() - i,
        {
            let key = &raw_mods.entry(i).0;
            let raw = &raw_mods.entry(i).1;
            let h = &hashes[i];
            assert(hs[i as int] == h@);
            assert(hashes_fit(*raw, h@));
            let ghost base = ops;
            let key_copy = key.clone();
            proof {
                lemma_strings_view_insert(string_dictionary@, h.key, key_copy);
                lemma_apply_ops_push(Map::empty(), ops, DictOp::Put(h.key, key@));
            }
            string_dictionary.insert(h.key, key_copy);
            let kind_copy = raw.mod_type.clone();
            proof {
                ops = ops.push(DictOp::Put(h.key, key@));
                lemma_strings_view_insert(string_dictionary@, h.kind, kind_copy);
                lemma_apply_ops_push(Map::empty(), ops, DictOp::Put(h.kind, raw.mod_type@));
            }
            string_dictionary.insert(h.kind, kind_copy);
            proof {
                ops = ops.push(DictOp::Put(h.kind, raw.mod_type@));
                assert(ops =~= base + seq![DictOp::Put(h.key, key@), DictOp::Put(h.kind, raw.mod_type@)] + stat_ops_upto(*raw, known_set, h@, 0));
            }
            let ghost base2 = base + seq![DictOp::Put(h.key, key@), DictOp::Put(h.kind, raw.mod_type@)];
            let mut stats: Vec<Poe2ModifierStat> = Vec::new();
            let mut j: usize = 0;
            while j < raw.stats.len()
                invariant
                    known@ == known_set,
                    known_set == known_ids_of(raws),
                    mods_well_formed(raws),
                    i < raws.len(),
                    *raw == raws[i as int].1,
                    hashes_fit(*raw, h@),
                    j <= raw.stats@.len(),
                    stats@ == Seq::new(
                        j as nat,
                        |q: int| stat_of(raw.stats@[q].id@, raw.stats@[q].min, raw.stats@[q].max, known_set, h@.stats[q]),
                    ),
                    ops == base2 + stat_ops_upto(*raw, known_set, h@, j as int),
                    strings_view(string_dictionary@) == apply_ops(Map::empty(), ops),
                decreases raw.stats@.len() - j,
            {
                let roll = &raw.stats[j];
                assert(raws[i as int].1.stats@[j as int] == *roll);
                let (clean, kind) = extract_condition_or_scaling(roll.id.as_str(), &known);
                let phase = classify_phase(clean);
                let clean_chars = chars_of(clean);
                let is_local = starts_with_exec(&clean_chars, "local_");
                let sh = h.stats[j];
                let ghost op1 = DictOp::Keep(sh.clean, clean@);
                let ghost op2 = DictOp::Keep(sh.raw, roll.id@);
                proof {
                    lemma_apply_ops_push(Map::empty(), ops, op1);
                }
                if !string_dictionary.contains_key(&sh.clean) {
                    let clean_copy = clean.to_owned();
                    proof {
                        lemma_strings_view_insert(string_dictionary@, sh.clean, clean_copy);
                    }
                    string_dictionary.insert(sh.clean, clean_copy);
                }
                proof {
                    ops = ops.push(op1);
                    lemma_apply_ops_push(Map::empty(), ops, op2);
                }
                if !string_dictionary.contains_key(&sh.raw) {
                    let raw_copy = roll.id.clone();
                    proof {
                        lemma_strings_view_insert(string_dictionary@, sh.raw, raw_copy);
                    }
                    string_dictionary.insert(sh.raw, raw_copy);
                }
                proof {
                    ops = ops.push(op2);
                    assert(ops =~= base2 + stat_ops_upto(*raw, known_set, h@, j + 1));
                }
                stats.push(
                    Poe2ModifierStat {
                        id_hash: sh.clean,
                        min: roll.min,
                        max: roll.max,
                        is_local,
                        kind,
                        phase,
                        conflict_key: None,
                        selection_key: None,
                    },
                );
                assert(stats@ =~= Seq::new(
                    (j + 1) as nat,
                    |q: int| stat_of(raw.stats@[q].id@, raw.stats@[q].min, raw.stats@[q].max, known_set, h@.stats[q]),
                ));
                j += 1;
            }
            let ghost base3 = base2 + stat_ops_upto(*raw, known_set, h@, raw.stats@.len() as int);
            assert(ops =~= base3 + group_ops_upto(*raw, h@, 0));
            let mut groups: Vec<u64> = Vec::new();
            let mut g: usize = 0;
            while g < raw.groups.len()
                invariant
                    hashes_fit(*raw, h@),
                    g <= raw.groups@.len(),
                    groups@ == h@.groups.take(g as int),
                    ops == base3 + group_ops_upto(*raw, h@, g as int),
                    strings_view(string_dictionary@) == apply_ops(Map::empty(), ops),
                decreases raw.groups@.len() - g,
            {
                let gh = h.groups[g];
                let ghost op = DictOp::Put(gh, raw.groups@[g as int]@);
                let group_copy = raw.groups[g].clone();
                proof {
                    lemma_apply_ops_push(Map::empty(), ops, op);
                    lemma_strings_view_insert(string_dictionary@, gh, group_copy);
                }
                string_dictionary.insert(gh, group_copy);
                proof {
                    ops = ops.push(op);
                    assert(ops =~= base3 + group_ops_upto(*raw, h@, g + 1));
                }
                groups.push(gh);
                assert(groups@ =~= h@.groups.take(g + 1));
                g += 1;
            }
            assert(groups@ =~= h@.groups);
            let mut spawn_weights: Vec<HashedTagWeight> = Vec::new();
            let mut w: usize = 0;
            while w < raw.spawn_weights.len()
                invariant
                    hashes_fit(*raw, h@),
                    w <= raw.spawn_weights@.len(),
                    spawn_weights@ == Seq::new(
                        w as nat,
                        |q: int| HashedTagWeight { tag: h@.tags[q], weight: raw.spawn_weights@[q].weight },
                    ),
                decreases raw.spawn_weights@.len() - w,
            {
                spawn_weights.push(HashedTagWeight { tag: h.tags[w], weight: raw.spawn_weights[w].weight });
                assert(spawn_weights@ =~= Seq::new(
                    (w + 1) as nat,
                    |q: int| HashedTagWeight { tag: h@.tags[q], weight: raw.spawn_weights@[q].weight },
                ));
                w += 1;
            }
            let def = Poe2ModifierDefinition {
                id: Poe2ModifierId(h.key),
                kind: modifier_kind(raw.mod_type.as_str(), h.kind),
                required_level: raw.required_level,
                stats,
                groups,
                spawn_weights,
                generation_type: raw.generation_type,
            };
            assert(def@ == definition_of(*raw, known_set, h@)) by {
                assert(def@.stats =~= definition_of(*raw, known_set, h@).stats);
                assert(def@.spawn_weights =~= definition_of(*raw, known_set, h@).spawn_weights);
            }
            proof {
                lemma_definitions_view_insert(definitions@, h.key, def);
            }
            definitions.insert(h.key, def);
            proof {
                assert(ops =~= registry_ops(raws, known_set, hs, i + 1));
            }
            i += 1;
        }
        Self { definitions, string_dictionary }
    }

    /// Builds the registry from the database: every string it uses is hashed
    /// with `hash_string`, and the result is what `from_hashes` builds from
    /// those hashes, whatever values they took.
    pub fn new(raw_mods: RawModsFile) -> (r: Self)
        requires
            mods_well_formed(raw_mods@),
        ensures
            exists|hs: Seq<ModHashesView>|
                {
                    &&& all_hashes_fit(raw_mods@, hs)
                    &&& #[trigger] definitions_upto(
                        raw_mods@,
                        known_ids_of(raw_mods@),
                        hs,
                        raw_mods@.len() as int,
                    ) == definitions_view(r.definitions@)
                    &&& strings_view(r.string_dictionary@) == apply_ops(
                        Map::empty(),
                        registry_ops(raw_mods@, known_ids_of(raw_mods@), hs, raw_mods@.len() as int),
                    )
                },
    {
        let known = KnownStatIds::from_mods(&raw_mods);
        let mut hashes: Vec<ModHashes> = Vec::new();
        let mut i: usize = 0;
        while i < raw_mods.len()
            invariant
                known@ == known_ids_of(raw_mods@),
                mods_well_formed(raw_mods@),
                i <= raw_mods@.len(),
                hashes@.len() == i,
                forall|q: int| 0 <= q < i ==> hashes_fit(raw_mods@[q].1, #[trigger] hashes@[q]@),
            decreases raw_mods@.len() - i,
        {
            let key = &raw_mods.entry(i).0;
            let raw = &raw_mods.entry(i).1;
            let mut stats: Vec<StatHashes> = Vec::new();
            let mut j: usize = 0;
            while j < raw.stats.len()
                invariant
                    known@ == known_ids_of(raw_mods@),
                    mods_well_formed(raw_mods@),
                    i < raw_mods@.len(),
                    *raw == raw_mods@[i as int].1,
                    j <= raw.stats@.len(),
                    stats@.len() == j,
                decreases raw.stats@.len() - j,
            {
                let roll = &raw.stats[j];
                assert(raw_mods@[i as int].1.stats@[j as int] == *roll);
                let (clean, _kind) = extract_condition_or_scaling(roll.id.as_str(), &known);
                stats.push(StatHashes { clean: hash_string(clean), raw: hash_string(roll.id.as_str()) });
                j += 1;
            }
            let mut groups: Vec<u64> = Vec::new();
            let mut g: usize = 0;
            while g < raw.groups.len()
                invariant
                    g <= raw.groups@.len(),
                    groups@.len() == g,
                decreases raw.groups@.len() - g,
            {
                groups.push(hash_string(raw.groups[g].as_str()));
                g += 1;
            }
            let mut tags: Vec<u64> = Vec::new();
            let mut w: usize = 0;
            while w < raw.spawn_weights.len()
                invariant
                    w <= raw.spawn_weights@.len(),
                    tags@.len() == w,
                decreases raw.spawn_weights@.len() - w,
            {
                tags.push(hash_string(raw.spawn_weights[w].tag.as_str()));
                w += 1;
            }
            hashes.push(
                ModHashes {
                    key: hash_string(key.as_str()),
                    kind: hash_string(raw.mod_type.as_str()),
                    stats,
                    groups,
                    tags,
                },
            );
            i += 1;
        }
        let ghost raws = raw_mods@;
        let ghost hs = hashes@.map_values(|h: ModHashes| h@);
        assert(all_hashes_fit(raws, hs));
        let r = Self::from_hashes(raw_mods, hashes);
        assert(definitions_upto(raws, known_ids_of(raws), hs, raws.len() as int) == definitions_view(r.definitions@));
        r
    }

    /// The string recorded under `hash`, if any.
    pub fn lookup_string(&self, hash: u64) -> (r: Option<&String>)
        ensures
            r matches Some(s) ==> self.string_dictionary@.contains_key(hash)
                && *s == self.string_dictionary@[hash],
            r is None ==> !self.string_dictionary@.contains_key(hash),
    {
        self.string_dictionary.get(&hash)
    }
}

} // verus!
