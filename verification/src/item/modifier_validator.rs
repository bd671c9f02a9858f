//! Validating one rolled modifier against its definition and the item.

use vstd::prelude::*;

use crate::item::instance::ItemInstance;
use crate::item::state::DefinitionView;
use crate::item::state::Poe2ItemState;
use crate::item::state::Poe2ModifierDefinition;
use crate::item::state::Poe2ModifierInstance;
use crate::item::state::Poe2ModifierStat;
use crate::repoe_parse::HashedTagWeight;
use crate::item::tag_set::tag_set_contains;
use crate::item::tag_set::tag_set_contents;

verus! {


/// Why a rolled modifier does not fit its definition or item.
#[derive(Debug, Clone, Copy, PartialEq, Eq, Structural)]
pub enum Poe2ModifierValidationError {
    ItemLevelTooLow { required: u16, actual: u16 },
    RollOutsideAllowedRange { minimum: i64, maximum: i64, actual: i64 },
    MismatchedStatsCount,
    MismatchedBase,
    ModNotFound,
}

/// Validates rolled modifiers.
pub struct Poe2ModifierValidator;

/// The weight of the first spawn weight, from position `i` on, whose tag the
/// item carries.
pub open spec fn spawn_weight_from(tags: Set<u64>, weights: Seq<HashedTagWeight>, i: int) -> Option<u32>
    decreases weights.len() - i,
{
    if i < 0 || i >= weights.len() {
        None
    } else if tags.contains(weights[i].tag) {
        Some(weights[i].weight)
    } else {
        spawn_weight_from(tags, weights, i + 1)
    }
}

/// The first roll, from position `i` on, outside its stat's range.
pub open spec fn roll_error_from(stats: Seq<Poe2ModifierStat>, rolls: Seq<i64>, i: int) -> Option<Poe2ModifierValidationError>
    decreases rolls.len() - i,
{
    if i < 0 || i >= rolls.len() || i >= stats.len() {
        None
    } else if rolls[i] < stats[i].min || rolls[i] > stats[i].max {
        Some(Poe2ModifierValidationError::RollOutsideAllowedRange {
            minimum: stats[i].min,
            maximum: stats[i].max,
            actual: rolls[i],
        })
    } else {
        roll_error_from(stats, rolls, i + 1)
    }
}

/// The verdict on a rolled modifier, checked in order: the roll count, the
/// spawn weight for the item's tags, the item level, then each roll.
pub open spec fn modifier_verdict(
    item_level: u16,
    tags: Set<u64>,
    def: DefinitionView,
    rolls: Seq<i64>,
) -> Result<(), Poe2ModifierValidationError> {
    if def.stats.len() != rolls.len() {
        Err(Poe2ModifierValidationError::MismatchedStatsCount)
    } else if !(spawn_weight_from(tags, def.spawn_weights, 0) matches Some(w) && w > 0) {
        Err(Poe2ModifierValidationError::MismatchedBase)
    } else if item_level < def.required_level {
        Err(
            Poe2ModifierValidationError::ItemLevelTooLow {
                required: def.required_level,
                actual: item_level,
            },
        )
    } else {
        match roll_error_from(def.stats, rolls, 0) {
            Some(e) => Err(e),
            None => Ok(()),
        }
    }
}

/// Roll `i` lies within the inclusive range of stat `i`.
pub open spec fn roll_in_range(stats: Seq<Poe2ModifierStat>, rolls: Seq<i64>, i: int) -> bool {
    stats[i].min <= rolls[i] && rolls[i] <= stats[i].max
}

/// Roll `i` is the first roll from position `k` on outside its stat's
/// inclusive range, and `e` reports it with that stat's bounds.
pub open spec fn reports_first_out_of_range(
    stats: Seq<Poe2ModifierStat>,
    rolls: Seq<i64>,
    k: int,
    i: int,
    e: Poe2ModifierValidationError,
) -> bool {
    &&& k <= i < rolls.len()
    &&& !(stats[i].min <= rolls[i] && rolls[i] <= stats[i].max)
    &&& forall|j: int| k <= j < i ==> #[trigger] roll_in_range(stats, rolls, j)
    &&& e == (Poe2ModifierValidationError::RollOutsideAllowedRange {
        minimum: stats[i].min,
        maximum: stats[i].max,
        actual: rolls[i],
    })
}

/// From position `k` on, the rolls are checked in order: none is reported
/// exactly when all lie within their stats' ranges, and a report names the
/// first roll outside its range.
proof fn lemma_roll_error_from(stats: Seq<Poe2ModifierStat>, rolls: Seq<i64>, k: int)
    requires
        stats.len() == rolls.len(),
        0 <= k <= rolls.len(),
    ensures
        roll_error_from(stats, rolls, k) is None <==> (forall|i: int|
            k <= i < rolls.len() ==> #[trigger] roll_in_range(stats, rolls, i)),
        roll_error_from(stats, rolls, k) matches Some(e) ==> (exists|i: int|
            #[trigger] reports_first_out_of_range(stats, rolls, k, i, e)),
    decreases rolls.len() - k,
{
    if k < rolls.len() {
        lemma_roll_error_from(stats, rolls, k + 1);
        if !roll_in_range(stats, rolls, k) {
            assert(reports_first_out_of_range(stats, rolls, k, k, roll_error_from(stats, rolls, k)->0));
        } else if roll_error_from(stats, rolls, k) is Some {
            let e = roll_error_from(stats, rolls, k)->0;
            let i = choose|i: int| #[trigger] reports_first_out_of_range(stats, rolls, k + 1, i, e);
            assert(reports_first_out_of_range(stats, rolls, k, i, e));
        }
    }
}

/// Once the roll count matches, the item carries a positive spawn weight for
/// the modifier and its level suffices, the modifier is valid exactly when
/// every roll lies within its stat's inclusive range; otherwise the verdict
/// reports the first roll outside its range, with that stat's bounds.
pub proof fn law_rolls_valid_exactly_within_ranges(
    item_level: u16,
    tags: Set<u64>,
    def: DefinitionView,
    rolls: Seq<i64>,
)
    requires
        def.stats.len() == rolls.len(),
        spawn_weight_from(tags, def.spawn_weights, 0) matches Some(w) && w > 0,
        item_level >= def.required_level,
    ensures
        modifier_verdict(item_level, tags, def, rolls) is Ok <==> (forall|i: int|
            0 <= i < rolls.len() ==> def.stats[i].min <= rolls[i] && rolls[i] <= def.stats[i].max),
        modifier_verdict(item_level, tags, def, rolls) matches Err(e) ==> (exists|i: int|
            #[trigger] reports_first_out_of_range(def.stats, rolls, 0, i, e)),
{
    lemma_roll_error_from(def.stats, rolls, 0);
    if modifier_verdict(item_level, tags, def, rolls) is Ok {
        assert forall|i: int| 0 <= i < rolls.len() implies def.stats[i].min <= rolls[i] && rolls[i]
            <= def.stats[i].max by {
            assert(roll_in_range(def.stats, rolls, i));
        }
    } else if forall|i: int| 0 <= i < rolls.len() ==> def.stats[i].min <= rolls[i] && rolls[i] <= def.stats[i].max {
        assert forall|i: int| 0 <= i < rolls.len() implies #[trigger] roll_in_range(def.stats, rolls, i) by {}
    }
}

/// The spawn weight found from position `k` on is that of the first
/// weight, from `k` on, whose tag the item carries; none is found exactly
/// when the item carries none of those tags.
proof fn lemma_spawn_weight_from(tags: Set<u64>, weights: Seq<HashedTagWeight>, k: int)
    requires
        0 <= k <= weights.len(),
    ensures
        spawn_weight_from(tags, weights, k) is None <==> (forall|i: int|
            k <= i < weights.len() ==> !tags.contains(#[trigger] weights[i].tag)),
        spawn_weight_from(tags, weights, k) matches Some(w) ==> (exists|i: int|
            k <= i < weights.len() && tags.contains(#[trigger] weights[i].tag) && weights[i].weight == w && (forall|
                j: int,
            | k <= j < i ==> !tags.contains(#[trigger] weights[j].tag))),
    decreases weights.len() - k,
{
    if k < weights.len() {
        lemma_spawn_weight_from(tags, weights, k + 1);
        if !tags.contains(weights[k].tag) && spawn_weight_from(tags, weights, k) is Some {
            let w = spawn_weight_from(tags, weights, k)->0;
            let i = choose|i: int|
                k + 1 <= i < weights.len() && tags.contains(#[trigger] weights[i].tag) && weights[i].weight == w && (
                forall|j: int| k + 1 <= j < i ==> !tags.contains(#[trigger] weights[j].tag));
            assert forall|j: int| k <= j < i implies !tags.contains(#[trigger] weights[j].tag) by {
                if j == k {
                } else {
                }
            }
        }
    }
}

/// A modifier's spawn weight for an item is the weight of the first entry of
/// its spawn weights whose tag the item carries; there is none exactly when
/// the item carries none of their tags.
pub proof fn law_spawn_weight_is_first_carried_tag(tags: Set<u64>, weights: Seq<HashedTagWeight>)
    ensures
        spawn_weight_from(tags, weights, 0) is None <==> (forall|i: int|
            0 <= i < weights.len() ==> !tags.contains(#[trigger] weights[i].tag)),
        spawn_weight_from(tags, weights, 0) matches Some(w) ==> (exists|i: int|
            0 <= i < weights.len() && tags.contains(#[trigger] weights[i].tag) && weights[i].weight == w && (forall|
                j: int,
            | 0 <= j < i ==> !tags.contains(#[trigger] weights[j].tag))),
{
    lemma_spawn_weight_from(tags, weights, 0);
}

/// The checks on a rolled modifier come in order, each failing exactly on
/// its own condition: a roll count other than the stats' count; then no
/// positive spawn weight for the item's tags; then an item level below the
/// required level, reported with both levels.
pub proof fn law_verdict_checks_in_order(item_level: u16, tags: Set<u64>, def: DefinitionView, rolls: Seq<i64>)
    ensures
        (modifier_verdict(item_level, tags, def, rolls) == Err::<(), Poe2ModifierValidationError>(
            Poe2ModifierValidationError::MismatchedStatsCount,
        )) <==> def.stats.len() != rolls.len(),
        def.stats.len() == rolls.len() ==> ((modifier_verdict(item_level, tags, def, rolls) == Err::<
            (),
            Poe2ModifierValidationError,
        >(Poe2ModifierValidationError::MismatchedBase)) <==> !(spawn_weight_from(tags, def.spawn_weights, 0) matches Some(
            w,
        ) && w > 0)),
        def.stats.len() == rolls.len() && (spawn_weight_from(tags, def.spawn_weights, 0) matches Some(w) && w > 0)
            ==> ((modifier_verdict(item_level, tags, def, rolls) is Err && modifier_verdict(
            item_level,
            tags,
            def,
            rolls,
        )->Err_0 is ItemLevelTooLow) <==> item_level < def.required_level),
        item_level < def.required_level && def.stats.len() == rolls.len() && (spawn_weight_from(
            tags,
            def.spawn_weights,
            0,
        ) matches Some(w) && w > 0) ==> modifier_verdict(item_level, tags, def, rolls) == Err::<
            (),
            Poe2ModifierValidationError,
        >(level_error(def.required_level, item_level)),
{
    if def.stats.len() == rolls.len() {
        lemma_roll_error_from(def.stats, rolls, 0);
        if roll_error_from(def.stats, rolls, 0) is Some {
            let e = roll_error_from(def.stats, rolls, 0)->0;
            let i = choose|i: int| #[trigger] reports_first_out_of_range(def.stats, rolls, 0, i, e);
        }
    }
}

/// The report of an item level below the required level.
pub open spec fn level_error(required: u16, actual: u16) -> Poe2ModifierValidationError {
    Poe2ModifierValidationError::ItemLevelTooLow { required, actual }
}

impl Poe2ModifierValidator {
    /// The weight of the first spawn weight whose tag the item carries.
    fn effective_spawn_weight(&self, item_tags: &ahash::HashSet<u64>, spawn_weights: &[HashedTagWeight]) -> (r: Option<u32>)
        ensures
            r == spawn_weight_from(tag_set_contents(*item_tags), spawn_weights@, 0),
    {
        let mut i: usize = 0;
        while i < spawn_weights.len()
            invariant
                i <= spawn_weights@.len(),
                spawn_weight_from(tag_set_contents(*item_tags), spawn_weights@, 0) == spawn_weight_from(tag_set_contents(*item_tags), spawn_weights@, i as int),
            decreases spawn_weights@.len() - i,
        {
            if tag_set_contains(item_tags, spawn_weights[i].tag) {
                return Some(spawn_weights[i].weight);
            }
            i += 1;
        }
        None
    }

    /// Validates a rolled modifier against its definition for an item in
    /// state `state`.
    pub fn validate_modifier_for_state(
        &self,
        state: &Poe2ItemState,
        definition: &Poe2ModifierDefinition,
        modifier: &Poe2ModifierInstance,
    ) -> (r: Result<(), Poe2ModifierValidationError>)
        ensures
            r == modifier_verdict(state.item_level, tag_set_contents(state.tags), definition@, modifier.rolls@),
    {
        if definition.stats.len() != modifier.rolls.len() {
            return Err(Poe2ModifierValidationError::MismatchedStatsCount);
        }
        match self.effective_spawn_weight(&state.tags, definition.spawn_weights.as_slice()) {
            Some(weight) if weight > 0 => {},
            _ => {
                return Err(Poe2ModifierValidationError::MismatchedBase);
            },
        }
        if state.item_level < definition.required_level {
            return Err(
                Poe2ModifierValidationError::ItemLevelTooLow {
                    required: definition.required_level,
                    actual: state.item_level,
                },
            );
        }
        let mut i: usize = 0;
        while i < modifier.rolls.len()
            invariant
                i <= modifier.rolls@.len(),
                modifier.rolls@.len() == definition.stats@.len(),
                spawn_weight_from(tag_set_contents(state.tags), definition.spawn_weights@, 0) matches Some(w) && w > 0,
                state.item_level >= definition.required_level,
                roll_error_from(definition.stats@, modifier.rolls@, 0) == roll_error_from(
                    definition.stats@,
                    modifier.rolls@,
                    i as int,
                ),
            decreases modifier.rolls@.len() - i,
        {
            let stat_def = &definition.stats[i];
            let rolled_value = modifier.rolls[i];
            if rolled_value < stat_def.min || rolled_value > stat_def.max {
                return Err(
                    Poe2ModifierValidationError::RollOutsideAllowedRange {
                        minimum: stat_def.min,
                        maximum: stat_def.max,
                        actual: rolled_value,
                    },
                );
            }
            i += 1;
        }
        Ok(())
    }

    /// Validates a rolled modifier against its definition and the item.
    pub fn validate_modifier(
        &self,
        item: &ItemInstance,
        definition: &Poe2ModifierDefinition,
        modifier: &Poe2ModifierInstance,
    ) -> (r: Result<(), Poe2ModifierValidationError>)
        ensures
            r == modifier_verdict(item.state.item_level, tag_set_contents(item.state.tags), definition@, modifier.rolls@),
    {
        self.validate_modifier_for_state(&item.state, definition, modifier)
    }
}

} // verus!
