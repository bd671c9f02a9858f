//! An item: its base, its state and the modifiers stored on it.

use vstd::prelude::*;

use crate::item::state::Poe2ItemState;
use crate::item::state::Poe2ModifierId;
use crate::item::state::Poe2ModifierInstance;
use crate::repoe_parse::ItemClass;

verus! {

/// Identifies one modifier stored on one item.
#[derive(Debug, Clone, Copy, PartialEq, Eq, Hash, Structural)]
pub struct ModifierInstanceId(pub u64);

/// A modifier stored on an item: its instance identifier, the definition it
/// rolls, and the rolled values.
#[derive(Debug, Clone)]
pub struct StoredModifier {
    pub id: ModifierInstanceId,
    pub definition_id: Poe2ModifierId,
    pub modifier: Poe2ModifierInstance,
}

/// An item, as validation and rule checks see it.
#[derive(Debug)]
pub struct ItemInstance {
    pub base: ItemClass,
    pub state: Poe2ItemState,
    pub modifiers: Vec<StoredModifier>,
}

/// The position of the first modifier in `mods` with instance identifier `id`.
pub open spec fn position_of(mods: Seq<StoredModifier>, id: ModifierInstanceId) -> Option<int> {
    if exists|k: int| 0 <= k < mods.len() && mods[k].id == id {
        Some(choose|k: int| 0 <= k < mods.len() && mods[k].id == id && forall|q: int| 0 <= q < k ==> mods[q].id != id)
    } else {
        None
    }
}

impl ItemInstance {
    /// An item with no modifiers.
    pub fn new(base: ItemClass, state: Poe2ItemState) -> (r: Self)
        ensures
            r.base == base,
            r.state == state,
            r.modifiers@.len() == 0,
    {
        ItemInstance { base, state, modifiers: Vec::new() }
    }

    /// The item's base.
    pub fn base(&self) -> (b: &ItemClass)
        ensures
            *b == self.base,
    {
        &self.base
    }

    /// The item's state.
    pub fn state(&self) -> (s: &Poe2ItemState)
        ensures
            *s == self.state,
    {
        &self.state
    }

    /// The modifiers stored on the item.
    pub fn modifiers(&self) -> (m: &[StoredModifier])
        ensures
            m@ == self.modifiers@,
    {
        self.modifiers.as_slice()
    }

    /// The rolled values of the first stored modifier with identifier `id`.
    pub fn modifier(&self, id: ModifierInstanceId) -> (r: Option<&Poe2ModifierInstance>)
        ensures
            r is None <==> position_of(self.modifiers@, id) is None,
            r matches Some(m) ==> *m == self.modifiers@[position_of(self.modifiers@, id)->0].modifier,
    {
        let mut k: usize = 0;
        while k < self.modifiers.len()
            invariant
                k <= self.modifiers@.len(),
                forall|q: int| 0 <= q < k ==> self.modifiers@[q].id != id,
            decreases self.modifiers@.len() - k,
        {
            if self.modifiers[k].id == id {
                let ghost p = position_of(self.modifiers@, id);
                assert(p is Some);
                proof {
                    let c = p->0;
                    if c < k {
                    } else if c > k {
                        assert(self.modifiers@[k as int].id == id);
                    }
                }
                return Some(&self.modifiers[k].modifier);
            }
            k += 1;
        }
        None
    }
}

} // verus!
