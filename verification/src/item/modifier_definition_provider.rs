//! Looking up modifier definitions by identifier.

use vstd::prelude::*;

use crate::item::definition::Poe2DefinitionRegistry;
use crate::item::state::Poe2ModifierDefinition;
use crate::item::state::Poe2ModifierId;

verus! {

broadcast use vstd::std_specs::hash::group_hash_axioms;

/// A failed definition lookup.
#[derive(Debug, Clone, Copy, PartialEq, Eq, Structural)]
pub enum Poe2DefinitionRegistryError {
    DefinitionNotFound { id: Poe2ModifierId },
}

impl Poe2DefinitionRegistry {
    /// The definition registered under `id`.
    pub fn definition(&self, id: &Poe2ModifierId) -> (r: Result<
        &Poe2ModifierDefinition,
        Poe2DefinitionRegistryError,
    >)
        ensures
            r matches Ok(d) ==> self.definitions@.contains_key(id.0) && *d == self.definitions@[id.0],
            r matches Err(e) ==> !self.definitions@.contains_key(id.0)
                && e == (Poe2DefinitionRegistryError::DefinitionNotFound { id: *id }),
    {
        match self.definitions.get(&id.0) {
            Some(d) => Ok(d),
            None => Err(Poe2DefinitionRegistryError::DefinitionNotFound { id: *id }),
        }
    }
}

} // verus!
