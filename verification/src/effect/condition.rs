//! Which gate conditions hold for a given configuration.

use vstd::prelude::*;

use crate::poe2_condition::Poe2Condition;

verus! {

/// The conditions that hold in the situation being calculated.
#[derive(Debug, Default, Clone)]
pub struct Poe2Configuration {
    pub active_conditions: Vec<Poe2Condition>,
}

/// Evaluates conditions against a configuration.
pub struct Poe2Evaluator;

impl Poe2Evaluator {
    /// A condition holds exactly when the configuration lists it as active.
    pub fn evaluate_condition(&self, condition: &Poe2Condition, context: &Poe2Configuration) -> (r: Result<
        bool,
        core::convert::Infallible,
    >)
        ensures
            r == Ok::<bool, core::convert::Infallible>(context.active_conditions@.contains(*condition)),
    {
        let mut i: usize = 0;
        while i < context.active_conditions.len()
            invariant
                i <= context.active_conditions@.len(),
                forall|k: int| 0 <= k < i ==> context.active_conditions@[k] != *condition,
            decreases context.active_conditions@.len() - i,
        {
            if context.active_conditions[i] == *condition {
                return Ok(true);
            }
            i += 1;
        }
        Ok(false)
    }
}

} // verus!
