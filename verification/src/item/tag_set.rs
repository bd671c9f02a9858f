//! The tag hashes of an item: an `ahash` hash set.

use vstd::prelude::*;

verus! {

/// The tag hashes a set holds.
pub uninterp spec fn tag_set_contents(s: std::collections::HashSet<u64, ahash::RandomState>) -> Set<u64>;

/// Whether the set holds `tag`, by `HashSet::contains`.
#[verifier::external_body]
pub(crate) fn tag_set_contains(s: &std::collections::HashSet<u64, ahash::RandomState>, tag: u64) -> (b: bool)
    ensures
        b == tag_set_contents(*s).contains(tag),
{
    s.contains(&tag)
}

/// A copy of the set, by `HashSet::clone`.
#[verifier::external_body]
pub(crate) fn tag_set_clone(s: &std::collections::HashSet<u64, ahash::RandomState>) -> (r:
    std::collections::HashSet<u64, ahash::RandomState>)
    ensures
        tag_set_contents(r) == tag_set_contents(*s),
{
    s.clone()
}

} // verus!
