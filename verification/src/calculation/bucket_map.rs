//! The map from stat identifier hashes to buckets, an `ahash` map.

use vstd::prelude::*;

use crate::item::state::StatBucket;
use ahash::AHashMap;

verus! {

#[verifier::external_type_specification]
#[verifier::external_body]
#[verifier::reject_recursive_types(K)]
#[verifier::reject_recursive_types(V)]
#[verifier::reject_recursive_types(S)]
pub struct ExAHashMap<K, V, S>(AHashMap<K, V, S>);

#[verifier::external_type_specification]
#[verifier::external_body]
pub struct ExAhashRandomState(ahash::RandomState);

/// What a bucket map holds: the buckets under each stat identifier hash.
pub uninterp spec fn bucket_map_contents(m: AHashMap<u64, Vec<StatBucket>>) -> Map<u64, Seq<StatBucket>>;

/// No buckets under any hash.
pub open spec fn no_buckets() -> Map<u64, Seq<StatBucket>> {
    Map::empty()
}

/// An empty map, made by `AHashMap::new`.
#[verifier::external_body]
pub(crate) fn bucket_map_new() -> (r: AHashMap<u64, Vec<StatBucket>>)
    ensures
        bucket_map_contents(r) == no_buckets(),
{
    AHashMap::new()
}

/// Records `buckets` under `key` with `AHashMap::insert`, replacing what
/// was there.
#[verifier::external_body]
pub(crate) fn bucket_map_insert(m: &mut AHashMap<u64, Vec<StatBucket>>, key: u64, buckets: Vec<StatBucket>)
    ensures
        bucket_map_contents(*final(m)) == bucket_map_contents(*old(m)).insert(key, buckets@),
{
    m.insert(key, buckets);
}

/// The buckets under `key`, read with `AHashMap::get`.
#[verifier::external_body]
pub(crate) fn bucket_map_get<'a>(m: &'a AHashMap<u64, Vec<StatBucket>>, key: u64) -> (r: Option<&'a Vec<StatBucket>>)
    ensures
        r is Some <==> bucket_map_contents(*m).contains_key(key),
        r matches Some(v) ==> v@ == bucket_map_contents(*m)[key],
{
    m.get(&key)
}

} // verus!
