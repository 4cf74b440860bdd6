//! The tag index of a cache channel: a `DashMap` from tags to records,
//! reached through one wrapper per map operation.

use crate::cache_model::CacheRecord;
use dashmap::DashMap;
use vstd::prelude::*;

verus! {

#[verifier::external_type_specification]
#[verifier::external_body]
#[verifier::reject_recursive_types(K)]
#[verifier::reject_recursive_types(V)]
#[verifier::reject_recursive_types(S)]
pub struct ExDashMap<K, V, S>(DashMap<K, V, S>);

/// The records a tag index holds, by tag.
pub uninterp spec fn indexed_records(m: DashMap<String, CacheRecord>) -> Map<Seq<char>, CacheRecord>;

/// Relies on `DashMap::new`: a map with no entry.
#[verifier::external_body]
pub(crate) fn index_new() -> (r: DashMap<String, CacheRecord>)
    ensures
        indexed_records(r) =~= Map::empty(),
{
    DashMap::new()
}

/// Relies on `DashMap::insert`: afterwards `key` maps to `value` and every
/// other key keeps its value.
#[verifier::external_body]
pub(crate) fn index_insert(m: &mut DashMap<String, CacheRecord>, key: String, value: CacheRecord)
    ensures
        indexed_records(*final(m)) == indexed_records(*old(m)).insert(key@, value),
{
    m.insert(key, value);
}

/// Relies on `DashMap::remove`: afterwards `key` has no entry and every other
/// key keeps its value.
#[verifier::external_body]
pub(crate) fn index_remove(m: &mut DashMap<String, CacheRecord>, key: &String)
    ensures
        indexed_records(*final(m)) == indexed_records(*old(m)).remove(key@),
{
    m.remove(key);
}

/// Relies on `DashMap::get`, and on the derived `Clone` of `CacheRecord`,
/// which clones each field: a copy of the value under `key`, if any.
#[verifier::external_body]
pub(crate) fn index_get(m: &DashMap<String, CacheRecord>, key: &String) -> (r: Option<CacheRecord>)
    ensures
        indexed_records(*m).contains_key(key@) ==> r == Some(indexed_records(*m)[key@]),
        !indexed_records(*m).contains_key(key@) ==> r is None,
{
    m.get(key).map(|entry| entry.value().clone())
}

/// Relies on `DashMap::len`: the number of entries.
#[verifier::external_body]
pub(crate) fn index_len(m: &DashMap<String, CacheRecord>) -> (r: usize)
    ensures
        r == indexed_records(*m).len(),
{
    m.len()
}

/// Relies on `DashMap::iter`, which visits every entry once, and on the
/// derived `Clone` of `CacheRecord`: each key with a copy of its value, in
/// some order.
#[verifier::external_body]
pub(crate) fn index_entries(m: &DashMap<String, CacheRecord>) -> (r: Vec<(String, CacheRecord)>)
    ensures
        forall|i: int, j: int| 0 <= i < j < r@.len() ==> r@[i].0@ != r@[j].0@,
        forall|i: int|
            0 <= i < r@.len() ==> indexed_records(*m).contains_key(#[trigger] r@[i].0@)
                && indexed_records(*m)[r@[i].0@] == r@[i].1,
        forall|k: Seq<char>|
            #[trigger] indexed_records(*m).contains_key(k) ==> exists|i: int|
                0 <= i < r@.len() && r@[i].0@ == k,
{
    m.iter().map(|entry| (entry.key().clone(), entry.value().clone())).collect()
}

} // verus!
