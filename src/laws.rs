//! Properties that relate several operations of a cache channel, of the
//! channel registry and of the lock registry.

use crate::cache_model::{record_index, CacheRecord};
use crate::factory::after_register;
use crate::keyed_lock::{after_tick, held_slots, KeyedLockView};
use crate::file_cache::{
    after_cache, after_flush, blob_of, blob_path, needs_update, ManagerView,
};
use vstd::prelude::*;

verus! {

/// After `cache(tag, sentence, bytes)`, `fetch(tag)` reads the very file the
/// bytes were written to: the tag's blob if it was known, else the file under
/// the newly generated name.
pub proof fn lemma_fetch_after_cache(
    v: ManagerView,
    tag: Seq<char>,
    sentence: Seq<char>,
    size: nat,
    new_filename: Seq<char>,
)
    ensures
        after_cache(v, tag, sentence, size, new_filename).records.contains_key(tag),
        blob_of(after_cache(v, tag, sentence, size, new_filename), tag) == (if v.records.contains_key(
            tag,
        ) {
            blob_of(v, tag)
        } else {
            blob_path(v.path, new_filename, v.extension)
        }),
        after_cache(v, tag, sentence, size, new_filename).records[tag].size == size,
{
}

/// Once `tag` was cached with `sentence` and its blob is on disk,
/// `should_update(tag, sentence)` is false and `should_update(tag, other)` is
/// true for any other sentence; a tag that was never cached has no answer
/// (`TagNotExist`).
pub proof fn lemma_should_update_after_cache(
    v: ManagerView,
    tag: Seq<char>,
    sentence: Seq<char>,
    other: Seq<char>,
    unknown: Seq<char>,
    size: nat,
    new_filename: Seq<char>,
)
    requires
        other != sentence,
        unknown != tag,
        !v.records.contains_key(unknown),
    ensures
        needs_update(after_cache(v, tag, sentence, size, new_filename).records, tag, sentence, true)
            == Some(false),
        needs_update(after_cache(v, tag, sentence, size, new_filename).records, tag, other, true)
            == Some(true),
        needs_update(
            after_cache(v, tag, sentence, size, new_filename).records,
            unknown,
            sentence,
            true,
        ) is None,
{
}

/// After `flush(tag)` the tag is unknown, so `fetch(tag)` fails with
/// `TagNotExist`; every other tag keeps its record, and the blob that was
/// deleted is the tag's own.
pub proof fn lemma_flush_forgets(v: ManagerView, tag: Seq<char>, other: Seq<char>)
    requires
        v.records.contains_key(tag),
        other != tag,
    ensures
        !after_flush(v, tag).records.contains_key(tag),
        after_flush(v, tag).records.contains_key(other) == v.records.contains_key(other),
        v.records.contains_key(other) ==> after_flush(v, tag).records[other] == v.records[other],
{
}

/// A manager rebuilt from a persisted snapshot of `v` (same directory and
/// extension) holds every record of `v`, each with the same blob path, so
/// every `fetch` reads the same file as before.
pub proof fn lemma_restore_after_persist(v: ManagerView, snapshot: Seq<CacheRecord>)
    requires
        record_index(snapshot) == v.records,
    ensures
        forall|tag: Seq<char>| #[trigger]
            v.records.contains_key(tag) ==> record_index(snapshot).contains_key(tag)
                && record_index(snapshot)[tag] == v.records[tag] && blob_of(
                ManagerView { records: record_index(snapshot), dirty: false, ..v },
                tag,
            ) == blob_of(v, tag),
        record_index(snapshot).dom() == v.records.dom(),
{
}

/// Caching two distinct tags gives the same channel in either order, and the
/// second leaves the first tag's record as the first left it.
pub proof fn lemma_distinct_tags_commute(
    v: ManagerView,
    t1: Seq<char>,
    s1: Seq<char>,
    n1: nat,
    f1: Seq<char>,
    t2: Seq<char>,
    s2: Seq<char>,
    n2: nat,
    f2: Seq<char>,
)
    requires
        t1 != t2,
    ensures
        after_cache(after_cache(v, t1, s1, n1, f1), t2, s2, n2, f2) == after_cache(
            after_cache(v, t2, s2, n2, f2),
            t1,
            s1,
            n1,
            f1,
        ),
        after_cache(after_cache(v, t1, s1, n1, f1), t2, s2, n2, f2).records[t1] == after_cache(
            v,
            t1,
            s1,
            n1,
            f1,
        ).records[t1],
{
    let a = after_cache(after_cache(v, t1, s1, n1, f1), t2, s2, n2, f2);
    let b = after_cache(after_cache(v, t2, s2, n2, f2), t1, s1, n1, f1);
    assert(a.records =~= b.records);
}

/// Two `cache` calls on one tag, one after the other, leave exactly the
/// second call's sentence and size, under the file name the tag had after the
/// first: both wrote the same blob, and the second write is what remains.
pub proof fn lemma_same_tag_last_writer_wins(
    v: ManagerView,
    tag: Seq<char>,
    s1: Seq<char>,
    n1: nat,
    f1: Seq<char>,
    s2: Seq<char>,
    n2: nat,
    f2: Seq<char>,
)
    ensures
        after_cache(after_cache(v, tag, s1, n1, f1), tag, s2, n2, f2).records[tag].sentence == s2,
        after_cache(after_cache(v, tag, s1, n1, f1), tag, s2, n2, f2).records[tag].size == n2,
        blob_of(after_cache(after_cache(v, tag, s1, n1, f1), tag, s2, n2, f2), tag) == blob_of(
            after_cache(v, tag, s1, n1, f1),
            tag,
        ),
{
}

/// A channel name is registered once: after two registrations under one
/// name, the name's manager is the one registered first (or the one that was
/// there before both).
pub proof fn lemma_first_registration_wins<M>(
    registry: Map<Seq<char>, M>,
    name: Seq<char>,
    first: M,
    second: M,
)
    ensures
        after_register(after_register(registry, name, first), name, second).contains_key(name),
        after_register(after_register(registry, name, first), name, second)[name] == if registry.contains_key(
            name,
        ) {
            registry[name]
        } else {
            first
        },
{
}

/// Entering one key's slot never disturbs another key that has holders: its
/// slot keeps its value and its holder count, also when the entry triggers a
/// cleanup.
pub proof fn lemma_enter_keeps_other_held_slots<T>(v: KeyedLockView<T>, key: Seq<char>, other: Seq<char>)
    requires
        other != key,
        v.slots.contains_key(other),
        v.slots[other].1 > 0,
    ensures
        forall|x: (T, nat)|
            #[trigger] after_tick(v).slots.insert(key, x).contains_key(other) && after_tick(
                v,
            ).slots.insert(key, x)[other] == v.slots[other],
{
}

/// A cleanup never takes away a slot that has holders, and keeps only such
/// slots.
pub proof fn lemma_cleanup_keeps_held_slots<T>(slots: Map<Seq<char>, (T, nat)>, key: Seq<char>)
    ensures
        slots.contains_key(key) && slots[key].1 > 0 ==> held_slots(slots).contains_key(key)
            && held_slots(slots)[key] == slots[key],
        held_slots(slots).contains_key(key) ==> slots.contains_key(key) && slots[key].1 > 0,
{
}

} // verus!
