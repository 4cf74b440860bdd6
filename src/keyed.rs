//! Lists of keyed entries and the maps they denote.
//!
//! Both the cache index and the lock registry keep their entries in a `Vec`
//! whose keys are pairwise distinct; the map that such a list stands for is
//! `keyed_map`, where a later entry replaces an earlier one with the same key.

use vstd::prelude::*;

verus! {

/// The map denoted by a list of entries, later entries replacing earlier ones.
pub open spec fn keyed_map<V>(s: Seq<(Seq<char>, V)>) -> Map<Seq<char>, V>
    decreases s.len(),
{
    if s.len() == 0 {
        Map::empty()
    } else {
        keyed_map(s.drop_last()).insert(s.last().0, s.last().1)
    }
}

/// No key occurs twice in the list.
pub open spec fn keys_distinct<V>(s: Seq<(Seq<char>, V)>) -> bool {
    forall|i: int, j: int| 0 <= i < j < s.len() ==> s[i].0 != s[j].0
}

/// A key is in the denoted map exactly when some entry carries it; with
/// distinct keys each entry is found under its key and the map is finite
/// with one key per entry.
pub proof fn lemma_keyed_map_lookup<V>(s: Seq<(Seq<char>, V)>)
    requires
        keys_distinct(s),
    ensures
        forall|k: Seq<char>|
            #[trigger] keyed_map(s).contains_key(k) <==> exists|i: int|
                0 <= i < s.len() && s[i].0 == k,
        forall|i: int|
            0 <= i < s.len() ==> keyed_map(s).contains_key(#[trigger] s[i].0) && keyed_map(s)[s[i].0]
                == s[i].1,
        keyed_map(s).dom().finite(),
        keyed_map(s).dom().len() == s.len(),
    decreases s.len(),
{
    if s.len() > 0 {
        let t = s.drop_last();
        let last = s.last();
        assert(keys_distinct(t));
        lemma_keyed_map_lookup(t);
        assert(!keyed_map(t).contains_key(last.0)) by {
            if keyed_map(t).contains_key(last.0) {
                let i = choose|i: int| 0 <= i < t.len() && t[i].0 == last.0;
                assert(s[i].0 == s[s.len() - 1].0);
            }
        }
        assert forall|k: Seq<char>| #[trigger]
            keyed_map(s).contains_key(k) <==> exists|i: int| 0 <= i < s.len() && s[i].0 == k by {
            if keyed_map(s).contains_key(k) {
                if k == last.0 {
                    assert(s[s.len() - 1].0 == k);
                } else {
                    let i = choose|i: int| 0 <= i < t.len() && t[i].0 == k;
                    assert(s[i].0 == k);
                }
            }
            if exists|i: int| 0 <= i < s.len() && s[i].0 == k {
                let i = choose|i: int| 0 <= i < s.len() && s[i].0 == k;
                if i < s.len() - 1 {
                    assert(t[i].0 == k);
                }
            }
        }
        assert forall|i: int| 0 <= i < s.len() implies keyed_map(s).contains_key(
            #[trigger] s[i].0,
        ) && keyed_map(s)[s[i].0] == s[i].1 by {
            if i < s.len() - 1 {
                assert(t[i] == s[i]);
            }
        }
    }
}

/// Appending an entry inserts it into the denoted map.
pub proof fn lemma_keyed_map_push<V>(s: Seq<(Seq<char>, V)>, e: (Seq<char>, V))
    ensures
        keyed_map(s.push(e)) == keyed_map(s).insert(e.0, e.1),
{
    assert(s.push(e).drop_last() =~= s);
}

/// Replacing an entry by one with the same key inserts the new value.
pub proof fn lemma_keyed_map_update<V>(s: Seq<(Seq<char>, V)>, i: int, e: (Seq<char>, V))
    requires
        keys_distinct(s),
        0 <= i < s.len(),
        s[i].0 == e.0,
    ensures
        keyed_map(s.update(i, e)) == keyed_map(s).insert(e.0, e.1),
    decreases s.len(),
{
    let t = s.drop_last();
    let u = s.update(i, e);
    if i == s.len() - 1 {
        assert(u.drop_last() =~= t);
        assert(keyed_map(u) =~= keyed_map(s).insert(e.0, e.1));
    } else {
        assert(keys_distinct(t));
        lemma_keyed_map_update(t, i, e);
        assert(u.drop_last() =~= t.update(i, e));
        assert(s.last().0 != e.0) by {
            assert(s[i].0 != s[s.len() - 1].0);
        }
        assert(keyed_map(u) =~= keyed_map(s).insert(e.0, e.1));
    }
}

/// Removing an entry removes its key from the denoted map.
pub proof fn lemma_keyed_map_remove<V>(s: Seq<(Seq<char>, V)>, i: int)
    requires
        keys_distinct(s),
        0 <= i < s.len(),
    ensures
        keyed_map(s.remove(i)) == keyed_map(s).remove(s[i].0),
        keys_distinct(s.remove(i)),
    decreases s.len(),
{
    let t = s.drop_last();
    let r = s.remove(i);
    assert(keys_distinct(t));
    assert(keys_distinct(r)) by {
        assert forall|a: int, b: int| 0 <= a < b < r.len() implies r[a].0 != r[b].0 by {
            let a2 = if a < i { a } else { a + 1 };
            let b2 = if b < i { b } else { b + 1 };
            assert(r[a] == s[a2] && r[b] == s[b2]);
        }
    }
    if i == s.len() - 1 {
        assert(r =~= t);
        lemma_keyed_map_lookup(t);
        assert(!keyed_map(t).contains_key(s.last().0)) by {
            if keyed_map(t).contains_key(s.last().0) {
                let j = choose|j: int| 0 <= j < t.len() && t[j].0 == s.last().0;
                assert(s[j].0 == s[s.len() - 1].0);
            }
        }
        assert(keyed_map(r) =~= keyed_map(s).remove(s[i].0));
    } else {
        lemma_keyed_map_remove(t, i);
        assert(r =~= t.remove(i).push(s.last()));
        lemma_keyed_map_push(t.remove(i), s.last());
        assert(s[i].0 != s.last().0) by {
            assert(s[i].0 != s[s.len() - 1].0);
        }
        assert(t[i] == s[i]);
        assert(keyed_map(r) =~= keyed_map(s).remove(s[i].0));
    }
}

} // verus!
