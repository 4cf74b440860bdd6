//! The slot registry behind a per-key shared/exclusive lock.
//!
//! Each key owns one slot, created with a caller-supplied default value on
//! first use, together with the number of holders that currently use it. A
//! slot is reclaimed only when nobody holds it: `free` takes out one idle slot,
//! `cleanup` drops every idle slot, and every 32nd `enter` runs `cleanup`
//! first. The blocking itself (many readers or one writer per slot) belongs to
//! the lock stored in the slot; distinct keys have distinct slots.

use crate::keyed::{
    keyed_map, keys_distinct, lemma_keyed_map_lookup, lemma_keyed_map_push,
    lemma_keyed_map_remove, lemma_keyed_map_update,
};
use vstd::prelude::*;
use vstd::string::StringExecFns;

verus! {

/// How many `enter` calls may pass before idle slots are reclaimed.
pub const CLEANUP_PERIOD: u32 = 32;

/// One key's slot: its value and how many holders use it.
pub struct LockSlot<T> {
    key: String,
    value: T,
    holders: usize,
}

/// The registry as plain values: each key's value and holder count, and how
/// many `enter` calls passed since the last cleanup.
pub struct KeyedLockView<T> {
    pub slots: Map<Seq<char>, (T, nat)>,
    pub ticks: nat,
}

/// The slots that have holders.
pub open spec fn held_slots<T>(m: Map<Seq<char>, (T, nat)>) -> Map<Seq<char>, (T, nat)> {
    Map::new(|k: Seq<char>| m.contains_key(k) && m[k].1 > 0, |k: Seq<char>| m[k])
}

/// The slots and tick count right after the cleanup counter advanced once.
pub open spec fn after_tick<T>(v: KeyedLockView<T>) -> KeyedLockView<T> {
    if v.ticks + 1 >= CLEANUP_PERIOD {
        KeyedLockView { slots: held_slots(v.slots), ticks: 0 }
    } else {
        KeyedLockView { slots: v.slots, ticks: v.ticks + 1 }
    }
}

/// The keyed entries of a list of slots.
spec fn slot_entries<T>(s: Seq<LockSlot<T>>) -> Seq<(Seq<char>, (T, nat))> {
    s.map_values(|x: LockSlot<T>| (x.key@, (x.value, x.holders as nat)))
}

/// A registry of per-key slots.
pub struct KeyedRwLock<T> {
    cumulative_cleanup: u32,
    slots: Vec<LockSlot<T>>,
}

impl<T> View for KeyedRwLock<T> {
    type V = KeyedLockView<T>;

    closed spec fn view(&self) -> KeyedLockView<T> {
        KeyedLockView {
            slots: keyed_map(slot_entries(self.slots@)),
            ticks: self.cumulative_cleanup as nat,
        }
    }
}

impl<T> KeyedRwLock<T> {
    /// Each key has one slot and the counter is below its period.
    pub closed spec fn wf(&self) -> bool {
        &&& keys_distinct(slot_entries(self.slots@))
        &&& self.cumulative_cleanup < CLEANUP_PERIOD
    }

    /// An empty registry.
    pub fn new() -> (r: Self)
        ensures
            r.wf(),
            r@.slots == Map::<Seq<char>, (T, nat)>::empty(),
            r@.ticks == 0,
    {
        let r = KeyedRwLock { cumulative_cleanup: 0, slots: Vec::new() };
        proof {
            assert(slot_entries(r.slots@) =~= Seq::empty());
        }
        r
    }

    proof fn lemma_view(&self)
        requires
            self.wf(),
        ensures
            forall|k: Seq<char>|
                #[trigger] self@.slots.contains_key(k) <==> exists|i: int|
                    0 <= i < self.slots@.len() && self.slots@[i].key@ == k,
            forall|i: int|
                0 <= i < self.slots@.len() ==> self@.slots.contains_key(
                    #[trigger] self.slots@[i].key@,
                ) && self@.slots[self.slots@[i].key@] == (
                    self.slots@[i].value,
                    self.slots@[i].holders as nat,
                ),
            self@.slots.dom().finite(),
            self@.slots.dom().len() == self.slots@.len(),
    {
        let s = slot_entries(self.slots@);
        lemma_keyed_map_lookup(s);
        assert forall|k: Seq<char>| #[trigger]
            self@.slots.contains_key(k) <==> exists|i: int|
                0 <= i < self.slots@.len() && self.slots@[i].key@ == k by {
            if self@.slots.contains_key(k) {
                let i = choose|i: int| 0 <= i < s.len() && s[i].0 == k;
                assert(self.slots@[i].key@ == k);
            }
            if exists|i: int| 0 <= i < self.slots@.len() && self.slots@[i].key@ == k {
                let i = choose|i: int| 0 <= i < self.slots@.len() && self.slots@[i].key@ == k;
                assert(s[i].0 == k);
            }
        }
        assert forall|i: int| 0 <= i < self.slots@.len() implies self@.slots.contains_key(
            #[trigger] self.slots@[i].key@,
        ) && self@.slots[self.slots@[i].key@] == (
            self.slots@[i].value,
            self.slots@[i].holders as nat,
        ) by {
            assert(s[i].0 == self.slots@[i].key@);
        }
    }

    /// The position of `key`'s slot, if it has one.
    fn find_slot(&self, key: &String) -> (r: Option<usize>)
        requires
            self.wf(),
        ensures
            match r {
                Some(i) => i < self.slots@.len() && self.slots@[i as int].key@ == key@,
                None => !self@.slots.contains_key(key@),
            },
    {
        let mut i: usize = 0;
        while i < self.slots.len()
            invariant
                i <= self.slots@.len(),
                forall|j: int| 0 <= j < i ==> self.slots@[j].key@ != key@,
            decreases self.slots@.len() - i,
        {
            if self.slots[i].key == *key {
                return Some(i);
            }
            i = i + 1;
        }
        proof {
            self.lemma_view();
        }
        None
    }

    /// Sets the holder count of the slot at `i`.
    fn set_holders(&mut self, i: usize, holders: usize)
        requires
            old(self).wf(),
            i < old(self).slots@.len(),
        ensures
            final(self).wf(),
            final(self).cumulative_cleanup == old(self).cumulative_cleanup,
            final(self).slots@.len() == old(self).slots@.len(),
            final(self)@.slots == old(self)@.slots.insert(
                old(self).slots@[i as int].key@,
                (old(self).slots@[i as int].value, holders as nat),
            ),
    {
        let ghost before = slot_entries(self.slots@);
        let ghost prev = self.slots@;
        let LockSlot { key, value, holders: _ } = self.slots.remove(i);
        let slot = LockSlot { key, value, holders };
        let ghost e = (slot.key@, (slot.value, slot.holders as nat));
        self.slots.insert(i, slot);
        proof {
            assert(self.slots@ =~= prev.update(i as int, slot));
            assert(slot_entries(self.slots@) =~= before.update(i as int, e));
            lemma_keyed_map_update(before, i as int, e);
            let s = slot_entries(self.slots@);
            assert forall|a: int, b: int| 0 <= a < b < s.len() implies s[a].0 != s[b].0 by {
                assert(before[a].0 == s[a].0);
                assert(before[b].0 == s[b].0);
            }
        }
    }

    /// Drops every slot that nobody holds and restarts the cleanup counter.
    pub fn cleanup(&mut self)
        requires
            old(self).wf(),
        ensures
            final(self).wf(),
            final(self)@.slots == held_slots(old(self)@.slots),
            final(self)@.ticks == 0,
    {
        let ghost orig = self@.slots;
        let mut i: usize = 0;
        while i < self.slots.len()
            invariant
                self.wf(),
                i <= self.slots@.len(),
                forall|j: int| 0 <= j < i ==> self.slots@[j].holders > 0,
                held_slots(self@.slots) == held_slots(orig),
                forall|k: Seq<char>|
                    #[trigger] self@.slots.contains_key(k) ==> orig.contains_key(k)
                        && self@.slots[k] == orig[k],
            decreases self.slots@.len() - i,
        {
            if self.slots[i].holders == 0 {
                let ghost before = self@.slots;
                let ghost k = self.slots@[i as int].key@;
                proof {
                    self.lemma_view();
                    lemma_keyed_map_remove(slot_entries(self.slots@), i as int);
                }
                let ghost old_slots = self.slots@;
                let _idle = self.slots.remove(i);
                proof {
                    assert(slot_entries(self.slots@) =~= slot_entries(old_slots).remove(i as int));
                    assert(self@.slots == before.remove(k));
                    assert(held_slots(self@.slots) =~= held_slots(before));
                    assert forall|j: int| 0 <= j < i implies self.slots@[j].holders > 0 by {
                        assert(self.slots@[j] == old_slots[j]);
                    }
                }
            } else {
                i = i + 1;
            }
        }
        proof {
            self.lemma_view();
            assert(self@.slots =~= held_slots(self@.slots)) by {
                assert forall|k: Seq<char>| self@.slots.contains_key(k) implies #[trigger] self@.slots[k].1 > 0 by {
                    let j = choose|j: int| 0 <= j < self.slots@.len() && self.slots@[j].key@ == k;
                    assert(self@.slots[self.slots@[j].key@].1 == self.slots@[j].holders);
                }
            }
        }
        self.cumulative_cleanup = 0;
    }

    /// Advances the cleanup counter, cleaning up when it reaches its period.
    fn cumulate_cleanup(&mut self)
        requires
            old(self).wf(),
        ensures
            final(self).wf(),
            final(self)@ == after_tick(old(self)@),
    {
        let target = self.cumulative_cleanup + 1;
        if target >= CLEANUP_PERIOD {
            self.cleanup();
        } else {
            self.cumulative_cleanup = target;
        }
    }

    /// Registers one more holder of `key`'s slot, creating the slot with
    /// `fresh` when the key has none; this counts towards the next cleanup.
    /// Returns false, registering nobody, only when the slot already has
    /// `usize::MAX` holders.
    pub fn enter(&mut self, key: &str, fresh: T) -> (r: bool)
        requires
            old(self).wf(),
        ensures
            final(self).wf(),
            final(self)@.ticks == after_tick(old(self)@).ticks,
            ({
                let m = after_tick(old(self)@).slots;
                if !m.contains_key(key@) {
                    r && final(self)@.slots == m.insert(key@, (fresh, 1nat))
                } else if m[key@].1 < usize::MAX {
                    r && final(self)@.slots == m.insert(key@, (m[key@].0, m[key@].1 + 1))
                } else {
                    !r && final(self)@.slots == m
                }
            }),
    {
        self.cumulate_cleanup();
        let k = String::from_str(key);
        match self.find_slot(&k) {
            Some(i) => {
                proof {
                    self.lemma_view();
                }
                let h = self.slots[i].holders;
                if h < usize::MAX {
                    self.set_holders(i, h + 1);
                    true
                } else {
                    false
                }
            },
            None => {
                let ghost before = slot_entries(self.slots@);
                let slot = LockSlot { key: k, value: fresh, holders: 1 };
                let ghost e = (slot.key@, (slot.value, slot.holders as nat));
                proof {
                    lemma_keyed_map_lookup(before);
                    lemma_keyed_map_push(before, e);
                }
                self.slots.push(slot);
                proof {
                    let s = slot_entries(self.slots@);
                    assert(s =~= before.push(e));
                    assert forall|a: int, b: int| 0 <= a < b < s.len() implies s[a].0 != s[b].0 by {
                        assert(before[a].0 == s[a].0);
                        if b < s.len() - 1 {
                            assert(before[b].0 == s[b].0);
                        }
                    }
                }
                true
            },
        }
    }

    /// Registers that one holder of `key`'s slot let go of it. Returns false,
    /// changing nothing, when the key has no slot or its slot has no holder.
    pub fn leave(&mut self, key: &str) -> (r: bool)
        requires
            old(self).wf(),
        ensures
            final(self).wf(),
            final(self)@.ticks == old(self)@.ticks,
            ({
                let m = old(self)@.slots;
                if m.contains_key(key@) && m[key@].1 > 0 {
                    r && final(self)@.slots == m.insert(key@, (m[key@].0, (m[key@].1 - 1) as nat))
                } else {
                    !r && final(self)@.slots == m
                }
            }),
    {
        let k = String::from_str(key);
        proof {
            self.lemma_view();
        }
        match self.find_slot(&k) {
            Some(i) => {
                let h = self.slots[i].holders;
                if h > 0 {
                    self.set_holders(i, h - 1);
                    true
                } else {
                    false
                }
            },
            None => false,
        }
    }

    /// Takes out `key`'s slot and returns its key and value, but only when
    /// nobody holds it; otherwise nothing changes and the result is `None`.
    pub fn free(&mut self, key: &str) -> (r: Option<(String, T)>)
        requires
            old(self).wf(),
        ensures
            final(self).wf(),
            final(self)@.ticks == old(self)@.ticks,
            ({
                let m = old(self)@.slots;
                if m.contains_key(key@) && m[key@].1 == 0 {
                    &&& r matches Some(p)
                    &&& p.0@ == key@
                    &&& p.1 == m[key@].0
                    &&& final(self)@.slots == m.remove(key@)
                } else {
                    r is None && final(self)@.slots == m
                }
            }),
    {
        let k = String::from_str(key);
        proof {
            self.lemma_view();
        }
        match self.find_slot(&k) {
            Some(i) => {
                if self.slots[i].holders == 0 {
                    let ghost before = slot_entries(self.slots@);
                    proof {
                        lemma_keyed_map_remove(before, i as int);
                    }
                    let slot = self.slots.remove(i);
                    proof {
                        assert(slot_entries(self.slots@) =~= before.remove(i as int));
                    }
                    let LockSlot { key: sk, value, holders: _ } = slot;
                    Some((sk, value))
                } else {
                    None
                }
            },
            None => None,
        }
    }

    /// The value in `key`'s slot, if the key has one.
    pub fn value(&self, key: &str) -> (r: Option<&T>)
        requires
            self.wf(),
        ensures
            self@.slots.contains_key(key@) ==> (r matches Some(v) && *v == self@.slots[key@].0),
            !self@.slots.contains_key(key@) ==> r is None,
    {
        let k = String::from_str(key);
        proof {
            self.lemma_view();
        }
        match self.find_slot(&k) {
            Some(i) => Some(&self.slots[i].value),
            None => None,
        }
    }

    /// How many keys have a slot.
    pub fn len(&self) -> (r: usize)
        requires
            self.wf(),
        ensures
            r == self@.slots.len(),
    {
        proof {
            self.lemma_view();
        }
        self.slots.len()
    }
}

} // verus!
