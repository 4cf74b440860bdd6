//! The process-wide registry of channel managers: one manager per channel
//! name, registered at most once.

use crate::cache_model::{CacheChannel, CacheError};
use crate::config::FileCacheConfig;
use crate::file_cache::descriptor_path;
use crate::keyed::{
    keyed_map, keys_distinct, lemma_keyed_map_lookup, lemma_keyed_map_push,
};
use vstd::prelude::*;
use vstd::string::StringExecFns;

verus! {

/// The directory of the channel `name` under the cache's base path.
pub open spec fn channel_dir(base: Seq<char>, name: Seq<char>) -> Seq<char> {
    base + seq!['/'] + name
}

/// The registry after registering `manager` under `name`: unchanged when the
/// name is taken.
pub open spec fn after_register<M>(m: Map<Seq<char>, M>, name: Seq<char>, manager: M) -> Map<
    Seq<char>,
    M,
> {
    if m.contains_key(name) {
        m
    } else {
        m.insert(name, manager)
    }
}

spec fn manager_entries<M>(s: Seq<(String, M)>) -> Seq<(Seq<char>, M)> {
    s.map_values(|p: (String, M)| (p.0@, p.1))
}

/// A registry from channel names to their managers, with the cache's
/// configuration.
pub struct SingletonFileCacheManagerFactory<M> {
    config: FileCacheConfig,
    managers: Vec<(String, M)>,
}

impl<M> View for SingletonFileCacheManagerFactory<M> {
    type V = Map<Seq<char>, M>;

    closed spec fn view(&self) -> Map<Seq<char>, M> {
        keyed_map(manager_entries(self.managers@))
    }
}

impl<M> SingletonFileCacheManagerFactory<M> {
    /// The configuration as stored.
    pub closed spec fn spec_config(&self) -> FileCacheConfig {
        self.config
    }

    /// The cache's configuration.
    pub fn config(&self) -> (r: &FileCacheConfig)
        ensures
            *r == self.spec_config(),
    {
        &self.config
    }

    /// Each name is registered once.
    pub closed spec fn wf(&self) -> bool {
        keys_distinct(manager_entries(self.managers@))
    }

    /// A registry with no channel.
    pub fn new(config: FileCacheConfig) -> (r: Self)
        ensures
            r.wf(),
            r@ == Map::<Seq<char>, M>::empty(),
            r.spec_config() == config,
    {
        let r = SingletonFileCacheManagerFactory { config, managers: Vec::new() };
        proof {
            assert(manager_entries(r.managers@) =~= Seq::empty());
        }
        r
    }

    proof fn lemma_view(&self)
        requires
            self.wf(),
        ensures
            forall|k: Seq<char>|
                #[trigger] self@.contains_key(k) <==> exists|i: int|
                    0 <= i < self.managers@.len() && self.managers@[i].0@ == k,
            forall|i: int|
                0 <= i < self.managers@.len() ==> self@.contains_key(
                    #[trigger] self.managers@[i].0@,
                ) && self@[self.managers@[i].0@] == self.managers@[i].1,
    {
        let s = manager_entries(self.managers@);
        lemma_keyed_map_lookup(s);
        assert forall|k: Seq<char>| #[trigger]
            self@.contains_key(k) <==> exists|i: int|
                0 <= i < self.managers@.len() && self.managers@[i].0@ == k by {
            if self@.contains_key(k) {
                let i = choose|i: int| 0 <= i < s.len() && s[i].0 == k;
                assert(self.managers@[i].0@ == k);
            }
            if exists|i: int| 0 <= i < self.managers@.len() && self.managers@[i].0@ == k {
                let i = choose|i: int| 0 <= i < self.managers@.len() && self.managers@[i].0@ == k;
                assert(s[i].0 == k);
            }
        }
        assert forall|i: int| 0 <= i < self.managers@.len() implies self@.contains_key(
            #[trigger] self.managers@[i].0@,
        ) && self@[self.managers@[i].0@] == self.managers@[i].1 by {
            assert(s[i].0 == self.managers@[i].0@);
        }
    }

    fn find(&self, name: &String) -> (r: Option<usize>)
        requires
            self.wf(),
        ensures
            match r {
                Some(i) => i < self.managers@.len() && self.managers@[i as int].0@ == name@
                    && self@.contains_key(name@) && self@[name@] == self.managers@[i as int].1,
                None => !self@.contains_key(name@),
            },
    {
        let mut i: usize = 0;
        while i < self.managers.len()
            invariant
                self.wf(),
                i <= self.managers@.len(),
                forall|j: int| 0 <= j < i ==> self.managers@[j].0@ != name@,
            decreases self.managers@.len() - i,
        {
            if self.managers[i].0 == *name {
                proof {
                    self.lemma_view();
                }
                return Some(i);
            }
            i = i + 1;
        }
        proof {
            self.lemma_view();
        }
        None
    }

    /// The directory of the channel `name`: `{base_path}/{name}`.
    pub fn channel_dir(&self, name: &String) -> (r: String)
        ensures
            r@ == channel_dir(self.spec_config().base_path@, name@),
    {
        let mut p = self.config.base_path.clone();
        p.append("/");
        p.append(name.as_str());
        proof {
            reveal_strlit("/");
        }
        p
    }

    /// The path of the descriptor of the channel `name`:
    /// `{base_path}/{name}/channel.rkyv`.
    pub fn get_channel_path(&self, name: &String) -> (r: String)
        ensures
            r@ == descriptor_path(channel_dir(self.spec_config().base_path@, name@)),
    {
        let mut p = self.channel_dir(name);
        p.append("/channel.rkyv");
        proof {
            reveal_strlit("/channel.rkyv");
            assert(p@ =~= descriptor_path(channel_dir(self.config.base_path@, name@)));
        }
        p
    }

    /// Whether a manager is registered under `name`.
    pub fn contains(&self, name: &String) -> (r: bool)
        requires
            self.wf(),
        ensures
            r == self@.contains_key(name@),
    {
        self.find(name).is_some()
    }

    /// The manager registered under `name`, or `ManagerNotExist` when no
    /// manager was ever registered under it.
    pub fn get_with_name(&self, name: &String) -> (r: Result<&M, CacheError>)
        requires
            self.wf(),
        ensures
            self@.contains_key(name@) ==> (r matches Ok(m) && *m == self@[name@]),
            !self@.contains_key(name@) ==> r == Err::<&M, CacheError>(
                CacheError::ManagerNotExist(*name),
            ),
    {
        match self.find(name) {
            Some(i) => Ok(&self.managers[i].1),
            None => Err(CacheError::ManagerNotExist(name.clone())),
        }
    }

    /// Registers `manager` under `name` unless a manager is registered there
    /// already, in which case nothing changes; returns whether it was
    /// registered.
    pub fn register(&mut self, name: String, manager: M) -> (r: bool)
        requires
            old(self).wf(),
        ensures
            final(self).wf(),
            final(self).spec_config() == old(self).spec_config(),
            r == !old(self)@.contains_key(name@),
            final(self)@ == after_register(old(self)@, name@, manager),
    {
        if self.find(&name).is_some() {
            return false;
        }
        let ghost before = manager_entries(self.managers@);
        let ghost e = (name@, manager);
        proof {
            lemma_keyed_map_lookup(before);
            lemma_keyed_map_push(before, e);
        }
        self.managers.push((name, manager));
        proof {
            let s = manager_entries(self.managers@);
            assert(s =~= before.push(e));
            assert forall|a: int, b: int| 0 <= a < b < s.len() implies s[a].0 != s[b].0 by {
                assert(before[a].0 == s[a].0);
                if b < s.len() - 1 {
                    assert(before[b].0 == s[b].0);
                }
            }
        }
        true
    }

    /// How many channels are registered.
    pub fn len(&self) -> (r: usize)
        requires
            self.wf(),
        ensures
            r == self@.len(),
    {
        proof {
            lemma_keyed_map_lookup(manager_entries(self.managers@));
        }
        self.managers.len()
    }
}

/// A channel with no record, as used when a channel has no descriptor on disk.
pub fn empty_channel(name: String, extension: Option<String>) -> (r: CacheChannel)
    ensures
        r.name == name,
        r.extension == extension,
        r.records@.len() == 0,
{
    CacheChannel { name, extension, records: Vec::new() }
}

} // verus!
