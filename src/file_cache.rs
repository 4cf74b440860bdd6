//! The in-memory side of one cache channel: its tag index, its dirty flag and
//! the paths of its blob and descriptor files.
//!
//! Disk work happens outside: a caller asks the manager where a blob lives,
//! performs the read, write or deletion, and hands the outcome back; the
//! manager then commits the change to its index or turns the outcome into the
//! operation's result.

use crate::cache_model::{
    io_result, outcome_error, record_entries, record_index, CacheChannel, CacheError,
    CacheRecord, IoOutcome, RecordView,
};
use crate::keyed::{keys_distinct, lemma_keyed_map_lookup, lemma_keyed_map_push};
use crate::tag_index::{
    index_entries, index_get, index_insert, index_len, index_new, index_remove, indexed_records,
};
use core::time::Duration;
use dashmap::DashMap;
use vstd::prelude::*;
use vstd::string::StringExecFns;

verus! {

/// Relies on uuid's `Uuid::new_v4` and its `Display`: a random version-4
/// identifier in hyphenated form, which is 36 characters long.
#[verifier::external_body]
fn fresh_filename() -> (r: String)
    ensures
        r@.len() == 36,
{
    uuid::Uuid::new_v4().to_string()
}

/// Where a blob lives: `{dir}/{filename}`, or `{dir}/{filename}.{extension}`.
pub open spec fn blob_path(dir: Seq<char>, filename: Seq<char>, extension: Option<Seq<char>>) -> Seq<
    char,
> {
    match extension {
        Some(e) => dir + seq!['/'] + filename + seq!['.'] + e,
        None => dir + seq!['/'] + filename,
    }
}

/// The name of a channel's descriptor file inside its directory.
pub open spec fn descriptor_name() -> Seq<char> {
    seq!['c', 'h', 'a', 'n', 'n', 'e', 'l', '.', 'r', 'k', 'y', 'v']
}

/// Where a channel's descriptor lives: `{dir}/channel.rkyv`.
pub open spec fn descriptor_path(dir: Seq<char>) -> Seq<char> {
    dir + seq!['/'] + descriptor_name()
}

/// A channel manager as plain values.
pub struct ManagerView {
    pub name: Seq<char>,
    pub path: Seq<char>,
    pub extension: Option<Seq<char>>,
    pub dirty: bool,
    pub records: Map<Seq<char>, RecordView>,
}

/// The record that `cache(tag, sentence, bytes)` leaves in an index: a known
/// tag keeps its file name, a new one takes the name it was written under.
pub open spec fn cached_record(
    records: Map<Seq<char>, RecordView>,
    tag: Seq<char>,
    sentence: Seq<char>,
    size: nat,
    new_filename: Seq<char>,
) -> RecordView {
    RecordView {
        tag,
        filename: if records.contains_key(tag) {
            records[tag].filename
        } else {
            new_filename
        },
        size,
        sentence,
    }
}

/// The channel after `cache(tag, sentence, bytes)` succeeded, `size` being
/// the number of bytes and `new_filename` the name a new tag's blob was
/// written under.
pub open spec fn after_cache(
    v: ManagerView,
    tag: Seq<char>,
    sentence: Seq<char>,
    size: nat,
    new_filename: Seq<char>,
) -> ManagerView {
    ManagerView {
        dirty: true,
        records: v.records.insert(tag, cached_record(v.records, tag, sentence, size, new_filename)),
        ..v
    }
}

/// The channel after `flush(tag)` removed a known tag.
pub open spec fn after_flush(v: ManagerView, tag: Seq<char>) -> ManagerView {
    ManagerView { dirty: true, records: v.records.remove(tag), ..v }
}

/// The path of the blob of a known tag.
pub open spec fn blob_of(v: ManagerView, tag: Seq<char>) -> Seq<char> {
    blob_path(v.path, v.records[tag].filename, v.extension)
}

/// What `should_update` answers for a tag, given whether its blob is on disk.
pub open spec fn needs_update(
    records: Map<Seq<char>, RecordView>,
    tag: Seq<char>,
    sentence: Seq<char>,
    blob_exists: bool,
) -> Option<bool> {
    if !records.contains_key(tag) {
        None
    } else {
        Some(!blob_exists || records[tag].sentence != sentence)
    }
}

/// Where a blob is to be written: its file name and full path.
#[derive(Debug, Clone, PartialEq)]
pub struct BlobTarget {
    pub filename: String,
    pub path: String,
}

/// One cache channel: a tag index over blob files in a directory, and a flag
/// that records whether the index changed since it was last persisted.
pub struct DefaultFileCacheManager {
    name: String,
    path: String,
    extension: Option<String>,
    auto_save_interval: Duration,
    dirty: bool,
    records: DashMap<String, CacheRecord>,
}

impl View for DefaultFileCacheManager {
    type V = ManagerView;

    closed spec fn view(&self) -> ManagerView {
        ManagerView {
            name: self.name@,
            path: self.path@,
            extension: match self.extension {
                Some(e) => Some(e@),
                None => None,
            },
            dirty: self.dirty,
            records: indexed_records(self.records).map_values(|r: CacheRecord| r@),
        }
    }
}

fn copy_extension(e: &Option<String>) -> (r: Option<String>)
    ensures
        r == *e,
{
    match e {
        Some(s) => Some(s.clone()),
        None => None,
    }
}

impl DefaultFileCacheManager {
    /// The index is finite and holds each record under its own tag.
    pub closed spec fn wf(&self) -> bool {
        &&& indexed_records(self.records).dom().finite()
        &&& forall|k: Seq<char>|
            #[trigger] indexed_records(self.records).contains_key(k) ==> indexed_records(
                self.records,
            )[k].tag@ == k
    }

    /// The manager of `channel`, whose files live in the directory `path`; a
    /// record later in the channel's list replaces an earlier one with the
    /// same tag. It starts clean.
    pub fn new(path: String, auto_save_interval: Duration, channel: CacheChannel) -> (r: Self)
        ensures
            r.wf(),
            r@.name == channel.name@,
            r@.path == path@,
            r@.extension == (match channel.extension {
                Some(e) => Some(e@),
                None => None::<Seq<char>>,
            }),
            !r@.dirty,
            r@.records == record_index(channel.records@),
            r.spec_auto_save_interval() == auto_save_interval,
    {
        let CacheChannel { name, extension, records: loaded } = channel;
        let mut m = DefaultFileCacheManager {
            name,
            path,
            extension,
            auto_save_interval,
            dirty: false,
            records: index_new(),
        };
        let mut k: usize = 0;
        proof {
            assert(loaded@.take(0) =~= Seq::empty());
            assert(m@.records =~= record_index(loaded@.take(0)));
        }
        while k < loaded.len()
            invariant
                k <= loaded.len(),
                m.wf(),
                m.name == name,
                m.path == path,
                m.extension == extension,
                m.auto_save_interval == auto_save_interval,
                !m.dirty,
                m@.records == record_index(loaded@.take(k as int)),
            decreases loaded.len() - k,
        {
            let rec = loaded[k].duplicate();
            proof {
                assert(loaded@.take(k as int + 1) =~= loaded@.take(k as int).push(loaded@[k as int]));
                assert(record_entries(loaded@.take(k as int + 1)) =~= record_entries(
                    loaded@.take(k as int),
                ).push((loaded@[k as int].tag@, loaded@[k as int]@)));
                lemma_keyed_map_push(
                    record_entries(loaded@.take(k as int)),
                    (loaded@[k as int].tag@, loaded@[k as int]@),
                );
            }
            m.put_record(rec);
            k = k + 1;
        }
        proof {
            assert(loaded@.take(loaded.len() as int) =~= loaded@);
        }
        m
    }

    /// Inserts a record into the index, replacing the one with its tag.
    fn put_record(&mut self, rec: CacheRecord)
        requires
            old(self).wf(),
        ensures
            final(self).wf(),
            final(self)@ == (ManagerView {
                records: old(self)@.records.insert(rec.tag@, rec@),
                ..old(self)@
            }),
            final(self).name == old(self).name,
            final(self).path == old(self).path,
            final(self).extension == old(self).extension,
            final(self).auto_save_interval == old(self).auto_save_interval,
            final(self).dirty == old(self).dirty,
    {
        let ghost t = rec.tag@;
        let ghost v = rec@;
        let key = rec.tag.clone();
        index_insert(&mut self.records, key, rec);
        proof {
            assert(self@.records =~= old(self)@.records.insert(t, v));
        }
    }

    /// The channel's name.
    pub fn name(&self) -> (r: &String)
        ensures
            r@ == self@.name,
    {
        &self.name
    }

    /// The period of the channel's background save.
    pub fn auto_save_interval(&self) -> (r: Duration)
        ensures
            r == self.spec_auto_save_interval(),
    {
        self.auto_save_interval
    }

    /// The interval as stored.
    pub closed spec fn spec_auto_save_interval(&self) -> Duration {
        self.auto_save_interval
    }

    /// Whether the index changed since it was last persisted.
    pub fn is_dirty(&self) -> (r: bool)
        ensures
            r == self@.dirty,
    {
        self.dirty
    }

    /// The number of records in the index.
    pub fn len(&self) -> (r: usize)
        requires
            self.wf(),
        ensures
            r == self@.records.len(),
    {
        let n = index_len(&self.records);
        proof {
            assert(self@.records.dom() =~= indexed_records(self.records).dom());
        }
        n
    }

    /// The path of the blob file named `filename`.
    pub fn build_path(&self, filename: &String) -> (r: String)
        ensures
            r@ == blob_path(self@.path, filename@, self@.extension),
    {
        let mut p = self.path.clone();
        p.append("/");
        p.append(filename.as_str());
        match &self.extension {
            Some(e) => {
                p.append(".");
                p.append(e.as_str());
            },
            None => {},
        }
        proof {
            reveal_strlit("/");
            reveal_strlit(".");
        }
        p
    }

    /// The path of the channel's descriptor file.
    pub fn channel_path(&self) -> (r: String)
        ensures
            r@ == descriptor_path(self@.path),
    {
        let mut p = self.path.clone();
        p.append("/channel.rkyv");
        proof {
            reveal_strlit("/channel.rkyv");
        }
        p
    }

    /// Where the blob of `tag` is to be written: under the name it already
    /// has, or under a newly generated one when the tag is unknown.
    pub fn cache_target(&self, tag: &String) -> (r: BlobTarget)
        requires
            self.wf(),
        ensures
            self@.records.contains_key(tag@) ==> r.filename@ == self@.records[tag@].filename,
            self@.records.contains_key(tag@) ==> r.path@ == blob_of(self@, tag@),
            !self@.records.contains_key(tag@) ==> r.filename@.len() == 36,
            r.path@ == blob_path(self@.path, r.filename@, self@.extension),
    {
        let filename = match index_get(&self.records, tag) {
            Some(rec) => rec.filename,
            None => fresh_filename(),
        };
        let path = self.build_path(&filename);
        BlobTarget { filename, path }
    }

    /// Completes `cache(tag, sentence, bytes)` once the blob was written to
    /// `target`: on success the tag's record holds the new sentence and size
    /// (a known tag keeps its file name) and the channel is dirty; on failure
    /// nothing changes and the failure is returned.
    pub fn complete_cache(
        &mut self,
        tag: String,
        sentence: String,
        bytes: &Vec<u8>,
        target: &BlobTarget,
        outcome: IoOutcome<()>,
    ) -> (r: Result<(), CacheError>)
        requires
            old(self).wf(),
        ensures
            final(self).wf(),
            final(self).spec_auto_save_interval() == old(self).spec_auto_save_interval(),
            match outcome_error(outcome) {
                None => {
                    &&& r is Ok
                    &&& final(self)@ == after_cache(
                        old(self)@,
                        tag@,
                        sentence@,
                        bytes@.len(),
                        target.filename@,
                    )
                },
                Some(e) => r == Err::<(), CacheError>(e) && final(self)@ == old(self)@,
            },
    {
        match outcome {
            IoOutcome::Done(()) => {
                let filename = match index_get(&self.records, &tag) {
                    Some(rec) => rec.filename,
                    None => target.filename.clone(),
                };
                let rec = CacheRecord { tag, filename, size: bytes.len(), sentence };
                self.put_record(rec);
                self.dirty = true;
                Ok(())
            },
            IoOutcome::Failed(m) => Err(CacheError::IO(m)),
            IoOutcome::TimedOut(m) => Err(CacheError::Timeout(m)),
        }
    }

    /// The path of the blob of `tag`, or `TagNotExist` when the tag is unknown.
    pub fn locate(&self, tag: &String) -> (r: Result<String, CacheError>)
        requires
            self.wf(),
        ensures
            self@.records.contains_key(tag@) ==> (r matches Ok(p) && p@ == blob_of(self@, tag@)),
            !self@.records.contains_key(tag@) ==> r == Err::<String, CacheError>(
                CacheError::TagNotExist(*tag),
            ),
    {
        match index_get(&self.records, tag) {
            Some(rec) => Ok(self.build_path(&rec.filename)),
            None => Err(CacheError::TagNotExist(tag.clone())),
        }
    }

    /// Whether the content cached under `tag` must be regenerated: when its
    /// blob is missing from disk or its sentence differs from `sentence`.
    pub fn should_update(&self, tag: &String, sentence: &String, blob_exists: bool) -> (r: Result<
        bool,
        CacheError,
    >)
        requires
            self.wf(),
        ensures
            match needs_update(self@.records, tag@, sentence@, blob_exists) {
                Some(b) => r == Ok::<bool, CacheError>(b),
                None => r == Err::<bool, CacheError>(CacheError::TagNotExist(*tag)),
            },
    {
        match index_get(&self.records, tag) {
            Some(rec) => {
                if !blob_exists {
                    Ok(true)
                } else {
                    Ok(!(rec.sentence == *sentence))
                }
            },
            None => Err(CacheError::TagNotExist(tag.clone())),
        }
    }

    /// The result of `fetch` from the blob at `path`: `FileNotExist` when the
    /// blob is not on disk (`read` is `None`), else the outcome of reading it.
    pub fn finish_fetch(path: String, read: Option<IoOutcome<Vec<u8>>>) -> (r: Result<
        Vec<u8>,
        CacheError,
    >)
        ensures
            match read {
                None => r == Err::<Vec<u8>, CacheError>(CacheError::FileNotExist(path)),
                Some(IoOutcome::Done(b)) => r == Ok::<Vec<u8>, CacheError>(b),
                Some(IoOutcome::Failed(m)) => r == Err::<Vec<u8>, CacheError>(CacheError::IO(m)),
                Some(IoOutcome::TimedOut(m)) => r == Err::<Vec<u8>, CacheError>(
                    CacheError::Timeout(m),
                ),
            },
    {
        match read {
            None => Err(CacheError::FileNotExist(path)),
            Some(o) => io_result(o),
        }
    }

    /// The result of `path`: the blob's path when it is on disk, else
    /// `FileNotExist`.
    pub fn finish_path(path: String, blob_exists: bool) -> (r: Result<String, CacheError>)
        ensures
            blob_exists ==> r == Ok::<String, CacheError>(path),
            !blob_exists ==> r == Err::<String, CacheError>(CacheError::FileNotExist(path)),
    {
        if blob_exists {
            Ok(path)
        } else {
            Err(CacheError::FileNotExist(path))
        }
    }

    /// A copy of the record of `tag`, or `TagNotExist`.
    pub fn record(&self, tag: &String) -> (r: Result<CacheRecord, CacheError>)
        requires
            self.wf(),
        ensures
            self@.records.contains_key(tag@) ==> (r matches Ok(rec) && rec@ == self@.records[tag@]),
            !self@.records.contains_key(tag@) ==> r == Err::<CacheRecord, CacheError>(
                CacheError::TagNotExist(*tag),
            ),
    {
        match index_get(&self.records, tag) {
            Some(rec) => Ok(rec),
            None => Err(CacheError::TagNotExist(tag.clone())),
        }
    }

    /// Removes `tag` from the index and marks the channel dirty; returns the
    /// path of its blob, which is to be deleted. `TagNotExist` when the tag is
    /// unknown, and then nothing changes.
    pub fn flush(&mut self, tag: &String) -> (r: Result<String, CacheError>)
        requires
            old(self).wf(),
        ensures
            final(self).wf(),
            final(self).spec_auto_save_interval() == old(self).spec_auto_save_interval(),
            old(self)@.records.contains_key(tag@) ==> {
                &&& r matches Ok(p) && p@ == blob_of(old(self)@, tag@)
                &&& final(self)@ == after_flush(old(self)@, tag@)
            },
            !old(self)@.records.contains_key(tag@) ==> r == Err::<String, CacheError>(
                CacheError::TagNotExist(*tag),
            ) && final(self)@ == old(self)@,
    {
        match index_get(&self.records, tag) {
            Some(rec) => {
                let p = self.build_path(&rec.filename);
                index_remove(&mut self.records, tag);
                proof {
                    assert(self@.records =~= old(self)@.records.remove(tag@));
                }
                self.dirty = true;
                Ok(p)
            },
            None => Err(CacheError::TagNotExist(tag.clone())),
        }
    }

    /// The snapshot that `persist` writes: `None` when the channel is clean,
    /// else the channel's name, extension and every record.
    pub fn snapshot(&self) -> (r: Option<CacheChannel>)
        requires
            self.wf(),
        ensures
            !self@.dirty ==> r is None,
            self@.dirty ==> (r matches Some(c) && c.name@ == self@.name && (match c.extension {
                Some(e) => Some(e@),
                None => None::<Seq<char>>,
            }) == self@.extension && record_index(c.records@) == self@.records && keys_distinct(
                record_entries(c.records@),
            )),
    {
        if !self.dirty {
            return None;
        }
        let entries = index_entries(&self.records);
        let ghost m = indexed_records(self.records);
        let mut out: Vec<CacheRecord> = Vec::new();
        let mut i: usize = 0;
        while i < entries.len()
            invariant
                self.wf(),
                m == indexed_records(self.records),
                i <= entries@.len(),
                out@.len() == i,
                forall|j: int|
                    0 <= j < i ==> (#[trigger] out@[j])@ == entries@[j].1@ && out@[j].tag@
                        == entries@[j].0@,
                forall|j: int|
                    0 <= j < entries@.len() ==> m.contains_key(#[trigger] entries@[j].0@) && m[entries@[j].0@]
                        == entries@[j].1,
            decreases entries@.len() - i,
        {
            out.push(entries[i].1.duplicate());
            proof {
                assert(m.contains_key(entries@[i as int].0@));
                assert(m[entries@[i as int].0@].tag@ == entries@[i as int].0@);
            }
            i = i + 1;
        }
        proof {
            let s = record_entries(out@);
            assert forall|a: int, b: int| 0 <= a < b < s.len() implies s[a].0 != s[b].0 by {
                assert(s[a].0 == entries@[a].0@);
                assert(s[b].0 == entries@[b].0@);
            }
            lemma_keyed_map_lookup(s);
            assert forall|k: Seq<char>| #[trigger] record_index(out@).contains_key(k)
                == self@.records.contains_key(k) by {
                if record_index(out@).contains_key(k) {
                    let j = choose|j: int| 0 <= j < s.len() && s[j].0 == k;
                    assert(entries@[j].0@ == k);
                }
                if self@.records.contains_key(k) {
                    assert(m.contains_key(k));
                    let j = choose|j: int| 0 <= j < entries@.len() && entries@[j].0@ == k;
                    assert(s[j].0 == k);
                }
            }
            assert forall|k: Seq<char>| #[trigger] record_index(out@).contains_key(k) implies
                record_index(out@)[k] == self@.records[k] by {
                let j = choose|j: int| 0 <= j < s.len() && s[j].0 == k;
                assert(entries@[j].0@ == k);
                assert(s[j].1 == out@[j]@);
            }
            assert(record_index(out@) =~= self@.records);
        }
        Some(CacheChannel { name: self.name.clone(), extension: copy_extension(&self.extension), records: out })
    }

    /// Completes `persist` once the snapshot was written: on success the
    /// channel is clean; on failure it stays dirty and the failure is returned.
    pub fn finish_persist(&mut self, outcome: IoOutcome<()>) -> (r: Result<(), CacheError>)
        requires
            old(self).wf(),
        ensures
            final(self).wf(),
            final(self).spec_auto_save_interval() == old(self).spec_auto_save_interval(),
            match outcome_error(outcome) {
                None => r is Ok && final(self)@ == (ManagerView { dirty: false, ..old(self)@ }),
                Some(e) => r == Err::<(), CacheError>(e) && final(self)@ == old(self)@,
            },
    {
        match io_result(outcome) {
            Ok(()) => {
                self.dirty = false;
                Ok(())
            },
            Err(e) => Err(e),
        }
    }
}

} // verus!
