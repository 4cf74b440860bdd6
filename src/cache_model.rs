//! Records, channels and errors of the tagged file cache.

use crate::keyed::keyed_map;
use crate::text::framed;
use vstd::prelude::*;

verus! {

/// Metadata of one cached blob: the caller's tag, the blob's file name
/// (assigned once), the number of bytes last written and the caller's
/// fingerprint of the content.
#[derive(Debug, Clone, PartialEq)]
pub struct CacheRecord {
    pub tag: String,
    pub filename: String,
    pub size: usize,
    pub sentence: String,
}

/// A record as plain values.
pub struct RecordView {
    pub tag: Seq<char>,
    pub filename: Seq<char>,
    pub size: nat,
    pub sentence: Seq<char>,
}

impl View for CacheRecord {
    type V = RecordView;

    open spec fn view(&self) -> RecordView {
        RecordView {
            tag: self.tag@,
            filename: self.filename@,
            size: self.size as nat,
            sentence: self.sentence@,
        }
    }
}

impl CacheRecord {
    /// A field-by-field copy.
    pub fn duplicate(&self) -> (r: CacheRecord)
        ensures
            r@ == self@,
    {
        CacheRecord {
            tag: self.tag.clone(),
            filename: self.filename.clone(),
            size: self.size,
            sentence: self.sentence.clone(),
        }
    }
}

/// A named group of records: the unit that is written to and read from the
/// channel's descriptor file.
#[derive(Debug, Clone, PartialEq)]
pub struct CacheChannel {
    pub name: String,
    pub extension: Option<String>,
    pub records: Vec<CacheRecord>,
}

/// Errors of the file cache.
#[derive(Debug, Clone, PartialEq)]
pub enum CacheError {
    IO(String),
    FileNotExist(String),
    TagNotExist(String),
    ManagerNotExist(String),
    Lock(String),
    Serialization(String),
    Timeout(String),
}

impl CacheError {
    /// The error's message.
    pub fn to_string(&self) -> (r: String)
        ensures
            match self {
                CacheError::IO(m) => r@ == "IO Error: "@ + m@ + ""@,
                CacheError::FileNotExist(f) => r@ == "File "@ + f@ + " does not exist"@,
                CacheError::TagNotExist(t) => r@ == "Tag "@ + t@ + " does not exist"@,
                CacheError::ManagerNotExist(n) => r@ == "Cache Manager "@ + n@ + " does not exist"@,
                CacheError::Lock(x) => r@ == "An locking error occurs when accessing "@ + x@ + ""@,
                CacheError::Serialization(m) => r@ == "Serialize Error: "@ + m@ + ""@,
                CacheError::Timeout(m) => r@ == "Timeout: "@ + m@ + ""@,
            },
    {
        match self {
            CacheError::IO(m) => framed("IO Error: ", m, ""),
            CacheError::FileNotExist(f) => framed("File ", f, " does not exist"),
            CacheError::TagNotExist(t) => framed("Tag ", t, " does not exist"),
            CacheError::ManagerNotExist(n) => framed("Cache Manager ", n, " does not exist"),
            CacheError::Lock(x) => framed("An locking error occurs when accessing ", x, ""),
            CacheError::Serialization(m) => framed("Serialize Error: ", m, ""),
            CacheError::Timeout(m) => framed("Timeout: ", m, ""),
        }
    }
}

/// How one disk operation under a time budget ended: with its value, with an
/// I/O failure, or by running out of time.
#[derive(Debug, Clone, PartialEq)]
pub enum IoOutcome<T> {
    Done(T),
    Failed(String),
    TimedOut(String),
}

/// The error, if any, that an operation's outcome becomes.
pub open spec fn outcome_error<T>(o: IoOutcome<T>) -> Option<CacheError> {
    match o {
        IoOutcome::Done(_) => None,
        IoOutcome::Failed(m) => Some(CacheError::IO(m)),
        IoOutcome::TimedOut(m) => Some(CacheError::Timeout(m)),
    }
}

/// The result that a disk operation's outcome becomes: its value, an `IO`
/// error, or a `Timeout` error.
pub fn io_result<T>(outcome: IoOutcome<T>) -> (r: Result<T, CacheError>)
    ensures
        match outcome {
            IoOutcome::Done(v) => r == Ok::<T, CacheError>(v),
            IoOutcome::Failed(m) => r == Err::<T, CacheError>(CacheError::IO(m)),
            IoOutcome::TimedOut(m) => r == Err::<T, CacheError>(CacheError::Timeout(m)),
        },
{
    match outcome {
        IoOutcome::Done(v) => Ok(v),
        IoOutcome::Failed(m) => Err(CacheError::IO(m)),
        IoOutcome::TimedOut(m) => Err(CacheError::Timeout(m)),
    }
}

/// The keyed entries of a list of records, each under its tag.
pub open spec fn record_entries(s: Seq<CacheRecord>) -> Seq<(Seq<char>, RecordView)> {
    s.map_values(|r: CacheRecord| (r.tag@, r@))
}

/// The tag index that a list of records denotes, later records replacing
/// earlier ones with the same tag.
pub open spec fn record_index(s: Seq<CacheRecord>) -> Map<Seq<char>, RecordView> {
    keyed_map(record_entries(s))
}

} // verus!
