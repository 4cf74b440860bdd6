//! Requests and errors of raw path-level storage.

use crate::text::framed;
use crate::time::duration_of_secs;
use core::time::Duration;
use vstd::prelude::*;

verus! {

/// The time budget that a request gets by default, in seconds.
pub const DEFAULT_TIMEOUT_SECS: u64 = 60;

/// A request to read a whole file under a time budget.
pub struct ReadFile {
    pub path: String,
    pub timeout: Duration,
}

/// A request to write `data` to a file under a time budget, replacing or
/// extending it, and optionally pushing it towards the disk afterwards.
pub struct WriteFile {
    pub path: String,
    pub mode: WriteMode,
    pub timeout: Duration,
    pub ensure_mode: Option<EnsureMode>,
    pub data: Vec<u8>,
}

/// Errors of raw storage.
#[derive(Debug, Clone, PartialEq)]
pub enum StorageError {
    FileRequired(String),
    DirectoryRequired(String),
    NotExist(String),
    IOError(String),
    Timeout(String),
}

/// Whether a write replaces the file's content or appends to it.
#[derive(Debug, Clone, Copy, PartialEq, Eq, Structural)]
pub enum WriteMode {
    Cover,
    Append,
}

/// How far a written file is pushed towards the disk.
#[derive(Debug, Clone, Copy, PartialEq, Eq, Structural)]
pub enum EnsureMode {
    Flush,
    SyncData,
    SyncAll,
}

impl StorageError {
    /// The error's message.
    pub fn to_string(&self) -> (r: String)
        ensures
            match self {
                StorageError::FileRequired(p) => r@ == ""@ + p@ + " is not a file"@,
                StorageError::DirectoryRequired(p) => r@ == ""@ + p@ + " is not a directory"@,
                StorageError::NotExist(p) => r@ == ""@ + p@ + " does not exist"@,
                StorageError::IOError(m) => r@ == "IO Error: "@ + m@ + ""@,
                StorageError::Timeout(m) => r@ == "Timeout: "@ + m@ + ""@,
            },
    {
        match self {
            StorageError::FileRequired(p) => framed("", p, " is not a file"),
            StorageError::DirectoryRequired(p) => framed("", p, " is not a directory"),
            StorageError::NotExist(p) => framed("", p, " does not exist"),
            StorageError::IOError(m) => framed("IO Error: ", m, ""),
            StorageError::Timeout(m) => framed("Timeout: ", m, ""),
        }
    }
}

impl ReadFile {
    /// A read of `path` with the default time budget.
    pub fn path(path: String) -> (r: ReadFile)
        ensures
            r.path == path,
            r.timeout == duration_of_secs(DEFAULT_TIMEOUT_SECS),
    {
        ReadFile { path, timeout: Duration::from_secs(DEFAULT_TIMEOUT_SECS) }
    }
}

impl WriteFile {
    /// A write that replaces the content of `path` by `data` and flushes it,
    /// with the default time budget.
    pub fn path(path: String, data: Vec<u8>) -> (r: WriteFile)
        ensures
            r.path == path,
            r.data == data,
            r.mode == WriteMode::Cover,
            r.timeout == duration_of_secs(DEFAULT_TIMEOUT_SECS),
            r.ensure_mode == Some(EnsureMode::Flush),
    {
        WriteFile {
            path,
            mode: WriteMode::Cover,
            timeout: Duration::from_secs(DEFAULT_TIMEOUT_SECS),
            ensure_mode: Some(EnsureMode::Flush),
            data,
        }
    }

    /// Whether the file is opened for appending (else it is truncated and
    /// written from the start).
    pub fn appends(&self) -> (r: bool)
        ensures
            r == (self.mode == WriteMode::Append),
    {
        match self.mode {
            WriteMode::Append => true,
            WriteMode::Cover => false,
        }
    }
}

} // verus!
