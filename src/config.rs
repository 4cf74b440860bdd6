//! Configuration of the runtime's scheduler and of the file cache.

use crate::cookie::Cookie;
use core::time::Duration;
use vstd::prelude::*;

verus! {

/// Relies on `Duration`'s `Clone`: `Duration` is `Copy`, so a clone is the same value.
pub assume_specification[ <core::time::Duration as Clone>::clone ](d: &Duration) -> (r: Duration)
    ensures
        r == *d,
;

/// Scheduler tuning; `None` leaves the scheduler's own default.
#[derive(Debug, Clone)]
pub struct TokioConfig {
    pub worker_threads: Option<usize>,
    pub thread_stack_size: Option<usize>,
    pub thread_name_prefix: Option<String>,
}

/// The cookie jar: where it is saved, how often, and which cookies it starts
/// with.
#[derive(Debug, Clone)]
pub struct CookieConfig {
    pub cookie_path: Option<String>,
    pub debounce_delay: Duration,
    pub auto_save_interval: Option<Duration>,
    pub initial_cookies: Option<Vec<Cookie>>,
}

/// The file cache: where channels live, how often dirty channels are saved,
/// and which channels exist from the start.
#[derive(Debug, Clone)]
pub struct FileCacheConfig {
    pub base_path: String,
    pub auto_save_interval: Duration,
    pub channels: Option<Vec<FileCacheChannelConfig>>,
}

/// A channel to create at start-up, with the suffix of its blob files.
#[derive(Debug, Clone)]
pub struct FileCacheChannelConfig {
    pub name: String,
    pub extension: Option<String>,
}

impl TokioConfig {
    /// The scheduler's defaults for every setting.
    pub fn scheduler_defaults() -> (r: TokioConfig)
        ensures
            r.worker_threads is None,
            r.thread_stack_size is None,
            r.thread_name_prefix is None,
    {
        TokioConfig { worker_threads: None, thread_stack_size: None, thread_name_prefix: None }
    }
}

} // verus!
