//! Embedded runtime library: a tagged on-disk file cache with dirty-gated
//! persistence, the per-key lock registry it relies on, and the plain models
//! of the HTTP, cookie and raw-storage subsystems that sit beside it.

pub mod keyed;
pub mod text;
pub mod time;

pub mod cache_model;
pub mod tag_index;
pub mod file_cache;
pub mod factory;
pub mod keyed_lock;
pub mod laws;

pub mod config;
pub mod cookie;
pub mod ffi;
pub mod http;
pub mod service;
pub mod storage;
pub mod url_component;
