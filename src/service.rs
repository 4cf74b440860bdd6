//! Errors of the runtime, and the check that a subsystem is configured.

use crate::text::framed;
use vstd::prelude::*;
use vstd::string::StringExecFns;

verus! {

/// Errors while the runtime starts.
#[derive(Debug, Clone, PartialEq)]
pub enum InitError {
    TokioInit(String),
    HttpClientInit(String),
    Configuration(String),
    FileCacheInit(String),
}

/// Errors of a request to the runtime.
#[derive(Debug, Clone, PartialEq)]
pub enum ServiceError {
    NotConfigured(String),
}

impl InitError {
    /// The error's message.
    pub fn to_string(&self) -> (r: String)
        ensures
            match self {
                InitError::TokioInit(m) => r@ == "Tokio runtime initialization failed: "@ + m@
                    + ""@,
                InitError::HttpClientInit(m) => r@ == "HTTP client initialization failed: "@ + m@
                    + ""@,
                InitError::Configuration(m) => r@ == "Configuration error: "@ + m@ + ""@,
                InitError::FileCacheInit(m) => r@ == "File Cache initialization failed: "@ + m@
                    + ""@,
            },
    {
        match self {
            InitError::TokioInit(m) => framed("Tokio runtime initialization failed: ", m, ""),
            InitError::HttpClientInit(m) => framed("HTTP client initialization failed: ", m, ""),
            InitError::Configuration(m) => framed("Configuration error: ", m, ""),
            InitError::FileCacheInit(m) => framed("File Cache initialization failed: ", m, ""),
        }
    }
}

impl ServiceError {
    /// The error's message: `"{name} service is not configured"`.
    pub fn to_string(&self) -> (r: String)
        ensures
            match self {
                ServiceError::NotConfigured(n) => r@ == n@ + " service is not configured"@,
            },
    {
        match self {
            ServiceError::NotConfigured(n) => n.clone().concat(" service is not configured"),
        }
    }
}

/// The subsystem, when it is configured; else `NotConfigured` naming it.
pub fn require_configured<'a, T>(subsystem: &'a Option<T>, name: &str) -> (r: Result<
    &'a T,
    ServiceError,
>)
    ensures
        subsystem.is_some() ==> (r matches Ok(s) && *s == subsystem.unwrap()),
        subsystem.is_none() ==> (r matches Err(ServiceError::NotConfigured(n)) && n@ == name@),
{
    match subsystem {
        Some(s) => Ok(s),
        None => Err(ServiceError::NotConfigured(String::from_str(name))),
    }
}

} // verus!
