//! Plain request and response types for callers across a language boundary,
//! with their conversions to and from the runtime's own types.

use crate::http::{HttpClientError, HttpEndpoint, HttpMethod, HttpResponse};
use crate::storage::{EnsureMode, ReadFile, WriteFile, WriteMode};
use crate::time::{duration_debug_text, duration_of_millis, duration_text};
use core::time::Duration;
use vstd::prelude::*;
use vstd::string::StringExecFns;

verus! {

/// An HTTP request with its time budget in milliseconds.
pub struct FfiHttpEndpoint {
    pub path: String,
    pub domain: String,
    pub body: Option<Vec<u8>>,
    pub timeout_millis: u64,
    pub headers: Option<Vec<(String, String)>>,
    pub path_params: Option<Vec<(String, String)>>,
    pub query_params: Option<Vec<(String, String)>>,
    pub method: FfiHttpMethod,
    pub requires_encryption: bool,
    pub requires_decryption: bool,
    pub user_agent: Option<String>,
    pub content_type: Option<String>,
}

/// An HTTP response.
pub struct FfiHttpResponse {
    pub status: u16,
    pub headers: Vec<(String, String)>,
    pub body: Vec<u8>,
}

/// The request method.
#[derive(Debug, Clone, Copy, PartialEq, Eq, Structural)]
pub enum FfiHttpMethod {
    Get,
    Post,
    Put,
    Delete,
}

/// A read request with its time budget in milliseconds.
pub struct FfiReadFile {
    pub path: String,
    pub timeout_millis: u64,
}

/// A write request with its time budget in milliseconds.
pub struct FfiWriteFile {
    pub path: String,
    pub mode: FfiWriteMode,
    pub timeout: u64,
    pub ensure_mode: Option<FfiEnsureMode>,
    pub data: Vec<u8>,
}

/// Whether a write replaces or extends the file.
#[derive(Debug, Clone, Copy, PartialEq, Eq, Structural)]
pub enum FfiWriteMode {
    Cover,
    Append,
}

/// How far a written file is pushed towards the disk.
#[derive(Debug, Clone, Copy, PartialEq, Eq, Structural)]
pub enum FfiEnsureMode {
    Flush,
    SyncData,
    SyncAll,
}

/// Errors reported across the boundary.
#[derive(Debug, Clone, PartialEq)]
pub enum FfiAdapterError {
    InvalidParameter(String),
    DomainError(String),
    Serialization(String),
    Configuration(String),
}

/// The runtime's method for a boundary method.
pub open spec fn method_of(m: FfiHttpMethod) -> HttpMethod {
    match m {
        FfiHttpMethod::Get => HttpMethod::Get,
        FfiHttpMethod::Post => HttpMethod::Post,
        FfiHttpMethod::Put => HttpMethod::Put,
        FfiHttpMethod::Delete => HttpMethod::Delete,
    }
}

/// The runtime's write mode for a boundary write mode.
pub open spec fn write_mode_of(m: FfiWriteMode) -> WriteMode {
    match m {
        FfiWriteMode::Cover => WriteMode::Cover,
        FfiWriteMode::Append => WriteMode::Append,
    }
}

/// The runtime's ensure mode for a boundary ensure mode.
pub open spec fn ensure_mode_of(m: FfiEnsureMode) -> EnsureMode {
    match m {
        FfiEnsureMode::Flush => EnsureMode::Flush,
        FfiEnsureMode::SyncData => EnsureMode::SyncData,
        FfiEnsureMode::SyncAll => EnsureMode::SyncAll,
    }
}

impl vstd::std_specs::convert::FromSpecImpl<FfiHttpMethod> for HttpMethod {
    open spec fn obeys_from_spec() -> bool {
        true
    }

    open spec fn from_spec(m: FfiHttpMethod) -> HttpMethod {
        method_of(m)
    }
}

impl From<FfiHttpMethod> for HttpMethod {
    fn from(m: FfiHttpMethod) -> HttpMethod {
        match m {
            FfiHttpMethod::Get => HttpMethod::Get,
            FfiHttpMethod::Post => HttpMethod::Post,
            FfiHttpMethod::Put => HttpMethod::Put,
            FfiHttpMethod::Delete => HttpMethod::Delete,
        }
    }
}

impl vstd::std_specs::convert::FromSpecImpl<FfiWriteMode> for WriteMode {
    open spec fn obeys_from_spec() -> bool {
        true
    }

    open spec fn from_spec(m: FfiWriteMode) -> WriteMode {
        write_mode_of(m)
    }
}

impl From<FfiWriteMode> for WriteMode {
    fn from(m: FfiWriteMode) -> WriteMode {
        match m {
            FfiWriteMode::Cover => WriteMode::Cover,
            FfiWriteMode::Append => WriteMode::Append,
        }
    }
}

impl vstd::std_specs::convert::FromSpecImpl<FfiEnsureMode> for EnsureMode {
    open spec fn obeys_from_spec() -> bool {
        true
    }

    open spec fn from_spec(m: FfiEnsureMode) -> EnsureMode {
        ensure_mode_of(m)
    }
}

impl From<FfiEnsureMode> for EnsureMode {
    fn from(m: FfiEnsureMode) -> EnsureMode {
        match m {
            FfiEnsureMode::Flush => EnsureMode::Flush,
            FfiEnsureMode::SyncData => EnsureMode::SyncData,
            FfiEnsureMode::SyncAll => EnsureMode::SyncAll,
        }
    }
}

impl vstd::std_specs::convert::FromSpecImpl<FfiReadFile> for ReadFile {
    open spec fn obeys_from_spec() -> bool {
        true
    }

    open spec fn from_spec(f: FfiReadFile) -> ReadFile {
        ReadFile { path: f.path, timeout: duration_of_millis(f.timeout_millis) }
    }
}

impl From<FfiReadFile> for ReadFile {
    fn from(f: FfiReadFile) -> ReadFile {
        ReadFile { path: f.path, timeout: Duration::from_millis(f.timeout_millis) }
    }
}

impl vstd::std_specs::convert::FromSpecImpl<FfiWriteFile> for WriteFile {
    open spec fn obeys_from_spec() -> bool {
        true
    }

    open spec fn from_spec(f: FfiWriteFile) -> WriteFile {
        WriteFile {
            path: f.path,
            mode: write_mode_of(f.mode),
            timeout: duration_of_millis(f.timeout),
            ensure_mode: match f.ensure_mode {
                Some(m) => Some(ensure_mode_of(m)),
                None => None,
            },
            data: f.data,
        }
    }
}

impl From<FfiWriteFile> for WriteFile {
    fn from(f: FfiWriteFile) -> WriteFile {
        let ensure_mode = match f.ensure_mode {
            Some(m) => Some(EnsureMode::from(m)),
            None => None,
        };
        WriteFile {
            path: f.path,
            mode: WriteMode::from(f.mode),
            timeout: Duration::from_millis(f.timeout),
            ensure_mode,
            data: f.data,
        }
    }
}

impl vstd::std_specs::convert::FromSpecImpl<FfiHttpEndpoint> for HttpEndpoint {
    open spec fn obeys_from_spec() -> bool {
        true
    }

    open spec fn from_spec(e: FfiHttpEndpoint) -> HttpEndpoint {
        HttpEndpoint {
            path: e.path,
            domain: e.domain,
            body: e.body,
            timeout: duration_of_millis(e.timeout_millis),
            headers: e.headers,
            path_params: e.path_params,
            query_params: e.query_params,
            method: method_of(e.method),
            requires_encryption: e.requires_encryption,
            requires_decryption: e.requires_decryption,
            user_agent: e.user_agent,
            content_type: e.content_type,
        }
    }
}

impl From<FfiHttpEndpoint> for HttpEndpoint {
    fn from(e: FfiHttpEndpoint) -> HttpEndpoint {
        HttpEndpoint {
            path: e.path,
            domain: e.domain,
            body: e.body,
            timeout: Duration::from_millis(e.timeout_millis),
            headers: e.headers,
            path_params: e.path_params,
            query_params: e.query_params,
            method: HttpMethod::from(e.method),
            requires_encryption: e.requires_encryption,
            requires_decryption: e.requires_decryption,
            user_agent: e.user_agent,
            content_type: e.content_type,
        }
    }
}

impl vstd::std_specs::convert::FromSpecImpl<HttpResponse> for FfiHttpResponse {
    open spec fn obeys_from_spec() -> bool {
        true
    }

    open spec fn from_spec(r: HttpResponse) -> FfiHttpResponse {
        FfiHttpResponse { status: r.status, headers: r.headers, body: r.body }
    }
}

impl From<HttpResponse> for FfiHttpResponse {
    fn from(r: HttpResponse) -> FfiHttpResponse {
        FfiHttpResponse { status: r.status, headers: r.headers, body: r.body }
    }
}

impl FfiHttpEndpoint {
    /// A request made of its parts.
    pub fn new(
        path: String,
        domain: String,
        body: Option<Vec<u8>>,
        timeout_millis: u64,
        headers: Option<Vec<(String, String)>>,
        path_params: Option<Vec<(String, String)>>,
        query_params: Option<Vec<(String, String)>>,
        method: FfiHttpMethod,
        requires_encryption: bool,
        requires_decryption: bool,
        user_agent: Option<String>,
        content_type: Option<String>,
    ) -> (r: FfiHttpEndpoint)
        ensures
            r == (FfiHttpEndpoint {
                path,
                domain,
                body,
                timeout_millis,
                headers,
                path_params,
                query_params,
                method,
                requires_encryption,
                requires_decryption,
                user_agent,
                content_type,
            }),
    {
        FfiHttpEndpoint {
            path,
            domain,
            body,
            timeout_millis,
            headers,
            path_params,
            query_params,
            method,
            requires_encryption,
            requires_decryption,
            user_agent,
            content_type,
        }
    }
}

fn prefixed(prefix: &str, text: &String) -> (r: String)
    ensures
        r@ == prefix@ + text@,
{
    let mut out = String::from_str(prefix);
    out.append(text.as_str());
    out
}

impl FfiAdapterError {
    /// The boundary error that an HTTP error becomes: its kind and message in
    /// one `DomainError` text, except serialization and configuration errors,
    /// which keep their kind.
    pub fn from_domain_error(err: HttpClientError) -> (r: FfiAdapterError)
        ensures
            match err {
                HttpClientError::Network(m) => (r matches FfiAdapterError::DomainError(t) && t@
                    == "Network: "@ + m@),
                HttpClientError::Timeout(d) => (r matches FfiAdapterError::DomainError(t) && t@
                    == "Timeout after "@ + duration_debug_text(d)),
                HttpClientError::InvalidUrl(u) => (r matches FfiAdapterError::DomainError(t) && t@
                    == "Invalid URL: "@ + u@),
                HttpClientError::Serialization(m) => r == FfiAdapterError::Serialization(m),
                HttpClientError::Configuration(m) => r == FfiAdapterError::Configuration(m),
                HttpClientError::InvalidHeader(m) => (r matches FfiAdapterError::DomainError(t)
                    && t@ == "Invalid Header: "@ + m@),
                HttpClientError::Crypto(m) => (r matches FfiAdapterError::DomainError(t) && t@
                    == "Crypto: "@ + m@),
            },
    {
        match err {
            HttpClientError::Network(m) => FfiAdapterError::DomainError(prefixed("Network: ", &m)),
            HttpClientError::Timeout(d) => FfiAdapterError::DomainError(
                prefixed("Timeout after ", &duration_text(&d)),
            ),
            HttpClientError::InvalidUrl(u) => FfiAdapterError::DomainError(
                prefixed("Invalid URL: ", &u),
            ),
            HttpClientError::Serialization(m) => FfiAdapterError::Serialization(m),
            HttpClientError::Configuration(m) => FfiAdapterError::Configuration(m),
            HttpClientError::InvalidHeader(m) => FfiAdapterError::DomainError(
                prefixed("Invalid Header: ", &m),
            ),
            HttpClientError::Crypto(m) => FfiAdapterError::DomainError(prefixed("Crypto: ", &m)),
        }
    }
}

} // verus!
