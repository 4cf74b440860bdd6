//! Requests, responses and errors of the HTTP subsystem.

use core::time::Duration;
use vstd::prelude::*;
use vstd::string::StringExecFns;

verus! {

/// One HTTP request: where it goes, what it carries, and how it is sent.
#[derive(Debug, Clone)]
pub struct HttpEndpoint {
    pub path: String,
    pub domain: String,
    pub body: Option<Vec<u8>>,
    pub timeout: Duration,
    pub headers: Option<Vec<(String, String)>>,
    pub path_params: Option<Vec<(String, String)>>,
    pub query_params: Option<Vec<(String, String)>>,
    pub method: HttpMethod,
    pub requires_encryption: bool,
    pub requires_decryption: bool,
    pub user_agent: Option<String>,
    pub content_type: Option<String>,
}

/// The request method.
#[derive(Debug, Clone, Copy, PartialEq, Eq, Structural)]
pub enum HttpMethod {
    Get,
    Post,
    Put,
    Delete,
}

/// A response: status, headers and body.
#[derive(Debug, Clone)]
pub struct HttpResponse {
    pub status: u16,
    pub headers: Vec<(String, String)>,
    pub body: Vec<u8>,
}

/// Errors of the HTTP subsystem.
#[derive(Debug, Clone)]
pub enum HttpClientError {
    Network(String),
    Timeout(Duration),
    InvalidUrl(String),
    InvalidHeader(String),
    Serialization(String),
    Configuration(String),
    Crypto(String),
}

impl HttpEndpoint {
    /// Whether the request can be sent with the providers at hand: a body
    /// that must be encrypted needs an encryption provider, and then a body
    /// whose response must be decrypted needs a decryption provider.
    pub fn check_providers(&self, has_encryption: bool, has_decryption: bool) -> (r: Result<
        (),
        HttpClientError,
    >)
        ensures
            self.body.is_some() && self.requires_encryption && !has_encryption ==> (r matches Err(
                HttpClientError::Configuration(m),
            ) && m@ == "no encryption provider"@),
            !(self.body.is_some() && self.requires_encryption && !has_encryption) && (
            self.body.is_some() && self.requires_decryption && !has_decryption) ==> (r matches Err(
                HttpClientError::Configuration(m),
            ) && m@ == "no decryption provider"@),
            !(self.body.is_some() && self.requires_encryption && !has_encryption) && !(
            self.body.is_some() && self.requires_decryption && !has_decryption) ==> r is Ok,
    {
        if self.body.is_some() && self.requires_encryption && !has_encryption {
            return Err(HttpClientError::Configuration(String::from_str("no encryption provider")));
        }
        if self.body.is_some() && self.requires_decryption && !has_decryption {
            return Err(HttpClientError::Configuration(String::from_str("no decryption provider")));
        }
        Ok(())
    }
}

} // verus!
