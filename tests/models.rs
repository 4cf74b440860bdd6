use std::time::Duration;
use strawberry_runtime::cache_model::{io_result, CacheError, IoOutcome};
use strawberry_runtime::cookie::{
    cookie_header, cookies_for_domain, retain_unexpired, same_site_from_flags, Cookie, CookieKey,
    SameSite,
};
use strawberry_runtime::ffi::{
    FfiAdapterError, FfiEnsureMode, FfiHttpEndpoint, FfiHttpMethod, FfiReadFile, FfiWriteFile,
    FfiWriteMode,
};
use strawberry_runtime::http::{HttpClientError, HttpEndpoint, HttpMethod};
use strawberry_runtime::service::{require_configured, InitError, ServiceError};
use strawberry_runtime::storage::{EnsureMode, ReadFile, StorageError, WriteFile, WriteMode};
use strawberry_runtime::text::{contains_str, starts_with_str};
use strawberry_runtime::url_component::{normalize_domain, with_scheme};

#[test]
fn read_file_defaults() {
    let r = ReadFile::path("a.txt".to_string());
    assert_eq!(r.path, "a.txt");
    assert_eq!(r.timeout, Duration::from_secs(60));
}

#[test]
fn write_file_defaults() {
    let w = WriteFile::path("a.txt".to_string(), vec![1, 2]);
    assert_eq!(w.path, "a.txt");
    assert_eq!(w.data, vec![1, 2]);
    assert_eq!(w.mode, WriteMode::Cover);
    assert_eq!(w.timeout, Duration::from_secs(60));
    assert_eq!(w.ensure_mode, Some(EnsureMode::Flush));
    assert!(!w.appends());
}

#[test]
fn cookie_construction() {
    let c = Cookie::new(
        "example.com".to_string(),
        "/".to_string(),
        "sid".to_string(),
        "1".to_string(),
        Some(1000),
        true,
        false,
        Some(SameSite::Lax),
    );
    assert!(c.persistent);
    assert_eq!(c.expires, Some(1000));
    assert_eq!(c.creation_time, c.last_access_time);
    assert_eq!(
        c.key,
        CookieKey { domain: "example.com".to_string(), path: "/".to_string(), name: "sid".to_string() }
    );
    let s = Cookie::new_without_expires(
        "example.com".to_string(),
        "/".to_string(),
        "sid".to_string(),
        "1".to_string(),
        false,
        true,
        None,
    );
    assert!(!s.persistent);
    assert_eq!(s.expires, None);
    assert!(!s.is_expired());
}

#[test]
fn cookie_expiry() {
    let c = Cookie::new(
        "d".to_string(),
        "/".to_string(),
        "n".to_string(),
        "v".to_string(),
        Some(1000),
        false,
        false,
        None,
    );
    assert!(!c.is_expired_at(1000));
    assert!(c.is_expired_at(1001));
    assert!(c.is_expired());
}

#[test]
fn cookie_matches_url_by_domain() {
    let c = Cookie::new_without_expires(
        "example.com".to_string(),
        "/".to_string(),
        "n".to_string(),
        "v".to_string(),
        false,
        false,
        None,
    );
    assert!(c.matches_url("https://sub.example.com/path"));
    assert!(!c.matches_url("https://example.org"));
    assert!(!c.matches_url(""));
}

#[test]
fn substring_search_edges() {
    assert!(contains_str("abc", ""));
    assert!(contains_str("", ""));
    assert!(!contains_str("", "a"));
    assert!(contains_str("abc", "abc"));
    assert!(contains_str("xxabc", "abc"));
    assert!(!contains_str("ab", "abc"));
    assert!(contains_str("Rust编程", "编"));
    assert!(starts_with_str("www.x", "www."));
    assert!(!starts_with_str("ww", "www."));
}

#[test]
fn normalize_domain_lowercases_and_strips_www() {
    assert_eq!(normalize_domain("WWW.EXAMPLE.COM"), "example.com");
    assert_eq!(normalize_domain("Sub.Example.com"), "sub.example.com");
    assert_eq!(normalize_domain("www."), "");
    assert_eq!(normalize_domain(""), "");
}

#[test]
fn io_outcomes_become_results() {
    assert_eq!(io_result(IoOutcome::Done(3)), Ok(3));
    assert_eq!(
        io_result::<u8>(IoOutcome::Failed("e".to_string())),
        Err(CacheError::IO("e".to_string()))
    );
    assert_eq!(
        io_result::<u8>(IoOutcome::TimedOut("t".to_string())),
        Err(CacheError::Timeout("t".to_string()))
    );
}

#[test]
fn not_configured_subsystem() {
    let none: Option<u8> = None;
    match require_configured(&none, "File Cache") {
        Err(e) => {
            assert_eq!(e, ServiceError::NotConfigured("File Cache".to_string()));
            assert_eq!(e.to_string(), "File Cache service is not configured");
        }
        Ok(_) => panic!("an absent subsystem was reported as configured"),
    }
    let some = Some(4u8);
    assert_eq!(require_configured(&some, "x"), Ok(&4));
}

#[test]
fn error_messages() {
    assert_eq!(StorageError::FileRequired("p".to_string()).to_string(), "p is not a file");
    assert_eq!(StorageError::DirectoryRequired("p".to_string()).to_string(), "p is not a directory");
    assert_eq!(StorageError::NotExist("p".to_string()).to_string(), "p does not exist");
    assert_eq!(StorageError::IOError("m".to_string()).to_string(), "IO Error: m");
    assert_eq!(StorageError::Timeout("m".to_string()).to_string(), "Timeout: m");
    assert_eq!(
        InitError::TokioInit("m".to_string()).to_string(),
        "Tokio runtime initialization failed: m"
    );
    assert_eq!(
        InitError::HttpClientInit("m".to_string()).to_string(),
        "HTTP client initialization failed: m"
    );
    assert_eq!(InitError::Configuration("m".to_string()).to_string(), "Configuration error: m");
    assert_eq!(
        InitError::FileCacheInit("m".to_string()).to_string(),
        "File Cache initialization failed: m"
    );
}

#[test]
fn boundary_conversions() {
    let e = FfiHttpEndpoint::new(
        "/search".to_string(),
        "https://cn.bing.com".to_string(),
        None,
        1500,
        None,
        None,
        Some(vec![("q".to_string(), "netease".to_string())]),
        FfiHttpMethod::Post,
        false,
        true,
        Some("agent".to_string()),
        None,
    );
    let d: HttpEndpoint = e.into();
    assert_eq!(d.path, "/search");
    assert_eq!(d.timeout, Duration::from_millis(1500));
    assert_eq!(d.method, HttpMethod::Post);
    assert!(d.requires_decryption);
    assert_eq!(d.user_agent, Some("agent".to_string()));

    let r: ReadFile = FfiReadFile { path: "f".to_string(), timeout_millis: 250 }.into();
    assert_eq!(r.timeout, Duration::from_millis(250));
    let w: WriteFile = FfiWriteFile {
        path: "f".to_string(),
        mode: FfiWriteMode::Append,
        timeout: 10,
        ensure_mode: Some(FfiEnsureMode::SyncData),
        data: vec![1],
    }
    .into();
    assert_eq!(w.mode, WriteMode::Append);
    assert!(w.appends());
    assert_eq!(w.ensure_mode, Some(EnsureMode::SyncData));
    assert_eq!(w.timeout, Duration::from_millis(10));
}

#[test]
fn boundary_errors() {
    assert_eq!(
        FfiAdapterError::from_domain_error(HttpClientError::Network("down".to_string())),
        FfiAdapterError::DomainError("Network: down".to_string())
    );
    assert_eq!(
        FfiAdapterError::from_domain_error(HttpClientError::Timeout(Duration::from_secs(3))),
        FfiAdapterError::DomainError("Timeout after 3s".to_string())
    );
    assert_eq!(
        FfiAdapterError::from_domain_error(HttpClientError::InvalidUrl("u".to_string())),
        FfiAdapterError::DomainError("Invalid URL: u".to_string())
    );
    assert_eq!(
        FfiAdapterError::from_domain_error(HttpClientError::Serialization("s".to_string())),
        FfiAdapterError::Serialization("s".to_string())
    );
    assert_eq!(
        FfiAdapterError::from_domain_error(HttpClientError::Configuration("c".to_string())),
        FfiAdapterError::Configuration("c".to_string())
    );
    assert_eq!(
        FfiAdapterError::from_domain_error(HttpClientError::InvalidHeader("h".to_string())),
        FfiAdapterError::DomainError("Invalid Header: h".to_string())
    );
    assert_eq!(
        FfiAdapterError::from_domain_error(HttpClientError::Crypto("k".to_string())),
        FfiAdapterError::DomainError("Crypto: k".to_string())
    );
}

#[test]
fn url_scheme_is_added_when_missing() {
    assert_eq!(with_scheme("example.com/path"), "http://example.com/path");
    assert_eq!(with_scheme("https://a.b"), "https://a.b");
    assert_eq!(with_scheme(""), "http://");
}

fn cookie(domain: &str, name: &str, value: &str, expires: Option<u64>) -> Cookie {
    Cookie {
        key: CookieKey { domain: domain.to_string(), path: "/".to_string(), name: name.to_string() },
        value: value.to_string(),
        expires,
        creation_time: 0,
        last_access_time: 0,
        secure: false,
        http_only: false,
        same_site: None,
        persistent: expires.is_some(),
    }
}

#[test]
fn cookie_header_joins_pairs() {
    assert_eq!(cookie_header(&vec![]), "");
    assert_eq!(cookie_header(&vec![cookie("d", "a", "1", None)]), "a=1");
    assert_eq!(
        cookie_header(&vec![cookie("d", "a", "1", None), cookie("d", "b", "2", None)]),
        "a=1; b=2"
    );
}

#[test]
fn cookies_for_a_domain() {
    let persistent = vec![
        cookie("d", "fresh", "1", Some(200)),
        cookie("d", "stale", "2", Some(50)),
        cookie("other", "x", "3", Some(500)),
        cookie("d", "edge", "4", Some(100)),
    ];
    let session = vec![cookie("d", "s", "5", None), cookie("e", "t", "6", None)];
    let got = cookies_for_domain(&persistent, &session, &"d".to_string(), 100);
    let names: Vec<&str> = got.iter().map(|c| c.key.name.as_str()).collect();
    assert_eq!(names, vec!["fresh", "edge", "s"]);
}

#[test]
fn loading_drops_expired_cookies() {
    let loaded = vec![
        cookie("d", "later", "1", Some(200)),
        cookie("d", "now", "2", Some(100)),
        cookie("d", "session", "3", None),
    ];
    let kept = retain_unexpired(loaded, 100);
    let names: Vec<&str> = kept.iter().map(|c| c.key.name.as_str()).collect();
    assert_eq!(names, vec!["later", "session"]);
}

#[test]
fn same_site_from_response_flags() {
    assert_eq!(same_site_from_flags(true, false), Some(SameSite::Lax));
    assert_eq!(same_site_from_flags(false, true), Some(SameSite::Strict));
    assert_eq!(same_site_from_flags(true, true), None);
    assert_eq!(same_site_from_flags(false, false), None);
}

#[test]
fn crypto_providers_required_by_the_request() {
    let mut e: HttpEndpoint = FfiHttpEndpoint::new(
        "/p".to_string(),
        "http://h".to_string(),
        Some(vec![1]),
        10,
        None,
        None,
        None,
        FfiHttpMethod::Get,
        true,
        true,
        None,
        None,
    )
    .into();
    assert!(matches!(
        e.check_providers(false, false),
        Err(HttpClientError::Configuration(m)) if m == "no encryption provider"
    ));
    assert!(matches!(
        e.check_providers(true, false),
        Err(HttpClientError::Configuration(m)) if m == "no decryption provider"
    ));
    assert!(e.check_providers(true, true).is_ok());
    e.body = None;
    assert!(e.check_providers(false, false).is_ok());
}
