//! Cookies as the cookie jar keeps them. Times are whole milliseconds since
//! the Unix epoch.

use crate::text::{contains_seq, contains_str};
use crate::time::unix_millis_now;
use vstd::prelude::*;
use vstd::string::StringExecFns;

verus! {

/// What identifies a cookie: its domain, path and name.
#[derive(Debug, Clone, Hash, Eq, PartialEq)]
pub struct CookieKey {
    pub domain: String,
    pub path: String,
    pub name: String,
}

/// A cookie with its expiry (`None` for a session cookie), the times it was
/// created and last used, and its attributes.
#[derive(Debug, Clone)]
pub struct Cookie {
    pub key: CookieKey,
    pub value: String,
    pub expires: Option<u64>,
    pub creation_time: u64,
    pub last_access_time: u64,
    pub secure: bool,
    pub http_only: bool,
    pub same_site: Option<SameSite>,
    pub persistent: bool,
}

/// The `SameSite` attribute; `Unrestricted` is the attribute's `None` value.
#[derive(Debug, Clone, Copy, PartialEq, Eq, Structural)]
pub enum SameSite {
    Strict,
    Lax,
    Unrestricted,
}

/// Errors of the cookie jar.
#[derive(Debug, Clone, PartialEq)]
pub enum CookieError {
    Storage(String),
    Serialization(String),
    Io(String),
}

/// Whether a cookie with expiry `expires` has expired at time `now`.
pub open spec fn expired_at(expires: Option<u64>, now: u64) -> bool {
    match expires {
        Some(e) => now > e,
        None => false,
    }
}

impl Cookie {
    /// A cookie created now; it is persistent exactly when it has an expiry.
    pub fn new(
        domain: String,
        path: String,
        name: String,
        value: String,
        expires: Option<u64>,
        secure: bool,
        http_only: bool,
        same_site: Option<SameSite>,
    ) -> (r: Cookie)
        ensures
            r.key == (CookieKey { domain, path, name }),
            r.value == value,
            r.expires == expires,
            r.creation_time == r.last_access_time,
            r.secure == secure,
            r.http_only == http_only,
            r.same_site == same_site,
            r.persistent == expires.is_some(),
    {
        let now = unix_millis_now();
        Cookie {
            key: CookieKey { domain, path, name },
            value,
            expires,
            creation_time: now,
            last_access_time: now,
            secure,
            http_only,
            same_site,
            persistent: expires.is_some(),
        }
    }

    /// A session cookie created now: no expiry, not persistent.
    pub fn new_without_expires(
        domain: String,
        path: String,
        name: String,
        value: String,
        secure: bool,
        http_only: bool,
        same_site: Option<SameSite>,
    ) -> (r: Cookie)
        ensures
            r.key == (CookieKey { domain, path, name }),
            r.value == value,
            r.expires is None,
            r.creation_time == r.last_access_time,
            r.secure == secure,
            r.http_only == http_only,
            r.same_site == same_site,
            !r.persistent,
    {
        let now = unix_millis_now();
        Cookie {
            key: CookieKey { domain, path, name },
            value,
            expires: None,
            creation_time: now,
            last_access_time: now,
            secure,
            http_only,
            same_site,
            persistent: false,
        }
    }

    /// Whether the cookie has expired at time `now`.
    pub fn is_expired_at(&self, now: u64) -> (r: bool)
        ensures
            r == expired_at(self.expires, now),
    {
        match self.expires {
            Some(e) => now > e,
            None => false,
        }
    }

    /// Whether the cookie has expired by the wall clock; a session cookie
    /// never expires.
    pub fn is_expired(&self) -> (r: bool)
        ensures
            self.expires is None ==> !r,
    {
        self.is_expired_at(unix_millis_now())
    }

    /// Whether the cookie's domain occurs in `url`.
    pub fn matches_url(&self, url: &str) -> (r: bool)
        ensures
            r == contains_seq(url@, self.key.domain@),
    {
        contains_str(url, self.key.domain.as_str())
    }
}

impl CookieKey {
    /// A field-by-field copy.
    pub fn duplicate(&self) -> (r: CookieKey)
        ensures
            r == *self,
    {
        CookieKey { domain: self.domain.clone(), path: self.path.clone(), name: self.name.clone() }
    }
}

impl Cookie {
    /// A field-by-field copy.
    pub fn duplicate(&self) -> (r: Cookie)
        ensures
            r == *self,
    {
        Cookie {
            key: self.key.duplicate(),
            value: self.value.clone(),
            expires: self.expires,
            creation_time: self.creation_time,
            last_access_time: self.last_access_time,
            secure: self.secure,
            http_only: self.http_only,
            same_site: self.same_site,
            persistent: self.persistent,
        }
    }
}

/// The `SameSite` value that a response cookie's two flags give: `Lax` or
/// `Strict` when exactly that flag is set, and no value when both or neither
/// are set.
pub fn same_site_from_flags(lax: bool, strict: bool) -> (r: Option<SameSite>)
    ensures
        lax && !strict ==> r == Some(SameSite::Lax),
        !lax && strict ==> r == Some(SameSite::Strict),
        lax == strict ==> r is None,
{
    let first = if lax {
        SameSite::Lax
    } else {
        SameSite::Strict
    };
    let second = if strict {
        SameSite::Strict
    } else {
        SameSite::Lax
    };
    if first != second {
        None
    } else {
        Some(first)
    }
}

/// `name=value` of a cookie.
pub open spec fn cookie_pair(c: Cookie) -> Seq<char> {
    c.key.name@ + "="@ + c.value@
}

/// The `Cookie` request header for a list of cookies: their pairs joined by
/// `"; "`.
pub open spec fn cookie_header_of(s: Seq<Cookie>) -> Seq<char>
    decreases s.len(),
{
    if s.len() == 0 {
        Seq::empty()
    } else if s.len() == 1 {
        cookie_pair(s[0])
    } else {
        cookie_header_of(s.drop_last()) + "; "@ + cookie_pair(s.last())
    }
}

/// The `Cookie` request header for `cookies`.
pub fn cookie_header(cookies: &Vec<Cookie>) -> (r: String)
    ensures
        r@ == cookie_header_of(cookies@),
{
    let mut out = String::new();
    let mut i: usize = 0;
    while i < cookies.len()
        invariant
            i <= cookies@.len(),
            out@ == cookie_header_of(cookies@.take(i as int)),
        decreases cookies@.len() - i,
    {
        proof {
            assert(cookies@.take(i as int + 1).drop_last() =~= cookies@.take(i as int));
        }
        if i > 0 {
            out.append("; ");
        }
        out.append(cookies[i].key.name.as_str());
        out.append("=");
        out.append(cookies[i].value.as_str());
        proof {
            if i == 0 {
                assert(cookies@.take(1)[0] == cookies@[0]);
                assert(out@ =~= cookie_pair(cookies@[0]));
            } else {
                assert(out@ =~= cookie_header_of(cookies@.take(i as int)) + "; "@ + cookie_pair(
                    cookies@[i as int],
                ));
            }
        }
        i = i + 1;
    }
    proof {
        assert(cookies@.take(cookies@.len() as int) =~= cookies@);
    }
    out
}

/// The cookies of `s` that belong to `domain`, dropping the persistent ones
/// that expired before `now` when `drop_expired` holds.
pub open spec fn for_domain(s: Seq<Cookie>, domain: Seq<char>, now: u64, drop_expired: bool) -> Seq<
    Cookie,
>
    decreases s.len(),
{
    if s.len() == 0 {
        Seq::empty()
    } else {
        let c = s.last();
        let keep = c.key.domain@ == domain && !(drop_expired && match c.expires {
            Some(e) => e < now,
            None => false,
        });
        for_domain(s.drop_last(), domain, now, drop_expired) + if keep {
            seq![c]
        } else {
            Seq::empty()
        }
    }
}

fn collect_for_domain(
    out: &mut Vec<Cookie>,
    s: &Vec<Cookie>,
    domain: &String,
    now: u64,
    drop_expired: bool,
)
    ensures
        final(out)@ == old(out)@ + for_domain(s@, domain@, now, drop_expired),
{
    let ghost start = out@;
    let mut i: usize = 0;
    while i < s.len()
        invariant
            i <= s@.len(),
            out@ == start + for_domain(s@.take(i as int), domain@, now, drop_expired),
        decreases s@.len() - i,
    {
        proof {
            assert(s@.take(i as int + 1).drop_last() =~= s@.take(i as int));
        }
        let c = &s[i];
        let expired = match c.expires {
            Some(e) => e < now,
            None => false,
        };
        if c.key.domain == *domain && !(drop_expired && expired) {
            out.push(c.duplicate());
        }
        proof {
            assert(out@ =~= start + for_domain(s@.take(i as int + 1), domain@, now, drop_expired));
        }
        i = i + 1;
    }
    proof {
        assert(s@.take(s@.len() as int) =~= s@);
    }
}

/// The cookies a request to `domain` carries at time `now`: the persistent
/// ones of that domain that have not expired before `now`, then the session
/// ones of that domain.
pub fn cookies_for_domain(
    persistent: &Vec<Cookie>,
    session: &Vec<Cookie>,
    domain: &String,
    now: u64,
) -> (r: Vec<Cookie>)
    ensures
        r@ == for_domain(persistent@, domain@, now, true) + for_domain(session@, domain@, now, false),
{
    let mut out: Vec<Cookie> = Vec::new();
    collect_for_domain(&mut out, persistent, domain, now, true);
    collect_for_domain(&mut out, session, domain, now, false);
    proof {
        assert(out@ =~= for_domain(persistent@, domain@, now, true) + for_domain(
            session@,
            domain@,
            now,
            false,
        ));
    }
    out
}

/// The cookies of `s` that are still valid after `now`: session cookies, and
/// persistent ones expiring later than `now`.
pub open spec fn unexpired(s: Seq<Cookie>, now: u64) -> Seq<Cookie>
    decreases s.len(),
{
    if s.len() == 0 {
        Seq::empty()
    } else {
        let c = s.last();
        let keep = match c.expires {
            Some(e) => e > now,
            None => true,
        };
        unexpired(s.drop_last(), now) + if keep {
            seq![c]
        } else {
            Seq::empty()
        }
    }
}

/// The cookies of a saved jar that are still valid at `now`.
pub fn retain_unexpired(cookies: Vec<Cookie>, now: u64) -> (r: Vec<Cookie>)
    ensures
        r@ == unexpired(cookies@, now),
{
    let mut out: Vec<Cookie> = Vec::new();
    let mut i: usize = 0;
    while i < cookies.len()
        invariant
            i <= cookies@.len(),
            out@ == unexpired(cookies@.take(i as int), now),
        decreases cookies@.len() - i,
    {
        proof {
            assert(cookies@.take(i as int + 1).drop_last() =~= cookies@.take(i as int));
        }
        let keep = match cookies[i].expires {
            Some(e) => e > now,
            None => true,
        };
        if keep {
            out.push(cookies[i].duplicate());
        }
        proof {
            assert(out@ =~= unexpired(cookies@.take(i as int + 1), now));
        }
        i = i + 1;
    }
    proof {
        assert(cookies@.take(cookies@.len() as int) =~= cookies@);
    }
    out
}

} // verus!
