use vstd::prelude::*;
use vstd::string::StringExecFns;

verus! {

/// The name of the access-token cookie.
pub const ACCESS_TOKEN_COOKIE: &'static str = "access_token";

/// The name of the refresh-token cookie.
pub const REFRESH_TOKEN_COOKIE: &'static str = "refresh_token";

/// A cookie to set, with the attributes the service uses.
#[derive(Debug)]
pub struct CookieSpec {
    pub name: String,
    pub value: String,
    pub path: String,
    pub http_only: bool,
    /// The `Secure` attribute, where one is set.
    pub secure: Option<bool>,
    /// Whether `SameSite=Strict` is set.
    pub same_site_strict: bool,
    /// `Max-Age`, in seconds.
    pub max_age_secs: i64,
}

/// The access-token cookie: sent only to the API, HTTP-only, strict same-site,
/// living `ttl_minutes` minutes.
pub fn build_access_token_cookie(token: String, secure: bool, ttl_minutes: i64) -> (c: CookieSpec)
    requires
        i64::MIN <= ttl_minutes * 60 <= i64::MAX,
    ensures
        c.name@ == "access_token"@,
        c.value@ == token@,
        c.path@ == "/api"@,
        c.http_only,
        c.secure == Some(secure),
        c.same_site_strict,
        c.max_age_secs == ttl_minutes * 60,
{
    CookieSpec {
        name: String::from_str("access_token"),
        value: token,
        path: String::from_str("/api"),
        http_only: true,
        secure: Some(secure),
        same_site_strict: true,
        max_age_secs: ttl_minutes * 60,
    }
}

/// The refresh-token cookie: sent only to the refresh endpoint, HTTP-only,
/// strict same-site, living `ttl_days` days.
pub fn build_refresh_token_cookie(token: String, secure: bool, ttl_days: i64) -> (c: CookieSpec)
    requires
        i64::MIN <= ttl_days * 86400 <= i64::MAX,
    ensures
        c.name@ == "refresh_token"@,
        c.value@ == token@,
        c.path@ == "/api/auth/refresh"@,
        c.http_only,
        c.secure == Some(secure),
        c.same_site_strict,
        c.max_age_secs == ttl_days * 86400,
{
    CookieSpec {
        name: String::from_str("refresh_token"),
        value: token,
        path: String::from_str("/api/auth/refresh"),
        http_only: true,
        secure: Some(secure),
        same_site_strict: true,
        max_age_secs: ttl_days * 86400,
    }
}

/// A cookie that removes the cookie `name` at `path` at once: empty, HTTP-only, no lifetime.
pub fn build_removal_cookie(name: &str, path: &str) -> (c: CookieSpec)
    ensures
        c.name@ == name@,
        c.value@.len() == 0,
        c.path@ == path@,
        c.http_only,
        c.secure is None,
        !c.same_site_strict,
        c.max_age_secs == 0,
{
    CookieSpec {
        name: String::from_str(name),
        value: String::new(),
        path: String::from_str(path),
        http_only: true,
        secure: None,
        same_site_strict: false,
        max_age_secs: 0,
    }
}

} // verus!
