//! The cookie that carries a session token, as the list of its attributes.

use vstd::prelude::*;
use crate::config::AuthConfig;
use crate::text::same_text;

verus! {

/// The `SameSite` attribute of a cookie.
#[derive(Clone, Copy, Debug, PartialEq, Eq, Structural)]
pub enum SameSite {
    Strict,
    Lax,
    /// Written `SameSite=None`: the cookie is sent with requests from other
    /// sites too.
    CrossSite,
}

/// A cookie, attribute by attribute.
#[derive(Clone, Debug, PartialEq, Eq)]
pub struct SessionCookie {
    pub name: String,
    pub value: String,
    pub http_only: bool,
    pub max_age_seconds: i64,
    pub path: String,
    pub same_site: Option<SameSite>,
    pub secure: bool,
    pub domain: Option<String>,
}

/// Seconds in a day.
pub const SECONDS_PER_DAY: u64 = 86400;

/// The `SameSite` attribute that a setting asks for: `Lax` and `None` by
/// their names, `Strict` for anything else.
pub open spec fn spec_same_site(setting: Seq<char>) -> SameSite {
    if setting == "Lax"@ {
        SameSite::Lax
    } else if setting == "None"@ {
        SameSite::CrossSite
    } else {
        SameSite::Strict
    }
}

/// The characters of an optional string.
pub open spec fn optional_chars(text: Option<String>) -> Option<Seq<char>> {
    match text {
        Some(t) => Some(t@),
        None => None,
    }
}

/// The `SameSite` attribute that a setting asks for.
pub fn same_site_of(setting: &str) -> (policy: SameSite)
    ensures
        policy == spec_same_site(setting@),
{
    if same_text(setting, "Lax") {
        SameSite::Lax
    } else if same_text(setting, "None") {
        SameSite::CrossSite
    } else {
        SameSite::Strict
    }
}

fn copy_of(text: &Option<String>) -> (copy: Option<String>)
    ensures
        optional_chars(copy) == optional_chars(*text),
{
    match text {
        Some(t) => Some(t.clone()),
        None => None,
    }
}

/// The cookie that hands a session token to the browser: readable by the
/// server only, valid for the configured number of days on every path.
pub fn create_session_cookie(token: &str, config: &AuthConfig) -> (cookie: SessionCookie)
    requires
        config.session_expiration_days * SECONDS_PER_DAY <= i64::MAX,
    ensures
        cookie.name@ == config.cookie_name@,
        cookie.value@ == token@,
        cookie.http_only,
        cookie.max_age_seconds == config.session_expiration_days * SECONDS_PER_DAY,
        cookie.path@ == "/"@,
        cookie.same_site == Some(spec_same_site(config.cookie_same_site@)),
        cookie.secure == config.cookie_secure,
        optional_chars(cookie.domain) == optional_chars(config.cookie_domain),
{
    let max_age: u64 = config.session_expiration_days * SECONDS_PER_DAY;
    SessionCookie {
        name: config.cookie_name.clone(),
        value: token.to_owned(),
        http_only: true,
        max_age_seconds: max_age as i64,
        path: "/".to_owned(),
        same_site: Some(same_site_of(config.cookie_same_site.as_str())),
        secure: config.cookie_secure,
        domain: copy_of(&config.cookie_domain),
    }
}

/// The cookie that takes the session token away again: the same name with
/// an empty value and no time to live.
pub fn create_logout_cookie(config: &AuthConfig) -> (cookie: SessionCookie)
    ensures
        cookie.name@ == config.cookie_name@,
        cookie.value@ == Seq::<char>::empty(),
        cookie.http_only,
        cookie.max_age_seconds == 0,
        cookie.path@ == "/"@,
        cookie.same_site is None,
        cookie.secure == config.cookie_secure,
        optional_chars(cookie.domain) == optional_chars(config.cookie_domain),
{
    SessionCookie {
        name: config.cookie_name.clone(),
        value: String::new(),
        http_only: true,
        max_age_seconds: 0,
        path: "/".to_owned(),
        same_site: None,
        secure: config.cookie_secure,
        domain: copy_of(&config.cookie_domain),
    }
}

} // verus!
