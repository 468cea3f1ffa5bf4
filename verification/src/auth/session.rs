//! The session and sign-in flow cookies and their expiry rules.
use vstd::prelude::*;
use vstd::string::*;

use crate::state::auth::CurrentUser;

verus! {

pub const SESSION_COOKIE_NAME: &'static str = "prior_web_session";

pub const FLOW_COOKIE_NAME: &'static str = "prior_web_auth_flow";

/// Eight hours, the lifetime of a session without a token expiry.
pub const SESSION_SECONDS: i64 = 28_800;

/// Ten minutes, the lifetime of a sign-in flow.
pub const FLOW_SECONDS: i64 = 600;

/// A GitHub access token and when it and its refresh token expire.
#[derive(Debug, Clone)]
pub struct GitHubToken {
    pub access_token: String,
    pub token_type: String,
    pub scopes: Vec<String>,
    pub expires_at_unix: Option<i64>,
    pub refresh_token: Option<String>,
    pub refresh_token_expires_at_unix: Option<i64>,
}

/// What the session cookie holds.
#[derive(Debug, Clone)]
pub struct SessionCookie {
    pub user: CurrentUser,
    pub github_token: GitHubToken,
    pub expires_at_unix: i64,
}

/// What the sign-in flow cookie holds between login and callback.
#[derive(Debug, Clone)]
pub struct AuthFlowCookie {
    pub csrf_state: String,
    pub return_to: String,
}

/// A Unix time the clock can show: the time crate keeps dates within years
/// -999999..=999999, well within `(-2^46, 2^46)` seconds.
pub open spec fn is_clock_reading(t: int) -> bool {
    -0x4000_0000_0000 < t < 0x4000_0000_0000
}

/// The clock's reading as a Unix timestamp (`time::OffsetDateTime::now_utc`).
/// The time crate keeps dates within years -999999..=999999, so the reading
/// lies well within `(-2^46, 2^46)`; nothing more is known of it.
#[verifier::external_body]
pub(crate) fn now_unix() -> (t: i64)
    ensures
        is_clock_reading(t as int),
{
    time::OffsetDateTime::now_utc().unix_timestamp()
}

impl GitHubToken {
    /// Expired when it has an expiry that is not after `now`.
    pub open spec fn expired_at(&self, now: int) -> bool {
        self.expires_at_unix matches Some(e) && e <= now
    }

    pub fn is_expired_at(&self, now: i64) -> (r: bool)
        ensures
            r == self.expired_at(now as int),
    {
        match self.expires_at_unix {
            Some(e) => e <= now,
            None => false,
        }
    }

    /// Expired by the clock. A token without an expiry never is.
    pub fn is_expired(&self) -> (r: bool)
        ensures
            self.expires_at_unix is None ==> !r,
            exists|now: int| is_clock_reading(now) && r == self.expired_at(now),
    {
        let now = now_unix();
        let r = self.is_expired_at(now);
        assert(is_clock_reading(now as int) && r == self.expired_at(now as int));
        r
    }
}

impl SessionCookie {
    /// A session that expires with its token, or at `default_expiry` when the
    /// token does not.
    pub fn new_with_default(user: CurrentUser, github_token: GitHubToken, default_expiry: i64) -> (r:
        Self)
        ensures
            r.user == user,
            r.github_token == github_token,
            r.expires_at_unix == match github_token.expires_at_unix {
                Some(e) => e,
                None => default_expiry,
            },
    {
        let expires_at_unix = match github_token.expires_at_unix {
            Some(e) => e,
            None => default_expiry,
        };
        SessionCookie { user, github_token, expires_at_unix }
    }

    /// A session that expires with its token, or eight hours from now.
    pub fn new(user: CurrentUser, github_token: GitHubToken) -> (r: Self)
        ensures
            r.user == user,
            r.github_token == github_token,
            github_token.expires_at_unix matches Some(e) ==> r.expires_at_unix == e,
            github_token.expires_at_unix is None ==> is_clock_reading(
                r.expires_at_unix - SESSION_SECONDS,
            ),
    {
        let now = now_unix();
        Self::new_with_default(user, github_token, now + SESSION_SECONDS)
    }

    pub open spec fn expired_at(&self, now: int) -> bool {
        self.expires_at_unix <= now
    }

    pub fn is_expired_at(&self, now: i64) -> (r: bool)
        ensures
            r == self.expired_at(now as int),
    {
        self.expires_at_unix <= now
    }

    /// Expired by the clock.
    pub fn is_expired(&self) -> (r: bool)
        ensures
            exists|now: int| is_clock_reading(now) && r == self.expired_at(now),
    {
        let now = now_unix();
        let r = self.is_expired_at(now);
        assert(is_clock_reading(now as int) && r == self.expired_at(now as int));
        r
    }
}

/// The attributes of a cookie this client sets: path `/`, HTTP only,
/// `SameSite=Lax`, and the given name, value, security and lifetime.
#[derive(Debug, Clone)]
pub struct CookieSettings {
    pub name: String,
    pub value: String,
    pub path: String,
    pub http_only: bool,
    pub secure: bool,
    pub same_site_lax: bool,
    pub max_age_seconds: i64,
}

pub open spec fn cookie_is(
    c: CookieSettings,
    name: Seq<char>,
    value: Seq<char>,
    secure: bool,
    max_age: int,
) -> bool {
    &&& c.name@ == name
    &&& c.value@ == value
    &&& c.path@ == "/"@
    &&& c.http_only
    &&& c.secure == secure
    &&& c.same_site_lax
    &&& c.max_age_seconds == max_age
}

fn cookie(name: &str, value: String, secure: bool, max_age_seconds: i64) -> (c: CookieSettings)
    ensures
        cookie_is(c, name@, value@, secure, max_age_seconds as int),
{
    CookieSettings {
        name: String::from_str(name),
        value,
        path: String::from_str("/"),
        http_only: true,
        secure,
        same_site_lax: true,
        max_age_seconds,
    }
}

/// The session cookie, valid for eight hours.
pub fn session_cookie(value: String, secure: bool) -> (c: CookieSettings)
    ensures
        cookie_is(c, SESSION_COOKIE_NAME@, value@, secure, SESSION_SECONDS as int),
{
    cookie(SESSION_COOKIE_NAME, value, secure, SESSION_SECONDS)
}

/// The empty session cookie that ends a session at once.
pub fn session_removal_cookie(secure: bool) -> (c: CookieSettings)
    ensures
        cookie_is(c, SESSION_COOKIE_NAME@, Seq::empty(), secure, 0),
{
    cookie(SESSION_COOKIE_NAME, String::new(), secure, 0)
}

/// The sign-in flow cookie, valid for ten minutes.
pub fn flow_cookie(value: String, secure: bool) -> (c: CookieSettings)
    ensures
        cookie_is(c, FLOW_COOKIE_NAME@, value@, secure, FLOW_SECONDS as int),
{
    cookie(FLOW_COOKIE_NAME, value, secure, FLOW_SECONDS)
}

/// The empty flow cookie that ends a sign-in flow at once.
pub fn flow_removal_cookie(secure: bool) -> (c: CookieSettings)
    ensures
        cookie_is(c, FLOW_COOKIE_NAME@, Seq::empty(), secure, 0),
{
    cookie(FLOW_COOKIE_NAME, String::new(), secure, 0)
}

} // verus!
