//! The decisions of the sign-in routes (GitHub or an Auth0 tenant): where login sends the browser,
//! how a callback is checked, what a session is built from, and logout.
use rand::RngCore;
use vstd::prelude::*;
use vstd::string::*;
use vstd::utf8::*;

use crate::auth::config::{AuthConfig, AuthProvider};
use crate::auth::session::{
    AuthFlowCookie, CookieSettings, GitHubToken, cookie_is, flow_removal_cookie, is_clock_reading, now_unix,
    session_cookie, session_removal_cookie, FLOW_COOKIE_NAME, SESSION_COOKIE_NAME, SESSION_SECONDS,
};
use crate::state::auth::CurrentUser;
use crate::text::{
    concat2, concat3, copy_string, opt_view, hex_lower, i64_decimal, join_strings, join_with, signed_decimal,
    split_trimmed, split_trimmed_pieces, starts_with, str_eq, str_starts_with, string_views,
    to_hex_lower,
};

verus! {

pub const GITHUB_AUTHORIZE_URL: &'static str = "https://github.com/login/oauth/authorize";

pub const GITHUB_ACCESS_TOKEN_URL: &'static str = "https://github.com/login/oauth/access_token";

pub const GITHUB_USER_URL: &'static str = "https://api.github.com/user";

pub const GITHUB_USER_EMAILS_URL: &'static str = "https://api.github.com/user/emails";

/// Query of the login route.
#[derive(Debug, Clone)]
pub struct LoginQuery {
    pub return_to: Option<String>,
}

/// Query GitHub sends back to the callback route.
#[derive(Debug, Clone)]
pub struct CallbackQuery {
    pub code: Option<String>,
    pub state: Option<String>,
    pub error: Option<String>,
    pub error_description: Option<String>,
}

/// GitHub's answer to the code exchange.
#[derive(Debug, Clone)]
pub struct GitHubAccessTokenResponse {
    pub access_token: String,
    pub token_type: String,
    pub scope: Option<String>,
    pub expires_in: Option<i64>,
    pub refresh_token: Option<String>,
    pub refresh_token_expires_in: Option<i64>,
}

/// GitHub's `/user` answer.
#[derive(Debug, Clone)]
pub struct GitHubUserResponse {
    pub id: i64,
    pub login: String,
    pub name: Option<String>,
    pub email: Option<String>,
    pub avatar_url: Option<String>,
}

/// One entry of GitHub's `/user/emails` answer.
#[derive(Debug, Clone)]
pub struct GitHubUserEmailResponse {
    pub email: String,
    pub primary: bool,
    pub verified: bool,
}

/// A cookie the response sets or clears.
#[derive(Debug, Clone)]
pub enum CookieChange {
    Add(CookieSettings),
    Remove(CookieSettings),
}

/// A redirect and the cookie changes that go with it.
#[derive(Debug, Clone)]
pub struct AuthRedirect {
    pub cookie_changes: Vec<CookieChange>,
    pub location: String,
}

/// Where the login route sends the browser.
#[derive(Debug, Clone)]
pub enum LoginStep {
    /// Sign-in cannot start; the message is for the log, the browser goes to
    /// the denied page with reason `login_failed`.
    Failed { message: String },
    /// Store `flow` in the flow cookie and send the browser to GitHub.
    Authorize { flow: AuthFlowCookie, location: String },
}

/// What the callback route does with GitHub's answer.
#[derive(Debug, Clone)]
pub enum CallbackStep {
    /// GitHub reported an OAuth error: show it on the denied page.
    Denied { location: String },
    /// The callback cannot be trusted; the message is for the log.
    Failed { message: String },
    /// Exchange `code` for a token, then return to `return_to`.
    Exchange { code: String, return_to: String },
}

/// ASCII letters, digits and `-`, `.`, `_`, `~`: the bytes left as they are.
pub open spec fn is_url_unreserved(b: u8) -> bool {
    ||| 0x30 <= b <= 0x39
    ||| 0x41 <= b <= 0x5a
    ||| 0x61 <= b <= 0x7a
    ||| b == 0x2d
    ||| b == 0x2e
    ||| b == 0x5f
    ||| b == 0x7e
}

/// Uppercase hex digit of a nibble.
pub open spec fn hex_digit_upper(n: int) -> char {
    if n < 10 {
        (('0' as int) + n) as char
    } else {
        (('A' as int) + n - 10) as char
    }
}

/// Each byte as itself when unreserved, else as `%XX`.
pub open spec fn percent_encode(bytes: Seq<u8>) -> Seq<char>
    decreases bytes.len(),
{
    if bytes.len() == 0 {
        Seq::empty()
    } else {
        let b = bytes.last();
        percent_encode(bytes.drop_last()) + if is_url_unreserved(b) {
            seq![b as char]
        } else {
            seq!['%', hex_digit_upper(b as int / 16), hex_digit_upper(b as int % 16)]
        }
    }
}

/// The text percent-encoded byte by byte in UTF-8.
pub open spec fn url_encoded(s: Seq<char>) -> Seq<char> {
    percent_encode(encode_utf8(s))
}

/// `urlencoding::encode`: every UTF-8 byte of `s` percent-encoded with
/// uppercase hex digits, except ASCII letters, digits and `-`, `.`, `_`, `~`,
/// which stay as they are.
#[verifier::external_body]
fn url_encode(s: &str) -> (r: String)
    ensures
        r@ == url_encoded(s@),
{
    urlencoding::encode(s).into_owned()
}

/// Fills `bytes` from the thread's random generator
/// (`rand::thread_rng().fill_bytes`); nothing is known of the bytes but
/// their number.
#[verifier::external_body]
fn fill_random(bytes: &mut Vec<u8>)
    ensures
        final(bytes)@.len() == old(bytes)@.len(),
{
    rand::thread_rng().fill_bytes(bytes.as_mut_slice());
}

pub open spec fn denied_url(reason: Seq<char>) -> Seq<char> {
    "/auth/denied?reason="@ + url_encoded(reason)
}

/// The denied page for `reason`.
pub fn auth_denied_redirect_url(reason: &str) -> (r: String)
    ensures
        r@ == denied_url(reason@),
{
    let encoded = url_encode(reason);
    concat2("/auth/denied?reason=", encoded.as_str())
}

/// The denied page every failed sign-in ends on.
pub fn login_failed_redirect_url() -> (r: String)
    ensures
        r@ == denied_url("login_failed"@),
{
    auth_denied_redirect_url("login_failed")
}

pub open spec fn return_to_spec(value: Option<Seq<char>>) -> Seq<char> {
    match value {
        Some(p) => if starts_with(p, "/"@) && !starts_with(p, "//"@) {
            p
        } else {
            "/app"@
        },
        None => "/app"@,
    }
}

/// A local path to return to after sign-in: one that starts with a single
/// `/`; anything else (absent, relative, or protocol-relative `//host`)
/// becomes `/app`. Whatever comes in, the result is a path on this site.
pub fn sanitize_return_to<'a>(value: Option<&'a str>) -> (r: &'a str)
    ensures
        r@ == return_to_spec(
            match value {
                Some(p) => Some(p@),
                None => None,
            },
        ),
        starts_with(r@, "/"@) && !starts_with(r@, "//"@),
{
    proof {
        reveal_strlit("/app");
        reveal_strlit("/");
        reveal_strlit("//");
        assert("/app"@.subrange(0, 1) =~= "/"@);
        assert("/app"@.subrange(0, 2) != "//"@) by {
            assert("/app"@.subrange(0, 2)[1] != "//"@[1]);
        }
    }
    match value {
        Some(path) => {
            if str_starts_with(path, "/") && !str_starts_with(path, "//") {
                path
            } else {
                "/app"
            }
        },
        None => "/app",
    }
}

/// 32 random bytes in lowercase hex.
pub fn random_token() -> (r: String)
    ensures
        r@.len() == 64,
        exists|bytes: Seq<u8>| bytes.len() == 32 && r@ == hex_lower(bytes),
{
    let mut bytes: Vec<u8> = Vec::new();
    let mut i: usize = 0;
    while i < 32
        invariant
            i <= 32,
            bytes@.len() == i,
        decreases 32 - i,
    {
        bytes.push(0);
        i = i + 1;
    }
    fill_random(&mut bytes);
    let r = to_hex_lower(bytes.as_slice());
    assert(bytes@.len() == 32 && r@ == hex_lower(bytes@));
    r
}

pub open spec fn github_authorize_url(
    client_id: Seq<char>,
    callback_url: Seq<char>,
    scopes: Seq<Seq<char>>,
    state: Seq<char>,
) -> Seq<char> {
    GITHUB_AUTHORIZE_URL@ + "?client_id="@ + url_encoded(client_id) + "&redirect_uri="@
        + url_encoded(callback_url) + "&scope="@ + url_encoded(join_with(scopes, " "@)) + "&state="@
        + url_encoded(state)
}

/// The Auth0 tenant's authorize endpoint asked for a code, with the client,
/// its callback, its scopes (space separated), the CSRF state and, when one is
/// configured, the connection to sign in through.
pub open spec fn auth0_authorize_url(
    domain: Seq<char>,
    connection: Option<Seq<char>>,
    client_id: Seq<char>,
    callback_url: Seq<char>,
    scopes: Seq<Seq<char>>,
    state: Seq<char>,
) -> Seq<char> {
    "https://"@ + domain + "/authorize?response_type=code&client_id="@ + url_encoded(client_id)
        + "&redirect_uri="@ + url_encoded(callback_url) + "&scope="@ + url_encoded(
        join_with(scopes, " "@),
    ) + "&state="@ + url_encoded(state) + match connection {
        Some(c) => "&connection="@ + url_encoded(c),
        None => Seq::empty(),
    }
}

/// The provider's authorize page for this client and CSRF state.
pub open spec fn authorize_url_spec(config: AuthConfig, state: Seq<char>) -> Seq<char> {
    match config.provider {
        AuthProvider::GitHub => github_authorize_url(
            config.client_id@,
            config.callback_url@,
            string_views(config.scopes@),
            state,
        ),
        AuthProvider::Auth0 { domain, connection } => auth0_authorize_url(
            domain@,
            opt_view(connection),
            config.client_id@,
            config.callback_url@,
            string_views(config.scopes@),
            state,
        ),
    }
}

/// The provider's authorize page (GitHub's, or the Auth0 tenant's) for this
/// client, its callback, its scopes (space separated) and the CSRF state.
pub fn authorize_url(config: &AuthConfig, csrf_state: &str) -> (r: String)
    ensures
        r@ == authorize_url_spec(*config, csrf_state@),
{
    let scope = join_strings(&config.scopes, " ");
    let mut r = match &config.provider {
        AuthProvider::GitHub => {
            let mut r = String::from_str(GITHUB_AUTHORIZE_URL);
            r.append("?client_id=");
            r
        },
        AuthProvider::Auth0 { domain, .. } => {
            let mut r = concat2("https://", domain.as_str());
            r.append("/authorize?response_type=code&client_id=");
            r
        },
    };
    r.append(url_encode(config.client_id.as_str()).as_str());
    r.append("&redirect_uri=");
    r.append(url_encode(config.callback_url.as_str()).as_str());
    r.append("&scope=");
    r.append(url_encode(scope.as_str()).as_str());
    r.append("&state=");
    r.append(url_encode(csrf_state).as_str());
    if let AuthProvider::Auth0 { connection: Some(c), .. } = &config.provider {
        r.append("&connection=");
        r.append(url_encode(c.as_str()).as_str());
    }
    proof {
        reveal_strlit("");
        assert(r@ =~= authorize_url_spec(*config, csrf_state@));
    }
    r
}

/// The login route: with auth configured, a fresh flow (random CSRF state and
/// the sanitized return path) and GitHub's authorize page for it.
pub fn login(auth: Option<&AuthConfig>, query: &LoginQuery) -> (r: LoginStep)
    ensures
        match auth {
            None => r matches LoginStep::Failed { message } && message@
                == "github auth is not configured"@,
            Some(config) => r matches LoginStep::Authorize { flow, location } && {
                &&& flow.return_to@ == return_to_spec(
                    match query.return_to {
                        Some(p) => Some(p@),
                        None => None,
                    },
                )
                &&& flow.csrf_state@.len() == 64
                &&& exists|bytes: Seq<u8>| bytes.len() == 32 && flow.csrf_state@ == hex_lower(bytes)
                &&& location@ == authorize_url_spec(*config, flow.csrf_state@)
            },
        },
{
    let config = match auth {
        Some(c) => c,
        None => {
            return LoginStep::Failed { message: String::from_str("github auth is not configured") };
        },
    };
    let return_to = match &query.return_to {
        Some(p) => sanitize_return_to(Some(p.as_str())),
        None => sanitize_return_to(None),
    };
    let flow = AuthFlowCookie { csrf_state: random_token(), return_to: String::from_str(return_to) };
    let location = authorize_url(config, flow.csrf_state.as_str());
    LoginStep::Authorize { flow, location }
}

pub open spec fn flow_text(flow: Option<Result<AuthFlowCookie, String>>) -> Option<
    Result<(Seq<char>, Seq<char>), Seq<char>>,
> {
    match flow {
        Some(Ok(f)) => Some(Ok((f.csrf_state@, f.return_to@))),
        Some(Err(e)) => Some(Err(e@)),
        None => None,
    }
}

/// The callback route's checks, in order: auth configured, no OAuth error,
/// a readable flow cookie, a state that matches it, and a code.
/// `flow` is the flow cookie as read: absent, or its decoded value or the
/// decoding error.
pub fn callback(
    configured: bool,
    query: &CallbackQuery,
    flow: Option<Result<AuthFlowCookie, String>>,
) -> (r: CallbackStep)
    ensures
        r is Exchange ==> configured && query.error is None && (flow matches Some(Ok(f))
            && query.state matches Some(st) && st@ == f.csrf_state@),
        !configured ==> (r matches CallbackStep::Failed { message } && message@
            == "github auth is not configured"@),
        configured && query.error is Some ==> (r matches CallbackStep::Denied { location }
            && location@ == denied_url(query.error->0@)),
        configured && query.error is None ==> match flow_text(flow) {
            None => r matches CallbackStep::Failed { message } && message@
                == "missing auth flow state cookie"@,
            Some(Err(e)) => r matches CallbackStep::Failed { message } && message@
                == "invalid auth flow state cookie: "@ + e,
            Some(Ok((csrf, return_to))) => match query.state {
                None => r matches CallbackStep::Failed { message } && message@
                    == "missing callback state"@,
                Some(state) => if state@ != csrf {
                    r matches CallbackStep::Failed { message } && message@
                        == "callback state mismatch"@
                } else {
                    match query.code {
                        None => r matches CallbackStep::Failed { message } && message@
                            == "missing authorization code"@,
                        Some(code) => r matches CallbackStep::Exchange { code: c, return_to: t }
                            && c@ == code@ && t@ == return_to,
                    }
                },
            },
        },
{
    if !configured {
        return CallbackStep::Failed { message: String::from_str("github auth is not configured") };
    }
    if let Some(error) = &query.error {
        return CallbackStep::Denied { location: auth_denied_redirect_url(error.as_str()) };
    }
    let flow = match flow {
        None => {
            return CallbackStep::Failed {
                message: String::from_str("missing auth flow state cookie"),
            };
        },
        Some(Err(e)) => {
            return CallbackStep::Failed {
                message: concat2("invalid auth flow state cookie: ", e.as_str()),
            };
        },
        Some(Ok(f)) => f,
    };
    let state = match &query.state {
        None => {
            return CallbackStep::Failed { message: String::from_str("missing callback state") };
        },
        Some(s) => s,
    };
    if !str_eq(state.as_str(), flow.csrf_state.as_str()) {
        return CallbackStep::Failed { message: String::from_str("callback state mismatch") };
    }
    match &query.code {
        None => CallbackStep::Failed { message: String::from_str("missing authorization code") },
        Some(code) => CallbackStep::Exchange { code: copy_string(code), return_to: flow.return_to },
    }
}

/// The form posted to the provider to exchange the code: client id and
/// secret, the code and the callback; Auth0 also names the grant type
/// (`authorization_code`) first.
pub fn token_request_form(config: &AuthConfig, code: &str) -> (r: Vec<(String, String)>)
    ensures
        ({
            let k: int = if config.provider is Auth0 {
                1
            } else {
                0
            };
            &&& r@.len() == k + 4
            &&& config.provider is Auth0 ==> r@[0].0@ == "grant_type"@ && r@[0].1@
                == "authorization_code"@
            &&& r@[k].0@ == "client_id"@ && r@[k].1@ == config.client_id@
            &&& r@[k + 1].0@ == "client_secret"@ && r@[k + 1].1@ == config.client_secret@
            &&& r@[k + 2].0@ == "code"@ && r@[k + 2].1@ == code@
            &&& r@[k + 3].0@ == "redirect_uri"@ && r@[k + 3].1@ == config.callback_url@
        }),
{
    let mut r: Vec<(String, String)> = Vec::new();
    if let AuthProvider::Auth0 { .. } = &config.provider {
        r.push((String::from_str("grant_type"), String::from_str("authorization_code")));
    }
    r.push((String::from_str("client_id"), copy_string(&config.client_id)));
    r.push((String::from_str("client_secret"), copy_string(&config.client_secret)));
    r.push((String::from_str("code"), String::from_str(code)));
    r.push((String::from_str("redirect_uri"), copy_string(&config.callback_url)));
    r
}

/// Where the code is exchanged: GitHub's token endpoint, or the Auth0
/// tenant's `/oauth/token`.
pub fn token_url(config: &AuthConfig) -> (r: String)
    ensures
        r@ == match config.provider {
            AuthProvider::GitHub => GITHUB_ACCESS_TOKEN_URL@,
            AuthProvider::Auth0 { domain, .. } => "https://"@ + domain@ + "/oauth/token"@,
        },
{
    match &config.provider {
        AuthProvider::GitHub => String::from_str(GITHUB_ACCESS_TOKEN_URL),
        AuthProvider::Auth0 { domain, .. } => concat3("https://", domain.as_str(), "/oauth/token"),
    }
}

/// Where the signed-in user is read: GitHub's `/user`, or the Auth0 tenant's
/// `/userinfo`.
pub fn user_url(config: &AuthConfig) -> (r: String)
    ensures
        r@ == match config.provider {
            AuthProvider::GitHub => GITHUB_USER_URL@,
            AuthProvider::Auth0 { domain, .. } => "https://"@ + domain@ + "/userinfo"@,
        },
{
    match &config.provider {
        AuthProvider::GitHub => String::from_str(GITHUB_USER_URL),
        AuthProvider::Auth0 { domain, .. } => concat3("https://", domain.as_str(), "/userinfo"),
    }
}

pub open spec fn offset_expiry(now: int, seconds: Option<i64>) -> Option<int> {
    match seconds {
        Some(s) => Some(now + s),
        None => None,
    }
}

pub open spec fn same_expiry(a: Option<i64>, b: Option<int>) -> bool {
    match (a, b) {
        (Some(x), Some(y)) => x == y,
        (None, None) => true,
        _ => false,
    }
}

pub open spec fn fits_i64(x: int) -> bool {
    i64::MIN <= x <= i64::MAX
}

fn add_offset(now: i64, seconds: Option<i64>) -> (r: Option<i64>)
    requires
        seconds matches Some(s) ==> fits_i64(now + s),
    ensures
        same_expiry(r, offset_expiry(now as int, seconds)),
{
    match seconds {
        Some(s) => Some(now + s),
        None => None,
    }
}

/// The stored token: scopes split on commas and trimmed, expiries turned from
/// seconds after `now` into Unix times.
pub fn build_github_token_at(token: GitHubAccessTokenResponse, now: i64) -> (r: GitHubToken)
    requires
        token.expires_in matches Some(s) ==> fits_i64(now + s),
        token.refresh_token_expires_in matches Some(s) ==> fits_i64(now + s),
    ensures
        r.access_token == token.access_token,
        r.token_type == token.token_type,
        string_views(r.scopes@) == match token.scope {
            Some(s) => split_trimmed(s@, ',', ','),
            None => Seq::<Seq<char>>::empty(),
        },
        same_expiry(r.expires_at_unix, offset_expiry(now as int, token.expires_in)),
        r.refresh_token == token.refresh_token,
        same_expiry(
            r.refresh_token_expires_at_unix,
            offset_expiry(now as int, token.refresh_token_expires_in),
        ),
{
    let scopes = match &token.scope {
        Some(s) => split_trimmed_pieces(s.as_str(), ',', ','),
        None => {
            let v: Vec<String> = Vec::new();
            assert(string_views(v@) =~= Seq::<Seq<char>>::empty());
            v
        },
    };
    let expires_at_unix = add_offset(now, token.expires_in);
    let refresh_token_expires_at_unix = add_offset(now, token.refresh_token_expires_in);
    GitHubToken {
        access_token: token.access_token,
        token_type: token.token_type,
        scopes,
        expires_at_unix,
        refresh_token: token.refresh_token,
        refresh_token_expires_at_unix,
    }
}

/// Whether an expiry offset can be added to any clock reading (within
/// `(-2^46, 2^46)`) without leaving the `i64` range.
pub open spec fn offset_in_range(seconds: Option<i64>) -> bool {
    seconds matches Some(s) ==> i64::MIN + 0x4000_0000_0000 <= s <= i64::MAX - 0x4000_0000_0000
}

/// The stored token, its expiries counted from the clock's reading.
pub fn build_github_token(token: GitHubAccessTokenResponse) -> (r: GitHubToken)
    requires
        offset_in_range(token.expires_in),
        offset_in_range(token.refresh_token_expires_in),
    ensures
        r.access_token == token.access_token,
        r.token_type == token.token_type,
        string_views(r.scopes@) == match token.scope {
            Some(s) => split_trimmed(s@, ',', ','),
            None => Seq::<Seq<char>>::empty(),
        },
        r.refresh_token == token.refresh_token,
        exists|now: int|
            is_clock_reading(now) && same_expiry(r.expires_at_unix, offset_expiry(now, token.expires_in)) && same_expiry(
                r.refresh_token_expires_at_unix,
                offset_expiry(now, token.refresh_token_expires_in),
            ),
{
    let now = now_unix();
    let r = build_github_token_at(token, now);
    assert(is_clock_reading(now as int) && same_expiry(
        r.expires_at_unix,
        offset_expiry(now as int, token.expires_in),
    ));
    r
}

/// The signed-in user from GitHub's profile: subject `github:<id>`, display
/// name the profile name or else the login, and the profile's email, or
/// `looked_up_email` when the profile shows none.
pub fn user_from_github(user: GitHubUserResponse, looked_up_email: Option<String>) -> (r: CurrentUser)
    ensures
        r.sub@ == "github:"@ + signed_decimal(user.id as int),
        r.display_name == match user.name {
            Some(n) => Some(n),
            None => Some(user.login),
        },
        r.email == match user.email {
            Some(e) => Some(e),
            None => looked_up_email,
        },
        r.avatar_url == user.avatar_url,
{
    let id = i64_decimal(user.id);
    let sub = concat2("github:", id.as_str());
    let display_name = match user.name {
        Some(n) => Some(n),
        None => Some(user.login),
    };
    let email = match user.email {
        Some(e) => Some(e),
        None => looked_up_email,
    };
    CurrentUser { sub, display_name, email, avatar_url: user.avatar_url }
}

/// Auth0's `/userinfo` answer (OpenID Connect claims).
#[derive(Debug, Clone)]
pub struct Auth0UserInfo {
    pub sub: String,
    pub name: Option<String>,
    pub nickname: Option<String>,
    pub email: Option<String>,
    pub picture: Option<String>,
}

/// The signed-in user from Auth0's claims: its `sub` as subject, the name
/// (else the nickname) to display, the email and the picture.
pub fn user_from_auth0(info: Auth0UserInfo) -> (r: CurrentUser)
    ensures
        r.sub == info.sub,
        r.display_name == match info.name {
            Some(n) => Some(n),
            None => info.nickname,
        },
        r.email == info.email,
        r.avatar_url == info.picture,
{
    let display_name = match info.name {
        Some(n) => Some(n),
        None => info.nickname,
    };
    CurrentUser { sub: info.sub, display_name, email: info.email, avatar_url: info.picture }
}

pub open spec fn primary_verified(e: GitHubUserEmailResponse) -> bool {
    e.primary && e.verified
}

/// The first address that is both primary and verified.
pub fn primary_verified_email(emails: Vec<GitHubUserEmailResponse>) -> (r: Option<String>)
    ensures
        match r {
            Some(e) => exists|i: int|
                0 <= i < emails@.len() && primary_verified(emails@[i]) && emails@[i].email == e
                    && forall|j: int| 0 <= j < i ==> !primary_verified(#[trigger] emails@[j]),
            None => forall|i: int| 0 <= i < emails@.len() ==> !primary_verified(#[trigger] emails@[i]),
        },
{
    let mut i: usize = 0;
    while i < emails.len()
        invariant
            i <= emails@.len(),
            forall|j: int| 0 <= j < i ==> !primary_verified(#[trigger] emails@[j]),
        decreases emails@.len() - i,
    {
        if emails[i].primary && emails[i].verified {
            return Some(emails[i].email.clone());
        }
        i = i + 1;
    }
    None
}

/// After a successful exchange: the flow cookie is cleared, the session
/// cookie set, and the browser returns to where sign-in started.
pub fn callback_success(secure: bool, session_json: String, return_to: String) -> (r: AuthRedirect)
    ensures
        r.location == return_to,
        r.cookie_changes@.len() == 2,
        r.cookie_changes@[0] matches CookieChange::Remove(c) && cookie_is(
            c,
            FLOW_COOKIE_NAME@,
            Seq::empty(),
            secure,
            0,
        ),
        r.cookie_changes@[1] matches CookieChange::Add(c) && cookie_is(
            c,
            SESSION_COOKIE_NAME@,
            session_json@,
            secure,
            SESSION_SECONDS as int,
        ),
{
    let mut cookie_changes: Vec<CookieChange> = Vec::new();
    cookie_changes.push(CookieChange::Remove(flow_removal_cookie(secure)));
    cookie_changes.push(CookieChange::Add(session_cookie(session_json, secure)));
    AuthRedirect { cookie_changes, location: return_to }
}

/// The logout route: clear both cookies and go to the configured page; with
/// auth off, just go home.
pub fn logout(auth: Option<&AuthConfig>) -> (r: AuthRedirect)
    ensures
        match auth {
            None => r.location@ == "/"@ && r.cookie_changes@.len() == 0,
            Some(config) => {
                &&& r.location@ == config.logout_return_url@
                &&& r.cookie_changes@.len() == 2
                &&& r.cookie_changes@[0] matches CookieChange::Remove(c) && cookie_is(
                    c,
                    SESSION_COOKIE_NAME@,
                    Seq::empty(),
                    config.secure_cookies,
                    0,
                )
                &&& r.cookie_changes@[1] matches CookieChange::Remove(c) && cookie_is(
                    c,
                    FLOW_COOKIE_NAME@,
                    Seq::empty(),
                    config.secure_cookies,
                    0,
                )
            },
        },
{
    match auth {
        None => AuthRedirect { cookie_changes: Vec::new(), location: String::from_str("/") },
        Some(config) => {
            let mut cookie_changes: Vec<CookieChange> = Vec::new();
            cookie_changes.push(CookieChange::Remove(session_removal_cookie(config.secure_cookies)));
            cookie_changes.push(CookieChange::Remove(flow_removal_cookie(config.secure_cookies)));
            AuthRedirect { cookie_changes, location: copy_string(&config.logout_return_url) }
        },
    }
}

} // verus!
