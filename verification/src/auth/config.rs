//! GitHub OAuth settings, taken from the process environment.
use vstd::prelude::*;
use vstd::string::*;

use crate::text::{
    ascii_lower, char_is_whitespace, chars_of, concat2, concat3, contains_seq, copy_string,
    is_white_space, split_trimmed, split_trimmed_pieces, starts_with, str_contains, str_eq,
    opt_view, string_views, strip_prefix_str, to_ascii_lower, trim_end_char, trim_end_matching,
};

verus! {

/// Who signs users in: GitHub OAuth, or an Auth0 tenant (optionally through
/// one of its connections, such as its GitHub social connection).
#[derive(Debug, Clone)]
pub enum AuthProvider {
    GitHub,
    Auth0 { domain: String, connection: Option<String> },
}

/// The OAuth client's settings.
#[derive(Debug, Clone)]
pub struct AuthConfig {
    pub provider: AuthProvider,
    pub client_id: String,
    pub client_secret: String,
    pub callback_url: String,
    pub logout_return_url: String,
    pub session_secret: String,
    pub scopes: Vec<String>,
    pub secure_cookies: bool,
}

/// The value the environment holds for `key`: that of its first entry.
pub open spec fn env_get(env: Seq<(String, String)>, key: Seq<char>) -> Option<Seq<char>>
    decreases env.len(),
{
    if env.len() == 0 {
        None
    } else if env[0].0@ == key {
        Some(env[0].1@)
    } else {
        env_get(env.drop_first(), key)
    }
}

/// A variable counts as set only when it is not empty.
pub open spec fn env_read(env: Seq<(String, String)>, key: Seq<char>) -> Option<Seq<char>> {
    match env_get(env, key) {
        Some(v) => if v.len() > 0 {
            Some(v)
        } else {
            None
        },
        None => None,
    }
}

pub open spec fn missing_env_message(key: Seq<char>) -> Seq<char> {
    "missing required env var "@ + key
}

pub open spec fn default_scopes() -> Seq<Seq<char>> {
    seq!["read:user"@, "user:email"@, "repo"@]
}

/// The scopes listed in the variable (split on commas and spaces), or the
/// default ones when it is unset or lists none.
pub open spec fn scopes_setting(value: Option<Seq<char>>) -> Seq<Seq<char>> {
    match value {
        Some(v) => if split_trimmed(v, ',', ' ').len() > 0 {
            split_trimmed(v, ',', ' ')
        } else {
            default_scopes()
        },
        None => default_scopes(),
    }
}

/// Cookies are secure unless the variable says `0` or `false` (in any case);
/// without it, unless this is a debug build serving on 127.0.0.1.
pub open spec fn secure_setting(value: Option<Seq<char>>, base_url: Seq<char>, debug_build: bool) -> bool {
    match value {
        Some(v) => v != "0"@ && ascii_lower(v) != "false"@,
        None => !debug_build || !contains_seq(base_url, "127.0.0.1"@),
    }
}

/// The variables a provider is configured by: client id, client secret,
/// callback URL and logout return URL.
pub open spec fn provider_keys(auth0: bool) -> (Seq<char>, Seq<char>, Seq<char>, Seq<char>) {
    if auth0 {
        ("AUTH0_CLIENT_ID"@, "AUTH0_CLIENT_SECRET"@, "AUTH0_CALLBACK_URL"@, "AUTH0_LOGOUT_RETURN_URL"@)
    } else {
        ("GITHUB_CLIENT_ID"@, "GITHUB_CLIENT_SECRET"@, "GITHUB_CALLBACK_URL"@, "GITHUB_LOGOUT_RETURN_URL"@)
    }
}

/// The scopes asked of Auth0: an OpenID Connect sign-in with profile and email.
pub open spec fn auth0_scopes() -> Seq<Seq<char>> {
    seq!["openid"@, "profile"@, "email"@]
}

/// The configuration built from these variables once the required ones are there.
pub open spec fn config_matches(
    c: AuthConfig,
    env: Seq<(String, String)>,
    auth0: bool,
    client_id: Seq<char>,
    base_url: Seq<char>,
    client_secret: Seq<char>,
    session_secret: Seq<char>,
    debug_build: bool,
) -> bool {
    let base = trim_end_char(base_url, '/');
    let keys = provider_keys(auth0);
    &&& if auth0 {
        c.provider matches AuthProvider::Auth0 { domain, connection } && Some(domain@) == env_read(
            env,
            "AUTH0_DOMAIN"@,
        ) && opt_view(connection) == env_read(env, "AUTH0_GITHUB_CONNECTION"@)
    } else {
        c.provider is GitHub
    }
    &&& c.client_id@ == client_id
    &&& c.client_secret@ == client_secret
    &&& c.callback_url@ == match env_read(env, keys.2) {
        Some(v) => v,
        None => base + "/auth/callback"@,
    }
    &&& c.logout_return_url@ == match env_read(env, keys.3) {
        Some(v) => v,
        None => base + "/"@,
    }
    &&& c.session_secret@ == session_secret
    &&& string_views(c.scopes@) == if auth0 {
        auth0_scopes()
    } else {
        scopes_setting(env_read(env, "GITHUB_OAUTH_SCOPES"@))
    }
    &&& c.secure_cookies == secure_setting(
        env_read(env, "PRIOR_WEB_SECURE_COOKIES"@),
        base_url,
        debug_build,
    )
}

/// The outcome of loading a provider's settings whose client id is set: the
/// first variable at fault (missing, or not an absolute http(s) URL), in the
/// order base URL, Auth0 domain (Auth0 only), client secret, callback URL,
/// logout return URL, session secret; else the configuration.
pub open spec fn config_loaded(
    env: Seq<(String, String)>,
    debug_build: bool,
    auth0: bool,
    r: Result<Option<AuthConfig>, String>,
) -> bool {
    let keys = provider_keys(auth0);
    match env_read(env, "PRIOR_WEB_BASE_URL"@) {
        None => r matches Err(e) && e@ == missing_env_message("PRIOR_WEB_BASE_URL"@),
        Some(base) => if !is_absolute_http_url(base) {
            r matches Err(e) && e@ == invalid_url_message("PRIOR_WEB_BASE_URL"@)
        } else if auth0 && env_read(env, "AUTH0_DOMAIN"@) is None {
            r matches Err(e) && e@ == missing_env_message("AUTH0_DOMAIN"@)
        } else {
            match env_read(env, keys.1) {
                None => r matches Err(e) && e@ == missing_env_message(keys.1),
                Some(secret) => if url_var_invalid(env, keys.2) {
                    r matches Err(e) && e@ == invalid_url_message(keys.2)
                } else if url_var_invalid(env, keys.3) {
                    r matches Err(e) && e@ == invalid_url_message(keys.3)
                } else {
                    match env_read(env, "PRIOR_WEB_SESSION_SECRET"@) {
                        None => r matches Err(e) && e@ == missing_env_message(
                            "PRIOR_WEB_SESSION_SECRET"@,
                        ),
                        Some(session) => r matches Ok(Some(c)) && config_matches(
                            c,
                            env,
                            auth0,
                            env_read(env, keys.0).unwrap(),
                            base,
                            secret,
                            session,
                            debug_build,
                        ),
                    }
                },
            }
        },
    }
}

/// What follows the `https://` or `http://` of an absolute http(s) URL.
pub open spec fn after_http_scheme(s: Seq<char>) -> Option<Seq<char>> {
    if starts_with(s, "https://"@) {
        Some(s.skip("https://"@.len() as int))
    } else if starts_with(s, "http://"@) {
        Some(s.skip("http://"@.len() as int))
    } else {
        None
    }
}

/// An absolute http(s) URL: the scheme, then a host (something that does not
/// start with `/`), and no white space anywhere.
pub open spec fn is_absolute_http_url(s: Seq<char>) -> bool {
    &&& after_http_scheme(s) matches Some(rest)
    &&& rest.len() > 0
    &&& rest[0] != '/'
    &&& forall|i: int| 0 <= i < s.len() ==> !is_white_space(#[trigger] s[i])
}

pub open spec fn invalid_url_message(key: Seq<char>) -> Seq<char> {
    "invalid env var "@ + key + ": expected an absolute http(s) URL"@
}

/// The variable is set and does not hold an absolute http(s) URL.
pub open spec fn url_var_invalid(env: Seq<(String, String)>, key: Seq<char>) -> bool {
    env_read(env, key) matches Some(v) && !is_absolute_http_url(v)
}

fn has_no_white_space(s: &str) -> (r: bool)
    ensures
        r == forall|i: int| 0 <= i < s@.len() ==> !is_white_space(#[trigger] s@[i]),
{
    let v = chars_of(s);
    let mut i: usize = 0;
    while i < v.len()
        invariant
            v@ == s@,
            i <= v@.len(),
            forall|j: int| 0 <= j < i ==> !is_white_space(#[trigger] s@[j]),
        decreases v@.len() - i,
    {
        if char_is_whitespace(v[i]) {
            return false;
        }
        i = i + 1;
    }
    true
}

/// Whether `s` is an absolute http(s) URL.
pub fn check_absolute_http_url(s: &str) -> (r: bool)
    ensures
        r == is_absolute_http_url(s@),
{
    let rest = match strip_prefix_str(s, "https://") {
        Some(t) => t,
        None => match strip_prefix_str(s, "http://") {
            Some(t) => t,
            None => return false,
        },
    };
    if rest.as_str().unicode_len() == 0 || rest.as_str().get_char(0) == '/' {
        return false;
    }
    has_no_white_space(s)
}

/// The URL in `key` if it is set, an error naming `key` if it is set to
/// something that is not an absolute http(s) URL.
fn read_url_env(env: &Vec<(String, String)>, key: &str) -> (r: Result<Option<String>, String>)
    ensures
        match env_read(env@, key@) {
            None => r matches Ok(None),
            Some(v) => if is_absolute_http_url(v) {
                r matches Ok(Some(x)) && x@ == v
            } else {
                r matches Err(e) && e@ == invalid_url_message(key@)
            },
        },
{
    match read_env(env, key) {
        None => Ok(None),
        Some(v) => if check_absolute_http_url(v.as_str()) {
            Ok(Some(v))
        } else {
            Err(concat3("invalid env var ", key, ": expected an absolute http(s) URL"))
        },
    }
}

/// The value of `key` in `env`, if it is set and not empty.
pub fn read_env(env: &Vec<(String, String)>, key: &str) -> (r: Option<String>)
    ensures
        match r {
            Some(v) => env_read(env@, key@) == Some(v@),
            None => env_read(env@, key@) is None,
        },
{
    let mut i: usize = 0;
    assert(env@.subrange(0, env@.len() as int) =~= env@);
    while i < env.len()
        invariant
            i <= env@.len(),
            env_get(env@, key@) == env_get(env@.subrange(i as int, env@.len() as int), key@),
        decreases env@.len() - i,
    {
        let ghost rest = env@.subrange(i as int, env@.len() as int);
        assert(rest.drop_first() =~= env@.subrange(i + 1, env@.len() as int));
        if str_eq(env[i].0.as_str(), key) {
            if env[i].1.as_str().unicode_len() > 0 {
                return Some(copy_string(&env[i].1));
            } else {
                return None;
            }
        }
        i = i + 1;
    }
    assert(env@.subrange(i as int, env@.len() as int) =~= Seq::<(String, String)>::empty());
    None
}

/// The value of `key`, or the error that names the missing variable.
pub fn require_env(env: &Vec<(String, String)>, key: &str) -> (r: Result<String, String>)
    ensures
        match r {
            Ok(v) => env_read(env@, key@) == Some(v@),
            Err(e) => env_read(env@, key@) is None && e@ == missing_env_message(key@),
        },
{
    match read_env(env, key) {
        Some(v) => Ok(v),
        None => Err(concat2("missing required env var ", key)),
    }
}

fn scopes_from(value: Option<String>) -> (r: Vec<String>)
    ensures
        string_views(r@) == scopes_setting(match value {
            Some(v) => Some(v@),
            None => None,
        }),
{
    if let Some(v) = value {
        let pieces = split_trimmed_pieces(v.as_str(), ',', ' ');
        if pieces.len() > 0 {
            return pieces;
        }
    }
    let r = vec![String::from_str("read:user"), String::from_str("user:email"), String::from_str("repo")];
    assert(string_views(r@) =~= default_scopes());
    r
}

fn secure_from(value: Option<String>, base_url: &str, debug_build: bool) -> (r: bool)
    ensures
        r == secure_setting(
            match value {
                Some(v) => Some(v@),
                None => None,
            },
            base_url@,
            debug_build,
        ),
{
    match value {
        Some(v) => {
            let lower = to_ascii_lower(v.as_str());
            !str_eq(v.as_str(), "0") && !str_eq(lower.as_str(), "false")
        },
        None => !debug_build || !str_contains(base_url, "127.0.0.1"),
    }
}

fn auth0_scope_list() -> (r: Vec<String>)
    ensures
        string_views(r@) == auth0_scopes(),
{
    let r = vec![String::from_str("openid"), String::from_str("profile"), String::from_str("email")];
    assert(string_views(r@) =~= auth0_scopes());
    r
}

fn invalid_url(key: &str) -> (e: String)
    ensures
        e@ == invalid_url_message(key@),
{
    concat3("invalid env var ", key, ": expected an absolute http(s) URL")
}

/// Loads a provider's settings once its client id is known to be set.
fn load_config(env: &Vec<(String, String)>, debug_build: bool, auth0: bool, client_id: String) -> (r:
    Result<Option<AuthConfig>, String>)
    requires
        env_read(env@, provider_keys(auth0).0) == Some(client_id@),
    ensures
        config_loaded(env@, debug_build, auth0, r),
{
    let (secret_key, callback_key, logout_key) = if auth0 {
        ("AUTH0_CLIENT_SECRET", "AUTH0_CALLBACK_URL", "AUTH0_LOGOUT_RETURN_URL")
    } else {
        ("GITHUB_CLIENT_SECRET", "GITHUB_CALLBACK_URL", "GITHUB_LOGOUT_RETURN_URL")
    };
    assert(secret_key@ == provider_keys(auth0).1 && callback_key@ == provider_keys(auth0).2
        && logout_key@ == provider_keys(auth0).3);
    let base_url = match require_env(env, "PRIOR_WEB_BASE_URL") {
        Ok(v) => v,
        Err(e) => return Err(e),
    };
    if !check_absolute_http_url(base_url.as_str()) {
        return Err(invalid_url("PRIOR_WEB_BASE_URL"));
    }
    let provider = if auth0 {
        let domain = match require_env(env, "AUTH0_DOMAIN") {
            Ok(v) => v,
            Err(e) => return Err(e),
        };
        AuthProvider::Auth0 { domain, connection: read_env(env, "AUTH0_GITHUB_CONNECTION") }
    } else {
        AuthProvider::GitHub
    };
    let client_secret = match require_env(env, secret_key) {
        Ok(v) => v,
        Err(e) => return Err(e),
    };
    let base = trim_end_matching(base_url.as_str(), '/');
    let callback_url = match read_url_env(env, callback_key) {
        Ok(Some(v)) => v,
        Ok(None) => concat2(base.as_str(), "/auth/callback"),
        Err(e) => return Err(e),
    };
    let logout_return_url = match read_url_env(env, logout_key) {
        Ok(Some(v)) => v,
        Ok(None) => concat2(base.as_str(), "/"),
        Err(e) => return Err(e),
    };
    let session_secret = match require_env(env, "PRIOR_WEB_SESSION_SECRET") {
        Ok(v) => v,
        Err(e) => return Err(e),
    };
    let scopes = if auth0 {
        auth0_scope_list()
    } else {
        scopes_from(read_env(env, "GITHUB_OAUTH_SCOPES"))
    };
    let secure_cookies = secure_from(
        read_env(env, "PRIOR_WEB_SECURE_COOKIES"),
        base_url.as_str(),
        debug_build,
    );
    Ok(
        Some(
            AuthConfig {
                provider,
                client_id,
                client_secret,
                callback_url,
                logout_return_url,
                session_secret,
                scopes,
                secure_cookies,
            },
        ),
    )
}

impl AuthConfig {
    /// The sign-in settings of this environment. GitHub OAuth when
    /// `GITHUB_CLIENT_ID` is set; else Auth0 when `AUTH0_CLIENT_ID` is set;
    /// else `Ok(None)` (auth is off on purpose). An error names the first
    /// variable at fault when auth is only partly configured (a required
    /// variable is missing) or holds an invalid value (`PRIOR_WEB_BASE_URL`,
    /// or a given callback or logout return URL, that is not an absolute
    /// http(s) URL).
    pub fn from_env(env: &Vec<(String, String)>, debug_build: bool) -> (r: Result<Option<Self>, String>)
        ensures
            if env_read(env@, "GITHUB_CLIENT_ID"@) is Some {
                config_loaded(env@, debug_build, false, r)
            } else if env_read(env@, "AUTH0_CLIENT_ID"@) is Some {
                config_loaded(env@, debug_build, true, r)
            } else {
                r matches Ok(None)
            },
    {
        match read_env(env, "GITHUB_CLIENT_ID") {
            Some(id) => load_config(env, debug_build, false, id),
            None => match read_env(env, "AUTH0_CLIENT_ID") {
                Some(id) => load_config(env, debug_build, true, id),
                None => Ok(None),
            },
        }
    }
}

} // verus!
