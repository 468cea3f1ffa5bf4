use prior_web::auth::config::{read_env, require_env, AuthConfig, AuthProvider};

fn env(pairs: &[(&str, &str)]) -> Vec<(String, String)> {
    pairs
        .iter()
        .map(|(k, v)| (k.to_string(), v.to_string()))
        .collect()
}

#[test]
fn from_env_is_none_without_client_id() {
    let e = env(&[("PRIOR_WEB_BASE_URL", "https://x.test")]);
    assert!(matches!(AuthConfig::from_env(&e, false), Ok(None)));
}

#[test]
fn from_env_treats_empty_client_id_as_unset() {
    let e = env(&[("GITHUB_CLIENT_ID", ""), ("PRIOR_WEB_BASE_URL", "https://x.test")]);
    assert!(matches!(AuthConfig::from_env(&e, false), Ok(None)));
}

#[test]
fn from_env_reports_missing_base_url_first() {
    let e = env(&[("GITHUB_CLIENT_ID", "id")]);
    let err = AuthConfig::from_env(&e, false).unwrap_err();
    assert_eq!(err, "missing required env var PRIOR_WEB_BASE_URL");
}

#[test]
fn from_env_reports_missing_client_secret() {
    let e = env(&[("GITHUB_CLIENT_ID", "id"), ("PRIOR_WEB_BASE_URL", "https://x.test")]);
    let err = AuthConfig::from_env(&e, false).unwrap_err();
    assert_eq!(err, "missing required env var GITHUB_CLIENT_SECRET");
}

#[test]
fn from_env_reports_missing_session_secret() {
    let e = env(&[
        ("GITHUB_CLIENT_ID", "id"),
        ("PRIOR_WEB_BASE_URL", "https://x.test"),
        ("GITHUB_CLIENT_SECRET", "s"),
    ]);
    let err = AuthConfig::from_env(&e, false).unwrap_err();
    assert_eq!(err, "missing required env var PRIOR_WEB_SESSION_SECRET");
}

#[test]
fn from_env_builds_defaults() {
    let e = env(&[
        ("GITHUB_CLIENT_ID", "id"),
        ("PRIOR_WEB_BASE_URL", "https://web.test//"),
        ("GITHUB_CLIENT_SECRET", "secret"),
        ("PRIOR_WEB_SESSION_SECRET", "session"),
    ]);
    let c = AuthConfig::from_env(&e, false).unwrap().unwrap();
    assert_eq!(c.client_id, "id");
    assert_eq!(c.client_secret, "secret");
    assert_eq!(c.session_secret, "session");
    assert_eq!(c.callback_url, "https://web.test/auth/callback");
    assert_eq!(c.logout_return_url, "https://web.test/");
    assert_eq!(c.scopes, vec!["read:user", "user:email", "repo"]);
    assert!(c.secure_cookies);
}

#[test]
fn from_env_takes_explicit_values() {
    let e = env(&[
        ("GITHUB_CLIENT_ID", "id"),
        ("PRIOR_WEB_BASE_URL", "https://web.test"),
        ("GITHUB_CLIENT_SECRET", "secret"),
        ("PRIOR_WEB_SESSION_SECRET", "session"),
        ("GITHUB_CALLBACK_URL", "https://cb.test/cb"),
        ("GITHUB_LOGOUT_RETURN_URL", "https://bye.test"),
        ("GITHUB_OAUTH_SCOPES", " read:org, repo  gist ,"),
        ("PRIOR_WEB_SECURE_COOKIES", "FALSE"),
    ]);
    let c = AuthConfig::from_env(&e, false).unwrap().unwrap();
    assert_eq!(c.callback_url, "https://cb.test/cb");
    assert_eq!(c.logout_return_url, "https://bye.test");
    assert_eq!(c.scopes, vec!["read:org", "repo", "gist"]);
    assert!(!c.secure_cookies);
}

#[test]
fn from_env_scopes_that_list_nothing_fall_back() {
    let e = env(&[
        ("GITHUB_CLIENT_ID", "id"),
        ("PRIOR_WEB_BASE_URL", "https://web.test"),
        ("GITHUB_CLIENT_SECRET", "secret"),
        ("PRIOR_WEB_SESSION_SECRET", "session"),
        ("GITHUB_OAUTH_SCOPES", " , ,"),
    ]);
    let c = AuthConfig::from_env(&e, false).unwrap().unwrap();
    assert_eq!(c.scopes, vec!["read:user", "user:email", "repo"]);
}

#[test]
fn secure_cookies_off_only_for_local_debug_builds() {
    let base = |url: &str| {
        env(&[
            ("GITHUB_CLIENT_ID", "id"),
            ("PRIOR_WEB_BASE_URL", url),
            ("GITHUB_CLIENT_SECRET", "secret"),
            ("PRIOR_WEB_SESSION_SECRET", "session"),
        ])
    };
    let local = base("http://127.0.0.1:3000");
    assert!(!AuthConfig::from_env(&local, true).unwrap().unwrap().secure_cookies);
    assert!(AuthConfig::from_env(&local, false).unwrap().unwrap().secure_cookies);
    let remote = base("https://web.test");
    assert!(AuthConfig::from_env(&remote, true).unwrap().unwrap().secure_cookies);
}

#[test]
fn secure_cookies_variable_zero_disables() {
    let mut e = env(&[
        ("GITHUB_CLIENT_ID", "id"),
        ("PRIOR_WEB_BASE_URL", "https://web.test"),
        ("GITHUB_CLIENT_SECRET", "secret"),
        ("PRIOR_WEB_SESSION_SECRET", "session"),
    ]);
    e.push(("PRIOR_WEB_SECURE_COOKIES".to_string(), "0".to_string()));
    assert!(!AuthConfig::from_env(&e, false).unwrap().unwrap().secure_cookies);
    e.pop();
    e.push(("PRIOR_WEB_SECURE_COOKIES".to_string(), "yes".to_string()));
    assert!(AuthConfig::from_env(&e, true).unwrap().unwrap().secure_cookies);
}

#[test]
fn read_env_takes_first_entry_and_skips_empty() {
    let e = env(&[("A", "1"), ("A", "2"), ("B", "")]);
    assert_eq!(read_env(&e, "A").as_deref(), Some("1"));
    assert_eq!(read_env(&e, "B"), None);
    assert_eq!(read_env(&e, "C"), None);
    assert_eq!(require_env(&e, "C").unwrap_err(), "missing required env var C");
    assert_eq!(require_env(&e, "A").unwrap(), "1");
}

fn with_base(base: &str, extra: &[(&str, &str)]) -> Vec<(String, String)> {
    let mut e = env(&[
        ("GITHUB_CLIENT_ID", "cid"),
        ("GITHUB_CLIENT_SECRET", "cs"),
        ("PRIOR_WEB_SESSION_SECRET", "ss"),
        ("PRIOR_WEB_BASE_URL", base),
    ]);
    e.extend(env(extra));
    e
}

#[test]
fn from_env_rejects_a_base_url_that_is_not_a_url() {
    let err = AuthConfig::from_env(&with_base("not a url", &[]), false).unwrap_err();
    assert_eq!(err, "invalid env var PRIOR_WEB_BASE_URL: expected an absolute http(s) URL");
    assert!(AuthConfig::from_env(&with_base("https://", &[]), false).is_err());
    assert!(AuthConfig::from_env(&with_base("ftp://x.test", &[]), false).is_err());
    assert!(AuthConfig::from_env(&with_base("https:///path", &[]), false).is_err());
    assert!(AuthConfig::from_env(&with_base("http://x.test", &[]), false).is_ok());
}

#[test]
fn from_env_rejects_invalid_given_urls() {
    let err = AuthConfig::from_env(&with_base("https://x.test", &[("GITHUB_CALLBACK_URL", "/auth/callback")]), false)
        .unwrap_err();
    assert_eq!(err, "invalid env var GITHUB_CALLBACK_URL: expected an absolute http(s) URL");
    let err = AuthConfig::from_env(
        &with_base("https://x.test", &[("GITHUB_LOGOUT_RETURN_URL", "https://a b")]),
        false,
    )
    .unwrap_err();
    assert_eq!(err, "invalid env var GITHUB_LOGOUT_RETURN_URL: expected an absolute http(s) URL");
}

#[test]
fn url_check() {
    assert!(prior_web::auth::config::check_absolute_http_url("https://web.test/x"));
    assert!(!prior_web::auth::config::check_absolute_http_url("web.test"));
}

fn auth0_env() -> Vec<(String, String)> {
    env(&[
        ("AUTH0_DOMAIN", "tenant.us.auth0.com"),
        ("AUTH0_CLIENT_ID", "a0-id"),
        ("AUTH0_CLIENT_SECRET", "a0-secret"),
        ("AUTH0_CALLBACK_URL", "https://web.test/auth/callback"),
        ("AUTH0_LOGOUT_RETURN_URL", "https://web.test/"),
        ("PRIOR_WEB_BASE_URL", "https://web.test"),
        ("PRIOR_WEB_SESSION_SECRET", "session"),
    ])
}

#[test]
fn from_env_enables_auth0_login() {
    let c = AuthConfig::from_env(&auth0_env(), false).unwrap().unwrap();
    assert!(matches!(&c.provider, AuthProvider::Auth0 { domain, connection: None } if domain == "tenant.us.auth0.com"));
    assert_eq!(c.client_id, "a0-id");
    assert_eq!(c.client_secret, "a0-secret");
    assert_eq!(c.callback_url, "https://web.test/auth/callback");
    assert_eq!(c.logout_return_url, "https://web.test/");
    assert_eq!(c.session_secret, "session");
    assert_eq!(c.scopes, vec!["openid", "profile", "email"]);
}

#[test]
fn from_env_reads_auth0_connection() {
    let mut e = auth0_env();
    e.push(("AUTH0_GITHUB_CONNECTION".to_string(), "github".to_string()));
    let c = AuthConfig::from_env(&e, false).unwrap().unwrap();
    assert!(matches!(&c.provider, AuthProvider::Auth0 { connection: Some(k), .. } if k == "github"));
}

#[test]
fn from_env_requires_auth0_domain() {
    let e: Vec<(String, String)> = auth0_env().into_iter().filter(|(k, _)| k != "AUTH0_DOMAIN").collect();
    assert_eq!(AuthConfig::from_env(&e, false).unwrap_err(), "missing required env var AUTH0_DOMAIN");
}

#[test]
fn from_env_prefers_github_when_both_are_set() {
    let mut e = auth0_env();
    e.push(("GITHUB_CLIENT_ID".to_string(), "gh".to_string()));
    e.push(("GITHUB_CLIENT_SECRET".to_string(), "ghs".to_string()));
    let c = AuthConfig::from_env(&e, false).unwrap().unwrap();
    assert!(matches!(c.provider, AuthProvider::GitHub));
    assert_eq!(c.client_id, "gh");
}
