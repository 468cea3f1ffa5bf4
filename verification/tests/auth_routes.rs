use prior_web::auth::config::{AuthConfig, AuthProvider};
use prior_web::auth::routes::{
    auth_denied_redirect_url, authorize_url, build_github_token_at, callback, callback_success,
    login, login_failed_redirect_url, logout, primary_verified_email, random_token,
    sanitize_return_to, token_request_form, token_url, user_from_auth0, user_from_github, user_url,
    Auth0UserInfo, CallbackQuery, CallbackStep,
    CookieChange, GitHubAccessTokenResponse, GitHubUserEmailResponse, GitHubUserResponse,
    LoginQuery, LoginStep,
};
use prior_web::auth::session::AuthFlowCookie;

fn config() -> AuthConfig {
    AuthConfig {
        provider: AuthProvider::GitHub,
        client_id: "cid".to_string(),
        client_secret: "sec".to_string(),
        callback_url: "https://web.test/auth/callback".to_string(),
        logout_return_url: "https://web.test/".to_string(),
        session_secret: "s".to_string(),
        scopes: vec!["read:user".to_string(), "repo".to_string()],
        secure_cookies: true,
    }
}

fn auth0_config(connection: Option<&str>) -> AuthConfig {
    AuthConfig {
        provider: AuthProvider::Auth0 {
            domain: "tenant.auth0.com".to_string(),
            connection: connection.map(str::to_string),
        },
        scopes: vec!["openid".to_string(), "profile".to_string(), "email".to_string()],
        ..config()
    }
}

fn query(code: Option<&str>, state: Option<&str>, error: Option<&str>) -> CallbackQuery {
    CallbackQuery {
        code: code.map(str::to_string),
        state: state.map(str::to_string),
        error: error.map(str::to_string),
        error_description: None,
    }
}

fn flow() -> Option<Result<AuthFlowCookie, String>> {
    Some(Ok(AuthFlowCookie { csrf_state: "abc".to_string(), return_to: "/app/runs".to_string() }))
}

#[test]
fn return_to_is_kept_local() {
    assert_eq!(sanitize_return_to(Some("/app/x")), "/app/x");
    assert_eq!(sanitize_return_to(Some("//evil.test")), "/app");
    assert_eq!(sanitize_return_to(Some("https://evil.test")), "/app");
    assert_eq!(sanitize_return_to(Some("")), "/app");
    assert_eq!(sanitize_return_to(None), "/app");
    assert_eq!(sanitize_return_to(Some("/")), "/");
}

#[test]
fn denied_url_percent_encodes_reason() {
    assert_eq!(login_failed_redirect_url(), "/auth/denied?reason=login_failed");
    assert_eq!(auth_denied_redirect_url("access_denied"), "/auth/denied?reason=access_denied");
    assert_eq!(auth_denied_redirect_url("a b/é~"), "/auth/denied?reason=a%20b%2F%C3%A9~");
}

#[test]
fn authorize_url_encodes_each_parameter() {
    let url = authorize_url(&config(), "st8");
    assert_eq!(
        url,
        "https://github.com/login/oauth/authorize?client_id=cid&redirect_uri=https%3A%2F%2Fweb.test%2Fauth%2Fcallback&scope=read%3Auser%20repo&state=st8"
    );
}

#[test]
fn random_tokens_are_hex() {
    let a = random_token();
    assert_eq!(a.len(), 64);
    assert!(a.chars().all(|c| c.is_ascii_hexdigit() && !c.is_ascii_uppercase()));
}

#[test]
fn login_without_auth_fails() {
    match login(None, &LoginQuery { return_to: None }) {
        LoginStep::Failed { message } => assert_eq!(message, "github auth is not configured"),
        other => panic!("unexpected {other:?}"),
    }
}

#[test]
fn login_builds_flow_and_redirect() {
    let c = config();
    match login(Some(&c), &LoginQuery { return_to: Some("//x".to_string()) }) {
        LoginStep::Authorize { flow, location } => {
            assert_eq!(flow.return_to, "/app");
            assert_eq!(flow.csrf_state.len(), 64);
            assert_eq!(location, authorize_url(&c, &flow.csrf_state));
        }
        other => panic!("unexpected {other:?}"),
    }
}

#[test]
fn callback_checks_in_order() {
    let q = query(Some("code1"), Some("abc"), None);
    assert!(matches!(callback(false, &q, flow()), CallbackStep::Failed { message } if message == "github auth is not configured"));
    let denied = query(Some("c"), Some("abc"), Some("access_denied"));
    assert!(matches!(callback(true, &denied, flow()), CallbackStep::Denied { location } if location == "/auth/denied?reason=access_denied"));
    assert!(matches!(callback(true, &q, None), CallbackStep::Failed { message } if message == "missing auth flow state cookie"));
    assert!(matches!(callback(true, &q, Some(Err("eof".to_string()))), CallbackStep::Failed { message } if message == "invalid auth flow state cookie: eof"));
    let no_state = query(Some("c"), None, None);
    assert!(matches!(callback(true, &no_state, flow()), CallbackStep::Failed { message } if message == "missing callback state"));
    let wrong = query(Some("c"), Some("abd"), None);
    assert!(matches!(callback(true, &wrong, flow()), CallbackStep::Failed { message } if message == "callback state mismatch"));
    let no_code = query(None, Some("abc"), None);
    assert!(matches!(callback(true, &no_code, flow()), CallbackStep::Failed { message } if message == "missing authorization code"));
    match callback(true, &q, flow()) {
        CallbackStep::Exchange { code, return_to } => {
            assert_eq!(code, "code1");
            assert_eq!(return_to, "/app/runs");
        }
        other => panic!("unexpected {other:?}"),
    }
}

#[test]
fn token_form_fields() {
    let f = token_request_form(&config(), "xyz");
    assert_eq!(
        f,
        vec![
            ("client_id".to_string(), "cid".to_string()),
            ("client_secret".to_string(), "sec".to_string()),
            ("code".to_string(), "xyz".to_string()),
            ("redirect_uri".to_string(), "https://web.test/auth/callback".to_string()),
        ]
    );
}

#[test]
fn github_token_expiries_and_scopes() {
    let t = build_github_token_at(
        GitHubAccessTokenResponse {
            access_token: "at".to_string(),
            token_type: "bearer".to_string(),
            scope: Some("repo, read:user,,".to_string()),
            expires_in: Some(3600),
            refresh_token: Some("rt".to_string()),
            refresh_token_expires_in: None,
        },
        1_000,
    );
    assert_eq!(t.access_token, "at");
    assert_eq!(t.scopes, vec!["repo", "read:user"]);
    assert_eq!(t.expires_at_unix, Some(4_600));
    assert_eq!(t.refresh_token.as_deref(), Some("rt"));
    assert_eq!(t.refresh_token_expires_at_unix, None);
    let bare = build_github_token_at(
        GitHubAccessTokenResponse {
            access_token: "a".to_string(),
            token_type: "bearer".to_string(),
            scope: None,
            expires_in: None,
            refresh_token: None,
            refresh_token_expires_in: Some(-5),
        },
        10,
    );
    assert!(bare.scopes.is_empty());
    assert_eq!(bare.refresh_token_expires_at_unix, Some(5));
}

#[test]
fn github_user_mapping() {
    let u = user_from_github(
        GitHubUserResponse {
            id: 42,
            login: "octo".to_string(),
            name: None,
            email: None,
            avatar_url: Some("https://a".to_string()),
        },
        Some("o@x.test".to_string()),
    );
    assert_eq!(u.sub, "github:42");
    assert_eq!(u.display_name.as_deref(), Some("octo"));
    assert_eq!(u.email.as_deref(), Some("o@x.test"));
    let named = user_from_github(
        GitHubUserResponse {
            id: -1,
            login: "l".to_string(),
            name: Some("Name".to_string()),
            email: Some("own@x".to_string()),
            avatar_url: None,
        },
        Some("other@x".to_string()),
    );
    assert_eq!(named.sub, "github:-1");
    assert_eq!(named.display_name.as_deref(), Some("Name"));
    assert_eq!(named.email.as_deref(), Some("own@x"));
}

#[test]
fn primary_verified_email_is_first_match() {
    let e = |email: &str, primary: bool, verified: bool| GitHubUserEmailResponse {
        email: email.to_string(),
        primary,
        verified,
    };
    assert_eq!(
        primary_verified_email(vec![e("a", true, false), e("b", false, true), e("c", true, true), e("d", true, true)]),
        Some("c".to_string())
    );
    assert_eq!(primary_verified_email(vec![e("a", true, false)]), None);
    assert_eq!(primary_verified_email(vec![]), None);
}

#[test]
fn callback_success_swaps_cookies() {
    let r = callback_success(false, "{json}".to_string(), "/app".to_string());
    assert_eq!(r.location, "/app");
    match &r.cookie_changes[0] {
        CookieChange::Remove(c) => {
            assert_eq!(c.name, "prior_web_auth_flow");
            assert_eq!(c.max_age_seconds, 0);
            assert!(!c.secure);
        }
        other => panic!("unexpected {other:?}"),
    }
    match &r.cookie_changes[1] {
        CookieChange::Add(c) => {
            assert_eq!(c.name, "prior_web_session");
            assert_eq!(c.value, "{json}");
            assert_eq!(c.max_age_seconds, 28_800);
            assert!(c.http_only);
            assert!(c.same_site_lax);
            assert_eq!(c.path, "/");
        }
        other => panic!("unexpected {other:?}"),
    }
}

#[test]
fn logout_clears_both_cookies() {
    let none = logout(None);
    assert_eq!(none.location, "/");
    assert!(none.cookie_changes.is_empty());
    let c = config();
    let r = logout(Some(&c));
    assert_eq!(r.location, "https://web.test/");
    let names: Vec<String> = r
        .cookie_changes
        .iter()
        .map(|change| match change {
            CookieChange::Remove(c) => c.name.clone(),
            CookieChange::Add(_) => panic!("logout adds no cookie"),
        })
        .collect();
    assert_eq!(names, vec!["prior_web_session", "prior_web_auth_flow"]);
}

#[test]
fn auth0_authorize_url() {
    assert_eq!(
        authorize_url(&auth0_config(None), "st8"),
        "https://tenant.auth0.com/authorize?response_type=code&client_id=cid&redirect_uri=https%3A%2F%2Fweb.test%2Fauth%2Fcallback&scope=openid%20profile%20email&state=st8"
    );
    assert_eq!(
        authorize_url(&auth0_config(Some("github")), "st8"),
        "https://tenant.auth0.com/authorize?response_type=code&client_id=cid&redirect_uri=https%3A%2F%2Fweb.test%2Fauth%2Fcallback&scope=openid%20profile%20email&state=st8&connection=github"
    );
}

#[test]
fn auth0_token_form_and_endpoints() {
    let f = token_request_form(&auth0_config(None), "xyz");
    assert_eq!(
        f,
        vec![
            ("grant_type".to_string(), "authorization_code".to_string()),
            ("client_id".to_string(), "cid".to_string()),
            ("client_secret".to_string(), "sec".to_string()),
            ("code".to_string(), "xyz".to_string()),
            ("redirect_uri".to_string(), "https://web.test/auth/callback".to_string()),
        ]
    );
    assert_eq!(token_url(&auth0_config(None)), "https://tenant.auth0.com/oauth/token");
    assert_eq!(user_url(&auth0_config(None)), "https://tenant.auth0.com/userinfo");
    assert_eq!(token_url(&config()), "https://github.com/login/oauth/access_token");
    assert_eq!(user_url(&config()), "https://api.github.com/user");
}

#[test]
fn auth0_user_mapping() {
    let u = user_from_auth0(Auth0UserInfo {
        sub: "github|42".to_string(),
        name: None,
        nickname: Some("octo".to_string()),
        email: Some("o@x.test".to_string()),
        picture: Some("https://img.test/o.png".to_string()),
    });
    assert_eq!(u.sub, "github|42");
    assert_eq!(u.display_name.as_deref(), Some("octo"));
    assert_eq!(u.email.as_deref(), Some("o@x.test"));
    assert_eq!(u.avatar_url.as_deref(), Some("https://img.test/o.png"));
    let named = user_from_auth0(Auth0UserInfo {
        sub: "s".to_string(),
        name: Some("Octo Cat".to_string()),
        nickname: Some("octo".to_string()),
        email: None,
        picture: None,
    });
    assert_eq!(named.display_name.as_deref(), Some("Octo Cat"));
}
