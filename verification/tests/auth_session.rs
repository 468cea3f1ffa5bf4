use prior_web::auth::session::{
    flow_cookie, flow_removal_cookie, session_cookie, session_removal_cookie, GitHubToken,
    SessionCookie, FLOW_SECONDS, SESSION_SECONDS,
};
use prior_web::auth::user::{
    auth_state_from_session, current_session_from_cookie, require_current_session, require_current_user,
    require_github_access_token, valid_session, valid_session_at,
};
use prior_web::state::auth::{AuthState, CurrentUser};

fn user() -> CurrentUser {
    CurrentUser {
        sub: "github:1".to_string(),
        display_name: None,
        email: Some("e@x".to_string()),
        avatar_url: None,
    }
}

fn token(expires: Option<i64>) -> GitHubToken {
    GitHubToken {
        access_token: "at".to_string(),
        token_type: "bearer".to_string(),
        scopes: vec![],
        expires_at_unix: expires,
        refresh_token: None,
        refresh_token_expires_at_unix: None,
    }
}

#[test]
fn token_expiry() {
    assert!(!token(None).is_expired_at(i64::MAX));
    assert!(token(Some(100)).is_expired_at(100));
    assert!(!token(Some(100)).is_expired_at(99));
    assert!(!token(None).is_expired());
    assert!(token(Some(0)).is_expired());
}

#[test]
fn session_expiry_follows_token() {
    let s = SessionCookie::new_with_default(user(), token(Some(500)), 9_999);
    assert_eq!(s.expires_at_unix, 500);
    let d = SessionCookie::new_with_default(user(), token(None), 9_999);
    assert_eq!(d.expires_at_unix, 9_999);
    assert!(d.is_expired_at(9_999));
    assert!(!d.is_expired_at(9_998));
    let n = SessionCookie::new(user(), token(Some(77)));
    assert_eq!(n.expires_at_unix, 77);
    assert!(n.is_expired());
    let fresh = SessionCookie::new(user(), token(None));
    assert!(!fresh.is_expired());
}

#[test]
fn cookie_attributes() {
    let c = session_cookie("v".to_string(), true);
    assert_eq!(c.name, "prior_web_session");
    assert_eq!(c.max_age_seconds, SESSION_SECONDS);
    assert!(c.secure && c.http_only && c.same_site_lax);
    let r = session_removal_cookie(false);
    assert_eq!(r.value, "");
    assert_eq!(r.max_age_seconds, 0);
    let f = flow_cookie("{}".to_string(), false);
    assert_eq!(f.name, "prior_web_auth_flow");
    assert_eq!(f.max_age_seconds, FLOW_SECONDS);
    assert_eq!(FLOW_SECONDS, 600);
    assert_eq!(flow_removal_cookie(true).max_age_seconds, 0);
}

#[test]
fn sessions_are_valid_until_either_expires() {
    let s = SessionCookie::new_with_default(user(), token(None), 1_000);
    assert!(valid_session_at(Some(s.clone()), 999).is_some());
    assert!(valid_session_at(Some(s), 1_000).is_none());
    let mut t = SessionCookie::new_with_default(user(), token(None), 1_000);
    t.github_token.expires_at_unix = Some(10);
    assert!(valid_session_at(Some(t), 10).is_none());
    assert!(valid_session_at(None, 0).is_none());
    assert!(valid_session(None).is_none());
    let far = SessionCookie::new_with_default(user(), token(None), i64::MAX);
    assert!(valid_session(Some(far)).is_some());
}

#[test]
fn current_user_requires_a_session() {
    assert!(matches!(auth_state_from_session(None), AuthState::Anonymous));
    let s = SessionCookie::new_with_default(user(), token(None), 5);
    match auth_state_from_session(Some(s.clone())) {
        AuthState::Authenticated(u) => assert_eq!(u.sub, "github:1"),
        AuthState::Anonymous => panic!("expected a user"),
    }
    assert_eq!(require_current_session(false, Some(s.clone())).unwrap_err(), "missing request parts in server context");
    assert_eq!(require_current_session(true, None).unwrap_err(), "authentication required");
    let ok = require_current_session(true, Some(s));
    assert_eq!(require_current_user(ok.clone()).unwrap().sub, "github:1");
    assert_eq!(require_github_access_token(ok).unwrap().access_token, "at");
    assert_eq!(require_current_user(Err("authentication required".to_string())).unwrap_err(), "authentication required");
}

#[test]
fn user_label_order() {
    let mut u = user();
    assert_eq!(u.label(), "e@x");
    u.display_name = Some("Dee".to_string());
    assert_eq!(u.label(), "Dee");
    u.display_name = None;
    u.email = None;
    assert_eq!(u.label(), "github:1");
    assert_eq!(u.duplicate().sub, "github:1");
}

#[test]
fn session_from_cookie() {
    let far = SessionCookie::new_with_default(user(), token(None), i64::MAX);
    assert!(current_session_from_cookie(false, Some(Ok(far.clone()))).is_none());
    assert!(current_session_from_cookie(true, Some(Ok(far))).is_some());
    assert!(current_session_from_cookie(true, Some(Err("bad".to_string()))).is_none());
    assert!(current_session_from_cookie(true, None).is_none());
    let old = SessionCookie::new_with_default(user(), token(None), 1);
    assert!(current_session_from_cookie(true, Some(Ok(old))).is_none());
}
