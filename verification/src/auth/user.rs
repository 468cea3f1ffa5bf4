//! Resolving the user behind a request from its session.
use vstd::prelude::*;
use vstd::string::*;

use crate::auth::session::{GitHubToken, SessionCookie, is_clock_reading, now_unix};
use crate::state::auth::{AuthState, CurrentUser};

verus! {

/// A session still valid at `now`: neither it nor its token has expired.
pub open spec fn session_valid_at(s: SessionCookie, now: int) -> bool {
    !s.expired_at(now) && !s.github_token.expired_at(now)
}

/// The session if it is still valid at `now`.
pub fn valid_session_at(session: Option<SessionCookie>, now: i64) -> (r: Option<SessionCookie>)
    ensures
        match session {
            Some(s) => if session_valid_at(s, now as int) {
                r == Some(s)
            } else {
                r is None
            },
            None => r is None,
        },
{
    match session {
        Some(s) => {
            if s.is_expired_at(now) || s.github_token.is_expired_at(now) {
                None
            } else {
                Some(s)
            }
        },
        None => None,
    }
}

/// The session read from the request's cookie, kept only while the clock says
/// it is valid.
pub fn valid_session(session: Option<SessionCookie>) -> (r: Option<SessionCookie>)
    ensures
        exists|now: int|
            #[trigger] is_clock_reading(now) && match session {
                Some(s) => if session_valid_at(s, now) {
                    r == Some(s)
                } else {
                    r is None
                },
                None => r is None,
            },
{
    let now = now_unix();
    assert(is_clock_reading(now as int));
    valid_session_at(session, now)
}

/// The session of a request: with auth configured, the session cookie as
/// decoded (absent, or its value or the decoding error), kept only when it
/// decoded and the clock says it is still valid.
pub fn current_session_from_cookie(
    auth_configured: bool,
    cookie: Option<Result<SessionCookie, String>>,
) -> (r: Option<SessionCookie>)
    ensures
        !auth_configured ==> r is None,
        auth_configured ==> match cookie {
            Some(Ok(s)) => exists|now: int|
                #[trigger] is_clock_reading(now) && if session_valid_at(s, now) {
                    r == Some(s)
                } else {
                    r is None
                },
            _ => r is None,
        },
{
    if !auth_configured {
        return None;
    }
    match cookie {
        Some(Ok(s)) => valid_session(Some(s)),
        _ => None,
    }
}

/// The auth state of a request with this (valid) session.
pub fn auth_state_from_session(session: Option<SessionCookie>) -> (r: AuthState)
    ensures
        match session {
            Some(s) => r == AuthState::Authenticated(s.user),
            None => r == AuthState::Anonymous,
        },
{
    match session {
        Some(s) => AuthState::Authenticated(s.user),
        None => AuthState::Anonymous,
    }
}

/// The session of the current server request: the request context must be
/// there and the request must carry a valid session.
pub fn require_current_session(has_request_parts: bool, session: Option<SessionCookie>) -> (r: Result<
    SessionCookie,
    String,
>)
    ensures
        !has_request_parts ==> (r matches Err(e) && e@ == "missing request parts in server context"@),
        has_request_parts ==> match session {
            Some(s) => r == Ok::<SessionCookie, String>(s),
            None => r matches Err(e) && e@ == "authentication required"@,
        },
{
    if !has_request_parts {
        return Err(String::from_str("missing request parts in server context"));
    }
    match session {
        Some(s) => Ok(s),
        None => Err(String::from_str("authentication required")),
    }
}

/// The user of the current request's session.
pub fn require_current_user(session: Result<SessionCookie, String>) -> (r: Result<CurrentUser, String>)
    ensures
        match session {
            Ok(s) => r == Ok::<CurrentUser, String>(s.user),
            Err(e) => r == Err::<CurrentUser, String>(e),
        },
{
    match session {
        Ok(s) => Ok(s.user),
        Err(e) => Err(e),
    }
}

/// The GitHub token of the current request's session.
pub fn require_github_access_token(session: Result<SessionCookie, String>) -> (r: Result<
    GitHubToken,
    String,
>)
    ensures
        match session {
            Ok(s) => r == Ok::<GitHubToken, String>(s.github_token),
            Err(e) => r == Err::<GitHubToken, String>(e),
        },
{
    match session {
        Ok(s) => Ok(s.github_token),
        Err(e) => Err(e),
    }
}

} // verus!
