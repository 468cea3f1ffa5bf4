//! The dashboard's interface state.
use vstd::prelude::*;

use crate::net::prior::RepoEntry;
use crate::state::auth::AuthState;

verus! {

/// Which runs the run list shows.
#[derive(Debug, Clone, Copy, PartialEq, Eq, Structural)]
pub enum SidebarFilter {
    All,
    NeedsAttention,
    Starred,
    Completed,
}

/// What the center column shows.
#[derive(Debug, Clone, Copy, PartialEq, Eq, Structural)]
pub enum CenterMode {
    Runs,
    General,
}

/// One message of the conversation view.
#[derive(Debug, Clone)]
pub struct ChatMessage {
    pub topic: String,
    pub actor: Option<String>,
    pub content: String,
    pub is_human: bool,
}

/// The note shown under the repo import box.
#[derive(Debug, Clone)]
pub struct RepoImportFeedback {
    pub message: String,
    pub is_error: bool,
}

/// The tracked-repo list as the sidebar shows it.
#[derive(Debug, Clone)]
pub struct RepoSidebarState {
    pub repos: Vec<RepoEntry>,
    pub loading: bool,
    pub error: Option<String>,
}

/// Gate, dashboard and repo data are only fetched for a signed-in user.
pub open spec fn loads_data_spec(auth_state: Option<Result<AuthState, String>>) -> bool {
    auth_state matches Some(Ok(AuthState::Authenticated(_)))
}

/// Whether the dashboard fetches its data for this auth state.
pub fn loads_data(auth_state: &Option<Result<AuthState, String>>) -> (r: bool)
    ensures
        r == loads_data_spec(*auth_state),
{
    match auth_state {
        Some(Ok(AuthState::Authenticated(_))) => true,
        _ => false,
    }
}

/// The sidebar's repo list from the state of its fetch: not answered yet
/// (loading), answered with repos or an error, or skipped (no user).
pub fn repo_sidebar_state(repos_state: Option<Option<Result<Vec<RepoEntry>, String>>>) -> (r:
    RepoSidebarState)
    ensures
        match repos_state {
            None => r.repos@.len() == 0 && r.loading && r.error is None,
            Some(Some(Ok(repos))) => r.repos@ == repos@ && !r.loading && r.error is None,
            Some(Some(Err(e))) => r.repos@.len() == 0 && !r.loading && r.error == Some(e),
            Some(None) => r.repos@.len() == 0 && !r.loading && r.error is None,
        },
{
    match repos_state {
        None => RepoSidebarState { repos: Vec::new(), loading: true, error: None },
        Some(Some(Ok(repos))) => RepoSidebarState { repos, loading: false, error: None },
        Some(Some(Err(error))) => RepoSidebarState {
            repos: Vec::new(),
            loading: false,
            error: Some(error),
        },
        Some(None) => RepoSidebarState { repos: Vec::new(), loading: false, error: None },
    }
}

} // verus!
