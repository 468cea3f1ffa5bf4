//! The dashboard page: which shell it shows, and its interface state with the
//! changes each user action or server message makes to it.
use std::collections::BTreeSet;
use vstd::prelude::*;
use vstd::string::*;

use crate::net::factory::FactoryDashboardView;
use crate::net::prior::{RepoImportResult, RoomMessageEntry};
use crate::pages::dashboard::live::LiveEffect;
use crate::pages::dashboard::state::{
    CenterMode, ChatMessage, RepoImportFeedback, SidebarFilter,
};
use crate::pages::dashboard::view::{
    chat_view, chat_views, import_feedback, import_step, outgoing_message, reply_views,
    room_reply_messages, toggle_selected_repo, toggle_star, toggled, error_chat_message,
    human_message, ImportStep, parse_repo_spec_spec,
};
use crate::state::auth::{AuthState, CurrentUser};
use crate::text::{copy_string, opt_view, str_eq, trim_ws};

pub mod live;
pub mod markdown;
pub mod state;
pub mod view;

verus! {

/// Which version of the page to show.
#[derive(Debug, Clone)]
pub enum PageShell {
    /// The session is still being looked up.
    Loading,
    Authenticated(CurrentUser),
    /// No one is signed in: offer the login.
    Unauthenticated,
    /// The session lookup failed with this error.
    SessionError(String),
}

/// The shell for the state of the session lookup.
pub fn page_shell(auth: Option<Result<AuthState, String>>) -> (r: PageShell)
    ensures
        match auth {
            None => r is Loading,
            Some(Ok(AuthState::Authenticated(u))) => r == PageShell::Authenticated(u),
            Some(Ok(AuthState::Anonymous)) => r is Unauthenticated,
            Some(Err(e)) => r == PageShell::SessionError(e),
        },
{
    match auth {
        None => PageShell::Loading,
        Some(Ok(AuthState::Authenticated(u))) => PageShell::Authenticated(u),
        Some(Ok(AuthState::Anonymous)) => PageShell::Unauthenticated,
        Some(Err(e)) => PageShell::SessionError(e),
    }
}

/// The dashboard data to draw: the fetched view, or no runs while it loads,
/// when it failed, or when it was not fetched.
pub fn dashboard_or_empty(result: Option<Option<Result<FactoryDashboardView, String>>>) -> (r:
    FactoryDashboardView)
    ensures
        match result {
            Some(Some(Ok(v))) => r == v,
            _ => r.runs@.len() == 0,
        },
{
    match result {
        Some(Some(Ok(v))) => v,
        _ => FactoryDashboardView { runs: Vec::new() },
    }
}

/// A room the live channel joins when it is selected: any but the shared
/// `#general` placeholder (or none).
pub fn joins_room(room: &str) -> (r: bool)
    ensures
        r == (room@.len() > 0 && room@ != "#general"@),
{
    room.unicode_len() > 0 && !str_eq(room, "#general")
}

/// A message the live channel did not take goes to the server function
/// instead: the same room and text, exactly when the live send failed.
pub fn send_fallback(live_sent: bool, room: String, content: String) -> (r: Option<(String, String)>)
    ensures
        live_sent ==> r is None,
        !live_sent ==> r == Some((room, content)),
{
    if live_sent {
        None
    } else {
        Some((room, content))
    }
}

/// The dashboard's interface state.
#[derive(Debug)]
pub struct DashboardUi {
    pub selected_run: Option<i64>,
    pub selected_room: String,
    pub selected_repo: Option<String>,
    pub center_mode: CenterMode,
    pub sidebar_filter: SidebarFilter,
    pub starred_runs: BTreeSet<i64>,
    pub chat_messages: Vec<ChatMessage>,
    pub chat_sending: bool,
    pub chat_draft: String,
    pub repo_draft: String,
    pub repo_importing: bool,
    pub repo_feedback: Option<RepoImportFeedback>,
}

impl DashboardUi {
    /// The state a freshly opened dashboard starts in.
    pub fn new() -> (ui: Self)
        ensures
            ui.selected_run is None,
            ui.selected_room@.len() == 0,
            ui.selected_repo is None,
            ui.center_mode == CenterMode::Runs,
            ui.sidebar_filter == SidebarFilter::All,
            ui.starred_runs@.is_empty(),
            ui.chat_messages@.len() == 0,
            !ui.chat_sending,
            ui.chat_draft@.len() == 0,
            ui.repo_draft@.len() == 0,
            !ui.repo_importing,
            ui.repo_feedback is None,
    {
        DashboardUi {
            selected_run: None,
            selected_room: String::new(),
            selected_repo: None,
            center_mode: CenterMode::Runs,
            sidebar_filter: SidebarFilter::All,
            starred_runs: BTreeSet::new(),
            chat_messages: Vec::new(),
            chat_sending: false,
            chat_draft: String::new(),
            repo_draft: String::new(),
            repo_importing: false,
            repo_feedback: None,
        }
    }

    /// Opens a room's conversation: a fresh, idle conversation in that room.
    pub fn open_room(&mut self, room: String)
        ensures
            final(self).selected_room == room,
            final(self).chat_messages@.len() == 0,
            !final(self).chat_sending,
            final(self).center_mode == CenterMode::General,
            final(self).selected_run == old(self).selected_run,
            final(self).selected_repo == old(self).selected_repo,
            final(self).sidebar_filter == old(self).sidebar_filter,
            final(self).starred_runs@ == old(self).starred_runs@,
    {
        self.selected_room = room;
        self.chat_messages = Vec::new();
        self.chat_sending = false;
        self.center_mode = CenterMode::General;
    }

    /// Picks a run filter and shows the run list.
    pub fn set_filter(&mut self, filter: SidebarFilter)
        ensures
            final(self).sidebar_filter == filter,
            final(self).center_mode == CenterMode::Runs,
            final(self).selected_run == old(self).selected_run,
            final(self).selected_repo == old(self).selected_repo,
            final(self).starred_runs@ == old(self).starred_runs@,
            final(self).chat_messages@ == old(self).chat_messages@,
    {
        self.sidebar_filter = filter;
        self.center_mode = CenterMode::Runs;
    }

    /// Selects a run and shows the run list.
    pub fn select_run(&mut self, run_id: i64)
        ensures
            final(self).selected_run == Some(run_id),
            final(self).center_mode == CenterMode::Runs,
            final(self).sidebar_filter == old(self).sidebar_filter,
            final(self).selected_repo == old(self).selected_repo,
            final(self).starred_runs@ == old(self).starred_runs@,
    {
        self.selected_run = Some(run_id);
        self.center_mode = CenterMode::Runs;
    }

    /// Selects a repo, or clears it when it was selected, and shows the run
    /// list.
    pub fn select_repo(&mut self, repo: String)
        ensures
            match old(self).selected_repo {
                Some(c) => if c@ == repo@ {
                    final(self).selected_repo is None
                } else {
                    final(self).selected_repo == Some(repo)
                },
                None => final(self).selected_repo == Some(repo),
            },
            final(self).center_mode == CenterMode::Runs,
            final(self).selected_run == old(self).selected_run,
            final(self).sidebar_filter == old(self).sidebar_filter,
            final(self).starred_runs@ == old(self).starred_runs@,
    {
        let current = self.selected_repo.take();
        self.selected_repo = toggle_selected_repo(current, repo);
        self.center_mode = CenterMode::Runs;
    }

    /// Stars or unstars a run.
    pub fn star(&mut self, run_id: i64)
        ensures
            final(self).starred_runs@ == toggled(old(self).starred_runs@, run_id),
            final(self).selected_run == old(self).selected_run,
            final(self).sidebar_filter == old(self).sidebar_filter,
            final(self).center_mode == old(self).center_mode,
    {
        toggle_star(&mut self.starred_runs, run_id);
    }

    /// Sends the chat draft: unless it is blank or a message is in flight,
    /// the draft is cleared, the user's message is appended, the conversation
    /// waits for Prior, and the room and trimmed text to send are returned
    /// (first to the live channel; see `send_fallback`). Otherwise nothing
    /// changes.
    pub fn begin_send(&mut self) -> (r: Option<(String, String)>)
        ensures
            match r {
                None => old(self).chat_sending || trim_ws(old(self).chat_draft@).len() == 0,
                Some((room, t)) => !old(self).chat_sending && trim_ws(old(self).chat_draft@).len()
                    > 0 && t@ == trim_ws(old(self).chat_draft@) && room@ == old(self).selected_room@,
            },
            r is None ==> final(self).chat_sending == old(self).chat_sending
                && final(self).chat_messages@ == old(self).chat_messages@
                && final(self).chat_draft == old(self).chat_draft,
            r matches Some((_, t)) ==> final(self).chat_sending && final(self).chat_draft@.len() == 0
                && chat_views(final(self).chat_messages@) == chat_views(
                old(self).chat_messages@,
            ).push(("user"@, None, t@, true)),
            final(self).selected_room == old(self).selected_room,
    {
        match outgoing_message(self.chat_draft.as_str(), self.chat_sending) {
            Some(content) => {
                let ghost prev = self.chat_messages@;
                self.chat_draft = String::new();
                self.chat_messages.push(human_message(content.clone()));
                self.chat_sending = true;
                assert(chat_views(self.chat_messages@) =~= chat_views(prev).push(
                    chat_view(self.chat_messages@.last()),
                ));
                Some((copy_string(&self.selected_room), content))
            },
            None => None,
        }
    }

    /// The reply to a message sent without the live channel: its non-blank
    /// replies, or the error, are appended and the conversation is idle again.
    pub fn finish_send(&mut self, result: Result<Vec<RoomMessageEntry>, String>)
        ensures
            !final(self).chat_sending,
            match result {
                Ok(entries) => chat_views(final(self).chat_messages@) == chat_views(
                    old(self).chat_messages@,
                ) + reply_views(entries@),
                Err(e) => chat_views(final(self).chat_messages@) == chat_views(
                    old(self).chat_messages@,
                ).push(("error"@, None, "Error: "@ + e@, false)),
            },
            final(self).selected_room == old(self).selected_room,
    {
        let ghost prev = self.chat_messages@;
        match result {
            Ok(entries) => {
                let mut replies = room_reply_messages(entries);
                let ghost added = replies@;
                self.chat_messages.append(&mut replies);
                assert(chat_views(self.chat_messages@) =~= chat_views(prev) + chat_views(added));
            },
            Err(e) => {
                self.chat_messages.push(error_chat_message(e.as_str()));
                assert(chat_views(self.chat_messages@) =~= chat_views(prev).push(
                    chat_view(self.chat_messages@.last()),
                ));
            },
        }
        self.chat_sending = false;
    }

    /// Applies what the live channel said; returns whether the dashboard data
    /// must be reloaded.
    pub fn apply_live(&mut self, effect: LiveEffect) -> (refresh: bool)
        ensures
            refresh == (effect is Refresh),
            match effect {
                LiveEffect::Ignore => final(self).chat_messages@ == old(self).chat_messages@
                    && final(self).chat_sending == old(self).chat_sending,
                LiveEffect::Push(m) => final(self).chat_messages@ == old(self).chat_messages@.push(m)
                    && final(self).chat_sending == old(self).chat_sending,
                LiveEffect::TurnDone => final(self).chat_messages@ == old(self).chat_messages@
                    && !final(self).chat_sending,
                LiveEffect::Refresh => final(self).chat_messages@ == old(self).chat_messages@
                    && final(self).chat_sending == old(self).chat_sending,
                LiveEffect::Error(m) => final(self).chat_messages@ == old(self).chat_messages@.push(
                    m,
                ) && !final(self).chat_sending,
            },
            final(self).selected_room == old(self).selected_room,
    {
        match effect {
            LiveEffect::Ignore => false,
            LiveEffect::Push(m) => {
                self.chat_messages.push(m);
                false
            },
            LiveEffect::TurnDone => {
                self.chat_sending = false;
                false
            },
            LiveEffect::Refresh => true,
            LiveEffect::Error(m) => {
                self.chat_sending = false;
                self.chat_messages.push(m);
                false
            },
        }
    }

    /// A click on the import button: a blank draft or a running import does
    /// nothing; a draft that names no repo shows why; otherwise the import
    /// starts (the note is cleared) and the repo to import is returned as
    /// owner, name and clone URL.
    pub fn start_import(&mut self) -> (r: Option<(String, String, String)>)
        ensures
            trim_ws(old(self).repo_draft@).len() == 0 || old(self).repo_importing ==> (r is None
                && final(self).repo_importing == old(self).repo_importing
                && final(self).repo_feedback == old(self).repo_feedback),
            !(trim_ws(old(self).repo_draft@).len() == 0 || old(self).repo_importing) ==> match parse_repo_spec_spec(
                trim_ws(old(self).repo_draft@),
            ) {
                Ok((o, n, c)) => r matches Some((ro, rn, rc)) && ro@ == o && rn@ == n && rc@ == c
                    && final(self).repo_importing && final(self).repo_feedback is None,
                Err(e) => r is None && !final(self).repo_importing && (final(self).repo_feedback matches Some(f) && f.message@ == e && f.is_error),
            },
            final(self).repo_draft == old(self).repo_draft,
    {
        match import_step(self.repo_draft.as_str(), self.repo_importing) {
            ImportStep::Ignore => None,
            ImportStep::Invalid(feedback) => {
                self.repo_feedback = Some(feedback);
                None
            },
            ImportStep::Start { owner, name, clone_url } => {
                self.repo_importing = true;
                self.repo_feedback = None;
                Some((owner, name, clone_url))
            },
        }
    }

    /// The import finished: on success the draft is cleared; the note says
    /// what happened; the import button is usable again.
    pub fn finish_import(&mut self, owner: &str, name: &str, result: Result<RepoImportResult, String>)
        ensures
            !final(self).repo_importing,
            result is Ok ==> final(self).repo_draft@.len() == 0,
            result is Err ==> final(self).repo_draft == old(self).repo_draft,
            match result {
                Ok(imported) => final(self).repo_feedback matches Some(f) && !f.is_error
                    && f.message@ == "Tracking "@ + owner@ + "/"@ + name@ + " in "@ + imported.room@,
                Err(e) => final(self).repo_feedback matches Some(f) && f.is_error && f.message@
                    == "Import failed for "@ + owner@ + "/"@ + name@ + ": "@ + e@,
            },
    {
        if result.is_ok() {
            self.repo_draft = String::new();
        }
        self.repo_feedback = Some(import_feedback(owner, name, result));
        self.repo_importing = false;
    }
}

} // verus!
