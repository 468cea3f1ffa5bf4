//! What the dashboard shows: which runs are listed and selected, and the text
//! and classes of its panes.
use std::collections::BTreeSet;
use vstd::prelude::*;
use vstd::string::*;

use crate::net::factory::{FactoryLifecyclePhaseDisplay, FactoryRunDisplay};
use crate::net::prior::{RepoEntry, RepoImportResult, RoomMessageEntry};
use crate::state::auth::CurrentUser;
use crate::state::gate::{ConnectionStatus, GateUiState};
use crate::text::{
    char_to_uppercase, concat2, concat3, copy_string, decimal, ends_with, i64_decimal,
    opt_view, signed_decimal, split_nonempty, split_nonempty_pieces, starts_with, str_ends_with,
    str_eq, strip_prefix_str, trim, trim_end_char, trim_end_matching, trim_end_seq, trim_end_str,
    trim_ws, upper_of, usize_decimal,
};

verus! {

use crate::pages::dashboard::state::{ChatMessage, RepoImportFeedback, SidebarFilter};

broadcast use vstd::std_specs::btree::group_btree_axioms, vstd::laws_cmp::group_laws_cmp;

/// Whether the filter lets `run` through.
pub open spec fn run_in_filter(run: FactoryRunDisplay, filter: SidebarFilter, starred: Set<i64>) -> bool {
    match filter {
        SidebarFilter::All => true,
        SidebarFilter::NeedsAttention => run.needs_attention,
        SidebarFilter::Starred => starred.contains(run.id),
        SidebarFilter::Completed => run.completed,
    }
}

/// Whether `run` belongs to the selected repo (any repo when none is selected).
pub open spec fn run_in_repo(run: FactoryRunDisplay, repo: Option<Seq<char>>) -> bool {
    match repo {
        Some(r) => run.repo_label@ == r,
        None => true,
    }
}

pub open spec fn run_shown(
    run: FactoryRunDisplay,
    filter: SidebarFilter,
    starred: Set<i64>,
    repo: Option<Seq<char>>,
) -> bool {
    run_in_filter(run, filter, starred) && run_in_repo(run, repo)
}

/// The runs the list shows, in their order.
pub open spec fn shown_runs(
    runs: Seq<FactoryRunDisplay>,
    filter: SidebarFilter,
    starred: Set<i64>,
    repo: Option<Seq<char>>,
) -> Seq<FactoryRunDisplay>
    decreases runs.len(),
{
    if runs.len() == 0 {
        Seq::empty()
    } else {
        let rest = shown_runs(runs.drop_last(), filter, starred, repo);
        if run_shown(runs.last(), filter, starred, repo) {
            rest.push(runs.last())
        } else {
            rest
        }
    }
}

/// Number of runs that need attention.
pub open spec fn attention_count(runs: Seq<FactoryRunDisplay>) -> nat
    decreases runs.len(),
{
    if runs.len() == 0 {
        0
    } else {
        attention_count(runs.drop_last()) + if runs.last().needs_attention {
            1nat
        } else {
            0nat
        }
    }
}

/// Number of completed runs.
pub open spec fn completed_count(runs: Seq<FactoryRunDisplay>) -> nat
    decreases runs.len(),
{
    if runs.len() == 0 {
        0
    } else {
        completed_count(runs.drop_last()) + if runs.last().completed {
            1nat
        } else {
            0nat
        }
    }
}

pub open spec fn has_run_id(runs: Seq<FactoryRunDisplay>, id: i64) -> bool {
    exists|k: int| 0 <= k < runs.len() && #[trigger] runs[k].id == id
}

/// The run kept selected: the current one while the list still shows it,
/// else the first listed run.
pub open spec fn selected_id_spec(current: Option<i64>, shown: Seq<FactoryRunDisplay>) -> Option<i64> {
    match current {
        Some(c) if has_run_id(shown, c) => Some(c),
        _ => if shown.len() > 0 {
            Some(shown[0].id)
        } else {
            None
        },
    }
}

/// The selection follows the list: there is one exactly when the list is not
/// empty, it is always a listed run, the current run stays selected while it
/// is listed, and otherwise the top of the list is selected.
pub proof fn lemma_selection_follows_list(current: Option<i64>, shown: Seq<FactoryRunDisplay>)
    ensures
        selected_id_spec(current, shown) is None <==> shown.len() == 0,
        selected_id_spec(current, shown) matches Some(id) ==> exists|k: int|
            0 <= k < shown.len() && #[trigger] shown[k].id == id,
        (current matches Some(c) && exists|k: int| 0 <= k < shown.len() && #[trigger] shown[k].id == c)
            ==> selected_id_spec(current, shown) == current,
        (shown.len() > 0 && !(current matches Some(c) && exists|k: int|
            0 <= k < shown.len() && #[trigger] shown[k].id == c)) ==> selected_id_spec(current, shown)
            == Some(shown[0].id),
{
    if shown.len() > 0 {
        assert(shown[0].id == shown[0].id);
    }
}

/// The run list and its selection.
#[derive(Debug, Clone)]
pub struct RunSelection {
    pub runs: Vec<FactoryRunDisplay>,
    pub selected_run_id: Option<i64>,
    /// Position in `runs` of the first run with the selected id.
    pub selected_index: Option<usize>,
    pub all_count: usize,
    pub attention_count: usize,
    pub completed_count: usize,
    pub starred_count: usize,
}

fn count_attention(runs: &Vec<FactoryRunDisplay>) -> (n: usize)
    ensures
        n == attention_count(runs@),
{
    let mut n: usize = 0;
    let mut i: usize = 0;
    while i < runs.len()
        invariant
            i <= runs@.len(),
            n == attention_count(runs@.take(i as int)),
            n <= i,
        decreases runs@.len() - i,
    {
        proof {
            assert(runs@.take(i + 1).drop_last() =~= runs@.take(i as int));
        }
        if runs[i].needs_attention {
            n = n + 1;
        }
        i = i + 1;
    }
    assert(runs@.take(i as int) =~= runs@);
    n
}

fn count_completed(runs: &Vec<FactoryRunDisplay>) -> (n: usize)
    ensures
        n == completed_count(runs@),
{
    let mut n: usize = 0;
    let mut i: usize = 0;
    while i < runs.len()
        invariant
            i <= runs@.len(),
            n == completed_count(runs@.take(i as int)),
            n <= i,
        decreases runs@.len() - i,
    {
        proof {
            assert(runs@.take(i + 1).drop_last() =~= runs@.take(i as int));
        }
        if runs[i].completed {
            n = n + 1;
        }
        i = i + 1;
    }
    assert(runs@.take(i as int) =~= runs@);
    n
}

fn shown_by(
    run: &FactoryRunDisplay,
    filter: SidebarFilter,
    starred: &BTreeSet<i64>,
    repo: &Option<String>,
) -> (r: bool)
    ensures
        r == run_shown(
            *run,
            filter,
            starred@,
            match repo {
                Some(s) => Some(s@),
                None => None,
            },
        ),
{
    let in_filter = match filter {
        SidebarFilter::All => true,
        SidebarFilter::NeedsAttention => run.needs_attention,
        SidebarFilter::Starred => starred.contains(&run.id),
        SidebarFilter::Completed => run.completed,
    };
    let in_repo = match repo {
        Some(r) => crate::text::str_eq(run.repo_label.as_str(), r.as_str()),
        None => true,
    };
    in_filter && in_repo
}

fn first_index_of(runs: &Vec<FactoryRunDisplay>, id: i64) -> (r: Option<usize>)
    ensures
        match r {
            Some(k) => k < runs@.len() && runs@[k as int].id == id && forall|j: int|
                0 <= j < k ==> #[trigger] runs@[j].id != id,
            None => !has_run_id(runs@, id),
        },
{
    let mut i: usize = 0;
    while i < runs.len()
        invariant
            i <= runs@.len(),
            forall|j: int| 0 <= j < i ==> #[trigger] runs@[j].id != id,
        decreases runs@.len() - i,
    {
        if runs[i].id == id {
            return Some(i);
        }
        i = i + 1;
    }
    None
}

/// The dashboard's run list: the runs that pass the filter and belong to
/// the selected repo, in order, with the selection kept on the current run
/// while it is listed, and the sidebar's counts over all runs.
pub fn select_runs(
    runs: Vec<FactoryRunDisplay>,
    filter: SidebarFilter,
    starred: &BTreeSet<i64>,
    selected_repo: &Option<String>,
    current: Option<i64>,
) -> (r: RunSelection)
    ensures
        r.runs@ == shown_runs(
            runs@,
            filter,
            starred@,
            match selected_repo {
                Some(s) => Some(s@),
                None => None,
            },
        ),
        r.selected_run_id == selected_id_spec(current, r.runs@),
        match r.selected_run_id {
            Some(id) => r.selected_index matches Some(k) && k < r.runs@.len() && r.runs@[k as int].id
                == id && forall|j: int| 0 <= j < k ==> #[trigger] r.runs@[j].id != id,
            None => r.selected_index is None,
        },
        r.all_count == runs@.len(),
        r.attention_count == attention_count(runs@),
        r.completed_count == completed_count(runs@),
        r.starred_count == starred@.len(),
{
    let ghost repo_view = match selected_repo {
        Some(s) => Some(s@),
        None => None,
    };
    let all_count = runs.len();
    let attention = count_attention(&runs);
    let completed = count_completed(&runs);
    let starred_count = starred.len();
    let ghost all = runs@;
    let mut rest = runs;
    let mut shown: Vec<FactoryRunDisplay> = Vec::new();
    let mut i: usize = 0;
    while i < all_count
        invariant
            all_count == all.len(),
            i <= all_count,
            rest@ == all.skip(i as int),
            shown@ == shown_runs(all.take(i as int), filter, starred@, repo_view),
            repo_view == match selected_repo {
                Some(s) => Some(s@),
                None => None,
            },
        decreases all_count - i,
    {
        let run = rest.remove(0);
        proof {
            assert(all.take(i + 1).drop_last() =~= all.take(i as int));
            assert(all.take(i + 1).last() == run);
            assert(rest@ =~= all.skip(i + 1));
        }
        if shown_by(&run, filter, starred, selected_repo) {
            shown.push(run);
        }
        i = i + 1;
    }
    assert(all.take(i as int) =~= all);
    let selected_run_id = match current {
        Some(c) => {
            match first_index_of(&shown, c) {
                Some(_) => Some(c),
                None => if shown.len() > 0 {
                    Some(shown[0].id)
                } else {
                    None
                },
            }
        },
        None => if shown.len() > 0 {
            Some(shown[0].id)
        } else {
            None
        },
    };
    let selected_index = match selected_run_id {
        Some(id) => first_index_of(&shown, id),
        None => None,
    };
    proof {
        if let Some(id) = selected_run_id {
            if shown@.len() > 0 && shown@[0].id == id {
                assert(has_run_id(shown@, id));
            }
        }
    }
    RunSelection {
        runs: shown,
        selected_run_id,
        selected_index,
        all_count,
        attention_count: attention,
        completed_count: completed,
        starred_count,
    }
}

/// Exactly the listed runs pass the filter and the repo, and each comes from
/// the dashboard: a run is listed if and only if it is one of the dashboard's
/// runs that passes both.
pub proof fn lemma_shown_runs_members(
    runs: Seq<FactoryRunDisplay>,
    filter: SidebarFilter,
    starred: Set<i64>,
    repo: Option<Seq<char>>,
    x: FactoryRunDisplay,
)
    ensures
        shown_runs(runs, filter, starred, repo).contains(x) <==> (runs.contains(x) && run_shown(
            x,
            filter,
            starred,
            repo,
        )),
    decreases runs.len(),
{
    if runs.len() > 0 {
        let init = runs.drop_last();
        lemma_shown_runs_members(init, filter, starred, repo, x);
        assert(runs =~= init.push(runs.last()));
        if runs.contains(x) && x != runs.last() {
            let k = choose|k: int| 0 <= k < runs.len() && runs[k] == x;
            assert(k < init.len());
            assert(init[k] == x);
        }
        if init.contains(x) {
            let k = choose|k: int| 0 <= k < init.len() && init[k] == x;
            assert(runs[k] == x);
        }
        let rest = shown_runs(init, filter, starred, repo);
        if run_shown(runs.last(), filter, starred, repo) {
            if rest.push(runs.last()).contains(x) && x != runs.last() {
                let k = choose|k: int| 0 <= k < rest.len() + 1 && rest.push(runs.last())[k] == x;
                assert(k < rest.len());
                assert(rest[k] == x);
            }
            if rest.contains(x) {
                let k = choose|k: int| 0 <= k < rest.len() && rest[k] == x;
                assert(rest.push(runs.last())[k] == x);
            }
            assert(rest.push(runs.last())[rest.len() as int] == runs.last());
        }
        assert(runs[runs.len() - 1] == runs.last());
    }
}

/// The list never shows more runs than the dashboard has.
pub proof fn lemma_shown_runs_len(
    runs: Seq<FactoryRunDisplay>,
    filter: SidebarFilter,
    starred: Set<i64>,
    repo: Option<Seq<char>>,
)
    ensures
        shown_runs(runs, filter, starred, repo).len() <= runs.len(),
        filter == SidebarFilter::All && repo is None ==> shown_runs(runs, filter, starred, repo)
            == runs,
    decreases runs.len(),
{
    if runs.len() > 0 {
        lemma_shown_runs_len(runs.drop_last(), filter, starred, repo);
        assert(runs =~= runs.drop_last().push(runs.last()));
    }
}

/// The sidebar's counts are the sizes of its lists: the attention count is
/// the number of runs that need attention (the runs the Needs attention
/// filter lists), and the completed count the number of completed runs (the
/// runs the Completed filter lists).
pub proof fn lemma_counts_are_filter_sizes(runs: Seq<FactoryRunDisplay>, starred: Set<i64>)
    ensures
        attention_count(runs) == runs.filter(|r: FactoryRunDisplay| r.needs_attention).len(),
        completed_count(runs) == runs.filter(|r: FactoryRunDisplay| r.completed).len(),
        attention_count(runs) == shown_runs(runs, SidebarFilter::NeedsAttention, starred, None).len(),
        completed_count(runs) == shown_runs(runs, SidebarFilter::Completed, starred, None).len(),
    decreases runs.len(),
{
    reveal(Seq::filter);
    if runs.len() > 0 {
        lemma_counts_are_filter_sizes(runs.drop_last(), starred);
    }
}

/// The starred set after a click on a run's star: starred runs lose it,
/// others gain it.
pub open spec fn toggled(starred: Set<i64>, run_id: i64) -> Set<i64> {
    if starred.contains(run_id) {
        starred.remove(run_id)
    } else {
        starred.insert(run_id)
    }
}

/// Stars `run_id`, or unstars it when it was starred.
pub fn toggle_star(starred: &mut BTreeSet<i64>, run_id: i64)
    ensures
        final(starred)@ == toggled(old(starred)@, run_id),
{
    if !starred.insert(run_id) {
        starred.remove(&run_id);
    }
}

/// Clicking a run's star twice leaves the starred set as it was.
pub proof fn lemma_toggle_star_twice(starred: Set<i64>, run_id: i64)
    ensures
        toggled(toggled(starred, run_id), run_id) == starred,
{
    if starred.contains(run_id) {
        assert(toggled(toggled(starred, run_id), run_id) =~= starred);
    } else {
        assert(toggled(toggled(starred, run_id), run_id) =~= starred);
    }
}

/// A click on a repo selects it, or clears the selection when it was the
/// selected one.
pub fn toggle_selected_repo(current: Option<String>, repo: String) -> (r: Option<String>)
    ensures
        match current {
            Some(c) => if c@ == repo@ {
                r is None
            } else {
                r == Some(repo)
            },
            None => r == Some(repo),
        },
{
    match current {
        Some(c) => if str_eq(c.as_str(), repo.as_str()) {
            None
        } else {
            Some(repo)
        },
        None => Some(repo),
    }
}

pub fn connection_label(status: ConnectionStatus) -> (r: &'static str)
    ensures
        r@ == match status {
            ConnectionStatus::Connecting => "Connecting..."@,
            ConnectionStatus::Connected => "Connected"@,
            ConnectionStatus::Disconnected => "Disconnected"@,
        },
{
    match status {
        ConnectionStatus::Connecting => "Connecting...",
        ConnectionStatus::Connected => "Connected",
        ConnectionStatus::Disconnected => "Disconnected",
    }
}

pub fn connection_class(status: ConnectionStatus) -> (r: &'static str)
    ensures
        r@ == match status {
            ConnectionStatus::Connecting => "status-pill status-pill--loading"@,
            ConnectionStatus::Connected => "status-pill status-pill--ok"@,
            ConnectionStatus::Disconnected => "status-pill status-pill--down"@,
        },
{
    match status {
        ConnectionStatus::Connecting => "status-pill status-pill--loading",
        ConnectionStatus::Connected => "status-pill status-pill--ok",
        ConnectionStatus::Disconnected => "status-pill status-pill--down",
    }
}

/// Class of a sidebar entry (room, filter).
pub fn sidebar_item_class(active: bool) -> (r: &'static str)
    ensures
        r@ == if active {
            "sidebar-item active"@
        } else {
            "sidebar-item"@
        },
{
    if active {
        "sidebar-item active"
    } else {
        "sidebar-item"
    }
}

/// Title of the empty run list.
pub fn empty_title(filter: SidebarFilter) -> (r: &'static str)
    ensures
        r@ == match filter {
            SidebarFilter::All => "No factory runs found"@,
            SidebarFilter::Starred => "No starred runs"@,
            SidebarFilter::NeedsAttention => "No runs need attention"@,
            SidebarFilter::Completed => "No completed runs yet"@,
        },
{
    match filter {
        SidebarFilter::All => "No factory runs found",
        SidebarFilter::Starred => "No starred runs",
        SidebarFilter::NeedsAttention => "No runs need attention",
        SidebarFilter::Completed => "No completed runs yet",
    }
}

/// Body of the empty run list.
pub fn empty_body(filter: SidebarFilter) -> (r: &'static str)
    ensures
        r@ == match filter {
            SidebarFilter::All => "Use the prompt bar to start a run, or refresh once Prior has created work."@,
            SidebarFilter::Starred => "Star runs from the inbox to pin them here."@,
            SidebarFilter::NeedsAttention => "Blocked runs, failed verification, and failed checkpoints will surface here."@,
            SidebarFilter::Completed => "Completed runs will show here when the factory reaches delivery or review-ready states."@,
        },
{
    match filter {
        SidebarFilter::All => "Use the prompt bar to start a run, or refresh once Prior has created work.",
        SidebarFilter::Starred => "Star runs from the inbox to pin them here.",
        SidebarFilter::NeedsAttention => "Blocked runs, failed verification, and failed checkpoints will surface here.",
        SidebarFilter::Completed => "Completed runs will show here when the factory reaches delivery or review-ready states.",
    }
}

/// The run list's counter: `Loading...` or `<n> run(s)`.
pub fn run_count_text(loading: bool, count: usize) -> (r: String)
    ensures
        r@ == if loading {
            "Loading..."@
        } else {
            decimal(count as nat) + " run(s)"@
        },
{
    if loading {
        String::from_str("Loading...")
    } else {
        let n = usize_decimal(count);
        concat2(n.as_str(), " run(s)")
    }
}

/// How one row of the run list looks.
#[derive(Debug, Clone)]
pub struct RunRowView {
    pub row_class: &'static str,
    pub star_class: &'static str,
    pub star_title: &'static str,
    pub star_icon: &'static str,
    pub tag_class: &'static str,
    pub tag_text: &'static str,
}

/// The row of `run`: selected or not, starred or not, and tagged as needing
/// attention, complete, or active (attention wins).
pub fn run_row(run: &FactoryRunDisplay, selected: Option<i64>, starred: &BTreeSet<i64>) -> (r: RunRowView)
    ensures
        r.row_class@ == if selected == Some(run.id) {
            "room-row selected"@
        } else {
            "room-row"@
        },
        r.star_class@ == if starred@.contains(run.id) {
            "room-star starred"@
        } else {
            "room-star"@
        },
        r.star_title@ == if starred@.contains(run.id) {
            "Remove star"@
        } else {
            "Star run"@
        },
        r.star_icon@ == if starred@.contains(run.id) {
            "\u{2605}"@
        } else {
            "\u{2606}"@
        },
        r.tag_class@ == if run.needs_attention {
            "room-tag err"@
        } else if run.completed {
            "room-tag ok"@
        } else {
            "room-tag info"@
        },
        r.tag_text@ == if run.needs_attention {
            "Attention"@
        } else if run.completed {
            "Complete"@
        } else {
            "Active"@
        },
{
    let is_selected = match selected {
        Some(id) => id == run.id,
        None => false,
    };
    let is_starred = starred.contains(&run.id);
    RunRowView {
        row_class: if is_selected {
            "room-row selected"
        } else {
            "room-row"
        },
        star_class: if is_starred {
            "room-star starred"
        } else {
            "room-star"
        },
        star_title: if is_starred {
            "Remove star"
        } else {
            "Star run"
        },
        star_icon: if is_starred {
            "\u{2605}"
        } else {
            "\u{2606}"
        },
        tag_class: if run.needs_attention {
            "room-tag err"
        } else if run.completed {
            "room-tag ok"
        } else {
            "room-tag info"
        },
        tag_text: if run.needs_attention {
            "Attention"
        } else if run.completed {
            "Complete"
        } else {
            "Active"
        },
    }
}

/// `<repo> • <status> • <n> room(s)` under the selected run's title.
pub fn reading_subtitle(run: &FactoryRunDisplay) -> (r: String)
    ensures
        r@ == run.repo_label@ + " \u{2022} "@ + run.status@ + " \u{2022} "@ + decimal(
            run.active_room_count as nat,
        ) + " room(s)"@,
{
    let rooms = usize_decimal(run.active_room_count);
    let mut r = copy_string(&run.repo_label);
    r.append(" \u{2022} ");
    r.append(run.status.as_str());
    r.append(" \u{2022} ");
    r.append(rooms.as_str());
    r.append(" room(s)");
    r
}

/// Tag class of an update card by its kind.
pub fn update_tag_class(kind: &str) -> (r: &'static str)
    ensures
        r@ == if kind@ == "blocker"@ {
            "room-tag err"@
        } else if kind@ == "checkpoint"@ {
            "room-tag warn"@
        } else {
            "room-tag info"@
        },
{
    if str_eq(kind, "blocker") {
        "room-tag err"
    } else if str_eq(kind, "checkpoint") {
        "room-tag warn"
    } else {
        "room-tag info"
    }
}

/// Class of a segment of the lifecycle progress bar.
pub fn progress_segment_class(state: &str) -> (r: &'static str)
    ensures
        r@ == if state@ == "done"@ {
            "lifecycle-progress-seg done"@
        } else if state@ == "active"@ {
            "lifecycle-progress-seg active"@
        } else {
            "lifecycle-progress-seg"@
        },
{
    if str_eq(state, "done") {
        "lifecycle-progress-seg done"
    } else if str_eq(state, "active") {
        "lifecycle-progress-seg active"
    } else {
        "lifecycle-progress-seg"
    }
}

/// Classes and icon of a lifecycle phase: done, active, or still ahead.
pub fn phase_view(phase: &FactoryLifecyclePhaseDisplay) -> (r: (&'static str, &'static str, &'static str))
    ensures
        phase.state@ == "done"@ ==> r.0@ == "lifecycle-phase done"@ && r.1@ == "phase-icon done"@
            && r.2@ == "\u{2713}"@,
        phase.state@ != "done"@ && phase.state@ == "active"@ ==> r.0@ == "lifecycle-phase active"@
            && r.1@ == "phase-icon active"@ && r.2@ == "\u{25c9}"@,
        phase.state@ != "done"@ && phase.state@ != "active"@ ==> r.0@ == "lifecycle-phase future"@
            && r.1@ == "phase-icon pending"@ && r.2@ == "\u{25cb}"@,
{
    if str_eq(phase.state.as_str(), "done") {
        ("lifecycle-phase done", "phase-icon done", "\u{2713}")
    } else if str_eq(phase.state.as_str(), "active") {
        ("lifecycle-phase active", "phase-icon active", "\u{25c9}")
    } else {
        ("lifecycle-phase future", "phase-icon pending", "\u{25cb}")
    }
}

/// The text of the lifecycle sidebar.
#[derive(Debug, Clone)]
pub struct LifecycleSidebarView {
    pub selected_run_label: String,
    pub selected_run_status: String,
    pub selected_run_summary: String,
    pub server_line: String,
    pub gate_line: String,
    pub visible_runs_line: String,
}

pub open spec fn selected_run_label_spec(run: Option<FactoryRunDisplay>) -> Seq<char> {
    match run {
        Some(r) => "Run "@ + signed_decimal(r.id as int) + " \u{2022} "@ + r.current_stage@,
        None => "No active runs"@,
    }
}

pub open spec fn run_summary_line(run: Option<FactoryRunDisplay>) -> Seq<char> {
    match run {
        Some(r) => decimal(r.issue_count as nat) + " issue(s), "@ + decimal(r.blocker_count as nat)
            + " blocker(s), "@ + decimal(r.active_room_count as nat) + " room(s)"@,
        None => "No run selected."@,
    }
}

/// The sidebar for the selected run (if any) and the Prior gate's state.
pub fn lifecycle_sidebar(run: Option<&FactoryRunDisplay>, gate: &GateUiState) -> (r: LifecycleSidebarView)
    ensures
        r.selected_run_label@ == selected_run_label_spec(
            match run {
                Some(x) => Some(*x),
                None => None,
            },
        ),
        r.selected_run_status@ == match run {
            Some(x) => x.status@,
            None => "None"@,
        },
        r.selected_run_summary@ == run_summary_line(
            match run {
                Some(x) => Some(*x),
                None => None,
            },
        ),
        r.server_line@ == "Server: "@ + match gate.server_name {
            Some(s) => s@,
            None => "unknown"@,
        },
        r.gate_line@ == "Gate: "@ + gate.gate_url@,
        r.visible_runs_line@ == "Visible runs: "@ + match run {
            Some(_) => "1"@,
            None => "0"@,
        },
{
    let server_line = match &gate.server_name {
        Some(s) => concat2("Server: ", s.as_str()),
        None => concat2("Server: ", "unknown"),
    };
    let gate_line = concat2("Gate: ", gate.gate_url.as_str());
    match run {
        Some(x) => {
            let id = i64_decimal(x.id);
            let mut label = String::from_str("Run ");
            label.append(id.as_str());
            label.append(" \u{2022} ");
            label.append(x.current_stage.as_str());
            let issues = usize_decimal(x.issue_count);
            let blockers = usize_decimal(x.blocker_count);
            let rooms = usize_decimal(x.active_room_count);
            let mut summary = copy_string(&issues);
            summary.append(" issue(s), ");
            summary.append(blockers.as_str());
            summary.append(" blocker(s), ");
            summary.append(rooms.as_str());
            summary.append(" room(s)");
            LifecycleSidebarView {
                selected_run_label: label,
                selected_run_status: copy_string(&x.status),
                selected_run_summary: summary,
                server_line,
                gate_line,
                visible_runs_line: concat2("Visible runs: ", "1"),
            }
        },
        None => LifecycleSidebarView {
            selected_run_label: String::from_str("No active runs"),
            selected_run_status: String::from_str("None"),
            selected_run_summary: String::from_str("No run selected."),
            server_line,
            gate_line,
            visible_runs_line: concat2("Visible runs: ", "0"),
        },
    }
}

/// The avatar's letter: the label's first char in upper case, or `?` for an
/// empty label.
pub fn avatar_initial(label: &str) -> (r: String)
    ensures
        label@.len() == 0 ==> r@ == "?"@,
        label@.len() > 0 ==> r@ == upper_of(label@[0]),
{
    if label.unicode_len() == 0 {
        String::from_str("?")
    } else {
        char_to_uppercase(label.get_char(0))
    }
}

/// Title of the theme switch.
pub fn theme_toggle_title(dark: bool) -> (r: &'static str)
    ensures
        r@ == if dark {
            "Switch to light mode"@
        } else {
            "Switch to dark mode"@
        },
{
    if dark {
        "Switch to light mode"
    } else {
        "Switch to dark mode"
    }
}

/// The room holding a user's general conversation: `user:<sub>#general`.
pub fn user_general_room(user: &CurrentUser) -> (r: String)
    ensures
        r@ == "user:"@ + user.sub@ + "#general"@,
{
    concat3("user:", user.sub.as_str(), "#general")
}

/// General rooms are the ones whose name ends in `#general`.
pub fn is_general_room(room: &str) -> (r: bool)
    ensures
        r == ends_with(room@, "#general"@),
{
    str_ends_with(room, "#general")
}

/// A general room shows as `#general`, any other under its own name.
pub fn display_room_name(room: &str) -> (r: String)
    ensures
        r@ == if ends_with(room@, "#general"@) {
            "#general"@
        } else {
            room@
        },
{
    if is_general_room(room) {
        String::from_str("#general")
    } else {
        String::from_str(room)
    }
}

/// The line under the room's name.
pub fn room_context_text(is_general: bool) -> (r: &'static str)
    ensures
        r@ == if is_general {
            "General intake for prompts, briefs, and direct requests to Prior."@
        } else {
            "Repo-specific room for directing work against this repository."@
        },
{
    if is_general {
        "General intake for prompts, briefs, and direct requests to Prior."
    } else {
        "Repo-specific room for directing work against this repository."
    }
}

pub fn participant_label(sending: bool) -> (r: &'static str)
    ensures
        r@ == if sending {
            "Prior is responding"@
        } else {
            "Ready"@
        },
{
    if sending {
        "Prior is responding"
    } else {
        "Ready"
    }
}

/// `Messages go to <room>.`
pub fn messages_go_to(room_label: &str) -> (r: String)
    ensures
        r@ == "Messages go to "@ + room_label@ + "."@,
{
    concat3("Messages go to ", room_label, ".")
}

/// The bubble of a message: the user's own, a thought, a tool call or
/// result, or a plain reply.
pub fn bubble_class(msg: &ChatMessage) -> (r: &'static str)
    ensures
        r@ == if msg.is_human {
            "chat-bubble chat-bubble--human"@
        } else if msg.topic@ == "door:thought"@ {
            "chat-bubble chat-bubble--assistant chat-bubble--thought"@
        } else if msg.topic@ == "door:tool"@ || msg.topic@ == "door:tool_result"@ {
            "chat-bubble chat-bubble--assistant chat-bubble--tool"@
        } else {
            "chat-bubble chat-bubble--assistant"@
        },
{
    if msg.is_human {
        "chat-bubble chat-bubble--human"
    } else if str_eq(msg.topic.as_str(), "door:thought") {
        "chat-bubble chat-bubble--assistant chat-bubble--thought"
    } else if str_eq(msg.topic.as_str(), "door:tool") || str_eq(msg.topic.as_str(), "door:tool_result") {
        "chat-bubble chat-bubble--assistant chat-bubble--tool"
    } else {
        "chat-bubble chat-bubble--assistant"
    }
}

pub open spec fn topic_label(topic: Seq<char>) -> Seq<char> {
    if topic == "door:thought"@ {
        "Thought"@
    } else if topic == "door:tool"@ {
        "Tool Call"@
    } else if topic == "door:tool_result"@ {
        "Tool Result"@
    } else if topic == "door:chat"@ || topic == "door:message"@ {
        "Prior"@
    } else if topic == "error"@ {
        "Error"@
    } else {
        "Event"@
    }
}

fn topic_label_of(topic: &str) -> (r: &'static str)
    ensures
        r@ == topic_label(topic@),
{
    if str_eq(topic, "door:thought") {
        "Thought"
    } else if str_eq(topic, "door:tool") {
        "Tool Call"
    } else if str_eq(topic, "door:tool_result") {
        "Tool Result"
    } else if str_eq(topic, "door:chat") || str_eq(topic, "door:message") {
        "Prior"
    } else if str_eq(topic, "error") {
        "Error"
    } else {
        "Event"
    }
}

/// The line above a reply: what kind of message it is, and who sent it
/// when that is known (`<label> · <actor>`). The user's own messages have none.
pub fn chat_message_meta(message: &ChatMessage) -> (r: Option<String>)
    ensures
        message.is_human ==> r is None,
        !message.is_human ==> match message.actor {
            Some(a) => if a@.len() > 0 {
                opt_view(r) == Some(topic_label(message.topic@) + " \u{b7} "@ + a@)
            } else {
                opt_view(r) == Some(topic_label(message.topic@))
            },
            None => opt_view(r) == Some(topic_label(message.topic@)),
        },
{
    if message.is_human {
        return None;
    }
    let label = topic_label_of(message.topic.as_str());
    match &message.actor {
        Some(a) => {
            if a.as_str().unicode_len() > 0 {
                Some(concat3(label, " \u{b7} ", a.as_str()))
            } else {
                Some(String::from_str(label))
            }
        },
        None => Some(String::from_str(label)),
    }
}

/// A message can go out when none is in flight and the draft has text.
pub fn can_send(sending: bool, draft: &str) -> (r: bool)
    ensures
        r == (!sending && trim_ws(draft@).len() > 0),
{
    let t = trim(draft);
    !sending && t.as_str().unicode_len() > 0
}

/// The import button is off while an import runs or the draft is blank.
pub fn import_disabled(importing: bool, draft: &str) -> (r: bool)
    ensures
        r == (importing || trim_ws(draft@).len() == 0),
{
    let t = trim(draft);
    importing || t.as_str().unicode_len() == 0
}

pub fn import_button_label(importing: bool) -> (r: &'static str)
    ensures
        r@ == if importing {
            "Importing..."@
        } else {
            "Track Repo"@
        },
{
    if importing {
        "Importing..."
    } else {
        "Track Repo"
    }
}

/// `<owner>/<name>`, how a tracked repo and its runs are labelled.
pub fn repo_label(repo: &RepoEntry) -> (r: String)
    ensures
        r@ == repo.owner@ + "/"@ + repo.name@,
{
    concat3(repo.owner.as_str(), "/", repo.name.as_str())
}

/// The repo's default branch, when it names one.
pub fn repo_meta(repo: &RepoEntry) -> (r: Option<String>)
    ensures
        opt_view(r) == match repo.default_base_branch {
            Some(b) => if trim_ws(b@).len() > 0 {
                Some(b@)
            } else {
                None
            },
            None => None,
        },
{
    match &repo.default_base_branch {
        Some(b) => {
            let t = trim(b.as_str());
            if t.as_str().unicode_len() > 0 {
                Some(copy_string(b))
            } else {
                None
            }
        },
        None => None,
    }
}

pub fn repo_list_error_text(error: &str) -> (r: String)
    ensures
        r@ == "Could not load tracked repos: "@ + error@,
{
    concat2("Could not load tracked repos: ", error)
}

pub fn feedback_class(is_error: bool) -> (r: &'static str)
    ensures
        r@ == if is_error {
            "sidebar-feedback sidebar-feedback--error"@
        } else {
            "sidebar-feedback sidebar-feedback--ok"@
        },
{
    if is_error {
        "sidebar-feedback sidebar-feedback--error"
    } else {
        "sidebar-feedback sidebar-feedback--ok"
    }
}

/// What the tracked-repo list says instead of entries, if anything.
pub fn repo_list_copy(loading: bool, no_repos: bool) -> (r: Option<&'static str>)
    ensures
        loading ==> (r matches Some(t) && t@ == "Loading tracked repositories..."@),
        !loading && no_repos ==> (r matches Some(t) && t@
            == "No repositories tracked yet. Import one to connect runs back to code."@),
        !loading && !no_repos ==> r is None,
{
    if loading {
        Some("Loading tracked repositories...")
    } else if no_repos {
        Some("No repositories tracked yet. Import one to connect runs back to code.")
    } else {
        None
    }
}

/// The user's own message as the conversation shows it.
pub fn human_message(content: String) -> (m: ChatMessage)
    ensures
        m.topic@ == "user"@,
        m.actor is None,
        m.content == content,
        m.is_human,
{
    ChatMessage { topic: String::from_str("user"), actor: None, content, is_human: true }
}

/// An error as the conversation shows it: `Error: <message>`.
pub fn error_chat_message(message: &str) -> (m: ChatMessage)
    ensures
        m.topic@ == "error"@,
        m.actor is None,
        m.content@ == "Error: "@ + message@,
        !m.is_human,
{
    ChatMessage {
        topic: String::from_str("error"),
        actor: None,
        content: concat2("Error: ", message),
        is_human: false,
    }
}

/// The text to send from the draft: the trimmed draft, unless it is blank or
/// a message is already in flight.
pub fn outgoing_message(draft: &str, sending: bool) -> (r: Option<String>)
    ensures
        opt_view(r) == if sending || trim_ws(draft@).len() == 0 {
            None::<Seq<char>>
        } else {
            Some(trim_ws(draft@))
        },
{
    let content = trim(draft);
    if content.as_str().unicode_len() == 0 || sending {
        None
    } else {
        Some(content)
    }
}

pub open spec fn chat_view(m: ChatMessage) -> (Seq<char>, Option<Seq<char>>, Seq<char>, bool) {
    (m.topic@, opt_view(m.actor), m.content@, m.is_human)
}

pub open spec fn chat_views(ms: Seq<ChatMessage>) -> Seq<(Seq<char>, Option<Seq<char>>, Seq<char>, bool)> {
    ms.map_values(|m: ChatMessage| chat_view(m))
}

/// The replies the conversation shows: every reply with text, in order.
pub open spec fn reply_views(entries: Seq<RoomMessageEntry>) -> Seq<
    (Seq<char>, Option<Seq<char>>, Seq<char>, bool),
>
    decreases entries.len(),
{
    if entries.len() == 0 {
        Seq::empty()
    } else {
        let e = entries.last();
        let rest = reply_views(entries.drop_last());
        if trim_ws(e.content@).len() == 0 {
            rest
        } else {
            rest.push((e.topic@, opt_view(e.actor), e.content@, false))
        }
    }
}

/// The replies to a sent message as conversation messages; blank ones are
/// dropped.
pub fn room_reply_messages(entries: Vec<RoomMessageEntry>) -> (r: Vec<ChatMessage>)
    ensures
        chat_views(r@) == reply_views(entries@),
{
    let ghost all = entries@;
    let n = entries.len();
    let mut rest = entries;
    let mut out: Vec<ChatMessage> = Vec::new();
    let mut i: usize = 0;
    while i < n
        invariant
            n == all.len(),
            i <= n,
            rest@ == all.skip(i as int),
            chat_views(out@) == reply_views(all.take(i as int)),
        decreases n - i,
    {
        let entry = rest.remove(0);
        proof {
            assert(all.take(i + 1).drop_last() =~= all.take(i as int));
            assert(all.take(i + 1).last() == entry);
            assert(rest@ =~= all.skip(i + 1));
        }
        let t = trim(entry.content.as_str());
        if t.as_str().unicode_len() > 0 {
            let ghost prev = out@;
            out.push(
                ChatMessage {
                    topic: entry.topic,
                    actor: entry.actor,
                    content: entry.content,
                    is_human: false,
                },
            );
            assert(chat_views(out@) =~= chat_views(prev).push(chat_view(out@.last())));
        }
        i = i + 1;
    }
    assert(all.take(i as int) =~= all);
    out
}

pub open spec fn repo_path_spec(trimmed: Seq<char>) -> Seq<char> {
    let stripped = if starts_with(trimmed, "https://github.com/"@) {
        trimmed.skip("https://github.com/"@.len() as int)
    } else if starts_with(trimmed, "http://github.com/"@) {
        trimmed.skip("http://github.com/"@.len() as int)
    } else if starts_with(trimmed, "git@github.com:"@) {
        trimmed.skip("git@github.com:"@.len() as int)
    } else {
        trimmed
    };
    trim_end_seq(stripped, ".git"@)
}

/// A repo given as `owner/name`, a GitHub https or http URL, or an SSH
/// remote, with surrounding blanks, trailing slashes and `.git` ignored:
/// its owner, its name and its https clone URL.
pub open spec fn parse_repo_spec_spec(input: Seq<char>) -> Result<
    (Seq<char>, Seq<char>, Seq<char>),
    Seq<char>,
> {
    let trimmed = trim_end_char(trim_ws(input), '/');
    if trimmed.len() == 0 {
        Err("Enter a GitHub repo as owner/name or a full GitHub URL."@)
    } else {
        let parts = split_nonempty(repo_path_spec(trimmed), '/');
        if parts.len() == 0 {
            Err("Repo must include an owner."@)
        } else if parts.len() == 1 {
            Err("Repo must include a repository name."@)
        } else if parts.len() > 2 {
            Err("Repo format should be owner/name or a direct GitHub repo URL."@)
        } else {
            Ok(
                (
                    parts[0],
                    parts[1],
                    "https://github.com/"@ + parts[0] + "/"@ + parts[1] + ".git"@,
                ),
            )
        }
    }
}

fn strip_github_prefix(trimmed: &str) -> (r: String)
    ensures
        r@ == if starts_with(trimmed@, "https://github.com/"@) {
            trimmed@.skip("https://github.com/"@.len() as int)
        } else if starts_with(trimmed@, "http://github.com/"@) {
            trimmed@.skip("http://github.com/"@.len() as int)
        } else if starts_with(trimmed@, "git@github.com:"@) {
            trimmed@.skip("git@github.com:"@.len() as int)
        } else {
            trimmed@
        },
{
    match strip_prefix_str(trimmed, "https://github.com/") {
        Some(p) => p,
        None => match strip_prefix_str(trimmed, "http://github.com/") {
            Some(p) => p,
            None => match strip_prefix_str(trimmed, "git@github.com:") {
                Some(p) => p,
                None => String::from_str(trimmed),
            },
        },
    }
}

/// Reads the repo import box; see `parse_repo_spec_spec`.
pub fn parse_repo_spec(input: &str) -> (r: Result<(String, String, String), String>)
    ensures
        match parse_repo_spec_spec(input@) {
            Ok((o, n, c)) => r matches Ok((ro, rn, rc)) && ro@ == o && rn@ == n && rc@ == c,
            Err(e) => r matches Err(re) && re@ == e,
        },
{
    let t = trim(input);
    let trimmed = trim_end_matching(t.as_str(), '/');
    if trimmed.as_str().unicode_len() == 0 {
        return Err(String::from_str("Enter a GitHub repo as owner/name or a full GitHub URL."));
    }
    let stripped = strip_github_prefix(trimmed.as_str());
    proof {
        reveal_strlit(".git");
    }
    let path = trim_end_str(stripped.as_str(), ".git");
    let parts = split_nonempty_pieces(path.as_str(), '/');
    assert(crate::text::string_views(parts@) == split_nonempty(repo_path_spec(trimmed@), '/'));
    if parts.len() == 0 {
        return Err(String::from_str("Repo must include an owner."));
    }
    if parts.len() == 1 {
        return Err(String::from_str("Repo must include a repository name."));
    }
    if parts.len() > 2 {
        return Err(String::from_str("Repo format should be owner/name or a direct GitHub repo URL."));
    }
    assert(crate::text::string_views(parts@)[0] == parts@[0]@);
    assert(crate::text::string_views(parts@)[1] == parts@[1]@);
    let owner = copy_string(&parts[0]);
    let name = copy_string(&parts[1]);
    let mut clone_url = String::from_str("https://github.com/");
    clone_url.append(owner.as_str());
    clone_url.append("/");
    clone_url.append(name.as_str());
    clone_url.append(".git");
    Ok((owner, name, clone_url))
}

/// What a click on the import button does.
#[derive(Debug, Clone)]
pub enum ImportStep {
    /// Nothing: the draft is blank or an import is already running.
    Ignore,
    /// The draft is not a repo; show why.
    Invalid(RepoImportFeedback),
    /// Import this repo.
    Start { owner: String, name: String, clone_url: String },
}

/// The import button's action for the current draft.
pub fn import_step(draft: &str, importing: bool) -> (r: ImportStep)
    ensures
        trim_ws(draft@).len() == 0 || importing ==> r is Ignore,
        !(trim_ws(draft@).len() == 0 || importing) ==> match parse_repo_spec_spec(trim_ws(draft@)) {
            Ok((o, n, c)) => r matches ImportStep::Start { owner, name, clone_url } && owner@ == o
                && name@ == n && clone_url@ == c,
            Err(e) => r matches ImportStep::Invalid(f) && f.message@ == e && f.is_error,
        },
{
    let repo_spec = trim(draft);
    if repo_spec.as_str().unicode_len() == 0 || importing {
        return ImportStep::Ignore;
    }
    match parse_repo_spec(repo_spec.as_str()) {
        Ok((owner, name, clone_url)) => ImportStep::Start { owner, name, clone_url },
        Err(message) => ImportStep::Invalid(RepoImportFeedback { message, is_error: true }),
    }
}

/// The note after an import: where the repo landed, or why it failed.
pub fn import_feedback(owner: &str, name: &str, result: Result<RepoImportResult, String>) -> (r:
    RepoImportFeedback)
    ensures
        match result {
            Ok(imported) => !r.is_error && r.message@ == "Tracking "@ + owner@ + "/"@ + name@
                + " in "@ + imported.room@,
            Err(e) => r.is_error && r.message@ == "Import failed for "@ + owner@ + "/"@ + name@
                + ": "@ + e@,
        },
{
    match result {
        Ok(imported) => {
            let mut m = String::from_str("Tracking ");
            m.append(owner);
            m.append("/");
            m.append(name);
            m.append(" in ");
            m.append(imported.room.as_str());
            RepoImportFeedback { message: m, is_error: false }
        },
        Err(e) => {
            let mut m = String::from_str("Import failed for ");
            m.append(owner);
            m.append("/");
            m.append(name);
            m.append(": ");
            m.append(e.as_str());
            RepoImportFeedback { message: m, is_error: true }
        },
    }
}

} // verus!
