//! Factory run records as the Prior gate reports them, and the dashboard's view of
//! them: titles, summaries, the update thread and the lifecycle phases.
use vstd::prelude::*;
use vstd::string::*;

use crate::order::{
    SortKey, key_of, lemma_sort_by_map, lemma_sort_by_same_elements, sort_by, sort_vec_by_key,
};
use crate::net::gate::{
    GateStruct, GateValue, MAX_SAFE_INTEGER, int_or_null, key_at, run_id_data, safe_range_error,
    str_field, str_pair, text_or_null,
};
use crate::text::{
    opt_view, ascii_lower, concat2, concat3, copy_string, decimal, i64_decimal, seq_contains, signed_decimal,
    str_eq, usize_decimal, byte_len, char_to_uppercase, chars_of, collapse_whitespace, collapse_ws,
    contains_seq, lemma_byte_len_take_step, lemma_byte_len_push, char_utf8_width, str_contains, string_of,
    subrange_chars, to_ascii_lower, upper_of,
};

verus! {

/// A verification command handed to the factory orchestrator.
#[derive(Debug, Clone)]
pub struct VerifyCommand {
    pub program: String,
    pub args: Vec<String>,
    pub cwd: Option<String>,
    pub timeout_ms: Option<u64>,
}

#[derive(Debug, Clone)]
pub struct FactoryRunRecord {
    pub id: i64,
    pub ts: i64,
    pub status: String,
    pub entry_room: String,
    pub requested_by: Option<String>,
    pub target_repo: Option<String>,
    pub source_brief: Option<String>,
    pub current_stage: Option<String>,
    pub active_room_ids: Vec<String>,
    pub artifact_ids: Vec<i64>,
    pub diagnostic_ids: Vec<i64>,
}

/// An artifact record; its payload object is carried as JSON text.
#[derive(Debug, Clone)]
pub struct FactoryArtifactRecord {
    pub id: i64,
    pub ts: i64,
    pub run_id: i64,
    pub artifact_type: String,
    pub version: u64,
    pub producer_stage_id: Option<i64>,
    pub input_artifact_ids: Vec<i64>,
    pub payload_json: String,
}

#[derive(Debug, Clone)]
pub struct FactoryStageRecord {
    pub id: i64,
    pub ts: i64,
    pub status: String,
    pub run_id: i64,
    pub stage_name: String,
    pub depends_on: Vec<i64>,
    pub input_artifact_ids: Vec<i64>,
    pub output_artifact_ids: Vec<i64>,
    pub source_artifact_id: Option<i64>,
    pub source_artifact_version: Option<u64>,
    pub superseded_by_artifact_id: Option<i64>,
    pub assigned_room: Option<String>,
    pub summary: Option<String>,
    pub verification_summary: Option<String>,
    pub notes: Vec<String>,
}

#[derive(Debug, Clone)]
pub struct FactoryIssueRecord {
    pub id: i64,
    pub ts: i64,
    pub status: String,
    pub run_id: i64,
    pub planner_key: Option<String>,
    pub title: String,
    pub kind: String,
    pub stage_id: Option<i64>,
    pub depends_on: Vec<i64>,
    pub input_artifact_ids: Vec<i64>,
    pub output_artifact_ids: Vec<i64>,
    pub source_artifact_id: Option<i64>,
    pub source_artifact_version: Option<u64>,
    pub superseded_by_artifact_id: Option<i64>,
    pub acceptance_criteria: Vec<String>,
    pub verification_requirements: Vec<String>,
    pub assigned_room: Option<String>,
    pub branch_name: Option<String>,
    pub worktree_path: Option<String>,
    pub summary: Option<String>,
    pub notes: Vec<String>,
}

#[derive(Debug, Clone)]
pub struct FactoryCheckpointRecord {
    pub id: i64,
    pub ts: i64,
    pub run_id: i64,
    pub status: String,
    pub branch_name: String,
    pub worktree_path: String,
    pub base_ref: String,
    pub included_issue_ids: Vec<i64>,
    pub merged_issue_ids: Vec<i64>,
    pub conflict_issue_ids: Vec<i64>,
    pub head_sha: Option<String>,
    pub notes: Vec<String>,
}

/// Run status; the count and verdict maps are carried as key/value lists.
#[derive(Debug, Clone)]
pub struct FactoryRunStatus {
    pub run_id: i64,
    pub status: String,
    pub current_stage: Option<String>,
    pub stage_counts: Vec<(String, u64)>,
    pub issue_counts: Vec<(String, u64)>,
    pub latest_checkpoint_status: Option<String>,
    pub latest_checkpoint_id: Option<i64>,
    pub latest_verification_success: Option<bool>,
    pub latest_verification_artifact_id: Option<i64>,
    pub latest_gate_verdicts: Vec<(String, String)>,
    pub blockers: Vec<String>,
    pub diagnostics: Vec<String>,
    pub next_actions: Vec<String>,
}

#[derive(Debug, Clone)]
pub struct FactoryRunStartRequest {
    pub entry_room: String,
    pub requested_by: Option<String>,
    pub target_repo: Option<String>,
    pub source_brief: Option<String>,
    pub planner_actor: Option<String>,
    pub planner_llm: Option<String>,
    pub verify_commands: Option<Vec<VerifyCommand>>,
    pub max_steps: Option<u64>,
}

#[derive(Debug, Clone)]
pub struct FactoryRunStartResponse {
    pub run_id: i64,
    pub status: String,
    pub planning_rooms: Vec<String>,
    pub stage_ids: Vec<i64>,
    pub issue_ids: Vec<i64>,
    pub actions: Vec<String>,
    pub completed: bool,
    pub failed: bool,
}

#[derive(Debug, Clone)]
pub struct FactoryRunOrchestrateResponse {
    pub run_id: i64,
    pub status: String,
    pub actions: Vec<String>,
    pub completed: bool,
    pub failed: bool,
}

#[derive(Debug, Clone)]
pub struct FactorySnapshot {
    pub run: FactoryRunRecord,
    pub status: FactoryRunStatus,
    pub stages: Vec<FactoryStageRecord>,
    pub issues: Vec<FactoryIssueRecord>,
    pub artifacts: Vec<FactoryArtifactRecord>,
    pub checkpoints: Vec<FactoryCheckpointRecord>,
    pub surface_gaps: Vec<String>,
}

#[derive(Debug, Clone)]
pub struct FactoryDashboardView {
    pub runs: Vec<FactoryRunDisplay>,
}

#[derive(Debug, Clone)]
pub struct FactoryRunDisplay {
    pub id: i64,
    pub title: String,
    pub repo_label: String,
    pub requested_by: String,
    pub status: String,
    pub current_stage: String,
    pub summary: String,
    pub active_room_count: usize,
    pub issue_count: usize,
    pub blocker_count: usize,
    pub needs_attention: bool,
    pub completed: bool,
    pub updates: Vec<FactoryRunUpdateDisplay>,
    pub lifecycle: Vec<FactoryLifecyclePhaseDisplay>,
    pub next_actions: Vec<String>,
    pub diagnostics: Vec<String>,
    pub room_labels: Vec<String>,
}

#[derive(Debug, Clone)]
pub struct FactoryRunUpdateDisplay {
    pub kind: String,
    pub ts: i64,
    pub title: String,
    pub body: String,
}

#[derive(Debug, Clone)]
pub struct FactoryLifecyclePhaseDisplay {
    pub name: String,
    pub detail: String,
    pub state: String,
}

/// The text content of an update card.
pub struct UpdateView {
    pub kind: Seq<char>,
    pub ts: int,
    pub title: Seq<char>,
    pub body: Seq<char>,
}

impl View for FactoryRunUpdateDisplay {
    type V = UpdateView;

    open spec fn view(&self) -> UpdateView {
        UpdateView { kind: self.kind@, ts: self.ts as int, title: self.title@, body: self.body@ }
    }
}

/// The text content of a lifecycle phase.
pub struct PhaseView {
    pub name: Seq<char>,
    pub detail: Seq<char>,
    pub state: Seq<char>,
}

impl View for FactoryLifecyclePhaseDisplay {
    type V = PhaseView;

    open spec fn view(&self) -> PhaseView {
        PhaseView { name: self.name@, detail: self.detail@, state: self.state@ }
    }
}

// ---------------------------------------------------------------------------
// Text helpers of the dashboard
// ---------------------------------------------------------------------------

/// The number of chars of `s` whose UTF-8 encoding is exactly `n` bytes long,
/// when such a prefix exists.
pub open spec fn prefix_chars_of_bytes(s: Seq<char>, n: nat) -> int {
    choose|k: int| 0 <= k <= s.len() && byte_len(s.take(k)) == n
}

pub open spec fn has_prefix_of_bytes(s: Seq<char>, n: nat) -> bool {
    exists|k: int| 0 <= k <= s.len() && byte_len(s.take(k)) == n
}

/// `compact_text` cuts its collapsed text at byte 117 when the text is longer
/// than 120 bytes; `String::truncate` panics unless byte 117 starts a char.
pub open spec fn compact_fits(value: Seq<char>) -> bool {
    let single = collapse_ws(value);
    byte_len(single) <= 120 || has_prefix_of_bytes(single, 117)
}

/// White space collapsed to single spaces; longer than 120 bytes, the first
/// 117 bytes followed by `...`.
pub open spec fn compact_spec(value: Seq<char>) -> Seq<char> {
    let single = collapse_ws(value);
    if byte_len(single) <= 120 {
        single
    } else {
        single.take(prefix_chars_of_bytes(single, 117)) + seq!['.', '.', '.']
    }
}

proof fn lemma_byte_len_take_mono(s: Seq<char>, a: int, b: int)
    requires
        0 <= a < b <= s.len(),
    ensures
        byte_len(s.take(a)) < byte_len(s.take(b)),
    decreases b - a,
{
    lemma_byte_len_take_step(s, b - 1);
    if a < b - 1 {
        lemma_byte_len_take_mono(s, a, b - 1);
    }
}

/// Compacted text is never longer than 120 bytes.
pub proof fn lemma_compact_at_most_120_bytes(value: Seq<char>)
    requires
        compact_fits(value),
    ensures
        byte_len(compact_spec(value)) <= 120,
{
    let single = collapse_ws(value);
    if byte_len(single) > 120 {
        let k = prefix_chars_of_bytes(single, 117);
        let head = single.take(k);
        assert(byte_len(head) == 117);
        lemma_byte_len_push(head, '.');
        lemma_byte_len_push(head.push('.'), '.');
        lemma_byte_len_push(head.push('.').push('.'), '.');
        assert(head + seq!['.', '.', '.'] =~= head.push('.').push('.').push('.'));
    }
}

/// Collapses white space and caps the text at 120 bytes.
pub fn compact_text(value: &str) -> (r: String)
    requires
        compact_fits(value@),
    ensures
        r@ == compact_spec(value@),
        byte_len(r@) <= 120,
{
    proof {
        lemma_compact_at_most_120_bytes(value@);
    }
    let v = chars_of(value);
    let single = collapse_whitespace(v.as_slice());
    let ghost sq = single@;
    let n = single.len();
    // Byte length, counted until it passes 120.
    let mut total: usize = 0;
    let mut i: usize = 0;
    while i < n && total <= 120
        invariant
            n == sq.len(),
            single@ == sq,
            i <= n,
            total == byte_len(sq.take(i as int)),
            total <= 124,
        decreases n - i,
    {
        proof {
            lemma_byte_len_take_step(sq, i as int);
        }
        total = total + char_utf8_width(single[i]);
        i = i + 1;
    }
    if total <= 120 {
        assert(i == n);
        assert(sq.take(n as int) =~= sq);
        return string_of(single.as_slice());
    }
    proof {
        if i < n {
            lemma_byte_len_take_mono(sq, i as int, n as int);
            assert(sq.take(n as int) =~= sq);
        } else {
            assert(sq.take(n as int) =~= sq);
        }
    }
    // Cut at byte 117.
    let mut acc: usize = 0;
    let mut k: usize = 0;
    while acc < 117
        invariant
            n == sq.len(),
            single@ == sq,
            k <= n,
            acc == byte_len(sq.take(k as int)),
            acc <= 120,
            byte_len(sq) > 120,
            k > 0 ==> byte_len(sq.take(k - 1)) < 117,
        decreases n - k,
    {
        if k == n {
            assert(sq.take(n as int) =~= sq);
        }
        proof {
            lemma_byte_len_take_step(sq, k as int);
            assert(sq.take(k + 1 - 1) =~= sq.take(k as int));
        }
        acc = acc + char_utf8_width(single[k]);
        k = k + 1;
    }
    proof {
        let w = choose|j: int| 0 <= j <= sq.len() && byte_len(sq.take(j)) == 117;
        if acc != 117 {
            // acc > 117: no prefix has exactly 117 bytes.
            if w < k {
                if w < k - 1 {
                    lemma_byte_len_take_mono(sq, w, k - 1);
                }
                assert(byte_len(sq.take(w)) < 117);
            } else if w > k {
                lemma_byte_len_take_mono(sq, k as int, w);
            }
            assert(false);
        }
        if w < k {
            lemma_byte_len_take_mono(sq, w, k as int);
        } else if w > k {
            lemma_byte_len_take_mono(sq, k as int, w);
        }
        assert(w == k);
    }
    let head = subrange_chars(single.as_slice(), 0, k);
    let mut r = string_of(head.as_slice());
    r.append("...");
    proof {
        reveal_strlit("...");
        assert(head@ =~= sq.take(k as int));
        assert(r@ =~= compact_spec(value@));
        lemma_compact_at_most_120_bytes(value@);
    }
    r
}

/// `s` lowered to ASCII lowercase contains one of the given markers.
pub open spec fn lower_contains(s: Seq<char>, p: Seq<char>) -> bool {
    contains_seq(ascii_lower(s), p)
}

/// A status string that flags trouble: failed, blocked, error, or cancel.
pub open spec fn attention_status(status: Seq<char>) -> bool {
    ||| lower_contains(status, seq!['f', 'a', 'i', 'l', 'e', 'd'])
    ||| lower_contains(status, seq!['b', 'l', 'o', 'c', 'k', 'e', 'd'])
    ||| lower_contains(status, seq!['e', 'r', 'r', 'o', 'r'])
    ||| lower_contains(status, seq!['c', 'a', 'n', 'c', 'e', 'l'])
}

/// A status string that marks delivery: complete, ready, delivered, or merged.
pub open spec fn completed_status(status: Seq<char>) -> bool {
    ||| lower_contains(status, seq!['c', 'o', 'm', 'p', 'l', 'e', 't', 'e'])
    ||| lower_contains(status, seq!['r', 'e', 'a', 'd', 'y'])
    ||| lower_contains(status, seq!['d', 'e', 'l', 'i', 'v', 'e', 'r', 'e', 'd'])
    ||| lower_contains(status, seq!['m', 'e', 'r', 'g', 'e', 'd'])
}

pub fn contains_attention_status(status: &str) -> (r: bool)
    ensures
        r == attention_status(status@),
{
    let lowered = to_ascii_lower(status);
    let a = str_contains(lowered.as_str(), "failed");
    let b = str_contains(lowered.as_str(), "blocked");
    let c = str_contains(lowered.as_str(), "error");
    let d = str_contains(lowered.as_str(), "cancel");
    proof {
        reveal_strlit("failed");
        assert("failed"@ =~= seq!['f', 'a', 'i', 'l', 'e', 'd']);
        reveal_strlit("blocked");
        assert("blocked"@ =~= seq!['b', 'l', 'o', 'c', 'k', 'e', 'd']);
        reveal_strlit("error");
        assert("error"@ =~= seq!['e', 'r', 'r', 'o', 'r']);
        reveal_strlit("cancel");
        assert("cancel"@ =~= seq!['c', 'a', 'n', 'c', 'e', 'l']);
    }
    a || b || c || d
}

pub fn contains_completed_status(status: &str) -> (r: bool)
    ensures
        r == completed_status(status@),
{
    let lowered = to_ascii_lower(status);
    let a = str_contains(lowered.as_str(), "complete");
    let b = str_contains(lowered.as_str(), "ready");
    let c = str_contains(lowered.as_str(), "delivered");
    let d = str_contains(lowered.as_str(), "merged");
    proof {
        reveal_strlit("complete");
        assert("complete"@ =~= seq!['c', 'o', 'm', 'p', 'l', 'e', 't', 'e']);
        reveal_strlit("ready");
        assert("ready"@ =~= seq!['r', 'e', 'a', 'd', 'y']);
        reveal_strlit("delivered");
        assert("delivered"@ =~= seq!['d', 'e', 'l', 'i', 'v', 'e', 'r', 'e', 'd']);
        reveal_strlit("merged");
        assert("merged"@ =~= seq!['m', 'e', 'r', 'g', 'e', 'd']);
    }
    a || b || c || d
}

/// First char upper-cased (by Unicode rules), the rest unchanged.
pub open spec fn capitalize_spec(value: Seq<char>) -> Seq<char> {
    if value.len() == 0 {
        Seq::empty()
    } else {
        upper_of(value[0]) + value.drop_first()
    }
}

pub fn capitalize(value: &str) -> (r: String)
    ensures
        r@ == capitalize_spec(value@),
{
    let v = chars_of(value);
    if v.len() == 0 {
        return String::new();
    }
    let mut r = char_to_uppercase(v[0]);
    let rest = subrange_chars(v.as_slice(), 1, v.len());
    let tail = string_of(rest.as_slice());
    r.append(tail.as_str());
    assert(rest@ =~= value@.drop_first());
    r
}

// ---------------------------------------------------------------------------
// Title, summary and lifecycle of a run
// ---------------------------------------------------------------------------

/// The run's current stage: the status's, else the run record's.
pub open spec fn current_stage_of(run: FactoryRunRecord, status: FactoryRunStatus) -> Option<
    Seq<char>,
> {
    match status.current_stage {
        Some(s) => Some(s@),
        None => opt_view(run.current_stage),
    }
}

pub open spec fn brief_fits(run: FactoryRunRecord) -> bool {
    run.source_brief matches Some(b) ==> compact_fits(b@)
}

/// The compacted brief when it is not empty, else the target repo, else
/// `Factory run <id>`.
pub open spec fn run_title_spec(run: FactoryRunRecord) -> Seq<char> {
    if run.source_brief matches Some(b) && compact_spec(b@).len() > 0 {
        compact_spec(run.source_brief.unwrap()@)
    } else {
        match run.target_repo {
            Some(t) => t@,
            None => "Factory run "@ + signed_decimal(run.id as int),
        }
    }
}

pub fn run_title(run: &FactoryRunRecord) -> (r: String)
    requires
        brief_fits(*run),
    ensures
        r@ == run_title_spec(*run),
{
    if let Some(brief) = &run.source_brief {
        let text = compact_text(brief.as_str());
        if text.as_str().unicode_len() > 0 {
            return text;
        }
    }
    match &run.target_repo {
        Some(t) => copy_string(t),
        None => {
            let id = i64_decimal(run.id);
            concat2("Factory run ", id.as_str())
        },
    }
}

pub open spec fn summary_fits(status: FactoryRunStatus) -> bool {
    &&& status.next_actions@.len() > 0 ==> compact_fits(status.next_actions@[0]@)
    &&& (status.next_actions@.len() == 0 && status.blockers@.len() > 0) ==> compact_fits(
        status.blockers@[0]@,
    )
}

/// The first next action, else the first blocker, else the issue count across
/// the current stage, else the blocker count, else the active room count.
pub open spec fn run_summary_spec(
    run: FactoryRunRecord,
    status: FactoryRunStatus,
    issue_count: nat,
    blocker_count: nat,
) -> Seq<char> {
    if status.next_actions@.len() > 0 {
        compact_spec(status.next_actions@[0]@)
    } else if status.blockers@.len() > 0 {
        "Blocked: "@ + compact_spec(status.blockers@[0]@)
    } else if current_stage_of(run, status) is Some {
        decimal(issue_count) + " issue(s) across "@ + current_stage_of(run, status).unwrap()
    } else if blocker_count > 0 {
        decimal(blocker_count) + " blocker(s) need attention"@
    } else {
        decimal(run.active_room_ids@.len()) + " active room(s)"@
    }
}

/// Returns the status's current stage, else the run record's.
pub fn current_stage_text(run: &FactoryRunRecord, status: &FactoryRunStatus) -> (r: Option<String>)
    ensures
        opt_view(r) == current_stage_of(*run, *status),
{
    match &status.current_stage {
        Some(s) => Some(copy_string(s)),
        None => match &run.current_stage {
            Some(s) => Some(copy_string(s)),
            None => None,
        },
    }
}

pub fn run_summary(
    run: &FactoryRunRecord,
    status: &FactoryRunStatus,
    issue_count: usize,
    blocker_count: usize,
) -> (r: String)
    requires
        summary_fits(*status),
    ensures
        r@ == run_summary_spec(*run, *status, issue_count as nat, blocker_count as nat),
{
    if status.next_actions.len() > 0 {
        return compact_text(status.next_actions[0].as_str());
    }
    if status.blockers.len() > 0 {
        let text = compact_text(status.blockers[0].as_str());
        return concat2("Blocked: ", text.as_str());
    }
    if let Some(stage) = current_stage_text(run, status) {
        let n = usize_decimal(issue_count);
        return concat3(n.as_str(), " issue(s) across ", stage.as_str());
    }
    if blocker_count > 0 {
        let n = usize_decimal(blocker_count);
        return concat2(n.as_str(), " blocker(s) need attention");
    }
    let n = usize_decimal(run.active_room_ids.len());
    concat2(n.as_str(), " active room(s)")
}

/// The factory's lifecycle phases, in order.
pub open spec fn phase_name(i: int) -> Seq<char> {
    if i == 0 {
        "interpret"@
    } else if i == 1 {
        "resolve"@
    } else if i == 2 {
        "plan"@
    } else if i == 3 {
        "execute"@
    } else if i == 4 {
        "verify"@
    } else if i == 5 {
        "gate"@
    } else {
        "complete"@
    }
}

pub open spec fn phase_detail(i: int) -> Seq<char> {
    if i == 0 {
        "Normalize problem brief"@
    } else if i == 1 {
        "Bind to repo context"@
    } else if i == 2 {
        "Generate stage graph"@
    } else if i == 3 {
        "Run issues"@
    } else if i == 4 {
        "Run tests"@
    } else if i == 5 {
        "Merge readiness"@
    } else {
        "PR + review"@
    }
}

pub fn phase_name_str(i: usize) -> (r: &'static str)
    requires
        i < 7,
    ensures
        r@ == phase_name(i as int),
{
    if i == 0 {
        "interpret"
    } else if i == 1 {
        "resolve"
    } else if i == 2 {
        "plan"
    } else if i == 3 {
        "execute"
    } else if i == 4 {
        "verify"
    } else if i == 5 {
        "gate"
    } else {
        "complete"
    }
}

pub fn phase_detail_str(i: usize) -> (r: &'static str)
    requires
        i < 7,
    ensures
        r@ == phase_detail(i as int),
{
    if i == 0 {
        "Normalize problem brief"
    } else if i == 1 {
        "Bind to repo context"
    } else if i == 2 {
        "Generate stage graph"
    } else if i == 3 {
        "Run issues"
    } else if i == 4 {
        "Run tests"
    } else if i == 5 {
        "Merge readiness"
    } else {
        "PR + review"
    }
}

/// Index of the first phase (from `i`) whose name occurs in `stage`; 7 when none does.
pub open spec fn first_phase_in(stage: Seq<char>, i: int) -> int
    decreases 7 - i,
{
    if i >= 7 || i < 0 {
        7
    } else if contains_seq(stage, phase_name(i)) {
        i
    } else {
        first_phase_in(stage, i + 1)
    }
}

/// The lowercased current stage, empty when there is none.
pub open spec fn lifecycle_stage(run: FactoryRunRecord, status: FactoryRunStatus) -> Seq<char> {
    ascii_lower(
        match current_stage_of(run, status) {
            Some(s) => s,
            None => Seq::empty(),
        },
    )
}

/// Every phase is done and the last one active once the run is delivered.
pub open spec fn lifecycle_finished(run: FactoryRunRecord, status: FactoryRunStatus) -> bool {
    completed_status(run.status@) || lifecycle_stage(run, status) == "complete"@
}

/// State of phase `i` given the index of the current phase (7: none).
pub open spec fn phase_state(i: int, current: int, finished: bool) -> Seq<char> {
    if finished {
        if i == 6 {
            "active"@
        } else {
            "done"@
        }
    } else if current < 7 && i < current {
        "done"@
    } else if i == current {
        "active"@
    } else {
        "future"@
    }
}

pub open spec fn lifecycle_spec(run: FactoryRunRecord, status: FactoryRunStatus) -> Seq<PhaseView> {
    let current = first_phase_in(lifecycle_stage(run, status), 0);
    let finished = lifecycle_finished(run, status);
    Seq::new(
        7,
        |i: int|
            PhaseView {
                name: capitalize_spec(phase_name(i)),
                detail: phase_detail(i),
                state: phase_state(i, current, finished),
            },
    )
}

/// The lifecycle reads as a progression: the phases marked done come first,
/// at most one phase is active and it follows every done phase, and only
/// future phases follow it.
pub proof fn lemma_lifecycle_progression(run: FactoryRunRecord, status: FactoryRunStatus)
    ensures
        lifecycle_spec(run, status).len() == 7,
        forall|i: int, j: int|
            0 <= i < j < 7 && (#[trigger] lifecycle_spec(run, status)[j]).state == "done"@ ==> (
            #[trigger] lifecycle_spec(run, status)[i]).state == "done"@,
        forall|i: int, j: int|
            0 <= i < j < 7 && (#[trigger] lifecycle_spec(run, status)[j]).state == "active"@ ==> (
            #[trigger] lifecycle_spec(run, status)[i]).state == "done"@,
        forall|i: int, j: int|
            0 <= i < j < 7 && (#[trigger] lifecycle_spec(run, status)[i]).state == "active"@ ==> (
            #[trigger] lifecycle_spec(run, status)[j]).state == "future"@,
{
    reveal_strlit("done");
    reveal_strlit("active");
    reveal_strlit("future");
    assert("done"@ != "active"@ && "done"@ != "future"@ && "active"@ != "future"@) by {
        assert("done"@[0] != "active"@[0]);
        assert("done"@[0] != "future"@[0]);
        assert("active"@[0] != "future"@[0]);
    }
}

/// The first phase at or after `k` whose name occurs in `stage` is `i` when
/// `i`'s name occurs and none between `k` and `i` does.
proof fn lemma_first_phase_is(stage: Seq<char>, k: int, i: int)
    requires
        0 <= k <= i < 7,
        contains_seq(stage, phase_name(i)),
        forall|j: int| k <= j < i ==> !contains_seq(stage, #[trigger] phase_name(j)),
    ensures
        first_phase_in(stage, k) == i,
    decreases i - k,
{
    if k < i {
        lemma_first_phase_is(stage, k + 1, i);
    }
}

/// No phase is current when no phase name occurs in `stage`.
proof fn lemma_no_phase(stage: Seq<char>, k: int)
    requires
        0 <= k <= 7,
        forall|j: int| k <= j < 7 ==> !contains_seq(stage, #[trigger] phase_name(j)),
    ensures
        first_phase_in(stage, k) == 7,
    decreases 7 - k,
{
    if k < 7 {
        lemma_no_phase(stage, k + 1);
    }
}

/// The current phase of a run still under way is the first of the seven
/// (interpret, resolve, plan, execute, verify, gate, complete) whose name
/// occurs in its lowercased current stage: that phase is active, every
/// earlier phase is done and every later one is future. When no phase name
/// occurs, every phase is future. Once the run is delivered (its status
/// marks delivery, or its stage is `complete`), the last phase is active and
/// every other is done.
pub proof fn lemma_lifecycle_current_phase(run: FactoryRunRecord, status: FactoryRunStatus, i: int)
    ensures
        ({
            let stage = lifecycle_stage(run, status);
            let finished = completed_status(run.status@) || stage == "complete"@;
            &&& lifecycle_spec(run, status).len() == 7
            &&& (!finished && 0 <= i < 7 && contains_seq(stage, phase_name(i)) && (forall|j: int|
                0 <= j < i ==> !contains_seq(stage, #[trigger] phase_name(j)))) ==> {
                &&& lifecycle_spec(run, status)[i].state == "active"@
                &&& forall|j: int| 0 <= j < i ==> (#[trigger] lifecycle_spec(run, status)[j]).state == "done"@
                &&& forall|j: int| i < j < 7 ==> (#[trigger] lifecycle_spec(run, status)[j]).state == "future"@
            }
            &&& (!finished && (forall|j: int| 0 <= j < 7 ==> !contains_seq(stage, #[trigger] phase_name(j))))
                ==> forall|j: int| 0 <= j < 7 ==> (#[trigger] lifecycle_spec(run, status)[j]).state == "future"@
            &&& finished ==> {
                &&& lifecycle_spec(run, status)[6].state == "active"@
                &&& forall|j: int| 0 <= j < 6 ==> (#[trigger] lifecycle_spec(run, status)[j]).state == "done"@
            }
        }),
{
    let stage = lifecycle_stage(run, status);
    let finished = completed_status(run.status@) || stage == "complete"@;
    if !finished && 0 <= i < 7 && contains_seq(stage, phase_name(i)) && (forall|j: int|
        0 <= j < i ==> !contains_seq(stage, #[trigger] phase_name(j))) {
        lemma_first_phase_is(stage, 0, i);
    }
    if !finished && (forall|j: int| 0 <= j < 7 ==> !contains_seq(stage, #[trigger] phase_name(j))) {
        lemma_no_phase(stage, 0);
    }
}

pub open spec fn phase_views(s: Seq<FactoryLifecyclePhaseDisplay>) -> Seq<PhaseView> {
    s.map_values(|p: FactoryLifecyclePhaseDisplay| p@)
}

fn phase_state_str(i: usize, current: usize, finished: bool) -> (r: &'static str)
    requires
        i < 7,
        current <= 7,
    ensures
        r@ == phase_state(i as int, current as int, finished),
{
    if finished {
        if i == 6 {
            "active"
        } else {
            "done"
        }
    } else if current < 7 && i < current {
        "done"
    } else if i == current {
        "active"
    } else {
        "future"
    }
}

fn phase_occurs(stage: &[char], i: usize) -> (r: bool)
    requires
        i < 7,
    ensures
        r == contains_seq(stage@, phase_name(i as int)),
{
    let name = chars_of(phase_name_str(i));
    seq_contains(stage, name.as_slice())
}

pub fn build_lifecycle(run: &FactoryRunRecord, status: &FactoryRunStatus) -> (r: Vec<
    FactoryLifecyclePhaseDisplay,
>)
    ensures
        phase_views(r@) == lifecycle_spec(*run, *status),
{
    let stage_raw = match current_stage_text(run, status) {
        Some(s) => s,
        None => String::new(),
    };
    let stage = to_ascii_lower(stage_raw.as_str());
    let stage_chars = chars_of(stage.as_str());
    assert(stage@ == lifecycle_stage(*run, *status));
    let mut current: usize = 0;
    while current < 7 && !phase_occurs(stage_chars.as_slice(), current)
        invariant
            current <= 7,
            stage_chars@ == stage@,
            first_phase_in(stage@, 0) == first_phase_in(stage@, current as int),
        decreases 7 - current,
    {
        current = current + 1;
    }
    assert(current == first_phase_in(stage@, 0));
    let completed = contains_completed_status(run.status.as_str());
    let finished = completed || str_eq(stage.as_str(), "complete");
    let ghost target = lifecycle_spec(*run, *status);
    let mut out: Vec<FactoryLifecyclePhaseDisplay> = Vec::new();
    let mut i: usize = 0;
    while i < 7
        invariant
            i <= 7,
            current <= 7,
            current == first_phase_in(stage@, 0),
            stage@ == lifecycle_stage(*run, *status),
            finished == lifecycle_finished(*run, *status),
            target == lifecycle_spec(*run, *status),
            out@.len() == i,
            phase_views(out@) == target.take(i as int),
        decreases 7 - i,
    {
        let phase = FactoryLifecyclePhaseDisplay {
            name: capitalize(phase_name_str(i)),
            detail: String::from_str(phase_detail_str(i)),
            state: String::from_str(phase_state_str(i, current, finished)),
        };
        assert(phase@ == target[i as int]);
        let ghost prev = out@;
        out.push(phase);
        proof {
            assert forall|j: int| 0 <= j < i implies phase_views(out@)[j] == target[j] by {
                assert(out@[j] == prev[j]);
                assert(phase_views(prev)[j] == target.take(i as int)[j]);
            }
        }
        i = i + 1;
        assert(phase_views(out@) =~= target.take(i as int));
    }
    assert(target.take(7) =~= target);
    out
}

// ---------------------------------------------------------------------------
// The update thread of a run
// ---------------------------------------------------------------------------

impl SortKey for FactoryRunUpdateDisplay {
    open spec fn sort_key(&self) -> int {
        self.ts as int
    }

    fn key(&self) -> (k: i128) {
        self.ts as i128
    }
}

impl SortKey for FactoryStageRecord {
    open spec fn sort_key(&self) -> int {
        self.ts as int
    }

    fn key(&self) -> (k: i128) {
        self.ts as i128
    }
}

impl SortKey for FactoryIssueRecord {
    open spec fn sort_key(&self) -> int {
        self.ts as int
    }

    fn key(&self) -> (k: i128) {
        self.ts as i128
    }
}

impl SortKey for FactoryCheckpointRecord {
    open spec fn sort_key(&self) -> int {
        self.ts as int
    }

    fn key(&self) -> (k: i128) {
        self.ts as i128
    }
}

/// Newest run first: runs are ordered by the negated id.
impl SortKey for FactoryRunDisplay {
    open spec fn sort_key(&self) -> int {
        -(self.id as int)
    }

    fn key(&self) -> (k: i128) {
        -(self.id as i128)
    }
}

pub open spec fn update_view_fn() -> spec_fn(FactoryRunUpdateDisplay) -> UpdateView {
    |u: FactoryRunUpdateDisplay| u@
}

pub open spec fn update_views(s: Seq<FactoryRunUpdateDisplay>) -> Seq<UpdateView> {
    s.map_values(update_view_fn())
}

pub open spec fn update_ts_key() -> spec_fn(UpdateView) -> int {
    |u: UpdateView| u.ts
}

pub open spec fn uv(kind: Seq<char>, ts: int, title: Seq<char>, body: Seq<char>) -> UpdateView {
    UpdateView { kind, ts, title, body }
}

pub open spec fn brief_updates(run: FactoryRunRecord) -> Seq<UpdateView> {
    match run.source_brief {
        Some(b) => seq![uv("brief"@, run.ts as int, "Run requested"@, compact_spec(b@))],
        None => Seq::empty(),
    }
}

/// The text a stage card shows: its summary, else its verification summary.
pub open spec fn stage_text(stage: FactoryStageRecord) -> Option<Seq<char>> {
    match stage.summary {
        Some(s) => Some(s@),
        None => opt_view(stage.verification_summary),
    }
}

pub open spec fn stage_fits(stage: FactoryStageRecord) -> bool {
    stage_text(stage) matches Some(t) ==> compact_fits(t)
}

pub open spec fn issue_fits(issue: FactoryIssueRecord) -> bool {
    issue.summary matches Some(t) ==> compact_fits(t@)
}

pub open spec fn stage_update_spec(stage: FactoryStageRecord) -> UpdateView {
    uv(
        "stage"@,
        stage.ts as int,
        "Stage: "@ + stage.stage_name@ + " ("@ + stage.status@ + ")"@,
        match stage_text(stage) {
            Some(t) => compact_spec(t),
            None => match stage.assigned_room {
                Some(room) => "Assigned execution room: "@ + room@,
                None => "Stage activity recorded."@,
            },
        },
    )
}

pub open spec fn issue_update_spec(issue: FactoryIssueRecord) -> UpdateView {
    uv(
        "issue"@,
        issue.ts as int,
        "Issue: "@ + issue.title@ + " ("@ + issue.status@ + ")"@,
        match issue.summary {
            Some(t) => compact_spec(t@),
            None => match issue.assigned_room {
                Some(room) => "Assigned issue room: "@ + room@,
                None => "Issue queued in the factory."@,
            },
        },
    )
}

pub open spec fn checkpoint_update_spec(cp: FactoryCheckpointRecord) -> UpdateView {
    uv(
        "checkpoint"@,
        cp.ts as int,
        "Checkpoint "@ + signed_decimal(cp.id as int) + " ("@ + cp.status@ + ")"@,
        "branch "@ + cp.branch_name@ + " merged "@ + decimal(cp.merged_issue_ids@.len()) + "/"@
            + decimal(cp.included_issue_ids@.len()) + " issue(s)"@,
    )
}

/// `i64::try_from(index).unwrap_or(0)`.
pub open spec fn index_stamp(i: int) -> int {
    if i <= i64::MAX {
        i
    } else {
        0
    }
}

/// One update per item, stamped `base + index`.
pub open spec fn numbered_updates(
    items: Seq<String>,
    kind: Seq<char>,
    title: Seq<char>,
    base: int,
) -> Seq<UpdateView> {
    Seq::new(items.len(), |i: int| uv(kind, base + index_stamp(i), title, items[i]@))
}

/// The updates of a run before they are ordered by time.
pub open spec fn run_updates_unsorted(
    run: FactoryRunRecord,
    status: FactoryRunStatus,
    stages: Seq<FactoryStageRecord>,
    issues: Seq<FactoryIssueRecord>,
    checkpoints: Seq<FactoryCheckpointRecord>,
    surface_gaps: Seq<String>,
) -> Seq<UpdateView> {
    brief_updates(run) + stages.map_values(|s: FactoryStageRecord| stage_update_spec(s))
        + issues.map_values(|i: FactoryIssueRecord| issue_update_spec(i)) + checkpoints.map_values(
        |c: FactoryCheckpointRecord| checkpoint_update_spec(c),
    ) + numbered_updates(status.blockers@, "blocker"@, "Blocker"@, run.ts as int)
        + numbered_updates(status.next_actions@, "next_action"@, "Next action"@, run.ts + 10_000)
        + numbered_updates(surface_gaps, "gap"@, "Surface gap"@, run.ts + 20_000)
}

/// The time stamps given to blockers, next actions and gaps stay within `i64`.
pub open spec fn update_stamps_fit(run: FactoryRunRecord, status: FactoryRunStatus, gaps: nat) -> bool {
    &&& run.ts + status.blockers@.len() <= i64::MAX
    &&& run.ts + 10_000 + status.next_actions@.len() <= i64::MAX
    &&& run.ts + 20_000 + gaps <= i64::MAX
}

pub open spec fn updates_fit(
    run: FactoryRunRecord,
    stages: Seq<FactoryStageRecord>,
    issues: Seq<FactoryIssueRecord>,
) -> bool {
    &&& brief_fits(run)
    &&& forall|i: int| 0 <= i < stages.len() ==> stage_fits(#[trigger] stages[i])
    &&& forall|i: int| 0 <= i < issues.len() ==> issue_fits(#[trigger] issues[i])
}

proof fn lemma_views_push(prev: Seq<FactoryRunUpdateDisplay>, u: FactoryRunUpdateDisplay)
    ensures
        update_views(prev.push(u)) == update_views(prev).push(u@),
{
    assert(update_views(prev.push(u)) =~= update_views(prev).push(u@));
}

fn make_update(kind: &str, ts: i64, title: String, body: String) -> (u: FactoryRunUpdateDisplay)
    ensures
        u@ == uv(kind@, ts as int, title@, body@),
{
    FactoryRunUpdateDisplay { kind: String::from_str(kind), ts, title, body }
}

fn stage_update(stage: &FactoryStageRecord) -> (u: FactoryRunUpdateDisplay)
    requires
        stage_fits(*stage),
    ensures
        u@ == stage_update_spec(*stage),
{
    let mut title = concat2("Stage: ", stage.stage_name.as_str());
    title.append(" (");
    title.append(stage.status.as_str());
    title.append(")");
    let text = match &stage.summary {
        Some(s) => Some(s),
        None => stage.verification_summary.as_ref(),
    };
    let body = match text {
        Some(t) => compact_text(t.as_str()),
        None => match &stage.assigned_room {
            Some(room) => concat2("Assigned execution room: ", room.as_str()),
            None => String::from_str("Stage activity recorded."),
        },
    };
    make_update("stage", stage.ts, title, body)
}

fn issue_update(issue: &FactoryIssueRecord) -> (u: FactoryRunUpdateDisplay)
    requires
        issue_fits(*issue),
    ensures
        u@ == issue_update_spec(*issue),
{
    let mut title = concat2("Issue: ", issue.title.as_str());
    title.append(" (");
    title.append(issue.status.as_str());
    title.append(")");
    let body = match &issue.summary {
        Some(t) => compact_text(t.as_str()),
        None => match &issue.assigned_room {
            Some(room) => concat2("Assigned issue room: ", room.as_str()),
            None => String::from_str("Issue queued in the factory."),
        },
    };
    make_update("issue", issue.ts, title, body)
}

fn checkpoint_update(cp: &FactoryCheckpointRecord) -> (u: FactoryRunUpdateDisplay)
    ensures
        u@ == checkpoint_update_spec(*cp),
{
    let id = i64_decimal(cp.id);
    let mut title = concat2("Checkpoint ", id.as_str());
    title.append(" (");
    title.append(cp.status.as_str());
    title.append(")");
    let merged = usize_decimal(cp.merged_issue_ids.len());
    let included = usize_decimal(cp.included_issue_ids.len());
    let mut body = concat2("branch ", cp.branch_name.as_str());
    body.append(" merged ");
    body.append(merged.as_str());
    body.append("/");
    body.append(included.as_str());
    body.append(" issue(s)");
    make_update("checkpoint", cp.ts, title, body)
}

fn append_stage_updates(out: &mut Vec<FactoryRunUpdateDisplay>, stages: &[FactoryStageRecord])
    requires
        forall|i: int| 0 <= i < stages@.len() ==> stage_fits(#[trigger] stages@[i]),
    ensures
        update_views(final(out)@) == update_views(old(out)@) + stages@.map_values(
            |s: FactoryStageRecord| stage_update_spec(s),
        ),
{
    let ghost start = update_views(out@);
    let ghost all = stages@.map_values(|s: FactoryStageRecord| stage_update_spec(s));
    let mut i: usize = 0;
    while i < stages.len()
        invariant
            i <= stages@.len(),
            forall|j: int| 0 <= j < stages@.len() ==> stage_fits(#[trigger] stages@[j]),
            all == stages@.map_values(|s: FactoryStageRecord| stage_update_spec(s)),
            update_views(out@) == start + all.take(i as int),
        decreases stages@.len() - i,
    {
        let u = stage_update(&stages[i]);
        proof {
            lemma_views_push(out@, u);
        }
        out.push(u);
        i = i + 1;
        assert(start + all.take(i as int) =~= (start + all.take(i - 1)).push(all[i - 1]));
    }
    assert(all.take(i as int) =~= all);
}

fn append_issue_updates(out: &mut Vec<FactoryRunUpdateDisplay>, issues: &[FactoryIssueRecord])
    requires
        forall|i: int| 0 <= i < issues@.len() ==> issue_fits(#[trigger] issues@[i]),
    ensures
        update_views(final(out)@) == update_views(old(out)@) + issues@.map_values(
            |i: FactoryIssueRecord| issue_update_spec(i),
        ),
{
    let ghost start = update_views(out@);
    let ghost all = issues@.map_values(|i: FactoryIssueRecord| issue_update_spec(i));
    let mut i: usize = 0;
    while i < issues.len()
        invariant
            i <= issues@.len(),
            forall|j: int| 0 <= j < issues@.len() ==> issue_fits(#[trigger] issues@[j]),
            all == issues@.map_values(|i: FactoryIssueRecord| issue_update_spec(i)),
            update_views(out@) == start + all.take(i as int),
        decreases issues@.len() - i,
    {
        let u = issue_update(&issues[i]);
        proof {
            lemma_views_push(out@, u);
        }
        out.push(u);
        i = i + 1;
        assert(start + all.take(i as int) =~= (start + all.take(i - 1)).push(all[i - 1]));
    }
    assert(all.take(i as int) =~= all);
}

fn append_checkpoint_updates(
    out: &mut Vec<FactoryRunUpdateDisplay>,
    checkpoints: &[FactoryCheckpointRecord],
)
    ensures
        update_views(final(out)@) == update_views(old(out)@) + checkpoints@.map_values(
            |c: FactoryCheckpointRecord| checkpoint_update_spec(c),
        ),
{
    let ghost start = update_views(out@);
    let ghost all = checkpoints@.map_values(|c: FactoryCheckpointRecord| checkpoint_update_spec(c));
    let mut i: usize = 0;
    while i < checkpoints.len()
        invariant
            i <= checkpoints@.len(),
            all == checkpoints@.map_values(|c: FactoryCheckpointRecord| checkpoint_update_spec(c)),
            update_views(out@) == start + all.take(i as int),
        decreases checkpoints@.len() - i,
    {
        let u = checkpoint_update(&checkpoints[i]);
        proof {
            lemma_views_push(out@, u);
        }
        out.push(u);
        i = i + 1;
        assert(start + all.take(i as int) =~= (start + all.take(i - 1)).push(all[i - 1]));
    }
    assert(all.take(i as int) =~= all);
}

fn append_numbered_updates(
    out: &mut Vec<FactoryRunUpdateDisplay>,
    items: &[String],
    kind: &str,
    title: &str,
    base: i64,
)
    requires
        base + items@.len() <= i64::MAX,
    ensures
        update_views(final(out)@) == update_views(old(out)@) + numbered_updates(
            items@,
            kind@,
            title@,
            base as int,
        ),
{
    let ghost start = update_views(out@);
    let ghost all = numbered_updates(items@, kind@, title@, base as int);
    let mut i: usize = 0;
    while i < items.len()
        invariant
            i <= items@.len(),
            base + items@.len() <= i64::MAX,
            all == numbered_updates(items@, kind@, title@, base as int),
            update_views(out@) == start + all.take(i as int),
        decreases items@.len() - i,
    {
        let idx: i64 = if (i as u64) <= (i64::MAX as u64) {
            i as i64
        } else {
            0
        };
        let ts = base + idx;
        let u = make_update(kind, ts, String::from_str(title), copy_string(&items[i]));
        assert(u@ == all[i as int]);
        proof {
            lemma_views_push(out@, u);
        }
        out.push(u);
        i = i + 1;
        assert(start + all.take(i as int) =~= (start + all.take(i - 1)).push(all[i - 1]));
    }
    assert(all.take(i as int) =~= all);
}

/// The update thread of a run, ordered by time stamp (stable for equal stamps).
pub fn build_run_updates(
    run: &FactoryRunRecord,
    status: &FactoryRunStatus,
    stages: &[FactoryStageRecord],
    issues: &[FactoryIssueRecord],
    checkpoints: &[FactoryCheckpointRecord],
    surface_gaps: &[String],
) -> (r: Vec<FactoryRunUpdateDisplay>)
    requires
        updates_fit(*run, stages@, issues@),
        update_stamps_fit(*run, *status, surface_gaps@.len()),
    ensures
        update_views(r@) == sort_by(
            run_updates_unsorted(*run, *status, stages@, issues@, checkpoints@, surface_gaps@),
            update_ts_key(),
        ),
{
    let mut out: Vec<FactoryRunUpdateDisplay> = Vec::new();
    if let Some(brief) = &run.source_brief {
        let body = compact_text(brief.as_str());
        let u = make_update("brief", run.ts, String::from_str("Run requested"), body);
        proof {
            lemma_views_push(out@, u);
        }
        out.push(u);
    }
    assert(update_views(out@) =~= brief_updates(*run));
    append_stage_updates(&mut out, stages);
    append_issue_updates(&mut out, issues);
    append_checkpoint_updates(&mut out, checkpoints);
    append_numbered_updates(&mut out, status.blockers.as_slice(), "blocker", "Blocker", run.ts);
    append_numbered_updates(
        &mut out,
        status.next_actions.as_slice(),
        "next_action",
        "Next action",
        run.ts + 10_000,
    );
    append_numbered_updates(&mut out, surface_gaps, "gap", "Surface gap", run.ts + 20_000);
    let ghost unsorted = out@;
    assert(update_views(unsorted) =~= run_updates_unsorted(
        *run,
        *status,
        stages@,
        issues@,
        checkpoints@,
        surface_gaps@,
    ));
    let sorted = sort_vec_by_key(out);
    proof {
        assert forall|a: FactoryRunUpdateDisplay| #[trigger]
            key_of::<FactoryRunUpdateDisplay>()(a) == update_ts_key()(update_view_fn()(a)) by {}
        lemma_sort_by_map(
            unsorted,
            update_view_fn(),
            key_of::<FactoryRunUpdateDisplay>(),
            update_ts_key(),
        );
    }
    sorted
}

// ---------------------------------------------------------------------------
// A run as the dashboard shows it
// ---------------------------------------------------------------------------

/// The texts that `build_run_display` compacts all satisfy `compact_fits`, and
/// the derived time stamps stay within `i64`.
pub open spec fn display_fits(snapshot: FactorySnapshot) -> bool {
    &&& updates_fit(snapshot.run, snapshot.stages@, snapshot.issues@)
    &&& summary_fits(snapshot.status)
    &&& update_stamps_fit(snapshot.run, snapshot.status, snapshot.surface_gaps@.len())
}

pub open spec fn needs_attention_spec(run: FactoryRunRecord, status: FactoryRunStatus) -> bool {
    ||| status.blockers@.len() > 0
    ||| status.latest_verification_success == Some(false)
    ||| attention_status(run.status@)
    ||| (status.latest_checkpoint_status matches Some(c) && attention_status(c@))
}

/// The stage shown for a run: the current stage, else `awaiting stage`.
pub open spec fn display_stage(run: FactoryRunRecord, status: FactoryRunStatus) -> Seq<char> {
    match current_stage_of(run, status) {
        Some(s) => s,
        None => "awaiting stage"@,
    }
}

pub open spec fn completed_spec(run: FactoryRunRecord, status: FactoryRunStatus) -> bool {
    ||| completed_status(run.status@)
    ||| (status.latest_checkpoint_status matches Some(c) && completed_status(c@))
    ||| ascii_lower(display_stage(run, status)) == "complete"@
}

pub open spec fn repo_label_spec(run: FactoryRunRecord) -> Seq<char> {
    match run.target_repo {
        Some(t) => t@,
        None => run.entry_room@,
    }
}

pub open spec fn requested_by_spec(run: FactoryRunRecord) -> Seq<char> {
    match run.requested_by {
        Some(t) => t@,
        None => "unknown"@,
    }
}

/// Whether `compact_text` can take `value` without panicking.
pub fn compact_text_fits(value: &str) -> (r: bool)
    ensures
        r == compact_fits(value@),
{
    let v = chars_of(value);
    let single = collapse_whitespace(v.as_slice());
    let ghost sq = single@;
    let n = single.len();
    let mut acc: usize = 0;
    let mut k: usize = 0;
    while k < n && acc < 117
        invariant
            n == sq.len(),
            single@ == sq,
            k <= n,
            acc == byte_len(sq.take(k as int)),
            acc <= 120,
            k > 0 ==> byte_len(sq.take(k - 1)) < 117,
        decreases n - k,
    {
        proof {
            lemma_byte_len_take_step(sq, k as int);
            assert(sq.take(k + 1 - 1) =~= sq.take(k as int));
        }
        acc = acc + char_utf8_width(single[k]);
        k = k + 1;
    }
    // Prefixes reach byte 117 exactly when this scan stops on it.
    let exact = acc == 117;
    proof {
        if exact {
            assert(has_prefix_of_bytes(sq, 117));
        } else if has_prefix_of_bytes(sq, 117) {
            let w = choose|j: int| 0 <= j <= sq.len() && byte_len(sq.take(j)) == 117;
            if acc < 117 {
                assert(k == n);
                if w < n {
                    lemma_byte_len_take_mono(sq, w, n as int);
                }
            } else {
                if w < k {
                    if w < k - 1 {
                        lemma_byte_len_take_mono(sq, w, k - 1);
                    }
                } else if w > k {
                    lemma_byte_len_take_mono(sq, k as int, w);
                }
            }
            assert(false);
        }
    }
    if exact {
        return true;
    }
    // Otherwise the text must stay within 120 bytes.
    let mut total: usize = acc;
    let mut i: usize = k;
    while i < n && total <= 120
        invariant
            n == sq.len(),
            single@ == sq,
            i <= n,
            total == byte_len(sq.take(i as int)),
            total <= 124,
        decreases n - i,
    {
        proof {
            lemma_byte_len_take_step(sq, i as int);
        }
        total = total + char_utf8_width(single[i]);
        i = i + 1;
    }
    proof {
        assert(sq.take(n as int) =~= sq);
        if i < n {
            lemma_byte_len_take_mono(sq, i as int, n as int);
        }
    }
    total <= 120
}

fn opt_fits(s: &Option<String>) -> (r: bool)
    ensures
        r == (*s matches Some(t) ==> compact_fits(t@)),
{
    match s {
        Some(t) => compact_text_fits(t.as_str()),
        None => true,
    }
}

/// Whether `build_run_display` can take `snapshot`: the test of `display_fits`.
pub fn snapshot_display_fits(snapshot: &FactorySnapshot) -> (r: bool)
    ensures
        r == display_fits(*snapshot),
{
    let run = &snapshot.run;
    let status = &snapshot.status;
    if !opt_fits(&run.source_brief) {
        return false;
    }
    let mut i: usize = 0;
    while i < snapshot.stages.len()
        invariant
            i <= snapshot.stages@.len(),
            forall|j: int| 0 <= j < i ==> stage_fits(#[trigger] snapshot.stages@[j]),
        decreases snapshot.stages@.len() - i,
    {
        let stage = &snapshot.stages[i];
        let ok = match &stage.summary {
            Some(t) => compact_text_fits(t.as_str()),
            None => opt_fits(&stage.verification_summary),
        };
        if !ok {
            return false;
        }
        i = i + 1;
    }
    let mut i: usize = 0;
    while i < snapshot.issues.len()
        invariant
            i <= snapshot.issues@.len(),
            forall|j: int| 0 <= j < i ==> issue_fits(#[trigger] snapshot.issues@[j]),
        decreases snapshot.issues@.len() - i,
    {
        if !opt_fits(&snapshot.issues[i].summary) {
            return false;
        }
        i = i + 1;
    }
    if status.next_actions.len() > 0 {
        if !compact_text_fits(status.next_actions[0].as_str()) {
            return false;
        }
    } else if status.blockers.len() > 0 {
        if !compact_text_fits(status.blockers[0].as_str()) {
            return false;
        }
    }
    let ts = run.ts as i128;
    let max = i64::MAX as i128;
    let b = status.blockers.len() as i128;
    let na = status.next_actions.len() as i128;
    let g = snapshot.surface_gaps.len() as i128;
    ts + b <= max && ts + 10_000 + na <= max && ts + 20_000 + g <= max
}

fn opt_attention(s: &Option<String>) -> (r: bool)
    ensures
        r == (*s matches Some(c) && attention_status(c@)),
{
    match s {
        Some(c) => contains_attention_status(c.as_str()),
        None => false,
    }
}

fn opt_completed(s: &Option<String>) -> (r: bool)
    ensures
        r == (*s matches Some(c) && completed_status(c@)),
{
    match s {
        Some(c) => contains_completed_status(c.as_str()),
        None => false,
    }
}

/// `d` is what the dashboard shows for `snap`: title, labels, counts and
/// flags of the run, its update thread ordered by time, and its lifecycle.
pub open spec fn is_run_display(snap: FactorySnapshot, d: FactoryRunDisplay) -> bool {
    &&& d.id == snap.run.id
    &&& d.title@ == run_title_spec(snap.run)
    &&& d.repo_label@ == repo_label_spec(snap.run)
    &&& d.requested_by@ == requested_by_spec(snap.run)
    &&& d.status@ == snap.run.status@
    &&& d.current_stage@ == display_stage(snap.run, snap.status)
    &&& d.summary@ == run_summary_spec(
        snap.run,
        snap.status,
        snap.issues@.len(),
        snap.status.blockers@.len(),
    )
    &&& d.active_room_count == snap.run.active_room_ids@.len()
    &&& d.issue_count == snap.issues@.len()
    &&& d.blocker_count == snap.status.blockers@.len()
    &&& d.needs_attention == needs_attention_spec(snap.run, snap.status)
    &&& d.completed == completed_spec(snap.run, snap.status)
    &&& update_views(d.updates@) == sort_by(
        run_updates_unsorted(
            snap.run,
            snap.status,
            sort_by(snap.stages@, key_of::<FactoryStageRecord>()),
            sort_by(snap.issues@, key_of::<FactoryIssueRecord>()),
            sort_by(snap.checkpoints@, key_of::<FactoryCheckpointRecord>()),
            snap.surface_gaps@,
        ),
        update_ts_key(),
    )
    &&& phase_views(d.lifecycle@) == lifecycle_spec(snap.run, snap.status)
    &&& d.next_actions@ == snap.status.next_actions@
    &&& d.diagnostics@ == snap.status.diagnostics@
    &&& d.room_labels@ == snap.run.active_room_ids@
}

/// Projects a run snapshot into what the dashboard shows for it.
pub fn build_run_display(snapshot: FactorySnapshot) -> (r: FactoryRunDisplay)
    requires
        display_fits(snapshot),
    ensures
        is_run_display(snapshot, r),
{
    let ghost snap = snapshot;
    let FactorySnapshot { run, status, stages, issues, artifacts: _, checkpoints, surface_gaps } =
        snapshot;
    let stages = sort_vec_by_key(stages);
    let issues = sort_vec_by_key(issues);
    let checkpoints = sort_vec_by_key(checkpoints);
    proof {
        lemma_sort_by_same_elements(snap.stages@, key_of::<FactoryStageRecord>());
        lemma_sort_by_same_elements(snap.issues@, key_of::<FactoryIssueRecord>());
        crate::order::lemma_sort_by_sorted_permutation(snap.issues@, key_of::<FactoryIssueRecord>());
        assert forall|i: int| 0 <= i < stages@.len() implies stage_fits(#[trigger] stages@[i]) by {
            assert(stages@.contains(stages@[i]));
            let j = choose|j: int| 0 <= j < snap.stages@.len() && snap.stages@[j] == stages@[i];
            assert(stage_fits(snap.stages@[j]));
        }
        assert forall|i: int| 0 <= i < issues@.len() implies issue_fits(#[trigger] issues@[i]) by {
            assert(issues@.contains(issues@[i]));
            let j = choose|j: int| 0 <= j < snap.issues@.len() && snap.issues@[j] == issues@[i];
            assert(issue_fits(snap.issues@[j]));
        }
    }
    let title = run_title(&run);
    let repo_label = match &run.target_repo {
        Some(t) => copy_string(t),
        None => copy_string(&run.entry_room),
    };
    let requested_by = match &run.requested_by {
        Some(t) => copy_string(t),
        None => String::from_str("unknown"),
    };
    let current_stage = match current_stage_text(&run, &status) {
        Some(s) => s,
        None => String::from_str("awaiting stage"),
    };
    let blocker_count = status.blockers.len();
    let issue_count = issues.len();
    let verification_failed = match status.latest_verification_success {
        Some(ok) => !ok,
        None => false,
    };
    let needs_attention = blocker_count > 0 || verification_failed || contains_attention_status(
        run.status.as_str(),
    ) || opt_attention(&status.latest_checkpoint_status);
    let lowered_stage = to_ascii_lower(current_stage.as_str());
    let completed = contains_completed_status(run.status.as_str()) || opt_completed(
        &status.latest_checkpoint_status,
    ) || str_eq(lowered_stage.as_str(), "complete");
    let summary = run_summary(&run, &status, issue_count, blocker_count);
    let updates = build_run_updates(
        &run,
        &status,
        stages.as_slice(),
        issues.as_slice(),
        checkpoints.as_slice(),
        surface_gaps.as_slice(),
    );
    let lifecycle = build_lifecycle(&run, &status);
    let active_room_count = run.active_room_ids.len();
    let FactoryRunRecord { id, status: run_status, active_room_ids, .. } = run;
    let FactoryRunStatus { next_actions, diagnostics, .. } = status;
    FactoryRunDisplay {
        id,
        title,
        repo_label,
        requested_by,
        status: run_status,
        current_stage,
        summary,
        active_room_count,
        issue_count,
        blocker_count,
        needs_attention,
        completed,
        updates,
        lifecycle,
        next_actions,
        diagnostics,
        room_labels: active_room_ids,
    }
}

/// A run is flagged for attention when it has a blocker, when its latest
/// verification failed, or when its own status or its latest checkpoint's
/// status reads as trouble (it mentions, in any case, `failed`, `blocked`,
/// `error` or `cancel`); and it is flagged for no other reason.
pub proof fn lemma_run_attention(snap: FactorySnapshot, d: FactoryRunDisplay)
    requires
        is_run_display(snap, d),
    ensures
        snap.status.blockers@.len() > 0 ==> d.needs_attention,
        snap.status.latest_verification_success == Some(false) ==> d.needs_attention,
        lower_contains(snap.run.status@, seq!['f', 'a', 'i', 'l', 'e', 'd']) ==> d.needs_attention,
        lower_contains(snap.run.status@, seq!['b', 'l', 'o', 'c', 'k', 'e', 'd']) ==> d.needs_attention,
        lower_contains(snap.run.status@, seq!['e', 'r', 'r', 'o', 'r']) ==> d.needs_attention,
        lower_contains(snap.run.status@, seq!['c', 'a', 'n', 'c', 'e', 'l']) ==> d.needs_attention,
        forall|c: String|
            snap.status.latest_checkpoint_status == Some(c) ==> {
                &&& lower_contains(c@, seq!['f', 'a', 'i', 'l', 'e', 'd']) ==> d.needs_attention
                &&& lower_contains(c@, seq!['b', 'l', 'o', 'c', 'k', 'e', 'd']) ==> d.needs_attention
                &&& lower_contains(c@, seq!['e', 'r', 'r', 'o', 'r']) ==> d.needs_attention
                &&& lower_contains(c@, seq!['c', 'a', 'n', 'c', 'e', 'l']) ==> d.needs_attention
            },
        d.needs_attention ==> {
            ||| snap.status.blockers@.len() > 0
            ||| snap.status.latest_verification_success == Some(false)
            ||| attention_status(snap.run.status@)
            ||| (snap.status.latest_checkpoint_status matches Some(c) && attention_status(c@))
        },
{
}

/// A run is shown as completed when its status or its latest checkpoint's
/// status marks delivery (it mentions, in any case, `complete`, `ready`,
/// `delivered` or `merged`), or when its stage is `complete` in any case.
pub proof fn lemma_run_completed(snap: FactorySnapshot, d: FactoryRunDisplay)
    requires
        is_run_display(snap, d),
    ensures
        lower_contains(snap.run.status@, seq!['c', 'o', 'm', 'p', 'l', 'e', 't', 'e']) ==> d.completed,
        lower_contains(snap.run.status@, seq!['r', 'e', 'a', 'd', 'y']) ==> d.completed,
        lower_contains(snap.run.status@, seq!['d', 'e', 'l', 'i', 'v', 'e', 'r', 'e', 'd']) ==> d.completed,
        lower_contains(snap.run.status@, seq!['m', 'e', 'r', 'g', 'e', 'd']) ==> d.completed,
        forall|c: String|
            snap.status.latest_checkpoint_status == Some(c) ==> {
                &&& lower_contains(c@, seq!['c', 'o', 'm', 'p', 'l', 'e', 't', 'e']) ==> d.completed
                &&& lower_contains(c@, seq!['r', 'e', 'a', 'd', 'y']) ==> d.completed
                &&& lower_contains(c@, seq!['d', 'e', 'l', 'i', 'v', 'e', 'r', 'e', 'd']) ==> d.completed
                &&& lower_contains(c@, seq!['m', 'e', 'r', 'g', 'e', 'd']) ==> d.completed
            },
        ascii_lower(d.current_stage@) == seq!['c', 'o', 'm', 'p', 'l', 'e', 't', 'e'] ==> d.completed,
{
    reveal_strlit("complete");
    assert("complete"@ =~= seq!['c', 'o', 'm', 'p', 'l', 'e', 't', 'e']);
}

/// Runs newest first (by id, descending), as the dashboard lists them.
pub fn sort_runs_newest_first(runs: Vec<FactoryRunDisplay>) -> (r: Vec<FactoryRunDisplay>)
    ensures
        r@ == sort_by(runs@, key_of::<FactoryRunDisplay>()),
{
    sort_vec_by_key(runs)
}

/// The dashboard lists runs newest first: ids never increase along the
/// list, and the list holds the same runs, each as often.
pub proof fn lemma_runs_newest_first(runs: Seq<FactoryRunDisplay>)
    ensures
        forall|i: int, j: int|
            0 <= i <= j < runs.len() ==> (#[trigger] sort_by(runs, key_of::<FactoryRunDisplay>())[i]).id
                >= (#[trigger] sort_by(runs, key_of::<FactoryRunDisplay>())[j]).id,
        sort_by(runs, key_of::<FactoryRunDisplay>()).to_multiset() == runs.to_multiset(),
{
    crate::order::lemma_sort_by_sorted_permutation(runs, key_of::<FactoryRunDisplay>());
    let r = sort_by(runs, key_of::<FactoryRunDisplay>());
    assert forall|i: int, j: int| 0 <= i <= j < runs.len() implies (#[trigger] r[i]).id >= (
    #[trigger] r[j]).id by {
        assert(key_of::<FactoryRunDisplay>()(r[i]) <= key_of::<FactoryRunDisplay>()(r[j]));
    }
}

/// The dashboard: every run's display, newest run first.
pub fn build_dashboard_view(snapshots: Vec<FactorySnapshot>) -> (r: FactoryDashboardView)
    requires
        forall|i: int| 0 <= i < snapshots@.len() ==> display_fits(#[trigger] snapshots@[i]),
    ensures
        exists|built: Seq<FactoryRunDisplay>|
            {
                &&& built.len() == snapshots@.len()
                &&& forall|i: int|
                    0 <= i < built.len() ==> is_run_display(snapshots@[i], #[trigger] built[i])
                &&& r.runs@ == sort_by(built, key_of::<FactoryRunDisplay>())
            },
{
    let ghost orig = snapshots@;
    let n = snapshots.len();
    let mut rest = snapshots;
    let mut out: Vec<FactoryRunDisplay> = Vec::new();
    let mut k: usize = 0;
    while rest.len() > 0
        invariant
            n == orig.len(),
            k <= n,
            rest@ == orig.skip(k as int),
            out@.len() == k,
            forall|i: int| 0 <= i < orig.len() ==> display_fits(#[trigger] orig[i]),
            forall|i: int| 0 <= i < k ==> is_run_display(orig[i], #[trigger] out@[i]),
        decreases rest@.len(),
    {
        assert(rest@.len() == n - k);
        let snap = rest.remove(0);
        assert(snap == orig[k as int]);
        let d = build_run_display(snap);
        out.push(d);
        k = k + 1;
        assert(rest@ =~= orig.skip(k as int));
    }
    let runs = sort_runs_newest_first(out);
    FactoryDashboardView { runs }
}

// ---------------------------------------------------------------------------
// Requests to the factory
// ---------------------------------------------------------------------------

/// The gaps in what the factory exposes, noted on every snapshot.
pub fn snapshot_surface_gaps() -> (r: Vec<String>)
    ensures
        r@.len() == 2,
        r@[0]@
            == "factory gate records are not exposed via a list/get syscall; only latest verdict summaries are available through factory:run:status"@,
        r@[1]@
            == "review bundles are emitted via factory:review:bundle, but existing review bundle records are not listable from the current public factory surface"@,
{
    let mut r: Vec<String> = Vec::new();
    r.push(
        String::from_str(
            "factory gate records are not exposed via a list/get syscall; only latest verdict summaries are available through factory:run:status",
        ),
    );
    r.push(
        String::from_str(
            "review bundles are emitted via factory:review:bundle, but existing review bundle records are not listable from the current public factory surface",
        ),
    );
    r
}

/// `v` is the list of the strings `xs`.
pub open spec fn strings_value(v: GateValue, xs: Seq<String>) -> bool {
    v matches GateValue::List(items) && items@.len() == xs.len() && forall|i: int|
        0 <= i < xs.len() ==> (#[trigger] items@[i] matches GateValue::Str(x) && x@ == xs[i]@)
}

/// `v` is the object a verify command serializes to.
pub open spec fn verify_command_value(v: GateValue, c: VerifyCommand) -> bool {
    v matches GateValue::Struct(s) && {
        let f = s.fields@;
        &&& f.len() == 4
        &&& str_field(f, 0, "program"@, c.program@)
        &&& key_at(f, 1, "args"@) && strings_value(f[1].1, c.args@)
        &&& key_at(f, 2, "cwd"@) && text_or_null(f[2].1, opt_view(c.cwd))
        &&& key_at(f, 3, "timeout_ms"@) && int_or_null(
            f[3].1,
            match c.timeout_ms {
                Some(t) => Some(t as int),
                None => None,
            },
        )
    }
}

pub open spec fn commands_value(v: GateValue, o: Option<Vec<VerifyCommand>>) -> bool {
    match o {
        None => v is Null,
        Some(cs) => v matches GateValue::List(items) && items@.len() == cs@.len() && forall|i: int|
            0 <= i < cs@.len() ==> verify_command_value(#[trigger] items@[i], cs@[i]),
    }
}

fn strings_list(xs: &Vec<String>) -> (v: GateValue)
    ensures
        strings_value(v, xs@),
{
    let mut items: Vec<GateValue> = Vec::new();
    let mut i: usize = 0;
    while i < xs.len()
        invariant
            i <= xs@.len(),
            items@.len() == i,
            forall|j: int| 0 <= j < i ==> (#[trigger] items@[j] matches GateValue::Str(x) && x@ == xs@[j]@),
        decreases xs@.len() - i,
    {
        items.push(GateValue::Str(copy_string(&xs[i])));
        i = i + 1;
    }
    GateValue::List(items)
}

fn verify_command_to_value(c: &VerifyCommand) -> (v: GateValue)
    ensures
        verify_command_value(v, *c),
{
    let mut fields: Vec<(String, GateValue)> = Vec::new();
    fields.push(str_pair("program", c.program.as_str()));
    fields.push((String::from_str("args"), strings_list(&c.args)));
    let cwd = match &c.cwd {
        Some(d) => GateValue::Str(copy_string(d)),
        None => GateValue::Null,
    };
    fields.push((String::from_str("cwd"), cwd));
    let timeout = match c.timeout_ms {
        Some(t) => GateValue::Integer(t as i128),
        None => GateValue::Null,
    };
    fields.push((String::from_str("timeout_ms"), timeout));
    GateValue::Struct(GateStruct { fields })
}

fn commands_to_value(o: &Option<Vec<VerifyCommand>>) -> (v: GateValue)
    ensures
        commands_value(v, *o),
{
    match o {
        None => GateValue::Null,
        Some(cs) => {
            let mut items: Vec<GateValue> = Vec::new();
            let mut i: usize = 0;
            while i < cs.len()
                invariant
                    i <= cs@.len(),
                    items@.len() == i,
                    forall|j: int| 0 <= j < i ==> verify_command_value(#[trigger] items@[j], cs@[j]),
                decreases cs@.len() - i,
            {
                items.push(verify_command_to_value(&cs[i]));
                i = i + 1;
            }
            GateValue::List(items)
        },
    }
}

fn text_value(o: &Option<String>) -> (v: GateValue)
    ensures
        text_or_null(v, opt_view(*o)),
{
    match o {
        Some(s) => GateValue::Str(copy_string(s)),
        None => GateValue::Null,
    }
}

/// `factory:run:start` data. The run is requested by the caller's actor unless
/// the request names someone.
pub fn start_run_data(request: &FactoryRunStartRequest, actor: &str) -> (d: GateStruct)
    ensures
        d.fields@.len() == 8,
        str_field(d.fields@, 0, "entry_room"@, request.entry_room@),
        str_field(
            d.fields@,
            1,
            "requested_by"@,
            match request.requested_by {
                Some(r) => r@,
                None => actor@,
            },
        ),
        key_at(d.fields@, 2, "target_repo"@) && text_or_null(d.fields@[2].1, opt_view(request.target_repo)),
        key_at(d.fields@, 3, "source_brief"@) && text_or_null(d.fields@[3].1, opt_view(request.source_brief)),
        key_at(d.fields@, 4, "planner_actor"@) && text_or_null(d.fields@[4].1, opt_view(request.planner_actor)),
        key_at(d.fields@, 5, "planner_llm"@) && text_or_null(d.fields@[5].1, opt_view(request.planner_llm)),
        key_at(d.fields@, 6, "verify_commands"@) && commands_value(d.fields@[6].1, request.verify_commands),
        key_at(d.fields@, 7, "max_steps"@) && int_or_null(
            d.fields@[7].1,
            match request.max_steps {
                Some(m) => Some(m as int),
                None => None,
            },
        ),
{
    let requested_by = match &request.requested_by {
        Some(r) => copy_string(r),
        None => String::from_str(actor),
    };
    let mut fields: Vec<(String, GateValue)> = Vec::new();
    fields.push(str_pair("entry_room", request.entry_room.as_str()));
    fields.push(str_pair("requested_by", requested_by.as_str()));
    fields.push((String::from_str("target_repo"), text_value(&request.target_repo)));
    fields.push((String::from_str("source_brief"), text_value(&request.source_brief)));
    fields.push((String::from_str("planner_actor"), text_value(&request.planner_actor)));
    fields.push((String::from_str("planner_llm"), text_value(&request.planner_llm)));
    fields.push((String::from_str("verify_commands"), commands_to_value(&request.verify_commands)));
    let steps = match request.max_steps {
        Some(m) => GateValue::Integer(m as i128),
        None => GateValue::Null,
    };
    fields.push((String::from_str("max_steps"), steps));
    GateStruct { fields }
}

/// `factory:run:orchestrate` data.
pub fn orchestrate_data(
    run_id: i64,
    verify_commands: &Option<Vec<VerifyCommand>>,
    max_steps: Option<u64>,
) -> (d: GateStruct)
    ensures
        d.fields@.len() == 3,
        key_at(d.fields@, 0, "run_id"@) && d.fields@[0].1 == GateValue::Integer(run_id as i128),
        key_at(d.fields@, 1, "verify_commands"@) && commands_value(d.fields@[1].1, *verify_commands),
        key_at(d.fields@, 2, "max_steps"@) && int_or_null(
            d.fields@[2].1,
            match max_steps {
                Some(m) => Some(m as int),
                None => None,
            },
        ),
{
    let mut fields: Vec<(String, GateValue)> = Vec::new();
    fields.push((String::from_str("run_id"), GateValue::Integer(run_id as i128)));
    fields.push((String::from_str("verify_commands"), commands_to_value(verify_commands)));
    let steps = match max_steps {
        Some(m) => GateValue::Integer(m as i128),
        None => GateValue::Null,
    };
    fields.push((String::from_str("max_steps"), steps));
    GateStruct { fields }
}

/// The six requests that make up a run snapshot, in the order they are sent.
pub fn snapshot_requests(run_id: i64) -> (r: Result<Vec<(&'static str, GateStruct)>, String>)
    ensures
        -MAX_SAFE_INTEGER <= run_id <= MAX_SAFE_INTEGER ==> (r matches Ok(reqs) && {
            &&& reqs@.len() == 6
            &&& reqs@[0].0@ == "factory:run:get"@
            &&& reqs@[1].0@ == "factory:run:status"@
            &&& reqs@[2].0@ == "factory:stage:list"@
            &&& reqs@[3].0@ == "factory:issue:list"@
            &&& reqs@[4].0@ == "factory:artifact:list"@
            &&& reqs@[5].0@ == "factory:checkpoint:list"@
            &&& forall|i: int|
                0 <= i < 6 ==> (#[trigger] reqs@[i]).1.fields@.len() == 1 && key_at(
                    reqs@[i].1.fields@,
                    0,
                    if i < 2 {
                        "id"@
                    } else {
                        "run_id"@
                    },
                ) && reqs@[i].1.fields@[0].1 == GateValue::Integer(run_id as i128)
        }),
        !(-MAX_SAFE_INTEGER <= run_id <= MAX_SAFE_INTEGER) ==> (r matches Err(e) && e@
            == safe_range_error(run_id as int)),
{
    let mut reqs: Vec<(&'static str, GateStruct)> = Vec::new();
    reqs.push(("factory:run:get", run_id_data("id", run_id)?));
    reqs.push(("factory:run:status", run_id_data("id", run_id)?));
    reqs.push(("factory:stage:list", run_id_data("run_id", run_id)?));
    reqs.push(("factory:issue:list", run_id_data("run_id", run_id)?));
    reqs.push(("factory:artifact:list", run_id_data("run_id", run_id)?));
    reqs.push(("factory:checkpoint:list", run_id_data("run_id", run_id)?));
    Ok(reqs)
}

} // verus!
