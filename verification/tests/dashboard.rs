use std::collections::BTreeSet;

use prior_web::net::factory::{FactoryDashboardView, FactoryLifecyclePhaseDisplay, FactoryRunDisplay};
use prior_web::net::live::LiveServerMessage;
use prior_web::net::prior::{RepoEntry, RepoImportResult, RoomMessageEntry};
use prior_web::pages::auth_denied::auth_denied_message;
use prior_web::pages::dashboard::live::{live_message_effect, live_socket_url, LiveEffect};
use prior_web::pages::dashboard::state::{
    loads_data, repo_sidebar_state, CenterMode, ChatMessage, SidebarFilter,
};
use prior_web::pages::dashboard::view::{
    avatar_initial, bubble_class, can_send, chat_message_meta, connection_class, connection_label,
    display_room_name, empty_body, empty_title, import_feedback, import_step, is_general_room,
    lifecycle_sidebar, outgoing_message, parse_repo_spec, phase_view, progress_segment_class,
    reading_subtitle, repo_label, repo_list_copy, repo_meta, room_reply_messages, run_count_text,
    run_row, select_runs, toggle_selected_repo, toggle_star, update_tag_class, user_general_room,
    ImportStep,
};
use prior_web::pages::dashboard::{dashboard_or_empty, joins_room, page_shell, send_fallback, DashboardUi, PageShell};
use prior_web::state::auth::{AuthState, CurrentUser};
use prior_web::state::gate::{ConnectionStatus, GateUiState};

fn run(id: i64, repo: &str, attention: bool, completed: bool) -> FactoryRunDisplay {
    FactoryRunDisplay {
        id,
        title: format!("Run {id}"),
        repo_label: repo.to_string(),
        requested_by: "u".to_string(),
        status: "running".to_string(),
        current_stage: "plan".to_string(),
        summary: "s".to_string(),
        active_room_count: 2,
        issue_count: 3,
        blocker_count: 1,
        needs_attention: attention,
        completed,
        updates: vec![],
        lifecycle: vec![],
        next_actions: vec![],
        diagnostics: vec![],
        room_labels: vec![],
    }
}

fn runs() -> Vec<FactoryRunDisplay> {
    vec![
        run(5, "acme/app", true, false),
        run(4, "acme/lib", false, true),
        run(3, "acme/app", false, false),
    ]
}

fn ids(v: &[FactoryRunDisplay]) -> Vec<i64> {
    v.iter().map(|r| r.id).collect()
}

#[test]
fn filters_and_counts() {
    let none = BTreeSet::new();
    let all = select_runs(runs(), SidebarFilter::All, &none, &None, None);
    assert_eq!(ids(&all.runs), vec![5, 4, 3]);
    assert_eq!((all.all_count, all.attention_count, all.completed_count, all.starred_count), (3, 1, 1, 0));
    assert_eq!(all.selected_run_id, Some(5));
    assert_eq!(all.selected_index, Some(0));
    let attention = select_runs(runs(), SidebarFilter::NeedsAttention, &none, &None, None);
    assert_eq!(ids(&attention.runs), vec![5]);
    let done = select_runs(runs(), SidebarFilter::Completed, &none, &None, None);
    assert_eq!(ids(&done.runs), vec![4]);
    let starred: BTreeSet<i64> = [3].into_iter().collect();
    let st = select_runs(runs(), SidebarFilter::Starred, &starred, &None, None);
    assert_eq!(ids(&st.runs), vec![3]);
    assert_eq!(st.starred_count, 1);
    let repo = select_runs(runs(), SidebarFilter::All, &none, &Some("acme/app".to_string()), None);
    assert_eq!(ids(&repo.runs), vec![5, 3]);
}

#[test]
fn selection_stays_while_listed() {
    let none = BTreeSet::new();
    let kept = select_runs(runs(), SidebarFilter::All, &none, &None, Some(3));
    assert_eq!(kept.selected_run_id, Some(3));
    assert_eq!(kept.selected_index, Some(2));
    let moved = select_runs(runs(), SidebarFilter::Completed, &none, &None, Some(3));
    assert_eq!(moved.selected_run_id, Some(4));
    let empty = select_runs(runs(), SidebarFilter::Starred, &none, &None, Some(3));
    assert!(empty.runs.is_empty());
    assert_eq!(empty.selected_run_id, None);
    assert_eq!(empty.selected_index, None);
}

#[test]
fn star_toggles_twice_back() {
    let mut s: BTreeSet<i64> = [1, 2].into_iter().collect();
    let before = s.clone();
    toggle_star(&mut s, 7);
    assert!(s.contains(&7));
    toggle_star(&mut s, 7);
    assert_eq!(s, before);
    toggle_star(&mut s, 1);
    assert!(!s.contains(&1));
}

#[test]
fn repo_selection_toggles() {
    assert_eq!(toggle_selected_repo(None, "a/b".to_string()), Some("a/b".to_string()));
    assert_eq!(toggle_selected_repo(Some("a/b".to_string()), "a/b".to_string()), None);
    assert_eq!(toggle_selected_repo(Some("x/y".to_string()), "a/b".to_string()), Some("a/b".to_string()));
}

#[test]
fn labels_and_classes() {
    assert_eq!(connection_label(ConnectionStatus::Connecting), "Connecting...");
    assert_eq!(connection_class(ConnectionStatus::Disconnected), "status-pill status-pill--down");
    assert_eq!(empty_title(SidebarFilter::Starred), "No starred runs");
    assert_eq!(empty_body(SidebarFilter::Starred), "Star runs from the inbox to pin them here.");
    assert_eq!(run_count_text(true, 4), "Loading...");
    assert_eq!(run_count_text(false, 4), "4 run(s)");
    let starred: BTreeSet<i64> = [5].into_iter().collect();
    let row = run_row(&run(5, "r", true, true), Some(5), &starred);
    assert_eq!(row.row_class, "room-row selected");
    assert_eq!(row.star_class, "room-star starred");
    assert_eq!(row.tag_text, "Attention");
    assert_eq!(row.tag_class, "room-tag err");
    let plain = run_row(&run(6, "r", false, true), Some(5), &starred);
    assert_eq!(plain.row_class, "room-row");
    assert_eq!(plain.star_title, "Star run");
    assert_eq!(plain.tag_text, "Complete");
    assert_eq!(reading_subtitle(&run(1, "acme/app", false, false)), "acme/app • running • 2 room(s)");
    assert_eq!(update_tag_class("blocker"), "room-tag err");
    assert_eq!(update_tag_class("checkpoint"), "room-tag warn");
    assert_eq!(update_tag_class("stage"), "room-tag info");
    assert_eq!(progress_segment_class("active"), "lifecycle-progress-seg active");
    let p = FactoryLifecyclePhaseDisplay {
        name: "Plan".to_string(),
        detail: "d".to_string(),
        state: "done".to_string(),
    };
    assert_eq!(phase_view(&p), ("lifecycle-phase done", "phase-icon done", "✓"));
}

#[test]
fn lifecycle_sidebar_text() {
    let gate = GateUiState {
        connection: ConnectionStatus::Connected,
        gate_url: "wss://g".to_string(),
        server_name: None,
        status: "ok".to_string(),
        rooms: vec![],
        last_event: None,
    };
    let empty = lifecycle_sidebar(None, &gate);
    assert_eq!(empty.selected_run_label, "No active runs");
    assert_eq!(empty.selected_run_status, "None");
    assert_eq!(empty.selected_run_summary, "No run selected.");
    assert_eq!(empty.server_line, "Server: unknown");
    assert_eq!(empty.gate_line, "Gate: wss://g");
    assert_eq!(empty.visible_runs_line, "Visible runs: 0");
    let r = run(12, "x", false, false);
    let v = lifecycle_sidebar(Some(&r), &gate);
    assert_eq!(v.selected_run_label, "Run 12 • plan");
    assert_eq!(v.selected_run_summary, "3 issue(s), 1 blocker(s), 2 room(s)");
    assert_eq!(v.visible_runs_line, "Visible runs: 1");
}

#[test]
fn avatar_letters() {
    assert_eq!(avatar_initial("dana"), "D");
    assert_eq!(avatar_initial(""), "?");
    assert_eq!(avatar_initial("ßig"), "SS");
}

#[test]
fn rooms() {
    let u = CurrentUser { sub: "github:9".to_string(), display_name: None, email: None, avatar_url: None };
    assert_eq!(user_general_room(&u), "user:github:9#general");
    assert!(is_general_room("user:github:9#general"));
    assert!(!is_general_room("acme/app"));
    assert_eq!(display_room_name("user:x#general"), "#general");
    assert_eq!(display_room_name("acme/app"), "acme/app");
    assert!(joins_room("acme/app"));
    assert!(!joins_room("#general"));
    assert!(!joins_room(""));
}

#[test]
fn message_meta_and_bubbles() {
    let m = |topic: &str, actor: Option<&str>, human: bool| ChatMessage {
        topic: topic.to_string(),
        actor: actor.map(str::to_string),
        content: "c".to_string(),
        is_human: human,
    };
    assert_eq!(chat_message_meta(&m("user", None, true)), None);
    assert_eq!(chat_message_meta(&m("door:tool", Some("prior"), false)).as_deref(), Some("Tool Call · prior"));
    assert_eq!(chat_message_meta(&m("door:message", Some(""), false)).as_deref(), Some("Prior"));
    assert_eq!(chat_message_meta(&m("weird", None, false)).as_deref(), Some("Event"));
    assert_eq!(chat_message_meta(&m("error", None, false)).as_deref(), Some("Error"));
    assert_eq!(bubble_class(&m("door:thought", None, false)), "chat-bubble chat-bubble--assistant chat-bubble--thought");
    assert_eq!(bubble_class(&m("door:tool_result", None, false)), "chat-bubble chat-bubble--assistant chat-bubble--tool");
    assert_eq!(bubble_class(&m("door:thought", None, true)), "chat-bubble chat-bubble--human");
    assert_eq!(bubble_class(&m("door:chat", None, false)), "chat-bubble chat-bubble--assistant");
}

#[test]
fn sending_rules() {
    assert!(can_send(false, " hi "));
    assert!(!can_send(true, "hi"));
    assert!(!can_send(false, "  \n"));
    assert_eq!(outgoing_message("  hi there \n", false).as_deref(), Some("hi there"));
    assert_eq!(outgoing_message("hi", true), None);
    let replies = room_reply_messages(vec![
        RoomMessageEntry { topic: "door:chat".to_string(), actor: Some("p".to_string()), content: "a".to_string() },
        RoomMessageEntry { topic: "door:chat".to_string(), actor: None, content: "  ".to_string() },
        RoomMessageEntry { topic: "door:tool".to_string(), actor: None, content: "b".to_string() },
    ]);
    assert_eq!(replies.len(), 2);
    assert_eq!(replies[1].topic, "door:tool");
    assert!(!replies[0].is_human);
}

#[test]
fn repo_specs() {
    let ok = |s: &str| parse_repo_spec(s).unwrap();
    assert_eq!(ok("acme/app"), ("acme".to_string(), "app".to_string(), "https://github.com/acme/app.git".to_string()));
    assert_eq!(ok(" https://github.com/acme/app.git/ ").1, "app");
    assert_eq!(ok("http://github.com/acme/app").0, "acme");
    assert_eq!(ok("git@github.com:acme/app.git").2, "https://github.com/acme/app.git");
    assert_eq!(ok("acme//app").1, "app");
    assert_eq!(parse_repo_spec("   ").unwrap_err(), "Enter a GitHub repo as owner/name or a full GitHub URL.");
    assert_eq!(parse_repo_spec("///").unwrap_err(), "Enter a GitHub repo as owner/name or a full GitHub URL.");
    assert_eq!(parse_repo_spec("https://github.com/.git").unwrap_err(), "Repo must include an owner.");
    assert_eq!(parse_repo_spec("acme").unwrap_err(), "Repo must include a repository name.");
    assert_eq!(parse_repo_spec("a/b/c").unwrap_err(), "Repo format should be owner/name or a direct GitHub repo URL.");
}

#[test]
fn import_steps() {
    assert!(matches!(import_step("  ", false), ImportStep::Ignore));
    assert!(matches!(import_step("acme/app", true), ImportStep::Ignore));
    match import_step("acme", false) {
        ImportStep::Invalid(f) => {
            assert!(f.is_error);
            assert_eq!(f.message, "Repo must include a repository name.");
        }
        other => panic!("unexpected {other:?}"),
    }
    match import_step(" acme/app ", false) {
        ImportStep::Start { owner, name, clone_url } => {
            assert_eq!((owner.as_str(), name.as_str()), ("acme", "app"));
            assert_eq!(clone_url, "https://github.com/acme/app.git");
        }
        other => panic!("unexpected {other:?}"),
    }
    let ok = import_feedback("acme", "app", Ok(RepoImportResult { room: "acme/app".to_string(), bare_path: "/b".to_string() }));
    assert_eq!(ok.message, "Tracking acme/app in acme/app");
    assert!(!ok.is_error);
    let err = import_feedback("acme", "app", Err("denied".to_string()));
    assert_eq!(err.message, "Import failed for acme/app: denied");
    assert!(err.is_error);
}

#[test]
fn repo_sidebar() {
    let entry = RepoEntry {
        id: 1,
        ts: 0,
        owner: "acme".to_string(),
        name: "app".to_string(),
        room: "acme/app".to_string(),
        clone_url: "u".to_string(),
        bare_path: "b".to_string(),
        default_base_branch: Some(" ".to_string()),
        last_sync_ts: None,
    };
    assert_eq!(repo_label(&entry), "acme/app");
    assert_eq!(repo_meta(&entry), None);
    let mut main = entry.clone();
    main.default_base_branch = Some("main".to_string());
    assert_eq!(repo_meta(&main).as_deref(), Some("main"));
    assert!(repo_sidebar_state(None).loading);
    let loaded = repo_sidebar_state(Some(Some(Ok(vec![entry]))));
    assert_eq!(loaded.repos.len(), 1);
    assert!(!loaded.loading);
    let failed = repo_sidebar_state(Some(Some(Err("x".to_string()))));
    assert_eq!(failed.error.as_deref(), Some("x"));
    let skipped = repo_sidebar_state(Some(None));
    assert!(!skipped.loading && skipped.error.is_none());
    assert_eq!(repo_list_copy(true, true), Some("Loading tracked repositories..."));
    assert_eq!(repo_list_copy(false, false), None);
}

#[test]
fn page_shells_and_loading() {
    assert!(matches!(page_shell(None), PageShell::Loading));
    assert!(matches!(page_shell(Some(Ok(AuthState::Anonymous))), PageShell::Unauthenticated));
    assert!(matches!(page_shell(Some(Err("e".to_string()))), PageShell::SessionError(e) if e == "e"));
    let u = CurrentUser { sub: "s".to_string(), display_name: None, email: None, avatar_url: None };
    assert!(loads_data(&Some(Ok(AuthState::Authenticated(u.clone())))));
    assert!(!loads_data(&Some(Ok(AuthState::Anonymous))));
    assert!(!loads_data(&None));
    assert!(matches!(page_shell(Some(Ok(AuthState::Authenticated(u)))), PageShell::Authenticated(_)));
    assert_eq!(dashboard_or_empty(Some(Some(Ok(FactoryDashboardView { runs: vec![run(1, "r", false, false)] })))).runs.len(), 1);
    assert!(dashboard_or_empty(Some(Some(Err("x".to_string())))).runs.is_empty());
    assert!(dashboard_or_empty(None).runs.is_empty());
}

#[test]
fn ui_state_transitions() {
    let mut ui = DashboardUi::new();
    assert_eq!(ui.center_mode, CenterMode::Runs);
    ui.chat_sending = true;
    ui.open_room("acme/app".to_string());
    assert_eq!(ui.selected_room, "acme/app");
    assert_eq!(ui.center_mode, CenterMode::General);
    assert!(!ui.chat_sending);
    ui.chat_draft = "   ".to_string();
    assert_eq!(ui.begin_send(), None);
    ui.chat_draft = "  hello ".to_string();
    assert_eq!(ui.begin_send(), Some(("acme/app".to_string(), "hello".to_string())));
    assert_eq!(ui.chat_draft, "");
    assert!(ui.chat_sending);
    assert_eq!(ui.chat_messages.len(), 1);
    assert!(ui.chat_messages[0].is_human);
    ui.chat_draft = "again".to_string();
    assert_eq!(ui.begin_send(), None);
    assert_eq!(ui.chat_draft, "again");
    assert_eq!(send_fallback(true, "r".to_string(), "c".to_string()), None);
    assert_eq!(send_fallback(false, "r".to_string(), "c".to_string()), Some(("r".to_string(), "c".to_string())));
    ui.finish_send(Err("offline".to_string()));
    assert!(!ui.chat_sending);
    assert_eq!(ui.chat_messages[1].content, "Error: offline");
    ui.set_filter(SidebarFilter::Completed);
    assert_eq!(ui.center_mode, CenterMode::Runs);
    ui.select_repo("a/b".to_string());
    assert_eq!(ui.selected_repo.as_deref(), Some("a/b"));
    ui.select_repo("a/b".to_string());
    assert_eq!(ui.selected_repo, None);
    ui.star(3);
    assert!(ui.starred_runs.contains(&3));
    ui.select_run(3);
    assert_eq!(ui.selected_run, Some(3));
}

#[test]
fn ui_import_flow() {
    let mut ui = DashboardUi::new();
    assert_eq!(ui.start_import(), None);
    ui.repo_draft = "nope".to_string();
    assert_eq!(ui.start_import(), None);
    assert!(ui.repo_feedback.as_ref().unwrap().is_error);
    ui.repo_draft = "acme/app".to_string();
    let started = ui.start_import().unwrap();
    assert_eq!(started.0, "acme");
    assert!(ui.repo_importing);
    assert!(ui.repo_feedback.is_none());
    assert_eq!(ui.start_import(), None);
    ui.finish_import("acme", "app", Ok(RepoImportResult { room: "r".to_string(), bare_path: "b".to_string() }));
    assert!(!ui.repo_importing);
    assert_eq!(ui.repo_draft, "");
    assert_eq!(ui.repo_feedback.as_ref().unwrap().message, "Tracking acme/app in r");
}

#[test]
fn live_effects() {
    assert!(matches!(live_message_effect(None), LiveEffect::Ignore));
    assert!(matches!(
        live_message_effect(Some(LiveServerMessage::RoomEvent {
            room: None,
            topic: "door:chat".to_string(),
            actor: None,
            content: " ".to_string()
        })),
        LiveEffect::Ignore
    ));
    assert!(matches!(live_message_effect(Some(LiveServerMessage::RoomTurnDone { room: "r".to_string() })), LiveEffect::TurnDone));
    match live_message_effect(Some(LiveServerMessage::Error { message: "lost".to_string() })) {
        LiveEffect::Error(m) => {
            assert_eq!(m.content, "Error: lost");
            assert_eq!(m.topic, "error");
        }
        other => panic!("unexpected {other:?}"),
    }
    let mut ui = DashboardUi::new();
    ui.chat_sending = true;
    let refresh = ui.apply_live(live_message_effect(Some(LiveServerMessage::RoomEvent {
        room: None,
        topic: "door:chat".to_string(),
        actor: Some("prior".to_string()),
        content: "done".to_string(),
    })));
    assert!(!refresh);
    assert!(ui.chat_sending);
    assert_eq!(ui.chat_messages.len(), 1);
    ui.apply_live(LiveEffect::TurnDone);
    assert!(!ui.chat_sending);
    assert!(ui.apply_live(LiveEffect::Refresh));
    assert_eq!(live_socket_url("https:", "web.test"), "wss://web.test/ws/live");
    assert_eq!(live_socket_url("http:", "localhost:3000"), "ws://localhost:3000/ws/live");
}

#[test]
fn denied_messages() {
    assert_eq!(auth_denied_message(Some("access_denied")), "Login was canceled before authorization completed.");
    assert_eq!(auth_denied_message(Some("login_failed")), "Prior could not complete login and establish a session.");
    assert_eq!(
        auth_denied_message(None),
        "Authentication did not complete. Try again, and check server logs if the failure repeats."
    );
}
