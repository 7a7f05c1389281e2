use std::cell::Cell;

use cc_switch_tui::action::Action;
use cc_switch_tui::app::App;
use cc_switch_tui::app_data::DataWorkers;
use cc_switch_tui::app_type::{AppNames, AppType};
use cc_switch_tui::cache::UiDataByAppCache;
use cc_switch_tui::data::UiData;
use cc_switch_tui::dispatch::{finish_tui_action, handle_tui_action, ActionStep};
use cc_switch_tui::event_loop::receive_session_msg;
use cc_switch_tui::frame::FrameScheduler;
use cc_switch_tui::outbox::{Link, Outbox};
use cc_switch_tui::route::Route;
use cc_switch_tui::session_messages::{
    handle_session_msg, ManifestPage, PublishedManifest, PurgedManifest, SessionMsg,
};
use cc_switch_tui::session_requests::{
    maybe_queue_session_manifest_reconcile, maybe_queue_session_page_load,
    queue_sessions_refresh_if_needed, SessionReq,
};
use cc_switch_tui::session_rows::{
    capture_session_selection, find_session_identity, restore_session_selection,
    visible_session_rows, SessionIdentity,
};
use cc_switch_tui::sessions::{
    session_key, ManifestReader, SessionMessage, SessionMeta, SessionPageSource, SessionsPane,
};
use cc_switch_tui::text::ToastKind;

fn new_app(app_type: Option<AppType>) -> App {
    let name = |app_type: AppType| format!("{app_type:?}").to_lowercase();
    let names = AppNames {
        claude: name(AppType::Claude),
        codex: name(AppType::Codex),
        gemini: name(AppType::Gemini),
        open_code: name(AppType::OpenCode),
        hermes: name(AppType::Hermes),
        open_claw: name(AppType::OpenClaw),
    };
    App::new(app_type, names)
}

/// The name that the first application is stored under.
fn claude() -> String {
    format!("{:?}", AppType::Claude).to_lowercase()
}

fn session(provider: &str, id: &str, last_active_at: i64) -> SessionMeta {
    SessionMeta {
        provider_id: provider.to_string(),
        session_id: id.to_string(),
        title: Some(id.to_string()),
        summary: None,
        project_dir: None,
        created_at: None,
        last_active_at: Some(last_active_at),
        source_path: Some(format!("/tmp/{id}.jsonl")),
        resume_command: None,
    }
}

/// Publishes manifests, each later than the one before.
struct Store {
    epoch: Cell<u64>,
}

impl Store {
    fn new() -> Store {
        Store {
            epoch: Cell::new(0),
        }
    }

    fn publish(
        &self,
        generation: &str,
        mut rows: Vec<SessionMeta>,
    ) -> (PublishedManifest, ManifestReader) {
        self.epoch.set(self.epoch.get() + 1);
        rows.sort_by_key(|row| -row.last_active_at.unwrap_or(0));
        let reader = ManifestReader {
            handle: self.epoch.get(),
            build_epoch: self.epoch.get(),
        };
        let published = PublishedManifest {
            generation: generation.to_string(),
            total_rows: rows.len(),
            first_page: page(generation, rows),
        };
        (published, reader)
    }
}

fn page(generation: &str, rows: Vec<SessionMeta>) -> ManifestPage {
    ManifestPage {
        generation: generation.to_string(),
        total_rows: rows.len(),
        page_index: 0,
        rows,
    }
}

fn scan_published(
    request_id: u64,
    scope_epoch: u64,
    scope: &str,
    result: Result<(PublishedManifest, ManifestReader), String>,
) -> SessionMsg {
    SessionMsg::ManifestPublished {
        request_id,
        scope_epoch,
        scope: scope.to_string(),
        result,
    }
}

fn query_published(
    app: &App,
    request_id: u64,
    base_generation: String,
    result: (PublishedManifest, ManifestReader),
) -> SessionMsg {
    SessionMsg::QueryPublished {
        request_id,
        scope_epoch: app.sessions.scope_epoch,
        scope: claude(),
        base_generation,
        query: "needle".to_string(),
        query_namespace: app.sessions.query_namespace.clone(),
        result: Ok(result),
    }
}

fn purged(scope: &str, (published, reader): (PublishedManifest, ManifestReader)) -> PurgedManifest {
    PurgedManifest {
        scope: scope.to_string(),
        published,
        reader,
    }
}

fn deleted(request_id: u64, key: &str) -> SessionMsg {
    SessionMsg::DeleteFinished {
        request_id,
        key: key.to_string(),
        result: Ok(()),
    }
}

fn base_generation(app: &App) -> String {
    app.sessions
        .base_manifest
        .as_ref()
        .expect("base manifest")
        .generation
        .clone()
}

fn pending_generation(app: &App) -> Option<&str> {
    app.sessions
        .pending_manifest
        .as_ref()
        .map(|pending| pending.generation.as_str())
}

fn highlighted_session_key(app: &App) -> Option<String> {
    visible_session_rows(app)
        .get(app.sessions.selected_idx)
        .map(|at| session_key(&app.sessions.rows[*at]))
}

fn refresh_id(worker: &mut Outbox<SessionReq>) -> Option<u64> {
    worker.take().into_iter().find_map(|req| match req {
        SessionReq::Refresh { request_id, .. } => Some(request_id),
        _ => None,
    })
}

#[test]
fn session_scan_result_updates_runtime_state_without_ui_data() {
    let store = Store::new();
    let mut app = new_app(Some(AppType::Claude));
    let request_id = app.sessions.start_scan(claude());
    let scope_epoch = app.sessions.scope_epoch;

    handle_session_msg(
        &mut app,
        scan_published(
            request_id,
            scope_epoch,
            &claude(),
            Ok(store.publish("g1", vec![session(&claude(), "session-1", 2)])),
        ),
    );

    assert!(app.sessions.loaded_once);
    assert!(!app.sessions.loading);
    assert_eq!(app.sessions.rows.len(), 1);
    assert_eq!(app.sessions.rows[0].provider_id, claude());
    assert_eq!(app.sessions.pagination.len, 1);
    assert_eq!(app.sessions.pagination.selected, Some(0));
    assert!(app.sessions.pagination.row_focused);
}

#[test]
fn stale_session_scan_result_is_ignored() {
    let store = Store::new();
    let mut app = new_app(Some(AppType::Claude));
    let stale_id = app.sessions.start_scan(claude());
    let scope_epoch = app.sessions.scope_epoch;
    let _current_id = app.sessions.start_scan(claude());

    handle_session_msg(
        &mut app,
        scan_published(
            stale_id,
            scope_epoch,
            &claude(),
            Ok(store.publish("stale", vec![session(&claude(), "stale", 1)])),
        ),
    );

    assert!(app.sessions.rows.is_empty());
    assert!(app.sessions.loading);
}

#[test]
fn stale_session_failures_do_not_interrupt_the_current_request() {
    let mut app = new_app(Some(AppType::Claude));
    let stale_scan = app.sessions.start_scan(claude());
    let scope_epoch = app.sessions.scope_epoch;
    let current_scan = app.sessions.start_scan(claude());

    handle_session_msg(
        &mut app,
        scan_published(
            stale_scan,
            scope_epoch,
            &claude(),
            Err("stale scan failed".to_string()),
        ),
    );

    assert_eq!(app.sessions.scan_active, Some(current_scan));
    assert!(app.sessions.loading);
    assert!(app.toast.is_none());

    app.sessions.detail_key = Some(format!("{}:a:/tmp/a", claude()));
    let stale_messages = app
        .sessions
        .start_message_load(format!("{}:a:/tmp/a", claude()));
    let current_messages = app
        .sessions
        .start_message_load(format!("{}:a:/tmp/a", claude()));
    handle_session_msg(
        &mut app,
        SessionMsg::MessagesLoaded {
            request_id: stale_messages,
            key: format!("{}:a:/tmp/a", claude()),
            result: Err("stale messages failed".to_string()),
        },
    );

    assert_eq!(app.sessions.message_active, Some(current_messages));
    assert!(app.sessions.messages_loading);
    assert!(app.toast.is_none());

    let stale_delete = app.sessions.start_delete();
    app.sessions.fail_delete(stale_delete);
    handle_session_msg(
        &mut app,
        SessionMsg::DeleteFinished {
            request_id: stale_delete,
            key: format!("{}:a:/tmp/a", claude()),
            result: Err("stale delete failed".to_string()),
        },
    );
    assert!(app.toast.is_none());
}

#[test]
fn refresh_failure_keeps_a_healthy_manifest_page_visible() {
    let store = Store::new();
    let mut app = new_app(Some(AppType::Claude));
    let initial = app.sessions.start_scan(claude());
    let scope_epoch = app.sessions.scope_epoch;
    handle_session_msg(
        &mut app,
        scan_published(
            initial,
            scope_epoch,
            &claude(),
            Ok(store.publish("base-1", vec![session(&claude(), "healthy", 1)])),
        ),
    );

    let refresh = app.sessions.start_scan(claude());
    handle_session_msg(
        &mut app,
        scan_published(
            refresh,
            scope_epoch,
            &claude(),
            Err("temporary read failure".to_string()),
        ),
    );

    assert_eq!(app.sessions.rows[0].session_id, "healthy");
    assert!(app.sessions.page_token().is_some());
    assert!(!app.sessions.loading);
    assert!(app.sessions.last_error.is_none());
    assert_eq!(
        app.toast.as_ref().map(|toast| toast.kind),
        Some(ToastKind::Warning)
    );
}

#[test]
fn materialized_query_keeps_content_only_matches_visible() {
    let store = Store::new();
    let mut app = new_app(Some(AppType::Claude));
    let initial = app.sessions.start_scan(claude());
    let scope_epoch = app.sessions.scope_epoch;
    handle_session_msg(
        &mut app,
        scan_published(
            initial,
            scope_epoch,
            &claude(),
            Ok(store.publish("base-1", vec![session(&claude(), "base", 1)])),
        ),
    );
    let base_generation = base_generation(&app);
    app.filter.input.set("needle".to_string());
    app.sessions.deep_search_query = Some("needle".to_string());
    app.sessions.deep_search_seq = 7;
    app.sessions.deep_search_active = Some(7);

    let msg = query_published(
        &app,
        7,
        base_generation,
        store.publish("query-1", vec![session(&claude(), "body-only", 2)]),
    );
    handle_session_msg(&mut app, msg);

    let visible = visible_session_rows(&app);
    assert_eq!(visible.len(), 1);
    assert_eq!(app.sessions.rows[visible[0]].session_id, "body-only");
    assert_eq!(
        app.sessions.page_token().map(|token| token.source),
        Some(SessionPageSource::Query)
    );
}

#[test]
fn base_refresh_does_not_replace_an_active_query_page() {
    let store = Store::new();
    let mut app = new_app(Some(AppType::Claude));
    let initial = app.sessions.start_scan(claude());
    let scope_epoch = app.sessions.scope_epoch;
    handle_session_msg(
        &mut app,
        scan_published(
            initial,
            scope_epoch,
            &claude(),
            Ok(store.publish("base-1", vec![session(&claude(), "base", 1)])),
        ),
    );
    let base = base_generation(&app);
    app.filter.input.set("needle".to_string());
    app.sessions.deep_search_query = Some("needle".to_string());
    app.sessions.deep_search_active = Some(4);
    let msg = query_published(
        &app,
        4,
        base,
        store.publish("query-1", vec![session(&claude(), "query-row", 2)]),
    );
    handle_session_msg(&mut app, msg);

    let refresh = app.sessions.start_scan(claude());
    handle_session_msg(
        &mut app,
        scan_published(
            refresh,
            scope_epoch,
            &claude(),
            Ok(store.publish("base-2", vec![session(&claude(), "new-base", 3)])),
        ),
    );

    assert_eq!(app.sessions.rows[0].session_id, "query-row");
    assert_eq!(
        app.sessions.page_token().map(|token| token.source),
        Some(SessionPageSource::Query)
    );
    assert_ne!(
        Some(base_generation(&app).as_str()),
        app.sessions
            .page_token()
            .map(|token| token.generation.as_str())
    );
    assert_eq!(app.pending_deep_search.as_deref(), Some("needle"));
}

#[test]
fn session_scan_result_clears_missing_detail() {
    let store = Store::new();
    let mut app = new_app(Some(AppType::Claude));
    let initial_request = app.sessions.start_scan(claude());
    let scope_epoch = app.sessions.scope_epoch;
    handle_session_msg(
        &mut app,
        scan_published(
            initial_request,
            scope_epoch,
            &claude(),
            Ok(store.publish("old-generation", vec![session(&claude(), "old", 1)])),
        ),
    );
    let key = session_key(&app.sessions.rows[0]);
    app.sessions.open_detail(key);
    app.sessions.messages_loaded = true;
    app.sessions.messages = vec![SessionMessage {
        role: "assistant".to_string(),
        content: "stale detail".to_string(),
        ts: None,
    }];
    let request_id = app.sessions.start_scan(claude());

    handle_session_msg(
        &mut app,
        scan_published(
            request_id,
            scope_epoch,
            &claude(),
            Ok(store.publish("new-generation", vec![session(&claude(), "new", 2)])),
        ),
    );
    let asked = app
        .sessions
        .next_manifest_reconcile()
        .expect("published manifest should require bounded reconciliation");
    handle_session_msg(
        &mut app,
        SessionMsg::ManifestLocated {
            request_id: asked.request_id,
            scope_epoch,
            generation: asked.generation,
            result: Ok((
                asked.reader,
                page("new-generation", vec![session(&claude(), "new", 2)]),
                0,
            )),
        },
    );

    assert_eq!(app.sessions.rows.len(), 1);
    assert_eq!(app.sessions.rows[0].session_id, "new");
    assert!(app.sessions.detail_key.is_none());
    assert!(app.sessions.messages.is_empty());
    assert!(!app.sessions.messages_loaded);
}

#[test]
fn session_delete_result_clamps_selection_against_current_filter() {
    let row = |id: &str, title: &str| SessionMeta {
        provider_id: claude(),
        session_id: id.to_string(),
        title: Some(title.to_string()),
        summary: None,
        project_dir: None,
        created_at: None,
        last_active_at: None,
        source_path: Some(format!("/tmp/{id}.jsonl")),
        resume_command: None,
    };
    let mut app = new_app(Some(AppType::Claude));
    app.sessions.rows = vec![row("alpha", "Alpha"), row("beta", "Beta")];
    app.filter.input.set("beta".to_string());
    app.sessions.selected_idx = 1;
    let key = session_key(&app.sessions.rows[1]);
    let request_id = app.sessions.start_delete();

    handle_session_msg(&mut app, deleted(request_id, &key));

    assert_eq!(app.sessions.selected_idx, 0);
    assert_eq!(app.sessions.rows.len(), 1);
    assert_eq!(app.sessions.rows[0].session_id, "alpha");
}

#[test]
fn deleting_from_a_query_rebuilds_the_same_query_from_the_purged_base() {
    let store = Store::new();
    let both = || {
        vec![
            session(&claude(), "deleted", 2),
            session(&claude(), "kept", 1),
        ]
    };
    let mut app = new_app(Some(AppType::Claude));
    let initial = app.sessions.start_scan(claude());
    let scope_epoch = app.sessions.scope_epoch;
    handle_session_msg(
        &mut app,
        scan_published(
            initial,
            scope_epoch,
            &claude(),
            Ok(store.publish("base", both())),
        ),
    );
    let base = base_generation(&app);
    app.sessions.deep_search_query = Some("needle".to_string());
    app.sessions.deep_search_active = Some(7);
    let msg = query_published(&app, 7, base, store.publish("query", both()));
    handle_session_msg(&mut app, msg);
    let deleted_key = session_key(&app.sessions.rows[0]);
    let delete_request = app.sessions.start_delete();
    handle_session_msg(&mut app, deleted(delete_request, &deleted_key));
    assert!(app.sessions.is_tombstoned(&deleted_key));

    handle_session_msg(
        &mut app,
        SessionMsg::ManifestsPurged {
            request_id: delete_request,
            key: deleted_key.clone(),
            base: vec![purged(
                &claude(),
                store.publish("base-purged", vec![session(&claude(), "kept", 1)]),
            )],
        },
    );
    assert_eq!(app.pending_deep_search.as_deref(), Some("needle"));
    assert!(app.sessions.is_tombstoned(&deleted_key));

    let rebuilt_base = base_generation(&app);
    app.sessions.deep_search_seq = 8;
    app.sessions.deep_search_active = Some(8);
    let msg = query_published(
        &app,
        8,
        rebuilt_base,
        store.publish("query-rebuilt", vec![session(&claude(), "kept", 1)]),
    );
    handle_session_msg(&mut app, msg);

    assert_eq!(
        app.sessions.page_token().map(|token| token.source),
        Some(SessionPageSource::Query)
    );
    assert_eq!(app.sessions.rows.len(), 1);
    assert_eq!(app.sessions.rows[0].session_id, "kept");
    assert!(!app.sessions.purge_tombstone_applies_to_scope(
        delete_request,
        &deleted_key,
        &claude()
    ));
}

#[test]
fn delayed_purge_requires_the_current_delete_revision_and_cannot_regress_base() {
    let store = Store::new();
    let old_rows = || vec![session(&claude(), "old-generation", 1)];
    let (old, old_reader) = store.publish("old", old_rows());
    let newer = store.publish("newer", vec![session(&claude(), "new-generation", 2)]);
    assert!(newer.1.build_epoch > old_reader.build_epoch);
    let old_again = || {
        (
            PublishedManifest {
                generation: old.generation.clone(),
                total_rows: old.total_rows,
                first_page: page("old", old_rows()),
            },
            old_reader,
        )
    };

    let mut app = new_app(Some(AppType::Claude));
    let scan_request = app.sessions.start_scan(claude());
    let scope_epoch = app.sessions.scope_epoch;
    handle_session_msg(
        &mut app,
        scan_published(scan_request, scope_epoch, &claude(), Ok(newer)),
    );

    let deleted_key = session_key(&session(&claude(), "same", 3));
    let first_delete = app.sessions.start_delete();
    handle_session_msg(
        &mut app,
        SessionMsg::ManifestsPurged {
            request_id: first_delete,
            key: deleted_key.clone(),
            base: vec![purged(&claude(), old_again())],
        },
    );
    assert!(!app.sessions.is_tombstoned(&deleted_key));

    handle_session_msg(&mut app, deleted(first_delete, &deleted_key));
    let second_delete = app.sessions.start_delete();
    handle_session_msg(&mut app, deleted(second_delete, &deleted_key));

    handle_session_msg(
        &mut app,
        SessionMsg::ManifestsPurged {
            request_id: first_delete,
            key: deleted_key.clone(),
            base: vec![purged(&claude(), old_again())],
        },
    );
    assert!(app
        .sessions
        .purge_tombstone_is_current(second_delete, &deleted_key));

    handle_session_msg(
        &mut app,
        SessionMsg::ManifestsPurged {
            request_id: second_delete,
            key: deleted_key,
            base: vec![purged(&claude(), old_again())],
        },
    );
    assert_eq!(base_generation(&app), "newer");
    assert_eq!(pending_generation(&app), Some("newer"));
}

#[test]
fn delete_ack_from_an_old_scope_cannot_discard_new_scope_reconciliation() {
    let store = Store::new();
    let mut app = new_app(Some(AppType::Claude));
    let old_scan = app.sessions.start_scan(claude());
    let old_scope_epoch = app.sessions.scope_epoch;
    handle_session_msg(
        &mut app,
        scan_published(
            old_scan,
            old_scope_epoch,
            &claude(),
            Ok(store.publish("cc-base", vec![session(&claude(), "deleted", 1)])),
        ),
    );
    let deleted_key = session_key(&session(&claude(), "deleted", 1));
    let delete_request = app.sessions.start_delete();

    let codex_initial = app.sessions.start_scan("codex".to_string());
    let codex_epoch = app.sessions.scope_epoch;
    handle_session_msg(
        &mut app,
        scan_published(
            codex_initial,
            codex_epoch,
            "codex",
            Ok(store.publish("codex-base", vec![session("codex", "current", 1)])),
        ),
    );
    let codex_refresh = app.sessions.start_scan("codex".to_string());
    handle_session_msg(
        &mut app,
        scan_published(
            codex_refresh,
            codex_epoch,
            "codex",
            Ok(store.publish("codex-new", vec![session("codex", "new", 2)])),
        ),
    );
    assert_eq!(pending_generation(&app), Some("codex-new"));

    handle_session_msg(&mut app, deleted(delete_request, &deleted_key));

    assert_eq!(app.sessions.scan_active, Some(codex_refresh));
    assert!(app.sessions.loading);
    assert_eq!(pending_generation(&app), Some("codex-new"));
    assert!(app.sessions.next_manifest_reconcile().is_some());
}

#[test]
fn missing_current_purge_generation_requests_one_fresh_scan() {
    let mut app = new_app(Some(AppType::Claude));
    app.sessions.start_scan(claude());
    let key = session_key(&session(&claude(), "deleted", 1));
    let request_id = app.sessions.start_delete();
    handle_session_msg(&mut app, deleted(request_id, &key));

    handle_session_msg(
        &mut app,
        SessionMsg::ManifestsPurged {
            request_id,
            key,
            base: Vec::new(),
        },
    );

    assert!(app.sessions.purge_refresh_required());
}

#[test]
fn published_manifest_preserves_selected_session_key_after_bounded_reconcile() {
    let store = Store::new();
    let mut app = new_app(Some(AppType::Claude));
    let selected = || session(&claude(), "selected", 20);
    let selected_key = session_key(&selected());
    let initial_request = app.sessions.start_scan(claude());
    let scope_epoch = app.sessions.scope_epoch;
    handle_session_msg(
        &mut app,
        scan_published(
            initial_request,
            scope_epoch,
            &claude(),
            Ok(store.publish(
                "old-generation",
                vec![session(&claude(), "old", 10), selected()],
            )),
        ),
    );
    let initial_selected = app
        .sessions
        .rows
        .iter()
        .position(|row| row.session_id == "selected")
        .expect("selected row is present in the sorted initial manifest");
    app.sessions.selected_idx = initial_selected;
    app.sessions.pagination.select(initial_selected);
    app.sessions.open_detail(selected_key.clone());
    let request_id = app.sessions.start_scan(claude());
    let replacement = || {
        vec![
            session(&claude(), "new", 30),
            selected(),
            session(&claude(), "old", 10),
        ]
    };

    handle_session_msg(
        &mut app,
        scan_published(
            request_id,
            scope_epoch,
            &claude(),
            Ok(store.publish("new-generation", replacement())),
        ),
    );
    let asked = app
        .sessions
        .next_manifest_reconcile()
        .expect("published manifest should be reconciled in a worker");
    assert_eq!(
        asked.anchor.expect("stable anchor").session_id,
        "selected"
    );
    let located = page("new-generation", replacement());
    let selected_local = located
        .rows
        .iter()
        .position(|row| row.session_id == "selected")
        .expect("selected row remains in page");
    handle_session_msg(
        &mut app,
        SessionMsg::ManifestLocated {
            request_id: asked.request_id,
            scope_epoch,
            generation: asked.generation,
            result: Ok((asked.reader, located, selected_local)),
        },
    );

    assert_eq!(
        highlighted_session_key(&app).as_deref(),
        Some(selected_key.as_str())
    );
    assert_eq!(app.sessions.selected_idx, 1);
    assert_eq!(app.sessions.pagination.selected, Some(1));
    assert_eq!(
        app.sessions.detail_key.as_deref(),
        Some(selected_key.as_str())
    );
}

#[test]
fn deleting_an_earlier_row_keeps_highlight_and_detail_on_same_session() {
    let mut app = new_app(Some(AppType::Claude));
    app.sessions.provider_id = Some(claude());
    let gone = session(&claude(), "deleted", 30);
    let gone_key = session_key(&gone);
    let selected = session(&claude(), "selected", 10);
    let selected_key = session_key(&selected);
    app.sessions.rows = vec![gone, session(&claude(), "middle", 20), selected];
    app.sessions.selected_idx = 2;
    app.sessions.open_detail(selected_key.clone());
    let request_id = app.sessions.start_delete();

    handle_session_msg(&mut app, deleted(request_id, &gone_key));

    assert_eq!(
        highlighted_session_key(&app).as_deref(),
        Some(selected_key.as_str())
    );
    assert_eq!(app.sessions.selected_idx, 1);
    assert_eq!(app.sessions.pagination.selected, Some(1));
    assert_eq!(
        app.sessions.detail_key.as_deref(),
        Some(selected_key.as_str())
    );
}

#[test]
fn the_selection_follows_its_session_through_many_rows() {
    let mut app = new_app(Some(AppType::Claude));
    let row = |n: i64| session(&claude(), &format!("session-{n}"), 1_000 - n);
    app.sessions.rows = (0..300).map(row).collect();
    app.sessions.selected_idx = 250;
    let anchor = capture_session_selection(&app);

    app.sessions.rows = (0..300).filter(|n| n % 10 != 3).map(row).collect();
    restore_session_selection(&mut app, anchor);

    assert_eq!(
        highlighted_session_key(&app),
        Some(session_key(&row(250)))
    );
    assert_eq!(app.sessions.selected_idx, 225);
}

#[test]
fn deleting_selected_session_clears_detail_and_falls_back_to_list() {
    let mut app = new_app(Some(AppType::Claude));
    app.sessions.provider_id = Some(claude());
    let gone = session(&claude(), "deleted", 20);
    let fallback = session(&claude(), "fallback", 10);
    let deleted_key = session_key(&gone);
    let fallback_key = session_key(&fallback);
    app.sessions.rows = vec![gone, fallback];
    app.sessions.selected_idx = 0;
    app.sessions.open_detail(deleted_key.clone());
    app.sessions.pane = SessionsPane::Detail;
    let request_id = app.sessions.start_delete();

    handle_session_msg(&mut app, deleted(request_id, &deleted_key));

    assert_eq!(
        highlighted_session_key(&app).as_deref(),
        Some(fallback_key.as_str())
    );
    assert!(app.sessions.detail_key.is_none());
    assert!(app.sessions.messages.is_empty());
    assert_eq!(app.sessions.pane, SessionsPane::List);
    assert_eq!(app.sessions.pagination.selected, Some(0));
}

#[test]
fn switch_to_sessions_queues_scan_without_waiting_for_next_tick() {
    let mut app = new_app(Some(AppType::Codex));
    let mut data = UiData::empty();
    let mut cache = UiDataByAppCache::default();
    let mut workers = DataWorkers::new(Link::Missing, Link::Missing, Link::Missing);
    let mut worker = Outbox::new(Link::Open);

    for scans in [true, false] {
        let passed = match handle_tui_action(
            &mut app,
            &mut data,
            &mut cache,
            &mut workers,
            &mut worker,
            Action::SwitchRoute(Route::Sessions),
        ) {
            ActionStep::PassOn(passed) => passed,
            other => panic!("a change of screens is carried out elsewhere: {other:?}"),
        };
        app.route = Route::Sessions;
        finish_tui_action(
            &mut app,
            &mut data,
            &mut cache,
            &mut workers,
            &mut worker,
            passed.candidate,
            Ok(()),
            passed.opens_sessions,
        )
        .expect("switching to sessions should queue a scan");

        assert!(app.sessions.loading);
        assert_eq!(app.sessions.provider_id.as_deref(), Some("codex"));
        let request_id = app.sessions.scan_active.expect("scan should be active");
        let sent = worker.take();
        if scans {
            match sent.as_slice() {
                [SessionReq::Refresh {
                    request_id: queued,
                    provider_id,
                    ..
                }] => {
                    assert_eq!(*queued, request_id);
                    assert_eq!(provider_id, "codex");
                }
                other => panic!("unexpected sessions requests: {other:?}"),
            }
        } else {
            assert!(sent.is_empty());
        }
    }
}

#[test]
fn failed_automatic_sessions_scan_is_not_retried_each_event_loop() {
    let mut app = new_app(Some(AppType::Claude));
    app.route = Route::Sessions;
    let mut worker = Outbox::new(Link::Open);

    queue_sessions_refresh_if_needed(&mut app, &mut worker);
    let request_id = refresh_id(&mut worker).expect("initial automatic refresh");
    app.sessions
        .fail_scan(request_id, "injected disk-full failure".to_string());

    for _ in 0..20 {
        queue_sessions_refresh_if_needed(&mut app, &mut worker);
    }

    assert!(worker.sent.is_empty());
    assert_eq!(app.sessions.scan_seq, 1);
    assert_eq!(
        app.sessions.last_error.as_deref(),
        Some("injected disk-full failure")
    );
}

#[test]
fn unavailable_sessions_worker_is_reported_once_per_scope() {
    let mut app = new_app(Some(AppType::Claude));
    app.route = Route::Sessions;
    let mut worker = Outbox::new(Link::Missing);

    for _ in 0..20 {
        queue_sessions_refresh_if_needed(&mut app, &mut worker);
    }

    assert_eq!(app.sessions.scan_seq, 1);
    assert!(!app.sessions.loading);
    assert_eq!(
        app.sessions.last_error.as_deref(),
        Some("sessions worker is not running")
    );
}

fn app_with_pending_purge_manifest() -> (App, u64, String) {
    let store = Store::new();
    let gone = || session(&claude(), "deleted", 2);
    let kept = || session(&claude(), "kept", 1);
    let (initial, initial_reader) = store.publish("initial", vec![gone(), kept()]);
    let mut app = new_app(Some(AppType::Claude));
    let _scan = app.sessions.start_scan(claude());
    let scope_epoch = app.sessions.scope_epoch;
    assert!(app.sessions.apply_opened_manifest(
        scope_epoch,
        &claude(),
        initial.generation,
        initial.total_rows,
        initial.first_page.page_index,
        initial.first_page.rows,
        initial_reader,
    ));
    app.sessions.scan_active = None;
    app.sessions.loading = false;

    let delete_request_id = 19;
    let deleted_key = session_key(&gone());
    app.sessions
        .register_purge_tombstone(delete_request_id, deleted_key.clone());
    let (purged, purged_reader) = store.publish("purged", vec![kept()]);
    assert!(app.sessions.stage_purged_manifest(
        SessionPageSource::Base,
        scope_epoch,
        &claude(),
        purged.generation,
        purged.total_rows,
        purged_reader,
        delete_request_id,
        deleted_key.clone(),
    ));
    (app, delete_request_id, deleted_key)
}

#[test]
fn missing_manifest_reconcile_worker_preserves_tombstone_convergence() {
    let (mut app, delete_request_id, deleted_key) = app_with_pending_purge_manifest();

    maybe_queue_session_manifest_reconcile(&mut app, &mut Outbox::new(Link::Missing));

    assert!(app.sessions.pending_manifest.is_none());
    assert!(app.sessions.purge_refresh_required());
    assert!(app.sessions.purge_tombstone_applies_to_scope(
        delete_request_id,
        &deleted_key,
        &claude()
    ));
    assert_eq!(
        app.sessions.last_error.as_deref(),
        Some("sessions worker is not running")
    );
}

#[test]
fn disconnected_manifest_reconcile_worker_preserves_tombstone_convergence() {
    let (mut app, delete_request_id, deleted_key) = app_with_pending_purge_manifest();

    maybe_queue_session_manifest_reconcile(&mut app, &mut Outbox::new(Link::Closed));

    assert!(app.sessions.pending_manifest.is_none());
    assert!(app.sessions.purge_refresh_required());
    assert!(app.sessions.purge_tombstone_applies_to_scope(
        delete_request_id,
        &deleted_key,
        &claude()
    ));
    assert!(app.sessions.last_error.is_some());
}

#[test]
fn switching_app_on_sessions_route_queues_scan_for_next_app() {
    let mut app = new_app(Some(AppType::Claude));
    app.route = Route::Sessions;
    let mut data = UiData::empty();
    let mut cache = UiDataByAppCache::default();
    cache.by_app.insert(AppType::Codex, UiData::empty());
    let mut workers = DataWorkers::new(Link::Missing, Link::Missing, Link::Missing);
    let mut worker = Outbox::new(Link::Open);

    let step = handle_tui_action(
        &mut app,
        &mut data,
        &mut cache,
        &mut workers,
        &mut worker,
        Action::SetAppType(AppType::Codex),
    );
    assert!(matches!(step, ActionStep::Done));

    assert_eq!(app.app_type, AppType::Codex);
    assert!(matches!(app.route, Route::Sessions));
    assert!(app.sessions.loading);
    assert_eq!(app.sessions.provider_id.as_deref(), Some("codex"));
    let request_id = app.sessions.scan_active.expect("scan should be active");
    match worker.sent.as_slice() {
        [SessionReq::CancelSearch, SessionReq::CancelMessages, SessionReq::Refresh {
            request_id: queued,
            provider_id,
            ..
        }] => {
            assert_eq!(*queued, request_id);
            assert_eq!(provider_id, "codex");
        }
        other => panic!("unexpected sessions requests: {other:?}"),
    }
}

#[test]
fn a_kept_page_is_shown_before_the_scan_is_over() {
    let store = Store::new();
    let mut app = new_app(Some(AppType::Claude));
    let request_id = app.sessions.start_scan(claude());
    let scope_epoch = app.sessions.scope_epoch;
    let (kept, reader) = store.publish("kept", vec![session(&claude(), "kept", 1)]);
    handle_session_msg(
        &mut app,
        SessionMsg::ScopeOpened {
            request_id,
            scope_epoch,
            scope: claude(),
            result: Ok(Some((reader, kept.first_page))),
        },
    );
    assert_eq!(app.sessions.rows[0].session_id, "kept");
    assert!(app.sessions.loading);

    handle_session_msg(
        &mut app,
        SessionMsg::ScanProvisional {
            request_id,
            scope_epoch,
            scope: claude(),
            rows: vec![session(&claude(), "early", 9)],
        },
    );
    assert_eq!(
        app.sessions.rows[0].session_id, "kept",
        "a page that is kept is better than a preview"
    );
}

#[test]
fn messages_nobody_waits_for_are_called_off() {
    let mut app = new_app(Some(AppType::Claude));
    app.sessions.rows = vec![session(&claude(), "gone", 1)];
    let key = session_key(&app.sessions.rows[0]);
    app.sessions.open_detail(key.clone());
    let _ = app.sessions.start_message_load(key.clone());
    let request_id = app.sessions.start_delete();
    let mut frames = FrameScheduler::new();
    frames.record_draw(1);
    let mut worker = Outbox::new(Link::Open);

    receive_session_msg(
        &mut app,
        &mut frames,
        &mut worker,
        deleted(request_id, &key),
    );
    assert!(frames.dirty);
    assert!(matches!(
        worker.sent.as_slice(),
        [SessionReq::CancelMessages]
    ));
    assert!(!app.sessions.message_cancel_pending);
}

#[test]
fn messages_are_shown_for_the_session_that_is_open() {
    let mut app = new_app(Some(AppType::Claude));
    app.sessions.rows = vec![session(&claude(), "open", 1)];
    let key = session_key(&app.sessions.rows[0]);
    app.sessions.open_detail(key.clone());
    let request_id = app.sessions.start_message_load(key.clone());
    handle_session_msg(
        &mut app,
        SessionMsg::MessagesLoaded {
            request_id,
            key,
            result: Ok(vec![SessionMessage {
                role: "user".to_string(),
                content: "hello".to_string(),
                ts: Some(1),
            }]),
        },
    );
    assert!(app.sessions.messages_loaded);
    assert_eq!(app.sessions.messages[0].content, "hello");
}

#[test]
fn a_session_is_found_again_by_who_it_is() {
    let rows = vec![
        session(&claude(), "a", 30),
        session(&claude(), "b", 20),
        session(&claude(), "c", 20),
    ];
    let identity = SessionIdentity::capture(&rows[2]);
    assert_eq!(identity.key(), session_key(&rows[2]));
    assert_eq!(find_session_identity(&rows, &vec![0, 1, 2], &identity), Some(2));
    assert_eq!(find_session_identity(&rows, &vec![0, 2], &identity), Some(1));
    assert_eq!(find_session_identity(&rows, &vec![0, 1], &identity), None);
}

#[test]
fn filters_ignore_the_case_of_letters() {
    let mut app = new_app(Some(AppType::Claude));
    app.sessions.provider_id = Some(claude());
    app.sessions.rows = vec![session(&claude(), "ÜBER", 2), session(&claude(), "other", 1)];
    app.filter.input.set(" über ".to_string());
    assert_eq!(visible_session_rows(&app), vec![0]);
}

#[test]
fn no_page_is_asked_for_without_a_wish() {
    let mut app = new_app(Some(AppType::Claude));
    app.route = Route::Sessions;
    let mut worker = Outbox::new(Link::Open);
    maybe_queue_session_page_load(&mut app, &mut worker);
    assert!(worker.sent.is_empty());
}
