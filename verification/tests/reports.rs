use std::cell::{Cell, RefCell};

use cc_switch_tui::app::{App, LoadingKind, ModelField, Overlay, ProxyVisualTransition};
use cc_switch_tui::app_type::{AppNames, AppType};
use cc_switch_tui::cache::CacheInvalidation;
use cc_switch_tui::checks::{
    build_stream_check_result_lines, handle_model_fetch_msg, handle_speedtest_msg,
    handle_stream_check_msg, EndpointLatency, HealthStatus, ModelFetchMsg, SpeedtestMsg,
    StreamCheckMsg, StreamCheckReq, StreamCheckResult,
};
use cc_switch_tui::data::{ProxySnapshot, UiData};
use cc_switch_tui::local_env::{
    handle_local_env_msg, queue_local_env_refresh_if_available, LocalEnvMsg, LocalEnvReq,
    ToolCheckResult,
};
use cc_switch_tui::managed_auth::{
    handle_managed_auth_msg, refuse_managed_auth_req, seconds_to_tui_ticks, DeviceCode,
    ManagedAccount, ManagedAuthMsg, ManagedAuthReq, ManagedAuthStatus,
};
use cc_switch_tui::outbox::{Link, Outbox};
use cc_switch_tui::proxy::{
    finish_proxy_reload, handle_proxy_msg, queue_proxy_snapshot_refresh,
    queue_proxy_snapshot_refresh_after_app_switch, refuse_proxy_req, ProxyMsg, ProxyOpenFlash,
    ProxyReq, ProxyStep,
};
use cc_switch_tui::request::RequestTracker;
use cc_switch_tui::skills::{
    answer_discover, handle_skills_msg, narrow_skills, refuse_skills_req, FoundSkills,
    InstalledSkill, MarketSkill, Skill, SkillsDiscoverSource, SkillsMsg, SkillsReq, SkillsStep,
};
use cc_switch_tui::text::{Text, TextKey, ToastKind};
use cc_switch_tui::update::{
    handle_update_msg, UpdateCheckInfo, UpdateMsg, UpdateReq, UpdateWorker,
};
use cc_switch_tui::webdav::{
    apply_webdav_jianguoyun_quick_setup, drain_latest_webdav_req, handle_webdav_msg,
    run_quick_setup, sync_outcome, update_webdav_last_error_with, ErrorNote, SyncDecision,
    SyncSummary, WebDavDone, WebDavErr, WebDavMsg, WebDavReq, WebDavReqKind, WebDavStep,
    WebDavSyncSettings, WebDavSyncStatus,
};

fn new_app(app_type: Option<AppType>) -> App {
    let name = |app_type: AppType| format!("{app_type:?}").to_lowercase();
    let names = AppNames {
        claude: name(AppType::Claude),
        codex: name(AppType::Codex),
        gemini: name(AppType::Gemini),
        open_code: name(AppType::OpenCode),
        hermes: name(AppType::Hermes),
        open_claw: name(AppType::OpenClaw),
    };
    App::new(app_type, names)
}

/// The name that the first application is stored under.
fn claude() -> String {
    format!("{:?}", AppType::Claude).to_lowercase()
}

fn tracker(seq: u64, active: Option<u64>) -> RequestTracker {
    RequestTracker { seq, active }
}

fn snapshot(running: bool, input: u64, output: u64) -> ProxySnapshot {
    ProxySnapshot {
        running,
        estimated_input_tokens_total: input,
        estimated_output_tokens_total: output,
    }
}

fn no_settings() -> WebDavSyncSettings {
    WebDavSyncSettings {
        enabled: false,
        base_url: String::new(),
        remote_root: String::new(),
        profile: String::new(),
        username: String::new(),
        password: String::new(),
        status: WebDavSyncStatus {
            last_sync_at: None,
            last_error: None,
        },
    }
}

fn update_info(target_tag: &str, is_homebrew_managed: bool) -> UpdateCheckInfo {
    UpdateCheckInfo {
        current_version: "4.7.0".to_string(),
        target_tag: target_tag.to_string(),
        is_already_latest: false,
        is_downgrade: false,
        is_homebrew_managed,
    }
}

fn checking_for_updates() -> Overlay {
    Overlay::Loading {
        kind: LoadingKind::UpdateCheck,
        title: Text::verbatim("Checking"),
        message: Text::verbatim("Loading"),
    }
}

fn skill(name: &str, directory: &str) -> Skill {
    Skill {
        key: format!("key:{directory}"),
        name: name.to_string(),
        description: String::new(),
        directory: directory.to_string(),
        readme_url: None,
        installed: false,
        repo_owner: None,
        repo_name: None,
        repo_branch: None,
    }
}

#[test]
fn proxy_snapshot_refresh_enqueues_single_background_request() {
    let mut tracker = RequestTracker::default();
    let mut worker = Outbox::new(Link::Open);

    queue_proxy_snapshot_refresh(&mut tracker, &mut worker, &AppType::Codex);
    queue_proxy_snapshot_refresh(&mut tracker, &mut worker, &AppType::Claude);

    assert_eq!(
        worker.sent,
        vec![ProxyReq::RefreshSnapshot {
            request_id: 1,
            app_type: AppType::Codex,
        }],
        "in-flight refresh should not stack"
    );
    assert_eq!(tracker.active, Some(1));
}

#[test]
fn proxy_snapshot_refresh_can_be_requeued_after_app_switch_cancel() {
    let mut tracker = tracker(1, Some(1));
    let mut worker = Outbox::new(Link::Open);

    tracker.cancel();
    queue_proxy_snapshot_refresh(&mut tracker, &mut worker, &AppType::OpenCode);

    assert_eq!(
        worker.sent,
        vec![ProxyReq::RefreshSnapshot {
            request_id: 2,
            app_type: AppType::OpenCode,
        }]
    );
    assert_eq!(tracker.active, Some(2));
}

#[test]
fn proxy_snapshot_refresh_send_failure_clears_active_request() {
    let mut tracker = RequestTracker::default();
    let mut worker = Outbox::new(Link::Closed);

    queue_proxy_snapshot_refresh(&mut tracker, &mut worker, &AppType::Claude);

    assert_eq!(tracker.active, None);
}

#[test]
fn proxy_snapshot_after_app_switch_queues_only_after_successful_change() {
    let mut worker = Outbox::new(Link::Open);
    let mut tracker = tracker(7, Some(7));

    queue_proxy_snapshot_refresh_after_app_switch(
        &mut tracker,
        &mut worker,
        &AppType::Claude,
        &AppType::Codex,
        false,
    );
    assert_eq!(tracker.active, Some(7));
    assert!(worker.sent.is_empty());

    queue_proxy_snapshot_refresh_after_app_switch(
        &mut tracker,
        &mut worker,
        &AppType::Claude,
        &AppType::Claude,
        true,
    );
    assert_eq!(tracker.active, Some(7));
    assert!(worker.sent.is_empty());

    queue_proxy_snapshot_refresh_after_app_switch(
        &mut tracker,
        &mut worker,
        &AppType::Claude,
        &AppType::Codex,
        true,
    );
    assert_eq!(
        worker.sent,
        vec![ProxyReq::RefreshSnapshot {
            request_id: 8,
            app_type: AppType::Codex,
        }]
    );
    assert_eq!(tracker.active, Some(8));
}

#[test]
fn proxy_snapshot_result_updates_proxy_without_cache_invalidation() {
    let mut app = new_app(Some(AppType::Claude));
    let mut data = UiData::empty();
    let mut proxy_loading = RequestTracker::default();
    let mut proxy_snapshot_refresh = tracker(1, Some(1));
    app.reset_proxy_activity(0, 0);

    let step = handle_proxy_msg(
        &mut app,
        &mut data,
        &mut proxy_loading,
        &mut proxy_snapshot_refresh,
        ProxyMsg::SnapshotRefreshed {
            request_id: 1,
            app_type: AppType::Claude,
            result: Ok(snapshot(true, 12, 34)),
        },
    );

    assert_eq!(step, ProxyStep::Done);
    assert!(data.proxy.running);
    assert_eq!(data.proxy.estimated_input_tokens_total, 12);
    assert_eq!(data.proxy.estimated_output_tokens_total, 34);
    assert_eq!(app.proxy.last_input_tokens, Some(12));
    assert_eq!(app.proxy.last_output_tokens, Some(34));
    assert_eq!(proxy_snapshot_refresh.active, None);
    assert_eq!(app.proxy.input_activity, 12);
    assert_eq!(app.proxy.output_activity, 34);
}

#[test]
fn traffic_is_what_the_totals_have_grown_by() {
    let mut app = new_app(Some(AppType::Claude));
    app.observe_proxy_token_activity(100, 200);
    assert_eq!(app.proxy.input_activity, 0);
    app.observe_proxy_token_activity(130, 205);
    assert_eq!(app.proxy.input_activity, 30);
    assert_eq!(app.proxy.output_activity, 5);
    app.observe_proxy_token_activity(7, 205);
    assert_eq!(app.proxy.input_activity, 0);
    assert_eq!(app.proxy.output_activity, 0);
    assert_eq!(app.proxy.last_input_tokens, Some(7));
    app.observe_proxy_token_activity(9, 300);
    app.reset_proxy_activity(50, 60);
    assert_eq!(app.proxy.input_activity, 0);
    assert_eq!(app.proxy.last_input_tokens, Some(50));
    assert_eq!(app.proxy.last_output_tokens, Some(60));
}

#[test]
fn proxy_snapshot_result_ignores_stale_or_wrong_app() {
    let mut app = new_app(Some(AppType::Claude));
    let mut data = UiData::empty();
    let mut proxy_loading = RequestTracker::default();
    let mut proxy_snapshot_refresh = tracker(2, Some(2));

    let _ = handle_proxy_msg(
        &mut app,
        &mut data,
        &mut proxy_loading,
        &mut proxy_snapshot_refresh,
        ProxyMsg::SnapshotRefreshed {
            request_id: 1,
            app_type: AppType::Claude,
            result: Ok(snapshot(true, 0, 0)),
        },
    );
    assert!(!data.proxy.running);
    assert_eq!(proxy_snapshot_refresh.active, Some(2));

    let _ = handle_proxy_msg(
        &mut app,
        &mut data,
        &mut proxy_loading,
        &mut proxy_snapshot_refresh,
        ProxyMsg::SnapshotRefreshed {
            request_id: 2,
            app_type: AppType::Codex,
            result: Ok(snapshot(true, 0, 0)),
        },
    );
    assert!(!data.proxy.running);
    assert_eq!(proxy_snapshot_refresh.active, None);
}

#[test]
fn proxy_open_flash_runner_persists_effect_across_frames() {
    let mut flash = ProxyOpenFlash::default();
    let opening = Some(ProxyVisualTransition {
        from_on: false,
        to_on: true,
        started_tick: 10,
    });

    assert!(flash.sync(opening));
    assert!(flash.active());

    flash.drawn(false);
    assert!(flash.active(), "flash should still be active at peak frame");

    flash.drawn(false);
    assert!(
        flash.active(),
        "flash should still be active during return phase"
    );

    flash.drawn(true);
    assert!(!flash.active());
    assert!(!flash.sync(opening), "an opening flashes once");
}

#[test]
fn a_managed_session_leads_to_a_reload() {
    let mut app = new_app(Some(AppType::Claude));
    let mut data = UiData::empty();
    let mut loading = tracker(3, Some(3));
    let mut snapshot_refresh = RequestTracker::default();
    let step = handle_proxy_msg(
        &mut app,
        &mut data,
        &mut loading,
        &mut snapshot_refresh,
        ProxyMsg::ManagedSessionFinished {
            request_id: 3,
            app_type: AppType::Claude,
            enabled: true,
            result: Ok(()),
        },
    );
    assert_eq!(
        step,
        ProxyStep::Reload {
            app_type: AppType::Claude,
            enabled: true
        }
    );
    let invalidation = finish_proxy_reload(
        &mut app,
        &mut data,
        &mut snapshot_refresh,
        AppType::Claude,
        true,
        Ok(UiData::empty()),
    )
    .expect("the data was read");
    assert_eq!(invalidation, CacheInvalidation::DataReloaded);
    assert!(app.toast.is_some());
}

#[test]
fn a_proxy_worker_that_cannot_work_says_so() {
    assert!(matches!(
        refuse_proxy_req(
            ProxyReq::RefreshSnapshot {
                request_id: 4,
                app_type: AppType::Codex
            },
            "no runtime".to_string()
        ),
        ProxyMsg::SnapshotRefreshed { request_id: 4, app_type: AppType::Codex, result: Err(error) }
            if error == "no runtime"
    ));
}

#[test]
fn quick_setup_helper_saves_preset_and_runs_connection_check() {
    let captured = RefCell::new(None);
    let checked = Cell::new(false);

    apply_webdav_jianguoyun_quick_setup(
        " demo@nutstore.com ",
        " app-password ",
        |cfg| {
            captured.replace(Some(cfg));
            Ok(())
        },
        || {
            checked.set(true);
            Ok(())
        },
    )
    .expect("quick setup helper should succeed");

    let saved = captured.into_inner().expect("settings should be saved");
    assert!(saved.enabled);
    assert_eq!(saved.base_url, "https://dav.jianguoyun.com/dav");
    assert_eq!(saved.remote_root, "cc-switch-sync");
    assert_eq!(saved.profile, "default");
    assert_eq!(saved.username, "demo@nutstore.com");
    assert_eq!(saved.password, "app-password");
    assert!(checked.get(), "connection check should be called");
}

#[test]
fn quick_setup_helper_stops_when_save_fails() {
    let checked = Cell::new(false);
    let err = apply_webdav_jianguoyun_quick_setup(
        "u",
        "p",
        |_cfg| Err("save failed".to_string()),
        || {
            checked.set(true);
            Ok(())
        },
    )
    .expect_err("save failure should be returned");

    assert!(err.contains("save failed"));
    assert!(
        !checked.get(),
        "connection check should not run when save fails"
    );
}

#[test]
fn a_quick_setup_tells_its_steps_apart() {
    assert!(matches!(
        run_quick_setup("u", "p", |_| Err("disk".to_string()), || Ok(())),
        Err(WebDavErr::QuickSetupSave(error)) if error == "disk"
    ));
    assert!(matches!(
        run_quick_setup("u", "p", |_| Ok(()), || Err("refused".to_string())),
        Err(WebDavErr::QuickSetupCheck(error)) if error == "refused"
    ));
    assert!(matches!(
        run_quick_setup("u", "p", |_| Ok(()), || Ok(())),
        Ok(WebDavDone::JianguoyunConfigured)
    ));
}

#[test]
fn stream_check_result_lines_include_core_fields() {
    let result = StreamCheckResult {
        status: HealthStatus::Degraded,
        success: true,
        message: "slow but working".to_string(),
        response_time_ms: Some(6789),
        http_status: Some(200),
        model_used: "gpt-5.1-codex".to_string(),
        tested_at: 1_700_000_000,
        retry_count: 1,
    };

    let lines = build_stream_check_result_lines("Provider One", &result);
    let joined = lines
        .iter()
        .map(|line| line.args.join(" "))
        .collect::<Vec<_>>()
        .join("\n");

    assert!(joined.contains("Provider One"));
    assert!(joined.contains("gpt-5.1-codex"));
    assert!(joined.contains("200"));
    assert!(joined.contains("6789"));
    assert!(joined.contains("slow but working"));
}

#[test]
fn a_stream_check_replaces_its_own_overlay_only() {
    let mut app = new_app(None);
    app.overlay = Overlay::StreamCheckRunning {
        provider_id: "p".to_string(),
        provider_name: "P".to_string(),
    };
    handle_stream_check_msg(
        &mut app,
        StreamCheckMsg {
            req: StreamCheckReq {
                provider_id: "other".to_string(),
                provider_name: "Other".to_string(),
            },
            result: Err("boom".to_string()),
        },
    );
    assert!(matches!(app.overlay, Overlay::StreamCheckRunning { .. }));
}

#[test]
fn a_speed_test_lists_its_measurements() {
    let mut app = new_app(None);
    app.overlay = Overlay::SpeedtestRunning {
        url: "https://a".to_string(),
    };
    handle_speedtest_msg(
        &mut app,
        SpeedtestMsg {
            url: "https://a".to_string(),
            result: Ok(vec![EndpointLatency {
                latency: Some(120),
                status: Some(200),
                error: None,
            }]),
        },
    );
    match &app.overlay {
        Overlay::SpeedtestResult { url, lines, scroll } => {
            assert_eq!(url, "https://a");
            assert_eq!(*scroll, 0);
            assert!(lines
                .iter()
                .any(|line| line.args.iter().any(|arg| arg.contains("120"))));
        }
        other => panic!("expected the result, got {other:?}"),
    }
}

#[test]
fn only_the_picker_that_asked_takes_models() {
    let mut app = new_app(None);
    app.overlay = Overlay::ModelFetchPicker {
        request_id: 2,
        field: ModelField::CodexModel,
        claude_idx: None,
        fetching: true,
        models: vec![],
        error: None,
    };
    handle_model_fetch_msg(
        &mut app,
        ModelFetchMsg {
            request_id: 1,
            field: ModelField::CodexModel,
            claude_idx: None,
            result: Ok(vec!["old".to_string()]),
        },
    );
    assert!(matches!(
        &app.overlay,
        Overlay::ModelFetchPicker { fetching: true, models, .. } if models.is_empty()
    ));
    handle_model_fetch_msg(
        &mut app,
        ModelFetchMsg {
            request_id: 2,
            field: ModelField::CodexModel,
            claude_idx: None,
            result: Ok(vec!["new".to_string()]),
        },
    );
    assert!(matches!(
        &app.overlay,
        Overlay::ModelFetchPicker { fetching: false, models, .. } if models[..] == ["new".to_string()]
    ));
}

#[test]
fn drain_latest_webdav_req_prefers_last_enqueued_request() {
    let first = WebDavReq {
        request_id: 1,
        kind: WebDavReqKind::CheckConnection,
    };
    let queued = vec![
        WebDavReq {
            request_id: 2,
            kind: WebDavReqKind::Upload,
        },
        WebDavReq {
            request_id: 3,
            kind: WebDavReqKind::JianguoyunQuickSetup {
                username: "u@example.com".to_string(),
                password: "p".to_string(),
            },
        },
    ];

    let latest = drain_latest_webdav_req(first, queued);
    assert!(matches!(
        latest,
        WebDavReq {
            request_id: 3,
            kind: WebDavReqKind::JianguoyunQuickSetup { username, password }
        }
            if username == "u@example.com" && password == "p"
    ));
}

#[test]
fn update_webdav_last_error_with_updates_status_when_present() {
    let captured = RefCell::new(None);
    update_webdav_last_error_with(
        Some("network timeout".to_string()),
        || Some(no_settings()),
        |cfg| {
            captured.replace(Some(cfg));
            Ok(())
        },
    );

    let saved = captured.into_inner().expect("expected settings to be saved");
    assert_eq!(saved.status.last_error.as_deref(), Some("network timeout"));
}

#[test]
fn update_webdav_last_error_with_skips_when_settings_absent() {
    let saved = Cell::new(false);
    update_webdav_last_error_with(
        Some("network timeout".to_string()),
        || None,
        |_cfg| {
            saved.set(true);
            Ok(())
        },
    );
    assert!(
        !saved.get(),
        "set callback should not run when webdav settings are missing"
    );
}

#[test]
fn a_download_brings_the_live_configuration_in_step() {
    let mut app = new_app(None);
    let mut loading = tracker(5, Some(5));
    let result = sync_outcome(
        &WebDavReqKind::Download,
        Ok(SyncSummary {
            decision: SyncDecision::Download,
            message: "done".to_string(),
        }),
    );
    let step = handle_webdav_msg(
        &mut app,
        &mut loading,
        WebDavMsg {
            request_id: 5,
            req: WebDavReqKind::Download,
            result,
        },
    );
    match step {
        WebDavStep::Reload(reload) => {
            assert!(reload.sync_live);
            assert_eq!(reload.invalidation, CacheInvalidation::AppStateRecreated);
        }
        other => panic!("a download is followed by a reload: {other:?}"),
    }
    assert_eq!(loading.active, None);
}

#[test]
fn a_webdav_error_is_noted() {
    let mut app = new_app(None);
    let mut loading = tracker(5, Some(5));
    let step = handle_webdav_msg(
        &mut app,
        &mut loading,
        WebDavMsg {
            request_id: 5,
            req: WebDavReqKind::Upload,
            result: Err(WebDavErr::Generic("offline".to_string())),
        },
    );
    match step {
        WebDavStep::Reload(reload) => {
            assert!(matches!(reload.note, ErrorNote::Record(error) if error == "offline"));
        }
        other => panic!("the report was waited for: {other:?}"),
    }
    let stale = handle_webdav_msg(
        &mut app,
        &mut tracker(6, Some(6)),
        WebDavMsg {
            request_id: 5,
            req: WebDavReqKind::Upload,
            result: Ok(WebDavDone::ConnectionChecked),
        },
    );
    assert!(matches!(stale, WebDavStep::Ignored));
}

#[test]
fn update_success_does_not_force_exit_when_overlay_hidden() {
    let mut app = new_app(None);
    app.overlay = Overlay::Absent;
    let mut update_check = RequestTracker::default();

    handle_update_msg(
        &mut app,
        &mut update_check,
        UpdateMsg::DownloadFinished(Ok("v9.9.9".to_string())),
    );

    assert!(
        !app.should_quit,
        "successful update should not force exit without user confirmation"
    );
    assert!(
        matches!(app.overlay, Overlay::UpdateResult { success: true, .. }),
        "successful update should show result overlay even when progress overlay was hidden"
    );
}

#[test]
fn update_check_finished_is_ignored_when_canceled() {
    let mut app = new_app(None);
    app.overlay = Overlay::Absent;
    let mut update_check = RequestTracker::default();

    handle_update_msg(
        &mut app,
        &mut update_check,
        UpdateMsg::CheckFinished {
            request_id: 1,
            result: Ok(update_info("v9.9.9", false)),
        },
    );

    assert!(
        matches!(app.overlay, Overlay::Absent),
        "update check result should be ignored after cancel/hide"
    );
}

#[test]
fn update_check_finished_is_processed_when_request_id_matches() {
    let mut app = new_app(None);
    app.overlay = checking_for_updates();
    let mut update_check = tracker(0, Some(7));

    handle_update_msg(
        &mut app,
        &mut update_check,
        UpdateMsg::CheckFinished {
            request_id: 7,
            result: Ok(update_info("v9.9.9", false)),
        },
    );

    assert_eq!(update_check.active, None);
    assert!(matches!(
        app.overlay,
        Overlay::UpdateAvailable {
            latest,
            selected: 0,
            ..
        } if latest == "v9.9.9"
    ));
}

#[test]
fn update_check_finished_for_homebrew_update_shows_brew_toast() {
    let mut app = new_app(None);
    app.overlay = checking_for_updates();
    let mut update_check = tracker(0, Some(7));

    handle_update_msg(
        &mut app,
        &mut update_check,
        UpdateMsg::CheckFinished {
            request_id: 7,
            result: Ok(update_info("v9.9.9", true)),
        },
    );

    assert_eq!(update_check.active, None);
    assert!(matches!(app.overlay, Overlay::Absent));
    let toast = app.toast.as_ref().expect("homebrew update should toast");
    assert_eq!(toast.kind, ToastKind::Info);
    assert_eq!(toast.message.key, TextKey::UpdateHomebrewRequired);
    assert!(toast.message.args.iter().any(|arg| arg == "v9.9.9"));
}

#[test]
fn update_check_finished_is_ignored_when_request_id_mismatch() {
    let mut app = new_app(None);
    app.overlay = Overlay::Absent;
    let mut update_check = tracker(0, Some(2));

    handle_update_msg(
        &mut app,
        &mut update_check,
        UpdateMsg::CheckFinished {
            request_id: 1,
            result: Ok(update_info("v1.0.0", false)),
        },
    );

    assert_eq!(update_check.active, Some(2));
    assert!(matches!(app.overlay, Overlay::Absent));

    handle_update_msg(
        &mut app,
        &mut update_check,
        UpdateMsg::CheckFinished {
            request_id: 2,
            result: Ok(update_info("v9.9.9", false)),
        },
    );

    assert_eq!(update_check.active, None);
    assert!(matches!(app.overlay, Overlay::UpdateAvailable { .. }));
}

#[test]
fn the_update_worker_fetches_what_it_found() {
    let mut worker = UpdateWorker::new();
    assert!(worker.on_download().is_err());
    let _ = worker.on_checked(1, Ok(update_info("v2", false)));
    let _ = worker.on_checked(2, Err("offline".to_string()));
    assert_eq!(worker.on_download().expect("a version was found"), "v2");
    assert!(matches!(
        UpdateWorker::refuse(UpdateReq::Check { request_id: 9 }, "no runtime".to_string()),
        UpdateMsg::CheckFinished { request_id: 9, result: Err(error) } if error == "no runtime"
    ));
}

#[test]
fn seconds_are_rounded_up_to_ticks() {
    assert_eq!(seconds_to_tui_ticks(0), 0);
    assert_eq!(seconds_to_tui_ticks(1), 5);
    assert_eq!(seconds_to_tui_ticks(5), 25);
    assert_eq!(seconds_to_tui_ticks(u64::MAX), u64::MAX / 200 + 1);
}

#[test]
fn a_login_runs_until_it_is_polled_through() {
    let mut app = new_app(None);
    app.tick = 100;
    handle_managed_auth_msg(
        &mut app,
        ManagedAuthMsg::LoginStarted {
            auth_provider: "codex".to_string(),
            result: Ok(DeviceCode {
                device_code: "dev".to_string(),
                user_code: "ABCD".to_string(),
                verification_uri: "https://login".to_string(),
                expires_in: 600,
                interval: 5,
            }),
        },
    );
    let login = app.managed_auth.login.as_ref().expect("a login runs");
    assert_eq!(login.device_code, "dev");
    assert_eq!(login.expires_at_tick, 100 + 3000);
    assert_eq!(login.poll_interval_ticks, 25);

    handle_managed_auth_msg(
        &mut app,
        ManagedAuthMsg::LoginPolled {
            auth_provider: "codex".to_string(),
            device_code: "another".to_string(),
            result: Ok(Some(ManagedAccount {
                id: "1".to_string(),
                login: "me".to_string(),
            })),
        },
    );
    assert!(app.managed_auth.login.is_some(), "another login's answer");

    handle_managed_auth_msg(
        &mut app,
        ManagedAuthMsg::LoginPolled {
            auth_provider: "codex".to_string(),
            device_code: "dev".to_string(),
            result: Ok(Some(ManagedAccount {
                id: "1".to_string(),
                login: "me".to_string(),
            })),
        },
    );
    assert!(app.managed_auth.login.is_none());
}

#[test]
fn accounts_are_shown_once_they_are_known() {
    let mut app = new_app(None);
    app.managed_auth.loading = true;
    handle_managed_auth_msg(
        &mut app,
        ManagedAuthMsg::Status {
            auth_provider: "codex".to_string(),
            result: Ok(ManagedAuthStatus {
                provider: "codex".to_string(),
                authenticated: true,
                default_account_id: None,
                migration_error: None,
                accounts: vec![],
            }),
        },
    );
    assert!(!app.managed_auth.loading);
    assert!(app
        .managed_auth
        .status
        .as_ref()
        .is_some_and(|status| status.authenticated));
    assert!(matches!(
        refuse_managed_auth_req(
            ManagedAuthReq::Refresh {
                auth_provider: "codex".to_string()
            },
            "no runtime".to_string()
        ),
        ManagedAuthMsg::Status { result: Err(error), .. } if error == "no runtime"
    ));
}

#[test]
fn skills_are_narrowed_whatever_the_case() {
    let kept = narrow_skills(
        vec![skill("Pdf Tools", "pdf"), skill("Music", "music")],
        "  PDF ",
    );
    assert_eq!(kept.len(), 1);
    assert_eq!(kept[0].name, "Pdf Tools");
    let again = narrow_skills(kept, "pdf");
    assert_eq!(again.len(), 1);
    assert_eq!(
        narrow_skills(vec![skill("a", "a"), skill("b", "b")], " ").len(),
        2
    );
}

#[test]
fn marketplace_skills_are_listed_with_their_installs() {
    let msg = answer_discover(
        3,
        "ÄRZTE".to_string(),
        SkillsDiscoverSource::Marketplace,
        Ok(FoundSkills::Marketplace {
            found: vec![MarketSkill {
                key: "k".to_string(),
                name: "Für Ärzte".to_string(),
                directory: "Medic".to_string(),
                readme_url: None,
                repo_owner: "Own".to_string(),
                repo_name: "Repo".to_string(),
                repo_branch: "main".to_string(),
                installs: 42,
            }],
            index: vec![InstalledSkill {
                id: "i".to_string(),
                directory: "medic".to_string(),
                repo_owner: Some("own".to_string()),
                repo_name: Some("REPO".to_string()),
            }],
        }),
    );
    match msg {
        SkillsMsg::DiscoverFinished {
            request_id: 3,
            result: Ok(skills),
            ..
        } => {
            assert_eq!(skills.len(), 1);
            assert_eq!(skills[0].description, "42 installs");
            assert!(skills[0].installed);
        }
        other => panic!("unexpected answer: {other:?}"),
    }
}

#[test]
fn a_search_for_skills_that_was_given_up_is_ignored() {
    let mut app = new_app(None);
    app.skills.loading = true;
    app.skills.active_request_id = Some(2);
    let step = handle_skills_msg(
        &mut app,
        SkillsMsg::DiscoverFinished {
            request_id: 1,
            query: "q".to_string(),
            source: SkillsDiscoverSource::Repos,
            result: Ok(vec![skill("late", "late")]),
        },
    );
    assert!(matches!(step, SkillsStep::Done));
    assert!(app.skills.loading);
    assert!(app.skills.results.is_empty());
    assert!(matches!(
        refuse_skills_req(
            SkillsReq::Install {
                spec: "s".to_string(),
                app: claude()
            },
            "no service".to_string()
        ),
        SkillsMsg::InstallFinished { spec, result: Err(error) }
            if spec == "s" && error == "no service"
    ));
}

#[test]
fn the_local_environment_is_checked_where_it_can_be() {
    let mut app = new_app(None);
    let mut worker = Outbox::new(Link::Open);
    queue_local_env_refresh_if_available(&mut app, &mut worker);
    assert_eq!(worker.sent, vec![LocalEnvReq::Refresh { generation: 1 }]);
    assert!(app.local_env.loading);
    handle_local_env_msg(
        &mut app,
        LocalEnvMsg {
            result: vec![ToolCheckResult {
                tool: claude(),
                version: Some("2.0".to_string()),
                error: None,
            }],
        },
    );
    assert!(!app.local_env.loading);
    assert_eq!(app.local_env.results.len(), 1);

    let mut closed = Outbox::new(Link::Closed);
    queue_local_env_refresh_if_available(&mut app, &mut closed);
    assert!(!app.local_env.loading);
    let toast = app.toast.as_ref().expect("the failure is told");
    assert_eq!(toast.message.key, TextKey::LocalEnvCheckRequestFailed);
    assert_eq!(toast.message.args, vec!["channel closed"]);
}
