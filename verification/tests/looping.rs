use cc_switch_tui::app::App;
use cc_switch_tui::app_type::{AppNames, AppType};
use cc_switch_tui::cache::UiDataByAppCache;
use cc_switch_tui::data::{ProviderRow, UiData};
use cc_switch_tui::event_loop::{
    after_action, poll_managed_auth_login, run_tick, worker_unavailable, ActionError, LoopClock,
    TickWorkers, WorkerKind, USAGE_SYNC_REFRESH_INTERVAL,
};
use cc_switch_tui::frame::{FrameScheduler, TUI_TICK_RATE};
use cc_switch_tui::managed_auth::{ManagedAuthLoginState, ManagedAuthReq};
use cc_switch_tui::messages::UsagePricingReq;
use cc_switch_tui::outbox::{Link, Outbox};
use cc_switch_tui::proxy::ProxyReq;
use cc_switch_tui::quota::{ProviderUsageQuota, QuotaTarget};
use cc_switch_tui::quota_requests::{
    handle_quota_msg, queue_current_quota_refresh_if_due, queue_provider_quota_refresh, QuotaMsg,
    QUOTA_REFRESH_INTERVAL_TICKS,
};
use cc_switch_tui::request::RequestTracker;
use cc_switch_tui::route::Route;
use cc_switch_tui::text::{TextKey, ToastKind};

fn new_app(app_type: Option<AppType>) -> App {
    let name = |app_type: AppType| format!("{app_type:?}").to_lowercase();
    let names = AppNames {
        claude: name(AppType::Claude),
        codex: name(AppType::Codex),
        gemini: name(AppType::Gemini),
        open_code: name(AppType::OpenCode),
        hermes: name(AppType::Hermes),
        open_claw: name(AppType::OpenClaw),
    };
    App::new(app_type, names)
}

/// The name that the first application is stored under.
fn claude() -> String {
    title().to_lowercase()
}

/// The name of the first application as it is written.
fn title() -> String {
    format!("{:?}", AppType::Claude)
}

fn quota_target() -> QuotaTarget {
    QuotaTarget {
        app_type: AppType::Claude,
        provider_id: "official".to_string(),
        provider_name: format!("{} Official", title()),
        tool: claude(),
    }
}

fn quota_result() -> ProviderUsageQuota {
    ProviderUsageQuota {
        tool: claude(),
        success: true,
        queried_at: Some(1_780_000_000_000),
    }
}

fn official() -> UiData {
    let mut data = UiData::empty();
    data.providers.current_id = "official".to_string();
    data.providers.rows.push(ProviderRow {
        id: "official".to_string(),
        name: format!("{} Official", title()),
        is_current: true,
        quota_tool: Some(claude()),
    });
    data
}

#[test]
fn manual_quota_refresh_success_shows_finished_toast() {
    let mut app = new_app(Some(AppType::Claude));
    let mut data = UiData::empty();
    data.quota.mark_loading(quota_target(), true);

    handle_quota_msg(
        &mut app,
        &mut data,
        QuotaMsg {
            target: quota_target(),
            result: Ok(quota_result()),
        },
    );

    let toast = app
        .toast
        .as_ref()
        .expect("manual refresh completion should show a toast");
    assert_eq!(toast.kind, ToastKind::Success);
    assert_eq!(toast.message.key, TextKey::QuotaRefreshFinished);
    assert_eq!(toast.message.args, vec![format!("{} Official", title())]);
    assert!(!data.quota.has_manual_loading(&quota_target()));
}

#[test]
fn automatic_quota_refresh_success_stays_quiet() {
    let mut app = new_app(Some(AppType::Claude));
    let mut data = UiData::empty();
    data.quota.mark_loading(quota_target(), false);

    handle_quota_msg(
        &mut app,
        &mut data,
        QuotaMsg {
            target: quota_target(),
            result: Ok(quota_result()),
        },
    );

    assert!(
        app.toast.is_none(),
        "automatic background quota refresh should not interrupt the user"
    );
}

#[test]
fn a_quota_that_fails_is_told() {
    let mut app = new_app(Some(AppType::Claude));
    let mut data = UiData::empty();
    data.quota.mark_loading(quota_target(), false);
    handle_quota_msg(
        &mut app,
        &mut data,
        QuotaMsg {
            target: quota_target(),
            result: Err("offline".to_string()),
        },
    );
    let toast = app.toast.as_ref().expect("a failure is told");
    assert_eq!(toast.kind, ToastKind::Warning);
    assert_eq!(toast.message.key, TextKey::QuotaRefreshFailed);
    let state = data
        .quota
        .state_for(&"official".to_string())
        .expect("state");
    assert_eq!(state.error.as_deref(), Some("offline"));
    assert!(!state.loading);
}

#[test]
fn quotas_are_asked_for_once_per_interval() {
    let mut app = new_app(Some(AppType::Claude));
    let mut data = official();
    let mut worker = Outbox::new(Link::Open);
    queue_current_quota_refresh_if_due(&mut app, &mut data, &mut worker);
    assert_eq!(worker.sent.len(), 1);
    data.quota.finish(quota_target(), quota_result());

    app.tick += QUOTA_REFRESH_INTERVAL_TICKS - 1;
    queue_current_quota_refresh_if_due(&mut app, &mut data, &mut worker);
    assert_eq!(worker.sent.len(), 1);

    app.tick += 1;
    queue_current_quota_refresh_if_due(&mut app, &mut data, &mut worker);
    assert_eq!(worker.sent.len(), 2);
}

#[test]
fn a_user_may_ask_for_a_quota_at_any_time() {
    let mut app = new_app(Some(AppType::Claude));
    let mut data = official();
    let mut worker = Outbox::new(Link::Open);
    queue_provider_quota_refresh(
        &mut app,
        &mut data,
        &mut worker,
        &"official".to_string(),
    );
    assert_eq!(worker.sent.len(), 1);
    assert!(data.quota.has_manual_loading(&quota_target()));
    queue_provider_quota_refresh(&mut app, &mut data, &mut worker, &"nobody".to_string());
    assert_eq!(worker.sent.len(), 1);
}

#[test]
fn a_worker_that_does_not_start_is_told() {
    let mut app = new_app(Some(AppType::Claude));
    app.local_env.loading = true;
    worker_unavailable(&mut app, WorkerKind::LocalEnv, "no thread");
    assert!(!app.local_env.loading);
    assert_eq!(
        app.toast.as_ref().map(|toast| toast.kind),
        Some(ToastKind::Warning)
    );

    let mut quiet = new_app(Some(AppType::Claude));
    worker_unavailable(&mut quiet, WorkerKind::SessionUsage, "no thread");
    assert!(quiet.toast.is_none());

    worker_unavailable(&mut quiet, WorkerKind::AppData, "no thread");
    let toast = quiet.toast.as_ref().expect("toast");
    assert_eq!(toast.message.key, TextKey::Verbatim);
    assert_eq!(
        toast.message.args,
        vec!["App data worker unavailable: no thread"]
    );
}

#[test]
fn only_errors_of_the_terminal_end_the_loop() {
    let mut app = new_app(Some(AppType::Codex));
    let mut snapshot = RequestTracker::default();
    let mut proxy = Outbox::new(Link::Open);
    let fatal = after_action(
        &mut app,
        &mut snapshot,
        &mut proxy,
        &AppType::Codex,
        Err(ActionError::Terminal("lost".to_string())),
    );
    assert_eq!(fatal.as_deref(), Some("lost"));
    assert!(app.toast.is_none());

    let fatal = after_action(
        &mut app,
        &mut snapshot,
        &mut proxy,
        &AppType::Codex,
        Err(ActionError::Other("denied".to_string())),
    );
    assert!(fatal.is_none());
    assert_eq!(
        app.toast.as_ref().map(|toast| toast.kind),
        Some(ToastKind::Error)
    );
    assert!(proxy.sent.is_empty());
}

#[test]
fn another_application_has_another_proxy() {
    let mut app = new_app(Some(AppType::Codex));
    let mut snapshot = RequestTracker {
        seq: 4,
        active: Some(4),
    };
    let mut proxy = Outbox::new(Link::Open);
    let fatal = after_action(
        &mut app,
        &mut snapshot,
        &mut proxy,
        &AppType::Claude,
        Ok(()),
    );
    assert!(fatal.is_none());
    assert_eq!(
        proxy.sent,
        vec![ProxyReq::RefreshSnapshot {
            request_id: 5,
            app_type: AppType::Codex,
        }]
    );
}

fn workers() -> TickWorkers {
    TickWorkers {
        proxy: Outbox::new(Link::Open),
        quota: Outbox::new(Link::Open),
        usage: Outbox::new(Link::Open),
    }
}

#[test]
fn a_tick_draws_and_looks_after_the_quota() {
    let mut app = new_app(Some(AppType::Claude));
    let mut data = official();
    let mut cache = UiDataByAppCache::default();
    let mut clock = LoopClock::new(0);
    let mut frames = FrameScheduler::new();
    frames.record_draw(0);
    let mut snapshot = RequestTracker::default();
    let mut workers = workers();
    assert!(!clock.tick_is_due(TUI_TICK_RATE - 1));
    assert!(clock.tick_is_due(TUI_TICK_RATE));
    run_tick(
        &mut app,
        &mut data,
        &mut cache,
        &mut clock,
        &mut frames,
        &mut snapshot,
        &RequestTracker::default(),
        &mut workers,
        true,
        TUI_TICK_RATE,
    );
    assert!(frames.dirty);
    assert_eq!(clock.last_tick, TUI_TICK_RATE);
    assert_eq!(workers.quota.sent.len(), 1);
    assert_eq!(workers.proxy.sent.len(), 1);
    assert!(workers.usage.sent.is_empty());
}

#[test]
fn figures_are_kept_up_to_date_while_logs_are_imported() {
    let mut app = new_app(Some(AppType::Claude));
    app.route = Route::Usage;
    let mut data = UiData::empty();
    let mut cache = UiDataByAppCache::default();
    let mut clock = LoopClock::new(0);
    let mut frames = FrameScheduler::new();
    let mut snapshot = RequestTracker::default();
    let sync = RequestTracker {
        seq: 1,
        active: Some(1),
    };
    let mut workers = workers();
    for (now, asked) in [
        (USAGE_SYNC_REFRESH_INTERVAL - 1, 0),
        (USAGE_SYNC_REFRESH_INTERVAL, 1),
        (USAGE_SYNC_REFRESH_INTERVAL + 1, 1),
    ] {
        run_tick(
            &mut app,
            &mut data,
            &mut cache,
            &mut clock,
            &mut frames,
            &mut snapshot,
            &sync,
            &mut workers,
            false,
            now,
        );
        assert_eq!(workers.usage.sent.len(), asked);
    }
    assert!(matches!(
        workers.usage.sent[0],
        UsagePricingReq::Load {
            app_type: AppType::Claude,
            ..
        }
    ));
    assert!(workers.proxy.sent.is_empty());
}

#[test]
fn a_login_is_checked_when_the_next_check_is_due() {
    let mut app = new_app(Some(AppType::Claude));
    let mut worker = Outbox::new(Link::Open);
    app.tick = 9;
    app.managed_auth.login = Some(ManagedAuthLoginState {
        auth_provider: "codex".to_string(),
        device_code: "code".to_string(),
        expires_at_tick: 1_000,
        poll_interval_ticks: 25,
        next_poll_tick: 10,
    });
    assert!(!app.should_poll_managed_auth_login());
    poll_managed_auth_login(&mut app, &mut worker);
    assert!(worker.sent.is_empty());
    assert_eq!(next_poll(&app), Some(10));

    app.tick = 10;
    for _ in 0..3 {
        poll_managed_auth_login(&mut app, &mut worker);
    }
    assert!(matches!(
        worker.sent.as_slice(),
        [ManagedAuthReq::PollLogin { auth_provider, device_code }]
            if auth_provider == "codex" && device_code == "code"
    ));
    assert_eq!(next_poll(&app), Some(35));

    app.tick = 35;
    let mut closed = Outbox::new(Link::Closed);
    poll_managed_auth_login(&mut app, &mut closed);
    assert_eq!(next_poll(&app), Some(60));
    assert_eq!(
        app.toast.as_ref().map(|toast| toast.kind),
        Some(ToastKind::Warning)
    );
}

fn next_poll(app: &App) -> Option<u64> {
    app.managed_auth
        .login
        .as_ref()
        .map(|login| login.next_poll_tick)
}

#[test]
fn nobody_logs_in_and_nothing_is_polled() {
    let mut app = new_app(Some(AppType::Claude));
    let mut worker = Outbox::new(Link::Open);
    poll_managed_auth_login(&mut app, &mut worker);
    assert!(worker.sent.is_empty());
}
