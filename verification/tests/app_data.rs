use cc_switch_tui::app::{App, ConfirmAction, ConfirmOverlay, Overlay};
use cc_switch_tui::app_data::{
    apply_cache_invalidation, drain_initial_app_data_messages, effective_cache_invalidation,
    finish_current_app_data_changed, handle_app_data_msg, handle_initial_app_data_msg,
    release_outcome, DataWorkers, InvalidationStep, ReleaseWait, StateHolder,
};
use cc_switch_tui::app_type::{AppNames, AppType};
use cc_switch_tui::cache::{
    CacheInvalidation, PendingAppDataLoad, PendingDataLoad, UiDataByAppCache,
};
use cc_switch_tui::data::{ProviderRow, UiData};
use cc_switch_tui::key::{is_initial_loading_quit_key, KeyCode, KeyEvent, KeyModifiers};
use cc_switch_tui::messages::{
    AppDataLoadKind, AppDataLoaded, AppDataReq, UsagePricingMsg, UsagePricingReq,
};
use cc_switch_tui::outbox::{Link, Outbox};
use cc_switch_tui::text::Text;
use cc_switch_tui::usage::{
    ModelPricingRow, ModelPricingSnapshot, UsageCustomRange, UsageLogRow, UsagePricingData,
    UsageRangePreset, UsageSnapshot,
};
use cc_switch_tui::usage_loads::handle_usage_pricing_msg;

fn new_app(app_type: Option<AppType>) -> App {
    let name = |app_type: AppType| format!("{app_type:?}").to_lowercase();
    let names = AppNames {
        claude: name(AppType::Claude),
        codex: name(AppType::Codex),
        gemini: name(AppType::Gemini),
        open_code: name(AppType::OpenCode),
        hermes: name(AppType::Hermes),
        open_claw: name(AppType::OpenClaw),
    };
    App::new(app_type, names)
}

/// The name that the first application is stored under.
fn claude() -> String {
    format!("{:?}", AppType::Claude).to_lowercase()
}

const CUSTOM: UsageCustomRange = UsageCustomRange {
    start: 1_780_272_000,
    end: 1_780_703_999,
};

fn pending(kind: AppDataLoadKind, request_id: u64) -> PendingAppDataLoad {
    PendingAppDataLoad {
        kind,
        request_id,
        generation: 0,
        app_state_epoch: 0,
    }
}

fn pending_snapshot_app_data(request_id: u64) -> PendingAppDataLoad {
    pending(AppDataLoadKind::Snapshot, request_id)
}

fn pending_full_app_data(request_id: u64) -> PendingAppDataLoad {
    pending(AppDataLoadKind::Full, request_id)
}

fn answer(
    kind: AppDataLoadKind,
    request_id: u64,
    app_type: AppType,
    result: Result<UiData, String>,
) -> AppDataLoaded {
    AppDataLoaded {
        kind,
        request_id,
        generation: 0,
        app_state_epoch: 0,
        app_type,
        result,
    }
}

fn data_of(current_id: &str) -> UiData {
    let mut data = UiData::empty();
    data.providers.current_id = current_id.to_string();
    data
}

fn no_workers() -> DataWorkers {
    DataWorkers::new(Link::Missing, Link::Missing, Link::Missing)
}

fn pricing_row(model_id: &str, display_name: &str, cost: u64) -> ModelPricingRow {
    ModelPricingRow {
        model_id: model_id.to_string(),
        display_name: display_name.to_string(),
        recent_total_cost_micro_usd: cost,
    }
}

fn log_row(request_id: &str) -> UsageLogRow {
    UsageLogRow {
        request_id: request_id.to_string(),
        model: String::new(),
        created_at: 0,
        cursor_rowid: 0,
    }
}

fn visible_apps_question() -> Overlay {
    Overlay::Confirm(ConfirmOverlay {
        title: Text::verbatim("Visible apps"),
        message: Text::verbatim("Review detected apps"),
        action: ConfirmAction::VisibleAppsAutoDetection,
    })
}

#[test]
fn app_switch_cache_miss_queues_background_load_without_blocking() {
    let mut app = new_app(Some(AppType::Claude));
    let mut data = UiData::empty();
    data.config
        .common_snippets
        .insert(AppType::Codex, "codex shared config".to_string());

    let mut cache = UiDataByAppCache::default();
    let mut worker = Outbox::new(Link::Open);

    cache.switch_to(&mut app, &mut data, &mut worker, AppType::Codex);

    assert_eq!(app.app_type, AppType::Codex);
    assert!(data.providers.rows.is_empty());
    assert_eq!(data.config.common_snippet, "codex shared config");
    assert_eq!(
        cache.pending_by_app.get(&AppType::Codex).copied(),
        Some(pending_snapshot_app_data(1))
    );
    assert!(cache.by_app.contains_key(&AppType::Claude));

    assert!(matches!(
        worker.sent.as_slice(),
        [AppDataReq::Load {
            request_id: 1,
            generation: 0,
            app_state_epoch: 0,
            app_type: AppType::Codex,
        }]
    ));
}

#[test]
fn app_data_send_failure_does_not_block_retry() {
    let mut app = new_app(Some(AppType::Claude));
    let mut data = UiData::empty();
    let mut cache = UiDataByAppCache::default();
    let mut worker = Outbox::new(Link::Closed);

    cache.switch_to(&mut app, &mut data, &mut worker, AppType::Codex);

    assert!(!cache.pending_by_app.contains_key(&AppType::Codex));
    assert!(cache.incomplete_by_app.contains_key(&AppType::Codex));

    let mut back_data = UiData::empty();
    let mut missing = Outbox::new(Link::Missing);
    cache.switch_to(&mut app, &mut back_data, &mut missing, AppType::Claude);

    let mut retry = Outbox::new(Link::Open);
    cache.switch_to(&mut app, &mut back_data, &mut retry, AppType::Codex);

    assert_eq!(
        cache.pending_by_app.get(&AppType::Codex).copied(),
        Some(pending_snapshot_app_data(2))
    );
    assert!(matches!(
        retry.sent.as_slice(),
        [AppDataReq::Load {
            request_id: 2,
            generation: 0,
            app_state_epoch: 0,
            app_type: AppType::Codex,
        }]
    ));
}

#[test]
fn initial_load_preseeds_extra_visible_apps_for_instant_switch() {
    let mut cache = UiDataByAppCache::default();
    let mut worker = Outbox::new(Link::Open);

    let pending = cache
        .queue_initial_app_data_load(&mut worker, &AppType::Claude, &[AppType::Codex])
        .expect("queue initial load");

    assert_eq!(
        cache.pending_by_app.get(&AppType::Claude).copied(),
        Some(pending)
    );
    let codex_pending = cache
        .pending_by_app
        .get(&AppType::Codex)
        .copied()
        .expect("codex should have a pre-seed pending entry");
    assert_eq!(codex_pending.kind, AppDataLoadKind::Initial);

    let extras = match worker.take().pop() {
        Some(AppDataReq::InitialLoad {
            app_type: AppType::Claude,
            extras,
            ..
        }) => extras,
        other => panic!("unexpected initial request: {other:?}"),
    };
    assert_eq!(extras, vec![(AppType::Codex, codex_pending.request_id)]);

    let mut app = new_app(Some(AppType::Claude));
    let mut data = UiData::empty();
    let mut startup_overlay = Some(Overlay::Absent);

    let mut codex_data = UiData::empty();
    codex_data.providers.rows.push(ProviderRow {
        id: "codex-default".to_string(),
        name: "Codex Default".to_string(),
        is_current: true,
        quota_tool: None,
    });

    let handled = handle_initial_app_data_msg(
        &mut app,
        &mut data,
        &mut cache,
        &mut startup_overlay,
        &mut no_workers(),
        answer(
            AppDataLoadKind::Initial,
            codex_pending.request_id,
            AppType::Codex,
            Ok(codex_data),
        ),
    )
    .expect("handling the codex pre-seed should succeed");
    assert!(handled);
    assert!(cache.by_app.contains_key(&AppType::Codex));
    assert!(!cache.pending_by_app.contains_key(&AppType::Codex));
    assert!(!cache.incomplete_by_app.contains_key(&AppType::Codex));

    let mut switch_worker = Outbox::new(Link::Open);
    cache.switch_to(&mut app, &mut data, &mut switch_worker, AppType::Codex);
    assert_eq!(app.app_type, AppType::Codex);
    assert!(
        !data.providers.rows.is_empty(),
        "pre-seeded providers should render on the first switch"
    );
    assert!(
        switch_worker.sent.is_empty(),
        "a cache hit must not queue a background load"
    );
}

#[test]
fn initial_load_extra_app_failure_does_not_abort_startup() {
    let mut cache = UiDataByAppCache::default();
    let mut worker = Outbox::new(Link::Open);

    cache
        .queue_initial_app_data_load(&mut worker, &AppType::Claude, &[AppType::Codex])
        .expect("queue initial load");
    let codex_request_id = cache
        .pending_by_app
        .get(&AppType::Codex)
        .copied()
        .expect("codex pending")
        .request_id;
    assert_eq!(worker.sent.len(), 1);

    let mut app = new_app(Some(AppType::Claude));
    let mut data = UiData::empty();
    let mut startup_overlay = Some(Overlay::Absent);

    let handled = handle_initial_app_data_msg(
        &mut app,
        &mut data,
        &mut cache,
        &mut startup_overlay,
        &mut no_workers(),
        answer(
            AppDataLoadKind::Initial,
            codex_request_id,
            AppType::Codex,
            Err("boom".to_string()),
        ),
    )
    .expect("a non-active pre-seed failure must not abort startup");
    assert!(handled);
    assert!(!cache.by_app.contains_key(&AppType::Codex));
    assert!(!cache.pending_by_app.contains_key(&AppType::Codex));
}

#[test]
fn current_app_reloaded_keeps_other_apps_cache() {
    let app = new_app(Some(AppType::Claude));
    let data = UiData::empty();
    let mut cache = UiDataByAppCache::default();

    cache.by_app.insert(AppType::Codex, UiData::empty());
    cache.handle_data_reloaded(&app, &data, CacheInvalidation::CurrentAppReloaded);
    assert!(
        cache.by_app.contains_key(&AppType::Codex),
        "current-app reload must not wipe other apps' pre-seed"
    );
    assert!(cache.by_app.contains_key(&AppType::Claude));

    cache.by_app.insert(AppType::Codex, UiData::empty());
    cache.handle_data_reloaded(&app, &data, CacheInvalidation::DataReloaded);
    assert!(!cache.by_app.contains_key(&AppType::Codex));
    assert!(cache.by_app.contains_key(&AppType::Claude));
}

#[test]
fn app_switch_projection_marks_providers_loading() {
    let data = UiData::empty();
    let projection = data.app_switch_loading_projection(&AppType::Codex);
    assert!(
        projection.providers.loading,
        "cold-switch projection must flag loading so the empty CTA isn't shown"
    );
    assert!(projection.providers.rows.is_empty());
}

#[test]
fn stale_app_data_result_does_not_overwrite_current_app() {
    let mut app = new_app(Some(AppType::Claude));
    let mut data = data_of(&format!("{}-current", claude()));

    let mut cache = UiDataByAppCache::default();
    cache
        .pending_by_app
        .insert(AppType::Codex, pending_snapshot_app_data(1));

    handle_app_data_msg(
        &mut app,
        &mut data,
        &mut cache,
        &mut no_workers(),
        answer(
            AppDataLoadKind::Snapshot,
            1,
            AppType::Codex,
            Ok(data_of("codex-loaded")),
        ),
    );

    assert_eq!(app.app_type, AppType::Claude);
    assert_eq!(data.providers.current_id, format!("{}-current", claude()));
    assert_eq!(
        cache
            .by_app
            .get(&AppType::Codex)
            .map(|cached| cached.providers.current_id.as_str()),
        Some("codex-loaded")
    );
}

#[test]
fn app_data_result_preserves_usage_pricing_that_finished_first() {
    let mut app = new_app(Some(AppType::Codex));
    let mut data = UiData::empty();
    let mut cache = UiDataByAppCache::default();
    cache
        .pending_by_app
        .insert(AppType::Codex, pending_snapshot_app_data(2));
    cache.pending_usage_pricing_by_key.insert(
        (AppType::Codex, UsageRangePreset::SevenDays),
        PendingDataLoad {
            request_id: 1,
            generation: 0,
            app_state_epoch: 0,
        },
    );

    let mut usage = UsageSnapshot::empty();
    usage.summary_7d.total_cost_micro_usd = 12_500_000;
    let pricing = ModelPricingSnapshot {
        rows: vec![pricing_row("gpt-5.4", "GPT 5.4", 12_500_000)],
    };

    let _ = handle_usage_pricing_msg(
        &mut app,
        &mut data,
        &mut cache,
        UsagePricingMsg::Loaded {
            request_id: 1,
            generation: 0,
            app_state_epoch: 0,
            app_type: AppType::Codex,
            range: UsageRangePreset::SevenDays,
            result: Ok(UsagePricingData {
                usage,
                pricing: Some(pricing),
            }),
        },
    );

    assert_eq!(data.usage.summary_7d.total_cost_micro_usd, 12_500_000);
    assert!(
        !cache.by_app.contains_key(&AppType::Codex),
        "pending base data should not be cached as a complete app snapshot"
    );

    handle_app_data_msg(
        &mut app,
        &mut data,
        &mut cache,
        &mut no_workers(),
        answer(
            AppDataLoadKind::Snapshot,
            2,
            AppType::Codex,
            Ok(data_of("codex-base")),
        ),
    );

    assert_eq!(data.providers.current_id, "codex-base");
    assert_eq!(data.usage.summary_7d.total_cost_micro_usd, 12_500_000);
    assert_eq!(data.pricing.rows.len(), 1);
}

#[test]
fn current_app_data_changed_queues_full_load_without_caching_stale_data() {
    let mut app = new_app(Some(AppType::Codex));
    let mut data = data_of("stale-current");
    data.usage.summary_7d.total_cost_micro_usd = 7_500_000;
    data.pricing
        .rows
        .push(pricing_row("gpt-stale", "GPT Stale", 7_500_000));

    let mut cache = UiDataByAppCache::default();
    cache.by_app.insert(AppType::Codex, data_of("cached-stale"));
    cache
        .pending_by_app
        .insert(AppType::Codex, pending_snapshot_app_data(99));
    cache.incomplete_by_app.insert(AppType::Codex, ());
    let mut workers = DataWorkers::new(Link::Missing, Link::Open, Link::Missing);

    let step = apply_cache_invalidation(
        &mut app,
        &mut data,
        &mut cache,
        &mut workers,
        CacheInvalidation::CurrentAppDataChanged,
        Ok(()),
    )
    .expect("current app refresh should be queued");
    assert_eq!(step, InvalidationStep::Done);

    assert_eq!(data.providers.current_id, "stale-current");
    assert!(!cache.by_app.contains_key(&AppType::Codex));
    assert_eq!(
        cache.pending_by_app.get(&AppType::Codex).copied(),
        Some(pending_full_app_data(1))
    );
    assert!(cache.incomplete_by_app.contains_key(&AppType::Codex));
    assert!(!cache
        .usage_pricing_by_key
        .contains_key(&(AppType::Codex, UsageRangePreset::SevenDays)));
    assert!(matches!(
        workers.app_data.sent.as_slice(),
        [AppDataReq::FullLoad {
            request_id: 1,
            generation: 0,
            app_state_epoch: 0,
            app_type: AppType::Codex,
        }]
    ));

    let mut loaded = data_of("fresh-current");
    loaded.usage.summary_7d.total_cost_micro_usd = 9_000_000;
    loaded
        .pricing
        .rows
        .push(pricing_row("gpt-fresh", "GPT Fresh", 9_000_000));
    handle_app_data_msg(
        &mut app,
        &mut data,
        &mut cache,
        &mut no_workers(),
        answer(AppDataLoadKind::Full, 1, AppType::Codex, Ok(loaded)),
    );

    assert_eq!(data.providers.current_id, "fresh-current");
    assert_eq!(data.usage.summary_7d.total_cost_micro_usd, 9_000_000);
    assert_eq!(data.pricing.rows.len(), 1);
    assert_eq!(data.pricing.rows[0].model_id, "gpt-fresh");
    assert!(!cache.pending_by_app.contains_key(&AppType::Codex));
    assert!(!cache.incomplete_by_app.contains_key(&AppType::Codex));
    assert_eq!(
        cache
            .by_app
            .get(&AppType::Codex)
            .map(|cached| cached.providers.current_id.as_str()),
        Some("fresh-current")
    );
}

#[test]
fn current_app_data_changed_full_load_requeues_custom_usage_and_invalidates_old_usage_loads() {
    let mut app = new_app(Some(AppType::Claude));
    let mut data = UiData::empty();
    let custom = UsageRangePreset::Custom(CUSTOM);
    app.usage.range = custom;
    app.usage.start_loading(AppType::Claude, custom);
    data.usage.custom_range = Some(CUSTOM);
    data.usage.summary_7d.total_requests = 10;
    data.usage.summary_custom.total_requests = 5;
    data.usage.recent_logs.push(log_row("fixed-log"));
    data.usage.logs_total = 10;
    data.usage.recent_logs_custom.push(log_row("custom-log"));
    data.usage.logs_total_custom = 5;

    let mut cache = UiDataByAppCache::default();
    let mut kept = UsageSnapshot::empty();
    kept.summary_7d.total_requests = 10;
    cache.usage_pricing_by_key.insert(
        (AppType::Claude, UsageRangePreset::SevenDays),
        UsagePricingData {
            usage: kept,
            pricing: Some(ModelPricingSnapshot { rows: vec![] }),
        },
    );
    cache.pending_usage_pricing_by_key.insert(
        (AppType::Claude, UsageRangePreset::SevenDays),
        PendingDataLoad {
            request_id: 3,
            generation: 0,
            app_state_epoch: 0,
        },
    );
    let mut workers = DataWorkers::new(Link::Missing, Link::Open, Link::Missing);

    apply_cache_invalidation(
        &mut app,
        &mut data,
        &mut cache,
        &mut workers,
        CacheInvalidation::CurrentAppDataChanged,
        Ok(()),
    )
    .expect("current app refresh should be queued");

    assert!(!cache
        .pending_usage_pricing_by_key
        .contains_key(&(AppType::Claude, UsageRangePreset::SevenDays)));
    assert!(!cache
        .usage_pricing_by_key
        .contains_key(&(AppType::Claude, UsageRangePreset::SevenDays)));
    assert!(app.usage.is_loading_for(&AppType::Claude, custom));
    assert!(matches!(
        workers.app_data.sent.as_slice(),
        [AppDataReq::FullLoad { request_id: 1, .. }]
    ));

    let mut loaded = data_of("fresh-current");
    loaded.usage.summary_7d.total_requests = 11;
    let mut workers = DataWorkers::new(Link::Missing, Link::Missing, Link::Open);
    handle_app_data_msg(
        &mut app,
        &mut data,
        &mut cache,
        &mut workers,
        answer(AppDataLoadKind::Full, 1, AppType::Claude, Ok(loaded)),
    );

    assert_eq!(data.providers.current_id, "fresh-current");
    assert_eq!(data.usage.summary_7d.total_requests, 11);
    assert_eq!(data.usage.summary_custom.total_requests, 0);
    assert!(data.usage.recent_logs_custom.is_empty());
    assert!(app.usage.is_loading_for(&AppType::Claude, custom));
    assert!(matches!(
        workers.usage.sent.as_slice(),
        [UsagePricingReq::Load {
            request_id: 1,
            app_type: AppType::Claude,
            range: UsageRangePreset::Custom(CUSTOM),
            ..
        }]
    ));
}

#[test]
fn current_app_data_changed_falls_back_to_sync_load_when_worker_unavailable() {
    let mut app = new_app(Some(AppType::Claude));
    let mut data = data_of("stale-current");
    let mut cache = UiDataByAppCache::default();
    cache
        .pending_by_app
        .insert(AppType::Claude, pending_snapshot_app_data(9));
    cache.incomplete_by_app.insert(AppType::Claude, ());
    let mut workers = no_workers();

    let step = apply_cache_invalidation(
        &mut app,
        &mut data,
        &mut cache,
        &mut workers,
        CacheInvalidation::CurrentAppDataChanged,
        Ok(()),
    )
    .expect("fallback reload should succeed");
    assert_eq!(step, InvalidationStep::LoadCurrentApp);

    let mut loaded = UiData::empty();
    loaded.providers.rows.push(ProviderRow {
        id: "fresh-provider".to_string(),
        name: "Fresh Provider".to_string(),
        is_current: false,
        quota_tool: None,
    });
    finish_current_app_data_changed(&mut app, &mut data, &mut cache, &mut workers, loaded);

    assert!(data
        .providers
        .rows
        .iter()
        .any(|row| row.id == "fresh-provider"));
    assert!(!cache.pending_by_app.contains_key(&AppType::Claude));
    assert!(!cache.incomplete_by_app.contains_key(&AppType::Claude));
    assert_eq!(
        cache
            .by_app
            .get(&AppType::Claude)
            .map(|cached| cached.providers.rows.len()),
        Some(data.providers.rows.len())
    );
}

#[test]
fn app_data_result_after_cache_invalidation_is_ignored() {
    let mut app = new_app(Some(AppType::Codex));
    let mut data = data_of("current-after-reload");
    let mut cache = UiDataByAppCache::default();
    cache
        .pending_by_app
        .insert(AppType::Codex, pending_snapshot_app_data(4));

    cache.handle_data_reloaded(&app, &data, CacheInvalidation::DataReloaded);

    handle_app_data_msg(
        &mut app,
        &mut data,
        &mut cache,
        &mut no_workers(),
        answer(
            AppDataLoadKind::Snapshot,
            4,
            AppType::Codex,
            Ok(data_of("stale-worker-result")),
        ),
    );

    assert_eq!(data.providers.current_id, "current-after-reload");
    assert!(cache.pending_by_app.is_empty());
    assert_eq!(cache.data_generation, 1);
}

#[test]
fn usage_sync_invalidation_preserves_unrelated_app_data_load_token() {
    let mut app = new_app(Some(AppType::Claude));
    let mut data = data_of("current-after-sync");
    let mut cache = UiDataByAppCache::default();
    cache
        .pending_by_app
        .insert(AppType::Claude, pending_full_app_data(2));
    cache.incomplete_by_app.insert(AppType::Claude, ());
    cache.invalidate_usage_pricing_cache_after_external_usage_sync();
    let mut workers = DataWorkers::new(Link::Missing, Link::Open, Link::Missing);

    handle_app_data_msg(
        &mut app,
        &mut data,
        &mut cache,
        &mut workers,
        answer(
            AppDataLoadKind::Full,
            2,
            AppType::Claude,
            Ok(data_of("stale-full-load")),
        ),
    );

    assert_eq!(data.providers.current_id, "stale-full-load");
    assert!(!cache.incomplete_by_app.contains_key(&AppType::Claude));
    assert!(cache.pending_by_app.is_empty());
    assert_eq!(cache.data_generation, 0);
    assert_eq!(cache.app_state_epoch, 0);
    assert!(workers.app_data.sent.is_empty());
}

#[test]
fn initial_app_data_result_restores_startup_overlay_and_caches_loaded_data() {
    let mut app = new_app(Some(AppType::Claude));
    let mut data = UiData::empty();
    let mut cache = UiDataByAppCache::default();
    cache
        .pending_by_app
        .insert(AppType::Claude, pending(AppDataLoadKind::Initial, 1));
    cache.incomplete_by_app.insert(AppType::Claude, ());
    app.overlay = visible_apps_question();
    let mut startup_overlay = Some(visible_apps_question());

    let mut loaded = data_of("loaded-current");
    loaded.proxy.running = true;
    loaded.proxy.estimated_input_tokens_total = 10;
    loaded.proxy.estimated_output_tokens_total = 20;

    let handled = handle_initial_app_data_msg(
        &mut app,
        &mut data,
        &mut cache,
        &mut startup_overlay,
        &mut no_workers(),
        answer(AppDataLoadKind::Initial, 1, AppType::Claude, Ok(loaded)),
    )
    .expect("initial app data result should be handled");

    assert!(handled);
    assert_eq!(data.providers.current_id, "loaded-current");
    assert_eq!(
        cache
            .by_app
            .get(&AppType::Claude)
            .map(|cached| cached.providers.current_id.as_str()),
        Some("loaded-current")
    );
    assert!(cache.pending_by_app.is_empty());
    assert!(!cache.incomplete_by_app.contains_key(&AppType::Claude));
    assert!(startup_overlay.is_none());
    assert!(matches!(
        app.overlay,
        Overlay::Confirm(ConfirmOverlay {
            action: ConfirmAction::VisibleAppsAutoDetection,
            ..
        })
    ));
    assert_eq!(app.proxy.visual_state, Some(true));
    assert!(app.proxy.transition.is_none());
    assert_eq!(app.proxy.last_input_tokens, Some(10));
    assert_eq!(app.proxy.last_output_tokens, Some(20));
}

#[test]
fn initial_app_data_error_returns_before_empty_shell_is_marked_loaded() {
    let mut app = new_app(Some(AppType::Claude));
    let mut data = data_of("empty-shell");
    let mut cache = UiDataByAppCache::default();
    cache
        .pending_by_app
        .insert(AppType::Claude, pending(AppDataLoadKind::Initial, 1));
    cache.incomplete_by_app.insert(AppType::Claude, ());
    let mut startup_overlay = None;

    let err = handle_initial_app_data_msg(
        &mut app,
        &mut data,
        &mut cache,
        &mut startup_overlay,
        &mut no_workers(),
        answer(
            AppDataLoadKind::Initial,
            1,
            AppType::Claude,
            Err("boom".to_string()),
        ),
    )
    .expect_err("initial load failure should be returned");

    assert_eq!(err, "boom");
    assert_eq!(data.providers.current_id, "empty-shell");
    assert!(cache.by_app.is_empty());
    assert!(cache.incomplete_by_app.contains_key(&AppType::Claude));
}

#[test]
fn initial_app_data_drain_prioritizes_error_before_quit_input() {
    let mut app = new_app(Some(AppType::Claude));
    let mut data = UiData::empty();
    let mut cache = UiDataByAppCache::default();
    cache
        .pending_by_app
        .insert(AppType::Claude, pending(AppDataLoadKind::Initial, 1));
    cache.incomplete_by_app.insert(AppType::Claude, ());
    let mut startup_overlay = None;
    let queued = vec![answer(
        AppDataLoadKind::Initial,
        1,
        AppType::Claude,
        Err("boom".to_string()),
    )];

    let quit_key = KeyEvent::new(KeyCode::Esc, KeyModifiers::none());
    assert!(is_initial_loading_quit_key(&quit_key));
    let err = drain_initial_app_data_messages(
        &mut app,
        &mut data,
        &mut cache,
        &mut startup_overlay,
        &mut no_workers(),
        queued,
    )
    .expect_err("initial load error should win over quit input");

    assert_eq!(err, "boom");
    assert!(cache.by_app.is_empty());
    assert!(cache.incomplete_by_app.contains_key(&AppType::Claude));
}

#[test]
fn data_that_did_not_change_invalidates_nothing() {
    let mut data = UiData::empty();
    data.reload_token = 4;
    assert_eq!(
        effective_cache_invalidation(CacheInvalidation::DataReloaded, 4, &data),
        CacheInvalidation::Nothing
    );
    assert_eq!(
        effective_cache_invalidation(CacheInvalidation::DataReloaded, 3, &data),
        CacheInvalidation::DataReloaded
    );
}

#[test]
fn a_recreated_state_makes_every_load_stale() {
    let mut app = new_app(Some(AppType::Claude));
    let mut data = data_of("shown");
    let mut cache = UiDataByAppCache::default();
    cache
        .pending_by_app
        .insert(AppType::Codex, pending_snapshot_app_data(1));

    apply_cache_invalidation(
        &mut app,
        &mut data,
        &mut cache,
        &mut no_workers(),
        CacheInvalidation::AppStateRecreated,
        Ok(()),
    )
    .expect("nothing has to be waited for");
    assert_eq!(cache.app_state_epoch, 1);

    handle_app_data_msg(
        &mut app,
        &mut data,
        &mut cache,
        &mut no_workers(),
        answer(
            AppDataLoadKind::Snapshot,
            1,
            AppType::Codex,
            Ok(data_of("old")),
        ),
    );
    assert!(!cache.by_app.contains_key(&AppType::Codex));
}

#[test]
fn workers_that_do_not_let_go_are_reported() {
    assert_eq!(
        release_outcome(&vec![(StateHolder::AppData, ReleaseWait::Acknowledged)]),
        Ok(())
    );
    let error = release_outcome(&vec![
        (StateHolder::AppData, ReleaseWait::Acknowledged),
        (StateHolder::UsagePricing, ReleaseWait::TimedOut),
    ])
    .expect_err("a worker still holds its state");
    assert_eq!(
        error,
        format!(
            "timed out waiting for {} worker to release cached app state",
            StateHolder::UsagePricing.name()
        )
    );
}
