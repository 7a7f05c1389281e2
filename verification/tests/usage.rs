use cc_switch_tui::action::{cache_invalidation_for_action, Action, EditorSubmit};
use cc_switch_tui::app::App;
use cc_switch_tui::app_data::DataWorkers;
use cc_switch_tui::app_type::{AppNames, AppType};
use cc_switch_tui::cache::{
    apply_preloaded_app_switch, CacheInvalidation, PendingAppDataLoad, PendingDataLoad,
    UiDataByAppCache, UsagePricingLoadPhase,
};
use cc_switch_tui::data::UiData;
use cc_switch_tui::dispatch::{finish_tui_action, handle_tui_action, ActionStep};
use cc_switch_tui::messages::{
    AppDataLoadKind, UsageLogLoadError, UsagePricingLoadError, UsagePricingMsg, UsagePricingReq,
};
use cc_switch_tui::outbox::{Link, Outbox};
use cc_switch_tui::request::RequestTracker;
use cc_switch_tui::route::Route;
use cc_switch_tui::usage::{
    ModelPricingRow, ModelPricingSnapshot, UsageCustomRange, UsageLogCursor, UsageLogPage,
    UsageLogPageDirection, UsageLogRow, UsagePricingData, UsageRangePreset, UsageSnapshot,
    USAGE_LOG_PAGE_SIZE,
};
use cc_switch_tui::usage_loads::{
    handle_session_usage_sync_msg, handle_usage_pricing_msg, maybe_queue_usage_log_prefetch,
    maybe_queue_usage_pricing_on_view, maybe_queue_usage_session_sync,
    queue_background_session_usage_sync, queue_usage_log_detail_refresh, SessionUsageSyncMsg,
    SessionUsageSyncReq, UsageLogPrefetch,
};

fn new_app(app_type: Option<AppType>) -> App {
    let name = |app_type: AppType| format!("{app_type:?}").to_lowercase();
    let names = AppNames {
        claude: name(AppType::Claude),
        codex: name(AppType::Codex),
        gemini: name(AppType::Gemini),
        open_code: name(AppType::OpenCode),
        hermes: name(AppType::Hermes),
        open_claw: name(AppType::OpenClaw),
    };
    App::new(app_type, names)
}

const JUNE: UsageCustomRange = UsageCustomRange {
    start: 1_780_272_000,
    end: 1_780_703_999,
};

const MAY: UsageCustomRange = UsageCustomRange {
    start: 1_777_593_600,
    end: 1_778_025_599,
};

const SEVEN: UsageRangePreset = UsageRangePreset::SevenDays;

fn log_row(request_id: &str) -> UsageLogRow {
    UsageLogRow {
        request_id: request_id.to_string(),
        model: String::new(),
        created_at: 0,
        cursor_rowid: 0,
    }
}

fn detail_row(request_id: &str, model: &str, cursor_rowid: i64) -> UsageLogRow {
    UsageLogRow {
        request_id: request_id.to_string(),
        model: model.to_string(),
        created_at: 0,
        cursor_rowid,
    }
}

fn rows(prefix: &str, newest: i64) -> Vec<UsageLogRow> {
    (0..100)
        .map(|index| UsageLogRow {
            request_id: format!("{prefix}-{index}"),
            model: String::new(),
            created_at: newest - index,
            cursor_rowid: 0,
        })
        .collect()
}

fn page(rows: Vec<UsageLogRow>, has_more: bool) -> UsageLogPage {
    UsageLogPage {
        rows,
        next_cursor: None,
        has_more,
    }
}

fn nothing() -> UsagePricingData {
    UsagePricingData {
        usage: UsageSnapshot::empty(),
        pricing: None,
    }
}

fn costing(micro_usd: u64) -> UsagePricingData {
    let mut usage = UsageSnapshot::empty();
    usage.summary_7d.total_cost_micro_usd = micro_usd;
    UsagePricingData {
        usage,
        pricing: Some(ModelPricingSnapshot { rows: vec![] }),
    }
}

fn loaded(
    token: PendingDataLoad,
    app_type: AppType,
    range: UsageRangePreset,
    data: UsagePricingData,
) -> UsagePricingMsg {
    UsagePricingMsg::Loaded {
        request_id: token.request_id,
        generation: token.generation,
        app_state_epoch: token.app_state_epoch,
        app_type,
        range,
        result: Ok(data),
    }
}

fn head(token: PendingDataLoad, head: UsageLogPage) -> UsagePricingMsg {
    UsagePricingMsg::LogHeadLoaded {
        request_id: token.request_id,
        generation: token.generation,
        app_state_epoch: token.app_state_epoch,
        app_type: AppType::Claude,
        range: SEVEN,
        result: Ok(head),
    }
}

fn detail(request_id: u64, row: Option<UsageLogRow>) -> UsagePricingMsg {
    UsagePricingMsg::LogDetailLoaded {
        request_id,
        generation: 0,
        app_state_epoch: 0,
        app_type: AppType::Claude,
        range: SEVEN,
        log_rowid: 44,
        result: Ok(row),
    }
}

fn token(request_id: u64) -> PendingDataLoad {
    PendingDataLoad {
        request_id,
        generation: 0,
        app_state_epoch: 0,
    }
}

fn shown_model(app: &App) -> Option<&str> {
    app.usage
        .log_detail_snapshot
        .as_ref()
        .and_then(|snapshot| snapshot.row_for(&AppType::Claude, SEVEN, 44))
        .map(|row| row.model.as_str())
}

#[test]
fn usage_pricing_results_are_tracked_per_app() {
    let mut app = new_app(Some(AppType::Claude));
    let mut data = UiData::empty();
    let mut cache = UiDataByAppCache::default();
    let mut worker = Outbox::new(Link::Open);

    cache.queue_usage_pricing_load(&mut app, &mut worker, &AppType::Claude, SEVEN);
    cache.queue_usage_pricing_load(&mut app, &mut worker, &AppType::Codex, SEVEN);

    assert_eq!(worker.sent.len(), 2);
    assert!(worker.sent.iter().any(|req| matches!(
        req,
        UsagePricingReq::Load {
            request_id: 1,
            app_type: AppType::Claude,
            ..
        }
    )));
    assert!(worker.sent.iter().any(|req| matches!(
        req,
        UsagePricingReq::Load {
            request_id: 2,
            app_type: AppType::Codex,
            ..
        }
    )));

    let _ = handle_usage_pricing_msg(
        &mut app,
        &mut data,
        &mut cache,
        loaded(token(2), AppType::Codex, SEVEN, costing(2_000_000)),
    );
    let _ = handle_usage_pricing_msg(
        &mut app,
        &mut data,
        &mut cache,
        loaded(token(1), AppType::Claude, SEVEN, costing(1_000_000)),
    );

    assert_eq!(data.usage.summary_7d.total_cost_micro_usd, 1_000_000);
    assert_eq!(
        cache
            .usage_pricing_by_key
            .get(&(AppType::Codex, SEVEN))
            .map(|usage_pricing| usage_pricing.usage.summary_7d.total_cost_micro_usd),
        Some(2_000_000)
    );
}

#[test]
fn usage_log_head_is_visible_while_aggregate_load_remains_pending() {
    let mut app = new_app(Some(AppType::Claude));
    let mut data = UiData::empty();
    let mut cache = UiDataByAppCache::default();
    let pending = PendingDataLoad {
        request_id: 7,
        generation: 3,
        app_state_epoch: 2,
    };
    let key = (AppType::Claude, SEVEN);
    cache.pending_usage_pricing_by_key.insert(key, pending);
    cache
        .usage_pricing_phase_by_key
        .insert(key, UsagePricingLoadPhase::new(pending));

    let first: Vec<UsageLogRow> = (0..USAGE_LOG_PAGE_SIZE)
        .map(|index| log_row(&format!("head-{index}")))
        .collect();
    let _ = handle_usage_pricing_msg(
        &mut app,
        &mut data,
        &mut cache,
        head(pending, page(first, true)),
    );

    assert_eq!(data.usage.recent_logs_for(SEVEN).len(), USAGE_LOG_PAGE_SIZE);
    assert_eq!(
        data.usage.logs_total_for(SEVEN),
        USAGE_LOG_PAGE_SIZE as u64 + 1
    );
    assert!(cache.pending_usage_pricing_by_key.contains_key(&key));

    let mut aggregate = nothing();
    aggregate.usage.logs_total = 432;
    let _ = handle_usage_pricing_msg(
        &mut app,
        &mut data,
        &mut cache,
        loaded(pending, AppType::Claude, SEVEN, aggregate),
    );

    assert_eq!(data.usage.logs_total, 432);
    assert!(cache
        .usage_pricing_phase_by_key
        .get(&key)
        .is_some_and(|phase| {
            phase.aggregate_finished && phase.aggregate_succeeded && phase.head_finished
        }));
}

#[test]
fn usage_log_head_can_arrive_after_its_aggregate_without_being_dropped() {
    let mut app = new_app(Some(AppType::Claude));
    let mut data = UiData::empty();
    let mut cache = UiDataByAppCache::default();
    let pending = PendingDataLoad {
        request_id: 11,
        generation: 5,
        app_state_epoch: 3,
    };
    let key = (AppType::Claude, SEVEN);
    cache.pending_usage_pricing_by_key.insert(key, pending);
    cache
        .usage_pricing_phase_by_key
        .insert(key, UsagePricingLoadPhase::new(pending));

    let mut aggregate = nothing();
    aggregate.usage.logs_total = 987;
    let _ = handle_usage_pricing_msg(
        &mut app,
        &mut data,
        &mut cache,
        loaded(pending, AppType::Claude, SEVEN, aggregate),
    );
    assert!(!cache.pending_usage_pricing_by_key.contains_key(&key));

    let _ = handle_usage_pricing_msg(
        &mut app,
        &mut data,
        &mut cache,
        head(pending, page(vec![log_row("late-head")], false)),
    );

    assert_eq!(data.usage.recent_logs[0].request_id, "late-head");
    assert_eq!(data.usage.logs_total, 987);
    assert!(cache
        .usage_pricing_phase_by_key
        .get(&key)
        .is_some_and(|phase| {
            phase.aggregate_finished && phase.aggregate_succeeded && phase.head_finished
        }));
}

#[test]
fn usage_log_detail_refresh_replaces_on_success_and_keeps_old_on_failure() {
    let mut app = new_app(Some(AppType::Claude));
    app.route = Route::UsageLogDetail { rowid: 44 };
    let mut data = UiData::empty();
    let mut cache = UiDataByAppCache::default();
    app.usage
        .remember_log_detail(AppType::Claude, SEVEN, detail_row("page-two", "old", 44));

    app.usage.start_log_detail_refresh(20);
    app.usage.start_log_detail_refresh(21);
    let _ = handle_usage_pricing_msg(
        &mut app,
        &mut data,
        &mut cache,
        detail(20, Some(detail_row("page-two", "stale", 44))),
    );
    assert_eq!(shown_model(&app), Some("old"));

    let _ = handle_usage_pricing_msg(
        &mut app,
        &mut data,
        &mut cache,
        detail(21, Some(detail_row("page-two", "fresh", 44))),
    );
    assert_eq!(shown_model(&app), Some("fresh"));

    app.usage.start_log_detail_refresh(22);
    let _ = handle_usage_pricing_msg(&mut app, &mut data, &mut cache, detail(22, None));
    assert_eq!(shown_model(&app), Some("fresh"));
}

#[test]
fn usage_pricing_load_updates_non_blocking_loading_state() {
    let mut app = new_app(Some(AppType::Claude));
    let mut data = UiData::empty();
    let mut cache = UiDataByAppCache::default();
    let mut worker = Outbox::new(Link::Open);

    cache.queue_usage_pricing_load(&mut app, &mut worker, &AppType::Claude, SEVEN);

    assert!(app
        .usage
        .is_loading_for(&AppType::Claude, UsageRangePreset::Today));
    assert!(app.usage.is_loading_for(&AppType::Claude, SEVEN));
    assert!(!app.usage.is_loading_for(&AppType::Codex, SEVEN));
    assert!(matches!(
        worker.sent.as_slice(),
        [UsagePricingReq::Load {
            request_id: 1,
            app_type: AppType::Claude,
            range: UsageRangePreset::SevenDays,
            ..
        }]
    ));

    let _ = handle_usage_pricing_msg(
        &mut app,
        &mut data,
        &mut cache,
        loaded(token(1), AppType::Claude, SEVEN, nothing()),
    );

    assert!(!app.usage.is_loading_for(&AppType::Claude, SEVEN));
}

#[test]
fn fixed_usage_ranges_share_one_pending_request_and_canonical_result() {
    let mut app = new_app(Some(AppType::Claude));
    let mut data = UiData::empty();
    let mut cache = UiDataByAppCache::default();
    let mut worker = Outbox::new(Link::Open);

    cache.queue_usage_pricing_load(
        &mut app,
        &mut worker,
        &AppType::Claude,
        UsageRangePreset::Today,
    );
    cache.queue_usage_pricing_load(
        &mut app,
        &mut worker,
        &AppType::Claude,
        UsageRangePreset::ThirtyDays,
    );

    assert!(matches!(
        worker.sent.as_slice(),
        [UsagePricingReq::Load {
            request_id: 1,
            range: UsageRangePreset::SevenDays,
            ..
        }]
    ));
    assert!(cache
        .pending_usage_pricing_by_key
        .contains_key(&(AppType::Claude, SEVEN)));
    assert!(!cache
        .pending_usage_pricing_by_key
        .contains_key(&(AppType::Claude, UsageRangePreset::ThirtyDays)));

    let _ = handle_usage_pricing_msg(
        &mut app,
        &mut data,
        &mut cache,
        loaded(token(1), AppType::Claude, SEVEN, nothing()),
    );

    assert!(!app
        .usage
        .is_loading_for(&AppType::Claude, UsageRangePreset::ThirtyDays));
}

#[test]
fn background_session_usage_sync_queues_once() {
    let mut worker = Outbox::new(Link::Open);
    let mut tracker = RequestTracker::default();

    queue_background_session_usage_sync(&mut worker, &mut tracker);
    queue_background_session_usage_sync(&mut worker, &mut tracker);

    assert_eq!(tracker.active, Some(1));
    assert!(matches!(
        worker.sent.as_slice(),
        [SessionUsageSyncReq { request_id: 1 }]
    ));
}

#[test]
fn background_session_usage_sync_queues_final_refresh_without_new_epoch() {
    let mut app = new_app(Some(AppType::Claude));
    let mut data = UiData::empty();
    data.usage.summary_7d.total_cost_micro_usd = 3_000_000;
    app.usage.start_loading(AppType::Codex, SEVEN);
    let mut cache = UiDataByAppCache::default();
    let mut cached_codex = UiData::empty();
    cached_codex.usage.summary_7d.total_cost_micro_usd = 9_000_000;
    cached_codex.pricing.rows.push(ModelPricingRow {
        model_id: "stale-model".to_string(),
        display_name: String::new(),
        recent_total_cost_micro_usd: 0,
    });
    cache.by_app.insert(AppType::Codex, cached_codex);
    let mut tracker = RequestTracker::default();
    let request_id = tracker.start();
    let mut worker = Outbox::new(Link::Open);

    handle_session_usage_sync_msg(
        &mut app,
        &data,
        &mut cache,
        &mut tracker,
        &mut worker,
        SessionUsageSyncMsg {
            request_id,
            result: Ok(()),
        },
    );

    assert_eq!(tracker.active, None);
    assert_eq!(cache.data_generation, 0);
    assert_eq!(cache.app_state_epoch, 0);
    assert_eq!(data.usage.summary_7d.total_cost_micro_usd, 3_000_000);
    assert!(app.usage.is_loading_for(&AppType::Codex, SEVEN));
    let cached_codex = cache
        .by_app
        .get(&AppType::Codex)
        .expect("non-current app snapshot should remain cached");
    assert_eq!(cached_codex.usage.summary_7d.total_cost_micro_usd, 9_000_000);
    assert_eq!(cached_codex.pricing.rows.len(), 1);
    assert!(app.usage.is_loading_for(&AppType::Claude, SEVEN));
    assert!(matches!(
        worker.sent.as_slice(),
        [UsagePricingReq::Load {
            request_id: 1,
            generation: 0,
            app_state_epoch: 0,
            app_type: AppType::Claude,
            range: UsageRangePreset::SevenDays,
        }]
    ));
}

#[test]
fn usage_sync_progress_waits_for_running_aggregate_then_queues_one_follow_up() {
    let mut app = new_app(Some(AppType::Claude));
    let mut data = UiData::empty();
    let mut cache = UiDataByAppCache::default();
    let mut worker = Outbox::new(Link::Open);

    cache.queue_usage_pricing_load(&mut app, &mut worker, &AppType::Claude, SEVEN);
    assert!(matches!(
        worker.take().as_slice(),
        [UsagePricingReq::Load { request_id: 1, .. }]
    ));

    for _ in 0..2 {
        assert!(
            !cache.request_usage_pricing_refresh_after_external_usage_sync(
                &mut app,
                &mut worker,
                &AppType::Claude,
                SEVEN,
            )
        );
    }
    assert!(worker.sent.is_empty());
    assert_eq!(cache.data_generation, 0);
    assert_eq!(cache.app_state_epoch, 0);
    assert!(cache
        .pending_usage_pricing_by_key
        .contains_key(&(AppType::Claude, SEVEN)));
    assert!(cache
        .usage_pricing_dirty_by_key
        .contains_key(&(AppType::Claude, SEVEN)));

    assert!(handle_usage_pricing_msg(
        &mut app,
        &mut data,
        &mut cache,
        loaded(token(1), AppType::Claude, SEVEN, nothing()),
    ));
    assert!(cache.flush_dirty_usage_pricing(&mut app, &mut worker));
    assert!(matches!(
        worker.sent.as_slice(),
        [UsagePricingReq::Load { request_id: 2, .. }]
    ));
    assert!(cache.usage_pricing_dirty_by_key.is_empty());
}

#[test]
fn usage_sync_finish_does_not_cancel_running_aggregate_and_forces_final_follow_up() {
    let mut app = new_app(Some(AppType::Claude));
    let mut data = UiData::empty();
    let mut cache = UiDataByAppCache::default();
    let mut worker = Outbox::new(Link::Open);
    cache.queue_usage_pricing_load(&mut app, &mut worker, &AppType::Claude, SEVEN);
    assert_eq!(worker.take().len(), 1);

    let mut tracker = RequestTracker::default();
    let sync_request_id = tracker.start();
    handle_session_usage_sync_msg(
        &mut app,
        &data,
        &mut cache,
        &mut tracker,
        &mut worker,
        SessionUsageSyncMsg {
            request_id: sync_request_id,
            result: Ok(()),
        },
    );

    assert!(worker.sent.is_empty());
    assert_eq!(cache.data_generation, 0);
    assert_eq!(cache.app_state_epoch, 0);
    assert_eq!(
        cache
            .pending_usage_pricing_by_key
            .get(&(AppType::Claude, SEVEN))
            .map(|pending| pending.request_id),
        Some(1)
    );

    assert!(handle_usage_pricing_msg(
        &mut app,
        &mut data,
        &mut cache,
        loaded(token(1), AppType::Claude, SEVEN, nothing()),
    ));
    assert!(cache.flush_dirty_usage_pricing(&mut app, &mut worker));
    assert!(matches!(
        worker.sent.as_slice(),
        [UsagePricingReq::Load { request_id: 2, .. }]
    ));
}

#[test]
fn usage_sync_progress_keeps_log_page_and_detail_tokens_valid() {
    let mut app = new_app(Some(AppType::Claude));
    let mut data = UiData::empty();
    let mut cache = UiDataByAppCache {
        data_generation: 7,
        app_state_epoch: 3,
        ..UiDataByAppCache::default()
    };
    let mut worker = Outbox::new(Link::Open);

    assert!(app
        .usage
        .log_pager
        .start_request(1, 41, UsageLogPageDirection::Older));
    app.usage.start_log_detail_refresh(42);
    cache.request_usage_pricing_refresh_after_external_usage_sync(
        &mut app,
        &mut worker,
        &AppType::Claude,
        SEVEN,
    );
    assert_eq!(cache.data_generation, 7);
    assert_eq!(cache.app_state_epoch, 3);

    assert!(!handle_usage_pricing_msg(
        &mut app,
        &mut data,
        &mut cache,
        UsagePricingMsg::LogPageLoaded {
            request_id: 41,
            generation: 7,
            app_state_epoch: 3,
            app_type: AppType::Claude,
            range: SEVEN,
            page: 1,
            direction: UsageLogPageDirection::Older,
            result: Ok(page(vec![log_row("page-row")], false)),
        },
    ));
    assert!(app.usage.log_pager.page_is_available(1));

    assert!(!handle_usage_pricing_msg(
        &mut app,
        &mut data,
        &mut cache,
        UsagePricingMsg::LogDetailLoaded {
            request_id: 42,
            generation: 7,
            app_state_epoch: 3,
            app_type: AppType::Claude,
            range: SEVEN,
            log_rowid: 55,
            result: Ok(Some(detail_row("detail-row", "", 55))),
        },
    ));
    assert!(app
        .usage
        .log_detail_snapshot
        .as_ref()
        .and_then(|snapshot| snapshot.row_for(&AppType::Claude, SEVEN, 55))
        .is_some());
}

#[test]
fn cancelled_usage_log_page_clears_pending_without_recording_an_error() {
    let mut app = new_app(Some(AppType::Claude));
    let mut data = UiData::empty();
    let mut cache = UiDataByAppCache {
        data_generation: 7,
        app_state_epoch: 3,
        ..UiDataByAppCache::default()
    };
    let direction = UsageLogPageDirection::Older;

    assert!(app.usage.log_pager.start_request(1, 41, direction));
    assert!(!handle_usage_pricing_msg(
        &mut app,
        &mut data,
        &mut cache,
        UsagePricingMsg::LogPageLoaded {
            request_id: 41,
            generation: 7,
            app_state_epoch: 3,
            app_type: AppType::Claude,
            range: SEVEN,
            page: 1,
            direction,
            result: Err(UsageLogLoadError::Cancelled),
        },
    ));

    assert!(!app.usage.log_pager.page_is_pending(1));
    assert!(app.usage.log_pager.page_error(1).is_none());
}

#[test]
fn failed_usage_log_page_records_its_error() {
    let mut app = new_app(Some(AppType::Claude));
    let mut data = UiData::empty();
    let mut cache = UiDataByAppCache::default();
    let direction = UsageLogPageDirection::Newer;

    assert!(app.usage.log_pager.start_request(2, 5, direction));
    let _ = handle_usage_pricing_msg(
        &mut app,
        &mut data,
        &mut cache,
        UsagePricingMsg::LogPageLoaded {
            request_id: 5,
            generation: 0,
            app_state_epoch: 0,
            app_type: AppType::Claude,
            range: SEVEN,
            page: 2,
            direction,
            result: Err(UsageLogLoadError::Failed("disk".to_string())),
        },
    );
    assert_eq!(
        app.usage.log_pager.page_error(2).map(String::as_str),
        Some("disk")
    );
}

#[test]
fn background_session_usage_sync_error_does_not_refresh_usage() {
    let mut app = new_app(Some(AppType::Claude));
    let mut data = UiData::empty();
    data.usage.summary_7d.total_cost_micro_usd = 3_000_000;
    let mut cache = UiDataByAppCache::default();
    let mut tracker = RequestTracker::default();
    let request_id = tracker.start();
    let mut worker = Outbox::new(Link::Open);

    handle_session_usage_sync_msg(
        &mut app,
        &data,
        &mut cache,
        &mut tracker,
        &mut worker,
        SessionUsageSyncMsg {
            request_id,
            result: Err("sync failed".to_string()),
        },
    );

    assert_eq!(tracker.active, None);
    assert_eq!(cache.app_state_epoch, 0);
    assert_eq!(data.usage.summary_7d.total_cost_micro_usd, 3_000_000);
    assert!(!app.usage.is_loading_for(&AppType::Claude, SEVEN));
    assert!(worker.sent.is_empty());
}

#[test]
fn usage_custom_range_action_queues_range_specific_load() {
    let mut app = new_app(Some(AppType::Claude));
    let mut data = UiData::empty();
    let mut cache = UiDataByAppCache::default();
    let mut workers = DataWorkers::new(Link::Missing, Link::Missing, Link::Open);
    let mut sessions = Outbox::new(Link::Missing);
    data.usage.recent_logs.push(log_row("stale-log"));
    data.usage.logs_total = 1;
    data.usage.recent_logs_custom.push(log_row("stale-custom-log"));
    data.usage.logs_total_custom = 1;

    let step = handle_tui_action(
        &mut app,
        &mut data,
        &mut cache,
        &mut workers,
        &mut sessions,
        Action::UsageCustomRange { range: JUNE },
    );
    assert!(matches!(step, ActionStep::Done));

    assert_eq!(app.usage.range, UsageRangePreset::Custom(JUNE));
    assert_eq!(data.usage.custom_range, Some(JUNE));
    assert!(!data.usage.trends_custom.is_empty());
    assert_eq!(data.usage.recent_logs.len(), 1);
    assert_eq!(data.usage.logs_total, 1);
    assert!(data
        .usage
        .recent_logs_for(UsageRangePreset::Custom(JUNE))
        .is_empty());
    assert_eq!(data.usage.logs_total_for(UsageRangePreset::Custom(JUNE)), 0);
    assert_eq!(
        cache
            .pending_usage_pricing_by_key
            .get(&(AppType::Claude, UsageRangePreset::Custom(JUNE)))
            .copied(),
        Some(token(1))
    );
    assert!(matches!(
        workers.usage.sent.as_slice(),
        [UsagePricingReq::Load {
            request_id: 1,
            generation: 0,
            app_state_epoch: 0,
            app_type: AppType::Claude,
            range: UsageRangePreset::Custom(JUNE),
        }]
    ));
}

#[test]
fn usage_custom_range_app_switch_does_not_show_stale_custom_cache() {
    let mut app = new_app(Some(AppType::Claude));
    let mut data = UiData::empty();
    let mut cache = UiDataByAppCache::default();

    app.usage.range = UsageRangePreset::Custom(JUNE);
    data.usage.begin_custom_range(JUNE);

    let mut stale = nothing();
    stale.usage.custom_range = Some(MAY);
    stale.usage.summary_custom.total_requests = 99;
    stale.usage.summary_custom.total_cost_micro_usd = 12_340_000;
    cache
        .usage_pricing_by_key
        .insert((AppType::Codex, UsageRangePreset::Custom(MAY)), stale);
    cache.by_app.insert(AppType::Codex, UiData::empty());

    let mut worker = Outbox::new(Link::Missing);
    cache.switch_to(&mut app, &mut data, &mut worker, AppType::Codex);

    assert_eq!(app.app_type, AppType::Codex);
    assert_eq!(data.usage.custom_range, Some(JUNE));
    assert_eq!(data.usage.summary_custom.total_requests, 0);
    assert_eq!(data.usage.summary_custom.total_cost_micro_usd, 0);
}

#[test]
fn usage_fixed_result_does_not_replace_active_custom_logs() {
    let mut app = new_app(Some(AppType::Claude));
    let mut data = UiData::empty();
    let mut cache = UiDataByAppCache::default();
    let custom = UsageRangePreset::Custom(JUNE);
    app.usage.range = custom;
    data.usage.begin_custom_range(JUNE);
    data.usage.recent_logs_custom.push(log_row("custom-log"));
    data.usage.logs_total_custom = 1;
    cache
        .pending_usage_pricing_by_key
        .insert((AppType::Claude, SEVEN), token(1));

    let mut fixed = UsageSnapshot::empty();
    fixed.summary_7d.total_requests = 10;
    fixed.recent_logs.push(log_row("fixed-log"));
    fixed.logs_total = 10;

    let _ = handle_usage_pricing_msg(
        &mut app,
        &mut data,
        &mut cache,
        loaded(
            token(1),
            AppType::Claude,
            SEVEN,
            UsagePricingData {
                usage: fixed,
                pricing: Some(ModelPricingSnapshot { rows: vec![] }),
            },
        ),
    );

    assert_eq!(data.usage.summary_7d.total_requests, 10);
    assert_eq!(data.usage.logs_total_for(custom), 1);
    assert_eq!(
        data.usage.recent_logs_for(custom)[0].request_id,
        "custom-log"
    );
    assert_eq!(data.usage.logs_total_for(SEVEN), 10);
    assert_eq!(data.usage.recent_logs_for(SEVEN)[0].request_id, "fixed-log");
}

#[test]
fn background_usage_refresh_preserves_a_later_page_browsing_snapshot() {
    let mut app = new_app(Some(AppType::Claude));
    app.route = Route::UsageLogs;
    let mut data = UiData::empty();
    data.usage.logs_total = 205;
    data.usage.recent_logs = rows("old-p0", 1_000);
    app.usage.sync_log_pager(
        &AppType::Claude,
        SEVEN,
        &data.usage.recent_logs,
        data.usage.logs_total,
    );
    let page_rows = rows("old-p1", 899);
    let next_cursor = page_rows.last().map(UsageLogCursor::from_row);
    assert!(app
        .usage
        .log_pager
        .start_request(1, 9, UsageLogPageDirection::Older));
    assert!(app.usage.log_pager.finish_request(
        1,
        9,
        UsageLogPageDirection::Older,
        UsageLogPage {
            rows: page_rows,
            next_cursor,
            has_more: true,
        },
    ));
    app.usage.log_pager.gate.select(100);

    let mut cache = UiDataByAppCache::default();
    let pending = token(10);
    cache
        .pending_usage_pricing_by_key
        .insert((AppType::Claude, SEVEN), pending);
    cache
        .usage_pricing_phase_by_key
        .insert((AppType::Claude, SEVEN), UsagePricingLoadPhase::new(pending));
    let mut refreshed = UsageSnapshot::empty();
    refreshed.logs_total = 206;
    refreshed.recent_logs = rows("new-p0", 2_000);

    let _ = handle_usage_pricing_msg(
        &mut app,
        &mut data,
        &mut cache,
        loaded(
            pending,
            AppType::Claude,
            SEVEN,
            UsagePricingData {
                usage: refreshed,
                pricing: None,
            },
        ),
    );
    let _ = handle_usage_pricing_msg(
        &mut app,
        &mut data,
        &mut cache,
        head(pending, page(rows("late-p0", 3_000), true)),
    );

    assert_eq!(data.usage.recent_logs[0].request_id, "late-p0-0");
    assert_eq!(data.usage.logs_total, 206);
    assert_eq!(app.usage.log_pager.current_page(), 1);
    assert_eq!(app.usage.log_pager.gate.selected, Some(100));
    assert_eq!(
        app.usage
            .log_pager
            .pages
            .get(&app.usage.log_pager.current_page())
            .map(|page| page.rows[0].request_id.as_str()),
        Some("old-p1-0")
    );
}

#[test]
fn obsolete_custom_usage_result_cannot_replace_the_active_range_or_pager() {
    let mut app = new_app(Some(AppType::Claude));
    app.route = Route::UsageLogs;
    app.usage.range = UsageRangePreset::Custom(JUNE);
    let mut data = UiData::empty();
    data.usage.begin_custom_range(JUNE);
    data.usage.logs_total_custom = 205;
    data.usage.recent_logs_custom = rows("active-p0", 1_000);
    let range = app.usage.range;
    app.usage.sync_log_pager(
        &AppType::Claude,
        range,
        &data.usage.recent_logs_custom,
        data.usage.logs_total_custom,
    );
    let page_rows = rows("active-p1", 899);
    let next_cursor = page_rows.last().map(UsageLogCursor::from_row);
    assert!(app
        .usage
        .log_pager
        .start_request(1, 11, UsageLogPageDirection::Older));
    assert!(app.usage.log_pager.finish_request(
        1,
        11,
        UsageLogPageDirection::Older,
        UsageLogPage {
            rows: page_rows,
            next_cursor,
            has_more: true,
        },
    ));
    app.usage.log_pager.gate.select(100);

    let mut cache = UiDataByAppCache::default();
    cache.pending_usage_pricing_by_key.insert(
        (AppType::Claude, UsageRangePreset::Custom(MAY)),
        token(12),
    );
    let mut stale = nothing();
    stale.usage.custom_range = Some(MAY);
    stale.usage.recent_logs_custom = vec![log_row("stale-row")];
    stale.usage.logs_total_custom = 1;

    let _ = handle_usage_pricing_msg(
        &mut app,
        &mut data,
        &mut cache,
        loaded(
            token(12),
            AppType::Claude,
            UsageRangePreset::Custom(MAY),
            stale,
        ),
    );

    assert_eq!(data.usage.custom_range, Some(JUNE));
    assert_eq!(data.usage.recent_logs_custom[0].request_id, "active-p0-0");
    assert_eq!(app.usage.log_pager.current_page(), 1);
    assert_eq!(app.usage.log_pager.gate.selected, Some(100));
    assert!(app.usage.log_pager.page_is_available(1));
}

#[test]
fn switching_apps_clears_usage_log_detail_context() {
    let mut app = new_app(Some(AppType::Claude));
    app.route = Route::UsageLogDetail { rowid: 66 };
    app.usage
        .remember_log_detail(AppType::Claude, SEVEN, detail_row("shared-id", "", 66));
    assert!(app
        .usage
        .log_pager
        .start_request(1, 1, UsageLogPageDirection::Older));
    let mut data = UiData::empty();

    apply_preloaded_app_switch(&mut app, &mut data, AppType::Codex, UiData::empty());

    assert_eq!(app.app_type, AppType::Codex);
    assert!(app.usage.log_detail_snapshot.is_none());
    assert_eq!(app.usage.log_pager.gate.len, 0);
    assert!(app.usage.log_pager.pages.is_empty());
    assert!(!app.usage.log_pager.page_is_pending(1));
}

#[test]
fn usage_custom_range_reload_requeues_active_custom_range() {
    let mut app = new_app(Some(AppType::Claude));
    let mut data = UiData::empty();
    let mut cache = UiDataByAppCache::default();
    let mut workers = DataWorkers::new(Link::Missing, Link::Missing, Link::Open);
    let mut sessions = Outbox::new(Link::Missing);

    app.usage.range = UsageRangePreset::Custom(JUNE);
    data.usage.custom_range = Some(JUNE);
    data.usage.summary_custom.total_requests = 42;

    let passed = match handle_tui_action(
        &mut app,
        &mut data,
        &mut cache,
        &mut workers,
        &mut sessions,
        Action::ReloadData,
    ) {
        ActionStep::PassOn(passed) => passed,
        other => panic!("a reload is carried out elsewhere: {other:?}"),
    };
    data = UiData::empty();
    data.reload_token = 1;
    finish_tui_action(
        &mut app,
        &mut data,
        &mut cache,
        &mut workers,
        &mut sessions,
        passed.candidate,
        Ok(()),
        passed.opens_sessions,
    )
    .expect("reload data should be handled");

    assert_eq!(data.usage.custom_range, Some(JUNE));
    assert_eq!(data.usage.summary_custom.total_requests, 0);
    assert!(matches!(
        workers.usage.sent.as_slice(),
        [UsagePricingReq::Load {
            request_id: 1,
            app_type: AppType::Claude,
            range: UsageRangePreset::Custom(JUNE),
            ..
        }]
    ));
}

#[test]
fn no_op_reload_candidate_preserves_pending_app_data_load() {
    let mut app = new_app(Some(AppType::Claude));
    let mut data = UiData::empty();
    let mut cache = UiDataByAppCache::default();
    let pending = PendingAppDataLoad {
        kind: AppDataLoadKind::Snapshot,
        request_id: 7,
        generation: 0,
        app_state_epoch: 0,
    };
    cache.pending_by_app.insert(AppType::Codex, pending);
    let mut workers = DataWorkers::new(Link::Missing, Link::Missing, Link::Missing);
    let mut sessions = Outbox::new(Link::Missing);

    let passed = match handle_tui_action(
        &mut app,
        &mut data,
        &mut cache,
        &mut workers,
        &mut sessions,
        Action::EditorSubmit {
            submit: EditorSubmit::ProviderAdd,
            content: "{".to_string(),
        },
    ) {
        ActionStep::PassOn(passed) => passed,
        other => panic!("a submit is carried out elsewhere: {other:?}"),
    };
    let invalidation = cc_switch_tui::app_data::effective_cache_invalidation(
        passed.candidate,
        passed.before_token,
        &data,
    );
    assert_eq!(invalidation, CacheInvalidation::Nothing);
    finish_tui_action(
        &mut app,
        &mut data,
        &mut cache,
        &mut workers,
        &mut sessions,
        invalidation,
        Ok(()),
        passed.opens_sessions,
    )
    .expect("invalid submit should be handled as a no-op");

    assert_eq!(
        cache.pending_by_app.get(&AppType::Codex).copied(),
        Some(pending)
    );
    assert_eq!(cache.data_generation, 0);
}

#[test]
fn actions_invalidate_what_they_change() {
    assert_eq!(
        cache_invalidation_for_action(&Action::Quit),
        CacheInvalidation::Nothing
    );
    assert_eq!(
        cache_invalidation_for_action(&Action::ProviderSwitch {
            id: "p".to_string()
        }),
        CacheInvalidation::CurrentAppDataChanged
    );
    assert_eq!(
        cache_invalidation_for_action(&Action::McpImport),
        CacheInvalidation::DataReloaded
    );
    assert_eq!(
        cache_invalidation_for_action(&Action::ConfigReset),
        CacheInvalidation::AppStateRecreated
    );
}

#[test]
fn a_cancelled_aggregate_stops_the_waiting() {
    let mut app = new_app(Some(AppType::Claude));
    let mut data = UiData::empty();
    let mut cache = UiDataByAppCache::default();
    let mut worker = Outbox::new(Link::Open);
    cache.queue_usage_pricing_load(&mut app, &mut worker, &AppType::Claude, SEVEN);

    let _ = handle_usage_pricing_msg(
        &mut app,
        &mut data,
        &mut cache,
        UsagePricingMsg::Loaded {
            request_id: 1,
            generation: 0,
            app_state_epoch: 0,
            app_type: AppType::Claude,
            range: SEVEN,
            result: Err(UsagePricingLoadError::Cancelled),
        },
    );
    assert!(!app.usage.is_loading_for(&AppType::Claude, SEVEN));
    assert!(cache.usage_pricing_by_key.is_empty());
}

#[test]
fn usage_is_read_only_once_it_is_looked_at() {
    let mut app = new_app(Some(AppType::Claude));
    let mut cache = UiDataByAppCache::default();
    let mut worker = Outbox::new(Link::Open);
    let mut imports = Outbox::new(Link::Open);
    let mut tracker = RequestTracker::default();
    let mut started = false;

    maybe_queue_usage_pricing_on_view(&mut app, &mut cache, &mut worker);
    maybe_queue_usage_session_sync(&app, &mut imports, &mut tracker, &mut started);
    assert!(worker.sent.is_empty() && imports.sent.is_empty());

    app.route = Route::Usage;
    maybe_queue_usage_pricing_on_view(&mut app, &mut cache, &mut worker);
    maybe_queue_usage_pricing_on_view(&mut app, &mut cache, &mut worker);
    maybe_queue_usage_session_sync(&app, &mut imports, &mut tracker, &mut started);
    maybe_queue_usage_session_sync(&app, &mut imports, &mut tracker, &mut started);
    assert_eq!(worker.sent.len(), 1);
    assert_eq!(imports.sent.len(), 1);
}

#[test]
fn pages_are_read_ahead_once() {
    let mut app = new_app(Some(AppType::Claude));
    app.route = Route::UsageLogs;
    let mut data = UiData::empty();
    data.usage.logs_total = 205;
    data.usage.recent_logs = rows("p0", 1_000);
    let mut cache = UiDataByAppCache::default();
    let mut worker = Outbox::new(Link::Open);
    for _ in 0..2 {
        maybe_queue_usage_log_prefetch(&mut app, &data, &mut cache, &mut worker, |pager| {
            pager.first_end.map(|cursor| UsageLogPrefetch {
                page: pager.current_page() + 1,
                cursor,
                direction: UsageLogPageDirection::Older,
            })
        });
    }
    assert!(matches!(
        worker.sent.as_slice(),
        [UsagePricingReq::LoadLogPage {
            page: 1,
            limit: USAGE_LOG_PAGE_SIZE,
            ..
        }]
    ));
    assert_eq!(app.usage.log_pager.gate.len, 205);
    assert_eq!(app.usage.log_pager.gate.selected, Some(0));

    app.route = Route::Main;
    app.usage.log_pager.gate.select(150);
    maybe_queue_usage_log_prefetch(&mut app, &data, &mut cache, &mut worker, |_| {
        panic!("no log is shown")
    });
    assert_eq!(app.usage.log_pager.gate.selected, Some(150));
    assert_eq!(worker.sent.len(), 1);
}

#[test]
fn pages_of_another_log_are_forgotten() {
    let mut app = new_app(Some(AppType::Claude));
    let first = rows("p0", 1_000);
    app.usage.sync_log_pager(&AppType::Claude, SEVEN, &first, 205);
    assert!(app
        .usage
        .log_pager
        .start_request(1, 9, UsageLogPageDirection::Older));
    app.usage.log_pager.gate.select(204);
    assert_eq!(app.usage.log_pager.current_page(), 2);
    app.usage.sync_log_pager(&AppType::Claude, SEVEN, &first, 150);
    assert!(app.usage.log_pager.page_is_pending(1));
    assert_eq!(app.usage.log_pager.gate.selected, Some(149));
    app.usage.sync_log_pager(&AppType::Codex, SEVEN, &first, 150);
    assert!(!app.usage.log_pager.page_is_pending(1));
    assert_eq!(app.usage.log_pager.gate.selected, Some(0));
}

#[test]
fn a_detail_is_asked_for_anew() {
    let mut app = new_app(Some(AppType::Claude));
    let mut cache = UiDataByAppCache::default();
    let mut worker = Outbox::new(Link::Open);
    queue_usage_log_detail_refresh(&mut app, &mut cache, &mut worker, 12);
    assert!(matches!(
        worker.sent.as_slice(),
        [UsagePricingReq::LoadLogDetail { log_rowid: 12, .. }]
    ));
    assert!(app.usage.log_detail_request.is_some());
}

#[test]
fn a_custom_range_has_a_figure_for_each_day() {
    let mut usage = UsageSnapshot::empty();
    usage.begin_custom_range(JUNE);
    assert_eq!(usage.custom_range, Some(JUNE));
    assert_eq!(usage.trends_custom.len(), 5);
    usage.begin_custom_range(UsageCustomRange {
        start: JUNE.end,
        end: JUNE.start,
    });
    assert!(usage.trends_custom.is_empty());
}
