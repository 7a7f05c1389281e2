//! What the usage screens ask for, and what is made of the answers.

use vstd::prelude::*;

use crate::app::{App, AppView};
use crate::app_type::AppType;
use crate::base::Duplicate;
use crate::cache::{
    app_after_queueing, flushes, sent_after_queueing, usage_queueing, CacheView, PendingDataLoad,
    UiDataByAppCache, UsageQueueing,
};
use crate::data::{UiData, UiDataView};
use crate::messages::{
    UsageLogLoadError, UsagePricingLoadError, UsagePricingMsg, UsagePricingReq,
};
use crate::outbox::{Link, Outbox, CHANNEL_CLOSED};
use crate::request::{following, next_number, RequestTracker};
use crate::route::Route;
use crate::text::{joined, Text, TextView, ToastKind};
use crate::usage::{
    load_key, matches_active, usage_pricing_range_matches_active, LogContext, PagerView,
    UsageLogCursor, UsageLogDetailView, UsageLogPage, UsageLogPageDirection, UsageLogPageView,
    UsageLogPager, UsageLogRow, UsageLogRowView, UsagePricingData, UsagePricingView,
    UsageRangePreset, UsageUiView, UsageView, USAGE_LOG_PAGE_SIZE,
};

verus! {

/// The interface, the data shown, and what is kept.
pub struct Loaded {
    pub app: AppView,
    pub data: UiDataView,
    pub cache: CacheView,
}

/// The answer of a usage log worker, as its views show it.
pub open spec fn log_result<T: View>(result: Result<T, UsageLogLoadError>) -> Result<
    T::V,
    Option<Seq<char>>,
> {
    match result {
        Ok(value) => Ok(value@),
        Err(UsageLogLoadError::Cancelled) => Err(None),
        Err(UsageLogLoadError::Failed(error)) => Err(Some(error@)),
    }
}

/// The head of the log has come. It is kept and shown if it belongs to the
/// latest load of its range. A head that could not be read is no matter: the
/// aggregate reports what can be acted on.
pub open spec fn log_head_received(
    before: Loaded,
    app_type: AppType,
    range: UsageRangePreset,
    token: PendingDataLoad,
    result: Result<UsageLogPageView, Option<Seq<char>>>,
) -> Loaded {
    let key = load_key(app_type, range);
    if !before.cache.awaits_head(app_type, range, token) {
        before
    } else {
        let phase = before.cache.phases[key];
        let exact = phase.aggregate_finished && phase.aggregate_succeeded;
        let cache = before.cache.head_done(app_type, range);
        match result {
            Err(_) => Loaded { cache, ..before },
            Ok(page) => {
                let kept = cache.with_log_head(app_type, range, page, exact);
                if before.app.app_type == app_type && matches_active(range, before.app.usage.range) {
                    Loaded {
                        app: AppView {
                            view_requests: before.app.view_requests.clamping(),
                            ..before.app
                        },
                        data: UiDataView {
                            usage: before.data.usage.with_log_head(range, page, exact),
                            ..before.data
                        },
                        cache: kept,
                    }
                } else {
                    Loaded { cache: kept, ..before }
                }
            },
        }
    }
}

/// The aggregate of a load that was waited for has come.
///
/// Figures are kept in any case. They are shown where their application is,
/// those of a custom range only while it is looked at; prices always are. The
/// pages of the log that are being browsed stay as they are.
pub open spec fn aggregate_received(
    before: Loaded,
    app_type: AppType,
    range: UsageRangePreset,
    token: PendingDataLoad,
    result: Result<UsagePricingView, Option<Seq<char>>>,
) -> Loaded {
    let cache = before.cache.aggregate_done(app_type, range, token, result is Ok);
    let app = AppView { usage: before.app.usage.loaded(app_type, range), ..before.app };
    match result {
        Ok(loaded) => {
            let kept = cache.with_figures(app_type, range, loaded);
            if app.app_type == app_type {
                let visible = matches_active(range, app.usage.range);
                let data = UiDataView {
                    usage: if visible {
                        before.data.usage.merged(range, loaded.usage)
                    } else {
                        before.data.usage
                    },
                    pricing: match loaded.pricing {
                        Some(pricing) => pricing,
                        None => before.data.pricing,
                    },
                    ..before.data
                };
                Loaded {
                    app: if visible {
                        AppView { view_requests: app.view_requests.clamping(), ..app }
                    } else {
                        app
                    },
                    data,
                    cache: kept.remembering(app_type, data),
                }
            } else {
                Loaded { app, data: before.data, cache: kept }
            }
        },
        Err(None) => Loaded { app, data: before.data, cache },
        Err(Some(error)) => Loaded {
            app: if app.app_type == app_type {
                app.told(
                    ToastKind::Warning,
                    TextView::verbatim("Usage/pricing refresh failed: "@ + error),
                )
            } else {
                app
            },
            data: before.data,
            cache,
        },
    }
}

/// Whether an answer was asked for under the present generation and epoch.
pub open spec fn is_present(cache: CacheView, generation: u64, epoch: u64) -> bool {
    generation == cache.generation && epoch == cache.epoch
}

/// A page of the log has come. It counts only while its application and range
/// are looked at; one from an earlier generation only ends the wait for it.
pub open spec fn log_page_received(
    app: AppView,
    cache: CacheView,
    token: PendingDataLoad,
    app_type: AppType,
    range: UsageRangePreset,
    page: usize,
    direction: UsageLogPageDirection,
    result: Result<UsageLogPageView, Option<Seq<char>>>,
) -> AppView {
    if app.app_type != app_type || app.usage.range != range {
        app
    } else {
        let pager = app.usage.pager;
        let id = token.request_id;
        let after = if !is_present(cache, token.generation, token.app_state_epoch) {
            pager.cancelled(page, id, direction)
        } else {
            match result {
                Ok(loaded) => pager.finished(page, id, direction, loaded),
                Err(None) => pager.cancelled(page, id, direction),
                Err(Some(error)) => pager.failed(page, id, direction, error),
            }
        };
        AppView { usage: UsageUiView { pager: after, ..app.usage }, ..app }
    }
}

/// A row of the log that is looked at in full has come. Only the answer that
/// is waited for counts; a row that is gone or is not the one asked for leaves
/// the former details in place.
pub open spec fn log_detail_received(
    app: AppView,
    cache: CacheView,
    token: PendingDataLoad,
    app_type: AppType,
    range: UsageRangePreset,
    log_rowid: i64,
    result: Result<Option<UsageLogRowView>, Option<Seq<char>>>,
) -> AppView {
    if app.app_type != app_type || app.usage.range != range || app.usage.detail_request != Some(
        token.request_id,
    ) {
        app
    } else {
        let app = AppView { usage: UsageUiView { detail_request: None, ..app.usage }, ..app };
        if !is_present(cache, token.generation, token.app_state_epoch) {
            app
        } else {
            match result {
                Ok(Some(row)) => if row.cursor_rowid == log_rowid {
                    AppView {
                        usage: UsageUiView {
                            detail: Some(UsageLogDetailView { app_type, range, row }),
                            ..app.usage
                        },
                        ..app
                    }
                } else {
                    app.told(
                        ToastKind::Warning,
                        TextView::verbatim("Usage log refresh returned a mismatched request."@),
                    )
                },
                Ok(None) => app.told(
                    ToastKind::Warning,
                    TextView::verbatim(
                        "The usage log no longer exists; keeping the previous details."@,
                    ),
                ),
                Err(None) => app,
                Err(Some(error)) => app.told(
                    ToastKind::Warning,
                    TextView::verbatim("Usage log refresh failed: "@ + error),
                ),
            }
        }
    }
}

/// What is made of an answer.
pub open spec fn usage_received(before: Loaded, msg: UsagePricingMsg) -> Loaded {
    match msg {
        UsagePricingMsg::LogHeadLoaded {
            request_id,
            generation,
            app_state_epoch,
            app_type,
            range,
            result,
        } => log_head_received(
            before,
            app_type,
            range,
            PendingDataLoad { request_id, generation, app_state_epoch },
            log_result(result),
        ),
        UsagePricingMsg::Loaded {
            request_id,
            generation,
            app_state_epoch,
            app_type,
            range,
            result,
        } => {
            let token = PendingDataLoad { request_id, generation, app_state_epoch };
            if before.cache.awaits_figures(app_type, range, token) {
                aggregate_received(before, app_type, range, token, aggregate_result(result))
            } else {
                before
            }
        },
        UsagePricingMsg::LogPageLoaded {
            request_id,
            generation,
            app_state_epoch,
            app_type,
            range,
            page,
            direction,
            result,
        } => Loaded {
            app: log_page_received(
                before.app,
                before.cache,
                PendingDataLoad { request_id, generation, app_state_epoch },
                app_type,
                range,
                page,
                direction,
                log_result(result),
            ),
            ..before
        },
        UsagePricingMsg::LogDetailLoaded {
            request_id,
            generation,
            app_state_epoch,
            app_type,
            range,
            log_rowid,
            result,
        } => Loaded {
            app: log_detail_received(
                before.app,
                before.cache,
                PendingDataLoad { request_id, generation, app_state_epoch },
                app_type,
                range,
                log_rowid,
                detail_result(result),
            ),
            ..before
        },
    }
}

/// Whether an answer ends an aggregate that was waited for.
pub open spec fn ends_aggregate(cache: CacheView, msg: UsagePricingMsg) -> bool {
    msg matches UsagePricingMsg::Loaded {
        request_id,
        generation,
        app_state_epoch,
        app_type,
        range,
        ..
    } && cache.awaits_figures(
        app_type,
        range,
        PendingDataLoad { request_id, generation, app_state_epoch },
    )
}

fn take_log_head(
    app: &mut App,
    data: &mut UiData,
    cache: &mut UiDataByAppCache,
    token: PendingDataLoad,
    app_type: AppType,
    range: UsageRangePreset,
    result: Result<UsageLogPage, UsageLogLoadError>,
)
    ensures
        (Loaded { app: final(app)@, data: final(data)@, cache: final(cache)@ })
            == log_head_received(
            Loaded { app: old(app)@, data: old(data)@, cache: old(cache)@ },
            app_type,
            range,
            token,
            log_result(result),
        ),
{
    let preserve_exact_total = match cache.finish_usage_log_head(
        &app_type,
        token.request_id,
        token.generation,
        token.app_state_epoch,
        range,
    ) {
        Some(exact) => exact,
        None => {
            return ;
        },
    };
    let page = match result {
        Ok(page) => page,
        Err(_) => {
            return ;
        },
    };
    cache.update_usage_log_head(&app_type, range, page.duplicate(), preserve_exact_total);
    if app.app_type == app_type && usage_pricing_range_matches_active(range, app.usage.range) {
        if preserve_exact_total {
            data.usage.merge_log_head_preserving_exact_total(range, page);
        } else {
            data.usage.merge_log_head(range, page);
        }
        app.clamp_selections();
    }
}

/// The answer of an aggregate worker, as its views show it.
pub open spec fn aggregate_result(
    result: Result<UsagePricingData, UsagePricingLoadError>,
) -> Result<UsagePricingView, Option<Seq<char>>> {
    match result {
        Ok(loaded) => Ok(loaded@),
        Err(UsagePricingLoadError::Cancelled) => Err(None),
        Err(UsagePricingLoadError::Failed(error)) => Err(Some(error@)),
    }
}

fn take_aggregate(
    app: &mut App,
    data: &mut UiData,
    cache: &mut UiDataByAppCache,
    token: PendingDataLoad,
    app_type: AppType,
    range: UsageRangePreset,
    result: Result<UsagePricingData, UsagePricingLoadError>,
) -> (ended: bool)
    ensures
        ended == old(cache)@.awaits_figures(app_type, range, token),
        (Loaded { app: final(app)@, data: final(data)@, cache: final(cache)@ }) == (if ended {
            aggregate_received(
                Loaded { app: old(app)@, data: old(data)@, cache: old(cache)@ },
                app_type,
                range,
                token,
                aggregate_result(result),
            )
        } else {
            Loaded { app: old(app)@, data: old(data)@, cache: old(cache)@ }
        }),
{
    if !cache.finish_usage_pricing_load(
        &app_type,
        token.request_id,
        token.generation,
        token.app_state_epoch,
        range,
        result.is_ok(),
    ) {
        return false;
    }
    app.usage.finish_loading(&app_type, range);
    match result {
        Ok(usage_pricing) => {
            cache.update_usage_pricing(&app_type, range, usage_pricing.duplicate());
            if app.app_type == app_type {
                if usage_pricing_range_matches_active(range, app.usage.range) {
                    data.usage.merge_range(range, usage_pricing.usage);
                    app.clamp_selections();
                }
                if let Some(pricing) = usage_pricing.pricing {
                    data.pricing = pricing;
                }
                cache.remember_current(&app.app_type, data);
            }
        },
        Err(UsagePricingLoadError::Cancelled) => {},
        Err(UsagePricingLoadError::Failed(error)) => {
            if app.app_type == app_type {
                let message = joined("Usage/pricing refresh failed: ", error.as_str());
                app.push_toast(Text::verbatim(message.as_str()), ToastKind::Warning);
            }
        },
    }
    true
}

fn take_log_page(
    app: &mut App,
    cache: &UiDataByAppCache,
    token: PendingDataLoad,
    app_type: AppType,
    range: UsageRangePreset,
    page: usize,
    direction: UsageLogPageDirection,
    result: Result<UsageLogPage, UsageLogLoadError>,
)
    ensures
        final(app)@ == log_page_received(
            old(app)@,
            cache@,
            token,
            app_type,
            range,
            page,
            direction,
            log_result(result),
        ),
{
    if app.app_type != app_type || app.usage.range != range {
        return ;
    }
    let request_id = token.request_id;
    if token.generation != cache.data_generation || token.app_state_epoch
        != cache.app_state_epoch {
        app.usage.log_pager.cancel_request(page, request_id, direction);
        return ;
    }
    match result {
        Ok(loaded) => {
            let _ = app.usage.log_pager.finish_request(page, request_id, direction, loaded);
        },
        Err(UsageLogLoadError::Cancelled) => {
            app.usage.log_pager.cancel_request(page, request_id, direction);
        },
        Err(UsageLogLoadError::Failed(error)) => {
            app.usage.log_pager.fail_request(page, request_id, direction, error);
        },
    }
}

/// The answer of a usage log worker to a request for a row, as its views show
/// it.
pub open spec fn detail_result(result: Result<Option<UsageLogRow>, UsageLogLoadError>) -> Result<
    Option<UsageLogRowView>,
    Option<Seq<char>>,
> {
    match result {
        Ok(Some(row)) => Ok(Some(row@)),
        Ok(None) => Ok(None),
        Err(UsageLogLoadError::Cancelled) => Err(None),
        Err(UsageLogLoadError::Failed(error)) => Err(Some(error@)),
    }
}

fn take_log_detail(
    app: &mut App,
    cache: &UiDataByAppCache,
    token: PendingDataLoad,
    app_type: AppType,
    range: UsageRangePreset,
    log_rowid: i64,
    result: Result<Option<UsageLogRow>, UsageLogLoadError>,
)
    ensures
        final(app)@ == log_detail_received(
            old(app)@,
            cache@,
            token,
            app_type,
            range,
            log_rowid,
            detail_result(result),
        ),
{
    if app.app_type != app_type || app.usage.range != range {
        return ;
    }
    if !app.usage.finish_log_detail_refresh(token.request_id) {
        return ;
    }
    if token.generation != cache.data_generation || token.app_state_epoch
        != cache.app_state_epoch {
        return ;
    }
    match result {
        Ok(Some(row)) => {
            if row.cursor_rowid == log_rowid {
                app.usage.remember_log_detail(app_type, range, row);
            } else {
                app.push_toast(
                    Text::verbatim("Usage log refresh returned a mismatched request."),
                    ToastKind::Warning,
                );
            }
        },
        Ok(None) => {
            app.push_toast(
                Text::verbatim("The usage log no longer exists; keeping the previous details."),
                ToastKind::Warning,
            );
        },
        Err(UsageLogLoadError::Cancelled) => {},
        Err(UsageLogLoadError::Failed(error)) => {
            let message = joined("Usage log refresh failed: ", error.as_str());
            app.push_toast(Text::verbatim(message.as_str()), ToastKind::Warning);
        },
    }
}

/// Takes an answer in. The result tells whether an aggregate has ended, so
/// that a dirty one may be started.
pub fn handle_usage_pricing_msg(
    app: &mut App,
    data: &mut UiData,
    cache: &mut UiDataByAppCache,
    msg: UsagePricingMsg,
) -> (ended: bool)
    ensures
        ended == ends_aggregate(old(cache)@, msg),
        (Loaded { app: final(app)@, data: final(data)@, cache: final(cache)@ }) == usage_received(
            Loaded { app: old(app)@, data: old(data)@, cache: old(cache)@ },
            msg,
        ),
{
    match msg {
        UsagePricingMsg::LogHeadLoaded {
            request_id,
            generation,
            app_state_epoch,
            app_type,
            range,
            result,
        } => {
            let token = PendingDataLoad { request_id, generation, app_state_epoch };
            take_log_head(app, data, cache, token, app_type, range, result);
            false
        },
        UsagePricingMsg::Loaded {
            request_id,
            generation,
            app_state_epoch,
            app_type,
            range,
            result,
        } => {
            let token = PendingDataLoad { request_id, generation, app_state_epoch };
            take_aggregate(app, data, cache, token, app_type, range, result)
        },
        UsagePricingMsg::LogPageLoaded {
            request_id,
            generation,
            app_state_epoch,
            app_type,
            range,
            page,
            direction,
            result,
        } => {
            let token = PendingDataLoad { request_id, generation, app_state_epoch };
            take_log_page(app, cache, token, app_type, range, page, direction, result);
            false
        },
        UsagePricingMsg::LogDetailLoaded {
            request_id,
            generation,
            app_state_epoch,
            app_type,
            range,
            log_rowid,
            result,
        } => {
            let token = PendingDataLoad { request_id, generation, app_state_epoch };
            take_log_detail(app, cache, token, app_type, range, log_rowid, result);
            false
        },
    }
}

/// A request to the worker that imports usage from session logs.
#[derive(Debug, Clone, Copy, PartialEq, Eq, Structural)]
pub struct SessionUsageSyncReq {
    pub request_id: u64,
}

/// An import has ended.
#[derive(Debug)]
pub struct SessionUsageSyncMsg {
    pub request_id: u64,
    pub result: Result<(), String>,
}

/// Asks for an import of session logs, unless one is under way.
pub fn queue_background_session_usage_sync(
    worker: &mut Outbox<SessionUsageSyncReq>,
    tracker: &mut RequestTracker,
)
    ensures
        final(worker).link == old(worker).link,
        ({
            let asks = old(worker).link != Link::Missing && old(tracker).active is None;
            let taken = asks && old(worker).link == Link::Open;
            &&& *final(tracker) == (if taken {
                old(tracker).started()
            } else if asks {
                old(tracker).started().idle()
            } else {
                *old(tracker)
            })
            &&& final(worker).sent@ == (if taken {
                old(worker).sent@.push(
                    SessionUsageSyncReq { request_id: following(old(tracker).seq) },
                )
            } else {
                old(worker).sent@
            })
        }),
{
    if worker.is_missing() {
        return ;
    }
    if tracker.active.is_some() {
        return ;
    }
    let request_id = tracker.start();
    if !worker.send(SessionUsageSyncReq { request_id }) {
        tracker.cancel();
    }
}

/// Whether a screen shows usage figures.
pub open spec fn shows_usage(route: Route) -> bool {
    route is Usage || route is UsageLogs || route is UsageLogDetail
}

pub fn is_usage_route(route: &Route) -> (result: bool)
    ensures
        result == shows_usage(*route),
{
    match route {
        Route::Usage | Route::UsageLogs | Route::UsageLogDetail { .. } => true,
        _ => false,
    }
}

/// Asks for an import of session logs the first time usage figures are shown.
/// It reads all the logs there are and serves nothing else, so it is not done
/// at startup.
pub fn maybe_queue_usage_session_sync(
    app: &App,
    worker: &mut Outbox<SessionUsageSyncReq>,
    tracker: &mut RequestTracker,
    started: &mut bool,
)
    ensures
        final(worker).link == old(worker).link,
        *final(started) == (*old(started) || shows_usage(app.route)),
        ({
            let first = !*old(started) && shows_usage(app.route);
            let asks = first && old(worker).link != Link::Missing && old(tracker).active is None;
            let taken = asks && old(worker).link == Link::Open;
            &&& *final(tracker) == (if taken {
                old(tracker).started()
            } else if asks {
                old(tracker).started().idle()
            } else {
                *old(tracker)
            })
            &&& final(worker).sent@ == (if taken {
                old(worker).sent@.push(
                    SessionUsageSyncReq { request_id: following(old(tracker).seq) },
                )
            } else {
                old(worker).sent@
            })
        }),
{
    if *started {
        return ;
    }
    if !is_usage_route(&app.route) {
        return ;
    }
    *started = true;
    queue_background_session_usage_sync(worker, tracker);
}

/// The range whose figures a screen needs. Prices come with the fixed ranges
/// only.
pub open spec fn range_needed(route: Route, range: UsageRangePreset) -> UsageRangePreset {
    if route is Pricing && range.spec_is_custom() {
        UsageRangePreset::SevenDays
    } else {
        range
    }
}

/// What the figures that a screen needs are asked for with.
pub open spec fn figures_needed(
    before: (AppView, CacheView, Seq<UsagePricingReq>),
    link: Link,
    after: (AppView, CacheView, Seq<UsagePricingReq>),
) -> bool {
    let (app, cache, sent) = before;
    let range = range_needed(app.route, app.usage.range);
    let queueing = usage_queueing(cache, app.usage, link, app.app_type, range);
    if !(shows_usage(app.route) || app.route is Pricing) || cache.pending_usage.contains_key(
        load_key(app.app_type, range),
    ) || cache.covers(app.app_type, range) {
        after == before
    } else {
        after == (
            app_after_queueing(app, queueing),
            queueing.cache,
            sent_after_queueing(sent, queueing),
        )
    }
}

/// Asks for the figures that the screen needs, unless they are there or under
/// way.
pub fn maybe_queue_usage_pricing_on_view(
    app: &mut App,
    cache: &mut UiDataByAppCache,
    worker: &mut Outbox<UsagePricingReq>,
)
    ensures
        final(worker).link == old(worker).link,
        figures_needed(
            (old(app)@, old(cache)@, old(worker).sent@),
            old(worker).link,
            (final(app)@, final(cache)@, final(worker).sent@),
        ),
{
    let is_usage = is_usage_route(&app.route);
    let is_pricing = match app.route {
        Route::Pricing => true,
        _ => false,
    };
    if !is_usage && !is_pricing {
        return ;
    }
    let app_type = app.app_type;
    let range = if is_pricing && app.usage.range.is_custom() {
        UsageRangePreset::SevenDays
    } else {
        app.usage.range
    };
    cache.ensure_usage_pricing_loaded(app, worker, &app_type, range);
}

/// The page of the log that is best read ahead, and from where.
#[derive(Debug, Clone, Copy, PartialEq, Eq, Structural)]
pub struct UsageLogPrefetch {
    pub page: usize,
    pub cursor: UsageLogCursor,
    pub direction: UsageLogPageDirection,
}

/// The first page of the log that is shown, and the number of its rows.
pub open spec fn pager_in_line(app: AppView, usage: UsageView) -> PagerView {
    let range = app.usage.range;
    app.usage.pager.synced(
        LogContext { app_type: app.app_type, range },
        if range.spec_is_custom() {
            usage.custom.logs
        } else {
            usage.fixed.logs
        },
        if range.spec_is_custom() {
            usage.custom.logs_total
        } else {
            usage.fixed.logs_total
        },
    )
}

/// The pager once a page was asked for, unless it already is.
pub open spec fn pager_asking(
    pager: PagerView,
    load: UsageLogPrefetch,
    id: u64,
    link: Link,
) -> PagerView {
    let requested = pager.requested(load.page, id, load.direction);
    if pager.pending.contains_key(load.page) {
        pager
    } else {
        match link {
            Link::Missing => requested.failed(
                load.page,
                id,
                load.direction,
                "usage log worker is not running"@,
            ),
            Link::Closed => requested.failed(
                load.page,
                id,
                load.direction,
                "failed to queue usage log page: "@ + CHANNEL_CLOSED@,
            ),
            Link::Open => requested,
        }
    }
}

/// What reading ahead leads to, once a page was chosen.
pub open spec fn reads_ahead(
    before: (AppView, CacheView, Seq<UsagePricingReq>),
    pager: PagerView,
    link: Link,
    wanted: Option<UsageLogPrefetch>,
    after: (AppView, CacheView, Seq<UsagePricingReq>),
) -> bool {
    let (app, cache, sent) = before;
    let id = following(cache.last_usage_request);
    match wanted {
        None => after == (
            AppView { usage: UsageUiView { pager, ..app.usage }, ..app },
            cache,
            sent,
        ),
        Some(load) => after == (
            AppView {
                usage: UsageUiView { pager: pager_asking(pager, load, id, link), ..app.usage },
                ..app
            },
            CacheView { last_usage_request: id, ..cache },
            if link == Link::Open && !pager.pending.contains_key(load.page) {
                sent.push(
                    UsagePricingReq::LoadLogPage {
                        request_id: id,
                        generation: cache.generation,
                        app_state_epoch: cache.epoch,
                        app_type: app.app_type,
                        range: app.usage.range,
                        page: load.page,
                        cursor: load.cursor,
                        direction: load.direction,
                        limit: USAGE_LOG_PAGE_SIZE,
                    },
                )
            } else {
                sent
            },
        ),
    }
}

/// Asks for the page of the log that is best read ahead, while the log is
/// shown: the pager is brought in line with the log, and `pick` chooses the page
/// from it. A page that is already asked for is not asked for again.
pub fn maybe_queue_usage_log_prefetch<
    C: FnOnce(&UsageLogPager) -> Option<UsageLogPrefetch>,
>(
    app: &mut App,
    data: &UiData,
    cache: &mut UiDataByAppCache,
    worker: &mut Outbox<UsagePricingReq>,
    pick: C,
)
    requires
        old(app).route is UsageLogs ==> forall|pager: UsageLogPager|
            pager@ == pager_in_line(old(app)@, data@.usage) ==> #[trigger] pick.requires(
                (&pager,),
            ),
    ensures
        final(worker).link == old(worker).link,
        if old(app).route is UsageLogs {
            exists|pager: UsageLogPager, wanted: Option<UsageLogPrefetch>|
                {
                    &&& pager@ == pager_in_line(old(app)@, data@.usage)
                    &&& #[trigger] pick.ensures((&pager,), wanted)
                    &&& reads_ahead(
                        (old(app)@, old(cache)@, old(worker).sent@),
                        pager@,
                        old(worker).link,
                        wanted,
                        (final(app)@, final(cache)@, final(worker).sent@),
                    )
                }
        } else {
            &&& final(app)@ == old(app)@
            &&& final(cache)@ == old(cache)@
            &&& final(worker).sent@ == old(worker).sent@
        },
{
    match app.route {
        Route::UsageLogs => {},
        _ => {
            return ;
        },
    }
    let app_type = app.app_type;
    let range = app.usage.range;
    app.usage.sync_log_pager(
        &app_type,
        range,
        data.usage.recent_logs_for(range),
        data.usage.logs_total_for(range),
    );
    let ghost pager = app.usage.log_pager;
    assert(pager@ == pager_in_line(old(app)@, data@.usage));
    let wanted = pick(&app.usage.log_pager);
    let load = match wanted {
        Some(load) => load,
        None => {
            return ;
        },
    };
    cache.next_usage_pricing_request_id = next_number(cache.next_usage_pricing_request_id);
    let request_id = cache.next_usage_pricing_request_id;
    if !app.usage.log_pager.start_request(load.page, request_id, load.direction) {
        return ;
    }
    if worker.is_missing() {
        app.usage.log_pager.fail_request(
            load.page,
            request_id,
            load.direction,
            "usage log worker is not running".to_owned(),
        );
        return ;
    }
    if !worker.send(
        UsagePricingReq::LoadLogPage {
            request_id,
            generation: cache.data_generation,
            app_state_epoch: cache.app_state_epoch,
            app_type,
            range,
            page: load.page,
            cursor: load.cursor,
            direction: load.direction,
            limit: USAGE_LOG_PAGE_SIZE,
        },
    ) {
        app.usage.log_pager.fail_request(
            load.page,
            request_id,
            load.direction,
            joined("failed to queue usage log page: ", CHANNEL_CLOSED),
        );
    }
}

/// What asking for the row that is looked at in full leads to.
pub open spec fn detail_asking(
    app: AppView,
    cache: CacheView,
    link: Link,
    log_rowid: i64,
) -> UsageQueueing {
    let id = following(cache.last_usage_request);
    UsageQueueing {
        cache: CacheView { last_usage_request: id, ..cache },
        ui: UsageUiView {
            detail_request: if link == Link::Open {
                Some(id)
            } else {
                None
            },
            ..app.usage
        },
        notice: match link {
            Link::Missing => Some(
                TextView::verbatim(
                    "Usage log worker is not running; keeping the previous details."@,
                ),
            ),
            Link::Closed => Some(
                TextView::verbatim("Failed to queue usage log refresh: "@ + CHANNEL_CLOSED@),
            ),
            Link::Open => None,
        },
        request: if link == Link::Open {
            Some(
                UsagePricingReq::LoadLogDetail {
                    request_id: id,
                    generation: cache.generation,
                    app_state_epoch: cache.epoch,
                    app_type: app.app_type,
                    range: app.usage.range,
                    log_rowid,
                },
            )
        } else {
            None
        },
    }
}

/// Asks for the row that is looked at in full to be read again. Where that
/// cannot be, a notice says so and the details stay.
pub fn queue_usage_log_detail_refresh(
    app: &mut App,
    cache: &mut UiDataByAppCache,
    worker: &mut Outbox<UsagePricingReq>,
    log_rowid: i64,
)
    ensures
        final(worker).link == old(worker).link,
        ({
            let asking = detail_asking(old(app)@, old(cache)@, old(worker).link, log_rowid);
            &&& final(cache)@ == asking.cache
            &&& final(app)@ == app_after_queueing(old(app)@, asking)
            &&& final(worker).sent@ == sent_after_queueing(old(worker).sent@, asking)
        }),
{
    cache.next_usage_pricing_request_id = next_number(cache.next_usage_pricing_request_id);
    let request_id = cache.next_usage_pricing_request_id;
    app.usage.start_log_detail_refresh(request_id);
    if worker.is_missing() {
        let _ = app.usage.finish_log_detail_refresh(request_id);
        app.push_toast(
            Text::verbatim("Usage log worker is not running; keeping the previous details."),
            ToastKind::Warning,
        );
        return ;
    }
    if !worker.send(
        UsagePricingReq::LoadLogDetail {
            request_id,
            generation: cache.data_generation,
            app_state_epoch: cache.app_state_epoch,
            app_type: app.app_type,
            range: app.usage.range,
            log_rowid,
        },
    ) {
        let _ = app.usage.finish_log_detail_refresh(request_id);
        let message = joined("Failed to queue usage log refresh: ", CHANNEL_CLOSED);
        app.push_toast(Text::verbatim(message.as_str()), ToastKind::Warning);
    }
}

/// Finished aggregates do not count any more, and those of the range looked at
/// and of the fixed ranges are dirty.
pub open spec fn outdated(
    cache: CacheView,
    app_type: AppType,
    active: UsageRangePreset,
) -> CacheView {
    let dirty = cache.dirty.insert(load_key(app_type, active), ());
    CacheView {
        usage: Map::empty(),
        dirty: if active == UsageRangePreset::SevenDays {
            dirty
        } else {
            dirty.insert(load_key(app_type, UsageRangePreset::SevenDays), ())
        },
        ..cache
    }
}

/// What the end of an import leads to.
pub open spec fn sync_over(
    before: (AppView, CacheView, Seq<UsagePricingReq>),
    tracker: RequestTracker,
    link: Link,
    data: UiDataView,
    msg: SessionUsageSyncMsg,
    after: (AppView, CacheView, Seq<UsagePricingReq>),
    tracker_after: RequestTracker,
) -> bool {
    let (app, cache, sent) = before;
    &&& tracker_after == (if tracker.active == Some(msg.request_id) {
        tracker.idle()
    } else {
        tracker
    })
    &&& if tracker.active != Some(msg.request_id) || msg.result is Err || link == Link::Missing {
        after == before
    } else {
        exists|flushed: CacheView, started: bool|
            {
                &&& #[trigger] flushes(
                    (outdated(cache, app.app_type, app.usage.range), app, sent),
                    link,
                    (flushed, after.0, after.2),
                    started,
                )
                &&& after.1 == flushed.remembering(app.app_type, data)
            }
    }
}

/// An import of session logs has ended. After a successful one the figures
/// looked at are computed anew, once the aggregate under way has ended; what
/// is shown stays meanwhile.
pub fn handle_session_usage_sync_msg(
    app: &mut App,
    data: &UiData,
    cache: &mut UiDataByAppCache,
    tracker: &mut RequestTracker,
    worker: &mut Outbox<UsagePricingReq>,
    msg: SessionUsageSyncMsg,
)
    ensures
        final(worker).link == old(worker).link,
        sync_over(
            (old(app)@, old(cache)@, old(worker).sent@),
            *old(tracker),
            old(worker).link,
            data@,
            msg,
            (final(app)@, final(cache)@, final(worker).sent@),
            *final(tracker),
        ),
{
    if !tracker.finish_if_active(msg.request_id) {
        return ;
    }
    if msg.result.is_err() {
        return ;
    }
    if worker.is_missing() {
        return ;
    }
    cache.invalidate_usage_pricing_cache_after_external_usage_sync();
    let current_app_type = app.app_type;
    let active_range = app.usage.range;
    cache.mark_usage_pricing_dirty(&current_app_type, active_range);
    if active_range != UsageRangePreset::SevenDays {
        cache.mark_usage_pricing_dirty(&current_app_type, UsageRangePreset::SevenDays);
    }
    assert(cache@ == outdated(old(cache)@, current_app_type, active_range));
    let started = cache.flush_dirty_usage_pricing(app, worker);
    let ghost flushed = cache@;
    assert(app.app_type == current_app_type);
    cache.remember_current(&current_app_type, data);
    let ghost before = (old(app)@, old(cache)@, old(worker).sent@);
    let ghost after = (app@, cache@, worker.sent@);
    assert(flushes(
        (outdated(before.1, before.0.app_type, before.0.usage.range), before.0, before.2),
        worker.link,
        (flushed, after.0, after.2),
        started,
    ));
    assert(after.1 == flushed.remembering(before.0.app_type, data@));
    assert(sync_over(before, *old(tracker), worker.link, data@, msg, after, *tracker));
}

/// An answer from an earlier generation or epoch never changes what is shown
/// or kept, beyond ending the wait for it.
pub proof fn stale_answers_change_nothing_shown(
    before: Loaded,
    msg: UsagePricingMsg,
    generation: u64,
    app_state_epoch: u64,
)
    requires
        !is_present(before.cache, generation, app_state_epoch),
        match msg {
            UsagePricingMsg::LogPageLoaded { generation: g, app_state_epoch: e, .. } => g
                == generation && e == app_state_epoch,
            UsagePricingMsg::LogDetailLoaded { generation: g, app_state_epoch: e, .. } => g
                == generation && e == app_state_epoch,
            _ => false,
        },
    ensures
        usage_received(before, msg).data == before.data,
        usage_received(before, msg).cache == before.cache,
        usage_received(before, msg).app.usage.pager.pages == before.app.usage.pager.pages,
        usage_received(before, msg).app.usage.pager.errors == before.app.usage.pager.errors,
        usage_received(before, msg).app.usage.detail == before.app.usage.detail,
        usage_received(before, msg).app.toast == before.app.toast,
{
}

/// Figures of a custom range that is not looked at never replace those shown,
/// and a background refresh never disturbs the pages being browsed.
pub proof fn browsing_is_not_disturbed(before: Loaded, msg: UsagePricingMsg)
    requires
        msg is Loaded || msg is LogHeadLoaded,
    ensures
        usage_received(before, msg).app.usage.pager == before.app.usage.pager,
        usage_received(before, msg).app.usage.range == before.app.usage.range,
        msg matches UsagePricingMsg::Loaded { range, .. } && !matches_active(
            range,
            before.app.usage.range,
        ) ==> usage_received(before, msg).data.usage == before.data.usage,
        msg matches UsagePricingMsg::LogHeadLoaded { range, .. } && !matches_active(
            range,
            before.app.usage.range,
        ) ==> usage_received(before, msg).data.usage == before.data.usage,
{
}

/// An answer for another application than the one shown is only kept.
pub proof fn other_apps_answers_are_only_kept(before: Loaded, msg: UsagePricingMsg)
    requires
        match msg {
            UsagePricingMsg::LogHeadLoaded { app_type, .. } => app_type != before.app.app_type,
            UsagePricingMsg::Loaded { app_type, .. } => app_type != before.app.app_type,
            UsagePricingMsg::LogPageLoaded { app_type, .. } => app_type != before.app.app_type,
            UsagePricingMsg::LogDetailLoaded { app_type, .. } => app_type != before.app.app_type,
        },
    ensures
        usage_received(before, msg).data == before.data,
        usage_received(before, msg).app.toast == before.app.toast,
        usage_received(before, msg).app.usage.pager == before.app.usage.pager,
{
}

} // verus!
