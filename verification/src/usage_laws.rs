//! What usage figures, prices and the usage log are loaded for: what comes is
//! what is shown.

use vstd::prelude::*;

use crate::app::AppView;
use crate::app_type::AppType;
use crate::cache::{
    app_after_queueing, flushes, sent_after_queueing, usage_queueing, CacheView, PendingDataLoad,
};
use crate::data::UiDataView;
use crate::messages::{
    UsageLogLoadError, UsagePricingLoadError, UsagePricingMsg, UsagePricingReq,
};
use crate::outbox::Link;
use crate::report_laws::notices;
use crate::request::following;
use crate::text::{TextKey, ToastKind};
use crate::usage::{
    days_in, LogContext, PagerView, PendingLogPage, UsageCustomRange, UsageLogCursor, UsageLogPage,
    UsageLogPageDirection, UsageLogPageView, UsageLogRow, UsageLogRowView, UsagePricingData,
    UsagePricingLoadKey, UsageRangePreset, UsageUiView, UsageView,
};
use crate::usage_loads::{
    detail_asking, pager_in_line, reads_ahead, usage_received, Loaded, UsageLogPrefetch,
};

verus! {

/// The load that a range belongs to: the fixed ranges share one, each custom
/// range has its own.
pub open spec fn load_of(app_type: AppType, range: UsageRangePreset) -> UsagePricingLoadKey {
    match range {
        UsageRangePreset::Custom(custom) => (app_type, UsageRangePreset::Custom(custom)),
        _ => (app_type, UsageRangePreset::SevenDays),
    }
}

/// The figures of a load take the place of those shown: of the fixed ranges, or
/// of the custom one. Rows of the log stay where the figures know of rows that
/// they do not bring.
pub open spec fn takes_figures(
    before: UsageView,
    range: UsageRangePreset,
    came: UsageView,
    after: UsageView,
) -> bool {
    match range {
        UsageRangePreset::Custom(custom) => {
            &&& after.fixed == before.fixed
            &&& after.custom.range == Some(custom)
            &&& after.custom.summary == came.custom.summary
            &&& after.custom.trends == came.custom.trends
            &&& after.custom.logs == came.custom.logs
            &&& after.custom.logs_total == came.custom.logs_total
        },
        _ => {
            &&& after.custom == before.custom
            &&& after.fixed.today == came.fixed.today
            &&& after.fixed.seven_days == came.fixed.seven_days
            &&& after.fixed.thirty_days == came.fixed.thirty_days
            &&& after.fixed.logs_total == came.fixed.logs_total
            &&& came.fixed.logs.len() > 0 || came.fixed.logs_total == 0 ==> after.fixed.logs
                == came.fixed.logs
            &&& came.fixed.logs.len() == 0 && came.fixed.logs_total > 0 ==> after.fixed.logs
                == before.fixed.logs
        },
    }
}

/// Figures that were waited for are kept, and shown where their application is:
/// those of a custom range only while it is looked at. Prices that come with
/// them are shown in any case; where none come, those shown stay. Nothing else
/// that is shown changes, and the wait is over.
pub proof fn awaited_figures_are_shown(
    before: Loaded,
    request_id: u64,
    generation: u64,
    app_state_epoch: u64,
    app_type: AppType,
    range: UsageRangePreset,
    came: UsagePricingData,
)
    requires
        before.cache.pending_usage.contains_key(load_of(app_type, range)),
        before.cache.pending_usage[load_of(app_type, range)] == (PendingDataLoad {
            request_id,
            generation,
            app_state_epoch,
        }),
    ensures
        ({
            let key = load_of(app_type, range);
            let after = usage_received(
                before,
                UsagePricingMsg::Loaded {
                    request_id,
                    generation,
                    app_state_epoch,
                    app_type,
                    range,
                    result: Ok(came),
                },
            );
            let here = before.app.app_type == app_type;
            let looked_at = here && !(range is Custom && range != before.app.usage.range);
            &&& looked_at ==> takes_figures(
                before.data.usage,
                range,
                came@.usage,
                after.data.usage,
            )
            &&& looked_at ==> after.app.view_requests.clamp_selections
            &&& !looked_at ==> after.data.usage == before.data.usage && after.app.view_requests
                == before.app.view_requests
            &&& here ==> (came@.pricing matches Some(prices) ==> after.data.pricing == prices)
            &&& here && came@.pricing is None ==> after.data.pricing == before.data.pricing
            &&& !here ==> after.data == before.data
            &&& after.data == (UiDataView {
                usage: after.data.usage,
                pricing: after.data.pricing,
                ..before.data
            })
            &&& after.cache.usage == before.cache.usage.insert(key, came@)
            &&& after.cache.pending_usage == before.cache.pending_usage.remove(key)
            &&& after.cache.pending == before.cache.pending
            &&& after.cache.incomplete == before.cache.incomplete
            &&& after.cache.dirty == before.cache.dirty
            &&& after.cache.generation == before.cache.generation
            &&& after.cache.epoch == before.cache.epoch
            &&& here && !before.cache.pending.contains_key(app_type)
                && !before.cache.incomplete.contains_key(app_type)
                ==> after.cache.by_app.contains_key(app_type) && after.cache.by_app[app_type]
                == after.data
            &&& !here && before.cache.by_app.contains_key(app_type)
                ==> after.cache.by_app.contains_key(app_type) && takes_figures(
                before.cache.by_app[app_type].usage,
                range,
                came@.usage,
                after.cache.by_app[app_type].usage,
            )
            &&& !here && before.cache.by_app.contains_key(app_type) ==> (
            came@.pricing matches Some(prices) ==> after.cache.by_app[app_type].pricing == prices)
            &&& forall|other: AppType|
                other != app_type ==> #[trigger] after.cache.by_app.contains_key(other)
                    == before.cache.by_app.contains_key(other) && (
                before.cache.by_app.contains_key(other) ==> after.cache.by_app[other]
                    == before.cache.by_app[other])
            &&& after.app.toast == before.app.toast
            &&& after.app.usage.loading == before.app.usage.loading.remove(key)
            &&& after.app.usage.pager == before.app.usage.pager
            &&& after.app.usage.detail == before.app.usage.detail
            &&& after.app.app_type == before.app.app_type
            &&& after.app.route == before.app.route
            &&& before.cache.phases.contains_key(key) && before.cache.phases[key].token
                == (PendingDataLoad { request_id, generation, app_state_epoch }) ==> {
                &&& after.cache.phases[key].aggregate_finished
                &&& after.cache.phases[key].aggregate_succeeded
                &&& after.cache.phases[key].head_finished == before.cache.phases[key].head_finished
            }
        }),
{
}

/// Figures that could not be loaded leave everything shown as it is. The failure
/// is told where the application is on the screen; that a load was given up is
/// not.
pub proof fn figures_that_fail_change_nothing_shown(
    before: Loaded,
    request_id: u64,
    generation: u64,
    app_state_epoch: u64,
    app_type: AppType,
    range: UsageRangePreset,
    error: UsagePricingLoadError,
)
    requires
        before.cache.pending_usage.contains_key(load_of(app_type, range)),
        before.cache.pending_usage[load_of(app_type, range)] == (PendingDataLoad {
            request_id,
            generation,
            app_state_epoch,
        }),
    ensures
        ({
            let key = load_of(app_type, range);
            let after = usage_received(
                before,
                UsagePricingMsg::Loaded {
                    request_id,
                    generation,
                    app_state_epoch,
                    app_type,
                    range,
                    result: Err(error),
                },
            );
            &&& after.data == before.data
            &&& after.cache.by_app == before.cache.by_app
            &&& after.cache.usage == before.cache.usage
            &&& after.cache.pending_usage == before.cache.pending_usage.remove(key)
            &&& after.app.usage.loading == before.app.usage.loading.remove(key)
            &&& error is Cancelled || before.app.app_type != app_type ==> after.app.toast
                == before.app.toast
            &&& error matches UsagePricingLoadError::Failed(text) ==> (before.app.app_type
                == app_type ==> notices(
                after.app,
                ToastKind::Warning,
                TextKey::Verbatim,
                seq!["Usage/pricing refresh failed: "@ + text@],
            ))
            &&& before.cache.phases.contains_key(key) && before.cache.phases[key].token
                == (PendingDataLoad { request_id, generation, app_state_epoch })
                ==> !after.cache.phases[key].aggregate_succeeded
        }),
{
}

/// Figures that nothing waits for under their number change nothing at all.
pub proof fn unawaited_figures_are_ignored(
    before: Loaded,
    request_id: u64,
    generation: u64,
    app_state_epoch: u64,
    app_type: AppType,
    range: UsageRangePreset,
    result: Result<UsagePricingData, UsagePricingLoadError>,
)
    requires
        !(before.cache.pending_usage.contains_key(load_of(app_type, range))
            && before.cache.pending_usage[load_of(app_type, range)] == (PendingDataLoad {
            request_id,
            generation,
            app_state_epoch,
        })),
    ensures
        usage_received(
            before,
            (UsagePricingMsg::Loaded {
                request_id,
                generation,
                app_state_epoch,
                app_type,
                range,
                result,
            }),
        ) == before,
{
}

/// The number of rows that a head of the log shows there are: its own, and one
/// more where there are more.
pub open spec fn rows_known(page: UsageLogPageView) -> int {
    page.rows.len() + if page.has_more {
        1int
    } else {
        0
    }
}

/// The head of the log stands in the figures: its rows are the newest, and where
/// the exact number of rows is not known, what it shows of that number.
pub open spec fn takes_head(
    before: UsageView,
    range: UsageRangePreset,
    page: UsageLogPageView,
    exact: bool,
    after: UsageView,
) -> bool {
    match range {
        UsageRangePreset::Custom(_) => {
            &&& after.fixed == before.fixed
            &&& after.custom.range == before.custom.range
            &&& after.custom.summary == before.custom.summary
            &&& after.custom.trends == before.custom.trends
            &&& after.custom.logs == page.rows
            &&& exact ==> after.custom.logs_total == before.custom.logs_total
            &&& !exact && rows_known(page) <= u64::MAX ==> after.custom.logs_total == rows_known(
                page,
            )
        },
        _ => {
            &&& after.custom == before.custom
            &&& after.fixed.today == before.fixed.today
            &&& after.fixed.seven_days == before.fixed.seven_days
            &&& after.fixed.thirty_days == before.fixed.thirty_days
            &&& after.fixed.logs == page.rows
            &&& exact ==> after.fixed.logs_total == before.fixed.logs_total
            &&& !exact && rows_known(page) <= u64::MAX ==> after.fixed.logs_total == rows_known(
                page,
            )
        },
    }
}

/// The head of the log is shown and kept where it belongs to the latest load of
/// its range. An exact number of rows that figures have brought stays. A head
/// that could not be read changes nothing shown.
pub proof fn awaited_heads_are_shown(
    before: Loaded,
    request_id: u64,
    generation: u64,
    app_state_epoch: u64,
    app_type: AppType,
    range: UsageRangePreset,
    result: Result<UsageLogPage, UsageLogLoadError>,
)
    ensures
        ({
            let key = load_of(app_type, range);
            let after = usage_received(
                before,
                UsagePricingMsg::LogHeadLoaded {
                    request_id,
                    generation,
                    app_state_epoch,
                    app_type,
                    range,
                    result,
                },
            );
            let awaited = before.cache.phases.contains_key(key) && before.cache.phases[key].token
                == (PendingDataLoad { request_id, generation, app_state_epoch });
            let exact = before.cache.phases[key].aggregate_finished
                && before.cache.phases[key].aggregate_succeeded;
            let looked_at = before.app.app_type == app_type && !(range is Custom && range
                != before.app.usage.range);
            &&& !awaited ==> after == before
            &&& awaited ==> after.cache.phases[key].head_finished
            &&& awaited && result is Err ==> {
                &&& after.data == before.data && after.app == before.app
                &&& after.cache.by_app == before.cache.by_app
                &&& after.cache.usage == before.cache.usage
            }
            &&& awaited ==> (result matches Ok(page) ==> {
                &&& looked_at ==> takes_head(
                    before.data.usage,
                    range,
                    page@,
                    exact,
                    after.data.usage,
                )
                &&& looked_at ==> after.app.view_requests.clamp_selections
                &&& !looked_at ==> after.data.usage == before.data.usage && after.app == before.app
                &&& after.data == (UiDataView { usage: after.data.usage, ..before.data })
                &&& before.cache.usage.contains_key(key) ==> after.cache.usage.contains_key(key)
                    && takes_head(
                    before.cache.usage[key].usage,
                    range,
                    page@,
                    exact,
                    after.cache.usage[key].usage,
                ) && after.cache.usage[key].pricing == before.cache.usage[key].pricing
                &&& before.cache.by_app.contains_key(app_type) ==> after.cache.by_app.contains_key(
                    app_type,
                ) && takes_head(
                    before.cache.by_app[app_type].usage,
                    range,
                    page@,
                    exact,
                    after.cache.by_app[app_type].usage,
                )
                &&& after.cache.pending_usage == before.cache.pending_usage
            })
            &&& after.app.toast == before.app.toast
        }),
{
}

/// A page of the log that was asked for is there to be browsed, or its error is,
/// as long as its log is looked at and the data have not been loaded anew since.
/// The wait for it is over in any case.
pub proof fn log_pages_asked_for_are_kept(
    before: Loaded,
    request_id: u64,
    generation: u64,
    app_state_epoch: u64,
    app_type: AppType,
    range: UsageRangePreset,
    page: usize,
    direction: UsageLogPageDirection,
    result: Result<UsageLogPage, UsageLogLoadError>,
)
    ensures
        ({
            let after = usage_received(
                before,
                UsagePricingMsg::LogPageLoaded {
                    request_id,
                    generation,
                    app_state_epoch,
                    app_type,
                    range,
                    page,
                    direction,
                    result,
                },
            );
            let p = before.app.usage.pager;
            let q = after.app.usage.pager;
            let looked_at = before.app.app_type == app_type && before.app.usage.range == range;
            let awaited = p.pending.contains_key(page) && p.pending[page] == (PendingLogPage {
                request_id,
                direction,
            });
            let present = generation == before.cache.generation && app_state_epoch
                == before.cache.epoch;
            &&& after.data == before.data && after.cache == before.cache
            &&& after.app == (AppView {
                usage: UsageUiView { pager: q, ..before.app.usage },
                ..before.app
            })
            &&& !looked_at || !awaited ==> q == p
            &&& q.context == p.context && q.gate == p.gate && q.first_end == p.first_end
            &&& looked_at && awaited ==> q.pending == p.pending.remove(page)
            &&& looked_at && awaited && !present ==> q.pages == p.pages && q.errors == p.errors
            &&& looked_at && awaited && present ==> match result {
                Ok(loaded) => q.pages == p.pages.insert(page, loaded@) && q.errors
                    == p.errors.remove(page),
                Err(UsageLogLoadError::Cancelled) => q.pages == p.pages && q.errors == p.errors,
                Err(UsageLogLoadError::Failed(error)) => q.pages == p.pages && q.errors
                    == p.errors.insert(page, error@),
            }
        }),
{
}

/// The row that is looked at in full is replaced by what was asked for, if that
/// is the row. In every other case the former details stay, and the user is told
/// why, unless the load was given up.
pub proof fn details_asked_for_are_shown(
    before: Loaded,
    request_id: u64,
    generation: u64,
    app_state_epoch: u64,
    app_type: AppType,
    range: UsageRangePreset,
    log_rowid: i64,
    result: Result<Option<UsageLogRow>, UsageLogLoadError>,
)
    ensures
        ({
            let after = usage_received(
                before,
                UsagePricingMsg::LogDetailLoaded {
                    request_id,
                    generation,
                    app_state_epoch,
                    app_type,
                    range,
                    log_rowid,
                    result,
                },
            );
            let awaited = before.app.app_type == app_type && before.app.usage.range == range
                && before.app.usage.detail_request == Some(request_id);
            let present = generation == before.cache.generation && app_state_epoch
                == before.cache.epoch;
            let u = after.app.usage;
            &&& after.data == before.data && after.cache == before.cache
            &&& !awaited ==> after == before
            &&& awaited ==> u.detail_request is None
            &&& awaited && !present ==> u.detail == before.app.usage.detail && after.app.toast
                == before.app.toast
            &&& awaited && present ==> match result {
                Ok(Some(row)) => if row.cursor_rowid == log_rowid {
                    &&& u.detail is Some
                    &&& u.detail->0.row == row@
                    &&& u.detail->0.app_type == app_type
                    &&& u.detail->0.range == range
                    &&& after.app.toast == before.app.toast
                } else {
                    &&& u.detail == before.app.usage.detail
                    &&& notices(
                        after.app,
                        ToastKind::Warning,
                        TextKey::Verbatim,
                        seq!["Usage log refresh returned a mismatched request."@],
                    )
                },
                Ok(None) => u.detail == before.app.usage.detail && notices(
                    after.app,
                    ToastKind::Warning,
                    TextKey::Verbatim,
                    seq!["The usage log no longer exists; keeping the previous details."@],
                ),
                Err(UsageLogLoadError::Cancelled) => u.detail == before.app.usage.detail
                    && after.app.toast == before.app.toast,
                Err(UsageLogLoadError::Failed(error)) => u.detail == before.app.usage.detail
                    && notices(
                    after.app,
                    ToastKind::Warning,
                    TextKey::Verbatim,
                    seq!["Usage log refresh failed: "@ + error@],
                ),
            }
            &&& u.pager == before.app.usage.pager && u.loading == before.app.usage.loading
        }),
{
}

// Asking.

/// A load that is asked for is asked for once, for its application and range,
/// under the next number, and waited for. For that of a custom range all earlier
/// ones of custom ranges of the application are given up. Where no worker takes
/// it, nothing is waited for that was not before.
pub proof fn loads_are_asked_for_once(
    cache: CacheView,
    app: AppView,
    sent: Seq<UsagePricingReq>,
    link: Link,
    app_type: AppType,
    range: UsageRangePreset,
)
    ensures
        ({
            let key = load_of(app_type, range);
            let queueing = usage_queueing(cache, app.usage, link, app_type, range);
            let after = app_after_queueing(app, queueing);
            let sent_after = sent_after_queueing(sent, queueing);
            let id = following(cache.last_usage_request);
            let token = PendingDataLoad {
                request_id: id,
                generation: cache.generation,
                app_state_epoch: cache.epoch,
            };
            let waited = cache.pending_usage.contains_key(key) && !(range is Custom);
            &&& waited ==> sent_after == sent && queueing.cache.pending_usage.contains_key(key)
                && queueing.cache.pending_usage[key] == cache.pending_usage[key]
            &&& waited || link == Link::Open ==> after.usage.loading.contains_key(key)
                && after.toast == app.toast
            &&& !waited && link == Link::Open ==> {
                &&& sent_after == sent.push(
                    UsagePricingReq::Load {
                        request_id: id,
                        generation: cache.generation,
                        app_state_epoch: cache.epoch,
                        app_type,
                        range: key.1,
                    },
                )
                &&& queueing.cache.pending_usage.contains_key(key)
                &&& queueing.cache.pending_usage[key] == token
                &&& queueing.cache.phases[key].token == token
                &&& !queueing.cache.phases[key].aggregate_finished
                &&& !queueing.cache.phases[key].aggregate_succeeded
                &&& queueing.cache.last_usage_request == id
            }
            &&& !waited && link != Link::Open ==> {
                &&& sent_after == sent
                &&& !queueing.cache.pending_usage.contains_key(key)
            }
            &&& !waited && link == Link::Closed ==> notices(
                after,
                ToastKind::Warning,
                TextKey::Verbatim,
                seq!["Usage/pricing refresh request failed: "@ + "sending on a closed channel"@],
            )
            &&& !waited && link == Link::Missing && !(range is Custom) ==> after.toast == app.toast
            &&& !waited && link == Link::Missing && range is Custom ==> notices(
                after,
                ToastKind::Warning,
                TextKey::Verbatim,
                seq!["Usage/pricing worker is not running; custom range cannot be loaded."@],
            )
            &&& forall|other: UsagePricingLoadKey|
                other != key && !(range is Custom && other.0 == app_type && other.1 is Custom)
                    ==> #[trigger] queueing.cache.pending_usage.contains_key(other)
                    == cache.pending_usage.contains_key(other)
            &&& forall|other: UsagePricingLoadKey|
                other != key && range is Custom && other.0 == app_type && other.1 is Custom
                    ==> !(#[trigger] queueing.cache.pending_usage.contains_key(other))
            &&& forall|other: UsagePricingLoadKey|
                other.0 != app_type || !(other.1 is Custom) || !(range is Custom)
                    ==> #[trigger] queueing.cache.usage.contains_key(other)
                    == cache.usage.contains_key(other)
            &&& queueing.cache.by_app == cache.by_app
            &&& queueing.cache.generation == cache.generation
            &&& queueing.cache.epoch == cache.epoch
            &&& after == (AppView { usage: after.usage, toast: after.toast, ..app })
            &&& after.usage.pager == app.usage.pager
            &&& after.usage.range == app.usage.range
        }),
{
}

/// Figures are asked for again where they have become outdated, those looked at
/// first, one load at a time: while one is under way nothing is sent.
pub proof fn outdated_figures_are_asked_for_in_turn(
    cache: CacheView,
    app: AppView,
    sent: Seq<UsagePricingReq>,
    link: Link,
    after: (CacheView, AppView, Seq<UsagePricingReq>),
    started: bool,
)
    requires
        flushes((cache, app, sent), link, after, started),
    ensures
        (exists|key: UsagePricingLoadKey| #[trigger] cache.pending_usage.contains_key(key))
            ==> after.2 == sent && !started && after.0 == cache,
        (forall|key: UsagePricingLoadKey| !(#[trigger] cache.dirty.contains_key(key))) ==> after.2
            == sent && !started,
        after.2.len() <= sent.len() + 1,
        started && link == Link::Open ==> after.2.len() == sent.len() + 1 && after.2.drop_last()
            == sent,
        started && link == Link::Open ==> (after.2.last() matches UsagePricingReq::Load {
            app_type,
            range,
            ..
        } && cache.dirty.contains_key((app_type, range)) && !after.0.dirty.contains_key(
            (app_type, range),
        ) && (cache.dirty.contains_key(load_of(app.app_type, app.usage.range)) ==> (app_type, range)
            == load_of(app.app_type, app.usage.range))),
        link != Link::Open ==> after.2 == sent && !started,
{
    if cache.pending_usage == Map::<UsagePricingLoadKey, PendingDataLoad>::empty() {
        if exists|key: UsagePricingLoadKey| #[trigger] cache.pending_usage.contains_key(key) {
            let key = choose|key: UsagePricingLoadKey| #[trigger]
                cache.pending_usage.contains_key(key);
            assert(!Map::<UsagePricingLoadKey, PendingDataLoad>::empty().contains_key(key));
        }
    }
    if forall|key: UsagePricingLoadKey| !(#[trigger] cache.dirty.contains_key(key)) {
        assert(cache.dirty =~= Map::<UsagePricingLoadKey, ()>::empty());
    }
}

// The log is browsed.

/// The place in the log is kept as long as the same log is looked at, and within
/// its rows; another log is looked at from its first row on, with none of its
/// pages read. Where the first page ends is where the next one is read from.
pub proof fn the_place_in_a_log_is_kept(
    pager: PagerView,
    context: LogContext,
    first_page: Seq<UsageLogRowView>,
    total: u64,
)
    requires
        total <= usize::MAX,
    ensures
        ({
            let q = pager.synced(context, first_page, total);
            let same = pager.context == Some(context);
            &&& q.context == Some(context)
            &&& q.gate.len == total
            &&& same ==> q.pages == pager.pages && q.pending == pager.pending && q.errors
                == pager.errors
            &&& !same ==> q.pages == Map::<usize, UsageLogPageView>::empty() && q.pending
                == Map::<usize, PendingLogPage>::empty() && q.errors == Map::<
                usize,
                Seq<char>,
            >::empty()
            &&& total == 0 ==> q.gate.selected is None
            &&& total > 0 && !(same && pager.gate.selected is Some) ==> q.gate.selected == Some(
                0usize,
            )
            &&& total > 0 && same ==> (pager.gate.selected matches Some(at) ==> q.gate.selected
                == Some(
                if at < total {
                    at
                } else {
                    (total - 1) as usize
                },
            ))
            &&& first_page.len() == 0 ==> q.first_end is None
            &&& first_page.len() > 0 ==> q.first_end == Some(
                UsageLogCursor {
                    created_at: first_page[first_page.len() - 1].created_at,
                    rowid: first_page[first_page.len() - 1].cursor_rowid,
                },
            )
            &&& q.gate.selected matches Some(at) ==> q.shown_page() * 100 <= at < (q.shown_page()
                + 1) * 100
        }),
{
}

/// What the log is brought in line with is the log that is looked at: that of
/// the application and the range, with its own rows and its own number of them.
pub proof fn the_log_looked_at_is_browsed(app: AppView, usage: UsageView)
    ensures
        app.usage.range is Custom ==> pager_in_line(app, usage) == app.usage.pager.synced(
            LogContext { app_type: app.app_type, range: app.usage.range },
            usage.custom.logs,
            usage.custom.logs_total,
        ),
        !(app.usage.range is Custom) ==> pager_in_line(app, usage) == app.usage.pager.synced(
            LogContext { app_type: app.app_type, range: app.usage.range },
            usage.fixed.logs,
            usage.fixed.logs_total,
        ),
{
}

/// A page is read ahead once: it is asked for where it is not waited for, from
/// the cursor given, a hundred rows of the log looked at. Where no worker takes
/// the request, the page has an error.
pub proof fn pages_are_asked_for_once(
    before: (AppView, CacheView, Seq<UsagePricingReq>),
    pager: PagerView,
    link: Link,
    load: UsageLogPrefetch,
    after: (AppView, CacheView, Seq<UsagePricingReq>),
)
    requires
        reads_ahead(before, pager, link, Some(load), after),
    ensures
        ({
            let waited = pager.pending.contains_key(load.page);
            let q = after.0.usage.pager;
            let id = following(before.1.last_usage_request);
            &&& waited ==> after.2 == before.2 && q == pager
            &&& !waited && link == Link::Open ==> {
                &&& after.2 == before.2.push(
                    UsagePricingReq::LoadLogPage {
                        request_id: id,
                        generation: before.1.generation,
                        app_state_epoch: before.1.epoch,
                        app_type: before.0.app_type,
                        range: before.0.usage.range,
                        page: load.page,
                        cursor: load.cursor,
                        direction: load.direction,
                        limit: 100,
                    },
                )
                &&& q.pending == pager.pending.insert(
                    load.page,
                    PendingLogPage { request_id: id, direction: load.direction },
                )
                &&& !q.errors.contains_key(load.page)
            }
            &&& !waited && link != Link::Open ==> {
                &&& after.2 == before.2
                &&& !q.pending.contains_key(load.page)
                &&& q.errors.contains_key(load.page)
            }
            &&& !waited && link == Link::Missing ==> q.errors[load.page]
                == "usage log worker is not running"@
            &&& !waited && link == Link::Closed ==> q.errors[load.page]
                == "failed to queue usage log page: "@ + "sending on a closed channel"@
            &&& q.pages == pager.pages && q.gate == pager.gate
            &&& after.0 == (AppView {
                usage: UsageUiView { pager: q, ..before.0.usage },
                ..before.0
            })
        }),
{
}

/// Where no page is wanted, none is asked for.
pub proof fn no_page_is_asked_for_unasked(
    before: (AppView, CacheView, Seq<UsagePricingReq>),
    pager: PagerView,
    link: Link,
    after: (AppView, CacheView, Seq<UsagePricingReq>),
)
    requires
        reads_ahead(before, pager, link, None, after),
    ensures
        after.2 == before.2,
        after.1 == before.1,
        after.0.usage.pager == pager,
        after.0 == (AppView { usage: UsageUiView { pager, ..before.0.usage }, ..before.0 }),
{
}

/// A row is asked for in full under a number of its own, for the log looked at.
/// Where no worker takes the request, none is waited for, and the user is told.
pub proof fn details_are_asked_for(app: AppView, cache: CacheView, link: Link, log_rowid: i64)
    ensures
        ({
            let asking = detail_asking(app, cache, link, log_rowid);
            let after = app_after_queueing(app, asking);
            let sent = sent_after_queueing(Seq::empty(), asking);
            let id = following(cache.last_usage_request);
            &&& link == Link::Open ==> {
                &&& sent == seq![
                    UsagePricingReq::LoadLogDetail {
                        request_id: id,
                        generation: cache.generation,
                        app_state_epoch: cache.epoch,
                        app_type: app.app_type,
                        range: app.usage.range,
                        log_rowid,
                    },
                ]
                &&& after.usage.detail_request == Some(id)
                &&& after.toast == app.toast
            }
            &&& link != Link::Open ==> sent.len() == 0 && after.usage.detail_request is None
            &&& link == Link::Missing ==> notices(
                after,
                ToastKind::Warning,
                TextKey::Verbatim,
                seq!["Usage log worker is not running; keeping the previous details."@],
            )
            &&& link == Link::Closed ==> notices(
                after,
                ToastKind::Warning,
                TextKey::Verbatim,
                seq!["Failed to queue usage log refresh: "@ + "sending on a closed channel"@],
            )
            &&& after.usage.detail == app.usage.detail
            &&& after.usage.pager == app.usage.pager
            &&& asking.cache == (CacheView { last_usage_request: id, ..cache })
        }),
{
    let asking = detail_asking(app, cache, link, log_rowid);
    if let Some(request) = asking.request {
        assert(Seq::<UsagePricingReq>::empty().push(request) =~= seq![request]);
    }
}

// Figures of a custom range.

/// A custom range is looked at with figures of its own: none yet where another
/// range was, with one empty figure for each day from the first to the last.
pub proof fn custom_ranges_begin_empty(usage: UsageView, range: UsageCustomRange)
    ensures
        ({
            let after = usage.aligned(UsageRangePreset::Custom(range));
            &&& after.fixed == usage.fixed
            &&& after.custom.range == Some(range)
            &&& usage.custom.range == Some(range) ==> after == usage
            &&& usage.custom.range != Some(range) ==> {
                &&& after.custom.logs.len() == 0
                &&& after.custom.logs_total == 0
                &&& after.custom.summary.total_requests == 0
                &&& after.custom.summary.total_cost_micro_usd == 0
                &&& range.start > range.end ==> after.custom.trends.len() == 0
                &&& range.start <= range.end ==> (after.custom.trends.len() - 1) * 86400
                    <= range.end - range.start < after.custom.trends.len() * 86400
                &&& forall|i: int|
                    0 <= i < after.custom.trends.len() ==> (
                    #[trigger] after.custom.trends[i]).total_requests == 0
            }
        }),
        usage.aligned(UsageRangePreset::SevenDays) == usage,
        usage.aligned(UsageRangePreset::ThirtyDays) == usage,
        usage.aligned(UsageRangePreset::Today) == usage,
{
    if range.start <= range.end {
        let span = range.end - range.start;
        assert(days_in(range) == span / 86400 + 1);
        assert((span / 86400) * 86400 <= span < (span / 86400 + 1) * 86400) by (nonlinear_arith);
    }
}

/// What is kept of an application is completed with the figures and prices that
/// were loaded for it: those of the fixed ranges, and those of the custom range
/// looked at. Nothing else of it changes.
pub proof fn kept_data_is_completed(
    cache: CacheView,
    app_type: AppType,
    data: UiDataView,
    active: UsageRangePreset,
)
    ensures
        ({
            let after = cache.completed(app_type, data, active);
            let fixed = (app_type, UsageRangePreset::SevenDays);
            &&& after == (UiDataView { usage: after.usage, pricing: after.pricing, ..data })
            &&& cache.usage.contains_key(fixed) ==> {
                &&& after.usage.fixed.today == cache.usage[fixed].usage.fixed.today
                &&& after.usage.fixed.seven_days == cache.usage[fixed].usage.fixed.seven_days
                &&& after.usage.fixed.thirty_days == cache.usage[fixed].usage.fixed.thirty_days
                &&& after.usage.fixed.logs_total == cache.usage[fixed].usage.fixed.logs_total
            }
            &&& !cache.usage.contains_key(fixed) ==> after.usage.fixed == data.usage.fixed
            &&& !(active is Custom) && cache.usage.contains_key(fixed) ==> (
            cache.usage[fixed].pricing matches Some(prices) ==> after.pricing == prices)
            &&& !(active is Custom) ==> after.usage.custom == data.usage.custom
            &&& active matches UsageRangePreset::Custom(range) ==> after.usage.custom.range == Some(
                range,
            )
            &&& active is Custom && cache.usage.contains_key((app_type, active)) ==> {
                &&& after.usage.custom.summary == cache.usage[(
                    app_type,
                    active,
                )].usage.custom.summary
                &&& after.usage.custom.logs == cache.usage[(app_type, active)].usage.custom.logs
                &&& after.usage.custom.logs_total == cache.usage[(
                    app_type,
                    active,
                )].usage.custom.logs_total
                &&& cache.usage[(app_type, active)].pricing matches Some(prices) ==> after.pricing
                    == prices
            }
            &&& (!cache.usage.contains_key(fixed) && !cache.usage.contains_key((app_type, active)))
                ==> after.pricing == data.pricing
        }),
{
}

} // verus!
