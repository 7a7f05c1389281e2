//! What single steps behind the screens are for: what is refused, what is looked
//! at, what is waited for.

use vstd::prelude::*;

use crate::app::{AppView, OverlayView, ProxyVisualTransition};
use crate::app_data::{release_failure, release_outcome, ReleaseWait, StateHolder};
use crate::app_type::{AppNamesView, AppType};
use crate::base::views;
use crate::cache::CacheView;
use crate::data::UiDataView;
use crate::managed_auth::{refuse_managed_auth_req, ManagedAuthMsg, ManagedAuthReq};
use crate::messages::UsagePricingReq;
use crate::outbox::Link;
use crate::proxy::{refuse_proxy_req, ProxyMsg, ProxyOpenFlash, ProxyReq};
use crate::queues::latest_of;
use crate::report_laws::line_says;
use crate::request::RequestTracker;
use crate::session_jobs::{LocateSearch, LocateStep, PreviewSchedule, ReaderLabel};
use crate::session_rows::SessionIdentity;
use crate::sessions::{absolute, Pagination, SessionPageSource, SessionsView};
use crate::skills::{refuse_skills_req, SkillsMsg, SkillsReq};
use crate::startup::{shell, VisibleAppsStartup};
use crate::text::{TextKey, ToastKind};
use crate::update::{UpdateMsg, UpdateReq, UpdateWorker};
use crate::usage::{
    usage_pricing_cache_satisfies, usage_pricing_load_key, usage_pricing_range_matches_active,
    UsagePricingLoadKey, UsageRangePreset,
};
use crate::usage_loads::{figures_needed, sync_over, SessionUsageSyncMsg};

verus! {

// Workers that cannot work.

/// A request on the proxy that cannot be carried out is answered as failed, with
/// what it was asked with.
pub proof fn refused_proxy_requests_fail(req: ProxyReq, error: String, msg: ProxyMsg)
    requires
        call_ensures(refuse_proxy_req, (req, error), msg),
    ensures
        req matches ProxyReq::SetManagedSessionForCurrentApp { request_id, app_type, enabled }
            ==> msg == (ProxyMsg::ManagedSessionFinished {
            request_id,
            app_type,
            enabled,
            result: Err(error),
        }),
        req matches ProxyReq::RefreshSnapshot { request_id, app_type } ==> msg == (
        ProxyMsg::SnapshotRefreshed { request_id, app_type, result: Err(error) }),
{
}

/// A request on accounts that cannot be carried out is answered as failed, with
/// what it was asked with.
pub proof fn refused_account_requests_fail(req: ManagedAuthReq, error: String, msg: ManagedAuthMsg)
    requires
        call_ensures(refuse_managed_auth_req, (req, error), msg),
    ensures
        req matches ManagedAuthReq::Refresh { auth_provider } ==> msg == (ManagedAuthMsg::Status {
            auth_provider,
            result: Err(error),
        }),
        req matches ManagedAuthReq::StartLogin { auth_provider } ==> msg == (
        ManagedAuthMsg::LoginStarted { auth_provider, result: Err(error) }),
        req matches ManagedAuthReq::PollLogin { auth_provider, device_code } ==> msg == (
        ManagedAuthMsg::LoginPolled { auth_provider, device_code, result: Err(error) }),
        req matches ManagedAuthReq::SetDefault { auth_provider, account_id } ==> msg == (
        ManagedAuthMsg::DefaultSet { auth_provider, account_id, result: Err(error) }),
        req matches ManagedAuthReq::Remove { auth_provider, account_id } ==> msg == (
        ManagedAuthMsg::Removed { auth_provider, account_id, result: Err(error) }),
{
}

/// A request on skills that cannot be carried out is answered as failed, with
/// what it was asked with.
pub proof fn refused_skill_requests_fail(req: SkillsReq, error: String, msg: SkillsMsg)
    requires
        call_ensures(refuse_skills_req, (req, error), msg),
    ensures
        req matches SkillsReq::Discover { request_id, query, source, .. } ==> msg == (
        SkillsMsg::DiscoverFinished { request_id, query, source, result: Err(error) }),
        req matches SkillsReq::Install { spec, .. } ==> msg == (SkillsMsg::InstallFinished {
            spec,
            result: Err(error),
        }),
{
}

/// The version found last is fetched; where none was found, the user is told to
/// look first. What cannot be done is answered as failed.
pub proof fn the_version_found_is_fetched(
    worker: UpdateWorker,
    tag: Result<String, UpdateMsg>,
    req: UpdateReq,
    error: String,
    msg: UpdateMsg,
)
    requires
        call_ensures(UpdateWorker::on_download, (&worker,), tag),
        call_ensures(UpdateWorker::refuse, (req, error), msg),
    ensures
        worker.last_tag matches Some(last) ==> tag is Ok && tag->Ok_0@ == last@,
        worker.last_tag is None ==> {
            &&& tag matches Err(UpdateMsg::DownloadFinished(Err(message)))
            &&& line_says(message@, TextKey::UpdateCheckFirst, seq![])
        },
        req matches UpdateReq::Check { request_id } ==> msg == (UpdateMsg::CheckFinished {
            request_id,
            result: Err(error),
        }),
        req is Download ==> {
            &&& msg matches UpdateMsg::DownloadFinished(Err(message))
            &&& line_says(message@, TextKey::Verbatim, seq![error@])
        },
{
}

/// Of several requests the one that came last is carried out.
pub proof fn the_latest_is_carried_out<T>(first: T, queued: Vec<T>, latest: T)
    requires
        call_ensures(latest_of, (first, queued), latest),
    ensures
        queued@.len() == 0 ==> latest == first,
        queued@.len() > 0 ==> latest == queued@[queued@.len() - 1],
{
}

/// A worker that does not let go of the state is an error that names it.
pub proof fn late_workers_are_errors(
    waits: Vec<(StateHolder, ReleaseWait)>,
    result: Result<(), String>,
)
    requires
        call_ensures(release_outcome, (&waits,), result),
        waits@.len() == 1,
    ensures
        result is Err == waits@[0].1 is TimedOut,
        waits@[0].1 is TimedOut && waits@[0].0 is AppData ==> result->Err_0@
            == "timed out waiting for "@ + "app data"@
            + " worker to release cached app state"@,
        waits@[0].1 is TimedOut && waits@[0].0 is UsagePricing ==> result->Err_0@
            == "timed out waiting for "@ + "usage/pricing"@
            + " worker to release cached app state"@,
{
    reveal_with_fuel(release_failure, 3);
    assert(waits@.drop_first().len() == 0);
}

// Sessions.

/// A session that is looked at anew shows nothing of the one before, and calls
/// off what is read of that; the one looked at already stays as it is.
pub proof fn sessions_are_looked_at(s: SessionsView, key: Seq<char>)
    ensures
        s.detail_key == Some(key) ==> s.detailed(key) == s,
        s.detail_key != Some(key) ==> {
            let t = s.detailed(key);
            &&& t.detail_key == Some(key)
            &&& t.messages.len() == 0
            &&& !t.messages_loaded
            &&& !t.messages_loading
            &&& t.message_active is None
            &&& t.message_selected == 0
            &&& t.message_cancel_pending == (s.message_cancel_pending || s.message_active is Some)
            &&& t == (SessionsView {
                detail_key: t.detail_key,
                messages: t.messages,
                messages_loaded: t.messages_loaded,
                messages_loading: t.messages_loading,
                message_active: t.message_active,
                message_selected: t.message_selected,
                message_cancel_pending: t.message_cancel_pending,
                ..s
            })
        },
{
}

/// What was said in a session is waited for under a new number.
pub proof fn sessions_are_read(s: SessionsView, key: Seq<char>)
    ensures
        ({
            let t = s.reading(key);
            &&& s.message_seq < u64::MAX ==> t.message_seq == s.message_seq + 1
            &&& t.message_active == Some(t.message_seq)
            &&& t.messages_loading
            &&& t.detail_key == Some(key)
            &&& t == (SessionsView {
                message_seq: t.message_seq,
                message_active: t.message_active,
                messages_loading: true,
                detail_key: Some(key),
                ..s
            })
        }),
{
}

/// A list that has another length keeps its selected row, or the last one where
/// there are fewer; a row that is chosen is selected, or the last one.
pub proof fn lists_keep_their_selection(list: Pagination, len: usize, index: usize)
    ensures
        list.resized(len).len == len,
        list.resized(len).row_focused == list.row_focused,
        list.selected is None || len == 0 ==> list.resized(len).selected is None,
        len > 0 ==> (list.selected matches Some(at) ==> list.resized(len).selected == Some(
            if at < len {
                at
            } else {
                (len - 1) as usize
            },
        )),
        list.showing(len, index).len == len,
        len == 0 ==> list.showing(len, index).selected is None,
        len > 0 ==> list.showing(len, index).selected == Some(
            if index < len {
                index
            } else {
                (len - 1) as usize
            },
        ),
{
}

/// A row of a page lies a hundred rows further for each page before it.
pub proof fn rows_are_counted_through_the_pages(page: usize, local: usize)
    requires
        page * 100 + local <= usize::MAX,
    ensures
        absolute(page, local) == page * 100 + local,
{
}

/// A session is looked for only in the manifest that it is asked for in: first on
/// the page where it was.
pub proof fn searches_for_a_place_begin(
    source: SessionPageSource,
    scope: String,
    generation: String,
    fallback_absolute: usize,
    anchor: Option<SessionIdentity>,
    label: ReaderLabel,
    step: LocateStep,
)
    requires
        call_ensures(
            LocateSearch::start,
            (source, &scope, &generation, fallback_absolute, anchor, &label),
            step,
        ),
    ensures
        ({
            let fits = label.scope@ == scope@ && label.generation@ == generation@;
            &&& step is Read == fits
            &&& step matches LocateStep::Read(search, page) ==> {
                &&& search.read == 0
                &&& search.anchor == anchor
                &&& fallback_absolute < label.total_rows ==> page == fallback_absolute / 100
                &&& 0 < label.total_rows <= fallback_absolute ==> page == (label.total_rows - 1)
                    / 100
                &&& label.total_rows == 0 ==> page == 0
                &&& anchor is None ==> search.candidates@.len() == 1
            }
            &&& !fits && source is Base ==> step->Failed_0@ == "session "@ + "base"@
                + " reader does not match its token"@
            &&& !fits && source is Query ==> step->Failed_0@ == "session "@ + "query"@
                + " reader does not match its token"@
        }),
{
}

/// Rows are shown while they are found, where they are needed: the first at once,
/// then when sixteen were found, and then each time there are four times as many.
pub proof fn rows_are_shown_while_found(
    before: PreviewSchedule,
    after: PreviewSchedule,
    show: bool,
)
    requires
        before.counted(after, show),
        before.seen < usize::MAX,
        before.next_preview_at < 1_000_000_000,
    ensures
        !before.needed ==> !show && after == before,
        before.needed ==> {
            &&& after.seen == before.seen + 1
            &&& show == (after.seen >= before.next_preview_at)
            &&& show ==> after.last_preview == after.seen
            &&& show && before.next_preview_at == 1 ==> after.next_preview_at == 16
            &&& show && before.next_preview_at > 1 ==> after.next_preview_at == 4
                * before.next_preview_at
            &&& !show ==> after.last_preview == before.last_preview && after.next_preview_at
                == before.next_preview_at
        },
{
}

// The light of the proxy.

/// The light flashes once for each time that the proxy opens.
pub proof fn openings_flash(
    before: ProxyOpenFlash,
    transition: Option<ProxyVisualTransition>,
    after: ProxyOpenFlash,
    begins: bool,
)
    requires
        before.flashed(transition, after, begins),
    ensures
        begins <==> (transition is Some && transition->0.to_on && before.started_tick != Some(
            transition->0.started_tick,
        )),
        !begins ==> after == before,
        begins ==> after.playing && after.started_tick == Some(transition->0.started_tick),
{
}

// Figures.

/// The fixed ranges are loaded together, a custom one by itself; it is shown only
/// while it is looked at.
pub proof fn ranges_are_loaded_together(
    app: AppType,
    cached: UsageRangePreset,
    asked: UsageRangePreset,
    key: UsagePricingLoadKey,
    shows: bool,
    suffices: bool,
)
    requires
        call_ensures(usage_pricing_load_key, (&app, asked), key),
        call_ensures(usage_pricing_range_matches_active, (cached, asked), shows),
        call_ensures(usage_pricing_cache_satisfies, (cached, asked), suffices),
    ensures
        key.0 == app,
        asked is Custom ==> key.1 == asked,
        !(asked is Custom) ==> key.1 is SevenDays,
        shows == (!(cached is Custom) || cached == asked),
        suffices == (cached == asked || (!(cached is Custom) && !(asked is Custom))),
{
}

/// The screens of usage and prices ask for the figures that they need, where none
/// are at hand or under way; other screens ask for nothing. Prices come with the
/// fixed ranges.
pub proof fn screens_ask_for_their_figures(
    before: (AppView, CacheView, Seq<UsagePricingReq>),
    after: (AppView, CacheView, Seq<UsagePricingReq>),
)
    requires
        figures_needed(before, Link::Open, after),
    ensures
        ({
            let (app, cache, sent) = before;
            let screen = app.route is Usage || app.route is UsageLogs || app.route is UsageLogDetail
                || app.route is Pricing;
            let key = if app.usage.range is Custom && !(app.route is Pricing) {
                (app.app_type, app.usage.range)
            } else {
                (app.app_type, UsageRangePreset::SevenDays)
            };
            let under_way = cache.pending_usage.dom().contains(key);
            &&& !screen || under_way ==> after == before
            &&& cache.usage.dom().contains(key) ==> after == before
            &&& screen && !under_way && after != before ==> {
                &&& after.2.len() == sent.len() + 1
                &&& after.2.drop_last() == sent
                &&& after.2.last() matches UsagePricingReq::Load { app_type, range, .. }
                &&& app_type == app.app_type
                &&& range is Custom == key.1 is Custom
                &&& range is Custom ==> range == app.usage.range
                &&& after.1.pending_usage.dom().contains(key)
            }
        }),
{
    let (app, cache, sent) = before;
    let key = if app.usage.range is Custom && !(app.route is Pricing) {
        (app.app_type, app.usage.range)
    } else {
        (app.app_type, UsageRangePreset::SevenDays)
    };
    if cache.usage.dom().contains(key) {
        assert(cache.usage.contains_key(key));
    }
}

/// The end of the import that is waited for ends the wait; the end of another
/// changes nothing. Nothing is loaded anew where it failed or nobody can be
/// asked; after a success what is shown is kept.
pub proof fn imports_end(
    before: (AppView, CacheView, Seq<UsagePricingReq>),
    tracker: RequestTracker,
    link: Link,
    data: UiDataView,
    msg: SessionUsageSyncMsg,
    after: (AppView, CacheView, Seq<UsagePricingReq>),
    tracker_after: RequestTracker,
)
    requires
        sync_over(before, tracker, link, data, msg, after, tracker_after),
    ensures
        tracker.active == Some(msg.request_id) ==> tracker_after == (RequestTracker {
            seq: tracker.seq,
            active: None,
        }),
        tracker.active != Some(msg.request_id) ==> tracker_after == tracker && after == before,
        msg.result is Err || link == Link::Missing ==> after == before,
        after.2.len() <= before.2.len() + 1,
        after.0.app_type == before.0.app_type,
        after.0.usage.range == before.0.usage.range,
{
}

// The start.

/// The interface starts on its main page, with what was confirmed before. The
/// question for detection is laid over it where that is due, and the last notice
/// is told.
pub proof fn the_interface_starts(
    app_type: AppType,
    names: AppNamesView,
    startup: VisibleAppsStartup,
    common_config_confirmed: bool,
    usage_confirmed: bool,
)
    ensures
        ({
            let app = shell(app_type, names, startup, common_config_confirmed, usage_confirmed);
            &&& app.app_type == app_type
            &&& app.names == names
            &&& app.route is Main
            &&& app.tick == 0
            &&& !app.should_quit
            &&& app.usage.range is SevenDays
            &&& app.filter.text.len() == 0
            &&& app.common_config_notice_confirmed == common_config_confirmed
            &&& app.usage_query_notice_confirmed == usage_confirmed
            &&& !startup.should_prompt ==> app.overlay is Absent
            &&& startup.should_prompt ==> {
                &&& app.overlay matches OverlayView::Confirm { title, message, action }
                &&& line_says(title, TextKey::VisibleAppsDetectionTitle, seq![])
                &&& line_says(message, TextKey::VisibleAppsDetectionMessage, seq![])
                &&& action is VisibleAppsAutoDetection
            }
            &&& startup.notices@.len() == 0 ==> app.toast is None
            &&& startup.notices@.len() > 0 ==> {
                &&& app.toast matches Some(toast)
                &&& toast.message == startup.notices@[startup.notices@.len() - 1]@
                &&& toast.kind == ToastKind::Info
            }
        }),
{
    assert(views(startup.notices@).len() == startup.notices@.len());
}

} // verus!
