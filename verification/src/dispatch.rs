//! What the user asked for, carried out as far as it concerns the data that is
//! shown and kept. Everything else is passed on.

use vstd::prelude::*;

use crate::action::{cache_invalidation_for_action, invalidation_of, Action};
use crate::app::{App, AppView};
use crate::app_data::{
    apply_cache_invalidation, desk, drop_cached_worker_state, invalidation_applied, DataWorkers,
    Desk, InvalidationStep, Links, StateHolder,
};
use crate::app_type::AppType;
use crate::cache::{
    app_after_queueing, app_load_notice, sent_after_queueing, turned_to, CacheInvalidation,
    CacheView, UiDataByAppCache,
};
use crate::chars::{lowercase, text_lowercase};
use crate::data::{UiData, UiDataView};
use crate::messages::{AppDataLoadKind, AppDataReq, UsagePricingReq};
use crate::outbox::{Link, Outbox};
use crate::quota_requests::{
    manual_asking, queue_current_quota_refresh_if_due, queue_provider_quota_refresh,
    sent_after_asking,
};
use crate::request::following;
use crate::route::Route;
use crate::session_requests::{queue_sessions_refresh_if_needed, scan_queued, SessionReq};
use crate::sessions::{SessionsState, SessionsView};
use crate::text::ToastKind;
use crate::text_edit::{trim, trimmed};
use crate::usage::{CustomUsage, PagerView, UsageCustomRange, UsageRangePreset, UsageUiView, UsageView};
use crate::usage_loads::{detail_asking, queue_usage_log_detail_refresh};

verus! {

// The sessions screen while applications change.

/// No session is looked at and nothing is searched for.
pub open spec fn sessions_left(s: SessionsView) -> SessionsView {
    SessionsView {
        message_cancel_pending: false,
        deep_search_active: None,
        deep_search_pending: None,
        deep_search_query: None,
        deep_search_results: Seq::empty(),
        ..s.without_detail()
    }
}

fn leave_sessions(sessions: &mut SessionsState)
    ensures
        final(sessions)@ == sessions_left(old(sessions)@),
{
    sessions.clear_detail();
    let _ = sessions.take_message_cancel_pending();
    sessions.deep_search_active = None;
    sessions.deep_search_pending = None;
    sessions.deep_search_query = None;
    sessions.clear_deep_search_results();
}

/// What the filter asks for is searched for anew, while the sessions are shown.
pub open spec fn searching_again(app: AppView) -> AppView {
    let query = trimmed(app.filter.text);
    if app.route is Sessions && query.len() > 0 {
        app.with_sessions(
            SessionsView { deep_search_pending: Some((text_lowercase(query), 0)), ..app.sessions },
        )
    } else {
        app
    }
}

fn search_again(app: &mut App)
    ensures
        final(app)@ == searching_again(old(app)@),
{
    match app.route {
        Route::Sessions => {
            let query = trim(app.filter.input.value.as_str());
            if !query.is_empty() {
                let lowered = lowercase(query);
                app.sessions.deep_search_pending = Some((lowered, 0));
            }
        },
        _ => {},
    }
}

// Another application.

impl Desk {
    /// Another application is turned to. What is kept of it is shown at once;
    /// otherwise it is asked for.
    pub open spec fn switched(self, link: Link, next: AppType) -> Desk {
        if self.app.app_type == next {
            self
        } else {
            let kept = self.cache.remembering(self.app.app_type, self.data);
            let ready = kept.by_app.contains_key(next);
            let shown = if ready {
                kept.by_app[next]
            } else {
                self.data.switching_to(next)
            };
            let asks = !ready && !kept.pending.contains_key(next);
            Desk {
                app: AppView {
                    view_requests: self.app.view_requests.prompting(),
                    ..turned_to(
                        if asks && link != Link::Open {
                            self.app.told(ToastKind::Warning, app_load_notice(link))
                        } else {
                            self.app
                        },
                        next,
                    )
                },
                data: UiDataView {
                    quota: self.data.quota,
                    ..kept.completed(next, shown, self.app.usage.range)
                },
                cache: if !asks {
                    kept
                } else {
                    match link {
                        Link::Missing => CacheView {
                            incomplete: kept.incomplete.insert(next, ()),
                            ..kept
                        },
                        Link::Closed => CacheView {
                            last_app_request: following(kept.last_app_request),
                            incomplete: kept.incomplete.insert(next, ()),
                            ..kept
                        },
                        Link::Open => kept.loading_app(next, AppDataLoadKind::Snapshot),
                    }
                },
                app_sent: if asks && link == Link::Open {
                    self.app_sent.push(
                        AppDataReq::Load {
                            request_id: following(kept.last_app_request),
                            generation: kept.generation,
                            app_state_epoch: kept.epoch,
                            app_type: next,
                        },
                    )
                } else {
                    self.app_sent
                },
                ..self
            }
        }
    }

    /// The figures that a switch needs are asked for, and the quota where it is
    /// due.
    pub open spec fn asking_after_switch(self, links: Links) -> Desk {
        let fixed = self.asking_usage(links.usage, UsageRangePreset::SevenDays);
        let both = if self.app.usage.range.spec_is_custom() {
            fixed.asking_usage(links.usage, self.app.usage.range)
        } else {
            fixed
        };
        both.asking_quota(links.quota)
    }

    /// The user turns to another application.
    pub open spec fn turned(self, links: Links, next: AppType) -> Desk {
        let left = Desk {
            app: AppView {
                sessions: sessions_left(self.app.sessions),
                pending_deep_search: None,
                ..self.app
            },
            ..self
        };
        let switched = left.switched(links.app_data, next);
        Desk { app: searching_again(switched.app), ..switched }.asking_after_switch(links)
    }

    /// The user asks for the figures of a range of days.
    pub open spec fn looking_at(self, links: Links, range: UsageCustomRange) -> Desk {
        Desk {
            app: AppView {
                usage: UsageUiView {
                    pager: PagerView::nothing(),
                    range: UsageRangePreset::Custom(range),
                    ..self.app.usage
                },
                view_requests: self.app.view_requests.clamping(),
                ..self.app
            },
            data: UiDataView {
                usage: UsageView { custom: CustomUsage::begun(range), ..self.data.usage },
                ..self.data
            },
            ..self
        }.asking_usage(links.usage, UsageRangePreset::Custom(range)).remembered()
    }
}

/// Asks for the figures and the quota that a switch needs.
fn ask_after_switch(
    app: &mut App,
    data: &mut UiData,
    cache: &mut UiDataByAppCache,
    workers: &mut DataWorkers,
)
    ensures
        final(workers).links() == old(workers).links(),
        desk(*final(app), *final(data), *final(cache), *final(workers)) == desk(
            *old(app),
            *old(data),
            *old(cache),
            *old(workers),
        ).asking_after_switch(old(workers).links()),
{
    let current = app.app_type;
    let range = app.usage.range;
    cache.queue_usage_pricing_load(
        app,
        &mut workers.usage,
        &current,
        UsageRangePreset::SevenDays,
    );
    if range.is_custom() {
        cache.queue_usage_pricing_load(app, &mut workers.usage, &current, range);
    }
    queue_current_quota_refresh_if_due(app, data, &mut workers.quota);
}

fn turn_to_app(
    app: &mut App,
    data: &mut UiData,
    cache: &mut UiDataByAppCache,
    workers: &mut DataWorkers,
    next: AppType,
)
    ensures
        final(workers).links() == old(workers).links(),
        desk(*final(app), *final(data), *final(cache), *final(workers)) == desk(
            *old(app),
            *old(data),
            *old(cache),
            *old(workers),
        ).turned(old(workers).links(), next),
{
    leave_sessions(&mut app.sessions);
    app.pending_deep_search = None;
    cache.switch_to(app, data, &mut workers.app_data, next);
    search_again(app);
    ask_after_switch(app, data, cache, workers);
}

fn look_at_range(
    app: &mut App,
    data: &mut UiData,
    cache: &mut UiDataByAppCache,
    workers: &mut DataWorkers,
    range: UsageCustomRange,
)
    ensures
        final(workers).links() == old(workers).links(),
        desk(*final(app), *final(data), *final(cache), *final(workers)) == desk(
            *old(app),
            *old(data),
            *old(cache),
            *old(workers),
        ).looking_at(old(workers).links(), range),
{
    app.usage.invalidate_log_pages();
    app.usage.range = UsageRangePreset::Custom(range);
    data.usage.begin_custom_range(range);
    app.clamp_selections();
    let current = app.app_type;
    cache.queue_usage_pricing_load(
        app,
        &mut workers.usage,
        &current,
        UsageRangePreset::Custom(range),
    );
    cache.remember_current(&app.app_type, data);
}

// Everything that is asked for.

/// What has been sent to the session worker before anything else is done: that
/// messages are wanted no more.
pub open spec fn with_messages_cancelled(
    sent: Seq<SessionReq>,
    pending: bool,
    link: Link,
) -> Seq<SessionReq> {
    if pending && link == Link::Open {
        sent.push(SessionReq::CancelMessages)
    } else {
        sent
    }
}

/// What has been sent to the session worker when applications change: that
/// neither the search nor messages are wanted any more.
pub open spec fn with_all_cancelled(sent: Seq<SessionReq>, link: Link) -> Seq<SessionReq> {
    if link == Link::Open {
        sent.push(SessionReq::CancelSearch).push(SessionReq::CancelMessages)
    } else {
        sent
    }
}

/// The state once it was told that messages are wanted no more.
pub open spec fn cancel_told(before: Desk) -> Desk {
    Desk {
        app: before.app.with_sessions(
            SessionsView { message_cancel_pending: false, ..before.app.sessions },
        ),
        ..before
    }
}

/// What is passed on, and what has to be done once it was carried out.
#[derive(Debug)]
pub struct PassedOn {
    pub action: Action,
    /// What the action may invalidate.
    pub candidate: CacheInvalidation,
    /// The data that was shown before.
    pub before_token: u64,
    /// The workers that have to let go of their state before.
    pub awaited: Vec<StateHolder>,
    /// Whether the sessions may have to be scanned afterwards.
    pub opens_sessions: bool,
}

#[derive(Debug)]
pub enum ActionStep {
    Done,
    PassOn(PassedOn),
}

/// The state once the workers were told to let go of theirs.
pub open spec fn releasing(before: Desk, links: Links, invalidation: CacheInvalidation) -> Desk {
    if invalidation == CacheInvalidation::AppStateRecreated {
        Desk {
            app_sent: if links.app_data == Link::Open {
                before.app_sent.push(AppDataReq::DropState)
            } else {
                before.app_sent
            },
            usage_sent: if links.usage == Link::Open {
                before.usage_sent.push(UsagePricingReq::DropState)
            } else {
                before.usage_sent
            },
            ..before
        }
    } else {
        before
    }
}

/// The workers whose answer has to be waited for.
pub open spec fn released_by(links: Links, invalidation: CacheInvalidation) -> Seq<StateHolder> {
    if invalidation == CacheInvalidation::AppStateRecreated {
        (if links.app_data == Link::Open {
            seq![StateHolder::AppData]
        } else {
            seq![]
        }) + (if links.usage == Link::Open {
            seq![StateHolder::UsagePricing]
        } else {
            seq![]
        })
    } else {
        seq![]
    }
}

/// What an action that concerns only the data shown and kept leads to, but for
/// the sessions.
pub open spec fn carried_out(before: Desk, links: Links, action: Action) -> Desk {
    match action {
        Action::ProviderQuotaRefresh { id } => {
            let asking = manual_asking(before.app, before.data, links.quota, id@);
            Desk {
                app: asking.app,
                data: UiDataView { quota: asking.quota, ..before.data },
                quota_sent: sent_after_asking(before.quota_sent, asking),
                ..before
            }
        },
        Action::SetAppType(next) => before.turned(links, next),
        Action::UsageCustomRange { range } => before.looking_at(links, range),
        Action::UsageLogDetailRefresh { rowid } => {
            let asking = detail_asking(before.app, before.cache, links.usage, rowid);
            Desk {
                app: app_after_queueing(before.app, asking),
                cache: asking.cache,
                usage_sent: sent_after_queueing(before.usage_sent, asking),
                ..before
            }
        },
        _ => before,
    }
}

/// Whether an action concerns only the data shown and kept.
pub open spec fn is_own(action: Action) -> bool {
    action is Nothing || action is ProviderQuotaRefresh || action is SetAppType
        || action is UsageCustomRange || action is UsageLogDetailRefresh
}

/// Whether the sessions may have to be scanned after an action.
pub open spec fn opens_sessions(action: Action) -> bool {
    action is SetAppType || action == Action::SwitchRoute(Route::Sessions)
}

fn cancel_messages(app: &mut App, session_worker: &mut Outbox<SessionReq>)
    ensures
        final(session_worker).link == old(session_worker).link,
        final(session_worker).sent@ == with_messages_cancelled(
            old(session_worker).sent@,
            old(app)@.sessions.message_cancel_pending,
            old(session_worker).link,
        ),
        final(app)@ == old(app)@.with_sessions(
            SessionsView { message_cancel_pending: false, ..old(app)@.sessions },
        ),
{
    if app.sessions.take_message_cancel_pending() {
        let _ = session_worker.send(SessionReq::CancelMessages);
    }
}

/// What an action leads to: it is carried out here, or handed on with what its
/// end will need.
pub open spec fn action_handled(
    before: Desk,
    session_sent: Seq<SessionReq>,
    links: Links,
    link: Link,
    action: Action,
    after: Desk,
    session_sent_after: Seq<SessionReq>,
    step: ActionStep,
) -> bool {
    let told = cancel_told(before);
    let sent = with_messages_cancelled(
        session_sent,
        before.app.sessions.message_cancel_pending,
        link,
    );
    let carried = carried_out(told, links, action);
    match step {
        ActionStep::Done => {
            &&& is_own(action)
            &&& after == (Desk { app: after.app, ..carried })
            &&& if action is SetAppType {
                scan_queued(
                    carried.app,
                    with_all_cancelled(sent, link),
                    link,
                    after.app,
                    session_sent_after,
                )
            } else {
                after.app == carried.app && session_sent_after == sent
            }
        },
        ActionStep::PassOn(passed) => {
            let candidate = invalidation_of(action);
            &&& !is_own(action)
            &&& after == releasing(told, links, candidate)
            &&& session_sent_after == sent
            &&& passed.action == action
            &&& passed.candidate == candidate
            &&& passed.before_token == before.data.reload_token
            &&& passed.awaited@ == released_by(links, candidate)
            &&& passed.opens_sessions == opens_sessions(action)
        },
    }
}

/// Carries out what the user asked for, or passes it on.
#[verifier::rlimit(50)]
pub fn handle_tui_action(
    app: &mut App,
    data: &mut UiData,
    cache: &mut UiDataByAppCache,
    workers: &mut DataWorkers,
    session_worker: &mut Outbox<SessionReq>,
    action: Action,
) -> (step: ActionStep)
    ensures
        final(workers).links() == old(workers).links(),
        final(session_worker).link == old(session_worker).link,
        action_handled(
            desk(*old(app), *old(data), *old(cache), *old(workers)),
            old(session_worker).sent@,
            old(workers).links(),
            old(session_worker).link,
            action,
            desk(*final(app), *final(data), *final(cache), *final(workers)),
            final(session_worker).sent@,
            step,
        ),
{
    cancel_messages(app, session_worker);
    match action {
        Action::Nothing => ActionStep::Done,
        Action::ProviderQuotaRefresh { id } => {
            queue_provider_quota_refresh(app, data, &mut workers.quota, &id);
            ActionStep::Done
        },
        Action::SetAppType(next) => {
            let _ = session_worker.send(SessionReq::CancelSearch);
            let _ = session_worker.send(SessionReq::CancelMessages);
            turn_to_app(app, data, cache, workers, next);
            queue_sessions_refresh_if_needed(app, session_worker);
            ActionStep::Done
        },
        Action::UsageCustomRange { range } => {
            look_at_range(app, data, cache, workers, range);
            ActionStep::Done
        },
        Action::UsageLogDetailRefresh { rowid } => {
            queue_usage_log_detail_refresh(app, cache, &mut workers.usage, rowid);
            ActionStep::Done
        },
        other => pass_on(data, workers, other),
    }
}

fn pass_on(data: &UiData, workers: &mut DataWorkers, action: Action) -> (step: ActionStep)
    requires
        !is_own(action),
    ensures
        final(workers).links() == old(workers).links(),
        final(workers).quota == old(workers).quota,
        final(workers).app_data.sent@ == (if invalidation_of(action)
            == CacheInvalidation::AppStateRecreated && old(workers).app_data.link == Link::Open {
            old(workers).app_data.sent@.push(AppDataReq::DropState)
        } else {
            old(workers).app_data.sent@
        }),
        final(workers).usage.sent@ == (if invalidation_of(action)
            == CacheInvalidation::AppStateRecreated && old(workers).usage.link == Link::Open {
            old(workers).usage.sent@.push(UsagePricingReq::DropState)
        } else {
            old(workers).usage.sent@
        }),
        ({
            let candidate = invalidation_of(action);
            &&& step matches ActionStep::PassOn(passed)
            &&& passed.action == action
            &&& passed.candidate == candidate
            &&& passed.before_token == data@.reload_token
            &&& passed.awaited@ == released_by(old(workers).links(), candidate)
            &&& passed.opens_sessions == opens_sessions(action)
        }),
{
    let candidate = cache_invalidation_for_action(&action);
    let awaited = if candidate == CacheInvalidation::AppStateRecreated {
        drop_cached_worker_state(&mut workers.app_data, &mut workers.usage)
    } else {
        Vec::new()
    };
    let opens_sessions = match &action {
        Action::SwitchRoute(Route::Sessions) => true,
        _ => false,
    };
    ActionStep::PassOn(
        PassedOn {
            action,
            candidate,
            before_token: data.reload_token,
            awaited,
            opens_sessions,
        },
    )
}

/// What is done once an action that was handed on is over: what it changed, how
/// the workers let go of the state, and whether it opened the sessions.
pub open spec fn action_finished(
    before: Desk,
    session_sent: Seq<SessionReq>,
    links: Links,
    link: Link,
    over: (CacheInvalidation, Result<(), String>, bool),
    after: Desk,
    session_sent_after: Seq<SessionReq>,
    result: Result<InvalidationStep, String>,
) -> bool {
    let applied = invalidation_applied(before, links, over.0, over.1);
    &&& result == applied.1
    &&& after == (Desk { app: after.app, ..applied.0 })
    &&& if result is Ok && over.2 {
        scan_queued(applied.0.app, session_sent, link, after.app, session_sent_after)
    } else {
        &&& after.app == applied.0.app
        &&& session_sent_after == session_sent
    }
}

/// An action that was passed on was carried out. `invalidation` is what it
/// invalidated; `released` is what waiting for the workers led to, where they
/// had to let go of their state once more.
pub fn finish_tui_action(
    app: &mut App,
    data: &mut UiData,
    cache: &mut UiDataByAppCache,
    workers: &mut DataWorkers,
    session_worker: &mut Outbox<SessionReq>,
    invalidation: CacheInvalidation,
    released: Result<(), String>,
    opens_sessions: bool,
) -> (result: Result<InvalidationStep, String>)
    ensures
        final(workers).links() == old(workers).links(),
        final(session_worker).link == old(session_worker).link,
        action_finished(
            desk(*old(app), *old(data), *old(cache), *old(workers)),
            old(session_worker).sent@,
            old(workers).links(),
            old(session_worker).link,
            (invalidation, released, opens_sessions),
            desk(*final(app), *final(data), *final(cache), *final(workers)),
            final(session_worker).sent@,
            result,
        ),
{
    let result = apply_cache_invalidation(app, data, cache, workers, invalidation, released);
    if result.is_ok() && opens_sessions {
        queue_sessions_refresh_if_needed(app, session_worker);
    }
    result
}

/// Turning to the application that is shown changes nothing of the data shown
/// or kept.
pub proof fn turning_to_the_same_app_keeps_its_data(before: Desk, links: Links)
    ensures
        before.turned(links, before.app.app_type).data.providers == before.data.providers,
        before.turned(links, before.app.app_type).cache.by_app == before.cache.by_app,
        before.turned(links, before.app.app_type).app_sent == before.app_sent,
{
}

} // verus!
