//! The decisions of the event loop: what is said of a worker that did not start,
//! what a tick brings, what becomes of an action that failed.

use vstd::prelude::*;

use crate::app::{App, AppView};
use crate::app_type::AppType;
use crate::base::{views, Duplicate};
use crate::cache::{flushes, CacheView, UiDataByAppCache};
use crate::data::{UiData, UiDataView};
use crate::frame::{FrameScheduler, TUI_TICK_RATE};
use crate::local_env::LocalEnvView;
use crate::managed_auth::{LoginView, ManagedAuthReq, ManagedAuthView};
use crate::messages::UsagePricingReq;
use crate::outbox::{Link, Outbox, CHANNEL_CLOSED};
use crate::proxy::{
    after_snapshot_asked, queue_proxy_snapshot_refresh,
    queue_proxy_snapshot_refresh_after_app_switch, sent_after_snapshot_asked, ProxyReq,
};
use crate::quota_requests::{
    auto_asking, queue_current_quota_refresh_if_due, sent_after_asking, QuotaReq,
};
use crate::request::RequestTracker;
use crate::session_messages::{handle_session_msg, session_received, SessionMsg};
use crate::session_requests::SessionReq;
use crate::sessions::SessionsView;
use crate::text::{joined, Text, TextKey, TextView, ToastKind};
use crate::time::{elapsed, span_since};
use crate::usage::{load_key, UsagePricingLoadKey};
use crate::usage_loads::{is_usage_route, shows_usage};

verus! {

// Workers.

/// The workers that the interface starts.
#[derive(Debug, Clone, Copy, PartialEq, Eq, Structural)]
pub enum WorkerKind {
    Speedtest,
    StreamCheck,
    Skills,
    LocalEnv,
    Sessions,
    Proxy,
    Quota,
    AppData,
    UsagePricing,
    SessionUsage,
    WebDav,
    Update,
    ModelFetch,
    ManagedAuth,
}

/// What is said of a worker that could not be started. The import of session
/// logs works in the background; nothing is said of it.
pub open spec fn unavailable_notice(worker: WorkerKind, error: Seq<char>) -> Option<TextView> {
    match worker {
        WorkerKind::Speedtest => Some(TextView::with(TextKey::SpeedtestUnavailable, error)),
        WorkerKind::StreamCheck => Some(TextView::with(TextKey::StreamCheckUnavailable, error)),
        WorkerKind::Skills => Some(TextView::with(TextKey::SkillsWorkerUnavailable, error)),
        WorkerKind::LocalEnv => Some(TextView::with(TextKey::LocalEnvCheckUnavailable, error)),
        WorkerKind::Sessions => Some(TextView::with(TextKey::SessionsWorkerUnavailable, error)),
        WorkerKind::Proxy => Some(TextView::with(TextKey::ProxyWorkerUnavailable, error)),
        WorkerKind::Quota => Some(TextView::with(TextKey::QuotaWorkerUnavailable, error)),
        WorkerKind::AppData => Some(
            TextView::verbatim("App data worker unavailable: "@ + error),
        ),
        WorkerKind::UsagePricing => Some(
            TextView::verbatim("Usage/pricing worker unavailable: "@ + error),
        ),
        WorkerKind::SessionUsage => None,
        WorkerKind::WebDav => Some(TextView::with(TextKey::WebDavWorkerUnavailable, error)),
        WorkerKind::Update => Some(TextView::with(TextKey::UpdateCheckFailed, error)),
        WorkerKind::ModelFetch => Some(
            TextView::with(TextKey::ModelFetchWorkerUnavailable, error),
        ),
        WorkerKind::ManagedAuth => Some(
            TextView::with(TextKey::ManagedAuthWorkerUnavailable, error),
        ),
    }
}

/// The interface without a worker: what it would have been waited for is not.
pub open spec fn without_worker(app: AppView, worker: WorkerKind, error: Seq<char>) -> AppView {
    let settled = match worker {
        WorkerKind::LocalEnv => AppView {
            local_env: LocalEnvView { loading: false, ..app.local_env },
            ..app
        },
        WorkerKind::ManagedAuth => AppView {
            managed_auth: ManagedAuthView { loading: false, ..app.managed_auth },
            ..app
        },
        _ => app,
    };
    match unavailable_notice(worker, error) {
        Some(notice) => settled.told(ToastKind::Warning, notice),
        None => settled,
    }
}

/// A worker could not be started. The interface does without.
pub fn worker_unavailable(app: &mut App, worker: WorkerKind, error: &str)
    ensures
        final(app)@ == without_worker(old(app)@, worker, error@),
{
    let notice = match worker {
        WorkerKind::Speedtest => Text::with(TextKey::SpeedtestUnavailable, error),
        WorkerKind::StreamCheck => Text::with(TextKey::StreamCheckUnavailable, error),
        WorkerKind::Skills => Text::with(TextKey::SkillsWorkerUnavailable, error),
        WorkerKind::LocalEnv => {
            app.local_env.loading = false;
            Text::with(TextKey::LocalEnvCheckUnavailable, error)
        },
        WorkerKind::Sessions => Text::with(TextKey::SessionsWorkerUnavailable, error),
        WorkerKind::Proxy => Text::with(TextKey::ProxyWorkerUnavailable, error),
        WorkerKind::Quota => Text::with(TextKey::QuotaWorkerUnavailable, error),
        WorkerKind::AppData => Text::verbatim(
            joined("App data worker unavailable: ", error).as_str(),
        ),
        WorkerKind::UsagePricing => Text::verbatim(
            joined("Usage/pricing worker unavailable: ", error).as_str(),
        ),
        WorkerKind::SessionUsage => {
            return ;
        },
        WorkerKind::WebDav => Text::with(TextKey::WebDavWorkerUnavailable, error),
        WorkerKind::Update => Text::with(TextKey::UpdateCheckFailed, error),
        WorkerKind::ModelFetch => Text::with(TextKey::ModelFetchWorkerUnavailable, error),
        WorkerKind::ManagedAuth => {
            app.managed_auth.loading = false;
            Text::with(TextKey::ManagedAuthWorkerUnavailable, error)
        },
    };
    app.push_toast(notice, ToastKind::Warning);
}

// Reports.

/// A report of the session worker has come. Messages that nobody waits for any
/// more are called off.
pub fn receive_session_msg(
    app: &mut App,
    frames: &mut FrameScheduler,
    worker: &mut Outbox<SessionReq>,
    msg: SessionMsg,
)
    ensures
        *final(frames) == (FrameScheduler { dirty: true, ..*old(frames) }),
        final(worker).link == old(worker).link,
        exists|received: AppView|
            {
                &&& #[trigger] session_received(old(app)@, msg, received)
                &&& final(app)@ == (AppView {
                    sessions: SessionsView {
                        message_cancel_pending: false,
                        ..received.sessions
                    },
                    ..received
                })
                &&& final(worker).sent@ == (if received.sessions.message_cancel_pending
                    && old(worker).link == Link::Open {
                    old(worker).sent@.push(SessionReq::CancelMessages)
                } else {
                    old(worker).sent@
                })
            },
{
    frames.mark_dirty();
    handle_session_msg(app, msg);
    assert(session_received(old(app)@, msg, app@));
    if app.sessions.take_message_cancel_pending() {
        let _ = worker.send(SessionReq::CancelMessages);
    }
}

/// Whether a login is under way whose next check is due.
pub open spec fn login_due(app: AppView) -> bool {
    app.managed_auth.login matches Some(login) && app.tick >= login.next_poll_tick
}

impl App {
    pub fn should_poll_managed_auth_login(&self) -> (due: bool)
        ensures
            due == login_due(self@),
    {
        match &self.managed_auth.login {
            Some(login) => self.tick >= login.next_poll_tick,
            None => false,
        }
    }
}

/// What a check for a finished login does to the interface, where one is due:
/// the next check is at least a tick away.
pub open spec fn login_polled(app: AppView, link: Link) -> AppView {
    match app.managed_auth.login {
        None => app,
        Some(login) => if !login_due(app) {
            app
        } else {
            let interval: u64 = if login.poll_interval_ticks == 0 {
                1
            } else {
                login.poll_interval_ticks
            };
            let waiting = AppView {
                managed_auth: ManagedAuthView {
                    login: Some(
                        LoginView {
                            next_poll_tick: if app.tick + interval > u64::MAX {
                                u64::MAX
                            } else {
                                (app.tick + interval) as u64
                            },
                            ..login
                        },
                    ),
                    ..app.managed_auth
                },
                ..app
            };
            if link == Link::Closed {
                waiting.told(
                    ToastKind::Warning,
                    TextView::with(TextKey::ManagedAuthRequestFailed, CHANNEL_CLOSED@),
                )
            } else {
                waiting
            }
        },
    }
}

/// What is sent to check on a login.
pub open spec fn poll_sent(
    app: AppView,
    link: Link,
    sent: Seq<ManagedAuthReq>,
    sent_after: Seq<ManagedAuthReq>,
) -> bool {
    match app.managed_auth.login {
        Some(login) if login_due(app) && link == Link::Open => {
            &&& sent_after.len() == sent.len() + 1
            &&& sent_after.drop_last() == sent
            &&& sent_after.last() matches ManagedAuthReq::PollLogin { auth_provider, device_code }
            &&& auth_provider@ == login.auth_provider
            &&& device_code@ == login.device_code
        },
        _ => sent_after == sent,
    }
}

/// Asks whether the user has finished a login, where the next check is due.
pub fn poll_managed_auth_login(app: &mut App, worker: &mut Outbox<ManagedAuthReq>)
    ensures
        final(worker).link == old(worker).link,
        final(app)@ == login_polled(old(app)@, old(worker).link),
        poll_sent(old(app)@, old(worker).link, old(worker).sent@, final(worker).sent@),
{
    if !app.should_poll_managed_auth_login() {
        return ;
    }
    let mut login = match app.managed_auth.login.take() {
        Some(login) => login,
        None => {
            return ;
        },
    };
    let interval = if login.poll_interval_ticks == 0 {
        1
    } else {
        login.poll_interval_ticks
    };
    login.next_poll_tick = app.tick.saturating_add(interval);
    let auth_provider = login.auth_provider.duplicate();
    let device_code = login.device_code.duplicate();
    app.managed_auth.login = Some(login);
    if worker.is_missing() {
        return ;
    }
    if worker.send(ManagedAuthReq::PollLogin { auth_provider, device_code }) {
        assert(worker.sent@.drop_last() =~= old(worker).sent@);
    } else {
        app.push_toast(
            Text::with(TextKey::ManagedAuthRequestFailed, CHANNEL_CLOSED),
            ToastKind::Warning,
        );
    }
}

/// A login is not checked twice in a tick: once it was checked, and as long as
/// the next check is ahead, another call changes nothing.
pub proof fn logins_are_checked_once_in_a_tick(app: AppView, link: Link, next: Link)
    requires
        app.tick < u64::MAX,
    ensures
        !login_due(login_polled(app, link)),
        login_polled(login_polled(app, link), next) == login_polled(app, link),
{
}

// Actions.

/// Why an action failed.
#[derive(Debug)]
pub enum ActionError {
    /// The terminal cannot be written to any more.
    Terminal(String),
    Other(String),
}

/// What the end of an action leads to: what is shown, the state of the proxy
/// that is waited for, and what was sent for it.
pub open spec fn action_over(
    before: (AppView, RequestTracker, Seq<ProxyReq>),
    link: Link,
    before_app_type: AppType,
    result: Result<(), ActionError>,
    after: (AppView, RequestTracker, Seq<ProxyReq>),
    fatal: Option<String>,
) -> bool {
    match result {
        Err(ActionError::Terminal(error)) => fatal == Some(error) && after == before,
        Err(ActionError::Other(error)) => {
            &&& fatal is None
            &&& after == (
                before.0.told(ToastKind::Error, TextView::verbatim(error@)),
                before.1,
                before.2,
            )
        },
        Ok(()) => {
            let turned = before_app_type != before.0.app_type;
            &&& fatal is None
            &&& after.0 == before.0
            &&& after.1 == (if turned {
                after_snapshot_asked(before.1.idle(), link)
            } else {
                before.1
            })
            &&& after.2 == (if turned {
                sent_after_snapshot_asked(before.2, before.1.idle(), link, before.0.app_type)
            } else {
                before.2
            })
        },
    }
}

/// An action was carried out. A lost terminal ends the interface: the result is
/// that error. Any other error is told. Where another application is shown now,
/// the state of the proxy is asked for.
pub fn after_action(
    app: &mut App,
    snapshot: &mut RequestTracker,
    proxy: &mut Outbox<ProxyReq>,
    before_app_type: &AppType,
    result: Result<(), ActionError>,
) -> (fatal: Option<String>)
    ensures
        final(proxy).link == old(proxy).link,
        action_over(
            (old(app)@, *old(snapshot), old(proxy).sent@),
            old(proxy).link,
            *before_app_type,
            result,
            (final(app)@, *final(snapshot), final(proxy).sent@),
            fatal,
        ),
{
    let succeeded = match result {
        Ok(()) => true,
        Err(ActionError::Terminal(error)) => {
            return Some(error);
        },
        Err(ActionError::Other(error)) => {
            app.push_toast(Text::verbatim(error.as_str()), ToastKind::Error);
            false
        },
    };
    queue_proxy_snapshot_refresh_after_app_switch(
        snapshot,
        proxy,
        before_app_type,
        &app.app_type,
        succeeded,
    );
    None
}

// Ticks.

/// How long the usage figures stay as they are while session logs are being
/// imported, in nanoseconds.
pub const USAGE_SYNC_REFRESH_INTERVAL: u64 = 2_500_000_000;

/// When something was last done.
#[derive(Debug, Clone, Copy, PartialEq, Eq, Structural)]
pub struct LoopClock {
    pub last_tick: u64,
    /// When the usage figures were last asked for while logs were imported.
    pub last_usage_refresh: u64,
}

impl LoopClock {
    pub fn new(now: u64) -> (clock: LoopClock)
        ensures
            clock == (LoopClock { last_tick: now, last_usage_refresh: now }),
    {
        LoopClock { last_tick: now, last_usage_refresh: now }
    }

    pub open spec fn ticks(self, now: u64) -> bool {
        span_since(now, self.last_tick) >= TUI_TICK_RATE
    }

    /// Whether a tick is over.
    pub fn tick_is_due(&self, now: u64) -> (due: bool)
        ensures
            due == self.ticks(now),
    {
        elapsed(now, self.last_tick) >= TUI_TICK_RATE
    }
}

/// Whether the usage figures are asked for again, because logs are imported
/// while they are shown.
pub open spec fn refreshes_usage(
    clock: LoopClock,
    sync: RequestTracker,
    app: AppView,
    now: u64,
) -> bool {
    sync.active is Some && shows_usage(app.route) && span_since(now, clock.last_usage_refresh)
        >= USAGE_SYNC_REFRESH_INTERVAL
}

impl CacheView {
    /// The figures of a range are not up to date.
    pub open spec fn figures_outdated(self, key: UsagePricingLoadKey) -> CacheView {
        CacheView { dirty: self.dirty.insert(key, ()), ..self }
    }
}

/// Figures that are not up to date are asked for, if none are waited for.
pub open spec fn follows_up(
    cache: CacheView,
    app: AppView,
    sent: Seq<UsagePricingReq>,
    link: Link,
    after: (CacheView, AppView, Seq<UsagePricingReq>),
) -> bool {
    exists|started: bool| #[trigger] flushes((cache, app, sent), link, after, started)
}

/// The workers that a tick asks.
pub struct TickWorkers {
    pub proxy: Outbox<ProxyReq>,
    pub quota: Outbox<QuotaReq>,
    pub usage: Outbox<UsagePricingReq>,
}

/// A tick is over: the state of the proxy is asked for while it is watched, the
/// quota when it is due, and the usage figures while logs are imported.
pub fn run_tick(
    app: &mut App,
    data: &mut UiData,
    cache: &mut UiDataByAppCache,
    clock: &mut LoopClock,
    frames: &mut FrameScheduler,
    snapshot: &mut RequestTracker,
    sync: &RequestTracker,
    workers: &mut TickWorkers,
    watches_proxy: bool,
    now: u64,
)
    ensures
        *final(frames) == (FrameScheduler { dirty: true, ..*old(frames) }),
        final(clock).last_tick == now,
        final(workers).proxy.link == old(workers).proxy.link,
        final(workers).quota.link == old(workers).quota.link,
        final(workers).usage.link == old(workers).usage.link,
        *final(snapshot) == (if watches_proxy {
            after_snapshot_asked(*old(snapshot), old(workers).proxy.link)
        } else {
            *old(snapshot)
        }),
        final(workers).proxy.sent@ == (if watches_proxy {
            sent_after_snapshot_asked(
                old(workers).proxy.sent@,
                *old(snapshot),
                old(workers).proxy.link,
                old(app).app_type,
            )
        } else {
            old(workers).proxy.sent@
        }),
        ({
            let asking = auto_asking(old(app)@, old(data)@, old(workers).quota.link);
            let due = refreshes_usage(*old(clock), *sync, asking.app, now);
            let key = load_key(asking.app.app_type, asking.app.usage.range);
            &&& final(data)@ == (UiDataView { quota: asking.quota, ..old(data)@ })
            &&& views(final(workers).quota.sent@) == sent_after_asking(
                views(old(workers).quota.sent@),
                asking,
            )
            &&& final(clock).last_usage_refresh == (if due {
                now
            } else {
                old(clock).last_usage_refresh
            })
            &&& if due && old(workers).usage.link != Link::Missing {
                follows_up(
                    old(cache)@.figures_outdated(key),
                    asking.app,
                    old(workers).usage.sent@,
                    old(workers).usage.link,
                    (final(cache)@, final(app)@, final(workers).usage.sent@),
                )
            } else {
                &&& final(cache)@ == old(cache)@
                &&& final(app)@ == asking.app
                &&& final(workers).usage.sent@ == old(workers).usage.sent@
            }
        }),
{
    if watches_proxy {
        queue_proxy_snapshot_refresh(snapshot, &mut workers.proxy, &app.app_type);
    }
    queue_current_quota_refresh_if_due(app, data, &mut workers.quota);
    if sync.active.is_some() && is_usage_route(&app.route) && elapsed(now, clock.last_usage_refresh)
        >= USAGE_SYNC_REFRESH_INTERVAL {
        if !workers.usage.is_missing() {
            let range = app.usage.range;
            let app_type = app.app_type;
            let _ = cache.request_usage_pricing_refresh_after_external_usage_sync(
                app,
                &mut workers.usage,
                &app_type,
                range,
            );
        }
        clock.last_usage_refresh = now;
    }
    clock.last_tick = now;
    frames.mark_dirty();
}

/// However often ticks come, the usage figures are asked for at most once in an
/// interval while logs are imported.
pub proof fn imports_refresh_rarely(
    clock: LoopClock,
    sync: RequestTracker,
    app: AppView,
    asked: u64,
    now: u64,
)
    requires
        clock.last_usage_refresh == asked,
        asked <= now < asked + USAGE_SYNC_REFRESH_INTERVAL,
    ensures
        !refreshes_usage(clock, sync, app, now),
{
}

} // verus!
