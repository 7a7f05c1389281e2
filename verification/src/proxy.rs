//! The proxy: its state as it is refreshed in the background, and the light
//! that goes with it.

use vstd::prelude::*;

use crate::app::{App, AppView, LoadingKind, Overlay, OverlayView, ProxyVisualTransition};
use crate::app_type::AppType;
use crate::cache::CacheInvalidation;
use crate::data::{ProxySnapshot, UiData, UiDataView};
use crate::outbox::{Link, Outbox};
use crate::request::{following, RequestTracker};
use crate::text::{Text, TextKey, TextView, ToastKind};

verus! {

/// A request to the proxy worker.
#[derive(Debug, Clone, Copy, PartialEq, Eq, Structural)]
pub enum ProxyReq {
    SetManagedSessionForCurrentApp { request_id: u64, app_type: AppType, enabled: bool },
    RefreshSnapshot { request_id: u64, app_type: AppType },
}

/// An answer of the proxy worker.
#[allow(inconsistent_fields)]
#[derive(Debug)]
pub enum ProxyMsg {
    ManagedSessionFinished {
        request_id: u64,
        app_type: AppType,
        enabled: bool,
        result: Result<(), String>,
    },
    SnapshotRefreshed {
        request_id: u64,
        app_type: AppType,
        result: Result<ProxySnapshot, String>,
    },
}

/// Whether the proxy's state is asked for: somebody can be asked, and nobody
/// was.
pub open spec fn asks_snapshot(tracker: RequestTracker, link: Link) -> bool {
    link != Link::Missing && tracker.active is None
}

pub open spec fn after_snapshot_asked(tracker: RequestTracker, link: Link) -> RequestTracker {
    if !asks_snapshot(tracker, link) {
        tracker
    } else if link == Link::Open {
        tracker.started()
    } else {
        tracker.started().idle()
    }
}

pub open spec fn sent_after_snapshot_asked(
    sent: Seq<ProxyReq>,
    tracker: RequestTracker,
    link: Link,
    app_type: AppType,
) -> Seq<ProxyReq> {
    if asks_snapshot(tracker, link) && link == Link::Open {
        sent.push(ProxyReq::RefreshSnapshot { request_id: following(tracker.seq), app_type })
    } else {
        sent
    }
}

/// Asks for the proxy's state, unless that was asked for already.
pub fn queue_proxy_snapshot_refresh(
    tracker: &mut RequestTracker,
    worker: &mut Outbox<ProxyReq>,
    app_type: &AppType,
)
    ensures
        final(worker).link == old(worker).link,
        *final(tracker) == after_snapshot_asked(*old(tracker), old(worker).link),
        final(worker).sent@ == sent_after_snapshot_asked(
            old(worker).sent@,
            *old(tracker),
            old(worker).link,
            *app_type,
        ),
{
    if worker.is_missing() {
        return ;
    }
    if tracker.active.is_some() {
        return ;
    }
    let request_id = tracker.start();
    if !worker.send(ProxyReq::RefreshSnapshot { request_id, app_type: *app_type }) {
        tracker.cancel();
    }
}

/// Asks for the proxy's state once another application is shown, in place of
/// what was asked for before.
pub fn queue_proxy_snapshot_refresh_after_app_switch(
    tracker: &mut RequestTracker,
    worker: &mut Outbox<ProxyReq>,
    before_app_type: &AppType,
    app_type: &AppType,
    action_succeeded: bool,
)
    ensures
        final(worker).link == old(worker).link,
        if !action_succeeded || *before_app_type == *app_type {
            &&& *final(tracker) == *old(tracker)
            &&& final(worker).sent@ == old(worker).sent@
        } else {
            &&& *final(tracker) == after_snapshot_asked(old(tracker).idle(), old(worker).link)
            &&& final(worker).sent@ == sent_after_snapshot_asked(
                old(worker).sent@,
                old(tracker).idle(),
                old(worker).link,
                *app_type,
            )
        },
{
    if !action_succeeded || *before_app_type == *app_type {
        return ;
    }
    tracker.cancel();
    queue_proxy_snapshot_refresh(tracker, worker, app_type);
}

/// What is left to do after an answer of the proxy worker.
#[derive(Debug, Clone, Copy, PartialEq, Eq, Structural)]
pub enum ProxyStep {
    Done,
    /// The proxy serves an application, or serves it no more: everything has to
    /// be loaded anew.
    Reload { app_type: AppType, enabled: bool },
}

pub open spec fn without_proxy_loading(overlay: OverlayView) -> OverlayView {
    if overlay matches OverlayView::Loading { kind, .. } && kind == LoadingKind::Proxy {
        OverlayView::Absent
    } else {
        overlay
    }
}

/// What is made of an answer. One that is not waited for counts for nothing;
/// the state of the proxy counts only for the application that is shown.
pub open spec fn proxy_received(
    app: AppView,
    data: UiDataView,
    loading: RequestTracker,
    refresh: RequestTracker,
    msg: ProxyMsg,
) -> (AppView, UiDataView, ProxyStep) {
    match msg {
        ProxyMsg::ManagedSessionFinished { request_id, app_type, enabled, result } => {
            let closed = AppView { overlay: without_proxy_loading(app.overlay), ..app };
            if loading.active != Some(request_id) {
                (app, data, ProxyStep::Done)
            } else {
                match result {
                    Ok(()) => (closed, data, ProxyStep::Reload { app_type, enabled }),
                    Err(error) => (
                        closed.told(ToastKind::Error, TextView::verbatim(error@)),
                        data,
                        ProxyStep::Done,
                    ),
                }
            }
        },
        ProxyMsg::SnapshotRefreshed { request_id, app_type, result } => match result {
            Ok(proxy) => if refresh.active == Some(request_id) && app.app_type == app_type {
                (
                    AppView {
                        proxy: app.proxy.observing(
                            proxy.estimated_input_tokens_total,
                            proxy.estimated_output_tokens_total,
                        ),
                        ..app
                    },
                    UiDataView { proxy, ..data },
                    ProxyStep::Done,
                )
            } else {
                (app, data, ProxyStep::Done)
            },
            Err(_) => (app, data, ProxyStep::Done),
        },
    }
}

fn take_managed_session(
    app: &mut App,
    app_type: AppType,
    enabled: bool,
    result: Result<(), String>,
) -> (step: ProxyStep)
    ensures
        ({
            let closed = AppView {
                overlay: without_proxy_loading(old(app)@.overlay),
                ..old(app)@
            };
            match result {
                Ok(()) => final(app)@ == closed && step == (ProxyStep::Reload {
                    app_type,
                    enabled,
                }),
                Err(error) => final(app)@ == closed.told(
                    ToastKind::Error,
                    TextView::verbatim(error@),
                ) && step == ProxyStep::Done,
            }
        }),
{
    let loading = match &app.overlay {
        Overlay::Loading { kind: LoadingKind::Proxy, .. } => true,
        _ => false,
    };
    if loading {
        app.overlay = Overlay::Absent;
    }
    match result {
        Ok(()) => ProxyStep::Reload { app_type, enabled },
        Err(error) => {
            app.push_toast(Text::verbatim(error.as_str()), ToastKind::Error);
            ProxyStep::Done
        },
    }
}

/// Which session is waited for once an answer has come.
pub open spec fn after_session_answer(loading: RequestTracker, msg: ProxyMsg) -> RequestTracker {
    match msg {
        ProxyMsg::ManagedSessionFinished { request_id, .. } => if loading.active == Some(
            request_id,
        ) {
            loading.idle()
        } else {
            loading
        },
        _ => loading,
    }
}

/// Which state of the proxy is waited for once an answer has come.
pub open spec fn after_snapshot_answer(refresh: RequestTracker, msg: ProxyMsg) -> RequestTracker {
    match msg {
        ProxyMsg::SnapshotRefreshed { request_id, .. } => if refresh.active == Some(request_id) {
            refresh.idle()
        } else {
            refresh
        },
        _ => refresh,
    }
}

/// The proxy worker has answered.
pub fn handle_proxy_msg(
    app: &mut App,
    data: &mut UiData,
    proxy_loading: &mut RequestTracker,
    proxy_snapshot_refresh: &mut RequestTracker,
    msg: ProxyMsg,
) -> (step: ProxyStep)
    ensures
        (final(app)@, final(data)@, step) == proxy_received(
            old(app)@,
            old(data)@,
            *old(proxy_loading),
            *old(proxy_snapshot_refresh),
            msg,
        ),
        *final(proxy_loading) == after_session_answer(*old(proxy_loading), msg),
        *final(proxy_snapshot_refresh) == after_snapshot_answer(*old(proxy_snapshot_refresh), msg),
{
    match msg {
        ProxyMsg::ManagedSessionFinished { request_id, app_type, enabled, result } => {
            if !proxy_loading.finish_if_active(request_id) {
                return ProxyStep::Done;
            }
            take_managed_session(app, app_type, enabled, result)
        },
        ProxyMsg::SnapshotRefreshed { request_id, app_type, result } => {
            if !proxy_snapshot_refresh.finish_if_active(request_id) {
                return ProxyStep::Done;
            }
            if app.app_type == app_type {
                if let Ok(proxy) = result {
                    data.proxy = proxy;
                    app.observe_proxy_token_activity(
                        proxy.estimated_input_tokens_total,
                        proxy.estimated_output_tokens_total,
                    );
                }
            }
            ProxyStep::Done
        },
    }
}

/// What becomes of data that was loaded anew once the proxy serves an
/// application, or does so no longer.
pub open spec fn proxy_reloaded(
    before: AppView,
    shown: UiData,
    refresh: RequestTracker,
    served: (AppType, bool),
    loaded: Result<UiData, String>,
    after: AppView,
    shown_after: UiData,
    refresh_after: RequestTracker,
    result: Result<CacheInvalidation, String>,
) -> bool {
    match loaded {
        Err(error) => {
            &&& result == Err::<CacheInvalidation, String>(error)
            &&& after == before
            &&& shown_after@ == shown@
            &&& refresh_after == refresh
        },
        Ok(loaded) => {
            &&& result == Ok::<CacheInvalidation, String>(CacheInvalidation::DataReloaded)
            &&& shown_after == loaded
            &&& refresh_after == refresh.idle()
            &&& after == (AppView {
                proxy: before.proxy.counting_from(
                    loaded.proxy.estimated_input_tokens_total,
                    loaded.proxy.estimated_output_tokens_total,
                ),
                ..before
            }).told(
                ToastKind::Success,
                TextView::plain(
                    TextKey::ProxyManagedCurrentAppUpdated {
                        app_type: served.0,
                        enabled: served.1,
                    },
                ),
            )
        },
    }
}

/// Everything was loaded anew after the proxy began or ceased to serve an
/// application. The proxy's state need not be asked for any more.
pub fn finish_proxy_reload(
    app: &mut App,
    data: &mut UiData,
    proxy_snapshot_refresh: &mut RequestTracker,
    app_type: AppType,
    enabled: bool,
    loaded: Result<UiData, String>,
) -> (result: Result<CacheInvalidation, String>)
    ensures
        proxy_reloaded(
            old(app)@,
            *old(data),
            *old(proxy_snapshot_refresh),
            (app_type, enabled),
            loaded,
            final(app)@,
            *final(data),
            *final(proxy_snapshot_refresh),
            result,
        ),
{
    match loaded {
        Err(error) => Err(error),
        Ok(loaded) => {
            *data = loaded;
            proxy_snapshot_refresh.cancel();
            app.reset_proxy_activity(
                data.proxy.estimated_input_tokens_total,
                data.proxy.estimated_output_tokens_total,
            );
            app.push_toast(
                Text::plain(TextKey::ProxyManagedCurrentAppUpdated { app_type, enabled }),
                ToastKind::Success,
            );
            Ok(CacheInvalidation::DataReloaded)
        },
    }
}

/// What is answered where the proxy worker cannot work at all.
pub fn refuse_proxy_req(req: ProxyReq, error: String) -> (msg: ProxyMsg)
    ensures
        msg == (match req {
            ProxyReq::SetManagedSessionForCurrentApp { request_id, app_type, enabled } => {
                ProxyMsg::ManagedSessionFinished {
                    request_id,
                    app_type,
                    enabled,
                    result: Err(error),
                }
            },
            ProxyReq::RefreshSnapshot { request_id, app_type } => ProxyMsg::SnapshotRefreshed {
                request_id,
                app_type,
                result: Err(error),
            },
        }),
{
    match req {
        ProxyReq::SetManagedSessionForCurrentApp { request_id, app_type, enabled } => {
            ProxyMsg::ManagedSessionFinished { request_id, app_type, enabled, result: Err(error) }
        },
        ProxyReq::RefreshSnapshot { request_id, app_type } => ProxyMsg::SnapshotRefreshed {
            request_id,
            app_type,
            result: Err(error),
        },
    }
}

/// The light that flashes when the proxy opens.
#[derive(Debug, Clone, Copy, PartialEq, Eq, Structural)]
pub struct ProxyOpenFlash {
    pub playing: bool,
    /// The change that it flashed for last.
    pub started_tick: Option<u64>,
}

impl Default for ProxyOpenFlash {
    fn default() -> (flash: ProxyOpenFlash)
        ensures
            flash == (ProxyOpenFlash { playing: false, started_tick: None }),
    {
        ProxyOpenFlash { playing: false, started_tick: None }
    }
}

impl ProxyOpenFlash {
    /// Whether a change is worth a flash: the proxy opens, and there was none
    /// for this change.
    pub open spec fn wants(self, transition: Option<ProxyVisualTransition>) -> bool {
        transition matches Some(change) && change.to_on && self.started_tick != Some(
            change.started_tick,
        )
    }

    /// What a change leads to.
    pub open spec fn flashed(self, transition: Option<ProxyVisualTransition>, after: Self, begins: bool) -> bool {
        &&& begins == self.wants(transition)
        &&& after == (if begins {
            ProxyOpenFlash {
                playing: true,
                started_tick: Some(transition->0.started_tick),
            }
        } else {
            self
        })
    }

    /// The result tells whether a flash begins, in place of one that plays.
    pub fn sync(&mut self, transition: Option<ProxyVisualTransition>) -> (begins: bool)
        ensures
            old(self).flashed(transition, *final(self), begins),
    {
        match transition {
            None => false,
            Some(change) => {
                let flashed = match self.started_tick {
                    Some(tick) => tick == change.started_tick,
                    None => false,
                };
                if change.to_on && !flashed {
                    self.playing = true;
                    self.started_tick = Some(change.started_tick);
                    true
                } else {
                    false
                }
            },
        }
    }

    /// A frame of the flash was drawn.
    pub fn drawn(&mut self, done: bool)
        ensures
            *final(self) == (ProxyOpenFlash {
                playing: old(self).playing && !done,
                ..*old(self)
            }),
    {
        if done {
            self.playing = false;
        }
    }

    pub fn active(&self) -> (result: bool)
        ensures
            result == self.playing,
    {
        self.playing
    }
}

/// Each opening of the proxy flashes once.
pub proof fn openings_flash_once(flash: ProxyOpenFlash, change: ProxyVisualTransition)
    requires
        flash.wants(Some(change)),
    ensures
        !(ProxyOpenFlash { playing: true, started_tick: Some(change.started_tick) }).wants(
            Some(change),
        ),
        !(ProxyOpenFlash { playing: false, started_tick: Some(change.started_tick) }).wants(
            Some(change),
        ),
{
}

/// At most one refresh of the proxy's state is under way.
pub proof fn one_snapshot_at_a_time(
    tracker: RequestTracker,
    link: Link,
    sent: Seq<ProxyReq>,
    app_type: AppType,
)
    requires
        tracker.active is Some,
    ensures
        after_snapshot_asked(tracker, link) == tracker,
        sent_after_snapshot_asked(sent, tracker, link, app_type) == sent,
{
}

} // verus!
