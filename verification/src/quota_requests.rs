//! Asking for quotas, and what is made of the answers.

use vstd::prelude::*;

use crate::app::{App, AppView};
use crate::base::{views, Duplicate};
use crate::data::{
    current_quota_target, quota_target, quota_target_for_current_provider,
    quota_target_for_provider, ProviderRowView, UiData, UiDataView,
};
use crate::outbox::{Link, Outbox, CHANNEL_CLOSED};
use crate::quota::{
    ProviderUsageQuota, ProviderUsageQuotaView, QuotaStatesView, QuotaTarget, QuotaTargetView,
};
use crate::text::{Text, TextKey, TextView, ToastKind};

verus! {

/// Ticks between two automatic requests for the same provider: five minutes.
pub const QUOTA_REFRESH_INTERVAL_TICKS: u64 = 1500;

/// A request to the worker that asks for quotas.
#[derive(Debug)]
pub struct QuotaReq {
    pub target: QuotaTarget,
}

impl View for QuotaReq {
    type V = QuotaTargetView;

    open spec fn view(&self) -> QuotaTargetView {
        self.target@
    }
}

/// An answer of the worker that asks for quotas.
#[derive(Debug)]
pub struct QuotaMsg {
    pub target: QuotaTarget,
    pub result: Result<ProviderUsageQuota, String>,
}

/// What asking for a quota leads to.
pub struct QuotaAsking {
    pub app: AppView,
    pub quota: QuotaStatesView,
    pub request: Option<QuotaTargetView>,
}

/// Asks for a quota. What the user asked for is acknowledged, also where there
/// is no worker to ask; a worker that has stopped is reported in any case.
pub open spec fn quota_asking(
    app: AppView,
    quota: QuotaStatesView,
    link: Link,
    target: QuotaTargetView,
    manual: bool,
) -> QuotaAsking {
    match link {
        Link::Missing => QuotaAsking {
            app: if manual {
                app.told(
                    ToastKind::Warning,
                    TextView::with(
                        TextKey::QuotaWorkerUnavailable,
                        "quota worker is not running"@,
                    ),
                )
            } else {
                app
            },
            quota,
            request: None,
        },
        Link::Closed => QuotaAsking {
            app: app.told(
                ToastKind::Warning,
                TextView::with(TextKey::QuotaRefreshFailed, CHANNEL_CLOSED@),
            ),
            quota: quota.waiting(target, manual).failed(target, CHANNEL_CLOSED@),
            request: None,
        },
        Link::Open => QuotaAsking {
            app: if manual {
                app.told(
                    ToastKind::Info,
                    TextView::with(TextKey::QuotaRefreshStarted, target.provider_name),
                )
            } else {
                app
            },
            quota: quota.waiting(target, manual),
            request: Some(target),
        },
    }
}

/// Nothing is asked for.
pub open spec fn not_asking(app: AppView, quota: QuotaStatesView) -> QuotaAsking {
    QuotaAsking { app, quota, request: None }
}

/// What has been sent after a quota was asked for.
pub open spec fn sent_after_asking(
    sent: Seq<QuotaTargetView>,
    asking: QuotaAsking,
) -> Seq<QuotaTargetView> {
    match asking.request {
        Some(target) => sent.push(target),
        None => sent,
    }
}

pub fn queue_quota_refresh(
    app: &mut App,
    data: &mut UiData,
    worker: &mut Outbox<QuotaReq>,
    target: QuotaTarget,
    manual: bool,
)
    ensures
        ({
            let asking = quota_asking(
                old(app)@,
                old(data)@.quota,
                old(worker).link,
                target@,
                manual,
            );
            &&& final(app)@ == asking.app
            &&& final(data)@ == (UiDataView { quota: asking.quota, ..old(data)@ })
            &&& final(worker).link == old(worker).link
            &&& views(final(worker).sent@) == sent_after_asking(views(old(worker).sent@), asking)
        }),
{
    if worker.is_missing() {
        if manual {
            app.push_toast(
                Text::with(TextKey::QuotaWorkerUnavailable, "quota worker is not running"),
                ToastKind::Warning,
            );
        }
        return ;
    }
    data.quota.mark_loading(target.duplicate(), manual);
    let request = QuotaReq { target: target.duplicate() };
    if worker.send(request) {
        assert(views(worker.sent@) =~= views(old(worker).sent@).push(target@));
        if manual {
            app.push_toast(
                Text::with(TextKey::QuotaRefreshStarted, target.provider_name.as_str()),
                ToastKind::Info,
            );
        }
    } else {
        data.quota.finish_error(target, CHANNEL_CLOSED.to_owned());
        app.push_toast(
            Text::with(TextKey::QuotaRefreshFailed, CHANNEL_CLOSED),
            ToastKind::Warning,
        );
    }
}

/// Whether the quota of the current provider is to be asked for by itself:
/// the provider is another one, nothing is known of it, or the last request
/// is long enough ago.
pub open spec fn quota_is_due(app: AppView, quota: QuotaStatesView, target: QuotaTargetView) -> bool {
    ||| app.quota_auto_target_key != Some(target.key(app.names))
    ||| !quota.states.contains_key(target.provider_id)
    ||| match app.quota_last_auto_tick {
        None => true,
        Some(last) => app.tick >= last + QUOTA_REFRESH_INTERVAL_TICKS,
    }
}

/// Asks for the quota of the current provider where it is due.
pub open spec fn auto_asking(app: AppView, data: UiDataView, link: Link) -> QuotaAsking {
    match current_quota_target(app.app_type, data) {
        None => not_asking(
            AppView { quota_auto_target_key: None, quota_last_auto_tick: None, ..app },
            data.quota,
        ),
        Some(target) => if quota_is_due(app, data.quota, target) {
            quota_asking(
                AppView {
                    quota_auto_target_key: Some(target.key(app.names)),
                    quota_last_auto_tick: Some(app.tick),
                    ..app
                },
                data.quota,
                link,
                target,
                false,
            )
        } else {
            not_asking(app, data.quota)
        },
    }
}

pub fn queue_current_quota_refresh_if_due(
    app: &mut App,
    data: &mut UiData,
    worker: &mut Outbox<QuotaReq>,
)
    ensures
        ({
            let asking = auto_asking(old(app)@, old(data)@, old(worker).link);
            &&& final(app)@ == asking.app
            &&& final(data)@ == (UiDataView { quota: asking.quota, ..old(data)@ })
            &&& final(worker).link == old(worker).link
            &&& views(final(worker).sent@) == sent_after_asking(views(old(worker).sent@), asking)
        }),
{
    let target = match quota_target_for_current_provider(&app.app_type, data) {
        Some(target) => target,
        None => {
            app.quota_auto_target_key = None;
            app.quota_last_auto_tick = None;
            return ;
        },
    };
    let target_key = target.cache_key(&app.names);
    let target_changed = match &app.quota_auto_target_key {
        Some(key) => *key != target_key,
        None => true,
    };
    let target_missing_state = data.quota.state_for(&target.provider_id).is_none();
    let due = match app.quota_last_auto_tick {
        None => true,
        Some(last) => app.tick.saturating_sub(last) >= QUOTA_REFRESH_INTERVAL_TICKS,
    };
    if target_changed || target_missing_state || due {
        app.quota_auto_target_key = Some(target_key);
        app.quota_last_auto_tick = Some(app.tick);
        queue_quota_refresh(app, data, worker, target, false);
    }
}

/// The first provider of this name.
pub open spec fn row_of(rows: Seq<ProviderRowView>, id: Seq<char>) -> Option<ProviderRowView>
    decreases rows.len(),
{
    if rows.len() == 0 {
        None
    } else if rows[0].id == id {
        Some(rows[0])
    } else {
        row_of(rows.drop_first(), id)
    }
}

/// Asks for a provider's quota because the user wants to see it. A provider
/// that is not listed is passed over; one whose quota nobody knows is said to
/// have none.
pub open spec fn manual_asking(
    app: AppView,
    data: UiDataView,
    link: Link,
    provider_id: Seq<char>,
) -> QuotaAsking {
    match row_of(data.providers.rows, provider_id) {
        None => not_asking(app, data.quota),
        Some(row) => match quota_target(app.app_type, row) {
            None => not_asking(
                app.told(ToastKind::Info, TextView::plain(TextKey::QuotaNotAvailable)),
                data.quota,
            ),
            Some(target) => quota_asking(app, data.quota, link, target, true),
        },
    }
}

pub fn queue_provider_quota_refresh(
    app: &mut App,
    data: &mut UiData,
    worker: &mut Outbox<QuotaReq>,
    provider_id: &String,
)
    ensures
        ({
            let asking = manual_asking(old(app)@, old(data)@, old(worker).link, provider_id@);
            &&& final(app)@ == asking.app
            &&& final(data)@ == (UiDataView { quota: asking.quota, ..old(data)@ })
            &&& final(worker).link == old(worker).link
            &&& views(final(worker).sent@) == sent_after_asking(views(old(worker).sent@), asking)
        }),
{
    let ghost rows = views(data.providers.rows@);
    let mut i: usize = 0;
    proof {
        assert(rows.skip(0) =~= rows);
    }
    while i < data.providers.rows.len() && data.providers.rows[i].id != *provider_id
        invariant
            rows == views(data.providers.rows@),
            i <= rows.len(),
            row_of(rows, provider_id@) == row_of(rows.skip(i as int), provider_id@),
        decreases rows.len() - i,
    {
        proof {
            assert(rows.skip(i as int)[0] == data.providers.rows@[i as int]@);
            assert(rows.skip(i as int).drop_first() =~= rows.skip(i + 1));
        }
        i = i + 1;
    }
    if i == data.providers.rows.len() {
        return ;
    }
    proof {
        assert(rows.skip(i as int)[0] == data.providers.rows@[i as int]@);
    }
    match quota_target_for_provider(&app.app_type, &data.providers.rows[i]) {
        Some(target) => queue_quota_refresh(app, data, worker, target, true),
        None => app.push_toast(Text::plain(TextKey::QuotaNotAvailable), ToastKind::Info),
    }
}

/// What is made of an answer. One that does not belong to the provider's
/// present target is dropped. Success is announced to the user only where the
/// user had asked; failure always is.
pub open spec fn quota_received(
    app: AppView,
    quota: QuotaStatesView,
    target: QuotaTargetView,
    result: Result<ProviderUsageQuotaView, Seq<char>>,
) -> (AppView, QuotaStatesView) {
    if !quota.current(target) {
        (app, quota)
    } else {
        match result {
            Ok(answer) => (
                if quota.asked_by_user(target) {
                    app.told(
                        ToastKind::Success,
                        TextView::with(TextKey::QuotaRefreshFinished, target.provider_name),
                    )
                } else {
                    app
                },
                quota.answered(target, answer),
            ),
            Err(error) => (
                app.told(
                    ToastKind::Warning,
                    TextView::with(TextKey::QuotaRefreshFailed, error),
                ),
                quota.failed(target, error),
            ),
        }
    }
}

pub fn handle_quota_msg(app: &mut App, data: &mut UiData, msg: QuotaMsg)
    ensures
        ({
            let result = match msg.result {
                Ok(quota) => Ok::<_, Seq<char>>(quota@),
                Err(error) => Err(error@),
            };
            let after = quota_received(old(app)@, old(data)@.quota, msg.target@, result);
            &&& final(app)@ == after.0
            &&& final(data)@ == (UiDataView { quota: after.1, ..old(data)@ })
        }),
{
    let target = msg.target;
    if !data.quota.target_is_current(&target) {
        return ;
    }
    let was_manual = data.quota.has_manual_loading(&target);
    match msg.result {
        Ok(quota) => {
            let provider_name = target.provider_name.duplicate();
            data.quota.finish(target, quota);
            if was_manual {
                app.push_toast(
                    Text::with(TextKey::QuotaRefreshFinished, provider_name.as_str()),
                    ToastKind::Success,
                );
            }
        },
        Err(error) => {
            let message = Text::with(TextKey::QuotaRefreshFailed, error.as_str());
            data.quota.finish_error(target, error);
            app.push_toast(message, ToastKind::Warning);
        },
    }
}

/// Quotas are not asked for over and over: once they were asked for, they are
/// not due again before the interval is over, unless the provider changes.
pub proof fn automatic_requests_are_spaced(app: AppView, data: UiDataView, link: Link, later: u64)
    requires
        link == Link::Open,
        current_quota_target(app.app_type, data) is Some,
        quota_is_due(app, data.quota, current_quota_target(app.app_type, data)->0),
        app.tick <= later < app.tick + QUOTA_REFRESH_INTERVAL_TICKS,
    ensures
        ({
            let asking = auto_asking(app, data, link);
            let target = current_quota_target(app.app_type, data)->0;
            !quota_is_due(AppView { tick: later, ..asking.app }, asking.quota, target)
        }),
{
}

/// An answer to a request that the user did not make never raises a notice,
/// unless it failed.
pub proof fn automatic_success_stays_quiet(
    app: AppView,
    quota: QuotaStatesView,
    target: QuotaTargetView,
    answer: ProviderUsageQuotaView,
)
    requires
        !quota.asked_by_user(target),
    ensures
        quota_received(app, quota, target, Ok(answer)).0 == app,
{
}

} // verus!
