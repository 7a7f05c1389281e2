//! What the proxy, the accounts, the synchronisation and the quotas are asked
//! for, and what is made of their answers, field by field.

use vstd::prelude::*;

use crate::app::{AppView, ConfirmAction, LoadingKind, OverlayView, ProxyIndicator, ProxyVisualTransition};
use crate::app_type::AppType;
use crate::cache::CacheInvalidation;
use crate::data::{UiData, UiDataView};
use crate::managed_auth::{
    auth_received, some_ticks, without_account, AccountView, AuthStatusView, DeviceCode, ManagedAccount, ManagedAuthMsg,
    ManagedAuthView,
};
use crate::outbox::Link;
use crate::proxy::{
    after_session_answer, after_snapshot_answer, after_snapshot_asked, proxy_received,
    proxy_reloaded, sent_after_snapshot_asked, ProxyMsg, ProxyReq, ProxyStep,
};
use crate::report_laws::{notices, only_told};
use crate::request::RequestTracker;
use crate::text::{TextKey, TextView, ToastKind, ToastView};

verus! {

/// Something waits over the screens for this service.
pub open spec fn waits_for(overlay: OverlayView, service: LoadingKind) -> bool {
    overlay matches OverlayView::Loading { kind, .. } && kind == service
}

// The proxy.

/// The answer on a session that is waited for ends the wait and takes away what
/// waits over the screens. Where the proxy does as asked everything is loaded
/// anew, for that application; where it does not, its reason is told.
pub proof fn awaited_sessions_are_settled(
    before: AppView,
    data: UiDataView,
    loading: RequestTracker,
    refresh: RequestTracker,
    msg: ProxyMsg,
)
    requires
        msg matches ProxyMsg::ManagedSessionFinished { request_id, .. } && loading.active == Some(
            request_id,
        ),
    ensures
        ({
            let (after, data_after, step) = proxy_received(before, data, loading, refresh, msg);
            &&& only_told(before, after)
            &&& data_after == data
            &&& after_session_answer(loading, msg) == (RequestTracker {
                seq: loading.seq,
                active: None,
            })
            &&& after_snapshot_answer(refresh, msg) == refresh
            &&& waits_for(before.overlay, LoadingKind::Proxy) ==> after.overlay is Absent
            &&& !waits_for(before.overlay, LoadingKind::Proxy) ==> after.overlay
                == before.overlay
            &&& msg->ManagedSessionFinished_result matches Err(error) ==> {
                &&& step is Done
                &&& notices(after, ToastKind::Error, TextKey::Verbatim, seq![error@])
            }
            &&& msg->ManagedSessionFinished_result is Ok ==> {
                &&& after.toast == before.toast
                &&& step == (ProxyStep::Reload {
                    app_type: msg->ManagedSessionFinished_app_type,
                    enabled: msg->ManagedSessionFinished_enabled,
                })
            }
        }),
{
}

/// An answer on a session that nobody waits for changes nothing.
pub proof fn unawaited_sessions_are_ignored(
    before: AppView,
    data: UiDataView,
    loading: RequestTracker,
    refresh: RequestTracker,
    msg: ProxyMsg,
)
    requires
        msg matches ProxyMsg::ManagedSessionFinished { request_id, .. } && loading.active != Some(
            request_id,
        ),
    ensures
        proxy_received(before, data, loading, refresh, msg) == (before, data, ProxyStep::Done),
        after_session_answer(loading, msg) == loading,
        after_snapshot_answer(refresh, msg) == refresh,
{
}

/// How much two totals differ, where the later is the larger.
pub open spec fn grown(last: Option<u64>, total: u64, by: u64) -> bool {
    match last {
        Some(last) => if last <= total {
            last + by == total
        } else {
            by == 0
        },
        None => by == 0,
    }
}

/// The state of the proxy that is waited for is shown where its application is
/// looked at; the traffic is what its totals have grown by. A state that failed,
/// that is not waited for or that belongs to another application is not shown.
pub proof fn awaited_states_are_shown(
    before: AppView,
    data: UiDataView,
    loading: RequestTracker,
    refresh: RequestTracker,
    msg: ProxyMsg,
)
    requires
        msg is SnapshotRefreshed,
    ensures
        ({
            let (after, data_after, step) = proxy_received(before, data, loading, refresh, msg);
            let awaited = refresh.active == Some(msg->SnapshotRefreshed_request_id);
            &&& step is Done
            &&& after_session_answer(loading, msg) == loading
            &&& after_snapshot_answer(refresh, msg) == (if awaited {
                RequestTracker { seq: refresh.seq, active: None }
            } else {
                refresh
            })
            &&& !awaited || before.app_type != msg->SnapshotRefreshed_app_type
                || msg->SnapshotRefreshed_result is Err ==> after == before && data_after == data
            &&& awaited && before.app_type == msg->SnapshotRefreshed_app_type ==> (
            msg->SnapshotRefreshed_result matches Ok(proxy) ==> {
                &&& data_after == (UiDataView { proxy, ..data })
                &&& after == (AppView { proxy: after.proxy, ..before })
                &&& after.proxy.last_input_tokens == Some(proxy.estimated_input_tokens_total)
                &&& after.proxy.last_output_tokens == Some(proxy.estimated_output_tokens_total)
                &&& grown(
                    before.proxy.last_input_tokens,
                    proxy.estimated_input_tokens_total,
                    after.proxy.input_activity,
                )
                &&& grown(
                    before.proxy.last_output_tokens,
                    proxy.estimated_output_tokens_total,
                    after.proxy.output_activity,
                )
                &&& after.proxy == (ProxyIndicator {
                    last_input_tokens: after.proxy.last_input_tokens,
                    last_output_tokens: after.proxy.last_output_tokens,
                    input_activity: after.proxy.input_activity,
                    output_activity: after.proxy.output_activity,
                    ..before.proxy
                })
            })
        }),
{
}

/// Data that was loaded anew is shown: traffic is counted from its totals, no
/// state is waited for, and the user is told which application the proxy serves
/// now. Where it could not be loaded, nothing changes.
pub proof fn sessions_end_with_new_data(
    before: AppView,
    shown: UiData,
    refresh: RequestTracker,
    served: (AppType, bool),
    loaded: Result<UiData, String>,
    after: AppView,
    shown_after: UiData,
    refresh_after: RequestTracker,
    result: Result<CacheInvalidation, String>,
)
    requires
        proxy_reloaded(
            before,
            shown,
            refresh,
            served,
            loaded,
            after,
            shown_after,
            refresh_after,
            result,
        ),
    ensures
        loaded matches Err(error) ==> {
            &&& result == Err::<CacheInvalidation, String>(error)
            &&& after == before
            &&& shown_after@ == shown@
            &&& refresh_after == refresh
        },
        loaded matches Ok(new) ==> {
            &&& result matches Ok(what)
            &&& what is DataReloaded
            &&& shown_after == new
            &&& refresh_after == (RequestTracker { seq: refresh.seq, active: None })
            &&& after == (AppView { proxy: after.proxy, toast: after.toast, ..before })
            &&& after.proxy.last_input_tokens == Some(new.proxy.estimated_input_tokens_total)
            &&& after.proxy.last_output_tokens == Some(new.proxy.estimated_output_tokens_total)
            &&& after.proxy.input_activity == 0
            &&& after.proxy.output_activity == 0
            &&& after.proxy.visual_state == before.proxy.visual_state
            &&& after.proxy.transition == before.proxy.transition
            &&& notices(
                after,
                ToastKind::Success,
                TextKey::ProxyManagedCurrentAppUpdated { app_type: served.0, enabled: served.1 },
                seq![],
            )
        },
{
}

/// The proxy's state is asked for, for this application and under a new number,
/// where somebody can be asked and nothing is waited for; it is waited for only
/// where the request went out.
pub proof fn states_are_asked_for(
    tracker: RequestTracker,
    link: Link,
    sent: Seq<ProxyReq>,
    app_type: AppType,
)
    ensures
        ({
            let after = after_snapshot_asked(tracker, link);
            let sent_after = sent_after_snapshot_asked(sent, tracker, link, app_type);
            &&& tracker.active is Some || link == Link::Missing ==> after == tracker && sent_after
                == sent
            &&& tracker.active is None && link != Link::Missing ==> {
                &&& tracker.seq < u64::MAX ==> after.seq == tracker.seq + 1
                &&& link == Link::Closed ==> after.active is None && sent_after == sent
                &&& link == Link::Open ==> after.active == Some(after.seq) && sent_after == sent
                    + seq![ProxyReq::RefreshSnapshot { request_id: after.seq, app_type }]
            }
        }),
{
    let after = after_snapshot_asked(tracker, link);
    if tracker.active is None && link == Link::Open {
        assert(sent_after_snapshot_asked(sent, tracker, link, app_type) =~= sent + seq![
            ProxyReq::RefreshSnapshot { request_id: after.seq, app_type },
        ]);
    }
}

/// The indicator changes when the proxy is seen otherwise than before, and the
/// change is noted from when it was seen; the first sight is no change.
pub proof fn changes_of_the_proxy_are_noted(indicator: ProxyIndicator, on: bool, tick: u64)
    ensures
        ({
            let after = indicator.seeing(on, tick);
            &&& after.visual_state == Some(on)
            &&& after == (ProxyIndicator {
                visual_state: after.visual_state,
                transition: after.transition,
                ..indicator
            })
            &&& indicator.visual_state == Some(!on) ==> after.transition == Some(
                ProxyVisualTransition { from_on: !on, to_on: on, started_tick: tick },
            )
            &&& indicator.visual_state != Some(!on) ==> after.transition == indicator.transition
        }),
{
}

// The accounts.

/// What a login leaves on screen once it is over: neither the notice that it
/// goes on, nor the question whether to call it off.
pub open spec fn login_left(before: AppView, after: AppView) -> bool {
    let asks = before.overlay matches OverlayView::Confirm { action, .. } && action
        == ConfirmAction::ManagedAuthCancelLogin;
    after.overlay == (if asks {
        OverlayView::Absent
    } else {
        before.overlay
    })
}

/// Nothing but the accounts and what the user is told differs.
pub open spec fn only_accounts(before: AppView, after: AppView) -> bool {
    after == (AppView { managed_auth: after.managed_auth, toast: after.toast, ..before })
}

/// The accounts that were asked for are shown. Where they cannot be had, what
/// is known stays if it is of the same service, and the reason is told.
pub proof fn accounts_are_shown(before: AppView, msg: ManagedAuthMsg)
    requires
        msg is Status,
    ensures
        ({
            let after = auth_received(before, msg);
            let shown = after.managed_auth;
            &&& only_accounts(before, after)
            &&& !shown.loading
            &&& shown == (ManagedAuthView {
                loading: false,
                status: shown.status,
                ..before.managed_auth
            })
            &&& msg->Status_result matches Ok(status) ==> {
                &&& shown.status == Some(status@)
                &&& after.toast == before.toast
            }
            &&& msg->Status_result matches Err(error) ==> {
                &&& notices(
                    after,
                    ToastKind::Warning,
                    TextKey::ManagedAuthRefreshFailed,
                    seq![error@],
                )
                &&& before.managed_auth.status matches Some(known) ==> {
                    &&& known.provider == msg->Status_auth_provider@ ==> shown.status == Some(
                        known,
                    )
                    &&& known.provider != msg->Status_auth_provider@ ==> shown.status is None
                }
                &&& before.managed_auth.status is None ==> shown.status is None
            }
        }),
{
}

/// The ticks that a time is counted in: at least one, and else the fewest that
/// cover it.
pub open spec fn lasts(seconds: u64, ticks: int) -> bool {
    if seconds * 1000 <= u64::MAX {
        &&& ticks >= 1
        &&& ticks * 200 >= seconds * 1000
        &&& ticks > 1 ==> (ticks - 1) * 200 < seconds * 1000
    } else {
        (ticks - 1) * 200 < u64::MAX <= ticks * 200
    }
}

proof fn lemma_lasts(seconds: u64)
    ensures
        lasts(seconds, some_ticks(seconds)),
        some_ticks(seconds) <= u64::MAX,
{
}

/// A login that has begun shows the code to enter and where, until it is over.
/// It is looked after at once, then once an interval, until its time is over.
pub proof fn logins_are_followed(before: AppView, msg: ManagedAuthMsg)
    requires
        msg is LoginStarted,
        msg->LoginStarted_result is Ok,
    ensures
        ({
            let after = auth_received(before, msg);
            let shown = after.managed_auth;
            let device = msg->LoginStarted_result->Ok_0;
            &&& only_accounts(before, after)
            &&& shown == (ManagedAuthView {
                loading: false,
                login: shown.login,
                ..before.managed_auth
            })
            &&& shown.login matches Some(login)
            &&& login.auth_provider == msg->LoginStarted_auth_provider@
            &&& login.device_code == device.device_code@
            &&& login.next_poll_tick == before.tick
            &&& lasts(device.interval, login.poll_interval_ticks as int)
            &&& login.expires_at_tick < u64::MAX ==> lasts(
                device.expires_in,
                login.expires_at_tick - before.tick,
            )
            &&& login.expires_at_tick == u64::MAX ==> exists|ticks: int| #[trigger]
                lasts(device.expires_in, ticks) && before.tick + ticks >= u64::MAX
            &&& after.toast == Some(
                ToastView {
                    message: TextView {
                        key: TextKey::ManagedAuthLoginInProgress,
                        args: seq![device.user_code@, device.verification_uri@],
                    },
                    kind: ToastKind::Info,
                    persistent: true,
                },
            )
        }),
{
    let device = msg->LoginStarted_result->Ok_0;
    lemma_lasts(device.interval);
    lemma_lasts(device.expires_in);
    assert(before.tick + some_ticks(device.expires_in) <= u64::MAX || before.tick + some_ticks(
        device.expires_in,
    ) >= u64::MAX);
}

/// A login that could not begin, or that failed while it was waited for, is over
/// and the reason is told. What is known of the accounts stays.
pub proof fn failed_logins_are_told(before: AppView, msg: ManagedAuthMsg, error: String)
    requires
        msg matches ManagedAuthMsg::LoginStarted { result, .. } ==> result
            == Err::<DeviceCode, String>(error),
        msg matches ManagedAuthMsg::LoginPolled { device_code, result, .. } ==> {
            &&& result is Err
            &&& result->Err_0 == error
            &&& before.managed_auth.login matches Some(login)
            &&& login.device_code == device_code@
        },
        msg is LoginStarted || msg is LoginPolled,
    ensures
        ({
            let after = auth_received(before, msg);
            &&& after == (AppView {
                managed_auth: ManagedAuthView {
                    loading: false,
                    login: None,
                    ..before.managed_auth
                },
                overlay: after.overlay,
                toast: after.toast,
                ..before
            })
            &&& login_left(before, after)
            &&& notices(
                after,
                ToastKind::Error,
                TextKey::ManagedAuthLoginFailed,
                seq![error@],
            )
        }),
{
}

/// A login that is not over yet, or that nobody waits for, changes nothing.
pub proof fn pending_logins_change_nothing(before: AppView, msg: ManagedAuthMsg)
    requires
        msg matches ManagedAuthMsg::LoginPolled { device_code, result, .. } && (result == Ok::<
            Option<ManagedAccount>,
            String,
        >(None) || !(before.managed_auth.login matches Some(login) && login.device_code
            == device_code@)),
    ensures
        auth_received(before, msg) == before,
{
}

proof fn lemma_without_account(accounts: Seq<AccountView>, id: Seq<char>)
    ensures
        ({
            let rest = without_account(accounts, id);
            rest == accounts.filter(|account: AccountView| account.id != id)
        }),
    decreases accounts.len(),
{
    reveal(Seq::filter);
    if accounts.len() > 0 {
        lemma_without_account(accounts.drop_last(), id);
    }
}

/// A login that succeeded is over. Its account stands first among those of its
/// service, in place of one with the same number, and the others stay in their
/// order; it becomes the one used where none was chosen. Accounts of another
/// service that is shown stay as they are.
pub proof fn new_accounts_stand_first(before: AppView, msg: ManagedAuthMsg)
    requires
        msg matches ManagedAuthMsg::LoginPolled { device_code, result, .. } && (result matches Ok(
            found,
        ) && found is Some) && (before.managed_auth.login matches Some(login) && login.device_code
            == device_code@),
    ensures
        ({
            let after = auth_received(before, msg);
            let service = msg->LoginPolled_auth_provider@;
            let account = msg->LoginPolled_result->Ok_0->0;
            let shown = after.managed_auth;
            let known = before.managed_auth.status;
            &&& after == (AppView {
                managed_auth: ManagedAuthView {
                    loading: false,
                    login: None,
                    accounts_idx: 0,
                    status: shown.status,
                    ..before.managed_auth
                },
                overlay: after.overlay,
                toast: after.toast,
                ..before
            })
            &&& login_left(before, after)
            &&& notices(
                after,
                ToastKind::Success,
                TextKey::ManagedAuthLoginFinished,
                seq![account.login@],
            )
            &&& known is None ==> shown.status == Some(
                AuthStatusView {
                    provider: service,
                    authenticated: true,
                    default_account_id: Some(account.id@),
                    migration_error: None,
                    accounts: seq![account@],
                },
            )
            &&& known is Some && known->0.provider != service ==> shown.status == known
            &&& known is Some && known->0.provider == service ==> {
                &&& shown.status matches Some(status)
                &&& status.provider == service
                &&& status.authenticated
                &&& status.migration_error == known->0.migration_error
                &&& known->0.default_account_id is None ==> status.default_account_id == Some(
                    account.id@,
                )
                &&& known->0.default_account_id is Some ==> status.default_account_id
                    == known->0.default_account_id
                &&& status.accounts == seq![account@] + known->0.accounts.filter(
                    |other: AccountView| other.id != account.id@,
                )
            }
        }),
{
    let account = msg->LoginPolled_result->Ok_0->0;
    if before.managed_auth.status is Some {
        lemma_without_account(before.managed_auth.status->0.accounts, account.id@);
    }
}

/// The accounts as they are after another was chosen, or one was removed, are
/// shown and that is told; an account that was removed is no longer bound. Where
/// it failed, the accounts stay and the reason is told.
pub proof fn account_changes_are_shown(before: AppView, msg: ManagedAuthMsg)
    ensures
        msg matches ManagedAuthMsg::DefaultSet { result, .. } ==> {
            let after = auth_received(before, msg);
            &&& only_accounts(before, after)
            &&& after.managed_auth == (ManagedAuthView {
                loading: false,
                status: match result {
                    Ok(status) => Some(status@),
                    Err(_) => before.managed_auth.status,
                },
                ..before.managed_auth
            })
            &&& result is Ok ==> notices(
                after,
                ToastKind::Success,
                TextKey::ManagedAuthDefaultUpdated,
                seq![],
            )
            &&& result matches Err(error) ==> notices(
                after,
                ToastKind::Error,
                TextKey::ManagedAuthDefaultFailed,
                seq![error@],
            )
        },
        msg matches ManagedAuthMsg::Removed { account_id, result, .. } ==> {
            let after = auth_received(before, msg);
            let bound = before.managed_auth.codex_oauth_binding;
            &&& only_accounts(before, after)
            &&& after.managed_auth == (ManagedAuthView {
                loading: false,
                status: match result {
                    Ok(status) => Some(status@),
                    Err(_) => before.managed_auth.status,
                },
                codex_oauth_binding: after.managed_auth.codex_oauth_binding,
                ..before.managed_auth
            })
            &&& result is Ok && bound == Some(account_id@)
                ==> after.managed_auth.codex_oauth_binding is None
            &&& result is Err || bound != Some(account_id@)
                ==> after.managed_auth.codex_oauth_binding == bound
            &&& result is Ok ==> notices(
                after,
                ToastKind::Success,
                TextKey::ManagedAuthAccountRemoved,
                seq![],
            )
            &&& result matches Err(error) ==> notices(
                after,
                ToastKind::Error,
                TextKey::ManagedAuthRemoveFailed,
                seq![error@],
            )
        },
{
}

} // verus!
