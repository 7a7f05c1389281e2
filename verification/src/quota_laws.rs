//! When quotas are asked for, and what is made of the answers, field by field.

use vstd::prelude::*;

use crate::app::AppView;
use crate::app_type::AppNamesView;
use crate::data::{first_current, ProviderRowView, UiDataView};
use crate::outbox::Link;
use crate::quota::{ProviderUsageQuotaView, QuotaStateView, QuotaStatesView, QuotaTargetView};
use crate::quota_requests::{
    auto_asking, manual_asking, quota_received, row_of, sent_after_asking, QuotaAsking,
};
use crate::report_laws::notices;
use crate::text::{TextKey, ToastKind};

verus! {

/// A quota is known, or asked for, under its provider: at this place, and not at
/// one that the provider was asked at before.
pub open spec fn known_at(quota: QuotaStatesView, target: QuotaTargetView) -> bool {
    quota.states.dom().contains(target.provider_id) && quota.states[target.provider_id].target
        == target
}

/// The figures that are known of a place.
pub open spec fn figures_at(
    quota: QuotaStatesView,
    target: QuotaTargetView,
) -> Option<ProviderUsageQuotaView> {
    if known_at(quota, target) {
        quota.states[target.provider_id].quota
    } else {
        None
    }
}

/// Only what is known of one provider differs.
pub open spec fn only_provider(
    before: QuotaStatesView,
    after: QuotaStatesView,
    provider_id: Seq<char>,
) -> bool {
    &&& after.states.dom() == before.states.dom().insert(provider_id)
    &&& forall|other: Seq<char>|
        other != provider_id && before.states.dom().contains(other)
            ==> after.states[other] == #[trigger] before.states[other]
}

/// Figures that were asked for are shown under their provider, and nothing is
/// waited for there. That is told only where the user asked.
pub proof fn quotas_asked_for_are_shown(
    before: AppView,
    quota: QuotaStatesView,
    target: QuotaTargetView,
    figures: ProviderUsageQuotaView,
)
    requires
        known_at(quota, target),
    ensures
        ({
            let (after, quota_after) = quota_received(before, quota, target, Ok(figures));
            let was = quota.states[target.provider_id];
            &&& only_provider(quota, quota_after, target.provider_id)
            &&& quota_after.states[target.provider_id] == (QuotaStateView {
                target,
                loading: false,
                manual: false,
                quota: Some(figures),
                error: None,
            })
            &&& after == (AppView { toast: after.toast, ..before })
            &&& was.loading && was.manual ==> notices(
                after,
                ToastKind::Success,
                TextKey::QuotaRefreshFinished,
                seq![target.provider_name],
            )
            &&& !(was.loading && was.manual) ==> after.toast == before.toast
        }),
{
    let after = quota_received(before, quota, target, Ok(figures)).1;
    assert(after.states.dom() =~= quota.states.dom().insert(target.provider_id));
}

/// Figures that cannot be had leave those known before, beside the reason, which
/// is told as well.
pub proof fn quotas_that_fail_leave_figures(
    before: AppView,
    quota: QuotaStatesView,
    target: QuotaTargetView,
    error: Seq<char>,
)
    requires
        known_at(quota, target),
    ensures
        ({
            let (after, quota_after) = quota_received(before, quota, target, Err(error));
            &&& only_provider(quota, quota_after, target.provider_id)
            &&& quota_after.states[target.provider_id] == (QuotaStateView {
                target,
                loading: false,
                manual: false,
                quota: quota.states[target.provider_id].quota,
                error: Some(error),
            })
            &&& after == (AppView { toast: after.toast, ..before })
            &&& notices(
                after,
                ToastKind::Warning,
                TextKey::QuotaRefreshFailed,
                seq![error],
            )
        }),
{
    let after = quota_received(before, quota, target, Err(error)).1;
    assert(after.states.dom() =~= quota.states.dom().insert(target.provider_id));
}

/// An answer from a place that a provider is no longer asked at is thrown away.
pub proof fn quotas_from_elsewhere_are_ignored(
    before: AppView,
    quota: QuotaStatesView,
    target: QuotaTargetView,
    result: Result<ProviderUsageQuotaView, Seq<char>>,
)
    requires
        !known_at(quota, target),
    ensures
        quota_received(before, quota, target, result) == (before, quota),
{
}

/// A place is asked: what is known of it stays on screen while the answer is
/// waited for, and the request goes out. Where nobody can be asked nothing is
/// waited for; a worker that has stopped counts as a failure.
pub open spec fn asks_place(
    before: AppView,
    quota: QuotaStatesView,
    link: Link,
    target: QuotaTargetView,
    manual: bool,
    asking: QuotaAsking,
) -> bool {
    let after = asking.app;
    &&& link == Link::Missing ==> asking.quota == quota && asking.request is None
    &&& link != Link::Missing ==> {
        let state = asking.quota.states[target.provider_id];
        &&& only_provider(quota, asking.quota, target.provider_id)
        &&& state.target == target
        &&& state.loading == (link == Link::Open)
        &&& state.manual == (manual && link == Link::Open)
        &&& state.quota == figures_at(quota, target)
        &&& state.error is Some == (link == Link::Closed)
    }
    &&& link == Link::Open ==> asking.request == Some(target)
    &&& link == Link::Closed ==> {
        &&& asking.request is None
        &&& after.toast matches Some(toast)
        &&& toast.kind == ToastKind::Warning
        &&& toast.message.key == TextKey::QuotaRefreshFailed
        &&& toast.message.args =~= seq![asking.quota.states[target.provider_id].error->0]
    }
    &&& link != Link::Closed && !manual ==> after.toast == before.toast
    &&& link == Link::Open && manual ==> notices(
        after,
        ToastKind::Info,
        TextKey::QuotaRefreshStarted,
        seq![target.provider_name],
    )
    &&& link == Link::Missing && manual ==> {
        &&& after.toast matches Some(toast)
        &&& toast.kind == ToastKind::Warning
        &&& toast.message.key == TextKey::QuotaWorkerUnavailable
    }
}

/// The row of a provider: the first under its number.
pub open spec fn is_row(rows: Seq<ProviderRowView>, id: Seq<char>, at: int) -> bool {
    &&& 0 <= at < rows.len()
    &&& rows[at].id == id
    &&& forall|i: int| 0 <= i < at ==> (#[trigger] rows[i]).id != id
}

proof fn lemma_row_of(rows: Seq<ProviderRowView>, id: Seq<char>, at: int)
    requires
        is_row(rows, id, at),
    ensures
        row_of(rows, id) == Some(rows[at]),
    decreases rows.len(),
{
    if at > 0 {
        assert(rows[0].id != id);
        let rest = rows.drop_first();
        assert forall|i: int| 0 <= i < at - 1 implies (#[trigger] rest[i]).id != id by {
            assert(rest[i] == rows[i + 1]);
        }
        lemma_row_of(rest, id, at - 1);
    }
}

proof fn lemma_no_row_of(rows: Seq<ProviderRowView>, id: Seq<char>)
    requires
        forall|i: int| 0 <= i < rows.len() ==> (#[trigger] rows[i]).id != id,
    ensures
        row_of(rows, id) is None,
    decreases rows.len(),
{
    if rows.len() > 0 {
        assert(rows[0].id != id);
        lemma_no_row_of(rows.drop_first(), id);
    }
}

/// A quota that the user asks for is asked for at the place that its provider's
/// row names, whenever it was asked for last. Where the row names none, that is
/// told.
pub proof fn users_are_served(
    before: AppView,
    data: UiDataView,
    link: Link,
    provider_id: Seq<char>,
    at: int,
)
    requires
        is_row(data.providers.rows, provider_id, at),
    ensures
        ({
            let row = data.providers.rows[at];
            let asking = manual_asking(before, data, link, provider_id);
            &&& asking.app == (AppView { toast: asking.app.toast, ..before })
            &&& row.quota_tool matches Some(tool) ==> asks_place(
                before,
                data.quota,
                link,
                (QuotaTargetView {
                    app_type: before.app_type,
                    provider_id,
                    provider_name: row.name,
                    tool,
                }),
                true,
                asking,
            )
            &&& row.quota_tool is None ==> {
                &&& asking.quota == data.quota
                &&& asking.request is None
                &&& notices(asking.app, ToastKind::Info, TextKey::QuotaNotAvailable, seq![])
            }
        }),
{
    lemma_row_of(data.providers.rows, provider_id, at);
    let asking = manual_asking(before, data, link, provider_id);
    if data.providers.rows[at].quota_tool is Some && link != Link::Missing {
        assert(asking.quota.states.dom() =~= data.quota.states.dom().insert(provider_id));
    }
}

/// A quota of a provider that is not listed is not asked for.
pub proof fn unlisted_providers_are_not_asked(
    before: AppView,
    data: UiDataView,
    link: Link,
    provider_id: Seq<char>,
)
    requires
        forall|i: int|
            0 <= i < data.providers.rows.len() ==> (#[trigger] data.providers.rows[i]).id
                != provider_id,
    ensures
        manual_asking(before, data, link, provider_id) == (QuotaAsking {
            app: before,
            quota: data.quota,
            request: None,
        }),
{
    lemma_no_row_of(data.providers.rows, provider_id);
}

/// The provider in use: the first that is marked so.
pub open spec fn in_use(rows: Seq<ProviderRowView>, at: int) -> bool {
    &&& 0 <= at < rows.len()
    &&& rows[at].is_current
    &&& forall|i: int| 0 <= i < at ==> !(#[trigger] rows[i]).is_current
}

proof fn lemma_in_use(rows: Seq<ProviderRowView>, at: int)
    requires
        in_use(rows, at),
    ensures
        first_current(rows) == Some(rows[at]),
    decreases rows.len(),
{
    if at > 0 {
        assert(!rows[0].is_current);
        let rest = rows.drop_first();
        assert forall|i: int| 0 <= i < at - 1 implies !(#[trigger] rest[i]).is_current by {
            assert(rest[i] == rows[i + 1]);
        }
        lemma_in_use(rest, at - 1);
    }
}

proof fn lemma_none_in_use(rows: Seq<ProviderRowView>)
    requires
        forall|i: int| 0 <= i < rows.len() ==> !(#[trigger] rows[i]).is_current,
    ensures
        first_current(rows) is None,
    decreases rows.len(),
{
    if rows.len() > 0 {
        assert(!rows[0].is_current);
        lemma_none_in_use(rows.drop_first());
    }
}

/// What a place is known by: its application, its provider and how it is asked,
/// with colons between them.
pub open spec fn place_name(names: AppNamesView, target: QuotaTargetView) -> Seq<char> {
    names.of(target.app_type) + ":"@ + target.provider_id + ":"@ + target.tool
}

/// The quota of the provider in use is asked for by itself: at once where
/// another place was asked before, or nothing is known of the provider, and else
/// when fifteen hundred ticks are over. Only a request notes the tick.
pub proof fn the_provider_in_use_is_asked(before: AppView, data: UiDataView, link: Link, at: int)
    requires
        in_use(data.providers.rows, at),
        data.providers.rows[at].quota_tool is Some,
    ensures
        ({
            let row = data.providers.rows[at];
            let target = QuotaTargetView {
                app_type: before.app_type,
                provider_id: row.id,
                provider_name: row.name,
                tool: row.quota_tool->0,
            };
            let asking = auto_asking(before, data, link);
            let due = before.quota_auto_target_key != Some(place_name(before.names, target))
                || !data.quota.states.dom().contains(row.id) || before.quota_last_auto_tick is None
                || before.tick - before.quota_last_auto_tick->0 >= 1500;
            &&& !due ==> asking == (QuotaAsking { app: before, quota: data.quota, request: None })
            &&& due ==> {
                &&& asking.app == (AppView {
                    quota_auto_target_key: Some(place_name(before.names, target)),
                    quota_last_auto_tick: Some(before.tick),
                    toast: asking.app.toast,
                    ..before
                })
                &&& asks_place(before, data.quota, link, target, false, asking)
            }
        }),
{
    lemma_in_use(data.providers.rows, at);
    let row = data.providers.rows[at];
    let target = QuotaTargetView {
        app_type: before.app_type,
        provider_id: row.id,
        provider_name: row.name,
        tool: row.quota_tool->0,
    };
    assert(target.key(before.names) =~= place_name(before.names, target));
    let asking = auto_asking(before, data, link);
    if asking.quota != data.quota {
        assert(asking.quota.states.dom() =~= data.quota.states.dom().insert(row.id));
    }
    if link != Link::Missing && asking.app.quota_last_auto_tick == Some(before.tick) {
        assert(data.quota.states.insert(row.id, asking.quota.states[row.id]).dom()
            =~= data.quota.states.dom().insert(row.id));
    }
}

/// Where no provider is in use, or the one in use names no place to ask at,
/// nothing is asked for and what was asked last is forgotten.
pub proof fn without_a_place_nothing_is_asked(before: AppView, data: UiDataView, link: Link, at: int)
    requires
        (in_use(data.providers.rows, at) && data.providers.rows[at].quota_tool is None) || forall|
            i: int,
        |
            0 <= i < data.providers.rows.len() ==> !(#[trigger] data.providers.rows[i]).is_current,
    ensures
        auto_asking(before, data, link) == (QuotaAsking {
            app: AppView { quota_auto_target_key: None, quota_last_auto_tick: None, ..before },
            quota: data.quota,
            request: None,
        }),
{
    if in_use(data.providers.rows, at) {
        lemma_in_use(data.providers.rows, at);
    } else {
        lemma_none_in_use(data.providers.rows);
    }
}

/// A request goes out behind those that went out before it.
pub proof fn requests_for_quotas_go_out_in_turn(sent: Seq<QuotaTargetView>, asking: QuotaAsking)
    ensures
        asking.request is None ==> sent_after_asking(sent, asking) == sent,
        asking.request matches Some(target) ==> sent_after_asking(sent, asking) == sent + seq![
            target,
        ],
{
    if asking.request is Some {
        assert(sent_after_asking(sent, asking) =~= sent + seq![asking.request->0]);
    }
}

} // verus!
