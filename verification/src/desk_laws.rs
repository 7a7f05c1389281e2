//! What becomes of the data shown and the data kept, as loads end, applications
//! are turned to and data changes.

use vstd::prelude::*;

use crate::app::{AppView, ProxyIndicator};
use crate::app_data::{Desk, Links};
use crate::app_type::AppType;
use crate::cache::{CacheInvalidation, CacheView, PendingAppDataLoad};
use crate::data::UiDataView;
use crate::messages::{AppDataLoadKind, AppDataLoaded, AppDataReq};
use crate::outbox::Link;
use crate::text::{TextKey, ToastKind};
use crate::usage::{UsageRangePreset, UsageUiView};

verus! {

/// All that is kept but the data, of whole applications, is as it was.
pub open spec fn figures_kept(before: CacheView, after: CacheView) -> bool {
    &&& after.usage == before.usage
    &&& after.pending_usage == before.pending_usage
    &&& after.phases == before.phases
    &&& after.dirty == before.dirty
    &&& after.last_usage_request == before.last_usage_request
}

/// The figures of one application are forgotten, and those of the others kept.
pub open spec fn figures_forgotten(before: CacheView, after: CacheView, app: AppType) -> bool {
    &&& forall|of: AppType, range: UsageRangePreset| #[trigger]
        after.usage.contains_key((of, range)) == (of != app && before.usage.contains_key(
            (of, range),
        ))
    &&& forall|of: AppType, range: UsageRangePreset| #[trigger]
        after.usage.contains_key((of, range)) ==> after.usage[(of, range)] == before.usage[(
            of,
            range,
        )]
    &&& forall|of: AppType, range: UsageRangePreset| #[trigger]
        after.pending_usage.contains_key((of, range)) == (of != app
            && before.pending_usage.contains_key((of, range)))
    &&& forall|of: AppType, range: UsageRangePreset| #[trigger]
        after.phases.contains_key((of, range)) == (of != app && before.phases.contains_key(
            (of, range),
        ))
    &&& forall|of: AppType, range: UsageRangePreset| #[trigger]
        after.dirty.contains_key((of, range)) == (of != app && before.dirty.contains_key(
            (of, range),
        ))
}

/// What is kept of one application alone differs.
pub open spec fn only_kept_of(
    before: Map<AppType, UiDataView>,
    after: Map<AppType, UiDataView>,
    app: AppType,
) -> bool {
    forall|other: AppType|
        other != app ==> #[trigger] after.contains_key(other) == before.contains_key(other) && (
        before.contains_key(other) ==> after[other] == before[other])
}

/// Data of an application is kept only while nothing of it is waited for, and
/// nothing is known to be missing from it.
pub proof fn whole_data_is_kept(cache: CacheView, app: AppType, data: UiDataView)
    ensures
        ({
            let after = cache.remembering(app, data);
            let whole = !cache.pending.dom().contains(app) && !cache.incomplete.dom().contains(
                app,
            );
            &&& !whole ==> after == cache
            &&& whole ==> {
                &&& after.by_app.contains_key(app) && after.by_app[app] == data
                &&& only_kept_of(cache.by_app, after.by_app, app)
                &&& after == (CacheView { by_app: after.by_app, ..cache })
            }
        }),
{
}

/// Data that was loaded anew is kept. Where only the application shown was
/// loaded, all else that is kept stays; else all else is forgotten and loads
/// that are under way count no more; where the state was made anew, so does all
/// that was read from it.
pub proof fn reloads_forget_what_is_outdated(
    cache: CacheView,
    app: AppType,
    data: UiDataView,
    invalidation: CacheInvalidation,
)
    ensures
        ({
            let after = cache.after_reload(app, data, invalidation);
            let all = invalidation is DataReloaded || invalidation is AppStateRecreated;
            &&& invalidation is Nothing || invalidation is CurrentAppDataChanged ==> after == cache
            &&& invalidation is CurrentAppReloaded ==> {
                &&& figures_kept(cache, after)
                &&& only_kept_of(cache.by_app, after.by_app, app)
                &&& after.pending == cache.pending
                &&& after.incomplete == cache.incomplete
                &&& after.generation == cache.generation
                &&& after.epoch == cache.epoch
                &&& !cache.pending.contains_key(app) && !cache.incomplete.contains_key(app)
                    ==> after.by_app.contains_key(app) && after.by_app[app] == data
            }
            &&& all ==> {
                &&& after.by_app == map![app => data]
                &&& after.pending == Map::<AppType, PendingAppDataLoad>::empty()
                &&& after.incomplete == Map::<AppType, ()>::empty()
                &&& after.usage.dom().len() == 0
                &&& after.pending_usage.dom().len() == 0
                &&& after.phases.dom().len() == 0
                &&& after.dirty.dom().len() == 0
                &&& after.last_app_request == cache.last_app_request
                &&& after.last_usage_request == cache.last_usage_request
                &&& after.generation != cache.generation
                &&& cache.generation < u64::MAX ==> after.generation == cache.generation + 1
            }
            &&& invalidation is DataReloaded ==> after.epoch == cache.epoch
            &&& invalidation is AppStateRecreated ==> after.epoch != cache.epoch && (cache.epoch
                < u64::MAX ==> after.epoch == cache.epoch + 1)
        }),
{
    assert(cache.cleared().remembering(app, data).by_app =~= map![app => data]);
    assert(cache.recreated().remembering(app, data).by_app =~= map![app => data]);
}

/// A load of an application is waited for under the next number, and until it
/// ends the application's data counts as incomplete.
pub proof fn loads_of_data_are_numbered(cache: CacheView, app: AppType, kind: AppDataLoadKind)
    ensures
        ({
            let after = cache.loading_app(app, kind);
            &&& cache.last_app_request < u64::MAX ==> after.last_app_request
                == cache.last_app_request + 1
            &&& after.pending == cache.pending.insert(
                app,
                PendingAppDataLoad {
                    kind,
                    request_id: after.last_app_request,
                    generation: cache.generation,
                    app_state_epoch: cache.epoch,
                },
            )
            &&& after.incomplete.dom() == cache.incomplete.dom().insert(app)
            &&& after.by_app == cache.by_app
            &&& figures_kept(cache, after)
            &&& after.generation == cache.generation
            &&& after.epoch == cache.epoch
        }),
{
    assert(cache.loading_app(app, kind).incomplete.dom() =~= cache.incomplete.dom().insert(app));
}

/// Nothing but the question for a quota, and what it has to tell, differs.
pub open spec fn same_but_quota(before: Desk, after: Desk) -> bool {
    &&& after.app == (AppView {
        toast: after.app.toast,
        quota_auto_target_key: after.app.quota_auto_target_key,
        quota_last_auto_tick: after.app.quota_last_auto_tick,
        ..before.app
    })
    &&& after.data == (UiDataView { quota: after.data.quota, ..before.data })
    &&& after.cache == before.cache
    &&& after.app_sent == before.app_sent
    &&& after.usage_sent == before.usage_sent
}

proof fn lemma_asking_quota(before: Desk, link: Link)
    ensures
        same_but_quota(before, before.asking_quota(link)),
{
}

/// A load is the one that is waited for.
pub open spec fn load_awaited(cache: CacheView, msg: AppDataLoaded) -> bool {
    &&& cache.pending.dom().contains(msg.app_type)
    &&& cache.pending[msg.app_type].kind == msg.kind
    &&& cache.pending[msg.app_type].request_id == msg.request_id
    &&& cache.pending[msg.app_type].generation == msg.generation
    &&& cache.pending[msg.app_type].app_state_epoch == msg.app_state_epoch
}

/// A load was asked for before all was forgotten, or before the state was made
/// anew.
pub open spec fn load_outdated(cache: CacheView, msg: AppDataLoaded) -> bool {
    msg.generation != cache.generation || msg.app_state_epoch != cache.epoch
}

/// Data of another application, once it has come, is kept whole for when that is
/// turned to, and changes nothing that is shown. A full load has the figures of
/// the application asked for anew; another is completed with those at hand.
pub proof fn data_of_others_is_kept(before: Desk, links: Links, msg: AppDataLoaded)
    requires
        load_awaited(before.cache, msg),
        !load_outdated(before.cache, msg),
        msg.app_type != before.app.app_type,
        msg.result is Ok,
    ensures
        ({
            let after = before.app_data_received(links, msg);
            let loaded = msg.result->Ok_0@;
            &&& after == (Desk { cache: after.cache, ..before })
            &&& after.cache.by_app.contains_key(msg.app_type)
            &&& only_kept_of(before.cache.by_app, after.cache.by_app, msg.app_type)
            &&& !after.cache.pending.contains_key(msg.app_type)
            &&& !after.cache.incomplete.contains_key(msg.app_type)
            &&& msg.kind == AppDataLoadKind::Full ==> {
                &&& after.cache.by_app[msg.app_type] == loaded
                &&& figures_forgotten(before.cache, after.cache, msg.app_type)
            }
            &&& msg.kind != AppDataLoadKind::Full ==> {
                let kept = after.cache.by_app[msg.app_type];
                &&& kept == (UiDataView { usage: kept.usage, pricing: kept.pricing, ..loaded })
                &&& figures_kept(before.cache, after.cache)
                &&& kept == before.cache.completed(
                    msg.app_type,
                    loaded,
                    UsageRangePreset::SevenDays,
                )
            }
        }),
{
}

/// A part of the data of the application shown, once it has come, is shown with
/// the figures at hand and the quotas known, and kept. Traffic is counted from
/// its totals, and the lists begin anew.
pub proof fn data_of_the_application_is_shown(before: Desk, links: Links, msg: AppDataLoaded)
    requires
        load_awaited(before.cache, msg),
        !load_outdated(before.cache, msg),
        msg.app_type == before.app.app_type,
        msg.result is Ok,
        msg.kind != AppDataLoadKind::Full,
    ensures
        ({
            let after = before.app_data_received(links, msg);
            let loaded = msg.result->Ok_0@;
            let shown = after.data;
            &&& shown == (UiDataView {
                usage: shown.usage,
                pricing: shown.pricing,
                quota: shown.quota,
                ..loaded
            })
            &&& ({
                let whole = before.cache.completed(msg.app_type, loaded, before.app.usage.range);
                shown.usage == whole.usage && shown.pricing == whole.pricing
            })
            &&& msg.kind == AppDataLoadKind::Initial ==> {
                &&& shown.quota == before.data.quota
                &&& after.quota_sent == before.quota_sent
                &&& after.app.toast == before.app.toast
            }
            &&& after.app == (AppView {
                usage: after.app.usage,
                proxy: after.app.proxy,
                view_requests: after.app.view_requests,
                toast: after.app.toast,
                quota_auto_target_key: after.app.quota_auto_target_key,
                quota_last_auto_tick: after.app.quota_last_auto_tick,
                ..before.app
            })
            &&& after.app.usage == (UsageUiView {
                pager: after.app.usage.pager,
                ..before.app.usage
            })
            &&& after.app.usage.pager.context is None
            &&& after.app.proxy == (ProxyIndicator {
                last_input_tokens: Some(loaded.proxy.estimated_input_tokens_total),
                last_output_tokens: Some(loaded.proxy.estimated_output_tokens_total),
                input_activity: 0,
                output_activity: 0,
                ..before.app.proxy
            })
            &&& after.app.view_requests.clamp_selections
            &&& after.app.view_requests.prompt_import_candidate
            &&& after.app_sent == before.app_sent
            &&& after.usage_sent == before.usage_sent
            &&& !after.cache.pending.contains_key(msg.app_type)
            &&& !after.cache.incomplete.contains_key(msg.app_type)
            &&& after.cache.by_app.contains_key(msg.app_type)
            &&& after.cache.by_app[msg.app_type] == (UiDataView {
                quota: before.data.quota,
                ..shown
            })
            &&& figures_kept(before.cache, after.cache)
            &&& only_kept_of(before.cache.by_app, after.cache.by_app, msg.app_type)
        }),
{
}

/// All data of the application shown, once it has come, takes the place of what
/// is shown; figures of a custom range begin anew and are asked for. It is kept,
/// and figures that were loaded before are not.
pub proof fn all_data_of_the_application_is_shown(before: Desk, links: Links, msg: AppDataLoaded)
    requires
        load_awaited(before.cache, msg),
        !load_outdated(before.cache, msg),
        msg.app_type == before.app.app_type,
        msg.result is Ok,
        msg.kind == AppDataLoadKind::Full,
    ensures
        ({
            let after = before.app_data_received(links, msg);
            let loaded = msg.result->Ok_0@;
            let shown = after.data;
            let custom = before.app.usage.range is Custom;
            &&& shown == (UiDataView { usage: shown.usage, quota: shown.quota, ..loaded })
            &&& shown.usage.fixed == loaded.usage.fixed
            &&& !custom ==> shown.usage == loaded.usage
            &&& custom ==> shown.usage.custom.range == Some(before.app.usage.range->Custom_0)
                && shown.usage.custom.logs.len() == 0 && shown.usage.custom.logs_total == 0
            &&& after.app.app_type == before.app.app_type
            &&& after.app.usage.range == before.app.usage.range
            &&& after.app.usage.pager.context is None
            &&& after.app.view_requests.clamp_selections
            &&& after.app.view_requests.prompt_import_candidate
                == before.app.view_requests.prompt_import_candidate
            &&& after.app_sent == before.app_sent
            &&& !custom ==> after.usage_sent == before.usage_sent
            &&& !custom ==> figures_forgotten(before.cache, after.cache, msg.app_type)
            &&& !after.cache.pending.contains_key(msg.app_type)
            &&& !after.cache.incomplete.contains_key(msg.app_type)
            &&& after.cache.by_app.contains_key(msg.app_type)
            &&& only_kept_of(before.cache.by_app, after.cache.by_app, msg.app_type)
            &&& !custom ==> after.cache.by_app[msg.app_type] == loaded
            &&& after.cache.generation == before.cache.generation
            &&& after.cache.epoch == before.cache.epoch
        }),
{
}

/// A load that failed is waited for no more. That is told where its application
/// is shown; all data stays.
pub proof fn loads_of_data_that_fail(before: Desk, links: Links, msg: AppDataLoaded)
    requires
        load_awaited(before.cache, msg),
        !load_outdated(before.cache, msg),
        msg.result is Err,
    ensures
        ({
            let after = before.app_data_received(links, msg);
            let error = msg.result->Err_0@;
            let here = msg.app_type == before.app.app_type;
            &&& after == (Desk { app: after.app, cache: after.cache, ..before })
            &&& after.cache == (CacheView {
                pending: before.cache.pending.remove(msg.app_type),
                ..before.cache
            })
            &&& !here ==> after.app == before.app
            &&& here ==> {
                &&& after.app == (AppView {
                    toast: after.app.toast,
                    usage: after.app.usage,
                    ..before.app
                })
                &&& after.app.usage == (UsageUiView {
                    loading: after.app.usage.loading,
                    ..before.app.usage
                })
                &&& msg.kind == AppDataLoadKind::Full ==> after.app.usage.loading.dom().len() == 0
                &&& msg.kind != AppDataLoadKind::Full ==> after.app.usage == before.app.usage
                &&& after.app.toast matches Some(toast)
                &&& toast.kind == ToastKind::Warning
                &&& toast.message.key == TextKey::Verbatim
                &&& toast.message.args =~= seq!["App data refresh failed: "@ + error]
            }
        }),
{
}

/// A load that nobody waits for changes nothing. An outdated one is asked for
/// anew, in full, where its application is shown and nothing of it is waited
/// for.
pub proof fn unawaited_data_is_ignored(before: Desk, links: Links, msg: AppDataLoaded)
    ensures
        !load_awaited(before.cache, msg) && !load_outdated(before.cache, msg)
            ==> before.app_data_received(links, msg) == before,
        !load_awaited(before.cache, msg) && load_outdated(before.cache, msg) && (msg.app_type
            != before.app.app_type || before.cache.pending.dom().contains(msg.app_type))
            ==> before.app_data_received(links, msg) == before,
        ({
            let after = before.app_data_received(links, msg);
            load_outdated(before.cache, msg) ==> {
                &&& after == (Desk { cache: after.cache, app_sent: after.app_sent, ..before })
                &&& figures_kept(before.cache, after.cache)
                &&& links.app_data != Link::Open ==> after.app_sent == before.app_sent
                &&& links.app_data == Link::Open && msg.app_type == before.app.app_type && (
                load_awaited(before.cache, msg) || !before.cache.pending.dom().contains(
                    msg.app_type,
                )) ==> {
                    &&& after.app_sent == before.app_sent + seq![
                        AppDataReq::FullLoad {
                            request_id: after.cache.last_app_request,
                            generation: before.cache.generation,
                            app_state_epoch: before.cache.epoch,
                            app_type: msg.app_type,
                        },
                    ]
                    &&& after.cache.pending.dom().contains(msg.app_type)
                    &&& after.cache.pending[msg.app_type].request_id
                        == after.cache.last_app_request
                    &&& after.cache.incomplete.dom().contains(msg.app_type)
                }
            }
        }),
{
    let after = before.app_data_received(links, msg);
    if after.app_sent != before.app_sent {
        let req = AppDataReq::FullLoad {
            request_id: after.cache.last_app_request,
            generation: before.cache.generation,
            app_state_epoch: before.cache.epoch,
            app_type: msg.app_type,
        };
        assert(before.app_sent.push(req) =~= before.app_sent + seq![req]);
    }
}

} // verus!
