//! What the user's actions lead to, as far as it concerns the data that is shown
//! and kept.

use vstd::prelude::*;

use crate::action::{cache_invalidation_for_action, Action};
use crate::app::{AppView, Overlay};
use crate::app_data::{
    effective, invalidation_applied, release_failure, Desk, InvalidationStep, Links, ReleaseWait,
    StateHolder,
};
use crate::app_type::AppType;
use crate::cache::CacheInvalidation;
use crate::chars::text_lowercase;
use crate::data::UiDataView;
use crate::desk_laws::{figures_forgotten, figures_kept, load_awaited, load_outdated, only_kept_of};
use crate::dispatch::{
    action_finished, action_handled, carried_out, searching_again, sessions_left,
    with_all_cancelled, ActionStep,
};
use crate::messages::{AppDataLoaded, AppDataReq, UsagePricingReq};
use crate::outbox::Link;
use crate::quota_requests::manual_asking;
use crate::route::Route;
use crate::session_requests::{scan_queued, SessionReq};
use crate::sessions::SessionsView;
use crate::text::{TextKey, ToastKind};
use crate::text_edit::trimmed;
use crate::usage::{UsageCustomRange, UsageRangePreset, UsageUiView};
use crate::usage_loads::detail_asking;

verus! {

/// What the whole configuration is replaced by makes the state anew; what
/// changes the providers of the application shown concerns that one; what
/// applications share is loaded anew for all; everything else leaves the data.
pub proof fn actions_change_what_they_are_about(action: Action, change: CacheInvalidation)
    requires
        call_ensures(cache_invalidation_for_action, (&action,), change),
    ensures
        change is AppStateRecreated <==> {
            ||| action is ConfigImport
            ||| action is ConfigRestoreBackup
            ||| action is ConfigReset
            ||| action is ConfigWebDavDownload
            ||| action is ConfigWebDavMigrateV1ToV2
        },
        change is CurrentAppDataChanged <==> {
            ||| action is ProviderSwitch
            ||| action is ProviderRemoveFromConfig
            ||| action is ProviderSetDefaultModel
            ||| action is ProviderImportLiveConfig
            ||| action is ProviderDelete
            ||| action is ProviderSetFailoverQueue
            ||| action is ProviderMoveFailoverQueue
            ||| action is EditorSubmit && !(action->EditorSubmit_submit is Other)
        },
        change is DataReloaded <==> {
            ||| action is ReloadData
            ||| action is SetVisibleAppsMode
            ||| action is SetVisibleApps
            ||| action is ConfirmVisibleAppsAutoDetection
            ||| action is SwitchVisibleAppsToManual
            ||| action is SkillsToggle
            ||| action is SkillsSetApps
            ||| action is SkillsUninstall
            ||| action is SkillsSync
            ||| action is SkillsSetSyncMethod
            ||| action is SkillsRepoAdd
            ||| action is SkillsRepoRemove
            ||| action is SkillsRepoToggleEnabled
            ||| action is SkillsImportFromApps
            ||| action is PricingDelete
            ||| action is McpToggle
            ||| action is McpSetApps
            ||| action is McpDelete
            ||| action is McpImport
            ||| action is PromptActivate
            ||| action is PromptDeactivate
            ||| action is PromptUpdateMetadata
            ||| action is PromptSave
            ||| action is PromptDelete
            ||| action is ConfigBackup
            ||| action is ConfigWebDavReset
            ||| action is OpenClawDailyMemoryDelete
            ||| action is HermesMemorySetEnabled
            ||| action is HermesOpenMemoryDirectory
            ||| action is SetProxyEnabled
            ||| action is SetProxyListenAddress
            ||| action is SetProxyListenPort
            ||| action is SetProxyAutoFailover
            ||| action is EnableProxyAndAutoFailover
            ||| action is SetOpenClawConfigDir
            ||| action is EditorSubmit && action->EditorSubmit_submit is Other
        },
        !(change is CurrentAppReloaded),
{
}

/// An action that loaded nothing changes nothing that is kept.
pub proof fn only_reloads_count(candidate: CacheInvalidation, before: u64, after: u64)
    ensures
        before == after ==> effective(candidate, before, after) is Nothing,
        before != after ==> effective(candidate, before, after) == candidate,
{
}

/// A worker that did not let go of the state in time is named: the first that
/// was waited for so.
pub proof fn late_workers_are_named(waits: Seq<(StateHolder, ReleaseWait)>, at: int)
    requires
        0 <= at < waits.len(),
        waits[at].1 is TimedOut,
        forall|i: int| 0 <= i < at ==> !((#[trigger] waits[i]).1 is TimedOut),
    ensures
        release_failure(waits) == Some(waits[at].0),
    decreases at,
{
    if at > 0 {
        let rest = waits.drop_first();
        assert(!(waits[0].1 is TimedOut));
        assert forall|i: int| 0 <= i < at - 1 implies !((#[trigger] rest[i]).1 is TimedOut) by {
            assert(rest[i] == waits[i + 1]);
        }
        late_workers_are_named(rest, at - 1);
    }
}

/// Where all workers let go in time, nothing failed.
pub proof fn workers_in_time_are_not_named(waits: Seq<(StateHolder, ReleaseWait)>)
    requires
        forall|i: int| 0 <= i < waits.len() ==> !((#[trigger] waits[i]).1 is TimedOut),
    ensures
        release_failure(waits) is None,
    decreases waits.len(),
{
    if waits.len() > 0 {
        assert(!(waits[0].1 is TimedOut));
        workers_in_time_are_not_named(waits.drop_first());
    }
}

/// The application turned to is shown from what is kept of it, at once; without
/// that an empty screen waits for a load. What was shown is kept if it is whole.
pub proof fn applications_are_turned_to(before: Desk, link: Link, next: AppType)
    requires
        next != before.app.app_type,
    ensures
        ({
            let old_app = before.app.app_type;
            let after = before.switched(link, next);
            let whole = !before.cache.pending.contains_key(old_app)
                && !before.cache.incomplete.contains_key(old_app);
            let ready = before.cache.by_app.contains_key(next);
            let asks = !ready && !before.cache.pending.contains_key(next);
            &&& after.app.app_type == next
            &&& after.app == (AppView {
                app_type: next,
                usage: after.app.usage,
                view_requests: after.app.view_requests,
                toast: after.app.toast,
                ..before.app
            })
            &&& after.app.usage == (UsageUiView {
                pager: after.app.usage.pager,
                detail_request: None,
                detail: None,
                ..before.app.usage
            })
            &&& after.app.usage.pager.context is None
            &&& after.app.view_requests.clamp_selections
            &&& after.app.view_requests.prompt_import_candidate
            &&& after.data.quota == before.data.quota
            &&& ready ==> {
                let kept = before.cache.by_app[next];
                &&& after.data == (UiDataView {
                    usage: after.data.usage,
                    pricing: after.data.pricing,
                    quota: before.data.quota,
                    ..kept
                })
                &&& after.app.toast == before.app.toast
            }
            &&& !ready ==> {
                &&& after.data.providers.loading
                &&& after.data.providers.rows.len() == 0
                &&& after.data.config.common_snippets == before.data.config.common_snippets
                &&& before.data.config.common_snippets.contains_key(next)
                    ==> after.data.config.common_snippet
                    == before.data.config.common_snippets[next]
                &&& !before.data.config.common_snippets.contains_key(next)
                    ==> after.data.config.common_snippet.len() == 0
            }
            &&& whole ==> after.cache.by_app.contains_key(old_app) && after.cache.by_app[old_app]
                == before.data
            &&& !whole ==> after.cache.by_app == before.cache.by_app
            &&& only_kept_of(before.cache.by_app, after.cache.by_app, old_app)
            &&& figures_kept(before.cache, after.cache)
            &&& !asks || link != Link::Open ==> after.app_sent == before.app_sent
            &&& !asks ==> after.cache.pending == before.cache.pending && after.app.toast
                == before.app.toast
            &&& asks ==> after.cache.incomplete.contains_key(next)
            &&& asks && link == Link::Open ==> {
                &&& after.app_sent == before.app_sent + seq![
                    AppDataReq::Load {
                        request_id: after.cache.last_app_request,
                        generation: before.cache.generation,
                        app_state_epoch: before.cache.epoch,
                        app_type: next,
                    },
                ]
                &&& after.cache.pending.contains_key(next)
                &&& after.cache.pending[next].request_id == after.cache.last_app_request
                &&& after.cache.pending[next].kind is Snapshot
                &&& after.app.toast == before.app.toast
            }
            &&& asks && link != Link::Open ==> {
                &&& after.cache.pending == before.cache.pending
                &&& after.app.toast matches Some(toast)
                &&& toast.kind == ToastKind::Warning
                &&& toast.message.key == TextKey::Verbatim
            }
            &&& after.quota_sent == before.quota_sent
            &&& after.usage_sent == before.usage_sent
        }),
{
    let after = before.switched(link, next);
    if after.app_sent != before.app_sent {
        let req = AppDataReq::Load {
            request_id: after.cache.last_app_request,
            generation: before.cache.generation,
            app_state_epoch: before.cache.epoch,
            app_type: next,
        };
        assert(before.app_sent.push(req) =~= before.app_sent + seq![req]);
    }
}

/// The first data of the application shown, once it has come, ends the wait: it
/// is shown and kept, what waited to be laid over the screen is, and the proxy is
/// seen as it is. Data of the others is kept. An error ends the startup only for
/// the application shown.
pub proof fn the_first_data_is_shown(
    before: Desk,
    links: Links,
    overlay: Option<Overlay>,
    msg: AppDataLoaded,
)
    requires
        msg.kind is Initial,
        load_awaited(before.cache, msg),
        !load_outdated(before.cache, msg),
    ensures
        ({
            let startup = before.initial_received(links, overlay, msg);
            let after = startup.desk;
            let here = msg.app_type == before.app.app_type;
            &&& !after.cache.pending.contains_key(msg.app_type)
            &&& here && msg.result is Ok ==> {
                let loaded = msg.result->Ok_0@;
                &&& startup.result == Ok::<bool, Seq<char>>(true)
                &&& startup.overlay is None
                &&& overlay is None ==> after.app.overlay is Absent
                &&& overlay matches Some(waiting) ==> after.app.overlay == waiting@
                &&& after.data == (UiDataView { quota: after.data.quota, ..loaded })
                &&& after.cache.by_app.contains_key(msg.app_type)
                &&& after.cache.by_app[msg.app_type] == (UiDataView {
                    quota: before.data.quota,
                    ..loaded
                })
                &&& !after.cache.incomplete.contains_key(msg.app_type)
                &&& after.app.proxy.last_input_tokens == Some(
                    loaded.proxy.estimated_input_tokens_total,
                )
                &&& after.app.proxy.last_output_tokens == Some(
                    loaded.proxy.estimated_output_tokens_total,
                )
                &&& after.app.proxy.visual_state == Some(loaded.proxy.running)
                &&& after.app.view_requests.clamp_selections
                &&& after.app.view_requests.prompt_import_candidate
                &&& after.app.app_type == before.app.app_type
                &&& after.app.route == before.app.route
                &&& after.app_sent == before.app_sent
                &&& after.usage_sent == before.usage_sent
            }
            &&& here && msg.result is Err ==> {
                &&& startup.result == Err::<bool, Seq<char>>(msg.result->Err_0@)
                &&& startup.overlay == overlay
                &&& after == (Desk { cache: after.cache, ..before })
                &&& after.cache.by_app == before.cache.by_app
            }
            &&& !here ==> {
                &&& startup.result == Ok::<bool, Seq<char>>(true)
                &&& startup.overlay == overlay
                &&& after == (Desk { cache: after.cache, ..before })
                &&& !after.cache.incomplete.contains_key(msg.app_type)
                &&& only_kept_of(before.cache.by_app, after.cache.by_app, msg.app_type)
                &&& msg.result matches Ok(loaded) ==> after.cache.by_app.contains_key(msg.app_type)
                    && after.cache.by_app[msg.app_type] == loaded@
                &&& msg.result is Err ==> after.cache.by_app == before.cache.by_app
            }
        }),
{
}

/// Until the first data has come nothing else counts.
pub proof fn other_data_is_no_first_data(
    before: Desk,
    links: Links,
    overlay: Option<Overlay>,
    msg: AppDataLoaded,
)
    requires
        !(msg.kind is Initial) || !load_awaited(before.cache, msg) || load_outdated(
            before.cache,
            msg,
        ),
    ensures
        ({
            let startup = before.initial_received(links, overlay, msg);
            &&& startup.result == Ok::<bool, Seq<char>>(false)
            &&& startup.overlay == overlay
            &&& startup.desk == (Desk { cache: startup.desk.cache, ..before })
            &&& startup.desk.cache.by_app == before.cache.by_app
            &&& !(msg.kind is Initial) || !load_awaited(before.cache, msg) ==> startup.desk
                == before
        }),
{
}

/// The application turned to on the user's wish leaves the sessions: none is
/// looked at and nothing is searched, but what is typed is searched again.
pub open spec fn leaves_sessions(s: SessionsView, t: SessionsView) -> bool {
    &&& t.detail_key is None
    &&& t.messages.len() == 0
    &&& !t.messages_loaded
    &&& !t.messages_loading
    &&& t.message_active is None
    &&& t.message_selected == 0
    &&& !t.message_cancel_pending
    &&& t.deep_search_active is None
    &&& t.deep_search_query is None
    &&& t.deep_search_results.len() == 0
    &&& t.rows == s.rows
    &&& t.selected_idx == s.selected_idx
    &&& t.page == s.page
    &&& t.purge_tombstones == s.purge_tombstones
    &&& t.query_tombstones == s.query_tombstones
    &&& t.delete_active == s.delete_active
}

/// Leaving the sessions calls off what is read of one and what is searched.
pub proof fn sessions_are_left(s: SessionsView)
    ensures
        leaves_sessions(s, sessions_left(s)),
        sessions_left(s).deep_search_pending is None,
{
}

/// Actions on quotas, applications, ranges and log entries are carried out here;
/// all others are handed on as they are, with what they may change, the mark of
/// the data shown and whether the sessions are to be opened. Where the state is
/// replaced the workers are told to let go of it, and those are waited for.
pub proof fn actions_are_carried_out_or_handed_on(
    before: Desk,
    session_sent: Seq<SessionReq>,
    links: Links,
    link: Link,
    action: Action,
    after: Desk,
    session_sent_after: Seq<SessionReq>,
    step: ActionStep,
)
    requires
        action_handled(
            before,
            session_sent,
            links,
            link,
            action,
            after,
            session_sent_after,
            step,
        ),
    ensures
        step is Done <==> {
            ||| action is Nothing
            ||| action is ProviderQuotaRefresh
            ||| action is SetAppType
            ||| action is UsageCustomRange
            ||| action is UsageLogDetailRefresh
        },
        !(action is SetAppType) ==> ({
            let cancels = before.app.sessions.message_cancel_pending && link == Link::Open;
            &&& cancels ==> session_sent_after == session_sent + seq![SessionReq::CancelMessages]
            &&& !cancels ==> session_sent_after == session_sent
        }),
        !(action is SetAppType) ==> !after.app.sessions.message_cancel_pending,
        action is Nothing ==> after == (Desk {
            app: AppView {
                sessions: SessionsView {
                    message_cancel_pending: false,
                    ..before.app.sessions
                },
                ..before.app
            },
            ..before
        }),
        step matches ActionStep::PassOn(passed) ==> {
            let replaces = action is ConfigImport || action is ConfigRestoreBackup
                || action is ConfigReset || action is ConfigWebDavDownload
                || action is ConfigWebDavMigrateV1ToV2;
            let app_told = replaces && links.app_data == Link::Open;
            let usage_told = replaces && links.usage == Link::Open;
            &&& passed.action == action
            &&& passed.before_token == before.data.reload_token
            &&& passed.opens_sessions == (action == Action::SwitchRoute(Route::Sessions))
            &&& app_told ==> after.app_sent == before.app_sent + seq![AppDataReq::DropState]
            &&& !app_told ==> after.app_sent == before.app_sent
            &&& usage_told ==> after.usage_sent == before.usage_sent + seq![
                UsagePricingReq::DropState,
            ]
            &&& !usage_told ==> after.usage_sent == before.usage_sent
            &&& passed.awaited@.contains(StateHolder::AppData) == app_told
            &&& passed.awaited@.contains(StateHolder::UsagePricing) == usage_told
            &&& passed.awaited@.len() == (if app_told {
                1int
            } else {
                0
            }) + (if usage_told {
                1int
            } else {
                0
            })
            &&& after.data == before.data
            &&& after.cache == before.cache
            &&& after.quota_sent == before.quota_sent
            &&& after.app == (AppView {
                sessions: SessionsView {
                    message_cancel_pending: false,
                    ..before.app.sessions
                },
                ..before.app
            })
        },
{
    assert(session_sent.push(SessionReq::CancelMessages) =~= session_sent + seq![
        SessionReq::CancelMessages,
    ]);
    assert(before.app_sent.push(AppDataReq::DropState) =~= before.app_sent + seq![
        AppDataReq::DropState,
    ]);
    assert(before.usage_sent.push(UsagePricingReq::DropState) =~= before.usage_sent + seq![
        UsagePricingReq::DropState,
    ]);
    if step is PassOn {
        let awaited = step->PassOn_0.awaited@;
        if awaited.len() > 0 {
            assert(awaited.contains(awaited[0]));
        }
        if awaited.len() > 1 {
            assert(awaited.contains(awaited[1]));
        }
    }
}

/// What is sent where a scan may be asked for: the scan alone, and only where the
/// sessions are looked at.
proof fn lemma_scan_sent(
    before: AppView,
    sent: Seq<SessionReq>,
    link: Link,
    after: AppView,
    sent_after: Seq<SessionReq>,
)
    requires
        scan_queued(before, sent, link, after, sent_after),
    ensures
        sent_after == sent || {
            &&& before.route is Sessions
            &&& sent_after.len() == sent.len() + 1
            &&& sent_after.drop_last() == sent
            &&& sent_after.last() is Refresh
        },
{
}

/// Turning to an application calls off what is searched and what is read of a
/// session; the sessions are then scanned at most once, where they are looked
/// at.
pub proof fn turning_calls_off_the_sessions(
    turned: AppView,
    session_sent: Seq<SessionReq>,
    after: AppView,
    session_sent_after: Seq<SessionReq>,
)
    requires
        scan_queued(
            turned,
            with_all_cancelled(session_sent, Link::Open),
            Link::Open,
            after,
            session_sent_after,
        ),
    ensures
        ({
            let n = session_sent.len() as int;
            let sent = session_sent_after;
            &&& sent.len() == n + 2 || (sent.len() == n + 3 && sent[n + 2] is Refresh
                && turned.route is Sessions)
            &&& sent[n] is CancelSearch
            &&& sent[n + 1] is CancelMessages
            &&& sent.take(n) == session_sent
        }),
{
    let n = session_sent.len() as int;
    let sent = session_sent_after;
    let called = with_all_cancelled(session_sent, Link::Open);
    lemma_scan_sent(turned, called, Link::Open, after, sent);
    assert(sent.take(n + 2) =~= called);
    assert(sent[n] == called[n]);
    assert(sent[n + 1] == called[n + 1]);
    assert(sent.take(n) =~= session_sent);
}

/// Turning to another application leaves the sessions. What is typed there is
/// searched again, in lower case and without white space around it.
pub proof fn turning_leaves_the_sessions(before: Desk, link: Link, next: AppType, typed: Seq<char>)
    requires
        typed == trimmed(before.app.filter.text),
    ensures
        ({
            let left = Desk {
                app: AppView {
                    sessions: sessions_left(before.app.sessions),
                    pending_deep_search: None,
                    ..before.app
                },
                ..before
            };
            let app = searching_again(left.switched(link, next).app);
            let again = before.app.route is Sessions && typed.len() > 0;
            &&& app.app_type == next
            &&& leaves_sessions(before.app.sessions, app.sessions)
            &&& app.pending_deep_search is None
            &&& again ==> app.sessions.deep_search_pending == Some((text_lowercase(typed), 0u64))
            &&& !again ==> app.sessions.deep_search_pending is None
        }),
{
}

/// A quota that the user wants is asked for, and nothing else is.
pub proof fn quotas_are_asked_for_on_wish(before: Desk, links: Links, id: String)
    ensures
        ({
            let after = carried_out(before, links, Action::ProviderQuotaRefresh { id });
            let asking = manual_asking(before.app, before.data, links.quota, id@);
            &&& after.app == asking.app
            &&& after.data == (UiDataView { quota: asking.quota, ..before.data })
            &&& after.cache == before.cache
            &&& after.app_sent == before.app_sent
            &&& after.usage_sent == before.usage_sent
            &&& asking.request is None ==> after.quota_sent == before.quota_sent
            &&& asking.request matches Some(target) ==> after.quota_sent == before.quota_sent
                + seq![target]
        }),
{
    let asking = manual_asking(before.app, before.data, links.quota, id@);
    if asking.request is Some {
        assert(before.quota_sent.push(asking.request->0) =~= before.quota_sent + seq![
            asking.request->0,
        ]);
    }
}

/// An entry of the log that the user wants is asked for, and nothing else is.
pub proof fn entries_are_asked_for_on_wish(before: Desk, links: Links, rowid: i64)
    ensures
        ({
            let after = carried_out(before, links, Action::UsageLogDetailRefresh { rowid });
            let asking = detail_asking(before.app, before.cache, links.usage, rowid);
            &&& after.data == before.data
            &&& after.cache == asking.cache
            &&& after.app.usage == asking.ui
            &&& after.app_sent == before.app_sent
            &&& after.quota_sent == before.quota_sent
            &&& asking.request is None ==> after.usage_sent == before.usage_sent
            &&& asking.request matches Some(req) ==> after.usage_sent == before.usage_sent + seq![
                req,
            ]
        }),
{
    let asking = detail_asking(before.app, before.cache, links.usage, rowid);
    if asking.request is Some {
        assert(before.usage_sent.push(asking.request->0) =~= before.usage_sent + seq![
            asking.request->0,
        ]);
    }
}

/// The range that the user wants is looked at from its beginning: its figures
/// are empty until they come, those of the fixed ranges stay.
pub proof fn ranges_are_looked_at_on_wish(before: Desk, links: Links, range: UsageCustomRange)
    ensures
        ({
            let after = carried_out(before, links, Action::UsageCustomRange { range });
            &&& after.app.usage.range == UsageRangePreset::Custom(range)
            &&& after.app.usage.pager.context is None
            &&& after.app.view_requests.clamp_selections
            &&& after.data == (UiDataView { usage: after.data.usage, ..before.data })
            &&& after.data.usage.fixed == before.data.usage.fixed
            &&& after.data.usage.custom.range == Some(range)
            &&& after.data.usage.custom.logs.len() == 0
            &&& after.data.usage.custom.logs_total == 0
            &&& after.app_sent == before.app_sent
            &&& after.quota_sent == before.quota_sent
        }),
{
}

/// Where the workers did not let go of a state that was replaced, nothing is done
/// and that is the result. Data of the application shown that changed is
/// forgotten and loaded anew, by a worker where there is one; other changes are
/// settled at once.
pub proof fn changes_are_settled(
    before: Desk,
    links: Links,
    change: CacheInvalidation,
    released: Result<(), String>,
)
    ensures
        ({
            let (after, result) = invalidation_applied(before, links, change, released);
            let app = before.app.app_type;
            &&& change is AppStateRecreated ==> (released matches Err(error) ==> after == before
                && result == Err::<InvalidationStep, String>(error))
            &&& change is Nothing ==> after == before
            &&& !(change is AppStateRecreated && released is Err) ==> result is Ok
            &&& change is CurrentAppDataChanged ==> {
                &&& result->Ok_0 is Done == (links.app_data == Link::Open)
                &&& after == (Desk { cache: after.cache, app_sent: after.app_sent, ..before })
                &&& !after.cache.by_app.contains_key(app)
                &&& only_kept_of(before.cache.by_app, after.cache.by_app, app)
                &&& figures_forgotten(before.cache, after.cache, app)
                &&& links.app_data != Link::Open ==> after.app_sent == before.app_sent
                    && !after.cache.pending.contains_key(app)
                &&& links.app_data == Link::Open ==> {
                    &&& after.app_sent == before.app_sent + seq![
                        AppDataReq::FullLoad {
                            request_id: after.cache.last_app_request,
                            generation: before.cache.generation,
                            app_state_epoch: before.cache.epoch,
                            app_type: app,
                        },
                    ]
                    &&& after.cache.pending.contains_key(app)
                    &&& after.cache.pending[app].request_id == after.cache.last_app_request
                    &&& after.cache.pending[app].kind is Full
                }
            }
            &&& !(change is CurrentAppDataChanged) && result is Ok ==> result->Ok_0 is Done
        }),
{
    let (after, result) = invalidation_applied(before, links, change, released);
    if change is CurrentAppDataChanged && links.app_data == Link::Open {
        let req = AppDataReq::FullLoad {
            request_id: after.cache.last_app_request,
            generation: before.cache.generation,
            app_state_epoch: before.cache.epoch,
            app_type: before.app.app_type,
        };
        assert(before.app_sent.push(req) =~= before.app_sent + seq![req]);
    }
}

/// Data that was loaded anew, for whatever reason, begins the log and the custom
/// range anew and is kept; outdated data is forgotten.
pub proof fn new_data_begins_the_log_anew(before: Desk, links: Links, change: CacheInvalidation)
    requires
        !(change is Nothing),
        !(before.app.usage.range is Custom),
    ensures
        ({
            let after = before.invalidated(links, change);
            &&& after.app.usage.pager.context is None
            &&& after.app.usage.pager.pages.dom().len() == 0
            &&& after.app.usage.loading.dom().len() == 0
            &&& after.app.usage.range == before.app.usage.range
            &&& after.app.view_requests.clamp_selections
            &&& after.data == (UiDataView { quota: after.data.quota, ..before.data })
            &&& after.cache == before.cache.after_reload(
                before.app.app_type,
                before.data,
                change,
            )
            &&& after.app_sent == before.app_sent
            &&& after.usage_sent == before.usage_sent
        }),
{
}

/// The sessions that an action opened are scanned once it is over, and only
/// then.
pub proof fn opened_sessions_are_scanned(
    before: Desk,
    session_sent: Seq<SessionReq>,
    links: Links,
    link: Link,
    over: (CacheInvalidation, Result<(), String>, bool),
    after: Desk,
    session_sent_after: Seq<SessionReq>,
    result: Result<InvalidationStep, String>,
)
    requires
        action_finished(
            before,
            session_sent,
            links,
            link,
            over,
            after,
            session_sent_after,
            result,
        ),
    ensures
        !over.2 || result is Err ==> session_sent_after == session_sent,
        result == invalidation_applied(before, links, over.0, over.1).1,
        after.data == invalidation_applied(before, links, over.0, over.1).0.data,
        after.cache == invalidation_applied(before, links, over.0, over.1).0.cache,
        result is Ok && over.2 ==> scan_queued(
            invalidation_applied(before, links, over.0, over.1).0.app,
            session_sent,
            link,
            after.app,
            session_sent_after,
        ),
{
}

} // verus!
