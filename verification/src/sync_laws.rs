//! What a synchronisation is asked for, and what is made of its reports, field
//! by field.

use vstd::prelude::*;

use crate::app::{AppView, LoadingKind, OverlayView};
use crate::cache::CacheInvalidation;
use crate::text_edit::trimmed;
use crate::data::UiData;
use crate::report_laws::{line_says, notices, only_told};
use crate::request::RequestTracker;
use crate::service_laws::waits_for;
use crate::text::{TextKey, ToastKind};
use crate::webdav::{
    jianguoyun, reported, webdav_received, webdav_reloaded, ErrorNote, SyncDecision, SyncSummary,
    WebDavDone, WebDavErr, WebDavMsg, WebDavReload, WebDavReqKind, WebDavStep,
};

verus! {

/// The settings of the quick setup name the service, the place in it and the
/// profile; the user's name and password come without white space around them,
/// and nothing has been synchronised yet.
pub proof fn quick_settings(username: Seq<char>, password: Seq<char>)
    ensures
        ({
            let settings = jianguoyun(username, password);
            &&& settings.enabled
            &&& settings.base_url == "https://dav.jianguoyun.com/dav"@
            &&& settings.remote_root == "cc-switch-sync"@
            &&& settings.profile == "default"@
            &&& settings.username == trimmed(username)
            &&& settings.password == trimmed(password)
            &&& settings.last_sync_at is None
            &&& settings.last_error is None
        }),
{
}

/// A request that ended is reported as what was asked for, with what was decided
/// and said; one that failed with its reason.
pub proof fn requests_are_reported_as_what_they_were(
    req: WebDavReqKind,
    result: Result<SyncSummary, String>,
    outcome: Result<WebDavDone, WebDavErr>,
)
    requires
        reported(req, result, outcome),
    ensures
        result matches Err(error) ==> outcome == Err::<WebDavDone, WebDavErr>(
            WebDavErr::Generic(error),
        ),
        result matches Ok(summary) ==> {
            &&& outcome matches Ok(done)
            &&& req is Upload ==> done == (WebDavDone::Uploaded {
                decision: summary.decision,
                message: summary.message,
            })
            &&& req is Download ==> done == (WebDavDone::Downloaded {
                decision: summary.decision,
                message: summary.message,
            })
            &&& req is MigrateV1ToV2 ==> done == (WebDavDone::V1Migrated {
                message: summary.message,
            })
            &&& req is CheckConnection || req is JianguoyunQuickSetup
                ==> done is ConnectionChecked
        },
{
}

/// A report that another request has replaced changes nothing, and nothing is
/// left to do after it.
pub proof fn replaced_reports_are_ignored(
    before: AppView,
    loading: RequestTracker,
    msg: WebDavMsg,
    after: AppView,
    loading_after: RequestTracker,
    step: WebDavStep,
)
    requires
        webdav_received(before, loading, msg, after, loading_after, step),
        loading.active is Some,
        loading.active != Some(msg.request_id),
    ensures
        after == before,
        loading_after == loading,
        step is Ignored,
{
}

/// Any other report ends the wait and is followed by loading everything anew.
/// What waits over the screens goes, unless the next thing is put there. What
/// comes of success is said at once.
pub proof fn synchronisations_end(
    before: AppView,
    loading: RequestTracker,
    msg: WebDavMsg,
    after: AppView,
    loading_after: RequestTracker,
    step: WebDavStep,
)
    requires
        webdav_received(before, loading, msg, after, loading_after, step),
        loading.active is None || loading.active == Some(msg.request_id),
    ensures
        step is Reload,
        loading_after == (RequestTracker { seq: loading.seq, active: None }),
        only_told(before, after),
        ({
            let asks = msg.result matches Ok(WebDavDone::Downloaded { decision, .. }) && decision
                == SyncDecision::V1MigrationNeeded;
            let waited = loading.active is Some && waits_for(
                before.overlay,
                LoadingKind::WebDav,
            );
            &&& asks ==> {
                &&& after.toast == before.toast
                &&& after.overlay matches OverlayView::Confirm { title, message, action }
                &&& line_says(title, TextKey::WebDavV1MigrationTitle, seq![])
                &&& line_says(message, TextKey::WebDavV1MigrationMessage, seq![])
                &&& action is WebDavMigrateV1ToV2
            }
            &&& !asks && waited ==> after.overlay is Absent
            &&& !asks && !waited ==> after.overlay == before.overlay
        }),
        msg.result is Err ==> after.toast == before.toast,
        msg.result matches Ok(WebDavDone::ConnectionChecked) ==> notices(
            after,
            ToastKind::Success,
            TextKey::WebDavConnectionOk,
            seq![],
        ),
        msg.result matches Ok(WebDavDone::Uploaded { decision, message }) ==> {
            &&& decision == SyncDecision::Upload ==> notices(
                after,
                ToastKind::Success,
                TextKey::WebDavUploadOk,
                seq![],
            )
            &&& decision != SyncDecision::Upload ==> notices(
                after,
                ToastKind::Success,
                TextKey::Verbatim,
                seq![message@],
            )
        },
        msg.result matches Ok(WebDavDone::Downloaded { decision, message }) ==> {
            &&& decision == SyncDecision::Download ==> notices(
                after,
                ToastKind::Success,
                TextKey::WebDavDownloadOk,
                seq![],
            )
            &&& decision != SyncDecision::Download && decision != SyncDecision::V1MigrationNeeded
                ==> notices(after, ToastKind::Success, TextKey::Verbatim, seq![message@])
        },
        msg.result matches Ok(WebDavDone::V1Migrated { .. }) ==> notices(
            after,
            ToastKind::Success,
            TextKey::WebDavV1MigrationOk,
            seq![],
        ),
        msg.result matches Ok(WebDavDone::JianguoyunConfigured) ==> notices(
            after,
            ToastKind::Success,
            TextKey::WebDavJianguoyunConfigured,
            seq![],
        ),
{
}

/// After a success only a connection that works clears the error noted before.
/// The applications are brought in step, and all that is kept is thrown away,
/// exactly where something was taken over: a download that needs no migration
/// first, or a migration.
pub proof fn successes_are_followed_up(
    before: AppView,
    loading: RequestTracker,
    msg: WebDavMsg,
    after: AppView,
    loading_after: RequestTracker,
    reload: WebDavReload,
)
    requires
        webdav_received(before, loading, msg, after, loading_after, WebDavStep::Reload(reload)),
        msg.result is Ok,
    ensures
        reload.notice is None,
        msg.result->Ok_0 is ConnectionChecked ==> reload.note is Clear,
        !(msg.result->Ok_0 is ConnectionChecked) ==> reload.note is Keep,
        ({
            let taken = msg.result->Ok_0 is V1Migrated || (
            msg.result->Ok_0 matches WebDavDone::Downloaded { decision, .. } && decision
                != SyncDecision::V1MigrationNeeded);
            &&& reload.sync_live == taken
            &&& taken ==> reload.invalidation is AppStateRecreated
            &&& !taken ==> reload.invalidation is DataReloaded
        }),
{
}

/// The reason that an error gives.
pub open spec fn gives_reason(error: WebDavErr, reason: Seq<char>) -> bool {
    match error {
        WebDavErr::Generic(text) => text@ == reason,
        WebDavErr::QuickSetupSave(text) => text@ == reason,
        WebDavErr::QuickSetupCheck(text) => text@ == reason,
    }
}

/// After a failure its reason is noted, and said in words that fit what was
/// asked for once everything is loaded. Nothing was taken over.
pub proof fn failures_are_noted_and_told(
    before: AppView,
    loading: RequestTracker,
    msg: WebDavMsg,
    after: AppView,
    loading_after: RequestTracker,
    reload: WebDavReload,
    reason: Seq<char>,
)
    requires
        webdav_received(before, loading, msg, after, loading_after, WebDavStep::Reload(reload)),
        msg.result matches Err(error) && gives_reason(error, reason),
    ensures
        !reload.sync_live,
        reload.invalidation is DataReloaded,
        reload.note matches ErrorNote::Record(noted) && noted@ == reason,
        reload.notice matches Some(notice) && {
            &&& msg.req is CheckConnection ==> line_says(
                notice@,
                TextKey::WebDavCheckConnectionFailed,
                seq![reason],
            )
            &&& msg.req is Upload ==> line_says(
                notice@,
                TextKey::WebDavUploadFailed,
                seq![reason],
            )
            &&& msg.req is Download ==> line_says(
                notice@,
                TextKey::WebDavDownloadFailed,
                seq![reason],
            )
            &&& msg.req is MigrateV1ToV2 ==> line_says(
                notice@,
                TextKey::WebDavV1MigrationFailed,
                seq![reason],
            )
            &&& msg.req is JianguoyunQuickSetup && msg.result->Err_0 is QuickSetupCheck
                ==> line_says(notice@, TextKey::WebDavQuickSetupFailed, seq![reason])
            &&& msg.req is JianguoyunQuickSetup && !(msg.result->Err_0 is QuickSetupCheck)
                ==> line_says(notice@, TextKey::WebDavQuickSetupActionFailed, seq![reason])
        },
{
}

/// Data that was loaded anew is shown, and what failed is said beside it. Where
/// it could not be loaded, nothing changes and the reason is handed on.
pub proof fn reports_end_with_new_data(
    before: AppView,
    shown: UiData,
    reload: WebDavReload,
    loaded: Result<UiData, String>,
    after: AppView,
    shown_after: UiData,
    result: Result<CacheInvalidation, String>,
)
    requires
        webdav_reloaded(before, shown, reload, loaded, after, shown_after, result),
    ensures
        loaded matches Err(error) ==> {
            &&& result matches Err(told)
            &&& told == error
            &&& after == before
            &&& shown_after@ == shown@
        },
        loaded matches Ok(new) ==> {
            &&& result matches Ok(what)
            &&& what == reload.invalidation
            &&& shown_after == new
            &&& after == (AppView { toast: after.toast, ..before })
            &&& reload.notice is None ==> after.toast == before.toast
            &&& reload.notice matches Some(notice) ==> {
                &&& after.toast matches Some(toast)
                &&& toast.message == notice@
                &&& toast.kind == ToastKind::Error
                &&& !toast.persistent
            }
        },
{
}

} // verus!
