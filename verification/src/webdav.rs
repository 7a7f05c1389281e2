//! Keeping the configuration in step with a WebDAV server.

use vstd::prelude::*;

use crate::app::{App, AppView, ConfirmAction, ConfirmOverlay, LoadingKind, Overlay, OverlayView};
use crate::base::{opt_view, Duplicate};
use crate::cache::CacheInvalidation;
use crate::data::UiData;
use crate::queues::latest_of;
use crate::request::RequestTracker;
use crate::text::{Text, TextKey, TextView, ToastKind};
use crate::text_edit::{trim, trimmed};

verus! {

/// What a synchronisation came to.
#[derive(Debug, Clone, Copy, PartialEq, Eq, Structural)]
pub enum SyncDecision {
    Upload,
    Download,
    /// The server holds data of the first format.
    V1MigrationNeeded,
    /// Neither side had anything for the other.
    NothingToDo,
}

#[derive(Debug)]
pub struct SyncSummary {
    pub decision: SyncDecision,
    pub message: String,
}

#[derive(Debug)]
pub enum WebDavReqKind {
    CheckConnection,
    Upload,
    Download,
    MigrateV1ToV2,
    JianguoyunQuickSetup { username: String, password: String },
}

#[derive(Debug)]
pub struct WebDavReq {
    pub request_id: u64,
    pub kind: WebDavReqKind,
}

#[allow(inconsistent_fields)]
#[derive(Debug)]
pub enum WebDavDone {
    ConnectionChecked,
    Uploaded { decision: SyncDecision, message: String },
    Downloaded { decision: SyncDecision, message: String },
    V1Migrated { message: String },
    JianguoyunConfigured,
}

#[derive(Debug)]
pub enum WebDavErr {
    Generic(String),
    QuickSetupSave(String),
    QuickSetupCheck(String),
}

impl WebDavErr {
    pub open spec fn spec_detail(self) -> Seq<char> {
        match self {
            WebDavErr::Generic(error) => error@,
            WebDavErr::QuickSetupSave(error) => error@,
            WebDavErr::QuickSetupCheck(error) => error@,
        }
    }

    pub fn detail(&self) -> (detail: &String)
        ensures
            detail@ == self.spec_detail(),
    {
        match self {
            WebDavErr::Generic(error) => error,
            WebDavErr::QuickSetupSave(error) => error,
            WebDavErr::QuickSetupCheck(error) => error,
        }
    }
}

#[derive(Debug)]
pub struct WebDavMsg {
    pub request_id: u64,
    pub req: WebDavReqKind,
    pub result: Result<WebDavDone, WebDavErr>,
}

// Settings.

/// How the last synchronisation went.
#[derive(Debug)]
pub struct WebDavSyncStatus {
    pub last_sync_at: Option<i64>,
    pub last_error: Option<String>,
}

#[derive(Debug)]
pub struct WebDavSyncSettings {
    pub enabled: bool,
    pub base_url: String,
    pub remote_root: String,
    pub profile: String,
    pub username: String,
    pub password: String,
    pub status: WebDavSyncStatus,
}

#[verifier::ext_equal]
pub struct SettingsView {
    pub enabled: bool,
    pub base_url: Seq<char>,
    pub remote_root: Seq<char>,
    pub profile: Seq<char>,
    pub username: Seq<char>,
    pub password: Seq<char>,
    pub last_sync_at: Option<i64>,
    pub last_error: Option<Seq<char>>,
}

impl View for WebDavSyncSettings {
    type V = SettingsView;

    open spec fn view(&self) -> SettingsView {
        SettingsView {
            enabled: self.enabled,
            base_url: self.base_url@,
            remote_root: self.remote_root@,
            profile: self.profile@,
            username: self.username@,
            password: self.password@,
            last_sync_at: self.status.last_sync_at,
            last_error: opt_view(self.status.last_error),
        }
    }
}

impl Default for WebDavSyncSettings {
    fn default() -> (settings: WebDavSyncSettings)
        ensures
            settings@ == (SettingsView {
                enabled: false,
                base_url: Seq::empty(),
                remote_root: "cc-switch-sync"@,
                profile: "default"@,
                username: Seq::empty(),
                password: Seq::empty(),
                last_sync_at: None,
                last_error: None,
            }),
    {
        WebDavSyncSettings {
            enabled: false,
            base_url: String::new(),
            remote_root: "cc-switch-sync".to_owned(),
            profile: "default".to_owned(),
            username: String::new(),
            password: String::new(),
            status: WebDavSyncStatus { last_sync_at: None, last_error: None },
        }
    }
}

/// The settings for an account with Jianguoyun.
pub open spec fn jianguoyun(username: Seq<char>, password: Seq<char>) -> SettingsView {
    SettingsView {
        enabled: true,
        base_url: "https://dav.jianguoyun.com/dav"@,
        remote_root: "cc-switch-sync"@,
        profile: "default"@,
        username: trimmed(username),
        password: trimmed(password),
        last_sync_at: None,
        last_error: None,
    }
}

pub fn webdav_jianguoyun_preset(username: &str, password: &str) -> (settings: WebDavSyncSettings)
    ensures
        settings@ == jianguoyun(username@, password@),
{
    WebDavSyncSettings {
        enabled: true,
        base_url: "https://dav.jianguoyun.com/dav".to_owned(),
        remote_root: "cc-switch-sync".to_owned(),
        profile: "default".to_owned(),
        username: trim(username).to_owned(),
        password: trim(password).to_owned(),
        status: WebDavSyncStatus { last_sync_at: None, last_error: None },
    }
}

/// Saves the settings for an account with Jianguoyun, then tries the connection.
/// Where they cannot be saved, it is not tried.
pub fn apply_webdav_jianguoyun_quick_setup<
    FSave: FnOnce(WebDavSyncSettings) -> Result<(), String>,
    FCheck: FnOnce() -> Result<(), String>,
>(username: &str, password: &str, save_settings: FSave, check_connection: FCheck) -> (result:
    Result<(), String>)
    requires
        forall|settings: WebDavSyncSettings|
            settings@ == jianguoyun(username@, password@) ==> #[trigger] save_settings.requires(
                (settings,),
            ),
        forall|settings: WebDavSyncSettings, saved: Result<(), String>| #[trigger]
            save_settings.ensures((settings,), saved) && saved is Ok
                ==> check_connection.requires(()),
    ensures
        exists|settings: WebDavSyncSettings, saved: Result<(), String>|
            {
                &&& settings@ == jianguoyun(username@, password@)
                &&& #[trigger] save_settings.ensures((settings,), saved)
                &&& match saved {
                    Err(error) => result == Err::<(), String>(error),
                    Ok(()) => check_connection.ensures((), result),
                }
            },
{
    let settings = webdav_jianguoyun_preset(username, password);
    let saved = save_settings(settings);
    match saved {
        Err(error) => Err(error),
        Ok(()) => check_connection(),
    }
}

/// The quick setup as the worker runs it: which step failed is told apart.
pub fn run_quick_setup<
    FSave: FnOnce(WebDavSyncSettings) -> Result<(), String>,
    FCheck: FnOnce() -> Result<(), String>,
>(username: &str, password: &str, save_settings: FSave, check_connection: FCheck) -> (result:
    Result<WebDavDone, WebDavErr>)
    requires
        forall|settings: WebDavSyncSettings|
            settings@ == jianguoyun(username@, password@) ==> #[trigger] save_settings.requires(
                (settings,),
            ),
        forall|settings: WebDavSyncSettings, saved: Result<(), String>| #[trigger]
            save_settings.ensures((settings,), saved) && saved is Ok
                ==> check_connection.requires(()),
    ensures
        exists|settings: WebDavSyncSettings, saved: Result<(), String>|
            {
                &&& settings@ == jianguoyun(username@, password@)
                &&& #[trigger] save_settings.ensures((settings,), saved)
                &&& match saved {
                    Err(error) => result == Err::<WebDavDone, WebDavErr>(
                        WebDavErr::QuickSetupSave(error),
                    ),
                    Ok(()) => exists|checked: Result<(), String>| #[trigger]
                        check_connection.ensures((), checked) && result == (match checked {
                            Err(error) => Err::<WebDavDone, WebDavErr>(
                                WebDavErr::QuickSetupCheck(error),
                            ),
                            Ok(()) => Ok(WebDavDone::JianguoyunConfigured),
                        }),
                }
            },
{
    let settings = webdav_jianguoyun_preset(username, password);
    let saved = save_settings(settings);
    match saved {
        Err(error) => Err(WebDavErr::QuickSetupSave(error)),
        Ok(()) => {
            let checked = check_connection();
            match checked {
                Err(error) => Err(WebDavErr::QuickSetupCheck(error)),
                Ok(()) => Ok(WebDavDone::JianguoyunConfigured),
            }
        },
    }
}

/// Notes how the last synchronisation went, where there are settings to note it
/// in. What becomes of writing them does not matter.
pub fn update_webdav_last_error_with<
    FGet: FnOnce() -> Option<WebDavSyncSettings>,
    FSet: FnOnce(WebDavSyncSettings) -> Result<(), String>,
>(last_error: Option<String>, get: FGet, set: FSet)
    requires
        get.requires(()),
        forall|settings: WebDavSyncSettings, noted: WebDavSyncSettings|
            #![trigger get.ensures((), Some(settings)), set.requires((noted,))]
            get.ensures((), Some(settings)) && noted@ == (SettingsView {
                last_error: opt_view(last_error),
                ..settings@
            }) ==> set.requires((noted,)),
    ensures
        exists|found: Option<WebDavSyncSettings>|
            {
                &&& #[trigger] get.ensures((), found)
                &&& found matches Some(settings) ==> exists|
                    noted: WebDavSyncSettings,
                    written: Result<(), String>,
                | #[trigger] set.ensures((noted,), written) && noted@ == (SettingsView {
                    last_error: opt_view(last_error),
                    ..settings@
                })
            },
{
    match get() {
        None => {},
        Some(settings) => {
            let mut settings = settings;
            settings.status.last_error = last_error;
            let _ = set(settings);
        },
    }
}

// Requests.

/// Of several requests only the last is carried out.
pub fn drain_latest_webdav_req(first: WebDavReq, queued: Vec<WebDavReq>) -> (latest: WebDavReq)
    ensures
        latest == (if queued@.len() == 0 {
            first
        } else {
            queued@.last()
        }),
{
    latest_of(first, queued)
}

/// This is how a request that ended is reported.
pub open spec fn reported(
    req: WebDavReqKind,
    result: Result<SyncSummary, String>,
    outcome: Result<WebDavDone, WebDavErr>,
) -> bool {
    match result {
        Err(error) => outcome == Err::<WebDavDone, WebDavErr>(WebDavErr::Generic(error)),
        Ok(summary) => outcome == Ok::<WebDavDone, WebDavErr>(
            match req {
                WebDavReqKind::Upload => WebDavDone::Uploaded {
                    decision: summary.decision,
                    message: summary.message,
                },
                WebDavReqKind::Download => WebDavDone::Downloaded {
                    decision: summary.decision,
                    message: summary.message,
                },
                WebDavReqKind::MigrateV1ToV2 => WebDavDone::V1Migrated {
                    message: summary.message,
                },
                WebDavReqKind::CheckConnection
                | WebDavReqKind::JianguoyunQuickSetup { .. } => WebDavDone::ConnectionChecked,
            },
        ),
    }
}

/// What a synchronisation is reported as.
pub fn sync_outcome(req: &WebDavReqKind, result: Result<SyncSummary, String>) -> (outcome: Result<
    WebDavDone,
    WebDavErr,
>)
    ensures
        reported(*req, result, outcome),
{
    match result {
        Err(error) => Err(WebDavErr::Generic(error)),
        Ok(summary) => Ok(
            match req {
                WebDavReqKind::Upload => WebDavDone::Uploaded {
                    decision: summary.decision,
                    message: summary.message,
                },
                WebDavReqKind::Download => WebDavDone::Downloaded {
                    decision: summary.decision,
                    message: summary.message,
                },
                WebDavReqKind::MigrateV1ToV2 => WebDavDone::V1Migrated {
                    message: summary.message,
                },
                WebDavReqKind::CheckConnection
                | WebDavReqKind::JianguoyunQuickSetup { .. } => WebDavDone::ConnectionChecked,
            },
        ),
    }
}

// Reports.

/// What is noted of how the last synchronisation went.
#[derive(Debug)]
pub enum ErrorNote {
    /// What is noted stays.
    Keep,
    Clear,
    Record(String),
}

/// What is left to do after a report: note how it went, bring the applications'
/// own configuration in step, load everything anew, and say what failed.
#[derive(Debug)]
pub struct WebDavReload {
    pub note: ErrorNote,
    pub sync_live: bool,
    pub invalidation: CacheInvalidation,
    /// What is said once everything is loaded.
    pub notice: Option<Text>,
}

#[derive(Debug)]
pub enum WebDavStep {
    Ignored,
    Reload(WebDavReload),
}

pub open spec fn without_webdav_loading(overlay: OverlayView) -> OverlayView {
    if overlay matches OverlayView::Loading { kind, .. } && kind == LoadingKind::WebDav {
        OverlayView::Absent
    } else {
        overlay
    }
}

/// The screen once a request is over: the loading overlay goes with the request
/// that is waited for.
pub open spec fn request_over(app: AppView, tracker: RequestTracker, request_id: u64) -> AppView {
    if tracker.active == Some(request_id) {
        AppView { overlay: without_webdav_loading(app.overlay), ..app }
    } else {
        app
    }
}

/// Whether data came from the server.
pub open spec fn took_over(done: WebDavDone) -> bool {
    match done {
        WebDavDone::Downloaded { decision, .. } => decision != SyncDecision::V1MigrationNeeded,
        WebDavDone::V1Migrated { .. } => true,
        _ => false,
    }
}

/// What is shown of a request that succeeded.
pub open spec fn done_shown(app: AppView, done: WebDavDone) -> AppView {
    match done {
        WebDavDone::ConnectionChecked => app.told(
            ToastKind::Success,
            TextView::plain(TextKey::WebDavConnectionOk),
        ),
        WebDavDone::Uploaded { decision, message } => app.told(
            ToastKind::Success,
            if decision == SyncDecision::Upload {
                TextView::plain(TextKey::WebDavUploadOk)
            } else {
                TextView::verbatim(message@)
            },
        ),
        WebDavDone::Downloaded { decision, message } => match decision {
            SyncDecision::V1MigrationNeeded => AppView {
                overlay: OverlayView::Confirm {
                    title: TextView::plain(TextKey::WebDavV1MigrationTitle),
                    message: TextView::plain(TextKey::WebDavV1MigrationMessage),
                    action: ConfirmAction::WebDavMigrateV1ToV2,
                },
                ..app
            },
            SyncDecision::Download => app.told(
                ToastKind::Success,
                TextView::plain(TextKey::WebDavDownloadOk),
            ),
            _ => app.told(ToastKind::Success, TextView::verbatim(message@)),
        },
        WebDavDone::V1Migrated { .. } => app.told(
            ToastKind::Success,
            TextView::plain(TextKey::WebDavV1MigrationOk),
        ),
        WebDavDone::JianguoyunConfigured => app.told(
            ToastKind::Success,
            TextView::plain(TextKey::WebDavJianguoyunConfigured),
        ),
    }
}

/// What is said of a request that failed.
pub open spec fn failure_text(req: WebDavReqKind, error: WebDavErr) -> TextView {
    TextView::with(
        match req {
            WebDavReqKind::CheckConnection => TextKey::WebDavCheckConnectionFailed,
            WebDavReqKind::Upload => TextKey::WebDavUploadFailed,
            WebDavReqKind::Download => TextKey::WebDavDownloadFailed,
            WebDavReqKind::MigrateV1ToV2 => TextKey::WebDavV1MigrationFailed,
            WebDavReqKind::JianguoyunQuickSetup { .. } => if error is QuickSetupCheck {
                TextKey::WebDavQuickSetupFailed
            } else {
                TextKey::WebDavQuickSetupActionFailed
            },
        },
        error.spec_detail(),
    )
}

fn show_done(app: &mut App, done: WebDavDone)
    ensures
        final(app)@ == done_shown(old(app)@, done),
{
    match done {
        WebDavDone::ConnectionChecked => {
            app.push_toast(Text::plain(TextKey::WebDavConnectionOk), ToastKind::Success);
        },
        WebDavDone::Uploaded { decision, message } => {
            let text = match decision {
                SyncDecision::Upload => Text::plain(TextKey::WebDavUploadOk),
                _ => Text::verbatim(message.as_str()),
            };
            app.push_toast(text, ToastKind::Success);
        },
        WebDavDone::Downloaded { decision, message } => match decision {
            SyncDecision::V1MigrationNeeded => {
                app.overlay = Overlay::Confirm(
                    ConfirmOverlay {
                        title: Text::plain(TextKey::WebDavV1MigrationTitle),
                        message: Text::plain(TextKey::WebDavV1MigrationMessage),
                        action: ConfirmAction::WebDavMigrateV1ToV2,
                    },
                );
            },
            SyncDecision::Download => {
                app.push_toast(Text::plain(TextKey::WebDavDownloadOk), ToastKind::Success);
            },
            _ => {
                app.push_toast(Text::verbatim(message.as_str()), ToastKind::Success);
            },
        },
        WebDavDone::V1Migrated { .. } => {
            app.push_toast(Text::plain(TextKey::WebDavV1MigrationOk), ToastKind::Success);
        },
        WebDavDone::JianguoyunConfigured => {
            app.push_toast(
                Text::plain(TextKey::WebDavJianguoyunConfigured),
                ToastKind::Success,
            );
        },
    }
}

fn has_taken_over(done: &WebDavDone) -> (result: bool)
    ensures
        result == took_over(*done),
{
    match done {
        WebDavDone::Downloaded { decision, .. } => match decision {
            SyncDecision::V1MigrationNeeded => false,
            _ => true,
        },
        WebDavDone::V1Migrated { .. } => true,
        _ => false,
    }
}

fn failure(req: &WebDavReqKind, error: &WebDavErr) -> (text: Text)
    ensures
        text@ == failure_text(*req, *error),
{
    let key = match req {
        WebDavReqKind::CheckConnection => TextKey::WebDavCheckConnectionFailed,
        WebDavReqKind::Upload => TextKey::WebDavUploadFailed,
        WebDavReqKind::Download => TextKey::WebDavDownloadFailed,
        WebDavReqKind::MigrateV1ToV2 => TextKey::WebDavV1MigrationFailed,
        WebDavReqKind::JianguoyunQuickSetup { .. } => match error {
            WebDavErr::QuickSetupCheck(_) => TextKey::WebDavQuickSetupFailed,
            _ => TextKey::WebDavQuickSetupActionFailed,
        },
    };
    Text::with(key, error.detail().as_str())
}

fn is_webdav_loading_overlay(app: &App) -> (result: bool)
    ensures
        result == (app@.overlay matches OverlayView::Loading { kind, .. } && kind
            == LoadingKind::WebDav),
{
    match &app.overlay {
        Overlay::Loading { kind: LoadingKind::WebDav, .. } => true,
        _ => false,
    }
}

/// What is made of a report, and what is left to do after it.
pub open spec fn webdav_received(
    before: AppView,
    loading: RequestTracker,
    msg: WebDavMsg,
    after: AppView,
    loading_after: RequestTracker,
    step: WebDavStep,
) -> bool {
    let stale = loading.superseded(msg.request_id);
    let over = request_over(before, loading, msg.request_id);
    &&& step is Ignored == stale
    &&& loading_after == (if stale {
        loading
    } else {
        loading.idle()
    })
    &&& after == (if stale {
        before
    } else {
        match msg.result {
            Ok(done) => done_shown(over, done),
            Err(_) => over,
        }
    })
    &&& step matches WebDavStep::Reload(reload) ==> match msg.result {
        Ok(done) => {
            &&& reload.note == (if done is ConnectionChecked {
                ErrorNote::Clear
            } else {
                ErrorNote::Keep
            })
            &&& reload.sync_live == took_over(done)
            &&& reload.invalidation == (if took_over(done) {
                CacheInvalidation::AppStateRecreated
            } else {
                CacheInvalidation::DataReloaded
            })
            &&& reload.notice is None
        },
        Err(error) => {
            &&& reload.note matches ErrorNote::Record(noted)
            &&& noted@ == error.spec_detail()
            &&& !reload.sync_live
            &&& reload.invalidation == CacheInvalidation::DataReloaded
            &&& reload.notice matches Some(notice)
            &&& notice@ == failure_text(msg.req, error)
        },
    }
}

/// The WebDAV worker has reported. A report that another request has replaced
/// is ignored.
pub fn handle_webdav_msg(app: &mut App, webdav_loading: &mut RequestTracker, msg: WebDavMsg) -> (
    step: WebDavStep)
    ensures
        webdav_received(
            old(app)@,
            *old(webdav_loading),
            msg,
            final(app)@,
            *final(webdav_loading),
            step,
        ),
{
    if webdav_loading.is_stale(msg.request_id) {
        return WebDavStep::Ignored;
    }
    if webdav_loading.finish_if_active(msg.request_id) && is_webdav_loading_overlay(app) {
        app.overlay = Overlay::Absent;
    }
    match msg.result {
        Ok(done) => {
            let taken = has_taken_over(&done);
            let note = match &done {
                WebDavDone::ConnectionChecked => ErrorNote::Clear,
                _ => ErrorNote::Keep,
            };
            show_done(app, done);
            WebDavStep::Reload(
                WebDavReload {
                    note,
                    sync_live: taken,
                    invalidation: if taken {
                        CacheInvalidation::AppStateRecreated
                    } else {
                        CacheInvalidation::DataReloaded
                    },
                    notice: None,
                },
            )
        },
        Err(error) => {
            let notice = failure(&msg.req, &error);
            WebDavStep::Reload(
                WebDavReload {
                    note: ErrorNote::Record(error.detail().duplicate()),
                    sync_live: false,
                    invalidation: CacheInvalidation::DataReloaded,
                    notice: Some(notice),
                },
            )
        },
    }
}

/// What becomes of data that was loaded anew after a report.
pub open spec fn webdav_reloaded(
    before: AppView,
    shown: UiData,
    reload: WebDavReload,
    loaded: Result<UiData, String>,
    after: AppView,
    shown_after: UiData,
    result: Result<CacheInvalidation, String>,
) -> bool {
    match loaded {
        Err(error) => {
            &&& result == Err::<CacheInvalidation, String>(error)
            &&& after == before
            &&& shown_after@ == shown@
        },
        Ok(loaded) => {
            &&& result == Ok::<CacheInvalidation, String>(reload.invalidation)
            &&& shown_after == loaded
            &&& after == (match reload.notice {
                Some(notice) => before.told(ToastKind::Error, notice@),
                None => before,
            })
        },
    }
}

/// Everything was loaded anew after a report. What failed is said only now,
/// beside data that is up to date.
pub fn finish_webdav_reload(
    app: &mut App,
    data: &mut UiData,
    reload: WebDavReload,
    loaded: Result<UiData, String>,
) -> (result: Result<CacheInvalidation, String>)
    ensures
        webdav_reloaded(old(app)@, *old(data), reload, loaded, final(app)@, *final(data), result),
{
    match loaded {
        Err(error) => Err(error),
        Ok(loaded) => {
            *data = loaded;
            if let Some(notice) = reload.notice {
                app.push_toast(notice, ToastKind::Error);
            }
            Ok(reload.invalidation)
        },
    }
}

} // verus!
