//! Looking for a newer version of the program, and fetching it.

use vstd::prelude::*;

use crate::app::{App, AppView, Overlay, OverlayView};
use crate::base::{opt_view, Duplicate};
use crate::request::RequestTracker;
use crate::text::{Text, TextKey, TextView, ToastKind};

verus! {

/// What is known of the version to go to.
#[derive(Debug)]
pub struct UpdateCheckInfo {
    pub current_version: String,
    pub target_tag: String,
    pub is_already_latest: bool,
    pub is_downgrade: bool,
    /// A package manager is in charge of the program.
    pub is_homebrew_managed: bool,
}

#[derive(Debug, Clone, Copy, PartialEq, Eq, Structural)]
pub enum UpdateReq {
    Check { request_id: u64 },
    Download,
}

#[derive(Debug)]
pub enum UpdateMsg {
    CheckFinished { request_id: u64, result: Result<UpdateCheckInfo, String> },
    DownloadProgress { downloaded: u64, total: Option<u64> },
    /// The version that was put in place.
    DownloadFinished(Result<String, Text>),
}

/// What is shown of a version to go to. Only one that can and should be fetched
/// is offered.
pub open spec fn offered(app: AppView, info: UpdateCheckInfo) -> AppView {
    let closed = AppView { overlay: OverlayView::Absent, ..app };
    let versions = |key: TextKey|
        TextView::with_two(key, info.current_version@, info.target_tag@);
    if info.is_already_latest {
        closed.told(
            ToastKind::Success,
            TextView::with(TextKey::AlreadyLatest, info.current_version@),
        )
    } else if info.is_homebrew_managed {
        closed.told(ToastKind::Info, versions(TextKey::UpdateHomebrewRequired))
    } else if info.is_downgrade {
        closed.told(ToastKind::Info, versions(TextKey::UpdateDowngrade))
    } else {
        AppView {
            overlay: OverlayView::UpdateAvailable {
                current: info.current_version@,
                latest: info.target_tag@,
                selected: 0,
            },
            ..app
        }
    }
}

/// What is made of news about an update. A check that was called off is not
/// looked at; progress counts only while it is shown.
pub open spec fn update_received(
    app: AppView,
    tracker: RequestTracker,
    msg: UpdateMsg,
) -> AppView {
    match msg {
        UpdateMsg::CheckFinished { request_id, result } => if tracker.active != Some(request_id) {
            app
        } else {
            match result {
                Ok(info) => offered(app, info),
                Err(error) => AppView { overlay: OverlayView::Absent, ..app }.told(
                    ToastKind::Error,
                    TextView::with(TextKey::UpdateCheckFailed, error@),
                ),
            }
        },
        UpdateMsg::DownloadProgress { downloaded, total } => if app.overlay is UpdateDownloading {
            AppView { overlay: OverlayView::UpdateDownloading { downloaded, total }, ..app }
        } else {
            app
        },
        UpdateMsg::DownloadFinished(result) => AppView {
            overlay: match result {
                Ok(tag) => OverlayView::UpdateResult {
                    success: true,
                    message: TextView::with(TextKey::UpdateSuccess, tag@),
                },
                Err(message) => OverlayView::UpdateResult { success: false, message: message@ },
            },
            ..app
        },
    }
}

fn offer(app: &mut App, info: UpdateCheckInfo)
    ensures
        final(app)@ == offered(old(app)@, info),
{
    if info.is_already_latest {
        app.overlay = Overlay::Absent;
        app.push_toast(
            Text::with(TextKey::AlreadyLatest, info.current_version.as_str()),
            ToastKind::Success,
        );
    } else if info.is_homebrew_managed {
        app.overlay = Overlay::Absent;
        app.push_toast(
            Text::with_two(
                TextKey::UpdateHomebrewRequired,
                info.current_version.as_str(),
                info.target_tag.as_str(),
            ),
            ToastKind::Info,
        );
    } else if info.is_downgrade {
        app.overlay = Overlay::Absent;
        app.push_toast(
            Text::with_two(
                TextKey::UpdateDowngrade,
                info.current_version.as_str(),
                info.target_tag.as_str(),
            ),
            ToastKind::Info,
        );
    } else {
        app.overlay = Overlay::UpdateAvailable {
            current: info.current_version,
            latest: info.target_tag,
            selected: 0,
        };
    }
}

/// Which check is waited for once a report has come.
pub open spec fn after_check(tracker: RequestTracker, msg: UpdateMsg) -> RequestTracker {
    match msg {
        UpdateMsg::CheckFinished { request_id, .. } => if tracker.active == Some(request_id) {
            tracker.idle()
        } else {
            tracker
        },
        _ => tracker,
    }
}

pub fn handle_update_msg(app: &mut App, update_check: &mut RequestTracker, msg: UpdateMsg)
    ensures
        final(app)@ == update_received(old(app)@, *old(update_check), msg),
        *final(update_check) == after_check(*old(update_check), msg),
{
    match msg {
        UpdateMsg::CheckFinished { request_id, result } => {
            if !update_check.finish_if_active(request_id) {
                return ;
            }
            match result {
                Ok(info) => offer(app, info),
                Err(error) => {
                    app.overlay = Overlay::Absent;
                    app.push_toast(
                        Text::with(TextKey::UpdateCheckFailed, error.as_str()),
                        ToastKind::Error,
                    );
                },
            }
        },
        UpdateMsg::DownloadProgress { downloaded, total } => {
            let shown = match &app.overlay {
                Overlay::UpdateDownloading { .. } => true,
                _ => false,
            };
            if shown {
                app.overlay = Overlay::UpdateDownloading { downloaded, total };
            }
        },
        UpdateMsg::DownloadFinished(result) => {
            app.overlay = match result {
                Ok(tag) => Overlay::UpdateResult {
                    success: true,
                    message: Text::with(TextKey::UpdateSuccess, tag.as_str()),
                },
                Err(message) => Overlay::UpdateResult { success: false, message },
            };
        },
    }
}

/// The update worker: it fetches the version that it found last.
#[derive(Debug)]
pub struct UpdateWorker {
    pub last_tag: Option<String>,
}

impl UpdateWorker {
    pub fn new() -> (worker: UpdateWorker)
        ensures
            worker.last_tag is None,
    {
        UpdateWorker { last_tag: None }
    }

    /// A check is over. One that failed leaves the version found before.
    pub fn on_checked(
        &mut self,
        request_id: u64,
        result: Result<UpdateCheckInfo, String>,
    ) -> (msg: UpdateMsg)
        ensures
            msg == (UpdateMsg::CheckFinished { request_id, result }),
            opt_view(final(self).last_tag) == (match result {
                Ok(info) => Some(info.target_tag@),
                Err(_) => opt_view(old(self).last_tag),
            }),
    {
        if let Ok(info) = &result {
            self.last_tag = Some(info.target_tag.duplicate());
        }
        UpdateMsg::CheckFinished { request_id, result }
    }

    /// The version to fetch, or what is answered where none was found.
    pub fn on_download(&self) -> (tag: Result<String, UpdateMsg>)
        ensures
            match self.last_tag {
                Some(last) => tag matches Ok(tag) && tag@ == last@,
                None => tag matches Err(UpdateMsg::DownloadFinished(Err(message))) && message@
                    == TextView::plain(TextKey::UpdateCheckFirst),
            },
    {
        match &self.last_tag {
            Some(tag) => Ok(tag.duplicate()),
            None => Err(UpdateMsg::DownloadFinished(Err(Text::plain(TextKey::UpdateCheckFirst)))),
        }
    }

    /// What is answered where the worker cannot work at all.
    pub fn refuse(req: UpdateReq, error: String) -> (msg: UpdateMsg)
        ensures
            match req {
                UpdateReq::Check { request_id } => msg == (UpdateMsg::CheckFinished {
                    request_id,
                    result: Err(error),
                }),
                UpdateReq::Download => msg matches UpdateMsg::DownloadFinished(Err(message))
                    && message@ == TextView::verbatim(error@),
            },
    {
        match req {
            UpdateReq::Check { request_id } => UpdateMsg::CheckFinished {
                request_id,
                result: Err(error),
            },
            UpdateReq::Download => UpdateMsg::DownloadFinished(
                Err(Text::verbatim(error.as_str())),
            ),
        }
    }
}

/// A check that was called off, or replaced by another, changes nothing.
pub proof fn cancelled_checks_are_ignored(
    app: AppView,
    tracker: RequestTracker,
    request_id: u64,
    result: Result<UpdateCheckInfo, String>,
)
    requires
        tracker.active != Some(request_id),
    ensures
        update_received(app, tracker, UpdateMsg::CheckFinished { request_id, result }) == app,
{
}

} // verus!
