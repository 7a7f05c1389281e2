//! What the reports of the services are for, field by field.

use vstd::prelude::*;

use crate::app::{AppView, OverlayView};
use crate::base::views;
use crate::chars::blank;
use crate::checks::{
    check_lines, check_received, models_received, speedtest_lines, speedtest_received,
    EndpointLatency, ModelFetchMsg, SpeedtestMsg, StreamCheckMsg, StreamCheckResult,
};
use crate::local_env::{
    env_asked, env_checked, sent_after_env_asked, LocalEnvReq, ToolCheckView,
};
use crate::outbox::Link;
use crate::request::RequestTracker;
use crate::text::{decimal_text, TextKey, TextView, ToastKind, ToastView};
use crate::update::{after_check, update_received, UpdateMsg};

verus! {

/// This is what the user is told.
pub open spec fn notices(
    app: AppView,
    kind: ToastKind,
    key: TextKey,
    args: Seq<Seq<char>>,
) -> bool {
    app.toast == Some(ToastView { message: TextView { key, args }, kind, persistent: false })
}

/// Nothing but what lies over the screens, and what the user is told, differs.
pub open spec fn only_told(before: AppView, after: AppView) -> bool {
    after == (AppView { overlay: after.overlay, toast: after.toast, ..before })
}

/// A line says this, with this put into it.
pub open spec fn line_says(line: TextView, key: TextKey, args: Seq<Seq<char>>) -> bool {
    line.key == key && line.args =~= args
}

/// A line gives this number, or none where there is none.
pub open spec fn line_counts(line: TextView, key: TextKey, number: Option<nat>) -> bool {
    line.key == key && match number {
        Some(number) => line.args =~= seq![decimal_text(number)],
        None => line.args.len() == 0,
    }
}

/// The lines on a provider that was asked tell, in this order, its name, how it
/// is, its model, how long it took, its status code, how often it was asked
/// again, and what it answered.
pub proof fn check_lines_tell_what_was_found(provider_name: Seq<char>, result: StreamCheckResult)
    ensures
        ({
            let lines = check_lines(provider_name, result);
            &&& lines.len() == 7
            &&& line_says(lines[0], TextKey::StreamCheckLineProvider, seq![provider_name])
            &&& result.status is Operational ==> line_says(
                lines[1],
                TextKey::StreamCheckLineStatus,
                seq!["operational"@],
            )
            &&& result.status is Degraded ==> line_says(
                lines[1],
                TextKey::StreamCheckLineStatus,
                seq!["degraded"@],
            )
            &&& result.status is Failed ==> line_says(
                lines[1],
                TextKey::StreamCheckLineStatus,
                seq!["failed"@],
            )
            &&& line_says(lines[2], TextKey::StreamCheckLineModel, seq![result.model_used@])
            &&& line_counts(
                lines[3],
                TextKey::StreamCheckLineResponseTime,
                match result.response_time_ms {
                    Some(ms) => Some(ms as nat),
                    None => None,
                },
            )
            &&& line_counts(
                lines[4],
                TextKey::StreamCheckLineHttpStatus,
                match result.http_status {
                    Some(status) => Some(status as nat),
                    None => None,
                },
            )
            &&& line_counts(
                lines[5],
                TextKey::StreamCheckLineRetries,
                Some(result.retry_count as nat),
            )
            &&& line_says(lines[6], TextKey::StreamCheckLineMessage, seq![result.message@])
        }),
{
}

/// What was found of a provider is shown, from the top, where its check is
/// looked at; elsewhere the end of the check is told, and nothing else. A check
/// that failed closes what waits for it, and says why.
pub proof fn checks_are_answered(before: AppView, msg: StreamCheckMsg)
    ensures
        ({
            let after = check_received(before, msg);
            let waits = before.overlay matches OverlayView::StreamCheckRunning {
                provider_id,
                ..
            } && provider_id == msg.req.provider_id@;
            &&& only_told(before, after)
            &&& !waits ==> after.overlay == before.overlay
            &&& waits && msg.result is Ok ==> {
                &&& after.toast == before.toast
                &&& after.overlay matches OverlayView::StreamCheckResult {
                    provider_name,
                    lines,
                    scroll,
                }
                &&& provider_name == msg.req.provider_name@
                &&& lines == check_lines(msg.req.provider_name@, msg.result->Ok_0)
                &&& scroll == 0
            }
            &&& !waits && msg.result is Ok ==> notices(
                after,
                ToastKind::Success,
                TextKey::StreamCheckFinished,
                seq![],
            )
            &&& msg.result matches Err(error) ==> {
                &&& notices(
                    after,
                    ToastKind::Error,
                    TextKey::StreamCheckFailed,
                    seq![error@],
                )
                &&& waits ==> after.overlay is Absent
            }
        }),
{
}

/// How fast an address is is shown where its measurement is looked at;
/// elsewhere its end is told, and nothing else. One that failed closes what
/// waits for it, and says why.
pub proof fn measurements_are_answered(before: AppView, msg: SpeedtestMsg)
    ensures
        ({
            let after = speedtest_received(before, msg);
            let waits = before.overlay matches OverlayView::SpeedtestRunning { url } && url
                == msg.url@;
            &&& only_told(before, after)
            &&& !waits ==> after.overlay == before.overlay
            &&& waits && msg.result is Ok ==> {
                &&& after.toast == before.toast
                &&& after.overlay matches OverlayView::SpeedtestResult { url, lines, scroll }
                &&& url == msg.url@
                &&& lines == speedtest_lines(msg.url@, msg.result->Ok_0@)
                &&& scroll == 0
            }
            &&& !waits && msg.result is Ok ==> notices(
                after,
                ToastKind::Success,
                TextKey::SpeedtestFinished,
                seq![],
            )
            &&& msg.result matches Err(error) ==> {
                &&& notices(after, ToastKind::Error, TextKey::SpeedtestFailed, seq![error@])
                &&& waits ==> after.overlay is Absent
            }
        }),
{
}

/// The lines on an address begin with it and an empty one. Each measurement
/// adds its time and its status, and its error where that says something.
pub proof fn measurement_lines_tell_what_was_found(
    url: Seq<char>,
    rows: Seq<EndpointLatency>,
    row: EndpointLatency,
)
    ensures
        ({
            let none = speedtest_lines(url, seq![]);
            &&& none.len() == 2
            &&& line_says(none[0], TextKey::SpeedtestLineUrl, seq![url])
            &&& line_says(none[1], TextKey::Verbatim, seq![seq![]])
        }),
        ({
            let before = speedtest_lines(url, rows);
            let after = speedtest_lines(url, rows.push(row));
            let tells = row.error matches Some(error) && !blank(error@);
            let n = before.len() as int;
            &&& after.len() == n + if tells {
                3int
            } else {
                2int
            }
            &&& after.take(n) == before
            &&& line_counts(
                after[n],
                TextKey::SpeedtestLineLatency,
                match row.latency {
                    Some(ms) => Some(ms as nat),
                    None => None,
                },
            )
            &&& line_counts(
                after[n + 1],
                TextKey::SpeedtestLineStatus,
                match row.status {
                    Some(status) => Some(status as nat),
                    None => None,
                },
            )
            &&& tells ==> line_says(
                after[n + 2],
                TextKey::SpeedtestLineError,
                seq![row.error->0@],
            )
        }),
{
    assert(rows.push(row).drop_last() =~= rows);
    assert(rows.push(row).last() == row);
    let before = speedtest_lines(url, rows);
    assert(speedtest_lines(url, rows.push(row)).take(before.len() as int) =~= before);
    assert(line_says(speedtest_lines(url, seq![])[1], TextKey::Verbatim, seq![seq![]]));
}

/// The picker that asked for models stops waiting. It lists the models that
/// came; where none came it lists what it listed before, and says why.
pub proof fn models_asked_for_are_listed(before: OverlayView, msg: ModelFetchMsg)
    requires
        before matches OverlayView::ModelFetchPicker { request_id, field, claude_idx, .. }
            && request_id == msg.request_id && field == msg.field && claude_idx == msg.claude_idx,
    ensures
        models_received(before, msg) matches OverlayView::ModelFetchPicker {
            request_id,
            field,
            claude_idx,
            fetching,
            models,
            error,
        } && {
            &&& request_id == msg.request_id
            &&& field == msg.field
            &&& claude_idx == msg.claude_idx
            &&& !fetching
            &&& (msg.result matches Ok(fetched) && fetched@.len() > 0) ==> {
                &&& models == views(msg.result->Ok_0@)
                &&& error is None
            }
            &&& !(msg.result matches Ok(fetched) && fetched@.len() > 0) ==> {
                &&& models == before->ModelFetchPicker_models
                &&& error matches Some(hint)
                &&& msg.result is Ok ==> line_says(hint, TextKey::ModelFetchNoModels, seq![])
                &&& msg.result matches Err(reason) ==> line_says(
                    hint,
                    TextKey::ModelFetchErrorHint,
                    seq![reason@],
                )
            }
        },
{
}

/// The answer to the check that is waited for ends the wait. It offers the
/// version found where the program can go to it by itself, with going there
/// chosen; else it closes what waited and says why not.
pub proof fn checks_for_updates_are_answered(
    before: AppView,
    tracker: RequestTracker,
    msg: UpdateMsg,
)
    requires
        msg matches UpdateMsg::CheckFinished { request_id, .. } && tracker.active == Some(
            request_id,
        ),
    ensures
        ({
            let after = update_received(before, tracker, msg);
            &&& only_told(before, after)
            &&& after_check(tracker, msg) == (RequestTracker { seq: tracker.seq, active: None })
            &&& msg->CheckFinished_result matches Err(error) ==> {
                &&& after.overlay is Absent
                &&& notices(after, ToastKind::Error, TextKey::UpdateCheckFailed, seq![error@])
            }
            &&& msg->CheckFinished_result matches Ok(info) ==> {
                let stays = info.is_already_latest || info.is_homebrew_managed
                    || info.is_downgrade;
                &&& stays ==> after.overlay is Absent
                &&& info.is_already_latest ==> notices(
                    after,
                    ToastKind::Success,
                    TextKey::AlreadyLatest,
                    seq![info.current_version@],
                )
                &&& !info.is_already_latest && info.is_homebrew_managed ==> notices(
                    after,
                    ToastKind::Info,
                    TextKey::UpdateHomebrewRequired,
                    seq![info.current_version@, info.target_tag@],
                )
                &&& !info.is_already_latest && !info.is_homebrew_managed && info.is_downgrade
                    ==> notices(
                    after,
                    ToastKind::Info,
                    TextKey::UpdateDowngrade,
                    seq![info.current_version@, info.target_tag@],
                )
                &&& !stays ==> after.toast == before.toast && after.overlay
                    == (OverlayView::UpdateAvailable {
                    current: info.current_version@,
                    latest: info.target_tag@,
                    selected: 0,
                })
            }
        }),
{
}

/// How far a download has come is shown where it is looked at. Its end is shown
/// in any case: the version that is there now, or what went wrong. Neither
/// touches a check that is waited for.
pub proof fn downloads_are_followed(before: AppView, tracker: RequestTracker, msg: UpdateMsg)
    ensures
        !(msg is CheckFinished) ==> {
            let after = update_received(before, tracker, msg);
            &&& after_check(tracker, msg) == tracker
            &&& after == (AppView { overlay: after.overlay, ..before })
        },
        msg matches UpdateMsg::DownloadProgress { downloaded, total } ==> (update_received(
            before,
            tracker,
            msg,
        ).overlay == (if before.overlay is UpdateDownloading {
            OverlayView::UpdateDownloading { downloaded, total }
        } else {
            before.overlay
        })),
        msg matches UpdateMsg::DownloadFinished(result) ==> (update_received(
            before,
            tracker,
            msg,
        ).overlay matches OverlayView::UpdateResult { success, message } && {
            &&& success == result is Ok
            &&& result matches Ok(tag) ==> line_says(
                message,
                TextKey::UpdateSuccess,
                seq![tag@],
            )
            &&& result matches Err(reason) ==> message == reason@
        }),
{
}

/// What was found on the machine is shown in place of what was found before,
/// and nothing is waited for any more.
pub proof fn machine_checks_are_shown(before: AppView, results: Seq<ToolCheckView>)
    ensures
        ({
            let after = env_checked(before, results);
            &&& after.local_env.results == results
            &&& !after.local_env.loading
            &&& after.local_env.generation == before.local_env.generation
            &&& after == (AppView { local_env: after.local_env, ..before })
        }),
{
}

/// A check of the machine is asked for under a new number, and waited for,
/// where there is somebody to ask. What was found before stays on screen.
pub proof fn machine_checks_are_asked_for(before: AppView, link: Link, sent: Seq<LocalEnvReq>)
    ensures
        ({
            let after = env_asked(before, link);
            let sent_after = sent_after_env_asked(before.local_env, link, sent);
            &&& after.local_env.results == before.local_env.results
            &&& after.local_env.loading == (link == Link::Open)
            &&& after == (AppView {
                local_env: after.local_env,
                toast: after.toast,
                ..before
            })
            &&& link != Link::Open ==> sent_after == sent
            &&& link == Link::Open ==> {
                &&& sent_after == sent + seq![
                    LocalEnvReq::Refresh { generation: after.local_env.generation },
                ]
                &&& before.local_env.generation < u64::MAX ==> after.local_env.generation
                    == before.local_env.generation + 1
            }
            &&& link == Link::Missing ==> after.local_env.generation
                == before.local_env.generation
            &&& link != Link::Closed ==> after.toast == before.toast
            &&& link == Link::Closed ==> {
                &&& after.toast matches Some(toast)
                &&& toast.kind == ToastKind::Warning
                &&& toast.message.key == TextKey::LocalEnvCheckRequestFailed
            }
        }),
{
    let sent_after = sent_after_env_asked(before.local_env, link, sent);
    if link == Link::Open {
        assert(sent_after =~= sent + seq![
            LocalEnvReq::Refresh { generation: env_asked(before, link).local_env.generation },
        ]);
    }
}

} // verus!
