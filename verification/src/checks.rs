//! Checks of providers that ran in the background: whether one answers, how
//! fast an address is, and which models one offers.

use vstd::prelude::*;

use crate::app::{App, AppView, ModelField, Overlay, OverlayView};
use crate::base::views;
use crate::chars::{blank, is_blank};
use crate::text::{decimal, decimal_text, Text, TextKey, TextView, ToastKind};

verus! {

// Whether a provider answers.

#[derive(Debug, Clone, Copy, PartialEq, Eq, Structural)]
pub enum HealthStatus {
    Operational,
    Degraded,
    Failed,
}

/// What came of asking a provider for an answer.
#[derive(Debug)]
pub struct StreamCheckResult {
    pub status: HealthStatus,
    pub success: bool,
    pub message: String,
    pub response_time_ms: Option<u64>,
    pub http_status: Option<u16>,
    pub model_used: String,
    pub tested_at: i64,
    pub retry_count: u32,
}

#[derive(Debug)]
pub struct StreamCheckReq {
    pub provider_id: String,
    pub provider_name: String,
}

#[derive(Debug)]
pub struct StreamCheckMsg {
    pub req: StreamCheckReq,
    pub result: Result<StreamCheckResult, String>,
}

pub open spec fn status_name(status: HealthStatus) -> Seq<char> {
    match status {
        HealthStatus::Operational => "operational"@,
        HealthStatus::Degraded => "degraded"@,
        HealthStatus::Failed => "failed"@,
    }
}

/// A line with a number in it, or one that says there is none.
pub open spec fn number_line(key: TextKey, number: Option<nat>) -> TextView {
    match number {
        Some(number) => TextView::with(key, decimal_text(number)),
        None => TextView::plain(key),
    }
}

/// What is said of a check, line by line.
pub open spec fn check_lines(provider_name: Seq<char>, result: StreamCheckResult) -> Seq<TextView> {
    seq![
        TextView::with(TextKey::StreamCheckLineProvider, provider_name),
        TextView::with(TextKey::StreamCheckLineStatus, status_name(result.status)),
        TextView::with(TextKey::StreamCheckLineModel, result.model_used@),
        number_line(
            TextKey::StreamCheckLineResponseTime,
            match result.response_time_ms {
                Some(ms) => Some(ms as nat),
                None => None,
            },
        ),
        number_line(
            TextKey::StreamCheckLineHttpStatus,
            match result.http_status {
                Some(status) => Some(status as nat),
                None => None,
            },
        ),
        number_line(TextKey::StreamCheckLineRetries, Some(result.retry_count as nat)),
        TextView::with(TextKey::StreamCheckLineMessage, result.message@),
    ]
}

fn numbered(key: TextKey, number: Option<u64>) -> (line: Text)
    ensures
        line@ == number_line(
            key,
            match number {
                Some(number) => Some(number as nat),
                None => None,
            },
        ),
{
    match number {
        Some(number) => {
            let digits = decimal(number);
            Text::with(key, digits.as_str())
        },
        None => Text::plain(key),
    }
}

pub fn build_stream_check_result_lines(provider_name: &str, result: &StreamCheckResult) -> (lines:
    Vec<Text>)
    ensures
        views(lines@) == check_lines(provider_name@, *result),
{
    let status = match result.status {
        HealthStatus::Operational => "operational",
        HealthStatus::Degraded => "degraded",
        HealthStatus::Failed => "failed",
    };
    let http_status = match result.http_status {
        Some(status) => Some(status as u64),
        None => None,
    };
    let lines = vec![
        Text::with(TextKey::StreamCheckLineProvider, provider_name),
        Text::with(TextKey::StreamCheckLineStatus, status),
        Text::with(TextKey::StreamCheckLineModel, result.model_used.as_str()),
        numbered(TextKey::StreamCheckLineResponseTime, result.response_time_ms),
        numbered(TextKey::StreamCheckLineHttpStatus, http_status),
        numbered(TextKey::StreamCheckLineRetries, Some(result.retry_count as u64)),
        Text::with(TextKey::StreamCheckLineMessage, result.message.as_str()),
    ];
    assert(views(lines@) =~= check_lines(provider_name@, *result));
    lines
}

/// Whether the screen waits for the check of a provider.
pub open spec fn awaits_check(overlay: OverlayView, provider_id: Seq<char>) -> bool {
    overlay matches OverlayView::StreamCheckRunning { provider_id: running, .. } && running
        == provider_id
}

/// What is made of a check. It is shown where it is waited for; otherwise a
/// notice tells of it.
pub open spec fn check_received(app: AppView, msg: StreamCheckMsg) -> AppView {
    let awaited = awaits_check(app.overlay, msg.req.provider_id@);
    match msg.result {
        Ok(result) => if awaited {
            AppView {
                overlay: OverlayView::StreamCheckResult {
                    provider_name: msg.req.provider_name@,
                    lines: check_lines(msg.req.provider_name@, result),
                    scroll: 0,
                },
                ..app
            }
        } else {
            app.told(ToastKind::Success, TextView::plain(TextKey::StreamCheckFinished))
        },
        Err(error) => {
            let told = app.told(
                ToastKind::Error,
                TextView::with(TextKey::StreamCheckFailed, error@),
            );
            if awaited {
                AppView { overlay: OverlayView::Absent, ..told }
            } else {
                told
            }
        },
    }
}

pub fn handle_stream_check_msg(app: &mut App, msg: StreamCheckMsg)
    ensures
        final(app)@ == check_received(old(app)@, msg),
{
    let awaited = match &app.overlay {
        Overlay::StreamCheckRunning { provider_id, .. } => *provider_id == msg.req.provider_id,
        _ => false,
    };
    match msg.result {
        Ok(result) => {
            if awaited {
                let lines = build_stream_check_result_lines(
                    msg.req.provider_name.as_str(),
                    &result,
                );
                app.overlay = Overlay::StreamCheckResult {
                    provider_name: msg.req.provider_name,
                    lines,
                    scroll: 0,
                };
            } else {
                app.push_toast(Text::plain(TextKey::StreamCheckFinished), ToastKind::Success);
            }
        },
        Err(error) => {
            app.push_toast(
                Text::with(TextKey::StreamCheckFailed, error.as_str()),
                ToastKind::Error,
            );
            if awaited {
                app.overlay = Overlay::Absent;
            }
        },
    }
}

// How fast an address is.

/// One measurement.
#[derive(Debug)]
pub struct EndpointLatency {
    pub latency: Option<u64>,
    pub status: Option<u16>,
    pub error: Option<String>,
}

#[derive(Debug)]
pub struct SpeedtestMsg {
    pub url: String,
    pub result: Result<Vec<EndpointLatency>, String>,
}

/// What is said of one measurement. An error is mentioned only where it says
/// something.
pub open spec fn measurement_lines(row: EndpointLatency) -> Seq<TextView> {
    let figures = seq![
        number_line(
            TextKey::SpeedtestLineLatency,
            match row.latency {
                Some(ms) => Some(ms as nat),
                None => None,
            },
        ),
        number_line(
            TextKey::SpeedtestLineStatus,
            match row.status {
                Some(status) => Some(status as nat),
                None => None,
            },
        ),
    ];
    match row.error {
        Some(error) => if blank(error@) {
            figures
        } else {
            figures.push(TextView::with(TextKey::SpeedtestLineError, error@))
        },
        None => figures,
    }
}

/// What is said of the first measurements, after the address and an empty line.
pub open spec fn speedtest_lines(url: Seq<char>, rows: Seq<EndpointLatency>) -> Seq<TextView>
    decreases rows.len(),
{
    if rows.len() == 0 {
        seq![
            TextView::with(TextKey::SpeedtestLineUrl, url),
            TextView::verbatim(Seq::empty()),
        ]
    } else {
        speedtest_lines(url, rows.drop_last()) + measurement_lines(rows.last())
    }
}

fn push_measurement(lines: &mut Vec<Text>, row: &EndpointLatency)
    ensures
        views(final(lines)@) == views(old(lines)@) + measurement_lines(*row),
{
    let status = match row.status {
        Some(status) => Some(status as u64),
        None => None,
    };
    lines.push(numbered(TextKey::SpeedtestLineLatency, row.latency));
    lines.push(numbered(TextKey::SpeedtestLineStatus, status));
    if let Some(error) = &row.error {
        if !is_blank(error.as_str()) {
            lines.push(Text::with(TextKey::SpeedtestLineError, error.as_str()));
        }
    }
    assert(views(lines@) =~= views(old(lines)@) + measurement_lines(*row));
}

fn build_speedtest_lines(url: &str, rows: &Vec<EndpointLatency>) -> (lines: Vec<Text>)
    ensures
        views(lines@) == speedtest_lines(url@, rows@),
{
    let mut lines = vec![
        Text::with(TextKey::SpeedtestLineUrl, url),
        Text::verbatim(""),
    ];
    proof {
        reveal_strlit("");
        assert(""@ =~= Seq::<char>::empty());
        assert(rows@.take(0) =~= Seq::<EndpointLatency>::empty());
        assert(views(lines@) =~= speedtest_lines(url@, rows@.take(0)));
    }
    let mut i: usize = 0;
    while i < rows.len()
        invariant
            i <= rows@.len(),
            views(lines@) == speedtest_lines(url@, rows@.take(i as int)),
        decreases rows@.len() - i,
    {
        push_measurement(&mut lines, &rows[i]);
        assert(rows@.take(i + 1).drop_last() =~= rows@.take(i as int));
        i = i + 1;
    }
    assert(rows@.take(i as int) =~= rows@);
    lines
}

pub open spec fn awaits_speedtest(overlay: OverlayView, url: Seq<char>) -> bool {
    overlay matches OverlayView::SpeedtestRunning { url: running } && running == url
}

/// What is made of a measurement.
pub open spec fn speedtest_received(app: AppView, msg: SpeedtestMsg) -> AppView {
    let awaited = awaits_speedtest(app.overlay, msg.url@);
    match msg.result {
        Ok(rows) => if awaited {
            AppView {
                overlay: OverlayView::SpeedtestResult {
                    url: msg.url@,
                    lines: speedtest_lines(msg.url@, rows@),
                    scroll: 0,
                },
                ..app
            }
        } else {
            app.told(ToastKind::Success, TextView::plain(TextKey::SpeedtestFinished))
        },
        Err(error) => {
            let told = app.told(
                ToastKind::Error,
                TextView::with(TextKey::SpeedtestFailed, error@),
            );
            if awaited {
                AppView { overlay: OverlayView::Absent, ..told }
            } else {
                told
            }
        },
    }
}

pub fn handle_speedtest_msg(app: &mut App, msg: SpeedtestMsg)
    ensures
        final(app)@ == speedtest_received(old(app)@, msg),
{
    let awaited = match &app.overlay {
        Overlay::SpeedtestRunning { url } => *url == msg.url,
        _ => false,
    };
    match msg.result {
        Ok(rows) => {
            if awaited {
                let lines = build_speedtest_lines(msg.url.as_str(), &rows);
                app.overlay = Overlay::SpeedtestResult { url: msg.url, lines, scroll: 0 };
            } else {
                app.push_toast(Text::plain(TextKey::SpeedtestFinished), ToastKind::Success);
            }
        },
        Err(error) => {
            app.push_toast(
                Text::with(TextKey::SpeedtestFailed, error.as_str()),
                ToastKind::Error,
            );
            if awaited {
                app.overlay = Overlay::Absent;
            }
        },
    }
}

// Which models a provider offers.

#[derive(Debug)]
pub struct ModelFetchMsg {
    pub request_id: u64,
    pub field: ModelField,
    pub claude_idx: Option<usize>,
    pub result: Result<Vec<String>, String>,
}

/// What is made of a list of models. Only the picker that asked for it takes
/// it; models that it already lists stay where nothing came.
pub open spec fn models_received(overlay: OverlayView, msg: ModelFetchMsg) -> OverlayView {
    match overlay {
        OverlayView::ModelFetchPicker {
            request_id,
            field,
            claude_idx,
            fetching,
            models,
            error,
        } => if request_id != msg.request_id || field != msg.field || claude_idx
            != msg.claude_idx {
            overlay
        } else {
            OverlayView::ModelFetchPicker {
                request_id,
                field,
                claude_idx,
                fetching: false,
                models: match msg.result {
                    Ok(fetched) => if fetched@.len() == 0 {
                        models
                    } else {
                        views(fetched@)
                    },
                    Err(_) => models,
                },
                error: match msg.result {
                    Ok(fetched) => if fetched@.len() == 0 {
                        Some(TextView::plain(TextKey::ModelFetchNoModels))
                    } else {
                        None
                    },
                    Err(error) => Some(TextView::with(TextKey::ModelFetchErrorHint, error@)),
                },
            }
        },
        _ => overlay,
    }
}

pub fn handle_model_fetch_msg(app: &mut App, msg: ModelFetchMsg)
    ensures
        final(app)@ == (AppView { overlay: models_received(old(app)@.overlay, msg), ..old(app)@ }),
{
    let awaited = match &app.overlay {
        Overlay::ModelFetchPicker { request_id, field, claude_idx, .. } => *request_id
            == msg.request_id && *field == msg.field && *claude_idx == msg.claude_idx,
        _ => false,
    };
    if !awaited {
        return ;
    }
    let mut shown = Overlay::Absent;
    std::mem::swap(&mut shown, &mut app.overlay);
    if let Overlay::ModelFetchPicker { request_id, field, claude_idx, models, .. } = shown {
        let (models, error) = match msg.result {
            Ok(fetched) => if fetched.len() == 0 {
                (models, Some(Text::plain(TextKey::ModelFetchNoModels)))
            } else {
                (fetched, None)
            },
            Err(error) => (
                models,
                Some(Text::with(TextKey::ModelFetchErrorHint, error.as_str())),
            ),
        };
        app.overlay = Overlay::ModelFetchPicker {
            request_id,
            field,
            claude_idx,
            fetching: false,
            models,
            error,
        };
    }
}

/// A list of models that the picker did not ask for changes nothing.
pub proof fn other_model_lists_are_ignored(overlay: OverlayView, msg: ModelFetchMsg)
    requires
        !(overlay is ModelFetchPicker) || overlay->ModelFetchPicker_request_id != msg.request_id,
    ensures
        models_received(overlay, msg) == overlay,
{
}

} // verus!
