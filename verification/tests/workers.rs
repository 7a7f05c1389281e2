use std::cell::Cell;
use std::rc::Rc;

use cc_switch_tui::app_type::AppType;
use cc_switch_tui::app_data_worker::{
    app_data_answer, app_data_loads, needs_state_for_epoch, session_usage_sync_answer,
    AppDataSource,
};
use cc_switch_tui::data::UiData;
use cc_switch_tui::messages::{
    AppDataLoadKind, AppDataReq, UsageLogLoadError, UsagePricingLoadError, UsagePricingMsg,
    UsagePricingReq,
};
use cc_switch_tui::outbox::{Link, Outbox};
use cc_switch_tui::queues::{
    app_data_req_key, drain_latest_by_key, latest_of, usage_pricing_req_key,
    UsagePricingReqRangeKey,
};
use cc_switch_tui::session_jobs::{
    is_cancelled, locate_answer, messages_answer, page_result, provider_scan_result,
    resolve_session_manifest_selection, scan_answer, scan_check, scan_providers, search_answer,
    search_check, JobOutcome, LocateSearch, LocateStep, PreviewSchedule, ReaderLabel,
};
use cc_switch_tui::session_messages::{ManifestPage, SessionMsg};
use cc_switch_tui::session_requests::SessionReq;
use cc_switch_tui::session_rows::SessionIdentity;
use cc_switch_tui::session_workers::{
    acknowledge_delete, deletion_result, drain_session_reqs, launch_failed, launch_ticket,
    purge_not_launched, MailboxTake, SessionLane, SessionLanes, SessionLocateMailbox,
};
use cc_switch_tui::sessions::{
    ManifestReader, SessionMeta, SessionPageSource, SessionPageToken, PAGE_SIZE,
};
use cc_switch_tui::usage::{
    UsageCustomRange, UsageLogCursor, UsageLogPageDirection, UsageRangePreset, USAGE_LOG_PAGE_SIZE,
};
use cc_switch_tui::usage_workers::{
    answer_usage_log_req, answer_usage_pricing_req, route_usage_req, usage_log_query,
    usage_log_req_refused, usage_log_result_after_query, usage_pricing_req_matches_app,
    usage_pricing_req_request_id, LogAnswer, LogQuery, UsageLogQueryState, UsageLogRequestToken,
    UsagePricingAggregateState,
};

/// The name that the first application is stored under.
fn claude() -> String {
    format!("{:?}", AppType::Claude).to_lowercase()
}

// Sessions.

fn token(source: SessionPageSource, scope: &str, generation: &str) -> SessionPageToken {
    SessionPageToken {
        source,
        scope_epoch: 1,
        scope: scope.to_string(),
        generation: generation.to_string(),
    }
}

fn reader() -> ManifestReader {
    ManifestReader {
        handle: 1,
        build_epoch: 1,
    }
}

fn label(scope: &str, generation: &str, total_rows: usize) -> ReaderLabel {
    ReaderLabel {
        scope: scope.to_string(),
        generation: generation.to_string(),
        total_rows,
        page_count: total_rows.div_ceil(PAGE_SIZE).max(1),
    }
}

fn search_req(request_id: u64) -> SessionReq {
    SessionReq::Search {
        request_id,
        scope_epoch: 1,
        query: "needle".to_string(),
        base: token(SessionPageSource::Base, &claude(), "base-1"),
        base_reader: reader(),
        query_namespace: "tui-worker-search".to_string(),
    }
}

fn messages_req(request_id: u64) -> SessionReq {
    SessionReq::LoadMessages {
        request_id,
        key: format!("session-{request_id}"),
        provider_id: "codex".to_string(),
        source_path: format!("/tmp/session-{request_id}.jsonl"),
    }
}

fn delete_req(request_id: u64, key: &str) -> SessionReq {
    SessionReq::Delete {
        request_id,
        key: key.to_string(),
        provider_id: claude(),
        session_id: key.to_string(),
        source_path: format!("/tmp/{key}.jsonl"),
    }
}

fn refresh_req(request_id: u64, scope_epoch: u64, provider_id: &str) -> SessionReq {
    SessionReq::Refresh {
        request_id,
        scope_epoch,
        provider_id: provider_id.to_string(),
        force: false,
    }
}

#[test]
fn delete_acknowledgement_is_queued_before_purge_can_run() {
    let mut reports = Outbox::new(Link::Open);
    let job = acknowledge_delete(
        &mut reports,
        41,
        format!("{}:session:/tmp/session.jsonl", claude()),
        Ok(()),
    )
    .expect("acknowledge deletion")
    .expect("a purge follows");
    assert!(reports.send(SessionMsg::ManifestsPurged {
        request_id: job.request_id,
        key: job.key,
        base: Vec::new(),
    }));

    let reported = reports.take();
    assert_eq!(reported.len(), 2);
    assert!(matches!(
        reported[0],
        SessionMsg::DeleteFinished { request_id: 41, .. }
    ));
    assert!(matches!(
        reported[1],
        SessionMsg::ManifestsPurged { request_id: 41, .. }
    ));
}

#[test]
fn purge_spawn_failure_is_reported_after_delete_acknowledgement() {
    let mut reports = Outbox::new(Link::Open);
    let job = acknowledge_delete(
        &mut reports,
        42,
        format!("{}:session:/tmp/session.jsonl", claude()),
        Ok(()),
    )
    .expect("acknowledge deletion")
    .expect("a purge follows");
    purge_not_launched(&mut reports, job).expect("report purge failure");

    let reported = reports.take();
    assert_eq!(reported.len(), 2);
    assert!(matches!(
        reported[0],
        SessionMsg::DeleteFinished { request_id: 42, .. }
    ));
    assert!(matches!(
        &reported[1],
        SessionMsg::ManifestsPurged { request_id: 42, base, .. } if base.is_empty()
    ));
}

#[test]
fn no_purge_follows_a_deletion_that_failed() {
    let mut reports = Outbox::new(Link::Open);
    let job = acknowledge_delete(
        &mut reports,
        43,
        "key".to_string(),
        deletion_result(Err("denied".to_string())),
    )
    .expect("report failure");
    assert!(job.is_none());
    assert!(matches!(
        reports.sent.as_slice(),
        [SessionMsg::DeleteFinished { request_id: 43, result: Err(error), .. }] if error == "denied"
    ));
    assert!(acknowledge_delete(&mut Outbox::new(Link::Closed), 44, "key".to_string(), Ok(())).is_err());
    assert_eq!(deletion_result(Ok(true)), Ok(()));
    assert!(deletion_result(Ok(false)).is_err());
}

#[test]
fn session_search_has_an_independent_lane_and_cancel_generation() {
    let mut lanes = SessionLanes::new();
    assert_eq!(lanes.dispatch(&search_req(1)), SessionLane::Search);
    let search_job = lanes.search;

    let messages = SessionReq::LoadMessages {
        request_id: 2,
        key: "test".to_string(),
        provider_id: "unsupported".to_string(),
        source_path: String::new(),
    };
    assert_eq!(lanes.dispatch(&messages), SessionLane::Messages);
    assert!(
        !is_cancelled(lanes.search, search_job),
        "messages leave the search alone"
    );
    assert!(matches!(
        messages_answer(
            2,
            "test".to_string(),
            Err("unsupported provider".to_string()),
            lanes.messages,
            lanes.messages,
        ),
        Some(SessionMsg::MessagesLoaded { request_id: 2, .. })
    ));

    assert_eq!(lanes.dispatch(&SessionReq::CancelSearch), SessionLane::Cancel);
    assert!(
        is_cancelled(lanes.search, search_job),
        "search observes generation cancellation"
    );
}

#[test]
fn session_manifest_locate_lane_coalesces_to_latest_generation() {
    let mut mailbox = SessionLocateMailbox::new();
    for request_id in 1..=3 {
        mailbox.submit(request_id).expect("queue manifest location");
    }
    mailbox.close();

    let latest: u64 = match mailbox.take() {
        MailboxTake::Job(request_id) => request_id,
        other => panic!("latest manifest location: {other:?}"),
    };
    let answer = locate_answer(
        latest,
        1,
        "generation".to_string(),
        Err("unread".to_string()),
        3,
        latest,
    );
    assert!(matches!(
        answer,
        Some(SessionMsg::ManifestLocated { request_id: 3, .. })
    ));
    assert!(
        matches!(mailbox.take(), MailboxTake::Closed),
        "older jobs must not publish results"
    );
    assert!(mailbox.submit(4).is_err());
}

#[test]
fn a_mailbox_waits_while_it_is_open() {
    let mut mailbox: SessionLocateMailbox<u64> = SessionLocateMailbox::new();
    assert!(matches!(mailbox.take(), MailboxTake::Empty));
}

fn manifest_page(total_rows: usize, page_index: usize) -> ManifestPage {
    let rows = (0..total_rows)
        .rev()
        .skip(page_index * PAGE_SIZE)
        .take(PAGE_SIZE)
        .map(|index| SessionMeta {
            provider_id: claude(),
            session_id: format!("session-{index:03}"),
            title: None,
            summary: None,
            project_dir: None,
            created_at: None,
            last_active_at: Some(index as i64),
            source_path: Some(format!("/tmp/session-{index:03}.jsonl")),
            resume_command: None,
        })
        .collect();
    ManifestPage {
        generation: "generation".to_string(),
        total_rows,
        page_index,
        rows,
    }
}

fn locate(
    total_rows: usize,
    fallback: usize,
    anchor: Option<SessionIdentity>,
    cancelled: &dyn Fn() -> bool,
) -> Option<(ManifestPage, usize)> {
    resolve_session_manifest_selection(
        SessionPageSource::Base,
        &claude(),
        &"generation".to_string(),
        fallback,
        anchor,
        &label(&claude(), "generation", total_rows),
        |page_index| Some(manifest_page(total_rows, page_index)),
        cancelled,
    )
    .expect("every page can be read")
}

#[test]
fn session_manifest_locator_uses_bounded_neighbourhood_then_fallback() {
    let distant = manifest_page(401, 4);
    let distant_key = SessionIdentity::capture(&distant.rows[0]).key();
    let anchor = SessionIdentity::capture(&distant.rows[0]);

    let location =
        locate(401, 0, Some(anchor), &|| false).expect("location is not cancelled");

    assert_eq!(location.0.page_index, 0);
    assert_eq!(location.1, 0);
    assert_ne!(
        SessionIdentity::capture(&location.0.rows[location.1]).key(),
        distant_key
    );
}

#[test]
fn session_manifest_locator_observes_cancellation_between_page_reads() {
    let checks = Cell::new(0usize);
    let cancelled_after_first_read = || {
        let check = checks.get();
        checks.set(check + 1);
        check >= 2
    };
    assert!(locate(0, 0, None, &cancelled_after_first_read).is_none());
}

#[test]
fn a_session_beside_the_expected_page_is_found() {
    for (page_index, row) in [(1, 3), (2, 99), (3, 0)] {
        let page = manifest_page(401, page_index);
        let anchor = SessionIdentity::capture(&page.rows[row]);
        let found = locate(401, 250, Some(anchor), &|| false).expect("found");
        assert_eq!((found.0.page_index, found.1), (page_index, row));
    }
    let unanchored = locate(401, 250, None, &|| false).expect("fallback");
    assert_eq!((unanchored.0.page_index, unanchored.1), (2, 50));
    let behind_the_end = locate(401, 900, None, &|| false).expect("last row");
    assert_eq!((behind_the_end.0.page_index, behind_the_end.1), (4, 0));
}

#[test]
fn locations_fail_where_nothing_can_be_read() {
    let failed = |source, generation: &str| {
        resolve_session_manifest_selection(
            source,
            &claude(),
            &generation.to_string(),
            0,
            None,
            &label(&claude(), "generation", 1),
            |_| None,
            || false,
        )
        .expect_err("nothing can be read")
    };
    assert_eq!(
        failed(SessionPageSource::Query, "another"),
        "session query reader does not match its token"
    );
    assert_eq!(
        failed(SessionPageSource::Base, "generation"),
        "session manifest page 0 is unavailable"
    );
}

#[test]
fn a_search_reads_one_page_at_a_time() {
    let step = LocateSearch::start(
        SessionPageSource::Base,
        &claude(),
        &"generation".to_string(),
        250,
        Some(SessionIdentity::capture(&manifest_page(401, 4).rows[0])),
        &label(&claude(), "generation", 401),
    );
    let mut pages = Vec::new();
    let mut step = step;
    while let LocateStep::Read(search, page_index) = step {
        pages.push(page_index);
        step = search.page_read(Some(manifest_page(401, page_index)));
    }
    assert_eq!(pages, vec![2, 1, 3]);
    assert!(matches!(step, LocateStep::Found(page, 50) if page.page_index == 2));
}

#[test]
fn session_messages_are_latest_wins_and_never_enter_the_delete_lane() {
    let mut lanes = SessionLanes::new();
    assert_eq!(lanes.dispatch(&messages_req(1)), SessionLane::Messages);
    let first = lanes.messages;
    assert_eq!(lanes.dispatch(&messages_req(2)), SessionLane::Messages);
    let second = lanes.messages;
    assert_eq!(lanes.dispatch(&delete_req(3, "delete")), SessionLane::Control);
    assert_ne!(
        lanes.messages, first,
        "the older message read must be cancelled by the newer request"
    );
    assert_eq!(
        lanes.messages, second,
        "the newest message read remains current"
    );

    assert_eq!(
        lanes.dispatch(&SessionReq::CancelMessages),
        SessionLane::Cancel
    );
    assert_eq!(lanes.dispatch(&delete_req(4, "barrier")), SessionLane::Control);
    assert_ne!(
        lanes.messages, second,
        "closing detail must cancel the newest read"
    );
    assert!(messages_answer(2, "k".to_string(), Ok(Vec::new()), lanes.messages, second).is_none());
}

#[test]
fn session_page_load_bypasses_a_blocked_control_lane() {
    let mut lanes = SessionLanes::new();
    assert_eq!(lanes.dispatch(&messages_req(1)), SessionLane::Messages);
    let page = SessionReq::LoadPage {
        request_id: 2,
        token: token(SessionPageSource::Base, "codex", "pages"),
        page: 3,
        reader: reader(),
    };
    assert_eq!(lanes.dispatch(&page), SessionLane::Page);
    assert_eq!(
        lanes.dispatch(&refresh_req(3, 7, "codex")),
        SessionLane::Scan
    );
}

#[test]
fn ending_keeps_a_scan() {
    let mut lanes = SessionLanes::new();
    lanes.dispatch(&refresh_req(1, 1, &claude()));
    lanes.dispatch(&search_req(2));
    let before = lanes;
    lanes.shut_down();
    assert_eq!(lanes.scan, before.scan);
    assert_ne!(lanes.search, before.search);
    assert_ne!(lanes.messages, before.messages);
    assert_ne!(lanes.locate, before.locate);
}

#[test]
fn session_req_drain_never_coalesces_deletes() {
    let drained = drain_session_reqs(
        delete_req(1, "alpha"),
        vec![delete_req(2, "beta"), delete_req(3, "gamma")],
    );
    let keys = drained
        .into_iter()
        .map(|req| match req {
            SessionReq::Delete { key, .. } => key,
            _ => panic!("expected delete request"),
        })
        .collect::<Vec<_>>();
    assert_eq!(keys, vec!["alpha", "beta", "gamma"]);
}

#[test]
fn session_req_drain_keeps_only_latest_refresh() {
    let drained = drain_session_reqs(
        refresh_req(1, 1, &claude()),
        vec![refresh_req(2, 2, &claude())],
    );
    assert_eq!(drained.len(), 1);
    assert!(matches!(
        drained[0],
        SessionReq::Refresh { request_id: 2, .. }
    ));
}

#[test]
fn jobs_that_do_not_start_are_reported() {
    let failed = |req: &SessionReq, current: bool| {
        let ticket = launch_ticket(req).expect("a job was to be started");
        launch_failed(ticket, "no thread".to_string(), current)
    };
    assert!(matches!(
        failed(&search_req(1), false),
        Some(SessionMsg::QueryPublished { request_id: 1, result: Err(_), .. })
    ));
    assert!(failed(&messages_req(2), false).is_none());
    assert!(matches!(
        failed(&messages_req(2), true),
        Some(SessionMsg::MessagesLoaded { request_id: 2, result: Err(_), .. })
    ));
    assert!(matches!(
        failed(&refresh_req(3, 9, &claude()), false),
        Some(SessionMsg::ManifestPublished { request_id: 3, scope_epoch: 9, result: Err(_), .. })
    ));
    assert!(launch_ticket(&delete_req(4, "k")).is_none());
    assert!(launch_ticket(&SessionReq::CancelSearch).is_none());
}

#[test]
fn pages_are_read_with_their_own_reader() {
    let wanted = token(SessionPageSource::Base, &claude(), "generation");
    let loaded = page_result(
        &wanted,
        &label(&claude(), "generation", 1),
        Some(manifest_page(1, 0)),
    );
    assert_eq!(loaded.expect("page").rows.len(), 1);
    assert_eq!(
        page_result(&wanted, &label(&claude(), "other", 1), None).unwrap_err(),
        "session manifest reader does not match its page token"
    );
    assert_eq!(
        page_result(&wanted, &label(&claude(), "generation", 1), None).unwrap_err(),
        "session manifest page is unavailable"
    );
}

#[test]
fn searches_are_made_in_base_manifests() {
    let at = label(&claude(), "base-1", 1);
    let base = token(SessionPageSource::Base, &claude(), "base-1");
    assert_eq!(search_check(&base, &at, false), Ok(()));
    assert_eq!(
        search_check(&base, &at, true).unwrap_err(),
        "session query was cancelled"
    );
    assert_eq!(
        search_check(&base, &label("codex", "base-1", 1), true).unwrap_err(),
        "session query base reader does not match its token"
    );
    let query = token(SessionPageSource::Query, &claude(), "base-1");
    assert_eq!(
        search_check(&query, &at, false).unwrap_err(),
        "session query source is not a base manifest"
    );
}

#[test]
fn a_job_that_panics_has_failed() {
    assert_eq!(JobOutcome::Finished(Ok(1)).result("panicked"), Ok(1));
    assert_eq!(
        JobOutcome::<u8>::Finished(Err("read".to_string())).result("panicked"),
        Err("read".to_string())
    );
    assert_eq!(
        JobOutcome::<u8>::Panicked.result("panicked"),
        Err("panicked".to_string())
    );
}

#[test]
fn scans_and_searches_that_were_replaced_say_nothing() {
    assert_eq!(scan_check(3, 3), Ok(()));
    assert!(scan_check(4, 3).is_err());
    let failed = || JobOutcome::Finished(Err("read".to_string()));
    assert!(scan_answer(1, 1, claude(), failed(), 4, 3).is_none());
    assert!(matches!(
        scan_answer(1, 1, claude(), JobOutcome::Panicked, 3, 3),
        Some(SessionMsg::ManifestPublished { request_id: 1, result: Err(error), .. })
            if error == "session manifest scan panicked"
    ));
    let answered = |current: u64| {
        search_answer(
            5,
            1,
            token(SessionPageSource::Base, &claude(), "base-1"),
            "needle".to_string(),
            "namespace".to_string(),
            failed(),
            current,
            8,
        )
    };
    assert!(answered(9).is_none());
    assert!(matches!(
        answered(8),
        Some(SessionMsg::QueryPublished { request_id: 5, base_generation, .. })
            if base_generation == "base-1"
    ));
}

#[test]
fn previews_are_shown_ever_more_rarely() {
    let mut schedule = PreviewSchedule::new(false, false);
    let shown: Vec<usize> = (1..=100).filter(|_| schedule.row_found()).collect();
    assert_eq!(shown, vec![1, 16, 64]);
    assert!(schedule.shows_rest());

    let mut kept = PreviewSchedule::new(false, true);
    assert!((0..100).all(|_| !kept.row_found()));
    assert!(!kept.shows_rest());
}

#[test]
fn every_provider_is_scanned_for_the_whole_scope() {
    let every = || vec![claude(), "codex".to_string()];
    assert_eq!(
        scan_providers(&"codex".to_string(), every()),
        vec!["codex".to_string()]
    );
    assert_eq!(scan_providers(&"all".to_string(), every()), every());
}

#[test]
fn a_scan_stops_at_the_first_row_that_cannot_be_kept() {
    assert_eq!(provider_scan_result(None, false), Ok(()));
    assert_eq!(
        provider_scan_result(Some("disk full".to_string()), true),
        Err("disk full".to_string())
    );
    assert!(provider_scan_result(None, true).is_err());
}

// Usage.

type Aggregate = UsagePricingAggregateState<(), Rc<Cell<bool>>, u8>;
type Log = UsageLogQueryState<(), Rc<Cell<bool>>, u8>;

fn load(request_id: u64, app_type: AppType, range: UsageRangePreset) -> UsagePricingReq {
    UsagePricingReq::Load {
        request_id,
        generation: 0,
        app_state_epoch: 0,
        app_type,
        range,
    }
}

fn older_custom() -> UsageRangePreset {
    UsageRangePreset::Custom(UsageCustomRange {
        start: 1_700_000_000,
        end: 1_700_086_399,
    })
}

fn newer_custom() -> UsageRangePreset {
    UsageRangePreset::Custom(UsageCustomRange {
        start: 1_700_086_400,
        end: 1_700_172_799,
    })
}

fn request_ids(reqs: &[UsagePricingReq]) -> Vec<u64> {
    reqs.iter()
        .filter_map(usage_pricing_req_request_id)
        .collect()
}

fn aggregate_state_snapshot(state: &Aggregate) -> (bool, Option<u64>, bool, bool, Vec<u64>) {
    (
        state.running,
        state.running_request_id,
        state.cancel_requested,
        state.is_idle(),
        request_ids(&state.pending),
    )
}

#[test]
fn usage_log_requests_bypass_a_blocked_aggregate_worker() {
    let head = route_usage_req(&UsagePricingReq::Load {
        request_id: 1,
        generation: 4,
        app_state_epoch: 2,
        app_type: AppType::Claude,
        range: UsageRangePreset::SevenDays,
    });
    assert!(head.log, "head routed to log worker");
    assert!(head.aggregate, "aggregate routed");

    let page = route_usage_req(&UsagePricingReq::LoadLogPage {
        request_id: 2,
        generation: 4,
        app_state_epoch: 2,
        app_type: AppType::Claude,
        range: UsageRangePreset::SevenDays,
        page: 1,
        cursor: UsageLogCursor {
            created_at: 10,
            rowid: 1,
        },
        direction: UsageLogPageDirection::Older,
        limit: USAGE_LOG_PAGE_SIZE,
    });
    assert!(page.log, "page must not wait for aggregate");
    assert!(!page.aggregate);
}

#[test]
fn usage_log_query_state_cancels_running_and_keeps_only_latest_generation() {
    let mut state = Log::new();
    let running = UsagePricingReq::Load {
        request_id: 1,
        generation: 4,
        app_state_epoch: 2,
        app_type: AppType::Claude,
        range: UsageRangePreset::SevenDays,
    };
    assert!(state.enqueue(running).launch.is_some());
    assert_eq!(
        state.running_token,
        Some(UsageLogRequestToken {
            request_id: 1,
            generation: 4,
            app_state_epoch: 2,
        })
    );

    let cancel = Rc::new(Cell::new(false));
    let running_token = state.running_token.expect("running query token");
    assert!(
        state
            .set_running_cancel_token(running_token, cancel.clone())
            .accepted
    );
    let pending = UsagePricingReq::LoadLogPage {
        request_id: 2,
        generation: 5,
        app_state_epoch: 2,
        app_type: AppType::Codex,
        range: UsageRangePreset::Today,
        page: 1,
        cursor: UsageLogCursor {
            created_at: 10,
            rowid: 20,
        },
        direction: UsageLogPageDirection::Older,
        limit: USAGE_LOG_PAGE_SIZE,
    };
    let step = state.enqueue(pending);
    assert!(step.launch.is_none());
    if let (true, Some(token)) = (step.cancel, &state.running_cancel) {
        token.set(true);
    }
    assert!(cancel.get());

    let latest = UsagePricingReq::LoadLogDetail {
        request_id: 3,
        generation: 6,
        app_state_epoch: 3,
        app_type: AppType::OpenCode,
        range: UsageRangePreset::ThirtyDays,
        log_rowid: 99,
    };
    assert!(matches!(
        state.enqueue(latest).superseded,
        Some(UsagePricingReq::LoadLogPage {
            request_id: 2,
            generation: 5,
            ..
        })
    ));

    let completion = state.complete(running_token);
    let latest_token = UsageLogRequestToken {
        request_id: 3,
        generation: 6,
        app_state_epoch: 3,
    };
    assert_eq!(state.running_token, Some(latest_token));
    assert!(matches!(
        completion.next,
        Some(UsagePricingReq::LoadLogDetail {
            request_id: 3,
            generation: 6,
            app_state_epoch: 3,
            log_rowid: 99,
            ..
        })
    ));
    let stale_completion = state.complete(running_token);
    assert!(stale_completion.next.is_none());
    assert_eq!(state.running_token, Some(latest_token));
}

#[test]
fn usage_log_query_state_remembers_cancellation_before_sqlite_handle_registration() {
    let mut state = Log::new();
    let first = UsagePricingReq::Load {
        request_id: 1,
        generation: 1,
        app_state_epoch: 1,
        app_type: AppType::Claude,
        range: UsageRangePreset::SevenDays,
    };
    let second = UsagePricingReq::Load {
        request_id: 2,
        generation: 2,
        app_state_epoch: 1,
        app_type: AppType::Codex,
        range: UsageRangePreset::Today,
    };
    assert!(state.enqueue(first).launch.is_some());
    assert!(state.enqueue(second).launch.is_none());

    let running_token = state.running_token.expect("running query token");
    let registered = state.set_running_cancel_token(running_token, Rc::new(Cell::new(false)));
    assert!(registered.accepted);
    assert!(registered.cancel);

    let interrupted = state.set_running_interrupt_handle(running_token, ());
    assert!(interrupted.accepted);
    assert!(interrupted.cancel, "the query is interrupted at once");
}

#[test]
fn a_log_barrier_is_answered_once_nothing_runs() {
    let mut state = Log::new();
    assert_eq!(state.clear_and_ack_when_idle(1).answer, Some(1));

    state.enqueue(load(1, AppType::Claude, UsageRangePreset::Today));
    state.enqueue(load(2, AppType::Claude, UsageRangePreset::Today));
    let step = state.clear_and_ack_when_idle(2);
    assert_eq!(step.answer, None);
    assert!(step.cancel);
    assert!(matches!(
        step.superseded,
        Some(UsagePricingReq::Load { request_id: 2, .. })
    ));
    let token = state.running_token.expect("running");
    let completion = state.complete(token);
    assert!(completion.next.is_none());
    assert_eq!(completion.drop_acks, vec![2]);
}

#[test]
fn usage_pricing_drain_keeps_latest_request_per_app() {
    let mut backlog = vec![load(1, AppType::Claude, UsageRangePreset::Today)];
    let mut deferred = Vec::new();
    drain_latest_by_key(
        &mut backlog,
        &mut deferred,
        vec![
            load(2, AppType::Claude, UsageRangePreset::ThirtyDays),
            load(3, AppType::Codex, UsageRangePreset::SevenDays),
        ],
    );

    let mut drained = backlog
        .into_iter()
        .map(|req| match req {
            UsagePricingReq::Load {
                request_id,
                app_type,
                ..
            } => (app_type, request_id),
            other => panic!("unexpected request in backlog: {other:?}"),
        })
        .collect::<Vec<_>>();
    drained.sort_by_key(|(_, request_id)| *request_id);
    assert_eq!(drained, vec![(AppType::Claude, 2), (AppType::Codex, 3)]);
    assert!(deferred.is_empty());
}

#[test]
fn drain_latest_by_app_preserves_drop_state_as_barrier() {
    let mut backlog = vec![load(1, AppType::Claude, UsageRangePreset::SevenDays)];
    let mut deferred = Vec::new();
    drain_latest_by_key(
        &mut backlog,
        &mut deferred,
        vec![
            load(2, AppType::Claude, UsageRangePreset::SevenDays),
            UsagePricingReq::DropState,
            load(3, AppType::Claude, UsageRangePreset::SevenDays),
        ],
    );

    assert!(matches!(
        backlog.as_slice(),
        [UsagePricingReq::Load {
            request_id: 2,
            app_type: AppType::Claude,
            ..
        }]
    ));
    assert!(matches!(
        deferred.as_slice(),
        [
            UsagePricingReq::DropState,
            UsagePricingReq::Load {
                request_id: 3,
                app_type: AppType::Claude,
                ..
            }
        ]
    ));
}

#[test]
fn usage_pricing_drain_keeps_distinct_ranges_for_same_app() {
    let custom = older_custom();
    let mut backlog = vec![load(1, AppType::Claude, UsageRangePreset::SevenDays)];
    let mut deferred = Vec::new();
    drain_latest_by_key(
        &mut backlog,
        &mut deferred,
        vec![load(2, AppType::Claude, custom)],
    );

    let mut drained = backlog
        .into_iter()
        .map(|req| match req {
            UsagePricingReq::Load {
                request_id, range, ..
            } => (range, request_id),
            other => panic!("unexpected request in backlog: {other:?}"),
        })
        .collect::<Vec<_>>();
    drained.sort_by_key(|(_, request_id)| *request_id);
    assert_eq!(drained, vec![(UsageRangePreset::SevenDays, 1), (custom, 2)]);
    assert!(deferred.is_empty());
}

#[test]
fn usage_pricing_drain_keeps_only_latest_custom_range_per_app() {
    let mut backlog = vec![load(1, AppType::Claude, older_custom())];
    let mut deferred = Vec::new();
    drain_latest_by_key(
        &mut backlog,
        &mut deferred,
        vec![load(2, AppType::Claude, newer_custom())],
    );

    let drained = backlog
        .into_iter()
        .map(|req| match req {
            UsagePricingReq::Load {
                request_id, range, ..
            } => (range, request_id),
            other => panic!("unexpected request in backlog: {other:?}"),
        })
        .collect::<Vec<_>>();
    assert_eq!(drained, vec![(newer_custom(), 2)]);
    assert!(deferred.is_empty());
}

#[test]
fn app_data_drain_keeps_initial_and_snapshot_loads_distinct() {
    let mut backlog = vec![AppDataReq::InitialLoad {
        request_id: 1,
        generation: 0,
        app_state_epoch: 0,
        app_type: AppType::Claude,
        extras: Vec::new(),
    }];
    let mut deferred = Vec::new();
    drain_latest_by_key(
        &mut backlog,
        &mut deferred,
        vec![AppDataReq::Load {
            request_id: 2,
            generation: 0,
            app_state_epoch: 0,
            app_type: AppType::Claude,
        }],
    );

    let mut drained = backlog
        .into_iter()
        .map(|req| match req {
            AppDataReq::InitialLoad { request_id, .. } => (AppDataLoadKind::Initial, request_id),
            AppDataReq::Load { request_id, .. } => (AppDataLoadKind::Snapshot, request_id),
            AppDataReq::FullLoad { request_id, .. } => (AppDataLoadKind::Full, request_id),
            AppDataReq::DropState => panic!("unexpected DropState in backlog"),
        })
        .collect::<Vec<_>>();
    drained.sort_by_key(|(_, request_id)| *request_id);
    assert_eq!(
        drained,
        vec![
            (AppDataLoadKind::Initial, 1),
            (AppDataLoadKind::Snapshot, 2)
        ]
    );
    assert!(deferred.is_empty());
}

#[test]
fn barriers_have_no_key() {
    assert!(app_data_req_key(&AppDataReq::DropState).is_none());
    assert!(usage_pricing_req_key(&UsagePricingReq::DropState).is_none());
    let key = usage_pricing_req_key(&load(1, AppType::Claude, older_custom())).expect("key");
    assert_eq!(key.app_type, AppType::Claude);
    assert_eq!(key.range, UsagePricingReqRangeKey::Custom);
    assert_eq!(latest_of(1, vec![2, 3]), 3);
    assert_eq!(latest_of(1, Vec::new()), 1);
}

#[test]
fn usage_pricing_aggregate_state_runs_one_and_keeps_latest_pending() {
    let mut state = Aggregate::new();
    assert!(state
        .enqueue(load(1, AppType::Claude, older_custom()))
        .launch
        .is_some());
    let cancel_token = Rc::new(Cell::new(false));
    assert!(!state.set_running_cancel_token(cancel_token.clone()));
    for pending in [
        load(2, AppType::Claude, older_custom()),
        load(3, AppType::Claude, newer_custom()),
    ] {
        let step = state.enqueue(pending);
        assert!(step.launch.is_none());
        if let (true, Some(token)) = (step.cancel, &state.running_cancel) {
            token.set(true);
        }
    }
    assert!(cancel_token.get());
    assert_eq!(
        aggregate_state_snapshot(&state),
        (true, Some(1), true, false, vec![3])
    );

    let completion = state.complete();
    let next = completion.next.expect("latest pending request");
    assert!(completion.drop_acks.is_empty());
    assert!(matches!(
        next,
        UsagePricingReq::Load {
            request_id: 3,
            range,
            ..
        } if range == newer_custom()
    ));
    assert_eq!(
        aggregate_state_snapshot(&state),
        (true, Some(3), false, false, Vec::new())
    );

    let completion = state.complete();
    assert!(completion.next.is_none());
    assert!(completion.drop_acks.is_empty());
    assert_eq!(
        aggregate_state_snapshot(&state),
        (false, None, false, true, Vec::new())
    );
}

#[test]
fn usage_pricing_aggregate_state_remembers_drop_before_interrupt_handle() {
    let mut state = Aggregate::new();
    assert!(state
        .enqueue(load(1, AppType::Claude, UsageRangePreset::SevenDays))
        .launch
        .is_some());
    let cancel_token = Rc::new(Cell::new(false));
    state.set_running_cancel_token(cancel_token.clone());
    let step = state.clear_pending_and_ack_when_idle(1);
    if let (true, Some(token)) = (step.cancel, &state.running_cancel) {
        token.set(true);
    }

    assert!(cancel_token.get());
    assert!(step.answer.is_none());
    assert_eq!(
        aggregate_state_snapshot(&state),
        (true, Some(1), true, false, Vec::new())
    );
    assert!(state.set_running_interrupt_handle(()));

    let completion = state.complete();
    assert!(completion.next.is_none());
    assert_eq!(completion.drop_acks, vec![1]);
    assert_eq!(
        aggregate_state_snapshot(&state),
        (false, None, false, true, Vec::new())
    );
}

#[test]
fn usage_pricing_aggregate_runner_defers_drop_ack_until_worker_completes() {
    let mut state = Aggregate::new();
    assert!(state
        .enqueue(load(1, AppType::Claude, UsageRangePreset::SevenDays))
        .launch
        .is_some());
    state.set_running_cancel_token(Rc::new(Cell::new(false)));

    assert!(state.clear_pending_and_ack_when_idle(7).answer.is_none());

    let completion = state.complete();
    assert!(completion.next.is_none());
    assert_eq!(completion.drop_acks, vec![7]);
    assert_eq!(state.clear_pending_and_ack_when_idle(8).answer, Some(8));
}

#[test]
fn a_load_reads_the_head_of_the_log() {
    let req = load(1, AppType::Claude, UsageRangePreset::Today);
    assert_eq!(
        usage_log_query(&req),
        Some(LogQuery::Page {
            app_type: AppType::Claude,
            range: UsageRangePreset::Today,
            cursor: None,
            direction: UsageLogPageDirection::Older,
            limit: USAGE_LOG_PAGE_SIZE,
        })
    );
    assert!(usage_log_query(&UsagePricingReq::DropState).is_none());
    assert!(usage_pricing_req_matches_app(&req, &AppType::Claude));
    assert!(!usage_pricing_req_matches_app(&req, &AppType::Codex));
}

#[test]
fn cancelled_queries_have_no_result() {
    let req = load(1, AppType::Claude, UsageRangePreset::Today);
    assert!(matches!(
        usage_log_result_after_query(Ok(5), true),
        Err(UsageLogLoadError::Cancelled)
    ));
    assert!(matches!(usage_log_result_after_query(Ok(5), false), Ok(5)));
    assert!(matches!(
        usage_log_req_refused(&req, UsageLogLoadError::Cancelled),
        Some(UsagePricingMsg::LogHeadLoaded {
            request_id: 1,
            result: Err(UsageLogLoadError::Cancelled),
            ..
        })
    ));
    assert!(matches!(
        answer_usage_log_req(&req, LogAnswer::Unavailable("locked".to_string()), false),
        Some(UsagePricingMsg::LogHeadLoaded { result: Err(UsageLogLoadError::Failed(error)), .. })
            if error == "locked"
    ));
    assert!(matches!(
        answer_usage_pricing_req(&req, Err("locked".to_string()), true),
        Some(UsagePricingMsg::Loaded {
            result: Err(UsagePricingLoadError::Cancelled),
            ..
        })
    ));
    assert!(
        answer_usage_pricing_req(&UsagePricingReq::DropState, Err(String::new()), false).is_none()
    );
}

// Application data.

#[test]
fn an_initial_load_prepares_further_applications() {
    let loads = app_data_loads(&AppDataReq::InitialLoad {
        request_id: 1,
        generation: 2,
        app_state_epoch: 3,
        app_type: AppType::Claude,
        extras: vec![(AppType::Codex, 9)],
    });
    let seen: Vec<_> = loads
        .iter()
        .map(|load| (load.kind, load.request_id, load.app_type))
        .collect();
    assert_eq!(
        seen,
        vec![
            (AppDataLoadKind::Initial, 1, AppType::Claude),
            (AppDataLoadKind::Initial, 9, AppType::Codex),
        ]
    );
    assert_eq!(loads[0].source, AppDataSource::HeldState { reload: true });
    assert_eq!(loads[1].source, AppDataSource::HeldState { reload: false });
    let answer = app_data_answer(loads[1], Ok(UiData::empty()));
    assert_eq!((answer.request_id, answer.generation), (9, 2));
    assert_eq!(answer.app_state_epoch, 3);
    assert!(app_data_loads(&AppDataReq::DropState).is_empty());
}

#[test]
fn state_is_opened_once_per_epoch() {
    assert!(needs_state_for_epoch(None, 1));
    assert!(needs_state_for_epoch(Some(1), 2));
    assert!(!needs_state_for_epoch(Some(2), 2));
}

#[test]
fn an_import_reports_its_errors() {
    let answer = session_usage_sync_answer(4, Ok(vec!["unreadable".to_string()]));
    assert_eq!(answer.request_id, 4);
    assert_eq!(
        answer.result,
        Err("1 session usage sync error(s); first: unreadable".to_string())
    );
    assert_eq!(session_usage_sync_answer(5, Ok(Vec::new())).result, Ok(()));
}
