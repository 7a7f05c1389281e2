//! What the workers behind the figures, the log and the applications' data owe
//! those who ask them, answer by answer.

use vstd::prelude::*;

use crate::app_data_worker::{
    app_data_answer, app_data_loads, needs_state_for_epoch, session_usage_sync_answer,
    AppDataLoad, AppDataSource,
};
use crate::app_type::AppType;
use crate::data::UiData;
use crate::messages::{
    AppDataLoaded, AppDataReq, UsageLogLoadError, UsagePricingLoadError,
    UsagePricingMsg, UsagePricingReq,
};
use crate::queues::{app_data_key, joined_by, resorted, usage_key, without_same, Keyed, Waiting};
use crate::text::decimal_text;
use crate::usage::{UsageLogPageDirection, UsagePricingData};
use crate::usage_loads::SessionUsageSyncMsg;
use crate::usage_workers::{
    answer_usage_log_req, answer_usage_pricing_req, of_other_apps, route_usage_req, usage_log_query,
    usage_log_req_refused, usage_log_request_token, AggregateStep, BarrierStep, LogAnswer,
    LogQuery, LogStep, UsageCompletion, UsageLogQueryState, UsageLogRequestToken,
    UsagePricingAggregateState, UsageRoute,
};

verus! {

// Requests that take the place of others.

/// Requests for the data of an application take each other's place where they
/// ask for the same amount of it.
pub proof fn data_requests_of_a_kind(first: AppDataReq, second: AppDataReq)
    ensures
        app_data_key(first) is None == first is DropState,
        app_data_key(first) is Some ==> (app_data_key(first) == app_data_key(second)) == {
            ||| first is InitialLoad && second is InitialLoad && first->InitialLoad_app_type
                == second->InitialLoad_app_type
            ||| first is Load && second is Load && first->Load_app_type == second->Load_app_type
            ||| first is FullLoad && second is FullLoad && first->FullLoad_app_type
                == second->FullLoad_app_type
        },
{
}

/// Requests for figures take each other's place within an application, those
/// for ranges of the user's own apart from the others. Pages and entries of the
/// log take the place only of requests for the same page or entry.
pub proof fn usage_requests_of_a_kind(first: UsagePricingReq, second: UsagePricingReq)
    ensures
        usage_key(first) is None == first is DropState,
        usage_key(first) is Some ==> (usage_key(first) == usage_key(second)) == {
            ||| first is Load && second is Load && first->Load_app_type == second->Load_app_type
                && first->Load_range is Custom == second->Load_range is Custom
            ||| first is LoadLogPage && second is LoadLogPage && first->LoadLogPage_app_type
                == second->LoadLogPage_app_type && first->LoadLogPage_range
                == second->LoadLogPage_range && first->LoadLogPage_page
                == second->LoadLogPage_page
            ||| first is LoadLogDetail && second is LoadLogDetail && first->LoadLogDetail_app_type
                == second->LoadLogDetail_app_type && first->LoadLogDetail_range
                == second->LoadLogDetail_range && first->LoadLogDetail_log_rowid
                == second->LoadLogDetail_log_rowid
        },
{
}

/// The requests of a list that are of another kind.
pub open spec fn others<T: Keyed>(list: Seq<T>, req: T) -> Seq<T> {
    list.filter(|other: T| other.spec_key() != req.spec_key())
}

proof fn lemma_others<T: Keyed>(list: Seq<T>, req: T)
    ensures
        without_same(list, req) == others(list, req),
    decreases list.len(),
{
    reveal(Seq::filter);
    if list.len() > 0 {
        lemma_others(list.drop_last(), req);
    }
}

/// A request that comes in takes the place of those of its kind, behind all
/// others, while no barrier stands before it. A barrier, and what comes behind
/// one, waits at the end.
pub proof fn requests_are_queued<T: Keyed>(waiting: Waiting<T>, received: Seq<T>, req: T)
    ensures
        joined_by(waiting, seq![]) == waiting,
        ({
            let before = joined_by(waiting, received);
            let after = joined_by(waiting, received.push(req));
            let behind = before.deferred.len() > 0 || req.spec_key() is None;
            &&& behind ==> after.backlog == before.backlog && after.deferred == before.deferred
                + seq![req]
            &&& !behind ==> after.deferred == before.deferred && after.backlog == others(
                before.backlog,
                req,
            ) + seq![req]
        }),
{
    assert(received.push(req).drop_last() =~= received);
    let before = joined_by(waiting, received);
    lemma_others(before.backlog, req);
    assert(before.deferred.push(req) =~= before.deferred + seq![req]);
    assert(others(before.backlog, req).push(req) =~= others(before.backlog, req) + seq![req]);
}

/// What was put off and is taken up again is sorted in the same way, but
/// barriers among it are put off and nothing waits behind them.
pub proof fn requests_are_taken_up_again<T: Keyed>(deferred: Seq<T>, backlog: Seq<T>, req: T)
    ensures
        resorted(deferred, seq![]) == (Waiting { backlog: seq![], deferred }),
        ({
            let before = resorted(deferred, backlog);
            let after = resorted(deferred, backlog.push(req));
            &&& req.spec_key() is None ==> after.backlog == before.backlog && after.deferred
                == before.deferred + seq![req]
            &&& req.spec_key() is Some ==> after.deferred == before.deferred && after.backlog
                == others(before.backlog, req) + seq![req]
        }),
{
    assert(backlog.push(req).drop_last() =~= backlog);
    let before = resorted(deferred, backlog);
    lemma_others(before.backlog, req);
    assert(before.deferred.push(req) =~= before.deferred + seq![req]);
    assert(others(before.backlog, req).push(req) =~= others(before.backlog, req) + seq![req]);
    assert(resorted(deferred, Seq::<T>::empty()).backlog =~= Seq::<T>::empty());
}

// Where requests go.

/// The log's worker gets everything; the figures' worker gets loads and
/// barriers.
pub proof fn usage_requests_go_to_their_workers(req: UsagePricingReq, route: UsageRoute)
    requires
        call_ensures(route_usage_req, (&req,), route),
    ensures
        route.log,
        route.aggregate == !(req is LoadLogPage || req is LoadLogDetail),
{
}

/// The number of a request.
pub open spec fn numbered(req: UsagePricingReq, number: u64) -> bool {
    match req {
        UsagePricingReq::Load { request_id, .. } => request_id == number,
        UsagePricingReq::LoadLogPage { request_id, .. } => request_id == number,
        UsagePricingReq::LoadLogDetail { request_id, .. } => request_id == number,
        UsagePricingReq::DropState => false,
    }
}

/// The application that a request is about.
pub open spec fn about(req: UsagePricingReq, app: AppType) -> bool {
    match req {
        UsagePricingReq::Load { app_type, .. } => app_type == app,
        UsagePricingReq::LoadLogPage { app_type, .. } => app_type == app,
        UsagePricingReq::LoadLogDetail { app_type, .. } => app_type == app,
        UsagePricingReq::DropState => false,
    }
}

proof fn lemma_of_others(list: Seq<UsagePricingReq>, app: AppType)
    ensures
        of_other_apps(list, app) == list.filter(
            |req: UsagePricingReq| !about(req, app),
        ),
    decreases list.len(),
{
    reveal(Seq::filter);
    if list.len() > 0 {
        lemma_of_others(list.drop_last(), app);
    }
}

// The figures.

/// A load is begun where nothing is done. Else it waits, in place of what waits
/// for the same application, and what is done is called off if it is older.
pub proof fn loads_are_begun_or_wait<H, C, A>(
    before: UsagePricingAggregateState<H, C, A>,
    req: UsagePricingReq,
    number: u64,
    after: UsagePricingAggregateState<H, C, A>,
    step: AggregateStep,
)
    requires
        before.enqueued(req, after, step),
        req is Load,
        numbered(req, number),
    ensures
        after.running,
        after.drop_acks == before.drop_acks,
        after.running_interrupt == before.running_interrupt,
        after.running_cancel == before.running_cancel,
        !before.running ==> {
            &&& step.launch == Some(req)
            &&& !step.cancel
            &&& after.running_request_id == Some(number)
            &&& !after.cancel_requested
            &&& after.pending@ == before.pending@
        },
        before.running ==> {
            let older = match before.running_request_id {
                Some(running) => running < number,
                None => true,
            };
            &&& step.launch is None
            &&& step.cancel == older
            &&& after.running_request_id == before.running_request_id
            &&& after.cancel_requested == (older || before.cancel_requested)
            &&& after.pending@ == before.pending@.filter(
                |other: UsagePricingReq| !about(other, req->Load_app_type),
            ) + seq![req]
        },
{
    lemma_of_others(before.pending@, req->Load_app_type);
    let rest = before.pending@.filter(
        |other: UsagePricingReq| !about(other, req->Load_app_type),
    );
    assert(rest.push(req) =~= rest + seq![req]);
}

/// When a load is over, the one that came last is begun; those who wait for a
/// barrier are told.
pub proof fn the_last_load_is_begun_next<H, C, A>(
    before: UsagePricingAggregateState<H, C, A>,
    after: UsagePricingAggregateState<H, C, A>,
    completion: UsageCompletion<A>,
)
    requires
        before.completed(after, completion),
    ensures
        completion.drop_acks@ == before.drop_acks@,
        after.drop_acks@.len() == 0,
        !after.cancel_requested,
        after.running_interrupt is None,
        after.running_cancel is None,
        completion.next is None == (before.pending@.len() == 0),
        completion.next is None ==> !after.running,
        completion.next matches Some(next) ==> {
            &&& before.pending@ == after.pending@ + seq![next]
            &&& after.running == before.running
            &&& forall|number: u64|
                #![trigger numbered(next, number)]
                numbered(next, number) ==> after.running_request_id == Some(number)
        },
{
    if completion.next is Some {
        assert(before.pending@ =~= before.pending@.drop_last() + seq![before.pending@.last()]);
    }
}

/// A barrier throws away what waits. It is answered at once where nothing is
/// done, and else when what is done, and called off, is over.
pub proof fn barriers_call_off_loads<H, C, A>(
    before: UsagePricingAggregateState<H, C, A>,
    ack: A,
    after: UsagePricingAggregateState<H, C, A>,
    step: BarrierStep<A>,
)
    requires
        before.wf(),
        before.cleared(ack, after, step),
    ensures
        after.pending@.len() == 0,
        after.running == before.running,
        step.cancel == before.running,
        before.running ==> {
            &&& step.answer is None
            &&& after.cancel_requested
            &&& after.drop_acks@ == before.drop_acks@ + seq![ack]
        },
        !before.running ==> step.answer == Some(ack) && after.drop_acks@ == before.drop_acks@,
        after.running_request_id == before.running_request_id,
{
    assert(before.drop_acks@.push(ack) =~= before.drop_acks@ + seq![ack]);
}

// The log.

/// The mark of a request: its number, and what it was asked for with.
pub open spec fn marked_by(req: UsagePricingReq, token: UsageLogRequestToken) -> bool {
    match req {
        UsagePricingReq::Load { request_id, generation, app_state_epoch, .. } => token.request_id
            == request_id && token.generation == generation && token.app_state_epoch
            == app_state_epoch,
        UsagePricingReq::LoadLogPage { request_id, generation, app_state_epoch, .. } => {
            token.request_id == request_id && token.generation == generation
                && token.app_state_epoch == app_state_epoch
        },
        UsagePricingReq::LoadLogDetail { request_id, generation, app_state_epoch, .. } => {
            token.request_id == request_id && token.generation == generation
                && token.app_state_epoch == app_state_epoch
        },
        UsagePricingReq::DropState => false,
    }
}

/// The mark of a request is made of it; a barrier has none.
pub proof fn log_requests_are_marked(req: UsagePricingReq, token: Option<UsageLogRequestToken>)
    requires
        call_ensures(usage_log_request_token, (&req,), token),
    ensures
        token is None == req is DropState,
        token matches Some(token) ==> marked_by(req, token),
{
}

/// A query of the log is begun where none is made. Else the one that is made is
/// called off, and this one waits in place of the one that waited.
pub proof fn queries_are_begun_or_wait<H, C, A>(
    before: UsageLogQueryState<H, C, A>,
    req: UsagePricingReq,
    after: UsageLogQueryState<H, C, A>,
    step: LogStep,
)
    requires
        before.enqueued(req, after, step),
        !(req is DropState),
    ensures
        after.running,
        after.drop_acks == before.drop_acks,
        !before.running ==> {
            &&& step == (LogStep { launch: Some(req), superseded: None, cancel: false })
            &&& after.running_token matches Some(token)
            &&& marked_by(req, token)
            &&& !after.cancel_requested
            &&& after.pending is None
        },
        before.running ==> {
            &&& step == (LogStep { launch: None, superseded: before.pending, cancel: true })
            &&& after.running_token == before.running_token
            &&& after.cancel_requested
            &&& after.pending == Some(req)
        },
{
}

/// The end of the query that is made begins the one that waits and answers the
/// barriers. The end of another changes nothing.
pub proof fn the_waiting_query_is_begun_next<H, C, A>(
    before: UsageLogQueryState<H, C, A>,
    token: UsageLogRequestToken,
    after: UsageLogQueryState<H, C, A>,
    completion: UsageCompletion<A>,
)
    requires
        before.wf(),
        before.completed(token, after, completion),
    ensures
        before.running_token != Some(token) ==> {
            &&& after == before
            &&& completion.next is None
            &&& completion.drop_acks@.len() == 0
        },
        before.running_token == Some(token) ==> {
            &&& completion.next == before.pending
            &&& completion.drop_acks@ == before.drop_acks@
            &&& after.pending is None
            &&& after.drop_acks@.len() == 0
            &&& !after.cancel_requested
            &&& after.running == before.pending is Some
            &&& before.pending matches Some(next) ==> {
                &&& after.running_token matches Some(new)
                &&& marked_by(next, new)
            }
        },
{
}

/// A barrier throws away the query that waits. It is answered at once where none
/// is made, and else when the one that is made, and called off, is over.
pub proof fn barriers_call_off_queries<H, C, A>(
    before: UsageLogQueryState<H, C, A>,
    ack: A,
    after: UsageLogQueryState<H, C, A>,
    step: BarrierStep<A>,
)
    requires
        before.cleared(ack, after, step),
    ensures
        after.pending is None,
        step.superseded == before.pending,
        step.cancel == before.running,
        after.running == before.running,
        after.running_token == before.running_token,
        before.running ==> {
            &&& step.answer is None
            &&& after.cancel_requested
            &&& after.drop_acks@ == before.drop_acks@ + seq![ack]
        },
        !before.running ==> step.answer == Some(ack) && after.drop_acks@ == before.drop_acks@,
{
    assert(before.drop_acks@.push(ack) =~= before.drop_acks@ + seq![ack]);
}

/// A load reads the head of the log, a hundred entries from the newest; a page
/// is read from where, in which direction and as long as asked; an entry by its
/// number.
pub proof fn the_log_is_read_as_asked(req: UsagePricingReq, query: Option<LogQuery>)
    requires
        call_ensures(usage_log_query, (&req,), query),
    ensures
        query is None == req is DropState,
        req matches UsagePricingReq::Load { app_type, range, .. } ==> query == Some(
            LogQuery::Page {
                app_type,
                range,
                cursor: None,
                direction: UsageLogPageDirection::Older,
                limit: 100,
            },
        ),
        req matches UsagePricingReq::LoadLogPage {
            app_type,
            range,
            cursor,
            direction,
            limit,
            ..
        } ==> query == Some(
            LogQuery::Page { app_type, range, cursor: Some(cursor), direction, limit },
        ),
        req matches UsagePricingReq::LoadLogDetail { app_type, range, log_rowid, .. } ==> query
            == Some(LogQuery::Detail { app_type, range, log_rowid }),
{
}

/// Figures are answered under what they were asked for with. Work that was
/// called off is answered as such, whatever came of it.
pub proof fn figures_are_answered(
    req: UsagePricingReq,
    loaded: Result<UsagePricingData, String>,
    cancelled: bool,
    msg: Option<UsagePricingMsg>,
)
    requires
        call_ensures(answer_usage_pricing_req, (&req, loaded, cancelled), msg),
    ensures
        msg is Some == req is Load,
        req matches UsagePricingReq::Load {
            request_id,
            generation,
            app_state_epoch,
            app_type,
            range,
        } ==> {
            &&& msg matches Some(
                UsagePricingMsg::Loaded {
                    request_id: id,
                    generation: made,
                    app_state_epoch: epoch,
                    app_type: app,
                    range: span,
                    result,
                },
            )
            &&& id == request_id
            &&& made == generation
            &&& epoch == app_state_epoch
            &&& app == app_type
            &&& span == range
            &&& cancelled ==> result == Err::<UsagePricingData, UsagePricingLoadError>(
                UsagePricingLoadError::Cancelled,
            )
            &&& !cancelled ==> (loaded matches Ok(data) ==> result == Ok::<
                UsagePricingData,
                UsagePricingLoadError,
            >(data))
            &&& !cancelled ==> (loaded matches Err(error) ==> result == Err::<
                UsagePricingData,
                UsagePricingLoadError,
            >(UsagePricingLoadError::Failed(error)))
        },
{
}

/// What came of a query that may have been called off.
pub open spec fn came_of<T>(
    result: Result<T, String>,
    cancelled: bool,
    outcome: Result<T, UsageLogLoadError>,
) -> bool {
    &&& cancelled ==> outcome == Err::<T, UsageLogLoadError>(UsageLogLoadError::Cancelled)
    &&& !cancelled ==> (result matches Ok(value) ==> outcome == Ok::<T, UsageLogLoadError>(value))
    &&& !cancelled ==> (result matches Err(error) ==> outcome == Err::<T, UsageLogLoadError>(
        UsageLogLoadError::Failed(error),
    ))
}

/// A page or an entry of the log is answered under what it was asked for with,
/// as the head, the page or the entry that it was asked for as.
pub proof fn queries_are_answered(
    req: UsagePricingReq,
    answer: LogAnswer,
    cancelled: bool,
    msg: Option<UsagePricingMsg>,
)
    requires
        call_ensures(answer_usage_log_req, (&req, answer, cancelled), msg),
    ensures
        answer matches LogAnswer::Page(page) ==> {
            &&& msg is Some == (req is Load || req is LoadLogPage)
            &&& req matches UsagePricingReq::Load {
                request_id,
                generation,
                app_state_epoch,
                app_type,
                range,
            } ==> {
                &&& msg matches Some(
                    UsagePricingMsg::LogHeadLoaded {
                        request_id: id,
                        generation: made,
                        app_state_epoch: epoch,
                        app_type: app,
                        range: span,
                        result,
                    },
                )
                &&& id == request_id
                &&& made == generation
                &&& epoch == app_state_epoch
                &&& app == app_type
                &&& span == range
                &&& came_of(page, cancelled, result)
            }
            &&& req matches UsagePricingReq::LoadLogPage {
                request_id,
                generation,
                app_state_epoch,
                app_type,
                range,
                page: number,
                direction,
                ..
            } ==> {
                &&& msg matches Some(
                    UsagePricingMsg::LogPageLoaded {
                        request_id: id,
                        generation: made,
                        app_state_epoch: epoch,
                        app_type: app,
                        range: span,
                        page: read,
                        direction: way,
                        result,
                    },
                )
                &&& id == request_id
                &&& made == generation
                &&& epoch == app_state_epoch
                &&& app == app_type
                &&& span == range
                &&& read == number
                &&& way == direction
                &&& came_of(page, cancelled, result)
            }
        },
        answer matches LogAnswer::Detail(entry) ==> {
            &&& msg is Some == req is LoadLogDetail
            &&& req matches UsagePricingReq::LoadLogDetail {
                request_id,
                generation,
                app_state_epoch,
                app_type,
                range,
                log_rowid,
            } ==> {
                &&& msg matches Some(
                    UsagePricingMsg::LogDetailLoaded {
                        request_id: id,
                        generation: made,
                        app_state_epoch: epoch,
                        app_type: app,
                        range: span,
                        log_rowid: row,
                        result,
                    },
                )
                &&& id == request_id
                &&& made == generation
                &&& epoch == app_state_epoch
                &&& app == app_type
                &&& span == range
                &&& row == log_rowid
                &&& came_of(entry, cancelled, result)
            }
        },
{
}

/// A request of the log that is turned down is answered under what it was asked
/// for with, with the reason.
pub proof fn refused_queries_are_answered(
    req: UsagePricingReq,
    error: UsageLogLoadError,
    msg: Option<UsagePricingMsg>,
)
    requires
        call_ensures(usage_log_req_refused, (&req, error), msg),
    ensures
        msg is None == req is DropState,
        req matches UsagePricingReq::Load {
            request_id,
            generation,
            app_state_epoch,
            app_type,
            range,
        } ==> msg == Some(
            UsagePricingMsg::LogHeadLoaded {
                request_id,
                generation,
                app_state_epoch,
                app_type,
                range,
                result: Err(error),
            },
        ),
        req matches UsagePricingReq::LoadLogPage {
            request_id,
            generation,
            app_state_epoch,
            app_type,
            range,
            page,
            direction,
            ..
        } ==> msg == Some(
            UsagePricingMsg::LogPageLoaded {
                request_id,
                generation,
                app_state_epoch,
                app_type,
                range,
                page,
                direction,
                result: Err(error),
            },
        ),
        req matches UsagePricingReq::LoadLogDetail {
            request_id,
            generation,
            app_state_epoch,
            app_type,
            range,
            log_rowid,
        } ==> msg == Some(
            UsagePricingMsg::LogDetailLoaded {
                request_id,
                generation,
                app_state_epoch,
                app_type,
                range,
                log_rowid,
                result: Err(error),
            },
        ),
{
}

// The applications' data.

/// The first load of all reads the state anew and then the data of each
/// application asked for, each under its own number; a load of one application
/// reads the state anew; a full one goes to the store. Dropping loads nothing.
pub proof fn data_is_loaded_as_asked(req: AppDataReq, loads: Vec<AppDataLoad>)
    requires
        call_ensures(app_data_loads, (&req,), loads),
    ensures
        req is DropState ==> loads@.len() == 0,
        req matches AppDataReq::Load { request_id, generation, app_state_epoch, app_type } ==> {
            &&& loads@.len() == 1
            &&& loads@[0].kind is Snapshot
            &&& loads@[0].request_id == request_id
            &&& loads@[0].generation == generation
            &&& loads@[0].app_state_epoch == app_state_epoch
            &&& loads@[0].app_type == app_type
            &&& loads@[0].source == (AppDataSource::HeldState { reload: true })
        },
        req matches AppDataReq::FullLoad { request_id, generation, app_state_epoch, app_type } ==> {
            &&& loads@.len() == 1
            &&& loads@[0].kind is Full
            &&& loads@[0].request_id == request_id
            &&& loads@[0].generation == generation
            &&& loads@[0].app_state_epoch == app_state_epoch
            &&& loads@[0].app_type == app_type
            &&& loads@[0].source is Store
        },
        req matches AppDataReq::InitialLoad {
            request_id,
            generation,
            app_state_epoch,
            app_type,
            extras,
        } ==> {
            &&& loads@.len() == 1 + extras@.len()
            &&& loads@[0].request_id == request_id
            &&& loads@[0].app_type == app_type
            &&& loads@[0].source == (AppDataSource::HeldState { reload: true })
            &&& forall|i: int|
                0 <= i < loads@.len() ==> (#[trigger] loads@[i]).kind is Initial
                    && loads@[i].generation == generation && loads@[i].app_state_epoch
                    == app_state_epoch
            &&& forall|i: int|
                1 <= i < loads@.len() ==> (#[trigger] loads@[i]).app_type == extras@[i - 1].0
                    && loads@[i].request_id == extras@[i - 1].1 && loads@[i].source
                    == (AppDataSource::HeldState { reload: false })
        },
{
}

/// Data is answered under what it was loaded with; the state that is held is
/// made anew where it is of another epoch.
pub proof fn data_is_answered(
    load: AppDataLoad,
    result: Result<UiData, String>,
    msg: AppDataLoaded,
    held: Option<u64>,
    epoch: u64,
    anew: bool,
)
    requires
        call_ensures(app_data_answer, (load, result), msg),
        call_ensures(needs_state_for_epoch, (held, epoch), anew),
    ensures
        msg.kind == load.kind,
        msg.request_id == load.request_id,
        msg.generation == load.generation,
        msg.app_state_epoch == load.app_state_epoch,
        msg.app_type == load.app_type,
        msg.result == result,
        held is None ==> anew,
        held matches Some(of) ==> anew == (of != epoch),
{
}

/// Bringing the figures of the sessions in step fails where anything of it did:
/// how often, and how first, is told.
pub proof fn steps_of_sessions_are_answered(
    request_id: u64,
    result: Result<Vec<String>, String>,
    msg: SessionUsageSyncMsg,
)
    requires
        call_ensures(session_usage_sync_answer, (request_id, result), msg),
    ensures
        msg.request_id == request_id,
        result matches Err(error) ==> msg.result == Err::<(), String>(error),
        result matches Ok(errors) ==> {
            &&& msg.result is Ok == (errors@.len() == 0)
            &&& errors@.len() > 0 ==> msg.result->Err_0@ == decimal_text(errors@.len())
                + " session usage sync error(s); first: "@ + errors@[0]@
        },
{
}

} // verus!
