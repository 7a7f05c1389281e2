//! What the session workers owe those who ask them, answer by answer.

use vstd::prelude::*;

use crate::outbox::Link;
use crate::session_jobs::{
    candidate_pages, fallback_row, locate_answer, messages_answer, page_result, pages_to_read,
    provider_scan_result, scan_answer, scan_check, scan_providers, search_answer, search_check,
    JobOutcome, LocateSearch, LocateStep, ReaderLabel,
};
use crate::session_messages::{ManifestPage, PublishedManifest, SessionMsg};
use crate::session_requests::SessionReq;
use crate::session_workers::{
    coalesced, delete_acknowledged, deletion_result, launch_failed, launch_ticket, purge_reported,
    LaunchTicket, MailboxTake, PurgeJob, SessionLanes, SessionLocateMailbox,
};
use crate::sessions::{ManifestReader, SessionMessage, SessionPageSource, SessionPageToken};

verus! {

// The lanes.

/// Each request goes to the worker of its kind; what calls work off and what
/// deletes has workers of its own.
pub proof fn requests_go_to_their_workers(req: SessionReq)
    ensures
        req is Search ==> SessionLanes::lane(req) is Search,
        req is LoadMessages ==> SessionLanes::lane(req) is Messages,
        req is LoadPage ==> SessionLanes::lane(req) is Page,
        req is Refresh ==> SessionLanes::lane(req) is Scan,
        req is LocateManifest ==> SessionLanes::lane(req) is Locate,
        req is Delete ==> SessionLanes::lane(req) is Control,
        req is CancelSearch || req is CancelMessages ==> SessionLanes::lane(req) is Cancel,
{
}

/// A request calls off what its own worker does, by giving it another number,
/// and nothing that others do. Pages are all read, and deletions all made.
pub proof fn requests_call_off_their_own_kind(lanes: SessionLanes, req: SessionReq)
    ensures
        (lanes.taking(req).search != lanes.search) == (req is Search || req is CancelSearch),
        (lanes.taking(req).messages != lanes.messages) == (req is LoadMessages
            || req is CancelMessages),
        (lanes.taking(req).scan != lanes.scan) == req is Refresh,
        (lanes.taking(req).locate != lanes.locate) == req is LocateManifest,
{
}

/// Each number is the next one, so that none comes again before all have.
pub proof fn numbers_of_work_go_up(lanes: SessionLanes, req: SessionReq)
    ensures
        lanes.search < u64::MAX && (req is Search || req is CancelSearch)
            ==> lanes.taking(req).search == lanes.search + 1,
        lanes.messages < u64::MAX && (req is LoadMessages || req is CancelMessages)
            ==> lanes.taking(req).messages == lanes.messages + 1,
        lanes.scan < u64::MAX && req is Refresh ==> lanes.taking(req).scan == lanes.scan + 1,
        lanes.locate < u64::MAX && req is LocateManifest ==> lanes.taking(req).locate
            == lanes.locate + 1,
{
}

/// A request that cannot be started is answered as one that failed: its answer
/// carries what it was asked with. Messages and places that are no longer wanted
/// are not answered at all.
pub proof fn requests_that_cannot_start_are_answered(
    req: SessionReq,
    ticket: Option<LaunchTicket>,
    error: String,
    current: bool,
    msg: Option<SessionMsg>,
)
    requires
        call_ensures(launch_ticket, (&req,), ticket),
        ticket is Some,
        call_ensures(launch_failed, (ticket->0, error, current), msg),
    ensures
        req matches SessionReq::Search {
            request_id,
            scope_epoch,
            query,
            base,
            query_namespace,
            ..
        } ==> {
            &&& msg matches Some(
                SessionMsg::QueryPublished {
                    request_id: id,
                    scope_epoch: epoch,
                    scope,
                    base_generation,
                    query: searched,
                    query_namespace: namespace,
                    result,
                },
            )
            &&& id == request_id
            &&& epoch == scope_epoch
            &&& scope@ == base.scope@
            &&& base_generation@ == base.generation@
            &&& searched@ == query@
            &&& namespace@ == query_namespace@
            &&& result is Err
            &&& result->Err_0 == error
        },
        req matches SessionReq::LoadPage { request_id, token, page, .. } ==> {
            &&& msg matches Some(
                SessionMsg::PageLoaded { request_id: id, token: asked, page: wanted, result },
            )
            &&& id == request_id
            &&& asked@ == token@
            &&& wanted == page
            &&& result is Err
            &&& result->Err_0 == error
        },
        req matches SessionReq::Refresh { request_id, scope_epoch, provider_id, .. } ==> {
            &&& msg matches Some(
                SessionMsg::ManifestPublished { request_id: id, scope_epoch: epoch, scope, result },
            )
            &&& id == request_id
            &&& epoch == scope_epoch
            &&& scope@ == provider_id@
            &&& result is Err
            &&& result->Err_0 == error
        },
        req is LoadMessages || req is LocateManifest ==> msg is Some == current,
        current ==> (req matches SessionReq::LoadMessages { request_id, key, .. } ==> {
            &&& msg matches Some(SessionMsg::MessagesLoaded { request_id: id, key: asked, result })
            &&& id == request_id
            &&& asked@ == key@
            &&& result is Err
            &&& result->Err_0 == error
        }),
        current ==> (req matches SessionReq::LocateManifest {
            request_id,
            scope_epoch,
            generation,
            ..
        } ==> {
            &&& msg matches Some(
                SessionMsg::ManifestLocated {
                    request_id: id,
                    scope_epoch: epoch,
                    generation: asked,
                    result,
                },
            )
            &&& id == request_id
            &&& epoch == scope_epoch
            &&& asked@ == generation@
            &&& result is Err
            &&& result->Err_0 == error
        }),
{
}

/// Every request that somebody waits for can be answered where it cannot be
/// started.
pub proof fn requests_have_tickets(req: SessionReq, ticket: Option<LaunchTicket>)
    requires
        call_ensures(launch_ticket, (&req,), ticket),
    ensures
        ticket is None == (req is Delete || req is CancelSearch || req is CancelMessages),
{
}

// The mailbox.

/// A job is picked up once, and the last one left is it. A mailbox that is
/// closed takes none, and is empty only once what was left was picked up.
pub proof fn the_last_job_is_picked_up<J>(
    mailbox: SessionLocateMailbox<J>,
    job: J,
    left: SessionLocateMailbox<J>,
    result: Result<(), String>,
    emptied: SessionLocateMailbox<J>,
    first: MailboxTake<J>,
    after: SessionLocateMailbox<J>,
    second: MailboxTake<J>,
)
    requires
        mailbox.submitted(job, left, result),
        left.taken(emptied, first),
        emptied.taken(after, second),
    ensures
        result is Ok == !mailbox.closed,
        result is Ok ==> first == MailboxTake::Job(job),
        result is Err ==> left == mailbox && result->Err_0@
            == "sessions locate worker is not running"@,
        mailbox.closed ==> (mailbox.pending matches Some(kept) ==> first == MailboxTake::Job(
            kept,
        )),
        mailbox.closed ==> second is Closed,
        !mailbox.closed ==> second is Empty,
        emptied.closed == mailbox.closed,
{
}

// Scans and deletions.

/// A session counts as deleted only where it was; else the reason is given.
pub proof fn deletions_are_reported(deleted: Result<bool, String>, result: Result<(), String>)
    requires
        call_ensures(deletion_result, (deleted,), result),
    ensures
        result is Ok == (deleted == Ok::<bool, String>(true)),
        deleted matches Err(error) ==> result == Err::<(), String>(error),
        deleted == Ok::<bool, String>(false) ==> result->Err_0@ == "Session was not deleted"@,
{
}

/// Manifests are made anew exactly for a session that is gone, once its deletion
/// was reported.
pub proof fn manifests_are_made_anew_after_the_report(
    link: Link,
    sent: Seq<SessionMsg>,
    request_id: u64,
    key: String,
    result: Result<(), String>,
    sent_after: Seq<SessionMsg>,
    job: Result<Option<PurgeJob>, ()>,
)
    requires
        delete_acknowledged(link, sent, request_id, key, result, sent_after, job),
    ensures
        job is Ok == (link == Link::Open),
        job is Err ==> sent_after == sent,
        job is Ok ==> {
            &&& sent_after == sent + seq![SessionMsg::DeleteFinished { request_id, key, result }]
            &&& job->Ok_0 is Some == result is Ok
        },
        job matches Ok(Some(purge)) ==> purge.request_id == request_id && purge.key@ == key@,
{
    if job is Ok {
        assert(sent_after =~= sent_after.drop_last() + seq![sent_after.last()]);
    }
}

/// Where manifests cannot be made anew, that is reported under the deletion, as
/// none at all.
pub proof fn manifests_not_made_are_reported(
    link: Link,
    sent: Seq<SessionMsg>,
    job: PurgeJob,
    sent_after: Seq<SessionMsg>,
    result: Result<(), ()>,
)
    requires
        purge_reported(link, sent, job, sent_after, result),
    ensures
        result is Ok == (link == Link::Open),
        result is Err ==> sent_after == sent,
        result is Ok ==> {
            &&& sent_after.len() == sent.len() + 1
            &&& sent_after.take(sent.len() as int) == sent
            &&& sent_after[sent.len() as int] matches SessionMsg::ManifestsPurged {
                request_id,
                key,
                base,
            }
            &&& request_id == job.request_id
            &&& key == job.key
            &&& base@.len() == 0
        },
{
    if result is Ok {
        assert(sent_after.take(sent.len() as int) =~= sent_after.drop_last());
    }
}

/// A scan directly before another is left out, and nothing else is: where a
/// request comes behind others, it takes the place of a scan that was last if it
/// is one itself, and stands behind them otherwise.
pub proof fn scans_in_a_row_are_one(reqs: Seq<SessionReq>, req: SessionReq)
    ensures
        coalesced(seq![req]) == seq![req],
        reqs.len() > 0 && reqs.last() is Refresh && req is Refresh ==> coalesced(reqs.push(req))
            == coalesced(reqs).take(coalesced(reqs).len() - 1) + seq![req],
        reqs.len() > 0 && !(reqs.last() is Refresh && req is Refresh) ==> coalesced(
            reqs.push(req),
        ) == coalesced(reqs) + seq![req],
{
    let more = reqs.push(req);
    assert(more.drop_last() =~= reqs);
    let before = coalesced(reqs);
    if reqs.len() > 0 {
        assert(more[more.len() - 2] == reqs.last());
        assert(before.push(req) =~= before + seq![req]);
        lemma_coalesced_some(reqs);
        assert(before.drop_last().push(req) =~= before.take(before.len() - 1) + seq![req]);
    }
}

proof fn lemma_coalesced_some(reqs: Seq<SessionReq>)
    requires
        reqs.len() > 0,
    ensures
        coalesced(reqs).len() > 0,
    decreases reqs.len(),
{
    if reqs.len() > 1 {
        lemma_coalesced_some(reqs.drop_last());
    }
}

/// All providers are scanned where all are listed, and else the one that is.
pub proof fn scopes_are_scanned(scope: String, every: Vec<String>, providers: Vec<String>)
    requires
        call_ensures(scan_providers, (&scope, every), providers),
    ensures
        scope@ == "all"@ ==> providers == every,
        scope@ != "all"@ ==> providers@.len() == 1 && providers@[0]@ == scope@,
{
}

/// A provider's scan fails where a row could not be taken, or it was stopped.
pub proof fn scans_fail_where_stopped(
    push_error: Option<String>,
    stopped: bool,
    result: Result<(), String>,
)
    requires
        call_ensures(provider_scan_result, (push_error, stopped), result),
    ensures
        result is Ok == (push_error is None && !stopped),
        push_error matches Some(error) ==> result == Err::<(), String>(error),
        push_error is None && stopped ==> result->Err_0@ == "session manifest scan was stopped"@,
{
}

// Answers.

/// A page is handed on only where the manifest that it was read from is the one
/// asked for, and it was there.
pub proof fn pages_come_from_their_manifest(
    token: SessionPageToken,
    label: ReaderLabel,
    loaded: Option<ManifestPage>,
    result: Result<ManifestPage, String>,
)
    requires
        call_ensures(page_result, (&token, &label, loaded), result),
    ensures
        ({
            let fits = label.scope@ == token.scope@ && label.generation@ == token.generation@;
            &&& result is Ok == (fits && loaded is Some)
            &&& result matches Ok(page) ==> loaded == Some(page)
            &&& !fits ==> result->Err_0@
                == "session manifest reader does not match its page token"@
            &&& fits && loaded is None ==> result->Err_0@
                == "session manifest page is unavailable"@
        }),
{
}

/// Work that was called off is not answered; other work is, with what it was
/// asked with and what came of it.
pub proof fn current_work_is_answered(
    request_id: u64,
    key: String,
    messages: Result<Vec<SessionMessage>, String>,
    scope_epoch: u64,
    generation: String,
    located: Result<(ManifestReader, ManifestPage, usize), String>,
    current: u64,
    job: u64,
    read: Option<SessionMsg>,
    found: Option<SessionMsg>,
    checked: Result<(), String>,
)
    requires
        call_ensures(messages_answer, (request_id, key, messages, current, job), read),
        call_ensures(
            locate_answer,
            (request_id, scope_epoch, generation, located, current, job),
            found,
        ),
        call_ensures(scan_check, (current, job), checked),
    ensures
        current != job ==> read is None && found is None && checked is Err && checked->Err_0@
            == "session manifest build was cancelled"@,
        current == job ==> {
            &&& read == Some(SessionMsg::MessagesLoaded { request_id, key, result: messages })
            &&& found == Some(
                SessionMsg::ManifestLocated { request_id, scope_epoch, generation, result: located },
            )
            &&& checked is Ok
        },
{
}

/// A scan that is current is answered, under its scope, with what came of it.
pub proof fn scans_are_answered(
    request_id: u64,
    scope_epoch: u64,
    scope: String,
    outcome: JobOutcome<(PublishedManifest, ManifestReader)>,
    current: u64,
    job: u64,
    msg: Option<SessionMsg>,
)
    requires
        call_ensures(
            scan_answer,
            (request_id, scope_epoch, scope, outcome, current, job),
            msg,
        ),
    ensures
        msg is None == (current != job),
        outcome matches JobOutcome::Finished(result) ==> (msg is Some ==> msg == Some(
            SessionMsg::ManifestPublished { request_id, scope_epoch, scope, result },
        )),
        outcome is Panicked ==> (msg is Some ==> {
            &&& msg matches Some(
                SessionMsg::ManifestPublished { request_id: id, scope_epoch: epoch, scope: of, result },
            )
            &&& id == request_id
            &&& epoch == scope_epoch
            &&& of == scope
            &&& result is Err
            &&& result->Err_0@ == "session manifest scan panicked"@
        }),
{
}

/// A search that is current is answered, under the manifest searched, with what
/// came of it.
pub proof fn searches_are_answered(
    request_id: u64,
    scope_epoch: u64,
    base: SessionPageToken,
    query: String,
    query_namespace: String,
    outcome: JobOutcome<(PublishedManifest, ManifestReader)>,
    current: u64,
    job: u64,
    msg: Option<SessionMsg>,
)
    requires
        call_ensures(
            search_answer,
            (request_id, scope_epoch, base, query, query_namespace, outcome, current, job),
            msg,
        ),
    ensures
        msg is None == (current != job),
        msg is Some ==> {
            &&& msg matches Some(
                SessionMsg::QueryPublished {
                    request_id: id,
                    scope_epoch: epoch,
                    scope,
                    base_generation,
                    query: searched,
                    query_namespace: namespace,
                    result,
                },
            )
            &&& id == request_id
            &&& epoch == scope_epoch
            &&& scope == base.scope
            &&& base_generation == base.generation
            &&& searched == query
            &&& namespace == query_namespace
            &&& outcome matches JobOutcome::Finished(finished) ==> result == finished
            &&& outcome is Panicked ==> result is Err && result->Err_0@
                == "session search panicked"@
        },
{
}

/// Only a manifest of all sessions is searched, read as the one asked for, and
/// only while the search is wanted.
pub proof fn searches_are_checked(
    base: SessionPageToken,
    label: ReaderLabel,
    cancelled: bool,
    result: Result<(), String>,
)
    requires
        call_ensures(search_check, (&base, &label, cancelled), result),
    ensures
        ({
            let fits = label.scope@ == base.scope@ && label.generation@ == base.generation@;
            let whole = base.source == SessionPageSource::Base;
            &&& result is Ok == (whole && fits && !cancelled)
            &&& !whole ==> result->Err_0@ == "session query source is not a base manifest"@
            &&& whole && !fits ==> result->Err_0@
                == "session query base reader does not match its token"@
            &&& whole && fits && cancelled ==> result->Err_0@ == "session query was cancelled"@
        }),
{
}

// Places.

/// A selected session is looked for on the page where its place was, and on the
/// pages before and behind it; without one only that page is read. The place
/// counts as the last one where there are fewer rows now.
pub proof fn sessions_are_looked_for_nearby(
    fallback_absolute: usize,
    label: ReaderLabel,
    anchored: bool,
)
    ensures
        ({
            let pages = pages_to_read(fallback_absolute, label, anchored);
            let row: int = if fallback_absolute < label.total_rows {
                fallback_absolute as int
            } else if label.total_rows > 0 {
                label.total_rows - 1
            } else {
                0
            };
            let here = row / 100;
            &&& fallback_row(fallback_absolute, label.total_rows) == row
            &&& pages.len() > 0
            &&& pages[0] == here
            &&& !anchored ==> pages.len() == 1
            &&& anchored ==> {
                &&& forall|page: usize| #[trigger]
                    pages.contains(page) <==> page == here || page == here - 1 || (page == here + 1
                        && page < label.page_count)
                &&& forall|i: int, j: int| 0 <= i < j < pages.len() ==> pages[i] != pages[j]
            }
        }),
{
    let pages = pages_to_read(fallback_absolute, label, anchored);
    let here = fallback_row(fallback_absolute, label.total_rows) / 100;
    assert(pages == candidate_pages(here as usize, label.page_count, anchored));
    if anchored {
        assert forall|page: usize| #[trigger]
            pages.contains(page) <==> page == here || page == here - 1 || (page == here + 1 && page
                < label.page_count) by {
            if page == here {
                assert(pages[0] == page);
            }
            if page == here - 1 {
                assert(pages[1] == page);
            }
            if page == here + 1 && page < label.page_count {
                assert(pages[pages.len() - 1] == page);
            }
            if pages.contains(page) {
                let i = choose|i: int| 0 <= i < pages.len() && pages[i] == page;
                assert(0 <= i < 3);
            }
        }
    }
}

/// A page that was read ends the search where the session stands on it, at its
/// first place there. The last page ends it as well: then the first page read is
/// shown, at the place that the session had, or the last one on it.
pub proof fn places_are_found(
    search: LocateSearch,
    page: Option<ManifestPage>,
    step: LocateStep,
)
    requires
        search.wf(),
        call_ensures(LocateSearch::page_read, (search, page), step),
    ensures
        page is None == step is Failed,
        page matches Some(read) ==> {
            let known = search.anchor is Some && exists|i: int|
                0 <= i < read.rows@.len() && search.anchor->0@.is((#[trigger] read.rows@[i])@);
            &&& known ==> {
                &&& step matches LocateStep::Found(shown, at)
                &&& shown == read
                &&& at < read.rows@.len()
                &&& search.anchor->0@.is(read.rows@[at as int]@)
                &&& forall|i: int|
                    0 <= i < at ==> !search.anchor->0@.is((#[trigger] read.rows@[i])@)
            }
            &&& !known && search.read + 1 < search.candidates@.len() ==> {
                &&& step matches LocateStep::Read(next, number)
                &&& number == search.candidates@[search.read + 1]
                &&& next.read == search.read + 1
                &&& next.anchor == search.anchor
                &&& next.candidates == search.candidates
            }
            &&& !known && search.read + 1 == search.candidates@.len() ==> {
                &&& step matches LocateStep::Found(shown, at)
                &&& search.read == 0 ==> shown == read
                &&& search.read > 0 ==> search.fallback_page == Some(shown)
                &&& shown.rows@.len() > search.fallback % 100 ==> at == search.fallback % 100
                &&& 0 < shown.rows@.len() <= search.fallback % 100 ==> at == shown.rows@.len() - 1
                &&& shown.rows@.len() == 0 ==> at == 0
            }
        },
{
    if page is Some && search.anchor is Some {
        let read = page->0;
        if exists|i: int|
            0 <= i < read.rows@.len() && search.anchor->0@.is((#[trigger] read.rows@[i])@) {
            assert(!search.absent(read));
        }
    }
}

} // verus!
