//! The workers behind the sessions screen: which lane a request takes, what is
//! still current, and what is answered.

use vstd::prelude::*;

use crate::base::{lemma_skip_one, Duplicate};
use crate::outbox::{Link, Outbox};
use crate::request::{following, next_number};
use crate::session_messages::SessionMsg;
use crate::session_requests::SessionReq;
use crate::sessions::SessionPageToken;

verus! {

// Lanes.

/// Where a request is carried out. Every lane but the last works beside the
/// others, so that none is kept waiting by a deletion.
#[derive(Debug, Clone, Copy, PartialEq, Eq, Structural)]
pub enum SessionLane {
    Search,
    Messages,
    Page,
    Scan,
    Locate,
    /// Nothing is started; what runs is cancelled.
    Cancel,
    /// One request after the other.
    Control,
}

/// Which search, message load, location and scan is the current one. Whatever
/// carries another number is cancelled.
#[derive(Debug, Clone, Copy, PartialEq, Eq, Structural)]
pub struct SessionLanes {
    pub search: u64,
    pub messages: u64,
    pub locate: u64,
    pub scan: u64,
}

impl SessionLanes {
    pub fn new() -> (lanes: SessionLanes)
        ensures
            lanes == (SessionLanes { search: 0, messages: 0, locate: 0, scan: 0 }),
    {
        SessionLanes { search: 0, messages: 0, locate: 0, scan: 0 }
    }

    /// The lane of a request.
    pub open spec fn lane(req: SessionReq) -> SessionLane {
        match req {
            SessionReq::Search { .. } => SessionLane::Search,
            SessionReq::CancelSearch | SessionReq::CancelMessages => SessionLane::Cancel,
            SessionReq::LoadMessages { .. } => SessionLane::Messages,
            SessionReq::LoadPage { .. } => SessionLane::Page,
            SessionReq::Refresh { .. } => SessionLane::Scan,
            SessionReq::LocateManifest { .. } => SessionLane::Locate,
            SessionReq::Delete { .. } => SessionLane::Control,
        }
    }

    /// The numbers once a request has come: it takes the place of what its lane
    /// did before.
    pub open spec fn taking(self, req: SessionReq) -> SessionLanes {
        match req {
            SessionReq::Search { .. } | SessionReq::CancelSearch => SessionLanes {
                search: following(self.search),
                ..self
            },
            SessionReq::LoadMessages { .. } | SessionReq::CancelMessages => SessionLanes {
                messages: following(self.messages),
                ..self
            },
            SessionReq::Refresh { .. } => SessionLanes { scan: following(self.scan), ..self },
            SessionReq::LocateManifest { .. } => SessionLanes {
                locate: following(self.locate),
                ..self
            },
            SessionReq::LoadPage { .. } | SessionReq::Delete { .. } => self,
        }
    }

    /// Takes a request. The result is the lane it takes; what it started carries
    /// the lane's new number.
    pub fn dispatch(&mut self, req: &SessionReq) -> (lane: SessionLane)
        ensures
            lane == Self::lane(*req),
            *final(self) == old(self).taking(*req),
    {
        match req {
            SessionReq::Search { .. } => {
                self.search = next_number(self.search);
                SessionLane::Search
            },
            SessionReq::CancelSearch => {
                self.search = next_number(self.search);
                SessionLane::Cancel
            },
            SessionReq::LoadMessages { .. } => {
                self.messages = next_number(self.messages);
                SessionLane::Messages
            },
            SessionReq::CancelMessages => {
                self.messages = next_number(self.messages);
                SessionLane::Cancel
            },
            SessionReq::LoadPage { .. } => SessionLane::Page,
            SessionReq::Refresh { .. } => {
                self.scan = next_number(self.scan);
                SessionLane::Scan
            },
            SessionReq::LocateManifest { .. } => {
                self.locate = next_number(self.locate);
                SessionLane::Locate
            },
            SessionReq::Delete { .. } => SessionLane::Control,
        }
    }

    /// No more requests come: what runs is cancelled, but for a scan, whose
    /// result is kept for the next time.
    pub fn shut_down(&mut self)
        ensures
            *final(self) == (SessionLanes {
                search: following(old(self).search),
                messages: following(old(self).messages),
                locate: following(old(self).locate),
                ..*old(self)
            }),
    {
        self.search = next_number(self.search);
        self.messages = next_number(self.messages);
        self.locate = next_number(self.locate);
    }
}

/// A deletion cancels nothing and waits for nothing but deletions.
pub proof fn deletions_cancel_nothing(lanes: SessionLanes, req: SessionReq)
    requires
        req is Delete,
    ensures
        lanes.taking(req) == lanes,
        SessionLanes::lane(req) == SessionLane::Control,
{
}

/// The latest message load is the only current one, and closing the session
/// cancels it.
pub proof fn latest_messages_win(lanes: SessionLanes, first: SessionReq, second: SessionReq)
    requires
        first is LoadMessages,
        second is LoadMessages || second is CancelMessages,
    ensures
        lanes.taking(first).taking(second).messages != lanes.taking(first).messages,
        lanes.taking(first).taking(second).search == lanes.search,
{
}

/// What has to be said where a request cannot be started.
#[allow(inconsistent_fields)]
#[derive(Debug)]
pub enum LaunchTicket {
    Search {
        request_id: u64,
        scope_epoch: u64,
        scope: String,
        base_generation: String,
        query: String,
        query_namespace: String,
    },
    Messages { request_id: u64, key: String },
    Page { request_id: u64, token: SessionPageToken, page: usize },
    Scan { request_id: u64, scope_epoch: u64, scope: String },
    Locate { request_id: u64, scope_epoch: u64, generation: String },
}

/// Whether a ticket is a request's.
pub open spec fn is_ticket(ticket: LaunchTicket, req: SessionReq) -> bool {
    match (ticket, req) {
        (
            LaunchTicket::Search {
                request_id,
                scope_epoch,
                scope,
                base_generation,
                query,
                query_namespace,
            },
            SessionReq::Search {
                request_id: id,
                scope_epoch: epoch,
                query: asked,
                base,
                query_namespace: namespace,
                ..
            },
        ) => request_id == id && scope_epoch == epoch && scope@ == base.scope@
            && base_generation@ == base.generation@ && query@ == asked@ && query_namespace@
            == namespace@,
        (
            LaunchTicket::Messages { request_id, key },
            SessionReq::LoadMessages { request_id: id, key: asked, .. },
        ) => request_id == id && key@ == asked@,
        (
            LaunchTicket::Page { request_id, token, page },
            SessionReq::LoadPage { request_id: id, token: asked, page: wanted, .. },
        ) => request_id == id && token@ == asked@ && page == wanted,
        (
            LaunchTicket::Scan { request_id, scope_epoch, scope },
            SessionReq::Refresh { request_id: id, scope_epoch: epoch, provider_id, .. },
        ) => request_id == id && scope_epoch == epoch && scope@ == provider_id@,
        (
            LaunchTicket::Locate { request_id, scope_epoch, generation },
            SessionReq::LocateManifest {
                request_id: id,
                scope_epoch: epoch,
                generation: wanted,
                ..
            },
        ) => request_id == id && scope_epoch == epoch && generation@ == wanted@,
        _ => false,
    }
}

/// Notes what has to be said where a request cannot be started. Deletions and
/// cancellations need no such note.
pub fn launch_ticket(req: &SessionReq) -> (ticket: Option<LaunchTicket>)
    ensures
        match ticket {
            Some(ticket) => is_ticket(ticket, *req),
            None => req is Delete || req is CancelSearch || req is CancelMessages,
        },
{
    match req {
        SessionReq::Search {
            request_id,
            scope_epoch,
            query,
            base,
            query_namespace,
            ..
        } => Some(
            LaunchTicket::Search {
                request_id: *request_id,
                scope_epoch: *scope_epoch,
                scope: base.scope.duplicate(),
                base_generation: base.generation.duplicate(),
                query: query.duplicate(),
                query_namespace: query_namespace.duplicate(),
            },
        ),
        SessionReq::LoadMessages { request_id, key, .. } => Some(
            LaunchTicket::Messages { request_id: *request_id, key: key.duplicate() },
        ),
        SessionReq::LoadPage { request_id, token, page, .. } => Some(
            LaunchTicket::Page {
                request_id: *request_id,
                token: token.duplicate(),
                page: *page,
            },
        ),
        SessionReq::Refresh { request_id, scope_epoch, provider_id, .. } => Some(
            LaunchTicket::Scan {
                request_id: *request_id,
                scope_epoch: *scope_epoch,
                scope: provider_id.duplicate(),
            },
        ),
        SessionReq::LocateManifest { request_id, scope_epoch, generation, .. } => Some(
            LaunchTicket::Locate {
                request_id: *request_id,
                scope_epoch: *scope_epoch,
                generation: generation.duplicate(),
            },
        ),
        SessionReq::Delete { .. } | SessionReq::CancelSearch | SessionReq::CancelMessages => None,
    }
}

/// What is reported of a request that could not be started.
pub open spec fn not_launched(ticket: LaunchTicket, error: String) -> SessionMsg {
    match ticket {
        LaunchTicket::Search {
            request_id,
            scope_epoch,
            scope,
            base_generation,
            query,
            query_namespace,
        } => SessionMsg::QueryPublished {
            request_id,
            scope_epoch,
            scope,
            base_generation,
            query,
            query_namespace,
            result: Err(error),
        },
        LaunchTicket::Messages { request_id, key } => SessionMsg::MessagesLoaded {
            request_id,
            key,
            result: Err(error),
        },
        LaunchTicket::Page { request_id, token, page } => SessionMsg::PageLoaded {
            request_id,
            token,
            page,
            result: Err(error),
        },
        LaunchTicket::Scan { request_id, scope_epoch, scope } => SessionMsg::ManifestPublished {
            request_id,
            scope_epoch,
            scope,
            result: Err(error),
        },
        LaunchTicket::Locate { request_id, scope_epoch, generation } => {
            SessionMsg::ManifestLocated { request_id, scope_epoch, generation, result: Err(error) }
        },
    }
}

/// A request could not be started. Of messages and locations that is reported
/// only while nothing newer was asked for.
pub fn launch_failed(ticket: LaunchTicket, error: String, current: bool) -> (msg: Option<
    SessionMsg,
>)
    ensures
        msg == (if (ticket is Messages || ticket is Locate) && !current {
            None
        } else {
            Some(not_launched(ticket, error))
        }),
{
    match ticket {
        LaunchTicket::Search {
            request_id,
            scope_epoch,
            scope,
            base_generation,
            query,
            query_namespace,
        } => Some(
            SessionMsg::QueryPublished {
                request_id,
                scope_epoch,
                scope,
                base_generation,
                query,
                query_namespace,
                result: Err(error),
            },
        ),
        LaunchTicket::Messages { request_id, key } => if current {
            Some(SessionMsg::MessagesLoaded { request_id, key, result: Err(error) })
        } else {
            None
        },
        LaunchTicket::Page { request_id, token, page } => Some(
            SessionMsg::PageLoaded { request_id, token, page, result: Err(error) },
        ),
        LaunchTicket::Scan { request_id, scope_epoch, scope } => Some(
            SessionMsg::ManifestPublished { request_id, scope_epoch, scope, result: Err(error) },
        ),
        LaunchTicket::Locate { request_id, scope_epoch, generation } => if current {
            Some(
                SessionMsg::ManifestLocated {
                    request_id,
                    scope_epoch,
                    generation,
                    result: Err(error),
                },
            )
        } else {
            None
        },
    }
}

// The locate lane's mailbox.

/// Room for one job. A later job takes the place of one that was not picked up.
#[derive(Debug)]
pub struct SessionLocateMailbox<J> {
    pub pending: Option<J>,
    pub closed: bool,
}

/// What is in the mailbox.
#[derive(Debug)]
pub enum MailboxTake<J> {
    Job(J),
    /// Nothing yet.
    Empty,
    /// Nothing, and nothing will come.
    Closed,
}

impl<J> SessionLocateMailbox<J> {
    pub fn new() -> (mailbox: Self)
        ensures
            mailbox.pending is None,
            !mailbox.closed,
    {
        SessionLocateMailbox { pending: None, closed: false }
    }

    /// What leaving a job leads to.
    pub open spec fn submitted(self, job: J, after: Self, result: Result<(), String>) -> bool {
        &&& after.closed == self.closed
        &&& if self.closed {
            &&& result matches Err(error)
            &&& error@ == "sessions locate worker is not running"@
            &&& after.pending == self.pending
        } else {
            &&& result is Ok
            &&& after.pending == Some(job)
        }
    }

    /// What is picked up, and what is left.
    pub open spec fn taken(self, after: Self, taken: MailboxTake<J>) -> bool {
        &&& taken == (match self.pending {
            Some(job) => MailboxTake::Job(job),
            None => if self.closed {
                MailboxTake::Closed
            } else {
                MailboxTake::Empty
            },
        })
        &&& after.pending is None
        &&& after.closed == self.closed
    }

    pub fn submit(&mut self, job: J) -> (result: Result<(), String>)
        ensures
            old(self).submitted(job, *final(self), result),
    {
        if self.closed {
            return Err("sessions locate worker is not running".to_owned());
        }
        self.pending = Some(job);
        Ok(())
    }

    pub fn close(&mut self)
        ensures
            final(self).closed,
            final(self).pending == old(self).pending,
    {
        self.closed = true;
    }

    /// Picks up the job. One that was left before the mailbox was closed is
    /// still picked up.
    pub fn take(&mut self) -> (taken: MailboxTake<J>)
        ensures
            old(self).taken(*final(self), taken),
    {
        match self.pending.take() {
            Some(job) => MailboxTake::Job(job),
            None => if self.closed {
                MailboxTake::Closed
            } else {
                MailboxTake::Empty
            },
        }
    }
}

// The control lane.

/// The requests to carry out, in order. A scan that is followed at once by
/// another is left out; nothing else is.
pub open spec fn coalesced(reqs: Seq<SessionReq>) -> Seq<SessionReq>
    decreases reqs.len(),
{
    if reqs.len() <= 1 {
        reqs
    } else {
        let before = coalesced(reqs.drop_last());
        let last = reqs.last();
        if reqs[reqs.len() - 2] is Refresh && last is Refresh {
            before.drop_last().push(last)
        } else {
            before.push(last)
        }
    }
}

proof fn lemma_coalesced_ends_alike(reqs: Seq<SessionReq>)
    requires
        reqs.len() > 0,
    ensures
        coalesced(reqs).len() > 0,
        coalesced(reqs).last() == reqs.last(),
    decreases reqs.len(),
{
    if reqs.len() > 1 {
        lemma_coalesced_ends_alike(reqs.drop_last());
    }
}

fn is_refresh(req: &SessionReq) -> (result: bool)
    ensures
        result == (*req is Refresh),
{
    match req {
        SessionReq::Refresh { .. } => true,
        _ => false,
    }
}

/// Looks through the requests of the control lane that have come.
pub fn drain_session_reqs(first: SessionReq, queued: Vec<SessionReq>) -> (drained: Vec<SessionReq>)
    ensures
        drained@ == coalesced(seq![first] + queued@),
{
    let ghost all = seq![first] + queued@;
    let ghost start = queued@;
    let mut drained: Vec<SessionReq> = Vec::new();
    let mut req = first;
    let mut rest = queued;
    let ghost mut seen: int = 0;
    assert(start.skip(0) =~= start);
    assert(all.take(1) =~= seq![first]);
    assert(drained@.push(req) =~= coalesced(all.take(1)));
    while rest.len() > 0
        invariant
            0 <= seen <= start.len(),
            all == seq![first] + start,
            rest@ == start.skip(seen),
            drained@.push(req) == coalesced(all.take(seen + 1)),
            req == all[seen],
        decreases rest@.len(),
    {
        proof {
            lemma_skip_one(start, seen);
            assert(rest@.remove(0) =~= rest@.drop_first());
            assert(all.take(seen + 2).drop_last() =~= all.take(seen + 1));
            assert(all.take(seen + 2).last() == start[seen]);
            assert(all.take(seen + 2)[seen] == all[seen]);
            assert(drained@.push(req).drop_last() =~= drained@);
            seen = seen + 1;
        }
        let next = rest.remove(0);
        if is_refresh(&req) && is_refresh(&next) {
            req = next;
        } else {
            drained.push(req);
            req = next;
        }
    }
    assert(all.take(seen + 1) =~= all);
    drained.push(req);
    drained
}

/// The requests that are not scans.
pub open spec fn no_scans(reqs: Seq<SessionReq>) -> Seq<SessionReq>
    decreases reqs.len(),
{
    if reqs.len() == 0 {
        reqs
    } else {
        let rest = no_scans(reqs.drop_last());
        if reqs.last() is Refresh {
            rest
        } else {
            rest.push(reqs.last())
        }
    }
}

/// Every deletion is carried out, in order: only scans are ever left out.
pub proof fn deletions_are_never_coalesced(reqs: Seq<SessionReq>)
    ensures
        no_scans(coalesced(reqs)) == no_scans(reqs),
    decreases reqs.len(),
{
    if reqs.len() > 1 {
        let before = coalesced(reqs.drop_last());
        deletions_are_never_coalesced(reqs.drop_last());
        lemma_coalesced_ends_alike(reqs.drop_last());
        if reqs[reqs.len() - 2] is Refresh && reqs.last() is Refresh {
            assert(before.drop_last().push(reqs.last()).drop_last() =~= before.drop_last());
            assert(before.last() is Refresh);
        } else {
            assert(before.push(reqs.last()).drop_last() =~= before);
        }
    }
}

/// What became of a deletion.
pub fn deletion_result(deleted: Result<bool, String>) -> (result: Result<(), String>)
    ensures
        match deleted {
            Ok(true) => result is Ok,
            Ok(false) => result matches Err(error) && error@ == "Session was not deleted"@,
            Err(error) => result == Err::<(), String>(error),
        },
{
    match deleted {
        Ok(deleted) => if deleted {
            Ok(())
        } else {
            Err("Session was not deleted".to_owned())
        },
        Err(error) => Err(error),
    }
}

/// Manifests that have to be made anew without a deleted session.
#[derive(Debug)]
pub struct PurgeJob {
    pub request_id: u64,
    pub key: String,
}

/// What is reported of a deletion, and what is to be done after it.
pub open spec fn delete_acknowledged(
    link: Link,
    sent: Seq<SessionMsg>,
    request_id: u64,
    key: String,
    result: Result<(), String>,
    sent_after: Seq<SessionMsg>,
    job: Result<Option<PurgeJob>, ()>,
) -> bool {
    if link != Link::Open {
        job is Err && sent_after == sent
    } else {
        &&& sent_after.len() == sent.len() + 1
        &&& sent_after.drop_last() == sent
        &&& sent_after.last() == (SessionMsg::DeleteFinished { request_id, key, result })
        &&& match job {
            Ok(Some(purge)) => result is Ok && purge.request_id == request_id && purge.key@
                == key@,
            Ok(None) => result is Err,
            Err(()) => false,
        }
    }
}

/// Reports a deletion. Only then may manifests be made anew without the session:
/// the result is that job, where the session is gone. It is an error that
/// nobody takes reports any more.
pub fn acknowledge_delete(
    reports: &mut Outbox<SessionMsg>,
    request_id: u64,
    key: String,
    result: Result<(), String>,
) -> (job: Result<Option<PurgeJob>, ()>)
    ensures
        final(reports).link == old(reports).link,
        delete_acknowledged(
            old(reports).link,
            old(reports).sent@,
            request_id,
            key,
            result,
            final(reports).sent@,
            job,
        ),
{
    let gone = result.is_ok();
    let purge_key = key.duplicate();
    if !reports.send(SessionMsg::DeleteFinished { request_id, key, result }) {
        return Err(());
    }
    assert(reports.sent@.drop_last() =~= old(reports).sent@);
    if gone {
        Ok(Some(PurgeJob { request_id, key: purge_key }))
    } else {
        Ok(None)
    }
}

/// What is reported where manifests cannot be made anew.
pub open spec fn purge_reported(
    link: Link,
    sent: Seq<SessionMsg>,
    job: PurgeJob,
    sent_after: Seq<SessionMsg>,
    result: Result<(), ()>,
) -> bool {
    &&& result is Ok == (link == Link::Open)
    &&& if result is Ok {
        &&& sent_after.len() == sent.len() + 1
        &&& sent_after.drop_last() == sent
        &&& sent_after.last() matches SessionMsg::ManifestsPurged { request_id, key, base }
        &&& request_id == job.request_id
        &&& key == job.key
        &&& base@.len() == 0
    } else {
        sent_after == sent
    }
}

/// Manifests cannot be made anew: that is reported as no manifest at all, so
/// that the session stays hidden and a scan is called for.
pub fn purge_not_launched(reports: &mut Outbox<SessionMsg>, job: PurgeJob) -> (result: Result<
    (),
    (),
>)
    ensures
        final(reports).link == old(reports).link,
        purge_reported(old(reports).link, old(reports).sent@, job, final(reports).sent@, result),
{
    if reports.send(
        SessionMsg::ManifestsPurged {
            request_id: job.request_id,
            key: job.key,
            base: Vec::new(),
        },
    ) {
        assert(reports.sent@.drop_last() =~= old(reports).sent@);
        Ok(())
    } else {
        Err(())
    }
}

} // verus!
