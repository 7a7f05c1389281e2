//! The workers that compute usage figures and read the usage log. Each runs one
//! query at a time; a newer request cancels the one that runs.

use vstd::prelude::*;

use crate::app_type::AppType;
use crate::base::lemma_skip_one;
use crate::messages::{
    UsageLogLoadError, UsagePricingLoadError, UsagePricingMsg, UsagePricingReq,
};
use crate::usage::{
    UsageLogCursor, UsageLogPage, UsageLogPageDirection, UsageLogRow, UsagePricingData,
    UsageRangePreset, USAGE_LOG_PAGE_SIZE,
};

verus! {

// Where requests go.

/// The workers that a request goes to.
#[derive(Debug, Clone, Copy, PartialEq, Eq, Structural)]
pub struct UsageRoute {
    pub log: bool,
    pub aggregate: bool,
}

/// The log and the figures have workers of their own, so that a long computation
/// never keeps a page of the log waiting. A barrier goes to both.
pub fn route_usage_req(req: &UsagePricingReq) -> (route: UsageRoute)
    ensures
        route.log,
        route.aggregate == (req is Load || req is DropState),
{
    match req {
        UsagePricingReq::Load { .. } | UsagePricingReq::DropState => UsageRoute {
            log: true,
            aggregate: true,
        },
        UsagePricingReq::LoadLogPage { .. } | UsagePricingReq::LoadLogDetail { .. } => UsageRoute {
            log: true,
            aggregate: false,
        },
    }
}

pub open spec fn number_of(req: UsagePricingReq) -> Option<u64> {
    match req {
        UsagePricingReq::Load { request_id, .. } => Some(request_id),
        UsagePricingReq::LoadLogPage { request_id, .. } => Some(request_id),
        UsagePricingReq::LoadLogDetail { request_id, .. } => Some(request_id),
        UsagePricingReq::DropState => None,
    }
}

pub fn usage_pricing_req_request_id(req: &UsagePricingReq) -> (number: Option<u64>)
    ensures
        number == number_of(*req),
{
    match req {
        UsagePricingReq::Load { request_id, .. } => Some(*request_id),
        UsagePricingReq::LoadLogPage { request_id, .. } => Some(*request_id),
        UsagePricingReq::LoadLogDetail { request_id, .. } => Some(*request_id),
        UsagePricingReq::DropState => None,
    }
}

pub open spec fn concerns(req: UsagePricingReq, app_type: AppType) -> bool {
    match req {
        UsagePricingReq::Load { app_type: asked, .. } => asked == app_type,
        UsagePricingReq::LoadLogPage { app_type: asked, .. } => asked == app_type,
        UsagePricingReq::LoadLogDetail { app_type: asked, .. } => asked == app_type,
        UsagePricingReq::DropState => false,
    }
}

pub fn usage_pricing_req_matches_app(req: &UsagePricingReq, app_type: &AppType) -> (result: bool)
    ensures
        result == concerns(*req, *app_type),
{
    match req {
        UsagePricingReq::Load { app_type: asked, .. } => *asked == *app_type,
        UsagePricingReq::LoadLogPage { app_type: asked, .. } => *asked == *app_type,
        UsagePricingReq::LoadLogDetail { app_type: asked, .. } => *asked == *app_type,
        UsagePricingReq::DropState => false,
    }
}

// Figures.

/// What the worker that computes figures does. `H` interrupts a query, `C` is
/// the token by which a query learns that it is cancelled, and `A` answers a
/// barrier.
#[derive(Debug)]
pub struct UsagePricingAggregateState<H, C, A> {
    pub running: bool,
    pub running_request_id: Option<u64>,
    pub running_interrupt: Option<H>,
    pub running_cancel: Option<C>,
    pub cancel_requested: bool,
    pub pending: Vec<UsagePricingReq>,
    pub drop_acks: Vec<A>,
}

/// What follows from the end of a query.
#[derive(Debug)]
pub struct UsageCompletion<A> {
    pub next: Option<UsagePricingReq>,
    /// Barriers to answer.
    pub drop_acks: Vec<A>,
}

/// What follows from a request.
#[derive(Debug, Clone, Copy, PartialEq, Eq, Structural)]
pub struct AggregateStep {
    /// The query to start.
    pub launch: Option<UsagePricingReq>,
    /// Whether the query that runs has to be told to stop.
    pub cancel: bool,
}

/// What follows from a barrier.
#[derive(Debug)]
pub struct BarrierStep<A> {
    /// The barrier, where it can be answered at once.
    pub answer: Option<A>,
    /// A request that is not carried out any more.
    pub superseded: Option<UsagePricingReq>,
    /// Whether the query that runs has to be told to stop.
    pub cancel: bool,
}

/// The requests that do not concern an application.
pub open spec fn of_other_apps(list: Seq<UsagePricingReq>, app_type: AppType) -> Seq<
    UsagePricingReq,
>
    decreases list.len(),
{
    if list.len() == 0 {
        list
    } else {
        let rest = of_other_apps(list.drop_last(), app_type);
        if concerns(list.last(), app_type) {
            rest
        } else {
            rest.push(list.last())
        }
    }
}

/// Whether a request is newer than the query that runs.
pub open spec fn is_newer(req: UsagePricingReq, running: Option<u64>) -> bool {
    match (number_of(req), running) {
        (Some(number), Some(running)) => number > running,
        (Some(_), None) => true,
        _ => false,
    }
}

fn remove_of_app(list: &Vec<UsagePricingReq>, app_type: &AppType) -> (rest: Vec<UsagePricingReq>)
    ensures
        rest@ == of_other_apps(list@, *app_type),
{
    let mut rest: Vec<UsagePricingReq> = Vec::new();
    let mut i: usize = 0;
    assert(list@.take(0) =~= Seq::<UsagePricingReq>::empty());
    assert(rest@ =~= list@.take(0));
    while i < list.len()
        invariant
            i <= list@.len(),
            rest@ == of_other_apps(list@.take(i as int), *app_type),
        decreases list@.len() - i,
    {
        proof {
            lemma_skip_one(list@, i as int);
        }
        if !usage_pricing_req_matches_app(&list[i], app_type) {
            rest.push(list[i]);
        }
        i = i + 1;
    }
    assert(list@.take(i as int) =~= list@);
    rest
}

impl<H, C, A> UsagePricingAggregateState<H, C, A> {
    /// Where nothing runs, nothing waits.
    pub open spec fn wf(self) -> bool {
        !self.running ==> {
            &&& self.running_request_id is None
            &&& self.running_interrupt is None
            &&& self.running_cancel is None
            &&& !self.cancel_requested
            &&& self.pending@.len() == 0
            &&& self.drop_acks@.len() == 0
        }
    }

    pub fn new() -> (state: Self)
        ensures
            state.wf(),
            !state.running,
    {
        UsagePricingAggregateState {
            running: false,
            running_request_id: None,
            running_interrupt: None,
            running_cancel: None,
            cancel_requested: false,
            pending: Vec::new(),
            drop_acks: Vec::new(),
        }
    }

    /// Whether a request that waits is newer than the query that runs.
    pub open spec fn has_newer(self) -> bool {
        match self.running_request_id {
            None => self.pending@.len() > 0,
            Some(running) => exists|i: int|
                0 <= i < self.pending@.len() && is_newer(
                    #[trigger] self.pending@[i],
                    Some(running),
                ),
        }
    }

    /// What a request that comes in leads to.
    pub open spec fn enqueued(self, req: UsagePricingReq, after: Self, step: AggregateStep) -> bool {
        &&& after.wf()
        &&& after.running
        &&& after.drop_acks == self.drop_acks
        &&& after.running_interrupt == self.running_interrupt
        &&& after.running_cancel == self.running_cancel
        &&& if !self.running {
            &&& step == (AggregateStep { launch: Some(req), cancel: false })
            &&& after.running_request_id == number_of(req)
            &&& !after.cancel_requested
            &&& after.pending@ == self.pending@
        } else {
            let newer = is_newer(req, self.running_request_id);
            &&& step == (AggregateStep { launch: None, cancel: newer })
            &&& after.running_request_id == self.running_request_id
            &&& after.cancel_requested == (self.cancel_requested || newer)
            &&& after.pending@ == (match req {
                UsagePricingReq::Load { app_type, .. } => of_other_apps(
                    self.pending@,
                    app_type,
                ),
                _ => self.pending@,
            }).push(req)
        }
    }

    /// Takes a request. Where nothing runs it is started; otherwise it waits in
    /// place of those for the same application.
    pub fn enqueue(&mut self, req: UsagePricingReq) -> (step: AggregateStep)
        requires
            old(self).wf(),
        ensures
            old(self).enqueued(req, *final(self), step),
    {
        if !self.running {
            self.running = true;
            self.running_request_id = usage_pricing_req_request_id(&req);
            self.cancel_requested = false;
            return AggregateStep { launch: Some(req), cancel: false };
        }
        let newer = match (usage_pricing_req_request_id(&req), self.running_request_id) {
            (Some(number), Some(running)) => number > running,
            (Some(_), None) => true,
            _ => false,
        };
        if newer {
            self.cancel_requested = true;
        }
        if let UsagePricingReq::Load { app_type, .. } = &req {
            self.pending = remove_of_app(&self.pending, app_type);
        }
        self.pending.push(req);
        AggregateStep { launch: None, cancel: newer }
    }

    fn has_pending_newer_than_running(&self) -> (result: bool)
        ensures
            result == self.has_newer(),
    {
        let running = match self.running_request_id {
            Some(running) => running,
            None => {
                return self.pending.len() > 0;
            },
        };
        let mut i: usize = 0;
        while i < self.pending.len()
            invariant
                i <= self.pending@.len(),
                self.running_request_id == Some(running),
                forall|j: int|
                    0 <= j < i ==> !is_newer(#[trigger] self.pending@[j], Some(running)),
            decreases self.pending@.len() - i,
        {
            if let Some(number) = usage_pricing_req_request_id(&self.pending[i]) {
                if number > running {
                    assert(is_newer(self.pending@[i as int], Some(running)));
                    return true;
                }
            }
            i = i + 1;
        }
        false
    }

    /// Takes the handle that interrupts the query that runs. The result tells
    /// whether to interrupt it at once.
    pub fn set_running_interrupt_handle(&mut self, handle: H) -> (interrupt: bool)
        requires
            old(self).wf(),
        ensures
            final(self).wf(),
            interrupt == (old(self).running && (old(self).cancel_requested || old(
                self,
            ).has_newer())),
            *final(self) == (if old(self).running {
                UsagePricingAggregateState { running_interrupt: Some(handle), ..*old(self) }
            } else {
                *old(self)
            }),
    {
        if !self.running {
            return false;
        }
        let interrupt = self.cancel_requested || self.has_pending_newer_than_running();
        self.running_interrupt = Some(handle);
        interrupt
    }

    /// Takes the token by which the query that runs learns that it is cancelled.
    /// The result tells whether it is cancelled from the start: also where
    /// nothing runs any more.
    pub fn set_running_cancel_token(&mut self, token: C) -> (cancel: bool)
        requires
            old(self).wf(),
        ensures
            final(self).wf(),
            cancel == (!old(self).running || old(self).cancel_requested || old(self).has_newer()),
            *final(self) == (if old(self).running {
                UsagePricingAggregateState { running_cancel: Some(token), ..*old(self) }
            } else {
                *old(self)
            }),
    {
        if !self.running {
            return true;
        }
        let cancel = self.cancel_requested || self.has_pending_newer_than_running();
        self.running_cancel = Some(token);
        cancel
    }

    /// What the end of the work that is done leads to.
    pub open spec fn completed(self, after: Self, completion: UsageCompletion<A>) -> bool {
        &&& after.wf()
        &&& completion.drop_acks@ == self.drop_acks@
        &&& after.drop_acks@.len() == 0
        &&& after.running_interrupt is None
        &&& after.running_cancel is None
        &&& !after.cancel_requested
        &&& if self.pending@.len() > 0 {
            &&& completion.next == Some(self.pending@.last())
            &&& after.pending@ == self.pending@.drop_last()
            &&& after.running == self.running
            &&& after.running_request_id == number_of(self.pending@.last())
        } else {
            &&& completion.next is None
            &&& !after.running
        }
    }

    /// The query that ran is over: barriers are answered, and the request that
    /// came last is next.
    pub fn complete(&mut self) -> (completion: UsageCompletion<A>)
        requires
            old(self).wf(),
        ensures
            old(self).completed(*final(self), completion),
    {
        self.running_interrupt = None;
        self.running_cancel = None;
        let mut drop_acks: Vec<A> = Vec::new();
        drop_acks.append(&mut self.drop_acks);
        assert(drop_acks@ =~= old(self).drop_acks@);
        self.cancel_requested = false;
        match self.pending.pop() {
            Some(next) => {
                self.running_request_id = usage_pricing_req_request_id(&next);
                UsageCompletion { next: Some(next), drop_acks }
            },
            None => {
                self.running = false;
                self.running_request_id = None;
                UsageCompletion { next: None, drop_acks }
            },
        }
    }

    pub fn is_idle(&self) -> (result: bool)
        ensures
            result == (!self.running && self.pending@.len() == 0),
    {
        !self.running && self.pending.len() == 0
    }

    /// What calling off all that waits leads to.
    pub open spec fn cleared(self, ack: A, after: Self, step: BarrierStep<A>) -> bool {
        &&& after.wf()
        &&& after.pending@.len() == 0
        &&& after.running == self.running
        &&& after.running_request_id == self.running_request_id
        &&& after.running_interrupt == self.running_interrupt
        &&& after.running_cancel == self.running_cancel
        &&& step.superseded is None
        &&& step.cancel == self.running
        &&& if self.running {
            &&& step.answer is None
            &&& after.cancel_requested
            &&& after.drop_acks@ == self.drop_acks@.push(ack)
        } else {
            &&& step.answer == Some(ack)
            &&& after.cancel_requested == self.cancel_requested
            &&& after.drop_acks@ == self.drop_acks@
        }
    }

    /// A barrier: nothing that waits is carried out any more. It is answered
    /// once nothing runs.
    pub fn clear_pending_and_ack_when_idle(&mut self, ack: A) -> (step: BarrierStep<A>)
        requires
            old(self).wf(),
        ensures
            old(self).cleared(ack, *final(self), step),
    {
        self.pending.clear();
        if self.is_idle() {
            BarrierStep { answer: Some(ack), superseded: None, cancel: false }
        } else {
            self.cancel_requested = true;
            self.drop_acks.push(ack);
            BarrierStep { answer: None, superseded: None, cancel: true }
        }
    }
}

proof fn lemma_of_other_apps(list: Seq<UsagePricingReq>, app_type: AppType)
    ensures
        forall|i: int|
            0 <= i < of_other_apps(list, app_type).len() ==> !concerns(
                #[trigger] of_other_apps(list, app_type)[i],
                app_type,
            ),
        forall|i: int|
            0 <= i < of_other_apps(list, app_type).len() ==> list.contains(
                #[trigger] of_other_apps(list, app_type)[i],
            ),
    decreases list.len(),
{
    if list.len() > 0 {
        lemma_of_other_apps(list.drop_last(), app_type);
        let shorter = list.drop_last();
        let rest = of_other_apps(shorter, app_type);
        let whole = of_other_apps(list, app_type);
        assert forall|i: int| 0 <= i < whole.len() implies !concerns(
            #[trigger] whole[i],
            app_type,
        ) && list.contains(whole[i]) by {
            if i < rest.len() {
                assert(whole[i] == rest[i]);
                let k = choose|k: int| 0 <= k < shorter.len() && shorter[k] == rest[i];
                assert(list[k] == whole[i]);
            } else {
                assert(whole[i] == list[list.len() - 1]);
            }
        }
    }
}

/// Of each application at most one load of figures waits, and it is the last
/// one that was asked for.
pub proof fn last_load_of_an_app_waits(pending: Seq<UsagePricingReq>, req: UsagePricingReq)
    requires
        req is Load,
    ensures
        ({
            let app_type = req->Load_app_type;
            let after = of_other_apps(pending, app_type).push(req);
            &&& after.last() == req
            &&& forall|i: int|
                0 <= i < after.len() - 1 ==> !concerns(#[trigger] after[i], app_type)
        }),
{
    lemma_of_other_apps(pending, req->Load_app_type);
    let app_type = req->Load_app_type;
    let rest = of_other_apps(pending, app_type);
    let after = rest.push(req);
    assert forall|i: int| 0 <= i < after.len() - 1 implies !concerns(
        #[trigger] after[i],
        app_type,
    ) by {
        assert(after[i] == rest[i]);
    }
}

// The log.

/// Tells a request of the log apart.
#[derive(Debug, Clone, Copy, PartialEq, Eq, Structural)]
pub struct UsageLogRequestToken {
    pub request_id: u64,
    pub generation: u64,
    pub app_state_epoch: u64,
}

pub open spec fn token_of(req: UsagePricingReq) -> Option<UsageLogRequestToken> {
    match req {
        UsagePricingReq::Load { request_id, generation, app_state_epoch, .. } => Some(
            UsageLogRequestToken { request_id, generation, app_state_epoch },
        ),
        UsagePricingReq::LoadLogPage { request_id, generation, app_state_epoch, .. } => Some(
            UsageLogRequestToken { request_id, generation, app_state_epoch },
        ),
        UsagePricingReq::LoadLogDetail { request_id, generation, app_state_epoch, .. } => Some(
            UsageLogRequestToken { request_id, generation, app_state_epoch },
        ),
        UsagePricingReq::DropState => None,
    }
}

pub fn usage_log_request_token(req: &UsagePricingReq) -> (token: Option<UsageLogRequestToken>)
    ensures
        token == token_of(*req),
{
    match req {
        UsagePricingReq::Load { request_id, generation, app_state_epoch, .. } => Some(
            UsageLogRequestToken {
                request_id: *request_id,
                generation: *generation,
                app_state_epoch: *app_state_epoch,
            },
        ),
        UsagePricingReq::LoadLogPage { request_id, generation, app_state_epoch, .. } => Some(
            UsageLogRequestToken {
                request_id: *request_id,
                generation: *generation,
                app_state_epoch: *app_state_epoch,
            },
        ),
        UsagePricingReq::LoadLogDetail { request_id, generation, app_state_epoch, .. } => Some(
            UsageLogRequestToken {
                request_id: *request_id,
                generation: *generation,
                app_state_epoch: *app_state_epoch,
            },
        ),
        UsagePricingReq::DropState => None,
    }
}

/// What the worker that reads the log does.
#[derive(Debug)]
pub struct UsageLogQueryState<H, C, A> {
    pub running: bool,
    pub running_token: Option<UsageLogRequestToken>,
    pub cancel_requested: bool,
    pub running_interrupt: Option<H>,
    pub running_cancel: Option<C>,
    pub pending: Option<UsagePricingReq>,
    pub drop_acks: Vec<A>,
}

/// What follows from a request of the log.
#[derive(Debug, Clone, Copy, PartialEq, Eq, Structural)]
pub struct LogStep {
    /// The query to start.
    pub launch: Option<UsagePricingReq>,
    /// A request that is not carried out any more.
    pub superseded: Option<UsagePricingReq>,
    /// Whether the query that runs has to be told to stop.
    pub cancel: bool,
}

/// What follows from the registration of a query.
#[derive(Debug, Clone, Copy, PartialEq, Eq, Structural)]
pub struct Registration {
    /// Whether the query is still the one that runs.
    pub accepted: bool,
    /// Whether it has to be told to stop.
    pub cancel: bool,
}

impl<H, C, A> UsageLogQueryState<H, C, A> {
    /// A query that runs is known; where none does, nothing waits.
    pub open spec fn wf(self) -> bool {
        &&& self.running == (self.running_token is Some)
        &&& self.pending matches Some(req) ==> token_of(req) is Some
        &&& !self.running ==> {
            &&& !self.cancel_requested
            &&& self.running_interrupt is None
            &&& self.running_cancel is None
            &&& self.pending is None
            &&& self.drop_acks@.len() == 0
        }
    }

    pub fn new() -> (state: Self)
        ensures
            state.wf(),
            !state.running,
    {
        UsageLogQueryState {
            running: false,
            running_token: None,
            cancel_requested: false,
            running_interrupt: None,
            running_cancel: None,
            pending: None,
            drop_acks: Vec::new(),
        }
    }

    /// What a request that comes in leads to.
    pub open spec fn enqueued(self, req: UsagePricingReq, after: Self, step: LogStep) -> bool {
        &&& after.wf()
        &&& after.running
        &&& after.drop_acks == self.drop_acks
        &&& after.running_interrupt == self.running_interrupt
        &&& after.running_cancel == self.running_cancel
        &&& if !self.running {
            &&& step == (LogStep { launch: Some(req), superseded: None, cancel: false })
            &&& after.running_token == token_of(req)
            &&& !after.cancel_requested
            &&& after.pending is None
        } else {
            &&& step == (LogStep { launch: None, superseded: self.pending, cancel: true })
            &&& after.running_token == self.running_token
            &&& after.cancel_requested
            &&& after.pending == Some(req)
        }
    }

    /// Takes a request. Where nothing runs it is started; otherwise what runs is
    /// cancelled, and the request waits in place of the one that did.
    pub fn enqueue(&mut self, req: UsagePricingReq) -> (step: LogStep)
        requires
            old(self).wf(),
            token_of(req) is Some,
        ensures
            old(self).enqueued(req, *final(self), step),
    {
        if !self.running {
            self.running = true;
            self.running_token = usage_log_request_token(&req);
            self.cancel_requested = false;
            return LogStep { launch: Some(req), superseded: None, cancel: false };
        }
        self.cancel_requested = true;
        let superseded = self.pending.take();
        self.pending = Some(req);
        LogStep { launch: None, superseded, cancel: true }
    }

    fn runs(&self, token: UsageLogRequestToken) -> (result: bool)
        ensures
            result == (self.running_token == Some(token)),
    {
        match self.running_token {
            Some(running) => running == token,
            None => false,
        }
    }

    /// Takes the token by which a query learns that it is cancelled. One that
    /// does not run any more is cancelled from the start.
    pub fn set_running_cancel_token(
        &mut self,
        request_token: UsageLogRequestToken,
        cancel_token: C,
    ) -> (registration: Registration)
        requires
            old(self).wf(),
        ensures
            final(self).wf(),
            registration.accepted == (old(self).running_token == Some(request_token)),
            registration.cancel == (!registration.accepted || old(self).cancel_requested),
            *final(self) == (if registration.accepted {
                UsageLogQueryState { running_cancel: Some(cancel_token), ..*old(self) }
            } else {
                *old(self)
            }),
    {
        if !self.runs(request_token) {
            return Registration { accepted: false, cancel: true };
        }
        self.running_cancel = Some(cancel_token);
        Registration { accepted: true, cancel: self.cancel_requested }
    }

    /// Takes the handle that interrupts a query. One that was cancelled before
    /// is interrupted at once.
    pub fn set_running_interrupt_handle(
        &mut self,
        request_token: UsageLogRequestToken,
        handle: H,
    ) -> (registration: Registration)
        requires
            old(self).wf(),
        ensures
            final(self).wf(),
            registration.accepted == (old(self).running_token == Some(request_token)),
            registration.cancel == (!registration.accepted || old(self).cancel_requested),
            *final(self) == (if registration.accepted {
                UsageLogQueryState { running_interrupt: Some(handle), ..*old(self) }
            } else {
                *old(self)
            }),
    {
        if !self.runs(request_token) {
            return Registration { accepted: false, cancel: true };
        }
        self.running_interrupt = Some(handle);
        Registration { accepted: true, cancel: self.cancel_requested }
    }

    /// What the end of a query leads to.
    pub open spec fn completed(self, request_token: UsageLogRequestToken, after: Self, completion: UsageCompletion<A>) -> bool {
        &&& after.wf()
        &&& if self.running_token != Some(request_token) {
            &&& after == self
            &&& completion.next is None
            &&& completion.drop_acks@.len() == 0
        } else {
            &&& completion.next == self.pending
            &&& completion.drop_acks@ == self.drop_acks@
            &&& after.pending is None
            &&& after.drop_acks@.len() == 0
            &&& !after.cancel_requested
            &&& after.running_interrupt is None
            &&& after.running_cancel is None
            &&& after.running_token == (match self.pending {
                Some(next) => token_of(next),
                None => None,
            })
        }
    }

    /// A query is over: barriers are answered, and the request that waits is
    /// next. The end of a query that does not run any more changes nothing.
    pub fn complete(&mut self, request_token: UsageLogRequestToken) -> (completion: UsageCompletion<
        A,
    >)
        requires
            old(self).wf(),
        ensures
            old(self).completed(request_token, *final(self), completion),
    {
        if !self.runs(request_token) {
            return UsageCompletion { next: None, drop_acks: Vec::new() };
        }
        self.running_interrupt = None;
        self.running_cancel = None;
        self.cancel_requested = false;
        let mut drop_acks: Vec<A> = Vec::new();
        drop_acks.append(&mut self.drop_acks);
        assert(drop_acks@ =~= old(self).drop_acks@);
        match self.pending.take() {
            Some(next) => {
                self.running_token = usage_log_request_token(&next);
                UsageCompletion { next: Some(next), drop_acks }
            },
            None => {
                self.running = false;
                self.running_token = None;
                UsageCompletion { next: None, drop_acks }
            },
        }
    }

    /// What calling off all that waits leads to.
    pub open spec fn cleared(self, ack: A, after: Self, step: BarrierStep<A>) -> bool {
        &&& after.wf()
        &&& step.superseded == self.pending
        &&& step.cancel == self.running
        &&& after.pending is None
        &&& after.running == self.running
        &&& after.running_token == self.running_token
        &&& after.running_interrupt == self.running_interrupt
        &&& after.running_cancel == self.running_cancel
        &&& if self.running {
            &&& step.answer is None
            &&& after.cancel_requested
            &&& after.drop_acks@ == self.drop_acks@.push(ack)
        } else {
            &&& step.answer == Some(ack)
            &&& after.drop_acks@ == self.drop_acks@
        }
    }

    /// A barrier: what waits is not carried out any more, and what runs is
    /// cancelled. It is answered once nothing runs.
    pub fn clear_and_ack_when_idle(&mut self, ack: A) -> (step: BarrierStep<A>)
        requires
            old(self).wf(),
        ensures
            old(self).cleared(ack, *final(self), step),
    {
        let superseded = self.pending.take();
        if self.running {
            self.cancel_requested = true;
            self.drop_acks.push(ack);
            BarrierStep { answer: None, superseded, cancel: true }
        } else {
            BarrierStep { answer: Some(ack), superseded, cancel: false }
        }
    }
}

// Answers.

/// What is answered to a request of the log that was not carried out. A barrier
/// is answered otherwise.
pub open spec fn log_refusal(req: UsagePricingReq, error: UsageLogLoadError) -> Option<
    UsagePricingMsg,
> {
    match req {
        UsagePricingReq::Load { request_id, generation, app_state_epoch, app_type, range } => Some(
            UsagePricingMsg::LogHeadLoaded {
                request_id,
                generation,
                app_state_epoch,
                app_type,
                range,
                result: Err(error),
            },
        ),
        UsagePricingReq::LoadLogPage {
            request_id,
            generation,
            app_state_epoch,
            app_type,
            range,
            page,
            direction,
            ..
        } => Some(
            UsagePricingMsg::LogPageLoaded {
                request_id,
                generation,
                app_state_epoch,
                app_type,
                range,
                page,
                direction,
                result: Err(error),
            },
        ),
        UsagePricingReq::LoadLogDetail {
            request_id,
            generation,
            app_state_epoch,
            app_type,
            range,
            log_rowid,
        } => Some(
            UsagePricingMsg::LogDetailLoaded {
                request_id,
                generation,
                app_state_epoch,
                app_type,
                range,
                log_rowid,
                result: Err(error),
            },
        ),
        UsagePricingReq::DropState => None,
    }
}

pub fn usage_log_req_refused(req: &UsagePricingReq, error: UsageLogLoadError) -> (msg: Option<
    UsagePricingMsg,
>)
    ensures
        msg == log_refusal(*req, error),
{
    match *req {
        UsagePricingReq::Load { request_id, generation, app_state_epoch, app_type, range } => Some(
            UsagePricingMsg::LogHeadLoaded {
                request_id,
                generation,
                app_state_epoch,
                app_type,
                range,
                result: Err(error),
            },
        ),
        UsagePricingReq::LoadLogPage {
            request_id,
            generation,
            app_state_epoch,
            app_type,
            range,
            page,
            direction,
            ..
        } => Some(
            UsagePricingMsg::LogPageLoaded {
                request_id,
                generation,
                app_state_epoch,
                app_type,
                range,
                page,
                direction,
                result: Err(error),
            },
        ),
        UsagePricingReq::LoadLogDetail {
            request_id,
            generation,
            app_state_epoch,
            app_type,
            range,
            log_rowid,
        } => Some(
            UsagePricingMsg::LogDetailLoaded {
                request_id,
                generation,
                app_state_epoch,
                app_type,
                range,
                log_rowid,
                result: Err(error),
            },
        ),
        UsagePricingReq::DropState => None,
    }
}

/// What became of a query of the log. Where it was cancelled meanwhile, its
/// result does not count.
pub fn usage_log_result_after_query<T>(result: Result<T, String>, cancelled: bool) -> (outcome:
    Result<T, UsageLogLoadError>)
    ensures
        outcome == (if cancelled {
            Err::<T, UsageLogLoadError>(UsageLogLoadError::Cancelled)
        } else {
            match result {
                Ok(value) => Ok(value),
                Err(error) => Err(UsageLogLoadError::Failed(error)),
            }
        }),
{
    if cancelled {
        Err(UsageLogLoadError::Cancelled)
    } else {
        match result {
            Ok(value) => Ok(value),
            Err(error) => Err(UsageLogLoadError::Failed(error)),
        }
    }
}

/// What a request of the log reads.
#[derive(Debug, Clone, Copy, PartialEq, Eq, Structural)]
pub enum LogQuery {
    Page {
        app_type: AppType,
        range: UsageRangePreset,
        cursor: Option<UsageLogCursor>,
        direction: UsageLogPageDirection,
        limit: usize,
    },
    Detail { app_type: AppType, range: UsageRangePreset, log_rowid: i64 },
}

/// The query of a request. A load of figures reads the head of the log: the
/// first page from the newest entry on.
pub fn usage_log_query(req: &UsagePricingReq) -> (query: Option<LogQuery>)
    ensures
        query == (match *req {
            UsagePricingReq::Load { app_type, range, .. } => Some(
                LogQuery::Page {
                    app_type,
                    range,
                    cursor: None,
                    direction: UsageLogPageDirection::Older,
                    limit: USAGE_LOG_PAGE_SIZE,
                },
            ),
            UsagePricingReq::LoadLogPage { app_type, range, cursor, direction, limit, .. } => Some(
                LogQuery::Page { app_type, range, cursor: Some(cursor), direction, limit },
            ),
            UsagePricingReq::LoadLogDetail { app_type, range, log_rowid, .. } => Some(
                LogQuery::Detail { app_type, range, log_rowid },
            ),
            UsagePricingReq::DropState => None,
        }),
{
    match *req {
        UsagePricingReq::Load { app_type, range, .. } => Some(
            LogQuery::Page {
                app_type,
                range,
                cursor: None,
                direction: UsageLogPageDirection::Older,
                limit: USAGE_LOG_PAGE_SIZE,
            },
        ),
        UsagePricingReq::LoadLogPage { app_type, range, cursor, direction, limit, .. } => Some(
            LogQuery::Page { app_type, range, cursor: Some(cursor), direction, limit },
        ),
        UsagePricingReq::LoadLogDetail { app_type, range, log_rowid, .. } => Some(
            LogQuery::Detail { app_type, range, log_rowid },
        ),
        UsagePricingReq::DropState => None,
    }
}

/// What the database gave for a request of the log.
#[derive(Debug)]
pub enum LogAnswer {
    /// It could not be asked.
    Unavailable(String),
    Page(Result<UsageLogPage, String>),
    Detail(Result<Option<UsageLogRow>, String>),
}

pub open spec fn after_query<T>(result: Result<T, String>, cancelled: bool) -> Result<
    T,
    UsageLogLoadError,
> {
    if cancelled {
        Err(UsageLogLoadError::Cancelled)
    } else {
        match result {
            Ok(value) => Ok(value),
            Err(error) => Err(UsageLogLoadError::Failed(error)),
        }
    }
}

/// Answers a request of the log. `cancelled` tells whether it was cancelled by
/// the time the database was done.
pub fn answer_usage_log_req(req: &UsagePricingReq, answer: LogAnswer, cancelled: bool) -> (msg:
    Option<UsagePricingMsg>)
    ensures
        match answer {
            LogAnswer::Unavailable(error) => msg == log_refusal(
                *req,
                if cancelled {
                    UsageLogLoadError::Cancelled
                } else {
                    UsageLogLoadError::Failed(error)
                },
            ),
            LogAnswer::Page(result) => msg == (match *req {
                UsagePricingReq::Load {
                    request_id,
                    generation,
                    app_state_epoch,
                    app_type,
                    range,
                } => Some(
                    UsagePricingMsg::LogHeadLoaded {
                        request_id,
                        generation,
                        app_state_epoch,
                        app_type,
                        range,
                        result: after_query(result, cancelled),
                    },
                ),
                UsagePricingReq::LoadLogPage {
                    request_id,
                    generation,
                    app_state_epoch,
                    app_type,
                    range,
                    page,
                    direction,
                    ..
                } => Some(
                    UsagePricingMsg::LogPageLoaded {
                        request_id,
                        generation,
                        app_state_epoch,
                        app_type,
                        range,
                        page,
                        direction,
                        result: after_query(result, cancelled),
                    },
                ),
                _ => None,
            }),
            LogAnswer::Detail(result) => msg == (match *req {
                UsagePricingReq::LoadLogDetail {
                    request_id,
                    generation,
                    app_state_epoch,
                    app_type,
                    range,
                    log_rowid,
                } => Some(
                    UsagePricingMsg::LogDetailLoaded {
                        request_id,
                        generation,
                        app_state_epoch,
                        app_type,
                        range,
                        log_rowid,
                        result: after_query(result, cancelled),
                    },
                ),
                _ => None,
            }),
        },
{
    match answer {
        LogAnswer::Unavailable(error) => {
            let error = if cancelled {
                UsageLogLoadError::Cancelled
            } else {
                UsageLogLoadError::Failed(error)
            };
            usage_log_req_refused(req, error)
        },
        LogAnswer::Page(result) => {
            let result = usage_log_result_after_query(result, cancelled);
            match *req {
                UsagePricingReq::Load {
                    request_id,
                    generation,
                    app_state_epoch,
                    app_type,
                    range,
                } => Some(
                    UsagePricingMsg::LogHeadLoaded {
                        request_id,
                        generation,
                        app_state_epoch,
                        app_type,
                        range,
                        result,
                    },
                ),
                UsagePricingReq::LoadLogPage {
                    request_id,
                    generation,
                    app_state_epoch,
                    app_type,
                    range,
                    page,
                    direction,
                    ..
                } => Some(
                    UsagePricingMsg::LogPageLoaded {
                        request_id,
                        generation,
                        app_state_epoch,
                        app_type,
                        range,
                        page,
                        direction,
                        result,
                    },
                ),
                _ => None,
            }
        },
        LogAnswer::Detail(result) => {
            let result = usage_log_result_after_query(result, cancelled);
            match *req {
                UsagePricingReq::LoadLogDetail {
                    request_id,
                    generation,
                    app_state_epoch,
                    app_type,
                    range,
                    log_rowid,
                } => Some(
                    UsagePricingMsg::LogDetailLoaded {
                        request_id,
                        generation,
                        app_state_epoch,
                        app_type,
                        range,
                        log_rowid,
                        result,
                    },
                ),
                _ => None,
            }
        },
    }
}

/// Answers a load of figures. `cancelled` tells whether it was cancelled by the
/// time the figures were there. Other requests are not answered here.
pub fn answer_usage_pricing_req(
    req: &UsagePricingReq,
    loaded: Result<UsagePricingData, String>,
    cancelled: bool,
) -> (msg: Option<UsagePricingMsg>)
    ensures
        msg == (match *req {
            UsagePricingReq::Load {
                request_id,
                generation,
                app_state_epoch,
                app_type,
                range,
            } => Some(
                UsagePricingMsg::Loaded {
                    request_id,
                    generation,
                    app_state_epoch,
                    app_type,
                    range,
                    result: if cancelled {
                        Err(UsagePricingLoadError::Cancelled)
                    } else {
                        match loaded {
                            Ok(data) => Ok(data),
                            Err(error) => Err(UsagePricingLoadError::Failed(error)),
                        }
                    },
                },
            ),
            _ => None,
        }),
{
    match *req {
        UsagePricingReq::Load { request_id, generation, app_state_epoch, app_type, range } => Some(
            UsagePricingMsg::Loaded {
                request_id,
                generation,
                app_state_epoch,
                app_type,
                range,
                result: if cancelled {
                    Err(UsagePricingLoadError::Cancelled)
                } else {
                    match loaded {
                        Ok(data) => Ok(data),
                        Err(error) => Err(UsagePricingLoadError::Failed(error)),
                    }
                },
            },
        ),
        _ => None,
    }
}

} // verus!
