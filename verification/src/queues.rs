//! Requests that wait for a worker. Of several requests for the same thing only
//! the last is worth carrying out, but none may overtake a barrier.

use vstd::prelude::*;

use crate::app_type::AppType;
use crate::base::lemma_skip_one;
use crate::messages::{AppDataLoadKind, AppDataReq, UsagePricingReq};
use crate::usage::UsageRangePreset;

verus! {

/// Requests that tell what they ask for. One without a key is a barrier.
pub trait Keyed: Sized {
    type Key;

    spec fn spec_key(self) -> Option<Self::Key>;

    fn is_keyed(&self) -> (result: bool)
        ensures
            result == (self.spec_key() is Some),
    ;

    /// Whether two requests ask for the same thing.
    fn same_key(&self, other: &Self) -> (result: bool)
        ensures
            result == (self.spec_key() is Some && self.spec_key() == other.spec_key()),
    ;
}

/// What a request for application data asks for.
#[derive(Debug, Clone, Copy, PartialEq, Eq, Structural)]
pub struct AppDataKey {
    pub app_type: AppType,
    pub kind: AppDataLoadKind,
}

pub open spec fn app_data_key(req: AppDataReq) -> Option<AppDataKey> {
    match req {
        AppDataReq::InitialLoad { app_type, .. } => Some(
            AppDataKey { app_type, kind: AppDataLoadKind::Initial },
        ),
        AppDataReq::Load { app_type, .. } => Some(
            AppDataKey { app_type, kind: AppDataLoadKind::Snapshot },
        ),
        AppDataReq::FullLoad { app_type, .. } => Some(
            AppDataKey { app_type, kind: AppDataLoadKind::Full },
        ),
        AppDataReq::DropState => None,
    }
}

pub fn app_data_req_key(req: &AppDataReq) -> (key: Option<AppDataKey>)
    ensures
        key == app_data_key(*req),
{
    match req {
        AppDataReq::InitialLoad { app_type, .. } => Some(
            AppDataKey { app_type: *app_type, kind: AppDataLoadKind::Initial },
        ),
        AppDataReq::Load { app_type, .. } => Some(
            AppDataKey { app_type: *app_type, kind: AppDataLoadKind::Snapshot },
        ),
        AppDataReq::FullLoad { app_type, .. } => Some(
            AppDataKey { app_type: *app_type, kind: AppDataLoadKind::Full },
        ),
        AppDataReq::DropState => None,
    }
}

impl Keyed for AppDataReq {
    type Key = AppDataKey;

    open spec fn spec_key(self) -> Option<AppDataKey> {
        app_data_key(self)
    }

    fn is_keyed(&self) -> (result: bool) {
        app_data_req_key(self).is_some()
    }

    fn same_key(&self, other: &AppDataReq) -> (result: bool) {
        match (app_data_req_key(self), app_data_req_key(other)) {
            (Some(a), Some(b)) => a == b,
            _ => false,
        }
    }
}

/// What a request for usage figures asks for. All fixed ranges are one, and so
/// are all custom ranges.
#[derive(Debug, Clone, Copy, PartialEq, Eq, Structural)]
pub enum UsagePricingReqRangeKey {
    Fixed,
    Custom,
    LogPage(UsageRangePreset, usize),
    LogDetail(UsageRangePreset, i64),
}

#[derive(Debug, Clone, Copy, PartialEq, Eq, Structural)]
pub struct UsageReqKey {
    pub app_type: AppType,
    pub range: UsagePricingReqRangeKey,
}

pub open spec fn usage_key(req: UsagePricingReq) -> Option<UsageReqKey> {
    match req {
        UsagePricingReq::Load { app_type, range, .. } => Some(
            UsageReqKey {
                app_type,
                range: if range.spec_is_custom() {
                    UsagePricingReqRangeKey::Custom
                } else {
                    UsagePricingReqRangeKey::Fixed
                },
            },
        ),
        UsagePricingReq::LoadLogPage { app_type, range, page, .. } => Some(
            UsageReqKey { app_type, range: UsagePricingReqRangeKey::LogPage(range, page) },
        ),
        UsagePricingReq::LoadLogDetail { app_type, range, log_rowid, .. } => Some(
            UsageReqKey { app_type, range: UsagePricingReqRangeKey::LogDetail(range, log_rowid) },
        ),
        UsagePricingReq::DropState => None,
    }
}

pub fn usage_pricing_req_key(req: &UsagePricingReq) -> (key: Option<UsageReqKey>)
    ensures
        key == usage_key(*req),
{
    match req {
        UsagePricingReq::Load { app_type, range, .. } => Some(
            UsageReqKey {
                app_type: *app_type,
                range: if range.is_custom() {
                    UsagePricingReqRangeKey::Custom
                } else {
                    UsagePricingReqRangeKey::Fixed
                },
            },
        ),
        UsagePricingReq::LoadLogPage { app_type, range, page, .. } => Some(
            UsageReqKey {
                app_type: *app_type,
                range: UsagePricingReqRangeKey::LogPage(*range, *page),
            },
        ),
        UsagePricingReq::LoadLogDetail { app_type, range, log_rowid, .. } => Some(
            UsageReqKey {
                app_type: *app_type,
                range: UsagePricingReqRangeKey::LogDetail(*range, *log_rowid),
            },
        ),
        UsagePricingReq::DropState => None,
    }
}

impl Keyed for UsagePricingReq {
    type Key = UsageReqKey;

    open spec fn spec_key(self) -> Option<UsageReqKey> {
        usage_key(self)
    }

    fn is_keyed(&self) -> (result: bool) {
        usage_pricing_req_key(self).is_some()
    }

    fn same_key(&self, other: &UsagePricingReq) -> (result: bool) {
        match (usage_pricing_req_key(self), usage_pricing_req_key(other)) {
            (Some(a), Some(b)) => a == b,
            _ => false,
        }
    }
}

/// The requests without those that ask for the same as one.
pub open spec fn without_same<T: Keyed>(list: Seq<T>, req: T) -> Seq<T>
    decreases list.len(),
{
    if list.len() == 0 {
        list
    } else {
        let rest = without_same(list.drop_last(), req);
        if list.last().spec_key() == req.spec_key() {
            rest
        } else {
            rest.push(list.last())
        }
    }
}

/// A request takes the place of those that ask for the same.
pub open spec fn superseding<T: Keyed>(list: Seq<T>, req: T) -> Seq<T> {
    without_same(list, req).push(req)
}

/// Requests that wait: those to carry out next, and those that have to wait
/// behind a barrier.
pub struct Waiting<T> {
    pub backlog: Seq<T>,
    pub deferred: Seq<T>,
}

/// Requests that waited already are looked through again.
pub open spec fn resorted<T: Keyed>(deferred: Seq<T>, backlog: Seq<T>) -> Waiting<T>
    decreases backlog.len(),
{
    if backlog.len() == 0 {
        Waiting { backlog, deferred }
    } else {
        let before = resorted(deferred, backlog.drop_last());
        let req = backlog.last();
        if req.spec_key() is Some {
            Waiting { backlog: superseding(before.backlog, req), ..before }
        } else {
            Waiting { deferred: before.deferred.push(req), ..before }
        }
    }
}

/// Further requests have come. Once one waits behind a barrier, all that come
/// later do.
pub open spec fn joined_by<T: Keyed>(waiting: Waiting<T>, received: Seq<T>) -> Waiting<T>
    decreases received.len(),
{
    if received.len() == 0 {
        waiting
    } else {
        let before = joined_by(waiting, received.drop_last());
        let req = received.last();
        if before.deferred.len() == 0 && req.spec_key() is Some {
            Waiting { backlog: superseding(before.backlog, req), ..before }
        } else {
            Waiting { deferred: before.deferred.push(req), ..before }
        }
    }
}

/// Takes away the requests that ask for the same as one.
fn remove_same<T: Keyed>(list: &mut Vec<T>, req: &T)
    requires
        req.spec_key() is Some,
    ensures
        final(list)@ == without_same(old(list)@, *req),
{
    let mut rest: Vec<T> = Vec::new();
    rest.append(list);
    let ghost all = rest@;
    assert(all =~= old(list)@);
    assert(list@ =~= Seq::<T>::empty());
    let ghost mut seen: int = 0;
    assert(all.skip(0) =~= all);
    assert(all.take(0) =~= Seq::<T>::empty());
    while rest.len() > 0
        invariant
            req.spec_key() is Some,
            0 <= seen <= all.len(),
            rest@ == all.skip(seen),
            list@ == without_same(all.take(seen), *req),
        decreases rest@.len(),
    {
        proof {
            lemma_skip_one(all, seen);
            assert(rest@.remove(0) =~= rest@.drop_first());
            seen = seen + 1;
        }
        let next = rest.remove(0);
        if !req.same_key(&next) {
            list.push(next);
        }
    }
    assert(all.take(seen) =~= all);
}

/// Looks through the requests that wait and those that have come, so that of
/// each kind only the last is left and none overtakes a barrier.
pub fn drain_latest_by_key<T: Keyed>(
    backlog: &mut Vec<T>,
    deferred: &mut Vec<T>,
    received: Vec<T>,
)
    ensures
        ({
            let waiting = joined_by(resorted(old(deferred)@, old(backlog)@), received@);
            &&& final(backlog)@ == waiting.backlog
            &&& final(deferred)@ == waiting.deferred
        }),
{
    let mut rest: Vec<T> = Vec::new();
    rest.append(backlog);
    let ghost all = rest@;
    assert(all =~= old(backlog)@);
    let mut latest: Vec<T> = Vec::new();
    let ghost mut seen: int = 0;
    assert(all.skip(0) =~= all);
    assert(all.take(0) =~= Seq::<T>::empty());
    assert(latest@ =~= all.take(0));
    while rest.len() > 0
        invariant
            0 <= seen <= all.len(),
            rest@ == all.skip(seen),
            (Waiting { backlog: latest@, deferred: deferred@ }) == resorted(
                old(deferred)@,
                all.take(seen),
            ),
        decreases rest@.len(),
    {
        proof {
            lemma_skip_one(all, seen);
            assert(rest@.remove(0) =~= rest@.drop_first());
            seen = seen + 1;
        }
        let req = rest.remove(0);
        if req.is_keyed() {
            remove_same(&mut latest, &req);
            latest.push(req);
        } else {
            deferred.push(req);
        }
    }
    assert(all.take(seen) =~= all);
    let ghost waiting = resorted(old(deferred)@, old(backlog)@);
    let ghost news = received@;
    let mut rest = received;
    proof {
        seen = 0;
    }
    assert(news.skip(0) =~= news);
    assert(news.take(0) =~= Seq::<T>::empty());
    while rest.len() > 0
        invariant
            0 <= seen <= news.len(),
            rest@ == news.skip(seen),
            (Waiting { backlog: latest@, deferred: deferred@ }) == joined_by(
                waiting,
                news.take(seen),
            ),
        decreases rest@.len(),
    {
        proof {
            lemma_skip_one(news, seen);
            assert(rest@.remove(0) =~= rest@.drop_first());
            seen = seen + 1;
        }
        let req = rest.remove(0);
        if deferred.len() == 0 && req.is_keyed() {
            remove_same(&mut latest, &req);
            latest.push(req);
        } else {
            deferred.push(req);
        }
    }
    assert(news.take(seen) =~= news);
    backlog.append(&mut latest);
    assert(backlog@ =~= joined_by(waiting, news).backlog);
}

/// No two requests ask for the same.
pub open spec fn distinct_keys<T: Keyed>(list: Seq<T>) -> bool {
    &&& forall|i: int| 0 <= i < list.len() ==> (#[trigger] list[i]).spec_key() is Some
    &&& forall|i: int, j: int|
        0 <= i < j < list.len() ==> (#[trigger] list[i]).spec_key() != (
        #[trigger] list[j]).spec_key()
}

proof fn lemma_without_same<T: Keyed>(list: Seq<T>, req: T)
    requires
        distinct_keys(list),
    ensures
        distinct_keys(without_same(list, req)),
        forall|i: int|
            0 <= i < without_same(list, req).len() ==> (#[trigger] without_same(
                list,
                req,
            )[i]).spec_key() != req.spec_key(),
        forall|i: int|
            0 <= i < without_same(list, req).len() ==> list.contains(
                #[trigger] without_same(list, req)[i],
            ),
    decreases list.len(),
{
    if list.len() > 0 {
        let shorter = list.drop_last();
        assert(distinct_keys(shorter)) by {
            assert forall|i: int| 0 <= i < shorter.len() implies (
            #[trigger] shorter[i]).spec_key() is Some by {
                assert(shorter[i] == list[i]);
            }
            assert forall|i: int, j: int| 0 <= i < j < shorter.len() implies (
            #[trigger] shorter[i]).spec_key() != (#[trigger] shorter[j]).spec_key() by {
                assert(shorter[i] == list[i] && shorter[j] == list[j]);
            }
        }
        lemma_without_same(shorter, req);
        let rest = without_same(shorter, req);
        let whole = without_same(list, req);
        assert forall|i: int| 0 <= i < whole.len() implies {
            &&& (#[trigger] whole[i]).spec_key() != req.spec_key()
            &&& whole[i].spec_key() is Some
            &&& list.contains(whole[i])
        } by {
            if i < rest.len() {
                assert(whole[i] == rest[i]);
                let k = choose|k: int| 0 <= k < shorter.len() && shorter[k] == rest[i];
                assert(list[k] == whole[i]);
            } else {
                assert(whole[i] == list[list.len() - 1]);
            }
        }
        assert forall|i: int, j: int| 0 <= i < j < whole.len() implies (
        #[trigger] whole[i]).spec_key() != (#[trigger] whole[j]).spec_key() by {
            assert(whole[i] == rest[i]);
            let k = choose|k: int| 0 <= k < shorter.len() && shorter[k] == rest[i];
            assert(list[k] == whole[i]);
            if j < rest.len() {
                assert(whole[j] == rest[j]);
            } else {
                assert(whole[j] == list[list.len() - 1]);
            }
        }
    }
}

/// Of each kind of request at most one is carried out next.
pub proof fn one_request_of_a_kind<T: Keyed>(deferred: Seq<T>, backlog: Seq<T>, received: Seq<T>)
    ensures
        distinct_keys(joined_by(resorted(deferred, backlog), received).backlog),
    decreases backlog.len(), received.len(),
{
    if received.len() > 0 {
        one_request_of_a_kind(deferred, backlog, received.drop_last());
        lemma_without_same(
            joined_by(resorted(deferred, backlog), received.drop_last()).backlog,
            received.last(),
        );
    } else if backlog.len() > 0 {
        one_request_of_a_kind(deferred, backlog.drop_last(), Seq::<T>::empty());
        lemma_without_same(resorted(deferred, backlog.drop_last()).backlog, backlog.last());
    }
}

/// The last request of a kind is the one that is carried out.
pub proof fn last_request_wins<T: Keyed>(waiting: Waiting<T>, received: Seq<T>, req: T)
    requires
        joined_by(waiting, received).deferred.len() == 0,
        req.spec_key() is Some,
    ensures
        joined_by(waiting, received.push(req)).backlog.last() == req,
        joined_by(waiting, received.push(req)).deferred.len() == 0,
{
    assert(received.push(req).drop_last() =~= received);
}

/// Nothing overtakes a barrier: what comes after it waits behind it, in order.
pub proof fn barriers_are_not_overtaken<T: Keyed>(
    waiting: Waiting<T>,
    received: Seq<T>,
    barrier: T,
    later: Seq<T>,
)
    requires
        barrier.spec_key() is None,
    ensures
        ({
            let before = joined_by(waiting, received);
            let after = joined_by(waiting, received.push(barrier) + later);
            &&& after.backlog == before.backlog
            &&& after.deferred == before.deferred.push(barrier) + later
        }),
    decreases later.len(),
{
    if later.len() == 0 {
        assert(received.push(barrier) + later =~= received.push(barrier));
        assert(received.push(barrier).drop_last() =~= received);
        assert(joined_by(waiting, received).deferred.push(barrier) + later =~= joined_by(
            waiting,
            received,
        ).deferred.push(barrier));
    } else {
        barriers_are_not_overtaken(waiting, received, barrier, later.drop_last());
        let whole = received.push(barrier) + later;
        assert(whole.drop_last() =~= received.push(barrier) + later.drop_last());
        assert(whole.last() == later.last());
        assert(later.drop_last().push(later.last()) =~= later);
        let deferred = joined_by(waiting, received).deferred.push(barrier);
        assert((deferred + later.drop_last()).push(later.last()) =~= deferred + later);
    }
}

/// Of several requests only the last is carried out.
pub fn latest_of<T>(first: T, queued: Vec<T>) -> (latest: T)
    ensures
        latest == (if queued@.len() == 0 {
            first
        } else {
            queued@.last()
        }),
{
    let mut queued = queued;
    match queued.pop() {
        Some(latest) => latest,
        None => first,
    }
}

} // verus!
