//! Numbered requests of which at most one is waited for.

use vstd::prelude::*;

verus! {

/// The number of the last request and the one whose answer is waited for.
#[derive(Debug, Clone, Copy, PartialEq, Eq, Structural)]
pub struct RequestTracker {
    pub seq: u64,
    pub active: Option<u64>,
}

impl Default for RequestTracker {
    fn default() -> (tracker: RequestTracker)
        ensures
            tracker == (RequestTracker { seq: 0, active: None }),
    {
        RequestTracker { seq: 0, active: None }
    }
}

/// The number after `n`; after the largest comes zero.
pub open spec fn following(n: u64) -> u64 {
    if n == u64::MAX {
        0
    } else {
        (n + 1) as u64
    }
}

pub fn next_number(n: u64) -> (next: u64)
    ensures
        next == following(n),
{
    n.wrapping_add(1)
}

impl RequestTracker {
    /// The tracker once a request was started.
    pub open spec fn started(self) -> RequestTracker {
        RequestTracker { seq: following(self.seq), active: Some(following(self.seq)) }
    }

    /// The tracker once nothing is waited for any more.
    pub open spec fn idle(self) -> RequestTracker {
        RequestTracker { active: None, ..self }
    }

    /// Whether an answer comes from another request than the one waited for.
    pub open spec fn superseded(self, request_id: u64) -> bool {
        self.active matches Some(active) && active != request_id
    }

    /// Starts a request, in place of one that is waited for.
    pub fn start(&mut self) -> (request_id: u64)
        ensures
            *final(self) == old(self).started(),
            final(self).active == Some(request_id),
    {
        self.seq = next_number(self.seq);
        self.active = Some(self.seq);
        self.seq
    }

    /// Stops waiting.
    pub fn cancel(&mut self)
        ensures
            *final(self) == old(self).idle(),
    {
        self.active = None;
    }

    /// An answer has come. The result tells whether it was waited for.
    pub fn finish_if_active(&mut self, request_id: u64) -> (finished: bool)
        ensures
            finished == (old(self).active == Some(request_id)),
            *final(self) == (if finished {
                old(self).idle()
            } else {
                *old(self)
            }),
    {
        match self.active {
            Some(active) => {
                if active == request_id {
                    self.active = None;
                    true
                } else {
                    false
                }
            },
            None => false,
        }
    }

    /// Whether another request has taken this one's place. A request that
    /// nothing replaced is not stale, even where it is no longer waited for.
    pub fn is_stale(&self, request_id: u64) -> (stale: bool)
        ensures
            stale == self.superseded(request_id),
    {
        match self.active {
            Some(active) => active != request_id,
            None => false,
        }
    }
}

/// Starting a request makes every earlier answer stale.
pub proof fn starting_supersedes(tracker: RequestTracker, earlier: u64)
    requires
        earlier != following(tracker.seq),
    ensures
        tracker.started().superseded(earlier),
{
}

} // verus!
