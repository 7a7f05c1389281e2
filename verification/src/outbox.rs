//! Requests on their way to background workers.

use vstd::prelude::*;

verus! {

/// Whether a worker can be reached.
#[derive(Debug, Clone, Copy, PartialEq, Eq, Structural)]
pub enum Link {
    /// The worker was never started.
    Missing,
    /// The worker has stopped taking requests.
    Closed,
    /// The worker takes requests.
    Open,
}

/// What is said of a request that a stopped worker did not take.
pub const CHANNEL_CLOSED: &'static str = "sending on a closed channel";

/// The same, in the words of tokio's channels.
pub const TOKIO_CHANNEL_CLOSED: &'static str = "channel closed";

/// The requests that were sent to a worker and that it has not been handed
/// yet, oldest first.
#[derive(Debug)]
pub struct Outbox<T> {
    pub link: Link,
    pub sent: Vec<T>,
}

impl<T> Outbox<T> {
    pub fn new(link: Link) -> (outbox: Outbox<T>)
        ensures
            outbox.link == link,
            outbox.sent@.len() == 0,
    {
        Outbox { link, sent: Vec::new() }
    }

    pub fn is_missing(&self) -> (result: bool)
        ensures
            result == (self.link == Link::Missing),
    {
        match self.link {
            Link::Missing => true,
            _ => false,
        }
    }

    /// Sends a request. The result tells whether the worker takes it.
    pub fn send(&mut self, request: T) -> (taken: bool)
        ensures
            final(self).link == old(self).link,
            taken == (old(self).link == Link::Open),
            taken ==> final(self).sent@ == old(self).sent@.push(request),
            !taken ==> *final(self) == *old(self),
    {
        match self.link {
            Link::Open => {
                self.sent.push(request);
                true
            },
            _ => false,
        }
    }

    /// Hands out what was sent.
    pub fn take(&mut self) -> (requests: Vec<T>)
        ensures
            requests@ == old(self).sent@,
            final(self).link == old(self).link,
            final(self).sent@.len() == 0,
    {
        let mut requests: Vec<T> = Vec::new();
        requests.append(&mut self.sent);
        assert(requests@ =~= old(self).sent@);
        requests
    }
}

} // verus!
