//! When the screen is redrawn.

use vstd::prelude::*;

use crate::time::{elapsed, span_since};

verus! {

/// Length of a tick of the event loop.
pub const TUI_TICK_RATE: u64 = 200_000_000;

/// Shortest time between two frames. Input is reduced more often than that,
/// but terminal writes are coalesced to one frame per interval.
pub const TUI_FRAME_INTERVAL: u64 = 16_667_000;

/// How long a frame has to wait: not at all where it is the first one, else
/// for what is left of the interval since the last one. A clean screen waits
/// for nothing.
pub open spec fn draw_wait(dirty: bool, since_draw: Option<u64>) -> Option<u64> {
    if !dirty {
        None
    } else {
        match since_draw {
            None => Some(0),
            Some(span) => if span >= TUI_FRAME_INTERVAL {
                Some(0)
            } else {
                Some((TUI_FRAME_INTERVAL - span) as u64)
            },
        }
    }
}

/// How long a dirty frame must wait before it may be drawn.
pub fn frame_draw_wait(dirty: bool, elapsed_since_draw: Option<u64>) -> (wait: Option<u64>)
    ensures
        wait == draw_wait(dirty, elapsed_since_draw),
{
    if !dirty {
        return None;
    }
    Some(
        match elapsed_since_draw {
            None => 0,
            Some(span) => TUI_FRAME_INTERVAL.saturating_sub(span),
        },
    )
}

/// How long the event loop may sleep: until the next tick, or until a waiting
/// frame is due if that comes first.
pub open spec fn loop_timeout(tick_wait: u64, frame_wait: Option<u64>) -> u64 {
    match frame_wait {
        Some(wait) if wait < tick_wait => wait,
        _ => tick_wait,
    }
}

pub fn next_loop_timeout(tick_wait: u64, frame_wait: Option<u64>) -> (timeout: u64)
    ensures
        timeout == loop_timeout(tick_wait, frame_wait),
{
    match frame_wait {
        Some(wait) => if wait < tick_wait {
            wait
        } else {
            tick_wait
        },
        None => tick_wait,
    }
}

/// What is left of a tick that started at `last_tick`.
pub fn tick_wait(now: u64, last_tick: u64) -> (wait: u64)
    ensures
        wait == (if span_since(now, last_tick) >= TUI_TICK_RATE {
            0
        } else {
            TUI_TICK_RATE - span_since(now, last_tick)
        }),
{
    TUI_TICK_RATE.saturating_sub(elapsed(now, last_tick))
}

/// Keeps track of whether the screen is out of date and when it was last
/// drawn.
#[derive(Debug, Clone, Copy)]
pub struct FrameScheduler {
    pub dirty: bool,
    pub last_draw: Option<u64>,
}

impl FrameScheduler {
    /// How long a frame has to wait at `now`.
    pub open spec fn wait_at(self, now: u64) -> Option<u64> {
        draw_wait(
            self.dirty,
            match self.last_draw {
                Some(last_draw) => Some(span_since(now, last_draw)),
                None => None,
            },
        )
    }

    /// Nothing has been drawn yet, so the screen is out of date.
    pub fn new() -> (scheduler: FrameScheduler)
        ensures
            scheduler == (FrameScheduler { dirty: true, last_draw: None }),
    {
        FrameScheduler { dirty: true, last_draw: None }
    }

    pub fn mark_dirty(&mut self)
        ensures
            *final(self) == (FrameScheduler { dirty: true, ..*old(self) }),
    {
        self.dirty = true;
    }

    pub fn wait(&self, now: u64) -> (wait: Option<u64>)
        ensures
            wait == self.wait_at(now),
    {
        let since_draw = match self.last_draw {
            Some(last_draw) => Some(elapsed(now, last_draw)),
            None => None,
        };
        frame_draw_wait(self.dirty, since_draw)
    }

    pub fn is_due(&self, now: u64) -> (due: bool)
        ensures
            due == (self.wait_at(now) == Some(0u64)),
    {
        match self.wait(now) {
            Some(wait) => wait == 0,
            None => false,
        }
    }

    pub fn record_draw(&mut self, completed_at: u64)
        ensures
            *final(self) == (FrameScheduler { dirty: false, last_draw: Some(completed_at) }),
    {
        self.dirty = false;
        self.last_draw = Some(completed_at);
    }
}

/// Two frames are never drawn less than an interval apart: once one was drawn,
/// the next is not due before the interval is over, however often the screen
/// is marked out of date, and then it is due as soon as the screen is.
pub proof fn frames_keep_their_distance(scheduler: FrameScheduler, drawn: u64, now: u64)
    requires
        scheduler.last_draw == Some(drawn),
        drawn <= now,
    ensures
        now < drawn + TUI_FRAME_INTERVAL ==> scheduler.wait_at(now) != Some(0u64),
        drawn + TUI_FRAME_INTERVAL <= now ==> (scheduler.wait_at(now) == Some(0u64)
            <==> scheduler.dirty),
{
}

/// A dirty frame never waits longer than an interval, and a waiting frame
/// shortens the sleep of the event loop to its own wait at most.
pub proof fn waits_are_bounded(scheduler: FrameScheduler, now: u64, tick_wait: u64)
    ensures
        scheduler.wait_at(now) matches Some(wait) ==> wait <= TUI_FRAME_INTERVAL && loop_timeout(
            tick_wait,
            Some(wait),
        ) <= wait,
        loop_timeout(tick_wait, scheduler.wait_at(now)) <= tick_wait,
{
}

} // verus!
