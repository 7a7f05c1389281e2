//! Bounded terminal input draining and wheel-gesture reduction.
//!
//! A wheel gesture does not end merely because a drain pass hit its work limit.
//! It ends only after the terminal queue was observed empty, stayed quiet for
//! `WHEEL_GESTURE_QUIET`, and was observed empty again. This deliberately
//! favors keeping two bursts together over splitting one physical gesture while
//! terminal input is backlogged.

use std::collections::VecDeque;

use vstd::prelude::*;

use crate::key::{Event, KeyEvent, KeyEventKind, MouseEventKind};
use crate::time::{elapsed, span_since};

verus! {

/// Quiet time required between two empty-queue observations.
pub const WHEEL_GESTURE_QUIET: u64 = 145_000_000;

pub const DEFAULT_MAX_DRAIN_EVENTS: usize = 256;

pub const DEFAULT_MAX_REDUCED_INPUTS: usize = 16;

pub const DEFAULT_DRAIN_BUDGET: u64 = 4_000_000;

/// Stable identity shared by all wheel segments in one physical gesture.
#[derive(Clone, Copy, Debug, Eq, Hash, PartialEq, Structural)]
pub struct WheelGestureId(pub u64);

impl WheelGestureId {
    pub fn from_raw(value: u64) -> (id: WheelGestureId)
        ensures
            id.0 == value,
    {
        WheelGestureId(value)
    }

    pub fn raw(self) -> (value: u64)
        ensures
            value == self.0,
    {
        self.0
    }
}

#[derive(Clone, Copy, Debug, Eq, PartialEq, Structural)]
pub enum ScrollDirection {
    Up,
    Down,
}

/// An ordered, reduced unit of input.
#[derive(Clone, Copy, Debug, Eq, PartialEq, Structural)]
pub enum UiInput {
    Key(KeyEvent),
    Wheel { direction: ScrollDirection, steps: u32, gesture: WheelGestureId },
    Resize { width: u16, height: u16 },
}

/// The state of the reducer: the inputs that wait to be taken, the gesture
/// under way, since when the source has been seen empty, and the identity of
/// the next gesture.
#[verifier::ext_equal]
pub struct Reduction {
    pub pending: Seq<UiInput>,
    pub active: Option<WheelGestureId>,
    pub empty_since: Option<u64>,
    pub next_id: u64,
}

impl Reduction {
    /// Nothing has been read yet.
    pub open spec fn fresh() -> Reduction {
        Reduction { pending: Seq::empty(), active: None, empty_since: None, next_id: 1 }
    }

    /// Zero is never a gesture's identity.
    pub open spec fn valid(self) -> bool {
        &&& self.next_id != 0
        &&& self.active matches Some(gesture) ==> gesture.0 != 0
    }

    /// The gesture that a wheel report belongs to.
    pub open spec fn gesture(self) -> WheelGestureId {
        match self.active {
            Some(gesture) => gesture,
            None => WheelGestureId(self.next_id),
        }
    }

    /// A key press is an interaction boundary: it ends the gesture.
    pub open spec fn key(self, key: KeyEvent) -> Reduction {
        Reduction {
            pending: self.pending.push(UiInput::Key(key)),
            active: None,
            empty_since: None,
            ..self
        }
    }

    /// A wheel report continues the segment at the end of the queue where
    /// gesture and direction agree, and starts a segment of its own otherwise.
    pub open spec fn wheel(self, direction: ScrollDirection) -> Reduction {
        let gesture = self.gesture();
        let pending = if self.pending.len() > 0 {
            match self.pending.last() {
                UiInput::Wheel { direction: d, steps, gesture: g } => if d == direction && g
                    == gesture {
                    self.pending.drop_last().push(
                        UiInput::Wheel {
                            direction,
                            steps: if steps == u32::MAX {
                                steps
                            } else {
                                (steps + 1) as u32
                            },
                            gesture,
                        },
                    )
                } else {
                    self.pending.push(UiInput::Wheel { direction, steps: 1, gesture })
                },
                _ => self.pending.push(UiInput::Wheel { direction, steps: 1, gesture }),
            }
        } else {
            self.pending.push(UiInput::Wheel { direction, steps: 1, gesture })
        };
        Reduction {
            pending,
            active: Some(gesture),
            empty_since: None,
            next_id: if self.active is Some {
                self.next_id
            } else if self.next_id == u64::MAX {
                1
            } else {
                (self.next_id + 1) as u64
            },
        }
    }

    /// A resize replaces one that is still at the end of the queue.
    pub open spec fn resize(self, width: u16, height: u16) -> Reduction {
        let kept = if self.pending.len() > 0 && self.pending.last() is Resize {
            self.pending.drop_last()
        } else {
            self.pending
        };
        Reduction { pending: kept.push(UiInput::Resize { width, height }), ..self }
    }

    /// One raw event. Other keys than pressed ones, mouse movement, clicks,
    /// focus and paste events leave everything as it is.
    pub open spec fn event(self, event: Event) -> Reduction {
        match event {
            Event::Key(key) => if key.kind == KeyEventKind::Press {
                self.key(key)
            } else {
                self
            },
            Event::Mouse(MouseEventKind::ScrollUp) => self.wheel(ScrollDirection::Up),
            Event::Mouse(MouseEventKind::ScrollDown) => self.wheel(ScrollDirection::Down),
            Event::Resize { width, height } => self.resize(width, height),
            _ => self,
        }
    }

    /// Whether seeing the source empty at `now` ends the gesture.
    pub open spec fn closes_at(self, now: u64) -> bool {
        &&& self.active is Some
        &&& self.empty_since matches Some(start)
        &&& span_since(now, start) >= WHEEL_GESTURE_QUIET
    }

    /// The source was seen empty.
    pub open spec fn seen_empty(self, now: u64) -> Reduction {
        if self.active is None {
            Reduction { empty_since: None, ..self }
        } else if self.closes_at(now) {
            Reduction { active: None, empty_since: None, ..self }
        } else if self.empty_since is Some {
            self
        } else {
            Reduction { empty_since: Some(now), ..self }
        }
    }

    /// A drain pass ended before the source was empty.
    pub open spec fn interrupted(self) -> Reduction {
        Reduction { empty_since: None, ..self }
    }

    /// Moment of the second empty observation that would end the gesture.
    pub open spec fn deadline(self) -> Option<u64> {
        match (self.active, self.empty_since) {
            (Some(_), Some(start)) => if start + WHEEL_GESTURE_QUIET <= u64::MAX {
                Some((start + WHEEL_GESTURE_QUIET) as u64)
            } else {
                None
            },
            _ => None,
        }
    }
}

/// Ordered coalescing of terminal events, and the lifetime of wheel gestures.
#[derive(Debug)]
pub struct InputReducer {
    pub pending: VecDeque<UiInput>,
    pub active_gesture: Option<WheelGestureId>,
    pub empty_since: Option<u64>,
    pub next_gesture_id: u64,
}

impl View for InputReducer {
    type V = Reduction;

    open spec fn view(&self) -> Reduction {
        Reduction {
            pending: self.pending@,
            active: self.active_gesture,
            empty_since: self.empty_since,
            next_id: self.next_gesture_id,
        }
    }
}

impl Default for InputReducer {
    fn default() -> (reducer: InputReducer)
        ensures
            reducer@ == Reduction::fresh(),
    {
        InputReducer {
            pending: VecDeque::new(),
            active_gesture: None,
            empty_since: None,
            next_gesture_id: 1,
        }
    }
}

impl InputReducer {
    /// Reduces one raw terminal event without changing the relative order of
    /// visible input.
    pub fn push_event(&mut self, event: Event)
        requires
            old(self)@.valid(),
        ensures
            final(self)@ == old(self)@.event(event),
            final(self)@.valid(),
    {
        match event {
            Event::Key(key) => {
                if key.kind == KeyEventKind::Press {
                    self.pending.push_back(UiInput::Key(key));
                    self.active_gesture = None;
                    self.empty_since = None;
                }
            },
            Event::Mouse(kind) => match kind {
                MouseEventKind::ScrollUp => self.push_wheel(ScrollDirection::Up),
                MouseEventKind::ScrollDown => self.push_wheel(ScrollDirection::Down),
                MouseEventKind::Other => {},
            },
            Event::Resize { width, height } => self.push_resize(width, height),
            Event::Other => {},
        }
    }

    /// Records that the raw source was observed empty. The result tells
    /// whether this observation closes an active gesture.
    pub fn confirm_source_empty(&mut self, now: u64) -> (closed: bool)
        ensures
            final(self)@ == old(self)@.seen_empty(now),
            closed == old(self)@.closes_at(now),
    {
        if self.active_gesture.is_none() {
            self.empty_since = None;
            return false;
        }
        match self.empty_since {
            Some(started) => {
                if elapsed(now, started) >= WHEEL_GESTURE_QUIET {
                    self.active_gesture = None;
                    self.empty_since = None;
                    true
                } else {
                    false
                }
            },
            None => {
                self.empty_since = Some(now);
                false
            },
        }
    }

    /// Marks a bounded drain as incomplete. An incomplete pass is never proof
    /// of silence, so it cannot advance or close the current gesture.
    pub fn drain_interrupted(&mut self)
        ensures
            final(self)@ == old(self)@.interrupted(),
    {
        self.empty_since = None;
    }

    pub fn quiet_deadline(&self) -> (deadline: Option<u64>)
        ensures
            deadline == self@.deadline(),
    {
        if self.active_gesture.is_none() {
            return None;
        }
        match self.empty_since {
            Some(started) => started.checked_add(WHEEL_GESTURE_QUIET),
            None => None,
        }
    }

    /// Hands out what is pending, in order.
    pub fn take_inputs(&mut self) -> (inputs: Vec<UiInput>)
        ensures
            inputs@ == old(self)@.pending,
            final(self)@ == (Reduction { pending: Seq::empty(), ..old(self)@ }),
    {
        let mut inputs: Vec<UiInput> = Vec::new();
        let ghost all = self.pending@;
        let ghost before = self@;
        loop
            invariant
                all == inputs@ + self.pending@,
                self@ == (Reduction { pending: self.pending@, ..before }),
            ensures
                inputs@ == all,
                self@ == (Reduction { pending: Seq::empty(), ..before }),
            decreases self.pending@.len(),
        {
            let ghost rest = self.pending@;
            match self.pending.pop_front() {
                Some(input) => {
                    inputs.push(input);
                    assert(all =~= inputs@ + self.pending@);
                },
                None => {
                    assert(self.pending@ =~= Seq::empty());
                    assert(inputs@ =~= all);
                    break;
                },
            }
        }
        inputs
    }

    fn push_wheel(&mut self, direction: ScrollDirection)
        requires
            old(self)@.valid(),
        ensures
            final(self)@ == old(self)@.wheel(direction),
            final(self)@.valid(),
    {
        self.empty_since = None;
        let gesture = match self.active_gesture {
            Some(gesture) => gesture,
            None => {
                let gesture = WheelGestureId::from_raw(self.next_gesture_id);
                self.next_gesture_id = self.next_gesture_id.wrapping_add(1);
                if self.next_gesture_id == 0 {
                    self.next_gesture_id = 1;
                }
                self.active_gesture = Some(gesture);
                gesture
            },
        };
        let ghost queue = self.pending@;
        match self.pending.pop_back() {
            Some(last) => {
                proof {
                    assert(queue.drop_last().push(last) =~= queue);
                }
                match last {
                    UiInput::Wheel {
                        direction: previous_direction,
                        steps,
                        gesture: previous_gesture,
                    } => {
                        if previous_direction == direction && previous_gesture == gesture {
                            self.pending.push_back(
                                UiInput::Wheel { direction, steps: steps.saturating_add(1), gesture },
                            );
                            return;
                        }
                    },
                    _ => {},
                }
                self.pending.push_back(last);
            },
            None => {},
        }
        self.pending.push_back(UiInput::Wheel { direction, steps: 1, gesture });
    }

    fn push_resize(&mut self, width: u16, height: u16)
        ensures
            final(self)@ == old(self)@.resize(width, height),
    {
        let ghost queue = self.pending@;
        match self.pending.pop_back() {
            Some(last) => {
                proof {
                    assert(queue.drop_last().push(last) =~= queue);
                }
                match last {
                    UiInput::Resize { .. } => {},
                    _ => {
                        self.pending.push_back(last);
                    },
                }
            },
            None => {},
        }
        self.pending.push_back(UiInput::Resize { width, height });
    }
}

/// How far a drain pass has come.
#[derive(Clone, Copy, Debug, Eq, PartialEq, Structural)]
pub enum DrainPhase {
    /// Nothing has been read since the last batch.
    Idle,
    /// An event is available and is to be read next.
    Reading { started: u64, drained: usize },
    /// The source is to be asked for more. `bounded`: the pass ends with the
    /// answer, because a limit was reached.
    Probing { started: u64, drained: usize, bounded: bool },
}

/// What the caller does next in a drain pass.
#[derive(Clone, Copy, Debug, Eq, PartialEq, Structural)]
pub enum DrainStep {
    /// Read the event that is available and hand it to `on_event`.
    Read,
    /// Ask the source, without waiting, whether an event is available, and
    /// hand the answer to `on_poll`.
    Probe,
    /// Take the batch.
    Finish,
}

/// Drains immediately available terminal input in bounded passes.
///
/// A pass starts with a poll that may wait for `wait_timeout`; its answer goes
/// to `on_poll`. From then on each step says what to do next, until the batch
/// is taken with `take_batch`.
#[derive(Debug)]
pub struct InputReader {
    pub reducer: InputReducer,
    pub max_drain_events: usize,
    pub drain_budget: u64,
    pub phase: DrainPhase,
}

/// No key is pressed.
pub open spec fn keyless(inputs: Seq<UiInput>) -> bool {
    forall|i: int| 0 <= i < inputs.len() ==> !(#[trigger] inputs[i] is Key)
}

/// No key is pressed, unless it is the last input.
pub open spec fn keys_come_last(inputs: Seq<UiInput>) -> bool {
    forall|i: int| 0 <= i < inputs.len() - 1 ==> !(#[trigger] inputs[i] is Key)
}

impl InputReader {
    /// The phase and what has been reduced are such as the limits admit, and a
    /// pass goes on only as long as no key was pressed.
    pub open spec fn valid(self) -> bool {
        let pending = self.reducer@.pending;
        &&& self.reducer@.valid()
        &&& self.max_drain_events >= 1
        &&& match self.phase {
            DrainPhase::Idle => pending.len() <= DEFAULT_MAX_REDUCED_INPUTS && keys_come_last(
                pending,
            ),
            DrainPhase::Reading { drained, .. } => {
                &&& drained < self.max_drain_events
                &&& pending.len() < DEFAULT_MAX_REDUCED_INPUTS
                &&& keyless(pending)
            },
            DrainPhase::Probing { drained, bounded, .. } => {
                &&& drained <= self.max_drain_events
                &&& pending.len() <= DEFAULT_MAX_REDUCED_INPUTS
                &&& !bounded ==> drained < self.max_drain_events && pending.len()
                    < DEFAULT_MAX_REDUCED_INPUTS
                &&& keyless(pending)
            },
        }
    }

    pub fn new() -> (reader: InputReader)
        ensures
            reader.valid(),
            reader.reducer@ == Reduction::fresh(),
            reader.phase == DrainPhase::Idle,
            reader.max_drain_events == DEFAULT_MAX_DRAIN_EVENTS,
            reader.drain_budget == DEFAULT_DRAIN_BUDGET,
    {
        InputReader::with_limits(DEFAULT_MAX_DRAIN_EVENTS, DEFAULT_DRAIN_BUDGET)
    }

    /// At least one event is read in a pass, whatever the limit says.
    pub fn with_limits(max_drain_events: usize, drain_budget: u64) -> (reader: InputReader)
        ensures
            reader.valid(),
            reader.reducer@ == Reduction::fresh(),
            reader.phase == DrainPhase::Idle,
            reader.max_drain_events == (if max_drain_events == 0 {
                1
            } else {
                max_drain_events
            }),
            reader.drain_budget == drain_budget,
    {
        InputReader {
            reducer: InputReducer::default(),
            max_drain_events: if max_drain_events == 0 {
                1
            } else {
                max_drain_events
            },
            drain_budget,
            phase: DrainPhase::Idle,
        }
    }

    /// How long the first poll of a pass may wait. It is cut short at the
    /// deadline of an active gesture, so that the second empty observation
    /// happens even where the caller's own timeout is longer.
    pub fn wait_timeout(&self, timeout: u64, now: u64) -> (wait: u64)
        ensures
            wait == (match self.reducer@.deadline() {
                Some(deadline) if span_since(deadline, now) < timeout => span_since(deadline, now),
                _ => timeout,
            }),
    {
        match self.reducer.quiet_deadline() {
            Some(deadline) => {
                let left = elapsed(deadline, now);
                if left < timeout {
                    left
                } else {
                    timeout
                }
            },
            None => timeout,
        }
    }

    /// What an answer of the source leads to.
    pub open spec fn polled(self, available: bool, now: u64, after: Self, step: DrainStep) -> bool {
        &&& after.valid()
        &&& after.max_drain_events == self.max_drain_events
        &&& after.drain_budget == self.drain_budget
        &&& match self.phase {
            DrainPhase::Probing { started, drained, bounded } => if !available {
                &&& step == DrainStep::Finish
                &&& after.phase == DrainPhase::Idle
                &&& after.reducer@ == self.reducer@.seen_empty(now)
            } else if bounded {
                &&& step == DrainStep::Finish
                &&& after.phase == DrainPhase::Idle
                &&& after.reducer@ == self.reducer@.interrupted()
            } else {
                &&& step == DrainStep::Read
                &&& after.phase == (DrainPhase::Reading { started, drained })
                &&& after.reducer@ == self.reducer@
            },
            _ => if !available {
                &&& step == DrainStep::Finish
                &&& after.phase == DrainPhase::Idle
                &&& after.reducer@ == self.reducer@.seen_empty(now)
            } else {
                &&& step == DrainStep::Read
                &&& after.phase == (DrainPhase::Reading { started: now, drained: 0 })
                &&& after.reducer@ == self.reducer@
            },
        }
    }

    /// The answer to a poll: whether an event is available. An empty source is
    /// observed; a source that still has events when a limit was reached
    /// interrupts the pass. A pass starts with less pending than it may hand
    /// out, and no key.
    pub fn on_poll(&mut self, available: bool, now: u64) -> (step: DrainStep)
        requires
            old(self).valid(),
            !(old(self).phase is Reading),
            available && old(self).phase == DrainPhase::Idle ==> old(self).reducer@.pending.len()
                < DEFAULT_MAX_REDUCED_INPUTS && keyless(old(self).reducer@.pending),
        ensures
            old(self).polled(available, now, *final(self), step),
    {
        if !available {
            self.reducer.confirm_source_empty(now);
            self.phase = DrainPhase::Idle;
            return DrainStep::Finish;
        }
        match self.phase {
            DrainPhase::Probing { started, drained, bounded } => {
                if bounded {
                    self.reducer.drain_interrupted();
                    self.phase = DrainPhase::Idle;
                    DrainStep::Finish
                } else {
                    self.phase = DrainPhase::Reading { started, drained };
                    DrainStep::Read
                }
            },
            _ => {
                self.phase = DrainPhase::Reading { started: now, drained: 0 };
                DrainStep::Read
            },
        }
    }

    /// What an event that was read leads to.
    pub open spec fn read(self, event: Event, now: u64, after: Self, step: DrainStep) -> bool {
        &&& after.valid()
        &&& after.max_drain_events == self.max_drain_events
        &&& after.drain_budget == self.drain_budget
        &&& ({
            let started = self.phase->Reading_started;
            let drained = (self.phase->Reading_drained + 1) as usize;
            let reduced = self.reducer@.event(event);
            if is_key_press(event) {
                &&& step == DrainStep::Finish
                &&& after.phase == DrainPhase::Idle
                &&& after.reducer@ == reduced.interrupted()
            } else {
                &&& step == DrainStep::Probe
                &&& after.reducer@ == reduced
                &&& after.phase == (DrainPhase::Probing {
                    started,
                    drained,
                    bounded: drained >= self.max_drain_events || reduced.pending.len()
                        >= DEFAULT_MAX_REDUCED_INPUTS || span_since(now, started) >= self.drain_budget,
                })
            }
        })
    }

    /// One event of the pass.
    ///
    /// A key press ends the pass at once: what follows it may belong to a
    /// program that the key hands the terminal to, and stays in the terminal's
    /// queue. Otherwise the source is asked for more; that answer ends the
    /// pass where the number of events, the number of reduced inputs or the
    /// time budget has been reached.
    pub fn on_event(&mut self, event: Event, now: u64) -> (step: DrainStep)
        requires
            old(self).valid(),
            old(self).phase is Reading,
        ensures
            old(self).read(event, now, *final(self), step),
    {
        let (started, drained): (u64, usize) = match self.phase {
            DrainPhase::Reading { started, drained } => (started, drained + 1),
            _ => (now, 1),
        };
        let stop_after_key = match event {
            Event::Key(key) => key.kind == KeyEventKind::Press,
            _ => false,
        };
        self.reducer.push_event(event);
        if stop_after_key {
            self.reducer.drain_interrupted();
            self.phase = DrainPhase::Idle;
            return DrainStep::Finish;
        }
        let bounded = drained >= self.max_drain_events || self.reducer.pending.len()
            >= DEFAULT_MAX_REDUCED_INPUTS || elapsed(now, started) >= self.drain_budget;
        self.phase = DrainPhase::Probing { started, drained, bounded };
        DrainStep::Probe
    }

    /// The inputs of the pass, in order: no more than the limit, and a key press
    /// only at the end.
    pub fn take_batch(&mut self) -> (inputs: Vec<UiInput>)
        requires
            old(self).valid(),
        ensures
            final(self).valid(),
            inputs@.len() <= DEFAULT_MAX_REDUCED_INPUTS,
            keys_come_last(inputs@),
            inputs@ == old(self).reducer@.pending,
            final(self).reducer@ == (Reduction { pending: Seq::empty(), ..old(self).reducer@ }),
            final(self).phase == old(self).phase,
            final(self).max_drain_events == old(self).max_drain_events,
            final(self).drain_budget == old(self).drain_budget,
    {
        self.reducer.take_inputs()
    }
}

pub open spec fn is_key_press(event: Event) -> bool {
    event matches Event::Key(key) && key.kind == KeyEventKind::Press
}

/// Reducing an event changes at most the last pending input, never a key, and
/// adds at most one behind it: visible input keeps its order, and neither a
/// wheel segment nor a resize ever crosses a key.
pub proof fn events_never_reorder_input(state: Reduction, event: Event)
    ensures
        ({
            let pending = state.pending;
            let after = state.event(event).pending;
            &&& pending.len() <= after.len() <= pending.len() + 1
            &&& after.len() == pending.len() + 1 ==> after.drop_last() == pending
            &&& after.len() == pending.len() && pending.len() > 0 ==> after.drop_last()
                == pending.drop_last()
            &&& after.len() == pending.len() && pending.len() > 0 && pending.last() is Key
                ==> after == pending
        }),
{
    let pending = state.pending;
    let after = state.event(event).pending;
    if after.len() == pending.len() + 1 {
        assert(after.drop_last() =~= pending);
    } else if pending.len() > 0 {
        assert(after.drop_last() =~= pending.drop_last());
    }
}

/// Wheel steps in a queue of inputs.
pub open spec fn wheel_steps(inputs: Seq<UiInput>) -> nat
    decreases inputs.len(),
{
    if inputs.len() == 0 {
        0
    } else {
        wheel_steps(inputs.drop_last()) + match inputs.last() {
            UiInput::Wheel { steps, .. } => steps as nat,
            _ => 0,
        }
    }
}

/// No wheel step is lost: each report adds one, up to the largest number a
/// segment can hold.
pub proof fn wheel_reports_are_counted(state: Reduction, direction: ScrollDirection)
    requires
        state.pending.len() > 0 ==> (state.pending.last() matches UiInput::Wheel { steps, .. }
            ==> steps < u32::MAX),
    ensures
        wheel_steps(state.wheel(direction).pending) == wheel_steps(state.pending) + 1,
{
    let pending = state.pending;
    let after = state.wheel(direction).pending;
    if after.len() == pending.len() {
        assert(after.drop_last() =~= pending.drop_last());
    } else {
        assert(after.drop_last() =~= pending);
    }
}

/// A gesture ends by silence only where the source was seen empty twice, at
/// least the quiet time apart, with no wheel report, no key and no incomplete
/// pass in between.
pub proof fn silence_needs_two_observations(state: Reduction, first: u64, second: u64)
    requires
        state.active is Some,
        state.empty_since is None,
    ensures
        !state.closes_at(first),
        state.seen_empty(first).closes_at(second) <==> span_since(second, first)
            >= WHEEL_GESTURE_QUIET,
        !state.seen_empty(first).interrupted().closes_at(second),
        forall|direction: ScrollDirection|
            !(#[trigger] state.seen_empty(first).wheel(direction)).closes_at(second),
{
}

/// Wheel reports carry on the gesture under way; after a key press or a
/// closing silence the next report starts a new one.
pub proof fn gestures_span_until_a_boundary(
    state: Reduction,
    direction: ScrollDirection,
    key: KeyEvent,
    now: u64,
)
    ensures
        state.active matches Some(gesture) ==> state.wheel(direction).active == Some(gesture),
        state.key(key).gesture() == WheelGestureId(state.next_id),
        state.closes_at(now) ==> state.seen_empty(now).gesture() == WheelGestureId(state.next_id),
        state.active is None ==> state.wheel(direction).next_id != state.next_id,
{
}

/// A pass never reads more events than its limit. What it has reduced stays
/// within a limit too, and a pressed key is the last that it takes in.
pub proof fn passes_are_bounded(reader: InputReader)
    requires
        reader.valid(),
    ensures
        reader.reducer@.pending.len() <= DEFAULT_MAX_REDUCED_INPUTS,
        keys_come_last(reader.reducer@.pending),
        !(reader.phase is Idle) ==> keyless(reader.reducer@.pending),
        reader.phase matches DrainPhase::Reading { drained, .. } ==> drained
            < reader.max_drain_events,
        reader.phase matches DrainPhase::Probing { drained, bounded, .. } ==> drained
            <= reader.max_drain_events && (drained == reader.max_drain_events ==> bounded),
{
}

} // verus!
