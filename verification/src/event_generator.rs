//! Generator-side batch budgeting: collect events from the script until
//! their cumulative wait duration covers a requested time budget.
//!
//! The script's "produce next event" operation belongs to the scripting
//! engine and runs in the application's generator thread; the thread's loop
//! asks this accumulator whether the budget is covered, offers it each
//! event the script yields, and stops when the budget is covered or the
//! script is exhausted. Ticks are budgeted at a fixed nominal tempo: the
//! generator does not need to know the player's live tempo.

use vstd::prelude::*;
use crate::event::{Bpm, Event, Ticks};
use crate::player::{sat_add_u64, wait_nanos, lemma_wait_nanos_nonneg};

verus! {

/// The fixed nominal tempo at which a batch's ticks are budgeted.
pub const NOMINAL_BPM: Bpm = 120;

/// Budgeted duration of a wait of `ticks` ticks, in nanoseconds.
pub open spec fn nominal_wait_nanos(ticks: Ticks) -> int {
    wait_nanos(ticks, NOMINAL_BPM)
}

/// Budgeted duration of one event: waits carry their nominal duration,
/// every other event is instantaneous.
pub open spec fn event_nominal_nanos(event: Event) -> int {
    match event {
        Event::Wait(w) => nominal_wait_nanos(w.ticks),
        _ => 0,
    }
}

/// Cumulative budgeted duration of a batch, in order, in nanoseconds.
pub open spec fn nominal_batch_nanos(events: Seq<Event>) -> int
    decreases events.len(),
{
    if events.len() == 0 {
        0
    } else {
        event_nominal_nanos(events[0]) + nominal_batch_nanos(events.drop_first())
    }
}

/// Abstract state of a batch under construction: the requested budget, the
/// budgeted duration covered so far, and the collected events in order.
pub ghost struct BatchRequestModel {
    pub until_nanos: u64,
    pub elapsed_nanos: u64,
    pub events: Seq<Event>,
}

impl BatchRequestModel {
    /// The covered duration is exactly the cumulative nominal duration of
    /// the collected events (saturating at the top of `u64`).
    pub open spec fn wf(self) -> bool {
        self.elapsed_nanos == sat_add_u64(0, nominal_batch_nanos(self.events))
    }
}

/// One batch request being filled by the generator thread.
pub struct BatchRequest {
    until_nanos: u64,
    elapsed_nanos: u64,
    events: Vec<Event>,
}

impl View for BatchRequest {
    type V = BatchRequestModel;

    closed spec fn view(&self) -> BatchRequestModel {
        BatchRequestModel {
            until_nanos: self.until_nanos,
            elapsed_nanos: self.elapsed_nanos,
            events: self.events@,
        }
    }
}

impl BatchRequest {
    /// An empty batch that is to cover `until_nanos` of nominal time.
    pub fn new(until_nanos: u64) -> (b: BatchRequest)
        ensures
            b@.until_nanos == until_nanos,
            b@.elapsed_nanos == 0,
            b@.events == Seq::<Event>::empty(),
            b@.wf(),
    {
        BatchRequest { until_nanos, elapsed_nanos: 0, events: Vec::new() }
    }

    /// Whether the batch still falls short of its budget; the generator
    /// thread keeps asking the script for events while this holds (and the
    /// script is not exhausted).
    pub fn wants_more(&self) -> (r: bool)
        ensures
            r == (self@.elapsed_nanos < self@.until_nanos),
    {
        self.elapsed_nanos < self.until_nanos
    }

    /// Collect one event the script yielded, in order; a wait also counts
    /// its nominal duration against the budget.
    pub fn push_event(&mut self, event: Event)
        requires
            old(self)@.wf(),
        ensures
            final(self)@.wf(),
            final(self)@.until_nanos == old(self)@.until_nanos,
            final(self)@.events == old(self)@.events.push(event),
            final(self)@.elapsed_nanos == sat_add_u64(
                old(self)@.elapsed_nanos as int,
                event_nominal_nanos(event),
            ),
    {
        let ghost pre: Seq<Event> = self@.events;
        if let Event::Wait(w) = &event {
            let duration = crate::player::ticks_to_duration_nanos(w.ticks, NOMINAL_BPM);
            self.elapsed_nanos = if self.elapsed_nanos <= u64::MAX - duration {
                self.elapsed_nanos + duration
            } else {
                u64::MAX
            };
        }
        self.events.push(event);
        proof {
            lemma_nominal_batch_nanos_push(pre, event);
            lemma_wait_nanos_nonneg_event(event);
            lemma_nominal_batch_nanos_nonneg(pre);
        }
    }

    /// Hand the collected batch over, in generation order.
    pub fn into_events(self) -> (events: Vec<Event>)
        ensures
            events@ == self@.events,
    {
        self.events
    }
}

/// A single event never has a negative budgeted duration.
proof fn lemma_wait_nanos_nonneg_event(event: Event)
    ensures
        event_nominal_nanos(event) >= 0,
{
    if let Event::Wait(w) = event {
        lemma_wait_nanos_nonneg(w.ticks, NOMINAL_BPM);
    }
}

/// A batch never has a negative budgeted duration.
proof fn lemma_nominal_batch_nanos_nonneg(events: Seq<Event>)
    ensures
        nominal_batch_nanos(events) >= 0,
    decreases events.len(),
{
    if events.len() > 0 {
        lemma_wait_nanos_nonneg_event(events[0]);
        lemma_nominal_batch_nanos_nonneg(events.drop_first());
    }
}

/// Appending one event adds its budgeted duration to the batch's.
proof fn lemma_nominal_batch_nanos_push(events: Seq<Event>, event: Event)
    ensures
        nominal_batch_nanos(events.push(event)) == nominal_batch_nanos(events)
            + event_nominal_nanos(event),
    decreases events.len(),
{
    reveal_with_fuel(nominal_batch_nanos, 2);
    if events.len() == 0 {
        assert(events.push(event)[0] == event);
        assert(events.push(event).drop_first() =~= Seq::<Event>::empty());
    } else {
        assert(events.push(event)[0] == events[0]);
        assert(events.push(event).drop_first() =~= events.drop_first().push(event));
        lemma_nominal_batch_nanos_push(events.drop_first(), event);
    }
}

/// Budget coverage: a finished batch — one the generator stopped extending
/// because its budget was covered — really covers it: the cumulative
/// nominal duration of its events is at least the requested budget.
pub proof fn lemma_finished_batch_covers_budget(m: BatchRequestModel)
    requires
        m.wf(),
        m.elapsed_nanos >= m.until_nanos,
    ensures
        nominal_batch_nanos(m.events) >= m.until_nanos,
{
}

} // verus!
