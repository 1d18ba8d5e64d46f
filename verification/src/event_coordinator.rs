//! The coordinator's side of the pipeline: the shared FIFO of events, the
//! hot-reload truncation at the next marker, and the consumer-driven
//! backpressure that asks the generator for more events when the buffer
//! runs low.
//!
//! The buffer itself is pure data. The surrounding application holds it
//! behind a mutex shared between the coordinator thread (which appends and
//! truncates) and the player thread (which pops); each method here is one
//! critical section.

use vstd::prelude::*;
use std::collections::VecDeque;
use crate::event::Event;

verus! {

/// Low-water mark: a pop that leaves fewer buffered events than this starts
/// a refill cycle.
pub const REQUEST_MORE_WHEN_COUNT_UNDER: usize = 100;

/// Look-ahead covered by one refill request, in nanoseconds.
pub const REQUEST_FOR_DURATION_NANOS: u64 = 1_000_000_000;

/// Commands accepted by the coordinator's message loop, processed strictly
/// in arrival order.
#[derive(Debug)]
pub enum Msg {
    LoadMoreEvents { until_nanos: u64 },
    ReloadFromNextMarker,
    Exit,
}

/// Abstract state of the buffer: the queued events in order, and whether a
/// refill request is already in flight.
pub ghost struct EventBufferModel {
    pub events: Seq<Event>,
    pub refill_pending: bool,
}

/// The ordered event queue shared between coordinator and player.
///
/// `refill_pending` makes backpressure edge-triggered: the first pop that
/// leaves the buffer under the low-water mark raises it, and it stays
/// raised (suppressing further requests) until a batch arrives.
pub struct EventBuffer {
    events: VecDeque<Event>,
    refill_pending: bool,
}

/// True when some queued event is a `Marker`.
pub open spec fn has_marker(s: Seq<Event>) -> bool {
    exists|i: int| 0 <= i < s.len() && s[i] is Marker
}

/// Index of the first `Marker` in `s`, or `s.len()` when there is none.
pub open spec fn marker_index(s: Seq<Event>) -> int
    decreases s.len(),
{
    if s.len() == 0 {
        0
    } else if s[0] is Marker {
        0
    } else {
        1 + marker_index(s.drop_first())
    }
}

/// `marker_index` points at the first marker: everything before it is not a
/// marker, and it stays within the sequence exactly when a marker exists.
pub proof fn lemma_marker_index(s: Seq<Event>)
    ensures
        0 <= marker_index(s) <= s.len(),
        marker_index(s) < s.len() ==> s[marker_index(s)] is Marker,
        forall|j: int| 0 <= j < marker_index(s) ==> !(s[j] is Marker),
        has_marker(s) <==> marker_index(s) < s.len(),
    decreases s.len(),
{
    if s.len() == 0 {
    } else if s[0] is Marker {
    } else {
        lemma_marker_index(s.drop_first());
        assert forall|j: int| 0 <= j < marker_index(s) implies !(s[j] is Marker) by {
            if j > 0 {
                assert(s[j] == s.drop_first()[j - 1]);
            }
        }
        if marker_index(s) < s.len() {
            assert(s[marker_index(s)] == s.drop_first()[marker_index(s) - 1]);
        }
        if has_marker(s) {
            let i = choose|i: int| 0 <= i < s.len() && s[i] is Marker;
            assert(i > 0);
            assert(s.drop_first()[i - 1] is Marker);
            assert(has_marker(s.drop_first()));
        }
        if has_marker(s.drop_first()) {
            let i = choose|i: int| 0 <= i < s.drop_first().len() && s.drop_first()[i] is Marker;
            assert(s[i + 1] is Marker);
        }
    }
}

/// A scan that saw no marker strictly before `i`, and a marker (or the end
/// of the sequence) at `i`, found exactly `marker_index(s)`.
proof fn lemma_marker_index_from_scan(s: Seq<Event>, i: int)
    requires
        0 <= i <= s.len(),
        forall|j: int| 0 <= j < i ==> !(s[j] is Marker),
        i < s.len() ==> s[i] is Marker,
    ensures
        marker_index(s) == i,
    decreases i,
{
    if i == 0 {
        if s.len() > 0 && !(s[0] is Marker) {
            lemma_marker_index(s.drop_first());
        }
    } else {
        assert(!(s[0] is Marker));
        assert forall|j: int| 0 <= j < i - 1 implies !(s.drop_first()[j] is Marker) by {
            assert(s.drop_first()[j] == s[j + 1]);
        }
        if i - 1 < s.drop_first().len() {
            assert(s.drop_first()[i - 1] == s[i]);
        }
        lemma_marker_index_from_scan(s.drop_first(), i - 1);
    }
}

/// What `next_event` pops: the front event, if any.
pub open spec fn next_event_popped(m: EventBufferModel) -> Option<Event> {
    if m.events.len() == 0 {
        None
    } else {
        Some(m.events[0])
    }
}

/// The queue after `next_event`: the front event removed, if there was one.
pub open spec fn next_event_events(m: EventBufferModel) -> Seq<Event> {
    if m.events.len() == 0 {
        m.events
    } else {
        m.events.drop_first()
    }
}

/// Whether `next_event` asks the coordinator for more events: only on a pop
/// that finds the buffer under the low-water mark with no request in flight.
pub open spec fn next_event_requests(m: EventBufferModel) -> bool {
    next_event_events(m).len() < REQUEST_MORE_WHEN_COUNT_UNDER && !m.refill_pending
}

/// The buffer state after `next_event`.
pub open spec fn next_event_model(m: EventBufferModel) -> EventBufferModel {
    EventBufferModel {
        events: next_event_events(m),
        refill_pending: m.refill_pending || next_event_requests(m),
    }
}

/// The buffer state after a batch from the generator is appended: the batch
/// goes to the back, and the pending refill cycle (if any) is over.
pub open spec fn append_batch_model(m: EventBufferModel, batch: Seq<Event>) -> EventBufferModel {
    EventBufferModel { events: m.events + batch, refill_pending: false }
}

impl View for EventBuffer {
    type V = EventBufferModel;

    closed spec fn view(&self) -> EventBufferModel {
        EventBufferModel { events: self.events@, refill_pending: self.refill_pending }
    }
}

impl EventBuffer {
    /// An empty buffer with no refill cycle under way.
    pub fn new() -> (b: EventBuffer)
        ensures
            b@.events == Seq::<Event>::empty(),
            !b@.refill_pending,
    {
        EventBuffer { events: VecDeque::new(), refill_pending: false }
    }

    /// Number of buffered events.
    pub fn len(&self) -> (n: usize)
        ensures
            n == self@.events.len(),
    {
        self.events.len()
    }

    /// Append one batch from the generator at the back, in batch order, and
    /// close the refill cycle that asked for it.
    pub fn append_batch(&mut self, batch: Vec<Event>)
        ensures
            final(self)@ == append_batch_model(old(self)@, batch@),
    {
        let ghost batch0: Seq<Event> = batch@;
        let mut batch = batch;
        while batch.len() > 0
            invariant
                self@.events + batch@ == old(self)@.events + batch0,
                self@.refill_pending == old(self)@.refill_pending,
            decreases batch.len(),
        {
            let ghost pre: Seq<Event> = self@.events;
            let ghost bpre: Seq<Event> = batch@;
            let e = batch.remove(0);
            self.events.push_back(e);
            assert(self@.events + batch@ =~= pre + bpre);
        }
        self.refill_pending = false;
        assert(self@.events =~= self@.events + batch@);
        assert(final(self)@ =~= append_batch_model(old(self)@, batch0));
    }

    /// The refill request this buffer asked for failed; allow the next
    /// low-water crossing to ask again.
    pub fn refill_failed(&mut self)
        ensures
            final(self)@.events == old(self)@.events,
            !final(self)@.refill_pending,
    {
        self.refill_pending = false;
    }

    /// The player's accessor: pop the front event and decide whether this
    /// pop starts a refill cycle. Returns the popped event and whether the
    /// caller must issue one `LoadMoreEvents` request now.
    pub fn next_event(&mut self) -> (r: (Option<Event>, bool))
        ensures
            final(self)@ == next_event_model(old(self)@),
            r.0 == next_event_popped(old(self)@),
            r.1 == next_event_requests(old(self)@),
    {
        let popped = self.events.pop_front();
        let request_now = self.events.len() < REQUEST_MORE_WHEN_COUNT_UNDER && !self.refill_pending;
        if request_now {
            self.refill_pending = true;
        }
        (popped, request_now)
    }

    /// Hot-reload cut: drop everything from the first marker on (the stale
    /// continuation), keeping only the events before it. When no marker is
    /// buffered yet, clear the whole buffer rather than risk playing a stale
    /// stream; the caller is told so it can log the degraded case.
    pub fn truncate_from_next_marker(&mut self) -> (found: bool)
        ensures
            found == has_marker(old(self)@.events),
            found ==> final(self)@.events == old(self)@.events.subrange(
                0,
                marker_index(old(self)@.events),
            ),
            !found ==> final(self)@.events == Seq::<Event>::empty(),
            final(self)@.refill_pending == old(self)@.refill_pending,
    {
        let n = self.events.len();
        let mut i: usize = 0;
        while i < n
            invariant
                n == self@.events.len(),
                0 <= i <= n,
                self@ == old(self)@,
                forall|j: int| 0 <= j < i ==> !(self@.events[j] is Marker),
            decreases n - i,
        {
            if matches!(self.events[i], Event::Marker) {
                proof {
                    lemma_marker_index(self@.events);
                    lemma_marker_index_from_scan(self@.events, i as int);
                }
                self.events.truncate(i);
                return true;
            }
            i = i + 1;
        }
        proof {
            lemma_marker_index(self@.events);
            lemma_marker_index_from_scan(self@.events, n as int);
        }
        self.events.clear();
        false
    }
}

/// Concatenation of generator batches in request order.
pub open spec fn concat_batches(batches: Seq<Seq<Event>>) -> Seq<Event>
    decreases batches.len(),
{
    if batches.len() == 0 {
        Seq::empty()
    } else {
        batches[0] + concat_batches(batches.drop_first())
    }
}

/// Buffer contents after appending the batches one at a time.
pub open spec fn append_batches(init: Seq<Event>, batches: Seq<Seq<Event>>) -> Seq<Event>
    decreases batches.len(),
{
    if batches.len() == 0 {
        init
    } else {
        append_batches(init + batches[0], batches.drop_first())
    }
}

/// Order preservation, producer side: after any number of batches is
/// appended, the buffer holds their concatenation in request order behind
/// what it already held.
pub proof fn lemma_batches_preserve_order(init: Seq<Event>, batches: Seq<Seq<Event>>)
    ensures
        append_batches(init, batches) == init + concat_batches(batches),
    decreases batches.len(),
{
    if batches.len() == 0 {
        assert(init + concat_batches(batches) =~= init);
    } else {
        lemma_batches_preserve_order(init + batches[0], batches.drop_first());
        assert((init + batches[0]) + concat_batches(batches.drop_first()) =~= init + (batches[0]
            + concat_batches(batches.drop_first())));
    }
}

/// The events handed out by `n` successive `next_event` calls, in order.
pub open spec fn drained_events(m: EventBufferModel, n: nat) -> Seq<Event>
    decreases n,
{
    if n == 0 {
        Seq::empty()
    } else {
        match next_event_popped(m) {
            Some(e) => seq![e] + drained_events(next_event_model(m), (n - 1) as nat),
            None => drained_events(next_event_model(m), (n - 1) as nat),
        }
    }
}

/// Order preservation, consumer side: as long as the buffer holds enough
/// events, `n` pops hand out exactly its first `n` events in queue order.
pub proof fn lemma_pops_preserve_order(m: EventBufferModel, n: nat)
    requires
        n <= m.events.len(),
    ensures
        drained_events(m, n) == m.events.take(n as int),
    decreases n,
{
    if n == 0 {
        assert(drained_events(m, n) =~= m.events.take(0));
    } else {
        let m1 = next_event_model(m);
        lemma_pops_preserve_order(m1, (n - 1) as nat);
        assert(seq![m.events[0]] + m1.events.take(n - 1) =~= m.events.take(n as int));
    }
}

/// Backpressure, edge-triggered: a pop that starts a refill cycle leaves
/// the request pending, so the next pop in the same cycle does not ask
/// again.
pub proof fn lemma_backpressure_once_per_crossing(m: EventBufferModel)
    requires
        next_event_requests(m),
    ensures
        !next_event_requests(next_event_model(m)),
{
}

/// Backpressure, re-arming: only the arrival of a batch ends the refill
/// cycle; after it, a pop that leaves the buffer low may ask again.
pub proof fn lemma_backpressure_rearmed_by_batch(m: EventBufferModel, batch: Seq<Event>)
    ensures
        !append_batch_model(m, batch).refill_pending,
{
}

} // verus!
