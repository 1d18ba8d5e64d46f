use murmel::event::{Event, NoteOn, Wait};
use murmel::event_generator::BatchRequest;

fn note(n: u8) -> Event {
    Event::NoteOn(NoteOn { note: n })
}

fn beat() -> Event {
    // one beat at the nominal budgeting tempo: 500 ms
    Event::Wait(Wait { ticks: 55440 })
}

#[test]
fn batch_fills_until_the_budget_is_covered() {
    let mut batch = BatchRequest::new(1_000_000_000);
    assert!(batch.wants_more());
    batch.push_event(beat());
    assert!(batch.wants_more());
    batch.push_event(beat());
    // two beats cover the one-second budget exactly
    assert!(!batch.wants_more());
    let events = batch.into_events();
    assert_eq!(events, vec![beat(), beat()]);
}

#[test]
fn non_wait_events_cost_no_budget() {
    let mut batch = BatchRequest::new(1);
    batch.push_event(note(1));
    batch.push_event(note(2));
    batch.push_event(Event::Marker);
    assert!(batch.wants_more());
    batch.push_event(Event::Wait(Wait { ticks: 111 }));
    assert!(!batch.wants_more());
    let events = batch.into_events();
    assert_eq!(events, vec![note(1), note(2), Event::Marker, Event::Wait(Wait { ticks: 111 })]);
}

#[test]
fn zero_budget_wants_nothing() {
    let batch = BatchRequest::new(0);
    assert!(!batch.wants_more());
    assert!(batch.into_events().is_empty());
}

#[test]
fn events_are_kept_in_generation_order() {
    let mut batch = BatchRequest::new(u64::MAX);
    for i in 0..10u8 {
        batch.push_event(note(i));
    }
    let events = batch.into_events();
    let expected: Vec<Event> = (0..10u8).map(note).collect();
    assert_eq!(events, expected);
}
