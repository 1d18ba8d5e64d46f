use murmel::event::{AllNotesOff, ChangeBpm, Event, NoteOn, Wait};
use murmel::player::{Msg, Player, PlayerAction, PlayerStatus};

fn sleep_nanos(action: PlayerAction) -> u64 {
    match action {
        PlayerAction::Sleep { nanos } => nanos,
        other => panic!("expected a sleep, got {:?}", other),
    }
}

#[test]
fn initial_state_is_stopped_at_120_bpm() {
    let p = Player::new();
    assert_eq!(p.status(), PlayerStatus::Stopped);
    assert_eq!(p.current_bpm(), 120);
    assert_eq!(p.first_event_instant(), None);
    assert_eq!(p.should_have_elapsed(), 0);
}

#[test]
fn play_arms_and_exit_reports_termination() {
    let mut p = Player::new();
    assert!(!p.handle_command(Msg::Play));
    assert_eq!(p.status(), PlayerStatus::Playing);
    assert!(!p.handle_command(Msg::Play));
    assert_eq!(p.status(), PlayerStatus::Playing);
    assert!(p.handle_command(Msg::Exit));
}

#[test]
fn first_event_anchors_the_clock() {
    let mut p = Player::new();
    p.handle_command(Msg::Play);
    p.process_event(Event::NoteOn(NoteOn { note: 3 }), 42);
    assert_eq!(p.first_event_instant(), Some(42));
    // later events keep the original anchor
    p.process_event(Event::NoteOn(NoteOn { note: 4 }), 999);
    assert_eq!(p.first_event_instant(), Some(42));
}

#[test]
fn note_events_become_midi_sends() {
    let mut p = Player::new();
    p.handle_command(Msg::Play);
    match p.process_event(Event::NoteOn(NoteOn { note: 64 }), 0) {
        PlayerAction::SendMidi { msg } => assert_eq!(msg, [0x90, 64, 127]),
        other => panic!("expected a send, got {:?}", other),
    }
    match p.process_event(Event::AllNotesOff(AllNotesOff {}), 0) {
        PlayerAction::SendMidi { msg } => assert_eq!(msg, [0xB0, 0, 0]),
        other => panic!("expected a send, got {:?}", other),
    }
}

#[test]
fn print_goes_to_diagnostics_and_marker_does_nothing() {
    let mut p = Player::new();
    p.handle_command(Msg::Play);
    match p.process_event(Event::Print { value: String::from("hello") }, 0) {
        PlayerAction::Print { value } => assert_eq!(value, "hello"),
        other => panic!("expected a print, got {:?}", other),
    }
    assert!(matches!(p.process_event(Event::Marker, 0), PlayerAction::Idle));
}

#[test]
fn one_beat_at_120_bpm_sleeps_half_a_second() {
    let mut p = Player::new();
    p.handle_command(Msg::Play);
    let a = p.process_event(Event::Wait(Wait { ticks: 55440 }), 0);
    assert_eq!(sleep_nanos(a), 500_000_000);
    assert_eq!(p.should_have_elapsed(), 500_000_000);
}

#[test]
fn drift_correction_sleeps_to_the_absolute_offset() {
    let mut p = Player::new();
    p.handle_command(Msg::Play);

    // three one-beat waits at 120 bpm: the target offsets are 500 ms,
    // 1000 ms, 1500 ms from the anchor, whatever delays creep in between
    let a = p.process_event(Event::Wait(Wait { ticks: 55440 }), 0);
    assert_eq!(sleep_nanos(a), 500_000_000);

    // 200 ms of injected processing delay: the sleep shrinks to compensate
    let a = p.process_event(Event::Wait(Wait { ticks: 55440 }), 700_000_000);
    assert_eq!(sleep_nanos(a), 300_000_000);

    // more delay; still aiming at the absolute 1500 ms mark
    let a = p.process_event(Event::Wait(Wait { ticks: 55440 }), 1_250_000_000);
    assert_eq!(sleep_nanos(a), 250_000_000);

    // the cumulative target is the exact sum, not the sum of the sleeps
    assert_eq!(p.should_have_elapsed(), 1_500_000_000);
}

#[test]
fn wait_already_overdue_sleeps_zero() {
    let mut p = Player::new();
    p.handle_command(Msg::Play);
    p.process_event(Event::NoteOn(NoteOn { note: 1 }), 0);
    // the clock is far past the target: no sleep, no underflow
    let a = p.process_event(Event::Wait(Wait { ticks: 55440 }), 2_000_000_000);
    assert_eq!(sleep_nanos(a), 0);
    assert_eq!(p.should_have_elapsed(), 500_000_000);
}

#[test]
fn change_bpm_halves_subsequent_waits() {
    let mut p = Player::new();
    p.handle_command(Msg::Play);
    let a = p.process_event(Event::ChangeBpm(ChangeBpm { bpm: 240 }), 0);
    assert!(matches!(a, PlayerAction::Idle));
    assert_eq!(p.current_bpm(), 240);
    let a = p.process_event(Event::Wait(Wait { ticks: 55440 }), 0);
    assert_eq!(sleep_nanos(a), 250_000_000);
    assert_eq!(p.should_have_elapsed(), 250_000_000);
}

#[test]
fn change_bpm_takes_effect_only_for_later_waits() {
    let mut p = Player::new();
    p.handle_command(Msg::Play);
    let a = p.process_event(Event::Wait(Wait { ticks: 55440 }), 0);
    assert_eq!(sleep_nanos(a), 500_000_000);
    p.process_event(Event::ChangeBpm(ChangeBpm { bpm: 60 }), 0);
    let a = p.process_event(Event::Wait(Wait { ticks: 55440 }), 500_000_000);
    // one beat at 60 bpm lasts a full second
    assert_eq!(p.should_have_elapsed(), 1_500_000_000);
    assert_eq!(sleep_nanos(a), 1_000_000_000);
}

#[test]
fn change_bpm_to_zero_is_rejected() {
    let mut p = Player::new();
    p.handle_command(Msg::Play);
    p.process_event(Event::ChangeBpm(ChangeBpm { bpm: 0 }), 0);
    assert_eq!(p.current_bpm(), 120);
}

#[test]
fn stop_resets_the_scheduling_anchors() {
    let mut p = Player::new();
    p.handle_command(Msg::Play);
    p.process_event(Event::Wait(Wait { ticks: 55440 }), 7);
    assert_eq!(p.first_event_instant(), Some(7));
    p.handle_command(Msg::Stop);
    assert_eq!(p.status(), PlayerStatus::Stopped);
    assert_eq!(p.first_event_instant(), None);
    assert_eq!(p.should_have_elapsed(), 0);
}

#[test]
fn stop_while_stopped_changes_nothing() {
    let mut p = Player::new();
    assert!(!p.handle_command(Msg::Stop));
    assert_eq!(p.status(), PlayerStatus::Stopped);
    assert_eq!(p.first_event_instant(), None);
    assert_eq!(p.should_have_elapsed(), 0);
    // and again, after a full play/stop round trip
    p.handle_command(Msg::Play);
    p.process_event(Event::Wait(Wait { ticks: 100 }), 3);
    p.handle_command(Msg::Stop);
    p.handle_command(Msg::Stop);
    assert_eq!(p.status(), PlayerStatus::Stopped);
    assert_eq!(p.first_event_instant(), None);
    assert_eq!(p.should_have_elapsed(), 0);
}

#[test]
fn starvation_policy_stop_also_resets_anchors() {
    let mut p = Player::new();
    p.handle_command(Msg::Play);
    p.process_event(Event::Wait(Wait { ticks: 55440 }), 0);
    // the buffer ran dry: the player stops and disarms its anchors
    p.stop();
    assert_eq!(p.status(), PlayerStatus::Stopped);
    assert_eq!(p.first_event_instant(), None);
    assert_eq!(p.should_have_elapsed(), 0);
}

#[test]
fn largest_wait_at_the_slowest_tempo_stays_exact() {
    let mut p = Player::new();
    p.handle_command(Msg::Play);
    p.process_event(Event::ChangeBpm(ChangeBpm { bpm: 1 }), 0);
    let a = p.process_event(Event::Wait(Wait { ticks: u32::MAX }), 0);
    // floor(4294967295 * 60_000_000_000 / 55440), about 54 days
    assert_eq!(sleep_nanos(a), 4_648_233_003_246_753);
    assert_eq!(p.should_have_elapsed(), 4_648_233_003_246_753);
}
