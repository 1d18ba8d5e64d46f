//! The player's state machine: play/stop control, tempo, and drift-corrected
//! scheduling of tick-based waits against a wall clock.
//!
//! The player core decides; the surrounding application acts. Each consumed
//! event is turned into one [`PlayerAction`] (send a MIDI message, sleep,
//! print, or nothing), which the application's real-time thread carries out.
//! Wall-clock instants enter as nanosecond offsets from the clock the
//! application keeps; the core never reads a clock itself.

use vstd::prelude::*;
use vstd::arithmetic::div_mod::{
    lemma_div_denominator, lemma_div_is_ordered, lemma_div_is_ordered_by_denominator,
    lemma_div_pos_is_pos, lemma_fundamental_div_mod,
};
use crate::event::{Bpm, Event, Ticks, TICKS_PER_BEAT};

verus! {

/// Commands accepted by the player's control channel.
#[derive(Debug, Clone, Copy)]
pub enum Msg {
    Play,
    Stop,
    Exit,
}

/// The player's two states; `Stopped` is initial.
#[derive(Debug, Clone, Copy, PartialEq, Eq, Structural)]
pub enum PlayerStatus {
    Stopped,
    Playing,
}

/// What the application must do in response to one consumed event.
#[derive(Debug)]
pub enum PlayerAction {
    /// Write this 3-byte channel-voice message to the output transport.
    SendMidi { msg: [u8; 3] },
    /// Sleep this long before consuming the next event.
    Sleep { nanos: u64 },
    /// Route this text to diagnostics; it has no audio effect.
    Print { value: String },
    /// Nothing to do (tempo changes and markers).
    Idle,
}

/// One beat at 120 beats per minute lasts half a second.
pub const BEAT_IN_120_BPM_NANOS: u64 = 500_000_000;

/// Duration of `ticks` ticks at `bpm`, in nanoseconds, rounded down: a beat
/// lasts `60_000_000_000 / bpm` nanoseconds and a tick is one
/// `TICKS_PER_BEAT`-th of a beat. The numerator is formed first, so the
/// only rounding is the final division.
pub open spec fn wait_nanos(ticks: Ticks, bpm: Bpm) -> int
    recommends
        bpm >= 1,
{
    ((ticks as int) * ((BEAT_IN_120_BPM_NANOS as int) * 120)) / ((bpm as int) * (
    TICKS_PER_BEAT as int))
}

/// Addition of nanosecond counts, saturating at the top of `u64`.
pub open spec fn sat_add_u64(a: int, b: int) -> int {
    if a + b <= u64::MAX {
        a + b
    } else {
        u64::MAX as int
    }
}

/// Abstract state of the player: the live tempo, the wall-clock anchor of
/// the first event since playback started, the cumulative scheduled
/// duration, and the play/stop state.
#[verifier::ext_equal]
pub ghost struct PlayerModel {
    pub current_bpm: Bpm,
    pub first_event_instant: Option<u64>,
    pub should_have_elapsed: u64,
    pub player_status: PlayerStatus,
}

impl PlayerModel {
    /// The tempo stays usable for tick conversion, and both scheduling
    /// anchors are at their reset values whenever the player is stopped.
    pub open spec fn wf(self) -> bool {
        &&& self.current_bpm >= 1
        &&& self.player_status is Stopped ==> {
            &&& self.first_event_instant is None
            &&& self.should_have_elapsed == 0
        }
    }
}

/// The state every player starts in: 120 beats per minute, stopped, with
/// no scheduling anchors.
pub open spec fn initial_model() -> PlayerModel {
    PlayerModel {
        current_bpm: 120,
        first_event_instant: None,
        should_have_elapsed: 0,
        player_status: PlayerStatus::Stopped,
    }
}

/// The scheduling anchor after an event is processed at `now_nanos`: the
/// existing anchor, or `now_nanos` for the first event since playback
/// started.
pub open spec fn anchor_after(m: PlayerModel, now_nanos: u64) -> u64 {
    match m.first_event_instant {
        Some(f) => f,
        None => now_nanos,
    }
}

/// The player's state after consuming one event while playing: a wait adds
/// its duration to the cumulative target, a positive tempo change replaces
/// the tempo (a tempo of zero is rejected, since it has no tick duration),
/// and every event anchors the clock if it is the first.
pub open spec fn state_after_event(m: PlayerModel, event: Event, now_nanos: u64) -> PlayerModel {
    let anchor = anchor_after(m, now_nanos);
    match event {
        Event::Wait(w) => PlayerModel {
            current_bpm: m.current_bpm,
            first_event_instant: Some(anchor),
            should_have_elapsed: sat_add_u64(
                m.should_have_elapsed as int,
                wait_nanos(w.ticks, m.current_bpm),
            ) as u64,
            player_status: m.player_status,
        },
        Event::ChangeBpm(c) => PlayerModel {
            current_bpm: if c.bpm >= 1 {
                c.bpm
            } else {
                m.current_bpm
            },
            first_event_instant: Some(anchor),
            should_have_elapsed: m.should_have_elapsed,
            player_status: m.player_status,
        },
        _ => PlayerModel {
            current_bpm: m.current_bpm,
            first_event_instant: Some(anchor),
            should_have_elapsed: m.should_have_elapsed,
            player_status: m.player_status,
        },
    }
}

/// Wall-clock time spent since the anchor, clamped at zero.
pub open spec fn elapsed_nanos(m: PlayerModel, now_nanos: u64) -> int {
    let anchor = anchor_after(m, now_nanos);
    if now_nanos >= anchor {
        now_nanos - anchor
    } else {
        0
    }
}

/// Drift-corrected sleep for a wait: the distance from the wall-clock time
/// already spent to the absolute cumulative target, clamped at zero. The
/// sleep never accumulates its own rounding: it is always target minus
/// elapsed.
pub open spec fn sleep_nanos(m: PlayerModel, ticks: Ticks, now_nanos: u64) -> int {
    let target = sat_add_u64(m.should_have_elapsed as int, wait_nanos(ticks, m.current_bpm));
    let elapsed = elapsed_nanos(m, now_nanos);
    if target >= elapsed {
        target - elapsed
    } else {
        0
    }
}

/// The player's state after one control command: `Play` arms playback,
/// `Stop` disarms it and resets both scheduling anchors, `Exit` leaves the
/// state alone (the loop ends instead).
pub open spec fn state_after_command(m: PlayerModel, msg: Msg) -> PlayerModel {
    match msg {
        Msg::Play => PlayerModel {
            current_bpm: m.current_bpm,
            first_event_instant: m.first_event_instant,
            should_have_elapsed: m.should_have_elapsed,
            player_status: PlayerStatus::Playing,
        },
        Msg::Stop => PlayerModel {
            current_bpm: m.current_bpm,
            first_event_instant: None,
            should_have_elapsed: 0,
            player_status: PlayerStatus::Stopped,
        },
        Msg::Exit => m,
    }
}

/// The player core. The output transport, the control channel and the
/// event source stay with the application; this type only decides.
pub struct Player {
    current_bpm: Bpm,
    first_event_instant: Option<u64>,
    should_have_elapsed: u64,
    player_status: PlayerStatus,
}

impl View for Player {
    type V = PlayerModel;

    closed spec fn view(&self) -> PlayerModel {
        PlayerModel {
            current_bpm: self.current_bpm,
            first_event_instant: self.first_event_instant,
            should_have_elapsed: self.should_have_elapsed,
            player_status: self.player_status,
        }
    }
}

impl Player {
    /// A stopped player at 120 beats per minute.
    pub fn new() -> (p: Player)
        ensures
            p@ == initial_model(),
            p@.wf(),
    {
        Player {
            current_bpm: 120,
            first_event_instant: None,
            should_have_elapsed: 0,
            player_status: PlayerStatus::Stopped,
        }
    }

    /// The current play/stop state.
    pub fn status(&self) -> (s: PlayerStatus)
        ensures
            s == self@.player_status,
    {
        self.player_status
    }

    /// The live tempo.
    pub fn current_bpm(&self) -> (bpm: Bpm)
        ensures
            bpm == self@.current_bpm,
    {
        self.current_bpm
    }

    /// The wall-clock anchor of the first event since playback started.
    pub fn first_event_instant(&self) -> (r: Option<u64>)
        ensures
            r == self@.first_event_instant,
    {
        self.first_event_instant
    }

    /// The cumulative scheduled duration since the anchor.
    pub fn should_have_elapsed(&self) -> (nanos: u64)
        ensures
            nanos == self@.should_have_elapsed,
    {
        self.should_have_elapsed
    }

    /// Transition into `Stopped`, resetting both scheduling anchors. Also
    /// the policy on buffer starvation.
    pub fn stop(&mut self)
        requires
            old(self)@.wf(),
        ensures
            final(self)@ == state_after_command(old(self)@, Msg::Stop),
            final(self)@.wf(),
    {
        self.first_event_instant = None;
        self.should_have_elapsed = 0;
        self.player_status = PlayerStatus::Stopped;
    }

    /// Apply one control command; returns whether the player loop must
    /// exit. A `Play` while playing and a `Stop` while stopped change
    /// nothing.
    pub fn handle_command(&mut self, msg: Msg) -> (exit: bool)
        requires
            old(self)@.wf(),
        ensures
            final(self)@ == state_after_command(old(self)@, msg),
            final(self)@.wf(),
            exit == msg is Exit,
    {
        match msg {
            Msg::Exit => true,
            Msg::Play => {
                self.player_status = PlayerStatus::Playing;
                false
            },
            Msg::Stop => {
                self.stop();
                false
            },
        }
    }

    /// Consume one event while playing and decide the action the
    /// application must carry out. `now_nanos` is the current reading of
    /// the application's monotonic clock.
    pub fn process_event(&mut self, event: Event, now_nanos: u64) -> (a: PlayerAction)
        requires
            old(self)@.wf(),
            old(self)@.player_status is Playing,
        ensures
            final(self)@ == state_after_event(old(self)@, event, now_nanos),
            final(self)@.wf(),
            match event {
                Event::NoteOn(e) => a matches PlayerAction::SendMidi { msg } && msg@ == seq![
                    0x90u8,
                    e.note,
                    127u8,
                ],
                Event::NoteOff(e) => a matches PlayerAction::SendMidi { msg } && msg@ == seq![
                    0x80u8,
                    e.note,
                    127u8,
                ],
                Event::AllNotesOff(_) => a matches PlayerAction::SendMidi { msg } && msg@ == seq![
                    0xB0u8,
                    0u8,
                    0u8,
                ],
                Event::Wait(w) => a matches PlayerAction::Sleep { nanos } && nanos == sleep_nanos(
                    old(self)@,
                    w.ticks,
                    now_nanos,
                ),
                Event::Print { value } => a matches PlayerAction::Print { value: v } && v == value,
                Event::ChangeBpm(_) => a is Idle,
                Event::Marker => a is Idle,
            },
    {
        let first = match self.first_event_instant {
            Some(f) => f,
            None => {
                self.first_event_instant = Some(now_nanos);
                now_nanos
            },
        };
        match event {
            Event::NoteOn(e) => PlayerAction::SendMidi { msg: e.to_midi_msg() },
            Event::NoteOff(e) => PlayerAction::SendMidi { msg: e.to_midi_msg() },
            Event::AllNotesOff(e) => PlayerAction::SendMidi { msg: e.to_midi_msg() },
            Event::Print { value } => PlayerAction::Print { value },
            Event::Wait(w) => {
                let duration = ticks_to_duration_nanos(w.ticks, self.current_bpm);
                self.should_have_elapsed = if self.should_have_elapsed <= u64::MAX - duration {
                    self.should_have_elapsed + duration
                } else {
                    u64::MAX
                };
                let elapsed = if now_nanos >= first {
                    now_nanos - first
                } else {
                    0
                };
                let nanos = if self.should_have_elapsed >= elapsed {
                    self.should_have_elapsed - elapsed
                } else {
                    0
                };
                PlayerAction::Sleep { nanos }
            },
            Event::ChangeBpm(c) => {
                if c.bpm >= 1 {
                    self.current_bpm = c.bpm;
                }
                PlayerAction::Idle
            },
            Event::Marker => PlayerAction::Idle,
        }
    }
}

/// Duration of `ticks` ticks at `bpm`, in nanoseconds, rounded down.
pub fn ticks_to_duration_nanos(ticks: Ticks, bpm: Bpm) -> (nanos: u64)
    requires
        bpm >= 1,
    ensures
        nanos == wait_nanos(ticks, bpm),
{
    proof {
        assert(0 <= (ticks as int) * ((BEAT_IN_120_BPM_NANOS as int) * 120) <= 4294967295int
            * 60_000_000_000) by (nonlinear_arith)
            requires
                0 <= ticks <= 4294967295int,
                BEAT_IN_120_BPM_NANOS == 500_000_000,
        ;
        assert(55440 <= (bpm as int) * (TICKS_PER_BEAT as int) <= 65535int * 55440)
            by (nonlinear_arith)
            requires
                1 <= bpm <= 65535int,
                TICKS_PER_BEAT == 55440,
        ;
    }
    let num: u128 = (ticks as u128) * ((BEAT_IN_120_BPM_NANOS as u128) * 120);
    let den: u128 = (bpm as u128) * (TICKS_PER_BEAT as u128);
    let q: u128 = num / den;
    proof {
        lemma_div_is_ordered_by_denominator(num as int, 55440, den as int);
        lemma_div_is_ordered((num as int), 4294967295int * 60_000_000_000, 55440);
    }
    q as u64
}

/// A wait never has a negative duration.
pub proof fn lemma_wait_nanos_nonneg(ticks: Ticks, bpm: Bpm)
    requires
        bpm >= 1,
    ensures
        wait_nanos(ticks, bpm) >= 0,
{
    assert((ticks as int) * ((BEAT_IN_120_BPM_NANOS as int) * 120) >= 0) by (nonlinear_arith)
        requires
            ticks >= 0,
            BEAT_IN_120_BPM_NANOS == 500_000_000,
    ;
    assert((bpm as int) * (TICKS_PER_BEAT as int) >= 55440) by (nonlinear_arith)
        requires
            bpm >= 1,
            TICKS_PER_BEAT == 55440,
    ;
    lemma_div_pos_is_pos(
        (ticks as int) * ((BEAT_IN_120_BPM_NANOS as int) * 120),
        (bpm as int) * (TICKS_PER_BEAT as int),
    );
}

/// Tempo change: doubling the tempo halves the duration of every
/// subsequent wait, up to the one nanosecond the rounded-down division may
/// lose.
pub proof fn lemma_double_bpm_halves_wait(ticks: Ticks, bpm: Bpm)
    requires
        1 <= bpm,
        2 * (bpm as int) <= u16::MAX,
    ensures
        2 * wait_nanos(ticks, (2 * bpm) as Bpm) <= wait_nanos(ticks, bpm),
        wait_nanos(ticks, bpm) <= 2 * wait_nanos(ticks, (2 * bpm) as Bpm) + 1,
{
    let x = (ticks as int) * ((BEAT_IN_120_BPM_NANOS as int) * 120);
    let d = (bpm as int) * (TICKS_PER_BEAT as int);
    assert(x >= 0) by (nonlinear_arith)
        requires
            x == (ticks as int) * ((BEAT_IN_120_BPM_NANOS as int) * 120),
            ticks >= 0,
            BEAT_IN_120_BPM_NANOS == 500_000_000,
    ;
    assert(d >= 55440) by (nonlinear_arith)
        requires
            d == (bpm as int) * (TICKS_PER_BEAT as int),
            bpm >= 1,
            TICKS_PER_BEAT == 55440,
    ;
    assert(((2 * bpm) as int) * (TICKS_PER_BEAT as int) == d * 2) by (nonlinear_arith)
        requires
            d == (bpm as int) * (TICKS_PER_BEAT as int),
            1 <= bpm,
            2 * (bpm as int) <= u16::MAX,
    ;
    lemma_div_denominator(x, d, 2);
    let q = x / d;
    lemma_fundamental_div_mod(q, 2);
    assert(wait_nanos(ticks, (2 * bpm) as Bpm) == q / 2);
}

/// Cumulative duration of a run of waits at a fixed tempo, in nanoseconds.
pub open spec fn total_wait_nanos(ticks_list: Seq<Ticks>, bpm: Bpm) -> int
    decreases ticks_list.len(),
{
    if ticks_list.len() == 0 {
        0
    } else {
        wait_nanos(ticks_list[0], bpm) + total_wait_nanos(ticks_list.drop_first(), bpm)
    }
}

/// The cumulative duration of a run of waits is never negative.
pub proof fn lemma_total_wait_nanos_nonneg(ticks_list: Seq<Ticks>, bpm: Bpm)
    requires
        bpm >= 1,
    ensures
        total_wait_nanos(ticks_list, bpm) >= 0,
    decreases ticks_list.len(),
{
    if ticks_list.len() > 0 {
        lemma_wait_nanos_nonneg(ticks_list[0], bpm);
        lemma_total_wait_nanos_nonneg(ticks_list.drop_first(), bpm);
    }
}

/// The player's state after a run of waits, each processed at its own
/// wall-clock instant.
pub open spec fn state_after_waits(
    m: PlayerModel,
    ticks_list: Seq<Ticks>,
    nows: Seq<u64>,
) -> PlayerModel
    decreases ticks_list.len(),
{
    if ticks_list.len() == 0 {
        m
    } else {
        state_after_waits(
            state_after_event(m, Event::Wait(crate::event::Wait { ticks: ticks_list[0] }), nows[0]),
            ticks_list.drop_first(),
            nows.drop_first(),
        )
    }
}

/// Drift correction: after any run of waits, the cumulative target is the
/// absolute sum of their durations from the starting state (saturating at
/// the top of `u64`) — whatever the wall-clock instants at which they were
/// processed. Scheduling jitter therefore never accumulates into the
/// target; each sleep is computed against this absolute offset.
pub proof fn lemma_drift_correction_absolute(
    m: PlayerModel,
    ticks_list: Seq<Ticks>,
    nows: Seq<u64>,
)
    requires
        m.current_bpm >= 1,
        nows.len() == ticks_list.len(),
    ensures
        state_after_waits(m, ticks_list, nows).should_have_elapsed == sat_add_u64(
            m.should_have_elapsed as int,
            total_wait_nanos(ticks_list, m.current_bpm),
        ),
        state_after_waits(m, ticks_list, nows).current_bpm == m.current_bpm,
        state_after_waits(m, ticks_list, nows).player_status == m.player_status,
    decreases ticks_list.len(),
{
    if ticks_list.len() > 0 {
        let m1 = state_after_event(
            m,
            Event::Wait(crate::event::Wait { ticks: ticks_list[0] }),
            nows[0],
        );
        lemma_wait_nanos_nonneg(ticks_list[0], m.current_bpm);
        lemma_total_wait_nanos_nonneg(ticks_list.drop_first(), m.current_bpm);
        lemma_drift_correction_absolute(m1, ticks_list.drop_first(), nows.drop_first());
    }
}

/// Idempotent stop: a `Stop` received while already stopped changes
/// nothing; in particular both scheduling anchors are still at their reset
/// values.
pub proof fn lemma_stop_idempotent(m: PlayerModel)
    requires
        m.wf(),
        m.player_status is Stopped,
    ensures
        state_after_command(m, Msg::Stop) == m,
{
    assert(state_after_command(m, Msg::Stop) =~= m);
}

/// The player's event source: pops the front of the shared buffer and, on
/// a low-water crossing, asks the coordinator for more events.
pub trait PlayerEventSource {
    fn next(&self) -> Option<Event>;
}

} // verus!
