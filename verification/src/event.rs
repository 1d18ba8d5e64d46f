//! The vocabulary of commands flowing through the sequencer, and their
//! translation to 3-byte channel-voice MIDI messages.

use vstd::prelude::*;

verus! {

/// Tempo-relative duration unit; `TICKS_PER_BEAT` ticks make one beat.
pub type Ticks = u32;

/// MIDI pitch identifier, 0..=127.
pub type NoteValue = u8;

/// Beats per minute.
pub type Bpm = u16;

/// Ticks per beat; a highly divisible number, so that common subdivisions
/// of a beat come out as whole tick counts.
pub const TICKS_PER_BEAT: Ticks = 55440;

#[derive(Debug, Clone, PartialEq)]
pub struct ChangeBpm {
    pub bpm: Bpm,
}

#[derive(Debug, Clone, PartialEq)]
pub struct NoteOn {
    pub note: NoteValue,
}

impl NoteOn {
    /// Note-on, full velocity, channel 1.
    pub fn to_midi_msg(&self) -> (msg: [u8; 3])
        ensures
            msg@ == seq![0x90u8, self.note, 127u8],
    {
        [0x90, self.note, 127u8]
    }
}

#[derive(Debug, Clone, PartialEq)]
pub struct NoteOff {
    pub note: NoteValue,
}

impl NoteOff {
    /// Note-off, full release velocity, channel 1.
    pub fn to_midi_msg(&self) -> (msg: [u8; 3])
        ensures
            msg@ == seq![0x80u8, self.note, 127u8],
    {
        [0x80, self.note, 127u8]
    }
}

#[derive(Debug, Clone, PartialEq)]
pub struct AllNotesOff {}

impl AllNotesOff {
    /// Control change 0 with value 0 on channel 1, used as the panic-stop
    /// message.
    pub fn to_midi_msg(&self) -> (msg: [u8; 3])
        ensures
            msg@ == seq![0xB0u8, 0u8, 0u8],
    {
        [0xB0, 0, 0]
    }
}

#[derive(Debug, Clone, PartialEq)]
pub struct Wait {
    pub ticks: Ticks,
}

/// A single command produced by the generator and consumed by the player.
/// Events travel strictly in generation order; the buffer never reorders
/// or deduplicates them.
#[derive(Debug, Clone, PartialEq)]
pub enum Event {
    NoteOn(NoteOn),
    NoteOff(NoteOff),
    Wait(Wait),
    AllNotesOff(AllNotesOff),
    ChangeBpm(ChangeBpm),
    Print { value: String },
    Marker,
}

} // verus!
