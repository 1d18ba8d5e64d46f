//! Core of a script-driven MIDI sequencer: the event vocabulary, the shared
//! event buffer with backpressure and hot-reload truncation, the generator's
//! batch budgeting, and the player's drift-corrected scheduling state machine.
//!
//! Everything here is pure logic on plain values; threads, channels, the MIDI
//! port and the scripting engine live in the surrounding application, which
//! drives these types and carries out the actions they decide on.

pub mod event;
pub mod event_coordinator;
pub mod event_generator;
pub mod player;
