//! Countdown engine for an interval timer that alternates a work phase and a
//! rest phase, ticking once per second.
//!
//! The engine is a small state machine over a remaining-seconds counter and a
//! phase status. A background ticker decrements the counter or advances the
//! phase; the host polls the engine every redraw and issues the user commands.
//! The audio-cue policy maps counter thresholds to playback requests.

pub mod engine;
pub mod cue;
