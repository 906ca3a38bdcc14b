//! A toy music engine: a pitch, interval and chord model, arpeggiators that
//! cycle over a chord's notes, and a step sequencer that turns irregular
//! timer ticks into evenly spaced beats.
//!
//! Times are whole microseconds throughout; audio itself is left to the caller.

pub mod arpeggiators;
pub mod arps;
pub mod sampler;
pub mod sequencer;
pub mod songs;
pub mod theory;
