//! Ear-training core: MIDI tones, their text spelling, the options of a
//! session and the decisions taken while it runs.

pub mod args;
pub mod port;
pub mod session;
pub mod text;
pub mod tone;
