//! Acoustic frequency-shift-keyed framing: the protocol logic of a
//! transmitter and a receiver that exchange short byte strings as tones.
//!
//! Everything here works on integers: frequencies in whole hertz, durations
//! in nanoseconds, sample counts, and tone magnitudes in thousandths of a
//! decibel. Rendering samples and measuring magnitudes is left to the caller.

pub mod bits;
pub mod profile;
pub mod resolver;
pub mod spectrum;
pub mod transmitter;
pub mod receiver;
pub mod protocol;
