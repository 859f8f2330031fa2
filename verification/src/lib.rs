//! A polyphonic synthesizer engine in fixed-point arithmetic.
//!
//! Note and control events go in, audio samples come out. A fixed pool of
//! voices, each with a sawtooth oscillator, an ADSR envelope and a
//! low-frequency oscillator that bends the pitch, is driven one sample at a
//! time. All quantities are integers: levels and phases in Q32 (see
//! [`fixed`]), frequencies in millihertz, times in milliseconds.

pub mod common;
pub mod fixed;
pub mod voice;
pub mod engine;
pub mod laws;
pub mod utils;
pub mod midi;
pub mod channel;
