//! The vocabulary of events that control the engine.

use vstd::prelude::*;

verus! {

/// Number of voices in the pool.
pub const MAX_VOICES: usize = 8;

/// The MIDI controller number of the modulation wheel.
pub const MOD_WHEEL_CONTROLLER: u8 = 1;

/// The largest value of a MIDI data byte; a controller at this value is fully on.
pub const CONTROLLER_MAX: u8 = 127;

/// Names the setting that a `ParamChange` event addresses.
#[derive(Clone, Copy, Debug, PartialEq, Eq, Structural)]
pub enum Param {
    Attack,
    Decay,
    Sustain,
    Release,
    ModRange,
    LfoFreq,
}

/// One message from a control source to the engine.
///
/// Frequencies are in millihertz. The payload of a `ParamChange` is in
/// thousandths of the setting's unit: millihertz for `ModRange` and `LfoFreq`,
/// milliseconds for `Attack`, `Decay` and `Release`, thousandths of full level
/// for `Sustain`. No variant is validated: a note or controller number that
/// nothing answers to is carried like any other.
#[derive(Clone, Copy, Debug, PartialEq, Eq, Structural)]
pub enum SynthEvent {
    /// Start the note with the given number at the given frequency.
    NoteOn(u8, u32),
    /// Release the note with the given number.
    NoteOff(u8),
    /// Set a parameter to a value.
    ParamChange(Param, u32),
    /// A MIDI control change: controller number and value.
    ControlChange(u8, u8),
}

} // verus!
