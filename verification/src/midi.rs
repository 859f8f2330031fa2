//! Reading events out of raw MIDI messages.

use vstd::prelude::*;
use crate::common::SynthEvent;
use crate::utils::{midi_to_freq, note_freq};

verus! {

/// The kind of a note-off message: the high four bits of its status byte.
pub const NOTE_OFF_KIND: u8 = 0x8;

/// The kind of a note-on message.
pub const NOTE_ON_KIND: u8 = 0x9;

/// The kind of a control-change message.
pub const CONTROL_CHANGE_KIND: u8 = 0xb;

/// The largest value of a data byte: a data byte has its high bit clear.
pub const DATA_MAX: u8 = 127;

/// The event that a raw message stands for, if any.
///
/// A message is a status byte and two data bytes; what follows them is not
/// read. The kind is the high four bits of the status byte, whatever channel
/// the low four name. A note-on with a velocity above 0 starts the note at
/// the frequency of its number; a note-off, or a note-on with velocity 0,
/// ends the note; a control change carries controller and value. Anything
/// else gives no event: a message under three bytes, a data byte with its
/// high bit set, or another kind.
pub open spec fn decoded(message: Seq<u8>) -> Option<SynthEvent> {
    if message.len() < 3 || message[1] > DATA_MAX || message[2] > DATA_MAX {
        None
    } else {
        let kind = message[0] / 16;
        if kind == NOTE_ON_KIND && message[2] > 0 {
            Some(SynthEvent::NoteOn(message[1], note_freq(message[1] as int) as u32))
        } else if kind == NOTE_OFF_KIND || kind == NOTE_ON_KIND {
            Some(SynthEvent::NoteOff(message[1]))
        } else if kind == CONTROL_CHANGE_KIND {
            Some(SynthEvent::ControlChange(message[1], message[2]))
        } else {
            None
        }
    }
}

/// Reads the event that a raw MIDI message stands for.
pub fn decode_midi(message: &[u8]) -> (event: Option<SynthEvent>)
    ensures
        event == decoded(message@),
{
    if message.len() < 3 {
        return None;
    }
    let status: u8 = message[0];
    let first: u8 = message[1];
    let second: u8 = message[2];
    if first > DATA_MAX || second > DATA_MAX {
        return None;
    }
    let kind: u8 = status / 16;
    if kind == NOTE_ON_KIND && second > 0 {
        Some(SynthEvent::NoteOn(first, midi_to_freq(first)))
    } else if kind == NOTE_OFF_KIND || kind == NOTE_ON_KIND {
        Some(SynthEvent::NoteOff(first))
    } else if kind == CONTROL_CHANGE_KIND {
        Some(SynthEvent::ControlChange(first, second))
    } else {
        None
    }
}

} // verus!
