//! Helpers for the program around the engine: message prefixes and the
//! frequencies of MIDI notes.

use vstd::prelude::*;
use vstd::arithmetic::power2::{lemma_pow2_adds, lemma_pow2_pos, lemma2_to64, pow2};
use vstd::string::StringExecFns;

verus! {

/// How important a message is.
#[derive(Clone, Copy, Debug, PartialEq, Eq, Structural)]
pub enum LogLevel {
    Prompt,
    Info,
    Warning,
    Error,
    Midi,
}

/// The tag that a message of a level starts with: nothing for a prompt.
pub open spec fn prefix_of(level: LogLevel) -> Seq<char> {
    match level {
        LogLevel::Prompt => ""@,
        LogLevel::Info => "[INFO]"@,
        LogLevel::Warning => "[WARNING]"@,
        LogLevel::Error => "[ERROR]"@,
        LogLevel::Midi => "[MIDI]"@,
    }
}

/// The tag that a message of a level starts with.
pub fn prefix(level: LogLevel) -> (tag: &'static str)
    ensures
        tag@ == prefix_of(level),
{
    match level {
        LogLevel::Prompt => "",
        LogLevel::Info => "[INFO]",
        LogLevel::Warning => "[WARNING]",
        LogLevel::Error => "[ERROR]",
        LogLevel::Midi => "[MIDI]",
    }
}

/// The line that reports a message: the tag of its level, a space, and the
/// message.
pub fn format_message(level: LogLevel, message: &str) -> (line: String)
    ensures
        line@ == prefix_of(level) + " "@ + message@,
{
    let mut line = String::from_str(prefix(level));
    line.append(" ");
    line.append(message);
    line
}

/// The frequency of the note that the others are tuned from, in millihertz.
pub const CONCERT_PITCH: u32 = 440_000;

/// The number of the note that sounds at `CONCERT_PITCH`.
pub const CONCERT_NOTE: u8 = 69;

/// The twelfth power of an integer.
pub open spec fn pow12(x: int) -> int {
    let square = x * x;
    let fourth = square * square;
    fourth * fourth * fourth
}

/// Whether `freq` is the frequency of a note in equal temperament, rounded
/// down to a whole millihertz: `freq <= 440000 * 2^((note - 69) / 12) < freq + 1`.
/// The bounds are stated without roots, each side raised to the twelfth power
/// and multiplied by `2^69`.
pub open spec fn is_note_freq(note: int, freq: int) -> bool {
    &&& 0 <= note
    &&& 0 <= freq
    &&& pow12(freq) * pow2(CONCERT_NOTE as nat) <= pow12(CONCERT_PITCH as int) * pow2(note as nat)
    &&& pow12(CONCERT_PITCH as int) * pow2(note as nat) < pow12(freq + 1) * pow2(
        CONCERT_NOTE as nat,
    )
}

/// The frequency of a note in equal temperament, in millihertz, rounded down.
pub open spec fn note_freq(note: int) -> int {
    choose|freq: int| is_note_freq(note, freq)
}

/// The twelfth power grows with its argument, over the integers from 0.
pub proof fn lemma_pow12_grows(low: int, high: int)
    requires
        0 <= low <= high,
    ensures
        0 <= pow12(low) <= pow12(high),
{
    let (a2, b2) = (low * low, high * high);
    assert(0 <= a2 <= b2) by (nonlinear_arith)
        requires 0 <= low <= high, a2 == low * low, b2 == high * high;
    let (a4, b4) = (a2 * a2, b2 * b2);
    assert(0 <= a4 <= b4) by (nonlinear_arith)
        requires 0 <= a2 <= b2, a4 == a2 * a2, b4 == b2 * b2;
    let (a8, b8) = (a4 * a4, b4 * b4);
    assert(0 <= a8 <= b8) by (nonlinear_arith)
        requires 0 <= a4 <= b4, a8 == a4 * a4, b8 == b4 * b4;
    assert(0 <= a8 * a4 <= b8 * b4) by (nonlinear_arith)
        requires 0 <= a4 <= b4, 0 <= a8 <= b8;
}

/// Doubling an integer multiplies its twelfth power by 4096.
pub proof fn lemma_pow12_of_double(x: int)
    ensures
        pow12(2 * x) == 4096 * pow12(x),
{
    let x2 = x * x;
    let d2 = (2 * x) * (2 * x);
    assert(d2 == 4 * x2) by (nonlinear_arith)
        requires d2 == (2 * x) * (2 * x), x2 == x * x;
    let x4 = x2 * x2;
    let d4 = d2 * d2;
    assert(d4 == 16 * x4) by (nonlinear_arith)
        requires d4 == d2 * d2, d2 == 4 * x2, x4 == x2 * x2;
    let x8 = x4 * x4;
    let d8 = d4 * d4;
    assert(d8 == 256 * x8) by (nonlinear_arith)
        requires d8 == d4 * d4, d4 == 16 * x4, x8 == x4 * x4;
    assert(d8 * d4 == 4096 * (x8 * x4)) by (nonlinear_arith)
        requires d8 == 256 * x8, d4 == 16 * x4;
}

/// Half the frequency of a note, rounded down, is the frequency of the note
/// an octave below.
pub proof fn lemma_octave_below(note: int, freq: int)
    requires
        note >= 12,
        is_note_freq(note, freq),
    ensures
        is_note_freq(note - 12, freq / 2),
{
    let half = freq / 2;
    let rest = pow2(CONCERT_NOTE as nat);
    let scale = pow2((note - 12) as nat);
    let pitch = pow12(CONCERT_PITCH as int);
    lemma_pow2_adds((note - 12) as nat, 12);
    lemma2_to64();
    lemma_pow2_pos(CONCERT_NOTE as nat);
    assert(pow2(note as nat) == scale * 4096);
    lemma_pow12_grows(2 * half, freq);
    lemma_pow12_grows(freq + 1, 2 * (half + 1));
    lemma_pow12_of_double(half);
    lemma_pow12_of_double(half + 1);
    let below = pow12(half);
    let above = pow12(half + 1);
    assert(below * rest <= pitch * scale) by (nonlinear_arith)
        requires
            4096 * below <= pow12(freq),
            pow12(freq) * rest <= pitch * (scale * 4096),
            rest > 0;
    assert(pitch * scale < above * rest) by (nonlinear_arith)
        requires
            pow12(freq + 1) <= 4096 * above,
            pitch * (scale * 4096) < pow12(freq + 1) * rest,
            rest > 0;
}

/// A note has one frequency: two that both lie within its bounds are equal,
/// and both are `note_freq` of the note.
pub proof fn lemma_note_freq_unique(note: int, freq: int, other: int)
    requires
        is_note_freq(note, freq),
        is_note_freq(note, other),
    ensures
        freq == other,
        freq == note_freq(note),
{
    let rest = pow2(CONCERT_NOTE as nat);
    lemma_pow2_pos(CONCERT_NOTE as nat);
    if freq < other {
        lemma_pow12_grows(freq + 1, other);
        assert(pow12(freq + 1) * rest <= pow12(other) * rest) by (nonlinear_arith)
            requires pow12(freq + 1) <= pow12(other), rest > 0;
    }
    if other < freq {
        lemma_pow12_grows(other + 1, freq);
        assert(pow12(other + 1) * rest <= pow12(freq) * rest) by (nonlinear_arith)
            requires pow12(other + 1) <= pow12(freq), rest > 0;
    }
    if note_freq(note) != freq {
        let chosen = note_freq(note);
        assert(is_note_freq(note, chosen));
        let rest = pow2(CONCERT_NOTE as nat);
        if freq < chosen {
            lemma_pow12_grows(freq + 1, chosen);
            assert(pow12(freq + 1) * rest <= pow12(chosen) * rest) by (nonlinear_arith)
                requires pow12(freq + 1) <= pow12(chosen), rest > 0;
        } else {
            lemma_pow12_grows(chosen + 1, freq);
            assert(pow12(chosen + 1) * rest <= pow12(freq) * rest) by (nonlinear_arith)
                requires pow12(chosen + 1) <= pow12(freq), rest > 0;
        }
    }
}

/// A frequency that lies within the bounds of a note of the highest octave,
/// once the common factor `2^69` is taken out, is the frequency of that note.
proof fn lemma_top_octave(semitone: nat, freq: int, scale: int)
    requires
        semitone < 12,
        0 <= freq,
        scale == pow2(32) * pow2(19 + semitone),
        pow12(freq) <= pow12(CONCERT_PITCH as int) * scale < pow12(freq + 1),
    ensures
        is_note_freq((120 + semitone) as int, freq),
{
    let rest = pow2(CONCERT_NOTE as nat);
    lemma_pow2_pos(CONCERT_NOTE as nat);
    lemma_pow2_adds(32, 19 + semitone);
    lemma_pow2_adds(CONCERT_NOTE as nat, 51 + semitone);
    assert(pow2((120 + semitone) as nat) == rest * scale);
    let pitch = pow12(CONCERT_PITCH as int);
    assert(pow12(freq) * rest <= pitch * (rest * scale) < pow12(freq + 1) * rest)
        by (nonlinear_arith)
        requires pow12(freq) <= pitch * scale < pow12(freq + 1), rest > 0;
}

/// The frequency, in millihertz, of the note `semitone` steps above note 120,
/// the lowest note of the highest octave that MIDI numbers reach into.
fn top_octave_freq(semitone: u8) -> (freq: u32)
    requires
        semitone < 12,
    ensures
        is_note_freq(120 + semitone, freq as int),
{
    proof {
        lemma2_to64();
    }
    match semitone {
        0 => {
            proof {
                assert(pow12(8_372_018) <= pow12(440_000) * 0x8000000000000 < pow12(8_372_019))
                    by (nonlinear_arith);
                lemma_top_octave(0, 8_372_018, 0x8000000000000);
            }
            8_372_018
        },
        1 => {
            proof {
                assert(pow12(8_869_844) <= pow12(440_000) * 0x10000000000000 < pow12(8_869_845))
                    by (nonlinear_arith);
                lemma_top_octave(1, 8_869_844, 0x10000000000000);
            }
            8_869_844
        },
        2 => {
            proof {
                assert(pow12(9_397_272) <= pow12(440_000) * 0x20000000000000 < pow12(9_397_273))
                    by (nonlinear_arith);
                lemma_top_octave(2, 9_397_272, 0x20000000000000);
            }
            9_397_272
        },
        3 => {
            proof {
                assert(pow12(9_956_063) <= pow12(440_000) * 0x40000000000000 < pow12(9_956_064))
                    by (nonlinear_arith);
                lemma_top_octave(3, 9_956_063, 0x40000000000000);
            }
            9_956_063
        },
        4 => {
            proof {
                assert(pow12(10_548_081) <= pow12(440_000) * 0x80000000000000 < pow12(10_548_082))
                    by (nonlinear_arith);
                lemma_top_octave(4, 10_548_081, 0x80000000000000);
            }
            10_548_081
        },
        5 => {
            proof {
                assert(pow12(11_175_303) <= pow12(440_000) * 0x100000000000000 < pow12(11_175_304))
                    by (nonlinear_arith);
                lemma_top_octave(5, 11_175_303, 0x100000000000000);
            }
            11_175_303
        },
        6 => {
            proof {
                assert(pow12(11_839_821) <= pow12(440_000) * 0x200000000000000 < pow12(11_839_822))
                    by (nonlinear_arith);
                lemma_top_octave(6, 11_839_821, 0x200000000000000);
            }
            11_839_821
        },
        7 => {
            proof {
                assert(pow12(12_543_853) <= pow12(440_000) * 0x400000000000000 < pow12(12_543_854))
                    by (nonlinear_arith);
                lemma_top_octave(7, 12_543_853, 0x400000000000000);
            }
            12_543_853
        },
        8 => {
            proof {
                assert(pow12(13_289_750) <= pow12(440_000) * 0x800000000000000 < pow12(13_289_751))
                    by (nonlinear_arith);
                lemma_top_octave(8, 13_289_750, 0x800000000000000);
            }
            13_289_750
        },
        9 => {
            proof {
                assert(pow12(14_080_000) <= pow12(440_000) * 0x1000000000000000 < pow12(14_080_001))
                    by (nonlinear_arith);
                lemma_top_octave(9, 14_080_000, 0x1000000000000000);
            }
            14_080_000
        },
        10 => {
            proof {
                assert(pow12(14_917_240) <= pow12(440_000) * 0x2000000000000000 < pow12(14_917_241))
                    by (nonlinear_arith);
                lemma_top_octave(10, 14_917_240, 0x2000000000000000);
            }
            14_917_240
        },
        _ => {
            proof {
                assert(pow12(15_804_265) <= pow12(440_000) * 0x4000000000000000 < pow12(15_804_266))
                    by (nonlinear_arith);
                lemma_top_octave(11, 15_804_265, 0x4000000000000000);
            }
            15_804_265
        },
    }
}

/// The frequency of a MIDI note in equal temperament, in millihertz, rounded
/// down: `440000 * 2^((note - 69) / 12)`.
pub fn midi_to_freq(note: u8) -> (freq: u32)
    requires
        note <= 127,
    ensures
        is_note_freq(note as int, freq as int),
        freq == note_freq(note as int),
{
    let mut freq: u32 = top_octave_freq(note % 12);
    let mut at: u8 = 120 + note % 12;
    while at > note
        invariant
            is_note_freq(at as int, freq as int),
            note <= at <= 131,
            (at - note) % 12 == 0,
        decreases at,
    {
        proof {
            lemma_octave_below(at as int, freq as int);
        }
        freq = freq / 2;
        at = at - 12;
    }
    proof {
        lemma_note_freq_unique(note as int, freq as int, freq as int);
    }
    freq
}

} // verus!
