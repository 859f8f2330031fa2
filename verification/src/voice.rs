//! One voice: a sawtooth oscillator shaped by an ADSR envelope, its pitch
//! bent by a low-frequency wave.

use vstd::prelude::*;
use crate::fixed::{
    advance_phase, advance_phase_of, effective_freq, effective_freq_of, lfo_wave, lfo_wave_of,
    ramp_rate, ramp_rate_of, saw_sample, saw_sample_of, ONE, WHEEL_LIMIT,
};

verus! {

/// Attack time of a new voice, in milliseconds.
pub const DEFAULT_ATTACK_MS: u32 = 100;

/// Decay time of a new voice, in milliseconds.
pub const DEFAULT_DECAY_MS: u32 = 100;

/// Release time of a new voice, in milliseconds.
pub const DEFAULT_RELEASE_MS: u32 = 300;

/// Sustain level of a new voice: 70% of full level, in Q32.
pub const DEFAULT_SUSTAIN: u64 = 0xb333_3333;

/// Modulation range of a new voice: 20 Hz, in millihertz.
pub const DEFAULT_MOD_RANGE: u32 = 20_000;

/// Frequency of the low-frequency wave of a new voice: 3.14 Hz, in millihertz.
pub const DEFAULT_LFO_FREQ: u32 = 3_140;

/// The sample rate that the ramps of a new voice are timed for, in hertz.
pub const DEFAULT_SAMPLE_RATE: u32 = 44_100;

/// The stage of a voice's envelope.
#[derive(Clone, Copy, Debug, PartialEq, Eq, Structural)]
pub enum VoiceState {
    Off,
    Attack,
    Decay,
    Sustain,
    Release,
}

/// What a voice is, as plain numbers: levels and phases in Q32, frequencies
/// in millihertz, rates in Q32 per sample.
pub struct VoiceModel {
    pub note: u8,
    pub freq: int,
    pub phase: int,
    pub lfo_phase: int,
    pub state: VoiceState,
    pub amplitude: int,
    pub attack_rate: int,
    pub decay_rate: int,
    pub sustain_level: int,
    pub release_rate: int,
    pub mod_wheel: int,
    pub mod_range: int,
    pub lfo_freq: int,
}

impl VoiceModel {
    /// The voice that `Voice::new` makes: silent, with the default settings.
    pub open spec fn initial() -> VoiceModel {
        VoiceModel {
            note: 0,
            freq: 0,
            phase: 0,
            lfo_phase: 0,
            state: VoiceState::Off,
            amplitude: 0,
            attack_rate: ramp_rate(DEFAULT_ATTACK_MS as int, DEFAULT_SAMPLE_RATE as int),
            decay_rate: ramp_rate(DEFAULT_DECAY_MS as int, DEFAULT_SAMPLE_RATE as int),
            sustain_level: DEFAULT_SUSTAIN as int,
            release_rate: ramp_rate(DEFAULT_RELEASE_MS as int, DEFAULT_SAMPLE_RATE as int),
            mod_wheel: 0,
            mod_range: DEFAULT_MOD_RANGE as int,
            lfo_freq: DEFAULT_LFO_FREQ as int,
        }
    }

    /// The invariant of a voice: amplitude and sustain level within
    /// `[0, ONE]`, both phases within `[0, ONE)`, a silent amplitude while
    /// off, rates that move the envelope, and settings within their ranges.
    pub open spec fn wf(self) -> bool {
        &&& 0 <= self.amplitude <= ONE
        &&& 0 <= self.phase < ONE
        &&& 0 <= self.lfo_phase < ONE
        &&& self.state == VoiceState::Off ==> self.amplitude == 0
        &&& 0 <= self.sustain_level <= ONE
        &&& 1 <= self.attack_rate <= ONE * 1000
        &&& 1 <= self.decay_rate <= ONE * 1000
        &&& 1 <= self.release_rate <= ONE * 1000
        &&& 0 <= self.freq <= u32::MAX
        &&& 0 <= self.mod_range <= u32::MAX
        &&& 0 <= self.lfo_freq <= u32::MAX
        &&& 0 <= self.mod_wheel <= WHEEL_LIMIT
    }

    /// The voice after a note starts: the note and its frequency are taken
    /// and the envelope enters `Attack` from the amplitude it has.
    pub open spec fn note_on(self, note: u8, freq: int) -> VoiceModel {
        VoiceModel { note, freq, state: VoiceState::Attack, ..self }
    }

    /// The voice after its note ends: the envelope enters `Release` from the
    /// amplitude it has.
    pub open spec fn note_off(self) -> VoiceModel {
        VoiceModel { state: VoiceState::Release, ..self }
    }

    /// The voice after one step of its envelope.
    pub open spec fn envelope_step(self) -> VoiceModel {
        match self.state {
            VoiceState::Attack => {
                let raised = self.amplitude + self.attack_rate;
                if raised >= ONE {
                    VoiceModel { amplitude: ONE as int, state: VoiceState::Decay, ..self }
                } else {
                    VoiceModel { amplitude: raised, ..self }
                }
            },
            VoiceState::Decay => {
                let lowered = self.amplitude - self.decay_rate;
                if lowered <= self.sustain_level {
                    VoiceModel {
                        amplitude: self.sustain_level,
                        state: VoiceState::Sustain,
                        ..self
                    }
                } else {
                    VoiceModel { amplitude: lowered, ..self }
                }
            },
            VoiceState::Sustain => self,
            VoiceState::Release => {
                let lowered = self.amplitude - self.release_rate;
                if lowered <= 0 {
                    VoiceModel { amplitude: 0, state: VoiceState::Off, phase: 0, ..self }
                } else {
                    VoiceModel { amplitude: lowered, ..self }
                }
            },
            VoiceState::Off => self,
        }
    }

    /// The frequency the oscillator runs at for the sample being rendered.
    pub open spec fn sounding_freq(self) -> int {
        effective_freq(self.freq, lfo_wave(self.lfo_phase), self.mod_wheel, self.mod_range)
    }

    /// The voice after rendering one sample at `sample_rate` hertz. A voice
    /// that is off stays as it is. Any other takes one envelope step, then
    /// both of its phases move on.
    pub open spec fn render(self, sample_rate: int) -> VoiceModel {
        if self.state == VoiceState::Off {
            self
        } else {
            let stepped = self.envelope_step();
            VoiceModel {
                lfo_phase: advance_phase(stepped.lfo_phase, stepped.lfo_freq, sample_rate),
                phase: advance_phase(stepped.phase, stepped.sounding_freq(), sample_rate),
                ..stepped
            }
        }
    }

    /// The voice after rendering `count` samples in a row.
    pub open spec fn after_renders(self, sample_rate: int, count: nat) -> VoiceModel
        decreases count,
    {
        if count == 0 {
            self
        } else {
            self.after_renders(sample_rate, (count - 1) as nat).render(sample_rate)
        }
    }

    /// The sample that rendering gives: silence from a voice that is off,
    /// else the sawtooth at the phase before it moves on, scaled by the
    /// amplitude after the envelope step.
    pub open spec fn sample(self) -> int {
        if self.state == VoiceState::Off {
            0
        } else {
            let stepped = self.envelope_step();
            saw_sample(stepped.phase, stepped.amplitude)
        }
    }
}

/// The level of the modulation wheel at a controller value: `value / 127` of
/// full level, in Q32.
pub open spec fn wheel_level(value: u8) -> int {
    value * ONE / 127
}

/// One sound generator of the pool.
#[derive(Clone, Copy, Debug)]
pub struct Voice {
    note: u8,
    freq: u32,
    phase: u64,
    lfo_phase: u64,
    state: VoiceState,
    amplitude: u64,
    attack_rate: u64,
    decay_rate: u64,
    sustain_level: u64,
    release_rate: u64,
    mod_wheel: u64,
    mod_range: u32,
    lfo_freq: u32,
}

impl View for Voice {
    type V = VoiceModel;

    closed spec fn view(&self) -> VoiceModel {
        VoiceModel {
            note: self.note,
            freq: self.freq as int,
            phase: self.phase as int,
            lfo_phase: self.lfo_phase as int,
            state: self.state,
            amplitude: self.amplitude as int,
            attack_rate: self.attack_rate as int,
            decay_rate: self.decay_rate as int,
            sustain_level: self.sustain_level as int,
            release_rate: self.release_rate as int,
            mod_wheel: self.mod_wheel as int,
            mod_range: self.mod_range as int,
            lfo_freq: self.lfo_freq as int,
        }
    }
}

impl Voice {
    /// Whether the voice satisfies its invariant.
    pub open spec fn wf(&self) -> bool {
        self@.wf()
    }

    /// A silent voice with the default settings, its ramps timed for
    /// `DEFAULT_SAMPLE_RATE`.
    pub fn new() -> (voice: Voice)
        ensures
            voice@ == VoiceModel::initial(),
            voice.wf(),
    {
        Voice {
            note: 0,
            freq: 0,
            phase: 0,
            lfo_phase: 0,
            state: VoiceState::Off,
            amplitude: 0,
            attack_rate: ramp_rate_of(DEFAULT_ATTACK_MS, DEFAULT_SAMPLE_RATE),
            decay_rate: ramp_rate_of(DEFAULT_DECAY_MS, DEFAULT_SAMPLE_RATE),
            sustain_level: DEFAULT_SUSTAIN,
            release_rate: ramp_rate_of(DEFAULT_RELEASE_MS, DEFAULT_SAMPLE_RATE),
            mod_wheel: 0,
            mod_range: DEFAULT_MOD_RANGE,
            lfo_freq: DEFAULT_LFO_FREQ,
        }
    }

    /// Starts a note at `freq` millihertz. The amplitude is kept, so a voice
    /// taken over while it fades attacks from where it is.
    pub fn note_on(&mut self, note: u8, freq: u32)
        requires
            old(self).wf(),
        ensures
            final(self)@ == old(self)@.note_on(note, freq as int),
            final(self).wf(),
    {
        self.note = note;
        self.freq = freq;
        self.state = VoiceState::Attack;
    }

    /// Ends the note: the envelope enters `Release`, whatever stage it was in.
    pub fn note_off(&mut self)
        requires
            old(self).wf(),
        ensures
            final(self)@ == old(self)@.note_off(),
            final(self).wf(),
    {
        self.state = VoiceState::Release;
    }

    /// Renders one sample at `sample_rate` hertz.
    pub fn render_next(&mut self, sample_rate: u32) -> (sample: i64)
        requires
            old(self).wf(),
            sample_rate > 0,
        ensures
            final(self)@ == old(self)@.render(sample_rate as int),
            sample == old(self)@.sample(),
            final(self).wf(),
            -final(self)@.amplitude <= sample <= final(self)@.amplitude,
    {
        if let VoiceState::Off = self.state {
            return 0;
        }
        self.update_envelope();
        let lfo: i64 = lfo_wave_of(self.lfo_phase);
        self.lfo_phase = advance_phase_of(self.lfo_phase, self.lfo_freq as u64, sample_rate);
        let freq: u64 = effective_freq_of(self.freq, lfo, self.mod_wheel, self.mod_range);
        let sample: i64 = saw_sample_of(self.phase, self.amplitude);
        self.phase = advance_phase_of(self.phase, freq, sample_rate);
        sample
    }

    /// Sets the attack time to `millis` milliseconds at `sample_rate` hertz.
    /// A time under one millisecond counts as one millisecond.
    pub fn set_attack(&mut self, millis: u32, sample_rate: u32)
        requires
            old(self).wf(),
            sample_rate > 0,
        ensures
            final(self)@ == (VoiceModel {
                attack_rate: ramp_rate(millis as int, sample_rate as int),
                ..old(self)@
            }),
            final(self).wf(),
    {
        self.attack_rate = ramp_rate_of(millis, sample_rate);
    }

    /// Sets the decay time to `millis` milliseconds at `sample_rate` hertz.
    /// A time under one millisecond counts as one millisecond.
    pub fn set_decay(&mut self, millis: u32, sample_rate: u32)
        requires
            old(self).wf(),
            sample_rate > 0,
        ensures
            final(self)@ == (VoiceModel {
                decay_rate: ramp_rate(millis as int, sample_rate as int),
                ..old(self)@
            }),
            final(self).wf(),
    {
        self.decay_rate = ramp_rate_of(millis, sample_rate);
    }

    /// Sets the release time to `millis` milliseconds at `sample_rate` hertz.
    /// A time under one millisecond counts as one millisecond.
    pub fn set_release(&mut self, millis: u32, sample_rate: u32)
        requires
            old(self).wf(),
            sample_rate > 0,
        ensures
            final(self)@ == (VoiceModel {
                release_rate: ramp_rate(millis as int, sample_rate as int),
                ..old(self)@
            }),
            final(self).wf(),
    {
        self.release_rate = ramp_rate_of(millis, sample_rate);
    }

    /// Sets the modulation wheel from a controller value: `value / 127` of
    /// full level, so 127 is `ONE`.
    pub fn set_mod_wheel(&mut self, value: u8)
        requires
            old(self).wf(),
        ensures
            final(self)@ == (VoiceModel { mod_wheel: wheel_level(value), ..old(self)@ }),
            final(self).wf(),
            value <= 127 ==> final(self)@.mod_wheel <= ONE,
    {
        self.mod_wheel = (value as u64) * ONE / 127;
    }

    /// Sets the modulation range, in millihertz.
    pub fn set_mod_range(&mut self, range: u32)
        requires
            old(self).wf(),
        ensures
            final(self)@ == (VoiceModel { mod_range: range as int, ..old(self)@ }),
            final(self).wf(),
    {
        self.mod_range = range;
    }

    /// Sets the frequency of the low-frequency wave, in millihertz.
    pub fn set_lfo_freq(&mut self, freq: u32)
        requires
            old(self).wf(),
        ensures
            final(self)@ == (VoiceModel { lfo_freq: freq as int, ..old(self)@ }),
            final(self).wf(),
    {
        self.lfo_freq = freq;
    }

    /// The number of the note last started.
    pub fn note(&self) -> (note: u8)
        ensures
            note == self@.note,
    {
        self.note
    }

    /// The base frequency of the note last started, in millihertz.
    pub fn freq(&self) -> (freq: u32)
        ensures
            freq == self@.freq,
    {
        self.freq
    }

    /// The stage of the envelope.
    pub fn state(&self) -> (state: VoiceState)
        ensures
            state == self@.state,
    {
        self.state
    }

    /// The amplitude, in Q32.
    pub fn amplitude(&self) -> (amplitude: u64)
        ensures
            amplitude == self@.amplitude,
    {
        self.amplitude
    }

    /// The phase of the oscillator, in Q32.
    pub fn phase(&self) -> (phase: u64)
        ensures
            phase == self@.phase,
    {
        self.phase
    }

    /// The phase of the low-frequency wave, in Q32.
    pub fn lfo_phase(&self) -> (phase: u64)
        ensures
            phase == self@.lfo_phase,
    {
        self.lfo_phase
    }

    /// The level of the modulation wheel, in Q32.
    pub fn mod_wheel(&self) -> (level: u64)
        ensures
            level == self@.mod_wheel,
    {
        self.mod_wheel
    }

    /// The modulation range, in millihertz.
    pub fn mod_range(&self) -> (range: u32)
        ensures
            range == self@.mod_range,
    {
        self.mod_range
    }

    /// The frequency of the low-frequency wave, in millihertz.
    pub fn lfo_freq(&self) -> (freq: u32)
        ensures
            freq == self@.lfo_freq,
    {
        self.lfo_freq
    }

    /// The sustain level, in Q32.
    pub fn sustain_level(&self) -> (level: u64)
        ensures
            level == self@.sustain_level,
    {
        self.sustain_level
    }

    /// The attack, decay and release steps per sample, in Q32.
    pub fn rates(&self) -> (rates: (u64, u64, u64))
        ensures
            rates.0 == self@.attack_rate,
            rates.1 == self@.decay_rate,
            rates.2 == self@.release_rate,
    {
        (self.attack_rate, self.decay_rate, self.release_rate)
    }

    /// Advances the envelope by one sample.
    fn update_envelope(&mut self)
        requires
            old(self).wf(),
        ensures
            final(self)@ == old(self)@.envelope_step(),
            final(self).wf(),
    {
        match self.state {
            VoiceState::Attack => {
                self.amplitude = self.amplitude + self.attack_rate;
                if self.amplitude >= ONE {
                    self.amplitude = ONE;
                    self.state = VoiceState::Decay;
                }
            },
            VoiceState::Decay => {
                if self.amplitude <= self.decay_rate
                    || self.amplitude - self.decay_rate <= self.sustain_level {
                    self.amplitude = self.sustain_level;
                    self.state = VoiceState::Sustain;
                } else {
                    self.amplitude = self.amplitude - self.decay_rate;
                }
            },
            VoiceState::Sustain => {},
            VoiceState::Release => {
                if self.amplitude <= self.release_rate {
                    self.amplitude = 0;
                    self.state = VoiceState::Off;
                    self.phase = 0;
                } else {
                    self.amplitude = self.amplitude - self.release_rate;
                }
            },
            VoiceState::Off => {},
        }
    }
}

} // verus!
