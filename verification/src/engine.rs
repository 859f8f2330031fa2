//! The voice pool: routes events to voices and mixes their samples.

use vstd::prelude::*;
use crate::common::{Param, SynthEvent, MAX_VOICES, MOD_WHEEL_CONTROLLER};
use crate::fixed::{ramp_rate, ONE};
use crate::voice::{
    wheel_level, Voice, VoiceModel, VoiceState, DEFAULT_ATTACK_MS, DEFAULT_DECAY_MS,
    DEFAULT_RELEASE_MS,
};

verus! {

/// The divisor that the sum of the voices is scaled down by: the mix is a
/// fifth of the sum.
pub const HEADROOM: i64 = 5;

/// The lowest index at or after `from` of a voice in the given state, or the
/// length of the pool if there is none.
pub open spec fn first_in_state(voices: Seq<VoiceModel>, state: VoiceState, from: int) -> int
    decreases voices.len() - from,
{
    if from < 0 || from >= voices.len() {
        voices.len() as int
    } else if voices[from].state == state {
        from
    } else {
        first_in_state(voices, state, from + 1)
    }
}

/// The lowest index at or after `from` of a voice that is not off and holds
/// the given note, or the length of the pool if there is none.
pub open spec fn first_holding(voices: Seq<VoiceModel>, note: u8, from: int) -> int
    decreases voices.len() - from,
{
    if from < 0 || from >= voices.len() {
        voices.len() as int
    } else if voices[from].state != VoiceState::Off && voices[from].note == note {
        from
    } else {
        first_holding(voices, note, from + 1)
    }
}

/// The sum of the samples that the first `count` voices give.
pub open spec fn sum_samples(voices: Seq<VoiceModel>, count: int) -> int
    decreases count,
{
    if count <= 0 {
        0
    } else {
        sum_samples(voices, count - 1) + voices[count - 1].sample()
    }
}

/// A fifth of a sum, rounded towards zero.
pub open spec fn attenuate(sum: int) -> int {
    if sum >= 0 {
        sum / (HEADROOM as int)
    } else {
        -((-sum) / (HEADROOM as int))
    }
}

/// The pool as plain values: the voices in pool order and the sample rate in
/// hertz.
pub struct EngineModel {
    pub voices: Seq<VoiceModel>,
    pub sample_rate: int,
}

impl EngineModel {
    /// A voice of a new engine: silent, with the default settings, its ramps
    /// timed for the engine's sample rate.
    pub open spec fn fresh_voice(sample_rate: int) -> VoiceModel {
        VoiceModel {
            attack_rate: ramp_rate(DEFAULT_ATTACK_MS as int, sample_rate),
            decay_rate: ramp_rate(DEFAULT_DECAY_MS as int, sample_rate),
            release_rate: ramp_rate(DEFAULT_RELEASE_MS as int, sample_rate),
            ..VoiceModel::initial()
        }
    }

    /// The engine that `SynthEngine::new` makes.
    pub open spec fn initial(sample_rate: int) -> EngineModel {
        EngineModel {
            voices: Seq::new(MAX_VOICES as nat, |i: int| Self::fresh_voice(sample_rate)),
            sample_rate,
        }
    }

    /// The invariant of the pool: exactly `MAX_VOICES` voices, each within
    /// its own invariant, and a positive sample rate.
    pub open spec fn wf(self) -> bool {
        &&& self.voices.len() == MAX_VOICES
        &&& forall|i: int| 0 <= i < self.voices.len() ==> (#[trigger] self.voices[i]).wf()
        &&& 0 < self.sample_rate <= u32::MAX
    }

    /// The index of the voice that a new note goes to: the first voice that
    /// is off; if none is, the first that is releasing; the length of the
    /// pool if there is neither.
    pub open spec fn allocation_target(self) -> int {
        let idle = first_in_state(self.voices, VoiceState::Off, 0);
        if idle < self.voices.len() {
            idle
        } else {
            first_in_state(self.voices, VoiceState::Release, 0)
        }
    }

    /// The pool after a note starts: the allocation target takes it, and the
    /// pool is unchanged if there is no target.
    pub open spec fn note_on(self, note: u8, freq: int) -> EngineModel {
        let target = self.allocation_target();
        if target < self.voices.len() {
            EngineModel {
                voices: self.voices.update(target, self.voices[target].note_on(note, freq)),
                ..self
            }
        } else {
            self
        }
    }

    /// The pool after a note ends: the first voice that is not off and holds
    /// the note is released, and the pool is unchanged if there is none.
    pub open spec fn note_off(self, note: u8) -> EngineModel {
        let target = first_holding(self.voices, note, 0);
        if target < self.voices.len() {
            EngineModel {
                voices: self.voices.update(target, self.voices[target].note_off()),
                ..self
            }
        } else {
            self
        }
    }

    /// The pool with the modulation wheel of every voice at a level.
    pub open spec fn with_mod_wheel(self, level: int) -> EngineModel {
        EngineModel {
            voices: Seq::new(
                self.voices.len(),
                |i: int| VoiceModel { mod_wheel: level, ..self.voices[i] },
            ),
            ..self
        }
    }

    /// The pool with the modulation range of every voice at a value.
    pub open spec fn with_mod_range(self, range: int) -> EngineModel {
        EngineModel {
            voices: Seq::new(
                self.voices.len(),
                |i: int| VoiceModel { mod_range: range, ..self.voices[i] },
            ),
            ..self
        }
    }

    /// The pool with the low-frequency wave of every voice at a frequency.
    pub open spec fn with_lfo_freq(self, freq: int) -> EngineModel {
        EngineModel {
            voices: Seq::new(
                self.voices.len(),
                |i: int| VoiceModel { lfo_freq: freq, ..self.voices[i] },
            ),
            ..self
        }
    }

    /// The pool after an event.
    ///
    /// A control change moves the modulation wheel of every voice if it is
    /// for the wheel's controller, and does nothing otherwise. A parameter
    /// change sets the modulation range or the frequency of the low-frequency
    /// wave of every voice; for the envelope parameters `Attack`, `Decay`,
    /// `Sustain` and `Release` it does nothing.
    pub open spec fn handle(self, event: SynthEvent) -> EngineModel {
        match event {
            SynthEvent::NoteOn(note, freq) => self.note_on(note, freq as int),
            SynthEvent::NoteOff(note) => self.note_off(note),
            SynthEvent::ControlChange(controller, value) => {
                if controller == MOD_WHEEL_CONTROLLER {
                    self.with_mod_wheel(wheel_level(value))
                } else {
                    self
                }
            },
            SynthEvent::ParamChange(param, value) => match param {
                Param::ModRange => self.with_mod_range(value as int),
                Param::LfoFreq => self.with_lfo_freq(value as int),
                Param::Attack | Param::Decay | Param::Sustain | Param::Release => self,
            },
        }
    }

    /// The pool after a sequence of events, handled in order.
    pub open spec fn handle_all(self, events: Seq<SynthEvent>) -> EngineModel
        decreases events.len(),
    {
        if events.len() == 0 {
            self
        } else {
            self.handle_all(events.drop_last()).handle(events.last())
        }
    }

    /// The pool after one sample: every voice has rendered once.
    pub open spec fn render(self) -> EngineModel {
        EngineModel {
            voices: Seq::new(self.voices.len(), |i: int| self.voices[i].render(self.sample_rate)),
            ..self
        }
    }

    /// The mixed sample: a fifth of the sum of what the voices give.
    pub open spec fn mixed(self) -> int {
        attenuate(sum_samples(self.voices, self.voices.len() as int))
    }
}

/// What `first_in_state` finds: an index from `from` to the length of the
/// pool, with no voice in the state before it, and a voice in the state at it
/// unless it is the length.
pub proof fn lemma_first_in_state(voices: Seq<VoiceModel>, state: VoiceState, from: int)
    requires
        0 <= from <= voices.len(),
    ensures
        from <= first_in_state(voices, state, from) <= voices.len(),
        first_in_state(voices, state, from) < voices.len() ==> voices[first_in_state(
            voices,
            state,
            from,
        )].state == state,
        forall|j: int|
            from <= j < first_in_state(voices, state, from) ==> (#[trigger] voices[j]).state
                != state,
    decreases voices.len() - from,
{
    if from < voices.len() && voices[from].state != state {
        lemma_first_in_state(voices, state, from + 1);
    }
}

/// What `first_holding` finds: an index from `from` to the length of the
/// pool, with no sounding voice on the note before it, and such a voice at it
/// unless it is the length.
pub proof fn lemma_first_holding(voices: Seq<VoiceModel>, note: u8, from: int)
    requires
        0 <= from <= voices.len(),
    ensures
        from <= first_holding(voices, note, from) <= voices.len(),
        first_holding(voices, note, from) < voices.len() ==> {
            let found = voices[first_holding(voices, note, from)];
            found.state != VoiceState::Off && found.note == note
        },
        forall|j: int|
            from <= j < first_holding(voices, note, from) ==> {
                let passed = #[trigger] voices[j];
                passed.state == VoiceState::Off || passed.note != note
            },
    decreases voices.len() - from,
{
    if from < voices.len() && !(voices[from].state != VoiceState::Off && voices[from].note
        == note) {
        lemma_first_holding(voices, note, from + 1);
    }
}

/// The pool of voices and the sample rate they are rendered at.
pub struct SynthEngine {
    voices: Vec<Voice>,
    sample_rate: u32,
}

impl View for SynthEngine {
    type V = EngineModel;

    closed spec fn view(&self) -> EngineModel {
        EngineModel {
            voices: Seq::new(self.voices@.len(), |i: int| self.voices@[i]@),
            sample_rate: self.sample_rate as int,
        }
    }
}

impl SynthEngine {
    /// Whether the engine satisfies its invariant.
    pub open spec fn wf(&self) -> bool {
        self@.wf()
    }

    /// Relates the model of the pool to the voices it is made of.
    proof fn lemma_model(&self)
        ensures
            self@.voices.len() == self.voices@.len(),
            self@.sample_rate == self.sample_rate,
            forall|j: int|
                0 <= j < self.voices@.len() ==> (#[trigger] self@.voices[j]) == self.voices@[j]@,
            self.wf() <==> {
                &&& self.voices@.len() == MAX_VOICES
                &&& forall|j: int|
                    0 <= j < self.voices@.len() ==> (#[trigger] self.voices@[j]).wf()
                &&& self.sample_rate > 0
            },
    {
        if self.voices@.len() == MAX_VOICES && self.sample_rate > 0 {
            if self.wf() {
                assert forall|j: int| 0 <= j < self.voices@.len() implies (
                #[trigger] self.voices@[j]).wf() by {
                    assert(self@.voices[j].wf());
                }
            }
        }
    }

    /// An engine of `MAX_VOICES` silent voices that renders at `sample_rate`
    /// hertz.
    pub fn new(sample_rate: u32) -> (engine: SynthEngine)
        requires
            sample_rate > 0,
        ensures
            engine@ == EngineModel::initial(sample_rate as int),
            engine.wf(),
    {
        let mut voices: Vec<Voice> = Vec::with_capacity(MAX_VOICES);
        let mut count: usize = 0;
        while count < MAX_VOICES
            invariant
                sample_rate > 0,
                count <= MAX_VOICES,
                voices@.len() == count,
                forall|j: int|
                    0 <= j < count ==> (#[trigger] voices@[j])@ == EngineModel::fresh_voice(
                        sample_rate as int,
                    ) && voices@[j].wf(),
            decreases MAX_VOICES - count,
        {
            let mut voice = Voice::new();
            voice.set_attack(DEFAULT_ATTACK_MS, sample_rate);
            voice.set_decay(DEFAULT_DECAY_MS, sample_rate);
            voice.set_release(DEFAULT_RELEASE_MS, sample_rate);
            voices.push(voice);
            count = count + 1;
        }
        let engine = SynthEngine { voices, sample_rate };
        proof {
            engine.lemma_model();
        }
        assert(engine@.voices =~= EngineModel::initial(sample_rate as int).voices);
        engine
    }

    /// The sample rate, in hertz.
    pub fn sample_rate(&self) -> (rate: u32)
        ensures
            rate == self@.sample_rate,
    {
        self.sample_rate
    }

    /// A copy of the voice at `index` in pool order.
    pub fn voice(&self, index: usize) -> (voice: Voice)
        requires
            self.wf(),
            index < MAX_VOICES,
        ensures
            voice@ == self@.voices[index as int],
            voice.wf(),
    {
        proof {
            self.lemma_model();
        }
        self.voices[index]
    }

    /// The index of the first voice in `state`, or `MAX_VOICES`.
    fn find_in_state(&self, state: VoiceState) -> (index: usize)
        requires
            self.wf(),
        ensures
            index == first_in_state(self@.voices, state, 0),
            index <= MAX_VOICES,
    {
        proof {
            self.lemma_model();
        }
        let mut index: usize = 0;
        while index < MAX_VOICES
            invariant
                self.wf(),
                index <= MAX_VOICES,
                first_in_state(self@.voices, state, 0) == first_in_state(
                    self@.voices,
                    state,
                    index as int,
                ),
            decreases MAX_VOICES - index,
        {
            if self.voices[index].state() == state {
                return index;
            }
            index = index + 1;
        }
        index
    }

    /// The index of the first sounding voice that holds `note`, or
    /// `MAX_VOICES`.
    fn find_holding(&self, note: u8) -> (index: usize)
        requires
            self.wf(),
        ensures
            index == first_holding(self@.voices, note, 0),
            index <= MAX_VOICES,
    {
        proof {
            self.lemma_model();
        }
        let mut index: usize = 0;
        while index < MAX_VOICES
            invariant
                self.wf(),
                index <= MAX_VOICES,
                first_holding(self@.voices, note, 0) == first_holding(
                    self@.voices,
                    note,
                    index as int,
                ),
            decreases MAX_VOICES - index,
        {
            if self.voices[index].state() != VoiceState::Off && self.voices[index].note() == note {
                return index;
            }
            index = index + 1;
        }
        index
    }

    /// Applies one event to the pool.
    pub fn handle_event(&mut self, event: SynthEvent)
        requires
            old(self).wf(),
        ensures
            final(self)@ == old(self)@.handle(event),
            final(self).wf(),
    {
        proof {
            self.lemma_model();
        }
        let ghost before: Seq<VoiceModel> = self@.voices;
        match event {
            SynthEvent::NoteOn(note, freq) => {
                let mut target: usize = self.find_in_state(VoiceState::Off);
                if target >= MAX_VOICES {
                    target = self.find_in_state(VoiceState::Release);
                }
                if target < MAX_VOICES {
                    self.voices[target].note_on(note, freq);
                    proof {
                        self.lemma_model();
                    }
                    assert(self@.voices =~= old(self)@.note_on(note, freq as int).voices);
                }
            },
            SynthEvent::NoteOff(note) => {
                let target: usize = self.find_holding(note);
                if target < MAX_VOICES {
                    self.voices[target].note_off();
                    proof {
                        self.lemma_model();
                    }
                    assert(self@.voices =~= old(self)@.note_off(note).voices);
                }
            },
            SynthEvent::ControlChange(controller, value) => {
                if controller == MOD_WHEEL_CONTROLLER {
                    let mut index: usize = 0;
                    while index < MAX_VOICES
                        invariant
                            index <= MAX_VOICES,
                            before.len() == MAX_VOICES,
                            self.voices@.len() == MAX_VOICES,
                            self.sample_rate == old(self).sample_rate,
                            forall|j: int| 0 <= j < MAX_VOICES ==> (#[trigger] self.voices@[j]).wf(),
                            forall|j: int|
                                0 <= j < index ==> (#[trigger] self.voices@[j])@ == (VoiceModel {
                                    mod_wheel: wheel_level(value),
                                    ..before[j]
                                }),
                            forall|j: int|
                                index <= j < MAX_VOICES ==> (#[trigger] self.voices@[j])@ == before[j],
                        decreases MAX_VOICES - index,
                    {
                        self.voices[index].set_mod_wheel(value);
                        index = index + 1;
                    }
                    proof {
                        self.lemma_model();
                    }
                    assert(self@.voices =~= old(self)@.with_mod_wheel(wheel_level(value)).voices);
                }
            },
            SynthEvent::ParamChange(param, value) => {
                match param {
                    Param::ModRange => {
                        let mut index: usize = 0;
                        while index < MAX_VOICES
                            invariant
                                index <= MAX_VOICES,
                                before.len() == MAX_VOICES,
                                self.voices@.len() == MAX_VOICES,
                                self.sample_rate == old(self).sample_rate,
                                forall|j: int| 0 <= j < MAX_VOICES ==> (#[trigger] self.voices@[j]).wf(),
                                forall|j: int|
                                    0 <= j < index ==> (#[trigger] self.voices@[j])@ == (VoiceModel {
                                        mod_range: value as int,
                                        ..before[j]
                                    }),
                                forall|j: int|
                                    index <= j < MAX_VOICES ==> (#[trigger] self.voices@[j])@ == before[j],
                            decreases MAX_VOICES - index,
                        {
                            self.voices[index].set_mod_range(value);
                            index = index + 1;
                        }
                        proof {
                            self.lemma_model();
                        }
                        assert(self@.voices =~= old(self)@.with_mod_range(value as int).voices);
                    },
                    Param::LfoFreq => {
                        let mut index: usize = 0;
                        while index < MAX_VOICES
                            invariant
                                index <= MAX_VOICES,
                                before.len() == MAX_VOICES,
                                self.voices@.len() == MAX_VOICES,
                                self.sample_rate == old(self).sample_rate,
                                forall|j: int| 0 <= j < MAX_VOICES ==> (#[trigger] self.voices@[j]).wf(),
                                forall|j: int|
                                    0 <= j < index ==> (#[trigger] self.voices@[j])@ == (VoiceModel {
                                        lfo_freq: value as int,
                                        ..before[j]
                                    }),
                                forall|j: int|
                                    index <= j < MAX_VOICES ==> (#[trigger] self.voices@[j])@ == before[j],
                            decreases MAX_VOICES - index,
                        {
                            self.voices[index].set_lfo_freq(value);
                            index = index + 1;
                        }
                        proof {
                            self.lemma_model();
                        }
                        assert(self@.voices =~= old(self)@.with_lfo_freq(value as int).voices);
                    },
                    Param::Attack | Param::Decay | Param::Sustain | Param::Release => {},
                }
            },
        }
    }

    /// Renders one sample from every voice and mixes them. The mix is a
    /// fifth of the sum, so it leaves the range from `-ONE` to `ONE` when
    /// more than five voices are loud at once.
    pub fn next_sample(&mut self) -> (sample: i64)
        requires
            old(self).wf(),
        ensures
            final(self)@ == old(self)@.render(),
            sample == old(self)@.mixed(),
            final(self).wf(),
            -(MAX_VOICES * ONE) / 5 <= sample <= (MAX_VOICES * ONE) / 5,
    {
        proof {
            self.lemma_model();
        }
        let ghost before: Seq<VoiceModel> = self@.voices;
        let mut sum: i64 = 0;
        let mut index: usize = 0;
        while index < MAX_VOICES
            invariant
                index <= MAX_VOICES,
                before.len() == MAX_VOICES,
                self.voices@.len() == MAX_VOICES,
                self.sample_rate == old(self).sample_rate,
                self.sample_rate > 0,
                forall|j: int| 0 <= j < MAX_VOICES ==> (#[trigger] self.voices@[j]).wf(),
                forall|j: int|
                    0 <= j < index ==> (#[trigger] self.voices@[j])@ == before[j].render(
                        self.sample_rate as int,
                    ),
                forall|j: int|
                    index <= j < MAX_VOICES ==> (#[trigger] self.voices@[j])@ == before[j],
                sum == sum_samples(before, index as int),
                -(index * ONE) <= sum <= index * ONE,
            decreases MAX_VOICES - index,
        {
            let sample: i64 = self.voices[index].render_next(self.sample_rate);
            sum = sum + sample;
            index = index + 1;
        }
        proof {
            self.lemma_model();
        }
        assert(self@.voices =~= old(self)@.render().voices);
        if sum >= 0 {
            sum / HEADROOM
        } else {
            -((-sum) / HEADROOM)
        }
    }
}

} // verus!
