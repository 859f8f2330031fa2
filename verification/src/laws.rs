//! What holds of every voice and every pool, proved from the models.

use vstd::prelude::*;
use crate::common::{Param, SynthEvent, MAX_VOICES, MOD_WHEEL_CONTROLLER};
use crate::engine::{
    first_holding, first_in_state, lemma_first_holding, lemma_first_in_state, EngineModel,
};
use crate::fixed::{
    half_wave, lemma_half_wave_bounds, lemma_quotient_bounds, lemma_saw_sample_bounds, lfo_wave,
    ramp_rate, FREQ_LIMIT, HALF, ONE,
};
use crate::voice::{wheel_level, VoiceModel, VoiceState};

verus! {

/// A voice within its invariant has an amplitude from 0 to `ONE` and both
/// phases from 0 to below `ONE`, and is silent while it is off.
pub proof fn lemma_voice_ranges(voice: VoiceModel)
    requires
        voice.wf(),
    ensures
        0 <= voice.amplitude <= ONE,
        0 <= voice.phase < ONE,
        0 <= voice.lfo_phase < ONE,
        voice.state == VoiceState::Off ==> voice.amplitude == 0,
{
}

/// A new voice is within its invariant, and every operation on a voice
/// keeps it there: starting a note, ending it, an envelope step, and
/// rendering a sample at any positive sample rate.
pub proof fn lemma_voice_invariant(voice: VoiceModel, note: u8, freq: u32, sample_rate: int)
    requires
        voice.wf(),
        0 < sample_rate,
    ensures
        VoiceModel::initial().wf(),
        voice.note_on(note, freq as int).wf(),
        voice.note_off().wf(),
        voice.envelope_step().wf(),
        voice.render(sample_rate).wf(),
{
    lemma_ramp_rate_bounds(crate::voice::DEFAULT_ATTACK_MS as int, crate::voice::DEFAULT_SAMPLE_RATE as int);
    lemma_ramp_rate_bounds(crate::voice::DEFAULT_RELEASE_MS as int, crate::voice::DEFAULT_SAMPLE_RATE as int);
}

/// A ramp rate is at least 1 and at most `1000 * ONE`, whatever the time, at
/// a positive sample rate.
pub proof fn lemma_ramp_rate_bounds(millis: int, sample_rate: int)
    requires
        0 < sample_rate,
    ensures
        1 <= ramp_rate(millis, sample_rate) <= ONE * 1000,
{
    let span = (if millis < 1 { 1 } else { millis }) * sample_rate;
    assert(span >= 1) by (nonlinear_arith)
        requires span == (if millis < 1 { 1 } else { millis }) * sample_rate, sample_rate >= 1;
    let full = ONE * 1000;
    lemma_quotient_bounds(full, span);
    let q = full / span;
    let r = full % span;
    assert(r == 0 ==> q >= 1) by (nonlinear_arith)
        requires full == span * q + r, full > 0, q >= 0;
    assert(r != 0 ==> q + 1 <= full) by (nonlinear_arith)
        requires full == span * q + r, 0 <= r < span, q >= 0, full > 0;
}

/// A voice that is off gives the sample 0 when rendered and does not change:
/// neither phase moves.
pub proof fn lemma_off_is_silent(voice: VoiceModel, sample_rate: int)
    requires
        voice.wf(),
        voice.state == VoiceState::Off,
    ensures
        voice.amplitude == 0,
        voice.sample() == 0,
        voice.render(sample_rate) == voice,
{
}

/// A voice that is off stays off and unchanged through any number of
/// renders.
pub proof fn lemma_off_stays_off(voice: VoiceModel, sample_rate: int, count: nat)
    requires
        voice.state == VoiceState::Off,
    ensures
        voice.after_renders(sample_rate, count) == voice,
    decreases count,
{
    if count > 0 {
        lemma_off_stays_off(voice, sample_rate, (count - 1) as nat);
    }
}

/// A sample is never larger in size than the amplitude of the voice after
/// the render.
pub proof fn lemma_sample_within_amplitude(voice: VoiceModel, sample_rate: int)
    requires
        voice.wf(),
        0 < sample_rate,
    ensures
        -voice.render(sample_rate).amplitude <= voice.sample() <= voice.render(
            sample_rate,
        ).amplitude,
{
    if voice.state != VoiceState::Off {
        let stepped = voice.envelope_step();
        lemma_saw_sample_bounds(stepped.phase, stepped.amplitude);
    }
}

/// The low-frequency wave has the shape of a sine: it is 0 at the start of
/// the turn and at the half turn, `ONE` at the quarter turn and `-ONE` at
/// three quarters, it stays between `-ONE` and `ONE`, and the second half
/// turn mirrors the first below zero.
pub proof fn lemma_lfo_wave_shape(phase: int)
    requires
        0 <= phase < ONE,
    ensures
        -ONE <= lfo_wave(phase) <= ONE,
        phase < HALF ==> lfo_wave(phase) >= 0 && lfo_wave(phase + HALF) == -lfo_wave(phase),
        phase >= HALF ==> lfo_wave(phase) <= 0,
        lfo_wave(0) == 0,
        lfo_wave((ONE / 4) as int) == ONE,
        lfo_wave(HALF as int) == 0,
        lfo_wave(3 * (ONE / 4) as int) == -ONE,
{
    if phase < HALF {
        lemma_half_wave_bounds(phase);
    } else {
        lemma_half_wave_bounds(phase - HALF);
    }
    assert(half_wave(0) == 0) by (nonlinear_arith);
    assert(half_wave((ONE / 4) as int) == ONE) by (nonlinear_arith);
}

/// The frequency an oscillator runs at is never below zero and never above
/// `FREQ_LIMIT`.
pub proof fn lemma_sounding_freq_bounds(voice: VoiceModel)
    requires
        voice.wf(),
    ensures
        0 <= voice.sounding_freq() <= FREQ_LIMIT,
{
    let lfo = lfo_wave(voice.lfo_phase);
    lemma_lfo_wave_shape(voice.lfo_phase);
    let size = if lfo < 0 { -lfo } else { lfo };
    let product = size * voice.mod_wheel * voice.mod_range;
    let unit = ONE * ONE;
    assert(0 <= product <= (0x1_0000_0000 * 0x2_0204_0810) * 0xffff_ffff) by (nonlinear_arith)
        requires
            0 <= size <= 0x1_0000_0000,
            0 <= voice.mod_wheel <= 0x2_0204_0810,
            0 <= voice.mod_range <= 0xffff_ffff,
            product == size * voice.mod_wheel * voice.mod_range;
    lemma_quotient_bounds(product, unit);
    assert(product / unit <= 0xc_0000_0000) by (nonlinear_arith)
        requires
            product == unit * (product / unit) + product % unit,
            product % unit >= 0,
            unit == 0x1_0000_0000_0000_0000,
            product <= (0x1_0000_0000 * 0x2_0204_0810) * 0xffff_ffff;
}

/// While the attack has not reached full level, the amplitude rises by the
/// attack rate with every render: after `count` renders that stay below
/// `ONE` the voice is still in `Attack`, `count` rates above where it began.
pub proof fn lemma_attack_rises(voice: VoiceModel, sample_rate: int, count: nat)
    requires
        voice.wf(),
        voice.state == VoiceState::Attack,
        voice.amplitude + count * voice.attack_rate < ONE,
    ensures
        voice.after_renders(sample_rate, count).state == VoiceState::Attack,
        voice.after_renders(sample_rate, count).amplitude == voice.amplitude + count
            * voice.attack_rate,
        voice.after_renders(sample_rate, count).attack_rate == voice.attack_rate,
    decreases count,
{
    if count > 0 {
        let fewer = (count - 1) as nat;
        assert(voice.amplitude + fewer * voice.attack_rate < ONE
            && fewer * voice.attack_rate + voice.attack_rate == count * voice.attack_rate)
            by (nonlinear_arith)
            requires
                voice.amplitude + count * voice.attack_rate < ONE,
                voice.attack_rate >= 1,
                fewer == count - 1;
        lemma_attack_rises(voice, sample_rate, fewer);
    }
}

/// The attack ends at full level: on the first render that would carry the
/// amplitude to `ONE` or beyond, the amplitude is exactly `ONE` and the voice
/// enters `Decay`.
pub proof fn lemma_attack_peaks(voice: VoiceModel, sample_rate: int, count: nat)
    requires
        voice.wf(),
        voice.state == VoiceState::Attack,
        count >= 1,
        voice.amplitude + (count - 1) * voice.attack_rate < ONE || count == 1,
        voice.amplitude + count * voice.attack_rate >= ONE,
    ensures
        voice.after_renders(sample_rate, count).state == VoiceState::Decay,
        voice.after_renders(sample_rate, count).amplitude == ONE,
{
    let fewer = (count - 1) as nat;
    assert(fewer * voice.attack_rate + voice.attack_rate == count * voice.attack_rate)
        by (nonlinear_arith)
        requires fewer == count - 1;
    if count == 1 {
        assert(voice.after_renders(sample_rate, 0) == voice);
    } else {
        lemma_attack_rises(voice, sample_rate, fewer);
    }
}

/// An attack set for `millis` milliseconds is over within that time: within
/// any number of samples that lasts at least as long, there is a render that
/// brings the amplitude to exactly `ONE` and the voice into `Decay`, and up
/// to that render the amplitude rises with every sample.
pub proof fn lemma_attack_completes_in_time(
    voice: VoiceModel,
    millis: int,
    sample_rate: int,
    samples: nat,
) -> (last: nat)
    requires
        voice.wf(),
        voice.state == VoiceState::Attack,
        0 < sample_rate,
        voice.attack_rate == ramp_rate(millis, sample_rate),
        samples * 1000 >= (if millis < 1 { 1 } else { millis }) * sample_rate,
    ensures
        1 <= last <= samples,
        voice.after_renders(sample_rate, last).state == VoiceState::Decay,
        voice.after_renders(sample_rate, last).amplitude == ONE,
        forall|earlier: nat|
            earlier < last ==> {
                let before = #[trigger] voice.after_renders(sample_rate, earlier);
                &&& before.state == VoiceState::Attack
                &&& before.amplitude == voice.amplitude + earlier * voice.attack_rate
            },
{
    let rate = voice.attack_rate;
    let gap = ONE - voice.amplitude;
    lemma_ramp_covers_full_level(millis, sample_rate, samples as int);
    lemma_quotient_bounds(gap, rate);
    let last: nat = if gap % rate == 0 && gap > 0 {
        (gap / rate) as nat
    } else {
        (gap / rate + 1) as nat
    };
    assert(last * rate >= gap && (last - 1) * rate < gap || (last == 1 && gap == 0))
        by (nonlinear_arith)
        requires
            gap == rate * (gap / rate) + gap % rate,
            0 <= gap % rate < rate,
            gap >= 0,
            gap / rate >= 0,
            last == (if gap % rate == 0 && gap > 0 { gap / rate } else { gap / rate + 1 });
    assert(1 <= last) by (nonlinear_arith)
        requires
            gap == rate * (gap / rate) + gap % rate,
            gap / rate >= 0,
            rate >= 1,
            last == (if gap % rate == 0 && gap > 0 { gap / rate } else { gap / rate + 1 });
    assert(last <= samples) by (nonlinear_arith)
        requires
            (last - 1) * rate < gap || (last == 1 && gap == 0),
            samples * rate >= ONE,
            gap <= ONE,
            rate >= 1,
            last >= 1,
            samples >= 0;
    lemma_attack_peaks(voice, sample_rate, last);
    assert forall|earlier: nat| earlier < last implies {
        let before = #[trigger] voice.after_renders(sample_rate, earlier);
        &&& before.state == VoiceState::Attack
        &&& before.amplitude == voice.amplitude + earlier * voice.attack_rate
    } by {
        if earlier == 0 {
            assert(voice.after_renders(sample_rate, 0) == voice);
        } else {
            assert(voice.amplitude + earlier * rate < ONE) by (nonlinear_arith)
                requires
                    (last - 1) * rate < gap || (last == 1 && gap == 0),
                    earlier <= last - 1,
                    gap == ONE - voice.amplitude,
                    rate >= 1,
                    earlier >= 1;
            lemma_attack_rises(voice, sample_rate, earlier);
        }
    }
    last
}

/// While the release has not reached silence, the amplitude falls by the
/// release rate with every render: after `count` renders that stay above 0
/// the voice is still in `Release`, `count` rates below where it began.
pub proof fn lemma_release_falls(voice: VoiceModel, sample_rate: int, count: nat)
    requires
        voice.wf(),
        voice.state == VoiceState::Release,
        voice.amplitude - count * voice.release_rate > 0,
    ensures
        voice.after_renders(sample_rate, count).state == VoiceState::Release,
        voice.after_renders(sample_rate, count).amplitude == voice.amplitude - count
            * voice.release_rate,
        voice.after_renders(sample_rate, count).release_rate == voice.release_rate,
    decreases count,
{
    if count > 0 {
        let fewer = (count - 1) as nat;
        assert(voice.amplitude - fewer * voice.release_rate > 0
            && fewer * voice.release_rate + voice.release_rate == count * voice.release_rate)
            by (nonlinear_arith)
            requires
                voice.amplitude - count * voice.release_rate > 0,
                voice.release_rate >= 1,
                fewer == count - 1;
        lemma_release_falls(voice, sample_rate, fewer);
    }
}

/// The release ends in silence: on the first render that would carry the
/// amplitude to 0 or below, the amplitude is exactly 0 and the voice is off.
pub proof fn lemma_release_ends(voice: VoiceModel, sample_rate: int, count: nat)
    requires
        voice.wf(),
        voice.state == VoiceState::Release,
        count >= 1,
        voice.amplitude - (count - 1) * voice.release_rate > 0 || count == 1,
        voice.amplitude - count * voice.release_rate <= 0,
    ensures
        voice.after_renders(sample_rate, count).state == VoiceState::Off,
        voice.after_renders(sample_rate, count).amplitude == 0,
{
    let fewer = (count - 1) as nat;
    assert(fewer * voice.release_rate + voice.release_rate == count * voice.release_rate)
        by (nonlinear_arith)
        requires fewer == count - 1;
    if count == 1 {
        assert(voice.after_renders(sample_rate, 0) == voice);
    } else {
        lemma_release_falls(voice, sample_rate, fewer);
    }
}

/// A release set for `millis` milliseconds is over within that time: within
/// any number of samples that lasts at least as long, there is a render that
/// brings the amplitude to exactly 0 and turns the voice off, and up to that
/// render the amplitude falls with every sample.
pub proof fn lemma_release_completes_in_time(
    voice: VoiceModel,
    millis: int,
    sample_rate: int,
    samples: nat,
) -> (last: nat)
    requires
        voice.wf(),
        voice.state == VoiceState::Release,
        0 < sample_rate,
        voice.release_rate == ramp_rate(millis, sample_rate),
        samples * 1000 >= (if millis < 1 { 1 } else { millis }) * sample_rate,
    ensures
        1 <= last <= samples,
        voice.after_renders(sample_rate, last).state == VoiceState::Off,
        voice.after_renders(sample_rate, last).amplitude == 0,
        forall|earlier: nat|
            earlier < last ==> {
                let before = #[trigger] voice.after_renders(sample_rate, earlier);
                &&& before.state == VoiceState::Release
                &&& before.amplitude == voice.amplitude - earlier * voice.release_rate
            },
{
    let rate = voice.release_rate;
    let gap = voice.amplitude;
    lemma_ramp_covers_full_level(millis, sample_rate, samples as int);
    lemma_quotient_bounds(gap, rate);
    let last: nat = if gap % rate == 0 && gap > 0 {
        (gap / rate) as nat
    } else {
        (gap / rate + 1) as nat
    };
    assert(last * rate >= gap && (last - 1) * rate < gap || (last == 1 && gap == 0))
        by (nonlinear_arith)
        requires
            gap == rate * (gap / rate) + gap % rate,
            0 <= gap % rate < rate,
            gap >= 0,
            gap / rate >= 0,
            last == (if gap % rate == 0 && gap > 0 { gap / rate } else { gap / rate + 1 });
    assert(1 <= last) by (nonlinear_arith)
        requires
            gap == rate * (gap / rate) + gap % rate,
            gap / rate >= 0,
            rate >= 1,
            last == (if gap % rate == 0 && gap > 0 { gap / rate } else { gap / rate + 1 });
    assert(last <= samples) by (nonlinear_arith)
        requires
            (last - 1) * rate < gap || (last == 1 && gap == 0),
            samples * rate >= ONE,
            gap <= ONE,
            rate >= 1,
            last >= 1,
            samples >= 0;
    lemma_release_ends(voice, sample_rate, last);
    assert forall|earlier: nat| earlier < last implies {
        let before = #[trigger] voice.after_renders(sample_rate, earlier);
        &&& before.state == VoiceState::Release
        &&& before.amplitude == voice.amplitude - earlier * voice.release_rate
    } by {
        if earlier == 0 {
            assert(voice.after_renders(sample_rate, 0) == voice);
        } else {
            assert(voice.amplitude - earlier * rate > 0) by (nonlinear_arith)
                requires
                    (last - 1) * rate < gap || (last == 1 && gap == 0),
                    earlier <= last - 1,
                    gap == voice.amplitude,
                    rate >= 1,
                    earlier >= 1;
            lemma_release_falls(voice, sample_rate, earlier);
        }
    }
    last
}

/// A ramp set for `millis` milliseconds covers the full level within that
/// time: any number of samples that lasts at least as long, times the ramp
/// rate, reaches `ONE`.
pub proof fn lemma_ramp_covers_full_level(millis: int, sample_rate: int, samples: int)
    requires
        0 < sample_rate,
        samples * 1000 >= (if millis < 1 { 1 } else { millis }) * sample_rate,
    ensures
        samples * ramp_rate(millis, sample_rate) >= ONE,
{
    let span = (if millis < 1 { 1 } else { millis }) * sample_rate;
    assert(span >= 1) by (nonlinear_arith)
        requires span == (if millis < 1 { 1 } else { millis }) * sample_rate, sample_rate >= 1;
    let full = ONE * 1000;
    lemma_quotient_bounds(full, span);
    let rate = ramp_rate(millis, sample_rate);
    assert(rate * span >= full) by (nonlinear_arith)
        requires
            full == span * (full / span) + full % span,
            0 <= full % span < span,
            rate == (if full % span == 0 { full / span } else { full / span + 1 });
    assert(samples * rate >= ONE) by (nonlinear_arith)
        requires
            rate * span >= full,
            full == ONE * 1000,
            samples * 1000 >= span,
            rate >= 0,
            span >= 1;
}

/// A new engine is within its invariant: it has `MAX_VOICES` voices, each
/// off, silent and within its own invariant.
pub proof fn lemma_new_engine(sample_rate: u32)
    requires
        sample_rate > 0,
    ensures
        EngineModel::initial(sample_rate as int).wf(),
        EngineModel::initial(sample_rate as int).voices.len() == MAX_VOICES,
        forall|i: int|
            0 <= i < MAX_VOICES ==> {
                let voice = #[trigger] EngineModel::initial(sample_rate as int).voices[i];
                voice.state == VoiceState::Off && voice.amplitude == 0
            },
{
    lemma_ramp_rate_bounds(crate::voice::DEFAULT_ATTACK_MS as int, sample_rate as int);
    lemma_ramp_rate_bounds(crate::voice::DEFAULT_DECAY_MS as int, sample_rate as int);
    lemma_ramp_rate_bounds(crate::voice::DEFAULT_RELEASE_MS as int, sample_rate as int);
}

/// Handling any event or rendering a sample keeps an engine within its
/// invariant: the pool always has `MAX_VOICES` voices, each within its own
/// invariant, and the sample rate never changes.
pub proof fn lemma_engine_invariant(engine: EngineModel, event: SynthEvent)
    requires
        engine.wf(),
    ensures
        engine.handle(event).wf(),
        engine.handle(event).sample_rate == engine.sample_rate,
        engine.render().wf(),
        engine.render().sample_rate == engine.sample_rate,
{
    lemma_first_in_state(engine.voices, VoiceState::Off, 0);
    lemma_first_in_state(engine.voices, VoiceState::Release, 0);
    match event {
        SynthEvent::NoteOff(note) => {
            lemma_first_holding(engine.voices, note, 0);
        },
        _ => {},
    }
    let after = engine.handle(event);
    assert forall|i: int| 0 <= i < after.voices.len() implies (#[trigger] after.voices[i]).wf() by {
        assert(engine.voices[i].wf());
    }
    let rendered = engine.render();
    assert forall|i: int| 0 <= i < rendered.voices.len() implies (
    #[trigger] rendered.voices[i]).wf() by {
        assert(engine.voices[i].wf());
    }
}

/// A new note goes to the idle voice with the lowest index: that voice takes
/// the note and its frequency and enters `Attack`, and no other voice
/// changes.
pub proof fn lemma_note_on_takes_lowest_idle(
    engine: EngineModel,
    note: u8,
    freq: u32,
    lowest: int,
)
    requires
        engine.wf(),
        0 <= lowest < engine.voices.len(),
        engine.voices[lowest].state == VoiceState::Off,
        forall|j: int| 0 <= j < lowest ==> (#[trigger] engine.voices[j]).state != VoiceState::Off,
    ensures
        engine.handle(SynthEvent::NoteOn(note, freq)).voices == engine.voices.update(
            lowest,
            VoiceModel {
                note,
                freq: freq as int,
                state: VoiceState::Attack,
                ..engine.voices[lowest]
            },
        ),
        engine.handle(SynthEvent::NoteOn(note, freq)).sample_rate == engine.sample_rate,
{
    lemma_first_in_state(engine.voices, VoiceState::Off, 0);
    let found = first_in_state(engine.voices, VoiceState::Off, 0);
    if found < lowest {
        assert(engine.voices[found].state != VoiceState::Off);
    }
    if lowest < found {
        assert(engine.voices[lowest].state != VoiceState::Off);
    }
}

/// With no idle voice, a new note takes over the releasing voice with the
/// lowest index: that voice takes the note and its frequency and enters
/// `Attack` with the amplitude it had, and no other voice changes.
pub proof fn lemma_note_on_steals_lowest_releasing(
    engine: EngineModel,
    note: u8,
    freq: u32,
    lowest: int,
)
    requires
        engine.wf(),
        forall|j: int|
            0 <= j < engine.voices.len() ==> (#[trigger] engine.voices[j]).state
                != VoiceState::Off,
        0 <= lowest < engine.voices.len(),
        engine.voices[lowest].state == VoiceState::Release,
        forall|j: int|
            0 <= j < lowest ==> (#[trigger] engine.voices[j]).state != VoiceState::Release,
    ensures
        engine.handle(SynthEvent::NoteOn(note, freq)).voices == engine.voices.update(
            lowest,
            VoiceModel {
                note,
                freq: freq as int,
                state: VoiceState::Attack,
                ..engine.voices[lowest]
            },
        ),
        engine.handle(SynthEvent::NoteOn(note, freq)).voices[lowest].amplitude
            == engine.voices[lowest].amplitude,
        engine.handle(SynthEvent::NoteOn(note, freq)).sample_rate == engine.sample_rate,
{
    lemma_first_in_state(engine.voices, VoiceState::Off, 0);
    let idle = first_in_state(engine.voices, VoiceState::Off, 0);
    if idle < engine.voices.len() {
        assert(engine.voices[idle].state != VoiceState::Off);
    }
    lemma_first_in_state(engine.voices, VoiceState::Release, 0);
    let found = first_in_state(engine.voices, VoiceState::Release, 0);
    if found < lowest {
        assert(engine.voices[found].state != VoiceState::Release);
    }
    if lowest < found {
        assert(engine.voices[lowest].state != VoiceState::Release);
    }
}

/// With every voice releasing, a new note takes over the first voice of the
/// pool, which attacks from the amplitude it had.
pub proof fn lemma_all_releasing_reuses_first(engine: EngineModel, note: u8, freq: u32)
    requires
        engine.wf(),
        forall|j: int|
            0 <= j < engine.voices.len() ==> (#[trigger] engine.voices[j]).state
                == VoiceState::Release,
    ensures
        engine.handle(SynthEvent::NoteOn(note, freq)).voices == engine.voices.update(
            0,
            VoiceModel {
                note,
                freq: freq as int,
                state: VoiceState::Attack,
                ..engine.voices[0]
            },
        ),
        engine.handle(SynthEvent::NoteOn(note, freq)).voices[0].amplitude
            == engine.voices[0].amplitude,
{
    assert(engine.voices[0].state == VoiceState::Release);
    assert forall|j: int| 0 <= j < engine.voices.len() implies (#[trigger] engine.voices[j]).state
        != VoiceState::Off by {
        assert(engine.voices[j].state == VoiceState::Release);
    }
    lemma_note_on_steals_lowest_releasing(engine, note, freq, 0);
}

/// With every voice in `Attack`, `Decay` or `Sustain`, a new note is dropped:
/// the engine is unchanged.
pub proof fn lemma_full_pool_drops_note(engine: EngineModel, note: u8, freq: u32)
    requires
        engine.wf(),
        forall|j: int|
            0 <= j < engine.voices.len() ==> {
                let state = (#[trigger] engine.voices[j]).state;
                state != VoiceState::Off && state != VoiceState::Release
            },
    ensures
        engine.handle(SynthEvent::NoteOn(note, freq)) == engine,
{
    lemma_first_in_state(engine.voices, VoiceState::Off, 0);
    let idle = first_in_state(engine.voices, VoiceState::Off, 0);
    if idle < engine.voices.len() {
        assert(engine.voices[idle].state != VoiceState::Off);
    }
    lemma_first_in_state(engine.voices, VoiceState::Release, 0);
    let fading = first_in_state(engine.voices, VoiceState::Release, 0);
    if fading < engine.voices.len() {
        assert(engine.voices[fading].state != VoiceState::Release);
    }
}

/// The end of a note releases the sounding voice with the lowest index that
/// holds the note, and no other voice changes, even one that holds the same
/// note.
pub proof fn lemma_note_off_releases_first_match(engine: EngineModel, note: u8, lowest: int)
    requires
        engine.wf(),
        0 <= lowest < engine.voices.len(),
        engine.voices[lowest].state != VoiceState::Off,
        engine.voices[lowest].note == note,
        forall|j: int|
            0 <= j < lowest ==> {
                let passed = #[trigger] engine.voices[j];
                passed.state == VoiceState::Off || passed.note != note
            },
    ensures
        engine.handle(SynthEvent::NoteOff(note)).voices == engine.voices.update(
            lowest,
            VoiceModel { state: VoiceState::Release, ..engine.voices[lowest] },
        ),
{
    lemma_first_holding(engine.voices, note, 0);
    let found = first_holding(engine.voices, note, 0);
    if found < lowest {
        let passed = engine.voices[found];
        assert(passed.state == VoiceState::Off || passed.note != note);
    }
    if lowest < found {
        let passed = engine.voices[lowest];
        assert(passed.state == VoiceState::Off || passed.note != note);
    }
}

/// The end of a note that no sounding voice holds changes nothing.
pub proof fn lemma_note_off_without_match(engine: EngineModel, note: u8)
    requires
        engine.wf(),
        forall|j: int|
            0 <= j < engine.voices.len() ==> {
                let voice = #[trigger] engine.voices[j];
                voice.state == VoiceState::Off || voice.note != note
            },
    ensures
        engine.handle(SynthEvent::NoteOff(note)) == engine,
{
    lemma_first_holding(engine.voices, note, 0);
    let found = first_holding(engine.voices, note, 0);
    if found < engine.voices.len() {
        let voice = engine.voices[found];
        assert(voice.state == VoiceState::Off || voice.note != note);
    }
}

/// The modulation wheel at its largest controller value, 127, sets the wheel
/// of every voice to `ONE`, and changes nothing else of any voice; at any
/// value up to 127 the wheel of every voice is at most `ONE`.
pub proof fn lemma_mod_wheel_broadcast(engine: EngineModel, value: u8)
    requires
        engine.wf(),
    ensures
        engine.handle(SynthEvent::ControlChange(MOD_WHEEL_CONTROLLER, value)).voices.len()
            == engine.voices.len(),
        forall|i: int|
            0 <= i < engine.voices.len() ==> (#[trigger] engine.handle(
                SynthEvent::ControlChange(MOD_WHEEL_CONTROLLER, value),
            ).voices[i]) == (VoiceModel { mod_wheel: wheel_level(value), ..engine.voices[i] }),
        wheel_level(127) == ONE,
        value <= 127 ==> 0 <= wheel_level(value) <= ONE,
{
}

/// A control change for any controller but the modulation wheel changes
/// nothing.
pub proof fn lemma_other_controllers_ignored(engine: EngineModel, controller: u8, value: u8)
    requires
        controller != MOD_WHEEL_CONTROLLER,
    ensures
        engine.handle(SynthEvent::ControlChange(controller, value)) == engine,
{
}

/// A parameter change for an envelope parameter changes nothing.
pub proof fn lemma_envelope_params_ignored(engine: EngineModel, param: Param, value: u32)
    requires
        param != Param::ModRange,
        param != Param::LfoFreq,
    ensures
        engine.handle(SynthEvent::ParamChange(param, value)) == engine,
{
}

/// A note that ends at once leaves silence: on a new engine, after a note
/// starts and ends with nothing rendered between, the first voice holds the
/// note in `Release` at amplitude 0, and after any number of renders, one or
/// more, it is off at amplitude exactly 0.
pub proof fn lemma_immediate_release_is_silent(
    sample_rate: u32,
    note: u8,
    freq: u32,
    count: nat,
)
    requires
        sample_rate > 0,
        count >= 1,
    ensures
        ({
            let played = EngineModel::initial(sample_rate as int).handle(
                SynthEvent::NoteOn(note, freq),
            ).handle(SynthEvent::NoteOff(note));
            let voice = played.voices[0];
            &&& voice.state == VoiceState::Release
            &&& voice.note == note
            &&& voice.amplitude == 0
            &&& voice.after_renders(sample_rate as int, count).state == VoiceState::Off
            &&& voice.after_renders(sample_rate as int, count).amplitude == 0
        }),
{
    let fresh = EngineModel::initial(sample_rate as int);
    lemma_new_engine(sample_rate);
    lemma_engine_invariant(fresh, SynthEvent::NoteOn(note, freq));
    assert(fresh.voices[0].state == VoiceState::Off);
    lemma_note_on_takes_lowest_idle(fresh, note, freq, 0);
    let started = fresh.handle(SynthEvent::NoteOn(note, freq));
    lemma_engine_invariant(started, SynthEvent::NoteOff(note));
    lemma_note_off_releases_first_match(started, note, 0);
    let played = started.handle(SynthEvent::NoteOff(note));
    let voice = played.voices[0];
    assert(played.wf());
    assert(voice.wf());
    lemma_release_ends(voice, sample_rate as int, 1);
    let first = voice.after_renders(sample_rate as int, 1);
    lemma_off_stays_off(first, sample_rate as int, (count - 1) as nat);
    lemma_renders_compose(voice, sample_rate as int, 1, (count - 1) as nat);
}

/// Rendering `first` samples and then `more` is rendering `first + more`.
pub proof fn lemma_renders_compose(voice: VoiceModel, sample_rate: int, first: nat, more: nat)
    ensures
        voice.after_renders(sample_rate, first).after_renders(sample_rate, more)
            == voice.after_renders(sample_rate, first + more),
    decreases more,
{
    if more > 0 {
        lemma_renders_compose(voice, sample_rate, first, (more - 1) as nat);
        assert((first + more - 1) as nat == first + (more - 1) as nat);
    }
}

} // verus!
