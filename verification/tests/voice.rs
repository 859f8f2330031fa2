use polysynth::fixed::ONE;
use polysynth::voice::{Voice, VoiceState};

const SUSTAIN: u64 = 0xb333_3333;

fn sustained_voice() -> Voice {
    let mut voice = Voice::new();
    voice.note_on(60, 261_630);
    let mut guard = 0;
    while voice.state() != VoiceState::Sustain {
        voice.render_next(44_100);
        guard += 1;
        assert!(guard < 10_000);
    }
    voice
}

#[test]
fn new_voice_is_off_with_the_default_settings() {
    let voice = Voice::new();
    assert_eq!(voice.state(), VoiceState::Off);
    assert_eq!(voice.note(), 0);
    assert_eq!(voice.freq(), 0);
    assert_eq!(voice.amplitude(), 0);
    assert_eq!(voice.phase(), 0);
    assert_eq!(voice.lfo_phase(), 0);
    assert_eq!(voice.mod_wheel(), 0);
    assert_eq!(voice.mod_range(), 20_000);
    assert_eq!(voice.lfo_freq(), 3_140);
    assert_eq!(voice.sustain_level(), SUSTAIN);
    assert_eq!(voice.rates(), (973_916, 973_916, 324_639));
}

#[test]
fn off_voice_renders_silence_and_does_not_move() {
    let mut voice = Voice::new();
    for _ in 0..100 {
        assert_eq!(voice.render_next(44_100), 0);
        assert_eq!(voice.state(), VoiceState::Off);
        assert_eq!(voice.amplitude(), 0);
        assert_eq!(voice.phase(), 0);
        assert_eq!(voice.lfo_phase(), 0);
    }
}

#[test]
fn voice_that_fell_silent_keeps_its_phases_while_off() {
    let mut voice = Voice::new();
    voice.note_on(60, 261_630);
    for _ in 0..10 {
        voice.render_next(44_100);
    }
    voice.note_off();
    let mut guard = 0;
    while voice.state() != VoiceState::Off {
        voice.render_next(44_100);
        guard += 1;
        assert!(guard < 20_000);
    }
    let phase = voice.phase();
    let lfo_phase = voice.lfo_phase();
    for _ in 0..10 {
        assert_eq!(voice.render_next(44_100), 0);
        assert_eq!(voice.amplitude(), 0);
        assert_eq!(voice.phase(), phase);
        assert_eq!(voice.lfo_phase(), lfo_phase);
    }
}

#[test]
fn note_on_takes_note_and_frequency_and_attacks() {
    let mut voice = Voice::new();
    voice.note_on(60, 261_630);
    assert_eq!(voice.state(), VoiceState::Attack);
    assert_eq!(voice.note(), 60);
    assert_eq!(voice.freq(), 261_630);
    assert_eq!(voice.amplitude(), 0);
}

#[test]
fn first_samples_of_a_note() {
    let mut voice = Voice::new();
    voice.note_on(60, 261_630);
    assert_eq!(voice.render_next(44_100), -973_916);
    assert_eq!(voice.render_next(44_100), -1_924_721);
    assert_eq!(voice.render_next(44_100), -2_852_414);
    assert_eq!(voice.amplitude(), 2_921_748);
    assert_eq!(voice.phase(), 76_441_650);
    assert_eq!(voice.lfo_phase(), 917_427);
}

#[test]
fn attack_rises_by_the_rate_to_full_level_in_a_tenth_of_a_second() {
    let mut voice = Voice::new();
    voice.note_on(60, 261_630);
    let mut last = voice.amplitude();
    for sample in 1..4_410u64 {
        voice.render_next(44_100);
        assert_eq!(voice.state(), VoiceState::Attack);
        assert_eq!(voice.amplitude(), sample * 973_916);
        assert!(voice.amplitude() > last);
        last = voice.amplitude();
    }
    voice.render_next(44_100);
    assert_eq!(voice.amplitude(), ONE);
    assert_eq!(voice.state(), VoiceState::Decay);
}

#[test]
fn decay_falls_to_the_sustain_level_and_holds() {
    let mut voice = Voice::new();
    voice.note_on(60, 261_630);
    for _ in 0..4_410 {
        voice.render_next(44_100);
    }
    assert_eq!(voice.state(), VoiceState::Decay);
    let mut last = voice.amplitude();
    for _ in 1..1_323 {
        voice.render_next(44_100);
        assert_eq!(voice.state(), VoiceState::Decay);
        assert_eq!(voice.amplitude(), last - 973_916);
        last = voice.amplitude();
    }
    voice.render_next(44_100);
    assert_eq!(voice.state(), VoiceState::Sustain);
    assert_eq!(voice.amplitude(), SUSTAIN);
    for _ in 0..1_000 {
        voice.render_next(44_100);
        assert_eq!(voice.state(), VoiceState::Sustain);
        assert_eq!(voice.amplitude(), SUSTAIN);
    }
}

#[test]
fn note_off_in_sustain_releases_down_to_silence() {
    let mut voice = sustained_voice();
    voice.note_off();
    assert_eq!(voice.state(), VoiceState::Release);
    assert_eq!(voice.amplitude(), SUSTAIN);
    let mut last = voice.amplitude();
    for _ in 1..9_261 {
        voice.render_next(44_100);
        assert_eq!(voice.state(), VoiceState::Release);
        assert_eq!(voice.amplitude(), last - 324_639);
        last = voice.amplitude();
    }
    assert_eq!(last, 319_967);
    assert_eq!(voice.render_next(44_100), 0);
    assert_eq!(voice.state(), VoiceState::Off);
    assert_eq!(voice.amplitude(), 0);
    // 9261 samples is within the release time of 0.3 s, 13230 samples
    assert!(9_261 <= 13_230);
}

#[test]
fn release_from_full_level_takes_the_release_time() {
    let mut voice = Voice::new();
    voice.note_on(60, 261_630);
    for _ in 0..4_410 {
        voice.render_next(44_100);
    }
    assert_eq!(voice.amplitude(), ONE);
    voice.note_off();
    let mut samples = 0;
    while voice.state() != VoiceState::Off {
        voice.render_next(44_100);
        samples += 1;
        assert!(samples <= 13_230);
    }
    assert_eq!(samples, 13_230);
    assert_eq!(voice.amplitude(), 0);
}

#[test]
fn note_off_releases_from_any_stage() {
    let mut voice = Voice::new();
    voice.note_on(60, 261_630);
    for _ in 0..100 {
        voice.render_next(44_100);
    }
    let amplitude = voice.amplitude();
    voice.note_off();
    assert_eq!(voice.state(), VoiceState::Release);
    assert_eq!(voice.amplitude(), amplitude);

    let mut voice = Voice::new();
    voice.note_on(60, 261_630);
    for _ in 0..4_500 {
        voice.render_next(44_100);
    }
    assert_eq!(voice.state(), VoiceState::Decay);
    let amplitude = voice.amplitude();
    voice.note_off();
    assert_eq!(voice.state(), VoiceState::Release);
    assert_eq!(voice.amplitude(), amplitude);

    let mut voice = Voice::new();
    voice.note_off();
    assert_eq!(voice.state(), VoiceState::Release);
    assert_eq!(voice.amplitude(), 0);
}

#[test]
fn note_on_during_release_attacks_from_the_current_amplitude() {
    let mut voice = sustained_voice();
    voice.note_off();
    for _ in 0..1_000 {
        voice.render_next(44_100);
    }
    let amplitude = voice.amplitude();
    assert_eq!(amplitude, SUSTAIN - 1_000 * 324_639);
    voice.note_on(72, 523_251);
    assert_eq!(voice.state(), VoiceState::Attack);
    assert_eq!(voice.amplitude(), amplitude);
    assert_eq!(voice.note(), 72);
    assert_eq!(voice.freq(), 523_251);
    voice.render_next(44_100);
    assert_eq!(voice.amplitude(), amplitude + 973_916);
}

#[test]
fn release_that_ends_resets_the_phase_before_it_moves_on() {
    let mut voice = Voice::new();
    voice.note_on(60, 261_630);
    for _ in 0..3 {
        voice.render_next(44_100);
    }
    voice.note_off();
    // 2_921_748 / 324_639 = 8.99..: the ninth render ends the release
    for _ in 0..8 {
        voice.render_next(44_100);
        assert_eq!(voice.state(), VoiceState::Release);
    }
    assert_eq!(voice.render_next(44_100), 0);
    assert_eq!(voice.state(), VoiceState::Off);
    assert_eq!(voice.amplitude(), 0);
    // one step of 261.63 Hz from phase 0
    assert_eq!(voice.phase(), 25_480_550);
}

#[test]
fn amplitude_and_phases_stay_in_range_over_a_whole_note() {
    let mut voice = Voice::new();
    voice.set_mod_wheel(127);
    voice.note_on(69, 440_000);
    for sample in 0..30_000 {
        if sample == 12_000 {
            voice.note_off();
        }
        let out = voice.render_next(44_100);
        assert!(voice.amplitude() <= ONE);
        assert!(voice.phase() < ONE);
        assert!(voice.lfo_phase() < ONE);
        assert!(out.unsigned_abs() <= voice.amplitude());
        if voice.state() == VoiceState::Off {
            assert_eq!(voice.amplitude(), 0);
            assert_eq!(out, 0);
        }
    }
    assert_eq!(voice.state(), VoiceState::Off);
}

#[test]
fn rate_setters_time_the_ramps() {
    let mut voice = Voice::new();
    voice.set_attack(50, 48_000);
    voice.set_decay(200, 48_000);
    voice.set_release(1_000, 48_000);
    // ONE / 2400, ONE / 9600, ONE / 48000, each rounded up
    assert_eq!(voice.rates(), (1_789_570, 447_393, 89_479));
    voice.set_attack(0, 48_000);
    assert_eq!(voice.rates().0, 89_478_486);
    voice.set_attack(1, 48_000);
    assert_eq!(voice.rates().0, 89_478_486);
}

#[test]
fn short_attack_reaches_full_level_within_its_time() {
    let mut voice = Voice::new();
    voice.set_attack(10, 48_000);
    voice.note_on(60, 261_630);
    let mut samples = 0;
    while voice.state() == VoiceState::Attack {
        voice.render_next(48_000);
        samples += 1;
        assert!(samples <= 480);
    }
    assert_eq!(samples, 480);
    assert_eq!(voice.amplitude(), ONE);
}

#[test]
fn mod_wheel_is_the_controller_value_over_127() {
    let mut voice = Voice::new();
    voice.set_mod_wheel(127);
    assert_eq!(voice.mod_wheel(), ONE);
    voice.set_mod_wheel(0);
    assert_eq!(voice.mod_wheel(), 0);
    voice.set_mod_wheel(64);
    assert_eq!(voice.mod_wheel(), 64 * ONE / 127);
    voice.set_mod_wheel(255);
    assert_eq!(voice.mod_wheel(), 8_623_753_232);
}

#[test]
fn modulation_settings_are_stored() {
    let mut voice = Voice::new();
    voice.set_mod_range(35_000);
    voice.set_lfo_freq(6_280);
    assert_eq!(voice.mod_range(), 35_000);
    assert_eq!(voice.lfo_freq(), 6_280);
    assert_eq!(voice.state(), VoiceState::Off);
}

#[test]
fn modulation_bends_the_pitch_when_the_wheel_is_up() {
    let mut plain = Voice::new();
    let mut bent = Voice::new();
    bent.set_mod_wheel(127);
    bent.set_lfo_freq(5_000_000);
    plain.set_lfo_freq(5_000_000);
    plain.note_on(69, 440_000);
    bent.note_on(69, 440_000);
    for _ in 0..100 {
        plain.render_next(44_100);
        bent.render_next(44_100);
    }
    assert_eq!(plain.phase(), 42_852_281 * 100);
    assert_eq!(plain.lfo_phase(), bent.lfo_phase());
    assert!(bent.phase() != plain.phase());
}

#[test]
fn without_the_wheel_the_lfo_runs_but_does_not_bend() {
    let mut voice = Voice::new();
    voice.note_on(69, 440_000);
    for sample in 1..=50u64 {
        voice.render_next(44_100);
        assert_eq!(voice.phase(), sample * 42_852_281);
        assert_eq!(voice.lfo_phase(), sample * 305_809);
    }
}
