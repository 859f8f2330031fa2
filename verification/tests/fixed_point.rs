use polysynth::fixed::{
    advance_phase_of, effective_freq_of, lfo_wave_of, ramp_rate_of, saw_sample_of, FREQ_LIMIT,
    HALF, ONE, WHEEL_LIMIT,
};

#[test]
fn ramp_rate_is_one_over_the_samples_in_the_ramp_rounded_up() {
    // 2^32 / 4410 = 973915.48...
    assert_eq!(ramp_rate_of(100, 44_100), 973_916);
    // 2^32 / 13230 = 324638.49...
    assert_eq!(ramp_rate_of(300, 44_100), 324_639);
    assert_eq!(ramp_rate_of(100, 48_000), 894_785);
    assert_eq!(ramp_rate_of(300, 48_000), 298_262);
}

#[test]
fn ramp_rate_takes_times_under_a_millisecond_as_one_millisecond() {
    assert_eq!(ramp_rate_of(0, 44_100), 97_391_549);
    assert_eq!(ramp_rate_of(1, 44_100), 97_391_549);
}

#[test]
fn ramp_rate_is_exact_when_the_ramp_divides_the_full_level() {
    // one sample per millisecond, 1000 ms: ONE * 1000 / 1_000_000
    assert_eq!(ramp_rate_of(1_000, 1_000), ONE / 1_000 + 1);
    // 1 ms at 1000 Hz is one sample: the whole level at once
    assert_eq!(ramp_rate_of(1, 1_000), ONE);
    // 1 ms at 1 Hz is a thousandth of a sample
    assert_eq!(ramp_rate_of(1, 1), ONE * 1_000);
}

#[test]
fn ramp_rate_never_stalls() {
    assert_eq!(ramp_rate_of(u32::MAX, u32::MAX), 1);
}

#[test]
fn ramp_rate_covers_the_full_level_within_the_ramp() {
    let rate = ramp_rate_of(100, 44_100);
    assert!(4_410 * rate >= ONE);
    assert!(4_409 * rate < ONE);
}

#[test]
fn phase_advances_by_frequency_over_sample_rate() {
    assert_eq!(advance_phase_of(0, 440_000, 44_100), 42_852_281);
    assert_eq!(advance_phase_of(0, 3_140, 44_100), 305_809);
    assert_eq!(advance_phase_of(5, 22_050_000, 44_100), HALF + 5);
}

#[test]
fn phase_wraps_at_one() {
    assert_eq!(advance_phase_of(ONE - 1, 440_000, 44_100), 42_852_280);
    // a frequency equal to the sample rate is a whole turn per sample
    assert_eq!(advance_phase_of(0, 44_100_000, 44_100), 0);
    assert_eq!(advance_phase_of(123, 44_100_000, 44_100), 123);
}

#[test]
fn phase_stays_below_one_at_the_limits() {
    assert!(advance_phase_of(ONE - 1, FREQ_LIMIT, 1) < ONE);
    assert!(advance_phase_of(ONE - 1, FREQ_LIMIT, u32::MAX) < ONE);
    assert_eq!(advance_phase_of(7, 0, 44_100), 7);
}

#[test]
fn lfo_wave_is_zero_at_the_half_turns_and_full_at_the_quarters() {
    assert_eq!(lfo_wave_of(0), 0);
    assert_eq!(lfo_wave_of(ONE / 4), ONE as i64);
    assert_eq!(lfo_wave_of(HALF), 0);
    assert_eq!(lfo_wave_of(3 * (ONE / 4)), -(ONE as i64));
}

#[test]
fn lfo_wave_follows_the_sine() {
    // a twelfth of a turn is 30 degrees: the sine is one half
    assert_eq!(lfo_wave_of(ONE / 12), 2_147_483_646);
    // an eighth of a turn is 45 degrees: 0.7059 for 0.7071
    assert_eq!(lfo_wave_of(ONE / 8), 3_031_741_620);
    assert_eq!(lfo_wave_of(HALF - 1), 6);
    assert_eq!(lfo_wave_of(ONE - 1), -6);
}

#[test]
fn lfo_wave_mirrors_in_the_second_half_turn() {
    assert_eq!(lfo_wave_of(HALF + ONE / 12), -lfo_wave_of(ONE / 12));
    let mut phase: u64 = 0;
    while phase < HALF {
        assert_eq!(lfo_wave_of(phase + HALF), -lfo_wave_of(phase));
        phase += 16_777_259;
    }
}

#[test]
fn lfo_wave_stays_within_one() {
    let mut phase: u64 = 0;
    while phase < ONE {
        let level = lfo_wave_of(phase);
        assert!(-(ONE as i64) <= level && level <= ONE as i64);
        phase += 1_048_583;
    }
}

#[test]
fn effective_freq_adds_the_modulation_depth() {
    // full wave, full wheel, 20 Hz range: 440 Hz +- 20 Hz
    assert_eq!(effective_freq_of(440_000, ONE as i64, ONE, 20_000), 460_000);
    assert_eq!(effective_freq_of(440_000, -(ONE as i64), ONE, 20_000), 420_000);
    let wheel = 64 * ONE / 127;
    assert_eq!(effective_freq_of(440_000, 2_147_483_646, wheel, 20_000), 445_039);
    assert_eq!(effective_freq_of(440_000, -2_147_483_646, wheel, 20_000), 434_961);
}

#[test]
fn effective_freq_is_the_base_without_modulation() {
    assert_eq!(effective_freq_of(440_000, ONE as i64, 0, 20_000), 440_000);
    assert_eq!(effective_freq_of(440_000, ONE as i64, ONE, 0), 440_000);
    assert_eq!(effective_freq_of(440_000, 0, ONE, 20_000), 440_000);
}

#[test]
fn effective_freq_never_falls_below_zero() {
    assert_eq!(effective_freq_of(10_000, -(ONE as i64), ONE, 20_000), 0);
    assert_eq!(effective_freq_of(20_000, -(ONE as i64), ONE, 20_000), 0);
    assert_eq!(effective_freq_of(20_001, -(ONE as i64), ONE, 20_000), 1);
}

#[test]
fn effective_freq_stays_within_the_limit() {
    assert_eq!(WHEEL_LIMIT, 255 * ONE / 127);
    let freq = effective_freq_of(u32::MAX, ONE as i64, WHEEL_LIMIT, u32::MAX);
    assert_eq!(freq, 12_918_720_524);
    assert!(freq <= FREQ_LIMIT);
}

#[test]
fn saw_rises_from_minus_one_to_one() {
    assert_eq!(saw_sample_of(0, ONE), -(ONE as i64));
    assert_eq!(saw_sample_of(HALF, ONE), 0);
    assert_eq!(saw_sample_of(ONE - 1, ONE), ONE as i64 - 2);
}

#[test]
fn saw_is_scaled_by_the_amplitude() {
    assert_eq!(saw_sample_of(ONE / 4, 0xb333_3333), -1_503_238_554);
    assert_eq!(saw_sample_of(3 * (ONE / 4), 0xb333_3333), 1_503_238_553);
    assert_eq!(saw_sample_of(12_345, 973_916), -973_911);
    assert_eq!(saw_sample_of(ONE - 1, 1), 0);
}

#[test]
fn saw_is_silent_at_amplitude_zero() {
    assert_eq!(saw_sample_of(0, 0), 0);
    assert_eq!(saw_sample_of(ONE - 1, 0), 0);
    assert_eq!(saw_sample_of(HALF, 0), 0);
}
