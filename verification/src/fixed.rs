//! Q32 fixed-point arithmetic for levels, phases and per-sample steps.
//!
//! A level or a phase is an integer count of 2^-32: `ONE` stands for 1.0.
//! Phases live in `[0, ONE)` and wrap; levels live in `[0, ONE]`.

use vstd::prelude::*;

verus! {

/// 1.0 in Q32.
pub const ONE: u64 = 0x1_0000_0000;

/// 0.5 in Q32: half a turn of a phase.
pub const HALF: u64 = 0x8000_0000;

/// The square of a quarter turn, the largest product of the two distances
/// from a phase in a half turn to the ends of that half turn.
pub const QUARTER_SQUARED: u64 = 0x1000_0000_0000_0000;

/// The step of an envelope ramp, per sample, that covers the full level in
/// `millis` milliseconds at `sample_rate` samples per second: `ONE` divided by
/// the number of samples in the ramp, rounded up. A ramp shorter than one
/// millisecond counts as one millisecond.
pub open spec fn ramp_rate(millis: int, sample_rate: int) -> int {
    let span = (if millis < 1 { 1 } else { millis }) * sample_rate;
    let full = ONE * 1000;
    if full % span == 0 { full / span } else { full / span + 1 }
}

/// Computes `ramp_rate`.
pub fn ramp_rate_of(millis: u32, sample_rate: u32) -> (rate: u64)
    requires
        sample_rate > 0,
    ensures
        rate == ramp_rate(millis as int, sample_rate as int),
        1 <= rate <= ONE * 1000,
{
    let ms: u64 = if millis < 1 { 1 } else { millis as u64 };
    assert(ms * (sample_rate as u64) <= 0xffff_ffff * 0xffff_ffff) by (nonlinear_arith)
        requires ms <= 0xffff_ffff, sample_rate <= 0xffff_ffff;
    assert(ms * (sample_rate as u64) >= 1) by (nonlinear_arith)
        requires ms >= 1, sample_rate >= 1;
    let span: u64 = ms * (sample_rate as u64);
    let full: u64 = ONE * 1000;
    let q: u64 = full / span;
    let r: u64 = full % span;
    proof {
        lemma_quotient_bounds(full as int, span as int);
        assert(r == 0 ==> q >= 1) by (nonlinear_arith)
            requires full == span * q + r, full > 0, q >= 0;
        assert(r != 0 ==> q + 1 <= full) by (nonlinear_arith)
            requires full == span * q + r, 0 <= r < span, q >= 0, full > 0;
    }
    if r == 0 { q } else { q + 1 }
}

/// For `d >= 1` and `x >= 0`: `0 <= x / d <= x`, and `x / d >= 1` when `x >= d`.
pub proof fn lemma_quotient_bounds(x: int, d: int)
    requires
        x >= 0,
        d >= 1,
    ensures
        0 <= x / d <= x,
        x >= d ==> x / d >= 1,
        x < d ==> x / d == 0,
        x == d * (x / d) + x % d,
        0 <= x % d < d,
{
    vstd::arithmetic::div_mod::lemma_fundamental_div_mod(x, d);
    vstd::arithmetic::div_mod::lemma_mod_bound(x, d);
    vstd::arithmetic::div_mod::lemma_div_pos_is_pos(x, d);
    let q = x / d;
    assert(q <= x) by (nonlinear_arith)
        requires x == d * q + x % d, x % d >= 0, d >= 1, q >= 0;
    assert(x >= d ==> q >= 1) by (nonlinear_arith)
        requires x == d * q + x % d, x % d < d, d >= 1, q >= 0;
    assert(x < d ==> q == 0) by (nonlinear_arith)
        requires x == d * q + x % d, x % d >= 0, d >= 1, q >= 0;
}

/// The largest frequency, in millihertz, that a phase can be advanced by:
/// any base frequency plus any modulation depth stays below it.
pub const FREQ_LIMIT: u64 = 0x10_0000_0000;

/// The largest modulation-wheel level: what the controller value 255 maps to.
pub const WHEEL_LIMIT: u64 = 0x2_0204_0810;

/// The phase after one sample of an oscillator that runs at `freq`
/// millihertz, sampled `sample_rate` times per second: the phase moves on by
/// `freq / (1000 * sample_rate)` of a turn and wraps at `ONE`.
pub open spec fn advance_phase(phase: int, freq: int, sample_rate: int) -> int {
    (phase + freq * ONE / (sample_rate * 1000)) % (ONE as int)
}

/// Computes `advance_phase`.
pub fn advance_phase_of(phase: u64, freq: u64, sample_rate: u32) -> (next: u64)
    requires
        phase < ONE,
        freq <= FREQ_LIMIT,
        sample_rate > 0,
    ensures
        next == advance_phase(phase as int, freq as int, sample_rate as int),
        next < ONE,
{
    let turn: u128 = ONE as u128;
    assert(freq * turn <= FREQ_LIMIT * ONE) by (nonlinear_arith)
        requires freq <= FREQ_LIMIT, turn == ONE;
    let scaled: u128 = (freq as u128) * turn;
    let per_second: u128 = (sample_rate as u128) * 1000;
    let step: u128 = scaled / per_second;
    proof {
        lemma_quotient_bounds(scaled as int, per_second as int);
    }
    let next: u128 = ((phase as u128) + step) % turn;
    next as u64
}

/// The positive half of the low-frequency wave, for a phase `x` in the first
/// half turn: the rational approximation `4w / (5q - w)` of the sine of the
/// angle, where `w = x * (HALF - x)` and `q` is `QUARTER_SQUARED`. It is 0 at
/// both ends of the half turn and `ONE` in its middle.
pub open spec fn half_wave(x: int) -> int {
    let w = x * (HALF - x);
    (w * 4 * ONE) / (5 * QUARTER_SQUARED - w)
}

/// The low-frequency wave at a phase: one period of an approximate sine,
/// positive over the first half turn and mirrored below zero over the second.
pub open spec fn lfo_wave(phase: int) -> int {
    if phase < HALF { half_wave(phase) } else { -half_wave(phase - HALF) }
}

/// A phase in a half turn and its distance to the end of the half turn
/// multiply to at most `QUARTER_SQUARED`, and the half wave there lies between
/// 0 and `ONE`.
pub proof fn lemma_half_wave_bounds(x: int)
    requires
        0 <= x <= HALF,
    ensures
        0 <= x * (HALF - x) <= QUARTER_SQUARED,
        0 <= half_wave(x) <= ONE,
{
    let w = x * (HALF - x);
    assert(0 <= w <= 0x1000_0000_0000_0000) by (nonlinear_arith)
        requires 0 <= x <= 0x8000_0000, w == x * (0x8000_0000 - x);
    let d = 5 * QUARTER_SQUARED - w;
    let n = w * 4 * ONE;
    lemma_quotient_bounds(n, d);
    assert(n / d <= 0x1_0000_0000) by (nonlinear_arith)
        requires
            n == d * (n / d) + n % d,
            n % d >= 0,
            n == w * 4 * 0x1_0000_0000,
            d == 5 * 0x1000_0000_0000_0000 - w,
            0 <= w <= 0x1000_0000_0000_0000;
}

/// Computes `half_wave`.
fn half_wave_of(x: u64) -> (level: u64)
    requires
        x <= HALF,
    ensures
        level == half_wave(x as int),
        level <= ONE,
{
    proof {
        lemma_half_wave_bounds(x as int);
    }
    let w: u64 = x * (HALF - x);
    assert(w * (4 * ONE) <= QUARTER_SQUARED * (4 * ONE)) by (nonlinear_arith)
        requires w <= QUARTER_SQUARED;
    assert(w * (4 * ONE) == w * 4 * ONE) by (nonlinear_arith);
    let scaled: u128 = (w as u128) * ((4 * ONE) as u128);
    let rest: u64 = 5 * QUARTER_SQUARED - w;
    let level: u128 = scaled / (rest as u128);
    level as u64
}

/// Computes `lfo_wave`.
pub fn lfo_wave_of(phase: u64) -> (level: i64)
    requires
        phase < ONE,
    ensures
        level == lfo_wave(phase as int),
        -ONE <= level <= ONE,
{
    if phase < HALF {
        let up: u64 = half_wave_of(phase);
        up as i64
    } else {
        let down: u64 = half_wave_of(phase - HALF);
        -(down as i64)
    }
}

/// How far the low-frequency wave bends the pitch, in millihertz: the size of
/// the wave, scaled by the modulation wheel and by the modulation range.
pub open spec fn modulation_depth(lfo: int, wheel: int, range: int) -> int {
    ((if lfo < 0 { -lfo } else { lfo }) * wheel * range) / (ONE * ONE)
}

/// The frequency an oscillator runs at, in millihertz: its base frequency
/// raised or lowered by the modulation depth, according to the sign of the
/// wave, and never below zero.
pub open spec fn effective_freq(base: int, lfo: int, wheel: int, range: int) -> int {
    let depth = modulation_depth(lfo, wheel, range);
    if lfo >= 0 {
        base + depth
    } else if depth >= base {
        0
    } else {
        base - depth
    }
}

/// Computes `effective_freq`.
pub fn effective_freq_of(base: u32, lfo: i64, wheel: u64, range: u32) -> (freq: u64)
    requires
        -ONE <= lfo <= ONE,
        wheel <= WHEEL_LIMIT,
    ensures
        freq == effective_freq(base as int, lfo as int, wheel as int, range as int),
        freq <= FREQ_LIMIT,
{
    let size: u64 = if lfo < 0 { (-lfo) as u64 } else { lfo as u64 };
    assert(size * wheel <= ONE * WHEEL_LIMIT) by (nonlinear_arith)
        requires size <= ONE, wheel <= WHEEL_LIMIT;
    let swing: u128 = (size as u128) * (wheel as u128);
    assert(swing * range <= (ONE * WHEEL_LIMIT) * 0xffff_ffff) by (nonlinear_arith)
        requires swing <= ONE * WHEEL_LIMIT, range <= 0xffff_ffff;
    let product: u128 = swing * (range as u128);
    let unit: u128 = 0x1_0000_0000_0000_0000;
    assert(unit == ONE * ONE) by (nonlinear_arith)
        requires unit == 0x1_0000_0000_0000_0000, ONE == 0x1_0000_0000;
    let depth: u128 = product / unit;
    assert(depth <= 0xc_0000_0000) by {
        lemma_quotient_bounds(product as int, unit as int);
        assert(product / unit <= 0xc_0000_0000) by (nonlinear_arith)
            requires
                product == unit * (product / unit) + product % unit,
                product % unit >= 0,
                unit == 0x1_0000_0000_0000_0000,
                product <= (0x1_0000_0000 * 0x2_0204_0810) * 0xffff_ffff;
    }
    let depth: u64 = depth as u64;
    if lfo >= 0 {
        (base as u64) + depth
    } else if depth >= base as u64 {
        0
    } else {
        (base as u64) - depth
    }
}

/// One sample of a sawtooth oscillator at a phase, scaled by an amplitude:
/// the wave rises from `-ONE` at phase 0 towards `ONE` at the end of the turn.
pub open spec fn saw_sample(phase: int, amplitude: int) -> int {
    (2 * phase - ONE) * amplitude / (ONE as int)
}

/// A sawtooth sample is never larger in size than its amplitude, and it is
/// the product of phase and amplitude, in units of half a turn, less the
/// amplitude.
pub proof fn lemma_saw_sample_bounds(phase: int, amplitude: int)
    requires
        0 <= phase < ONE,
        0 <= amplitude <= ONE,
    ensures
        -amplitude <= saw_sample(phase, amplitude) <= amplitude,
        saw_sample(phase, amplitude) == (phase * amplitude) / (HALF as int) - amplitude,
{
    let n = (2 * phase - ONE) * amplitude;
    let one = ONE as int;
    let half = HALF as int;
    let m = phase * amplitude;
    assert(m >= 0) by (nonlinear_arith)
        requires m == phase * amplitude, phase >= 0, amplitude >= 0;
    assert(m < one * amplitude || amplitude == 0) by (nonlinear_arith)
        requires m == phase * amplitude, 0 <= phase < one, amplitude >= 0;
    vstd::arithmetic::div_mod::lemma_fundamental_div_mod(m, half);
    vstd::arithmetic::div_mod::lemma_mod_bound(m, half);
    let q = m / half;
    assert(n == one * (q - amplitude) + 2 * (m % half)) by (nonlinear_arith)
        requires
            n == (2 * phase - one) * amplitude,
            m == phase * amplitude,
            m == half * q + m % half,
            one == 2 * half;
    vstd::arithmetic::div_mod::lemma_fundamental_div_mod_converse(
        n,
        one,
        q - amplitude,
        2 * (m % half),
    );
    assert(q < 2 * amplitude || amplitude == 0) by (nonlinear_arith)
        requires
            m == half * q + m % half,
            m % half >= 0,
            m < one * amplitude || amplitude == 0,
            one == 2 * half,
            half > 0;
    assert(q >= 0) by (nonlinear_arith)
        requires m == half * q + m % half, m % half < half, m >= 0, half > 0;
    if amplitude == 0 {
        assert(m == 0);
    }
}

/// Computes `saw_sample`.
pub fn saw_sample_of(phase: u64, amplitude: u64) -> (sample: i64)
    requires
        phase < ONE,
        amplitude <= ONE,
    ensures
        sample == saw_sample(phase as int, amplitude as int),
        -amplitude <= sample <= amplitude,
{
    proof {
        lemma_saw_sample_bounds(phase as int, amplitude as int);
    }
    assert(phase * amplitude <= 0xffff_ffff * ONE) by (nonlinear_arith)
        requires phase <= 0xffff_ffff, amplitude <= ONE;
    let product: u64 = phase * amplitude;
    let raised: u64 = product / HALF;
    proof {
        lemma_quotient_bounds(product as int, HALF as int);
        assert(raised <= 2 * ONE) by (nonlinear_arith)
            requires
                product == HALF * raised + product % HALF,
                product % HALF >= 0,
                product <= 0xffff_ffff * ONE,
                HALF == 0x8000_0000,
                ONE == 0x1_0000_0000;
    }
    (raised as i64) - (amplitude as i64)
}

} // verus!
