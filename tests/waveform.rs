use rustify_wled::recipes::TransitionEffects;
use rustify_wled::effect::{sample_count, sliced_count, EffectBuilder, RenderedEffect};
use rustify_wled::fixed::ONE;
use rustify_wled::waveform::{
    pow_fixed, Math, SawtoothEffect, SineTable, SinEffect, TruncSinEffect, Waveform,
    WaveformParameters,
};

fn table(len: usize) -> SineTable {
    let values = (0..len)
        .map(|i| ((2.0 * std::f64::consts::PI * i as f64 / len as f64).sin() * 1e6).round() as i64)
        .collect();
    SineTable { values }
}

fn quarter_table() -> SineTable {
    SineTable { values: vec![0, ONE, 0, -ONE] }
}

fn params(amplitude: i64, period: u64, v_offset: i64, h_offset: i64, exponent: u32) -> WaveformParameters {
    WaveformParameters { amplitude, period, v_offset, h_offset, exponent }
}

#[test]
fn truncated_sine_half_slice_at_30_fps_has_30_samples() {
    let p = params(500_000, 2_000_000, 500_000, 0, 1);
    let r = Waveform::TruncatedSine.render(30, 500_000, &p, &table(3600));
    assert_eq!(r.len(), 30);
}

#[test]
fn render_length_rounds_twice() {
    // round(25 * 0.3) = round(7.5) = 8; round(8 * 0.5) = 4
    assert_eq!(sample_count(25, 300_000), 8);
    assert_eq!(sliced_count(8, 500_000), 4);
    let p = params(ONE, 300_000, 0, 0, 1);
    assert_eq!(Waveform::Sine.render(25, 500_000, &p, &table(360)).len(), 4);
    // round(30 * 1.0) = 30, round(30 * 1/3) = 10
    assert_eq!(Waveform::Sawtooth.render(30, 333_333, &params(ONE, ONE as u64, 0, 0, 1), &table(4)).len(), 10);
}

#[test]
fn render_of_short_period_is_empty() {
    let p = params(ONE, 10_000, 0, 0, 1);
    assert_eq!(Waveform::Sine.render(30, ONE as u64, &p, &table(16)).len(), 0);
}

#[test]
fn sine_samples_follow_the_table() {
    // four samples per period land on the four table entries
    let p = params(500_000, ONE as u64, 250_000, 0, 1);
    let r = Waveform::Sine.render(4, ONE as u64, &p, &quarter_table());
    assert_eq!(r, vec![250_000, 750_000, 250_000, -250_000]);
    assert_eq!(SinEffect.math_func(3, 4, &p, &quarter_table()), -250_000);
}

#[test]
fn truncated_sine_takes_the_magnitude() {
    let p = params(500_000, ONE as u64, 250_000, 0, 1);
    let r = Waveform::TruncatedSine.render(4, ONE as u64, &p, &quarter_table());
    assert_eq!(r, vec![250_000, 750_000, 250_000, 750_000]);
    assert_eq!(TruncSinEffect.math_func(3, 4, &p, &quarter_table()), 750_000);
}

#[test]
fn horizontal_offset_shifts_the_phase() {
    // a quarter period of offset moves every sample one entry on
    let p = params(ONE, ONE as u64, 0, 250_000, 1);
    let r = Waveform::Sine.render(4, ONE as u64, &p, &quarter_table());
    assert_eq!(r, vec![ONE, 0, -ONE, 0]);
}

#[test]
fn exponent_applies_to_the_sine_term() {
    assert_eq!(pow_fixed(500_000, 2), 250_000);
    assert_eq!(pow_fixed(-500_000, 3), -125_000);
    assert_eq!(pow_fixed(123_456, 0), ONE);
    let p = params(ONE, ONE as u64, 0, 0, 0);
    assert_eq!(Math::sin_wave(0, 4, &p, &quarter_table()), ONE);
}

#[test]
fn sawtooth_is_a_centred_ramp() {
    // x - floor(0.5 + x) for x = 0, 0.25, 0.5, 0.75 is 0, 0.25, -0.5, -0.25
    let p = params(500_000, ONE as u64, 500_000, 0, 1);
    let r = Waveform::Sawtooth.render(4, ONE as u64, &p, &quarter_table());
    assert_eq!(r, vec![500_000, 750_000, 0, 250_000]);
    assert_eq!(SawtoothEffect.math_func(1, 4, &p), 750_000);
}

#[test]
fn fade_in_ramp_rises_from_zero() {
    let p = params(500_000, ONE as u64, 500_000, 500_000, 1);
    let r = Waveform::Sawtooth.render(4, ONE as u64, &p, &quarter_table());
    assert_eq!(r, vec![0, 250_000, 500_000, 750_000]);
}

#[test]
fn builder_concatenates_in_insertion_order() {
    let t = quarter_table();
    let mut b = EffectBuilder::new();
    let first = params(ONE, ONE as u64, 0, 0, 1);
    let second = params(500_000, ONE as u64, 500_000, 0, 1);
    b.add_brightness_effect(Waveform::Sine, first, ONE as u64);
    b.add_brightness_effect(Waveform::Sawtooth, second, 500_000);
    let built: RenderedEffect = b.build(4, &t);
    let mut expected = Waveform::Sine.render(4, ONE as u64, &first, &t);
    expected.extend(Waveform::Sawtooth.render(4, 500_000, &second, &t));
    assert_eq!(built.multipliers, expected);
    assert_eq!(built.multipliers.len(), 6);
}

#[test]
fn empty_builder_renders_nothing() {
    assert!(EffectBuilder::new().build(30, &quarter_table()).multipliers.is_empty());
}

#[test]
fn fade_in_and_fade_out_add_up_to_full_brightness() {
    let t = table(360);
    let up = TransitionEffects::fade_in(700_000, 30, &t).multipliers;
    let down = TransitionEffects::fade_out(700_000, 30, &t).multipliers;
    assert_eq!(up.len(), 21);
    assert_eq!(up.len(), down.len());
    assert!(up.iter().zip(down.iter()).all(|(a, b)| a + b == ONE || a + b == ONE - 1));
    assert!(up.iter().all(|m| (0..ONE).contains(m)));
    assert_eq!(up[0], 0);
}

#[test]
fn fade_in_stays_below_full_brightness() {
    // 1 fps over 1.999999 s: the second sample is 0.9999995 exactly
    let up = TransitionEffects::fade_in(1_999_999, 1, &table(4)).multipliers;
    assert_eq!(up.len(), 2);
    assert_eq!(up[0], 0);
    assert!(up[1] < ONE);
    assert_eq!(up[1], 999_999);
}
