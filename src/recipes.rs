//! Effect recipes: which waveforms an animation uses for each playback
//! situation. These are policy; the engine does not depend on them.
use vstd::prelude::*;
use crate::effect::{
    EffectBuilder, RenderedEffect, WaveformEffectElement, build_spec, render_spec, num_samples,
    lemma_render_len_bounds, samples, slice_len,
};
use crate::fixed::{ONE, round_div, round_div_i128, floor_div};
use crate::frame::AnimationFrame;
use crate::playback_state::AudioFeatures;
use crate::waveform::{Waveform, WaveformParameters, SineTable, MAX_PERIOD, MAX_SAMPLES, sawtooth_value};

verus! {

pub open spec fn element(
    effect: Waveform,
    amplitude: i64,
    period: u64,
    v_offset: i64,
    h_offset: i64,
    exponent: u32,
    slice_factor: u64,
) -> WaveformEffectElement {
    WaveformEffectElement {
        effect,
        parameters: WaveformParameters { amplitude, period, v_offset, h_offset, exponent },
        slice_factor,
    }
}

/// Playing: half of a two-second truncated-sine pulse between 0.5 and 1.
pub open spec fn play_recipe() -> Seq<WaveformEffectElement> {
    seq![element(Waveform::TruncatedSine, 500_000, 2_000_000, 500_000, 0, 1, 500_000)]
}

/// Paused: a one-second truncated-sine breath, then a full two-second sine
/// cycle, both around 0.7.
pub open spec fn pause_recipe() -> Seq<WaveformEffectElement> {
    seq![
        element(Waveform::TruncatedSine, 300_000, 1_000_000, 700_000, 0, 1, 1_000_000),
        element(Waveform::Sine, 300_000, 2_000_000, 700_000, 0, 1, 1_000_000),
    ]
}

/// The period that puts a crest on every beat: `60 / (tempo / 2)` seconds.
pub open spec fn beat_period(tempo: u64) -> int {
    round_div(120_000_000_000_000, tempo as int)
}

/// The exponent from the energy: `round(energy · 10)`.
pub open spec fn energy_exponent(energy: u64) -> int {
    round_div(energy * 10, ONE as int)
}

/// The number of samples of one beat period: `round(target_fps · 60 / (tempo / 2))`,
/// from the tempo itself rather than from the rounded period.
pub open spec fn beat_samples(fps: int, tempo: u64) -> int {
    round_div(fps * 120_000_000, tempo as int)
}

/// The waveform of the beat-driven pulse: a truncated sine dipping from 0.6
/// by 0.3, one crest per beat, sharper for more energetic tracks.
pub open spec fn features_parameters(f: AudioFeatures) -> WaveformParameters {
    WaveformParameters {
        amplitude: -300_000i64,
        period: beat_period(f.tempo) as u64,
        v_offset: 600_000,
        h_offset: 0,
        exponent: energy_exponent(f.energy) as u32,
    }
}

/// The beat-driven pulse: `beat_samples` samples of one period. With no
/// horizontal offset, sample `k` of `n` sits at phase `k / n` exactly, so the
/// rounding of the period does not move the samples.
pub open spec fn features_effect(f: AudioFeatures, fps: int, t: Seq<i64>) -> Seq<i64> {
    let n = beat_samples(fps, f.tempo);
    samples(Waveform::TruncatedSine, features_parameters(f), n, n, t)
}

/// A sawtooth ramp over `fade_time`, rising from 0 to 1 (`amplitude` 0.5) or
/// falling from 1 to 0 (`amplitude` −0.5).
pub open spec fn fade_recipe(amplitude: i64, fade_time: u64) -> Seq<WaveformEffectElement> {
    seq![element(Waveform::Sawtooth, amplitude, fade_time, 500_000, 500_000, 1, 1_000_000)]
}

/// Effects for the playback situations.
pub struct PlaybackEffects;

impl PlaybackEffects {
    pub fn play(target_fps: u8, table: &SineTable) -> (r: RenderedEffect)
        requires
            table.wf(),
        ensures
            r.multipliers@ == build_spec(play_recipe(), target_fps as int, table@),
    {
        let mut builder = EffectBuilder::new();
        builder.add_brightness_effect(
            Waveform::TruncatedSine,
            WaveformParameters {
                amplitude: 500_000,
                period: 2_000_000,
                v_offset: 500_000,
                h_offset: 0,
                exponent: 1,
            },
            500_000,
        );
        assert(builder.elements@ =~= play_recipe());
        builder.build(target_fps, table)
    }

    pub fn pause(target_fps: u8, table: &SineTable) -> (r: RenderedEffect)
        requires
            table.wf(),
        ensures
            r.multipliers@ == build_spec(pause_recipe(), target_fps as int, table@),
    {
        let mut builder = EffectBuilder::new();
        // breathing
        builder.add_brightness_effect(
            Waveform::TruncatedSine,
            WaveformParameters {
                amplitude: 300_000,
                period: 1_000_000,
                v_offset: 700_000,
                h_offset: 0,
                exponent: 1,
            },
            1_000_000,
        );
        // a full sine cycle between breaths
        builder.add_brightness_effect(
            Waveform::Sine,
            WaveformParameters {
                amplitude: 300_000,
                period: 2_000_000,
                v_offset: 700_000,
                h_offset: 0,
                exponent: 1,
            },
            1_000_000,
        );
        assert(builder.elements@ =~= pause_recipe());
        builder.build(target_fps, table)
    }

    pub fn play_features(features: AudioFeatures, target_fps: u8, table: &SineTable) -> (r:
        RenderedEffect)
        requires
            features.wf(),
            table.wf(),
        ensures
            r.multipliers@ == features_effect(features, target_fps as int, table@),
            r.multipliers@.len() == beat_samples(target_fps as int, features.tempo),
    {
        let period = round_div_i128(120_000_000_000_000, features.tempo as i128);
        assert(0 < period <= MAX_PERIOD) by (nonlinear_arith)
            requires
                120 <= features.tempo <= 120_000_000_000_000,
                period == (2 * 120_000_000_000_000 + features.tempo) / (2 * features.tempo),
        ;
        let exponent = round_div_i128(features.energy as i128 * 10, ONE as i128);
        assert(0 <= exponent <= 10_001) by (nonlinear_arith)
            requires
                features.energy <= 1_000_000_000,
                exponent == (2 * (features.energy * 10) + 1_000_000) / 2_000_000,
        ;
        let n = round_div_i128(target_fps as i128 * 120_000_000, features.tempo as i128);
        assert(0 <= n < MAX_SAMPLES) by (nonlinear_arith)
            requires
                120 <= features.tempo,
                0 <= target_fps <= 255,
                n == (2 * (target_fps * 120_000_000) + features.tempo) / (2 * features.tempo),
        ;
        let params = WaveformParameters {
            amplitude: -300_000,
            period: period as u64,
            v_offset: 600_000,
            h_offset: 0,
            exponent: exponent as u32,
        };
        assert(params == features_parameters(features));
        let multipliers = Waveform::TruncatedSine.calculate_multipliers(n as u64, &params, None, table);
        assert(slice_len(n as int, ONE as int) == n);
        RenderedEffect { multipliers }
    }
}

/// Effects for moving between animations.
pub struct TransitionEffects;

impl TransitionEffects {
    /// Brightness rising from 0 to 1 over `fade_time` millionths of a second.
    pub fn fade_in(fade_time: u64, target_fps: u8, table: &SineTable) -> (r: RenderedEffect)
        requires
            0 < fade_time <= MAX_PERIOD,
            table.wf(),
        ensures
            r.multipliers@ == build_spec(fade_recipe(500_000, fade_time), target_fps as int, table@),
    {
        Self::fade(500_000, fade_time, target_fps, table)
    }

    /// Brightness falling from 1 to 0 over `fade_time` millionths of a second.
    pub fn fade_out(fade_time: u64, target_fps: u8, table: &SineTable) -> (r: RenderedEffect)
        requires
            0 < fade_time <= MAX_PERIOD,
            table.wf(),
        ensures
            r.multipliers@ == build_spec(fade_recipe(-500_000i64, fade_time), target_fps as int, table@),
    {
        Self::fade(-500_000, fade_time, target_fps, table)
    }

    fn fade(amplitude: i64, fade_time: u64, target_fps: u8, table: &SineTable) -> (r: RenderedEffect)
        requires
            amplitude == 500_000 || amplitude == -500_000,
            0 < fade_time <= MAX_PERIOD,
            table.wf(),
        ensures
            r.multipliers@ == build_spec(fade_recipe(amplitude, fade_time), target_fps as int, table@),
    {
        let mut builder = EffectBuilder::new();
        builder.add_brightness_effect(
            Waveform::Sawtooth,
            WaveformParameters {
                amplitude,
                period: fade_time,
                v_offset: 500_000,
                h_offset: 500_000,
                exponent: 1,
            },
            1_000_000,
        );
        assert(builder.elements@ =~= fade_recipe(amplitude, fade_time));
        builder.build(target_fps, table)
    }
}

/// A fade-in stays within `[0, 1)`, and a fade-in and a fade-out of the
/// same length add up to full brightness at every frame, less at most one
/// millionth from rounding each down.
pub proof fn lemma_fades_complement(fade_time: u64, fps: int, t: Seq<i64>)
    requires
        0 < fade_time <= MAX_PERIOD,
        0 <= fps <= 255,
    ensures
        build_spec(fade_recipe(500_000, fade_time), fps, t).len() == build_spec(
            fade_recipe(-500_000i64, fade_time),
            fps,
            t,
        ).len(),
        forall|k: int|
            0 <= k < build_spec(fade_recipe(500_000, fade_time), fps, t).len() ==> 0 <= (
            #[trigger] build_spec(fade_recipe(500_000, fade_time), fps, t)[k]) < ONE,
        forall|k: int|
            0 <= k < build_spec(fade_recipe(500_000, fade_time), fps, t).len() ==> ONE - 1 <= (
            #[trigger] build_spec(fade_recipe(500_000, fade_time), fps, t)[k]) + build_spec(
                fade_recipe(-500_000i64, fade_time),
                fps,
                t,
            )[k] <= ONE,
{
    let up = fade_recipe(500_000, fade_time);
    let down = fade_recipe(-500_000i64, fade_time);
    assert(up.drop_last() =~= Seq::<WaveformEffectElement>::empty());
    assert(down.drop_last() =~= Seq::<WaveformEffectElement>::empty());
    assert(build_spec(up.drop_last(), fps, t) == Seq::<i64>::empty());
    assert(build_spec(down.drop_last(), fps, t) == Seq::<i64>::empty());
    assert(build_spec(up, fps, t) =~= render_spec(Waveform::Sawtooth, fps, ONE as int, up[0].parameters, t));
    assert(build_spec(down, fps, t) =~= render_spec(Waveform::Sawtooth, fps, ONE as int, down[0].parameters, t));
    let n = num_samples(fps, fade_time as int);
    lemma_render_len_bounds(fps, ONE as int, fade_time as int);
    assert forall|k: int| 0 <= k < build_spec(up, fps, t).len() implies 0 <= #[trigger] build_spec(up, fps, t)[k]
        < ONE && ONE - 1 <= build_spec(up, fps, t)[k] + build_spec(down, fps, t)[k] <= ONE by {
        let unit = ONE * n;
        let x = fade_time * k + 500_000 * n;
        let q = floor_div(2 * x + unit, 2 * unit);
        let centered = x - unit * q;
        assert(n > 0);
        assert(-unit <= 2 * centered < unit) by (nonlinear_arith)
            requires
                unit > 0,
                q == (2 * x + unit) / (2 * unit),
                centered == x - unit * q,
        ;
        let y = 2 * 500_000 * centered;
        let f = floor_div(y, unit);
        let g = floor_div(2 * (-500_000) * centered, unit);
        assert(-500_000 <= f < 500_000 && -1 <= f + g <= 0) by (nonlinear_arith)
            requires
                unit > 0,
                -unit <= 2 * centered < unit,
                y == 2 * 500_000 * centered,
                f == y / unit,
                g == (2 * (-500_000) * centered) / unit,
        ;
        assert(sawtooth_value(up[0].parameters, k, n) == 500_000 + f);
        assert(sawtooth_value(down[0].parameters, k, n) == 500_000 + g);
    }
}

/// Number of frames of a still image.
pub const STATIC_FRAMES: usize = 10;

/// A still image: ten identical frames.
pub struct StaticEffect;

impl StaticEffect {
    pub fn apply(&self, image: &Vec<u8>) -> (r: Vec<AnimationFrame>)
        ensures
            r@.len() == STATIC_FRAMES,
            forall|k: int| 0 <= k < r@.len() ==> #[trigger] r@[k].data@ == image@,
    {
        let mut result: Vec<AnimationFrame> = Vec::new();
        let mut k: usize = 0;
        while k < STATIC_FRAMES
            invariant
                k <= STATIC_FRAMES,
                result@.len() == k,
                forall|i: int| 0 <= i < k ==> #[trigger] result@[i].data@ == image@,
            decreases STATIC_FRAMES - k,
        {
            result.push(AnimationFrame::new(image));
            k = k + 1;
        }
        result
    }
}

} // verus!
