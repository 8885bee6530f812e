//! Rendering waveforms into multiplier tracks, concatenating them, and
//! applying a track to an image.
use vstd::prelude::*;
use crate::fixed::{ONE, round_div, clamp_byte, round_div_i128};
use crate::frame::AnimationFrame;
use crate::waveform::{
    Waveform, WaveformParameters, SineTable, Math, MAX_SAMPLES, sample_value,
};

verus! {

/// Number of samples in one period: `round(target_fps · period)`.
pub open spec fn num_samples(fps: int, period: int) -> int {
    round_div(fps * period, ONE as int)
}

/// The part of `n` samples that a slice factor keeps: `round(n · slice)`.
pub open spec fn slice_len(n: int, slice: int) -> int {
    round_div(n * slice, ONE as int)
}

/// Number of multipliers that one rendered segment holds.
pub open spec fn render_len(fps: int, slice: int, period: int) -> int {
    slice_len(num_samples(fps, period), slice)
}

/// A slice factor in millionths, within `(0, 1]`.
pub open spec fn slice_wf(slice: u64) -> bool {
    0 < slice <= ONE
}

/// The first `len` samples of a waveform with `n` samples per period.
pub open spec fn samples(w: Waveform, p: WaveformParameters, n: int, len: int, t: Seq<i64>) -> Seq<i64> {
    Seq::new(len as nat, |k: int| sample_value(w, p, k, n, t) as i64)
}

/// The multipliers of one rendered segment.
pub open spec fn render_spec(
    w: Waveform,
    fps: int,
    slice: int,
    p: WaveformParameters,
    t: Seq<i64>,
) -> Seq<i64> {
    samples(w, p, num_samples(fps, p.period as int), render_len(fps, slice, p.period as int), t)
}

pub proof fn lemma_render_len_bounds(fps: int, slice: int, period: int)
    requires
        0 <= fps <= 255,
        0 < slice <= ONE,
        0 < period <= 1_000_000_000_000,
    ensures
        0 <= num_samples(fps, period) < MAX_SAMPLES,
        0 <= render_len(fps, slice, period) <= num_samples(fps, period),
{
    let n = num_samples(fps, period);
    assert(0 <= (2 * (fps * period) + 1_000_000) / 2_000_000 < 255_000_001) by (nonlinear_arith)
        requires
            0 <= fps <= 255,
            0 < period <= 1_000_000_000_000,
    ;
    assert(0 <= (2 * (n * slice) + 1_000_000) / 2_000_000 <= n) by (nonlinear_arith)
        requires
            0 <= n,
            0 < slice <= 1_000_000,
    ;
}

/// `round(target_fps · period)`, the number of samples in one period.
pub fn sample_count(target_fps: u8, period: u64) -> (r: u64)
    requires
        0 < period <= 1_000_000_000_000,
    ensures
        r == num_samples(target_fps as int, period as int),
        r < MAX_SAMPLES,
{
    proof {
        lemma_render_len_bounds(target_fps as int, ONE as int, period as int);
    }
    round_div_i128(target_fps as i128 * period as i128, ONE as i128) as u64
}

/// `round(num_samples · slice_factor)`, the samples kept of a period.
pub fn sliced_count(num_samples: u64, slice_factor: u64) -> (r: u64)
    requires
        num_samples < MAX_SAMPLES,
        slice_wf(slice_factor),
    ensures
        r == slice_len(num_samples as int, slice_factor as int),
        r <= num_samples,
{
    assert(0 <= (2 * (num_samples * slice_factor) + 1_000_000) / 2_000_000 <= num_samples)
        by (nonlinear_arith)
        requires
            0 < slice_factor <= 1_000_000,
    ;
    round_div_i128(num_samples as i128 * slice_factor as i128, ONE as i128) as u64
}

impl Waveform {
    /// The sample `k` of `n` of this waveform.
    pub fn math_func(&self, k: u64, n: u64, p: &WaveformParameters, table: &SineTable) -> (r: i64)
        requires
            p.wf(),
            table.wf(),
            k < n <= MAX_SAMPLES,
        ensures
            r == sample_value(*self, *p, k as int, n as int, table@),
    {
        match self {
            Waveform::Sine => Math::sin_wave(k, n, p, table),
            Waveform::TruncatedSine => Math::trunc_sin_wave(k, n, p, table),
            Waveform::Sawtooth => Math::sawtooth(k, n, p),
        }
    }

    /// The first `round(num_factors · slice_factor)` samples of a period of
    /// `num_factors` samples; no slice factor keeps the whole period.
    pub fn calculate_multipliers(
        &self,
        num_factors: u64,
        params: &WaveformParameters,
        slice_factor: Option<u64>,
        table: &SineTable,
    ) -> (r: Vec<i64>)
        requires
            params.wf(),
            table.wf(),
            num_factors < MAX_SAMPLES,
            slice_factor matches Some(s) ==> slice_wf(s),
        ensures
            r@ == samples(
                *self,
                *params,
                num_factors as int,
                slice_len(
                    num_factors as int,
                    match slice_factor {
                        Some(s) => s as int,
                        None => ONE as int,
                    },
                ),
                table@,
            ),
    {
        let slice = match slice_factor {
            Some(s) => s,
            None => ONE as u64,
        };
        let range = sliced_count(num_factors, slice);
        let mut result: Vec<i64> = Vec::new();
        let mut k: u64 = 0;
        while k < range
            invariant
                params.wf(),
                table.wf(),
                range <= num_factors < MAX_SAMPLES,
                k <= range,
                result@ == samples(*self, *params, num_factors as int, k as int, table@),
            decreases range - k,
        {
            let m = self.math_func(k, num_factors, params, table);
            result.push(m);
            k = k + 1;
            assert(result@ =~= samples(*self, *params, num_factors as int, k as int, table@));
        }
        result
    }

    /// Renders one segment: `round(round(target_fps · period) · slice_factor)`
    /// samples, sample `k` taken at position `period · k / round(target_fps · period)`.
    pub fn render(
        &self,
        target_fps: u8,
        slice_factor: u64,
        params: &WaveformParameters,
        table: &SineTable,
    ) -> (r: Vec<i64>)
        requires
            params.wf(),
            table.wf(),
            slice_wf(slice_factor),
        ensures
            r@ == render_spec(*self, target_fps as int, slice_factor as int, *params, table@),
            r@.len() == render_len(target_fps as int, slice_factor as int, params.period as int),
    {
        let num_factors = sample_count(target_fps, params.period);
        self.calculate_multipliers(num_factors, params, Some(slice_factor), table)
    }
}

/// One waveform of an effect, with the part of its period that is kept.
#[derive(Clone, Copy, Debug)]
pub struct WaveformEffectElement {
    pub effect: Waveform,
    pub parameters: WaveformParameters,
    /// Millionths of the period that are rendered, within `(0, 1]`.
    pub slice_factor: u64,
}

impl WaveformEffectElement {
    pub open spec fn wf(&self) -> bool {
        self.parameters.wf() && slice_wf(self.slice_factor)
    }
}

/// The concatenation of the rendered segments of `elements`, in order.
pub open spec fn build_spec(elements: Seq<WaveformEffectElement>, fps: int, t: Seq<i64>) -> Seq<i64>
    decreases elements.len(),
{
    if elements.len() == 0 {
        Seq::empty()
    } else {
        let e = elements.last();
        build_spec(elements.drop_last(), fps, t) + render_spec(
            e.effect,
            fps,
            e.slice_factor as int,
            e.parameters,
            t,
        )
    }
}

/// The summed segment lengths of `elements`.
pub open spec fn total_len(elements: Seq<WaveformEffectElement>, fps: int) -> int
    decreases elements.len(),
{
    if elements.len() == 0 {
        0
    } else {
        let e = elements.last();
        total_len(elements.drop_last(), fps) + render_len(
            fps,
            e.slice_factor as int,
            e.parameters.period as int,
        )
    }
}

/// A built effect holds, for each element, `round(round(target_fps · period) ·
/// slice_factor)` multipliers, and no others.
pub proof fn lemma_build_len(elements: Seq<WaveformEffectElement>, fps: int, t: Seq<i64>)
    requires
        0 <= fps <= 255,
        forall|i: int| 0 <= i < elements.len() ==> (#[trigger] elements[i]).wf(),
    ensures
        build_spec(elements, fps, t).len() == total_len(elements, fps),
    decreases elements.len(),
{
    if elements.len() > 0 {
        let e = elements.last();
        assert(elements[elements.len() - 1].wf());
        lemma_build_len(elements.drop_last(), fps, t);
        lemma_render_len_bounds(fps, e.slice_factor as int, e.parameters.period as int);
    }
}

/// Collects waveform elements that are rendered one after the other; later
/// elements follow earlier ones and never overlay them.
pub struct EffectBuilder {
    pub elements: Vec<WaveformEffectElement>,
}

impl EffectBuilder {
    pub open spec fn wf(&self) -> bool {
        forall|i: int| 0 <= i < self.elements@.len() ==> (#[trigger] self.elements@[i]).wf()
    }

    pub fn new() -> (r: Self)
        ensures
            r.elements@.len() == 0,
            r.wf(),
    {
        EffectBuilder { elements: Vec::new() }
    }

    /// Appends a waveform element after those already added.
    pub fn add_brightness_effect(
        &mut self,
        effect: Waveform,
        parameters: WaveformParameters,
        slice_factor: u64,
    )
        requires
            old(self).wf(),
            parameters.wf(),
            slice_wf(slice_factor),
        ensures
            final(self).wf(),
            final(self).elements@ == old(self).elements@.push(
                WaveformEffectElement { effect, parameters, slice_factor },
            ),
    {
        self.elements.push(WaveformEffectElement { effect, parameters, slice_factor });
    }

    /// Renders every element and concatenates the segments in insertion order.
    pub fn build(&self, target_fps: u8, table: &SineTable) -> (r: RenderedEffect)
        requires
            self.wf(),
            table.wf(),
        ensures
            r.multipliers@ == build_spec(self.elements@, target_fps as int, table@),
    {
        let mut result: Vec<i64> = Vec::new();
        let mut i: usize = 0;
        while i < self.elements.len()
            invariant
                self.wf(),
                table.wf(),
                i <= self.elements@.len(),
                result@ == build_spec(self.elements@.take(i as int), target_fps as int, table@),
            decreases self.elements@.len() - i,
        {
            let e = self.elements[i];
            assert(self.elements@[i as int].wf());
            let mut segment = e.effect.render(target_fps, e.slice_factor, &e.parameters, table);
            result.append(&mut segment);
            i = i + 1;
            assert(self.elements@.take(i as int).drop_last() =~= self.elements@.take(i - 1));
        }
        assert(self.elements@.take(i as int) =~= self.elements@);
        RenderedEffect { multipliers: result }
    }
}

/// `round(byte · multiplier)` clamped to a byte.
pub open spec fn scale_byte(b: u8, m: i64) -> u8 {
    clamp_byte(round_div(b * m, ONE as int))
}

/// Frame `k` of a rendered effect applied to an image: every byte scaled by
/// multiplier `k`.
pub open spec fn scaled_frame(image: Seq<u8>, m: i64) -> Seq<u8> {
    Seq::new(image.len(), |j: int| scale_byte(image[j], m))
}

/// `frames` is the result of applying the multipliers `ms` to `image`.
pub open spec fn applied(frames: Seq<AnimationFrame>, image: Seq<u8>, ms: Seq<i64>) -> bool {
    &&& frames.len() == ms.len()
    &&& forall|k: int| 0 <= k < frames.len() ==> #[trigger] frames[k].data@ == scaled_frame(image, ms[k])
}

/// Every frame made from one image has the image's length.
pub proof fn lemma_frame_length_constant(frames: Seq<AnimationFrame>, image: Seq<u8>, ms: Seq<i64>)
    requires
        applied(frames, image, ms),
    ensures
        forall|k: int| 0 <= k < frames.len() ==> (#[trigger] frames[k]).data@.len() == image.len(),
{
    assert forall|k: int| 0 <= k < frames.len() implies (#[trigger] frames[k]).data@.len()
        == image.len() by {
        assert(frames[k].data@ == scaled_frame(image, ms[k]));
    }
}

/// A multiplier track that is ready to be applied to an image.
#[derive(Clone, Debug)]
pub struct RenderedEffect {
    /// Brightness multipliers in millionths, one per frame.
    pub multipliers: Vec<i64>,
}

/// Scales one byte by a multiplier in millionths, rounding and clamping.
pub fn scale(b: u8, m: i64) -> (r: u8)
    ensures
        r == scale_byte(b, m),
{
    assert(-10_000_000_000_000_000_000_000 <= (b as int) * (m as int) <= 10_000_000_000_000_000_000_000)
        by (nonlinear_arith)
        requires
            0 <= b <= 255,
            -9_223_372_036_854_775_808 <= m <= 9_223_372_036_854_775_807,
    ;
    let v = round_div_i128(b as i128 * m as i128, ONE as i128);
    if v < 0 {
        0
    } else if v > 255 {
        255
    } else {
        v as u8
    }
}

impl RenderedEffect {
    /// One frame per multiplier, in order; byte `j` of frame `k` is
    /// `round(image[j] · multiplier[k])` clamped to `[0, 255]`.
    pub fn apply(&self, image: &Vec<u8>) -> (r: Vec<AnimationFrame>)
        ensures
            applied(r@, image@, self.multipliers@),
    {
        let mut result: Vec<AnimationFrame> = Vec::new();
        let mut k: usize = 0;
        while k < self.multipliers.len()
            invariant
                k <= self.multipliers@.len(),
                result@.len() == k,
                forall|i: int|
                    0 <= i < k ==> #[trigger] result@[i].data@ == scaled_frame(
                        image@,
                        self.multipliers@[i],
                    ),
            decreases self.multipliers@.len() - k,
        {
            let m = self.multipliers[k];
            let mut data: Vec<u8> = Vec::new();
            let mut j: usize = 0;
            while j < image.len()
                invariant
                    j <= image@.len(),
                    data@ == scaled_frame(image@, m).take(j as int),
                decreases image@.len() - j,
            {
                data.push(scale(image[j], m));
                j = j + 1;
                assert(data@ =~= scaled_frame(image@, m).take(j as int));
            }
            assert(data@ =~= scaled_frame(image@, m));
            result.push(AnimationFrame { data });
            k = k + 1;
        }
        result
    }
}

} // verus!
