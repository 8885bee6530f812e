//! The waveform engine: sample values of sine, truncated sine and sawtooth
//! waves, in fixed point.
//!
//! A sample is addressed as sample `k` of `n` samples per period: its position
//! is `period * k / n`. The sine term comes from a [`SineTable`], a tabulation
//! of one full turn of the sine.
use vstd::prelude::*;
use crate::fixed::{ONE, MAX_LEVEL, round_div, floor_div, round_div_i128, floor_div_i128, lemma_round_div_bound};

verus! {

/// Longest accepted period: one million seconds, in millionths.
pub const MAX_PERIOD: u64 = 1_000_000_000_000;

/// Most samples that one period can hold at the highest frame rate.
pub const MAX_SAMPLES: u64 = 255_000_001;

/// Most entries of a sine table.
pub const MAX_TABLE_LEN: usize = 1_000_000_000;

/// The closed set of waveform shapes.
#[derive(Clone, Copy, Debug, PartialEq, Eq, Structural)]
pub enum Waveform {
    Sine,
    TruncatedSine,
    Sawtooth,
}

/// Parameters of one waveform. Levels and times are in millionths.
#[derive(Clone, Copy, Debug, PartialEq, Eq, Structural)]
pub struct WaveformParameters {
    pub amplitude: i64,
    /// Length of one period, in millionths of a second.
    pub period: u64,
    pub v_offset: i64,
    /// Horizontal shift, in millionths of a second.
    pub h_offset: i64,
    pub exponent: u32,
}

impl WaveformParameters {
    pub open spec fn wf(&self) -> bool {
        &&& 0 < self.period <= MAX_PERIOD
        &&& -MAX_LEVEL <= self.amplitude <= MAX_LEVEL
        &&& -MAX_LEVEL <= self.v_offset <= MAX_LEVEL
        &&& -MAX_LEVEL <= self.h_offset <= MAX_LEVEL
    }
}

/// One full turn of the sine, sampled at equal steps: entry `i` of `len`
/// entries holds `sin(2π·i/len)` in millionths.
pub struct SineTable {
    pub values: Vec<i64>,
}

pub open spec fn sine_table_wf(t: Seq<i64>) -> bool {
    &&& 0 < t.len() <= MAX_TABLE_LEN
    &&& forall|i: int| 0 <= i < t.len() ==> -ONE <= #[trigger] t[i] <= ONE
}

impl SineTable {
    pub open spec fn view(&self) -> Seq<i64> {
        self.values@
    }

    pub open spec fn wf(&self) -> bool {
        sine_table_wf(self@)
    }
}

/// Phase of sample `k` of `n`, in millionths of a turn, within `[0, ONE)`:
/// the fractional part of `(period·k/n + h_offset) / period`.
pub open spec fn phase(p: WaveformParameters, k: int, n: int) -> int {
    floor_div((p.period * k + p.h_offset * n) * ONE, p.period * n) % (ONE as int)
}

/// The table entry for a phase in millionths of a turn.
pub open spec fn sine_lookup(t: Seq<i64>, ph: int) -> int {
    t[ph * t.len() / (ONE as int)] as int
}

/// `s` raised to the power `e`, both in millionths, rounding at each step.
pub open spec fn fixed_pow(s: int, e: nat) -> int
    decreases e,
{
    if e == 0 {
        ONE as int
    } else {
        round_div(fixed_pow(s, (e - 1) as nat) * s, ONE as int)
    }
}

pub open spec fn abs(x: int) -> int {
    if x < 0 {
        -x
    } else {
        x
    }
}

/// `amplitude · sin(...)^exponent + v_offset` at sample `k` of `n`.
pub open spec fn sine_value(p: WaveformParameters, k: int, n: int, t: Seq<i64>) -> int {
    p.v_offset + round_div(
        p.amplitude * fixed_pow(sine_lookup(t, phase(p, k, n)), p.exponent as nat),
        ONE as int,
    )
}

/// `amplitude · |sin(...)|^exponent + v_offset` at sample `k` of `n`.
pub open spec fn trunc_sine_value(p: WaveformParameters, k: int, n: int, t: Seq<i64>) -> int {
    p.v_offset + round_div(
        p.amplitude * fixed_pow(abs(sine_lookup(t, phase(p, k, n))), p.exponent as nat),
        ONE as int,
    )
}

/// `2·amplitude·(x − floor(0.5 + x)) + v_offset` where `x = period·k/n + h_offset`,
/// computed exactly over the common denominator `ONE·n` and rounded down, so
/// that the ramp keeps to `[v_offset − amplitude, v_offset + amplitude)`.
pub open spec fn sawtooth_value(p: WaveformParameters, k: int, n: int) -> int {
    let unit = ONE * n;
    let x = p.period * k + p.h_offset * n;
    let centered = x - unit * floor_div(2 * x + unit, 2 * unit);
    p.v_offset + floor_div(2 * p.amplitude * centered, unit)
}

pub open spec fn sample_value(w: Waveform, p: WaveformParameters, k: int, n: int, t: Seq<i64>) -> int {
    match w {
        Waveform::Sine => sine_value(p, k, n, t),
        Waveform::TruncatedSine => trunc_sine_value(p, k, n, t),
        Waveform::Sawtooth => sawtooth_value(p, k, n),
    }
}

pub proof fn lemma_fixed_pow_bound(s: int, e: nat)
    requires
        -ONE <= s <= ONE,
    ensures
        -ONE <= fixed_pow(s, e) <= ONE,
    decreases e,
{
    if e > 0 {
        lemma_fixed_pow_bound(s, (e - 1) as nat);
        let a = fixed_pow(s, (e - 1) as nat);
        assert(-(ONE * ONE) <= a * s <= ONE * ONE) by (nonlinear_arith)
            requires
                -1_000_000 <= a <= 1_000_000,
                -1_000_000 <= s <= 1_000_000,
        ;
        lemma_round_div_bound(a * s, ONE as int, ONE as int);
    }
}

/// `s` raised to the power `e` in fixed point.
pub fn pow_fixed(s: i64, e: u32) -> (r: i64)
    requires
        -ONE <= s <= ONE,
    ensures
        r == fixed_pow(s as int, e as nat),
        -ONE <= r <= ONE,
{
    let mut acc: i64 = ONE;
    let mut i: u32 = 0;
    while i < e
        invariant
            i <= e,
            -ONE <= s <= ONE,
            acc == fixed_pow(s as int, i as nat),
            -ONE <= acc <= ONE,
        decreases e - i,
    {
        proof {
            lemma_fixed_pow_bound(s as int, (i + 1) as nat);
        }
        assert((acc as int) * (s as int) <= 1_000_000_000_000 && (acc as int) * (s as int)
            >= -1_000_000_000_000) by (nonlinear_arith)
            requires
                -1_000_000 <= acc <= 1_000_000,
                -1_000_000 <= s <= 1_000_000,
        ;
        acc = round_div_i128(acc as i128 * s as i128, ONE as i128) as i64;
        i = i + 1;
    }
    acc
}


/// The phase of sample `k` of `n`, in millionths of a turn.
pub fn sample_phase(p: &WaveformParameters, k: u64, n: u64) -> (r: u64)
    requires
        p.wf(),
        k < n <= MAX_SAMPLES,
    ensures
        r == phase(*p, k as int, n as int),
        r < ONE,
{
    let period = p.period as i128;
    let h = p.h_offset as i128;
    assert(-255_000_001_000_000_000_000 <= h * (n as i128) <= 255_000_001_000_000_000_000)
        by (nonlinear_arith)
        requires
            -1_000_000_000_000 <= h <= 1_000_000_000_000,
            n <= 255_000_001,
    ;
    assert(0 <= period * (k as i128) <= 255_000_001_000_000_000_000) by (nonlinear_arith)
        requires
            0 < period <= 1_000_000_000_000,
            k <= 255_000_001,
    ;
    assert(1 <= period * (n as i128) <= 255_000_001_000_000_000_000) by (nonlinear_arith)
        requires
            0 < period <= 1_000_000_000_000,
            1 <= n <= 255_000_001,
    ;
    let x = period * (k as i128) + h * (n as i128);
    assert(-510_000_002_000_000_000_000 <= x <= 510_000_002_000_000_000_000);
    let num = x * 1_000_000;
    let den = period * (n as i128);
    let q = floor_div_i128(num, den);
    assert(-600_000_000_000_000_000_000_000_000 <= q <= 600_000_000_000_000_000_000_000_000)
        by (nonlinear_arith)
        requires
            -600_000_000_000_000_000_000_000_000 <= num <= 600_000_000_000_000_000_000_000_000,
            1 <= den,
            q == (num as int) / (den as int),
    ;
    let turns = floor_div_i128(q, ONE as i128);
    let r = q - turns * (ONE as i128);
    assert(r as int == (q as int) % (ONE as int));
    r as u64
}

/// The table entry at a phase given in millionths of a turn.
pub fn sine_at(table: &SineTable, ph: u64) -> (r: i64)
    requires
        table.wf(),
        ph < ONE,
    ensures
        r == sine_lookup(table@, ph as int),
        -ONE <= r <= ONE,
{
    let len = table.values.len();
    assert(0 <= (ph as int) * (len as int) / 1_000_000 < len) by (nonlinear_arith)
        requires
            0 <= ph < 1_000_000,
            0 < len,
    ;
    assert((ph as int) * (len as int) <= 1_000_000_000_000_000) by (nonlinear_arith)
        requires
            0 <= ph < 1_000_000,
            len <= 1_000_000_000,
    ;
    let idx = ((ph as u128) * (len as u128) / (ONE as u128)) as usize;
    table.values[idx]
}

/// Base mathematical functions of the waveforms.
pub struct Math;

impl Math {
    /// `amplitude · sin(2π·(i + h_offset)/period)^exponent + v_offset` at
    /// position `i = period·k/n`.
    pub fn sin_wave(k: u64, n: u64, p: &WaveformParameters, table: &SineTable) -> (r: i64)
        requires
            p.wf(),
            table.wf(),
            k < n <= MAX_SAMPLES,
        ensures
            r == sine_value(*p, k as int, n as int, table@),
    {
        let s = sine_at(table, sample_phase(p, k, n));
        Math::scaled(pow_fixed(s, p.exponent), p)
    }

    /// As [`Math::sin_wave`], with the magnitude of the sine taken before the
    /// power, so that the term never goes below zero.
    pub fn trunc_sin_wave(k: u64, n: u64, p: &WaveformParameters, table: &SineTable) -> (r: i64)
        requires
            p.wf(),
            table.wf(),
            k < n <= MAX_SAMPLES,
        ensures
            r == trunc_sine_value(*p, k as int, n as int, table@),
    {
        let s = sine_at(table, sample_phase(p, k, n));
        let m = if s < 0 {
            -s
        } else {
            s
        };
        Math::scaled(pow_fixed(m, p.exponent), p)
    }

    /// `amplitude · term + v_offset`, for a term in millionths.
    fn scaled(term: i64, p: &WaveformParameters) -> (r: i64)
        requires
            p.wf(),
            -ONE <= term <= ONE,
        ensures
            r == p.v_offset + round_div(p.amplitude * term, ONE as int),
            -2 * MAX_LEVEL <= r <= 2 * MAX_LEVEL,
    {
        let a = p.amplitude as i128;
        assert(-1_000_000_000_000_000_000 <= a * (term as i128) <= 1_000_000_000_000_000_000)
            by (nonlinear_arith)
            requires
                -1_000_000_000_000 <= a <= 1_000_000_000_000,
                -1_000_000 <= term <= 1_000_000,
        ;
        let prod = a * (term as i128);
        let part = round_div_i128(prod, ONE as i128);
        proof {
            let m: int = if a < 0 { -a } else { a as int };
            assert(-(m * ONE) <= prod <= m * ONE) by (nonlinear_arith)
                requires
                    m >= 0,
                    -m <= a <= m,
                    -1_000_000 <= term <= 1_000_000,
                    prod == a * term,
            ;
            lemma_round_div_bound(prod as int, ONE as int, m);
        }
        (p.v_offset as i128 + part) as i64
    }

    /// `2·amplitude·((i + h_offset) − floor(0.5 + i + h_offset)) + v_offset` at
    /// position `i = period·k/n`: a ramp centred on `v_offset`.
    pub fn sawtooth(k: u64, n: u64, p: &WaveformParameters) -> (r: i64)
        requires
            p.wf(),
            k < n <= MAX_SAMPLES,
        ensures
            r == sawtooth_value(*p, k as int, n as int),
            p.amplitude >= 0 ==> p.v_offset - p.amplitude <= r,
            p.amplitude > 0 ==> r < p.v_offset + p.amplitude,
            p.amplitude < 0 ==> p.v_offset + p.amplitude <= r <= p.v_offset - p.amplitude,
    {
        let period = p.period as i128;
        let h = p.h_offset as i128;
        assert(-255_000_001_000_000_000_000 <= h * (n as i128) <= 255_000_001_000_000_000_000)
            by (nonlinear_arith)
            requires
                -1_000_000_000_000 <= h <= 1_000_000_000_000,
                n <= 255_000_001,
        ;
        assert(0 <= period * (k as i128) <= 255_000_001_000_000_000_000) by (nonlinear_arith)
            requires
                0 < period <= 1_000_000_000_000,
                k <= 255_000_001,
        ;
        let unit = (ONE as i128) * (n as i128);
        let x = period * (k as i128) + h * (n as i128);
        assert(-510_000_002_000_000_000_000 <= x <= 510_000_002_000_000_000_000);
        let q = floor_div_i128(2 * x + unit, 2 * unit);
        proof {
            assert(2 * unit * q <= 2 * x + unit < 2 * unit * q + 2 * unit) by (nonlinear_arith)
                requires
                    unit > 0,
                    q == (2 * x + unit) / (2 * unit),
            ;
            assert(x - unit < unit * q <= x + unit && -unit <= 2 * (x - unit * q) < unit)
                by (nonlinear_arith)
                requires
                    unit > 0,
                    2 * unit * q <= 2 * x + unit < 2 * unit * q + 2 * unit,
            ;
        }
        let centered = x - unit * q;
        let a = p.amplitude as i128;
        proof {
            assert(unit <= 255_000_001_000_000);
            if a >= 0 {
                assert(-(a * unit) <= 2 * a * centered <= a * unit && (a > 0 ==> 2 * a * centered
                    < a * unit)) by (nonlinear_arith)
                    requires
                        a >= 0,
                        -unit <= 2 * centered < unit,
                ;
            } else {
                assert(a * unit < 2 * a * centered <= -(a * unit)) by (nonlinear_arith)
                    requires
                        a < 0,
                        -unit <= 2 * centered < unit,
                ;
            }
            assert(-1_000_000_000_000_000_000_000_000_000 <= a * unit
                <= 1_000_000_000_000_000_000_000_000_000) by (nonlinear_arith)
                requires
                    -1_000_000_000_000 <= a <= 1_000_000_000_000,
                    0 < unit <= 255_000_001_000_000,
            ;
        }
        let y = 2 * a * centered;
        let part = floor_div_i128(y, unit);
        proof {
            if a >= 0 {
                assert(-a <= part <= a && (a > 0 ==> part < a)) by (nonlinear_arith)
                    requires
                        unit > 0,
                        part == y / unit,
                        -(a * unit) <= y <= a * unit,
                        a > 0 ==> y < a * unit,
                ;
            } else {
                assert(a <= part <= -a) by (nonlinear_arith)
                    requires
                        unit > 0,
                        part == y / unit,
                        a * unit < y <= -(a * unit),
                ;
            }
            assert(-1_000_000_000_000 <= part <= 1_000_000_000_000);
            assert(part as int == floor_div(2 * p.amplitude * centered, unit as int));
        }
        (p.v_offset as i128 + part) as i64
    }
}

} // verus!

verus! {

/// The sine waveform.
pub struct SinEffect;

/// The sine waveform with its sine term taken by magnitude.
pub struct TruncSinEffect;

/// The sawtooth waveform.
pub struct SawtoothEffect;

impl SinEffect {
    pub fn math_func(&self, k: u64, n: u64, p: &WaveformParameters, table: &SineTable) -> (r: i64)
        requires
            p.wf(),
            table.wf(),
            k < n <= MAX_SAMPLES,
        ensures
            r == sine_value(*p, k as int, n as int, table@),
    {
        Math::sin_wave(k, n, p, table)
    }
}

impl TruncSinEffect {
    pub fn math_func(&self, k: u64, n: u64, p: &WaveformParameters, table: &SineTable) -> (r: i64)
        requires
            p.wf(),
            table.wf(),
            k < n <= MAX_SAMPLES,
        ensures
            r == trunc_sine_value(*p, k as int, n as int, table@),
    {
        Math::trunc_sin_wave(k, n, p, table)
    }
}

impl SawtoothEffect {
    pub fn math_func(&self, k: u64, n: u64, p: &WaveformParameters) -> (r: i64)
        requires
            p.wf(),
            k < n <= MAX_SAMPLES,
        ensures
            r == sawtooth_value(*p, k as int, n as int),
    {
        Math::sawtooth(k, n, p)
    }
}

} // verus!
