use vstd::prelude::*;
use vstd::arithmetic::mul::lemma_mul_upper_bound;

use crate::error::CwtError;
use crate::ratio::{Ratio, MAX_RATIO_PART};

verus! {

/// A set of analysis scales, one per row of a transform, highest frequency first.
pub trait Scales {
    /// The number of scales.
    spec fn spec_len(&self) -> nat;

    /// Samples per second.
    spec fn spec_sample_rate(&self) -> nat;

    /// The scale of row `i`, in samples.
    spec fn spec_scale(&self, i: int) -> Ratio;

    /// The pseudo-frequency of row `i`, in millihertz.
    spec fn spec_freq(&self, i: int) -> Ratio;

    fn len(&self) -> (r: usize)
        ensures
            r == self.spec_len(),
    ;

    fn sample_rate(&self) -> (r: u32)
        ensures
            r == self.spec_sample_rate(),
    ;

    /// The scale of row `index`; its parts are bounded so that a transform can be planned on it.
    fn scale(&self, index: usize) -> (r: Ratio)
        requires
            index < self.spec_len(),
        ensures
            r == self.spec_scale(index as int),
            0 < r.num <= MAX_RATIO_PART,
            r.den <= MAX_RATIO_PART,
    ;

    fn freq(&self, index: usize) -> (r: Ratio)
        requires
            index < self.spec_len(),
        ensures
            r == self.spec_freq(index as int),
    ;
}

/// The mathematical content of a linear scale set.
pub struct LinGrid {
    /// Samples per second.
    pub sample_rate: nat,
    /// Lowest analysis frequency, in millihertz.
    pub start: nat,
    /// Upper frequency bound, in millihertz.
    pub end: nat,
    /// Number of scales.
    pub count: nat,
}

/// The Nyquist bound of a sample rate, in millihertz: exactly half the rate.
pub open spec fn nyquist_mhz(sample_rate: int) -> int {
    sample_rate * 500
}

impl LinGrid {
    /// The bounds are ordered and the upper one does not exceed the Nyquist bound.
    pub open spec fn valid(self) -> bool {
        self.start < self.end && self.end <= nyquist_mhz(self.sample_rate as int)
    }

    /// Grid point `k` of the frequency range, scaled by `count`: the frequency
    /// `start + (end - start) * k / count` equals `grid(k) / count` millihertz.
    pub open spec fn grid(self, k: int) -> int {
        self.start * (self.count - k) + self.end * k
    }

    /// Row `s` holds grid point `count - 1 - s`, so that row 0 is the highest frequency.
    pub open spec fn freq_num(self, s: int) -> int {
        self.grid(self.count - 1 - s)
    }

    /// The numerator shared by every row's scale: `sample_rate` in millihertz per hertz, times `count`.
    pub open spec fn scale_num(self) -> int {
        (self.sample_rate * 1000 * self.count) as int
    }

    /// The frequency of row `s`, in millihertz.
    pub open spec fn freq(self, s: int) -> Ratio {
        Ratio { num: self.freq_num(s) as u128, den: self.count as u128 }
    }

    /// The scale of row `s`, in samples: `sample_rate / freq(s)`.
    pub open spec fn scale(self, s: int) -> Ratio {
        Ratio { num: self.scale_num() as u128, den: self.freq_num(s) as u128 }
    }
}

/// Scales whose frequencies are evenly spaced between a start and an end frequency.
///
/// Frequencies are given in millihertz. Row `s` of `count` rows analyses the frequency
/// `start + (end - start) * (count - 1 - s) / count`, at scale `sample_rate / frequency`.
#[derive(Debug, Clone, Copy)]
pub struct LinFreqs {
    sample_rate: u32,
    start_mhz: u64,
    end_mhz: u64,
    count: u32,
}

impl View for LinFreqs {
    type V = LinGrid;

    closed spec fn view(&self) -> LinGrid {
        LinGrid {
            sample_rate: self.sample_rate as nat,
            start: self.start_mhz as nat,
            end: self.end_mhz as nat,
            count: self.count as nat,
        }
    }
}

proof fn lemma_grid_bounds(g: LinGrid, k: int)
    requires
        0 <= g.start <= u64::MAX,
        0 <= g.end <= u64::MAX,
        0 <= g.count <= u32::MAX,
        0 <= k <= g.count,
    ensures
        0 <= g.start * (g.count - k) <= u64::MAX * u32::MAX,
        0 <= g.end * k <= u64::MAX * u32::MAX,
        0 <= g.grid(k) <= 2 * u64::MAX * u32::MAX,
{
    lemma_mul_upper_bound(g.start as int, u64::MAX as int, g.count - k, u32::MAX as int);
    lemma_mul_upper_bound(g.end as int, u64::MAX as int, k, u32::MAX as int);
    assert(0 <= g.start * (g.count - k)) by (nonlinear_arith)
        requires
            0 <= g.start,
            0 <= g.count - k,
    ;
    assert(0 <= g.end * k) by (nonlinear_arith)
        requires
            0 <= g.end,
            0 <= k,
    ;
}

proof fn lemma_scale_num_bound(g: LinGrid)
    requires
        0 <= g.sample_rate <= u32::MAX,
        0 <= g.count <= u32::MAX,
    ensures
        0 <= g.scale_num() <= u32::MAX * 1000 * u32::MAX,
{
    lemma_mul_upper_bound((g.sample_rate * 1000) as int, u32::MAX * 1000, g.count as int, u32::MAX as int);
    assert(0 <= g.sample_rate * 1000 * g.count) by (nonlinear_arith)
        requires
            0 <= g.sample_rate,
            0 <= g.count,
    ;
}

/// Consecutive grid points are `end - start` apart.
pub proof fn lemma_grid_diff(g: LinGrid, a: int, b: int)
    ensures
        g.grid(a) - g.grid(b) == (g.end - g.start) * (a - b),
{
    assert(g.start * (g.count - a) + g.end * a - (g.start * (g.count - b) + g.end * b) == (g.end
        - g.start) * (a - b)) by (nonlinear_arith);
}

/// The layout of a linear scale set: the last row analyses exactly the start frequency,
/// the first row lies one grid step `(end - start) / count` below the end frequency, and
/// frequencies strictly decrease as the row index grows.
pub proof fn lemma_lin_freqs_layout(l: &LinFreqs)
    requires
        l@.valid(),
        l@.count > 0,
    ensures
        l.spec_freq(l@.count - 1).is_int(l@.start as int),
        l.spec_freq(0).num + (l@.end - l@.start) == l@.end * l.spec_freq(0).den,
        l.spec_freq(0).less_than(Ratio { num: l@.end as u128, den: 1 }),
        forall|s: int, t: int|
            0 <= s < t < l@.count ==> #[trigger] l.spec_freq(t).less_than(#[trigger] l.spec_freq(s)),
{
    let g = l@;
    lemma_grid_bounds(g, 0);
    lemma_grid_bounds(g, g.count - 1);
    lemma_grid_diff(g, g.count as int, g.count - 1);
    assert(g.grid(g.count as int) == g.end * g.count) by (nonlinear_arith);
    assert(g.grid(0) == g.start * g.count) by (nonlinear_arith);
    assert(g.freq_num(0) == g.grid(g.count - 1));
    assert(g.freq_num(0) + (g.end - g.start) == g.end * g.count);
    assert forall|s: int, t: int| 0 <= s < t < g.count implies #[trigger] l.spec_freq(t).less_than(
        #[trigger] l.spec_freq(s),
    ) by {
        lemma_grid_bounds(g, g.count - 1 - s);
        lemma_grid_bounds(g, g.count - 1 - t);
        lemma_grid_diff(g, g.count - 1 - s, g.count - 1 - t);
        assert((g.end - g.start) * (t - s) > 0) by (nonlinear_arith)
            requires
                g.end - g.start > 0,
                t - s > 0,
        ;
        let fs = g.freq_num(s);
        let ft = g.freq_num(t);
        assert(ft * g.count < fs * g.count) by (nonlinear_arith)
            requires
                ft < fs,
                g.count > 0,
        ;
    }
}

/// Every row's frequency is the sample rate divided by that row's scale:
/// `freq(i) * scale(i) == sample_rate`, with the frequency in millihertz.
pub proof fn lemma_freq_is_rate_over_scale(l: &LinFreqs, i: int)
    requires
        l@.valid(),
        0 <= i < l@.count,
    ensures
        l.spec_freq(i).num * l.spec_scale(i).num == l@.sample_rate * 1000 * l.spec_freq(i).den
            * l.spec_scale(i).den,
{
    let g = l@;
    lemma_grid_bounds(g, g.count - 1 - i);
    lemma_scale_num_bound(g);
    let f = g.freq_num(i);
    assert(f * (g.sample_rate * 1000 * g.count) == g.sample_rate * 1000 * g.count * f)
        by (nonlinear_arith);
}

/// Bounds on the parts of every row's scale, which keep the transform plan's arithmetic
/// within 128 bits.
pub proof fn lemma_scale_parts(l: &LinFreqs, s: int)
    requires
        l@.valid(),
        0 <= s < l@.count,
    ensures
        0 < l.spec_scale(s).num <= MAX_RATIO_PART,
        l.spec_scale(s).den <= MAX_RATIO_PART,
        l.spec_scale(s).num == l@.scale_num(),
        l.spec_scale(s).den == l@.freq_num(s),
{
    let g = l@;
    let k = g.count - 1 - s;
    lemma_grid_bounds(g, k);
    lemma_scale_num_bound(g);
    lemma_grid_diff(g, g.count as int, k);
    assert(g.grid(g.count as int) == g.end * g.count) by (nonlinear_arith);
    assert((g.end - g.start) * (g.count - k) >= 0) by (nonlinear_arith)
        requires
            g.end > g.start,
            g.count - k >= 0,
    ;
    assert(g.end <= 0x200_0000_0000);
    lemma_mul_upper_bound(g.end as int, 0x200_0000_0000, g.count as int, u32::MAX as int);
    assert(g.sample_rate >= 1);
    assert(g.sample_rate * 1000 * g.count > 0) by (nonlinear_arith)
        requires
            g.sample_rate >= 1,
            g.count >= 1,
    ;
}

impl LinFreqs {
    #[verifier::type_invariant]
    pub open spec fn well_formed(&self) -> bool {
        self@.valid()
    }

    /// Builds `count` scales for frequencies evenly spaced from `start_mhz` up towards
    /// `end_mhz`, in millihertz. Fails with `InvalidRange` unless
    /// `start_mhz < end_mhz <= nyquist_mhz(sample_rate)`.
    pub fn new(sample_rate: u32, start_mhz: u64, end_mhz: u64, count: u32) -> (r: Result<
        LinFreqs,
        CwtError,
    >)
        ensures
            (r is Ok) == (start_mhz < end_mhz && end_mhz <= nyquist_mhz(sample_rate as int)),
            r matches Ok(l) ==> l@ == (LinGrid {
                sample_rate: sample_rate as nat,
                start: start_mhz as nat,
                end: end_mhz as nat,
                count: count as nat,
            }),
            r matches Ok(l) ==> l@.valid(),
            r matches Err(e) ==> e == CwtError::InvalidRange,
    {
        let nyquist: u64 = sample_rate as u64 * 500;
        if start_mhz >= end_mhz || end_mhz > nyquist {
            return Err(CwtError::InvalidRange);
        }
        Ok(LinFreqs { sample_rate, start_mhz, end_mhz, count })
    }

    /// The lowest analysis frequency, in millihertz.
    pub fn start_mhz(&self) -> (r: u64)
        ensures
            r == self@.start,
    {
        self.start_mhz
    }

    /// The upper frequency bound, in millihertz.
    pub fn end_mhz(&self) -> (r: u64)
        ensures
            r == self@.end,
    {
        self.end_mhz
    }

    /// Numerator of row `index`'s frequency over `count`, in millihertz.
    fn freq_num(&self, index: usize) -> (r: u128)
        requires
            index < self@.count,
        ensures
            r == self@.freq_num(index as int),
    {
        let k: u128 = (self.count as u128) - 1 - (index as u128);
        proof {
            lemma_grid_bounds(self@, k as int);
        }
        (self.start_mhz as u128) * ((self.count as u128) - k) + (self.end_mhz as u128) * k
    }
}

impl Scales for LinFreqs {
    open spec fn spec_len(&self) -> nat {
        self@.count as nat
    }

    open spec fn spec_sample_rate(&self) -> nat {
        self@.sample_rate
    }

    open spec fn spec_scale(&self, i: int) -> Ratio {
        self@.scale(i)
    }

    open spec fn spec_freq(&self, i: int) -> Ratio {
        self@.freq(i)
    }

    fn len(&self) -> (r: usize) {
        self.count as usize
    }

    fn sample_rate(&self) -> (r: u32) {
        self.sample_rate
    }

    fn scale(&self, index: usize) -> (r: Ratio) {
        proof {
            use_type_invariant(self);
            lemma_scale_num_bound(self@);
            lemma_scale_parts(self, index as int);
        }
        let num: u128 = (self.sample_rate as u128) * 1000 * (self.count as u128);
        Ratio { num, den: self.freq_num(index) }
    }

    fn freq(&self, index: usize) -> (r: Ratio) {
        Ratio { num: self.freq_num(index), den: self.count as u128 }
    }
}

} // verus!
