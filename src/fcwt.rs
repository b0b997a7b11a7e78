use vstd::prelude::*;

use crate::error::CwtError;
use crate::ratio::{Ratio, MAX_RATIO_PART};
use crate::result::CwtResult;
use crate::scales::Scales;
use crate::wavelet::Wavelet;

verus! {

/// The longest input signal a transform is planned for (2^48 samples). Together with
/// `MAX_RATIO_PART` it keeps every product of the plan's integer arithmetic within 128 bits.
pub const MAX_SIGNAL_LEN: u64 = 0x1_0000_0000_0000;


/// `n` is a power of two.
pub open spec fn is_pow2(n: nat) -> bool
    decreases n,
{
    if n == 0 {
        false
    } else if n == 1 {
        true
    } else {
        n % 2 == 0 && is_pow2(n / 2)
    }
}

/// The number of spectrum bins, counted from bin 0, that the daughter wavelet at `scale`
/// covers in a spectrum of `n` bins: `min(n / 2, floor(2n / scale))`. Later bins are left
/// at zero.
pub open spec fn band_end(n: int, scale: Ratio) -> int {
    let limit = (2 * n * scale.den) / (scale.num as int);
    if n / 2 <= limit {
        n / 2
    } else {
        limit
    }
}

/// The sample of the mother envelope (of length `n`) that filters bin `i` at `scale`:
/// `i` times the step `scale / 2`, rounded to the nearest sample (halves up), clamped to
/// the last sample.
pub open spec fn mother_index(n: int, scale: Ratio, i: int) -> int {
    let idx = (scale.num * i + scale.den) / (2 * scale.den);
    if idx <= n - 1 {
        idx
    } else {
        n - 1
    }
}

/// The resampling map of the daughter wavelet at `scale`: entry `i` is the mother-envelope
/// sample that multiplies spectrum bin `i`, for each bin below `band_end(n, scale)`.
pub open spec fn daughter_map(n: int, scale: Ratio) -> Seq<usize> {
    Seq::new(band_end(n, scale) as nat, |i: int| mother_index(n, scale, i) as usize)
}

/// Tells whether `n` is a power of two.
pub fn is_power_of_two(n: usize) -> (r: bool)
    ensures
        r == is_pow2(n as nat),
{
    if n == 0 {
        return false;
    }
    let mut m: usize = n;
    while m > 1 && m % 2 == 0
        invariant
            m > 0,
            is_pow2(n as nat) == is_pow2(m as nat),
        decreases m,
    {
        m = m / 2;
    }
    m == 1
}

/// Fails with `InvalidInputLength` unless `n` is a power of two.
pub fn check_input_length(n: usize) -> (r: Result<(), CwtError>)
    ensures
        (r is Ok) == is_pow2(n as nat),
        r matches Err(e) ==> e == CwtError::InvalidInputLength,
{
    if is_power_of_two(n) {
        Ok(())
    } else {
        Err(CwtError::InvalidInputLength)
    }
}

/// Computes `band_end(n, scale)`.
pub fn band_limit(n: usize, scale: Ratio) -> (r: usize)
    requires
        n <= MAX_SIGNAL_LEN,
        0 < scale.num,
        scale.den <= MAX_RATIO_PART,
    ensures
        r == band_end(n as int, scale),
{
    assert(2 * n * scale.den <= 2 * MAX_SIGNAL_LEN * MAX_RATIO_PART) by (nonlinear_arith)
        requires
            n <= MAX_SIGNAL_LEN,
            scale.den <= MAX_RATIO_PART,
    ;
    let limit: u128 = 2 * (n as u128) * scale.den / scale.num;
    let half: usize = n / 2;
    if (half as u128) <= limit {
        half
    } else {
        limit as usize
    }
}

/// The resampling map of the daughter wavelet at `scale` for a spectrum of `n` bins:
/// which mother-envelope sample multiplies each bin that the wavelet covers.
pub fn daughter_indices(n: usize, scale: Ratio) -> (r: Vec<usize>)
    requires
        0 < n <= MAX_SIGNAL_LEN,
        0 < scale.num <= MAX_RATIO_PART,
        scale.den <= MAX_RATIO_PART,
    ensures
        r@ == daughter_map(n as int, scale),
{
    let end = band_limit(n, scale);
    let mut out: Vec<usize> = Vec::new();
    let mut i: usize = 0;
    while i < end
        invariant
            0 < n <= MAX_SIGNAL_LEN,
            0 < scale.num <= MAX_RATIO_PART,
            scale.den <= MAX_RATIO_PART,
            end == band_end(n as int, scale),
            i <= end,
            out@.len() == i,
            forall|j: int| 0 <= j < i ==> out@[j] == mother_index(n as int, scale, j) as usize,
        decreases end - i,
    {
        assert(end <= n / 2);
        assert(scale.num * i + scale.den <= MAX_RATIO_PART * MAX_SIGNAL_LEN + MAX_RATIO_PART)
            by (nonlinear_arith)
            requires
                scale.num <= MAX_RATIO_PART,
                i <= MAX_SIGNAL_LEN,
                scale.den <= MAX_RATIO_PART,
        ;
        // A bin below the band end has a positive scale denominator.
        assert(scale.den > 0) by {
            if scale.den == 0 {
                assert(2 * n * scale.den == 0) by (nonlinear_arith)
                    requires
                        scale.den == 0,
                ;
            }
        }
        let idx: u128 = (scale.num * (i as u128) + scale.den) / (2 * scale.den);
        let m: usize = if idx <= (n - 1) as u128 {
            idx as usize
        } else {
            n - 1
        };
        out.push(m);
        i = i + 1;
    }
    assert(out@ =~= daughter_map(n as int, scale));
    out
}

/// Every entry of a daughter map picks a sample of the mother envelope, and the map covers
/// at most the lower half of the spectrum.
pub proof fn lemma_daughter_map_in_bounds(n: int, scale: Ratio)
    requires
        0 < n,
        0 < scale.num,
    ensures
        daughter_map(n, scale).len() <= n / 2,
        forall|j: int|
            0 <= j < daughter_map(n, scale).len() ==> #[trigger] daughter_map(n, scale)[j] < n,
{
    let limit = (2 * n * scale.den) / (scale.num as int);
    assert(0 <= limit) by (nonlinear_arith)
        requires
            0 < n,
            0 <= scale.den,
            0 < scale.num,
            limit == (2 * n * scale.den) / (scale.num as int),
    ;
    assert forall|j: int| 0 <= j < daughter_map(n, scale).len() implies #[trigger] daughter_map(
        n,
        scale,
    )[j] < n by {
        if scale.den == 0 {
            assert(2 * n * scale.den == 0) by (nonlinear_arith)
                requires
                    scale.den == 0,
            ;
        }
        let idx = (scale.num * j + scale.den) / (2 * scale.den);
        assert(0 <= idx) by (nonlinear_arith)
            requires
                0 < scale.den,
                0 <= j,
                0 < scale.num,
                idx == (scale.num * j + scale.den) / (2 * scale.den),
        ;
    }
}

/// The filtered spectrum of one scale: bin `i` below the length of `map` is spectrum bin
/// `i` weighted by mother sample `map[i]`; every later bin is `zero`.
pub fn daughter_wavelet_multiply<C: Copy, M: Copy, F: Fn(C, M) -> C>(
    spectrum: &Vec<C>,
    mother: &Vec<M>,
    map: &Vec<usize>,
    zero: C,
    weigh: &F,
) -> (r: Vec<C>)
    requires
        map.len() <= spectrum.len(),
        forall|j: int| 0 <= j < map.len() ==> #[trigger] map[j] < mother.len(),
        forall|c: C, m: M| #[trigger] weigh.requires((c, m)),
    ensures
        r.len() == spectrum.len(),
        forall|i: int| 0 <= i < map.len() ==> weigh.ensures((spectrum[i], mother[map[i] as int]), #[trigger] r[i]),
        forall|i: int| map.len() <= i < r.len() ==> #[trigger] r[i] == zero,
{
    let mut out: Vec<C> = Vec::new();
    let mut i: usize = 0;
    while i < map.len()
        invariant
            map.len() <= spectrum.len(),
            forall|j: int| 0 <= j < map.len() ==> #[trigger] map[j] < mother.len(),
            forall|c: C, m: M| #[trigger] weigh.requires((c, m)),
            i <= map.len(),
            out.len() == i,
            forall|j: int| 0 <= j < i ==> weigh.ensures((spectrum[j], mother[map[j] as int]), #[trigger] out[j]),
        decreases map.len() - i,
    {
        let w = weigh(spectrum[i], mother[map[i]]);
        out.push(w);
        i = i + 1;
    }
    while i < spectrum.len()
        invariant
            map.len() <= i <= spectrum.len(),
            out.len() == i,
            forall|j: int| 0 <= j < map.len() ==> weigh.ensures((spectrum[j], mother[map[j] as int]), #[trigger] out[j]),
            forall|j: int| map.len() <= j < i ==> #[trigger] out[j] == zero,
        decreases spectrum.len() - i,
    {
        out.push(zero);
        i = i + 1;
    }
    out
}

/// `f` is `spectrum` filtered by the daughter wavelet whose resampling map is `map`: bin `i`
/// below the length of `map` is what `weigh` makes of spectrum bin `i` and mother sample
/// `map[i]`, and every later bin is `zero`.
pub open spec fn filtered_by<C, M, F: Fn(C, M) -> C>(
    spectrum: Seq<C>,
    mother: Seq<M>,
    map: Seq<usize>,
    zero: C,
    weigh: F,
    f: Seq<C>,
) -> bool {
    &&& f.len() == spectrum.len()
    &&& forall|i: int|
        0 <= i < map.len() ==> weigh.ensures((spectrum[i], mother[map[i] as int]), #[trigger] f[i])
    &&& forall|i: int| map.len() <= i < f.len() ==> #[trigger] f[i] == zero
}

/// `row` is the coefficient row of the daughter wavelet whose resampling map is `map`: the
/// filtered spectrum taken back through `inverse`, then, with normalization on, through
/// `unscale_row` with the signal length `n`.
pub open spec fn row_of<C, M, F: Fn(C, M) -> C, I: Fn(&Vec<C>) -> Vec<C>, U: Fn(Vec<C>, usize) -> Vec<C>>(
    spectrum: Seq<C>,
    mother: Seq<M>,
    map: Seq<usize>,
    zero: C,
    weigh: F,
    inverse: I,
    unscale_row: U,
    normalize: bool,
    n: usize,
    row: Seq<C>,
) -> bool {
    exists|f: Vec<C>, raw: Vec<C>|
        #[trigger] inverse.ensures((&f,), raw) && filtered_by(spectrum, mother, map, zero, weigh, f@)
            && raw.len() == n && if normalize {
            exists|out: Vec<C>| #[trigger] unscale_row.ensures((raw, n), out) && out@ == row
        } else {
            raw@ == row
        }
}

/// One of the outside pieces of a transform handed back a buffer whose length is not the
/// signal length `n`, on an input of length `n`.
pub open spec fn wrong_length<R, C, M, D: Fn(&Vec<R>) -> Vec<C>, I: Fn(&Vec<C>) -> Vec<C>, G: Fn(usize) -> Vec<M>, U: Fn(Vec<C>, usize) -> Vec<C>>(
    forward: D,
    inverse: I,
    generate_mother: G,
    unscale_row: U,
    input: &Vec<R>,
    n: usize,
) -> bool {
    ||| exists|sp: Vec<C>| #[trigger] forward.ensures((input,), sp) && sp.len() != n
    ||| exists|mo: Vec<M>| #[trigger] generate_mother.ensures((n,), mo) && mo.len() != n
    ||| exists|f: Vec<C>, raw: Vec<C>|
        #[trigger] inverse.ensures((&f,), raw) && f.len() == n && raw.len() != n
    ||| exists|raw: Vec<C>, out: Vec<C>|
        #[trigger] unscale_row.ensures((raw, n), out) && raw.len() == n && out.len() != n
}

/// A continuous wavelet transform configuration: a wavelet, a scale set, and whether the
/// coefficients are divided by the signal length.
#[derive(Debug, Clone, Copy)]
pub struct FastCwt<W: Wavelet, S: Scales> {
    wavelet: W,
    scales: S,
    normalize: bool,
}

impl<W: Wavelet, S: Scales> FastCwt<W, S> {
    pub closed spec fn spec_wavelet(&self) -> W {
        self.wavelet
    }

    pub closed spec fn spec_scales(&self) -> S {
        self.scales
    }

    pub closed spec fn spec_normalize(&self) -> bool {
        self.normalize
    }

    pub fn new(wavelet: W, scales: S, normalize: bool) -> (r: FastCwt<W, S>)
        ensures
            r.spec_wavelet() == wavelet,
            r.spec_scales() == scales,
            r.spec_normalize() == normalize,
    {
        FastCwt { wavelet, scales, normalize }
    }

    pub fn wavelet(&self) -> (r: &W)
        ensures
            *r == self.spec_wavelet(),
    {
        &self.wavelet
    }

    pub fn scales(&self) -> (r: &S)
        ensures
            *r == self.spec_scales(),
    {
        &self.scales
    }

    /// Whether the transform divides every coefficient by the signal length.
    pub fn normalize(&self) -> (r: bool)
        ensures
            r == self.spec_normalize(),
    {
        self.normalize
    }

    /// Plans a transform of a signal of `n` samples: one resampling map per scale, in scale
    /// order, each saying which mother-envelope sample filters each spectrum bin that the
    /// daughter wavelet covers. Fails with `InvalidInputLength` unless `n` is a power of two.
    pub fn plan(&self, n: usize) -> (r: Result<Vec<Vec<usize>>, CwtError>)
        requires
            n <= MAX_SIGNAL_LEN,
        ensures
            (r is Ok) == is_pow2(n as nat),
            r matches Err(e) ==> e == CwtError::InvalidInputLength,
            r matches Ok(maps) ==> maps.len() == self.spec_scales().spec_len() && forall|s: int|
                0 <= s < maps.len() ==> (#[trigger] maps[s])@ == daughter_map(
                    n as int,
                    self.spec_scales().spec_scale(s),
                ),
    {
        check_input_length(n)?;
        let count = self.scales.len();
        let mut maps: Vec<Vec<usize>> = Vec::new();
        let mut s: usize = 0;
        while s < count
            invariant
                0 < n <= MAX_SIGNAL_LEN,
                count == self.spec_scales().spec_len(),
                s <= count,
                maps.len() == s,
                forall|j: int|
                    0 <= j < s ==> (#[trigger] maps[j])@ == daughter_map(
                        n as int,
                        self.spec_scales().spec_scale(j),
                    ),
            decreases count - s,
        {
            let scale = self.scales.scale(s);
            let map = daughter_indices(n, scale);
            maps.push(map);
            s = s + 1;
        }
        Ok(maps)
    }

    /// Transforms `input`: one forward FFT of the signal, the mother envelope generated once
    /// for its length, and per scale, in scale order, the row `row_of` describes: the
    /// filtered spectrum of `daughter_wavelet_multiply` taken back through the inverse FFT,
    /// then, with normalization on, through `unscale_row` with the signal length.
    ///
    /// Fails with `InvalidInputLength` exactly when the length is not a power of two, and
    /// with `BackendFailure` only when an FFT or a closure hands back a buffer of the wrong
    /// length; when none of them ever does, a power-of-two length always succeeds.
    pub fn cwt<
        R,
        C: Copy,
        M: Copy,
        D: Fn(&Vec<R>) -> Vec<C>,
        I: Fn(&Vec<C>) -> Vec<C>,
        G: Fn(usize) -> Vec<M>,
        F: Fn(C, M) -> C,
        U: Fn(Vec<C>, usize) -> Vec<C>,
    >(
        &self,
        input: &Vec<R>,
        forward: D,
        inverse: I,
        generate_mother: G,
        zero: C,
        weigh: F,
        unscale_row: U,
    ) -> (r: Result<CwtResult<C>, CwtError>)
        requires
            input.len() <= MAX_SIGNAL_LEN,
            forall|x: &Vec<R>| #[trigger] forward.requires((x,)),
            forall|x: &Vec<C>| #[trigger] inverse.requires((x,)),
            forall|n: usize| #[trigger] generate_mother.requires((n,)),
            forall|c: C, m: M| #[trigger] weigh.requires((c, m)),
            forall|row: Vec<C>, n: usize| #[trigger] unscale_row.requires((row, n)),
        ensures
            (r == Err::<CwtResult<C>, CwtError>(CwtError::InvalidInputLength)) == !is_pow2(
                input.len() as nat,
            ),
            r == Err::<CwtResult<C>, CwtError>(CwtError::BackendFailure) ==> wrong_length(
                forward,
                inverse,
                generate_mother,
                unscale_row,
                input,
                input.len(),
            ),
            r matches Err(e) ==> e == CwtError::InvalidInputLength || e == CwtError::BackendFailure,
            is_pow2(input.len() as nat) && !wrong_length(
                forward,
                inverse,
                generate_mother,
                unscale_row,
                input,
                input.len(),
            ) ==> r is Ok,
            r matches Ok(m) ==> {
                &&& m.well_formed()
                &&& m.complete()
                &&& m.spec_num_scales() == self.spec_scales().spec_len()
                &&& m.spec_num_samples() == input.len()
                &&& exists|spectrum: Vec<C>|
                    #[trigger] forward.ensures((input,), spectrum) && spectrum.len() == input.len()
                        && exists|mother: Vec<M>|
                        #[trigger] generate_mother.ensures((input.len(),), mother) && mother.len()
                            == input.len() && forall|s: int|
                            0 <= s < m@.len() ==> row_of(
                                spectrum@,
                                mother@,
                                daughter_map(input.len() as int, self.spec_scales().spec_scale(s)),
                                zero,
                                weigh,
                                inverse,
                                unscale_row,
                                self.spec_normalize(),
                                input.len(),
                                #[trigger] m@[s],
                            )
            },
    {
        let n = input.len();
        let maps = self.plan(n)?;
        let spectrum = forward(input);
        if spectrum.len() != n {
            return Err(CwtError::BackendFailure);
        }
        let mother = generate_mother(n);
        if mother.len() != n {
            return Err(CwtError::BackendFailure);
        }
        let count = maps.len();
        let mut out: CwtResult<C> = CwtResult::new(count, n);
        let mut s: usize = 0;
        while s < count
            invariant
                0 < n <= MAX_SIGNAL_LEN,
                n == input.len(),
                is_pow2(n as nat),
                forward.ensures((input,), spectrum),
                generate_mother.ensures((n,), mother),
                spectrum.len() == n,
                mother.len() == n,
                count == maps.len(),
                count == self.spec_scales().spec_len(),
                forall|j: int|
                    0 <= j < count ==> (#[trigger] maps[j])@ == daughter_map(
                        n as int,
                        self.spec_scales().spec_scale(j),
                    ),
                forall|x: &Vec<C>| #[trigger] inverse.requires((x,)),
                forall|c: C, m: M| #[trigger] weigh.requires((c, m)),
                forall|row: Vec<C>, k: usize| #[trigger] unscale_row.requires((row, k)),
                s <= count,
                out.well_formed(),
                out@.len() == s,
                out.spec_num_scales() == count,
                out.spec_num_samples() == n,
                forall|j: int|
                    0 <= j < s ==> row_of(
                        spectrum@,
                        mother@,
                        daughter_map(n as int, self.spec_scales().spec_scale(j)),
                        zero,
                        weigh,
                        inverse,
                        unscale_row,
                        self.spec_normalize(),
                        n,
                        #[trigger] out@[j],
                    ),
            decreases count - s,
        {
            let map = &maps[s];
            // the scale's contract bounds its parts, which keeps the map inside the envelope
            let _scale = self.scales.scale(s);
            proof {
                lemma_daughter_map_in_bounds(n as int, self.spec_scales().spec_scale(s as int));
                assert forall|j: int| 0 <= j < map.len() implies #[trigger] map[j] < mother.len() by {
                    assert(map@[j] == daughter_map(n as int, self.spec_scales().spec_scale(s as int))[j]);
                }
            }
            let filtered = daughter_wavelet_multiply(&spectrum, &mother, map, zero, &weigh);
            assert(filtered_by(spectrum@, mother@, map@, zero, weigh, filtered@));
            let mut row = inverse(&filtered);
            if row.len() != n {
                return Err(CwtError::BackendFailure);
            }
            let ghost raw = row;
            if self.normalize {
                row = unscale_row(row, n);
                if row.len() != n {
                    return Err(CwtError::BackendFailure);
                }
                assert(unscale_row.ensures((raw, n), row));
            }
            assert(row_of(
                spectrum@,
                mother@,
                map@,
                zero,
                weigh,
                inverse,
                unscale_row,
                self.spec_normalize(),
                n,
                row@,
            ));
            let ghost before = out@;
            out.push_row(row);
            assert forall|j: int| 0 <= j < s implies out@[j] == before[j] by {}
            s = s + 1;
        }
        Ok(out)
    }
}

} // verus!
