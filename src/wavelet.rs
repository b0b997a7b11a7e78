use vstd::prelude::*;
use vstd::arithmetic::div_mod::lemma_div_denominator;

use crate::error::CwtError;
use crate::ratio::Ratio;

verus! {

/// The parameters of an analysis wavelet that the transform plan depends on.
pub trait Wavelet {
    /// The bandwidth, in thousandths.
    spec fn spec_bandwidth(&self) -> nat;

    spec fn spec_imag_frequency(&self) -> bool;

    spec fn spec_double_sided(&self) -> bool;

    /// The bandwidth, in thousandths.
    fn bandwidth(&self) -> (r: u32)
        ensures
            r == self.spec_bandwidth(),
    ;

    /// Whether the imaginary part of each filtered bin is negated.
    fn imag_frequency(&self) -> (r: bool)
        ensures
            r == self.spec_imag_frequency(),
    ;

    /// Whether the filter is mirrored onto the upper half of the spectrum.
    fn is_double_sided(&self) -> (r: bool)
        ensures
            r == self.spec_double_sided(),
    ;

    /// The half-width in samples of the time-domain kernel at `scale`:
    /// `floor(bandwidth * scale * 3)`.
    fn get_support(&self, scale: Ratio) -> (r: u128)
        requires
            scale.den > 0,
            3 * self.spec_bandwidth() * scale.num <= u128::MAX,
        ensures
            r == support_width(self.spec_bandwidth() as int, scale),
    ;
}

/// `floor(bandwidth * scale * 3)` for a bandwidth given in thousandths.
pub open spec fn support_width(bandwidth_milli: int, scale: Ratio) -> int {
    (3 * bandwidth_milli * scale.num) / (1000 * scale.den)
}

/// The Morlet wavelet: a Gaussian-windowed complex sinusoid whose bandwidth sets the
/// width of its Gaussian envelope. The bandwidth is held in thousandths (`2500` is `2.5`).
#[derive(Debug, Clone, Copy, PartialEq, Eq, Structural)]
pub struct MorletWavelet {
    bandwidth_milli: u32,
    imag_frequency: bool,
    double_sided: bool,
}

impl MorletWavelet {
    #[verifier::type_invariant]
    pub closed spec fn positive_bandwidth(&self) -> bool {
        self.bandwidth_milli > 0
    }

    /// A single-sided, real-frequency Morlet wavelet of the given bandwidth, in thousandths.
    /// Fails with `InvalidParameter` when the bandwidth is zero.
    pub fn new(bandwidth_milli: u32) -> (r: Result<MorletWavelet, CwtError>)
        ensures
            (r is Ok) == (bandwidth_milli > 0),
            r matches Ok(w) ==> w.spec_bandwidth() == bandwidth_milli && !w.spec_imag_frequency()
                && !w.spec_double_sided(),
            r matches Err(e) ==> e == CwtError::InvalidParameter,
    {
        if bandwidth_milli == 0 {
            return Err(CwtError::InvalidParameter);
        }
        Ok(MorletWavelet { bandwidth_milli, imag_frequency: false, double_sided: false })
    }
}

impl Wavelet for MorletWavelet {
    closed spec fn spec_bandwidth(&self) -> nat {
        self.bandwidth_milli as nat
    }

    closed spec fn spec_imag_frequency(&self) -> bool {
        self.imag_frequency
    }

    closed spec fn spec_double_sided(&self) -> bool {
        self.double_sided
    }

    fn bandwidth(&self) -> (r: u32) {
        self.bandwidth_milli
    }

    fn imag_frequency(&self) -> (r: bool) {
        self.imag_frequency
    }

    fn is_double_sided(&self) -> (r: bool) {
        self.double_sided
    }

    fn get_support(&self, scale: Ratio) -> (r: u128) {
        let b: u128 = self.bandwidth_milli as u128;
        let x: u128 = 3 * b * scale.num;
        proof {
            lemma_div_denominator(x as int, 1000, scale.den as int);
        }
        x / 1000 / scale.den
    }
}

} // verus!
