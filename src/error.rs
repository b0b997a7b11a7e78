use vstd::prelude::*;

verus! {

/// The ways in which building a transform configuration or running it can fail.
#[derive(Debug, Clone, Copy, PartialEq, Eq, Structural)]
pub enum CwtError {
    /// The input signal's length is not a power of two.
    InvalidInputLength,
    /// The frequency bounds of a scale set are out of order or above the Nyquist bound.
    InvalidRange,
    /// A wavelet parameter is out of its domain (a bandwidth of zero).
    InvalidParameter,
    /// A result-matrix access lies outside its rows or columns.
    IndexOutOfRange,
    /// An FFT or another outside step of a transform handed back a buffer of the wrong length.
    BackendFailure,
}

} // verus!
