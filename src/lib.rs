pub mod error;
pub mod fcwt;
pub mod ratio;
pub mod result;
pub mod scales;
pub mod spectrum;
pub mod wavelet;

pub use error::CwtError;
pub use fcwt::FastCwt;
pub use ratio::Ratio;
pub use result::CwtResult;
pub use scales::{LinFreqs, LinGrid, Scales};
pub use wavelet::{MorletWavelet, Wavelet};
