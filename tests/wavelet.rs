use fcwt::{CwtError, MorletWavelet, Ratio, Wavelet};

#[test]
fn test_morlet_wavelet_new() {
    let morlet = MorletWavelet::new(1_000).unwrap();
    assert_eq!(morlet.bandwidth(), 1_000);
    assert!(!morlet.imag_frequency());
    assert!(!morlet.is_double_sided());
}

#[test]
fn test_morlet_wavelet_bandwidth() {
    let morlet = MorletWavelet::new(2_500).unwrap();
    assert_eq!(morlet.bandwidth(), 2_500);
}

#[test]
fn test_morlet_wavelet_get_support() {
    let morlet = MorletWavelet::new(1_000).unwrap();
    assert_eq!(morlet.get_support(Ratio { num: 1, den: 1 }), 3);
}

#[test]
fn morlet_rejects_zero_bandwidth() {
    assert_eq!(MorletWavelet::new(0).unwrap_err(), CwtError::InvalidParameter);
}

#[test]
fn morlet_support_rounds_down() {
    let morlet = MorletWavelet::new(2_000).unwrap();
    // 2.0 * 2.0 * 3 = 12
    assert_eq!(morlet.get_support(Ratio { num: 2, den: 1 }), 12);
    // 2.0 * 2.5 * 3 = 15
    assert_eq!(morlet.get_support(Ratio { num: 5, den: 2 }), 15);
    // 2.0 * (1 / 7) * 3 = 0.857...
    assert_eq!(morlet.get_support(Ratio { num: 1, den: 7 }), 0);
    // 2.0 * (10 / 3) * 3 = 20
    assert_eq!(morlet.get_support(Ratio { num: 10, den: 3 }), 20);
}
