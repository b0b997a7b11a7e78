use std::cell::RefCell;
use std::sync::Arc;

use fcwt::fcwt::{
    band_limit, check_input_length, daughter_indices, daughter_wavelet_multiply, is_power_of_two,
};
use fcwt::spectrum::mirror_half_spectrum;
use fcwt::{CwtError, CwtResult, FastCwt, LinFreqs, MorletWavelet, Ratio, Scales, Wavelet};
use rustfft::num_complex::Complex;
use rustfft::{Fft, FftPlanner};

struct TestFft {
    forward: Arc<dyn Fft<f32>>,
    inverse: Arc<dyn Fft<f32>>,
}

impl TestFft {
    fn new(size: usize) -> Self {
        let mut planner = FftPlanner::<f32>::new();
        TestFft { forward: planner.plan_fft_forward(size), inverse: planner.plan_fft_inverse(size) }
    }
}

impl TestFft {
    fn forward(&mut self, input: &Vec<f32>) -> Vec<Complex<f32>> {
        let mut out = embed(input);
        self.forward.process(&mut out);
        out
    }

    fn inverse(&mut self, input: &Vec<Complex<f32>>) -> Vec<Complex<f32>> {
        let mut out = input.clone();
        self.inverse.process(&mut out);
        out
    }
}

fn embed(input: &Vec<f32>) -> Vec<Complex<f32>> {
    input.iter().map(|&x| Complex::new(x, 0.0)).collect()
}

fn mother(fb: f32, size: usize) -> Vec<f32> {
    let pi = std::f32::consts::PI;
    let torad = 2.0 * pi / size as f32;
    let norm = (2.0 * pi).sqrt() * 0.75112554446;
    (0..size)
        .map(|i| {
            let tmp = 2.0 * (i as f32 * torad) * fb - 2.0 * pi * fb;
            norm * (-(tmp * tmp) / 2.0).exp()
        })
        .collect()
}

fn chirp(fs: f32, n: usize, f0: f32, f1: f32) -> Vec<f32> {
    let k = (f1 - f0) / n as f32;
    (0..n)
        .map(|i| {
            let t = i as f32 / fs;
            (2.0 * std::f32::consts::PI * (f0 + k * i as f32) * t).sin()
        })
        .collect()
}

fn run(fcwt: &FastCwt<MorletWavelet, LinFreqs>, input: &Vec<f32>) -> Result<CwtResult<Complex<f32>>, CwtError> {
    let fb = fcwt.wavelet().bandwidth() as f32 / 1000.0;
    let fft = RefCell::new(TestFft::new(input.len().max(1)));
    fcwt.cwt(
        input,
        |x: &Vec<f32>| fft.borrow_mut().forward(x),
        |x: &Vec<Complex<f32>>| fft.borrow_mut().inverse(x),
        |n: usize| mother(fb, n),
        Complex::new(0.0, 0.0),
        |c: Complex<f32>, m: f32| Complex::new(c.re * m, c.im * m),
        |mut row: Vec<Complex<f32>>, n: usize| {
            for c in row.iter_mut() {
                *c = *c / n as f32;
            }
            row
        },
    )
}

fn config(normalize: bool) -> FastCwt<MorletWavelet, LinFreqs> {
    let w = MorletWavelet::new(1_000).unwrap();
    let s = LinFreqs::new(100, 10_000, 20_000, 5).unwrap();
    FastCwt::new(w, s, normalize)
}

#[test]
fn power_of_two_lengths() {
    for n in [1usize, 2, 4, 8, 1024, 2048, 1 << 40] {
        assert!(is_power_of_two(n));
        assert!(check_input_length(n).is_ok());
    }
    for n in [0usize, 3, 5, 6, 100, 1000, 2047, 2049] {
        assert!(!is_power_of_two(n));
        assert_eq!(check_input_length(n).unwrap_err(), CwtError::InvalidInputLength);
    }
}

#[test]
fn band_limit_values() {
    // min(n / 2, floor(2n / scale))
    assert_eq!(band_limit(16, Ratio { num: 4, den: 1 }), 8);
    assert_eq!(band_limit(16, Ratio { num: 16, den: 1 }), 2);
    assert_eq!(band_limit(16, Ratio { num: 20, den: 1 }), 1);
    assert_eq!(band_limit(16, Ratio { num: 33, den: 1 }), 0);
    assert_eq!(band_limit(1, Ratio { num: 1, den: 1 }), 0);
    // a zero frequency has no support
    assert_eq!(band_limit(16, Ratio { num: 5, den: 0 }), 0);
}

#[test]
fn daughter_indices_round_to_nearest() {
    assert_eq!(daughter_indices(16, Ratio { num: 4, den: 1 }), vec![0, 2, 4, 6, 8, 10, 12, 14]);
    assert_eq!(daughter_indices(16, Ratio { num: 3, den: 1 }), vec![0, 2, 3, 5, 6, 8, 9, 11]);
    assert_eq!(daughter_indices(16, Ratio { num: 16, den: 1 }), vec![0, 8]);
    assert_eq!(daughter_indices(16, Ratio { num: 1, den: 2 }), vec![0, 0, 1, 1, 1, 1, 2, 2]);
    assert!(daughter_indices(16, Ratio { num: 33, den: 1 }).is_empty());
}

#[test]
fn daughter_multiply_weights_and_zeroes() {
    let spectrum = vec![1, 2, 3, 4, 5, 6];
    let mother = vec![10, 20, 30];
    let map = vec![2, 0, 1];
    let out = daughter_wavelet_multiply(&spectrum, &mother, &map, 0, &|c: i32, m: i32| c * m);
    assert_eq!(out, vec![30, 20, 60, 0, 0, 0]);
}

#[test]
fn plan_has_one_map_per_scale() {
    let fcwt = config(false);
    let maps = fcwt.plan(64).unwrap();
    assert_eq!(maps.len(), 5);
    for (s, map) in maps.iter().enumerate() {
        assert_eq!(map, &daughter_indices(64, fcwt.scales().scale(s)));
    }
    // scale of row 0: 100 / 18 Hz; band end min(32, floor(128 * 18 / 100)) = 23
    assert_eq!(maps[0].len(), 23);
    // scale of row 4: 100 / 10 Hz; band end floor(128 / 10) = 12
    assert_eq!(maps[4].len(), 12);
    assert_eq!(fcwt.plan(48).unwrap_err(), CwtError::InvalidInputLength);
}

#[test]
fn cwt_shape_for_power_of_two_lengths() {
    let fcwt = config(false);
    for n in [1usize, 2, 8, 64, 256] {
        let input: Vec<f32> = (0..n).map(|i| (i as f32 * 0.3).sin()).collect();
        let out = run(&fcwt, &input).unwrap();
        assert_eq!(out.num_scales(), 5);
        assert_eq!(out.num_samples(), n);
        assert!(out.is_complete());
        for row in out.rows() {
            assert_eq!(row.len(), n);
        }
    }
}

#[test]
fn cwt_rejects_other_lengths() {
    let fcwt = config(true);
    for n in [5usize, 100, 1000] {
        let input = vec![1.0f32; n];
        assert_eq!(run(&fcwt, &input).unwrap_err(), CwtError::InvalidInputLength);
    }
}

#[test]
fn cwt_reports_backend_failure() {
    let fcwt = config(false);
    let input = vec![1.0f32; 8];
    // the inverse transform loses the last coefficient
    let r = fcwt.cwt(
        &input,
        embed,
        |x: &Vec<Complex<f32>>| x[..x.len() - 1].to_vec(),
        |n: usize| vec![1.0f32; n],
        Complex::new(0.0, 0.0),
        |c: Complex<f32>, m: f32| c * m,
        |row: Vec<Complex<f32>>, _n: usize| row,
    );
    assert_eq!(r.unwrap_err(), CwtError::BackendFailure);
}

#[test]
fn cwt_bins_beyond_band_are_zero_before_inverse() {
    // With identity transforms, each row is the filtered spectrum itself.
    let fcwt = config(false);
    let input = vec![1.0f32; 64];
    let out = fcwt
        .cwt(
            &input,
            embed,
            |x: &Vec<Complex<f32>>| x.clone(),
            |n: usize| (0..n).map(|i| i as f32).collect(),
            Complex::new(0.0, 0.0),
            |c: Complex<f32>, m: f32| c * m,
            |row: Vec<Complex<f32>>, _n: usize| row,
        )
        .unwrap();
    let maps = fcwt.plan(64).unwrap();
    for (s, map) in maps.iter().enumerate() {
        let row = out.row(s).unwrap();
        for i in 0..64 {
            let expected = if i < map.len() { map[i] as f32 } else { 0.0 };
            assert_eq!(row[i], Complex::new(expected, 0.0));
        }
    }
}

#[test]
fn cwt_normalize_divides_by_length() {
    let input = chirp(10_000.0, 256, 0.1, 20.0);
    let plain = run(&config(false), &input).unwrap();
    let norm = run(&config(true), &input).unwrap();
    for s in 0..5 {
        let a = plain.row(s).unwrap();
        let b = norm.row(s).unwrap();
        for i in 0..256 {
            assert!((a[i].re / 256.0 - b[i].re).abs() < 1e-5);
            assert!((a[i].im / 256.0 - b[i].im).abs() < 1e-5);
        }
    }
}

#[test]
fn cwt_chirp_scenario() {
    let w = MorletWavelet::new(2_000).unwrap();
    let s = LinFreqs::new(1000, 100, 40_000, 300).unwrap();
    assert_eq!(s.len(), 300);
    let input = chirp(10_000.0, 2048, 0.1, 20.0);
    let norm = run(&FastCwt::new(w, s, true), &input).unwrap();
    let plain = run(&FastCwt::new(w, s, false), &input).unwrap();
    assert_eq!(norm.num_scales(), 300);
    assert_eq!(norm.num_samples(), 2048);
    assert!(norm.is_complete());
    assert_eq!(norm.rows().len(), 300);
    for s in 0..300 {
        let a = plain.row(s).unwrap();
        let b = norm.row(s).unwrap();
        assert_eq!(a.len(), 2048);
        for i in 0..2048 {
            assert!((a[i].re / 2048.0 - b[i].re).abs() <= 1e-5 * (1.0 + b[i].re.abs()));
            assert!((a[i].im / 2048.0 - b[i].im).abs() <= 1e-5 * (1.0 + b[i].im.abs()));
        }
    }
}

#[test]
fn mirror_half_spectrum_is_hermitian() {
    // (re, im) pairs as integers, conjugation negates im
    let half = vec![(1, 0), (2, 3), (4, 5), (6, 0)];
    let full = mirror_half_spectrum(&half, 6, &|c: (i32, i32)| (c.0, -c.1));
    assert_eq!(full, vec![(1, 0), (2, 3), (4, 5), (6, 0), (4, -5), (2, -3)]);
    assert_eq!(mirror_half_spectrum(&vec![(7, 1)], 1, &|c: (i32, i32)| (c.0, -c.1)), vec![(7, 1)]);
    assert_eq!(
        mirror_half_spectrum(&vec![(1, 0), (2, 0)], 2, &|c: (i32, i32)| (c.0, -c.1)),
        vec![(1, 0), (2, 0)]
    );
}

#[test]
fn forward_of_real_signal_matches_mirrored_half() {
    let input = chirp(1000.0, 16, 5.0, 50.0);
    let mut fft = TestFft::new(16);
    let full = fft.forward(&input);
    let half = full[..9].to_vec();
    let rebuilt = mirror_half_spectrum(&half, 16, &|c: Complex<f32>| c.conj());
    for i in 0..16 {
        assert!((rebuilt[i] - full[i]).norm() < 1e-4);
    }
}
