//! End-to-end: decoded samples through the analyzer, the external FFT and
//! normalization, and into spectral frames.

use rustfft::num_complex::Complex;
use rustfft::FftPlanner;
use rvis::analyzer::SpectralAnalyzer;
use rvis::frame::SpectralFrame;
use rvis::{BIN_COUNT, MAGNITUDE_ONE, WINDOW_SIZE};

/// What the host does with one emitted window: forward FFT, then for each of
/// the `WINDOW_SIZE` outputs the normalized log magnitude
/// `max(0, 1 + log10(|v| / WINDOW_SIZE)) / 5`, quantized to fixed point.
fn analyze_window(window: &[i16]) -> Vec<u32> {
    let mut planner = FftPlanner::<f32>::new();
    let fft = planner.plan_fft_forward(WINDOW_SIZE);
    let mut buffer: Vec<Complex<f32>> = window
        .iter()
        .map(|s| Complex::new(*s as f32, 0.0))
        .collect();
    fft.process(&mut buffer);
    buffer
        .iter()
        .map(|v| {
            let x = 1.0 + ((v.norm() as f64) / WINDOW_SIZE as f64).log10();
            let x = if x < 0.0 { 0.0 } else { x / 5.0 };
            (x * MAGNITUDE_ONE as f64) as u32
        })
        .collect()
}

#[test]
fn sinusoid_peaks_at_its_bin_in_both_frames() {
    // Two windows of a pure sinusoid at 50 cycles per window.
    let cycles = 50usize;
    let n = 2 * WINDOW_SIZE;
    let samples: Vec<i16> = (0..n)
        .map(|t| {
            let phase = 2.0 * std::f64::consts::PI * cycles as f64 * t as f64 / WINDOW_SIZE as f64;
            (10000.0 * phase.sin()) as i16
        })
        .collect();

    let mut analyzer = SpectralAnalyzer::new();
    let windows = analyzer.ingest_all(&samples);
    assert_eq!(windows.len(), 2, "1600 samples are exactly two windows");

    // The frame keeps spectrum indices [WINDOW_SIZE/2, WINDOW_SIZE); the
    // sinusoid's mirrored line at index WINDOW_SIZE - cycles lands on frame
    // bin WINDOW_SIZE - cycles - BIN_COUNT.
    let peak_bin = WINDOW_SIZE - cycles - BIN_COUNT;
    for window in &windows {
        let spectrum = analyze_window(window);
        assert_eq!(spectrum.len(), WINDOW_SIZE);
        let frame = SpectralFrame::from_spectrum(&spectrum);
        assert_eq!(frame.len(), BIN_COUNT);
        let peak = frame.bin(peak_bin);
        for offset in 1..=5 {
            let lower = frame.bin(peak_bin - offset);
            let upper = frame.bin(peak_bin + offset);
            assert!(
                peak > lower + MAGNITUDE_ONE / 4 && peak > upper + MAGNITUDE_ONE / 4,
                "bin {} must stand far above its neighbors ({} vs {}, {})",
                peak_bin,
                peak,
                lower,
                upper
            );
        }
    }
}

#[test]
fn silence_gives_zero_frames() {
    let samples = vec![0i16; WINDOW_SIZE];
    let mut analyzer = SpectralAnalyzer::new();
    let windows = analyzer.ingest_all(&samples);
    assert_eq!(windows.len(), 1);
    let spectrum = analyze_window(&windows[0]);
    let frame = SpectralFrame::from_spectrum(&spectrum);
    for j in 0..BIN_COUNT {
        assert_eq!(frame.bin(j), 0, "silence has no loudness anywhere");
    }
}
