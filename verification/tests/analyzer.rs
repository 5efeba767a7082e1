use rvis::analyzer::SpectralAnalyzer;
use rvis::WINDOW_SIZE;

#[test]
fn no_samples_no_windows() {
    let mut a = SpectralAnalyzer::new();
    let windows = a.ingest_all(&Vec::new());
    assert_eq!(windows.len(), 0);
}

#[test]
fn window_emitted_exactly_on_fill() {
    let mut a = SpectralAnalyzer::new();
    for i in 0..WINDOW_SIZE - 1 {
        assert!(a.ingest((i % 100) as i16).is_none());
    }
    let w = a.ingest(7).expect("the window-filling sample must emit");
    assert_eq!(w.len(), WINDOW_SIZE);
    assert_eq!(w[0], 0);
    assert_eq!(w[5], 5);
    assert_eq!(w[WINDOW_SIZE - 1], 7);
    // The next sample starts a fresh window.
    assert!(a.ingest(1).is_none());
}

#[test]
fn count_is_samples_over_window_size() {
    for n in [0usize, 1, 799, 800, 801, 1599, 1600, 2401] {
        let samples: Vec<i16> = (0..n).map(|i| (i % 31) as i16).collect();
        let mut a = SpectralAnalyzer::new();
        let windows = a.ingest_all(&samples);
        assert_eq!(windows.len(), n / WINDOW_SIZE, "n = {}", n);
        for w in &windows {
            assert_eq!(w.len(), WINDOW_SIZE);
        }
    }
}

#[test]
fn windows_are_consecutive_chunks() {
    let samples: Vec<i16> = (0..2 * WINDOW_SIZE).map(|i| (i % 1000) as i16 - 500).collect();
    let mut a = SpectralAnalyzer::new();
    let windows = a.ingest_all(&samples);
    assert_eq!(windows.len(), 2);
    for (k, w) in windows.iter().enumerate() {
        for j in 0..WINDOW_SIZE {
            assert_eq!(w[j], samples[k * WINDOW_SIZE + j]);
        }
    }
}

#[test]
fn numeric_extremes_are_accepted() {
    let mut a = SpectralAnalyzer::new();
    let mut samples: Vec<i16> = Vec::new();
    for i in 0..WINDOW_SIZE {
        samples.push(if i % 2 == 0 { i16::MIN } else { i16::MAX });
    }
    let windows = a.ingest_all(&samples);
    assert_eq!(windows.len(), 1);
    assert_eq!(windows[0][0], i16::MIN);
    assert_eq!(windows[0][1], i16::MAX);
}

#[test]
fn ingest_all_matches_single_ingests() {
    let samples: Vec<i16> = (0..1203).map(|i| (i * 7 % 211) as i16).collect();
    let mut a = SpectralAnalyzer::new();
    let mut b = SpectralAnalyzer::new();
    let bulk = a.ingest_all(&samples);
    let mut single: Vec<Vec<i16>> = Vec::new();
    for s in &samples {
        if let Some(w) = b.ingest(*s) {
            single.push(w);
        }
    }
    assert_eq!(bulk, single);
}
