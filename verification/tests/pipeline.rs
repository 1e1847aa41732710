use resonance::decode::decode_samples;
use resonance::energy::sum_squares;
use resonance::sensors::{AudioProcessor, FrameFeatures};

/// The floating-point tail of the volume formula, as the server applies it
/// to the exact window energy: normalize, RMS, decibels, clamp to [0, 1].
fn volume_from_energy(energy: u128, n: usize) -> f32 {
    let mean = energy as f64 / (n as f64 * 32768.0 * 32768.0);
    let rms = mean.sqrt();
    let db = 20.0 * rms.max(1e-6).log10();
    ((db as f32 + 40.0) / 40.0).max(0.0).min(1.0)
}

/// The floating-point tail of the dispersion formula: population standard
/// deviation in Hz from the exact count, sum and sum of squares.
fn variance_hz(m: &FrameFeatures) -> f64 {
    if m.pitch_count == 0 {
        0.0
    } else {
        let n = m.pitch_count as u128;
        let s = m.pitch_sum_mhz as u128;
        let q = m.pitch_sum_squares as u128;
        let numerator = (n * q - s * s) as f64;
        numerator.sqrt() / (n as f64 * 1000.0)
    }
}

#[test]
fn decode_empty_and_undersized_buffers_yield_no_samples() {
    assert_eq!(decode_samples(&vec![]).len(), 0);
    assert_eq!(decode_samples(&vec![0x7f]).len(), 0);
}

#[test]
fn decode_little_endian_pairs_drops_trailing_byte() {
    let bytes = vec![0x01, 0x02, 0xff, 0xff, 0x00, 0x80, 0x55];
    let samples = decode_samples(&bytes);
    assert_eq!(samples, vec![513i16, -1, -32768]);
}

#[test]
fn silent_window_has_zero_energy_and_volume_exactly_zero() {
    let samples = vec![0i16; 2048];
    let energy = sum_squares(&samples);
    assert_eq!(energy, 0);
    let volume = volume_from_energy(energy, samples.len());
    assert_eq!(volume, 0.0);
}

#[test]
fn full_scale_window_clips_the_volume_scale() {
    // A square wave alternating +-32767: energy is exactly n * 32767^2 and
    // the score sits at the very top of the scale (within one part in 1e5
    // of 1.0; exactly 1.0 is reached only by the amplitude 32768 below).
    let samples: Vec<i16> = (0..2048).map(|i| if i % 2 == 0 { 32767 } else { -32767 }).collect();
    let energy = sum_squares(&samples);
    assert_eq!(energy, 2048u128 * 32767 * 32767);
    let volume = volume_from_energy(energy, samples.len());
    assert!(volume > 0.9999 && volume <= 1.0);

    // Full negative scale reaches RMS 1.0, hence 0 dB, hence exactly 1.0.
    let samples = vec![-32768i16; 2048];
    let energy = sum_squares(&samples);
    let volume = volume_from_energy(energy, samples.len());
    assert_eq!(volume, 1.0);
}

#[test]
fn variance_of_empty_single_and_two_pitches() {
    let mut p = AudioProcessor::new();

    // Empty history: variance 0.
    let m = p.process(false, None, 0);
    assert_eq!(m.pitch_count, 0);
    assert_eq!(variance_hz(&m), 0.0);

    // One valid pitch: stddev of one point is 0.
    let m = p.process(false, Some(100_000), 10);
    assert_eq!(m.pitch_mhz, 100_000);
    assert_eq!(m.pitch_count, 1);
    assert_eq!(variance_hz(&m), 0.0);

    // Two distinct pitches 100 Hz and 200 Hz: population stddev is
    // exactly 50 Hz.
    let m = p.process(false, Some(200_000), 20);
    assert_eq!(m.pitch_count, 2);
    assert_eq!(variance_hz(&m), 50.0);
}

#[test]
fn history_keeps_exactly_the_last_25_of_30_pushes() {
    let mut p = AudioProcessor::new();
    for i in 0..30u64 {
        let m = p.process(false, Some(100_000 + 1000 * i), i);
        assert!(m.pitch_count <= 25);
    }
    let m = p.process(false, None, 100);
    assert_eq!(m.pitch_count, 25);
    // The last 25 of the 30 estimates are 105_000 ..= 129_000 step 1000.
    let expected_sum: u64 = (5..30u64).map(|i| 100_000 + 1000 * i).sum();
    let expected_sq: u64 = (5..30u64).map(|i| (100_000 + 1000 * i) * (100_000 + 1000 * i)).sum();
    assert_eq!(m.pitch_sum_mhz, expected_sum);
    assert_eq!(m.pitch_sum_squares, expected_sq);
}

#[test]
fn speaking_stays_on_for_the_cooldown_and_then_drops() {
    let mut p = AudioProcessor::new();
    assert!(!p.is_speaking_check(0));

    // One loud frame at t = 1000.
    let m = p.process(true, None, 1000);
    assert!(m.is_speaking);

    // Quiet frames inside the 2500 ms window still read speaking.
    let m = p.process(false, None, 1001);
    assert!(m.is_speaking);
    let m = p.process(false, None, 3499);
    assert!(m.is_speaking);

    // At exactly 2500 ms the cooldown has elapsed.
    let m = p.process(false, None, 3500);
    assert!(!m.is_speaking);

    // A new loud frame refreshes the window.
    let m = p.process(true, None, 4000);
    assert!(m.is_speaking);
    assert!(p.is_speaking_check(6499));
    assert!(!p.is_speaking_check(6500));
}

#[test]
fn out_of_band_estimates_report_no_pitch_and_leave_history_alone() {
    let mut p = AudioProcessor::new();
    let m = p.process(false, Some(150_000), 0);
    assert_eq!(m.pitch_count, 1);

    // 400 Hz: above the voice band.
    let m = p.process(false, Some(400_000), 1);
    assert_eq!(m.pitch_mhz, 0);
    assert_eq!(m.pitch_count, 1);
    assert_eq!(m.pitch_sum_mhz, 150_000);

    // Just outside either edge.
    let m = p.process(false, Some(84_999), 2);
    assert_eq!(m.pitch_mhz, 0);
    let m = p.process(false, Some(350_001), 3);
    assert_eq!(m.pitch_mhz, 0);
    assert_eq!(m.pitch_count, 1);

    // The edges themselves are accepted.
    let m = p.process(false, Some(85_000), 4);
    assert_eq!(m.pitch_mhz, 85_000);
    let m = p.process(false, Some(350_000), 5);
    assert_eq!(m.pitch_mhz, 350_000);
    assert_eq!(m.pitch_count, 3);
}
