use phase_sync::correction::{allpass_latency_samples, band_bins, AlgorithmType, DelayLine, DELAY_HEADROOM};
use phase_sync::phase_rotator::{BiquadCoefficients, RotatorSchedule, StagePlan};

#[test]
fn test_latency_reasonable() {
    let latency = allpass_latency_samples();
    assert!(latency < 50);
    assert!(latency > 0);
    assert_eq!(latency, 24);
}

#[test]
fn default_algorithm_is_time_delay() {
    assert_eq!(AlgorithmType::default(), AlgorithmType::TimeDelay);
}

#[test]
fn delay_line_taps_surround_read_position() {
    let mut line: DelayLine<f32> = DelayLine::new(0.0);
    line.ensure_len(6);
    assert_eq!(line.len(), 6);
    let mut last = [0.0f32; 4];
    for i in 1..=8 {
        last = line.push_and_taps(i as f32, 2);
    }
    // After writing 1..=8 into six slots, slots hold [7, 8, 3, 4, 5, 6] and
    // the read position two behind the write of 8 (slot 1) is slot 5.
    assert_eq!(last, [5.0, 6.0, 7.0, 8.0]);
}

#[test]
fn delay_line_zero_delay_reads_current_sample() {
    let mut line: DelayLine<i32> = DelayLine::new(0);
    line.ensure_len(4);
    let taps = line.push_and_taps(42, 0);
    assert_eq!(taps, [0, 42, 0, 0]);
    let taps = line.push_and_taps(43, 0);
    assert_eq!(taps, [42, 43, 0, 0]);
}

#[test]
fn delay_line_initialize_and_reset() {
    let mut line: DelayLine<f32> = DelayLine::new(0.0);
    line.initialize(512);
    assert!(line.len() >= 512);
    assert_eq!(line.len(), DELAY_HEADROOM + 512);
    line.push_and_taps(1.0, 0);
    line.reset();
    assert_eq!(line.push_and_taps(2.0, 1), [0.0, 0.0, 2.0, 0.0]);
    // A shorter requirement leaves the line as it is.
    line.ensure_len(8);
    assert_eq!(line.len(), DELAY_HEADROOM + 512);
}

#[test]
fn identity_coefficients_pass_through() {
    let c: BiquadCoefficients<f32> = BiquadCoefficients::identity();
    assert_eq!((c.b0, c.b1, c.b2, c.a1, c.a2), (1.0, 0.0, 0.0, 0.0, 0.0));
    let d: BiquadCoefficients<f64> = BiquadCoefficients::identity();
    assert_eq!(d.b0, 1.0);
}

#[test]
fn schedule_updates_only_when_dirty() {
    let mut s = RotatorSchedule::new();
    assert_eq!(s.update_if_needed(3), None);
    assert_eq!(s.num_active_filters(), 0);
    s.mark_dirty();
    assert_eq!(s.update_if_needed(3), Some(StagePlan { active: 3, reset_states: true }));
    // Unchanged parameters: the second update is a no-op.
    assert_eq!(s.update_if_needed(3), None);
    assert_eq!(s.num_active_filters(), 3);
    assert!(!s.needs_update());
}

#[test]
fn schedule_resets_only_on_large_jumps() {
    let mut s = RotatorSchedule::new();
    s.mark_dirty();
    assert_eq!(s.update_if_needed(2), Some(StagePlan { active: 2, reset_states: false }));
    s.mark_dirty();
    assert_eq!(s.update_if_needed(4), Some(StagePlan { active: 4, reset_states: false }));
    s.mark_dirty();
    assert_eq!(s.update_if_needed(40), Some(StagePlan { active: 16, reset_states: true }));
    s.mark_dirty();
    assert_eq!(s.update_if_needed(13), Some(StagePlan { active: 13, reset_states: true }));
    s.reset();
    assert_eq!(s.num_active_filters(), 0);
    assert!(!s.needs_update());
}

#[test]
fn band_bins_cut_at_last_bin() {
    assert_eq!(band_bins(3, 10, 1025), Some((3, 10)));
    assert_eq!(band_bins(900, 2000, 1025), Some((900, 1024)));
    assert_eq!(band_bins(10, 10, 1025), None);
    assert_eq!(band_bins(12, 10, 1025), None);
    assert_eq!(band_bins(1025, 1030, 1025), None);
}
