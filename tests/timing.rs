use phase_sync::kick_detector::KickGate;
use phase_sync::median::{median_of, sort_ascending};
use phase_sync::phase_controller::{AdaptationMode, KickTimeline, PhaseStage, DEFAULT_INTERVAL_SAMPLES};
use phase_sync::pipeline::{analysis_window_start, PublishThrottle, BASS_LOOKBACK_SIZE};

#[test]
fn median_of_odd_and_even_runs() {
    assert_eq!(median_of(&vec![7]), 7);
    assert_eq!(median_of(&vec![30, 10, 20]), 20);
    // Even count: the upper of the two middle entries.
    assert_eq!(median_of(&vec![40, 10, 30, 20]), 30);
    assert_eq!(median_of(&vec![5, 5, 1, 5, 9, 9]), 5);
    assert_eq!(sort_ascending(&vec![3, 1, 2, 3, 0]), vec![0, 1, 2, 3, 3]);
}

#[test]
fn test_kick_interval_prediction() {
    let mut timeline = KickTimeline::new();
    for i in 0..8usize {
        timeline.on_kick(i * 48000);
    }
    assert!(timeline.next_kick_predicted().is_some());
    assert_eq!(timeline.inter_kick_interval(), 48000);
    assert_eq!(timeline.next_kick_predicted(), Some(7 * 48000 + 48000));
    assert_eq!(timeline.recent_intervals(), vec![48000; 7]);
}

#[test]
fn timeline_stages_follow_kicks() {
    let mut timeline = KickTimeline::new();
    assert_eq!(timeline.phase_stage(100, AdaptationMode::LinearDrift), PhaseStage::Idle);
    timeline.on_kick(1000);
    assert_eq!(timeline.phase_stage(2000, AdaptationMode::Immediate), PhaseStage::Hold);
    assert_eq!(timeline.inter_kick_interval(), DEFAULT_INTERVAL_SAMPLES);
    timeline.on_kick(49000);
    assert_eq!(timeline.phase_stage(49100, AdaptationMode::Immediate), PhaseStage::Target);
    assert_eq!(
        timeline.phase_stage(61000, AdaptationMode::LinearDrift),
        PhaseStage::Drift { elapsed: 12000, interval: 48000 }
    );
    // Before the last kick the elapsed count saturates at zero.
    assert_eq!(
        timeline.phase_stage(10, AdaptationMode::LastMoment),
        PhaseStage::Drift { elapsed: 0, interval: 48000 }
    );
}

#[test]
fn timeline_median_keeps_eight_intervals() {
    let mut timeline = KickTimeline::new();
    let mut at = 0usize;
    timeline.on_kick(at);
    for step in [100usize, 900, 200, 800, 300, 700, 400, 600, 500, 50] {
        at += step;
        timeline.on_kick(at);
    }
    assert_eq!(timeline.recent_intervals(), vec![200, 800, 300, 700, 400, 600, 500, 50]);
    assert_eq!(timeline.inter_kick_interval(), 500);
    assert_eq!(timeline.next_kick_predicted(), Some(at + 500));
}

#[test]
fn timeline_timeout_and_reset() {
    let mut timeline = KickTimeline::new();
    timeline.on_kick(0);
    timeline.on_kick(10);
    assert_eq!(timeline.update_sample_counter(2), None);
    assert_eq!(timeline.update_sample_counter(2), None);
    assert_eq!(timeline.update_sample_counter(2), Some(1));
    assert_eq!(timeline.update_sample_counter(2), Some(2));
    assert_eq!(timeline.samples_since_last_kick(), 4);
    timeline.clear_prediction();
    assert_eq!(timeline.next_kick_predicted(), None);
    assert_eq!(timeline.phase_stage(20, AdaptationMode::Immediate), PhaseStage::Hold);
    timeline.on_kick(30);
    assert_eq!(timeline.samples_since_last_kick(), 0);
    timeline.reset();
    assert_eq!(timeline.last_kick_sample(), None);
    assert_eq!(timeline.next_kick_predicted(), None);
    assert!(timeline.recent_intervals().is_empty());
    assert_eq!(timeline.inter_kick_interval(), DEFAULT_INTERVAL_SAMPLES);
    assert_eq!(timeline.samples_since_last_kick(), 0);
    assert_eq!(timeline.phase_stage(40, AdaptationMode::Immediate), PhaseStage::Idle);
}

#[test]
fn kicks_out_of_order_give_zero_interval() {
    let mut timeline = KickTimeline::new();
    timeline.on_kick(500);
    timeline.on_kick(100);
    assert_eq!(timeline.recent_intervals(), vec![0]);
    assert_eq!(timeline.next_kick_predicted(), Some(100));
}

#[test]
fn prediction_saturates_at_largest_index() {
    let mut timeline = KickTimeline::new();
    timeline.on_kick(usize::MAX - 10);
    timeline.on_kick(usize::MAX - 5);
    assert_eq!(timeline.next_kick_predicted(), Some(usize::MAX));
}

#[test]
fn gate_debounces_rising_edges() {
    let mut gate = KickGate::new(4800);
    // Nothing fires before the minimum interval from sample 0 has passed.
    assert!(!gate.accept_edge(true, 4799));
    // Exactly the minimum interval is enough.
    assert!(gate.accept_edge(true, 4800));
    assert_eq!(gate.last_peak_sample(), 4800);
    assert!(!gate.accept_edge(false, 20000));
    assert!(!gate.accept_edge(true, 9599));
    assert!(gate.accept_edge(true, 9600));
    gate.set_min_interval_samples(2400);
    assert_eq!(gate.min_interval_samples(), 2400);
    gate.reset();
    assert_eq!(gate.last_peak_sample(), 0);
    assert!(!gate.accept_edge(true, 2399));
    assert!(gate.accept_edge(true, 2400));
}

#[test]
fn throttle_signals_every_interval() {
    let mut throttle = PublishThrottle::new(512);
    let fired: Vec<usize> = (1..=1536).filter(|_| throttle.tick()).collect();
    assert_eq!(fired, vec![512, 1024, 1536]);
}

#[test]
fn analysis_window_start_saturates() {
    assert_eq!(analysis_window_start(100), 0);
    assert_eq!(analysis_window_start(BASS_LOOKBACK_SIZE), 0);
    assert_eq!(analysis_window_start(5000), 5000 - BASS_LOOKBACK_SIZE);
}
