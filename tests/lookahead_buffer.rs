use phase_sync::lookahead_buffer::LookaheadBuffer;

#[test]
fn new_buffer_reads_silence() {
    let buf: LookaheadBuffer<f32> = LookaheadBuffer::new(2, 8);
    for delay in 0..=8 {
        assert_eq!(buf.read_sample(0, delay), 0.0);
        assert_eq!(buf.read_sample(1, delay), 0.0);
    }
}

#[test]
fn round_trip_reads_back_written_sequence() {
    for size in [1usize, 2, 5, 16] {
        let mut buf: LookaheadBuffer<f32> = LookaheadBuffer::new(1, size);
        let values: Vec<f32> = (0..40).map(|i| i as f32 * 0.25 - 3.0).collect();
        for &v in &values {
            buf.write_sample(0, v);
            buf.advance_write_pos();
        }
        for delay in 1..=size {
            assert_eq!(buf.read_sample(0, delay), values[values.len() - delay]);
        }
        // Delay 0 is the slot about to be overwritten: the oldest sample held.
        assert_eq!(buf.read_sample(0, 0), values[values.len() - size]);
    }
}

#[test]
fn channels_move_in_lockstep() {
    let mut buf: LookaheadBuffer<i32> = LookaheadBuffer::new(2, 4);
    for i in 0..6 {
        buf.write_sample(0, i);
        buf.write_sample(1, 100 + i);
        buf.advance_write_pos();
    }
    assert_eq!(buf.read_sample(0, 1), 5);
    assert_eq!(buf.read_sample(1, 1), 105);
    assert_eq!(buf.read_sample(0, 4), 2);
    assert_eq!(buf.read_sample(1, 4), 102);
}

#[test]
fn recent_samples_are_chronological() {
    let mut buf: LookaheadBuffer<i32> = LookaheadBuffer::new(1, 5);
    for i in 1..=7 {
        buf.write_sample(0, i);
        buf.advance_write_pos();
    }
    assert_eq!(buf.get_recent_samples(0, 3), vec![5, 6, 7]);
    // Never more than the buffer holds.
    assert_eq!(buf.get_recent_samples(0, 100), vec![3, 4, 5, 6, 7]);
    assert_eq!(buf.get_recent_samples(0, 0), Vec::<i32>::new());
}

#[test]
fn recent_samples_into_reuses_output() {
    let mut buf: LookaheadBuffer<i32> = LookaheadBuffer::new(1, 4);
    for i in 1..=4 {
        buf.write_sample(0, i);
        buf.advance_write_pos();
    }
    let mut out = vec![99, 98, 97, 96, 95, 94];
    buf.get_recent_samples_into(0, 2, &mut out);
    assert_eq!(out, vec![3, 4]);
    buf.get_recent_samples_into(0, 4, &mut out);
    assert_eq!(out, vec![1, 2, 3, 4]);
}

#[test]
fn reset_silences_and_rewinds() {
    let mut buf: LookaheadBuffer<f32> = LookaheadBuffer::new(2, 3);
    for i in 0..5 {
        buf.write_sample(0, i as f32);
        buf.write_sample(1, -(i as f32));
        buf.advance_write_pos();
    }
    buf.reset();
    assert_eq!(buf.get_recent_samples(0, 3), vec![0.0, 0.0, 0.0]);
    assert_eq!(buf.get_recent_samples(1, 3), vec![0.0, 0.0, 0.0]);
    buf.write_sample(0, 7.0);
    buf.advance_write_pos();
    assert_eq!(buf.read_sample(0, 1), 7.0);
}

#[test]
fn maximum_lookahead_reads_oldest_sample() {
    let size = 4096;
    let mut buf: LookaheadBuffer<f32> = LookaheadBuffer::new(2, size);
    for i in 0..size {
        buf.write_sample(0, i as f32);
        buf.write_sample(1, i as f32 + 0.5);
        buf.advance_write_pos();
    }
    assert_eq!(buf.read_sample(0, size - 1), 1.0);
    assert_eq!(buf.read_sample(1, size - 1), 1.5);
}
