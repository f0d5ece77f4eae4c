use ytstream::audio_processor::{AudioProcessor, PROCESS_INTERVAL_MICROS};

fn filled(buffer_size: i32, samples: &[u32]) -> AudioProcessor {
    let mut p = AudioProcessor::new(buffer_size, 4, 0);
    p.extend_buffer(&samples.to_vec());
    p
}

#[test]
fn new_processor_is_empty() {
    let p = AudioProcessor::new(4096, 44100, 7);
    assert_eq!(p.buffer_len(), 0);
    assert_eq!(p.samples_processed(), 0);
}

#[test]
fn cycle_before_interval_does_nothing() {
    let mut p = filled(4096, &[1, 2, 3, 4]);
    assert!(p.process_samples(PROCESS_INTERVAL_MICROS - 1, true, 100).is_none());
    assert_eq!(p.buffer_len(), 4);
    // The interval is counted from creation, so the next cycle can run.
    assert!(p.process_samples(PROCESS_INTERVAL_MICROS, true, 100).is_some());
}

#[test]
fn cycle_hands_over_whole_frames_in_order() {
    let mut p = filled(4096, &[1, 2, 3, 4, 5]);
    let frames = p.process_samples(PROCESS_INTERVAL_MICROS, true, 100).unwrap();
    assert_eq!(frames, vec![(1, 2), (3, 4)]);
    assert_eq!(p.buffer_len(), 1);
    assert_eq!(p.samples_processed(), 2);
}

#[test]
fn cycle_is_limited_by_available_frames() {
    let mut p = filled(4096, &[1, 2, 3, 4, 5, 6]);
    let frames = p.process_samples(PROCESS_INTERVAL_MICROS, true, 1).unwrap();
    assert_eq!(frames, vec![(1, 2)]);
    assert_eq!(p.buffer_len(), 4);
}

#[test]
fn cycle_is_limited_by_buffer_size_rounding_up_to_a_frame() {
    let mut p = filled(3, &[1, 2, 3, 4, 5, 6]);
    let frames = p.process_samples(PROCESS_INTERVAL_MICROS, true, 100).unwrap();
    assert_eq!(frames, vec![(1, 2), (3, 4)]);
    assert_eq!(p.samples_processed(), 2);
}

#[test]
fn negative_buffer_size_takes_whole_frames() {
    let mut p = filled(-1, &[1, 2, 3, 4, 5]);
    let frames = p.process_samples(PROCESS_INTERVAL_MICROS, true, 1).unwrap();
    assert_eq!(frames, vec![(1, 2), (3, 4)]);
}

#[test]
fn nothing_when_stopped_empty_or_no_room() {
    let mut p = filled(4096, &[1, 2]);
    assert!(p.process_samples(PROCESS_INTERVAL_MICROS, false, 10).is_none());
    assert!(p.process_samples(2 * PROCESS_INTERVAL_MICROS, true, 0).is_none());
    let mut single = filled(4096, &[9]);
    assert!(single.process_samples(PROCESS_INTERVAL_MICROS, true, 10).is_none());
    assert_eq!(single.buffer_len(), 1);
    let mut empty = AudioProcessor::new(4096, 1, 0);
    assert!(empty.process_samples(PROCESS_INTERVAL_MICROS, true, 10).is_none());
}

#[test]
fn interval_restarts_after_a_cycle_that_found_nothing() {
    let mut p = filled(4096, &[1, 2]);
    assert!(p.process_samples(PROCESS_INTERVAL_MICROS, false, 10).is_none());
    assert!(p.process_samples(PROCESS_INTERVAL_MICROS + 1, true, 10).is_none());
    assert!(p.process_samples(2 * PROCESS_INTERVAL_MICROS, true, 10).is_some());
}

#[test]
fn clock_going_backwards_counts_as_no_time() {
    let mut p = AudioProcessor::new(4096, 1, 10_000);
    p.extend_buffer(&vec![1, 2]);
    assert!(p.process_samples(0, true, 10).is_none());
}

#[test]
fn samples_are_conserved_across_cycles() {
    let input: Vec<u32> = (0..10).collect();
    let mut p = filled(4, &input);
    let mut out = Vec::new();
    let mut now = 0;
    for _ in 0..5 {
        now += PROCESS_INTERVAL_MICROS;
        if let Some(frames) = p.process_samples(now, true, 100) {
            for (l, r) in frames {
                out.push(l);
                out.push(r);
            }
        }
    }
    assert_eq!(out, input);
    assert_eq!(p.samples_processed(), 5);
}

#[test]
fn clear_buffer_resets_count() {
    let mut p = filled(4096, &[1, 2, 3, 4]);
    p.process_samples(PROCESS_INTERVAL_MICROS, true, 1);
    p.clear_buffer();
    assert_eq!(p.buffer_len(), 0);
    assert_eq!(p.samples_processed(), 0);
}

#[test]
fn ready_to_play_needs_threshold_and_stopped_player() {
    let p = filled(4096, &[1, 2, 3, 4]);
    assert!(p.ready_to_play(false));
    assert!(!p.ready_to_play(true));
    let q = filled(4096, &[1, 2, 3]);
    assert!(!q.ready_to_play(false));
}

#[test]
fn interval_check_before_querying_the_player() {
    let mut p = AudioProcessor::new(4096, 44100, 1000);
    assert!(!p.interval_elapsed(1000 + PROCESS_INTERVAL_MICROS - 1));
    assert!(p.interval_elapsed(1000 + PROCESS_INTERVAL_MICROS));
    assert!(!p.interval_elapsed(0));
    assert_eq!(p.process_samples(1000 + PROCESS_INTERVAL_MICROS, false, 0), None);
    assert!(!p.interval_elapsed(1000 + PROCESS_INTERVAL_MICROS + 1));
}

#[test]
fn cycle_keeps_parity_and_frames_plus_half_buffer() {
    let mut p = filled(4, &[1, 2, 3, 4, 5, 6, 7]);
    let before = p.samples_processed() + p.buffer_len() / 2;
    let parity = p.buffer_len() % 2;
    let frames = p.process_samples(PROCESS_INTERVAL_MICROS, true, 100).unwrap();
    assert_eq!(frames, vec![(1, 2), (3, 4)]);
    assert_eq!(p.buffer_len() % 2, parity);
    assert_eq!(p.samples_processed() + p.buffer_len() / 2, before);
    assert_eq!(p.samples_processed(), 2);
}
