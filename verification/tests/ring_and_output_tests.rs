use resonix_core::output::{account_drained, render_block};
use resonix_core::ring::SampleRing;
use resonix_core::state::PlaybackState;

#[test]
fn ring_push_reports_how_much_fit() {
    let mut ring = SampleRing::new(4);
    assert_eq!(ring.capacity(), 4);
    assert_eq!(ring.len(), 0);
    let n = ring.push_slice(&[1, 2, 3, 4, 5]);
    assert_eq!(n, 4);
    assert_eq!(ring.len(), 4);
    let n = ring.push_slice(&[6]);
    assert_eq!(n, 0);
}

#[test]
fn ring_pops_in_arrival_order() {
    let mut ring = SampleRing::new(8);
    ring.push_slice(&[10, 20, 30]);
    let out = ring.pop_up_to(2);
    assert_eq!(out, vec![10, 20]);
    let out = ring.pop_up_to(5);
    assert_eq!(out, vec![30]);
    let out = ring.pop_up_to(5);
    assert!(out.is_empty());
}

#[test]
fn ring_wraps_around_its_capacity() {
    let mut ring = SampleRing::new(3);
    ring.push_slice(&[1, 2, 3]);
    assert_eq!(ring.pop_up_to(2), vec![1, 2]);
    assert_eq!(ring.push_slice(&[4, 5]), 2);
    assert_eq!(ring.pop_up_to(4), vec![3, 4, 5]);
}

#[test]
fn callback_block_is_always_full_length() {
    // got + zeros == block_len, and got never exceeds the block.
    let mut ring = SampleRing::new(16);
    ring.push_slice(&[7, 8, 9]);
    let mut frames: u64 = 0;
    let mut queued: u64 = 3;
    let block = render_block(&mut ring, PlaybackState::Playing, 8, 2, &mut frames, &mut queued);
    assert_eq!(block.samples.len(), 8);
    assert_eq!(block.got, 3);
    assert_eq!(&block.samples[..3], &[7, 8, 9]);
    assert_eq!(&block.samples[3..], &[0, 0, 0, 0, 0]);
}

#[test]
fn callback_accounts_frames_and_queued_samples() {
    let mut ring = SampleRing::new(16);
    ring.push_slice(&[1, 2, 3, 4, 5, 6]);
    let mut frames: u64 = 100;
    let mut queued: u64 = 6;
    let block = render_block(&mut ring, PlaybackState::Playing, 4, 2, &mut frames, &mut queued);
    assert_eq!(block.got, 4);
    // Four samples over two channels: two frames played.
    assert_eq!(frames, 102);
    assert_eq!(queued, 2);
    assert_eq!(ring.len(), 2);
}

#[test]
fn queued_counter_saturates_at_zero() {
    let mut ring = SampleRing::new(16);
    ring.push_slice(&[1, 2, 3, 4]);
    let mut frames: u64 = 0;
    // The advisory counter can lag behind the ring's true content.
    let mut queued: u64 = 1;
    render_block(&mut ring, PlaybackState::Playing, 4, 2, &mut frames, &mut queued);
    assert_eq!(queued, 0);
}

#[test]
fn paused_callback_renders_silence_and_freezes_time() {
    let mut ring = SampleRing::new(16);
    ring.push_slice(&[5, 6, 7, 8]);
    let mut frames: u64 = 41;
    let mut queued: u64 = 4;
    let block = render_block(&mut ring, PlaybackState::Paused, 6, 2, &mut frames, &mut queued);
    assert_eq!(block.got, 0);
    assert!(block.samples.iter().all(|w| *w == 0));
    assert_eq!(block.samples.len(), 6);
    // Nothing was consumed and the clock did not move.
    assert_eq!(frames, 41);
    assert_eq!(queued, 4);
    assert_eq!(ring.len(), 4);
}

#[test]
fn accounting_step_saturates_and_counts_whole_frames() {
    // 5 samples over 2 channels: 2 whole frames; the advisory queued
    // counter never goes below zero.
    assert_eq!(account_drained(5, 2, 100, 10), (95, 12));
    assert_eq!(account_drained(5, 2, 3, 10), (0, 12));
    assert_eq!(account_drained(0, 2, 3, 10), (3, 10));
}

#[test]
fn frames_played_never_decreases_across_blocks() {
    // Playing: frames_played is monotone block after block; zero words pad
    // underruns without advancing time faster.
    let mut ring = SampleRing::new(64);
    let mut frames: u64 = 0;
    let mut queued: u64 = 0;
    let mut last = frames;
    for round in 0..5u32 {
        if round % 2 == 0 {
            ring.push_slice(&[round; 6]);
            queued += 6;
        }
        render_block(&mut ring, PlaybackState::Playing, 8, 2, &mut frames, &mut queued);
        assert!(frames >= last);
        last = frames;
    }
}
