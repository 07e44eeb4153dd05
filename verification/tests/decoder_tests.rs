use resonix_core::decoder::{
    on_decode, on_fetch, on_open_result, over_backpressure, push_chunk, DecodeOutcome,
    DecodeStep, DecoderControl, DecoderSession, EngineEvent, FetchOutcome, FetchStep, TrackEnd,
};
use resonix_core::ring::SampleRing;

#[test]
fn stop_control_ends_the_worker() {
    let mut session = DecoderSession::new("a.flac".to_string(), None);
    assert!(session.on_control(DecoderControl::Stop));
    assert_eq!(session.current_file, "a.flac");
}

#[test]
fn switch_control_is_remembered_not_acted_on() {
    let mut session = DecoderSession::new("a.flac".to_string(), None);
    let stop = session.on_control(DecoderControl::SwitchTo("b.flac".to_string()));
    assert!(!stop);
    assert_eq!(session.current_file, "a.flac");
    assert_eq!(session.next_file, Some("b.flac".to_string()));
}

#[test]
fn track_end_chains_gaplessly_into_the_switched_track() {
    // A SwitchTo received before the end of the current track means: no
    // end-of-stream event, the worker re-opens on the next track.
    let mut session = DecoderSession::new("a.flac".to_string(), Some(3_000));
    session.take_initial_seek();
    session.on_control(DecoderControl::SwitchTo("b.flac".to_string()));
    let end = session.on_track_end();
    assert_eq!(end, TrackEnd::NextTrack);
    assert_eq!(session.current_file, "b.flac");
    assert_eq!(session.next_file, None);
    // The chained track starts from its beginning.
    assert_eq!(session.initial_seek_ms, None);
}

#[test]
fn track_end_without_a_next_track_emits_end_of_stream() {
    let mut session = DecoderSession::new("a.flac".to_string(), None);
    let end = session.on_track_end();
    assert_eq!(end, TrackEnd::EmitEndOfStream);
    assert_eq!(session.current_file, "a.flac");
}

#[test]
fn initial_seek_is_taken_once() {
    let mut session = DecoderSession::new("a.flac".to_string(), Some(2_500));
    assert_eq!(session.take_initial_seek(), Some(2_500));
    assert_eq!(session.take_initial_seek(), None);
}

#[test]
fn unreadable_file_surfaces_as_end_of_stream() {
    // A zero-byte or unsupported file fails to open or probe; the worker
    // reports end-of-stream instead of crashing.
    assert_eq!(on_open_result(false), Some(EngineEvent::EndOfStream));
    assert_eq!(on_open_result(true), None);
}

#[test]
fn fetch_outcomes_map_to_their_steps() {
    assert_eq!(on_fetch(FetchOutcome::Packet { same_track: true }), FetchStep::DecodePacket);
    assert_eq!(on_fetch(FetchOutcome::Packet { same_track: false }), FetchStep::SkipPacket);
    assert_eq!(on_fetch(FetchOutcome::ResetRequired), FetchStep::ResetDecoder);
    // Any fetch failure, including one past the track's duration, finishes
    // the track.
    assert_eq!(on_fetch(FetchOutcome::EndOrError), FetchStep::FinishTrack);
}

#[test]
fn decode_outcomes_map_to_their_steps() {
    assert_eq!(on_decode(DecodeOutcome::Decoded), DecodeStep::PushSamples);
    assert_eq!(on_decode(DecodeOutcome::RecoverableError), DecodeStep::SkipPacket);
    assert_eq!(on_decode(DecodeOutcome::ResetRequired), DecodeStep::ResetDecoder);
    assert_eq!(on_decode(DecodeOutcome::FatalError), DecodeStep::EmitEosAndStop);
}

#[test]
fn backpressure_starts_past_two_seconds_of_audio() {
    let threshold = 48_000u64 * 2 * 2;
    assert!(!over_backpressure(threshold, 48_000, 2));
    assert!(over_backpressure(threshold + 1, 48_000, 2));
    assert!(!over_backpressure(0, 48_000, 2));
}

#[test]
fn push_chunk_makes_partial_progress_on_a_full_ring() {
    let mut ring = SampleRing::new(4);
    let mut queued: u64 = 0;
    let samples: Vec<u32> = vec![1, 2, 3, 4, 5, 6];
    let n = push_chunk(&mut ring, &samples, 0, &mut queued);
    assert_eq!(n, 4);
    assert_eq!(queued, 4);
    // The ring is full: the next try fits nothing and nothing is lost.
    let n = push_chunk(&mut ring, &samples, 4, &mut queued);
    assert_eq!(n, 0);
    assert_eq!(queued, 4);
    // After the callback drains some, the rest goes through.
    ring.pop_up_to(2);
    let n = push_chunk(&mut ring, &samples, 4, &mut queued);
    assert_eq!(n, 2);
    assert_eq!(queued, 6);
    assert_eq!(ring.pop_up_to(4), vec![3, 4, 5, 6]);
}
