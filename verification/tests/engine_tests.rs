use resonix_core::decoder::EngineEvent;
use resonix_core::engine::{Effect, AudioEngine, EngineError, Metrics, OutputFormat, StateTag};
use resonix_core::state::PlaybackState;
use resonix_core::timing::SeekCheck;

fn make_engine() -> AudioEngine {
    let (engine, effects) = AudioEngine::new(Some(OutputFormat { sample_rate: 48_000, channels: 2 }))
        .expect("engine with a device must construct");
    assert_eq!(effects, vec![Effect::RebuildOutput, Effect::StartMetrics]);
    engine
}

#[test]
fn no_output_device_is_a_construction_error() {
    let r = AudioEngine::new(None);
    match r {
        Err(e) => assert_eq!(e, EngineError::NoOutputDevice),
        Ok(_) => panic!("construction must fail without a device"),
    }
}

#[test]
fn new_engine_is_stopped_and_quiet() {
    let engine = make_engine();
    assert_eq!(engine.state, PlaybackState::Stopped);
    assert_eq!(engine.frames_played, 0);
    assert_eq!(engine.queued_samples, 0);
    assert_eq!(engine.vol_bits, 1.0f32.to_bits());
    assert!(engine.queue.is_empty());
    assert!(engine.current_index.is_none());
}

#[test]
fn play_with_empty_queue_is_refused() {
    let mut engine = make_engine();
    match engine.play() {
        Err(e) => assert_eq!(e, EngineError::QueueEmpty),
        Ok(_) => panic!("play with nothing loaded must fail"),
    }
    assert_eq!(engine.state, PlaybackState::Stopped);
}

#[test]
fn load_resets_counters_and_selects_the_file() {
    let mut engine = make_engine();
    engine.frames_played = 777;
    let effects = engine.load("a.flac".to_string());
    assert_eq!(engine.queue, vec!["a.flac".to_string()]);
    assert_eq!(engine.current_index, Some(0));
    assert_eq!(engine.state, PlaybackState::Stopped);
    assert_eq!(engine.frames_played, 0);
    assert_eq!(engine.queued_samples, 0);
    assert_eq!(engine.duration_frames, 0);
    assert_eq!(
        effects,
        vec![
            Effect::StopDecoder,
            Effect::EmitState(StateTag::Stopped),
            Effect::StartDurationScan("a.flac".to_string()),
        ]
    );
}

#[test]
fn play_spawns_decoder_and_starts_stream() {
    let mut engine = make_engine();
    engine.load("a.flac".to_string());
    let effects = engine.play().expect("play after load");
    assert_eq!(engine.state, PlaybackState::Playing);
    assert!(engine.decoder_running);
    assert_eq!(effects.len(), 5);
    assert_eq!(
        effects[0],
        Effect::SpawnDecoder { path: "a.flac".to_string(), seek_ms: None, next_hint: None }
    );
    assert_eq!(effects[1], Effect::WarmUp);
    assert_eq!(effects[2], Effect::StartStream);
    assert_eq!(effects[3], Effect::EmitState(StateTag::Playing));
    assert_eq!(effects[4], Effect::WatchEndOfStream);
}

#[test]
fn queue_play_presends_the_next_track() {
    // SetQueue(["a.flac","b.flac"], 0) then Play: the worker is told about
    // b.flac up front so the hand-off is gapless.
    let mut engine = make_engine();
    engine.set_queue(vec!["a.flac".to_string(), "b.flac".to_string()], 0);
    assert_eq!(engine.current_index, Some(0));
    let effects = engine.play().expect("play after set_queue");
    assert_eq!(
        effects[0],
        Effect::SpawnDecoder {
            path: "a.flac".to_string(),
            seek_ms: None,
            next_hint: Some("b.flac".to_string()),
        }
    );
}

#[test]
fn set_queue_with_out_of_range_start_leaves_no_current() {
    let mut engine = make_engine();
    let effects = engine.set_queue(vec!["a.flac".to_string()], 5);
    assert_eq!(engine.current_index, None);
    assert_eq!(effects, vec![Effect::StopDecoder]);
}

#[test]
fn pause_freezes_frames_played() {
    let mut engine = make_engine();
    engine.load("a.flac".to_string());
    engine.play().unwrap();
    engine.frames_played = 4242;
    let effects = engine.pause();
    assert_eq!(engine.state, PlaybackState::Paused);
    assert_eq!(engine.frames_played, 4242);
    assert_eq!(effects, vec![Effect::PauseStream, Effect::EmitState(StateTag::Paused)]);
    // Play out of pause resumes the stream without a new worker.
    let effects = engine.play().unwrap();
    assert_eq!(effects, vec![Effect::StartStream, Effect::EmitState(StateTag::Playing)]);
    assert_eq!(engine.frames_played, 4242);
}

#[test]
fn stop_zeroes_both_counters() {
    // Play -> Stop: afterwards queued_samples == 0 and frames_played == 0.
    let mut engine = make_engine();
    engine.load("a.flac".to_string());
    engine.play().unwrap();
    engine.frames_played = 96_000;
    engine.queued_samples = 12_345;
    let effects = engine.stop();
    assert_eq!(engine.state, PlaybackState::Stopped);
    assert_eq!(engine.frames_played, 0);
    assert_eq!(engine.queued_samples, 0);
    assert!(!engine.decoder_running);
    assert_eq!(
        effects,
        vec![
            Effect::StopDecoder,
            Effect::PauseStream,
            Effect::RebuildOutput,
            Effect::EmitState(StateTag::Stopped),
        ]
    );
}

#[test]
fn seek_seeds_position_before_the_stream_restarts() {
    // Play at 0 -> Seek(5.0 s): the position reads at least 5.0 s before the
    // stream could run again.
    let mut engine = make_engine();
    engine.load("a.flac".to_string());
    engine.play().unwrap();
    let effects = engine.seek(5_000).expect("seek with a current file");
    assert_eq!(engine.frames_played, 5 * 48_000);
    assert_eq!(engine.queued_samples, 0);
    assert_eq!(engine.state, PlaybackState::Playing);
    assert!(engine.position_millis() >= 5_000);
    assert_eq!(effects.len(), 7);
    assert_eq!(effects[0], Effect::StopDecoder);
    assert_eq!(effects[1], Effect::RebuildOutput);
    assert_eq!(
        effects[2],
        Effect::SpawnDecoder { path: "a.flac".to_string(), seek_ms: Some(5_000), next_hint: None }
    );
    assert_eq!(effects[3], Effect::WarmUp);
    assert_eq!(effects[4], Effect::StartStream);
    assert_eq!(effects[5], Effect::EmitState(StateTag::Playing));
    assert_eq!(effects[6], Effect::WatchEndOfStream);
}

#[test]
fn seek_while_paused_stays_paused() {
    let mut engine = make_engine();
    engine.load("a.flac".to_string());
    engine.pause();
    let effects = engine.seek(1_500).unwrap();
    assert_eq!(engine.state, PlaybackState::Paused);
    assert_eq!(engine.frames_played, 72_000);
    assert_eq!(effects[4], Effect::PauseStream);
    assert_eq!(effects[5], Effect::EmitState(StateTag::Paused));
}

#[test]
fn seek_with_no_file_is_refused() {
    let mut engine = make_engine();
    match engine.seek(1_000) {
        Err(e) => assert_eq!(e, EngineError::NoCurrentFile),
        Ok(_) => panic!("seek with an empty queue must fail"),
    }
}

#[test]
fn volume_requests_are_clamped_to_unit_range() {
    // SetVolume(2.0) -> effective multiplier 1.0; NaN and negatives land on
    // the endpoints too.
    let mut engine = make_engine();
    engine.set_volume(2.0f32.to_bits());
    assert_eq!(engine.vol_bits, 1.0f32.to_bits());
    engine.set_volume((-1.0f32).to_bits());
    assert_eq!(engine.vol_bits, 0.0f32.to_bits());
    engine.set_volume(f32::NAN.to_bits());
    assert_eq!(engine.vol_bits, 1.0f32.to_bits());
    engine.set_volume(0.25f32.to_bits());
    assert_eq!(engine.vol_bits, 0.25f32.to_bits());
    engine.set_volume(f32::INFINITY.to_bits());
    assert_eq!(engine.vol_bits, 1.0f32.to_bits());
}

#[test]
fn next_wraps_and_restarts_playback() {
    let mut engine = make_engine();
    engine.set_queue(vec!["a.flac".to_string(), "b.flac".to_string()], 0);
    let effects = engine.next().expect("next on a two-entry queue");
    assert_eq!(engine.current_index, Some(1));
    assert_eq!(engine.state, PlaybackState::Playing);
    assert_eq!(engine.frames_played, 0);
    assert_eq!(effects.len(), 10);
    assert_eq!(effects[4], Effect::StartDurationScan("b.flac".to_string()));
    assert_eq!(
        effects[5],
        Effect::SpawnDecoder { path: "b.flac".to_string(), seek_ms: None, next_hint: None }
    );
    // Stepping once more wraps back to the first entry.
    let effects = engine.next().unwrap();
    assert_eq!(engine.current_index, Some(0));
    assert_eq!(effects[4], Effect::StartDurationScan("a.flac".to_string()));
}

#[test]
fn next_by_a_full_cycle_is_a_no_op() {
    let mut engine = make_engine();
    engine.set_queue(vec!["a.flac".to_string(), "b.flac".to_string()], 0);
    let effects = engine.advance(2).unwrap();
    assert!(effects.is_empty());
    assert_eq!(engine.current_index, Some(0));
    assert_eq!(engine.state, PlaybackState::Stopped);
}

#[test]
fn prev_wraps_backward() {
    let mut engine = make_engine();
    engine.set_queue(
        vec!["a.flac".to_string(), "b.flac".to_string(), "c.flac".to_string()],
        0,
    );
    engine.prev().unwrap();
    assert_eq!(engine.current_index, Some(2));
    engine.prev().unwrap();
    assert_eq!(engine.current_index, Some(1));
}

#[test]
fn next_on_empty_queue_is_a_no_op() {
    let mut engine = make_engine();
    let effects = engine.next().unwrap();
    assert!(effects.is_empty());
}

#[test]
fn end_of_stream_ends_playback() {
    // A zero-byte or unsupported file makes the worker emit end-of-stream;
    // the engine then reports "ended" and is stopped.
    let mut engine = make_engine();
    engine.load("broken.mp3".to_string());
    engine.play().unwrap();
    let effects = engine.on_event(EngineEvent::EndOfStream);
    assert_eq!(engine.state, PlaybackState::Stopped);
    assert!(!engine.decoder_running);
    // The ended worker consumed the ring producer: a rebuild precedes the
    // event, so a following Play can spawn again.
    assert_eq!(effects, vec![Effect::RebuildOutput, Effect::EmitState(StateTag::Ended)]);
}

#[test]
fn state_tags_spell_their_events() {
    assert_eq!(StateTag::Stopped.label(), "stopped");
    assert_eq!(StateTag::Playing.label(), "playing");
    assert_eq!(StateTag::Paused.label(), "paused");
    assert_eq!(StateTag::Ended.label(), "ended");
}

#[test]
fn set_queue_and_play_starts_the_chosen_entry() {
    let mut engine = make_engine();
    engine.frames_played = 999;
    let effects = engine.set_queue_and_play(vec!["a.flac".to_string(), "b.flac".to_string()], 1);
    assert_eq!(engine.current_index, Some(1));
    assert_eq!(engine.state, PlaybackState::Playing);
    assert!(engine.decoder_running);
    assert_eq!(engine.frames_played, 0);
    assert_eq!(engine.queued_samples, 0);
    // A full stop, the replacement with its scan, then the fresh start.
    assert_eq!(effects.len(), 11);
    assert_eq!(effects[0], Effect::StopDecoder);
    assert_eq!(effects[2], Effect::RebuildOutput);
    assert_eq!(effects[5], Effect::StartDurationScan("b.flac".to_string()));
    assert_eq!(
        effects[6],
        Effect::SpawnDecoder { path: "b.flac".to_string(), seek_ms: None, next_hint: None }
    );
}

#[test]
fn set_queue_and_play_with_bad_start_plays_the_first_entry() {
    let mut engine = make_engine();
    let effects = engine.set_queue_and_play(vec!["a.flac".to_string()], 7);
    assert_eq!(engine.current_index, None);
    assert_eq!(engine.state, PlaybackState::Playing);
    assert_eq!(effects.len(), 10);
    assert_eq!(
        effects[5],
        Effect::SpawnDecoder { path: "a.flac".to_string(), seek_ms: None, next_hint: None }
    );
}

#[test]
fn set_queue_and_play_with_nothing_stays_stopped() {
    let mut engine = make_engine();
    let effects = engine.set_queue_and_play(Vec::new(), 0);
    assert_eq!(engine.state, PlaybackState::Stopped);
    assert!(!engine.decoder_running);
    assert_eq!(effects.len(), 5);
    assert_eq!(effects[4], Effect::StopDecoder);
}

#[test]
fn non_finite_seek_requests_are_refused() {
    assert_eq!(
        resonix_core::engine::vet_seek_request(f64::NAN.to_bits()),
        Err(EngineError::InvalidSeek)
    );
    assert_eq!(
        resonix_core::engine::vet_seek_request(f64::INFINITY.to_bits()),
        Err(EngineError::InvalidSeek)
    );
    assert_eq!(resonix_core::engine::vet_seek_request((-2.0f64).to_bits()), Ok(SeekCheck::Zero));
    assert_eq!(resonix_core::engine::vet_seek_request(7.5f64.to_bits()), Ok(SeekCheck::Value));
}

#[test]
fn error_messages_name_the_cause() {
    assert_eq!(EngineError::NoOutputDevice.message(), "No output device");
    assert_eq!(EngineError::QueueEmpty.message(), "Queue empty");
}

#[test]
fn metrics_convert_frames_to_millis() {
    let m = Metrics {
        frames_played: 96_000,
        duration_frames: 480_000,
        peak_l: 0,
        peak_r: 0,
        sample_rate: 48_000,
    };
    assert_eq!(m.position_millis(), 2_000);
    assert_eq!(m.duration_millis(), 10_000);
}
