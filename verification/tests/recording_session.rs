use voice_recorder::capture::{
    capture_step, plan_stream, CaptureAction, CaptureEvent, CaptureExit, CaptureStage,
    DeviceDefault, POLL_INTERVAL_MS,
};
use voice_recorder::config::StreamParams;
use voice_recorder::recorder::{
    begin_stop_recording, finish_stop_recording, phase, start_recording, AudioRecordingResponse,
    BackgroundRecorder, Phase, RecorderError, RecordingState,
};
use voice_recorder::sample::{Conversion, NativeFormat};
use voice_recorder::wav::can_encode;

fn mono_44100(format: NativeFormat) -> DeviceDefault {
    DeviceDefault { channels: 1, sample_rate: 44100, format }
}

/// Drives the capture thread's steps with a device on which nothing fails.
fn run_clean_start(
    state: &mut RecordingState,
    recorder: &mut BackgroundRecorder,
    device: DeviceDefault,
) -> CaptureStage {
    let (stage, action) = capture_step(state, recorder, CaptureStage::Launched, CaptureEvent::Begun);
    assert_eq!(action, CaptureAction::ResolveDevice);
    let (stage, action) =
        capture_step(state, recorder, stage, CaptureEvent::DeviceResolved { found: true });
    assert_eq!(action, CaptureAction::QueryDefaultConfig);
    let (stage, action) = capture_step(
        state,
        recorder,
        stage,
        CaptureEvent::ConfigResolved { device_default: Some(device) },
    );
    assert!(matches!(action, CaptureAction::BuildStream { .. }));
    let (stage, action) =
        capture_step(state, recorder, stage, CaptureEvent::StreamBuilt { ok: true });
    assert_eq!(action, CaptureAction::StartStream);
    let (stage, action) =
        capture_step(state, recorder, stage, CaptureEvent::StreamStarted { ok: true });
    assert_eq!(action, CaptureAction::Sleep { millis: 100 });
    stage
}

/// Stops a session as the host does: request, wake, join, finish.
fn run_stop(
    state: &mut RecordingState,
    recorder: &mut BackgroundRecorder,
    stage: CaptureStage,
) -> StreamParams {
    assert_eq!(begin_stop_recording(state, recorder), Ok(()));
    let (stage, action) = capture_step(state, recorder, stage, CaptureEvent::Slept);
    assert_eq!(stage, CaptureStage::Finished);
    assert_eq!(action, CaptureAction::Exit { reason: CaptureExit::Stopped });
    assert!(recorder.thread_attached);
    finish_stop_recording(state, recorder, true).unwrap()
}

#[test]
fn a_new_session_is_idle() {
    let state = RecordingState::new();
    let recorder = BackgroundRecorder::new();
    assert!(!state.is_recording());
    assert!(state.audio_data.is_empty());
    assert_eq!(state.channels, 0);
    assert_eq!(state.sample_rate, 0);
    assert!(!state.stream_held);
    assert!(!recorder.thread_attached);
    assert!(!recorder.stop_requested());
    assert_eq!(phase(&recorder, &state), Phase::Idle);
}

#[test]
fn defaults_are_idle_too() {
    let state = RecordingState::default();
    let recorder = BackgroundRecorder::default();
    assert_eq!(recorder, BackgroundRecorder::new());
    assert_eq!(phase(&recorder, &state), Phase::Idle);
    assert!(state.audio_data.is_empty());
}

#[test]
fn stop_when_idle_fails_with_not_recording() {
    let mut state = RecordingState::new();
    let mut recorder = BackgroundRecorder::new();
    for _ in 0..3 {
        assert_eq!(begin_stop_recording(&state, &mut recorder), Err(RecorderError::NotRecording));
        assert_eq!(recorder, BackgroundRecorder::new());
        assert!(!state.is_recording());
    }
    state.audio_data.push(1);
    assert_eq!(begin_stop_recording(&state, &mut recorder), Err(RecorderError::NotRecording));
    assert_eq!(state.audio_data, vec![1]);
}

#[test]
fn the_recorder_without_a_thread_has_nothing_to_stop() {
    let mut recorder = BackgroundRecorder::new();
    assert_eq!(recorder.stop(), Err(RecorderError::NotRecording));
    assert!(recorder.stop_requested());
    assert!(!recorder.thread_attached);
    assert_eq!(recorder.stop(), Err(RecorderError::NotRecording));
}

#[test]
fn of_two_starts_one_succeeds() {
    let mut state = RecordingState::new();
    let mut recorder = BackgroundRecorder::new();
    assert_eq!(start_recording(&mut state, &mut recorder), Ok(()));
    assert_eq!(start_recording(&mut state, &mut recorder), Err(RecorderError::AlreadyRecording));
    assert_eq!(start_recording(&mut state, &mut recorder), Err(RecorderError::AlreadyRecording));
    assert!(recorder.thread_attached);
}

#[test]
fn start_is_refused_in_every_phase_but_idle() {
    let mut state = RecordingState::new();
    let mut recorder = BackgroundRecorder::new();
    start_recording(&mut state, &mut recorder).unwrap();
    assert_eq!(phase(&recorder, &state), Phase::Starting);
    assert_eq!(start_recording(&mut state, &mut recorder), Err(RecorderError::AlreadyRecording));

    let stage = run_clean_start(&mut state, &mut recorder, mono_44100(NativeFormat::I16));
    assert_eq!(stage, CaptureStage::Recording);
    assert_eq!(phase(&recorder, &state), Phase::Active);
    assert_eq!(start_recording(&mut state, &mut recorder), Err(RecorderError::AlreadyRecording));

    begin_stop_recording(&state, &mut recorder).unwrap();
    assert_eq!(phase(&recorder, &state), Phase::Stopping);
    assert_eq!(start_recording(&mut state, &mut recorder), Err(RecorderError::AlreadyRecording));

    finish_stop_recording(&mut state, &mut recorder, true).unwrap();
    assert_eq!(phase(&recorder, &state), Phase::Idle);
    assert_eq!(start_recording(&mut state, &mut recorder), Ok(()));
}

#[test]
fn a_refused_start_keeps_the_buffer_of_the_active_session() {
    let mut state = RecordingState::new();
    let mut recorder = BackgroundRecorder::new();
    start_recording(&mut state, &mut recorder).unwrap();
    run_clean_start(&mut state, &mut recorder, mono_44100(NativeFormat::I16));
    state.accept_i16(&[1, 2, 3]);
    assert_eq!(start_recording(&mut state, &mut recorder), Err(RecorderError::AlreadyRecording));
    assert_eq!(state.audio_data, vec![1, 2, 3]);
    assert!(state.is_recording());
}

#[test]
fn the_recorder_start_resets_the_flags_and_empties_the_buffer() {
    let mut state = RecordingState::new();
    state.audio_data.extend_from_slice(&[9, 9]);
    state.is_recording = true;
    state.channels = 2;
    state.sample_rate = 48000;
    let mut recorder = BackgroundRecorder { thread_attached: false, stop_flag: true };
    assert_eq!(recorder.start(&mut state), Ok(()));
    assert!(recorder.thread_attached);
    assert!(!recorder.stop_requested());
    assert!(!state.is_recording());
    assert!(state.audio_data.is_empty());
    assert_eq!(state.channels, 2);
    assert_eq!(state.sample_rate, 48000);
    assert_eq!(recorder.start(&mut state), Err(RecorderError::AlreadyRecording));
}

#[test]
fn the_second_session_holds_no_samples_of_the_first() {
    let mut state = RecordingState::new();
    let mut recorder = BackgroundRecorder::new();

    start_recording(&mut state, &mut recorder).unwrap();
    let stage = run_clean_start(&mut state, &mut recorder, mono_44100(NativeFormat::I16));
    state.accept_i16(&[11, 12, 13, 14]);
    assert_eq!(state.audio_data, vec![11, 12, 13, 14]);
    run_stop(&mut state, &mut recorder, stage);
    assert_eq!(state.audio_data, vec![11, 12, 13, 14]);

    start_recording(&mut state, &mut recorder).unwrap();
    assert!(state.audio_data.is_empty());
    run_clean_start(&mut state, &mut recorder, mono_44100(NativeFormat::I16));
    assert!(state.audio_data.is_empty());
    state.accept_i16(&[21, 22]);
    assert_eq!(state.audio_data, vec![21, 22]);
}

#[test]
fn chunks_are_dropped_unless_the_state_records() {
    let mut state = RecordingState::new();
    state.accept_i16(&[1, 2]);
    state.accept_u16(&[0, 65535]);
    assert!(state.audio_data.is_empty());
    state.is_recording = true;
    state.accept_i16(&[1, 2]);
    state.accept_u16(&[0, 65535, 32768]);
    assert_eq!(state.audio_data, vec![1, 2, -32768, 32767, 0]);
    state.is_recording = false;
    state.accept_i16(&[5]);
    assert_eq!(state.audio_data, vec![1, 2, -32768, 32767, 0]);
}

#[test]
fn the_capture_thread_walks_through_its_stages() {
    let mut state = RecordingState::new();
    let mut recorder = BackgroundRecorder::new();
    start_recording(&mut state, &mut recorder).unwrap();
    state.audio_data.push(99);
    let (stage, action) =
        capture_step(&mut state, &mut recorder, CaptureStage::Launched, CaptureEvent::Begun);
    assert_eq!((stage, action), (CaptureStage::AwaitingDevice, CaptureAction::ResolveDevice));
    assert!(state.audio_data.is_empty());

    let (stage, action) =
        capture_step(&mut state, &mut recorder, stage, CaptureEvent::DeviceResolved { found: true });
    assert_eq!((stage, action), (CaptureStage::AwaitingConfig, CaptureAction::QueryDefaultConfig));

    let event = CaptureEvent::ConfigResolved {
        device_default: Some(DeviceDefault {
            channels: 2,
            sample_rate: 48000,
            format: NativeFormat::U16,
        }),
    };
    let (stage, action) = capture_step(&mut state, &mut recorder, stage, event);
    assert_eq!(stage, CaptureStage::AwaitingStream);
    assert_eq!(
        action,
        CaptureAction::BuildStream {
            params: StreamParams { channels: 2, sample_rate: 48000 },
            conversion: Conversion::OffsetBinary,
        }
    );
    assert!(!state.stream_held);

    let (stage, action) =
        capture_step(&mut state, &mut recorder, stage, CaptureEvent::StreamBuilt { ok: true });
    assert_eq!((stage, action), (CaptureStage::AwaitingStart, CaptureAction::StartStream));
    assert!(state.stream_held);
    assert!(!state.is_recording());

    let (stage, action) =
        capture_step(&mut state, &mut recorder, stage, CaptureEvent::StreamStarted { ok: true });
    assert_eq!(POLL_INTERVAL_MS, 100);
    assert_eq!((stage, action), (CaptureStage::Recording, CaptureAction::Sleep { millis: 100 }));
    assert!(state.is_recording());

    let (stage, action) = capture_step(&mut state, &mut recorder, stage, CaptureEvent::Slept);
    assert_eq!((stage, action), (CaptureStage::Recording, CaptureAction::Sleep { millis: 100 }));
    assert!(state.is_recording());

    assert_eq!(recorder.stop(), Ok(()));
    let (stage, action) = capture_step(&mut state, &mut recorder, stage, CaptureEvent::Slept);
    assert_eq!(stage, CaptureStage::Finished);
    assert_eq!(action, CaptureAction::Exit { reason: CaptureExit::Stopped });
    assert!(!state.is_recording());
    assert!(!state.stream_held);
    assert!(recorder.thread_attached);

    let (stage, action) = capture_step(&mut state, &mut recorder, stage, CaptureEvent::Slept);
    assert_eq!((stage, action), (CaptureStage::Finished, CaptureAction::Nothing));
}

#[test]
fn a_stop_requested_before_the_stream_starts_is_seen_at_once() {
    let mut state = RecordingState::new();
    let mut recorder = BackgroundRecorder::new();
    start_recording(&mut state, &mut recorder).unwrap();
    assert_eq!(recorder.stop(), Ok(()));
    let (_, action) = capture_step(
        &mut state,
        &mut recorder,
        CaptureStage::AwaitingStart,
        CaptureEvent::StreamStarted { ok: true },
    );
    assert_eq!(action, CaptureAction::Exit { reason: CaptureExit::Stopped });
    assert!(!state.is_recording());
}

#[test]
fn the_stream_is_built_with_the_stored_preference() {
    let mut state = RecordingState::new();
    state.channels = 2;
    state.sample_rate = 16000;
    let plan = plan_stream(&state, mono_44100(NativeFormat::F32));
    assert_eq!(
        plan,
        Some(CaptureAction::BuildStream {
            params: StreamParams { channels: 2, sample_rate: 16000 },
            conversion: Conversion::FloatScale,
        })
    );
    state.sample_rate = 0;
    let plan = plan_stream(&state, mono_44100(NativeFormat::I16));
    assert_eq!(
        plan,
        Some(CaptureAction::BuildStream {
            params: StreamParams { channels: 2, sample_rate: 44100 },
            conversion: Conversion::PassThrough,
        })
    );
    assert_eq!(plan_stream(&state, mono_44100(NativeFormat::I32)), None);
}

#[test]
fn every_failure_ends_the_thread_and_leaves_the_session_idle() {
    let cases = [
        (
            CaptureStage::AwaitingDevice,
            CaptureEvent::DeviceResolved { found: false },
            CaptureExit::NoInputDevice,
        ),
        (
            CaptureStage::AwaitingConfig,
            CaptureEvent::ConfigResolved { device_default: None },
            CaptureExit::ConfigUnavailable,
        ),
        (
            CaptureStage::AwaitingConfig,
            CaptureEvent::ConfigResolved { device_default: Some(mono_44100(NativeFormat::U8)) },
            CaptureExit::UnsupportedFormat,
        ),
        (
            CaptureStage::AwaitingStream,
            CaptureEvent::StreamBuilt { ok: false },
            CaptureExit::StreamBuildFailure,
        ),
        (
            CaptureStage::AwaitingStart,
            CaptureEvent::StreamStarted { ok: false },
            CaptureExit::StreamStartFailure,
        ),
        (CaptureStage::Launched, CaptureEvent::Slept, CaptureExit::OutOfTurn),
        (CaptureStage::Recording, CaptureEvent::Begun, CaptureExit::OutOfTurn),
        (CaptureStage::AwaitingDevice, CaptureEvent::StreamBuilt { ok: true }, CaptureExit::OutOfTurn),
    ];
    for (stage, event, reason) in cases {
        let mut state = RecordingState::new();
        let mut recorder = BackgroundRecorder::new();
        start_recording(&mut state, &mut recorder).unwrap();
        let (next, action) = capture_step(&mut state, &mut recorder, stage, event);
        assert_eq!(next, CaptureStage::Finished);
        assert_eq!(action, CaptureAction::Exit { reason });
        assert!(!state.is_recording());
        assert!(!state.stream_held);
        assert!(!recorder.thread_attached);
        assert_eq!(phase(&recorder, &state), Phase::Idle);
    }
}

#[test]
fn after_a_failed_start_a_stop_finds_nothing_and_a_start_is_accepted() {
    let mut state = RecordingState::new();
    let mut recorder = BackgroundRecorder::new();
    start_recording(&mut state, &mut recorder).unwrap();
    let (stage, _) =
        capture_step(&mut state, &mut recorder, CaptureStage::Launched, CaptureEvent::Begun);
    let (stage, action) = capture_step(
        &mut state,
        &mut recorder,
        stage,
        CaptureEvent::DeviceResolved { found: false },
    );
    assert_eq!(stage, CaptureStage::Finished);
    assert_eq!(action, CaptureAction::Exit { reason: CaptureExit::NoInputDevice });
    assert_eq!(begin_stop_recording(&state, &mut recorder), Err(RecorderError::NotRecording));
    assert_eq!(start_recording(&mut state, &mut recorder), Ok(()));
}

#[test]
fn a_failed_join_is_reported_and_leaves_the_session_idle() {
    let mut state = RecordingState::new();
    let mut recorder = BackgroundRecorder::new();
    start_recording(&mut state, &mut recorder).unwrap();
    run_clean_start(&mut state, &mut recorder, mono_44100(NativeFormat::I16));
    state.accept_i16(&[4, 5]);
    begin_stop_recording(&state, &mut recorder).unwrap();
    // The thread panicked: it never reported that it left.
    let outcome = finish_stop_recording(&mut state, &mut recorder, false);
    assert_eq!(outcome, Err(RecorderError::JoinFailed));
    assert!(!state.is_recording());
    assert!(!state.stream_held);
    assert!(!recorder.thread_attached);
    assert_eq!(state.audio_data, vec![4, 5]);
    assert_eq!(phase(&recorder, &state), Phase::Idle);
    assert_eq!(begin_stop_recording(&state, &mut recorder), Err(RecorderError::NotRecording));
    assert_eq!(start_recording(&mut state, &mut recorder), Ok(()));
}

#[test]
fn a_start_refused_while_stopping_keeps_the_recording() {
    let mut state = RecordingState::new();
    let mut recorder = BackgroundRecorder::new();
    start_recording(&mut state, &mut recorder).unwrap();
    let stage = run_clean_start(&mut state, &mut recorder, mono_44100(NativeFormat::I16));
    state.accept_i16(&[1, 2, 3]);
    begin_stop_recording(&state, &mut recorder).unwrap();
    // The thread sees the flag and leaves; the join is not reported yet.
    let (_, action) = capture_step(&mut state, &mut recorder, stage, CaptureEvent::Slept);
    assert_eq!(action, CaptureAction::Exit { reason: CaptureExit::Stopped });
    assert!(!state.is_recording());
    assert_eq!(start_recording(&mut state, &mut recorder), Err(RecorderError::AlreadyRecording));
    assert_eq!(state.audio_data, vec![1, 2, 3]);
    assert_eq!(state.session, StreamParams { channels: 1, sample_rate: 44100 });
    let params = finish_stop_recording(&mut state, &mut recorder, true).unwrap();
    assert_eq!(params, StreamParams { channels: 1, sample_rate: 44100 });
    assert_eq!(state.audio_data, vec![1, 2, 3]);
    let (_, samples) = decode(state.encode_capture().unwrap());
    assert_eq!(samples, vec![1, 2, 3]);
}

#[test]
fn a_start_refused_while_starting_changes_nothing() {
    let mut state = RecordingState::new();
    let mut recorder = BackgroundRecorder::new();
    start_recording(&mut state, &mut recorder).unwrap();
    state.audio_data.extend_from_slice(&[8, 9]);
    state.session = StreamParams { channels: 2, sample_rate: 8000 };
    let before = recorder;
    assert_eq!(start_recording(&mut state, &mut recorder), Err(RecorderError::AlreadyRecording));
    assert_eq!(recorder, before);
    assert_eq!(state.audio_data, vec![8, 9]);
    assert_eq!(state.session, StreamParams { channels: 2, sample_rate: 8000 });
}

#[test]
fn the_container_takes_what_the_stream_was_built_with() {
    let mut state = RecordingState::new();
    let mut recorder = BackgroundRecorder::new();
    start_recording(&mut state, &mut recorder).unwrap();
    let device = DeviceDefault { channels: 2, sample_rate: 48000, format: NativeFormat::I16 };
    let stage = run_clean_start(&mut state, &mut recorder, device);
    assert_eq!(state.session, StreamParams { channels: 2, sample_rate: 48000 });
    assert_eq!(state.channels, 0);
    assert_eq!(state.sample_rate, 0);
    state.accept_i16(&[1, -1, 2, -2]);
    let params = run_stop(&mut state, &mut recorder, stage);
    assert_eq!(params, StreamParams { channels: 2, sample_rate: 48000 });
    assert_eq!(state.container_params(), StreamParams { channels: 2, sample_rate: 48000 });
    let (spec, samples) = decode(state.encode_capture().unwrap());
    assert_eq!(spec.channels, 2);
    assert_eq!(spec.sample_rate, 48000);
    assert_eq!(samples, vec![1, -1, 2, -2]);
}

#[test]
fn the_container_takes_the_preference_the_stream_was_built_with() {
    let mut state = RecordingState::new();
    state.channels = 1;
    state.sample_rate = 16000;
    let mut recorder = BackgroundRecorder::new();
    start_recording(&mut state, &mut recorder).unwrap();
    let device = DeviceDefault { channels: 2, sample_rate: 48000, format: NativeFormat::F32 };
    let stage = run_clean_start(&mut state, &mut recorder, device);
    let params = run_stop(&mut state, &mut recorder, stage);
    assert_eq!(params, StreamParams { channels: 1, sample_rate: 16000 });
}

#[test]
fn a_new_session_forgets_the_parameters_of_the_one_before() {
    let mut state = RecordingState::new();
    let mut recorder = BackgroundRecorder::new();
    start_recording(&mut state, &mut recorder).unwrap();
    let device = DeviceDefault { channels: 2, sample_rate: 48000, format: NativeFormat::I16 };
    let stage = run_clean_start(&mut state, &mut recorder, device);
    run_stop(&mut state, &mut recorder, stage);
    start_recording(&mut state, &mut recorder).unwrap();
    assert_eq!(state.session, StreamParams { channels: 0, sample_rate: 0 });
    let stage = run_clean_start(&mut state, &mut recorder, mono_44100(NativeFormat::I16));
    let params = run_stop(&mut state, &mut recorder, stage);
    assert_eq!(params, StreamParams { channels: 1, sample_rate: 44100 });
}

#[test]
fn without_a_stream_the_container_takes_the_stored_values() {
    let mut state = RecordingState::new();
    assert_eq!(state.container_params(), StreamParams { channels: 1, sample_rate: 44100 });
    state.channels = 2;
    assert_eq!(state.container_params(), StreamParams { channels: 2, sample_rate: 44100 });
    state.sample_rate = 8000;
    assert_eq!(state.container_params(), StreamParams { channels: 2, sample_rate: 8000 });
    state.session = StreamParams { channels: 1, sample_rate: 22050 };
    assert_eq!(state.container_params(), StreamParams { channels: 1, sample_rate: 22050 });
}

#[test]
fn lifecycle_messages_are_short_and_fixed() {
    assert_eq!(RecorderError::AlreadyRecording.message(), "Already recording");
    assert_eq!(RecorderError::NotRecording.message(), "Not recording");
    assert_eq!(RecorderError::JoinFailed.message(), "Failed to join recording thread");
}

#[test]
fn the_answer_of_a_saved_recording_carries_the_path() {
    let response = AudioRecordingResponse::saved("/data/recording_1.wav".to_string());
    assert!(response.success);
    assert_eq!(response.path, Some("/data/recording_1.wav".to_string()));
    assert!(response.error.is_none());
}

fn decode(bytes: Vec<u8>) -> (hound::WavSpec, Vec<i16>) {
    let mut reader = hound::WavReader::new(std::io::Cursor::new(bytes)).unwrap();
    let spec = reader.spec();
    let samples: Vec<i16> = reader.samples::<i16>().map(|s| s.unwrap()).collect();
    (spec, samples)
}

#[test]
fn two_seconds_of_injected_mono_silence_come_out_as_they_went_in() {
    let mut state = RecordingState::new();
    let mut recorder = BackgroundRecorder::new();
    start_recording(&mut state, &mut recorder).unwrap();
    let stage = run_clean_start(&mut state, &mut recorder, mono_44100(NativeFormat::I16));
    let chunk = vec![0i16; 4410];
    for _ in 0..20 {
        state.accept_i16(&chunk);
    }
    let params = run_stop(&mut state, &mut recorder, stage);
    assert_eq!(params, StreamParams { channels: 1, sample_rate: 44100 });
    assert!(can_encode(&state.audio_data, params.channels, params.sample_rate));
    let (spec, samples) = decode(state.encode_capture().unwrap());
    assert_eq!(spec.channels, 1);
    assert_eq!(spec.sample_rate, 44100);
    assert_eq!(spec.bits_per_sample, 16);
    assert_eq!(samples.len(), 88200);
    assert!(samples.iter().all(|s| *s == 0));
}

#[test]
fn a_session_without_injected_samples_gives_one_second_of_silence() {
    let mut state = RecordingState::new();
    let mut recorder = BackgroundRecorder::new();
    start_recording(&mut state, &mut recorder).unwrap();
    let stage = run_clean_start(&mut state, &mut recorder, mono_44100(NativeFormat::I16));
    let params = run_stop(&mut state, &mut recorder, stage);
    assert!(state.audio_data.is_empty());
    assert!(can_encode(&state.audio_data, params.channels, params.sample_rate));
    let (spec, samples) = decode(state.encode_capture().unwrap());
    assert_eq!(spec.channels, 1);
    assert_eq!(spec.sample_rate, 44100);
    assert_eq!(samples, vec![0i16; 44100]);
}

#[test]
fn encoding_reads_the_buffer_and_leaves_it() {
    let mut state = RecordingState::new();
    state.channels = 2;
    state.sample_rate = 48000;
    state.audio_data.extend_from_slice(&[1, -1, 2, -2]);
    let (spec, samples) = decode(state.encode_capture().unwrap());
    assert_eq!(spec.channels, 2);
    assert_eq!(spec.sample_rate, 48000);
    assert_eq!(samples, vec![1, -1, 2, -2]);
    assert_eq!(state.audio_data, vec![1, -1, 2, -2]);
}
