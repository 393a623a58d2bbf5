//! The decisions of the capture thread, one step at a time.
//!
//! The thread itself belongs to the host: it resolves the device, builds and
//! starts the stream, and sleeps. After each of these it reports an event
//! here and receives the next action. The stop flag is read here, from the
//! recorder, each time the thread wakes.

use vstd::prelude::*;
use crate::config::{effective, resolve_effective_config, StreamParams};
use crate::recorder::{
    container_params, no_stream, phase_of, start_commanded, stop_commanded, BackgroundRecorder,
    Phase, RecorderError, RecordingModel, RecordingState,
};
use crate::sample::{conversion_of, select_conversion, Conversion, NativeFormat};

verus! {

/// Milliseconds between two looks at the stop flag.
pub const POLL_INTERVAL_MS: u64 = 100;

/// What a device reports as its own default input configuration.
#[derive(Clone, Copy, Debug, PartialEq, Eq, Structural)]
pub struct DeviceDefault {
    pub channels: u16,
    pub sample_rate: u32,
    pub format: NativeFormat,
}

/// How far the capture thread has come.
#[derive(Clone, Copy, Debug, PartialEq, Eq, Structural)]
pub enum CaptureStage {
    /// The thread exists and has done nothing yet.
    Launched,
    /// Waiting for the default input device.
    AwaitingDevice,
    /// Waiting for the device's default configuration.
    AwaitingConfig,
    /// Waiting for the input stream to be built.
    AwaitingStream,
    /// Waiting for the stream to start.
    AwaitingStart,
    /// The stream delivers samples; the thread sleeps between two looks at
    /// the stop flag.
    Recording,
    /// The thread has left.
    Finished,
}

/// What the host reports to the capture thread's logic.
#[derive(Clone, Copy, Debug, PartialEq, Eq, Structural)]
pub enum CaptureEvent {
    /// The thread's body begins.
    Begun,
    /// The default input device was looked up.
    DeviceResolved { found: bool },
    /// The device's default configuration was queried; `None` where the
    /// query failed.
    ConfigResolved { device_default: Option<DeviceDefault> },
    /// The input stream was built, or the driver refused it.
    StreamBuilt { ok: bool },
    /// The stream was started, or failed to.
    StreamStarted { ok: bool },
    /// A sleep has ended.
    Slept,
}

/// Why the capture thread left.
#[derive(Clone, Copy, Debug, PartialEq, Eq, Structural)]
pub enum CaptureExit {
    /// The host has no default input device.
    NoInputDevice,
    /// The device did not report a default configuration.
    ConfigUnavailable,
    /// The device's native encoding has no conversion.
    UnsupportedFormat,
    /// The driver refused the requested configuration.
    StreamBuildFailure,
    /// The stream was built and did not start.
    StreamStartFailure,
    /// A stop was requested.
    Stopped,
    /// An event arrived that the stage does not expect.
    OutOfTurn,
}

/// What the host does next.
#[derive(Clone, Copy, Debug, PartialEq, Eq, Structural)]
pub enum CaptureAction {
    /// Look up the default input device.
    ResolveDevice,
    /// Query the device's default input configuration.
    QueryDefaultConfig,
    /// Build the input stream with this configuration and conversion, and
    /// keep it alive.
    BuildStream { params: StreamParams, conversion: Conversion },
    /// Start the stream that was built.
    StartStream,
    /// Sleep for this many milliseconds.
    Sleep { millis: u64 },
    /// Drop the stream, if one is held, and leave the thread.
    Exit { reason: CaptureExit },
    /// The thread has left already: nothing to do.
    Nothing,
}

/// The shared state, the recorder, the stage and the action after a step.
pub struct CaptureOutcome {
    pub state: RecordingModel,
    pub recorder: BackgroundRecorder,
    pub stage: CaptureStage,
    pub action: CaptureAction,
}

/// The thread leaves: the state no longer records and holds no stream. A
/// thread that leaves because a stop was requested stays attached until it
/// is joined; one that leaves for any other reason detaches itself, so that
/// the session is idle again.
pub open spec fn left(state: RecordingModel, recorder: BackgroundRecorder, reason: CaptureExit) -> CaptureOutcome {
    CaptureOutcome {
        state: RecordingModel { is_recording: false, stream_held: false, ..state },
        recorder: if reason == CaptureExit::Stopped {
            recorder
        } else {
            BackgroundRecorder { thread_attached: false, ..recorder }
        },
        stage: CaptureStage::Finished,
        action: CaptureAction::Exit { reason },
    }
}

/// The thread looks at the stop flag: it leaves where the flag is raised,
/// and sleeps one interval where it is not.
pub open spec fn watched(state: RecordingModel, recorder: BackgroundRecorder) -> CaptureOutcome {
    if recorder.stop_flag {
        left(state, recorder, CaptureExit::Stopped)
    } else {
        CaptureOutcome {
            state,
            recorder,
            stage: CaptureStage::Recording,
            action: CaptureAction::Sleep { millis: POLL_INTERVAL_MS },
        }
    }
}

/// The channel count and sample rate of the stream to build for a device:
/// the stored preference resolved against the device's default.
pub open spec fn planned_params(state: RecordingModel, device_default: DeviceDefault) -> StreamParams {
    effective(
        StreamParams { channels: state.channels, sample_rate: state.sample_rate },
        StreamParams {
            channels: device_default.channels,
            sample_rate: device_default.sample_rate,
        },
    )
}

/// The stream to build for a device: the stored preference resolved against
/// the device's default, with the conversion for its native encoding.
pub open spec fn stream_plan(state: RecordingModel, device_default: DeviceDefault) -> Option<
    CaptureAction,
> {
    match conversion_of(device_default.format) {
        Some(conversion) => Some(
            CaptureAction::BuildStream { params: planned_params(state, device_default), conversion },
        ),
        None => None,
    }
}

/// One step of the capture thread.
pub open spec fn capture_next(
    state: RecordingModel,
    recorder: BackgroundRecorder,
    stage: CaptureStage,
    event: CaptureEvent,
) -> CaptureOutcome {
    match (stage, event) {
        (CaptureStage::Finished, _) => CaptureOutcome {
            state,
            recorder,
            stage: CaptureStage::Finished,
            action: CaptureAction::Nothing,
        },
        (CaptureStage::Launched, CaptureEvent::Begun) => CaptureOutcome {
            state: RecordingModel { audio: Seq::empty(), session: no_stream(), ..state },
            recorder,
            stage: CaptureStage::AwaitingDevice,
            action: CaptureAction::ResolveDevice,
        },
        (CaptureStage::AwaitingDevice, CaptureEvent::DeviceResolved { found }) => if found {
            CaptureOutcome {
                state,
                recorder,
                stage: CaptureStage::AwaitingConfig,
                action: CaptureAction::QueryDefaultConfig,
            }
        } else {
            left(state, recorder, CaptureExit::NoInputDevice)
        },
        (CaptureStage::AwaitingConfig, CaptureEvent::ConfigResolved { device_default }) => {
            match device_default {
                None => left(state, recorder, CaptureExit::ConfigUnavailable),
                Some(reported) => match stream_plan(state, reported) {
                    None => left(state, recorder, CaptureExit::UnsupportedFormat),
                    Some(action) => CaptureOutcome {
                        state: RecordingModel { session: planned_params(state, reported), ..state },
                        recorder,
                        stage: CaptureStage::AwaitingStream,
                        action,
                    },
                },
            }
        },
        (CaptureStage::AwaitingStream, CaptureEvent::StreamBuilt { ok }) => if ok {
            CaptureOutcome {
                state: RecordingModel { stream_held: true, ..state },
                recorder,
                stage: CaptureStage::AwaitingStart,
                action: CaptureAction::StartStream,
            }
        } else {
            left(state, recorder, CaptureExit::StreamBuildFailure)
        },
        (CaptureStage::AwaitingStart, CaptureEvent::StreamStarted { ok }) => if ok {
            watched(RecordingModel { is_recording: true, ..state }, recorder)
        } else {
            left(state, recorder, CaptureExit::StreamStartFailure)
        },
        (CaptureStage::Recording, CaptureEvent::Slept) => watched(state, recorder),
        _ => left(state, recorder, CaptureExit::OutOfTurn),
    }
}

/// Ends the thread's run in the shared state and the recorder.
fn leave(state: &mut RecordingState, recorder: &mut BackgroundRecorder, reason: CaptureExit) -> (out:
    (CaptureStage, CaptureAction))
    ensures
        final(state)@ == left(old(state)@, *old(recorder), reason).state,
        *final(recorder) == left(old(state)@, *old(recorder), reason).recorder,
        out.0 == left(old(state)@, *old(recorder), reason).stage,
        out.1 == left(old(state)@, *old(recorder), reason).action,
{
    state.is_recording = false;
    state.stream_held = false;
    match reason {
        CaptureExit::Stopped => {},
        _ => {
            recorder.thread_attached = false;
        },
    }
    (CaptureStage::Finished, CaptureAction::Exit { reason })
}

/// Looks at the stop flag once.
fn watch(state: &mut RecordingState, recorder: &mut BackgroundRecorder) -> (out: (
    CaptureStage,
    CaptureAction,
))
    ensures
        final(state)@ == watched(old(state)@, *old(recorder)).state,
        *final(recorder) == watched(old(state)@, *old(recorder)).recorder,
        out.0 == watched(old(state)@, *old(recorder)).stage,
        out.1 == watched(old(state)@, *old(recorder)).action,
{
    if recorder.stop_flag {
        leave(state, recorder, CaptureExit::Stopped)
    } else {
        (CaptureStage::Recording, CaptureAction::Sleep { millis: POLL_INTERVAL_MS })
    }
}

/// Plans the stream for a device: the effective configuration, and the
/// conversion for the device's native encoding. `None` where the encoding
/// has no conversion.
pub fn plan_stream(state: &RecordingState, device_default: DeviceDefault) -> (plan: Option<
    CaptureAction,
>)
    ensures
        plan == stream_plan(state@, device_default),
{
    match select_conversion(device_default.format) {
        Err(_) => None,
        Ok(conversion) => {
            let params = resolve_effective_config(
                StreamParams { channels: state.channels, sample_rate: state.sample_rate },
                StreamParams {
                    channels: device_default.channels,
                    sample_rate: device_default.sample_rate,
                },
            );
            Some(CaptureAction::BuildStream { params, conversion })
        },
    }
}

/// Takes one event of the capture thread and answers with the next stage
/// and the action the host is to carry out. The configuration that the
/// stream is to be built with is kept in the state, for the container that
/// the session's samples are written to. An event that the stage does not
/// expect ends the run.
pub fn capture_step(
    state: &mut RecordingState,
    recorder: &mut BackgroundRecorder,
    stage: CaptureStage,
    event: CaptureEvent,
) -> (out: (CaptureStage, CaptureAction))
    ensures
        final(state)@ == capture_next(old(state)@, *old(recorder), stage, event).state,
        *final(recorder) == capture_next(old(state)@, *old(recorder), stage, event).recorder,
        out.0 == capture_next(old(state)@, *old(recorder), stage, event).stage,
        out.1 == capture_next(old(state)@, *old(recorder), stage, event).action,
{
    match stage {
        CaptureStage::Finished => (CaptureStage::Finished, CaptureAction::Nothing),
        CaptureStage::Launched => match event {
            CaptureEvent::Begun => {
                state.audio_data.clear();
                state.session = StreamParams { channels: 0, sample_rate: 0 };
                (CaptureStage::AwaitingDevice, CaptureAction::ResolveDevice)
            },
            _ => leave(state, recorder, CaptureExit::OutOfTurn),
        },
        CaptureStage::AwaitingDevice => match event {
            CaptureEvent::DeviceResolved { found } => {
                if found {
                    (CaptureStage::AwaitingConfig, CaptureAction::QueryDefaultConfig)
                } else {
                    leave(state, recorder, CaptureExit::NoInputDevice)
                }
            },
            _ => leave(state, recorder, CaptureExit::OutOfTurn),
        },
        CaptureStage::AwaitingConfig => match event {
            CaptureEvent::ConfigResolved { device_default } => match device_default {
                None => leave(state, recorder, CaptureExit::ConfigUnavailable),
                Some(reported) => match plan_stream(state, reported) {
                    None => leave(state, recorder, CaptureExit::UnsupportedFormat),
                    Some(action) => {
                        match action {
                            CaptureAction::BuildStream { params, conversion: _ } => {
                                state.session = params;
                            },
                            _ => {},
                        }
                        (CaptureStage::AwaitingStream, action)
                    },
                },
            },
            _ => leave(state, recorder, CaptureExit::OutOfTurn),
        },
        CaptureStage::AwaitingStream => match event {
            CaptureEvent::StreamBuilt { ok } => {
                if ok {
                    state.stream_held = true;
                    (CaptureStage::AwaitingStart, CaptureAction::StartStream)
                } else {
                    leave(state, recorder, CaptureExit::StreamBuildFailure)
                }
            },
            _ => leave(state, recorder, CaptureExit::OutOfTurn),
        },
        CaptureStage::AwaitingStart => match event {
            CaptureEvent::StreamStarted { ok } => {
                if ok {
                    state.is_recording = true;
                    watch(state, recorder)
                } else {
                    leave(state, recorder, CaptureExit::StreamStartFailure)
                }
            },
            _ => leave(state, recorder, CaptureExit::OutOfTurn),
        },
        CaptureStage::Recording => match event {
            CaptureEvent::Slept => watch(state, recorder),
            _ => leave(state, recorder, CaptureExit::OutOfTurn),
        },
    }
}

/// The stages in which a stream exists.
pub open spec fn stage_holds_stream(stage: CaptureStage) -> bool {
    stage == CaptureStage::AwaitingStart || stage == CaptureStage::Recording
}

/// The shared state agrees with the capture thread's stage: it records only
/// while the thread is in its recording stage, and holds a stream only once
/// one was built.
pub open spec fn in_step(state: RecordingModel, stage: CaptureStage) -> bool {
    &&& state.is_recording ==> stage == CaptureStage::Recording
    &&& state.stream_held ==> stage_holds_stream(stage)
}

/// The state, the recorder and the stage after a sequence of events, from
/// first to last.
pub open spec fn capture_run(
    state: RecordingModel,
    recorder: BackgroundRecorder,
    stage: CaptureStage,
    events: Seq<CaptureEvent>,
) -> CaptureOutcome
    decreases events.len(),
{
    if events.len() == 0 {
        CaptureOutcome { state, recorder, stage, action: CaptureAction::Nothing }
    } else {
        let before = capture_run(state, recorder, stage, events.drop_last());
        capture_next(before.state, before.recorder, before.stage, events.last())
    }
}

/// The events of a start on which nothing fails.
pub open spec fn clean_start(device_default: DeviceDefault) -> Seq<CaptureEvent> {
    seq![
        CaptureEvent::Begun,
        CaptureEvent::DeviceResolved { found: true },
        CaptureEvent::ConfigResolved { device_default: Some(device_default) },
        CaptureEvent::StreamBuilt { ok: true },
        CaptureEvent::StreamStarted { ok: true },
    ]
}

/// A step keeps the shared state and the stage in agreement.
pub proof fn lemma_step_keeps_in_step(
    state: RecordingModel,
    recorder: BackgroundRecorder,
    stage: CaptureStage,
    event: CaptureEvent,
)
    requires
        in_step(state, stage),
    ensures
        in_step(
            capture_next(state, recorder, stage, event).state,
            capture_next(state, recorder, stage, event).stage,
        ),
{
}

/// The state starts to record in one place only: when the stream reports a
/// successful start to a thread that waits for it, and no stop was
/// requested in the meantime.
pub proof fn lemma_recording_begins_at_stream_start(
    state: RecordingModel,
    recorder: BackgroundRecorder,
    stage: CaptureStage,
    event: CaptureEvent,
)
    requires
        !state.is_recording,
        capture_next(state, recorder, stage, event).state.is_recording,
    ensures
        stage == CaptureStage::AwaitingStart,
        event == (CaptureEvent::StreamStarted { ok: true }),
        !recorder.stop_flag,
        capture_next(state, recorder, stage, event).stage == CaptureStage::Recording,
{
}

/// Whenever the thread is told to leave, it has finished, and the state
/// neither records nor holds a stream: a later stop finds nothing to stop.
/// And the thread finishes in no other way.
pub proof fn lemma_exit_leaves_nothing_behind(
    state: RecordingModel,
    recorder: BackgroundRecorder,
    stage: CaptureStage,
    event: CaptureEvent,
)
    ensures
        capture_next(state, recorder, stage, event).action is Exit ==> {
            &&& capture_next(state, recorder, stage, event).stage == CaptureStage::Finished
            &&& !capture_next(state, recorder, stage, event).state.is_recording
            &&& !capture_next(state, recorder, stage, event).state.stream_held
        },
        capture_next(state, recorder, stage, event).stage == CaptureStage::Finished && stage
            != CaptureStage::Finished ==> capture_next(state, recorder, stage, event).action
            is Exit,
{
}

/// A thread that leaves for another reason than a requested stop leaves
/// the session idle: a stop then finds nothing to stop, and a start is
/// accepted again.
pub proof fn lemma_failure_leaves_the_session_idle(
    state: RecordingModel,
    recorder: BackgroundRecorder,
    stage: CaptureStage,
    event: CaptureEvent,
)
    requires
        capture_next(state, recorder, stage, event).action matches CaptureAction::Exit { reason }
            && reason != CaptureExit::Stopped,
    ensures
        phase_of(
            capture_next(state, recorder, stage, event).recorder,
            capture_next(state, recorder, stage, event).state,
        ) == Phase::Idle,
        stop_commanded(
            capture_next(state, recorder, stage, event).recorder,
            capture_next(state, recorder, stage, event).state,
        ).answer == Err::<(), RecorderError>(RecorderError::NotRecording),
        start_commanded(
            capture_next(state, recorder, stage, event).recorder,
            capture_next(state, recorder, stage, event).state,
        ).answer is Ok,
{
}

/// A thread leaves on a requested stop only once its stream has started,
/// and then it stays attached: the session is stopping until the join has
/// ended.
pub proof fn lemma_stop_is_seen_while_recording(
    state: RecordingModel,
    recorder: BackgroundRecorder,
    stage: CaptureStage,
    event: CaptureEvent,
)
    requires
        capture_next(state, recorder, stage, event).action == (CaptureAction::Exit {
            reason: CaptureExit::Stopped,
        }),
    ensures
        recorder.stop_flag,
        stage == CaptureStage::Recording || stage == CaptureStage::AwaitingStart,
        capture_next(state, recorder, stage, event).recorder == recorder,
        recorder.thread_attached ==> phase_of(
            capture_next(state, recorder, stage, event).recorder,
            capture_next(state, recorder, stage, event).state,
        ) == Phase::Stopping,
{
}

/// A thread that has left stays so, and changes nothing again.
pub proof fn lemma_finished_is_final(
    state: RecordingModel,
    recorder: BackgroundRecorder,
    event: CaptureEvent,
)
    ensures
        capture_next(state, recorder, CaptureStage::Finished, event).state == state,
        capture_next(state, recorder, CaptureStage::Finished, event).recorder == recorder,
        capture_next(state, recorder, CaptureStage::Finished, event).stage
            == CaptureStage::Finished,
        capture_next(state, recorder, CaptureStage::Finished, event).action
            == CaptureAction::Nothing,
{
}

/// No step touches the stored preference or the stop flag, and no step
/// adds a sample: the buffer is kept, or emptied when the thread's body
/// begins. Once the stream's configuration is planned, no later step of
/// the run changes it.
pub proof fn lemma_step_keeps_preference_and_adds_nothing(
    state: RecordingModel,
    recorder: BackgroundRecorder,
    stage: CaptureStage,
    event: CaptureEvent,
)
    ensures
        capture_next(state, recorder, stage, event).state.channels == state.channels,
        capture_next(state, recorder, stage, event).state.sample_rate == state.sample_rate,
        capture_next(state, recorder, stage, event).recorder.stop_flag == recorder.stop_flag,
        capture_next(state, recorder, stage, event).state.audio == state.audio || capture_next(
            state,
            recorder,
            stage,
            event,
        ).state.audio == Seq::<i16>::empty(),
        !recorder.thread_attached ==> !capture_next(
            state,
            recorder,
            stage,
            event,
        ).recorder.thread_attached,
        stage != CaptureStage::Launched && stage != CaptureStage::AwaitingConfig ==> capture_next(
            state,
            recorder,
            stage,
            event,
        ).state.session == state.session,
{
}

/// The stream is built with the stored preference where one is set, and
/// with the device's default where none is.
pub proof fn lemma_stream_is_built_with_effective_config(
    state: RecordingModel,
    recorder: BackgroundRecorder,
    device_default: DeviceDefault,
)
    ensures
        match capture_next(
            state,
            recorder,
            CaptureStage::AwaitingConfig,
            CaptureEvent::ConfigResolved { device_default: Some(device_default) },
        ).action {
            CaptureAction::BuildStream { params, conversion } => {
                &&& conversion_of(device_default.format) == Some(conversion)
                &&& params.channels == (if state.channels == 0 {
                    device_default.channels
                } else {
                    state.channels
                })
                &&& params.sample_rate == (if state.sample_rate == 0 {
                    device_default.sample_rate
                } else {
                    state.sample_rate
                })
            },
            CaptureAction::Exit { reason } => {
                &&& reason == CaptureExit::UnsupportedFormat
                &&& conversion_of(device_default.format) is None
            },
            _ => false,
        },
{
}

/// A start on which nothing fails, with a device whose encoding has a
/// conversion and with no stop requested, ends with an empty buffer in a
/// state that records and holds the stream, whatever the buffer held
/// before.
pub proof fn lemma_clean_start_records_into_empty_buffer(
    state: RecordingModel,
    recorder: BackgroundRecorder,
    device_default: DeviceDefault,
)
    requires
        conversion_of(device_default.format) is Some,
        !recorder.stop_flag,
    ensures
        capture_run(state, recorder, CaptureStage::Launched, clean_start(device_default)).stage
            == CaptureStage::Recording,
        capture_run(state, recorder, CaptureStage::Launched, clean_start(device_default)).recorder
            == recorder,
        capture_run(state, recorder, CaptureStage::Launched, clean_start(device_default)).state
            == (RecordingModel {
            is_recording: true,
            stream_held: true,
            audio: Seq::empty(),
            session: planned_params(state, device_default),
            ..state
        }),
{
    let events = clean_start(device_default);
    let e1 = events.drop_last();
    let e2 = e1.drop_last();
    let e3 = e2.drop_last();
    let e4 = e3.drop_last();
    let e5 = e4.drop_last();
    assert(e5.len() == 0);
    reveal_with_fuel(capture_run, 6);
    assert(e4.last() == CaptureEvent::Begun);
    assert(e3.last() == (CaptureEvent::DeviceResolved { found: true }));
    assert(e2.last() == (CaptureEvent::ConfigResolved { device_default: Some(device_default) }));
    assert(e1.last() == (CaptureEvent::StreamBuilt { ok: true }));
    assert(events.last() == (CaptureEvent::StreamStarted { ok: true }));
}

/// The container is labelled with what the samples were captured with:
/// after a start on which nothing fails, and however the session then
/// ends, the container takes the channel count and sample rate that the
/// stream was built with: the stored preference where one is set, and the
/// device's default where none is.
pub proof fn lemma_container_takes_the_streams_config(
    state: RecordingModel,
    recorder: BackgroundRecorder,
    device_default: DeviceDefault,
)
    requires
        conversion_of(device_default.format) is Some,
        !recorder.stop_flag,
        planned_params(state, device_default).channels != 0,
        planned_params(state, device_default).sample_rate != 0,
    ensures
        ({
            let started = capture_run(
                state,
                recorder,
                CaptureStage::Launched,
                clean_start(device_default),
            );
            let stopping = BackgroundRecorder { stop_flag: true, ..started.recorder };
            let ended = capture_next(started.state, stopping, started.stage, CaptureEvent::Slept);
            &&& container_params(started.state) == planned_params(state, device_default)
            &&& ended.action == (CaptureAction::Exit { reason: CaptureExit::Stopped })
            &&& container_params(ended.state) == planned_params(state, device_default)
            &&& state.channels == 0 && state.sample_rate == 0 ==> container_params(ended.state)
                == (StreamParams {
                channels: device_default.channels,
                sample_rate: device_default.sample_rate,
            })
        }),
{
    lemma_clean_start_records_into_empty_buffer(state, recorder, device_default);
}

} // verus!
