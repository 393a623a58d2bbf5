//! The recording session: the shared capture state, the recorder that owns
//! the capture thread's lifecycle, and the commands that start and stop a
//! session.
//!
//! The host owns the thread itself. A command that needs the thread joined
//! comes in two halves, one before the join and one after it.

use vstd::prelude::*;
use vstd::string::*;
use crate::config::{effective, resolve_effective_config, StreamParams};
use crate::float_bits::{extend_with_float_bits, float_chunk};
use crate::sample::{extend_with_i16, extend_with_u16, offset_chunk};
use crate::wav::{answers_for, encodable, encode, payload, WavFailure};

verus! {

/// The state that command handlers, the capture thread and the driver's
/// callback share.
#[derive(Debug)]
pub struct RecordingState {
    /// True strictly between a successful stream start and the
    /// acknowledgement of a stop request.
    pub is_recording: bool,
    /// The captured samples, interleaved by channel.
    pub audio_data: Vec<i16>,
    /// The stored channel count; 0 means unset.
    pub channels: u16,
    /// The stored sample rate; 0 means unset.
    pub sample_rate: u32,
    /// Whether the host holds a live input stream for this state.
    pub stream_held: bool,
    /// The channel count and sample rate that the stream of the current or
    /// most recent session was built with; zeros while the session has
    /// built none.
    pub session: StreamParams,
}

/// The mathematical content of a `RecordingState`.
pub struct RecordingModel {
    pub is_recording: bool,
    pub audio: Seq<i16>,
    pub channels: u16,
    pub sample_rate: u32,
    pub stream_held: bool,
    pub session: StreamParams,
}

/// The parameters of a session that has built no stream.
pub open spec fn no_stream() -> StreamParams {
    StreamParams { channels: 0, sample_rate: 0 }
}

impl View for RecordingState {
    type V = RecordingModel;

    open spec fn view(&self) -> RecordingModel {
        RecordingModel {
            is_recording: self.is_recording,
            audio: self.audio_data@,
            channels: self.channels,
            sample_rate: self.sample_rate,
            stream_held: self.stream_held,
            session: self.session,
        }
    }
}

/// The owner of the capture thread: whether a thread is attached, and the
/// flag that asks it to stop.
#[derive(Clone, Copy, Debug, PartialEq, Eq, Structural)]
pub struct BackgroundRecorder {
    /// Whether a capture thread exists that has neither been joined nor
    /// left of its own accord.
    pub thread_attached: bool,
    /// Set to ask the capture thread to leave its poll loop.
    pub stop_flag: bool,
}

/// Misuse of the recording lifecycle.
#[derive(Clone, Copy, Debug, PartialEq, Eq, Structural)]
pub enum RecorderError {
    /// A session is starting, active or stopping.
    AlreadyRecording,
    /// There is no session to stop.
    NotRecording,
    /// The capture thread could not be joined.
    JoinFailed,
}

/// Where a recording session stands.
#[derive(Clone, Copy, Debug, PartialEq, Eq, Structural)]
pub enum Phase {
    Idle,
    Starting,
    Active,
    Stopping,
}

/// The phase that the recorder and the shared state are in together.
pub open spec fn phase_of(recorder: BackgroundRecorder, state: RecordingModel) -> Phase {
    if !recorder.thread_attached {
        Phase::Idle
    } else if recorder.stop_flag {
        Phase::Stopping
    } else if state.is_recording {
        Phase::Active
    } else {
        Phase::Starting
    }
}

/// The recorder, the shared state and the answer after a call.
pub struct Transition {
    pub recorder: BackgroundRecorder,
    pub state: RecordingModel,
    pub answer: Result<(), RecorderError>,
}

/// `BackgroundRecorder::start` as a function: refused while a thread is
/// attached, and then nothing changes; otherwise the flags are reset, the
/// buffer is emptied, the parameters of the session before are forgotten
/// and a thread is attached.
pub open spec fn recorder_started(recorder: BackgroundRecorder, state: RecordingModel) -> Transition {
    if recorder.thread_attached {
        Transition { recorder, state, answer: Err(RecorderError::AlreadyRecording) }
    } else {
        Transition {
            recorder: BackgroundRecorder { thread_attached: true, stop_flag: false },
            state: RecordingModel {
                is_recording: false,
                audio: Seq::empty(),
                session: no_stream(),
                ..state
            },
            answer: Ok(()),
        }
    }
}

/// `BackgroundRecorder::stop` as a function: the stop flag is raised in any
/// case; without a thread there is nothing to stop.
pub open spec fn recorder_stop_requested(recorder: BackgroundRecorder) -> (
    BackgroundRecorder,
    Result<(), RecorderError>,
) {
    (
        BackgroundRecorder { stop_flag: true, ..recorder },
        if recorder.thread_attached {
            Ok(())
        } else {
            Err(RecorderError::NotRecording)
        },
    )
}

/// `start_recording` as a function: refused while the state records or a
/// thread is attached, and then nothing changes; otherwise a session
/// begins with an empty buffer.
pub open spec fn start_commanded(recorder: BackgroundRecorder, state: RecordingModel) -> Transition {
    if state.is_recording {
        Transition { recorder, state, answer: Err(RecorderError::AlreadyRecording) }
    } else {
        recorder_started(recorder, state)
    }
}

/// The first half of `stop_recording` as a function: refused unless the
/// state records; otherwise the recorder is asked to stop.
pub open spec fn stop_commanded(recorder: BackgroundRecorder, state: RecordingModel) -> Transition {
    if !state.is_recording {
        Transition { recorder, state, answer: Err(RecorderError::NotRecording) }
    } else {
        Transition {
            recorder: recorder_stop_requested(recorder).0,
            state,
            answer: recorder_stop_requested(recorder).1,
        }
    }
}

/// The driver delivered a chunk: it is kept only while the state records.
pub open spec fn chunk_accepted(state: RecordingModel, chunk: Seq<i16>) -> RecordingModel {
    if state.is_recording {
        RecordingModel { audio: state.audio + chunk, ..state }
    } else {
        state
    }
}

/// The channel count and sample rate written into the container: the
/// values that the session's stream was built with. Only where the session
/// has built no stream do the stored values stand in, with mono and
/// 44100 Hz in place of unset ones.
pub open spec fn container_params(state: RecordingModel) -> StreamParams {
    effective(
        state.session,
        effective(
            StreamParams { channels: state.channels, sample_rate: state.sample_rate },
            StreamParams { channels: 1, sample_rate: 44100 },
        ),
    )
}

impl RecordingState {
    /// A state that has never recorded and has no stored preference.
    pub fn new() -> (state: RecordingState)
        ensures
            state@ == (RecordingModel {
                is_recording: false,
                audio: Seq::empty(),
                channels: 0,
                sample_rate: 0,
                stream_held: false,
                session: no_stream(),
            }),
    {
        RecordingState {
            is_recording: false,
            audio_data: Vec::new(),
            channels: 0,
            sample_rate: 0,
            stream_held: false,
            session: StreamParams { channels: 0, sample_rate: 0 },
        }
    }

    /// Whether a session is recording right now.
    pub fn is_recording(&self) -> (answer: bool)
        ensures
            answer == self@.is_recording,
    {
        self.is_recording
    }

    /// The driver's callback for signed 16-bit input: the chunk is appended
    /// while the state records, and dropped otherwise.
    pub fn accept_i16(&mut self, data: &[i16])
        ensures
            final(self)@ == chunk_accepted(old(self)@, data@),
    {
        if self.is_recording {
            extend_with_i16(&mut self.audio_data, data);
        }
    }

    /// The driver's callback for unsigned 16-bit input: the chunk is
    /// converted and appended while the state records, and dropped
    /// otherwise.
    pub fn accept_u16(&mut self, data: &[u16])
        ensures
            final(self)@ == chunk_accepted(old(self)@, offset_chunk(data@)),
    {
        if self.is_recording {
            extend_with_u16(&mut self.audio_data, data);
        }
    }

    /// The driver's callback for single-precision input, each sample given
    /// by its bit pattern: the chunk is converted and appended while the
    /// state records, and dropped otherwise.
    pub fn accept_float_bits(&mut self, data: &[u32])
        ensures
            final(self)@ == chunk_accepted(old(self)@, float_chunk(data@)),
    {
        if self.is_recording {
            extend_with_float_bits(&mut self.audio_data, data);
        }
    }

    /// The channel count and sample rate to write into the container.
    pub fn container_params(&self) -> (params: StreamParams)
        ensures
            params == container_params(self@),
            params.channels != 0,
            params.sample_rate != 0,
    {
        let stored = resolve_effective_config(
            StreamParams { channels: self.channels, sample_rate: self.sample_rate },
            StreamParams { channels: 1, sample_rate: 44100 },
        );
        resolve_effective_config(self.session, stored)
    }

    /// Encodes what was captured as a WAV container: the buffer, or one
    /// second of silence where it is empty, under the channel count and
    /// sample rate that the session's stream was built with. It succeeds
    /// exactly where these samples fill every channel alike, and the bytes
    /// are then what the writer makes of them. The buffer is read, not
    /// cleared.
    pub fn encode_capture(&self) -> (r: Result<Vec<u8>, WavFailure>)
        requires
            encodable(
                self@.audio,
                container_params(self@).channels,
                container_params(self@).sample_rate,
            ),
        ensures
            answers_for(
                r,
                container_params(self@).channels,
                container_params(self@).sample_rate,
                payload(
                    self@.audio,
                    container_params(self@).channels,
                    container_params(self@).sample_rate,
                ),
            ),
            r is Ok <==> payload(
                self@.audio,
                container_params(self@).channels,
                container_params(self@).sample_rate,
            ).len() % (container_params(self@).channels as nat) == 0,
            self@.audio.len() == 0 ==> r is Ok,
    {
        let params = self.container_params();
        encode(self.audio_data.as_slice(), params.channels, params.sample_rate)
    }
}

impl BackgroundRecorder {
    /// A recorder with no thread and the stop flag down.
    pub fn new() -> (recorder: BackgroundRecorder)
        ensures
            recorder == (BackgroundRecorder { thread_attached: false, stop_flag: false }),
    {
        BackgroundRecorder { thread_attached: false, stop_flag: false }
    }

    /// Begins a session: on `Ok` the host spawns the capture thread.
    /// Refused with `AlreadyRecording` while a thread is attached, and then
    /// nothing changes.
    pub fn start(&mut self, state: &mut RecordingState) -> (r: Result<(), RecorderError>)
        ensures
            *final(self) == recorder_started(*old(self), old(state)@).recorder,
            final(state)@ == recorder_started(*old(self), old(state)@).state,
            r == recorder_started(*old(self), old(state)@).answer,
            r is Ok <==> !old(self).thread_attached,
    {
        if self.thread_attached {
            return Err(RecorderError::AlreadyRecording);
        }
        state.is_recording = false;
        state.audio_data.clear();
        state.session = StreamParams { channels: 0, sample_rate: 0 };
        self.stop_flag = false;
        self.thread_attached = true;
        Ok(())
    }

    /// Asks the capture thread to stop: on `Ok` the host joins the thread
    /// and reports with `finish_stop`. Without a thread the answer is
    /// `NotRecording`.
    pub fn stop(&mut self) -> (r: Result<(), RecorderError>)
        ensures
            *final(self) == recorder_stop_requested(*old(self)).0,
            r == recorder_stop_requested(*old(self)).1,
            r is Ok <==> old(self).thread_attached,
    {
        self.stop_flag = true;
        if self.thread_attached {
            Ok(())
        } else {
            Err(RecorderError::NotRecording)
        }
    }

    /// The join has ended: the thread is detached whatever the outcome, and
    /// a failed join is reported.
    pub fn finish_stop(&mut self, joined: bool) -> (r: Result<(), RecorderError>)
        ensures
            *final(self) == (BackgroundRecorder { thread_attached: false, ..*old(self) }),
            r == (if joined {
                Ok::<(), RecorderError>(())
            } else {
                Err::<(), RecorderError>(RecorderError::JoinFailed)
            }),
    {
        self.thread_attached = false;
        if joined {
            Ok(())
        } else {
            Err(RecorderError::JoinFailed)
        }
    }

    /// Whether the capture thread has been asked to stop.
    pub fn stop_requested(&self) -> (answer: bool)
        ensures
            answer == self.stop_flag,
    {
        self.stop_flag
    }
}

/// The phase of the session.
pub fn phase(recorder: &BackgroundRecorder, state: &RecordingState) -> (p: Phase)
    ensures
        p == phase_of(*recorder, state@),
{
    if !recorder.thread_attached {
        Phase::Idle
    } else if recorder.stop_flag {
        Phase::Stopping
    } else if state.is_recording {
        Phase::Active
    } else {
        Phase::Starting
    }
}

/// The command that starts a session. On `Ok` the host spawns the capture
/// thread, which reports through `capture_step`. A start that is refused
/// changes nothing: the samples of a session that is active or stopping
/// stay in the buffer.
pub fn start_recording(state: &mut RecordingState, recorder: &mut BackgroundRecorder) -> (r: Result<
    (),
    RecorderError,
>)
    ensures
        *final(recorder) == start_commanded(*old(recorder), old(state)@).recorder,
        final(state)@ == start_commanded(*old(recorder), old(state)@).state,
        r == start_commanded(*old(recorder), old(state)@).answer,
        r is Ok <==> !old(state)@.is_recording && !old(recorder).thread_attached,
        r is Err ==> r == Err::<(), RecorderError>(RecorderError::AlreadyRecording),
        r is Err ==> final(state)@ == old(state)@ && *final(recorder) == *old(recorder),
        r is Ok ==> final(state)@.audio == Seq::<i16>::empty(),
{
    if state.is_recording {
        return Err(RecorderError::AlreadyRecording);
    }
    recorder.start(state)
}

/// The first half of the command that stops a session. On `Ok` the host
/// joins the capture thread and goes on with `finish_stop_recording`.
pub fn begin_stop_recording(state: &RecordingState, recorder: &mut BackgroundRecorder) -> (r:
    Result<(), RecorderError>)
    ensures
        *final(recorder) == stop_commanded(*old(recorder), state@).recorder,
        r == stop_commanded(*old(recorder), state@).answer,
        r is Ok <==> state@.is_recording && old(recorder).thread_attached,
        r is Err ==> r == Err::<(), RecorderError>(RecorderError::NotRecording),
{
    if !state.is_recording {
        return Err(RecorderError::NotRecording);
    }
    recorder.stop()
}

/// The end of a stop, after the join, in the shared state: the thread is
/// gone, and with it the stream, so the state neither records nor holds a
/// stream, whether the join succeeded or the thread had panicked.
pub open spec fn thread_gone(state: RecordingModel) -> RecordingModel {
    RecordingModel { is_recording: false, stream_held: false, ..state }
}

/// The end of a stop, after the join: the thread is detached and the state
/// no longer records.
pub open spec fn stop_finished(recorder: BackgroundRecorder, state: RecordingModel) -> Transition {
    Transition {
        recorder: BackgroundRecorder { thread_attached: false, ..recorder },
        state: thread_gone(state),
        answer: Ok(()),
    }
}

/// The second half of the command that stops a session, after the join.
/// The thread is gone either way: the recorder is detached, and the state
/// neither records nor holds a stream. After a join the answer is the
/// configuration that the session's stream was built with, to write the
/// container with; a failed join is reported.
pub fn finish_stop_recording(
    state: &mut RecordingState,
    recorder: &mut BackgroundRecorder,
    joined: bool,
) -> (r: Result<StreamParams, RecorderError>)
    ensures
        *final(recorder) == (BackgroundRecorder { thread_attached: false, ..*old(recorder) }),
        final(state)@ == thread_gone(old(state)@),
        joined ==> r == Ok::<StreamParams, RecorderError>(container_params(old(state)@)),
        !joined ==> r == Err::<StreamParams, RecorderError>(RecorderError::JoinFailed),
{
    state.is_recording = false;
    state.stream_held = false;
    match recorder.finish_stop(joined) {
        Err(error) => Err(error),
        Ok(()) => Ok(state.container_params()),
    }
}

/// Stopping when nothing records fails with `NotRecording` and changes
/// nothing, however often it is tried.
pub proof fn lemma_stop_when_idle_changes_nothing(
    recorder: BackgroundRecorder,
    state: RecordingModel,
)
    requires
        !state.is_recording,
    ensures
        stop_commanded(recorder, state).answer == Err::<(), RecorderError>(
            RecorderError::NotRecording,
        ),
        stop_commanded(recorder, state).recorder == recorder,
        stop_commanded(recorder, state).state == state,
        stop_commanded(
            stop_commanded(recorder, state).recorder,
            stop_commanded(recorder, state).state,
        ) == stop_commanded(recorder, state),
{
}

/// A recorder without a thread answers every stop with `NotRecording`, and
/// a second stop leaves it as the first did.
pub proof fn lemma_recorder_stop_without_thread(recorder: BackgroundRecorder)
    requires
        !recorder.thread_attached,
    ensures
        recorder_stop_requested(recorder).1 == Err::<(), RecorderError>(
            RecorderError::NotRecording,
        ),
        !recorder_stop_requested(recorder).0.thread_attached,
        recorder_stop_requested(recorder_stop_requested(recorder).0) == recorder_stop_requested(
            recorder,
        ),
{
}

/// Of two starts with no stop between them, exactly one succeeds: the first
/// succeeds on an idle session, and from then on every start is refused with
/// `AlreadyRecording`, whatever the capture thread and the driver have done
/// to the shared state in the meantime.
pub proof fn lemma_one_start_wins(
    recorder: BackgroundRecorder,
    state: RecordingModel,
    later: RecordingModel,
)
    requires
        phase_of(recorder, state) == Phase::Idle,
        !state.is_recording,
    ensures
        start_commanded(recorder, state).answer is Ok,
        start_commanded(start_commanded(recorder, state).recorder, later).answer == Err::<
            (),
            RecorderError,
        >(RecorderError::AlreadyRecording),
        start_commanded(start_commanded(recorder, state).recorder, later).recorder
            == start_commanded(recorder, state).recorder,
{
}

/// A start is accepted in the idle phase only: while a session is starting,
/// active or stopping it is refused and changes nothing, neither the
/// recorder nor the state with the samples in its buffer.
pub proof fn lemma_start_needs_idle(recorder: BackgroundRecorder, state: RecordingModel)
    ensures
        start_commanded(recorder, state).answer is Ok ==> phase_of(recorder, state) == Phase::Idle,
        phase_of(recorder, state) != Phase::Idle ==> {
            &&& start_commanded(recorder, state).answer == Err::<(), RecorderError>(
                RecorderError::AlreadyRecording,
            )
            &&& start_commanded(recorder, state).recorder == recorder
            &&& start_commanded(recorder, state).state == state
        },
        start_commanded(recorder, state).answer is Err ==> {
            &&& start_commanded(recorder, state).recorder == recorder
            &&& start_commanded(recorder, state).state == state
        },
        start_commanded(recorder, state).answer is Ok ==> phase_of(
            start_commanded(recorder, state).recorder,
            start_commanded(recorder, state).state,
        ) == Phase::Starting,
{
}

/// The phases follow one another in a fixed order: a stop request moves a
/// starting or active session to stopping, and the end of the join moves it
/// to idle.
pub proof fn lemma_stop_walks_to_idle(recorder: BackgroundRecorder, state: RecordingModel)
    requires
        recorder.thread_attached,
    ensures
        recorder_stop_requested(recorder).1 is Ok,
        phase_of(recorder_stop_requested(recorder).0, state) == Phase::Stopping,
        phase_of(
            stop_finished(recorder_stop_requested(recorder).0, state).recorder,
            stop_finished(recorder_stop_requested(recorder).0, state).state,
        ) == Phase::Idle,
{
}

/// Once the join has ended the session is idle, whether the thread left in
/// order or had panicked: a stop then finds nothing to stop, a start is
/// accepted, and the samples that were captured are still in the buffer.
pub proof fn lemma_join_leaves_the_session_idle(recorder: BackgroundRecorder, state: RecordingModel)
    ensures
        phase_of(stop_finished(recorder, state).recorder, stop_finished(recorder, state).state)
            == Phase::Idle,
        stop_commanded(
            stop_finished(recorder, state).recorder,
            stop_finished(recorder, state).state,
        ).answer == Err::<(), RecorderError>(RecorderError::NotRecording),
        start_commanded(
            stop_finished(recorder, state).recorder,
            stop_finished(recorder, state).state,
        ).answer is Ok,
        stop_finished(recorder, state).state.audio == state.audio,
        container_params(stop_finished(recorder, state).state) == container_params(state),
{
}

/// After a start, a stop and a second start, the buffer holds none of the
/// first session's samples: the second session begins empty, and what the
/// driver then delivers is all that it holds.
pub proof fn lemma_restart_begins_empty(
    recorder: BackgroundRecorder,
    state: RecordingModel,
    first: Seq<i16>,
    second: Seq<i16>,
)
    requires
        phase_of(recorder, state) == Phase::Idle,
        !state.is_recording,
    ensures
        ({
            let started = start_commanded(recorder, state);
            let recording = RecordingModel { is_recording: true, ..started.state };
            let captured = chunk_accepted(recording, first);
            let asked = stop_commanded(started.recorder, captured);
            let stopped = stop_finished(asked.recorder, asked.state);
            let again = start_commanded(stopped.recorder, stopped.state);
            let resumed = RecordingModel { is_recording: true, ..again.state };
            &&& started.answer is Ok
            &&& captured.audio == first
            &&& asked.answer is Ok
            &&& again.answer is Ok
            &&& again.state.audio == Seq::<i16>::empty()
            &&& chunk_accepted(resumed, second).audio == second
        }),
{
    let started = start_commanded(recorder, state);
    let recording = RecordingModel { is_recording: true, ..started.state };
    let captured = chunk_accepted(recording, first);
    assert(captured.audio =~= first);
    let asked = stop_commanded(started.recorder, captured);
    let stopped = stop_finished(asked.recorder, asked.state);
    let again = start_commanded(stopped.recorder, stopped.state);
    let resumed = RecordingModel { is_recording: true, ..again.state };
    assert(chunk_accepted(resumed, second).audio =~= second);
}

/// A successful start empties the buffer, whatever it held.
pub proof fn lemma_start_empties_buffer(recorder: BackgroundRecorder, state: RecordingModel)
    ensures
        start_commanded(recorder, state).answer is Ok ==> start_commanded(
            recorder,
            state,
        ).state.audio == Seq::<i16>::empty(),
{
}

/// The buffer changes only while the state records: a chunk that arrives at
/// any other time is dropped, and one that arrives while recording is
/// appended whole and in order.
pub proof fn lemma_chunks_are_kept_only_while_recording(state: RecordingModel, chunk: Seq<i16>)
    ensures
        !state.is_recording ==> chunk_accepted(state, chunk) == state,
        state.is_recording ==> chunk_accepted(state, chunk).audio.len() == state.audio.len()
            + chunk.len(),
        state.is_recording ==> chunk_accepted(state, chunk).audio.subrange(
            0,
            state.audio.len() as int,
        ) == state.audio,
        state.is_recording ==> chunk_accepted(state, chunk).audio.subrange(
            state.audio.len() as int,
            (state.audio.len() + chunk.len()) as int,
        ) == chunk,
{
    if state.is_recording {
        let after = chunk_accepted(state, chunk).audio;
        assert(after.subrange(0, state.audio.len() as int) =~= state.audio);
        assert(after.subrange(state.audio.len() as int, (state.audio.len() + chunk.len()) as int)
            =~= chunk);
    }
}

/// The answer of the command that stops a session.
#[derive(Debug)]
pub struct AudioRecordingResponse {
    pub success: bool,
    /// Where the WAV file was written.
    pub path: Option<String>,
    pub error: Option<String>,
}

/// The message of a lifecycle error.
pub open spec fn recorder_message(error: RecorderError) -> Seq<char> {
    match error {
        RecorderError::AlreadyRecording => "Already recording"@,
        RecorderError::NotRecording => "Not recording"@,
        RecorderError::JoinFailed => "Failed to join recording thread"@,
    }
}

impl RecorderError {
    /// The message shown to the caller of a command.
    pub fn message(&self) -> (text: String)
        ensures
            text@ == recorder_message(*self),
    {
        match self {
            RecorderError::AlreadyRecording => String::from_str("Already recording"),
            RecorderError::NotRecording => String::from_str("Not recording"),
            RecorderError::JoinFailed => String::from_str("Failed to join recording thread"),
        }
    }
}

impl AudioRecordingResponse {
    /// The answer for a recording that was written to `path`.
    pub fn saved(path: String) -> (response: AudioRecordingResponse)
        ensures
            response.success,
            response.path == Some(path),
            response.error is None,
    {
        AudioRecordingResponse { success: true, path: Some(path), error: None }
    }
}

impl Default for BackgroundRecorder {
    fn default() -> (recorder: BackgroundRecorder)
        ensures
            recorder == (BackgroundRecorder { thread_attached: false, stop_flag: false }),
    {
        BackgroundRecorder::new()
    }
}

impl Default for RecordingState {
    fn default() -> (state: RecordingState)
        ensures
            state@ == (RecordingModel {
                is_recording: false,
                audio: Seq::empty(),
                channels: 0,
                sample_rate: 0,
                stream_held: false,
                session: no_stream(),
            }),
    {
        RecordingState::new()
    }
}

} // verus!
