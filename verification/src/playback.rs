//! The playback session: the shared playback state, the token of the
//! current session, and the decisions of a playback thread.
//!
//! Stopping is advisory. It updates the bookkeeping and does not end a
//! playback thread that already drains its sink; a session that was stopped
//! or replaced still announces its own completion when its source ends.

use vstd::prelude::*;
use vstd::string::*;
use crate::text::joined;

verus! {

/// The number of characters of a playback token.
pub const TOKEN_LENGTH: usize = 21;

/// The state that command handlers share for playback.
#[derive(Debug)]
pub struct AudioPlaybackState {
    /// Whether a session is registered as playing.
    pub is_playing: bool,
    /// The token of the session registered as current.
    pub current_playback_id: Option<String>,
    /// Whether the host holds the output device handle.
    pub output_ready: bool,
    /// Whether the output device was opened once.
    pub device_initialized: bool,
}

/// The mathematical content of an `AudioPlaybackState`.
pub struct PlaybackModel {
    pub is_playing: bool,
    pub current: Option<Seq<char>>,
    pub output_ready: bool,
    pub device_initialized: bool,
}

impl View for AudioPlaybackState {
    type V = PlaybackModel;

    open spec fn view(&self) -> PlaybackModel {
        PlaybackModel {
            is_playing: self.is_playing,
            current: match self.current_playback_id {
                Some(token) => Some(token@),
                None => None,
            },
            output_ready: self.output_ready,
            device_initialized: self.device_initialized,
        }
    }
}

/// The answer of a playback command.
#[derive(Debug)]
pub struct AudioPlaybackResponse {
    pub success: bool,
    pub is_playing: bool,
    pub error: Option<String>,
}

/// The notice that a playback session has ended, with that session's token.
#[derive(Debug)]
pub struct AudioPlaybackEvent {
    pub playback_id: String,
}

/// Why a playback session could not begin.
#[derive(Debug)]
pub enum PlaybackError {
    /// The output device could not be opened; the text is the device's own
    /// message.
    OutputDeviceUnavailable(String),
}

/// What `play` hands to the host: the token of the new session, and whether
/// the output device has to be opened before the playback thread is spawned.
#[derive(Debug)]
pub struct PlayStart {
    pub token: String,
    pub needs_device: bool,
}

/// The characters a token is made of: letters, digits, `_` and `-`.
pub open spec fn is_token_char(c: char) -> bool {
    ||| c == '_'
    ||| c == '-'
    ||| ('0' <= c && c <= '9')
    ||| ('a' <= c && c <= 'z')
    ||| ('A' <= c && c <= 'Z')
}

/// The shape of every token: 21 characters, each safe in a URL.
pub open spec fn is_token(token: Seq<char>) -> bool {
    &&& token.len() == TOKEN_LENGTH
    &&& forall|i: int| 0 <= i < token.len() ==> is_token_char(#[trigger] token[i])
}

/// A stop: a session registered as playing is disassociated; nothing else
/// changes.
pub open spec fn cancelled(state: PlaybackModel) -> PlaybackModel {
    if state.is_playing {
        PlaybackModel { is_playing: false, current: None, ..state }
    } else {
        state
    }
}

/// Whether the output device has to be opened before playing.
pub open spec fn needs_device(state: PlaybackModel) -> bool {
    !state.device_initialized || !state.output_ready
}

/// A new session with this token: the session before it is disassociated,
/// and the new one is registered as current and playing.
pub open spec fn registered(state: PlaybackModel, token: Seq<char>) -> PlaybackModel {
    PlaybackModel { is_playing: true, current: Some(token), ..cancelled(state) }
}

/// The output device was opened: the handle is held from now on.
pub open spec fn device_ready(state: PlaybackModel) -> PlaybackModel {
    PlaybackModel { output_ready: true, device_initialized: true, ..state }
}

/// The output device could not be opened: the session does not play.
pub open spec fn device_failed(state: PlaybackModel) -> PlaybackModel {
    PlaybackModel { is_playing: false, ..state }
}

/// Calls `nanoid::format` with `nanoid::rngs::default`, the URL-safe
/// alphabet `nanoid::alphabet::SAFE` and length 21, as the `nanoid!()` macro
/// does. The result is random; whatever it is, it has 21 characters, each
/// from that alphabet.
#[verifier::external_body]
fn fresh_token() -> (token: String)
    ensures
        is_token(token@),
{
    nanoid::format(nanoid::rngs::default, &nanoid::alphabet::SAFE, 21)
}

impl AudioPlaybackState {
    /// A state in which nothing plays and no device was opened.
    pub fn new() -> (state: AudioPlaybackState)
        ensures
            state@ == (PlaybackModel {
                is_playing: false,
                current: None,
                output_ready: false,
                device_initialized: false,
            }),
    {
        AudioPlaybackState {
            is_playing: false,
            current_playback_id: None,
            output_ready: false,
            device_initialized: false,
        }
    }

    /// Whether a session is registered as playing.
    pub fn is_playing(&self) -> (answer: bool)
        ensures
            answer == self@.is_playing,
    {
        self.is_playing
    }

    /// Disassociates the session registered as playing, if there is one,
    /// and hands back its token.
    pub fn stop_audio_internal(&mut self) -> (stopped: Option<String>)
        ensures
            final(self)@ == cancelled(old(self)@),
            !final(self)@.is_playing,
            old(self)@.is_playing ==> stopped == old(self).current_playback_id,
            !old(self)@.is_playing ==> stopped is None,
    {
        if self.is_playing {
            self.is_playing = false;
            self.current_playback_id.take()
        } else {
            None
        }
    }

    /// The command that stops playback. It always succeeds and always
    /// answers that nothing plays.
    pub fn stop_audio(&mut self) -> (response: AudioPlaybackResponse)
        ensures
            final(self)@ == cancelled(old(self)@),
            !final(self)@.is_playing,
            response.success,
            !response.is_playing,
            response.error is None,
    {
        let _ = self.stop_audio_internal();
        AudioPlaybackResponse { success: true, is_playing: false, error: None }
    }

    /// Registers a new session under the given token, in place of the one
    /// registered before, and says whether the output device has to be
    /// opened first.
    pub fn begin_play(&mut self, token: String) -> (open_device: bool)
        ensures
            final(self)@ == registered(old(self)@, token@),
            open_device == needs_device(old(self)@),
    {
        let _ = self.stop_audio_internal();
        self.current_playback_id = Some(token);
        self.is_playing = true;
        !self.device_initialized || !self.output_ready
    }

    /// Begins a session under a fresh token. The host opens the output
    /// device where asked to, reports with `device_opened`, and spawns the
    /// playback thread with the token.
    pub fn play(&mut self) -> (start: PlayStart)
        ensures
            is_token(start.token@),
            final(self)@ == registered(old(self)@, start.token@),
            start.needs_device == needs_device(old(self)@),
    {
        let token = fresh_token();
        let needs_device = self.begin_play(token.clone());
        PlayStart { token, needs_device }
    }

    /// The host tried to open the output device; `failure` holds the
    /// device's message where it could not. On success the handle is held
    /// for every later session; on failure the session does not play.
    pub fn device_opened(&mut self, failure: Option<String>) -> (r: Result<(), PlaybackError>)
        ensures
            failure is None ==> r is Ok && final(self)@ == device_ready(old(self)@),
            failure matches Some(text) ==> final(self)@ == device_failed(old(self)@) && (
            r matches Err(PlaybackError::OutputDeviceUnavailable(detail)) && detail@ == text@),
    {
        match failure {
            None => {
                self.output_ready = true;
                self.device_initialized = true;
                Ok(())
            },
            Some(text) => {
                self.is_playing = false;
                Err(PlaybackError::OutputDeviceUnavailable(text))
            },
        }
    }
}

/// Stopping when nothing plays changes nothing, and a second stop changes
/// nothing after the first.
pub proof fn lemma_stop_is_idempotent(state: PlaybackModel)
    ensures
        !state.is_playing ==> cancelled(state) == state,
        cancelled(cancelled(state)) == cancelled(state),
        !cancelled(state).is_playing,
{
}

/// A new session replaces the one before it: after two sessions in a row,
/// the second token is the current one, whatever the first was.
pub proof fn lemma_latest_session_is_current(
    state: PlaybackModel,
    first: Seq<char>,
    second: Seq<char>,
)
    ensures
        registered(state, first).current == Some(first),
        registered(registered(state, first), second).current == Some(second),
        registered(registered(state, first), second).is_playing,
{
}

/// The output device is opened at most once: after it was opened, no later
/// session asks for it again, whether sessions were stopped or replaced in
/// between.
pub proof fn lemma_device_is_opened_once(state: PlaybackModel, token: Seq<char>)
    ensures
        !needs_device(device_ready(state)),
        !needs_device(cancelled(device_ready(state))),
        !needs_device(registered(device_ready(state), token)),
        !needs_device(device_failed(device_ready(state))),
{
}

/// How far a playback thread has come.
#[derive(Clone, Copy, Debug, PartialEq, Eq, Structural)]
pub enum PlaybackStage {
    /// The thread exists and has done nothing yet.
    Launched,
    /// Waiting for the source to be opened.
    AwaitingSource,
    /// Waiting for the source to be decoded.
    AwaitingDecoder,
    /// Waiting for a sink on the output device.
    AwaitingSink,
    /// The sink plays; waiting for it to drain.
    Draining,
    /// The thread has announced its end.
    Finished,
}

/// What the host reports to a playback thread's logic.
#[derive(Clone, Copy, Debug, PartialEq, Eq, Structural)]
pub enum PlaybackEvent {
    /// The thread's body begins.
    Begun,
    /// The source was opened, or could not be.
    SourceOpened { ok: bool },
    /// The source was decoded, or has no supported codec.
    Decoded { ok: bool },
    /// A sink was created, or could not be.
    SinkCreated { ok: bool },
    /// The sink has played everything.
    Drained,
}

/// How a playback session ended.
#[derive(Clone, Copy, Debug, PartialEq, Eq, Structural)]
pub enum PlaybackEnd {
    /// The source was played to its end.
    Completed,
    /// The source could not be opened.
    SourceUnavailable,
    /// The source could not be decoded.
    UnsupportedCodec,
    /// No sink could be created on the output device.
    SinkUnavailable,
    /// An event arrived that the stage does not expect.
    OutOfTurn,
}

/// What the host does next for a playback thread.
#[derive(Debug)]
pub enum PlaybackAction {
    /// Open the source.
    OpenSource,
    /// Decode the opened source.
    Decode,
    /// Create a sink on the shared output handle.
    CreateSink,
    /// Append the decoded source to the sink and block until it drains.
    Drain,
    /// Emit the completion notice and leave the thread.
    Notify { notice: AudioPlaybackEvent, end: PlaybackEnd },
    /// The thread has left already: nothing to do.
    Nothing,
}

/// The mathematical content of a `PlaybackAction`.
pub enum ActionModel {
    OpenSource,
    Decode,
    CreateSink,
    Drain,
    Notify { token: Seq<char>, end: PlaybackEnd },
    Nothing,
}

impl View for PlaybackAction {
    type V = ActionModel;

    open spec fn view(&self) -> ActionModel {
        match self {
            PlaybackAction::OpenSource => ActionModel::OpenSource,
            PlaybackAction::Decode => ActionModel::Decode,
            PlaybackAction::CreateSink => ActionModel::CreateSink,
            PlaybackAction::Drain => ActionModel::Drain,
            PlaybackAction::Notify { notice, end } => ActionModel::Notify {
                token: notice.playback_id@,
                end: *end,
            },
            PlaybackAction::Nothing => ActionModel::Nothing,
        }
    }
}

/// The thread announces its end under its own token and leaves.
pub open spec fn announced(token: Seq<char>, end: PlaybackEnd) -> (PlaybackStage, ActionModel) {
    (PlaybackStage::Finished, ActionModel::Notify { token, end })
}

/// One step of the playback thread of the session with this token.
pub open spec fn playback_next(token: Seq<char>, stage: PlaybackStage, event: PlaybackEvent) -> (
    PlaybackStage,
    ActionModel,
) {
    match (stage, event) {
        (PlaybackStage::Finished, _) => (PlaybackStage::Finished, ActionModel::Nothing),
        (PlaybackStage::Launched, PlaybackEvent::Begun) => (
            PlaybackStage::AwaitingSource,
            ActionModel::OpenSource,
        ),
        (PlaybackStage::AwaitingSource, PlaybackEvent::SourceOpened { ok }) => if ok {
            (PlaybackStage::AwaitingDecoder, ActionModel::Decode)
        } else {
            announced(token, PlaybackEnd::SourceUnavailable)
        },
        (PlaybackStage::AwaitingDecoder, PlaybackEvent::Decoded { ok }) => if ok {
            (PlaybackStage::AwaitingSink, ActionModel::CreateSink)
        } else {
            announced(token, PlaybackEnd::UnsupportedCodec)
        },
        (PlaybackStage::AwaitingSink, PlaybackEvent::SinkCreated { ok }) => if ok {
            (PlaybackStage::Draining, ActionModel::Drain)
        } else {
            announced(token, PlaybackEnd::SinkUnavailable)
        },
        (PlaybackStage::Draining, PlaybackEvent::Drained) => announced(
            token,
            PlaybackEnd::Completed,
        ),
        _ => announced(token, PlaybackEnd::OutOfTurn),
    }
}

/// Builds the completion notice of the session with this token.
pub fn completion_notice(token: &String) -> (notice: AudioPlaybackEvent)
    ensures
        notice.playback_id@ == token@,
{
    AudioPlaybackEvent { playback_id: token.clone() }
}

/// Ends the thread's run with the completion notice.
fn announce(token: &String, end: PlaybackEnd) -> (out: (PlaybackStage, PlaybackAction))
    ensures
        out.0 == announced(token@, end).0,
        out.1@ == announced(token@, end).1,
{
    (PlaybackStage::Finished, PlaybackAction::Notify { notice: completion_notice(token), end })
}

/// Takes one event of the playback thread of the session with this token
/// and answers with the next stage and the action the host is to carry out.
/// Every way out of the run goes through the completion notice.
pub fn playback_step(token: &String, stage: PlaybackStage, event: PlaybackEvent) -> (out: (
    PlaybackStage,
    PlaybackAction,
))
    ensures
        out.0 == playback_next(token@, stage, event).0,
        out.1@ == playback_next(token@, stage, event).1,
{
    match stage {
        PlaybackStage::Finished => (PlaybackStage::Finished, PlaybackAction::Nothing),
        PlaybackStage::Launched => match event {
            PlaybackEvent::Begun => (PlaybackStage::AwaitingSource, PlaybackAction::OpenSource),
            _ => announce(token, PlaybackEnd::OutOfTurn),
        },
        PlaybackStage::AwaitingSource => match event {
            PlaybackEvent::SourceOpened { ok } => {
                if ok {
                    (PlaybackStage::AwaitingDecoder, PlaybackAction::Decode)
                } else {
                    announce(token, PlaybackEnd::SourceUnavailable)
                }
            },
            _ => announce(token, PlaybackEnd::OutOfTurn),
        },
        PlaybackStage::AwaitingDecoder => match event {
            PlaybackEvent::Decoded { ok } => {
                if ok {
                    (PlaybackStage::AwaitingSink, PlaybackAction::CreateSink)
                } else {
                    announce(token, PlaybackEnd::UnsupportedCodec)
                }
            },
            _ => announce(token, PlaybackEnd::OutOfTurn),
        },
        PlaybackStage::AwaitingSink => match event {
            PlaybackEvent::SinkCreated { ok } => {
                if ok {
                    (PlaybackStage::Draining, PlaybackAction::Drain)
                } else {
                    announce(token, PlaybackEnd::SinkUnavailable)
                }
            },
            _ => announce(token, PlaybackEnd::OutOfTurn),
        },
        PlaybackStage::Draining => match event {
            PlaybackEvent::Drained => announce(token, PlaybackEnd::Completed),
            _ => announce(token, PlaybackEnd::OutOfTurn),
        },
    }
}

/// The stage after a sequence of events, from first to last.
pub open spec fn stage_after(token: Seq<char>, stage: PlaybackStage, events: Seq<PlaybackEvent>) -> PlaybackStage
    decreases events.len(),
{
    if events.len() == 0 {
        stage
    } else {
        stage_after(token, playback_next(token, stage, events.first()).0, events.drop_first())
    }
}

/// The number of completion notices along a sequence of events.
pub open spec fn notices_sent(token: Seq<char>, stage: PlaybackStage, events: Seq<PlaybackEvent>) -> nat
    decreases events.len(),
{
    if events.len() == 0 {
        0
    } else {
        let step = playback_next(token, stage, events.first());
        let now: nat = if step.1 is Notify {
            1
        } else {
            0
        };
        now + notices_sent(token, step.0, events.drop_first())
    }
}

/// How many steps a stage is away from the thread's launch.
pub open spec fn progress(stage: PlaybackStage) -> nat {
    match stage {
        PlaybackStage::Launched => 0,
        PlaybackStage::AwaitingSource => 1,
        PlaybackStage::AwaitingDecoder => 2,
        PlaybackStage::AwaitingSink => 3,
        PlaybackStage::Draining => 4,
        PlaybackStage::Finished => 5,
    }
}

/// A notice is sent exactly on the step that finishes the run, and it
/// carries the token of the session the thread was spawned for.
pub proof fn lemma_notice_marks_the_end(token: Seq<char>, stage: PlaybackStage, event: PlaybackEvent)
    ensures
        playback_next(token, stage, event).1 is Notify <==> (stage != PlaybackStage::Finished
            && playback_next(token, stage, event).0 == PlaybackStage::Finished),
        playback_next(token, stage, event).1 matches ActionModel::Notify { token: sent, .. }
            ==> sent == token,
        stage == PlaybackStage::Finished ==> playback_next(token, stage, event) == (
            PlaybackStage::Finished,
            ActionModel::Nothing,
        ),
        stage != PlaybackStage::Finished ==> progress(playback_next(token, stage, event).0)
            > progress(stage),
{
}

/// Along any sequence of events, a run sends its notice once if it
/// finishes, and never otherwise: no path sends two, and no path finishes
/// without one.
pub proof fn lemma_one_notice_per_run(token: Seq<char>, stage: PlaybackStage, events: Seq<PlaybackEvent>)
    ensures
        notices_sent(token, stage, events) == (if stage != PlaybackStage::Finished && stage_after(
            token,
            stage,
            events,
        ) == PlaybackStage::Finished {
            1nat
        } else {
            0nat
        }),
        stage == PlaybackStage::Finished ==> stage_after(token, stage, events)
            == PlaybackStage::Finished,
    decreases events.len(),
{
    if events.len() > 0 {
        let step = playback_next(token, stage, events.first());
        lemma_notice_marks_the_end(token, stage, events.first());
        lemma_one_notice_per_run(token, step.0, events.drop_first());
    }
}

/// Every run finishes: after five events, whatever they are, a thread that
/// was launched has sent its notice, exactly once.
pub proof fn lemma_every_run_ends_with_its_notice(token: Seq<char>, events: Seq<PlaybackEvent>)
    requires
        events.len() >= 5,
    ensures
        stage_after(token, PlaybackStage::Launched, events) == PlaybackStage::Finished,
        notices_sent(token, PlaybackStage::Launched, events) == 1,
{
    lemma_progress_grows(token, PlaybackStage::Launched, events);
    lemma_one_notice_per_run(token, PlaybackStage::Launched, events);
}

/// Each event moves a run at least one stage on, until it has finished.
proof fn lemma_progress_grows(token: Seq<char>, stage: PlaybackStage, events: Seq<PlaybackEvent>)
    ensures
        progress(stage_after(token, stage, events)) >= progress(stage) + events.len()
            || stage_after(token, stage, events) == PlaybackStage::Finished,
    decreases events.len(),
{
    if events.len() > 0 {
        let step = playback_next(token, stage, events.first());
        lemma_notice_marks_the_end(token, stage, events.first());
        lemma_progress_grows(token, step.0, events.drop_first());
        lemma_one_notice_per_run(token, step.0, events.drop_first());
    }
}

/// The message of a playback error: what failed, then the device's message.
pub open spec fn playback_message(detail: Seq<char>) -> Seq<char> {
    "Failed to create output stream: "@ + detail
}

/// The text of the answer to a command that is no longer served.
pub open spec fn deprecation_notice() -> Seq<char> {
    "This function is deprecated. Use direct file paths instead."@
}

impl PlaybackError {
    /// The message shown to the caller of a command.
    pub fn message(&self) -> (text: String)
        ensures
            self matches PlaybackError::OutputDeviceUnavailable(detail) && text@
                == playback_message(detail@),
    {
        match self {
            PlaybackError::OutputDeviceUnavailable(detail) => joined(
                "Failed to create output stream: ",
                detail.as_str(),
            ),
        }
    }
}

impl AudioPlaybackResponse {
    /// The answer of `play_audio` once the playback thread was spawned.
    pub fn playing() -> (response: AudioPlaybackResponse)
        ensures
            response.success,
            response.is_playing,
            response.error is None,
    {
        AudioPlaybackResponse { success: true, is_playing: true, error: None }
    }
}

/// The answer of a data-transfer command that is no longer served.
#[derive(Debug)]
pub struct AudioDataResponse {
    pub success: bool,
    pub data: Option<String>,
    pub mime_type: String,
    pub error: Option<String>,
}

/// Playing from an in-memory blob is no longer served: the answer says so
/// and nothing plays.
pub fn play_audio_from_base64() -> (response: AudioPlaybackResponse)
    ensures
        !response.success,
        !response.is_playing,
        response.error matches Some(text) && text@ == deprecation_notice(),
{
    AudioPlaybackResponse {
        success: false,
        is_playing: false,
        error: Some(String::from_str("This function is deprecated. Use direct file paths instead.")),
    }
}

/// Fetching recorded data as a blob is no longer served: the answer says so
/// and carries no data.
pub fn get_audio_data() -> (response: AudioDataResponse)
    ensures
        !response.success,
        response.data is None,
        response.mime_type@ == Seq::<char>::empty(),
        response.error matches Some(text) && text@ == deprecation_notice(),
{
    AudioDataResponse {
        success: false,
        data: None,
        mime_type: String::new(),
        error: Some(String::from_str("This function is deprecated. Use direct file paths instead.")),
    }
}

impl Default for AudioPlaybackState {
    fn default() -> (state: AudioPlaybackState)
        ensures
            state@ == (PlaybackModel {
                is_playing: false,
                current: None,
                output_ready: false,
                device_initialized: false,
            }),
    {
        AudioPlaybackState::new()
    }
}

} // verus!
