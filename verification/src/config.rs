//! The user's choice of channel count and sample rate: validation, and the
//! resolution of the configuration a session actually runs with.

use vstd::prelude::*;
use vstd::string::*;
use crate::device::{
    device_message, distinct, distinct_names, reported_name, AudioDeviceInfo, DeviceError,
    DeviceErrorModel, DeviceInfoModel, DeviceProbe, ProbeModel,
};
use crate::recorder::{BackgroundRecorder, RecordingModel, RecordingState};
use crate::storage::{copy_of, storage_message, StorageError, StorageErrorModel};
use crate::text::{append_decimal, decimal};

verus! {

/// A channel count and a sample rate. A zero in either field of a stored
/// preference means "unset: take the device's default".
#[derive(Clone, Copy, Debug, PartialEq, Eq, Structural)]
pub struct StreamParams {
    pub channels: u16,
    pub sample_rate: u32,
}

/// Why a requested configuration was refused.
#[derive(Clone, Copy, Debug, PartialEq, Eq, Structural)]
pub enum ConfigError {
    /// The configuration may not change while a session is starting,
    /// active or stopping.
    WhileRecording,
    /// The channel count is neither 1 nor 2.
    InvalidChannels,
    /// The sample rate, carried here, is none of the accepted rates.
    InvalidSampleRate(u32),
}

/// Mono or stereo.
pub open spec fn valid_channels(channels: u16) -> bool {
    channels == 1 || channels == 2
}

/// One of the five accepted rates.
pub open spec fn valid_sample_rate(sample_rate: u32) -> bool {
    sample_rate == 8000 || sample_rate == 16000 || sample_rate == 22050 || sample_rate == 44100
        || sample_rate == 48000
}

/// What `validate` answers: the channel count is judged first.
pub open spec fn validation(channels: u16, sample_rate: u32) -> Result<(), ConfigError> {
    if !valid_channels(channels) {
        Err(ConfigError::InvalidChannels)
    } else if !valid_sample_rate(sample_rate) {
        Err(ConfigError::InvalidSampleRate(sample_rate))
    } else {
        Ok(())
    }
}

/// A stored value wins where it is set; an unset field falls back to the
/// device's default.
pub open spec fn effective(stored: StreamParams, device_default: StreamParams) -> StreamParams {
    StreamParams {
        channels: if stored.channels == 0 {
            device_default.channels
        } else {
            stored.channels
        },
        sample_rate: if stored.sample_rate == 0 {
            device_default.sample_rate
        } else {
            stored.sample_rate
        },
    }
}

/// Accepts one or two channels at 8000, 16000, 22050, 44100 or 48000 Hz.
pub fn validate(channels: u16, sample_rate: u32) -> (r: Result<(), ConfigError>)
    ensures
        r == validation(channels, sample_rate),
        r is Ok <==> valid_channels(channels) && valid_sample_rate(sample_rate),
{
    if channels != 1 && channels != 2 {
        return Err(ConfigError::InvalidChannels);
    }
    if sample_rate != 8000 && sample_rate != 16000 && sample_rate != 22050 && sample_rate != 44100
        && sample_rate != 48000 {
        return Err(ConfigError::InvalidSampleRate(sample_rate));
    }
    Ok(())
}

/// Resolves the configuration a session runs with from the stored
/// preference and the device's own default.
pub fn resolve_effective_config(stored: StreamParams, device_default: StreamParams) -> (out:
    StreamParams)
    ensures
        out == effective(stored, device_default),
{
    let channels = if stored.channels == 0 {
        device_default.channels
    } else {
        stored.channels
    };
    let sample_rate = if stored.sample_rate == 0 {
        device_default.sample_rate
    } else {
        stored.sample_rate
    };
    StreamParams { channels, sample_rate }
}

/// A preference that passed validation is used as it stands, whatever the
/// device offers.
pub proof fn lemma_valid_preference_wins(stored: StreamParams, device_default: StreamParams)
    requires
        validation(stored.channels, stored.sample_rate) is Ok,
    ensures
        effective(stored, device_default) == stored,
{
}

/// Resolving twice against the same device changes nothing more.
pub proof fn lemma_effective_is_stable(stored: StreamParams, device_default: StreamParams)
    ensures
        effective(effective(stored, device_default), device_default) == effective(
            stored,
            device_default,
        ),
{
}

/// With nothing stored, the session runs with the device's default.
pub proof fn lemma_unset_takes_default(device_default: StreamParams)
    ensures
        effective(StreamParams { channels: 0, sample_rate: 0 }, device_default) == device_default,
{
}

/// The durable form of the user's preference.
#[derive(Debug)]
pub struct SavedAudioConfig {
    pub device_name: String,
    pub channels: u16,
    pub sample_rate: u32,
}

/// The mathematical content of a `SavedAudioConfig`.
pub struct SavedConfigModel {
    pub device_name: Seq<char>,
    pub channels: u16,
    pub sample_rate: u32,
}

impl View for SavedAudioConfig {
    type V = SavedConfigModel;

    open spec fn view(&self) -> SavedConfigModel {
        SavedConfigModel {
            device_name: self.device_name@,
            channels: self.channels,
            sample_rate: self.sample_rate,
        }
    }
}

/// The place of the configuration file, resolved once and kept.
#[derive(Debug)]
pub struct ConfigLocation {
    pub path: Option<String>,
}

/// The name of the configuration file inside the data directory.
pub open spec fn config_file_name() -> Seq<char> {
    "audio_config.json"@
}

/// The name reported for the current device where it does not tell its own.
pub open spec fn unknown_name() -> Seq<char> {
    "Unknown"@
}

/// Whether a session is under way: a capture thread is attached, or the
/// state records.
pub open spec fn session_under_way(state: RecordingModel, recorder: BackgroundRecorder) -> bool {
    state.is_recording || recorder.thread_attached
}

/// A change of configuration: refused while a session is under way,
/// refused where the values are not valid, and otherwise stored in the
/// state.
pub open spec fn config_set(
    state: RecordingModel,
    recorder: BackgroundRecorder,
    channels: u16,
    sample_rate: u32,
) -> (RecordingModel, Result<(), ConfigError>) {
    if session_under_way(state, recorder) {
        (state, Err(ConfigError::WhileRecording))
    } else {
        match validation(channels, sample_rate) {
            Err(error) => (state, Err(error)),
            Ok(()) => (RecordingModel { channels, sample_rate, ..state }, Ok(())),
        }
    }
}

/// What is written to disk for a state and a device name.
pub open spec fn saved_form(state: RecordingModel, device_name: Seq<char>) -> SavedConfigModel {
    SavedConfigModel { device_name, channels: state.channels, sample_rate: state.sample_rate }
}

/// The stored choice: the saved configuration where there is one, else the
/// values held in memory.
pub open spec fn stored_choice(state: RecordingModel, saved: Option<SavedConfigModel>) -> StreamParams {
    match saved {
        Some(config) => StreamParams {
            channels: config.channels,
            sample_rate: config.sample_rate,
        },
        None => StreamParams { channels: state.channels, sample_rate: state.sample_rate },
    }
}

/// The state after it has taken over the set fields of a choice.
pub open spec fn choice_adopted(state: RecordingModel, choice: StreamParams) -> RecordingModel {
    RecordingModel {
        channels: if choice.channels > 0 {
            choice.channels
        } else {
            state.channels
        },
        sample_rate: if choice.sample_rate > 0 {
            choice.sample_rate
        } else {
            state.sample_rate
        },
        ..state
    }
}

/// Why the current configuration could not be reported: the device did not
/// answer, or the saved configuration could not be loaded.
#[derive(Debug)]
pub enum QueryError {
    Device(DeviceError),
    Storage(StorageError),
}

/// The mathematical content of a `QueryError`.
pub enum QueryErrorModel {
    Device(DeviceErrorModel),
    Storage(StorageErrorModel),
}

impl View for QueryError {
    type V = QueryErrorModel;

    open spec fn view(&self) -> QueryErrorModel {
        match self {
            QueryError::Device(error) => QueryErrorModel::Device(error@),
            QueryError::Storage(error) => QueryErrorModel::Storage(error@),
        }
    }
}

/// The current configuration for a device, and the state after the query.
/// A missing device comes first, then the device's missing configuration,
/// then a saved configuration that could not be loaded; each of them leaves
/// the state as it was. After that the state takes over the stored choice,
/// also where the supported encodings are then missing.
pub open spec fn current_config(
    state: RecordingModel,
    device: Option<ProbeModel>,
    loaded: Result<Option<SavedConfigModel>, StorageErrorModel>,
) -> (RecordingModel, Result<DeviceInfoModel, QueryErrorModel>) {
    match device {
        None => (state, Err(QueryErrorModel::Device(DeviceErrorModel::NoDefaultDevice))),
        Some(probe) => match probe.default_config {
            Err(message) => (
                state,
                Err(QueryErrorModel::Device(DeviceErrorModel::DeviceConfig(message))),
            ),
            Ok(device_default) => match loaded {
                Err(error) => (state, Err(QueryErrorModel::Storage(error))),
                Ok(saved) => {
                    let choice = stored_choice(state, saved);
                    let adopted = choice_adopted(state, choice);
                    let used = effective(choice, device_default);
                    match probe.formats {
                        Err(message) => (
                            adopted,
                            Err(
                                QueryErrorModel::Device(
                                    DeviceErrorModel::SupportedInputConfigs(message),
                                ),
                            ),
                        ),
                        Ok(formats) => (
                            adopted,
                            Ok(
                                DeviceInfoModel {
                                    name: reported_name(probe, unknown_name()),
                                    channels: used.channels,
                                    sample_rate: used.sample_rate,
                                    formats: distinct(formats),
                                },
                            ),
                        ),
                    }
                },
            },
        },
    }
}

/// What was loaded from disk, by its content.
pub open spec fn loaded_model(loaded: Result<Option<SavedAudioConfig>, StorageError>) -> Result<
    Option<SavedConfigModel>,
    StorageErrorModel,
> {
    match loaded {
        Ok(Some(config)) => Ok(Some(config@)),
        Ok(None) => Ok(None),
        Err(error) => Err(error@),
    }
}

/// A device that was probed, by its content.
pub open spec fn probed_model(device: Option<DeviceProbe>) -> Option<ProbeModel> {
    match device {
        Some(probe) => Some(probe@),
        None => None,
    }
}

/// The durable form of the state's configuration, under a device name.
pub fn save_audio_config(state: &RecordingState, device_name: &str) -> (saved: SavedAudioConfig)
    ensures
        saved@ == saved_form(state@, device_name@),
{
    SavedAudioConfig {
        device_name: String::from_str(device_name),
        channels: state.channels,
        sample_rate: state.sample_rate,
    }
}

/// Sets the user's configuration. Refused with `WhileRecording` while a
/// session is starting, active or stopping, and with the validation's error
/// for values that are not accepted; the state is then unchanged. On
/// success the state holds the new values, and the answer is what the host
/// writes to disk.
pub fn set_audio_config(
    state: &mut RecordingState,
    recorder: &BackgroundRecorder,
    device_name: &str,
    channels: u16,
    sample_rate: u32,
) -> (r: Result<SavedAudioConfig, ConfigError>)
    ensures
        final(state)@ == config_set(old(state)@, *recorder, channels, sample_rate).0,
        match config_set(old(state)@, *recorder, channels, sample_rate).1 {
            Ok(()) => r is Ok && r->Ok_0@ == saved_form(final(state)@, device_name@),
            Err(error) => r == Err::<SavedAudioConfig, ConfigError>(error),
        },
        r is Ok <==> !session_under_way(old(state)@, *recorder) && valid_channels(channels)
            && valid_sample_rate(sample_rate),
{
    if state.is_recording || recorder.thread_attached {
        return Err(ConfigError::WhileRecording);
    }
    match validate(channels, sample_rate) {
        Err(error) => {
            return Err(error);
        },
        Ok(()) => {},
    }
    state.channels = channels;
    state.sample_rate = sample_rate;
    Ok(save_audio_config(state, device_name))
}

/// Reports the configuration in use for the default device: the saved
/// configuration where one was loaded, else the values in memory, each
/// falling back to the device's default where unset. The state takes over
/// the set fields of the stored choice. A saved configuration that could
/// not be loaded fails the query with the failure of the loading.
pub fn get_current_audio_config(
    state: &mut RecordingState,
    device: &Option<DeviceProbe>,
    loaded: &Result<Option<SavedAudioConfig>, StorageError>,
) -> (r: Result<AudioDeviceInfo, QueryError>)
    ensures
        final(state)@ == current_config(
            old(state)@,
            probed_model(*device),
            loaded_model(*loaded),
        ).0,
        match current_config(old(state)@, probed_model(*device), loaded_model(*loaded)).1 {
            Ok(model) => r is Ok && r->Ok_0@ == model,
            Err(error) => r is Err && r->Err_0@ == error,
        },
{
    let probe = match device {
        None => {
            return Err(QueryError::Device(DeviceError::NoDefaultDevice));
        },
        Some(probe) => probe,
    };
    let device_default = match &probe.default_config {
        Err(message) => {
            return Err(QueryError::Device(DeviceError::DeviceConfig(message.clone())));
        },
        Ok(params) => *params,
    };
    let choice = match loaded {
        Err(error) => {
            return Err(QueryError::Storage(copy_of(error)));
        },
        Ok(Some(config)) => StreamParams {
            channels: config.channels,
            sample_rate: config.sample_rate,
        },
        Ok(None) => StreamParams { channels: state.channels, sample_rate: state.sample_rate },
    };
    if choice.channels > 0 {
        state.channels = choice.channels;
    }
    if choice.sample_rate > 0 {
        state.sample_rate = choice.sample_rate;
    }
    let used = resolve_effective_config(choice, device_default);
    let formats = match &probe.formats {
        Err(message) => {
            return Err(QueryError::Device(DeviceError::SupportedInputConfigs(message.clone())));
        },
        Ok(formats) => distinct_names(formats),
    };
    let name = match &probe.name {
        Ok(name) => name.clone(),
        Err(_) => String::from_str("Unknown"),
    };
    Ok(AudioDeviceInfo { name, channels: used.channels, sample_rate: used.sample_rate, formats })
}

impl ConfigLocation {
    /// A location that is not resolved yet.
    pub fn new() -> (location: ConfigLocation)
        ensures
            location.path is None,
    {
        ConfigLocation { path: None }
    }

    /// The path, once it was resolved. `None` asks the host to resolve the
    /// data directory, create it, and report with `resolved`.
    pub fn known(&self) -> (path: Option<String>)
        ensures
            match self.path {
                Some(kept) => path is Some && path->Some_0@ == kept@,
                None => path is None,
            },
    {
        match &self.path {
            Some(kept) => Some(kept.clone()),
            None => None,
        }
    }

    /// Keeps the path of the configuration file: the data directory, a
    /// separator and the file's name. A path that was kept before stays.
    pub fn resolved(&mut self, data_dir: &str, separator: &str) -> (path: String)
        ensures
            match old(self).path {
                Some(kept) => path@ == kept@ && final(self).path == old(self).path,
                None => path@ == data_dir@ + separator@ + config_file_name() && final(self).path
                    is Some && final(self).path->Some_0@ == path@,
            },
    {
        match &self.path {
            Some(kept) => kept.clone(),
            None => {
                let mut path = String::from_str(data_dir);
                path.append(separator);
                path.append("audio_config.json");
                self.path = Some(path.clone());
                path
            },
        }
    }
}

/// What was set and saved comes back: a state that is given the saved form
/// of a successful change reports the values of that change, whatever it
/// held before, for any device that answers its queries, and holds them
/// afterwards.
pub proof fn lemma_saved_config_comes_back(
    before: RecordingModel,
    recorder: BackgroundRecorder,
    fresh: RecordingModel,
    device_name: Seq<char>,
    channels: u16,
    sample_rate: u32,
    probe: ProbeModel,
)
    requires
        config_set(before, recorder, channels, sample_rate).1 is Ok,
        probe.default_config is Ok,
        probe.formats is Ok,
    ensures
        ({
            let saved = saved_form(
                config_set(before, recorder, channels, sample_rate).0,
                device_name,
            );
            let answer = current_config(fresh, Some(probe), Ok(Some(saved)));
            &&& saved == (SavedConfigModel { device_name, channels, sample_rate })
            &&& answer.1 is Ok
            &&& answer.1->Ok_0.channels == channels
            &&& answer.1->Ok_0.sample_rate == sample_rate
            &&& answer.0.channels == channels
            &&& answer.0.sample_rate == sample_rate
        }),
{
}

/// A change of configuration never happens while a session is starting,
/// active or stopping, and a refused change leaves the state as it was.
pub proof fn lemma_config_is_fixed_while_recording(
    state: RecordingModel,
    recorder: BackgroundRecorder,
    channels: u16,
    sample_rate: u32,
)
    ensures
        state.is_recording || recorder.thread_attached ==> config_set(
            state,
            recorder,
            channels,
            sample_rate,
        ) == (state, Err::<(), ConfigError>(ConfigError::WhileRecording)),
        config_set(state, recorder, channels, sample_rate).1 is Err ==> config_set(
            state,
            recorder,
            channels,
            sample_rate,
        ).0 == state,
        config_set(state, recorder, channels, sample_rate).1 is Ok ==> validation(
            config_set(state, recorder, channels, sample_rate).0.channels,
            config_set(state, recorder, channels, sample_rate).0.sample_rate,
        ) is Ok,
{
}

/// A saved configuration that could not be loaded is not taken for none:
/// for a device that reports its configuration, the query fails with the
/// failure of the loading and leaves the state as it was.
pub proof fn lemma_load_failure_fails_the_query(
    state: RecordingModel,
    probe: ProbeModel,
    error: StorageErrorModel,
)
    requires
        probe.default_config is Ok,
    ensures
        current_config(state, Some(probe), Err(error)) == (
            state,
            Err::<DeviceInfoModel, QueryErrorModel>(QueryErrorModel::Storage(error)),
        ),
{
}

/// The message of a configuration error.
pub open spec fn config_message(error: ConfigError) -> Seq<char> {
    match error {
        ConfigError::WhileRecording => "Cannot change config while recording."@,
        ConfigError::InvalidChannels => "Invalid number of channels (must be 1 or 2)."@,
        ConfigError::InvalidSampleRate(rate) => "Invalid sample rate "@ + decimal(rate as nat)
            + ", must be one of [8000, 16000, 22050, 44100, 48000]"@,
    }
}

impl ConfigError {
    /// The message shown to the caller of a command.
    pub fn message(&self) -> (text: String)
        ensures
            text@ == config_message(*self),
    {
        match self {
            ConfigError::WhileRecording => String::from_str(
                "Cannot change config while recording.",
            ),
            ConfigError::InvalidChannels => String::from_str(
                "Invalid number of channels (must be 1 or 2).",
            ),
            ConfigError::InvalidSampleRate(rate) => {
                let mut text = String::from_str("Invalid sample rate ");
                append_decimal(&mut text, *rate);
                text.append(", must be one of [8000, 16000, 22050, 44100, 48000]");
                text
            },
        }
    }
}

/// The message of a failed query: that of the device or of the storage.
pub open spec fn query_message(error: QueryErrorModel) -> Seq<char> {
    match error {
        QueryErrorModel::Device(inner) => device_message(inner),
        QueryErrorModel::Storage(inner) => storage_message(inner.step, inner.detail),
    }
}

impl QueryError {
    /// The message shown to the caller of a command.
    pub fn message(&self) -> (text: String)
        ensures
            text@ == query_message(self@),
    {
        match self {
            QueryError::Device(inner) => inner.message(),
            QueryError::Storage(inner) => inner.message(),
        }
    }
}

} // verus!
