//! Failures of the host's storage: which step failed, of what kind the
//! failure is, and the message that the caller of a command sees.

use vstd::prelude::*;
use vstd::string::*;
use crate::text::joined;
use crate::wav::WavFailure;

verus! {

/// The steps of storing and loading that can fail.
#[derive(Clone, Copy, Debug, PartialEq, Eq, Structural)]
pub enum StorageStep {
    /// Finding the application's data directory.
    ResolveDataDir,
    /// Creating the data directory.
    CreateDataDir,
    /// Turning the configuration into JSON.
    SerializeConfig,
    /// Creating the configuration file.
    CreateConfigFile,
    /// Writing the configuration file.
    WriteConfigFile,
    /// Opening the configuration file.
    OpenConfigFile,
    /// Reading the configuration file.
    ReadConfigFile,
    /// Reading the configuration out of the JSON.
    ParseConfig,
    /// Creating the file of a recording.
    CreateWavFile,
    /// Writing the samples of a recording.
    WriteSample,
    /// Completing the container of a recording.
    FinalizeWav,
}

/// The two kinds of storage failure.
#[derive(Clone, Copy, Debug, PartialEq, Eq, Structural)]
pub enum FailureKind {
    /// A file or directory could not be created, written or read.
    Io,
    /// The configuration could not be turned into JSON or read out of it.
    Serialization,
}

/// A failed step, with the message of what made it fail.
#[derive(Debug)]
pub struct StorageError {
    pub step: StorageStep,
    pub detail: String,
}

/// The mathematical content of a `StorageError`.
pub struct StorageErrorModel {
    pub step: StorageStep,
    pub detail: Seq<char>,
}

impl View for StorageError {
    type V = StorageErrorModel;

    open spec fn view(&self) -> StorageErrorModel {
        StorageErrorModel { step: self.step, detail: self.detail@ }
    }
}

/// The step of writing a recording that an encoding failure belongs to: a
/// format that is refused fails the creation, a sample that cannot be
/// written fails the writing, and everything else shows at the end.
pub open spec fn wav_failure_step(failure: WavFailure) -> StorageStep {
    match failure {
        WavFailure::Unsupported => StorageStep::CreateWavFile,
        WavFailure::Io(_) => StorageStep::WriteSample,
        WavFailure::TooWide => StorageStep::WriteSample,
        _ => StorageStep::FinalizeWav,
    }
}

/// What made an encoding fail, in words.
pub open spec fn wav_failure_detail(failure: WavFailure) -> Seq<char> {
    match failure {
        WavFailure::Io(text) => text@,
        WavFailure::Format(text) => text@,
        WavFailure::TooWide => "a sample is too wide for the container"@,
        WavFailure::UnfinishedSample => "the last frame lacks a sample for some channel"@,
        WavFailure::Unsupported => "the format is not supported"@,
        WavFailure::InvalidSampleFormat => "the sample format does not match"@,
    }
}

/// The kind of failure of a step.
pub open spec fn kind_of(step: StorageStep) -> FailureKind {
    match step {
        StorageStep::SerializeConfig => FailureKind::Serialization,
        StorageStep::ParseConfig => FailureKind::Serialization,
        _ => FailureKind::Io,
    }
}

/// What the message of a failed step begins with.
pub open spec fn step_prefix(step: StorageStep) -> Seq<char> {
    match step {
        StorageStep::ResolveDataDir => "Failed to get app data directory: "@,
        StorageStep::CreateDataDir => "Failed to create app data directory: "@,
        StorageStep::SerializeConfig => "Failed to serialize config: "@,
        StorageStep::CreateConfigFile => "Failed to create config file: "@,
        StorageStep::WriteConfigFile => "Failed to write config file: "@,
        StorageStep::OpenConfigFile => "Failed to open config file: "@,
        StorageStep::ReadConfigFile => "Failed to read config file: "@,
        StorageStep::ParseConfig => "Failed to parse config file: "@,
        StorageStep::CreateWavFile => "Failed to create WAV file: "@,
        StorageStep::WriteSample => "Failed to write sample: "@,
        StorageStep::FinalizeWav => "Failed to finalize WAV: "@,
    }
}

/// The message of a storage error: the step, then what made it fail.
pub open spec fn storage_message(step: StorageStep, detail: Seq<char>) -> Seq<char> {
    step_prefix(step) + detail
}

impl StorageError {
    /// The failure of a step, with the message of what made it fail.
    pub fn new(step: StorageStep, detail: String) -> (error: StorageError)
        ensures
            error.step == step,
            error.detail == detail,
    {
        StorageError { step, detail }
    }

    /// The kind of the failure.
    pub fn kind(&self) -> (kind: FailureKind)
        ensures
            kind == kind_of(self.step),
    {
        match self.step {
            StorageStep::SerializeConfig => FailureKind::Serialization,
            StorageStep::ParseConfig => FailureKind::Serialization,
            _ => FailureKind::Io,
        }
    }

    /// The message shown to the caller of a command.
    pub fn message(&self) -> (text: String)
        ensures
            text@ == storage_message(self.step, self.detail@),
    {
        let prefix = match self.step {
            StorageStep::ResolveDataDir => "Failed to get app data directory: ",
            StorageStep::CreateDataDir => "Failed to create app data directory: ",
            StorageStep::SerializeConfig => "Failed to serialize config: ",
            StorageStep::CreateConfigFile => "Failed to create config file: ",
            StorageStep::WriteConfigFile => "Failed to write config file: ",
            StorageStep::OpenConfigFile => "Failed to open config file: ",
            StorageStep::ReadConfigFile => "Failed to read config file: ",
            StorageStep::ParseConfig => "Failed to parse config file: ",
            StorageStep::CreateWavFile => "Failed to create WAV file: ",
            StorageStep::WriteSample => "Failed to write sample: ",
            StorageStep::FinalizeWav => "Failed to finalize WAV: ",
        };
        joined(prefix, self.detail.as_str())
    }
}

/// The storage failure that an encoding failure amounts to.
pub fn wav_failed(failure: WavFailure) -> (error: StorageError)
    ensures
        error@ == (StorageErrorModel {
            step: wav_failure_step(failure),
            detail: wav_failure_detail(failure),
        }),
{
    match failure {
        WavFailure::Io(text) => StorageError { step: StorageStep::WriteSample, detail: text },
        WavFailure::Format(text) => StorageError { step: StorageStep::FinalizeWav, detail: text },
        WavFailure::TooWide => StorageError {
            step: StorageStep::WriteSample,
            detail: String::from_str("a sample is too wide for the container"),
        },
        WavFailure::UnfinishedSample => StorageError {
            step: StorageStep::FinalizeWav,
            detail: String::from_str("the last frame lacks a sample for some channel"),
        },
        WavFailure::Unsupported => StorageError {
            step: StorageStep::CreateWavFile,
            detail: String::from_str("the format is not supported"),
        },
        WavFailure::InvalidSampleFormat => StorageError {
            step: StorageStep::FinalizeWav,
            detail: String::from_str("the sample format does not match"),
        },
    }
}

/// A copy of a storage error.
pub fn copy_of(error: &StorageError) -> (copy: StorageError)
    ensures
        copy@ == error@,
{
    StorageError { step: error.step, detail: error.detail.clone() }
}

} // verus!
