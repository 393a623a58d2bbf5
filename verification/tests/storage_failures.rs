use voice_recorder::storage::{copy_of, wav_failed, FailureKind, StorageError, StorageStep};
use voice_recorder::wav::{encode, WavFailure};

fn all_steps() -> Vec<(StorageStep, &'static str, FailureKind)> {
    vec![
        (StorageStep::ResolveDataDir, "Failed to get app data directory: ", FailureKind::Io),
        (StorageStep::CreateDataDir, "Failed to create app data directory: ", FailureKind::Io),
        (StorageStep::SerializeConfig, "Failed to serialize config: ", FailureKind::Serialization),
        (StorageStep::CreateConfigFile, "Failed to create config file: ", FailureKind::Io),
        (StorageStep::WriteConfigFile, "Failed to write config file: ", FailureKind::Io),
        (StorageStep::OpenConfigFile, "Failed to open config file: ", FailureKind::Io),
        (StorageStep::ReadConfigFile, "Failed to read config file: ", FailureKind::Io),
        (StorageStep::ParseConfig, "Failed to parse config file: ", FailureKind::Serialization),
        (StorageStep::CreateWavFile, "Failed to create WAV file: ", FailureKind::Io),
        (StorageStep::WriteSample, "Failed to write sample: ", FailureKind::Io),
        (StorageStep::FinalizeWav, "Failed to finalize WAV: ", FailureKind::Io),
    ]
}

#[test]
fn every_step_has_its_message_and_its_kind() {
    for (step, prefix, kind) in all_steps() {
        let error = StorageError::new(step, "permission denied".to_string());
        assert_eq!(error.step, step);
        assert_eq!(error.detail, "permission denied");
        assert_eq!(error.kind(), kind);
        assert_eq!(error.message(), format!("{}permission denied", prefix));
    }
}

#[test]
fn a_message_without_detail_is_the_step_alone() {
    let error = StorageError::new(StorageStep::ParseConfig, String::new());
    assert_eq!(error.message(), "Failed to parse config file: ");
}

#[test]
fn a_copy_of_an_error_holds_the_same() {
    let error = StorageError::new(StorageStep::ReadConfigFile, "interrupted".to_string());
    let copy = copy_of(&error);
    assert_eq!(copy.step, StorageStep::ReadConfigFile);
    assert_eq!(copy.detail, "interrupted");
    assert_eq!(copy.message(), error.message());
}

#[test]
fn an_encoding_failure_belongs_to_a_step_of_writing() {
    let cases = vec![
        (WavFailure::Io("disk full".to_string()), "Failed to write sample: disk full"),
        (WavFailure::Format("bad tag".to_string()), "Failed to finalize WAV: bad tag"),
        (WavFailure::TooWide, "Failed to write sample: a sample is too wide for the container"),
        (
            WavFailure::UnfinishedSample,
            "Failed to finalize WAV: the last frame lacks a sample for some channel",
        ),
        (WavFailure::Unsupported, "Failed to create WAV file: the format is not supported"),
        (
            WavFailure::InvalidSampleFormat,
            "Failed to finalize WAV: the sample format does not match",
        ),
    ];
    for (failure, message) in cases {
        let error = wav_failed(failure);
        assert_eq!(error.kind(), FailureKind::Io);
        assert_eq!(error.message(), message);
    }
}

#[test]
fn an_unfinished_recording_is_reported_at_the_finalize_step() {
    let failure = encode(&[1, 2, 3], 2, 44100).unwrap_err();
    assert_eq!(wav_failed(failure).step, StorageStep::FinalizeWav);
}
