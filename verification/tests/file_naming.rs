use voice_recorder::naming::{next_recording_name, recording_file_name};

#[test]
fn a_stamp_is_framed_as_a_wav_file_name() {
    assert_eq!(recording_file_name("20240131_235959"), "recording_20240131_235959.wav");
    assert_eq!(recording_file_name(""), "recording_.wav");
}

#[test]
fn the_next_name_holds_a_local_time_stamp() {
    let name = next_recording_name();
    assert!(name.starts_with("recording_"));
    assert!(name.ends_with(".wav"));
    let stamp = &name["recording_".len()..name.len() - ".wav".len()];
    assert_ne!(stamp, "%Y%m%d_%H%M%S");
    assert_eq!(stamp.len(), 15);
    for (at, c) in stamp.chars().enumerate() {
        if at == 8 {
            assert_eq!(c, '_');
        } else {
            assert!(c.is_ascii_digit());
        }
    }
    let month: u32 = stamp[4..6].parse().unwrap();
    let day: u32 = stamp[6..8].parse().unwrap();
    let hour: u32 = stamp[9..11].parse().unwrap();
    assert!((1..=12).contains(&month));
    assert!((1..=31).contains(&day));
    assert!(hour < 24);
}
