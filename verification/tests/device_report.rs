use voice_recorder::config::StreamParams;
use voice_recorder::device::{
    available_devices, default_device_info, distinct_names, get_audio_devices, holds_name,
    init_audio_system, snapshot_of, DeviceError, DeviceProbe,
};

fn probe(name: &str, channels: u16, sample_rate: u32, formats: &[&str]) -> DeviceProbe {
    DeviceProbe {
        name: Ok(name.to_string()),
        default_config: Ok(StreamParams { channels, sample_rate }),
        formats: Ok(formats.iter().map(|f| f.to_string()).collect()),
    }
}

fn nameless() -> DeviceProbe {
    let mut p = probe("x", 1, 8000, &["I16"]);
    p.name = Err("name failed".to_string());
    p
}

fn without_config() -> DeviceProbe {
    let mut p = probe("NoConfig", 1, 8000, &["I16"]);
    p.default_config = Err("config failed".to_string());
    p
}

fn without_formats() -> DeviceProbe {
    let mut p = probe("NoFormats", 1, 8000, &["I16"]);
    p.formats = Err("formats failed".to_string());
    p
}

#[test]
fn a_device_that_answers_everything_has_a_snapshot() {
    let info = snapshot_of(&probe("Mic", 2, 48000, &["I16", "F32"])).unwrap();
    assert_eq!(info.name, "Mic");
    assert_eq!(info.channels, 2);
    assert_eq!(info.sample_rate, 48000);
    assert_eq!(info.formats, vec!["I16".to_string(), "F32".to_string()]);
}

#[test]
fn a_device_that_fails_any_query_has_no_snapshot() {
    assert!(snapshot_of(&nameless()).is_none());
    assert!(snapshot_of(&without_config()).is_none());
    assert!(snapshot_of(&without_formats()).is_none());
}

#[test]
fn failing_devices_are_left_out_and_the_order_is_kept() {
    let list = vec![
        probe("A", 1, 44100, &["I16"]),
        nameless(),
        probe("B", 2, 48000, &["F32"]),
        without_config(),
        without_formats(),
        probe("C", 1, 16000, &[]),
    ];
    let listed = available_devices(&list);
    let names: Vec<&str> = listed.iter().map(|d| d.name.as_str()).collect();
    assert_eq!(names, vec!["A", "B", "C"]);
    assert_eq!(listed[1].channels, 2);
    assert_eq!(listed[1].sample_rate, 48000);
    assert_eq!(listed[2].formats, Vec::<String>::new());
}

#[test]
fn no_probes_give_no_devices() {
    assert!(available_devices(&Vec::new()).is_empty());
}

#[test]
fn repeated_names_are_listed_once_in_order_of_first_appearance() {
    let names: Vec<String> =
        ["U16", "I16", "U16", "F32", "I16", "I16"].iter().map(|n| n.to_string()).collect();
    assert_eq!(distinct_names(&names), vec!["U16".to_string(), "I16".to_string(), "F32".to_string()]);
    assert_eq!(distinct_names(&Vec::new()), Vec::<String>::new());
    let set = vec!["A".to_string(), "B".to_string()];
    assert_eq!(distinct_names(&set), set);
}

#[test]
fn a_name_is_found_only_where_it_is_listed() {
    let names = vec!["I16".to_string(), "F32".to_string()];
    assert!(holds_name(&names, &"F32".to_string()));
    assert!(holds_name(&names, &"I16".to_string()));
    assert!(!holds_name(&names, &"U16".to_string()));
    assert!(!holds_name(&names, &"f32".to_string()));
    assert!(!holds_name(&Vec::new(), &"I16".to_string()));
}

#[test]
fn the_encodings_of_a_snapshot_form_a_set() {
    let info = snapshot_of(&probe("Mic", 2, 48000, &["F32", "F32", "I16", "F32"])).unwrap();
    assert_eq!(info.formats, vec!["F32".to_string(), "I16".to_string()]);
    let report = get_audio_devices(
        &Ok(vec![probe("Mic", 2, 48000, &["I16", "I16"])]),
        &Some(probe("Mic", 2, 48000, &["U16", "I16", "U16"])),
    )
    .unwrap();
    assert_eq!(report.current_device.formats, vec!["U16".to_string(), "I16".to_string()]);
    assert_eq!(report.available_devices[0].formats, vec!["I16".to_string()]);
}

#[test]
fn the_report_lists_devices_and_the_default() {
    let list = Ok(vec![probe("A", 1, 44100, &["I16"]), without_config()]);
    let default_device = Some(probe("A", 1, 44100, &["I16", "F32"]));
    let report = get_audio_devices(&list, &default_device).unwrap();
    assert!(report.success);
    assert!(report.error.is_none());
    assert_eq!(report.device_name, "A");
    assert_eq!(report.current_device.name, "A");
    assert_eq!(report.current_device.channels, 1);
    assert_eq!(report.current_device.sample_rate, 44100);
    assert_eq!(report.current_device.formats, vec!["I16".to_string(), "F32".to_string()]);
    assert_eq!(report.available_devices.len(), 1);
    assert_eq!(report.available_devices[0].name, "A");
}

#[test]
fn a_nameless_default_device_is_reported_as_unknown_device() {
    let report = get_audio_devices(&Ok(vec![]), &Some(nameless())).unwrap();
    assert_eq!(report.device_name, "Unknown Device");
    assert_eq!(report.current_device.name, "Unknown Device");
    assert!(report.available_devices.is_empty());
}

#[test]
fn a_failed_enumeration_comes_before_everything_else() {
    let error = get_audio_devices(&Err("backend down".to_string()), &None).unwrap_err();
    assert!(matches!(&error, DeviceError::Enumeration(text) if text == "backend down"));
    assert_eq!(error.message(), "Failed to get input devices: backend down");
}

#[test]
fn a_missing_default_device_fails_the_report() {
    let error = get_audio_devices(&Ok(vec![probe("A", 1, 44100, &[])]), &None).unwrap_err();
    assert!(matches!(error, DeviceError::NoDefaultDevice));
    assert_eq!(error.message(), "No default input device available.");
}

#[test]
fn the_default_devices_config_failure_fails_the_report() {
    let mut broken = without_config();
    broken.formats = Err("formats failed".to_string());
    let error = get_audio_devices(&Ok(vec![]), &Some(broken)).unwrap_err();
    assert!(matches!(&error, DeviceError::DefaultConfig(text) if text == "config failed"));
    assert_eq!(error.message(), "Failed to get default config: config failed");
}

#[test]
fn the_default_devices_format_failure_fails_the_report() {
    let error = get_audio_devices(&Ok(vec![]), &Some(without_formats())).unwrap_err();
    assert!(matches!(&error, DeviceError::SupportedConfigs(text) if text == "formats failed"));
    assert_eq!(error.message(), "Failed to get supported configs: formats failed");
}

#[test]
fn the_default_snapshot_takes_the_given_fallback_name() {
    let info = default_device_info(&nameless(), "Nobody").unwrap();
    assert_eq!(info.name, "Nobody");
    let named = default_device_info(&probe("Mic", 1, 8000, &[]), "Nobody").unwrap();
    assert_eq!(named.name, "Mic");
}

#[test]
fn the_audio_system_is_ready_with_a_named_default_device() {
    assert!(init_audio_system(&Some(probe("Mic", 1, 8000, &[]))));
    assert!(init_audio_system(&Some(without_config())));
    assert!(!init_audio_system(&Some(nameless())));
    assert!(!init_audio_system(&None));
}
