//! What the host found out about the capture devices, and the report that
//! is made of it.
//!
//! The host queries the devices and hands over what each query returned. A
//! device other than the default one that fails a query is left out of the
//! list; a failure of the default device fails the report.

use vstd::prelude::*;
use vstd::string::*;
use crate::config::StreamParams;
use crate::text::joined;

verus! {

/// The name reported for a default device that does not tell its own.
pub open spec fn unknown_device() -> Seq<char> {
    "Unknown Device"@
}

/// A snapshot of one capture device.
#[derive(Debug)]
pub struct AudioDeviceInfo {
    pub name: String,
    pub channels: u16,
    pub sample_rate: u32,
    /// The names of the sample encodings the device supports.
    pub formats: Vec<String>,
}

/// The mathematical content of an `AudioDeviceInfo`.
pub struct DeviceInfoModel {
    pub name: Seq<char>,
    pub channels: u16,
    pub sample_rate: u32,
    pub formats: Seq<Seq<char>>,
}

/// The texts of a list of strings, in order.
pub open spec fn texts(list: Seq<String>) -> Seq<Seq<char>> {
    Seq::new(list.len(), |i: int| list[i]@)
}

impl View for AudioDeviceInfo {
    type V = DeviceInfoModel;

    open spec fn view(&self) -> DeviceInfoModel {
        DeviceInfoModel {
            name: self.name@,
            channels: self.channels,
            sample_rate: self.sample_rate,
            formats: texts(self.formats@),
        }
    }
}

/// The snapshots of a list of devices, in order.
pub open spec fn snapshots(list: Seq<AudioDeviceInfo>) -> Seq<DeviceInfoModel> {
    Seq::new(list.len(), |i: int| list[i]@)
}

/// What the queries on one device returned. Each failed query carries the
/// driver's message.
#[derive(Debug)]
pub struct DeviceProbe {
    pub name: Result<String, String>,
    pub default_config: Result<StreamParams, String>,
    pub formats: Result<Vec<String>, String>,
}

/// The mathematical content of a `DeviceProbe`.
pub struct ProbeModel {
    pub name: Result<Seq<char>, Seq<char>>,
    pub default_config: Result<StreamParams, Seq<char>>,
    pub formats: Result<Seq<Seq<char>>, Seq<char>>,
}

impl View for DeviceProbe {
    type V = ProbeModel;

    open spec fn view(&self) -> ProbeModel {
        ProbeModel {
            name: match self.name {
                Ok(name) => Ok(name@),
                Err(message) => Err(message@),
            },
            default_config: match self.default_config {
                Ok(params) => Ok(params),
                Err(message) => Err(message@),
            },
            formats: match self.formats {
                Ok(list) => Ok(texts(list@)),
                Err(message) => Err(message@),
            },
        }
    }
}

/// The contents of a list of probes, in order.
pub open spec fn probes(list: Seq<DeviceProbe>) -> Seq<ProbeModel> {
    Seq::new(list.len(), |i: int| list[i]@)
}

/// The report on the capture devices.
#[derive(Debug)]
pub struct AudioConfigResponse {
    pub success: bool,
    /// The name of the default device.
    pub device_name: String,
    /// Every device that answered all queries, in the order of enumeration.
    pub available_devices: Vec<AudioDeviceInfo>,
    /// The default device with its default configuration.
    pub current_device: AudioDeviceInfo,
    pub error: Option<String>,
}

/// The mathematical content of an `AudioConfigResponse`.
pub struct ReportModel {
    pub success: bool,
    pub device_name: Seq<char>,
    pub available_devices: Seq<DeviceInfoModel>,
    pub current_device: DeviceInfoModel,
    pub error: Option<Seq<char>>,
}

impl View for AudioConfigResponse {
    type V = ReportModel;

    open spec fn view(&self) -> ReportModel {
        ReportModel {
            success: self.success,
            device_name: self.device_name@,
            available_devices: snapshots(self.available_devices@),
            current_device: self.current_device@,
            error: match self.error {
                Some(message) => Some(message@),
                None => None,
            },
        }
    }
}

/// Why no report could be made. Each text is the driver's own message.
#[derive(Debug)]
pub enum DeviceError {
    /// The devices could not be enumerated.
    Enumeration(String),
    /// The host has no default input device.
    NoDefaultDevice,
    /// The default device did not report its default configuration.
    DefaultConfig(String),
    /// The default device did not report its supported configurations.
    SupportedConfigs(String),
    /// The device in use did not report its configuration.
    DeviceConfig(String),
    /// The device in use did not report its supported input configurations.
    SupportedInputConfigs(String),
}

/// The mathematical content of a `DeviceError`.
pub enum DeviceErrorModel {
    Enumeration(Seq<char>),
    NoDefaultDevice,
    DefaultConfig(Seq<char>),
    SupportedConfigs(Seq<char>),
    DeviceConfig(Seq<char>),
    SupportedInputConfigs(Seq<char>),
}

impl View for DeviceError {
    type V = DeviceErrorModel;

    open spec fn view(&self) -> DeviceErrorModel {
        match self {
            DeviceError::Enumeration(message) => DeviceErrorModel::Enumeration(message@),
            DeviceError::NoDefaultDevice => DeviceErrorModel::NoDefaultDevice,
            DeviceError::DefaultConfig(message) => DeviceErrorModel::DefaultConfig(message@),
            DeviceError::SupportedConfigs(message) => DeviceErrorModel::SupportedConfigs(message@),
            DeviceError::DeviceConfig(message) => DeviceErrorModel::DeviceConfig(message@),
            DeviceError::SupportedInputConfigs(message) => DeviceErrorModel::SupportedInputConfigs(
                message@,
            ),
        }
    }
}

/// A list of names without its repetitions: each name once, in the order
/// of first appearance.
pub open spec fn distinct(list: Seq<Seq<char>>) -> Seq<Seq<char>>
    decreases list.len(),
{
    if list.len() == 0 {
        Seq::empty()
    } else {
        let before = distinct(list.drop_last());
        if before.contains(list.last()) {
            before
        } else {
            before.push(list.last())
        }
    }
}

/// The snapshot of a device that answered every query; none for a device
/// that failed one. The encodings form a set: each is named once.
pub open spec fn usable(probe: ProbeModel) -> Option<DeviceInfoModel> {
    match (probe.name, probe.default_config, probe.formats) {
        (Ok(name), Ok(params), Ok(formats)) => Some(
            DeviceInfoModel {
                name,
                channels: params.channels,
                sample_rate: params.sample_rate,
                formats: distinct(formats),
            },
        ),
        _ => None,
    }
}

/// The snapshots of the devices that answered every query, in the order of
/// the probes.
pub open spec fn available(list: Seq<ProbeModel>) -> Seq<DeviceInfoModel>
    decreases list.len(),
{
    if list.len() == 0 {
        Seq::empty()
    } else {
        match usable(list.last()) {
            Some(info) => available(list.drop_last()).push(info),
            None => available(list.drop_last()),
        }
    }
}

/// The name under which the default device is reported.
pub open spec fn reported_name(probe: ProbeModel, fallback: Seq<char>) -> Seq<char> {
    match probe.name {
        Ok(name) => name,
        Err(_) => fallback,
    }
}

/// The snapshot of the default device, or the failure of its first failed
/// query: the default configuration is asked before the supported ones.
pub open spec fn default_snapshot(probe: ProbeModel, fallback: Seq<char>) -> Result<
    DeviceInfoModel,
    DeviceErrorModel,
> {
    match probe.default_config {
        Err(message) => Err(DeviceErrorModel::DefaultConfig(message)),
        Ok(params) => match probe.formats {
            Err(message) => Err(DeviceErrorModel::SupportedConfigs(message)),
            Ok(formats) => Ok(
                DeviceInfoModel {
                    name: reported_name(probe, fallback),
                    channels: params.channels,
                    sample_rate: params.sample_rate,
                    formats: distinct(formats),
                },
            ),
        },
    }
}

/// The report, or why there is none. A failed enumeration comes first, then
/// a missing default device, then the default device's own failures.
pub open spec fn report(
    enumerated: Result<Seq<ProbeModel>, Seq<char>>,
    default_device: Option<ProbeModel>,
) -> Result<ReportModel, DeviceErrorModel> {
    match enumerated {
        Err(message) => Err(DeviceErrorModel::Enumeration(message)),
        Ok(list) => match default_device {
            None => Err(DeviceErrorModel::NoDefaultDevice),
            Some(probe) => match default_snapshot(probe, unknown_device()) {
                Err(error) => Err(error),
                Ok(current) => Ok(
                    ReportModel {
                        success: true,
                        device_name: current.name,
                        available_devices: available(list),
                        current_device: current,
                        error: None,
                    },
                ),
            },
        },
    }
}

/// Whether a list of names holds the given name.
pub fn holds_name(list: &Vec<String>, name: &String) -> (found: bool)
    ensures
        found == texts(list@).contains(name@),
{
    let mut at: usize = 0;
    while at < list.len()
        invariant
            at <= list.len(),
            forall|i: int| 0 <= i < at ==> texts(list@)[i] != name@,
        decreases list.len() - at,
    {
        if list[at] == *name {
            assert(texts(list@)[at as int] == name@);
            return true;
        }
        at = at + 1;
    }
    false
}

/// Copies a list of names, each name once, in the order of first
/// appearance.
pub fn distinct_names(list: &Vec<String>) -> (out: Vec<String>)
    ensures
        texts(out@) == distinct(texts(list@)),
{
    let mut out: Vec<String> = Vec::new();
    let mut at: usize = 0;
    assert(texts(list@).take(0) =~= Seq::<Seq<char>>::empty());
    assert(texts(out@) =~= distinct(texts(list@).take(0)));
    while at < list.len()
        invariant
            at <= list.len(),
            texts(out@) == distinct(texts(list@).take(at as int)),
        decreases list.len() - at,
    {
        let ghost before = texts(list@).take(at as int);
        let ghost after = texts(list@).take(at + 1);
        let ghost kept = texts(out@);
        assert(after.drop_last() =~= before);
        assert(after.last() == list@[at as int]@);
        if !holds_name(&out, &list[at]) {
            out.push(list[at].clone());
            assert(texts(out@) =~= kept.push(list@[at as int]@));
        }
        at = at + 1;
    }
    assert(texts(list@).take(at as int) =~= texts(list@));
    out
}

/// The snapshot of a device that answered every query.
pub fn snapshot_of(probe: &DeviceProbe) -> (info: Option<AudioDeviceInfo>)
    ensures
        match usable(probe@) {
            Some(model) => info is Some && info->Some_0@ == model,
            None => info is None,
        },
{
    match (&probe.name, &probe.default_config, &probe.formats) {
        (Ok(name), Ok(params), Ok(formats)) => Some(
            AudioDeviceInfo {
                name: name.clone(),
                channels: params.channels,
                sample_rate: params.sample_rate,
                formats: distinct_names(formats),
            },
        ),
        _ => None,
    }
}

/// The snapshots of the devices that answered every query, in order.
pub fn available_devices(list: &Vec<DeviceProbe>) -> (out: Vec<AudioDeviceInfo>)
    ensures
        snapshots(out@) == available(probes(list@)),
{
    let mut out: Vec<AudioDeviceInfo> = Vec::new();
    let mut at: usize = 0;
    assert(probes(list@).take(0) =~= Seq::<ProbeModel>::empty());
    assert(snapshots(out@) =~= available(probes(list@).take(0)));
    while at < list.len()
        invariant
            at <= list.len(),
            snapshots(out@) == available(probes(list@).take(at as int)),
        decreases list.len() - at,
    {
        let ghost before = probes(list@).take(at as int);
        let ghost after = probes(list@).take(at + 1);
        let ghost kept = snapshots(out@);
        assert(after.drop_last() =~= before);
        assert(after.last() == list@[at as int]@);
        match snapshot_of(&list[at]) {
            Some(info) => {
                out.push(info);
                assert(snapshots(out@) =~= kept.push(info@));
            },
            None => {},
        }
        at = at + 1;
    }
    assert(probes(list@).take(at as int) =~= probes(list@));
    out
}

/// The snapshot of the default device, under the fallback name where the
/// device does not tell its own.
pub fn default_device_info(probe: &DeviceProbe, fallback: &str) -> (r: Result<
    AudioDeviceInfo,
    DeviceError,
>)
    ensures
        match default_snapshot(probe@, fallback@) {
            Ok(model) => r is Ok && r->Ok_0@ == model,
            Err(error) => r is Err && r->Err_0@ == error,
        },
{
    let params = match &probe.default_config {
        Err(message) => {
            return Err(DeviceError::DefaultConfig(message.clone()));
        },
        Ok(params) => *params,
    };
    let formats = match &probe.formats {
        Err(message) => {
            return Err(DeviceError::SupportedConfigs(message.clone()));
        },
        Ok(formats) => distinct_names(formats),
    };
    let name = match &probe.name {
        Ok(name) => name.clone(),
        Err(_) => String::from_str(fallback),
    };
    Ok(AudioDeviceInfo { name, channels: params.channels, sample_rate: params.sample_rate, formats })
}

/// Lists the capture devices: every device that answered all queries, and
/// the default device with its default configuration and the encodings it
/// supports.
pub fn get_audio_devices(
    enumerated: &Result<Vec<DeviceProbe>, String>,
    default_device: &Option<DeviceProbe>,
) -> (r: Result<AudioConfigResponse, DeviceError>)
    ensures
        match report(
            match enumerated {
                Ok(list) => Ok(probes(list@)),
                Err(message) => Err(message@),
            },
            match default_device {
                Some(probe) => Some(probe@),
                None => None,
            },
        ) {
            Ok(model) => r is Ok && r->Ok_0@ == model,
            Err(error) => r is Err && r->Err_0@ == error,
        },
{
    let list = match enumerated {
        Err(message) => {
            return Err(DeviceError::Enumeration(message.clone()));
        },
        Ok(list) => list,
    };
    let probe = match default_device {
        None => {
            return Err(DeviceError::NoDefaultDevice);
        },
        Some(probe) => probe,
    };
    let current = match default_device_info(probe, "Unknown Device") {
        Err(error) => {
            return Err(error);
        },
        Ok(current) => current,
    };
    let available_devices = available_devices(list);
    Ok(
        AudioConfigResponse {
            success: true,
            device_name: current.name.clone(),
            available_devices,
            current_device: current,
            error: None,
        },
    )
}

/// Whether the audio system is ready: there is a default input device, and
/// it tells its name.
pub fn init_audio_system(default_device: &Option<DeviceProbe>) -> (ready: bool)
    ensures
        ready == (default_device matches Some(probe) && probe.name is Ok),
{
    match default_device {
        Some(probe) => probe.name.is_ok(),
        None => false,
    }
}

/// A device that fails a query is left out, and every other device is
/// listed: the list is never longer than the probes, and it has every probe
/// where no query failed.
pub proof fn lemma_available_skips_failures(list: Seq<ProbeModel>)
    ensures
        available(list).len() <= list.len(),
        (forall|i: int| 0 <= i < list.len() ==> usable(#[trigger] list[i]) is Some)
            ==> available(list).len() == list.len(),
        (forall|i: int| 0 <= i < list.len() ==> usable(#[trigger] list[i]) is None)
            ==> available(list).len() == 0,
    decreases list.len(),
{
    if list.len() > 0 {
        lemma_available_skips_failures(list.drop_last());
        assert(forall|i: int|
            0 <= i < list.drop_last().len() ==> list.drop_last()[i] == list[i]);
    }
}

/// Every listed device comes from a probe that answered all queries.
pub proof fn lemma_available_come_from_probes(list: Seq<ProbeModel>, k: int)
    requires
        0 <= k < available(list).len(),
    ensures
        exists|i: int| 0 <= i < list.len() && usable(#[trigger] list[i]) == Some(available(list)[k]),
    decreases list.len(),
{
    if list.len() > 0 {
        let rest = list.drop_last();
        if k < available(rest).len() {
            lemma_available_come_from_probes(rest, k);
            let i = choose|i: int| 0 <= i < rest.len() && usable(#[trigger] rest[i]) == Some(available(rest)[k]);
            assert(list[i] == rest[i]);
        } else {
            assert(usable(list[list.len() - 1]) == Some(available(list)[k]));
        }
    }
}

/// The message of a device error: what failed, then the driver's message.
pub open spec fn device_message(error: DeviceErrorModel) -> Seq<char> {
    match error {
        DeviceErrorModel::Enumeration(detail) => "Failed to get input devices: "@ + detail,
        DeviceErrorModel::NoDefaultDevice => "No default input device available."@,
        DeviceErrorModel::DefaultConfig(detail) => "Failed to get default config: "@ + detail,
        DeviceErrorModel::SupportedConfigs(detail) => "Failed to get supported configs: "@ + detail,
        DeviceErrorModel::DeviceConfig(detail) => "Failed to get device config: "@ + detail,
        DeviceErrorModel::SupportedInputConfigs(detail) => "Failed to get supported input configs: "@
            + detail,
    }
}

impl DeviceError {
    /// The message shown to the caller of a command.
    pub fn message(&self) -> (text: String)
        ensures
            text@ == device_message(self@),
    {
        match self {
            DeviceError::Enumeration(detail) => joined(
                "Failed to get input devices: ",
                detail.as_str(),
            ),
            DeviceError::NoDefaultDevice => String::from_str("No default input device available."),
            DeviceError::DefaultConfig(detail) => joined(
                "Failed to get default config: ",
                detail.as_str(),
            ),
            DeviceError::SupportedConfigs(detail) => joined(
                "Failed to get supported configs: ",
                detail.as_str(),
            ),
            DeviceError::DeviceConfig(detail) => joined(
                "Failed to get device config: ",
                detail.as_str(),
            ),
            DeviceError::SupportedInputConfigs(detail) => joined(
                "Failed to get supported input configs: ",
                detail.as_str(),
            ),
        }
    }
}

/// No name appears twice in a list without repetitions.
pub proof fn lemma_distinct_has_no_repetition(list: Seq<Seq<char>>)
    ensures
        forall|i: int, j: int|
            0 <= i < j < distinct(list).len() ==> distinct(list)[i] != distinct(list)[j],
        distinct(list).len() <= list.len(),
    decreases list.len(),
{
    if list.len() > 0 {
        lemma_distinct_has_no_repetition(list.drop_last());
    }
}

/// A list without repetitions names what the list names, no more and no
/// less.
pub proof fn lemma_distinct_keeps_the_names(list: Seq<Seq<char>>, name: Seq<char>)
    ensures
        distinct(list).contains(name) <==> list.contains(name),
    decreases list.len(),
{
    if list.len() > 0 {
        let rest = list.drop_last();
        let before = distinct(rest);
        lemma_distinct_keeps_the_names(rest, name);
        if list.contains(name) {
            let i = choose|i: int| 0 <= i < list.len() && list[i] == name;
            if i < list.len() - 1 {
                assert(rest[i] == name);
                assert(rest.contains(name));
            }
        }
        if rest.contains(name) {
            let i = choose|i: int| 0 <= i < rest.len() && rest[i] == name;
            assert(list[i] == name);
        }
        if before.contains(list.last()) {
        } else {
            let grown = before.push(list.last());
            assert(grown[before.len() as int] == list.last());
            if before.contains(name) {
                let i = choose|i: int| 0 <= i < before.len() && before[i] == name;
                assert(grown[i] == name);
            }
            if grown.contains(name) {
                let i = choose|i: int| 0 <= i < grown.len() && grown[i] == name;
                if i < before.len() {
                    assert(before[i] == name);
                }
            }
        }
        assert(list[list.len() - 1] == list.last());
    }
}

/// A list that has no repetition is kept as it is.
pub proof fn lemma_distinct_keeps_a_set(list: Seq<Seq<char>>)
    requires
        forall|i: int, j: int| 0 <= i < j < list.len() ==> list[i] != list[j],
    ensures
        distinct(list) == list,
    decreases list.len(),
{
    if list.len() > 0 {
        let rest = list.drop_last();
        lemma_distinct_keeps_a_set(rest);
        if rest.contains(list.last()) {
            let i = choose|i: int| 0 <= i < rest.len() && rest[i] == list.last();
            assert(list[i] == list[list.len() - 1]);
        }
        assert(rest.push(list.last()) =~= list);
    } else {
        assert(distinct(list) =~= list);
    }
}

} // verus!
