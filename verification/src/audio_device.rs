//! Audio device descriptions and errors, and the bookkeeping done on the
//! lists of devices that the audio host reports.

use vstd::prelude::*;
use vstd::string::*;
use crate::text::{concat, same_text};

verus! {

broadcast use vstd::string::group_string_axioms;

/// One audio device with its metadata.
#[derive(Clone, Debug)]
pub struct AudioDeviceInfo {
    /// Unique identifier of the device.
    pub id: String,
    /// Human-readable name.
    pub name: String,
    /// Sample rates the device supports (Hz).
    pub sample_rates: Vec<u32>,
    /// Default sample rate (Hz).
    pub default_sample_rate: u32,
    /// Number of channels.
    pub channels: u16,
    /// Whether this is the system default device.
    pub is_default: bool,
}

/// The plain content of an `AudioDeviceInfo`.
pub struct AudioDeviceInfoView {
    pub id: Seq<char>,
    pub name: Seq<char>,
    pub sample_rates: Seq<u32>,
    pub default_sample_rate: u32,
    pub channels: u16,
    pub is_default: bool,
}

impl View for AudioDeviceInfo {
    type V = AudioDeviceInfoView;

    open spec fn view(&self) -> AudioDeviceInfoView {
        AudioDeviceInfoView {
            id: self.id@,
            name: self.name@,
            sample_rates: self.sample_rates@,
            default_sample_rate: self.default_sample_rate,
            channels: self.channels,
            is_default: self.is_default,
        }
    }
}

/// Errors of audio device operations.
#[derive(Debug, Clone)]
pub enum AudioDeviceError {
    NoDevicesFound,
    DeviceNotFound(String),
    UnsupportedFormat,
    StreamCreationFailed(String),
    ConfigurationError(String),
    PipeWireError(String),
}

/// The message of an error, as it is displayed.
pub open spec fn error_message(e: AudioDeviceError) -> Seq<char> {
    match e {
        AudioDeviceError::NoDevicesFound => "No audio devices found"@,
        AudioDeviceError::DeviceNotFound(id) => "Device not found: "@ + id@,
        AudioDeviceError::UnsupportedFormat => "Unsupported sample format"@,
        AudioDeviceError::StreamCreationFailed(m) => "Stream creation failed: "@ + m@,
        AudioDeviceError::ConfigurationError(m) => "Configuration error: "@ + m@,
        AudioDeviceError::PipeWireError(m) => "PipeWire error: "@ + m@,
    }
}

/// The decimal digits of `n`.
pub open spec fn decimal(n: nat) -> Seq<char>
    decreases n,
{
    if n < 10 {
        seq![(48 + n) as char]
    } else {
        decimal(n / 10).push((48 + n % 10) as char)
    }
}

/// The decimal representation of a number.
pub fn decimal_string(n: u32) -> (s: String)
    ensures
        s@ == decimal(n as nat),
    decreases n,
{
    if n < 10 {
        let mut s = String::new();
        crate::text::push_char(&mut s, (48 + n as u8) as char);
        assert(s@ =~= decimal(n as nat));
        s
    } else {
        let mut s = decimal_string(n / 10);
        crate::text::push_char(&mut s, (48 + (n % 10) as u8) as char);
        s
    }
}

impl AudioDeviceError {
    /// The message shown for the error.
    pub fn message(&self) -> (m: String)
        ensures
            m@ == error_message(*self),
    {
        match self {
            AudioDeviceError::NoDevicesFound => "No audio devices found".to_owned(),
            AudioDeviceError::DeviceNotFound(id) => concat("Device not found: ", id.as_str()),
            AudioDeviceError::UnsupportedFormat => "Unsupported sample format".to_owned(),
            AudioDeviceError::StreamCreationFailed(m) => concat(
                "Stream creation failed: ",
                m.as_str(),
            ),
            AudioDeviceError::ConfigurationError(m) => concat("Configuration error: ", m.as_str()),
            AudioDeviceError::PipeWireError(m) => concat("PipeWire error: ", m.as_str()),
        }
    }
}

/// How a device is described in listings: its name, a " (default)" tag
/// for the default device, its channel count and its default rate.
pub open spec fn device_description(d: AudioDeviceInfoView) -> Seq<char> {
    d.name + (if d.is_default {
        " (default)"@
    } else {
        ""@
    }) + " - "@ + decimal(d.channels as nat) + " ch @ "@ + decimal(d.default_sample_rate as nat)
        + " Hz"@
}

impl AudioDeviceInfo {
    /// The one-line description of the device.
    pub fn describe(&self) -> (s: String)
        ensures
            s@ == device_description(self@),
    {
        let tag = if self.is_default {
            " (default)"
        } else {
            ""
        };
        let s = concat(self.name.as_str(), tag);
        let s = concat(s.as_str(), " - ");
        let ch = decimal_string(self.channels as u32);
        let s = concat(s.as_str(), ch.as_str());
        let s = concat(s.as_str(), " ch @ ");
        let rate = decimal_string(self.default_sample_rate);
        let s = concat(s.as_str(), rate.as_str());
        concat(s.as_str(), " Hz")
    }

    /// A copy of the description.
    pub fn duplicate(&self) -> (r: AudioDeviceInfo)
        ensures
            r@ == self@,
    {
        let mut rates: Vec<u32> = Vec::new();
        let mut i: usize = 0;
        while i < self.sample_rates.len()
            invariant
                i <= self.sample_rates@.len(),
                rates@ == self.sample_rates@.subrange(0, i as int),
            decreases self.sample_rates.len() - i,
        {
            rates.push(self.sample_rates[i]);
            i = i + 1;
        }
        assert(rates@ =~= self.sample_rates@);
        AudioDeviceInfo {
            id: self.id.clone(),
            name: self.name.clone(),
            sample_rates: rates,
            default_sample_rate: self.default_sample_rate,
            channels: self.channels,
            is_default: self.is_default,
        }
    }
}

/// Enumerates the audio devices of the host (the enumeration itself talks
/// to the audio host and is done by the application).
pub struct AudioDeviceEnumerator;

/// The views of a list of devices.
pub open spec fn device_views(ds: Seq<AudioDeviceInfo>) -> Seq<AudioDeviceInfoView> {
    ds.map_values(|d: AudioDeviceInfo| d@)
}

/// The devices whose description could be read, in order.
pub open spec fn readable_devices(results: Seq<Result<AudioDeviceInfo, AudioDeviceError>>) -> Seq<
    AudioDeviceInfoView,
>
    decreases results.len(),
{
    if results.len() == 0 {
        Seq::empty()
    } else {
        let rest = readable_devices(results.drop_last());
        match results.last() {
            Ok(d) => rest.push(d@),
            Err(_) => rest,
        }
    }
}

/// Collects the devices whose description could be read; an empty
/// collection is an error.
pub fn collect_devices(results: Vec<Result<AudioDeviceInfo, AudioDeviceError>>) -> (r: Result<
    Vec<AudioDeviceInfo>,
    AudioDeviceError,
>)
    ensures
        readable_devices(results@).len() == 0 ==> r matches Err(AudioDeviceError::NoDevicesFound),
        readable_devices(results@).len() != 0 ==> (r matches Ok(v) && device_views(v@)
            == readable_devices(results@)),
{
    let mut devices: Vec<AudioDeviceInfo> = Vec::new();
    let mut i: usize = 0;
    while i < results.len()
        invariant
            i <= results@.len(),
            device_views(devices@) == readable_devices(results@.subrange(0, i as int)),
        decreases results.len() - i,
    {
        proof {
            assert(results@.subrange(0, i + 1).drop_last() =~= results@.subrange(0, i as int));
        }
        match &results[i] {
            Ok(d) => {
                devices.push(d.duplicate());
                assert(device_views(devices@) =~= readable_devices(results@.subrange(0, i + 1)));
            },
            Err(_) => {
                assert(device_views(devices@) =~= readable_devices(results@.subrange(0, i + 1)));
            },
        }
        i = i + 1;
    }
    assert(results@.subrange(0, results@.len() as int) =~= results@);
    if devices.len() == 0 {
        Err(AudioDeviceError::NoDevicesFound)
    } else {
        Ok(devices)
    }
}

/// Position of the first device with the given id, or the length of the
/// list.
pub open spec fn id_position(ds: Seq<AudioDeviceInfoView>, id: Seq<char>) -> int
    decreases ds.len(),
{
    if ds.len() == 0 {
        0
    } else if ds[0].id == id {
        0
    } else {
        1 + id_position(ds.drop_first(), id)
    }
}

proof fn lemma_id_position_is(ds: Seq<AudioDeviceInfoView>, id: Seq<char>, k: int)
    requires
        0 <= k <= ds.len(),
        k < ds.len() ==> ds[k].id == id,
        forall|j: int| 0 <= j < k ==> ds[j].id != id,
    ensures
        id_position(ds, id) == k,
    decreases ds.len(),
{
    if ds.len() > 0 && k > 0 {
        assert(ds[0].id != id);
        assert forall|j: int| 0 <= j < k - 1 implies ds.drop_first()[j].id != id by {
            assert(ds.drop_first()[j] == ds[j + 1]);
        }
        if k < ds.len() {
            assert(ds.drop_first()[k - 1] == ds[k]);
        }
        lemma_id_position_is(ds.drop_first(), id, k - 1);
    }
}

/// The description of the first device with the given id; a
/// `DeviceNotFound` error naming the id when there is none.
pub fn find_device(devices: &Vec<AudioDeviceInfo>, device_id: &str) -> (r: Result<
    AudioDeviceInfo,
    AudioDeviceError,
>)
    ensures
        ({
            let k = id_position(device_views(devices@), device_id@);
            &&& k < devices@.len() ==> (r matches Ok(d) && d@ == devices@[k]@)
            &&& k == devices@.len() ==> (r matches Err(AudioDeviceError::DeviceNotFound(id))
                && id@ == device_id@)
        }),
{
    let mut i: usize = 0;
    while i < devices.len()
        invariant
            i <= devices@.len(),
            forall|j: int| 0 <= j < i ==> device_views(devices@)[j].id != device_id@,
        decreases devices.len() - i,
    {
        if same_text(devices[i].id.as_str(), device_id) {
            proof {
                lemma_id_position_is(device_views(devices@), device_id@, i as int);
            }
            return Ok(devices[i].duplicate());
        }
        i = i + 1;
    }
    proof {
        lemma_id_position_is(device_views(devices@), device_id@, i as int);
    }
    Err(AudioDeviceError::DeviceNotFound(device_id.to_owned()))
}

/// Whether a device name could be read and equals `device_id`.
pub open spec fn name_matches(name: Option<String>, device_id: Seq<char>) -> bool {
    name matches Some(n) && n@ == device_id
}

/// Position of the first device whose name could be read and equals
/// `device_id`, or the length of the list.
pub open spec fn name_match_position(names: Seq<Option<String>>, device_id: Seq<char>) -> int
    decreases names.len(),
{
    if names.len() == 0 {
        0
    } else if name_matches(names[0], device_id) {
        0
    } else {
        1 + name_match_position(names.drop_first(), device_id)
    }
}

proof fn lemma_name_match_position_is(names: Seq<Option<String>>, device_id: Seq<char>, k: int)
    requires
        0 <= k <= names.len(),
        k < names.len() ==> name_matches(names[k], device_id),
        forall|j: int| 0 <= j < k ==> !#[trigger] name_matches(names[j], device_id),
    ensures
        name_match_position(names, device_id) == k,
    decreases names.len(),
{
    if names.len() > 0 && k > 0 {
        assert forall|j: int| 0 <= j < k - 1 implies !name_matches(names.drop_first()[j], device_id) by {
            assert(names.drop_first()[j] == names[j + 1]);
        }
        if k < names.len() {
            assert(names.drop_first()[k - 1] == names[k]);
        }
        lemma_name_match_position_is(names.drop_first(), device_id, k - 1);
    }
}

/// Which of the host's devices is the one with the given id: the first
/// whose name (where it could be read) equals the id; a `DeviceNotFound`
/// error naming the id when there is none.
pub fn device_index_by_name(names: &Vec<Option<String>>, device_id: &str) -> (r: Result<
    usize,
    AudioDeviceError,
>)
    ensures
        ({
            let k = name_match_position(names@, device_id@);
            &&& k < names@.len() ==> r == Ok::<usize, AudioDeviceError>(k as usize)
            &&& k == names@.len() ==> (r matches Err(AudioDeviceError::DeviceNotFound(id)) && id@
                == device_id@)
        }),
{
    let mut i: usize = 0;
    while i < names.len()
        invariant
            i <= names@.len(),
            forall|j: int| 0 <= j < i ==> !#[trigger] name_matches(names@[j], device_id@),
        decreases names.len() - i,
    {
        if let Some(n) = &names[i] {
            if same_text(n.as_str(), device_id) {
                proof {
                    lemma_name_match_position_is(names@, device_id@, i as int);
                }
                return Ok(i);
            }
        }
        i = i + 1;
    }
    proof {
        lemma_name_match_position_is(names@, device_id@, i as int);
    }
    Err(AudioDeviceError::DeviceNotFound(device_id.to_owned()))
}

/// What the host reports of one output device, read once: its name, where
/// it can be read, and its default output configuration (sample rate and
/// channel count), where it has one.
#[derive(Debug)]
pub struct HostDevice {
    pub name: Option<String>,
    pub default_config: Option<(u32, u16)>,
}

/// The name a device is listed under: its own, or "Unknown" where it
/// cannot be read.
pub open spec fn shown_name(name: Option<String>) -> Seq<char> {
    match name {
        Some(n) => n@,
        None => "Unknown"@,
    }
}

/// The description of a host device, where it has a default configuration:
/// the shown name doubles as the id, the default rate is the one rate
/// listed, and the device is the default one when the default device's
/// name could be read and is the same.
pub open spec fn host_description(d: HostDevice, default_device_name: Option<Option<String>>) -> Option<
    AudioDeviceInfoView,
> {
    match d.default_config {
        Some((rate, channels)) => Some(
            AudioDeviceInfoView {
                id: shown_name(d.name),
                name: shown_name(d.name),
                sample_rates: seq![rate],
                default_sample_rate: rate,
                channels,
                is_default: default_device_name matches Some(Some(n)) && n@ == shown_name(d.name),
            },
        ),
        None => None,
    }
}

/// The descriptions of the host devices that have a default
/// configuration, in order.
pub open spec fn host_descriptions(
    ds: Seq<HostDevice>,
    default_device_name: Option<Option<String>>,
) -> Seq<AudioDeviceInfoView>
    decreases ds.len(),
{
    if ds.len() == 0 {
        Seq::empty()
    } else {
        let rest = host_descriptions(ds.drop_last(), default_device_name);
        match host_description(ds.last(), default_device_name) {
            Some(v) => rest.push(v),
            None => rest,
        }
    }
}

/// Every listed device offers exactly its default rate, and its id is its
/// name.
pub proof fn lemma_host_descriptions_offer_default_rate(
    ds: Seq<HostDevice>,
    default_device_name: Option<Option<String>>,
)
    ensures
        forall|i: int|
            0 <= i < host_descriptions(ds, default_device_name).len() ==> {
                let d = #[trigger] host_descriptions(ds, default_device_name)[i];
                &&& d.sample_rates == seq![d.default_sample_rate]
                &&& d.sample_rates.contains(d.default_sample_rate)
                &&& d.id == d.name
            },
    decreases ds.len(),
{
    if ds.len() > 0 {
        lemma_host_descriptions_offer_default_rate(ds.drop_last(), default_device_name);
        let r = host_descriptions(ds, default_device_name);
        assert forall|i: int| 0 <= i < r.len() implies ({
            let d = #[trigger] r[i];
            &&& d.sample_rates == seq![d.default_sample_rate]
            &&& d.sample_rates.contains(d.default_sample_rate)
            &&& d.id == d.name
        }) by {
            let rest = host_descriptions(ds.drop_last(), default_device_name);
            if i < rest.len() {
                assert(r[i] == rest[i]);
            } else {
                let v = host_description(ds.last(), default_device_name)->0;
                assert(r[i] == v);
            }
            let d = r[i];
            assert(d.sample_rates[0] == d.default_sample_rate);
        }
    }
}

/// Describes a host device from one read of it; a `ConfigurationError`
/// naming the device when it has no default configuration.
pub fn describe_host_device(device: &HostDevice, default_device_name: &Option<Option<String>>) -> (r:
    Result<AudioDeviceInfo, AudioDeviceError>)
    ensures
        match host_description(*device, *default_device_name) {
            Some(v) => r matches Ok(d) && d@ == v,
            None => r matches Err(AudioDeviceError::ConfigurationError(m)) && m@
                == "Could not get config for device: "@ + shown_name(device.name),
        },
{
    let shown = match &device.name {
        Some(n) => n.clone(),
        None => "Unknown".to_owned(),
    };
    match device.default_config {
        None => Err(missing_config_error(shown.as_str())),
        Some((rate, channels)) => {
            let is_default = match default_device_name {
                Some(Some(n)) => same_text(n.as_str(), shown.as_str()),
                _ => false,
            };
            let rates: Vec<u32> = vec![rate];
            let d = AudioDeviceInfo {
                id: shown.clone(),
                name: shown,
                sample_rates: rates,
                default_sample_rate: rate,
                channels,
                is_default,
            };
            assert(d@.sample_rates =~= seq![rate]);
            Ok(d)
        },
    }
}

/// The device list of the host: the devices that have a default
/// configuration, each described from one read; `NoDevicesFound` when
/// there is none. Every listed device offers its default rate.
pub fn devices_from_host(hosts: &Vec<HostDevice>, default_device_name: &Option<Option<String>>) -> (r:
    Result<Vec<AudioDeviceInfo>, AudioDeviceError>)
    ensures
        host_descriptions(hosts@, *default_device_name).len() == 0 ==> r matches Err(
            AudioDeviceError::NoDevicesFound,
        ),
        host_descriptions(hosts@, *default_device_name).len() != 0 ==> (r matches Ok(v)
            && device_views(v@) == host_descriptions(hosts@, *default_device_name)),
        r matches Ok(v) ==> v@.len() > 0 && forall|i: int|
            0 <= i < v@.len() ==> (#[trigger] v@[i])@.sample_rates.contains(
                v@[i]@.default_sample_rate,
            ) && v@[i]@.sample_rates.len() == 1 && v@[i]@.id == v@[i]@.name,
{
    let mut out: Vec<AudioDeviceInfo> = Vec::new();
    let mut i: usize = 0;
    while i < hosts.len()
        invariant
            i <= hosts@.len(),
            device_views(out@) == host_descriptions(hosts@.subrange(0, i as int), *default_device_name),
        decreases hosts.len() - i,
    {
        proof {
            assert(hosts@.subrange(0, i + 1).drop_last() =~= hosts@.subrange(0, i as int));
            assert(hosts@.subrange(0, i + 1).last() == hosts@[i as int]);
        }
        match describe_host_device(&hosts[i], default_device_name) {
            Ok(d) => {
                let ghost before = out@;
                out.push(d);
                assert(device_views(out@) =~= device_views(before).push(d@));
            },
            Err(_) => {},
        }
        i = i + 1;
    }
    assert(hosts@.subrange(0, hosts@.len() as int) =~= hosts@);
    proof {
        lemma_host_descriptions_offer_default_rate(hosts@, *default_device_name);
        assert forall|i: int| 0 <= i < out@.len() implies (#[trigger] out@[i])@.sample_rates.contains(
            out@[i]@.default_sample_rate,
        ) && out@[i]@.sample_rates.len() == 1 && out@[i]@.id == out@[i]@.name by {
            assert(device_views(out@)[i] == out@[i]@);
        }
    }
    if out.len() == 0 {
        Err(AudioDeviceError::NoDevicesFound)
    } else {
        Ok(out)
    }
}

/// The host's default device, described from one read: `NoDevicesFound`
/// when the host has no default device. It is marked default whenever its
/// name can be read.
pub fn default_device_from_host(device: Option<HostDevice>) -> (r: Result<
    AudioDeviceInfo,
    AudioDeviceError,
>)
    ensures
        device is None ==> r matches Err(AudioDeviceError::NoDevicesFound),
        device matches Some(d) ==> match host_description(d, Some(d.name)) {
            Some(v) => r matches Ok(info) && info@ == v,
            None => r matches Err(AudioDeviceError::ConfigurationError(m)) && m@
                == "Could not get config for device: "@ + shown_name(d.name),
        },
        device matches Some(d) ==> (r matches Ok(info) ==> info@.is_default == d.name is Some
            && info@.sample_rates == seq![info@.default_sample_rate] && info@.id == info@.name),
{
    match device {
        None => Err(AudioDeviceError::NoDevicesFound),
        Some(d) => {
            let own_name: Option<Option<String>> = Some(d.name.clone());
            describe_host_device(&d, &own_name)
        },
    }
}

/// One supported stream configuration range of a device.
#[derive(Clone, Copy, Debug)]
pub struct SupportedRange {
    pub channels: u16,
    pub min_sample_rate: u32,
    pub max_sample_rate: u32,
}

/// The common sample rates probed when a device reports no default
/// configuration.
pub open spec fn common_rates() -> Seq<u32> {
    seq![8000, 11025, 16000, 22050, 32000, 44100, 48000, 88200, 96000, 176400, 192000]
}

/// Whether some stereo range of `ranges` covers `rate`.
pub open spec fn stereo_supports(ranges: Seq<SupportedRange>, rate: u32) -> bool {
    exists|i: int|
        0 <= i < ranges.len() && #[trigger] ranges[i].channels == 2 && ranges[i].min_sample_rate
            <= rate && rate <= ranges[i].max_sample_rate
}

fn common_rate(k: usize) -> (r: u32)
    requires
        k < 11,
    ensures
        r == common_rates()[k as int],
{
    match k {
        0 => 8000,
        1 => 11025,
        2 => 16000,
        3 => 22050,
        4 => 32000,
        5 => 44100,
        6 => 48000,
        7 => 88200,
        8 => 96000,
        9 => 176400,
        _ => 192000,
    }
}

fn any_stereo_range_covers(ranges: &Vec<SupportedRange>, rate: u32) -> (r: bool)
    ensures
        r == stereo_supports(ranges@, rate),
{
    let mut i: usize = 0;
    while i < ranges.len()
        invariant
            i <= ranges@.len(),
            forall|j: int|
                0 <= j < i ==> !(#[trigger] ranges@[j].channels == 2 && ranges@[j].min_sample_rate
                    <= rate && rate <= ranges@[j].max_sample_rate),
        decreases ranges.len() - i,
    {
        let c = ranges[i];
        if c.channels == 2 && c.min_sample_rate <= rate && rate <= c.max_sample_rate {
            return true;
        }
        i = i + 1;
    }
    false
}

/// The common rates that some stereo configuration range of the device
/// covers, in increasing order.
pub fn supported_common_rates(ranges: &Vec<SupportedRange>) -> (r: Vec<u32>)
    ensures
        r@ == common_rates().filter(|rate: u32| stereo_supports(ranges@, rate)),
{
    let ghost pred = |rate: u32| stereo_supports(ranges@, rate);
    let mut r: Vec<u32> = Vec::new();
    let mut k: usize = 0;
    while k < 11
        invariant
            k <= 11,
            pred == (|rate: u32| stereo_supports(ranges@, rate)),
            r@ == common_rates().subrange(0, k as int).filter(pred),
        decreases 11 - k,
    {
        let rate = common_rate(k);
        proof {
            assert(common_rates().subrange(0, k + 1).drop_last() =~= common_rates().subrange(
                0,
                k as int,
            ));
            reveal_with_fuel(Seq::<u32>::filter, 1);
        }
        if any_stereo_range_covers(ranges, rate) {
            r.push(rate);
        }
        k = k + 1;
    }
    assert(common_rates().subrange(0, 11) =~= common_rates());
    r
}

/// The sample rates listed for a device: its default rate alone when the
/// device reports a default configuration, otherwise the common rates that
/// one of its stereo ranges covers.
pub fn device_sample_rates(default_rate: Option<u32>, ranges: &Vec<SupportedRange>) -> (r: Vec<u32>)
    ensures
        default_rate matches Some(rate) ==> r@ == seq![rate],
        default_rate is None ==> r@ == common_rates().filter(|rate: u32| stereo_supports(ranges@, rate)),
{
    match default_rate {
        Some(rate) => {
            let v: Vec<u32> = vec![rate];
            assert(v@ =~= seq![rate]);
            v
        },
        None => supported_common_rates(ranges),
    }
}

/// The error for a device whose default configuration cannot be read.
pub fn missing_config_error(name: &str) -> (e: AudioDeviceError)
    ensures
        e matches AudioDeviceError::ConfigurationError(m) && m@ == "Could not get config for device: "@
            + name@,
{
    AudioDeviceError::ConfigurationError(concat("Could not get config for device: ", name))
}

} // verus!
