//! The decisions of the audio capture loop: which requests of the
//! interface it takes in a cycle, which device a change request switches
//! to, and what the interface lists as devices.
//!
//! The loop itself (waiting for audio, locking the shared state, starting
//! and stopping streams) is run by the application.

use vstd::prelude::*;
use crate::audio_device::{AudioDeviceError, AudioDeviceInfo, device_views};
use crate::text::same_text;

verus! {

broadcast use vstd::string::group_string_axioms;

/// The requests that the interface leaves for the capture loop.
#[derive(Debug)]
pub struct CaptureRequests {
    /// A rescan of the devices was asked for.
    pub refresh_devices_requested: bool,
    /// The selected device was changed.
    pub device_changed: bool,
    /// The device currently selected in the configuration.
    pub selected_device: String,
}

/// What the capture loop takes from the requests in one cycle.
#[derive(Debug)]
pub struct TakenRequests {
    /// Whether to rescan the devices.
    pub refresh: bool,
    /// The device to switch to, if the selection changed.
    pub new_device: Option<String>,
}

/// Takes the pending requests and clears their flags: a rescan when one
/// was asked for, and the selected device when the selection changed.
/// The selection itself is left as it is.
pub fn take_requests(requests: &mut CaptureRequests) -> (t: TakenRequests)
    ensures
        t.refresh == old(requests).refresh_devices_requested,
        old(requests).device_changed ==> (t.new_device matches Some(d) && d@ == old(
            requests,
        ).selected_device@),
        !old(requests).device_changed ==> t.new_device is None,
        !final(requests).refresh_devices_requested,
        !final(requests).device_changed,
        final(requests).selected_device == old(requests).selected_device,
{
    let refresh = requests.refresh_devices_requested;
    let new_device = if requests.device_changed {
        Some(requests.selected_device.clone())
    } else {
        None
    };
    requests.refresh_devices_requested = false;
    requests.device_changed = false;
    TakenRequests { refresh, new_device }
}

/// The device id that a change request switches the capture to: for the
/// "Default" request the id of the host's default device (an error naming
/// "Default" when there is none), otherwise the requested id itself.
pub fn switch_target(requested: &str, default_device_id: Option<String>) -> (r: Result<
    String,
    AudioDeviceError,
>)
    ensures
        requested@ == "Default"@ ==> match default_device_id {
            Some(id) => r matches Ok(s) && s@ == id@,
            None => r matches Err(AudioDeviceError::DeviceNotFound(n)) && n@ == "Default"@,
        },
        requested@ != "Default"@ ==> (r matches Ok(s) && s@ == requested@),
{
    if same_text(requested, "Default") {
        match default_device_id {
            Some(id) => Ok(id),
            None => Err(AudioDeviceError::DeviceNotFound("Default".to_owned())),
        }
    } else {
        Ok(requested.to_owned())
    }
}

/// The names the interface lists for a list of devices, in order.
pub fn device_names(devices: &Vec<AudioDeviceInfo>) -> (names: Vec<String>)
    ensures
        names@.len() == devices@.len(),
        forall|i: int| 0 <= i < names@.len() ==> #[trigger] names@[i]@ == device_views(devices@)[i].name,
{
    let mut names: Vec<String> = Vec::new();
    let mut i: usize = 0;
    while i < devices.len()
        invariant
            i <= devices@.len(),
            names@.len() == i,
            forall|j: int| 0 <= j < i ==> #[trigger] names@[j]@ == devices@[j].name@,
        decreases devices.len() - i,
    {
        names.push(devices[i].name.clone());
        i = i + 1;
    }
    names
}

} // verus!
