use beanal::audio_device::{
    collect_devices, default_device_from_host, describe_host_device, device_index_by_name, device_sample_rates,
    devices_from_host, find_device, HostDevice,
    missing_config_error, supported_common_rates,
    AudioDeviceError, AudioDeviceInfo, SupportedRange,
};
use beanal::capture_control::{device_names, switch_target, take_requests, CaptureRequests};

fn dev(id: &str, default: bool) -> AudioDeviceInfo {
    AudioDeviceInfo {
        id: id.to_string(),
        name: id.to_string(),
        sample_rates: vec![44100, 48000],
        default_sample_rate: 48000,
        channels: 2,
        is_default: default,
    }
}

#[test]
fn device_description_lists_format() {
    assert_eq!(dev("Speakers", true).describe(), "Speakers (default) - 2 ch @ 48000 Hz");
    assert_eq!(dev("USB", false).describe(), "USB - 2 ch @ 48000 Hz");
}

#[test]
fn error_messages() {
    assert_eq!(AudioDeviceError::NoDevicesFound.message(), "No audio devices found");
    assert_eq!(AudioDeviceError::DeviceNotFound("x".to_string()).message(), "Device not found: x");
    assert_eq!(AudioDeviceError::UnsupportedFormat.message(), "Unsupported sample format");
    assert_eq!(AudioDeviceError::StreamCreationFailed("s".to_string()).message(), "Stream creation failed: s");
    assert_eq!(AudioDeviceError::ConfigurationError("c".to_string()).message(), "Configuration error: c");
    assert_eq!(AudioDeviceError::PipeWireError("p".to_string()).message(), "PipeWire error: p");
}

#[test]
fn unreadable_devices_are_skipped() {
    let r = collect_devices(vec![Err(AudioDeviceError::UnsupportedFormat), Ok(dev("A", false))]).unwrap();
    assert_eq!(r.len(), 1);
    assert_eq!(r[0].id, "A");
    assert!(matches!(collect_devices(vec![Err(AudioDeviceError::UnsupportedFormat)]), Err(AudioDeviceError::NoDevicesFound)));
    assert!(matches!(collect_devices(Vec::new()), Err(AudioDeviceError::NoDevicesFound)));
}

#[test]
fn devices_are_found_by_id() {
    let list = vec![dev("A", false), dev("B", true)];
    assert_eq!(find_device(&list, "B").unwrap().id, "B");
    match find_device(&list, "C") {
        Err(AudioDeviceError::DeviceNotFound(id)) => assert_eq!(id, "C"),
        other => panic!("unexpected {:?}", other),
    }
    let names = vec![None, Some("A".to_string()), Some("B".to_string())];
    assert_eq!(device_index_by_name(&names, "B").unwrap(), 2);
    assert!(device_index_by_name(&names, "Z").is_err());
}

fn host(name: Option<&str>, config: Option<(u32, u16)>) -> HostDevice {
    HostDevice { name: name.map(|n| n.to_string()), default_config: config }
}

#[test]
fn host_devices_are_described() {
    let d = describe_host_device(&host(None, Some((44100, 2))), &Some(Some("Unknown".to_string()))).unwrap();
    assert_eq!(d.name, "Unknown");
    assert_eq!(d.id, "Unknown");
    assert!(d.is_default);
    assert_eq!(d.sample_rates, vec![44100]);
    assert_eq!(d.default_sample_rate, 44100);
    assert_eq!(d.channels, 2);
    let d = describe_host_device(&host(Some("Mic"), Some((48000, 1))), &Some(None)).unwrap();
    assert!(!d.is_default);
    match describe_host_device(&host(Some("USB"), None), &None) {
        Err(AudioDeviceError::ConfigurationError(m)) => assert_eq!(m, "Could not get config for device: USB"),
        other => panic!("unexpected {:?}", other),
    }
}

#[test]
fn host_device_list_offers_default_rates() {
    let hosts = vec![
        host(Some("A"), Some((48000, 2))),
        host(Some("B"), None),
        host(Some("C"), Some((44100, 6))),
    ];
    let list = devices_from_host(&hosts, &Some(Some("C".to_string()))).unwrap();
    assert_eq!(list.len(), 2);
    for d in &list {
        assert!(d.sample_rates.contains(&d.default_sample_rate));
        assert_eq!(d.id, d.name);
    }
    assert!(!list[0].is_default);
    assert!(list[1].is_default);
    assert!(matches!(devices_from_host(&vec![host(Some("B"), None)], &None), Err(AudioDeviceError::NoDevicesFound)));
    assert!(matches!(devices_from_host(&Vec::new(), &None), Err(AudioDeviceError::NoDevicesFound)));
}

#[test]
fn default_device_is_marked_default() {
    let d = default_device_from_host(Some(host(Some("Speakers"), Some((48000, 2))))).unwrap();
    assert!(d.is_default);
    assert_eq!(d.sample_rates, vec![d.default_sample_rate]);
    let d = default_device_from_host(Some(host(None, Some((48000, 2))))).unwrap();
    assert!(!d.is_default);
    assert!(matches!(default_device_from_host(None), Err(AudioDeviceError::NoDevicesFound)));
    assert!(matches!(default_device_from_host(Some(host(Some("X"), None))), Err(AudioDeviceError::ConfigurationError(_))));
}

#[test]
fn common_rates_follow_stereo_ranges() {
    let ranges = vec![
        SupportedRange { channels: 2, min_sample_rate: 40000, max_sample_rate: 50000 },
        SupportedRange { channels: 1, min_sample_rate: 8000, max_sample_rate: 192000 },
    ];
    assert_eq!(supported_common_rates(&ranges), vec![44100, 48000]);
    assert!(supported_common_rates(&Vec::new()).is_empty());
}

#[test]
fn requests_are_taken_once() {
    let mut r = CaptureRequests {
        refresh_devices_requested: true,
        device_changed: true,
        selected_device: "Mic".to_string(),
    };
    let t = take_requests(&mut r);
    assert!(t.refresh);
    assert_eq!(t.new_device.as_deref(), Some("Mic"));
    let t = take_requests(&mut r);
    assert!(!t.refresh);
    assert!(t.new_device.is_none());
    assert_eq!(r.selected_device, "Mic");
}

#[test]
fn default_switch_resolves_to_host_default() {
    assert_eq!(switch_target("Default", Some("hw:0".to_string())).unwrap(), "hw:0");
    match switch_target("Default", None) {
        Err(AudioDeviceError::DeviceNotFound(n)) => assert_eq!(n, "Default"),
        other => panic!("unexpected {:?}", other),
    }
    assert_eq!(switch_target("Mic", None).unwrap(), "Mic");
}

#[test]
fn names_are_listed_in_order() {
    let names = device_names(&vec![dev("A", false), dev("B", false)]);
    assert_eq!(names, vec!["A".to_string(), "B".to_string()]);
}

#[test]
fn sample_rates_prefer_default_configuration() {

    let ranges = vec![SupportedRange { channels: 2, min_sample_rate: 8000, max_sample_rate: 16000 }];
    assert_eq!(device_sample_rates(Some(44100), &ranges), vec![44100]);
    assert_eq!(device_sample_rates(None, &ranges), vec![8000, 11025, 16000]);
    match missing_config_error("USB") {
        AudioDeviceError::ConfigurationError(m) => assert_eq!(m, "Could not get config for device: USB"),
        other => panic!("unexpected {:?}", other),
    }
}

#[test]
fn selecting_a_device_reaches_the_capture_loop() {
    let mut r = CaptureRequests {
        refresh_devices_requested: false,
        device_changed: false,
        selected_device: "Default".to_string(),
    };
    r.select_device("USB".to_string());
    r.request_refresh();
    let t = take_requests(&mut r);
    assert!(t.refresh);
    assert_eq!(t.new_device.as_deref(), Some("USB"));
    assert_eq!(r.selected_device, "USB");
}
