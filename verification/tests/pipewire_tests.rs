use beanal::audio_device::AudioDeviceError;
use beanal::pipewire::{
    capture_target, default_device_info, device_info_for_selection, device_list, is_default_selection,
    registry_lookup_step, sort_sources, source_from_node, source_to_device_info, synthetic_info_for_id,
    target_from_lookup, with_negotiated_format, PipewireSource, ResolvedTarget, SourceType,
    DEFAULT_CHANNELS, DEFAULT_DEVICE_ID, DEFAULT_RATE,
};

fn src(name: &str, desc: &str, source_type: SourceType) -> PipewireSource {
    PipewireSource {
        node_name: name.to_string(),
        description: desc.to_string(),
        source_type,
    }
}

#[test]
fn display_name_tags_monitors_and_inputs_distinctly() {
    let mon = src("alsa_output.foo", "Foo Card", SourceType::Monitor);
    let inp = src("alsa_input.foo", "Foo Card", SourceType::Input);
    assert_eq!(mon.display_name(), "Foo Card (Output Monitor)");
    assert_eq!(inp.display_name(), "Foo Card (Input)");
}

#[test]
fn source_to_device_info_preserves_node_name_as_id() {
    let s = src("alsa_output.bar.analog-stereo", "Bar Sink", SourceType::Monitor);
    let info = source_to_device_info(s);
    assert_eq!(info.id, "alsa_output.bar.analog-stereo");
    assert_eq!(info.name, "Bar Sink (Output Monitor)");
    assert!(!info.is_default);
    assert_eq!(info.channels, DEFAULT_CHANNELS as u16);
    assert_eq!(info.default_sample_rate, DEFAULT_RATE);
}

#[test]
fn synthetic_info_for_id_round_trips_node_name() {
    let info = synthetic_info_for_id("alsa_output.usb-foo.analog-stereo");
    assert_eq!(info.id, "alsa_output.usb-foo.analog-stereo");
    assert_eq!(info.name, "alsa_output.usb-foo.analog-stereo");
    assert!(!info.is_default);
}

#[test]
fn default_device_info_uses_sentinel_id() {
    let info = default_device_info();
    assert_eq!(info.id, DEFAULT_DEVICE_ID);
    assert!(info.is_default);
}

#[test]
fn sources_sort_monitors_first_then_alphabetical() {
    let entries = vec![
        src("alsa_input.b", "Bravo Mic", SourceType::Input),
        src("alsa_output.a", "Alpha Sink", SourceType::Monitor),
        src("alsa_input.a", "Alpha Mic", SourceType::Input),
        src("alsa_output.b", "Bravo Sink", SourceType::Monitor),
    ];
    let entries = sort_sources(entries);
    let order: Vec<&str> = entries.iter().map(|s| s.description.as_str()).collect();
    assert_eq!(order, vec!["Alpha Sink", "Bravo Sink", "Alpha Mic", "Bravo Mic"]);
}

#[test]
fn sort_keeps_discovery_order_of_equal_sources() {
    let entries = vec![
        src("second.a", "Same", SourceType::Input),
        src("first.m", "Zed", SourceType::Monitor),
        src("second.b", "Same", SourceType::Input),
        src("third", "Same", SourceType::Monitor),
    ];
    let sorted = sort_sources(entries);
    let names: Vec<&str> = sorted.iter().map(|s| s.node_name.as_str()).collect();
    assert_eq!(names, vec!["third", "first.m", "second.a", "second.b"]);
}

#[test]
fn sort_orders_descriptions_by_bytes() {
    let entries = vec![
        src("a", "beta", SourceType::Input),
        src("b", "Beta", SourceType::Input),
        src("c", "Béta", SourceType::Input),
        src("d", "Bet", SourceType::Input),
        src("e", "", SourceType::Input),
    ];
    let sorted = sort_sources(entries);
    let order: Vec<&str> = sorted.iter().map(|s| s.description.as_str()).collect();
    assert_eq!(order, vec!["", "Bet", "Beta", "Béta", "beta"]);
}

#[test]
fn sort_of_nothing_is_nothing() {
    assert!(sort_sources(Vec::new()).is_empty());
}

#[test]
fn device_list_is_sorted_and_labelled() {
    let entries = vec![
        src("alsa_input.mic", "Mic", SourceType::Input),
        src("alsa_output.hdmi", "HDMI", SourceType::Monitor),
    ];
    let list = device_list(entries);
    assert_eq!(list.len(), 2);
    assert_eq!(list[0].id, "alsa_output.hdmi");
    assert_eq!(list[0].name, "HDMI (Output Monitor)");
    assert_eq!(list[1].id, "alsa_input.mic");
    assert_eq!(list[1].name, "Mic (Input)");
    assert_eq!(list[1].sample_rates, vec![48000]);
}

#[test]
fn registry_nodes_become_sources() {
    let s = source_from_node(true, Some("Audio/Source"), Some("alsa_output.x.monitor"), Some("X"))
        .unwrap();
    assert_eq!(s.source_type, SourceType::Monitor);
    assert_eq!(s.description, "X");
    let s = source_from_node(true, Some("Audio/Source"), Some("alsa_input.mic"), None).unwrap();
    assert_eq!(s.source_type, SourceType::Input);
    assert_eq!(s.description, "alsa_input.mic");
    let s = source_from_node(true, Some("Audio/Sink"), Some("alsa_output.y"), Some("Y")).unwrap();
    assert_eq!(s.source_type, SourceType::Monitor);
    assert_eq!(s.node_name, "alsa_output.y");
    assert!(source_from_node(true, Some("Video/Source"), Some("cam"), None).is_none());
    assert!(source_from_node(false, Some("Audio/Sink"), Some("x"), None).is_none());
    assert!(source_from_node(true, None, Some("x"), None).is_none());
    assert!(source_from_node(true, Some("Audio/Sink"), None, None).is_none());
}

#[test]
fn selection_of_default_and_named_devices() {
    assert!(is_default_selection("Default"));
    assert!(!is_default_selection("default"));
    let d = device_info_for_selection("Default");
    assert_eq!(d.name, "System Audio (Default Output)");
    assert!(d.is_default);
    let d = device_info_for_selection("alsa_input.mic");
    assert_eq!(d.name, "alsa_input.mic");
    assert!(!d.is_default);
}

#[test]
fn negotiated_format_replaces_rate_and_channels() {
    let d = with_negotiated_format(default_device_info(), 44100, 65538);
    assert_eq!(d.default_sample_rate, 44100);
    assert_eq!(d.channels, 2);
    assert_eq!(d.sample_rates, vec![48000]);
}

#[test]
fn registry_lookup_finds_kind_of_target() {
    let f = registry_lookup_step(None, true, Some("sink1"), Some("Audio/Sink"), "sink1");
    assert_eq!(f, Some(true));
    let f = registry_lookup_step(f, true, Some("other"), Some("Audio/Source"), "sink1");
    assert_eq!(f, Some(true));
    let f = registry_lookup_step(None, true, Some("mic"), Some("Audio/Source"), "mic");
    assert_eq!(f, Some(false));
    assert_eq!(registry_lookup_step(None, false, Some("mic"), Some("Audio/Source"), "mic"), None);
    assert_eq!(registry_lookup_step(Some(false), true, Some("mic"), Some("Midi/Bridge"), "mic"), Some(false));
}

#[test]
fn lookup_results_become_targets() {
    match target_from_lookup("sink1", Some(true)).unwrap() {
        ResolvedTarget::SinkMonitor { node_name } => assert_eq!(node_name, "sink1"),
        other => panic!("unexpected {:?}", other),
    }
    match target_from_lookup("mic", Some(false)).unwrap() {
        ResolvedTarget::Source { node_name } => assert_eq!(node_name, "mic"),
        other => panic!("unexpected {:?}", other),
    }
    match target_from_lookup("ghost", None) {
        Err(AudioDeviceError::PipeWireError(m)) => {
            assert_eq!(m, "node 'ghost' not present in registry")
        }
        other => panic!("unexpected {:?}", other),
    }
}

#[test]
fn stream_properties_follow_target() {
    let t = ResolvedTarget::DefaultSink.stream_target();
    assert!(t.capture_sink);
    assert!(t.target_object.is_none());
    let t = ResolvedTarget::SinkMonitor { node_name: "s".to_string() }.stream_target();
    assert!(t.capture_sink);
    assert_eq!(t.target_object.as_deref(), Some("s"));
    let t = ResolvedTarget::Source { node_name: "m".to_string() }.stream_target();
    assert!(!t.capture_sink);
    assert_eq!(t.target_object.as_deref(), Some("m"));
}

#[test]
fn capture_target_falls_back_to_default_sink() {
    let t = capture_target("Default", Ok(ResolvedTarget::Source { node_name: "m".to_string() }));
    assert!(matches!(t, ResolvedTarget::DefaultSink));
    let t = capture_target("mic", Err(AudioDeviceError::NoDevicesFound));
    assert!(matches!(t, ResolvedTarget::DefaultSink));
    let t = capture_target("mic", Ok(ResolvedTarget::Source { node_name: "mic".to_string() }));
    assert!(matches!(t, ResolvedTarget::Source { .. }));
}

#[test]
fn sorting_twice_changes_nothing() {
    let entries = vec![
        src("b", "Zeta", SourceType::Input),
        src("a", "Alpha", SourceType::Monitor),
        src("c", "Alpha", SourceType::Input),
        src("d", "Alpha", SourceType::Input),
    ];
    let once = sort_sources(entries);
    let names_once: Vec<String> = once.iter().map(|s| s.node_name.clone()).collect();
    let twice = sort_sources(once);
    let names_twice: Vec<String> = twice.iter().map(|s| s.node_name.clone()).collect();
    assert_eq!(names_once, names_twice);
    assert_eq!(names_once, vec!["a", "c", "d", "b"]);
}
