use tone_meter::device_manager::DeviceManager;
use tone_meter::devices::{channel_labels, CurrentDevice, DeviceList};
use tone_meter::errors::LocalError;
use tone_meter::events::EventType;
use tone_meter::level_meter::{LevelMeter, StreamCommand};
use tone_meter::tone_generator::{
    ToneGenerator, ToneParameters, Waveform, DEFAULT_REFERENCE_FREQUENCY_MILLIHERTZ,
    DEFAULT_REFERENCE_LEVEL,
};

fn stereo_and_mono_snapshot() -> DeviceList {
    DeviceList {
        devices: vec!["Stereo Out".to_string(), "Mono Out".to_string()],
        channels: vec![channel_labels(2), channel_labels(1)],
    }
}

fn default_parameters() -> ToneParameters {
    ToneParameters {
        frequency_millihertz: DEFAULT_REFERENCE_FREQUENCY_MILLIHERTZ,
        level: DEFAULT_REFERENCE_LEVEL,
        waveform: Waveform::Sine,
    }
}

fn stereo_selection() -> CurrentDevice {
    CurrentDevice {
        index: 0,
        name: "Stereo Out".to_string(),
        left_channel: "1".to_string(),
        right_channel: Some("2".to_string()),
    }
}

#[test]
fn channel_labels_render_one_based_decimal_names() {
    let labels = channel_labels(64);
    assert_eq!(labels.len(), 64);
    assert_eq!(labels[0], "1");
    assert_eq!(labels[9], "10");
    assert_eq!(labels[63], "64");
}

#[test]
fn new_tone_generator_resolves_the_configured_channels() {
    let (engine, request) =
        ToneGenerator::new(stereo_and_mono_snapshot(), stereo_selection(), default_parameters())
            .unwrap();
    assert!(!engine.playing);
    assert_eq!(request.device_name, "Stereo Out");
    assert_eq!(request.left_index, 0);
    assert_eq!(request.right_index, Some(1));
}

#[test]
fn switching_to_a_device_with_fewer_channels_rederives_the_channel_pair() {
    let (mut engine, _) =
        ToneGenerator::new(stereo_and_mono_snapshot(), stereo_selection(), default_parameters())
            .unwrap();
    let request = engine.update_current_output_device(1, "Mono Out".to_string()).unwrap();
    assert_eq!(request.device_name, "Mono Out");
    assert_eq!(request.left_index, 0);
    assert_eq!(request.right_index, None);
    let current = engine.get_current_output_device();
    assert_eq!(current.left_channel, "1");
    assert_eq!(current.right_channel, None);
}

#[test]
fn unparsable_channel_label_is_reported_and_stored() {
    let (mut engine, _) =
        ToneGenerator::new(stereo_and_mono_snapshot(), stereo_selection(), default_parameters())
            .unwrap();
    let error = engine
        .set_output_channel_on_ui_callback("left".to_string(), None)
        .unwrap_err();
    assert_eq!(
        error,
        LocalError::ChannelIndex("invalid digit found in string".to_string())
    );
    assert_eq!(engine.get_current_output_device().left_channel, "left");
}

#[test]
fn start_and_stop_are_idempotent() {
    let (mut engine, _) =
        ToneGenerator::new(stereo_and_mono_snapshot(), stereo_selection(), default_parameters())
            .unwrap();
    assert_eq!(engine.start(), StreamCommand::Play);
    assert_eq!(engine.start(), StreamCommand::NoAction);
    assert_eq!(engine.stop(), StreamCommand::Pause);
    assert_eq!(engine.stop(), StreamCommand::NoAction);
}

#[test]
fn frequency_and_level_events_update_the_parameter_store() {
    let (mut engine, _) =
        ToneGenerator::new(stereo_and_mono_snapshot(), stereo_selection(), default_parameters())
            .unwrap();
    engine.handle_event(&EventType::ToneFrequencyUpdate(440_000)).unwrap();
    engine.handle_event(&EventType::ToneLevelUpdate(-12)).unwrap();
    engine.handle_event(&EventType::ToneModeUpdate(false)).unwrap();
    let parameters = engine.get_reference_tone_parameters();
    assert_eq!(parameters.frequency_millihertz, 440_000);
    assert_eq!(parameters.level, -12);
    assert_eq!(parameters.waveform, Waveform::Square);
}

#[test]
fn level_update_reports_whether_the_gain_must_be_recomputed() {
    let mut parameters = default_parameters();
    assert!(parameters.apply_update(&EventType::ToneLevelUpdate(-12)));
    assert!(!parameters.apply_update(&EventType::ToneLevelUpdate(-12)));
    assert!(!parameters.apply_update(&EventType::ToneFrequencyUpdate(440_000)));
}

#[test]
fn resetting_to_the_default_device_falls_back_by_name() {
    let (mut engine, _) =
        ToneGenerator::new(stereo_and_mono_snapshot(), stereo_selection(), default_parameters())
            .unwrap();
    let (current, request) = engine
        .reset_to_default_output_device("Mono Out".to_string(), &channel_labels(1))
        .unwrap();
    assert_eq!(current.index, 1);
    assert_eq!(current.name, "Mono Out");
    assert_eq!(request.left_index, 0);
    assert_eq!(request.right_index, None);
}

#[test]
fn default_device_data_is_derived_from_the_device_itself() {
    let names = vec!["Stereo Out".to_string(), "Mono Out".to_string()];
    let device = tone_meter::tone_generator::get_default_device_data_from_output_device(
        "Mono Out".to_string(),
        &names,
        &channel_labels(1),
    );
    assert_eq!(device.index, 1);
    assert_eq!(device.left_channel, "1");
    assert_eq!(device.right_channel, None);
    let absent = tone_meter::tone_generator::get_default_device_data_from_output_device(
        "Gone".to_string(),
        &names,
        &channel_labels(2),
    );
    assert_eq!(absent.index, 0);
    assert_eq!(absent.right_channel, Some("2".to_string()));
}

#[test]
fn meter_start_without_a_stream_does_nothing() {
    let mut meter = LevelMeter::new();
    assert_eq!(meter.handle_event(&EventType::Start).unwrap(), StreamCommand::NoAction);
}

#[test]
fn meter_device_update_resolves_and_rebinds() {
    let mut meter = LevelMeter::new();
    let command = meter
        .handle_event(&EventType::MeterDeviceUpdate {
            name: "Mic In".to_string(),
            left: "1".to_string(),
            right: Some("2".to_string()),
        })
        .unwrap();
    match command {
        StreamCommand::Rebuild(request) => {
            assert_eq!(request.device_name, "Mic In");
            assert_eq!(request.left_index, 0);
            assert_eq!(request.right_index, Some(1));
        }
        _ => panic!("expected a rebuild command"),
    }
    assert_eq!(meter.handle_event(&EventType::Start).unwrap(), StreamCommand::Play);
    assert_eq!(meter.handle_event(&EventType::Stop).unwrap(), StreamCommand::Pause);
}

#[test]
fn meter_channel_update_rebinds_against_the_stored_device() {
    let mut meter = LevelMeter::new();
    meter
        .handle_event(&EventType::MeterDeviceUpdate {
            name: "Mic In".to_string(),
            left: "1".to_string(),
            right: Some("2".to_string()),
        })
        .unwrap();
    let command = meter
        .handle_event(&EventType::InputChannelUpdate {
            left: "2".to_string(),
            right: None,
        })
        .unwrap();
    match command {
        StreamCommand::Rebuild(request) => {
            assert_eq!(request.device_name, "Mic In");
            assert_eq!(request.left_index, 1);
            assert_eq!(request.right_index, None);
        }
        _ => panic!("expected a rebuild command"),
    }
}

#[test]
fn meter_device_update_with_bad_label_is_reported() {
    let mut meter = LevelMeter::new();
    let error = meter
        .handle_event(&EventType::MeterDeviceUpdate {
            name: "Mic In".to_string(),
            left: "abc".to_string(),
            right: None,
        })
        .unwrap_err();
    assert_eq!(
        error,
        LocalError::ChannelIndex("invalid digit found in string".to_string())
    );
    assert_eq!(meter.handle_event(&EventType::Start).unwrap(), StreamCommand::NoAction);
}

#[test]
fn device_manager_reports_which_snapshots_changed() {
    let mut manager = DeviceManager::new(
        stereo_and_mono_snapshot(),
        stereo_and_mono_snapshot(),
        CurrentDevice::default(),
        CurrentDevice::default(),
    );
    let unchanged = manager.update_device_lists(stereo_and_mono_snapshot(), stereo_and_mono_snapshot());
    assert_eq!(unchanged, (false, false));
    let fresh_output = DeviceList {
        devices: vec!["Stereo Out".to_string()],
        channels: vec![channel_labels(2)],
    };
    let changed = manager.update_device_lists(stereo_and_mono_snapshot(), fresh_output);
    assert_eq!(changed, (false, true));
    assert_eq!(manager.get_output_devices().devices, vec!["Stereo Out".to_string()]);
}

#[test]
fn error_messages_render_their_wrapped_detail() {
    assert_eq!(
        LocalError::DeviceNotFound("USB Audio".to_string()).message(),
        "Device USB Audio no longer exists"
    );
    assert_eq!(
        LocalError::ChannelIndex("invalid digit found in string".to_string()).message(),
        "Failed to generate channel index: invalid digit found in string"
    );
    assert_eq!(
        LocalError::NoDefaultOutputDevice.message(),
        "No Default Output Audio Devices"
    );
}

#[test]
fn decimal_rendering_matches_the_standard_one() {
    assert_eq!(tone_meter::digits::u64_to_string(0), "0");
    assert_eq!(tone_meter::digits::u64_to_string(10), "10");
    assert_eq!(tone_meter::digits::u64_to_string(48000), "48000");
    assert_eq!(tone_meter::digits::u64_to_string(u64::MAX), u64::MAX.to_string());
}
