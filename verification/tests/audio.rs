use accord_voice::audio::{
    build_input_stream, build_output_stream, frame_size, list_devices, opus_supports,
    plan_pipeline, resolve_input_device, resolve_output_device, select_best_config,
    select_input_stream_config, select_output_stream_config, AudioDeviceInfo, AudioDeviceList,
    AudioDeviceSelection, AudioPipeline, ConfigRange, DeviceChoice, EncodedFrame, SampleFormat,
    StreamConfig,
};
use accord_voice::ring::{offer, take};
use accord_voice::VoiceError;

fn range(channels: u16, min: u32, max: u32, format: SampleFormat) -> ConfigRange {
    ConfigRange {
        channels,
        min_sample_rate: min,
        max_sample_rate: max,
        sample_format: format,
    }
}

fn config(rate: u32, format: SampleFormat) -> StreamConfig {
    StreamConfig { channels: 2, sample_rate: rate, sample_format: format }
}

fn names(list: &[&str]) -> Vec<Option<String>> {
    list.iter()
        .map(|name| if name.is_empty() { None } else { Some(name.to_string()) })
        .collect()
}

#[test]
fn error_messages() {
    let text = || "x".to_string();
    assert_eq!(VoiceError::Io(text()).message(), "I/O error: x");
    assert_eq!(VoiceError::Opus(text()).message(), "Opus error: x");
    assert_eq!(VoiceError::Audio(text()).message(), "Audio error: x");
    assert_eq!(VoiceError::Ticket(text()).message(), "Ticket error: x");
    assert_eq!(VoiceError::ChannelClosed.message(), "Channel closed");
    assert_eq!(VoiceError::InvalidState(text()).message(), "Invalid state: x");
    assert_eq!(VoiceError::Other(text()).message(), "x");
}

#[test]
fn opus_rates() {
    for rate in [48_000u32, 24_000, 16_000, 12_000, 8_000] {
        assert!(opus_supports(rate));
    }
    for rate in [0u32, 7_999, 44_100, 48_001, 96_000] {
        assert!(!opus_supports(rate));
    }
}

#[test]
fn best_config_takes_the_highest_opus_rate() {
    let ranges = vec![
        range(1, 8_000, 16_000, SampleFormat::F32),
        range(2, 8_000, 96_000, SampleFormat::I16),
        range(6, 44_100, 44_100, SampleFormat::F32),
    ];
    assert_eq!(
        select_best_config(&ranges),
        Ok(StreamConfig { channels: 2, sample_rate: 48_000, sample_format: SampleFormat::I16 })
    );
}

#[test]
fn best_config_prefers_floats_then_the_first() {
    let ranges = vec![
        range(1, 48_000, 48_000, SampleFormat::U16),
        range(2, 48_000, 48_000, SampleFormat::F32),
        range(3, 48_000, 48_000, SampleFormat::F32),
        range(4, 48_000, 48_000, SampleFormat::I16),
    ];
    assert_eq!(
        select_best_config(&ranges),
        Ok(StreamConfig { channels: 2, sample_rate: 48_000, sample_format: SampleFormat::F32 })
    );
    let integers = vec![
        range(1, 16_000, 16_000, SampleFormat::U16),
        range(2, 16_000, 16_000, SampleFormat::I16),
    ];
    assert_eq!(
        select_best_config(&integers),
        Ok(StreamConfig { channels: 1, sample_rate: 16_000, sample_format: SampleFormat::U16 })
    );
}

#[test]
fn best_config_needs_channels_and_an_opus_rate() {
    let none = Err(VoiceError::Audio("No compatible audio configuration".to_string()));
    assert_eq!(select_best_config(&vec![]), none);
    let ranges = vec![
        range(0, 8_000, 96_000, SampleFormat::F32),
        range(2, 44_100, 44_100, SampleFormat::F32),
        range(2, 24_001, 47_999, SampleFormat::F32),
    ];
    assert_eq!(select_best_config(&ranges), none);
}

#[test]
fn stream_configs_need_a_listing() {
    let listing = Some(vec![range(1, 12_000, 12_000, SampleFormat::Other)]);
    let chosen =
        StreamConfig { channels: 1, sample_rate: 12_000, sample_format: SampleFormat::Other };
    assert_eq!(select_input_stream_config(&listing), Ok(chosen));
    assert_eq!(select_output_stream_config(&listing), Ok(chosen));
    assert_eq!(
        select_input_stream_config(&None),
        Err(VoiceError::Other("No supported input configs".to_string()))
    );
    assert_eq!(
        select_output_stream_config(&None),
        Err(VoiceError::Other("No supported output configs".to_string()))
    );
}

#[test]
fn frame_sizes() {
    assert_eq!(frame_size(48_000), 960);
    assert_eq!(frame_size(8_000), 160);
    assert_eq!(frame_size(44_100), 882);
}

#[test]
fn pipeline_is_planned() {
    let stream = config(24_000, SampleFormat::I16);
    let plan = plan_pipeline(&stream, &stream, Some("Mic".to_string()), None).ok().unwrap();
    assert_eq!(plan.frame_size, 480);
    assert_eq!(plan.device_info.input_name, "Mic");
    assert_eq!(plan.device_info.output_name, "Output");
    assert_eq!(plan.device_info.sample_rate, 24_000);
    assert_eq!(plan.device_info.channels, 1);
    let unnamed = plan_pipeline(&stream, &stream, None, Some("Out".to_string())).ok().unwrap();
    assert_eq!(unnamed.device_info.input_name, "Input");
    assert_eq!(unnamed.device_info.output_name, "Out");
}

#[test]
fn pipeline_refuses_rates() {
    let a = config(48_000, SampleFormat::F32);
    let b = config(16_000, SampleFormat::F32);
    assert_eq!(
        plan_pipeline(&a, &b, None, None).err(),
        Some(VoiceError::Audio("Input/output sample rates must match in this build".to_string()))
    );
    let c = config(44_100, SampleFormat::F32);
    assert_eq!(
        plan_pipeline(&c, &c, None, None).err(),
        Some(VoiceError::Audio("Unsupported sample rate for Opus: 44100".to_string()))
    );
    let d = config(0, SampleFormat::F32);
    assert_eq!(
        plan_pipeline(&d, &d, None, None).err(),
        Some(VoiceError::Audio("Unsupported sample rate for Opus: 0".to_string()))
    );
}

#[test]
fn input_stream_parts() {
    let mut parts = build_input_stream(&config(8_000, SampleFormat::U16)).ok().unwrap();
    assert_eq!(parts.channels, 2);
    for i in 0..16_000u32 {
        assert!(offer(&mut parts.producer, (i % 1000) as i16));
    }
    assert!(!offer(&mut parts.producer, 7));
    assert_eq!(take(&mut parts.consumer), Some(0));
    assert_eq!(take(&mut parts.consumer), Some(1));
    assert!(offer(&mut parts.producer, 7));
    assert_eq!(
        build_input_stream(&config(8_000, SampleFormat::Other)).err(),
        Some(VoiceError::Audio("Unsupported input sample format".to_string()))
    );
}

#[test]
fn output_stream_parts() {
    let mut parts = build_output_stream(&config(48_000, SampleFormat::F32)).ok().unwrap();
    assert_eq!(parts.channels, 2);
    assert_eq!(parts.min_samples, 5_760);
    assert_eq!(take(&mut parts.consumer), None);
    assert!(offer(&mut parts.producer, -5));
    assert_eq!(take(&mut parts.consumer), Some(-5));
    assert_eq!(take(&mut parts.consumer), None);
    assert_eq!(
        build_output_stream(&config(48_000, SampleFormat::Other)).err(),
        Some(VoiceError::Audio("Unsupported output sample format".to_string()))
    );
}

#[test]
fn devices_are_listed_by_name() {
    let inputs = Some(names(&["Mic", "", "Line"]));
    let outputs = Some(names(&["", "Speaker"]));
    let list = list_devices(&inputs, &outputs).ok().unwrap();
    assert_eq!(list.inputs, vec!["Mic".to_string(), "Line".to_string()]);
    assert_eq!(list.outputs, vec!["Speaker".to_string()]);
    assert_eq!(
        list_devices(&None, &None).err(),
        Some(VoiceError::Other("Failed to enumerate input devices".to_string()))
    );
    assert_eq!(
        list_devices(&inputs, &None).err(),
        Some(VoiceError::Other("Failed to enumerate output devices".to_string()))
    );
}

#[test]
fn devices_are_resolved() {
    let list = names(&["A", "", "B", "B"]);
    let b = Some("B".to_string());
    let missing = Some("C".to_string());
    assert_eq!(resolve_input_device(&b, &list, false), Ok(DeviceChoice::Listed(2)));
    assert_eq!(resolve_output_device(&b, &list, true), Ok(DeviceChoice::Listed(2)));
    assert_eq!(resolve_input_device(&missing, &list, true), Ok(DeviceChoice::Default));
    assert_eq!(resolve_output_device(&None, &list, true), Ok(DeviceChoice::Default));
    assert_eq!(
        resolve_input_device(&missing, &list, false),
        Err(VoiceError::Audio("No input device available".to_string()))
    );
    assert_eq!(
        resolve_output_device(&None, &vec![], false),
        Err(VoiceError::Audio("No output device available".to_string()))
    );
}

#[test]
fn outgoing_frames_are_taken_once() {
    let info = AudioDeviceInfo {
        input_name: "Mic".to_string(),
        output_name: "Speaker".to_string(),
        sample_rate: 48_000,
        channels: 1,
    };
    let mut pipeline = AudioPipeline::new(11u8, "in".to_string(), 3u64, info);
    assert_eq!(pipeline.take_outgoing(), Ok(11));
    assert_eq!(
        pipeline.take_outgoing(),
        Err(VoiceError::InvalidState("Outgoing audio already taken".to_string()))
    );
    assert_eq!(pipeline.incoming_sender(), "in");
    assert_eq!(pipeline.mute_handle(), 3);
    let shown = pipeline.device_info();
    assert_eq!(shown.input_name, "Mic");
    assert_eq!(shown.output_name, "Speaker");
    assert_eq!(shown.sample_rate, 48_000);
    assert_eq!(shown.channels, 1);
}

#[test]
fn defaults_and_copies() {
    let none = AudioDeviceSelection::default();
    assert_eq!(none.input, None);
    assert_eq!(none.output, None);
    let chosen = AudioDeviceSelection { input: Some("a".to_string()), output: None };
    assert_eq!(chosen.clone().input, Some("a".to_string()));
    assert_eq!(chosen.clone().output, None);
    let empty = AudioDeviceList::default();
    assert!(empty.inputs.is_empty() && empty.outputs.is_empty());
    let list = AudioDeviceList { inputs: vec!["a".to_string()], outputs: vec![] };
    assert_eq!(list.clone().inputs, vec!["a".to_string()]);
    let frame = EncodedFrame { payload: vec![1, 2], timestamp: 9 };
    assert_eq!(frame.clone(), frame);
}
