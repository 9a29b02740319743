use audio_engine::config::{
    BufferBounds, BufferSize, CapabilityRange, DeviceInfo, EngineError, StreamConfig,
};
use audio_engine::settings::AudioEngineSettings;

fn device(name: &str, default_rate: u32, max_channels: u16, ranges: Vec<CapabilityRange>) -> DeviceInfo {
    DeviceInfo {
        name: name.to_owned(),
        default_config: StreamConfig {
            channels: max_channels,
            sample_rate: default_rate,
            buffer_size: BufferSize::DeviceDefault,
        },
        capabilities: ranges,
    }
}

fn stereo_range(min_rate: u32, max_rate: u32, bounds: BufferBounds) -> CapabilityRange {
    CapabilityRange {
        channels: 2,
        min_sample_rate: min_rate,
        max_sample_rate: max_rate,
        buffer_bounds: bounds,
    }
}

fn simple_settings() -> AudioEngineSettings {
    let input = device("mic", 44100, 2, vec![stereo_range(44100, 48000, BufferBounds::Unknown)]);
    let output = device("speakers", 44100, 2, vec![stereo_range(22050, 48000, BufferBounds::Unknown)]);
    AudioEngineSettings::new(input, output, 2, 2)
}

#[test]
fn new_settings_start_from_device_defaults() {
    let s = simple_settings();
    assert_eq!(s.sample_rate, 44100);
    assert_eq!(s.input_config.sample_rate, 44100);
    assert_eq!(s.output_config.sample_rate, 44100);
    assert_eq!(s.input_config.channels, 2);
    assert_eq!(s.output_config.channels, 2);
    assert_eq!(s.buffer_size, BufferSize::DeviceDefault);
}

#[test]
fn new_settings_clamp_invalid_channel_requests() {
    let input = device("mic", 48000, 2, Vec::new());
    let output = device("speakers", 48000, 8, Vec::new());
    let s = AudioEngineSettings::new(input, output, 6, 0);
    assert_eq!(s.input_config.channels, 2);
    assert_eq!(s.output_config.channels, 1);
    assert_eq!(s.num_input_channels, 2);
    assert_eq!(s.num_output_channels, 8);
}

#[test]
fn update_sample_rate_commits_to_both_directions() {
    let mut s = simple_settings();
    assert!(s.update_sample_rate(48000).is_ok());
    assert_eq!(s.sample_rate, 48000);
    assert_eq!(s.input_config.sample_rate, 48000);
    assert_eq!(s.output_config.sample_rate, 48000);
}

#[test]
fn rejected_sample_rate_leaves_both_directions_unchanged() {
    let input = device("mic", 44100, 2, vec![stereo_range(44100, 96000, BufferBounds::Unknown)]);
    let output = device("speakers", 44100, 2, vec![stereo_range(22050, 44100, BufferBounds::Unknown)]);
    let mut s = AudioEngineSettings::new(input, output, 2, 2);
    let r = s.update_sample_rate(48000);
    assert_eq!(r, Err(EngineError::UnsupportedConfigRequest));
    assert_eq!(s.sample_rate, 44100);
    assert_eq!(s.input_config.sample_rate, 44100);
    assert_eq!(s.output_config.sample_rate, 44100);
}

#[test]
fn zero_sample_rate_is_rejected() {
    let input = device("mic", 44100, 2, vec![stereo_range(0, 48000, BufferBounds::Unknown)]);
    let output = device("speakers", 44100, 2, vec![stereo_range(0, 48000, BufferBounds::Unknown)]);
    let mut s = AudioEngineSettings::new(input, output, 2, 2);
    assert_eq!(s.update_sample_rate(0), Err(EngineError::UnsupportedConfigRequest));
    assert_eq!(s.sample_rate, 44100);
}

#[test]
fn update_buffer_size_commits_to_both_directions() {
    let mut s = simple_settings();
    assert!(s.update_buffer_size(512).is_ok());
    assert_eq!(s.buffer_size, BufferSize::Fixed(512));
    assert_eq!(s.input_config.buffer_size, BufferSize::Fixed(512));
    assert_eq!(s.output_config.buffer_size, BufferSize::Fixed(512));
}

#[test]
fn rejected_buffer_size_leaves_settings_unchanged() {
    let bounds = BufferBounds::Bounded { min: 64, max: 1024 };
    let input = device("mic", 44100, 2, vec![stereo_range(44100, 48000, bounds)]);
    let output = device("speakers", 44100, 2, vec![stereo_range(44100, 48000, bounds)]);
    let mut s = AudioEngineSettings::new(input, output, 2, 2);
    assert_eq!(s.update_buffer_size(4096), Err(EngineError::UnsupportedConfigRequest));
    assert_eq!(s.buffer_size, BufferSize::DeviceDefault);
    assert_eq!(s.input_config.buffer_size, BufferSize::DeviceDefault);
    assert_eq!(s.output_config.buffer_size, BufferSize::DeviceDefault);
}

#[test]
fn get_config_for_device_projects_each_direction() {
    let s = simple_settings();
    assert_eq!(s.get_config_for_device(true), s.input_config);
    assert_eq!(s.get_config_for_device(false), s.output_config);
}

#[test]
fn supported_sample_rates_list_each_range_endpoints() {
    let input = device(
        "mic",
        44100,
        2,
        vec![
            stereo_range(8000, 16000, BufferBounds::Unknown),
            stereo_range(44100, 48000, BufferBounds::Unknown),
        ],
    );
    let output = device("speakers", 44100, 2, vec![stereo_range(22050, 96000, BufferBounds::Unknown)]);
    let s = AudioEngineSettings::new(input, output, 2, 2);
    assert_eq!(s.get_supported_input_sample_rates(), vec![8000, 16000, 44100, 48000]);
    assert_eq!(s.get_supported_output_sample_rates(), vec![22050, 96000]);
}

#[test]
fn supported_buffer_sizes_report_first_range_bounds() {
    let bounds = BufferBounds::Bounded { min: 32, max: 2048 };
    let input = device("mic", 44100, 2, vec![stereo_range(44100, 48000, bounds)]);
    let output = device("speakers", 44100, 2, vec![stereo_range(44100, 48000, BufferBounds::Unknown)]);
    let s = AudioEngineSettings::new(input, output, 2, 2);
    assert_eq!(s.get_supported_input_buffer_sizes(), (32, 2048));
    assert_eq!(s.get_supported_output_buffer_sizes(), (0, 0));
}

#[test]
fn supported_buffer_sizes_with_no_ranges_are_zero() {
    let input = device("mic", 44100, 2, Vec::new());
    let output = device("speakers", 44100, 2, Vec::new());
    let s = AudioEngineSettings::new(input, output, 2, 2);
    assert_eq!(s.get_supported_input_buffer_sizes(), (0, 0));
}

#[test]
fn duplicate_copies_every_field() {
    let s = simple_settings();
    let d = s.duplicate();
    assert_eq!(d.input_device.name, s.input_device.name);
    assert_eq!(d.input_config, s.input_config);
    assert_eq!(d.output_config, s.output_config);
    assert_eq!(d.sample_rate, s.sample_rate);
    assert_eq!(d.buffer_size, s.buffer_size);
    assert_eq!(d.input_device.capabilities, s.input_device.capabilities);
    assert_eq!(d.output_device.capabilities, s.output_device.capabilities);
}
