use audio_engine::config::{BufferBounds, BufferSize, CapabilityRange, StreamConfig};
use audio_engine::negotiate::{buffer_size_supported, negotiate, negotiated_channels, rate_supported};

fn range(min_rate: u32, max_rate: u32) -> CapabilityRange {
    CapabilityRange {
        channels: 2,
        min_sample_rate: min_rate,
        max_sample_rate: max_rate,
        buffer_bounds: BufferBounds::Unknown,
    }
}

fn baseline_44100() -> StreamConfig {
    StreamConfig { channels: 2, sample_rate: 44100, buffer_size: BufferSize::DeviceDefault }
}

#[test]
fn unsupported_rate_falls_back_to_default() {
    let ranges = vec![range(44100, 48000)];
    let r = negotiate(96000, 2, BufferSize::DeviceDefault, &baseline_44100(), &ranges);
    assert_eq!(r.config.sample_rate, 44100);
    assert!(r.rate_notice);
}

#[test]
fn supported_rate_is_accepted() {
    let ranges = vec![range(44100, 48000)];
    let r = negotiate(48000, 2, BufferSize::DeviceDefault, &baseline_44100(), &ranges);
    assert_eq!(r.config.sample_rate, 48000);
    assert!(!r.rate_notice);
}

#[test]
fn rate_bounds_are_inclusive() {
    let ranges = vec![range(44100, 48000)];
    assert!(rate_supported(&ranges, 44100));
    assert!(rate_supported(&ranges, 48000));
    assert!(!rate_supported(&ranges, 44099));
    assert!(!rate_supported(&ranges, 48001));
}

#[test]
fn rate_supported_by_any_range() {
    let ranges = vec![range(8000, 16000), range(44100, 48000)];
    assert!(rate_supported(&ranges, 8000));
    assert!(rate_supported(&ranges, 44100));
    assert!(!rate_supported(&ranges, 22050));
}

#[test]
fn empty_capability_set_falls_back_entirely() {
    let ranges: Vec<CapabilityRange> = Vec::new();
    let r = negotiate(48000, 2, BufferSize::DeviceDefault, &baseline_44100(), &ranges);
    assert_eq!(r.config, baseline_44100());
    assert!(r.rate_notice);
}

#[test]
fn too_many_channels_are_clamped_with_warning() {
    let ranges = vec![range(44100, 48000)];
    let r = negotiate(44100, 6, BufferSize::DeviceDefault, &baseline_44100(), &ranges);
    assert_eq!(r.config.channels, 2);
    assert!(r.channel_notice);
}

#[test]
fn zero_channels_are_raised_to_one() {
    assert_eq!(negotiated_channels(0, 2), 1);
    assert_eq!(negotiated_channels(0, 0), 0);
}

#[test]
fn channel_clamp_formula() {
    assert_eq!(negotiated_channels(1, 2), 1);
    assert_eq!(negotiated_channels(2, 2), 2);
    assert_eq!(negotiated_channels(3, 2), 2);
    assert_eq!(negotiated_channels(6, 2), 2);
    assert_eq!(negotiated_channels(2, 8), 2);
}

#[test]
fn fixed_buffer_preference_propagates() {
    let ranges = vec![range(44100, 48000)];
    let r = negotiate(44100, 2, BufferSize::Fixed(512), &baseline_44100(), &ranges);
    assert_eq!(r.config.buffer_size, BufferSize::Fixed(512));
}

#[test]
fn default_buffer_preference_keeps_baseline_policy() {
    let ranges = vec![range(44100, 48000)];
    let baseline = StreamConfig { channels: 2, sample_rate: 44100, buffer_size: BufferSize::Fixed(256) };
    let r = negotiate(44100, 2, BufferSize::DeviceDefault, &baseline, &ranges);
    assert_eq!(r.config.buffer_size, BufferSize::Fixed(256));
}

#[test]
fn negotiation_is_idempotent_on_concrete_inputs() {
    let ranges = vec![range(44100, 48000)];
    let first = negotiate(96000, 6, BufferSize::Fixed(512), &baseline_44100(), &ranges);
    let second = negotiate(
        first.config.sample_rate,
        first.config.channels,
        first.config.buffer_size,
        &first.config,
        &ranges,
    );
    assert_eq!(second.config, first.config);
}

#[test]
fn buffer_bounds_respected_and_unknown_admits_any() {
    let bounded = vec![CapabilityRange {
        channels: 2,
        min_sample_rate: 44100,
        max_sample_rate: 48000,
        buffer_bounds: BufferBounds::Bounded { min: 64, max: 4096 },
    }];
    assert!(buffer_size_supported(&bounded, 64));
    assert!(buffer_size_supported(&bounded, 4096));
    assert!(!buffer_size_supported(&bounded, 63));
    assert!(!buffer_size_supported(&bounded, 4097));
    let unknown = vec![range(44100, 48000)];
    assert!(buffer_size_supported(&unknown, 1));
    assert!(buffer_size_supported(&unknown, 1 << 20));
}
