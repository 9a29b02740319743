//! The committed bidirectional configuration: the selected input and output
//! device snapshots and one operating configuration per direction. The
//! settings object is the single source of truth for the sample rate; the
//! two per-direction configurations are projections of it. Every mutation is
//! all-or-nothing: a failed change leaves the whole object untouched.

use vstd::prelude::*;
use crate::config::{BufferSize, DeviceInfo, DeviceInfoView, EngineError, StreamConfig, device_wf};
use crate::negotiate::{
    buffer_size_supported, device_buffer_bounds, negotiated_channels, rate_supported,
    spec_buffer_size_supported, spec_device_buffer_bounds, spec_negotiated_channels,
    spec_rate_supported,
};

verus! {

/// The committed engine settings.
pub struct AudioEngineSettings {
    pub input_device: DeviceInfo,
    pub input_config: StreamConfig,
    pub output_device: DeviceInfo,
    pub output_config: StreamConfig,
    /// The channel count the input device itself offers (its default
    /// configuration's count, the device maximum).
    pub num_input_channels: u16,
    /// The channel count the output device itself offers.
    pub num_output_channels: u16,
    /// The committed sample rate, mirrored into both configurations.
    pub sample_rate: u32,
    /// The committed buffer-size preference; a fixed size propagates across
    /// device swaps, the default leaves each device's own policy untouched.
    pub buffer_size: BufferSize,
}

/// Mathematical view of the settings.
pub struct SettingsView {
    pub input_device: DeviceInfoView,
    pub input_config: StreamConfig,
    pub output_device: DeviceInfoView,
    pub output_config: StreamConfig,
    pub num_input_channels: u16,
    pub num_output_channels: u16,
    pub sample_rate: u32,
    pub buffer_size: BufferSize,
}

impl View for AudioEngineSettings {
    type V = SettingsView;

    open spec fn view(&self) -> SettingsView {
        SettingsView {
            input_device: self.input_device@,
            input_config: self.input_config,
            output_device: self.output_device@,
            output_config: self.output_config,
            num_input_channels: self.num_input_channels,
            num_output_channels: self.num_output_channels,
            sample_rate: self.sample_rate,
            buffer_size: self.buffer_size,
        }
    }
}

/// The settings invariant: both devices are usable, the committed sample
/// rate is positive and is the rate embedded in both configurations, each
/// direction's channel count lies in `[1, device maximum]`, the recorded
/// device channel counts are the device maxima, and a committed fixed
/// buffer size is mirrored into both configurations.
pub open spec fn settings_wf(s: SettingsView) -> bool {
    &&& device_wf(s.input_device)
    &&& device_wf(s.output_device)
    &&& 1 <= s.sample_rate
    &&& s.input_config.sample_rate == s.sample_rate
    &&& s.output_config.sample_rate == s.sample_rate
    &&& 1 <= s.input_config.channels
    &&& s.input_config.channels <= s.input_device.default_config.channels
    &&& 1 <= s.output_config.channels
    &&& s.output_config.channels <= s.output_device.default_config.channels
    &&& s.num_input_channels == s.input_device.default_config.channels
    &&& s.num_output_channels == s.output_device.default_config.channels
    &&& match s.buffer_size {
        BufferSize::Fixed(n) => s.input_config.buffer_size == BufferSize::Fixed(n)
            && s.output_config.buffer_size == BufferSize::Fixed(n),
        BufferSize::DeviceDefault => true,
    }
}

/// The settings created at engine start: each direction starts from its
/// device's own default configuration, the requested channel counts are
/// clamped into `[1, device maximum]`, the committed sample rate is the
/// input device's default rate and is mirrored into both configurations,
/// and no buffer-size preference is pinned yet.
pub open spec fn spec_initial_settings(
    input_device: DeviceInfoView,
    output_device: DeviceInfoView,
    input_channels: u16,
    output_channels: u16,
) -> SettingsView {
    let rate = input_device.default_config.sample_rate;
    SettingsView {
        input_device,
        input_config: StreamConfig {
            channels: spec_negotiated_channels(input_channels, input_device.default_config.channels),
            sample_rate: rate,
            buffer_size: input_device.default_config.buffer_size,
        },
        output_device,
        output_config: StreamConfig {
            channels: spec_negotiated_channels(output_channels, output_device.default_config.channels),
            sample_rate: rate,
            buffer_size: output_device.default_config.buffer_size,
        },
        num_input_channels: input_device.default_config.channels,
        num_output_channels: output_device.default_config.channels,
        sample_rate: rate,
        buffer_size: BufferSize::DeviceDefault,
    }
}

/// The settings after an accepted sample-rate change: the new rate is
/// committed and mirrored into both configurations, everything else stands.
pub open spec fn spec_with_sample_rate(s: SettingsView, sample_rate: u32) -> SettingsView {
    SettingsView {
        sample_rate,
        input_config: StreamConfig { sample_rate, ..s.input_config },
        output_config: StreamConfig { sample_rate, ..s.output_config },
        ..s
    }
}

/// The settings after an accepted buffer-size change: the fixed frame count
/// is committed and mirrored into both configurations, everything else
/// stands.
pub open spec fn spec_with_buffer_size(s: SettingsView, frames: u32) -> SettingsView {
    SettingsView {
        buffer_size: BufferSize::Fixed(frames),
        input_config: StreamConfig { buffer_size: BufferSize::Fixed(frames), ..s.input_config },
        output_config: StreamConfig { buffer_size: BufferSize::Fixed(frames), ..s.output_config },
        ..s
    }
}

impl AudioEngineSettings {
    /// The settings invariant, over the view.
    pub open spec fn wf(self) -> bool {
        settings_wf(self@)
    }

    /// Create the committed settings from the two selected device snapshots
    /// and the requested channel counts. Each direction starts from its
    /// device's own default configuration; an invalid channel count is
    /// clamped, never stored as given.
    pub fn new(
        input_device: DeviceInfo,
        output_device: DeviceInfo,
        input_channels: u16,
        output_channels: u16,
    ) -> (r: AudioEngineSettings)
        requires
            device_wf(input_device@),
            device_wf(output_device@),
        ensures
            r.wf(),
            r@ == spec_initial_settings(input_device@, output_device@, input_channels, output_channels),
    {
        let rate = input_device.default_config.sample_rate;
        let in_channels = negotiated_channels(input_channels, input_device.default_config.channels);
        let out_channels = negotiated_channels(output_channels, output_device.default_config.channels);
        let input_config = StreamConfig {
            channels: in_channels,
            sample_rate: rate,
            buffer_size: input_device.default_config.buffer_size,
        };
        let output_config = StreamConfig {
            channels: out_channels,
            sample_rate: rate,
            buffer_size: output_device.default_config.buffer_size,
        };
        let num_input_channels = input_device.default_config.channels;
        let num_output_channels = output_device.default_config.channels;
        AudioEngineSettings {
            input_device,
            input_config,
            output_device,
            output_config,
            num_input_channels,
            num_output_channels,
            sample_rate: rate,
            buffer_size: BufferSize::DeviceDefault,
        }
    }

    /// Commit a new sample rate for both directions at once. The change is
    /// accepted exactly when the rate is positive and both the input and the
    /// output device report a capability range containing it; otherwise the
    /// whole operation rejects and the settings stand untouched.
    pub fn update_sample_rate(&mut self, sample_rate: u32) -> (r: Result<(), EngineError>)
        requires
            old(self).wf(),
        ensures
            final(self).wf(),
            r is Ok <==> (1 <= sample_rate
                && spec_rate_supported(old(self)@.input_device.capabilities, sample_rate)
                && spec_rate_supported(old(self)@.output_device.capabilities, sample_rate)),
            r is Ok ==> final(self)@ == spec_with_sample_rate(old(self)@, sample_rate),
            r is Err ==> *final(self) == *old(self) && r == Err::<(), EngineError>(
                EngineError::UnsupportedConfigRequest,
            ),
    {
        if 1 <= sample_rate && rate_supported(&self.input_device.capabilities, sample_rate)
            && rate_supported(&self.output_device.capabilities, sample_rate) {
            self.sample_rate = sample_rate;
            self.input_config.sample_rate = sample_rate;
            self.output_config.sample_rate = sample_rate;
            Ok(())
        } else {
            Err(EngineError::UnsupportedConfigRequest)
        }
    }

    /// Commit a fixed buffer size for both directions at once. The change is
    /// accepted exactly when both devices' reported buffer-size bounds admit
    /// the frame count (unknown bounds admit any fixed size); otherwise the
    /// whole operation rejects and the settings stand untouched.
    pub fn update_buffer_size(&mut self, buffer_size: u32) -> (r: Result<(), EngineError>)
        requires
            old(self).wf(),
        ensures
            final(self).wf(),
            r is Ok <==> (spec_buffer_size_supported(
                spec_device_buffer_bounds(old(self)@.input_device.capabilities),
                buffer_size,
            ) && spec_buffer_size_supported(
                spec_device_buffer_bounds(old(self)@.output_device.capabilities),
                buffer_size,
            )),
            r is Ok ==> final(self)@ == spec_with_buffer_size(old(self)@, buffer_size),
            r is Err ==> *final(self) == *old(self) && r == Err::<(), EngineError>(
                EngineError::UnsupportedConfigRequest,
            ),
    {
        if buffer_size_supported(&self.input_device.capabilities, buffer_size)
            && buffer_size_supported(&self.output_device.capabilities, buffer_size) {
            self.buffer_size = BufferSize::Fixed(buffer_size);
            self.input_config.buffer_size = BufferSize::Fixed(buffer_size);
            self.output_config.buffer_size = BufferSize::Fixed(buffer_size);
            Ok(())
        } else {
            Err(EngineError::UnsupportedConfigRequest)
        }
    }

    /// The committed configuration of one direction.
    pub fn get_config_for_device(&self, is_input: bool) -> (r: StreamConfig)
        ensures
            r == if is_input {
                self.input_config
            } else {
                self.output_config
            },
    {
        if is_input {
            self.input_config
        } else {
            self.output_config
        }
    }

    /// The endpoints of every sample-rate range the input device reports:
    /// for each range, its minimum then its maximum.
    pub fn get_supported_input_sample_rates(&self) -> (r: Vec<u32>)
        ensures
            r@.len() == 2 * self@.input_device.capabilities.len(),
            forall|i: int| 0 <= i < self@.input_device.capabilities.len() ==> {
                &&& r@[2 * i] == (#[trigger] self@.input_device.capabilities[i]).min_sample_rate
                &&& r@[2 * i + 1] == self@.input_device.capabilities[i].max_sample_rate
            },
    {
        range_endpoints(&self.input_device.capabilities)
    }

    /// The endpoints of every sample-rate range the output device reports.
    pub fn get_supported_output_sample_rates(&self) -> (r: Vec<u32>)
        ensures
            r@.len() == 2 * self@.output_device.capabilities.len(),
            forall|i: int| 0 <= i < self@.output_device.capabilities.len() ==> {
                &&& r@[2 * i] == (#[trigger] self@.output_device.capabilities[i]).min_sample_rate
                &&& r@[2 * i + 1] == self@.output_device.capabilities[i].max_sample_rate
            },
    {
        range_endpoints(&self.output_device.capabilities)
    }

    /// The buffer-size bounds the input device reports, as a `(min, max)`
    /// pair; `(0, 0)` when it reports none or reports them unknown.
    pub fn get_supported_input_buffer_sizes(&self) -> (r: (u32, u32))
        ensures
            r == spec_bounds_pair(spec_device_buffer_bounds(self@.input_device.capabilities)),
    {
        bounds_pair(&self.input_device)
    }

    /// The buffer-size bounds the output device reports, as a `(min, max)`
    /// pair; `(0, 0)` when it reports none or reports them unknown.
    pub fn get_supported_output_buffer_sizes(&self) -> (r: (u32, u32))
        ensures
            r == spec_bounds_pair(spec_device_buffer_bounds(self@.output_device.capabilities)),
    {
        bounds_pair(&self.output_device)
    }

    /// An exact copy of the settings (the derived clone would say nothing
    /// about its result).
    pub fn duplicate(&self) -> (r: AudioEngineSettings)
        ensures
            r@ == self@,
    {
        AudioEngineSettings {
            input_device: self.input_device.duplicate(),
            input_config: self.input_config,
            output_device: self.output_device.duplicate(),
            output_config: self.output_config,
            num_input_channels: self.num_input_channels,
            num_output_channels: self.num_output_channels,
            sample_rate: self.sample_rate,
            buffer_size: self.buffer_size,
        }
    }
}

/// Device-reported buffer bounds as a plain `(min, max)` pair, `(0, 0)` for
/// unknown bounds.
pub open spec fn spec_bounds_pair(b: crate::config::BufferBounds) -> (u32, u32) {
    match b {
        crate::config::BufferBounds::Unknown => (0u32, 0u32),
        crate::config::BufferBounds::Bounded { min, max } => (min, max),
    }
}

fn bounds_pair(device: &DeviceInfo) -> (r: (u32, u32))
    ensures
        r == spec_bounds_pair(spec_device_buffer_bounds(device@.capabilities)),
{
    match device_buffer_bounds(&device.capabilities) {
        crate::config::BufferBounds::Unknown => (0, 0),
        crate::config::BufferBounds::Bounded { min, max } => (min, max),
    }
}

fn range_endpoints(capabilities: &Vec<crate::config::CapabilityRange>) -> (r: Vec<u32>)
    ensures
        r@.len() == 2 * capabilities@.len(),
        forall|i: int| 0 <= i < capabilities@.len() ==> {
            &&& r@[2 * i] == (#[trigger] capabilities@[i]).min_sample_rate
            &&& r@[2 * i + 1] == capabilities@[i].max_sample_rate
        },
{
    let mut rates: Vec<u32> = Vec::new();
    let mut i: usize = 0;
    while i < capabilities.len()
        invariant
            i <= capabilities@.len(),
            rates@.len() == 2 * i,
            forall|j: int| 0 <= j < i ==> {
                &&& rates@[2 * j] == (#[trigger] capabilities@[j]).min_sample_rate
                &&& rates@[2 * j + 1] == capabilities@[j].max_sample_rate
            },
        decreases capabilities@.len() - i,
    {
        let range = capabilities[i];
        rates.push(range.min_sample_rate);
        rates.push(range.max_sample_rate);
        i += 1;
    }
    rates
}

} // verus!
