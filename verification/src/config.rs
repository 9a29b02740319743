//! Plain data model: operating configurations, device capability ranges and
//! device snapshots, together with their mathematical views.

use vstd::prelude::*;

verus! {

/// Buffer-size policy of one operating configuration: either the device's
/// own default buffering, or a fixed frame count pinned by the user.
#[derive(Clone, Copy, Debug, PartialEq, Eq, Structural)]
pub enum BufferSize {
    DeviceDefault,
    Fixed(u32),
}

/// Device-reported bounds on the fixed buffer sizes it supports: a closed
/// numeric range, or unknown ("unconstrained").
#[derive(Clone, Copy, Debug, PartialEq, Eq, Structural)]
pub enum BufferBounds {
    Unknown,
    Bounded { min: u32, max: u32 },
}

/// The committed operating configuration of one stream direction.
#[derive(Clone, Copy, Debug, PartialEq, Eq, Structural)]
pub struct StreamConfig {
    pub channels: u16,
    pub sample_rate: u32,
    pub buffer_size: BufferSize,
}

/// One device-reported capability range: the inclusive sample-rate interval
/// it supports, the channel count of this configuration family, and the
/// buffer-size bounds it reports.
#[derive(Clone, Copy, Debug, PartialEq, Eq, Structural)]
pub struct CapabilityRange {
    pub channels: u16,
    pub min_sample_rate: u32,
    pub max_sample_rate: u32,
    pub buffer_bounds: BufferBounds,
}

/// A snapshot of one audio device as the backend reports it: its name, its
/// default configuration and its capability ranges. The backend that takes
/// such a snapshot lives outside this crate; everything here works on the
/// plain values.
#[derive(Debug)]
pub struct DeviceInfo {
    pub name: String,
    pub default_config: StreamConfig,
    pub capabilities: Vec<CapabilityRange>,
}

/// Mathematical view of a device snapshot.
pub struct DeviceInfoView {
    pub name: Seq<char>,
    pub default_config: StreamConfig,
    pub capabilities: Seq<CapabilityRange>,
}

impl View for DeviceInfo {
    type V = DeviceInfoView;

    open spec fn view(&self) -> DeviceInfoView {
        DeviceInfoView {
            name: self.name@,
            default_config: self.default_config,
            capabilities: self.capabilities@,
        }
    }
}

/// A device snapshot is well formed when its default configuration is usable
/// as a negotiation baseline: a positive sample rate and at least one channel.
pub open spec fn device_wf(d: DeviceInfoView) -> bool {
    &&& 1 <= d.default_config.sample_rate
    &&& 1 <= d.default_config.channels
}

impl DeviceInfo {
    /// An exact copy of the snapshot (the derived clone would say nothing
    /// about its result).
    pub fn duplicate(&self) -> (r: DeviceInfo)
        ensures
            r@ == self@,
    {
        let mut caps: Vec<CapabilityRange> = Vec::new();
        let mut i: usize = 0;
        while i < self.capabilities.len()
            invariant
                i <= self.capabilities@.len(),
                caps@ == self.capabilities@.subrange(0, i as int),
            decreases self.capabilities@.len() - i,
        {
            caps.push(self.capabilities[i]);
            i += 1;
        }
        proof {
            assert(caps@ =~= self.capabilities@);
        }
        DeviceInfo {
            name: self.name.clone(),
            default_config: self.default_config,
            capabilities: caps,
        }
    }
}

/// The errors a configuration-change operation can surface. Negotiation
/// fallback itself is non-fatal and is reported as a notice, not an error;
/// `UnsupportedConfigRequest` is returned only by the all-or-nothing
/// settings mutations that reject rather than fall back.
/// `DeviceUnavailable` and `CapabilityQueryError` belong to the backend
/// that takes the device snapshots: a device that vanished after selection,
/// and a backend that cannot enumerate formats.
#[derive(Clone, Copy, Debug, PartialEq, Eq, Structural)]
pub enum EngineError {
    DeviceNotFound,
    DeviceUnavailable,
    CapabilityQueryError,
    UnsupportedConfigRequest,
}

} // verus!
