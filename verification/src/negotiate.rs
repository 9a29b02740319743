//! The configuration negotiator: a pure function that reconciles a requested
//! sample rate, channel count and buffer-size preference against a device's
//! default configuration and its reported capability ranges, with safe
//! fallback when a request is unsupported.

use vstd::prelude::*;
use crate::config::{BufferBounds, BufferSize, CapabilityRange, StreamConfig};

verus! {

/// A capability range supports a rate when the rate lies in its inclusive
/// sample-rate interval.
pub open spec fn rate_in_range(r: CapabilityRange, rate: u32) -> bool {
    r.min_sample_rate <= rate && rate <= r.max_sample_rate
}

/// A device supports a rate when some reported range contains it.
pub open spec fn spec_rate_supported(ranges: Seq<CapabilityRange>, rate: u32) -> bool {
    exists|i: int| 0 <= i < ranges.len() && rate_in_range(#[trigger] ranges[i], rate)
}

/// The negotiated sample rate: the requested rate when some range supports
/// it, otherwise the baseline (device default) rate.
pub open spec fn spec_negotiated_rate(ranges: Seq<CapabilityRange>, requested: u32, baseline: u32) -> u32 {
    if spec_rate_supported(ranges, requested) {
        requested
    } else {
        baseline
    }
}

/// The negotiated channel count: the requested count when it lies in
/// `[1, device_max]`, otherwise the requested count clamped into that
/// interval (never silently wrapped).
pub open spec fn spec_negotiated_channels(requested: u16, device_max: u16) -> u16 {
    if 1 <= requested && requested <= device_max {
        requested
    } else if requested < 1 {
        if device_max < 1 {
            device_max
        } else {
            1
        }
    } else {
        device_max
    }
}

/// The negotiated buffer size: a committed fixed frame count propagates
/// across the negotiation; otherwise the baseline (device default) buffer
/// policy is left untouched.
pub open spec fn spec_negotiated_buffer(committed: BufferSize, baseline: BufferSize) -> BufferSize {
    match committed {
        BufferSize::Fixed(n) => BufferSize::Fixed(n),
        BufferSize::DeviceDefault => baseline,
    }
}

/// The whole negotiation: always a fully valid configuration, never
/// partially applied.
pub open spec fn spec_negotiate(
    ranges: Seq<CapabilityRange>,
    requested_rate: u32,
    requested_channels: u16,
    committed_buffer: BufferSize,
    baseline: StreamConfig,
) -> StreamConfig {
    StreamConfig {
        channels: spec_negotiated_channels(requested_channels, baseline.channels),
        sample_rate: spec_negotiated_rate(ranges, requested_rate, baseline.sample_rate),
        buffer_size: spec_negotiated_buffer(committed_buffer, baseline.buffer_size),
    }
}

/// The buffer-size bounds a device reports: those of its first capability
/// range (all ranges are assumed to report the same bounds), or unknown
/// when it reports no range.
pub open spec fn spec_device_buffer_bounds(ranges: Seq<CapabilityRange>) -> BufferBounds {
    if ranges.len() == 0 {
        BufferBounds::Unknown
    } else {
        ranges[0].buffer_bounds
    }
}

/// A fixed frame count is supported under given bounds; unknown bounds are
/// treated as supporting any fixed size.
pub open spec fn spec_buffer_size_supported(bounds: BufferBounds, frames: u32) -> bool {
    match bounds {
        BufferBounds::Unknown => true,
        BufferBounds::Bounded { min, max } => min <= frames && frames <= max,
    }
}

/// The outcome of one negotiation: the accepted configuration and the
/// non-fatal notices that a request could not be honoured as given.
#[derive(Clone, Copy, Debug, PartialEq, Eq, Structural)]
pub struct NegotiatedConfig {
    pub config: StreamConfig,
    /// The requested sample rate was unsupported and the baseline rate kept.
    pub rate_notice: bool,
    /// The requested channel count was invalid and was clamped.
    pub channel_notice: bool,
}

/// Whether some capability range of the device supports the rate.
pub fn rate_supported(ranges: &Vec<CapabilityRange>, rate: u32) -> (r: bool)
    ensures
        r == spec_rate_supported(ranges@, rate),
{
    let mut i: usize = 0;
    while i < ranges.len()
        invariant
            i <= ranges@.len(),
            forall|j: int| 0 <= j < i ==> !rate_in_range(#[trigger] ranges@[j], rate),
        decreases ranges@.len() - i,
    {
        let rng = ranges[i];
        if rng.min_sample_rate <= rate && rate <= rng.max_sample_rate {
            return true;
        }
        i += 1;
    }
    false
}

/// The negotiated channel count, clamped into `[1, device_max]`.
pub fn negotiated_channels(requested: u16, device_max: u16) -> (r: u16)
    ensures
        r == spec_negotiated_channels(requested, device_max),
{
    if 1 <= requested && requested <= device_max {
        requested
    } else if requested < 1 {
        if device_max < 1 {
            device_max
        } else {
            1
        }
    } else {
        device_max
    }
}

/// The buffer-size bounds the device reports (first range, or unknown).
pub fn device_buffer_bounds(ranges: &Vec<CapabilityRange>) -> (r: BufferBounds)
    ensures
        r == spec_device_buffer_bounds(ranges@),
{
    if ranges.len() == 0 {
        BufferBounds::Unknown
    } else {
        ranges[0].buffer_bounds
    }
}

/// Whether a fixed frame count is supported by the device's reported bounds.
pub fn buffer_size_supported(ranges: &Vec<CapabilityRange>, frames: u32) -> (r: bool)
    ensures
        r == spec_buffer_size_supported(spec_device_buffer_bounds(ranges@), frames),
{
    match device_buffer_bounds(ranges) {
        BufferBounds::Unknown => true,
        BufferBounds::Bounded { min, max } => min <= frames && frames <= max,
    }
}

/// Reconcile a request against a device's baseline (default) configuration
/// and capability ranges. The baseline's channel count stands for the
/// device's maximum. The result is always fully valid: an unsupported rate
/// falls back to the baseline rate, an invalid channel count is clamped,
/// and a committed fixed buffer size propagates while a default preference
/// leaves the baseline buffer policy untouched. Each fallback is reported
/// as a notice.
pub fn negotiate(
    requested_rate: u32,
    requested_channels: u16,
    committed_buffer: BufferSize,
    baseline: &StreamConfig,
    ranges: &Vec<CapabilityRange>,
) -> (r: NegotiatedConfig)
    ensures
        r.config == spec_negotiate(ranges@, requested_rate, requested_channels, committed_buffer, *baseline),
        r.rate_notice == !spec_rate_supported(ranges@, requested_rate),
        r.channel_notice == !(1 <= requested_channels && requested_channels <= baseline.channels),
{
    let supported = rate_supported(ranges, requested_rate);
    let sample_rate = if supported {
        requested_rate
    } else {
        baseline.sample_rate
    };
    let channels_valid = 1 <= requested_channels && requested_channels <= baseline.channels;
    let channels = negotiated_channels(requested_channels, baseline.channels);
    let buffer_size = match committed_buffer {
        BufferSize::Fixed(n) => BufferSize::Fixed(n),
        BufferSize::DeviceDefault => baseline.buffer_size,
    };
    NegotiatedConfig {
        config: StreamConfig { channels, sample_rate, buffer_size },
        rate_notice: !supported,
        channel_notice: !channels_valid,
    }
}

/// Law: the negotiated rate equals the requested rate exactly when some
/// capability range contains it inclusively, and otherwise equals the
/// baseline default. The equivalence is stated for a requested rate that
/// differs from the baseline; when they coincide the negotiated rate is the
/// shared value whether or not it is supported.
pub proof fn lemma_negotiated_rate_exact(ranges: Seq<CapabilityRange>, requested: u32, baseline: u32)
    requires
        requested != baseline,
    ensures
        spec_negotiated_rate(ranges, requested, baseline) == requested <==> spec_rate_supported(ranges, requested),
        !spec_rate_supported(ranges, requested) ==> spec_negotiated_rate(ranges, requested, baseline) == baseline,
{
}

/// Law: a valid requested channel count is accepted as it stands; an invalid
/// one is clamped to `min(max(requested, 1), device_max)`.
pub proof fn lemma_negotiated_channels_formula(requested: u16, device_max: u16)
    ensures
        1 <= requested && requested <= device_max ==> spec_negotiated_channels(requested, device_max) == requested,
        !(1 <= requested && requested <= device_max) ==> spec_negotiated_channels(requested, device_max) as int
            == vstd::math::min(vstd::math::max(requested as int, 1), device_max as int),
{
}

/// Law: negotiation never yields a partially applied configuration. Against
/// a usable baseline, the negotiated channel count lies in `[1, device
/// maximum]`, the negotiated rate is either the requested or the baseline
/// rate, and the negotiated buffer size is either the committed fixed size
/// or the baseline policy.
pub proof fn lemma_negotiate_fully_valid(
    ranges: Seq<CapabilityRange>,
    requested_rate: u32,
    requested_channels: u16,
    committed_buffer: BufferSize,
    baseline: StreamConfig,
)
    requires
        1 <= baseline.channels,
    ensures
        ({
            let a = spec_negotiate(ranges, requested_rate, requested_channels, committed_buffer, baseline);
            &&& 1 <= a.channels <= baseline.channels
            &&& (a.sample_rate == requested_rate || a.sample_rate == baseline.sample_rate)
            &&& (a.buffer_size == committed_buffer || a.buffer_size == baseline.buffer_size)
        }),
{
}

/// Law: negotiation is idempotent. Renegotiating the accepted configuration
/// itself (its rate and channels as the request, its buffer size as the
/// committed preference, and the accepted configuration as the baseline)
/// against an unchanged capability set yields the same configuration.
pub proof fn lemma_negotiate_idempotent(
    ranges: Seq<CapabilityRange>,
    requested_rate: u32,
    requested_channels: u16,
    committed_buffer: BufferSize,
    baseline: StreamConfig,
)
    ensures
        ({
            let a = spec_negotiate(ranges, requested_rate, requested_channels, committed_buffer, baseline);
            spec_negotiate(ranges, a.sample_rate, a.channels, a.buffer_size, a) == a
        }),
{
}

} // verus!
