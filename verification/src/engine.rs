//! The engine: owns the committed settings and the track collection,
//! resolves devices against the selected host's snapshot, and dispatches
//! each real-time callback invocation across all tracks. Stream lifecycle
//! itself (open/start/stop) belongs to the platform backend outside this
//! crate; the engine works on the host snapshot that the backend reports.

use vstd::prelude::*;
use crate::config::{DeviceInfo, DeviceInfoView, EngineError, StreamConfig, device_wf};
use crate::negotiate::{rate_supported, spec_negotiated_buffer, spec_negotiated_rate};
use crate::settings::{AudioEngineSettings, SettingsView};
use crate::track::{Track, TrackView, spec_play, spec_record, track_wf};

verus! {

/// A snapshot of one host backend: its name, the devices it exposes for
/// each direction, and the index of each direction's default device.
pub struct HostInfo {
    pub name: String,
    pub input_devices: Vec<DeviceInfo>,
    pub output_devices: Vec<DeviceInfo>,
    pub default_input: Option<usize>,
    pub default_output: Option<usize>,
}

/// Mathematical view of a host snapshot.
pub struct HostInfoView {
    pub name: Seq<char>,
    pub input_devices: Seq<DeviceInfoView>,
    pub output_devices: Seq<DeviceInfoView>,
    pub default_input: Option<usize>,
    pub default_output: Option<usize>,
}

impl View for HostInfo {
    type V = HostInfoView;

    open spec fn view(&self) -> HostInfoView {
        HostInfoView {
            name: self.name@,
            input_devices: self.input_devices@.map_values(|d: DeviceInfo| d@),
            output_devices: self.output_devices@.map_values(|d: DeviceInfo| d@),
            default_input: self.default_input,
            default_output: self.default_output,
        }
    }
}

/// A host snapshot is well formed when every device it exposes is well
/// formed and each default-device index, where present, is in bounds.
pub open spec fn host_wf(h: HostInfoView) -> bool {
    &&& forall|i: int| 0 <= i < h.input_devices.len() ==> device_wf(#[trigger] h.input_devices[i])
    &&& forall|i: int| 0 <= i < h.output_devices.len() ==> device_wf(#[trigger] h.output_devices[i])
    &&& match h.default_input {
        Some(i) => i < h.input_devices.len(),
        None => true,
    }
    &&& match h.default_output {
        Some(i) => i < h.output_devices.len(),
        None => true,
    }
}

/// The first device of the sequence carrying the given name, if any.
pub open spec fn spec_find_device(devices: Seq<DeviceInfoView>, name: Seq<char>) -> Option<int>
    decreases devices.len(),
{
    if devices.len() == 0 {
        None
    } else if devices[0].name == name {
        Some(0int)
    } else {
        match spec_find_device(devices.drop_first(), name) {
            Some(i) => Some(i + 1),
            None => None,
        }
    }
}

/// Resolve a requested device name against a direction's device sequence:
/// the sentinel name `default` picks the direction's default device, any
/// other name must match exactly.
pub open spec fn spec_resolve_device(
    devices: Seq<DeviceInfoView>,
    default: Option<usize>,
    name: Seq<char>,
) -> Option<DeviceInfoView> {
    if name == "default"@ {
        match default {
            Some(i) => if i < devices.len() {
                Some(devices[i as int])
            } else {
                None
            },
            None => None,
        }
    } else {
        match spec_find_device(devices, name) {
            Some(i) => Some(devices[i]),
            None => None,
        }
    }
}

/// The settings after the input direction is switched to a new device: the
/// committed sample rate is kept where the new device supports it and falls
/// back to the device's default rate where not; the new committed rate is
/// mirrored into the output configuration to keep the directions
/// consistent; the direction's channel count is the new device's own; a
/// committed fixed buffer size propagates, a default preference leaves the
/// device's own buffer policy untouched. The replacement is atomic: device
/// and configuration change together.
pub open spec fn spec_switch_input_device(s: SettingsView, d: DeviceInfoView) -> SettingsView {
    let rate = spec_negotiated_rate(d.capabilities, s.sample_rate, d.default_config.sample_rate);
    SettingsView {
        input_device: d,
        input_config: StreamConfig {
            channels: d.default_config.channels,
            sample_rate: rate,
            buffer_size: spec_negotiated_buffer(s.buffer_size, d.default_config.buffer_size),
        },
        num_input_channels: d.default_config.channels,
        sample_rate: rate,
        output_config: StreamConfig { sample_rate: rate, ..s.output_config },
        ..s
    }
}

/// The settings after the output direction is switched to a new device;
/// the mirror image of the input switch.
pub open spec fn spec_switch_output_device(s: SettingsView, d: DeviceInfoView) -> SettingsView {
    let rate = spec_negotiated_rate(d.capabilities, s.sample_rate, d.default_config.sample_rate);
    SettingsView {
        output_device: d,
        output_config: StreamConfig {
            channels: d.default_config.channels,
            sample_rate: rate,
            buffer_size: spec_negotiated_buffer(s.buffer_size, d.default_config.buffer_size),
        },
        num_output_channels: d.default_config.channels,
        sample_rate: rate,
        input_config: StreamConfig { sample_rate: rate, ..s.input_config },
        ..s
    }
}

/// What dispatching one incoming frame does to one track: a track bound to
/// an input channel that the frame covers records that channel's sample
/// (which appends it only while armed); any other track is untouched.
pub open spec fn spec_frame_record(t: TrackView, frame: Seq<u32>) -> TrackView {
    match t.input_channel {
        Some(c) => if c < frame.len() {
            spec_record(t, frame[c as int])
        } else {
            t
        },
        None => t,
    }
}

pub struct Engine {
    pub host: HostInfo,
    pub settings: AudioEngineSettings,
    pub tracks: Vec<Track>,
}

impl Engine {
    /// The engine invariant: the host snapshot, the settings and every
    /// track are well formed.
    pub open spec fn wf(self) -> bool {
        &&& host_wf(self.host@)
        &&& self.settings.wf()
        &&& forall|i: int| 0 <= i < self.tracks@.len() ==> track_wf((#[trigger] self.tracks@[i])@)
    }

    /// Start an engine on a host snapshot, selecting each direction's
    /// default device and that device's own default channel count. Fails
    /// with `DeviceNotFound` when a direction has no default device.
    pub fn new(host: HostInfo) -> (r: Result<Engine, EngineError>)
        requires
            host_wf(host@),
        ensures
            r is Ok <==> (host@.default_input is Some && host@.default_output is Some),
            r matches Err(e) ==> e == EngineError::DeviceNotFound,
            r matches Ok(e) ==> {
                let in_dev = host@.input_devices[host@.default_input.unwrap() as int];
                let out_dev = host@.output_devices[host@.default_output.unwrap() as int];
                &&& e.wf()
                &&& e.host@ == host@
                &&& e.tracks@.len() == 0
                &&& e.settings@ == crate::settings::spec_initial_settings(
                    in_dev,
                    out_dev,
                    in_dev.default_config.channels,
                    out_dev.default_config.channels,
                )
            },
    {
        let default_input = match host.default_input {
            Some(i) => i,
            None => {
                return Err(EngineError::DeviceNotFound);
            },
        };
        let default_output = match host.default_output {
            Some(i) => i,
            None => {
                return Err(EngineError::DeviceNotFound);
            },
        };
        let input_device = host.input_devices[default_input].duplicate();
        let output_device = host.output_devices[default_output].duplicate();
        let input_channels = input_device.default_config.channels;
        let output_channels = output_device.default_config.channels;
        let settings = AudioEngineSettings::new(
            input_device,
            output_device,
            input_channels,
            output_channels,
        );
        Ok(Engine { host, settings, tracks: Vec::new() })
    }

    /// A copy of the committed settings.
    pub fn get_current_settings(&self) -> (r: AudioEngineSettings)
        ensures
            r@ == self.settings@,
    {
        self.settings.duplicate()
    }

    /// Switch to a new host snapshot. The currently selected device names
    /// are re-resolved against the new host rather than carried over as
    /// stale handles; when either name is absent there the whole operation
    /// fails with `DeviceNotFound` and the engine stands untouched.
    pub fn set_host(&mut self, host: HostInfo) -> (r: Result<(), EngineError>)
        requires
            old(self).wf(),
            host_wf(host@),
        ensures
            final(self).wf(),
            r is Ok <==> (spec_find_device(host@.input_devices, old(self).settings@.input_device.name) is Some
                && spec_find_device(host@.output_devices, old(self).settings@.output_device.name) is Some),
            r is Err ==> *final(self) == *old(self) && r == Err::<(), EngineError>(
                EngineError::DeviceNotFound,
            ),
            r is Ok ==> {
                let in_dev = host@.input_devices[spec_find_device(
                    host@.input_devices,
                    old(self).settings@.input_device.name,
                ).unwrap()];
                let out_dev = host@.output_devices[spec_find_device(
                    host@.output_devices,
                    old(self).settings@.output_device.name,
                ).unwrap()];
                &&& final(self).host@ == host@
                &&& final(self).settings@ == spec_switch_output_device(
                    spec_switch_input_device(old(self).settings@, in_dev),
                    out_dev,
                )
                &&& final(self).tracks == old(self).tracks
            },
    {
        let in_idx = match find_device(&host.input_devices, &self.settings.input_device.name) {
            Some(i) => i,
            None => {
                return Err(EngineError::DeviceNotFound);
            },
        };
        let out_idx = match find_device(&host.output_devices, &self.settings.output_device.name) {
            Some(i) => i,
            None => {
                return Err(EngineError::DeviceNotFound);
            },
        };
        let in_dev = host.input_devices[in_idx].duplicate();
        let out_dev = host.output_devices[out_idx].duplicate();
        self.host = host;
        apply_input_switch(&mut self.settings, in_dev);
        apply_output_switch(&mut self.settings, out_dev);
        Ok(())
    }

    /// Select the input device by name (or the host's default for the
    /// sentinel name `default`) and atomically re-negotiate the input
    /// configuration around the committed preferences. Fails with
    /// `DeviceNotFound`, leaving the engine untouched, when no device
    /// matches.
    pub fn set_input_device(&mut self, device: &str) -> (r: Result<(), EngineError>)
        requires
            old(self).wf(),
        ensures
            final(self).wf(),
            r is Ok <==> spec_resolve_device(
                old(self).host@.input_devices,
                old(self).host@.default_input,
                device@,
            ) is Some,
            r is Err ==> *final(self) == *old(self) && r == Err::<(), EngineError>(
                EngineError::DeviceNotFound,
            ),
            r is Ok ==> final(self).settings@ == spec_switch_input_device(
                old(self).settings@,
                spec_resolve_device(
                    old(self).host@.input_devices,
                    old(self).host@.default_input,
                    device@,
                ).unwrap(),
            ) && final(self).host == old(self).host && final(self).tracks == old(self).tracks,
    {
        let idx = match resolve_device(&self.host.input_devices, self.host.default_input, device) {
            Some(i) => i,
            None => {
                return Err(EngineError::DeviceNotFound);
            },
        };
        let dev = self.host.input_devices[idx].duplicate();
        apply_input_switch(&mut self.settings, dev);
        Ok(())
    }

    /// Select the output device by name (or the host's default for the
    /// sentinel name `default`); the mirror image of `set_input_device`.
    pub fn set_output_device(&mut self, device: &str) -> (r: Result<(), EngineError>)
        requires
            old(self).wf(),
        ensures
            final(self).wf(),
            r is Ok <==> spec_resolve_device(
                old(self).host@.output_devices,
                old(self).host@.default_output,
                device@,
            ) is Some,
            r is Err ==> *final(self) == *old(self) && r == Err::<(), EngineError>(
                EngineError::DeviceNotFound,
            ),
            r is Ok ==> final(self).settings@ == spec_switch_output_device(
                old(self).settings@,
                spec_resolve_device(
                    old(self).host@.output_devices,
                    old(self).host@.default_output,
                    device@,
                ).unwrap(),
            ) && final(self).host == old(self).host && final(self).tracks == old(self).tracks,
    {
        let idx = match resolve_device(&self.host.output_devices, self.host.default_output, device) {
            Some(i) => i,
            None => {
                return Err(EngineError::DeviceNotFound);
            },
        };
        let dev = self.host.output_devices[idx].duplicate();
        apply_output_switch(&mut self.settings, dev);
        Ok(())
    }

    /// Append a fresh track, bound to zero or one input channel. Not for
    /// the real-time callback path.
    pub fn add_track(&mut self, input_channel: Option<usize>)
        requires
            old(self).wf(),
        ensures
            final(self).wf(),
            final(self).tracks@.len() == old(self).tracks@.len() + 1,
            final(self).tracks@[old(self).tracks@.len() as int]@ == (TrackView {
                input_channel,
                samples: Seq::<u32>::empty(),
                armed: false,
                cursor: 0,
            }),
            forall|i: int| 0 <= i < old(self).tracks@.len() ==> final(self).tracks@[i]
                == old(self).tracks@[i],
            final(self).host == old(self).host,
            final(self).settings == old(self).settings,
    {
        self.tracks.push(Track::new(input_channel));
    }

    /// Remove the track at `index`, reporting whether one was removed. Not
    /// for the real-time callback path.
    pub fn remove_track(&mut self, index: usize) -> (r: bool)
        requires
            old(self).wf(),
        ensures
            final(self).wf(),
            r == (index < old(self).tracks@.len()),
            r ==> final(self).tracks@ == old(self).tracks@.remove(index as int)
                && final(self).host == old(self).host
                && final(self).settings == old(self).settings,
            !r ==> *final(self) == *old(self),
    {
        if index < self.tracks.len() {
            self.tracks.remove(index);
            true
        } else {
            false
        }
    }

    /// Set the armed flag of the track at `index`, reporting whether such a
    /// track exists; its buffer and cursor are untouched.
    pub fn arm_track(&mut self, index: usize, armed: bool) -> (r: bool)
        requires
            old(self).wf(),
        ensures
            final(self).wf(),
            r == (index < old(self).tracks@.len()),
            r ==> final(self).tracks@.len() == old(self).tracks@.len()
                && final(self).tracks@[index as int]@ == (TrackView {
                    armed,
                    ..old(self).tracks@[index as int]@
                })
                && (forall|i: int| 0 <= i < old(self).tracks@.len() && i != index
                    ==> final(self).tracks@[i] == old(self).tracks@[i])
                && final(self).host == old(self).host
                && final(self).settings == old(self).settings,
            !r ==> *final(self) == *old(self),
    {
        if index < self.tracks.len() {
            self.tracks[index].arm(armed);
            true
        } else {
            false
        }
    }

    /// Dispatch one incoming frame (one sample per hardware input channel)
    /// across all tracks: each track bound to a channel the frame covers
    /// records that channel's sample; recording appends it only while the
    /// track is armed. Real-time safe: one bounded pass over the tracks.
    pub fn process_record_frame(&mut self, frame: &Vec<u32>)
        requires
            old(self).wf(),
        ensures
            final(self).wf(),
            final(self).tracks@.len() == old(self).tracks@.len(),
            forall|i: int| 0 <= i < old(self).tracks@.len() ==> (#[trigger] final(self).tracks@[i])@
                == spec_frame_record(old(self).tracks@[i]@, frame@),
            final(self).host == old(self).host,
            final(self).settings == old(self).settings,
    {
        let n = self.tracks.len();
        let mut i: usize = 0;
        while i < n
            invariant
                i <= n,
                n == self.tracks@.len(),
                n == old(self).tracks@.len(),
                forall|j: int| 0 <= j < i ==> (#[trigger] self.tracks@[j])@ == spec_frame_record(
                    old(self).tracks@[j]@,
                    frame@,
                ),
                forall|j: int| i <= j < n ==> self.tracks@[j] == old(self).tracks@[j],
                self.host == old(self).host,
                self.settings == old(self).settings,
                old(self).wf(),
            decreases n - i,
        {
            let channel = self.tracks[i].input_channel();
            match channel {
                Some(c) => {
                    if c < frame.len() {
                        let sample = frame[c];
                        self.tracks[i].record(sample);
                    }
                },
                None => {},
            }
            i += 1;
        }
    }

    /// Produce one outgoing frame's worth of per-track samples: one `play`
    /// per track, in track order. Combining the per-track samples into one
    /// output signal (a mixing policy) is the caller's responsibility.
    /// Real-time safe: one bounded pass over the tracks.
    pub fn process_play_frame(&mut self) -> (out: Vec<u32>)
        requires
            old(self).wf(),
        ensures
            final(self).wf(),
            out@.len() == old(self).tracks@.len(),
            final(self).tracks@.len() == old(self).tracks@.len(),
            forall|i: int| 0 <= i < old(self).tracks@.len() ==> out@[i] == spec_play(
                (#[trigger] old(self).tracks@[i])@,
            ).0,
            forall|i: int| 0 <= i < old(self).tracks@.len() ==> (#[trigger] final(self).tracks@[i])@
                == spec_play(old(self).tracks@[i]@).1,
            final(self).host == old(self).host,
            final(self).settings == old(self).settings,
    {
        let n = self.tracks.len();
        let mut out: Vec<u32> = Vec::new();
        let mut i: usize = 0;
        while i < n
            invariant
                i <= n,
                n == self.tracks@.len(),
                n == old(self).tracks@.len(),
                out@.len() == i,
                forall|j: int| 0 <= j < i ==> out@[j] == spec_play(
                    (#[trigger] old(self).tracks@[j])@,
                ).0,
                forall|j: int| 0 <= j < i ==> (#[trigger] self.tracks@[j])@ == spec_play(
                    old(self).tracks@[j]@,
                ).1,
                forall|j: int| i <= j < n ==> self.tracks@[j] == old(self).tracks@[j],
                self.host == old(self).host,
                self.settings == old(self).settings,
                old(self).wf(),
            decreases n - i,
        {
            let sample = self.tracks[i].play();
            out.push(sample);
            i += 1;
        }
        out
    }
}

/// Apply the input-direction device switch described by
/// `spec_switch_input_device`.
fn apply_input_switch(settings: &mut AudioEngineSettings, device: DeviceInfo)
    requires
        old(settings).wf(),
        device_wf(device@),
    ensures
        final(settings).wf(),
        final(settings)@ == spec_switch_input_device(old(settings)@, device@),
{
    let rate = if rate_supported(&device.capabilities, settings.sample_rate) {
        settings.sample_rate
    } else {
        device.default_config.sample_rate
    };
    let buffer_size = match settings.buffer_size {
        crate::config::BufferSize::Fixed(n) => crate::config::BufferSize::Fixed(n),
        crate::config::BufferSize::DeviceDefault => device.default_config.buffer_size,
    };
    settings.input_config = StreamConfig {
        channels: device.default_config.channels,
        sample_rate: rate,
        buffer_size,
    };
    settings.num_input_channels = device.default_config.channels;
    settings.sample_rate = rate;
    settings.output_config.sample_rate = rate;
    settings.input_device = device;
}

/// Apply the output-direction device switch described by
/// `spec_switch_output_device`.
fn apply_output_switch(settings: &mut AudioEngineSettings, device: DeviceInfo)
    requires
        old(settings).wf(),
        device_wf(device@),
    ensures
        final(settings).wf(),
        final(settings)@ == spec_switch_output_device(old(settings)@, device@),
{
    let rate = if rate_supported(&device.capabilities, settings.sample_rate) {
        settings.sample_rate
    } else {
        device.default_config.sample_rate
    };
    let buffer_size = match settings.buffer_size {
        crate::config::BufferSize::Fixed(n) => crate::config::BufferSize::Fixed(n),
        crate::config::BufferSize::DeviceDefault => device.default_config.buffer_size,
    };
    settings.output_config = StreamConfig {
        channels: device.default_config.channels,
        sample_rate: rate,
        buffer_size,
    };
    settings.num_output_channels = device.default_config.channels;
    settings.sample_rate = rate;
    settings.input_config.sample_rate = rate;
    settings.output_device = device;
}

/// The first index in `devices` whose device carries exactly the name, or
/// none.
fn find_device(devices: &Vec<DeviceInfo>, name: &str) -> (r: Option<usize>)
    ensures
        r matches Some(i) ==> i < devices@.len() && spec_find_device(
            devices@.map_values(|d: DeviceInfo| d@),
            name@,
        ) == Some(i as int),
        r is None ==> spec_find_device(devices@.map_values(|d: DeviceInfo| d@), name@) is None,
{
    let ghost views = devices@.map_values(|d: DeviceInfo| d@);
    let wanted: String = name.to_owned();
    let mut i: usize = 0;
    while i < devices.len()
        invariant
            i <= devices@.len(),
            wanted@ == name@,
            views == devices@.map_values(|d: DeviceInfo| d@),
            forall|j: int| 0 <= j < i ==> (#[trigger] views[j]).name != name@,
        decreases devices@.len() - i,
    {
        if devices[i].name == wanted {
            proof {
                lemma_find_device_first_match(views, name@, i as int);
            }
            return Some(i);
        }
        i += 1;
    }
    proof {
        lemma_find_device_no_match(views, name@);
    }
    None
}

/// Resolve a requested device name against one direction of a host
/// snapshot, as `spec_resolve_device` describes: the sentinel name
/// `default` picks the default index, any other name must match exactly.
fn resolve_device(devices: &Vec<DeviceInfo>, default: Option<usize>, name: &str) -> (r: Option<
    usize,
>)
    ensures
        r matches Some(i) ==> i < devices@.len() && spec_resolve_device(
            devices@.map_values(|d: DeviceInfo| d@),
            default,
            name@,
        ) == Some(devices@.map_values(|d: DeviceInfo| d@)[i as int]),
        r is None ==> spec_resolve_device(
            devices@.map_values(|d: DeviceInfo| d@),
            default,
            name@,
        ) is None,
{
    let sentinel: &str = "default";
    let is_default = str_eq(name, sentinel);
    proof {
        reveal_strlit("default");
    }
    if is_default {
        match default {
            Some(i) => if i < devices.len() {
                Some(i)
            } else {
                None
            },
            None => None,
        }
    } else {
        find_device(devices, name)
    }
}

/// Whether two strings hold the same characters.
fn str_eq(a: &str, b: &str) -> (r: bool)
    ensures
        r == (a@ == b@),
{
    let owned_a: String = a.to_owned();
    let owned_b: String = b.to_owned();
    owned_a == owned_b
}

proof fn lemma_find_device_first_match(devices: Seq<DeviceInfoView>, name: Seq<char>, k: int)
    requires
        0 <= k < devices.len(),
        forall|j: int| 0 <= j < k ==> (#[trigger] devices[j]).name != name,
        devices[k].name == name,
    ensures
        spec_find_device(devices, name) == Some(k),
    decreases devices.len(),
{
    if k == 0 {
    } else {
        assert(devices[0].name != name);
        let rest = devices.drop_first();
        assert(forall|j: int| 0 <= j < k - 1 ==> (#[trigger] rest[j]).name != name);
        assert(rest[k - 1].name == name);
        lemma_find_device_first_match(rest, name, k - 1);
    }
}

proof fn lemma_find_device_no_match(devices: Seq<DeviceInfoView>, name: Seq<char>)
    requires
        forall|j: int| 0 <= j < devices.len() ==> (#[trigger] devices[j]).name != name,
    ensures
        spec_find_device(devices, name) is None,
    decreases devices.len(),
{
    if devices.len() != 0 {
        lemma_find_device_no_match(devices.drop_first(), name);
    }
}

} // verus!
