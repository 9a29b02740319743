//! One recordable/playable channel strip: an append-only sample buffer that
//! grows only while the track is armed, and a playback cursor that emits the
//! recorded samples in order and degrades to silence at end-of-buffer.
//!
//! A sample is carried as its raw 32-bit encoding; the engine never
//! interprets sample values, it only stores and replays them. The encoding
//! of silence is 0.

use vstd::prelude::*;

verus! {

/// Mathematical view of a track.
pub struct TrackView {
    /// Which hardware input channel feeds this track's recorder; absent
    /// means the track does not record.
    pub input_channel: Option<usize>,
    /// The recorded samples, in recording order.
    pub samples: Seq<u32>,
    /// Whether incoming samples are appended.
    pub armed: bool,
    /// The next buffer position `play` will emit.
    pub cursor: int,
}

pub struct Track {
    input_channel: Option<usize>,
    buffer: Vec<u32>,
    rec_arm: bool,
    playback_pos: usize,
}

impl View for Track {
    type V = TrackView;

    closed spec fn view(&self) -> TrackView {
        TrackView {
            input_channel: self.input_channel,
            samples: self.buffer@,
            armed: self.rec_arm,
            cursor: self.playback_pos as int,
        }
    }
}

/// A track is well formed when its cursor lies in `[0, samples.len()]`;
/// a cursor at `samples.len()` means playback has reached end-of-buffer.
pub open spec fn track_wf(t: TrackView) -> bool {
    0 <= t.cursor <= t.samples.len()
}

/// What one `record` call does to a track: append the sample when armed,
/// otherwise change nothing.
pub open spec fn spec_record(t: TrackView, sample: u32) -> TrackView {
    if t.armed {
        TrackView { samples: t.samples.push(sample), ..t }
    } else {
        t
    }
}

/// What a run of `record` calls does to a track, one call per sample in
/// order.
pub open spec fn spec_record_all(t: TrackView, samples: Seq<u32>) -> TrackView
    decreases samples.len(),
{
    if samples.len() == 0 {
        t
    } else {
        spec_record_all(spec_record(t, samples[0]), samples.drop_first())
    }
}

/// What one `play` call does: the emitted sample and the track after the
/// call. Before end-of-buffer it emits the sample under the cursor and
/// advances; at end-of-buffer it emits silence and leaves the cursor.
pub open spec fn spec_play(t: TrackView) -> (u32, TrackView) {
    if t.cursor < t.samples.len() {
        (t.samples[t.cursor], TrackView { cursor: t.cursor + 1, ..t })
    } else {
        (0u32, t)
    }
}

/// The samples a run of `n` `play` calls emits.
pub open spec fn spec_play_run(t: TrackView, n: nat) -> Seq<u32>
    decreases n,
{
    if n == 0 {
        Seq::empty()
    } else {
        let (s, t2) = spec_play(t);
        seq![s] + spec_play_run(t2, (n - 1) as nat)
    }
}

/// The track after a run of `n` `play` calls.
pub open spec fn spec_play_run_state(t: TrackView, n: nat) -> TrackView
    decreases n,
{
    if n == 0 {
        t
    } else {
        let (s, t2) = spec_play(t);
        spec_play_run_state(t2, (n - 1) as nat)
    }
}

impl Track {
    /// A fresh track bound to zero or one input channel: empty buffer,
    /// disarmed, cursor at the start.
    pub fn new(input_channel: Option<usize>) -> (t: Track)
        ensures
            track_wf(t@),
            t@ == (TrackView {
                input_channel,
                samples: Seq::<u32>::empty(),
                armed: false,
                cursor: 0,
            }),
    {
        Track { input_channel, buffer: Vec::new(), rec_arm: false, playback_pos: 0 }
    }

    /// Set the armed flag; the buffer and the cursor are untouched.
    pub fn arm(&mut self, armed: bool)
        requires
            track_wf(old(self)@),
        ensures
            track_wf(final(self)@),
            final(self)@ == (TrackView { armed, ..old(self)@ }),
    {
        self.rec_arm = armed;
    }

    /// Append `sample` to the buffer iff the track is armed, else no-op.
    /// Real-time safe: an amortized O(1) append, no other work.
    pub fn record(&mut self, sample: u32)
        requires
            track_wf(old(self)@),
        ensures
            track_wf(final(self)@),
            final(self)@ == spec_record(old(self)@, sample),
    {
        if self.rec_arm {
            self.buffer.push(sample);
        }
    }

    /// Emit the next sample: the one under the cursor (advancing it) before
    /// end-of-buffer, silence (0) without advancing at end-of-buffer.
    /// Never errors, never blocks, never allocates.
    pub fn play(&mut self) -> (sample: u32)
        requires
            track_wf(old(self)@),
        ensures
            track_wf(final(self)@),
            sample == spec_play(old(self)@).0,
            final(self)@ == spec_play(old(self)@).1,
    {
        if self.playback_pos < self.buffer.len() {
            let sample = self.buffer[self.playback_pos];
            self.playback_pos = self.playback_pos + 1;
            sample
        } else {
            0
        }
    }

    /// The input channel this track records from, if any.
    pub fn input_channel(&self) -> (r: Option<usize>)
        ensures
            r == self@.input_channel,
    {
        self.input_channel
    }

    /// How many samples the buffer holds.
    pub fn buffer_len(&self) -> (r: usize)
        ensures
            r == self@.samples.len(),
    {
        self.buffer.len()
    }

    /// Whether the track is armed.
    pub fn is_armed(&self) -> (r: bool)
        ensures
            r == self@.armed,
    {
        self.rec_arm
    }

    /// The playback cursor.
    pub fn position(&self) -> (r: usize)
        ensures
            r == self@.cursor,
    {
        self.playback_pos
    }
}

/// Law: while armed, a run of `record` calls appends exactly the recorded
/// samples, in order, and moves neither the cursor, the armed flag nor the
/// channel binding; in particular the buffer length grows by exactly the
/// number of calls.
pub proof fn lemma_record_run_armed(t: TrackView, samples: Seq<u32>)
    requires
        t.armed,
    ensures
        spec_record_all(t, samples) == (TrackView { samples: t.samples + samples, ..t }),
        spec_record_all(t, samples).samples.len() == t.samples.len() + samples.len(),
    decreases samples.len(),
{
    if samples.len() == 0 {
        assert(t.samples + samples =~= t.samples);
    } else {
        lemma_record_run_armed(spec_record(t, samples[0]), samples.drop_first());
        assert(t.samples.push(samples[0]) + samples.drop_first() =~= t.samples + samples);
    }
}

/// Law: while disarmed, a run of `record` calls leaves the track unchanged;
/// in particular the buffer length does not change.
pub proof fn lemma_record_run_disarmed(t: TrackView, samples: Seq<u32>)
    requires
        !t.armed,
    ensures
        spec_record_all(t, samples) == t,
    decreases samples.len(),
{
    if samples.len() != 0 {
        lemma_record_run_disarmed(t, samples.drop_first());
    }
}

/// Law: a run of `n` `play` calls emits, position by position, the recorded
/// sample where the cursor is still inside the buffer and silence (0)
/// beyond it, and leaves the cursor at `min(cursor + n, buffer length)` --
/// never past end-of-buffer.
pub proof fn lemma_play_run(t: TrackView, n: nat)
    requires
        track_wf(t),
    ensures
        spec_play_run(t, n).len() == n,
        forall|i: int| 0 <= i < n ==> spec_play_run(t, n)[i] == (if t.cursor + i < t.samples.len() {
            t.samples[t.cursor + i]
        } else {
            0u32
        }),
        spec_play_run_state(t, n) == (TrackView {
            cursor: vstd::math::min(t.cursor + n, t.samples.len() as int),
            ..t
        }),
        track_wf(spec_play_run_state(t, n)),
    decreases n,
{
    if n != 0 {
        let (s, t2) = spec_play(t);
        lemma_play_run(t2, (n - 1) as nat);
    }
}

/// Law: record then play back. Starting from a fresh armed track, recording
/// a run of samples and then playing `samples.len() + extra` times emits
/// exactly the recorded samples in their original order followed by silence
/// (0) for every further call, and the cursor ends at the buffer length,
/// never past it.
pub proof fn lemma_record_then_play_round_trip(input_channel: Option<usize>, samples: Seq<u32>, extra: nat)
    ensures
        ({
            let fresh = TrackView { input_channel, samples: Seq::<u32>::empty(), armed: true, cursor: 0 };
            let recorded = spec_record_all(fresh, samples);
            let emitted = spec_play_run(recorded, samples.len() + extra);
            &&& recorded.samples == samples
            &&& emitted.len() == samples.len() + extra
            &&& (forall|i: int| 0 <= i < samples.len() ==> emitted[i] == samples[i])
            &&& (forall|i: int| samples.len() <= i < emitted.len() ==> emitted[i] == 0u32)
            &&& spec_play_run_state(recorded, samples.len() + extra).cursor == samples.len()
        }),
{
    let fresh = TrackView { input_channel, samples: Seq::<u32>::empty(), armed: true, cursor: 0 };
    lemma_record_run_armed(fresh, samples);
    let recorded = spec_record_all(fresh, samples);
    assert(recorded.samples =~= samples);
    lemma_play_run(recorded, samples.len() + extra);
}

} // verus!
