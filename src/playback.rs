use vstd::prelude::*;

use crate::error::AudioError;
use crate::sample::Sample;

verus! {

/// Nanoseconds in one second.
pub const NANOS_PER_SEC: u64 = 1_000_000_000;

/// A length of time, in whole seconds plus a fraction in nanoseconds.
#[derive(Debug, Clone, Copy, PartialEq, Eq, Structural)]
pub struct TimeSpan {
    pub secs: u64,
    pub nanos: u32,
}

impl TimeSpan {
    /// The whole span in nanoseconds.
    pub open spec fn total_nanos(self) -> int {
        self.secs * NANOS_PER_SEC + self.nanos
    }
}

/// How long `count` interleaved samples play at `rate` frames per second over
/// `channels` channels, `count / rate / channels` seconds, in whole nanoseconds
/// (rounded down).
pub open spec fn playback_nanos(count: nat, rate: nat, channels: nat) -> int {
    (count * NANOS_PER_SEC) as int / (rate * channels) as int
}

/// The duration of `count` samples at `rate` frames per second over
/// `channels` channels.
pub fn playback_span(count: usize, rate: u32, channels: u16) -> (r: TimeSpan)
    requires
        rate > 0,
        channels > 0,
    ensures
        r.total_nanos() == playback_nanos(count as nat, rate as nat, channels as nat),
        r.nanos < NANOS_PER_SEC,
{
    assert((rate as int) * (channels as int) <= 0xffff_ffff_ffff) by (nonlinear_arith)
        requires
            rate <= 0xffff_ffff,
            channels <= 0xffff,
    ;
    assert((rate as int) * (channels as int) >= 1) by (nonlinear_arith)
        requires
            rate >= 1,
            channels >= 1,
    ;
    let per_sec: u128 = rate as u128 * channels as u128;
    let scaled: u128 = count as u128 * (NANOS_PER_SEC as u128);
    let total: u128 = scaled / per_sec;
    assert(total <= scaled) by (nonlinear_arith)
        requires
            per_sec >= 1,
            total == scaled / per_sec,
            scaled >= 0,
    ;
    let secs: u128 = total / (NANOS_PER_SEC as u128);
    let nanos: u128 = total % (NANOS_PER_SEC as u128);
    assert(secs <= count);
    TimeSpan { secs: secs as u64, nanos: nanos as u32 }
}

/// What a playback source is, to its reader: how it advertises its data, the
/// samples it holds, and how many of them it has handed out.
pub struct SourceState {
    pub sample_rate: u32,
    pub channels: u16,
    pub samples: Seq<Sample>,
    pub position: nat,
}

impl SourceState {
    /// How many samples are still to come.
    pub open spec fn remaining(self) -> int {
        self.samples.len() - self.position
    }

    /// One pull: the next sample and the cursor moved past it, or, once every
    /// sample has been handed out, nothing and no change.
    pub open spec fn pull(self) -> (SourceState, Option<Sample>) {
        if self.position < self.samples.len() {
            (SourceState { position: self.position + 1, ..self }, Some(self.samples[self.position as int]))
        } else {
            (self, None)
        }
    }

    /// The state after `n` pulls.
    pub open spec fn after_pulls(self, n: nat) -> SourceState
        decreases n,
    {
        if n == 0 {
            self
        } else {
            self.after_pulls((n - 1) as nat).pull().0
        }
    }
}

/// A finished capture offered as a finite, pull-based sequence of samples.
pub struct CapturedAudioSource {
    sample_rate: u32,
    channels: u16,
    data: Vec<Sample>,
    position: usize,
    duration: TimeSpan,
}

impl View for CapturedAudioSource {
    type V = SourceState;

    closed spec fn view(&self) -> SourceState {
        SourceState {
            sample_rate: self.sample_rate,
            channels: self.channels,
            samples: self.data@,
            position: self.position as nat,
        }
    }
}

impl CapturedAudioSource {
    /// The descriptors are positive, the cursor is within the data, and the
    /// duration fixed at construction is the data's.
    pub closed spec fn wf(&self) -> bool {
        &&& self.sample_rate > 0
        &&& self.channels > 0
        &&& self.position <= self.data@.len()
        &&& self.duration.total_nanos() == playback_nanos(
            self.data@.len(),
            self.sample_rate as nat,
            self.channels as nat,
        )
        &&& self.duration.nanos < NANOS_PER_SEC
    }

    /// A source over `data`, advertised at `sample_rate` frames per second
    /// over `channels` channels, with its cursor at the start. A zero rate or
    /// channel count is refused.
    pub fn new(sample_rate: u32, channels: u16, data: Vec<Sample>) -> (r: Result<
        CapturedAudioSource,
        AudioError,
    >)
        ensures
            (sample_rate == 0 || channels == 0) <==> r is Err,
            r matches Err(e) ==> e == AudioError::InvalidDescriptor,
            r matches Ok(s) ==> s.wf() && s@ == (SourceState {
                sample_rate,
                channels,
                samples: data@,
                position: 0,
            }),
    {
        if sample_rate == 0 || channels == 0 {
            return Err(AudioError::InvalidDescriptor);
        }
        let duration = playback_span(data.len(), sample_rate, channels);
        Ok(CapturedAudioSource { sample_rate, channels, data, position: 0, duration })
    }

    /// Hands out the next sample, or `None` once every sample has been handed
    /// out, and on every call after that.
    pub fn next(&mut self) -> (r: Option<Sample>)
        requires
            old(self).wf(),
        ensures
            final(self).wf(),
            (final(self)@, r) == old(self)@.pull(),
    {
        if self.position < self.data.len() {
            let sample = self.data[self.position];
            self.position = self.position + 1;
            Some(sample)
        } else {
            None
        }
    }

    /// How many samples are still to come.
    pub fn current_frame_len(&self) -> (r: usize)
        requires
            self.wf(),
        ensures
            r == self@.remaining(),
    {
        self.data.len() - self.position
    }

    /// The advertised channel count.
    pub fn channels(&self) -> (r: u16)
        ensures
            r == self@.channels,
    {
        self.channels
    }

    /// The advertised sample rate, in frames per second.
    pub fn sample_rate(&self) -> (r: u32)
        ensures
            r == self@.sample_rate,
    {
        self.sample_rate
    }

    /// How long the whole data plays, fixed when the source was built.
    pub fn total_duration(&self) -> (r: TimeSpan)
        requires
            self.wf(),
        ensures
            r.total_nanos() == playback_nanos(
                self@.samples.len(),
                self@.sample_rate as nat,
                self@.channels as nat,
            ),
            r.nanos < NANOS_PER_SEC,
    {
        self.duration
    }
}

/// Pulls move only the cursor: after `n` of them it stands `n` further on,
/// stopped at the end of the data.
pub proof fn lemma_after_pulls(s: SourceState, n: nat)
    requires
        s.position <= s.samples.len(),
    ensures
        s.after_pulls(n).position == if s.position + n <= s.samples.len() {
            s.position + n
        } else {
            s.samples.len()
        },
        s.after_pulls(n).samples == s.samples,
        s.after_pulls(n).sample_rate == s.sample_rate,
        s.after_pulls(n).channels == s.channels,
    decreases n,
{
    if n > 0 {
        lemma_after_pulls(s, (n - 1) as nat);
    }
}

/// A source built over `L` samples gives exactly `L` samples, in order, before
/// it signals exhaustion, and then signals it on every later pull. The count
/// of samples still to come drops by one with each successful pull and is zero
/// exactly when the source is exhausted; what the source advertises (rate,
/// channels, and so its duration) never changes.
pub proof fn lemma_pulls_until_exhausted(s: SourceState, n: nat)
    requires
        s.position == 0,
    ensures
        n < s.samples.len() ==> s.after_pulls(n).pull().1 == Some(s.samples[n as int]),
        n < s.samples.len() ==> s.after_pulls(n + 1).remaining() == s.after_pulls(n).remaining()
            - 1,
        n >= s.samples.len() ==> s.after_pulls(n).pull().1 is None,
        s.after_pulls(n).remaining() == if n <= s.samples.len() {
            s.samples.len() - n
        } else {
            0
        },
        s.after_pulls(n).remaining() == 0 <==> s.after_pulls(n).pull().1 is None,
        s.after_pulls(n).samples == s.samples,
        s.after_pulls(n).sample_rate == s.sample_rate,
        s.after_pulls(n).channels == s.channels,
{
    lemma_after_pulls(s, n);
    lemma_after_pulls(s, n + 1);
}

} // verus!
