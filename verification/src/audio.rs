//! Tones, the sample bookkeeping of a rendered tone, the playback channel
//! that queues rendered tones in submission order, and the two completion
//! melodies.
//!
//! A frequency is a whole number of hundredths of a hertz, a duration a whole
//! number of milliseconds. What a sample sounds like is decided where the
//! samples are handed to the audio device; this module decides how many there
//! are, which comes next, and in what order queued tones play.

use crate::session::TimerType;
use vstd::prelude::*;

verus! {

/// Samples per second of every rendered tone.
pub const SAMPLE_RATE: u32 = 44100;

/// One note or rest. Frequency zero is a rest.
#[derive(Clone, Copy, Debug, PartialEq, Eq, Structural)]
pub struct Tone {
    /// Hundredths of a hertz; zero for silence.
    pub frequency: u32,
    /// Milliseconds.
    pub duration: u32,
}

/// The two voices a tone can be rendered in.
#[derive(Clone, Copy, Debug, PartialEq, Eq, Structural)]
pub enum Timbre {
    /// Fundamental with third and fifth harmonics, fast decay, faded tail.
    Harmonic,
    /// Plain square wave with a slow decay.
    Square,
}

/// The number of samples in `duration` milliseconds at `sample_rate`,
/// rounded to the nearest whole sample (a half rounds up).
pub open spec fn sample_count(duration: u32, sample_rate: u32) -> nat {
    ((duration * sample_rate + 500) / 1000) as nat
}

/// `sample_count` is the whole number nearest to the exact quotient: it is
/// off from `duration * sample_rate / 1000` by at most half a sample.
pub proof fn lemma_sample_count_is_nearest(duration: u32, sample_rate: u32)
    ensures
        duration * sample_rate - 500 < 1000 * sample_count(duration, sample_rate) <= duration
            * sample_rate + 500,
        duration * sample_rate + 500 <= u64::MAX,
        sample_count(duration, sample_rate) <= u64::MAX,
{
    let exact = duration * sample_rate;
    assert(0 <= exact <= 0xFFFF_FFFF * 0xFFFF_FFFF) by (nonlinear_arith)
        requires
            exact == duration * sample_rate,
            0 <= duration <= 0xFFFF_FFFF,
            0 <= sample_rate <= 0xFFFF_FFFF,
    ;
    vstd::arithmetic::div_mod::lemma_fundamental_div_mod(exact + 500, 1000);
    vstd::arithmetic::div_mod::lemma_mod_bound(exact + 500, 1000);
}

/// A tone as given.
pub fn tone(frequency: u32, duration: u32) -> (t: Tone)
    ensures
        t == (Tone { frequency, duration }),
{
    Tone { frequency, duration }
}

/// A tone being rendered: how many samples it has in all, and how many of
/// them have been produced.
#[derive(Clone, Copy, Debug, PartialEq, Eq, Structural)]
pub struct ToneSource {
    pub freq: u32,
    pub duration: u32,
    pub sample_rate: u32,
    pub timbre: Timbre,
    pub sample_idx: u64,
    pub total_samples: u64,
}

impl ToneSource {
    /// The total is the rounded sample count of the duration, and the
    /// position is within it.
    pub open spec fn wf(self) -> bool {
        &&& self.total_samples == sample_count(self.duration, self.sample_rate)
        &&& self.sample_idx <= self.total_samples
    }

    /// A source at its first sample.
    pub open spec fn rendered(t: Tone, sample_rate: u32, timbre: Timbre) -> ToneSource {
        ToneSource {
            freq: t.frequency,
            duration: t.duration,
            sample_rate,
            timbre,
            sample_idx: 0,
            total_samples: sample_count(t.duration, sample_rate) as u64,
        }
    }

    /// Samples not yet produced.
    pub open spec fn remaining_samples(self) -> nat {
        if self.total_samples >= self.sample_idx {
            (self.total_samples - self.sample_idx) as nat
        } else {
            0
        }
    }

    /// The source after `count` samples have been taken from it; taking from
    /// an exhausted source changes nothing.
    pub open spec fn advanced(self, count: nat) -> ToneSource {
        if count <= self.remaining_samples() {
            ToneSource { sample_idx: (self.sample_idx + count) as u64, ..self }
        } else {
            ToneSource { sample_idx: (self.sample_idx + self.remaining_samples()) as u64, ..self }
        }
    }

    /// Every sample of this source is an exact zero.
    pub open spec fn silent(self) -> bool {
        self.freq == 0
    }

    /// Renders `t` at `sample_rate`: a source of exactly the rounded number
    /// of samples that its duration holds, none of them produced yet.
    pub fn new(t: Tone, sample_rate: u32, timbre: Timbre) -> (source: ToneSource)
        ensures
            source == Self::rendered(t, sample_rate, timbre),
            source.wf(),
            source.remaining_samples() == sample_count(t.duration, sample_rate),
    {
        proof {
            lemma_sample_count_is_nearest(t.duration, sample_rate);
        }
        let exact: u64 = (t.duration as u64) * (sample_rate as u64);
        let total_samples: u64 = (exact + 500) / 1000;
        ToneSource {
            freq: t.frequency,
            duration: t.duration,
            sample_rate,
            timbre,
            sample_idx: 0,
            total_samples,
        }
    }

    /// Takes the next sample: its position in the tone, or nothing once all
    /// samples have been produced.
    pub fn next(&mut self) -> (position: Option<u64>)
        ensures
            *final(self) == old(self).advanced(1),
            position == if old(self).remaining_samples() > 0 {
                Some(old(self).sample_idx)
            } else {
                None
            },
            final(self).remaining_samples() == if old(self).remaining_samples() > 0 {
                old(self).remaining_samples() - 1
            } else {
                0
            },
            old(self).wf() ==> final(self).wf(),
    {
        if self.sample_idx >= self.total_samples {
            return None;
        }
        let position = self.sample_idx;
        self.sample_idx += 1;
        Some(position)
    }

    /// How many samples are still to come.
    pub fn current_frame_len(&self) -> (left: u64)
        ensures
            left == self.remaining_samples(),
    {
        if self.total_samples >= self.sample_idx {
            self.total_samples - self.sample_idx
        } else {
            0
        }
    }

    /// Tones are mono.
    pub fn channels(&self) -> (count: u16)
        ensures
            count == 1,
    {
        1
    }

    /// Samples per second.
    pub fn sample_rate(&self) -> (rate: u32)
        ensures
            rate == self.sample_rate,
    {
        self.sample_rate
    }

    /// Length of the whole tone in milliseconds.
    pub fn total_duration(&self) -> (millis: u32)
        ensures
            millis == self.duration,
    {
        self.duration
    }

    /// Whether this source is a rest.
    pub fn is_silence(&self) -> (rest: bool)
        ensures
            rest == self.silent(),
    {
        self.freq == 0
    }
}

/// A source yields exactly as many samples as remain: taking `count` of them
/// one after another, with `count` no more than what remains, leaves the
/// remainder less by `count`, and an exhausted source stays exhausted.
pub proof fn lemma_source_yields_exactly(source: ToneSource, count: nat)
    requires
        source.wf(),
    ensures
        source.advanced(count).wf(),
        count <= source.remaining_samples() ==> source.advanced(count).remaining_samples()
            == source.remaining_samples() - count,
        count >= source.remaining_samples() ==> source.advanced(count).remaining_samples() == 0,
        count < source.remaining_samples() ==> source.advanced(count).advanced(1) == source.advanced(
            count + 1,
        ),
        source.advanced(source.remaining_samples()).advanced(1) == source.advanced(
            source.remaining_samples(),
        ),
{
}

/// A fresh rendering of any tone, rest or not, holds exactly the rounded
/// number of samples of its duration.
pub proof fn lemma_rendered_length(t: Tone, sample_rate: u32, timbre: Timbre)
    ensures
        ToneSource::rendered(t, sample_rate, timbre).wf(),
        ToneSource::rendered(t, sample_rate, timbre).remaining_samples() == sample_count(
            t.duration,
            sample_rate,
        ),
        ToneSource::rendered(t, sample_rate, timbre).silent() == (t.frequency == 0),
{
    lemma_sample_count_is_nearest(t.duration, sample_rate);
}

/// Each tone rendered at the fixed sample rate, in order.
pub open spec fn render_all(tones: Seq<Tone>, timbre: Timbre) -> Seq<ToneSource> {
    Seq::new(tones.len(), |i: int| ToneSource::rendered(tones[i], SAMPLE_RATE, timbre))
}

/// The samples of one source, as a playback names them: source `place` of
/// the queue, from its current position to its last sample.
pub open spec fn source_samples(place: int, source: ToneSource) -> Seq<(int, int)> {
    Seq::new(source.remaining_samples(), |k: int| (place, source.sample_idx + k))
}

/// The order in which the samples of a queue come out: each entry names a
/// queued source by its place in the queue and one of its samples by its
/// position in the tone.
pub open spec fn playback(queue: Seq<ToneSource>) -> Seq<(int, int)>
    decreases queue.len(),
{
    if queue.len() == 0 {
        Seq::empty()
    } else {
        playback(queue.drop_last()) + source_samples(queue.len() - 1, queue.last())
    }
}

/// An ordered playback queue. A channel whose device could not be opened is
/// disabled for good: it never queues anything.
#[derive(Debug)]
pub struct AudioChannel {
    pub enabled: bool,
    pub queue: Vec<ToneSource>,
}

impl AudioChannel {
    /// The queue after `sources` have been appended; a disabled channel
    /// keeps its queue.
    pub open spec fn queue_after(self, sources: Seq<ToneSource>) -> Seq<ToneSource> {
        if self.enabled {
            self.queue@ + sources
        } else {
            self.queue@
        }
    }

    /// A channel with nothing queued, enabled if the device is there.
    pub fn new(device_available: bool) -> (channel: AudioChannel)
        ensures
            channel.enabled == device_available,
            channel.queue@ == Seq::<ToneSource>::empty(),
    {
        AudioChannel { enabled: device_available, queue: Vec::new() }
    }

    /// Queues `source` behind everything queued before it. On a disabled
    /// channel this does nothing.
    pub fn append(&mut self, source: ToneSource)
        ensures
            final(self).enabled == old(self).enabled,
            final(self).queue@ == old(self).queue_after(seq![source]),
    {
        if self.enabled {
            self.queue.push(source);
            assert(self.queue@ =~= old(self).queue@ + seq![source]);
        }
    }

    /// Renders each tone and queues it, in the order given.
    pub fn play(&mut self, tones: &Vec<Tone>, timbre: Timbre)
        ensures
            final(self).enabled == old(self).enabled,
            final(self).queue@ == old(self).queue_after(render_all(tones@, timbre)),
    {
        let mut i: usize = 0;
        while i < tones.len()
            invariant
                i <= tones.len(),
                self.enabled == old(self).enabled,
                self.queue@ == old(self).queue_after(render_all(tones@.take(i as int), timbre)),
            decreases tones.len() - i,
        {
            let ghost before = self.queue@;
            self.append(ToneSource::new(tones[i], SAMPLE_RATE, timbre));
            assert(self.queue@ == old(self).queue_after(
                render_all(tones@.take(i as int + 1), timbre),
            )) by {
                assert(render_all(tones@.take(i as int + 1), timbre) =~= render_all(
                    tones@.take(i as int),
                    timbre,
                ) + seq![ToneSource::rendered(tones@[i as int], SAMPLE_RATE, timbre)]);
                if self.enabled {
                    assert(self.queue@ =~= old(self).queue@ + render_all(
                        tones@.take(i as int + 1),
                        timbre,
                    ));
                }
            }
            i += 1;
        }
        assert(tones@.take(tones.len() as int) =~= tones@);
    }

    /// Hands over everything queued, first queued first, and leaves the
    /// queue empty.
    pub fn take_queued(&mut self) -> (sources: Vec<ToneSource>)
        ensures
            sources@ == old(self).queue@,
            final(self).queue@ == Seq::<ToneSource>::empty(),
            final(self).enabled == old(self).enabled,
    {
        let mut sources: Vec<ToneSource> = Vec::new();
        core::mem::swap(&mut self.queue, &mut sources);
        sources
    }
}

/// Appending keeps what was queued in front: the playback of a queue with
/// one more source is the playback of the queue followed by all remaining
/// samples of that source, in order.
pub proof fn lemma_playback_push(queue: Seq<ToneSource>, source: ToneSource)
    ensures
        playback(queue.push(source)) == playback(queue) + source_samples(queue.len() as int, source),
{
    assert(queue.push(source).drop_last() =~= queue);
    assert(source_samples(queue.push(source).len() - 1, queue.push(source).last())
        =~= source_samples(queue.len() as int, source));
}

/// Every entry of a playback names a source of the queue, and the entries
/// rise: by source first, by sample within a source.
pub proof fn lemma_playback_sorted(queue: Seq<ToneSource>, i: int, j: int)
    requires
        0 <= i < j < playback(queue).len(),
    ensures
        0 <= playback(queue)[i].0 < queue.len(),
        0 <= playback(queue)[j].0 < queue.len(),
        playback(queue)[i].0 < playback(queue)[j].0 || (playback(queue)[i].0 == playback(queue)[j].0
            && playback(queue)[i].1 < playback(queue)[j].1),
    decreases queue.len(),
{
    if queue.len() > 0 {
        let front = playback(queue.drop_last());
        if j < front.len() {
            lemma_playback_sorted(queue.drop_last(), i, j);
        } else if i < front.len() {
            if i > 0 {
                lemma_playback_sorted(queue.drop_last(), 0, i);
            } else if front.len() > 1 {
                lemma_playback_sorted(queue.drop_last(), 0, 1);
            } else {
                lemma_playback_single(queue.drop_last());
            }
        }
    }
}

/// A playback with a single entry names a source of the queue.
proof fn lemma_playback_single(queue: Seq<ToneSource>)
    requires
        playback(queue).len() == 1,
    ensures
        0 <= playback(queue)[0].0 < queue.len(),
    decreases queue.len(),
{
    if queue.len() > 0 {
        let front = playback(queue.drop_last());
        if front.len() == 1 {
            lemma_playback_single(queue.drop_last());
        }
    }
}

/// Tones play in submission order: no sample of a source queued later comes
/// out before a sample of a source queued earlier.
pub proof fn lemma_playback_in_submission_order(queue: Seq<ToneSource>, i: int, j: int)
    requires
        0 <= i < playback(queue).len(),
        0 <= j < playback(queue).len(),
        playback(queue)[i].0 < playback(queue)[j].0,
    ensures
        i < j,
{
    if j < i {
        lemma_playback_sorted(queue, j, i);
    }
}

/// Appending `first` and then `second` to a queue plays the queue, then all
/// of `first`, then all of `second`: `first` plays to completion before any
/// sample of `second` comes out.
pub proof fn lemma_appended_play_back_to_back(
    queue: Seq<ToneSource>,
    first: ToneSource,
    second: ToneSource,
)
    ensures
        playback(queue.push(first).push(second)) == playback(queue) + source_samples(
            queue.len() as int,
            first,
        ) + source_samples(queue.len() as int + 1, second),
{
    lemma_playback_push(queue, first);
    lemma_playback_push(queue.push(first), second);
}

/// The four falling tones that close a work interval.
pub open spec fn work_complete_melody() -> Seq<Tone> {
    seq![
        Tone { frequency: 176000, duration: 100 },
        Tone { frequency: 88000, duration: 100 },
        Tone { frequency: 44000, duration: 150 },
        Tone { frequency: 22000, duration: 200 },
    ]
}

/// The rising call, a rest, and the four phrases that close a break.
pub open spec fn break_complete_melody() -> Seq<Tone> {
    seq![
        Tone { frequency: 22000, duration: 150 },
        Tone { frequency: 44000, duration: 150 },
        Tone { frequency: 88000, duration: 150 },
        Tone { frequency: 176000, duration: 300 },
        Tone { frequency: 0, duration: 300 },
        Tone { frequency: 52325, duration: 300 },
        Tone { frequency: 58733, duration: 300 },
        Tone { frequency: 65925, duration: 300 },
        Tone { frequency: 69846, duration: 400 },
        Tone { frequency: 0, duration: 100 },
        Tone { frequency: 78399, duration: 300 },
        Tone { frequency: 88000, duration: 300 },
        Tone { frequency: 98777, duration: 300 },
        Tone { frequency: 104650, duration: 500 },
        Tone { frequency: 0, duration: 200 },
        Tone { frequency: 104650, duration: 250 },
        Tone { frequency: 98777, duration: 250 },
        Tone { frequency: 88000, duration: 250 },
        Tone { frequency: 78399, duration: 250 },
        Tone { frequency: 69846, duration: 300 },
        Tone { frequency: 65925, duration: 400 },
        Tone { frequency: 0, duration: 150 },
        Tone { frequency: 52325, duration: 200 },
        Tone { frequency: 65925, duration: 200 },
        Tone { frequency: 78399, duration: 200 },
        Tone { frequency: 104650, duration: 300 },
        Tone { frequency: 117466, duration: 200 },
        Tone { frequency: 131851, duration: 600 },
    ]
}

/// The tones of the work-complete cue.
pub fn work_complete_tones() -> (tones: Vec<Tone>)
    ensures
        tones@ == work_complete_melody(),
{
    let tones = vec![
        tone(176000, 100),
        tone(88000, 100),
        tone(44000, 150),
        tone(22000, 200),
    ];
    assert(tones@ =~= work_complete_melody());
    tones
}

/// The tones and rests of the break-complete music.
pub fn break_complete_tones() -> (tones: Vec<Tone>)
    ensures
        tones@ == break_complete_melody(),
{
    let tones = vec![
        tone(22000, 150),
        tone(44000, 150),
        tone(88000, 150),
        tone(176000, 300),
        tone(0, 300),
        tone(52325, 300),
        tone(58733, 300),
        tone(65925, 300),
        tone(69846, 400),
        tone(0, 100),
        tone(78399, 300),
        tone(88000, 300),
        tone(98777, 300),
        tone(104650, 500),
        tone(0, 200),
        tone(104650, 250),
        tone(98777, 250),
        tone(88000, 250),
        tone(78399, 250),
        tone(69846, 300),
        tone(65925, 400),
        tone(0, 150),
        tone(52325, 200),
        tone(65925, 200),
        tone(78399, 200),
        tone(104650, 300),
        tone(117466, 200),
        tone(131851, 600),
    ];
    assert(tones@ =~= break_complete_melody());
    tones
}

/// The melody that announces the completion of an interval of this kind.
pub open spec fn completion_melody(timer_type: TimerType) -> Seq<Tone> {
    match timer_type {
        TimerType::Work => work_complete_melody(),
        TimerType::Break => break_complete_melody(),
    }
}

/// Plays the completion cues on a channel that the caller owns.
#[derive(Clone, Copy, Debug)]
pub struct AudioManager {}

impl AudioManager {
    /// Queues the work-complete cue behind whatever the channel holds.
    pub fn play_work_complete_sound(&self, channel: &mut AudioChannel)
        ensures
            final(channel).enabled == old(channel).enabled,
            final(channel).queue@ == old(channel).queue_after(
                render_all(work_complete_melody(), Timbre::Harmonic),
            ),
    {
        let tones = work_complete_tones();
        self.play_audio(&tones, channel);
    }

    /// Queues the break-complete music behind whatever the channel holds.
    pub fn play_break_complete_music(&self, channel: &mut AudioChannel)
        ensures
            final(channel).enabled == old(channel).enabled,
            final(channel).queue@ == old(channel).queue_after(
                render_all(break_complete_melody(), Timbre::Harmonic),
            ),
    {
        let complete_sequence = break_complete_tones();
        self.play_audio(&complete_sequence, channel);
    }

    /// Queues the melody for the completion of an interval of the given
    /// kind.
    pub fn play_melody(&self, timer_type: TimerType, channel: &mut AudioChannel)
        ensures
            final(channel).enabled == old(channel).enabled,
            final(channel).queue@ == old(channel).queue_after(
                render_all(completion_melody(timer_type), Timbre::Harmonic),
            ),
    {
        match timer_type {
            TimerType::Work => self.play_work_complete_sound(channel),
            TimerType::Break => self.play_break_complete_music(channel),
        }
    }

    /// Queues `tones` in the harmonic voice, in order.
    pub fn play_audio(&self, tones: &Vec<Tone>, channel: &mut AudioChannel)
        ensures
            final(channel).enabled == old(channel).enabled,
            final(channel).queue@ == old(channel).queue_after(
                render_all(tones@, Timbre::Harmonic),
            ),
    {
        channel.play(tones, Timbre::Harmonic);
    }
}

} // verus!
