//! The processing of samples: the loop, and the mixer that it works with.
use crate::error::WindowsError;
use crate::processing::audio_mixer::{
    are_apart, are_readable, closest, counted, counted_alone, duration_fits, find_next, fits_alone,
    has_room_alone, is_closest, is_output, keep_last, last_items, next_pair, none_match,
    read_failure, timestamp_of, with_duration, AudioMixer, MixerStats, TimestampedSample,
};
use crate::processing::mixed_sample::MixerOutput;
use crate::processing::process::{
    process_action, ProcessAction, ProcessLoop, ProcessPhase, ProcessReply, Receipt,
};
use crate::types::{MediaSample, SendableSample};
use std::collections::VecDeque;
use std::sync::Arc;
use vstd::prelude::*;

verus! {

/// Frames per second of the sound that is mixed.
pub const MIXER_SAMPLE_RATE: u32 = 44100;

/// Bits per sample of the sound that is mixed.
pub const MIXER_BITS_PER_SAMPLE: u16 = 16;

/// Channels of the sound that is mixed.
pub const MIXER_CHANNELS: u16 = 2;

/// The processing of samples together with the mixer.
pub struct Processor {
    /// Where the processing stands.
    pub control: ProcessLoop,
    /// The mixer.
    pub mixer: AudioMixer,
    /// What the mixer has counted.
    pub stats: MixerStats,
    /// What the mixer has put out last.
    pub output: Option<MixerOutput>,
}

/// The time stamp of what a mixer puts out.
pub open spec fn output_time(output: MixerOutput) -> i64 {
    match output {
        MixerOutput::Mixed(mixed) => mixed.time,
        MixerOutput::PassedThrough(sample) => timestamp_of(*sample),
    }
}

/// Computes `output_time`.
fn time_of(output: &MixerOutput) -> (r: i64)
    ensures
        r == output_time(*output),
{
    match output {
        MixerOutput::Mixed(mixed) => mixed.time,
        MixerOutput::PassedThrough(sample) => match sample.time {
            Ok(time) => time,
            Err(_) => 0,
        },
    }
}

/// Whether there is a pair to be mixed next, and it cannot be read.
pub open spec fn next_is_unreadable(
    sys: Seq<TimestampedSample>,
    mic: Seq<TimestampedSample>,
    max: int,
) -> bool {
    let (i, j, _) = next_pair(sys, mic, max);
    0 <= i < sys.len() && 0 <= j < mic.len() && read_failure(*sys[i].0, *mic[j].0) is Some
}

/// The queues once all pairs that cannot be read were skipped, what was counted
/// meanwhile, and whether there was anything to do so far.
pub open spec fn skip_unreadable(
    sys: Seq<TimestampedSample>,
    mic: Seq<TimestampedSample>,
    max: int,
    stats: MixerStats,
    worked: bool,
) -> (Seq<TimestampedSample>, Seq<TimestampedSample>, MixerStats, bool)
    decreases sys.len(),
{
    let (i, j, _) = next_pair(sys, mic, max);
    if next_is_unreadable(sys, mic, max) {
        skip_unreadable(
            sys.remove(i),
            mic.remove(j),
            max,
            counted(sys, mic, max, stats),
            true,
        )
    } else {
        (sys, mic, stats, worked)
    }
}

/// Whether a phase is one that the processor passes through by itself.
pub open spec fn is_inner(phase: ProcessPhase) -> bool {
    phase is AddingAudio || phase is AddingMicrophone || phase is DroppingMicrophone
        || phase is Mixing
}

/// The queues once all pairs that cannot be read were skipped.
pub open spec fn readable_rest(
    sys: Seq<TimestampedSample>,
    mic: Seq<TimestampedSample>,
    max: int,
) -> (Seq<TimestampedSample>, Seq<TimestampedSample>)
    decreases sys.len(),
{
    let (i, j, _) = next_pair(sys, mic, max);
    if next_is_unreadable(sys, mic, max) {
        readable_rest(sys.remove(i), mic.remove(j), max)
    } else {
        (sys, mic)
    }
}

/// Skipping pairs makes the queue of the system audio no longer.
proof fn rest_is_no_longer(sys: Seq<TimestampedSample>, mic: Seq<TimestampedSample>, max: int)
    ensures
        readable_rest(sys, mic, max).0.len() <= sys.len(),
    decreases sys.len(),
{
    let (i, j, _) = next_pair(sys, mic, max);
    if next_is_unreadable(sys, mic, max) {
        rest_is_no_longer(sys.remove(i), mic.remove(j), max);
    }
}

/// Whether everything that the next output adds to can be counted: the pairs
/// that are skipped, and what is put out then, if there is anything. `both`
/// tells whether the sources wait for each other.
pub open spec fn can_put_out(
    sys: Seq<TimestampedSample>,
    mic: Seq<TimestampedSample>,
    max: int,
    stats: MixerStats,
    both: bool,
) -> bool {
    let (s, m) = readable_rest(sys, mic, max);
    let skipped = sys.len() - s.len();
    let has_next = (s.len() > 0 && m.len() > 0) || (!both && (s.len() > 0 || m.len() > 0));
    &&& stats.wf()
    &&& stats.call_count + skipped + (if has_next {
        1int
    } else {
        0int
    }) <= u32::MAX
    &&& if s.len() > 0 && m.len() > 0 {
        i64::MIN <= with_duration(
            stats.total_processed_duration,
            *s[next_pair(s, m, max).0].0,
        ) <= i64::MAX
    } else if both {
        true
    } else if s.len() > 0 {
        fits_alone(stats, *s[0].0)
    } else if m.len() > 0 {
        fits_alone(stats, *m[0].0)
    } else {
        true
    }
}

/// A second queue of the same samples.
fn copy_of(queue: &VecDeque<TimestampedSample>) -> (r: VecDeque<TimestampedSample>)
    ensures
        r@ == queue@,
{
    let n: usize = queue.len();
    let mut copy: VecDeque<TimestampedSample> = VecDeque::new();
    for i in 0..n
        invariant
            n == queue@.len(),
            copy@ == queue@.take(i as int),
    {
        copy.push_back(TimestampedSample(Arc::clone(&queue[i].0), queue[i].1));
        assert(copy@ =~= queue@.take(i + 1));
    }
    assert(queue@.take(n as int) =~= queue@);
    copy
}

/// Computes `can_put_out`.
fn fits_out(
    sys: VecDeque<TimestampedSample>,
    mic: VecDeque<TimestampedSample>,
    max: i64,
    stats: &MixerStats,
    both: bool,
) -> (r: bool)
    ensures
        r == can_put_out(sys@, mic@, max as int, *stats, both),
{
    if !stats.is_consistent() {
        return false;
    }
    let n: usize = sys.len();
    let mut s = sys;
    let mut m = mic;
    let mut calls: u128 = stats.call_count as u128;
    let ghost rest = readable_rest(sys@, mic@, max as int);
    while s.len() > 0 && m.len() > 0
        invariant
            rest == readable_rest(sys@, mic@, max as int),
            rest == readable_rest(s@, m@, max as int),
            s@.len() <= sys@.len(),
            n == sys@.len(),
            calls == stats.call_count + (sys@.len() - s@.len()),
        ensures
            s@.len() == 0 || m@.len() == 0 || read_failure(
                *s@[next_pair(s@, m@, max as int).0].0,
                *m@[next_pair(s@, m@, max as int).1].0,
            ) is None,
        decreases s@.len(),
    {
        let (i, j): (usize, usize) = find_next(&s, &m, max);
        if are_readable(&s[i].0, &m[j].0) {
            break;
        }
        let _ = s.remove(i);
        let _ = m.remove(j);
        calls = calls + 1;
    }
    assert(rest == (s@, m@));
    if s.len() > 0 && m.len() > 0 {
        let (i, _): (usize, usize) = find_next(&s, &m, max);
        return calls < u32::MAX as u128 && duration_fits(stats.total_processed_duration, &s[i].0);
    }
    if both || (s.len() == 0 && m.len() == 0) {
        return calls <= u32::MAX as u128;
    }
    let oldest = if s.len() > 0 {
        &s[0].0
    } else {
        &m[0].0
    };
    calls < u32::MAX as u128 && has_room_alone(stats, oldest)
}

impl Processor {
    /// Whether there is an output where one is to be buffered or written, and
    /// there is something outside to do.
    pub open spec fn wf(self) -> bool {
        &&& self.control.wf()
        &&& !is_inner(self.control.phase)
        &&& self.control.phase matches ProcessPhase::Buffering(time) ==> (
        self.output matches Some(output) && output_time(output) == time)
        &&& self.control.phase is Writing ==> self.output is Some
    }

    /// Whether everything that the next output adds to can be counted, where
    /// the sources wait for each other or not.
    pub open spec fn can_mix_as(self, both: bool) -> bool {
        can_put_out(
            self.mixer.system_audio_queue@,
            self.mixer.microphone_queue@,
            self.mixer.max_time_diff_ns as int,
            self.stats,
            both,
        )
    }

    /// Whether everything that the next output adds to can be counted.
    pub open spec fn can_mix(self) -> bool {
        self.can_mix_as(self.mixer.both_sources_active)
    }

    /// Computes `can_mix_as`.
    pub fn has_room(&self, both: bool) -> (r: bool)
        ensures
            r == self.can_mix_as(both),
    {
        fits_out(
            copy_of(&self.mixer.system_audio_queue),
            copy_of(&self.mixer.microphone_queue),
            self.mixer.max_time_diff_ns,
            &self.stats,
            both,
        )
    }

    /// The processing at the start, with nothing to mix. The sources wait for
    /// each other where both are recorded.
    pub fn start(
        encoder_started: bool,
        capture_audio: bool,
        capture_microphone: bool,
        has_replay: bool,
    ) -> (r: Self)
        ensures
            r.wf(),
            r.can_mix_as(false),
            r.control.phase == if encoder_started {
                ProcessPhase::Checking
            } else {
                ProcessPhase::StoppingRecording
            },
            r.control.capture_audio == capture_audio,
            r.control.capture_microphone == capture_microphone,
            r.control.has_replay == has_replay,
            !r.control.audio_disconnected,
            !r.control.microphone_disconnected,
            !r.control.had_work,
            r.mixer.system_audio_queue@ == Seq::<TimestampedSample>::empty(),
            r.mixer.microphone_queue@ == Seq::<TimestampedSample>::empty(),
            r.mixer.both_sources_active == (capture_audio && capture_microphone),
            r.mixer.max_buffer_size == 10,
            r.mixer.max_time_diff_ns == 200_000,
            r.mixer.sample_rate == 44100,
            r.mixer.channels == 2,
            r.stats == MixerStats::fresh(),
            r.output is None,
    {
        let mut mixer = AudioMixer::new(MIXER_SAMPLE_RATE, MIXER_BITS_PER_SAMPLE, MIXER_CHANNELS);
        mixer.set_both_sources_active(capture_audio && capture_microphone);
        Processor {
            control: ProcessLoop::start(
                encoder_started,
                capture_audio,
                capture_microphone,
                has_replay,
            ),
            mixer,
            stats: MixerStats::new(),
            output: None,
        }
    }

    /// What to do next: something outside.
    pub fn action(&self) -> (r: ProcessAction)
        requires
            self.wf(),
        ensures
            r == process_action(self.control.phase),
            !(r is AddAudio || r is AddMicrophone || r is DropMicrophone || r is Mix),
    {
        self.control.action()
    }

    /// The control once there is an output: it goes to the replay buffer, if
    /// there is one, or to the file.
    pub open spec fn with_output(self, output: MixerOutput) -> ProcessLoop {
        ProcessLoop {
            phase: if self.control.has_replay {
                ProcessPhase::Buffering(output_time(output))
            } else {
                ProcessPhase::Writing
            },
            had_work: true,
            ..self.control
        }
    }

    /// Whether `after` is what mixing comes to from here.
    ///
    /// Pairs that cannot be read are skipped. Then the next pair is mixed, or
    /// the oldest sample is passed through alone, where the mixer waits for
    /// neither source. Without either the round is over.
    pub open spec fn mixes_to(self, after: Processor) -> bool {
        let max = self.mixer.max_time_diff_ns as int;
        let (sys, mic, stats, worked) = skip_unreadable(
            self.mixer.system_audio_queue@,
            self.mixer.microphone_queue@,
            max,
            self.stats,
            self.control.had_work,
        );
        &&& after.mixer.same_settings(self.mixer)
        &&& if sys.len() > 0 && mic.len() > 0 {
            let (i, j, _) = next_pair(sys, mic, max);
            &&& after.output matches Some(output) && {
                &&& is_output(*sys[i].0, *mic[j].0, Ok(output))
                &&& after.control == self.with_output(output)
            }
            &&& after.mixer.system_audio_queue@ == sys.remove(i)
            &&& after.mixer.microphone_queue@ == mic.remove(j)
            &&& after.stats == counted(sys, mic, max, stats)
        } else if self.mixer.both_sources_active || (sys.len() == 0 && mic.len() == 0) {
            &&& after.output == self.output
            &&& after.control == (ProcessLoop { had_work: worked, ..self.control }).to_idle()
            &&& after.mixer.system_audio_queue@ == sys
            &&& after.mixer.microphone_queue@ == mic
            &&& after.stats == stats
        } else if sys.len() > 0 {
            let output = MixerOutput::PassedThrough(sys[0].0);
            &&& after.output == Some(output)
            &&& after.control == self.with_output(output)
            &&& after.mixer.system_audio_queue@ == sys.drop_first()
            &&& after.mixer.microphone_queue@ == mic
            &&& after.stats == counted_alone(stats, *sys[0].0, true)
        } else {
            let output = MixerOutput::PassedThrough(mic[0].0);
            &&& after.output == Some(output)
            &&& after.control == self.with_output(output)
            &&& after.mixer.system_audio_queue@ == sys
            &&& after.mixer.microphone_queue@ == mic.drop_first()
            &&& after.stats == counted_alone(stats, *mic[0].0, false)
        }
    }

    /// The processing without the microphone: the mixer waits for it no more.
    pub open spec fn without_microphone(self) -> Processor {
        Processor {
            control: self.control.to_mixing(),
            mixer: AudioMixer { both_sources_active: false, ..self.mixer },
            ..self
        }
    }

    /// Whether `after` is the processing once there is something outside to do.
    pub open spec fn settles_to(self, after: Processor) -> bool {
        let ready = if self.control.phase is DroppingMicrophone {
            self.without_microphone()
        } else {
            self
        };
        if ready.control.phase is Mixing {
            ready.mixes_to(after)
        } else {
            after == ready
        }
    }

    /// Mixes until there is something outside to do.
    fn mix(&mut self)
        requires
            old(self).control.wf(),
            old(self).control.phase is Mixing,
            old(self).can_mix(),
        ensures
            final(self).wf(),
            old(self).mixes_to(*final(self)),
    {
        let ghost max = self.mixer.max_time_diff_ns as int;
        loop
            invariant
                max == old(self).mixer.max_time_diff_ns,
                self.control.wf(),
                self.control.phase is Mixing,
                self.can_mix(),
                self.mixer.same_settings(old(self).mixer),
                self.output == old(self).output,
                self.control == (ProcessLoop {
                    had_work: self.control.had_work,
                    ..old(self).control
                }),
                skip_unreadable(
                    old(self).mixer.system_audio_queue@,
                    old(self).mixer.microphone_queue@,
                    max,
                    old(self).stats,
                    old(self).control.had_work,
                ) == skip_unreadable(
                    self.mixer.system_audio_queue@,
                    self.mixer.microphone_queue@,
                    max,
                    self.stats,
                    self.control.had_work,
                ),
            decreases self.mixer.system_audio_queue@.len(),
        {
            proof {
                let sys = self.mixer.system_audio_queue@;
                let mic = self.mixer.microphone_queue@;
                let (i, j, _) = next_pair(sys, mic, max);
                rest_is_no_longer(sys.remove(i), mic.remove(j), max);
            }
            match self.mixer.process_next_sample(&mut self.stats) {
                None => {
                    self.control.advance(ProcessReply::Mixed(None));
                    return;
                },
                Some(Ok(output)) => {
                    self.control.advance(ProcessReply::Mixed(Some(Ok(time_of(&output)))));
                    self.output = Some(output);
                    return;
                },
                Some(Err(_)) => {
                    self.control.advance(ProcessReply::Mixed(Some(Err(()))));
                },
            }
        }
    }

    /// Goes on until there is something outside to do.
    fn settle(&mut self)
        requires
            old(self).control.wf(),
            old(self).control.phase is DroppingMicrophone ==> old(self).can_mix_as(false),
            old(self).control.phase is Mixing ==> old(self).can_mix(),
            !(old(self).control.phase is AddingAudio),
            !(old(self).control.phase is AddingMicrophone),
            is_inner(old(self).control.phase) || old(self).wf(),
        ensures
            final(self).wf(),
            old(self).settles_to(*final(self)),
    {
        match &self.control.phase {
            ProcessPhase::DroppingMicrophone => {
                self.mixer.set_both_sources_active(false);
                self.control.advance(ProcessReply::Done(Ok(())));
            },
            _ => {},
        }
        match &self.control.phase {
            ProcessPhase::Mixing => {
                self.mix();
            },
            _ => {},
        }
    }

    /// Whether a reply answers the action at hand, and what is put out then can
    /// be counted. A sample that was received is no reply by itself.
    pub open spec fn expects(self, reply: ProcessReply) -> bool {
        &&& self.control.expects(reply)
        &&& !(reply matches ProcessReply::Received(Receipt::Sample(_)))
        &&& self.control.next(reply).phase is DroppingMicrophone ==> self.can_mix_as(false)
        &&& self.control.next(reply).phase is Mixing ==> self.can_mix()
    }

    /// Computes `expects`.
    pub fn accepts(&self, reply: &ProcessReply) -> (r: bool)
        requires
            self.wf(),
        ensures
            r == self.expects(*reply),
    {
        if !self.control.accepts(reply) {
            return false;
        }
        match (&self.control.phase, reply) {
            (_, ProcessReply::Received(Receipt::Sample(_))) => false,
            (ProcessPhase::ReceivingMicrophone, ProcessReply::Received(Receipt::Disconnected))
                if self.control.capture_audio => self.has_room(false),
            _ => !self.control.leads_to_mixing(reply) || self.has_room(
                self.mixer.both_sources_active,
            ),
        }
    }

    /// Goes on after a reply.
    pub fn advance(&mut self, reply: ProcessReply)
        requires
            old(self).wf(),
            old(self).expects(reply),
        ensures
            final(self).wf(),
            (Processor { control: old(self).control.next(reply), ..*old(self) }).settles_to(
                *final(self),
            ),
    {
        self.control.advance(reply);
        self.settle();
    }

    /// Whether `after` is the processing once system audio is in the queue.
    pub open spec fn takes_audio(self, sample: SendableSample, after: Processor) -> bool {
        let keep = self.mixer.max_buffer_size as nat;
        &&& after.control == (ProcessLoop { had_work: true, ..self.control }).to_microphone()
        &&& after.mixer.same_settings(self.mixer)
        &&& after.mixer.system_audio_queue@ == last_items(
            self.mixer.system_audio_queue@.push(
                TimestampedSample(sample.sample, timestamp_of(*sample.sample)),
            ),
            keep,
        )
        &&& after.mixer.microphone_queue@ == last_items(self.mixer.microphone_queue@, keep)
        &&& after.stats == (MixerStats {
            system_total_duration: with_duration(
                self.stats.system_total_duration,
                *sample.sample,
            ) as i64,
            last_sys_time: timestamp_of(*sample.sample),
            ..self.stats
        })
        &&& after.output == self.output
    }

    /// Whether system audio can be taken in: it has a time stamp, and what it
    /// adds to can be counted, as can what is put out then.
    pub open spec fn can_take_audio(self, sample: SendableSample) -> bool {
        let keep = self.mixer.max_buffer_size as nat;
        &&& sample.sample.time is Ok
        &&& i64::MIN <= with_duration(self.stats.system_total_duration, *sample.sample) <= i64::MAX
        &&& self.control.to_microphone().phase is Mixing ==> can_put_out(
            last_items(
                self.mixer.system_audio_queue@.push(
                    TimestampedSample(sample.sample, timestamp_of(*sample.sample)),
                ),
                keep,
            ),
            last_items(self.mixer.microphone_queue@, keep),
            self.mixer.max_time_diff_ns as int,
            self.stats,
            self.mixer.both_sources_active,
        )
    }

    /// Computes `can_take_audio`.
    pub fn has_room_for_audio(&self, sample: &SendableSample) -> (r: bool)
        requires
            self.control.phase is ReceivingAudio,
        ensures
            r == self.can_take_audio(*sample),
    {
        let time: i64 = match sample.sample.time {
            Ok(time) => time,
            Err(_) => {
                return false;
            },
        };
        if !duration_fits(self.stats.system_total_duration, &sample.sample) {
            return false;
        }
        if (self.control.capture_microphone && !self.control.microphone_disconnected)
            || !(self.control.capture_audio || self.control.capture_microphone) {
            return true;
        }
        let mut sys = copy_of(&self.mixer.system_audio_queue);
        let mut mic = copy_of(&self.mixer.microphone_queue);
        sys.push_back(TimestampedSample(Arc::clone(&sample.sample), time));
        keep_last(&mut sys, self.mixer.max_buffer_size);
        keep_last(&mut mic, self.mixer.max_buffer_size);
        fits_out(
            sys,
            mic,
            self.mixer.max_time_diff_ns,
            &self.stats,
            self.mixer.both_sources_active,
        )
    }

    /// Takes in system audio that was received, or ends where its time stamp
    /// could not be read.
    pub fn take_audio(&mut self, sample: Result<SendableSample, WindowsError>)
        requires
            old(self).wf(),
            old(self).control.phase is ReceivingAudio,
            sample matches Ok(sample) ==> old(self).can_take_audio(sample),
        ensures
            final(self).wf(),
            match sample {
                Ok(sample) => exists|taken: Processor| #[trigger]
                    old(self).takes_audio(sample, taken) && taken.settles_to(*final(self)),
                Err(error) => *final(self) == (Processor {
                    control: old(self).control.next(
                        ProcessReply::Received(Receipt::Sample(Err(error))),
                    ),
                    ..*old(self)
                }),
            },
    {
        match sample {
            Ok(sample) => {
                let ghost before = *self;
                let ghost given = sample;
                self.control.advance(ProcessReply::Received(Receipt::Sample(Ok(()))));
                self.mixer.add_system_audio(&mut self.stats, sample);
                self.control.advance(ProcessReply::Done(Ok(())));
                assert(before.takes_audio(given, *self));
                self.settle();
            },
            Err(error) => {
                self.control.advance(ProcessReply::Received(Receipt::Sample(Err(error))));
            },
        }
    }

    /// Whether `after` is the processing once microphone audio is in the queue.
    pub open spec fn takes_microphone(self, sample: SendableSample, after: Processor) -> bool {
        let keep = self.mixer.max_buffer_size as nat;
        &&& after.control == (ProcessLoop { had_work: true, ..self.control }).to_mixing()
        &&& after.mixer.same_settings(self.mixer)
        &&& after.mixer.system_audio_queue@ == last_items(self.mixer.system_audio_queue@, keep)
        &&& after.mixer.microphone_queue@ == last_items(
            self.mixer.microphone_queue@.push(
                TimestampedSample(sample.sample, timestamp_of(*sample.sample)),
            ),
            keep,
        )
        &&& after.stats == (MixerStats {
            mic_total_duration: with_duration(
                self.stats.mic_total_duration,
                *sample.sample,
            ) as i64,
            last_mic_time: timestamp_of(*sample.sample),
            ..self.stats
        })
        &&& after.output == self.output
    }

    /// Whether microphone audio can be taken in: it has a time stamp, and what
    /// it adds to can be counted, as can what is put out then.
    pub open spec fn can_take_microphone(self, sample: SendableSample) -> bool {
        let keep = self.mixer.max_buffer_size as nat;
        &&& sample.sample.time is Ok
        &&& i64::MIN <= with_duration(self.stats.mic_total_duration, *sample.sample) <= i64::MAX
        &&& self.control.to_mixing().phase is Mixing ==> can_put_out(
            last_items(self.mixer.system_audio_queue@, keep),
            last_items(
                self.mixer.microphone_queue@.push(
                    TimestampedSample(sample.sample, timestamp_of(*sample.sample)),
                ),
                keep,
            ),
            self.mixer.max_time_diff_ns as int,
            self.stats,
            self.mixer.both_sources_active,
        )
    }

    /// Computes `can_take_microphone`.
    pub fn has_room_for_microphone(&self, sample: &SendableSample) -> (r: bool)
        requires
            self.control.phase is ReceivingMicrophone,
        ensures
            r == self.can_take_microphone(*sample),
    {
        let time: i64 = match sample.sample.time {
            Ok(time) => time,
            Err(_) => {
                return false;
            },
        };
        if !duration_fits(self.stats.mic_total_duration, &sample.sample) {
            return false;
        }
        if !(self.control.capture_audio || self.control.capture_microphone) {
            return true;
        }
        let mut sys = copy_of(&self.mixer.system_audio_queue);
        let mut mic = copy_of(&self.mixer.microphone_queue);
        mic.push_back(TimestampedSample(Arc::clone(&sample.sample), time));
        keep_last(&mut sys, self.mixer.max_buffer_size);
        keep_last(&mut mic, self.mixer.max_buffer_size);
        fits_out(
            sys,
            mic,
            self.mixer.max_time_diff_ns,
            &self.stats,
            self.mixer.both_sources_active,
        )
    }

    /// Takes in microphone audio that was received, or ends where its time
    /// stamp could not be read.
    pub fn take_microphone(&mut self, sample: Result<SendableSample, WindowsError>)
        requires
            old(self).wf(),
            old(self).control.phase is ReceivingMicrophone,
            sample matches Ok(sample) ==> old(self).can_take_microphone(sample),
        ensures
            final(self).wf(),
            match sample {
                Ok(sample) => exists|taken: Processor| #[trigger]
                    old(self).takes_microphone(sample, taken) && taken.settles_to(*final(self)),
                Err(error) => *final(self) == (Processor {
                    control: old(self).control.next(
                        ProcessReply::Received(Receipt::Sample(Err(error))),
                    ),
                    ..*old(self)
                }),
            },
    {
        match sample {
            Ok(sample) => {
                let ghost before = *self;
                let ghost given = sample;
                self.control.advance(ProcessReply::Received(Receipt::Sample(Ok(()))));
                self.mixer.add_microphone_audio(&mut self.stats, sample);
                self.control.advance(ProcessReply::Done(Ok(())));
                assert(before.takes_microphone(given, *self));
                self.settle();
            },
            Err(error) => {
                self.control.advance(ProcessReply::Received(Receipt::Sample(Err(error))));
            },
        }
    }
}

/// Where one source is recorded alone, its sound is recorded sample by sample,
/// the oldest first and as it is.
pub proof fn lone_source_is_recorded(p: Processor, q: Processor)
    requires
        !p.mixer.both_sources_active,
        p.mixer.system_audio_queue@.len() > 0,
        p.mixer.microphone_queue@.len() == 0,
        p.mixes_to(q),
    ensures
        q.output == Some(MixerOutput::PassedThrough(p.mixer.system_audio_queue@[0].0)),
        q.mixer.system_audio_queue@ == p.mixer.system_audio_queue@.drop_first(),
        q.control.phase is Buffering || q.control.phase is Writing,
{
}

/// Where both sources are recorded, neither is recorded without the other.
pub proof fn sources_wait_for_each_other(p: Processor, q: Processor)
    requires
        p.mixer.both_sources_active,
        p.mixer.system_audio_queue@.len() == 0 || p.mixer.microphone_queue@.len() == 0,
        p.mixes_to(q),
    ensures
        q.output == p.output,
        q.mixer.system_audio_queue@ == p.mixer.system_audio_queue@,
        q.mixer.microphone_queue@ == p.mixer.microphone_queue@,
        q.control.phase is Checking || q.control.phase is Sleeping,
{
}

/// Whether two samples can be read.
pub open spec fn can_be_read(sys: MediaSample, mic: MediaSample) -> bool {
    &&& sys.time is Ok && sys.duration is Ok && mic.time is Ok && mic.duration is Ok
    &&& sys.buffer matches Ok(buffer) && buffer.contents is Ok
    &&& mic.buffer matches Ok(buffer) && buffer.contents is Ok
}

/// Where no samples match, the two oldest are mixed and recorded next, and they
/// are the ones that leave the queues, if they can be read.
pub proof fn unmatched_sound_is_recorded_in_order(p: Processor, q: Processor)
    requires
        p.mixes_to(q),
        p.mixer.system_audio_queue@.len() > 0,
        p.mixer.microphone_queue@.len() > 0,
        none_match(
            p.mixer.system_audio_queue@,
            p.mixer.microphone_queue@,
            p.mixer.max_time_diff_ns as int,
        ),
        can_be_read(*p.mixer.system_audio_queue@[0].0, *p.mixer.microphone_queue@[0].0),
    ensures
        q.output matches Some(output) && is_output(
            *p.mixer.system_audio_queue@[0].0,
            *p.mixer.microphone_queue@[0].0,
            Ok(output),
        ),
        q.mixer.system_audio_queue@ == p.mixer.system_audio_queue@.skip(1),
        q.mixer.microphone_queue@ == p.mixer.microphone_queue@.skip(1),
{
    let sys = p.mixer.system_audio_queue@;
    let mic = p.mixer.microphone_queue@;
    let max = p.mixer.max_time_diff_ns as int;
    match closest(sys, mic) {
        Some(pair) => {
            assert(is_closest(sys, mic, pair.0, pair.1));
            assert(are_apart(sys[pair.0].1, mic[pair.1].1, max));
        },
        None => {},
    }
    assert(next_pair(sys, mic, max) == (0int, 0int, false));
    assert(sys.remove(0) =~= sys.skip(1));
    assert(mic.remove(0) =~= mic.skip(1));
}

/// What the mixer puts out goes to the replay buffer, if there is one, at its
/// time, and else to the second stream of the file.
pub proof fn output_is_recorded(p: Processor, q: Processor)
    requires
        p.mixes_to(q),
        p.control.phase is Mixing,
        !(q.control.phase is Checking || q.control.phase is Sleeping),
    ensures
        q.output matches Some(output) && {
            let time = match output {
                MixerOutput::Mixed(mixed) => mixed.time,
                MixerOutput::PassedThrough(sample) => match sample.time {
                    Ok(time) => time,
                    Err(_) => 0,
                },
            };
            process_action(q.control.phase) == if p.control.has_replay {
                ProcessAction::Buffer(time)
            } else {
                ProcessAction::Write(1)
            }
        },
        q.control.had_work,
{
}

/// System audio that is received stands at the back of its queue, by its own time,
/// behind the newest of those that came before it.
pub proof fn received_sound_is_queued(p: Processor, sample: SendableSample, q: Processor)
    requires
        p.takes_audio(sample, q),
        p.mixer.max_buffer_size > 0,
    ensures
        q.mixer.system_audio_queue@.len() > 0,
        q.mixer.system_audio_queue@.last().0 == sample.sample,
        sample.sample.time matches Ok(time) ==> q.mixer.system_audio_queue@.last().1 == time,
        q.mixer.system_audio_queue@.len() == p.mixer.system_audio_queue@.len() + 1
            || q.mixer.system_audio_queue@.len() == p.mixer.max_buffer_size,
        p.mixer.system_audio_queue@.len() < p.mixer.max_buffer_size
            ==> q.mixer.system_audio_queue@.drop_last() == p.mixer.system_audio_queue@,
        p.mixer.microphone_queue@.len() <= p.mixer.max_buffer_size ==> q.mixer.microphone_queue@
            == p.mixer.microphone_queue@,
        q.control.had_work,
{
    if p.mixer.system_audio_queue@.len() < p.mixer.max_buffer_size {
        assert(q.mixer.system_audio_queue@.drop_last() =~= p.mixer.system_audio_queue@);
    }
}

/// A sample of the microphone that is received stands at the back of its queue, by
/// its own time, behind the newest of those that came before it.
pub proof fn received_microphone_is_queued(p: Processor, sample: SendableSample, q: Processor)
    requires
        p.takes_microphone(sample, q),
        p.mixer.max_buffer_size > 0,
    ensures
        q.mixer.microphone_queue@.len() > 0,
        q.mixer.microphone_queue@.last().0 == sample.sample,
        sample.sample.time matches Ok(time) ==> q.mixer.microphone_queue@.last().1 == time,
        q.mixer.microphone_queue@.len() == p.mixer.microphone_queue@.len() + 1
            || q.mixer.microphone_queue@.len() == p.mixer.max_buffer_size,
        p.mixer.microphone_queue@.len() < p.mixer.max_buffer_size
            ==> q.mixer.microphone_queue@.drop_last() == p.mixer.microphone_queue@,
        p.mixer.system_audio_queue@.len() <= p.mixer.max_buffer_size
            ==> q.mixer.system_audio_queue@ == p.mixer.system_audio_queue@,
        q.control.had_work,
{
    if p.mixer.microphone_queue@.len() < p.mixer.max_buffer_size {
        assert(q.mixer.microphone_queue@.drop_last() =~= p.mixer.microphone_queue@);
    }
}

/// Once the microphone is gone, the mixer waits for neither source, and what is
/// queued stays.
pub proof fn sound_goes_on_without_the_microphone(p: Processor)
    ensures
        !p.without_microphone().mixer.both_sources_active,
        p.without_microphone().mixer.system_audio_queue@ == p.mixer.system_audio_queue@,
        p.without_microphone().mixer.microphone_queue@ == p.mixer.microphone_queue@,
        p.without_microphone().output == p.output,
        p.control.capture_audio ==> p.without_microphone().control.phase is Mixing,
{
}

} // verus!
