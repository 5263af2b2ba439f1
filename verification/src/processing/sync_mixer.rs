//! A mixer that waits for samples with matching time stamps.
use crate::error::HResult;
use crate::processing::mixed_sample::{
    buffer_failure, bytes_of, is_fresh_mix, mix_buffers, MixedSample, MixerOutput,
};
use crate::processing::pcm::{a_mix_is_heard_as_both, sound_at};
use crate::types::{trunc_div, MediaSample, SendableSample};
use std::collections::VecDeque;
use vstd::prelude::*;

verus! {

/// The time difference up to which two samples match.
pub const MAX_TIME_DIFF_NS: i64 = 10_000_000;

/// How far a sample may lie behind the newest one before it is discarded.
pub const BUFFER_DURATION_NS: i64 = 500_000_000;

/// The number of unmatched samples from which on the oldest one is given up.
pub const SEARCH_LIMIT: usize = 20;

/// Mixes system audio with microphone audio, pair by matching pair.
pub struct AudioMixer {
    /// The system audio samples, the oldest first.
    pub system_audio_queue: VecDeque<SendableSample>,
    /// The microphone samples, the oldest first.
    pub microphone_queue: VecDeque<SendableSample>,
    /// Frames per second.
    pub sample_rate: u32,
    /// The number of channels.
    pub channels: u16,
    /// The time difference up to which two samples match.
    pub max_time_diff_ns: i64,
    /// How far a sample may lie behind the newest one.
    pub buffer_duration_ns: i64,
}

/// Whether two times are no more than `max` apart.
pub open spec fn near(a: int, b: int, max: int) -> bool {
    -max <= a - b <= max
}

/// What a search through a queue ends with.
pub enum Search {
    /// A matching sample at this index.
    Found(int),
    /// A sample whose time stamp could not be read.
    Failed(HResult),
    /// The end of the queue.
    Exhausted,
}

/// Searches a queue from an index on for a sample near a point in time. A
/// sample without a time stamp ends the search.
pub open spec fn search(queue: Seq<SendableSample>, from: int, time: int, max: int) -> Search
    decreases queue.len() - from,
{
    if from >= queue.len() || from < 0 {
        Search::Exhausted
    } else {
        match queue[from].sample.time {
            Err(code) => Search::Failed(code),
            Ok(t) => if near(time, t as int, max) {
                Search::Found(from)
            } else {
                search(queue, from + 1, time, max)
            },
        }
    }
}

/// What the two queues offer.
pub enum Pairing {
    /// A pair of samples to mix, by their indices.
    Pair(int, int),
    /// A sample whose time stamp could not be read.
    Failed(HResult),
    /// Nothing, and the oldest system audio sample is to be given up.
    GiveUpSystem,
    /// Nothing, and the oldest microphone sample is to be given up.
    GiveUpMicrophone,
    /// Nothing yet.
    Wait,
}

/// The pair that the two queues offer.
///
/// The two oldest samples come first. Where they are too far apart, the later
/// one of them waits for a partner further back in the other queue. Where there
/// is none either, it is given up once its queue has grown too long.
pub open spec fn pairing(
    sys: Seq<SendableSample>,
    mic: Seq<SendableSample>,
    max: int,
) -> Pairing {
    if sys.len() == 0 || mic.len() == 0 {
        Pairing::Wait
    } else {
        match (sys[0].sample.time, mic[0].sample.time) {
            (Err(code), _) => Pairing::Failed(code),
            (Ok(_), Err(code)) => Pairing::Failed(code),
            (Ok(sys_time), Ok(mic_time)) => if near(sys_time as int, mic_time as int, max) {
                Pairing::Pair(0, 0)
            } else if sys_time > mic_time {
                match search(mic, 1, sys_time as int, max) {
                    Search::Found(i) => Pairing::Pair(0, i),
                    Search::Failed(code) => Pairing::Failed(code),
                    Search::Exhausted => if sys.len() > SEARCH_LIMIT {
                        Pairing::GiveUpSystem
                    } else {
                        Pairing::Wait
                    },
                }
            } else {
                match search(sys, 1, mic_time as int, max) {
                    Search::Found(i) => Pairing::Pair(i, 0),
                    Search::Failed(code) => Pairing::Failed(code),
                    Search::Exhausted => if mic.len() > SEARCH_LIMIT {
                        Pairing::GiveUpMicrophone
                    } else {
                        Pairing::Wait
                    },
                }
            },
        }
    }
}

/// The samples from the first one on that is not older than `oldest`, or whose
/// time stamp cannot be read.
pub open spec fn drop_old(queue: Seq<SendableSample>, oldest: int) -> Seq<SendableSample>
    decreases queue.len(),
{
    if queue.len() > 0 && (queue[0].sample.time matches Ok(t) && t < oldest) {
        drop_old(queue.drop_first(), oldest)
    } else {
        queue
    }
}

/// The time before which samples are stale: that of the newest sample of
/// either queue, less the duration of the buffer. There is none while a queue
/// is empty or the time stamp of a newest sample cannot be read.
pub open spec fn stale_before(
    sys: Seq<SendableSample>,
    mic: Seq<SendableSample>,
    buffer_duration: int,
) -> Option<int> {
    if sys.len() == 0 || mic.len() == 0 {
        None
    } else {
        match (sys.last().sample.time, mic.last().sample.time) {
            (Ok(s), Ok(m)) => Some(
                if s >= m {
                    s - buffer_duration
                } else {
                    m - buffer_duration
                },
            ),
            _ => None,
        }
    }
}

/// A queue without its stale samples.
pub open spec fn without_stale(queue: Seq<SendableSample>, stale: Option<int>) -> Seq<
    SendableSample,
> {
    match stale {
        Some(oldest) => drop_old(queue, oldest),
        None => queue,
    }
}

/// The code of the first failure in reading two samples: the time stamps, the
/// durations, then the buffers.
pub open spec fn read_failure(sys: MediaSample, mic: MediaSample) -> Option<HResult> {
    match (sys.time, mic.time, sys.duration, mic.duration) {
        (Err(code), _, _, _) => Some(code),
        (Ok(_), Err(code), _, _) => Some(code),
        (Ok(_), Ok(_), Err(code), _) => Some(code),
        (Ok(_), Ok(_), Ok(_), Err(code)) => Some(code),
        (Ok(_), Ok(_), Ok(_), Ok(_)) => buffer_failure(sys, mic),
    }
}

/// Whether `r` is what mixing two samples comes to: halfway between them in
/// time, of their average duration, with the mix of their audio.
pub open spec fn is_mixed(
    sys: MediaSample,
    mic: MediaSample,
    r: Result<MixedSample, HResult>,
) -> bool {
    match read_failure(sys, mic) {
        Some(code) => r == Err::<MixedSample, HResult>(code),
        None => r matches Ok(m) && {
            &&& m.time == trunc_div(sys.time->Ok_0 + mic.time->Ok_0, 2)
            &&& m.duration == trunc_div(sys.duration->Ok_0 + mic.duration->Ok_0, 2)
            &&& is_fresh_mix(bytes_of(sys), bytes_of(mic), m.data@)
        },
    }
}

/// Whether `output` passes on what mixing came to.
pub open spec fn is_output_of(
    sys: MediaSample,
    mic: MediaSample,
    output: Result<MixerOutput, HResult>,
) -> bool {
    match output {
        Ok(MixerOutput::Mixed(m)) => is_mixed(sys, mic, Ok(m)),
        Ok(MixerOutput::PassedThrough(_)) => false,
        Err(code) => is_mixed(sys, mic, Err(code)),
    }
}

/// Computes `near`.
fn within(a: i64, b: i64, max: i64) -> (r: bool)
    ensures
        r == near(a as int, b as int, max as int),
{
    let diff: i128 = a as i128 - b as i128;
    -(max as i128) <= diff && diff <= max as i128
}

/// What `search_queue` found.
enum Found {
    At(usize),
    Failed(HResult),
    Nowhere,
}

impl Found {
    spec fn stands_for(self, s: Search) -> bool {
        match self {
            Found::At(i) => s == Search::Found(i as int),
            Found::Failed(code) => s == Search::Failed(code),
            Found::Nowhere => s == Search::Exhausted,
        }
    }
}

/// Computes `search` from the second sample on.
fn search_queue(queue: &VecDeque<SendableSample>, time: i64, max: i64) -> (r: Found)
    ensures
        r.stands_for(search(queue@, 1, time as int, max as int)),
        r matches Found::At(i) ==> 1 <= i < queue@.len(),
{
    let n: usize = queue.len();
    let mut i: usize = 1;
    while i < n
        invariant
            n == queue@.len(),
            1 <= i,
            search(queue@, i as int, time as int, max as int) == search(
                queue@,
                1,
                time as int,
                max as int,
            ),
        decreases n - i,
    {
        match queue[i].sample.time {
            Err(code) => {
                return Found::Failed(code);
            },
            Ok(t) => {
                if within(time, t, max) {
                    return Found::At(i);
                }
            },
        }
        i = i + 1;
    }
    Found::Nowhere
}

/// Takes the sample at an index out of a queue, and every sample before it.
fn take_at(queue: &mut VecDeque<SendableSample>, i: usize) -> (r: SendableSample)
    requires
        i < old(queue)@.len(),
    ensures
        r == old(queue)@[i as int],
        final(queue)@ == old(queue)@.skip(i + 1),
{
    let taken = queue.remove(i).unwrap();
    let ghost rest = old(queue)@.remove(i as int);
    assert(rest.skip(0) =~= rest);
    for k in 0..i
        invariant
            i < old(queue)@.len(),
            rest == old(queue)@.remove(i as int),
            queue@ == rest.skip(k as int),
    {
        let _ = queue.pop_front();
        assert(queue@ =~= rest.skip(k + 1));
    }
    assert(queue@ =~= old(queue)@.skip(i + 1));
    taken
}

/// Drops the samples in front that are older than `oldest`.
fn drop_older(queue: &mut VecDeque<SendableSample>, oldest: i128)
    ensures
        final(queue)@ == drop_old(old(queue)@, oldest as int),
{
    while queue.len() > 0
        invariant_except_break
            drop_old(queue@, oldest as int) == drop_old(old(queue)@, oldest as int),
        ensures
            queue@ == drop_old(old(queue)@, oldest as int),
        decreases queue@.len(),
    {
        match queue[0].sample.time {
            Err(_) => {
                break;
            },
            Ok(t) => {
                if t as i128 >= oldest {
                    break;
                }
            },
        }
        assert(queue@.subrange(1, queue@.len() as int) =~= queue@.drop_first());
        let _ = queue.pop_front();
    }
}

/// Whether the queues of a mixer were left as a pairing demands, and whether
/// what came of it is `outcome`.
pub open spec fn pairing_applied(
    sys: Seq<SendableSample>,
    mic: Seq<SendableSample>,
    max: int,
    sys_after: Seq<SendableSample>,
    mic_after: Seq<SendableSample>,
    outcome: Option<Result<(SendableSample, SendableSample), HResult>>,
) -> bool {
    match pairing(sys, mic, max) {
        Pairing::Pair(i, j) => {
            &&& outcome matches Some(Ok(pair)) && pair.0 == sys[i] && pair.1 == mic[j]
            &&& sys_after == sys.skip(i + 1)
            &&& mic_after == mic.skip(j + 1)
        },
        Pairing::Failed(code) => {
            &&& outcome matches Some(Err(c)) && c == code
            &&& sys_after == sys
            &&& mic_after == mic
        },
        Pairing::GiveUpSystem => {
            &&& outcome is None
            &&& sys_after == sys.drop_first()
            &&& mic_after == mic
        },
        Pairing::GiveUpMicrophone => {
            &&& outcome is None
            &&& sys_after == sys
            &&& mic_after == mic.drop_first()
        },
        Pairing::Wait => {
            &&& outcome is None
            &&& sys_after == sys
            &&& mic_after == mic
        },
    }
}

/// A search ends within the queue, with a sample whose time stamp it read.
pub proof fn search_finds_inside(queue: Seq<SendableSample>, from: int, time: int, max: int)
    requires
        0 <= from,
    ensures
        search(queue, from, time, max) matches Search::Found(i) ==> {
            &&& from <= i < queue.len()
            &&& queue[i].sample.time matches Ok(t) && near(time, t as int, max)
        },
    decreases queue.len() - from,
{
    if from < queue.len() {
        match queue[from].sample.time {
            Err(_) => {},
            Ok(t) => {
                if !near(time, t as int, max) {
                    search_finds_inside(queue, from + 1, time, max);
                }
            },
        }
    }
}

/// Two samples that are paired are never further apart than the limit.
pub proof fn pairs_are_near(sys: Seq<SendableSample>, mic: Seq<SendableSample>, max: int)
    ensures
        pairing(sys, mic, max) matches Pairing::Pair(i, j) ==> {
            &&& 0 <= i < sys.len()
            &&& 0 <= j < mic.len()
            &&& sys[i].sample.time matches Ok(s) && (mic[j].sample.time matches Ok(m) && near(
                s as int,
                m as int,
                max,
            ))
        },
{
    if sys.len() > 0 && mic.len() > 0 {
        match (sys[0].sample.time, mic[0].sample.time) {
            (Ok(s), Ok(m)) => {
                search_finds_inside(mic, 1, s as int, max);
                search_finds_inside(sys, 1, m as int, max);
            },
            _ => {},
        }
    }
}

/// Dropping old samples never empties the queue that holds the newest one.
pub proof fn newest_survives(queue: Seq<SendableSample>, oldest: int)
    requires
        queue.len() > 0,
        queue.last().sample.time matches Ok(t) && t >= oldest,
    ensures
        drop_old(queue, oldest).len() > 0,
        drop_old(queue, oldest).last() == queue.last(),
    decreases queue.len(),
{
    if queue[0].sample.time matches Ok(t) && t < oldest {
        assert(queue.len() > 1);
        newest_survives(queue.drop_first(), oldest);
    }
}

impl AudioMixer {
    /// A mixer without samples.
    pub fn new(sample_rate: u32, bits_per_sample: u16, channels: u16) -> (r: Self)
        ensures
            r.system_audio_queue@ == Seq::<SendableSample>::empty(),
            r.microphone_queue@ == Seq::<SendableSample>::empty(),
            r.sample_rate == sample_rate,
            r.channels == channels,
            r.max_time_diff_ns == 10_000_000,
            r.buffer_duration_ns == 500_000_000,
    {
        AudioMixer {
            system_audio_queue: VecDeque::new(),
            microphone_queue: VecDeque::new(),
            sample_rate,
            channels,
            max_time_diff_ns: MAX_TIME_DIFF_NS,
            buffer_duration_ns: BUFFER_DURATION_NS,
        }
    }

    /// Whether two mixers have the same settings.
    pub open spec fn same_settings(self, other: AudioMixer) -> bool {
        &&& self.sample_rate == other.sample_rate
        &&& self.channels == other.channels
        &&& self.max_time_diff_ns == other.max_time_diff_ns
        &&& self.buffer_duration_ns == other.buffer_duration_ns
    }

    /// Puts a system audio sample at the back of its queue.
    pub fn add_system_audio(&mut self, sample: SendableSample)
        ensures
            final(self).system_audio_queue@ == old(self).system_audio_queue@.push(sample),
            final(self).microphone_queue@ == old(self).microphone_queue@,
            final(self).same_settings(*old(self)),
    {
        self.system_audio_queue.push_back(sample);
    }

    /// Puts a microphone sample at the back of its queue.
    pub fn add_microphone_audio(&mut self, sample: SendableSample)
        ensures
            final(self).microphone_queue@ == old(self).microphone_queue@.push(sample),
            final(self).system_audio_queue@ == old(self).system_audio_queue@,
            final(self).same_settings(*old(self)),
    {
        self.microphone_queue.push_back(sample);
    }

    /// The time stamp of a sample.
    pub fn get_sample_timestamp(&self, sample: &MediaSample) -> (r: Result<i64, HResult>)
        ensures
            r == sample.time,
    {
        sample.time
    }

    /// Takes the pair of samples that the queues offer out of them.
    pub fn find_matching_samples(&mut self) -> (r: Option<
        Result<(SendableSample, SendableSample), HResult>,
    >)
        ensures
            pairing_applied(
                old(self).system_audio_queue@,
                old(self).microphone_queue@,
                old(self).max_time_diff_ns as int,
                final(self).system_audio_queue@,
                final(self).microphone_queue@,
                r,
            ),
            final(self).same_settings(*old(self)),
    {
        if self.system_audio_queue.len() == 0 || self.microphone_queue.len() == 0 {
            return None;
        }
        let sys_time: i64 = match self.get_sample_timestamp(&self.system_audio_queue[0].sample) {
            Ok(time) => time,
            Err(code) => {
                return Some(Err(code));
            },
        };
        let mic_time: i64 = match self.get_sample_timestamp(&self.microphone_queue[0].sample) {
            Ok(time) => time,
            Err(code) => {
                return Some(Err(code));
            },
        };
        let max: i64 = self.max_time_diff_ns;
        if within(sys_time, mic_time, max) {
            let sys = take_at(&mut self.system_audio_queue, 0);
            let mic = take_at(&mut self.microphone_queue, 0);
            return Some(Ok((sys, mic)));
        }
        if sys_time > mic_time {
            match search_queue(&self.microphone_queue, sys_time, max) {
                Found::Failed(code) => Some(Err(code)),
                Found::At(i) => {
                    let sys = take_at(&mut self.system_audio_queue, 0);
                    let mic = take_at(&mut self.microphone_queue, i);
                    Some(Ok((sys, mic)))
                },
                Found::Nowhere => {
                    if self.system_audio_queue.len() > SEARCH_LIMIT {
                        let _ = self.system_audio_queue.pop_front();
                        assert(self.system_audio_queue@
                            =~= old(self).system_audio_queue@.drop_first());
                    }
                    None
                },
            }
        } else {
            match search_queue(&self.system_audio_queue, mic_time, max) {
                Found::Failed(code) => Some(Err(code)),
                Found::At(i) => {
                    let sys = take_at(&mut self.system_audio_queue, i);
                    let mic = take_at(&mut self.microphone_queue, 0);
                    Some(Ok((sys, mic)))
                },
                Found::Nowhere => {
                    if self.microphone_queue.len() > SEARCH_LIMIT {
                        let _ = self.microphone_queue.pop_front();
                        assert(self.microphone_queue@
                            =~= old(self).microphone_queue@.drop_first());
                    }
                    None
                },
            }
        }
    }

    /// The time before which samples of this mixer are stale.
    pub open spec fn stale(self) -> Option<int> {
        stale_before(
            self.system_audio_queue@,
            self.microphone_queue@,
            self.buffer_duration_ns as int,
        )
    }

    /// Drops the samples that lie too far behind the newest one.
    pub fn discard_stale_samples(&mut self)
        ensures
            final(self).system_audio_queue@ == without_stale(
                old(self).system_audio_queue@,
                old(self).stale(),
            ),
            final(self).microphone_queue@ == without_stale(
                old(self).microphone_queue@,
                old(self).stale(),
            ),
            final(self).same_settings(*old(self)),
    {
        let sys_len: usize = self.system_audio_queue.len();
        let mic_len: usize = self.microphone_queue.len();
        if sys_len == 0 || mic_len == 0 {
            return ;
        }
        let newest_sys: i64 = match self.system_audio_queue[sys_len - 1].sample.time {
            Ok(time) => time,
            Err(_) => {
                return ;
            },
        };
        let newest_mic: i64 = match self.microphone_queue[mic_len - 1].sample.time {
            Ok(time) => time,
            Err(_) => {
                return ;
            },
        };
        let newest: i64 = if newest_sys >= newest_mic {
            newest_sys
        } else {
            newest_mic
        };
        let oldest: i128 = newest as i128 - self.buffer_duration_ns as i128;
        drop_older(&mut self.system_audio_queue, oldest);
        drop_older(&mut self.microphone_queue, oldest);
    }

    /// Whether `after` is the mixer once it has offered what it has, and `r` is what
    /// it has offered.
    pub open spec fn offers(
        self,
        after: AudioMixer,
        r: Option<Result<MixerOutput, HResult>>,
    ) -> bool {
        let sys = without_stale(self.system_audio_queue@, self.stale());
        let mic = without_stale(self.microphone_queue@, self.stale());
        let sys_after = after.system_audio_queue@;
        let mic_after = after.microphone_queue@;
        &&& after.same_settings(self)
        &&& if sys.len() == 0 && mic.len() == 0 {
            &&& r is None
            &&& sys_after == sys
            &&& mic_after == mic
        } else if sys.len() == 0 {
            &&& r == Some(
                Ok::<MixerOutput, HResult>(MixerOutput::PassedThrough(mic[0].sample)),
            )
            &&& sys_after == sys
            &&& mic_after == mic.drop_first()
        } else if mic.len() == 0 {
            &&& r == Some(
                Ok::<MixerOutput, HResult>(MixerOutput::PassedThrough(sys[0].sample)),
            )
            &&& sys_after == sys.drop_first()
            &&& mic_after == mic
        } else {
            match pairing(sys, mic, self.max_time_diff_ns as int) {
                Pairing::Pair(i, j) => {
                    &&& r is Some
                    &&& is_output_of(*sys[i].sample, *mic[j].sample, r->Some_0)
                    &&& sys_after == sys.skip(i + 1)
                    &&& mic_after == mic.skip(j + 1)
                },
                Pairing::Failed(code) => {
                    &&& r == Some(Err::<MixerOutput, HResult>(code))
                    &&& sys_after == sys
                    &&& mic_after == mic
                },
                Pairing::GiveUpSystem => {
                    &&& r is None
                    &&& sys_after == sys.drop_first()
                    &&& mic_after == mic
                },
                Pairing::GiveUpMicrophone => {
                    &&& r is None
                    &&& sys_after == sys
                    &&& mic_after == mic.drop_first()
                },
                Pairing::Wait => {
                    &&& r is None
                    &&& sys_after == sys
                    &&& mic_after == mic
                },
            }
        }
    }

    /// What the mixer has to offer, if anything.
    ///
    /// Stale samples are discarded first. Where only one queue is left with
    /// samples, its oldest one passes through; otherwise a matching pair is
    /// mixed.
    pub fn process_next_sample(&mut self) -> (r: Option<Result<MixerOutput, HResult>>)
        ensures
            old(self).offers(*final(self), r),
    {
        self.discard_stale_samples();
        let ghost sys = self.system_audio_queue@;
        let ghost mic = self.microphone_queue@;
        let sys_len: usize = self.system_audio_queue.len();
        let mic_len: usize = self.microphone_queue.len();
        if sys_len == 0 && mic_len == 0 {
            return None;
        }
        if sys_len == 0 {
            let taken = self.microphone_queue.pop_front().unwrap();
            assert(self.microphone_queue@ =~= mic.drop_first());
            return Some(Ok(MixerOutput::PassedThrough(taken.sample)));
        }
        if mic_len == 0 {
            let taken = self.system_audio_queue.pop_front().unwrap();
            assert(self.system_audio_queue@ =~= sys.drop_first());
            return Some(Ok(MixerOutput::PassedThrough(taken.sample)));
        }
        match self.find_matching_samples() {
            Some(Ok(pair)) => match self.mix_samples(&pair.0.sample, &pair.1.sample) {
                Ok(mixed) => Some(Ok(MixerOutput::Mixed(mixed))),
                Err(code) => Some(Err(code)),
            },
            Some(Err(code)) => Some(Err(code)),
            None => None,
        }
    }

    /// Mixes two samples into a new one.
    pub fn mix_samples(&self, sys: &MediaSample, mic: &MediaSample) -> (r: Result<
        MixedSample,
        HResult,
    >)
        ensures
            is_mixed(*sys, *mic, r),
    {
        let sys_time: i64 = match sys.time {
            Ok(time) => time,
            Err(code) => {
                return Err(code);
            },
        };
        let mic_time: i64 = match mic.time {
            Ok(time) => time,
            Err(code) => {
                return Err(code);
            },
        };
        let sys_duration: i64 = match sys.duration {
            Ok(duration) => duration,
            Err(code) => {
                return Err(code);
            },
        };
        let mic_duration: i64 = match mic.duration {
            Ok(duration) => duration,
            Err(code) => {
                return Err(code);
            },
        };
        let time: i64 = ((sys_time as i128 + mic_time as i128) / 2) as i64;
        let duration: i64 = ((sys_duration as i128 + mic_duration as i128) / 2) as i64;
        match mix_buffers(sys, mic) {
            Ok(data) => Ok(MixedSample { time, duration, data }),
            Err(code) => Err(code),
        }
    }
}

/// Whether a sample can be read, and its time stamp is no further than a limit from
/// a point in time.
pub open spec fn lies_near(sample: SendableSample, time: int, max: int) -> bool {
    sample.sample.time matches Ok(t) && t - time <= max && time - t <= max
}

/// A search takes the first sample that is near enough, and passes over none whose
/// time stamp cannot be read. It goes to the end only where none is near enough.
pub proof fn search_takes_the_first_near_sample(
    queue: Seq<SendableSample>,
    from: int,
    time: int,
    max: int,
)
    requires
        0 <= from,
    ensures
        match search(queue, from, time, max) {
            Search::Found(i) => {
                &&& from <= i < queue.len()
                &&& lies_near(queue[i], time, max)
                &&& forall|k: int|
                    from <= k < i ==> (#[trigger] queue[k]).sample.time is Ok && !lies_near(
                        queue[k],
                        time,
                        max,
                    )
            },
            Search::Failed(code) => exists|i: int|
                {
                    &&& from <= i < queue.len()
                    &&& (#[trigger] queue[i]).sample.time == Err::<i64, HResult>(code)
                    &&& forall|k: int|
                        from <= k < i ==> (#[trigger] queue[k]).sample.time is Ok && !lies_near(
                            queue[k],
                            time,
                            max,
                        )
                },
            Search::Exhausted => forall|k: int|
                from <= k < queue.len() ==> (#[trigger] queue[k]).sample.time is Ok && !lies_near(
                    queue[k],
                    time,
                    max,
                ),
        },
    decreases queue.len() - from,
{
    if from < queue.len() {
        match queue[from].sample.time {
            Err(code) => {
                assert(queue[from].sample.time == Err::<i64, HResult>(code));
            },
            Ok(t) => {
                if !near(time, t as int, max) {
                    search_takes_the_first_near_sample(queue, from + 1, time, max);
                }
            },
        }
    }
}

/// The two oldest samples are paired where they are near enough. Otherwise the
/// later one of them is paired with the first sample of the other queue that is
/// near enough. Where there is none, it is given up once more than twenty of its
/// source are queued, and nothing happens until then.
pub proof fn pairs_are_found_in_order(
    sys: Seq<SendableSample>,
    mic: Seq<SendableSample>,
    max: int,
    s: i64,
    m: i64,
)
    requires
        sys.len() > 0,
        mic.len() > 0,
        sys[0].sample.time == Ok::<i64, HResult>(s),
        mic[0].sample.time == Ok::<i64, HResult>(m),
        max >= 0,
    ensures
        -max <= s - m <= max ==> pairing(sys, mic, max) == Pairing::Pair(0, 0),
        s - m > max ==> match pairing(sys, mic, max) {
            Pairing::Pair(i, j) => {
                &&& i == 0
                &&& 1 <= j < mic.len()
                &&& lies_near(mic[j], s as int, max)
                &&& forall|k: int| 1 <= k < j ==> !lies_near(#[trigger] mic[k], s as int, max)
            },
            Pairing::Failed(_) => true,
            Pairing::GiveUpSystem => sys.len() > 20 && forall|k: int|
                1 <= k < mic.len() ==> !lies_near(#[trigger] mic[k], s as int, max),
            Pairing::GiveUpMicrophone => false,
            Pairing::Wait => sys.len() <= 20 && forall|k: int|
                1 <= k < mic.len() ==> !lies_near(#[trigger] mic[k], s as int, max),
        },
        m - s > max ==> match pairing(sys, mic, max) {
            Pairing::Pair(i, j) => {
                &&& j == 0
                &&& 1 <= i < sys.len()
                &&& lies_near(sys[i], m as int, max)
                &&& forall|k: int| 1 <= k < i ==> !lies_near(#[trigger] sys[k], m as int, max)
            },
            Pairing::Failed(_) => true,
            Pairing::GiveUpMicrophone => mic.len() > 20 && forall|k: int|
                1 <= k < sys.len() ==> !lies_near(#[trigger] sys[k], m as int, max),
            Pairing::GiveUpSystem => false,
            Pairing::Wait => mic.len() <= 20 && forall|k: int|
                1 <= k < sys.len() ==> !lies_near(#[trigger] sys[k], m as int, max),
        },
{
    search_takes_the_first_near_sample(mic, 1, s as int, max);
    search_takes_the_first_near_sample(sys, 1, m as int, max);
}

/// Of a queue the samples in front go that are older than a point in time, and
/// those from the first one on stay that is not, or that cannot be read.
pub proof fn old_samples_are_cut_off(queue: Seq<SendableSample>, oldest: int)
    ensures
        drop_old(queue, oldest).len() <= queue.len(),
        ({
            let gone = queue.len() - drop_old(queue, oldest).len();
            &&& drop_old(queue, oldest) == queue.skip(gone)
            &&& forall|i: int|
                0 <= i < gone ==> ((#[trigger] queue[i]).sample.time matches Ok(t) && t < oldest)
            &&& gone < queue.len() ==> !(queue[gone].sample.time matches Ok(t) && t < oldest)
        }),
    decreases queue.len(),
{
    if queue.len() > 0 && (queue[0].sample.time matches Ok(t) && t < oldest) {
        let rest = queue.drop_first();
        old_samples_are_cut_off(rest, oldest);
        let gone = queue.len() - drop_old(queue, oldest).len();
        assert(drop_old(queue, oldest) =~= queue.skip(gone));
        assert forall|i: int| 0 <= i < gone implies ((#[trigger] queue[i]).sample.time matches Ok(t)
            && t < oldest) by {
            if i > 0 {
                assert(queue[i] == rest[i - 1]);
            }
        }
        if gone < queue.len() {
            assert(queue[gone] == rest[gone - 1]);
        }
    } else {
        assert(queue.skip(0) =~= queue);
    }
}

/// Samples are stale where they lie further behind the newest one of either queue
/// than the buffer reaches. While a queue is empty, none is.
pub proof fn stale_is_behind_the_newest(
    sys: Seq<SendableSample>,
    mic: Seq<SendableSample>,
    reach: int,
    s: i64,
    m: i64,
)
    ensures
        sys.len() == 0 || mic.len() == 0 ==> stale_before(sys, mic, reach) is None,
        sys.len() > 0 && mic.len() > 0 && sys.last().sample.time == Ok::<i64, HResult>(s)
            && mic.last().sample.time == Ok::<i64, HResult>(m) ==> {
            &&& stale_before(sys, mic, reach) matches Some(oldest) && oldest >= s - reach && oldest
                >= m - reach && (oldest == s - reach || oldest == m - reach)
        },
{
}

/// Two samples that can be read come out as one halfway between them in time, of
/// their average duration, as long as the system audio, and sounding as both.
pub proof fn both_sources_are_heard(
    sys: MediaSample,
    mic: MediaSample,
    sys_bytes: Seq<u8>,
    mic_bytes: Seq<u8>,
    r: Result<MixerOutput, HResult>,
)
    requires
        is_output_of(sys, mic, r),
        sys.time is Ok,
        sys.duration is Ok,
        mic.time is Ok,
        mic.duration is Ok,
        sys.buffer matches Ok(buffer) && (buffer.contents matches Ok(bytes) && bytes@ == sys_bytes),
        mic.buffer matches Ok(buffer) && (buffer.contents matches Ok(bytes) && bytes@ == mic_bytes),
    ensures
        r matches Ok(MixerOutput::Mixed(m)) && {
            &&& -1 <= sys.time->Ok_0 + mic.time->Ok_0 - 2 * m.time <= 1
            &&& -1 <= sys.duration->Ok_0 + mic.duration->Ok_0 - 2 * m.duration <= 1
            &&& m.data@.len() == sys_bytes.len()
            &&& forall|i: int|
                #![trigger sound_at(m.data@, i)]
                0 <= i < sys_bytes.len() as int / 2 && i < mic_bytes.len() as int / 2 ==> -1
                    <= sound_at(sys_bytes, i) + sound_at(mic_bytes, i) - 2 * sound_at(m.data@, i)
                    <= 1
            &&& forall|i: int|
                #![trigger sound_at(m.data@, i)]
                mic_bytes.len() as int / 2 <= i < sys_bytes.len() as int / 2 ==> -5 < 4
                    * sound_at(sys_bytes, i) - 5 * sound_at(m.data@, i) < 5
        },
{
    match r {
        Ok(MixerOutput::Mixed(m)) => {
            a_mix_is_heard_as_both(
                sys_bytes,
                mic_bytes,
                Seq::new(sys_bytes.len(), |i: int| 0u8),
                m.data@,
            );
        },
        _ => {},
    }
}

/// Where neither queue has anything stale and the two oldest samples are near
/// enough, they are mixed, and leave the queues. Where only one queue has samples,
/// its oldest one goes out as it is.
pub proof fn fronts_go_out(
    before: AudioMixer,
    after: AudioMixer,
    r: Option<Result<MixerOutput, HResult>>,
    s: i64,
    m: i64,
)
    requires
        before.offers(after, r),
    ensures
        ({
            let sys = before.system_audio_queue@;
            let mic = before.microphone_queue@;
            let max = before.max_time_diff_ns;
            &&& sys.len() > 0 && mic.len() > 0 && sys[0].sample.time == Ok::<i64, HResult>(s)
                && mic[0].sample.time == Ok::<i64, HResult>(m) && -max <= s - m <= max && (
            before.stale() matches Some(oldest) && s >= oldest && m >= oldest) ==> {
                &&& r is Some
                &&& is_output_of(*sys[0].sample, *mic[0].sample, r->Some_0)
                &&& after.system_audio_queue@ == sys.skip(1)
                &&& after.microphone_queue@ == mic.skip(1)
            }
            &&& sys.len() > 0 && mic.len() == 0 ==> {
                &&& r matches Some(Ok(MixerOutput::PassedThrough(sample))) && sample
                    == sys[0].sample
                &&& after.system_audio_queue@ == sys.skip(1)
                &&& after.microphone_queue@ == mic
            }
            &&& sys.len() == 0 && mic.len() > 0 ==> {
                &&& r matches Some(Ok(MixerOutput::PassedThrough(sample))) && sample
                    == mic[0].sample
                &&& after.microphone_queue@ == mic.skip(1)
                &&& after.system_audio_queue@ == sys
            }
            &&& sys.len() == 0 && mic.len() == 0 ==> r is None
        }),
{
    let sys = before.system_audio_queue@;
    let mic = before.microphone_queue@;
    if sys.len() > 0 {
        assert(sys.drop_first() =~= sys.skip(1));
    }
    if mic.len() > 0 {
        assert(mic.drop_first() =~= mic.skip(1));
    }
}

} // verus!
