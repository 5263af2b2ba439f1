//! A mixer that pairs the samples whose time stamps are closest.
use crate::error::HResult;
use crate::processing::mixed_sample::{
    buffer_failure, bytes_of, is_fresh_mix, mix_buffers, MixedSample, MixerOutput,
};
use crate::processing::pcm::{a_mix_is_heard_as_both, sound_at};
use crate::types::{MediaSample, SendableSample};
use std::collections::VecDeque;
use std::sync::Arc;
use vstd::prelude::*;

verus! {

/// A difference in time below which two samples match at once: 0.1 ms.
pub const CLOSE_DIFF: i64 = 1000;

/// A change in the drift between the two sources that is taken note of: 5 ms.
pub const DRIFT_CHANGE: i64 = 50_000;

/// A sample and its time stamp.
pub struct TimestampedSample(pub Arc<MediaSample>, pub i64);

/// What a mixer has counted so far. Durations and times are in units of 100
/// nanoseconds.
#[derive(Debug, Clone, Copy)]
pub struct MixerStats {
    /// How many pairs were mixed because their time stamps matched.
    pub good_match_count: usize,
    /// How many pairs were mixed although their time stamps did not match.
    pub no_match_count: usize,
    /// How many system audio samples were passed through alone.
    pub sys_only_count: usize,
    /// How many microphone samples were passed through alone.
    pub mic_only_count: usize,
    /// How often there was something to put out.
    pub call_count: u32,
    /// The total duration of the samples put out.
    pub total_processed_duration: i64,
    /// The total duration of the system audio samples.
    pub system_total_duration: i64,
    /// The total duration of the microphone samples.
    pub mic_total_duration: i64,
    /// The last notable difference between the time stamps of a pair.
    pub timestamp_drift: i64,
    /// The time stamp of the last system audio sample.
    pub last_sys_time: i64,
    /// The time stamp of the last microphone sample.
    pub last_mic_time: i64,
    /// The earliest time stamp of the samples passed through alone.
    pub min_timestamp: i64,
    /// The latest end of the samples passed through alone.
    pub max_timestamp: i64,
    /// The stretch of time that the samples passed through alone cover.
    pub real_timeline_duration: i64,
}

impl MixerStats {
    /// Whether every call that had something to put out is accounted for.
    pub open spec fn wf(self) -> bool {
        self.good_match_count + self.no_match_count + self.sys_only_count + self.mic_only_count
            == self.call_count
    }

    /// Computes `wf`.
    pub fn is_consistent(&self) -> (r: bool)
        ensures
            r == self.wf(),
    {
        let pairs: u128 = self.good_match_count as u128 + self.no_match_count as u128;
        let alone: u128 = self.sys_only_count as u128 + self.mic_only_count as u128;
        pairs + alone == self.call_count as u128
    }

    /// Nothing counted.
    pub open spec fn fresh() -> MixerStats {
        MixerStats {
            good_match_count: 0,
            no_match_count: 0,
            sys_only_count: 0,
            mic_only_count: 0,
            call_count: 0,
            total_processed_duration: 0,
            system_total_duration: 0,
            mic_total_duration: 0,
            timestamp_drift: 0,
            last_sys_time: 0,
            last_mic_time: 0,
            min_timestamp: i64::MAX,
            max_timestamp: 0,
            real_timeline_duration: 0,
        }
    }

    /// Nothing counted.
    pub fn new() -> (r: Self)
        ensures
            r.wf(),
            r == MixerStats::fresh(),
    {
        MixerStats {
            good_match_count: 0,
            no_match_count: 0,
            sys_only_count: 0,
            mic_only_count: 0,
            call_count: 0,
            total_processed_duration: 0,
            system_total_duration: 0,
            mic_total_duration: 0,
            timestamp_drift: 0,
            last_sys_time: 0,
            last_mic_time: 0,
            min_timestamp: i64::MAX,
            max_timestamp: 0,
            real_timeline_duration: 0,
        }
    }
}

/// Mixes system audio with microphone audio, closest pair first.
pub struct AudioMixer {
    /// The system audio samples, the oldest first.
    pub system_audio_queue: VecDeque<TimestampedSample>,
    /// The microphone samples, the oldest first.
    pub microphone_queue: VecDeque<TimestampedSample>,
    /// Frames per second.
    pub sample_rate: u32,
    /// The number of channels.
    pub channels: u16,
    /// How many samples of either source are kept.
    pub max_buffer_size: usize,
    /// The time difference up to which two samples match, in units of 100
    /// nanoseconds.
    pub max_time_diff_ns: i64,
    /// Whether samples of either source wait for those of the other.
    pub both_sources_active: bool,
}

/// The last `n` items of a sequence, or all of them where there are fewer.
pub open spec fn last_items<T>(s: Seq<T>, n: nat) -> Seq<T> {
    if s.len() > n {
        s.skip(s.len() - n)
    } else {
        s
    }
}

/// The time stamp that a sample goes by: zero where it has none.
pub open spec fn timestamp_of(sample: MediaSample) -> i64 {
    match sample.time {
        Ok(time) => time,
        Err(_) => 0,
    }
}

/// A total duration with that of a sample added, where it has one.
pub open spec fn with_duration(total: i64, sample: MediaSample) -> int {
    match sample.duration {
        Ok(duration) => total + duration,
        Err(_) => total as int,
    }
}

/// Whether the duration of a sample can be added to a total.
pub fn duration_fits(total: i64, sample: &MediaSample) -> (r: bool)
    ensures
        r == (i64::MIN <= with_duration(total, *sample) <= i64::MAX),
{
    match sample.duration {
        Ok(duration) => {
            let sum: i128 = total as i128 + duration as i128;
            i64::MIN as i128 <= sum && sum <= i64::MAX as i128
        },
        Err(_) => true,
    }
}

/// How far apart in time a system audio sample and a microphone sample are.
pub open spec fn pair_diff(
    sys: Seq<TimestampedSample>,
    mic: Seq<TimestampedSample>,
    i: int,
    j: int,
) -> int {
    let d = sys[i].1 - mic[j].1;
    if d < 0 {
        -d
    } else {
        d
    }
}

/// Whether a pair of indices points into the two queues.
pub open spec fn is_pair(
    sys: Seq<TimestampedSample>,
    mic: Seq<TimestampedSample>,
    i: int,
    j: int,
) -> bool {
    0 <= i < sys.len() && 0 <= j < mic.len()
}

/// Whether one pair of indices comes before another.
pub open spec fn comes_before(i: int, j: int, k: int, l: int) -> bool {
    i < k || (i == k && j < l)
}

/// Whether this is the pair of samples that belong together most.
///
/// The first pair that is very close wins. Where there is none, it is the pair
/// that is closest, and the first one of those.
pub open spec fn is_closest(
    sys: Seq<TimestampedSample>,
    mic: Seq<TimestampedSample>,
    i: int,
    j: int,
) -> bool {
    let diff = pair_diff(sys, mic, i, j);
    &&& is_pair(sys, mic, i, j)
    &&& if diff < CLOSE_DIFF {
        forall|k: int, l: int|
            #![trigger pair_diff(sys, mic, k, l)]
            is_pair(sys, mic, k, l) && comes_before(k, l, i, j) ==> pair_diff(sys, mic, k, l)
                >= CLOSE_DIFF
    } else {
        &&& diff < i64::MAX
        &&& forall|k: int, l: int|
            #![trigger pair_diff(sys, mic, k, l)]
            is_pair(sys, mic, k, l) ==> pair_diff(sys, mic, k, l) >= diff
        &&& forall|k: int, l: int|
            #![trigger pair_diff(sys, mic, k, l)]
            is_pair(sys, mic, k, l) && comes_before(k, l, i, j) ==> pair_diff(sys, mic, k, l)
                > diff
    }
}

/// The pair of samples that belong together most, if the queues hold one.
pub open spec fn closest(sys: Seq<TimestampedSample>, mic: Seq<TimestampedSample>) -> Option<
    (int, int),
> {
    if exists|i: int, j: int| is_closest(sys, mic, i, j) {
        Some(choose|i: int, j: int| is_closest(sys, mic, i, j))
    } else {
        None
    }
}

/// The pair of samples whose time stamps match, if there is one: the closest
/// pair, unless it is too far apart.
pub open spec fn best_match(
    sys: Seq<TimestampedSample>,
    mic: Seq<TimestampedSample>,
    max: int,
) -> Option<(int, int)> {
    match closest(sys, mic) {
        Some(pair) => {
            let diff = pair_diff(sys, mic, pair.0, pair.1);
            if diff < CLOSE_DIFF || diff <= max {
                Some(pair)
            } else {
                None
            }
        },
        None => None,
    }
}

/// The drift on record after a search for a match: that of the closest pair,
/// where the pair is not very close and its drift differs notably.
pub open spec fn drift_after(
    sys: Seq<TimestampedSample>,
    mic: Seq<TimestampedSample>,
    drift: i64,
) -> int {
    match closest(sys, mic) {
        Some(pair) => {
            let current = sys[pair.0].1 - mic[pair.1].1;
            let change = current - drift;
            if pair_diff(sys, mic, pair.0, pair.1) >= CLOSE_DIFF && (change > DRIFT_CHANGE || change
                < -DRIFT_CHANGE) {
                current
            } else {
                drift as int
            }
        },
        None => drift as int,
    }
}

/// The samples that are mixed next, by their indices, and whether they match.
///
/// They are the matching pair. Where there is none, it is the two oldest
/// samples.
pub open spec fn next_pair(
    sys: Seq<TimestampedSample>,
    mic: Seq<TimestampedSample>,
    max: int,
) -> (int, int, bool) {
    match best_match(sys, mic, max) {
        Some(pair) => (pair.0, pair.1, true),
        None => (0, 0, false),
    }
}

/// The code of the first failure in reading two samples: the time stamp and
/// the duration of each, then the buffers.
pub open spec fn read_failure(sys: MediaSample, mic: MediaSample) -> Option<HResult> {
    match (sys.time, sys.duration, mic.time, mic.duration) {
        (Err(code), _, _, _) => Some(code),
        (Ok(_), Err(code), _, _) => Some(code),
        (Ok(_), Ok(_), Err(code), _) => Some(code),
        (Ok(_), Ok(_), Ok(_), Err(code)) => Some(code),
        (Ok(_), Ok(_), Ok(_), Ok(_)) => buffer_failure(sys, mic),
    }
}

/// Whether a sample has a buffer that can be read.
fn has_bytes(sample: &MediaSample) -> (r: bool)
    ensures
        r == (sample.buffer matches Ok(buffer) && buffer.contents is Ok),
{
    match &sample.buffer {
        Ok(buffer) => buffer.contents.is_ok(),
        Err(_) => false,
    }
}

/// Whether two samples can be read.
pub(crate) fn are_readable(sys: &MediaSample, mic: &MediaSample) -> (r: bool)
    ensures
        r == (read_failure(*sys, *mic) is None),
{
    sys.time.is_ok() && sys.duration.is_ok() && mic.time.is_ok() && mic.duration.is_ok()
        && has_bytes(sys) && has_bytes(mic)
}

/// Whether the duration of a pair that is mixed can be added to a total. A pair
/// that cannot be read adds nothing.
pub open spec fn pair_fits(sys: MediaSample, mic: MediaSample, total: i64) -> bool {
    read_failure(sys, mic) is None ==> i64::MIN <= with_duration(total, sys) <= i64::MAX
}

/// Computes `pair_fits`.
pub(crate) fn has_room_for_pair(sys: &MediaSample, mic: &MediaSample, total: i64) -> (r: bool)
    ensures
        r == pair_fits(*sys, *mic, total),
{
    !are_readable(sys, mic) || duration_fits(total, sys)
}

/// Whether `r` is what mixing two samples comes to: it has the time stamp and
/// the duration of the system audio, and the mix of both.
pub open spec fn is_mixed(
    sys: MediaSample,
    mic: MediaSample,
    r: Result<MixedSample, HResult>,
) -> bool {
    match read_failure(sys, mic) {
        Some(code) => r == Err::<MixedSample, HResult>(code),
        None => r matches Ok(m) && {
            &&& m.time == sys.time->Ok_0
            &&& m.duration == sys.duration->Ok_0
            &&& is_fresh_mix(bytes_of(sys), bytes_of(mic), m.data@)
        },
    }
}

/// What is counted once the next pair was mixed: the pair itself, its drift,
/// and its duration where it could be mixed.
pub open spec fn counted(
    sys: Seq<TimestampedSample>,
    mic: Seq<TimestampedSample>,
    max: int,
    stats: MixerStats,
) -> MixerStats {
    let (i, j, matching) = next_pair(sys, mic, max);
    MixerStats {
        call_count: (stats.call_count + 1) as u32,
        good_match_count: if matching {
            (stats.good_match_count + 1) as usize
        } else {
            stats.good_match_count
        },
        no_match_count: if matching {
            stats.no_match_count
        } else {
            (stats.no_match_count + 1) as usize
        },
        timestamp_drift: drift_after(sys, mic, stats.timestamp_drift) as i64,
        total_processed_duration: if read_failure(*sys[i].0, *mic[j].0) is None {
            with_duration(stats.total_processed_duration, *sys[i].0) as i64
        } else {
            stats.total_processed_duration
        },
        ..stats
    }
}

/// The earliest time stamp once a sample was passed through alone.
pub open spec fn earliest(stats: MixerStats, time: i64) -> i64 {
    if time < stats.min_timestamp {
        time
    } else {
        stats.min_timestamp
    }
}

/// Whether everything that a sample adds to can be counted, where it is passed
/// through alone.
pub open spec fn fits_alone(stats: MixerStats, sample: MediaSample) -> bool {
    match (sample.time, sample.duration) {
        (Ok(time), Ok(duration)) => {
            let end = time + duration;
            &&& i64::MIN <= end <= i64::MAX
            &&& end > stats.max_timestamp ==> end - earliest(stats, time) <= i64::MAX
            &&& i64::MIN <= stats.total_processed_duration + duration <= i64::MAX
        },
        _ => true,
    }
}

/// Computes `fits_alone`.
pub fn has_room_alone(stats: &MixerStats, sample: &MediaSample) -> (r: bool)
    ensures
        r == fits_alone(*stats, *sample),
{
    match (sample.time, sample.duration) {
        (Ok(time), Ok(duration)) => {
            let low: i128 = i64::MIN as i128;
            let high: i128 = i64::MAX as i128;
            let end: i128 = time as i128 + duration as i128;
            let total: i128 = stats.total_processed_duration as i128 + duration as i128;
            let start: i64 = if time < stats.min_timestamp {
                time
            } else {
                stats.min_timestamp
            };
            low <= end && end <= high && (end <= stats.max_timestamp as i128 || end - start as i128
                <= high) && low <= total && total <= high
        },
        _ => true,
    }
}

/// What is counted once a sample was passed through alone: the sample itself,
/// and where it has a time stamp and a duration, the stretch of time that is
/// covered and the total duration.
pub open spec fn counted_alone(
    stats: MixerStats,
    sample: MediaSample,
    is_system: bool,
) -> MixerStats {
    let called = MixerStats {
        call_count: (stats.call_count + 1) as u32,
        sys_only_count: if is_system {
            (stats.sys_only_count + 1) as usize
        } else {
            stats.sys_only_count
        },
        mic_only_count: if is_system {
            stats.mic_only_count
        } else {
            (stats.mic_only_count + 1) as usize
        },
        ..stats
    };
    match (sample.time, sample.duration) {
        (Ok(time), Ok(duration)) => {
            let min = earliest(stats, time);
            let end = time + duration;
            MixerStats {
                min_timestamp: min,
                max_timestamp: if end > stats.max_timestamp {
                    end as i64
                } else {
                    stats.max_timestamp
                },
                real_timeline_duration: if end > stats.max_timestamp {
                    (end - min) as i64
                } else {
                    stats.real_timeline_duration
                },
                total_processed_duration: (stats.total_processed_duration + duration) as i64,
                ..called
            }
        },
        _ => called,
    }
}

/// Computes `counted_alone`.
fn count_alone(stats: &mut MixerStats, sample: &MediaSample, is_system: bool)
    requires
        old(stats).wf(),
        old(stats).call_count < u32::MAX,
        fits_alone(*old(stats), *sample),
    ensures
        final(stats).wf(),
        *final(stats) == counted_alone(*old(stats), *sample, is_system),
{
    stats.call_count = stats.call_count + 1;
    if is_system {
        stats.sys_only_count = stats.sys_only_count + 1;
    } else {
        stats.mic_only_count = stats.mic_only_count + 1;
    }
    match (sample.time, sample.duration) {
        (Ok(time), Ok(duration)) => {
            if time < stats.min_timestamp {
                stats.min_timestamp = time;
            }
            let end: i64 = time + duration;
            if end > stats.max_timestamp {
                stats.max_timestamp = end;
                stats.real_timeline_duration = end - stats.min_timestamp;
            }
            stats.total_processed_duration = stats.total_processed_duration + duration;
        },
        _ => {},
    }
}

/// Whether `r` is what putting a pair of samples out comes to.
pub open spec fn is_output(
    sys: MediaSample,
    mic: MediaSample,
    r: Result<MixerOutput, HResult>,
) -> bool {
    match r {
        Ok(MixerOutput::Mixed(mixed)) => is_mixed(sys, mic, Ok(mixed)),
        Ok(MixerOutput::PassedThrough(_)) => false,
        Err(code) => is_mixed(sys, mic, Err(code)),
    }
}

/// The closest pair is unique.
pub proof fn closest_is_unique(
    sys: Seq<TimestampedSample>,
    mic: Seq<TimestampedSample>,
    i: int,
    j: int,
    k: int,
    l: int,
)
    requires
        is_closest(sys, mic, i, j),
        is_closest(sys, mic, k, l),
    ensures
        i == k,
        j == l,
{
    assert(pair_diff(sys, mic, i, j) >= 0 && pair_diff(sys, mic, k, l) >= 0);
    assert(!comes_before(i, j, k, l));
    assert(!comes_before(k, l, i, j));
}

/// Two samples that match are no further apart than the limit, or very close.
pub proof fn matches_are_near(sys: Seq<TimestampedSample>, mic: Seq<TimestampedSample>, max: int)
    ensures
        best_match(sys, mic, max) matches Some(pair) ==> {
            &&& is_pair(sys, mic, pair.0, pair.1)
            &&& pair_diff(sys, mic, pair.0, pair.1) < CLOSE_DIFF || pair_diff(
                sys,
                mic,
                pair.0,
                pair.1,
            ) <= max
        },
{
}

/// Unless two samples are very close, no other pair is closer than a match.
pub proof fn no_pair_is_closer(
    sys: Seq<TimestampedSample>,
    mic: Seq<TimestampedSample>,
    max: int,
    k: int,
    l: int,
)
    requires
        is_pair(sys, mic, k, l),
    ensures
        best_match(sys, mic, max) matches Some(pair) ==> {
            let diff = pair_diff(sys, mic, pair.0, pair.1);
            diff < CLOSE_DIFF || diff <= pair_diff(sys, mic, k, l)
        },
{
}

/// The samples that match are the ones that are mixed.
pub proof fn matching_pair_is_mixed(
    sys: Seq<TimestampedSample>,
    mic: Seq<TimestampedSample>,
    max: int,
    i: int,
    j: int,
)
    requires
        best_match(sys, mic, max) == Some((i, j)),
    ensures
        next_pair(sys, mic, max) == (i, j, true),
{
}

/// What a search through all pairs before `(i, j)` has found.
spec fn searched(
    sys: Seq<TimestampedSample>,
    mic: Seq<TimestampedSample>,
    i: int,
    j: int,
    best: Option<(usize, usize)>,
    smallest: i128,
) -> bool {
    &&& forall|k: int, l: int|
        #![trigger pair_diff(sys, mic, k, l)]
        is_pair(sys, mic, k, l) && comes_before(k, l, i, j) ==> pair_diff(sys, mic, k, l)
            >= smallest
    &&& smallest >= CLOSE_DIFF
    &&& match best {
        None => smallest == i64::MAX,
        Some(pair) => {
            &&& is_pair(sys, mic, pair.0 as int, pair.1 as int)
            &&& pair_diff(sys, mic, pair.0 as int, pair.1 as int) == smallest
            &&& smallest < i64::MAX
            &&& forall|k: int, l: int|
                #![trigger pair_diff(sys, mic, k, l)]
                is_pair(sys, mic, k, l) && comes_before(k, l, pair.0 as int, pair.1 as int)
                    ==> pair_diff(sys, mic, k, l) > smallest
        },
    }
}

/// The absolute difference of two times.
fn time_diff(a: i64, b: i64) -> (r: i128)
    ensures
        r == if a >= b {
            a - b
        } else {
            b - a
        },
{
    let d: i128 = a as i128 - b as i128;
    if d < 0 {
        -d
    } else {
        d
    }
}

/// Finds the closest pair.
fn find_closest(sys: &VecDeque<TimestampedSample>, mic: &VecDeque<TimestampedSample>) -> (r: Option<
    (usize, usize),
>)
    ensures
        match r {
            Some(pair) => {
                &&& is_closest(sys@, mic@, pair.0 as int, pair.1 as int)
                &&& closest(sys@, mic@) == Some((pair.0 as int, pair.1 as int))
            },
            None => closest(sys@, mic@) is None,
        },
{
    let mut best: Option<(usize, usize)> = None;
    let mut smallest: i128 = i64::MAX as i128;
    let sys_len: usize = sys.len();
    let mic_len: usize = mic.len();
    let mut i: usize = 0;
    while i < sys_len
        invariant
            sys_len == sys@.len(),
            mic_len == mic@.len(),
            i <= sys_len,
            searched(sys@, mic@, i as int, 0, best, smallest),
        decreases sys_len - i,
    {
        let mut j: usize = 0;
        while j < mic_len
            invariant
                sys_len == sys@.len(),
                mic_len == mic@.len(),
                i < sys_len,
                j <= mic_len,
                searched(sys@, mic@, i as int, j as int, best, smallest),
            decreases mic_len - j,
        {
            let diff: i128 = time_diff(sys[i].1, mic[j].1);
            assert(diff == pair_diff(sys@, mic@, i as int, j as int));
            if diff < smallest {
                smallest = diff;
                best = Some((i, j));
                if diff < CLOSE_DIFF as i128 {
                    proof {
                        let found = choose|k: int, l: int| is_closest(sys@, mic@, k, l);
                        assert(is_closest(sys@, mic@, i as int, j as int));
                        closest_is_unique(sys@, mic@, found.0, found.1, i as int, j as int);
                    }
                    return best;
                }
            }
            j = j + 1;
            assert forall|k: int, l: int|
                is_pair(sys@, mic@, k, l) && comes_before(k, l, i as int, j as int) && !comes_before(
                    k,
                    l,
                    i as int,
                    j - 1,
                ) implies k == i && l == j - 1 by {}
        }
        i = i + 1;
    }
    proof {
        match best {
            Some(pair) => {
                let found = choose|k: int, l: int| is_closest(sys@, mic@, k, l);
                assert(is_closest(sys@, mic@, pair.0 as int, pair.1 as int));
                closest_is_unique(
                    sys@,
                    mic@,
                    found.0,
                    found.1,
                    pair.0 as int,
                    pair.1 as int,
                );
            },
            None => {},
        }
    }
    best
}

/// Finds the samples that are mixed next.
pub(crate) fn find_next(
    sys: &VecDeque<TimestampedSample>,
    mic: &VecDeque<TimestampedSample>,
    max: i64,
) -> (r: (usize, usize))
    requires
        sys@.len() > 0,
        mic@.len() > 0,
    ensures
        is_pair(sys@, mic@, r.0 as int, r.1 as int),
        next_pair(sys@, mic@, max as int).0 == r.0,
        next_pair(sys@, mic@, max as int).1 == r.1,
{
    match find_closest(sys, mic) {
        Some(pair) => {
            let diff: i128 = time_diff(sys[pair.0].1, mic[pair.1].1);
            if diff < CLOSE_DIFF as i128 || diff <= max as i128 {
                pair
            } else {
                (0, 0)
            }
        },
        None => (0, 0),
    }
}

/// Drops the oldest items until no more than `n` are left.
pub(crate) fn keep_last(queue: &mut VecDeque<TimestampedSample>, n: usize)
    ensures
        final(queue)@ == last_items(old(queue)@, n as nat),
{
    assert(queue@ =~= old(queue)@.skip(0));
    while queue.len() > n
        invariant
            queue@.len() <= old(queue)@.len(),
            queue@ == old(queue)@.skip(old(queue)@.len() - queue@.len()),
            queue@.len() >= n || queue@ == old(queue)@,
        decreases queue@.len(),
    {
        let _ = queue.pop_front();
        assert(queue@ =~= old(queue)@.skip(old(queue)@.len() - queue@.len()));
    }
}

impl AudioMixer {
    /// Whether neither queue holds more samples than the mixer keeps.
    pub open spec fn wf(self) -> bool {
        &&& self.system_audio_queue@.len() <= self.max_buffer_size
        &&& self.microphone_queue@.len() <= self.max_buffer_size
    }

    /// Whether two mixers have the same settings.
    pub open spec fn same_settings(self, other: AudioMixer) -> bool {
        &&& self.sample_rate == other.sample_rate
        &&& self.channels == other.channels
        &&& self.max_buffer_size == other.max_buffer_size
        &&& self.max_time_diff_ns == other.max_time_diff_ns
        &&& self.both_sources_active == other.both_sources_active
    }

    /// A mixer without samples, which keeps ten of either source, takes a
    /// difference of 20 ms for a match, and waits for both sources.
    pub fn new(sample_rate: u32, bits_per_sample: u16, channels: u16) -> (r: Self)
        ensures
            r.wf(),
            r.system_audio_queue@ == Seq::<TimestampedSample>::empty(),
            r.microphone_queue@ == Seq::<TimestampedSample>::empty(),
            r.sample_rate == sample_rate,
            r.channels == channels,
            r.max_buffer_size == 10,
            r.max_time_diff_ns == 200_000,
            r.both_sources_active,
    {
        AudioMixer {
            system_audio_queue: VecDeque::new(),
            microphone_queue: VecDeque::new(),
            sample_rate,
            channels,
            max_buffer_size: 10,
            max_time_diff_ns: 200_000,
            both_sources_active: true,
        }
    }

    /// Sets whether samples of either source wait for those of the other.
    pub fn set_both_sources_active(&mut self, active: bool)
        ensures
            final(self).both_sources_active == active,
            final(self).system_audio_queue@ == old(self).system_audio_queue@,
            final(self).microphone_queue@ == old(self).microphone_queue@,
            final(self).sample_rate == old(self).sample_rate,
            final(self).channels == old(self).channels,
            final(self).max_buffer_size == old(self).max_buffer_size,
            final(self).max_time_diff_ns == old(self).max_time_diff_ns,
    {
        self.both_sources_active = active;
    }

    /// Sets how many samples of either source are kept, and the time
    /// difference up to which two samples match, in units of 100 nanoseconds.
    pub fn set_buffer_params(&mut self, max_buffer_size: usize, max_time_diff_ns: i64)
        ensures
            final(self).max_buffer_size == max_buffer_size,
            final(self).max_time_diff_ns == max_time_diff_ns,
            final(self).system_audio_queue@ == old(self).system_audio_queue@,
            final(self).microphone_queue@ == old(self).microphone_queue@,
            final(self).sample_rate == old(self).sample_rate,
            final(self).channels == old(self).channels,
            final(self).both_sources_active == old(self).both_sources_active,
    {
        self.max_buffer_size = max_buffer_size;
        self.max_time_diff_ns = max_time_diff_ns;
    }

    /// Takes in a system audio sample, and drops the oldest samples where
    /// there are too many.
    pub fn add_system_audio(&mut self, stats: &mut MixerStats, sample: SendableSample)
        requires
            i64::MIN <= with_duration(old(stats).system_total_duration, *sample.sample) <= i64::MAX,
        ensures
            final(self).wf(),
            final(self).system_audio_queue@ == last_items(
                old(self).system_audio_queue@.push(
                    TimestampedSample(sample.sample, timestamp_of(*sample.sample)),
                ),
                old(self).max_buffer_size as nat,
            ),
            final(self).microphone_queue@ == last_items(
                old(self).microphone_queue@,
                old(self).max_buffer_size as nat,
            ),
            final(self).same_settings(*old(self)),
            *final(stats) == (MixerStats {
                system_total_duration: with_duration(
                    old(stats).system_total_duration,
                    *sample.sample,
                ) as i64,
                last_sys_time: timestamp_of(*sample.sample),
                ..*old(stats)
            }),
    {
        let timestamp: i64 = match sample.sample.time {
            Ok(time) => time,
            Err(_) => 0,
        };
        match sample.sample.duration {
            Ok(duration) => {
                stats.system_total_duration = stats.system_total_duration + duration;
            },
            Err(_) => {},
        }
        stats.last_sys_time = timestamp;
        self.system_audio_queue.push_back(TimestampedSample(sample.sample, timestamp));
        self.trim_queues();
    }

    /// Takes in a microphone sample, and drops the oldest samples where there
    /// are too many.
    pub fn add_microphone_audio(&mut self, stats: &mut MixerStats, sample: SendableSample)
        requires
            i64::MIN <= with_duration(old(stats).mic_total_duration, *sample.sample) <= i64::MAX,
        ensures
            final(self).wf(),
            final(self).microphone_queue@ == last_items(
                old(self).microphone_queue@.push(
                    TimestampedSample(sample.sample, timestamp_of(*sample.sample)),
                ),
                old(self).max_buffer_size as nat,
            ),
            final(self).system_audio_queue@ == last_items(
                old(self).system_audio_queue@,
                old(self).max_buffer_size as nat,
            ),
            final(self).same_settings(*old(self)),
            *final(stats) == (MixerStats {
                mic_total_duration: with_duration(
                    old(stats).mic_total_duration,
                    *sample.sample,
                ) as i64,
                last_mic_time: timestamp_of(*sample.sample),
                ..*old(stats)
            }),
    {
        let timestamp: i64 = match sample.sample.time {
            Ok(time) => time,
            Err(_) => 0,
        };
        match sample.sample.duration {
            Ok(duration) => {
                stats.mic_total_duration = stats.mic_total_duration + duration;
            },
            Err(_) => {},
        }
        stats.last_mic_time = timestamp;
        self.microphone_queue.push_back(TimestampedSample(sample.sample, timestamp));
        self.trim_queues();
    }

    /// Drops the oldest samples until neither queue holds too many.
    fn trim_queues(&mut self)
        ensures
            final(self).wf(),
            final(self).system_audio_queue@ == last_items(
                old(self).system_audio_queue@,
                old(self).max_buffer_size as nat,
            ),
            final(self).microphone_queue@ == last_items(
                old(self).microphone_queue@,
                old(self).max_buffer_size as nat,
            ),
            final(self).same_settings(*old(self)),
    {
        let n: usize = self.max_buffer_size;
        keep_last(&mut self.system_audio_queue, n);
        keep_last(&mut self.microphone_queue, n);
    }

    /// Finds the pair of samples whose time stamps match, and takes note of
    /// the drift between them.
    pub fn find_best_sample_match(&self, stats: &mut MixerStats) -> (r: Option<(usize, usize)>)
        ensures
            match r {
                Some(pair) => {
                    &&& is_pair(
                        self.system_audio_queue@,
                        self.microphone_queue@,
                        pair.0 as int,
                        pair.1 as int,
                    )
                    &&& best_match(
                        self.system_audio_queue@,
                        self.microphone_queue@,
                        self.max_time_diff_ns as int,
                    ) == Some((pair.0 as int, pair.1 as int))
                },
                None => best_match(
                    self.system_audio_queue@,
                    self.microphone_queue@,
                    self.max_time_diff_ns as int,
                ) is None,
            },
            *final(stats) == (MixerStats {
                timestamp_drift: drift_after(
                    self.system_audio_queue@,
                    self.microphone_queue@,
                    old(stats).timestamp_drift,
                ) as i64,
                ..*old(stats)
            }),
    {
        let pair = match find_closest(&self.system_audio_queue, &self.microphone_queue) {
            Some(pair) => pair,
            None => {
                return None;
            },
        };
        let sys_time: i64 = self.system_audio_queue[pair.0].1;
        let mic_time: i64 = self.microphone_queue[pair.1].1;
        let diff: i128 = time_diff(sys_time, mic_time);
        if diff < CLOSE_DIFF as i128 {
            return Some(pair);
        }
        let current: i64 = sys_time - mic_time;
        let change: i128 = current as i128 - stats.timestamp_drift as i128;
        if change > DRIFT_CHANGE as i128 || change < -(DRIFT_CHANGE as i128) {
            stats.timestamp_drift = current;
        }
        if diff <= self.max_time_diff_ns as i128 {
            Some(pair)
        } else {
            None
        }
    }

    /// Whether there is something to put out: a sample of each source, or of
    /// one where they do not wait for each other.
    pub open spec fn has_next(self) -> bool {
        if self.both_sources_active {
            self.system_audio_queue@.len() > 0 && self.microphone_queue@.len() > 0
        } else {
            self.system_audio_queue@.len() > 0 || self.microphone_queue@.len() > 0
        }
    }

    /// Whether everything that the next output adds to can be counted.
    pub open spec fn can_count(self, stats: MixerStats) -> bool {
        let sys = self.system_audio_queue@;
        let mic = self.microphone_queue@;
        &&& stats.wf()
        &&& self.has_next() ==> stats.call_count < u32::MAX
        &&& if !self.has_next() {
            true
        } else if mic.len() == 0 {
            fits_alone(stats, *sys[0].0)
        } else if sys.len() == 0 {
            fits_alone(stats, *mic[0].0)
        } else {
            let (i, j, _) = next_pair(sys, mic, self.max_time_diff_ns as int);
            pair_fits(*sys[i].0, *mic[j].0, stats.total_processed_duration)
        }
    }

    /// Computes `can_count`.
    pub fn has_room(&self, stats: &MixerStats) -> (r: bool)
        ensures
            r == self.can_count(*stats),
    {
        let n: usize = self.system_audio_queue.len();
        let m: usize = self.microphone_queue.len();
        if !stats.is_consistent() {
            return false;
        }
        if (n == 0 && m == 0) || (self.both_sources_active && (n == 0 || m == 0)) {
            return true;
        }
        if stats.call_count == u32::MAX {
            return false;
        }
        if m == 0 {
            return has_room_alone(stats, &self.system_audio_queue[0].0);
        }
        if n == 0 {
            return has_room_alone(stats, &self.microphone_queue[0].0);
        }
        let (i, j): (usize, usize) = find_next(
            &self.system_audio_queue,
            &self.microphone_queue,
            self.max_time_diff_ns,
        );
        has_room_for_pair(
            &self.system_audio_queue[i].0,
            &self.microphone_queue[j].0,
            stats.total_processed_duration,
        )
    }

    /// Whether `after` and `counts` are the mixer and what it has counted once
    /// the next sample was put out, and `r` is that sample.
    pub open spec fn puts_out(
        self,
        stats: MixerStats,
        after: AudioMixer,
        counts: MixerStats,
        r: Option<Result<MixerOutput, HResult>>,
    ) -> bool {
        let sys = self.system_audio_queue@;
        let mic = self.microphone_queue@;
        let max = self.max_time_diff_ns as int;
        &&& after.same_settings(self)
        &&& if !self.has_next() {
            &&& r is None
            &&& after.system_audio_queue@ == sys
            &&& after.microphone_queue@ == mic
            &&& counts == stats
        } else if mic.len() == 0 {
            &&& r == Some(Ok::<_, HResult>(MixerOutput::PassedThrough(sys[0].0)))
            &&& after.system_audio_queue@ == sys.drop_first()
            &&& after.microphone_queue@ == mic
            &&& counts == counted_alone(stats, *sys[0].0, true)
        } else if sys.len() == 0 {
            &&& r == Some(Ok::<_, HResult>(MixerOutput::PassedThrough(mic[0].0)))
            &&& after.system_audio_queue@ == sys
            &&& after.microphone_queue@ == mic.drop_first()
            &&& counts == counted_alone(stats, *mic[0].0, false)
        } else {
            let (i, j, _) = next_pair(sys, mic, max);
            &&& is_pair(sys, mic, i, j)
            &&& r is Some
            &&& is_output(*sys[i].0, *mic[j].0, r->Some_0)
            &&& after.system_audio_queue@ == sys.remove(i)
            &&& after.microphone_queue@ == mic.remove(j)
            &&& counts == counted(sys, mic, max, stats)
        }
    }

    /// Puts the next sample out.
    ///
    /// Where there are samples of both sources, two are mixed: a matching pair
    /// first, or the two oldest where there is none. Where there are samples
    /// of one source only, they wait for the other, or the oldest is passed
    /// through alone where the mixer waits for neither.
    pub fn process_next_sample(&mut self, stats: &mut MixerStats) -> (r: Option<
        Result<MixerOutput, HResult>,
    >)
        requires
            old(self).can_count(*old(stats)),
        ensures
            final(stats).wf(),
            old(self).puts_out(*old(stats), *final(self), *final(stats), r),
    {
        let ghost sys_before = self.system_audio_queue@;
        let ghost mic_before = self.microphone_queue@;
        let no_system: bool = self.system_audio_queue.len() == 0;
        let no_microphone: bool = self.microphone_queue.len() == 0;
        if (no_system && no_microphone) || (self.both_sources_active && (no_system
            || no_microphone)) {
            return None;
        }
        if no_microphone {
            let sample = self.system_audio_queue.pop_front().unwrap();
            assert(sample == sys_before[0]);
            assert(self.system_audio_queue@ =~= sys_before.drop_first());
            count_alone(stats, &sample.0, true);
            return Some(Ok(MixerOutput::PassedThrough(sample.0)));
        }
        if no_system {
            let sample = self.microphone_queue.pop_front().unwrap();
            assert(sample == mic_before[0]);
            assert(self.microphone_queue@ =~= mic_before.drop_first());
            count_alone(stats, &sample.0, false);
            return Some(Ok(MixerOutput::PassedThrough(sample.0)));
        }
        stats.call_count = stats.call_count + 1;
        let (i, j): (usize, usize) = match self.find_best_sample_match(stats) {
            Some(pair) => {
                stats.good_match_count = stats.good_match_count + 1;
                pair
            },
            None => {
                stats.no_match_count = stats.no_match_count + 1;
                (0, 0)
            },
        };
        let sys_sample = self.system_audio_queue.remove(i).unwrap();
        let mic_sample = self.microphone_queue.remove(j).unwrap();
        assert(sys_sample == sys_before[i as int]);
        match self.mix_samples(&sys_sample.0, &mic_sample.0) {
            Ok(mixed) => {
                stats.total_processed_duration = stats.total_processed_duration + mixed.duration;
                Some(Ok(MixerOutput::Mixed(mixed)))
            },
            Err(code) => Some(Err(code)),
        }
    }

    /// Mixes two samples into a new one.
    pub fn mix_samples(&self, sys: &MediaSample, mic: &MediaSample) -> (r: Result<
        MixedSample,
        HResult,
    >)
        ensures
            is_mixed(*sys, *mic, r),
    {
        let time: i64 = match sys.time {
            Ok(time) => time,
            Err(code) => {
                return Err(code);
            },
        };
        let duration: i64 = match sys.duration {
            Ok(duration) => duration,
            Err(code) => {
                return Err(code);
            },
        };
        match mic.time {
            Ok(_) => {},
            Err(code) => {
                return Err(code);
            },
        }
        match mic.duration {
            Ok(_) => {},
            Err(code) => {
                return Err(code);
            },
        }
        match mix_buffers(sys, mic) {
            Ok(data) => Ok(MixedSample { time, duration, data }),
            Err(code) => Err(code),
        }
    }

    /// Empties both queues and tells what was counted: the timeline, the
    /// matches, the pairs without a match, the samples passed through alone,
    /// the calls, the total durations, the drift and the last time stamps.
    pub fn flush_queues(&mut self, stats: &MixerStats) -> (r: (
        i64,
        usize,
        usize,
        usize,
        usize,
        usize,
        i64,
        i64,
        i64,
        i64,
        i64,
    ))
        ensures
            final(self).wf(),
            final(self).system_audio_queue@ == Seq::<TimestampedSample>::empty(),
            final(self).microphone_queue@ == Seq::<TimestampedSample>::empty(),
            final(self).same_settings(*old(self)),
            r.0 == stats.real_timeline_duration,
            r.1 == stats.good_match_count,
            r.2 == stats.no_match_count,
            r.3 == stats.sys_only_count,
            r.4 == stats.mic_only_count,
            r.5 == stats.call_count,
            r.6 == stats.system_total_duration,
            r.7 == stats.mic_total_duration,
            r.8 == stats.timestamp_drift,
            r.9 == stats.last_sys_time,
            r.10 == stats.last_mic_time,
    {
        self.system_audio_queue.clear();
        self.microphone_queue.clear();
        (
            stats.real_timeline_duration,
            stats.good_match_count,
            stats.no_match_count,
            stats.sys_only_count,
            stats.mic_only_count,
            stats.call_count as usize,
            stats.system_total_duration,
            stats.mic_total_duration,
            stats.timestamp_drift,
            stats.last_sys_time,
            stats.last_mic_time,
        )
    }
}

/// Whether two times are at least 0.1 ms apart, and further than a limit.
pub open spec fn are_apart(a: i64, b: i64, max: int) -> bool {
    &&& a - b > max || b - a > max
    &&& a - b >= 1000 || b - a >= 1000
}

/// Whether no sample of one queue matches one of the other.
pub open spec fn none_match(
    sys: Seq<TimestampedSample>,
    mic: Seq<TimestampedSample>,
    max: int,
) -> bool {
    forall|i: int, j: int|
        #![trigger sys[i], mic[j]]
        0 <= i < sys.len() && 0 <= j < mic.len() ==> are_apart(sys[i].1, mic[j].1, max)
}

/// Where no two samples match, the two oldest are put out, and they are the ones
/// that leave the queues.
pub proof fn unmatched_go_out_oldest_first(
    before: AudioMixer,
    stats: MixerStats,
    after: AudioMixer,
    counts: MixerStats,
    r: Option<Result<MixerOutput, HResult>>,
)
    requires
        before.puts_out(stats, after, counts, r),
        before.system_audio_queue@.len() > 0,
        before.microphone_queue@.len() > 0,
        none_match(
            before.system_audio_queue@,
            before.microphone_queue@,
            before.max_time_diff_ns as int,
        ),
    ensures
        r is Some,
        is_output(
            *before.system_audio_queue@[0].0,
            *before.microphone_queue@[0].0,
            r->Some_0,
        ),
        after.system_audio_queue@ == before.system_audio_queue@.drop_first(),
        after.microphone_queue@ == before.microphone_queue@.drop_first(),
        counts.no_match_count == (stats.no_match_count + 1) as usize,
        counts.good_match_count == stats.good_match_count,
{
    let sys = before.system_audio_queue@;
    let mic = before.microphone_queue@;
    match closest(sys, mic) {
        Some(pair) => {
            assert(is_closest(sys, mic, pair.0, pair.1));
            assert(are_apart(
                sys[pair.0].1,
                mic[pair.1].1,
                before.max_time_diff_ns as int,
            ));
        },
        None => {},
    }
    assert(sys.remove(0) =~= sys.drop_first());
    assert(mic.remove(0) =~= mic.drop_first());
}

/// While no two samples match, the samples of either source are put out in the
/// order in which they came in.
pub proof fn unmatched_keep_their_order(
    first: AudioMixer,
    first_stats: MixerStats,
    second: AudioMixer,
    second_stats: MixerStats,
    third: AudioMixer,
    third_stats: MixerStats,
    r: Option<Result<MixerOutput, HResult>>,
    s: Option<Result<MixerOutput, HResult>>,
)
    requires
        first.puts_out(first_stats, second, second_stats, r),
        second.puts_out(second_stats, third, third_stats, s),
        first.system_audio_queue@.len() > 1,
        first.microphone_queue@.len() > 1,
        none_match(
            first.system_audio_queue@,
            first.microphone_queue@,
            first.max_time_diff_ns as int,
        ),
    ensures
        r is Some,
        s is Some,
        is_output(*first.system_audio_queue@[0].0, *first.microphone_queue@[0].0, r->Some_0),
        is_output(*first.system_audio_queue@[1].0, *first.microphone_queue@[1].0, s->Some_0),
        third.system_audio_queue@ == first.system_audio_queue@.skip(2),
        third.microphone_queue@ == first.microphone_queue@.skip(2),
{
    unmatched_go_out_oldest_first(first, first_stats, second, second_stats, r);
    let sys = second.system_audio_queue@;
    let mic = second.microphone_queue@;
    assert forall|i: int, j: int|
        #![trigger sys[i], mic[j]]
        0 <= i < sys.len() && 0 <= j < mic.len() implies are_apart(
        sys[i].1,
        mic[j].1,
        second.max_time_diff_ns as int,
    ) by {
        assert(sys[i] == first.system_audio_queue@[i + 1]);
        assert(mic[j] == first.microphone_queue@[j + 1]);
    }
    unmatched_go_out_oldest_first(second, second_stats, third, third_stats, s);
    assert(third.system_audio_queue@ =~= first.system_audio_queue@.skip(2));
    assert(third.microphone_queue@ =~= first.microphone_queue@.skip(2));
}

/// What the pairs before `(i, j)` hold: the closest pair, or the best one so far.
proof fn search_region(
    sys: Seq<TimestampedSample>,
    mic: Seq<TimestampedSample>,
    i: int,
    j: int,
) -> (best: Option<(int, int)>)
    requires
        0 <= i <= sys.len(),
        0 <= j <= mic.len(),
        j > 0 ==> i < sys.len(),
    ensures
        (exists|a: int, b: int| is_closest(sys, mic, a, b)) || match best {
            None => forall|k: int, l: int|
                #![trigger pair_diff(sys, mic, k, l)]
                is_pair(sys, mic, k, l) && comes_before(k, l, i, j) ==> pair_diff(sys, mic, k, l)
                    >= i64::MAX,
            Some(p) => {
                let diff = pair_diff(sys, mic, p.0, p.1);
                &&& is_pair(sys, mic, p.0, p.1)
                &&& comes_before(p.0, p.1, i, j)
                &&& CLOSE_DIFF <= diff < i64::MAX
                &&& forall|k: int, l: int|
                    #![trigger pair_diff(sys, mic, k, l)]
                    is_pair(sys, mic, k, l) && comes_before(k, l, i, j) ==> pair_diff(
                        sys,
                        mic,
                        k,
                        l,
                    ) >= diff
                &&& forall|k: int, l: int|
                    #![trigger pair_diff(sys, mic, k, l)]
                    is_pair(sys, mic, k, l) && comes_before(k, l, p.0, p.1) ==> pair_diff(
                        sys,
                        mic,
                        k,
                        l,
                    ) > diff
            },
        },
    decreases i, j,
{
    if j > 0 {
        let before = search_region(sys, mic, i, j - 1);
        let diff = pair_diff(sys, mic, i, j - 1);
        if exists|a: int, b: int| is_closest(sys, mic, a, b) {
            before
        } else if diff < CLOSE_DIFF {
            assert(is_closest(sys, mic, i, j - 1));
            None
        } else {
            match before {
                Some(p) => if diff < pair_diff(sys, mic, p.0, p.1) {
                    Some((i, j - 1))
                } else {
                    Some(p)
                },
                None => if diff < i64::MAX {
                    Some((i, j - 1))
                } else {
                    None
                },
            }
        }
    } else if i > 0 {
        if mic.len() > 0 {
            search_region(sys, mic, i - 1, mic.len() as int)
        } else {
            None
        }
    } else {
        None
    }
}

/// Where two samples are not too far apart to tell, there is a closest pair.
proof fn some_pair_is_closest(
    sys: Seq<TimestampedSample>,
    mic: Seq<TimestampedSample>,
    k: int,
    l: int,
)
    requires
        is_pair(sys, mic, k, l),
        pair_diff(sys, mic, k, l) < i64::MAX,
    ensures
        closest(sys, mic) is Some,
{
    let best = search_region(sys, mic, sys.len() as int, 0);
    if !(exists|a: int, b: int| is_closest(sys, mic, a, b)) {
        assert(comes_before(k, l, sys.len() as int, 0));
        match best {
            Some(p) => {
                assert(is_closest(sys, mic, p.0, p.1));
            },
            None => {
                assert(pair_diff(sys, mic, k, l) >= i64::MAX);
            },
        }
    }
}

/// Where two samples match, the pair that is put out matches, leaves the queues,
/// and no pair is closer, unless it is less than 0.1 ms apart itself.
pub proof fn matching_samples_go_out_together(
    before: AudioMixer,
    stats: MixerStats,
    after: AudioMixer,
    counts: MixerStats,
    r: Option<Result<MixerOutput, HResult>>,
    k: int,
    l: int,
)
    requires
        before.puts_out(stats, after, counts, r),
        0 <= k < before.system_audio_queue@.len(),
        0 <= l < before.microphone_queue@.len(),
        !are_apart(
            before.system_audio_queue@[k].1,
            before.microphone_queue@[l].1,
            before.max_time_diff_ns as int,
        ),
        before.max_time_diff_ns < i64::MAX,
    ensures
        r is Some,
        exists|i: int, j: int|
            {
                let a = #[trigger] before.system_audio_queue@[i];
                let b = #[trigger] before.microphone_queue@[j];
                let c = before.system_audio_queue@[k];
                let d = before.microphone_queue@[l];
                &&& 0 <= i < before.system_audio_queue@.len()
                &&& 0 <= j < before.microphone_queue@.len()
                &&& !are_apart(a.1, b.1, before.max_time_diff_ns as int)
                &&& (-1000 < a.1 - b.1 < 1000) || {
                    &&& a.1 - b.1 <= c.1 - d.1 || a.1 - b.1 <= d.1 - c.1
                    &&& b.1 - a.1 <= c.1 - d.1 || b.1 - a.1 <= d.1 - c.1
                }
                &&& is_output(*a.0, *b.0, r->Some_0)
                &&& after.system_audio_queue@ == before.system_audio_queue@.remove(i)
                &&& after.microphone_queue@ == before.microphone_queue@.remove(j)
            },
        counts.good_match_count == (stats.good_match_count + 1) as usize,
        counts.no_match_count == stats.no_match_count,
{
    let sys = before.system_audio_queue@;
    let mic = before.microphone_queue@;
    let max = before.max_time_diff_ns as int;
    assert(pair_diff(sys, mic, k, l) < CLOSE_DIFF || pair_diff(sys, mic, k, l) <= max);
    some_pair_is_closest(sys, mic, k, l);
    let pair = closest(sys, mic)->Some_0;
    assert(is_closest(sys, mic, pair.0, pair.1));
    assert(pair_diff(sys, mic, pair.0, pair.1) < CLOSE_DIFF || pair_diff(sys, mic, pair.0, pair.1)
        <= pair_diff(sys, mic, k, l));
    let (i, j, matching) = next_pair(sys, mic, max);
    assert(matching);
    assert(is_output(*sys[i].0, *mic[j].0, r->Some_0));
}

/// Two samples that can be read come out as one that has the time and the
/// duration of the system audio, is as long as it, and sounds as both.
pub proof fn both_sources_are_heard(
    sys: MediaSample,
    mic: MediaSample,
    sys_bytes: Seq<u8>,
    mic_bytes: Seq<u8>,
    r: Result<MixerOutput, HResult>,
)
    requires
        is_output(sys, mic, r),
        sys.time is Ok,
        sys.duration is Ok,
        mic.time is Ok,
        mic.duration is Ok,
        sys.buffer matches Ok(buffer) && (buffer.contents matches Ok(bytes) && bytes@ == sys_bytes),
        mic.buffer matches Ok(buffer) && (buffer.contents matches Ok(bytes) && bytes@ == mic_bytes),
    ensures
        r matches Ok(MixerOutput::Mixed(m)) && {
            &&& sys.time == Ok::<i64, HResult>(m.time)
            &&& sys.duration == Ok::<i64, HResult>(m.duration)
            &&& m.data@.len() == sys_bytes.len()
            &&& forall|i: int|
                #![trigger sound_at(m.data@, i)]
                0 <= i < sys_bytes.len() as int / 2 && i < mic_bytes.len() as int / 2 ==> -1
                    <= sound_at(sys_bytes, i) + sound_at(mic_bytes, i) - 2 * sound_at(m.data@, i)
                    <= 1
            &&& forall|i: int|
                #![trigger sound_at(m.data@, i)]
                mic_bytes.len() as int / 2 <= i < sys_bytes.len() as int / 2 ==> -5 < 4
                    * sound_at(sys_bytes, i) - 5 * sound_at(m.data@, i) < 5
        },
{
    match r {
        Ok(MixerOutput::Mixed(m)) => {
            a_mix_is_heard_as_both(
                sys_bytes,
                mic_bytes,
                Seq::new(sys_bytes.len(), |i: int| 0u8),
                m.data@,
            );
        },
        _ => {},
    }
}

/// A sample that is alone goes out as it is, the oldest first, where the sources
/// do not wait for each other. Where they do, it stays.
pub proof fn lone_samples_wait_or_go_out(
    before: AudioMixer,
    stats: MixerStats,
    after: AudioMixer,
    counts: MixerStats,
    r: Option<Result<MixerOutput, HResult>>,
)
    requires
        before.puts_out(stats, after, counts, r),
        before.system_audio_queue@.len() == 0 || before.microphone_queue@.len() == 0,
    ensures
        before.both_sources_active || before.system_audio_queue@.len()
            + before.microphone_queue@.len() == 0 ==> {
            &&& r is None
            &&& after.system_audio_queue@ == before.system_audio_queue@
            &&& after.microphone_queue@ == before.microphone_queue@
            &&& counts == stats
        },
        !before.both_sources_active && before.system_audio_queue@.len() > 0 ==> {
            &&& r matches Some(Ok(MixerOutput::PassedThrough(sample))) && sample
                == before.system_audio_queue@[0].0
            &&& after.system_audio_queue@ == before.system_audio_queue@.skip(1)
            &&& after.microphone_queue@ == before.microphone_queue@
            &&& counts.sys_only_count == (stats.sys_only_count + 1) as usize
        },
        !before.both_sources_active && before.microphone_queue@.len() > 0 ==> {
            &&& r matches Some(Ok(MixerOutput::PassedThrough(sample))) && sample
                == before.microphone_queue@[0].0
            &&& after.microphone_queue@ == before.microphone_queue@.skip(1)
            &&& after.system_audio_queue@ == before.system_audio_queue@
            &&& counts.mic_only_count == (stats.mic_only_count + 1) as usize
        },
{
    if before.system_audio_queue@.len() > 0 {
        assert(before.system_audio_queue@.drop_first() =~= before.system_audio_queue@.skip(1));
    }
    if before.microphone_queue@.len() > 0 {
        assert(before.microphone_queue@.drop_first() =~= before.microphone_queue@.skip(1));
    }
}

/// Of the samples of a queue the newest stay, in their order, and as many of
/// them as there is room for.
pub proof fn newest_are_kept<T>(s: Seq<T>, room: nat)
    ensures
        s.len() <= room ==> last_items(s, room) == s,
        s.len() > room ==> last_items(s, room).len() == room,
        forall|i: int|
            0 <= i < last_items(s, room).len() ==> #[trigger] last_items(s, room)[i] == s[s.len()
                - last_items(s, room).len() + i],
{
}

/// A sample goes by its own time stamp, and by zero where it has none.
pub proof fn samples_go_by_their_time(sample: MediaSample)
    ensures
        sample.time matches Ok(time) ==> timestamp_of(sample) == time,
        sample.time is Err ==> timestamp_of(sample) == 0,
{
}

/// Whatever is put out is counted once, and its duration is added to the total.
/// A pair adds nothing where it cannot be read.
pub proof fn what_goes_out_is_counted(
    before: AudioMixer,
    stats: MixerStats,
    after: AudioMixer,
    counts: MixerStats,
    r: Option<Result<MixerOutput, HResult>>,
)
    requires
        before.puts_out(stats, after, counts, r),
        stats.call_count < u32::MAX,
        i64::MIN / 2 <= stats.total_processed_duration <= i64::MAX / 2,
    ensures
        r is None ==> counts == stats,
        r is Some ==> counts.call_count == stats.call_count + 1,
        match r {
            None => true,
            Some(Err(_)) => counts.total_processed_duration == stats.total_processed_duration,
            Some(Ok(MixerOutput::Mixed(m))) => i64::MIN / 2 <= m.duration <= i64::MAX / 2
                ==> counts.total_processed_duration == stats.total_processed_duration + m.duration,
            Some(Ok(MixerOutput::PassedThrough(sample))) => match (sample.time, sample.duration) {
                (Ok(_), Ok(d)) => i64::MIN / 2 <= d <= i64::MAX / 2
                    ==> counts.total_processed_duration == stats.total_processed_duration + d,
                _ => true,
            },
        },
        counts.system_total_duration == stats.system_total_duration,
        counts.mic_total_duration == stats.mic_total_duration,
{
}

/// Two samples fail to be mixed where something of either cannot be read, and only
/// there.
pub proof fn unreadable_samples_fail(
    sys: MediaSample,
    mic: MediaSample,
    r: Result<MixerOutput, HResult>,
)
    requires
        is_output(sys, mic, r),
    ensures
        r is Ok <==> sys.time is Ok && sys.duration is Ok && mic.time is Ok && mic.duration is Ok
            && (sys.buffer matches Ok(buffer) && buffer.contents is Ok) && (
        mic.buffer matches Ok(buffer) && buffer.contents is Ok),
        sys.time matches Err(code) ==> r == Err::<MixerOutput, HResult>(code),
        sys.time is Ok ==> (sys.duration matches Err(code) ==> r == Err::<MixerOutput, HResult>(
            code,
        )),
        sys.time is Ok && sys.duration is Ok ==> (mic.time matches Err(code) ==> r == Err::<
            MixerOutput,
            HResult,
        >(code)),
{
}

} // verus!
