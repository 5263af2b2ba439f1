//! Saving the replay buffer to a file.
use crate::error::RecorderError;
use crate::processing::media::{AUDIO_STREAM_INDEX, VIDEO_STREAM_INDEX};
use crate::types::replay_buffer::{
    in_order, oldest_is_a_lower_bound, oldest_of, open_request_hands_out_everything, pick,
    request_covers_its_range, request_stays_in_its_range, Stamped,
};
use crate::types::{ReplayBuffer, SendableSample};
use vstd::prelude::*;

verus! {

/// A sample that is to be written to a file.
#[derive(Debug)]
pub struct ReplayWrite {
    /// The stream of the file.
    pub stream: u32,
    /// The sample.
    pub sample: SendableSample,
    /// The time stamp in the file, in units of 100 nanoseconds.
    pub time: i64,
}

/// What is to be written to the file.
#[derive(Debug)]
pub struct ReplayPlan {
    /// The video samples.
    pub video: Vec<ReplayWrite>,
    /// The audio samples.
    pub audio: Vec<ReplayWrite>,
}

impl ReplayPlan {
    /// The samples in the order in which they are written: the video first,
    /// then the audio.
    pub fn into_writes(self) -> (r: Vec<ReplayWrite>)
        ensures
            r@ == self.video@ + self.audio@,
    {
        let mut writes = self.video;
        let mut audio = self.audio;
        writes.append(&mut audio);
        writes
    }
}

/// The samples that a buffer hands out for a replay.
pub open spec fn replayed(samples: Seq<Stamped>, oldest: i64) -> Seq<Stamped> {
    samples.filter_map(pick(oldest, i64::MAX))
}

/// Whether these samples are written to a stream, one by one, at their times
/// since `start`.
pub open spec fn are_written(
    writes: Seq<ReplayWrite>,
    samples: Seq<Stamped>,
    stream: int,
    start: int,
) -> bool {
    &&& writes.len() == samples.len()
    &&& forall|i: int|
        #![trigger writes[i]]
        0 <= i < writes.len() ==> {
            &&& writes[i].stream == stream
            &&& writes[i].sample == samples[i].0
            &&& writes[i].time == samples[i].1 - start
        }
}

/// Whether the times since `start` of all samples can be told.
pub open spec fn times_fit(samples: Seq<Stamped>, start: int) -> bool {
    forall|i: int|
        0 <= i < samples.len() ==> i64::MIN <= (#[trigger] samples[i]).1 - start <= i64::MAX
}

/// The time at which a replay starts: that of its first video sample.
pub open spec fn replay_start(video: Seq<Stamped>) -> int {
    video[0].1 as int
}

/// Whether the buffer can be saved without a time getting out of range. The
/// times of the samples matter only where the buffer holds a second at least.
pub open spec fn can_be_saved(buffer: ReplayBuffer) -> bool {
    let video = replayed(buffer.video(), buffer.oldest_timestamp);
    let audio = replayed(buffer.audio(), buffer.oldest_timestamp);
    &&& buffer.video().len() > 0 || buffer.audio().len() > 0 ==> buffer.duration_fits()
    &&& buffer.held_nanos() >= 1_000_000_000 && video.len() > 0 ==> {
        &&& times_fit(video, replay_start(video))
        &&& times_fit(audio, replay_start(video))
    }
}

/// Computes `times_fit`.
fn have_times(samples: &Vec<Stamped>, start: i64) -> (r: bool)
    ensures
        r == times_fit(samples@, start as int),
{
    for i in 0..samples.len()
        invariant
            forall|k: int|
                0 <= k < i ==> i64::MIN <= (#[trigger] samples@[k]).1 - start <= i64::MAX,
    {
        let time: i128 = samples[i].1 as i128 - start as i128;
        if time < i64::MIN as i128 || time > i64::MAX as i128 {
            return false;
        }
    }
    true
}

/// Computes `can_be_saved`.
pub fn is_savable(buffer: &ReplayBuffer) -> (r: bool)
    ensures
        r == can_be_saved(*buffer),
{
    if !buffer.has_duration() {
        return false;
    }
    if buffer.current_duration().as_secs() == 0 {
        return true;
    }
    let video = buffer.get_video_samples(buffer.oldest_timestamp, i64::MAX);
    let audio = buffer.get_audio_samples(buffer.oldest_timestamp, i64::MAX);
    video.len() == 0 || (have_times(&video, video[0].1) && have_times(&audio, video[0].1))
}

/// Lists the samples that are to be written to a stream.
fn list_writes(samples: &Vec<Stamped>, stream: u32, start: i64) -> (r: Vec<ReplayWrite>)
    requires
        times_fit(samples@, start as int),
        forall|i: int| 0 <= i < samples@.len() ==> (#[trigger] samples@[i]).0.pool is None,
    ensures
        are_written(r@, samples@, stream as int, start as int),
{
    let mut writes: Vec<ReplayWrite> = Vec::new();
    for i in 0..samples.len()
        invariant
            times_fit(samples@, start as int),
            forall|i: int| 0 <= i < samples@.len() ==> (#[trigger] samples@[i]).0.pool is None,
            are_written(writes@, samples@.take(i as int), stream as int, start as int),
    {
        let sample = samples[i].0.share();
        assert(sample == samples@[i as int].0);
        let time: i64 = samples[i].1 - start;
        writes.push(ReplayWrite { stream, sample, time });
        assert(forall|k: int|
            0 <= k < i ==> samples@.take(i + 1)[k] == #[trigger] samples@.take(i as int)[k]);
    }
    assert(samples@.take(samples@.len() as int) =~= samples@);
    writes
}

/// What a replay hands out belongs to no pool.
proof fn replayed_is_unpooled(samples: Seq<Stamped>, oldest: i64)
    ensures
        forall|i: int|
            0 <= i < replayed(samples, oldest).len() ==> (#[trigger] replayed(
                samples,
                oldest,
            )[i]).0.pool is None,
{
    let f = pick(oldest, i64::MAX);
    let all = replayed(samples, oldest);
    assert forall|i: int| 0 <= i < all.len() implies (#[trigger] all[i]).0.pool is None by {
        assert(all.contains(all[i]));
        samples.lemma_filter_map_contains(f, all[i]);
    }
}

/// What is to be written to a file to save the replay buffer.
///
/// There must be a buffer, it must hold a second at least, and there must be a
/// video sample in it. Times start with the first video sample. The video goes
/// to the first stream of the file, and the audio to the second.
pub fn save_replay(buffer: Option<&ReplayBuffer>) -> (r: Result<ReplayPlan, RecorderError>)
    requires
        buffer matches Some(b) ==> can_be_saved(*b),
    ensures
        match buffer {
            None => r matches Err(RecorderError::Generic(reason)) && reason@
                == "Replay buffer is not enabled"@,
            Some(b) => {
                let video = replayed(b.video(), b.oldest_timestamp);
                let audio = replayed(b.audio(), b.oldest_timestamp);
                if b.held_nanos() < 1_000_000_000 {
                    r matches Err(RecorderError::Generic(reason)) && reason@
                        == "Replay buffer is empty"@
                } else if video.len() == 0 {
                    r matches Err(RecorderError::Generic(reason)) && reason@
                        == "No video frames in replay buffer"@
                } else {
                    r matches Ok(plan) && {
                        &&& are_written(plan.video@, video, 0, replay_start(video))
                        &&& are_written(plan.audio@, audio, 1, replay_start(video))
                    }
                }
            },
        },
{
    let buffer = match buffer {
        Some(buffer) => buffer,
        None => {
            return Err(RecorderError::Generic("Replay buffer is not enabled".to_owned()));
        },
    };
    let duration = buffer.current_duration();
    if duration.as_secs() == 0 {
        return Err(RecorderError::Generic("Replay buffer is empty".to_owned()));
    }
    let oldest: i64 = buffer.oldest_timestamp;
    let video = buffer.get_video_samples(oldest, i64::MAX);
    let audio = buffer.get_audio_samples(oldest, i64::MAX);
    if video.len() == 0 {
        return Err(RecorderError::Generic("No video frames in replay buffer".to_owned()));
    }
    proof {
        replayed_is_unpooled(buffer.video(), oldest);
        replayed_is_unpooled(buffer.audio(), oldest);
    }
    let start: i64 = video[0].1;
    let video_writes = list_writes(&video, VIDEO_STREAM_INDEX, start);
    let audio_writes = list_writes(&audio, AUDIO_STREAM_INDEX, start);
    Ok(ReplayPlan { video: video_writes, audio: audio_writes })
}

/// The samples of a queue as a replay hands them out.
pub open spec fn shared(samples: Seq<Stamped>) -> Seq<Stamped> {
    samples.map_values(|entry: Stamped| (entry.0.unpooled(), entry.1))
}

/// A replay has every sample of a buffer whose samples came in order, and its
/// first video sample has the time zero.
pub proof fn replay_has_everything(buffer: ReplayBuffer, otherwise: i64)
    requires
        in_order(buffer.video()),
        in_order(buffer.audio()),
        buffer.video().len() > 0,
        buffer.oldest_timestamp == oldest_of(buffer.video(), buffer.audio(), otherwise),
    ensures
        replayed(buffer.video(), buffer.oldest_timestamp) == shared(buffer.video()),
        replayed(buffer.audio(), buffer.oldest_timestamp) == shared(buffer.audio()),
        replay_start(replayed(buffer.video(), buffer.oldest_timestamp)) == buffer.video()[0].1,
        in_order(replayed(buffer.video(), buffer.oldest_timestamp)),
{
    oldest_is_a_lower_bound(buffer.video(), buffer.audio(), otherwise);
    open_request_hands_out_everything(buffer.video(), buffer.oldest_timestamp);
    open_request_hands_out_everything(buffer.audio(), buffer.oldest_timestamp);
    assert forall|i: int, j: int| 0 <= i <= j < shared(buffer.video()).len() implies shared(
        buffer.video(),
    )[i].1 <= shared(buffer.video())[j].1 by {
        assert(buffer.video()[i].1 <= buffer.video()[j].1);
    }
}

/// Every sample of a clip is written to its stream, in its order, at the time that
/// it comes after the first picture, so that the first picture is at zero.
pub proof fn clip_starts_at_its_first_picture(
    writes: Seq<ReplayWrite>,
    samples: Seq<Stamped>,
    stream: int,
    video: Seq<Stamped>,
    i: int,
)
    requires
        are_written(writes, samples, stream, replay_start(video)),
        video.len() > 0,
        0 <= i < samples.len(),
    ensures
        writes.len() == samples.len(),
        writes[i].stream == stream,
        writes[i].sample == samples[i].0,
        writes[i].time == samples[i].1 - video[0].1,
        samples == video && i == 0 ==> writes[i].time == 0,
{
}

/// A clip has every sample of a queue from the oldest time of the buffer on, and
/// no other.
pub proof fn clip_has_what_the_buffer_holds(samples: Seq<Stamped>, oldest: i64, k: int)
    requires
        0 <= k < samples.len(),
    ensures
        samples[k].1 >= oldest ==> exists|handed: Stamped|
            {
                &&& #[trigger] replayed(samples, oldest).contains(handed)
                &&& handed.1 == samples[k].1
                &&& handed.0.sample == samples[k].0.sample
            },
        forall|handed: Stamped| #[trigger]
            replayed(samples, oldest).contains(handed) ==> handed.1 >= oldest && exists|i: int|
                0 <= i < samples.len() && (#[trigger] samples[i]).1 == handed.1
                    && samples[i].0.sample == handed.0.sample,
{
    if samples[k].1 >= oldest {
        request_covers_its_range(samples, oldest, i64::MAX, k);
        assert(replayed(samples, oldest) == samples.filter_map(pick(oldest, i64::MAX)));
        let handed = choose|handed: Stamped|
            {
                &&& #[trigger] samples.filter_map(pick(oldest, i64::MAX)).contains(handed)
                &&& handed.1 == samples[k].1
                &&& handed.0.sample == samples[k].0.sample
            };
        assert(replayed(samples, oldest).contains(handed));
    }
    assert forall|handed: Stamped| #[trigger]
        replayed(samples, oldest).contains(handed) implies handed.1 >= oldest && exists|i: int|
        0 <= i < samples.len() && (#[trigger] samples[i]).1 == handed.1 && samples[i].0.sample
            == handed.0.sample by {
        request_stays_in_its_range(samples, oldest, i64::MAX, handed);
    }
}

} // verus!
