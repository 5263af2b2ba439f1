//! The most recent samples of a recording.
use crate::error::WindowsError;
use crate::types::{
    duration_to_hns, hns_to_duration, picked_is_among_all, trunc_div, Duration, SendableSample,
};
use std::collections::VecDeque;
use vstd::prelude::*;

verus! {

/// A sample with its time stamp.
pub type Stamped = (SendableSample, i64);

/// The samples from the first one on whose time stamp is `cutoff` or later.
pub open spec fn drop_stale(samples: Seq<Stamped>, cutoff: int) -> Seq<Stamped>
    decreases samples.len(),
{
    if samples.len() > 0 && samples[0].1 < cutoff {
        drop_stale(samples.drop_first(), cutoff)
    } else {
        samples
    }
}

/// The time stamp of the oldest sample of two queues, each of which has its
/// oldest sample in front, and `otherwise` where both are empty.
pub open spec fn oldest_of(video: Seq<Stamped>, audio: Seq<Stamped>, otherwise: i64) -> i64 {
    if video.len() > 0 && audio.len() > 0 {
        if video[0].1 <= audio[0].1 {
            video[0].1
        } else {
            audio[0].1
        }
    } else if video.len() > 0 {
        video[0].1
    } else if audio.len() > 0 {
        audio[0].1
    } else {
        otherwise
    }
}

/// The time stamp of the latest sample of two queues, each of which has its
/// latest sample at the back. Where there is no video sample, it is not below
/// zero.
pub open spec fn latest_of(video: Seq<Stamped>, audio: Seq<Stamped>) -> i64 {
    let from_video = if video.len() > 0 {
        video.last().1
    } else {
        0
    };
    if audio.len() > 0 && audio.last().1 > from_video {
        audio.last().1
    } else {
        from_video
    }
}

/// What a request for a range of time hands out of a queue, sample by sample.
pub open spec fn pick(start_time: i64, end_time: i64) -> spec_fn(Stamped) -> Option<Stamped> {
    |entry: Stamped|
        if start_time <= entry.1 <= end_time {
            Some((entry.0.unpooled(), entry.1))
        } else {
            None
        }
}

/// Whether time stamps never go back from one sample to the next.
pub open spec fn in_order(samples: Seq<Stamped>) -> bool {
    forall|i: int, j: int| 0 <= i <= j < samples.len() ==> samples[i].1 <= samples[j].1
}

/// The samples of the last stretch of a recording, video and audio apart.
pub struct ReplayBuffer {
    /// How far back the buffer reaches.
    pub max_duration: Duration,
    /// The video samples, the oldest first.
    pub video_samples: VecDeque<Stamped>,
    /// The audio samples, the oldest first.
    pub audio_samples: VecDeque<Stamped>,
    /// The approximate number of bytes in memory.
    pub size_bytes: usize,
    /// The time stamp of the oldest sample in the buffer.
    pub oldest_timestamp: i64,
    /// The number of video samples that room was made for.
    pub video_limit: usize,
    /// The number of audio samples that room was made for.
    pub audio_limit: usize,
}

impl ReplayBuffer {
    /// How far back the buffer reaches.
    pub open spec fn reach(self) -> Duration {
        self.max_duration
    }

    /// The video samples, the oldest first.
    pub open spec fn video(self) -> Seq<Stamped> {
        self.video_samples@
    }

    /// The audio samples, the oldest first.
    pub open spec fn audio(self) -> Seq<Stamped> {
        self.audio_samples@
    }

    /// The approximate number of bytes in memory.
    pub open spec fn bytes(self) -> usize {
        self.size_bytes
    }

    /// The numbers of video and of audio samples that room was made for.
    pub open spec fn limits(self) -> (usize, usize) {
        (self.video_limit, self.audio_limit)
    }

    /// The earliest time stamp that is kept when `latest` has come in.
    pub open spec fn cutoff(self, latest: i64) -> int {
        latest - trunc_div((self.reach().nanos as i64) as int, 100)
    }

    /// An empty buffer that reaches back by `max_duration`.
    pub fn new(
        max_duration: Duration,
        initial_video_limit: usize,
        initial_audio_limit: usize,
    ) -> (r: Self)
        ensures
            r.reach() == max_duration,
            r.video() == Seq::<Stamped>::empty(),
            r.audio() == Seq::<Stamped>::empty(),
            r.bytes() == 0,
            r.oldest_timestamp == 0,
            r.limits() == (initial_video_limit, initial_audio_limit),
    {
        ReplayBuffer {
            max_duration,
            video_samples: VecDeque::with_capacity(initial_video_limit),
            audio_samples: VecDeque::with_capacity(initial_audio_limit),
            size_bytes: 0,
            oldest_timestamp: 0,
            video_limit: initial_video_limit,
            audio_limit: initial_audio_limit,
        }
    }

    /// Whether `after` is the buffer once a video sample has come in.
    pub open spec fn adds_video(self, newest: Stamped, after: ReplayBuffer) -> bool {
        &&& after.video() == drop_stale(self.video().push(newest), self.cutoff(newest.1))
        &&& after.audio() == self.audio()
        &&& after.oldest_timestamp == oldest_of(after.video(), after.audio(), newest.1)
        &&& after.reach() == self.reach()
        &&& after.bytes() == self.bytes()
        &&& after.limits() == self.limits()
    }

    /// Whether `after` is the buffer once an audio sample has come in.
    pub open spec fn adds_audio(self, newest: Stamped, after: ReplayBuffer) -> bool {
        &&& after.audio() == drop_stale(self.audio().push(newest), self.cutoff(newest.1))
        &&& after.video() == self.video()
        &&& after.oldest_timestamp == oldest_of(after.video(), after.audio(), newest.1)
        &&& after.reach() == self.reach()
        &&& after.bytes() == self.bytes()
        &&& after.limits() == self.limits()
    }

    /// Puts a video sample at the back, and drops the video samples in front
    /// that are out of reach.
    pub fn add_video_sample(&mut self, sample: SendableSample, timestamp: i64) -> (r: Result<
        (),
        WindowsError,
    >)
        ensures
            r is Ok,
            old(self).adds_video((sample, timestamp), *final(self)),
    {
        let cutoff: i128 = timestamp as i128 - duration_to_hns(self.max_duration) as i128;
        self.video_samples.push_back((sample, timestamp));
        trim_buffer(&mut self.video_samples, cutoff);
        self.update_oldest(timestamp);
        Ok(())
    }

    /// Puts an audio sample at the back, and drops the audio samples in front
    /// that are out of reach.
    pub fn add_audio_sample(&mut self, sample: SendableSample, timestamp: i64) -> (r: Result<
        (),
        WindowsError,
    >)
        ensures
            r is Ok,
            old(self).adds_audio((sample, timestamp), *final(self)),
    {
        let cutoff: i128 = timestamp as i128 - duration_to_hns(self.max_duration) as i128;
        self.audio_samples.push_back((sample, timestamp));
        trim_buffer(&mut self.audio_samples, cutoff);
        self.update_oldest(timestamp);
        Ok(())
    }

    /// Sets the time stamp of the oldest sample.
    fn update_oldest(&mut self, latest_timestamp: i64)
        ensures
            final(self).oldest_timestamp == oldest_of(
                old(self).video(),
                old(self).audio(),
                latest_timestamp,
            ),
            final(self).video() == old(self).video(),
            final(self).audio() == old(self).audio(),
            final(self).reach() == old(self).reach(),
            final(self).bytes() == old(self).bytes(),
            final(self).limits() == old(self).limits(),
    {
        let video_len: usize = self.video_samples.len();
        let audio_len: usize = self.audio_samples.len();
        let mut oldest: i64 = latest_timestamp;
        if video_len > 0 {
            oldest = self.video_samples[0].1;
            if audio_len > 0 && self.audio_samples[0].1 < oldest {
                oldest = self.audio_samples[0].1;
            }
        } else if audio_len > 0 {
            oldest = self.audio_samples[0].1;
        }
        self.oldest_timestamp = oldest;
    }

    /// The video samples within a range of time, its ends included. They
    /// belong to no pool.
    pub fn get_video_samples(&self, start_time: i64, end_time: i64) -> (r: Vec<Stamped>)
        ensures
            r@ == self.video().filter_map(pick(start_time, end_time)),
    {
        samples_in_range(&self.video_samples, start_time, end_time)
    }

    /// The audio samples within a range of time, its ends included. They
    /// belong to no pool.
    pub fn get_audio_samples(&self, start_time: i64, end_time: i64) -> (r: Vec<Stamped>)
        ensures
            r@ == self.audio().filter_map(pick(start_time, end_time)),
    {
        samples_in_range(&self.audio_samples, start_time, end_time)
    }

    /// Whether the stretch that the buffer holds can be told in nanoseconds.
    pub open spec fn duration_fits(self) -> bool {
        let hns = latest_of(self.video(), self.audio()) - self.oldest_timestamp;
        i64::MIN <= hns * 100 <= i64::MAX
    }

    /// The stretch from the oldest sample to the latest one.
    ///
    /// A stretch that runs backwards becomes the unsigned number of
    /// nanoseconds with the same 64 bits.
    pub open spec fn held_nanos(self) -> int {
        if self.video().len() == 0 && self.audio().len() == 0 {
            0
        } else {
            let hns = latest_of(self.video(), self.audio()) - self.oldest_timestamp;
            if hns >= 0 {
                hns * 100
            } else {
                hns * 100 + 0x1_0000_0000_0000_0000
            }
        }
    }

    /// The stretch from the oldest sample to the latest one, and no time at
    /// all where the buffer is empty.
    pub fn current_duration(&self) -> (r: Duration)
        requires
            self.video().len() > 0 || self.audio().len() > 0 ==> self.duration_fits(),
        ensures
            r@ == self.held_nanos(),
            r.wf(),
    {
        let video_len: usize = self.video_samples.len();
        let audio_len: usize = self.audio_samples.len();
        if video_len == 0 && audio_len == 0 {
            return Duration::from_secs(0);
        }
        let mut latest: i64 = 0;
        if video_len > 0 {
            latest = self.video_samples[video_len - 1].1;
        }
        if audio_len > 0 && self.audio_samples[audio_len - 1].1 > latest {
            latest = self.audio_samples[audio_len - 1].1;
        }
        hns_to_duration(latest - self.oldest_timestamp)
    }

    /// Whether `current_duration` can be asked for.
    pub fn has_duration(&self) -> (r: bool)
        ensures
            r == (self.video().len() > 0 || self.audio().len() > 0 ==> self.duration_fits()),
    {
        let video_len: usize = self.video_samples.len();
        let audio_len: usize = self.audio_samples.len();
        let mut latest: i64 = 0;
        if video_len > 0 {
            latest = self.video_samples[video_len - 1].1;
        }
        if audio_len > 0 && self.audio_samples[audio_len - 1].1 > latest {
            latest = self.audio_samples[audio_len - 1].1;
        }
        let nanos: i128 = (latest as i128 - self.oldest_timestamp as i128) * 100;
        (video_len == 0 && audio_len == 0) || (i64::MIN as i128 <= nanos && nanos
            <= i64::MAX as i128)
    }

    /// Drops every sample. The time stamp of the oldest sample stays what it
    /// was until the next sample comes in.
    pub fn clear(&mut self)
        ensures
            final(self).video() == Seq::<Stamped>::empty(),
            final(self).audio() == Seq::<Stamped>::empty(),
            final(self).bytes() == 0,
            final(self).oldest_timestamp == old(self).oldest_timestamp,
            final(self).reach() == old(self).reach(),
            final(self).limits() == old(self).limits(),
    {
        self.video_samples.clear();
        self.audio_samples.clear();
        self.size_bytes = 0;
    }
}

/// Drops the samples in front whose time stamp is below `cutoff`.
fn trim_buffer(samples: &mut VecDeque<Stamped>, cutoff: i128)
    ensures
        final(samples)@ == drop_stale(old(samples)@, cutoff as int),
{
    while samples.len() > 0 && (samples[0].1 as i128) < cutoff
        invariant
            drop_stale(samples@, cutoff as int) == drop_stale(old(samples)@, cutoff as int),
        decreases samples@.len(),
    {
        assert(samples@.subrange(1, samples@.len() as int) =~= samples@.drop_first());
        let _ = samples.pop_front();
    }
}

/// The samples of a queue within a range of time.
fn samples_in_range(samples: &VecDeque<Stamped>, start_time: i64, end_time: i64) -> (r: Vec<
    Stamped,
>)
    ensures
        r@ == samples@.filter_map(pick(start_time, end_time)),
{
    let mut found: Vec<Stamped> = Vec::new();
    let n: usize = samples.len();
    let ghost f = pick(start_time, end_time);
    assert(samples@.take(0).filter_map(f) =~= Seq::<Stamped>::empty());
    for i in 0..n
        invariant
            n == samples@.len(),
            f == pick(start_time, end_time),
            found@ == samples@.take(i as int).filter_map(f),
    {
        let entry = &samples[i];
        proof {
            samples@.lemma_filter_map_take_succ(f, i as int);
        }
        if start_time <= entry.1 && entry.1 <= end_time {
            found.push((entry.0.share(), entry.1));
        }
    }
    assert(samples@.take(n as int) =~= samples@);
    found
}

/// Dropping stale samples cuts a queue in two: what goes is stale, and what
/// stays starts with a sample that is not.
pub proof fn drop_stale_is_a_cut(samples: Seq<Stamped>, cutoff: int)
    ensures
        drop_stale(samples, cutoff).len() <= samples.len(),
        ({
            let gone = samples.len() - drop_stale(samples, cutoff).len();
            &&& drop_stale(samples, cutoff) == samples.skip(gone)
            &&& forall|i: int| 0 <= i < gone ==> (#[trigger] samples[i]).1 < cutoff
            &&& gone < samples.len() ==> samples[gone].1 >= cutoff
        }),
    decreases samples.len(),
{
    if samples.len() > 0 && samples[0].1 < cutoff {
        let rest = samples.drop_first();
        drop_stale_is_a_cut(rest, cutoff);
        let gone = samples.len() - drop_stale(samples, cutoff).len();
        assert(drop_stale(samples, cutoff) =~= samples.skip(gone));
        assert forall|i: int| 0 <= i < gone implies (#[trigger] samples[i]).1 < cutoff by {
            if i > 0 {
                assert(samples[i] == rest[i - 1]);
            }
        }
        if gone < samples.len() {
            assert(samples[gone] == rest[gone - 1]);
        }
    } else {
        assert(samples.skip(0) =~= samples);
    }
}

/// Of samples whose time stamps never go back, exactly those from the cutoff
/// on stay, and they stay in order.
pub proof fn drop_stale_keeps_the_recent(samples: Seq<Stamped>, cutoff: int)
    requires
        in_order(samples),
    ensures
        in_order(drop_stale(samples, cutoff)),
        forall|i: int| #![trigger samples[i]]
            0 <= i < samples.len() ==> (samples[i].1 >= cutoff <==> i >= samples.len()
                - drop_stale(samples, cutoff).len()),
        forall|i: int|
            0 <= i < drop_stale(samples, cutoff).len() ==> (#[trigger] drop_stale(
                samples,
                cutoff,
            )[i]).1 >= cutoff,
{
    drop_stale_is_a_cut(samples, cutoff);
    let kept = drop_stale(samples, cutoff);
    let gone = samples.len() - kept.len();
    assert forall|i: int, j: int| 0 <= i <= j < kept.len() implies kept[i].1 <= kept[j].1 by {
        assert(kept[i] == samples[i + gone]);
        assert(kept[j] == samples[j + gone]);
    }
    assert forall|i: int| 0 <= i < kept.len() implies (#[trigger] kept[i]).1 >= cutoff by {
        assert(kept[i] == samples[i + gone]);
        assert(samples[gone].1 <= samples[i + gone].1);
    }
    assert forall|i: int| #![trigger samples[i]]
        0 <= i < samples.len() implies (samples[i].1 >= cutoff <==> i >= gone) by {
        if i >= gone {
            assert(samples[gone].1 <= samples[i].1);
        }
    }
}

/// The sample that comes in is always kept, at the back, where the cutoff is
/// not ahead of it.
pub proof fn newest_sample_is_kept(samples: Seq<Stamped>, newest: Stamped, cutoff: int)
    requires
        cutoff <= newest.1,
    ensures
        drop_stale(samples.push(newest), cutoff).len() > 0,
        drop_stale(samples.push(newest), cutoff).last() == newest,
{
    let all = samples.push(newest);
    drop_stale_is_a_cut(all, cutoff);
    let gone = all.len() - drop_stale(all, cutoff).len();
    if gone == all.len() {
        assert(all[all.len() - 1].1 < cutoff);
    }
}

/// A queue whose time stamps never go back holds, once a sample has come in
/// that is no older than the others, exactly the samples of the stretch from
/// the cutoff to that sample.
pub proof fn buffer_holds_the_last_stretch(samples: Seq<Stamped>, newest: Stamped, cutoff: int)
    requires
        in_order(samples),
        samples.len() > 0 ==> samples.last().1 <= newest.1,
        cutoff <= newest.1,
    ensures
        ({
            let kept = drop_stale(samples.push(newest), cutoff);
            &&& in_order(kept)
            &&& forall|i: int|
                0 <= i < kept.len() ==> cutoff <= (#[trigger] kept[i]).1 <= newest.1
            &&& forall|i: int| #![trigger samples[i]]
                0 <= i < samples.len() && samples[i].1 >= cutoff ==> kept.contains(samples[i])
            &&& kept.contains(newest)
        }),
{
    let all = samples.push(newest);
    assert(in_order(all)) by {
        assert forall|i: int, j: int| 0 <= i <= j < all.len() implies all[i].1 <= all[j].1 by {
            if j == samples.len() && i < j {
                assert(samples[i].1 <= samples.last().1);
            }
        }
    }
    drop_stale_keeps_the_recent(all, cutoff);
    drop_stale_is_a_cut(all, cutoff);
    newest_sample_is_kept(samples, newest, cutoff);
    let kept = drop_stale(all, cutoff);
    let gone = all.len() - kept.len();
    assert forall|i: int| 0 <= i < kept.len() implies cutoff <= (#[trigger] kept[i]).1
        <= newest.1 by {
        assert(kept[i] == all[i + gone]);
        assert(all[i + gone].1 <= all[all.len() - 1].1);
    }
    assert forall|i: int| #![trigger samples[i]]
        0 <= i < samples.len() && samples[i].1 >= cutoff implies kept.contains(samples[i]) by {
        assert(all[i] == samples[i]);
        assert(kept[i - gone] == samples[i]);
    }
    assert(kept[kept.len() - 1] == newest);
}

/// In two queues whose time stamps never go back, no sample is older than the
/// oldest one.
pub proof fn oldest_is_a_lower_bound(video: Seq<Stamped>, audio: Seq<Stamped>, otherwise: i64)
    requires
        in_order(video),
        in_order(audio),
    ensures
        forall|i: int| 0 <= i < video.len() ==> oldest_of(video, audio, otherwise) <= (
        #[trigger] video[i]).1,
        forall|i: int| 0 <= i < audio.len() ==> oldest_of(video, audio, otherwise) <= (
        #[trigger] audio[i]).1,
{
    assert forall|i: int| 0 <= i < video.len() implies oldest_of(video, audio, otherwise) <= (
    #[trigger] video[i]).1 by {
        assert(video[0].1 <= video[i].1);
    }
    assert forall|i: int| 0 <= i < audio.len() implies oldest_of(video, audio, otherwise) <= (
    #[trigger] audio[i]).1 by {
        assert(audio[0].1 <= audio[i].1);
    }
}

/// A request from a time that is no later than any sample, without an end,
/// hands out every sample.
pub proof fn open_request_hands_out_everything(samples: Seq<Stamped>, start_time: i64)
    requires
        forall|i: int| 0 <= i < samples.len() ==> start_time <= (#[trigger] samples[i]).1,
    ensures
        samples.filter_map(pick(start_time, i64::MAX)) == samples.map_values(
            |entry: Stamped| (entry.0.unpooled(), entry.1),
        ),
    decreases samples.len(),
{
    let f = pick(start_time, i64::MAX);
    let g = |entry: Stamped| (entry.0.unpooled(), entry.1);
    if samples.len() > 0 {
        let front = samples.drop_last();
        assert forall|i: int| 0 <= i < front.len() implies start_time <= (#[trigger] front[i]).1 by {
            assert(front[i] == samples[i]);
        }
        open_request_hands_out_everything(front, start_time);
        assert(start_time <= samples[samples.len() - 1].1);
        assert(f(samples.last()) == Some(g(samples.last())));
    }
    assert(samples.filter_map(f) =~= samples.map_values(g));
}

/// The sample that was added last can be read back: a request for a range that
/// holds its time hands it out, as one that belongs to no pool.
pub proof fn newest_sample_can_be_read(
    samples: Seq<Stamped>,
    newest: Stamped,
    cutoff: int,
    start_time: i64,
    end_time: i64,
)
    requires
        cutoff <= newest.1,
        start_time <= newest.1 <= end_time,
    ensures
        drop_stale(samples.push(newest), cutoff).filter_map(pick(start_time, end_time)).contains(
            (newest.0.unpooled(), newest.1),
        ),
{
    newest_sample_is_kept(samples, newest, cutoff);
    let kept = drop_stale(samples.push(newest), cutoff);
    let f = pick(start_time, end_time);
    kept.lemma_filter_map_take_succ(f, kept.len() - 1);
    assert(kept.take(kept.len() as int) =~= kept);
    let before = kept.take(kept.len() - 1).filter_map(f);
    let all = kept.filter_map(f);
    assert(all =~= before.push((newest.0.unpooled(), newest.1)));
    assert(all[before.len() as int] == (newest.0.unpooled(), newest.1));
}

/// A sample that comes in.
pub enum Addition {
    /// A video sample.
    Video(Stamped),
    /// An audio sample.
    Audio(Stamped),
}

/// The video samples among those that come in.
pub open spec fn video_of(additions: Seq<Addition>) -> Seq<Stamped>
    decreases additions.len(),
{
    if additions.len() == 0 {
        Seq::empty()
    } else {
        match additions.last() {
            Addition::Video(sample) => video_of(additions.drop_last()).push(sample),
            Addition::Audio(_) => video_of(additions.drop_last()),
        }
    }
}

/// The audio samples among those that come in.
pub open spec fn audio_of(additions: Seq<Addition>) -> Seq<Stamped>
    decreases additions.len(),
{
    if additions.len() == 0 {
        Seq::empty()
    } else {
        match additions.last() {
            Addition::Video(_) => audio_of(additions.drop_last()),
            Addition::Audio(sample) => audio_of(additions.drop_last()).push(sample),
        }
    }
}

/// Whether samples that come in one by one take an empty buffer through these
/// states.
pub open spec fn is_filled(buffers: Seq<ReplayBuffer>, additions: Seq<Addition>) -> bool {
    &&& buffers.len() == additions.len() + 1
    &&& buffers[0].video().len() == 0
    &&& buffers[0].audio().len() == 0
    &&& forall|i: int|
        0 <= i < additions.len() ==> match #[trigger] additions[i] {
            Addition::Video(sample) => buffers[i].adds_video(sample, buffers[i + 1]),
            Addition::Audio(sample) => buffers[i].adds_audio(sample, buffers[i + 1]),
        }
}

/// Whether a queue holds exactly those of the samples that came in whose time
/// stamp lies no more than so many nanoseconds behind the latest one, in their
/// order.
pub open spec fn holds_the_last(queue: Seq<Stamped>, added: Seq<Stamped>, nanos: int) -> bool {
    &&& queue.len() <= added.len()
    &&& forall|i: int|
        0 <= i < queue.len() ==> #[trigger] queue[i] == added[added.len() - queue.len() + i]
    &&& forall|i: int|
        #![trigger added[i]]
        0 <= i < added.len() ==> (added[i].1 >= added.last().1 - nanos / 100 <==> i >= added.len()
            - queue.len())
}

/// What one more sample makes of a queue that holds the last stretch.
proof fn one_more_sample(
    queue: Seq<Stamped>,
    added: Seq<Stamped>,
    newest: Stamped,
    nanos: int,
)
    requires
        nanos >= 0,
        in_order(added.push(newest)),
        holds_the_last(queue, added, nanos),
    ensures
        holds_the_last(
            drop_stale(queue.push(newest), newest.1 - nanos / 100),
            added.push(newest),
            nanos,
        ),
{
    let cutoff = newest.1 - nanos / 100;
    let all = added.push(newest);
    let longer = queue.push(newest);
    let kept = drop_stale(longer, cutoff);
    let offset = all.len() - longer.len();
    assert forall|i: int| 0 <= i < longer.len() implies #[trigger] longer[i] == all[offset + i] by {}
    assert(in_order(longer)) by {
        assert forall|i: int, j: int| 0 <= i <= j < longer.len() implies longer[i].1
            <= longer[j].1 by {
            assert(all[offset + i].1 <= all[offset + j].1);
        }
    }
    drop_stale_is_a_cut(longer, cutoff);
    drop_stale_keeps_the_recent(longer, cutoff);
    let gone = longer.len() - kept.len();
    assert forall|i: int| 0 <= i < kept.len() implies #[trigger] kept[i] == all[all.len()
        - kept.len() + i] by {
        assert(kept[i] == longer[gone + i]);
    }
    assert forall|i: int|
        #![trigger all[i]]
        0 <= i < all.len() implies (all[i].1 >= cutoff <==> i >= all.len() - kept.len()) by {
        if i < offset {
            assert(all[i] == added[i]);
            assert(added[i].1 < added.last().1 - nanos / 100);
            assert(all[all.len() - 2].1 <= all[all.len() - 1].1);
            assert(added.last() == all[all.len() - 2]);
        } else {
            assert(longer[i - offset] == all[i]);
        }
    }
}

/// A buffer that was made for so many nanoseconds holds, once samples have come
/// in in the order of their time stamps, exactly those that lie no more than
/// that behind the latest one of their kind.
pub proof fn buffer_keeps_the_time_asked_for(
    buffers: Seq<ReplayBuffer>,
    additions: Seq<Addition>,
    nanos: int,
)
    requires
        is_filled(buffers, additions),
        buffers[0].max_duration.nanos == nanos,
        nanos <= i64::MAX,
        in_order(video_of(additions)),
        in_order(audio_of(additions)),
    ensures
        holds_the_last(buffers.last().video_samples@, video_of(additions), nanos),
        holds_the_last(buffers.last().audio_samples@, audio_of(additions), nanos),
        buffers.last().max_duration.nanos == nanos,
    decreases additions.len(),
{
    if additions.len() > 0 {
        let n = additions.len() - 1;
        let before = additions.drop_last();
        let earlier = buffers.drop_last();
        assert(is_filled(earlier, before)) by {
            assert forall|i: int| 0 <= i < before.len() implies match #[trigger] before[i] {
                Addition::Video(sample) => earlier[i].adds_video(sample, earlier[i + 1]),
                Addition::Audio(sample) => earlier[i].adds_audio(sample, earlier[i + 1]),
            } by {
                assert(before[i] == additions[i]);
            }
        }
        let videos = video_of(before);
        let sounds = audio_of(before);
        assert(in_order(videos)) by {
            assert forall|i: int, j: int| 0 <= i <= j < videos.len() implies videos[i].1
                <= videos[j].1 by {
                assert(video_of(additions)[i] == videos[i]);
                assert(video_of(additions)[j] == videos[j]);
            }
        }
        assert(in_order(sounds)) by {
            assert forall|i: int, j: int| 0 <= i <= j < sounds.len() implies sounds[i].1
                <= sounds[j].1 by {
                assert(audio_of(additions)[i] == sounds[i]);
                assert(audio_of(additions)[j] == sounds[j]);
            }
        }
        buffer_keeps_the_time_asked_for(earlier, before, nanos);
        assert(earlier.last() == buffers[n]);
        let b = buffers[n];
        assert(b.max_duration.nanos as i64 == nanos);
        match additions[n] {
            Addition::Video(sample) => {
                assert(b.adds_video(sample, buffers[n + 1]));
                assert(b.cutoff(sample.1) == sample.1 - nanos / 100);
                one_more_sample(b.video(), videos, sample, nanos);
            },
            Addition::Audio(sample) => {
                assert(b.adds_audio(sample, buffers[n + 1]));
                assert(b.cutoff(sample.1) == sample.1 - nanos / 100);
                one_more_sample(b.audio(), sounds, sample, nanos);
            },
        }
    }
}

/// The oldest time stamp of two queues is that of a sample in front of one of
/// them, and the other one has none in front that is older.
pub proof fn oldest_is_in_front(video: Seq<Stamped>, audio: Seq<Stamped>, otherwise: i64)
    ensures
        video.len() > 0 || audio.len() > 0 ==> {
            ||| video.len() > 0 && oldest_of(video, audio, otherwise) == video[0].1
            ||| audio.len() > 0 && oldest_of(video, audio, otherwise) == audio[0].1
        },
        video.len() > 0 ==> oldest_of(video, audio, otherwise) <= video[0].1,
        audio.len() > 0 ==> oldest_of(video, audio, otherwise) <= audio[0].1,
        video.len() == 0 && audio.len() == 0 ==> oldest_of(video, audio, otherwise) == otherwise,
{
}

/// A request hands out samples within its range alone, both ends included, and
/// as ones that belong to no pool.
pub proof fn request_stays_in_its_range(
    samples: Seq<Stamped>,
    start_time: i64,
    end_time: i64,
    handed: Stamped,
)
    requires
        samples.filter_map(pick(start_time, end_time)).contains(handed),
    ensures
        start_time <= handed.1 <= end_time,
        handed.0.pool is None,
        exists|k: int|
            0 <= k < samples.len() && (#[trigger] samples[k]).1 == handed.1
                && samples[k].0.sample == handed.0.sample,
{
    let f = pick(start_time, end_time);
    samples.lemma_filter_map_contains(f, handed);
    let entry = choose|entry: Stamped| samples.contains(entry) && f(entry) == Some(handed);
    let k = choose|k: int| 0 <= k < samples.len() && samples[k] == entry;
    assert(samples[k].1 == handed.1);
}

/// A request hands out every sample within its range, both ends included.
pub proof fn request_covers_its_range(
    samples: Seq<Stamped>,
    start_time: i64,
    end_time: i64,
    k: int,
)
    requires
        0 <= k < samples.len(),
        start_time <= samples[k].1 <= end_time,
    ensures
        exists|handed: Stamped|
            {
                &&& #[trigger] samples.filter_map(pick(start_time, end_time)).contains(handed)
                &&& handed.1 == samples[k].1
                &&& handed.0.sample == samples[k].0.sample
            },
{
    let f = pick(start_time, end_time);
    let handed = (samples[k].0.unpooled(), samples[k].1);
    assert(f(samples[k]) == Some(handed));
    picked_is_among_all(samples, f, k, handed);
}

/// A request keeps the order of the samples.
pub proof fn request_keeps_the_order(samples: Seq<Stamped>, start_time: i64, end_time: i64)
    requires
        in_order(samples),
    ensures
        in_order(samples.filter_map(pick(start_time, end_time))),
    decreases samples.len(),
{
    let f = pick(start_time, end_time);
    let found = samples.filter_map(f);
    if samples.len() > 0 {
        let front = samples.drop_last();
        let n = samples.len() - 1;
        assert(in_order(front)) by {
            assert forall|i: int, j: int| 0 <= i <= j < front.len() implies front[i].1
                <= front[j].1 by {
                assert(samples[i].1 <= samples[j].1);
            }
        }
        request_keeps_the_order(front, start_time, end_time);
        samples.lemma_filter_map_take_succ(f, n);
        assert(samples.take(n) =~= front);
        assert(samples.take(n + 1) =~= samples);
        let before = front.filter_map(f);
        if start_time <= samples[n].1 <= end_time {
            assert(found =~= before.push((samples[n].0.unpooled(), samples[n].1)));
            assert forall|i: int, j: int| 0 <= i <= j < found.len() implies found[i].1
                <= found[j].1 by {
                if j < before.len() {
                    assert(before[i].1 <= before[j].1);
                } else if i < before.len() {
                    assert(before.contains(before[i]));
                    request_stays_in_its_range(front, start_time, end_time, before[i]);
                    let k = choose|k: int|
                        0 <= k < front.len() && (#[trigger] front[k]).1 == before[i].1
                            && front[k].0.sample == before[i].0.sample;
                    assert(samples[k].1 <= samples[n].1);
                }
            }
        } else {
            assert(found =~= before);
        }
    } else {
        reveal(Seq::filter_map);
        assert(found =~= Seq::<Stamped>::empty());
    }
}

/// The stretch that a buffer holds runs from its oldest sample to its latest
/// one.
pub proof fn stretch_is_oldest_to_latest(buffer: ReplayBuffer)
    requires
        buffer.video_samples@.len() > 0 || buffer.audio_samples@.len() > 0,
        buffer.video_samples@.len() > 0 ==> buffer.video_samples@.last().1 >= 0
            && buffer.oldest_timestamp <= buffer.video_samples@.last().1,
        buffer.audio_samples@.len() > 0 ==> buffer.audio_samples@.last().1 >= 0
            && buffer.oldest_timestamp <= buffer.audio_samples@.last().1,
    ensures
        ({
            let video = buffer.video_samples@;
            let audio = buffer.audio_samples@;
            let oldest = buffer.oldest_timestamp;
            &&& video.len() > 0 ==> buffer.held_nanos() >= 100 * (video.last().1 - oldest)
            &&& audio.len() > 0 ==> buffer.held_nanos() >= 100 * (audio.last().1 - oldest)
            &&& {
                ||| video.len() > 0 && buffer.held_nanos() == 100 * (video.last().1 - oldest)
                ||| audio.len() > 0 && buffer.held_nanos() == 100 * (audio.last().1 - oldest)
            }
        }),
{
}

} // verus!
