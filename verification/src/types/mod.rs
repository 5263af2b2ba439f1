//! Shared data types: samples, pools, stream settings and the replay buffer.
use crate::error::HResult;
use std::sync::Arc;
use vstd::prelude::*;

pub mod duration;
pub mod geometry;
pub mod guid;
pub mod replay_buffer;
pub mod sample_pool;
pub mod texture_pool;

pub use duration::Duration;
pub use geometry::{Point, Rect};
pub use guid::Guid;
pub use replay_buffer::ReplayBuffer;
pub use sample_pool::SamplePool;
pub use texture_pool::TexturePool;

verus! {

/// Units of 100 nanoseconds in one second: the clock of media samples.
pub const HNS_PER_SEC: i64 = 10_000_000;

/// The quotient of two integers, rounded towards zero.
pub open spec fn trunc_div(a: int, b: int) -> int {
    if a >= 0 {
        a / b
    } else {
        -((-a) / b)
    }
}

/// A buffer of a media sample.
#[derive(Debug)]
pub struct MediaBuffer {
    /// The bytes, or the code with which locking the buffer failed.
    pub contents: Result<Vec<u8>, HResult>,
}

/// A media sample: what the recorder reads of it, and a number by which the
/// system object behind it is found again.
#[derive(Debug)]
pub struct MediaSample {
    /// The number of the system object.
    pub id: u64,
    /// The time stamp in units of 100 nanoseconds.
    pub time: Result<i64, HResult>,
    /// The duration in units of 100 nanoseconds.
    pub duration: Result<i64, HResult>,
    /// The first buffer.
    pub buffer: Result<MediaBuffer, HResult>,
}

/// A shared media sample, with the pool that it goes back to, if any.
#[derive(Debug)]
pub struct SendableSample {
    /// The sample.
    pub sample: Arc<MediaSample>,
    /// The number of the pool that the sample was taken from.
    pub pool: Option<u64>,
}

impl SendableSample {
    /// A sample that belongs to no pool.
    pub fn new(sample: MediaSample) -> (r: Self)
        ensures
            *r.sample == sample,
            r.pool is None,
    {
        SendableSample { sample: Arc::new(sample), pool: None }
    }

    /// A sample that goes back to the pool with the given number.
    pub fn new_pooled(sample: MediaSample, pool: u64) -> (r: Self)
        ensures
            *r.sample == sample,
            r.pool == Some(pool),
    {
        SendableSample { sample: Arc::new(sample), pool: Some(pool) }
    }

    /// The same sample as one that belongs to no pool.
    pub open spec fn unpooled(self) -> SendableSample {
        SendableSample { sample: self.sample, pool: None }
    }

    /// A second owner of the sample that returns it to no pool.
    pub fn share(&self) -> (r: Self)
        ensures
            r == self.unpooled(),
    {
        SendableSample { sample: Arc::clone(&self.sample), pool: None }
    }

    /// The pool that a sample is returned to when this owner goes away.
    ///
    /// `owners` counts the owners of the sample, this one included; `dropping`
    /// tells whether the thread is returning another sample at the moment.
    pub fn release_target(&self, owners: usize, dropping: bool) -> (r: Option<u64>)
        ensures
            r == if owners == 1 && !dropping {
                self.pool
            } else {
                None
            },
    {
        if owners == 1 && !dropping {
            self.pool
        } else {
            None
        }
    }
}

/// A span of time in units of 100 nanoseconds, rounded down.
///
/// The nanoseconds are taken modulo 2^64 as a signed number first, which
/// leaves every span below 292 years as it is.
pub fn duration_to_hns(duration: Duration) -> (r: i64)
    ensures
        r == trunc_div((duration.nanos as i64) as int, 100),
        duration@ <= i64::MAX ==> r == duration@ / 100,
{
    #[verifier::truncate]
    let nanos: i64 = duration.nanos as i64;
    nanos / 100
}

/// The span of time of `hns` units of 100 nanoseconds.
///
/// A negative count becomes the span of the unsigned number with the same 64
/// bits.
pub fn hns_to_duration(hns: i64) -> (r: Duration)
    requires
        i64::MIN <= hns * 100 <= i64::MAX,
    ensures
        r@ == if hns >= 0 {
            hns * 100
        } else {
            hns * 100 + 0x1_0000_0000_0000_0000
        },
        r.wf(),
{
    let nanos: i64 = hns * 100;
    assert(nanos >= 0 ==> (nanos as u64) as int == nanos) by (bit_vector);
    assert(nanos < 0 ==> (nanos as u64) as int == nanos + 0x1_0000_0000_0000_0000) by (bit_vector);
    #[verifier::truncate]
    let bits: u64 = nanos as u64;
    Duration::from_nanos(bits)
}

/// A count of units that is not negative survives the way to a span and back.
pub proof fn hns_round_trip(hns: i64, there: Duration, back: i64)
    requires
        0 <= hns,
        hns * 100 <= i64::MAX,
        there@ == hns * 100,
        back == trunc_div((there.nanos as i64) as int, 100),
    ensures
        back == hns,
{
    assert(there.nanos as i64 == hns * 100);
}

/// The size and the frame rate of a video stream.
#[derive(Debug, Clone, Copy)]
pub struct VideoConfig {
    /// The width in pixels.
    pub width: u32,
    /// The height in pixels.
    pub height: u32,
    /// The numerator of the frames per second.
    pub fps_num: u32,
    /// The denominator of the frames per second.
    pub fps_den: u32,
}

impl VideoConfig {
    /// The settings with the given size and rate.
    pub fn new(width: u32, height: u32, fps_num: u32, fps_den: u32) -> (r: Self)
        ensures
            r == (VideoConfig { width, height, fps_num, fps_den }),
    {
        VideoConfig { width, height, fps_num, fps_den }
    }

    /// The time from one frame to the next, rounded down to a nanosecond.
    pub fn frame_duration(&self) -> (r: Duration)
        requires
            self.fps_num != 0,
        ensures
            r@ == 1_000_000_000 * self.fps_den as nat / self.fps_num as nat,
            r.wf(),
    {
        let nanos: u64 = 1_000_000_000 * self.fps_den as u64;
        Duration::from_nanos(nanos / self.fps_num as u64)
    }
}

/// The format of an audio stream.
#[derive(Debug, Clone, Copy)]
pub struct AudioConfig {
    /// The number of channels.
    pub channels: u16,
    /// Frames per second.
    pub sample_rate: u32,
    /// Bits of one sample of one channel.
    pub bits_per_sample: u16,
}

impl AudioConfig {
    /// The settings with the given format.
    pub fn new(channels: u16, sample_rate: u32, bits_per_sample: u16) -> (r: Self)
        ensures
            r == (AudioConfig { channels, sample_rate, bits_per_sample }),
    {
        AudioConfig { channels, sample_rate, bits_per_sample }
    }

    /// The bytes of one frame, which has a sample of every channel.
    pub open spec fn frame_bytes(self) -> nat {
        self.channels as nat * self.bits_per_sample as nat / 8
    }

    /// The bytes of one frame.
    pub fn bytes_per_sample(&self) -> (r: u32)
        ensures
            r == self.frame_bytes(),
    {
        proof {
            assert(self.channels * self.bits_per_sample <= 0xffff * 0xffff) by (nonlinear_arith)
                requires
                    self.channels <= 0xffff,
                    self.bits_per_sample <= 0xffff,
            ;
        }
        (self.channels as u32 * self.bits_per_sample as u32) / 8
    }

    /// The bytes of one second.
    pub fn bytes_per_second(&self) -> (r: u32)
        requires
            self.sample_rate * self.frame_bytes() <= u32::MAX,
        ensures
            r == self.sample_rate * self.frame_bytes(),
    {
        self.sample_rate * self.bytes_per_sample()
    }
}

/// What is picked of an item of a sequence is among what is picked of all.
pub(crate) proof fn picked_is_among_all<A, B>(s: Seq<A>, f: spec_fn(A) -> Option<B>, k: int, b: B)
    requires
        0 <= k < s.len(),
        f(s[k]) == Some(b),
    ensures
        s.filter_map(f).contains(b),
    decreases s.len(),
{
    let n = s.len() - 1;
    let front = s.drop_last();
    s.lemma_filter_map_take_succ(f, n);
    assert(s.take(n) =~= front);
    assert(s.take(n + 1) =~= s);
    let all = s.filter_map(f);
    let before = front.filter_map(f);
    if k < n {
        picked_is_among_all(front, f, k, b);
        let i = choose|i: int| 0 <= i < before.len() && before[i] == b;
        assert(all[i] == b);
    } else {
        assert(all[before.len() as int] == b);
    }
}

/// A quotient that is rounded towards zero is never further from zero than the
/// exact one, and less than one away from it.
pub proof fn rounding_goes_towards_zero(a: int, b: int)
    requires
        b > 0,
    ensures
        a >= 0 ==> 0 <= b * trunc_div(a, b) <= a < b * trunc_div(a, b) + b,
        a <= 0 ==> b * trunc_div(a, b) - b < a <= b * trunc_div(a, b) <= 0,
{
    if a >= 0 {
        vstd::arithmetic::div_mod::lemma_fundamental_div_mod(a, b);
        vstd::arithmetic::div_mod::lemma_div_pos_is_pos(a, b);
        assert(0 <= b * (a / b)) by (nonlinear_arith)
            requires
                b > 0,
                a / b >= 0,
        ;
    } else {
        vstd::arithmetic::div_mod::lemma_fundamental_div_mod(-a, b);
        vstd::arithmetic::div_mod::lemma_div_pos_is_pos(-a, b);
        let q = (-a) / b;
        assert(0 <= b * q) by (nonlinear_arith)
            requires
                b > 0,
                q >= 0,
        ;
        assert(b * (-q) == -(b * q)) by (nonlinear_arith);
    }
}

} // verus!
