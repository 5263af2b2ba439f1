//! A pool of reusable media samples.
use crate::error::HResult;
use crate::types::{trunc_div, HNS_PER_SEC};
use vstd::prelude::*;

verus! {

/// A pool of sample objects that can be used with any texture.
pub struct SamplePool<S> {
    /// The samples that are ready for reuse, the next one last.
    pub samples: Vec<S>,
    /// Frames per second, from which times and durations are computed.
    pub fps_num: u32,
}

impl<S> SamplePool<S> {
    /// The samples that are ready for reuse, the next one last.
    pub open spec fn available(self) -> Seq<S> {
        self.samples@
    }

    /// An empty pool for the given frame rate.
    pub fn new(fps_num: u32, initial_capacity: usize) -> (r: Self)
        ensures
            r.fps_num == fps_num,
            r.available() == Seq::<S>::empty(),
    {
        SamplePool { samples: Vec::with_capacity(initial_capacity), fps_num }
    }

    /// The sample that was released last, or a new one from `create` where the
    /// pool is empty. None is created where the pool holds one.
    pub fn acquire_sample<F: FnOnce() -> Result<S, HResult>>(&mut self, create: F) -> (r: Result<
        S,
        HResult,
    >)
        requires
            old(self).available().len() == 0 ==> create.requires(()),
        ensures
            final(self).fps_num == old(self).fps_num,
            old(self).available().len() > 0 ==> {
                &&& r == Ok::<S, HResult>(old(self).available().last())
                &&& final(self).available() == old(self).available().drop_last()
            },
            old(self).available().len() == 0 ==> {
                &&& create.ensures((), r)
                &&& final(self).available() == old(self).available()
            },
    {
        match self.samples.pop() {
            Some(sample) => Ok(sample),
            None => create(),
        }
    }

    /// Puts a sample back.
    ///
    /// `cleared` is what came of taking the buffers off it: where that failed,
    /// the sample is not kept and the code is handed on.
    pub fn release_sample(&mut self, sample: S, cleared: Result<(), HResult>) -> (r: Result<
        (),
        HResult,
    >)
        ensures
            r == cleared,
            final(self).fps_num == old(self).fps_num,
            final(self).available() == if cleared is Ok {
                old(self).available().push(sample)
            } else {
                old(self).available()
            },
    {
        match cleared {
            Ok(done) => {
                self.samples.push(sample);
                Ok(done)
            },
            Err(code) => Err(code),
        }
    }

    /// The time stamp of a frame in units of 100 nanoseconds, rounded towards
    /// zero. The frame number counts as a signed one.
    pub fn set_sample_time(&self, frame_count: u64) -> (r: i64)
        requires
            self.fps_num != 0,
            i64::MIN <= (frame_count as i64) * 10_000_000 <= i64::MAX,
        ensures
            r == trunc_div((frame_count as i64) * 10_000_000, self.fps_num as int),
            frame_count <= i64::MAX ==> r == frame_count * 10_000_000 / self.fps_num as int,
    {
        #[verifier::truncate]
        let frame: i64 = frame_count as i64;
        frame * HNS_PER_SEC / self.fps_num as i64
    }

    /// The duration of a frame in units of 100 nanoseconds.
    pub fn sample_duration(&self) -> (r: i64)
        requires
            self.fps_num != 0,
        ensures
            r == 10_000_000int / self.fps_num as int,
    {
        HNS_PER_SEC / self.fps_num as i64
    }
}

/// A sample that is put back is the one that the next acquisition hands out
/// without creating any, and the pool then holds what it held before.
pub proof fn release_then_acquire<S>(before: SamplePool<S>, sample: S, released: SamplePool<S>)
    requires
        released.available() == before.available().push(sample),
    ensures
        released.available().len() > 0,
        released.available().last() == sample,
        released.available().drop_last() == before.available(),
{
    assert(released.available().drop_last() =~= before.available());
}

/// Frames that follow one another have time stamps that follow one another.
pub proof fn sample_times_ascend(fps_num: u32, earlier: u64, later: u64)
    requires
        fps_num != 0,
        earlier <= later,
    ensures
        earlier * 10_000_000 / fps_num as int <= later * 10_000_000 / fps_num as int,
{
    vstd::arithmetic::div_mod::lemma_div_is_ordered(
        earlier * 10_000_000,
        later * 10_000_000,
        fps_num as int,
    );
}

} // verus!
