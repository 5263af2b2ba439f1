//! The microphone: its start-up and its samples.
use crate::capture::audio::{create_audio_sample, SamplePlan, WaveFormat};
use crate::error::{HResult, E_FAIL, E_INVALIDARG, E_POINTER};
use vstd::prelude::*;

verus! {

/// A reading of the performance counter or its frequency, which must be
/// positive.
pub fn validate_counter(reading: Option<i64>) -> (r: Result<u64, HResult>)
    ensures
        match reading {
            Some(n) => if n > 0 {
                r == Ok::<u64, HResult>(n as u64)
            } else {
                r == Err::<u64, HResult>(E_FAIL)
            },
            None => r == Err::<u64, HResult>(E_FAIL),
        },
{
    match reading {
        Some(n) => {
            if n > 0 {
                Ok(n as u64)
            } else {
                Err(E_FAIL)
            }
        },
        None => Err(E_FAIL),
    }
}

/// How much sound the microphone is to hold: two periods of the device.
pub fn buffer_duration(default_period: i64) -> (r: i64)
    requires
        i64::MIN <= 2 * default_period <= i64::MAX,
    ensures
        r == 2 * default_period,
{
    default_period * 2
}

/// The sample that is to be made of a packet of frames.
///
/// There is none where the packet has no memory, or more of it than can be
/// addressed.
pub fn create_microphone_sample(
    is_null: bool,
    num_frames: u32,
    wave_format: &WaveFormat,
    time_hns: i64,
    packet_duration_hns: i64,
) -> (r: Result<SamplePlan, HResult>)
    requires
        num_frames * wave_format.block_align <= u32::MAX || num_frames * wave_format.block_align
            > isize::MAX,
        i64::MIN <= num_frames * packet_duration_hns <= i64::MAX,
    ensures
        is_null ==> r == Err::<SamplePlan, HResult>(E_POINTER),
        !is_null && num_frames * wave_format.block_align > isize::MAX ==> r == Err::<
            SamplePlan,
            HResult,
        >(E_INVALIDARG),
        !is_null && num_frames * wave_format.block_align <= isize::MAX ==> (r matches Ok(plan) && {
            &&& plan.size == num_frames * wave_format.block_align
            &&& plan.time == time_hns
            &&& plan.duration == num_frames * packet_duration_hns
        }),
{
    if is_null {
        return Err(E_POINTER);
    }
    assert(num_frames * wave_format.block_align <= u64::MAX) by (nonlinear_arith);
    let size: u64 = num_frames as u64 * wave_format.block_align as u64;
    if size > isize::MAX as u64 {
        return Err(E_INVALIDARG);
    }
    Ok(create_audio_sample(num_frames, wave_format, time_hns, packet_duration_hns))
}

} // verus!
