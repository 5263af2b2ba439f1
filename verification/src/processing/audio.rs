//! Sizes of audio buffers.
use vstd::prelude::*;

verus! {

/// The number of bytes in so many frames, rounded down from bits.
pub fn calculate_audio_buffer_size(num_frames: u32, channels: u16, bits_per_sample: u16) -> (r:
    usize)
    requires
        num_frames * channels <= usize::MAX,
        num_frames * channels * bits_per_sample <= usize::MAX,
    ensures
        r == num_frames as int * channels as int * bits_per_sample as int / 8,
{
    (num_frames as usize * channels as usize * bits_per_sample as usize) / 8
}

} // verus!
