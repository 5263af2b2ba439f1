//! The outcome of mixing two samples.
use crate::error::HResult;
use crate::processing::pcm::{is_mix, mix_pcm_audio};
use crate::types::MediaSample;
use std::sync::Arc;
use vstd::prelude::*;

verus! {

/// A new audio sample that was mixed from two others.
#[derive(Debug)]
pub struct MixedSample {
    /// The time stamp in units of 100 nanoseconds.
    pub time: i64,
    /// The duration in units of 100 nanoseconds.
    pub duration: i64,
    /// The 16-bit PCM audio.
    pub data: Vec<u8>,
}

/// What the mixer hands out.
#[derive(Debug)]
pub enum MixerOutput {
    /// A sample that came in and had nothing to be mixed with.
    PassedThrough(Arc<MediaSample>),
    /// A new sample, mixed from two others.
    Mixed(MixedSample),
}

/// The bytes of a sample whose buffer can be read.
pub open spec fn bytes_of(sample: MediaSample) -> Seq<u8> {
    sample.buffer->Ok_0.contents->Ok_0@
}

/// The code of the first failure in reading the buffers of two samples: both
/// buffers are asked for before the first of them is locked.
pub open spec fn buffer_failure(sys: MediaSample, mic: MediaSample) -> Option<HResult> {
    match (sys.buffer, mic.buffer) {
        (Err(code), _) => Some(code),
        (Ok(_), Err(code)) => Some(code),
        (Ok(sys_buffer), Ok(mic_buffer)) => match (sys_buffer.contents, mic_buffer.contents) {
            (Err(code), _) => Some(code),
            (Ok(_), Err(code)) => Some(code),
            (Ok(_), Ok(_)) => None,
        },
    }
}

/// Whether `data` is the mix of two runs of audio, in a fresh buffer that is as
/// long as the system audio.
pub open spec fn is_fresh_mix(sys: Seq<u8>, mic: Seq<u8>, data: Seq<u8>) -> bool {
    is_mix(sys, mic, Seq::new(sys.len(), |i: int| 0u8), data)
}

/// Mixes the buffers of two samples.
pub fn mix_buffers(sys: &MediaSample, mic: &MediaSample) -> (r: Result<Vec<u8>, HResult>)
    ensures
        match buffer_failure(*sys, *mic) {
            Some(code) => r == Err::<Vec<u8>, HResult>(code),
            None => r is Ok && is_fresh_mix(bytes_of(*sys), bytes_of(*mic), r->Ok_0@),
        },
{
    let sys_buffer = match &sys.buffer {
        Ok(buffer) => buffer,
        Err(code) => {
            return Err(*code);
        },
    };
    let mic_buffer = match &mic.buffer {
        Ok(buffer) => buffer,
        Err(code) => {
            return Err(*code);
        },
    };
    let sys_bytes = match &sys_buffer.contents {
        Ok(bytes) => bytes,
        Err(code) => {
            return Err(*code);
        },
    };
    let mic_bytes = match &mic_buffer.contents {
        Ok(bytes) => bytes,
        Err(code) => {
            return Err(*code);
        },
    };
    let mut data: Vec<u8> = vec![0u8; sys_bytes.len()];
    assert(data@ =~= Seq::new(sys_bytes@.len(), |i: int| 0u8));
    mix_pcm_audio(sys_bytes.as_slice(), mic_bytes.as_slice(), &mut data);
    Ok(data)
}

/// Mixing fails where a buffer of either sample cannot be had or read, and only
/// there. The code is one that was reported. Both buffers are asked for before
/// one is read.
pub proof fn unreadable_buffers_fail(sys: MediaSample, mic: MediaSample)
    ensures
        buffer_failure(sys, mic) is None <==> (sys.buffer matches Ok(buffer) && buffer.contents is Ok)
            && (mic.buffer matches Ok(buffer) && buffer.contents is Ok),
        sys.buffer matches Err(code) ==> buffer_failure(sys, mic) == Some(code),
        sys.buffer is Ok ==> (mic.buffer matches Err(code) ==> buffer_failure(sys, mic) == Some(
            code,
        )),
        sys.buffer is Ok && mic.buffer is Ok ==> (sys.buffer->Ok_0.contents matches Err(code)
            ==> buffer_failure(sys, mic) == Some(code)),
{
}

} // verus!
