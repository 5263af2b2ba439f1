//! The video encoder: its samples, its start and its end.
use crate::error::{WindowsError, E_FAIL};
use crate::processing::attributes::{
    id, id_value, pair, pair_value, Attribute, AttributeKey, AttributeValue, INTERLACE_PROGRESSIVE,
    MEDIA_TYPE_VIDEO,
};
use crate::types::Guid;
use vstd::prelude::*;

verus! {

/// A picture that goes into the encoder. `T` is its texture.
#[derive(Debug)]
pub struct VideoEncoderInputSample<T> {
    /// The time stamp in units of 100 nanoseconds.
    pub timestamp: i64,
    /// The texture.
    pub texture: T,
}

impl<T> VideoEncoderInputSample<T> {
    /// A texture at a time.
    pub fn new(timestamp: i64, texture: T) -> (r: Self)
        ensures
            r.timestamp == timestamp,
            r.texture == texture,
    {
        VideoEncoderInputSample { timestamp, texture }
    }
}

/// Encoded video that comes out of the encoder. `S` is its sample.
#[derive(Debug)]
pub struct VideoEncoderOutputSample<S> {
    /// The sample.
    pub sample: S,
}

impl<S> VideoEncoderOutputSample<S> {
    /// The sample.
    pub fn sample(&self) -> (r: &S)
        ensures
            *r == self.sample,
    {
        &self.sample
    }
}

/// The attributes of the video that comes out of the encoder.
pub fn encoder_output_type(
    format: &Guid,
    bit_rate: u32,
    output_resolution: (u32, u32),
    frame_rate: (u32, u32),
) -> (r: Vec<Attribute>)
    ensures
        r@ == seq![
            (AttributeKey::MajorType, id_value(MEDIA_TYPE_VIDEO)),
            (AttributeKey::Subtype, AttributeValue::Id(*format)),
            (AttributeKey::AvgBitrate, AttributeValue::Number(bit_rate)),
            (AttributeKey::FrameSize, pair_value(output_resolution.0, output_resolution.1)),
            (AttributeKey::FrameRate, pair_value(frame_rate.0, frame_rate.1)),
            (AttributeKey::PixelAspectRatio, pair_value(1, 1)),
            (AttributeKey::InterlaceMode, AttributeValue::Number(INTERLACE_PROGRESSIVE)),
            (AttributeKey::AllSamplesIndependent, AttributeValue::Number(1)),
        ],
{
    let mut list: Vec<Attribute> = Vec::new();
    list.push((AttributeKey::MajorType, id(MEDIA_TYPE_VIDEO)));
    list.push((AttributeKey::Subtype, AttributeValue::Id(*format)));
    list.push((AttributeKey::AvgBitrate, AttributeValue::Number(bit_rate)));
    list.push((AttributeKey::FrameSize, pair(output_resolution.0, output_resolution.1)));
    list.push((AttributeKey::FrameRate, pair(frame_rate.0, frame_rate.1)));
    list.push((AttributeKey::PixelAspectRatio, pair(1, 1)));
    list.push((AttributeKey::InterlaceMode, AttributeValue::Number(INTERLACE_PROGRESSIVE)));
    list.push((AttributeKey::AllSamplesIndependent, AttributeValue::Number(1)));
    list
}

/// The attributes that the pictures going into the encoder are given.
pub fn encoder_input_type(input_resolution: (u32, u32), frame_rate: (u32, u32)) -> (r: Vec<
    Attribute,
>)
    ensures
        r@ == seq![
            (AttributeKey::FrameSize, pair_value(input_resolution.0, input_resolution.1)),
            (AttributeKey::FrameRate, pair_value(frame_rate.0, frame_rate.1)),
            (AttributeKey::PixelAspectRatio, pair_value(1, 1)),
            (AttributeKey::InterlaceMode, AttributeValue::Number(INTERLACE_PROGRESSIVE)),
        ],
{
    let mut list: Vec<Attribute> = Vec::new();
    list.push((AttributeKey::FrameSize, pair(input_resolution.0, input_resolution.1)));
    list.push((AttributeKey::FrameRate, pair(frame_rate.0, frame_rate.1)));
    list.push((AttributeKey::PixelAspectRatio, pair(1, 1)));
    list.push((AttributeKey::InterlaceMode, AttributeValue::Number(INTERLACE_PROGRESSIVE)));
    list
}

/// Where an encoder stands.
#[derive(Debug, Clone, Copy, PartialEq, Eq, Structural)]
pub struct VideoEncoder {
    /// Whether it has what its thread needs; the thread takes that with it.
    pub has_inner: bool,
    /// Whether it knows where to get pictures from.
    pub requested_set: bool,
    /// Whether it knows where to put encoded video.
    pub rendered_set: bool,
    /// Whether it was started.
    pub started: bool,
    /// Whether its thread was told to stop.
    pub should_stop: bool,
    /// Whether there is a thread to wait for.
    pub has_thread: bool,
}

/// What there is to do to stop an encoder.
#[derive(Debug, Clone, Copy, PartialEq, Eq, Structural)]
pub enum EncoderStop {
    /// Nothing.
    Nothing,
    /// Wait for its thread.
    JoinThread,
}

/// How the thread of an encoder ended.
#[derive(Debug)]
pub enum ThreadEnd {
    /// It came to its end, with this result.
    Returned(Result<(), WindowsError>),
    /// It panicked.
    Panicked,
}

impl VideoEncoder {
    /// Whether an encoder that runs has a thread, until it is told to stop.
    pub open spec fn wf(self) -> bool {
        &&& self.started && !self.should_stop ==> self.has_thread
        &&& self.has_thread ==> self.started
        &&& self.has_inner ==> !self.started
    }

    /// An encoder that was set up.
    pub fn new() -> (r: Self)
        ensures
            r.wf(),
            r == (VideoEncoder {
                has_inner: true,
                requested_set: false,
                rendered_set: false,
                started: false,
                should_stop: false,
                has_thread: false,
            }),
    {
        VideoEncoder {
            has_inner: true,
            requested_set: false,
            rendered_set: false,
            started: false,
            should_stop: false,
            has_thread: false,
        }
    }

    /// Takes note that the encoder knows where to get pictures from. It is too
    /// late once it was started.
    pub fn set_sample_requested_callback(&mut self) -> (r: bool)
        requires
            old(self).wf(),
        ensures
            final(self).wf(),
            r == old(self).has_inner,
            *final(self) == (VideoEncoder { requested_set: old(self).requested_set || r, ..*old(
                self,
            ) }),
    {
        if self.has_inner {
            self.requested_set = true;
        }
        self.has_inner
    }

    /// Takes note that the encoder knows where to put encoded video. It is too
    /// late once it was started.
    pub fn set_sample_rendered_callback(&mut self) -> (r: bool)
        requires
            old(self).wf(),
        ensures
            final(self).wf(),
            r == old(self).has_inner,
            *final(self) == (VideoEncoder { rendered_set: old(self).rendered_set || r, ..*old(
                self,
            ) }),
    {
        if self.has_inner {
            self.rendered_set = true;
        }
        self.has_inner
    }

    /// Starts the encoder, and tells whether its thread is to be started. It is
    /// not where the encoder runs. It cannot be started before it knows where
    /// to get pictures from and where to put encoded video.
    pub fn try_start(&mut self) -> (r: Result<bool, WindowsError>)
        requires
            old(self).wf(),
            !old(self).started ==> old(self).has_inner,
        ensures
            final(self).wf(),
            old(self).started ==> {
                &&& r == Ok::<bool, WindowsError>(false)
                &&& *final(self) == *old(self)
            },
            !old(self).started && old(self).requested_set && old(self).rendered_set ==> {
                &&& r == Ok::<bool, WindowsError>(true)
                &&& *final(self) == (VideoEncoder {
                    has_inner: false,
                    started: true,
                    has_thread: true,
                    ..*old(self)
                })
            },
            !old(self).started && !(old(self).requested_set && old(self).rendered_set) ==> {
                &&& r matches Err(error) && error.code == E_FAIL && error.message@
                    == "Encoder callbacks not set"@
                &&& *final(self) == *old(self)
            },
    {
        if self.started {
            return Ok(false);
        }
        if !self.requested_set || !self.rendered_set {
            return Err(WindowsError::new(E_FAIL, "Encoder callbacks not set".to_owned()));
        }
        self.started = true;
        self.has_inner = false;
        self.has_thread = true;
        Ok(true)
    }

    /// Tells the thread to stop, and what there is to do. There is nothing to
    /// do where the encoder does not run, or its thread was told before.
    pub fn stop(&mut self) -> (r: EncoderStop)
        requires
            old(self).wf(),
        ensures
            final(self).wf(),
            old(self).started && !old(self).should_stop ==> {
                &&& r == EncoderStop::JoinThread
                &&& *final(self) == (VideoEncoder {
                    should_stop: true,
                    has_thread: false,
                    ..*old(self)
                })
            },
            !(old(self).started && !old(self).should_stop) ==> {
                &&& r == EncoderStop::Nothing
                &&& *final(self) == *old(self)
            },
    {
        if self.started && !self.should_stop {
            self.should_stop = true;
            self.has_thread = false;
            EncoderStop::JoinThread
        } else {
            EncoderStop::Nothing
        }
    }

    /// Takes note of how the thread ended. The encoder counts as stopped only
    /// where it ended well.
    pub fn finish_stop(&mut self, end: ThreadEnd) -> (r: Result<(), WindowsError>)
        requires
            old(self).wf(),
            old(self).should_stop,
            !old(self).has_thread,
        ensures
            final(self).wf(),
            match end {
                ThreadEnd::Returned(Ok(_)) => {
                    &&& r is Ok
                    &&& *final(self) == (VideoEncoder { started: false, ..*old(self) })
                },
                ThreadEnd::Returned(Err(error)) => {
                    &&& r == Err::<(), WindowsError>(error)
                    &&& *final(self) == *old(self)
                },
                ThreadEnd::Panicked => {
                    &&& r matches Err(error) && error.code == E_FAIL && error.message@
                        == "Failed to join encoder thread"@
                    &&& *final(self) == *old(self)
                },
            },
    {
        match end {
            ThreadEnd::Returned(Ok(done)) => {
                self.started = false;
                Ok(done)
            },
            ThreadEnd::Returned(Err(error)) => Err(error),
            ThreadEnd::Panicked => Err(
                WindowsError::new(E_FAIL, "Failed to join encoder thread".to_owned()),
            ),
        }
    }

    /// Whether there is no thread that runs.
    pub fn is_finished(&self, thread_finished: bool) -> (r: bool)
        ensures
            r == (!self.has_thread || thread_finished),
    {
        !self.has_thread || thread_finished
    }
}

} // verus!
