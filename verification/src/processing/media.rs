//! The streams of a file, and the attributes of what goes in and out.
use crate::device::video::{VIDEO_FORMAT_H264, VIDEO_FORMAT_HEVC};
use crate::processing::attributes::{
    id, id_value, pair, pair_value, Attribute, AttributeKey, AttributeValue, AUDIO_FORMAT_AAC,
    INTERLACE_PROGRESSIVE, MEDIA_TYPE_AUDIO, MEDIA_TYPE_VIDEO, VIDEO_FORMAT_NV12,
};
use crate::types::Guid;
use vstd::prelude::*;

verus! {

/// The High profile of H.264.
pub const H264_PROFILE_HIGH: u32 = 100;

/// The Main profile of H.265.
pub const HEVC_PROFILE_MAIN: u32 = 1;

/// The bit rate may vary over the whole stream.
pub const RATE_CONTROL_GLOBAL_VBR: u32 = 5;

/// The stream of the video.
pub const VIDEO_STREAM_INDEX: u32 = 0;

/// The stream of the audio, where there is one.
pub const AUDIO_STREAM_INDEX: u32 = 1;

/// The stream of the audio, if there is one: system audio and the microphone
/// share a stream.
pub open spec fn audio_stream(capture_audio: bool, capture_microphone: bool) -> Option<u32> {
    if capture_audio || capture_microphone {
        Some(1)
    } else {
        None
    }
}

/// The stream of the audio, if there is one.
pub fn audio_stream_index(capture_audio: bool, capture_microphone: bool) -> (r: Option<u32>)
    ensures
        r == audio_stream(capture_audio, capture_microphone),
{
    if capture_audio || capture_microphone {
        Some(1)
    } else {
        None
    }
}

/// The attributes of a file.
pub fn create_sink_attributes() -> (r: Vec<Attribute>)
    ensures
        r@ == seq![
            (AttributeKey::HardwareTransforms, AttributeValue::Number(1)),
            (AttributeKey::DisableThrottling, AttributeValue::Number(1)),
        ],
{
    let mut list: Vec<Attribute> = Vec::new();
    list.push((AttributeKey::HardwareTransforms, AttributeValue::Number(1)));
    list.push((AttributeKey::DisableThrottling, AttributeValue::Number(1)));
    list
}

/// The attribute that tells the profile of an encoder, if it has one.
pub open spec fn profile_attribute(format: Guid) -> Seq<Attribute> {
    if format.value == VIDEO_FORMAT_H264 {
        seq![(AttributeKey::VideoProfile, AttributeValue::Number(H264_PROFILE_HIGH))]
    } else if format.value == VIDEO_FORMAT_HEVC {
        seq![(AttributeKey::VideoProfile, AttributeValue::Number(HEVC_PROFILE_MAIN))]
    } else {
        seq![]
    }
}

/// The attributes of the video in the file.
pub fn create_video_output_type(
    fps_num: u32,
    fps_den: u32,
    output_width: u32,
    output_height: u32,
    video_encoder_id: &Guid,
) -> (r: Vec<Attribute>)
    ensures
        r@ == seq![
            (AttributeKey::MajorType, id_value(MEDIA_TYPE_VIDEO)),
            (AttributeKey::Subtype, AttributeValue::Id(*video_encoder_id)),
            (AttributeKey::FrameRate, pair_value(fps_num, fps_den)),
            (AttributeKey::FrameSize, pair_value(output_width, output_height)),
            (AttributeKey::PixelAspectRatio, pair_value(1, 1)),
            (AttributeKey::InterlaceMode, AttributeValue::Number(INTERLACE_PROGRESSIVE)),
        ] + profile_attribute(*video_encoder_id),
{
    let mut list: Vec<Attribute> = Vec::new();
    list.push((AttributeKey::MajorType, id(MEDIA_TYPE_VIDEO)));
    list.push((AttributeKey::Subtype, AttributeValue::Id(*video_encoder_id)));
    list.push((AttributeKey::FrameRate, pair(fps_num, fps_den)));
    list.push((AttributeKey::FrameSize, pair(output_width, output_height)));
    list.push((AttributeKey::PixelAspectRatio, pair(1, 1)));
    list.push((AttributeKey::InterlaceMode, AttributeValue::Number(INTERLACE_PROGRESSIVE)));
    if video_encoder_id.value == VIDEO_FORMAT_H264 {
        list.push((AttributeKey::VideoProfile, AttributeValue::Number(H264_PROFILE_HIGH)));
    } else if video_encoder_id.value == VIDEO_FORMAT_HEVC {
        list.push((AttributeKey::VideoProfile, AttributeValue::Number(HEVC_PROFILE_MAIN)));
    }
    list
}

/// The attributes of the video that goes into the file.
pub fn create_video_input_type(
    fps_num: u32,
    fps_den: u32,
    output_width: u32,
    output_height: u32,
) -> (r: Vec<Attribute>)
    ensures
        r@ == seq![
            (AttributeKey::MajorType, id_value(MEDIA_TYPE_VIDEO)),
            (AttributeKey::Subtype, id_value(VIDEO_FORMAT_NV12)),
            (AttributeKey::FrameRate, pair_value(fps_num, fps_den)),
            (AttributeKey::FrameSize, pair_value(output_width, output_height)),
            (AttributeKey::InterlaceMode, AttributeValue::Number(INTERLACE_PROGRESSIVE)),
            (AttributeKey::AllSamplesIndependent, AttributeValue::Number(1)),
            (AttributeKey::PixelAspectRatio, pair_value(1, 1)),
            (AttributeKey::DefaultStride, AttributeValue::Number(output_width)),
        ],
{
    let mut list: Vec<Attribute> = Vec::new();
    list.push((AttributeKey::MajorType, id(MEDIA_TYPE_VIDEO)));
    list.push((AttributeKey::Subtype, id(VIDEO_FORMAT_NV12)));
    list.push((AttributeKey::FrameRate, pair(fps_num, fps_den)));
    list.push((AttributeKey::FrameSize, pair(output_width, output_height)));
    list.push((AttributeKey::InterlaceMode, AttributeValue::Number(INTERLACE_PROGRESSIVE)));
    list.push((AttributeKey::AllSamplesIndependent, AttributeValue::Number(1)));
    list.push((AttributeKey::PixelAspectRatio, pair(1, 1)));
    list.push((AttributeKey::DefaultStride, AttributeValue::Number(output_width)));
    list
}

/// The settings of the encoder.
pub fn create_encoder_config(video_bitrate: u32) -> (r: Vec<Attribute>)
    ensures
        r@ == seq![
            (AttributeKey::RateControlMode, AttributeValue::Number(RATE_CONTROL_GLOBAL_VBR)),
            (AttributeKey::MeanBitRate, AttributeValue::Number(video_bitrate)),
            (AttributeKey::BPictureCount, AttributeValue::Number(0)),
            (AttributeKey::Quality, AttributeValue::Number(70)),
            (AttributeKey::LowLatency, AttributeValue::Number(1)),
        ],
{
    let mut list: Vec<Attribute> = Vec::new();
    list.push((AttributeKey::RateControlMode, AttributeValue::Number(RATE_CONTROL_GLOBAL_VBR)));
    list.push((AttributeKey::MeanBitRate, AttributeValue::Number(video_bitrate)));
    list.push((AttributeKey::BPictureCount, AttributeValue::Number(0)));
    list.push((AttributeKey::Quality, AttributeValue::Number(70)));
    list.push((AttributeKey::LowLatency, AttributeValue::Number(1)));
    list
}

/// The attributes of the audio in the file.
pub fn create_audio_output_type() -> (r: Vec<Attribute>)
    ensures
        r@ == seq![
            (AttributeKey::MajorType, id_value(MEDIA_TYPE_AUDIO)),
            (AttributeKey::Subtype, id_value(AUDIO_FORMAT_AAC)),
            (AttributeKey::AudioBitsPerSample, AttributeValue::Number(16)),
            (AttributeKey::AudioSamplesPerSecond, AttributeValue::Number(44100)),
            (AttributeKey::AudioNumChannels, AttributeValue::Number(2)),
            (AttributeKey::AudioAvgBytesPerSecond, AttributeValue::Number(16000)),
        ],
{
    let mut list: Vec<Attribute> = Vec::new();
    list.push((AttributeKey::MajorType, id(MEDIA_TYPE_AUDIO)));
    list.push((AttributeKey::Subtype, id(AUDIO_FORMAT_AAC)));
    list.push((AttributeKey::AudioBitsPerSample, AttributeValue::Number(16)));
    list.push((AttributeKey::AudioSamplesPerSecond, AttributeValue::Number(44100)));
    list.push((AttributeKey::AudioNumChannels, AttributeValue::Number(2)));
    list.push((AttributeKey::AudioAvgBytesPerSecond, AttributeValue::Number(16000)));
    list
}

/// There is a stream for audio where any sound is recorded, and it is the second
/// one. The video has the first one.
pub proof fn sound_has_a_stream_of_its_own(capture_audio: bool, capture_microphone: bool)
    ensures
        audio_stream(capture_audio, capture_microphone) is Some <==> capture_audio
            || capture_microphone,
        audio_stream(capture_audio, capture_microphone) matches Some(stream) ==> stream == 1,
        VIDEO_STREAM_INDEX == 0,
        AUDIO_STREAM_INDEX == 1,
{
}

/// The profile is High for H.264 and Main for H.265, and left open for any other
/// format.
pub proof fn profiles_go_with_the_format(format: Guid)
    ensures
        format.value == 0x34363248_0000_0010_8000_00aa00389b71 ==> profile_attribute(format)
            == seq![(AttributeKey::VideoProfile, AttributeValue::Number(100))],
        format.value == 0x43564548_0000_0010_8000_00aa00389b71 ==> profile_attribute(format)
            == seq![(AttributeKey::VideoProfile, AttributeValue::Number(1))],
        format.value != 0x34363248_0000_0010_8000_00aa00389b71 && format.value
            != 0x43564548_0000_0010_8000_00aa00389b71 ==> profile_attribute(format).len() == 0,
{
}

} // verus!
