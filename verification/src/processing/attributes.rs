//! Attributes of media types and of encoders.
use crate::types::Guid;
use vstd::prelude::*;

verus! {

/// What an attribute is about.
#[derive(Debug, Clone, Copy, PartialEq, Eq, Structural)]
pub enum AttributeKey {
    /// Video or audio.
    MajorType,
    /// The format.
    Subtype,
    /// The frame rate, as a pair.
    FrameRate,
    /// The size of a frame, as a pair.
    FrameSize,
    /// The aspect ratio of a pixel, as a pair.
    PixelAspectRatio,
    /// Whether the lines of a frame come at once.
    InterlaceMode,
    /// The profile of the encoder.
    VideoProfile,
    /// Whether every sample stands for itself.
    AllSamplesIndependent,
    /// Bytes per line.
    DefaultStride,
    /// Bits per second.
    AvgBitrate,
    /// Bits per audio sample.
    AudioBitsPerSample,
    /// Audio frames per second.
    AudioSamplesPerSecond,
    /// The number of audio channels.
    AudioNumChannels,
    /// Bytes of audio per second.
    AudioAvgBytesPerSecond,
    /// How the encoder spends its bits.
    RateControlMode,
    /// Bits per second on average.
    MeanBitRate,
    /// The number of pictures that depend on later ones.
    BPictureCount,
    /// The quality in percent.
    Quality,
    /// Whether samples come out with little delay.
    LowLatency,
    /// Whether the hardware may be used.
    HardwareTransforms,
    /// Whether writing may run ahead.
    DisableThrottling,
}

/// The value of an attribute.
#[derive(Debug, Clone, Copy, PartialEq, Eq, Structural)]
pub enum AttributeValue {
    /// An identifier.
    Id(Guid),
    /// A number.
    Number(u32),
    /// A pair of numbers in one.
    Pair(u64),
}

/// An attribute and its value.
pub type Attribute = (AttributeKey, AttributeValue);

/// Two numbers in one: the first in the upper 32 bits, the second in the lower.
pub open spec fn packed(high: u32, low: u32) -> int {
    high * 0x1_0000_0000 + low
}

/// Packs two numbers into one.
pub fn pack_2_u32_as_u64(high: u32, low: u32) -> (r: u64)
    ensures
        r == packed(high, low),
{
    assert(((high as u64) << 32) | (low as u64) == (high as u64) * 0x1_0000_0000 + (low as u64))
        by (bit_vector);
    ((high as u64) << 32) | low as u64
}

/// The two numbers can be told apart again.
pub proof fn packing_keeps_both(high: u32, low: u32)
    ensures
        packed(high, low) / 0x1_0000_0000 == high,
        packed(high, low) % 0x1_0000_0000 == low,
        0 <= packed(high, low) <= u64::MAX,
{
}

/// A pair of numbers as a value.
pub open spec fn pair_value(high: u32, low: u32) -> AttributeValue {
    AttributeValue::Pair(packed(high, low) as u64)
}

/// A pair of numbers as a value.
pub fn pair(high: u32, low: u32) -> (r: AttributeValue)
    ensures
        r == pair_value(high, low),
{
    AttributeValue::Pair(pack_2_u32_as_u64(high, low))
}

/// An identifier as a value.
pub open spec fn id_value(value: u128) -> AttributeValue {
    AttributeValue::Id(Guid { value })
}

/// An identifier as a value.
pub fn id(value: u128) -> (r: AttributeValue)
    ensures
        r == id_value(value),
{
    AttributeValue::Id(Guid { value })
}

/// The identifier of video.
pub const MEDIA_TYPE_VIDEO: u128 = 0x73646976_0000_0010_8000_00aa00389b71;

/// The identifier of audio.
pub const MEDIA_TYPE_AUDIO: u128 = 0x73647561_0000_0010_8000_00aa00389b71;

/// The identifier of NV12 pictures.
pub const VIDEO_FORMAT_NV12: u128 = 0x3231564e_0000_0010_8000_00aa00389b71;

/// The identifier of pictures with four bytes per pixel.
pub const VIDEO_FORMAT_ARGB32: u128 = 0x00000015_0000_0010_8000_00aa00389b71;

/// The identifier of AAC audio.
pub const AUDIO_FORMAT_AAC: u128 = 0x00001610_0000_0010_8000_00aa00389b71;

/// All lines of a frame come at once.
pub const INTERLACE_PROGRESSIVE: u32 = 2;

/// The lines of a frame come at once, or in two halves.
pub const INTERLACE_MIXED: u32 = 7;

/// A pair of numbers as a value has both numbers in it, the first one in the upper
/// 32 bits.
pub proof fn pairs_hold_both_numbers(high: u32, low: u32)
    ensures
        pair_value(high, low) matches AttributeValue::Pair(value) && value as int / 0x1_0000_0000
            == high && value as int % 0x1_0000_0000 == low,
{
}

/// The identifiers and the modes are those that the system knows.
pub proof fn identifiers_are_the_systems()
    ensures
        MEDIA_TYPE_VIDEO == 0x73646976_0000_0010_8000_00aa00389b71,
        MEDIA_TYPE_AUDIO == 0x73647561_0000_0010_8000_00aa00389b71,
        VIDEO_FORMAT_NV12 == 0x3231564e_0000_0010_8000_00aa00389b71,
        VIDEO_FORMAT_ARGB32 == 0x00000015_0000_0010_8000_00aa00389b71,
        AUDIO_FORMAT_AAC == 0x00001610_0000_0010_8000_00aa00389b71,
        INTERLACE_PROGRESSIVE == 2,
        INTERLACE_MIXED == 7,
{
}

} // verus!
