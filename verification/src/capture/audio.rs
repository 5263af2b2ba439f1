//! System audio: its format and its samples.
use vstd::prelude::*;

verus! {

/// The format of pulse code modulation.
pub const WAVE_FORMAT_PCM: u16 = 1;

/// The flag of a packet that holds silence.
pub const BUFFERFLAGS_SILENT: u32 = 2;

/// The format of captured sound.
#[derive(Debug, Clone, Copy, PartialEq, Eq, Structural)]
pub struct WaveFormat {
    /// The encoding.
    pub format_tag: u16,
    /// The number of channels.
    pub channels: u16,
    /// Frames per second.
    pub samples_per_sec: u32,
    /// Bytes per second.
    pub avg_bytes_per_sec: u32,
    /// Bytes per frame.
    pub block_align: u16,
    /// Bits per sample of one channel.
    pub bits_per_sample: u16,
    /// The number of bytes that follow.
    pub extra_size: u16,
}

/// Two channels of 16 bits at 44100 frames per second.
pub open spec fn capture_format() -> WaveFormat {
    WaveFormat {
        format_tag: 1,
        channels: 2,
        samples_per_sec: 44100,
        avg_bytes_per_sec: 176400,
        block_align: 4,
        bits_per_sample: 16,
        extra_size: 0,
    }
}

impl WaveFormat {
    /// Whether the sizes in the format fit together.
    pub open spec fn is_consistent(self) -> bool {
        &&& self.block_align == self.channels * self.bits_per_sample / 8
        &&& self.avg_bytes_per_sec == self.samples_per_sec * self.block_align
    }

    /// The format that sound is captured in: two channels of 16 bits at 44100
    /// frames per second.
    pub fn capture() -> (r: Self)
        ensures
            r == capture_format(),
            r.is_consistent(),
    {
        WaveFormat {
            format_tag: WAVE_FORMAT_PCM,
            channels: 2,
            samples_per_sec: 44100,
            avg_bytes_per_sec: 176400,
            block_align: 4,
            bits_per_sample: 16,
            extra_size: 0,
        }
    }

    /// The duration of one frame in units of 100 nanoseconds, rounded down
    /// from whole nanoseconds.
    pub open spec fn frame_hns(self) -> int {
        1_000_000_000int / self.samples_per_sec as int / 100
    }

    /// Computes `frame_hns`.
    pub fn packet_duration_hns(&self) -> (r: i64)
        requires
            self.samples_per_sec > 0,
        ensures
            r == self.frame_hns(),
            0 <= r <= 10_000_000,
    {
        let nanos: u64 = 1_000_000_000 / self.samples_per_sec as u64;
        assert(nanos <= 1_000_000_000) by (nonlinear_arith)
            requires
                nanos == 1_000_000_000u64 / (self.samples_per_sec as u64),
                self.samples_per_sec > 0,
        ;
        nanos as i64 / 100
    }
}

/// Whether a packet holds something other than silence.
pub open spec fn is_audible(flags: u32) -> bool {
    flags & 2 == 0
}

/// Computes `is_audible`.
pub fn has_sound(flags: u32) -> (r: bool)
    ensures
        r == is_audible(flags),
{
    flags & BUFFERFLAGS_SILENT == 0
}

/// A sample that is to be made of a packet.
#[derive(Debug, Clone, Copy, PartialEq, Eq, Structural)]
pub struct SamplePlan {
    /// The number of bytes to copy.
    pub size: u32,
    /// The time stamp in units of 100 nanoseconds.
    pub time: i64,
    /// The duration in units of 100 nanoseconds.
    pub duration: i64,
}

/// The sample that is to be made of a packet of frames.
pub fn create_audio_sample(
    num_frames: u32,
    wave_format: &WaveFormat,
    time_hns: i64,
    packet_duration_hns: i64,
) -> (r: SamplePlan)
    requires
        num_frames * wave_format.block_align <= u32::MAX,
        i64::MIN <= num_frames * packet_duration_hns <= i64::MAX,
    ensures
        r.size == num_frames * wave_format.block_align,
        r.time == time_hns,
        r.duration == num_frames * packet_duration_hns,
{
    SamplePlan {
        size: num_frames * wave_format.block_align as u32,
        time: time_hns,
        duration: num_frames as i64 * packet_duration_hns,
    }
}

/// A packet has sound unless the second lowest bit of its flags is set, whatever
/// the other bits are.
pub proof fn one_flag_tells_silence(flags: u32)
    ensures
        is_audible(flags) <==> flags % 4 < 2,
{
    assert(flags & 2 == 0 <==> flags % 4 < 2) by (bit_vector);
}

/// A frame of captured sound lasts 226 units of 100 nanoseconds, and has four
/// bytes.
pub proof fn frames_of_captured_sound()
    ensures
        capture_format().frame_hns() == 226,
        capture_format().block_align == 4,
        capture_format().samples_per_sec == 44100,
        capture_format().channels == 2,
        capture_format().bits_per_sample == 16,
{
}

} // verus!
