//! The settings of a recording.
use crate::device::video::VideoEncoderType;
use crate::types::Guid;
use vstd::prelude::*;

verus! {

/// A volume, as the 32 bits of a single-precision number.
#[derive(Debug, Clone, Copy, PartialEq, Eq, Structural)]
pub struct Volume {
    /// The bits.
    pub bits: u32,
}

/// The bits of one, at which sound keeps its volume.
pub const FULL_VOLUME_BITS: u32 = 0x3f80_0000;

/// A volume that was set, or the one at which sound keeps its own.
pub open spec fn volume_or_full(volume: Option<Volume>) -> Volume {
    match volume {
        Some(volume) => volume,
        None => Volume { bits: FULL_VOLUME_BITS },
    }
}

/// Which system audio is recorded.
#[derive(Debug, Clone, Copy, PartialEq, Eq, Structural)]
pub enum AudioSource {
    /// All of it.
    Desktop,
    /// That of the recorded window.
    ActiveWindow,
}

impl Default for AudioSource {
    /// All of it.
    fn default() -> (r: Self)
        ensures
            r == AudioSource::Desktop,
    {
        AudioSource::Desktop
    }
}

/// The settings of a recording.
#[derive(Debug, Clone)]
pub struct RecorderConfig {
    /// Frames per `fps_den` seconds.
    pub fps_num: u32,
    /// The seconds that `fps_num` frames take.
    pub fps_den: u32,
    /// The width of the captured picture.
    pub input_width: u32,
    /// The height of the captured picture.
    pub input_height: u32,
    /// The width of the recorded picture.
    pub output_width: u32,
    /// The height of the recorded picture.
    pub output_height: u32,
    /// Bits of video per second.
    pub video_bitrate: u32,
    /// The identifier of the encoder, if one is asked for.
    pub encoder: Option<Guid>,
    /// The kind of video encoder.
    pub video_encoder: VideoEncoderType,
    /// The name of the video encoder, if one is asked for.
    pub video_encoder_name: Option<String>,
    /// Whether the cursor is part of the recording.
    pub capture_cursor: bool,
    /// Whether system audio is recorded.
    pub capture_audio: bool,
    /// Whether the microphone is recorded.
    pub capture_microphone: bool,
    /// The volume of the microphone, if it is to be changed.
    pub microphone_volume: Option<Volume>,
    /// The volume of system audio, if it is to be changed.
    pub system_volume: Option<Volume>,
    /// The name of the microphone, if one is asked for.
    pub microphone_device: Option<String>,
    /// Which system audio is recorded.
    pub audio_source: AudioSource,
    /// The file that is recorded to.
    pub output_path: String,
    /// Whether details are logged.
    pub debug_mode: bool,
    /// Whether the last stretch of the recording is kept at hand.
    pub enable_replay_buffer: bool,
    /// How many seconds that stretch is long.
    pub replay_buffer_seconds: u32,
}

impl RecorderConfig {
    /// Whether these are the settings of a recording that nothing was said
    /// about: 60 frames per second of 1920 by 1080 pixels, with the audio of
    /// the window, to the current directory.
    pub open spec fn is_default(self) -> bool {
        &&& self.fps_num == 60
        &&& self.fps_den == 1
        &&& self.input_width == 1920
        &&& self.input_height == 1080
        &&& self.output_width == 1920
        &&& self.output_height == 1080
        &&& self.video_bitrate == 5_000_000
        &&& self.encoder is None
        &&& self.video_encoder == VideoEncoderType::H264
        &&& self.video_encoder_name is None
        &&& self.capture_cursor
        &&& self.capture_audio
        &&& !self.capture_microphone
        &&& self.microphone_volume is None
        &&& self.system_volume is None
        &&& self.microphone_device is None
        &&& self.audio_source == AudioSource::ActiveWindow
        &&& self.output_path@ == "."@
        &&& !self.debug_mode
        &&& !self.enable_replay_buffer
        &&& self.replay_buffer_seconds == 30
    }
}

impl Default for RecorderConfig {
    /// The settings of a recording that nothing was said about.
    fn default() -> (r: Self)
        ensures
            r.is_default(),
    {
        RecorderConfig {
            fps_num: 60,
            fps_den: 1,
            input_width: 1920,
            input_height: 1080,
            output_width: 1920,
            output_height: 1080,
            video_bitrate: 5_000_000,
            encoder: None,
            video_encoder: VideoEncoderType::H264,
            video_encoder_name: None,
            capture_cursor: true,
            capture_audio: true,
            capture_microphone: false,
            microphone_volume: None,
            system_volume: None,
            microphone_device: None,
            audio_source: AudioSource::ActiveWindow,
            output_path: ".".to_owned(),
            debug_mode: false,
            enable_replay_buffer: false,
            replay_buffer_seconds: 30,
        }
    }
}

impl RecorderConfig {
    /// A builder that starts from the default settings.
    pub fn builder() -> (r: RecorderConfigBuilder)
        ensures
            r.config.is_default(),
    {
        RecorderConfigBuilder::new()
    }

    /// Frames per `fps_den` seconds.
    pub fn fps_num(&self) -> (r: u32)
        ensures
            r == self.fps_num,
    {
        self.fps_num
    }

    /// The seconds that `fps_num` frames take.
    pub fn fps_den(&self) -> (r: u32)
        ensures
            r == self.fps_den,
    {
        self.fps_den
    }

    /// The width of the captured picture.
    pub fn input_width(&self) -> (r: u32)
        ensures
            r == self.input_width,
    {
        self.input_width
    }

    /// The height of the captured picture.
    pub fn input_height(&self) -> (r: u32)
        ensures
            r == self.input_height,
    {
        self.input_height
    }

    /// The width of the recorded picture.
    pub fn output_width(&self) -> (r: u32)
        ensures
            r == self.output_width,
    {
        self.output_width
    }

    /// The height of the recorded picture.
    pub fn output_height(&self) -> (r: u32)
        ensures
            r == self.output_height,
    {
        self.output_height
    }

    /// Bits of video per second.
    pub fn video_bitrate(&self) -> (r: u32)
        ensures
            r == self.video_bitrate,
    {
        self.video_bitrate
    }

    /// The identifier of the encoder, if one is asked for.
    pub fn encoder(&self) -> (r: Option<Guid>)
        ensures
            r == self.encoder,
    {
        self.encoder
    }

    /// The kind of video encoder.
    pub fn video_encoder(&self) -> (r: &VideoEncoderType)
        ensures
            *r == self.video_encoder,
    {
        &self.video_encoder
    }

    /// The name of the video encoder, if one is asked for.
    pub fn video_encoder_name(&self) -> (r: &Option<String>)
        ensures
            *r == self.video_encoder_name,
    {
        &self.video_encoder_name
    }

    /// Whether the cursor is part of the recording.
    pub fn capture_cursor(&self) -> (r: bool)
        ensures
            r == self.capture_cursor,
    {
        self.capture_cursor
    }

    /// Whether system audio is recorded.
    pub fn capture_audio(&self) -> (r: bool)
        ensures
            r == self.capture_audio,
    {
        self.capture_audio
    }

    /// Whether the microphone is recorded.
    pub fn capture_microphone(&self) -> (r: bool)
        ensures
            r == self.capture_microphone,
    {
        self.capture_microphone
    }

    /// The volume of the microphone, if it is to be changed.
    pub fn microphone_volume(&self) -> (r: Option<Volume>)
        ensures
            r == self.microphone_volume,
    {
        self.microphone_volume
    }

    /// The volume of system audio, if it is to be changed.
    pub fn system_volume(&self) -> (r: Option<Volume>)
        ensures
            r == self.system_volume,
    {
        self.system_volume
    }

    /// The volume that system audio is recorded at: its own, unless it is to be
    /// changed.
    pub fn system_gain(&self) -> (r: Volume)
        ensures
            r == volume_or_full(self.system_volume),
    {
        match self.system_volume {
            Some(volume) => volume,
            None => Volume { bits: FULL_VOLUME_BITS },
        }
    }

    /// The volume that the microphone is recorded at: its own, unless it is to
    /// be changed.
    pub fn microphone_gain(&self) -> (r: Volume)
        ensures
            r == volume_or_full(self.microphone_volume),
    {
        match self.microphone_volume {
            Some(volume) => volume,
            None => Volume { bits: FULL_VOLUME_BITS },
        }
    }

    /// The name of the microphone, if one is asked for.
    pub fn microphone_device(&self) -> (r: &Option<String>)
        ensures
            *r == self.microphone_device,
    {
        &self.microphone_device
    }

    /// Which system audio is recorded.
    pub fn audio_source(&self) -> (r: &AudioSource)
        ensures
            *r == self.audio_source,
    {
        &self.audio_source
    }

    /// The file that is recorded to.
    pub fn output_path(&self) -> (r: &String)
        ensures
            *r == self.output_path,
    {
        &self.output_path
    }

    /// Whether details are logged.
    pub fn debug_mode(&self) -> (r: bool)
        ensures
            r == self.debug_mode,
    {
        self.debug_mode
    }

    /// Whether the last stretch of the recording is kept at hand.
    pub fn enable_replay_buffer(&self) -> (r: bool)
        ensures
            r == self.enable_replay_buffer,
    {
        self.enable_replay_buffer
    }

    /// How many seconds that stretch is long.
    pub fn replay_buffer_seconds(&self) -> (r: u32)
        ensures
            r == self.replay_buffer_seconds,
    {
        self.replay_buffer_seconds
    }
}

/// Builds the settings of a recording, step by step.
pub struct RecorderConfigBuilder {
    /// The settings so far.
    pub config: RecorderConfig,
}

impl Default for RecorderConfigBuilder {
    /// A builder that starts from the default settings.
    fn default() -> (r: Self)
        ensures
            r.config.is_default(),
    {
        RecorderConfigBuilder { config: RecorderConfig::default() }
    }
}

impl RecorderConfigBuilder {
    /// A builder that starts from the default settings.
    pub fn new() -> (r: Self)
        ensures
            r.config.is_default(),
    {
        RecorderConfigBuilder::default()
    }

    /// Sets the frame rate to `num / den` frames per second.
    pub fn fps(self, num: u32, den: u32) -> (r: Self)
        ensures
            r.config == (RecorderConfig { fps_num: num, fps_den: den, ..self.config }),
    {
        RecorderConfigBuilder {
            config: RecorderConfig { fps_num: num, fps_den: den, ..self.config },
        }
    }

    /// Sets the size of the captured picture.
    pub fn input_dimensions(self, width: u32, height: u32) -> (r: Self)
        ensures
            r.config == (RecorderConfig {
                input_width: width,
                input_height: height,
                ..self.config
            }),
    {
        RecorderConfigBuilder {
            config: RecorderConfig { input_width: width, input_height: height, ..self.config },
        }
    }

    /// Sets the size of the recorded picture.
    pub fn output_dimensions(self, width: u32, height: u32) -> (r: Self)
        ensures
            r.config == (RecorderConfig {
                output_width: width,
                output_height: height,
                ..self.config
            }),
    {
        RecorderConfigBuilder {
            config: RecorderConfig { output_width: width, output_height: height, ..self.config },
        }
    }

    /// Sets whether system audio is recorded.
    pub fn capture_audio(self, enabled: bool) -> (r: Self)
        ensures
            r.config == (RecorderConfig { capture_audio: enabled, ..self.config }),
    {
        RecorderConfigBuilder { config: RecorderConfig { capture_audio: enabled, ..self.config } }
    }

    /// Sets whether the microphone is recorded.
    pub fn capture_microphone(self, enabled: bool) -> (r: Self)
        ensures
            r.config == (RecorderConfig { capture_microphone: enabled, ..self.config }),
    {
        RecorderConfigBuilder { config: RecorderConfig { capture_microphone: enabled, ..self.config } }
    }

    /// Sets the file that is recorded to.
    pub fn output_path(self, path: &str) -> (r: Self)
        ensures
            r.config == (RecorderConfig { output_path: r.config.output_path, ..self.config }),
            r.config.output_path@ == path@,
    {
        RecorderConfigBuilder {
            config: RecorderConfig { output_path: path.to_owned(), ..self.config },
        }
    }

    /// Sets whether details are logged.
    pub fn debug_mode(self, enabled: bool) -> (r: Self)
        ensures
            r.config == (RecorderConfig { debug_mode: enabled, ..self.config }),
    {
        RecorderConfigBuilder { config: RecorderConfig { debug_mode: enabled, ..self.config } }
    }

    /// Sets how many bits of video there are per second.
    pub fn video_bitrate(self, video_bitrate: u32) -> (r: Self)
        ensures
            r.config == (RecorderConfig { video_bitrate: video_bitrate, ..self.config }),
    {
        RecorderConfigBuilder { config: RecorderConfig { video_bitrate: video_bitrate, ..self.config } }
    }

    /// Sets the volume of the microphone.
    pub fn microphone_volume(self, volume: Option<Volume>) -> (r: Self)
        ensures
            r.config == (RecorderConfig { microphone_volume: volume, ..self.config }),
    {
        RecorderConfigBuilder { config: RecorderConfig { microphone_volume: volume, ..self.config } }
    }

    /// Sets the identifier of the encoder.
    pub fn encoder(self, encoder: Option<Guid>) -> (r: Self)
        ensures
            r.config == (RecorderConfig { encoder: encoder, ..self.config }),
    {
        RecorderConfigBuilder { config: RecorderConfig { encoder: encoder, ..self.config } }
    }

    /// Sets the kind of video encoder.
    pub fn video_encoder(self, video_encoder: VideoEncoderType) -> (r: Self)
        ensures
            r.config == (RecorderConfig { video_encoder: video_encoder, ..self.config }),
    {
        RecorderConfigBuilder { config: RecorderConfig { video_encoder: video_encoder, ..self.config } }
    }

    /// Sets the name of the video encoder.
    pub fn video_encoder_name(self, name: &str) -> (r: Self)
        ensures
            r.config == (RecorderConfig { video_encoder_name: r.config.video_encoder_name, ..self.config }),
            r.config.video_encoder_name matches Some(n) && n@ == name@,
    {
        RecorderConfigBuilder {
            config: RecorderConfig { video_encoder_name: Some(name.to_owned()), ..self.config },
        }
    }

    /// Sets the name of the microphone.
    pub fn microphone_device(self, name: Option<&str>) -> (r: Self)
        ensures
            r.config == (RecorderConfig {
                microphone_device: r.config.microphone_device,
                ..self.config
            }),
            match name {
                Some(wanted) => r.config.microphone_device matches Some(n) && n@ == wanted@,
                None => r.config.microphone_device is None,
            },
    {
        let device = match name {
            Some(name) => Some(name.to_owned()),
            None => None,
        };
        RecorderConfigBuilder { config: RecorderConfig { microphone_device: device, ..self.config } }
    }

    /// Sets whether the cursor is part of the recording.
    pub fn capture_cursor(self, enabled: bool) -> (r: Self)
        ensures
            r.config == (RecorderConfig { capture_cursor: enabled, ..self.config }),
    {
        RecorderConfigBuilder { config: RecorderConfig { capture_cursor: enabled, ..self.config } }
    }

    /// Sets which system audio is recorded.
    pub fn audio_source(self, source: AudioSource) -> (r: Self)
        ensures
            r.config == (RecorderConfig { audio_source: source, ..self.config }),
    {
        RecorderConfigBuilder { config: RecorderConfig { audio_source: source, ..self.config } }
    }

    /// Sets the volume of system audio.
    pub fn system_volume(self, volume: Option<Volume>) -> (r: Self)
        ensures
            r.config == (RecorderConfig { system_volume: volume, ..self.config }),
    {
        RecorderConfigBuilder { config: RecorderConfig { system_volume: volume, ..self.config } }
    }

    /// Sets whether the last stretch of the recording is kept at hand.
    pub fn enable_replay_buffer(self, enabled: bool) -> (r: Self)
        ensures
            r.config == (RecorderConfig { enable_replay_buffer: enabled, ..self.config }),
    {
        RecorderConfigBuilder { config: RecorderConfig { enable_replay_buffer: enabled, ..self.config } }
    }

    /// Sets how many seconds that stretch is long.
    pub fn replay_buffer_seconds(self, seconds: u32) -> (r: Self)
        ensures
            r.config == (RecorderConfig { replay_buffer_seconds: seconds, ..self.config }),
    {
        RecorderConfigBuilder { config: RecorderConfig { replay_buffer_seconds: seconds, ..self.config } }
    }

    /// The settings.
    pub fn build(self) -> (r: RecorderConfig)
        ensures
            r == self.config,
    {
        self.config
    }
}

/// Sound keeps its volume unless another one was set.
pub proof fn volume_is_full_unless_set(volume: Option<Volume>)
    ensures
        volume is None ==> volume_or_full(volume).bits == 0x3f80_0000,
        volume is Some ==> Some(volume_or_full(volume)) == volume,
{
}

} // verus!
