//! Window recording.
//!
//! The library decides; it performs no input or output. What has to be done
//! comes out of it as plain values and actions, and what came of it goes back
//! in as plain values and replies.
pub mod capture;
pub mod device;
pub mod error;
pub mod logger;
pub mod processing;
pub mod recorder;
pub mod types;

pub use device::video::{enumerate_video_encoders, VideoEncoder, VideoEncoderType};
pub use error::{RecorderError, Result};
pub use recorder::{AudioSource, Recorder, RecorderConfig, RecorderConfigBuilder};
