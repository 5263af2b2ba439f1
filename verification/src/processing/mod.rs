//! Processing of captured samples.
pub mod attributes;
pub mod audio;
pub mod audio_mixer;
pub mod encode_loop;
pub mod encoder;
pub mod encoder_setup;
pub mod media;
pub mod mixed_sample;
pub mod pcm;
pub mod process;
pub mod processor;
pub mod sync_mixer;
pub mod video;
