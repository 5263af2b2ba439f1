//! Capturing of windows and sound.
pub mod audio;
pub mod cursor;
pub mod dxgi;
pub mod frame;
pub mod microphone;
pub mod monitor;
pub mod packets;
pub mod start;
pub mod tracker;
pub mod video;
pub mod window;

pub use monitor::{get_primary_monitor_resolution, get_window_monitor_resolution};
pub use window::{get_window_by_exact_string, get_window_by_string};
