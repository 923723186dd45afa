//! Verified core of a real-time audio spectrum visualizer: colour
//! presets and their resolution, media-metadata text handling, audio
//! device bookkeeping and the decisions taken by the capture and analysis
//! loops.

pub mod text;
pub mod url;
pub mod media;
pub mod colors;
pub mod audio_device;
pub mod pipewire;
pub mod fft_config;
pub mod update_check;
pub mod capture_control;
pub mod gui_state;
