//! The settings of one run.

use vstd::prelude::*;

verus! {

/// Which video to read, where to write, and how long the short is.
#[derive(Clone, Debug)]
pub struct VideoConfig {
    pub input_path: String,
    pub output_path: String,
    pub short_duration_secs: u64,
    pub output_width: Option<u32>,
    pub output_height: Option<u32>,
}

/// Whether subtitles are made, with which model, and how they look.
#[derive(Clone, Debug)]
pub struct SubtitleConfig {
    pub use_subtitles: bool,
    pub whisper_model_path: String,
    pub font_path: String,
    pub font_size: u32,
    pub font_color: String,
    pub subtitle_position_vertical_alignment: String,
    pub subtitle_position_horizontal_alignment: String,
}

/// All settings of one run.
#[derive(Clone, Debug)]
pub struct AppConfig {
    pub video: VideoConfig,
    pub subtitles: SubtitleConfig,
}

} // verus!
