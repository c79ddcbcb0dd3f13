//! Planning and rules for cutting a short out of a video: stream selection,
//! muxer options, the packet relay, and subtitle styling.

pub mod alignment;
pub mod color;
pub mod config;
pub mod operation;
pub mod pipeline;
pub mod relay;
pub mod streams;
pub mod style;
pub mod subtitle_generation;
pub mod text;
pub mod video_processing;

pub use config::{AppConfig, SubtitleConfig, VideoConfig};
pub use subtitle_generation::generate_subtitle_file;
pub use video_processing::{burn_subtitles, extract_audio, init_ffmpeg, trim_video};
