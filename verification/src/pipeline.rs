//! One run from a source video to a finished short: the names of the
//! working files and the order of the steps.

use crate::config::AppConfig;
use crate::subtitle_generation::optional_text;
use crate::text::{push_signed_decimal, signed_decimal_text};
use vstd::prelude::*;
use vstd::string::StringExecFns;

verus! {

/// One step of a run.
#[derive(Clone, Copy, Debug, PartialEq, Eq, Structural)]
pub enum PipelineStep {
    /// Cut the short out of the source video.
    TrimVideo,
    /// Take the audio out of the trimmed video.
    ExtractAudio,
    /// Have the subtitles made from the audio.
    GenerateSubtitles,
    /// Draw the subtitles into the trimmed video, giving the output.
    BurnSubtitles,
    /// Make the trimmed video the output as it is.
    MoveToOutput,
    /// Remove the working directory.
    CleanUp,
}

/// The stem that names the working files: the input file's, or `video`
/// where it has none.
pub open spec fn working_stem(input_stem: Option<Seq<char>>) -> Seq<char> {
    match input_stem {
        Some(stem) => stem,
        None => "video"@,
    }
}

/// The name of the working directory of a run that began at
/// `timestamp_millis`.
pub open spec fn temp_dir_name_text(stem: Seq<char>, timestamp_millis: int) -> Seq<char> {
    stem + "_processing_temp_"@ + signed_decimal_text(timestamp_millis)
}

/// The name of the trimmed video in the working directory.
pub open spec fn trimmed_video_name_text(stem: Seq<char>) -> Seq<char> {
    stem + "_trimmed.mp4"@
}

/// The name of the extracted audio in the working directory.
pub open spec fn extracted_audio_name_text(stem: Seq<char>) -> Seq<char> {
    stem + "_extracted_audio.wav"@
}

/// The steps of a run, in order: with subtitles the audio is extracted,
/// transcribed and burnt in; without, the trimmed video is the output.
pub open spec fn steps_of(use_subtitles: bool) -> Seq<PipelineStep> {
    if use_subtitles {
        seq![
            PipelineStep::TrimVideo,
            PipelineStep::ExtractAudio,
            PipelineStep::GenerateSubtitles,
            PipelineStep::BurnSubtitles,
            PipelineStep::CleanUp,
        ]
    } else {
        seq![PipelineStep::TrimVideo, PipelineStep::MoveToOutput, PipelineStep::CleanUp]
    }
}

/// What a run works with and in which order it proceeds.
#[derive(Clone, Debug)]
pub struct PipelinePlan {
    /// The working directory's name, inside the output file's directory.
    pub temp_dir_name: String,
    /// The trimmed video's name, inside the working directory.
    pub trimmed_video_name: String,
    /// The extracted audio's name, inside the working directory.
    pub extracted_audio_name: String,
    /// Where the short begins in the source, in seconds.
    pub trim_start_secs: u64,
    /// How long the short is, in seconds.
    pub trim_duration_secs: u64,
    /// The steps, in order.
    pub steps: Vec<PipelineStep>,
}

fn name_with(stem: &str, ending: &str) -> (name: String)
    ensures
        name@ == stem@ + ending@,
{
    let mut name = String::from_str(stem);
    name.append(ending);
    name
}

/// Plans a run. `input_stem` is the stem of the input file's name, if it
/// has one, and `timestamp_millis` the time at which the run begins, in
/// milliseconds since the Unix epoch.
pub fn plan_processing(config: &AppConfig, input_stem: Option<&str>, timestamp_millis: i64) -> (plan:
    PipelinePlan)
    ensures
        plan.temp_dir_name@ == temp_dir_name_text(
            working_stem(optional_text(input_stem)),
            timestamp_millis as int,
        ),
        plan.trimmed_video_name@ == trimmed_video_name_text(working_stem(optional_text(input_stem))),
        plan.extracted_audio_name@ == extracted_audio_name_text(
            working_stem(optional_text(input_stem)),
        ),
        plan.trim_start_secs == 0,
        plan.trim_duration_secs == config.video.short_duration_secs,
        plan.steps@ == steps_of(config.subtitles.use_subtitles),
{
    let stem = match input_stem {
        Some(stem) => stem,
        None => "video",
    };
    let mut temp_dir_name = name_with(stem, "_processing_temp_");
    push_signed_decimal(&mut temp_dir_name, timestamp_millis);
    let mut steps: Vec<PipelineStep> = Vec::new();
    steps.push(PipelineStep::TrimVideo);
    if config.subtitles.use_subtitles {
        steps.push(PipelineStep::ExtractAudio);
        steps.push(PipelineStep::GenerateSubtitles);
        steps.push(PipelineStep::BurnSubtitles);
    } else {
        steps.push(PipelineStep::MoveToOutput);
    }
    steps.push(PipelineStep::CleanUp);
    assert(steps@ =~= steps_of(config.subtitles.use_subtitles));
    PipelinePlan {
        temp_dir_name,
        trimmed_video_name: name_with(stem, "_trimmed.mp4"),
        extracted_audio_name: name_with(stem, "_extracted_audio.wav"),
        trim_start_secs: 0,
        trim_duration_secs: config.video.short_duration_secs,
        steps,
    }
}

} // verus!
