use shorts_generator::config::{AppConfig, SubtitleConfig, VideoConfig};
use shorts_generator::generate_subtitle_file;
use shorts_generator::pipeline::{plan_processing, PipelineStep};
use shorts_generator::subtitle_generation::{
    check_subtitle_inputs, subtitle_file_name, whisper_arguments, DirectoryState, InputFault,
    SubtitleFailure, ToolRun,
};
use shorts_generator::text::{chars_of, push_decimal, push_signed_decimal};

fn config(use_subtitles: bool, short_duration_secs: u64) -> AppConfig {
    AppConfig {
        video: VideoConfig {
            input_path: "/in/clip.mov".to_string(),
            output_path: "/out/short.mp4".to_string(),
            short_duration_secs,
            output_width: None,
            output_height: Some(720),
        },
        subtitles: SubtitleConfig {
            use_subtitles,
            whisper_model_path: "base".to_string(),
            font_path: "/fonts/a.ttf".to_string(),
            font_size: 24,
            font_color: "white".to_string(),
            subtitle_position_vertical_alignment: "bottom".to_string(),
            subtitle_position_horizontal_alignment: "center".to_string(),
        },
    }
}

#[test]
fn run_with_subtitles_has_five_steps() {
    let plan = plan_processing(&config(true, 60), Some("clip"), 1700000000123);
    assert_eq!(
        plan.steps,
        vec![
            PipelineStep::TrimVideo,
            PipelineStep::ExtractAudio,
            PipelineStep::GenerateSubtitles,
            PipelineStep::BurnSubtitles,
            PipelineStep::CleanUp,
        ]
    );
    assert_eq!(plan.temp_dir_name, "clip_processing_temp_1700000000123");
    assert_eq!(plan.trimmed_video_name, "clip_trimmed.mp4");
    assert_eq!(plan.extracted_audio_name, "clip_extracted_audio.wav");
    assert_eq!(plan.trim_start_secs, 0);
    assert_eq!(plan.trim_duration_secs, 60);
}

#[test]
fn run_without_subtitles_moves_the_trimmed_video() {
    let plan = plan_processing(&config(false, 15), Some("clip"), 0);
    assert_eq!(
        plan.steps,
        vec![PipelineStep::TrimVideo, PipelineStep::MoveToOutput, PipelineStep::CleanUp]
    );
    assert_eq!(plan.temp_dir_name, "clip_processing_temp_0");
    assert_eq!(plan.trim_duration_secs, 15);
}

#[test]
fn input_without_a_stem_is_called_video() {
    let plan = plan_processing(&config(true, 60), None, 42);
    assert_eq!(plan.temp_dir_name, "video_processing_temp_42");
    assert_eq!(plan.trimmed_video_name, "video_trimmed.mp4");
    assert_eq!(plan.extracted_audio_name, "video_extracted_audio.wav");
}

#[test]
fn time_before_the_epoch_is_written_with_a_minus() {
    let plan = plan_processing(&config(true, 60), Some("a"), -5);
    assert_eq!(plan.temp_dir_name, "a_processing_temp_-5");
    let earliest = plan_processing(&config(true, 60), Some("a"), i64::MIN);
    assert_eq!(earliest.temp_dir_name, "a_processing_temp_-9223372036854775808");
    let latest = plan_processing(&config(true, 60), Some("a"), i64::MAX);
    assert_eq!(latest.temp_dir_name, "a_processing_temp_9223372036854775807");
}

#[test]
fn decimal_numerals_have_no_leading_zero() {
    let mut out = String::new();
    push_decimal(&mut out, 0);
    out.push(' ');
    push_decimal(&mut out, 7);
    out.push(' ');
    push_decimal(&mut out, 10);
    out.push(' ');
    push_decimal(&mut out, 1090);
    out.push(' ');
    push_decimal(&mut out, u64::MAX);
    assert_eq!(out, "0 7 10 1090 18446744073709551615");
}

#[test]
fn signed_numerals_carry_their_sign() {
    let mut out = String::from("n=");
    push_signed_decimal(&mut out, -120);
    out.push(',');
    push_signed_decimal(&mut out, 120);
    out.push(',');
    push_signed_decimal(&mut out, 0);
    out.push(',');
    push_signed_decimal(&mut out, -1);
    assert_eq!(out, "n=-120,120,0,-1");
}

#[test]
fn chars_of_lists_the_characters() {
    assert_eq!(chars_of("aé:"), vec!['a', 'é', ':']);
    assert_eq!(chars_of(""), Vec::<char>::new());
}

#[test]
fn tool_is_called_with_model_directory_and_format() {
    let arguments = whisper_arguments("/tmp/a.wav", "base.en", "/tmp/out");
    assert_eq!(
        arguments,
        vec!["/tmp/a.wav", "--model", "base.en", "--output_dir", "/tmp/out", "--output_format", "srt"]
    );
}

#[test]
fn subtitle_file_is_named_after_the_audio_stem() {
    assert_eq!(subtitle_file_name("clip_extracted_audio"), "clip_extracted_audio.srt");
    assert_eq!(subtitle_file_name(""), ".srt");
    assert_eq!(subtitle_file_name("a.b"), "a.b.srt");
}

#[test]
fn missing_audio_is_found_before_the_directory_is_looked_at() {
    assert_eq!(check_subtitle_inputs(false, DirectoryState::Missing), Err(InputFault::AudioMissing));
    assert_eq!(check_subtitle_inputs(false, DirectoryState::Directory), Err(InputFault::AudioMissing));
    assert_eq!(check_subtitle_inputs(false, DirectoryState::Occupied), Err(InputFault::AudioMissing));
}

#[test]
fn output_directory_is_created_when_missing() {
    assert_eq!(check_subtitle_inputs(true, DirectoryState::Missing), Ok(true));
    assert_eq!(check_subtitle_inputs(true, DirectoryState::Directory), Ok(false));
    assert_eq!(
        check_subtitle_inputs(true, DirectoryState::Occupied),
        Err(InputFault::OutputNotADirectory)
    );
}

#[test]
fn successful_run_gives_the_subtitle_file() {
    let result = generate_subtitle_file(ToolRun::Succeeded, Some("clip"), true, "");
    assert_eq!(result.unwrap(), "clip.srt");
}

#[test]
fn tool_that_did_not_start_is_a_failure() {
    let error =
        generate_subtitle_file(ToolRun::NotStarted, Some("clip"), true, "No such file").unwrap_err();
    assert_eq!(error.cause, SubtitleFailure::ToolMissing);
    assert_eq!(error.diagnostics, "No such file");
}

#[test]
fn tool_that_reported_failure_is_a_failure() {
    let error =
        generate_subtitle_file(ToolRun::Failed, Some("clip"), true, "exit 2: bad model").unwrap_err();
    assert_eq!(error.cause, SubtitleFailure::ToolFailed);
    assert_eq!(error.diagnostics, "exit 2: bad model");
    let without_stem = generate_subtitle_file(ToolRun::Failed, None, false, "x").unwrap_err();
    assert_eq!(without_stem.cause, SubtitleFailure::ToolFailed);
}

#[test]
fn missing_subtitle_file_is_a_failure() {
    let error =
        generate_subtitle_file(ToolRun::Succeeded, Some("clip"), false, "out: done").unwrap_err();
    assert_eq!(error.cause, SubtitleFailure::OutputMissing);
    assert_eq!(error.diagnostics, "out: done");
}

#[test]
fn audio_path_without_a_stem_is_a_failure() {
    let error = generate_subtitle_file(ToolRun::Succeeded, None, true, "").unwrap_err();
    assert_eq!(error.cause, SubtitleFailure::NoFileStem);
    assert_eq!(error.diagnostics, "");
}
