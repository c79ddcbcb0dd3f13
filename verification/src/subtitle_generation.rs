//! The speech-to-text tool: how it is called, what file it is expected to
//! leave behind, and how its outcome is judged.

use vstd::prelude::*;
use vstd::string::StringExecFns;

verus! {

/// The texts of a list of strings.
pub open spec fn texts(strings: Seq<String>) -> Seq<Seq<char>> {
    strings.map_values(|string: String| string@)
}

/// The text of an optional string slice.
pub open spec fn optional_text(text: Option<&str>) -> Option<Seq<char>> {
    match text {
        Some(text) => Some(text@),
        None => None,
    }
}

/// What the directory for the subtitle file is found to be.
#[derive(Clone, Copy, Debug, PartialEq, Eq, Structural)]
pub enum DirectoryState {
    /// Nothing exists under that path.
    Missing,
    /// A directory exists under that path.
    Directory,
    /// Something else exists under that path.
    Occupied,
}

/// Why the tool cannot even be started.
#[derive(Clone, Copy, Debug, PartialEq, Eq, Structural)]
pub enum InputFault {
    /// The audio file does not exist.
    AudioMissing,
    /// The output directory's path names something that is no directory.
    OutputNotADirectory,
}

/// What is to be done about the output directory before the tool runs.
pub open spec fn input_verdict(audio_exists: bool, output_dir: DirectoryState) -> Result<
    bool,
    InputFault,
> {
    if !audio_exists {
        Err(InputFault::AudioMissing)
    } else {
        match output_dir {
            DirectoryState::Missing => Ok(true),
            DirectoryState::Directory => Ok(false),
            DirectoryState::Occupied => Err(InputFault::OutputNotADirectory),
        }
    }
}

/// Judges what was found on disk before the tool runs. `Ok(true)` asks for
/// the output directory to be created, `Ok(false)` finds it in place. A
/// missing audio file is reported before anything about the directory.
pub fn check_subtitle_inputs(audio_exists: bool, output_dir: DirectoryState) -> (result: Result<
    bool,
    InputFault,
>)
    ensures
        result == input_verdict(audio_exists, output_dir),
{
    if !audio_exists {
        return Err(InputFault::AudioMissing);
    }
    match output_dir {
        DirectoryState::Missing => Ok(true),
        DirectoryState::Directory => Ok(false),
        DirectoryState::Occupied => Err(InputFault::OutputNotADirectory),
    }
}

/// The name under which the speech-to-text tool is called.
pub const WHISPER_PROGRAM: &'static str = "whisper";

/// The arguments of one call of the tool: the audio file, the model, the
/// directory to write to, and subtitles as the format.
pub open spec fn whisper_argument_texts(
    audio_input_path: Seq<char>,
    whisper_model_path: Seq<char>,
    output_dir: Seq<char>,
) -> Seq<Seq<char>> {
    seq![
        audio_input_path,
        "--model"@,
        whisper_model_path,
        "--output_dir"@,
        output_dir,
        "--output_format"@,
        "srt"@,
    ]
}

/// The arguments with which the tool is called.
pub fn whisper_arguments(audio_input_path: &str, whisper_model_path: &str, output_dir: &str) -> (arguments:
    Vec<String>)
    ensures
        texts(arguments@) == whisper_argument_texts(
            audio_input_path@,
            whisper_model_path@,
            output_dir@,
        ),
{
    let mut arguments: Vec<String> = Vec::new();
    arguments.push(String::from_str(audio_input_path));
    arguments.push(String::from_str("--model"));
    arguments.push(String::from_str(whisper_model_path));
    arguments.push(String::from_str("--output_dir"));
    arguments.push(String::from_str(output_dir));
    arguments.push(String::from_str("--output_format"));
    arguments.push(String::from_str("srt"));
    assert(texts(arguments@) =~= whisper_argument_texts(
        audio_input_path@,
        whisper_model_path@,
        output_dir@,
    ));
    arguments
}

/// The name of the subtitle file that the tool writes for an audio file:
/// the audio file's stem, then `.srt`.
pub open spec fn subtitle_file_name_text(audio_stem: Seq<char>) -> Seq<char> {
    audio_stem + ".srt"@
}

/// The name of the subtitle file that the tool is expected to write.
pub fn subtitle_file_name(audio_stem: &str) -> (name: String)
    ensures
        name@ == subtitle_file_name_text(audio_stem@),
{
    let mut name = String::from_str(audio_stem);
    name.append(".srt");
    name
}

/// What became of the call of the tool.
#[derive(Clone, Copy, Debug, PartialEq, Eq, Structural)]
pub enum ToolRun {
    /// The tool could not be started.
    NotStarted,
    /// The tool ran and reported failure.
    Failed,
    /// The tool ran and reported success.
    Succeeded,
}

/// In which way subtitle generation failed.
#[derive(Clone, Copy, Debug, PartialEq, Eq, Structural)]
pub enum SubtitleFailure {
    /// The tool could not be started.
    ToolMissing,
    /// The tool ended with a failure status.
    ToolFailed,
    /// The audio path has no file stem to name the subtitle file after.
    NoFileStem,
    /// The tool reported success, but the expected file is not there.
    OutputMissing,
}

/// Subtitle generation failed; `diagnostics` is what was captured of the
/// tool's own words.
#[derive(Clone, Debug)]
pub struct SubtitleGenerationFailed {
    pub cause: SubtitleFailure,
    pub diagnostics: String,
}

/// The outcome of subtitle generation: the name of the subtitle file, or
/// the first thing that went wrong.
pub open spec fn subtitle_outcome(
    run: ToolRun,
    audio_stem: Option<Seq<char>>,
    output_present: bool,
) -> Result<Seq<char>, SubtitleFailure> {
    match run {
        ToolRun::NotStarted => Err(SubtitleFailure::ToolMissing),
        ToolRun::Failed => Err(SubtitleFailure::ToolFailed),
        ToolRun::Succeeded => match audio_stem {
            None => Err(SubtitleFailure::NoFileStem),
            Some(stem) => if output_present {
                Ok(subtitle_file_name_text(stem))
            } else {
                Err(SubtitleFailure::OutputMissing)
            },
        },
    }
}

/// Judges one call of the tool. `run` says how the call ended,
/// `audio_stem` is the stem of the audio file's name, `output_present`
/// says whether the expected subtitle file exists in the output
/// directory, and `diagnostics` is the text captured from the call. On
/// success the result is the subtitle file's name; every failure carries
/// the diagnostics unchanged.
pub fn generate_subtitle_file(
    run: ToolRun,
    audio_stem: Option<&str>,
    output_present: bool,
    diagnostics: &str,
) -> (result: Result<String, SubtitleGenerationFailed>)
    ensures
        match subtitle_outcome(run, optional_text(audio_stem), output_present) {
            Ok(name) => result is Ok && result.unwrap()@ == name,
            Err(cause) => {
                &&& result is Err
                &&& result.unwrap_err().cause == cause
                &&& result.unwrap_err().diagnostics@ == diagnostics@
            },
        },
{
    let cause = match run {
        ToolRun::NotStarted => SubtitleFailure::ToolMissing,
        ToolRun::Failed => SubtitleFailure::ToolFailed,
        ToolRun::Succeeded => match audio_stem {
            None => SubtitleFailure::NoFileStem,
            Some(stem) => {
                if output_present {
                    return Ok(subtitle_file_name(stem));
                }
                SubtitleFailure::OutputMissing
            },
        },
    };
    Err(SubtitleGenerationFailed { cause, diagnostics: String::from_str(diagnostics) })
}

} // verus!
