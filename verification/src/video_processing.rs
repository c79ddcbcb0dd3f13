//! The three operations on a video file: what each asks of the muxer, and
//! which streams of the source it takes along.

use crate::streams::{mapping_of, Medium, StreamMapping, StreamSelection};
use crate::style::{filter_text, style_value, StyleError, SubtitleStyle};
use crate::text::{decimal_text, digit_char, digit_of, push_decimal};
use vstd::prelude::*;
use vstd::string::StringExecFns;

verus! {

// ---------------------------------------------------------------------------
// One-time initialization
// ---------------------------------------------------------------------------

/// Remembers whether the media framework has been initialized in this
/// process. It starts unset and, once set, stays set.
#[derive(Debug)]
pub struct InitLatch {
    set: bool,
}

impl InitLatch {
    /// Whether the framework has been initialized.
    pub closed spec fn is_set(&self) -> bool {
        self.set
    }

    /// A latch for a process that has not initialized the framework yet.
    pub fn new() -> (latch: InitLatch)
        ensures
            !latch.is_set(),
    {
        InitLatch { set: false }
    }
}

/// Says whether the caller has to initialize the media framework now, and
/// sets the latch. Only the first call on a latch answers `true`; every
/// later call answers `false` and changes nothing.
pub fn init_ffmpeg(latch: &mut InitLatch) -> (initialize_now: bool)
    ensures
        initialize_now == !old(latch).is_set(),
        final(latch).is_set(),
{
    if latch.set {
        false
    } else {
        latch.set = true;
        true
    }
}

/// Makes sure, before a container is opened, that the media framework is
/// initialized: answers `true` if the caller has to do so now.
pub fn ensure_ffmpeg_initialized(latch: &mut InitLatch) -> (initialize_now: bool)
    ensures
        initialize_now == !old(latch).is_set(),
        final(latch).is_set(),
{
    init_ffmpeg(latch)
}

// ---------------------------------------------------------------------------
// Muxer options
// ---------------------------------------------------------------------------

/// One option handed to the muxer when the destination is opened.
#[derive(Clone, Debug)]
pub struct MuxOption {
    pub key: String,
    pub value: String,
}

impl View for MuxOption {
    type V = (Seq<char>, Seq<char>);

    open spec fn view(&self) -> (Seq<char>, Seq<char>) {
        (self.key@, self.value@)
    }
}

/// A list of options as pairs of texts.
pub open spec fn option_views(options: Seq<MuxOption>) -> Seq<(Seq<char>, Seq<char>)> {
    options.map_values(|option: MuxOption| option@)
}

/// The part of a time behind the decimal point: the digits of `millis`
/// thousandths, without trailing zeros.
pub open spec fn fraction_text(millis: nat) -> Seq<char>
    recommends
        0 < millis < 1000,
{
    if millis % 100 == 0 {
        seq![digit_char((millis / 100) as int)]
    } else if millis % 10 == 0 {
        seq![digit_char((millis / 100) as int), digit_char((millis / 10 % 10) as int)]
    } else {
        seq![
            digit_char((millis / 100) as int),
            digit_char((millis / 10 % 10) as int),
            digit_char((millis % 10) as int),
        ]
    }
}

/// A time of `millis` milliseconds written in seconds: whole seconds as a
/// plain numeral, otherwise with a decimal point and up to three digits.
pub open spec fn seconds_text(millis: nat) -> Seq<char> {
    if millis % 1000 == 0 {
        decimal_text(millis / 1000)
    } else {
        decimal_text(millis / 1000) + seq!['.'] + fraction_text(millis % 1000)
    }
}

/// Writes a time of `millis` milliseconds in seconds.
pub fn format_seconds(millis: u64) -> (text: String)
    ensures
        text@ == seconds_text(millis as nat),
{
    let mut text = String::new();
    push_decimal(&mut text, millis / 1000);
    let fraction = millis % 1000;
    if fraction != 0 {
        text.push('.');
        text.push(digit_of(fraction / 100));
        if fraction % 100 != 0 {
            text.push(digit_of(fraction / 10 % 10));
            if fraction % 10 != 0 {
                text.push(digit_of(fraction % 10));
            }
        }
    }
    assert(text@ =~= seconds_text(millis as nat));
    text
}

/// What Trim asks of the muxer: the time window, and every stream copied
/// as it is.
pub open spec fn trim_options(start_millis: nat, duration_millis: nat) -> Seq<
    (Seq<char>, Seq<char>),
> {
    seq![
        ("ss"@, seconds_text(start_millis)),
        ("t"@, seconds_text(duration_millis)),
        ("c"@, "copy"@),
    ]
}

/// What ExtractAudio asks of the muxer: no video, and the audio as PCM,
/// 16 bits, little-endian.
pub open spec fn extract_audio_options() -> Seq<(Seq<char>, Seq<char>)> {
    seq![("vn"@, "1"@), ("acodec"@, "pcm_s16le"@)]
}

/// What BurnSubtitles asks of the muxer: the video re-encoded through the
/// filter, the audio copied as it is.
pub open spec fn burn_options(filter: Seq<char>) -> Seq<(Seq<char>, Seq<char>)> {
    seq![("vf"@, filter), ("c:v"@, "libx264"@), ("c:a"@, "copy"@)]
}

fn option_of(key: &str, value: String) -> (option: MuxOption)
    ensures
        option@ == (key@, value@),
{
    MuxOption { key: String::from_str(key), value }
}

// ---------------------------------------------------------------------------
// The operations
// ---------------------------------------------------------------------------

/// Everything an operation settles before the destination is opened: the
/// options for the muxer and the mapping of the source's streams.
#[derive(Debug)]
pub struct RemuxPlan {
    pub options: Vec<MuxOption>,
    pub mapping: StreamMapping,
}

/// The source has no stream of the medium that the operation needs.
#[derive(Clone, Copy, Debug, PartialEq, Eq, Structural)]
pub struct NoStreamOfKind {
    pub medium: Medium,
}

/// Plans Trim: `duration_millis` milliseconds of the source, from
/// `start_millis` on, with its video and audio streams copied unchanged.
/// `media` lists the media of the source's streams in container order.
pub fn trim_video(media: &Vec<Medium>, start_millis: u64, duration_millis: u64) -> (plan: RemuxPlan)
    ensures
        option_views(plan.options@) == trim_options(start_millis as nat, duration_millis as nat),
        plan.mapping@ == mapping_of(media@, StreamSelection::VideoAndAudio),
{
    let mut options: Vec<MuxOption> = Vec::new();
    options.push(option_of("ss", format_seconds(start_millis)));
    options.push(option_of("t", format_seconds(duration_millis)));
    options.push(option_of("c", String::from_str("copy")));
    assert(option_views(options@) =~= trim_options(start_millis as nat, duration_millis as nat));
    RemuxPlan { options, mapping: StreamMapping::select(media, StreamSelection::VideoAndAudio) }
}

/// The stream that ExtractAudio takes: the source's best audio stream, if
/// the source names one and it is an audio stream of the source.
pub open spec fn audio_choice(media: Seq<Medium>, best_audio: Option<usize>) -> Option<usize> {
    match best_audio {
        Some(index) => if index < media.len() && media[index as int] == Medium::Audio {
            Some(index)
        } else {
            None
        },
        None => None,
    }
}

/// Plans ExtractAudio: the source's best audio stream alone, stored as
/// PCM. `best_audio` is the index of the stream that the container ranks
/// first among its audio streams. Without such a stream the operation
/// fails, before any destination exists.
pub fn extract_audio(media: &Vec<Medium>, best_audio: Option<usize>) -> (result: Result<
    RemuxPlan,
    NoStreamOfKind,
>)
    ensures
        match audio_choice(media@, best_audio) {
            Some(index) => {
                &&& result is Ok
                &&& option_views(result.unwrap().options@) == extract_audio_options()
                &&& result.unwrap().mapping@ == mapping_of(media@, StreamSelection::Only(index))
            },
            None => result is Err && result.unwrap_err() == (NoStreamOfKind {
                medium: Medium::Audio,
            }),
        },
{
    let index = match best_audio {
        Some(index) => index,
        None => {
            return Err(NoStreamOfKind { medium: Medium::Audio });
        },
    };
    if index >= media.len() {
        return Err(NoStreamOfKind { medium: Medium::Audio });
    }
    match media[index] {
        Medium::Audio => {},
        _ => {
            return Err(NoStreamOfKind { medium: Medium::Audio });
        },
    }
    let mut options: Vec<MuxOption> = Vec::new();
    options.push(option_of("vn", String::from_str("1")));
    options.push(option_of("acodec", String::from_str("pcm_s16le")));
    assert(option_views(options@) =~= extract_audio_options());
    Ok(RemuxPlan { options, mapping: StreamMapping::select(media, StreamSelection::Only(index)) })
}

/// Plans BurnSubtitles: the video re-encoded with the subtitles of
/// `subtitle_file_path` drawn into it in the given style, the audio copied.
/// A style that is not valid fails here, before any destination exists.
pub fn burn_subtitles(
    media: &Vec<Medium>,
    subtitle_file_path: &str,
    font_path: &str,
    font_size: u32,
    font_color: &str,
    vertical_alignment: &str,
    horizontal_alignment: &str,
) -> (result: Result<RemuxPlan, StyleError>)
    ensures
        match style_value(
            font_path@,
            font_size as nat,
            font_color@,
            vertical_alignment@,
            horizontal_alignment@,
        ) {
            Ok(style) => {
                &&& result is Ok
                &&& option_views(result.unwrap().options@) == burn_options(
                    filter_text(style, subtitle_file_path@),
                )
                &&& result.unwrap().mapping@ == mapping_of(media@, StreamSelection::VideoAndAudio)
            },
            Err(error) => result is Err && result.unwrap_err() == error,
        },
{
    let style = match SubtitleStyle::new(
        font_path,
        font_size,
        font_color,
        vertical_alignment,
        horizontal_alignment,
    ) {
        Ok(style) => style,
        Err(error) => {
            return Err(error);
        },
    };
    let filter = style.filter_expression(subtitle_file_path);
    let mut options: Vec<MuxOption> = Vec::new();
    options.push(option_of("vf", filter.into_string()));
    options.push(option_of("c:v", String::from_str("libx264")));
    options.push(option_of("c:a", String::from_str("copy")));
    assert(option_views(options@) =~= burn_options(filter_text(style@, subtitle_file_path@)));
    Ok(RemuxPlan { options, mapping: StreamMapping::select(media, StreamSelection::VideoAndAudio) })
}

} // verus!
