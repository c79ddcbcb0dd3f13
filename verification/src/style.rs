//! Subtitle styling: a validated style, path escaping, and the filter
//! expression that carries both to the encoder.

use crate::alignment::{
    alignment_code, alignment_code_of, horizontal_alignment, parse_horizontal_alignment,
    parse_vertical_alignment, vertical_alignment, HorizontalAlignment, VerticalAlignment,
};
use crate::color::{color_value, parse_color, BgrColor};
use crate::text::{decimal_text, push_decimal};
use vstd::prelude::*;
use vstd::string::StringExecFns;

verus! {

/// Why a subtitle style was turned down.
#[derive(Clone, Copy, Debug, PartialEq, Eq, Structural)]
pub enum StyleError {
    /// The color is neither a known name nor six hexadecimal digits.
    UnsupportedColor,
    /// The vertical or the horizontal alignment is not a known word.
    InvalidAlignment,
}

/// A path as it is written inside a filter expression: each colon is
/// preceded by a backslash, every other character stands as it is.
pub open spec fn escaped_path(path: Seq<char>) -> Seq<char>
    decreases path.len(),
{
    if path.len() == 0 {
        Seq::empty()
    } else if path.last() == ':' {
        escaped_path(path.drop_last()).push('\\').push(':')
    } else {
        escaped_path(path.drop_last()).push(path.last())
    }
}

/// Escapes a filesystem path for use inside a filter expression, where a
/// bare colon would end the value.
pub fn escape_path_for_ffmpeg_filter(path: &str) -> (escaped: String)
    ensures
        escaped@ == escaped_path(path@),
{
    broadcast use vstd::string::axiom_spec_iter;

    let mut escaped = String::new();
    for c in it: path.chars()
        invariant
            it.seq() == path@,
            escaped@ == escaped_path(path@.take(it.index())),
    {
        assert(path@.take(it.index() + 1).drop_last() =~= path@.take(it.index()));
        if c == ':' {
            escaped.push('\\');
        }
        escaped.push(c);
    }
    assert(path@.take(path@.len() as int) =~= path@);
    escaped
}

/// How subtitles are drawn: font file, point size, color and place on the
/// screen. A style is validated when it is made and does not change
/// afterwards.
#[derive(Clone, Debug)]
pub struct SubtitleStyle {
    font_path: String,
    font_size: u32,
    color: BgrColor,
    vertical: VerticalAlignment,
    horizontal: HorizontalAlignment,
}

/// A subtitle style as a mathematical value.
pub struct StyleView {
    pub font_path: Seq<char>,
    pub font_size: nat,
    pub color: BgrColor,
    pub vertical: VerticalAlignment,
    pub horizontal: HorizontalAlignment,
}

impl View for SubtitleStyle {
    type V = StyleView;

    closed spec fn view(&self) -> StyleView {
        StyleView {
            font_path: self.font_path@,
            font_size: self.font_size as nat,
            color: self.color,
            vertical: self.vertical,
            horizontal: self.horizontal,
        }
    }
}

/// The style that the given texts describe. The color is judged first, so
/// a style with a bad color and a bad alignment is `UnsupportedColor`.
pub open spec fn style_value(
    font_path: Seq<char>,
    font_size: nat,
    font_color: Seq<char>,
    vertical: Seq<char>,
    horizontal: Seq<char>,
) -> Result<StyleView, StyleError> {
    match color_value(font_color) {
        None => Err(StyleError::UnsupportedColor),
        Some(color) => match (vertical_alignment(vertical), horizontal_alignment(horizontal)) {
            (Some(v), Some(h)) => Ok(
                StyleView { font_path, font_size, color, vertical: v, horizontal: h },
            ),
            _ => Err(StyleError::InvalidAlignment),
        },
    }
}

/// The filter expression that draws the subtitles of the file at
/// `subtitle_path` in the given style:
///
/// `subtitles=filename='<path>':force_style='Fontfile='<font>',FontSize=<size>,PrimaryColour=&HFF<BBGGRR>,Alignment=<code>'`
///
/// with both paths escaped and the color fully opaque.
pub open spec fn filter_text(style: StyleView, subtitle_path: Seq<char>) -> Seq<char> {
    "subtitles=filename='"@ + escaped_path(subtitle_path) + "':force_style='Fontfile='"@
        + escaped_path(style.font_path) + "',FontSize="@ + decimal_text(style.font_size)
        + ",PrimaryColour=&HFF"@ + style.color.digits() + ",Alignment="@ + decimal_text(
        alignment_code(style.vertical, style.horizontal) as nat,
    ) + "'"@
}

/// A finished filter expression. It is built once, from a style and a
/// subtitle path, and cannot be changed afterwards.
#[derive(Clone, Debug)]
pub struct FilterExpression {
    text: String,
}

impl View for FilterExpression {
    type V = Seq<char>;

    closed spec fn view(&self) -> Seq<char> {
        self.text@
    }
}

impl FilterExpression {
    /// The expression's text.
    pub fn as_str(&self) -> (text: &str)
        ensures
            text@ == self@,
    {
        self.text.as_str()
    }

    /// Gives the expression's text away.
    pub fn into_string(self) -> (text: String)
        ensures
            text@ == self@,
    {
        self.text
    }
}

impl SubtitleStyle {
    /// Validates a style given as texts: the color first, then the two
    /// alignment words.
    pub fn new(
        font_path: &str,
        font_size: u32,
        font_color: &str,
        vertical_alignment: &str,
        horizontal_alignment: &str,
    ) -> (result: Result<SubtitleStyle, StyleError>)
        ensures
            match style_value(
                font_path@,
                font_size as nat,
                font_color@,
                vertical_alignment@,
                horizontal_alignment@,
            ) {
                Ok(style) => result is Ok && result.unwrap()@ == style,
                Err(error) => result is Err && result.unwrap_err() == error,
            },
    {
        let color = match parse_color(font_color) {
            Ok(color) => color,
            Err(error) => {
                return Err(error);
            },
        };
        let vertical = parse_vertical_alignment(vertical_alignment);
        let horizontal = parse_horizontal_alignment(horizontal_alignment);
        match (vertical, horizontal) {
            (Some(vertical), Some(horizontal)) => Ok(
                SubtitleStyle {
                    font_path: String::from_str(font_path),
                    font_size,
                    color,
                    vertical,
                    horizontal,
                },
            ),
            _ => Err(StyleError::InvalidAlignment),
        }
    }

    /// The font file.
    pub fn font_path(&self) -> (path: &str)
        ensures
            path@ == self@.font_path,
    {
        self.font_path.as_str()
    }

    /// The point size.
    pub fn font_size(&self) -> (size: u32)
        ensures
            size == self@.font_size,
    {
        self.font_size
    }

    /// The color.
    pub fn color(&self) -> (color: BgrColor)
        ensures
            color == self@.color,
    {
        self.color
    }

    /// The row of the screen.
    pub fn vertical(&self) -> (vertical: VerticalAlignment)
        ensures
            vertical == self@.vertical,
    {
        self.vertical
    }

    /// The column of the screen.
    pub fn horizontal(&self) -> (horizontal: HorizontalAlignment)
        ensures
            horizontal == self@.horizontal,
    {
        self.horizontal
    }

    /// Writes the filter expression that draws the subtitles of
    /// `subtitle_file_path` in this style.
    pub fn filter_expression(&self, subtitle_file_path: &str) -> (expression: FilterExpression)
        ensures
            expression@ == filter_text(self@, subtitle_file_path@),
    {
        let subtitle = escape_path_for_ffmpeg_filter(subtitle_file_path);
        let font = escape_path_for_ffmpeg_filter(self.font_path.as_str());
        let code = alignment_code_of(self.vertical, self.horizontal);
        let mut text = String::new();
        text.append("subtitles=filename='");
        text.append(subtitle.as_str());
        text.append("':force_style='Fontfile='");
        text.append(font.as_str());
        text.append("',FontSize=");
        push_decimal(&mut text, self.font_size as u64);
        text.append(",PrimaryColour=&HFF");
        self.color.push_digits(&mut text);
        text.append(",Alignment=");
        push_decimal(&mut text, code as u64);
        text.append("'");
        assert(text@ =~= filter_text(self@, subtitle_file_path@));
        FilterExpression { text }
    }
}

/// Whether every colon of `text` stands directly behind a backslash.
pub open spec fn colons_are_escaped(text: Seq<char>) -> bool {
    forall|i: int| 0 <= i < text.len() && #[trigger] text[i] == ':' ==> i > 0 && text[i - 1] == '\\'
}

/// No colon of a path survives escaping without a backslash before it.
pub proof fn lemma_escaped_path_has_no_bare_colon(path: Seq<char>)
    ensures
        colons_are_escaped(escaped_path(path)),
    decreases path.len(),
{
    if path.len() > 0 {
        lemma_escaped_path_has_no_bare_colon(path.drop_last());
    }
}

/// An escaped path is at least as long as the path.
proof fn lemma_escaped_path_is_no_shorter(path: Seq<char>)
    ensures
        escaped_path(path).len() >= path.len(),
    decreases path.len(),
{
    if path.len() > 0 {
        lemma_escaped_path_is_no_shorter(path.drop_last());
    }
}

/// Escaping loses nothing: two paths with the same escaped form are the
/// same path.
pub proof fn lemma_escaped_path_is_one_to_one(a: Seq<char>, b: Seq<char>)
    requires
        escaped_path(a) == escaped_path(b),
    ensures
        a == b,
    decreases a.len(),
{
    lemma_escaped_path_is_no_shorter(a);
    lemma_escaped_path_is_no_shorter(b);
    if a.len() == 0 || b.len() == 0 {
        assert(a =~= b);
    } else {
        let before_a = escaped_path(a.drop_last());
        let before_b = escaped_path(b.drop_last());
        assert(escaped_path(a).last() == a.last());
        assert(escaped_path(b).last() == b.last());
        if a.last() == ':' {
            assert(before_a =~= escaped_path(a).drop_last().drop_last());
            assert(before_b =~= escaped_path(b).drop_last().drop_last());
        } else {
            assert(before_a =~= escaped_path(a).drop_last());
            assert(before_b =~= escaped_path(b).drop_last());
        }
        lemma_escaped_path_is_one_to_one(a.drop_last(), b.drop_last());
        assert(a =~= a.drop_last().push(a.last()));
        assert(b =~= b.drop_last().push(b.last()));
    }
}

/// Where the escaped subtitle path begins in a filter expression.
pub open spec fn subtitle_path_offset() -> int {
    "subtitles=filename='"@.len() as int
}

/// Where the escaped font path begins in a filter expression.
pub open spec fn font_path_offset(subtitle_path: Seq<char>) -> int {
    subtitle_path_offset() + escaped_path(subtitle_path).len() + "':force_style='Fontfile='"@.len()
}

/// A filter expression holds both paths in their escaped form, so that
/// within them no colon stands without a backslash before it.
pub proof fn lemma_filter_text_escapes_paths(style: StyleView, subtitle_path: Seq<char>)
    ensures
        ({
            let text = filter_text(style, subtitle_path);
            let subtitle = escaped_path(subtitle_path);
            let font = escaped_path(style.font_path);
            let subtitle_at = subtitle_path_offset();
            let font_at = font_path_offset(subtitle_path);
            &&& font_at + font.len() <= text.len()
            &&& text.subrange(subtitle_at, subtitle_at + subtitle.len()) == subtitle
            &&& text.subrange(font_at, font_at + font.len()) == font
            &&& colons_are_escaped(subtitle)
            &&& colons_are_escaped(font)
        }),
{
    lemma_escaped_path_has_no_bare_colon(subtitle_path);
    lemma_escaped_path_has_no_bare_colon(style.font_path);
    let text = filter_text(style, subtitle_path);
    let subtitle = escaped_path(subtitle_path);
    let font = escaped_path(style.font_path);
    let subtitle_at = subtitle_path_offset();
    let font_at = font_path_offset(subtitle_path);
    assert(text.subrange(subtitle_at, subtitle_at + subtitle.len()) =~= subtitle);
    assert(text.subrange(font_at, font_at + font.len()) =~= font);
}

} // verus!
