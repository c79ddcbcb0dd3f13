//! Alignment: where on the screen subtitles sit, and the renderer's code
//! for it.

use crate::style::StyleError;
use crate::text::{chars_of, folded, spells};
use vstd::prelude::*;

verus! {

/// The row of the screen a subtitle sits in.
#[derive(Clone, Copy, Debug, PartialEq, Eq, Structural)]
pub enum VerticalAlignment {
    Top,
    Middle,
    Bottom,
}

/// The column of the screen a subtitle sits in.
#[derive(Clone, Copy, Debug, PartialEq, Eq, Structural)]
pub enum HorizontalAlignment {
    Left,
    Center,
    Right,
}

impl VerticalAlignment {
    /// Rows count from the bottom of the screen.
    pub open spec fn row(self) -> int {
        match self {
            VerticalAlignment::Bottom => 0,
            VerticalAlignment::Middle => 1,
            VerticalAlignment::Top => 2,
        }
    }
}

impl HorizontalAlignment {
    /// Columns count from the left, starting at one.
    pub open spec fn column(self) -> int {
        match self {
            HorizontalAlignment::Left => 1,
            HorizontalAlignment::Center => 2,
            HorizontalAlignment::Right => 3,
        }
    }
}

/// The renderer's alignment code, laid out like a numeric keypad: 1, 2, 3
/// along the bottom, 4, 5, 6 across the middle, 7, 8, 9 along the top.
pub open spec fn alignment_code(vertical: VerticalAlignment, horizontal: HorizontalAlignment) -> int {
    3 * vertical.row() + horizontal.column()
}

/// The row that a word names, in any case; `center` and `middle` name the
/// same row.
pub open spec fn vertical_alignment(text: Seq<char>) -> Option<VerticalAlignment> {
    let word = folded(text);
    if word == "bottom"@ {
        Some(VerticalAlignment::Bottom)
    } else if word == "center"@ || word == "middle"@ {
        Some(VerticalAlignment::Middle)
    } else if word == "top"@ {
        Some(VerticalAlignment::Top)
    } else {
        None
    }
}

/// The column that a word names, in any case.
pub open spec fn horizontal_alignment(text: Seq<char>) -> Option<HorizontalAlignment> {
    let word = folded(text);
    if word == "left"@ {
        Some(HorizontalAlignment::Left)
    } else if word == "center"@ {
        Some(HorizontalAlignment::Center)
    } else if word == "right"@ {
        Some(HorizontalAlignment::Right)
    } else {
        None
    }
}

/// The alignment code that a pair of words names, if both are known.
pub open spec fn alignment_value(vertical: Seq<char>, horizontal: Seq<char>) -> Option<int> {
    match (vertical_alignment(vertical), horizontal_alignment(horizontal)) {
        (Some(v), Some(h)) => Some(alignment_code(v, h)),
        _ => None,
    }
}

/// Reads a row name.
pub fn parse_vertical_alignment(text: &str) -> (result: Option<VerticalAlignment>)
    ensures
        result == vertical_alignment(text@),
{
    let chars = chars_of(text);
    assert(chars@.skip(0) =~= text@);
    if spells(&chars, 0, "bottom") {
        Some(VerticalAlignment::Bottom)
    } else if spells(&chars, 0, "center") || spells(&chars, 0, "middle") {
        Some(VerticalAlignment::Middle)
    } else if spells(&chars, 0, "top") {
        Some(VerticalAlignment::Top)
    } else {
        None
    }
}

/// Reads a column name.
pub fn parse_horizontal_alignment(text: &str) -> (result: Option<HorizontalAlignment>)
    ensures
        result == horizontal_alignment(text@),
{
    let chars = chars_of(text);
    assert(chars@.skip(0) =~= text@);
    if spells(&chars, 0, "left") {
        Some(HorizontalAlignment::Left)
    } else if spells(&chars, 0, "center") {
        Some(HorizontalAlignment::Center)
    } else if spells(&chars, 0, "right") {
        Some(HorizontalAlignment::Right)
    } else {
        None
    }
}

/// The renderer's code for a row and a column.
pub fn alignment_code_of(vertical: VerticalAlignment, horizontal: HorizontalAlignment) -> (code: u8)
    ensures
        code == alignment_code(vertical, horizontal),
{
    match (vertical, horizontal) {
        (VerticalAlignment::Bottom, HorizontalAlignment::Left) => 1,
        (VerticalAlignment::Bottom, HorizontalAlignment::Center) => 2,
        (VerticalAlignment::Bottom, HorizontalAlignment::Right) => 3,
        (VerticalAlignment::Middle, HorizontalAlignment::Left) => 4,
        (VerticalAlignment::Middle, HorizontalAlignment::Center) => 5,
        (VerticalAlignment::Middle, HorizontalAlignment::Right) => 6,
        (VerticalAlignment::Top, HorizontalAlignment::Left) => 7,
        (VerticalAlignment::Top, HorizontalAlignment::Center) => 8,
        (VerticalAlignment::Top, HorizontalAlignment::Right) => 9,
    }
}

/// Maps a pair of alignment words to the renderer's code 1 to 9. A word
/// that names no row, or no column, is `InvalidAlignment`.
pub fn map_alignment_to_ffmpeg_value(vertical: &str, horizontal: &str) -> (result: Result<
    u8,
    StyleError,
>)
    ensures
        match alignment_value(vertical@, horizontal@) {
            Some(code) => result is Ok && result.unwrap() == code,
            None => result == Err::<u8, StyleError>(StyleError::InvalidAlignment),
        },
{
    match (parse_vertical_alignment(vertical), parse_horizontal_alignment(horizontal)) {
        (Some(v), Some(h)) => Ok(alignment_code_of(v, h)),
        _ => Err(StyleError::InvalidAlignment),
    }
}

/// Every alignment code lies between 1 and 9.
pub proof fn lemma_alignment_code_in_range(vertical: VerticalAlignment, horizontal: HorizontalAlignment)
    ensures
        1 <= alignment_code(vertical, horizontal) <= 9,
{
}

/// Two pairs of a row and a column with the same alignment code are the
/// same pair.
pub proof fn lemma_alignment_code_is_one_to_one(
    v1: VerticalAlignment,
    h1: HorizontalAlignment,
    v2: VerticalAlignment,
    h2: HorizontalAlignment,
)
    requires
        alignment_code(v1, h1) == alignment_code(v2, h2),
    ensures
        v1 == v2,
        h1 == h2,
{
}

/// Every number from 1 to 9 is the alignment code of some row and column.
pub proof fn lemma_alignment_code_is_onto(code: int)
    requires
        1 <= code <= 9,
    ensures
        exists|v: VerticalAlignment, h: HorizontalAlignment| #[trigger]
            alignment_code(v, h) == code,
{
    assert(alignment_code(VerticalAlignment::Bottom, HorizontalAlignment::Left) == 1);
    assert(alignment_code(VerticalAlignment::Bottom, HorizontalAlignment::Center) == 2);
    assert(alignment_code(VerticalAlignment::Bottom, HorizontalAlignment::Right) == 3);
    assert(alignment_code(VerticalAlignment::Middle, HorizontalAlignment::Left) == 4);
    assert(alignment_code(VerticalAlignment::Middle, HorizontalAlignment::Center) == 5);
    assert(alignment_code(VerticalAlignment::Middle, HorizontalAlignment::Right) == 6);
    assert(alignment_code(VerticalAlignment::Top, HorizontalAlignment::Left) == 7);
    assert(alignment_code(VerticalAlignment::Top, HorizontalAlignment::Center) == 8);
    assert(alignment_code(VerticalAlignment::Top, HorizontalAlignment::Right) == 9);
}

} // verus!
