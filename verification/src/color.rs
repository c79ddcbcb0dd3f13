//! Colors: how a color is named, and how the subtitle renderer reads it.

use crate::style::StyleError;
use crate::text::{chars_of, folded, folded_char, spells};
use vstd::prelude::*;
use vstd::string::StringExecFns;

verus! {

/// A color in the channel order of the subtitle renderer: blue, green, red.
#[derive(Clone, Copy, Debug, PartialEq, Eq, Structural)]
pub struct BgrColor {
    pub blue: u8,
    pub green: u8,
    pub red: u8,
}

/// How many `#` characters `text` begins with.
pub open spec fn leading_hashes(text: Seq<char>) -> nat
    decreases text.len(),
{
    if text.len() > 0 && text[0] == '#' {
        1 + leading_hashes(text.drop_first())
    } else {
        0
    }
}

/// `text` without the `#` characters it begins with.
pub open spec fn without_leading_hashes(text: Seq<char>) -> Seq<char> {
    text.skip(leading_hashes(text) as int)
}

/// The value of a hexadecimal digit, in either case.
pub open spec fn hex_digit_value(c: char) -> Option<int> {
    if '0' <= c <= '9' {
        Some(c as int - '0' as int)
    } else if 'a' <= c <= 'f' {
        Some(c as int - 'a' as int + 10)
    } else if 'A' <= c <= 'F' {
        Some(c as int - 'A' as int + 10)
    } else {
        None
    }
}

/// The byte that two hexadecimal digits write.
pub open spec fn hex_byte(high: char, low: char) -> u8
    recommends
        hex_digit_value(high) is Some,
        hex_digit_value(low) is Some,
{
    (16 * hex_digit_value(high).unwrap() + hex_digit_value(low).unwrap()) as u8
}

/// Whether `body` is exactly six hexadecimal digits.
pub open spec fn is_hex_color(body: Seq<char>) -> bool {
    &&& body.len() == 6
    &&& forall|i: int| 0 <= i < 6 ==> hex_digit_value(#[trigger] body[i]) is Some
}

/// The color that six hexadecimal digits `RRGGBB` name.
pub open spec fn hex_color(body: Seq<char>) -> BgrColor
    recommends
        is_hex_color(body),
{
    BgrColor {
        blue: hex_byte(body[4], body[5]),
        green: hex_byte(body[2], body[3]),
        red: hex_byte(body[0], body[1]),
    }
}

/// The color that a lowercase name stands for, if it is one of the five
/// known names.
pub open spec fn named_color(name: Seq<char>) -> Option<BgrColor> {
    if name == "white"@ {
        Some(BgrColor { blue: 0xFF, green: 0xFF, red: 0xFF })
    } else if name == "black"@ {
        Some(BgrColor { blue: 0x00, green: 0x00, red: 0x00 })
    } else if name == "red"@ {
        Some(BgrColor { blue: 0x00, green: 0x00, red: 0xFF })
    } else if name == "green"@ {
        Some(BgrColor { blue: 0x00, green: 0xFF, red: 0x00 })
    } else if name == "blue"@ {
        Some(BgrColor { blue: 0xFF, green: 0x00, red: 0x00 })
    } else {
        None
    }
}

/// The color that `text` describes: after any leading `#` characters,
/// either one of the known names in any case, or six hexadecimal digits
/// `RRGGBB`. `None` for every other text.
pub open spec fn color_value(text: Seq<char>) -> Option<BgrColor> {
    let body = without_leading_hashes(text);
    match named_color(folded(body)) {
        Some(color) => Some(color),
        None => if is_hex_color(body) {
            Some(hex_color(body))
        } else {
            None
        },
    }
}

/// The uppercase hexadecimal digit of a value below sixteen.
pub open spec fn upper_hex_digit(value: int) -> char
    recommends
        0 <= value < 16,
{
    if value < 10 {
        ('0' as int + value) as char
    } else {
        ('A' as int + value - 10) as char
    }
}

/// A byte as two uppercase hexadecimal digits.
pub open spec fn hex_byte_text(byte: u8) -> Seq<char> {
    seq![upper_hex_digit(byte as int / 16), upper_hex_digit(byte as int % 16)]
}

impl BgrColor {
    /// The six digits `BBGGRR`.
    pub open spec fn digits(self) -> Seq<char> {
        hex_byte_text(self.blue) + hex_byte_text(self.green) + hex_byte_text(self.red)
    }

    /// The color as the renderer reads it: `&H`, then the six digits.
    pub open spec fn text(self) -> Seq<char> {
        "&H"@ + self.digits()
    }

    /// Appends the six digits `BBGGRR` to `out`.
    pub fn push_digits(&self, out: &mut String)
        ensures
            final(out)@ == old(out)@ + self.digits(),
    {
        push_hex_byte(out, self.blue);
        push_hex_byte(out, self.green);
        push_hex_byte(out, self.red);
        assert(out@ =~= old(out)@ + self.digits());
    }

    /// The color as the renderer reads it.
    pub fn to_ffmpeg_text(&self) -> (text: String)
        ensures
            text@ == self.text(),
    {
        let mut text = String::new();
        text.append("&H");
        self.push_digits(&mut text);
        assert(text@ =~= self.text());
        text
    }
}

fn upper_hex_digit_of(value: u8) -> (c: char)
    requires
        value < 16,
    ensures
        c == upper_hex_digit(value as int),
{
    if value < 10 {
        (48u8 + value) as char
    } else {
        (55u8 + value) as char
    }
}

fn push_hex_byte(out: &mut String, byte: u8)
    ensures
        final(out)@ == old(out)@ + hex_byte_text(byte),
{
    out.push(upper_hex_digit_of(byte / 16));
    out.push(upper_hex_digit_of(byte % 16));
    assert(out@ =~= old(out)@ + hex_byte_text(byte));
}

fn count_leading_hashes(chars: &Vec<char>) -> (count: usize)
    ensures
        count == leading_hashes(chars@),
        count <= chars.len(),
{
    let mut i: usize = 0;
    assert(chars@.skip(0) =~= chars@);
    while i < chars.len() && chars[i] == '#'
        invariant
            i <= chars.len(),
            leading_hashes(chars@) == i + leading_hashes(chars@.skip(i as int)),
        decreases chars.len() - i,
    {
        assert(chars@.skip(i as int).drop_first() =~= chars@.skip(i + 1));
        i += 1;
    }
    i
}

fn hex_digit(c: char) -> (value: Option<u8>)
    ensures
        match value {
            Some(v) => hex_digit_value(c) == Some(v as int) && v < 16,
            None => hex_digit_value(c) is None,
        },
{
    if '0' <= c && c <= '9' {
        Some(c as u8 - 48u8)
    } else if 'a' <= c && c <= 'f' {
        Some(c as u8 - 87u8)
    } else if 'A' <= c && c <= 'F' {
        Some(c as u8 - 55u8)
    } else {
        None
    }
}

fn hex_pair(high: char, low: char) -> (byte: Option<u8>)
    ensures
        match byte {
            Some(b) => hex_digit_value(high) is Some && hex_digit_value(low) is Some && b
                == hex_byte(high, low),
            None => hex_digit_value(high) is None || hex_digit_value(low) is None,
        },
{
    match hex_digit(high) {
        Some(h) => match hex_digit(low) {
            Some(l) => Some(16 * h + l),
            None => None,
        },
        None => None,
    }
}

/// Reads a color: after any leading `#` characters, one of the names
/// `white`, `black`, `red`, `green`, `blue` in any case, or six hexadecimal
/// digits `RRGGBB`. Anything else is `UnsupportedColor`.
pub fn parse_color(color_str: &str) -> (result: Result<BgrColor, StyleError>)
    ensures
        result == match color_value(color_str@) {
            Some(color) => Ok::<BgrColor, StyleError>(color),
            None => Err(StyleError::UnsupportedColor),
        },
{
    let chars = chars_of(color_str);
    let start = count_leading_hashes(&chars);
    let ghost body = without_leading_hashes(color_str@);
    assert(body == chars@.skip(start as int));
    if spells(&chars, start, "white") {
        return Ok(BgrColor { blue: 0xFF, green: 0xFF, red: 0xFF });
    }
    if spells(&chars, start, "black") {
        return Ok(BgrColor { blue: 0x00, green: 0x00, red: 0x00 });
    }
    if spells(&chars, start, "red") {
        return Ok(BgrColor { blue: 0x00, green: 0x00, red: 0xFF });
    }
    if spells(&chars, start, "green") {
        return Ok(BgrColor { blue: 0x00, green: 0xFF, red: 0x00 });
    }
    if spells(&chars, start, "blue") {
        return Ok(BgrColor { blue: 0xFF, green: 0x00, red: 0x00 });
    }
    if chars.len() - start != 6 {
        return Err(StyleError::UnsupportedColor);
    }
    assert(forall|i: int| 0 <= i < 6 ==> body[i] == chars@[start + i]);
    let red = hex_pair(chars[start], chars[start + 1]);
    let green = hex_pair(chars[start + 2], chars[start + 3]);
    let blue = hex_pair(chars[start + 4], chars[start + 5]);
    match (red, green, blue) {
        (Some(red), Some(green), Some(blue)) => {
            assert forall|i: int| 0 <= i < 6 implies hex_digit_value(#[trigger] body[i]) is Some by {
                assert(i == 0 || i == 1 || i == 2 || i == 3 || i == 4 || i == 5);
            }
            Ok(BgrColor { blue, green, red })
        },
        _ => {
            assert(!is_hex_color(body)) by {
                if is_hex_color(body) {
                    assert(hex_digit_value(body[0]) is Some);
                    assert(hex_digit_value(body[1]) is Some);
                    assert(hex_digit_value(body[2]) is Some);
                    assert(hex_digit_value(body[3]) is Some);
                    assert(hex_digit_value(body[4]) is Some);
                    assert(hex_digit_value(body[5]) is Some);
                }
            }
            Err(StyleError::UnsupportedColor)
        },
    }
}

/// Turns a color name or `RRGGBB` digits into the renderer's `&HBBGGRR`.
pub fn convert_color_to_ffmpeg_bgr(color_str: &str) -> (result: Result<String, StyleError>)
    ensures
        match color_value(color_str@) {
            Some(color) => result is Ok && result.unwrap()@ == color.text(),
            None => result == Err::<String, StyleError>(StyleError::UnsupportedColor),
        },
{
    match parse_color(color_str) {
        Ok(color) => Ok(color.to_ffmpeg_text()),
        Err(error) => Err(error),
    }
}

/// A hexadecimal digit as it is written in upper case.
pub open spec fn upper_cased_hex_digit(c: char) -> char
    recommends
        hex_digit_value(c) is Some,
{
    upper_hex_digit(hex_digit_value(c).unwrap())
}

/// The digits of a color given as `RRGGBB` are the same digits in upper
/// case with the order of the three pairs reversed: `BB`, `GG`, `RR`.
pub proof fn lemma_hex_color_reverses_byte_order(body: Seq<char>)
    requires
        is_hex_color(body),
    ensures
        hex_color(body).digits() == seq![
            upper_cased_hex_digit(body[4]),
            upper_cased_hex_digit(body[5]),
            upper_cased_hex_digit(body[2]),
            upper_cased_hex_digit(body[3]),
            upper_cased_hex_digit(body[0]),
            upper_cased_hex_digit(body[1]),
        ],
{
    assert forall|high: char, low: char|
        hex_digit_value(high) is Some && hex_digit_value(low) is Some implies #[trigger] hex_byte_text(
        hex_byte(high, low),
    ) == seq![upper_cased_hex_digit(high), upper_cased_hex_digit(low)] by {
        let h = hex_digit_value(high).unwrap();
        let l = hex_digit_value(low).unwrap();
        assert(0 <= h < 16 && 0 <= l < 16);
        assert((16 * h + l) / 16 == h && (16 * h + l) % 16 == l);
    }
    assert(hex_digit_value(body[0]) is Some);
    assert(hex_digit_value(body[1]) is Some);
    assert(hex_digit_value(body[2]) is Some);
    assert(hex_digit_value(body[3]) is Some);
    assert(hex_digit_value(body[4]) is Some);
    assert(hex_digit_value(body[5]) is Some);
    assert(hex_color(body).digits() =~= seq![
        upper_cased_hex_digit(body[4]),
        upper_cased_hex_digit(body[5]),
        upper_cased_hex_digit(body[2]),
        upper_cased_hex_digit(body[3]),
        upper_cased_hex_digit(body[0]),
        upper_cased_hex_digit(body[1]),
    ]);
}

proof fn lemma_folding_keeps_leading_hashes(text: Seq<char>)
    ensures
        leading_hashes(folded(text)) == leading_hashes(text),
        leading_hashes(text) <= text.len(),
    decreases text.len(),
{
    if text.len() > 0 && text[0] == '#' {
        lemma_folding_keeps_leading_hashes(text.drop_first());
        assert(folded(text).drop_first() =~= folded(text.drop_first()));
    }
}

/// A color reads the same in any case: folding the text does not change
/// the color it names, nor whether it names one.
pub proof fn lemma_color_value_ignores_case(text: Seq<char>)
    ensures
        color_value(folded(text)) == color_value(text),
{
    lemma_folding_keeps_leading_hashes(text);
    let body = without_leading_hashes(text);
    let folded_body = without_leading_hashes(folded(text));
    assert(folded_body =~= folded(body));
    assert(folded(folded_body) =~= folded(body));
    assert forall|c: char| hex_digit_value(folded_char(c)) == hex_digit_value(c) by {}
    if is_hex_color(body) {
        assert forall|i: int| 0 <= i < 6 implies hex_digit_value(#[trigger] folded_body[i]) is Some by {
            assert(hex_digit_value(body[i]) is Some);
        }
    }
    if is_hex_color(folded_body) {
        assert forall|i: int| 0 <= i < 6 implies hex_digit_value(#[trigger] body[i]) is Some by {
            assert(hex_digit_value(folded_body[i]) is Some);
        }
    }
}

} // verus!
