use shorts_generator::alignment::{
    alignment_code_of, map_alignment_to_ffmpeg_value, parse_horizontal_alignment,
    parse_vertical_alignment, HorizontalAlignment, VerticalAlignment,
};
use shorts_generator::color::{convert_color_to_ffmpeg_bgr, parse_color, BgrColor};
use shorts_generator::style::{escape_path_for_ffmpeg_filter, StyleError, SubtitleStyle};

#[test]
fn escape_leaves_a_path_without_colon_alone() {
    assert_eq!(escape_path_for_ffmpeg_filter("/tmp/work/sub.srt"), "/tmp/work/sub.srt");
    assert_eq!(escape_path_for_ffmpeg_filter(""), "");
}

#[test]
fn escape_puts_a_backslash_before_each_colon() {
    assert_eq!(escape_path_for_ffmpeg_filter("C:/videos/sub.srt"), "C\\:/videos/sub.srt");
    assert_eq!(escape_path_for_ffmpeg_filter("a:b:c"), "a\\:b\\:c");
    assert_eq!(escape_path_for_ffmpeg_filter(":"), "\\:");
    assert_eq!(escape_path_for_ffmpeg_filter("::"), "\\:\\:");
}

#[test]
fn escape_keeps_backslashes_and_other_characters() {
    assert_eq!(escape_path_for_ffmpeg_filter("C:\\dir\\é.srt"), "C\\:\\dir\\é.srt");
    assert_eq!(escape_path_for_ffmpeg_filter("it's"), "it's");
}

#[test]
fn escaped_colons_always_follow_a_backslash() {
    let escaped = escape_path_for_ffmpeg_filter("x:y::z:");
    let chars: Vec<char> = escaped.chars().collect();
    for (i, c) in chars.iter().enumerate() {
        if *c == ':' {
            assert!(i > 0);
            assert_eq!(chars[i - 1], '\\');
        }
    }
    assert_eq!(chars.iter().filter(|c| **c == ':').count(), 4);
}

#[test]
fn named_colors_map_to_their_constants() {
    assert_eq!(convert_color_to_ffmpeg_bgr("white").unwrap(), "&HFFFFFF");
    assert_eq!(convert_color_to_ffmpeg_bgr("black").unwrap(), "&H000000");
    assert_eq!(convert_color_to_ffmpeg_bgr("red").unwrap(), "&H0000FF");
    assert_eq!(convert_color_to_ffmpeg_bgr("green").unwrap(), "&H00FF00");
    assert_eq!(convert_color_to_ffmpeg_bgr("blue").unwrap(), "&HFF0000");
}

#[test]
fn named_colors_are_read_in_any_case() {
    assert_eq!(convert_color_to_ffmpeg_bgr("WHITE").unwrap(), "&HFFFFFF");
    assert_eq!(convert_color_to_ffmpeg_bgr("Red").unwrap(), "&H0000FF");
    assert_eq!(convert_color_to_ffmpeg_bgr("gReEn").unwrap(), "&H00FF00");
    assert_eq!(convert_color_to_ffmpeg_bgr("BLUE").unwrap(), "&HFF0000");
}

#[test]
fn kelvin_sign_counts_as_the_letter_k() {
    assert_eq!(convert_color_to_ffmpeg_bgr("blac\u{212A}").unwrap(), "&H000000");
    assert_eq!(convert_color_to_ffmpeg_bgr("BLAC\u{212A}").unwrap(), "&H000000");
}

#[test]
fn leading_hashes_are_dropped() {
    assert_eq!(convert_color_to_ffmpeg_bgr("#white").unwrap(), "&HFFFFFF");
    assert_eq!(convert_color_to_ffmpeg_bgr("##1A2B3C").unwrap(), "&H3C2B1A");
    assert_eq!(convert_color_to_ffmpeg_bgr("1A2B3C").unwrap(), "&H3C2B1A");
}

#[test]
fn hex_color_swaps_the_byte_order() {
    assert_eq!(convert_color_to_ffmpeg_bgr("#1A2B3C").unwrap(), "&H3C2B1A");
    assert_eq!(convert_color_to_ffmpeg_bgr("#FFFFFF").unwrap(), "&HFFFFFF");
    assert_eq!(convert_color_to_ffmpeg_bgr("#000000").unwrap(), "&H000000");
    assert_eq!(convert_color_to_ffmpeg_bgr("#FF0000").unwrap(), "&H0000FF");
    assert_eq!(convert_color_to_ffmpeg_bgr("#0000FF").unwrap(), "&HFF0000");
    assert_eq!(convert_color_to_ffmpeg_bgr("#09AF10").unwrap(), "&H10AF09");
}

#[test]
fn hex_color_comes_out_in_upper_case() {
    assert_eq!(convert_color_to_ffmpeg_bgr("#1a2b3c").unwrap(), "&H3C2B1A");
    assert_eq!(convert_color_to_ffmpeg_bgr("#abcdef").unwrap(), "&HEFCDAB");
    assert_eq!(convert_color_to_ffmpeg_bgr("#AbCdEf").unwrap(), "&HEFCDAB");
}

#[test]
fn hex_color_with_a_bad_digit_is_unsupported() {
    assert_eq!(convert_color_to_ffmpeg_bgr("#12G456"), Err(StyleError::UnsupportedColor));
    assert_eq!(convert_color_to_ffmpeg_bgr("#12345Z"), Err(StyleError::UnsupportedColor));
    assert_eq!(convert_color_to_ffmpeg_bgr("#+1+2+3"), Err(StyleError::UnsupportedColor));
    assert_eq!(convert_color_to_ffmpeg_bgr("#12 456"), Err(StyleError::UnsupportedColor));
}

#[test]
fn hex_color_of_wrong_length_is_unsupported() {
    assert_eq!(convert_color_to_ffmpeg_bgr("#1234"), Err(StyleError::UnsupportedColor));
    assert_eq!(convert_color_to_ffmpeg_bgr("#1234567"), Err(StyleError::UnsupportedColor));
    assert_eq!(convert_color_to_ffmpeg_bgr("#"), Err(StyleError::UnsupportedColor));
    assert_eq!(convert_color_to_ffmpeg_bgr(""), Err(StyleError::UnsupportedColor));
}

#[test]
fn unknown_color_name_is_unsupported() {
    assert_eq!(convert_color_to_ffmpeg_bgr("purple"), Err(StyleError::UnsupportedColor));
    assert_eq!(convert_color_to_ffmpeg_bgr("white "), Err(StyleError::UnsupportedColor));
    assert_eq!(convert_color_to_ffmpeg_bgr("whi#te"), Err(StyleError::UnsupportedColor));
}

#[test]
fn text_that_is_six_bytes_but_not_six_digits_is_unsupported() {
    assert_eq!(convert_color_to_ffmpeg_bgr("a€bc"), Err(StyleError::UnsupportedColor));
    assert_eq!(convert_color_to_ffmpeg_bgr("ééé"), Err(StyleError::UnsupportedColor));
}

#[test]
fn color_encoding_gives_the_same_value_each_time() {
    let first = convert_color_to_ffmpeg_bgr("#1A2B3C");
    let second = convert_color_to_ffmpeg_bgr("#1A2B3C");
    assert_eq!(first, second);
    assert_eq!(parse_color("green"), parse_color("green"));
    assert_eq!(parse_color("nope"), parse_color("nope"));
}

#[test]
fn parse_color_gives_the_channels() {
    assert_eq!(parse_color("#1A2B3C"), Ok(BgrColor { blue: 0x3C, green: 0x2B, red: 0x1A }));
    assert_eq!(parse_color("red"), Ok(BgrColor { blue: 0, green: 0, red: 255 }));
    assert_eq!(parse_color("blue"), Ok(BgrColor { blue: 255, green: 0, red: 0 }));
    assert_eq!(parse_color("#12G456"), Err(StyleError::UnsupportedColor));
}

#[test]
fn color_text_is_prefix_and_six_digits() {
    let color = BgrColor { blue: 0x01, green: 0xA0, red: 0xFF };
    assert_eq!(color.to_ffmpeg_text(), "&H01A0FF");
    let mut out = String::from("x");
    color.push_digits(&mut out);
    assert_eq!(out, "x01A0FF");
}

#[test]
fn alignment_follows_the_keypad_table() {
    assert_eq!(map_alignment_to_ffmpeg_value("bottom", "left"), Ok(1));
    assert_eq!(map_alignment_to_ffmpeg_value("bottom", "center"), Ok(2));
    assert_eq!(map_alignment_to_ffmpeg_value("bottom", "right"), Ok(3));
    assert_eq!(map_alignment_to_ffmpeg_value("center", "left"), Ok(4));
    assert_eq!(map_alignment_to_ffmpeg_value("center", "center"), Ok(5));
    assert_eq!(map_alignment_to_ffmpeg_value("center", "right"), Ok(6));
    assert_eq!(map_alignment_to_ffmpeg_value("top", "left"), Ok(7));
    assert_eq!(map_alignment_to_ffmpeg_value("top", "center"), Ok(8));
    assert_eq!(map_alignment_to_ffmpeg_value("top", "right"), Ok(9));
}

#[test]
fn middle_is_another_word_for_center_row() {
    assert_eq!(map_alignment_to_ffmpeg_value("middle", "left"), Ok(4));
    assert_eq!(map_alignment_to_ffmpeg_value("middle", "center"), Ok(5));
    assert_eq!(map_alignment_to_ffmpeg_value("middle", "right"), Ok(6));
}

#[test]
fn alignment_words_are_read_in_any_case() {
    assert_eq!(map_alignment_to_ffmpeg_value("TOP", "Left"), Ok(7));
    assert_eq!(map_alignment_to_ffmpeg_value("Bottom", "CENTER"), Ok(2));
    assert_eq!(map_alignment_to_ffmpeg_value("MiDdLe", "rIgHt"), Ok(6));
}

#[test]
fn other_alignment_words_are_invalid() {
    assert_eq!(map_alignment_to_ffmpeg_value("up", "left"), Err(StyleError::InvalidAlignment));
    assert_eq!(map_alignment_to_ffmpeg_value("top", "middle"), Err(StyleError::InvalidAlignment));
    assert_eq!(map_alignment_to_ffmpeg_value("left", "top"), Err(StyleError::InvalidAlignment));
    assert_eq!(map_alignment_to_ffmpeg_value("", ""), Err(StyleError::InvalidAlignment));
    assert_eq!(map_alignment_to_ffmpeg_value("top ", "left"), Err(StyleError::InvalidAlignment));
    assert_eq!(map_alignment_to_ffmpeg_value("bottom", ""), Err(StyleError::InvalidAlignment));
}

#[test]
fn alignment_codes_are_nine_different_numbers() {
    let rows = [VerticalAlignment::Bottom, VerticalAlignment::Middle, VerticalAlignment::Top];
    let columns =
        [HorizontalAlignment::Left, HorizontalAlignment::Center, HorizontalAlignment::Right];
    let mut seen = [false; 10];
    for row in rows {
        for column in columns {
            let code = alignment_code_of(row, column) as usize;
            assert!(1 <= code && code <= 9);
            assert!(!seen[code]);
            seen[code] = true;
        }
    }
    assert!(seen[1..].iter().all(|s| *s));
}

#[test]
fn alignment_words_parse_to_rows_and_columns() {
    assert_eq!(parse_vertical_alignment("top"), Some(VerticalAlignment::Top));
    assert_eq!(parse_vertical_alignment("center"), Some(VerticalAlignment::Middle));
    assert_eq!(parse_vertical_alignment("middle"), Some(VerticalAlignment::Middle));
    assert_eq!(parse_vertical_alignment("bottom"), Some(VerticalAlignment::Bottom));
    assert_eq!(parse_vertical_alignment("left"), None);
    assert_eq!(parse_horizontal_alignment("left"), Some(HorizontalAlignment::Left));
    assert_eq!(parse_horizontal_alignment("center"), Some(HorizontalAlignment::Center));
    assert_eq!(parse_horizontal_alignment("right"), Some(HorizontalAlignment::Right));
    assert_eq!(parse_horizontal_alignment("middle"), None);
}

#[test]
fn style_holds_what_the_texts_say() {
    let style = SubtitleStyle::new("/fonts/a.ttf", 24, "#1A2B3C", "Top", "RIGHT").unwrap();
    assert_eq!(style.font_path(), "/fonts/a.ttf");
    assert_eq!(style.font_size(), 24);
    assert_eq!(style.color(), BgrColor { blue: 0x3C, green: 0x2B, red: 0x1A });
    assert_eq!(style.vertical(), VerticalAlignment::Top);
    assert_eq!(style.horizontal(), HorizontalAlignment::Right);
}

#[test]
fn style_reports_a_bad_color_before_a_bad_alignment() {
    let both = SubtitleStyle::new("f.ttf", 24, "nocolor", "nowhere", "left");
    assert_eq!(both.unwrap_err(), StyleError::UnsupportedColor);
    let alignment = SubtitleStyle::new("f.ttf", 24, "white", "nowhere", "left");
    assert_eq!(alignment.unwrap_err(), StyleError::InvalidAlignment);
    let column = SubtitleStyle::new("f.ttf", 24, "white", "top", "nowhere");
    assert_eq!(column.unwrap_err(), StyleError::InvalidAlignment);
}

#[test]
fn filter_expression_follows_the_template() {
    let style = SubtitleStyle::new("/fonts/a.ttf", 24, "white", "bottom", "center").unwrap();
    let expression = style.filter_expression("/tmp/x/sub.srt");
    assert_eq!(
        expression.as_str(),
        "subtitles=filename='/tmp/x/sub.srt':force_style='Fontfile='/fonts/a.ttf',FontSize=24,PrimaryColour=&HFFFFFFFF,Alignment=2'"
    );
}

#[test]
fn filter_expression_escapes_both_paths() {
    let style = SubtitleStyle::new("D:/fonts/a.ttf", 7, "#1A2B3C", "top", "left").unwrap();
    let expression = style.filter_expression("C:/work/sub.srt").into_string();
    assert_eq!(
        expression,
        "subtitles=filename='C\\:/work/sub.srt':force_style='Fontfile='D\\:/fonts/a.ttf',FontSize=7,PrimaryColour=&HFF3C2B1A,Alignment=7'"
    );
}

#[test]
fn filter_expression_is_the_same_each_time() {
    let style = SubtitleStyle::new("D:/fonts/a.ttf", 4000000000, "blue", "middle", "right").unwrap();
    let first = style.filter_expression("C:/work/sub.srt").into_string();
    let second = style.filter_expression("C:/work/sub.srt").into_string();
    assert_eq!(first, second);
    assert!(first.contains("FontSize=4000000000,"));
    assert!(first.contains("PrimaryColour=&HFFFF0000,"));
    assert!(first.ends_with("Alignment=6'"));
}

#[test]
fn filter_expression_writes_size_zero() {
    let style = SubtitleStyle::new("a.ttf", 0, "black", "bottom", "left").unwrap();
    let expression = style.filter_expression("s.srt").into_string();
    assert_eq!(
        expression,
        "subtitles=filename='s.srt':force_style='Fontfile='a.ttf',FontSize=0,PrimaryColour=&HFF000000,Alignment=1'"
    );
}
