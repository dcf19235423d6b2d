use crate::color::Color;
use vstd::prelude::*;

verus! {

/// The SGR code that selects a color for the text: 30 to 37 for the base
/// colors, 90 to 97 for the intense ones.
pub open spec fn fg_color_code_spec(color: Color) -> u8 {
    match color {
        Color::Black => 30,
        Color::Blue => 31,
        Color::Green => 32,
        Color::Cyan => 33,
        Color::Red => 34,
        Color::Magenta => 35,
        Color::Brown => 36,
        Color::LightGray => 37,
        Color::DarkGray => 90,
        Color::LightBlue => 91,
        Color::LightGreen => 92,
        Color::LightCyan => 93,
        Color::LightRed => 94,
        Color::LightMagenta => 95,
        Color::Yellow => 96,
        Color::White => 97,
    }
}

/// The SGR code that selects a color for the background: that of the text,
/// ten higher.
pub open spec fn bg_color_code_spec(color: Color) -> u8 {
    (fg_color_code_spec(color) + 10) as u8
}

/// Maps a color to the SGR code of text in that color.
pub fn fg_color_code(color: Color) -> (code: u8)
    ensures
        code == fg_color_code_spec(color),
        30 <= code <= 37 || 90 <= code <= 97,
{
    match color {
        Color::Black => 30,
        Color::Blue => 31,
        Color::Green => 32,
        Color::Cyan => 33,
        Color::Red => 34,
        Color::Magenta => 35,
        Color::Brown => 36,
        Color::LightGray => 37,
        Color::DarkGray => 90,
        Color::LightBlue => 91,
        Color::LightGreen => 92,
        Color::LightCyan => 93,
        Color::LightRed => 94,
        Color::LightMagenta => 95,
        Color::Yellow => 96,
        Color::White => 97,
    }
}

/// Maps a color to the SGR code of a background in that color.
pub fn bg_color_code(color: Color) -> (code: u8)
    ensures
        code == bg_color_code_spec(color),
        40 <= code <= 47 || 100 <= code <= 107,
{
    match color {
        Color::Black => 40,
        Color::Blue => 41,
        Color::Green => 42,
        Color::Cyan => 43,
        Color::Red => 44,
        Color::Magenta => 45,
        Color::Brown => 46,
        Color::LightGray => 47,
        Color::DarkGray => 100,
        Color::LightBlue => 101,
        Color::LightGreen => 102,
        Color::LightCyan => 103,
        Color::LightRed => 104,
        Color::LightMagenta => 105,
        Color::Yellow => 106,
        Color::White => 107,
    }
}

/// No two colors share their foreground code.
pub proof fn fg_color_codes_are_distinct(a: Color, b: Color)
    requires
        fg_color_code_spec(a) == fg_color_code_spec(b),
    ensures
        a == b,
{
}

/// No two colors share their background code.
pub proof fn bg_color_codes_are_distinct(a: Color, b: Color)
    requires
        bg_color_code_spec(a) == bg_color_code_spec(b),
    ensures
        a == b,
{
}

/// No code serves both as a foreground and as a background code.
pub proof fn fg_and_bg_color_codes_are_apart(foreground: Color, background: Color)
    ensures
        fg_color_code_spec(foreground) != bg_color_code_spec(background),
{
}

} // verus!
