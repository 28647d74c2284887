use vstd::prelude::*;
use crate::BYTES_PER_LINE;
use crate::buffer::Mode;
use crate::text::char_to_string;
use crate::widget::{Style, hex_digit, hex_digit_exec};
use vstd::string::StringExecFns;

verus! {

/// A terminal color.
#[derive(Clone, Copy, Debug, PartialEq, Eq, Structural)]
pub enum Color {
    Black,
    Red,
    Green,
    Yellow,
    Blue,
    Gray,
    DarkGray,
    White,
    Rgb(u8, u8, u8),
    Indexed(u8),
}

/// The grey behind selected bytes other than a head.
pub open spec fn tail_grey() -> Color {
    Color::Indexed(242)
}

/// The grey behind the heads of the secondary cursors.
pub open spec fn secondary_head_grey() -> Color {
    Color::Indexed(246)
}

/// The grey of the status line.
pub open spec fn status_grey() -> Color {
    Color::Indexed(238)
}

/// The greys of the selection highlights and of the status line.
pub trait CustomGreys: Sized {
    fn selection_tail_grey() -> Self;

    fn secondary_selection_head_grey() -> Self;

    fn ui_grey() -> Self;
}

impl CustomGreys for Color {
    fn selection_tail_grey() -> (result: Self)
        ensures
            result == tail_grey(),
    {
        Color::Indexed(242)
    }

    fn secondary_selection_head_grey() -> (result: Self)
        ensures
            result == secondary_head_grey(),
    {
        Color::Indexed(246)
    }

    fn ui_grey() -> (result: Self)
        ensures
            result == status_grey(),
    {
        Color::Indexed(238)
    }
}

/// The grey of the selection in select mode.
pub trait SelectGrey: Sized {
    fn select_grey() -> Self;
}

impl SelectGrey for Color {
    fn select_grey() -> (result: Self)
        ensures
            result == Color::Indexed(242),
    {
        Color::Indexed(242)
    }
}

impl Mode {
    pub open spec fn spec_color(self) -> Color {
        match self {
            Mode::Normal => Color::Blue,
            Mode::Select => Color::Yellow,
            Mode::Insert => Color::Green,
        }
    }

    /// The background of the mode label.
    pub fn color(self) -> (result: Color)
        ensures
            result == self.spec_color(),
    {
        match self {
            Mode::Normal => Color::Blue,
            Mode::Select => Color::Yellow,
            Mode::Insert => Color::Green,
        }
    }
}

/// The color of the bytes whose high nybble is `nybble`, from red through
/// green and blue to pink.
pub open spec fn nybble_color(nybble: int) -> Color {
    if nybble == 0 {
        Color::Rgb(0xFF, 0x71, 0xA9)
    } else if nybble == 1 {
        Color::Rgb(0xFF, 0x7A, 0x78)
    } else if nybble == 2 {
        Color::Rgb(0xFF, 0x81, 0x23)
    } else if nybble == 3 {
        Color::Rgb(0xF7, 0x93, 0x00)
    } else if nybble == 4 {
        Color::Rgb(0xE6, 0x9F, 0x00)
    } else if nybble == 5 {
        Color::Rgb(0xC1, 0xB2, 0x00)
    } else if nybble == 6 {
        Color::Rgb(0x82, 0xC6, 0x00)
    } else if nybble == 7 {
        Color::Rgb(0x00, 0xD5, 0x00)
    } else if nybble == 8 {
        Color::Rgb(0x00, 0xD4, 0x59)
    } else if nybble == 9 {
        Color::Rgb(0x00, 0xD0, 0x91)
    } else if nybble == 10 {
        Color::Rgb(0x00, 0xCC, 0xBB)
    } else if nybble == 11 {
        Color::Rgb(0x00, 0xC7, 0xDE)
    } else if nybble == 12 {
        Color::Rgb(0x00, 0xBE, 0xFF)
    } else if nybble == 13 {
        Color::Rgb(0x6C, 0xAF, 0xFF)
    } else if nybble == 14 {
        Color::Rgb(0xB2, 0x98, 0xFF)
    } else {
        Color::Rgb(0xFF, 0x4D, 0xFF)
    }
}

/// The color of a byte in the hex view: grey for zero, white for 0xFF,
/// otherwise by its high nybble.
pub open spec fn spec_fg_for_byte(byte: u8) -> Color {
    if byte == 0 {
        Color::Rgb(0x80, 0x80, 0x80)
    } else if byte == 0xFF {
        Color::White
    } else {
        nybble_color((byte / 16) as int)
    }
}

pub fn fg_for_byte(byte: u8) -> (result: Color)
    ensures
        result == spec_fg_for_byte(byte),
{
    if byte == 0 {
        return Color::Rgb(0x80, 0x80, 0x80);
    }
    if byte == 0xFF {
        return Color::White;
    }
    let nybble = byte / 16;
    if nybble == 0 {
        Color::Rgb(0xFF, 0x71, 0xA9)
    } else if nybble == 1 {
        Color::Rgb(0xFF, 0x7A, 0x78)
    } else if nybble == 2 {
        Color::Rgb(0xFF, 0x81, 0x23)
    } else if nybble == 3 {
        Color::Rgb(0xF7, 0x93, 0x00)
    } else if nybble == 4 {
        Color::Rgb(0xE6, 0x9F, 0x00)
    } else if nybble == 5 {
        Color::Rgb(0xC1, 0xB2, 0x00)
    } else if nybble == 6 {
        Color::Rgb(0x82, 0xC6, 0x00)
    } else if nybble == 7 {
        Color::Rgb(0x00, 0xD5, 0x00)
    } else if nybble == 8 {
        Color::Rgb(0x00, 0xD4, 0x59)
    } else if nybble == 9 {
        Color::Rgb(0x00, 0xD0, 0x91)
    } else if nybble == 10 {
        Color::Rgb(0x00, 0xCC, 0xBB)
    } else if nybble == 11 {
        Color::Rgb(0x00, 0xC7, 0xDE)
    } else if nybble == 12 {
        Color::Rgb(0x00, 0xBE, 0xFF)
    } else if nybble == 13 {
        Color::Rgb(0x6C, 0xAF, 0xFF)
    } else if nybble == 14 {
        Color::Rgb(0xB2, 0x98, 0xFF)
    } else {
        Color::Rgb(0xFF, 0x4D, 0xFF)
    }
}

/// The style of a byte in the hex view: its color.
pub fn style_for_byte(byte: u8) -> (result: Style)
    ensures
        result == (Style { fg: Some(spec_fg_for_byte(byte)), bg: None }),
{
    Style { fg: Some(fg_for_byte(byte)), bg: None }
}

/// The color of a byte in the character panel: grey for zero, red for
/// printable characters and whitespace, green for other ASCII, white for
/// 0xFF, yellow for the rest.
pub open spec fn spec_fg_for_character(byte: u8) -> Color {
    if byte == 0 {
        Color::Rgb(0xA0, 0xA0, 0xA0)
    } else if byte == 9 || byte == 10 || byte == 13 || byte == 32 {
        Color::Red
    } else if 0x21 <= byte <= 0x7E {
        Color::Red
    } else if byte < 0x80 {
        Color::Green
    } else if byte == 0xFF {
        Color::White
    } else {
        Color::Yellow
    }
}

pub fn fg_for_character(byte: u8) -> (result: Color)
    ensures
        result == spec_fg_for_character(byte),
{
    if byte == 0 {
        Color::Rgb(0xA0, 0xA0, 0xA0)
    } else if byte == 9 || byte == 10 || byte == 13 || byte == 32 {
        Color::Red
    } else if 0x21 <= byte && byte <= 0x7E {
        Color::Red
    } else if byte < 0x80 {
        Color::Green
    } else if byte == 0xFF {
        Color::White
    } else {
        Color::Yellow
    }
}

/// The text of a byte in the hex view: its two digits.
pub fn content_for_byte(byte: u8) -> (result: String)
    ensures
        result@ == spec_hex_for_byte(byte),
{
    hex_for_byte(byte)
}

/// The style of a byte in the character panel: its color.
pub fn style_for_character(byte: u8) -> (result: Style)
    ensures
        result == (Style { fg: Some(spec_fg_for_character(byte)), bg: None }),
{
    Style { fg: Some(fg_for_character(byte)), bg: None }
}

/// The two lowercase hexadecimal digits of a byte.
pub open spec fn spec_hex_for_byte(byte: u8) -> Seq<char> {
    seq![hex_digit(byte as int / 16), hex_digit(byte as int % 16)]
}

pub fn hex_for_byte(byte: u8) -> (result: String)
    ensures
        result@ == spec_hex_for_byte(byte),
{
    let mut result = char_to_string(hex_digit_exec(byte / 16));
    let low = char_to_string(hex_digit_exec(byte % 16));
    result.append(low.as_str());
    result
}

/// The character shown for a byte in the character panel.
pub open spec fn spec_character_for_byte(byte: u8) -> char {
    if byte == 0 {
        '⋄'
    } else if byte == 9 {
        '→'
    } else if byte == 10 {
        '⏎'
    } else if byte == 13 {
        '␍'
    } else if 0x20 <= byte <= 0x7E {
        byte as char
    } else if byte == 0xFF {
        '╳'
    } else if byte >= 0x80 {
        '×'
    } else {
        '•'
    }
}

pub fn character_for_byte(byte: u8) -> (result: char)
    ensures
        result == spec_character_for_byte(byte),
{
    if byte == 0 {
        '⋄'
    } else if byte == 9 {
        '→'
    } else if byte == 10 {
        '⏎'
    } else if byte == 13 {
        '␍'
    } else if 0x20 <= byte && byte <= 0x7E {
        byte as char
    } else if byte == 0xFF {
        '╳'
    } else if byte >= 0x80 {
        '×'
    } else {
        '•'
    }
}

/// The text of a byte in the character panel: its character.
pub fn content_for_character(byte: u8) -> (result: String)
    ensures
        result@ == seq![spec_character_for_byte(byte)],
{
    char_to_string(character_for_byte(byte))
}

/// The color of an address: darker at the start of each 256-byte block.
pub open spec fn spec_style_for_address(address: int) -> Color {
    if address % 0x100 == 0 {
        Color::Rgb(0x68, 0x99, 0xA0)
    } else {
        Color::Rgb(0x8A, 0xBB, 0xC3)
    }
}

pub fn style_for_address(address: usize) -> (result: Color)
    ensures
        result == spec_style_for_address(address as int),
{
    if address % 0x100 == 0 {
        Color::Rgb(0x68, 0x99, 0xA0)
    } else {
        Color::Rgb(0x8A, 0xBB, 0xC3)
    }
}

/// The screen column where the byte in column `byte_column` of the hex view
/// starts: each byte takes three columns, with one more between words.
pub open spec fn spec_screen_column(byte_column: int) -> int {
    10 + 3 * byte_column + byte_column / 4
}

pub fn byte_column_to_screen_column(byte_column: usize) -> (result: usize)
    requires
        byte_column < BYTES_PER_LINE,
    ensures
        result == spec_screen_column(byte_column as int),
{
    10 + 3 * byte_column + byte_column / 4
}

/// The byte column of the hex view under a screen column, if any: each byte
/// answers to the two screen columns of its digits.
pub fn byte_column_at_screen_column(column: u16) -> (result: Option<usize>)
    ensures
        match result {
            Some(byte_column) => byte_column < BYTES_PER_LINE && (column == spec_screen_column(
                byte_column as int,
            ) || column == spec_screen_column(byte_column as int) + 1),
            None => forall|byte_column: int|
                0 <= byte_column < BYTES_PER_LINE ==> column != spec_screen_column(byte_column)
                    && column != spec_screen_column(byte_column) + 1,
        },
{
    if 10 <= column && column <= 59 {
        let offset = (column - 10) as usize;
        let word = offset / 13;
        let within = offset % 13;
        if within < 12 && within % 3 != 2 {
            let byte_column = word * 4 + within / 3;
            return Some(byte_column);
        }
    }
    None
}

/// Clicking on either digit of a byte selects the column of that byte.
pub proof fn lemma_screen_columns_roundtrip(byte_column: int)
    requires
        0 <= byte_column < BYTES_PER_LINE,
    ensures
        spec_screen_column(byte_column) + 1 <= 59,
        forall|other: int|
            0 <= other < BYTES_PER_LINE && other != byte_column ==> spec_screen_column(other)
                != spec_screen_column(byte_column) && spec_screen_column(other) != spec_screen_column(
                byte_column,
            ) + 1 && spec_screen_column(other) + 1 != spec_screen_column(byte_column),
{
}

} // verus!
