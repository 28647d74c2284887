use hexapoda::buffer::{Mode, PartialAction};
use hexapoda::render::{
    Color, CustomGreys, SelectGrey, byte_column_at_screen_column, byte_column_to_screen_column,
    character_for_byte, fg_for_byte, fg_for_character, hex_for_byte, style_for_address,
};
use hexapoda::window_size::WindowSize;

#[test]
fn hex_digits() {
    assert_eq!(hex_for_byte(0x00), "00");
    assert_eq!(hex_for_byte(0x0a), "0a");
    assert_eq!(hex_for_byte(0x7f), "7f");
    assert_eq!(hex_for_byte(0xff), "ff");
    for byte in 0..=255u8 {
        assert_eq!(hex_for_byte(byte), format!("{byte:02x}"));
    }
}

#[test]
fn character_panel_glyphs() {
    assert_eq!(character_for_byte(0), '⋄');
    assert_eq!(character_for_byte(9), '→');
    assert_eq!(character_for_byte(10), '⏎');
    assert_eq!(character_for_byte(13), '␍');
    assert_eq!(character_for_byte(1), '•');
    assert_eq!(character_for_byte(b' '), ' ');
    assert_eq!(character_for_byte(b'A'), 'A');
    assert_eq!(character_for_byte(b'~'), '~');
    assert_eq!(character_for_byte(0x7f), '•');
    assert_eq!(character_for_byte(0x80), '×');
    assert_eq!(character_for_byte(0xfe), '×');
    assert_eq!(character_for_byte(0xff), '╳');
}

#[test]
fn byte_colors() {
    assert_eq!(fg_for_byte(0x00), Color::Rgb(0x80, 0x80, 0x80));
    assert_eq!(fg_for_byte(0x01), Color::Rgb(0xFF, 0x71, 0xA9));
    assert_eq!(fg_for_byte(0x0f), Color::Rgb(0xFF, 0x71, 0xA9));
    assert_eq!(fg_for_byte(0x10), Color::Rgb(0xFF, 0x7A, 0x78));
    assert_eq!(fg_for_byte(0x7a), Color::Rgb(0x00, 0xD5, 0x00));
    assert_eq!(fg_for_byte(0xfe), Color::Rgb(0xFF, 0x4D, 0xFF));
    assert_eq!(fg_for_byte(0xff), Color::White);
    assert_eq!(fg_for_character(0), Color::Rgb(0xA0, 0xA0, 0xA0));
    assert_eq!(fg_for_character(b'\n'), Color::Red);
    assert_eq!(fg_for_character(b'a'), Color::Red);
    assert_eq!(fg_for_character(0x7f), Color::Green);
    assert_eq!(fg_for_character(0x01), Color::Green);
    assert_eq!(fg_for_character(0xff), Color::White);
    assert_eq!(fg_for_character(0x80), Color::Yellow);
    assert_eq!(style_for_address(0x200), Color::Rgb(0x68, 0x99, 0xA0));
    assert_eq!(style_for_address(0x210), Color::Rgb(0x8A, 0xBB, 0xC3));
    assert_eq!(Color::selection_tail_grey(), Color::Indexed(242));
    assert_eq!(Color::secondary_selection_head_grey(), Color::Indexed(246));
    assert_eq!(Color::ui_grey(), Color::Indexed(238));
    assert_eq!(Color::select_grey(), Color::Indexed(242));
}

#[test]
fn labels() {
    assert_eq!(Mode::Normal.label(), " NORMAL ");
    assert_eq!(Mode::Select.label(), " SELECT ");
    assert_eq!(Mode::Insert.label(), " INSERT ");
    assert_eq!(Mode::Select.color(), Color::Yellow);
    assert_eq!(PartialAction::Goto.label(), "g");
    assert_eq!(PartialAction::Space.label(), "␠");
    assert_eq!(PartialAction::Repeat.label(), "×");
}

#[test]
fn screen_columns() {
    let expected = [10, 13, 16, 19, 23, 26, 29, 32, 36, 39, 42, 45, 49, 52, 55, 58];
    for (byte_column, screen_column) in expected.iter().enumerate() {
        assert_eq!(byte_column_to_screen_column(byte_column), *screen_column);
        assert_eq!(byte_column_at_screen_column(*screen_column as u16), Some(byte_column));
        assert_eq!(byte_column_at_screen_column(*screen_column as u16 + 1), Some(byte_column));
    }
    for column in [0u16, 9, 12, 21, 22, 35, 60, 100] {
        assert_eq!(byte_column_at_screen_column(column), None);
    }
}

#[test]
fn window_rows() {
    let window = WindowSize { rows: 30, covered_rows: 2 };
    assert_eq!(window.hex_rows(), 28);
    assert_eq!(window.visible_byte_count(), 28 * 16);
}
