use hexapoda::buffer::{Buffer, Mode, PartialAction, Popup, nybble_from_hex};
use hexapoda::cursor::Cursor;
use hexapoda::hex_view::render_address;
use hexapoda::render::{Color, byte_column_to_screen_column, hex_for_byte};
use hexapoda::screen::PopupPlacement;
use hexapoda::widget::{Line, Rect, Span, Style};

fn text(spans: &[Span]) -> String {
    spans.iter().map(|span| span.content.as_str()).collect()
}

fn counting_buffer(length: usize) -> Buffer {
    Buffer::new("count".to_string(), (0..length).map(|i| i as u8).collect())
}

#[test]
fn addresses_have_eight_digits_at_least() {
    let span = render_address(0x1234);
    assert_eq!(span.content, "00001234");
    assert_eq!(span.style.fg, Some(Color::Rgb(0x8A, 0xBB, 0xC3)));
    let block = render_address(0x300);
    assert_eq!(block.content, "00000300");
    assert_eq!(block.style.fg, Some(Color::Rgb(0x68, 0x99, 0xA0)));
    assert_eq!(render_address(0).content, "00000000");
    assert_eq!(render_address(0x1_2345_6789).content, "123456789");
    for address in [0usize, 1, 0xff, 0x1000, 0xdead_beef, usize::MAX] {
        assert_eq!(render_address(address).content, format!("{address:08x}"));
    }
}

#[test]
fn selected_bytes_are_highlighted() {
    let mut buffer = counting_buffer(32);
    buffer.primary_cursor = Cursor { head: 4, tail: 2 };
    buffer.cursors = vec![Cursor { head: 10, tail: 12 }];

    let head = buffer.render_byte_at(4, 4);
    assert_eq!(head.content, "04");
    assert_eq!(head.style, Style { fg: Some(Color::Rgb(0xFF, 0x71, 0xA9)), bg: Some(Color::Gray) });
    let rest = buffer.render_byte_at(3, 3);
    assert_eq!(rest.style.bg, Some(Color::Indexed(242)));
    let other_head = buffer.render_byte_at(10, 10);
    assert_eq!(other_head.style.bg, Some(Color::Indexed(246)));
    let other_rest = buffer.render_byte_at(12, 12);
    assert_eq!(other_rest.style.bg, Some(Color::Indexed(242)));
    let plain = buffer.render_byte_at(20, 20);
    assert_eq!(plain.style, Style { fg: Some(Color::Rgb(0xFF, 0x7A, 0x78)), bg: None });

    buffer.mode = Mode::Select;
    assert_eq!(buffer.render_byte_at(4, 4).style.bg, Some(Color::Yellow));
}

#[test]
fn replacement_preview_shows_the_typed_digit() {
    let mut buffer = counting_buffer(32);
    buffer.primary_cursor = Cursor { head: 1, tail: 2 };
    buffer.partial_action = Some(PartialAction::Replace);
    let waiting = buffer.render_byte_at(1, 1);
    assert_eq!(waiting.content, "00");
    assert_eq!(waiting.style.fg, Some(Color::Black));
    buffer.partial_replace = Some(0xA);
    let typed = buffer.render_byte_at(2, 2);
    assert_eq!(typed.content, "a0");
    assert_eq!(typed.style, Style { fg: Some(Color::Black), bg: Some(Color::Indexed(242)) });
    let outside = buffer.render_byte_at(5, 5);
    assert_eq!(outside.content, "05");
}

#[test]
fn gaps_show_marks_and_selections() {
    let mut buffer = counting_buffer(32);
    buffer.marks.insert(4);
    buffer.marks.insert(6);
    buffer.primary_cursor = Cursor { head: 7, tail: 3 };
    let large = buffer.render_large_space_before(4);
    assert_eq!(large.content, " →");
    assert_eq!(large.style.bg, Some(Color::Indexed(242)));
    assert_eq!(buffer.render_large_space_before(8).content, "  ");
    assert_eq!(buffer.render_large_space_before(8).style.bg, None);
    let small = buffer.render_space_before(6);
    assert_eq!(small.content, "→");
    assert_eq!(small.style.bg, Some(Color::Indexed(242)));
    assert_eq!(buffer.render_space_before(3).style.bg, None);
    // never highlighted at the start of a line
    buffer.primary_cursor = Cursor { head: 20, tail: 12 };
    assert_eq!(buffer.render_large_space_before(16).style.bg, None);
    assert_eq!(buffer.render_space_before(17).style.bg, Some(Color::Indexed(242)));
}

#[test]
fn chunks_interleave_bytes_and_gaps() {
    let buffer = counting_buffer(32);
    let full = buffer.render_chunk(4, &[4, 5, 6, 7]);
    assert_eq!(full.len(), 8);
    assert_eq!(text(&full), "  04 05 06 07");
    let short = buffer.render_partial_chunk(8, &[8, 9]);
    assert_eq!(short.len(), 6);
    assert_eq!(text(&short), "  08 09  ");
    let line = buffer.render_chunks(16, &(16..32).collect::<Vec<u8>>());
    assert_eq!(text(&line), "  10 11 12 13  14 15 16 17  18 19 1a 1b  1c 1d 1e 1f");
}

#[test]
fn short_lines_are_padded_to_full_width() {
    let buffer = counting_buffer(32);
    for length in 0..=16usize {
        let bytes: Vec<u8> = (0..length as u8).collect();
        let padded = buffer.render_partial_chunks(0, &bytes);
        assert_eq!(text(&padded).chars().count(), 52, "length {length}");
    }
    let padded = buffer.render_partial_chunks(16, &[16, 17, 18, 19, 20]);
    assert_eq!(text(&padded), format!("  10 11 12 13  14{}", " ".repeat(35)));
}

#[test]
fn lines_end_with_the_character_panel() {
    let mut buffer = Buffer::new("t".to_string(), b"Hi!\0\t\n\r \x7f\x80\xff0123456789".to_vec());
    buffer.primary_cursor = Cursor { head: 1, tail: 0 };
    let line = buffer.render_line(0, &buffer.contents[0..16]);
    assert_eq!(line.style, Style { fg: None, bg: None });
    assert_eq!(
        text(&line.spans),
        "00000000  48 69 21 00  09 0a 0d 20  7f 80 ff 30  31 32 33 34  Hi!⋄→⏎␍ •×╳01234"
    );
    let panel = buffer.render_character_panel(0, &buffer.contents[0..3]);
    assert_eq!(panel[0].style, Style { fg: Some(Color::Red), bg: Some(Color::DarkGray) });
    assert_eq!(panel[1].style, Style { fg: Some(Color::Red), bg: Some(Color::Indexed(242)) });
    assert_eq!(panel[2].style, Style { fg: Some(Color::Red), bg: None });
    let last = buffer.render_partial_line(16, &buffer.contents[16..21]);
    assert_eq!(text(&last.spans), format!("00000010  35 36 37 38  39{}  56789", " ".repeat(35)));
}

#[test]
fn the_hex_view_shows_the_rows_that_fit() {
    let mut buffer = counting_buffer(100);
    let lines = buffer.hex_lines(4);
    assert_eq!(lines.len(), 3);
    assert_eq!(text(&lines[2].spans)[..8].to_string(), "00000020");
    buffer.scroll_position = 80;
    let lines: Vec<Line> = buffer.hex_lines(10);
    assert_eq!(lines.len(), 2);
    assert!(text(&lines[1].spans).starts_with("00000060  60 61 62 63     "));
    assert!(Buffer::new("e".to_string(), vec![]).hex_lines(5).is_empty());
}

#[test]
fn the_status_line_tells_mode_file_and_changes() {
    let mut buffer = counting_buffer(8);
    let line = buffer.render_status_line();
    assert_eq!(line.style, Style { fg: None, bg: Some(Color::Indexed(238)) });
    let texts: Vec<&str> = line.spans.iter().map(|span| span.content.as_str()).collect();
    assert_eq!(texts, vec![" NORMAL ", " ", "count", "", "  ", ""]);
    assert_eq!(line.spans[0].style, Style { fg: Some(Color::Black), bg: Some(Color::Blue) });
    buffer.mode = Mode::Select;
    buffer.last_saved_at = None;
    buffer.alert_message = Span::from_str("hello");
    let line = buffer.render_status_line();
    let texts: Vec<&str> = line.spans.iter().map(|span| span.content.as_str()).collect();
    assert_eq!(texts, vec![" SELECT ", " ", "count", " [+]", "  ", "hello"]);
    assert_eq!(line.spans[0].style.bg, Some(Color::Yellow));

    assert_eq!(buffer.partial_action_label(), "");
    buffer.partial_action = Some(PartialAction::Repeat);
    assert_eq!(buffer.partial_action_label(), "×");
}

#[test]
fn rectangles_clamp_inside_others() {
    let area = Rect::new(0, 0, 100, 100);
    assert_eq!(Rect::new(80, 80, 30, 30).clamp(area), Rect::new(70, 70, 30, 30));
    assert_eq!(Rect::new(5, 5, 200, 3).clamp(area), Rect::new(0, 5, 100, 3));
    assert_eq!(Rect::new(65530, 0, 10, 10), Rect { x: 65530, y: 0, width: 5, height: 10 });
}

#[test]
fn popups_are_as_wide_as_their_widest_line() {
    let popup = Popup::new(3, vec![Span::from_str("ab"), Span::from_str("日本語"), Span::from_str("→")]);
    assert_eq!(popup.width, 6);
    assert_eq!(popup.area_at(4, 5), Rect { x: 4, y: 5, width: 8, height: 3 });
    assert_eq!(Popup::new(0, vec![]).width, 0);
}

#[test]
fn popups_are_placed_under_their_byte() {
    let mut buffer = counting_buffer(100);
    buffer.primary_cursor = Cursor { head: 21, tail: 18 };
    buffer.popups = vec![
        Popup::new(18, vec![Span::from_str("one")]),
        Popup::new(5, vec![Span::from_str("two"), Span::from_str("lines")]),
        Popup::new(90, vec![Span::from_str("off screen")]),
        Popup::new(18, vec![Span::from_str("again")]),
    ];
    let area = Rect::new(0, 0, 80, 6);
    let (placements, primary) = buffer.popup_placements(area);
    assert_eq!(
        placements,
        vec![
            PopupPlacement { index: 0, area: Rect::new(16, 2, 5, 1) },
            PopupPlacement { index: 1, area: Rect::new(26, 1, 7, 2) },
            PopupPlacement { index: 3, area: Rect::new(16, 2, 7, 1) },
        ]
    );
    assert_eq!(primary, Some(3));

    let rendered = buffer.render(area);
    assert_eq!(rendered.hex_area, Rect::new(0, 0, 80, 5));
    assert_eq!(rendered.status_area, Rect::new(0, 5, 80, 1));
    assert_eq!(rendered.hex_lines.len(), 5);
    assert!(!rendered.empty_file);
    assert_eq!(rendered.popups, placements);
    assert_eq!(rendered.primary_popup, Some(3));
    assert_eq!(rendered.partial_action_label, "");
    assert!(Buffer::new("e".to_string(), vec![]).render(area).empty_file);
}

#[test]
fn bytes_are_drawn_where_clicks_select_them() {
    let buffer = counting_buffer(32);
    let line = buffer.render_line(16, &buffer.contents[16..32]);
    for column in 0..16usize {
        let index = 2 + 8 * (column / 4) + 2 * (column % 4);
        let before: usize = line.spans[..index].iter().map(|span| span.content.chars().count()).sum();
        assert_eq!(before, byte_column_to_screen_column(column));
        assert_eq!(line.spans[index].content, format!("{:02x}", 16 + column));
    }
}

#[test]
fn shown_digits_read_back() {
    for byte in 0..=255u8 {
        let digits: Vec<char> = hex_for_byte(byte).chars().collect();
        let high = nybble_from_hex(digits[0]).unwrap();
        let low = nybble_from_hex(digits[1]).unwrap();
        assert_eq!(high * 16 + low, byte);
    }
    for address in [0usize, 0x10, 0xabcdef, 0x1234_5678_9abc] {
        let written = render_address(address).content;
        assert_eq!(usize::from_str_radix(&written, 16).unwrap(), address);
    }
}

#[test]
fn rendering_needs_a_row_and_a_scroll_inside_the_file() {
    let mut buffer = counting_buffer(40);
    assert!(buffer.can_render_in(Rect::new(0, 0, 80, 24)));
    assert!(!buffer.can_render_in(Rect::new(0, 0, 80, 0)));
    buffer.scroll_position = 48;
    assert!(!buffer.can_render_in(Rect::new(0, 0, 80, 24)));
    buffer.scroll_position = 0;
    buffer.popups = vec![Popup { at: 3, width: u16::MAX, lines: vec![] }];
    assert!(!buffer.can_render_in(Rect::new(0, 0, 80, 24)));
    // a popup that is not shown does not matter
    buffer.popups = vec![Popup { at: 39, width: u16::MAX, lines: vec![] }];
    assert!(buffer.can_render_in(Rect::new(0, 0, 80, 3)));
}
