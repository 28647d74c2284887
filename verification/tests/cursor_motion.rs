use hexapoda::action::CursorAction;
use hexapoda::cursor::Cursor;
use hexapoda::cursor::actions::previous_multiple_of;

#[test]
fn byte_moves_stop_at_the_edges() {
    let mut cursor = Cursor { head: 20, tail: 25 };
    cursor.move_byte_up();
    assert_eq!(cursor, Cursor::at(4));
    cursor.move_byte_up();
    assert_eq!(cursor, Cursor::at(4));
    cursor.move_byte_down(30);
    assert_eq!(cursor, Cursor::at(20));
    cursor.move_byte_down(30);
    assert_eq!(cursor, Cursor::at(20));
    cursor.move_byte_right(21);
    assert_eq!(cursor, Cursor::at(21));
    cursor.move_byte_right(21);
    assert_eq!(cursor, Cursor::at(21));
    cursor.move_byte_left();
    assert_eq!(cursor, Cursor::at(20));
    let mut start = Cursor::at(0);
    start.move_byte_left();
    assert_eq!(start, Cursor::at(0));
}

#[test]
fn extending_keeps_the_tail() {
    let mut cursor = Cursor::at(20);
    cursor.extend_byte_up();
    assert_eq!(cursor, Cursor { head: 4, tail: 20 });
    cursor.extend_byte_down(40);
    assert_eq!(cursor, Cursor { head: 20, tail: 20 });
    cursor.extend_byte_right(40);
    assert_eq!(cursor, Cursor { head: 21, tail: 20 });
    cursor.extend_byte_left();
    cursor.extend_byte_left();
    assert_eq!(cursor, Cursor { head: 19, tail: 20 });
}

#[test]
fn line_and_file_jumps() {
    let mut cursor = Cursor { head: 0x25, tail: 0x10 };
    cursor.goto_line_start();
    assert_eq!(cursor, Cursor::at(0x20));
    let mut cursor = Cursor::at(0x25);
    cursor.goto_line_end(0x100);
    assert_eq!(cursor, Cursor::at(0x2f));
    let mut cursor = Cursor::at(0x25);
    cursor.goto_line_end(0x27);
    assert_eq!(cursor, Cursor::at(0x27));
    let mut cursor = Cursor::at(0x25);
    cursor.goto_file_start();
    assert_eq!(cursor, Cursor::at(0x05));
    // last line that has a byte in column 5 of a buffer ending at 0x43
    let mut cursor = Cursor::at(0x05);
    cursor.goto_file_end(0x43);
    assert_eq!(cursor, Cursor::at(0x35));
    let mut cursor = Cursor::at(0x02);
    cursor.goto_file_end(0x43);
    assert_eq!(cursor, Cursor::at(0x42));
    assert_eq!(previous_multiple_of(16, 0), 0);
    assert_eq!(previous_multiple_of(16, 17), 16);
    assert_eq!(previous_multiple_of(16, 16), 0);
}

#[test]
fn extend_word_moves() {
    let mut cursor = Cursor::at(1);
    cursor.extend_next_word_start(99);
    assert_eq!(cursor, Cursor { head: 4, tail: 1 });
    cursor.extend_next_word_end(99);
    assert_eq!(cursor, Cursor { head: 7, tail: 1 });
    cursor.extend_next_word_end(99);
    assert_eq!(cursor, Cursor { head: 11, tail: 1 });
    cursor.extend_previous_word_start();
    assert_eq!(cursor, Cursor { head: 8, tail: 1 });
    cursor.extend_previous_word_start();
    assert_eq!(cursor, Cursor { head: 4, tail: 1 });
}

#[test]
fn extend_lines() {
    let mut cursor = Cursor::at(0x13);
    cursor.extend_line_below(0x100);
    assert_eq!(cursor, Cursor { head: 0x1f, tail: 0x10 });
    cursor.extend_line_below(0x100);
    assert_eq!(cursor, Cursor { head: 0x2f, tail: 0x10 });
    cursor.extend_line_below(0x22);
    assert_eq!(cursor, Cursor { head: 0x22, tail: 0x10 });

    let mut cursor = Cursor::at(0x23);
    cursor.extend_line_above(0x100);
    assert_eq!(cursor, Cursor { head: 0x20, tail: 0x2f });
    cursor.extend_line_above(0x100);
    assert_eq!(cursor, Cursor { head: 0x10, tail: 0x2f });
    let mut top = Cursor { head: 0x00, tail: 0x0f };
    top.extend_line_above(0x100);
    assert_eq!(top, Cursor { head: 0x00, tail: 0x0f });
}

#[test]
fn execute_dispatches_every_action() {
    let max = 0x40;
    let start = Cursor { head: 0x15, tail: 0x12 };
    let cases = [
        (CursorAction::MoveByteUp, Cursor::at(0x05)),
        (CursorAction::MoveByteDown, Cursor::at(0x25)),
        (CursorAction::MoveByteLeft, Cursor::at(0x14)),
        (CursorAction::MoveByteRight, Cursor::at(0x16)),
        (CursorAction::ExtendByteUp, Cursor { head: 0x05, tail: 0x12 }),
        (CursorAction::ExtendByteDown, Cursor { head: 0x25, tail: 0x12 }),
        (CursorAction::ExtendByteLeft, Cursor { head: 0x14, tail: 0x12 }),
        (CursorAction::ExtendByteRight, Cursor { head: 0x16, tail: 0x12 }),
        (CursorAction::GotoLineStart, Cursor::at(0x10)),
        (CursorAction::GotoLineEnd, Cursor::at(0x1f)),
        (CursorAction::GotoFileStart, Cursor::at(0x05)),
        (CursorAction::GotoFileEnd, Cursor::at(0x35)),
        (CursorAction::MoveNextWordStart, Cursor::at(0x18)),
        (CursorAction::MoveNextWordEnd, Cursor { head: 0x17, tail: 0x15 }),
        (CursorAction::MovePreviousWordStart, Cursor { head: 0x14, tail: 0x15 }),
        (CursorAction::ExtendNextWordStart, Cursor { head: 0x18, tail: 0x12 }),
        (CursorAction::ExtendNextWordEnd, Cursor { head: 0x17, tail: 0x12 }),
        (CursorAction::ExtendPreviousWordStart, Cursor { head: 0x14, tail: 0x12 }),
        (CursorAction::ExtendLineBelow, Cursor { head: 0x1f, tail: 0x10 }),
        (CursorAction::ExtendLineAbove, Cursor { head: 0x10, tail: 0x1f }),
    ];
    for (action, expected) in cases {
        let mut cursor = start;
        cursor.execute(action, max);
        assert_eq!(cursor, expected, "{:?}", action);
        assert!(cursor.head <= max && cursor.tail <= max);
    }
}

#[test]
fn opposite_moves_cancel() {
    let start = Cursor::at(0x21);
    let mut cursor = start;
    cursor.move_byte_right(0x40);
    cursor.move_byte_left();
    assert_eq!(cursor, start);
    cursor.move_byte_down(0x40);
    cursor.move_byte_up();
    assert_eq!(cursor, start);
}
