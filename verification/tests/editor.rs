use hexapoda::action::{Action, AppAction, BufferAction, CursorAction};
use hexapoda::app::{App, Event, LoadedFile, MouseEvent, MouseEventKind, Response};
use hexapoda::buffer::{Buffer, PartialAction};
use hexapoda::config::Config;
use hexapoda::cursor::Cursor;
use hexapoda::edit_action::EditAction;
use hexapoda::keypress::{KeyCode, KeyEvent, CONTROL, NONE};
use hexapoda::render::Color;
use hexapoda::window_size::WindowSize;

const WINDOW: WindowSize = WindowSize { rows: 24, covered_rows: 1 };

fn editor(count: usize) -> App {
    let files = (0..count)
        .map(|i| LoadedFile { name: format!("file{i}"), contents: Ok((0..64u8).collect()) })
        .collect();
    match App::new(Config::default(), files, 24) {
        Ok(app) => app,
        Err(message) => panic!("{message}"),
    }
}

fn key(character: char) -> KeyEvent {
    KeyEvent { code: KeyCode::Char(character), modifiers: NONE }
}

#[test]
fn covered_rows_depend_on_tab_bar() {
    assert_eq!(editor(1).window_size.covered_rows, 1);
    assert_eq!(editor(3).window_size.covered_rows, 2);
}

#[test]
fn switching_buffers_wraps() {
    let mut app = editor(3);
    app.previous_buffer();
    assert_eq!(app.current_buffer_index, 2);
    app.next_buffer();
    assert_eq!(app.current_buffer_index, 0);
    app.next_buffer();
    app.next_buffer();
    assert_eq!(app.current_buffer_index, 2);
    app.execute_app_action(AppAction::NextBuffer);
    assert_eq!(app.current_buffer_index, 0);
    app.execute_app_action(AppAction::PreviousBuffer);
    assert_eq!(app.current_buffer_index, 2);
}

#[test]
fn quitting_waits_for_saves() {
    let mut app = editor(2);
    app.buffers[1].execute_and_add(EditAction::Replace {
        primary_cursor: Cursor::at(0),
        cursors: vec![],
        primary_old_data: vec![0],
        old_data: vec![],
        new_byte: 1,
    });
    app.execute_app_action(AppAction::QuitIfSaved);
    assert!(!app.should_quit);
    assert_eq!(app.buffers[0].alert_message.content, "there are unsaved changes, use Q to override");
    assert_eq!(app.buffers[0].alert_message.style.fg, Some(Color::Red));
    app.execute_app_action(AppAction::Quit);
    assert!(app.should_quit);

    let mut saved = editor(2);
    saved.quit_if_saved();
    assert!(saved.should_quit);
}

#[test]
fn yank_copies_selections() {
    let mut app = editor(1);
    app.buffers[0].primary_cursor = Cursor { head: 3, tail: 1 };
    app.buffers[0].cursors = vec![Cursor::at(10), Cursor { head: 20, tail: 22 }];
    app.execute_app_action(AppAction::Yank);
    assert_eq!(app.primary_cursor_register, vec![1, 2, 3]);
    assert_eq!(app.other_cursor_registers, vec![vec![10], vec![20, 21, 22]]);
}

#[test]
fn clicking_selects_a_byte() {
    let mut app = editor(1);
    app.buffers[0].cursors = vec![Cursor::at(5)];
    app.buffers[0].scroll_position = 16;
    app.click_at(24, 2);
    assert_eq!(app.buffers[0].primary_cursor, Cursor::at(16 + 2 * 16 + 4));
    assert!(app.buffers[0].cursors.is_empty());
    app.click_at(12, 1);
    assert_eq!(app.buffers[0].primary_cursor, Cursor::at(16 + 2 * 16 + 4));

    let mut tabs = editor(2);
    tabs.click_at(10, 1);
    assert_eq!(tabs.buffers[0].primary_cursor, Cursor::at(0));
    tabs.click_at(59, 3);
    assert_eq!(tabs.buffers[0].primary_cursor, Cursor::at(2 * 16 + 15));
}

#[test]
fn cursor_actions_move_sort_and_merge() {
    let mut buffer = Buffer::new("b".to_string(), vec![0; 64]);
    buffer.primary_cursor = Cursor::at(20);
    buffer.cursors = vec![Cursor::at(40), Cursor::at(2), Cursor::at(21)];
    buffer.execute_cursor_action(CursorAction::GotoLineStart);
    // every cursor goes to its line start; those landing on the primary merge into it
    assert_eq!(buffer.primary_cursor, Cursor::at(16));
    assert_eq!(buffer.cursors, vec![Cursor::at(0), Cursor::at(32)]);
    buffer.execute_cursor_action(CursorAction::MoveByteUp);
    assert_eq!(buffer.primary_cursor, Cursor::at(0));
    assert_eq!(buffer.cursors, vec![Cursor::at(16)]);
}

#[test]
fn opening_keeps_readable_files_and_reports_the_last_error() {
    let files = vec![
        LoadedFile { name: "a".to_string(), contents: Err("first".to_string()) },
        LoadedFile { name: "b".to_string(), contents: Ok(vec![1, 2]) },
        LoadedFile { name: "c".to_string(), contents: Err("second".to_string()) },
        LoadedFile { name: "d".to_string(), contents: Ok(vec![3]) },
    ];
    let app = match App::new(Config::default(), files, 30) {
        Ok(app) => app,
        Err(message) => panic!("{message}"),
    };
    assert_eq!(app.buffers.len(), 2);
    assert_eq!(app.buffers[0].file_name, "b");
    assert_eq!(app.buffers[1].contents, vec![3]);
    assert_eq!(app.buffers[0].alert_message.content, "second");
    assert_eq!(app.buffers[0].alert_message.style.fg, Some(Color::Red));
    assert_eq!(app.buffers[1].alert_message.content, "");
    assert_eq!(app.window_size.covered_rows, 2);
    assert_eq!(app.window_size.rows, 30);

    let unreadable = vec![
        LoadedFile { name: "a".to_string(), contents: Err("first".to_string()) },
        LoadedFile { name: "b".to_string(), contents: Err("second".to_string()) },
    ];
    match App::new(Config::default(), unreadable, 30) {
        Ok(_) => panic!("no file could be read"),
        Err(message) => assert_eq!(message, "second"),
    }
}

#[test]
fn control_c_interrupts() {
    let mut app = editor(1);
    let response = app.handle_key(KeyEvent { code: KeyCode::Char('c'), modifiers: CONTROL }, Some(1), &[]);
    assert_eq!(response, Response::Interrupt);
    assert!(!app.should_quit);
}

#[test]
fn keys_move_cursors_and_run_app_actions() {
    let mut app = editor(2);
    assert_eq!(app.handle_key(key('l'), Some(1), &[]), Response::Continue);
    assert_eq!(app.buffers[0].primary_cursor, Cursor::at(1));
    assert_eq!(app.handle_key(key('k'), Some(1), &[]), Response::Continue);
    assert_eq!(app.buffers[0].primary_cursor, Cursor::at(17));
    // "g" waits for a second key, and "l" then goes to the line end
    app.handle_key(key('g'), Some(1), &[]);
    assert_eq!(app.buffers[0].partial_action, None);
    app.buffers[0].partial_action = Some(PartialAction::Goto);
    app.handle_key(key('l'), Some(1), &[]);
    assert_eq!(app.buffers[0].primary_cursor, Cursor::at(31));
    assert_eq!(app.buffers[0].partial_action, None);
    // "q" is an app action: there is nothing unsaved, so the editor quits
    assert_eq!(app.handle_key(key('q'), Some(1), &[]), Response::Continue);
    assert!(app.should_quit);
}

#[test]
fn buffer_actions_are_handed_back() {
    let mut app = editor(1);
    assert_eq!(
        app.handle_key(key('v'), Some(1), &[]),
        Response::Pending(BufferAction::SelectMode)
    );
    assert_eq!(app.handle_key(key('#'), Some(1), &[]), Response::Continue);
}

#[test]
fn replacing_takes_two_digits() {
    let mut app = editor(1);
    let buffer = &mut app.buffers[0];
    buffer.primary_cursor = Cursor { head: 2, tail: 3 };
    buffer.partial_action = Some(PartialAction::Replace);
    app.handle_key(key('A'), Some(1), &[]);
    assert_eq!(app.buffers[0].partial_replace, Some(10));
    assert_eq!(app.buffers[0].contents[2], 2);
    app.handle_key(key('7'), Some(1), &[]);
    assert_eq!(app.buffers[0].contents[2], 0xA7);
    assert_eq!(app.buffers[0].contents[3], 0xA7);
    assert_eq!(app.buffers[0].partial_action, None);
    assert!(app.buffers[0].has_unsaved_changes());
}

#[test]
fn repeats_move_each_cursor_by_its_count() {
    let config = Config::default();
    let mut buffer = Buffer::new("r".to_string(), vec![0; 64]);
    buffer.cursors = vec![Cursor::at(32), Cursor::at(40)];
    buffer.partial_action = Some(PartialAction::Repeat);
    let action = buffer.handle_key(key('l'), &config, Some(3), &[Some(2)], WINDOW);
    assert_eq!(action, None);
    assert_eq!(buffer.primary_cursor, Cursor::at(3));
    // the first other cursor moves twice, the second has no count and stays
    assert_eq!(buffer.cursors, vec![Cursor::at(34), Cursor::at(40)]);
    assert_eq!(buffer.partial_action, None);

    buffer.partial_action = Some(PartialAction::Repeat);
    buffer.handle_key(key('l'), &config, None, &[], WINDOW);
    assert_eq!(buffer.primary_cursor, Cursor::at(3));
    assert_eq!(buffer.alert_message.content, "repeat count is too large");
    assert_eq!(buffer.alert_message.style.fg, Some(Color::Red));

    buffer.partial_action = Some(PartialAction::Repeat);
    buffer.handle_key(key('l'), &config, Some(1), &[Some(1), None], WINDOW);
    assert_eq!(buffer.primary_cursor, Cursor::at(3));
    assert_eq!(buffer.alert_message.content, "repeat count is too large");

    // the next key clears the alert
    buffer.handle_key(key('j'), &config, Some(1), &[], WINDOW);
    assert_eq!(buffer.alert_message.content, "");
    assert_eq!(buffer.primary_cursor, Cursor::at(2));
}

#[test]
fn other_keys_return_their_action() {
    let config = Config::default();
    let mut buffer = Buffer::new("o".to_string(), vec![0; 16]);
    assert_eq!(
        buffer.handle_other_modes(key('Q'), &config, WINDOW),
        Some(Action::App(AppAction::Quit))
    );
    assert_eq!(buffer.handle_other_modes(key('l'), &config, WINDOW), None);
    assert_eq!(buffer.primary_cursor, Cursor::at(1));
}

#[test]
fn events_resize_and_click() {
    let mut app = editor(1);
    assert_eq!(app.handle_event(Event::Resize(80, 40), Some(1), &[]), Response::Continue);
    assert_eq!(app.window_size.rows, 40);
    let click = MouseEvent { kind: MouseEventKind::Down, column: 13, row: 1 };
    assert_eq!(app.handle_event(Event::Mouse(click), Some(1), &[]), Response::Continue);
    assert_eq!(app.buffers[0].primary_cursor, Cursor::at(17));
    let scroll = MouseEvent { kind: MouseEventKind::ScrollDown, column: 13, row: 1 };
    app.handle_mouse(scroll);
    assert_eq!(app.buffers[0].scroll_position, 48);
    assert_eq!(app.buffers[0].primary_cursor, Cursor::at(48));
    assert_eq!(app.handle_event(Event::Other, Some(1), &[]), Response::Continue);
}

#[test]
fn repeating_once_is_moving_once() {
    let config = Config::default();
    let mut repeated = Buffer::new("r".to_string(), vec![0; 64]);
    repeated.primary_cursor = Cursor::at(20);
    repeated.cursors = vec![Cursor::at(40), Cursor::at(2)];
    let mut once = Buffer::new("r".to_string(), vec![0; 64]);
    once.primary_cursor = Cursor::at(20);
    once.cursors = vec![Cursor::at(40), Cursor::at(2)];
    repeated.partial_action = Some(PartialAction::Repeat);
    repeated.handle_key(key('i'), &config, Some(1), &[Some(1), Some(1)], WINDOW);
    once.handle_key(key('i'), &config, Some(1), &[], WINDOW);
    assert_eq!(repeated.primary_cursor, once.primary_cursor);
    assert_eq!(repeated.cursors, once.cursors);
    assert_eq!(once.primary_cursor, Cursor::at(4));
    assert_eq!(once.cursors, vec![Cursor::at(2), Cursor::at(24)]);
}

#[test]
fn keys_need_a_cursor_on_the_bytes() {
    let mut buffer = Buffer::new("k".to_string(), vec![0; 8]);
    assert!(buffer.is_key_ready());
    buffer.cursors = vec![Cursor { head: 3, tail: 8 }];
    assert!(!buffer.is_key_ready());
    assert!(!Buffer::new("e".to_string(), vec![]).is_key_ready());
}

#[test]
fn clicks_are_checked_before_they_are_handled() {
    let app = editor(2);
    assert!(app.click_in_range(10, 1));
    assert!(!app.click_in_range(10, 0));
    assert!(app.click_in_range(0, 0));
    assert!(App::interrupts(KeyEvent { code: KeyCode::Char('c'), modifiers: CONTROL }));
    assert!(!App::interrupts(key('c')));
}

#[test]
fn keys_scroll_the_view_to_the_primary_cursor() {
    let config = Config::default();
    let window = WindowSize { rows: 2, covered_rows: 1 };
    let mut buffer = Buffer::new("s".to_string(), vec![0; 48]);
    buffer.handle_key(key('k'), &config, Some(1), &[], window);
    assert_eq!(buffer.primary_cursor, Cursor::at(16));
    assert_eq!(buffer.scroll_position, 16);
    buffer.handle_key(key('l'), &config, Some(1), &[], window);
    assert_eq!(buffer.scroll_position, 16);
    buffer.handle_key(key('i'), &config, Some(1), &[], window);
    assert_eq!(buffer.primary_cursor, Cursor::at(1));
    assert_eq!(buffer.scroll_position, 0);

    let tall = WindowSize { rows: 3, covered_rows: 1 };
    let mut buffer = Buffer::new("s".to_string(), vec![0; 100]);
    buffer.clamp_screen_to_primary_cursor(tall);
    assert_eq!(buffer.scroll_position, 0);
    buffer.primary_cursor = Cursor::at(70);
    buffer.clamp_screen_to_primary_cursor(tall);
    assert_eq!(buffer.scroll_position, 48);
    assert!(buffer.is_showing_primary(tall));
    buffer.primary_cursor = Cursor::at(5);
    assert!(!buffer.is_showing_primary(tall));
    buffer.clamp_screen_to_primary_cursor(tall);
    assert_eq!(buffer.scroll_position, 0);
}

#[test]
fn resizing_keeps_the_primary_cursor_on_screen() {
    let mut app = editor(1);
    app.buffers[0].primary_cursor = Cursor::at(40);
    assert!(app.accepts_event(Event::Resize(80, 2)));
    assert!(!app.accepts_event(Event::Resize(80, 1)));
    assert_eq!(app.handle_event(Event::Resize(80, 2), Some(1), &[]), Response::Continue);
    assert_eq!(app.window_size.rows, 2);
    assert_eq!(app.buffers[0].scroll_position, 32);
}

#[test]
fn the_wheel_scrolls_three_lines() {
    let mut app = editor(1);
    app.handle_event(Event::Resize(80, 3), Some(1), &[]);
    let down = MouseEvent { kind: MouseEventKind::ScrollDown, column: 0, row: 0 };
    let up = MouseEvent { kind: MouseEventKind::ScrollUp, column: 0, row: 0 };
    assert!(app.accepts_event(Event::Mouse(down)));
    app.handle_event(Event::Mouse(down), Some(1), &[]);
    assert_eq!(app.buffers[0].scroll_position, 48);
    assert_eq!(app.buffers[0].primary_cursor, Cursor::at(48));
    app.handle_event(Event::Mouse(down), Some(1), &[]);
    assert_eq!(app.buffers[0].scroll_position, 48);
    app.handle_event(Event::Mouse(up), Some(1), &[]);
    assert_eq!(app.buffers[0].scroll_position, 0);
    assert_eq!(app.buffers[0].primary_cursor, Cursor::at(31));
}
