use hexapoda::action::{Action, AppAction, BufferAction, CursorAction};
use hexapoda::buffer::{Mode, PartialAction};
use hexapoda::config::{Binding, Config};
use hexapoda::keypress::{ALT, CONTROL, KeyCode, KeyEvent, Keypress, NONE, SHIFT};

fn key(code: KeyCode, modifiers: u8) -> Keypress {
    Keypress { code, modifiers }
}

#[test]
fn keypresses_parse() {
    assert_eq!(Keypress::try_from_str("q"), Ok(key(KeyCode::Char('q'), NONE)));
    assert_eq!(Keypress::try_from_str("C-e"), Ok(key(KeyCode::Char('e'), CONTROL)));
    assert_eq!(Keypress::try_from_str("A-;"), Ok(key(KeyCode::Char(';'), ALT)));
    assert_eq!(Keypress::try_from_str("C- "), Ok(key(KeyCode::Char(' '), CONTROL)));
    assert_eq!(Keypress::try_from_str("pagedown"), Ok(key(KeyCode::PageDown, NONE)));
    assert_eq!(Keypress::try_from_str("S-escape"), Ok(key(KeyCode::Esc, SHIFT)));
    assert_eq!(Keypress::try_from_str("C-A-x"), Ok(key(KeyCode::Char('x'), CONTROL | ALT)));
}

#[test]
fn bad_keypresses_are_refused() {
    assert_eq!(Keypress::try_from_str(""), Err("keypress must not be empty".to_string()));
    assert_eq!(Keypress::try_from_str("-"), Err("invalid key code: ''".to_string()));
    assert_eq!(Keypress::try_from_str("xy"), Err("invalid key code: 'xy'".to_string()));
    assert_eq!(Keypress::try_from_str("é"), Err("invalid key code: 'é'".to_string()));
    assert_eq!(Keypress::try_from_str("X-a"), Err("unknown modifier: X".to_string()));
    assert_eq!(Keypress::try_from_str("Ctrl-a"), Err("invalid modifier: Ctrl".to_string()));
    assert_eq!(Keypress::try_from_str("Q-Ctrl-a"), Err("unknown modifier: Q".to_string()));
}

#[test]
fn keypresses_print_and_read_back() {
    let keys = [
        key(KeyCode::Char('q'), NONE),
        key(KeyCode::Char('e'), CONTROL),
        key(KeyCode::Char(';'), ALT),
        key(KeyCode::Esc, SHIFT),
        key(KeyCode::Backspace, NONE),
        key(KeyCode::PageUp, CONTROL),
    ];
    for keypress in keys {
        let text = keypress.to_string();
        assert_eq!(Keypress::try_from_str(&text), Ok(keypress));
    }
    assert_eq!(key(KeyCode::Char('e'), CONTROL).to_string(), "C-e");
    assert_eq!(key(KeyCode::Delete, NONE).to_string(), "delete");
    // several modifiers print without prefix
    assert_eq!(key(KeyCode::Char('x'), CONTROL | ALT).to_string(), "x");
}

#[test]
fn key_events_drop_shift() {
    let event = KeyEvent { code: KeyCode::Char('Q'), modifiers: SHIFT | CONTROL };
    assert_eq!(Keypress::from_event(event), key(KeyCode::Char('Q'), CONTROL));
    assert_eq!(Keypress::from_code(KeyCode::Tab), key(KeyCode::Tab, NONE));
    assert_eq!(KeyCode::Char('z').as_char(), Some('z'));
    assert_eq!(KeyCode::Enter.as_char(), None);
}

#[test]
fn default_bindings() {
    let config = Config::default();
    assert_eq!(
        config.lookup(Mode::Normal, None, key(KeyCode::Char('q'), NONE)),
        Some(Action::App(AppAction::QuitIfSaved))
    );
    assert_eq!(
        config.lookup(Mode::Normal, None, key(KeyCode::Char('e'), CONTROL)),
        Some(Action::Buffer(BufferAction::ScrollDown))
    );
    assert_eq!(
        config.lookup(Mode::Select, None, key(KeyCode::Char('w'), NONE)),
        Some(Action::Cursor(CursorAction::ExtendNextWordStart))
    );
    assert_eq!(
        config.lookup(Mode::Normal, Some(PartialAction::Goto), key(KeyCode::Char('g'), NONE)),
        Some(Action::Cursor(CursorAction::GotoFileStart))
    );
    assert_eq!(
        config.lookup(Mode::Normal, None, key(KeyCode::Char(' '), ALT)),
        Some(Action::Buffer(BufferAction::InspectSelectionColor))
    );
    assert_eq!(config.lookup(Mode::Select, Some(PartialAction::Goto), key(KeyCode::Char('g'), NONE)), None);
    assert_eq!(config.lookup(Mode::Insert, None, key(KeyCode::Char('q'), NONE)), None);
    assert_eq!(config.bindings.len(), 168);
}

#[test]
fn later_bindings_override() {
    let mut config = Config::default();
    let keypress = key(KeyCode::Char('q'), NONE);
    config.bind(Binding {
        mode: Mode::Normal,
        partial_action: None,
        keypress,
        action: Action::App(AppAction::Quit),
    });
    assert_eq!(config.lookup(Mode::Normal, None, keypress), Some(Action::App(AppAction::Quit)));
    assert_eq!(
        config.lookup(Mode::Select, None, keypress),
        Some(Action::App(AppAction::QuitIfSaved))
    );
}
