use hexapoda::action::{Action, AppAction, BufferAction, CursorAction};

#[test]
fn names_read_back() {
    let actions = [
        Action::App(AppAction::QuitIfSaved),
        Action::App(AppAction::Yank),
        Action::Buffer(BufferAction::SplitSelectionsInto3s),
        Action::Buffer(BufferAction::JumpToSelectedOffsetRelativeToMark),
        Action::Buffer(BufferAction::InspectSelectionColor),
        Action::Cursor(CursorAction::ExtendLineAbove),
        Action::Cursor(CursorAction::MoveByteUp),
    ];
    for action in actions {
        assert_eq!(Action::from_name(action.name()), Ok(action));
    }
    assert_eq!(AppAction::Quit.name(), "quit");
    assert_eq!(BufferAction::SplitSelectionsInto3s.name(), "split_selections_into_3_s");
    assert_eq!(CursorAction::GotoFileEnd.name(), "goto_file_end");
}

#[test]
fn unknown_names_are_refused() {
    assert_eq!(Action::from_name("fly"), Err("invalid action: fly".to_string()));
    assert_eq!(AppAction::from_name("goto"), Err(()));
    assert_eq!(BufferAction::from_name("goto"), Ok(BufferAction::Goto));
    assert_eq!(CursorAction::from_name(""), Err(()));
}

#[test]
fn popups_and_inspection() {
    assert!(Action::App(AppAction::Quit).clears_popups());
    assert!(!Action::App(AppAction::Yank).clears_popups());
    assert!(!Action::Buffer(BufferAction::Goto).clears_popups());
    assert!(Action::Buffer(BufferAction::Delete).clears_popups());
    assert!(Action::Cursor(CursorAction::GotoLineEnd).clears_popups());
    assert!(Action::Buffer(BufferAction::InspectSelection).is_inspection());
    assert!(Action::Buffer(BufferAction::InspectSelectionColor).is_inspection());
    assert!(!Action::Buffer(BufferAction::Delete).is_inspection());
    assert!(!Action::Cursor(CursorAction::MoveByteUp).is_inspection());
}
