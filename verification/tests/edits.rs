use hexapoda::buffer::{Buffer, Mode, PartialAction};
use hexapoda::cursor::Cursor;
use hexapoda::edit_action::{EditAction, copy_selection, cursors_in_order};

fn buffer_with(bytes: &[u8]) -> Buffer {
    Buffer::new("test".to_string(), bytes.to_vec())
}

#[test]
fn new_buffer_is_saved() {
    let buffer = buffer_with(&[1, 2, 3]);
    assert!(buffer.all_changes_saved());
    assert!(!buffer.has_unsaved_changes());
    assert_eq!(buffer.max_contents_index(), 2);
    assert_eq!(buffer_with(&[]).max_contents_index(), 0);
    assert_eq!(buffer.mode, Mode::Normal);
    assert_eq!(buffer.primary_cursor, Cursor::at(0));
}

#[test]
fn replace_then_undo_restores() {
    let mut buffer = buffer_with(&[0, 1, 2, 3, 4, 5, 6, 7]);
    let primary = Cursor { head: 1, tail: 2 };
    let cursors = vec![Cursor { head: 6, tail: 5 }];
    let edit = EditAction::Replace {
        primary_cursor: primary,
        cursors: cursors.clone(),
        primary_old_data: vec![1, 2],
        old_data: vec![vec![5, 6]],
        new_byte: 0xAB,
    };
    buffer.execute_edit(&edit);
    assert_eq!(buffer.contents, vec![0, 0xAB, 0xAB, 3, 4, 0xAB, 0xAB, 7]);
    buffer.primary_cursor = Cursor::at(0);
    buffer.cursors.clear();
    buffer.undo_edit(&edit);
    assert_eq!(buffer.contents, vec![0, 1, 2, 3, 4, 5, 6, 7]);
    assert_eq!(buffer.primary_cursor, primary);
    assert_eq!(buffer.cursors, cursors);
}

#[test]
fn delete_then_undo_restores() {
    let mut buffer = buffer_with(&[10, 11, 12, 13, 14, 15, 16, 17, 18, 19]);
    let primary = Cursor { head: 1, tail: 2 };
    let cursors = vec![Cursor { head: 4, tail: 4 }, Cursor { head: 8, tail: 6 }];
    let edit = EditAction::Delete {
        primary_cursor: primary,
        cursors: cursors.clone(),
        primary_old_data: vec![11, 12],
        old_data: vec![vec![14], vec![16, 17, 18]],
    };
    buffer.execute_edit(&edit);
    assert_eq!(buffer.contents, vec![10, 13, 15, 19]);
    assert_eq!(buffer.primary_cursor, Cursor::at(1));
    assert_eq!(buffer.cursors, vec![Cursor::at(3)]);
    buffer.undo_edit(&edit);
    assert_eq!(buffer.contents, vec![10, 11, 12, 13, 14, 15, 16, 17, 18, 19]);
    assert_eq!(buffer.primary_cursor, primary);
    assert_eq!(buffer.cursors, cursors);
}

#[test]
fn delete_with_a_cursor_before_the_primary_undoes_in_order() {
    let mut buffer = buffer_with(&[b'A', b'B', b'C', b'D']);
    let edit = EditAction::Delete {
        primary_cursor: Cursor::at(2),
        cursors: vec![Cursor::at(0)],
        primary_old_data: vec![b'C'],
        old_data: vec![vec![b'A']],
    };
    buffer.execute_edit(&edit);
    assert_eq!(buffer.contents, vec![b'B', b'D']);
    buffer.undo_edit(&edit);
    assert_eq!(buffer.contents, vec![b'A', b'B', b'C', b'D']);
    assert_eq!(buffer.primary_cursor, Cursor::at(2));
    assert_eq!(buffer.cursors, vec![Cursor::at(0)]);
}

#[test]
fn delete_around_the_primary_undoes_every_byte_in_place() {
    let original = vec![0, 1, 2, 3, 4, 5, 6];
    let mut buffer = buffer_with(&original);
    let edit = EditAction::Delete {
        primary_cursor: Cursor::at(3),
        cursors: vec![Cursor::at(1), Cursor::at(5)],
        primary_old_data: vec![3],
        old_data: vec![vec![1], vec![5]],
    };
    buffer.execute_edit(&edit);
    assert_eq!(buffer.contents, vec![0, 2, 4, 6]);
    buffer.undo_edit(&edit);
    assert_eq!(buffer.contents, original);
    assert_eq!(buffer.primary_cursor, Cursor::at(3));
    assert_eq!(buffer.cursors, vec![Cursor::at(1), Cursor::at(5)]);
}

#[test]
fn adding_an_edit_marks_unsaved_and_drops_undone_edits() {
    let mut buffer = buffer_with(&[1, 2, 3, 4]);
    buffer.execute_and_add(EditAction::Replace {
        primary_cursor: Cursor::at(0),
        cursors: vec![],
        primary_old_data: vec![1],
        old_data: vec![],
        new_byte: 9,
    });
    assert!(buffer.has_unsaved_changes());
    assert_eq!(buffer.edit_history.len(), 1);
    assert_eq!(buffer.contents, vec![9, 2, 3, 4]);

    // pretend the edit was undone and saved there, then edit again
    buffer.time_traveling = Some(0);
    buffer.last_saved_at = Some(1);
    buffer.execute_and_add(EditAction::Delete {
        primary_cursor: Cursor::at(3),
        cursors: vec![],
        primary_old_data: vec![4],
        old_data: vec![],
    });
    assert_eq!(buffer.edit_history.len(), 1);
    assert_eq!(buffer.time_traveling, None);
    assert_eq!(buffer.last_saved_at, None);
    assert!(buffer.has_unsaved_changes());
    assert_eq!(buffer.contents, vec![9, 2, 3]);
    assert_eq!(buffer.primary_cursor, Cursor::at(2));
}

#[test]
fn saved_state_follows_time_travel() {
    let mut buffer = buffer_with(&[1]);
    buffer.time_traveling = Some(0);
    assert!(buffer.all_changes_saved());
    buffer.last_saved_at = None;
    assert!(!buffer.all_changes_saved());
}

#[test]
fn combine_merges_overlapping_selections() {
    let mut buffer = buffer_with(&[0; 32]);
    buffer.primary_cursor = Cursor { head: 10, tail: 12 };
    buffer.cursors = vec![
        Cursor { head: 1, tail: 3 },
        Cursor { head: 3, tail: 5 },
        Cursor { head: 11, tail: 14 },
        Cursor { head: 20, tail: 21 },
    ];
    buffer.combine_cursors_if_overlapping();
    assert_eq!(buffer.primary_cursor, Cursor { head: 10, tail: 14 });
    assert_eq!(buffer.cursors, vec![Cursor { head: 1, tail: 5 }, Cursor { head: 20, tail: 21 }]);
}

#[test]
fn cursors_in_order_places_the_primary_by_head() {
    let cursors = [Cursor::at(2), Cursor::at(8), Cursor::at(12)];
    assert_eq!(
        cursors_in_order(Cursor::at(10), &cursors),
        vec![Cursor::at(2), Cursor::at(8), Cursor::at(10), Cursor::at(12)]
    );
    assert_eq!(
        cursors_in_order(Cursor::at(0), &cursors),
        vec![Cursor::at(0), Cursor::at(2), Cursor::at(8), Cursor::at(12)]
    );
    assert_eq!(cursors_in_order(Cursor::at(5), &[]), vec![Cursor::at(5)]);
}

#[test]
fn copy_selection_copies_inclusive_range() {
    let bytes = vec![5, 6, 7, 8];
    assert_eq!(copy_selection(&bytes, Cursor { head: 3, tail: 1 }), vec![6, 7, 8]);
}

#[test]
fn replace_key_takes_two_hex_digits() {
    let mut buffer = buffer_with(&[0, 1, 2, 3]);
    buffer.partial_action = Some(PartialAction::Replace);
    buffer.primary_cursor = Cursor { head: 1, tail: 2 };
    buffer.handle_replace(Some('a'));
    assert_eq!(buffer.partial_replace, Some(10));
    assert_eq!(buffer.contents, vec![0, 1, 2, 3]);
    buffer.handle_replace(Some('F'));
    assert_eq!(buffer.contents, vec![0, 0xAF, 0xAF, 3]);
    assert_eq!(buffer.partial_action, None);
    assert_eq!(buffer.partial_replace, None);
    assert_eq!(buffer.edit_history.len(), 1);
    let edit = buffer.edit_history.pop().unwrap();
    buffer.undo_edit(&edit);
    assert_eq!(buffer.contents, vec![0, 1, 2, 3]);
}

#[test]
fn replace_key_is_cancelled_by_other_keys() {
    let mut buffer = buffer_with(&[0, 1]);
    buffer.partial_action = Some(PartialAction::Replace);
    buffer.handle_replace(Some('1'));
    buffer.handle_replace(Some('x'));
    assert_eq!(buffer.partial_action, None);
    assert_eq!(buffer.partial_replace, None);
    assert_eq!(buffer.contents, vec![0, 1]);
    buffer.partial_action = Some(PartialAction::Replace);
    buffer.handle_replace(None);
    assert_eq!(buffer.partial_action, None);
}
