use hexapoda::cursor::{Cursor, InCursor};

#[test]
fn bounds_follow_direction() {
    let forward = Cursor { head: 3, tail: 7 };
    let backward = Cursor { head: 7, tail: 3 };
    assert_eq!(forward.lower_bound(), 3);
    assert_eq!(forward.upper_bound(), 7);
    assert_eq!(backward.lower_bound(), 3);
    assert_eq!(backward.upper_bound(), 7);
    assert_eq!(forward.len(), 5);
    assert_eq!(Cursor::at(9).len(), 1);
    assert_eq!(*backward.range().start(), 3);
    assert_eq!(*backward.range().end(), 7);
}

#[test]
fn contains_tells_head_from_rest() {
    let cursor = Cursor { head: 7, tail: 3 };
    assert_eq!(cursor.contains(7), Some(InCursor::Head));
    assert_eq!(cursor.contains(3), Some(InCursor::Rest));
    assert_eq!(cursor.contains(5), Some(InCursor::Rest));
    assert_eq!(cursor.contains(2), None);
    assert_eq!(cursor.contains(8), None);
    assert!(cursor.contains_space_before(4));
    assert!(cursor.contains_space_before(7));
    assert!(!cursor.contains_space_before(3));
    assert!(!cursor.contains_space_before(8));
}

#[test]
fn collapse_flip_and_clamp() {
    let mut cursor = Cursor { head: 2, tail: 9 };
    cursor.flip();
    assert_eq!(cursor, Cursor { head: 9, tail: 2 });
    cursor.flip();
    assert_eq!(cursor, Cursor { head: 2, tail: 9 });
    cursor.clamp(4, 3);
    assert_eq!(cursor, Cursor { head: 4, tail: 6 });
    cursor.collapse();
    assert_eq!(cursor, Cursor::at(4));
}

#[test]
fn combine_keeps_direction() {
    let mut forward = Cursor { head: 3, tail: 6 };
    forward.combine_with(Cursor { head: 5, tail: 9 });
    assert_eq!(forward, Cursor { head: 3, tail: 9 });

    let mut backward = Cursor { head: 6, tail: 3 };
    backward.combine_with(Cursor { head: 9, tail: 5 });
    assert_eq!(backward, Cursor { head: 9, tail: 3 });

    // a collapsed cursor merged with a forward one keeps only its own byte
    let mut collapsed = Cursor::at(3);
    collapsed.combine_with(Cursor { head: 2, tail: 5 });
    assert_eq!(collapsed, Cursor::at(3));
}
