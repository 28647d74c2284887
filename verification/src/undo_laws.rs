use vstd::prelude::*;
use crate::buffer::{Buffer, combine_from};
use crate::cursor::Cursor;
use crate::cursor_moves::{any_covers, lemma_combine_keeps_selection, points};
use crate::edit_action::{
    EditAction, all_collapsed_to_start, all_within, collapsed_to_start, last_index, can_undo_edit, delete_fits, deleted_with, drain_each, drain_each_fits,
    edit_executed, edit_undone, in_order, insert_each, insert_each_fits, is_order_position,
    lemma_undo_replace_restores, restored_with, selected, selections, sorted_by_head, splice,
    undo_delete_fits, views, zip_len, data_in_order,
};

verus! {

/// Whether the ranges come one after another, without touching, and all lie
/// inside contents of length `len`.
pub open spec fn ascending(order: Seq<Cursor>, len: int) -> bool {
    &&& forall|i: int, j: int| 0 <= i < j < order.len() ==> order[i].hi() < order[j].lo()
    &&& forall|i: int| 0 <= i < order.len() ==> #[trigger] order[i].hi() < len
}

/// The total length of the ranges `a .. b`.
pub open spec fn removed_len(order: Seq<Cursor>, a: int, b: int) -> int
    decreases b - a,
{
    if a >= b {
        0
    } else {
        (order[a].hi() - order[a].lo() + 1) + removed_len(order, a + 1, b)
    }
}

/// `c` without the ranges `a .. b`, each removed at its place in `c`
/// (the later ones first, so that the earlier places do not move).
pub open spec fn without_ranges(c: Seq<u8>, order: Seq<Cursor>, a: int, b: int) -> Seq<u8>
    decreases b - a,
{
    if a >= b {
        c
    } else {
        splice(
            without_ranges(c, order, a + 1, b),
            order[a].lo() as int,
            order[a].hi() + 1,
            Seq::empty(),
        )
    }
}

proof fn lemma_without_ranges(c: Seq<u8>, order: Seq<Cursor>, a: int, b: int)
    requires
        ascending(order, c.len() as int),
        0 <= a <= b <= order.len(),
    ensures
        without_ranges(c, order, a, b).len() == c.len() - removed_len(order, a, b),
        removed_len(order, a, b) >= 0,
        a < b ==> removed_len(order, a, b) <= order[b - 1].hi() + 1 - order[a].lo(),
        a < b ==> forall|i: int|
            0 <= i < order[a].lo() ==> #[trigger] without_ranges(c, order, a, b)[i] == c[i],
        a == b ==> without_ranges(c, order, a, b) == c,
    decreases b - a,
{
    if a < b {
        lemma_without_ranges(c, order, a + 1, b);
        let rest = without_ranges(c, order, a + 1, b);
        assert(order[a].hi() < c.len());
        if a + 1 < b {
            assert(order[a].hi() < order[a + 1].lo());
            assert(order[b - 1].hi() < c.len());
            assert(order[a].lo() <= order[a].hi());
        }
        assert(order[a].hi() < rest.len());
        assert forall|i: int| 0 <= i < order[a].lo() implies #[trigger] without_ranges(c, order, a, b)[i]
            == c[i] by {
            if a + 1 < b {
                assert(order[a].hi() < order[a + 1].lo());
            }
        }
    }
}

/// Removing a later range and then an earlier one gives what removing the
/// earlier one and then the later one, shifted, gives.
proof fn lemma_splices_commute(x: Seq<u8>, p: int, q: int, r: int, s: int)
    requires
        0 <= p <= q <= r <= s <= x.len(),
    ensures
        splice(splice(x, r, s, Seq::empty()), p, q, Seq::empty()) == splice(
            splice(x, p, q, Seq::empty()),
            r - (q - p),
            s - (q - p),
            Seq::empty(),
        ),
{
    assert(splice(splice(x, r, s, Seq::empty()), p, q, Seq::empty()) =~= splice(
        splice(x, p, q, Seq::empty()),
        r - (q - p),
        s - (q - p),
        Seq::empty(),
    ));
}

/// Removing one more range, in the coordinates left after removing the
/// ranges before it.
proof fn lemma_without_ranges_extend(c: Seq<u8>, order: Seq<Cursor>, a: int, b: int)
    requires
        ascending(order, c.len() as int),
        0 <= a <= b < order.len(),
    ensures
        without_ranges(c, order, a, b + 1) == splice(
            without_ranges(c, order, a, b),
            order[b].lo() - removed_len(order, a, b),
            order[b].hi() - removed_len(order, a, b) + 1,
            Seq::empty(),
        ),
        order[b].lo() - removed_len(order, a, b) >= 0,
        order[b].hi() - removed_len(order, a, b) < without_ranges(c, order, a, b).len(),
    decreases b - a,
{
    lemma_without_ranges(c, order, a, b);
    lemma_without_ranges(c, order, a, b + 1);
    assert(order[b].hi() < c.len());
    if a == b {
        assert(without_ranges(c, order, b + 1, b + 1) == c);
    } else {
        lemma_without_ranges_extend(c, order, a + 1, b);
        lemma_without_ranges(c, order, a + 1, b);
        lemma_without_ranges(c, order, a + 1, b + 1);
        let inner = without_ranges(c, order, a + 1, b);
        let d = removed_len(order, a + 1, b);
        assert(order[a].hi() < order[b].lo());
        if a + 1 < b {
            assert(order[a].hi() < order[a + 1].lo());
            assert(order[b - 1].hi() < order[b].lo());
        }
        assert(order[a].hi() + 1 <= order[b].lo() - d);
        lemma_splices_commute(
            inner,
            order[a].lo() as int,
            order[a].hi() + 1,
            order[b].lo() - d,
            order[b].hi() - d + 1,
        );
    }
}

/// Deleting ascending ranges one by one from the left, each shifted by what
/// was deleted before it, removes exactly those ranges.
proof fn lemma_drain_is_without_ranges(c: Seq<u8>, order: Seq<Cursor>, k: nat)
    requires
        ascending(order, c.len() as int),
        k <= order.len(),
    ensures
        drain_each(c, order, k) == (without_ranges(c, order, 0, k as int), removed_len(order, 0, k as int)),
        drain_each_fits(c, order, k),
    decreases k,
{
    if k > 0 {
        lemma_drain_is_without_ranges(c, order, (k - 1) as nat);
        lemma_without_ranges_extend(c, order, 0, k - 1);
        lemma_removed_len_extend(order, 0, k - 1);
        assert forall|j: nat| j < k implies order[j as int].lo() >= (#[trigger] drain_each(c, order, j)).1
            && order[j as int].hi() - drain_each(c, order, j).1 < drain_each(c, order, j).0.len() by {
            if j < k - 1 {
                assert(drain_each_fits(c, order, (k - 1) as nat));
            }
        }
    }
}

proof fn lemma_removed_len_extend(order: Seq<Cursor>, a: int, b: int)
    requires
        0 <= a <= b < order.len(),
    ensures
        removed_len(order, a, b + 1) == removed_len(order, a, b) + order[b].hi() - order[b].lo() + 1,
    decreases b - a,
{
    if a < b {
        lemma_removed_len_extend(order, a + 1, b);
    } else {
        assert(removed_len(order, b + 1, b + 1) == 0);
    }
}

/// Inserting, range by range from the left, the bytes each range held puts
/// back what `without_ranges` took out.
proof fn lemma_insert_restores(c: Seq<u8>, order: Seq<Cursor>, m: nat)
    requires
        ascending(order, c.len() as int),
        m <= order.len(),
    ensures
        ({
            let start = without_ranges(c, order, 0, order.len() as int);
            let data = selections(c, order);
            &&& insert_each_fits(start, order, data, m)
            &&& insert_each(start, order, data, m) == without_ranges(c, order, m as int, order.len() as int)
        }),
    decreases m,
{
    let start = without_ranges(c, order, 0, order.len() as int);
    let data = selections(c, order);
    if m > 0 {
        lemma_insert_restores(c, order, (m - 1) as nat);
        let prev = without_ranges(c, order, (m - 1) as int, order.len() as int);
        let after = without_ranges(c, order, m as int, order.len() as int);
        let cursor = order[m - 1];
        lemma_without_ranges(c, order, m as int, order.len() as int);
        lemma_without_ranges(c, order, (m - 1) as int, order.len() as int);
        assert(cursor.hi() < c.len());
        if m < order.len() {
            assert(cursor.hi() < order[m as int].lo());
        }
        assert(cursor.hi() < after.len());
        assert(data[m - 1] == selected(c, cursor));
        assert(selected(c, cursor) =~= after.subrange(cursor.lo() as int, cursor.hi() + 1));
        assert(splice(prev, cursor.lo() as int, cursor.lo() as int, data[m - 1]) =~= after);
        assert forall|j: nat| j < m implies order[j as int].lo() <= #[trigger] insert_each(
            start,
            order,
            data,
            j,
        ).len() by {
            if j < m - 1 {
                assert(insert_each_fits(start, order, data, (m - 1) as nat));
            }
        }
    }
}

/// Whether all the cursors lie inside contents of length `len`, the other
/// cursors are sorted by head, and no two cursors, the primary one
/// included, select a common byte.
pub open spec fn cursors_apart(primary: Cursor, cursors: Seq<Cursor>, len: int) -> bool {
    &&& primary.hi() < len
    &&& forall|j: int| 0 <= j < cursors.len() ==> #[trigger] cursors[j].hi() < len
    &&& sorted_by_head(cursors)
    &&& forall|j: int| 0 <= j < cursors.len() ==> !primary.overlaps(#[trigger] cursors[j])
    &&& forall|i: int, j: int| 0 <= i < j < cursors.len() ==> !cursors[i].overlaps(cursors[j])
}

/// Of two cursors that select no common byte, the one with the smaller head
/// lies wholly before the other.
proof fn lemma_apart_order(a: Cursor, b: Cursor)
    requires
        !a.overlaps(b),
        a.head <= b.head,
    ensures
        a.hi() < b.lo(),
{
}

/// With the cursors apart, the primary cursor has a single place among the
/// others, and in that order the selections come one after another.
proof fn lemma_order_of_apart(c: Seq<u8>, primary: Cursor, cursors: Seq<Cursor>, position: int)
    requires
        cursors_apart(primary, cursors, c.len() as int),
        is_order_position(primary, cursors, position),
    ensures
        forall|other: int| is_order_position(primary, cursors, other) ==> other == position,
        ascending(in_order(primary, cursors, position), c.len() as int),
{
    let order = in_order(primary, cursors, position);
    assert forall|j: int| 0 <= j < cursors.len() implies #[trigger] cursors[j].head != primary.head by {
        assert(!primary.overlaps(cursors[j]));
    }
    assert forall|other: int| is_order_position(primary, cursors, other) implies other == position by {
        if other < position {
            assert(cursors[other].head >= primary.head);
            assert(cursors[other].head <= primary.head);
        } else if other > position {
            assert(cursors[position].head >= primary.head);
            assert(cursors[position].head <= primary.head);
        }
    }
    assert forall|i: int| 0 <= i < order.len() implies #[trigger] order[i].hi() < c.len() by {
        if i < position {
            assert(order[i] == cursors[i]);
        } else if i > position {
            assert(order[i] == cursors[i - 1]);
        }
    }
    assert forall|i: int, j: int| 0 <= i < j < order.len() implies order[i].hi() < order[j].lo() by {
        if j < position {
            assert(order[i] == cursors[i] && order[j] == cursors[j]);
            lemma_apart_order(cursors[i], cursors[j]);
        } else if j == position {
            assert(order[i] == cursors[i]);
            assert(!primary.overlaps(cursors[i]));
            lemma_apart_order(cursors[i], primary);
        } else if i < position {
            assert(order[i] == cursors[i] && order[j] == cursors[j - 1]);
            lemma_apart_order(cursors[i], cursors[j - 1]);
        } else if i == position {
            assert(order[j] == cursors[j - 1]);
            assert(!primary.overlaps(cursors[j - 1]));
            lemma_apart_order(primary, cursors[j - 1]);
        } else {
            assert(order[i] == cursors[i - 1] && order[j] == cursors[j - 1]);
            lemma_apart_order(cursors[i - 1], cursors[j - 1]);
        }
    }
}

/// Undoing a deletion gives back the contents it was made on, when the
/// saved data is what the cursors selected and no two cursors overlap.
pub proof fn lemma_undo_delete_restores(c: Seq<u8>, primary: Cursor, cursors: Seq<Cursor>, position: int)
    requires
        cursors_apart(primary, cursors, c.len() as int),
        is_order_position(primary, cursors, position),
    ensures
        forall|other: int| is_order_position(primary, cursors, other) ==> other == position,
        delete_fits(c, primary, cursors),
        ({
            let order = in_order(primary, cursors, position);
            let remaining = drain_each(c, order, cursors.len() + 1).0;
            &&& undo_delete_fits(remaining, primary, cursors, selected(c, primary), selections(c, cursors))
            &&& restored_with(
                remaining,
                primary,
                cursors,
                selected(c, primary),
                selections(c, cursors),
                position,
            ) == c
        }),
{
    lemma_order_of_apart(c, primary, cursors, position);
    let order = in_order(primary, cursors, position);
    let n = order.len();
    assert(n == cursors.len() + 1);
    lemma_drain_is_without_ranges(c, order, n);
    let saved = data_in_order(selected(c, primary), selections(c, cursors), position);
    assert(saved =~= selections(c, order));
    assert(zip_len(order, saved) == n);
    lemma_insert_restores(c, order, n);
    lemma_without_ranges(c, order, n as int, n as int);
}

} // verus!

verus! {

/// Whether the data saved in `edit` is what its cursors selected in `c`.
pub open spec fn saved_data_matches(c: Seq<u8>, edit: EditAction) -> bool {
    match edit {
        EditAction::Placeholder => false,
        EditAction::Delete { primary_cursor, cursors, primary_old_data, old_data } => {
            &&& primary_old_data@ == selected(c, primary_cursor)
            &&& views(old_data@) == selections(c, cursors@)
        },
        EditAction::Replace { primary_cursor, cursors, primary_old_data, old_data, .. } => {
            &&& primary_old_data@ == selected(c, primary_cursor)
            &&& views(old_data@) == selections(c, cursors@)
        },
    }
}

/// Whether undoing `edit` is known to give back the contents it was made on:
/// always for a replacement; for a deletion, when no two of its cursors
/// select a common byte and the other cursors are sorted by head.
pub open spec fn undo_is_exact(c: Seq<u8>, edit: EditAction) -> bool {
    match edit {
        EditAction::Placeholder => false,
        EditAction::Delete { primary_cursor, cursors, .. } => cursors_apart(
            primary_cursor,
            cursors@,
            c.len() as int,
        ),
        EditAction::Replace { primary_cursor, cursors, .. } => all_within(
            primary_cursor,
            cursors@,
            c.len() as int,
        ),
    }
}

/// Undo reverts an edit: after performing an edit whose saved data is what
/// its cursors selected, undoing it is possible and gives back the original
/// contents, with the cursors the edit was made with.
pub proof fn lemma_undo_reverts_edit(before: &Buffer, executed: &Buffer, edit: EditAction)
    requires
        edit_executed(before, executed, edit),
        saved_data_matches(before.contents@, edit),
        undo_is_exact(before.contents@, edit),
    ensures
        can_undo_edit(executed.contents@, edit),
        forall|after: Buffer|
            edit_undone(executed, &after, edit) ==> {
                &&& after.contents@ == before.contents@
                &&& match edit {
                    EditAction::Delete { primary_cursor, cursors, .. } => after.primary_cursor
                        == primary_cursor && after.cursors@ == cursors@,
                    EditAction::Replace { primary_cursor, cursors, .. } => after.primary_cursor
                        == primary_cursor && after.cursors@ == cursors@,
                    EditAction::Placeholder => false,
                }
            },
{
    match edit {
        EditAction::Placeholder => {},
        EditAction::Delete { primary_cursor, cursors, primary_old_data, old_data } => {
            let position = choose|position: int|
                deleted_with(before, executed, primary_cursor, cursors@, position);
            lemma_undo_delete_restores(before.contents@, primary_cursor, cursors@, position);
        },
        EditAction::Replace { primary_cursor, cursors, primary_old_data, old_data, new_byte } => {
            lemma_undo_replace_restores(before.contents@, primary_cursor, cursors@, new_byte);
        },
    }
}

} // verus!

verus! {

/// Where a selection's cursor lands after its bytes are deleted: the lower
/// end of the selection, or the last index of what is left if that lies
/// before it.
pub open spec fn landing(cursor: Cursor, remaining_len: int) -> int {
    let last = if remaining_len == 0 { 0 } else { remaining_len - 1 };
    if cursor.lo() <= last { cursor.lo() as int } else { last }
}

/// After a deletion every cursor, the primary one and the others alike,
/// sits collapsed where its selection started (or at the last index): the
/// bytes the cursors hold afterwards are exactly those landing places,
/// whichever cursors were merged on the way.
pub proof fn lemma_delete_collapses_onto_starts(
    before: &Buffer,
    after: &Buffer,
    primary: Cursor,
    cursors: Seq<Cursor>,
    position: int,
)
    requires
        deleted_with(before, after, primary, cursors, position),
    ensures
        forall|i: int|
            (after.primary_cursor.covers(i) || any_covers(after.cursors@, i)) <==> (i == landing(
                primary,
                after.contents@.len() as int,
            ) || exists|j: int| 0 <= j < cursors.len() && i == landing(#[trigger] cursors[j], after.contents@.len() as int)),
{
    let len = after.contents@.len() as int;
    let max = last_index(len);
    let start = collapsed_to_start(primary, max);
    let collapsed = all_collapsed_to_start(cursors, max);
    assert forall|j: int| 0 <= j < collapsed.len() implies points(#[trigger] collapsed[j], false) by {}
    lemma_combine_keeps_selection(start, collapsed, 0, false);
    let combined = combine_from(start, collapsed, 0);
    assert(after.primary_cursor == combined.0 && after.cursors@ == combined.1);
    assert forall|i: int|
        (after.primary_cursor.covers(i) || any_covers(after.cursors@, i)) <==> (i == landing(primary, len)
            || exists|j: int| 0 <= j < cursors.len() && i == landing(#[trigger] cursors[j], len)) by {
        assert(combined.0.covers(i) || any_covers(combined.1, i) <==> start.covers(i) || any_covers(
            collapsed,
            i,
        ));
        assert(start.covers(i) <==> i == landing(primary, len));
        if any_covers(collapsed, i) {
            let j = choose|j: int| 0 <= j < collapsed.len() && #[trigger] collapsed[j].covers(i);
            assert(i == landing(cursors[j], len));
        }
        if exists|j: int| 0 <= j < cursors.len() && i == landing(#[trigger] cursors[j], len) {
            let j = choose|j: int| 0 <= j < cursors.len() && i == landing(#[trigger] cursors[j], len);
            assert(collapsed[j].covers(i));
        }
    }
}

} // verus!
