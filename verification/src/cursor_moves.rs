use vstd::prelude::*;
use crate::BYTES_PER_LINE;
use crate::action::CursorAction;
use crate::buffer::{Buffer, absorb_following, combine_from, same_apart_from_edits};
use crate::cursor::Cursor;
use crate::cursor::actions::lemma_execute_stays_in_bounds;
use crate::edit_action::sorted_by_head;

verus! {

/// Whether `output` holds the cursors of `input` sorted by head, with
/// cursors of equal head in their original order.
pub open spec fn is_stable_sort_by_head(input: Seq<Cursor>, output: Seq<Cursor>) -> bool {
    exists|source: Seq<int>|
        {
            &&& source.len() == input.len()
            &&& output.len() == input.len()
            &&& forall|i: int| 0 <= i < source.len() ==> 0 <= #[trigger] source[i] < input.len()
            &&& forall|i: int, j: int|
                0 <= i < source.len() && 0 <= j < source.len() && i != j ==> source[i] != source[j]
            &&& forall|i: int| 0 <= i < output.len() ==> #[trigger] output[i] == input[source[i]]
            &&& forall|i: int, j: int|
                0 <= i < j < output.len() && output[i].head == output[j].head ==> source[i] < source[j]
        }
        && sorted_by_head(output)
}

/// Sorts the cursors by head.
///
/// Calls `<[Cursor]>::sort_by_key` with the head as key. Its documentation
/// says that the sort is stable (equal keys keep their order) and orders by
/// the key; `usize` keys are totally ordered, so it does not panic. The
/// contract says that the result is a stable reordering sorted by head.
#[verifier::external_body]
fn sort_by_head(cursors: &mut Vec<Cursor>)
    ensures
        is_stable_sort_by_head(old(cursors)@, final(cursors)@),
{
    cursors.sort_by_key(|cursor| cursor.head);
}

/// Every cursor after performing `action` on it.
pub open spec fn all_executed(cursors: Seq<Cursor>, action: CursorAction, max: usize) -> Seq<Cursor> {
    Seq::new(cursors.len(), |i: int| cursors[i].spec_execute(action, max))
}

/// Whether both ends of a cursor lie at or before `max`.
pub open spec fn ends_within(cursor: Cursor, max: int) -> bool {
    cursor.head <= max && cursor.tail <= max
}

/// Whether every cursor of a buffer lies at or before its last index, with
/// room to compute a line past it.
pub open spec fn cursors_fit(buffer: &Buffer) -> bool {
    let max = buffer.spec_max_contents_index() as int;
    &&& max + BYTES_PER_LINE <= usize::MAX
    &&& ends_within(buffer.primary_cursor, max)
    &&& forall|j: int| 0 <= j < buffer.cursors@.len() ==> ends_within(#[trigger] buffer.cursors@[j], max)
}

proof fn lemma_absorb_within(cursors: Seq<Cursor>, index: int, max: int)
    requires
        forall|j: int| 0 <= j < cursors.len() ==> ends_within(#[trigger] cursors[j], max),
    ensures
        forall|j: int|
            0 <= j < absorb_following(cursors, index).len() ==> ends_within(
                #[trigger] absorb_following(cursors, index)[j],
                max,
            ),
    decreases cursors.len(),
{
    if 0 <= index && index + 1 < cursors.len() && cursors[index].overlaps(cursors[index + 1]) {
        let next = cursors.update(index, cursors[index].combined(cursors[index + 1])).remove(index + 1);
        assert(ends_within(cursors[index], max) && ends_within(cursors[index + 1], max));
        assert forall|j: int| 0 <= j < next.len() implies ends_within(#[trigger] next[j], max) by {
            if j < index {
                assert(next[j] == cursors[j]);
            } else if j > index {
                assert(next[j] == cursors[j + 1]);
            }
        }
        lemma_absorb_within(next, index, max);
        assert(absorb_following(cursors, index) == absorb_following(next, index));
    }
}

/// Combining overlapping cursors keeps every cursor at or before `max`.
pub proof fn lemma_combine_within(primary: Cursor, cursors: Seq<Cursor>, index: int, max: int)
    requires
        ends_within(primary, max),
        forall|j: int| 0 <= j < cursors.len() ==> ends_within(#[trigger] cursors[j], max),
    ensures
        ends_within(combine_from(primary, cursors, index).0, max),
        forall|j: int|
            0 <= j < combine_from(primary, cursors, index).1.len() ==> ends_within(
                #[trigger] combine_from(primary, cursors, index).1[j],
                max,
            ),
    decreases cursors.len() + 1 - index,
{
    if 0 <= index < cursors.len() {
        let absorbed = absorb_following(cursors, index);
        crate::buffer::lemma_absorb_following_len(cursors, index);
        lemma_absorb_within(cursors, index, max);
        assert(ends_within(absorbed[index], max));
        if primary.overlaps(absorbed[index]) {
            let rest = absorbed.remove(index);
            assert forall|j: int| 0 <= j < rest.len() implies ends_within(#[trigger] rest[j], max) by {
                if j < index {
                    assert(rest[j] == absorbed[j]);
                } else {
                    assert(rest[j] == absorbed[j + 1]);
                }
            }
            lemma_combine_within(primary.combined(absorbed[index]), rest, index + 1, max);
        } else {
            lemma_combine_within(primary, absorbed, index + 1, max);
        }
    }
}

/// Whether the cursors of `after` are `primary` and `others` after sorting
/// `others` by head and merging the overlapping cursors.
pub open spec fn settled(primary: Cursor, others: Seq<Cursor>, after: &Buffer) -> bool {
    exists|sorted: Seq<Cursor>|
        is_stable_sort_by_head(others, sorted) && (after.primary_cursor, after.cursors@)
            == combine_from(primary, sorted, 0)
}

/// Whether `after` holds the cursors of `before`, each moved once by
/// `action`, then sorted and merged.
pub open spec fn cursors_moved(before: &Buffer, after: &Buffer, action: CursorAction) -> bool {
    let max = before.spec_max_contents_index();
    settled(
        before.primary_cursor.spec_execute(action, max),
        all_executed(before.cursors@, action, max),
        after,
    )
}

impl Buffer {
    /// Sorts the other cursors by head and merges overlapping cursors.
    pub(crate) fn settle_cursors(&mut self)
        requires
            cursors_fit(old(self)),
        ensures
            settled(old(self).primary_cursor, old(self).cursors@, final(self)),
            final(self).contents == old(self).contents,
            same_apart_from_edits(final(self), old(self)),
            cursors_fit(final(self)),
    {
        let ghost max = self.spec_max_contents_index() as int;
        let ghost moved = self.cursors@;
        sort_by_head(&mut self.cursors);
        let ghost sorted = self.cursors@;
        proof {
            let source = choose|source: Seq<int>|
                {
                    &&& source.len() == moved.len()
                    &&& sorted.len() == moved.len()
                    &&& forall|i: int| 0 <= i < source.len() ==> 0 <= #[trigger] source[i] < moved.len()
                    &&& forall|i: int, j: int|
                        0 <= i < source.len() && 0 <= j < source.len() && i != j ==> source[i] != source[j]
                    &&& forall|i: int| 0 <= i < sorted.len() ==> #[trigger] sorted[i] == moved[source[i]]
                    &&& forall|i: int, j: int|
                        0 <= i < j < sorted.len() && sorted[i].head == sorted[j].head ==> source[i] < source[j]
                };
            assert forall|j: int| 0 <= j < sorted.len() implies ends_within(#[trigger] sorted[j], max) by {
                assert(sorted[j] == moved[source[j]]);
            }
            lemma_combine_within(self.primary_cursor, sorted, 0, max);
        }
        let ghost primary = self.primary_cursor;
        self.combine_cursors_if_overlapping();
        assert(is_stable_sort_by_head(moved, sorted));
        assert((self.primary_cursor, self.cursors@) == combine_from(primary, sorted, 0));
        assert forall|j: int| 0 <= j < self.cursors@.len() implies ends_within(
            #[trigger] self.cursors@[j],
            max,
        ) by {
            assert(self.cursors@[j] == combine_from(primary, sorted, 0).1[j]);
        }
    }

    /// Moves every cursor with a cursor action, sorts the other cursors by
    /// head and merges overlapping ones.
    pub fn execute_cursor_action(&mut self, action: CursorAction)
        requires
            cursors_fit(old(self)),
        ensures
            cursors_moved(old(self), final(self), action),
            final(self).contents == old(self).contents,
            same_apart_from_edits(final(self), old(self)),
            cursors_fit(final(self)),
    {
        let max_contents_index = self.max_contents_index();
        let ghost max = max_contents_index as int;
        let ghost moved = all_executed(self.cursors@, action, max_contents_index);
        proof {
            lemma_execute_stays_in_bounds(self.primary_cursor, action, max_contents_index);
        }
        self.primary_cursor.execute(action, max_contents_index);
        let mut k: usize = 0;
        while k < self.cursors.len()
            invariant
                max_contents_index == old(self).spec_max_contents_index(),
                max + BYTES_PER_LINE <= usize::MAX,
                k <= self.cursors@.len(),
                self.cursors@.len() == old(self).cursors@.len(),
                moved == all_executed(old(self).cursors@, action, max_contents_index),
                max == max_contents_index as int,
                forall|j: int| 0 <= j < old(self).cursors@.len() ==> ends_within(#[trigger] old(self).cursors@[j], max),
                forall|j: int| 0 <= j < k ==> #[trigger] self.cursors@[j] == moved[j],
                forall|j: int| k <= j < self.cursors@.len() ==> #[trigger] self.cursors@[j] == old(self).cursors@[j],
                self.contents == old(self).contents,
                same_apart_from_edits(self, old(self)),
                ends_within(self.primary_cursor, max),
                self.primary_cursor == old(self).primary_cursor.spec_execute(action, max_contents_index),
            decreases self.cursors.len() - k,
        {
            let mut cursor = self.cursors[k];
            proof {
                assert(cursor == old(self).cursors@[k as int]);
                assert(ends_within(old(self).cursors@[k as int], max));
                lemma_execute_stays_in_bounds(cursor, action, max_contents_index);
            }
            cursor.execute(action, max_contents_index);
            self.cursors.set(k, cursor);
            k += 1;
        }
        assert(self.cursors@ =~= moved);
        proof {
            assert forall|j: int| 0 <= j < moved.len() implies ends_within(#[trigger] moved[j], max) by {
                assert(ends_within(old(self).cursors@[j], max));
                lemma_execute_stays_in_bounds(old(self).cursors@[j], action, max_contents_index);
            }
        }
        self.settle_cursors();
    }
}

} // verus!

verus! {

/// Whether a cursor points forward (head before tail) when `forward`, or
/// backward or not at all (head at or after tail) otherwise.
pub open spec fn points(cursor: Cursor, forward: bool) -> bool {
    if forward { cursor.head < cursor.tail } else { cursor.head >= cursor.tail }
}

/// Whether some cursor of `cursors` selects `index`.
pub open spec fn any_covers(cursors: Seq<Cursor>, index: int) -> bool {
    exists|j: int| 0 <= j < cursors.len() && #[trigger] cursors[j].covers(index)
}

proof fn lemma_combined_covers(a: Cursor, b: Cursor, forward: bool)
    requires
        points(a, forward),
        points(b, forward),
        a.overlaps(b),
    ensures
        points(a.combined(b), forward),
        forall|i: int| #[trigger] a.combined(b).covers(i) <==> a.covers(i) || b.covers(i),
{
}

proof fn lemma_absorb_covers(cursors: Seq<Cursor>, index: int, forward: bool)
    requires
        forall|j: int| 0 <= j < cursors.len() ==> points(#[trigger] cursors[j], forward),
    ensures
        forall|j: int|
            0 <= j < absorb_following(cursors, index).len() ==> points(
                #[trigger] absorb_following(cursors, index)[j],
                forward,
            ),
        forall|i: int| any_covers(absorb_following(cursors, index), i) <==> any_covers(cursors, i),
        0 <= index < cursors.len() ==> absorb_following(cursors, index).len() > index,
    decreases cursors.len(),
{
    crate::buffer::lemma_absorb_following_len(cursors, index);
    if 0 <= index && index + 1 < cursors.len() && cursors[index].overlaps(cursors[index + 1]) {
        let merged = cursors[index].combined(cursors[index + 1]);
        let next = cursors.update(index, merged).remove(index + 1);
        lemma_combined_covers(cursors[index], cursors[index + 1], forward);
        assert forall|j: int| 0 <= j < next.len() implies points(#[trigger] next[j], forward) by {
            if j < index {
                assert(next[j] == cursors[j]);
            } else if j > index {
                assert(next[j] == cursors[j + 1]);
            }
        }
        assert forall|i: int| any_covers(next, i) <==> any_covers(cursors, i) by {
            if any_covers(next, i) {
                let j = choose|j: int| 0 <= j < next.len() && #[trigger] next[j].covers(i);
                if j < index {
                    assert(cursors[j] == next[j]);
                } else if j == index {
                    if !cursors[index].covers(i) {
                        assert(cursors[index + 1].covers(i));
                    }
                } else {
                    assert(cursors[j + 1] == next[j]);
                }
            }
            if any_covers(cursors, i) {
                let j = choose|j: int| 0 <= j < cursors.len() && #[trigger] cursors[j].covers(i);
                if j < index {
                    assert(cursors[j] == next[j]);
                } else if j == index || j == index + 1 {
                    assert(next[index].covers(i));
                } else {
                    assert(cursors[j] == next[j - 1]);
                }
            }
        }
        lemma_absorb_covers(next, index, forward);
        assert(absorb_following(cursors, index) == absorb_following(next, index));
    }
}

/// Merging overlapping selections keeps the set of selected bytes, as long
/// as all cursors point the same way (all forward, or all backward or
/// collapsed).
pub proof fn lemma_combine_keeps_selection(primary: Cursor, cursors: Seq<Cursor>, index: int, forward: bool)
    requires
        points(primary, forward),
        forall|j: int| 0 <= j < cursors.len() ==> points(#[trigger] cursors[j], forward),
        0 <= index,
    ensures
        forall|i: int|
            (#[trigger] combine_from(primary, cursors, index).0.covers(i) || any_covers(
                combine_from(primary, cursors, index).1,
                i,
            )) <==> (primary.covers(i) || any_covers(cursors, i)),
    decreases cursors.len() + 1 - index,
{
    if index < cursors.len() {
        let absorbed = absorb_following(cursors, index);
        crate::buffer::lemma_absorb_following_len(cursors, index);
        lemma_absorb_covers(cursors, index, forward);
        if primary.overlaps(absorbed[index]) {
            let merged = primary.combined(absorbed[index]);
            let rest = absorbed.remove(index);
            lemma_combined_covers(primary, absorbed[index], forward);
            assert forall|j: int| 0 <= j < rest.len() implies points(#[trigger] rest[j], forward) by {
                if j < index {
                    assert(rest[j] == absorbed[j]);
                } else {
                    assert(rest[j] == absorbed[j + 1]);
                }
            }
            assert forall|i: int| (merged.covers(i) || any_covers(rest, i)) <==> (primary.covers(i)
                || any_covers(absorbed, i)) by {
                if any_covers(rest, i) {
                    let j = choose|j: int| 0 <= j < rest.len() && #[trigger] rest[j].covers(i);
                    if j < index {
                        assert(absorbed[j] == rest[j]);
                    } else {
                        assert(absorbed[j + 1] == rest[j]);
                    }
                }
                if any_covers(absorbed, i) {
                    let j = choose|j: int| 0 <= j < absorbed.len() && #[trigger] absorbed[j].covers(i);
                    if j < index {
                        assert(absorbed[j] == rest[j]);
                    } else if j > index {
                        assert(absorbed[j] == rest[j - 1]);
                    }
                }
            }
            lemma_combine_keeps_selection(merged, rest, index + 1, forward);
            let result = combine_from(merged, rest, index + 1);
            assert(combine_from(primary, cursors, index) == result);
            assert forall|i: int|
                (#[trigger] combine_from(primary, cursors, index).0.covers(i) || any_covers(
                    combine_from(primary, cursors, index).1,
                    i,
                )) <==> (primary.covers(i) || any_covers(cursors, i)) by {
                assert(result.0.covers(i) || any_covers(result.1, i) <==> merged.covers(i) || any_covers(rest, i));
                assert(any_covers(absorbed, i) <==> any_covers(cursors, i));
            }
        } else {
            lemma_combine_keeps_selection(primary, absorbed, index + 1, forward);
            let result = combine_from(primary, absorbed, index + 1);
            assert(combine_from(primary, cursors, index) == result);
            assert forall|i: int|
                (#[trigger] combine_from(primary, cursors, index).0.covers(i) || any_covers(
                    combine_from(primary, cursors, index).1,
                    i,
                )) <==> (primary.covers(i) || any_covers(cursors, i)) by {
                assert(result.0.covers(i) || any_covers(result.1, i) <==> primary.covers(i) || any_covers(absorbed, i));
                assert(any_covers(absorbed, i) <==> any_covers(cursors, i));
            }
        }
    }
}


/// Absorbing stops only at a gap: once the cursor at `index` has absorbed
/// its followers, it no longer overlaps the cursor after it.
pub proof fn lemma_absorb_stops_at_gap(cursors: Seq<Cursor>, index: int)
    requires
        0 <= index,
    ensures
        index + 1 < absorb_following(cursors, index).len() ==> !absorb_following(cursors, index)[index].overlaps(
            absorb_following(cursors, index)[index + 1],
        ),
    decreases cursors.len(),
{
    if index + 1 < cursors.len() && cursors[index].overlaps(cursors[index + 1]) {
        let next = cursors.update(index, cursors[index].combined(cursors[index + 1])).remove(index + 1);
        lemma_absorb_stops_at_gap(next, index);
    }
}

/// Whether the selections from `from` on are ordered by their lower ends.
pub open spec fn sorted_by_start_from(cursors: Seq<Cursor>, from: int) -> bool {
    forall|i: int, j: int| from <= i < j < cursors.len() ==> #[trigger] cursors[i].lo() <= #[trigger] cursors[j].lo()
}

/// Whether each selection ends before the next one starts.
pub open spec fn strictly_apart(cursors: Seq<Cursor>) -> bool {
    forall|k: int| 0 <= k && k + 1 < cursors.len() ==> #[trigger] cursors[k].hi() < cursors[k + 1].lo()
}

proof fn lemma_combined_hull(a: Cursor, b: Cursor, forward: bool)
    requires
        points(a, forward),
        points(b, forward),
    ensures
        points(a.combined(b), forward),
        a.combined(b).lo() == if a.lo() <= b.lo() { a.lo() } else { b.lo() },
        a.combined(b).hi() == if a.hi() >= b.hi() { a.hi() } else { b.hi() },
{
}

proof fn lemma_absorb_keeps_apart(cursors: Seq<Cursor>, index: int, primary: Cursor, forward: bool)
    requires
        0 <= index < cursors.len(),
        forall|j: int| 0 <= j < cursors.len() ==> points(#[trigger] cursors[j], forward),
        forall|j: int| 0 <= j < cursors.len() ==> !primary.overlaps(#[trigger] cursors[j]),
        sorted_by_start_from(cursors, index),
    ensures
        ({
            let r = absorb_following(cursors, index);
            &&& index < r.len() <= cursors.len()
            &&& forall|k: int| 0 <= k < index ==> r[k] == cursors[k]
            &&& r[index].lo() == cursors[index].lo()
            &&& forall|j: int| 0 <= j < r.len() ==> points(#[trigger] r[j], forward)
            &&& forall|j: int| 0 <= j < r.len() ==> !primary.overlaps(#[trigger] r[j])
            &&& sorted_by_start_from(r, index)
            &&& index + 1 < r.len() ==> r[index].hi() < r[index + 1].lo()
        }),
    decreases cursors.len(),
{
    crate::buffer::lemma_absorb_following_len(cursors, index);
    lemma_absorb_stops_at_gap(cursors, index);
    if index + 1 < cursors.len() && cursors[index].overlaps(cursors[index + 1]) {
        let a = cursors[index];
        let b = cursors[index + 1];
        let merged = a.combined(b);
        let next = cursors.update(index, merged).remove(index + 1);
        lemma_combined_hull(a, b, forward);
        assert(!primary.overlaps(a) && !primary.overlaps(b));
        assert(!primary.overlaps(merged));
        assert forall|j: int| 0 <= j < next.len() implies points(#[trigger] next[j], forward)
            && !primary.overlaps(next[j]) by {
            if j < index {
                assert(next[j] == cursors[j]);
            } else if j > index {
                assert(next[j] == cursors[j + 1]);
            }
        }
        assert forall|i: int, j: int| index <= i < j < next.len() implies #[trigger] next[i].lo()
            <= #[trigger] next[j].lo() by {
            assert(next[j] == cursors[j + 1]);
            if i > index {
                assert(next[i] == cursors[i + 1]);
            }
        }
        assert forall|k: int| 0 <= k < index implies next[k] == cursors[k] by {}
        lemma_absorb_keeps_apart(next, index, primary, forward);
        assert(absorb_following(cursors, index) == absorb_following(next, index));
    } else {
        if index + 1 < cursors.len() {
            assert(cursors[index].lo() <= cursors[index + 1].lo());
        }
    }
}

proof fn lemma_combine_apart_from(primary: Cursor, cursors: Seq<Cursor>, index: int, forward: bool)
    requires
        0 <= index,
        forall|j: int| 0 <= j < cursors.len() ==> points(#[trigger] cursors[j], forward),
        forall|j: int| 0 <= j < cursors.len() ==> !primary.overlaps(#[trigger] cursors[j]),
        sorted_by_start_from(cursors, index),
        forall|k: int| 0 <= k < index && k + 1 < cursors.len() ==> #[trigger] cursors[k].hi() < cursors[k + 1].lo(),
    ensures
        combine_from(primary, cursors, index).0 == primary,
        strictly_apart(combine_from(primary, cursors, index).1),
        forall|j: int|
            0 <= j < combine_from(primary, cursors, index).1.len() ==> !primary.overlaps(
                #[trigger] combine_from(primary, cursors, index).1[j],
            ),
    decreases cursors.len() + 1 - index,
{
    if index < cursors.len() {
        let absorbed = absorb_following(cursors, index);
        lemma_absorb_keeps_apart(cursors, index, primary, forward);
        assert(!primary.overlaps(absorbed[index]));
        assert forall|k: int| 0 <= k < index + 1 && k + 1 < absorbed.len() implies #[trigger] absorbed[k].hi()
            < absorbed[k + 1].lo() by {
            if k + 1 < index {
                assert(absorbed[k] == cursors[k] && absorbed[k + 1] == cursors[k + 1]);
            } else if k + 1 == index {
                assert(absorbed[k] == cursors[k]);
            }
        }
        lemma_combine_apart_from(primary, absorbed, index + 1, forward);
        assert(combine_from(primary, cursors, index) == combine_from(primary, absorbed, index + 1));
    }
}

/// Merging leaves no two selections overlapping when it never has to merge
/// into the primary cursor: if the other cursors all point the same way,
/// are ordered by where their selections start, and none overlaps the
/// primary cursor, then the primary cursor is kept as it is and each
/// resulting cursor ends before the next one starts, none of them
/// overlapping the primary cursor.
pub proof fn lemma_combine_leaves_no_overlap(primary: Cursor, cursors: Seq<Cursor>, forward: bool)
    requires
        forall|j: int| 0 <= j < cursors.len() ==> points(#[trigger] cursors[j], forward),
        forall|i: int, j: int| 0 <= i < j < cursors.len() ==> #[trigger] cursors[i].lo() <= #[trigger] cursors[j].lo(),
        forall|j: int| 0 <= j < cursors.len() ==> !primary.overlaps(#[trigger] cursors[j]),
    ensures
        combine_from(primary, cursors, 0).0 == primary,
        forall|k: int|
            0 <= k && k + 1 < combine_from(primary, cursors, 0).1.len() ==> #[trigger] combine_from(
                primary,
                cursors,
                0,
            ).1[k].hi() < combine_from(primary, cursors, 0).1[k + 1].lo(),
        forall|j: int|
            0 <= j < combine_from(primary, cursors, 0).1.len() ==> !primary.overlaps(
                #[trigger] combine_from(primary, cursors, 0).1[j],
            ),
{
    lemma_combine_apart_from(primary, cursors, 0, forward);
}

} // verus!
