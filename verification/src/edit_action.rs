use vstd::prelude::*;
use crate::buffer::{Buffer, PartialAction, combine_from, same_apart_from_edits, spec_nybble_from_hex, nybble_from_hex};
use crate::cursor::Cursor;

verus! {

/// An edit that can be undone and redone.
pub enum EditAction {
    /// Stands in for an action while it is taken out of the history.
    Placeholder,
    Delete {
        primary_cursor: Cursor,
        cursors: Vec<Cursor>,
        primary_old_data: Vec<u8>,
        old_data: Vec<Vec<u8>>,
    },
    Replace {
        primary_cursor: Cursor,
        cursors: Vec<Cursor>,
        primary_old_data: Vec<u8>,
        old_data: Vec<Vec<u8>>,
        new_byte: u8,
    },
}

/// `c` with the indices `start .. end` replaced by `data`.
pub open spec fn splice(c: Seq<u8>, start: int, end: int, data: Seq<u8>) -> Seq<u8> {
    c.subrange(0, start) + data + c.subrange(end, c.len() as int)
}

/// The bytes of `c` that `cursor` selects.
pub open spec fn selected(c: Seq<u8>, cursor: Cursor) -> Seq<u8> {
    c.subrange(cursor.lo() as int, cursor.hi() + 1)
}

/// The contents of each vector.
pub open spec fn views(data: Seq<Vec<u8>>) -> Seq<Seq<u8>> {
    data.map_values(|bytes: Vec<u8>| bytes@)
}

/// How many (cursor, data) pairs a zip of the two sequences yields.
pub open spec fn zip_len(cursors: Seq<Cursor>, data: Seq<Seq<u8>>) -> nat {
    if cursors.len() <= data.len() { cursors.len() } else { data.len() }
}

/// Whether the primary cursor or one of the others selects `index`.
pub open spec fn selected_by_any(primary: Cursor, cursors: Seq<Cursor>, index: int) -> bool {
    primary.covers(index) || exists|j: int| 0 <= j < cursors.len() && #[trigger] cursors[j].covers(index)
}

/// Every selected byte set to `new_byte`.
pub open spec fn replaced(c: Seq<u8>, primary: Cursor, cursors: Seq<Cursor>, new_byte: u8) -> Seq<u8> {
    Seq::new(c.len(), |i: int| if selected_by_any(primary, cursors, i) { new_byte } else { c[i] })
}

/// `c` after replacing, for the first `k` cursors in turn, the range that the
/// cursor selects with the matching data.
pub open spec fn splice_each(c: Seq<u8>, cursors: Seq<Cursor>, data: Seq<Seq<u8>>, k: nat) -> Seq<u8>
    decreases k,
{
    if k == 0 {
        c
    } else {
        let prev = splice_each(c, cursors, data, (k - 1) as nat);
        let cursor = cursors[k - 1];
        splice(prev, cursor.lo() as int, cursor.hi() + 1, data[k - 1])
    }
}

/// Each of the first `k` ranges lies inside the contents at the time it is
/// replaced.
pub open spec fn splice_each_fits(c: Seq<u8>, cursors: Seq<Cursor>, data: Seq<Seq<u8>>, k: nat) -> bool {
    forall|j: nat| j < k ==> cursors[j as int].hi() < #[trigger] splice_each(c, cursors, data, j).len()
}

/// `c` after inserting, for the first `k` cursors in turn, the matching data
/// where the cursor's selection starts.
pub open spec fn insert_each(c: Seq<u8>, cursors: Seq<Cursor>, data: Seq<Seq<u8>>, k: nat) -> Seq<u8>
    decreases k,
{
    if k == 0 {
        c
    } else {
        let prev = insert_each(c, cursors, data, (k - 1) as nat);
        let start = cursors[k - 1].lo() as int;
        splice(prev, start, start, data[k - 1])
    }
}

/// Each insertion point lies inside the contents at the time of the
/// insertion.
pub open spec fn insert_each_fits(c: Seq<u8>, cursors: Seq<Cursor>, data: Seq<Seq<u8>>, k: nat) -> bool {
    forall|j: nat| j < k ==> cursors[j as int].lo() <= #[trigger] insert_each(c, cursors, data, j).len()
}

/// `c` after deleting the ranges of the first `k` cursors in turn, each
/// shifted left by the number of bytes deleted before it; also that number.
pub open spec fn drain_each(c: Seq<u8>, order: Seq<Cursor>, k: nat) -> (Seq<u8>, int)
    decreases k,
{
    if k == 0 {
        (c, 0)
    } else {
        let (prev, deleted) = drain_each(c, order, (k - 1) as nat);
        let cursor = order[k - 1];
        (
            splice(prev, cursor.lo() - deleted, cursor.hi() - deleted + 1, Seq::empty()),
            deleted + cursor.hi() - cursor.lo() + 1,
        )
    }
}

/// Each shifted range lies inside the contents at the time it is deleted.
pub open spec fn drain_each_fits(c: Seq<u8>, order: Seq<Cursor>, k: nat) -> bool {
    forall|j: nat|
        j < k ==> order[j as int].lo() >= (#[trigger] drain_each(c, order, j)).1 && order[j as int].hi()
            - drain_each(c, order, j).1 < drain_each(c, order, j).0.len()
}

/// Whether the heads of the cursors never decrease.
pub open spec fn sorted_by_head(cursors: Seq<Cursor>) -> bool {
    forall|i: int, j: int| 0 <= i < j < cursors.len() ==> cursors[i].head <= cursors[j].head
}

/// Whether `position` is a place where the primary cursor may go among the
/// others so that the heads stay in order.
pub open spec fn is_order_position(primary: Cursor, cursors: Seq<Cursor>, position: int) -> bool {
    &&& 0 <= position <= cursors.len()
    &&& sorted_by_head(cursors) ==> (forall|j: int| 0 <= j < position ==> cursors[j].head <= primary.head)
        && (forall|j: int| position <= j < cursors.len() ==> cursors[j].head >= primary.head)
}

/// The other cursors with the primary cursor placed at `position`.
pub open spec fn in_order(primary: Cursor, cursors: Seq<Cursor>, position: int) -> Seq<Cursor> {
    cursors.take(position).push(primary) + cursors.skip(position)
}

/// Where a binary search by head finds `head` among the cursors, or where
/// it would go.
///
/// Calls `<[Cursor]>::binary_search_by_key` with the head as key. Its
/// documentation promises, for a slice sorted by the key, `Ok` with the index
/// of an element whose key matches (any one of several), or `Err` with the
/// index at which the key could be inserted keeping the order. For a slice
/// that is not sorted it promises nothing, and nothing is stated.
#[verifier::external_body]
fn search_by_head(cursors: &[Cursor], head: usize) -> (result: Result<usize, usize>)
    ensures
        sorted_by_head(cursors@) ==> match result {
            Ok(i) => i < cursors@.len() && cursors@[i as int].head == head,
            Err(i) => i <= cursors@.len() && (forall|j: int|
                0 <= j < i ==> cursors@[j].head < head) && (forall|j: int|
                i <= j < cursors@.len() ==> cursors@[j].head > head),
        },
{
    cursors.binary_search_by_key(&head, |cursor| cursor.head)
}

/// The primary cursor inserted among the others where its head belongs.
pub fn cursors_in_order(primary_cursor: Cursor, cursors: &[Cursor]) -> (result: Vec<Cursor>)
    ensures
        exists|position: int|
            is_order_position(primary_cursor, cursors@, position) && result@ == in_order(
                primary_cursor,
                cursors@,
                position,
            ),
{
    let position = order_position(primary_cursor, cursors);
    placed_at(primary_cursor, cursors, position)
}

/// Where a binary search by head places the primary cursor among the
/// others.
fn order_position(primary_cursor: Cursor, cursors: &[Cursor]) -> (position: usize)
    ensures
        is_order_position(primary_cursor, cursors@, position as int),
{
    let found = search_by_head(cursors, primary_cursor.head);
    let searched = match found {
        Ok(index) => index,
        Err(index) => index,
    };
    let position = if searched <= cursors.len() { searched } else { cursors.len() };
    proof {
        if sorted_by_head(cursors@) {
            assert forall|j: int| 0 <= j < position implies cursors@[j].head <= primary_cursor.head by {
                if let Ok(i) = found {
                    assert(cursors@[j].head <= cursors@[i as int].head);
                }
            }
            assert forall|j: int| position <= j < cursors@.len() implies cursors@[j].head
                >= primary_cursor.head by {
                if let Ok(i) = found {
                    assert(cursors@[i as int].head <= cursors@[j].head);
                }
            }
        }
    }
    position
}

/// The other cursors with the primary cursor placed at `position`.
fn placed_at(primary_cursor: Cursor, cursors: &[Cursor], position: usize) -> (result: Vec<Cursor>)
    requires
        position <= cursors@.len(),
    ensures
        result@ == in_order(primary_cursor, cursors@, position as int),
{
    let mut result: Vec<Cursor> = Vec::new();
    let mut index: usize = 0;
    while index < position
        invariant
            position <= cursors@.len(),
            index <= position,
            result@ == cursors@.take(index as int),
        decreases position - index,
    {
        result.push(cursors[index]);
        index += 1;
        assert(result@ =~= cursors@.take(index as int));
    }
    result.push(primary_cursor);
    while index < cursors.len()
        invariant
            position <= index <= cursors@.len(),
            result@ == cursors@.take(position as int).push(primary_cursor) + cursors@.subrange(
                position as int,
                index as int,
            ),
        decreases cursors.len() - index,
    {
        result.push(cursors[index]);
        index += 1;
        assert(result@ =~= cursors@.take(position as int).push(primary_cursor)
            + cursors@.subrange(position as int, index as int));
    }
    assert(result@ =~= in_order(primary_cursor, cursors@, position as int));
    result
}

/// Replaces `start .. end` of `bytes` with `data`.
fn splice_vec(bytes: &mut Vec<u8>, start: usize, end: usize, data: &[u8])
    requires
        start <= end <= old(bytes)@.len(),
    ensures
        final(bytes)@ == splice(old(bytes)@, start as int, end as int, data@),
{
    let mut tail = bytes.split_off(start);
    let mut rest = tail.split_off(end - start);
    let mut index: usize = 0;
    while index < data.len()
        invariant
            bytes@ == old(bytes)@.subrange(0, start as int) + data@.subrange(0, index as int),
            index <= data@.len(),
        decreases data.len() - index,
    {
        bytes.push(data[index]);
        index += 1;
        assert(bytes@ =~= old(bytes)@.subrange(0, start as int) + data@.subrange(0, index as int));
    }
    bytes.append(&mut rest);
    assert(data@.subrange(0, data@.len() as int) =~= data@);
    assert(bytes@ =~= splice(old(bytes)@, start as int, end as int, data@));
}

/// Sets every byte that `cursor` selects to `new_byte`.
fn fill_selection(bytes: &mut Vec<u8>, cursor: Cursor, new_byte: u8)
    requires
        cursor.hi() < old(bytes)@.len(),
    ensures
        final(bytes)@ == Seq::new(
            old(bytes)@.len(),
            |i: int| if cursor.covers(i) { new_byte } else { old(bytes)@[i] },
        ),
{
    let low = cursor.lower_bound();
    let high = cursor.upper_bound();
    let mut index = low;
    assert(high < bytes.len());
    while index <= high
        invariant
            high < usize::MAX,
            low == cursor.lo(),
            high == cursor.hi(),
            low <= index <= high + 1,
            high < bytes@.len(),
            bytes@ == Seq::new(
                old(bytes)@.len(),
                |i: int| if low <= i < index { new_byte } else { old(bytes)@[i] },
            ),
        decreases high + 1 - index,
    {
        bytes.set(index, new_byte);
        index += 1;
        assert(bytes@ =~= Seq::new(
            old(bytes)@.len(),
            |i: int| if low <= i < index { new_byte } else { old(bytes)@[i] },
        ));
    }
    assert(bytes@ =~= Seq::new(
        old(bytes)@.len(),
        |i: int| if cursor.covers(i) { new_byte } else { old(bytes)@[i] },
    ));
}

/// A copy of the bytes that `cursor` selects.
pub fn copy_selection(bytes: &Vec<u8>, cursor: Cursor) -> (result: Vec<u8>)
    requires
        cursor.hi() < bytes@.len(),
    ensures
        result@ == selected(bytes@, cursor),
{
    let low = cursor.lower_bound();
    let high = cursor.upper_bound();
    let mut result: Vec<u8> = Vec::new();
    let mut index = low;
    assert(high < bytes.len());
    while index <= high
        invariant
            high < usize::MAX,
            low == cursor.lo(),
            high == cursor.hi(),
            low <= index <= high + 1,
            high < bytes@.len(),
            result@ == bytes@.subrange(low as int, index as int),
        decreases high + 1 - index,
    {
        result.push(bytes[index]);
        index += 1;
        assert(result@ =~= bytes@.subrange(low as int, index as int));
    }
    result
}

} // verus!

verus! {

/// Whether every cursor selects bytes inside contents of length `len`.
pub open spec fn all_within(primary: Cursor, cursors: Seq<Cursor>, len: int) -> bool {
    &&& primary.hi() < len
    &&& forall|j: int| 0 <= j < cursors.len() ==> #[trigger] cursors[j].hi() < len
}

impl Buffer {
    /// Sets every byte selected by the given cursors to `new_byte`, and makes
    /// them the buffer's cursors.
    fn replace_at_with(&mut self, primary_cursor: Cursor, cursors: &[Cursor], new_byte: u8)
        requires
            all_within(primary_cursor, cursors@, old(self).contents@.len() as int),
        ensures
            final(self).contents@ == replaced(old(self).contents@, primary_cursor, cursors@, new_byte),
            final(self).primary_cursor == primary_cursor,
            final(self).cursors@ == cursors@,
            same_apart_from_edits(final(self), old(self)),
    {
        let ghost original = self.contents@;
        fill_selection(&mut self.contents, primary_cursor, new_byte);
        assert(self.contents@ =~= replaced(original, primary_cursor, cursors@.take(0), new_byte));
        let mut k: usize = 0;
        while k < cursors.len()
            invariant
                k <= cursors@.len(),
                all_within(primary_cursor, cursors@, original.len() as int),
                self.contents@ == replaced(original, primary_cursor, cursors@.take(k as int), new_byte),
                same_apart_from_edits(self, old(self)),
            decreases cursors.len() - k,
        {
            let ghost before = self.contents@;
            fill_selection(&mut self.contents, cursors[k], new_byte);
            let ghost next = replaced(original, primary_cursor, cursors@.take(k + 1), new_byte);
            assert forall|i: int| 0 <= i < original.len() implies self.contents@[i] == next[i] by {
                let taken = cursors@.take(k + 1);
                if cursors@[k as int].covers(i) {
                    assert(taken[k as int] == cursors@[k as int]);
                } else if selected_by_any(primary_cursor, taken, i) && !primary_cursor.covers(i) {
                    let j = choose|j: int| 0 <= j < taken.len() && #[trigger] taken[j].covers(i);
                    assert(cursors@.take(k as int)[j] == taken[j]);
                } else if selected_by_any(primary_cursor, cursors@.take(k as int), i) && !primary_cursor.covers(i) {
                    let j = choose|j: int|
                        0 <= j < cursors@.take(k as int).len() && #[trigger] cursors@.take(k as int)[j].covers(i);
                    assert(taken[j] == cursors@.take(k as int)[j]);
                }
            }
            assert(self.contents@ =~= next);
            k += 1;
        }
        assert(cursors@.take(cursors@.len() as int) =~= cursors@);
        self.primary_cursor = primary_cursor;
        self.cursors = vstd::slice::slice_to_vec(cursors);
    }

    /// Puts back the bytes that a replacement overwrote, and the cursors it
    /// was made with.
    fn undo_replace_at_with(
        &mut self,
        primary_cursor: Cursor,
        cursors: &[Cursor],
        primary_old_data: &[u8],
        old_data: &[Vec<u8>],
    )
        requires
            primary_cursor.hi() < old(self).contents@.len(),
            splice_each_fits(
                splice(
                    old(self).contents@,
                    primary_cursor.lo() as int,
                    primary_cursor.hi() + 1,
                    primary_old_data@,
                ),
                cursors@,
                views(old_data@),
                zip_len(cursors@, views(old_data@)),
            ),
        ensures
            final(self).contents@ == splice_each(
                splice(
                    old(self).contents@,
                    primary_cursor.lo() as int,
                    primary_cursor.hi() + 1,
                    primary_old_data@,
                ),
                cursors@,
                views(old_data@),
                zip_len(cursors@, views(old_data@)),
            ),
            final(self).primary_cursor == primary_cursor,
            final(self).cursors@ == cursors@,
            same_apart_from_edits(final(self), old(self)),
    {
        let low = primary_cursor.lower_bound();
        let high = primary_cursor.upper_bound();
        assert(high < self.contents.len());
        splice_vec(&mut self.contents, low, high + 1, primary_old_data);
        let ghost start = self.contents@;
        let ghost data = views(old_data@);
        let count = if cursors.len() <= old_data.len() { cursors.len() } else { old_data.len() };
        let mut k: usize = 0;
        while k < count
            invariant
                count == zip_len(cursors@, data),
                data == views(old_data@),
                k <= count,
                splice_each_fits(start, cursors@, data, count as nat),
                self.contents@ == splice_each(start, cursors@, data, k as nat),
                same_apart_from_edits(self, old(self)),
            decreases count - k,
        {
            let cursor = cursors[k];
            assert(cursor.hi() < splice_each(start, cursors@, data, k as nat).len());
            assert(cursor.hi() < self.contents.len());
            assert(data[k as int] == old_data@[k as int]@);
            splice_vec(&mut self.contents, cursor.lower_bound(), cursor.upper_bound() + 1, old_data[k].as_slice());
            k += 1;
        }
        self.primary_cursor = primary_cursor;
        self.cursors = vstd::slice::slice_to_vec(cursors);
    }
}

} // verus!

verus! {

/// The bytes that each cursor selects in `c`.
pub open spec fn selections(c: Seq<u8>, cursors: Seq<Cursor>) -> Seq<Seq<u8>> {
    cursors.map_values(|cursor: Cursor| selected(c, cursor))
}

/// Writing back, range by range, the bytes that `c` had under the first
/// `k` cursors gives `c` where the primary cursor or one of those cursors
/// selects, and the replaced bytes elsewhere.
proof fn lemma_restore_step(
    c: Seq<u8>,
    primary: Cursor,
    cursors: Seq<Cursor>,
    new_byte: u8,
    k: nat,
)
    requires
        all_within(primary, cursors, c.len() as int),
        k <= cursors.len(),
    ensures
        ({
            let r = replaced(c, primary, cursors, new_byte);
            let start = splice(r, primary.lo() as int, primary.hi() + 1, selected(c, primary));
            let s = splice_each(start, cursors, selections(c, cursors), k);
            &&& splice_each_fits(start, cursors, selections(c, cursors), k)
            &&& s.len() == c.len()
            &&& forall|i: int|
                0 <= i < c.len() ==> s[i] == (if primary.covers(i) || exists|j: int|
                    0 <= j < k && #[trigger] cursors[j].covers(i) {
                    c[i]
                } else {
                    r[i]
                })
        }),
    decreases k,
{
    let r = replaced(c, primary, cursors, new_byte);
    let start = splice(r, primary.lo() as int, primary.hi() + 1, selected(c, primary));
    let data = selections(c, cursors);
    if k == 0 {
        assert forall|i: int| 0 <= i < c.len() implies start[i] == (if primary.covers(i) || exists|j: int|
            0 <= j < k && #[trigger] cursors[j].covers(i) {
            c[i]
        } else {
            r[i]
        }) by {
            if i < primary.lo() {
            } else if i <= primary.hi() {
                assert(start[i] == selected(c, primary)[i - primary.lo()]);
            } else {
            }
        }
    } else {
        lemma_restore_step(c, primary, cursors, new_byte, (k - 1) as nat);
        let prev = splice_each(start, cursors, data, (k - 1) as nat);
        let cursor = cursors[k - 1];
        assert(cursor.hi() < c.len());
        assert(data[k - 1] == selected(c, cursor));
        let s = splice_each(start, cursors, data, k);
        assert(s == splice(prev, cursor.lo() as int, cursor.hi() + 1, data[k - 1]));
        assert forall|j: nat| j < k implies cursors[j as int].hi() < #[trigger] splice_each(
            start,
            cursors,
            data,
            j,
        ).len() by {
            if j < k - 1 {
                assert(splice_each_fits(start, cursors, data, (k - 1) as nat));
            }
        }
        assert forall|i: int| 0 <= i < c.len() implies s[i] == (if primary.covers(i) || exists|j: int|
            0 <= j < k && #[trigger] cursors[j].covers(i) {
            c[i]
        } else {
            r[i]
        }) by {
            if cursor.covers(i) {
                assert(s[i] == selected(c, cursor)[i - cursor.lo()]);
                assert(cursors[k - 1].covers(i));
            } else {
                assert(s[i] == prev[i]);
                if exists|j: int| 0 <= j < k && #[trigger] cursors[j].covers(i) {
                    let j = choose|j: int| 0 <= j < k && #[trigger] cursors[j].covers(i);
                    assert(j < k - 1);
                }
            }
        }
    }
}

/// Undoing a replacement gives back the contents it was made on, when the
/// saved data is what the cursors selected before the replacement.
pub proof fn lemma_undo_replace_restores(
    c: Seq<u8>,
    primary: Cursor,
    cursors: Seq<Cursor>,
    new_byte: u8,
)
    requires
        all_within(primary, cursors, c.len() as int),
    ensures
        ({
            let r = replaced(c, primary, cursors, new_byte);
            let start = splice(r, primary.lo() as int, primary.hi() + 1, selected(c, primary));
            let data = selections(c, cursors);
            &&& primary.hi() < r.len()
            &&& splice_each_fits(start, cursors, data, zip_len(cursors, data))
            &&& splice_each(start, cursors, data, zip_len(cursors, data)) == c
        }),
{
    let r = replaced(c, primary, cursors, new_byte);
    let start = splice(r, primary.lo() as int, primary.hi() + 1, selected(c, primary));
    let data = selections(c, cursors);
    assert(zip_len(cursors, data) == cursors.len());
    lemma_restore_step(c, primary, cursors, new_byte, cursors.len());
    let s = splice_each(start, cursors, data, cursors.len());
    assert forall|i: int| 0 <= i < c.len() implies s[i] == c[i] by {
        if !(primary.covers(i) || exists|j: int| 0 <= j < cursors.len() && #[trigger] cursors[j].covers(i)) {
            assert(!selected_by_any(primary, cursors, i));
        }
    }
    assert(s =~= c);
}

} // verus!

verus! {

/// Deleting stays inside the contents wherever the binary search places the
/// primary cursor among the others.
pub open spec fn delete_fits(c: Seq<u8>, primary: Cursor, cursors: Seq<Cursor>) -> bool {
    forall|position: int|
        is_order_position(primary, cursors, position) ==> drain_each_fits(
            c,
            #[trigger] in_order(primary, cursors, position),
            cursors.len() + 1,
        )
}

/// The last index of contents of length `len`, or 0 when they are empty.
pub open spec fn last_index(len: int) -> int {
    if len == 0 { 0 } else { len - 1 }
}

/// A cursor collapsed onto the start of `cursor`, moved back to `max` if
/// it lies past it.
pub open spec fn collapsed_to_start(cursor: Cursor, max: int) -> Cursor {
    Cursor::spec_at(if cursor.lo() <= max { cursor.lo() as int } else { max })
}

/// Each cursor collapsed onto the start of its selection, or onto `max`.
pub open spec fn all_collapsed_to_start(cursors: Seq<Cursor>, max: int) -> Seq<Cursor> {
    cursors.map_values(|cursor: Cursor| collapsed_to_start(cursor, max))
}

/// The buffer after deleting what the cursors select, with the primary
/// cursor placed at `position` among the others.
pub open spec fn deleted_with(
    before: &Buffer,
    after: &Buffer,
    primary: Cursor,
    cursors: Seq<Cursor>,
    position: int,
) -> bool {
    let remaining = drain_each(before.contents@, in_order(primary, cursors, position), cursors.len() + 1).0;
    let max = last_index(remaining.len() as int);
    &&& is_order_position(primary, cursors, position)
    &&& after.contents@ == remaining
    &&& (after.primary_cursor, after.cursors@) == combine_from(
        collapsed_to_start(primary, max),
        all_collapsed_to_start(cursors, max),
        0,
    )
}

proof fn lemma_drain_len(c: Seq<u8>, order: Seq<Cursor>, k: nat, m: nat)
    requires
        drain_each_fits(c, order, m),
        k <= m,
    ensures
        drain_each(c, order, k).0.len() + drain_each(c, order, k).1 == c.len(),
        drain_each(c, order, k).1 >= 0,
    decreases k,
{
    if k > 0 {
        assert forall|j: nat| j < (k - 1) as nat implies order[j as int].lo() >= (#[trigger] drain_each(
            c,
            order,
            j,
        )).1 && order[j as int].hi() - drain_each(c, order, j).1 < drain_each(c, order, j).0.len() by {
            assert(j < m);
        }
        lemma_drain_len(c, order, (k - 1) as nat, m);
        assert(((k - 1) as nat) < k);
    }
}

impl Buffer {
    /// Deletes what the cursors select, left to right, and collapses every
    /// cursor onto where its selection started.
    fn delete_at(&mut self, primary_cursor: Cursor, cursors: &[Cursor])
        requires
            delete_fits(old(self).contents@, primary_cursor, cursors@),
        ensures
            exists|position: int| deleted_with(old(self), final(self), primary_cursor, cursors@, position),
            same_apart_from_edits(final(self), old(self)),
    {
        let ghost original = self.contents@;
        let order = cursors_in_order(primary_cursor, cursors);
        let ghost position = choose|position: int|
            is_order_position(primary_cursor, cursors@, position) && order@ == in_order(
                primary_cursor,
                cursors@,
                position,
            );
        assert(drain_each_fits(original, in_order(primary_cursor, cursors@, position), cursors@.len() + 1));
        assert(order@.len() == cursors@.len() + 1);
        let empty: Vec<u8> = Vec::new();
        assert(original.len() == self.contents.len());
        let mut deleted: usize = 0;
        let mut k: usize = 0;
        while k < order.len()
            invariant
                k <= order@.len(),
                original.len() <= usize::MAX,
                drain_each_fits(original, order@, order@.len()),
                self.contents@ == drain_each(original, order@, k as nat).0,
                deleted == drain_each(original, order@, k as nat).1,
                empty@.len() == 0,
                same_apart_from_edits(self, old(self)),
            decreases order.len() - k,
        {
            let cursor = order[k];
            let low = cursor.lower_bound();
            let high = cursor.upper_bound();
            proof {
                assert(k < order@.len());
                lemma_drain_len(original, order@, k as nat, order@.len());
                assert(low >= deleted && high - deleted < self.contents@.len());
            }
            splice_vec(&mut self.contents, low - deleted, high - deleted + 1, empty.as_slice());
            proof {
                assert(empty@ =~= Seq::<u8>::empty());
                assert(self.contents@.len() + deleted + (high - low + 1) == original.len());
                assert(original.len() == self.contents.len() + deleted + (high - low + 1));
            }
            deleted += high - low + 1;
            k += 1;
        }
        let max = self.max_contents_index();
        let ghost remaining = self.contents@;
        let start = primary_cursor.lower_bound();
        self.primary_cursor = Cursor::at(if start <= max { start } else { max });
        let mut collapsed: Vec<Cursor> = Vec::new();
        let mut j: usize = 0;
        while j < cursors.len()
            invariant
                j <= cursors@.len(),
                max == last_index(remaining.len() as int),
                collapsed@ == all_collapsed_to_start(cursors@.take(j as int), max as int),
            decreases cursors.len() - j,
        {
            let low = cursors[j].lower_bound();
            collapsed.push(Cursor::at(if low <= max { low } else { max }));
            j += 1;
            assert(collapsed@ =~= all_collapsed_to_start(cursors@.take(j as int), max as int));
        }
        assert(cursors@.take(cursors@.len() as int) =~= cursors@);
        self.cursors = collapsed;
        self.combine_cursors_if_overlapping();
        assert(deleted_with(old(self), self, primary_cursor, cursors@, position));
    }

    /// Puts back deleted bytes, from the leftmost selection to the
    /// rightmost with the primary cursor's among them, each where its
    /// selection started; then restores the cursors the deletion was made
    /// with.
    fn undo_delete_at(
        &mut self,
        primary_cursor: Cursor,
        cursors: &[Cursor],
        primary_old_data: &[u8],
        old_data: &[Vec<u8>],
    )
        requires
            undo_delete_fits(
                old(self).contents@,
                primary_cursor,
                cursors@,
                primary_old_data@,
                views(old_data@),
            ),
        ensures
            exists|position: int|
                is_order_position(primary_cursor, cursors@, position) && final(self).contents@
                    == restored_with(
                    old(self).contents@,
                    primary_cursor,
                    cursors@,
                    primary_old_data@,
                    views(old_data@),
                    position,
                ),
            final(self).primary_cursor == primary_cursor,
            final(self).cursors@ == cursors@,
            same_apart_from_edits(final(self), old(self)),
    {
        let position = order_position(primary_cursor, cursors);
        let order = placed_at(primary_cursor, cursors, position);
        let ghost start = self.contents@;
        let ghost data = views(old_data@);
        let ghost saved = data_in_order(primary_old_data@, data, position as int);
        let at = if position <= old_data.len() { position } else { old_data.len() };
        let count = if order.len() - 1 <= old_data.len() { order.len() } else { old_data.len() + 1 };
        assert(in_order(primary_cursor, cursors@, position as int) == order@);
        assert(count == zip_len(order@, saved));
        let mut k: usize = 0;
        while k < count
            invariant
                count == zip_len(order@, saved),
                data == views(old_data@),
                saved == data_in_order(primary_old_data@, data, position as int),
                at == (if position <= data.len() { position as int } else { data.len() as int }),
                count <= old_data@.len() + 1,
                k <= count,
                insert_each_fits(start, order@, saved, count as nat),
                self.contents@ == insert_each(start, order@, saved, k as nat),
                same_apart_from_edits(self, old(self)),
            decreases count - k,
        {
            let cursor_start = order[k].lower_bound();
            assert(cursor_start <= insert_each(start, order@, saved, k as nat).len());
            let piece: &[u8] = if k < at {
                old_data[k].as_slice()
            } else if k == at {
                primary_old_data
            } else {
                old_data[k - 1].as_slice()
            };
            assert(piece@ == saved[k as int]);
            splice_vec(&mut self.contents, cursor_start, cursor_start, piece);
            k += 1;
        }
        self.primary_cursor = primary_cursor;
        self.cursors = vstd::slice::slice_to_vec(cursors);
    }
}

} // verus!

verus! {

/// Whether `edit` can be performed on contents `c` without going out of
/// bounds.
pub open spec fn can_execute_edit(c: Seq<u8>, edit: EditAction) -> bool {
    match edit {
        EditAction::Placeholder => false,
        EditAction::Delete { primary_cursor, cursors, .. } => delete_fits(c, primary_cursor, cursors@),
        EditAction::Replace { primary_cursor, cursors, .. } => all_within(
            primary_cursor,
            cursors@,
            c.len() as int,
        ),
    }
}

/// Whether `after` holds the contents and cursors that performing `edit` on
/// `before` gives.
pub open spec fn edit_executed(before: &Buffer, after: &Buffer, edit: EditAction) -> bool {
    match edit {
        EditAction::Placeholder => false,
        EditAction::Delete { primary_cursor, cursors, .. } => exists|position: int|
            deleted_with(before, after, primary_cursor, cursors@, position),
        EditAction::Replace { primary_cursor, cursors, new_byte, .. } => {
            &&& after.contents@ == replaced(before.contents@, primary_cursor, cursors@, new_byte)
            &&& after.primary_cursor == primary_cursor
            &&& after.cursors@ == cursors@
        },
    }
}

/// The saved data of the ranges in the order `in_order(primary, cursors,
/// position)`: the primary cursor's data at `position` among the others'.
pub open spec fn data_in_order(primary_data: Seq<u8>, data: Seq<Seq<u8>>, position: int) -> Seq<Seq<u8>> {
    let at = if position <= data.len() { position } else { data.len() as int };
    data.take(at).push(primary_data) + data.skip(at)
}

/// `c` after inserting the saved data of each range, from the leftmost
/// range to the rightmost, each where its range starts; the primary cursor
/// is placed at `position` among the others.
pub open spec fn restored_with(
    c: Seq<u8>,
    primary: Cursor,
    cursors: Seq<Cursor>,
    primary_data: Seq<u8>,
    data: Seq<Seq<u8>>,
    position: int,
) -> Seq<u8> {
    let order = in_order(primary, cursors, position);
    let saved = data_in_order(primary_data, data, position);
    insert_each(c, order, saved, zip_len(order, saved))
}

/// Undoing a deletion stays inside the contents wherever the binary search
/// places the primary cursor among the others.
pub open spec fn undo_delete_fits(
    c: Seq<u8>,
    primary: Cursor,
    cursors: Seq<Cursor>,
    primary_data: Seq<u8>,
    data: Seq<Seq<u8>>,
) -> bool {
    forall|position: int|
        is_order_position(primary, cursors, position) ==> insert_each_fits(
            c,
            #[trigger] in_order(primary, cursors, position),
            data_in_order(primary_data, data, position),
            zip_len(in_order(primary, cursors, position), data_in_order(primary_data, data, position)),
        )
}

/// Whether undoing `edit` on contents `c` stays in bounds.
pub open spec fn can_undo_edit(c: Seq<u8>, edit: EditAction) -> bool {
    match edit {
        EditAction::Placeholder => false,
        EditAction::Delete { primary_cursor, cursors, primary_old_data, old_data } => undo_delete_fits(
            c,
            primary_cursor,
            cursors@,
            primary_old_data@,
            views(old_data@),
        ),
        EditAction::Replace { primary_cursor, cursors, primary_old_data, old_data, .. } => {
            &&& primary_cursor.hi() < c.len()
            &&& splice_each_fits(
                splice(c, primary_cursor.lo() as int, primary_cursor.hi() + 1, primary_old_data@),
                cursors@,
                views(old_data@),
                zip_len(cursors@, views(old_data@)),
            )
        },
    }
}

/// Whether `after` holds the contents and cursors that undoing `edit` on
/// `before` gives.
pub open spec fn edit_undone(before: &Buffer, after: &Buffer, edit: EditAction) -> bool {
    match edit {
        EditAction::Placeholder => false,
        EditAction::Delete { primary_cursor, cursors, primary_old_data, old_data } => {
            &&& exists|position: int|
                is_order_position(primary_cursor, cursors@, position) && after.contents@
                    == restored_with(
                    before.contents@,
                    primary_cursor,
                    cursors@,
                    primary_old_data@,
                    views(old_data@),
                    position,
                )
            &&& after.primary_cursor == primary_cursor
            &&& after.cursors@ == cursors@
        },
        EditAction::Replace { primary_cursor, cursors, primary_old_data, old_data, .. } => {
            &&& after.contents@ == splice_each(
                splice(
                    before.contents@,
                    primary_cursor.lo() as int,
                    primary_cursor.hi() + 1,
                    primary_old_data@,
                ),
                cursors@,
                views(old_data@),
                zip_len(cursors@, views(old_data@)),
            )
            &&& after.primary_cursor == primary_cursor
            &&& after.cursors@ == cursors@
        },
    }
}

impl Buffer {
    /// Whether the markers into the edit history point inside it.
    pub open spec fn history_consistent(&self) -> bool {
        &&& self.last_saved_at matches Some(saved) ==> saved <= self.edit_history.len()
        &&& self.time_traveling matches Some(now) ==> now <= self.edit_history.len()
    }

    /// The history after recording `edit`: while time traveling, the undone
    /// edits are dropped first.
    pub open spec fn history_after_adding(&self, edit: EditAction) -> Seq<EditAction> {
        match self.time_traveling {
            Some(date) => if date <= self.edit_history.len() {
                self.edit_history@.subrange(0, date as int).push(edit)
            } else {
                self.edit_history@.push(edit)
            },
            None => self.edit_history@.push(edit),
        }
    }

    /// Where the last save lies in the history after recording an edit: it
    /// is forgotten when it was among the dropped edits.
    pub open spec fn saved_after_adding(&self) -> Option<usize> {
        match (self.time_traveling, self.last_saved_at) {
            (Some(date), Some(saved)) => if saved > date { None } else { Some(saved) },
            _ => self.last_saved_at,
        }
    }

    /// Performs `edit_action` and records it in the history.
    pub fn execute_and_add(&mut self, edit_action: EditAction)
        requires
            can_execute_edit(old(self).contents@, edit_action),
        ensures
            edit_executed(old(self), final(self), edit_action),
            final(self).edit_history@ == old(self).history_after_adding(edit_action),
            final(self).time_traveling == None::<usize>,
            final(self).last_saved_at == old(self).saved_after_adding(),
            old(self).history_consistent() ==> final(self).history_consistent(),
            old(self).history_consistent() ==> !final(self).spec_all_changes_saved(),
            final(self).file_name == old(self).file_name,
            final(self).scroll_position == old(self).scroll_position,
            final(self).mode == old(self).mode,
            final(self).partial_action == old(self).partial_action,
            final(self).partial_replace == old(self).partial_replace,
            final(self).marks == old(self).marks,
            final(self).alert_message == old(self).alert_message,
            final(self).popups == old(self).popups,
            final(self).inspecting_selection == old(self).inspecting_selection,
            final(self).logs == old(self).logs,
    {
        self.execute_edit(&edit_action);
        let ghost executed = *self;
        let ghost edit = edit_action;
        if let Some(date) = self.time_traveling {
            self.edit_history.truncate(date);
            self.time_traveling = None;
            let drop_saved = match self.last_saved_at {
                Some(saved) => saved > date,
                None => false,
            };
            if drop_saved {
                self.last_saved_at = None;
            }
        }
        self.edit_history.push(edit_action);
        proof {
            if let EditAction::Delete { primary_cursor, cursors, .. } = edit {
                let position = choose|position: int|
                    deleted_with(old(self), &executed, primary_cursor, cursors@, position);
                assert(deleted_with(old(self), self, primary_cursor, cursors@, position));
            }
        }
    }

    /// Performs an edit on the contents and cursors.
    pub fn execute_edit(&mut self, edit_action: &EditAction)
        requires
            can_execute_edit(old(self).contents@, *edit_action),
        ensures
            edit_executed(old(self), final(self), *edit_action),
            same_apart_from_edits(final(self), old(self)),
    {
        match edit_action {
            EditAction::Placeholder => {},
            EditAction::Delete { primary_cursor, cursors, .. } => {
                self.delete_at(*primary_cursor, cursors.as_slice())
            },
            EditAction::Replace { primary_cursor, cursors, new_byte, .. } => {
                self.replace_at_with(*primary_cursor, cursors.as_slice(), *new_byte)
            },
        }
    }

    /// Reverts an edit on the contents and restores the cursors it was made
    /// with.
    pub fn undo_edit(&mut self, edit_action: &EditAction)
        requires
            can_undo_edit(old(self).contents@, *edit_action),
        ensures
            edit_undone(old(self), final(self), *edit_action),
            same_apart_from_edits(final(self), old(self)),
    {
        match edit_action {
            EditAction::Placeholder => {},
            EditAction::Delete { primary_cursor, cursors, primary_old_data, old_data } => {
                self.undo_delete_at(
                    *primary_cursor,
                    cursors.as_slice(),
                    primary_old_data.as_slice(),
                    old_data.as_slice(),
                )
            },
            EditAction::Replace { primary_cursor, cursors, primary_old_data, old_data, .. } => {
                self.undo_replace_at_with(
                    *primary_cursor,
                    cursors.as_slice(),
                    primary_old_data.as_slice(),
                    old_data.as_slice(),
                )
            },
        }
    }
}

} // verus!

verus! {

/// Copies of the bytes that each cursor selects.
pub fn copy_selections(bytes: &Vec<u8>, cursors: &[Cursor]) -> (result: Vec<Vec<u8>>)
    requires
        forall|j: int| 0 <= j < cursors@.len() ==> #[trigger] cursors@[j].hi() < bytes@.len(),
    ensures
        views(result@) == selections(bytes@, cursors@),
{
    let mut result: Vec<Vec<u8>> = Vec::new();
    let mut k: usize = 0;
    while k < cursors.len()
        invariant
            k <= cursors@.len(),
            forall|j: int| 0 <= j < cursors@.len() ==> #[trigger] cursors@[j].hi() < bytes@.len(),
            views(result@) == selections(bytes@, cursors@.take(k as int)),
            result@.len() == k,
        decreases cursors.len() - k,
    {
        let copy = copy_selection(bytes, cursors[k]);
        let ghost before = result@;
        result.push(copy);
        proof {
            let wanted = selections(bytes@, cursors@.take(k + 1));
            assert forall|i: int| 0 <= i < k + 1 implies views(result@)[i] == wanted[i] by {
                if i < k {
                    assert(result@[i] == before[i]);
                    assert(views(before)[i] == selections(bytes@, cursors@.take(k as int))[i]);
                }
            }
            assert(views(result@) =~= wanted);
        }
        k += 1;
    }
    assert(cursors@.take(cursors@.len() as int) =~= cursors@);
    result
}

/// What a key does while a replacement waits for its digits. A hex digit
/// is remembered when it is the first; with the second, the selected bytes
/// are replaced by the byte that the two digits make, the edit is recorded
/// and the replacement ends. Any other key cancels the replacement.
pub open spec fn replace_handled(before: &Buffer, after: &Buffer, character: Option<char>) -> bool {
    &&& match character {
            Some(c) => match spec_nybble_from_hex(c) {
                Some(nybble) => match before.partial_replace {
                    Some(high) => {
                        let new_byte = ((high << 4u8) | nybble) as u8;
                        let edit = after.edit_history@.last();
                        &&& edit matches EditAction::Replace {
                            primary_cursor,
                            cursors,
                            primary_old_data,
                            old_data,
                            new_byte: edit_byte,
                        } && primary_cursor == before.primary_cursor && cursors@
                            == before.cursors@ && primary_old_data@ == selected(
                            before.contents@,
                            before.primary_cursor,
                        ) && views(old_data@) == selections(
                            before.contents@,
                            before.cursors@,
                        ) && edit_byte == new_byte
                        &&& high < 16 ==> new_byte == high * 16 + nybble
                        &&& after.contents@ == replaced(
                            before.contents@,
                            before.primary_cursor,
                            before.cursors@,
                            new_byte,
                        )
                        &&& after.primary_cursor == before.primary_cursor
                        &&& after.cursors@ == before.cursors@
                        &&& after.edit_history@ == before.history_after_adding(edit)
                        &&& after.time_traveling == None::<usize>
                        &&& after.last_saved_at == before.saved_after_adding()
                        &&& after.partial_action == None::<PartialAction>
                        &&& after.partial_replace == None::<u8>
                    },
                    None => {
                        &&& after.partial_replace == Some(nybble)
                        &&& after.partial_action == before.partial_action
                        &&& after.contents == before.contents
                        &&& after.edit_history == before.edit_history
                        &&& after.primary_cursor == before.primary_cursor
                        &&& after.cursors == before.cursors
                    },
                },
                None => {
                    &&& after.partial_action == None::<PartialAction>
                    &&& after.partial_replace == None::<u8>
                    &&& after.contents == before.contents
                    &&& after.edit_history == before.edit_history
                    &&& after.primary_cursor == before.primary_cursor
                    &&& after.cursors == before.cursors
                },
            },
            None => {
                &&& after.partial_action == None::<PartialAction>
                &&& after.partial_replace == None::<u8>
                &&& after.contents == before.contents
                &&& after.edit_history == before.edit_history
                &&& after.primary_cursor == before.primary_cursor
                &&& after.cursors == before.cursors
            },
        }
    &&& after.mode == before.mode
    &&& after.scroll_position == before.scroll_position
    &&& after.file_name == before.file_name
}

impl Buffer {
    /// Handles the key typed after the replace key: the first hexadecimal
    /// digit is remembered, the second one replaces every selected byte with
    /// the byte the two digits spell, as an undoable edit. Any other key
    /// cancels the replacement.
    pub fn handle_replace(&mut self, character: Option<char>)
        requires
            character matches Some(c) && spec_nybble_from_hex(c) is Some && old(self).partial_replace
                is Some ==> all_within(
                old(self).primary_cursor,
                old(self).cursors@,
                old(self).contents@.len() as int,
            ),
        ensures
            replace_handled(old(self), final(self), character),
            final(self).marks == old(self).marks,
            final(self).alert_message == old(self).alert_message,
            final(self).popups == old(self).popups,
            final(self).inspecting_selection == old(self).inspecting_selection,
            final(self).logs == old(self).logs,
    {
        let nybble = match character {
            Some(hex_character) => nybble_from_hex(hex_character),
            None => None,
        };
        match nybble {
            Some(nybble) => {
                match self.partial_replace.take() {
                    Some(partial_replace) => {
                        let new_byte = (partial_replace << 4u8) | nybble;
                        proof {
                            if partial_replace < 16 {
                                assert((partial_replace << 4u8) | nybble == partial_replace * 16 + nybble)
                                    by (bit_vector)
                                    requires
                                        partial_replace < 16,
                                        nybble < 16,
                                ;
                            }
                        }
                        let primary_old_data = copy_selection(&self.contents, self.primary_cursor);
                        let old_data = copy_selections(&self.contents, self.cursors.as_slice());
                        let edit = EditAction::Replace {
                            primary_cursor: self.primary_cursor,
                            cursors: vstd::slice::slice_to_vec(self.cursors.as_slice()),
                            primary_old_data,
                            old_data,
                            new_byte,
                        };
                        self.execute_and_add(edit);
                        self.partial_action = None;
                    },
                    None => {
                        self.partial_replace = Some(nybble);
                    },
                }
            },
            None => {
                self.partial_action = None;
                self.partial_replace = None;
            },
        }
    }
}

} // verus!
