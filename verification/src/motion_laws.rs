use vstd::prelude::*;
use crate::cursor::Cursor;

verus! {

/// Extending a selection to whole lines upward: the head goes to the start
/// of the line holding the selection's lower end and the tail to the end of
/// the line holding its upper end (or the last index); a selection that
/// already covers whole lines grows by the line above it. Either way the
/// head ends at a line start before the tail, and every byte that was
/// selected stays selected.
pub proof fn lemma_extend_line_above_covers_whole_lines(cursor: Cursor, max: usize)
    requires
        cursor.hi() <= max,
    ensures
        ({
            let result = cursor.after_extend_line_above(max);
            let low = cursor.lo() as int;
            let high = cursor.hi() as int;
            let whole = low % 16 == 0 && (high % 16 == 15 || high == max);
            &&& result.head <= result.tail <= max
            &&& result.head % 16 == 0
            &&& forall|i: int| cursor.covers(i) ==> result.covers(i)
            &&& !whole ==> {
                &&& result.head == low - low % 16
                &&& result.tail == if high - high % 16 + 15 <= max {
                    high - high % 16 + 15
                } else {
                    max as int
                }
            }
            &&& whole ==> {
                &&& result.tail == high
                &&& result.head == if low >= 16 { low - 16 } else { 0 }
            }
        }),
{
}

/// Extending a selection to whole lines downward: the tail goes to the
/// start of the line holding the selection's lower end and the head to the
/// end of the line holding its upper end (or the last index); a selection
/// that already covers whole lines grows by the line below it. Either way
/// the tail ends at a line start before the head, and every byte that was
/// selected stays selected.
pub proof fn lemma_extend_line_below_covers_whole_lines(cursor: Cursor, max: usize)
    requires
        cursor.hi() <= max,
    ensures
        ({
            let result = cursor.after_extend_line_below(max);
            let low = cursor.lo() as int;
            let high = cursor.hi() as int;
            let whole = low % 16 == 0 && high % 16 == 15;
            &&& result.tail <= result.head <= max
            &&& result.tail % 16 == 0
            &&& forall|i: int| cursor.covers(i) ==> result.covers(i)
            &&& !whole ==> {
                &&& result.tail == low - low % 16
                &&& result.head == if high - high % 16 + 15 <= max {
                    high - high % 16 + 15
                } else {
                    max as int
                }
            }
            &&& whole ==> {
                &&& result.tail == low
                &&& result.head == if high + 16 <= max { high + 16 } else { max as int }
            }
        }),
{
}

/// Extending to the next word start keeps the tail and moves the head
/// forward to the first multiple of 4 after it (no more than the distance
/// to the end of its word), or to the last index if that comes first; at
/// the last index nothing moves.
pub proof fn lemma_extend_next_word_start_moves_forward(cursor: Cursor, max: usize)
    requires
        cursor.head <= max,
    ensures
        ({
            let result = cursor.after_extend_next_word_start(max);
            &&& result.tail == cursor.tail
            &&& cursor.head == max ==> result == cursor
            &&& cursor.head < max ==> {
                &&& cursor.head < result.head <= max
                &&& result.head % 4 == 0 || result.head == max
                &&& result.head - cursor.head <= 4 - cursor.head % 4
            }
        }),
{
}

/// Moving to the next word start and extending to it put the head at the
/// same place; extending keeps the tail.
pub proof fn lemma_extend_next_word_start_is_move(cursor: Cursor, max: usize)
    requires
        cursor.head <= max,
    ensures
        cursor.after_extend_next_word_start(max).head == cursor.after_move_next_word_start(max).head,
        cursor.after_extend_next_word_start(max).tail == cursor.tail,
{
}

} // verus!
