use vstd::prelude::*;
use crate::BYTES_PER_LINE;
use crate::action::CursorAction;
use crate::cursor::Cursor;

verus! {

/// The smaller of two indices.
pub open spec fn min_index(a: int, b: int) -> int {
    if a <= b { a } else { b }
}

/// The largest multiple of `multiple` that is below `number`, or 0 when
/// `number` is 0.
pub open spec fn spec_previous_multiple_of(multiple: int, number: int) -> int {
    if number == 0 {
        0
    } else {
        (number - 1) - ((number - 1) % multiple)
    }
}

/// The first index of the 4-byte word after the one holding `index`.
pub open spec fn next_word_start(index: int) -> int {
    index - index % 4 + 4
}

/// The last index of the 4-byte word holding `index`.
pub open spec fn word_end(index: int) -> int {
    index - index % 4 + 3
}

/// The first index of the line holding `index`.
pub open spec fn line_start(index: int) -> int {
    index - index % (BYTES_PER_LINE as int)
}

/// The last index of the line holding `index`.
pub open spec fn line_end(index: int) -> int {
    index - index % (BYTES_PER_LINE as int) + (BYTES_PER_LINE as int) - 1
}

impl Cursor {
    /// A collapsed cursor at `index`.
    pub open spec fn spec_at(index: int) -> Cursor {
        Cursor { head: index as usize, tail: index as usize }
    }

    /// The same selection with its head moved to `index`.
    pub open spec fn with_head(self, index: int) -> Cursor {
        Cursor { head: index as usize, tail: self.tail }
    }

    pub open spec fn after_move_byte_up(self) -> Cursor {
        if self.head >= BYTES_PER_LINE { Cursor::spec_at(self.head - BYTES_PER_LINE) } else { self }
    }

    pub open spec fn after_move_byte_down(self, max: usize) -> Cursor {
        if max - self.head >= BYTES_PER_LINE { Cursor::spec_at(self.head + BYTES_PER_LINE) } else { self }
    }

    pub open spec fn after_move_byte_left(self) -> Cursor {
        if self.head >= 1 { Cursor::spec_at(self.head - 1) } else { self }
    }

    pub open spec fn after_move_byte_right(self, max: usize) -> Cursor {
        if max - self.head >= 1 { Cursor::spec_at(self.head + 1) } else { self }
    }

    pub open spec fn after_extend_byte_up(self) -> Cursor {
        if self.head >= BYTES_PER_LINE { self.with_head(self.head - BYTES_PER_LINE) } else { self }
    }

    pub open spec fn after_extend_byte_down(self, max: usize) -> Cursor {
        if max - self.head >= BYTES_PER_LINE { self.with_head(self.head + BYTES_PER_LINE) } else { self }
    }

    pub open spec fn after_extend_byte_left(self) -> Cursor {
        if self.head >= 1 { self.with_head(self.head - 1) } else { self }
    }

    pub open spec fn after_extend_byte_right(self, max: usize) -> Cursor {
        if max - self.head >= 1 { self.with_head(self.head + 1) } else { self }
    }

    pub open spec fn after_goto_line_start(self) -> Cursor {
        Cursor::spec_at(line_start(self.head as int))
    }

    pub open spec fn after_goto_line_end(self, max: usize) -> Cursor {
        Cursor::spec_at(min_index(line_end(self.head as int), max as int))
    }

    pub open spec fn after_goto_file_start(self) -> Cursor {
        Cursor::spec_at((self.head % BYTES_PER_LINE) as int)
    }

    pub open spec fn after_goto_file_end(self, max: usize) -> Cursor {
        Cursor::spec_at(
            self.head + spec_previous_multiple_of(BYTES_PER_LINE as int, max + 1 - self.head),
        )
    }

    pub open spec fn after_move_next_word_start(self, max: usize) -> Cursor {
        if self.head == max {
            self
        } else {
            Cursor::spec_at(min_index(next_word_start(self.head as int), max as int))
        }
    }

    pub open spec fn after_move_next_word_end(self, max: usize) -> Cursor {
        if self.head == max {
            self
        } else if self.head % 4 == 3 {
            Cursor { head: min_index(self.head + 4, max as int) as usize, tail: (self.head + 1) as usize }
        } else {
            Cursor { head: min_index(word_end(self.head as int), max as int) as usize, tail: self.head }
        }
    }

    pub open spec fn after_move_previous_word_start(self) -> Cursor {
        if self.head == 0 {
            self
        } else if self.head % 4 == 0 {
            Cursor { head: (self.head - 4) as usize, tail: (self.head - 1) as usize }
        } else {
            Cursor { head: (self.head - self.head % 4) as usize, tail: self.head }
        }
    }

    pub open spec fn after_extend_next_word_start(self, max: usize) -> Cursor {
        if self.head == max {
            self
        } else {
            self.with_head(min_index(next_word_start(self.head as int), max as int))
        }
    }

    pub open spec fn after_extend_next_word_end(self, max: usize) -> Cursor {
        if self.head == max {
            self
        } else if self.head % 4 == 3 {
            self.with_head(min_index(self.head + 4, max as int))
        } else {
            self.with_head(min_index(word_end(self.head as int), max as int))
        }
    }

    pub open spec fn after_extend_previous_word_start(self) -> Cursor {
        if self.head == 0 {
            self
        } else if self.head % 4 == 0 {
            self.with_head(self.head - 4)
        } else {
            self.with_head(self.head - self.head % 4)
        }
    }

    /// Extends the selection to whole lines, or by one more line below
    /// when it already covers whole lines; the head ends below the tail.
    pub open spec fn after_extend_line_below(self, max: usize) -> Cursor {
        let low = self.lo() as int;
        let high = self.hi() as int;
        if low % (BYTES_PER_LINE as int) == 0 && high % (BYTES_PER_LINE as int) == BYTES_PER_LINE - 1 {
            Cursor { head: min_index(high + BYTES_PER_LINE, max as int) as usize, tail: low as usize }
        } else {
            Cursor {
                head: min_index(line_end(high), max as int) as usize,
                tail: line_start(low) as usize,
            }
        }
    }

    /// Extends the selection to whole lines, or by one more line above
    /// when it already covers whole lines; the head ends above the tail.
    pub open spec fn after_extend_line_above(self, max: usize) -> Cursor {
        let low = self.lo() as int;
        let high = self.hi() as int;
        if low % (BYTES_PER_LINE as int) == 0 && (high % (BYTES_PER_LINE as int) == BYTES_PER_LINE
            - 1 || high == max) {
            Cursor {
                head: (if low >= BYTES_PER_LINE { low - BYTES_PER_LINE } else { 0 }) as usize,
                tail: high as usize,
            }
        } else {
            Cursor {
                head: line_start(low) as usize,
                tail: min_index(line_end(high), max as int) as usize,
            }
        }
    }

    /// What `action` does to this cursor in a buffer whose last index is `max`.
    pub open spec fn spec_execute(self, action: CursorAction, max: usize) -> Cursor {
        match action {
            CursorAction::MoveByteUp => self.after_move_byte_up(),
            CursorAction::MoveByteDown => self.after_move_byte_down(max),
            CursorAction::MoveByteLeft => self.after_move_byte_left(),
            CursorAction::MoveByteRight => self.after_move_byte_right(max),
            CursorAction::ExtendByteUp => self.after_extend_byte_up(),
            CursorAction::ExtendByteDown => self.after_extend_byte_down(max),
            CursorAction::ExtendByteLeft => self.after_extend_byte_left(),
            CursorAction::ExtendByteRight => self.after_extend_byte_right(max),
            CursorAction::GotoLineStart => self.after_goto_line_start(),
            CursorAction::GotoLineEnd => self.after_goto_line_end(max),
            CursorAction::GotoFileStart => self.after_goto_file_start(),
            CursorAction::GotoFileEnd => self.after_goto_file_end(max),
            CursorAction::MoveNextWordStart => self.after_move_next_word_start(max),
            CursorAction::MoveNextWordEnd => self.after_move_next_word_end(max),
            CursorAction::MovePreviousWordStart => self.after_move_previous_word_start(),
            CursorAction::ExtendNextWordStart => self.after_extend_next_word_start(max),
            CursorAction::ExtendNextWordEnd => self.after_extend_next_word_end(max),
            CursorAction::ExtendPreviousWordStart => self.after_extend_previous_word_start(),
            CursorAction::ExtendLineBelow => self.after_extend_line_below(max),
            CursorAction::ExtendLineAbove => self.after_extend_line_above(max),
        }
    }

    /// The inputs on which `action` runs without arithmetic going out of
    /// range: the head must not lie past `max` where the action measures the
    /// distance to it, and indices must stay representable.
    pub open spec fn can_execute(self, action: CursorAction, max: usize) -> bool {
        match action {
            CursorAction::MoveByteDown | CursorAction::MoveByteRight
            | CursorAction::ExtendByteDown | CursorAction::ExtendByteRight => self.head <= max,
            CursorAction::GotoLineEnd => self.head + BYTES_PER_LINE <= usize::MAX,
            CursorAction::GotoFileEnd => self.head <= max + 1 && max < usize::MAX,
            CursorAction::MoveNextWordStart | CursorAction::MoveNextWordEnd
            | CursorAction::ExtendNextWordStart | CursorAction::ExtendNextWordEnd => self.head + 4
                <= usize::MAX,
            CursorAction::ExtendLineBelow | CursorAction::ExtendLineAbove => self.hi()
                + BYTES_PER_LINE <= usize::MAX,
            _ => true,
        }
    }

    /// Performs a cursor action, where `max_contents_index` is the last
    /// index of the buffer.
    pub fn execute(&mut self, action: CursorAction, max_contents_index: usize)
        requires
            old(self).can_execute(action, max_contents_index),
        ensures
            *final(self) == old(self).spec_execute(action, max_contents_index),
    {
        match action {
            CursorAction::MoveByteUp => self.move_byte_up(),
            CursorAction::MoveByteDown => self.move_byte_down(max_contents_index),
            CursorAction::MoveByteLeft => self.move_byte_left(),
            CursorAction::MoveByteRight => self.move_byte_right(max_contents_index),
            CursorAction::ExtendByteUp => self.extend_byte_up(),
            CursorAction::ExtendByteDown => self.extend_byte_down(max_contents_index),
            CursorAction::ExtendByteLeft => self.extend_byte_left(),
            CursorAction::ExtendByteRight => self.extend_byte_right(max_contents_index),
            CursorAction::GotoLineStart => self.goto_line_start(),
            CursorAction::GotoLineEnd => self.goto_line_end(max_contents_index),
            CursorAction::GotoFileStart => self.goto_file_start(),
            CursorAction::GotoFileEnd => self.goto_file_end(max_contents_index),
            CursorAction::MoveNextWordStart => self.move_next_word_start(max_contents_index),
            CursorAction::MoveNextWordEnd => self.move_next_word_end(max_contents_index),
            CursorAction::MovePreviousWordStart => self.move_previous_word_start(),
            CursorAction::ExtendNextWordStart => self.extend_next_word_start(max_contents_index),
            CursorAction::ExtendNextWordEnd => self.extend_next_word_end(max_contents_index),
            CursorAction::ExtendPreviousWordStart => self.extend_previous_word_start(),
            CursorAction::ExtendLineBelow => self.extend_line_below(max_contents_index),
            CursorAction::ExtendLineAbove => self.extend_line_above(max_contents_index),
        }
    }

    pub fn move_byte_up(&mut self)
        ensures
            *final(self) == old(self).after_move_byte_up(),
    {
        if self.head >= BYTES_PER_LINE {
            self.head -= BYTES_PER_LINE;
            self.collapse();
        }
    }

    pub fn move_byte_down(&mut self, max: usize)
        requires
            old(self).head <= max,
        ensures
            *final(self) == old(self).after_move_byte_down(max),
    {
        if max - self.head >= BYTES_PER_LINE {
            self.head += BYTES_PER_LINE;
            self.collapse();
        }
    }

    pub fn move_byte_left(&mut self)
        ensures
            *final(self) == old(self).after_move_byte_left(),
    {
        if self.head >= 1 {
            self.head -= 1;
            self.collapse();
        }
    }

    pub fn move_byte_right(&mut self, max: usize)
        requires
            old(self).head <= max,
        ensures
            *final(self) == old(self).after_move_byte_right(max),
    {
        if max - self.head >= 1 {
            self.head += 1;
            self.collapse();
        }
    }

    pub fn extend_byte_up(&mut self)
        ensures
            *final(self) == old(self).after_extend_byte_up(),
    {
        if self.head >= BYTES_PER_LINE {
            self.head -= BYTES_PER_LINE;
        }
    }

    pub fn extend_byte_down(&mut self, max: usize)
        requires
            old(self).head <= max,
        ensures
            *final(self) == old(self).after_extend_byte_down(max),
    {
        if max - self.head >= BYTES_PER_LINE {
            self.head += BYTES_PER_LINE;
        }
    }

    pub fn extend_byte_left(&mut self)
        ensures
            *final(self) == old(self).after_extend_byte_left(),
    {
        if self.head >= 1 {
            self.head -= 1;
        }
    }

    pub fn extend_byte_right(&mut self, max: usize)
        requires
            old(self).head <= max,
        ensures
            *final(self) == old(self).after_extend_byte_right(max),
    {
        if max - self.head >= 1 {
            self.head += 1;
        }
    }

    pub fn goto_line_start(&mut self)
        ensures
            *final(self) == old(self).after_goto_line_start(),
    {
        self.head -= self.head % BYTES_PER_LINE;
        self.collapse();
    }

    pub fn goto_line_end(&mut self, max: usize)
        requires
            old(self).head + BYTES_PER_LINE <= usize::MAX,
        ensures
            *final(self) == old(self).after_goto_line_end(max),
    {
        let end = self.head + BYTES_PER_LINE - 1 - (self.head % BYTES_PER_LINE);
        self.head = if end <= max { end } else { max };
        self.collapse();
    }

    pub fn goto_file_start(&mut self)
        ensures
            *final(self) == old(self).after_goto_file_start(),
    {
        self.head %= BYTES_PER_LINE;
        self.collapse();
    }

    pub fn goto_file_end(&mut self, max: usize)
        requires
            old(self).head <= max + 1,
            max < usize::MAX,
        ensures
            *final(self) == old(self).after_goto_file_end(max),
    {
        let step = previous_multiple_of(BYTES_PER_LINE, max + 1 - self.head);
        self.head += step;
        self.collapse();
    }

    pub fn move_next_word_start(&mut self, max: usize)
        requires
            old(self).head + 4 <= usize::MAX,
        ensures
            *final(self) == old(self).after_move_next_word_start(max),
    {
        if self.head == max {
            return;
        }
        let target = if self.head % 4 == 0 {
            self.head + 4
        } else {
            next_multiple_of_4(self.head)
        };
        self.head = if target <= max { target } else { max };
        self.collapse();
    }

    pub fn move_next_word_end(&mut self, max: usize)
        requires
            old(self).head + 4 <= usize::MAX,
        ensures
            *final(self) == old(self).after_move_next_word_end(max),
    {
        if self.head == max {
            return;
        }
        self.collapse();
        if self.head % 4 == 3 {
            self.tail = self.head + 1;
            let target = self.head + 4;
            self.head = if target <= max { target } else { max };
        } else {
            let target = next_multiple_of_4(self.head + 1) - 1;
            self.head = if target <= max { target } else { max };
        }
    }

    pub fn move_previous_word_start(&mut self)
        ensures
            *final(self) == old(self).after_move_previous_word_start(),
    {
        if self.head == 0 {
            return;
        }
        self.collapse();
        if self.head % 4 == 0 {
            self.tail = self.head - 1;
            self.head -= 4;
        } else {
            self.head -= self.head % 4;
        }
    }

    pub fn extend_next_word_start(&mut self, max: usize)
        requires
            old(self).head + 4 <= usize::MAX,
        ensures
            *final(self) == old(self).after_extend_next_word_start(max),
    {
        if self.head == max {
            return;
        }
        let target = if self.head % 4 == 0 {
            self.head + 4
        } else {
            next_multiple_of_4(self.head)
        };
        self.head = if target <= max { target } else { max };
    }

    pub fn extend_next_word_end(&mut self, max: usize)
        requires
            old(self).head + 4 <= usize::MAX,
        ensures
            *final(self) == old(self).after_extend_next_word_end(max),
    {
        if self.head == max {
            return;
        }
        let target = if self.head % 4 == 3 {
            self.head + 4
        } else {
            next_multiple_of_4(self.head + 1) - 1
        };
        self.head = if target <= max { target } else { max };
    }

    pub fn extend_previous_word_start(&mut self)
        ensures
            *final(self) == old(self).after_extend_previous_word_start(),
    {
        if self.head == 0 {
            return;
        }
        if self.head % 4 == 0 {
            self.head -= 4;
        } else {
            self.head -= self.head % 4;
        }
    }

    pub fn extend_line_below(&mut self, max: usize)
        requires
            old(self).hi() + BYTES_PER_LINE <= usize::MAX,
        ensures
            *final(self) == old(self).after_extend_line_below(max),
    {
        if self.tail > self.head {
            self.flip();
        }
        if self.tail % BYTES_PER_LINE == 0 && self.head % BYTES_PER_LINE == BYTES_PER_LINE - 1 {
            let target = self.head + BYTES_PER_LINE;
            self.head = if target <= max { target } else { max };
        } else {
            self.tail -= self.tail % BYTES_PER_LINE;
            let target = self.head + BYTES_PER_LINE - 1 - (self.head % BYTES_PER_LINE);
            self.head = if target <= max { target } else { max };
        }
    }

    pub fn extend_line_above(&mut self, max: usize)
        requires
            old(self).hi() + BYTES_PER_LINE <= usize::MAX,
        ensures
            *final(self) == old(self).after_extend_line_above(max),
    {
        if self.head > self.tail {
            self.flip();
        }
        if self.head % BYTES_PER_LINE == 0 && (self.tail % BYTES_PER_LINE == BYTES_PER_LINE - 1
            || self.tail == max) {
            self.head = self.head.saturating_sub(BYTES_PER_LINE);
        } else {
            self.head -= self.head % BYTES_PER_LINE;
            let target = self.tail + BYTES_PER_LINE - 1 - (self.tail % BYTES_PER_LINE);
            self.tail = if target <= max { target } else { max };
        }
    }
}

/// Every cursor action keeps a cursor that lies inside the buffer inside
/// the buffer.
pub proof fn lemma_execute_stays_in_bounds(cursor: Cursor, action: CursorAction, max: usize)
    requires
        cursor.head <= max,
        cursor.tail <= max,
        cursor.can_execute(action, max),
    ensures
        cursor.spec_execute(action, max).head <= max,
        cursor.spec_execute(action, max).tail <= max,
{
    if action == CursorAction::GotoFileEnd {
        lemma_goto_file_end_lands_on_last_line(cursor, max);
    }
}

/// Going to the end of the file keeps the column and lands on the last line
/// that has a byte in that column.
pub proof fn lemma_goto_file_end_lands_on_last_line(cursor: Cursor, max: usize)
    requires
        cursor.head <= max,
        max < usize::MAX,
    ensures
        cursor.after_goto_file_end(max).head % BYTES_PER_LINE == cursor.head % BYTES_PER_LINE,
        cursor.after_goto_file_end(max).head <= max,
        cursor.after_goto_file_end(max).head + BYTES_PER_LINE > max,
{
    let below = max - cursor.head;
    assert(0 <= below % 16 < 16);
    assert((below - below % 16) % 16 == 0);
    assert((cursor.head + (below - below % 16)) % 16 == cursor.head % 16);
}

/// Going to the start or the end of a line keeps the cursor on its line.
pub proof fn lemma_line_moves_keep_line(cursor: Cursor, max: usize)
    requires
        cursor.head <= max,
    ensures
        cursor.after_goto_line_start().head / BYTES_PER_LINE == cursor.head / BYTES_PER_LINE,
        cursor.after_goto_line_start().head % BYTES_PER_LINE == 0,
        cursor.after_goto_line_end(max).head / BYTES_PER_LINE == cursor.head / BYTES_PER_LINE,
        cursor.after_goto_line_end(max).head >= cursor.head,
{
}

/// Moving one byte right and then one byte left returns to the start, and
/// so does moving one line down and then one line up.
pub proof fn lemma_opposite_moves_cancel(cursor: Cursor, max: usize)
    requires
        cursor.head == cursor.tail,
        cursor.head <= max,
    ensures
        cursor.head < max ==> cursor.after_move_byte_right(max).after_move_byte_left() == cursor,
        cursor.head + BYTES_PER_LINE <= max ==> cursor.after_move_byte_down(max).after_move_byte_up()
            == cursor,
        cursor.head >= 1 ==> cursor.after_move_byte_left().after_move_byte_right(max) == cursor,
        cursor.head >= BYTES_PER_LINE ==> cursor.after_move_byte_up().after_move_byte_down(max)
            == cursor,
{
}

/// Moving to the next word start lands on the start of a word, or on the
/// last byte of the buffer.
pub proof fn lemma_next_word_start_is_word_start(cursor: Cursor, max: usize)
    requires
        cursor.head < max,
    ensures
        cursor.after_move_next_word_start(max).head % 4 == 0 || cursor.after_move_next_word_start(
            max,
        ).head == max,
        cursor.after_move_next_word_start(max).head > cursor.head,
{
}

/// The smallest multiple of 4 that is at least `number`.
fn next_multiple_of_4(number: usize) -> (result: usize)
    requires
        number + 3 <= usize::MAX,
    ensures
        result == (if number % 4 == 0 { number as int } else { number - number % 4 + 4 }),
{
    if number % 4 == 0 {
        number
    } else {
        number + (4 - number % 4)
    }
}

/// The largest multiple of `multiple` that is below `number`, or 0 when
/// `number` is 0.
pub fn previous_multiple_of(multiple: usize, number: usize) -> (result: usize)
    requires
        multiple > 0,
    ensures
        result == spec_previous_multiple_of(multiple as int, number as int),
{
    if number == 0 {
        0
    } else {
        let below = number - 1;
        assert(below % multiple <= below) by (nonlinear_arith)
            requires
                multiple > 0,
        ;
        below - (below % multiple)
    }
}

} // verus!
