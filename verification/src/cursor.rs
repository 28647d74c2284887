use vstd::prelude::*;

pub mod actions;

verus! {

/// A selection of bytes: `head` is where the cursor is, `tail` is the other
/// end of the selection. Both ends are inclusive.
#[derive(Clone, Copy, Debug, Default, PartialEq, Eq, Structural)]
pub struct Cursor {
    pub head: usize,
    pub tail: usize,
}

/// Where an index falls inside a cursor.
#[derive(Clone, Copy, Debug, PartialEq, Eq, Structural)]
pub enum InCursor {
    Head,
    Rest,
}

impl Cursor {
    /// The smaller end of the selection.
    pub open spec fn lo(self) -> usize {
        if self.head <= self.tail { self.head } else { self.tail }
    }

    /// The larger end of the selection.
    pub open spec fn hi(self) -> usize {
        if self.head <= self.tail { self.tail } else { self.head }
    }

    /// Whether `index` lies inside the selection.
    pub open spec fn covers(self, index: int) -> bool {
        self.lo() <= index <= self.hi()
    }

    /// Whether the inclusive ranges of two cursors share an index.
    pub open spec fn overlaps(self, other: Cursor) -> bool {
        self.lo() <= other.hi() && other.lo() <= self.hi()
    }

    /// A cursor with both ends at `index`.
    pub fn at(index: usize) -> (result: Self)
        ensures
            result.head == index,
            result.tail == index,
    {
        Self { head: index, tail: index }
    }

    pub fn lower_bound(&self) -> (result: usize)
        ensures
            result == self.lo(),
    {
        if self.head <= self.tail { self.head } else { self.tail }
    }

    pub fn upper_bound(&self) -> (result: usize)
        ensures
            result == self.hi(),
    {
        if self.head <= self.tail { self.tail } else { self.head }
    }

    /// The inclusive range of selected indices.
    pub fn range(&self) -> (result: core::ops::RangeInclusive<usize>)
        ensures
            result@.start == self.lo(),
            result@.end == self.hi(),
            !result@.exhausted,
    {
        self.lower_bound()..=self.upper_bound()
    }

    /// Number of selected bytes.
    pub fn len(&self) -> (result: usize)
        requires
            self.hi() - self.lo() < usize::MAX,
        ensures
            result == self.hi() - self.lo() + 1,
    {
        self.upper_bound() - self.lower_bound() + 1
    }

    /// Whether `index` is the head, another selected byte, or not selected.
    pub open spec fn place_of(self, index: int) -> Option<InCursor> {
        if index == self.head {
            Some(InCursor::Head)
        } else if self.covers(index) {
            Some(InCursor::Rest)
        } else {
            None
        }
    }

    pub fn contains(&self, index: usize) -> (result: Option<InCursor>)
        ensures
            result == self.place_of(index as int),
    {
        if index == self.head {
            Some(InCursor::Head)
        } else if (self.head < index && index <= self.tail) || (self.tail <= index && index
            < self.head) {
            Some(InCursor::Rest)
        } else {
            None
        }
    }

    /// Whether the gap just before `index` lies inside the selection.
    pub fn contains_space_before(&self, index: usize) -> (result: bool)
        ensures
            result == (self.lo() < index <= self.hi()),
    {
        (self.head < index && index <= self.tail) || (self.tail < index && index <= self.head)
    }

    /// Shrinks the selection to its head.
    pub fn collapse(&mut self)
        ensures
            final(self).head == old(self).head,
            final(self).tail == old(self).head,
    {
        self.tail = self.head;
    }

    /// Swaps head and tail.
    pub fn flip(&mut self)
        ensures
            final(self).head == old(self).tail,
            final(self).tail == old(self).head,
    {
        let head = self.head;
        self.head = self.tail;
        self.tail = head;
    }

    /// Keeps both ends within the rows `scroll_position ..
    /// scroll_position + screen_size`.
    pub fn clamp(&mut self, scroll_position: usize, screen_size: usize)
        requires
            screen_size >= 1,
            scroll_position + screen_size <= usize::MAX,
        ensures
            final(self).head == clamp_to(old(self).head, scroll_position, (scroll_position
                + screen_size - 1) as usize),
            final(self).tail == clamp_to(old(self).tail, scroll_position, (scroll_position
                + screen_size - 1) as usize),
    {
        let max_row = scroll_position + screen_size - 1;
        self.head = clamp_usize(self.head, scroll_position, max_row);
        self.tail = clamp_usize(self.tail, scroll_position, max_row);
    }

    /// The selection that results from merging `other` into `self`,
    /// keeping the direction of `self`.
    pub open spec fn combined(self, other: Cursor) -> Cursor {
        if self.head < self.tail {
            Cursor {
                head: if self.head <= other.head { self.head } else { other.head },
                tail: if self.tail >= other.tail { self.tail } else { other.tail },
            }
        } else {
            Cursor {
                head: if self.head >= other.head { self.head } else { other.head },
                tail: if self.tail <= other.tail { self.tail } else { other.tail },
            }
        }
    }

    pub fn combine_with(&mut self, other: Self)
        ensures
            *final(self) == old(self).combined(other),
    {
        if self.head < self.tail {
            if other.head < self.head {
                self.head = other.head;
            }
            if other.tail > self.tail {
                self.tail = other.tail;
            }
        } else {
            if other.head > self.head {
                self.head = other.head;
            }
            if other.tail < self.tail {
                self.tail = other.tail;
            }
        }
    }
}

/// `value` limited to `low ..= high`.
pub open spec fn clamp_to(value: usize, low: usize, high: usize) -> usize {
    if value < low { low } else if value > high { high } else { value }
}

fn clamp_usize(value: usize, low: usize, high: usize) -> (result: usize)
    requires
        low <= high,
    ensures
        result == clamp_to(value, low, high),
{
    if value < low { low } else if value > high { high } else { value }
}

} // verus!
