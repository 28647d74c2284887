use vstd::prelude::*;
use crate::BYTES_PER_LINE;

verus! {

/// The size of the terminal, and how many of its rows the status line and
/// tab bar take.
#[derive(Clone, Copy, Debug, PartialEq, Eq, Structural)]
pub struct WindowSize {
    pub rows: usize,
    pub covered_rows: usize,
}

impl WindowSize {
    /// Number of bytes that fit in the hex view.
    pub fn visible_byte_count(&self) -> (result: usize)
        requires
            self.covered_rows <= self.rows,
            (self.rows - self.covered_rows) * BYTES_PER_LINE <= usize::MAX,
        ensures
            result == (self.rows - self.covered_rows) * BYTES_PER_LINE,
    {
        self.hex_rows() * BYTES_PER_LINE
    }

    /// Number of rows left for the hex view.
    pub fn hex_rows(&self) -> (result: usize)
        requires
            self.covered_rows <= self.rows,
        ensures
            result == self.rows - self.covered_rows,
    {
        self.rows - self.covered_rows
    }
}

} // verus!
