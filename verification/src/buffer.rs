use vstd::prelude::*;
use crate::cursor::Cursor;
use crate::edit_action::EditAction;
use crate::widget::{Rect, Span, plain};
use std::collections::HashSet;

verus! {

/// The editing mode of a buffer.
#[derive(Clone, Copy, Debug, PartialEq, Eq, Hash, Structural)]
pub enum Mode {
    Normal,
    Select,
    Insert,
}

/// A key that waits for another key to complete it.
#[derive(Clone, Copy, Debug, PartialEq, Eq, Hash, Structural)]
pub enum PartialAction {
    Goto,
    View,
    Replace,
    Space,
    Repeat,
    To,
}

impl Mode {
    pub open spec fn spec_label(self) -> Seq<char> {
        match self {
            Mode::Normal => " NORMAL "@,
            Mode::Select => " SELECT "@,
            Mode::Insert => " INSERT "@,
        }
    }

    /// The text shown for this mode in the status line.
    pub fn label(self) -> (result: &'static str)
        ensures
            result@ == self.spec_label(),
    {
        match self {
            Mode::Normal => " NORMAL ",
            Mode::Select => " SELECT ",
            Mode::Insert => " INSERT ",
        }
    }
}

impl PartialAction {
    pub open spec fn spec_label(self) -> Seq<char> {
        match self {
            PartialAction::Goto => "g"@,
            PartialAction::View => "z"@,
            PartialAction::Replace => "r"@,
            PartialAction::Space => "␠"@,
            PartialAction::Repeat => "×"@,
            PartialAction::To => "t"@,
        }
    }

    /// The text shown while this partial action waits for its second key.
    pub fn label(self) -> (result: &'static str)
        ensures
            result@ == self.spec_label(),
    {
        match self {
            PartialAction::Goto => "g",
            PartialAction::View => "z",
            PartialAction::Replace => "r",
            PartialAction::Space => "␠",
            PartialAction::Repeat => "×",
            PartialAction::To => "t",
        }
    }
}

/// A box of text shown next to a byte of the hex view.
pub struct Popup {
    /// The offset of the byte that the box belongs to.
    pub at: usize,
    /// The width of the widest line.
    pub width: u16,
    pub lines: Vec<Span>,
}

/// The number of terminal columns that `text` takes.
pub uninterp spec fn display_width(text: Seq<char>) -> usize;

/// The number of terminal columns that a span's text takes.
///
/// Calls ratatui's `Span::width`, which measures the content with
/// `unicode-width`; the result depends on the text alone.
#[verifier::external_body]
fn span_width(content: &str) -> (result: usize)
    ensures
        result == display_width(content@),
{
    ratatui::text::Span::raw(content).width()
}

/// The width of the widest line, each width cut to a `u16`; zero without
/// lines.
pub open spec fn widest(lines: Seq<Span>) -> u16
    decreases lines.len(),
{
    if lines.len() == 0 {
        0
    } else {
        let rest = widest(lines.drop_last());
        let last = display_width(lines.last().content@) as u16;
        if rest >= last { rest } else { last }
    }
}

impl Popup {
    /// A box of `lines` for the byte at `at`, as wide as its widest line.
    pub fn new(at: usize, lines: Vec<Span>) -> (result: Popup)
        ensures
            result.at == at,
            result.lines@ == lines@,
            result.width == widest(lines@),
    {
        let mut width: u16 = 0;
        let mut i: usize = 0;
        while i < lines.len()
            invariant
                i <= lines@.len(),
                width == widest(lines@.take(i as int)),
            decreases lines.len() - i,
        {
            let line_width = span_width(lines[i].content.as_str()) as u16;
            assert(lines@.take(i + 1).drop_last() =~= lines@.take(i as int));
            if line_width > width {
                width = line_width;
            }
            i += 1;
        }
        assert(lines@.take(lines@.len() as int) =~= lines@);
        Popup { at, width, lines }
    }

    /// Where the box goes when its top left corner is at `x`, `y`: two
    /// columns wider than its text, one row per line.
    pub fn area_at(&self, x: u16, y: u16) -> (result: Rect)
        requires
            self.width + 2 <= u16::MAX,
        ensures
            result == (Rect { x, y, width: (self.width + 2) as u16, height: self.lines@.len() as u16 }),
    {
        Rect { x, y, width: self.width + 2, height: self.lines.len() as u16 }
    }
}

/// One open file: its bytes, its selections and its edit history.
pub struct Buffer {
    pub file_name: String,
    pub contents: Vec<u8>,
    pub scroll_position: usize,
    pub primary_cursor: Cursor,
    pub cursors: Vec<Cursor>,
    /// Offsets marked as notable.
    pub marks: HashSet<usize>,
    pub mode: Mode,
    pub partial_action: Option<PartialAction>,
    pub partial_replace: Option<u8>,
    pub alert_message: Span,
    pub popups: Vec<Popup>,
    pub inspecting_selection: bool,
    pub edit_history: Vec<EditAction>,
    /// The index *after* the latest edit action, while undoing.
    pub time_traveling: Option<usize>,
    /// The index *after* the last saved edit action.
    pub last_saved_at: Option<usize>,
    pub logs: Vec<String>,
}

/// The value of a hexadecimal digit, in either case.
pub open spec fn spec_nybble_from_hex(hex: char) -> Option<u8> {
    if '0' <= hex <= '9' {
        Some((hex as int - '0' as int) as u8)
    } else if 'a' <= hex <= 'f' {
        Some((hex as int - 'a' as int + 10) as u8)
    } else if 'A' <= hex <= 'F' {
        Some((hex as int - 'A' as int + 10) as u8)
    } else {
        None
    }
}

pub fn nybble_from_hex(hex: char) -> (result: Option<u8>)
    ensures
        result == spec_nybble_from_hex(hex),
        result matches Some(n) ==> n < 16,
{
    let code = hex as u32;
    if '0' <= hex && hex <= '9' {
        Some((code - ('0' as u32)) as u8)
    } else if 'a' <= hex && hex <= 'f' {
        Some((code - ('a' as u32) + 10) as u8)
    } else if 'A' <= hex && hex <= 'F' {
        Some((code - ('A' as u32) + 10) as u8)
    } else {
        None
    }
}

/// Whether two buffers agree on everything that an edit does not touch.
pub open spec fn same_apart_from_edits(a: &Buffer, b: &Buffer) -> bool {
    &&& a.file_name == b.file_name
    &&& a.scroll_position == b.scroll_position
    &&& a.mode == b.mode
    &&& a.partial_action == b.partial_action
    &&& a.partial_replace == b.partial_replace
    &&& a.marks == b.marks
    &&& a.alert_message == b.alert_message
    &&& a.popups == b.popups
    &&& a.inspecting_selection == b.inspecting_selection
    &&& a.edit_history == b.edit_history
    &&& a.time_traveling == b.time_traveling
    &&& a.last_saved_at == b.last_saved_at
    &&& a.logs == b.logs
}

/// Merges into the cursor at `index` every following cursor that overlaps
/// it, for as long as the next one does.
pub open spec fn absorb_following(cursors: Seq<Cursor>, index: int) -> Seq<Cursor>
    decreases cursors.len(),
{
    if 0 <= index && index + 1 < cursors.len() && cursors[index].overlaps(cursors[index + 1]) {
        absorb_following(
            cursors.update(index, cursors[index].combined(cursors[index + 1])).remove(index + 1),
            index,
        )
    } else {
        cursors
    }
}

pub proof fn lemma_absorb_following_len(cursors: Seq<Cursor>, index: int)
    ensures
        absorb_following(cursors, index).len() <= cursors.len(),
        0 <= index < cursors.len() ==> index < absorb_following(cursors, index).len(),
    decreases cursors.len(),
{
    if 0 <= index && index + 1 < cursors.len() && cursors[index].overlaps(cursors[index + 1]) {
        lemma_absorb_following_len(
            cursors.update(index, cursors[index].combined(cursors[index + 1])).remove(index + 1),
            index,
        );
    }
}

/// The primary cursor and the other cursors after walking the other
/// cursors from `index` on: each absorbs the overlapping cursors that follow
/// it, and is then absorbed by the primary cursor if the two overlap.
pub open spec fn combine_from(primary: Cursor, cursors: Seq<Cursor>, index: int) -> (Cursor, Seq<Cursor>)
    decreases cursors.len() + 1 - index,
{
    if index < 0 || index >= cursors.len() {
        (primary, cursors)
    } else {
        let absorbed = absorb_following(cursors, index);
        proof {
            lemma_absorb_following_len(cursors, index);
            assert(absorbed.remove(index).len() == absorbed.len() - 1);
        }
        if primary.overlaps(absorbed[index]) {
            combine_from(primary.combined(absorbed[index]), absorbed.remove(index), index + 1)
        } else {
            combine_from(primary, absorbed, index + 1)
        }
    }
}

/// Whether two cursors select a common byte.
fn ranges_overlap(a: &Cursor, b: &Cursor) -> (result: bool)
    ensures
        result == a.overlaps(*b),
{
    a.lower_bound() <= b.upper_bound() && b.lower_bound() <= a.upper_bound()
}

impl Buffer {
    /// A buffer showing `contents`, with one collapsed cursor at the start,
    /// no history and nothing unsaved.
    pub fn new(file_name: String, contents: Vec<u8>) -> (result: Self)
        ensures
            result.file_name == file_name,
            result.contents@ == contents@,
            result.scroll_position == 0,
            result.primary_cursor == Cursor::spec_at(0),
            result.cursors@ == Seq::<Cursor>::empty(),
            result.mode == Mode::Normal,
            result.partial_action == None::<PartialAction>,
            result.partial_replace == None::<u8>,
            result.marks@ == Set::<usize>::empty(),
            result.alert_message@ == plain(Seq::<char>::empty()),
            result.popups@ == Seq::<Popup>::empty(),
            !result.inspecting_selection,
            result.edit_history@ == Seq::<EditAction>::empty(),
            result.time_traveling == None::<usize>,
            result.last_saved_at == Some(0usize),
            result.logs@ == Seq::<String>::empty(),
    {
        Buffer {
            file_name,
            contents,
            scroll_position: 0,
            primary_cursor: Cursor::at(0),
            cursors: Vec::new(),
            marks: HashSet::new(),
            mode: Mode::Normal,
            partial_action: None,
            partial_replace: None,
            alert_message: Span::raw(String::new()),
            popups: Vec::new(),
            inspecting_selection: false,
            edit_history: Vec::new(),
            time_traveling: None,
            last_saved_at: Some(0),
            logs: Vec::new(),
        }
    }

    /// Whether the current state of the history is the one last saved.
    pub open spec fn spec_all_changes_saved(&self) -> bool {
        match self.last_saved_at {
            Some(saved) => match self.time_traveling {
                Some(now) => saved == now,
                None => saved == self.edit_history.len(),
            },
            None => false,
        }
    }

    pub fn has_unsaved_changes(&self) -> (result: bool)
        ensures
            result == !self.spec_all_changes_saved(),
    {
        !self.all_changes_saved()
    }

    pub fn all_changes_saved(&self) -> (result: bool)
        ensures
            result == self.spec_all_changes_saved(),
    {
        match self.last_saved_at {
            Some(last_saved_at) => match self.time_traveling {
                Some(time_traveling) => last_saved_at == time_traveling,
                None => last_saved_at == self.edit_history.len(),
            },
            None => false,
        }
    }

    /// Merges overlapping selections, walking the other cursors in order.
    pub fn combine_cursors_if_overlapping(&mut self)
        ensures
            (final(self).primary_cursor, final(self).cursors@) == combine_from(
                old(self).primary_cursor,
                old(self).cursors@,
                0,
            ),
            final(self).contents == old(self).contents,
            same_apart_from_edits(final(self), old(self)),
    {
        let ghost target = combine_from(self.primary_cursor, self.cursors@, 0);
        let mut index: usize = 0;
        while !self.cursors.is_empty() && index < self.cursors.len()
            invariant
                combine_from(self.primary_cursor, self.cursors@, index as int) == target,
                self.contents == old(self).contents,
                same_apart_from_edits(self, old(self)),
            decreases self.cursors.len() + 1 - index,
        {
            let ghost before = self.cursors@;
            let ghost primary_before = self.primary_cursor;
            while index < self.cursors.len() - 1 && ranges_overlap(
                &self.cursors[index],
                &self.cursors[index + 1],
            )
                invariant
                    index < self.cursors.len(),
                    absorb_following(self.cursors@, index as int) == absorb_following(
                        before,
                        index as int,
                    ),
                    self.cursors@.len() <= before.len(),
                    self.primary_cursor == primary_before,
                    self.contents == old(self).contents,
                    same_apart_from_edits(self, old(self)),
                decreases self.cursors.len(),
            {
                let next_cursor = self.cursors[index + 1];
                let mut current = self.cursors[index];
                current.combine_with(next_cursor);
                self.cursors.set(index, current);
                self.cursors.remove(index + 1);
            }
            assert(self.cursors@ == absorb_following(before, index as int));
            proof {
                lemma_absorb_following_len(before, index as int);
            }
            assert(combine_from(primary_before, before, index as int) == (if primary_before.overlaps(
                self.cursors@[index as int],
            ) {
                combine_from(
                    primary_before.combined(self.cursors@[index as int]),
                    self.cursors@.remove(index as int),
                    index + 1,
                )
            } else {
                combine_from(primary_before, self.cursors@, index + 1)
            }));
            if ranges_overlap(&self.primary_cursor, &self.cursors[index]) {
                let absorbed = self.cursors[index];
                self.primary_cursor.combine_with(absorbed);
                self.cursors.remove(index);
            }
            index += 1;
        }
    }

    /// The last index of the contents, or 0 when they are empty.
    pub open spec fn spec_max_contents_index(&self) -> usize {
        if self.contents.len() == 0 { 0 } else { (self.contents.len() - 1) as usize }
    }

    pub fn max_contents_index(&self) -> (result: usize)
        ensures
            result == self.spec_max_contents_index(),
    {
        self.contents.len().saturating_sub(1)
    }
}

} // verus!
