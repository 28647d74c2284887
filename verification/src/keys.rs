use vstd::prelude::*;
use crate::BYTES_PER_LINE;
use crate::action::{Action, CursorAction};
use crate::buffer::{Buffer, PartialAction, Popup};
use crate::config::{Config, spec_lookup};
use crate::cursor::{Cursor, clamp_to};
use crate::cursor::actions::{lemma_execute_stays_in_bounds, line_start};
use crate::window_size::WindowSize;
use crate::cursor_moves::{all_executed, cursors_fit, cursors_moved, ends_within, settled};
use crate::edit_action::{all_within, replace_handled};
use crate::keypress::{KeyEvent, Keypress, SHIFT};
use crate::render::Color;
use crate::widget::{Span, plain, with_fg};

verus! {

/// `cursor` after performing `action` `count` times.
pub open spec fn execute_times(cursor: Cursor, action: CursorAction, max: usize, count: nat) -> Cursor
    decreases count,
{
    if count == 0 {
        cursor
    } else {
        execute_times(cursor, action, max, (count - 1) as nat).spec_execute(action, max)
    }
}

/// Each cursor moved as many times as its count says; the cursors past the
/// last count stay where they are.
pub open spec fn all_repeated(
    cursors: Seq<Cursor>,
    action: CursorAction,
    max: usize,
    counts: Seq<usize>,
) -> Seq<Cursor> {
    Seq::new(
        cursors.len(),
        |j: int|
            if j < counts.len() {
                execute_times(cursors[j], action, max, counts[j] as nat)
            } else {
                cursors[j]
            },
    )
}

/// Whether every repeat count could be read.
pub open spec fn all_counts_known(counts: Seq<Option<usize>>) -> bool {
    forall|j: int| 0 <= j < counts.len() ==> (#[trigger] counts[j]) is Some
}

/// The repeat counts, when all of them are known.
pub open spec fn known_counts(counts: Seq<Option<usize>>) -> Seq<usize> {
    counts.map_values(|count: Option<usize>| count->0)
}

/// The message shown when a repeat count does not fit in a number.
pub open spec fn repeat_count_too_large() -> Seq<char> {
    "repeat count is too large"@
}

fn counts_known(counts: &[Option<usize>]) -> (result: bool)
    ensures
        result == all_counts_known(counts@),
{
    let mut k: usize = 0;
    while k < counts.len()
        invariant
            k <= counts@.len(),
            forall|j: int| 0 <= j < k ==> (#[trigger] counts@[j]) is Some,
        decreases counts.len() - k,
    {
        if counts[k].is_none() {
            return false;
        }
        k += 1;
    }
    true
}

/// Moves a cursor `count` times with `action`.
fn execute_repeatedly(cursor: &mut Cursor, action: CursorAction, max: usize, count: usize)
    requires
        ends_within(*old(cursor), max as int),
        max + BYTES_PER_LINE <= usize::MAX,
    ensures
        *final(cursor) == execute_times(*old(cursor), action, max, count as nat),
        ends_within(*final(cursor), max as int),
{
    let mut done: usize = 0;
    while done < count
        invariant
            done <= count,
            max + BYTES_PER_LINE <= usize::MAX,
            *cursor == execute_times(*old(cursor), action, max, done as nat),
            ends_within(*cursor, max as int),
        decreases count - done,
    {
        proof {
            lemma_execute_stays_in_bounds(*cursor, action, max);
        }
        cursor.execute(action, max);
        done += 1;
    }
}

/// The scroll position that shows a head at `head` in a view of
/// `visible` bytes scrolled to `scroll`: unchanged while the head is on
/// screen; the head's line at the top when the head is above; the head's
/// line at the bottom when the head is below.
pub open spec fn clamped_scroll(scroll: int, head: int, visible: int) -> int {
    if head < scroll {
        line_start(head)
    } else if head - scroll >= visible {
        line_start(head) + BYTES_PER_LINE - visible
    } else {
        scroll
    }
}

/// Number of bytes that a window shows.
pub open spec fn visible_bytes(window_size: WindowSize) -> int {
    (window_size.rows - window_size.covered_rows) * BYTES_PER_LINE
}

/// Whether a window has a row for the hex view.
pub open spec fn has_hex_rows(window_size: WindowSize) -> bool {
    &&& window_size.covered_rows < window_size.rows
    &&& (window_size.rows - window_size.covered_rows) * BYTES_PER_LINE <= usize::MAX
}

impl Keypress {
    /// The keypress of a key event: shift is left out, since it already
    /// shows in the character.
    pub open spec fn spec_from_event(event: KeyEvent) -> Keypress {
        Keypress { code: event.code, modifiers: event.modifiers & !SHIFT }
    }
}

impl Buffer {
    /// Whether the buffer can take a key: it has bytes, and its cursors lie
    /// on them.
    pub open spec fn key_ready(&self) -> bool {
        &&& self.contents@.len() > 0
        &&& cursors_fit(self)
    }

    /// Whether the buffer can take a key.
    pub fn is_key_ready(&self) -> (result: bool)
        ensures
            result == self.key_ready(),
    {
        if self.contents.len() == 0 {
            return false;
        }
        let max = self.max_contents_index();
        if max > usize::MAX - BYTES_PER_LINE {
            return false;
        }
        if self.primary_cursor.head > max || self.primary_cursor.tail > max {
            return false;
        }
        let mut i: usize = 0;
        while i < self.cursors.len()
            invariant
                i <= self.cursors@.len(),
                max == self.spec_max_contents_index(),
                forall|j: int| 0 <= j < i ==> ends_within(#[trigger] self.cursors@[j], max as int),
            decreases self.cursors.len() - i,
        {
            if self.cursors[i].head > max || self.cursors[i].tail > max {
                return false;
            }
            i += 1;
        }
        true
    }

    /// Whether the view starts at a line and shows the head of the primary
    /// cursor.
    pub open spec fn shows_primary(&self, window_size: WindowSize) -> bool {
        &&& has_hex_rows(window_size)
        &&& self.scroll_position % BYTES_PER_LINE == 0
        &&& self.scroll_position <= self.primary_cursor.head
        &&& self.primary_cursor.head - self.scroll_position < visible_bytes(window_size)
    }

    /// Whether the view starts at a line and shows the head of the primary
    /// cursor.
    pub fn is_showing_primary(&self, window_size: WindowSize) -> (result: bool)
        ensures
            result == self.shows_primary(window_size),
    {
        if window_size.covered_rows >= window_size.rows {
            return false;
        }
        let rows = window_size.rows - window_size.covered_rows;
        if rows > usize::MAX / BYTES_PER_LINE {
            return false;
        }
        let visible = rows * BYTES_PER_LINE;
        self.scroll_position % BYTES_PER_LINE == 0 && self.scroll_position <= self.primary_cursor.head
            && self.primary_cursor.head - self.scroll_position < visible
    }

    /// Whether the view can move within the file in a window of
    /// `window_size`.
    pub fn can_scroll_in(&self, window_size: WindowSize) -> (result: bool)
        ensures
            result == self.scrolls_in(window_size),
    {
        if window_size.covered_rows >= window_size.rows {
            return false;
        }
        let rows = window_size.rows - window_size.covered_rows;
        if rows > usize::MAX / BYTES_PER_LINE {
            return false;
        }
        let visible = rows * BYTES_PER_LINE;
        let max = self.max_contents_index();
        self.scroll_position <= max - max % BYTES_PER_LINE && self.contents.len() <= usize::MAX - visible
    }

    /// Whether a repeat of the key would repeat a cursor action, or nothing.
    pub fn repeats_cursor_action(&self, config: &Config, event: KeyEvent) -> (result: bool)
        ensures
            result == match self.bound_action(config, Some(PartialAction::Repeat), event) {
                Some(action) => action is Cursor,
                None => true,
            },
    {
        match config.lookup(self.mode, Some(PartialAction::Repeat), Keypress::from_event(event)) {
            Some(Action::Cursor(_)) => true,
            Some(_) => false,
            None => true,
        }
    }

    /// Scrolls the view, line by line, just as far as it takes to show the
    /// head of the primary cursor.
    pub fn clamp_screen_to_primary_cursor(&mut self, window_size: WindowSize)
        requires
            has_hex_rows(window_size),
            old(self).scroll_position % BYTES_PER_LINE == 0,
        ensures
            final(self).scroll_position == clamped_scroll(
                old(self).scroll_position as int,
                old(self).primary_cursor.head as int,
                visible_bytes(window_size),
            ),
            final(self).shows_primary(window_size),
            *final(self) == (Buffer { scroll_position: final(self).scroll_position, ..*old(self) }),
    {
        let visible = window_size.visible_byte_count();
        let head = self.primary_cursor.head;
        let line = head - head % BYTES_PER_LINE;
        assert(visible % 16 == 0 && visible >= 16) by (nonlinear_arith)
            requires
                visible == (window_size.rows - window_size.covered_rows) * 16,
                window_size.rows - window_size.covered_rows >= 1,
        ;
        if head < self.scroll_position {
            self.scroll_position = line;
        } else if head - self.scroll_position >= visible {
            assert(line >= visible) by (nonlinear_arith)
                requires
                    line == head - head % 16,
                    head >= visible,
                    visible % 16 == 0,
            ;
            self.scroll_position = line - visible + BYTES_PER_LINE;
        }
    }

    /// The action bound to a key event in the buffer's mode, under the
    /// partial action `partial_action`.
    pub open spec fn bound_action(
        &self,
        config: &Config,
        partial_action: Option<PartialAction>,
        event: KeyEvent,
    ) -> Option<Action> {
        spec_lookup(config.bindings@, self.mode, partial_action, Keypress::spec_from_event(event))
    }

    /// Whether `after` holds the cursors of `before`, each moved by `action`
    /// as often as its count says, then sorted and merged.
    pub open spec fn cursors_repeated(
        before: &Buffer,
        after: &Buffer,
        action: CursorAction,
        primary_count: usize,
        counts: Seq<usize>,
    ) -> bool {
        let max = before.spec_max_contents_index();
        settled(
            execute_times(before.primary_cursor, action, max, primary_count as nat),
            all_repeated(before.cursors@, action, max, counts),
            after,
        )
    }

    /// What a key does in the states other than a pending replacement or
    /// repeat: a cursor action moves the cursors and nothing is returned;
    /// an app or buffer action is returned and the cursors stay. The pending
    /// partial action, if any, is dropped.
    pub open spec fn other_modes_handled(
        before: &Buffer,
        after: &Buffer,
        config: &Config,
        event: KeyEvent,
        result: Option<Action>,
    ) -> bool {
        &&& match before.bound_action(config, before.partial_action, event) {
            Some(Action::Cursor(action)) => {
                &&& result == None::<Action>
                &&& cursors_moved(before, after, action)
            },
            other => {
                &&& result == other
                &&& after.primary_cursor == before.primary_cursor
                &&& after.cursors == before.cursors
            },
        }
        &&& after.partial_action == None::<PartialAction>
        &&& after.contents == before.contents
        &&& after.partial_replace == before.partial_replace
        &&& after.mode == before.mode
        &&& after.marks == before.marks
        &&& after.edit_history == before.edit_history
    }

    /// Whether a repeat is refused because a count could not be read.
    pub open spec fn repeat_refused(
        before: &Buffer,
        config: &Config,
        event: KeyEvent,
        primary_repeat_count: Option<usize>,
        other_repeat_counts: Seq<Option<usize>>,
    ) -> bool {
        &&& before.bound_action(config, Some(PartialAction::Repeat), event) is Some
        &&& !(primary_repeat_count is Some && all_counts_known(other_repeat_counts))
    }

    /// What a key does while a repeat waits: the repeat ends, and the cursor
    /// action bound to the key moves each cursor as often as its count
    /// says, unless a count could not be read.
    pub open spec fn repeat_handled(
        before: &Buffer,
        after: &Buffer,
        config: &Config,
        event: KeyEvent,
        primary_repeat_count: Option<usize>,
        other_repeat_counts: Seq<Option<usize>>,
    ) -> bool {
        &&& match before.bound_action(config, Some(PartialAction::Repeat), event) {
            Some(Action::Cursor(action)) => if primary_repeat_count is Some && all_counts_known(
                other_repeat_counts,
            ) {
                Buffer::cursors_repeated(
                    before,
                    after,
                    action,
                    primary_repeat_count->0,
                    known_counts(other_repeat_counts),
                )
            } else {
                &&& after.primary_cursor == before.primary_cursor
                &&& after.cursors == before.cursors
            },
            _ => {
                &&& after.primary_cursor == before.primary_cursor
                &&& after.cursors == before.cursors
            },
        }
        &&& after.partial_action == None::<PartialAction>
        &&& after.contents == before.contents
        &&& after.partial_replace == before.partial_replace
        &&& after.mode == before.mode
        &&& after.marks == before.marks
        &&& after.edit_history == before.edit_history
    }

    /// Handles the states other than a pending replacement or repeat: a
    /// cursor action moves the cursors and the view scrolls to show the
    /// primary one; an app action or a buffer action is handed back to the
    /// caller. A pending partial action is dropped afterwards.
    pub fn handle_other_modes(
        &mut self,
        event: KeyEvent,
        config: &Config,
        window_size: WindowSize,
    ) -> (result: Option<Action>)
        requires
            old(self).key_ready(),
            old(self).shows_primary(window_size),
        ensures
            final(self).shows_primary(window_size),
            final(self).scroll_position == clamped_scroll(
                old(self).scroll_position as int,
                final(self).primary_cursor.head as int,
                visible_bytes(window_size),
            ),
            final(self).key_ready(),
            Buffer::other_modes_handled(old(self), final(self), config, event, result),
            final(self).alert_message == old(self).alert_message,
            final(self).popups == old(self).popups,
            final(self).inspecting_selection == old(self).inspecting_selection,
            final(self).file_name == old(self).file_name,
            final(self).logs == old(self).logs,
            final(self).time_traveling == old(self).time_traveling,
            final(self).last_saved_at == old(self).last_saved_at,
    {
        let mut result = None;
        let should_reset_partial = self.partial_action.is_some();
        let keypress = Keypress::from_event(event);
        match config.lookup(self.mode, self.partial_action, keypress) {
            Some(Action::Cursor(cursor_action)) => {
                self.execute_cursor_action(cursor_action);
                self.clamp_screen_to_primary_cursor(window_size);
            },
            Some(action) => {
                result = Some(action);
            },
            None => {},
        }
        if should_reset_partial {
            self.partial_action = None;
        }
        result
    }

    /// Handles a key while a repeat waits for its action: the cursor action
    /// bound to the key is performed on each cursor as many times as its
    /// count says, and the view scrolls to show the primary one. When a
    /// count could not be read, nothing moves and the alert says so.
    pub fn handle_repeat(
        &mut self,
        event: KeyEvent,
        config: &Config,
        primary_repeat_count: Option<usize>,
        other_repeat_counts: &[Option<usize>],
        window_size: WindowSize,
    )
        requires
            old(self).key_ready(),
            old(self).shows_primary(window_size),
            match old(self).bound_action(config, Some(PartialAction::Repeat), event) {
                Some(action) => action is Cursor,
                None => true,
            },
        ensures
            final(self).shows_primary(window_size),
            final(self).scroll_position == clamped_scroll(
                old(self).scroll_position as int,
                final(self).primary_cursor.head as int,
                visible_bytes(window_size),
            ),
            final(self).key_ready(),
            Buffer::repeat_handled(
                old(self),
                final(self),
                config,
                event,
                primary_repeat_count,
                other_repeat_counts@,
            ),
            if Buffer::repeat_refused(old(self), config, event, primary_repeat_count, other_repeat_counts@) {
                final(self).alert_message@ == with_fg(plain(repeat_count_too_large()), Color::Red)
            } else {
                final(self).alert_message == old(self).alert_message
            },
            final(self).popups == old(self).popups,
            final(self).inspecting_selection == old(self).inspecting_selection,
            final(self).file_name == old(self).file_name,
            final(self).logs == old(self).logs,
            final(self).time_traveling == old(self).time_traveling,
            final(self).last_saved_at == old(self).last_saved_at,
    {
        self.partial_action = None;
        let keypress = Keypress::from_event(event);
        match config.lookup(self.mode, Some(PartialAction::Repeat), keypress) {
            Some(Action::Cursor(cursor_action)) => {
                let primary_repeat_count = match primary_repeat_count {
                    Some(count) => count,
                    None => {
                        self.alert_message = Span::from_str("repeat count is too large").fg(
                            Color::Red,
                        );
                        return ;
                    },
                };
                if !counts_known(other_repeat_counts) {
                    self.alert_message = Span::from_str("repeat count is too large").fg(Color::Red);
                    return ;
                }
                let max_contents_index = self.max_contents_index();
                let ghost max = max_contents_index as int;
                let ghost counts = known_counts(other_repeat_counts@);
                let ghost moved = all_repeated(
                    old(self).cursors@,
                    cursor_action,
                    max_contents_index,
                    counts,
                );
                execute_repeatedly(
                    &mut self.primary_cursor,
                    cursor_action,
                    max_contents_index,
                    primary_repeat_count,
                );
                let mut i: usize = 0;
                while i < self.cursors.len()
                    invariant
                        max_contents_index == old(self).spec_max_contents_index(),
                        max == max_contents_index as int,
                        max + BYTES_PER_LINE <= usize::MAX,
                        i <= self.cursors@.len(),
                        self.cursors@.len() == old(self).cursors@.len(),
                        counts == known_counts(other_repeat_counts@),
                        forall|j: int| 0 <= j < other_repeat_counts@.len() ==> (#[trigger] other_repeat_counts@[j]) is Some,
                        moved == all_repeated(old(self).cursors@, cursor_action, max_contents_index, counts),
                        forall|j: int| 0 <= j < old(self).cursors@.len() ==> ends_within(#[trigger] old(self).cursors@[j], max),
                        forall|j: int| 0 <= j < i ==> #[trigger] self.cursors@[j] == moved[j],
                        forall|j: int| i <= j < self.cursors@.len() ==> #[trigger] self.cursors@[j] == old(self).cursors@[j],
                        forall|j: int| 0 <= j < i ==> ends_within(#[trigger] self.cursors@[j], max),
                        self.contents == old(self).contents,
                        ends_within(self.primary_cursor, max),
                        self.primary_cursor == execute_times(old(self).primary_cursor, cursor_action, max_contents_index, primary_repeat_count as nat),
                        self.partial_action == None::<PartialAction>,
                        self.partial_replace == old(self).partial_replace,
                        self.alert_message == old(self).alert_message,
                        self.popups == old(self).popups,
                        self.inspecting_selection == old(self).inspecting_selection,
                        self.mode == old(self).mode,
                        self.scroll_position == old(self).scroll_position,
                        self.marks == old(self).marks,
                        self.edit_history == old(self).edit_history,
                        self.file_name == old(self).file_name,
                        self.logs == old(self).logs,
                        self.time_traveling == old(self).time_traveling,
                        self.last_saved_at == old(self).last_saved_at,
                    decreases self.cursors.len() - i,
                {
                    let mut cursor = self.cursors[i];
                    assert(cursor == old(self).cursors@[i as int]);
                    if i < other_repeat_counts.len() {
                        let count = match other_repeat_counts[i] {
                            Some(count) => count,
                            None => 0,
                        };
                        assert(count == counts[i as int]);
                        execute_repeatedly(&mut cursor, cursor_action, max_contents_index, count);
                    }
                    self.cursors.set(i, cursor);
                    i += 1;
                }
                assert(self.cursors@ =~= moved);
                self.settle_cursors();
                self.clamp_screen_to_primary_cursor(window_size);
            },
            _ => {},
        }
    }
}


impl Buffer {
    /// Handles a key: the alert and the popups are cleared; a pending
    /// replacement takes the key as a digit, a pending repeat takes it as
    /// the action to repeat, and otherwise the key's binding is performed.
    /// Inspecting the selection lasts for one key. The view ends up showing
    /// the primary cursor. The app action or buffer action bound to the key,
    /// if any, is handed back.
    ///
    /// The repeat counts are the registers read as numbers: `None` where a
    /// register does not fit.
    pub fn handle_key(
        &mut self,
        event: KeyEvent,
        config: &Config,
        primary_repeat_count: Option<usize>,
        other_repeat_counts: &[Option<usize>],
        window_size: WindowSize,
    ) -> (result: Option<Action>)
        requires
            old(self).key_ready(),
            old(self).shows_primary(window_size),
            old(self).partial_action == Some(PartialAction::Repeat) ==> match old(self).bound_action(
                config,
                Some(PartialAction::Repeat),
                event,
            ) {
                Some(action) => action is Cursor,
                None => true,
            },
        ensures
            final(self).shows_primary(window_size),
            final(self).scroll_position == clamped_scroll(
                old(self).scroll_position as int,
                final(self).primary_cursor.head as int,
                visible_bytes(window_size),
            ),
            final(self).key_ready(),
            match old(self).partial_action {
                Some(PartialAction::Replace) => {
                    &&& replace_handled(old(self), final(self), event.code.spec_as_char())
                    &&& result == None::<Action>
                },
                Some(PartialAction::Repeat) => {
                    &&& Buffer::repeat_handled(
                        old(self),
                        final(self),
                        config,
                        event,
                        primary_repeat_count,
                        other_repeat_counts@,
                    )
                    &&& result == None::<Action>
                },
                _ => Buffer::other_modes_handled(old(self), final(self), config, event, result),
            },
            final(self).alert_message@ == if old(self).partial_action == Some(PartialAction::Repeat)
                && Buffer::repeat_refused(
                old(self),
                config,
                event,
                primary_repeat_count,
                other_repeat_counts@,
            ) {
                with_fg(plain(repeat_count_too_large()), Color::Red)
            } else {
                plain(""@)
            },
            final(self).popups@ == Seq::<Popup>::empty(),
            !final(self).inspecting_selection,
            final(self).file_name == old(self).file_name,
            final(self).logs == old(self).logs,
    {
        self.alert_message = Span::from_str("");
        self.popups.clear();
        let was_inspecting_selection = self.inspecting_selection;
        let result = match self.partial_action {
            Some(PartialAction::Replace) => {
                proof {
                    assert(all_within(self.primary_cursor, self.cursors@, self.contents@.len() as int));
                }
                self.handle_replace(event.code.as_char());
                None
            },
            Some(PartialAction::Repeat) => {
                self.handle_repeat(
                    event,
                    config,
                    primary_repeat_count,
                    other_repeat_counts,
                    window_size,
                );
                None
            },
            _ => self.handle_other_modes(event, config, window_size),
        };
        if was_inspecting_selection {
            self.inspecting_selection = false;
        }
        result
    }
}

} // verus!

verus! {

/// Repeating a cursor action once, with a count of one for every cursor,
/// moves the cursors exactly as performing the action once does.
pub proof fn lemma_repeat_once_is_once(
    before: &Buffer,
    after: &Buffer,
    action: CursorAction,
    counts: Seq<usize>,
)
    requires
        counts.len() == before.cursors@.len(),
        forall|j: int| 0 <= j < counts.len() ==> counts[j] == 1,
    ensures
        Buffer::cursors_repeated(before, after, action, 1, counts) <==> cursors_moved(
            before,
            after,
            action,
        ),
{
    let max = before.spec_max_contents_index();
    reveal_with_fuel(execute_times, 2);
    assert(execute_times(before.primary_cursor, action, max, 1) == before.primary_cursor.spec_execute(
        action,
        max,
    ));
    assert forall|j: int| 0 <= j < before.cursors@.len() implies #[trigger] all_repeated(
        before.cursors@,
        action,
        max,
        counts,
    )[j] == all_executed(before.cursors@, action, max)[j] by {
        assert(counts[j] == 1);
        assert(execute_times(before.cursors@[j], action, max, 1) == before.cursors@[j].spec_execute(
            action,
            max,
        ));
    }
    assert(all_repeated(before.cursors@, action, max, counts) =~= all_executed(
        before.cursors@,
        action,
        max,
    ));
}

} // verus!

verus! {

impl Buffer {
    /// The buffer with the view at `scroll` and the primary cursor's ends
    /// moved into the `visible` bytes from there.
    pub open spec fn scrolled_to(&self, scroll: int, visible: int) -> Buffer {
        let low = scroll as usize;
        let high = (scroll + visible - 1) as usize;
        Buffer {
            scroll_position: low,
            primary_cursor: Cursor {
                head: clamp_to(self.primary_cursor.head, low, high),
                tail: clamp_to(self.primary_cursor.tail, low, high),
            },
            ..*self
        }
    }

    /// The buffer scrolled one line down, while the last line of the file
    /// lies below the top of the view.
    pub open spec fn spec_scroll_down(&self, visible: int) -> Buffer {
        let last_line = line_start(self.spec_max_contents_index() as int);
        let scroll = if self.scroll_position + BYTES_PER_LINE <= last_line {
            self.scroll_position + BYTES_PER_LINE
        } else {
            self.scroll_position as int
        };
        self.scrolled_to(scroll, visible)
    }

    /// The buffer scrolled one line up, unless the view is at the top.
    pub open spec fn spec_scroll_up(&self, visible: int) -> Buffer {
        let scroll = if self.scroll_position >= BYTES_PER_LINE {
            self.scroll_position - BYTES_PER_LINE
        } else {
            self.scroll_position as int
        };
        self.scrolled_to(scroll, visible)
    }

    /// Whether the view can move within the file in a window of
    /// `window_size`.
    pub open spec fn scrolls_in(&self, window_size: WindowSize) -> bool {
        &&& has_hex_rows(window_size)
        &&& self.scroll_position <= line_start(self.spec_max_contents_index() as int)
        &&& self.contents@.len() + visible_bytes(window_size) <= usize::MAX
    }

    /// Moves the view one line down, and the primary cursor with it where
    /// it would leave the view.
    pub fn scroll_down(&mut self, window_size: WindowSize)
        requires
            old(self).scrolls_in(window_size),
        ensures
            *final(self) == old(self).spec_scroll_down(visible_bytes(window_size)),
            final(self).scrolls_in(window_size),
            old(self).scroll_position % BYTES_PER_LINE == 0 ==> final(self).shows_primary(window_size),
            old(self).key_ready() ==> final(self).key_ready(),
    {
        let visible = window_size.visible_byte_count();
        let max = self.max_contents_index();
        let last_line = max - max % BYTES_PER_LINE;
        if self.scroll_position <= last_line && last_line - self.scroll_position >= BYTES_PER_LINE {
            self.scroll_position = self.scroll_position + BYTES_PER_LINE;
        }
        let scroll = self.scroll_position;
        self.primary_cursor.clamp(scroll, visible);
    }

    /// Moves the view one line up, and the primary cursor with it where it
    /// would leave the view.
    pub fn scroll_up(&mut self, window_size: WindowSize)
        requires
            old(self).scrolls_in(window_size),
        ensures
            *final(self) == old(self).spec_scroll_up(visible_bytes(window_size)),
            final(self).scrolls_in(window_size),
            old(self).scroll_position % BYTES_PER_LINE == 0 ==> final(self).shows_primary(window_size),
            old(self).key_ready() ==> final(self).key_ready(),
    {
        let visible = window_size.visible_byte_count();
        if self.scroll_position >= BYTES_PER_LINE {
            self.scroll_position = self.scroll_position - BYTES_PER_LINE;
        }
        let scroll = self.scroll_position;
        self.primary_cursor.clamp(scroll, visible);
    }
}

} // verus!
