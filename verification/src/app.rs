use vstd::prelude::*;
use crate::BYTES_PER_LINE;
use crate::action::{Action, AppAction, BufferAction};
use crate::buffer::{PartialAction, Popup};
use crate::edit_action::replace_handled;
use crate::keypress::{CONTROL, KeyCode, KeyEvent};
use crate::keys::{clamped_scroll, has_hex_rows, repeat_count_too_large, visible_bytes};
use crate::buffer::{Buffer, same_apart_from_edits};
use crate::config::Config;
use crate::cursor::Cursor;
use crate::edit_action::{all_within, copy_selection, copy_selections, selected, selections, views};
use crate::render::byte_column_at_screen_column;
use crate::render::spec_screen_column;
use crate::window_size::WindowSize;
use crate::render::Color;
use crate::widget::{Span, plain, with_fg};

verus! {

/// The editor: the open buffers, which one is shown, and what was yanked.
pub struct App {
    pub config: Config,
    pub buffers: Vec<Buffer>,
    pub current_buffer_index: usize,
    pub primary_cursor_register: Vec<u8>,
    pub other_cursor_registers: Vec<Vec<u8>>,
    pub window_size: WindowSize,
    pub should_quit: bool,
    pub logs: Vec<String>,
}

/// A file as it was read: its name, and its bytes or the message of the
/// error that reading it gave.
pub struct LoadedFile {
    pub name: String,
    pub contents: Result<Vec<u8>, String>,
}

/// The message shown when quitting is refused.
pub open spec fn unsaved_changes_message() -> Seq<char> {
    "there are unsaved changes, use Q to override"@
}

/// The buffer before `index` among `count`, wrapping around.
pub open spec fn previous_index(index: int, count: int) -> int {
    if index == 0 { count - 1 } else { index - 1 }
}

/// The buffer after `index` among `count`, wrapping around.
pub open spec fn next_index(index: int, count: int) -> int {
    if index == count - 1 { 0 } else { index + 1 }
}

/// Going to the next buffer and then to the previous one, or the other way
/// round, comes back to the same buffer.
pub proof fn lemma_buffer_switching_cancels(index: int, count: int)
    requires
        0 <= index < count,
    ensures
        previous_index(next_index(index, count), count) == index,
        next_index(previous_index(index, count), count) == index,
        0 <= next_index(index, count) < count,
        0 <= previous_index(index, count) < count,
{
}

impl App {
    /// Whether there is a current buffer and the window has rows for it.
    pub open spec fn wf(&self) -> bool {
        &&& self.buffers.len() > 0
        &&& self.current_buffer_index < self.buffers.len()
        &&& self.window_size.covered_rows <= self.window_size.rows
    }

    /// Rows that the status line, and with several buffers the tab bar,
    /// take.
    pub open spec fn covered_rows_for(buffer_count: nat) -> usize {
        if buffer_count > 1 { 2 } else { 1 }
    }

    /// The buffers of the files that could be read, in order.
    pub open spec fn opened(files: Seq<LoadedFile>) -> Seq<(Seq<char>, Seq<u8>)>
        decreases files.len(),
    {
        if files.len() == 0 {
            seq![]
        } else {
            let rest = Self::opened(files.drop_last());
            match files.last().contents {
                Ok(bytes) => rest.push((files.last().name@, bytes@)),
                Err(_) => rest,
            }
        }
    }

    /// The message of the last file that could not be read, if any.
    pub open spec fn last_error(files: Seq<LoadedFile>) -> Option<Seq<char>>
        decreases files.len(),
    {
        if files.len() == 0 {
            None
        } else {
            match files.last().contents {
                Err(message) => Some(message@),
                Ok(_) => Self::last_error(files.drop_last()),
            }
        }
    }

    /// An editor for the files that could be read, in a terminal of
    /// `terminal_rows` rows. When a file could not be read, the message of
    /// the last such file is shown in red in the first buffer; when no file
    /// could be read, that message is the error.
    pub fn new(config: Config, files: Vec<LoadedFile>, terminal_rows: usize) -> (result: Result<Self, String>)
        requires
            files@.len() > 0,
        ensures
            match result {
                Ok(app) => {
                    let opened = Self::opened(files@);
                    &&& opened.len() > 0
                    &&& app.config == config
                    &&& app.buffers@.len() == opened.len()
                    &&& forall|i: int| 0 <= i < opened.len() ==> {
                        let buffer = #[trigger] app.buffers@[i];
                        &&& buffer.file_name@ == opened[i].0
                        &&& buffer.contents@ == opened[i].1
                        &&& buffer.scroll_position == 0
                        &&& buffer.primary_cursor == Cursor::spec_at(0)
                        &&& buffer.cursors@.len() == 0
                        &&& buffer.edit_history@.len() == 0
                        &&& buffer.last_saved_at == Some(0usize)
                        &&& buffer.time_traveling == None::<usize>
                        &&& buffer.alert_message@ == if i == 0 && Self::last_error(files@) is Some {
                            with_fg(plain(Self::last_error(files@)->0), Color::Red)
                        } else {
                            plain(Seq::<char>::empty())
                        }
                    }
                    &&& app.current_buffer_index == 0
                    &&& app.primary_cursor_register@ == Seq::<u8>::empty()
                    &&& app.other_cursor_registers@ == Seq::<Vec<u8>>::empty()
                    &&& app.window_size == (WindowSize {
                        rows: terminal_rows,
                        covered_rows: Self::covered_rows_for(opened.len()),
                    })
                    &&& !app.should_quit
                    &&& app.logs@ == Seq::<String>::empty()
                },
                Err(message) => {
                    &&& Self::opened(files@).len() == 0
                    &&& Self::last_error(files@) == Some(message@)
                },
            },
    {
        let mut buffers: Vec<Buffer> = Vec::new();
        let mut error_alert: Option<String> = None;
        let mut files = files;
        let ghost all = files@;
        let mut i: usize = 0;
        let count = files.len();
        assert(all.skip(0) =~= all);
        while i < count
            invariant
                count == all.len(),
                i <= count,
                files@ == all.skip(i as int),
                buffers@.len() == Self::opened(all.take(i as int)).len(),
                forall|j: int| 0 <= j < buffers@.len() ==> {
                    let buffer = #[trigger] buffers@[j];
                    &&& buffer.file_name@ == Self::opened(all.take(i as int))[j].0
                    &&& buffer.contents@ == Self::opened(all.take(i as int))[j].1
                    &&& buffer.scroll_position == 0
                    &&& buffer.primary_cursor == Cursor::spec_at(0)
                    &&& buffer.cursors@.len() == 0
                    &&& buffer.edit_history@.len() == 0
                    &&& buffer.last_saved_at == Some(0usize)
                    &&& buffer.time_traveling == None::<usize>
                    &&& buffer.alert_message@ == plain(Seq::<char>::empty())
                },
                match error_alert {
                    Some(message) => Self::last_error(all.take(i as int)) == Some(message@),
                    None => Self::last_error(all.take(i as int)) is None,
                },
            decreases count - i,
        {
            let file = files.remove(0);
            assert(file == all[i as int]);
            assert(all.take(i + 1).drop_last() =~= all.take(i as int));
            assert(all.take(i + 1).last() == file);
            assert(files@ =~= all.skip(i + 1));
            match file.contents {
                Ok(contents) => {
                    let buffer = Buffer::new(file.name, contents);
                    buffers.push(buffer);
                },
                Err(message) => {
                    error_alert = Some(message);
                },
            }
            i += 1;
        }
        assert(all.take(count as int) =~= all);
        match error_alert {
            Some(message) => {
                if buffers.len() == 0 {
                    return Err(message);
                }
                let mut first = buffers.remove(0);
                first.alert_message = Span::raw(message).fg(Color::Red);
                buffers.insert(0, first);
            },
            None => {},
        }
        let covered_rows = if buffers.len() > 1 { 2 } else { 1 };
        Ok(App {
            config,
            buffers,
            current_buffer_index: 0,
            primary_cursor_register: Vec::new(),
            other_cursor_registers: Vec::new(),
            window_size: WindowSize { rows: terminal_rows, covered_rows },
            should_quit: false,
            logs: Vec::new(),
        })
    }

    /// Whether no buffer has unsaved changes.
    pub open spec fn spec_all_saved(&self) -> bool {
        forall|i: int| 0 <= i < self.buffers@.len() ==> #[trigger] self.buffers@[i].spec_all_changes_saved()
    }

    /// Quits when every buffer is saved; otherwise tells so in the current
    /// buffer.
    pub fn quit_if_saved(&mut self)
        requires
            old(self).wf(),
        ensures
            final(self).config == old(self).config,
            final(self).wf(),
            old(self).spec_all_saved() ==> final(self).should_quit && final(self).buffers@ == old(
                self,
            ).buffers@,
            !old(self).spec_all_saved() ==> {
                &&& final(self).should_quit == old(self).should_quit
                &&& final(self).buffers@.len() == old(self).buffers@.len()
                &&& forall|i: int|
                    0 <= i < old(self).buffers@.len() && i != old(self).current_buffer_index
                        ==> #[trigger] final(self).buffers@[i] == old(self).buffers@[i]
                &&& final(self).buffers@[old(self).current_buffer_index as int].alert_message@
                    == with_fg(plain(unsaved_changes_message()), Color::Red)
                &&& final(self).buffers@[old(self).current_buffer_index as int].contents == old(
                    self,
                ).buffers@[old(self).current_buffer_index as int].contents
            },
            final(self).current_buffer_index == old(self).current_buffer_index,
    {
        let mut all_saved = true;
        let mut i: usize = 0;
        while i < self.buffers.len()
            invariant
                i <= self.buffers@.len(),
                all_saved == forall|j: int| 0 <= j < i ==> #[trigger] self.buffers@[j].spec_all_changes_saved(),
            decreases self.buffers.len() - i,
        {
            if !self.buffers[i].all_changes_saved() {
                all_saved = false;
            }
            i += 1;
        }
        if all_saved {
            self.quit();
        } else {
            let index = self.current_buffer_index;
            let mut buffer = self.buffers.remove(index);
            buffer.alert_message = Span::from_str("there are unsaved changes, use Q to override").fg(
                Color::Red,
            );
            self.buffers.insert(index, buffer);
        }
    }

    pub fn quit(&mut self)
        ensures
            final(self).config == old(self).config,
            final(self).should_quit,
            final(self).buffers == old(self).buffers,
            final(self).current_buffer_index == old(self).current_buffer_index,
            final(self).window_size == old(self).window_size,
    {
        self.should_quit = true;
    }

    /// Shows the previous buffer, wrapping around to the last one.
    pub fn previous_buffer(&mut self)
        requires
            old(self).wf(),
        ensures
            final(self).config == old(self).config,
            final(self).wf(),
            final(self).current_buffer_index == previous_index(old(self).current_buffer_index as int, old(self).buffers@.len() as int),
            final(self).buffers == old(self).buffers,
    {
        if self.current_buffer_index == 0 {
            self.current_buffer_index = self.buffers.len() - 1;
        } else {
            self.current_buffer_index -= 1;
        }
    }

    /// Shows the next buffer, wrapping around to the first one.
    pub fn next_buffer(&mut self)
        requires
            old(self).wf(),
        ensures
            final(self).config == old(self).config,
            final(self).wf(),
            final(self).current_buffer_index == next_index(old(self).current_buffer_index as int, old(self).buffers@.len() as int),
            final(self).buffers == old(self).buffers,
    {
        if self.current_buffer_index == self.buffers.len() - 1 {
            self.current_buffer_index = 0;
        } else {
            self.current_buffer_index += 1;
        }
    }

    /// Copies what each cursor of the current buffer selects into the
    /// registers.
    pub fn yank(&mut self)
        requires
            old(self).wf(),
            all_within(
                old(self).buffers@[old(self).current_buffer_index as int].primary_cursor,
                old(self).buffers@[old(self).current_buffer_index as int].cursors@,
                old(self).buffers@[old(self).current_buffer_index as int].contents@.len() as int,
            ),
        ensures
            final(self).config == old(self).config,
            ({
                let buffer = old(self).buffers@[old(self).current_buffer_index as int];
                &&& final(self).primary_cursor_register@ == selected(buffer.contents@, buffer.primary_cursor)
                &&& views(final(self).other_cursor_registers@) == selections(buffer.contents@, buffer.cursors@)
            }),
            final(self).buffers == old(self).buffers,
            final(self).current_buffer_index == old(self).current_buffer_index,
            final(self).wf(),
    {
        let buffer = &self.buffers[self.current_buffer_index];
        let primary = copy_selection(&buffer.contents, buffer.primary_cursor);
        let others = copy_selections(&buffer.contents, buffer.cursors.as_slice());
        self.primary_cursor_register = primary;
        self.other_cursor_registers = others;
    }

    /// Performs an action that acts on the editor as a whole.
    pub fn execute_app_action(&mut self, app_action: AppAction)
        requires
            old(self).wf(),
            app_action == AppAction::Yank ==> all_within(
                old(self).buffers@[old(self).current_buffer_index as int].primary_cursor,
                old(self).buffers@[old(self).current_buffer_index as int].cursors@,
                old(self).buffers@[old(self).current_buffer_index as int].contents@.len() as int,
            ),
        ensures
            final(self).wf(),
            Self::app_action_done(
                old(self).buffers@,
                old(self).current_buffer_index as int,
                old(self),
                final(self),
                app_action,
            ),
            final(self).config == old(self).config,
    {
        match app_action {
            AppAction::QuitIfSaved => self.quit_if_saved(),
            AppAction::Quit => self.quit(),
            AppAction::PreviousBuffer => self.previous_buffer(),
            AppAction::NextBuffer => self.next_buffer(),
            AppAction::Yank => self.yank(),
        }
    }

    /// Rows above the hex view: the tab bar, shown with several buffers.
    pub open spec fn tab_bar_rows(&self) -> int {
        if self.buffers@.len() > 1 { 1 } else { 0 }
    }

    /// A mouse click at a screen position: on a digit of a byte of the hex
    /// view, it puts a single collapsed cursor on that byte.
    pub fn click_at(&mut self, column: u16, row: u16)
        requires
            old(self).wf(),
            old(self).click_allowed(column, row),
        ensures
            final(self).wf(),
            Self::clicked(old(self), final(self), column, row),
    {
        let tab_bar_rows: usize = if self.buffers.len() > 1 { 1 } else { 0 };
        let byte_column = byte_column_at_screen_column(column);
        match byte_column {
            Some(byte_column) => {
                proof {
                    crate::render::lemma_screen_columns_roundtrip(byte_column as int);
                }
                let hex_row = row as usize - tab_bar_rows;
                if hex_row < self.window_size.hex_rows() {
                    let index = self.current_buffer_index;
                    let mut buffer = self.buffers.remove(index);
                    buffer.primary_cursor = Cursor::at(
                        buffer.scroll_position + hex_row * BYTES_PER_LINE + byte_column,
                    );
                    buffer.cursors.clear();
                    self.buffers.insert(index, buffer);
                }
            },
            None => {},
        }
    }

    /// Handles a mouse event: a click on the hex view moves the cursor
    /// there; the wheel scrolls the current buffer three lines; other
    /// events change nothing.
    pub fn handle_mouse(&mut self, event: MouseEvent)
        requires
            old(self).wf(),
            old(self).mouse_allowed(event),
        ensures
            final(self).wf(),
            Self::mouse_handled(old(self), final(self), event),
    {
        match event.kind {
            MouseEventKind::Down => self.click_at(event.column, event.row),
            MouseEventKind::ScrollDown => {
                let index = self.current_buffer_index;
                let mut buffer = self.buffers.remove(index);
                let ghost first = buffer;
                buffer.scroll_down(self.window_size);
                buffer.scroll_down(self.window_size);
                buffer.scroll_down(self.window_size);
                let ghost visible = visible_bytes(self.window_size);
                assert(buffer == first.spec_scroll_down(visible).spec_scroll_down(visible).spec_scroll_down(visible));
                self.buffers.insert(index, buffer);
                assert(self.buffers@ =~= old(self).buffers@.update(index as int, buffer));
            },
            MouseEventKind::ScrollUp => {
                let index = self.current_buffer_index;
                let mut buffer = self.buffers.remove(index);
                let ghost first = buffer;
                buffer.scroll_up(self.window_size);
                buffer.scroll_up(self.window_size);
                buffer.scroll_up(self.window_size);
                let ghost visible = visible_bytes(self.window_size);
                assert(buffer == first.spec_scroll_up(visible).spec_scroll_up(visible).spec_scroll_up(visible));
                self.buffers.insert(index, buffer);
                assert(self.buffers@ =~= old(self).buffers@.update(index as int, buffer));
            },
            _ => {},
        }
    }

    /// Whether a mouse event stays within the arithmetic of the functions
    /// that handle it.
    pub open spec fn mouse_allowed(&self, event: MouseEvent) -> bool {
        &&& event.kind == MouseEventKind::Down ==> self.click_allowed(event.column, event.row)
        &&& (event.kind == MouseEventKind::ScrollDown || event.kind == MouseEventKind::ScrollUp)
            ==> self.buffers@[self.current_buffer_index as int].scrolls_in(self.window_size)
    }

    /// What a mouse event does to the editor.
    pub open spec fn mouse_handled(before: &App, after: &App, event: MouseEvent) -> bool {
        let index = before.current_buffer_index as int;
        let buffer = before.buffers@[index];
        let visible = visible_bytes(before.window_size);
        match event.kind {
            MouseEventKind::Down => Self::clicked(before, after, event.column, event.row),
            MouseEventKind::ScrollDown => *after == (App {
                buffers: after.buffers,
                ..*before
            }) && after.buffers@ == before.buffers@.update(
                index,
                buffer.spec_scroll_down(visible).spec_scroll_down(visible).spec_scroll_down(visible),
            ),
            MouseEventKind::ScrollUp => *after == (App {
                buffers: after.buffers,
                ..*before
            }) && after.buffers@ == before.buffers@.update(
                index,
                buffer.spec_scroll_up(visible).spec_scroll_up(visible).spec_scroll_up(visible),
            ),
            _ => *after == *before,
        }
    }

    /// What a click at a screen position does: on a digit of a byte of the
    /// hex view, the current buffer gets a single collapsed cursor on that
    /// byte; anywhere else nothing changes.
    pub open spec fn clicked(before: &App, after: &App, column: u16, row: u16) -> bool {
        let index = before.current_buffer_index as int;
        let hex_row = row - before.tab_bar_rows();
        &&& after.config == before.config
        &&& after.should_quit == before.should_quit
        &&& after.current_buffer_index == before.current_buffer_index
        &&& after.window_size == before.window_size
        &&& after.buffers@.len() == before.buffers@.len()
        &&& forall|i: int|
            0 <= i < before.buffers@.len() && i != index ==> #[trigger] after.buffers@[i]
                == before.buffers@[i]
        &&& if on_hex_digit(column as int) && hex_row < before.window_size.rows
            - before.window_size.covered_rows {
            let old_buffer = before.buffers@[index];
            let new_buffer = after.buffers@[index];
            &&& new_buffer.primary_cursor == Cursor::spec_at(
                old_buffer.scroll_position + hex_row * BYTES_PER_LINE + byte_column_of(
                    column as int,
                ),
            )
            &&& new_buffer.cursors@ == Seq::<Cursor>::empty()
            &&& new_buffer.contents == old_buffer.contents
            &&& same_apart_from_edits(&new_buffer, &old_buffer)
        } else {
            after.buffers@ == before.buffers@
        }
    }

    /// Whether a click at a screen position stays within the arithmetic of
    /// `click_at`.
    pub open spec fn click_allowed(&self, column: u16, row: u16) -> bool {
        &&& on_hex_digit(column as int) ==> row >= self.tab_bar_rows()
        &&& on_hex_digit(column as int) && row - self.tab_bar_rows() < self.window_size.rows
            - self.window_size.covered_rows ==> self.buffers@[self.current_buffer_index as int].scroll_position
            + (row - self.tab_bar_rows()) * BYTES_PER_LINE + BYTES_PER_LINE <= usize::MAX
    }
}

/// Whether a screen column lies on a digit of a byte of the hex view.
pub open spec fn on_hex_digit(column: int) -> bool {
    exists|byte_column: int|
        0 <= byte_column < BYTES_PER_LINE && (column == spec_screen_column(byte_column) || column
            == spec_screen_column(byte_column) + 1)
}

/// The byte column whose digits lie under a screen column.
pub open spec fn byte_column_of(column: int) -> int {
    choose|byte_column: int|
        0 <= byte_column < BYTES_PER_LINE && (column == spec_screen_column(byte_column) || column
            == spec_screen_column(byte_column) + 1)
}

/// What a mouse event reports.
#[derive(Clone, Copy, Debug, PartialEq, Eq, Structural)]
pub enum MouseEventKind {
    Down,
    Up,
    Drag,
    Moved,
    ScrollDown,
    ScrollUp,
    ScrollLeft,
    ScrollRight,
}

/// A mouse event at a screen cell.
#[derive(Clone, Copy, Debug, PartialEq, Eq, Structural)]
pub struct MouseEvent {
    pub kind: MouseEventKind,
    pub column: u16,
    pub row: u16,
}

/// An event of the terminal.
#[derive(Clone, Copy, Debug, PartialEq, Eq, Structural)]
pub enum Event {
    Resize(u16, u16),
    Key(KeyEvent),
    Mouse(MouseEvent),
    Other,
}

/// What the editor asks of its caller after an event.
#[derive(Clone, Copy, Debug, PartialEq, Eq, Structural)]
pub enum Response {
    /// Nothing more.
    Continue,
    /// Control-c: leave the terminal and exit with status 130.
    Interrupt,
    /// A buffer action bound to the key, which this library does not
    /// perform.
    Pending(BufferAction),
}

impl App {
    /// Whether the current buffer can take a key and its view shows the
    /// primary cursor, and a pending repeat would repeat a cursor action.
    pub open spec fn key_accepted(&self, event: KeyEvent) -> bool {
        let buffer = self.buffers@[self.current_buffer_index as int];
        &&& buffer.key_ready()
        &&& buffer.shows_primary(self.window_size)
        &&& buffer.partial_action == Some(PartialAction::Repeat) ==> match buffer.bound_action(
            &self.config,
            Some(PartialAction::Repeat),
            event,
        ) {
            Some(action) => action is Cursor,
            None => true,
        }
    }

    /// Whether a key event is control-c.
    pub open spec fn is_interrupt(event: KeyEvent) -> bool {
        event.modifiers == CONTROL && event.code == KeyCode::Char('c')
    }

    /// Handles a key: control-c asks to exit at once; any other key goes to
    /// the current buffer, and the app action bound to it is performed.
    pub fn handle_key(
        &mut self,
        event: KeyEvent,
        primary_repeat_count: Option<usize>,
        other_repeat_counts: &[Option<usize>],
    ) -> (result: Response)
        requires
            old(self).wf(),
            old(self).key_accepted(event),
        ensures
            final(self).wf(),
            Self::is_interrupt(event) ==> result == Response::Interrupt && *final(self) == *old(self),
            !Self::is_interrupt(event) ==> Self::key_response(
                old(self),
                final(self),
                event,
                primary_repeat_count,
                other_repeat_counts@,
                result,
            ),
            final(self).config == old(self).config,
    {
        if event.modifiers == CONTROL && event.code == KeyCode::Char('c') {
            return Response::Interrupt;
        }
        let index = self.current_buffer_index;
        let mut buffer = self.buffers.remove(index);
        let ghost before = buffer;
        let action = buffer.handle_key(
            event,
            &self.config,
            primary_repeat_count,
            other_repeat_counts,
            self.window_size,
        );
        let ghost handled = buffer;
        self.buffers.insert(index, buffer);
        assert(self.buffers@ =~= old(self).buffers@.update(index as int, handled));
        assert(Self::key_handled(
            &before,
            &handled,
            &old(self).config,
            old(self).window_size,
            event,
            primary_repeat_count,
            other_repeat_counts@,
            action,
        ));
        match action {
            Some(Action::App(app_action)) => {
                self.execute_app_action(app_action);
                Response::Continue
            },
            Some(Action::Buffer(buffer_action)) => Response::Pending(buffer_action),
            _ => Response::Continue,
        }
    }

    /// What a key other than control-c does to the editor: the current
    /// buffer handles it as its `handle_key` states, and an app action bound
    /// to it is then performed; a buffer action is handed back.
    pub open spec fn key_response(
        before: &App,
        after: &App,
        event: KeyEvent,
        primary_repeat_count: Option<usize>,
        other_repeat_counts: Seq<Option<usize>>,
        result: Response,
    ) -> bool {
        let index = before.current_buffer_index as int;
        exists|handled: Buffer, action: Option<Action>|
            {
                &&& #[trigger] Self::key_handled(
                    &before.buffers@[index],
                    &handled,
                    &before.config,
                    before.window_size,
                    event,
                    primary_repeat_count,
                    other_repeat_counts,
                    action,
                )
                &&& match action {
                    Some(Action::App(app_action)) => {
                        &&& result == Response::Continue
                        &&& Self::app_action_done(
                            before.buffers@.update(index, handled),
                            index,
                            before,
                            after,
                            app_action,
                        )
                    },
                    Some(Action::Buffer(buffer_action)) => {
                        &&& result == Response::Pending(buffer_action)
                        &&& after.buffers@ == before.buffers@.update(index, handled)
                        &&& after.current_buffer_index == before.current_buffer_index
                        &&& after.should_quit == before.should_quit
                    },
                    _ => {
                        &&& result == Response::Continue
                        &&& after.buffers@ == before.buffers@.update(index, handled)
                        &&& after.current_buffer_index == before.current_buffer_index
                        &&& after.should_quit == before.should_quit
                    },
                }
            }
    }

    /// What the current buffer does with a key, as its `handle_key` states.
    pub open spec fn key_handled(
        before: &Buffer,
        after: &Buffer,
        config: &Config,
        window_size: WindowSize,
        event: KeyEvent,
        primary_repeat_count: Option<usize>,
        other_repeat_counts: Seq<Option<usize>>,
        action: Option<Action>,
    ) -> bool {
        &&& after.key_ready()
        &&& after.shows_primary(window_size)
        &&& after.scroll_position == clamped_scroll(
            before.scroll_position as int,
            after.primary_cursor.head as int,
            visible_bytes(window_size),
        )
        &&& match before.partial_action {
            Some(PartialAction::Replace) => {
                &&& replace_handled(before, after, event.code.spec_as_char())
                &&& action == None::<Action>
            },
            Some(PartialAction::Repeat) => {
                &&& Buffer::repeat_handled(
                    before,
                    after,
                    config,
                    event,
                    primary_repeat_count,
                    other_repeat_counts,
                )
                &&& action == None::<Action>
            },
            _ => Buffer::other_modes_handled(before, after, config, event, action),
        }
        &&& after.alert_message@ == if before.partial_action == Some(PartialAction::Repeat)
            && Buffer::repeat_refused(
            before,
            config,
            event,
            primary_repeat_count,
            other_repeat_counts,
        ) {
            with_fg(plain(repeat_count_too_large()), Color::Red)
        } else {
            plain(""@)
        }
        &&& after.popups@ == Seq::<Popup>::empty()
        &&& !after.inspecting_selection
        &&& after.file_name == before.file_name
        &&& after.logs == before.logs
    }

    /// What an app action does to an editor whose buffers are `buffers`
    /// and whose current buffer is `index`, as `execute_app_action` states.
    pub open spec fn app_action_done(
        buffers: Seq<Buffer>,
        index: int,
        before: &App,
        after: &App,
        app_action: AppAction,
    ) -> bool {
        let all_saved = forall|i: int| 0 <= i < buffers.len() ==> #[trigger] buffers[i].spec_all_changes_saved();
        &&& app_action == AppAction::Quit ==> {
            &&& after.should_quit
            &&& after.buffers@ == buffers
            &&& after.current_buffer_index == index
        }
        &&& app_action == AppAction::QuitIfSaved ==> {
            &&& (after.should_quit <==> before.should_quit || all_saved)
            &&& after.current_buffer_index == index
            &&& all_saved ==> after.buffers@ == buffers
            &&& !all_saved ==> {
                &&& after.buffers@.len() == buffers.len()
                &&& forall|i: int|
                    0 <= i < buffers.len() && i != index ==> #[trigger] after.buffers@[i] == buffers[i]
                &&& after.buffers@[index].alert_message@ == with_fg(
                    plain(unsaved_changes_message()),
                    Color::Red,
                )
                &&& after.buffers@[index].contents == buffers[index].contents
            }
        }
        &&& app_action == AppAction::PreviousBuffer ==> {
            &&& after.current_buffer_index == previous_index(index, buffers.len() as int)
            &&& after.buffers@ == buffers
        }
        &&& app_action == AppAction::NextBuffer ==> {
            &&& after.current_buffer_index == next_index(index, buffers.len() as int)
            &&& after.buffers@ == buffers
        }
        &&& app_action == AppAction::Yank ==> {
            &&& after.primary_cursor_register@ == selected(
                buffers[index].contents@,
                buffers[index].primary_cursor,
            )
            &&& views(after.other_cursor_registers@) == selections(
                buffers[index].contents@,
                buffers[index].cursors@,
            )
            &&& after.buffers@ == buffers
            &&& after.current_buffer_index == index
        }
    }
}


impl App {
    /// Whether an event can be handled: a resize leaves rows for the status
    /// line and tab bar, a key is accepted by the current buffer, and a
    /// click stays within the arithmetic of `click_at`.
    pub open spec fn event_accepted(&self, event: Event) -> bool {
        match event {
            Event::Resize(_, height) => {
                &&& height > self.window_size.covered_rows
                &&& self.buffers@[self.current_buffer_index as int].scroll_position % BYTES_PER_LINE == 0
            },
            Event::Key(key_event) => Self::is_interrupt(key_event) || self.key_accepted(key_event),
            Event::Mouse(mouse_event) => self.mouse_allowed(mouse_event),
            Event::Other => true,
        }
    }

    /// Handles an event of the terminal: a resize records the new height and
    /// scrolls the current buffer to show its primary cursor, keys and mouse events are handled as `handle_key` and `handle_mouse`
    /// say, and other events change nothing.
    pub fn handle_event(
        &mut self,
        event: Event,
        primary_repeat_count: Option<usize>,
        other_repeat_counts: &[Option<usize>],
    ) -> (result: Response)
        requires
            old(self).wf(),
            old(self).event_accepted(event),
        ensures
            final(self).wf(),
            final(self).config == old(self).config,
            match event {
                Event::Resize(_, height) => {
                    &&& result == Response::Continue
                    &&& final(self).window_size == (WindowSize {
                        rows: height as usize,
                        covered_rows: old(self).window_size.covered_rows,
                    })
                    &&& {
                        let index = old(self).current_buffer_index as int;
                        let buffer = old(self).buffers@[index];
                        final(self).buffers@ == old(self).buffers@.update(
                            index,
                            Buffer {
                                scroll_position: clamped_scroll(
                                    buffer.scroll_position as int,
                                    buffer.primary_cursor.head as int,
                                    visible_bytes(final(self).window_size),
                                ) as usize,
                                ..buffer
                            },
                        )
                    }
                    &&& final(self).current_buffer_index == old(self).current_buffer_index
                    &&& final(self).should_quit == old(self).should_quit
                },
                Event::Key(key_event) => if Self::is_interrupt(key_event) {
                    &&& result == Response::Interrupt
                    &&& *final(self) == *old(self)
                } else {
                    Self::key_response(
                        old(self),
                        final(self),
                        key_event,
                        primary_repeat_count,
                        other_repeat_counts@,
                        result,
                    )
                },
                Event::Mouse(mouse_event) => {
                    &&& result == Response::Continue
                    &&& Self::mouse_handled(old(self), final(self), mouse_event)
                },
                Event::Other => {
                    &&& result == Response::Continue
                    &&& *final(self) == *old(self)
                },
            },
    {
        match event {
            Event::Resize(_, height) => {
                self.window_size.rows = height as usize;
                let index = self.current_buffer_index;
                let mut buffer = self.buffers.remove(index);
                buffer.clamp_screen_to_primary_cursor(self.window_size);
                self.buffers.insert(index, buffer);
                Response::Continue
            },
            Event::Key(key_event) => {
                if Self::interrupts(key_event) {
                    return Response::Interrupt;
                }
                self.handle_key(key_event, primary_repeat_count, other_repeat_counts)
            },
            Event::Mouse(mouse_event) => {
                self.handle_mouse(mouse_event);
                Response::Continue
            },
            Event::Other => Response::Continue,
        }
    }

    /// Whether an event can be handled in the editor's current state.
    pub fn accepts_event(&self, event: Event) -> (result: bool)
        requires
            self.wf(),
        ensures
            result == self.event_accepted(event),
    {
        let buffer = &self.buffers[self.current_buffer_index];
        match event {
            Event::Resize(_, height) => height as usize > self.window_size.covered_rows
                && buffer.scroll_position % BYTES_PER_LINE == 0,
            Event::Key(key_event) => {
                Self::interrupts(key_event) || (buffer.is_key_ready() && buffer.is_showing_primary(
                    self.window_size,
                ) && (buffer.partial_action != Some(PartialAction::Repeat)
                    || buffer.repeats_cursor_action(&self.config, key_event)))
            },
            Event::Mouse(mouse_event) => match mouse_event.kind {
                MouseEventKind::Down => self.click_in_range(mouse_event.column, mouse_event.row),
                MouseEventKind::ScrollDown | MouseEventKind::ScrollUp => buffer.can_scroll_in(
                    self.window_size,
                ),
                _ => true,
            },
            Event::Other => true,
        }
    }

    /// Whether a key event is control-c.
    pub fn interrupts(event: KeyEvent) -> (result: bool)
        ensures
            result == Self::is_interrupt(event),
    {
        event.modifiers == CONTROL && event.code == KeyCode::Char('c')
    }

    /// Whether a click at a screen position stays within the arithmetic of
    /// `click_at`.
    pub fn click_in_range(&self, column: u16, row: u16) -> (result: bool)
        requires
            self.wf(),
        ensures
            result == self.click_allowed(column, row),
    {
        let tab_bar_rows: usize = if self.buffers.len() > 1 { 1 } else { 0 };
        match byte_column_at_screen_column(column) {
            Some(byte_column) => {
                proof {
                    crate::render::lemma_screen_columns_roundtrip(byte_column as int);
                }
                if (row as usize) < tab_bar_rows {
                    return false;
                }
                let hex_row = row as usize - tab_bar_rows;
                if hex_row < self.window_size.hex_rows() {
                    let scroll = self.buffers[self.current_buffer_index].scroll_position;
                    if scroll > usize::MAX - BYTES_PER_LINE {
                        return false;
                    }
                    let left = usize::MAX - BYTES_PER_LINE - scroll;
                    let room = left / BYTES_PER_LINE;
                    assert(hex_row <= room <==> hex_row * 16 <= left) by (nonlinear_arith)
                        requires
                            room == left / 16,
                    ;
                    hex_row <= room
                } else {
                    true
                }
            },
            None => true,
        }
    }
}

} // verus!
