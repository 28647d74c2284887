# hexapoda

A colorful modal hex editor, with its core verified in Verus.

Bytes are colored by value; editing is selection-first, with several
selections at once; edits can be undone.

## Layout

- `src/` — the library, verified:
  - `cursor.rs`, `cursor/actions.rs`: selections and the motions on them;
  - `buffer.rs`, `cursor_moves.rs`: a buffer of bytes with its cursors,
    sorting and merging of selections;
  - `edit_action.rs`, `undo_laws.rs`: replacing and deleting bytes, the edit
    history, and what undoing an edit gives back;
  - `keypress.rs`, `action.rs`, `config.rs`: keys, actions and key bindings;
  - `keys.rs`, `app.rs`: what a key, a click or a resize does to a buffer and
    to the editor;
  - `widget.rs`, `render.rs`, `hex_view.rs`, `screen.rs`: what the editor
    draws, as styled text and rectangles;
  - `layout_laws.rs`: how the drawn lines line up, and where clicks land.
- `app/` — the program around it: the command line, reading files, the
  terminal, and drawing with ratatui.
- `tests/` — tests of the library.
