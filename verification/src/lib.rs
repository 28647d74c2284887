//! A modal hex editor's core: cursors and selections over a byte buffer,
//! the actions that move them, and the edits that change the bytes.

use vstd::prelude::*;

pub mod action;
pub mod cursor;
pub mod text;
pub mod buffer;
pub mod edit_action;
pub mod undo_laws;
pub mod cursor_moves;
pub mod keypress;
pub mod window_size;
pub mod render;
pub mod widget;
pub mod hex_view;
pub mod screen;
pub mod keys;
pub mod arguments;
pub mod layout_laws;
pub mod motion_laws;
pub mod config;
pub mod app;

verus! {

/// Number of bytes shown on one line of the hex view.
pub const BYTES_PER_LINE: usize = 0x10;

/// Number of bytes in one visual word (chunk) of the hex view.
pub const BYTES_PER_CHUNK: usize = 4;

/// Number of chunks on one line.
pub const CHUNKS_PER_LINE: usize = 4;

} // verus!
