use vstd::prelude::*;
use vstd::string::StringExecFns;
use crate::text::str_eq;

verus! {

/// A few facts about a name that tell all action names apart: its length
/// and the characters at four fixed positions.
pub open spec fn name_key(s: Seq<char>) -> (int, char, char, char, char) {
    let at = |i: int| if i < s.len() { s[i] } else { ' ' };
    (s.len() as int, at(0), at(5), at(12), at(22))
}

/// Any action that a key can be bound to.
#[derive(Clone, Copy, Debug, PartialEq, Eq, Structural)]
pub enum Action {
    App(AppAction),
    Buffer(BufferAction),
    Cursor(CursorAction),
}

impl Action {
    pub open spec fn spec_clears_popups(self) -> bool {
        match self {
            Action::App(a) => a.spec_clears_popups(),
            Action::Buffer(a) => a.spec_clears_popups(),
            Action::Cursor(a) => a.spec_clears_popups(),
        }
    }

    /// Whether performing this action closes the open popups.
    pub fn clears_popups(self) -> (result: bool)
        ensures
            result == self.spec_clears_popups(),
    {
        match self {
            Action::App(a) => a.clears_popups(),
            Action::Buffer(a) => a.clears_popups(),
            Action::Cursor(a) => a.clears_popups(),
        }
    }

    /// Whether this action shows information about the selection.
    pub fn is_inspection(self) -> (result: bool)
        ensures
            result == (self == Action::Buffer(BufferAction::InspectSelection) || self
                == Action::Buffer(BufferAction::InspectSelectionColor)),
    {
        match self {
            Action::Buffer(BufferAction::InspectSelection) => true,
            Action::Buffer(BufferAction::InspectSelectionColor) => true,
            _ => false,
        }
    }

    /// The name of this action in configuration files.
    pub open spec fn spec_name(self) -> Seq<char> {
        match self {
            Action::App(a) => a.spec_name(),
            Action::Buffer(a) => a.spec_name(),
            Action::Cursor(a) => a.spec_name(),
        }
    }

    pub fn name(self) -> (result: &'static str)
        ensures
            result@ == self.spec_name(),
    {
        match self {
            Action::App(a) => a.name(),
            Action::Buffer(a) => a.name(),
            Action::Cursor(a) => a.name(),
        }
    }

    pub open spec fn from_name_key(k: (int, char, char, char, char)) -> Option<Self> {
        match AppAction::from_name_key(k) {
            Some(a) => Some(Action::App(a)),
            None => match BufferAction::from_name_key(k) {
                Some(a) => Some(Action::Buffer(a)),
                None => match CursorAction::from_name_key(k) {
                    Some(a) => Some(Action::Cursor(a)),
                    None => None,
                },
            },
        }
    }

    proof fn lemma_name_key(a: Self)
        ensures
            Self::from_name_key(name_key(a.spec_name())) == Some(a),
    {
        broadcast use vstd::string::group_string_axioms;

        reveal_strlit("quit_if_saved");
        reveal_strlit("quit");
        reveal_strlit("previous_buffer");
        reveal_strlit("next_buffer");
        reveal_strlit("yank");
        reveal_strlit("normal_mode");
        reveal_strlit("select_mode");
        reveal_strlit("goto");
        reveal_strlit("view");
        reveal_strlit("replace");
        reveal_strlit("space");
        reveal_strlit("repeat");
        reveal_strlit("to");
        reveal_strlit("scroll_down");
        reveal_strlit("scroll_up");
        reveal_strlit("page_cursor_half_down");
        reveal_strlit("page_cursor_half_up");
        reveal_strlit("page_down");
        reveal_strlit("page_up");
        reveal_strlit("collapse_selection");
        reveal_strlit("flip_selections");
        reveal_strlit("delete");
        reveal_strlit("undo");
        reveal_strlit("redo");
        reveal_strlit("save");
        reveal_strlit("copy_selection_on_next_line");
        reveal_strlit("rotate_selections_backward");
        reveal_strlit("rotate_selections_forward");
        reveal_strlit("keep_primary_selection");
        reveal_strlit("remove_primary_selection");
        reveal_strlit("split_selections_into_1_s");
        reveal_strlit("split_selections_into_2_s");
        reveal_strlit("split_selections_into_3_s");
        reveal_strlit("split_selections_into_4_s");
        reveal_strlit("split_selections_into_5_s");
        reveal_strlit("split_selections_into_6_s");
        reveal_strlit("split_selections_into_7_s");
        reveal_strlit("split_selections_into_8_s");
        reveal_strlit("split_selections_into_9_s");
        reveal_strlit("jump_to_selected_offset");
        reveal_strlit("jump_to_selected_offset_relative_to_mark");
        reveal_strlit("toggle_mark");
        reveal_strlit("align_view_center");
        reveal_strlit("align_view_bottom");
        reveal_strlit("align_view_top");
        reveal_strlit("extend_to_mark");
        reveal_strlit("extend_to_null");
        reveal_strlit("extend_to_ff");
        reveal_strlit("inspect_selection");
        reveal_strlit("inspect_selection_color");
        reveal_strlit("move_byte_up");
        reveal_strlit("move_byte_down");
        reveal_strlit("move_byte_left");
        reveal_strlit("move_byte_right");
        reveal_strlit("extend_byte_up");
        reveal_strlit("extend_byte_down");
        reveal_strlit("extend_byte_left");
        reveal_strlit("extend_byte_right");
        reveal_strlit("goto_line_start");
        reveal_strlit("goto_line_end");
        reveal_strlit("goto_file_start");
        reveal_strlit("goto_file_end");
        reveal_strlit("move_next_word_start");
        reveal_strlit("move_next_word_end");
        reveal_strlit("move_previous_word_start");
        reveal_strlit("extend_next_word_start");
        reveal_strlit("extend_next_word_end");
        reveal_strlit("extend_previous_word_start");
        reveal_strlit("extend_line_below");
        reveal_strlit("extend_line_above");
    }

    /// No two actions, of any kind, share a name.
    pub proof fn lemma_names_distinct(a: Self, b: Self)
        requires
            a.spec_name() == b.spec_name(),
        ensures
            a == b,
    {
        Self::lemma_name_key(a);
        Self::lemma_name_key(b);
    }

    /// The message of the error that `from_name` gives for `name`.
    pub open spec fn invalid_name_message(name: Seq<char>) -> Seq<char> {
        "invalid action: "@ + name
    }

    /// The action named `name`; an error message when no action has that name.
    pub fn from_name(name: &str) -> (result: Result<Self, String>)
        ensures
            forall|a: Self| (result == Ok::<Self, String>(a)) <==> a.spec_name() == name@,
            result is Err <==> forall|a: Self| a.spec_name() != name@,
            result matches Err(message) ==> message@ == Self::invalid_name_message(name@),
    {
        if let Ok(a) = AppAction::from_name(name) {
            proof {
                assert(Action::App(a).spec_name() == name@);
                assert forall|b: Self| b.spec_name() == name@ implies b == Action::App(a) by {
                    Self::lemma_names_distinct(b, Action::App(a));
                }
            }
            return Ok(Action::App(a));
        }
        if let Ok(a) = BufferAction::from_name(name) {
            proof {
                assert(Action::Buffer(a).spec_name() == name@);
                assert forall|b: Self| b.spec_name() == name@ implies b == Action::Buffer(a) by {
                    Self::lemma_names_distinct(b, Action::Buffer(a));
                }
            }
            return Ok(Action::Buffer(a));
        }
        if let Ok(a) = CursorAction::from_name(name) {
            proof {
                assert(Action::Cursor(a).spec_name() == name@);
                assert forall|b: Self| b.spec_name() == name@ implies b == Action::Cursor(a) by {
                    Self::lemma_names_distinct(b, Action::Cursor(a));
                }
            }
            return Ok(Action::Cursor(a));
        }
        proof {
            assert forall|b: Self| b.spec_name() != name@ by {
                match b {
                    Action::App(x) => {},
                    Action::Buffer(x) => {},
                    Action::Cursor(x) => {},
                }
            }
        }
        let mut message = String::from_str("invalid action: ");
        message.append(name);
        Err(message)
    }
}
/// Actions that act on the app as a whole, not just one buffer.
#[derive(Clone, Copy, Debug, PartialEq, Eq, Structural)]
pub enum AppAction {
    QuitIfSaved,
    Quit,
    PreviousBuffer,
    NextBuffer,
    Yank,
}

impl AppAction {
    /// Whether performing this action closes the open popups.
    pub open spec fn spec_clears_popups(self) -> bool {
        !(self is PreviousBuffer || self is NextBuffer || self is Yank)
    }

    pub fn clears_popups(self) -> (result: bool)
        ensures
            result == self.spec_clears_popups(),
    {
        match self {
            AppAction::QuitIfSaved => true,
            AppAction::Quit => true,
            AppAction::PreviousBuffer => false,
            AppAction::NextBuffer => false,
            AppAction::Yank => false,
        }
    }

    /// The name of this action in configuration files.
    pub open spec fn spec_name(self) -> Seq<char> {
        match self {
            AppAction::QuitIfSaved => "quit_if_saved"@,
            AppAction::Quit => "quit"@,
            AppAction::PreviousBuffer => "previous_buffer"@,
            AppAction::NextBuffer => "next_buffer"@,
            AppAction::Yank => "yank"@,
        }
    }

    pub fn name(self) -> (result: &'static str)
        ensures
            result@ == self.spec_name(),
    {
        match self {
            AppAction::QuitIfSaved => "quit_if_saved",
            AppAction::Quit => "quit",
            AppAction::PreviousBuffer => "previous_buffer",
            AppAction::NextBuffer => "next_buffer",
            AppAction::Yank => "yank",
        }
    }

    /// The action whose name has the given length and characters at
    /// the positions that `name_key` samples.
    pub open spec fn from_name_key(k: (int, char, char, char, char)) -> Option<Self> {
        if k == (13int, 'q', 'i', 'd', ' ') {
            Some(AppAction::QuitIfSaved)
        } else if k == (4int, 'q', ' ', ' ', ' ') {
            Some(AppAction::Quit)
        } else if k == (15int, 'p', 'o', 'f', ' ') {
            Some(AppAction::PreviousBuffer)
        } else if k == (11int, 'n', 'b', ' ', ' ') {
            Some(AppAction::NextBuffer)
        } else if k == (4int, 'y', ' ', ' ', ' ') {
            Some(AppAction::Yank)
        } else {
            None
        }
    }

    proof fn lemma_name_key(a: Self)
        ensures
            Self::from_name_key(name_key(a.spec_name())) == Some(a),
    {
        broadcast use vstd::string::group_string_axioms;

        reveal_strlit("quit_if_saved");
        reveal_strlit("quit");
        reveal_strlit("previous_buffer");
        reveal_strlit("next_buffer");
        reveal_strlit("yank");
    }

    /// No two actions share a name.
    pub proof fn lemma_names_distinct(a: Self, b: Self)
        requires
            a.spec_name() == b.spec_name(),
        ensures
            a == b,
    {
        Self::lemma_name_key(a);
        Self::lemma_name_key(b);
    }

    /// The action named `name`, if there is one.
    pub fn from_name(name: &str) -> (result: Result<Self, ()>)
        ensures
            forall|a: Self| (result == Ok::<Self, ()>(a)) <==> a.spec_name() == name@,
            result is Err <==> forall|a: Self| a.spec_name() != name@,
    {
        if str_eq(name, "quit_if_saved") {
            proof {
                assert(AppAction::QuitIfSaved.spec_name() == name@);
                assert forall|b: Self| b.spec_name() == name@ implies b == AppAction::QuitIfSaved by {
                    Self::lemma_names_distinct(b, AppAction::QuitIfSaved);
                }
            }
            return Ok(AppAction::QuitIfSaved);
        }
        if str_eq(name, "quit") {
            proof {
                assert(AppAction::Quit.spec_name() == name@);
                assert forall|b: Self| b.spec_name() == name@ implies b == AppAction::Quit by {
                    Self::lemma_names_distinct(b, AppAction::Quit);
                }
            }
            return Ok(AppAction::Quit);
        }
        if str_eq(name, "previous_buffer") {
            proof {
                assert(AppAction::PreviousBuffer.spec_name() == name@);
                assert forall|b: Self| b.spec_name() == name@ implies b == AppAction::PreviousBuffer by {
                    Self::lemma_names_distinct(b, AppAction::PreviousBuffer);
                }
            }
            return Ok(AppAction::PreviousBuffer);
        }
        if str_eq(name, "next_buffer") {
            proof {
                assert(AppAction::NextBuffer.spec_name() == name@);
                assert forall|b: Self| b.spec_name() == name@ implies b == AppAction::NextBuffer by {
                    Self::lemma_names_distinct(b, AppAction::NextBuffer);
                }
            }
            return Ok(AppAction::NextBuffer);
        }
        if str_eq(name, "yank") {
            proof {
                assert(AppAction::Yank.spec_name() == name@);
                assert forall|b: Self| b.spec_name() == name@ implies b == AppAction::Yank by {
                    Self::lemma_names_distinct(b, AppAction::Yank);
                }
            }
            return Ok(AppAction::Yank);
        }
        Err(())
    }
}

/// Actions that act on the current buffer.
#[derive(Clone, Copy, Debug, PartialEq, Eq, Structural)]
pub enum BufferAction {
    NormalMode,
    SelectMode,
    Goto,
    View,
    Replace,
    Space,
    Repeat,
    To,
    ScrollDown,
    ScrollUp,
    PageCursorHalfDown,
    PageCursorHalfUp,
    PageDown,
    PageUp,
    CollapseSelection,
    FlipSelections,
    Delete,
    Undo,
    Redo,
    Save,
    CopySelectionOnNextLine,
    RotateSelectionsBackward,
    RotateSelectionsForward,
    KeepPrimarySelection,
    RemovePrimarySelection,
    SplitSelectionsInto1s,
    SplitSelectionsInto2s,
    SplitSelectionsInto3s,
    SplitSelectionsInto4s,
    SplitSelectionsInto5s,
    SplitSelectionsInto6s,
    SplitSelectionsInto7s,
    SplitSelectionsInto8s,
    SplitSelectionsInto9s,
    JumpToSelectedOffset,
    JumpToSelectedOffsetRelativeToMark,
    ToggleMark,
    AlignViewCenter,
    AlignViewBottom,
    AlignViewTop,
    ExtendToMark,
    ExtendToNull,
    ExtendToFF,
    InspectSelection,
    InspectSelectionColor,
}

impl BufferAction {
    /// Whether performing this action closes the open popups.
    pub open spec fn spec_clears_popups(self) -> bool {
        !(self is NormalMode || self is SelectMode || self is Goto || self is View || self is Space || self is To || self is FlipSelections || self is Save || self is RotateSelectionsBackward || self is RotateSelectionsForward || self is ToggleMark || self is AlignViewCenter || self is AlignViewBottom || self is AlignViewTop)
    }

    pub fn clears_popups(self) -> (result: bool)
        ensures
            result == self.spec_clears_popups(),
    {
        match self {
            BufferAction::NormalMode => false,
            BufferAction::SelectMode => false,
            BufferAction::Goto => false,
            BufferAction::View => false,
            BufferAction::Replace => true,
            BufferAction::Space => false,
            BufferAction::Repeat => true,
            BufferAction::To => false,
            BufferAction::ScrollDown => true,
            BufferAction::ScrollUp => true,
            BufferAction::PageCursorHalfDown => true,
            BufferAction::PageCursorHalfUp => true,
            BufferAction::PageDown => true,
            BufferAction::PageUp => true,
            BufferAction::CollapseSelection => true,
            BufferAction::FlipSelections => false,
            BufferAction::Delete => true,
            BufferAction::Undo => true,
            BufferAction::Redo => true,
            BufferAction::Save => false,
            BufferAction::CopySelectionOnNextLine => true,
            BufferAction::RotateSelectionsBackward => false,
            BufferAction::RotateSelectionsForward => false,
            BufferAction::KeepPrimarySelection => true,
            BufferAction::RemovePrimarySelection => true,
            BufferAction::SplitSelectionsInto1s => true,
            BufferAction::SplitSelectionsInto2s => true,
            BufferAction::SplitSelectionsInto3s => true,
            BufferAction::SplitSelectionsInto4s => true,
            BufferAction::SplitSelectionsInto5s => true,
            BufferAction::SplitSelectionsInto6s => true,
            BufferAction::SplitSelectionsInto7s => true,
            BufferAction::SplitSelectionsInto8s => true,
            BufferAction::SplitSelectionsInto9s => true,
            BufferAction::JumpToSelectedOffset => true,
            BufferAction::JumpToSelectedOffsetRelativeToMark => true,
            BufferAction::ToggleMark => false,
            BufferAction::AlignViewCenter => false,
            BufferAction::AlignViewBottom => false,
            BufferAction::AlignViewTop => false,
            BufferAction::ExtendToMark => true,
            BufferAction::ExtendToNull => true,
            BufferAction::ExtendToFF => true,
            BufferAction::InspectSelection => true,
            BufferAction::InspectSelectionColor => true,
        }
    }

    /// The name of this action in configuration files.
    pub open spec fn spec_name(self) -> Seq<char> {
        match self {
            BufferAction::NormalMode => "normal_mode"@,
            BufferAction::SelectMode => "select_mode"@,
            BufferAction::Goto => "goto"@,
            BufferAction::View => "view"@,
            BufferAction::Replace => "replace"@,
            BufferAction::Space => "space"@,
            BufferAction::Repeat => "repeat"@,
            BufferAction::To => "to"@,
            BufferAction::ScrollDown => "scroll_down"@,
            BufferAction::ScrollUp => "scroll_up"@,
            BufferAction::PageCursorHalfDown => "page_cursor_half_down"@,
            BufferAction::PageCursorHalfUp => "page_cursor_half_up"@,
            BufferAction::PageDown => "page_down"@,
            BufferAction::PageUp => "page_up"@,
            BufferAction::CollapseSelection => "collapse_selection"@,
            BufferAction::FlipSelections => "flip_selections"@,
            BufferAction::Delete => "delete"@,
            BufferAction::Undo => "undo"@,
            BufferAction::Redo => "redo"@,
            BufferAction::Save => "save"@,
            BufferAction::CopySelectionOnNextLine => "copy_selection_on_next_line"@,
            BufferAction::RotateSelectionsBackward => "rotate_selections_backward"@,
            BufferAction::RotateSelectionsForward => "rotate_selections_forward"@,
            BufferAction::KeepPrimarySelection => "keep_primary_selection"@,
            BufferAction::RemovePrimarySelection => "remove_primary_selection"@,
            BufferAction::SplitSelectionsInto1s => "split_selections_into_1_s"@,
            BufferAction::SplitSelectionsInto2s => "split_selections_into_2_s"@,
            BufferAction::SplitSelectionsInto3s => "split_selections_into_3_s"@,
            BufferAction::SplitSelectionsInto4s => "split_selections_into_4_s"@,
            BufferAction::SplitSelectionsInto5s => "split_selections_into_5_s"@,
            BufferAction::SplitSelectionsInto6s => "split_selections_into_6_s"@,
            BufferAction::SplitSelectionsInto7s => "split_selections_into_7_s"@,
            BufferAction::SplitSelectionsInto8s => "split_selections_into_8_s"@,
            BufferAction::SplitSelectionsInto9s => "split_selections_into_9_s"@,
            BufferAction::JumpToSelectedOffset => "jump_to_selected_offset"@,
            BufferAction::JumpToSelectedOffsetRelativeToMark => "jump_to_selected_offset_relative_to_mark"@,
            BufferAction::ToggleMark => "toggle_mark"@,
            BufferAction::AlignViewCenter => "align_view_center"@,
            BufferAction::AlignViewBottom => "align_view_bottom"@,
            BufferAction::AlignViewTop => "align_view_top"@,
            BufferAction::ExtendToMark => "extend_to_mark"@,
            BufferAction::ExtendToNull => "extend_to_null"@,
            BufferAction::ExtendToFF => "extend_to_ff"@,
            BufferAction::InspectSelection => "inspect_selection"@,
            BufferAction::InspectSelectionColor => "inspect_selection_color"@,
        }
    }

    pub fn name(self) -> (result: &'static str)
        ensures
            result@ == self.spec_name(),
    {
        match self {
            BufferAction::NormalMode => "normal_mode",
            BufferAction::SelectMode => "select_mode",
            BufferAction::Goto => "goto",
            BufferAction::View => "view",
            BufferAction::Replace => "replace",
            BufferAction::Space => "space",
            BufferAction::Repeat => "repeat",
            BufferAction::To => "to",
            BufferAction::ScrollDown => "scroll_down",
            BufferAction::ScrollUp => "scroll_up",
            BufferAction::PageCursorHalfDown => "page_cursor_half_down",
            BufferAction::PageCursorHalfUp => "page_cursor_half_up",
            BufferAction::PageDown => "page_down",
            BufferAction::PageUp => "page_up",
            BufferAction::CollapseSelection => "collapse_selection",
            BufferAction::FlipSelections => "flip_selections",
            BufferAction::Delete => "delete",
            BufferAction::Undo => "undo",
            BufferAction::Redo => "redo",
            BufferAction::Save => "save",
            BufferAction::CopySelectionOnNextLine => "copy_selection_on_next_line",
            BufferAction::RotateSelectionsBackward => "rotate_selections_backward",
            BufferAction::RotateSelectionsForward => "rotate_selections_forward",
            BufferAction::KeepPrimarySelection => "keep_primary_selection",
            BufferAction::RemovePrimarySelection => "remove_primary_selection",
            BufferAction::SplitSelectionsInto1s => "split_selections_into_1_s",
            BufferAction::SplitSelectionsInto2s => "split_selections_into_2_s",
            BufferAction::SplitSelectionsInto3s => "split_selections_into_3_s",
            BufferAction::SplitSelectionsInto4s => "split_selections_into_4_s",
            BufferAction::SplitSelectionsInto5s => "split_selections_into_5_s",
            BufferAction::SplitSelectionsInto6s => "split_selections_into_6_s",
            BufferAction::SplitSelectionsInto7s => "split_selections_into_7_s",
            BufferAction::SplitSelectionsInto8s => "split_selections_into_8_s",
            BufferAction::SplitSelectionsInto9s => "split_selections_into_9_s",
            BufferAction::JumpToSelectedOffset => "jump_to_selected_offset",
            BufferAction::JumpToSelectedOffsetRelativeToMark => "jump_to_selected_offset_relative_to_mark",
            BufferAction::ToggleMark => "toggle_mark",
            BufferAction::AlignViewCenter => "align_view_center",
            BufferAction::AlignViewBottom => "align_view_bottom",
            BufferAction::AlignViewTop => "align_view_top",
            BufferAction::ExtendToMark => "extend_to_mark",
            BufferAction::ExtendToNull => "extend_to_null",
            BufferAction::ExtendToFF => "extend_to_ff",
            BufferAction::InspectSelection => "inspect_selection",
            BufferAction::InspectSelectionColor => "inspect_selection_color",
        }
    }

    /// The action whose name has the given length and characters at
    /// the positions that `name_key` samples.
    pub open spec fn from_name_key(k: (int, char, char, char, char)) -> Option<Self> {
        if k == (11int, 'n', 'l', ' ', ' ') {
            Some(BufferAction::NormalMode)
        } else if k == (11int, 's', 't', ' ', ' ') {
            Some(BufferAction::SelectMode)
        } else if k == (4int, 'g', ' ', ' ', ' ') {
            Some(BufferAction::Goto)
        } else if k == (4int, 'v', ' ', ' ', ' ') {
            Some(BufferAction::View)
        } else if k == (7int, 'r', 'c', ' ', ' ') {
            Some(BufferAction::Replace)
        } else if k == (5int, 's', ' ', ' ', ' ') {
            Some(BufferAction::Space)
        } else if k == (6int, 'r', 't', ' ', ' ') {
            Some(BufferAction::Repeat)
        } else if k == (2int, 't', ' ', ' ', ' ') {
            Some(BufferAction::To)
        } else if k == (11int, 's', 'l', ' ', ' ') {
            Some(BufferAction::ScrollDown)
        } else if k == (9int, 's', 'l', ' ', ' ') {
            Some(BufferAction::ScrollUp)
        } else if k == (21int, 'p', 'c', 'h', ' ') {
            Some(BufferAction::PageCursorHalfDown)
        } else if k == (19int, 'p', 'c', 'h', ' ') {
            Some(BufferAction::PageCursorHalfUp)
        } else if k == (9int, 'p', 'd', ' ', ' ') {
            Some(BufferAction::PageDown)
        } else if k == (7int, 'p', 'u', ' ', ' ') {
            Some(BufferAction::PageUp)
        } else if k == (18int, 'c', 'p', 'e', ' ') {
            Some(BufferAction::CollapseSelection)
        } else if k == (15int, 'f', 's', 'o', ' ') {
            Some(BufferAction::FlipSelections)
        } else if k == (6int, 'd', 'e', ' ', ' ') {
            Some(BufferAction::Delete)
        } else if k == (4int, 'u', ' ', ' ', ' ') {
            Some(BufferAction::Undo)
        } else if k == (4int, 'r', ' ', ' ', ' ') {
            Some(BufferAction::Redo)
        } else if k == (4int, 's', ' ', ' ', ' ') {
            Some(BufferAction::Save)
        } else if k == (27int, 'c', 's', 'o', '_') {
            Some(BufferAction::CopySelectionOnNextLine)
        } else if k == (26int, 'r', 'e', 't', 'w') {
            Some(BufferAction::RotateSelectionsBackward)
        } else if k == (25int, 'r', 'e', 't', 'a') {
            Some(BufferAction::RotateSelectionsForward)
        } else if k == (22int, 'k', 'p', '_', ' ') {
            Some(BufferAction::KeepPrimarySelection)
        } else if k == (24int, 'r', 'e', 'r', 'o') {
            Some(BufferAction::RemovePrimarySelection)
        } else if k == (25int, 's', '_', 'i', '1') {
            Some(BufferAction::SplitSelectionsInto1s)
        } else if k == (25int, 's', '_', 'i', '2') {
            Some(BufferAction::SplitSelectionsInto2s)
        } else if k == (25int, 's', '_', 'i', '3') {
            Some(BufferAction::SplitSelectionsInto3s)
        } else if k == (25int, 's', '_', 'i', '4') {
            Some(BufferAction::SplitSelectionsInto4s)
        } else if k == (25int, 's', '_', 'i', '5') {
            Some(BufferAction::SplitSelectionsInto5s)
        } else if k == (25int, 's', '_', 'i', '6') {
            Some(BufferAction::SplitSelectionsInto6s)
        } else if k == (25int, 's', '_', 'i', '7') {
            Some(BufferAction::SplitSelectionsInto7s)
        } else if k == (25int, 's', '_', 'i', '8') {
            Some(BufferAction::SplitSelectionsInto8s)
        } else if k == (25int, 's', '_', 'i', '9') {
            Some(BufferAction::SplitSelectionsInto9s)
        } else if k == (23int, 'j', 't', 'c', 't') {
            Some(BufferAction::JumpToSelectedOffset)
        } else if k == (40int, 'j', 't', 'c', 't') {
            Some(BufferAction::JumpToSelectedOffsetRelativeToMark)
        } else if k == (11int, 't', 'e', ' ', ' ') {
            Some(BufferAction::ToggleMark)
        } else if k == (17int, 'a', '_', 'e', ' ') {
            Some(BufferAction::AlignViewCenter)
        } else if k == (17int, 'a', '_', 'o', ' ') {
            Some(BufferAction::AlignViewBottom)
        } else if k == (14int, 'a', '_', 'o', ' ') {
            Some(BufferAction::AlignViewTop)
        } else if k == (14int, 'e', 'd', 'r', ' ') {
            Some(BufferAction::ExtendToMark)
        } else if k == (14int, 'e', 'd', 'l', ' ') {
            Some(BufferAction::ExtendToNull)
        } else if k == (12int, 'e', 'd', ' ', ' ') {
            Some(BufferAction::ExtendToFF)
        } else if k == (17int, 'i', 'c', 'c', ' ') {
            Some(BufferAction::InspectSelection)
        } else if k == (23int, 'i', 'c', 'c', 'r') {
            Some(BufferAction::InspectSelectionColor)
        } else {
            None
        }
    }

    proof fn lemma_name_key(a: Self)
        ensures
            Self::from_name_key(name_key(a.spec_name())) == Some(a),
    {
        broadcast use vstd::string::group_string_axioms;

        reveal_strlit("normal_mode");
        reveal_strlit("select_mode");
        reveal_strlit("goto");
        reveal_strlit("view");
        reveal_strlit("replace");
        reveal_strlit("space");
        reveal_strlit("repeat");
        reveal_strlit("to");
        reveal_strlit("scroll_down");
        reveal_strlit("scroll_up");
        reveal_strlit("page_cursor_half_down");
        reveal_strlit("page_cursor_half_up");
        reveal_strlit("page_down");
        reveal_strlit("page_up");
        reveal_strlit("collapse_selection");
        reveal_strlit("flip_selections");
        reveal_strlit("delete");
        reveal_strlit("undo");
        reveal_strlit("redo");
        reveal_strlit("save");
        reveal_strlit("copy_selection_on_next_line");
        reveal_strlit("rotate_selections_backward");
        reveal_strlit("rotate_selections_forward");
        reveal_strlit("keep_primary_selection");
        reveal_strlit("remove_primary_selection");
        reveal_strlit("split_selections_into_1_s");
        reveal_strlit("split_selections_into_2_s");
        reveal_strlit("split_selections_into_3_s");
        reveal_strlit("split_selections_into_4_s");
        reveal_strlit("split_selections_into_5_s");
        reveal_strlit("split_selections_into_6_s");
        reveal_strlit("split_selections_into_7_s");
        reveal_strlit("split_selections_into_8_s");
        reveal_strlit("split_selections_into_9_s");
        reveal_strlit("jump_to_selected_offset");
        reveal_strlit("jump_to_selected_offset_relative_to_mark");
        reveal_strlit("toggle_mark");
        reveal_strlit("align_view_center");
        reveal_strlit("align_view_bottom");
        reveal_strlit("align_view_top");
        reveal_strlit("extend_to_mark");
        reveal_strlit("extend_to_null");
        reveal_strlit("extend_to_ff");
        reveal_strlit("inspect_selection");
        reveal_strlit("inspect_selection_color");
    }

    /// No two actions share a name.
    pub proof fn lemma_names_distinct(a: Self, b: Self)
        requires
            a.spec_name() == b.spec_name(),
        ensures
            a == b,
    {
        Self::lemma_name_key(a);
        Self::lemma_name_key(b);
    }

    /// The action named `name`, if there is one.
    pub fn from_name(name: &str) -> (result: Result<Self, ()>)
        ensures
            forall|a: Self| (result == Ok::<Self, ()>(a)) <==> a.spec_name() == name@,
            result is Err <==> forall|a: Self| a.spec_name() != name@,
    {
        if str_eq(name, "normal_mode") {
            proof {
                assert(BufferAction::NormalMode.spec_name() == name@);
                assert forall|b: Self| b.spec_name() == name@ implies b == BufferAction::NormalMode by {
                    Self::lemma_names_distinct(b, BufferAction::NormalMode);
                }
            }
            return Ok(BufferAction::NormalMode);
        }
        if str_eq(name, "select_mode") {
            proof {
                assert(BufferAction::SelectMode.spec_name() == name@);
                assert forall|b: Self| b.spec_name() == name@ implies b == BufferAction::SelectMode by {
                    Self::lemma_names_distinct(b, BufferAction::SelectMode);
                }
            }
            return Ok(BufferAction::SelectMode);
        }
        if str_eq(name, "goto") {
            proof {
                assert(BufferAction::Goto.spec_name() == name@);
                assert forall|b: Self| b.spec_name() == name@ implies b == BufferAction::Goto by {
                    Self::lemma_names_distinct(b, BufferAction::Goto);
                }
            }
            return Ok(BufferAction::Goto);
        }
        if str_eq(name, "view") {
            proof {
                assert(BufferAction::View.spec_name() == name@);
                assert forall|b: Self| b.spec_name() == name@ implies b == BufferAction::View by {
                    Self::lemma_names_distinct(b, BufferAction::View);
                }
            }
            return Ok(BufferAction::View);
        }
        if str_eq(name, "replace") {
            proof {
                assert(BufferAction::Replace.spec_name() == name@);
                assert forall|b: Self| b.spec_name() == name@ implies b == BufferAction::Replace by {
                    Self::lemma_names_distinct(b, BufferAction::Replace);
                }
            }
            return Ok(BufferAction::Replace);
        }
        if str_eq(name, "space") {
            proof {
                assert(BufferAction::Space.spec_name() == name@);
                assert forall|b: Self| b.spec_name() == name@ implies b == BufferAction::Space by {
                    Self::lemma_names_distinct(b, BufferAction::Space);
                }
            }
            return Ok(BufferAction::Space);
        }
        if str_eq(name, "repeat") {
            proof {
                assert(BufferAction::Repeat.spec_name() == name@);
                assert forall|b: Self| b.spec_name() == name@ implies b == BufferAction::Repeat by {
                    Self::lemma_names_distinct(b, BufferAction::Repeat);
                }
            }
            return Ok(BufferAction::Repeat);
        }
        if str_eq(name, "to") {
            proof {
                assert(BufferAction::To.spec_name() == name@);
                assert forall|b: Self| b.spec_name() == name@ implies b == BufferAction::To by {
                    Self::lemma_names_distinct(b, BufferAction::To);
                }
            }
            return Ok(BufferAction::To);
        }
        if str_eq(name, "scroll_down") {
            proof {
                assert(BufferAction::ScrollDown.spec_name() == name@);
                assert forall|b: Self| b.spec_name() == name@ implies b == BufferAction::ScrollDown by {
                    Self::lemma_names_distinct(b, BufferAction::ScrollDown);
                }
            }
            return Ok(BufferAction::ScrollDown);
        }
        if str_eq(name, "scroll_up") {
            proof {
                assert(BufferAction::ScrollUp.spec_name() == name@);
                assert forall|b: Self| b.spec_name() == name@ implies b == BufferAction::ScrollUp by {
                    Self::lemma_names_distinct(b, BufferAction::ScrollUp);
                }
            }
            return Ok(BufferAction::ScrollUp);
        }
        if str_eq(name, "page_cursor_half_down") {
            proof {
                assert(BufferAction::PageCursorHalfDown.spec_name() == name@);
                assert forall|b: Self| b.spec_name() == name@ implies b == BufferAction::PageCursorHalfDown by {
                    Self::lemma_names_distinct(b, BufferAction::PageCursorHalfDown);
                }
            }
            return Ok(BufferAction::PageCursorHalfDown);
        }
        if str_eq(name, "page_cursor_half_up") {
            proof {
                assert(BufferAction::PageCursorHalfUp.spec_name() == name@);
                assert forall|b: Self| b.spec_name() == name@ implies b == BufferAction::PageCursorHalfUp by {
                    Self::lemma_names_distinct(b, BufferAction::PageCursorHalfUp);
                }
            }
            return Ok(BufferAction::PageCursorHalfUp);
        }
        if str_eq(name, "page_down") {
            proof {
                assert(BufferAction::PageDown.spec_name() == name@);
                assert forall|b: Self| b.spec_name() == name@ implies b == BufferAction::PageDown by {
                    Self::lemma_names_distinct(b, BufferAction::PageDown);
                }
            }
            return Ok(BufferAction::PageDown);
        }
        if str_eq(name, "page_up") {
            proof {
                assert(BufferAction::PageUp.spec_name() == name@);
                assert forall|b: Self| b.spec_name() == name@ implies b == BufferAction::PageUp by {
                    Self::lemma_names_distinct(b, BufferAction::PageUp);
                }
            }
            return Ok(BufferAction::PageUp);
        }
        if str_eq(name, "collapse_selection") {
            proof {
                assert(BufferAction::CollapseSelection.spec_name() == name@);
                assert forall|b: Self| b.spec_name() == name@ implies b == BufferAction::CollapseSelection by {
                    Self::lemma_names_distinct(b, BufferAction::CollapseSelection);
                }
            }
            return Ok(BufferAction::CollapseSelection);
        }
        if str_eq(name, "flip_selections") {
            proof {
                assert(BufferAction::FlipSelections.spec_name() == name@);
                assert forall|b: Self| b.spec_name() == name@ implies b == BufferAction::FlipSelections by {
                    Self::lemma_names_distinct(b, BufferAction::FlipSelections);
                }
            }
            return Ok(BufferAction::FlipSelections);
        }
        if str_eq(name, "delete") {
            proof {
                assert(BufferAction::Delete.spec_name() == name@);
                assert forall|b: Self| b.spec_name() == name@ implies b == BufferAction::Delete by {
                    Self::lemma_names_distinct(b, BufferAction::Delete);
                }
            }
            return Ok(BufferAction::Delete);
        }
        if str_eq(name, "undo") {
            proof {
                assert(BufferAction::Undo.spec_name() == name@);
                assert forall|b: Self| b.spec_name() == name@ implies b == BufferAction::Undo by {
                    Self::lemma_names_distinct(b, BufferAction::Undo);
                }
            }
            return Ok(BufferAction::Undo);
        }
        if str_eq(name, "redo") {
            proof {
                assert(BufferAction::Redo.spec_name() == name@);
                assert forall|b: Self| b.spec_name() == name@ implies b == BufferAction::Redo by {
                    Self::lemma_names_distinct(b, BufferAction::Redo);
                }
            }
            return Ok(BufferAction::Redo);
        }
        if str_eq(name, "save") {
            proof {
                assert(BufferAction::Save.spec_name() == name@);
                assert forall|b: Self| b.spec_name() == name@ implies b == BufferAction::Save by {
                    Self::lemma_names_distinct(b, BufferAction::Save);
                }
            }
            return Ok(BufferAction::Save);
        }
        if str_eq(name, "copy_selection_on_next_line") {
            proof {
                assert(BufferAction::CopySelectionOnNextLine.spec_name() == name@);
                assert forall|b: Self| b.spec_name() == name@ implies b == BufferAction::CopySelectionOnNextLine by {
                    Self::lemma_names_distinct(b, BufferAction::CopySelectionOnNextLine);
                }
            }
            return Ok(BufferAction::CopySelectionOnNextLine);
        }
        if str_eq(name, "rotate_selections_backward") {
            proof {
                assert(BufferAction::RotateSelectionsBackward.spec_name() == name@);
                assert forall|b: Self| b.spec_name() == name@ implies b == BufferAction::RotateSelectionsBackward by {
                    Self::lemma_names_distinct(b, BufferAction::RotateSelectionsBackward);
                }
            }
            return Ok(BufferAction::RotateSelectionsBackward);
        }
        if str_eq(name, "rotate_selections_forward") {
            proof {
                assert(BufferAction::RotateSelectionsForward.spec_name() == name@);
                assert forall|b: Self| b.spec_name() == name@ implies b == BufferAction::RotateSelectionsForward by {
                    Self::lemma_names_distinct(b, BufferAction::RotateSelectionsForward);
                }
            }
            return Ok(BufferAction::RotateSelectionsForward);
        }
        if str_eq(name, "keep_primary_selection") {
            proof {
                assert(BufferAction::KeepPrimarySelection.spec_name() == name@);
                assert forall|b: Self| b.spec_name() == name@ implies b == BufferAction::KeepPrimarySelection by {
                    Self::lemma_names_distinct(b, BufferAction::KeepPrimarySelection);
                }
            }
            return Ok(BufferAction::KeepPrimarySelection);
        }
        if str_eq(name, "remove_primary_selection") {
            proof {
                assert(BufferAction::RemovePrimarySelection.spec_name() == name@);
                assert forall|b: Self| b.spec_name() == name@ implies b == BufferAction::RemovePrimarySelection by {
                    Self::lemma_names_distinct(b, BufferAction::RemovePrimarySelection);
                }
            }
            return Ok(BufferAction::RemovePrimarySelection);
        }
        if str_eq(name, "split_selections_into_1_s") {
            proof {
                assert(BufferAction::SplitSelectionsInto1s.spec_name() == name@);
                assert forall|b: Self| b.spec_name() == name@ implies b == BufferAction::SplitSelectionsInto1s by {
                    Self::lemma_names_distinct(b, BufferAction::SplitSelectionsInto1s);
                }
            }
            return Ok(BufferAction::SplitSelectionsInto1s);
        }
        if str_eq(name, "split_selections_into_2_s") {
            proof {
                assert(BufferAction::SplitSelectionsInto2s.spec_name() == name@);
                assert forall|b: Self| b.spec_name() == name@ implies b == BufferAction::SplitSelectionsInto2s by {
                    Self::lemma_names_distinct(b, BufferAction::SplitSelectionsInto2s);
                }
            }
            return Ok(BufferAction::SplitSelectionsInto2s);
        }
        if str_eq(name, "split_selections_into_3_s") {
            proof {
                assert(BufferAction::SplitSelectionsInto3s.spec_name() == name@);
                assert forall|b: Self| b.spec_name() == name@ implies b == BufferAction::SplitSelectionsInto3s by {
                    Self::lemma_names_distinct(b, BufferAction::SplitSelectionsInto3s);
                }
            }
            return Ok(BufferAction::SplitSelectionsInto3s);
        }
        if str_eq(name, "split_selections_into_4_s") {
            proof {
                assert(BufferAction::SplitSelectionsInto4s.spec_name() == name@);
                assert forall|b: Self| b.spec_name() == name@ implies b == BufferAction::SplitSelectionsInto4s by {
                    Self::lemma_names_distinct(b, BufferAction::SplitSelectionsInto4s);
                }
            }
            return Ok(BufferAction::SplitSelectionsInto4s);
        }
        if str_eq(name, "split_selections_into_5_s") {
            proof {
                assert(BufferAction::SplitSelectionsInto5s.spec_name() == name@);
                assert forall|b: Self| b.spec_name() == name@ implies b == BufferAction::SplitSelectionsInto5s by {
                    Self::lemma_names_distinct(b, BufferAction::SplitSelectionsInto5s);
                }
            }
            return Ok(BufferAction::SplitSelectionsInto5s);
        }
        if str_eq(name, "split_selections_into_6_s") {
            proof {
                assert(BufferAction::SplitSelectionsInto6s.spec_name() == name@);
                assert forall|b: Self| b.spec_name() == name@ implies b == BufferAction::SplitSelectionsInto6s by {
                    Self::lemma_names_distinct(b, BufferAction::SplitSelectionsInto6s);
                }
            }
            return Ok(BufferAction::SplitSelectionsInto6s);
        }
        if str_eq(name, "split_selections_into_7_s") {
            proof {
                assert(BufferAction::SplitSelectionsInto7s.spec_name() == name@);
                assert forall|b: Self| b.spec_name() == name@ implies b == BufferAction::SplitSelectionsInto7s by {
                    Self::lemma_names_distinct(b, BufferAction::SplitSelectionsInto7s);
                }
            }
            return Ok(BufferAction::SplitSelectionsInto7s);
        }
        if str_eq(name, "split_selections_into_8_s") {
            proof {
                assert(BufferAction::SplitSelectionsInto8s.spec_name() == name@);
                assert forall|b: Self| b.spec_name() == name@ implies b == BufferAction::SplitSelectionsInto8s by {
                    Self::lemma_names_distinct(b, BufferAction::SplitSelectionsInto8s);
                }
            }
            return Ok(BufferAction::SplitSelectionsInto8s);
        }
        if str_eq(name, "split_selections_into_9_s") {
            proof {
                assert(BufferAction::SplitSelectionsInto9s.spec_name() == name@);
                assert forall|b: Self| b.spec_name() == name@ implies b == BufferAction::SplitSelectionsInto9s by {
                    Self::lemma_names_distinct(b, BufferAction::SplitSelectionsInto9s);
                }
            }
            return Ok(BufferAction::SplitSelectionsInto9s);
        }
        if str_eq(name, "jump_to_selected_offset") {
            proof {
                assert(BufferAction::JumpToSelectedOffset.spec_name() == name@);
                assert forall|b: Self| b.spec_name() == name@ implies b == BufferAction::JumpToSelectedOffset by {
                    Self::lemma_names_distinct(b, BufferAction::JumpToSelectedOffset);
                }
            }
            return Ok(BufferAction::JumpToSelectedOffset);
        }
        if str_eq(name, "jump_to_selected_offset_relative_to_mark") {
            proof {
                assert(BufferAction::JumpToSelectedOffsetRelativeToMark.spec_name() == name@);
                assert forall|b: Self| b.spec_name() == name@ implies b == BufferAction::JumpToSelectedOffsetRelativeToMark by {
                    Self::lemma_names_distinct(b, BufferAction::JumpToSelectedOffsetRelativeToMark);
                }
            }
            return Ok(BufferAction::JumpToSelectedOffsetRelativeToMark);
        }
        if str_eq(name, "toggle_mark") {
            proof {
                assert(BufferAction::ToggleMark.spec_name() == name@);
                assert forall|b: Self| b.spec_name() == name@ implies b == BufferAction::ToggleMark by {
                    Self::lemma_names_distinct(b, BufferAction::ToggleMark);
                }
            }
            return Ok(BufferAction::ToggleMark);
        }
        if str_eq(name, "align_view_center") {
            proof {
                assert(BufferAction::AlignViewCenter.spec_name() == name@);
                assert forall|b: Self| b.spec_name() == name@ implies b == BufferAction::AlignViewCenter by {
                    Self::lemma_names_distinct(b, BufferAction::AlignViewCenter);
                }
            }
            return Ok(BufferAction::AlignViewCenter);
        }
        if str_eq(name, "align_view_bottom") {
            proof {
                assert(BufferAction::AlignViewBottom.spec_name() == name@);
                assert forall|b: Self| b.spec_name() == name@ implies b == BufferAction::AlignViewBottom by {
                    Self::lemma_names_distinct(b, BufferAction::AlignViewBottom);
                }
            }
            return Ok(BufferAction::AlignViewBottom);
        }
        if str_eq(name, "align_view_top") {
            proof {
                assert(BufferAction::AlignViewTop.spec_name() == name@);
                assert forall|b: Self| b.spec_name() == name@ implies b == BufferAction::AlignViewTop by {
                    Self::lemma_names_distinct(b, BufferAction::AlignViewTop);
                }
            }
            return Ok(BufferAction::AlignViewTop);
        }
        if str_eq(name, "extend_to_mark") {
            proof {
                assert(BufferAction::ExtendToMark.spec_name() == name@);
                assert forall|b: Self| b.spec_name() == name@ implies b == BufferAction::ExtendToMark by {
                    Self::lemma_names_distinct(b, BufferAction::ExtendToMark);
                }
            }
            return Ok(BufferAction::ExtendToMark);
        }
        if str_eq(name, "extend_to_null") {
            proof {
                assert(BufferAction::ExtendToNull.spec_name() == name@);
                assert forall|b: Self| b.spec_name() == name@ implies b == BufferAction::ExtendToNull by {
                    Self::lemma_names_distinct(b, BufferAction::ExtendToNull);
                }
            }
            return Ok(BufferAction::ExtendToNull);
        }
        if str_eq(name, "extend_to_ff") {
            proof {
                assert(BufferAction::ExtendToFF.spec_name() == name@);
                assert forall|b: Self| b.spec_name() == name@ implies b == BufferAction::ExtendToFF by {
                    Self::lemma_names_distinct(b, BufferAction::ExtendToFF);
                }
            }
            return Ok(BufferAction::ExtendToFF);
        }
        if str_eq(name, "inspect_selection") {
            proof {
                assert(BufferAction::InspectSelection.spec_name() == name@);
                assert forall|b: Self| b.spec_name() == name@ implies b == BufferAction::InspectSelection by {
                    Self::lemma_names_distinct(b, BufferAction::InspectSelection);
                }
            }
            return Ok(BufferAction::InspectSelection);
        }
        if str_eq(name, "inspect_selection_color") {
            proof {
                assert(BufferAction::InspectSelectionColor.spec_name() == name@);
                assert forall|b: Self| b.spec_name() == name@ implies b == BufferAction::InspectSelectionColor by {
                    Self::lemma_names_distinct(b, BufferAction::InspectSelectionColor);
                }
            }
            return Ok(BufferAction::InspectSelectionColor);
        }
        Err(())
    }
}

/// Actions that move or extend every cursor of the current buffer.
#[derive(Clone, Copy, Debug, PartialEq, Eq, Structural)]
pub enum CursorAction {
    MoveByteUp,
    MoveByteDown,
    MoveByteLeft,
    MoveByteRight,
    ExtendByteUp,
    ExtendByteDown,
    ExtendByteLeft,
    ExtendByteRight,
    GotoLineStart,
    GotoLineEnd,
    GotoFileStart,
    GotoFileEnd,
    MoveNextWordStart,
    MoveNextWordEnd,
    MovePreviousWordStart,
    ExtendNextWordStart,
    ExtendNextWordEnd,
    ExtendPreviousWordStart,
    ExtendLineBelow,
    ExtendLineAbove,
}

impl CursorAction {
    /// Whether performing this action closes the open popups.
    pub open spec fn spec_clears_popups(self) -> bool {
        true
    }

    pub fn clears_popups(self) -> (result: bool)
        ensures
            result == self.spec_clears_popups(),
    {
        match self {
            CursorAction::MoveByteUp => true,
            CursorAction::MoveByteDown => true,
            CursorAction::MoveByteLeft => true,
            CursorAction::MoveByteRight => true,
            CursorAction::ExtendByteUp => true,
            CursorAction::ExtendByteDown => true,
            CursorAction::ExtendByteLeft => true,
            CursorAction::ExtendByteRight => true,
            CursorAction::GotoLineStart => true,
            CursorAction::GotoLineEnd => true,
            CursorAction::GotoFileStart => true,
            CursorAction::GotoFileEnd => true,
            CursorAction::MoveNextWordStart => true,
            CursorAction::MoveNextWordEnd => true,
            CursorAction::MovePreviousWordStart => true,
            CursorAction::ExtendNextWordStart => true,
            CursorAction::ExtendNextWordEnd => true,
            CursorAction::ExtendPreviousWordStart => true,
            CursorAction::ExtendLineBelow => true,
            CursorAction::ExtendLineAbove => true,
        }
    }

    /// The name of this action in configuration files.
    pub open spec fn spec_name(self) -> Seq<char> {
        match self {
            CursorAction::MoveByteUp => "move_byte_up"@,
            CursorAction::MoveByteDown => "move_byte_down"@,
            CursorAction::MoveByteLeft => "move_byte_left"@,
            CursorAction::MoveByteRight => "move_byte_right"@,
            CursorAction::ExtendByteUp => "extend_byte_up"@,
            CursorAction::ExtendByteDown => "extend_byte_down"@,
            CursorAction::ExtendByteLeft => "extend_byte_left"@,
            CursorAction::ExtendByteRight => "extend_byte_right"@,
            CursorAction::GotoLineStart => "goto_line_start"@,
            CursorAction::GotoLineEnd => "goto_line_end"@,
            CursorAction::GotoFileStart => "goto_file_start"@,
            CursorAction::GotoFileEnd => "goto_file_end"@,
            CursorAction::MoveNextWordStart => "move_next_word_start"@,
            CursorAction::MoveNextWordEnd => "move_next_word_end"@,
            CursorAction::MovePreviousWordStart => "move_previous_word_start"@,
            CursorAction::ExtendNextWordStart => "extend_next_word_start"@,
            CursorAction::ExtendNextWordEnd => "extend_next_word_end"@,
            CursorAction::ExtendPreviousWordStart => "extend_previous_word_start"@,
            CursorAction::ExtendLineBelow => "extend_line_below"@,
            CursorAction::ExtendLineAbove => "extend_line_above"@,
        }
    }

    pub fn name(self) -> (result: &'static str)
        ensures
            result@ == self.spec_name(),
    {
        match self {
            CursorAction::MoveByteUp => "move_byte_up",
            CursorAction::MoveByteDown => "move_byte_down",
            CursorAction::MoveByteLeft => "move_byte_left",
            CursorAction::MoveByteRight => "move_byte_right",
            CursorAction::ExtendByteUp => "extend_byte_up",
            CursorAction::ExtendByteDown => "extend_byte_down",
            CursorAction::ExtendByteLeft => "extend_byte_left",
            CursorAction::ExtendByteRight => "extend_byte_right",
            CursorAction::GotoLineStart => "goto_line_start",
            CursorAction::GotoLineEnd => "goto_line_end",
            CursorAction::GotoFileStart => "goto_file_start",
            CursorAction::GotoFileEnd => "goto_file_end",
            CursorAction::MoveNextWordStart => "move_next_word_start",
            CursorAction::MoveNextWordEnd => "move_next_word_end",
            CursorAction::MovePreviousWordStart => "move_previous_word_start",
            CursorAction::ExtendNextWordStart => "extend_next_word_start",
            CursorAction::ExtendNextWordEnd => "extend_next_word_end",
            CursorAction::ExtendPreviousWordStart => "extend_previous_word_start",
            CursorAction::ExtendLineBelow => "extend_line_below",
            CursorAction::ExtendLineAbove => "extend_line_above",
        }
    }

    /// The action whose name has the given length and characters at
    /// the positions that `name_key` samples.
    pub open spec fn from_name_key(k: (int, char, char, char, char)) -> Option<Self> {
        if k == (12int, 'm', 'b', ' ', ' ') {
            Some(CursorAction::MoveByteUp)
        } else if k == (14int, 'm', 'b', 'w', ' ') {
            Some(CursorAction::MoveByteDown)
        } else if k == (14int, 'm', 'b', 'f', ' ') {
            Some(CursorAction::MoveByteLeft)
        } else if k == (15int, 'm', 'b', 'g', ' ') {
            Some(CursorAction::MoveByteRight)
        } else if k == (14int, 'e', 'd', 'u', ' ') {
            Some(CursorAction::ExtendByteUp)
        } else if k == (16int, 'e', 'd', 'd', ' ') {
            Some(CursorAction::ExtendByteDown)
        } else if k == (16int, 'e', 'd', 'l', ' ') {
            Some(CursorAction::ExtendByteLeft)
        } else if k == (17int, 'e', 'd', 'r', ' ') {
            Some(CursorAction::ExtendByteRight)
        } else if k == (15int, 'g', 'l', 'a', ' ') {
            Some(CursorAction::GotoLineStart)
        } else if k == (13int, 'g', 'l', 'd', ' ') {
            Some(CursorAction::GotoLineEnd)
        } else if k == (15int, 'g', 'f', 'a', ' ') {
            Some(CursorAction::GotoFileStart)
        } else if k == (13int, 'g', 'f', 'd', ' ') {
            Some(CursorAction::GotoFileEnd)
        } else if k == (20int, 'm', 'n', 'r', ' ') {
            Some(CursorAction::MoveNextWordStart)
        } else if k == (18int, 'm', 'n', 'r', ' ') {
            Some(CursorAction::MoveNextWordEnd)
        } else if k == (24int, 'm', 'p', 's', 'r') {
            Some(CursorAction::MovePreviousWordStart)
        } else if k == (22int, 'e', 'd', 'w', ' ') {
            Some(CursorAction::ExtendNextWordStart)
        } else if k == (20int, 'e', 'd', 'w', ' ') {
            Some(CursorAction::ExtendNextWordEnd)
        } else if k == (26int, 'e', 'd', 'o', 't') {
            Some(CursorAction::ExtendPreviousWordStart)
        } else if k == (17int, 'e', 'd', 'b', ' ') {
            Some(CursorAction::ExtendLineBelow)
        } else if k == (17int, 'e', 'd', 'a', ' ') {
            Some(CursorAction::ExtendLineAbove)
        } else {
            None
        }
    }

    proof fn lemma_name_key(a: Self)
        ensures
            Self::from_name_key(name_key(a.spec_name())) == Some(a),
    {
        broadcast use vstd::string::group_string_axioms;

        reveal_strlit("move_byte_up");
        reveal_strlit("move_byte_down");
        reveal_strlit("move_byte_left");
        reveal_strlit("move_byte_right");
        reveal_strlit("extend_byte_up");
        reveal_strlit("extend_byte_down");
        reveal_strlit("extend_byte_left");
        reveal_strlit("extend_byte_right");
        reveal_strlit("goto_line_start");
        reveal_strlit("goto_line_end");
        reveal_strlit("goto_file_start");
        reveal_strlit("goto_file_end");
        reveal_strlit("move_next_word_start");
        reveal_strlit("move_next_word_end");
        reveal_strlit("move_previous_word_start");
        reveal_strlit("extend_next_word_start");
        reveal_strlit("extend_next_word_end");
        reveal_strlit("extend_previous_word_start");
        reveal_strlit("extend_line_below");
        reveal_strlit("extend_line_above");
    }

    /// No two actions share a name.
    pub proof fn lemma_names_distinct(a: Self, b: Self)
        requires
            a.spec_name() == b.spec_name(),
        ensures
            a == b,
    {
        Self::lemma_name_key(a);
        Self::lemma_name_key(b);
    }

    /// The action named `name`, if there is one.
    pub fn from_name(name: &str) -> (result: Result<Self, ()>)
        ensures
            forall|a: Self| (result == Ok::<Self, ()>(a)) <==> a.spec_name() == name@,
            result is Err <==> forall|a: Self| a.spec_name() != name@,
    {
        if str_eq(name, "move_byte_up") {
            proof {
                assert(CursorAction::MoveByteUp.spec_name() == name@);
                assert forall|b: Self| b.spec_name() == name@ implies b == CursorAction::MoveByteUp by {
                    Self::lemma_names_distinct(b, CursorAction::MoveByteUp);
                }
            }
            return Ok(CursorAction::MoveByteUp);
        }
        if str_eq(name, "move_byte_down") {
            proof {
                assert(CursorAction::MoveByteDown.spec_name() == name@);
                assert forall|b: Self| b.spec_name() == name@ implies b == CursorAction::MoveByteDown by {
                    Self::lemma_names_distinct(b, CursorAction::MoveByteDown);
                }
            }
            return Ok(CursorAction::MoveByteDown);
        }
        if str_eq(name, "move_byte_left") {
            proof {
                assert(CursorAction::MoveByteLeft.spec_name() == name@);
                assert forall|b: Self| b.spec_name() == name@ implies b == CursorAction::MoveByteLeft by {
                    Self::lemma_names_distinct(b, CursorAction::MoveByteLeft);
                }
            }
            return Ok(CursorAction::MoveByteLeft);
        }
        if str_eq(name, "move_byte_right") {
            proof {
                assert(CursorAction::MoveByteRight.spec_name() == name@);
                assert forall|b: Self| b.spec_name() == name@ implies b == CursorAction::MoveByteRight by {
                    Self::lemma_names_distinct(b, CursorAction::MoveByteRight);
                }
            }
            return Ok(CursorAction::MoveByteRight);
        }
        if str_eq(name, "extend_byte_up") {
            proof {
                assert(CursorAction::ExtendByteUp.spec_name() == name@);
                assert forall|b: Self| b.spec_name() == name@ implies b == CursorAction::ExtendByteUp by {
                    Self::lemma_names_distinct(b, CursorAction::ExtendByteUp);
                }
            }
            return Ok(CursorAction::ExtendByteUp);
        }
        if str_eq(name, "extend_byte_down") {
            proof {
                assert(CursorAction::ExtendByteDown.spec_name() == name@);
                assert forall|b: Self| b.spec_name() == name@ implies b == CursorAction::ExtendByteDown by {
                    Self::lemma_names_distinct(b, CursorAction::ExtendByteDown);
                }
            }
            return Ok(CursorAction::ExtendByteDown);
        }
        if str_eq(name, "extend_byte_left") {
            proof {
                assert(CursorAction::ExtendByteLeft.spec_name() == name@);
                assert forall|b: Self| b.spec_name() == name@ implies b == CursorAction::ExtendByteLeft by {
                    Self::lemma_names_distinct(b, CursorAction::ExtendByteLeft);
                }
            }
            return Ok(CursorAction::ExtendByteLeft);
        }
        if str_eq(name, "extend_byte_right") {
            proof {
                assert(CursorAction::ExtendByteRight.spec_name() == name@);
                assert forall|b: Self| b.spec_name() == name@ implies b == CursorAction::ExtendByteRight by {
                    Self::lemma_names_distinct(b, CursorAction::ExtendByteRight);
                }
            }
            return Ok(CursorAction::ExtendByteRight);
        }
        if str_eq(name, "goto_line_start") {
            proof {
                assert(CursorAction::GotoLineStart.spec_name() == name@);
                assert forall|b: Self| b.spec_name() == name@ implies b == CursorAction::GotoLineStart by {
                    Self::lemma_names_distinct(b, CursorAction::GotoLineStart);
                }
            }
            return Ok(CursorAction::GotoLineStart);
        }
        if str_eq(name, "goto_line_end") {
            proof {
                assert(CursorAction::GotoLineEnd.spec_name() == name@);
                assert forall|b: Self| b.spec_name() == name@ implies b == CursorAction::GotoLineEnd by {
                    Self::lemma_names_distinct(b, CursorAction::GotoLineEnd);
                }
            }
            return Ok(CursorAction::GotoLineEnd);
        }
        if str_eq(name, "goto_file_start") {
            proof {
                assert(CursorAction::GotoFileStart.spec_name() == name@);
                assert forall|b: Self| b.spec_name() == name@ implies b == CursorAction::GotoFileStart by {
                    Self::lemma_names_distinct(b, CursorAction::GotoFileStart);
                }
            }
            return Ok(CursorAction::GotoFileStart);
        }
        if str_eq(name, "goto_file_end") {
            proof {
                assert(CursorAction::GotoFileEnd.spec_name() == name@);
                assert forall|b: Self| b.spec_name() == name@ implies b == CursorAction::GotoFileEnd by {
                    Self::lemma_names_distinct(b, CursorAction::GotoFileEnd);
                }
            }
            return Ok(CursorAction::GotoFileEnd);
        }
        if str_eq(name, "move_next_word_start") {
            proof {
                assert(CursorAction::MoveNextWordStart.spec_name() == name@);
                assert forall|b: Self| b.spec_name() == name@ implies b == CursorAction::MoveNextWordStart by {
                    Self::lemma_names_distinct(b, CursorAction::MoveNextWordStart);
                }
            }
            return Ok(CursorAction::MoveNextWordStart);
        }
        if str_eq(name, "move_next_word_end") {
            proof {
                assert(CursorAction::MoveNextWordEnd.spec_name() == name@);
                assert forall|b: Self| b.spec_name() == name@ implies b == CursorAction::MoveNextWordEnd by {
                    Self::lemma_names_distinct(b, CursorAction::MoveNextWordEnd);
                }
            }
            return Ok(CursorAction::MoveNextWordEnd);
        }
        if str_eq(name, "move_previous_word_start") {
            proof {
                assert(CursorAction::MovePreviousWordStart.spec_name() == name@);
                assert forall|b: Self| b.spec_name() == name@ implies b == CursorAction::MovePreviousWordStart by {
                    Self::lemma_names_distinct(b, CursorAction::MovePreviousWordStart);
                }
            }
            return Ok(CursorAction::MovePreviousWordStart);
        }
        if str_eq(name, "extend_next_word_start") {
            proof {
                assert(CursorAction::ExtendNextWordStart.spec_name() == name@);
                assert forall|b: Self| b.spec_name() == name@ implies b == CursorAction::ExtendNextWordStart by {
                    Self::lemma_names_distinct(b, CursorAction::ExtendNextWordStart);
                }
            }
            return Ok(CursorAction::ExtendNextWordStart);
        }
        if str_eq(name, "extend_next_word_end") {
            proof {
                assert(CursorAction::ExtendNextWordEnd.spec_name() == name@);
                assert forall|b: Self| b.spec_name() == name@ implies b == CursorAction::ExtendNextWordEnd by {
                    Self::lemma_names_distinct(b, CursorAction::ExtendNextWordEnd);
                }
            }
            return Ok(CursorAction::ExtendNextWordEnd);
        }
        if str_eq(name, "extend_previous_word_start") {
            proof {
                assert(CursorAction::ExtendPreviousWordStart.spec_name() == name@);
                assert forall|b: Self| b.spec_name() == name@ implies b == CursorAction::ExtendPreviousWordStart by {
                    Self::lemma_names_distinct(b, CursorAction::ExtendPreviousWordStart);
                }
            }
            return Ok(CursorAction::ExtendPreviousWordStart);
        }
        if str_eq(name, "extend_line_below") {
            proof {
                assert(CursorAction::ExtendLineBelow.spec_name() == name@);
                assert forall|b: Self| b.spec_name() == name@ implies b == CursorAction::ExtendLineBelow by {
                    Self::lemma_names_distinct(b, CursorAction::ExtendLineBelow);
                }
            }
            return Ok(CursorAction::ExtendLineBelow);
        }
        if str_eq(name, "extend_line_above") {
            proof {
                assert(CursorAction::ExtendLineAbove.spec_name() == name@);
                assert forall|b: Self| b.spec_name() == name@ implies b == CursorAction::ExtendLineAbove by {
                    Self::lemma_names_distinct(b, CursorAction::ExtendLineAbove);
                }
            }
            return Ok(CursorAction::ExtendLineAbove);
        }
        Err(())
    }
}
} // verus!
