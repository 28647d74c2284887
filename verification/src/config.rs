use vstd::prelude::*;
use crate::action::{Action, AppAction, BufferAction, CursorAction};
use crate::buffer::{Mode, PartialAction};
use crate::keypress::{ALT, CONTROL, KeyCode, Keypress, NONE};

verus! {

/// One key binding: in `mode`, while `partial_action` waits (or when none
/// does), `keypress` performs `action`.
#[derive(Clone, Copy, Debug, PartialEq, Eq, Structural)]
pub struct Binding {
    pub mode: Mode,
    pub partial_action: Option<PartialAction>,
    pub keypress: Keypress,
    pub action: Action,
}

/// The key bindings. A later binding for the same mode, partial action and
/// keypress overrides an earlier one.
pub struct Config {
    pub bindings: Vec<Binding>,
}

pub open spec fn binding(
    mode: Mode,
    partial_action: Option<PartialAction>,
    code: KeyCode,
    modifiers: u8,
    action: Action,
) -> Binding {
    Binding { mode, partial_action, keypress: Keypress { code, modifiers }, action }
}

fn make_binding(
    mode: Mode,
    partial_action: Option<PartialAction>,
    code: KeyCode,
    modifiers: u8,
    action: Action,
) -> (result: Binding)
    ensures
        result == binding(mode, partial_action, code, modifiers, action),
{
    Binding { mode, partial_action, keypress: Keypress { code, modifiers }, action }
}

/// Whether a binding answers to the given state and keypress.
pub open spec fn binding_matches(
    binding: Binding,
    mode: Mode,
    partial_action: Option<PartialAction>,
    keypress: Keypress,
) -> bool {
    binding.mode == mode && binding.partial_action == partial_action && binding.keypress == keypress
}

/// The action of the last binding among `bindings` that answers to the
/// given state and keypress.
pub open spec fn spec_lookup(
    bindings: Seq<Binding>,
    mode: Mode,
    partial_action: Option<PartialAction>,
    keypress: Keypress,
) -> Option<Action>
    decreases bindings.len(),
{
    if bindings.len() == 0 {
        None
    } else if binding_matches(bindings.last(), mode, partial_action, keypress) {
        Some(bindings.last().action)
    } else {
        spec_lookup(bindings.drop_last(), mode, partial_action, keypress)
    }
}

fn same_partial_action(a: Option<PartialAction>, b: Option<PartialAction>) -> (result: bool)
    ensures
        result == (a == b),
{
    match (a, b) {
        (None, None) => true,
        (Some(x), Some(y)) => x == y,
        _ => false,
    }
}

impl Config {
    /// The action bound to `keypress` in `mode` while `partial_action` waits.
    pub fn lookup(&self, mode: Mode, partial_action: Option<PartialAction>, keypress: Keypress) -> (result: Option<Action>)
        ensures
            result == spec_lookup(self.bindings@, mode, partial_action, keypress),
    {
        let mut index = self.bindings.len();
        assert(self.bindings@.take(index as int) =~= self.bindings@);
        while index > 0
            invariant
                index <= self.bindings@.len(),
                spec_lookup(self.bindings@, mode, partial_action, keypress) == spec_lookup(
                    self.bindings@.take(index as int),
                    mode,
                    partial_action,
                    keypress,
                ),
            decreases index,
        {
            let candidate = self.bindings[index - 1];
            let ghost prefix = self.bindings@.take(index as int);
            assert(prefix.last() == candidate);
            assert(prefix.drop_last() =~= self.bindings@.take(index - 1));
            if candidate.mode == mode && same_partial_action(candidate.partial_action, partial_action)
                && candidate.keypress == keypress {
                return Some(candidate.action);
            }
            index -= 1;
        }
        None
    }

    /// Adds a binding; it overrides any earlier one for the same mode,
    /// partial action and keypress.
    pub fn bind(&mut self, binding: Binding)
        ensures
            final(self).bindings@ == old(self).bindings@.push(binding),
    {
        self.bindings.push(binding);
    }

    /// The bindings that the editor starts with.
    pub open spec fn spec_default() -> Seq<Binding> {
        default_normal_plain() + default_normal_goto() + default_normal_view() + default_normal_space()
            + default_normal_repeat() + default_normal_to() + default_select_plain() + default_select_view()
            + default_select_space() + default_select_repeat() + default_select_to()
    }

    pub fn default() -> (result: Self)
        ensures
            result.bindings@ == Self::spec_default(),
    {
        let mut bindings: Vec<Binding> = Vec::new();
        push_default_normal_plain(&mut bindings);
        push_default_normal_goto(&mut bindings);
        push_default_normal_view(&mut bindings);
        push_default_normal_space(&mut bindings);
        push_default_normal_repeat(&mut bindings);
        push_default_normal_to(&mut bindings);
        push_default_select_plain(&mut bindings);
        push_default_select_view(&mut bindings);
        push_default_select_space(&mut bindings);
        push_default_select_repeat(&mut bindings);
        push_default_select_to(&mut bindings);
        assert(bindings@ =~= Self::spec_default());
        Config { bindings }
    }
}

/// The default bindings of normal mode.
pub open spec fn default_normal_plain() -> Seq<Binding> {
    seq![
        binding(Mode::Normal, None, KeyCode::Char('q'), NONE, Action::App(AppAction::QuitIfSaved)),
        binding(Mode::Normal, None, KeyCode::Char('Q'), NONE, Action::App(AppAction::Quit)),
        binding(Mode::Normal, None, KeyCode::Char('v'), NONE, Action::Buffer(BufferAction::SelectMode)),
        binding(Mode::Normal, None, KeyCode::Char('g'), NONE, Action::Buffer(BufferAction::Goto)),
        binding(Mode::Normal, None, KeyCode::Char('z'), NONE, Action::Buffer(BufferAction::View)),
        binding(Mode::Normal, None, KeyCode::Char('r'), NONE, Action::Buffer(BufferAction::Replace)),
        binding(Mode::Normal, None, KeyCode::Char(' '), NONE, Action::Buffer(BufferAction::Space)),
        binding(Mode::Normal, None, KeyCode::Char('*'), NONE, Action::Buffer(BufferAction::Repeat)),
        binding(Mode::Normal, None, KeyCode::Char('t'), NONE, Action::Buffer(BufferAction::To)),
        binding(Mode::Normal, None, KeyCode::Char('i'), NONE, Action::Cursor(CursorAction::MoveByteUp)),
        binding(Mode::Normal, None, KeyCode::Char('k'), NONE, Action::Cursor(CursorAction::MoveByteDown)),
        binding(Mode::Normal, None, KeyCode::Char('j'), NONE, Action::Cursor(CursorAction::MoveByteLeft)),
        binding(Mode::Normal, None, KeyCode::Char('l'), NONE, Action::Cursor(CursorAction::MoveByteRight)),
        binding(Mode::Normal, None, KeyCode::Up, NONE, Action::Cursor(CursorAction::MoveByteUp)),
        binding(Mode::Normal, None, KeyCode::Down, NONE, Action::Cursor(CursorAction::MoveByteDown)),
        binding(Mode::Normal, None, KeyCode::Left, NONE, Action::Cursor(CursorAction::MoveByteLeft)),
        binding(Mode::Normal, None, KeyCode::Right, NONE, Action::Cursor(CursorAction::MoveByteRight)),
        binding(Mode::Normal, None, KeyCode::Char('G'), NONE, Action::Cursor(CursorAction::GotoFileEnd)),
        binding(Mode::Normal, None, KeyCode::Char('e'), CONTROL, Action::Buffer(BufferAction::ScrollDown)),
        binding(Mode::Normal, None, KeyCode::Char('y'), CONTROL, Action::Buffer(BufferAction::ScrollUp)),
        binding(Mode::Normal, None, KeyCode::Char('d'), CONTROL, Action::Buffer(BufferAction::PageCursorHalfDown)),
        binding(Mode::Normal, None, KeyCode::Char('u'), CONTROL, Action::Buffer(BufferAction::PageCursorHalfUp)),
        binding(Mode::Normal, None, KeyCode::Char('f'), CONTROL, Action::Buffer(BufferAction::PageDown)),
        binding(Mode::Normal, None, KeyCode::Char('b'), CONTROL, Action::Buffer(BufferAction::PageUp)),
        binding(Mode::Normal, None, KeyCode::Char('w'), NONE, Action::Cursor(CursorAction::MoveNextWordStart)),
        binding(Mode::Normal, None, KeyCode::Char('e'), NONE, Action::Cursor(CursorAction::MoveNextWordEnd)),
        binding(Mode::Normal, None, KeyCode::Char('b'), NONE, Action::Cursor(CursorAction::MovePreviousWordStart)),
        binding(Mode::Normal, None, KeyCode::Char(';'), NONE, Action::Buffer(BufferAction::CollapseSelection)),
        binding(Mode::Normal, None, KeyCode::Char(';'), ALT, Action::Buffer(BufferAction::FlipSelections)),
        binding(Mode::Normal, None, KeyCode::Char('x'), NONE, Action::Cursor(CursorAction::ExtendLineBelow)),
        binding(Mode::Normal, None, KeyCode::Char('X'), NONE, Action::Cursor(CursorAction::ExtendLineAbove)),
        binding(Mode::Normal, None, KeyCode::Char('d'), NONE, Action::Buffer(BufferAction::Delete)),
        binding(Mode::Normal, None, KeyCode::Char('u'), NONE, Action::Buffer(BufferAction::Undo)),
        binding(Mode::Normal, None, KeyCode::Char('U'), NONE, Action::Buffer(BufferAction::Redo)),
        binding(Mode::Normal, None, KeyCode::Char('j'), CONTROL, Action::App(AppAction::PreviousBuffer)),
        binding(Mode::Normal, None, KeyCode::Char('l'), CONTROL, Action::App(AppAction::NextBuffer)),
        binding(Mode::Normal, None, KeyCode::Char('C'), NONE, Action::Buffer(BufferAction::CopySelectionOnNextLine)),
        binding(Mode::Normal, None, KeyCode::Char('('), NONE, Action::Buffer(BufferAction::RotateSelectionsBackward)),
        binding(Mode::Normal, None, KeyCode::Char(')'), NONE, Action::Buffer(BufferAction::RotateSelectionsForward)),
        binding(Mode::Normal, None, KeyCode::Char(','), NONE, Action::Buffer(BufferAction::KeepPrimarySelection)),
        binding(Mode::Normal, None, KeyCode::Char(','), ALT, Action::Buffer(BufferAction::RemovePrimarySelection)),
        binding(Mode::Normal, None, KeyCode::Char('1'), NONE, Action::Buffer(BufferAction::SplitSelectionsInto1s)),
        binding(Mode::Normal, None, KeyCode::Char('2'), NONE, Action::Buffer(BufferAction::SplitSelectionsInto2s)),
        binding(Mode::Normal, None, KeyCode::Char('3'), NONE, Action::Buffer(BufferAction::SplitSelectionsInto3s)),
        binding(Mode::Normal, None, KeyCode::Char('4'), NONE, Action::Buffer(BufferAction::SplitSelectionsInto4s)),
        binding(Mode::Normal, None, KeyCode::Char('5'), NONE, Action::Buffer(BufferAction::SplitSelectionsInto5s)),
        binding(Mode::Normal, None, KeyCode::Char('6'), NONE, Action::Buffer(BufferAction::SplitSelectionsInto6s)),
        binding(Mode::Normal, None, KeyCode::Char('7'), NONE, Action::Buffer(BufferAction::SplitSelectionsInto7s)),
        binding(Mode::Normal, None, KeyCode::Char('8'), NONE, Action::Buffer(BufferAction::SplitSelectionsInto8s)),
        binding(Mode::Normal, None, KeyCode::Char('9'), NONE, Action::Buffer(BufferAction::SplitSelectionsInto9s)),
        binding(Mode::Normal, None, KeyCode::Char('J'), NONE, Action::Buffer(BufferAction::JumpToSelectedOffsetRelativeToMark)),
        binding(Mode::Normal, None, KeyCode::Char('J'), ALT, Action::Buffer(BufferAction::JumpToSelectedOffset)),
        binding(Mode::Normal, None, KeyCode::Char('m'), NONE, Action::Buffer(BufferAction::ToggleMark)),
        binding(Mode::Normal, None, KeyCode::Char('y'), NONE, Action::App(AppAction::Yank)),
        binding(Mode::Normal, None, KeyCode::Char(' '), CONTROL, Action::Buffer(BufferAction::InspectSelection)),
        binding(Mode::Normal, None, KeyCode::Char(' '), ALT, Action::Buffer(BufferAction::InspectSelectionColor)),
    ]
}

/// The default bindings of normal mode after the goto key.
pub open spec fn default_normal_goto() -> Seq<Binding> {
    seq![
        binding(Mode::Normal, Some(PartialAction::Goto), KeyCode::Char('j'), NONE, Action::Cursor(CursorAction::GotoLineStart)),
        binding(Mode::Normal, Some(PartialAction::Goto), KeyCode::Char('l'), NONE, Action::Cursor(CursorAction::GotoLineEnd)),
        binding(Mode::Normal, Some(PartialAction::Goto), KeyCode::Char('g'), NONE, Action::Cursor(CursorAction::GotoFileStart)),
    ]
}

/// The default bindings of normal mode after the view key.
pub open spec fn default_normal_view() -> Seq<Binding> {
    seq![
        binding(Mode::Normal, Some(PartialAction::View), KeyCode::Char('z'), NONE, Action::Buffer(BufferAction::AlignViewCenter)),
        binding(Mode::Normal, Some(PartialAction::View), KeyCode::Char('b'), NONE, Action::Buffer(BufferAction::AlignViewBottom)),
        binding(Mode::Normal, Some(PartialAction::View), KeyCode::Char('t'), NONE, Action::Buffer(BufferAction::AlignViewTop)),
    ]
}

/// The default bindings of normal mode after the space key.
pub open spec fn default_normal_space() -> Seq<Binding> {
    seq![
        binding(Mode::Normal, Some(PartialAction::Space), KeyCode::Char('w'), NONE, Action::Buffer(BufferAction::Save)),
    ]
}

/// The default bindings of normal mode after the repeat key.
pub open spec fn default_normal_repeat() -> Seq<Binding> {
    seq![
        binding(Mode::Normal, Some(PartialAction::Repeat), KeyCode::Char('i'), NONE, Action::Cursor(CursorAction::MoveByteUp)),
        binding(Mode::Normal, Some(PartialAction::Repeat), KeyCode::Char('k'), NONE, Action::Cursor(CursorAction::MoveByteDown)),
        binding(Mode::Normal, Some(PartialAction::Repeat), KeyCode::Char('j'), NONE, Action::Cursor(CursorAction::MoveByteLeft)),
        binding(Mode::Normal, Some(PartialAction::Repeat), KeyCode::Char('l'), NONE, Action::Cursor(CursorAction::MoveByteRight)),
        binding(Mode::Normal, Some(PartialAction::Repeat), KeyCode::Up, NONE, Action::Cursor(CursorAction::MoveByteUp)),
        binding(Mode::Normal, Some(PartialAction::Repeat), KeyCode::Down, NONE, Action::Cursor(CursorAction::MoveByteDown)),
        binding(Mode::Normal, Some(PartialAction::Repeat), KeyCode::Left, NONE, Action::Cursor(CursorAction::MoveByteLeft)),
        binding(Mode::Normal, Some(PartialAction::Repeat), KeyCode::Right, NONE, Action::Cursor(CursorAction::MoveByteRight)),
        binding(Mode::Normal, Some(PartialAction::Repeat), KeyCode::Char('e'), CONTROL, Action::Buffer(BufferAction::ScrollDown)),
        binding(Mode::Normal, Some(PartialAction::Repeat), KeyCode::Char('y'), CONTROL, Action::Buffer(BufferAction::ScrollUp)),
        binding(Mode::Normal, Some(PartialAction::Repeat), KeyCode::Char('d'), CONTROL, Action::Buffer(BufferAction::PageCursorHalfDown)),
        binding(Mode::Normal, Some(PartialAction::Repeat), KeyCode::Char('u'), CONTROL, Action::Buffer(BufferAction::PageCursorHalfUp)),
        binding(Mode::Normal, Some(PartialAction::Repeat), KeyCode::Char('f'), CONTROL, Action::Buffer(BufferAction::PageDown)),
        binding(Mode::Normal, Some(PartialAction::Repeat), KeyCode::Char('b'), CONTROL, Action::Buffer(BufferAction::PageUp)),
        binding(Mode::Normal, Some(PartialAction::Repeat), KeyCode::Char('w'), NONE, Action::Cursor(CursorAction::MoveNextWordStart)),
        binding(Mode::Normal, Some(PartialAction::Repeat), KeyCode::Char('e'), NONE, Action::Cursor(CursorAction::MoveNextWordEnd)),
        binding(Mode::Normal, Some(PartialAction::Repeat), KeyCode::Char('b'), NONE, Action::Cursor(CursorAction::MovePreviousWordStart)),
        binding(Mode::Normal, Some(PartialAction::Repeat), KeyCode::Char('x'), NONE, Action::Cursor(CursorAction::ExtendLineBelow)),
        binding(Mode::Normal, Some(PartialAction::Repeat), KeyCode::Char('X'), NONE, Action::Cursor(CursorAction::ExtendLineAbove)),
        binding(Mode::Normal, Some(PartialAction::Repeat), KeyCode::Char('d'), NONE, Action::Buffer(BufferAction::Delete)),
        binding(Mode::Normal, Some(PartialAction::Repeat), KeyCode::Char('C'), NONE, Action::Buffer(BufferAction::CopySelectionOnNextLine)),
    ]
}

/// The default bindings of normal mode after the to key.
pub open spec fn default_normal_to() -> Seq<Binding> {
    seq![
        binding(Mode::Normal, Some(PartialAction::To), KeyCode::Char('m'), NONE, Action::Buffer(BufferAction::ExtendToMark)),
        binding(Mode::Normal, Some(PartialAction::To), KeyCode::Char('0'), NONE, Action::Buffer(BufferAction::ExtendToNull)),
        binding(Mode::Normal, Some(PartialAction::To), KeyCode::Char('f'), NONE, Action::Buffer(BufferAction::ExtendToFF)),
    ]
}

/// The default bindings of select mode.
pub open spec fn default_select_plain() -> Seq<Binding> {
    seq![
        binding(Mode::Select, None, KeyCode::Char('q'), NONE, Action::App(AppAction::QuitIfSaved)),
        binding(Mode::Select, None, KeyCode::Char('Q'), NONE, Action::App(AppAction::Quit)),
        binding(Mode::Select, None, KeyCode::Char('v'), NONE, Action::Buffer(BufferAction::NormalMode)),
        binding(Mode::Select, None, KeyCode::Char('g'), NONE, Action::Buffer(BufferAction::Goto)),
        binding(Mode::Select, None, KeyCode::Char('z'), NONE, Action::Buffer(BufferAction::View)),
        binding(Mode::Select, None, KeyCode::Char('r'), NONE, Action::Buffer(BufferAction::Replace)),
        binding(Mode::Select, None, KeyCode::Char(' '), NONE, Action::Buffer(BufferAction::Space)),
        binding(Mode::Select, None, KeyCode::Char('*'), NONE, Action::Buffer(BufferAction::Repeat)),
        binding(Mode::Select, None, KeyCode::Char('t'), NONE, Action::Buffer(BufferAction::To)),
        binding(Mode::Select, None, KeyCode::Char('i'), NONE, Action::Cursor(CursorAction::ExtendByteUp)),
        binding(Mode::Select, None, KeyCode::Char('k'), NONE, Action::Cursor(CursorAction::ExtendByteDown)),
        binding(Mode::Select, None, KeyCode::Char('j'), NONE, Action::Cursor(CursorAction::ExtendByteLeft)),
        binding(Mode::Select, None, KeyCode::Char('l'), NONE, Action::Cursor(CursorAction::ExtendByteRight)),
        binding(Mode::Select, None, KeyCode::Up, NONE, Action::Cursor(CursorAction::ExtendByteUp)),
        binding(Mode::Select, None, KeyCode::Down, NONE, Action::Cursor(CursorAction::ExtendByteDown)),
        binding(Mode::Select, None, KeyCode::Left, NONE, Action::Cursor(CursorAction::ExtendByteLeft)),
        binding(Mode::Select, None, KeyCode::Right, NONE, Action::Cursor(CursorAction::ExtendByteRight)),
        binding(Mode::Select, None, KeyCode::Char('e'), CONTROL, Action::Buffer(BufferAction::ScrollDown)),
        binding(Mode::Select, None, KeyCode::Char('y'), CONTROL, Action::Buffer(BufferAction::ScrollUp)),
        binding(Mode::Select, None, KeyCode::Char('d'), CONTROL, Action::Buffer(BufferAction::PageCursorHalfDown)),
        binding(Mode::Select, None, KeyCode::Char('u'), CONTROL, Action::Buffer(BufferAction::PageCursorHalfUp)),
        binding(Mode::Select, None, KeyCode::Char('f'), CONTROL, Action::Buffer(BufferAction::PageDown)),
        binding(Mode::Select, None, KeyCode::Char('b'), CONTROL, Action::Buffer(BufferAction::PageUp)),
        binding(Mode::Select, None, KeyCode::Char('w'), NONE, Action::Cursor(CursorAction::ExtendNextWordStart)),
        binding(Mode::Select, None, KeyCode::Char('e'), NONE, Action::Cursor(CursorAction::ExtendNextWordEnd)),
        binding(Mode::Select, None, KeyCode::Char('b'), NONE, Action::Cursor(CursorAction::ExtendPreviousWordStart)),
        binding(Mode::Select, None, KeyCode::Char(';'), NONE, Action::Buffer(BufferAction::CollapseSelection)),
        binding(Mode::Select, None, KeyCode::Char(';'), ALT, Action::Buffer(BufferAction::FlipSelections)),
        binding(Mode::Select, None, KeyCode::Char('x'), NONE, Action::Cursor(CursorAction::ExtendLineBelow)),
        binding(Mode::Select, None, KeyCode::Char('X'), NONE, Action::Cursor(CursorAction::ExtendLineAbove)),
        binding(Mode::Select, None, KeyCode::Char('d'), NONE, Action::Buffer(BufferAction::Delete)),
        binding(Mode::Select, None, KeyCode::Char('u'), NONE, Action::Buffer(BufferAction::Undo)),
        binding(Mode::Select, None, KeyCode::Char('U'), NONE, Action::Buffer(BufferAction::Redo)),
        binding(Mode::Select, None, KeyCode::Char('C'), NONE, Action::Buffer(BufferAction::CopySelectionOnNextLine)),
        binding(Mode::Select, None, KeyCode::Char('('), NONE, Action::Buffer(BufferAction::RotateSelectionsBackward)),
        binding(Mode::Select, None, KeyCode::Char(')'), NONE, Action::Buffer(BufferAction::RotateSelectionsForward)),
        binding(Mode::Select, None, KeyCode::Char(','), NONE, Action::Buffer(BufferAction::KeepPrimarySelection)),
        binding(Mode::Select, None, KeyCode::Char(','), ALT, Action::Buffer(BufferAction::RemovePrimarySelection)),
        binding(Mode::Select, None, KeyCode::Char('1'), NONE, Action::Buffer(BufferAction::SplitSelectionsInto1s)),
        binding(Mode::Select, None, KeyCode::Char('2'), NONE, Action::Buffer(BufferAction::SplitSelectionsInto2s)),
        binding(Mode::Select, None, KeyCode::Char('3'), NONE, Action::Buffer(BufferAction::SplitSelectionsInto3s)),
        binding(Mode::Select, None, KeyCode::Char('4'), NONE, Action::Buffer(BufferAction::SplitSelectionsInto4s)),
        binding(Mode::Select, None, KeyCode::Char('5'), NONE, Action::Buffer(BufferAction::SplitSelectionsInto5s)),
        binding(Mode::Select, None, KeyCode::Char('6'), NONE, Action::Buffer(BufferAction::SplitSelectionsInto6s)),
        binding(Mode::Select, None, KeyCode::Char('7'), NONE, Action::Buffer(BufferAction::SplitSelectionsInto7s)),
        binding(Mode::Select, None, KeyCode::Char('8'), NONE, Action::Buffer(BufferAction::SplitSelectionsInto8s)),
        binding(Mode::Select, None, KeyCode::Char('9'), NONE, Action::Buffer(BufferAction::SplitSelectionsInto9s)),
        binding(Mode::Select, None, KeyCode::Char('J'), NONE, Action::Buffer(BufferAction::JumpToSelectedOffsetRelativeToMark)),
        binding(Mode::Select, None, KeyCode::Char('J'), ALT, Action::Buffer(BufferAction::JumpToSelectedOffset)),
        binding(Mode::Select, None, KeyCode::Char('m'), NONE, Action::Buffer(BufferAction::ToggleMark)),
        binding(Mode::Select, None, KeyCode::Char('y'), NONE, Action::App(AppAction::Yank)),
        binding(Mode::Select, None, KeyCode::Char(' '), CONTROL, Action::Buffer(BufferAction::InspectSelection)),
        binding(Mode::Select, None, KeyCode::Char(' '), ALT, Action::Buffer(BufferAction::InspectSelectionColor)),
    ]
}

/// The default bindings of select mode after the view key.
pub open spec fn default_select_view() -> Seq<Binding> {
    seq![
        binding(Mode::Select, Some(PartialAction::View), KeyCode::Char('z'), NONE, Action::Buffer(BufferAction::AlignViewCenter)),
        binding(Mode::Select, Some(PartialAction::View), KeyCode::Char('b'), NONE, Action::Buffer(BufferAction::AlignViewBottom)),
        binding(Mode::Select, Some(PartialAction::View), KeyCode::Char('t'), NONE, Action::Buffer(BufferAction::AlignViewTop)),
    ]
}

/// The default bindings of select mode after the space key.
pub open spec fn default_select_space() -> Seq<Binding> {
    seq![
        binding(Mode::Select, Some(PartialAction::Space), KeyCode::Char('w'), NONE, Action::Buffer(BufferAction::Save)),
    ]
}

/// The default bindings of select mode after the repeat key.
pub open spec fn default_select_repeat() -> Seq<Binding> {
    seq![
        binding(Mode::Select, Some(PartialAction::Repeat), KeyCode::Char('i'), NONE, Action::Cursor(CursorAction::ExtendByteUp)),
        binding(Mode::Select, Some(PartialAction::Repeat), KeyCode::Char('k'), NONE, Action::Cursor(CursorAction::ExtendByteDown)),
        binding(Mode::Select, Some(PartialAction::Repeat), KeyCode::Char('j'), NONE, Action::Cursor(CursorAction::ExtendByteLeft)),
        binding(Mode::Select, Some(PartialAction::Repeat), KeyCode::Char('l'), NONE, Action::Cursor(CursorAction::ExtendByteRight)),
        binding(Mode::Select, Some(PartialAction::Repeat), KeyCode::Up, NONE, Action::Cursor(CursorAction::ExtendByteUp)),
        binding(Mode::Select, Some(PartialAction::Repeat), KeyCode::Down, NONE, Action::Cursor(CursorAction::ExtendByteDown)),
        binding(Mode::Select, Some(PartialAction::Repeat), KeyCode::Left, NONE, Action::Cursor(CursorAction::ExtendByteLeft)),
        binding(Mode::Select, Some(PartialAction::Repeat), KeyCode::Right, NONE, Action::Cursor(CursorAction::ExtendByteRight)),
        binding(Mode::Select, Some(PartialAction::Repeat), KeyCode::Char('e'), CONTROL, Action::Buffer(BufferAction::ScrollDown)),
        binding(Mode::Select, Some(PartialAction::Repeat), KeyCode::Char('y'), CONTROL, Action::Buffer(BufferAction::ScrollUp)),
        binding(Mode::Select, Some(PartialAction::Repeat), KeyCode::Char('d'), CONTROL, Action::Buffer(BufferAction::PageCursorHalfDown)),
        binding(Mode::Select, Some(PartialAction::Repeat), KeyCode::Char('u'), CONTROL, Action::Buffer(BufferAction::PageCursorHalfUp)),
        binding(Mode::Select, Some(PartialAction::Repeat), KeyCode::Char('f'), CONTROL, Action::Buffer(BufferAction::PageDown)),
        binding(Mode::Select, Some(PartialAction::Repeat), KeyCode::Char('b'), CONTROL, Action::Buffer(BufferAction::PageUp)),
        binding(Mode::Select, Some(PartialAction::Repeat), KeyCode::Char('w'), NONE, Action::Cursor(CursorAction::ExtendNextWordStart)),
        binding(Mode::Select, Some(PartialAction::Repeat), KeyCode::Char('e'), NONE, Action::Cursor(CursorAction::ExtendNextWordEnd)),
        binding(Mode::Select, Some(PartialAction::Repeat), KeyCode::Char('b'), NONE, Action::Cursor(CursorAction::ExtendPreviousWordStart)),
        binding(Mode::Select, Some(PartialAction::Repeat), KeyCode::Char('x'), NONE, Action::Cursor(CursorAction::ExtendLineBelow)),
        binding(Mode::Select, Some(PartialAction::Repeat), KeyCode::Char('X'), NONE, Action::Cursor(CursorAction::ExtendLineAbove)),
        binding(Mode::Select, Some(PartialAction::Repeat), KeyCode::Char('d'), NONE, Action::Buffer(BufferAction::Delete)),
        binding(Mode::Select, Some(PartialAction::Repeat), KeyCode::Char('C'), NONE, Action::Buffer(BufferAction::CopySelectionOnNextLine)),
    ]
}

/// The default bindings of select mode after the to key.
pub open spec fn default_select_to() -> Seq<Binding> {
    seq![
        binding(Mode::Select, Some(PartialAction::To), KeyCode::Char('m'), NONE, Action::Buffer(BufferAction::ExtendToMark)),
        binding(Mode::Select, Some(PartialAction::To), KeyCode::Char('0'), NONE, Action::Buffer(BufferAction::ExtendToNull)),
        binding(Mode::Select, Some(PartialAction::To), KeyCode::Char('f'), NONE, Action::Buffer(BufferAction::ExtendToFF)),
    ]
}

#[verifier::rlimit(60)]
fn push_default_normal_plain(bindings: &mut Vec<Binding>)
    ensures
        final(bindings)@ == old(bindings)@ + default_normal_plain(),
{
    let ghost start = bindings@;
    bindings.push(make_binding(Mode::Normal, None, KeyCode::Char('q'), NONE, Action::App(AppAction::QuitIfSaved)));
    bindings.push(make_binding(Mode::Normal, None, KeyCode::Char('Q'), NONE, Action::App(AppAction::Quit)));
    bindings.push(make_binding(Mode::Normal, None, KeyCode::Char('v'), NONE, Action::Buffer(BufferAction::SelectMode)));
    bindings.push(make_binding(Mode::Normal, None, KeyCode::Char('g'), NONE, Action::Buffer(BufferAction::Goto)));
    bindings.push(make_binding(Mode::Normal, None, KeyCode::Char('z'), NONE, Action::Buffer(BufferAction::View)));
    bindings.push(make_binding(Mode::Normal, None, KeyCode::Char('r'), NONE, Action::Buffer(BufferAction::Replace)));
    bindings.push(make_binding(Mode::Normal, None, KeyCode::Char(' '), NONE, Action::Buffer(BufferAction::Space)));
    bindings.push(make_binding(Mode::Normal, None, KeyCode::Char('*'), NONE, Action::Buffer(BufferAction::Repeat)));
    bindings.push(make_binding(Mode::Normal, None, KeyCode::Char('t'), NONE, Action::Buffer(BufferAction::To)));
    bindings.push(make_binding(Mode::Normal, None, KeyCode::Char('i'), NONE, Action::Cursor(CursorAction::MoveByteUp)));
    bindings.push(make_binding(Mode::Normal, None, KeyCode::Char('k'), NONE, Action::Cursor(CursorAction::MoveByteDown)));
    bindings.push(make_binding(Mode::Normal, None, KeyCode::Char('j'), NONE, Action::Cursor(CursorAction::MoveByteLeft)));
    bindings.push(make_binding(Mode::Normal, None, KeyCode::Char('l'), NONE, Action::Cursor(CursorAction::MoveByteRight)));
    bindings.push(make_binding(Mode::Normal, None, KeyCode::Up, NONE, Action::Cursor(CursorAction::MoveByteUp)));
    bindings.push(make_binding(Mode::Normal, None, KeyCode::Down, NONE, Action::Cursor(CursorAction::MoveByteDown)));
    bindings.push(make_binding(Mode::Normal, None, KeyCode::Left, NONE, Action::Cursor(CursorAction::MoveByteLeft)));
    bindings.push(make_binding(Mode::Normal, None, KeyCode::Right, NONE, Action::Cursor(CursorAction::MoveByteRight)));
    bindings.push(make_binding(Mode::Normal, None, KeyCode::Char('G'), NONE, Action::Cursor(CursorAction::GotoFileEnd)));
    bindings.push(make_binding(Mode::Normal, None, KeyCode::Char('e'), CONTROL, Action::Buffer(BufferAction::ScrollDown)));
    bindings.push(make_binding(Mode::Normal, None, KeyCode::Char('y'), CONTROL, Action::Buffer(BufferAction::ScrollUp)));
    bindings.push(make_binding(Mode::Normal, None, KeyCode::Char('d'), CONTROL, Action::Buffer(BufferAction::PageCursorHalfDown)));
    bindings.push(make_binding(Mode::Normal, None, KeyCode::Char('u'), CONTROL, Action::Buffer(BufferAction::PageCursorHalfUp)));
    bindings.push(make_binding(Mode::Normal, None, KeyCode::Char('f'), CONTROL, Action::Buffer(BufferAction::PageDown)));
    bindings.push(make_binding(Mode::Normal, None, KeyCode::Char('b'), CONTROL, Action::Buffer(BufferAction::PageUp)));
    bindings.push(make_binding(Mode::Normal, None, KeyCode::Char('w'), NONE, Action::Cursor(CursorAction::MoveNextWordStart)));
    bindings.push(make_binding(Mode::Normal, None, KeyCode::Char('e'), NONE, Action::Cursor(CursorAction::MoveNextWordEnd)));
    bindings.push(make_binding(Mode::Normal, None, KeyCode::Char('b'), NONE, Action::Cursor(CursorAction::MovePreviousWordStart)));
    bindings.push(make_binding(Mode::Normal, None, KeyCode::Char(';'), NONE, Action::Buffer(BufferAction::CollapseSelection)));
    bindings.push(make_binding(Mode::Normal, None, KeyCode::Char(';'), ALT, Action::Buffer(BufferAction::FlipSelections)));
    bindings.push(make_binding(Mode::Normal, None, KeyCode::Char('x'), NONE, Action::Cursor(CursorAction::ExtendLineBelow)));
    bindings.push(make_binding(Mode::Normal, None, KeyCode::Char('X'), NONE, Action::Cursor(CursorAction::ExtendLineAbove)));
    bindings.push(make_binding(Mode::Normal, None, KeyCode::Char('d'), NONE, Action::Buffer(BufferAction::Delete)));
    bindings.push(make_binding(Mode::Normal, None, KeyCode::Char('u'), NONE, Action::Buffer(BufferAction::Undo)));
    bindings.push(make_binding(Mode::Normal, None, KeyCode::Char('U'), NONE, Action::Buffer(BufferAction::Redo)));
    bindings.push(make_binding(Mode::Normal, None, KeyCode::Char('j'), CONTROL, Action::App(AppAction::PreviousBuffer)));
    bindings.push(make_binding(Mode::Normal, None, KeyCode::Char('l'), CONTROL, Action::App(AppAction::NextBuffer)));
    bindings.push(make_binding(Mode::Normal, None, KeyCode::Char('C'), NONE, Action::Buffer(BufferAction::CopySelectionOnNextLine)));
    bindings.push(make_binding(Mode::Normal, None, KeyCode::Char('('), NONE, Action::Buffer(BufferAction::RotateSelectionsBackward)));
    bindings.push(make_binding(Mode::Normal, None, KeyCode::Char(')'), NONE, Action::Buffer(BufferAction::RotateSelectionsForward)));
    bindings.push(make_binding(Mode::Normal, None, KeyCode::Char(','), NONE, Action::Buffer(BufferAction::KeepPrimarySelection)));
    bindings.push(make_binding(Mode::Normal, None, KeyCode::Char(','), ALT, Action::Buffer(BufferAction::RemovePrimarySelection)));
    bindings.push(make_binding(Mode::Normal, None, KeyCode::Char('1'), NONE, Action::Buffer(BufferAction::SplitSelectionsInto1s)));
    bindings.push(make_binding(Mode::Normal, None, KeyCode::Char('2'), NONE, Action::Buffer(BufferAction::SplitSelectionsInto2s)));
    bindings.push(make_binding(Mode::Normal, None, KeyCode::Char('3'), NONE, Action::Buffer(BufferAction::SplitSelectionsInto3s)));
    bindings.push(make_binding(Mode::Normal, None, KeyCode::Char('4'), NONE, Action::Buffer(BufferAction::SplitSelectionsInto4s)));
    bindings.push(make_binding(Mode::Normal, None, KeyCode::Char('5'), NONE, Action::Buffer(BufferAction::SplitSelectionsInto5s)));
    bindings.push(make_binding(Mode::Normal, None, KeyCode::Char('6'), NONE, Action::Buffer(BufferAction::SplitSelectionsInto6s)));
    bindings.push(make_binding(Mode::Normal, None, KeyCode::Char('7'), NONE, Action::Buffer(BufferAction::SplitSelectionsInto7s)));
    bindings.push(make_binding(Mode::Normal, None, KeyCode::Char('8'), NONE, Action::Buffer(BufferAction::SplitSelectionsInto8s)));
    bindings.push(make_binding(Mode::Normal, None, KeyCode::Char('9'), NONE, Action::Buffer(BufferAction::SplitSelectionsInto9s)));
    bindings.push(make_binding(Mode::Normal, None, KeyCode::Char('J'), NONE, Action::Buffer(BufferAction::JumpToSelectedOffsetRelativeToMark)));
    bindings.push(make_binding(Mode::Normal, None, KeyCode::Char('J'), ALT, Action::Buffer(BufferAction::JumpToSelectedOffset)));
    bindings.push(make_binding(Mode::Normal, None, KeyCode::Char('m'), NONE, Action::Buffer(BufferAction::ToggleMark)));
    bindings.push(make_binding(Mode::Normal, None, KeyCode::Char('y'), NONE, Action::App(AppAction::Yank)));
    bindings.push(make_binding(Mode::Normal, None, KeyCode::Char(' '), CONTROL, Action::Buffer(BufferAction::InspectSelection)));
    bindings.push(make_binding(Mode::Normal, None, KeyCode::Char(' '), ALT, Action::Buffer(BufferAction::InspectSelectionColor)));
    assert(bindings@ =~= start + default_normal_plain());
}

fn push_default_normal_goto(bindings: &mut Vec<Binding>)
    ensures
        final(bindings)@ == old(bindings)@ + default_normal_goto(),
{
    let ghost start = bindings@;
    bindings.push(make_binding(Mode::Normal, Some(PartialAction::Goto), KeyCode::Char('j'), NONE, Action::Cursor(CursorAction::GotoLineStart)));
    bindings.push(make_binding(Mode::Normal, Some(PartialAction::Goto), KeyCode::Char('l'), NONE, Action::Cursor(CursorAction::GotoLineEnd)));
    bindings.push(make_binding(Mode::Normal, Some(PartialAction::Goto), KeyCode::Char('g'), NONE, Action::Cursor(CursorAction::GotoFileStart)));
    assert(bindings@ =~= start + default_normal_goto());
}

fn push_default_normal_view(bindings: &mut Vec<Binding>)
    ensures
        final(bindings)@ == old(bindings)@ + default_normal_view(),
{
    let ghost start = bindings@;
    bindings.push(make_binding(Mode::Normal, Some(PartialAction::View), KeyCode::Char('z'), NONE, Action::Buffer(BufferAction::AlignViewCenter)));
    bindings.push(make_binding(Mode::Normal, Some(PartialAction::View), KeyCode::Char('b'), NONE, Action::Buffer(BufferAction::AlignViewBottom)));
    bindings.push(make_binding(Mode::Normal, Some(PartialAction::View), KeyCode::Char('t'), NONE, Action::Buffer(BufferAction::AlignViewTop)));
    assert(bindings@ =~= start + default_normal_view());
}

fn push_default_normal_space(bindings: &mut Vec<Binding>)
    ensures
        final(bindings)@ == old(bindings)@ + default_normal_space(),
{
    let ghost start = bindings@;
    bindings.push(make_binding(Mode::Normal, Some(PartialAction::Space), KeyCode::Char('w'), NONE, Action::Buffer(BufferAction::Save)));
    assert(bindings@ =~= start + default_normal_space());
}

fn push_default_normal_repeat(bindings: &mut Vec<Binding>)
    ensures
        final(bindings)@ == old(bindings)@ + default_normal_repeat(),
{
    let ghost start = bindings@;
    bindings.push(make_binding(Mode::Normal, Some(PartialAction::Repeat), KeyCode::Char('i'), NONE, Action::Cursor(CursorAction::MoveByteUp)));
    bindings.push(make_binding(Mode::Normal, Some(PartialAction::Repeat), KeyCode::Char('k'), NONE, Action::Cursor(CursorAction::MoveByteDown)));
    bindings.push(make_binding(Mode::Normal, Some(PartialAction::Repeat), KeyCode::Char('j'), NONE, Action::Cursor(CursorAction::MoveByteLeft)));
    bindings.push(make_binding(Mode::Normal, Some(PartialAction::Repeat), KeyCode::Char('l'), NONE, Action::Cursor(CursorAction::MoveByteRight)));
    bindings.push(make_binding(Mode::Normal, Some(PartialAction::Repeat), KeyCode::Up, NONE, Action::Cursor(CursorAction::MoveByteUp)));
    bindings.push(make_binding(Mode::Normal, Some(PartialAction::Repeat), KeyCode::Down, NONE, Action::Cursor(CursorAction::MoveByteDown)));
    bindings.push(make_binding(Mode::Normal, Some(PartialAction::Repeat), KeyCode::Left, NONE, Action::Cursor(CursorAction::MoveByteLeft)));
    bindings.push(make_binding(Mode::Normal, Some(PartialAction::Repeat), KeyCode::Right, NONE, Action::Cursor(CursorAction::MoveByteRight)));
    bindings.push(make_binding(Mode::Normal, Some(PartialAction::Repeat), KeyCode::Char('e'), CONTROL, Action::Buffer(BufferAction::ScrollDown)));
    bindings.push(make_binding(Mode::Normal, Some(PartialAction::Repeat), KeyCode::Char('y'), CONTROL, Action::Buffer(BufferAction::ScrollUp)));
    bindings.push(make_binding(Mode::Normal, Some(PartialAction::Repeat), KeyCode::Char('d'), CONTROL, Action::Buffer(BufferAction::PageCursorHalfDown)));
    bindings.push(make_binding(Mode::Normal, Some(PartialAction::Repeat), KeyCode::Char('u'), CONTROL, Action::Buffer(BufferAction::PageCursorHalfUp)));
    bindings.push(make_binding(Mode::Normal, Some(PartialAction::Repeat), KeyCode::Char('f'), CONTROL, Action::Buffer(BufferAction::PageDown)));
    bindings.push(make_binding(Mode::Normal, Some(PartialAction::Repeat), KeyCode::Char('b'), CONTROL, Action::Buffer(BufferAction::PageUp)));
    bindings.push(make_binding(Mode::Normal, Some(PartialAction::Repeat), KeyCode::Char('w'), NONE, Action::Cursor(CursorAction::MoveNextWordStart)));
    bindings.push(make_binding(Mode::Normal, Some(PartialAction::Repeat), KeyCode::Char('e'), NONE, Action::Cursor(CursorAction::MoveNextWordEnd)));
    bindings.push(make_binding(Mode::Normal, Some(PartialAction::Repeat), KeyCode::Char('b'), NONE, Action::Cursor(CursorAction::MovePreviousWordStart)));
    bindings.push(make_binding(Mode::Normal, Some(PartialAction::Repeat), KeyCode::Char('x'), NONE, Action::Cursor(CursorAction::ExtendLineBelow)));
    bindings.push(make_binding(Mode::Normal, Some(PartialAction::Repeat), KeyCode::Char('X'), NONE, Action::Cursor(CursorAction::ExtendLineAbove)));
    bindings.push(make_binding(Mode::Normal, Some(PartialAction::Repeat), KeyCode::Char('d'), NONE, Action::Buffer(BufferAction::Delete)));
    bindings.push(make_binding(Mode::Normal, Some(PartialAction::Repeat), KeyCode::Char('C'), NONE, Action::Buffer(BufferAction::CopySelectionOnNextLine)));
    assert(bindings@ =~= start + default_normal_repeat());
}

fn push_default_normal_to(bindings: &mut Vec<Binding>)
    ensures
        final(bindings)@ == old(bindings)@ + default_normal_to(),
{
    let ghost start = bindings@;
    bindings.push(make_binding(Mode::Normal, Some(PartialAction::To), KeyCode::Char('m'), NONE, Action::Buffer(BufferAction::ExtendToMark)));
    bindings.push(make_binding(Mode::Normal, Some(PartialAction::To), KeyCode::Char('0'), NONE, Action::Buffer(BufferAction::ExtendToNull)));
    bindings.push(make_binding(Mode::Normal, Some(PartialAction::To), KeyCode::Char('f'), NONE, Action::Buffer(BufferAction::ExtendToFF)));
    assert(bindings@ =~= start + default_normal_to());
}

#[verifier::rlimit(60)]
fn push_default_select_plain(bindings: &mut Vec<Binding>)
    ensures
        final(bindings)@ == old(bindings)@ + default_select_plain(),
{
    let ghost start = bindings@;
    bindings.push(make_binding(Mode::Select, None, KeyCode::Char('q'), NONE, Action::App(AppAction::QuitIfSaved)));
    bindings.push(make_binding(Mode::Select, None, KeyCode::Char('Q'), NONE, Action::App(AppAction::Quit)));
    bindings.push(make_binding(Mode::Select, None, KeyCode::Char('v'), NONE, Action::Buffer(BufferAction::NormalMode)));
    bindings.push(make_binding(Mode::Select, None, KeyCode::Char('g'), NONE, Action::Buffer(BufferAction::Goto)));
    bindings.push(make_binding(Mode::Select, None, KeyCode::Char('z'), NONE, Action::Buffer(BufferAction::View)));
    bindings.push(make_binding(Mode::Select, None, KeyCode::Char('r'), NONE, Action::Buffer(BufferAction::Replace)));
    bindings.push(make_binding(Mode::Select, None, KeyCode::Char(' '), NONE, Action::Buffer(BufferAction::Space)));
    bindings.push(make_binding(Mode::Select, None, KeyCode::Char('*'), NONE, Action::Buffer(BufferAction::Repeat)));
    bindings.push(make_binding(Mode::Select, None, KeyCode::Char('t'), NONE, Action::Buffer(BufferAction::To)));
    bindings.push(make_binding(Mode::Select, None, KeyCode::Char('i'), NONE, Action::Cursor(CursorAction::ExtendByteUp)));
    bindings.push(make_binding(Mode::Select, None, KeyCode::Char('k'), NONE, Action::Cursor(CursorAction::ExtendByteDown)));
    bindings.push(make_binding(Mode::Select, None, KeyCode::Char('j'), NONE, Action::Cursor(CursorAction::ExtendByteLeft)));
    bindings.push(make_binding(Mode::Select, None, KeyCode::Char('l'), NONE, Action::Cursor(CursorAction::ExtendByteRight)));
    bindings.push(make_binding(Mode::Select, None, KeyCode::Up, NONE, Action::Cursor(CursorAction::ExtendByteUp)));
    bindings.push(make_binding(Mode::Select, None, KeyCode::Down, NONE, Action::Cursor(CursorAction::ExtendByteDown)));
    bindings.push(make_binding(Mode::Select, None, KeyCode::Left, NONE, Action::Cursor(CursorAction::ExtendByteLeft)));
    bindings.push(make_binding(Mode::Select, None, KeyCode::Right, NONE, Action::Cursor(CursorAction::ExtendByteRight)));
    bindings.push(make_binding(Mode::Select, None, KeyCode::Char('e'), CONTROL, Action::Buffer(BufferAction::ScrollDown)));
    bindings.push(make_binding(Mode::Select, None, KeyCode::Char('y'), CONTROL, Action::Buffer(BufferAction::ScrollUp)));
    bindings.push(make_binding(Mode::Select, None, KeyCode::Char('d'), CONTROL, Action::Buffer(BufferAction::PageCursorHalfDown)));
    bindings.push(make_binding(Mode::Select, None, KeyCode::Char('u'), CONTROL, Action::Buffer(BufferAction::PageCursorHalfUp)));
    bindings.push(make_binding(Mode::Select, None, KeyCode::Char('f'), CONTROL, Action::Buffer(BufferAction::PageDown)));
    bindings.push(make_binding(Mode::Select, None, KeyCode::Char('b'), CONTROL, Action::Buffer(BufferAction::PageUp)));
    bindings.push(make_binding(Mode::Select, None, KeyCode::Char('w'), NONE, Action::Cursor(CursorAction::ExtendNextWordStart)));
    bindings.push(make_binding(Mode::Select, None, KeyCode::Char('e'), NONE, Action::Cursor(CursorAction::ExtendNextWordEnd)));
    bindings.push(make_binding(Mode::Select, None, KeyCode::Char('b'), NONE, Action::Cursor(CursorAction::ExtendPreviousWordStart)));
    bindings.push(make_binding(Mode::Select, None, KeyCode::Char(';'), NONE, Action::Buffer(BufferAction::CollapseSelection)));
    bindings.push(make_binding(Mode::Select, None, KeyCode::Char(';'), ALT, Action::Buffer(BufferAction::FlipSelections)));
    bindings.push(make_binding(Mode::Select, None, KeyCode::Char('x'), NONE, Action::Cursor(CursorAction::ExtendLineBelow)));
    bindings.push(make_binding(Mode::Select, None, KeyCode::Char('X'), NONE, Action::Cursor(CursorAction::ExtendLineAbove)));
    bindings.push(make_binding(Mode::Select, None, KeyCode::Char('d'), NONE, Action::Buffer(BufferAction::Delete)));
    bindings.push(make_binding(Mode::Select, None, KeyCode::Char('u'), NONE, Action::Buffer(BufferAction::Undo)));
    bindings.push(make_binding(Mode::Select, None, KeyCode::Char('U'), NONE, Action::Buffer(BufferAction::Redo)));
    bindings.push(make_binding(Mode::Select, None, KeyCode::Char('C'), NONE, Action::Buffer(BufferAction::CopySelectionOnNextLine)));
    bindings.push(make_binding(Mode::Select, None, KeyCode::Char('('), NONE, Action::Buffer(BufferAction::RotateSelectionsBackward)));
    bindings.push(make_binding(Mode::Select, None, KeyCode::Char(')'), NONE, Action::Buffer(BufferAction::RotateSelectionsForward)));
    bindings.push(make_binding(Mode::Select, None, KeyCode::Char(','), NONE, Action::Buffer(BufferAction::KeepPrimarySelection)));
    bindings.push(make_binding(Mode::Select, None, KeyCode::Char(','), ALT, Action::Buffer(BufferAction::RemovePrimarySelection)));
    bindings.push(make_binding(Mode::Select, None, KeyCode::Char('1'), NONE, Action::Buffer(BufferAction::SplitSelectionsInto1s)));
    bindings.push(make_binding(Mode::Select, None, KeyCode::Char('2'), NONE, Action::Buffer(BufferAction::SplitSelectionsInto2s)));
    bindings.push(make_binding(Mode::Select, None, KeyCode::Char('3'), NONE, Action::Buffer(BufferAction::SplitSelectionsInto3s)));
    bindings.push(make_binding(Mode::Select, None, KeyCode::Char('4'), NONE, Action::Buffer(BufferAction::SplitSelectionsInto4s)));
    bindings.push(make_binding(Mode::Select, None, KeyCode::Char('5'), NONE, Action::Buffer(BufferAction::SplitSelectionsInto5s)));
    bindings.push(make_binding(Mode::Select, None, KeyCode::Char('6'), NONE, Action::Buffer(BufferAction::SplitSelectionsInto6s)));
    bindings.push(make_binding(Mode::Select, None, KeyCode::Char('7'), NONE, Action::Buffer(BufferAction::SplitSelectionsInto7s)));
    bindings.push(make_binding(Mode::Select, None, KeyCode::Char('8'), NONE, Action::Buffer(BufferAction::SplitSelectionsInto8s)));
    bindings.push(make_binding(Mode::Select, None, KeyCode::Char('9'), NONE, Action::Buffer(BufferAction::SplitSelectionsInto9s)));
    bindings.push(make_binding(Mode::Select, None, KeyCode::Char('J'), NONE, Action::Buffer(BufferAction::JumpToSelectedOffsetRelativeToMark)));
    bindings.push(make_binding(Mode::Select, None, KeyCode::Char('J'), ALT, Action::Buffer(BufferAction::JumpToSelectedOffset)));
    bindings.push(make_binding(Mode::Select, None, KeyCode::Char('m'), NONE, Action::Buffer(BufferAction::ToggleMark)));
    bindings.push(make_binding(Mode::Select, None, KeyCode::Char('y'), NONE, Action::App(AppAction::Yank)));
    bindings.push(make_binding(Mode::Select, None, KeyCode::Char(' '), CONTROL, Action::Buffer(BufferAction::InspectSelection)));
    bindings.push(make_binding(Mode::Select, None, KeyCode::Char(' '), ALT, Action::Buffer(BufferAction::InspectSelectionColor)));
    assert(bindings@ =~= start + default_select_plain());
}

fn push_default_select_view(bindings: &mut Vec<Binding>)
    ensures
        final(bindings)@ == old(bindings)@ + default_select_view(),
{
    let ghost start = bindings@;
    bindings.push(make_binding(Mode::Select, Some(PartialAction::View), KeyCode::Char('z'), NONE, Action::Buffer(BufferAction::AlignViewCenter)));
    bindings.push(make_binding(Mode::Select, Some(PartialAction::View), KeyCode::Char('b'), NONE, Action::Buffer(BufferAction::AlignViewBottom)));
    bindings.push(make_binding(Mode::Select, Some(PartialAction::View), KeyCode::Char('t'), NONE, Action::Buffer(BufferAction::AlignViewTop)));
    assert(bindings@ =~= start + default_select_view());
}

fn push_default_select_space(bindings: &mut Vec<Binding>)
    ensures
        final(bindings)@ == old(bindings)@ + default_select_space(),
{
    let ghost start = bindings@;
    bindings.push(make_binding(Mode::Select, Some(PartialAction::Space), KeyCode::Char('w'), NONE, Action::Buffer(BufferAction::Save)));
    assert(bindings@ =~= start + default_select_space());
}

fn push_default_select_repeat(bindings: &mut Vec<Binding>)
    ensures
        final(bindings)@ == old(bindings)@ + default_select_repeat(),
{
    let ghost start = bindings@;
    bindings.push(make_binding(Mode::Select, Some(PartialAction::Repeat), KeyCode::Char('i'), NONE, Action::Cursor(CursorAction::ExtendByteUp)));
    bindings.push(make_binding(Mode::Select, Some(PartialAction::Repeat), KeyCode::Char('k'), NONE, Action::Cursor(CursorAction::ExtendByteDown)));
    bindings.push(make_binding(Mode::Select, Some(PartialAction::Repeat), KeyCode::Char('j'), NONE, Action::Cursor(CursorAction::ExtendByteLeft)));
    bindings.push(make_binding(Mode::Select, Some(PartialAction::Repeat), KeyCode::Char('l'), NONE, Action::Cursor(CursorAction::ExtendByteRight)));
    bindings.push(make_binding(Mode::Select, Some(PartialAction::Repeat), KeyCode::Up, NONE, Action::Cursor(CursorAction::ExtendByteUp)));
    bindings.push(make_binding(Mode::Select, Some(PartialAction::Repeat), KeyCode::Down, NONE, Action::Cursor(CursorAction::ExtendByteDown)));
    bindings.push(make_binding(Mode::Select, Some(PartialAction::Repeat), KeyCode::Left, NONE, Action::Cursor(CursorAction::ExtendByteLeft)));
    bindings.push(make_binding(Mode::Select, Some(PartialAction::Repeat), KeyCode::Right, NONE, Action::Cursor(CursorAction::ExtendByteRight)));
    bindings.push(make_binding(Mode::Select, Some(PartialAction::Repeat), KeyCode::Char('e'), CONTROL, Action::Buffer(BufferAction::ScrollDown)));
    bindings.push(make_binding(Mode::Select, Some(PartialAction::Repeat), KeyCode::Char('y'), CONTROL, Action::Buffer(BufferAction::ScrollUp)));
    bindings.push(make_binding(Mode::Select, Some(PartialAction::Repeat), KeyCode::Char('d'), CONTROL, Action::Buffer(BufferAction::PageCursorHalfDown)));
    bindings.push(make_binding(Mode::Select, Some(PartialAction::Repeat), KeyCode::Char('u'), CONTROL, Action::Buffer(BufferAction::PageCursorHalfUp)));
    bindings.push(make_binding(Mode::Select, Some(PartialAction::Repeat), KeyCode::Char('f'), CONTROL, Action::Buffer(BufferAction::PageDown)));
    bindings.push(make_binding(Mode::Select, Some(PartialAction::Repeat), KeyCode::Char('b'), CONTROL, Action::Buffer(BufferAction::PageUp)));
    bindings.push(make_binding(Mode::Select, Some(PartialAction::Repeat), KeyCode::Char('w'), NONE, Action::Cursor(CursorAction::ExtendNextWordStart)));
    bindings.push(make_binding(Mode::Select, Some(PartialAction::Repeat), KeyCode::Char('e'), NONE, Action::Cursor(CursorAction::ExtendNextWordEnd)));
    bindings.push(make_binding(Mode::Select, Some(PartialAction::Repeat), KeyCode::Char('b'), NONE, Action::Cursor(CursorAction::ExtendPreviousWordStart)));
    bindings.push(make_binding(Mode::Select, Some(PartialAction::Repeat), KeyCode::Char('x'), NONE, Action::Cursor(CursorAction::ExtendLineBelow)));
    bindings.push(make_binding(Mode::Select, Some(PartialAction::Repeat), KeyCode::Char('X'), NONE, Action::Cursor(CursorAction::ExtendLineAbove)));
    bindings.push(make_binding(Mode::Select, Some(PartialAction::Repeat), KeyCode::Char('d'), NONE, Action::Buffer(BufferAction::Delete)));
    bindings.push(make_binding(Mode::Select, Some(PartialAction::Repeat), KeyCode::Char('C'), NONE, Action::Buffer(BufferAction::CopySelectionOnNextLine)));
    assert(bindings@ =~= start + default_select_repeat());
}

fn push_default_select_to(bindings: &mut Vec<Binding>)
    ensures
        final(bindings)@ == old(bindings)@ + default_select_to(),
{
    let ghost start = bindings@;
    bindings.push(make_binding(Mode::Select, Some(PartialAction::To), KeyCode::Char('m'), NONE, Action::Buffer(BufferAction::ExtendToMark)));
    bindings.push(make_binding(Mode::Select, Some(PartialAction::To), KeyCode::Char('0'), NONE, Action::Buffer(BufferAction::ExtendToNull)));
    bindings.push(make_binding(Mode::Select, Some(PartialAction::To), KeyCode::Char('f'), NONE, Action::Buffer(BufferAction::ExtendToFF)));
    assert(bindings@ =~= start + default_select_to());
}
} // verus!

verus! {

/// A binding added last decides what its keypress does, and leaves every
/// other keypress as it was.
pub proof fn lemma_bind_overrides(
    bindings: Seq<Binding>,
    added: Binding,
    mode: Mode,
    partial_action: Option<PartialAction>,
    keypress: Keypress,
)
    ensures
        spec_lookup(bindings.push(added), added.mode, added.partial_action, added.keypress) == Some(
            added.action,
        ),
        !binding_matches(added, mode, partial_action, keypress) ==> spec_lookup(
            bindings.push(added),
            mode,
            partial_action,
            keypress,
        ) == spec_lookup(bindings, mode, partial_action, keypress),
{
    assert(bindings.push(added).drop_last() =~= bindings);
}

} // verus!
