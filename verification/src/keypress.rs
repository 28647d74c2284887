use vstd::prelude::*;
use vstd::string::StringExecFns;
use crate::text::{char_to_string, chars_eq_str, chars_of, string_from_chars};

verus! {

/// No modifier key held.
pub const NONE: u8 = 0b0000_0000;
/// The shift modifier bit.
pub const SHIFT: u8 = 0b0000_0001;
/// The control modifier bit.
pub const CONTROL: u8 = 0b0000_0010;
/// The alt modifier bit.
pub const ALT: u8 = 0b0000_0100;

/// A key of the keyboard. Media and modifier keys carry the position of
/// the key in the terminal library's own list of them.
#[derive(Clone, Copy, Debug, PartialEq, Eq, Hash, Structural)]
pub enum KeyCode {
    Backspace,
    Enter,
    Left,
    Right,
    Up,
    Down,
    Home,
    End,
    PageUp,
    PageDown,
    Tab,
    BackTab,
    Delete,
    Insert,
    F(u8),
    Char(char),
    Null,
    Esc,
    CapsLock,
    ScrollLock,
    NumLock,
    PrintScreen,
    Pause,
    Menu,
    KeypadBegin,
    Media(u8),
    Modifier(u8),
}

impl KeyCode {
    /// The character of a character key.
    pub open spec fn spec_as_char(self) -> Option<char> {
        match self {
            KeyCode::Char(c) => Some(c),
            _ => None,
        }
    }

    pub fn as_char(&self) -> (result: Option<char>)
        ensures
            result == self.spec_as_char(),
    {
        match self {
            KeyCode::Char(c) => Some(*c),
            _ => None,
        }
    }
}

/// A key together with the modifier keys held with it.
#[derive(Clone, Copy, Debug, PartialEq, Eq, Hash, Structural)]
pub struct Keypress {
    pub code: KeyCode,
    pub modifiers: u8,
}

/// A key event as the terminal reports it.
#[derive(Clone, Copy, Debug, PartialEq, Eq, Structural)]
pub struct KeyEvent {
    pub code: KeyCode,
    pub modifiers: u8,
}

/// The pieces of the first `end` characters of `s`, split at each `-`.
pub open spec fn split_dashes_upto(s: Seq<char>, end: int) -> Seq<Seq<char>>
    decreases end,
{
    if end <= 0 {
        seq![Seq::empty()]
    } else {
        let pieces = split_dashes_upto(s, end - 1);
        if s[end - 1] == '-' {
            pieces.push(Seq::empty())
        } else {
            pieces.update(pieces.len() - 1, pieces.last().push(s[end - 1]))
        }
    }
}

/// The pieces of `s` between the `-` characters (one more piece than there
/// are dashes, some possibly empty).
pub open spec fn split_dashes(s: Seq<char>) -> Seq<Seq<char>> {
    split_dashes_upto(s, s.len() as int)
}

pub proof fn lemma_split_dashes_nonempty(s: Seq<char>, end: int)
    ensures
        split_dashes_upto(s, end).len() >= 1,
    decreases end,
{
    if end > 0 {
        lemma_split_dashes_nonempty(s, end - 1);
    }
}

/// Whether `s` is one character that is encoded in one byte.
pub open spec fn is_single_ascii(s: Seq<char>) -> bool {
    s.len() == 1 && (s[0] as u32) < 128
}

pub open spec fn spec_modifier_from_character(character: char) -> Result<u8, Seq<char>> {
    if character == 'C' {
        Ok(CONTROL)
    } else if character == 'A' {
        Ok(ALT)
    } else if character == 'S' {
        Ok(SHIFT)
    } else {
        Err("unknown modifier: "@ + seq![character])
    }
}

/// The modifier that one piece before the key names.
pub open spec fn spec_modifier_piece(raw: Seq<char>) -> Result<u8, Seq<char>> {
    if is_single_ascii(raw) {
        spec_modifier_from_character(raw[0])
    } else {
        Err("invalid modifier: "@ + raw)
    }
}

/// The union of the modifiers named by the first `k` pieces, or the error
/// of the first piece that names none.
pub open spec fn fold_modifiers(pieces: Seq<Seq<char>>, k: int) -> Result<u8, Seq<char>>
    decreases k,
{
    if k <= 0 {
        Ok(NONE)
    } else {
        match fold_modifiers(pieces, k - 1) {
            Err(message) => Err(message),
            Ok(modifiers) => match spec_modifier_piece(pieces[k - 1]) {
                Err(message) => Err(message),
                Ok(modifier) => Ok(modifiers | modifier),
            },
        }
    }
}

/// The key that a name in a configuration file stands for.
pub open spec fn spec_key_code_from(s: Seq<char>) -> Result<KeyCode, Seq<char>> {
    if s == "backspace"@ {
        Ok(KeyCode::Backspace)
    } else if s == "enter"@ {
        Ok(KeyCode::Enter)
    } else if s == "up"@ {
        Ok(KeyCode::Up)
    } else if s == "down"@ {
        Ok(KeyCode::Down)
    } else if s == "left"@ {
        Ok(KeyCode::Left)
    } else if s == "right"@ {
        Ok(KeyCode::Right)
    } else if s == "home"@ {
        Ok(KeyCode::Home)
    } else if s == "end"@ {
        Ok(KeyCode::End)
    } else if s == "pageup"@ {
        Ok(KeyCode::PageUp)
    } else if s == "pagedown"@ {
        Ok(KeyCode::PageDown)
    } else if s == "tab"@ {
        Ok(KeyCode::Tab)
    } else if s == "delete"@ {
        Ok(KeyCode::Delete)
    } else if s == "insert"@ {
        Ok(KeyCode::Insert)
    } else if s == "escape"@ {
        Ok(KeyCode::Esc)
    } else if is_single_ascii(s) {
        Ok(KeyCode::Char(s[0]))
    } else {
        Err("invalid key code: '"@ + s + "'"@)
    }
}

/// The keypress that a configuration file writes as `s`: modifiers
/// (`C`, `A`, `S`), each followed by `-`, then the key.
pub open spec fn spec_parse_keypress(s: Seq<char>) -> Result<Keypress, Seq<char>> {
    if s.len() == 0 {
        Err("keypress must not be empty"@)
    } else {
        let pieces = split_dashes(s);
        match spec_key_code_from(pieces.last()) {
            Err(message) => Err(message),
            Ok(code) => match fold_modifiers(pieces.drop_last(), pieces.len() - 1) {
                Err(message) => Err(message),
                Ok(modifiers) => Ok(Keypress { code, modifiers }),
            },
        }
    }
}

/// The pieces of `characters` between the dashes.
fn split_dashes_exec(characters: &Vec<char>) -> (result: Vec<Vec<char>>)
    ensures
        result@.map_values(|piece: Vec<char>| piece@) == split_dashes(characters@),
        result@.len() >= 1,
{
    let mut pieces: Vec<Vec<char>> = Vec::new();
    let mut current: Vec<char> = Vec::new();
    let mut i: usize = 0;
    while i < characters.len()
        invariant
            i <= characters@.len(),
            pieces@.map_values(|piece: Vec<char>| piece@).push(current@) == split_dashes_upto(
                characters@,
                i as int,
            ),
        decreases characters.len() - i,
    {
        let ghost before = pieces@.map_values(|piece: Vec<char>| piece@).push(current@);
        let character = characters[i];
        if character == '-' {
            let finished = current;
            pieces.push(finished);
            current = Vec::new();
            assert(pieces@.map_values(|piece: Vec<char>| piece@).push(current@) =~= before.push(
                Seq::empty(),
            ));
        } else {
            current.push(character);
            assert(pieces@.map_values(|piece: Vec<char>| piece@).push(current@) =~= before.update(
                before.len() - 1,
                before.last().push(character),
            ));
        }
        i += 1;
    }
    let ghost all = pieces@.map_values(|piece: Vec<char>| piece@).push(current@);
    pieces.push(current);
    assert(pieces@.map_values(|piece: Vec<char>| piece@) =~= all);
    pieces
}

fn modifier_from_character(character: char) -> (result: Result<u8, String>)
    ensures
        match (result, spec_modifier_from_character(character)) {
            (Ok(a), Ok(b)) => a == b,
            (Err(a), Err(b)) => a@ == b,
            _ => false,
        },
{
    if character == 'C' {
        Ok(CONTROL)
    } else if character == 'A' {
        Ok(ALT)
    } else if character == 'S' {
        Ok(SHIFT)
    } else {
        let mut message = String::from_str("unknown modifier: ");
        let text = char_to_string(character);
        message.append(text.as_str());
        Err(message)
    }
}

fn try_key_code_from(characters: &Vec<char>) -> (result: Result<KeyCode, String>)
    ensures
        match (result, spec_key_code_from(characters@)) {
            (Ok(a), Ok(b)) => a == b,
            (Err(a), Err(b)) => a@ == b,
            _ => false,
        },
{
    let text = characters.as_slice();
    if chars_eq_str(text, "backspace") {
        Ok(KeyCode::Backspace)
    } else if chars_eq_str(text, "enter") {
        Ok(KeyCode::Enter)
    } else if chars_eq_str(text, "up") {
        Ok(KeyCode::Up)
    } else if chars_eq_str(text, "down") {
        Ok(KeyCode::Down)
    } else if chars_eq_str(text, "left") {
        Ok(KeyCode::Left)
    } else if chars_eq_str(text, "right") {
        Ok(KeyCode::Right)
    } else if chars_eq_str(text, "home") {
        Ok(KeyCode::Home)
    } else if chars_eq_str(text, "end") {
        Ok(KeyCode::End)
    } else if chars_eq_str(text, "pageup") {
        Ok(KeyCode::PageUp)
    } else if chars_eq_str(text, "pagedown") {
        Ok(KeyCode::PageDown)
    } else if chars_eq_str(text, "tab") {
        Ok(KeyCode::Tab)
    } else if chars_eq_str(text, "delete") {
        Ok(KeyCode::Delete)
    } else if chars_eq_str(text, "insert") {
        Ok(KeyCode::Insert)
    } else if chars_eq_str(text, "escape") {
        Ok(KeyCode::Esc)
    } else if characters.len() == 1 && (characters[0] as u32) < 128 {
        Ok(KeyCode::Char(characters[0]))
    } else {
        let mut message = String::from_str("invalid key code: '");
        let raw = string_from_chars(text);
        message.append(raw.as_str());
        message.append("'");
        Err(message)
    }
}

impl Keypress {
    /// A keypress of `code` with no modifier.
    pub fn from_code(code: KeyCode) -> (result: Self)
        ensures
            result == (Keypress { code, modifiers: NONE }),
    {
        Keypress { code, modifiers: NONE }
    }

    /// The keypress of a key event; shift is left out, since it already
    /// shows in the character.
    pub fn from_event(event: KeyEvent) -> (result: Self)
        ensures
            result.code == event.code,
            result.modifiers == event.modifiers & !SHIFT,
    {
        Keypress { code: event.code, modifiers: event.modifiers & !SHIFT }
    }

    /// Reads a keypress as a configuration file writes it, such as `C-e`,
    /// `A-;` or `pagedown`.
    pub fn try_from_str(string: &str) -> (result: Result<Self, String>)
        ensures
            match (result, spec_parse_keypress(string@)) {
                (Ok(a), Ok(b)) => a == b,
                (Err(a), Err(b)) => a@ == b,
                _ => false,
            },
    {
        let characters = chars_of(string);
        if characters.len() == 0 {
            return Err(String::from_str("keypress must not be empty"));
        }
        let pieces = split_dashes_exec(&characters);
        let ghost spec_pieces = split_dashes(string@);
        let last = pieces.len() - 1;
        assert(pieces@[last as int]@ == spec_pieces.last());
        let code = match try_key_code_from(&pieces[last]) {
            Ok(code) => code,
            Err(message) => return Err(message),
        };
        let mut modifiers: u8 = NONE;
        let mut k: usize = 0;
        while k < last
            invariant
                last == pieces@.len() - 1,
                pieces@.map_values(|piece: Vec<char>| piece@) == spec_pieces,
                k <= last,
                fold_modifiers(spec_pieces.drop_last(), k as int) == Ok::<u8, Seq<char>>(modifiers),
                spec_key_code_from(spec_pieces.last()) == Ok::<KeyCode, Seq<char>>(code),
                spec_pieces == split_dashes(string@),
                string@.len() > 0,
            decreases last - k,
        {
            let raw = &pieces[k];
            assert(raw@ == spec_pieces.drop_last()[k as int]);
            let modifier = if raw.len() == 1 && (raw[0] as u32) < 128 {
                modifier_from_character(raw[0])
            } else {
                let mut message = String::from_str("invalid modifier: ");
                let text = string_from_chars(raw.as_slice());
                message.append(text.as_str());
                Err(message)
            };
            match modifier {
                Ok(modifier) => {
                    modifiers = modifiers | modifier;
                },
                Err(message) => {
                    proof {
                        assert(spec_modifier_piece(raw@) == Err::<u8, Seq<char>>(message@));
                        lemma_fold_error_sticks(spec_pieces.drop_last(), k as int + 1, last as int);
                    }
                    return Err(message);
                },
            }
            k += 1;
        }
        Ok(Keypress { code, modifiers })
    }
}

/// Once a piece names no modifier, the fold keeps its error.
proof fn lemma_fold_error_sticks(pieces: Seq<Seq<char>>, k: int, n: int)
    requires
        1 <= k <= n,
        fold_modifiers(pieces, k) is Err,
    ensures
        fold_modifiers(pieces, n) == fold_modifiers(pieces, k),
    decreases n - k,
{
    if k < n {
        lemma_fold_error_sticks(pieces, k, n - 1);
    }
}

} // verus!

verus! {

/// Whether a configuration file has a name for the key.
pub open spec fn is_printable(code: KeyCode) -> bool {
    match code {
        KeyCode::Backspace | KeyCode::Enter | KeyCode::Up | KeyCode::Down | KeyCode::Left
        | KeyCode::Right | KeyCode::Home | KeyCode::End | KeyCode::PageUp | KeyCode::PageDown
        | KeyCode::Tab | KeyCode::Delete | KeyCode::Insert | KeyCode::Esc | KeyCode::Char(_) => true,
        _ => false,
    }
}

/// The name of a key in configuration files.
pub open spec fn spec_code_name(code: KeyCode) -> Seq<char> {
    match code {
        KeyCode::Backspace => "backspace"@,
        KeyCode::Enter => "enter"@,
        KeyCode::Up => "up"@,
        KeyCode::Down => "down"@,
        KeyCode::Left => "left"@,
        KeyCode::Right => "right"@,
        KeyCode::Home => "home"@,
        KeyCode::End => "end"@,
        KeyCode::PageUp => "pageup"@,
        KeyCode::PageDown => "pagedown"@,
        KeyCode::Tab => "tab"@,
        KeyCode::Delete => "delete"@,
        KeyCode::Insert => "insert"@,
        KeyCode::Esc => "escape"@,
        KeyCode::Char(c) => seq![c],
        _ => Seq::empty(),
    }
}

/// The prefix written for a single modifier; nothing for none, or for
/// several at once.
pub open spec fn spec_modifier_prefix(modifiers: u8) -> Seq<char> {
    if modifiers == CONTROL {
        "C-"@
    } else if modifiers == ALT {
        "A-"@
    } else if modifiers == SHIFT {
        "S-"@
    } else {
        Seq::empty()
    }
}

pub fn str_from_modifiers(modifiers: u8) -> (result: &'static str)
    ensures
        result@ == spec_modifier_prefix(modifiers),
{
    proof {
        reveal_strlit("");
    }
    if modifiers == CONTROL {
        "C-"
    } else if modifiers == ALT {
        "A-"
    } else if modifiers == SHIFT {
        "S-"
    } else {
        ""
    }
}

pub fn string_from_code(code: KeyCode) -> (result: String)
    requires
        is_printable(code),
    ensures
        result@ == spec_code_name(code),
{
    match code {
        KeyCode::Char(character) => char_to_string(character),
        KeyCode::Backspace => String::from_str("backspace"),
        KeyCode::Enter => String::from_str("enter"),
        KeyCode::Up => String::from_str("up"),
        KeyCode::Down => String::from_str("down"),
        KeyCode::Left => String::from_str("left"),
        KeyCode::Right => String::from_str("right"),
        KeyCode::Home => String::from_str("home"),
        KeyCode::End => String::from_str("end"),
        KeyCode::PageUp => String::from_str("pageup"),
        KeyCode::PageDown => String::from_str("pagedown"),
        KeyCode::Tab => String::from_str("tab"),
        KeyCode::Delete => String::from_str("delete"),
        KeyCode::Insert => String::from_str("insert"),
        KeyCode::Esc => String::from_str("escape"),
        _ => String::new(),
    }
}

impl Keypress {
    /// The text a configuration file uses for this keypress.
    pub open spec fn spec_text(self) -> Seq<char> {
        spec_modifier_prefix(self.modifiers) + spec_code_name(self.code)
    }

    pub fn to_string(&self) -> (result: String)
        requires
            is_printable(self.code),
        ensures
            result@ == self.spec_text(),
    {
        let mut result = String::from_str(str_from_modifiers(self.modifiers));
        let name = string_from_code(self.code);
        result.append(name.as_str());
        result
    }
}

/// The length and first character of a key name: enough to tell the names
/// apart.
spec fn name_key(s: Seq<char>) -> (int, char) {
    (s.len() as int, s[0])
}

proof fn lemma_name_keys()
    ensures
        name_key("backspace"@) == (9int, 'b'),
        name_key("enter"@) == (5int, 'e'),
        name_key("up"@) == (2int, 'u'),
        name_key("down"@) == (4int, 'd'),
        name_key("left"@) == (4int, 'l'),
        name_key("right"@) == (5int, 'r'),
        name_key("home"@) == (4int, 'h'),
        name_key("end"@) == (3int, 'e'),
        name_key("pageup"@) == (6int, 'p'),
        name_key("pagedown"@) == (8int, 'p'),
        name_key("tab"@) == (3int, 't'),
        name_key("delete"@) == (6int, 'd'),
        name_key("insert"@) == (6int, 'i'),
        name_key("escape"@) == (6int, 'e'),
{
    broadcast use vstd::string::group_string_axioms;

    reveal_strlit("backspace");
    reveal_strlit("enter");
    reveal_strlit("up");
    reveal_strlit("down");
    reveal_strlit("left");
    reveal_strlit("right");
    reveal_strlit("home");
    reveal_strlit("end");
    reveal_strlit("pageup");
    reveal_strlit("pagedown");
    reveal_strlit("tab");
    reveal_strlit("delete");
    reveal_strlit("insert");
    reveal_strlit("escape");
}

/// Reading back the name of a key gives the key.
proof fn lemma_key_code_roundtrip(code: KeyCode)
    requires
        is_printable(code),
        code matches KeyCode::Char(c) ==> (c as u32) < 128,
    ensures
        spec_key_code_from(spec_code_name(code)) == Ok::<KeyCode, Seq<char>>(code),
{
    lemma_name_keys();
    let name = spec_code_name(code);
    if name == "backspace"@ { assert(name_key(name) == name_key("backspace"@)); }
    if name == "enter"@ { assert(name_key(name) == name_key("enter"@)); }
    if name == "up"@ { assert(name_key(name) == name_key("up"@)); }
    if name == "down"@ { assert(name_key(name) == name_key("down"@)); }
    if name == "left"@ { assert(name_key(name) == name_key("left"@)); }
    if name == "right"@ { assert(name_key(name) == name_key("right"@)); }
    if name == "home"@ { assert(name_key(name) == name_key("home"@)); }
    if name == "end"@ { assert(name_key(name) == name_key("end"@)); }
    if name == "pageup"@ { assert(name_key(name) == name_key("pageup"@)); }
    if name == "pagedown"@ { assert(name_key(name) == name_key("pagedown"@)); }
    if name == "tab"@ { assert(name_key(name) == name_key("tab"@)); }
    if name == "delete"@ { assert(name_key(name) == name_key("delete"@)); }
    if name == "insert"@ { assert(name_key(name) == name_key("insert"@)); }
    if name == "escape"@ { assert(name_key(name) == name_key("escape"@)); }
}

/// Splitting `a + b`, where `b` has no dash, adds `b` to the last piece of
/// `a`.
proof fn lemma_split_dash_free_suffix(a: Seq<char>, b: Seq<char>, k: int)
    requires
        0 <= k <= b.len(),
        forall|i: int| 0 <= i < b.len() ==> b[i] != '-',
    ensures
        split_dashes_upto(a + b, a.len() + k) == split_dashes_upto(a, a.len() as int).update(
            split_dashes_upto(a, a.len() as int).len() - 1,
            split_dashes_upto(a, a.len() as int).last() + b.take(k),
        ),
    decreases k,
{
    lemma_split_dashes_nonempty(a, a.len() as int);
    let s = a + b;
    let base = split_dashes_upto(a, a.len() as int);
    if k == 0 {
        assert forall|end: int| end <= a.len() implies split_dashes_upto(s, end) == split_dashes_upto(
            a,
            end,
        ) by {
            lemma_split_prefix(a, b, end);
        }
        assert(base.last() + b.take(0) =~= base.last());
        assert(base.update(base.len() - 1, base.last()) =~= base);
    } else {
        lemma_split_dash_free_suffix(a, b, k - 1);
        assert(s[a.len() + k - 1] == b[k - 1]);
        assert(base.last() + b.take(k) =~= (base.last() + b.take(k - 1)).push(b[k - 1]));
        let prev = split_dashes_upto(s, a.len() + k - 1);
        assert(split_dashes_upto(s, a.len() + k) =~= base.update(
            base.len() - 1,
            base.last() + b.take(k),
        ));
    }
}

proof fn lemma_split_prefix(a: Seq<char>, b: Seq<char>, end: int)
    requires
        end <= a.len(),
    ensures
        split_dashes_upto(a + b, end) == split_dashes_upto(a, end),
    decreases end,
{
    if end > 0 {
        lemma_split_prefix(a, b, end - 1);
        assert((a + b)[end - 1] == a[end - 1]);
    }
}

/// Reading back the text of a keypress gives the keypress, when it has at
/// most one modifier and its key, if a character, is a one-byte character
/// other than `-`.
pub proof fn lemma_keypress_text_roundtrip(keypress: Keypress)
    requires
        is_printable(keypress.code),
        keypress.code matches KeyCode::Char(c) ==> (c as u32) < 128 && c != '-',
        keypress.modifiers == NONE || keypress.modifiers == SHIFT || keypress.modifiers == CONTROL
            || keypress.modifiers == ALT,
    ensures
        spec_parse_keypress(keypress.spec_text()) == Ok::<Keypress, Seq<char>>(keypress),
{
    broadcast use vstd::string::group_string_axioms;

    let name = spec_code_name(keypress.code);
    let prefix = spec_modifier_prefix(keypress.modifiers);
    lemma_key_code_roundtrip(keypress.code);
    lemma_name_keys();
    reveal_strlit("backspace");
    reveal_strlit("enter");
    reveal_strlit("up");
    reveal_strlit("down");
    reveal_strlit("left");
    reveal_strlit("right");
    reveal_strlit("home");
    reveal_strlit("end");
    reveal_strlit("pageup");
    reveal_strlit("pagedown");
    reveal_strlit("tab");
    reveal_strlit("delete");
    reveal_strlit("insert");
    reveal_strlit("escape");
    reveal_strlit("C-");
    reveal_strlit("A-");
    reveal_strlit("S-");
    assert(name.len() >= 1);
    assert forall|i: int| 0 <= i < name.len() implies name[i] != '-' by {}
    lemma_split_dash_free_suffix(prefix, name, name.len() as int);
    assert(name.take(name.len() as int) =~= name);
    let pieces = split_dashes(prefix + name);
    if keypress.modifiers == NONE {
        assert(prefix =~= Seq::<char>::empty());
        assert(prefix + name =~= name);
        assert(pieces =~~= seq![name]);
        assert(pieces.last() == name);
        assert(pieces.drop_last().len() == 0);
        assert(fold_modifiers(pieces.drop_last(), 0) == Ok::<u8, Seq<char>>(NONE));
    } else {
        let letter = prefix[0];
        if keypress.modifiers == CONTROL {
            assert(letter == 'C');
        } else if keypress.modifiers == ALT {
            assert(letter == 'A');
        } else {
            assert(letter == 'S');
        }
        assert(prefix =~= seq![letter, '-']);
        assert(split_dashes_upto(prefix, 0) =~~= seq![Seq::<char>::empty()]);
        assert(split_dashes_upto(prefix, 1) =~~= seq![seq![letter]]);
        assert(split_dashes_upto(prefix, 2) =~~= seq![seq![letter], Seq::empty()]);
        assert(pieces =~~= seq![seq![letter], name]);
        assert(pieces.drop_last() =~~= seq![seq![letter]]);
        assert(is_single_ascii(seq![letter]));
        assert(0u8 | 1u8 == 1u8) by (bit_vector);
        assert(0u8 | 2u8 == 2u8) by (bit_vector);
        assert(0u8 | 4u8 == 4u8) by (bit_vector);
        assert(pieces.last() == name);
        assert(spec_modifier_piece(seq![letter]) == Ok::<u8, Seq<char>>(keypress.modifiers));
        assert(fold_modifiers(pieces.drop_last(), 0) == Ok::<u8, Seq<char>>(NONE));
        assert(fold_modifiers(pieces.drop_last(), 1) == Ok::<u8, Seq<char>>(keypress.modifiers));
    }
    assert(keypress.spec_text() == prefix + name);
}

} // verus!
