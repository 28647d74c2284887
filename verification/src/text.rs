use vstd::prelude::*;
use vstd::string::{StrSliceExecFns, StringExecFns};

verus! {

/// Whether two string slices hold the same characters.
pub fn str_eq(a: &str, b: &str) -> (result: bool)
    ensures
        result == (a@ == b@),
{
    let n = a.unicode_len();
    let m = b.unicode_len();
    if n != m {
        return false;
    }
    let mut i: usize = 0;
    while i < n
        invariant
            n == a@.len(),
            m == b@.len(),
            n == m,
            i <= n,
            forall|j: int| 0 <= j < i ==> a@[j] == b@[j],
        decreases n - i,
    {
        if a.get_char(i) != b.get_char(i) {
            return false;
        }
        i += 1;
    }
    assert(a@ =~= b@);
    true
}

} // verus!

verus! {

/// The one-character string holding `character`.
///
/// Calls `<char as ToString>::to_string`; a character displays as itself,
/// so the string holds exactly that character.
#[verifier::external_body]
pub fn char_to_string(character: char) -> (result: String)
    ensures
        result@ == seq![character],
{
    character.to_string()
}

/// The characters of a string slice.
pub fn chars_of(text: &str) -> (result: Vec<char>)
    ensures
        result@ == text@,
{
    let n = text.unicode_len();
    let mut result: Vec<char> = Vec::new();
    let mut i: usize = 0;
    while i < n
        invariant
            n == text@.len(),
            i <= n,
            result@ == text@.subrange(0, i as int),
        decreases n - i,
    {
        result.push(text.get_char(i));
        i += 1;
        assert(result@ =~= text@.subrange(0, i as int));
    }
    assert(text@.subrange(0, n as int) =~= text@);
    result
}

/// A string holding the given characters.
pub fn string_from_chars(characters: &[char]) -> (result: String)
    ensures
        result@ == characters@,
{
    let mut result = String::new();
    let mut i: usize = 0;
    while i < characters.len()
        invariant
            i <= characters@.len(),
            result@ == characters@.subrange(0, i as int),
        decreases characters.len() - i,
    {
        let piece = char_to_string(characters[i]);
        result.append(piece.as_str());
        i += 1;
        assert(result@ =~= characters@.subrange(0, i as int));
    }
    assert(characters@.subrange(0, characters@.len() as int) =~= characters@);
    result
}

/// Whether the characters are those of `text`.
pub fn chars_eq_str(characters: &[char], text: &str) -> (result: bool)
    ensures
        result == (characters@ == text@),
{
    let n = text.unicode_len();
    if n != characters.len() {
        return false;
    }
    let mut i: usize = 0;
    while i < n
        invariant
            n == text@.len(),
            n == characters@.len(),
            i <= n,
            forall|j: int| 0 <= j < i ==> characters@[j] == text@[j],
        decreases n - i,
    {
        if characters[i] != text.get_char(i) {
            return false;
        }
        i += 1;
    }
    assert(characters@ =~= text@);
    true
}

} // verus!
