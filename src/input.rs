//! Normalization and checks of the text to prepend.
use vstd::prelude::*;

use crate::error::PrependError;

verus! {

/// The text with a line terminator appended when it does not already end with one.
pub open spec fn normalized(s: Seq<char>) -> Seq<char> {
    if s.len() > 0 && s.last() == '\n' {
        s
    } else {
        s.push('\n')
    }
}

/// Whether `s` ends with a line terminator.
pub fn ends_with_newline(s: &str) -> (r: bool)
    ensures
        r == (s@.len() > 0 && s@.last() == '\n'),
{
    let n = s.unicode_len();
    n > 0 && s.get_char(n - 1) == '\n'
}

/// Returns `s` terminated by exactly the line terminator it needs: unchanged
/// when it already ends with one, otherwise with one appended.
pub fn normalize_text(s: &str) -> (r: String)
    ensures
        r@ == normalized(s@),
{
    let mut r = String::from_str(s);
    if !ends_with_newline(s) {
        r.append("\n");
        proof { reveal_strlit("\n"); }
        assert(r@ =~= s@.push('\n'));
    }
    r
}

/// Whether `c` is white space: the characters that carry Unicode's
/// `White_Space` property, as `char::is_whitespace` and `str::trim` use them.
pub open spec fn is_space(c: char) -> bool {
    ('\u{9}' <= c && c <= '\u{d}') || c == ' ' || c == '\u{85}' || c == '\u{a0}'
        || c == '\u{1680}' || ('\u{2000}' <= c && c <= '\u{200a}') || c == '\u{2028}'
        || c == '\u{2029}' || c == '\u{202f}' || c == '\u{205f}' || c == '\u{3000}'
}

/// Whether `s` holds nothing but white space (the empty text included).
pub open spec fn blank(s: Seq<char>) -> bool {
    forall|i: int| 0 <= i < s.len() ==> is_space(#[trigger] s[i])
}

/// Whether `c` is white space.
pub fn is_space_char(c: char) -> (r: bool)
    ensures
        r == is_space(c),
{
    ('\u{9}' <= c && c <= '\u{d}') || c == ' ' || c == '\u{85}' || c == '\u{a0}'
        || c == '\u{1680}' || ('\u{2000}' <= c && c <= '\u{200a}') || c == '\u{2028}'
        || c == '\u{2029}' || c == '\u{202f}' || c == '\u{205f}' || c == '\u{3000}'
}

/// Whether `s` is empty or white space only.
pub fn is_blank(s: &str) -> (r: bool)
    ensures
        r == blank(s@),
{
    broadcast use vstd::string::axiom_spec_iter;
    let mut all: bool = true;
    for c in it: s.chars()
        invariant
            it.seq() == s@,
            all == (forall|i: int| 0 <= i < it.index() ==> is_space(#[trigger] s@[i])),
    {
        all = all && is_space_char(c);
    }
    all
}

/// The text to prepend, given as an argument: normalized to end with a line
/// terminator.
pub fn text_from_argument(arg: &str) -> (r: String)
    ensures
        r@ == normalized(arg@),
{
    normalize_text(arg)
}

/// The text to prepend, read interactively: refused when it is empty or
/// white space only, otherwise normalized to end with a line terminator.
pub fn text_from_input(input: &str) -> (r: Result<String, PrependError>)
    ensures
        blank(input@) ==> r == Err::<String, PrependError>(PrependError::EmptyInput),
        !blank(input@) ==> (r is Ok && r->Ok_0@ == normalized(input@)),
{
    if is_blank(input) {
        Err(PrependError::EmptyInput)
    } else {
        Ok(normalize_text(input))
    }
}

} // verus!
