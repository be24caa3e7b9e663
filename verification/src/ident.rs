use crate::outside::{
    ascii_digit, ascii_letter, is_xid_continue, is_xid_start, xid_continue, xid_start,
};
use vstd::prelude::*;

verus! {

/// A character that may begin an identifier.
pub open spec fn ident_start(c: char) -> bool {
    c == '_' || xid_start(c)
}

/// The identifiers of the language, keywords among them: not empty, a first character
/// that may begin one, and then only characters that may continue one.
pub open spec fn valid_ident(s: Seq<char>) -> bool {
    &&& s.len() > 0
    &&& ident_start(s[0])
    &&& forall|i: int| 1 <= i < s.len() ==> xid_continue(#[trigger] s[i])
}

/// Whether every character is one of ASCII.
pub open spec fn ascii_only(s: Seq<char>) -> bool {
    forall|i: int| 0 <= i < s.len() ==> (#[trigger] s[i]) <= '\u{7f}'
}

/// A letter, a digit or the underscore.
pub open spec fn ascii_word(c: char) -> bool {
    ascii_letter(c) || ascii_digit(c) || c == '_'
}

/// The identifiers written in ASCII: not empty, a letter or the underscore first, then
/// letters, digits and underscores.
pub open spec fn ascii_ident(s: Seq<char>) -> bool {
    &&& s.len() > 0
    &&& (ascii_letter(s[0]) || s[0] == '_')
    &&& forall|i: int| 1 <= i < s.len() ==> ascii_word(#[trigger] s[i])
}

/// Whether `s` is an identifier of the language. Of a string in ASCII the answer is
/// known without the tables of Unicode.
pub fn is_valid_ident(s: &str) -> (r: bool)
    ensures
        r == valid_ident(s@),
        ascii_only(s@) ==> r == ascii_ident(s@),
{
    let mut first = true;
    for c in it: s.chars()
        invariant
            first == (it.index() == 0),
            it.seq() == s@,
            it.index() > 0 ==> ident_start(s@[0]),
            forall|i: int| 1 <= i < it.index() ==> xid_continue(#[trigger] s@[i]),
            it.index() > 0 && s@[0] <= '\u{7f}' ==> ascii_letter(s@[0]) || s@[0] == '_',
            forall|i: int|
                1 <= i < it.index() && (#[trigger] s@[i]) <= '\u{7f}' ==> ascii_word(s@[i]),
    {
        if first {
            if !(c == '_' || is_xid_start(c)) {
                return false;
            }
            first = false;
        } else if !is_xid_continue(c) {
            assert(s@[it.index()] == c);
            return false;
        }
    }
    !first
}

} // verus!
