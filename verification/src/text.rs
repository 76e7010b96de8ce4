//! Comparison of texts, and the form of identifiers.

use vstd::prelude::*;
use vstd::string::*;

verus! {

/// Whether `text` reads exactly `word`.
pub fn reads(text: &str, word: &str) -> (same: bool)
    ensures
        same == (text@ == word@),
{
    let left = String::from_str(text);
    let right = String::from_str(word);
    left == right
}

/// Whether `c` is in the ASCII range.
pub open spec fn is_ascii(c: char) -> bool {
    (c as u32) < 128
}

/// Whether `c` is one of the letters `a` to `z` and `A` to `Z`.
pub open spec fn ascii_letter(c: char) -> bool {
    ('a' <= c && c <= 'z') || ('A' <= c && c <= 'Z')
}

/// Whether `c` is one of the digits `0` to `9`.
pub open spec fn ascii_digit(c: char) -> bool {
    '0' <= c && c <= '9'
}

/// Whether a character has the Unicode property XID_Start: what
/// `unicode_ident::is_xid_start` answers.
pub uninterp spec fn xid_start(c: char) -> bool;

/// Whether a character has the Unicode property XID_Continue: what
/// `unicode_ident::is_xid_continue` answers.
pub uninterp spec fn xid_continue(c: char) -> bool;

/// `unicode_ident::is_xid_start` looks the character up in the crate's tables.
/// The contract claims that the answer is a function of the character, and
/// that in the ASCII range, which the crate decides by one constant, it is the
/// letters.
pub assume_specification[ unicode_ident::is_xid_start ](ch: char) -> (yes: bool)
    ensures
        yes == xid_start(ch),
        is_ascii(ch) ==> yes == ascii_letter(ch),
;

/// `unicode_ident::is_xid_continue` looks the character up in the crate's
/// tables. The contract claims that the answer is a function of the
/// character, and that in the ASCII range, which the crate decides by one
/// constant, it is the letters, the digits and the underscore.
pub assume_specification[ unicode_ident::is_xid_continue ](ch: char) -> (yes: bool)
    ensures
        yes == xid_continue(ch),
        is_ascii(ch) ==> yes == (ascii_letter(ch) || ascii_digit(ch) || ch == '_'),
;

/// Whether an identifier can begin with `c`: an underscore, an ASCII letter,
/// or a character of XID_Start beyond the ASCII range.
pub open spec fn starts_ident(c: char) -> bool {
    c == '_' || if is_ascii(c) {
        ascii_letter(c)
    } else {
        xid_start(c)
    }
}

/// Whether an identifier can go on with `c`: an underscore, an ASCII letter or
/// digit, or a character of XID_Continue beyond the ASCII range.
pub open spec fn continues_ident(c: char) -> bool {
    if is_ascii(c) {
        ascii_letter(c) || ascii_digit(c) || c == '_'
    } else {
        xid_continue(c)
    }
}

/// Whether `text` has the form of an identifier: it is not empty, begins with
/// a character that an identifier can begin with, and goes on with characters
/// that it can go on with. Keywords have that form too.
pub open spec fn is_ident(text: Seq<char>) -> bool {
    &&& text.len() > 0
    &&& starts_ident(text[0])
    &&& forall|i: int| 1 <= i < text.len() ==> continues_ident(#[trigger] text[i])
}

/// Whether `text` has the form of an identifier.
pub fn has_ident_form(text: &str) -> (yes: bool)
    ensures
        yes == is_ident(text@),
{
    let len = text.unicode_len();
    if len == 0 {
        return false;
    }
    let first = text.get_char(0);
    if first != '_' && !unicode_ident::is_xid_start(first) {
        return false;
    }
    let mut i: usize = 1;
    while i < len
        invariant
            1 <= i <= len,
            len == text@.len(),
            forall|j: int| 1 <= j < i ==> continues_ident(#[trigger] text@[j]),
        decreases len - i,
    {
        if !unicode_ident::is_xid_continue(text.get_char(i)) {
            return false;
        }
        i += 1;
    }
    true
}

} // verus!
