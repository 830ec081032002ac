//! Character helpers shared by the validators and parsers: spec-level
//! views of the std character classification and case-mapping functions.

use vstd::prelude::*;

verus! {

/// Whether a character is alphanumeric in the full Unicode sense.
/// Names the result of `char::is_alphanumeric`, which depends on the
/// character alone.
pub uninterp spec fn unicode_alphanumeric(c: char) -> bool;

/// Whether a character has the Unicode white-space property.
/// Names the result of `char::is_whitespace`, which depends on the
/// character alone.
pub uninterp spec fn unicode_whitespace(c: char) -> bool;

/// ASCII letters and digits.
pub open spec fn spec_is_ascii_alphanumeric(c: char) -> bool {
    ('0' <= c && c <= '9') || ('A' <= c && c <= 'Z') || ('a' <= c && c <= 'z')
}

/// The ASCII white-space characters: space, tab, line feed, vertical tab,
/// form feed and carriage return.
pub open spec fn spec_is_ascii_whitespace(c: char) -> bool {
    c == ' ' || c == '\t' || c == '\n' || c == '\u{b}' || c == '\u{c}' || c == '\r'
}

/// ASCII uppercase letters mapped to lowercase; every other character is
/// left unchanged.
pub open spec fn spec_lower_char(c: char) -> char {
    if 'A' <= c && c <= 'Z' {
        ((c as u32) + 32) as char
    } else {
        c
    }
}

/// Relies on char::is_alphanumeric: the result depends on the character
/// alone, and on ASCII characters it holds of exactly the letters and digits.
pub assume_specification[ char::is_alphanumeric ](c: char) -> (r: bool)
    ensures
        r == unicode_alphanumeric(c),
        c <= '\u{7f}' ==> r == spec_is_ascii_alphanumeric(c),
;

/// Relies on char::is_whitespace: the result depends on the character
/// alone, and on ASCII characters it holds of exactly space, tab, line
/// feed, vertical tab, form feed and carriage return.
pub assume_specification[ char::is_whitespace ](c: char) -> (r: bool)
    ensures
        r == unicode_whitespace(c),
        c <= '\u{7f}' ==> r == spec_is_ascii_whitespace(c),
;

/// Relies on char::to_ascii_lowercase: maps 'A'..='Z' to 'a'..='z' and
/// leaves every other character unchanged.
pub assume_specification[ char::to_ascii_lowercase ](c: &char) -> (r: char)
    ensures
        r == spec_lower_char(*c),
;

/// Relies on String::push: appends one character at the end of the string.
pub assume_specification[ String::push ](s: &mut String, ch: char)
    ensures
        final(s)@ == old(s)@.push(ch),
;

/// Whether two strings hold the same characters.
pub(crate) fn str_eq(a: &str, b: &str) -> (r: bool)
    ensures
        r == (a@ == b@),
{
    let na = a.unicode_len();
    let nb = b.unicode_len();
    if na != nb {
        return false;
    }
    let mut i: usize = 0;
    while i < na
        invariant
            na == a@.len(),
            na == b@.len(),
            0 <= i <= na,
            forall|j: int| 0 <= j < i ==> a@[j] == b@[j],
        decreases na - i,
    {
        if a.get_char(i) != b.get_char(i) {
            return false;
        }
        i += 1;
    }
    proof {
        assert(a@ =~= b@);
    }
    true
}

} // verus!
