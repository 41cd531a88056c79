//! Character and string primitives shared by the style engine.
//!
//! Whitespace is decided here, by code point. The alphabetic and numeric
//! classes and Unicode lower-casing come from the standard library: their
//! ASCII behaviour is stated exactly, the rest is named.
use vstd::prelude::*;

verus! {

/// The Unicode `White_Space` property (`PropList.txt`), which
/// `char::is_whitespace` decides: the controls U+0009 to U+000D, the space,
/// U+0085, the no-break space, U+1680, the spaces U+2000 to U+200A, the line
/// and paragraph separators, U+202F, U+205F and U+3000.
pub open spec fn char_whitespace(c: char) -> bool {
    let v = c as u32;
    ||| 0x09 <= v <= 0x0d
    ||| v == 0x20
    ||| v == 0x85
    ||| v == 0xa0
    ||| v == 0x1680
    ||| 0x2000 <= v <= 0x200a
    ||| v == 0x2028
    ||| v == 0x2029
    ||| v == 0x202f
    ||| v == 0x205f
    ||| v == 0x3000
}

/// Unicode `Alphabetic` property, as `char::is_alphabetic` decides it.
pub uninterp spec fn char_alphabetic(c: char) -> bool;

/// `Alphabetic` or `Numeric`, as `char::is_alphanumeric` decides it.
pub uninterp spec fn char_alphanumeric(c: char) -> bool;

/// What `str::to_lowercase` returns for a string.
pub uninterp spec fn str_lowercase(s: Seq<char>) -> Seq<char>;

/// What `char::to_uppercase` yields for a character, collected.
pub uninterp spec fn char_uppercase(c: char) -> Seq<char>;

pub open spec fn is_ascii(c: char) -> bool {
    (c as u32) < 128
}

pub open spec fn is_ascii_letter(c: char) -> bool {
    ('a' <= c && c <= 'z') || ('A' <= c && c <= 'Z')
}

pub open spec fn is_digit(c: char) -> bool {
    '0' <= c && c <= '9'
}

/// `char::is_whitespace`: whether the character has the Unicode
/// `White_Space` property, decided by its code point.
pub(crate) fn is_whitespace(c: char) -> (r: bool)
    ensures
        r == char_whitespace(c),
{
    let v = c as u32;
    (0x09 <= v && v <= 0x0d) || v == 0x20 || v == 0x85 || v == 0xa0 || v == 0x1680
        || (0x2000 <= v && v <= 0x200a) || v == 0x2028 || v == 0x2029 || v == 0x202f
        || v == 0x205f || v == 0x3000
}

/// `char::is_alphabetic`. For ASCII the standard library's source answers
/// with the Latin letters; beyond ASCII the property is only named here.
#[verifier::external_body]
pub(crate) fn is_alphabetic(c: char) -> (r: bool)
    ensures
        r == char_alphabetic(c),
        is_ascii(c) ==> (r <==> is_ascii_letter(c)),
{
    c.is_alphabetic()
}

/// `char::is_alphanumeric`, which the standard library defines as
/// `is_alphabetic() || is_numeric()`; for ASCII that is letters and digits.
/// The non-ASCII numeric property is only named here.
#[verifier::external_body]
pub(crate) fn is_alphanumeric(c: char) -> (r: bool)
    ensures
        r == char_alphanumeric(c),
        char_alphabetic(c) ==> r,
        is_ascii(c) ==> (r <==> (is_ascii_letter(c) || is_digit(c))),
{
    c.is_alphanumeric()
}

/// `String::push`: appends one character.
#[verifier::external_body]
pub(crate) fn push_char(s: &mut String, c: char)
    ensures
        final(s)@ == old(s)@.push(c),
{
    s.push(c)
}

/// `str::to_lowercase`. Beyond ASCII the Unicode case mapping is only
/// named here; a string of ASCII characters comes back with its letters
/// `A`-`Z` lowered and every other character kept.
#[verifier::external_body]
pub(crate) fn to_lowercase(s: &str) -> (r: String)
    ensures
        r@ == str_lowercase(s@),
        all_ascii(s@) ==> r@ == ascii_lowercase(s@),
{
    s.to_lowercase()
}

pub fn is_ascii_digit(c: char) -> (r: bool)
    ensures
        r == is_digit(c),
{
    c >= '0' && c <= '9'
}

/// The characters of a string, in order.
pub fn chars_of(s: &str) -> (r: Vec<char>)
    ensures
        r@ == s@,
{
    let mut v: Vec<char> = Vec::new();
    for c in it: s.chars()
        invariant
            it.seq() == s@,
            v@ == it.seq().take(it.index() as int),
    {
        v.push(c);
    }
    proof {
        assert(v@ =~= s@);
    }
    v
}

/// A string holding the given characters.
pub fn string_of(cs: &Vec<char>) -> (r: String)
    ensures
        r@ == cs@,
{
    let mut s = String::new();
    let mut i: usize = 0;
    while i < cs.len()
        invariant
            i <= cs.len(),
            s@ == cs@.take(i as int),
        decreases cs.len() - i,
    {
        push_char(&mut s, cs[i]);
        proof {
            assert(cs@.take(i as int).push(cs@[i as int]) =~= cs@.take(i + 1));
        }
        i = i + 1;
    }
    proof {
        assert(cs@.take(cs@.len() as int) =~= cs@);
    }
    s
}

/// ASCII lower-casing of one character (`char::to_ascii_lowercase`).
pub open spec fn ascii_lower(c: char) -> char {
    if 'A' <= c && c <= 'Z' {
        ((c as u32) + 32) as char
    } else {
        c
    }
}

/// Every character is ASCII.
pub open spec fn all_ascii(s: Seq<char>) -> bool {
    forall|i: int| 0 <= i < s.len() ==> is_ascii(#[trigger] s[i])
}

/// The string with its ASCII letters lowered (`str::to_ascii_lowercase`).
pub open spec fn ascii_lowercase(s: Seq<char>) -> Seq<char> {
    s.map_values(|c: char| ascii_lower(c))
}

/// ASCII upper-casing of one character (`char::to_ascii_uppercase`).
pub open spec fn ascii_upper(c: char) -> char {
    if 'a' <= c && c <= 'z' {
        ((c as u32) - 32) as char
    } else {
        c
    }
}

/// `char::to_uppercase`, collected into a string. Beyond ASCII the Unicode
/// case mapping (which may give several characters) is only named here; an
/// ASCII character comes back as itself, its letters `a`-`z` raised.
#[verifier::external_body]
pub(crate) fn to_uppercase_string(c: char) -> (r: String)
    ensures
        r@ == char_uppercase(c),
        is_ascii(c) ==> r@ == seq![ascii_upper(c)],
{
    c.to_uppercase().collect::<String>()
}

/// `str::eq_ignore_ascii_case`: same length, and equal after lower-casing
/// the ASCII letters of both.
pub open spec fn eq_ignore_ascii_case_spec(a: Seq<char>, b: Seq<char>) -> bool {
    a.len() == b.len() && forall|i: int| 0 <= i < a.len() ==> ascii_lower(#[trigger] a[i]) == ascii_lower(b[i])
}

fn lower_char(c: char) -> (r: char)
    ensures
        r == ascii_lower(c),
{
    if c >= 'A' && c <= 'Z' {
        let u: u8 = ((c as u32) + 32) as u8;
        u as char
    } else {
        c
    }
}

/// The string with its ASCII letters lowered and every other character kept.
pub fn to_ascii_lowercase(s: &str) -> (r: String)
    ensures
        r@ == ascii_lowercase(s@),
{
    let cs = chars_of(s);
    let mut out = String::new();
    let mut i: usize = 0;
    while i < cs.len()
        invariant
            cs@ == s@,
            i <= cs.len(),
            out@ == ascii_lowercase(cs@.take(i as int)),
        decreases cs.len() - i,
    {
        push_char(&mut out, lower_char(cs[i]));
        proof {
            assert(ascii_lowercase(cs@.take(i + 1)) =~= ascii_lowercase(cs@.take(i as int)).push(ascii_lower(cs@[i as int])));
        }
        i = i + 1;
    }
    proof {
        assert(cs@.take(cs.len() as int) =~= cs@);
    }
    out
}

pub fn eq_ignore_ascii_case(a: &str, b: &str) -> (r: bool)
    ensures
        r == eq_ignore_ascii_case_spec(a@, b@),
{
    let ca = chars_of(a);
    let cb = chars_of(b);
    if ca.len() != cb.len() {
        return false;
    }
    let mut i: usize = 0;
    while i < ca.len()
        invariant
            ca@ == a@,
            cb@ == b@,
            ca.len() == cb.len(),
            i <= ca.len(),
            forall|j: int| 0 <= j < i ==> ascii_lower(#[trigger] ca@[j]) == ascii_lower(cb@[j]),
        decreases ca.len() - i,
    {
        if lower_char(ca[i]) != lower_char(cb[i]) {
            return false;
        }
        i = i + 1;
    }
    true
}

} // verus!
