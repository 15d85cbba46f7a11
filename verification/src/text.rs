//! Text as a sequence of Unicode scalars.

use vstd::prelude::*;

verus! {

/// The ASCII lower-case form of `c`: `'A'..='Z'` move to `'a'..='z'`, every
/// other scalar stays as it is.
pub open spec fn ascii_lower(c: char) -> char {
    if 'A' <= c && c <= 'Z' {
        ((c as u32) + 32) as char
    } else {
        c
    }
}

/// The ASCII upper-case form of `c`: `'a'..='z'` move to `'A'..='Z'`, every
/// other scalar stays as it is.
pub open spec fn ascii_upper(c: char) -> char {
    if 'a' <= c && c <= 'z' {
        ((c as u32) - 32) as char
    } else {
        c
    }
}

/// Whether Unicode counts `c` as an upper-case scalar. The property is a
/// table of the Unicode standard; it is named here and not written out.
pub uninterp spec fn unicode_uppercase(c: char) -> bool;

/// `rune` in the case of the letter it stands for: its ASCII upper-case form
/// where that letter is upper-case, `rune` itself where it is not.
pub open spec fn in_case(rune: char, upper: bool) -> char {
    if upper {
        ascii_upper(rune)
    } else {
        rune
    }
}

/// `s` with every scalar in its ASCII lower-case form.
pub open spec fn fold(s: Seq<char>) -> Seq<char> {
    s.map_values(|c: char| ascii_lower(c))
}

/// `char::to_ascii_lowercase` of the standard library, taken on trust: it maps
/// the ASCII letters `'A'..='Z'` to `'a'..='z'` and returns any other scalar
/// unchanged.
pub assume_specification[ char::to_ascii_lowercase ](c: &char) -> (lower: char)
    ensures
        lower == ascii_lower(*c),
;

/// `char::to_ascii_uppercase` of the standard library, taken on trust: it maps
/// the ASCII letters `'a'..='z'` to `'A'..='Z'` and returns any other scalar
/// unchanged.
pub assume_specification[ char::to_ascii_uppercase ](c: &char) -> (upper: char)
    ensures
        upper == ascii_upper(*c),
;

/// `char::is_uppercase` of the standard library, taken on trust: its answer
/// depends on the scalar alone, and [`unicode_uppercase`] is the name for it.
pub assume_specification[ char::is_uppercase ](c: char) -> (upper: bool)
    ensures
        upper == unicode_uppercase(c),
;

/// `String::push` of the standard library, taken on trust: it appends the one
/// scalar `c` to the end of the string.
pub assume_specification[ String::push ](s: &mut String, c: char)
    ensures
        final(s)@ == old(s)@.push(c),
;

/// Puts `rune` in the case of the letter it stands for.
pub fn put_in_case(rune: char, upper: bool) -> (cased: char)
    ensures
        cased == in_case(rune, upper),
{
    if upper {
        rune.to_ascii_uppercase()
    } else {
        rune
    }
}

/// The scalars of `text`, in order, for access by position.
pub fn scalars(text: &str) -> (chars: Vec<char>)
    ensures
        chars@ == text@,
{
    let mut chars: Vec<char> = Vec::new();
    for c in it: text.chars()
        invariant
            chars@ == it.seq().take(it.index() as int),
    {
        chars.push(c);
    }
    chars
}

/// The `len` scalars of `chars` that start at `start`, as a string.
pub fn window(chars: &Vec<char>, start: usize, len: usize) -> (key: String)
    requires
        start + len <= chars.len(),
    ensures
        key@ == chars@.subrange(start as int, start + len),
{
    let mut key = String::new();
    let mut i: usize = 0;
    while i < len
        invariant
            i <= len,
            start + len <= chars.len(),
            key@ == chars@.subrange(start as int, start + i),
        decreases len - i,
    {
        key.push(chars[start + i]);
        i += 1;
    }
    key
}

/// The `len` scalars of `chars` that start at `start`, each in its ASCII
/// lower-case form, as a string.
pub fn folded_window(chars: &Vec<char>, start: usize, len: usize) -> (key: String)
    requires
        start + len <= chars.len(),
    ensures
        key@ == fold(chars@.subrange(start as int, start + len)),
{
    let mut key = String::new();
    let mut i: usize = 0;
    while i < len
        invariant
            i <= len,
            start + len <= chars.len(),
            key@ == fold(chars@.subrange(start as int, start + i)),
        decreases len - i,
    {
        key.push(chars[start + i].to_ascii_lowercase());
        i += 1;
    }
    key
}

} // verus!
