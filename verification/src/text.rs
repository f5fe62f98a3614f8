//! Text as sequences of characters: ASCII lower-casing and substring search.
//!
//! Lower-casing here folds the letters `A` to `Z` and nothing else: every
//! other character, letter or not, stays as it is.

use vstd::prelude::*;

verus! {

/// The lower-case form of `c`: the letters `A` to `Z` become `a` to `z`,
/// every other character stays as it is.
pub open spec fn ascii_lower(c: char) -> char {
    if 'A' <= c && c <= 'Z' {
        ((c as u8) + 32) as char
    } else {
        c
    }
}

/// `s` with each character in its lower-case form.
pub open spec fn ascii_lowercase(s: Seq<char>) -> Seq<char> {
    Seq::new(s.len(), |i: int| ascii_lower(s[i]))
}

/// Whether `needle` stands in `hay` at index `at`.
pub open spec fn occurs_at(hay: Seq<char>, needle: Seq<char>, at: int) -> bool {
    &&& 0 <= at
    &&& at + needle.len() <= hay.len()
    &&& hay.subrange(at, at + needle.len()) == needle
}

/// Whether `needle` stands somewhere in `hay`.
pub open spec fn contains(hay: Seq<char>, needle: Seq<char>) -> bool {
    exists|at: int| occurs_at(hay, needle, at)
}

/// Computes the lower-case form of one character.
pub fn to_ascii_lower(c: char) -> (lowered: char)
    ensures
        lowered == ascii_lower(c),
{
    if 'A' <= c && c <= 'Z' {
        ((c as u8) + 32) as char
    } else {
        c
    }
}

/// Computes the lower-case form of a string, as a vector of characters.
pub fn to_ascii_lowercase(s: &str) -> (lowered: Vec<char>)
    ensures
        lowered@ == ascii_lowercase(s@),
{
    let mut lowered: Vec<char> = Vec::new();
    for c in it: s.chars()
        invariant
            it.seq() == s@,
            lowered@ == ascii_lowercase(s@.take(it.index() as int)),
    {
        lowered.push(to_ascii_lower(c));
    }
    lowered
}

/// Tells whether `needle` stands in `hay` at index `at`. An index at which
/// `needle` would run past the end of `hay` gives `false`.
pub fn matches_at(hay: &[char], needle: &[char], at: usize) -> (found: bool)
    ensures
        found == occurs_at(hay@, needle@, at as int),
{
    let span: usize = hay.len();
    let width: usize = needle.len();
    if at > span || width > span - at {
        return false;
    }
    let mut k: usize = 0;
    while k < width
        invariant
            span == hay@.len(),
            width == needle@.len(),
            k <= width,
            at + width <= span,
            forall|j: int| 0 <= j < k ==> hay@[at + j] == needle@[j],
        decreases width - k,
    {
        if hay[at + k] != needle[k] {
            return false;
        }
        k += 1;
    }
    assert(hay@.subrange(at as int, at + width) =~= needle@);
    true
}

/// Tells whether `needle` stands somewhere in `hay`. The empty needle stands
/// in every text.
pub fn contains_chars(hay: &[char], needle: &[char]) -> (found: bool)
    ensures
        found == contains(hay@, needle@),
{
    if needle.len() > hay.len() {
        return false;
    }
    let last: usize = hay.len() - needle.len();
    let mut at: usize = 0;
    loop
        invariant
            last == hay@.len() - needle@.len(),
            at <= last,
            forall|i: int| 0 <= i < at ==> !occurs_at(hay@, needle@, i),
        decreases last - at,
    {
        if matches_at(hay, needle, at) {
            return true;
        }
        if at == last {
            return false;
        }
        at += 1;
    }
}

/// Lower-casing twice is lower-casing once.
pub proof fn lemma_ascii_lowercase_idempotent(s: Seq<char>)
    ensures
        ascii_lowercase(ascii_lowercase(s)) == ascii_lowercase(s),
{
}

} // verus!
