//! Comparing text.
use vstd::prelude::*;

verus! {

/// The characters of `text`.
fn char_vec(text: &str) -> (chars: Vec<char>)
    ensures
        chars@ == text@,
{
    let mut chars: Vec<char> = Vec::new();
    for c in iter: text.chars()
        invariant
            iter.seq() == text@,
            chars@ == text@.take(iter.index()),
    {
        chars.push(c);
        assert(chars@ =~= text@.take(iter.index() + 1));
    }
    assert(text@.take(text@.len() as int) =~= text@);
    chars
}

/// Whether the two texts are the same.
pub(crate) fn same_text(a: &str, b: &str) -> (same: bool)
    ensures
        same == (a@ == b@),
{
    let a_chars = char_vec(a);
    let b_chars = char_vec(b);
    if a_chars.len() != b_chars.len() {
        return false;
    }
    let mut i: usize = 0;
    while i < a_chars.len()
        invariant
            a_chars@ == a@,
            b_chars@ == b@,
            a_chars.len() == b_chars.len(),
            i <= a_chars.len(),
            forall|j: int| 0 <= j < i ==> a@[j] == b@[j],
        decreases a_chars.len() - i,
    {
        if a_chars[i] != b_chars[i] {
            return false;
        }
        i += 1;
    }
    assert(a@ =~= b@);
    true
}

/// Whether `text` ends with `suffix`.
pub(crate) fn ends_with(text: &str, suffix: &str) -> (found: bool)
    ensures
        found == suffix@.is_suffix_of(text@),
{
    let text_chars = char_vec(text);
    let suffix_chars = char_vec(suffix);
    if suffix_chars.len() > text_chars.len() {
        return false;
    }
    let start: usize = text_chars.len() - suffix_chars.len();
    let ghost end = text@.subrange(start as int, text@.len() as int);
    let mut i: usize = 0;
    while i < suffix_chars.len()
        invariant
            text_chars@ == text@,
            suffix_chars@ == suffix@,
            suffix_chars.len() <= text_chars.len(),
            start == text_chars.len() - suffix_chars.len(),
            end == text@.subrange(start as int, text@.len() as int),
            i <= suffix_chars.len(),
            forall|j: int| 0 <= j < i ==> end[j] == suffix@[j],
        decreases suffix_chars.len() - i,
    {
        if text_chars[start + i] != suffix_chars[i] {
            assert(end[i as int] != suffix@[i as int]);
            return false;
        }
        i += 1;
    }
    assert(end =~= suffix@);
    true
}

} // verus!
