//! Which literals the SDK can turn into a symbol at compile time.
use vstd::prelude::*;

verus! {

/// A character that a symbol can hold: an ASCII letter or digit, or `_`.
pub open spec fn symbol_char(c: char) -> bool {
    ||| 'a' <= c <= 'z'
    ||| 'A' <= c <= 'Z'
    ||| '0' <= c <= '9'
    ||| c == '_'
}

/// A text that a short symbol can hold: one to nine symbol characters.
pub open spec fn valid_short_symbol(text: Seq<char>) -> bool {
    &&& 1 <= text.len() <= 9
    &&& forall|i: int| 0 <= i < text.len() ==> #[trigger] symbol_char(text[i])
}

/// Symbol characters take one byte each.
pub(crate) proof fn lemma_symbol_chars_take_a_byte(text: Seq<char>)
    requires
        forall|i: int| 0 <= i < text.len() ==> #[trigger] symbol_char(text[i]),
    ensures
        vstd::utf8::encode_utf8(text).len() == text.len(),
{
    assert forall|i: int| 0 <= i < text.len() implies '\0' <= #[trigger] text[i] <= '\u{7f}' by {
        assert(symbol_char(text[i]));
    }
    vstd::utf8::is_ascii_chars_encode_utf8(text);
}

/// Whether `s` is a valid short symbol: one to nine characters, all of them from `a-zA-Z0-9_`.
pub fn is_valid_short_symbol(s: &str) -> (valid: bool)
    ensures
        valid == valid_short_symbol(s@),
{
    // A text of symbol characters has as many bytes as characters.
    let byte_len: usize = s.as_bytes().len();
    proof {
        if forall|i: int| 0 <= i < s@.len() ==> #[trigger] symbol_char(s@[i]) {
            lemma_symbol_chars_take_a_byte(s@);
        }
    }
    if byte_len > 9 || s.is_empty() {
        return false;
    }
    for c in iter: s.chars()
        invariant
            iter.seq() == s@,
            forall|j: int| 0 <= j < iter.index() ==> #[trigger] symbol_char(s@[j]),
    {
        if !('a' <= c && c <= 'z' || 'A' <= c && c <= 'Z' || '0' <= c && c <= '9' || c == '_') {
            assert(!symbol_char(s@[iter.index()]));
            return false;
        }
    }
    true
}

} // verus!
