use soroban_cost_lints::is_valid_short_symbol;
use soroban_cost_lints::passes::symbol_new::symbol_short_call;

#[test]
fn accepts_letters_digits_and_underscores() {
    assert!(is_valid_short_symbol("a"));
    assert!(is_valid_short_symbol("balance"));
    assert!(is_valid_short_symbol("Az_09"));
    assert!(is_valid_short_symbol("_"));
    assert!(is_valid_short_symbol("zZ90aA"));
}

#[test]
fn accepts_nine_characters_and_rejects_ten() {
    assert!(is_valid_short_symbol("abcdefghi"));
    assert!(!is_valid_short_symbol("abcdefghij"));
}

#[test]
fn rejects_the_empty_text() {
    assert!(!is_valid_short_symbol(""));
}

#[test]
fn rejects_other_characters() {
    for text in ["a b", "a-b", "a.b", "@", "[", "`", "{", "/", ":", "a\0", "a\n"] {
        assert!(!is_valid_short_symbol(text), "{text:?}");
    }
}

#[test]
fn rejects_characters_outside_ascii() {
    assert!(!is_valid_short_symbol("é"));
    assert!(!is_valid_short_symbol("caf\u{e9}"));
    assert!(!is_valid_short_symbol("\u{1F980}\u{1F980}\u{1F980}"));
    assert!(!is_valid_short_symbol("١٢٣"));
}

#[test]
fn the_replacement_quotes_the_snippet() {
    assert_eq!(symbol_short_call("\"balance\""), "symbol_short!(\"balance\")");
    assert_eq!(symbol_short_call(""), "symbol_short!()");
    assert_eq!(symbol_short_call("r\"x\""), "symbol_short!(r\"x\")");
}
