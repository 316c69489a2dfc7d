use proc_macro2::{TokenStream, TokenTree};
use std::str::FromStr;
use swagg::literal::quote;

#[test]
fn plain_text_is_put_between_quotes() {
    assert_eq!(quote("User not found"), "\"User not found\"");
    assert_eq!(quote(""), "\"\"");
}

#[test]
fn quote_is_escaped() {
    assert_eq!(quote("\""), "\"\\\"\"");
    assert_eq!(quote("a \"b\" c"), "\"a \\\"b\\\" c\"");
}

#[test]
fn backslash_is_escaped() {
    assert_eq!(quote("\\"), "\"\\\\\"");
    assert_eq!(quote("\\n"), "\"\\\\n\"");
}

#[test]
fn line_breaks_and_tabulators_are_escaped() {
    assert_eq!(quote("a\nb"), "\"a\\nb\"");
    assert_eq!(quote("a\rb"), "\"a\\rb\"");
    assert_eq!(quote("a\tb"), "\"a\\tb\"");
    assert_eq!(quote("\r\n"), "\"\\r\\n\"");
}

#[test]
fn other_characters_are_kept() {
    assert_eq!(quote("it's"), "\"it's\"");
    assert_eq!(quote("Grüße, 世界 {0}"), "\"Grüße, 世界 {0}\"");
}

#[test]
fn a_literal_lexes_as_one_string_literal() {
    for text in ["", "plain", "say \"hi\"", "C:\\temp\\", "two\nlines\r\n", "\ttab", "Grüße", "'"] {
        let stream = TokenStream::from_str(&quote(text)).unwrap();
        let trees: Vec<TokenTree> = stream.into_iter().collect();
        assert_eq!(trees.len(), 1, "{:?}", text);
        assert!(matches!(trees[0], TokenTree::Literal(_)), "{:?}", text);
    }
}
