use glust_codegen::escape::{escape_literal, quote_literal};

#[test]
fn escapes_special_characters() {
    assert_eq!(escape_literal("a\"b\\c\nd\re\tf"), "a\\\"b\\\\c\\nd\\re\\tf");
    assert_eq!(escape_literal(""), "");
    assert_eq!(escape_literal("plain é"), "plain é");
}

#[test]
fn quoted_literal() {
    assert_eq!(quote_literal("x\"y"), "\"x\\\"y\"");
    assert_eq!(quote_literal(""), "\"\"");
}
