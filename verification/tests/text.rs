use bulk_download::text::{is_ascii_whitespace, same_text, split_ascii_whitespace};

fn tokens(text: &str) -> Vec<String> {
    split_ascii_whitespace(text)
}

#[test]
fn the_five_separators() {
    for c in [' ', '\t', '\n', '\u{c}', '\r'] {
        assert!(is_ascii_whitespace(c));
    }
    for c in ['a', '0', '/', '\u{b}', '\u{a0}', '\u{2003}', '\u{0}', '\u{85}'] {
        assert!(!is_ascii_whitespace(c));
    }
}

#[test]
fn separators_agree_with_the_standard_library() {
    for code in 0u32..0x3000 {
        if let Some(c) = char::from_u32(code) {
            assert_eq!(is_ascii_whitespace(c), c.is_ascii_whitespace());
        }
    }
}

#[test]
fn text_splits_at_any_run_of_separators() {
    assert_eq!(tokens("a b"), vec!["a", "b"]);
    assert_eq!(tokens("a  b"), vec!["a", "b"]);
    assert_eq!(tokens("  a \t\r\n b\u{c}c\n"), vec!["a", "b", "c"]);
    assert_eq!(tokens("one"), vec!["one"]);
    assert_eq!(tokens("one\n"), vec!["one"]);
    assert_eq!(tokens("\none"), vec!["one"]);
}

#[test]
fn empty_and_blank_texts_have_no_token() {
    assert_eq!(tokens(""), Vec::<String>::new());
    assert_eq!(tokens(" "), Vec::<String>::new());
    assert_eq!(tokens("\n\n\t \r\u{c}"), Vec::<String>::new());
}

#[test]
fn other_white_space_does_not_split() {
    assert_eq!(tokens("a\u{a0}b"), vec!["a\u{a0}b"]);
    assert_eq!(tokens("a\u{b}b c"), vec!["a\u{b}b", "c"]);
    assert_eq!(tokens("caf\u{e9} \u{65e5}\u{672c}"), vec!["caf\u{e9}", "\u{65e5}\u{672c}"]);
}

#[test]
fn splitting_agrees_with_the_standard_library() {
    let texts = [
        "",
        " ",
        "https://example.org/a.dat https://example.org/b.dat",
        "https://example.org/x.dat\nhttps://example.org/y.dat",
        "\t a\tb \r\n c\u{c}\u{c}d \u{b} e\u{a0}f ",
    ];
    for text in texts {
        let expected: Vec<&str> = text.split_ascii_whitespace().collect();
        assert_eq!(tokens(text), expected);
    }
}

#[test]
fn same_text_compares_character_by_character() {
    assert!(same_text("", ""));
    assert!(same_text("input.meta.json", "input.meta.json"));
    assert!(!same_text("input.meta.json", "input.meta.jso"));
    assert!(!same_text("input.meta.jso", "input.meta.json"));
    assert!(!same_text("input.meta.json", "input.meta.jsoN"));
    assert!(!same_text("", "a"));
    assert!(same_text("\u{65e5}\u{672c}", "\u{65e5}\u{672c}"));
}
