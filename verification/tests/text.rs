use slink::text::{char_is_whitespace, trim};

#[test]
fn whitespace_is_what_std_calls_whitespace_for_every_char() {
    let mut code: u32 = 0;
    while code <= 0x10FFFF {
        if let Some(c) = char::from_u32(code) {
            assert_eq!(char_is_whitespace(c), c.is_whitespace(), "U+{:04X}", code);
        }
        code += 1;
    }
}

#[test]
fn whitespace_edges() {
    assert!(char_is_whitespace('\t'));
    assert!(char_is_whitespace('\r'));
    assert!(!char_is_whitespace('\u{0008}'));
    assert!(!char_is_whitespace('\u{000E}'));
    assert!(char_is_whitespace('\u{2000}'));
    assert!(char_is_whitespace('\u{200A}'));
    assert!(!char_is_whitespace('\u{200B}'));
    assert!(!char_is_whitespace('\u{1FFF}'));
    assert!(char_is_whitespace('\u{3000}'));
    assert!(!char_is_whitespace('a'));
    assert!(!char_is_whitespace('/'));
}

#[test]
fn trim_removes_whitespace_at_both_ends_only() {
    assert_eq!(trim("  example.org  "), "example.org");
    assert_eq!(trim("example.org\n"), "example.org");
    assert_eq!(trim("\t\r\n host with space \u{00A0}\u{3000}"), "host with space");
    assert_eq!(trim("a"), "a");
    assert_eq!(trim(" a"), "a");
    assert_eq!(trim("a "), "a");
}

#[test]
fn trim_of_nothing_but_whitespace_is_empty() {
    assert_eq!(trim(""), "");
    assert_eq!(trim(" "), "");
    assert_eq!(trim(" \n\t\u{2028}\u{2029} "), "");
}

#[test]
fn trim_keeps_what_is_no_whitespace() {
    assert_eq!(trim("\u{200B}x\u{200B}"), "\u{200B}x\u{200B}");
    assert_eq!(trim("\u{FEFF}x"), "\u{FEFF}x");
    assert_eq!(trim("h\u{00E9}te"), "h\u{00E9}te");
}

#[test]
fn trim_agrees_with_std() {
    let samples = [
        "",
        " ",
        "x",
        "  x  y  ",
        "\n\nx\n\n",
        "\u{0085}x\u{0085}",
        "\u{1680}\u{2003}caf\u{00E9}\u{202F}\u{205F}",
        "\u{1F600} smile \u{1F600}",
        " \u{000B}\u{000C} ",
        "user@host:22",
    ];
    for s in samples {
        assert_eq!(trim(s), s.trim(), "{:?}", s);
    }
}

#[test]
fn trim_twice_is_trim_once() {
    for s in ["  a b  ", "\tx", "y\n", "   ", "plain"] {
        let once = trim(s);
        assert_eq!(trim(&once), once);
    }
}
