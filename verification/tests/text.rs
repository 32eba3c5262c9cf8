use pass::text::{is_whitespace_char, trim};

#[test]
fn trim_removes_both_ends() {
    assert_eq!(trim("  ab \n"), "ab");
    assert_eq!(trim("github: aZ9!xQ\n"), "github: aZ9!xQ");
    assert_eq!(trim("\r\n\tx y\t\r\n"), "x y");
}

#[test]
fn trim_keeps_inner_whitespace() {
    assert_eq!(trim("a  b"), "a  b");
    assert_eq!(trim(" a \n b "), "a \n b");
}

#[test]
fn trim_of_blank_text_is_empty() {
    assert_eq!(trim(""), "");
    assert_eq!(trim(" "), "");
    assert_eq!(trim(" \t\r\n\u{3000}"), "");
}

#[test]
fn trim_leaves_clean_text_alone() {
    assert_eq!(trim("x"), "x");
    assert_eq!(trim("name: password"), "name: password");
}

#[test]
fn trim_agrees_with_the_standard_library() {
    for s in [
        "",
        " ",
        "a",
        " a",
        "a ",
        "\u{a0}a\u{85}",
        "\u{2003}caf\u{e9}\u{2028}\u{2029}",
        "\u{200b}a\u{200b}",
        "\u{180e}a\u{feff}",
        "\u{b}\u{c}x\u{1680}\u{202f}\u{205f}",
        "  \u{1f512} lock  ",
    ] {
        assert_eq!(trim(s), s.trim(), "on {:?}", s);
    }
}

#[test]
fn whitespace_agrees_with_the_standard_library() {
    for code in 0u32..=0x10FFFF {
        if let Some(c) = char::from_u32(code) {
            assert_eq!(is_whitespace_char(c), c.is_whitespace(), "on U+{:04X}", code);
        }
    }
}

#[test]
fn trimming_twice_changes_nothing() {
    for s in ["  a b  ", "\n", "", "x", "\u{3000}\u{e9} \u{e9}\t"] {
        let once = trim(s);
        assert_eq!(trim(&once), once);
        assert!(!once.starts_with(char::is_whitespace));
        assert!(!once.ends_with(char::is_whitespace));
    }
}
