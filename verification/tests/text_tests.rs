use fpui::text::{decimal_string, same_text, trim_str, wide_null};

#[test]
fn trim_removes_ascii_whitespace_at_both_ends() {
    assert_eq!(trim_str("  d:\\chrome \t\n"), "d:\\chrome");
}

#[test]
fn trim_keeps_inner_whitespace() {
    assert_eq!(trim_str(" a b "), "a b");
}

#[test]
fn trim_removes_unicode_whitespace() {
    assert_eq!(trim_str("\u{3000}\u{00A0}zh-CN\u{2009}"), "zh-CN");
}

#[test]
fn trim_of_only_whitespace_is_empty() {
    assert_eq!(trim_str(" \t \r\n"), "");
    assert_eq!(trim_str(""), "");
}

#[test]
fn trim_is_idempotent_on_examples() {
    for s in ["  x  ", "\u{205F}y", "z\u{1680}", "", "   "] {
        let once = trim_str(s);
        assert_eq!(trim_str(once), once);
    }
}

#[test]
fn trim_matches_std_on_examples() {
    for s in ["  x  ", "\u{205F}y\u{85}", "\u{200B}z", "a\u{180E}", "\u{FEFF}q "] {
        assert_eq!(trim_str(s), s.trim());
    }
}

#[test]
fn same_text_compares_characters() {
    assert!(same_text("linux", "linux"));
    assert!(!same_text("linux", "Linux"));
    assert!(!same_text("linux", "linu"));
    assert!(same_text("", ""));
}

#[test]
fn decimal_string_writes_numbers() {
    assert_eq!(decimal_string(0), "0");
    assert_eq!(decimal_string(7), "7");
    assert_eq!(decimal_string(10), "10");
    assert_eq!(decimal_string(1234567890), "1234567890");
    assert_eq!(decimal_string(u32::MAX), "4294967295");
}

#[test]
fn decimal_string_matches_to_string() {
    for n in [0u32, 9, 99, 100, 65535, 3000000000] {
        assert_eq!(decimal_string(n), n.to_string());
    }
}

#[test]
fn wide_null_encodes_ascii() {
    assert_eq!(wide_null("AppsUseLightTheme"), {
        let mut v: Vec<u16> = "AppsUseLightTheme".encode_utf16().collect();
        v.push(0);
        v
    });
    assert_eq!(wide_null(""), vec![0u16]);
}

#[test]
fn wide_null_encodes_surrogate_pairs() {
    assert_eq!(wide_null("\u{1F600}"), vec![0xD83D, 0xDE00, 0]);
    assert_eq!(wide_null("无"), vec![0x65E0, 0]);
}
