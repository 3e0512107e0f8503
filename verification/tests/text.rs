use fs_browser::text::{
    concatenate, contains_char, decimal_string, hex_digit, replace_all, starts_with, str_eq, trim,
    truncate_chars,
};

#[test]
fn trim_removes_unicode_white_space() {
    assert_eq!(trim("  a b \t\n"), "a b");
    assert_eq!(trim("\u{3000}x\u{a0}"), "x");
    assert_eq!(trim("   "), "");
    assert_eq!(trim(""), "");
}

#[test]
fn trim_matches_std() {
    for s in ["", " ", "ab", " a ", "\u{2028}z\u{85}", "\u{200b}y"] {
        assert_eq!(trim(s), s.trim());
    }
}

#[test]
fn replace_all_matches_std() {
    for (s, p, r) in [("aaa", "aa", "b"), ("x{q}y{q}", "{q}", "--"), ("none", "z", "y"), ("", "a", "b")] {
        assert_eq!(replace_all(s, p, r), s.replace(p, r));
    }
}

#[test]
fn starts_with_and_contains() {
    assert!(starts_with("https://x", "https://"));
    assert!(!starts_with("http", "https://"));
    assert!(starts_with("abc", ""));
    assert!(contains_char("a.b", '.'));
    assert!(!contains_char("ab", '.'));
}

#[test]
fn equality_and_concat() {
    assert!(str_eq("é", "é"));
    assert!(!str_eq("a", "ab"));
    assert_eq!(concatenate("ab", "cd"), "abcd");
}

#[test]
fn number_formatting() {
    assert_eq!(hex_digit(0), '0');
    assert_eq!(hex_digit(0xA), 'A');
    assert_eq!(hex_digit(0xF), 'F');
    assert_eq!(decimal_string(0), "0");
    assert_eq!(decimal_string(1234567890), "1234567890");
    assert_eq!(decimal_string(u64::MAX), u64::MAX.to_string());
}

#[test]
fn truncation_counts_characters() {
    assert_eq!(truncate_chars("héllo", 2), "hé");
    assert_eq!(truncate_chars("hi", 20), "hi");
}
