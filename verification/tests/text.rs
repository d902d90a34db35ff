use codex_rs::text::{
    ends_with, is_whitespace, last_slash_segment, same_text, starts_with, to_ascii_lowercase,
    trim, trim_end_matching,
};

#[test]
fn whitespace_matches_std() {
    for u in 0u32..0x3100 {
        if let Some(c) = char::from_u32(u) {
            assert_eq!(is_whitespace(c), c.is_whitespace(), "char {u:#x}");
        }
    }
    for c in ['\u{feff}', '\u{10ffff}', 'a', '\u{180e}'] {
        assert_eq!(is_whitespace(c), c.is_whitespace());
    }
}

#[test]
fn trim_matches_std_trim() {
    for s in [
        "",
        "   ",
        "  abc  ",
        "\t\n x y \r\n",
        "\u{3000}dir\u{a0}",
        "no-space",
        "\u{85}\u{2028}a\u{2029}",
    ] {
        assert_eq!(trim(s), s.trim());
    }
}

#[test]
fn trim_end_matching_drops_all_trailing() {
    assert_eq!(trim_end_matching("a/b///", '/'), "a/b");
    assert_eq!(trim_end_matching("///", '/'), "");
    assert_eq!(trim_end_matching("abc", '/'), "abc");
}

#[test]
fn prefix_and_suffix_checks() {
    assert!(ends_with("/v1/realtime", "/realtime"));
    assert!(!ends_with("/realtime", "/v1/realtime"));
    assert!(ends_with("x", ""));
    assert!(starts_with("Documents", "Doc"));
    assert!(!starts_with("Doc", "Documents"));
    assert!(same_text("é", "é"));
    assert!(!same_text("ab", "abc"));
}

#[test]
fn ascii_lowercase_leaves_other_chars() {
    assert_eq!(to_ascii_lowercase("ÄbC-Z_é"), "Äbc-z_é");
    assert_eq!(to_ascii_lowercase("MiXeD"), "MiXeD".to_ascii_lowercase());
}

#[test]
fn last_segment_after_slash() {
    assert_eq!(last_slash_segment("/v1/realtime/calls/abc"), "abc");
    assert_eq!(last_slash_segment("plain"), "plain");
    assert_eq!(last_slash_segment("ends/"), "");
}
