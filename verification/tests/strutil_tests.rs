use estan::strutil::{eq_lowered, replace_str, trim_end_slashes, trim_str};

#[test]
fn trim_removes_ascii_whitespace_from_both_ends() {
    assert_eq!(trim_str("  a b\t"), "a b");
    assert_eq!(trim_str("\r\nx\n"), "x");
    assert_eq!(trim_str("   "), "");
    assert_eq!(trim_str(""), "");
    assert_eq!(trim_str("inner  space"), "inner  space");
}

#[test]
fn replace_substitutes_leftmost_without_overlap() {
    assert_eq!(replace_str("aaa", "aa", "b"), "ba");
    assert_eq!(replace_str("abcabc", "b", "xy"), "axycaxyc");
    assert_eq!(replace_str("none here", "zz", "q"), "none here");
    assert_eq!(replace_str("", "zz", "q"), "");
}

#[test]
fn lowered_comparison_is_ascii_only() {
    assert!(eq_lowered("TrUe", "true"));
    assert!(eq_lowered("on", "on"));
    assert!(!eq_lowered("truth", "true"));
    assert!(!eq_lowered("tru", "true"));
}

#[test]
fn trailing_slashes_are_stripped() {
    assert_eq!(trim_end_slashes("/a/b///"), "/a/b");
    assert_eq!(trim_end_slashes("/a/b"), "/a/b");
    assert_eq!(trim_end_slashes("///"), "");
}
